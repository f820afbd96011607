//! Launch injection engine: the environment and argument construction
//! for starting the game, with or without the mod-loader preloader.
//!
//! The engine plans, it does not spawn: it turns the caller's inputs into
//! an exact process description — executable, working directory,
//! environment assignments, argument list — which the caller hands to the
//! operating system. Without injection the plan is the bare executable
//! with the passthrough arguments untouched; with injection the
//! platform's preloading mechanism is encoded in it.

use vstd::prelude::*;

use crate::arch::Arch;
use crate::arch::spec_classify_header;
use crate::text::spec_starts_with;
use crate::text::starts_with;
use crate::text::str_views;

verus! {

/// How launching can fail before the process is even created.
#[derive(Clone, Copy, Debug, PartialEq, Eq, Structural)]
pub enum LaunchError {
    /// Injection was requested but the executable's machine type is not
    /// one the injection mechanism supports.
    UnsupportedArchitecture,
    /// Injection was requested and the executable's ELF header is
    /// recognizably malformed.
    MalformedExecutable,
    /// The operating system refused to create the child process.
    ProcessSpawnFailure,
}

/// One environment assignment the child process is started with.
#[derive(Clone, Debug, PartialEq, Eq)]
pub struct EnvVar {
    pub name: String,
    pub value: String,
}

/// The mathematical value of an `EnvVar`.
pub ghost struct EnvModel {
    pub name: Seq<char>,
    pub value: Seq<char>,
}

impl View for EnvVar {
    type V = EnvModel;

    open spec fn view(&self) -> EnvModel {
        EnvModel { name: self.name@, value: self.value@ }
    }
}

pub open spec fn env_views(v: Seq<EnvVar>) -> Seq<EnvModel> {
    v.map_values(|e: EnvVar| e@)
}

pub open spec fn opt_str_view(o: Option<String>) -> Option<Seq<char>> {
    match o {
        None => None,
        Some(s) => Some(s@),
    }
}

/// Everything the caller needs to start the child process.
pub struct LaunchPlan {
    pub exe: String,
    /// Working directory to start in, when the platform policy sets one.
    pub current_dir: Option<String>,
    pub env: Vec<EnvVar>,
    pub args: Vec<String>,
    /// Whether to detach the child from this process's console and
    /// standard streams, so this helper can exit freely.
    pub detach_console: bool,
}

/// The injection shim library matching an architecture.
pub open spec fn spec_shim_name(a: Arch) -> Seq<char> {
    match a {
        Arch::X86 => "libdoorstop_x86.so"@,
        Arch::X86_64 => "libdoorstop_x64.so"@,
    }
}

/// A search-path value: the base entry, with any inherited value
/// appended after a separator.
pub open spec fn spec_search_path_value(base: Seq<char>, inherited: Option<Seq<char>>) -> Seq<
    char,
> {
    match inherited {
        None => base,
        Some(v) => base + ":"@ + v,
    }
}

/// Where the preloader assembly sits inside the deployed state directory.
pub open spec fn spec_preloader_path(state_dir: Seq<char>) -> Seq<char> {
    state_dir + "/BepInEx/core/BepInEx.Preloader.dll"@
}

/// The five environment assignments POSIX-style injection sets: the
/// enable flag, the preloader path, the reference-library override, the
/// library search path, and the preload entry.
pub open spec fn spec_posix_env(
    project_state: Seq<char>,
    game_dir: Seq<char>,
    shim: Seq<char>,
    inherited_library_path: Option<Seq<char>>,
    inherited_preload: Option<Seq<char>>,
) -> Seq<EnvModel> {
    seq![
        EnvModel { name: "DOORSTOP_ENABLE"@, value: "TRUE"@ },
        EnvModel { name: "DOORSTOP_INVOKE_DLL_PATH"@, value: spec_preloader_path(project_state) },
        EnvModel {
            name: "DOORSTOP_CORLIB_OVERRIDE_PATH"@,
            value: game_dir + "/unstripped_corlib"@,
        },
        EnvModel {
            name: "LD_LIBRARY_PATH"@,
            value: spec_search_path_value(game_dir + "/doorstop_libs"@, inherited_library_path),
        },
        EnvModel { name: "LD_PRELOAD"@, value: spec_search_path_value(shim, inherited_preload) },
    ]
}

/// Copy a list of argument strings unchanged.
fn copy_strings(v: &Vec<String>) -> (r: Vec<String>)
    ensures
        r@ == v@,
{
    let mut out: Vec<String> = Vec::new();
    let n = v.len();
    let mut idx: usize = 0;
    while idx < n
        invariant
            0 <= idx <= n,
            n == v@.len(),
            out@ == v@.subrange(0, idx as int),
        decreases n - idx,
    {
        out.push(v[idx].clone());
        proof {
            assert(out@ =~= v@.subrange(0, idx as int + 1));
        }
        idx = idx + 1;
    }
    proof {
        assert(v@.subrange(0, n as int) =~= v@);
    }
    out
}

/// Append an inherited search-path value after a `:` separator.
fn append_inherited(base: String, inherited: &Option<String>) -> (r: String)
    ensures
        r@ == spec_search_path_value(base@, opt_str_view(*inherited)),
{
    match inherited {
        None => base,
        Some(v) => base.concat(":").concat(v.as_str()),
    }
}

/// Plan a POSIX-style launch. Without injection the plan is the bare
/// executable with the passthrough arguments and no environment changes.
/// With injection the shim is chosen by classifying `exe_header` (the
/// first bytes of the game executable): an unknown machine type aborts
/// with `UnsupportedArchitecture`, a malformed header with
/// `MalformedExecutable`; otherwise the five injection assignments are
/// set and the arguments pass through unmodified.
pub fn plan_launch_posix(
    mods_enabled: bool,
    project_state: &str,
    game_dir: &str,
    game_exe: &str,
    args: &Vec<String>,
    exe_header: &Vec<u8>,
    inherited_library_path: &Option<String>,
    inherited_preload: &Option<String>,
) -> (r: Result<LaunchPlan, LaunchError>)
    ensures
        !mods_enabled ==> (r matches Ok(p) && p.exe@ == game_exe@ && p.env@.len() == 0 && p.args@
            == args@ && p.current_dir is None && !p.detach_console),
        mods_enabled ==> match spec_classify_header(exe_header@) {
            Err(_) => r == Err::<LaunchPlan, LaunchError>(LaunchError::MalformedExecutable),
            Ok(None) => r == Err::<LaunchPlan, LaunchError>(LaunchError::UnsupportedArchitecture),
            Ok(Some(a)) => r matches Ok(p) && p.exe@ == game_exe@ && p.current_dir is None
                && !p.detach_console && env_views(p.env@) == spec_posix_env(
                project_state@,
                game_dir@,
                spec_shim_name(a),
                opt_str_view(*inherited_library_path),
                opt_str_view(*inherited_preload),
            ) && p.args@ == args@,
        },
{
    if !mods_enabled {
        return Ok(
            LaunchPlan {
                exe: String::from_str(game_exe),
                current_dir: None,
                env: Vec::new(),
                args: copy_strings(args),
                detach_console: false,
            },
        );
    }
    let arch = match Arch::from_header(exe_header) {
        Err(_) => {
            return Err(LaunchError::MalformedExecutable);
        },
        Ok(None) => {
            return Err(LaunchError::UnsupportedArchitecture);
        },
        Ok(Some(a)) => a,
    };
    let preloader = String::from_str(project_state).concat("/BepInEx/core/BepInEx.Preloader.dll");
    let corlib = String::from_str(game_dir).concat("/unstripped_corlib");
    let lib_value = append_inherited(
        String::from_str(game_dir).concat("/doorstop_libs"),
        inherited_library_path,
    );
    let shim = match arch {
        Arch::X86 => String::from_str("libdoorstop_x86.so"),
        Arch::X86_64 => String::from_str("libdoorstop_x64.so"),
    };
    let preload_value = append_inherited(shim, inherited_preload);

    let mut env: Vec<EnvVar> = Vec::new();
    env.push(EnvVar { name: String::from_str("DOORSTOP_ENABLE"), value: String::from_str("TRUE") });
    env.push(EnvVar { name: String::from_str("DOORSTOP_INVOKE_DLL_PATH"), value: preloader });
    env.push(EnvVar { name: String::from_str("DOORSTOP_CORLIB_OVERRIDE_PATH"), value: corlib });
    env.push(EnvVar { name: String::from_str("LD_LIBRARY_PATH"), value: lib_value });
    env.push(EnvVar { name: String::from_str("LD_PRELOAD"), value: preload_value });
    proof {
        assert(env_views(env@) =~= spec_posix_env(
            project_state@,
            game_dir@,
            spec_shim_name(arch),
            opt_str_view(*inherited_library_path),
            opt_str_view(*inherited_preload),
        ));
    }
    Ok(
        LaunchPlan {
            exe: String::from_str(game_exe),
            current_dir: None,
            env,
            args: copy_strings(args),
            detach_console: false,
        },
    )
}

/// A canonical path with any platform long-path prefix removed.
pub open spec fn spec_strip_verbatim_prefix(s: Seq<char>) -> Seq<char> {
    if spec_starts_with(s, "\\\\?\\"@) {
        s.subrange(4, s.len() as int)
    } else {
        s
    }
}

/// Strip the long-path prefix a canonicalized path may carry.
pub fn strip_verbatim_prefix(s: &str) -> (r: String)
    ensures
        r@ == spec_strip_verbatim_prefix(s@),
{
    proof {
        reveal_strlit("\\\\?\\");
    }
    if starts_with(s, "\\\\?\\") {
        let n = s.unicode_len();
        String::from_str(s.substring_char(4, n))
    } else {
        String::from_str(s)
    }
}

/// The argument list Windows-style injection starts the game with: the
/// enable flag, the preloader path, then the passthrough arguments.
pub open spec fn spec_windows_args(preloader: Seq<char>, args: Seq<Seq<char>>) -> Seq<Seq<char>> {
    seq!["--doorstop-enabled"@, "true"@, "--doorstop-target"@, preloader] + args
}

/// Plan a Windows-style launch. The child always starts detached, with
/// its working directory set to the game's own directory. Without
/// injection neither environment nor arguments are touched. With
/// injection the preloader path is built inside the (already canonical)
/// state directory, its long-path prefix stripped, the two injection
/// flags are prepended to the argument list, and the system-DLL override
/// assignment is set.
pub fn plan_launch_windows(
    mods_enabled: bool,
    canonical_state_dir: &str,
    game_dir: &str,
    game_exe: &str,
    args: &Vec<String>,
) -> (r: LaunchPlan)
    ensures
        r.exe@ == game_exe@,
        r.current_dir matches Some(d) && d@ == game_dir@,
        r.detach_console,
        !mods_enabled ==> r.env@.len() == 0 && r.args@ == args@,
        mods_enabled ==> env_views(r.env@) == seq![
            EnvModel { name: "WINEDLLOVERRIDE"@, value: "winhttp"@ },
        ] && str_views(r.args@) == spec_windows_args(
            spec_strip_verbatim_prefix(spec_preloader_path(canonical_state_dir@)),
            str_views(args@),
        ),
{
    if !mods_enabled {
        return LaunchPlan {
            exe: String::from_str(game_exe),
            current_dir: Some(String::from_str(game_dir)),
            env: Vec::new(),
            args: copy_strings(args),
            detach_console: true,
        };
    }
    let preloader_raw = String::from_str(canonical_state_dir).concat(
        "/BepInEx/core/BepInEx.Preloader.dll",
    );
    let preloader = strip_verbatim_prefix(preloader_raw.as_str());

    let mut env: Vec<EnvVar> = Vec::new();
    env.push(
        EnvVar { name: String::from_str("WINEDLLOVERRIDE"), value: String::from_str("winhttp") },
    );
    proof {
        assert(env_views(env@) =~= seq![EnvModel { name: "WINEDLLOVERRIDE"@, value: "winhttp"@ }]);
    }

    let mut proc_args: Vec<String> = Vec::new();
    proc_args.push(String::from_str("--doorstop-enabled"));
    proc_args.push(String::from_str("true"));
    proc_args.push(String::from_str("--doorstop-target"));
    proc_args.push(preloader);
    let ghost head = str_views(proc_args@);
    proof {
        assert(head =~= seq![
            "--doorstop-enabled"@,
            "true"@,
            "--doorstop-target"@,
            spec_strip_verbatim_prefix(spec_preloader_path(canonical_state_dir@)),
        ]);
    }
    let n = args.len();
    let mut idx: usize = 0;
    while idx < n
        invariant
            0 <= idx <= n,
            n == args@.len(),
            str_views(proc_args@) == head + str_views(args@.subrange(0, idx as int)),
        decreases n - idx,
    {
        let a: &String = &args[idx];
        assert(a@ == str_views(args@)[idx as int]);
        proc_args.push(a.clone());
        proof {
            let sub = args@.subrange(0, idx as int);
            let sub1 = args@.subrange(0, idx as int + 1);
            assert(sub1 =~= sub.push(args@[idx as int]));
            assert(str_views(sub1) =~= str_views(sub).push(args@[idx as int]@));
            assert(str_views(proc_args@) =~= (head + str_views(sub)).push(args@[idx as int]@));
            assert(str_views(proc_args@) =~= head + str_views(sub1));
        }
        idx = idx + 1;
    }
    proof {
        assert(args@.subrange(0, n as int) =~= args@);
        assert(str_views(proc_args@) =~= spec_windows_args(
            spec_strip_verbatim_prefix(spec_preloader_path(canonical_state_dir@)),
            str_views(args@),
        ));
    }
    LaunchPlan {
        exe: String::from_str(game_exe),
        current_dir: Some(String::from_str(game_dir)),
        env,
        args: proc_args,
        detach_console: true,
    }
}

} // verus!
