//! Installation engine: the file-placement rules for the mod-loader and
//! for ordinary mods, and the tracked-file ledger that makes an install
//! reversible.
//!
//! The engine plans, it does not copy: its input is a snapshot of the
//! package's files as `/`-separated path strings, its output the exact
//! list of copies to perform, in order. The ledger of an install is the
//! plan's destinations, each recorded as a `Create` entry; uninstalling
//! removes exactly those paths.

use vstd::prelude::*;

use crate::paths::file_name_of;
use crate::paths::join_path;
use crate::paths::parent_of;
use crate::paths::spec_file_name;
use crate::paths::spec_join;
use crate::paths::spec_parent;
use crate::text::spec_starts_with;
use crate::text::starts_with;
use crate::text::str_eq;
use crate::text::str_views;
use crate::types::FileAction;
use crate::types::TrackedFile;

verus! {

/// How an installation operation can fail.
#[derive(Clone, Copy, Debug, PartialEq, Eq, Structural)]
pub enum InstallError {
    /// An input path could not be canonicalized.
    PathResolution,
    /// The loader payload's marker file is absent: the package is malformed.
    PayloadNotFound,
    /// A copy, delete, directory-create, or read failed.
    IoFailure,
}

/// One planned copy: a source file in the package, its destination.
#[derive(Clone, Debug, PartialEq, Eq)]
pub struct CopyStep {
    pub source: String,
    pub dest: String,
}

/// The mathematical value of a `CopyStep`.
pub ghost struct StepModel {
    pub source: Seq<char>,
    pub dest: Seq<char>,
}

impl View for CopyStep {
    type V = StepModel;

    open spec fn view(&self) -> StepModel {
        StepModel { source: self.source@, dest: self.dest@ }
    }
}

pub open spec fn steps_view(s: Seq<CopyStep>) -> Seq<StepModel> {
    s.map_values(|c: CopyStep| c@)
}

/// The loader payload root is marked by this native shim file.
pub open spec fn spec_is_marker(f: Seq<char>) -> bool {
    spec_file_name(f) == "winhttp.dll"@
}

/// Index of the first marker file in a package listing, if any.
pub open spec fn spec_first_marker(files: Seq<Seq<char>>) -> Option<int>
    decreases files.len(),
{
    if files.len() == 0 {
        None
    } else if spec_is_marker(files[0]) {
        Some(0int)
    } else {
        match spec_first_marker(files.drop_first()) {
            None => None,
            Some(i) => Some(i + 1),
        }
    }
}

/// What `spec_first_marker` returns: the least index of a marker file.
pub proof fn lemma_first_marker_spec(files: Seq<Seq<char>>)
    ensures
        match spec_first_marker(files) {
            None => forall|i: int| 0 <= i < files.len() ==> !spec_is_marker(#[trigger] files[i]),
            Some(i) => 0 <= i < files.len() && spec_is_marker(files[i]) && (forall|j: int|
                0 <= j < i ==> !spec_is_marker(#[trigger] files[j])),
        },
    decreases files.len(),
{
    if files.len() > 0 && !spec_is_marker(files[0]) {
        lemma_first_marker_spec(files.drop_first());
        let t = files.drop_first();
        match spec_first_marker(t) {
            None => {
                assert forall|i: int| 0 <= i < files.len() implies !spec_is_marker(
                    #[trigger] files[i],
                ) by {
                    if i > 0 {
                        assert(files[i] == t[i - 1]);
                    }
                }
            },
            Some(i) => {
                assert(files[i + 1] == t[i]);
                assert forall|j: int| 0 <= j < i + 1 implies !spec_is_marker(
                    #[trigger] files[j],
                ) by {
                    if j > 0 {
                        assert(files[j] == t[j - 1]);
                    }
                }
            },
        }
    }
}

/// Files of the loader payload's `BepInEx` subtree sit under this prefix.
pub open spec fn spec_bep_prefix(root: Seq<char>) -> Seq<char> {
    root + "/BepInEx/"@
}

/// Where a loader payload file under `root/BepInEx/` is placed: the same
/// relative path under `state_dir/BepInEx/`.
pub open spec fn spec_loader_bep_step(root: Seq<char>, state_dir: Seq<char>, f: Seq<char>) -> StepModel {
    StepModel {
        source: f,
        dest: state_dir + "/BepInEx/"@ + f.subrange(spec_bep_prefix(root).len() as int, f.len() as int),
    }
}

/// The recursive copy of the payload's `BepInEx` subtree, in listing order.
pub open spec fn spec_loader_bep_steps(
    files: Seq<Seq<char>>,
    root: Seq<char>,
    state_dir: Seq<char>,
) -> Seq<StepModel>
    decreases files.len(),
{
    if files.len() == 0 {
        Seq::<StepModel>::empty()
    } else {
        spec_loader_bep_steps(files.drop_last(), root, state_dir) + if spec_starts_with(
            files.last(),
            spec_bep_prefix(root),
        ) {
            seq![spec_loader_bep_step(root, state_dir, files.last())]
        } else {
            Seq::<StepModel>::empty()
        }
    }
}

/// The copy of the files sitting directly in the payload root into the
/// game's top-level directory, in listing order.
pub open spec fn spec_loader_top_steps(
    files: Seq<Seq<char>>,
    root: Seq<char>,
    game_dir: Seq<char>,
) -> Seq<StepModel>
    decreases files.len(),
{
    if files.len() == 0 {
        Seq::<StepModel>::empty()
    } else {
        spec_loader_top_steps(files.drop_last(), root, game_dir) + if spec_parent(files.last())
            == root {
            seq![
                StepModel {
                    source: files.last(),
                    dest: spec_join(game_dir, spec_file_name(files.last())),
                },
            ]
        } else {
            Seq::<StepModel>::empty()
        }
    }
}

/// The whole loader plan: no marker file means the package is malformed;
/// otherwise the `BepInEx` subtree of the marker's directory goes under
/// the state directory and the root's own files go into the game directory.
pub open spec fn spec_loader_plan(
    files: Seq<Seq<char>>,
    state_dir: Seq<char>,
    game_dir: Seq<char>,
) -> Result<Seq<StepModel>, InstallError> {
    match spec_first_marker(files) {
        None => Err(InstallError::PayloadNotFound),
        Some(k) => {
            let root = spec_parent(files[k]);
            Ok(
                spec_loader_bep_steps(files, root, state_dir) + spec_loader_top_steps(
                    files,
                    root,
                    game_dir,
                ),
            )
        },
    }
}

/// The directory of the first marker file in the listing, if any: the
/// loader payload root.
pub fn find_payload_root(package_files: &Vec<String>) -> (r: Option<String>)
    ensures
        match r {
            None => spec_first_marker(str_views(package_files@)) is None,
            Some(root) => spec_first_marker(str_views(package_files@)) matches Some(k) && root@
                == spec_parent(str_views(package_files@)[k]),
        },
{
    let ghost vs = str_views(package_files@);
    proof {
        lemma_first_marker_spec(vs);
    }
    let n = package_files.len();
    let mut idx: usize = 0;
    while idx < n
        invariant
            0 <= idx <= n,
            n == package_files@.len(),
            vs == str_views(package_files@),
            vs.len() == n,
            forall|j: int| 0 <= j < idx ==> !spec_is_marker(#[trigger] vs[j]),
            match spec_first_marker(vs) {
                None => forall|i: int| 0 <= i < vs.len() ==> !spec_is_marker(#[trigger] vs[i]),
                Some(i) => 0 <= i < vs.len() && spec_is_marker(vs[i]) && (forall|j: int|
                    0 <= j < i ==> !spec_is_marker(#[trigger] vs[j])),
            },
        decreases n - idx,
    {
        let name = file_name_of(&package_files[idx]);
        if str_eq(name.as_str(), "winhttp.dll") {
            assert(spec_is_marker(vs[idx as int]));
            return Some(parent_of(&package_files[idx]));
        }
        assert(!spec_is_marker(vs[idx as int]));
        idx = idx + 1;
    }
    None
}

/// Plan the deployment of the mod-loader's own runtime. `package_files`
/// lists every regular file under the package directory, in traversal
/// order; `state_dir` and `game_dir` are the canonical state and game
/// directories. The plan, and so the ledger, follows the listing order:
/// the `BepInEx` subtree first, the top-level loader files after it.
pub fn plan_loader_install(package_files: &Vec<String>, state_dir: &str, game_dir: &str) -> (r:
    Result<Vec<CopyStep>, InstallError>)
    ensures
        match r {
            Ok(plan) => spec_loader_plan(str_views(package_files@), state_dir@, game_dir@) == Ok::<
                Seq<StepModel>,
                InstallError,
            >(steps_view(plan@)),
            Err(e) => spec_loader_plan(str_views(package_files@), state_dir@, game_dir@) == Err::<
                Seq<StepModel>,
                InstallError,
            >(e),
        },
{
    let ghost vs = str_views(package_files@);
    let root = match find_payload_root(package_files) {
        None => {
            return Err(InstallError::PayloadNotFound);
        },
        Some(root) => root,
    };
    let bep_prefix = join_path(root.as_str(), "BepInEx").concat("/");
    assert(bep_prefix@ =~= spec_bep_prefix(root@)) by {
        reveal_strlit("/BepInEx/");
        reveal_strlit("BepInEx");
        reveal_strlit("/");
        assert(bep_prefix@ =~= root@ + "/"@ + "BepInEx"@ + "/"@);
        assert("/BepInEx/"@ =~= "/"@ + "BepInEx"@ + "/"@);
    }
    let state_bep = String::from_str(state_dir).concat("/BepInEx/");
    assert(state_bep@ == state_dir@ + "/BepInEx/"@);

    let n = package_files.len();
    let mut plan: Vec<CopyStep> = Vec::new();
    let mut idx: usize = 0;
    while idx < n
        invariant
            0 <= idx <= n,
            n == package_files@.len(),
            vs == str_views(package_files@),
            vs.len() == n,
            bep_prefix@ == spec_bep_prefix(root@),
            state_bep@ == state_dir@ + "/BepInEx/"@,
            steps_view(plan@) == spec_loader_bep_steps(vs.subrange(0, idx as int), root@, state_dir@),
        decreases n - idx,
    {
        let f: &String = &package_files[idx];
        assert(f@ == vs[idx as int]);
        if starts_with(f.as_str(), bep_prefix.as_str()) {
            let flen = f.as_str().unicode_len();
            let plen = bep_prefix.as_str().unicode_len();
            let rel = f.as_str().substring_char(plen, flen);
            let dest = state_bep.clone().concat(rel);
            plan.push(CopyStep { source: f.clone(), dest });
        }
        proof {
            let pre = vs.subrange(0, idx as int);
            let pre1 = vs.subrange(0, idx as int + 1);
            assert(pre1.drop_last() =~= pre);
            assert(pre1.last() == vs[idx as int]);
            if spec_starts_with(vs[idx as int], spec_bep_prefix(root@)) {
                assert(steps_view(plan@) =~= spec_loader_bep_steps(pre, root@, state_dir@) + seq![
                    spec_loader_bep_step(root@, state_dir@, vs[idx as int]),
                ]);
            } else {
                assert(steps_view(plan@) =~= spec_loader_bep_steps(pre, root@, state_dir@));
            }
            assert(steps_view(plan@) == spec_loader_bep_steps(pre1, root@, state_dir@));
        }
        idx = idx + 1;
    }
    assert(vs.subrange(0, n as int) =~= vs);

    let mut idx: usize = 0;
    while idx < n
        invariant
            0 <= idx <= n,
            n == package_files@.len(),
            vs == str_views(package_files@),
            vs.len() == n,
            steps_view(plan@) == spec_loader_bep_steps(vs, root@, state_dir@)
                + spec_loader_top_steps(vs.subrange(0, idx as int), root@, game_dir@),
        decreases n - idx,
    {
        let f: &String = &package_files[idx];
        assert(f@ == vs[idx as int]);
        let parent = parent_of(f.as_str());
        if str_eq(parent.as_str(), root.as_str()) {
            let name = file_name_of(f.as_str());
            let dest = join_path(game_dir, name.as_str());
            plan.push(CopyStep { source: f.clone(), dest });
        }
        proof {
            let pre = vs.subrange(0, idx as int);
            let pre1 = vs.subrange(0, idx as int + 1);
            assert(pre1.drop_last() =~= pre);
            assert(pre1.last() == vs[idx as int]);
            if spec_parent(vs[idx as int]) == root@ {
                assert(steps_view(plan@) =~= spec_loader_bep_steps(vs, root@, state_dir@)
                    + spec_loader_top_steps(pre, root@, game_dir@) + seq![
                    StepModel {
                        source: vs[idx as int],
                        dest: spec_join(game_dir@, spec_file_name(vs[idx as int])),
                    },
                ]);
            } else {
                assert(steps_view(plan@) =~= spec_loader_bep_steps(vs, root@, state_dir@)
                    + spec_loader_top_steps(pre, root@, game_dir@));
            }
            assert(steps_view(plan@) == spec_loader_bep_steps(vs, root@, state_dir@)
                + spec_loader_top_steps(pre1, root@, game_dir@));
        }
        idx = idx + 1;
    }
    assert(vs.subrange(0, n as int) =~= vs);
    Ok(plan)
}

/// Snapshot of an ordinary mod package's files, as the caller found them
/// on disk. Each category vector lists the regular files under that
/// category's source directory as relative paths, in traversal order, and
/// is empty when the directory is absent; `top_level_files` are the names
/// of files sitting directly in the package directory.
pub struct ModPayload {
    /// Whether `<package_dir>/BepInEx` exists: categories are then read
    /// from under it rather than from the package's top level.
    pub has_bepinex_dir: bool,
    pub plugins: Vec<String>,
    pub patchers: Vec<String>,
    pub monomod: Vec<String>,
    pub config: Vec<String>,
    pub top_level_files: Vec<String>,
}

/// The `namespace-name` folder key a mod's relocated files live under.
pub open spec fn spec_full_name(namespace: Seq<char>, name: Seq<char>) -> Seq<char> {
    namespace + "-"@ + name
}

/// Where a category's files are read from: `BepInEx/<cat>` under the
/// package when that subtree exists, `<cat>` at the top level otherwise.
pub open spec fn spec_cat_src_dir(package_dir: Seq<char>, has_bep: bool, cat: Seq<char>) -> Seq<
    char,
> {
    if has_bep {
        spec_join(spec_join(package_dir, "BepInEx"@), cat)
    } else {
        spec_join(package_dir, cat)
    }
}

/// Where a category's files go: `<state_dir>/BepInEx/<cat>`.
pub open spec fn spec_cat_dest_dir(state_dir: Seq<char>, cat: Seq<char>) -> Seq<char> {
    spec_join(spec_join(state_dir, "BepInEx"@), cat)
}

/// The copies for one category, in listing order. A relocated category
/// places every file under a `namespace-name` subfolder; a non-relocated
/// one places it directly (collisions between mods then overwrite).
pub open spec fn spec_cat_steps(
    files: Seq<Seq<char>>,
    src_dir: Seq<char>,
    dest_dir: Seq<char>,
    relocate: bool,
    full_name: Seq<char>,
) -> Seq<StepModel>
    decreases files.len(),
{
    if files.len() == 0 {
        Seq::<StepModel>::empty()
    } else {
        spec_cat_steps(files.drop_last(), src_dir, dest_dir, relocate, full_name) + seq![
            StepModel {
                source: spec_join(src_dir, files.last()),
                dest: if relocate {
                    spec_join(spec_join(dest_dir, full_name), files.last())
                } else {
                    spec_join(dest_dir, files.last())
                },
            },
        ]
    }
}

/// Stray files at the package's top level are treated as plugin assets:
/// each goes under `<state_dir>/BepInEx/plugins/<namespace-name>/`.
pub open spec fn spec_top_mod_steps(
    files: Seq<Seq<char>>,
    package_dir: Seq<char>,
    state_dir: Seq<char>,
    full_name: Seq<char>,
) -> Seq<StepModel>
    decreases files.len(),
{
    if files.len() == 0 {
        Seq::<StepModel>::empty()
    } else {
        spec_top_mod_steps(files.drop_last(), package_dir, state_dir, full_name) + seq![
            StepModel {
                source: spec_join(package_dir, files.last()),
                dest: spec_join(
                    spec_join(spec_cat_dest_dir(state_dir, "plugins"@), full_name),
                    files.last(),
                ),
            },
        ]
    }
}

/// The whole mod plan: the four categories under their relocation policy
/// (`plugins`, `patchers`, `monomod` relocate; `config` does not), then
/// the stray top-level files.
pub open spec fn spec_mod_plan(
    namespace: Seq<char>,
    name: Seq<char>,
    package_dir: Seq<char>,
    state_dir: Seq<char>,
    has_bep: bool,
    plugins: Seq<Seq<char>>,
    patchers: Seq<Seq<char>>,
    monomod: Seq<Seq<char>>,
    config: Seq<Seq<char>>,
    top: Seq<Seq<char>>,
) -> Seq<StepModel> {
    let full_name = spec_full_name(namespace, name);
    spec_cat_steps(
        plugins,
        spec_cat_src_dir(package_dir, has_bep, "plugins"@),
        spec_cat_dest_dir(state_dir, "plugins"@),
        true,
        full_name,
    ) + spec_cat_steps(
        patchers,
        spec_cat_src_dir(package_dir, has_bep, "patchers"@),
        spec_cat_dest_dir(state_dir, "patchers"@),
        true,
        full_name,
    ) + spec_cat_steps(
        monomod,
        spec_cat_src_dir(package_dir, has_bep, "monomod"@),
        spec_cat_dest_dir(state_dir, "monomod"@),
        true,
        full_name,
    ) + spec_cat_steps(
        config,
        spec_cat_src_dir(package_dir, has_bep, "config"@),
        spec_cat_dest_dir(state_dir, "config"@),
        false,
        full_name,
    ) + spec_top_mod_steps(top, package_dir, state_dir, full_name)
}

/// Append one category's copies to the plan.
fn append_cat_steps(
    plan: &mut Vec<CopyStep>,
    files: &Vec<String>,
    src_dir: &str,
    dest_dir: &str,
    relocate: bool,
    full_name: &str,
)
    ensures
        steps_view(final(plan)@) == steps_view(old(plan)@) + spec_cat_steps(
            str_views(files@),
            src_dir@,
            dest_dir@,
            relocate,
            full_name@,
        ),
{
    let ghost vs = str_views(files@);
    let ghost base = steps_view(plan@);
    let reloc_dir = join_path(dest_dir, full_name);
    let n = files.len();
    let mut idx: usize = 0;
    while idx < n
        invariant
            0 <= idx <= n,
            n == files@.len(),
            vs == str_views(files@),
            vs.len() == n,
            reloc_dir@ == spec_join(dest_dir@, full_name@),
            steps_view(plan@) == base + spec_cat_steps(
                vs.subrange(0, idx as int),
                src_dir@,
                dest_dir@,
                relocate,
                full_name@,
            ),
        decreases n - idx,
    {
        let f: &String = &files[idx];
        assert(f@ == vs[idx as int]);
        let source = join_path(src_dir, f.as_str());
        let dest = if relocate {
            join_path(reloc_dir.as_str(), f.as_str())
        } else {
            join_path(dest_dir, f.as_str())
        };
        plan.push(CopyStep { source, dest });
        proof {
            let pre = vs.subrange(0, idx as int);
            let pre1 = vs.subrange(0, idx as int + 1);
            assert(pre1.drop_last() =~= pre);
            assert(pre1.last() == vs[idx as int]);
            let elem = StepModel {
                source: spec_join(src_dir@, vs[idx as int]),
                dest: if relocate {
                    spec_join(spec_join(dest_dir@, full_name@), vs[idx as int])
                } else {
                    spec_join(dest_dir@, vs[idx as int])
                },
            };
            assert(spec_cat_steps(pre1, src_dir@, dest_dir@, relocate, full_name@)
                == spec_cat_steps(pre, src_dir@, dest_dir@, relocate, full_name@) + seq![elem]);
            assert(plan@.last()@ == elem);
            assert(steps_view(plan@) =~= base + spec_cat_steps(
                pre,
                src_dir@,
                dest_dir@,
                relocate,
                full_name@,
            ) + seq![elem]);
            assert(steps_view(plan@) =~= base + spec_cat_steps(
                pre1,
                src_dir@,
                dest_dir@,
                relocate,
                full_name@,
            ));
        }
        idx = idx + 1;
    }
    assert(vs.subrange(0, n as int) =~= vs);
}

/// Plan the deployment of an ordinary mod: each category's files under
/// the per-category relocation policy, then the stray top-level files
/// into the mod's own plugins folder. The ledger follows this order.
pub fn plan_mod_install(
    namespace: &str,
    name: &str,
    package_dir: &str,
    state_dir: &str,
    payload: &ModPayload,
) -> (r: Vec<CopyStep>)
    ensures
        steps_view(r@) == spec_mod_plan(
            namespace@,
            name@,
            package_dir@,
            state_dir@,
            payload.has_bepinex_dir,
            str_views(payload.plugins@),
            str_views(payload.patchers@),
            str_views(payload.monomod@),
            str_views(payload.config@),
            str_views(payload.top_level_files@),
        ),
{
    let full_name = String::from_str(namespace).concat("-").concat(name);
    assert(full_name@ == spec_full_name(namespace@, name@));
    let state_bep = join_path(state_dir, "BepInEx");
    let pkg_bep = join_path(package_dir, "BepInEx");

    let mut plan: Vec<CopyStep> = Vec::new();

    let src = cat_src_dir(package_dir, pkg_bep.as_str(), payload.has_bepinex_dir, "plugins");
    let dst = join_path(state_bep.as_str(), "plugins");
    append_cat_steps(&mut plan, &payload.plugins, src.as_str(), dst.as_str(), true, full_name.as_str());

    let src = cat_src_dir(package_dir, pkg_bep.as_str(), payload.has_bepinex_dir, "patchers");
    let dst = join_path(state_bep.as_str(), "patchers");
    append_cat_steps(&mut plan, &payload.patchers, src.as_str(), dst.as_str(), true, full_name.as_str());

    let src = cat_src_dir(package_dir, pkg_bep.as_str(), payload.has_bepinex_dir, "monomod");
    let dst = join_path(state_bep.as_str(), "monomod");
    append_cat_steps(&mut plan, &payload.monomod, src.as_str(), dst.as_str(), true, full_name.as_str());

    let src = cat_src_dir(package_dir, pkg_bep.as_str(), payload.has_bepinex_dir, "config");
    let dst = join_path(state_bep.as_str(), "config");
    append_cat_steps(&mut plan, &payload.config, src.as_str(), dst.as_str(), false, full_name.as_str());

    let plugins_reloc = join_path(join_path(state_bep.as_str(), "plugins").as_str(), full_name.as_str());
    let ghost base = steps_view(plan@);
    let ghost tops = str_views(payload.top_level_files@);
    let n = payload.top_level_files.len();
    let mut idx: usize = 0;
    while idx < n
        invariant
            0 <= idx <= n,
            n == payload.top_level_files@.len(),
            tops == str_views(payload.top_level_files@),
            tops.len() == n,
            full_name@ == spec_full_name(namespace@, name@),
            plugins_reloc@ == spec_join(spec_cat_dest_dir(state_dir@, "plugins"@), full_name@),
            steps_view(plan@) == base + spec_top_mod_steps(
                tops.subrange(0, idx as int),
                package_dir@,
                state_dir@,
                full_name@,
            ),
        decreases n - idx,
    {
        let f: &String = &payload.top_level_files[idx];
        assert(f@ == tops[idx as int]);
        let source = join_path(package_dir, f.as_str());
        let dest = join_path(plugins_reloc.as_str(), f.as_str());
        plan.push(CopyStep { source, dest });
        proof {
            let pre = tops.subrange(0, idx as int);
            let pre1 = tops.subrange(0, idx as int + 1);
            assert(pre1.drop_last() =~= pre);
            assert(pre1.last() == tops[idx as int]);
            let elem = StepModel {
                source: spec_join(package_dir@, tops[idx as int]),
                dest: spec_join(
                    spec_join(spec_cat_dest_dir(state_dir@, "plugins"@), full_name@),
                    tops[idx as int],
                ),
            };
            assert(spec_top_mod_steps(pre1, package_dir@, state_dir@, full_name@)
                == spec_top_mod_steps(pre, package_dir@, state_dir@, full_name@) + seq![elem]);
            assert(plan@.last()@ == elem);
            assert(steps_view(plan@) =~= base + spec_top_mod_steps(
                pre,
                package_dir@,
                state_dir@,
                full_name@,
            ) + seq![elem]);
            assert(steps_view(plan@) =~= base + spec_top_mod_steps(
                pre1,
                package_dir@,
                state_dir@,
                full_name@,
            ));
        }
        idx = idx + 1;
    }
    assert(tops.subrange(0, n as int) =~= tops);
    plan
}

/// The source directory of one category under the fallback rule.
fn cat_src_dir(package_dir: &str, pkg_bep: &str, has_bep: bool, cat: &str) -> (r: String)
    requires
        pkg_bep@ == spec_join(package_dir@, "BepInEx"@),
    ensures
        r@ == spec_cat_src_dir(package_dir@, has_bep, cat@),
{
    if has_bep {
        join_path(pkg_bep, cat)
    } else {
        join_path(package_dir, cat)
    }
}

/// The ledger an install returns: one `Create` entry per planned copy,
/// recording the destination path, in plan order.
pub fn ledger_of_plan(plan: &Vec<CopyStep>) -> (r: Vec<TrackedFile>)
    ensures
        r@.len() == plan@.len(),
        forall|i: int|
            0 <= i < plan@.len() ==> (#[trigger] r@[i]).action == FileAction::Create && r@[i].path@
                == plan@[i].dest@ && r@[i].context is None,
{
    let mut ledger: Vec<TrackedFile> = Vec::new();
    let n = plan.len();
    let mut idx: usize = 0;
    while idx < n
        invariant
            0 <= idx <= n,
            n == plan@.len(),
            ledger@.len() == idx,
            forall|i: int|
                0 <= i < idx ==> (#[trigger] ledger@[i]).action == FileAction::Create
                    && ledger@[i].path@ == plan@[i].dest@ && ledger@[i].context is None,
        decreases n - idx,
    {
        let step: &CopyStep = &plan[idx];
        ledger.push(
            TrackedFile { action: FileAction::Create, path: step.dest.clone(), context: None },
        );
        idx = idx + 1;
    }
    ledger
}

/// The paths a ledger's `Create` entries name, in ledger order: exactly
/// what an uninstall deletes. `Remove` and `Modify` entries are reserved
/// for future ledger richness and are skipped.
pub open spec fn spec_create_paths(ledger: Seq<TrackedFile>) -> Seq<Seq<char>>
    decreases ledger.len(),
{
    if ledger.len() == 0 {
        Seq::<Seq<char>>::empty()
    } else {
        spec_create_paths(ledger.drop_last()) + if ledger.last().action == FileAction::Create {
            seq![ledger.last().path@]
        } else {
            Seq::<Seq<char>>::empty()
        }
    }
}

/// The files an uninstall must delete, given the install's ledger.
pub fn removal_paths(ledger: &Vec<TrackedFile>) -> (r: Vec<String>)
    ensures
        str_views(r@) == spec_create_paths(ledger@),
{
    let mut out: Vec<String> = Vec::new();
    let n = ledger.len();
    let mut idx: usize = 0;
    while idx < n
        invariant
            0 <= idx <= n,
            n == ledger@.len(),
            str_views(out@) == spec_create_paths(ledger@.subrange(0, idx as int)),
        decreases n - idx,
    {
        let entry: &TrackedFile = &ledger[idx];
        let is_create = match entry.action {
            FileAction::Create => true,
            FileAction::Remove => false,
            FileAction::Modify => false,
        };
        if is_create {
            out.push(entry.path.clone());
        }
        proof {
            let pre = ledger@.subrange(0, idx as int);
            let pre1 = ledger@.subrange(0, idx as int + 1);
            assert(pre1.drop_last() =~= pre);
            assert(pre1.last() == ledger@[idx as int]);
            assert(str_views(out@) =~= spec_create_paths(pre1));
        }
        idx = idx + 1;
    }
    assert(ledger@.subrange(0, n as int) =~= ledger@);
    out
}

/// The destinations a plan writes, in order.
pub open spec fn plan_dests(plan: Seq<CopyStep>) -> Seq<Seq<char>> {
    plan.map_values(|c: CopyStep| c.dest@)
}

/// Law: an uninstall driven by the ledger an install returned deletes
/// exactly the paths the install created, in the same order — every file
/// the install placed, and nothing else.
pub proof fn lemma_uninstall_reverses_install(plan: Seq<CopyStep>, ledger: Seq<TrackedFile>)
    requires
        ledger.len() == plan.len(),
        forall|i: int|
            0 <= i < plan.len() ==> (#[trigger] ledger[i]).action == FileAction::Create
                && ledger[i].path@ == plan[i].dest@,
    ensures
        spec_create_paths(ledger) == plan_dests(plan),
    decreases plan.len(),
{
    if plan.len() == 0 {
        assert(spec_create_paths(ledger) =~= plan_dests(plan));
    } else {
        lemma_uninstall_reverses_install(plan.drop_last(), ledger.drop_last());
        assert(ledger[plan.len() - 1].action == FileAction::Create);
        assert(spec_create_paths(ledger) =~= spec_create_paths(ledger.drop_last()) + seq![
            ledger.last().path@,
        ]);
        assert(plan_dests(plan) =~= plan_dests(plan.drop_last()) + seq![plan.last().dest@]);
        assert(spec_create_paths(ledger) =~= plan_dests(plan));
    }
}

/// Law: a mod package with none of the four category directories present
/// plans nothing beyond the relocation of its stray top-level files; with
/// no stray files either, the plan — and so the ledger — is empty.
pub proof fn lemma_no_categories_only_stray_files(
    namespace: Seq<char>,
    name: Seq<char>,
    package_dir: Seq<char>,
    state_dir: Seq<char>,
    has_bep: bool,
    top: Seq<Seq<char>>,
)
    ensures
        spec_mod_plan(
            namespace,
            name,
            package_dir,
            state_dir,
            has_bep,
            Seq::<Seq<char>>::empty(),
            Seq::<Seq<char>>::empty(),
            Seq::<Seq<char>>::empty(),
            Seq::<Seq<char>>::empty(),
            top,
        ) == spec_top_mod_steps(top, package_dir, state_dir, spec_full_name(namespace, name)),
        top.len() == 0 ==> spec_mod_plan(
            namespace,
            name,
            package_dir,
            state_dir,
            has_bep,
            Seq::<Seq<char>>::empty(),
            Seq::<Seq<char>>::empty(),
            Seq::<Seq<char>>::empty(),
            Seq::<Seq<char>>::empty(),
            top,
        ) == Seq::<StepModel>::empty(),
{
    let full_name = spec_full_name(namespace, name);
    assert(spec_mod_plan(
        namespace,
        name,
        package_dir,
        state_dir,
        has_bep,
        Seq::<Seq<char>>::empty(),
        Seq::<Seq<char>>::empty(),
        Seq::<Seq<char>>::empty(),
        Seq::<Seq<char>>::empty(),
        top,
    ) =~= spec_top_mod_steps(top, package_dir, state_dir, full_name));
    if top.len() == 0 {
        assert(spec_top_mod_steps(top, package_dir, state_dir, full_name) =~= Seq::<
            StepModel,
        >::empty());
    }
}

} // verus!
