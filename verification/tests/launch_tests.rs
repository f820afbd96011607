use bepinex_installer::launch::LaunchError;
use bepinex_installer::launch::plan_launch_posix;
use bepinex_installer::launch::plan_launch_windows;
use bepinex_installer::launch::strip_verbatim_prefix;

fn strings(items: &[&str]) -> Vec<String> {
    items.iter().map(|s| s.to_string()).collect()
}

fn elf_header(machine: u8) -> Vec<u8> {
    let mut h = vec![
        0x7f, 0x45, 0x4c, 0x46, 0x01, 0x01, 0x01, 0x00, 0x00, 0x00, 0x00, 0x00, 0x00, 0x00, 0x00,
        0x00, 0x00, 0x00, 0x00, 0x00,
    ];
    h[18] = machine;
    h
}

#[test]
fn launch_without_injection_touches_nothing() {
    let args = strings(&["--fullscreen", "level1"]);
    let plan = plan_launch_posix(
        false,
        "/state",
        "/game",
        "/game/Game",
        &args,
        &elf_header(0x3e),
        &Some("/inherited/libs".to_string()),
        &Some("inherited.so".to_string()),
    )
    .unwrap();
    assert!(plan.env.is_empty());
    assert_eq!(plan.args, args);
    assert_eq!(plan.exe, "/game/Game");
    assert_eq!(plan.current_dir, None);
    assert!(!plan.detach_console);
}

#[test]
fn windows_launch_without_injection_touches_nothing() {
    let args = strings(&["-w"]);
    let plan = plan_launch_windows(false, "/state", "C:/game", "C:/game/Game.exe", &args);
    assert!(plan.env.is_empty());
    assert_eq!(plan.args, args);
    assert_eq!(plan.exe, "C:/game/Game.exe");
    assert_eq!(plan.current_dir, Some("C:/game".to_string()));
    assert!(plan.detach_console);
}

#[test]
fn posix_injection_sets_the_five_variables() {
    let args = strings(&["--skip-intro"]);
    let plan = plan_launch_posix(
        true,
        "/state",
        "/game",
        "/game/Game",
        &args,
        &elf_header(0x3e),
        &Some("/old/libs".to_string()),
        &Some("old.so".to_string()),
    )
    .unwrap();
    let env: Vec<(String, String)> =
        plan.env.iter().map(|e| (e.name.clone(), e.value.clone())).collect();
    assert_eq!(
        env,
        vec![
            ("DOORSTOP_ENABLE".to_string(), "TRUE".to_string()),
            (
                "DOORSTOP_INVOKE_DLL_PATH".to_string(),
                "/state/BepInEx/core/BepInEx.Preloader.dll".to_string()
            ),
            (
                "DOORSTOP_CORLIB_OVERRIDE_PATH".to_string(),
                "/game/unstripped_corlib".to_string()
            ),
            ("LD_LIBRARY_PATH".to_string(), "/game/doorstop_libs:/old/libs".to_string()),
            ("LD_PRELOAD".to_string(), "libdoorstop_x64.so:old.so".to_string()),
        ]
    );
    assert_eq!(plan.args, args);
}

#[test]
fn posix_injection_picks_the_shim_by_architecture() {
    let args = Vec::new();
    let plan =
        plan_launch_posix(true, "/s", "/g", "/g/Game", &args, &elf_header(0x03), &None, &None)
            .unwrap();
    assert_eq!(plan.env[4].value, "libdoorstop_x86.so");
    let plan =
        plan_launch_posix(true, "/s", "/g", "/g/Game", &args, &elf_header(0x3e), &None, &None)
            .unwrap();
    assert_eq!(plan.env[4].value, "libdoorstop_x64.so");
}

#[test]
fn posix_injection_aborts_on_unknown_architecture() {
    let args = Vec::new();
    let r = plan_launch_posix(true, "/s", "/g", "/g/Game", &args, &elf_header(0x28), &None, &None);
    assert_eq!(r.err(), Some(LaunchError::UnsupportedArchitecture));
    let r = plan_launch_posix(true, "/s", "/g", "/g/Game", &args, &Vec::new(), &None, &None);
    assert_eq!(r.err(), Some(LaunchError::UnsupportedArchitecture));
}

#[test]
fn posix_injection_aborts_on_malformed_header() {
    let mut h = elf_header(0x03);
    h[4] = 0x07;
    let args = Vec::new();
    let r = plan_launch_posix(true, "/s", "/g", "/g/Game", &args, &h, &None, &None);
    assert_eq!(r.err(), Some(LaunchError::MalformedExecutable));
}

#[test]
fn windows_injection_prepends_the_doorstop_flags() {
    let args = strings(&["--windowed"]);
    let plan = plan_launch_windows(true, "C:/state", "C:/game", "C:/game/Game.exe", &args);
    assert_eq!(
        plan.args,
        strings(&[
            "--doorstop-enabled",
            "true",
            "--doorstop-target",
            "C:/state/BepInEx/core/BepInEx.Preloader.dll",
            "--windowed",
        ])
    );
    let env: Vec<(String, String)> =
        plan.env.iter().map(|e| (e.name.clone(), e.value.clone())).collect();
    assert_eq!(env, vec![("WINEDLLOVERRIDE".to_string(), "winhttp".to_string())]);
    assert_eq!(plan.current_dir, Some("C:/game".to_string()));
    assert!(plan.detach_console);
}

#[test]
fn verbatim_prefix_is_stripped_from_canonical_paths() {
    assert_eq!(strip_verbatim_prefix("\\\\?\\C:/state"), "C:/state");
    assert_eq!(strip_verbatim_prefix("C:/state"), "C:/state");
    let plan = plan_launch_windows(true, "\\\\?\\C:/state", "C:/game", "C:/game/Game.exe", &Vec::new());
    assert_eq!(plan.args[3], "C:/state/BepInEx/core/BepInEx.Preloader.dll");
}
