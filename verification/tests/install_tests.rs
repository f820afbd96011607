use bepinex_installer::install::CopyStep;
use bepinex_installer::install::InstallError;
use bepinex_installer::install::ModPayload;
use bepinex_installer::install::find_payload_root;
use bepinex_installer::install::ledger_of_plan;
use bepinex_installer::install::plan_loader_install;
use bepinex_installer::install::plan_mod_install;
use bepinex_installer::install::removal_paths;
use bepinex_installer::types::FileAction;
use bepinex_installer::types::TrackedFile;

fn strings(items: &[&str]) -> Vec<String> {
    items.iter().map(|s| s.to_string()).collect()
}

fn empty_payload() -> ModPayload {
    ModPayload {
        has_bepinex_dir: false,
        plugins: Vec::new(),
        patchers: Vec::new(),
        monomod: Vec::new(),
        config: Vec::new(),
        top_level_files: Vec::new(),
    }
}

#[test]
fn payload_root_is_the_marker_files_directory() {
    let files = strings(&[
        "/pkg/README.md",
        "/pkg/BepInExPack/winhttp.dll",
        "/pkg/BepInExPack/BepInEx/core/BepInEx.Preloader.dll",
    ]);
    assert_eq!(find_payload_root(&files), Some("/pkg/BepInExPack".to_string()));
}

#[test]
fn missing_marker_fails_with_payload_not_found() {
    let files = strings(&["/pkg/README.md", "/pkg/BepInEx/core/BepInEx.Preloader.dll"]);
    assert_eq!(find_payload_root(&files), None);
    let r = plan_loader_install(&files, "/state", "/game");
    assert_eq!(r, Err(InstallError::PayloadNotFound));
}

#[test]
fn loader_plan_mirrors_the_bepinex_subtree_and_top_files() {
    let files = strings(&[
        "/pkg/root/winhttp.dll",
        "/pkg/root/doorstop_config.ini",
        "/pkg/root/BepInEx/core/BepInEx.Preloader.dll",
        "/pkg/root/BepInEx/core/BepInEx.dll",
        "/pkg/README.md",
    ]);
    let plan = plan_loader_install(&files, "/state", "/game").unwrap();
    let got: Vec<(String, String)> =
        plan.iter().map(|s| (s.source.clone(), s.dest.clone())).collect();
    assert_eq!(
        got,
        vec![
            (
                "/pkg/root/BepInEx/core/BepInEx.Preloader.dll".to_string(),
                "/state/BepInEx/core/BepInEx.Preloader.dll".to_string()
            ),
            (
                "/pkg/root/BepInEx/core/BepInEx.dll".to_string(),
                "/state/BepInEx/core/BepInEx.dll".to_string()
            ),
            ("/pkg/root/winhttp.dll".to_string(), "/game/winhttp.dll".to_string()),
            (
                "/pkg/root/doorstop_config.ini".to_string(),
                "/game/doorstop_config.ini".to_string()
            ),
        ]
    );
}

#[test]
fn relocated_plugin_lands_in_the_namespaced_folder() {
    let mut payload = empty_payload();
    payload.plugins = strings(&["Cool.dll"]);
    payload.config = strings(&["cool.cfg"]);
    let plan = plan_mod_install("Team", "Cool", "/pkg", "/state", &payload);
    let dests: Vec<String> = plan.iter().map(|s| s.dest.clone()).collect();
    assert_eq!(
        dests,
        vec![
            "/state/BepInEx/plugins/Team-Cool/Cool.dll".to_string(),
            "/state/BepInEx/config/cool.cfg".to_string(),
        ]
    );
    assert_eq!(plan[0].source, "/pkg/plugins/Cool.dll");
    assert_eq!(plan[1].source, "/pkg/config/cool.cfg");
}

#[test]
fn bepinex_subdir_is_preferred_as_category_source() {
    let mut payload = empty_payload();
    payload.has_bepinex_dir = true;
    payload.patchers = strings(&["Patch.dll"]);
    let plan = plan_mod_install("ns", "mod", "/pkg", "/state", &payload);
    assert_eq!(plan.len(), 1);
    assert_eq!(plan[0].source, "/pkg/BepInEx/patchers/Patch.dll");
    assert_eq!(plan[0].dest, "/state/BepInEx/patchers/ns-mod/Patch.dll");
}

#[test]
fn nested_category_files_keep_their_relative_paths() {
    let mut payload = empty_payload();
    payload.monomod = strings(&["Sub/Deep.dll"]);
    let plan = plan_mod_install("A", "B", "/pkg", "/state", &payload);
    assert_eq!(plan[0].source, "/pkg/monomod/Sub/Deep.dll");
    assert_eq!(plan[0].dest, "/state/BepInEx/monomod/A-B/Sub/Deep.dll");
}

#[test]
fn stray_top_level_files_are_treated_as_plugins() {
    let mut payload = empty_payload();
    payload.top_level_files = strings(&["modinfo.json", "icon.png"]);
    let plan = plan_mod_install("Team", "Cool", "/pkg", "/state", &payload);
    let dests: Vec<String> = plan.iter().map(|s| s.dest.clone()).collect();
    assert_eq!(
        dests,
        vec![
            "/state/BepInEx/plugins/Team-Cool/modinfo.json".to_string(),
            "/state/BepInEx/plugins/Team-Cool/icon.png".to_string(),
        ]
    );
}

#[test]
fn no_categories_and_no_stray_files_plan_nothing() {
    let payload = empty_payload();
    let plan = plan_mod_install("Team", "Cool", "/pkg", "/state", &payload);
    assert!(plan.is_empty());
    let ledger = ledger_of_plan(&plan);
    assert!(ledger.is_empty());
}

#[test]
fn ledger_records_every_destination_as_created() {
    let mut payload = empty_payload();
    payload.plugins = strings(&["One.dll", "Two.dll"]);
    let plan = plan_mod_install("Team", "Cool", "/pkg", "/state", &payload);
    let ledger = ledger_of_plan(&plan);
    assert_eq!(ledger.len(), plan.len());
    for (entry, step) in ledger.iter().zip(plan.iter()) {
        assert_eq!(entry.action, FileAction::Create);
        assert_eq!(entry.path, step.dest);
        assert_eq!(entry.context, None);
    }
}

#[test]
fn uninstall_removes_exactly_what_install_created() {
    let mut payload = empty_payload();
    payload.plugins = strings(&["One.dll"]);
    payload.config = strings(&["a.cfg"]);
    payload.top_level_files = strings(&["readme.txt"]);
    let plan = plan_mod_install("Team", "Cool", "/pkg", "/state", &payload);
    let ledger = ledger_of_plan(&plan);
    let removed = removal_paths(&ledger);
    let created: Vec<String> = plan.iter().map(|s| s.dest.clone()).collect();
    assert_eq!(removed, created);
}

#[test]
fn removal_skips_non_create_entries() {
    let ledger = vec![
        TrackedFile {
            action: FileAction::Create,
            path: "/state/a".to_string(),
            context: None,
        },
        TrackedFile {
            action: FileAction::Remove,
            path: "/state/b".to_string(),
            context: None,
        },
        TrackedFile {
            action: FileAction::Modify,
            path: "/state/c".to_string(),
            context: None,
        },
    ];
    assert_eq!(removal_paths(&ledger), vec!["/state/a".to_string()]);
}

#[test]
fn copy_steps_compare_by_fields() {
    let a = CopyStep { source: "s".to_string(), dest: "d".to_string() };
    let b = CopyStep { source: "s".to_string(), dest: "d".to_string() };
    assert_eq!(a, b);
}
