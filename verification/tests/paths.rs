use seelen_ui::commands::{has_prefix, icon_source, join_args, run_as_admin_command, IconSource};
use seelen_ui::constants::{
    force_retiling_after_add, Icons, SeelenCommon, NATIVE_UI_POPUP_CLASSES,
    OVERLAP_BLACK_LIST_BY_EXE,
};
use std::path::Path;

fn joined(base: &str, child: &str) -> String {
    Path::new(base).join(child).to_string_lossy().into_owned()
}

#[test]
fn common_paths_are_joined_to_their_directories() {
    let data = joined("home", "data");
    let res = joined("opt", "resources");
    let c = SeelenCommon::new(&data, &res);
    assert_ne!(c.settings_path(), data);
    assert_eq!(c.settings_path(), joined(&data, "settings.json"));
    assert_eq!(c.weg_items_path(), joined(&data, "seelenweg_items_v2.yml"));
    assert_eq!(c.history_path(), joined(&data, "history"));
    assert_eq!(c.icons_path(), joined(&data, "icons"));
    assert_eq!(c.user_themes_path(), joined(&data, "themes"));
    assert_eq!(c.bundled_themes_path(), joined(&res, "static/themes"));
    assert_eq!(c.user_plugins_path(), joined(&data, "plugins"));
    assert_eq!(c.bundled_plugins_path(), joined(&res, "static/plugins"));
    assert_eq!(c.user_app_configs_path(), joined(&data, "applications.yml"));
    assert_eq!(c.bundled_app_configs_path(), joined(&res, "static/apps_templates"));
    assert_eq!(c.user_layouts_path(), joined(&data, "layouts"));
    assert_eq!(c.bundled_layouts_path(), joined(&res, "static/layouts"));
    assert_eq!(c.user_placeholders_path(), joined(&data, "placeholders"));
    assert_eq!(c.bundled_placeholders_path(), joined(&res, "static/placeholders"));
    assert_eq!(c.user_widgets_path(), joined(&data, "widgets"));
    assert_eq!(c.bundled_widgets_path(), joined(&res, "static/widgets"));
    assert_eq!(c.wallpapers_path(), joined(&data, "wallpapers"));
    assert_eq!(c.user_profiles_path(), joined(&data, "profiles"));
    assert_eq!(c.bundled_profiles_path(), joined(&res, "static/profiles"));
}

#[test]
fn settings_path_ends_with_the_file_name() {
    let c = SeelenCommon::new("data", "res");
    assert!(Path::new(c.settings_path()).ends_with("settings.json"));
    assert!(Path::new(c.settings_path()).starts_with("data"));
    assert!(Path::new(c.bundled_layouts_path()).starts_with("res"));
    assert!(Path::new(c.bundled_layouts_path()).ends_with("static/layouts"));
}

#[test]
fn icons_keep_the_fallback_icon() {
    let icons = Icons::new("res/static/icons/missing.png".to_string());
    assert_eq!(icons.missing_app(), "res/static/icons/missing.png");
}

#[test]
fn known_names() {
    assert_eq!(force_retiling_after_add(), vec!["WhatsApp".to_string()]);
    assert_eq!(
        NATIVE_UI_POPUP_CLASSES,
        ["ForegroundStaging", "XamlExplorerHostIslandWindow", "ControlCenterWindow"]
    );
    assert_eq!(OVERLAP_BLACK_LIST_BY_EXE.len(), 6);
    assert_eq!(OVERLAP_BLACK_LIST_BY_EXE[0], "msedgewebview2.exe");
    assert_eq!(OVERLAP_BLACK_LIST_BY_EXE[5], "SnippingTool.exe");
}

#[test]
fn admin_command_without_arguments() {
    assert_eq!(
        run_as_admin_command("notepad.exe", &vec![]),
        "Start-Process 'notepad.exe' -Verb runAs"
    );
}

#[test]
fn admin_command_with_arguments() {
    let args = vec!["/c".to_string(), "dir".to_string(), "C:\\".to_string()];
    assert_eq!(
        run_as_admin_command("cmd", &args),
        "Start-Process 'cmd' -Verb runAs -ArgumentList '/c dir C:\\'"
    );
    assert_eq!(join_args(&args), "/c dir C:\\");
    assert_eq!(join_args(&vec!["one".to_string()]), "one");
    assert_eq!(join_args(&vec![]), "");
    assert_eq!(join_args(&vec!["".to_string(), "".to_string()]), " ");
}

#[test]
fn prefix_test() {
    assert!(has_prefix("shell:AppsFolder\\x", "shell:AppsFolder"));
    assert!(has_prefix("abc", ""));
    assert!(has_prefix("abc", "abc"));
    assert!(!has_prefix("ab", "abc"));
    assert!(!has_prefix("abd", "abc"));
    assert!(has_prefix("héllo", "hé"));
    assert!(!has_prefix("hello", "hé"));
}

#[test]
fn icon_of_a_packaged_application() {
    match icon_source("shell:AppsFolder\\Microsoft.WindowsCalculator_8wekyb3d8bbwe!App") {
        IconSource::Umid(umid) => {
            assert_eq!(umid, "Microsoft.WindowsCalculator_8wekyb3d8bbwe!App")
        }
        IconSource::File(_) => panic!("an application taken for a file"),
    }
    match icon_source("shell:AppsFolder") {
        IconSource::Umid(umid) => assert_eq!(umid, "shell:AppsFolder"),
        IconSource::File(_) => panic!("an application taken for a file"),
    }
}

#[test]
fn every_match_of_the_folder_prefix_is_removed() {
    let umid = |path: &str| match icon_source(path) {
        IconSource::Umid(umid) => umid,
        IconSource::File(_) => panic!("an application taken for a file"),
    };
    assert_eq!(umid("shell:AppsFolder\\a\\shell:AppsFolder\\b"), "a\\b");
    assert_eq!(umid("shell:AppsFolder\\shell:AppsFolder\\"), "");
    assert_eq!(umid("shell:AppsFolder\\shell:AppsFolder"), "shell:AppsFolder");
    assert_eq!(umid("shell:AppsFolderX\\y"), "shell:AppsFolderX\\y");
    assert_eq!(umid("shell:AppsFolder\\é\\ü"), "é\\ü");
}

#[test]
fn icon_of_a_file() {
    match icon_source("C:\\Windows\\notepad.exe") {
        IconSource::File(file) => assert_eq!(file, "C:\\Windows\\notepad.exe"),
        IconSource::Umid(_) => panic!("a file taken for an application"),
    }
    match icon_source("") {
        IconSource::File(file) => assert_eq!(file, ""),
        IconSource::Umid(_) => panic!("a file taken for an application"),
    }
}
