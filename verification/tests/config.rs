use seelen_ui::monitor::{Monitor, Rect};
use seelen_ui::settings::{AhkVar, MonitorConfig, Settings, WorkspaceConfig};
use seelen_ui::state::{EffectiveFlags, FullState};

fn rect() -> Rect {
    Rect { left: 0, top: 0, right: 1920, bottom: 1080 }
}

fn monitor(handle: u64, id: Option<&str>) -> Monitor {
    Monitor { handle, device_id: id.map(|s| s.to_string()), rect: rect() }
}

fn settings(weg: bool, tb: bool, wm: bool, layout: &str) -> Settings {
    Settings::new(weg, tb, wm, layout.to_string(), false, true, true)
}

fn empty_config() -> MonitorConfig {
    MonitorConfig {
        weg_enabled: None,
        tb_enabled: None,
        wm_enabled: None,
        default_layout: None,
        workspaces_v2: Vec::new(),
    }
}

fn workspace(layout: Option<&str>) -> WorkspaceConfig {
    WorkspaceConfig { layout: layout.map(|s| s.to_string()) }
}

#[test]
fn flags_follow_override_and_global_default() {
    let mut s = settings(true, true, true, "bsp");
    let mut display1 = empty_config();
    display1.weg_enabled = Some(false);
    s.insert_monitor("DISPLAY1".to_string(), display1);
    let state = FullState::new(s);
    assert!(!state.is_weg_enabled_on_monitor(&monitor(1, Some("DISPLAY1"))));
    assert!(state.is_weg_enabled_on_monitor(&monitor(2, Some("DISPLAY2"))));
    assert!(!state.resolve_flags(&monitor(1, Some("DISPLAY1"))).weg_enabled);
    assert!(state.resolve_flags(&monitor(2, Some("DISPLAY2"))).weg_enabled);
}

#[test]
fn layout_falls_through_to_global_default() {
    let mut s = settings(true, true, true, "bsp");
    let mut display1 = empty_config();
    display1.workspaces_v2 = vec![workspace(Some("grid")), workspace(Some("tall")), workspace(None)];
    s.insert_monitor("DISPLAY1".to_string(), display1);
    let state = FullState::new(s);
    let m = monitor(1, Some("DISPLAY1"));
    assert_eq!(state.resolve_layout(&m, 2), "bsp");
    assert_eq!(state.get_wm_layout_id(&m, 2), "bsp");
}

#[test]
fn flags_without_entry_equal_global_defaults() {
    for weg in [false, true] {
        for tb in [false, true] {
            for wm in [false, true] {
                let mut s = settings(weg, tb, wm, "bsp");
                let mut other = empty_config();
                other.weg_enabled = Some(!weg);
                other.tb_enabled = Some(!tb);
                other.wm_enabled = Some(!wm);
                s.insert_monitor("OTHER".to_string(), other);
                let state = FullState::new(s);
                let expected = EffectiveFlags { weg_enabled: weg, tb_enabled: tb, wm_enabled: wm };
                assert_eq!(state.resolve_flags(&monitor(7, Some("DISPLAY9"))), expected);
                assert_eq!(state.resolve_flags(&monitor(8, None)), expected);
            }
        }
    }
}

#[test]
fn flag_missing_inside_override_falls_back() {
    let mut s = settings(true, true, true, "bsp");
    let mut c = empty_config();
    c.tb_enabled = Some(false);
    s.insert_monitor("DISPLAY1".to_string(), c);
    let state = FullState::new(s);
    let m = monitor(1, Some("DISPLAY1"));
    assert!(state.is_weg_enabled_on_monitor(&m));
    assert!(!state.is_bar_enabled_on_monitor(&m));
    assert!(state.is_window_manager_enabled_on_monitor(&m));
}

#[test]
fn override_enables_what_is_globally_off() {
    let mut s = settings(false, false, false, "bsp");
    let mut c = empty_config();
    c.weg_enabled = Some(true);
    c.tb_enabled = Some(true);
    c.wm_enabled = Some(true);
    s.insert_monitor("DISPLAY1".to_string(), c);
    let state = FullState::new(s);
    let m = monitor(1, Some("DISPLAY1"));
    assert!(state.is_weg_enabled_on_monitor(&m));
    assert!(state.is_bar_enabled_on_monitor(&m));
    assert!(state.is_window_manager_enabled_on_monitor(&m));
    assert_eq!(
        state.resolve_flags(&m),
        EffectiveFlags { weg_enabled: true, tb_enabled: true, wm_enabled: true }
    );
    // the monitor next to it still has the global values
    assert_eq!(
        state.resolve_flags(&monitor(2, Some("DISPLAY2"))),
        EffectiveFlags { weg_enabled: false, tb_enabled: false, wm_enabled: false }
    );
}

#[test]
fn override_is_the_value_for_every_pair_of_global_and_local() {
    for global in [false, true] {
        for local in [None, Some(false), Some(true)] {
            let mut s = settings(global, global, global, "bsp");
            let mut c = empty_config();
            c.weg_enabled = local;
            c.tb_enabled = local;
            c.wm_enabled = local;
            s.insert_monitor("A".to_string(), c);
            let state = FullState::new(s);
            let expected = local.unwrap_or(global);
            assert_eq!(
                state.resolve_flags(&monitor(1, Some("A"))),
                EffectiveFlags {
                    weg_enabled: expected,
                    tb_enabled: expected,
                    wm_enabled: expected
                }
            );
        }
    }
}

#[test]
fn layout_cascade_level_by_level() {
    let mut s = settings(true, true, true, "global");
    let mut with_default = empty_config();
    with_default.default_layout = Some("monitor".to_string());
    with_default.workspaces_v2 = vec![workspace(Some("own")), workspace(None)];
    s.insert_monitor("A".to_string(), with_default);
    let mut without_default = empty_config();
    without_default.workspaces_v2 = vec![workspace(None), workspace(Some("second"))];
    s.insert_monitor("B".to_string(), without_default);
    let state = FullState::new(s);
    let a = monitor(1, Some("A"));
    let b = monitor(2, Some("B"));
    let c = monitor(3, Some("C"));
    let nameless = monitor(4, None);
    // workspace level
    assert_eq!(state.resolve_layout(&a, 0), "own");
    assert_eq!(state.resolve_layout(&b, 1), "second");
    // monitor level: workspace without layout, and index out of range
    assert_eq!(state.resolve_layout(&a, 1), "monitor");
    assert_eq!(state.resolve_layout(&a, 2), "monitor");
    assert_eq!(state.resolve_layout(&a, usize::MAX), "monitor");
    // global level
    assert_eq!(state.resolve_layout(&b, 0), "global");
    assert_eq!(state.resolve_layout(&b, 5), "global");
    assert_eq!(state.resolve_layout(&c, 0), "global");
    assert_eq!(state.resolve_layout(&nameless, 0), "global");
}

#[test]
fn insert_monitor_replaces_entry_wholesale() {
    let mut s = settings(true, true, true, "bsp");
    let mut first = empty_config();
    first.weg_enabled = Some(false);
    first.default_layout = Some("old".to_string());
    s.insert_monitor("A".to_string(), first);
    s.insert_monitor("B".to_string(), empty_config());
    let mut second = empty_config();
    second.tb_enabled = Some(false);
    s.insert_monitor("A".to_string(), second);
    assert!(s.monitor_config(&"B".to_string()).is_some());
    let id = "A".to_string();
    let found = s.monitor_config(&id).unwrap();
    assert_eq!(found.weg_enabled, None);
    assert_eq!(found.tb_enabled, Some(false));
    assert_eq!(found.default_layout, None);
    assert!(s.monitor_config(&"Z".to_string()).is_none());
}

#[test]
fn global_getters_read_the_snapshot() {
    let mut s = settings(true, false, true, "bsp");
    s.insert_ahk_variable(AhkVar {
        name: "toggle".to_string(),
        fancy: "Win + T".to_string(),
        ahk: "#t".to_string(),
    });
    let state = FullState::new(s);
    assert!(state.is_weg_enabled());
    assert!(!state.is_bar_enabled());
    assert!(state.is_window_manager_enabled());
    assert!(!state.is_rofi_enabled());
    assert!(state.is_wall_enabled());
    assert!(state.is_ahk_enabled());
    let vars = state.get_ahk_variables();
    assert_eq!(vars.len(), 1);
    assert_eq!(vars[0].name, "toggle");
    assert_eq!(vars[0].fancy, "Win + T");
    assert_eq!(vars[0].ahk, "#t");
}

#[test]
fn replace_settings_swaps_the_whole_snapshot() {
    let mut first = settings(true, true, true, "bsp");
    let mut c = empty_config();
    c.weg_enabled = Some(false);
    first.insert_monitor("A".to_string(), c);
    let mut state = FullState::new(first);
    let m = monitor(1, Some("A"));
    assert!(!state.is_weg_enabled_on_monitor(&m));
    let previous = state.replace_settings(settings(true, false, false, "grid"));
    assert!(previous.monitor_config(&"A".to_string()).is_some());
    assert_eq!(previous.default_layout(), "bsp");
    assert!(state.is_weg_enabled_on_monitor(&m));
    assert!(!state.is_bar_enabled());
    assert_eq!(state.resolve_layout(&m, 0), "grid");
}

#[test]
fn hotkey_variable_names_stay_unique() {
    let var = |name: &str, ahk: &str| AhkVar {
        name: name.to_string(),
        fancy: name.to_uppercase(),
        ahk: ahk.to_string(),
    };
    let mut s = settings(true, true, true, "bsp");
    s.insert_ahk_variable(var("a", "1"));
    s.insert_ahk_variable(var("b", "2"));
    s.insert_ahk_variable(var("a", "3"));
    s.insert_ahk_variable(var("c", "4"));
    let state = FullState::new(s);
    let vars = state.get_ahk_variables();
    let listed: Vec<(&str, &str)> = vars.iter().map(|v| (v.name.as_str(), v.ahk.as_str())).collect();
    assert_eq!(listed, vec![("a", "3"), ("b", "2"), ("c", "4")]);
}

#[test]
fn settings_getters() {
    let s = Settings::new(true, false, true, "grid".to_string(), false, true, false);
    assert!(s.seelenweg_enabled());
    assert!(!s.fancy_toolbar_enabled());
    assert!(s.window_manager_enabled());
    assert_eq!(s.default_layout(), "grid");
    assert!(!s.launcher_enabled());
    assert!(s.wall_enabled());
    assert!(!s.ahk_enabled());
    assert!(s.ahk_variables().is_empty());
    assert!(s.monitor_config(&"A".to_string()).is_none());
}
