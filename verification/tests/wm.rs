use seelen_ui::error::ShellError;
use seelen_ui::layout::{split, tile, Placement};
use seelen_ui::monitor::{Monitor, MonitorRegistry, Rect};
use seelen_ui::settings::{MonitorConfig, Settings, WorkspaceConfig};
use seelen_ui::state::FullState;
use seelen_ui::winevent::{simulate_fullscreen, EventData, WinEvent};
use seelen_ui::wm::WindowManager;

fn rect(left: i32, top: i32, right: i32, bottom: i32) -> Rect {
    Rect { left, top, right, bottom }
}

fn state_with(wm: bool) -> FullState {
    let mut settings = Settings::new(true, true, wm, "bsp".to_string(), true, true, true);
    settings.insert_monitor(
        "NOTILE".to_string(),
        MonitorConfig {
            weg_enabled: None,
            tb_enabled: None,
            wm_enabled: Some(false),
            default_layout: None,
            workspaces_v2: Vec::new(),
        },
    );
    settings.insert_monitor(
        "FORCED".to_string(),
        MonitorConfig {
            weg_enabled: None,
            tb_enabled: None,
            wm_enabled: Some(true),
            default_layout: None,
            workspaces_v2: Vec::new(),
        },
    );
    settings.insert_monitor(
        "MAIN".to_string(),
        MonitorConfig {
            weg_enabled: None,
            tb_enabled: None,
            wm_enabled: None,
            default_layout: Some("columns".to_string()),
            workspaces_v2: vec![WorkspaceConfig { layout: Some("grid".to_string()) }],
        },
    );
    FullState::new(settings)
}

fn registry() -> MonitorRegistry {
    let mut r = MonitorRegistry::new();
    r.connect(Monitor {
        handle: 1,
        device_id: Some("MAIN".to_string()),
        rect: rect(0, 0, 1920, 1080),
    });
    r.connect(Monitor {
        handle: 2,
        device_id: Some("NOTILE".to_string()),
        rect: rect(1920, 0, 3840, 1080),
    });
    r.connect(Monitor {
        handle: 3,
        device_id: Some("FORCED".to_string()),
        rect: rect(3840, 0, 4840, 1000),
    });
    r
}

fn created(handle: u64, monitor: u64) -> WinEvent {
    WinEvent::WindowCreated(EventData { handle, monitor })
}

fn destroyed(handle: u64, monitor: u64) -> WinEvent {
    WinEvent::WindowDestroyed(EventData { handle, monitor })
}

#[test]
fn split_cuts_across_the_longer_side() {
    assert_eq!(
        split(rect(0, 0, 1920, 1080)),
        (rect(0, 0, 960, 1080), rect(960, 0, 1920, 1080))
    );
    assert_eq!(
        split(rect(0, 0, 1080, 1921)),
        (rect(0, 0, 1080, 960), rect(0, 960, 1080, 1921))
    );
    assert_eq!(
        split(rect(-101, 0, 0, 10)),
        (rect(-101, 0, -51, 10), rect(-51, 0, 0, 10))
    );
    assert_eq!(split(rect(5, 5, 5, 5)), (rect(5, 5, 5, 5), rect(5, 5, 5, 5)));
    assert_eq!(
        split(rect(i32::MIN, 0, i32::MAX, 1)),
        (rect(i32::MIN, 0, -1, 1), rect(-1, 0, i32::MAX, 1))
    );
}

#[test]
fn tile_places_windows_in_order() {
    let area = rect(0, 0, 1920, 1080);
    assert_eq!(tile(area, &vec![]), vec![]);
    assert_eq!(tile(area, &vec![7]), vec![Placement { window: 7, rect: area }]);
    assert_eq!(
        tile(area, &vec![7, 8, 9]),
        vec![
            Placement { window: 7, rect: rect(0, 0, 960, 1080) },
            Placement { window: 8, rect: rect(960, 0, 1920, 540) },
            Placement { window: 9, rect: rect(960, 540, 1920, 1080) },
        ]
    );
}

#[test]
fn tiles_do_not_overlap_and_stay_inside() {
    let area = rect(-300, 17, 1001, 777);
    let windows: Vec<u64> = (1..=9).collect();
    let placed = tile(area, &windows);
    assert_eq!(placed.len(), 9);
    for (i, p) in placed.iter().enumerate() {
        assert_eq!(p.window, windows[i]);
        assert!(area.left <= p.rect.left && p.rect.right <= area.right);
        assert!(area.top <= p.rect.top && p.rect.bottom <= area.bottom);
        for q in &placed[i + 1..] {
            let apart = p.rect.right <= q.rect.left
                || q.rect.right <= p.rect.left
                || p.rect.bottom <= q.rect.top
                || q.rect.bottom <= p.rect.top;
            assert!(apart);
        }
    }
}

#[test]
fn created_window_is_tiled_and_laid_out() {
    let state = state_with(true);
    let reg = registry();
    let mut wm = WindowManager::new();
    let pass = wm.handle_event(&state, &reg, 0, created(10, 1)).unwrap().unwrap();
    assert_eq!(pass.monitor, 1);
    assert_eq!(pass.layout, "grid");
    assert_eq!(pass.commands, vec![Placement { window: 10, rect: rect(0, 0, 1920, 1080) }]);
    assert!(wm.is_tiled(10));
    assert_eq!(wm.owner(10), Some(1));
    let pass = wm.handle_event(&state, &reg, 3, created(11, 1)).unwrap().unwrap();
    assert_eq!(pass.layout, "columns");
    assert_eq!(
        pass.commands,
        vec![
            Placement { window: 10, rect: rect(0, 0, 960, 1080) },
            Placement { window: 11, rect: rect(960, 0, 1920, 1080) },
        ]
    );
    assert_eq!(wm.windows_on(1), vec![10, 11]);
    assert_eq!(wm.last_placement(11), Some(rect(960, 0, 1920, 1080)));
    assert_eq!(wm.last_placement(12), None);
}

#[test]
fn window_is_not_tiled_where_tiling_is_off() {
    let reg = registry();
    let mut wm = WindowManager::new();
    // off for the monitor
    let state = state_with(true);
    assert!(wm.handle_event(&state, &reg, 0, created(10, 2)).unwrap().is_none());
    assert!(!wm.is_tiled(10));
    let focused = WinEvent::WindowFocused(EventData { handle: 10, monitor: 2 });
    assert!(wm.handle_event(&state, &reg, 0, focused).unwrap().is_none());
    assert!(!wm.is_tiled(10));
    // off globally, and the monitor says nothing
    let off = state_with(false);
    assert!(wm.handle_event(&off, &reg, 0, created(11, 1)).unwrap().is_none());
    assert!(!wm.is_tiled(11));
    assert_eq!(wm.windows_on(1), Vec::<u64>::new());
}

#[test]
fn window_is_tiled_where_the_monitor_switches_tiling_on() {
    let reg = registry();
    let mut wm = WindowManager::new();
    let off = state_with(false);
    let pass = wm.handle_event(&off, &reg, 0, created(12, 3)).unwrap().unwrap();
    assert_eq!(pass.monitor, 3);
    assert_eq!(pass.layout, "bsp");
    assert_eq!(pass.commands, vec![Placement { window: 12, rect: rect(3840, 0, 4840, 1000) }]);
    assert!(wm.is_tiled(12));
}

#[test]
fn focus_tiles_a_window_that_was_not_seen_before() {
    let state = state_with(true);
    let reg = registry();
    let mut wm = WindowManager::new();
    let focused = WinEvent::WindowFocused(EventData { handle: 5, monitor: 1 });
    let pass = wm.handle_event(&state, &reg, 0, focused).unwrap().unwrap();
    assert_eq!(pass.commands.len(), 1);
    assert!(wm.is_tiled(5));
    // a second focus changes nothing
    assert!(wm.handle_event(&state, &reg, 0, focused).unwrap().is_none());
    assert_eq!(wm.windows_on(1), vec![5]);
}

#[test]
fn stale_monitor_handle_is_reported_and_skipped() {
    let state = state_with(true);
    let mut reg = registry();
    let mut wm = WindowManager::new();
    match wm.handle_event(&state, &reg, 0, created(10, 99)) {
        Err(e) => assert_eq!(e, ShellError::StaleHandle),
        Ok(_) => panic!("a stale handle went through"),
    }
    assert!(!wm.is_tiled(10));
    // a tiled window whose monitor went away is still purged
    wm.handle_event(&state, &reg, 0, created(11, 1)).unwrap();
    assert!(reg.disconnect(1).is_some());
    match wm.handle_event(&state, &reg, 0, destroyed(11, 1)) {
        Err(e) => assert_eq!(e, ShellError::StaleHandle),
        Ok(_) => panic!("a stale handle went through"),
    }
    assert!(!wm.is_tiled(11));
    assert_eq!(wm.last_placement(11), None);
}

#[test]
fn fullscreen_window_is_held_back_until_the_end_event() {
    let state = state_with(true);
    let reg = registry();
    let mut wm = WindowManager::new();
    wm.handle_event(&state, &reg, 0, created(10, 1)).unwrap();
    wm.handle_event(&state, &reg, 0, created(11, 1)).unwrap();
    let pass = wm
        .handle_event(&state, &reg, 0, simulate_fullscreen(10, 1, true))
        .unwrap()
        .unwrap();
    assert!(wm.is_suppressed(10));
    assert!(wm.is_tiled(10));
    assert_eq!(wm.windows_on(1), vec![11]);
    assert_eq!(pass.commands, vec![Placement { window: 11, rect: rect(0, 0, 1920, 1080) }]);
    let pass = wm
        .handle_event(&state, &reg, 0, simulate_fullscreen(10, 1, false))
        .unwrap()
        .unwrap();
    assert!(!wm.is_suppressed(10));
    assert_eq!(wm.windows_on(1), vec![10, 11]);
    assert_eq!(pass.commands, vec![Placement { window: 11, rect: rect(960, 0, 1920, 1080) }]);
}

#[test]
fn destroyed_while_suppressed_leaves_no_residue() {
    let state = state_with(true);
    let reg = registry();
    let mut wm = WindowManager::new();
    wm.handle_event(&state, &reg, 0, created(10, 1)).unwrap();
    wm.handle_event(&state, &reg, 0, simulate_fullscreen(10, 1, true)).unwrap();
    assert!(wm.is_suppressed(10));
    wm.handle_event(&state, &reg, 0, destroyed(10, 1)).unwrap();
    assert!(!wm.is_suppressed(10));
    assert!(!wm.is_tiled(10));
    assert_eq!(wm.last_placement(10), None);
    // the same for a window that was never tiled
    assert!(wm
        .handle_event(&state, &reg, 0, simulate_fullscreen(20, 2, true))
        .unwrap()
        .is_none());
    assert!(wm.is_suppressed(20));
    assert!(wm.handle_event(&state, &reg, 0, destroyed(20, 2)).unwrap().is_none());
    assert!(!wm.is_suppressed(20));
}

#[test]
fn second_layout_pass_issues_nothing() {
    let state = state_with(true);
    let reg = registry();
    let mut wm = WindowManager::new();
    wm.handle_event(&state, &reg, 0, created(10, 1)).unwrap();
    wm.handle_event(&state, &reg, 0, created(11, 1)).unwrap();
    wm.handle_event(&state, &reg, 0, created(12, 1)).unwrap();
    let monitor = reg.find(1).unwrap();
    assert_eq!(wm.recompute_layout(monitor), vec![]);
    assert_eq!(wm.recompute_layout(monitor), vec![]);
    // after a change, only what moved is issued, and then nothing again
    wm.handle_event(&state, &reg, 0, destroyed(12, 1)).unwrap();
    assert_eq!(wm.recompute_layout(monitor), vec![]);
    let moved = Monitor { handle: 1, device_id: Some("MAIN".to_string()), rect: rect(0, 0, 1000, 500) };
    assert_eq!(
        wm.recompute_layout(&moved),
        vec![
            Placement { window: 10, rect: rect(0, 0, 500, 500) },
            Placement { window: 11, rect: rect(500, 0, 1000, 500) },
        ]
    );
    assert_eq!(wm.recompute_layout(&moved), vec![]);
}

#[test]
fn events_without_membership_change_do_nothing() {
    let state = state_with(true);
    let reg = registry();
    let mut wm = WindowManager::new();
    wm.handle_event(&state, &reg, 0, created(10, 1)).unwrap();
    let d = EventData { handle: 10, monitor: 1 };
    for e in [
        WinEvent::WindowMoved(d),
        WinEvent::WindowResized(d),
        WinEvent::WindowMinimized(d),
        WinEvent::WindowRestored(d),
    ] {
        assert!(wm.handle_event(&state, &reg, 0, e).unwrap().is_none());
    }
    assert_eq!(wm.windows_on(1), vec![10]);
}

#[test]
fn registry_follows_hot_plug() {
    let mut reg = MonitorRegistry::new();
    assert_eq!(reg.len(), 0);
    assert!(reg.find(1).is_none());
    assert!(reg
        .connect(Monitor { handle: 1, device_id: Some("A".to_string()), rect: rect(0, 0, 10, 10) })
        .is_none());
    let old = reg
        .connect(Monitor { handle: 1, device_id: Some("B".to_string()), rect: rect(0, 0, 20, 20) })
        .unwrap();
    assert_eq!(old.device_id.as_deref(), Some("A"));
    assert_eq!(reg.len(), 1);
    assert_eq!(reg.find(1).unwrap().device_id.as_deref(), Some("B"));
    assert_eq!(reg.find(1).unwrap().rect, rect(0, 0, 20, 20));
    assert!(reg.disconnect(2).is_none());
    assert_eq!(reg.disconnect(1).unwrap().handle, 1);
    assert!(reg.find(1).is_none());
    assert_eq!(reg.len(), 0);
}
