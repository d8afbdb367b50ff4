use marionette::registry::WindowRegistry;
use marionette::window::{Geometry, PlatformWindowId, WindowInfo};

fn info(id: u32, title: &str) -> WindowInfo {
    WindowInfo {
        platform_id: PlatformWindowId::X11(id),
        title: title.to_string(),
        class: String::new(),
        geometry: Geometry::default(),
        focused: false,
        visible: true,
    }
}

fn refs(reg: &WindowRegistry) -> Vec<String> {
    reg.windows().iter().map(|w| w.ref_id.clone()).collect()
}

#[test]
fn refresh_scenario_keeps_retires_and_never_reuses() {
    let mut reg = WindowRegistry::new();
    reg.update_windows(vec![info(1, "Editor"), info(2, "Terminal")]);
    assert_eq!(reg.version(), 1);
    assert_eq!(reg.get_window("w0").unwrap().title, "Editor");
    assert_eq!(reg.get_window("w1").unwrap().title, "Terminal");

    reg.update_windows(vec![info(2, "Terminal - renamed")]);
    assert_eq!(reg.version(), 2);
    assert!(reg.get_window("w0").is_none());
    let w1 = reg.get_window("w1").unwrap();
    assert_eq!(w1.title, "Terminal - renamed");
    assert_eq!(w1.platform_id, PlatformWindowId::X11(2));

    reg.update_windows(vec![info(2, "Terminal - renamed"), info(3, "Browser")]);
    assert!(reg.get_window("w0").is_none());
    assert_eq!(reg.get_window("w2").unwrap().platform_id, PlatformWindowId::X11(3));
    assert_eq!(refs(&reg), vec!["w1".to_string(), "w2".to_string()]);
}

#[test]
fn empty_refresh_still_advances_version() {
    let mut reg = WindowRegistry::default();
    assert_eq!(reg.version(), 0);
    reg.update_windows(Vec::new());
    reg.update_windows(Vec::new());
    assert_eq!(reg.version(), 2);
    assert!(reg.windows().is_empty());
}

#[test]
fn identity_is_stable_and_fields_follow_latest_snapshot() {
    let mut reg = WindowRegistry::new();
    reg.update_windows(vec![info(7, "a"), info(8, "b")]);
    let mut moved = info(8, "b2");
    moved.geometry = Geometry { x: -5, y: 10, width: 300, height: 200 };
    moved.focused = true;
    moved.visible = false;
    moved.class = "Kitty".to_string();
    reg.update_windows(vec![moved, info(7, "a")]);
    let w = reg.get_window("w1").unwrap();
    assert_eq!(w.platform_id, PlatformWindowId::X11(8));
    assert_eq!(w.title, "b2");
    assert_eq!(w.class, "Kitty");
    assert_eq!(w.geometry, Geometry { x: -5, y: 10, width: 300, height: 200 });
    assert!(w.focused);
    assert!(!w.visible);
    assert_eq!(reg.get_window("w0").unwrap().platform_id, PlatformWindowId::X11(7));
}

#[test]
fn duplicate_identifier_in_batch_takes_last_snapshot() {
    let mut reg = WindowRegistry::new();
    reg.update_windows(vec![info(4, "first"), info(5, "other"), info(4, "second")]);
    assert_eq!(refs(&reg), vec!["w0".to_string(), "w1".to_string()]);
    assert_eq!(reg.get_window("w0").unwrap().title, "second");
    assert_eq!(reg.get_window("w1").unwrap().title, "other");
    assert!(reg.get_window("w2").is_none());
}

#[test]
fn listing_is_sorted_by_numeric_suffix() {
    let mut reg = WindowRegistry::new();
    let batch: Vec<WindowInfo> = (0..12).map(|i| info(100 + i, "x")).collect();
    reg.update_windows(batch);
    let keep: Vec<WindowInfo> = vec![info(111, "x"), info(102, "x"), info(110, "x"), info(200, "new")];
    reg.update_windows(keep);
    assert_eq!(
        refs(&reg),
        vec!["w2".to_string(), "w10".to_string(), "w11".to_string(), "w12".to_string()]
    );
}

#[test]
fn retired_reference_is_not_reassigned_after_churn() {
    let mut reg = WindowRegistry::new();
    reg.update_windows(vec![info(1, "a")]);
    for round in 0..5u32 {
        reg.update_windows(Vec::new());
        reg.update_windows(vec![info(1, "a")]);
        assert!(reg.get_window("w0").is_none());
        let expected = format!("w{}", round + 1);
        assert_eq!(refs(&reg), vec![expected.clone()]);
        assert_eq!(reg.get_window(&expected).unwrap().platform_id, PlatformWindowId::X11(1));
    }
    assert_eq!(reg.version(), 11);
}

#[test]
fn identifiers_of_different_namespaces_are_distinct() {
    let mut reg = WindowRegistry::new();
    let mut wl = info(0, "native");
    wl.platform_id = PlatformWindowId::Wayland("1".to_string());
    reg.update_windows(vec![info(1, "x11"), wl]);
    assert_eq!(refs(&reg).len(), 2);
    assert_eq!(reg.get_window("w1").unwrap().platform_id, PlatformWindowId::Wayland("1".to_string()));
    assert_ne!(PlatformWindowId::X11(1), PlatformWindowId::Wayland("1".to_string()));
}

#[test]
fn unknown_reference_is_not_found() {
    let mut reg = WindowRegistry::new();
    reg.update_windows(vec![info(1, "a")]);
    assert!(reg.get_window("w9").is_none());
    assert!(reg.get_window("x0").is_none());
    assert!(reg.get_window("").is_none());
    assert!(reg.get_window("w00").is_none());
}

#[test]
fn update_bounds_are_checked() {
    let reg = WindowRegistry::new();
    assert!(reg.can_update(3));
    assert!(reg.can_update(usize::MAX));
}

#[test]
fn every_reference_maps_to_one_window_and_back() {
    let mut reg = WindowRegistry::new();
    reg.update_windows(vec![info(10, "a"), info(11, "b"), info(12, "c")]);
    reg.update_windows(vec![info(12, "c"), info(13, "d"), info(10, "a")]);
    let listed = reg.windows();
    assert_eq!(listed.len(), 3);
    for (i, w) in listed.iter().enumerate() {
        let back = reg.get_window(&w.ref_id).unwrap();
        assert_eq!(back.platform_id, w.platform_id);
        for other in listed.iter().skip(i + 1) {
            assert_ne!(other.platform_id, w.platform_id);
            assert_ne!(other.ref_id, w.ref_id);
        }
    }
}
