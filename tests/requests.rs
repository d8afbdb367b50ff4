use marionette::registry::WindowRegistry;
use marionette::requests::{field_matches_folded, filter_windows, screen_point, window_matches};
use marionette::window::{Geometry, PlatformWindowId, WindowInfo};

fn info(id: u32, title: &str, class: &str) -> WindowInfo {
    WindowInfo {
        platform_id: PlatformWindowId::X11(id),
        title: title.to_string(),
        class: class.to_string(),
        geometry: Geometry { x: 100, y: 50, width: 10, height: 10 },
        focused: false,
        visible: true,
    }
}

#[test]
fn filters_match_substrings_without_case() {
    let mut reg = WindowRegistry::new();
    reg.update_windows(vec![
        info(1, "Mozilla Firefox", "firefox"),
        info(2, "Terminal", "Konsole"),
        info(3, "firefox settings", "Dialog"),
    ]);
    let all = reg.windows();
    let hits = filter_windows(&all, Some("FIREFOX"), None);
    let refs: Vec<&str> = hits.iter().map(|w| w.ref_id.as_str()).collect();
    assert_eq!(refs, vec!["w0", "w2"]);
    let hits = filter_windows(&all, Some("fire"), Some("dia"));
    assert_eq!(hits.len(), 1);
    assert_eq!(hits[0].ref_id, "w2");
    assert_eq!(filter_windows(&all, None, None).len(), 3);
    assert!(filter_windows(&all, Some("nothing"), None).is_empty());
    assert!(window_matches(all[1], Some(""), Some("KONS")));
}

#[test]
fn folded_match_is_exact() {
    assert!(field_matches_folded("terminal", Some("term")));
    assert!(!field_matches_folded("terminal", Some("Term")));
    assert!(field_matches_folded("terminal", None));
}

#[test]
fn screen_point_adds_origin_or_reports_overflow() {
    let g = Geometry { x: 100, y: -20, width: 1, height: 1 };
    assert_eq!(screen_point(g, 5, 30), Some((105, 10)));
    assert_eq!(screen_point(Geometry { x: i32::MAX, y: 0, width: 0, height: 0 }, 1, 0), None);
}
