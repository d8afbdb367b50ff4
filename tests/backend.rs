use marionette::backend::{
    is_kde_desktop, is_kde_plasma, is_wayland, is_wayland_session_type, select_backend_kind,
    settle_backend, BackendKind, DisplayEnv, FocusAction, FocusEvent, FocusPlan, FocusStage,
    SelectError,
};
use marionette::window::{Geometry, PlatformWindowId, WindowInfo};

fn env() -> DisplayEnv {
    DisplayEnv {
        display: true,
        wayland_display: false,
        session_type: None,
        kde_full_session: false,
        kde_session_version: false,
        current_desktop: None,
    }
}

fn info(id: u32, title: &str) -> WindowInfo {
    WindowInfo {
        platform_id: PlatformWindowId::X11(id),
        title: title.to_string(),
        class: String::new(),
        geometry: Geometry::default(),
        focused: false,
        visible: true,
    }
}

#[test]
fn no_display_fails_fast() {
    let mut e = env();
    e.display = false;
    e.wayland_display = true;
    e.kde_full_session = true;
    assert_eq!(select_backend_kind(&e), Err(SelectError::NoDisplay));
    assert!(SelectError::NoDisplay.message().contains("DISPLAY"));
}

#[test]
fn plain_x11_selects_baseline() {
    assert_eq!(select_backend_kind(&env()), Ok(BackendKind::X11));
}

#[test]
fn kde_wayland_selects_delegating_backend() {
    let mut e = env();
    e.session_type = Some("Wayland".to_string());
    e.current_desktop = Some("plasma:kde".to_string());
    assert!(is_wayland(&e));
    assert!(is_kde_plasma(&e));
    assert_eq!(select_backend_kind(&e), Ok(BackendKind::KWin));
}

#[test]
fn wayland_without_kde_selects_baseline() {
    let mut e = env();
    e.wayland_display = true;
    e.current_desktop = Some("GNOME".to_string());
    assert!(is_wayland(&e));
    assert!(!is_kde_plasma(&e));
    assert_eq!(select_backend_kind(&e), Ok(BackendKind::X11));
}

#[test]
fn kde_on_x11_selects_baseline() {
    let mut e = env();
    e.kde_session_version = true;
    e.session_type = Some("x11".to_string());
    assert!(!is_wayland(&e));
    assert_eq!(select_backend_kind(&e), Ok(BackendKind::X11));
}

#[test]
fn folded_helpers_compare_exactly() {
    assert!(is_wayland_session_type("wayland"));
    assert!(!is_wayland_session_type("Wayland"));
    assert!(!is_wayland_session_type("wayland2"));
    assert!(is_kde_desktop("XFCE:KDE"));
    assert!(!is_kde_desktop("kde"));
}

#[test]
fn failed_enhancement_falls_back_to_baseline() {
    assert_eq!(settle_backend(BackendKind::KWin, true), BackendKind::KWin);
    assert_eq!(settle_backend(BackendKind::KWin, false), BackendKind::X11);
    assert_eq!(settle_backend(BackendKind::X11, true), BackendKind::X11);
}

#[test]
fn failing_override_returns_baseline_result() {
    let (mut plan, first) = FocusPlan::start::<String>(PlatformWindowId::X11(2));
    assert!(matches!(first, FocusAction::ListWindows));
    let ev = FocusEvent::<String>::Listed(Ok(vec![info(1, "One"), info(2, "Two"), info(2, "Dup")]));
    assert!(plan.accepts(&ev));
    match plan.step(ev) {
        FocusAction::Override(t) => assert_eq!(t, "Two"),
        _ => panic!("expected override"),
    }
    assert_eq!(plan.stage(), FocusStage::Overriding);
    let ev = FocusEvent::<String>::Overridden(Err("no compositor".to_string()));
    assert!(plan.accepts(&ev));
    match plan.step(ev) {
        FocusAction::Baseline(id) => assert_eq!(id, PlatformWindowId::X11(2)),
        _ => panic!("expected fallback"),
    }
    let ev = FocusEvent::<String>::BaselineFocused(Err("window gone".to_string()));
    assert!(!plan.accepts(&FocusEvent::<String>::Overridden(Ok(()))));
    match plan.step(ev) {
        FocusAction::Finish(r) => assert_eq!(r, Err("window gone".to_string())),
        _ => panic!("expected finish"),
    }
    assert_eq!(plan.stage(), FocusStage::Done);
}

#[test]
fn failing_override_with_successful_baseline_succeeds() {
    let (mut plan, _) = FocusPlan::start::<String>(PlatformWindowId::X11(1));
    plan.step(FocusEvent::<String>::Listed(Ok(vec![info(1, "One")])));
    plan.step(FocusEvent::<String>::Overridden(Err("timeout".to_string())));
    match plan.step(FocusEvent::<String>::BaselineFocused(Ok(()))) {
        FocusAction::Finish(r) => assert_eq!(r, Ok(())),
        _ => panic!("expected finish"),
    }
}

#[test]
fn successful_override_finishes_without_baseline() {
    let (mut plan, _) = FocusPlan::start::<String>(PlatformWindowId::X11(1));
    plan.step(FocusEvent::<String>::Listed(Ok(vec![info(1, "One")])));
    match plan.step(FocusEvent::<String>::Overridden(Ok(()))) {
        FocusAction::Finish(r) => assert_eq!(r, Ok(())),
        _ => panic!("expected finish"),
    }
    assert_eq!(plan.stage(), FocusStage::Done);
}

#[test]
fn target_missing_from_enumeration_goes_to_baseline() {
    let (mut plan, _) = FocusPlan::start::<String>(PlatformWindowId::Wayland("7".to_string()));
    match plan.step(FocusEvent::<String>::Listed(Ok(vec![info(1, "One")]))) {
        FocusAction::Baseline(id) => assert_eq!(id, PlatformWindowId::Wayland("7".to_string())),
        _ => panic!("expected fallback"),
    }
    assert_eq!(plan.stage(), FocusStage::FallingBack);
    let ev = FocusEvent::<String>::BaselineFocused(Err("identifier not of this backend".to_string()));
    match plan.step(ev) {
        FocusAction::Finish(r) => assert_eq!(r, Err("identifier not of this backend".to_string())),
        _ => panic!("expected finish"),
    }
}

#[test]
fn failed_enumeration_goes_to_baseline() {
    let (mut plan, _) = FocusPlan::start::<String>(PlatformWindowId::X11(9));
    match plan.step(FocusEvent::<String>::Listed(Err("no display".to_string()))) {
        FocusAction::Baseline(id) => assert_eq!(id, PlatformWindowId::X11(9)),
        _ => panic!("expected fallback"),
    }
    match plan.step(FocusEvent::<String>::BaselineFocused(Ok(()))) {
        FocusAction::Finish(r) => assert_eq!(r, Ok(())),
        _ => panic!("expected finish"),
    }
}
