use marionette::window::{Geometry, PlatformWindowId};
use marionette::x11::{
    active_window_from, geometry_from, property_words, window_class_from, window_title_from,
    window_visible, x11_window_of,
};

#[test]
fn words_in_either_byte_order_ignore_trailing_bytes() {
    let data = [0x01, 0x00, 0x00, 0x00, 0x00, 0x00, 0x40, 0x02, 0xff];
    assert_eq!(property_words(&data, true), vec![1, 0x0240_0000]);
    assert_eq!(property_words(&data, false), vec![0x0100_0000, 0x0000_4002]);
    assert!(property_words(&[1, 2, 3], true).is_empty());
}

#[test]
fn active_window_needs_a_nonzero_word() {
    assert_eq!(active_window_from(&[0x2a, 0, 0, 0], true), Some(42));
    assert_eq!(active_window_from(&[0, 0, 0, 0, 5], true), None);
    assert_eq!(active_window_from(&[0x2a, 0, 0], true), None);
    assert_eq!(active_window_from(&[], true), None);
}

#[test]
fn wm_class_prefers_class_field() {
    assert_eq!(window_class_from(b"xterm\0XTerm\0"), "XTerm");
    assert_eq!(window_class_from(b"navigator\0Firefox"), "Firefox");
    assert_eq!(window_class_from(b"solo"), "solo");
    assert_eq!(window_class_from(b"inst\0\xff\xfe\0"), "inst");
    assert_eq!(window_class_from(b"\xff\0\xfe"), "");
    assert_eq!(window_class_from(b""), "");
}

#[test]
fn title_falls_back_to_wm_name() {
    assert_eq!(window_title_from("Éditeur".as_bytes(), b"Editor"), "Éditeur");
    assert_eq!(window_title_from(b"", b"Editor"), "Editor");
    assert_eq!(window_title_from(b"\xc3", b"Editor"), "Editor");
    assert_eq!(window_title_from(b"\xc3", b"\xff"), "");
}

#[test]
fn hidden_state_overrides_map_state() {
    let hidden: u32 = 0x155;
    let state = [0x10, 0, 0, 0, 0x55, 0x01, 0, 0];
    assert!(!window_visible(&state, hidden, Some(true), true));
    assert!(window_visible(&state[..4], hidden, Some(true), true));
    assert!(!window_visible(&[], hidden, Some(false), true));
    assert!(window_visible(&[], hidden, None, true));
}

#[test]
fn geometry_and_namespace() {
    assert_eq!(
        geometry_from(-3, 4, 640, 480),
        Geometry { x: -3, y: 4, width: 640, height: 480 }
    );
    assert_eq!(x11_window_of(&PlatformWindowId::X11(77)), Some(77));
    assert_eq!(x11_window_of(&PlatformWindowId::Wayland("77".to_string())), None);
}
