use marionette::screenshot::{
    crop_origin, find_window_index, png_from_rgba, screenshot_reply, ScreenshotError,
    ScreenshotReply,
};

#[test]
fn wrong_buffer_length_is_rejected() {
    assert!(matches!(png_from_rgba(&[0, 0, 0], 1, 1), Err(ScreenshotError::BufferSize)));
    assert!(matches!(png_from_rgba(&[0; 8], 1, 1), Err(ScreenshotError::BufferSize)));
}

#[test]
fn encoder_error_is_reported() {
    assert!(matches!(png_from_rgba(&[], 0, 0), Err(ScreenshotError::Encode(_))));
}

#[test]
fn rgba_pixels_encode_as_png() {
    let png = png_from_rgba(&[255, 0, 0, 255, 0, 255, 0, 255], 2, 1).unwrap();
    assert_eq!(&png[..8], &[0x89, b'P', b'N', b'G', 0x0d, 0x0a, 0x1a, 0x0a]);
    assert!(png.len() > 8);
}

#[test]
fn reply_is_file_or_base64() {
    match screenshot_reply("file", vec![1, 2, 3]) {
        ScreenshotReply::File(b) => assert_eq!(b, vec![1, 2, 3]),
        ScreenshotReply::Inline(_) => panic!("expected file"),
    }
    match screenshot_reply("base64", vec![1, 2, 3]) {
        ScreenshotReply::Inline(s) => assert_eq!(s, "AQID"),
        ScreenshotReply::File(_) => panic!("expected inline"),
    }
    match screenshot_reply("other", b"hi".to_vec()) {
        ScreenshotReply::Inline(s) => assert_eq!(s, "aGk="),
        ScreenshotReply::File(_) => panic!("expected inline"),
    }
}

#[test]
fn capture_lookup_takes_first_match() {
    let ids = vec![None, Some(4), Some(9), Some(4)];
    assert_eq!(find_window_index(&ids, 4), Some(1));
    assert_eq!(find_window_index(&ids, 9), Some(2));
    assert_eq!(find_window_index(&ids, 5), None);
}

#[test]
fn crop_origin_clamps_negative() {
    assert_eq!(crop_origin(-10, 20), (0, 20));
    assert_eq!(crop_origin(5, -1), (5, 0));
}
