use marionette::input::{
    button_code, key_code_of_lowered, key_press_args, map_key_to_code, map_modifier_to_code,
    modifier_code_of_lowered,
};

#[test]
fn key_names_map_to_codes_in_any_case() {
    assert_eq!(map_key_to_code("Return"), "28");
    assert_eq!(map_key_to_code("enter"), "28");
    assert_eq!(map_key_to_code("ESC"), "1");
    assert_eq!(map_key_to_code("F11"), "87");
    assert_eq!(map_key_to_code("PageDown"), "109");
    assert_eq!(map_key_to_code("m"), "50");
    assert_eq!(map_key_to_code("0"), "11");
    assert_eq!(map_key_to_code("9"), "10");
}

#[test]
fn unknown_key_passes_through_lowercased() {
    assert_eq!(map_key_to_code("KP_1"), "kp_1");
    assert_eq!(map_key_to_code("125"), "125");
}

#[test]
fn lowered_tables_do_not_fold_case() {
    assert_eq!(key_code_of_lowered("tab"), "15");
    assert_eq!(key_code_of_lowered("Tab"), "Tab");
    assert_eq!(modifier_code_of_lowered("alt"), "56");
    assert_eq!(modifier_code_of_lowered("ALT"), "ALT");
}

#[test]
fn modifier_names_map_to_codes() {
    assert_eq!(map_modifier_to_code("Ctrl"), "29");
    assert_eq!(map_modifier_to_code("control"), "29");
    assert_eq!(map_modifier_to_code("SHIFT"), "42");
    assert_eq!(map_modifier_to_code("Win"), "125");
    assert_eq!(map_modifier_to_code("meta"), "125");
    assert_eq!(map_modifier_to_code("Hyper"), "hyper");
}

#[test]
fn key_press_holds_modifiers_around_key() {
    let mods = vec!["ctrl".to_string(), "Shift".to_string()];
    let args = key_press_args("A", &mods);
    let expected: Vec<String> = ["key", "29:1", "42:1", "30:1", "50", "30:0", "42:0", "29:0"]
        .iter()
        .map(|s| s.to_string())
        .collect();
    assert_eq!(args, expected);
}

#[test]
fn key_press_without_modifiers() {
    let args = key_press_args("Escape", &Vec::new());
    let expected: Vec<String> = ["key", "1:1", "50", "1:0"].iter().map(|s| s.to_string()).collect();
    assert_eq!(args, expected);
}

#[test]
fn buttons_map_to_click_codes() {
    assert_eq!(button_code("left"), "0xC0");
    assert_eq!(button_code("right"), "0xC1");
    assert_eq!(button_code("middle"), "0xC2");
    assert_eq!(button_code("Right"), "0xC0");
}
