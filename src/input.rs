//! Input event descriptions: key and button names mapped to the codes of the
//! input injection tool, and the argument list of a key press.

use vstd::prelude::*;

use crate::text::{lower_of, same_text, string_views, to_lower};

verus! {

/// The input event code for a lower-cased key name; a name without an entry
/// is passed through as a raw code.
pub open spec fn key_code(name: Seq<char>) -> Seq<char> {
    if name == "return"@ || name == "enter"@ {
        "28"@
    } else if name == "escape"@ || name == "esc"@ {
        "1"@
    } else if name == "tab"@ {
        "15"@
    } else if name == "backspace"@ {
        "14"@
    } else if name == "space"@ {
        "57"@
    } else if name == "delete"@ {
        "111"@
    } else if name == "insert"@ {
        "110"@
    } else if name == "home"@ {
        "102"@
    } else if name == "end"@ {
        "107"@
    } else if name == "pageup"@ {
        "104"@
    } else if name == "pagedown"@ {
        "109"@
    } else if name == "up"@ {
        "103"@
    } else if name == "down"@ {
        "108"@
    } else if name == "left"@ {
        "105"@
    } else if name == "right"@ {
        "106"@
    } else if name == "f1"@ {
        "59"@
    } else if name == "f2"@ {
        "60"@
    } else if name == "f3"@ {
        "61"@
    } else if name == "f4"@ {
        "62"@
    } else if name == "f5"@ {
        "63"@
    } else if name == "f6"@ {
        "64"@
    } else if name == "f7"@ {
        "65"@
    } else if name == "f8"@ {
        "66"@
    } else if name == "f9"@ {
        "67"@
    } else if name == "f10"@ {
        "68"@
    } else if name == "f11"@ {
        "87"@
    } else if name == "f12"@ {
        "88"@
    } else if name == "a"@ {
        "30"@
    } else if name == "b"@ {
        "48"@
    } else if name == "c"@ {
        "46"@
    } else if name == "d"@ {
        "32"@
    } else if name == "e"@ {
        "18"@
    } else if name == "f"@ {
        "33"@
    } else if name == "g"@ {
        "34"@
    } else if name == "h"@ {
        "35"@
    } else if name == "i"@ {
        "23"@
    } else if name == "j"@ {
        "36"@
    } else if name == "k"@ {
        "37"@
    } else if name == "l"@ {
        "38"@
    } else if name == "m"@ {
        "50"@
    } else if name == "n"@ {
        "49"@
    } else if name == "o"@ {
        "24"@
    } else if name == "p"@ {
        "25"@
    } else if name == "q"@ {
        "16"@
    } else if name == "r"@ {
        "19"@
    } else if name == "s"@ {
        "31"@
    } else if name == "t"@ {
        "20"@
    } else if name == "u"@ {
        "22"@
    } else if name == "v"@ {
        "47"@
    } else if name == "w"@ {
        "17"@
    } else if name == "x"@ {
        "45"@
    } else if name == "y"@ {
        "21"@
    } else if name == "z"@ {
        "44"@
    } else if name == "0"@ {
        "11"@
    } else if name == "1"@ {
        "2"@
    } else if name == "2"@ {
        "3"@
    } else if name == "3"@ {
        "4"@
    } else if name == "4"@ {
        "5"@
    } else if name == "5"@ {
        "6"@
    } else if name == "6"@ {
        "7"@
    } else if name == "7"@ {
        "8"@
    } else if name == "8"@ {
        "9"@
    } else if name == "9"@ {
        "10"@
    } else {
        name
    }
}

/// The input event code for a lower-cased modifier name; a name without an
/// entry is passed through as a raw code.
pub open spec fn modifier_code(name: Seq<char>) -> Seq<char> {
    if name == "ctrl"@ || name == "control"@ {
        "29"@
    } else if name == "alt"@ {
        "56"@
    } else if name == "shift"@ {
        "42"@
    } else if name == "super"@ || name == "meta"@ || name == "win"@ {
        "125"@
    } else {
        name
    }
}

/// The click code for a mouse button name; unknown names click the left button.
pub open spec fn button_code_of(button: Seq<char>) -> Seq<char> {
    if button == "right"@ {
        "0xC1"@
    } else if button == "middle"@ {
        "0xC2"@
    } else {
        "0xC0"@
    }
}

/// The codes of the modifiers, in the order given.
pub open spec fn modifier_codes(mods: Seq<Seq<char>>) -> Seq<Seq<char>> {
    mods.map_values(|m: Seq<char>| modifier_code(lower_of(m)))
}

/// The arguments of one key press: the modifiers go down in order, the key
/// goes down, a pause of 50 ms, the key comes up, and the modifiers come up in
/// reverse order.
pub open spec fn key_press_args_of(key: Seq<char>, mods: Seq<Seq<char>>) -> Seq<Seq<char>> {
    let mc = modifier_codes(mods);
    let kc = key_code(lower_of(key));
    let n = mc.len();
    seq!["key"@] + Seq::new(n, |i: int| mc[i] + ":1"@) + seq![kc + ":1"@, "50"@, kc + ":0"@]
        + Seq::new(n, |i: int| mc[n - 1 - i] + ":0"@)
}

/// The input event code for an already lower-cased key name.
pub fn key_code_of_lowered(name: &str) -> (r: String)
    ensures
        r@ == key_code(name@),
{
    if same_text(name, "return") || same_text(name, "enter") {
        String::from_str("28")
    } else if same_text(name, "escape") || same_text(name, "esc") {
        String::from_str("1")
    } else if same_text(name, "tab") {
        String::from_str("15")
    } else if same_text(name, "backspace") {
        String::from_str("14")
    } else if same_text(name, "space") {
        String::from_str("57")
    } else if same_text(name, "delete") {
        String::from_str("111")
    } else if same_text(name, "insert") {
        String::from_str("110")
    } else if same_text(name, "home") {
        String::from_str("102")
    } else if same_text(name, "end") {
        String::from_str("107")
    } else if same_text(name, "pageup") {
        String::from_str("104")
    } else if same_text(name, "pagedown") {
        String::from_str("109")
    } else if same_text(name, "up") {
        String::from_str("103")
    } else if same_text(name, "down") {
        String::from_str("108")
    } else if same_text(name, "left") {
        String::from_str("105")
    } else if same_text(name, "right") {
        String::from_str("106")
    } else if same_text(name, "f1") {
        String::from_str("59")
    } else if same_text(name, "f2") {
        String::from_str("60")
    } else if same_text(name, "f3") {
        String::from_str("61")
    } else if same_text(name, "f4") {
        String::from_str("62")
    } else if same_text(name, "f5") {
        String::from_str("63")
    } else if same_text(name, "f6") {
        String::from_str("64")
    } else if same_text(name, "f7") {
        String::from_str("65")
    } else if same_text(name, "f8") {
        String::from_str("66")
    } else if same_text(name, "f9") {
        String::from_str("67")
    } else if same_text(name, "f10") {
        String::from_str("68")
    } else if same_text(name, "f11") {
        String::from_str("87")
    } else if same_text(name, "f12") {
        String::from_str("88")
    } else if same_text(name, "a") {
        String::from_str("30")
    } else if same_text(name, "b") {
        String::from_str("48")
    } else if same_text(name, "c") {
        String::from_str("46")
    } else if same_text(name, "d") {
        String::from_str("32")
    } else if same_text(name, "e") {
        String::from_str("18")
    } else if same_text(name, "f") {
        String::from_str("33")
    } else if same_text(name, "g") {
        String::from_str("34")
    } else if same_text(name, "h") {
        String::from_str("35")
    } else if same_text(name, "i") {
        String::from_str("23")
    } else if same_text(name, "j") {
        String::from_str("36")
    } else if same_text(name, "k") {
        String::from_str("37")
    } else if same_text(name, "l") {
        String::from_str("38")
    } else if same_text(name, "m") {
        String::from_str("50")
    } else if same_text(name, "n") {
        String::from_str("49")
    } else if same_text(name, "o") {
        String::from_str("24")
    } else if same_text(name, "p") {
        String::from_str("25")
    } else if same_text(name, "q") {
        String::from_str("16")
    } else if same_text(name, "r") {
        String::from_str("19")
    } else if same_text(name, "s") {
        String::from_str("31")
    } else if same_text(name, "t") {
        String::from_str("20")
    } else if same_text(name, "u") {
        String::from_str("22")
    } else if same_text(name, "v") {
        String::from_str("47")
    } else if same_text(name, "w") {
        String::from_str("17")
    } else if same_text(name, "x") {
        String::from_str("45")
    } else if same_text(name, "y") {
        String::from_str("21")
    } else if same_text(name, "z") {
        String::from_str("44")
    } else if same_text(name, "0") {
        String::from_str("11")
    } else if same_text(name, "1") {
        String::from_str("2")
    } else if same_text(name, "2") {
        String::from_str("3")
    } else if same_text(name, "3") {
        String::from_str("4")
    } else if same_text(name, "4") {
        String::from_str("5")
    } else if same_text(name, "5") {
        String::from_str("6")
    } else if same_text(name, "6") {
        String::from_str("7")
    } else if same_text(name, "7") {
        String::from_str("8")
    } else if same_text(name, "8") {
        String::from_str("9")
    } else if same_text(name, "9") {
        String::from_str("10")
    } else {
        name.to_owned()
    }
}

/// The input event code for an already lower-cased modifier name.
pub fn modifier_code_of_lowered(name: &str) -> (r: String)
    ensures
        r@ == modifier_code(name@),
{
    if same_text(name, "ctrl") || same_text(name, "control") {
        String::from_str("29")
    } else if same_text(name, "alt") {
        String::from_str("56")
    } else if same_text(name, "shift") {
        String::from_str("42")
    } else if same_text(name, "super") || same_text(name, "meta") || same_text(name, "win") {
        String::from_str("125")
    } else {
        name.to_owned()
    }
}

/// The input event code for a key name, in any case.
pub fn map_key_to_code(key: &str) -> (r: String)
    ensures
        r@ == key_code(lower_of(key@)),
{
    key_code_of_lowered(to_lower(key).as_str())
}

/// The input event code for a modifier name, in any case.
pub fn map_modifier_to_code(modifier: &str) -> (r: String)
    ensures
        r@ == modifier_code(lower_of(modifier@)),
{
    modifier_code_of_lowered(to_lower(modifier).as_str())
}

/// The click code for a mouse button name.
pub fn button_code(button: &str) -> (r: &'static str)
    ensures
        r@ == button_code_of(button@),
{
    if same_text(button, "right") {
        "0xC1"
    } else if same_text(button, "middle") {
        "0xC2"
    } else {
        "0xC0"
    }
}

/// The argument list of a key press of `key` with `modifiers` held.
pub fn key_press_args(key: &str, modifiers: &Vec<String>) -> (r: Vec<String>)
    ensures
        string_views(r@) == key_press_args_of(key@, string_views(modifiers@)),
{
    let ghost target = key_press_args_of(key@, string_views(modifiers@));
    let ghost mc = modifier_codes(string_views(modifiers@));
    let n = modifiers.len();
    let mut args: Vec<String> = Vec::new();
    args.push(String::from_str("key"));
    let mut i: usize = 0;
    while i < n
        invariant
            n == modifiers@.len(),
            mc == modifier_codes(string_views(modifiers@)),
            target == key_press_args_of(key@, string_views(modifiers@)),
            i <= n,
            args@.len() == 1 + i,
            forall|j: int| 0 <= j < args@.len() ==> (#[trigger] args@[j])@ == target[j],
        decreases n - i,
    {
        let code = map_modifier_to_code(modifiers[i].as_str());
        args.push(code.concat(":1"));
        assert(target[1 + i] == mc[i as int] + ":1"@);
        i += 1;
    }
    let kc = map_key_to_code(key);
    args.push(kc.clone().concat(":1"));
    args.push(String::from_str("50"));
    args.push(kc.concat(":0"));
    let mut i: usize = 0;
    while i < n
        invariant
            n == modifiers@.len(),
            mc == modifier_codes(string_views(modifiers@)),
            target == key_press_args_of(key@, string_views(modifiers@)),
            i <= n,
            args@.len() == n + 4 + i,
            forall|j: int| 0 <= j < args@.len() ==> (#[trigger] args@[j])@ == target[j],
        decreases n - i,
    {
        let code = map_modifier_to_code(modifiers[n - 1 - i].as_str());
        args.push(code.concat(":0"));
        assert(target[n + 4 + i] == mc[n - 1 - i] + ":0"@);
        i += 1;
    }
    assert(string_views(args@) =~= target);
    args
}

} // verus!
