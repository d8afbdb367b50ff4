//! Decoding of the X11 window properties that the baseline backend reads.
//!
//! A property arrives as bytes; an empty slice stands for a property that is
//! missing or could not be read. Format-32 values are 4-byte words in the
//! host's byte order, which the caller states.

use vstd::prelude::*;

use crate::text::decode_utf8;
use crate::window::{Geometry, PlatformKey, PlatformWindowId};

verus! {

/// The 32-bit word made of four bytes in the given order.
pub open spec fn word_of(b0: u8, b1: u8, b2: u8, b3: u8, little_endian: bool) -> u32 {
    if little_endian {
        (b0 + b1 * 0x100 + b2 * 0x1_0000 + b3 * 0x100_0000) as u32
    } else {
        (b3 + b2 * 0x100 + b1 * 0x1_0000 + b0 * 0x100_0000) as u32
    }
}

/// The `i`-th whole 4-byte word of `data`.
pub open spec fn word_at(data: Seq<u8>, i: int, little_endian: bool) -> u32 {
    word_of(data[4 * i], data[4 * i + 1], data[4 * i + 2], data[4 * i + 3], little_endian)
}

/// The whole 4-byte words of `data`; trailing bytes that make no word are ignored.
pub open spec fn words_of(data: Seq<u8>, little_endian: bool) -> Seq<u32> {
    Seq::new(data.len() / 4, |i: int| word_at(data, i, little_endian))
}

/// Position of the first zero byte at or after `from`, or the length.
pub open spec fn zero_pos(data: Seq<u8>, from: int) -> int
    decreases data.len() - from,
{
    if from >= data.len() {
        data.len() as int
    } else if data[from] == 0 {
        from
    } else {
        zero_pos(data, from + 1)
    }
}

/// Decoded UTF-8, if the bytes are valid.
pub open spec fn utf8_text(bytes: Seq<u8>) -> Option<Seq<char>> {
    if vstd::utf8::valid_utf8(bytes) {
        Some(vstd::utf8::decode_utf8(bytes))
    } else {
        None
    }
}

/// The class name of a `WM_CLASS` value (instance and class, each ended by a
/// zero byte): the second field if there is one and it is valid UTF-8, else
/// the first field if it is valid UTF-8, else empty.
pub open spec fn wm_class_name(data: Seq<u8>) -> Seq<char> {
    let z = zero_pos(data, 0);
    let first = data.subrange(0, z);
    let second = data.subrange(z + 1, zero_pos(data, z + 1));
    if data.len() == 0 {
        Seq::empty()
    } else if z < data.len() && utf8_text(second) is Some {
        utf8_text(second)->0
    } else if utf8_text(first) is Some {
        utf8_text(first)->0
    } else {
        Seq::empty()
    }
}

/// A window's title from its `_NET_WM_NAME` and `WM_NAME` values: the first
/// present one that is valid UTF-8, else empty.
pub open spec fn title_from(net_wm_name: Seq<u8>, wm_name: Seq<u8>) -> Seq<char> {
    if net_wm_name.len() > 0 && utf8_text(net_wm_name) is Some {
        utf8_text(net_wm_name)->0
    } else if wm_name.len() > 0 && utf8_text(wm_name) is Some {
        utf8_text(wm_name)->0
    } else {
        Seq::empty()
    }
}

fn word_from(b0: u8, b1: u8, b2: u8, b3: u8, little_endian: bool) -> (r: u32)
    ensures
        r == word_of(b0, b1, b2, b3, little_endian),
{
    if little_endian {
        b0 as u32 + b1 as u32 * 0x100 + b2 as u32 * 0x1_0000 + b3 as u32 * 0x100_0000
    } else {
        b3 as u32 + b2 as u32 * 0x100 + b1 as u32 * 0x1_0000 + b0 as u32 * 0x100_0000
    }
}

/// The words of a format-32 property, such as the window list of
/// `_NET_CLIENT_LIST`.
pub fn property_words(data: &[u8], little_endian: bool) -> (r: Vec<u32>)
    ensures
        r@ == words_of(data@, little_endian),
{
    let len = data.len();
    let n = len / 4;
    let mut out: Vec<u32> = Vec::new();
    let mut i: usize = 0;
    while i < n
        invariant
            len == data@.len(),
            n == data@.len() / 4,
            i <= n,
            out@.len() == i,
            forall|j: int| 0 <= j < i ==> #[trigger] out@[j] == word_at(data@, j, little_endian),
        decreases n - i,
    {
        proof {
            vstd::arithmetic::div_mod::lemma_fundamental_div_mod(data@.len() as int, 4);
            assert(4 * (i as int) + 4 <= data@.len());
        }
        let at = 4 * i;
        let w = word_from(data[at], data[at + 1], data[at + 2], data[at + 3], little_endian);
        out.push(w);
        i += 1;
    }
    assert(out@ =~= words_of(data@, little_endian));
    out
}

/// The active window named by `_NET_ACTIVE_WINDOW`: its first word, unless
/// there is none or it is zero.
pub fn active_window_from(data: &[u8], little_endian: bool) -> (r: Option<u32>)
    ensures
        r == (if data@.len() >= 4 && word_at(data@, 0, little_endian) != 0 {
            Some(word_at(data@, 0, little_endian))
        } else {
            None
        }),
{
    if data.len() >= 4 {
        let w = word_from(data[0], data[1], data[2], data[3], little_endian);
        if w != 0 {
            return Some(w);
        }
    }
    None
}

/// Whether a window counts as visible: not if its `_NET_WM_STATE` lists the
/// hidden atom; otherwise as its map state says, and visible when that could
/// not be read.
pub fn window_visible(state: &[u8], hidden_atom: u32, viewable: Option<bool>, little_endian: bool) -> (r: bool)
    ensures
        r == (if words_of(state@, little_endian).contains(hidden_atom) {
            false
        } else {
            match viewable {
                Some(v) => v,
                None => true,
            }
        }),
{
    let words = property_words(state, little_endian);
    let mut i: usize = 0;
    while i < words.len()
        invariant
            i <= words@.len(),
            words@ == words_of(state@, little_endian),
            forall|j: int| 0 <= j < i ==> words@[j] != hidden_atom,
        decreases words@.len() - i,
    {
        if words[i] == hidden_atom {
            return false;
        }
        i += 1;
    }
    match viewable {
        Some(v) => v,
        None => true,
    }
}

proof fn lemma_zero_pos_bounds(data: Seq<u8>, from: int)
    requires
        0 <= from,
    ensures
        from <= zero_pos(data, from) || from > data.len(),
        zero_pos(data, from) <= data.len(),
        zero_pos(data, from) < data.len() ==> data[zero_pos(data, from)] == 0,
    decreases data.len() - from,
{
    if from < data.len() && data[from] != 0 {
        lemma_zero_pos_bounds(data, from + 1);
    }
}

fn find_zero(data: &[u8], from: usize) -> (r: usize)
    requires
        from <= data@.len(),
    ensures
        r == zero_pos(data@, from as int),
        from <= r <= data@.len(),
{
    let mut i = from;
    while i < data.len()
        invariant
            from <= i <= data@.len(),
            zero_pos(data@, from as int) == zero_pos(data@, i as int),
        decreases data@.len() - i,
    {
        if data[i] == 0 {
            return i;
        }
        i += 1;
    }
    i
}

/// The class name of a window from its `WM_CLASS` value.
pub fn window_class_from(data: &[u8]) -> (r: String)
    ensures
        r@ == wm_class_name(data@),
{
    if data.len() == 0 {
        return String::new();
    }
    let z = find_zero(data, 0);
    if z < data.len() {
        let end = find_zero(data, z + 1);
        if let Some(s) = decode_utf8(&data[z + 1..end]) {
            return s;
        }
    }
    match decode_utf8(&data[0..z]) {
        Some(s) => s,
        None => String::new(),
    }
}

/// The title of a window from its `_NET_WM_NAME` and `WM_NAME` values.
pub fn window_title_from(net_wm_name: &[u8], wm_name: &[u8]) -> (r: String)
    ensures
        r@ == title_from(net_wm_name@, wm_name@),
{
    if net_wm_name.len() > 0 {
        if let Some(s) = decode_utf8(net_wm_name) {
            return s;
        }
    }
    if wm_name.len() > 0 {
        if let Some(s) = decode_utf8(wm_name) {
            return s;
        }
    }
    String::new()
}

/// A window's geometry from its translated origin and its extent.
pub fn geometry_from(x: i16, y: i16, width: u16, height: u16) -> (r: Geometry)
    ensures
        r == (Geometry { x: x as i32, y: y as i32, width: width as u32, height: height as u32 }),
{
    Geometry { x: x as i32, y: y as i32, width: width as u32, height: height as u32 }
}

/// The X11 window of an identifier, or `None` for another namespace.
pub fn x11_window_of(id: &PlatformWindowId) -> (r: Option<u32>)
    ensures
        r == (match id@ {
            PlatformKey::X11(n) => Some(n),
            PlatformKey::Wayland(_) => None,
        }),
{
    match id {
        PlatformWindowId::X11(n) => Some(*n),
        PlatformWindowId::Wayland(_) => None,
    }
}

} // verus!
