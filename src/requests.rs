//! Computations behind the caller-facing requests: filtering the listing and
//! placing window-relative points on the screen.

use vstd::prelude::*;

use crate::text::{has_substring, lower_of, str_contains, to_lower};
use crate::window::{Geometry, WindowHandle, WindowHandleView};

verus! {

/// The characters of an optional filter.
pub open spec fn filter_view(f: Option<&str>) -> Option<Seq<char>> {
    match f {
        Some(s) => Some(s@),
        None => None,
    }
}

/// An absent filter matches everything; a present one matches when, both
/// lower-cased, it occurs in the field.
pub open spec fn field_matches(field: Seq<char>, filter: Option<Seq<char>>) -> bool {
    match filter {
        Some(f) => has_substring(lower_of(field), lower_of(f)),
        None => true,
    }
}

/// The window passes both the title filter and the class filter.
pub open spec fn window_selected(
    w: WindowHandleView,
    title_filter: Option<Seq<char>>,
    class_filter: Option<Seq<char>>,
) -> bool {
    field_matches(w.title, title_filter) && field_matches(w.class, class_filter)
}

/// Whether an already lower-cased field passes an already lower-cased filter.
pub fn field_matches_folded(field_lower: &str, filter_lower: Option<&str>) -> (r: bool)
    ensures
        r == match filter_view(filter_lower) {
            Some(f) => has_substring(field_lower@, f),
            None => true,
        },
{
    match filter_lower {
        Some(f) => str_contains(field_lower, f),
        None => true,
    }
}

fn field_passes(field: &str, filter: Option<&str>) -> (r: bool)
    ensures
        r == field_matches(field@, filter_view(filter)),
{
    match filter {
        Some(f) => {
            let field_lower = to_lower(field);
            let filter_lower = to_lower(f);
            field_matches_folded(field_lower.as_str(), Some(filter_lower.as_str()))
        },
        None => true,
    }
}

/// Whether a window passes the title and class filters, compared without
/// regard to case.
pub fn window_matches(w: &WindowHandle, title_filter: Option<&str>, class_filter: Option<&str>) -> (r: bool)
    ensures
        r == window_selected(w@, filter_view(title_filter), filter_view(class_filter)),
{
    field_passes(w.title.as_str(), title_filter) && field_passes(w.class.as_str(), class_filter)
}

/// The windows of a listing that pass the filters, in the listing's order.
pub fn filter_windows<'a>(
    windows: &Vec<&'a WindowHandle>,
    title_filter: Option<&str>,
    class_filter: Option<&str>,
) -> (r: Vec<&'a WindowHandle>)
    ensures
        r@ == windows@.filter(
            |w: &WindowHandle| window_selected(w@, filter_view(title_filter), filter_view(class_filter)),
        ),
{
    let ghost pred = |w: &WindowHandle|
        window_selected(w@, filter_view(title_filter), filter_view(class_filter));
    let mut out: Vec<&'a WindowHandle> = Vec::new();
    let mut i: usize = 0;
    while i < windows.len()
        invariant
            i <= windows@.len(),
            pred == (|w: &WindowHandle|
                window_selected(w@, filter_view(title_filter), filter_view(class_filter))),
            out@ == windows@.take(i as int).filter(pred),
        decreases windows@.len() - i,
    {
        let w = windows[i];
        let keep = window_matches(w, title_filter, class_filter);
        proof {
            reveal(Seq::filter);
            assert(windows@.take(i + 1).drop_last() =~= windows@.take(i as int));
            assert(windows@.take(i + 1).last() == w);
        }
        if keep {
            out.push(w);
        }
        i += 1;
    }
    assert(windows@.take(windows@.len() as int) =~= windows@);
    out
}

/// The screen point of a point given relative to a window's origin, or `None`
/// when it lies outside the coordinate range.
pub fn screen_point(geometry: Geometry, x: i32, y: i32) -> (r: Option<(i32, i32)>)
    ensures
        r == (if i32::MIN <= geometry.x + x <= i32::MAX && i32::MIN <= geometry.y + y <= i32::MAX {
            Some(((geometry.x + x) as i32, (geometry.y + y) as i32))
        } else {
            None
        }),
{
    let sx = geometry.x.checked_add(x);
    let sy = geometry.y.checked_add(y);
    match (sx, sy) {
        (Some(a), Some(b)) => Some((a, b)),
        _ => None,
    }
}

} // verus!
