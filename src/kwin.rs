//! The compositor script that activates a window by its title.

use vstd::prelude::*;

verus! {

/// The script text before the window title.
pub const SCRIPT_HEAD: &'static str = "\n            (function() {\n                // Try KDE 6 API first, fall back to KDE 5\n                var windows = typeof workspace.windowList === 'function'\n                    ? workspace.windowList()\n                    : workspace.clientList();\n                for (var i = 0; i < windows.length; i++) {\n                    var w = windows[i];\n                    var title = w.caption || w.title || '';\n                    if (title === '";

/// The script text after the window title.
pub const SCRIPT_TAIL: &'static str = "') {\n                        workspace.activeWindow = w;  // KDE 6\n                        workspace.activeClient = w;  // KDE 5 fallback\n                        break;\n                    }\n                }\n            })();\n            ";

/// `s` with every occurrence of `c` replaced by `t`.
pub open spec fn replaced(s: Seq<char>, c: char, t: Seq<char>) -> Seq<char>
    decreases s.len(),
{
    if s.len() == 0 {
        Seq::empty()
    } else {
        replaced(s.drop_last(), c, t) + if s.last() == c {
            t
        } else {
            seq![s.last()]
        }
    }
}

/// The escaped form of one character inside a single-quoted script string.
pub open spec fn escaped_char(c: char) -> Seq<char> {
    if c == '\\' {
        seq!['\\', '\\']
    } else if c == '\'' {
        seq!['\\', '\'']
    } else if c == '"' {
        seq!['\\', '"']
    } else {
        seq![c]
    }
}

/// `s` made safe inside a single-quoted script string: backslashes and both
/// kinds of quote are preceded by a backslash.
pub open spec fn script_escaped(s: Seq<char>) -> Seq<char>
    decreases s.len(),
{
    if s.len() == 0 {
        Seq::empty()
    } else {
        script_escaped(s.drop_last()) + escaped_char(s.last())
    }
}

/// The script that activates the first window whose title is `title`.
pub open spec fn focus_script(title: Seq<char>) -> Seq<char> {
    SCRIPT_HEAD@ + script_escaped(title) + SCRIPT_TAIL@
}

/// Relies on `str::replace` with a `char` pattern: every occurrence of the
/// character is replaced by the string.
#[verifier::external_body]
fn replace_char(s: &str, c: char, t: &str) -> (r: String)
    ensures
        r@ == replaced(s@, c, t@),
{
    s.replace(c, t)
}

proof fn lemma_replaced_concat(a: Seq<char>, b: Seq<char>, c: char, t: Seq<char>)
    ensures
        replaced(a + b, c, t) == replaced(a, c, t) + replaced(b, c, t),
    decreases b.len(),
{
    if b.len() == 0 {
        assert(a + b =~= a);
        assert(replaced(a, c, t) + replaced(b, c, t) =~= replaced(a, c, t));
    } else {
        assert((a + b).drop_last() =~= a + b.drop_last());
        lemma_replaced_concat(a, b.drop_last(), c, t);
        assert(replaced(a + b, c, t) =~= replaced(a, c, t) + replaced(b, c, t));
    }
}

proof fn lemma_replaced_unit(x: char, c: char, t: Seq<char>)
    ensures
        replaced(seq![x], c, t) == if x == c {
            t
        } else {
            seq![x]
        },
{
    assert(seq![x].drop_last() =~= Seq::<char>::empty());
    assert(seq![x].last() == x);
    assert(replaced(Seq::<char>::empty(), c, t) == Seq::<char>::empty());
    assert(replaced(seq![x], c, t) =~= if x == c {
        t
    } else {
        seq![x]
    });
}

proof fn lemma_replaced_pair(x: char, y: char, c: char, t: Seq<char>)
    ensures
        replaced(seq![x, y], c, t) == replaced(seq![x], c, t) + replaced(seq![y], c, t),
{
    assert(seq![x, y] =~= seq![x] + seq![y]);
    lemma_replaced_concat(seq![x], seq![y], c, t);
}

/// The three replacements, backslash first, escape one character as
/// `escaped_char` does.
proof fn lemma_escape_one(x: char)
    ensures
        replaced(replaced(replaced(seq![x], '\\', seq!['\\', '\\']), '\'', seq!['\\', '\'']), '"', seq!['\\', '"'])
            == escaped_char(x),
{
    let bs = seq!['\\', '\\'];
    let sq = seq!['\\', '\''];
    let dq = seq!['\\', '"'];
    lemma_replaced_unit(x, '\\', bs);
    lemma_replaced_unit('\\', '\'', sq);
    lemma_replaced_unit('\\', '"', dq);
    lemma_replaced_unit('\'', '"', dq);
    lemma_replaced_unit('"', '\'', sq);
    lemma_replaced_unit(x, '\'', sq);
    lemma_replaced_unit(x, '"', dq);
    lemma_replaced_pair('\\', '\\', '\'', sq);
    lemma_replaced_pair('\\', '\\', '"', dq);
    lemma_replaced_pair('\\', '\'', '"', dq);
    lemma_replaced_pair('\\', '"', '\'', sq);
    lemma_replaced_pair('\\', '"', '"', dq);
    lemma_replaced_unit('\\', '"', dq);
    assert(seq!['\\', '\\'] =~= seq!['\\'] + seq!['\\']);
    assert(seq!['\\', '\''] =~= seq!['\\'] + seq!['\'']);
    assert(seq!['\\', '"'] =~= seq!['\\'] + seq!['"']);
}

proof fn lemma_escape(s: Seq<char>)
    ensures
        replaced(replaced(replaced(s, '\\', seq!['\\', '\\']), '\'', seq!['\\', '\'']), '"', seq!['\\', '"'])
            == script_escaped(s),
    decreases s.len(),
{
    let bs = seq!['\\', '\\'];
    let sq = seq!['\\', '\''];
    let dq = seq!['\\', '"'];
    if s.len() == 0 {
        assert(replaced(s, '\\', bs) =~= Seq::<char>::empty());
    } else {
        let init = s.drop_last();
        let x = s.last();
        lemma_escape(init);
        assert(s =~= init + seq![x]);
        lemma_replaced_concat(init, seq![x], '\\', bs);
        let a1 = replaced(init, '\\', bs);
        let b1 = replaced(seq![x], '\\', bs);
        lemma_replaced_concat(a1, b1, '\'', sq);
        let a2 = replaced(a1, '\'', sq);
        let b2 = replaced(b1, '\'', sq);
        lemma_replaced_concat(a2, b2, '"', dq);
        lemma_escape_one(x);
    }
}

/// The script that activates the first window titled `title`.
pub fn kwin_focus_script(title: &str) -> (r: String)
    ensures
        r@ == focus_script(title@),
{
    proof {
        reveal_strlit("\\\\");
        reveal_strlit("\\'");
        reveal_strlit("\\\"");
        lemma_escape(title@);
        assert("\\\\"@ =~= seq!['\\', '\\']);
        assert("\\'"@ =~= seq!['\\', '\'']);
        assert("\\\""@ =~= seq!['\\', '"']);
    }
    let step1 = replace_char(title, '\\', "\\\\");
    let step2 = replace_char(step1.as_str(), '\'', "\\'");
    let escaped = replace_char(step2.as_str(), '"', "\\\"");
    let mut script = String::from_str(SCRIPT_HEAD);
    script.append(escaped.as_str());
    script.append(SCRIPT_TAIL);
    assert(escaped@ == script_escaped(title@));
    script
}

} // verus!
