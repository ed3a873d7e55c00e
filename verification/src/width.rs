//! Display-width model of the fixed character grid: an ASCII character
//! takes one cell, every other character two.

use vstd::prelude::*;
use vstd::utf8::*;

verus! {

/// Cells that one character occupies.
pub open spec fn char_cells(c: char) -> nat {
    if c <= '\u{7f}' {
        1
    } else {
        2
    }
}

/// Cells that a text occupies: the sum of its characters' cells.
pub open spec fn display_width(s: Seq<char>) -> nat
    decreases s.len(),
{
    if s.len() == 0 {
        0
    } else {
        char_cells(s[0]) + display_width(s.drop_first())
    }
}

/// True when every character of `s` is narrow.
pub open spec fn all_narrow(s: Seq<char>) -> bool {
    forall|i: int| 0 <= i < s.len() ==> #[trigger] s[i] <= '\u{7f}'
}

/// True when every character of `s` is wide.
pub open spec fn all_wide(s: Seq<char>) -> bool {
    forall|i: int| 0 <= i < s.len() ==> #[trigger] s[i] > '\u{7f}'
}

/// The width of a concatenation is the sum of the widths.
pub proof fn lemma_display_width_concat(a: Seq<char>, b: Seq<char>)
    ensures
        display_width(a + b) == display_width(a) + display_width(b),
    decreases a.len(),
{
    if a.len() == 0 {
        assert(a + b =~= b);
    } else {
        assert((a + b).drop_first() =~= a.drop_first() + b);
        lemma_display_width_concat(a.drop_first(), b);
    }
}

/// A text of narrow characters only is as wide as it is long.
pub proof fn lemma_display_width_narrow(s: Seq<char>)
    requires
        all_narrow(s),
    ensures
        display_width(s) == s.len(),
    decreases s.len(),
{
    if s.len() > 0 {
        let t = s.drop_first();
        assert forall|i: int| 0 <= i < t.len() implies #[trigger] t[i] <= '\u{7f}' by {
            assert(t[i] == s[i + 1]);
        }
        lemma_display_width_narrow(t);
    }
}

/// A text of wide characters only is twice as wide as it is long.
pub proof fn lemma_display_width_wide(s: Seq<char>)
    requires
        all_wide(s),
    ensures
        display_width(s) == 2 * s.len(),
    decreases s.len(),
{
    if s.len() > 0 {
        let t = s.drop_first();
        assert forall|i: int| 0 <= i < t.len() implies #[trigger] t[i] > '\u{7f}' by {
            assert(t[i] == s[i + 1]);
        }
        lemma_display_width_wide(t);
    }
}

/// A character is narrow exactly when its code point is at most 0x7F.
pub proof fn lemma_char_code(c: char)
    ensures
        c as u32 <= 0x10ffff,
        (c <= '\u{7f}') == (c as u32 <= 0x7f),
{
}

/// A text never occupies more cells than its UTF-8 encoding has bytes.
pub proof fn lemma_display_width_le_utf8_len(s: Seq<char>)
    ensures
        display_width(s) <= encode_utf8(s).len(),
    decreases s.len(),
{
    if s.len() > 0 {
        let c = s[0];
        lemma_char_code(c);
        assert(char_cells(c) <= encode_scalar(c as u32).len());
        lemma_display_width_le_utf8_len(s.drop_first());
    }
}

/// Cells of one character.
pub fn char_width(c: char) -> (w: usize)
    ensures
        w == char_cells(c),
{
    if c <= '\u{7f}' {
        1
    } else {
        2
    }
}

/// Cells of a text.
pub fn print_width(s: &str) -> (w: usize)
    ensures
        w == display_width(s@),
{
    let ghost total = display_width(s@);
    let byte_len = s.as_bytes().len();
    proof {
        lemma_display_width_le_utf8_len(s@);
        assert(total <= byte_len);
        assert(s@.skip(0) =~= s@);
    }
    let mut w: usize = 0;
    for c in it: s.chars()
        invariant
            it.seq() == s@,
            w + display_width(s@.skip(it.index() as int)) == total,
            total <= usize::MAX,
    {
        proof {
            let rest = s@.skip(it.index() as int);
            assert(rest[0] == c);
            assert(rest.drop_first() =~= s@.skip(it.index() + 1));
        }
        w = w + char_width(c);
    }
    proof {
        assert(s@.skip(s@.len() as int) =~= Seq::<char>::empty());
    }
    w
}

} // verus!
