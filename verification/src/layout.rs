//! Layout of one line on the fixed character grid: label and value
//! justified to the line width, and text padded to fill the line.

use vstd::prelude::*;
use crate::style::{Align, PaperWidth, TextStyle};
use crate::text::{lemma_repeated_width, push_repeated, repeated};
use crate::width::{display_width, lemma_display_width_concat, print_width};

verus! {

/// Cells left on a line of `width` cells once `used` are taken: never negative.
pub open spec fn fill(width: nat, used: nat) -> nat {
    if width >= used {
        (width - used) as nat
    } else {
        0
    }
}

/// A row: the label, then spaces up to the line width, then the value.
pub open spec fn row_layout(left: Seq<char>, right: Seq<char>, width: nat) -> Seq<char> {
    left + repeated(' ', fill(width, display_width(left) + display_width(right))) + right
}

/// A text padded with spaces to the line width: on both sides for centre
/// (the odd space goes to the right), on the left for right alignment, on
/// the right for left alignment.
pub open spec fn padded_layout(txt: Seq<char>, align: Align, line_width: nat) -> Seq<char> {
    let padding = fill(line_width, display_width(txt));
    match align {
        Align::Center => repeated(' ', padding / 2) + txt + repeated(
            ' ',
            (padding - padding / 2) as nat,
        ),
        Align::Right => repeated(' ', padding) + txt,
        Align::Left => txt + repeated(' ', padding),
    }
}

/// Columns of a padded block: the wide-character count of the paper where
/// the style doubles the width of the glyphs, else the narrow one.
pub open spec fn padded_columns(style: TextStyle, paper: PaperWidth) -> nat {
    if style.double_width {
        paper.spec_chars_jp() as nat
    } else {
        paper.spec_chars() as nat
    }
}

/// A row fills the line exactly where label and value fit, and is as wide
/// as the two together where they do not.
pub proof fn lemma_row_layout_width(left: Seq<char>, right: Seq<char>, width: nat)
    ensures
        display_width(row_layout(left, right, width)) == if display_width(left) + display_width(
            right,
        ) <= width {
            width
        } else {
            display_width(left) + display_width(right)
        },
{
    let spaces = repeated(' ', fill(width, display_width(left) + display_width(right)));
    lemma_repeated_width(' ', fill(width, display_width(left) + display_width(right)));
    lemma_display_width_concat(left, spaces);
    lemma_display_width_concat(left + spaces, right);
}

/// A padded text fills the line exactly where the text fits, and is the
/// text's own width where it does not.
pub proof fn lemma_padded_layout_width(txt: Seq<char>, align: Align, line_width: nat)
    ensures
        display_width(padded_layout(txt, align, line_width)) == if display_width(txt)
            <= line_width {
            line_width
        } else {
            display_width(txt)
        },
{
    let padding = fill(line_width, display_width(txt));
    let half = padding / 2;
    let rest = (padding - half) as nat;
    lemma_repeated_width(' ', padding);
    lemma_repeated_width(' ', half);
    lemma_repeated_width(' ', rest);
    lemma_display_width_concat(repeated(' ', half), txt);
    lemma_display_width_concat(repeated(' ', half) + txt, repeated(' ', rest));
    lemma_display_width_concat(repeated(' ', padding), txt);
    lemma_display_width_concat(txt, repeated(' ', padding));
}

/// Builds a row of `width` cells from a label and a value.
pub fn row_text(left: &str, right: &str, width: usize) -> (row: String)
    ensures
        row@ == row_layout(left@, right@, width as nat),
{
    let left_len = print_width(left);
    let right_len = print_width(right);
    let space_len = width.saturating_sub(left_len).saturating_sub(right_len);
    let mut row = String::new();
    row.append(left);
    push_repeated(&mut row, ' ', space_len);
    row.append(right);
    assert(row@ =~= row_layout(left@, right@, width as nat));
    row
}

/// Pads a text with spaces to `line_width` cells.
pub fn padded_text(txt: &str, align: Align, line_width: usize) -> (padded: String)
    ensures
        padded@ == padded_layout(txt@, align, line_width as nat),
{
    let padding = line_width.saturating_sub(print_width(txt));
    let mut padded = String::new();
    match align {
        Align::Center => {
            let left_pad = padding / 2;
            let right_pad = padding - left_pad;
            push_repeated(&mut padded, ' ', left_pad);
            padded.append(txt);
            push_repeated(&mut padded, ' ', right_pad);
        },
        Align::Right => {
            push_repeated(&mut padded, ' ', padding);
            padded.append(txt);
        },
        Align::Left => {
            padded.append(txt);
            push_repeated(&mut padded, ' ', padding);
        },
    }
    assert(padded@ =~= padded_layout(txt@, align, line_width as nat));
    padded
}

} // verus!
