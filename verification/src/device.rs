//! A model of the style state that the printer keeps between writes, and
//! the command sequences of the text operations with their effect on it.

use vstd::prelude::*;
use crate::command::Command;
use crate::style::{Align, TextStyle};

verus! {

/// The style state of the printer as far as the engine's commands set it.
pub struct DeviceStyle {
    pub align: Align,
    pub bold: bool,
    pub underline: bool,
    pub kanji_underline: bool,
    pub reverse: bool,
    pub double_size: bool,
    pub kanji_mode: bool,
    pub kanji_size: u8,
}

impl DeviceStyle {
    /// The state after a reset: aligned left, everything off.
    pub open spec fn baseline() -> DeviceStyle {
        DeviceStyle {
            align: Align::Left,
            bold: false,
            underline: false,
            kanji_underline: false,
            reverse: false,
            double_size: false,
            kanji_mode: false,
            kanji_size: 0,
        }
    }

    /// The state after one command. Text, feeds, cuts, codes and settings
    /// of the print area leave the style as it is.
    pub open spec fn after(self, command: Command) -> DeviceStyle {
        match command {
            Command::Init => DeviceStyle::baseline(),
            Command::Align(a) => DeviceStyle { align: a, ..self },
            Command::Bold(on) => DeviceStyle { bold: on, ..self },
            Command::Underline(on) => DeviceStyle { underline: on, ..self },
            Command::KanjiUnderline(on) => DeviceStyle { kanji_underline: on, ..self },
            Command::Reverse(on) => DeviceStyle { reverse: on, ..self },
            Command::DoubleSize(on) => DeviceStyle { double_size: on, ..self },
            Command::KanjiMode(on) => DeviceStyle { kanji_mode: on, ..self },
            Command::KanjiSize(flags) => DeviceStyle { kanji_size: flags, ..self },
            _ => self,
        }
    }

    /// The state after a sequence of commands.
    pub open spec fn after_all(self, commands: Seq<Command>) -> DeviceStyle
        decreases commands.len(),
    {
        if commands.len() == 0 {
            self
        } else {
            self.after_all(commands.drop_last()).after(commands.last())
        }
    }
}

/// Running two sequences one after the other is running their concatenation.
pub proof fn lemma_after_all_concat(s: DeviceStyle, a: Seq<Command>, b: Seq<Command>)
    ensures
        s.after_all(a + b) == s.after_all(a).after_all(b),
    decreases b.len(),
{
    if b.len() == 0 {
        assert(a + b =~= a);
    } else {
        assert((a + b).drop_last() =~= a + b.drop_last());
        assert((a + b).last() == b.last());
        lemma_after_all_concat(s, a, b.drop_last());
    }
}

/// Running one more command applies it to the state reached so far.
pub proof fn lemma_after_all_push(s: DeviceStyle, a: Seq<Command>, c: Command)
    ensures
        s.after_all(a.push(c)) == s.after_all(a).after(c),
{
    assert(a.push(c).drop_last() =~= a);
}

/// Size flags of the double-byte glyphs for a style: set only where exactly
/// one of double width and double height is asked for.
pub open spec fn kanji_size_flags(style: TextStyle) -> u8 {
    if style.double_width && style.double_height {
        0x00
    } else if style.double_width {
        0x04
    } else if style.double_height {
        0x08
    } else {
        0x00
    }
}

/// True when the style asks for double width and double height together.
pub open spec fn uses_double_size(style: TextStyle) -> bool {
    style.double_width && style.double_height
}

/// The commands that switch a style on: alignment, bold, both underlines
/// and reverse, and double size where width and height are both doubled.
pub open spec fn style_on_commands(style: TextStyle) -> Seq<Command> {
    seq![
        Command::Align(style.align),
        Command::Bold(style.bold),
        Command::Underline(style.underline),
        Command::KanjiUnderline(style.underline),
        Command::Reverse(style.reverse),
    ] + (if uses_double_size(style) {
        seq![Command::DoubleSize(true)]
    } else {
        Seq::<Command>::empty()
    })
}

/// The double-byte window: the mode is entered right before the text and
/// left right after it, and nothing stands between but the pair of
/// commands that set and clear the size flags.
pub open spec fn kanji_window(payload: Seq<u8>, style: TextStyle) -> Seq<Command> {
    seq![Command::KanjiMode(true)] + (if kanji_size_flags(style) != 0 {
        seq![Command::KanjiSize(kanji_size_flags(style))]
    } else {
        Seq::<Command>::empty()
    }) + seq![Command::Text(payload)] + (if kanji_size_flags(style) != 0 {
        seq![Command::KanjiSize(0)]
    } else {
        Seq::<Command>::empty()
    }) + seq![Command::KanjiMode(false)]
}

/// The commands that switch a style off again: double size where it was
/// switched on, then bold, both underlines and reverse, and the alignment
/// back to left.
pub open spec fn style_off_commands(style: TextStyle) -> Seq<Command> {
    (if uses_double_size(style) {
        seq![Command::DoubleSize(false)]
    } else {
        Seq::<Command>::empty()
    }) + seq![
        Command::Bold(false),
        Command::Underline(false),
        Command::KanjiUnderline(false),
        Command::Reverse(false),
        Command::Align(Align::Left),
    ]
}

/// The commands of one styled text: style on, the double-byte window with
/// the encoded text, style off.
#[verifier::opaque]
pub open spec fn text_commands(payload: Seq<u8>, style: TextStyle) -> Seq<Command> {
    style_on_commands(style) + kanji_window(payload, style) + style_off_commands(style)
}

/// The commands of one styled line: the styled text and a line feed.
pub open spec fn textln_commands(payload: Seq<u8>, style: TextStyle) -> Seq<Command> {
    text_commands(payload, style).push(Command::LineFeed)
}

/// The state in which a styled text leaves the printer: alignment left,
/// bold, both underlines, reverse and double-byte mode off; double size off
/// if the text switched it on, the size flags cleared if the text set them.
pub open spec fn restored(s: DeviceStyle, style: TextStyle) -> DeviceStyle {
    DeviceStyle {
        align: Align::Left,
        bold: false,
        underline: false,
        kanji_underline: false,
        reverse: false,
        double_size: if uses_double_size(style) {
            false
        } else {
            s.double_size
        },
        kanji_mode: false,
        kanji_size: if kanji_size_flags(style) != 0 {
            0
        } else {
            s.kanji_size
        },
    }
}

/// Running a command that may be absent applies it where it is there.
proof fn lemma_after_optional(s: DeviceStyle, present: bool, c: Command)
    ensures
        s.after_all(
            if present {
                seq![c]
            } else {
                Seq::<Command>::empty()
            },
        ) == (if present {
            s.after(c)
        } else {
            s
        }),
{
    lemma_after_all_push(s, Seq::<Command>::empty(), c);
    assert(seq![c] =~= Seq::<Command>::empty().push(c));
}

/// Running five commands applies them one after the other.
proof fn lemma_after_five(
    s: DeviceStyle,
    c1: Command,
    c2: Command,
    c3: Command,
    c4: Command,
    c5: Command,
)
    ensures
        s.after_all(seq![c1, c2, c3, c4, c5]) == s.after(c1).after(c2).after(c3).after(c4).after(
            c5,
        ),
{
    let e = Seq::<Command>::empty();
    lemma_after_all_push(s, e, c1);
    lemma_after_all_push(s, e.push(c1), c2);
    lemma_after_all_push(s, e.push(c1).push(c2), c3);
    lemma_after_all_push(s, e.push(c1).push(c2).push(c3), c4);
    lemma_after_all_push(s, e.push(c1).push(c2).push(c3).push(c4), c5);
    assert(seq![c1, c2, c3, c4, c5] =~= e.push(c1).push(c2).push(c3).push(c4).push(c5));
}

/// Every styled text restores the style: whatever the state before it, the
/// state after it is `restored`, and from the baseline that is the baseline
/// again. The same holds of a styled line.
pub proof fn lemma_text_restores_style(s: DeviceStyle, payload: Seq<u8>, style: TextStyle)
    ensures
        s.after_all(text_commands(payload, style)) == restored(s, style),
        s.after_all(textln_commands(payload, style)) == restored(s, style),
        restored(DeviceStyle::baseline(), style) == DeviceStyle::baseline(),
{
    reveal(text_commands);
    let both = uses_double_size(style);
    let flags = kanji_size_flags(style);
    let on1 = seq![
        Command::Align(style.align),
        Command::Bold(style.bold),
        Command::Underline(style.underline),
        Command::KanjiUnderline(style.underline),
        Command::Reverse(style.reverse),
    ];
    let on2 = if both {
        seq![Command::DoubleSize(true)]
    } else {
        Seq::<Command>::empty()
    };
    let on3 = seq![Command::KanjiMode(true)];
    let on4 = if flags != 0 {
        seq![Command::KanjiSize(flags)]
    } else {
        Seq::<Command>::empty()
    };
    let text = seq![Command::Text(payload)];
    let off1 = if flags != 0 {
        seq![Command::KanjiSize(0)]
    } else {
        Seq::<Command>::empty()
    };
    let off2 = seq![Command::KanjiMode(false)];
    let off3 = if both {
        seq![Command::DoubleSize(false)]
    } else {
        Seq::<Command>::empty()
    };
    let off4 = seq![
        Command::Bold(false),
        Command::Underline(false),
        Command::KanjiUnderline(false),
        Command::Reverse(false),
        Command::Align(Align::Left),
    ];
    let s1 = s.after_all(on1);
    lemma_after_five(
        s,
        Command::Align(style.align),
        Command::Bold(style.bold),
        Command::Underline(style.underline),
        Command::KanjiUnderline(style.underline),
        Command::Reverse(style.reverse),
    );
    let s2 = s1.after_all(on2);
    lemma_after_optional(s1, both, Command::DoubleSize(true));
    let s3 = s2.after_all(on3);
    lemma_after_optional(s2, true, Command::KanjiMode(true));
    let s4 = s3.after_all(on4);
    lemma_after_optional(s3, flags != 0, Command::KanjiSize(flags));
    let s5 = s4.after_all(text);
    lemma_after_optional(s4, true, Command::Text(payload));
    let s6 = s5.after_all(off1);
    lemma_after_optional(s5, flags != 0, Command::KanjiSize(0));
    let s7 = s6.after_all(off2);
    lemma_after_optional(s6, true, Command::KanjiMode(false));
    let s8 = s7.after_all(off3);
    lemma_after_optional(s7, both, Command::DoubleSize(false));
    let s9 = s8.after_all(off4);
    lemma_after_five(
        s8,
        Command::Bold(false),
        Command::Underline(false),
        Command::KanjiUnderline(false),
        Command::Reverse(false),
        Command::Align(Align::Left),
    );
    assert(s9 == restored(s, style));
    lemma_after_all_concat(s, on1, on2);
    let on = on1 + on2;
    assert(on == style_on_commands(style));
    lemma_after_all_concat(s2, on3, on4);
    lemma_after_all_concat(s2, on3 + on4, text);
    lemma_after_all_concat(s2, on3 + on4 + text, off1);
    lemma_after_all_concat(s2, on3 + on4 + text + off1, off2);
    let window = on3 + on4 + text + off1 + off2;
    assert(window == kanji_window(payload, style));
    lemma_after_all_concat(s7, off3, off4);
    let off = off3 + off4;
    assert(off == style_off_commands(style));
    lemma_after_all_concat(s, on, window);
    lemma_after_all_concat(s, on + window, off);
    lemma_after_all_push(s, text_commands(payload, style), Command::LineFeed);
}

} // verus!
