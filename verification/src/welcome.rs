//! The connection check of a terminal and the printing of a single text.

use vstd::prelude::*;
use crate::command::{encode, Command};
use crate::encoding::MAX_TEXT_CHARS;
use crate::format::{paper_width_of, parse_paper_width};
use crate::printer::{
    batch_views, feed_commands, init_commands, row_line, rule_line, styled_line, JpPrinter,
};
use crate::receipt::{bold_style, center_style, fits, text_fits};
use crate::style::{Align, PaperWidth, TextStyle};

verus! {

/// Bold, underlined, centred.
pub open spec fn banner_style() -> TextStyle {
    TextStyle { bold: true, underline: true, align: Align::Center, ..TextStyle::plain() }
}

/// The head of the connection check: banner, name of the terminal
/// software, and the terminal's identifier between two rules.
#[verifier::opaque]
pub open spec fn welcome_head_commands(id: Seq<char>, w: PaperWidth) -> Seq<Command> {
    let columns = w.spec_chars() as nat;
    styled_line("WELCOME TO mizPOS"@, banner_style()) + styled_line(""@, TextStyle::plain())
        + styled_line("mizPOS デスクトップターミナル"@, center_style()) + styled_line(
        "接続テスト完了"@,
        center_style(),
    ) + styled_line(""@, TextStyle::plain()) + rule_line('-', columns) + row_line(
        "ターミナルID:"@,
        id,
        columns,
    ) + rule_line('-', columns)
}

/// The sample of Japanese print: hiragana, katakana and kanji.
#[verifier::opaque]
pub open spec fn welcome_sample_commands() -> Seq<Command> {
    styled_line(""@, TextStyle::plain()) + styled_line("日本語印刷テスト"@, bold_style())
        + styled_line("ひらがな: あいうえお"@, TextStyle::plain()) + styled_line(
        "カタカナ: アイウエオ"@,
        TextStyle::plain(),
    ) + styled_line("漢字: 東京都渋谷区"@, TextStyle::plain()) + styled_line(
        ""@,
        TextStyle::plain(),
    )
}

/// All commands of the connection check: set-up, head, sample, three
/// line feeds and a full cut.
pub open spec fn welcome_commands(id: Seq<char>, w: PaperWidth) -> Seq<Command> {
    init_commands(w) + welcome_head_commands(id, w) + welcome_sample_commands() + feed_commands(
        3,
    ) + seq![Command::FullCut]
}

/// All commands of a single text: set-up, the text as a plain line, three
/// line feeds and a full cut.
pub open spec fn text_print_commands(text: Seq<char>, w: PaperWidth) -> Seq<Command> {
    init_commands(w) + styled_line(text, TextStyle::plain()) + feed_commands(3) + seq![
        Command::FullCut,
    ]
}

/// Prints the head of the connection check.
fn print_welcome_head(printer: &mut JpPrinter, id: &str)
    requires
        old(printer).wf(),
        fits(id@),
    ensures
        final(printer).wf(),
        final(printer).width() == old(printer).width(),
        final(printer).commands() == old(printer).commands() + welcome_head_commands(
            id@,
            old(printer).width(),
        ),
{
    proof {
        reveal_strlit("WELCOME TO mizPOS");
        reveal_strlit("");
        reveal_strlit("mizPOS デスクトップターミナル");
        reveal_strlit("接続テスト完了");
        reveal_strlit("ターミナルID:");
    }
    printer.jp_textln("WELCOME TO mizPOS", TextStyle::default().bold().underline().center());
    printer.textln("");
    printer.jp_textln("mizPOS デスクトップターミナル", TextStyle::default().center());
    printer.jp_textln("接続テスト完了", TextStyle::default().center());
    printer.textln("");
    printer.separator();
    printer.row_auto("ターミナルID:", id);
    printer.separator();
    proof {
        reveal(welcome_head_commands);
    }
    assert(printer.commands() =~= old(printer).commands() + welcome_head_commands(
        id@,
        old(printer).width(),
    ));
}

/// Prints the sample of Japanese print.
fn print_welcome_sample(printer: &mut JpPrinter)
    requires
        old(printer).wf(),
    ensures
        final(printer).wf(),
        final(printer).width() == old(printer).width(),
        final(printer).commands() == old(printer).commands() + welcome_sample_commands(),
{
    proof {
        reveal_strlit("");
        reveal_strlit("日本語印刷テスト");
        reveal_strlit("ひらがな: あいうえお");
        reveal_strlit("カタカナ: アイウエオ");
        reveal_strlit("漢字: 東京都渋谷区");
    }
    printer.textln("");
    printer.jp_textln("日本語印刷テスト", TextStyle::default().bold());
    printer.textln("ひらがな: あいうえお");
    printer.textln("カタカナ: アイウエオ");
    printer.textln("漢字: 東京都渋谷区");
    printer.textln("");
    proof {
        reveal(welcome_sample_commands);
    }
    assert(printer.commands() =~= old(printer).commands() + welcome_sample_commands());
}

/// The batches of the connection check of the terminal `id`, in the order
/// in which they are to be written to the printer.
pub fn welcome_print(id: &str, paper_width: Option<u8>) -> (out: Vec<Vec<u8>>)
    requires
        fits(id@),
    ensures
        batch_views(out@) == encode(welcome_commands(id@, paper_width_of(paper_width))),
{
    let width = parse_paper_width(paper_width);
    let mut printer = JpPrinter::with_paper_width(width);
    printer.init();
    print_welcome_head(&mut printer, id);
    print_welcome_sample(&mut printer);
    printer.feed(3);
    printer.cut();
    assert(printer.commands() =~= welcome_commands(id@, width));
    printer.into_output()
}

/// The batches that print a single text, in the order in which they are
/// to be written to the printer.
pub fn text_print(text: &str, paper_width: Option<u8>) -> (out: Vec<Vec<u8>>)
    requires
        text@.len() <= MAX_TEXT_CHARS,
    ensures
        batch_views(out@) == encode(text_print_commands(text@, paper_width_of(paper_width))),
{
    let width = parse_paper_width(paper_width);
    let mut printer = JpPrinter::with_paper_width(width);
    printer.init();
    printer.textln(text);
    printer.feed(3);
    printer.cut();
    assert(printer.commands() =~= text_print_commands(text@, width));
    printer.into_output()
}

/// The batches of the connection check, or nothing for an identifier too
/// long to print.
pub fn try_welcome_print(id: &str, paper_width: Option<u8>) -> (out: Option<Vec<Vec<u8>>>)
    ensures
        match out {
            Some(batches) => fits(id@) && batch_views(batches@) == encode(
                welcome_commands(id@, paper_width_of(paper_width)),
            ),
            None => !fits(id@),
        },
{
    if text_fits(id) {
        Some(welcome_print(id, paper_width))
    } else {
        None
    }
}

/// The batches that print a single text, or nothing for a text too long
/// to encode.
pub fn try_text_print(text: &str, paper_width: Option<u8>) -> (out: Option<Vec<Vec<u8>>>)
    ensures
        match out {
            Some(batches) => text@.len() <= MAX_TEXT_CHARS && batch_views(batches@) == encode(
                text_print_commands(text@, paper_width_of(paper_width)),
            ),
            None => text@.len() > MAX_TEXT_CHARS,
        },
{
    if text.unicode_len() <= MAX_TEXT_CHARS {
        Some(text_print(text, paper_width))
    } else {
        None
    }
}

} // verus!
