//! The layout engine: a printer session that turns text operations into
//! the command batches of the wire protocol, in the order in which they are
//! to be written to the device.

use vstd::prelude::*;
use vstd::utf8::encode_utf8;
use crate::command;
use crate::command::{encode, Command, QrErrorLevel};
use crate::device::{
    kanji_size_flags, kanji_window, lemma_after_all_concat, lemma_text_restores_style,
    restored, style_off_commands, style_on_commands, text_commands, textln_commands,
    DeviceStyle,
};
use crate::encoding::{encode_shift_jis, shift_jis_bytes, MAX_TEXT_CHARS};
use crate::layout::{padded_columns, padded_layout, padded_text, row_layout, row_text};
use crate::style::{Align, PaperWidth, TextStyle};
use crate::text::{repeat_char, repeated};

verus! {

/// The byte sequences of a list of batches.
pub open spec fn batch_views(batches: Seq<Vec<u8>>) -> Seq<Seq<u8>> {
    Seq::new(batches.len(), |i: int| batches[i]@)
}

/// Commands that set the printer up for a paper width.
pub open spec fn init_commands(paper: PaperWidth) -> Seq<Command> {
    seq![
        Command::Init,
        Command::SelectJisTable,
        Command::SelectShiftJis,
        Command::PrintAreaWidth(paper.spec_dots() as u16),
    ]
}

/// `lines` line feeds.
pub open spec fn feed_commands(lines: nat) -> Seq<Command> {
    Seq::new(lines, |i: int| Command::LineFeed)
}

/// Commands of one styled text, encoded for the double-byte mode.
pub open spec fn styled_text(text: Seq<char>, style: TextStyle) -> Seq<Command> {
    text_commands(shift_jis_bytes(text), style)
}

/// Commands of one styled line, encoded for the double-byte mode.
pub open spec fn styled_line(text: Seq<char>, style: TextStyle) -> Seq<Command> {
    textln_commands(shift_jis_bytes(text), style)
}

/// Commands of a row in the plain style.
pub open spec fn row_line(left: Seq<char>, right: Seq<char>, width: nat) -> Seq<Command> {
    styled_line(row_layout(left, right, width), TextStyle::plain())
}

/// Commands of a row in bold.
pub open spec fn bold_row_line(left: Seq<char>, right: Seq<char>, width: nat) -> Seq<Command> {
    styled_line(row_layout(left, right, width), TextStyle { bold: true, ..TextStyle::plain() })
}

/// Commands of a rule of `width` copies of `c`.
pub open spec fn rule_line(c: char, width: nat) -> Seq<Command> {
    styled_line(repeated(c, width), TextStyle::plain())
}

/// Commands of a block padded to the line: the padding carries the
/// alignment, so the block itself is sent aligned left.
pub open spec fn padded_line(text: Seq<char>, style: TextStyle, paper: PaperWidth) -> Seq<
    Command,
> {
    styled_line(
        padded_layout(text, style.align, padded_columns(style, paper)),
        TextStyle { align: Align::Left, ..style },
    )
}

/// Module size of a QR symbol: 4 unless given, held within 1 to 16.
pub open spec fn qr_cell_size(size: Option<u8>) -> u8 {
    let n = match size {
        Some(n) => n,
        None => 4u8,
    };
    if n < 1 {
        1
    } else if n > 16 {
        16
    } else {
        n
    }
}

/// Commands of a QR symbol: model, module size, error level M, payload, print.
pub open spec fn qr_commands(payload: Seq<u8>, size: Option<u8>) -> Seq<Command> {
    seq![
        Command::QrModel2,
        Command::QrCellSize(qr_cell_size(size)),
        Command::QrErrorLevel(QrErrorLevel::M),
        Command::QrStore(payload),
        Command::QrPrint,
    ]
}

/// Height of a barcode in dots: 50 unless given.
pub open spec fn barcode_height(height: Option<u8>) -> u8 {
    match height {
        Some(h) => h,
        None => 50,
    }
}

/// Module width of a barcode: 2 unless given, held within 2 to 6.
pub open spec fn barcode_module_width(width: Option<u8>) -> u8 {
    let n = match width {
        Some(n) => n,
        None => 2u8,
    };
    if n < 2 {
        2
    } else if n > 6 {
        6
    } else {
        n
    }
}

/// Commands of a CODE128 barcode: text below, height, module width, payload.
pub open spec fn barcode_commands(payload: Seq<u8>, height: Option<u8>, width: Option<u8>) -> Seq<
    Command,
> {
    seq![
        Command::BarcodeHriBelow,
        Command::BarcodeHeight(barcode_height(height)),
        Command::BarcodeModuleWidth(barcode_module_width(width)),
        Command::BarcodeCode128(payload),
    ]
}

/// Commands centred on the line: centre alignment before, left after.
pub open spec fn centered(commands: Seq<Command>) -> Seq<Command> {
    seq![Command::Align(Align::Center)] + commands + seq![Command::Align(Align::Left)]
}

/// Size flags of the double-byte glyphs for a style.
fn size_flags(style: TextStyle) -> (flags: u8)
    ensures
        flags == kanji_size_flags(style),
{
    if style.double_width && style.double_height {
        0x00
    } else if style.double_width {
        0x04
    } else if style.double_height {
        0x08
    } else {
        0x00
    }
}

/// One print session: a paper width and the batches queued so far. Each
/// batch is one command, to be written and flushed on its own.
pub struct JpPrinter {
    paper_width: PaperWidth,
    batches: Vec<Vec<u8>>,
    log: Ghost<Seq<Command>>,
}

impl JpPrinter {
    /// The queued batches are the bytes of the commands issued.
    pub closed spec fn wf(&self) -> bool {
        batch_views(self.batches@) == encode(self.log@)
    }

    /// The commands issued so far, in order.
    pub closed spec fn commands(&self) -> Seq<Command> {
        self.log@
    }

    /// The paper width of the session.
    pub closed spec fn width(&self) -> PaperWidth {
        self.paper_width
    }

    /// The style state of a printer that was at the baseline when the
    /// session began.
    pub open spec fn device(&self) -> DeviceStyle {
        DeviceStyle::baseline().after_all(self.commands())
    }

    /// A session on the narrow paper.
    pub fn new() -> (p: Self)
        ensures
            p.wf(),
            p.width() == PaperWidth::Mm58,
            p.commands() == Seq::<Command>::empty(),
    {
        let p = JpPrinter {
            paper_width: PaperWidth::Mm58,
            batches: Vec::new(),
            log: Ghost(Seq::empty()),
        };
        assert(batch_views(p.batches@) =~= encode(p.log@));
        p
    }

    /// A session on the given paper.
    pub fn with_paper_width(paper_width: PaperWidth) -> (p: Self)
        ensures
            p.wf(),
            p.width() == paper_width,
            p.commands() == Seq::<Command>::empty(),
    {
        let p = JpPrinter { paper_width, batches: Vec::new(), log: Ghost(Seq::empty()) };
        assert(batch_views(p.batches@) =~= encode(p.log@));
        p
    }

    pub fn paper_width(&self) -> (w: PaperWidth)
        ensures
            w == self.width(),
    {
        self.paper_width
    }

    pub fn chars_per_line(&self) -> (n: usize)
        ensures
            n == self.width().spec_chars(),
    {
        self.paper_width.chars()
    }

    /// The queued batches, in the order in which they are to be written.
    pub fn output(&self) -> (out: &Vec<Vec<u8>>)
        requires
            self.wf(),
        ensures
            batch_views(out@) == encode(self.commands()),
    {
        &self.batches
    }

    /// Ends the session and hands out its batches.
    pub fn into_output(self) -> (out: Vec<Vec<u8>>)
        requires
            self.wf(),
        ensures
            batch_views(out@) == encode(self.commands()),
    {
        self.batches
    }

    /// Queues the bytes of one command.
    fn emit(&mut self, data: Vec<u8>, command: Ghost<Command>)
        requires
            old(self).wf(),
            data@ == command@.bytes(),
        ensures
            final(self).wf(),
            final(self).width() == old(self).width(),
            final(self).commands() == old(self).commands().push(command@),
    {
        let ghost queued = batch_views(self.batches@);
        let ghost issued = self.log@;
        assert(queued.len() == self.batches@.len());
        assert(encode(issued).len() == issued.len());
        self.batches.push(data);
        proof {
            self.log@ = issued.push(command@);
            assert forall|i: int| 0 <= i < self.batches@.len() implies batch_views(
                self.batches@,
            )[i] == encode(self.log@)[i] by {
                if i < issued.len() {
                    assert(queued[i] == encode(issued)[i]);
                }
            }
            assert(batch_views(self.batches@) =~= encode(self.log@));
        }
    }

    /// Resets the printer, selects the Japanese code table and Shift-JIS,
    /// and sets the print area to the paper's width.
    pub fn init(&mut self)
        requires
            old(self).wf(),
        ensures
            final(self).wf(),
            final(self).width() == old(self).width(),
            final(self).commands() == old(self).commands() + init_commands(old(self).width()),
    {
        self.emit(command::init(), Ghost(Command::Init));
        self.emit(command::select_jis_table(), Ghost(Command::SelectJisTable));
        self.emit(command::select_shift_jis(), Ghost(Command::SelectShiftJis));
        self.set_print_area_width(self.paper_width.dots());
        assert(self.commands() =~= old(self).commands() + init_commands(old(self).width()));
    }

    pub fn set_left_margin(&mut self, dots: u16)
        requires
            old(self).wf(),
        ensures
            final(self).wf(),
            final(self).width() == old(self).width(),
            final(self).commands() == old(self).commands().push(Command::LeftMargin(dots)),
    {
        self.emit(command::left_margin(dots), Ghost(Command::LeftMargin(dots)));
    }

    pub fn set_print_area_width(&mut self, dots: u16)
        requires
            old(self).wf(),
        ensures
            final(self).wf(),
            final(self).width() == old(self).width(),
            final(self).commands() == old(self).commands().push(Command::PrintAreaWidth(dots)),
    {
        self.emit(command::print_area_width(dots), Ghost(Command::PrintAreaWidth(dots)));
    }

    /// Feeds `lines` lines.
    pub fn feed(&mut self, lines: u8)
        requires
            old(self).wf(),
        ensures
            final(self).wf(),
            final(self).width() == old(self).width(),
            final(self).commands() == old(self).commands() + feed_commands(lines as nat),
    {
        let mut i: u8 = 0;
        while i < lines
            invariant
                i <= lines,
                self.wf(),
                self.width() == old(self).width(),
                self.commands() == old(self).commands() + feed_commands(i as nat),
            decreases lines - i,
        {
            self.emit(command::line_feed(), Ghost(Command::LineFeed));
            i = i + 1;
            assert(self.commands() =~= old(self).commands() + feed_commands(i as nat));
        }
    }

    pub fn cut(&mut self)
        requires
            old(self).wf(),
        ensures
            final(self).wf(),
            final(self).width() == old(self).width(),
            final(self).commands() == old(self).commands().push(Command::FullCut),
    {
        self.emit(command::full_cut(), Ghost(Command::FullCut));
    }

    pub fn partial_cut(&mut self)
        requires
            old(self).wf(),
        ensures
            final(self).wf(),
            final(self).width() == old(self).width(),
            final(self).commands() == old(self).commands().push(Command::PartialCut),
    {
        self.emit(command::partial_cut(), Ghost(Command::PartialCut));
    }

    fn set_align(&mut self, align: Align)
        requires
            old(self).wf(),
        ensures
            final(self).wf(),
            final(self).width() == old(self).width(),
            final(self).commands() == old(self).commands().push(Command::Align(align)),
    {
        self.emit(command::align(align), Ghost(Command::Align(align)));
    }

    fn set_bold(&mut self, on: bool)
        requires
            old(self).wf(),
        ensures
            final(self).wf(),
            final(self).width() == old(self).width(),
            final(self).commands() == old(self).commands().push(Command::Bold(on)),
    {
        self.emit(command::bold(on), Ghost(Command::Bold(on)));
    }

    /// Sets the underline of single-byte and of double-byte text alike.
    fn set_underline(&mut self, on: bool)
        requires
            old(self).wf(),
        ensures
            final(self).wf(),
            final(self).width() == old(self).width(),
            final(self).commands() == old(self).commands().push(Command::Underline(on)).push(
                Command::KanjiUnderline(on),
            ),
    {
        self.emit(command::underline(on), Ghost(Command::Underline(on)));
        self.emit(command::kanji_underline(on), Ghost(Command::KanjiUnderline(on)));
    }

    fn set_reverse(&mut self, on: bool)
        requires
            old(self).wf(),
        ensures
            final(self).wf(),
            final(self).width() == old(self).width(),
            final(self).commands() == old(self).commands().push(Command::Reverse(on)),
    {
        self.emit(command::reverse(on), Ghost(Command::Reverse(on)));
    }

    fn set_double_size(&mut self, on: bool)
        requires
            old(self).wf(),
        ensures
            final(self).wf(),
            final(self).width() == old(self).width(),
            final(self).commands() == old(self).commands().push(Command::DoubleSize(on)),
    {
        self.emit(command::double_size(on), Ghost(Command::DoubleSize(on)));
    }

    /// Switches a style on.
    fn style_on(&mut self, style: TextStyle)
        requires
            old(self).wf(),
        ensures
            final(self).wf(),
            final(self).width() == old(self).width(),
            final(self).commands() == old(self).commands() + style_on_commands(style),
    {
        self.set_align(style.align);
        self.set_bold(style.bold);
        self.set_underline(style.underline);
        self.set_reverse(style.reverse);
        if style.double_width && style.double_height {
            self.set_double_size(true);
        }
        assert(self.commands() =~= old(self).commands() + style_on_commands(style));
    }

    /// Sends an encoded text inside the double-byte window.
    fn window(&mut self, payload: Vec<u8>, style: TextStyle)
        requires
            old(self).wf(),
        ensures
            final(self).wf(),
            final(self).width() == old(self).width(),
            final(self).commands() == old(self).commands() + kanji_window(payload@, style),
    {
        let ghost text = payload@;
        self.emit(command::kanji_mode(true), Ghost(Command::KanjiMode(true)));
        let size_flag = size_flags(style);
        if size_flag != 0x00 {
            self.emit(command::kanji_size(size_flag), Ghost(Command::KanjiSize(size_flag)));
        }
        self.emit(payload, Ghost(Command::Text(text)));
        if size_flag != 0x00 {
            self.emit(command::kanji_size(0x00), Ghost(Command::KanjiSize(0x00)));
        }
        self.emit(command::kanji_mode(false), Ghost(Command::KanjiMode(false)));
        assert(self.commands() =~= old(self).commands() + kanji_window(text, style));
    }

    /// Switches a style off again.
    fn style_off(&mut self, style: TextStyle)
        requires
            old(self).wf(),
        ensures
            final(self).wf(),
            final(self).width() == old(self).width(),
            final(self).commands() == old(self).commands() + style_off_commands(style),
    {
        if style.double_width && style.double_height {
            self.set_double_size(false);
        }
        self.set_bold(false);
        self.set_underline(false);
        self.set_reverse(false);
        self.set_align(Align::Left);
        assert(self.commands() =~= old(self).commands() + style_off_commands(style));
    }

    /// Queues an encoded text in a style: alignment, bold, underline and
    /// reverse first; double size by the combined command where both width
    /// and height are doubled; then the double-byte window with the text,
    /// framed by the size flags where exactly one of the two is doubled; then
    /// everything back off and the alignment back to left.
    pub fn encoded_text(&mut self, payload: Vec<u8>, style: TextStyle)
        requires
            old(self).wf(),
        ensures
            final(self).wf(),
            final(self).width() == old(self).width(),
            final(self).commands() == old(self).commands() + text_commands(payload@, style),
            final(self).device() == restored(old(self).device(), style),
    {
        let ghost text = payload@;
        self.style_on(style);
        self.window(payload, style);
        self.style_off(style);
        proof {
            assert(self.commands() =~= old(self).commands() + text_commands(text, style)) by {
                reveal(text_commands);
            }
            lemma_after_all_concat(
                DeviceStyle::baseline(),
                old(self).commands(),
                text_commands(text, style),
            );
            lemma_text_restores_style(old(self).device(), text, style);
        }
    }

    /// Queues an encoded text in a style, and a line feed after it.
    pub fn encoded_textln(&mut self, payload: Vec<u8>, style: TextStyle)
        requires
            old(self).wf(),
        ensures
            final(self).wf(),
            final(self).width() == old(self).width(),
            final(self).commands() == old(self).commands() + textln_commands(payload@, style),
            final(self).device() == restored(old(self).device(), style),
    {
        let ghost text = payload@;
        self.encoded_text(payload, style);
        self.feed(1);
        proof {
            assert(self.commands() =~= old(self).commands() + textln_commands(text, style));
            lemma_after_all_concat(
                DeviceStyle::baseline(),
                old(self).commands(),
                textln_commands(text, style),
            );
            lemma_text_restores_style(old(self).device(), text, style);
        }
    }

    /// Prints a text in the plain style.
    pub fn text(&mut self, txt: &str)
        requires
            old(self).wf(),
            txt@.len() <= MAX_TEXT_CHARS,
        ensures
            final(self).wf(),
            final(self).width() == old(self).width(),
            final(self).commands() == old(self).commands() + styled_text(txt@, TextStyle::plain()),
            final(self).device() == restored(old(self).device(), TextStyle::plain()),
    {
        self.jp_text(txt, TextStyle::default());
    }

    /// Prints a line in the plain style.
    pub fn textln(&mut self, txt: &str)
        requires
            old(self).wf(),
            txt@.len() <= MAX_TEXT_CHARS,
        ensures
            final(self).wf(),
            final(self).width() == old(self).width(),
            final(self).commands() == old(self).commands() + styled_line(txt@, TextStyle::plain()),
            final(self).device() == restored(old(self).device(), TextStyle::plain()),
    {
        self.jp_textln(txt, TextStyle::default());
    }

    /// Prints a text in a style.
    pub fn jp_text(&mut self, txt: &str, style: TextStyle)
        requires
            old(self).wf(),
            txt@.len() <= MAX_TEXT_CHARS,
        ensures
            final(self).wf(),
            final(self).width() == old(self).width(),
            final(self).commands() == old(self).commands() + styled_text(txt@, style),
            final(self).device() == restored(old(self).device(), style),
    {
        let encoded = encode_shift_jis(txt);
        self.encoded_text(encoded, style);
    }

    /// Prints a line in a style.
    pub fn jp_textln(&mut self, txt: &str, style: TextStyle)
        requires
            old(self).wf(),
            txt@.len() <= MAX_TEXT_CHARS,
        ensures
            final(self).wf(),
            final(self).width() == old(self).width(),
            final(self).commands() == old(self).commands() + styled_line(txt@, style),
            final(self).device() == restored(old(self).device(), style),
    {
        let encoded = encode_shift_jis(txt);
        self.encoded_textln(encoded, style);
    }

    /// Prints a rule of `width` hyphens.
    pub fn line(&mut self, width: usize)
        requires
            old(self).wf(),
            width <= MAX_TEXT_CHARS,
        ensures
            final(self).wf(),
            final(self).width() == old(self).width(),
            final(self).commands() == old(self).commands() + rule_line('-', width as nat),
            final(self).device() == restored(old(self).device(), TextStyle::plain()),
    {
        let line = repeat_char('-', width);
        self.textln(line.as_str());
    }

    /// Prints a rule of hyphens across the paper.
    pub fn separator(&mut self)
        requires
            old(self).wf(),
        ensures
            final(self).wf(),
            final(self).width() == old(self).width(),
            final(self).commands() == old(self).commands() + rule_line(
                '-',
                old(self).width().spec_chars() as nat,
            ),
            final(self).device() == restored(old(self).device(), TextStyle::plain()),
    {
        self.line(self.paper_width.chars());
    }

    /// Prints a rule of `width` equals signs.
    pub fn double_line(&mut self, width: usize)
        requires
            old(self).wf(),
            width <= MAX_TEXT_CHARS,
        ensures
            final(self).wf(),
            final(self).width() == old(self).width(),
            final(self).commands() == old(self).commands() + rule_line('=', width as nat),
            final(self).device() == restored(old(self).device(), TextStyle::plain()),
    {
        let line = repeat_char('=', width);
        self.textln(line.as_str());
    }

    /// Prints a rule of equals signs across the paper.
    pub fn double_separator(&mut self)
        requires
            old(self).wf(),
        ensures
            final(self).wf(),
            final(self).width() == old(self).width(),
            final(self).commands() == old(self).commands() + rule_line(
                '=',
                old(self).width().spec_chars() as nat,
            ),
            final(self).device() == restored(old(self).device(), TextStyle::plain()),
    {
        self.double_line(self.paper_width.chars());
    }

    /// Prints a label and a value justified to `width` cells.
    pub fn row(&mut self, left: &str, right: &str, width: usize)
        requires
            old(self).wf(),
            left@.len() + right@.len() + width <= MAX_TEXT_CHARS,
        ensures
            final(self).wf(),
            final(self).width() == old(self).width(),
            final(self).commands() == old(self).commands() + row_line(
                left@,
                right@,
                width as nat,
            ),
            final(self).device() == restored(old(self).device(), TextStyle::plain()),
    {
        let row = row_text(left, right, width);
        self.textln(row.as_str());
    }

    /// Prints a label and a value justified to the paper.
    pub fn row_auto(&mut self, left: &str, right: &str)
        requires
            old(self).wf(),
            left@.len() + right@.len() + 48 <= MAX_TEXT_CHARS,
        ensures
            final(self).wf(),
            final(self).width() == old(self).width(),
            final(self).commands() == old(self).commands() + row_line(
                left@,
                right@,
                old(self).width().spec_chars() as nat,
            ),
            final(self).device() == restored(old(self).device(), TextStyle::plain()),
    {
        self.row(left, right, self.paper_width.chars());
    }

    /// Prints a label and a value justified to the paper, in bold.
    pub fn row_auto_bold(&mut self, left: &str, right: &str)
        requires
            old(self).wf(),
            left@.len() + right@.len() + 48 <= MAX_TEXT_CHARS,
        ensures
            final(self).wf(),
            final(self).width() == old(self).width(),
            final(self).commands() == old(self).commands() + bold_row_line(
                left@,
                right@,
                old(self).width().spec_chars() as nat,
            ),
            final(self).device() == restored(
                old(self).device(),
                TextStyle { bold: true, ..TextStyle::plain() },
            ),
    {
        let row = row_text(left, right, self.paper_width.chars());
        self.jp_textln(row.as_str(), TextStyle::default().bold());
    }

    /// Prints a QR symbol of the text's UTF-8 bytes.
    pub fn qr_code(&mut self, data: &str, size: Option<u8>)
        requires
            old(self).wf(),
        ensures
            final(self).wf(),
            final(self).width() == old(self).width(),
            final(self).commands() == old(self).commands() + qr_commands(
                encode_utf8(data@),
                size,
            ),
    {
        let given: u8 = size.unwrap_or(4);
        let cell: u8 = if given < 1 {
            1
        } else if given > 16 {
            16
        } else {
            given
        };
        self.emit(command::qr_model_2(), Ghost(Command::QrModel2));
        self.emit(command::qr_cell_size(cell), Ghost(Command::QrCellSize(cell)));
        self.emit(
            command::qr_error_level(QrErrorLevel::M),
            Ghost(Command::QrErrorLevel(QrErrorLevel::M)),
        );
        let data_bytes = data.as_bytes();
        self.emit(command::qr_store(data_bytes), Ghost(Command::QrStore(data_bytes@)));
        self.emit(command::qr_print(), Ghost(Command::QrPrint));
        assert(self.commands() =~= old(self).commands() + qr_commands(encode_utf8(data@), size));
    }

    /// Prints a QR symbol centred on the line.
    pub fn qr_code_center(&mut self, data: &str, size: Option<u8>)
        requires
            old(self).wf(),
        ensures
            final(self).wf(),
            final(self).width() == old(self).width(),
            final(self).commands() == old(self).commands() + centered(
                qr_commands(encode_utf8(data@), size),
            ),
    {
        self.set_align(Align::Center);
        self.qr_code(data, size);
        self.set_align(Align::Left);
        assert(self.commands() =~= old(self).commands() + centered(
            qr_commands(encode_utf8(data@), size),
        ));
    }

    /// Prints a CODE128 barcode of the text's UTF-8 bytes.
    pub fn barcode_code128(&mut self, data: &str, height: Option<u8>, width: Option<u8>)
        requires
            old(self).wf(),
        ensures
            final(self).wf(),
            final(self).width() == old(self).width(),
            final(self).commands() == old(self).commands() + barcode_commands(
                encode_utf8(data@),
                height,
                width,
            ),
    {
        let dots: u8 = height.unwrap_or(50);
        let given: u8 = width.unwrap_or(2);
        let module: u8 = if given < 2 {
            2
        } else if given > 6 {
            6
        } else {
            given
        };
        self.emit(command::barcode_hri_below(), Ghost(Command::BarcodeHriBelow));
        self.emit(command::barcode_height(dots), Ghost(Command::BarcodeHeight(dots)));
        self.emit(
            command::barcode_module_width(module),
            Ghost(Command::BarcodeModuleWidth(module)),
        );
        let data_bytes = data.as_bytes();
        self.emit(
            command::barcode_code128(data_bytes),
            Ghost(Command::BarcodeCode128(data_bytes@)),
        );
        assert(self.commands() =~= old(self).commands() + barcode_commands(
            encode_utf8(data@),
            height,
            width,
        ));
    }

    /// Prints a CODE128 barcode centred on the line.
    pub fn barcode_code128_center(&mut self, data: &str, height: Option<u8>, width: Option<u8>)
        requires
            old(self).wf(),
        ensures
            final(self).wf(),
            final(self).width() == old(self).width(),
            final(self).commands() == old(self).commands() + centered(
                barcode_commands(encode_utf8(data@), height, width),
            ),
    {
        self.set_align(Align::Center);
        self.barcode_code128(data, height, width);
        self.set_align(Align::Left);
        assert(self.commands() =~= old(self).commands() + centered(
            barcode_commands(encode_utf8(data@), height, width),
        ));
    }

    /// Prints a line padded with spaces to the full line, so that a reverse
    /// background runs unbroken from edge to edge.
    pub fn jp_textln_padded(&mut self, txt: &str, style: TextStyle)
        requires
            old(self).wf(),
            txt@.len() + 48 <= MAX_TEXT_CHARS,
        ensures
            final(self).wf(),
            final(self).width() == old(self).width(),
            final(self).commands() == old(self).commands() + padded_line(
                txt@,
                style,
                old(self).width(),
            ),
            final(self).device() == restored(old(self).device(), style),
    {
        let line_width = if style.double_width {
            self.paper_width.chars_jp()
        } else {
            self.paper_width.chars()
        };
        let padded = padded_text(txt, style.align, line_width);
        let left_style = style.align(Align::Left);
        self.jp_textln(padded.as_str(), left_style);
    }
}

} // verus!
