//! The printer's wire protocol: every command the engine can issue, and the
//! exact bytes of each. Multi-byte fields are little-endian.

use vstd::prelude::*;
use vstd::utf8::{encode_utf8, is_ascii_chars, is_ascii_chars_encode_utf8};
use crate::style::Align;

verus! {

/// Error-correction level of a QR symbol.
#[derive(Debug, Clone, Copy, PartialEq, Eq, Structural)]
pub enum QrErrorLevel {
    L,
    M,
}

/// One command of the protocol. Each is sent to the printer as one batch.
pub enum Command {
    /// Reset the printer.
    Init,
    /// Select the Japanese code table for single-byte text.
    SelectJisTable,
    /// Select Shift-JIS as the double-byte code system.
    SelectShiftJis,
    /// Width of the print area in dots.
    PrintAreaWidth(u16),
    /// Left margin in dots.
    LeftMargin(u16),
    LineFeed,
    FullCut,
    PartialCut,
    Align(Align),
    Bold(bool),
    /// Underline for single-byte text.
    Underline(bool),
    /// Underline for double-byte text.
    KanjiUnderline(bool),
    Reverse(bool),
    /// Double width and double height together.
    DoubleSize(bool),
    /// Enter or leave double-byte text mode.
    KanjiMode(bool),
    /// Size flags of double-byte glyphs: 0x04 double width, 0x08 double height.
    KanjiSize(u8),
    /// Encoded text.
    Text(Seq<u8>),
    QrModel2,
    QrCellSize(u8),
    QrErrorLevel(QrErrorLevel),
    /// Store the payload of a QR symbol.
    QrStore(Seq<u8>),
    QrPrint,
    /// Print the human-readable text below a barcode.
    BarcodeHriBelow,
    BarcodeHeight(u8),
    BarcodeModuleWidth(u8),
    /// Print a CODE128 barcode of the payload.
    BarcodeCode128(Seq<u8>),
}

/// Low byte of a 16-bit value.
pub open spec fn low_byte(v: nat) -> u8 {
    (v % 256) as u8
}

/// High byte of a 16-bit value.
pub open spec fn high_byte(v: nat) -> u8 {
    ((v / 256) % 256) as u8
}

/// Byte of an on/off parameter.
pub open spec fn flag_byte(on: bool) -> u8 {
    if on {
        1
    } else {
        0
    }
}

/// Length that a QR store command declares for a payload of `n` bytes: the
/// payload and three header bytes, in sixteen bits.
pub open spec fn qr_store_length(n: nat) -> nat {
    (n + 3) % 0x1_0000
}

/// Length that a barcode command declares for a payload of `n` bytes, in
/// eight bits.
pub open spec fn barcode_length(n: nat) -> nat {
    n % 256
}

impl Command {
    /// The bytes of the command on the wire.
    pub open spec fn bytes(self) -> Seq<u8> {
        match self {
            Command::Init => seq![0x1b, 0x40],
            Command::SelectJisTable => seq![0x1b, 0x74, 0x02],
            Command::SelectShiftJis => seq![0x1c, 0x43, 0x01],
            Command::PrintAreaWidth(dots) => seq![
                0x1d,
                0x57,
                low_byte(dots as nat),
                high_byte(dots as nat),
            ],
            Command::LeftMargin(dots) => seq![
                0x1d,
                0x4c,
                low_byte(dots as nat),
                high_byte(dots as nat),
            ],
            Command::LineFeed => seq![0x0a],
            Command::FullCut => seq![0x1d, 0x56, 0x00],
            Command::PartialCut => seq![0x1d, 0x56, 0x01],
            Command::Align(a) => seq![
                0x1b,
                0x61,
                match a {
                    Align::Left => 0u8,
                    Align::Center => 1u8,
                    Align::Right => 2u8,
                },
            ],
            Command::Bold(on) => seq![0x1b, 0x45, flag_byte(on)],
            Command::Underline(on) => seq![0x1b, 0x2d, flag_byte(on)],
            Command::KanjiUnderline(on) => seq![0x1c, 0x2d, flag_byte(on)],
            Command::Reverse(on) => seq![0x1d, 0x42, flag_byte(on)],
            Command::DoubleSize(on) => seq![0x1b, 0x21, if on { 0x30u8 } else { 0x00u8 }],
            Command::KanjiMode(on) => seq![0x1c, if on { 0x26u8 } else { 0x2eu8 }],
            Command::KanjiSize(flags) => seq![0x1c, 0x21, flags],
            Command::Text(payload) => payload,
            Command::QrModel2 => seq![0x1d, 0x28, 0x6b, 0x04, 0x00, 0x31, 0xa5, 0x32, 0x00],
            Command::QrCellSize(n) => seq![0x1d, 0x28, 0x6b, 0x03, 0x00, 0x31, 0xa7, n],
            Command::QrErrorLevel(level) => seq![
                0x1d,
                0x28,
                0x6b,
                0x03,
                0x00,
                0x31,
                0xa9,
                match level {
                    QrErrorLevel::L => 0x30u8,
                    QrErrorLevel::M => 0x31u8,
                },
            ],
            Command::QrStore(payload) => seq![
                0x1d,
                0x28,
                0x6b,
                low_byte(qr_store_length(payload.len())),
                high_byte(qr_store_length(payload.len())),
                0x31,
                0xb4,
                0x30,
            ] + payload,
            Command::QrPrint => seq![0x1d, 0x28, 0x6b, 0x03, 0x00, 0x31, 0xb5, 0x30],
            Command::BarcodeHriBelow => seq![0x1d, 0x48, 0x02],
            Command::BarcodeHeight(n) => seq![0x1d, 0x68, n],
            Command::BarcodeModuleWidth(n) => seq![0x1d, 0x77, n],
            Command::BarcodeCode128(payload) => seq![
                0x1d,
                0x6b,
                0x49,
                low_byte(barcode_length(payload.len())),
            ] + payload,
        }
    }
}

/// The batches of a command sequence, one batch per command.
pub open spec fn encode(commands: Seq<Command>) -> Seq<Seq<u8>> {
    Seq::new(commands.len(), |i: int| commands[i].bytes())
}

/// The declared length of a QR store command is the byte count of what
/// follows the length field, whenever that count fits in sixteen bits.
pub proof fn lemma_qr_store_length_prefix(payload: Seq<u8>)
    requires
        payload.len() + 3 < 0x1_0000,
    ensures
        ({
            let b = Command::QrStore(payload).bytes();
            &&& b.len() == 8 + payload.len()
            &&& b[3] + 256 * b[4] == payload.len() + 3
            &&& b[3] + 256 * b[4] == b.len() - 5
            &&& b.skip(8) == payload
        }),
{
    let b = Command::QrStore(payload).bytes();
    assert(b.skip(8) =~= payload);
}

/// For a text of N ASCII characters, the store command of its QR symbol
/// declares N + 3, low byte first, whenever that fits in sixteen bits.
pub proof fn lemma_qr_ascii_length_prefix(data: Seq<char>)
    requires
        is_ascii_chars(data),
        data.len() + 3 < 0x1_0000,
    ensures
        ({
            let b = Command::QrStore(encode_utf8(data)).bytes();
            &&& b.len() == 8 + data.len()
            &&& b[3] + 256 * b[4] == data.len() + 3
        }),
{
    is_ascii_chars_encode_utf8(data);
    lemma_qr_store_length_prefix(encode_utf8(data));
}

/// The declared length of a barcode command is the byte count of its
/// payload, whenever that count fits in eight bits.
pub proof fn lemma_barcode_length_prefix(payload: Seq<u8>)
    requires
        payload.len() < 256,
    ensures
        ({
            let b = Command::BarcodeCode128(payload).bytes();
            &&& b.len() == 4 + payload.len()
            &&& b[3] == payload.len()
            &&& b.skip(4) == payload
        }),
{
    let b = Command::BarcodeCode128(payload).bytes();
    assert(b.skip(4) =~= payload);
}

pub fn init() -> (b: Vec<u8>)
    ensures
        b@ == Command::Init.bytes(),
{
    let b: Vec<u8> = vec![0x1b, 0x40];
    assert(b@ =~= Command::Init.bytes());
    b
}

pub fn select_jis_table() -> (b: Vec<u8>)
    ensures
        b@ == Command::SelectJisTable.bytes(),
{
    let b: Vec<u8> = vec![0x1b, 0x74, 0x02];
    assert(b@ =~= Command::SelectJisTable.bytes());
    b
}

pub fn select_shift_jis() -> (b: Vec<u8>)
    ensures
        b@ == Command::SelectShiftJis.bytes(),
{
    let b: Vec<u8> = vec![0x1c, 0x43, 0x01];
    assert(b@ =~= Command::SelectShiftJis.bytes());
    b
}

pub fn print_area_width(dots: u16) -> (b: Vec<u8>)
    ensures
        b@ == Command::PrintAreaWidth(dots).bytes(),
{
    let nl: u8 = (dots % 256) as u8;
    let nh: u8 = (dots / 256) as u8;
    let b: Vec<u8> = vec![0x1d, 0x57, nl, nh];
    assert(b@ =~= Command::PrintAreaWidth(dots).bytes());
    b
}

pub fn left_margin(dots: u16) -> (b: Vec<u8>)
    ensures
        b@ == Command::LeftMargin(dots).bytes(),
{
    let nl: u8 = (dots % 256) as u8;
    let nh: u8 = (dots / 256) as u8;
    let b: Vec<u8> = vec![0x1d, 0x4c, nl, nh];
    assert(b@ =~= Command::LeftMargin(dots).bytes());
    b
}

pub fn line_feed() -> (b: Vec<u8>)
    ensures
        b@ == Command::LineFeed.bytes(),
{
    let b: Vec<u8> = vec![0x0a];
    assert(b@ =~= Command::LineFeed.bytes());
    b
}

pub fn full_cut() -> (b: Vec<u8>)
    ensures
        b@ == Command::FullCut.bytes(),
{
    let b: Vec<u8> = vec![0x1d, 0x56, 0x00];
    assert(b@ =~= Command::FullCut.bytes());
    b
}

pub fn partial_cut() -> (b: Vec<u8>)
    ensures
        b@ == Command::PartialCut.bytes(),
{
    let b: Vec<u8> = vec![0x1d, 0x56, 0x01];
    assert(b@ =~= Command::PartialCut.bytes());
    b
}

pub fn align(a: Align) -> (b: Vec<u8>)
    ensures
        b@ == Command::Align(a).bytes(),
{
    let n: u8 = match a {
        Align::Left => 0,
        Align::Center => 1,
        Align::Right => 2,
    };
    let b: Vec<u8> = vec![0x1b, 0x61, n];
    assert(b@ =~= Command::Align(a).bytes());
    b
}

fn flag(on: bool) -> (n: u8)
    ensures
        n == flag_byte(on),
{
    if on {
        1
    } else {
        0
    }
}

pub fn bold(on: bool) -> (b: Vec<u8>)
    ensures
        b@ == Command::Bold(on).bytes(),
{
    let b: Vec<u8> = vec![0x1b, 0x45, flag(on)];
    assert(b@ =~= Command::Bold(on).bytes());
    b
}

pub fn underline(on: bool) -> (b: Vec<u8>)
    ensures
        b@ == Command::Underline(on).bytes(),
{
    let b: Vec<u8> = vec![0x1b, 0x2d, flag(on)];
    assert(b@ =~= Command::Underline(on).bytes());
    b
}

pub fn kanji_underline(on: bool) -> (b: Vec<u8>)
    ensures
        b@ == Command::KanjiUnderline(on).bytes(),
{
    let b: Vec<u8> = vec![0x1c, 0x2d, flag(on)];
    assert(b@ =~= Command::KanjiUnderline(on).bytes());
    b
}

pub fn reverse(on: bool) -> (b: Vec<u8>)
    ensures
        b@ == Command::Reverse(on).bytes(),
{
    let b: Vec<u8> = vec![0x1d, 0x42, flag(on)];
    assert(b@ =~= Command::Reverse(on).bytes());
    b
}

pub fn double_size(on: bool) -> (b: Vec<u8>)
    ensures
        b@ == Command::DoubleSize(on).bytes(),
{
    let n: u8 = if on { 0x30 } else { 0x00 };
    let b: Vec<u8> = vec![0x1b, 0x21, n];
    assert(b@ =~= Command::DoubleSize(on).bytes());
    b
}

pub fn kanji_mode(on: bool) -> (b: Vec<u8>)
    ensures
        b@ == Command::KanjiMode(on).bytes(),
{
    let n: u8 = if on { 0x26 } else { 0x2e };
    let b: Vec<u8> = vec![0x1c, n];
    assert(b@ =~= Command::KanjiMode(on).bytes());
    b
}

pub fn kanji_size(flags: u8) -> (b: Vec<u8>)
    ensures
        b@ == Command::KanjiSize(flags).bytes(),
{
    let b: Vec<u8> = vec![0x1c, 0x21, flags];
    assert(b@ =~= Command::KanjiSize(flags).bytes());
    b
}

pub fn qr_model_2() -> (b: Vec<u8>)
    ensures
        b@ == Command::QrModel2.bytes(),
{
    let b: Vec<u8> = vec![0x1d, 0x28, 0x6b, 0x04, 0x00, 0x31, 0xa5, 0x32, 0x00];
    assert(b@ =~= Command::QrModel2.bytes());
    b
}

pub fn qr_cell_size(n: u8) -> (b: Vec<u8>)
    ensures
        b@ == Command::QrCellSize(n).bytes(),
{
    let b: Vec<u8> = vec![0x1d, 0x28, 0x6b, 0x03, 0x00, 0x31, 0xa7, n];
    assert(b@ =~= Command::QrCellSize(n).bytes());
    b
}

pub fn qr_error_level(level: QrErrorLevel) -> (b: Vec<u8>)
    ensures
        b@ == Command::QrErrorLevel(level).bytes(),
{
    let n: u8 = match level {
        QrErrorLevel::L => 0x30,
        QrErrorLevel::M => 0x31,
    };
    let b: Vec<u8> = vec![0x1d, 0x28, 0x6b, 0x03, 0x00, 0x31, 0xa9, n];
    assert(b@ =~= Command::QrErrorLevel(level).bytes());
    b
}

pub fn qr_store(payload: &[u8]) -> (b: Vec<u8>)
    ensures
        b@ == Command::QrStore(payload@).bytes(),
{
    let low: usize = payload.len() % 0x1_0000;
    let declared: usize = (low + 3) % 0x1_0000;
    assert(declared == qr_store_length(payload@.len()));
    let pl: u8 = (declared % 256) as u8;
    let ph: u8 = (declared / 256) as u8;
    let mut b: Vec<u8> = vec![0x1d, 0x28, 0x6b, pl, ph, 0x31, 0xb4, 0x30];
    b.extend_from_slice(payload);
    assert(b@ =~= Command::QrStore(payload@).bytes());
    b
}

pub fn qr_print() -> (b: Vec<u8>)
    ensures
        b@ == Command::QrPrint.bytes(),
{
    let b: Vec<u8> = vec![0x1d, 0x28, 0x6b, 0x03, 0x00, 0x31, 0xb5, 0x30];
    assert(b@ =~= Command::QrPrint.bytes());
    b
}

pub fn barcode_hri_below() -> (b: Vec<u8>)
    ensures
        b@ == Command::BarcodeHriBelow.bytes(),
{
    let b: Vec<u8> = vec![0x1d, 0x48, 0x02];
    assert(b@ =~= Command::BarcodeHriBelow.bytes());
    b
}

pub fn barcode_height(n: u8) -> (b: Vec<u8>)
    ensures
        b@ == Command::BarcodeHeight(n).bytes(),
{
    let b: Vec<u8> = vec![0x1d, 0x68, n];
    assert(b@ =~= Command::BarcodeHeight(n).bytes());
    b
}

pub fn barcode_module_width(n: u8) -> (b: Vec<u8>)
    ensures
        b@ == Command::BarcodeModuleWidth(n).bytes(),
{
    let b: Vec<u8> = vec![0x1d, 0x77, n];
    assert(b@ =~= Command::BarcodeModuleWidth(n).bytes());
    b
}

pub fn barcode_code128(payload: &[u8]) -> (b: Vec<u8>)
    ensures
        b@ == Command::BarcodeCode128(payload@).bytes(),
{
    let n: u8 = (payload.len() % 256) as u8;
    let mut b: Vec<u8> = vec![0x1d, 0x6b, 0x49, n];
    b.extend_from_slice(payload);
    assert(b@ =~= Command::BarcodeCode128(payload@).bytes());
    b
}

} // verus!
