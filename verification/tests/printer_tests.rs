use mizpos_desktop::printer::JpPrinter;
use mizpos_desktop::style::{Align, PaperWidth, TextStyle};

fn sjis(text: &str) -> Vec<u8> {
    encoding_rs::SHIFT_JIS.encode(text).0.into_owned()
}

fn align_byte(align: Align) -> u8 {
    match align {
        Align::Left => 0,
        Align::Center => 1,
        Align::Right => 2,
    }
}

/// The batches of one styled text, written out byte by byte.
fn expected_text(payload: &[u8], style: TextStyle) -> Vec<Vec<u8>> {
    let mut out: Vec<Vec<u8>> = Vec::new();
    out.push(vec![0x1b, 0x61, align_byte(style.align)]);
    out.push(vec![0x1b, 0x45, style.bold as u8]);
    out.push(vec![0x1b, 0x2d, style.underline as u8]);
    out.push(vec![0x1c, 0x2d, style.underline as u8]);
    out.push(vec![0x1d, 0x42, style.reverse as u8]);
    let both = style.double_width && style.double_height;
    if both {
        out.push(vec![0x1b, 0x21, 0x30]);
    }
    out.push(vec![0x1c, 0x26]);
    let mut flags = 0u8;
    if !both {
        if style.double_width {
            flags |= 0x04;
        }
        if style.double_height {
            flags |= 0x08;
        }
    }
    if flags != 0 {
        out.push(vec![0x1c, 0x21, flags]);
    }
    out.push(payload.to_vec());
    if flags != 0 {
        out.push(vec![0x1c, 0x21, 0x00]);
    }
    out.push(vec![0x1c, 0x2e]);
    if both {
        out.push(vec![0x1b, 0x21, 0x00]);
    }
    out.push(vec![0x1b, 0x45, 0x00]);
    out.push(vec![0x1b, 0x2d, 0x00]);
    out.push(vec![0x1c, 0x2d, 0x00]);
    out.push(vec![0x1d, 0x42, 0x00]);
    out.push(vec![0x1b, 0x61, 0x00]);
    out
}

fn expected_line(text: &str, style: TextStyle) -> Vec<Vec<u8>> {
    let mut out = expected_text(&sjis(text), style);
    out.push(vec![0x0a]);
    out
}

fn all_styles() -> Vec<TextStyle> {
    let mut styles = Vec::new();
    for bits in 0u8..32 {
        for align in [Align::Left, Align::Center, Align::Right] {
            styles.push(TextStyle {
                bold: bits & 1 != 0,
                underline: bits & 2 != 0,
                double_width: bits & 4 != 0,
                double_height: bits & 8 != 0,
                reverse: bits & 16 != 0,
                align,
            });
        }
    }
    styles
}

#[test]
fn new_session_is_empty_and_narrow() {
    let p = JpPrinter::new();
    assert_eq!(p.paper_width(), PaperWidth::Mm58);
    assert_eq!(p.chars_per_line(), 32);
    assert!(p.output().is_empty());
    assert!(p.into_output().is_empty());
}

#[test]
fn session_keeps_its_paper_width() {
    let mut p = JpPrinter::with_paper_width(PaperWidth::Mm80);
    assert_eq!(p.paper_width(), PaperWidth::Mm80);
    assert_eq!(p.chars_per_line(), 48);
    p.textln("x");
    p.feed(2);
    assert_eq!(p.paper_width(), PaperWidth::Mm80);
}

#[test]
fn init_resets_selects_encoding_and_sets_area() {
    let mut p = JpPrinter::new();
    p.init();
    assert_eq!(
        p.output(),
        &vec![
            vec![0x1b, 0x40],
            vec![0x1b, 0x74, 0x02],
            vec![0x1c, 0x43, 0x01],
            vec![0x1d, 0x57, 0x80, 0x01],
        ]
    );
    let mut p = JpPrinter::with_paper_width(PaperWidth::Mm80);
    p.init();
    assert_eq!(p.output()[3], vec![0x1d, 0x57, 0x40, 0x02]);
}

#[test]
fn margin_and_area_are_one_batch_each() {
    let mut p = JpPrinter::new();
    p.set_left_margin(0x0102);
    p.set_print_area_width(500);
    assert_eq!(p.output(), &vec![vec![0x1d, 0x4c, 0x02, 0x01], vec![0x1d, 0x57, 0xf4, 0x01]]);
}

#[test]
fn feed_sends_one_line_feed_per_line() {
    let mut p = JpPrinter::new();
    p.feed(0);
    assert!(p.output().is_empty());
    p.feed(3);
    assert_eq!(p.output(), &vec![vec![0x0a], vec![0x0a], vec![0x0a]]);
}

#[test]
fn cuts_have_their_batches() {
    let mut p = JpPrinter::new();
    p.cut();
    p.partial_cut();
    assert_eq!(p.output(), &vec![vec![0x1d, 0x56, 0x00], vec![0x1d, 0x56, 0x01]]);
}

#[test]
fn plain_text_is_framed_by_style_and_kanji_mode() {
    let mut p = JpPrinter::new();
    p.text("AB");
    assert_eq!(
        p.output(),
        &vec![
            vec![0x1b, 0x61, 0x00],
            vec![0x1b, 0x45, 0x00],
            vec![0x1b, 0x2d, 0x00],
            vec![0x1c, 0x2d, 0x00],
            vec![0x1d, 0x42, 0x00],
            vec![0x1c, 0x26],
            vec![b'A', b'B'],
            vec![0x1c, 0x2e],
            vec![0x1b, 0x45, 0x00],
            vec![0x1b, 0x2d, 0x00],
            vec![0x1c, 0x2d, 0x00],
            vec![0x1d, 0x42, 0x00],
            vec![0x1b, 0x61, 0x00],
        ]
    );
}

#[test]
fn text_is_sent_in_shift_jis() {
    let mut p = JpPrinter::new();
    p.text("あ");
    assert_eq!(p.output()[6], vec![0x82, 0xa0]);
    let mut p = JpPrinter::new();
    p.text("日本");
    assert_eq!(p.output()[6], vec![0x93, 0xfa, 0x96, 0x7b]);
    let mut p = JpPrinter::new();
    p.text("￥100");
    assert_eq!(p.output()[6], vec![0x81, 0x8f, b'1', b'0', b'0']);
}

#[test]
fn unmappable_characters_become_numeric_references() {
    let mut p = JpPrinter::new();
    p.text("a😀b");
    assert_eq!(p.output()[6], b"a&#128512;b".to_vec());
    assert_eq!(p.output().len(), 13);
}

#[test]
fn empty_text_still_sends_an_empty_batch() {
    let mut p = JpPrinter::new();
    p.text("");
    assert_eq!(p.output()[6], Vec::<u8>::new());
    assert_eq!(p.output().len(), 13);
}

#[test]
fn double_size_uses_the_combined_command() {
    let mut p = JpPrinter::new();
    p.jp_text("X", TextStyle::default().double().reverse());
    assert_eq!(
        p.output(),
        &vec![
            vec![0x1b, 0x61, 0x00],
            vec![0x1b, 0x45, 0x00],
            vec![0x1b, 0x2d, 0x00],
            vec![0x1c, 0x2d, 0x00],
            vec![0x1d, 0x42, 0x01],
            vec![0x1b, 0x21, 0x30],
            vec![0x1c, 0x26],
            vec![b'X'],
            vec![0x1c, 0x2e],
            vec![0x1b, 0x21, 0x00],
            vec![0x1b, 0x45, 0x00],
            vec![0x1b, 0x2d, 0x00],
            vec![0x1c, 0x2d, 0x00],
            vec![0x1d, 0x42, 0x00],
            vec![0x1b, 0x61, 0x00],
        ]
    );
}

#[test]
fn double_width_alone_uses_the_size_flags() {
    let mut p = JpPrinter::new();
    p.jp_text("X", TextStyle::default().double_width());
    let out = p.output();
    assert_eq!(out.len(), 15);
    assert_eq!(out[5], vec![0x1c, 0x26]);
    assert_eq!(out[6], vec![0x1c, 0x21, 0x04]);
    assert_eq!(out[7], vec![b'X']);
    assert_eq!(out[8], vec![0x1c, 0x21, 0x00]);
    assert_eq!(out[9], vec![0x1c, 0x2e]);
}

#[test]
fn double_height_alone_uses_the_size_flags() {
    let mut p = JpPrinter::new();
    p.jp_text("X", TextStyle::default().double_height());
    let out = p.output();
    assert_eq!(out.len(), 15);
    assert_eq!(out[6], vec![0x1c, 0x21, 0x08]);
    assert_eq!(out[8], vec![0x1c, 0x21, 0x00]);
}

#[test]
fn styled_text_follows_the_order_for_every_style() {
    for style in all_styles() {
        let mut p = JpPrinter::new();
        p.jp_text("領収書 No.1", style);
        assert_eq!(p.output(), &expected_text(&sjis("領収書 No.1"), style));
    }
}

#[test]
fn styled_line_ends_in_one_line_feed_for_every_style() {
    for style in all_styles() {
        let mut p = JpPrinter::new();
        p.jp_textln("合計", style);
        assert_eq!(p.output(), &expected_line("合計", style));
    }
}

#[test]
fn every_styled_text_ends_with_the_style_restored() {
    for style in all_styles() {
        let mut p = JpPrinter::new();
        p.jp_text("x", style);
        let out = p.output();
        let n = out.len();
        assert_eq!(out[n - 1], vec![0x1b, 0x61, 0x00]);
        assert_eq!(out[n - 2], vec![0x1d, 0x42, 0x00]);
        assert_eq!(out[n - 3], vec![0x1c, 0x2d, 0x00]);
        assert_eq!(out[n - 4], vec![0x1b, 0x2d, 0x00]);
        assert_eq!(out[n - 5], vec![0x1b, 0x45, 0x00]);
        let double_on = out.iter().filter(|b| **b == vec![0x1b, 0x21, 0x30]).count();
        let double_off = out.iter().filter(|b| **b == vec![0x1b, 0x21, 0x00]).count();
        assert_eq!(double_on, double_off);
        let mode_on = out.iter().position(|b| *b == vec![0x1c, 0x26]).unwrap();
        let mode_off = out.iter().position(|b| *b == vec![0x1c, 0x2e]).unwrap();
        assert!(mode_on < mode_off);
        let flagged = out.iter().filter(|b| b.len() == 3 && b[0] == 0x1c && b[1] == 0x21).count();
        if flagged > 0 {
            assert_eq!(flagged, 2);
            assert_eq!(out[mode_off - 1], vec![0x1c, 0x21, 0x00]);
        }
    }
}

#[test]
fn encoded_text_takes_the_payload_as_it_is() {
    let mut p = JpPrinter::new();
    p.encoded_text(vec![0x82, 0xa0, 0x41], TextStyle::default().bold());
    assert_eq!(p.output(), &expected_text(&[0x82, 0xa0, 0x41], TextStyle::default().bold()));
    let mut p = JpPrinter::new();
    p.encoded_textln(vec![0x41], TextStyle::default().center());
    let mut expected = expected_text(&[0x41], TextStyle::default().center());
    expected.push(vec![0x0a]);
    assert_eq!(p.output(), &expected);
}

#[test]
fn textln_is_a_plain_line() {
    let mut p = JpPrinter::new();
    p.textln("ひらがな: あいうえお");
    assert_eq!(p.output(), &expected_line("ひらがな: あいうえお", TextStyle::default()));
}

#[test]
fn operations_queue_one_after_the_other() {
    let mut p = JpPrinter::new();
    p.init();
    p.textln("a");
    p.cut();
    let mut expected = vec![
        vec![0x1b, 0x40],
        vec![0x1b, 0x74, 0x02],
        vec![0x1c, 0x43, 0x01],
        vec![0x1d, 0x57, 0x80, 0x01],
    ];
    expected.extend(expected_line("a", TextStyle::default()));
    expected.push(vec![0x1d, 0x56, 0x00]);
    assert_eq!(p.into_output(), expected);
}

#[test]
fn line_repeats_the_hyphen() {
    let mut p = JpPrinter::new();
    p.line(5);
    assert_eq!(p.output(), &expected_line("-----", TextStyle::default()));
    let mut p = JpPrinter::new();
    p.line(0);
    assert_eq!(p.output(), &expected_line("", TextStyle::default()));
}

#[test]
fn double_line_repeats_the_equals_sign() {
    let mut p = JpPrinter::new();
    p.double_line(4);
    assert_eq!(p.output(), &expected_line("====", TextStyle::default()));
}

#[test]
fn separators_span_the_paper() {
    let mut p = JpPrinter::new();
    p.separator();
    assert_eq!(p.output(), &expected_line(&"-".repeat(32), TextStyle::default()));
    let mut p = JpPrinter::with_paper_width(PaperWidth::Mm80);
    p.separator();
    assert_eq!(p.output(), &expected_line(&"-".repeat(48), TextStyle::default()));
    let mut p = JpPrinter::new();
    p.double_separator();
    assert_eq!(p.output(), &expected_line(&"=".repeat(32), TextStyle::default()));
    let mut p = JpPrinter::with_paper_width(PaperWidth::Mm80);
    p.double_separator();
    assert_eq!(p.output(), &expected_line(&"=".repeat(48), TextStyle::default()));
}

#[test]
fn row_fills_the_width_with_spaces() {
    let mut p = JpPrinter::new();
    p.row("A", "B", 10);
    assert_eq!(p.output(), &expected_line(&format!("A{}B", " ".repeat(8)), TextStyle::default()));
    let mut p = JpPrinter::new();
    p.row("ABCDEFGHIJ", "K", 10);
    assert_eq!(p.output(), &expected_line("ABCDEFGHIJK", TextStyle::default()));
}

#[test]
fn row_counts_wide_characters_twice() {
    let mut p = JpPrinter::new();
    p.row("合計", "￥100", 16);
    let row = format!("合計{}￥100", " ".repeat(16 - 4 - 5));
    assert_eq!(p.output(), &expected_line(&row, TextStyle::default()));
}

#[test]
fn row_auto_uses_the_paper_columns() {
    let mut p = JpPrinter::new();
    p.row_auto("ターミナルID:", "T-1");
    let row = format!("ターミナルID:{}T-1", " ".repeat(32 - 13 - 3));
    assert_eq!(p.output(), &expected_line(&row, TextStyle::default()));
    let mut p = JpPrinter::with_paper_width(PaperWidth::Mm80);
    p.row_auto("ターミナルID:", "T-1");
    let row = format!("ターミナルID:{}T-1", " ".repeat(48 - 13 - 3));
    assert_eq!(p.output(), &expected_line(&row, TextStyle::default()));
}

#[test]
fn row_auto_bold_is_the_row_in_bold() {
    let mut p = JpPrinter::new();
    p.row_auto_bold("現金合計:", "￥1,000");
    let row = format!("現金合計:{}￥1,000", " ".repeat(32 - 9 - 7));
    assert_eq!(p.output(), &expected_line(&row, TextStyle::default().bold()));
}

#[test]
fn qr_code_sends_model_size_level_data_print() {
    let mut p = JpPrinter::new();
    p.qr_code("R-001", Some(6));
    assert_eq!(
        p.output(),
        &vec![
            vec![0x1d, 0x28, 0x6b, 0x04, 0x00, 0x31, 0xa5, 0x32, 0x00],
            vec![0x1d, 0x28, 0x6b, 0x03, 0x00, 0x31, 0xa7, 0x06],
            vec![0x1d, 0x28, 0x6b, 0x03, 0x00, 0x31, 0xa9, 0x31],
            vec![0x1d, 0x28, 0x6b, 0x08, 0x00, 0x31, 0xb4, 0x30, b'R', b'-', b'0', b'0', b'1'],
            vec![0x1d, 0x28, 0x6b, 0x03, 0x00, 0x31, 0xb5, 0x30],
        ]
    );
}

#[test]
fn qr_size_defaults_to_four_and_is_clamped() {
    for (given, sent) in [(None, 4u8), (Some(0), 1), (Some(1), 1), (Some(16), 16), (Some(17), 16), (Some(255), 16), (Some(9), 9)] {
        let mut p = JpPrinter::new();
        p.qr_code("x", given);
        assert_eq!(p.output()[1], vec![0x1d, 0x28, 0x6b, 0x03, 0x00, 0x31, 0xa7, sent]);
    }
}

#[test]
fn qr_payload_is_counted_in_utf8_bytes() {
    let mut p = JpPrinter::new();
    p.qr_code("領収", None);
    let store = &p.output()[3];
    assert_eq!(store[3] as usize + 256 * store[4] as usize, 6 + 3);
    assert_eq!(&store[8..], "領収".as_bytes());
}

#[test]
fn qr_code_center_is_framed_by_alignment() {
    let mut p = JpPrinter::new();
    p.qr_code_center("abc", Some(4));
    let mut inner = JpPrinter::new();
    inner.qr_code("abc", Some(4));
    let mut expected = vec![vec![0x1b, 0x61, 0x01]];
    expected.extend(inner.into_output());
    expected.push(vec![0x1b, 0x61, 0x00]);
    assert_eq!(p.output(), &expected);
    assert_eq!(p.output().len(), 7);
}

#[test]
fn barcode_sends_position_height_width_data() {
    let mut p = JpPrinter::new();
    p.barcode_code128("ABC123", None, None);
    assert_eq!(
        p.output(),
        &vec![
            vec![0x1d, 0x48, 0x02],
            vec![0x1d, 0x68, 50],
            vec![0x1d, 0x77, 2],
            vec![0x1d, 0x6b, 0x49, 6, b'A', b'B', b'C', b'1', b'2', b'3'],
        ]
    );
}

#[test]
fn barcode_width_is_clamped_and_height_is_not() {
    for (given, sent) in [(None, 2u8), (Some(0), 2), (Some(2), 2), (Some(4), 4), (Some(6), 6), (Some(7), 6), (Some(200), 6)] {
        let mut p = JpPrinter::new();
        p.barcode_code128("1", Some(0), given);
        assert_eq!(p.output()[1], vec![0x1d, 0x68, 0]);
        assert_eq!(p.output()[2], vec![0x1d, 0x77, sent]);
    }
    let mut p = JpPrinter::new();
    p.barcode_code128("1", Some(255), Some(3));
    assert_eq!(p.output()[1], vec![0x1d, 0x68, 255]);
}

#[test]
fn barcode_center_is_framed_by_alignment() {
    let mut p = JpPrinter::new();
    p.barcode_code128_center("77", Some(80), Some(3));
    assert_eq!(
        p.output(),
        &vec![
            vec![0x1b, 0x61, 0x01],
            vec![0x1d, 0x48, 0x02],
            vec![0x1d, 0x68, 80],
            vec![0x1d, 0x77, 3],
            vec![0x1d, 0x6b, 0x49, 2, b'7', b'7'],
            vec![0x1b, 0x61, 0x00],
        ]
    );
}

#[test]
fn padded_center_splits_the_fill_with_the_odd_space_right() {
    let mut p = JpPrinter::new();
    p.jp_textln_padded("abc", TextStyle::default().center());
    let text = format!("{}abc{}", " ".repeat(14), " ".repeat(15));
    assert_eq!(p.output(), &expected_line(&text, TextStyle::default()));
}

#[test]
fn padded_right_fills_on_the_left() {
    let mut p = JpPrinter::new();
    p.jp_textln_padded("abc", TextStyle::default().right().bold());
    let text = format!("{}abc", " ".repeat(29));
    assert_eq!(p.output(), &expected_line(&text, TextStyle::default().bold()));
}

#[test]
fn padded_left_fills_on_the_right() {
    let mut p = JpPrinter::with_paper_width(PaperWidth::Mm80);
    p.jp_textln_padded("abc", TextStyle::default().reverse());
    let text = format!("abc{}", " ".repeat(45));
    assert_eq!(p.output(), &expected_line(&text, TextStyle::default().reverse()));
}

#[test]
fn padded_double_width_uses_the_wide_columns() {
    let mut p = JpPrinter::new();
    p.jp_textln_padded("ご明細書", TextStyle::default().double().reverse().center());
    let text = format!("{}ご明細書{}", " ".repeat(4), " ".repeat(4));
    assert_eq!(p.output(), &expected_line(&text, TextStyle::default().double().reverse()));

    let mut p = JpPrinter::with_paper_width(PaperWidth::Mm80);
    p.jp_textln_padded("ご明細書", TextStyle::default().double_width().center());
    let text = format!("{}ご明細書{}", " ".repeat(8), " ".repeat(8));
    assert_eq!(p.output(), &expected_line(&text, TextStyle::default().double_width()));
}

#[test]
fn padded_double_height_alone_uses_the_narrow_columns() {
    let mut p = JpPrinter::new();
    p.jp_textln_padded("ab", TextStyle::default().double_height().right());
    let text = format!("{}ab", " ".repeat(30));
    assert_eq!(p.output(), &expected_line(&text, TextStyle::default().double_height()));
}

#[test]
fn padded_text_wider_than_the_line_gets_no_fill() {
    let mut p = JpPrinter::new();
    let long = "あ".repeat(20);
    p.jp_textln_padded(&long, TextStyle::default().center());
    assert_eq!(p.output(), &expected_line(&long, TextStyle::default()));
}
