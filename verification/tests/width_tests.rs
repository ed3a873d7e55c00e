use mizpos_desktop::style::{Align, PaperWidth, TextStyle};
use mizpos_desktop::width::{char_width, print_width};

#[test]
fn ascii_text_is_as_wide_as_it_is_long() {
    for text in ["", "A", "hello world", "0123456789", "~\u{7f}\u{0}"] {
        assert_eq!(print_width(text), text.chars().count());
    }
}

#[test]
fn wide_text_is_twice_as_wide_as_it_is_long() {
    for text in ["あ", "日本語印刷テスト", "￥", "é", "\u{80}", "😀😀"] {
        assert_eq!(print_width(text), 2 * text.chars().count());
    }
}

#[test]
fn mixed_text_adds_both_kinds() {
    assert_eq!(print_width("合計(税込)"), 2 + 2 + 1 + 2 + 2 + 1);
    assert_eq!(print_width("ターミナルID:"), 5 * 2 + 3);
}

#[test]
fn char_width_turns_at_the_end_of_ascii() {
    assert_eq!(char_width('\u{0}'), 1);
    assert_eq!(char_width('a'), 1);
    assert_eq!(char_width('\u{7f}'), 1);
    assert_eq!(char_width('\u{80}'), 2);
    assert_eq!(char_width('あ'), 2);
    assert_eq!(char_width('\u{10ffff}'), 2);
}

#[test]
fn paper_widths_fix_dots_and_columns() {
    assert_eq!(PaperWidth::Mm58.dots(), 384);
    assert_eq!(PaperWidth::Mm58.chars(), 32);
    assert_eq!(PaperWidth::Mm58.chars_jp(), 16);
    assert_eq!(PaperWidth::Mm80.dots(), 576);
    assert_eq!(PaperWidth::Mm80.chars(), 48);
    assert_eq!(PaperWidth::Mm80.chars_jp(), 24);
}

#[test]
fn default_paper_is_the_narrow_one() {
    assert_eq!(PaperWidth::default(), PaperWidth::Mm58);
}

#[test]
fn default_style_is_plain_and_left() {
    let s = TextStyle::default();
    assert!(!s.bold && !s.underline && !s.double_width && !s.double_height && !s.reverse);
    assert_eq!(s.align, Align::Left);
}

#[test]
fn style_builders_set_one_thing_each() {
    let s = TextStyle::default().bold();
    assert!(s.bold && !s.underline && !s.double_width && !s.double_height && !s.reverse);
    let s = TextStyle::default().underline();
    assert!(!s.bold && s.underline && !s.double_width && !s.double_height && !s.reverse);
    let s = TextStyle::default().double_width();
    assert!(!s.bold && !s.underline && s.double_width && !s.double_height && !s.reverse);
    let s = TextStyle::default().double_height();
    assert!(!s.bold && !s.underline && !s.double_width && s.double_height && !s.reverse);
    let s = TextStyle::default().reverse();
    assert!(!s.bold && !s.underline && !s.double_width && !s.double_height && s.reverse);
    assert_eq!(TextStyle::default().center().align, Align::Center);
    assert_eq!(TextStyle::default().right().align, Align::Right);
    assert_eq!(TextStyle::default().right().align(Align::Left).align, Align::Left);
}

#[test]
fn double_sets_width_and_height() {
    let s = TextStyle::default().double();
    assert!(s.double_width && s.double_height && !s.bold && !s.reverse);
    assert_eq!(s.align, Align::Left);
}

#[test]
fn style_builders_keep_what_was_set() {
    let s = TextStyle::default().bold().underline().center().reverse().double();
    assert!(s.bold && s.underline && s.reverse && s.double_width && s.double_height);
    assert_eq!(s.align, Align::Center);
}
