use mizpos_desktop::format::{
    format_book_number, format_price, format_transaction_datetime, fullwidth_char,
    parse_paper_width, parse_zero_padded, to_fullwidth_digits, to_fullwidth_number,
};
use mizpos_desktop::style::PaperWidth;

#[test]
fn paper_width_hint_selects_the_paper() {
    assert_eq!(parse_paper_width(Some(80)), PaperWidth::Mm80);
    assert_eq!(parse_paper_width(Some(58)), PaperWidth::Mm58);
    assert_eq!(parse_paper_width(None), PaperWidth::Mm58);
    assert_eq!(parse_paper_width(Some(0)), PaperWidth::Mm58);
    assert_eq!(parse_paper_width(Some(79)), PaperWidth::Mm58);
    assert_eq!(parse_paper_width(Some(255)), PaperWidth::Mm58);
}

#[test]
fn price_has_sign_and_thousands_separators() {
    assert_eq!(format_price(0), "￥0");
    assert_eq!(format_price(7), "￥7");
    assert_eq!(format_price(16), "￥16");
    assert_eq!(format_price(999), "￥999");
    assert_eq!(format_price(1000), "￥1,000");
    assert_eq!(format_price(1205), "￥1,205");
    assert_eq!(format_price(10001), "￥10,001");
    assert_eq!(format_price(100000), "￥100,000");
    assert_eq!(format_price(1234567), "￥1,234,567");
    assert_eq!(format_price(1000000000), "￥1,000,000,000");
    assert_eq!(format_price(u32::MAX), "￥4,294,967,295");
}

#[test]
fn price_sign_is_the_full_width_yen() {
    assert_eq!(format_price(1).chars().next(), Some('\u{ffe5}'));
}

#[test]
fn fullwidth_number_of_1205() {
    let s = to_fullwidth_number(1205);
    let points: Vec<u32> = s.chars().map(|c| c as u32).collect();
    assert_eq!(points, vec![0xff11, 0xff12, 0xff10, 0xff15]);
    assert_eq!(s, "１２０５");
}

#[test]
fn fullwidth_number_covers_every_digit() {
    assert_eq!(to_fullwidth_number(0), "０");
    assert_eq!(to_fullwidth_number(1234567890), "１２３４５６７８９０");
    assert_eq!(to_fullwidth_number(u32::MAX), "４２９４９６７２９５");
}

#[test]
fn fullwidth_digits_leave_other_characters_alone() {
    assert_eq!(to_fullwidth_digits("￥1,205"), "￥１,２０５");
    assert_eq!(to_fullwidth_digits("abc-+/: 円"), "abc-+/: 円");
    assert_eq!(to_fullwidth_digits(""), "");
    assert_eq!(to_fullwidth_digits("１2"), "１２");
}

#[test]
fn fullwidth_char_maps_digits_only() {
    assert_eq!(fullwidth_char('0'), '０');
    assert_eq!(fullwidth_char('9'), '９');
    assert_eq!(fullwidth_char('/'), '/');
    assert_eq!(fullwidth_char(':'), ':');
    assert_eq!(fullwidth_char('a'), 'a');
    assert_eq!(fullwidth_char('０'), '０');
}

#[test]
fn zero_padded_field_is_read_as_a_number() {
    assert_eq!(parse_zero_padded("0160"), 160);
    assert_eq!(parse_zero_padded("0016"), 16);
    assert_eq!(parse_zero_padded("1600"), 1600);
    assert_eq!(parse_zero_padded("9999"), 9999);
    assert_eq!(parse_zero_padded("0001"), 1);
    assert_eq!(parse_zero_padded("7"), 7);
    assert_eq!(parse_zero_padded("4294967295"), 4294967295);
    assert_eq!(parse_zero_padded("0000004294967295"), 4294967295);
}

#[test]
fn zero_padded_field_that_is_no_number_is_zero() {
    assert_eq!(parse_zero_padded("0000"), 0);
    assert_eq!(parse_zero_padded(""), 0);
    assert_eq!(parse_zero_padded("01a0"), 0);
    assert_eq!(parse_zero_padded("abcd"), 0);
    assert_eq!(parse_zero_padded("12 3"), 0);
    assert_eq!(parse_zero_padded("-123"), 0);
    assert_eq!(parse_zero_padded("+"), 0);
    assert_eq!(parse_zero_padded("０１２３"), 0);
    assert_eq!(parse_zero_padded("4294967296"), 0);
    assert_eq!(parse_zero_padded("99999999999"), 0);
}

#[test]
fn zero_padded_field_takes_a_plus_sign_behind_the_zeros() {
    assert_eq!(parse_zero_padded("0+16"), 16);
    assert_eq!(parse_zero_padded("+123"), 123);
    assert_eq!(parse_zero_padded("+007"), 7);
    assert_eq!(parse_zero_padded("++12"), 0);
    assert_eq!(parse_zero_padded("1+12"), 0);
}

#[test]
fn zero_padded_field_reads_as_the_standard_parser_does() {
    for field in ["0160", "0000", "0+16", "+", "", "12a", "4294967295", "4294967296", "00+0", "-1", "+-1"] {
        let expected: u32 = field.trim_start_matches('0').parse().unwrap_or(0);
        assert_eq!(parse_zero_padded(field), expected);
    }
}

#[test]
fn book_number_of_the_example_code() {
    let shown = format_book_number(&Some("JAN1".to_string()), &Some("1920094001600".to_string()));
    assert_eq!(shown, Some("JAN1 C0094 ￥160".to_string()));
}

#[test]
fn book_number_with_a_price_of_sixteen() {
    let shown = format_book_number(&Some("JAN1".to_string()), &Some("1920094000160".to_string()));
    assert_eq!(shown, Some("JAN1 C0094 ￥16".to_string()));
}

#[test]
fn book_number_groups_a_price_of_thousands() {
    let shown = format_book_number(&Some("ISDN278".to_string()), &Some("1920979012004".to_string()));
    assert_eq!(shown, Some("ISDN278 C0979 ￥1,200".to_string()));
}

#[test]
fn book_number_of_twelve_characters_is_enough() {
    let shown = format_book_number(&Some("X".to_string()), &Some("192009400050".to_string()));
    assert_eq!(shown, Some("X C0094 ￥50".to_string()));
}

#[test]
fn book_number_needs_twelve_characters() {
    assert_eq!(format_book_number(&Some("JAN1".to_string()), &Some("19200940016".to_string())), None);
    assert_eq!(format_book_number(&Some("JAN1".to_string()), &Some("".to_string())), None);
    assert_eq!(format_book_number(&Some("JAN1".to_string()), &Some("192".to_string())), None);
}

#[test]
fn book_number_needs_identifier_and_code() {
    assert_eq!(format_book_number(&None, &Some("1920094001600".to_string())), None);
    assert_eq!(format_book_number(&Some("JAN1".to_string()), &None), None);
    assert_eq!(format_book_number(&None, &None), None);
    assert_eq!(format_book_number(&Some("".to_string()), &Some("1920094001600".to_string())), None);
}

#[test]
fn book_number_with_a_price_that_is_no_number_shows_zero() {
    let shown = format_book_number(&Some("A".to_string()), &Some("19200940ab000".to_string()));
    assert_eq!(shown, Some("A C0094 ￥0".to_string()));
}

#[test]
fn datetime_is_cut_and_slashed() {
    assert_eq!(format_transaction_datetime("2025-12-16T10:30:00.000Z"), "2025/12/16 10:30");
    assert_eq!(format_transaction_datetime("2025-12-16T10:30:00Z"), "2025/12/16 10:30");
    assert_eq!(format_transaction_datetime("2025-12-16T10:30"), "2025/12/16 10:30");
    assert_eq!(format_transaction_datetime("2025-12-16 23:59:59"), "2025/12/16 23:59");
}

#[test]
fn datetime_shorter_than_sixteen_is_kept() {
    assert_eq!(format_transaction_datetime("2025-12-16T10:3"), "2025-12-16T10:3");
    assert_eq!(format_transaction_datetime("2025-12-16"), "2025-12-16");
    assert_eq!(format_transaction_datetime(""), "");
}

#[test]
fn datetime_replaces_hyphens_in_the_date_only() {
    assert_eq!(format_transaction_datetime("----------T--:--:--"), "////////// --:--");
    assert_eq!(format_transaction_datetime("abcdefghijKlmnopqrs"), "abcdefghij lmnop");
}

#[test]
fn book_number_counts_characters_not_bytes() {
    let shown = format_book_number(
        &Some("あ".to_string()),
        &Some("１９２００９４００１６００".to_string()),
    );
    assert_eq!(shown, Some("あ C００９４ ￥0".to_string()));
    let shown = format_book_number(&Some("A".to_string()), &Some("あいう0094え0160".to_string()));
    assert_eq!(shown, Some("A C0094 ￥160".to_string()));
    assert_eq!(format_book_number(&Some("A".to_string()), &Some("あいうえ".to_string())), None);
}

#[test]
fn datetime_counts_characters_not_bytes() {
    assert_eq!(format_transaction_datetime("２０２５-12-16T10:30:00"), "２０２５/12/16 10:30");
    assert_eq!(format_transaction_datetime("令和七年十二月"), "令和七年十二月");
}
