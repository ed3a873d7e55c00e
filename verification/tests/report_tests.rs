use mizpos_desktop::printer::JpPrinter;
use mizpos_desktop::report::{
    difference_label, print_closing_report, queue_closing_report, try_print_closing_report,
    voucher_label, ClosingReportData, DenominationCount, VoucherCount,
};
use mizpos_desktop::style::{PaperWidth, TextStyle};
use mizpos_desktop::welcome::{text_print, try_text_print, try_welcome_print, welcome_print};

fn report() -> ClosingReportData {
    ClosingReportData {
        id: "CR-0001".to_string(),
        terminal_id: "T-01".to_string(),
        staff_id: "S01".to_string(),
        staff_name: "水野".to_string(),
        event_name: Some("技術書典".to_string()),
        denominations: vec![
            DenominationCount { denomination: 10000, count: 2 },
            DenominationCount { denomination: 5000, count: 0 },
            DenominationCount { denomination: 500, count: 3 },
        ],
        cash_total: 21500,
        vouchers: vec![
            VoucherCount { voucher_type: "図書カード".to_string(), amount: 1000, memo: Some("No.12".to_string()) },
            VoucherCount { voucher_type: "商品券".to_string(), amount: 500, memo: None },
        ],
        voucher_total: 1500,
        grand_total: 23000,
        expected_total: 23500,
        difference: -500,
        transaction_count: 42,
        closed_at: "2025/12/16 18:00".to_string(),
    }
}

fn expected_report(width: PaperWidth) -> Vec<Vec<u8>> {
    let mut p = JpPrinter::with_paper_width(width);
    p.init();
    p.jp_textln_padded("閉局レポート", TextStyle::default().double().reverse().center());
    p.textln("");
    p.jp_textln("技術書典", TextStyle::default().bold().center());
    p.separator();
    p.row_auto("レポートID:", "CR-0001");
    p.row_auto("端末ID:", "T-01");
    p.row_auto("担当者:", "水野 (S01)");
    p.row_auto("閉局日時:", "2025/12/16 18:00");
    p.separator();
    p.jp_textln("【売上サマリー】", TextStyle::default().bold());
    p.row_auto("取引件数:", "42件");
    p.row_auto("売上合計(税込):", "￥23,500");
    p.separator();
    p.jp_textln("【現金内訳】", TextStyle::default().bold());
    p.row_auto("10000円 x 2", "￥20,000");
    p.row_auto("500円 x 3", "￥1,500");
    p.row_auto_bold("現金合計:", "￥21,500");
    p.separator();
    p.jp_textln("【商品券等】", TextStyle::default().bold());
    p.row_auto("図書カード (No.12)", "￥1,000");
    p.row_auto("商品券", "￥500");
    p.row_auto_bold("商品券等合計:", "￥1,500");
    p.separator();
    p.jp_textln("【精算】", TextStyle::default().bold());
    p.row_auto_bold("実査合計:", "￥23,000");
    p.row_auto("売上合計:", "￥23,500");
    p.row_auto_bold("差異:", "-￥500");
    p.textln("");
    p.separator();
    p.jp_textln("このレポートは閉局処理の記録です", TextStyle::default().center());
    p.feed(3);
    p.cut();
    p.into_output()
}

#[test]
fn closing_report_is_printed_operation_by_operation() {
    assert_eq!(print_closing_report(&report(), None), expected_report(PaperWidth::Mm58));
    assert_eq!(print_closing_report(&report(), Some(80)), expected_report(PaperWidth::Mm80));
}

#[test]
fn closing_report_without_vouchers_and_event() {
    let mut r = report();
    r.vouchers = vec![];
    r.event_name = Some(String::new());
    r.denominations = vec![];
    r.difference = 0;
    let mut p = JpPrinter::new();
    p.init();
    p.jp_textln_padded("閉局レポート", TextStyle::default().double().reverse().center());
    p.textln("");
    p.separator();
    p.row_auto("レポートID:", "CR-0001");
    p.row_auto("端末ID:", "T-01");
    p.row_auto("担当者:", "水野 (S01)");
    p.row_auto("閉局日時:", "2025/12/16 18:00");
    p.separator();
    p.jp_textln("【売上サマリー】", TextStyle::default().bold());
    p.row_auto("取引件数:", "42件");
    p.row_auto("売上合計(税込):", "￥23,500");
    p.separator();
    p.jp_textln("【現金内訳】", TextStyle::default().bold());
    p.row_auto_bold("現金合計:", "￥21,500");
    p.separator();
    p.jp_textln("【精算】", TextStyle::default().bold());
    p.row_auto_bold("実査合計:", "￥23,000");
    p.row_auto("売上合計:", "￥23,500");
    p.row_auto_bold("差異:", "+￥0");
    p.textln("");
    p.separator();
    p.jp_textln("このレポートは閉局処理の記録です", TextStyle::default().center());
    p.feed(3);
    p.cut();
    assert_eq!(print_closing_report(&r, None), p.into_output());
    r.event_name = None;
    assert_eq!(print_closing_report(&r, None).len(), {
        let mut r2 = report();
        r2.vouchers = vec![];
        r2.event_name = Some(String::new());
        r2.denominations = vec![];
        print_closing_report(&r2, None).len()
    });
}

#[test]
fn queue_closing_report_appends_to_a_session() {
    let mut p = JpPrinter::new();
    p.cut();
    queue_closing_report(&mut p, &report());
    let mut expected = vec![vec![0x1d, 0x56, 0x00]];
    expected.extend(expected_report(PaperWidth::Mm58));
    assert_eq!(p.into_output(), expected);
}

#[test]
fn difference_carries_its_sign() {
    assert_eq!(difference_label(0), "+￥0");
    assert_eq!(difference_label(500), "+￥500");
    assert_eq!(difference_label(-500), "-￥500");
    assert_eq!(difference_label(-1234567), "-￥1,234,567");
    assert_eq!(difference_label(i32::MAX), "+￥2,147,483,647");
    assert_eq!(difference_label(i32::MIN + 1), "-￥2,147,483,647");
}

#[test]
fn voucher_label_has_the_memo_in_brackets() {
    let v = VoucherCount { voucher_type: "図書カード".to_string(), amount: 1, memo: Some("A".to_string()) };
    assert_eq!(voucher_label(&v), "図書カード (A)");
    let v = VoucherCount { voucher_type: "図書カード".to_string(), amount: 1, memo: Some(String::new()) };
    assert_eq!(voucher_label(&v), "図書カード ()");
    let v = VoucherCount { voucher_type: "図書カード".to_string(), amount: 1, memo: None };
    assert_eq!(voucher_label(&v), "図書カード");
}

#[test]
fn report_is_printable_unless_a_value_is_out_of_range() {
    assert!(report().is_printable());
    let mut r = report();
    r.difference = i32::MIN;
    assert!(!r.is_printable());
    let mut r = report();
    r.denominations.push(DenominationCount { denomination: 65536, count: 65536 });
    assert!(!r.is_printable());
    let mut r = report();
    r.denominations.push(DenominationCount { denomination: 65535, count: 65537 });
    assert!(r.is_printable());
    let mut r = report();
    r.vouchers[1].memo = Some("x".repeat(70000));
    assert!(!r.is_printable());
    let mut r = report();
    r.staff_name = "x".repeat(70000);
    assert!(!r.is_printable());
}

#[test]
fn denomination_count_is_printable_while_its_value_fits() {
    assert!(DenominationCount { denomination: 0, count: u32::MAX }.is_printable());
    assert!(DenominationCount { denomination: u32::MAX, count: 1 }.is_printable());
    assert!(!DenominationCount { denomination: u32::MAX, count: 2 }.is_printable());
}

#[test]
fn welcome_print_is_printed_operation_by_operation() {
    let mut p = JpPrinter::new();
    p.init();
    p.jp_textln("WELCOME TO mizPOS", TextStyle::default().bold().underline().center());
    p.textln("");
    p.jp_textln("mizPOS デスクトップターミナル", TextStyle::default().center());
    p.jp_textln("接続テスト完了", TextStyle::default().center());
    p.textln("");
    p.separator();
    p.row_auto("ターミナルID:", "T-01");
    p.separator();
    p.textln("");
    p.jp_textln("日本語印刷テスト", TextStyle::default().bold());
    p.textln("ひらがな: あいうえお");
    p.textln("カタカナ: アイウエオ");
    p.textln("漢字: 東京都渋谷区");
    p.textln("");
    p.feed(3);
    p.cut();
    assert_eq!(welcome_print("T-01", None), p.into_output());
}

#[test]
fn welcome_print_on_wide_paper_has_wide_rules() {
    let out = welcome_print("T-01", Some(80));
    assert_eq!(out[3], vec![0x1d, 0x57, 0x40, 0x02]);
    assert!(out.iter().any(|b| *b == vec![b'-'; 48]));
    assert!(!out.iter().any(|b| *b == vec![b'-'; 32]));
}

#[test]
fn text_print_is_set_up_line_feed_and_cut() {
    let mut p = JpPrinter::new();
    p.init();
    p.textln("こんにちは");
    p.feed(3);
    p.cut();
    assert_eq!(text_print("こんにちは", None), p.into_output());
    let out = text_print("", Some(80));
    assert_eq!(out.len(), 4 + 14 + 3 + 1);
    assert_eq!(out[3], vec![0x1d, 0x57, 0x40, 0x02]);
}

#[test]
fn try_print_closing_report_prints_what_is_printable() {
    assert_eq!(try_print_closing_report(&report(), None), Some(print_closing_report(&report(), None)));
    let mut r = report();
    r.difference = i32::MIN;
    assert_eq!(try_print_closing_report(&r, None), None);
}

#[test]
fn try_welcome_and_text_print_refuse_what_is_too_long() {
    assert_eq!(try_welcome_print("T-01", None), Some(welcome_print("T-01", None)));
    assert_eq!(try_welcome_print(&"x".repeat(65537), None), None);
    assert_eq!(try_text_print("abc", Some(80)), Some(text_print("abc", Some(80))));
    assert_eq!(try_text_print(&"x".repeat(0x10_0000), None).map(|b| b.len()), Some(22));
    assert_eq!(try_text_print(&"x".repeat(0x10_0001), None), None);
}
