//! The closing report of a terminal: its record and the commands that
//! print it.

use vstd::prelude::*;
use crate::command::{encode, Command};
use crate::format::{
    format_price, lemma_price_text_len, paper_width_of, parse_paper_width, price_text,
};
use crate::printer::{
    batch_views, bold_row_line, feed_commands, init_commands, padded_line, row_line,
    rule_line, styled_line, JpPrinter,
};
use crate::receipt::{
    bold_style, center_style, fits, non_empty, optional_fits, optional_text_fits, stamp_style,
    text_fits,
};
use crate::style::{Align, PaperWidth, TextStyle};
use crate::text::{concat2, decimal_digits, lemma_decimal_digits_len, push_decimal};

verus! {

/// Count of one denomination of cash.
#[derive(Debug, Clone)]
pub struct DenominationCount {
    pub denomination: u32,
    pub count: u32,
}

/// One voucher taken in payment.
#[derive(Debug, Clone)]
pub struct VoucherCount {
    pub voucher_type: String,
    pub amount: u32,
    pub memo: Option<String>,
}

/// A closing report.
#[derive(Debug, Clone)]
pub struct ClosingReportData {
    pub id: String,
    pub terminal_id: String,
    pub staff_id: String,
    pub staff_name: String,
    pub event_name: Option<String>,
    pub denominations: Vec<DenominationCount>,
    pub cash_total: u32,
    pub vouchers: Vec<VoucherCount>,
    pub voucher_total: u32,
    pub grand_total: u32,
    pub expected_total: u32,
    /// Counted total less expected total.
    pub difference: i32,
    pub transaction_count: u32,
    pub closed_at: String,
}

impl DenominationCount {
    /// The value of the counted pieces fits in 32 bits.
    pub open spec fn printable(self) -> bool {
        self.denomination * self.count <= u32::MAX
    }

    /// Tests whether the count can be printed.
    pub fn is_printable(&self) -> (ok: bool)
        ensures
            ok == self.printable(),
    {
        self.denomination.checked_mul(self.count).is_some()
    }
}

impl VoucherCount {
    /// Kind and memo are short enough.
    pub open spec fn printable(self) -> bool {
        fits(self.voucher_type@) && optional_fits(self.memo)
    }

    /// Tests whether the voucher can be printed.
    pub fn is_printable(&self) -> (ok: bool)
        ensures
            ok == self.printable(),
    {
        text_fits(self.voucher_type.as_str()) && optional_text_fits(&self.memo)
    }
}

impl ClosingReportData {
    /// Every text of the report is short enough, every counted value fits
    /// in 32 bits, and the difference has a magnitude.
    pub open spec fn printable(self) -> bool {
        &&& fits(self.id@)
        &&& fits(self.terminal_id@)
        &&& fits(self.staff_id@)
        &&& fits(self.staff_name@)
        &&& optional_fits(self.event_name)
        &&& fits(self.closed_at@)
        &&& self.difference > i32::MIN
        &&& forall|i: int|
            0 <= i < self.denominations@.len() ==> (#[trigger] self.denominations@[i]).printable()
        &&& forall|i: int|
            0 <= i < self.vouchers@.len() ==> (#[trigger] self.vouchers@[i]).printable()
    }

    /// Tests whether the report can be printed.
    pub fn is_printable(&self) -> (ok: bool)
        ensures
            ok == self.printable(),
    {
        if !(text_fits(self.id.as_str()) && text_fits(self.terminal_id.as_str()) && text_fits(
            self.staff_id.as_str(),
        ) && text_fits(self.staff_name.as_str()) && optional_text_fits(&self.event_name)
            && text_fits(self.closed_at.as_str()) && self.difference > i32::MIN) {
            return false;
        }
        let mut i: usize = 0;
        while i < self.denominations.len()
            invariant
                i <= self.denominations@.len(),
                forall|k: int| 0 <= k < i ==> (#[trigger] self.denominations@[k]).printable(),
            decreases self.denominations@.len() - i,
        {
            if !self.denominations[i].is_printable() {
                return false;
            }
            i = i + 1;
        }
        let mut j: usize = 0;
        while j < self.vouchers.len()
            invariant
                j <= self.vouchers@.len(),
                forall|k: int| 0 <= k < j ==> (#[trigger] self.vouchers@[k]).printable(),
            decreases self.vouchers@.len() - j,
        {
            if !self.vouchers[j].is_printable() {
                return false;
            }
            j = j + 1;
        }
        true
    }
}

/// Bold, centred.
pub open spec fn bold_center_style() -> TextStyle {
    TextStyle { bold: true, align: Align::Center, ..TextStyle::plain() }
}

/// The member of staff: name, and number in brackets.
pub open spec fn staff_text(r: ClosingReportData) -> Seq<char> {
    r.staff_name@ + " ("@ + r.staff_id@ + ")"@
}

/// The label of a denomination: its value and the count.
pub open spec fn denomination_label_text(d: DenominationCount) -> Seq<char> {
    decimal_digits(d.denomination as nat) + "円 x "@ + decimal_digits(d.count as nat)
}

/// The label of a voucher: its kind, and the memo in brackets where there is one.
pub open spec fn voucher_label_text(v: VoucherCount) -> Seq<char> {
    match v.memo {
        Some(memo) => v.voucher_type@ + " ("@ + memo@ + ")"@,
        None => v.voucher_type@,
    }
}

/// The difference with its sign in front of the price of its magnitude.
pub open spec fn difference_text(difference: int) -> Seq<char> {
    if difference >= 0 {
        "+"@ + price_text(difference as nat)
    } else {
        "-"@ + price_text((-difference) as nat)
    }
}

/// The event's name in bold at the centre, where there is one.
pub open spec fn event_commands(r: ClosingReportData) -> Seq<Command> {
    match non_empty(r.event_name) {
        Some(name) => styled_line(name, bold_center_style()),
        None => Seq::<Command>::empty(),
    }
}

/// The head of a report: stamp, event, and the rows that identify it
/// between two rules.
#[verifier::opaque]
pub open spec fn report_head_commands(r: ClosingReportData, w: PaperWidth) -> Seq<Command> {
    let columns = w.spec_chars() as nat;
    padded_line("閉局レポート"@, stamp_style(), w) + styled_line(""@, TextStyle::plain())
        + event_commands(r) + rule_line('-', columns) + row_line("レポートID:"@, r.id@, columns)
        + row_line("端末ID:"@, r.terminal_id@, columns) + row_line(
        "担当者:"@,
        staff_text(r),
        columns,
    ) + row_line("閉局日時:"@, r.closed_at@, columns) + rule_line('-', columns)
}

/// The sales summary: number of transactions and expected total.
#[verifier::opaque]
pub open spec fn summary_commands(r: ClosingReportData, w: PaperWidth) -> Seq<Command> {
    let columns = w.spec_chars() as nat;
    styled_line("【売上サマリー】"@, bold_style()) + row_line(
        "取引件数:"@,
        decimal_digits(r.transaction_count as nat) + "件"@,
        columns,
    ) + row_line("売上合計(税込):"@, price_text(r.expected_total as nat), columns) + rule_line(
        '-',
        columns,
    )
}

/// The row of one denomination; none where nothing of it was counted.
pub open spec fn denomination_commands(d: DenominationCount, w: PaperWidth) -> Seq<Command> {
    if d.count > 0 {
        row_line(
            denomination_label_text(d),
            price_text((d.denomination * d.count) as nat),
            w.spec_chars() as nat,
        )
    } else {
        Seq::<Command>::empty()
    }
}

/// The rows of all denominations, in order.
pub open spec fn denominations_commands(ds: Seq<DenominationCount>, w: PaperWidth) -> Seq<
    Command,
>
    decreases ds.len(),
{
    if ds.len() == 0 {
        Seq::<Command>::empty()
    } else {
        denominations_commands(ds.drop_last(), w) + denomination_commands(ds.last(), w)
    }
}

/// The cash section: heading, denominations, total in bold, rule.
#[verifier::opaque]
pub open spec fn cash_commands(r: ClosingReportData, w: PaperWidth) -> Seq<Command> {
    let columns = w.spec_chars() as nat;
    styled_line("【現金内訳】"@, bold_style()) + denominations_commands(r.denominations@, w)
        + bold_row_line("現金合計:"@, price_text(r.cash_total as nat), columns) + rule_line(
        '-',
        columns,
    )
}

/// The rows of all vouchers, in order.
pub open spec fn vouchers_commands(vs: Seq<VoucherCount>, w: PaperWidth) -> Seq<Command>
    decreases vs.len(),
{
    if vs.len() == 0 {
        Seq::<Command>::empty()
    } else {
        vouchers_commands(vs.drop_last(), w) + row_line(
            voucher_label_text(vs.last()),
            price_text(vs.last().amount as nat),
            w.spec_chars() as nat,
        )
    }
}

/// The voucher section, printed where there is a voucher: heading,
/// vouchers, total in bold, rule.
#[verifier::opaque]
pub open spec fn voucher_section_commands(r: ClosingReportData, w: PaperWidth) -> Seq<Command> {
    let columns = w.spec_chars() as nat;
    if r.vouchers@.len() > 0 {
        styled_line("【商品券等】"@, bold_style()) + vouchers_commands(r.vouchers@, w)
            + bold_row_line("商品券等合計:"@, price_text(r.voucher_total as nat), columns)
            + rule_line('-', columns)
    } else {
        Seq::<Command>::empty()
    }
}

/// The settlement: counted total, expected total and difference, and the
/// closing note.
#[verifier::opaque]
pub open spec fn settlement_commands(r: ClosingReportData, w: PaperWidth) -> Seq<Command> {
    let columns = w.spec_chars() as nat;
    styled_line("【精算】"@, bold_style()) + bold_row_line(
        "実査合計:"@,
        price_text(r.grand_total as nat),
        columns,
    ) + row_line("売上合計:"@, price_text(r.expected_total as nat), columns) + bold_row_line(
        "差異:"@,
        difference_text(r.difference as int),
        columns,
    ) + styled_line(""@, TextStyle::plain()) + rule_line('-', columns) + styled_line(
        "このレポートは閉局処理の記録です"@,
        center_style(),
    )
}

/// All commands of a closing report: set-up, head, summary, cash,
/// vouchers, settlement, three line feeds and a full cut.
pub open spec fn report_commands(r: ClosingReportData, w: PaperWidth) -> Seq<Command> {
    init_commands(w) + report_head_commands(r, w) + summary_commands(r, w) + cash_commands(r, w)
        + voucher_section_commands(r, w) + settlement_commands(r, w) + feed_commands(3)
        + seq![Command::FullCut]
}

/// The difference with its sign in front of the price of its magnitude.
pub fn difference_label(difference: i32) -> (s: String)
    requires
        difference > i32::MIN,
    ensures
        s@ == difference_text(difference as int),
{
    if difference >= 0 {
        let amount = format_price(difference as u32);
        concat2("+", amount.as_str())
    } else {
        let amount = format_price((-difference) as u32);
        concat2("-", amount.as_str())
    }
}

/// The label of a voucher.
pub fn voucher_label(v: &VoucherCount) -> (s: String)
    ensures
        s@ == voucher_label_text(*v),
{
    match &v.memo {
        Some(memo) => {
            let mut s = String::new();
            s.append(v.voucher_type.as_str());
            s.append(" (");
            s.append(memo.as_str());
            s.append(")");
            assert(s@ =~= voucher_label_text(*v));
            s
        },
        None => v.voucher_type.clone(),
    }
}

/// Prints the event's name.
fn print_event(printer: &mut JpPrinter, report: &ClosingReportData)
    requires
        old(printer).wf(),
        report.printable(),
    ensures
        final(printer).wf(),
        final(printer).width() == old(printer).width(),
        final(printer).commands() == old(printer).commands() + event_commands(*report),
{
    match &report.event_name {
        Some(name) => {
            if !name.as_str().is_empty() {
                printer.jp_textln(name.as_str(), TextStyle::default().bold().center());
            } else {
                assert(printer.commands() =~= old(printer).commands() + Seq::<Command>::empty());
            }
        },
        None => {
            assert(printer.commands() =~= old(printer).commands() + Seq::<Command>::empty());
        },
    }
}

/// Prints the head of a report.
fn print_report_head(printer: &mut JpPrinter, report: &ClosingReportData)
    requires
        old(printer).wf(),
        report.printable(),
    ensures
        final(printer).wf(),
        final(printer).width() == old(printer).width(),
        final(printer).commands() == old(printer).commands() + report_head_commands(
            *report,
            old(printer).width(),
        ),
{
    proof {
        reveal_strlit("閉局レポート");
        reveal_strlit("");
        reveal_strlit("レポートID:");
        reveal_strlit("端末ID:");
        reveal_strlit("担当者:");
        reveal_strlit("閉局日時:");
        reveal_strlit(" (");
        reveal_strlit(")");
    }
    printer.jp_textln_padded("閉局レポート", TextStyle::default().double().reverse().center());
    printer.textln("");
    print_event(printer, report);
    printer.separator();
    printer.row_auto("レポートID:", report.id.as_str());
    printer.row_auto("端末ID:", report.terminal_id.as_str());
    let mut staff = String::new();
    staff.append(report.staff_name.as_str());
    staff.append(" (");
    staff.append(report.staff_id.as_str());
    staff.append(")");
    assert(staff@ =~= staff_text(*report));
    printer.row_auto("担当者:", staff.as_str());
    printer.row_auto("閉局日時:", report.closed_at.as_str());
    printer.separator();
    proof {
        reveal(report_head_commands);
    }
    assert(printer.commands() =~= old(printer).commands() + report_head_commands(
        *report,
        old(printer).width(),
    ));
}

/// Prints the sales summary.
fn print_summary(printer: &mut JpPrinter, report: &ClosingReportData)
    requires
        old(printer).wf(),
    ensures
        final(printer).wf(),
        final(printer).width() == old(printer).width(),
        final(printer).commands() == old(printer).commands() + summary_commands(
            *report,
            old(printer).width(),
        ),
{
    proof {
        reveal_strlit("【売上サマリー】");
        reveal_strlit("取引件数:");
        reveal_strlit("件");
        reveal_strlit("売上合計(税込):");
        lemma_decimal_digits_len(report.transaction_count as nat);
        lemma_price_text_len(report.expected_total as nat);
    }
    printer.jp_textln("【売上サマリー】", TextStyle::default().bold());
    let mut count = String::new();
    push_decimal(&mut count, report.transaction_count);
    count.append("件");
    assert(count@ =~= decimal_digits(report.transaction_count as nat) + "件"@);
    printer.row_auto("取引件数:", count.as_str());
    let expected = format_price(report.expected_total);
    printer.row_auto("売上合計(税込):", expected.as_str());
    printer.separator();
    proof {
        reveal(summary_commands);
    }
    assert(printer.commands() =~= old(printer).commands() + summary_commands(
        *report,
        old(printer).width(),
    ));
}

/// Prints the row of one denomination.
fn print_denomination(printer: &mut JpPrinter, d: &DenominationCount)
    requires
        old(printer).wf(),
        d.printable(),
    ensures
        final(printer).wf(),
        final(printer).width() == old(printer).width(),
        final(printer).commands() == old(printer).commands() + denomination_commands(
            *d,
            old(printer).width(),
        ),
{
    if d.count > 0 {
        proof {
            reveal_strlit("円 x ");
            lemma_decimal_digits_len(d.denomination as nat);
            lemma_decimal_digits_len(d.count as nat);
            lemma_price_text_len((d.denomination * d.count) as nat);
        }
        let subtotal: u32 = d.denomination * d.count;
        let mut label = String::new();
        push_decimal(&mut label, d.denomination);
        label.append("円 x ");
        push_decimal(&mut label, d.count);
        assert(label@ =~= denomination_label_text(*d));
        let amount = format_price(subtotal);
        printer.row_auto(label.as_str(), amount.as_str());
    } else {
        assert(printer.commands() =~= old(printer).commands() + Seq::<Command>::empty());
    }
}

/// Prints the cash section.
fn print_cash(printer: &mut JpPrinter, report: &ClosingReportData)
    requires
        old(printer).wf(),
        report.printable(),
    ensures
        final(printer).wf(),
        final(printer).width() == old(printer).width(),
        final(printer).commands() == old(printer).commands() + cash_commands(
            *report,
            old(printer).width(),
        ),
{
    proof {
        reveal_strlit("【現金内訳】");
        reveal_strlit("現金合計:");
        lemma_price_text_len(report.cash_total as nat);
    }
    printer.jp_textln("【現金内訳】", TextStyle::default().bold());
    let ghost start = printer.commands();
    let ghost w = old(printer).width();
    let ds = &report.denominations;
    let mut i: usize = 0;
    assert(printer.commands() =~= start + denominations_commands(ds@.take(0), w));
    while i < ds.len()
        invariant
            i <= ds@.len(),
            printer.wf(),
            printer.width() == w,
            printer.commands() == start + denominations_commands(ds@.take(i as int), w),
            forall|k: int| 0 <= k < ds@.len() ==> (#[trigger] ds@[k]).printable(),
        decreases ds@.len() - i,
    {
        print_denomination(printer, &ds[i]);
        proof {
            let next = ds@.take(i + 1);
            assert(next.drop_last() =~= ds@.take(i as int));
            assert(next.last() == ds@[i as int]);
            assert(printer.commands() =~= start + denominations_commands(next, w));
        }
        i = i + 1;
    }
    assert(ds@.take(i as int) =~= ds@);
    let total = format_price(report.cash_total);
    printer.row_auto_bold("現金合計:", total.as_str());
    printer.separator();
    proof {
        reveal(cash_commands);
    }
    assert(printer.commands() =~= old(printer).commands() + cash_commands(*report, w));
}

/// Prints the voucher section.
fn print_voucher_section(printer: &mut JpPrinter, report: &ClosingReportData)
    requires
        old(printer).wf(),
        report.printable(),
    ensures
        final(printer).wf(),
        final(printer).width() == old(printer).width(),
        final(printer).commands() == old(printer).commands() + voucher_section_commands(
            *report,
            old(printer).width(),
        ),
{
    proof {
        reveal(voucher_section_commands);
    }
    let vs = &report.vouchers;
    if vs.len() == 0 {
        assert(printer.commands() =~= old(printer).commands() + Seq::<Command>::empty());
        return ;
    }
    proof {
        reveal_strlit("【商品券等】");
        reveal_strlit("商品券等合計:");
        reveal_strlit(" (");
        reveal_strlit(")");
        lemma_price_text_len(report.voucher_total as nat);
    }
    printer.jp_textln("【商品券等】", TextStyle::default().bold());
    let ghost start = printer.commands();
    let ghost w = old(printer).width();
    let mut i: usize = 0;
    assert(printer.commands() =~= start + vouchers_commands(vs@.take(0), w));
    while i < vs.len()
        invariant
            i <= vs@.len(),
            printer.wf(),
            printer.width() == w,
            printer.commands() == start + vouchers_commands(vs@.take(i as int), w),
            forall|k: int| 0 <= k < vs@.len() ==> (#[trigger] vs@[k]).printable(),
            " ("@.len() == 2,
            ")"@.len() == 1,
        decreases vs@.len() - i,
    {
        let v = &vs[i];
        let label = voucher_label(v);
        proof {
            lemma_price_text_len(v.amount as nat);
        }
        let amount = format_price(v.amount);
        printer.row_auto(label.as_str(), amount.as_str());
        proof {
            let next = vs@.take(i + 1);
            assert(next.drop_last() =~= vs@.take(i as int));
            assert(next.last() == vs@[i as int]);
            assert(printer.commands() =~= start + vouchers_commands(next, w));
        }
        i = i + 1;
    }
    assert(vs@.take(i as int) =~= vs@);
    let total = format_price(report.voucher_total);
    printer.row_auto_bold("商品券等合計:", total.as_str());
    printer.separator();
    assert(printer.commands() =~= old(printer).commands() + voucher_section_commands(
        *report,
        w,
    ));
}

/// Prints the settlement.
fn print_settlement(printer: &mut JpPrinter, report: &ClosingReportData)
    requires
        old(printer).wf(),
        report.printable(),
    ensures
        final(printer).wf(),
        final(printer).width() == old(printer).width(),
        final(printer).commands() == old(printer).commands() + settlement_commands(
            *report,
            old(printer).width(),
        ),
{
    proof {
        reveal_strlit("【精算】");
        reveal_strlit("実査合計:");
        reveal_strlit("売上合計:");
        reveal_strlit("差異:");
        reveal_strlit("+");
        reveal_strlit("-");
        reveal_strlit("");
        reveal_strlit("このレポートは閉局処理の記録です");
        lemma_price_text_len(report.grand_total as nat);
        lemma_price_text_len(report.expected_total as nat);
        if report.difference >= 0 {
            lemma_price_text_len(report.difference as nat);
        } else {
            lemma_price_text_len((-report.difference) as nat);
        }
    }
    printer.jp_textln("【精算】", TextStyle::default().bold());
    let counted = format_price(report.grand_total);
    printer.row_auto_bold("実査合計:", counted.as_str());
    let expected = format_price(report.expected_total);
    printer.row_auto("売上合計:", expected.as_str());
    let difference = difference_label(report.difference);
    printer.row_auto_bold("差異:", difference.as_str());
    printer.textln("");
    printer.separator();
    printer.jp_textln("このレポートは閉局処理の記録です", TextStyle::default().center());
    proof {
        reveal(settlement_commands);
    }
    assert(printer.commands() =~= old(printer).commands() + settlement_commands(
        *report,
        old(printer).width(),
    ));
}

/// Queues a whole closing report on a printer session.
pub fn queue_closing_report(printer: &mut JpPrinter, report: &ClosingReportData)
    requires
        old(printer).wf(),
        report.printable(),
    ensures
        final(printer).wf(),
        final(printer).width() == old(printer).width(),
        final(printer).commands() == old(printer).commands() + report_commands(
            *report,
            old(printer).width(),
        ),
{
    printer.init();
    print_report_head(printer, report);
    print_summary(printer, report);
    print_cash(printer, report);
    print_voucher_section(printer, report);
    print_settlement(printer, report);
    printer.feed(3);
    printer.cut();
    assert(printer.commands() =~= old(printer).commands() + report_commands(
        *report,
        old(printer).width(),
    ));
}

/// The batches that print a closing report on the paper of the caller's
/// hint, in the order in which they are to be written to the printer.
pub fn print_closing_report(report: &ClosingReportData, paper_width: Option<u8>) -> (out: Vec<
    Vec<u8>,
>)
    requires
        report.printable(),
    ensures
        batch_views(out@) == encode(report_commands(*report, paper_width_of(paper_width))),
{
    let width = parse_paper_width(paper_width);
    let mut printer = JpPrinter::with_paper_width(width);
    queue_closing_report(&mut printer, report);
    assert(printer.commands() =~= report_commands(*report, width));
    printer.into_output()
}

/// The batches that print a closing report, or nothing for a report that
/// cannot be printed.
pub fn try_print_closing_report(report: &ClosingReportData, paper_width: Option<u8>) -> (out:
    Option<Vec<Vec<u8>>>)
    ensures
        match out {
            Some(batches) => report.printable() && batch_views(batches@) == encode(
                report_commands(*report, paper_width_of(paper_width)),
            ),
            None => !report.printable(),
        },
{
    if report.is_printable() {
        Some(print_closing_report(report, paper_width))
    } else {
        None
    }
}

} // verus!
