//! The sales receipt: its record, the texts of its lines, and the commands
//! that print it.

use vstd::prelude::*;
use vstd::utf8::encode_utf8;
use crate::command::{encode, Command};
use crate::format::{
    book_number_text, datetime_text, format_book_number, format_price,
    format_transaction_datetime, fullwidth_text, lemma_price_text_len, paper_width_of,
    parse_paper_width, price_text, to_fullwidth_digits,
};
use crate::layout::fill;
use crate::printer::{
    batch_views, bold_row_line, centered, feed_commands, init_commands, padded_line,
    qr_commands, row_line, rule_line, styled_line, JpPrinter,
};
use crate::style::{Align, PaperWidth, TextStyle};
use crate::text::{
    chars_of, concat2, decimal_digits, digit, digit_char, lemma_decimal_digits_len,
    lowercase, optional_view, push_chars, push_decimal, str_eq, to_lowercase,
};

verus! {

/// Longest text field of a record, in characters, that can be printed.
pub const MAX_FIELD_CHARS: usize = 0x1_0000;

/// True when a text is short enough to be printed as a field.
pub open spec fn fits(s: Seq<char>) -> bool {
    s.len() <= MAX_FIELD_CHARS
}

/// True when an optional text, if there is one, is short enough.
pub open spec fn optional_fits(s: Option<String>) -> bool {
    match s {
        Some(t) => fits(t@),
        None => true,
    }
}

/// Tests whether a text is short enough to be printed as a field.
pub fn text_fits(s: &str) -> (ok: bool)
    ensures
        ok == fits(s@),
{
    s.unicode_len() <= MAX_FIELD_CHARS
}

/// Tests whether an optional text, if there is one, is short enough.
pub fn optional_text_fits(s: &Option<String>) -> (ok: bool)
    ensures
        ok == optional_fits(*s),
{
    match s {
        Some(t) => text_fits(t.as_str()),
        None => true,
    }
}

/// One line item of a receipt.
#[derive(Debug, Clone)]
pub struct ReceiptItem {
    /// Name of the publishing circle.
    pub circle_name: String,
    /// Name of the article.
    pub name: String,
    /// Primary identifier.
    pub jan: String,
    pub isbn: String,
    /// Identifier shown for a book.
    pub isdn: Option<String>,
    /// Secondary code of a book: category code and price.
    pub jan2: Option<String>,
    pub is_book: bool,
    pub quantity: u32,
    /// Price of the whole line: unit price times quantity.
    pub price: u32,
}

/// One payment of a receipt.
#[derive(Debug, Clone)]
pub struct PaymentInfo {
    /// Name of the payment method.
    pub method: String,
    pub amount: u32,
}

/// Details of a card transaction, for the card slip.
#[derive(Debug, Clone)]
pub struct CardDetails {
    pub brand: Option<String>,
    pub last4: Option<String>,
    pub exp_month: Option<u32>,
    pub exp_year: Option<u32>,
    pub cardholder_name: Option<String>,
    pub funding: Option<String>,
    pub terminal_serial_number: Option<String>,
    pub merchant_name: Option<String>,
    /// `sale` or `refund`.
    pub transaction_type: Option<String>,
    pub payment_type: Option<String>,
    /// Date and time of the transaction, as `YYYY-MM-DDThh:mm...`.
    pub transaction_at: Option<String>,
}

/// A receipt.
#[derive(Debug, Clone)]
pub struct ReceiptData {
    pub event_name: String,
    pub circle_name: Option<String>,
    pub venue_address: Option<String>,
    pub sale_start_date_time: Option<String>,
    pub staff_id: String,
    pub customer_name: Option<String>,
    pub items: Vec<ReceiptItem>,
    pub total: u32,
    pub payments: Vec<PaymentInfo>,
    pub tax_rate: u32,
    pub tax_amount: u32,
    pub receipt_number: String,
    pub card_details: Option<CardDetails>,
    pub payment_intent_id: Option<String>,
}

/// The code shown for an item: the display code of a book where the item
/// is one and has it, else the primary identifier.
pub open spec fn display_number_text(item: ReceiptItem) -> Seq<char> {
    if item.is_book {
        match book_number_text(item.isdn, item.jan2) {
            Some(code) => code,
            None => item.jan@,
        }
    } else {
        item.jan@
    }
}

/// The unit price shown for an item: the line price divided by the
/// quantity, or the line price itself where the quantity is zero.
pub open spec fn unit_price_of(item: ReceiptItem) -> nat {
    if item.quantity > 0 {
        (item.price / item.quantity) as nat
    } else {
        item.price as nat
    }
}

/// The line of an item with unit price, quantity and line price.
pub open spec fn unit_line_text(item: ReceiptItem) -> Seq<char> {
    "@ "@ + price_text(unit_price_of(item)) + "\u{3000} "@ + decimal_digits(item.quantity as nat)
        + " 点\u{3000}"@ + price_text(item.price as nat)
}

/// Amount of the first cash payment, if there is one.
pub open spec fn cash_amount(payments: Seq<PaymentInfo>) -> Option<nat>
    decreases payments.len(),
{
    if payments.len() == 0 {
        None
    } else if payments[0].method@ == "現金"@ {
        Some(payments[0].amount as nat)
    } else {
        cash_amount(payments.drop_first())
    }
}

/// Change due: what the first cash payment exceeds the total by, never
/// negative, and nothing without a cash payment.
pub open spec fn change_due_of(payments: Seq<PaymentInfo>, total: nat) -> nat {
    match cash_amount(payments) {
        Some(amount) => fill(amount, total),
        None => 0,
    }
}

/// Number of a card payment as shown on the slip: one of more than sixteen
/// characters is cut to its last twelve behind three dots.
pub open spec fn slip_id_text(id: Seq<char>) -> Seq<char> {
    if id.len() > 16 {
        "..."@ + id.subrange(id.len() - 12, id.len() as int)
    } else {
        id
    }
}

/// Kind of a card transaction as shown on the slip; a sale where none is given.
pub open spec fn transaction_type_text(kind: Option<String>) -> Seq<char> {
    let given = match kind {
        Some(k) => k@,
        None => "sale"@,
    };
    if given == "sale"@ {
        "売上"@
    } else if given == "refund"@ {
        "返品"@
    } else {
        given
    }
}

/// Name of a card brand as shown on the slip, chosen by the lower-case
/// form of the brand; an unknown brand is shown as given.
pub open spec fn brand_text(brand: Seq<char>, lowered: Seq<char>) -> Seq<char> {
    if lowered == "visa"@ {
        "VISA"@
    } else if lowered == "mastercard"@ || lowered == "mc"@ {
        "MasterCard"@
    } else if lowered == "amex"@ || lowered == "american_express"@ {
        "AMEX"@
    } else if lowered == "jcb"@ {
        "JCB"@
    } else if lowered == "diners"@ || lowered == "diners_club"@ {
        "Diners Club"@
    } else if lowered == "discover"@ {
        "Discover"@
    } else if lowered == "unionpay"@ {
        "UnionPay"@
    } else {
        brand
    }
}

/// A number in at least two digits, with a leading zero below ten.
pub open spec fn two_digits(n: nat) -> Seq<char> {
    if n < 10 {
        seq!['0', digit_char(n)]
    } else {
        decimal_digits(n)
    }
}

/// Expiry of a card: month and the last two digits of the year.
pub open spec fn expiry_text(month: nat, year: nat) -> Seq<char> {
    two_digits(month) + seq!['/'] + two_digits(year % 100)
}

/// The line with the time of sale and the member of staff.
pub fn staff_line(receipt: &ReceiptData) -> (s: String)
    ensures
        s@ == staff_line_text(*receipt),
{
    match &receipt.sale_start_date_time {
        Some(at) => {
            let mut line = String::new();
            line.append(at.as_str());
            line.append(" 責: ");
            line.append(receipt.staff_id.as_str());
            assert(line@ =~= staff_line_text(*receipt));
            line
        },
        None => concat2("責: ", receipt.staff_id.as_str()),
    }
}

/// The code shown for an item.
pub fn display_number(item: &ReceiptItem) -> (s: String)
    ensures
        s@ == display_number_text(*item),
{
    if item.is_book {
        match format_book_number(&item.isdn, &item.jan2) {
            Some(code) => code,
            None => item.jan.clone(),
        }
    } else {
        item.jan.clone()
    }
}

/// The unit price shown for an item.
pub fn unit_price(item: &ReceiptItem) -> (p: u32)
    ensures
        p == unit_price_of(*item),
{
    if item.quantity > 0 {
        item.price / item.quantity
    } else {
        item.price
    }
}

/// The line of an item with unit price, quantity and line price.
pub fn unit_line(item: &ReceiptItem) -> (s: String)
    ensures
        s@ == unit_line_text(*item),
{
    let unit = format_price(unit_price(item));
    let line_price = format_price(item.price);
    let mut s = String::new();
    s.append("@ ");
    s.append(unit.as_str());
    s.append("\u{3000} ");
    push_decimal(&mut s, item.quantity);
    s.append(" 点\u{3000}");
    s.append(line_price.as_str());
    assert(s@ =~= unit_line_text(*item));
    s
}

/// Change due on a receipt.
pub fn change_due(payments: &Vec<PaymentInfo>, total: u32) -> (change: u32)
    ensures
        change == change_due_of(payments@, total as nat),
{
    let mut i: usize = 0;
    assert(payments@.skip(0) =~= payments@);
    while i < payments.len()
        invariant
            i <= payments@.len(),
            cash_amount(payments@) == cash_amount(payments@.skip(i as int)),
        decreases payments@.len() - i,
    {
        let payment = &payments[i];
        proof {
            let rest = payments@.skip(i as int);
            assert(rest[0] == payments@[i as int]);
            assert(rest.drop_first() =~= payments@.skip(i + 1));
        }
        if str_eq(payment.method.as_str(), "現金") {
            return payment.amount.saturating_sub(total);
        }
        i = i + 1;
    }
    0
}

/// Number of a card payment as shown on the slip.
pub fn slip_id(id: &str) -> (s: String)
    ensures
        s@ == slip_id_text(id@),
{
    let chars = chars_of(id);
    let len = chars.len();
    if len > 16 {
        let mut s = String::new();
        s.append("...");
        push_chars(&mut s, &chars, len - 12, len);
        s
    } else {
        id.to_owned()
    }
}

/// Kind of a card transaction as shown on the slip.
pub fn transaction_type_label(kind: &Option<String>) -> (s: String)
    ensures
        s@ == transaction_type_text(*kind),
{
    let given: &str = match kind {
        Some(k) => k.as_str(),
        None => "sale",
    };
    if str_eq(given, "sale") {
        "売上".to_owned()
    } else if str_eq(given, "refund") {
        "返品".to_owned()
    } else {
        given.to_owned()
    }
}

/// Name of a card brand as shown on the slip, for a brand and its
/// lower-case form.
pub fn brand_display(brand: &str, lowered: &str) -> (s: String)
    ensures
        s@ == brand_text(brand@, lowered@),
{
    if str_eq(lowered, "visa") {
        "VISA".to_owned()
    } else if str_eq(lowered, "mastercard") || str_eq(lowered, "mc") {
        "MasterCard".to_owned()
    } else if str_eq(lowered, "amex") || str_eq(lowered, "american_express") {
        "AMEX".to_owned()
    } else if str_eq(lowered, "jcb") {
        "JCB".to_owned()
    } else if str_eq(lowered, "diners") || str_eq(lowered, "diners_club") {
        "Diners Club".to_owned()
    } else if str_eq(lowered, "discover") {
        "Discover".to_owned()
    } else if str_eq(lowered, "unionpay") {
        "UnionPay".to_owned()
    } else {
        brand.to_owned()
    }
}

/// Appends a number in at least two digits.
fn push_two_digits(s: &mut String, n: u32)
    ensures
        final(s)@ == old(s)@ + two_digits(n as nat),
{
    if n < 10 {
        s.push('0');
        s.push(digit(n as u8));
        assert(s@ =~= old(s)@ + two_digits(n as nat));
    } else {
        push_decimal(s, n);
    }
}

/// Expiry of a card: month and the last two digits of the year.
pub fn expiry(month: u32, year: u32) -> (s: String)
    ensures
        s@ == expiry_text(month as nat, year as nat),
{
    let mut s = String::new();
    push_two_digits(&mut s, month);
    s.push('/');
    push_two_digits(&mut s, year % 100);
    assert(s@ =~= expiry_text(month as nat, year as nat));
    s
}

impl ReceiptItem {
    /// Every text of the item that is printed is short enough.
    pub open spec fn printable(self) -> bool {
        &&& fits(self.circle_name@)
        &&& fits(self.name@)
        &&& fits(self.jan@)
        &&& optional_fits(self.isdn)
    }

    /// Tests whether the item can be printed.
    pub fn is_printable(&self) -> (ok: bool)
        ensures
            ok == self.printable(),
    {
        text_fits(self.circle_name.as_str()) && text_fits(self.name.as_str()) && text_fits(
            self.jan.as_str(),
        ) && optional_text_fits(&self.isdn)
    }
}

impl PaymentInfo {
    /// The name of the method is short enough.
    pub open spec fn printable(self) -> bool {
        fits(self.method@)
    }

    /// Tests whether the payment can be printed.
    pub fn is_printable(&self) -> (ok: bool)
        ensures
            ok == self.printable(),
    {
        text_fits(self.method.as_str())
    }
}

impl CardDetails {
    /// Every text of the slip is short enough.
    pub open spec fn printable(self) -> bool {
        &&& optional_fits(self.brand)
        &&& optional_fits(self.last4)
        &&& optional_fits(self.terminal_serial_number)
        &&& optional_fits(self.merchant_name)
        &&& optional_fits(self.transaction_type)
        &&& optional_fits(self.payment_type)
        &&& optional_fits(self.transaction_at)
    }

    /// Tests whether the slip can be printed.
    pub fn is_printable(&self) -> (ok: bool)
        ensures
            ok == self.printable(),
    {
        optional_text_fits(&self.brand) && optional_text_fits(&self.last4) && optional_text_fits(
            &self.terminal_serial_number,
        ) && optional_text_fits(&self.merchant_name) && optional_text_fits(
            &self.transaction_type,
        ) && optional_text_fits(&self.payment_type) && optional_text_fits(&self.transaction_at)
    }
}

impl ReceiptData {
    /// Every text of the receipt that is printed is short enough.
    pub open spec fn printable(self) -> bool {
        &&& fits(self.event_name@)
        &&& optional_fits(self.circle_name)
        &&& optional_fits(self.venue_address)
        &&& optional_fits(self.sale_start_date_time)
        &&& fits(self.staff_id@)
        &&& fits(self.receipt_number@)
        &&& forall|i: int| 0 <= i < self.items@.len() ==> (#[trigger] self.items@[i]).printable()
        &&& forall|i: int|
            0 <= i < self.payments@.len() ==> (#[trigger] self.payments@[i]).printable()
        &&& match self.card_details {
            Some(card) => card.printable(),
            None => true,
        }
    }

    /// Tests whether the receipt can be printed.
    pub fn is_printable(&self) -> (ok: bool)
        ensures
            ok == self.printable(),
    {
        if !(text_fits(self.event_name.as_str()) && optional_text_fits(&self.circle_name)
            && optional_text_fits(&self.venue_address) && optional_text_fits(
            &self.sale_start_date_time,
        ) && text_fits(self.staff_id.as_str()) && text_fits(self.receipt_number.as_str())) {
            return false;
        }
        let mut i: usize = 0;
        while i < self.items.len()
            invariant
                i <= self.items@.len(),
                forall|k: int| 0 <= k < i ==> (#[trigger] self.items@[k]).printable(),
            decreases self.items@.len() - i,
        {
            if !self.items[i].is_printable() {
                return false;
            }
            i = i + 1;
        }
        let mut j: usize = 0;
        while j < self.payments.len()
            invariant
                j <= self.payments@.len(),
                forall|k: int| 0 <= k < j ==> (#[trigger] self.payments@[k]).printable(),
            decreases self.payments@.len() - j,
        {
            if !self.payments[j].is_printable() {
                return false;
            }
            j = j + 1;
        }
        match &self.card_details {
            Some(card) => card.is_printable(),
            None => true,
        }
    }
}

/// The style of the circle's name at the top: double size, centred.
pub open spec fn title_style() -> TextStyle {
    TextStyle { double_width: true, double_height: true, align: Align::Center, ..TextStyle::plain() }
}

/// The style of a stamp: double size, reverse, centred.
pub open spec fn stamp_style() -> TextStyle {
    TextStyle {
        double_width: true,
        double_height: true,
        reverse: true,
        align: Align::Center,
        ..TextStyle::plain()
    }
}

/// Bold, aligned left.
pub open spec fn bold_style() -> TextStyle {
    TextStyle { bold: true, ..TextStyle::plain() }
}

/// Bold, aligned right.
pub open spec fn bold_right_style() -> TextStyle {
    TextStyle { bold: true, align: Align::Right, ..TextStyle::plain() }
}

/// Plain, centred.
pub open spec fn center_style() -> TextStyle {
    TextStyle { align: Align::Center, ..TextStyle::plain() }
}

/// Reverse, centred.
pub open spec fn reverse_center_style() -> TextStyle {
    TextStyle { reverse: true, align: Align::Center, ..TextStyle::plain() }
}

/// A text that is there and not empty.
pub open spec fn non_empty(s: Option<String>) -> Option<Seq<char>> {
    match s {
        Some(t) => if t@.len() > 0 {
            Some(t@)
        } else {
            None
        },
        None => None,
    }
}

/// A row for a value that may be missing: nothing where it is.
pub open spec fn optional_row(label: Seq<char>, value: Option<Seq<char>>, columns: nat) -> Seq<
    Command,
> {
    match value {
        Some(v) => row_line(label, v, columns),
        None => Seq::<Command>::empty(),
    }
}

/// The line with the time of sale and the member of staff.
pub open spec fn staff_line_text(r: ReceiptData) -> Seq<char> {
    match r.sale_start_date_time {
        Some(at) => at@ + " 責: "@ + r.staff_id@,
        None => "責: "@ + r.staff_id@,
    }
}

/// The circle's name at the top, where there is one.
pub open spec fn title_commands(r: ReceiptData, w: PaperWidth) -> Seq<Command> {
    match non_empty(r.circle_name) {
        Some(name) => padded_line(name, title_style(), w),
        None => Seq::<Command>::empty(),
    }
}

/// Event in bold and venue below it, where there is a venue and an event.
pub open spec fn venue_commands(r: ReceiptData) -> Seq<Command> {
    match non_empty(r.venue_address) {
        Some(venue) => if r.event_name@.len() > 0 {
            styled_line(r.event_name@, bold_style()) + styled_line(venue, TextStyle::plain())
        } else {
            Seq::<Command>::empty()
        },
        None => Seq::<Command>::empty(),
    }
}

/// The head of a receipt: the circle's name, event and venue, the stamp,
/// number, staff line and a rule.
#[verifier::opaque]
pub open spec fn header_commands(r: ReceiptData, w: PaperWidth) -> Seq<Command> {
    title_commands(r, w) + venue_commands(r) + padded_line("ご明細書"@, stamp_style(), w)
        + styled_line("# "@ + r.receipt_number@, TextStyle::plain()) + styled_line(
        staff_line_text(r),
        TextStyle::plain(),
    ) + rule_line('-', w.spec_chars() as nat)
}

/// The three lines of one item: its code in bold, circle and name, and
/// unit price, quantity and line price in bold on the right.
#[verifier::opaque]
pub open spec fn item_commands(item: ReceiptItem) -> Seq<Command> {
    styled_line(display_number_text(item), bold_style()) + styled_line(
        item.circle_name@ + " / "@ + item.name@,
        TextStyle::plain(),
    ) + styled_line(unit_line_text(item), bold_right_style())
}

/// The lines of all items, in order.
pub open spec fn items_commands(items: Seq<ReceiptItem>) -> Seq<Command>
    decreases items.len(),
{
    if items.len() == 0 {
        Seq::<Command>::empty()
    } else {
        items_commands(items.drop_last()) + item_commands(items.last())
    }
}

/// The rows of all payments, in order: method and amount.
pub open spec fn payments_commands(payments: Seq<PaymentInfo>, w: PaperWidth) -> Seq<Command>
    decreases payments.len(),
{
    if payments.len() == 0 {
        Seq::<Command>::empty()
    } else {
        payments_commands(payments.drop_last(), w) + row_line(
            "\u{3000} "@ + payments.last().method@,
            price_text(payments.last().amount as nat),
            w.spec_chars() as nat,
        )
    }
}

/// The grand total in full-width digits.
pub open spec fn total_text(total: nat) -> Seq<char> {
    fullwidth_text(price_text(total))
}

/// The totals of a receipt: the grand total in bold, the tax where rate
/// and amount are both above zero, the payments, the change where some is
/// due, and a rule.
#[verifier::opaque]
pub open spec fn totals_commands(r: ReceiptData, w: PaperWidth) -> Seq<Command> {
    let columns = w.spec_chars() as nat;
    bold_row_line("合計(税込)"@, total_text(r.total as nat), columns) + (if r.tax_rate > 0
        && r.tax_amount > 0 {
        row_line(
            "(内 "@ + decimal_digits(r.tax_rate as nat) + "%税)"@,
            price_text(r.tax_amount as nat),
            columns,
        )
    } else {
        Seq::<Command>::empty()
    }) + payments_commands(r.payments@, w) + (if change_due_of(r.payments@, r.total as nat) > 0 {
        row_line(
            "\u{3000} 釣り銭"@,
            price_text(change_due_of(r.payments@, r.total as nat)),
            columns,
        )
    } else {
        Seq::<Command>::empty()
    }) + rule_line('-', columns)
}

/// The notice printed below the totals.
pub open spec fn notice_text() -> Seq<char> {
    "当店は免税事業者であり、適格請求書を発行することはできません。返品・返金は落丁・乱丁の場合のみ受け付けます。返品・返金の場合は本明細書を添付しサポートセンター support-pos@miz.cabにご連絡ください。"@
}

/// The foot of a receipt: the notice, an empty line and the receipt number
/// as a QR symbol.
#[verifier::opaque]
pub open spec fn footer_commands(r: ReceiptData) -> Seq<Command> {
    styled_line(notice_text(), TextStyle::plain()) + styled_line(""@, TextStyle::plain())
        + centered(qr_commands(encode_utf8(r.receipt_number@), Some(6u8)))
}

/// The merchant named on the slip: that of the card details, else the
/// circle; an empty name counts as none.
pub open spec fn merchant_text(card: CardDetails, r: ReceiptData) -> Option<Seq<char>> {
    match non_empty(card.merchant_name) {
        Some(name) => Some(name),
        None => non_empty(r.circle_name),
    }
}

/// The brand row of the slip, where the card has a brand.
pub open spec fn brand_row(card: CardDetails, columns: nat) -> Seq<Command> {
    match card.brand {
        Some(brand) => row_line("カード会社:"@, brand_text(brand@, lowercase(brand@)), columns),
        None => Seq::<Command>::empty(),
    }
}

/// The expiry row of the slip, where the card has month and year.
pub open spec fn expiry_row(card: CardDetails, columns: nat) -> Seq<Command> {
    match (card.exp_month, card.exp_year) {
        (Some(month), Some(year)) => row_line(
            "有効期限:"@,
            expiry_text(month as nat, year as nat),
            columns,
        ),
        _ => Seq::<Command>::empty(),
    }
}

/// The merchant row of the slip, where a merchant is named.
pub open spec fn merchant_row(card: CardDetails, r: ReceiptData, columns: nat) -> Seq<Command> {
    optional_row("加盟店名:"@, merchant_text(card, r), columns)
}

/// The terminal row of the slip, where the terminal's serial number is known.
pub open spec fn terminal_row(card: CardDetails, columns: nat) -> Seq<Command> {
    optional_row("端末番号:"@, optional_view(card.terminal_serial_number), columns)
}

/// The row with date and time of the transaction, where they are known.
pub open spec fn transaction_time_row(card: CardDetails, columns: nat) -> Seq<Command> {
    match card.transaction_at {
        Some(at) => row_line("ご利用日時:"@, datetime_text(at@), columns),
        None => Seq::<Command>::empty(),
    }
}

/// The row with the number of the payment, where there is one.
pub open spec fn slip_number_row(r: ReceiptData, columns: nat) -> Seq<Command> {
    match r.payment_intent_id {
        Some(id) => row_line("伝票番号:"@, slip_id_text(id@), columns),
        None => Seq::<Command>::empty(),
    }
}

/// The row with the masked card number, where the last four digits are known.
pub open spec fn member_row(card: CardDetails, columns: nat) -> Seq<Command> {
    match card.last4 {
        Some(digits) => row_line("会員番号:"@, "**** **** **** "@ + digits@, columns),
        None => Seq::<Command>::empty(),
    }
}

/// The row with the kind of payment; a single payment where none is given.
pub open spec fn payment_type_row(card: CardDetails, columns: nat) -> Seq<Command> {
    row_line(
        "支払区分:"@,
        match card.payment_type {
            Some(kind) => kind@,
            None => "一括"@,
        },
        columns,
    )
}

/// The first part of the card slip: the stamp and what identifies the
/// transaction.
#[verifier::opaque]
pub open spec fn slip_head_commands(card: CardDetails, r: ReceiptData, w: PaperWidth) -> Seq<
    Command,
> {
    let columns = w.spec_chars() as nat;
    styled_line(""@, TextStyle::plain()) + padded_line(
        "クレジット売上票"@,
        reverse_center_style(),
        w,
    ) + styled_line(""@, TextStyle::plain()) + merchant_row(card, r, columns) + terminal_row(
        card,
        columns,
    ) + transaction_time_row(card, columns) + slip_number_row(r, columns) + rule_line(
        '-',
        columns,
    )
}

/// The second part of the card slip: the card and the kind of transaction.
#[verifier::opaque]
pub open spec fn slip_card_commands(card: CardDetails, w: PaperWidth) -> Seq<Command> {
    let columns = w.spec_chars() as nat;
    member_row(card, columns) + row_line(
        "取引内容:"@,
        transaction_type_text(card.transaction_type),
        columns,
    ) + payment_type_row(card, columns) + brand_row(card, columns) + expiry_row(card, columns)
        + rule_line('-', columns)
}

/// The last part of the card slip: the amount, the place of the signature
/// and the number of the payment as a QR symbol where there is one.
#[verifier::opaque]
pub open spec fn slip_foot_commands(r: ReceiptData, w: PaperWidth) -> Seq<Command> {
    let columns = w.spec_chars() as nat;
    bold_row_line("ご利用金額:"@, price_text(r.total as nat), columns) + styled_line(
        ""@,
        TextStyle::plain(),
    ) + styled_line("【お客様サイン】"@, bold_style()) + styled_line(""@, TextStyle::plain())
        + padded_line("＜IC取引につき不要＞"@, center_style(), w) + styled_line(
        ""@,
        TextStyle::plain(),
    ) + rule_line('-', columns) + styled_line("上記正に受領いたしました"@, center_style()) + (
    match r.payment_intent_id {
        Some(id) => styled_line(""@, TextStyle::plain()) + centered(
            qr_commands(encode_utf8(id@), Some(4u8)),
        ),
        None => Seq::<Command>::empty(),
    })
}

/// The card slip, printed where the receipt has card details.
#[verifier::opaque]
pub open spec fn card_slip_commands(r: ReceiptData, w: PaperWidth) -> Seq<Command> {
    match r.card_details {
        Some(card) => slip_head_commands(card, r, w) + slip_card_commands(card, w)
            + slip_foot_commands(r, w),
        None => Seq::<Command>::empty(),
    }
}

/// All commands of a receipt: set-up, head, items between rules, totals,
/// foot, card slip, three line feeds and a full cut.
pub open spec fn receipt_commands(r: ReceiptData, w: PaperWidth) -> Seq<Command> {
    init_commands(w) + header_commands(r, w) + items_commands(r.items@) + rule_line(
        '-',
        w.spec_chars() as nat,
    ) + totals_commands(r, w) + footer_commands(r) + card_slip_commands(r, w) + feed_commands(3)
        + seq![Command::FullCut]
}

/// The notice printed below the totals.
pub fn notice() -> (s: &'static str)
    ensures
        s@ == notice_text(),
        s@.len() <= 256,
{
    proof {
        reveal_strlit("当店は免税事業者であり、適格請求書を発行することはできません。返品・返金は落丁・乱丁の場合のみ受け付けます。返品・返金の場合は本明細書を添付しサポートセンター support-pos@miz.cabにご連絡ください。");
    }
    "当店は免税事業者であり、適格請求書を発行することはできません。返品・返金は落丁・乱丁の場合のみ受け付けます。返品・返金の場合は本明細書を添付しサポートセンター support-pos@miz.cabにご連絡ください。"
}

/// Prints the circle's name at the top.
fn print_title(printer: &mut JpPrinter, receipt: &ReceiptData)
    requires
        old(printer).wf(),
        receipt.printable(),
    ensures
        final(printer).wf(),
        final(printer).width() == old(printer).width(),
        final(printer).commands() == old(printer).commands() + title_commands(
            *receipt,
            old(printer).width(),
        ),
{
    match &receipt.circle_name {
        Some(name) => {
            if !name.as_str().is_empty() {
                printer.jp_textln_padded(name.as_str(), TextStyle::default().double().center());
            } else {
                assert(printer.commands() =~= old(printer).commands() + Seq::<Command>::empty());
            }
        },
        None => {
            assert(printer.commands() =~= old(printer).commands() + Seq::<Command>::empty());
        },
    }
}

/// Prints event and venue.
fn print_venue(printer: &mut JpPrinter, receipt: &ReceiptData)
    requires
        old(printer).wf(),
        receipt.printable(),
    ensures
        final(printer).wf(),
        final(printer).width() == old(printer).width(),
        final(printer).commands() == old(printer).commands() + venue_commands(*receipt),
{
    match &receipt.venue_address {
        Some(venue) => {
            if !venue.as_str().is_empty() && !receipt.event_name.as_str().is_empty() {
                printer.jp_textln(receipt.event_name.as_str(), TextStyle::default().bold());
                printer.jp_textln(venue.as_str(), TextStyle::default());
                assert(printer.commands() =~= old(printer).commands() + venue_commands(
                    *receipt,
                ));
            } else {
                assert(printer.commands() =~= old(printer).commands() + Seq::<Command>::empty());
            }
        },
        None => {
            assert(printer.commands() =~= old(printer).commands() + Seq::<Command>::empty());
        },
    }
}

/// Prints the head of a receipt.
fn print_header(printer: &mut JpPrinter, receipt: &ReceiptData)
    requires
        old(printer).wf(),
        receipt.printable(),
    ensures
        final(printer).wf(),
        final(printer).width() == old(printer).width(),
        final(printer).commands() == old(printer).commands() + header_commands(
            *receipt,
            old(printer).width(),
        ),
{
    print_title(printer, receipt);
    print_venue(printer, receipt);
    proof {
        reveal_strlit("ご明細書");
        reveal_strlit("# ");
        reveal_strlit(" 責: ");
        reveal_strlit("責: ");
    }
    printer.jp_textln_padded("ご明細書", TextStyle::default().double().reverse().center());
    let number_line = concat2("# ", receipt.receipt_number.as_str());
    printer.jp_textln(number_line.as_str(), TextStyle::default());
    let staff_line = staff_line(receipt);
    printer.jp_textln(staff_line.as_str(), TextStyle::default());
    printer.separator();
    proof {
        reveal(header_commands);
    }
    assert(printer.commands() =~= old(printer).commands() + header_commands(
        *receipt,
        old(printer).width(),
    ));
}

/// Prints the three lines of one item.
fn print_item(printer: &mut JpPrinter, item: &ReceiptItem)
    requires
        old(printer).wf(),
        item.printable(),
    ensures
        final(printer).wf(),
        final(printer).width() == old(printer).width(),
        final(printer).commands() == old(printer).commands() + item_commands(*item),
{
    let number = display_number(item);
    proof {
        reveal_strlit(" / ");
        reveal_strlit("@ ");
        reveal_strlit("\u{3000} ");
        reveal_strlit(" 点\u{3000}");
        lemma_price_text_len(unit_price_of(*item));
        lemma_price_text_len(item.price as nat);
        lemma_decimal_digits_len(item.quantity as nat);
        match book_number_text(item.isdn, item.jan2) {
            Some(code) => {
                lemma_price_text_len(
                    crate::format::zero_padded_value(item.jan2->0@.subrange(8, 12)),
                );
            },
            None => {},
        }
    }
    printer.jp_textln(number.as_str(), TextStyle::default().bold());
    let mut names = String::new();
    names.append(item.circle_name.as_str());
    names.append(" / ");
    names.append(item.name.as_str());
    assert(names@ =~= item.circle_name@ + " / "@ + item.name@);
    printer.jp_textln(names.as_str(), TextStyle::default());
    let amounts = unit_line(item);
    printer.jp_textln(amounts.as_str(), TextStyle::default().right().bold());
    proof {
        reveal(item_commands);
    }
    assert(printer.commands() =~= old(printer).commands() + item_commands(*item));
}

/// Prints the lines of all items.
fn print_items(printer: &mut JpPrinter, items: &Vec<ReceiptItem>)
    requires
        old(printer).wf(),
        forall|i: int| 0 <= i < items@.len() ==> (#[trigger] items@[i]).printable(),
    ensures
        final(printer).wf(),
        final(printer).width() == old(printer).width(),
        final(printer).commands() == old(printer).commands() + items_commands(items@),
{
    let mut i: usize = 0;
    assert(printer.commands() =~= old(printer).commands() + items_commands(items@.take(0)));
    while i < items.len()
        invariant
            i <= items@.len(),
            printer.wf(),
            printer.width() == old(printer).width(),
            printer.commands() == old(printer).commands() + items_commands(
                items@.take(i as int),
            ),
            forall|k: int| 0 <= k < items@.len() ==> (#[trigger] items@[k]).printable(),
        decreases items@.len() - i,
    {
        print_item(printer, &items[i]);
        proof {
            let next = items@.take(i + 1);
            assert(next.drop_last() =~= items@.take(i as int));
            assert(next.last() == items@[i as int]);
            assert(printer.commands() =~= old(printer).commands() + items_commands(next));
        }
        i = i + 1;
    }
    assert(items@.take(i as int) =~= items@);
}

/// Prints the rows of all payments.
fn print_payments(printer: &mut JpPrinter, payments: &Vec<PaymentInfo>)
    requires
        old(printer).wf(),
        forall|i: int| 0 <= i < payments@.len() ==> (#[trigger] payments@[i]).printable(),
    ensures
        final(printer).wf(),
        final(printer).width() == old(printer).width(),
        final(printer).commands() == old(printer).commands() + payments_commands(
            payments@,
            old(printer).width(),
        ),
{
    let mut i: usize = 0;
    assert(printer.commands() =~= old(printer).commands() + payments_commands(
        payments@.take(0),
        old(printer).width(),
    ));
    while i < payments.len()
        invariant
            i <= payments@.len(),
            printer.wf(),
            printer.width() == old(printer).width(),
            printer.commands() == old(printer).commands() + payments_commands(
                payments@.take(i as int),
                old(printer).width(),
            ),
            forall|k: int| 0 <= k < payments@.len() ==> (#[trigger] payments@[k]).printable(),
        decreases payments@.len() - i,
    {
        let payment = &payments[i];
        proof {
            reveal_strlit("\u{3000} ");
            lemma_price_text_len(payment.amount as nat);
        }
        let label = concat2("\u{3000} ", payment.method.as_str());
        let amount = format_price(payment.amount);
        printer.row_auto(label.as_str(), amount.as_str());
        proof {
            let next = payments@.take(i + 1);
            assert(next.drop_last() =~= payments@.take(i as int));
            assert(next.last() == payments@[i as int]);
            assert(printer.commands() =~= old(printer).commands() + payments_commands(
                next,
                old(printer).width(),
            ));
        }
        i = i + 1;
    }
    assert(payments@.take(i as int) =~= payments@);
}

/// Prints the totals of a receipt.
fn print_totals(printer: &mut JpPrinter, receipt: &ReceiptData)
    requires
        old(printer).wf(),
        receipt.printable(),
    ensures
        final(printer).wf(),
        final(printer).width() == old(printer).width(),
        final(printer).commands() == old(printer).commands() + totals_commands(
            *receipt,
            old(printer).width(),
        ),
{
    proof {
        reveal_strlit("合計(税込)");
        reveal_strlit("(内 ");
        reveal_strlit("%税)");
        reveal_strlit("\u{3000} 釣り銭");
        lemma_price_text_len(receipt.total as nat);
        lemma_price_text_len(receipt.tax_amount as nat);
        lemma_decimal_digits_len(receipt.tax_rate as nat);
    }
    let plain_total = format_price(receipt.total);
    let total = to_fullwidth_digits(plain_total.as_str());
    printer.row_auto_bold("合計(税込)", total.as_str());
    if receipt.tax_rate > 0 && receipt.tax_amount > 0 {
        let mut label = String::new();
        label.append("(内 ");
        push_decimal(&mut label, receipt.tax_rate);
        label.append("%税)");
        assert(label@ =~= "(内 "@ + decimal_digits(receipt.tax_rate as nat) + "%税)"@);
        let amount = format_price(receipt.tax_amount);
        printer.row_auto(label.as_str(), amount.as_str());
    }
    print_payments(printer, &receipt.payments);
    let change = change_due(&receipt.payments, receipt.total);
    if change > 0 {
        proof {
            lemma_price_text_len(change as nat);
        }
        let amount = format_price(change);
        printer.row_auto("\u{3000} 釣り銭", amount.as_str());
    }
    printer.separator();
    proof {
        reveal(totals_commands);
    }
    assert(printer.commands() =~= old(printer).commands() + totals_commands(
        *receipt,
        old(printer).width(),
    ));
}

/// Prints the foot of a receipt.
fn print_footer(printer: &mut JpPrinter, receipt: &ReceiptData)
    requires
        old(printer).wf(),
    ensures
        final(printer).wf(),
        final(printer).width() == old(printer).width(),
        final(printer).commands() == old(printer).commands() + footer_commands(*receipt),
{
    proof {
        reveal_strlit("");
    }
    printer.jp_textln(notice(), TextStyle::default());
    printer.textln("");
    printer.qr_code_center(receipt.receipt_number.as_str(), Some(6));
    proof {
        reveal(footer_commands);
    }
    assert(printer.commands() =~= old(printer).commands() + footer_commands(*receipt));
}

/// Prints the merchant row of the slip.
fn print_merchant_row(printer: &mut JpPrinter, card: &CardDetails, receipt: &ReceiptData)
    requires
        old(printer).wf(),
        receipt.printable(),
        card.printable(),
    ensures
        final(printer).wf(),
        final(printer).width() == old(printer).width(),
        final(printer).commands() == old(printer).commands() + merchant_row(
            *card,
            *receipt,
            old(printer).width().spec_chars() as nat,
        ),
{
    proof {
        reveal_strlit("加盟店名:");
    }
    let named: Option<&String> = match &card.merchant_name {
        Some(name) => if name.as_str().is_empty() {
            None
        } else {
            Some(name)
        },
        None => None,
    };
    let merchant: Option<&String> = match named {
        Some(name) => Some(name),
        None => match &receipt.circle_name {
            Some(circle) => if circle.as_str().is_empty() {
                None
            } else {
                Some(circle)
            },
            None => None,
        },
    };
    match merchant {
        Some(name) => {
            assert(merchant_text(*card, *receipt) == Some(name@));
            printer.row_auto("加盟店名:", name.as_str());
        },
        None => {
            assert(merchant_text(*card, *receipt) is None);
            assert(printer.commands() =~= old(printer).commands() + Seq::<Command>::empty());
        },
    }
}

/// Prints the terminal row of the slip.
fn print_terminal_row(printer: &mut JpPrinter, card: &CardDetails)
    requires
        old(printer).wf(),
        card.printable(),
    ensures
        final(printer).wf(),
        final(printer).width() == old(printer).width(),
        final(printer).commands() == old(printer).commands() + terminal_row(
            *card,
            old(printer).width().spec_chars() as nat,
        ),
{
    proof {
        reveal_strlit("端末番号:");
    }
    match &card.terminal_serial_number {
        Some(serial) => {
            printer.row_auto("端末番号:", serial.as_str());
        },
        None => {
            assert(printer.commands() =~= old(printer).commands() + Seq::<Command>::empty());
        },
    }
}

/// Prints the row with date and time of the transaction.
fn print_transaction_time_row(printer: &mut JpPrinter, card: &CardDetails)
    requires
        old(printer).wf(),
        card.printable(),
    ensures
        final(printer).wf(),
        final(printer).width() == old(printer).width(),
        final(printer).commands() == old(printer).commands() + transaction_time_row(
            *card,
            old(printer).width().spec_chars() as nat,
        ),
{
    proof {
        reveal_strlit("ご利用日時:");
    }
    match &card.transaction_at {
        Some(at) => {
            let formatted = format_transaction_datetime(at.as_str());
            printer.row_auto("ご利用日時:", formatted.as_str());
        },
        None => {
            assert(printer.commands() =~= old(printer).commands() + Seq::<Command>::empty());
        },
    }
}

/// Prints the row with the number of the payment.
fn print_slip_number_row(printer: &mut JpPrinter, receipt: &ReceiptData)
    requires
        old(printer).wf(),
    ensures
        final(printer).wf(),
        final(printer).width() == old(printer).width(),
        final(printer).commands() == old(printer).commands() + slip_number_row(
            *receipt,
            old(printer).width().spec_chars() as nat,
        ),
{
    proof {
        reveal_strlit("伝票番号:");
        reveal_strlit("...");
    }
    match &receipt.payment_intent_id {
        Some(id) => {
            let shown = slip_id(id.as_str());
            printer.row_auto("伝票番号:", shown.as_str());
        },
        None => {
            assert(printer.commands() =~= old(printer).commands() + Seq::<Command>::empty());
        },
    }
}

/// Prints the first part of the card slip.
fn print_slip_head(printer: &mut JpPrinter, card: &CardDetails, receipt: &ReceiptData)
    requires
        old(printer).wf(),
        receipt.printable(),
        card.printable(),
    ensures
        final(printer).wf(),
        final(printer).width() == old(printer).width(),
        final(printer).commands() == old(printer).commands() + slip_head_commands(
            *card,
            *receipt,
            old(printer).width(),
        ),
{
    proof {
        reveal_strlit("");
        reveal_strlit("クレジット売上票");
    }
    printer.textln("");
    printer.jp_textln_padded("クレジット売上票", TextStyle::default().reverse().center());
    printer.textln("");
    print_merchant_row(printer, card, receipt);
    print_terminal_row(printer, card);
    print_transaction_time_row(printer, card);
    print_slip_number_row(printer, receipt);
    printer.separator();
    proof {
        reveal(slip_head_commands);
    }
    assert(printer.commands() =~= old(printer).commands() + slip_head_commands(
        *card,
        *receipt,
        old(printer).width(),
    ));
}

/// The name of a brand is never longer than the brand as given or eleven
/// characters, whichever is more.
proof fn lemma_brand_text_len(brand: Seq<char>, lowered: Seq<char>)
    ensures
        brand_text(brand, lowered).len() <= brand.len() + 11,
{
    reveal_strlit("VISA");
    reveal_strlit("MasterCard");
    reveal_strlit("AMEX");
    reveal_strlit("JCB");
    reveal_strlit("Diners Club");
    reveal_strlit("Discover");
    reveal_strlit("UnionPay");
}

/// The kind of a transaction is never longer than the kind as given or
/// four characters, whichever is more.
proof fn lemma_transaction_type_text_len(kind: Option<String>)
    ensures
        transaction_type_text(kind).len() <= (match kind {
            Some(k) => k@.len(),
            None => 0,
        }) + 4,
{
    reveal_strlit("sale");
    reveal_strlit("売上");
    reveal_strlit("返品");
}

/// An expiry has at most thirteen characters.
proof fn lemma_expiry_text_len(month: nat, year: nat)
    requires
        month <= 0xffff_ffff,
    ensures
        expiry_text(month, year).len() <= 13,
{
    lemma_decimal_digits_len(month);
    reveal_with_fuel(decimal_digits, 3);
}

/// Prints the row with the masked card number.
fn print_member_row(printer: &mut JpPrinter, card: &CardDetails)
    requires
        old(printer).wf(),
        card.printable(),
    ensures
        final(printer).wf(),
        final(printer).width() == old(printer).width(),
        final(printer).commands() == old(printer).commands() + member_row(
            *card,
            old(printer).width().spec_chars() as nat,
        ),
{
    proof {
        reveal_strlit("会員番号:");
        reveal_strlit("**** **** **** ");
    }
    match &card.last4 {
        Some(digits) => {
            let masked = concat2("**** **** **** ", digits.as_str());
            printer.row_auto("会員番号:", masked.as_str());
        },
        None => {
            assert(printer.commands() =~= old(printer).commands() + Seq::<Command>::empty());
        },
    }
}

/// Prints the row with the kind of payment.
fn print_payment_type_row(printer: &mut JpPrinter, card: &CardDetails)
    requires
        old(printer).wf(),
        card.printable(),
    ensures
        final(printer).wf(),
        final(printer).width() == old(printer).width(),
        final(printer).commands() == old(printer).commands() + payment_type_row(
            *card,
            old(printer).width().spec_chars() as nat,
        ),
{
    proof {
        reveal_strlit("支払区分:");
        reveal_strlit("一括");
    }
    match &card.payment_type {
        Some(payment_type) => {
            printer.row_auto("支払区分:", payment_type.as_str());
        },
        None => {
            printer.row_auto("支払区分:", "一括");
        },
    }
}

/// Prints the brand row of the slip.
fn print_brand_row(printer: &mut JpPrinter, card: &CardDetails)
    requires
        old(printer).wf(),
        card.printable(),
    ensures
        final(printer).wf(),
        final(printer).width() == old(printer).width(),
        final(printer).commands() == old(printer).commands() + brand_row(
            *card,
            old(printer).width().spec_chars() as nat,
        ),
{
    proof {
        reveal_strlit("カード会社:");
    }
    match &card.brand {
        Some(brand) => {
            let lowered = to_lowercase(brand.as_str());
            let shown = brand_display(brand.as_str(), lowered.as_str());
            proof {
                lemma_brand_text_len(brand@, lowered@);
            }
            printer.row_auto("カード会社:", shown.as_str());
        },
        None => {
            assert(printer.commands() =~= old(printer).commands() + Seq::<Command>::empty());
        },
    }
}

/// Prints the expiry row of the slip.
fn print_expiry_row(printer: &mut JpPrinter, card: &CardDetails)
    requires
        old(printer).wf(),
    ensures
        final(printer).wf(),
        final(printer).width() == old(printer).width(),
        final(printer).commands() == old(printer).commands() + expiry_row(
            *card,
            old(printer).width().spec_chars() as nat,
        ),
{
    proof {
        reveal_strlit("有効期限:");
    }
    match (card.exp_month, card.exp_year) {
        (Some(month), Some(year)) => {
            let shown = expiry(month, year);
            proof {
                lemma_expiry_text_len(month as nat, year as nat);
            }
            printer.row_auto("有効期限:", shown.as_str());
        },
        _ => {
            assert(printer.commands() =~= old(printer).commands() + Seq::<Command>::empty());
        },
    }
}

/// Prints the second part of the card slip.
fn print_slip_card(printer: &mut JpPrinter, card: &CardDetails)
    requires
        old(printer).wf(),
        card.printable(),
    ensures
        final(printer).wf(),
        final(printer).width() == old(printer).width(),
        final(printer).commands() == old(printer).commands() + slip_card_commands(
            *card,
            old(printer).width(),
        ),
{
    proof {
        reveal_strlit("取引内容:");
        lemma_transaction_type_text_len(card.transaction_type);
    }
    print_member_row(printer, card);
    let kind = transaction_type_label(&card.transaction_type);
    printer.row_auto("取引内容:", kind.as_str());
    print_payment_type_row(printer, card);
    print_brand_row(printer, card);
    print_expiry_row(printer, card);
    printer.separator();
    proof {
        reveal(slip_card_commands);
    }
    assert(printer.commands() =~= old(printer).commands() + slip_card_commands(
        *card,
        old(printer).width(),
    ));
}

/// Prints the last part of the card slip.
fn print_slip_foot(printer: &mut JpPrinter, receipt: &ReceiptData)
    requires
        old(printer).wf(),
    ensures
        final(printer).wf(),
        final(printer).width() == old(printer).width(),
        final(printer).commands() == old(printer).commands() + slip_foot_commands(
            *receipt,
            old(printer).width(),
        ),
{
    proof {
        reveal_strlit("");
        reveal_strlit("ご利用金額:");
        reveal_strlit("【お客様サイン】");
        reveal_strlit("＜IC取引につき不要＞");
        reveal_strlit("上記正に受領いたしました");
        lemma_price_text_len(receipt.total as nat);
    }
    let amount = format_price(receipt.total);
    printer.row_auto_bold("ご利用金額:", amount.as_str());
    printer.textln("");
    printer.jp_textln("【お客様サイン】", TextStyle::default().bold());
    printer.textln("");
    printer.jp_textln_padded("＜IC取引につき不要＞", TextStyle::default().center());
    printer.textln("");
    printer.separator();
    printer.jp_textln("上記正に受領いたしました", TextStyle::default().center());
    match &receipt.payment_intent_id {
        Some(id) => {
            printer.textln("");
            printer.qr_code_center(id.as_str(), Some(4));
        },
        None => {},
    }
    proof {
        reveal(slip_foot_commands);
    }
    assert(printer.commands() =~= old(printer).commands() + slip_foot_commands(
        *receipt,
        old(printer).width(),
    ));
}

/// Prints the card slip where the receipt has card details.
fn print_card_slip(printer: &mut JpPrinter, receipt: &ReceiptData)
    requires
        old(printer).wf(),
        receipt.printable(),
    ensures
        final(printer).wf(),
        final(printer).width() == old(printer).width(),
        final(printer).commands() == old(printer).commands() + card_slip_commands(
            *receipt,
            old(printer).width(),
        ),
{
    proof {
        reveal(card_slip_commands);
    }
    match &receipt.card_details {
        Some(card) => {
            print_slip_head(printer, card, receipt);
            print_slip_card(printer, card);
            print_slip_foot(printer, receipt);
            assert(printer.commands() =~= old(printer).commands() + card_slip_commands(
                *receipt,
                old(printer).width(),
            ));
        },
        None => {
            assert(printer.commands() =~= old(printer).commands() + card_slip_commands(
                *receipt,
                old(printer).width(),
            ));
        },
    }
}

/// Queues a whole receipt on a printer session.
pub fn queue_receipt(printer: &mut JpPrinter, receipt: &ReceiptData)
    requires
        old(printer).wf(),
        receipt.printable(),
    ensures
        final(printer).wf(),
        final(printer).width() == old(printer).width(),
        final(printer).commands() == old(printer).commands() + receipt_commands(
            *receipt,
            old(printer).width(),
        ),
{
    printer.init();
    print_header(printer, receipt);
    print_items(printer, &receipt.items);
    printer.separator();
    print_totals(printer, receipt);
    print_footer(printer, receipt);
    print_card_slip(printer, receipt);
    printer.feed(3);
    printer.cut();
    assert(printer.commands() =~= old(printer).commands() + receipt_commands(
        *receipt,
        old(printer).width(),
    ));
}

/// The batches that print a receipt on the paper of the caller's hint, in
/// the order in which they are to be written to the printer.
pub fn print_receipt(receipt: &ReceiptData, paper_width: Option<u8>) -> (out: Vec<Vec<u8>>)
    requires
        receipt.printable(),
    ensures
        batch_views(out@) == encode(receipt_commands(*receipt, paper_width_of(paper_width))),
{
    let width = parse_paper_width(paper_width);
    let mut printer = JpPrinter::with_paper_width(width);
    queue_receipt(&mut printer, receipt);
    assert(printer.commands() =~= receipt_commands(*receipt, width));
    printer.into_output()
}

/// The batches that print a receipt, or nothing for a receipt that cannot
/// be printed.
pub fn try_print_receipt(receipt: &ReceiptData, paper_width: Option<u8>) -> (out: Option<
    Vec<Vec<u8>>,
>)
    ensures
        match out {
            Some(batches) => receipt.printable() && batch_views(batches@) == encode(
                receipt_commands(*receipt, paper_width_of(paper_width)),
            ),
            None => !receipt.printable(),
        },
{
    if receipt.is_printable() {
        Some(print_receipt(receipt, paper_width))
    } else {
        None
    }
}

} // verus!
