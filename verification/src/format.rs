//! Formatting rules of the receipt: prices, full-width digits, the display
//! code of a book, and the date and time of a card transaction.

use vstd::prelude::*;
use crate::style::PaperWidth;
use crate::text::{
    chars_of, decimal, decimal_digits, digit, digit_char, lemma_decimal_digits_are_digits,
    lemma_decimal_digits_len, push_chars, push_decimal,
};

verus! {

/// The paper for a caller's hint: 80 selects the wide paper, anything else
/// the narrow one.
pub open spec fn paper_width_of(hint: Option<u8>) -> PaperWidth {
    match hint {
        Some(n) => if n == 80 {
            PaperWidth::Mm80
        } else {
            PaperWidth::Mm58
        },
        None => PaperWidth::Mm58,
    }
}

pub fn parse_paper_width(paper_width: Option<u8>) -> (w: PaperWidth)
    ensures
        w == paper_width_of(paper_width),
{
    match paper_width {
        Some(80) => PaperWidth::Mm80,
        _ => PaperWidth::Mm58,
    }
}

/// The full-width form of an ASCII digit; any other character is itself.
pub open spec fn fullwidth(c: char) -> char {
    if '0' <= c <= '9' {
        (c as u32 + 0xfee0) as char
    } else {
        c
    }
}

/// A text with every ASCII digit replaced by its full-width form.
pub open spec fn fullwidth_text(s: Seq<char>) -> Seq<char> {
    Seq::new(s.len(), |i: int| fullwidth(s[i]))
}

/// The full-width numeral of a number has a full-width digit for every
/// digit of its decimal numeral: that digit moved up by 0xFEE0.
pub proof fn lemma_fullwidth_numeral(n: nat)
    ensures
        fullwidth_text(decimal_digits(n)).len() == decimal_digits(n).len(),
        forall|i: int|
            0 <= i < decimal_digits(n).len() ==> (#[trigger] fullwidth_text(
                decimal_digits(n),
            )[i]) as u32 == decimal_digits(n)[i] as u32 + 0xfee0,
{
    lemma_decimal_digits_are_digits(n);
}

pub fn fullwidth_char(c: char) -> (r: char)
    ensures
        r == fullwidth(c),
{
    match c {
        '0' => '\u{ff10}',
        '1' => '\u{ff11}',
        '2' => '\u{ff12}',
        '3' => '\u{ff13}',
        '4' => '\u{ff14}',
        '5' => '\u{ff15}',
        '6' => '\u{ff16}',
        '7' => '\u{ff17}',
        '8' => '\u{ff18}',
        '9' => '\u{ff19}',
        _ => c,
    }
}

/// Replaces every ASCII digit of a text by its full-width form.
pub fn to_fullwidth_digits(text: &str) -> (s: String)
    ensures
        s@ == fullwidth_text(text@),
{
    let mut s = String::new();
    for c in it: text.chars()
        invariant
            it.seq() == text@,
            s@ == fullwidth_text(text@.take(it.index() as int)),
    {
        s.push(fullwidth_char(c));
        assert(s@ =~= fullwidth_text(text@.take(it.index() + 1)));
    }
    assert(text@.take(text@.len() as int) =~= text@);
    s
}

/// The decimal numeral of `num` in full-width digits.
pub fn to_fullwidth_number(num: u32) -> (s: String)
    ensures
        s@ == fullwidth_text(decimal_digits(num as nat)),
{
    let plain = decimal(num);
    to_fullwidth_digits(plain.as_str())
}

/// A numeral with a comma before every group of three digits counted from
/// the right.
pub open spec fn grouped(digits: Seq<char>) -> Seq<char>
    decreases digits.len(),
{
    if digits.len() <= 3 {
        digits
    } else {
        grouped(digits.take(digits.len() - 3)) + seq![','] + digits.skip(digits.len() - 3)
    }
}

/// A price: the full-width yen sign and the grouped decimal numeral.
pub open spec fn price_text(price: nat) -> Seq<char> {
    seq!['\u{ffe5}'] + grouped(decimal_digits(price))
}

/// A price text is short: the sign, at most ten digits and three commas.
pub proof fn lemma_price_text_len(price: nat)
    requires
        price <= 0xffff_ffff,
    ensures
        price_text(price).len() <= 14,
{
    lemma_decimal_digits_len(price);
    let d = decimal_digits(price);
    reveal_with_fuel(grouped, 5);
}

/// The numeral of a number of four or more digits ends in the three digits
/// of its remainder by a thousand.
proof fn lemma_decimal_digits_thousands(n: nat)
    requires
        n >= 1000,
    ensures
        decimal_digits(n) == decimal_digits(n / 1000) + seq![
            digit_char((n % 1000) / 100),
            digit_char(((n % 1000) / 10) % 10),
            digit_char(n % 10),
        ],
{
    let a = n / 10;
    let b = a / 10;
    assert(b / 10 == n / 1000);
    assert(a % 10 == ((n % 1000) / 10) % 10);
    assert(b % 10 == (n % 1000) / 100);
    assert(decimal_digits(n) == decimal_digits(a).push(digit_char(n % 10)));
    assert(decimal_digits(a) == decimal_digits(b).push(digit_char(a % 10)));
    assert(decimal_digits(b) == decimal_digits(b / 10).push(digit_char(b % 10)));
    assert(decimal_digits(n) =~= decimal_digits(n / 1000) + seq![
        digit_char((n % 1000) / 100),
        digit_char(((n % 1000) / 10) % 10),
        digit_char(n % 10),
    ]);
}

/// Appends the grouped numeral of `n` to `s`.
fn push_grouped(s: &mut String, n: u32)
    ensures
        final(s)@ == old(s)@ + grouped(decimal_digits(n as nat)),
    decreases n,
{
    if n >= 1000 {
        push_grouped(s, n / 1000);
        let rest: u32 = n % 1000;
        s.push(',');
        s.push(digit((rest / 100) as u8));
        s.push(digit(((rest / 10) % 10) as u8));
        s.push(digit((rest % 10) as u8));
        proof {
            let digits = decimal_digits(n as nat);
            let head = decimal_digits((n / 1000) as nat);
            lemma_decimal_digits_thousands(n as nat);
            lemma_decimal_digits_len((n / 1000) as nat);
            assert(digits.take(digits.len() - 3) =~= head);
            assert(s@ =~= old(s)@ + grouped(digits));
        }
    } else {
        push_decimal(s, n);
        proof {
            reveal_with_fuel(decimal_digits, 4);
        }
    }
}

/// Formats a price: thousands separated by commas, the yen sign in front.
pub fn format_price(price: u32) -> (s: String)
    ensures
        s@ == price_text(price as nat),
{
    let mut s = String::new();
    s.push('\u{ffe5}');
    push_grouped(&mut s, price);
    assert(s@ =~= price_text(price as nat));
    s
}

/// A text without its leading zeros.
pub open spec fn strip_leading_zeros(s: Seq<char>) -> Seq<char>
    decreases s.len(),
{
    if s.len() > 0 && s[0] == '0' {
        strip_leading_zeros(s.drop_first())
    } else {
        s
    }
}

/// True when every character is an ASCII digit.
pub open spec fn is_digits(s: Seq<char>) -> bool {
    forall|i: int| 0 <= i < s.len() ==> '0' <= #[trigger] s[i] <= '9'
}

/// The number that a run of ASCII digits denotes.
pub open spec fn digits_value(s: Seq<char>) -> nat
    recommends
        is_digits(s),
    decreases s.len(),
{
    if s.len() == 0 {
        0
    } else {
        digits_value(s.drop_last()) * 10 + (s.last() as nat - 0x30) as nat
    }
}

/// The number that a text denotes as an unsigned 32-bit integer: an
/// optional plus sign and at least one ASCII digit, the value within range.
pub open spec fn unsigned_value(s: Seq<char>) -> Option<nat> {
    let d = if s.len() > 0 && s[0] == '+' {
        s.drop_first()
    } else {
        s
    };
    if d.len() > 0 && is_digits(d) && digits_value(d) <= u32::MAX {
        Some(digits_value(d))
    } else {
        None
    }
}

/// The value of a zero-padded numeric field: the number that is left once
/// the leading zeros are gone, and 0 where that is no number.
pub open spec fn zero_padded_value(field: Seq<char>) -> nat {
    match unsigned_value(strip_leading_zeros(field)) {
        Some(v) => v,
        None => 0,
    }
}

/// The value of a prefix of a run of digits is at most the value of the run.
proof fn lemma_digits_value_prefix(s: Seq<char>, k: int)
    requires
        is_digits(s),
        0 <= k <= s.len(),
    ensures
        digits_value(s.take(k)) <= digits_value(s),
    decreases s.len() - k,
{
    if k == s.len() {
        assert(s.take(k) =~= s);
    } else {
        let t = s.drop_last();
        assert(t.take(k) =~= s.take(k));
        assert('0' <= s.last() <= '9');
        lemma_digits_value_prefix(t, k);
    }
}

/// The value of the zero-padded field `chars[from..to]`.
fn zero_padded_value_of(chars: &Vec<char>, from: usize, to: usize) -> (v: u32)
    requires
        from <= to <= chars@.len(),
    ensures
        v == zero_padded_value(chars@.subrange(from as int, to as int)),
{
    let ghost field = chars@.subrange(from as int, to as int);
    let mut i: usize = from;
    assert(field.skip(0) =~= field);
    while i < to && chars[i] == '0'
        invariant
            from <= i <= to <= chars@.len(),
            field == chars@.subrange(from as int, to as int),
            strip_leading_zeros(field) == strip_leading_zeros(field.skip(i - from)),
        decreases to - i,
    {
        proof {
            let rest = field.skip(i - from);
            assert(rest[0] == '0');
            assert(rest.drop_first() =~= field.skip(i + 1 - from));
        }
        i = i + 1;
    }
    let ghost stripped = field.skip(i - from);
    assert(strip_leading_zeros(field) == stripped);
    if i < to && chars[i] == '+' {
        i = i + 1;
        assert(stripped.drop_first() =~= field.skip(i - from));
    }
    let ghost d = field.skip(i - from);
    if i == to {
        return 0;
    }
    let start: usize = i;
    let mut v: u32 = 0;
    assert(d.take(0) =~= Seq::<char>::empty());
    while i < to
        invariant
            from <= start <= i <= to <= chars@.len(),
            field == chars@.subrange(from as int, to as int),
            d == field.skip(start - from),
            d.len() == to - start,
            unsigned_value(strip_leading_zeros(field)) == (if is_digits(d) && digits_value(d)
                <= u32::MAX {
                Some(digits_value(d))
            } else {
                None
            }),
            is_digits(d.take(i - start)),
            v == digits_value(d.take(i - start)),
        decreases to - i,
    {
        let c = chars[i];
        assert(d[i - start] == c);
        if c < '0' || c > '9' {
            return 0;
        }
        let digit_value: u32 = (c as u32) - 0x30;
        proof {
            let next = d.take(i + 1 - start);
            assert(next.drop_last() =~= d.take(i - start));
            assert(next.last() == c);
            assert(digits_value(next) == v * 10 + digit_value);
            assert(is_digits(next));
            if is_digits(d) {
                lemma_digits_value_prefix(d, i + 1 - start);
            }
        }
        match v.checked_mul(10) {
            None => {
                return 0;
            },
            Some(tens) => match tens.checked_add(digit_value) {
                None => {
                    return 0;
                },
                Some(sum) => {
                    v = sum;
                },
            },
        }
        i = i + 1;
    }
    assert(d.take(to - start) =~= d);
    v
}

/// Reads a zero-padded numeric field.
pub fn parse_zero_padded(field: &str) -> (v: u32)
    ensures
        v == zero_padded_value(field@),
{
    let chars = chars_of(field);
    assert(chars@.subrange(0, chars@.len() as int) =~= field@);
    zero_padded_value_of(&chars, 0, chars.len())
}

/// The display code of a book: its identifier, the category code from
/// characters 3 to 6 of the secondary code, and the price from characters
/// 8 to 11. There is none where either is missing, the identifier is empty
/// or the secondary code has fewer than twelve characters.
pub open spec fn book_number_text(isdn: Option<String>, jan2: Option<String>) -> Option<
    Seq<char>,
> {
    match (isdn, jan2) {
        (Some(i), Some(j)) => if i@.len() == 0 || j@.len() < 12 {
            None
        } else {
            Some(
                i@ + seq![' ', 'C'] + j@.subrange(3, 7) + seq![' '] + price_text(
                    zero_padded_value(j@.subrange(8, 12)),
                ),
            )
        },
        _ => None,
    }
}

/// Derives the display code of a book from its identifier and its
/// secondary code.
pub fn format_book_number(isdn: &Option<String>, jan2: &Option<String>) -> (r: Option<String>)
    ensures
        match r {
            Some(s) => book_number_text(*isdn, *jan2) == Some(s@),
            None => book_number_text(*isdn, *jan2) is None,
        },
{
    match (isdn, jan2) {
        (Some(isdn_str), Some(jan2_str)) => {
            let code = chars_of(jan2_str.as_str());
            if isdn_str.as_str().is_empty() || code.len() < 12 {
                return None;
            }
            let price_value = zero_padded_value_of(&code, 8, 12);
            let price = format_price(price_value);
            let mut out = String::new();
            out.append(isdn_str.as_str());
            out.push(' ');
            out.push('C');
            push_chars(&mut out, &code, 3, 7);
            out.push(' ');
            out.append(price.as_str());
            assert(book_number_text(*isdn, *jan2) == Some(
                isdn_str@ + seq![' ', 'C'] + jan2_str@.subrange(3, 7) + seq![' '] + price_text(
                    zero_padded_value(jan2_str@.subrange(8, 12)),
                ),
            ));
            assert(out@ =~= isdn_str@ + seq![' ', 'C'] + jan2_str@.subrange(3, 7) + seq![' ']
                + price_text(zero_padded_value(jan2_str@.subrange(8, 12))));
            Some(out)
        },
        _ => None,
    }
}

/// A hyphen becomes a slash; any other character is itself.
pub open spec fn slashed(c: char) -> char {
    if c == '-' {
        '/'
    } else {
        c
    }
}

/// Date and time of a transaction for display: of a text of sixteen
/// characters or more, the first ten with slashes for hyphens, a space, and
/// characters 11 to 15; a shorter text as it is.
pub open spec fn datetime_text(s: Seq<char>) -> Seq<char> {
    if s.len() >= 16 {
        Seq::new(10, |i: int| slashed(s[i])) + seq![' '] + s.subrange(11, 16)
    } else {
        s
    }
}

/// Reformats the date and time of a transaction.
pub fn format_transaction_datetime(iso_datetime: &str) -> (s: String)
    ensures
        s@ == datetime_text(iso_datetime@),
{
    let chars = chars_of(iso_datetime);
    if chars.len() >= 16 {
        let mut s = String::new();
        let mut i: usize = 0;
        while i < 10
            invariant
                i <= 10,
                chars@ == iso_datetime@,
                chars@.len() >= 16,
                s@ == Seq::new(i as nat, |k: int| slashed(chars@[k])),
            decreases 10 - i,
        {
            let c = chars[i];
            s.push(if c == '-' { '/' } else { c });
            i = i + 1;
            assert(s@ =~= Seq::new(i as nat, |k: int| slashed(chars@[k])));
        }
        s.push(' ');
        push_chars(&mut s, &chars, 11, 16);
        assert(s@ =~= datetime_text(iso_datetime@));
        s
    } else {
        iso_datetime.to_owned()
    }
}

} // verus!
