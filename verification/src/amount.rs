//! Amounts: which texts are plain numbers, which can be read without overflow, and which amounts can
//! be added up.

use vstd::prelude::*;

use crate::text::{
    all_digits, before_first, before_first_is, before_first_stops, chars_of, decimal, decimal_reads_back, digit_value,
    digits_value, is_digit,
};

verus! {

/// Characters up to which an amount is read as a decimal number.
pub const AMOUNT_LIMIT: usize = 30_000;

/// The number that a text of digits only writes, if 64 bits hold it.
pub open spec fn plain_number(text: Seq<char>) -> Option<u64> {
    if text.len() > 0 && all_digits(text) && digits_value(text) <= u64::MAX {
        Some(digits_value(text) as u64)
    } else {
        None
    }
}

/// What stands before the exponent of a decimal number.
pub open spec fn mantissa(text: Seq<char>) -> Seq<char> {
    before_first(before_first(text, 'e'), 'E')
}

/// What stands before the point of a decimal number, and before its exponent.
pub open spec fn whole_part(text: Seq<char>) -> Seq<char> {
    before_first(mantissa(text), '.')
}

/// How many digits a text holds, from the first one on that is not zero.
pub open spec fn significant_digits(s: Seq<char>) -> nat
    decreases s.len(),
{
    if s.len() == 0 {
        0
    } else {
        let before = significant_digits(s.drop_last());
        if is_digit(s.last()) && (s.last() != '0' || before > 0) {
            before + 1
        } else {
            before
        }
    }
}

/// The number that the digits in a text write.
pub open spec fn digits_within(s: Seq<char>) -> nat
    decreases s.len(),
{
    if s.len() == 0 {
        0
    } else if is_digit(s.last()) {
        10 * digits_within(s.drop_last()) + digit_value(s.last())
    } else {
        digits_within(s.drop_last())
    }
}

/// The exponent of a decimal number, zero if it has none.
pub open spec fn exponent(text: Seq<char>) -> int {
    let part = text.skip(mantissa(text).len() as int);
    if part.contains('-') {
        -(digits_within(part) as int)
    } else {
        digits_within(part) as int
    }
}

/// How many digits a decimal number has before its point when it is written without an exponent, not
/// counting zeros in front; if all digits before the point are zeros, the exponent alone.
pub open spec fn magnitude(text: Seq<char>) -> int {
    significant_digits(whole_part(text)) + exponent(text)
}

/// An amount on which `MicroMinotari::from_str` cannot overflow.
///
/// Without a point and with a digit at its end an amount is a plain number of µT. Any other may be
/// read into a decimal type and multiplied by a million there. That type refuses numbers of 127 and
/// more digits before the point, and its multiplication overflows from 127 digits in the product
/// on. So numbers of up to 119 digits can be multiplied, also when they are rounded up, and longer
/// ones are refused, unless they have from 120 to 126 digits. Beyond the limit of characters the
/// type's own counting may overflow.
pub open spec fn safe_amount(text: Seq<char>) -> bool {
    ||| (text.len() == 0 || is_digit(text.last())) && !text.contains('.')
    ||| {
        &&& text.len() <= AMOUNT_LIMIT
        &&& magnitude(text) < 120 || magnitude(text) > 126 && significant_digits(whole_part(text)) > 0
    }
}

/// The length of the longest prefix without `c` of the first `hi` of `chars`.
fn prefix_without(chars: &Vec<char>, hi: usize, c: char) -> (r: usize)
    requires
        hi <= chars.len(),
    ensures
        r <= hi,
        before_first(chars@.take(hi as int), c) == chars@.take(r as int),
        r < hi ==> chars@[r as int] == c,
        forall|i: int| 0 <= i < r ==> chars@[i] != c,
{
    let mut i: usize = 0;
    while i < hi && chars[i] != c
        invariant
            i <= hi <= chars.len(),
            forall|j: int| 0 <= j < i ==> chars@[j] != c,
        decreases hi - i,
    {
        i = i + 1;
    }
    proof {
        before_first_is(chars@.take(hi as int), c, i as int);
        assert(chars@.take(hi as int).take(i as int) =~= chars@.take(i as int));
    }
    i
}

/// Tells whether `c` is among `chars` from `lo` on.
fn occurs_from(chars: &Vec<char>, lo: usize, c: char) -> (r: bool)
    requires
        lo <= chars.len(),
    ensures
        r == chars@.skip(lo as int).contains(c),
{
    let ghost part = chars@.skip(lo as int);
    let mut i: usize = lo;
    while i < chars.len()
        invariant
            lo <= i <= chars.len(),
            part == chars@.skip(lo as int),
            forall|j: int| 0 <= j < i - lo ==> part[j] != c,
        decreases chars.len() - i,
    {
        if chars[i] == c {
            assert(part[i - lo] == c);
            return true;
        }
        i = i + 1;
    }
    false
}

/// Counts the digits among the first `hi` of `chars`, from the first one on that is not zero.
fn count_significant(chars: &Vec<char>, hi: usize) -> (r: usize)
    requires
        hi <= chars.len(),
    ensures
        r == significant_digits(chars@.take(hi as int)),
        r <= hi,
{
    let mut count: usize = 0;
    let mut i: usize = 0;
    while i < hi
        invariant
            i <= hi <= chars.len(),
            count == significant_digits(chars@.take(i as int)),
            count <= i,
        decreases hi - i,
    {
        let c = chars[i];
        proof {
            let next = chars@.take(i + 1);
            assert(next.drop_last() =~= chars@.take(i as int));
            assert(next.last() == c);
        }
        if '0' <= c && c <= '9' && (c != '0' || count > 0) {
            count = count + 1;
        }
        i = i + 1;
    }
    count
}

/// The number that the digits from `lo` on write, or the cap if it is not below that.
fn capped_number(chars: &Vec<char>, lo: usize, cap: u64) -> (r: u64)
    requires
        lo <= chars.len(),
        cap <= 1_000_000,
    ensures
        r <= cap,
        r < cap ==> r == digits_within(chars@.skip(lo as int)),
        r == cap ==> digits_within(chars@.skip(lo as int)) >= cap,
{
    let ghost part = chars@.skip(lo as int);
    let mut value: u64 = 0;
    let mut i: usize = lo;
    while i < chars.len()
        invariant
            lo <= i <= chars.len(),
            part == chars@.skip(lo as int),
            cap <= 1_000_000,
            value <= cap,
            value < cap ==> value == digits_within(part.take(i - lo)),
            value == cap ==> digits_within(part.take(i - lo)) >= cap,
        decreases chars.len() - i,
    {
        let c = chars[i];
        proof {
            let next = part.take(i - lo + 1);
            assert(next.drop_last() =~= part.take(i - lo));
            assert(next.last() == c);
        }
        if '0' <= c && c <= '9' {
            let longer: u64 = 10 * value + (c as u64 - '0' as u64);
            value = if longer < cap {
                longer
            } else {
                cap
            };
        }
        i = i + 1;
    }
    proof {
        assert(part.take(part.len() as int) =~= part);
    }
    value
}

/// Tells whether an amount is safe to read.
pub fn amount_is_safe(text: &str) -> (r: bool)
    ensures
        r == safe_amount(text@),
{
    let chars = chars_of(text);
    let n: usize = chars.len();
    proof {
        assert(chars@.skip(0) =~= chars@);
        assert(chars@.take(n as int) =~= chars@);
    }
    if (n == 0 || ('0' <= chars[n - 1] && chars[n - 1] <= '9')) && !occurs_from(&chars, 0, '.') {
        return true;
    }
    if n > AMOUNT_LIMIT {
        return false;
    }
    let end: usize = prefix_without(&chars, n, 'e');
    let end: usize = prefix_without(&chars, end, 'E');
    let point: usize = prefix_without(&chars, end, '.');
    let digits: usize = count_significant(&chars, point);
    let power: u64 = capped_number(&chars, end, 1_000_000);
    let magnitude: i64 = if occurs_from(&chars, end, '-') {
        digits as i64 - power as i64
    } else {
        digits as i64 + power as i64
    };
    magnitude < 120 || (magnitude > 126 && digits > 0)
}

/// Amounts together.
pub open spec fn total(amounts: Seq<u64>) -> nat
    decreases amounts.len(),
{
    if amounts.len() == 0 {
        0
    } else {
        total(amounts.drop_last()) + amounts.last() as nat
    }
}

/// Two lists of amounts whose totals can be added if each of them fits in 64 bits: one of them does
/// not, or both together do.
pub open spec fn totals_add_up(a: Seq<u64>, b: Seq<u64>) -> bool {
    total(a) > u64::MAX || total(b) > u64::MAX || total(a) + total(b) <= u64::MAX
}

/// Adds amounts up, if 64 bits hold their total.
fn checked_total(amounts: &Vec<u64>) -> (r: Option<u64>)
    ensures
        match r {
            Some(sum) => sum == total(amounts@),
            None => total(amounts@) > u64::MAX,
        },
{
    let mut sum: Option<u64> = Some(0);
    let mut i: usize = 0;
    while i < amounts.len()
        invariant
            i <= amounts.len(),
            match sum {
                Some(sum) => sum == total(amounts@.take(i as int)),
                None => total(amounts@.take(i as int)) > u64::MAX,
            },
        decreases amounts.len() - i,
    {
        proof {
            let next = amounts@.take(i + 1);
            assert(next.drop_last() =~= amounts@.take(i as int));
            assert(next.last() == amounts@[i as int]);
        }
        sum = match sum {
            Some(sum) => sum.checked_add(amounts[i]),
            None => None,
        };
        i = i + 1;
    }
    proof {
        assert(amounts@.take(amounts@.len() as int) =~= amounts@);
    }
    sum
}

/// Tells whether the totals of two lists of amounts can be added.
pub fn can_add_totals(a: &Vec<u64>, b: &Vec<u64>) -> (r: bool)
    ensures
        r == totals_add_up(a@, b@),
{
    match (checked_total(a), checked_total(b)) {
        (Some(a), Some(b)) => a.checked_add(b).is_some(),
        _ => true,
    }
}

/// Amounts add up one by one: one amount is its own total, and two lists together come to both totals.
pub proof fn amounts_add_up(a: Seq<u64>, b: Seq<u64>, amount: u64)
    ensures
        total(seq![amount]) == amount,
        total(a + b) == total(a) + total(b),
    decreases b.len(),
{
    reveal_with_fuel(total, 2);
    assert(seq![amount].drop_last() =~= Seq::empty());
    if b.len() == 0 {
        assert(a + b =~= a);
    } else {
        amounts_add_up(a, b.drop_last(), amount);
        assert((a + b).drop_last() =~= a + b.drop_last());
    }
}

/// Two totals cannot be added if each of them fits in 64 bits and both together do not; in every other
/// case nothing overflows unseen. Which of the two comes first does not matter.
pub proof fn totals_overflow_together_only(a: &Vec<u64>, b: &Vec<u64>, r: bool, swapped: bool)
    requires
        call_ensures(can_add_totals, (a, b), r),
        call_ensures(can_add_totals, (b, a), swapped),
    ensures
        !r <==> total(a@) <= u64::MAX && total(b@) <= u64::MAX && total(a@ + b@) > u64::MAX,
        r == swapped,
{
    amounts_add_up(a@, b@, 0);
}

/// A number of µT that is written in decimal is a plain number and safe to read.
pub proof fn written_amounts_are_plain(n: u64)
    ensures
        plain_number(decimal(n as nat)) == Some(n),
        safe_amount(decimal(n as nat)),
{
    decimal_reads_back(n as nat);
    let s = decimal(n as nat);
    assert(is_digit(s[s.len() - 1]));
    assert forall|i: int| 0 <= i < s.len() implies s[i] != '.' by {
        assert(is_digit(s[i]));
    }
}

/// An amount of fewer than 120 characters without an exponent is safe to read.
pub proof fn short_amounts_are_safe(text: &str, r: bool)
    requires
        call_ensures(amount_is_safe, (text,), r),
        text@.len() < 120,
        !text@.contains('e'),
        !text@.contains('E'),
    ensures
        r,
{
    let s = text@;
    assert forall|i: int| 0 <= i < s.len() implies s[i] != 'e' && s[i] != 'E' by {
        if s[i] == 'e' {
            assert(s.contains('e'));
        }
        if s[i] == 'E' {
            assert(s.contains('E'));
        }
    }
    before_first_is(s, 'e', s.len() as int);
    assert(s.take(s.len() as int) =~= s);
    before_first_is(s, 'E', s.len() as int);
    assert(mantissa(s) == s);
    let part = s.skip(s.len() as int);
    assert(part.len() == 0);
    assert(!part.contains('-'));
    assert(exponent(s) == 0);
    before_first_stops(s, '.');
    digits_are_no_more_than_characters(whole_part(s));
}

/// No text has more digits than characters.
proof fn digits_are_no_more_than_characters(s: Seq<char>)
    ensures
        significant_digits(s) <= s.len(),
    decreases s.len(),
{
    if s.len() > 0 {
        digits_are_no_more_than_characters(s.drop_last());
    }
}

} // verus!
