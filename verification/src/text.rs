//! Text that the harness reads and writes: decimal numbers, trimming, searching and joining,
//! each stated over sequences of characters.

use vstd::prelude::*;

verus! {

/// `String::push` appends the given character to the end of the string.
pub assume_specification[ String::push ](s: &mut String, c: char)
    ensures
        final(s)@ == old(s)@.push(c),
;

/// Classes of characters that the trimming functions strip.
#[derive(Clone, Copy, PartialEq, Eq, Structural, Debug)]
pub enum CharClass {
    /// The Unicode `White_Space` property.
    WhiteSpace,
    /// A forward slash.
    Slash,
    /// Anything that cannot be part of an amount: neither an ASCII digit, nor a dot, nor a space.
    NonAmount,
}

/// `c` has the Unicode `White_Space` property.
pub open spec fn white_space(c: char) -> bool {
    ||| '\u{9}' <= c <= '\u{d}'
    ||| c == '\u{20}'
    ||| c == '\u{85}'
    ||| c == '\u{a0}'
    ||| c == '\u{1680}'
    ||| '\u{2000}' <= c <= '\u{200a}'
    ||| c == '\u{2028}'
    ||| c == '\u{2029}'
    ||| c == '\u{202f}'
    ||| c == '\u{205f}'
    ||| c == '\u{3000}'
}

/// `c` is one of `0` to `9`.
pub open spec fn is_digit(c: char) -> bool {
    '0' <= c <= '9'
}

impl CharClass {
    pub open spec fn holds(self, c: char) -> bool {
        match self {
            CharClass::WhiteSpace => white_space(c),
            CharClass::Slash => c == '/',
            CharClass::NonAmount => !is_digit(c) && c != '.' && c != ' ',
        }
    }

    /// Tells whether `c` belongs to the class.
    pub fn contains(self, c: char) -> (r: bool)
        ensures
            r == self.holds(c),
    {
        match self {
            CharClass::WhiteSpace => {
                ('\u{9}' <= c && c <= '\u{d}') || c == '\u{20}' || c == '\u{85}' || c == '\u{a0}' || c
                    == '\u{1680}' || ('\u{2000}' <= c && c <= '\u{200a}') || c == '\u{2028}' || c
                    == '\u{2029}' || c == '\u{202f}' || c == '\u{205f}' || c == '\u{3000}'
            },
            CharClass::Slash => c == '/',
            CharClass::NonAmount => !('0' <= c && c <= '9') && c != '.' && c != ' ',
        }
    }
}

/// `s` without its longest prefix of characters of the class.
pub open spec fn trim_start(s: Seq<char>, class: CharClass) -> Seq<char>
    decreases s.len(),
{
    if s.len() > 0 && class.holds(s.first()) {
        trim_start(s.drop_first(), class)
    } else {
        s
    }
}

/// `s` without its longest suffix of characters of the class.
pub open spec fn trim_end(s: Seq<char>, class: CharClass) -> Seq<char>
    decreases s.len(),
{
    if s.len() > 0 && class.holds(s.last()) {
        trim_end(s.drop_last(), class)
    } else {
        s
    }
}

/// `s` without the white space at either end.
pub open spec fn trim(s: Seq<char>) -> Seq<char> {
    trim_end(trim_start(s, CharClass::WhiteSpace), CharClass::WhiteSpace)
}

/// The characters of `s`, in order.
pub fn chars_of(s: &str) -> (r: Vec<char>)
    ensures
        r@ == s@,
{
    let mut out: Vec<char> = Vec::new();
    for c in it: s.chars()
        invariant
            it.seq() == s@,
            out@ == s@.take(it.index()),
    {
        proof {
            assert(s@.take(it.index() + 1) =~= s@.take(it.index()).push(c));
        }
        out.push(c);
    }
    proof {
        assert(s@.take(s@.len() as int) =~= s@);
    }
    out
}

/// The text made of the characters `lo..hi` of `chars`.
pub fn text_of(chars: &Vec<char>, lo: usize, hi: usize) -> (r: String)
    requires
        lo <= hi <= chars.len(),
    ensures
        r@ == chars@.subrange(lo as int, hi as int),
{
    let mut out = String::new();
    let mut i: usize = lo;
    while i < hi
        invariant
            lo <= i <= hi <= chars.len(),
            out@ == chars@.subrange(lo as int, i as int),
        decreases hi - i,
    {
        out.push(chars[i]);
        proof {
            assert(chars@.subrange(lo as int, i + 1) =~= chars@.subrange(lo as int, i as int).push(
                chars@[i as int],
            ));
        }
        i = i + 1;
    }
    out
}

/// The end of what is left of `chars[lo..hi]` once its suffix of the class is gone.
fn trimmed_end(chars: &Vec<char>, lo: usize, hi: usize, class: CharClass) -> (r: usize)
    requires
        lo <= hi <= chars.len(),
    ensures
        lo <= r <= hi,
        chars@.subrange(lo as int, r as int) == trim_end(
            chars@.subrange(lo as int, hi as int),
            class,
        ),
{
    let mut end: usize = hi;
    while end > lo && class.contains(chars[end - 1])
        invariant
            lo <= end <= hi <= chars.len(),
            trim_end(chars@.subrange(lo as int, end as int), class) == trim_end(
                chars@.subrange(lo as int, hi as int),
                class,
            ),
        decreases end,
    {
        proof {
            let s = chars@.subrange(lo as int, end as int);
            assert(s.last() == chars@[end - 1]);
            assert(s.drop_last() =~= chars@.subrange(lo as int, end - 1));
        }
        end = end - 1;
    }
    proof {
        let s = chars@.subrange(lo as int, end as int);
        if end > lo {
            assert(s.last() == chars@[end - 1]);
        }
    }
    end
}

/// The start of what is left of `chars[lo..hi]` once its prefix of the class is gone.
fn trimmed_start(chars: &Vec<char>, lo: usize, hi: usize, class: CharClass) -> (r: usize)
    requires
        lo <= hi <= chars.len(),
    ensures
        lo <= r <= hi,
        chars@.subrange(r as int, hi as int) == trim_start(
            chars@.subrange(lo as int, hi as int),
            class,
        ),
{
    let mut start: usize = lo;
    while start < hi && class.contains(chars[start])
        invariant
            lo <= start <= hi <= chars.len(),
            trim_start(chars@.subrange(start as int, hi as int), class) == trim_start(
                chars@.subrange(lo as int, hi as int),
                class,
            ),
        decreases hi - start,
    {
        proof {
            let s = chars@.subrange(start as int, hi as int);
            assert(s.first() == chars@[start as int]);
            assert(s.drop_first() =~= chars@.subrange(start + 1, hi as int));
        }
        start = start + 1;
    }
    proof {
        let s = chars@.subrange(start as int, hi as int);
        if start < hi {
            assert(s.first() == chars@[start as int]);
        }
    }
    start
}

/// `s` without the white space at either end.
pub fn trim_text(s: &str) -> (r: String)
    ensures
        r@ == trim(s@),
{
    let chars = chars_of(s);
    let lo: usize = trimmed_start(&chars, 0, chars.len(), CharClass::WhiteSpace);
    let hi: usize = trimmed_end(&chars, lo, chars.len(), CharClass::WhiteSpace);
    proof {
        assert(chars@.subrange(0, chars@.len() as int) =~= s@);
    }
    text_of(&chars, lo, hi)
}

/// `s` without its longest suffix of characters of the class.
pub fn trim_end_text(s: &str, class: CharClass) -> (r: String)
    ensures
        r@ == trim_end(s@, class),
{
    let chars = chars_of(s);
    let hi: usize = trimmed_end(&chars, 0, chars.len(), class);
    proof {
        assert(chars@.subrange(0, chars@.len() as int) =~= s@);
    }
    text_of(&chars, 0, hi)
}

/// Tells whether two texts are the same.
pub fn same_text(a: &str, b: &str) -> (r: bool)
    ensures
        r == (a@ == b@),
{
    a.to_owned() == b.to_owned()
}

/// The digit of value `d`.
pub open spec fn digit_char(d: nat) -> char {
    ('0' as nat + d) as char
}

/// The value of the digit `c`.
pub open spec fn digit_value(c: char) -> nat {
    (c as nat - '0' as nat) as nat
}

/// `n` written in decimal, without leading zeros.
pub open spec fn decimal(n: nat) -> Seq<char>
    decreases n,
{
    if n < 10 {
        seq![digit_char(n)]
    } else {
        decimal(n / 10).push(digit_char(n % 10))
    }
}

/// All characters of `s` are digits.
pub open spec fn all_digits(s: Seq<char>) -> bool {
    forall|i: int| 0 <= i < s.len() ==> is_digit(#[trigger] s[i])
}

/// The number that the digits `s` write in decimal.
pub open spec fn digits_value(s: Seq<char>) -> nat
    decreases s.len(),
{
    if s.len() == 0 {
        0
    } else {
        digits_value(s.drop_last()) * 10 + digit_value(s.last())
    }
}

/// The number that `s` writes: an optional `+`, then one digit or more, within 64 bits.
pub open spec fn unsigned(s: Seq<char>) -> Option<u64> {
    let digits = if s.len() > 0 && s[0] == '+' {
        s.drop_first()
    } else {
        s
    };
    if digits.len() > 0 && all_digits(digits) && digits_value(digits) <= u64::MAX {
        Some(digits_value(digits) as u64)
    } else {
        None
    }
}

/// Writing a number in decimal and reading its digits gives the number back.
pub proof fn decimal_reads_back(n: nat)
    ensures
        decimal(n).len() > 0,
        all_digits(decimal(n)),
        digits_value(decimal(n)) == n,
    decreases n,
{
    reveal_with_fuel(digits_value, 2);
    if n >= 10 {
        decimal_reads_back(n / 10);
        assert(decimal(n).drop_last() =~= decimal(n / 10));
    }
}

/// Two numbers that are written alike are the same number.
pub proof fn decimal_is_injective(a: nat, b: nat)
    requires
        decimal(a) == decimal(b),
    ensures
        a == b,
{
    decimal_reads_back(a);
    decimal_reads_back(b);
}

/// A longer run of digits never has a smaller value.
proof fn digits_value_grows(s: Seq<char>, i: int)
    requires
        0 <= i <= s.len(),
    ensures
        digits_value(s.take(i)) <= digits_value(s),
    decreases s.len() - i,
{
    if i < s.len() {
        digits_value_grows(s, i + 1);
        assert(s.take(i + 1).drop_last() =~= s.take(i));
    } else {
        assert(s.take(i) =~= s);
    }
}

/// The digit of value `d`.
fn digit_of(d: u64) -> (r: char)
    requires
        d < 10,
    ensures
        r == digit_char(d as nat),
{
    (48u8 + d as u8) as char
}

/// `n` written in decimal.
pub fn decimal_text(n: u64) -> (r: String)
    ensures
        r@ == decimal(n as nat),
    decreases n,
{
    let mut out = if n < 10 {
        String::new()
    } else {
        decimal_text(n / 10)
    };
    out.push(digit_of(n % 10));
    proof {
        assert(n < 10 ==> out@ =~= seq![digit_char(n as nat)]);
    }
    out
}

/// Reads an unsigned 64-bit number: an optional `+`, then digits only.
pub fn parse_unsigned(s: &str) -> (r: Option<u64>)
    ensures
        r == unsigned(s@),
{
    let chars = chars_of(s);
    let start: usize = if chars.len() > 0 && chars[0] == '+' {
        1
    } else {
        0
    };
    let ghost digits = if start == 1 {
        s@.drop_first()
    } else {
        s@
    };
    proof {
        assert(digits =~= chars@.subrange(start as int, chars@.len() as int));
    }
    if start == chars.len() {
        return None;
    }
    let mut value: u64 = 0;
    let mut i: usize = start;
    while i < chars.len()
        invariant
            start <= i <= chars.len(),
            start < chars.len(),
            digits == chars@.subrange(start as int, chars@.len() as int),
            unsigned(s@) == (if digits.len() > 0 && all_digits(digits) && digits_value(digits)
                <= u64::MAX {
                Some(digits_value(digits) as u64)
            } else {
                None
            }),
            all_digits(digits.take(i - start)),
            value == digits_value(digits.take(i - start)),
        decreases chars.len() - i,
    {
        let c = chars[i];
        let ghost k = i - start;
        proof {
            assert(digits[k] == c);
            assert(digits.take(k + 1).drop_last() =~= digits.take(k));
            assert(digits.take(k + 1).last() == c);
            digits_value_grows(digits, k + 1);
        }
        if !('0' <= c && c <= '9') {
            return None;
        }
        let d: u64 = (c as u32 - '0' as u32) as u64;
        if value > (u64::MAX - d) / 10 {
            return None;
        }
        value = value * 10 + d;
        i = i + 1;
        proof {
            assert forall|j: int| 0 <= j < k + 1 implies is_digit(#[trigger] digits.take(k + 1)[j]) by {
                if j < k {
                    assert(digits.take(k)[j] == digits.take(k + 1)[j]);
                }
            }
        }
    }
    proof {
        assert(digits.take(digits.len() as int) =~= digits);
    }
    Some(value)
}

/// The texts of `list`, each by its characters.
pub open spec fn texts(list: Seq<String>) -> Seq<Seq<char>> {
    Seq::new(list.len(), |i: int| list[i]@)
}

/// The longest prefix of `s` without `c`.
pub open spec fn before_first(s: Seq<char>, c: char) -> Seq<char>
    decreases s.len(),
{
    if s.len() == 0 || s.first() == c {
        Seq::empty()
    } else {
        seq![s.first()] + before_first(s.drop_first(), c)
    }
}

/// The longest suffix of `s` without `c`.
pub open spec fn after_last(s: Seq<char>, c: char) -> Seq<char>
    decreases s.len(),
{
    if s.len() == 0 || s.last() == c {
        Seq::empty()
    } else {
        after_last(s.drop_last(), c).push(s.last())
    }
}

/// `s` without any `c`.
pub open spec fn without(s: Seq<char>, c: char) -> Seq<char>
    decreases s.len(),
{
    if s.len() == 0 {
        s
    } else if s.last() == c {
        without(s.drop_last(), c)
    } else {
        without(s.drop_last(), c).push(s.last())
    }
}

/// `needle` occurs in `s`.
pub open spec fn has_text(s: Seq<char>, needle: Seq<char>) -> bool {
    exists|i: int|
        0 <= i <= s.len() - needle.len() && #[trigger] s.subrange(i, i + needle.len()) == needle
}

/// The first line of `s`, without its line feed and the carriage return before that.
pub open spec fn first_line(s: Seq<char>) -> Seq<char> {
    let line = before_first(s, '\n');
    if line.len() < s.len() && line.len() > 0 && line.last() == '\r' {
        line.drop_last()
    } else {
        line
    }
}

/// What follows the first line of `s`.
pub open spec fn after_first_line(s: Seq<char>) -> Seq<char> {
    let n = before_first(s, '\n').len() as int;
    if n < s.len() {
        s.skip(n + 1)
    } else {
        Seq::empty()
    }
}

/// The first line of `s` in which `needle` occurs.
pub open spec fn line_with(s: Seq<char>, needle: Seq<char>) -> Option<Seq<char>>
    decreases s.len(),
{
    if s.len() == 0 {
        None
    } else if has_text(first_line(s), needle) {
        Some(first_line(s))
    } else {
        line_with(after_first_line(s), needle)
    }
}

/// What `before_first` leaves: a prefix without `c`, followed by `c` or by nothing.
pub proof fn before_first_stops(s: Seq<char>, c: char)
    ensures
        before_first(s, c).len() <= s.len(),
        before_first(s, c) == s.take(before_first(s, c).len() as int),
        before_first(s, c).len() < s.len() ==> s[before_first(s, c).len() as int] == c,
        forall|i: int| 0 <= i < before_first(s, c).len() ==> s[i] != c,
    decreases s.len(),
{
    if s.len() > 0 && s.first() != c {
        let rest = s.drop_first();
        before_first_stops(rest, c);
        let k = before_first(rest, c).len() as int;
        assert(before_first(s, c) =~= s.take(k + 1));
        assert forall|i: int| 0 <= i < k + 1 implies s[i] != c by {
            if i > 0 {
                assert(rest[i - 1] == s[i]);
            }
        }
    } else {
        assert(before_first(s, c) =~= s.take(0));
    }
}

/// A prefix without `c` that is followed by `c`, or by nothing, is what `before_first` gives.
pub proof fn before_first_is(s: Seq<char>, c: char, n: int)
    requires
        0 <= n <= s.len(),
        forall|i: int| 0 <= i < n ==> s[i] != c,
        n == s.len() || s[n] == c,
    ensures
        before_first(s, c) == s.take(n),
{
    before_first_stops(s, c);
}

/// The position of the first `c` at or behind `lo`, or the length if there is none.
fn find_char(chars: &Vec<char>, lo: usize, c: char) -> (r: usize)
    requires
        lo <= chars.len(),
    ensures
        lo <= r <= chars.len(),
        before_first(chars@.skip(lo as int), c) == chars@.subrange(lo as int, r as int),
{
    let mut i: usize = lo;
    while i < chars.len() && chars[i] != c
        invariant
            lo <= i <= chars.len(),
            forall|j: int| lo <= j < i ==> chars@[j] != c,
        decreases chars.len() - i,
    {
        i = i + 1;
    }
    proof {
        let s = chars@.skip(lo as int);
        before_first_is(s, c, i - lo);
        assert(s.take(i - lo) =~= chars@.subrange(lo as int, i as int));
    }
    i
}

/// Tells whether `needle` occurs in `chars[lo..hi]`.
fn range_has_text(chars: &Vec<char>, lo: usize, hi: usize, needle: &Vec<char>) -> (r: bool)
    requires
        lo <= hi <= chars.len(),
    ensures
        r == has_text(chars@.subrange(lo as int, hi as int), needle@),
{
    let ghost s = chars@.subrange(lo as int, hi as int);
    if needle.len() > hi - lo {
        return false;
    }
    let mut i: usize = lo;
    while i <= hi - needle.len()
        invariant
            lo <= i <= hi - needle.len() + 1,
            needle.len() <= hi - lo,
            hi <= chars.len(),
            s == chars@.subrange(lo as int, hi as int),
            forall|k: int|
                0 <= k < i - lo ==> #[trigger] s.subrange(k, k + needle@.len()) != needle@,
        decreases hi - i,
    {
        let mut j: usize = 0;
        while j < needle.len() && chars[i + j] == needle[j]
            invariant
                j <= needle.len(),
                lo <= i <= hi - needle.len(),
                hi <= chars.len(),
                forall|k: int| 0 <= k < j ==> chars@[i + k] == needle@[k],
            decreases needle.len() - j,
        {
            j = j + 1;
        }
        let ghost window = s.subrange(i - lo, i - lo + needle@.len());
        if j == needle.len() {
            proof {
                assert(window =~= needle@);
            }
            return true;
        }
        proof {
            assert(window[j as int] != needle@[j as int]);
        }
        if i == hi {
            return false;
        }
        i = i + 1;
    }
    false
}

/// The first line of `s` in which `needle` occurs.
pub fn find_line(s: &str, needle: &str) -> (r: Option<String>)
    ensures
        match r {
            Some(line) => line_with(s@, needle@) == Some(line@),
            None => line_with(s@, needle@) is None,
        },
{
    let chars = chars_of(s);
    let pattern = chars_of(needle);
    let mut lo: usize = 0;
    proof {
        assert(chars@.skip(0) =~= s@);
    }
    while lo < chars.len()
        invariant
            lo <= chars.len(),
            pattern@ == needle@,
            line_with(s@, needle@) == line_with(chars@.skip(lo as int), needle@),
        decreases chars.len() - lo,
    {
        let ghost rest = chars@.skip(lo as int);
        let end: usize = find_char(&chars, lo, '\n');
        let hi: usize = if end < chars.len() && end > lo && chars[end - 1] == '\r' {
            end - 1
        } else {
            end
        };
        proof {
            before_first_stops(rest, '\n');
            assert(first_line(rest) =~= chars@.subrange(lo as int, hi as int));
        }
        if range_has_text(&chars, lo, hi, &pattern) {
            return Some(text_of(&chars, lo, hi));
        }
        if end == chars.len() {
            proof {
                assert(after_first_line(rest) =~= Seq::empty());
                assert(line_with(after_first_line(rest), needle@) is None);
            }
            return None;
        }
        proof {
            assert(after_first_line(rest) =~= chars@.skip(end + 1));
        }
        lo = end + 1;
    }
    None
}

/// The text behind the last `c`, all of it if there is none.
pub fn text_after_last(s: &str, c: char) -> (r: String)
    ensures
        r@ == after_last(s@, c),
{
    let chars = chars_of(s);
    let mut lo: usize = chars.len();
    let ghost whole = chars@;
    proof {
        assert(whole.take(whole.len() as int) =~= whole);
        assert(whole.skip(whole.len() as int) =~= Seq::empty());
    }
    while lo > 0 && chars[lo - 1] != c
        invariant
            lo <= chars.len(),
            whole == chars@,
            after_last(whole, c) =~= after_last(whole.take(lo as int), c) + whole.skip(lo as int),
        decreases lo,
    {
        proof {
            let head = whole.take(lo as int);
            assert(head.last() == whole[lo - 1]);
            assert(head.drop_last() =~= whole.take(lo - 1));
        }
        lo = lo - 1;
    }
    proof {
        let head = whole.take(lo as int);
        if lo > 0 {
            assert(head.last() == c);
        }
        assert(after_last(head, c) =~= Seq::empty());
        assert(whole.skip(lo as int) =~= whole.subrange(lo as int, whole.len() as int));
    }
    text_of(&chars, lo, chars.len())
}

/// `s` without any `c`.
pub fn remove_char(s: &str, c: char) -> (r: String)
    ensures
        r@ == without(s@, c),
{
    let chars = chars_of(s);
    let mut out = String::new();
    let mut i: usize = 0;
    while i < chars.len()
        invariant
            i <= chars.len(),
            out@ == without(chars@.take(i as int), c),
        decreases chars.len() - i,
    {
        proof {
            let next = chars@.take(i + 1);
            assert(next.last() == chars@[i as int]);
            assert(next.drop_last() =~= chars@.take(i as int));
        }
        if chars[i] != c {
            out.push(chars[i]);
        }
        i = i + 1;
    }
    proof {
        assert(chars@.take(chars@.len() as int) =~= s@);
    }
    out
}

/// A suffix without `c` that follows a `c`, or nothing, is what `after_last` gives.
pub proof fn after_last_is(s: Seq<char>, c: char, n: int)
    requires
        0 <= n <= s.len(),
        forall|i: int| n <= i < s.len() ==> s[i] != c,
        n == 0 || s[n - 1] == c,
    ensures
        after_last(s, c) == s.skip(n),
    decreases s.len() - n,
{
    if n < s.len() {
        after_last_is(s.drop_last(), c, n);
        assert(s.skip(n) =~= s.drop_last().skip(n).push(s.last()));
    } else {
        assert(s.skip(n) =~= Seq::empty());
    }
}

/// Removing a character works part by part.
pub proof fn without_splits(a: Seq<char>, b: Seq<char>, c: char)
    ensures
        without(a + b, c) == without(a, c) + without(b, c),
    decreases b.len(),
{
    if b.len() == 0 {
        assert(a + b =~= a);
        assert(without(a, c) + without(b, c) =~= without(a, c));
    } else {
        without_splits(a, b.drop_last(), c);
        assert((a + b).drop_last() =~= a + b.drop_last());
        assert((a + b).last() == b.last());
        if b.last() != c {
            assert(without(a, c) + without(b, c) =~= (without(a, c) + without(b.drop_last(), c)).push(
                b.last(),
            ));
        }
    }
}

/// Removing a character that does not occur changes nothing.
pub proof fn without_keeps(s: Seq<char>, c: char)
    requires
        forall|i: int| 0 <= i < s.len() ==> s[i] != c,
    ensures
        without(s, c) == s,
    decreases s.len(),
{
    if s.len() > 0 {
        without_keeps(s.drop_last(), c);
        assert(s.drop_last().push(s.last()) =~= s);
    }
}

/// What is left after trimming the end is a prefix that ends in no character of the class.
proof fn trim_end_is_a_prefix(s: Seq<char>, class: CharClass)
    ensures
        trim_end(s, class).len() <= s.len(),
        trim_end(s, class) == s.take(trim_end(s, class).len() as int),
        trim_end(s, class).len() > 0 ==> !class.holds(trim_end(s, class).last()),
    decreases s.len(),
{
    if s.len() > 0 && class.holds(s.last()) {
        trim_end_is_a_prefix(s.drop_last(), class);
        let k = trim_end(s, class).len() as int;
        assert(s.drop_last().take(k) =~= s.take(k));
    } else {
        assert(s.take(s.len() as int) =~= s);
    }
}

/// What is left after trimming the start begins with no character of the class.
proof fn trim_start_stops(s: Seq<char>, class: CharClass)
    ensures
        trim_start(s, class).len() > 0 ==> !class.holds(trim_start(s, class).first()),
    decreases s.len(),
{
    if s.len() > 0 && class.holds(s.first()) {
        trim_start_stops(s.drop_first(), class);
    }
}

/// Text that was trimmed once is not changed by trimming it again.
pub proof fn trimming_again_changes_nothing(s: Seq<char>)
    ensures
        trim(trim(s)) == trim(s),
{
    let class = CharClass::WhiteSpace;
    let inner = trim_start(s, class);
    trim_start_stops(s, class);
    trim_end_is_a_prefix(inner, class);
}

/// A byte in two lower-case hexadecimal digits.
pub open spec fn hex_byte(byte: u8) -> Seq<char> {
    seq![hex_digit((byte / 16) as nat), hex_digit((byte % 16) as nat)]
}

/// The lower-case hexadecimal digit of value `d`.
pub open spec fn hex_digit(d: nat) -> char {
    if d < 10 {
        ('0' as nat + d) as char
    } else {
        ('a' as nat + d - 10) as char
    }
}

/// Bytes in lower-case hexadecimal digits, two for each.
pub open spec fn hex_digits(bytes: Seq<u8>) -> Seq<char>
    decreases bytes.len(),
{
    if bytes.len() == 0 {
        Seq::empty()
    } else {
        hex_digits(bytes.drop_last()) + hex_byte(bytes.last())
    }
}

fn hex_digit_of(d: u8) -> (r: char)
    requires
        d < 16,
    ensures
        r == hex_digit(d as nat),
{
    if d < 10 {
        (48u8 + d) as char
    } else {
        (87u8 + d) as char
    }
}

/// Bytes in lower-case hexadecimal digits.
pub fn hex_text(bytes: &Vec<u8>) -> (r: String)
    ensures
        r@ == hex_digits(bytes@),
{
    let mut out = String::new();
    let mut i: usize = 0;
    while i < bytes.len()
        invariant
            i <= bytes.len(),
            out@ == hex_digits(bytes@.take(i as int)),
        decreases bytes.len() - i,
    {
        proof {
            let next = bytes@.take(i + 1);
            assert(next.drop_last() =~= bytes@.take(i as int));
            assert(next.last() == bytes@[i as int]);
        }
        let ghost before = out@;
        out.push(hex_digit_of(bytes[i] / 16));
        out.push(hex_digit_of(bytes[i] % 16));
        proof {
            assert(out@ =~= before + hex_byte(bytes@[i as int]));
        }
        i = i + 1;
    }
    proof {
        assert(bytes@.take(bytes@.len() as int) =~= bytes@);
    }
    out
}

/// Hexadecimal digits are twice as many as the bytes, and each of them is a digit or a letter from
/// `a` to `f`.
pub proof fn hex_doubles_the_length(bytes: Seq<u8>)
    ensures
        hex_digits(bytes).len() == 2 * bytes.len(),
        forall|i: int|
            0 <= i < hex_digits(bytes).len() ==> {
                let c = #[trigger] hex_digits(bytes)[i];
                '0' <= c <= '9' || 'a' <= c <= 'f'
            },
    decreases bytes.len(),
{
    if bytes.len() > 0 {
        hex_doubles_the_length(bytes.drop_last());
    }
}

/// A word of ASCII letters and digits.
pub open spec fn plain_word(text: Seq<char>) -> bool {
    forall|i: int|
        0 <= i < text.len() ==> is_digit(#[trigger] text[i]) || 'a' <= text[i] <= 'z' || 'A'
            <= text[i] <= 'Z'
}

/// How `Debug` writes a text.
pub uninterp spec fn debug_quoted(text: Seq<char>) -> Seq<char>;

/// `Debug` for `str`: double quotes around the text, inside which special characters are escaped.
/// Letters and digits stand for themselves; how other characters are escaped is not said.
#[verifier::external_body]
pub(crate) fn debug_text(text: &str) -> (r: String)
    ensures
        r@ == debug_quoted(text@),
        plain_word(text@) ==> r@ == "\""@ + text@ + "\""@,
{
    format!("{:?}", text)
}

/// The bytes that UTF-8 takes for a character.
pub open spec fn utf8_len(c: char) -> nat {
    if c <= '\u{7f}' {
        1
    } else if c <= '\u{7ff}' {
        2
    } else if c <= '\u{ffff}' {
        3
    } else {
        4
    }
}

/// The bytes that UTF-8 takes for a text.
pub open spec fn utf8_size(s: Seq<char>) -> nat
    decreases s.len(),
{
    if s.len() == 0 {
        0
    } else {
        utf8_size(s.drop_last()) + utf8_len(s.last())
    }
}

/// `head` is the longest prefix of `s` that takes no more than `limit` bytes.
pub open spec fn excerpt_of(head: Seq<char>, s: Seq<char>, limit: nat) -> bool {
    &&& head.len() <= s.len()
    &&& head == s.take(head.len() as int)
    &&& utf8_size(head) <= limit
    &&& head.len() < s.len() ==> utf8_size(s.take(head.len() as int + 1)) > limit
}

/// The longest prefix of `s` that takes no more than `limit` bytes.
pub fn excerpt(s: &str, limit: u64) -> (r: String)
    ensures
        excerpt_of(r@, s@, limit as nat),
{
    let chars = chars_of(s);
    let mut size: u64 = 0;
    let mut i: usize = 0;
    while i < chars.len()
        invariant
            i <= chars.len(),
            chars@ == s@,
            size == utf8_size(s@.take(i as int)),
            size <= limit,
        decreases chars.len() - i,
    {
        let c = chars[i];
        let width: u64 = if c <= '\u{7f}' {
            1
        } else if c <= '\u{7ff}' {
            2
        } else if c <= '\u{ffff}' {
            3
        } else {
            4
        };
        proof {
            let next = s@.take(i + 1);
            assert(next.drop_last() =~= s@.take(i as int));
            assert(next.last() == c);
        }
        if width > limit - size {
            proof {
                assert(chars@.subrange(0, i as int) =~= s@.take(i as int));
            }
            return text_of(&chars, 0, i);
        }
        size = size + width;
        i = i + 1;
    }
    proof {
        assert(chars@.subrange(0, i as int) =~= s@.take(i as int));
    }
    text_of(&chars, 0, i)
}

/// A text that takes no more than `limit` bytes is its own excerpt.
pub proof fn short_texts_are_kept(head: Seq<char>, s: Seq<char>, limit: nat)
    requires
        excerpt_of(head, s, limit),
        utf8_size(s) <= limit,
    ensures
        head == s,
{
    if head.len() < s.len() {
        utf8_size_grows(s, head.len() as int + 1);
    }
    assert(s.take(s.len() as int) =~= s);
}

/// A longer prefix takes no fewer bytes.
proof fn utf8_size_grows(s: Seq<char>, n: int)
    requires
        0 <= n <= s.len(),
    ensures
        utf8_size(s.take(n)) <= utf8_size(s),
    decreases s.len() - n,
{
    if n < s.len() {
        utf8_size_grows(s, n + 1);
        assert(s.take(n + 1).drop_last() =~= s.take(n));
    } else {
        assert(s.take(n) =~= s);
    }
}

/// A number that is written in decimal is read as that number, also with a plus in front of it. An empty
/// text, and one with any other character in it, is no number, and neither is one that 64 bits do not
/// hold.
pub proof fn numbers_read_back(n: nat, s: Seq<char>, i: int)
    ensures
        n <= u64::MAX ==> unsigned(decimal(n)) == Some(n as u64),
        n <= u64::MAX ==> unsigned(seq!['+'] + decimal(n)) == Some(n as u64),
        n > u64::MAX ==> unsigned(decimal(n)) is None,
        s.len() == 0 ==> unsigned(s) is None,
        0 <= i < s.len() && !('0' <= s[i] <= '9') && (i > 0 || s[i] != '+') ==> unsigned(s) is None,
{
    decimal_reads_back(n);
    let signed = seq!['+'] + decimal(n);
    assert(signed.drop_first() =~= decimal(n));
    assert(is_digit(decimal(n)[0]));
    if 0 <= i < s.len() && !('0' <= s[i] <= '9') && (i > 0 || s[i] != '+') {
        if s[0] == '+' {
            assert(s.drop_first()[i - 1] == s[i]);
            assert(!is_digit(s.drop_first()[i - 1]));
        } else {
            assert(!is_digit(s[i]));
        }
    }
}

/// Trimming at the end takes off characters of the class only, and all of them.
pub proof fn trimming_takes_the_end_off(s: Seq<char>, class: CharClass)
    ensures
        ({
            let kept = trim_end(s, class);
            &&& kept.len() <= s.len()
            &&& kept == s.take(kept.len() as int)
            &&& forall|i: int| kept.len() <= i < s.len() ==> class.holds(#[trigger] s[i])
            &&& kept.len() > 0 ==> !class.holds(kept.last())
        }),
    decreases s.len(),
{
    if s.len() > 0 && class.holds(s.last()) {
        let rest = s.drop_last();
        trimming_takes_the_end_off(rest, class);
        let kept = trim_end(s, class);
        assert(kept =~= s.take(kept.len() as int));
        assert forall|i: int| kept.len() <= i < s.len() implies class.holds(#[trigger] s[i]) by {
            if i < rest.len() {
                assert(rest[i] == s[i]);
            }
        }
    } else {
        assert(s =~= s.take(s.len() as int));
    }
}

/// Trimming at the start takes off characters of the class only, and all of them.
pub proof fn trimming_takes_the_start_off(s: Seq<char>, class: CharClass)
    ensures
        ({
            let kept = trim_start(s, class);
            let n = s.len() - kept.len();
            &&& 0 <= n
            &&& kept == s.skip(n)
            &&& forall|i: int| 0 <= i < n ==> class.holds(#[trigger] s[i])
            &&& kept.len() > 0 ==> !class.holds(kept.first())
        }),
    decreases s.len(),
{
    if s.len() > 0 && class.holds(s.first()) {
        let rest = s.drop_first();
        trimming_takes_the_start_off(rest, class);
        let kept = trim_start(s, class);
        let n = s.len() - kept.len();
        assert(kept =~= s.skip(n));
        assert forall|i: int| 0 <= i < n implies class.holds(#[trigger] s[i]) by {
            if i > 0 {
                assert(rest[i - 1] == s[i]);
            }
        }
    } else {
        assert(s =~= s.skip(0));
    }
}

/// A trimmed text is a stretch of the text with nothing but white space around it, and with none at its
/// own ends; a text without white space at its ends stays as it is.
pub proof fn trimmed_texts_lose_white_space_only(s: &str, r: String)
    requires
        call_ensures(trim_text, (s,), r),
    ensures
        exists|lo: int, hi: int|
            {
                &&& 0 <= lo <= hi <= s@.len()
                &&& r@ == #[trigger] s@.subrange(lo, hi)
                &&& forall|i: int| 0 <= i < lo || hi <= i < s@.len() ==> white_space(#[trigger] s@[i])
            },
        r@.len() > 0 ==> !white_space(r@.first()) && !white_space(r@.last()),
        s@.len() > 0 && !white_space(s@.first()) && !white_space(s@.last()) ==> r@ == s@,
{
    let class = CharClass::WhiteSpace;
    let started = trim_start(s@, class);
    trimming_takes_the_start_off(s@, class);
    trimming_takes_the_end_off(started, class);
    let lo = s@.len() - started.len();
    let hi = lo + r@.len();
    assert(r@ =~= s@.subrange(lo, hi));
    assert forall|i: int| 0 <= i < lo || hi <= i < s@.len() implies white_space(
        #[trigger] s@[i],
    ) by {
        if i < lo {
            assert(class.holds(s@[i]));
        } else {
            assert(started[i - lo] == s@[i]);
            assert(class.holds(started[i - lo]));
        }
    }
}

/// A class of characters holds what it is named after.
pub proof fn classes_hold_what_they_are_named_after(class: CharClass, c: char, r: bool)
    requires
        call_ensures(CharClass::contains, (class, c), r),
    ensures
        class is Slash ==> (r <==> c == '/'),
        class is NonAmount ==> (r <==> !('0' <= c <= '9' || c == '.' || c == ' ')),
        class is WhiteSpace && (c == ' ' || c == '\t' || c == '\n' || c == '\r') ==> r,
        class is WhiteSpace && '!' <= c <= '~' ==> !r,
{
}

/// What is left of a text without a character holds every other character of the text, no new one, and
/// not that one.
pub proof fn removed_characters_are_gone(s: Seq<char>, c: char)
    ensures
        !without(s, c).contains(c),
        without(s, c).len() <= s.len(),
        forall|d: char| d != c && s.contains(d) ==> without(s, c).contains(d),
        forall|d: char| without(s, c).contains(d) ==> s.contains(d),
    decreases s.len(),
{
    if s.len() > 0 {
        let rest = s.drop_last();
        removed_characters_are_gone(rest, c);
        let kept = without(s, c);
        assert forall|d: char| d != c && s.contains(d) implies kept.contains(d) by {
            let i = choose|i: int| 0 <= i < s.len() && s[i] == d;
            if i < rest.len() {
                assert(rest[i] == d);
                assert(rest.contains(d));
                let j = choose|j: int| 0 <= j < without(rest, c).len() && without(rest, c)[j] == d;
                assert(kept[j] == d);
            } else {
                assert(kept.last() == d);
            }
        }
        assert forall|d: char| kept.contains(d) implies s.contains(d) by {
            let i = choose|i: int| 0 <= i < kept.len() && kept[i] == d;
            if i < without(rest, c).len() {
                assert(without(rest, c)[i] == d);
                assert(without(rest, c).contains(d));
                assert(rest.contains(d));
                let j = choose|j: int| 0 <= j < rest.len() && rest[j] == d;
                assert(s[j] == d);
            } else {
                assert(s[s.len() - 1] == d);
            }
        }
        if kept.contains(c) {
            let i = choose|i: int| 0 <= i < kept.len() && kept[i] == c;
            if i < without(rest, c).len() {
                assert(without(rest, c)[i] == c);
            }
        }
    }
}

/// A number in decimal ends with its ones and has its tens in front of them, each by its own digit; below
/// ten it is a single digit.
pub proof fn decimals_have_their_digits(n: u64, r: String)
    requires
        call_ensures(decimal_text, (n,), r),
    ensures
        r@.len() > 0,
        r@.last() as int == '0' as int + n % 10,
        n < 10 ==> r@.len() == 1,
        n >= 10 ==> r@.drop_last() == decimal((n / 10) as nat),
        r@.len() > 1 ==> r@.first() != '0',
{
    decimal_has_no_zero_in_front(n as nat);
    if n >= 10 {
        assert(r@.drop_last() =~= decimal((n / 10) as nat));
    }
}

/// A number above zero does not begin with a zero.
proof fn decimal_has_no_zero_in_front(n: nat)
    ensures
        decimal(n).len() > 0,
        n > 0 ==> decimal(n).first() != '0',
        n == 0 ==> decimal(n).len() == 1,
    decreases n,
{
    if n >= 10 {
        decimal_has_no_zero_in_front(n / 10);
        assert(decimal(n).first() == decimal(n / 10).first());
    }
}

/// The value of a hexadecimal digit.
pub open spec fn hex_value(c: char) -> int {
    if c <= '9' {
        c as int - '0' as int
    } else {
        c as int - 'a' as int + 10
    }
}

/// The digits of each byte give the byte back, the higher one first.
pub proof fn hex_reads_back(bytes: Seq<u8>, i: int)
    requires
        0 <= i < bytes.len(),
    ensures
        hex_digits(bytes).len() == 2 * bytes.len(),
        16 * hex_value(hex_digits(bytes)[2 * i]) + hex_value(hex_digits(bytes)[2 * i + 1])
            == bytes[i],
    decreases bytes.len(),
{
    hex_doubles_the_length(bytes);
    let before = bytes.drop_last();
    hex_doubles_the_length(before);
    if i < before.len() {
        hex_reads_back(before, i);
        assert(hex_digits(bytes)[2 * i] == hex_digits(before)[2 * i]);
        assert(hex_digits(bytes)[2 * i + 1] == hex_digits(before)[2 * i + 1]);
    } else {
        let byte = bytes[i];
        assert(hex_digits(bytes)[2 * i] == hex_byte(byte)[0]);
        assert(hex_digits(bytes)[2 * i + 1] == hex_byte(byte)[1]);
    }
}

/// The bytes of a text of ASCII characters are as many as the characters.
proof fn ascii_takes_one_byte_each(s: Seq<char>)
    requires
        forall|i: int| 0 <= i < s.len() ==> #[trigger] s[i] <= '\u{7f}',
    ensures
        utf8_size(s) == s.len(),
    decreases s.len(),
{
    if s.len() > 0 {
        let before = s.drop_last();
        assert forall|i: int| 0 <= i < before.len() implies #[trigger] before[i] <= '\u{7f}' by {
            assert(before[i] == s[i]);
        }
        ascii_takes_one_byte_each(before);
        assert(s.last() == s[s.len() - 1]);
    }
}

/// An excerpt of a text of ASCII characters is its beginning, as long as the limit allows, and all of it
/// where it is no longer.
pub proof fn excerpts_are_as_long_as_they_may_be(s: &str, limit: u64, r: String)
    requires
        call_ensures(excerpt, (s, limit), r),
        forall|i: int| 0 <= i < s@.len() ==> #[trigger] s@[i] <= '\u{7f}',
    ensures
        s@.len() <= limit ==> r@ == s@,
        s@.len() > limit ==> r@ == s@.take(limit as int),
{
    let n = r@.len() as int;
    assert(excerpt_of(r@, s@, limit as nat));
    assert forall|k: int| 0 <= k <= s@.len() implies utf8_size(#[trigger] s@.take(k)) == k by {
        let head = s@.take(k);
        assert forall|i: int| 0 <= i < head.len() implies #[trigger] head[i] <= '\u{7f}' by {
            assert(head[i] == s@[i]);
        }
        ascii_takes_one_byte_each(head);
    }
    assert(utf8_size(s@.take(n)) == n);
    if n < s@.len() {
        assert(utf8_size(s@.take(n + 1)) == n + 1);
    } else {
        assert(s@.take(n) =~= s@);
    }
}

} // verus!
