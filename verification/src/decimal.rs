//! Decimal text, as the venue transmits its numeric fields: digits with at
//! most one point among them, such as `4`, `0.5`, `.5` or `4.`.
//!
//! Nothing else is read as a number: no sign, no exponent, no `inf` or
//! `nan`. A number is held exactly or not at all, so decimal text with more
//! than 19 digits behind the point, or with digits that do not fit in 64
//! bits when read as one whole number, is not read either; it is never
//! rounded.

use vstd::prelude::*;
use vstd::string::*;
use crate::ratio::{lemma_ratio_integer, ratio_value, Ratio};

verus! {

pub open spec fn is_digit(c: char) -> bool {
    '0' <= c <= '9'
}

pub open spec fn digit_value(c: char) -> nat {
    if is_digit(c) {
        (c as u32 - '0' as u32) as nat
    } else {
        0
    }
}

pub open spec fn all_digits(s: Seq<char>) -> bool {
    forall|i: int| 0 <= i < s.len() ==> is_digit(#[trigger] s[i])
}

/// The number that a run of digits writes.
pub open spec fn digits_value(s: Seq<char>) -> nat
    decreases s.len(),
{
    if s.len() == 0 {
        0
    } else {
        digits_value(s.drop_last()) * 10 + digit_value(s.last())
    }
}

pub open spec fn pow10(k: nat) -> nat
    decreases k,
{
    if k == 0 {
        1
    } else {
        10 * pow10((k - 1) as nat)
    }
}

/// The digits after position `p`: the fraction, where `p` is the point.
pub open spec fn fraction_at(s: Seq<char>, p: int) -> Seq<char> {
    if p < s.len() {
        s.subrange(p + 1, s.len() as int)
    } else {
        Seq::empty()
    }
}

/// Whether `s` is decimal text with its point at `p`; `p` is the length of
/// `s` where `s` has no point.
pub open spec fn is_decimal_at(s: Seq<char>, p: int) -> bool {
    &&& 0 <= p <= s.len()
    &&& all_digits(s.subrange(0, p))
    &&& p < s.len() ==> s[p] == '.'
    &&& all_digits(fraction_at(s, p))
    &&& p + fraction_at(s, p).len() > 0
}

/// Whether `s` is decimal text: digits, at most one point, at least one digit.
pub open spec fn is_decimal(s: Seq<char>) -> bool {
    exists|p: int| is_decimal_at(s, p)
}

/// The place of the point in decimal text.
pub open spec fn point_index(s: Seq<char>) -> int {
    choose|p: int| is_decimal_at(s, p)
}

/// The digits of decimal text, with the point taken out.
pub open spec fn decimal_digits(s: Seq<char>) -> Seq<char> {
    s.subrange(0, point_index(s)) + fraction_at(s, point_index(s))
}

/// How many digits follow the point.
pub open spec fn decimal_scale(s: Seq<char>) -> nat {
    fraction_at(s, point_index(s)).len()
}

/// The number that decimal text writes.
pub open spec fn decimal_value(s: Seq<char>) -> real {
    ratio_value(digits_value(decimal_digits(s)), pow10(decimal_scale(s)))
}

/// Whether `s` is decimal text that `parse_decimal` reads: its digits, read
/// as one whole number, fit in 64 bits, and at most 19 of them follow the
/// point.
pub open spec fn is_readable(s: Seq<char>) -> bool {
    &&& is_decimal(s)
    &&& digits_value(decimal_digits(s)) <= u64::MAX
    &&& decimal_scale(s) <= 19
}

/// Decimal text has its point in one place only.
pub proof fn lemma_point_unique(s: Seq<char>, p: int)
    requires
        is_decimal_at(s, p),
    ensures
        is_decimal(s),
        point_index(s) == p,
{
    let q = point_index(s);
    assert(is_decimal_at(s, q));
    if q < p {
        assert(s.subrange(0, p)[q] == s[q]);
    } else if p < q {
        assert(s.subrange(0, q)[p] == s[p]);
    }
}

/// Appending one character to a run of digits.
pub proof fn lemma_digits_push(s: Seq<char>, c: char)
    ensures
        digits_value(s.push(c)) == digits_value(s) * 10 + digit_value(c),
{
    assert(s.push(c).drop_last() =~= s);
}

/// What a run of characters writes is no less than what a prefix of it writes.
pub proof fn lemma_digits_prefix(a: Seq<char>, b: Seq<char>)
    ensures
        digits_value(a + b) >= digits_value(a),
    decreases b.len(),
{
    if b.len() == 0 {
        assert(a + b =~= a);
    } else {
        lemma_digits_prefix(a, b.drop_last());
        assert((a + b).drop_last() =~= a + b.drop_last());
    }
}

fn pow10_u64(k: u8) -> (r: u64)
    requires
        k <= 19,
    ensures
        r == pow10(k as nat),
{
    let mut r: u64 = 1;
    let mut i: u8 = 0;
    assert(pow10(19) == 10_000_000_000_000_000_000) by {
        reveal_with_fuel(pow10, 20);
    }
    while i < k
        invariant
            i <= k <= 19,
            r == pow10(i as nat),
            pow10(19) == 10_000_000_000_000_000_000,
        decreases k - i,
    {
        proof {
            lemma_pow10_monotonic(i as nat + 1, 19);
        }
        r = r * 10;
        i = i + 1;
    }
    r
}

proof fn lemma_pow10_monotonic(a: nat, b: nat)
    requires
        a <= b,
    ensures
        pow10(a) <= pow10(b),
        pow10(a) > 0,
    decreases b,
{
    if a < b {
        lemma_pow10_monotonic(a, (b - 1) as nat);
    } else if a > 0 {
        lemma_pow10_monotonic((a - 1) as nat, (a - 1) as nat);
    }
}

/// Reads decimal text as an exact fraction.
///
/// Text that is not decimal (a sign, an exponent, a second point, a letter,
/// no digit at all) gives `None`, and so does decimal text with more digits
/// than `is_readable` admits.
pub fn parse_decimal(text: &str) -> (r: Option<Ratio>)
    ensures
        r is Some <==> is_readable(text@),
        r matches Some(x) ==> x@ == decimal_value(text@),
{
    let ghost s = text@;
    if !text.is_ascii() {
        proof {
            assert forall|p: int| !is_decimal_at(s, p) by {
                if is_decimal_at(s, p) {
                    let i = choose|i: int|
                        0 <= i < s.len() && !('\0' <= #[trigger] s[i] <= '\u{7f}');
                    if i < p {
                        assert(s.subrange(0, p)[i] == s[i]);
                    } else if i > p {
                        assert(fraction_at(s, p)[i - p - 1] == s[i]);
                    }
                }
            }
        }
        return None;
    }
    let n = text.unicode_len();
    let mut i: usize = 0;
    let mut point: usize = n;
    let mut num: u64 = 0;
    let mut scale: u8 = 0;
    while i < n
        invariant
            s == text@,
            is_ascii(text),
            n == s.len(),
            i <= n,
            point == n || point < i,
            point == n ==> all_digits(s.subrange(0, i as int)) && num == digits_value(
                s.subrange(0, i as int),
            ) && scale == 0,
            point < n ==> s[point as int] == '.' && all_digits(s.subrange(0, point as int))
                && all_digits(s.subrange(point + 1, i as int)) && num == digits_value(
                s.subrange(0, point as int) + s.subrange(point + 1, i as int),
            ) && scale == i - point - 1 && scale <= 19,
        decreases n - i,
    {
        let b = text.get_ascii(i);
        let ghost c = s[i as int];
        assert(c as u32 == b as u32);
        if b == 46 && point == n {
            assert(c == '.');
            point = i;
            assert(s.subrange(point + 1, i + 1) =~= Seq::<char>::empty());
            assert(s.subrange(0, point as int) + s.subrange(point + 1, i + 1) =~= s.subrange(
                0,
                point as int,
            ));
        } else if 48 <= b && b <= 57 {
            assert(is_digit(c));
            let d: u64 = (b - 48) as u64;
            assert(d == digit_value(c));
            let ghost before = if point == n {
                s.subrange(0, i as int)
            } else {
                s.subrange(0, point as int) + s.subrange(point + 1, i as int)
            };
            let ghost after = if point == n {
                s.subrange(0, i + 1)
            } else {
                s.subrange(0, point as int) + s.subrange(point + 1, i + 1)
            };
            proof {
                assert(after =~= before.push(c));
                lemma_digits_push(before, c);
            }
            if num > (u64::MAX - d) / 10 || (point < n && scale == 19) {
                proof {
                    if is_decimal(s) {
                        let p = point_index(s);
                        assert(is_decimal_at(s, p));
                        if point == n {
                            if p <= i {
                                assert(s[p] == '.');
                                assert(s.subrange(0, i + 1)[p] == s[p]);
                                assert(all_digits(s.subrange(0, i + 1))) by {
                                    assert forall|j: int| 0 <= j < i + 1 implies is_digit(
                                        #[trigger] s.subrange(0, i + 1)[j],
                                    ) by {
                                        if j < i {
                                            assert(s.subrange(0, i as int)[j] == s[j]);
                                        }
                                    }
                                }
                            }
                            assert(p > i);
                            let rest = s.subrange(i + 1, p) + fraction_at(s, p);
                            assert(decimal_digits(s) =~= after + rest);
                            lemma_digits_prefix(after, rest);
                        } else {
                            if p < point {
                                assert(s.subrange(0, point as int)[p] == s[p]);
                            } else if p > point {
                                assert(s.subrange(0, p)[point as int] == s[point as int]);
                            }
                            assert(p == point);
                            let rest = s.subrange(i + 1, n as int);
                            assert(decimal_digits(s) =~= after + rest);
                            lemma_digits_prefix(after, rest);
                            assert(decimal_scale(s) >= i - point);
                        }
                    }
                }
                return None;
            }
            num = num * 10 + d;
            if point < n {
                scale = scale + 1;
            }
            proof {
                if point == n {
                    assert forall|j: int| 0 <= j < i + 1 implies is_digit(
                        #[trigger] s.subrange(0, i + 1)[j],
                    ) by {
                        if j < i {
                            assert(s.subrange(0, i as int)[j] == s[j]);
                        }
                    }
                } else {
                    assert forall|j: int| 0 <= j < i - point implies is_digit(
                        #[trigger] s.subrange(point + 1, i + 1)[j],
                    ) by {
                        if j < i - point - 1 {
                            assert(s.subrange(point + 1, i as int)[j] == s[point + 1 + j]);
                        }
                    }
                }
            }
        } else {
            proof {
                assert(!is_digit(c));
                assert forall|p: int| !is_decimal_at(s, p) by {
                    if is_decimal_at(s, p) {
                        if point == n {
                            assert(c != '.');
                            if p < i {
                                assert(s.subrange(0, i as int)[p] == s[p]);
                            } else if p > i {
                                assert(s.subrange(0, p)[i as int] == s[i as int]);
                            }
                        } else {
                            if p < point {
                                assert(s.subrange(0, point as int)[p] == s[p]);
                            } else if p > point {
                                assert(s.subrange(0, p)[point as int] == s[point as int]);
                            } else {
                                assert(fraction_at(s, p)[i - p - 1] == s[i as int]);
                            }
                        }
                    }
                }
            }
            return None;
        }
        i = i + 1;
    }
    if (point == n && n == 0) || (point < n && n == 1) {
        proof {
            assert forall|p: int| !is_decimal_at(s, p) by {
                if is_decimal_at(s, p) {
                    if point < n && p > point {
                        assert(s.subrange(0, p)[point as int] == s[point as int]);
                    }
                }
            }
        }
        return None;
    }
    proof {
        assert(is_decimal_at(s, point as int)) by {
            if point < n {
                assert(fraction_at(s, point as int) =~= s.subrange(point + 1, n as int));
            }
        }
        lemma_point_unique(s, point as int);
        if point == n {
            assert(decimal_digits(s) =~= s.subrange(0, n as int));
        }
    }
    let den = pow10_u64(scale);
    proof {
        lemma_pow10_monotonic(scale as nat, scale as nat);
    }
    Ratio::new(num, den)
}

/// The character that writes the digit `d`.
pub open spec fn digit_char(d: nat) -> char {
    if d == 0 {
        '0'
    } else if d == 1 {
        '1'
    } else if d == 2 {
        '2'
    } else if d == 3 {
        '3'
    } else if d == 4 {
        '4'
    } else if d == 5 {
        '5'
    } else if d == 6 {
        '6'
    } else if d == 7 {
        '7'
    } else if d == 8 {
        '8'
    } else {
        '9'
    }
}

/// The decimal text of a whole number, without leading zeros.
pub open spec fn integer_text(n: nat) -> Seq<char>
    decreases n,
{
    if n < 10 {
        seq![digit_char(n)]
    } else {
        integer_text(n / 10).push(digit_char(n % 10))
    }
}

/// The text of a whole number is a run of digits that writes the number:
/// what `write_integer` writes, `parse_decimal` reads back.
pub proof fn lemma_integer_text(n: nat)
    ensures
        integer_text(n).len() > 0,
        all_digits(integer_text(n)),
        digits_value(integer_text(n)) == n,
        is_decimal(integer_text(n)),
        decimal_value(integer_text(n)) == n as real,
    decreases n,
{
    let t = integer_text(n);
    if n < 10 {
        assert(t.drop_last() =~= Seq::<char>::empty());
        assert(digits_value(t.drop_last()) == 0);
        assert(digit_value(digit_char(n)) == n);
    } else {
        lemma_integer_text(n / 10);
        lemma_digits_push(integer_text(n / 10), digit_char(n % 10));
        assert(digit_value(digit_char(n % 10)) == n % 10);
    }
    assert(t.subrange(0, t.len() as int) =~= t);
    assert(is_decimal_at(t, t.len() as int));
    lemma_point_unique(t, t.len() as int);
    assert(decimal_digits(t) =~= t);
    assert(pow10(0) == 1);
    lemma_ratio_integer(n);
}

fn digit_text(d: u64) -> (r: &'static str)
    requires
        d < 10,
    ensures
        r@ == seq![digit_char(d as nat)],
{
    proof {
        reveal_strlit("0");
        reveal_strlit("1");
        reveal_strlit("2");
        reveal_strlit("3");
        reveal_strlit("4");
        reveal_strlit("5");
        reveal_strlit("6");
        reveal_strlit("7");
        reveal_strlit("8");
        reveal_strlit("9");
    }
    let r = if d == 0 {
        "0"
    } else if d == 1 {
        "1"
    } else if d == 2 {
        "2"
    } else if d == 3 {
        "3"
    } else if d == 4 {
        "4"
    } else if d == 5 {
        "5"
    } else if d == 6 {
        "6"
    } else if d == 7 {
        "7"
    } else if d == 8 {
        "8"
    } else {
        "9"
    };
    assert(r@ =~= seq![digit_char(d as nat)]);
    r
}

/// Writes a whole number in decimal.
pub fn write_integer(n: u64) -> (s: String)
    ensures
        s@ == integer_text(n as nat),
    decreases n,
{
    if n < 10 {
        String::from_str(digit_text(n))
    } else {
        let mut s = write_integer(n / 10);
        s.append(digit_text(n % 10));
        assert(s@ =~= integer_text((n / 10) as nat).push(digit_char((n % 10) as nat)));
        s
    }
}

/// The text of a fraction: the numerator, and behind a slash the
/// denominator where it is not 1.
pub open spec fn ratio_text(r: Ratio) -> Seq<char> {
    if r.spec_den() == 1 {
        integer_text(r.spec_num())
    } else {
        integer_text(r.spec_num()) + "/"@ + integer_text(r.spec_den())
    }
}

/// Writes a fraction as text.
pub fn write_ratio(r: &Ratio) -> (s: String)
    ensures
        s@ == ratio_text(*r),
{
    let mut s = write_integer(r.num());
    if r.den() != 1 {
        s.append("/");
        let den = write_integer(r.den());
        s.append(den.as_str());
    }
    s
}

} // verus!
