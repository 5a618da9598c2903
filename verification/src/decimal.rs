//! Canonical decimal text of integers: writing it and reading it back.

use crate::text::chars_of;
use vstd::prelude::*;

verus! {

/// The decimal digit that stands for `d`, for `d` from 0 to 9.
pub open spec fn digit_char(d: int) -> char {
    (('0' as u8) + d) as u8 as char
}

/// Whether `c` is one of the ten decimal digits.
pub open spec fn is_digit(c: char) -> bool {
    '0' <= c && c <= '9'
}

/// The number that the decimal digit `c` stands for.
pub open spec fn digit_value(c: char) -> int {
    (c as u8) - ('0' as u8)
}

/// The decimal digits of `n`, most significant first, without leading zeros.
pub open spec fn digits(n: nat) -> Seq<char>
    decreases n,
{
    if n < 10 {
        seq![digit_char(n as int)]
    } else {
        digits(n / 10).push(digit_char((n % 10) as int))
    }
}

/// The size of `n` without its sign.
pub open spec fn magnitude(n: int) -> nat {
    (if n < 0 {
        -n
    } else {
        n
    }) as nat
}

/// The canonical decimal text of `n`: a minus sign for a negative number,
/// then the digits of its size without leading zeros.
pub open spec fn decimal(n: int) -> Seq<char> {
    if n < 0 {
        seq!['-'] + digits(magnitude(n))
    } else {
        digits(magnitude(n))
    }
}

/// The digit for `d`.
fn digit_of(d: u8) -> (c: char)
    requires
        d < 10,
    ensures
        c == digit_char(d as int),
        is_digit(c),
        digit_value(c) == d,
{
    (48u8 + d) as char
}

/// Appends the digits of `n` to `out`.
fn push_digits(n: u64, out: &mut String)
    ensures
        final(out)@ == old(out)@ + digits(n as nat),
    decreases n,
{
    if n >= 10 {
        push_digits(n / 10, out);
    }
    out.push(digit_of((n % 10) as u8));
}

/// The canonical decimal text of an unsigned number.
pub fn decimal_of_u64(n: u64) -> (r: String)
    ensures
        r@ == decimal(n as int),
{
    let mut r = String::new();
    push_digits(n, &mut r);
    r
}

/// The canonical decimal text of a signed number.
pub fn decimal_of_i64(n: i64) -> (r: String)
    ensures
        r@ == decimal(n as int),
{
    let mut r = String::new();
    if n < 0 {
        r.push('-');
        let m: u64 = if n == i64::MIN { 9223372036854775808u64 } else { (-n) as u64 };
        push_digits(m, &mut r);
    } else {
        push_digits(n as u64, &mut r);
    }
    r
}

/// Whether every character of `s` is a decimal digit.
pub open spec fn all_digits(s: Seq<char>) -> bool {
    forall|i: int| 0 <= i < s.len() ==> is_digit(#[trigger] s[i])
}

/// The number that the digit string `s` denotes, most significant digit first.
pub open spec fn digits_value(s: Seq<char>) -> nat
    decreases s.len(),
{
    if s.len() == 0 {
        0
    } else {
        (digits_value(s.drop_last()) * 10 + digit_value(s.last())) as nat
    }
}

/// The digits of a number are digits, start with `0` only for zero, and
/// denote that number.
pub proof fn lemma_digits_shape(n: nat)
    ensures
        digits(n).len() >= 1,
        all_digits(digits(n)),
        digits(n)[0] == '0' <==> n == 0,
        digits_value(digits(n)) == n,
    decreases n,
{
    if n < 10 {
        let s = digits(n);
        assert(s.drop_last() =~= Seq::<char>::empty());
        assert(digits_value(s.drop_last()) == 0);
    } else {
        lemma_digits_shape(n / 10);
        let p = digits(n / 10);
        let s = digits(n);
        assert(s.drop_last() =~= p);
        assert(s[0] == p[0]);
    }
}

/// A digit string that does not start with `0` denotes a number above zero.
proof fn lemma_value_positive(s: Seq<char>)
    requires
        s.len() >= 1,
        all_digits(s),
        s[0] != '0',
    ensures
        digits_value(s) >= 1,
    decreases s.len(),
{
    if s.len() == 1 {
        assert(s.drop_last() =~= Seq::<char>::empty());
        assert(digits_value(s.drop_last()) == 0);
        assert(is_digit(s[0]));
    } else {
        let p = s.drop_last();
        assert(all_digits(p)) by {
            assert forall|i: int| 0 <= i < p.len() implies is_digit(#[trigger] p[i]) by {
                assert(p[i] == s[i]);
            }
        }
        lemma_value_positive(p);
        assert(is_digit(s[s.len() - 1]));
    }
}

/// A digit string without a leading zero is the digits of the number it
/// denotes.
pub proof fn lemma_digits_of_value(s: Seq<char>)
    requires
        s.len() >= 1,
        all_digits(s),
        s.len() == 1 || s[0] != '0',
    ensures
        digits(digits_value(s)) == s,
    decreases s.len(),
{
    let p = s.drop_last();
    let c = s.last();
    assert(is_digit(s[s.len() - 1]));
    if s.len() == 1 {
        assert(p =~= Seq::<char>::empty());
        assert(digits_value(p) == 0);
        assert(digits(digits_value(s)) =~= s);
    } else {
        assert(all_digits(p)) by {
            assert forall|i: int| 0 <= i < p.len() implies is_digit(#[trigger] p[i]) by {
                assert(p[i] == s[i]);
            }
        }
        assert(p[0] == s[0]);
        lemma_value_positive(p);
        lemma_digits_of_value(p);
        let v = digits_value(s);
        assert(v == digits_value(p) * 10 + digit_value(c));
        assert(v / 10 == digits_value(p));
        assert(v % 10 == digit_value(c));
        assert(digits(v) =~= s);
    }
}

/// The value of a digit string is at least the value of each of its prefixes.
proof fn lemma_value_prefix(s: Seq<char>, k: int)
    requires
        all_digits(s),
        0 <= k <= s.len(),
    ensures
        digits_value(s.take(k)) <= digits_value(s),
    decreases s.len() - k,
{
    if k == s.len() {
        assert(s.take(k) =~= s);
    } else {
        lemma_value_prefix(s, k + 1);
        let t = s.take(k + 1);
        assert(t.drop_last() =~= s.take(k));
        assert(is_digit(s[k]));
        assert(t.last() == s[k]);
    }
}

/// The decimal text of a number is not empty and holds digits only, but for
/// the minus sign in front of a negative number.
pub proof fn lemma_decimal_shape(n: int)
    ensures
        decimal(n).len() >= 1,
        forall|i: int|
            0 <= i < decimal(n).len() ==> is_digit(#[trigger] decimal(n)[i]) || (i == 0 && n < 0
                && decimal(n)[0] == '-'),
{
    let m = magnitude(n);
    lemma_digits_shape(m);
    let d = decimal(n);
    assert forall|i: int| 0 <= i < d.len() implies is_digit(#[trigger] d[i]) || (i == 0 && n < 0
        && d[0] == '-') by {
        if n < 0 {
            if i > 0 {
                assert(d[i] == digits(m)[i - 1]);
            }
        } else {
            assert(d[i] == digits(m)[i]);
        }
    }
}

/// Different numbers have different decimal texts.
pub proof fn lemma_decimal_injective(a: int, b: int)
    requires
        decimal(a) == decimal(b),
    ensures
        a == b,
{
    let na = magnitude(a);
    let nb = magnitude(b);
    lemma_digits_shape(na);
    lemma_digits_shape(nb);
    assert(is_digit(digits(na)[0]));
    assert(is_digit(digits(nb)[0]));
    if a < 0 {
        assert(decimal(a)[0] == '-');
        assert(decimal(a).skip(1) =~= digits(na));
    }
    if b < 0 {
        assert(decimal(b)[0] == '-');
        assert(decimal(b).skip(1) =~= digits(nb));
    }
}

/// Whether every number with decimal text `s` has the sign `neg` and the
/// digits `body`.
spec fn splits(s: Seq<char>, neg: bool, body: Seq<char>) -> bool {
    forall|n: int| s == #[trigger] decimal(n) ==> neg == (n < 0) && body == digits(magnitude(n))
}

/// Reads `s` as a number: the number whose decimal text `s` is, or none
/// where `s` is the decimal text of no number that fits in 64 bits.
fn read_decimal(s: &str) -> (r: Option<i64>)
    ensures
        match r {
            Some(n) => s@ == decimal(n as int),
            None => forall|n: int| i64::MIN <= n <= i64::MAX ==> s@ != #[trigger] decimal(n),
        },
{
    let v = chars_of(s);
    let len = v.len();
    let neg = len > 0 && v[0] == '-';
    let start: usize = if neg { 1 } else { 0 };
    let ghost body = v@.subrange(start as int, len as int);
    proof {
        assert forall|n: int| s@ == #[trigger] decimal(n) implies neg == (n < 0) && body == digits(
            magnitude(n),
        ) by {
            let m = magnitude(n);
            lemma_digits_shape(m);
            assert(is_digit(digits(m)[0]));
            if n < 0 {
                assert(decimal(n)[0] == '-');
                assert(decimal(n).skip(1) =~= digits(m));
                assert(v@.subrange(1, len as int) =~= v@.skip(1));
            } else {
                assert(v@.subrange(0, len as int) =~= v@);
            }
        }
        assert(splits(s@, neg, body));
    }
    if start >= len {
        proof {
            assert forall|n: int| i64::MIN <= n <= i64::MAX implies s@ != #[trigger] decimal(n) by {
                let m = magnitude(n);
                lemma_digits_shape(m);
            }
        }
        return None;
    }
    if v[start] == '0' && (neg || len - start > 1) {
        proof {
            assert forall|n: int| i64::MIN <= n <= i64::MAX implies s@ != #[trigger] decimal(n) by {
                let m = magnitude(n);
                lemma_digits_shape(m);
                if s@ == decimal(n) {
                    assert(body[0] == '0');
                    assert(m == 0);
                    assert(digits(0).len() == 1);
                }
            }
        }
        return None;
    }
    let limit: u64 = if neg { 9223372036854775808u64 } else { 9223372036854775807u64 };
    let mut acc: u64 = 0;
    let mut i: usize = start;
    while i < len
        invariant
            start <= i <= len,
            len == v.len(),
            body == v@.subrange(start as int, len as int),
            splits(s@, neg, body),
            all_digits(body.take(i - start)),
            acc == digits_value(body.take(i - start)),
            acc <= limit,
            limit == if neg { 9223372036854775808u64 } else { 9223372036854775807u64 },
        decreases len - i,
    {
        let c = v[i];
        if !('0' <= c && c <= '9') {
            proof {
                assert forall|n: int| i64::MIN <= n <= i64::MAX implies s@ != #[trigger] decimal(
                    n,
                ) by {
                    let m = magnitude(n);
                    lemma_digits_shape(m);
                    if s@ == decimal(n) {
                        assert(body[i - start] == c);
                        assert(is_digit(digits(m)[i - start]));
                    }
                }
            }
            return None;
        }
        let d: u64 = (c as u8 - 48u8) as u64;
        proof {
            let t = body.take(i - start + 1);
            assert(t.drop_last() =~= body.take(i - start));
            assert(t.last() == c);
            assert(all_digits(t)) by {
                assert forall|j: int| 0 <= j < t.len() implies is_digit(#[trigger] t[j]) by {
                    if j < i - start {
                        assert(body.take(i - start)[j] == t[j]);
                    }
                }
            }
            assert(digits_value(t) == acc * 10 + d);
        }
        if acc > (limit - d) / 10 {
            proof {
                assert(acc * 10 + d > limit);
                assert forall|n: int| i64::MIN <= n <= i64::MAX implies s@ != #[trigger] decimal(
                    n,
                ) by {
                    let m = magnitude(n);
                    lemma_digits_shape(m);
                    if s@ == decimal(n) {
                        lemma_value_prefix(body, i - start + 1);
                        assert(digits_value(body) == m);
                    }
                }
            }
            return None;
        }
        acc = acc * 10 + d;
        i = i + 1;
    }
    proof {
        assert(body.take(len - start) =~= body);
        lemma_digits_of_value(body);
        if neg {
            lemma_value_positive(body);
            assert(s@ =~= seq!['-'] + body);
        } else {
            assert(s@ =~= body);
        }
    }
    if neg {
        if acc == 9223372036854775808u64 {
            Some(i64::MIN)
        } else {
            Some(-(acc as i64))
        }
    } else {
        Some(acc as i64)
    }
}

/// The number whose canonical decimal text is `s`, if it is that of any.
pub open spec fn number_of(s: Seq<char>) -> Option<int> {
    if exists|n: int| s == #[trigger] decimal(n) {
        Some(choose|n: int| s == #[trigger] decimal(n))
    } else {
        None
    }
}

/// The number whose canonical decimal text is `s`, if it is that of a number
/// that fits in 64 bits.
pub open spec fn i64_of(s: Seq<char>) -> Option<i64> {
    match number_of(s) {
        Some(n) => if i64::MIN <= n <= i64::MAX {
            Some(n as i64)
        } else {
            None
        },
        None => None,
    }
}

/// Reading the decimal text of a number gives that number back.
pub proof fn lemma_number_of_decimal(n: int)
    ensures
        number_of(decimal(n)) == Some(n),
{
    let m = choose|m: int| decimal(n) == #[trigger] decimal(m);
    lemma_decimal_injective(n, m);
}

/// Reads the canonical decimal text of a number that fits in 64 bits.
///
/// The text is accepted exactly when it is what `decimal` gives for some
/// number in range: an optional minus sign and digits, with no leading zero,
/// no sign on zero, and nothing before or after.
pub fn parse_i64(s: &str) -> (r: Option<i64>)
    ensures
        r == i64_of(s@),
{
    let r = read_decimal(s);
    proof {
        match r {
            Some(n) => {
                lemma_number_of_decimal(n as int);
            },
            None => {
                if number_of(s@) is Some {
                    let m = number_of(s@)->0;
                    assert(s@ == decimal(m));
                }
            },
        }
    }
    r
}

/// A text is read as the number `n` exactly when it is the decimal text of
/// `n`. So a text that is no number's decimal text is read as no number,
/// and as zero only the text `0` is read.
pub proof fn lemma_i64_of_exact(s: Seq<char>, n: i64)
    ensures
        i64_of(s) == Some(n) <==> s == decimal(n as int),
{
    if s == decimal(n as int) {
        lemma_number_of_decimal(n as int);
    }
    if i64_of(s) == Some(n) {
        let m = number_of(s)->0;
        assert(s == decimal(m));
    }
}

} // verus!
