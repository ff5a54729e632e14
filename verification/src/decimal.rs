//! Decimal numerals: writing an unsigned integer in base ten, and reading one
//! back with the rules of std's `FromStr` for unsigned integers.
use vstd::prelude::*;
use crate::text::push_char;

verus! {

/// The digit character for `d` (`0 <= d < 10`).
pub open spec fn digit_char(d: int) -> char {
    if d == 0 {
        '0'
    } else if d == 1 {
        '1'
    } else if d == 2 {
        '2'
    } else if d == 3 {
        '3'
    } else if d == 4 {
        '4'
    } else if d == 5 {
        '5'
    } else if d == 6 {
        '6'
    } else if d == 7 {
        '7'
    } else if d == 8 {
        '8'
    } else {
        '9'
    }
}

/// `c` is one of the ASCII digits `0`..`9`.
pub open spec fn is_digit(c: char) -> bool {
    '0' <= c && c <= '9'
}

/// The value of the digit character `c`.
pub open spec fn digit_value(c: char) -> nat {
    ((c as int) - ('0' as int)) as nat
}

/// The shortest base-ten numeral of `n`, without sign or leading zeros.
pub open spec fn decimal(n: nat) -> Seq<char>
    decreases n,
{
    if n < 10 {
        seq![digit_char(n as int)]
    } else {
        decimal(n / 10).push(digit_char((n % 10) as int))
    }
}

/// The three digits of `n` (`n < 1000`), with leading zeros.
pub open spec fn three_digits(n: nat) -> Seq<char> {
    seq![digit_char((n / 100) as int), digit_char(((n / 10) % 10) as int), digit_char((n % 10) as int)]
}

/// The base-ten numeral of `n` with a `,` between groups of three digits,
/// counted from the right (`4832` is written `4,832`).
pub open spec fn grouped_decimal(n: nat) -> Seq<char>
    decreases n,
{
    if n < 1000 {
        decimal(n)
    } else {
        grouped_decimal(n / 1000) + seq![','] + three_digits(n % 1000)
    }
}

/// Every character of `s` is a digit.
pub open spec fn all_digits(s: Seq<char>) -> bool {
    forall|i: int| 0 <= i < s.len() ==> is_digit(#[trigger] s[i])
}

/// The number written by the digit string `s` (most significant first).
pub open spec fn digits_value(s: Seq<char>) -> nat
    decreases s.len(),
{
    if s.len() == 0 {
        0
    } else {
        digits_value(s.drop_last()) * 10 + digit_value(s.last())
    }
}

/// The number that `s` writes in the syntax std accepts for unsigned
/// integers: an optional `+`, then one or more digits. `None` when `s` is
/// not such a numeral. No bound is applied here.
pub open spec fn numeral_value(s: Seq<char>) -> Option<nat> {
    let body = if s.len() > 0 && s[0] == '+' {
        s.skip(1)
    } else {
        s
    };
    if body.len() > 0 && all_digits(body) {
        Some(digits_value(body))
    } else {
        None
    }
}

/// What parsing `s` as an unsigned integer no greater than `max` gives.
pub open spec fn parse_bounded(s: Seq<char>, max: nat) -> Option<nat> {
    match numeral_value(s) {
        Some(v) => if v <= max {
            Some(v)
        } else {
            None
        },
        None => None,
    }
}

fn digit_to_char(d: u64) -> (c: char)
    requires
        d < 10,
    ensures
        c == digit_char(d as int),
{
    if d == 0 {
        '0'
    } else if d == 1 {
        '1'
    } else if d == 2 {
        '2'
    } else if d == 3 {
        '3'
    } else if d == 4 {
        '4'
    } else if d == 5 {
        '5'
    } else if d == 6 {
        '6'
    } else if d == 7 {
        '7'
    } else if d == 8 {
        '8'
    } else {
        '9'
    }
}

proof fn lemma_decimal_nonempty(n: nat)
    ensures
        decimal(n).len() >= 1,
    decreases n,
{
    if n >= 10 {
        lemma_decimal_nonempty(n / 10);
    }
}

/// Appends the base-ten numeral of `n` to `out`.
pub fn push_decimal(out: &mut String, n: u64)
    ensures
        final(out)@ == old(out)@ + decimal(n as nat),
    decreases n,
{
    if n < 10 {
        push_char(out, digit_to_char(n));
        assert(old(out)@.push(digit_char(n as int)) =~= old(out)@ + decimal(n as nat));
    } else {
        push_decimal(out, n / 10);
        let ghost mid = out@;
        push_char(out, digit_to_char(n % 10));
        assert(mid.push(digit_char((n % 10) as int)) =~= old(out)@ + decimal(n as nat));
    }
}

/// Appends the base-ten numeral of `n` with thousands separators to `out`.
pub fn push_grouped_decimal(out: &mut String, n: u64)
    ensures
        final(out)@ == old(out)@ + grouped_decimal(n as nat),
    decreases n,
{
    if n < 1000 {
        push_decimal(out, n);
    } else {
        push_grouped_decimal(out, n / 1000);
        let ghost mid = out@;
        let r = n % 1000;
        push_char(out, ',');
        push_char(out, digit_to_char(r / 100));
        push_char(out, digit_to_char((r / 10) % 10));
        push_char(out, digit_to_char(r % 10));
        assert(out@ =~= mid + seq![','] + three_digits(r as nat));
        assert(out@ =~= old(out)@ + grouped_decimal(n as nat));
    }
}

/// The base-ten numeral of `n`.
pub fn decimal_string(n: u64) -> (s: String)
    ensures
        s@ == decimal(n as nat),
{
    let mut s = String::new();
    push_decimal(&mut s, n);
    assert(Seq::<char>::empty() + decimal(n as nat) =~= decimal(n as nat));
    s
}

/// Reads `s` as an unsigned integer no greater than `max`, as std's
/// `FromStr` does for an unsigned type whose largest value is `max`.
pub fn parse_unsigned(s: &Vec<char>, max: u64) -> (res: Option<u64>)
    ensures
        res matches Some(v) ==> parse_bounded(s@, max as nat) == Some(v as nat),
        res is None ==> parse_bounded(s@, max as nat) is None,
{
    let start: usize = if s.len() > 0 && s[0] == '+' {
        1
    } else {
        0
    };
    let ghost body = if s@.len() > 0 && s@[0] == '+' {
        s@.skip(1)
    } else {
        s@
    };
    assert(body =~= s@.skip(start as int));
    if start >= s.len() {
        return None;
    }
    let mut acc: u64 = 0;
    let mut overflow = false;
    let mut i: usize = start;
    while i < s.len()
        invariant
            start <= i <= s.len(),
            body == s@.skip(start as int),
            body == (if s@.len() > 0 && s@[0] == '+' {
                s@.skip(1)
            } else {
                s@
            }),
            body.len() > 0,
            all_digits(body.take(i - start)),
            !overflow ==> acc as nat == digits_value(body.take(i - start)) && acc <= max,
            overflow ==> digits_value(body.take(i - start)) > max,
        decreases s.len() - i,
    {
        let c = s[i];
        if !('0' <= c && c <= '9') {
            assert(body[i - start] == c);
            assert(!is_digit(body[i - start]));
            assert(!all_digits(body));
            return None;
        }
        let ghost prefix = body.take(i - start);
        let ghost next = body.take(i - start + 1);
        assert(next.drop_last() =~= prefix);
        assert(next.last() == c);
        assert(all_digits(next)) by {
            assert forall|k: int| 0 <= k < next.len() implies is_digit(#[trigger] next[k]) by {
                if k < prefix.len() {
                    assert(next[k] == prefix[k]);
                }
            }
        }
        let d: u64 = (c as u32 - '0' as u32) as u64;
        assert(d as nat == digit_value(c));
        if overflow {
            assert(digits_value(next) > max) by (nonlinear_arith)
                requires
                    digits_value(next) == digits_value(prefix) * 10 + digit_value(c),
                    digits_value(prefix) > max,
            ;
        } else {
            match acc.checked_mul(10) {
                Some(m) => match m.checked_add(d) {
                    Some(v) => {
                        if v <= max {
                            acc = v;
                        } else {
                            overflow = true;
                        }
                    },
                    None => {
                        overflow = true;
                    },
                },
                None => {
                    assert(digits_value(next) > max) by (nonlinear_arith)
                        requires
                            digits_value(next) == acc * 10 + digit_value(c),
                            acc * 10 > u64::MAX,
                            max <= u64::MAX,
                    ;
                    overflow = true;
                },
            }
        }
        i = i + 1;
    }
    assert(body.take(i - start) =~= body);
    if overflow {
        None
    } else {
        Some(acc)
    }
}

/// Writing a number in base ten and reading it back gives the number again.
pub proof fn law_decimal_round_trip(n: nat, max: nat)
    requires
        n <= max,
    ensures
        parse_bounded(decimal(n), max) == Some(n),
{
    lemma_decimal_digits(n);
    lemma_decimal_nonempty(n);
    let s = decimal(n);
    assert(s[0] != '+') by {
        assert(is_digit(s[0]));
    }
}

proof fn lemma_digit_char(d: int)
    requires
        0 <= d < 10,
    ensures
        is_digit(digit_char(d)),
        digit_value(digit_char(d)) == d,
{
}

proof fn lemma_decimal_digits(n: nat)
    ensures
        all_digits(decimal(n)),
        digits_value(decimal(n)) == n,
    decreases n,
{
    if n < 10 {
        lemma_digit_char(n as int);
        let s = decimal(n);
        assert(s.drop_last() =~= Seq::<char>::empty());
        assert(digits_value(Seq::<char>::empty()) == 0);
    } else {
        lemma_digit_char((n % 10) as int);
        lemma_decimal_digits(n / 10);
        let s = decimal(n);
        assert(s.drop_last() =~= decimal(n / 10));
        assert(s.last() == digit_char((n % 10) as int));
        assert((n / 10) * 10 + n % 10 == n) by (nonlinear_arith);
        assert forall|i: int| 0 <= i < s.len() implies is_digit(#[trigger] s[i]) by {
            if i < s.len() - 1 {
                assert(s[i] == decimal(n / 10)[i]);
            }
        }
    }
}

} // verus!
