//! Decimal integers as text: reading them with the exact failure that the
//! standard integer types report, and writing them.

use vstd::prelude::*;
use vstd::string::*;
use crate::text::chars_of;

verus! {

/// Why a text is not a decimal integer of the wanted range.
#[derive(Clone, Copy, Debug, PartialEq, Eq, Structural)]
pub enum IntegerFault {
    /// The text is empty.
    Empty,
    /// A character that is no digit where a digit must stand, or a sign alone.
    InvalidDigit,
    /// The digits read so far already exceed the largest value.
    PosOverflow,
    /// The digits read so far already fall below the smallest value.
    NegOverflow,
}

/// Whether `c` is one of the ten digits `0` to `9`.
pub open spec fn is_digit(c: char) -> bool {
    '0' <= c && c <= '9'
}

/// The number that a digit stands for.
pub open spec fn digit_value(c: char) -> int {
    c as int - '0' as int
}

/// The number that a sequence of digits writes, most significant first.
pub open spec fn digits_value(s: Seq<char>) -> int
    decreases s.len(),
{
    if s.len() == 0 {
        0
    } else {
        digits_value(s.drop_last()) * 10 + digit_value(s.last())
    }
}

/// How many digits stand at the front of `s`.
pub open spec fn leading_digits(s: Seq<char>) -> nat
    decreases s.len(),
{
    if s.len() == 0 || !is_digit(s[0]) {
        0
    } else {
        1 + leading_digits(s.drop_first())
    }
}

/// What reading `s` as an integer between `min` and `max` gives.
///
/// A leading `+` is always taken, a leading `-` only where `min` is negative.
/// The digits are read from the left: the first thing that goes wrong decides
/// the failure, and leaving the range on a digit comes before a bad character
/// that stands further right.
pub open spec fn parse_decimal(s: Seq<char>, min: int, max: int) -> Result<int, IntegerFault> {
    if s.len() == 0 {
        Err(IntegerFault::Empty)
    } else {
        let negative = min < 0 && s[0] == '-';
        let body = if s[0] == '+' || negative {
            s.drop_first()
        } else {
            s
        };
        let k = leading_digits(body) as int;
        let magnitude = digits_value(body.take(k));
        let value = if negative {
            -magnitude
        } else {
            magnitude
        };
        if body.len() == 0 {
            Err(IntegerFault::InvalidDigit)
        } else if value > max {
            Err(IntegerFault::PosOverflow)
        } else if value < min {
            Err(IntegerFault::NegOverflow)
        } else if k < body.len() {
            Err(IntegerFault::InvalidDigit)
        } else {
            Ok(value)
        }
    }
}

/// The digit that stands for a number from 0 to 9.
pub open spec fn digit_char(d: int) -> char {
    if d == 0 {
        '0'
    } else if d == 1 {
        '1'
    } else if d == 2 {
        '2'
    } else if d == 3 {
        '3'
    } else if d == 4 {
        '4'
    } else if d == 5 {
        '5'
    } else if d == 6 {
        '6'
    } else if d == 7 {
        '7'
    } else if d == 8 {
        '8'
    } else {
        '9'
    }
}

/// The digits of a natural number, most significant first, without padding.
pub open spec fn digits_text(n: nat) -> Seq<char>
    decreases n,
{
    if n < 10 {
        seq![digit_char(n as int)]
    } else {
        digits_text(n / 10).push(digit_char((n % 10) as int))
    }
}

/// An integer in decimal: a `-` before a negative one, no sign otherwise.
pub open spec fn decimal_text(n: int) -> Seq<char> {
    if n < 0 {
        seq!['-'] + digits_text((-n) as nat)
    } else {
        digits_text(n as nat)
    }
}

/// Digits held least significant first, read as text.
spec fn reversed_digits(ds: Seq<u8>) -> Seq<char> {
    Seq::new(ds.len(), |i: int| digit_char(ds[ds.len() - 1 - i] as int))
}

/// The digits of what is left to write: none once it has reached zero.
spec fn remaining_digits(rest: nat) -> Seq<char> {
    if rest == 0 {
        Seq::empty()
    } else {
        digits_text(rest)
    }
}

proof fn lemma_all_digits_lead(s: Seq<char>, j: int)
    requires
        0 <= j <= s.len(),
        forall|i: int| 0 <= i < j ==> is_digit(#[trigger] s[i]),
        j == s.len() || !is_digit(s[j]),
    ensures
        leading_digits(s) == j,
    decreases j,
{
    if j > 0 {
        let t = s.drop_first();
        assert(is_digit(s[0]));
        assert forall|i: int| 0 <= i < j - 1 implies is_digit(#[trigger] t[i]) by {
            assert(t[i] == s[i + 1]);
        }
        if j < s.len() {
            assert(t[j - 1] == s[j]);
        }
        lemma_all_digits_lead(t, j - 1);
    }
}

proof fn lemma_digits_value_grows(s: Seq<char>, i: int, j: int)
    requires
        0 <= i <= j <= s.len(),
        forall|k: int| 0 <= k < j ==> is_digit(#[trigger] s[k]),
    ensures
        0 <= digits_value(s.take(i)) <= digits_value(s.take(j)),
    decreases j,
{
    if i == j {
        lemma_digits_value_nonnegative(s, i);
    } else {
        assert(s.take(j).drop_last() == s.take(j - 1));
        assert(is_digit(s[j - 1]));
        lemma_digits_value_grows(s, i, j - 1);
    }
}

proof fn lemma_digits_value_nonnegative(s: Seq<char>, j: int)
    requires
        0 <= j <= s.len(),
        forall|k: int| 0 <= k < j ==> is_digit(#[trigger] s[k]),
    ensures
        0 <= digits_value(s.take(j)),
    decreases j,
{
    if j > 0 {
        assert(s.take(j).drop_last() == s.take(j - 1));
        assert(is_digit(s[j - 1]));
        lemma_digits_value_nonnegative(s, j - 1);
    }
}

/// Reads `text` as a decimal integer between `min` and `max`.
#[verifier::loop_isolation(false)]
fn parse_within(text: &str, min: i128, max: i128) -> (r: Result<i128, IntegerFault>)
    requires
        -0x8000_0000_0000_0000 <= min <= 0,
        0 <= max <= 0xffff_ffff_ffff_ffff,
    ensures
        match r {
            Ok(v) => parse_decimal(text@, min as int, max as int) == Ok::<int, IntegerFault>(
                v as int,
            ),
            Err(f) => parse_decimal(text@, min as int, max as int) == Err::<int, IntegerFault>(f),
        },
{
    let chars = chars_of(text);
    let n = chars.len();
    if n == 0 {
        return Err(IntegerFault::Empty);
    }
    let first = chars[0];
    let negative = min < 0 && first == '-';
    let start: usize = if first == '+' || negative {
        1
    } else {
        0
    };
    let ghost body = if start == 1 {
        text@.drop_first()
    } else {
        text@
    };
    if start == n {
        return Err(IntegerFault::InvalidDigit);
    }
    let limit: i128 = if negative {
        -min
    } else {
        max
    };
    let mut i: usize = start;
    let mut acc: i128 = 0;
    while i < n
        invariant
            start <= i <= n,
            forall|k: int| 0 <= k < i - start ==> is_digit(#[trigger] body[k]),
            acc == digits_value(body.take(i - start)),
            0 <= acc <= limit,
        decreases n - i,
    {
        let c = chars[i];
        let ghost j = i - start;
        assert(body[j] == chars@[i as int]);
        if !(c >= '0' && c <= '9') {
            proof {
                lemma_all_digits_lead(body, j);
            }
            return Err(IntegerFault::InvalidDigit);
        }
        let d: i128 = (c as u32 - '0' as u32) as i128;
        proof {
            assert(body.take(j + 1).drop_last() == body.take(j));
            assert(body.take(j + 1).last() == c);
        }
        acc = acc * 10 + d;
        if acc > limit {
            proof {
                let k = leading_digits(body) as int;
                lemma_leading_digits_bounds(body);
                lemma_leading_digits_at_least(body, j + 1);
                lemma_digits_value_grows(body, j + 1, k);
            }
            if negative {
                return Err(IntegerFault::NegOverflow);
            } else {
                return Err(IntegerFault::PosOverflow);
            }
        }
        i = i + 1;
    }
    proof {
        lemma_all_digits_lead(body, n - start);
        assert(body.take(body.len() as int) == body);
    }
    if negative {
        Ok(-acc)
    } else {
        Ok(acc)
    }
}

proof fn lemma_leading_digits_bounds(s: Seq<char>)
    ensures
        leading_digits(s) <= s.len(),
        forall|k: int| 0 <= k < leading_digits(s) ==> is_digit(#[trigger] s[k]),
    decreases s.len(),
{
    if s.len() == 0 || !is_digit(s[0]) {
    } else {
        let t = s.drop_first();
        lemma_leading_digits_bounds(t);
        assert forall|k: int| 0 <= k < leading_digits(s) implies is_digit(#[trigger] s[k]) by {
            if k > 0 {
                assert(s[k] == t[k - 1]);
            }
        }
    }
}

proof fn lemma_leading_digits_at_least(s: Seq<char>, j: int)
    requires
        0 <= j <= s.len(),
        forall|k: int| 0 <= k < j ==> is_digit(#[trigger] s[k]),
    ensures
        leading_digits(s) >= j,
    decreases j,
{
    if j > 0 {
        let t = s.drop_first();
        assert(is_digit(s[0]));
        assert forall|k: int| 0 <= k < j - 1 implies is_digit(#[trigger] t[k]) by {
            assert(t[k] == s[k + 1]);
        }
        lemma_leading_digits_at_least(t, j - 1);
    }
}

/// Reads a signed 64-bit integer.
pub fn parse_i64(text: &str) -> (r: Result<i64, IntegerFault>)
    ensures
        match r {
            Ok(v) => parse_decimal(text@, i64::MIN as int, i64::MAX as int) == Ok::<
                int,
                IntegerFault,
            >(v as int),
            Err(f) => parse_decimal(text@, i64::MIN as int, i64::MAX as int) == Err::<
                int,
                IntegerFault,
            >(f),
        },
{
    match parse_within(text, i64::MIN as i128, i64::MAX as i128) {
        Ok(v) => Ok(v as i64),
        Err(f) => Err(f),
    }
}

/// Reads a signed 32-bit integer.
pub fn parse_i32(text: &str) -> (r: Result<i32, IntegerFault>)
    ensures
        match r {
            Ok(v) => parse_decimal(text@, i32::MIN as int, i32::MAX as int) == Ok::<
                int,
                IntegerFault,
            >(v as int),
            Err(f) => parse_decimal(text@, i32::MIN as int, i32::MAX as int) == Err::<
                int,
                IntegerFault,
            >(f),
        },
{
    match parse_within(text, i32::MIN as i128, i32::MAX as i128) {
        Ok(v) => Ok(v as i32),
        Err(f) => Err(f),
    }
}

/// Reads an unsigned 32-bit integer.
pub fn parse_u32(text: &str) -> (r: Result<u32, IntegerFault>)
    ensures
        match r {
            Ok(v) => parse_decimal(text@, 0, u32::MAX as int) == Ok::<int, IntegerFault>(v as int),
            Err(f) => parse_decimal(text@, 0, u32::MAX as int) == Err::<int, IntegerFault>(f),
        },
{
    match parse_within(text, 0, u32::MAX as i128) {
        Ok(v) => Ok(v as u32),
        Err(f) => Err(f),
    }
}

/// Reads an unsigned 64-bit integer.
pub fn parse_u64(text: &str) -> (r: Result<u64, IntegerFault>)
    ensures
        match r {
            Ok(v) => parse_decimal(text@, 0, u64::MAX as int) == Ok::<int, IntegerFault>(v as int),
            Err(f) => parse_decimal(text@, 0, u64::MAX as int) == Err::<int, IntegerFault>(f),
        },
{
    match parse_within(text, 0, u64::MAX as i128) {
        Ok(v) => Ok(v as u64),
        Err(f) => Err(f),
    }
}

/// The one-character text of a digit.
fn digit_str(d: u8) -> (r: &'static str)
    requires
        d < 10,
    ensures
        r@ == seq![digit_char(d as int)],
{
    proof {
        reveal_strlit("0");
        reveal_strlit("1");
        reveal_strlit("2");
        reveal_strlit("3");
        reveal_strlit("4");
        reveal_strlit("5");
        reveal_strlit("6");
        reveal_strlit("7");
        reveal_strlit("8");
        reveal_strlit("9");
    }
    let r = match d {
        0 => "0",
        1 => "1",
        2 => "2",
        3 => "3",
        4 => "4",
        5 => "5",
        6 => "6",
        7 => "7",
        8 => "8",
        _ => "9",
    };
    assert(r@ =~= seq![digit_char(d as int)]);
    r
}

/// Writes `n` in decimal.
pub fn decimal_string(n: i64) -> (r: String)
    ensures
        r@ == decimal_text(n as int),
{
    let negative = n < 0;
    let mag: u64 = if negative {
        (-(n as i128)) as u64
    } else {
        n as u64
    };
    let mut ds: Vec<u8> = Vec::new();
    ds.push((mag % 10) as u8);
    let mut rest: u64 = mag / 10;
    proof {
        assert(reversed_digits(ds@) =~= seq![digit_char((mag % 10) as int)]);
        assert(digits_text(mag as nat) =~= remaining_digits(rest as nat) + reversed_digits(ds@));
    }
    while rest > 0
        invariant
            digits_text(mag as nat) == remaining_digits(rest as nat) + reversed_digits(ds@),
            forall|i: int| 0 <= i < ds@.len() ==> #[trigger] ds@[i] < 10,
        decreases rest,
    {
        let ghost before = ds@;
        let d = (rest % 10) as u8;
        ds.push(d);
        proof {
            assert(reversed_digits(ds@) =~= seq![digit_char(d as int)] + reversed_digits(before));
            assert(remaining_digits(rest as nat) =~= remaining_digits((rest / 10) as nat).push(
                digit_char(d as int),
            ));
            assert(remaining_digits(rest as nat) + reversed_digits(before) =~= remaining_digits(
                (rest / 10) as nat,
            ) + reversed_digits(ds@));
        }
        rest = rest / 10;
    }
    let mut out = String::new();
    if negative {
        proof {
            reveal_strlit("-");
        }
        out.append("-");
        assert(out@ =~= seq!['-']);
    }
    let ghost sign = out@;
    let mut k: usize = ds.len();
    while k > 0
        invariant
            k <= ds@.len(),
            out@ == sign + reversed_digits(ds@).take(ds@.len() - k),
            forall|i: int| 0 <= i < ds@.len() ==> #[trigger] ds@[i] < 10,
        decreases k,
    {
        k = k - 1;
        let ghost before = out@;
        out.append(digit_str(ds[k]));
        proof {
            let shown = reversed_digits(ds@);
            assert(shown.take(ds@.len() - k) =~= shown.take(ds@.len() - k - 1).push(
                shown[ds@.len() - k - 1],
            ));
            assert(out@ =~= sign + shown.take(ds@.len() - k));
        }
    }
    proof {
        let shown = reversed_digits(ds@);
        assert(shown.take(ds@.len() as int) =~= shown);
        assert(remaining_digits(0) + shown =~= shown);
    }
    out
}

proof fn lemma_digit_char(d: int)
    requires
        0 <= d < 10,
    ensures
        is_digit(digit_char(d)),
        digit_value(digit_char(d)) == d,
{
}

proof fn lemma_digits_text(n: nat)
    ensures
        digits_text(n).len() > 0,
        forall|i: int| 0 <= i < digits_text(n).len() ==> is_digit(#[trigger] digits_text(n)[i]),
        digits_value(digits_text(n)) == n,
    decreases n,
{
    let t = digits_text(n);
    if n < 10 {
        lemma_digit_char(n as int);
        assert(t.drop_last() =~= Seq::<char>::empty());
        assert(digits_value(t.drop_last()) == 0);
    } else {
        let head = digits_text(n / 10);
        lemma_digits_text(n / 10);
        lemma_digit_char((n % 10) as int);
        assert(t.drop_last() =~= head);
        assert forall|i: int| 0 <= i < t.len() implies is_digit(#[trigger] t[i]) by {
            if i < head.len() {
                assert(t[i] == head[i]);
            }
        }
    }
}

/// Reading what `decimal_text` wrote gives the number back, whatever range
/// holds it.
pub proof fn lemma_decimal_round_trip(n: int, min: int, max: int)
    requires
        min <= n <= max,
    ensures
        parse_decimal(decimal_text(n), min, max) == Ok::<int, IntegerFault>(n),
{
    let s = decimal_text(n);
    let m = if n < 0 {
        (-n) as nat
    } else {
        n as nat
    };
    let body = digits_text(m);
    lemma_digits_text(m);
    lemma_all_digits_lead(body, body.len() as int);
    assert(body.take(body.len() as int) =~= body);
    if n < 0 {
        assert(s[0] == '-');
        assert(s.drop_first() =~= body);
    } else {
        assert(is_digit(s[0]));
    }
}

} // verus!
