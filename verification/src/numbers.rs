//! Decimal integers read from and written to text, with the rules of
//! Rust's `FromStr` for integers: an optional sign, then one or more ASCII
//! digits, nothing else, and the value in range.

use vstd::prelude::*;

use crate::text::{chars_of, decimal, push_char, push_decimal};

verus! {

/// `c` is an ASCII decimal digit.
pub open spec fn is_digit(c: char) -> bool {
    '0' <= c && c <= '9'
}

/// Every character of `s` is an ASCII digit.
pub open spec fn all_digits(s: Seq<char>) -> bool {
    forall|i: int| 0 <= i < s.len() ==> #[trigger] is_digit(s[i])
}

/// The value of the digit string `s`, most significant digit first.
pub open spec fn digits_value(s: Seq<char>) -> nat
    decreases s.len(),
{
    if s.len() == 0 {
        0
    } else {
        digits_value(s.drop_last()) * 10 + ((s.last() as int - '0' as int) as nat)
    }
}

/// The integer written in `s` when `s` is an optional sign followed by one
/// or more digits (`-` only where `signed`), whatever its size.
pub open spec fn parse_int(s: Seq<char>, signed: bool) -> Option<int> {
    if s.len() == 0 {
        None
    } else if s[0] == '+' || (signed && s[0] == '-') {
        let d = s.drop_first();
        if d.len() > 0 && all_digits(d) {
            Some(if s[0] == '-' { -(digits_value(d) as int) } else { digits_value(d) as int })
        } else {
            None
        }
    } else if all_digits(s) {
        Some(digits_value(s) as int)
    } else {
        None
    }
}

/// What `s.parse::<i32>()` gives, as an option.
pub open spec fn parse_i32(s: Seq<char>) -> Option<int> {
    match parse_int(s, true) {
        Some(v) => if i32::MIN <= v <= i32::MAX { Some(v) } else { None },
        None => None,
    }
}

/// What `s.parse::<u64>()` gives, as an option.
pub open spec fn parse_u64(s: Seq<char>) -> Option<int> {
    match parse_int(s, false) {
        Some(v) => if 0 <= v <= u64::MAX { Some(v) } else { None },
        None => None,
    }
}

/// The decimal representation of a signed integer.
pub open spec fn signed_decimal(i: int) -> Seq<char> {
    if i < 0 {
        seq!['-'] + decimal((-i) as nat)
    } else {
        decimal(i as nat)
    }
}

pub open spec fn min_nat(a: nat, b: nat) -> nat {
    if a <= b { a } else { b }
}

/// Reads the digits `v[start..]`, capping the value at `cap`: `None` unless
/// there is at least one character and all of them are digits.
fn read_digits(v: &Vec<char>, start: usize, cap: u128) -> (r: Option<u128>)
    requires
        start <= v@.len(),
        0 < cap <= 0x1_0000_0000_0000_0000,
    ensures
        match r {
            Some(x) => {
                &&& v@.len() > start
                &&& all_digits(v@.subrange(start as int, v@.len() as int))
                &&& x == min_nat(digits_value(v@.subrange(start as int, v@.len() as int)), cap as nat)
            },
            None => v@.len() == start || !all_digits(v@.subrange(start as int, v@.len() as int)),
        },
{
    let n = v.len();
    if start == n {
        return None;
    }
    let mut acc: u128 = 0;
    let mut i: usize = start;
    while i < n
        invariant
            n == v@.len(),
            start <= i <= n,
            0 < cap <= 0x1_0000_0000_0000_0000,
            all_digits(v@.subrange(start as int, i as int)),
            acc == min_nat(digits_value(v@.subrange(start as int, i as int)), cap as nat),
        decreases n - i,
    {
        let c = v[i];
        let ghost pre = v@.subrange(start as int, i as int);
        let ghost next = v@.subrange(start as int, i + 1);
        assert(next.drop_last() =~= pre);
        assert(next.last() == c);
        if !('0' <= c && c <= '9') {
            assert(!is_digit(v@.subrange(start as int, n as int)[i - start]));
            return None;
        }
        let d = (c as u32 - '0' as u32) as u128;
        assert(digits_value(next) == digits_value(pre) * 10 + d);
        if acc < cap {
            let t = acc * 10 + d;
            acc = if t < cap { t } else { cap };
        } else {
            acc = cap;
        }
        i = i + 1;
        assert forall|k: int| 0 <= k < next.len() implies #[trigger] is_digit(next[k]) by {
            if k < pre.len() {
                assert(next[k] == pre[k]);
            }
        }
    }
    Some(acc)
}

/// `s.parse::<i32>().ok()`.
pub fn parse_i32_opt(s: &str) -> (r: Option<i32>)
    ensures
        match r {
            Some(x) => parse_i32(s@) == Some(x as int),
            None => parse_i32(s@) is None,
        },
{
    let v = chars_of(s);
    let n = v.len();
    if n == 0 {
        return None;
    }
    let first = v[0];
    let neg = first == '-';
    let start: usize = if first == '+' || first == '-' { 1 } else { 0 };
    if start == 1 {
        assert(v@.drop_first() =~= v@.subrange(1, n as int));
    } else {
        assert(v@ =~= v@.subrange(0, n as int));
    }
    match read_digits(&v, start, 0x8000_0001) {
        None => None,
        Some(m) => {
            if neg {
                if m <= 0x8000_0000 {
                    let x: i64 = -(m as i64);
                    Some(x as i32)
                } else {
                    None
                }
            } else {
                if m < 0x8000_0000 {
                    Some(m as i32)
                } else {
                    None
                }
            }
        },
    }
}

/// `s.parse::<u64>().ok()`.
pub fn parse_u64_opt(s: &str) -> (r: Option<u64>)
    ensures
        match r {
            Some(x) => parse_u64(s@) == Some(x as int),
            None => parse_u64(s@) is None,
        },
{
    let v = chars_of(s);
    let n = v.len();
    if n == 0 {
        return None;
    }
    let start: usize = if v[0] == '+' { 1 } else { 0 };
    if start == 1 {
        assert(v@.drop_first() =~= v@.subrange(1, n as int));
    } else {
        assert(v@ =~= v@.subrange(0, n as int));
    }
    match read_digits(&v, start, 0x1_0000_0000_0000_0000) {
        None => None,
        Some(m) => {
            if m < 0x1_0000_0000_0000_0000 {
                Some(m as u64)
            } else {
                None
            }
        },
    }
}

/// Appends the decimal representation of a signed integer.
pub fn push_signed(s: &mut String, i: i64)
    ensures
        final(s)@ == old(s)@ + signed_decimal(i as int),
{
    if i < 0 {
        push_char(s, '-');
        let m: u64 = if i == i64::MIN { 0x8000_0000_0000_0000 } else { (-i) as u64 };
        push_decimal(s, m);
    } else {
        push_decimal(s, i as u64);
    }
}

} // verus!
