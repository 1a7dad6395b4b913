use vstd::prelude::*;
use vstd::string::StrSliceExecFns;

verus! {

pub open spec fn is_digit(c: char) -> bool {
    '0' <= c <= '9'
}

pub open spec fn all_digits(s: Seq<char>) -> bool {
    forall|i: int| 0 <= i < s.len() ==> is_digit(#[trigger] s[i])
}

/// Value of a run of decimal digits, the most significant first.
pub open spec fn digits_value(s: Seq<char>) -> int
    decreases s.len(),
{
    if s.len() == 0 {
        0
    } else {
        digits_value(s.drop_last()) * 10 + (s.last() as int - '0' as int)
    }
}

/// What `s` reads as when it holds one or more decimal digits.
pub open spec fn decimal(s: Seq<char>) -> Option<int> {
    if s.len() > 0 && all_digits(s) {
        Some(digits_value(s))
    } else {
        None
    }
}

/// An unsigned decimal number: an optional `+`, then one or more digits, with
/// nothing around them; `None` when the text is not one or does not fit.
pub open spec fn parse_u32_spec(s: Seq<char>) -> Option<u32> {
    let digits = if s.len() > 0 && s[0] == '+' {
        s.skip(1)
    } else {
        s
    };
    match decimal(digits) {
        Some(v) if v <= u32::MAX => Some(v as u32),
        _ => None,
    }
}

/// A signed decimal number: an optional `+` or `-`, then one or more digits,
/// with nothing around them; `None` when the text is not one or does not fit.
pub open spec fn parse_i64_spec(s: Seq<char>) -> Option<i64> {
    if s.len() > 0 && s[0] == '-' {
        match decimal(s.skip(1)) {
            Some(v) if -v >= i64::MIN => Some((-v) as i64),
            _ => None,
        }
    } else {
        let digits = if s.len() > 0 && s[0] == '+' {
            s.skip(1)
        } else {
            s
        };
        match decimal(digits) {
            Some(v) if v <= i64::MAX => Some(v as i64),
            _ => None,
        }
    }
}

pub open spec fn min_int(a: int, b: int) -> int {
    if a <= b {
        a
    } else {
        b
    }
}

proof fn lemma_capped_step(x: int, d: int, cap: int)
    requires
        x >= 0,
        0 <= d <= 9,
        cap >= 0,
    ensures
        min_int(min_int(x, cap) * 10 + d, cap) == min_int(x * 10 + d, cap),
{
    if x >= cap {
        assert(x * 10 + d >= cap) by (nonlinear_arith)
            requires
                x >= cap,
                cap >= 0,
                d >= 0,
        ;
        assert(cap * 10 + d >= cap) by (nonlinear_arith)
            requires
                cap >= 0,
                d >= 0,
        ;
    }
}

proof fn lemma_digits_value_nonneg(s: Seq<char>)
    requires
        all_digits(s),
    ensures
        digits_value(s) >= 0,
    decreases s.len(),
{
    if s.len() > 0 {
        assert(all_digits(s.drop_last()));
        lemma_digits_value_nonneg(s.drop_last());
    }
}

/// The digits of `s` from `start` on, their value capped at `cap`; `None` when
/// there are none or a character there is not a digit.
fn capped_digits(s: &str, start: usize, cap: u128) -> (r: Option<u128>)
    requires
        start <= s@.len(),
        cap <= u64::MAX,
    ensures
        r == match decimal(s@.skip(start as int)) {
            Some(v) => Some(min_int(v, cap as int) as u128),
            None => None,
        },
        decimal(s@.skip(start as int)) matches Some(v) ==> v >= 0,
{
    let len = s.unicode_len();
    if start == len {
        return None;
    }
    let ghost digits = s@.skip(start as int);
    let mut acc: u128 = 0;
    let mut i: usize = start;
    while i < len
        invariant
            len == s@.len(),
            start < len,
            digits == s@.skip(start as int),
            start <= i <= len,
            cap <= u64::MAX,
            all_digits(s@.subrange(start as int, i as int)),
            acc == min_int(digits_value(s@.subrange(start as int, i as int)), cap as int),
        decreases len - i,
    {
        let c = s.get_char(i);
        if c < '0' || c > '9' {
            assert(!is_digit(digits[i - start]));
            return None;
        }
        let ghost prefix = s@.subrange(start as int, i as int);
        let ghost next = s@.subrange(start as int, i + 1);
        assert(next.drop_last() =~= prefix);
        assert(next.last() == c);
        assert(all_digits(next));
        proof {
            lemma_digits_value_nonneg(prefix);
            lemma_capped_step(digits_value(prefix), c as int - '0' as int, cap as int);
        }
        let d = (c as u32 - '0' as u32) as u128;
        let stepped = acc * 10 + d;
        acc = if stepped > cap {
            cap
        } else {
            stepped
        };
        i = i + 1;
    }
    assert(s@.subrange(start as int, len as int) =~= digits);
    proof {
        lemma_digits_value_nonneg(digits);
    }
    Some(acc)
}

/// Reads an unsigned decimal number, as `str::parse::<u32>` does.
pub fn parse_u32(s: &str) -> (r: Option<u32>)
    ensures
        r == parse_u32_spec(s@),
{
    let len = s.unicode_len();
    let start: usize = if len > 0 && s.get_char(0) == '+' {
        1
    } else {
        0
    };
    assert(start == 0 ==> s@.skip(0) =~= s@);
    let cap: u128 = 4_294_967_296;
    match capped_digits(s, start, cap) {
        Some(v) => {
            if v <= 4_294_967_295 {
                Some(v as u32)
            } else {
                None
            }
        },
        None => None,
    }
}

/// Reads a signed decimal number, as `str::parse::<i64>` does.
pub fn parse_i64(s: &str) -> (r: Option<i64>)
    ensures
        r == parse_i64_spec(s@),
{
    let len = s.unicode_len();
    let first = if len > 0 {
        Some(s.get_char(0))
    } else {
        None
    };
    let negative = first == Some('-');
    let start: usize = if first == Some('-') || first == Some('+') {
        1
    } else {
        0
    };
    assert(start == 0 ==> s@.skip(0) =~= s@);
    let cap: u128 = 9_223_372_036_854_775_809;
    match capped_digits(s, start, cap) {
        Some(v) => {
            if negative {
                if v <= 9_223_372_036_854_775_808 {
                    Some((0i128 - v as i128) as i64)
                } else {
                    None
                }
            } else if v <= 9_223_372_036_854_775_807 {
                Some(v as i64)
            } else {
                None
            }
        },
        None => None,
    }
}

} // verus!
