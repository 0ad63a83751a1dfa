use vstd::prelude::*;
use crate::text::{all_ascii_digits, all_digits, is_digit, slice_chars};

verus! {

pub open spec fn digit_char(d: int) -> char {
    if d == 0 {
        '0'
    } else if d == 1 {
        '1'
    } else if d == 2 {
        '2'
    } else if d == 3 {
        '3'
    } else if d == 4 {
        '4'
    } else if d == 5 {
        '5'
    } else if d == 6 {
        '6'
    } else if d == 7 {
        '7'
    } else if d == 8 {
        '8'
    } else {
        '9'
    }
}

pub open spec fn digit_value(c: char) -> int {
    (c as u32) as int - 48
}

/// Decimal digits of `n`, without leading zeros.
pub open spec fn nat_text(n: nat) -> Seq<char>
    decreases n,
{
    if n < 10 {
        seq![digit_char(n as int)]
    } else {
        nat_text(n / 10).push(digit_char((n % 10) as int))
    }
}

/// Decimal text of `v` with a leading `-` when negative, as `i64::to_string` writes it.
pub open spec fn int_text(v: int) -> Seq<char> {
    if v < 0 {
        seq!['-'] + nat_text((-v) as nat)
    } else {
        nat_text(v as nat)
    }
}

/// Two digits for `n` in `[0, 99]`, with a leading zero below ten.
pub open spec fn two_digits(n: int) -> Seq<char> {
    seq![digit_char(n / 10), digit_char(n % 10)]
}

/// The number that a string of decimal digits stands for.
pub open spec fn digits_value(s: Seq<char>) -> int
    decreases s.len(),
{
    if s.len() == 0 {
        0
    } else {
        digits_value(s.drop_last()) * 10 + digit_value(s.last())
    }
}

/// What `str::parse` gives for an unsigned integer type whose largest value is
/// `max`: an optional `+`, then one or more ASCII digits, with a value that fits.
pub open spec fn unsigned_value(s: Seq<char>, max: int) -> Option<int> {
    let d = if s.len() > 0 && s[0] == '+' {
        s.drop_first()
    } else {
        s
    };
    if d.len() > 0 && all_digits(d) && digits_value(d) <= max {
        Some(digits_value(d))
    } else {
        None
    }
}

/// What `str::parse::<i32>` gives: an optional sign, then one or more ASCII
/// digits, with a value in range.
pub open spec fn i32_value(s: Seq<char>) -> Option<int> {
    if s.len() > 0 && s[0] == '-' {
        let d = s.drop_first();
        if d.len() > 0 && all_digits(d) && digits_value(d) <= 0x8000_0000 {
            Some(-digits_value(d))
        } else {
            None
        }
    } else {
        unsigned_value(s, i32::MAX as int)
    }
}

pub fn digit_to_char(d: u64) -> (r: char)
    requires
        d < 10,
    ensures
        r == digit_char(d as int),
{
    if d == 0 {
        '0'
    } else if d == 1 {
        '1'
    } else if d == 2 {
        '2'
    } else if d == 3 {
        '3'
    } else if d == 4 {
        '4'
    } else if d == 5 {
        '5'
    } else if d == 6 {
        '6'
    } else if d == 7 {
        '7'
    } else if d == 8 {
        '8'
    } else {
        '9'
    }
}

pub fn nat_chars(n: u64) -> (r: Vec<char>)
    ensures
        r@ == nat_text(n as nat),
{
    let mut acc: Vec<char> = Vec::new();
    let mut m = n;
    while m >= 10
        invariant
            nat_text(n as nat) == nat_text(m as nat) + acc@,
        decreases m,
    {
        let c = digit_to_char(m % 10);
        proof {
            assert(nat_text(m as nat) == nat_text((m / 10) as nat).push(c));
            assert(nat_text((m / 10) as nat).push(c) + acc@ =~= nat_text((m / 10) as nat) + (
            seq![c] + acc@));
        }
        let ghost prev = acc@;
        acc.insert(0, c);
        assert(acc@ =~= seq![c] + prev);
        m = m / 10;
    }
    let mut out: Vec<char> = Vec::new();
    out.push(digit_to_char(m));
    let mut i: usize = 0;
    while i < acc.len()
        invariant
            i <= acc@.len(),
            nat_text(n as nat) == nat_text(m as nat) + acc@,
            m < 10,
            out@ == nat_text(m as nat) + acc@.subrange(0, i as int),
        decreases acc@.len() - i,
    {
        out.push(acc[i]);
        i = i + 1;
        assert(out@ =~= nat_text(m as nat) + acc@.subrange(0, i as int));
    }
    assert(acc@.subrange(0, acc@.len() as int) =~= acc@);
    out
}

pub fn int_chars(v: i64) -> (r: Vec<char>)
    ensures
        r@ == int_text(v as int),
{
    if v < 0 {
        let mag = (0i128 - v as i128) as u64;
        let digits = nat_chars(mag);
        let mut out: Vec<char> = Vec::new();
        out.push('-');
        let mut i: usize = 0;
        while i < digits.len()
            invariant
                i <= digits@.len(),
                out@ == seq!['-'] + digits@.subrange(0, i as int),
            decreases digits@.len() - i,
        {
            out.push(digits[i]);
            i = i + 1;
            assert(out@ =~= seq!['-'] + digits@.subrange(0, i as int));
        }
        assert(digits@.subrange(0, digits@.len() as int) =~= digits@);
        out
    } else {
        nat_chars(v as u64)
    }
}

/// Two characters for `n` in `[0, 99]`, with a leading zero below ten.
pub fn two_digit_chars(n: u64) -> (r: Vec<char>)
    requires
        n < 100,
    ensures
        r@ == two_digits(n as int),
{
    let mut out: Vec<char> = Vec::new();
    out.push(digit_to_char(n / 10));
    out.push(digit_to_char(n % 10));
    assert(out@ =~= two_digits(n as int));
    out
}

pub proof fn lemma_digits_value_nonneg(s: Seq<char>)
    requires
        all_digits(s),
    ensures
        digits_value(s) >= 0,
    decreases s.len(),
{
    if s.len() > 0 {
        assert(all_digits(s.drop_last())) by {
            assert forall|i: int| 0 <= i < s.drop_last().len() implies is_digit(
                #[trigger] s.drop_last()[i],
            ) by {
                assert(s.drop_last()[i] == s[i]);
            }
        }
        lemma_digits_value_nonneg(s.drop_last());
        assert(is_digit(s[s.len() - 1]));
    }
}

/// The value of the digits `s[from..]`, capped at `cap`.
fn capped_digits_value(s: &Vec<char>, from: usize, cap: u128) -> (r: u128)
    requires
        from <= s@.len(),
        all_digits(s@.subrange(from as int, s@.len() as int)),
        cap <= 0x1_0000_0000_0000_0000,
    ensures
        r as int == if digits_value(s@.subrange(from as int, s@.len() as int)) < cap {
            digits_value(s@.subrange(from as int, s@.len() as int))
        } else {
            cap as int
        },
{
    let ghost d = s@.subrange(from as int, s@.len() as int);
    let mut acc: u128 = 0;
    let mut i = from;
    while i < s.len()
        invariant
            from <= i <= s@.len(),
            d == s@.subrange(from as int, s@.len() as int),
            all_digits(d),
            cap <= 0x1_0000_0000_0000_0000,
            acc as int == if digits_value(s@.subrange(from as int, i as int)) < cap {
                digits_value(s@.subrange(from as int, i as int))
            } else {
                cap as int
            },
        decreases s@.len() - i,
    {
        let ghost prefix = s@.subrange(from as int, i as int);
        let ghost next = s@.subrange(from as int, i + 1);
        assert(next.drop_last() =~= prefix);
        assert(next.last() == d[i - from]);
        assert(is_digit(next.last()));
        let c = s[i];
        let dv = (c as u32 - 48) as u128;
        assert(all_digits(prefix)) by {
            assert forall|k: int| 0 <= k < prefix.len() implies is_digit(#[trigger] prefix[k]) by {
                assert(prefix[k] == d[k]);
            }
        }
        proof {
            lemma_digits_value_nonneg(prefix);
        }
        let grown = acc * 10 + dv;
        acc = if grown < cap {
            grown
        } else {
            cap
        };
        proof {
            let pv = digits_value(prefix);
            assert(digits_value(next) == pv * 10 + dv);
            if pv >= cap {
                assert(pv * 10 + dv >= cap) by (nonlinear_arith)
                    requires
                        pv >= cap,
                        dv >= 0,
                        cap >= 0,
                ;
            }
        }
        i = i + 1;
    }
    assert(s@.subrange(from as int, i as int) =~= d);
    acc
}

/// `s` read as an unsigned number whose largest value is `max`, as `str::parse` does.
pub fn parse_unsigned(s: &Vec<char>, max: u64) -> (r: Option<u64>)
    ensures
        match r {
            Some(v) => unsigned_value(s@, max as int) == Some(v as int),
            None => unsigned_value(s@, max as int).is_none(),
        },
{
    let from: usize = if s.len() > 0 && s[0] == '+' {
        1
    } else {
        0
    };
    let d = slice_chars(s, from, s.len());
    proof {
        if s@.len() > 0 && s@[0] == '+' {
            assert(d@ =~= s@.drop_first());
        } else {
            assert(d@ =~= s@);
        }
    }
    if d.len() == 0 || !all_ascii_digits(&d) {
        return None;
    }
    assert(d@.subrange(0, d@.len() as int) =~= d@);
    let v = capped_digits_value(&d, 0, max as u128 + 1);
    if v > max as u128 {
        None
    } else {
        Some(v as u64)
    }
}

/// `s` read as an `i32`, as `str::parse::<i32>` does.
pub fn parse_i32(s: &Vec<char>) -> (r: Option<i32>)
    ensures
        match r {
            Some(v) => i32_value(s@) == Some(v as int),
            None => i32_value(s@).is_none(),
        },
{
    if s.len() > 0 && s[0] == '-' {
        let d = slice_chars(s, 1, s.len());
        assert(d@ =~= s@.drop_first());
        if d.len() == 0 || !all_ascii_digits(&d) {
            return None;
        }
        assert(d@.subrange(0, d@.len() as int) =~= d@);
        let v = capped_digits_value(&d, 0, 0x8000_0001);
        if v > 0x8000_0000 {
            None
        } else {
            Some((0i64 - v as i64) as i32)
        }
    } else {
        match parse_unsigned(s, 0x7fff_ffff) {
            Some(v) => Some(v as i32),
            None => None,
        }
    }
}

} // verus!
