use vstd::prelude::*;
use crate::decimal::{int_chars, int_text, two_digit_chars, two_digits};
use crate::text::string_from_chars;
use vstd::std_specs::ops::{AddSpec, SubSpec};

verus! {

pub open spec fn abs_int(a: int) -> int {
    if a < 0 {
        -a
    } else {
        a
    }
}

/// Quotient of `a` by `b != 0`, rounded towards zero (as Rust's `/` does).
pub open spec fn trunc_quot(a: int, b: int) -> int {
    let q = abs_int(a) / abs_int(b);
    if (a < 0) != (b < 0) {
        -q
    } else {
        q
    }
}

/// How an amount is written: whole kroner (rounded towards zero), a comma, two
/// øre digits and the currency, as in `123,45 DKK`.
pub open spec fn money_text(v: int) -> Seq<char> {
    int_text(trunc_quot(v, 100)) + seq![','] + two_digits(abs_int(v) % 100) + seq![
        ' ',
        'D',
        'K',
        'K',
    ]
}

/// An amount of minor units written as `money_text` describes; wide enough for
/// totals that no single `Money` holds.
pub fn amount_text(v: i64) -> (r: String)
    requires
        v > i64::MIN,
    ensures
        r@ == money_text(v as int),
{
    let a: i64 = if v < 0 {
        -v
    } else {
        v
    };
    let major: i64 = if v < 0 {
        -(a / 100)
    } else {
        a / 100
    };
    let minor = a % 100;
    let mut out = int_chars(major);
    out.push(',');
    let digits = two_digit_chars(minor as u64);
    out.push(digits[0]);
    out.push(digits[1]);
    out.push(' ');
    out.push('D');
    out.push('K');
    out.push('K');
    assert(out@ =~= money_text(v as int));
    string_from_chars(&out)
}

/// How comfortable a balance is: at least 50 kroner, at least 10, or less.
#[derive(Debug, Clone, Copy, PartialEq, Eq, Structural)]
pub enum BalanceTier {
    High,
    Mid,
    Low,
}

pub open spec fn tier_of(v: int) -> BalanceTier {
    if v >= 5000 {
        BalanceTier::High
    } else if v >= 1000 {
        BalanceTier::Mid
    } else {
        BalanceTier::Low
    }
}

/// An amount of money in minor units (øre); all arithmetic stays integral.
#[derive(Debug, Clone, Copy, PartialEq, Eq, Structural)]
pub struct Money(pub i32);

impl View for Money {
    type V = int;

    open spec fn view(&self) -> int {
        self.0 as int
    }
}

impl Money {
    pub fn new(cents: i32) -> (r: Money)
        ensures
            r@ == cents,
    {
        Money(cents)
    }

    /// Whole kroner, rounded towards zero.
    pub fn kroner(&self) -> (r: i32)
        ensures
            r == trunc_quot(self@, 100),
    {
        let v = self.0 as i64;
        if v >= 0 {
            (v / 100) as i32
        } else {
            -(((-v) / 100) as i32)
        }
    }

    /// The two-digit øre part, always in `[0, 99]`, also for negative amounts.
    pub fn cents(&self) -> (r: i32)
        ensures
            r == abs_int(self@) % 100,
            0 <= r < 100,
    {
        let v = self.0 as i64;
        let a: i64 = if v < 0 {
            -v
        } else {
            v
        };
        (a % 100) as i32
    }

    /// The amount as text, such as `123,45 DKK`.
    pub fn to_display_string(&self) -> (r: String)
        ensures
            r@ == money_text(self@),
    {
        amount_text(self.0 as i64)
    }

    /// Whether this amount is at least `other`.
    pub fn covers(&self, other: &Money) -> (r: bool)
        ensures
            r == (self@ >= other@),
    {
        self.0 >= other.0
    }

    /// Whether this amount is at least `threshold` minor units.
    pub fn at_least(&self, threshold: i32) -> (r: bool)
        ensures
            r == (self@ >= threshold),
    {
        self.0 >= threshold
    }

    /// The tier that the balance falls in: high from 5000 øre, mid from 1000.
    pub fn tier(&self) -> (r: BalanceTier)
        ensures
            r == tier_of(self@),
    {
        if self.at_least(5000) {
            BalanceTier::High
        } else if self.at_least(1000) {
            BalanceTier::Mid
        } else {
            BalanceTier::Low
        }
    }
}

impl PartialOrd for Money {
    fn partial_cmp(&self, other: &Money) -> (r: Option<core::cmp::Ordering>) {
        if self.0 < other.0 {
            Some(core::cmp::Ordering::Less)
        } else if self.0 > other.0 {
            Some(core::cmp::Ordering::Greater)
        } else {
            Some(core::cmp::Ordering::Equal)
        }
    }
}

impl vstd::std_specs::cmp::PartialOrdSpecImpl for Money {
    open spec fn obeys_partial_cmp_spec() -> bool {
        true
    }

    open spec fn partial_cmp_spec(&self, other: &Money) -> Option<core::cmp::Ordering> {
        if self@ < other@ {
            Some(core::cmp::Ordering::Less)
        } else if self@ > other@ {
            Some(core::cmp::Ordering::Greater)
        } else {
            Some(core::cmp::Ordering::Equal)
        }
    }
}

impl core::ops::Add for Money {
    type Output = Money;

    fn add(self, other: Money) -> (r: Money) {
        Money(self.0 + other.0)
    }
}

impl vstd::std_specs::ops::AddSpecImpl for Money {
    open spec fn obeys_add_spec() -> bool {
        true
    }

    open spec fn add_req(self, other: Money) -> bool {
        i32::MIN <= self@ + other@ <= i32::MAX
    }

    open spec fn add_spec(self, other: Money) -> Money {
        Money((self@ + other@) as i32)
    }
}

impl core::ops::Sub for Money {
    type Output = Money;

    fn sub(self, other: Money) -> (r: Money) {
        Money(self.0 - other.0)
    }
}

impl vstd::std_specs::ops::SubSpecImpl for Money {
    open spec fn obeys_sub_spec() -> bool {
        true
    }

    open spec fn sub_req(self, other: Money) -> bool {
        i32::MIN <= self@ - other@ <= i32::MAX
    }

    open spec fn sub_spec(self, other: Money) -> Money {
        Money((self@ - other@) as i32)
    }
}

impl core::ops::Mul<u32> for Money {
    type Output = Money;

    fn mul(self, quantity: u32) -> (r: Money) {
        Money(self.0 * quantity as i32)
    }
}

impl vstd::std_specs::ops::MulSpecImpl<u32> for Money {
    open spec fn obeys_mul_spec() -> bool {
        true
    }

    open spec fn mul_req(self, quantity: u32) -> bool {
        quantity <= i32::MAX && i32::MIN <= self@ * quantity <= i32::MAX
    }

    open spec fn mul_spec(self, quantity: u32) -> Money {
        Money((self@ * quantity) as i32)
    }
}

impl core::ops::Mul<i32> for Money {
    type Output = Money;

    fn mul(self, factor: i32) -> (r: Money) {
        Money(self.0 * factor)
    }
}

impl vstd::std_specs::ops::MulSpecImpl<i32> for Money {
    open spec fn obeys_mul_spec() -> bool {
        true
    }

    open spec fn mul_req(self, factor: i32) -> bool {
        i32::MIN <= self@ * factor <= i32::MAX
    }

    open spec fn mul_spec(self, factor: i32) -> Money {
        Money((self@ * factor) as i32)
    }
}

/// `a / b` rounded towards zero, for `b != 0` and a quotient that fits.
fn trunc_quotient(a: i32, b: i64) -> (r: i32)
    requires
        b != 0,
        i32::MIN <= b <= u32::MAX,
        !(a == i32::MIN && b == -1),
    ensures
        r == trunc_quot(a as int, b as int),
{
    let m: i64 = if b < 0 {
        -b
    } else {
        b
    };
    let x = a as i64;
    let ax: i64 = if x < 0 {
        -x
    } else {
        x
    };
    let q = ax / m;
    assert(q <= ax) by (nonlinear_arith)
        requires
            m >= 1,
            ax >= 0,
            q == ax / m,
    ;
    assert(q < ax || m == 1 || ax == 0) by (nonlinear_arith)
        requires
            m >= 1,
            ax >= 0,
            q == ax / m,
    ;
    if (x < 0) != (b < 0) {
        (-q) as i32
    } else {
        q as i32
    }
}

impl core::ops::Div<u32> for Money {
    type Output = Money;

    fn div(self, divisor: u32) -> (r: Money) {
        Money(trunc_quotient(self.0, divisor as i64))
    }
}

impl vstd::std_specs::ops::DivSpecImpl<u32> for Money {
    open spec fn obeys_div_spec() -> bool {
        true
    }

    open spec fn div_req(self, divisor: u32) -> bool {
        0 < divisor <= i32::MAX
    }

    open spec fn div_spec(self, divisor: u32) -> Money {
        Money(trunc_quot(self@, divisor as int) as i32)
    }
}

impl core::ops::Div<i32> for Money {
    type Output = Money;

    fn div(self, divisor: i32) -> (r: Money) {
        Money(trunc_quotient(self.0, divisor as i64))
    }
}

impl vstd::std_specs::ops::DivSpecImpl<i32> for Money {
    open spec fn obeys_div_spec() -> bool {
        true
    }

    open spec fn div_req(self, divisor: i32) -> bool {
        divisor != 0 && !(self@ == i32::MIN && divisor == -1)
    }

    open spec fn div_spec(self, divisor: i32) -> Money {
        Money(trunc_quot(self@, divisor as int) as i32)
    }
}

impl From<i32> for Money {
    fn from(cents: i32) -> (r: Money) {
        Money::new(cents)
    }
}

impl vstd::std_specs::convert::FromSpecImpl<i32> for Money {
    open spec fn obeys_from_spec() -> bool {
        true
    }

    open spec fn from_spec(cents: i32) -> Money {
        Money(cents)
    }
}

/// Adding an amount and taking it away again gives back the amount started from.
pub proof fn lemma_add_sub_round_trip(a: Money, b: Money)
    requires
        i32::MIN <= a@ + b@ <= i32::MAX,
    ensures
        a.add_req(b),
        a.add_spec(b).sub_req(b),
        a.add_spec(b).sub_spec(b) == a,
{
}

} // verus!
