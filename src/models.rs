use vstd::prelude::*;
use crate::decimal::{two_digit_chars, two_digits};
use crate::money::Money;
use crate::text::{concat_chars, string_from_chars};

verus! {

/// A product of the catalog. Its id is assigned by the backend and unique.
#[derive(Debug, Clone)]
pub struct Product {
    pub id: String,
    pub name: String,
    pub price: Money,
}

impl Product {
    /// A copy of this product, field for field.
    pub fn duplicate(&self) -> (r: Product)
        ensures
            r == *self,
    {
        Product { id: self.id.clone(), name: self.name.clone(), price: self.price }
    }
}

/// The backend's answer to a username lookup.
#[derive(Debug, Clone, Copy, PartialEq, Eq, Structural)]
pub struct MemberId {
    pub member_id: i32,
}

/// A member's account as the backend reports it.
#[derive(Debug, Clone)]
pub struct MemberInfo {
    pub balance: Money,
    pub username: String,
    pub name: String,
}

/// One past purchase, most recent first as the backend delivers them.
#[derive(Debug, Clone)]
pub struct Sale {
    pub timestamp: String,
    pub product: String,
    pub price: Money,
}

/// The backend's list of a member's recent purchases.
#[derive(Debug, Clone)]
pub struct SalesResponse {
    pub sales: Vec<Sale>,
}

/// The local date and time that an RFC 3339 timestamp states, as year, month,
/// day, hour and minute, or nothing where the text is no such timestamp.
pub uninterp spec fn rfc3339_fields(s: Seq<char>) -> Option<(int, int, int, int, int)>;

/// Relies on `chrono::DateTime::parse_from_rfc3339` and on reading the parsed
/// value's year, month, day, hour and minute (`Datelike`, `Timelike`). The
/// result depends on the text alone; the year has the four digits that the
/// format allows, and the other fields are in their calendar and clock ranges.
#[verifier::external_body]
fn parse_rfc3339(s: &str) -> (r: Option<(i32, u32, u32, u32, u32)>)
    ensures
        match r {
            Some(t) => {
                &&& rfc3339_fields(s@) == Some(
                    (t.0 as int, t.1 as int, t.2 as int, t.3 as int, t.4 as int),
                )
                &&& 0 <= t.0 <= 9999
                &&& 1 <= t.1 <= 12
                &&& 1 <= t.2 <= 31
                &&& t.3 < 24
                &&& t.4 < 60
            },
            None => rfc3339_fields(s@).is_none(),
        },
{
    match chrono::DateTime::parse_from_rfc3339(s) {
        Ok(dt) => Some(
            (
                chrono::Datelike::year(&dt),
                chrono::Datelike::month(&dt),
                chrono::Datelike::day(&dt),
                chrono::Timelike::hour(&dt),
                chrono::Timelike::minute(&dt),
            ),
        ),
        Err(_) => None,
    }
}

pub open spec fn invalid_date_text() -> Seq<char> {
    seq!['I', 'n', 'v', 'a', 'l', 'i', 'd', ' ', 'd', 'a', 't', 'e']
}

/// A date and time written `dd/mm/yyyy hh:mm`.
pub open spec fn timestamp_text(y: int, mo: int, d: int, h: int, mi: int) -> Seq<char> {
    two_digits(d) + seq!['/'] + two_digits(mo) + seq!['/'] + two_digits(y / 100) + two_digits(
        y % 100,
    ) + seq![' '] + two_digits(h) + seq![':'] + two_digits(mi)
}

impl Sale {
    /// The timestamp as `dd/mm/yyyy hh:mm`, or `Invalid date` where it does not parse.
    pub fn formatted_timestamp(&self) -> (r: String)
        ensures
            r@ == match rfc3339_fields(self.timestamp@) {
                Some((y, mo, d, h, mi)) => timestamp_text(y, mo, d, h, mi),
                None => invalid_date_text(),
            },
    {
        match parse_rfc3339(self.timestamp.as_str()) {
            Some((y, mo, d, h, mi)) => {
                let year = y as u64;
                let mut out = two_digit_chars(d as u64);
                out.push('/');
                out = concat_chars(&out, &two_digit_chars(mo as u64));
                out.push('/');
                out = concat_chars(&out, &two_digit_chars(year / 100));
                out = concat_chars(&out, &two_digit_chars(year % 100));
                out.push(' ');
                out = concat_chars(&out, &two_digit_chars(h as u64));
                out.push(':');
                out = concat_chars(&out, &two_digit_chars(mi as u64));
                assert(out@ =~= timestamp_text(y as int, mo as int, d as int, h as int, mi as int));
                string_from_chars(&out)
            },
            None => {
                let s = String::from_str("Invalid date");
                proof {
                    reveal_strlit("Invalid date");
                }
                assert(s@ =~= invalid_date_text());
                s
            },
        }
    }
}

} // verus!
