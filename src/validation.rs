use vstd::prelude::*;
use crate::search::{utf8_byte_len, utf8_len};
use crate::text::{
    all_ascii_digits, all_digits, chars_of, is_ascii_alphabetic, is_ascii_letter, slice_chars,
};

verus! {

/// A Danish phone number: exactly eight ASCII digits.
pub open spec fn valid_phone(s: Seq<char>) -> bool {
    s.len() == 8 && all_digits(s)
}

/// A Danish licence plate: two ASCII letters followed by five ASCII digits.
pub open spec fn valid_plate(s: Seq<char>) -> bool {
    s.len() == 7 && is_ascii_letter(s[0]) && is_ascii_letter(s[1]) && all_digits(
        s.subrange(2, 7),
    )
}

/// Which check a plate fails first, as the parking form reports it: its length
/// in bytes, its first two characters, or the rest.
#[derive(Debug, Clone, Copy, PartialEq, Eq, Structural)]
pub enum PlateProblem {
    Length,
    Letters,
    Digits,
}

pub open spec fn plate_problem(s: Seq<char>) -> Option<PlateProblem> {
    if utf8_len(s) != 7 {
        Some(PlateProblem::Length)
    } else if !(is_ascii_letter(s[0]) && is_ascii_letter(s[1])) {
        Some(PlateProblem::Letters)
    } else if !all_digits(s.subrange(2, s.len() as int)) {
        Some(PlateProblem::Digits)
    } else {
        None
    }
}

proof fn lemma_ascii_utf8_len(s: Seq<char>)
    requires
        forall|i: int| 0 <= i < s.len() ==> (#[trigger] s[i] as u32) < 0x80,
    ensures
        utf8_len(s) == s.len(),
    decreases s.len(),
{
    if s.len() > 0 {
        assert forall|i: int| 0 <= i < s.drop_last().len() implies (
        #[trigger] s.drop_last()[i] as u32) < 0x80 by {
            assert(s.drop_last()[i] == s[i]);
        }
        lemma_ascii_utf8_len(s.drop_last());
    }
}

/// A plate passes the form's checks exactly when it is a valid plate.
pub proof fn lemma_plate_checks_match(s: Seq<char>)
    requires
        s.len() >= 2 || utf8_len(s) != 7,
    ensures
        plate_problem(s).is_none() <==> valid_plate(s),
{
    crate::search::lemma_utf8_len_bounds(s);
    if plate_problem(s).is_none() {
        let rest = s.subrange(2, s.len() as int);
        assert forall|i: int| 0 <= i < s.len() implies (#[trigger] s[i] as u32) < 0x80 by {
            if i >= 2 {
                assert(rest[i - 2] == s[i]);
            }
        }
        lemma_ascii_utf8_len(s);
    }
    if valid_plate(s) {
        assert forall|i: int| 0 <= i < s.len() implies (#[trigger] s[i] as u32) < 0x80 by {
            if i >= 2 {
                assert(s.subrange(2, 7)[i - 2] == s[i]);
            }
        }
        lemma_ascii_utf8_len(s);
        assert(s.subrange(2, s.len() as int) =~= s.subrange(2, 7));
    }
}

/// Whether `phone` is exactly eight ASCII digits.
pub fn is_valid_phone(phone: &str) -> (r: bool)
    ensures
        r == valid_phone(phone@),
{
    let c = chars_of(phone);
    c.len() == 8 && all_ascii_digits(&c)
}

/// The first check that a plate fails, if any.
pub fn check_plate(plate: &Vec<char>) -> (r: Option<PlateProblem>)
    ensures
        r == plate_problem(plate@),
{
    if utf8_byte_len(plate) != 7 {
        return Some(PlateProblem::Length);
    }
    proof {
        crate::search::lemma_utf8_len_bounds(plate@);
    }
    if !(is_ascii_alphabetic(plate[0]) && is_ascii_alphabetic(plate[1])) {
        return Some(PlateProblem::Letters);
    }
    let rest = slice_chars(plate, 2, plate.len());
    if !all_ascii_digits(&rest) {
        return Some(PlateProblem::Digits);
    }
    None
}

/// Whether `plate` is two ASCII letters followed by five ASCII digits.
pub fn is_valid_plate(plate: &str) -> (r: bool)
    ensures
        r == valid_plate(plate@),
{
    let c = chars_of(plate);
    proof {
        crate::search::lemma_utf8_len_bounds(c@);
    }
    if c.len() < 2 {
        return false;
    }
    let problem = check_plate(&c);
    proof {
        lemma_plate_checks_match(c@);
    }
    problem.is_none()
}

} // verus!
