use vstd::prelude::*;
use crate::text::{
    chars_of, concat_chars, occurs_at, occurs_at_exec, slice_chars, string_from_chars, trim_chars,
    trimmed,
};

verus! {

/// What a plate lookup page tells about a vehicle.
#[derive(Debug, Clone, Default)]
pub struct VehicleInfo {
    pub brand: Option<String>,
    pub model: Option<String>,
    pub variant: Option<String>,
}

/// The first position at or after `i` where `q` occurs in `s`.
pub open spec fn first_occurrence(s: Seq<char>, q: Seq<char>, i: int) -> Option<int>
    decreases s.len() - i,
{
    if i < 0 || i > s.len() {
        None
    } else if occurs_at(s, q, i) {
        Some(i)
    } else if i == s.len() {
        None
    } else {
        first_occurrence(s, q, i + 1)
    }
}

/// The first position at or after `i` of character `c` in `s`.
pub open spec fn first_char(s: Seq<char>, c: char, i: int) -> Option<int>
    decreases s.len() - i,
{
    if i < 0 || i >= s.len() {
        None
    } else if s[i] == c {
        Some(i)
    } else {
        first_char(s, c, i + 1)
    }
}

/// The attribute text `id="<id>"`.
pub open spec fn id_attribute(id: Seq<char>) -> Seq<char> {
    seq!['i', 'd', '=', '\u{22}'] + id + seq!['\u{22}']
}

/// The text of the element whose attribute is `id="<id>"`: from the end of its
/// opening tag to the next tag, trimmed; nothing when that is empty or missing.
pub open spec fn content_by_id(html: Seq<char>, id: Seq<char>) -> Option<Seq<char>> {
    match first_occurrence(html, id_attribute(id), 0) {
        Some(p) => match first_char(html, '\u{3e}', p) {
            Some(e) => match first_char(html, '\u{3c}', e + 1) {
                Some(k) => {
                    let content = trimmed(html.subrange(e + 1, k));
                    if content.len() > 0 {
                        Some(content)
                    } else {
                        None
                    }
                },
                None => None,
            },
            None => None,
        },
        None => None,
    }
}

fn find_seq(s: &Vec<char>, q: &Vec<char>) -> (r: Option<usize>)
    ensures
        match r {
            Some(p) => first_occurrence(s@, q@, 0) == Some(p as int) && p <= s@.len(),
            None => first_occurrence(s@, q@, 0).is_none(),
        },
{
    let n = s.len();
    let mut i: usize = 0;
    while i <= n
        invariant
            n == s@.len(),
            i <= n + 1,
            first_occurrence(s@, q@, 0) == first_occurrence(s@, q@, i as int),
        decreases n + 1 - i,
    {
        if occurs_at_exec(s, q, i) {
            return Some(i);
        }
        if i == n {
            return None;
        }
        i = i + 1;
    }
    None
}

fn find_char(s: &Vec<char>, c: char, from: usize) -> (r: Option<usize>)
    ensures
        match r {
            Some(p) => first_char(s@, c, from as int) == Some(p as int) && from <= p < s@.len()
                && s@.len() <= usize::MAX,
            None => first_char(s@, c, from as int).is_none(),
        },
{
    let n = s.len();
    let mut i = from;
    if i >= n {
        return None;
    }
    while i < n
        invariant
            n == s@.len(),
            from <= i <= n,
            first_char(s@, c, from as int) == first_char(s@, c, i as int),
        decreases n - i,
    {
        if s[i] == c {
            return Some(i);
        }
        i = i + 1;
    }
    None
}

/// The trimmed text of the element with the given `id` attribute, if any.
pub fn extract_content_by_id(html: &str, id: &str) -> (r: Option<String>)
    ensures
        match content_by_id(html@, id@) {
            Some(c) => r matches Some(t) && t@ == c,
            None => r.is_none(),
        },
{
    let page = chars_of(html);
    let mut pattern: Vec<char> = Vec::new();
    pattern.push('i');
    pattern.push('d');
    pattern.push('=');
    pattern.push('\u{22}');
    pattern = concat_chars(&pattern, &chars_of(id));
    pattern.push('\u{22}');
    assert(pattern@ =~= id_attribute(id@));
    match find_seq(&page, &pattern) {
        Some(p) => match find_char(&page, '\u{3e}', p) {
            Some(e) => match find_char(&page, '\u{3c}', e + 1) {
                Some(k) => {
                    let content = trim_chars(&slice_chars(&page, e + 1, k));
                    if content.len() > 0 {
                        Some(string_from_chars(&content))
                    } else {
                        None
                    }
                },
                None => None,
            },
            None => None,
        },
        None => None,
    }
}

/// What a plate lookup page says of a vehicle's brand, model and variant.
pub fn vehicle_info_from_html(html: &str) -> (r: VehicleInfo)
    ensures
        match content_by_id(html@, "maerke"@) {
            Some(c) => r.brand matches Some(t) && t@ == c,
            None => r.brand.is_none(),
        },
        match content_by_id(html@, "model"@) {
            Some(c) => r.model matches Some(t) && t@ == c,
            None => r.model.is_none(),
        },
        match content_by_id(html@, "variant"@) {
            Some(c) => r.variant matches Some(t) && t@ == c,
            None => r.variant.is_none(),
        },
{
    VehicleInfo {
        brand: extract_content_by_id(html, "maerke"),
        model: extract_content_by_id(html, "model"),
        variant: extract_content_by_id(html, "variant"),
    }
}

} // verus!
