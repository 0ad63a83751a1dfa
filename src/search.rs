use vstd::prelude::*;
use crate::decimal::{i32_value, int_chars, int_text, parse_i32};
use crate::models::Product;
use crate::text::{
    all_ascii_digits, all_digits, chars_equal, chars_of, contains_chars, contains_seq, lower_of,
    lowercase, occurs_at, starts_with_chars, trim_chars, trimmed,
};

verus! {

/// The most results a search gives.
pub const MAX_RESULTS: usize = 10;

/// Number of UTF-8 bytes that encode `c`.
pub open spec fn char_utf8_len(c: char) -> int {
    if (c as u32) < 0x80 {
        1
    } else if (c as u32) < 0x800 {
        2
    } else if (c as u32) < 0x10000 {
        3
    } else {
        4
    }
}

/// Number of UTF-8 bytes that encode `s` (what `str::len` gives).
pub open spec fn utf8_len(s: Seq<char>) -> int
    decreases s.len(),
{
    if s.len() == 0 {
        0
    } else {
        utf8_len(s.drop_last()) + char_utf8_len(s.last())
    }
}

pub proof fn lemma_utf8_len_bounds(s: Seq<char>)
    ensures
        s.len() <= utf8_len(s) <= 4 * s.len(),
    decreases s.len(),
{
    if s.len() > 0 {
        lemma_utf8_len_bounds(s.drop_last());
    }
}

pub fn utf8_byte_len(s: &Vec<char>) -> (r: u128)
    ensures
        r as int == utf8_len(s@),
        r <= 4 * (usize::MAX as u128),
{
    let mut total: u128 = 0;
    let mut i: usize = 0;
    while i < s.len()
        invariant
            i <= s@.len(),
            total as int == utf8_len(s@.take(i as int)),
            total <= 4 * i,
        decreases s@.len() - i,
    {
        let c = s[i];
        let w: u128 = if (c as u32) < 0x80 {
            1
        } else if (c as u32) < 0x800 {
            2
        } else if (c as u32) < 0x10000 {
            3
        } else {
            4
        };
        assert(s@.take(i + 1).drop_last() =~= s@.take(i as int));
        total = total + w;
        i = i + 1;
    }
    assert(s@.take(s@.len() as int) =~= s@);
    total
}

pub open spec fn abs_diff(a: int, b: int) -> int {
    if a >= b {
        a - b
    } else {
        b - a
    }
}

/// Relevance of an alias (lower-cased) that contains the query.
pub open spec fn alias_score(alias: Seq<char>, q: Seq<char>) -> int {
    if alias == q {
        1000
    } else if occurs_at(alias, q, 0) {
        800
    } else {
        500 - abs_diff(utf8_len(alias), utf8_len(q))
    }
}

/// Relevance of a product name (lower-cased) that contains the query.
pub open spec fn name_score(name: Seq<char>, q: Seq<char>) -> int {
    if occurs_at(name, q, 0) {
        700
    } else {
        400 - abs_diff(utf8_len(name), utf8_len(q))
    }
}

pub open spec fn has_id(r: Seq<Product>, id: Seq<char>) -> bool {
    exists|k: int| 0 <= k < r.len() && (#[trigger] r[k]).id@ == id
}

/// The first index at or after `i` of a product with this id.
pub open spec fn index_of_id(items: Seq<Product>, id: Seq<char>, i: int) -> Option<int>
    decreases items.len() - i,
{
    if i < 0 || i >= items.len() {
        None
    } else if items[i].id@ == id {
        Some(i)
    } else {
        index_of_id(items, id, i + 1)
    }
}

/// The products whose id starts with `q`, in catalog order.
pub open spec fn prefix_matches(items: Seq<Product>, q: Seq<char>) -> Seq<Product>
    decreases items.len(),
{
    if items.len() == 0 {
        Seq::empty()
    } else {
        let prev = prefix_matches(items.drop_last(), q);
        if occurs_at(items.last().id@, q, 0) {
            prev.push(items.last())
        } else {
            prev
        }
    }
}

/// The exact-id phase: the product whose id is the query read as an integer.
pub open spec fn exact_id_match(items: Seq<Product>, q: Seq<char>) -> Seq<Product> {
    match i32_value(q) {
        Some(v) => match index_of_id(items, int_text(v), 0) {
            Some(k) => seq![items[k]],
            None => Seq::empty(),
        },
        None => Seq::empty(),
    }
}

/// The numeric phases: an exact id match, or else, for an all-digit query,
/// every product whose id starts with it.
pub open spec fn numeric_matches(items: Seq<Product>, q: Seq<char>) -> Seq<Product> {
    let exact = exact_id_match(items, q);
    if all_digits(q) && exact.len() == 0 {
        prefix_matches(items, q)
    } else {
        exact
    }
}

/// What one alias entry contributes: the product it names, with its score,
/// where the lower-cased alias contains `q` and the product is not in `present`.
pub open spec fn alias_entry(
    items: Seq<Product>,
    entry: (String, i32),
    q: Seq<char>,
    present: Seq<Product>,
) -> Option<(Product, int)> {
    let alias = lower_of(entry.0@);
    let id = int_text(entry.1 as int);
    if contains_seq(alias, q) && !has_id(present, id) {
        match index_of_id(items, id, 0) {
            Some(k) => Some((items[k], alias_score(alias, q))),
            None => None,
        }
    } else {
        None
    }
}

/// Products reached through an alias that contains `q`, with their scores, in
/// alias order; products already in `present` are left out.
pub open spec fn alias_candidates(
    items: Seq<Product>,
    aliases: Seq<(String, i32)>,
    q: Seq<char>,
    present: Seq<Product>,
) -> Seq<(Product, int)>
    decreases aliases.len(),
{
    if aliases.len() == 0 {
        Seq::empty()
    } else {
        let prev = alias_candidates(items, aliases.drop_last(), q, present);
        match alias_entry(items, aliases.last(), q, present) {
            Some(c) => prev.push(c),
            None => prev,
        }
    }
}

/// What one product contributes to the name phase: itself with its score, where
/// its lower-cased name contains `q` and it is not in `present`.
pub open spec fn name_entry(p: Product, q: Seq<char>, present: Seq<Product>) -> Option<
    (Product, int),
> {
    let name = lower_of(p.name@);
    if contains_seq(name, q) && !has_id(present, p.id@) {
        Some((p, name_score(name, q)))
    } else {
        None
    }
}

/// Products whose lower-cased name contains `q`, with their scores, in catalog
/// order; products already in `present` are left out.
pub open spec fn name_candidates(items: Seq<Product>, q: Seq<char>, present: Seq<Product>) -> Seq<
    (Product, int),
>
    decreases items.len(),
{
    if items.len() == 0 {
        Seq::empty()
    } else {
        let prev = name_candidates(items.drop_last(), q, present);
        match name_entry(items.last(), q, present) {
            Some(c) => prev.push(c),
            None => prev,
        }
    }
}

/// The first index at or after `i` whose score is below `score`.
pub open spec fn first_below(s: Seq<(Product, int)>, score: int, i: int) -> int
    decreases s.len() - i,
{
    if i < 0 || i >= s.len() {
        s.len() as int
    } else if s[i].1 < score {
        i
    } else {
        first_below(s, score, i + 1)
    }
}

/// Candidates by descending score; those with equal scores keep their order.
pub open spec fn sort_by_score(c: Seq<(Product, int)>) -> Seq<(Product, int)>
    decreases c.len(),
{
    if c.len() == 0 {
        Seq::empty()
    } else {
        let s = sort_by_score(c.drop_last());
        s.insert(first_below(s, c.last().1, 0), c.last())
    }
}

/// `r` with the candidates' products appended in order, skipping any whose id
/// is already there, until it holds `MAX_RESULTS` products.
pub open spec fn append_fresh(r: Seq<Product>, c: Seq<(Product, int)>) -> Seq<Product>
    decreases c.len(),
{
    if c.len() == 0 {
        r
    } else {
        let prev = append_fresh(r, c.drop_last());
        if prev.len() >= MAX_RESULTS || has_id(prev, c.last().0.id@) {
            prev
        } else {
            prev.push(c.last().0)
        }
    }
}

pub open spec fn with_alias_matches(
    items: Seq<Product>,
    aliases: Seq<(String, i32)>,
    q: Seq<char>,
) -> Seq<Product> {
    let r = numeric_matches(items, q);
    if r.len() < MAX_RESULTS {
        append_fresh(r, sort_by_score(alias_candidates(items, aliases, q, r)))
    } else {
        r
    }
}

pub open spec fn with_name_matches(
    items: Seq<Product>,
    aliases: Seq<(String, i32)>,
    q: Seq<char>,
) -> Seq<Product> {
    let r = with_alias_matches(items, aliases, q);
    if r.len() < MAX_RESULTS {
        append_fresh(r, sort_by_score(name_candidates(items, q, r)))
    } else {
        r
    }
}

/// The ranked result for a normalised, non-empty query: numeric matches, then
/// alias matches by score, then name matches by score, at most `MAX_RESULTS`.
pub open spec fn ranked(items: Seq<Product>, aliases: Seq<(String, i32)>, q: Seq<char>) -> Seq<
    Product,
> {
    let r = with_name_matches(items, aliases, q);
    if r.len() > MAX_RESULTS {
        r.take(MAX_RESULTS as int)
    } else {
        r
    }
}

/// The query that a search input stands for: trimmed and lower-cased.
pub open spec fn normalised_query(input: Seq<char>) -> Seq<char> {
    lower_of(trimmed(input))
}

/// What a search for `input` shows: nothing for an empty query, else the ranking.
pub open spec fn search_results_spec(
    items: Seq<Product>,
    aliases: Seq<(String, i32)>,
    input: Seq<char>,
) -> Seq<Product> {
    let q = normalised_query(input);
    if q.len() == 0 {
        Seq::empty()
    } else {
        ranked(items, aliases, q)
    }
}

pub fn contains_id(r: &Vec<Product>, id: &Vec<char>) -> (b: bool)
    ensures
        b == has_id(r@, id@),
{
    let mut k: usize = 0;
    while k < r.len()
        invariant
            k <= r@.len(),
            forall|m: int| 0 <= m < k ==> (#[trigger] r@[m]).id@ != id@,
        decreases r@.len() - k,
    {
        let pid = chars_of(r[k].id.as_str());
        if chars_equal(&pid, id) {
            return true;
        }
        k = k + 1;
    }
    false
}

pub fn find_by_id(items: &Vec<Product>, id: &Vec<char>) -> (r: Option<usize>)
    ensures
        match r {
            Some(k) => index_of_id(items@, id@, 0) == Some(k as int) && k < items@.len(),
            None => index_of_id(items@, id@, 0).is_none(),
        },
{
    let mut k: usize = 0;
    while k < items.len()
        invariant
            k <= items@.len(),
            index_of_id(items@, id@, 0) == index_of_id(items@, id@, k as int),
        decreases items@.len() - k,
    {
        let pid = chars_of(items[k].id.as_str());
        if chars_equal(&pid, id) {
            return Some(k);
        }
        k = k + 1;
    }
    None
}

fn numeric_phase(items: &Vec<Product>, q: &Vec<char>) -> (r: Vec<Product>)
    ensures
        r@ == numeric_matches(items@, q@),
{
    let mut r: Vec<Product> = Vec::new();
    match parse_i32(q) {
        Some(v) => {
            let id = int_chars(v as i64);
            match find_by_id(items, &id) {
                Some(k) => {
                    r.push(items[k].duplicate());
                    assert(r@ =~= seq![items@[k as int]]);
                },
                None => {
                    assert(r@ =~= Seq::<Product>::empty());
                },
            }
        },
        None => {
            assert(r@ =~= Seq::<Product>::empty());
        },
    }
    if r.len() == 0 && all_ascii_digits(q) {
        let mut i: usize = 0;
        while i < items.len()
            invariant
                i <= items@.len(),
                r@ == prefix_matches(items@.take(i as int), q@),
            decreases items@.len() - i,
        {
            assert(items@.take(i + 1).drop_last() =~= items@.take(i as int));
            let id = chars_of(items[i].id.as_str());
            if starts_with_chars(&id, q) {
                r.push(items[i].duplicate());
            }
            i = i + 1;
        }
        assert(items@.take(items@.len() as int) =~= items@);
    }
    r
}

/// Candidates with their scores as plain integers.
pub open spec fn scored(v: Seq<(Product, i128)>) -> Seq<(Product, int)> {
    v.map_values(|c: (Product, i128)| (c.0, c.1 as int))
}

fn alias_entry_exec(
    items: &Vec<Product>,
    entry: &(String, i32),
    q: &Vec<char>,
    qlen: u128,
    present: &Vec<Product>,
) -> (r: Option<(Product, i128)>)
    requires
        qlen as int == utf8_len(q@),
        qlen <= 4 * (usize::MAX as u128),
    ensures
        match r {
            Some(c) => alias_entry(items@, *entry, q@, present@) == Some((c.0, c.1 as int)),
            None => alias_entry(items@, *entry, q@, present@).is_none(),
        },
{
    let alias = chars_of(lowercase(entry.0.as_str()).as_str());
    let id = int_chars(entry.1 as i64);
    if !contains_chars(&alias, q) || contains_id(present, &id) {
        return None;
    }
    match find_by_id(items, &id) {
        Some(k) => {
            let score: i128 = if chars_equal(&alias, q) {
                1000
            } else if starts_with_chars(&alias, q) {
                800
            } else {
                let alen = utf8_byte_len(&alias);
                let d: i128 = if alen >= qlen {
                    (alen - qlen) as i128
                } else {
                    (qlen - alen) as i128
                };
                500 - d
            };
            Some((items[k].duplicate(), score))
        },
        None => None,
    }
}

fn alias_phase(
    items: &Vec<Product>,
    aliases: &Vec<(String, i32)>,
    q: &Vec<char>,
    present: &Vec<Product>,
) -> (r: Vec<(Product, i128)>)
    ensures
        scored(r@) == alias_candidates(items@, aliases@, q@, present@),
{
    let mut r: Vec<(Product, i128)> = Vec::new();
    let qlen = utf8_byte_len(q);
    let mut i: usize = 0;
    assert(scored(r@) =~= Seq::<(Product, int)>::empty());
    while i < aliases.len()
        invariant
            i <= aliases@.len(),
            qlen as int == utf8_len(q@),
            qlen <= 4 * (usize::MAX as u128),
            scored(r@) == alias_candidates(items@, aliases@.take(i as int), q@, present@),
        decreases aliases@.len() - i,
    {
        assert(aliases@.take(i + 1).drop_last() =~= aliases@.take(i as int));
        assert(aliases@.take(i + 1).last() == aliases@[i as int]);
        match alias_entry_exec(items, &aliases[i], q, qlen, present) {
            Some(c) => {
                let ghost before = r@;
                r.push(c);
                assert(scored(r@) =~= scored(before).push((c.0, c.1 as int)));
            },
            None => {},
        }
        i = i + 1;
    }
    assert(aliases@.take(aliases@.len() as int) =~= aliases@);
    r
}

fn name_entry_exec(p: &Product, q: &Vec<char>, qlen: u128, present: &Vec<Product>) -> (r: Option<
    (Product, i128),
>)
    requires
        qlen as int == utf8_len(q@),
        qlen <= 4 * (usize::MAX as u128),
    ensures
        match r {
            Some(c) => name_entry(*p, q@, present@) == Some((c.0, c.1 as int)),
            None => name_entry(*p, q@, present@).is_none(),
        },
{
    let name = chars_of(lowercase(p.name.as_str()).as_str());
    let id = chars_of(p.id.as_str());
    if !contains_chars(&name, q) || contains_id(present, &id) {
        return None;
    }
    let score: i128 = if starts_with_chars(&name, q) {
        700
    } else {
        let nlen = utf8_byte_len(&name);
        let d: i128 = if nlen >= qlen {
            (nlen - qlen) as i128
        } else {
            (qlen - nlen) as i128
        };
        400 - d
    };
    Some((p.duplicate(), score))
}

fn name_phase(items: &Vec<Product>, q: &Vec<char>, present: &Vec<Product>) -> (r: Vec<
    (Product, i128),
>)
    ensures
        scored(r@) == name_candidates(items@, q@, present@),
{
    let mut r: Vec<(Product, i128)> = Vec::new();
    let qlen = utf8_byte_len(q);
    let mut i: usize = 0;
    assert(scored(r@) =~= Seq::<(Product, int)>::empty());
    while i < items.len()
        invariant
            i <= items@.len(),
            qlen as int == utf8_len(q@),
            qlen <= 4 * (usize::MAX as u128),
            scored(r@) == name_candidates(items@.take(i as int), q@, present@),
        decreases items@.len() - i,
    {
        assert(items@.take(i + 1).drop_last() =~= items@.take(i as int));
        assert(items@.take(i + 1).last() == items@[i as int]);
        match name_entry_exec(&items[i], q, qlen, present) {
            Some(c) => {
                let ghost before = r@;
                r.push(c);
                assert(scored(r@) =~= scored(before).push((c.0, c.1 as int)));
            },
            None => {},
        }
        i = i + 1;
    }
    assert(items@.take(items@.len() as int) =~= items@);
    r
}

/// Candidates sorted by descending score, stably (insertion sort).
fn sort_candidates(c: Vec<(Product, i128)>) -> (r: Vec<(Product, i128)>)
    ensures
        scored(r@) == sort_by_score(scored(c@)),
{
    let mut out: Vec<(Product, i128)> = Vec::new();
    let mut i: usize = 0;
    assert(scored(out@) =~= Seq::<(Product, int)>::empty());
    while i < c.len()
        invariant
            i <= c@.len(),
            scored(out@) == sort_by_score(scored(c@).take(i as int)),
        decreases c@.len() - i,
    {
        let ghost sc = scored(c@).take(i + 1);
        assert(sc.drop_last() =~= scored(c@).take(i as int));
        assert(sc.last() == (c@[i as int].0, c@[i as int].1 as int));
        let score = c[i].1;
        let mut p: usize = 0;
        while p < out.len() && out[p].1 >= score
            invariant
                p <= out@.len(),
                first_below(scored(out@), score as int, 0) == first_below(
                    scored(out@),
                    score as int,
                    p as int,
                ),
            decreases out@.len() - p,
        {
            p = p + 1;
        }
        let ghost before = out@;
        let item = (c[i].0.duplicate(), score);
        out.insert(p, item);
        assert(scored(out@) =~= scored(before).insert(p as int, (item.0, item.1 as int)));
        i = i + 1;
    }
    assert(scored(c@).take(c@.len() as int) =~= scored(c@));
    out
}

/// `r` with the candidates appended, as `append_fresh` describes.
fn append_candidates(r: &mut Vec<Product>, c: &Vec<(Product, i128)>)
    ensures
        final(r)@ == append_fresh(old(r)@, scored(c@)),
{
    let ghost start = r@;
    let mut i: usize = 0;
    while i < c.len()
        invariant
            i <= c@.len(),
            r@ == append_fresh(start, scored(c@).take(i as int)),
        decreases c@.len() - i,
    {
        let ghost sc = scored(c@).take(i + 1);
        assert(sc.drop_last() =~= scored(c@).take(i as int));
        assert(sc.last().0 == c@[i as int].0);
        let id = chars_of(c[i].0.id.as_str());
        if r.len() < MAX_RESULTS && !contains_id(r, &id) {
            r.push(c[i].0.duplicate());
        }
        i = i + 1;
    }
    assert(scored(c@).take(c@.len() as int) =~= scored(c@));
}

/// The ranked products for a normalised, non-empty query.
pub fn rank_products(q: &Vec<char>, items: &Vec<Product>, aliases: &Vec<(String, i32)>) -> (r: Vec<
    Product,
>)
    ensures
        r@ == ranked(items@, aliases@, q@),
{
    let mut results = numeric_phase(items, q);
    if results.len() < MAX_RESULTS {
        let cands = alias_phase(items, aliases, q, &results);
        let sorted = sort_candidates(cands);
        append_candidates(&mut results, &sorted);
    }
    assert(results@ == with_alias_matches(items@, aliases@, q@));
    if results.len() < MAX_RESULTS {
        let cands = name_phase(items, q, &results);
        let sorted = sort_candidates(cands);
        append_candidates(&mut results, &sorted);
    }
    assert(results@ == with_name_matches(items@, aliases@, q@));
    if results.len() > MAX_RESULTS {
        results.truncate(MAX_RESULTS);
    }
    results
}

/// The products that a search for `input` shows: none for a query that is empty
/// once trimmed, else the ranking of the trimmed, lower-cased query.
pub fn search_products(input: &str, items: &Vec<Product>, aliases: &Vec<(String, i32)>) -> (r: Vec<
    Product,
>)
    ensures
        r@ == search_results_spec(items@, aliases@, input@),
        trimmed(input@).len() == 0 ==> r@.len() == 0,
{
    let trimmed_input = crate::text::string_from_chars(&trim_chars(&chars_of(input)));
    let q = chars_of(lowercase(trimmed_input.as_str()).as_str());
    if q.len() == 0 {
        return Vec::new();
    }
    rank_products(&q, items, aliases)
}

/// No two products share an id.
pub open spec fn unique_ids(s: Seq<Product>) -> bool {
    forall|i: int, j: int|
        0 <= i < s.len() && 0 <= j < s.len() && i != j ==> (#[trigger] s[i]).id@ != (
        #[trigger] s[j]).id@
}

proof fn lemma_prefix_matches_from_items(items: Seq<Product>, q: Seq<char>)
    ensures
        forall|i: int|
            0 <= i < prefix_matches(items, q).len() ==> exists|k: int|
                0 <= k < items.len() && #[trigger] prefix_matches(items, q)[i] == items[k],
        unique_ids(items) ==> unique_ids(prefix_matches(items, q)),
    decreases items.len(),
{
    if items.len() > 0 {
        let rest = items.drop_last();
        lemma_prefix_matches_from_items(rest, q);
        let prev = prefix_matches(rest, q);
        let r = prefix_matches(items, q);
        assert forall|i: int| 0 <= i < r.len() implies exists|k: int|
            0 <= k < items.len() && #[trigger] r[i] == items[k] by {
            if i < prev.len() {
                let k = choose|k: int| 0 <= k < rest.len() && prev[i] == rest[k];
                assert(r[i] == items[k]);
            } else {
                assert(r[i] == items[items.len() - 1]);
            }
        }
        if unique_ids(items) {
            assert(unique_ids(rest)) by {
                assert forall|i: int, j: int|
                    0 <= i < rest.len() && 0 <= j < rest.len() && i != j implies (
                    #[trigger] rest[i]).id@ != (#[trigger] rest[j]).id@ by {
                    assert(rest[i] == items[i] && rest[j] == items[j]);
                }
            }
            assert forall|i: int, j: int|
                0 <= i < r.len() && 0 <= j < r.len() && i != j implies (#[trigger] r[i]).id@ != (
                #[trigger] r[j]).id@ by {
                if i < prev.len() && j < prev.len() {
                } else if i < prev.len() {
                    let k = choose|k: int| 0 <= k < rest.len() && prev[i] == rest[k];
                    assert(items[k] == prev[i]);
                    assert(r[j] == items[items.len() - 1]);
                } else if j < prev.len() {
                    let k = choose|k: int| 0 <= k < rest.len() && prev[j] == rest[k];
                    assert(items[k] == prev[j]);
                    assert(r[i] == items[items.len() - 1]);
                }
            }
        }
    }
}

proof fn lemma_append_fresh(r: Seq<Product>, c: Seq<(Product, int)>)
    ensures
        append_fresh(r, c).len() >= r.len(),
        forall|i: int| 0 <= i < r.len() ==> #[trigger] append_fresh(r, c)[i] == r[i],
        r.len() < MAX_RESULTS ==> append_fresh(r, c).len() <= MAX_RESULTS,
        r.len() >= MAX_RESULTS ==> append_fresh(r, c) == r,
        unique_ids(r) ==> unique_ids(append_fresh(r, c)),
    decreases c.len(),
{
    if c.len() > 0 {
        lemma_append_fresh(r, c.drop_last());
        let prev = append_fresh(r, c.drop_last());
        let x = c.last().0;
        if !(prev.len() >= MAX_RESULTS || has_id(prev, x.id@)) {
            let n = prev.push(x);
            assert forall|i: int| 0 <= i < r.len() implies #[trigger] n[i] == r[i] by {
                assert(n[i] == prev[i]);
            }
            if unique_ids(prev) {
                assert forall|i: int, j: int|
                    0 <= i < n.len() && 0 <= j < n.len() && i != j implies (#[trigger] n[i]).id@
                    != (#[trigger] n[j]).id@ by {
                    if i < prev.len() && j < prev.len() {
                        assert(n[i] == prev[i] && n[j] == prev[j]);
                    } else if i < prev.len() {
                        assert(n[i] == prev[i]);
                    } else {
                        assert(n[j] == prev[j]);
                    }
                }
            }
        }
    }
}

proof fn lemma_numeric_matches_unique(items: Seq<Product>, q: Seq<char>)
    requires
        unique_ids(items),
    ensures
        unique_ids(numeric_matches(items, q)),
{
    lemma_prefix_matches_from_items(items, q);
}

/// Every search gives at most `MAX_RESULTS` products, no two with the same id,
/// provided the catalog's ids are unique.
pub proof fn lemma_ranked_bounded_and_distinct(
    items: Seq<Product>,
    aliases: Seq<(String, i32)>,
    input: Seq<char>,
)
    requires
        unique_ids(items),
    ensures
        search_results_spec(items, aliases, input).len() <= MAX_RESULTS,
        unique_ids(search_results_spec(items, aliases, input)),
{
    let q = normalised_query(input);
    if q.len() > 0 {
        lemma_numeric_matches_unique(items, q);
        let r2 = numeric_matches(items, q);
        if r2.len() < MAX_RESULTS {
            lemma_append_fresh(r2, sort_by_score(alias_candidates(items, aliases, q, r2)));
        }
        let r3 = with_alias_matches(items, aliases, q);
        if r3.len() < MAX_RESULTS {
            lemma_append_fresh(r3, sort_by_score(name_candidates(items, q, r3)));
        }
        let r4 = with_name_matches(items, aliases, q);
        if r4.len() > MAX_RESULTS {
            let t = r4.take(MAX_RESULTS as int);
            assert forall|i: int, j: int|
                0 <= i < t.len() && 0 <= j < t.len() && i != j implies (#[trigger] t[i]).id@ != (
                #[trigger] t[j]).id@ by {
                assert(t[i] == r4[i] && t[j] == r4[j]);
            }
        }
    }
}

/// When the query, read as an integer, is the id of a catalog product, that
/// product comes first, ahead of every alias and name match.
pub proof fn lemma_exact_id_first(
    items: Seq<Product>,
    aliases: Seq<(String, i32)>,
    q: Seq<char>,
    v: int,
    k: int,
)
    requires
        i32_value(q) == Some(v),
        index_of_id(items, int_text(v), 0) == Some(k),
    ensures
        ranked(items, aliases, q).len() >= 1,
        ranked(items, aliases, q)[0] == items[k],
{
    let r2 = numeric_matches(items, q);
    assert(r2 == seq![items[k]]);
    lemma_append_fresh(r2, sort_by_score(alias_candidates(items, aliases, q, r2)));
    let r3 = with_alias_matches(items, aliases, q);
    lemma_append_fresh(r3, sort_by_score(name_candidates(items, q, r3)));
}

proof fn lemma_first_below(s: Seq<(Product, int)>, score: int, i: int)
    requires
        0 <= i <= s.len(),
    ensures
        i <= first_below(s, score, i) <= s.len(),
        forall|j: int| i <= j < first_below(s, score, i) ==> (#[trigger] s[j]).1 >= score,
        first_below(s, score, i) < s.len() ==> s[first_below(s, score, i)].1 < score,
    decreases s.len() - i,
{
    if i < s.len() && s[i].1 >= score {
        lemma_first_below(s, score, i + 1);
    }
}

/// Sorting candidates by score leaves the scores in descending order.
pub proof fn lemma_sort_by_score_descending(c: Seq<(Product, int)>)
    ensures
        sort_by_score(c).len() == c.len(),
        forall|i: int, j: int|
            0 <= i < j < c.len() ==> (#[trigger] sort_by_score(c)[i]).1 >= (
            #[trigger] sort_by_score(c)[j]).1,
    decreases c.len(),
{
    if c.len() > 0 {
        lemma_sort_by_score_descending(c.drop_last());
        let s = sort_by_score(c.drop_last());
        let x = c.last();
        let p = first_below(s, x.1, 0);
        lemma_first_below(s, x.1, 0);
        let n = s.insert(p, x);
        assert forall|i: int, j: int| 0 <= i < j < n.len() implies (#[trigger] n[i]).1 >= (
        #[trigger] n[j]).1 by {
            if j < p {
                assert(n[i] == s[i] && n[j] == s[j]);
            } else if j == p {
                assert(n[i] == s[i]);
            } else if i < p {
                assert(n[i] == s[i] && n[j] == s[j - 1]);
                assert(s[i].1 >= s[j - 1].1);
            } else if i == p {
                assert(n[j] == s[j - 1]);
                assert(s[p].1 < x.1);
                if j - 1 > p {
                    assert(s[p].1 >= s[j - 1].1);
                }
            } else {
                assert(n[i] == s[i - 1] && n[j] == s[j - 1]);
            }
        }
    }
}

/// An exact alias match scores above a prefix match, which scores above any
/// other alias match.
pub proof fn lemma_alias_score_tiers(alias: Seq<char>, q: Seq<char>)
    ensures
        alias == q ==> alias_score(alias, q) == 1000,
        alias != q && occurs_at(alias, q, 0) ==> alias_score(alias, q) == 800,
        !occurs_at(alias, q, 0) ==> alias_score(alias, q) <= 500,
{
    if alias == q {
        assert(alias.subrange(0, q.len() as int) =~= alias);
    }
}

/// Alias matches are ranked by descending score, exact before prefix before
/// other matches, and all of them stand before every name match.
pub proof fn lemma_alias_matches_before_name_matches(
    items: Seq<Product>,
    aliases: Seq<(String, i32)>,
    q: Seq<char>,
)
    ensures
        forall|i: int, j: int|
            0 <= i < j < alias_candidates(items, aliases, q, numeric_matches(items, q)).len()
                ==> (#[trigger] sort_by_score(
                alias_candidates(items, aliases, q, numeric_matches(items, q)),
            )[i]).1 >= (#[trigger] sort_by_score(
                alias_candidates(items, aliases, q, numeric_matches(items, q)),
            )[j]).1,
        with_alias_matches(items, aliases, q).len() <= with_name_matches(items, aliases, q).len(),
        forall|i: int|
            0 <= i < with_alias_matches(items, aliases, q).len() ==> #[trigger] with_name_matches(
                items,
                aliases,
                q,
            )[i] == with_alias_matches(items, aliases, q)[i],
{
    lemma_sort_by_score_descending(alias_candidates(items, aliases, q, numeric_matches(items, q)));
    let r3 = with_alias_matches(items, aliases, q);
    lemma_append_fresh(r3, sort_by_score(name_candidates(items, q, r3)));
}

/// Whether some alias that contains `q` names product `p`.
pub open spec fn has_alias_match(aliases: Seq<(String, i32)>, q: Seq<char>, p: Product) -> bool {
    exists|i: int|
        0 <= i < aliases.len() && contains_seq(lower_of((#[trigger] aliases[i]).0@), q)
            && int_text(aliases[i].1 as int) == p.id@
}

proof fn lemma_append_fresh_members(r: Seq<Product>, c: Seq<(Product, int)>)
    ensures
        forall|j: int|
            r.len() <= j < append_fresh(r, c).len() ==> exists|i: int|
                0 <= i < c.len() && (#[trigger] append_fresh(r, c)[j]) == c[i].0,
        append_fresh(r, c).len() < MAX_RESULTS ==> forall|i: int|
            0 <= i < c.len() ==> has_id(append_fresh(r, c), (#[trigger] c[i]).0.id@),
    decreases c.len(),
{
    if c.len() > 0 {
        let d = c.drop_last();
        lemma_append_fresh_members(r, d);
        lemma_append_fresh(r, d);
        let prev = append_fresh(r, d);
        let n = append_fresh(r, c);
        lemma_append_fresh(r, c);
        assert forall|j: int| r.len() <= j < n.len() implies exists|i: int|
            0 <= i < c.len() && (#[trigger] n[j]) == c[i].0 by {
            if j < prev.len() {
                assert(n[j] == prev[j]);
                let i = choose|i: int| 0 <= i < d.len() && prev[j] == d[i].0;
                assert(c[i] == d[i]);
            } else {
                assert(n[j] == c[c.len() - 1].0);
            }
        }
        if n.len() < MAX_RESULTS {
            assert forall|i: int| 0 <= i < c.len() implies has_id(n, (#[trigger] c[i]).0.id@) by {
                if i < d.len() {
                    assert(c[i] == d[i]);
                    assert(prev.len() <= n.len());
                    let k = choose|k: int| 0 <= k < prev.len() && (#[trigger] prev[k]).id@ == d[i].0.id@;
                    assert(n[k] == prev[k]);
                } else {
                    if has_id(prev, c.last().0.id@) {
                        let k = choose|k: int| 0 <= k < prev.len() && (#[trigger] prev[k]).id@ == c.last().0.id@;
                        assert(n[k] == prev[k]);
                    } else {
                        assert(n[prev.len() as int] == c.last().0);
                    }
                }
            }
        }
    }
}

proof fn lemma_sort_by_score_members(c: Seq<(Product, int)>)
    ensures
        forall|x: (Product, int)| c.contains(x) <==> #[trigger] sort_by_score(c).contains(x),
    decreases c.len(),
{
    if c.len() > 0 {
        let d = c.drop_last();
        lemma_sort_by_score_members(d);
        let s = sort_by_score(d);
        let x = c.last();
        let p = first_below(s, x.1, 0);
        lemma_first_below(s, x.1, 0);
        let n = s.insert(p, x);
        assert forall|y: (Product, int)| c.contains(y) <==> #[trigger] n.contains(y) by {
            if c.contains(y) {
                let i = choose|i: int| 0 <= i < c.len() && c[i] == y;
                if i < d.len() {
                    assert(d[i] == y);
                    assert(d.contains(y));
                    assert(s.contains(y));
                    let k = choose|k: int| 0 <= k < s.len() && s[k] == y;
                    if k < p {
                        assert(n[k] == y);
                    } else {
                        assert(n[k + 1] == y);
                    }
                } else {
                    assert(n[p] == y);
                }
            }
            if n.contains(y) {
                let k = choose|k: int| 0 <= k < n.len() && n[k] == y;
                if k == p {
                    assert(c[c.len() - 1] == y);
                } else {
                    let k2 = if k < p {
                        k
                    } else {
                        k - 1
                    };
                    assert(s[k2] == y);
                    assert(s.contains(y));
                    assert(d.contains(y));
                    let i = choose|i: int| 0 <= i < d.len() && d[i] == y;
                    assert(c[i] == y);
                }
            }
        }
    }
}

proof fn lemma_alias_candidates_members(
    items: Seq<Product>,
    aliases: Seq<(String, i32)>,
    q: Seq<char>,
    present: Seq<Product>,
)
    ensures
        forall|i: int|
            0 <= i < alias_candidates(items, aliases, q, present).len() ==> has_alias_match(
                aliases,
                q,
                (#[trigger] alias_candidates(items, aliases, q, present)[i]).0,
            ),
        forall|a: int|
            0 <= a < aliases.len() && (#[trigger] alias_entry(items, aliases[a], q, present)).is_some()
                ==> alias_candidates(items, aliases, q, present).contains(
                alias_entry(items, aliases[a], q, present).unwrap(),
            ),
    decreases aliases.len(),
{
    if aliases.len() > 0 {
        let d = aliases.drop_last();
        lemma_alias_candidates_members(items, d, q, present);
        let prev = alias_candidates(items, d, q, present);
        let n = alias_candidates(items, aliases, q, present);
        assert forall|i: int| 0 <= i < n.len() implies has_alias_match(
            aliases,
            q,
            (#[trigger] n[i]).0,
        ) by {
            if i < prev.len() {
                assert(n[i] == prev[i]);
                let a = choose|a: int|
                    0 <= a < d.len() && contains_seq(lower_of((#[trigger] d[a]).0@), q) && int_text(
                        d[a].1 as int,
                    ) == prev[i].0.id@;
                assert(aliases[a] == d[a]);
            } else {
                let e = aliases.last();
                let k = index_of_id(items, int_text(e.1 as int), 0).unwrap();
                lemma_index_of_id(items, int_text(e.1 as int), 0);
                assert(aliases[aliases.len() - 1] == e);
            }
        }
        assert forall|a: int|
            0 <= a < aliases.len() && (#[trigger] alias_entry(items, aliases[a], q, present)).is_some()
            implies n.contains(alias_entry(items, aliases[a], q, present).unwrap()) by {
            if a < d.len() {
                assert(aliases[a] == d[a]);
                let x = alias_entry(items, d[a], q, present).unwrap();
                let k = choose|k: int| 0 <= k < prev.len() && prev[k] == x;
                assert(n[k] == x);
            } else {
                assert(n[n.len() - 1] == alias_entry(items, aliases[a], q, present).unwrap());
            }
        }
    }
}

proof fn lemma_index_of_id(items: Seq<Product>, id: Seq<char>, i: int)
    requires
        0 <= i,
    ensures
        index_of_id(items, id, i) matches Some(k) ==> i <= k < items.len() && items[k].id@ == id,
    decreases items.len() - i,
{
    if i < items.len() && items[i].id@ != id {
        lemma_index_of_id(items, id, i + 1);
    }
}

/// For a query that matches no id, a product named by a matching alias never
/// comes after a product that no matching alias names: every alias match is
/// ranked ahead of every name-only match.
pub proof fn lemma_alias_matches_first(items: Seq<Product>, aliases: Seq<(String, i32)>, q: Seq<char>)
    requires
        unique_ids(items),
        numeric_matches(items, q).len() == 0,
    ensures
        forall|i: int, j: int|
            0 <= i < j < ranked(items, aliases, q).len() && has_alias_match(
                aliases,
                q,
                #[trigger] ranked(items, aliases, q)[j],
            ) ==> has_alias_match(aliases, q, #[trigger] ranked(items, aliases, q)[i]),
{
    let empty = Seq::<Product>::empty();
    let cands = alias_candidates(items, aliases, q, empty);
    let sorted = sort_by_score(cands);
    let r3 = with_alias_matches(items, aliases, q);
    assert(numeric_matches(items, q) =~= empty);
    lemma_append_fresh_members(empty, sorted);
    lemma_sort_by_score_members(cands);
    lemma_alias_candidates_members(items, aliases, q, empty);
    lemma_numeric_matches_unique(items, q);
    lemma_append_fresh(empty, sorted);
    let r4 = with_name_matches(items, aliases, q);
    if r3.len() < MAX_RESULTS {
        lemma_append_fresh(r3, sort_by_score(name_candidates(items, q, r3)));
    }
    let rk = ranked(items, aliases, q);
    assert forall|i: int| 0 <= i < r3.len() && i < rk.len() implies has_alias_match(
        aliases,
        q,
        #[trigger] rk[i],
    ) by {
        assert(rk[i] == r4[i]);
        assert(r4[i] == r3[i]);
        let c = choose|c: int| 0 <= c < sorted.len() && r3[i] == sorted[c].0;
        assert(sorted.contains(sorted[c]));
        assert(cands.contains(sorted[c]));
        let m = choose|m: int| 0 <= m < cands.len() && cands[m] == sorted[c];
    }
    assert forall|i: int, j: int|
        0 <= i < j < rk.len() && has_alias_match(aliases, q, #[trigger] rk[j]) implies has_alias_match(
        aliases,
        q,
        #[trigger] rk[i],
    ) by {
        if j >= r3.len() {
            assert(r3.len() < MAX_RESULTS);
            assert(rk[j] == r4[j]);
            let p = rk[j];
            let a = choose|a: int|
                0 <= a < aliases.len() && contains_seq(lower_of((#[trigger] aliases[a]).0@), q)
                    && int_text(aliases[a].1 as int) == p.id@;
            let e = aliases[a];
            let nc = name_candidates(items, q, r3);
            let ns = sort_by_score(nc);
            lemma_append_fresh_members(r3, ns);
            lemma_sort_by_score_members(nc);
            lemma_name_candidates_from_items(items, q, r3);
            let ci = choose|ci: int| 0 <= ci < ns.len() && r4[j] == ns[ci].0;
            assert(ns.contains(ns[ci]));
            assert(nc.contains(ns[ci]));
            let ni = choose|ni: int| 0 <= ni < nc.len() && nc[ni] == ns[ci];
            let m = choose|m: int| 0 <= m < items.len() && nc[ni].0 == items[m];
            lemma_index_of_id_found(items, p.id@, 0, m);
            lemma_index_of_id(items, p.id@, 0);
            let k = index_of_id(items, p.id@, 0).unwrap();
            assert(!has_id(empty, int_text(e.1 as int)));
            assert(alias_entry(items, e, q, empty).is_some());
            let x = alias_entry(items, e, q, empty).unwrap();
            assert(cands.contains(x));
            assert(sorted.contains(x));
            let c = choose|c: int| 0 <= c < sorted.len() && sorted[c] == x;
            assert(has_id(r3, sorted[c].0.id@));
            let m2 = choose|m2: int| 0 <= m2 < r3.len() && (#[trigger] r3[m2]).id@ == sorted[c].0.id@;
            assert(r4[m2] == r3[m2]);
            assert(rk[m2] == r4[m2]);
            assert(rk[j].id@ == rk[m2].id@);
            assert(unique_ids(rk));
            assert(false);
        }
    }
}

proof fn lemma_index_of_id_found(items: Seq<Product>, id: Seq<char>, i: int, m: int)
    requires
        0 <= i <= m < items.len(),
        items[m].id@ == id,
    ensures
        index_of_id(items, id, i).is_some(),
    decreases m - i,
{
    if items[i].id@ != id {
        lemma_index_of_id_found(items, id, i + 1, m);
    }
}

proof fn lemma_name_candidates_from_items(items: Seq<Product>, q: Seq<char>, present: Seq<Product>)
    ensures
        forall|x: (Product, int)|
            #[trigger] name_candidates(items, q, present).contains(x) ==> exists|m: int|
                0 <= m < items.len() && x.0 == items[m],
    decreases items.len(),
{
    if items.len() > 0 {
        let d = items.drop_last();
        lemma_name_candidates_from_items(d, q, present);
        let prev = name_candidates(d, q, present);
        let n = name_candidates(items, q, present);
        assert forall|x: (Product, int)| #[trigger] n.contains(x) implies exists|m: int|
            0 <= m < items.len() && x.0 == items[m] by {
            let k = choose|k: int| 0 <= k < n.len() && n[k] == x;
            if k < prev.len() {
                assert(prev[k] == x);
                assert(prev.contains(x));
                let m = choose|m: int| 0 <= m < d.len() && x.0 == d[m];
                assert(items[m] == d[m]);
            } else {
                assert(x.0 == items[items.len() - 1]);
            }
        }
    }
}

} // verus!
