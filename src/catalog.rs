use vstd::prelude::*;
use crate::decimal::{i32_value, parse_i32};
use crate::html::{sanitize_html, sanitized};
use crate::models::Product;
use crate::text::chars_of;

verus! {

/// A product as plain values: id, name and price.
pub type ProductView = (Seq<char>, Seq<char>, int);

pub open spec fn product_view(p: Product) -> ProductView {
    (p.id@, p.name@, p.price@)
}

pub open spec fn product_views(s: Seq<Product>) -> Seq<ProductView> {
    s.map_values(|p: Product| product_view(p))
}

/// Products listed in display order: no id comes before the one above it.
pub open spec fn in_display_order(s: Seq<Product>) -> bool {
    forall|i: int| 0 <= i < s.len() - 1 ==> !id_before((#[trigger] s[i + 1]).id@, s[i].id@)
}

/// A product as delivered, with its name cleaned of markup.
pub open spec fn cleaned_view(p: Product) -> ProductView {
    (p.id@, sanitized(p.name@), p.price@)
}

/// Strict lexicographic order on characters (the order of `String`'s `<`).
pub open spec fn lex_lt(a: Seq<char>, b: Seq<char>) -> bool
    decreases a.len(),
{
    if a.len() == 0 {
        b.len() > 0
    } else if b.len() == 0 {
        false
    } else if a[0] != b[0] {
        a[0] < b[0]
    } else {
        lex_lt(a.drop_first(), b.drop_first())
    }
}

/// Display order of ids: by number where both are integers, else by text.
pub open spec fn id_before(a: Seq<char>, b: Seq<char>) -> bool {
    match (i32_value(a), i32_value(b)) {
        (Some(x), Some(y)) => x < y,
        _ => lex_lt(a, b),
    }
}

/// The first index at or after `i` whose id comes after `id`.
pub open spec fn first_after(s: Seq<ProductView>, id: Seq<char>, i: int) -> int
    decreases s.len() - i,
{
    if i < 0 || i >= s.len() {
        s.len() as int
    } else if id_before(id, s[i].0) {
        i
    } else {
        first_after(s, id, i + 1)
    }
}

/// Products in display order: each one goes after those whose id does not
/// come after its own (a stable insertion sort).
pub open spec fn sorted_by_id(s: Seq<ProductView>) -> Seq<ProductView>
    decreases s.len(),
{
    if s.len() == 0 {
        Seq::empty()
    } else {
        let r = sorted_by_id(s.drop_last());
        r.insert(first_after(r, s.last().0, 0), s.last())
    }
}

pub open spec fn has_view_id(s: Seq<ProductView>, id: Seq<char>) -> bool {
    exists|k: int| 0 <= k < s.len() && (#[trigger] s[k]).0 == id
}

/// The products with the first of each id kept.
pub open spec fn first_of_each_id(s: Seq<ProductView>) -> Seq<ProductView>
    decreases s.len(),
{
    if s.len() == 0 {
        Seq::empty()
    } else {
        let r = first_of_each_id(s.drop_last());
        if has_view_id(r, s.last().0) {
            r
        } else {
            r.push(s.last())
        }
    }
}

/// The catalog that a delivered product list gives: names cleaned, one product
/// per id, in display order.
pub open spec fn catalog_from(raw: Seq<Product>) -> Seq<ProductView> {
    sorted_by_id(first_of_each_id(raw.map_values(|p: Product| cleaned_view(p))))
}

fn lex_less(a: &Vec<char>, b: &Vec<char>) -> (r: bool)
    ensures
        r == lex_lt(a@, b@),
{
    let mut i: usize = 0;
    assert(a@.subrange(0, a@.len() as int) =~= a@);
    assert(b@.subrange(0, b@.len() as int) =~= b@);
    while i < a.len() && i < b.len() && a[i] == b[i]
        invariant
            i <= a@.len(),
            i <= b@.len(),
            lex_lt(a@, b@) == lex_lt(a@.subrange(i as int, a@.len() as int), b@.subrange(i as int, b@.len() as int)),
        decreases a@.len() - i,
    {
        let ghost sa = a@.subrange(i as int, a@.len() as int);
        let ghost sb = b@.subrange(i as int, b@.len() as int);
        assert(sa.drop_first() =~= a@.subrange(i + 1, a@.len() as int));
        assert(sb.drop_first() =~= b@.subrange(i + 1, b@.len() as int));
        i = i + 1;
    }
    if i == a.len() {
        i < b.len()
    } else if i == b.len() {
        false
    } else {
        a[i] < b[i]
    }
}

pub fn id_order(a: &Vec<char>, b: &Vec<char>) -> (r: bool)
    ensures
        r == id_before(a@, b@),
{
    match (parse_i32(a), parse_i32(b)) {
        (Some(x), Some(y)) => x < y,
        _ => lex_less(a, b),
    }
}

fn view_of(p: &Product) -> (r: Vec<char>)
    ensures
        r@ == p.id@,
{
    chars_of(p.id.as_str())
}

/// Builds the catalog from a delivered product list: cleans the names, keeps
/// the first product of each id and puts them in display order.
pub fn build_catalog(raw: Vec<Product>) -> (r: Vec<Product>)
    ensures
        product_views(r@) == catalog_from(raw@),
{
    let ghost cleaned = raw@.map_values(|p: Product| cleaned_view(p));
    let mut unique: Vec<Product> = Vec::new();
    let mut i: usize = 0;
    assert(product_views(unique@) =~= Seq::<ProductView>::empty());
    while i < raw.len()
        invariant
            i <= raw@.len(),
            cleaned == raw@.map_values(|p: Product| cleaned_view(p)),
            product_views(unique@) == first_of_each_id(cleaned.take(i as int)),
        decreases raw@.len() - i,
    {
        let ghost t = cleaned.take(i + 1);
        assert(t.drop_last() =~= cleaned.take(i as int));
        assert(t.last() == cleaned_view(raw@[i as int]));
        let id = view_of(&raw[i]);
        let mut k: usize = 0;
        let mut seen = false;
        while k < unique.len()
            invariant
                k <= unique@.len(),
                !seen ==> forall|m: int| 0 <= m < k ==> (#[trigger] unique@[m]).id@ != id@,
                seen ==> has_view_id(product_views(unique@), id@),
            decreases unique@.len() - k,
        {
            let other = view_of(&unique[k]);
            if crate::text::chars_equal(&other, &id) {
                seen = true;
                assert(product_views(unique@)[k as int].0 == id@);
            }
            k = k + 1;
        }
        proof {
            if !seen {
                assert forall|m: int| 0 <= m < product_views(unique@).len() implies (
                #[trigger] product_views(unique@)[m]).0 != id@ by {
                    assert(product_views(unique@)[m] == product_view(unique@[m]));
                }
            }
        }
        if !seen {
            let name = sanitize_html(raw[i].name.as_str());
            let p = Product { id: raw[i].id.clone(), name, price: raw[i].price };
            let ghost before = unique@;
            unique.push(p);
            assert(product_views(unique@) =~= product_views(before).push(cleaned_view(raw@[i as int])));
        }
        i = i + 1;
    }
    assert(cleaned.take(raw@.len() as int) =~= cleaned);
    let ghost deduped = product_views(unique@);
    let mut out: Vec<Product> = Vec::new();
    let mut j: usize = 0;
    assert(product_views(out@) =~= Seq::<ProductView>::empty());
    while j < unique.len()
        invariant
            j <= unique@.len(),
            deduped == product_views(unique@),
            product_views(out@) == sorted_by_id(deduped.take(j as int)),
        decreases unique@.len() - j,
    {
        let ghost t = deduped.take(j + 1);
        assert(t.drop_last() =~= deduped.take(j as int));
        assert(t.last() == product_view(unique@[j as int]));
        let id = view_of(&unique[j]);
        let mut p: usize = 0;
        while p < out.len() && !id_order(&id, &view_of(&out[p]))
            invariant
                p <= out@.len(),
                first_after(product_views(out@), id@, 0) == first_after(
                    product_views(out@),
                    id@,
                    p as int,
                ),
            decreases out@.len() - p,
        {
            assert(product_views(out@)[p as int] == product_view(out@[p as int]));
            p = p + 1;
        }
        proof {
            if p < out@.len() {
                assert(product_views(out@)[p as int] == product_view(out@[p as int]));
            }
        }
        let ghost before = out@;
        out.insert(p, unique[j].duplicate());
        assert(product_views(out@) =~= product_views(before).insert(p as int, product_view(unique@[j as int])));
        j = j + 1;
    }
    assert(deduped.take(unique@.len() as int) =~= deduped);
    out
}

pub open spec fn unique_view_ids(s: Seq<ProductView>) -> bool {
    forall|i: int, j: int|
        0 <= i < s.len() && 0 <= j < s.len() && i != j ==> (#[trigger] s[i]).0 != (
        #[trigger] s[j]).0
}

proof fn lemma_first_of_each_id_unique(s: Seq<ProductView>)
    ensures
        unique_view_ids(first_of_each_id(s)),
    decreases s.len(),
{
    if s.len() > 0 {
        lemma_first_of_each_id_unique(s.drop_last());
        let r = first_of_each_id(s.drop_last());
        if !has_view_id(r, s.last().0) {
            let n = r.push(s.last());
            assert forall|i: int, j: int|
                0 <= i < n.len() && 0 <= j < n.len() && i != j implies (#[trigger] n[i]).0 != (
                #[trigger] n[j]).0 by {
                if i < r.len() && j < r.len() {
                    assert(n[i] == r[i] && n[j] == r[j]);
                } else if i < r.len() {
                    assert(n[i] == r[i]);
                } else {
                    assert(n[j] == r[j]);
                }
            }
        }
    }
}

proof fn lemma_sorted_by_id_unique(s: Seq<ProductView>)
    requires
        unique_view_ids(s),
    ensures
        sorted_by_id(s).len() == s.len(),
        forall|k: int|
            0 <= k < sorted_by_id(s).len() ==> exists|j: int|
                0 <= j < s.len() && #[trigger] sorted_by_id(s)[k] == s[j],
        unique_view_ids(sorted_by_id(s)),
    decreases s.len(),
{
    if s.len() > 0 {
        let d = s.drop_last();
        assert(unique_view_ids(d)) by {
            assert forall|i: int, j: int|
                0 <= i < d.len() && 0 <= j < d.len() && i != j implies (#[trigger] d[i]).0 != (
                #[trigger] d[j]).0 by {
                assert(d[i] == s[i] && d[j] == s[j]);
            }
        }
        lemma_sorted_by_id_unique(d);
        let r = sorted_by_id(d);
        let x = s.last();
        let p = first_after(r, x.0, 0);
        lemma_first_after_bounds(r, x.0, 0);
        let n = r.insert(p, x);
        assert forall|k: int| 0 <= k < n.len() implies exists|j: int|
            0 <= j < s.len() && #[trigger] n[k] == s[j] by {
            if k < p {
                assert(n[k] == r[k]);
                let j = choose|j: int| 0 <= j < d.len() && r[k] == d[j];
                assert(s[j] == d[j]);
            } else if k == p {
                assert(n[k] == s[s.len() - 1]);
            } else {
                assert(n[k] == r[k - 1]);
                let j = choose|j: int| 0 <= j < d.len() && r[k - 1] == d[j];
                assert(s[j] == d[j]);
            }
        }
        assert forall|k: int| 0 <= k < r.len() implies (#[trigger] r[k]).0 != x.0 by {
            let j = choose|j: int| 0 <= j < d.len() && r[k] == d[j];
            assert(d[j] == s[j]);
            assert(s[s.len() - 1] == x);
        }
        assert forall|i: int, j: int|
            0 <= i < n.len() && 0 <= j < n.len() && i != j implies (#[trigger] n[i]).0 != (
            #[trigger] n[j]).0 by {
            let ri = if i < p {
                i
            } else {
                i - 1
            };
            let rj = if j < p {
                j
            } else {
                j - 1
            };
            if i != p && j != p {
                assert(n[i] == r[ri] && n[j] == r[rj]);
            } else if i == p {
                assert(n[j] == r[rj]);
            } else {
                assert(n[i] == r[ri]);
            }
        }
    }
}

proof fn lemma_first_after_bounds(s: Seq<ProductView>, id: Seq<char>, i: int)
    requires
        0 <= i <= s.len(),
    ensures
        i <= first_after(s, id, i) <= s.len(),
    decreases s.len() - i,
{
    if i < s.len() && !id_before(id, s[i].0) {
        lemma_first_after_bounds(s, id, i + 1);
    }
}

/// A catalog built from any product list has no two products with one id.
pub proof fn lemma_catalog_ids_unique(raw: Seq<Product>)
    ensures
        unique_view_ids(catalog_from(raw)),
{
    let d = first_of_each_id(raw.map_values(|p: Product| cleaned_view(p)));
    lemma_first_of_each_id_unique(raw.map_values(|p: Product| cleaned_view(p)));
    lemma_sorted_by_id_unique(d);
}

proof fn lemma_lex_lt_asymmetric(a: Seq<char>, b: Seq<char>)
    ensures
        !(lex_lt(a, b) && lex_lt(b, a)),
    decreases a.len(),
{
    if a.len() > 0 && b.len() > 0 && a[0] == b[0] {
        lemma_lex_lt_asymmetric(a.drop_first(), b.drop_first());
    }
}

proof fn lemma_first_after(s: Seq<ProductView>, id: Seq<char>, i: int)
    requires
        0 <= i <= s.len(),
    ensures
        forall|j: int| i <= j < first_after(s, id, i) ==> !id_before(id, (#[trigger] s[j]).0),
        first_after(s, id, i) < s.len() ==> id_before(id, s[first_after(s, id, i)].0),
    decreases s.len() - i,
{
    if i < s.len() && !id_before(id, s[i].0) {
        lemma_first_after(s, id, i + 1);
    }
}

/// In the display order no product's id comes before the id of the product
/// listed just above it.
pub proof fn lemma_sorted_by_id_in_order(s: Seq<ProductView>)
    ensures
        sorted_by_id(s).len() == s.len(),
        forall|i: int|
            0 <= i < sorted_by_id(s).len() - 1 ==> !id_before(
                (#[trigger] sorted_by_id(s)[i + 1]).0,
                sorted_by_id(s)[i].0,
            ),
    decreases s.len(),
{
    if s.len() > 0 {
        let d = s.drop_last();
        lemma_sorted_by_id_in_order(d);
        let r = sorted_by_id(d);
        let x = s.last();
        let p = first_after(r, x.0, 0);
        lemma_first_after_bounds(r, x.0, 0);
        lemma_first_after(r, x.0, 0);
        let n = r.insert(p, x);
        assert forall|i: int| 0 <= i < n.len() - 1 implies !id_before(
            (#[trigger] n[i + 1]).0,
            n[i].0,
        ) by {
            if i + 1 < p {
                assert(n[i] == r[i] && n[i + 1] == r[i + 1]);
                assert(!id_before(r[i + 1].0, r[i].0));
            } else if i + 1 == p {
                assert(n[i] == r[i] && n[i + 1] == x);
                assert(!id_before(x.0, r[i].0));
            } else if i == p {
                assert(n[i] == x && n[i + 1] == r[p]);
                assert(id_before(x.0, r[p].0));
                lemma_lex_lt_asymmetric(x.0, r[p].0);
            } else {
                assert(n[i] == r[i - 1] && n[i + 1] == r[i]);
                assert(!id_before(r[(i - 1) + 1].0, r[i - 1].0));
            }
        }
    }
}

} // verus!
