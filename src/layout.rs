use vstd::prelude::*;
use crate::formatters::ellipsis;
use crate::models::Product;
use crate::money::money_text;
use crate::search::{lemma_utf8_len_bounds, utf8_byte_len, utf8_len};
use crate::text::{chars_of, concat_chars, slice_chars, string_from_chars};

verus! {

/// The space the product list has, and what the id column adds after the id.
pub struct ColumnLayoutConfig {
    pub content_width: u16,
    pub id_suffix_width: usize,
    pub right_margin: u16,
}

/// Widths of the product list's columns.
pub struct ColumnLayout {
    pub id_column_width: usize,
    pub name_column_width: u16,
    pub price_column_width: usize,
}

/// The longest id, in bytes.
pub open spec fn max_id_len(s: Seq<Product>) -> int
    decreases s.len(),
{
    if s.len() == 0 {
        0
    } else {
        let m = max_id_len(s.drop_last());
        let l = utf8_len(s.last().id@);
        if l > m {
            l
        } else {
            m
        }
    }
}

/// The longest written price, in characters.
pub open spec fn max_price_len(s: Seq<Product>) -> int
    decreases s.len(),
{
    if s.len() == 0 {
        0
    } else {
        let m = max_price_len(s.drop_last());
        let l = money_text(s.last().price@).len() as int;
        if l > m {
            l
        } else {
            m
        }
    }
}

/// A width as a terminal coordinate: `as u16`, which keeps the low 16 bits.
pub open spec fn coord(w: int) -> int {
    w % 0x10000
}

/// Widths for the product list: the id column fits the longest id and its
/// suffix, the price column the longest price, and the name column what is left
/// (the other two taken as terminal coordinates).
pub fn calculate_product_column_layout(products: &Vec<Product>, config: ColumnLayoutConfig) -> (r:
    ColumnLayout)
    requires
        max_id_len(products@) + config.id_suffix_width <= usize::MAX,
        coord(max_id_len(products@) + config.id_suffix_width) + coord(max_price_len(products@))
            + config.right_margin <= u16::MAX,
    ensures
        r.id_column_width == max_id_len(products@) + config.id_suffix_width,
        r.price_column_width == max_price_len(products@),
        r.name_column_width == if config.content_width >= coord(r.id_column_width as int)
            + coord(r.price_column_width as int) + config.right_margin {
            config.content_width - (coord(r.id_column_width as int) + coord(
                r.price_column_width as int,
            ) + config.right_margin)
        } else {
            0
        },
{
    let mut max_id: usize = 0;
    let mut max_price: usize = 0;
    let mut i: usize = 0;
    while i < products.len()
        invariant
            i <= products@.len(),
            max_id == max_id_len(products@.take(i as int)),
            max_price == max_price_len(products@.take(i as int)),
            max_id_len(products@) + config.id_suffix_width <= usize::MAX,
        decreases products@.len() - i,
    {
        assert(products@.take(i + 1).drop_last() =~= products@.take(i as int));
        proof {
            lemma_max_prefix(products@, i + 1);
        }
        let id_len = utf8_byte_len(&chars_of(products[i].id.as_str()));
        let price_len = chars_of(products[i].price.to_display_string().as_str()).len();
        if id_len > max_id as u128 {
            max_id = id_len as usize;
        }
        if price_len > max_price {
            max_price = price_len;
        }
        i = i + 1;
    }
    assert(products@.take(products@.len() as int) =~= products@);
    let id_column_width = max_id + config.id_suffix_width;
    let id_coord = #[verifier::truncate] (id_column_width as u16);
    let price_coord = #[verifier::truncate] (max_price as u16);
    assert(id_coord == coord(id_column_width as int)) by (bit_vector)
        requires
            id_coord == #[verifier::truncate] (id_column_width as u16),
    ;
    assert(price_coord == coord(max_price as int)) by (bit_vector)
        requires
            price_coord == #[verifier::truncate] (max_price as u16),
    ;
    let used = id_coord + price_coord + config.right_margin;
    let name_column_width = if config.content_width >= used {
        config.content_width - used
    } else {
        0
    };
    ColumnLayout { id_column_width, name_column_width, price_column_width: max_price }
}

proof fn lemma_max_prefix(s: Seq<Product>, k: int)
    requires
        0 <= k <= s.len(),
    ensures
        max_id_len(s.take(k)) <= max_id_len(s),
        max_price_len(s.take(k)) <= max_price_len(s),
        0 <= max_id_len(s.take(k)),
        0 <= max_price_len(s.take(k)),
    decreases s.len(),
{
    if k == s.len() {
        assert(s.take(k) =~= s);
        lemma_max_nonneg(s);
    } else {
        lemma_max_prefix(s.drop_last(), k);
        assert(s.drop_last().take(k) =~= s.take(k));
    }
}

proof fn lemma_max_nonneg(s: Seq<Product>)
    ensures
        0 <= max_id_len(s),
        0 <= max_price_len(s),
    decreases s.len(),
{
    if s.len() > 0 {
        lemma_max_nonneg(s.drop_last());
    }
}

/// Text cut to `max_width` bytes: unchanged when it fits, else its first
/// `max_width - 3` characters and `...`, or for a width of three or less its
/// first `max_width` characters.
pub open spec fn ellipsized(s: Seq<char>, max_width: int) -> Seq<char> {
    if utf8_len(s) <= max_width {
        s
    } else if max_width <= 3 {
        take_upto(s, max_width)
    } else {
        take_upto(s, max_width - 3) + ellipsis()
    }
}

/// The first `n` characters of `s`, or all of them when it has fewer.
pub open spec fn take_upto(s: Seq<char>, n: int) -> Seq<char> {
    if n < s.len() {
        s.take(n)
    } else {
        s
    }
}

pub fn truncate_with_ellipsis(text: &str, max_width: u16) -> (r: String)
    ensures
        r@ == ellipsized(text@, max_width as int),
{
    let chars = chars_of(text);
    let max = max_width as usize;
    if utf8_byte_len(&chars) <= max as u128 {
        return string_from_chars(&chars);
    }
    proof {
        lemma_utf8_len_bounds(chars@);
    }
    if max <= 3 {
        let n = if max < chars.len() {
            max
        } else {
            chars.len()
        };
        let head = slice_chars(&chars, 0, n);
        assert(head@ =~= take_upto(chars@, max as int));
        string_from_chars(&head)
    } else {
        let n = if max - 3 < chars.len() {
            max - 3
        } else {
            chars.len()
        };
        let head = slice_chars(&chars, 0, n);
        assert(head@ =~= take_upto(chars@, max - 3));
        let mut dots: Vec<char> = Vec::new();
        dots.push('.');
        dots.push('.');
        dots.push('.');
        assert(dots@ =~= ellipsis());
        string_from_chars(&concat_chars(&head, &dots))
    }
}

} // verus!
