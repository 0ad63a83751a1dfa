use vstd::prelude::*;
use crate::formatters::{split_words, views, words_of};
use crate::text::{
    alnum_of, chars_of, is_alphanumeric, is_white, is_whitespace, string_from_chars, trim_chars,
    trimmed,
};

verus! {

/// Tags after which a separating space is kept: headings, paragraphs,
/// divisions (opening or closing) and line breaks.
pub open spec fn is_block_tag(t: Seq<char>) -> bool {
    let u = if t.len() > 0 && t[0] == '/' {
        t.drop_first()
    } else {
        t
    };
    u == seq!['p'] || u == seq!['d', 'i', 'v'] || (u.len() == 2 && u[0] == 'h' && '1' <= u[1]
        && u[1] <= '6') || t == seq!['b', 'r']
}

/// The name of a tag: the first word of what stands between `<` and `>`.
pub open spec fn tag_name(tag: Seq<char>) -> Seq<char> {
    if words_of(tag).len() > 0 {
        words_of(tag)[0]
    } else {
        Seq::empty()
    }
}

/// Text outside tags so far, whether a tag is open, and the open tag's text.
pub open spec fn strip_state(s: Seq<char>) -> (Seq<char>, bool, Seq<char>)
    decreases s.len(),
{
    if s.len() == 0 {
        (Seq::empty(), false, Seq::empty())
    } else {
        let (out, in_tag, tag) = strip_state(s.drop_last());
        let c = s.last();
        if c == '<' {
            (out, true, Seq::empty())
        } else if c == '>' {
            if is_block_tag(tag_name(tag)) && out.len() > 0 && out.last() != ' ' {
                (out.push(' '), false, tag)
            } else {
                (out, false, tag)
            }
        } else if in_tag {
            (out, in_tag, tag.push(c))
        } else {
            (out.push(c), in_tag, tag)
        }
    }
}

/// `s` with every run of white space turned into one space.
pub open spec fn collapse_state(s: Seq<char>) -> (Seq<char>, bool)
    decreases s.len(),
{
    if s.len() == 0 {
        (Seq::empty(), false)
    } else {
        let (out, last_space) = collapse_state(s.drop_last());
        if is_white(s.last()) {
            if last_space {
                (out, true)
            } else {
                (out.push(' '), true)
            }
        } else {
            (out.push(s.last()), false)
        }
    }
}

/// `s` with a space put before each `(` that follows a letter or digit.
pub open spec fn paren_spaced(s: Seq<char>) -> Seq<char>
    decreases s.len(),
{
    if s.len() == 0 {
        Seq::empty()
    } else {
        let prev = paren_spaced(s.drop_last());
        let i = s.len() - 1;
        if s[i] == '(' && i > 0 && alnum_of(s[i - 1]) {
            prev.push(' ').push('(')
        } else {
            prev.push(s[i])
        }
    }
}

/// Product text cleaned for display: tags removed (block tags leave a space),
/// white space collapsed, a space before a parenthesis that follows a word,
/// and no white space at either end.
pub open spec fn sanitized(s: Seq<char>) -> Seq<char> {
    trimmed(paren_spaced(collapse_state(strip_state(s).0).0))
}

fn block_tag(t: &Vec<char>) -> (r: bool)
    ensures
        r == is_block_tag(t@),
{
    let n = t.len();
    if n == 2 && t[0] == 'b' && t[1] == 'r' {
        assert(t@ =~= seq!['b', 'r']);
        return true;
    }
    let from: usize = if n > 0 && t[0] == '/' {
        1
    } else {
        0
    };
    let ghost u = if t@.len() > 0 && t@[0] == '/' {
        t@.drop_first()
    } else {
        t@
    };
    assert(u =~= t@.subrange(from as int, n as int));
    let m = n - from;
    let r = if m == 1 {
        t[from] == 'p'
    } else if m == 3 {
        t[from] == 'd' && t[from + 1] == 'i' && t[from + 2] == 'v'
    } else if m == 2 {
        t[from] == 'h' && '1' <= t[from + 1] && t[from + 1] <= '6'
    } else {
        false
    };
    proof {
        if m == 1 && r {
            assert(u =~= seq!['p']);
        }
        if m == 3 && r {
            assert(u =~= seq!['d', 'i', 'v']);
        }
        if t@ == seq!['b', 'r'] {
            assert(t@[0] == 'b' && t@[1] == 'r');
        }
        assert(forall|k: int| 0 <= k < u.len() ==> u[k] == t@[from + k]);
        if u == seq!['p'] {
            assert(u[0] == 'p');
        }
        if u == seq!['d', 'i', 'v'] {
            assert(u[0] == 'd' && u[1] == 'i' && u[2] == 'v');
        }
        if m == 2 && r {
            assert(u[0] == 'h' && u[1] == t@[from + 1]);
        }
    }
    r
}

fn strip_tags(s: &Vec<char>) -> (r: Vec<char>)
    ensures
        r@ == strip_state(s@).0,
{
    let mut out: Vec<char> = Vec::new();
    let mut in_tag = false;
    let mut tag: Vec<char> = Vec::new();
    let mut i: usize = 0;
    while i < s.len()
        invariant
            i <= s@.len(),
            strip_state(s@.take(i as int)) == (out@, in_tag, tag@),
        decreases s@.len() - i,
    {
        assert(s@.take(i + 1).drop_last() =~= s@.take(i as int));
        let c = s[i];
        if c == '<' {
            in_tag = true;
            tag = Vec::new();
        } else if c == '>' {
            in_tag = false;
            let words = split_words(&tag);
            let is_block = if words.len() > 0 {
                assert(views(words@)[0] == words@[0]@);
                block_tag(&words[0])
            } else {
                let empty: Vec<char> = Vec::new();
                assert(empty@ =~= tag_name(tag@));
                block_tag(&empty)
            };
            if is_block && out.len() > 0 && out[out.len() - 1] != ' ' {
                out.push(' ');
            }
        } else if in_tag {
            tag.push(c);
        } else {
            out.push(c);
        }
        i = i + 1;
    }
    assert(s@.take(s@.len() as int) =~= s@);
    out
}

fn collapse_white(s: &Vec<char>) -> (r: Vec<char>)
    ensures
        r@ == collapse_state(s@).0,
{
    let mut out: Vec<char> = Vec::new();
    let mut last_space = false;
    let mut i: usize = 0;
    while i < s.len()
        invariant
            i <= s@.len(),
            collapse_state(s@.take(i as int)) == (out@, last_space),
        decreases s@.len() - i,
    {
        assert(s@.take(i + 1).drop_last() =~= s@.take(i as int));
        let c = s[i];
        if is_whitespace(c) {
            if !last_space {
                out.push(' ');
                last_space = true;
            }
        } else {
            out.push(c);
            last_space = false;
        }
        i = i + 1;
    }
    assert(s@.take(s@.len() as int) =~= s@);
    out
}

fn space_parens(s: &Vec<char>) -> (r: Vec<char>)
    ensures
        r@ == paren_spaced(s@),
{
    let mut out: Vec<char> = Vec::new();
    let mut i: usize = 0;
    while i < s.len()
        invariant
            i <= s@.len(),
            out@ == paren_spaced(s@.take(i as int)),
        decreases s@.len() - i,
    {
        let ghost t = s@.take(i + 1);
        assert(t.drop_last() =~= s@.take(i as int));
        assert(t[i as int] == s@[i as int]);
        assert(i > 0 ==> t[i - 1] == s@[i - 1]);
        let c = s[i];
        if c == '(' && i > 0 && is_alphanumeric(s[i - 1]) {
            out.push(' ');
        }
        out.push(c);
        i = i + 1;
    }
    assert(s@.take(s@.len() as int) =~= s@);
    out
}

/// Cleans product text for display: removes tags (a block-level tag leaves a
/// separating space), collapses white space, puts a space before a parenthesis
/// that follows a word, and trims the ends.
pub fn sanitize_html(input: &str) -> (r: String)
    ensures
        r@ == sanitized(input@),
{
    let stripped = strip_tags(&chars_of(input));
    let collapsed = collapse_white(&stripped);
    let spaced = space_parens(&collapsed);
    string_from_chars(&trim_chars(&spaced))
}

} // verus!
