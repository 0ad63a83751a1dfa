use vstd::prelude::*;
use crate::search::{utf8_byte_len, utf8_len};
use crate::text::{chars_of, concat_chars, is_white, is_whitespace, string_from_chars};

verus! {

/// Words found so far in `s`, and the word still being read at its end.
pub open spec fn split_state(s: Seq<char>) -> (Seq<Seq<char>>, Seq<char>)
    decreases s.len(),
{
    if s.len() == 0 {
        (Seq::empty(), Seq::empty())
    } else {
        let (ws, cur) = split_state(s.drop_last());
        let c = s.last();
        if is_white(c) {
            if cur.len() > 0 {
                (ws.push(cur), Seq::empty())
            } else {
                (ws, Seq::empty())
            }
        } else {
            (ws, cur.push(c))
        }
    }
}

/// The maximal runs of non-white-space characters of `s`, as
/// `str::split_whitespace` gives them.
pub open spec fn words_of(s: Seq<char>) -> Seq<Seq<char>> {
    let (ws, cur) = split_state(s);
    if cur.len() > 0 {
        ws.push(cur)
    } else {
        ws
    }
}

/// Lines completed so far when filling `ws` greedily into lines of at most
/// `width` bytes, and the line being filled.
pub open spec fn wrap_state(ws: Seq<Seq<char>>, width: int) -> (Seq<Seq<char>>, Seq<char>)
    decreases ws.len(),
{
    if ws.len() == 0 {
        (Seq::empty(), Seq::empty())
    } else {
        let (ls, cur) = wrap_state(ws.drop_last(), width);
        let w = ws.last();
        if cur.len() > 0 && utf8_len(cur) + utf8_len(w) + 1 > width {
            (ls.push(cur), w)
        } else if cur.len() == 0 {
            (ls, w)
        } else {
            (ls, cur + seq![' '] + w)
        }
    }
}

/// The words filled greedily into lines: a word goes on the current line when
/// the line, a space and the word fit in `width` bytes, else it starts a new line.
pub open spec fn wrapped(ws: Seq<Seq<char>>, width: int) -> Seq<Seq<char>> {
    let (ls, cur) = wrap_state(ws, width);
    if cur.len() > 0 {
        ls.push(cur)
    } else {
        ls
    }
}

/// The lines joined by line breaks.
pub open spec fn join_lines(ls: Seq<Seq<char>>) -> Seq<char>
    decreases ls.len(),
{
    if ls.len() == 0 {
        Seq::empty()
    } else if ls.len() == 1 {
        ls[0]
    } else {
        join_lines(ls.drop_last()) + seq!['\n'] + ls.last()
    }
}

pub open spec fn ellipsis() -> Seq<char> {
    seq!['.', '.', '.']
}

/// At most `max_lines` lines: where there are more, the first `max_lines - 1`
/// and a line `...`.
pub open spec fn limit_lines(ls: Seq<Seq<char>>, max_lines: int) -> Seq<Seq<char>> {
    if ls.len() > max_lines {
        ls.take(max_lines - 1).push(ellipsis())
    } else {
        ls
    }
}

/// A message wrapped to `max_width` bytes per line and at most `max_lines` lines.
pub open spec fn formatted_message(message: Seq<char>, max_width: int, max_lines: int) -> Seq<
    char,
> {
    join_lines(limit_lines(wrapped(words_of(message), max_width), max_lines))
}

/// The lines of an error message for a panel `max_width` bytes wide: none for
/// an empty message, the message whole for a width under 10, else wrapped to at
/// most four lines.
pub open spec fn error_lines(error: Seq<char>, max_width: int) -> Seq<Seq<char>> {
    if error.len() == 0 {
        Seq::empty()
    } else if max_width < 10 {
        seq![error]
    } else {
        limit_lines(wrapped(words_of(error), max_width), 4)
    }
}

/// The character sequences that vectors of characters hold.
pub open spec fn views(v: Seq<Vec<char>>) -> Seq<Seq<char>> {
    v.map_values(|w: Vec<char>| w@)
}

pub fn split_words(s: &Vec<char>) -> (r: Vec<Vec<char>>)
    ensures
        views(r@) == words_of(s@),
{
    let mut ws: Vec<Vec<char>> = Vec::new();
    let mut cur: Vec<char> = Vec::new();
    let mut i: usize = 0;
    assert(views(ws@) =~= Seq::<Seq<char>>::empty());
    while i < s.len()
        invariant
            i <= s@.len(),
            split_state(s@.take(i as int)) == (views(ws@), cur@),
        decreases s@.len() - i,
    {
        assert(s@.take(i + 1).drop_last() =~= s@.take(i as int));
        let c = s[i];
        if is_whitespace(c) {
            if cur.len() > 0 {
                let ghost before = ws@;
                let done = cur;
                cur = Vec::new();
                ws.push(done);
                assert(views(ws@) =~= views(before).push(done@));
            } else {
                cur = Vec::new();
            }
        } else {
            cur.push(c);
        }
        assert(cur@ == split_state(s@.take(i + 1)).1);
        i = i + 1;
    }
    assert(s@.take(s@.len() as int) =~= s@);
    if cur.len() > 0 {
        let ghost before = ws@;
        let ghost cur_view = cur@;
        ws.push(cur);
        assert(views(ws@) =~= views(before).push(cur_view));
    }
    ws
}

fn wrap_words(ws: &Vec<Vec<char>>, width: usize) -> (r: Vec<Vec<char>>)
    ensures
        views(r@) == wrapped(views(ws@), width as int),
{
    let mut ls: Vec<Vec<char>> = Vec::new();
    let mut cur: Vec<char> = Vec::new();
    let mut cur_len: u128 = 0;
    let mut i: usize = 0;
    assert(views(ls@) =~= Seq::<Seq<char>>::empty());
    while i < ws.len()
        invariant
            i <= ws@.len(),
            wrap_state(views(ws@).take(i as int), width as int) == (views(ls@), cur@),
            cur_len as int == utf8_len(cur@),
            cur_len <= 4 * (usize::MAX as u128),
        decreases ws@.len() - i,
    {
        let ghost vw = views(ws@).take(i + 1);
        assert(vw.drop_last() =~= views(ws@).take(i as int));
        assert(vw.last() == ws@[i as int]@);
        let w = &ws[i];
        let wlen = utf8_byte_len(w);
        if cur.len() > 0 && cur_len + wlen + 1 > width as u128 {
            let ghost before = ls@;
            let done = cur;
            ls.push(done);
            assert(views(ls@) =~= views(before).push(done@));
            cur = slice_all(w);
            cur_len = wlen;
        } else if cur.len() == 0 {
            cur = slice_all(w);
            cur_len = wlen;
        } else {
            cur.push(' ');
            cur = concat_chars(&cur, w);
            cur_len = utf8_byte_len(&cur);
        }
        i = i + 1;
    }
    assert(views(ws@).take(ws@.len() as int) =~= views(ws@));
    if cur.len() > 0 {
        let ghost before = ls@;
        let ghost cv = cur@;
        ls.push(cur);
        assert(views(ls@) =~= views(before).push(cv));
    }
    ls
}

fn slice_all(w: &Vec<char>) -> (r: Vec<char>)
    ensures
        r@ == w@,
{
    crate::text::slice_chars(w, 0, w.len())
}

fn join_with_breaks(ls: &Vec<Vec<char>>) -> (r: Vec<char>)
    ensures
        r@ == join_lines(views(ls@)),
{
    let mut out: Vec<char> = Vec::new();
    let mut i: usize = 0;
    while i < ls.len()
        invariant
            i <= ls@.len(),
            out@ == join_lines(views(ls@).take(i as int)),
        decreases ls@.len() - i,
    {
        let ghost vt = views(ls@).take(i + 1);
        assert(vt.drop_last() =~= views(ls@).take(i as int));
        assert(vt.last() == ls@[i as int]@);
        if i > 0 {
            out.push('\n');
        }
        let joined = concat_chars(&out, &ls[i]);
        proof {
            if i == 0 {
                assert(joined@ =~= vt[0]);
            }
        }
        out = joined;
        i = i + 1;
    }
    assert(views(ls@).take(ls@.len() as int) =~= views(ls@));
    out
}

fn ellipsis_line() -> (r: Vec<char>)
    ensures
        r@ == ellipsis(),
{
    let mut v: Vec<char> = Vec::new();
    v.push('.');
    v.push('.');
    v.push('.');
    assert(v@ =~= ellipsis());
    v
}

fn limit_line_count(ls: Vec<Vec<char>>, max_lines: usize) -> (r: Vec<Vec<char>>)
    requires
        max_lines > 0 || ls@.len() == 0,
    ensures
        views(r@) == limit_lines(views(ls@), max_lines as int),
{
    if ls.len() > max_lines {
        let mut out = ls;
        let ghost before = out@;
        out.truncate(max_lines - 1);
        assert(views(out@) =~= views(before).take(max_lines - 1));
        let ghost kept = out@;
        let e = ellipsis_line();
        out.push(e);
        assert(views(out@) =~= views(kept).push(ellipsis()));
        out
    } else {
        ls
    }
}

/// Wraps `message` into lines of at most `max_width` bytes where words allow,
/// keeps at most `max_lines` lines (the last of them `...` when some were cut),
/// and joins them with line breaks.
pub fn format_error_message(message: &str, max_width: usize, max_lines: usize) -> (r: String)
    requires
        max_lines > 0 || wrapped(words_of(message@), max_width as int).len() == 0,
    ensures
        r@ == formatted_message(message@, max_width as int, max_lines as int),
{
    let words = split_words(&chars_of(message));
    let lines = wrap_words(&words, max_width);
    let limited = limit_line_count(lines, max_lines);
    string_from_chars(&join_with_breaks(&limited))
}

/// The lines in which an error is shown in a panel `max_width` bytes wide.
pub fn split_error_message(error: &str, max_width: usize) -> (r: Vec<String>)
    ensures
        r@.map_values(|l: String| l@) == error_lines(error@, max_width as int),
{
    let chars = chars_of(error);
    let mut out: Vec<String> = Vec::new();
    if chars.len() == 0 {
        assert(out@.map_values(|l: String| l@) =~= Seq::<Seq<char>>::empty());
        return out;
    }
    if max_width < 10 {
        out.push(string_from_chars(&chars));
        assert(out@.map_values(|l: String| l@) =~= seq![error@]);
        return out;
    }
    let words = split_words(&chars);
    let lines = limit_line_count(wrap_words(&words, max_width), 4);
    let mut i: usize = 0;
    while i < lines.len()
        invariant
            i <= lines@.len(),
            out@.len() == i,
            out@.map_values(|l: String| l@) == views(lines@).take(i as int),
        decreases lines@.len() - i,
    {
        let ghost before = out@;
        out.push(string_from_chars(&lines[i]));
        assert(views(lines@)[i as int] == lines@[i as int]@);
        assert(out@[i as int]@ == lines@[i as int]@);
        assert(forall|k: int| 0 <= k < i ==> out@[k] == before[k]);
        assert(out@.map_values(|l: String| l@) =~= views(lines@).take(i + 1));
        i = i + 1;
    }
    assert(views(lines@).take(lines@.len() as int) =~= views(lines@));
    out
}

/// How many leading characters of `s` fit in `budget` bytes.
pub open spec fn chars_in_bytes(s: Seq<char>, budget: int) -> int
    decreases s.len(),
{
    if s.len() == 0 || crate::search::char_utf8_len(s[0]) > budget {
        0
    } else {
        1 + chars_in_bytes(s.drop_first(), budget - crate::search::char_utf8_len(s[0]))
    }
}

/// Text that is too long (in bytes) cut to `max_length - 3` bytes and ended
/// with `...`; shorter text unchanged.
pub open spec fn truncated_text(s: Seq<char>, max_length: int) -> Seq<char> {
    if utf8_len(s) <= max_length {
        s
    } else {
        let keep = if max_length >= 3 {
            max_length - 3
        } else {
            0
        };
        s.take(chars_in_bytes(s, keep)) + ellipsis()
    }
}

/// Whether cutting `s` to `max_length - 3` bytes falls between characters, as
/// slicing a string there requires.
pub open spec fn cut_on_boundary(s: Seq<char>, max_length: int) -> bool {
    let keep = if max_length >= 3 {
        max_length - 3
    } else {
        0
    };
    utf8_len(s) <= max_length || utf8_len(s.take(chars_in_bytes(s, keep))) == keep
}

proof fn lemma_chars_in_bytes_step(s: Seq<char>, i: int, budget: int)
    requires
        0 <= i < s.len(),
    ensures
        s.subrange(i, s.len() as int).drop_first() =~= s.subrange(i + 1, s.len() as int),
        s.subrange(i, s.len() as int)[0] == s[i],
{
}

/// Cuts `text` to fit `max_length` bytes, ending it with `...` when cut.
pub fn truncate_text(text: &str, max_length: usize) -> (r: String)
    requires
        cut_on_boundary(text@, max_length as int),
    ensures
        r@ == truncated_text(text@, max_length as int),
{
    let chars = chars_of(text);
    let total = utf8_byte_len(&chars);
    if total <= max_length as u128 {
        return string_from_chars(&chars);
    }
    let keep: usize = if max_length >= 3 {
        max_length - 3
    } else {
        0
    };
    let n = chars.len();
    let mut i: usize = 0;
    let mut left: u128 = keep as u128;
    assert(chars@.subrange(0, n as int) =~= chars@);
    while i < n && char_width(chars[i]) <= left
        invariant
            i <= n == chars@.len(),
            chars@ == text@,
            0 <= left <= keep,
            chars_in_bytes(chars@, keep as int) == i + chars_in_bytes(
                chars@.subrange(i as int, n as int),
                left as int,
            ),
        decreases n - i,
    {
        proof {
            lemma_chars_in_bytes_step(chars@, i as int, left as int);
        }
        let w = char_width(chars[i]);
        left = left - w;
        i = i + 1;
    }
    proof {
        if i < n {
            lemma_chars_in_bytes_step(chars@, i as int, left as int);
        }
    }
    let head = crate::text::slice_chars(&chars, 0, i);
    assert(head@ =~= chars@.take(i as int));
    let out = concat_chars(&head, &ellipsis_line());
    string_from_chars(&out)
}

fn char_width(c: char) -> (r: u128)
    ensures
        r as int == crate::search::char_utf8_len(c),
{
    if (c as u32) < 0x80 {
        1
    } else if (c as u32) < 0x800 {
        2
    } else if (c as u32) < 0x10000 {
        3
    } else {
        4
    }
}

} // verus!
