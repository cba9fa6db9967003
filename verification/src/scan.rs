//! Scanning text: Unicode whitespace, trimming, splitting at a character, lines and words
use vstd::prelude::*;

use crate::text::push_char;

verus! {

/// Whether a character has the Unicode `White_Space` property
pub open spec fn is_ws(c: char) -> bool {
    let u = c as u32;
    (9 <= u && u <= 13) || u == 32 || u == 0x85 || u == 0xa0 || u == 0x1680 || (0x2000 <= u && u
        <= 0x200a) || u == 0x2028 || u == 0x2029 || u == 0x202f || u == 0x205f || u == 0x3000
}

/// Check whether a character is whitespace (`char::is_whitespace`)
pub fn is_whitespace(c: char) -> (r: bool)
    ensures
        r == is_ws(c),
{
    let u = c as u32;
    (9 <= u && u <= 13) || u == 32 || u == 0x85 || u == 0xa0 || u == 0x1680 || (0x2000 <= u && u
        <= 0x200a) || u == 0x2028 || u == 0x2029 || u == 0x202f || u == 0x205f || u == 0x3000
}

/// The characters of a string slice
pub fn chars_of(s: &str) -> (v: Vec<char>)
    ensures
        v@ == s@,
{
    let n = s.unicode_len();
    let mut v: Vec<char> = Vec::new();
    let mut i: usize = 0;
    while i < n
        invariant
            n == s@.len(),
            i <= n,
            v@ == s@.take(i as int),
        decreases n - i,
    {
        v.push(s.get_char(i));
        i += 1;
        assert(v@ =~= s@.take(i as int));
    }
    assert(v@ =~= s@);
    v
}

/// A string holding the given characters
pub fn string_of(v: &Vec<char>) -> (s: String)
    ensures
        s@ == v@,
{
    let mut s = String::new();
    let mut i: usize = 0;
    while i < v.len()
        invariant
            i <= v@.len(),
            s@ == v@.take(i as int),
        decreases v@.len() - i,
    {
        push_char(&mut s, v[i]);
        i += 1;
        assert(s@ =~= v@.take(i as int));
    }
    assert(s@ =~= v@);
    s
}

/// The views of a sequence of character vectors
pub open spec fn views(vs: Seq<Vec<char>>) -> Seq<Seq<char>> {
    vs.map_values(|v: Vec<char>| v@)
}

/// A sequence without the whitespace at its end
pub open spec fn trim_end_ws(s: Seq<char>) -> Seq<char>
    decreases s.len(),
{
    if s.len() > 0 && is_ws(s.last()) {
        trim_end_ws(s.drop_last())
    } else {
        s
    }
}

/// A sequence without the whitespace at its start
pub open spec fn trim_start_ws(s: Seq<char>) -> Seq<char>
    decreases s.len(),
{
    if s.len() > 0 && is_ws(s[0]) {
        trim_start_ws(s.drop_first())
    } else {
        s
    }
}

/// A sequence without the whitespace at either end (`str::trim`)
pub open spec fn trim_ws(s: Seq<char>) -> Seq<char> {
    trim_start_ws(trim_end_ws(s))
}

/// Trim the whitespace off both ends of some characters
pub fn trim_chars(v: &Vec<char>) -> (r: Vec<char>)
    ensures
        r@ == trim_ws(v@),
{
    let mut end: usize = v.len();
    assert(v@.take(v@.len() as int) =~= v@);
    while end > 0 && is_whitespace(v[end - 1])
        invariant
            end <= v@.len(),
            trim_end_ws(v@) == trim_end_ws(v@.take(end as int)),
        decreases end,
    {
        assert(v@.take(end as int).drop_last() =~= v@.take(end - 1));
        end -= 1;
    }
    assert(trim_end_ws(v@) == v@.take(end as int));
    let mut start: usize = 0;
    while start < end && is_whitespace(v[start])
        invariant
            start <= end <= v@.len(),
            trim_ws(v@) == trim_start_ws(v@.subrange(start as int, end as int)),
        decreases end - start,
    {
        assert(v@.subrange(start as int, end as int).drop_first() =~= v@.subrange(
            start + 1,
            end as int,
        ));
        start += 1;
    }
    let mut r: Vec<char> = Vec::new();
    let mut i: usize = start;
    while i < end
        invariant
            start <= i <= end <= v@.len(),
            r@ == v@.subrange(start as int, i as int),
        decreases end - i,
    {
        r.push(v[i]);
        i += 1;
        assert(r@ =~= v@.subrange(start as int, i as int));
    }
    r
}

/// The pieces of a sequence between the occurrences of a separator (`str::split`): one more
/// piece than there are separators
pub open spec fn split_at_char(s: Seq<char>, sep: char) -> Seq<Seq<char>>
    decreases s.len(),
{
    if s.len() == 0 {
        seq![Seq::empty()]
    } else {
        let p = split_at_char(s.drop_last(), sep);
        if s.last() == sep {
            p.push(Seq::empty())
        } else {
            p.update(p.len() - 1, p.last().push(s.last()))
        }
    }
}

/// Splitting gives at least one piece
pub proof fn lemma_split_nonempty(s: Seq<char>, sep: char)
    ensures
        split_at_char(s, sep).len() >= 1,
    decreases s.len(),
{
    if s.len() > 0 {
        lemma_split_nonempty(s.drop_last(), sep);
    }
}

/// Split some characters at each occurrence of a separator
pub fn split_chars(v: &Vec<char>, sep: char) -> (r: Vec<Vec<char>>)
    ensures
        views(r@) == split_at_char(v@, sep),
{
    let mut out: Vec<Vec<char>> = Vec::new();
    let mut cur: Vec<char> = Vec::new();
    let mut i: usize = 0;
    assert(views(out@).push(cur@) =~= split_at_char(v@.take(0), sep));
    while i < v.len()
        invariant
            i <= v@.len(),
            views(out@).push(cur@) == split_at_char(v@.take(i as int), sep),
        decreases v@.len() - i,
    {
        let c = v[i];
        assert(v@.take(i + 1).drop_last() =~= v@.take(i as int));
        if c == sep {
            let ghost before = views(out@);
            out.push(cur);
            cur = Vec::new();
            assert(views(out@) =~= before.push(views(out@).last()));
        } else {
            let ghost before = views(out@);
            cur.push(c);
            assert(views(out@) =~= before);
        }
        i += 1;
        assert(views(out@).push(cur@) =~= split_at_char(v@.take(i as int), sep));
    }
    assert(v@.take(v@.len() as int) =~= v@);
    let ghost before = views(out@);
    out.push(cur);
    assert(views(out@) =~= before.push(views(out@).last()));
    out
}

/// A line without the carriage return that ends it
pub open spec fn strip_cr(l: Seq<char>) -> Seq<char> {
    if l.len() > 0 && l.last() == '\r' {
        l.drop_last()
    } else {
        l
    }
}

/// The lines of a text (`str::lines`): split at each newline, a carriage return before a newline
/// taken off, and no last empty line after a final newline
pub open spec fn lines(s: Seq<char>) -> Seq<Seq<char>> {
    let p = split_at_char(s, '\n');
    let body = p.drop_last().map_values(|l: Seq<char>| strip_cr(l));
    if p.last().len() == 0 {
        body
    } else {
        body.push(p.last())
    }
}

/// Split some characters into lines
pub fn lines_of(v: &Vec<char>) -> (r: Vec<Vec<char>>)
    ensures
        views(r@) == lines(v@),
{
    let pieces = split_chars(v, '\n');
    proof {
        lemma_split_nonempty(v@, '\n');
    }
    let n = pieces.len();
    let mut out: Vec<Vec<char>> = Vec::new();
    let mut i: usize = 0;
    while i + 1 < n
        invariant
            n == pieces@.len(),
            n >= 1,
            i < n,
            views(pieces@) == split_at_char(v@, '\n'),
            views(out@) == views(pieces@).take(i as int).map_values(|l: Seq<char>| strip_cr(l)),
        decreases n - i,
    {
        let piece = &pieces[i];
        let mut line: Vec<char> = Vec::new();
        let mut end = piece.len();
        if end > 0 && piece[end - 1] == '\r' {
            end -= 1;
        }
        let mut k: usize = 0;
        while k < end
            invariant
                end <= piece@.len(),
                k <= end,
                line@ == piece@.take(k as int),
            decreases end - k,
        {
            line.push(piece[k]);
            k += 1;
            assert(line@ =~= piece@.take(k as int));
        }
        assert(line@ =~= strip_cr(piece@));
        assert(views(pieces@)[i as int] == piece@);
        let ghost before = views(out@);
        let ghost ps = views(pieces@);
        out.push(line);
        assert(views(out@) =~= before.push(strip_cr(ps[i as int])));
        assert(ps.take(i + 1).map_values(|l: Seq<char>| strip_cr(l)) =~= ps.take(
            i as int,
        ).map_values(|l: Seq<char>| strip_cr(l)).push(strip_cr(ps[i as int])));
        i += 1;
    }
    assert(views(pieces@).take(i as int) =~= views(pieces@).drop_last());
    let last = &pieces[n - 1];
    assert(views(pieces@).last() == last@);
    if last.len() == 0 {
        out
    } else {
        let mut line: Vec<char> = Vec::new();
        let mut k: usize = 0;
        while k < last.len()
            invariant
                k <= last@.len(),
                line@ == last@.take(k as int),
            decreases last@.len() - k,
        {
            line.push(last[k]);
            k += 1;
            assert(line@ =~= last@.take(k as int));
        }
        assert(line@ =~= last@);
        let ghost before = views(out@);
        out.push(line);
        assert(views(out@) =~= before.push(last@));
        out
    }
}

/// The words of a text (`str::split_whitespace`): the longest runs of characters that are not
/// whitespace
pub open spec fn words(s: Seq<char>) -> Seq<Seq<char>>
    decreases s.len(),
{
    if s.len() == 0 {
        seq![]
    } else {
        let w = words(s.drop_last());
        let c = s.last();
        if is_ws(c) {
            w
        } else if s.len() >= 2 && !is_ws(s[s.len() - 2]) && w.len() > 0 {
            w.update(w.len() - 1, w.last().push(c))
        } else {
            w.push(seq![c])
        }
    }
}

/// A text that ends with a character that is not whitespace has a word
proof fn lemma_words_nonempty(s: Seq<char>)
    requires
        s.len() > 0,
        !is_ws(s.last()),
    ensures
        words(s).len() > 0,
{
}

/// Split some characters into words
pub fn words_of(v: &Vec<char>) -> (r: Vec<Vec<char>>)
    ensures
        views(r@) == words(v@),
{
    let mut out: Vec<Vec<char>> = Vec::new();
    let mut cur: Vec<char> = Vec::new();
    let mut i: usize = 0;
    while i < v.len()
        invariant
            i <= v@.len(),
            (cur@.len() > 0) == (i > 0 && !is_ws(v@[i - 1])),
            cur@.len() > 0 ==> views(out@).push(cur@) == words(v@.take(i as int)),
            cur@.len() == 0 ==> views(out@) == words(v@.take(i as int)),
        decreases v@.len() - i,
    {
        let c = v[i];
        let ghost pre = v@.take(i as int);
        assert(v@.take(i + 1).drop_last() =~= pre);
        assert(v@.take(i + 1).last() == c);
        if is_whitespace(c) {
            if cur.len() > 0 {
                let ghost before = views(out@);
                out.push(cur);
                cur = Vec::new();
                assert(views(out@) =~= before.push(views(out@).last()));
            }
        } else {
            if cur.len() > 0 {
                proof {
                    lemma_words_nonempty(pre);
                    assert(pre.last() == v@[i - 1]);
                }
                let ghost before = views(out@);
                cur.push(c);
                assert(views(out@).push(cur@) =~= before.push(cur@.drop_last()).update(
                    before.len() as int,
                    cur@,
                ));
                assert(cur@.drop_last().push(c) =~= cur@);
            } else {
                cur.push(c);
                assert(cur@ =~= seq![c]);
            }
        }
        i += 1;
        assert(v@[i - 1] == c);
    }
    assert(v@.take(v@.len() as int) =~= v@);
    if cur.len() > 0 {
        let ghost before = views(out@);
        out.push(cur);
        assert(views(out@) =~= before.push(views(out@).last()));
    }
    out
}

} // verus!
