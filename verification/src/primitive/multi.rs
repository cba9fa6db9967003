//! Parsing several primitives from the concatenation of their name prefixes
use vstd::prelude::*;

use super::format_name::{byte_len, spec_from_format_name};
use super::lookup::{first_match, lemma_first_match_here, lemma_first_match_skip};
use super::Primitive;
use crate::text::str_eq;

verus! {

/// A parsed primitive together with the text it was parsed from
pub type Token<'a> = (Primitive, &'a str);

/// The view of a parsed primitive and its text
pub type TokenView = (Primitive, Seq<char>);

/// The views of a list of tokens
pub open spec fn tokens_view<'a>(v: Seq<Token<'a>>) -> Seq<TokenView> {
    v.map_values(|t: Token<'a>| (t.0, t.1@))
}

/// The views of tokens grow as the tokens do
pub proof fn lemma_tokens_view_push<'a>(v: Seq<Token<'a>>, t: Token<'a>)
    ensures
        tokens_view(v.push(t)) == tokens_view(v).push((t.0, t.1@)),
{
    assert(tokens_view(v.push(t)) =~= tokens_view(v).push((t.0, t.1@)));
}

/// The views of concatenated tokens are the concatenated views
pub proof fn lemma_tokens_view_add<'a>(v: Seq<Token<'a>>, w: Seq<Token<'a>>)
    ensures
        tokens_view(v + w) == tokens_view(v) + tokens_view(w),
{
    assert(tokens_view(v + w) =~= tokens_view(v) + tokens_view(w));
}

/// The strings in which every character stands for a whole primitive
pub open spec fn spec_multi_aliases() -> Seq<(Seq<char>, Seq<TokenView>)> {
    seq![
        ("kork"@, seq![(Primitive::Keep, "k"@), (Primitive::On, "o"@), (Primitive::Rows, "r"@), (Primitive::Keep, "k"@)]),
        ("rkok"@, seq![(Primitive::Rows, "r"@), (Primitive::Keep, "k"@), (Primitive::On, "o"@), (Primitive::Keep, "k"@)]),
        ("awm"@, seq![(Primitive::Assert, "a"@), (Primitive::With, "w"@), (Primitive::Match, "m"@)]),
        ("dor"@, seq![(Primitive::Div, "d"@), (Primitive::On, "o"@), (Primitive::Range, "r"@)]),
        ("pbbn"@, seq![(Primitive::Partition, "p"@), (Primitive::Box, "b"@), (Primitive::By, "b"@), (Primitive::Ne, "n"@)]),
        ("ppbn"@, seq![(Primitive::Partition, "p"@), (Primitive::Parse, "p"@), (Primitive::By, "b"@), (Primitive::Ne, "n"@)]),
        ("pibn"@, seq![(Primitive::Partition, "p"@), (Primitive::Identity, "i"@), (Primitive::By, "b"@), (Primitive::Ne, "n"@)]),
        ("kbn"@, seq![(Primitive::Keep, "k"@), (Primitive::By, "b"@), (Primitive::Ne, "n"@)]),
    ]
}

/// Whether a multi-alias entry is for the given text
pub open spec fn alias_is(name: Seq<char>) -> spec_fn((Seq<char>, Seq<TokenView>)) -> bool {
    |e: (Seq<char>, Seq<TokenView>)| e.0 == name
}

/// The primitives that a multi-alias stands for
pub open spec fn spec_get_multi_alias(name: Seq<char>) -> Option<Seq<TokenView>> {
    match first_match(spec_multi_aliases(), alias_is(name)) {
        Some(e) => Some(e.1),
        None => None,
    }
}

/// The view of a multi-alias table entry
pub open spec fn entry_view(e: (&'static str, &'static [(Primitive, &'static str)])) -> (Seq<char>, Seq<TokenView>) {
    (e.0@, tokens_view(e.1@))
}

impl Primitive {
    /// The list of strings where each character maps to an entire primitive
    pub fn multi_aliases() -> (r: &'static [(&'static str, &'static [(Primitive, &'static str)])])
        ensures
            r@.map_values(|e: (&'static str, &'static [(Primitive, &'static str)])| entry_view(e))
                == spec_multi_aliases(),
    {
        let r: &'static [(&'static str, &'static [(Primitive, &'static str)])] = &[
            ("kork", &[(Primitive::Keep, "k"), (Primitive::On, "o"), (Primitive::Rows, "r"), (Primitive::Keep, "k")]),
            ("rkok", &[(Primitive::Rows, "r"), (Primitive::Keep, "k"), (Primitive::On, "o"), (Primitive::Keep, "k")]),
            ("awm", &[(Primitive::Assert, "a"), (Primitive::With, "w"), (Primitive::Match, "m")]),
            ("dor", &[(Primitive::Div, "d"), (Primitive::On, "o"), (Primitive::Range, "r")]),
            ("pbbn", &[(Primitive::Partition, "p"), (Primitive::Box, "b"), (Primitive::By, "b"), (Primitive::Ne, "n")]),
            ("ppbn", &[(Primitive::Partition, "p"), (Primitive::Parse, "p"), (Primitive::By, "b"), (Primitive::Ne, "n")]),
            ("pibn", &[(Primitive::Partition, "p"), (Primitive::Identity, "i"), (Primitive::By, "b"), (Primitive::Ne, "n")]),
            ("kbn", &[(Primitive::Keep, "k"), (Primitive::By, "b"), (Primitive::Ne, "n")]),
        ];
        proof {
            let ghost v = r@.map_values(|e: (&'static str, &'static [(Primitive, &'static str)])| entry_view(e));
            assert forall|i: int| 0 <= i < 8 implies #[trigger] v[i] == spec_multi_aliases()[i] by {
                assert(tokens_view(r@[i].1@) =~= spec_multi_aliases()[i].1);
            }
            assert(v =~= spec_multi_aliases());
        }
        r
    }
}


impl Primitive {
    /// Look up a multi-alias from [`Self::multi_aliases`]
    pub fn get_multi_alias(name: &str) -> (r: Option<&'static [(Primitive, &'static str)]>)
        ensures
            r matches Some(ps) ==> spec_get_multi_alias(name@) == Some(tokens_view(ps@)),
            r is None ==> spec_get_multi_alias(name@) is None,
    {
        let table = Self::multi_aliases();
        let ghost tv = table@.map_values(|e: (&'static str, &'static [(Primitive, &'static str)])| entry_view(e));
        let ghost pred = alias_is(name@);
        let mut i: usize = 0;
        assert(tv.skip(0) =~= tv);
        while i < table.len()
            invariant
                tv == table@.map_values(|e: (&'static str, &'static [(Primitive, &'static str)])| entry_view(e)),
                tv == spec_multi_aliases(),
                pred == alias_is(name@),
                i <= table@.len(),
                first_match(tv, pred) == first_match(tv.skip(i as int), pred),
            decreases table@.len() - i,
        {
            let (alias, aliases) = table[i];
            assert(tv[i as int] == entry_view(table@[i as int]));
            if str_eq(alias, name) {
                proof {
                    lemma_first_match_here(tv, pred, i as int);
                }
                return Some(aliases);
            }
            proof {
                lemma_first_match_skip(tv, pred, i as int);
            }
            i += 1;
        }
        None
    }
}

/// The primitive that a letter stands for in planet notation
pub open spec fn planet_prim(c: char, first: bool) -> Primitive {
    if c == 'f' && first {
        Primitive::Fork
    } else if c == 'f' {
        Primitive::Fix
    } else if c == 'g' {
        Primitive::Gap
    } else if c == 'd' {
        Primitive::Dip
    } else if c == 'i' {
        Primitive::Identity
    } else {
        Primitive::Pop
    }
}

/// Where the planet letters start, once a leading `f` is stripped
pub open spec fn planet_start(s: Seq<char>) -> int {
    if s.len() > 0 && s[0] == 'f' { 1 } else { 0 }
}

/// Where the planet letters end, once a trailing `i`, `p` or `f` is stripped
pub open spec fn planet_end(s: Seq<char>) -> int {
    let a = planet_start(s);
    if s.len() > a && (s.last() == 'i' || s.last() == 'p' || s.last() == 'f') {
        s.len() - 1
    } else {
        s.len() as int
    }
}

/// Whether a text is a run of planet letters: an optional `f` for fork, then gaps and dips,
/// then an optional `i`, `p` or `f`, but not `fi`
pub open spec fn is_planet(s: Seq<char>) -> bool {
    &&& forall|k: int| planet_start(s) <= k < planet_end(s) ==> #[trigger] s[k] == 'g' || s[k] == 'd'
    &&& s != "fi"@
}

/// The tokens of a run of planet letters, one per letter
pub open spec fn planet_tokens(s: Seq<char>) -> Seq<TokenView> {
    Seq::new(s.len(), |i: int| (planet_prim(s[i], i == 0), seq![s[i]]))
}

/// Whether a text is a run of dips with an optional trailing fix
pub open spec fn is_dip_fix(s: Seq<char>) -> bool {
    let b = if s.len() > 0 && s.last() == 'f' { s.len() - 1 } else { s.len() as int };
    forall|k: int| 0 <= k < b ==> #[trigger] s[k] == 'd'
}

/// The tokens of a run of dips with an optional trailing fix
pub open spec fn dip_fix_tokens(s: Seq<char>) -> Seq<TokenView> {
    Seq::new(s.len(), |i: int| (if s[i] == 'd' { Primitive::Dip } else { Primitive::Fix }, seq![s[i]]))
}

/// The tokens that one chunk of a multi-name reads as, trying each notation in turn
pub open spec fn chunk_tokens(s: Seq<char>) -> Option<Seq<TokenView>> {
    if spec_from_format_name(s) is Some {
        Some(seq![(spec_from_format_name(s).unwrap(), s)])
    } else if is_planet(s) {
        Some(planet_tokens(s))
    } else if is_dip_fix(s) {
        Some(dip_fix_tokens(s))
    } else {
        spec_get_multi_alias(s)
    }
}

/// Parse a chunk
fn parse_chunk<'a>(sub: &'a str) -> (r: Option<Vec<Token<'a>>>)
    ensures
        r matches Some(v) ==> chunk_tokens(sub@) == Some(tokens_view(v@)),
        r is None ==> chunk_tokens(sub@) is None,
{
    if let Some(p) = Primitive::from_format_name(sub) {
        let v = vec![(p, sub)];
        assert(tokens_view(v@) =~= seq![(p, sub@)]);
        return Some(v);
    }
    let m = sub.unicode_len();
    // Planet notation
    let a: usize = if m > 0 && sub.get_char(0) == 'f' { 1 } else { 0 };
    let b: usize = if m > a && (sub.get_char(m - 1) == 'i' || sub.get_char(m - 1) == 'p' || sub.get_char(m - 1) == 'f') {
        m - 1
    } else {
        m
    };
    assert(a == planet_start(sub@) && b == planet_end(sub@));
    let mut k: usize = a;
    let mut planet = true;
    while k < b
        invariant
            a <= k <= b,
            b <= m,
            m == sub@.len(),
            planet <==> forall|j: int| a <= j < k ==> #[trigger] sub@[j] == 'g' || sub@[j] == 'd',
        decreases b - k,
    {
        let c = sub.get_char(k);
        if c != 'g' && c != 'd' {
            planet = false;
        }
        k += 1;
    }
    proof {
        reveal_strlit("fi");
    }
    if planet && !str_eq(sub, "fi") {
        let mut v: Vec<Token<'a>> = Vec::new();
        let mut i: usize = 0;
        while i < m
            invariant
                m == sub@.len(),
                is_planet(sub@),
                i <= m,
                tokens_view(v@) =~= planet_tokens(sub@).take(i as int),
            decreases m - i,
        {
            let c = sub.get_char(i);
            let prim = if c == 'f' && i == 0 {
                Primitive::Fork
            } else if c == 'f' {
                Primitive::Fix
            } else if c == 'g' {
                Primitive::Gap
            } else if c == 'd' {
                Primitive::Dip
            } else if c == 'i' {
                Primitive::Identity
            } else {
                Primitive::Pop
            };
            let one = sub.substring_char(i, i + 1);
            assert(one@ =~= seq![c]);
            proof {
                lemma_tokens_view_push(v@, (prim, one));
            }
            v.push((prim, one));
            i += 1;
        }
        assert(planet_tokens(sub@).take(m as int) =~= planet_tokens(sub@));
        return Some(v);
    }
    // Dip fix
    let b2: usize = if m > 0 && sub.get_char(m - 1) == 'f' { m - 1 } else { m };
    let mut k2: usize = 0;
    let mut dips = true;
    while k2 < b2
        invariant
            k2 <= b2,
            b2 <= m,
            m == sub@.len(),
            b2 == (if sub@.len() > 0 && sub@.last() == 'f' { sub@.len() - 1 } else { sub@.len() as int }),
            dips <==> forall|j: int| 0 <= j < k2 ==> #[trigger] sub@[j] == 'd',
        decreases b2 - k2,
    {
        if sub.get_char(k2) != 'd' {
            dips = false;
        }
        k2 += 1;
    }
    if dips {
        let mut v: Vec<Token<'a>> = Vec::new();
        let mut i: usize = 0;
        while i < m
            invariant
                m == sub@.len(),
                is_dip_fix(sub@),
                i <= m,
                tokens_view(v@) =~= dip_fix_tokens(sub@).take(i as int),
            decreases m - i,
        {
            let c = sub.get_char(i);
            let prim = if c == 'd' { Primitive::Dip } else { Primitive::Fix };
            let one = sub.substring_char(i, i + 1);
            assert(one@ =~= seq![c]);
            proof {
                lemma_tokens_view_push(v@, (prim, one));
            }
            v.push((prim, one));
            i += 1;
        }
        assert(dip_fix_tokens(sub@).take(m as int) =~= dip_fix_tokens(sub@));
        return Some(v);
    }
    // Aliases
    match Primitive::get_multi_alias(sub) {
        Some(ps) => {
            let mut v: Vec<Token<'a>> = Vec::new();
            let mut i: usize = 0;
            while i < ps.len()
                invariant
                    i <= ps@.len(),
                    tokens_view(v@) =~= tokens_view(ps@).take(i as int),
                decreases ps@.len() - i,
            {
                proof {
                    lemma_tokens_view_push(v@, ps@[i as int]);
                }
                v.push(ps[i]);
                i += 1;
            }
            assert(tokens_view(ps@).take(ps@.len() as int) =~= tokens_view(ps@));
            Some(v)
        },
        None => None,
    }
}


/// Put tokens in front of a parse result, if there is one
pub open spec fn prepend(t: Seq<TokenView>, r: Option<Seq<TokenView>>) -> Option<Seq<TokenView>> {
    match r {
        Some(rest) => Some(t + rest),
        None => None,
    }
}

/// Put tokens behind a parse result, if there is one
pub open spec fn append(r: Option<Seq<TokenView>>, t: Seq<TokenView>) -> Option<Seq<TokenView>> {
    match r {
        Some(rest) => Some(rest + t),
        None => None,
    }
}

/// Read a name from character position `start` on, taking the longest chunk that reads at
/// each step and never going back on a chunk once taken
pub open spec fn parse_forward(s: Seq<char>, start: int) -> Option<Seq<TokenView>>
    decreases s.len() + 1 - start, s.len() + 2 - start,
{
    if start < 0 || start > s.len() + 1 {
        None
    } else if start == s.len() + 1 {
        Some(seq![])
    } else {
        parse_forward_from(s, start, s.len() + 1 - start)
    }
}

/// Read a name from character position `start` on, with chunks of at most `len` characters
/// at this step (a chunk is cut at the end of the name)
pub open spec fn parse_forward_from(s: Seq<char>, start: int, len: int) -> Option<Seq<TokenView>>
    decreases s.len() + 1 - start, len,
{
    if len < 2 || start < 0 || start + len > s.len() + 1 {
        None
    } else {
        let end = if start + len <= s.len() { start + len } else { s.len() as int };
        let sub = s.subrange(start, end);
        if byte_len(sub) < 2 {
            parse_forward_from(s, start, len - 1)
        } else {
            match chunk_tokens(sub) {
                Some(t) => prepend(t, parse_forward(s, start + len)),
                None => parse_forward_from(s, start, len - 1),
            }
        }
    }
}

/// Read the first `end` characters of a name from the back, taking the longest chunk that
/// reads at each step and never going back on a chunk once taken
pub open spec fn parse_backward(s: Seq<char>, end: int) -> Option<Seq<TokenView>>
    decreases end, end + 1,
{
    if end <= 0 {
        Some(seq![])
    } else {
        parse_backward_from(s, end, end)
    }
}

/// Read the first `end` characters of a name from the back, with a last chunk of at most
/// `len` characters
pub open spec fn parse_backward_from(s: Seq<char>, end: int, len: int) -> Option<Seq<TokenView>>
    decreases end, len,
{
    if len < 2 || len > end || end > s.len() {
        None
    } else {
        match chunk_tokens(s.subrange(end - len, end)) {
            Some(t) => append(parse_backward(s, end - len), t),
            None => parse_backward_from(s, end, len - 1),
        }
    }
}

/// The primitives that a concatenation of name prefixes reads as: read from the front if
/// that succeeds, else from the back
pub open spec fn spec_from_format_name_multi(s: Seq<char>) -> Option<Seq<TokenView>> {
    if s.len() < 2 {
        None
    } else if parse_forward(s, 0) is Some {
        parse_forward(s, 0)
    } else {
        parse_backward(s, s.len() as int)
    }
}

/// Take the longest chunk that reads at `start`
fn forward_step<'a>(name: &'a str, start: usize) -> (r: Option<(Vec<Token<'a>>, usize)>)
    requires
        start <= name@.len(),
        name@.len() < usize::MAX,
    ensures
        r matches Some((t, len)) ==> {
            &&& 2 <= len <= name@.len() + 1 - start
            &&& parse_forward_from(name@, start as int, name@.len() + 1 - start) == prepend(
                tokens_view(t@),
                parse_forward(name@, start + len),
            )
        },
        r is None ==> parse_forward_from(name@, start as int, name@.len() + 1 - start) is None,
{
    let n = name.unicode_len();
    let mut len: usize = n + 1 - start;
    while len >= 2
        invariant
            n == name@.len(),
            n < usize::MAX,
            start <= n,
            len <= n + 1 - start,
            parse_forward_from(name@, start as int, n + 1 - start) == parse_forward_from(
                name@,
                start as int,
                len as int,
            ),
        decreases len,
    {
        let end: usize = if start + len <= n { start + len } else { n };
        let sub = name.substring_char(start, end);
        if sub.as_bytes().len() >= 2 {
            if let Some(t) = parse_chunk(sub) {
                return Some((t, len));
            }
        }
        len -= 1;
    }
    None
}

/// Read a name from the front
fn parse_forward_exec<'a>(name: &'a str) -> (r: Option<Vec<Token<'a>>>)
    requires
        name@.len() < usize::MAX,
    ensures
        r matches Some(v) ==> parse_forward(name@, 0) == Some(tokens_view(v@)),
        r is None ==> parse_forward(name@, 0) is None,
{
    let n = name.unicode_len();
    let mut prims: Vec<Token<'a>> = Vec::new();
    let mut start: usize = 0;
    assert(tokens_view(prims@) =~= seq![]);
    while start <= n
        invariant
            n == name@.len(),
            n < usize::MAX,
            start <= n + 1,
            parse_forward(name@, 0) == prepend(tokens_view(prims@), parse_forward(name@, start as int)),
        decreases n + 1 - start,
    {
        match forward_step(name, start) {
            Some((t, len)) => {
                proof {
                    lemma_tokens_view_add(prims@, t@);
                    assert(tokens_view(prims@) + (tokens_view(t@) + parse_forward(name@, start + len).unwrap())
                        =~= (tokens_view(prims@) + tokens_view(t@)) + parse_forward(name@, start + len).unwrap());
                }
                let mut t = t;
                prims.append(&mut t);
                start = start + len;
            },
            None => {
                return None;
            },
        }
    }
    assert(tokens_view(prims@) + seq![] =~= tokens_view(prims@));
    Some(prims)
}

/// Take the longest chunk that reads and ends at `end`
fn backward_step<'a>(name: &'a str, end: usize) -> (r: Option<(Vec<Token<'a>>, usize)>)
    requires
        0 < end <= name@.len(),
    ensures
        r matches Some((t, len)) ==> {
            &&& 2 <= len <= end
            &&& parse_backward_from(name@, end as int, end as int) == append(
                parse_backward(name@, end - len),
                tokens_view(t@),
            )
        },
        r is None ==> parse_backward_from(name@, end as int, end as int) is None,
{
    let mut len: usize = end;
    while len >= 2
        invariant
            0 < end <= name@.len(),
            len <= end,
            parse_backward_from(name@, end as int, end as int) == parse_backward_from(
                name@,
                end as int,
                len as int,
            ),
        decreases len,
    {
        let sub = name.substring_char(end - len, end);
        if let Some(t) = parse_chunk(sub) {
            return Some((t, len));
        }
        len -= 1;
    }
    None
}

/// Read a name from the back
fn parse_backward_exec<'a>(name: &'a str) -> (r: Option<Vec<Token<'a>>>)
    ensures
        r matches Some(v) ==> parse_backward(name@, name@.len() as int) == Some(tokens_view(v@)),
        r is None ==> parse_backward(name@, name@.len() as int) is None,
{
    let n = name.unicode_len();
    let mut prims: Vec<Token<'a>> = Vec::new();
    let mut end: usize = n;
    assert(tokens_view(prims@) =~= seq![]);
    while end > 0
        invariant
            n == name@.len(),
            end <= n,
            parse_backward(name@, n as int) == append(parse_backward(name@, end as int), tokens_view(prims@)),
        decreases end,
    {
        match backward_step(name, end) {
            Some((t, len)) => {
                proof {
                    lemma_tokens_view_add(t@, prims@);
                    assert((parse_backward(name@, end - len).unwrap() + tokens_view(t@)) + tokens_view(prims@)
                        =~= parse_backward(name@, end - len).unwrap() + (tokens_view(t@) + tokens_view(prims@)));
                }
                let mut rest = prims;
                let mut t = t;
                t.append(&mut rest);
                prims = t;
                end = end - len;
            },
            None => {
                return None;
            },
        }
    }
    assert(seq![] + tokens_view(prims@) =~= tokens_view(prims@));
    Some(prims)
}

impl Primitive {
    /// Try to parse multiple primitives from the concatenation of their name prefixes
    pub fn from_format_name_multi<'a>(name: &'a str) -> (r: Option<Vec<Token<'a>>>)
        requires
            name@.len() < usize::MAX,
        ensures
            r matches Some(v) ==> spec_from_format_name_multi(name@) == Some(tokens_view(v@)),
            r is None ==> spec_from_format_name_multi(name@) is None,
    {
        if name.unicode_len() < 2 {
            return None;
        }
        match parse_forward_exec(name) {
            Some(prims) => Some(prims),
            None => parse_backward_exec(name),
        }
    }
}

} // verus!
