//! What reading several primitives from a name keeps: the texts of the primitives read, laid
//! end to end, are the name
use vstd::prelude::*;

use super::lookup::{first_match, lemma_first_match_sound};
use super::multi::{
    alias_is, chunk_tokens, dip_fix_tokens, parse_backward, parse_backward_from, parse_forward,
    parse_forward_from, planet_tokens, spec_from_format_name_multi, spec_get_multi_alias,
    spec_multi_aliases, TokenView,
};

verus! {

/// The texts of some tokens, laid end to end
pub open spec fn tokens_text(ts: Seq<TokenView>) -> Seq<char>
    decreases ts.len(),
{
    if ts.len() == 0 {
        seq![]
    } else {
        tokens_text(ts.drop_last()) + ts.last().1
    }
}

/// The texts of tokens laid end to end after others are those of the first laid before those
/// of the second
proof fn lemma_tokens_text_add(a: Seq<TokenView>, b: Seq<TokenView>)
    ensures
        tokens_text(a + b) == tokens_text(a) + tokens_text(b),
    decreases b.len(),
{
    if b.len() == 0 {
        assert(a + b =~= a);
        assert(tokens_text(a) + seq![] =~= tokens_text(a));
    } else {
        assert((a + b).drop_last() =~= a + b.drop_last());
        lemma_tokens_text_add(a, b.drop_last());
        assert(tokens_text(a) + tokens_text(b.drop_last()) + b.last().1 =~= tokens_text(a) + (
        tokens_text(b.drop_last()) + b.last().1));
    }
}

/// Tokens of one character each, one per character of a text, lay out that text
proof fn lemma_tokens_text_chars(ts: Seq<TokenView>, s: Seq<char>)
    requires
        ts.len() == s.len(),
        forall|i: int| 0 <= i < s.len() ==> #[trigger] ts[i].1 == seq![s[i]],
    ensures
        tokens_text(ts) == s,
    decreases s.len(),
{
    if s.len() > 0 {
        lemma_tokens_text_chars(ts.drop_last(), s.drop_last());
        assert(ts[s.len() - 1].1 == seq![s[s.len() - 1]]);
        assert(s.drop_last() + seq![s.last()] =~= s);
    }
}

/// Each multi-alias lays out the text it is written as
proof fn lemma_multi_alias_text(name: Seq<char>)
    ensures
        spec_get_multi_alias(name) matches Some(ts) ==> tokens_text(ts) == name,
{
    let table = spec_multi_aliases();
    lemma_first_match_sound(table, alias_is(name));
    assert forall|i: int| 0 <= i < table.len() implies tokens_text(#[trigger] table[i].1)
        == table[i].0 by {
        reveal_strlit("kork");
        reveal_strlit("rkok");
        reveal_strlit("awm");
        reveal_strlit("dor");
        reveal_strlit("pbbn");
        reveal_strlit("ppbn");
        reveal_strlit("pibn");
        reveal_strlit("kbn");
        reveal_strlit("k");
        reveal_strlit("o");
        reveal_strlit("r");
        reveal_strlit("a");
        reveal_strlit("w");
        reveal_strlit("m");
        reveal_strlit("d");
        reveal_strlit("p");
        reveal_strlit("b");
        reveal_strlit("n");
        reveal_strlit("i");
        reveal_with_fuel(tokens_text, 5);
        let e = table[i];
        assert(tokens_text(e.1) =~= e.0);
    }
    if let Some(ts) = spec_get_multi_alias(name) {
        let j = choose|j: int| 0 <= j < table.len() && table[j] == first_match(table, alias_is(name)).unwrap();
        assert(tokens_text(table[j].1) == table[j].0);
    }
}

/// The tokens that a chunk reads as lay out the chunk
proof fn lemma_chunk_text(s: Seq<char>)
    ensures
        chunk_tokens(s) matches Some(ts) ==> tokens_text(ts) == s,
{
    if chunk_tokens(s) is Some {
        if super::format_name::spec_from_format_name(s) is Some {
            let ts = chunk_tokens(s).unwrap();
            assert(ts.len() == 1);
            assert(ts.drop_last() =~= seq![]);
            assert(tokens_text(ts.drop_last()) == Seq::<char>::empty());
            assert(Seq::<char>::empty() + s =~= s);
            assert(tokens_text(ts) == s);
        } else if super::multi::is_planet(s) {
            lemma_tokens_text_chars(planet_tokens(s), s);
            assert(tokens_text(chunk_tokens(s).unwrap()) == s);
        } else if super::multi::is_dip_fix(s) {
            lemma_tokens_text_chars(dip_fix_tokens(s), s);
            assert(tokens_text(chunk_tokens(s).unwrap()) == s);
        } else {
            lemma_multi_alias_text(s);
        }
    }
}

/// Reading a name from the front from a position on lays out the rest of the name
proof fn lemma_forward_text(s: Seq<char>, start: int)
    ensures
        parse_forward(s, start) matches Some(ts) ==> tokens_text(ts) == s.subrange(
            if start <= s.len() { start } else { s.len() as int },
            s.len() as int,
        ),
    decreases s.len() + 1 - start, s.len() + 2 - start,
{
    if 0 <= start <= s.len() {
        lemma_forward_from_text(s, start, s.len() + 1 - start);
    } else if start == s.len() + 1 {
        assert(s.subrange(s.len() as int, s.len() as int) =~= seq![]);
    }
}

/// Reading a name from the front from a position on, with chunks of at most some length at
/// this step, lays out the rest of the name
proof fn lemma_forward_from_text(s: Seq<char>, start: int, len: int)
    requires
        0 <= start <= s.len(),
    ensures
        parse_forward_from(s, start, len) matches Some(ts) ==> tokens_text(ts) == s.subrange(
            start,
            s.len() as int,
        ),
    decreases s.len() + 1 - start, len,
{
    if len >= 2 && start + len <= s.len() + 1 {
        let end = if start + len <= s.len() { start + len } else { s.len() as int };
        let sub = s.subrange(start, end);
        if super::format_name::byte_len(sub) < 2 {
            lemma_forward_from_text(s, start, len - 1);
        } else {
            match chunk_tokens(sub) {
                Some(t) => {
                    lemma_forward_text(s, start + len);
                    if let Some(rest) = parse_forward(s, start + len) {
                        lemma_chunk_text(sub);
                        lemma_tokens_text_add(t, rest);
                        assert(sub + s.subrange(
                            if start + len <= s.len() { start + len } else { s.len() as int },
                            s.len() as int,
                        ) =~= s.subrange(start, s.len() as int));
                    }
                },
                None => {
                    lemma_forward_from_text(s, start, len - 1);
                },
            }
        }
    }
}

/// Reading the first characters of a name from the back lays out those characters
proof fn lemma_backward_text(s: Seq<char>, end: int)
    requires
        0 <= end <= s.len(),
    ensures
        parse_backward(s, end) matches Some(ts) ==> tokens_text(ts) == s.subrange(0, end),
    decreases end, end + 1,
{
    if end <= 0 {
        assert(s.subrange(0, end) =~= seq![]);
    } else {
        lemma_backward_from_text(s, end, end);
    }
}

/// Reading the first characters of a name from the back, with a last chunk of at most some
/// length, lays out those characters
proof fn lemma_backward_from_text(s: Seq<char>, end: int, len: int)
    requires
        0 <= end <= s.len(),
    ensures
        parse_backward_from(s, end, len) matches Some(ts) ==> tokens_text(ts) == s.subrange(
            0,
            end,
        ),
    decreases end, len,
{
    if 2 <= len <= end {
        let sub = s.subrange(end - len, end);
        match chunk_tokens(sub) {
            Some(t) => {
                lemma_backward_text(s, end - len);
                if let Some(rest) = parse_backward(s, end - len) {
                    lemma_chunk_text(sub);
                    lemma_tokens_text_add(rest, t);
                    assert(s.subrange(0, end - len) + sub =~= s.subrange(0, end));
                }
            },
            None => {
                lemma_backward_from_text(s, end, len - 1);
            },
        }
    }
}

/// The primitives read from a concatenation of name prefixes are read from the whole name and
/// nothing else: their texts, laid end to end, are the name
pub proof fn lemma_multi_name_texts(name: Seq<char>)
    ensures
        spec_from_format_name_multi(name) matches Some(ts) ==> tokens_text(ts) == name,
{
    if name.len() >= 2 {
        lemma_forward_text(name, 0);
        lemma_backward_text(name, name.len() as int);
        assert(name.subrange(0, name.len() as int) =~= name);
    }
}

} // verus!
