//! Reading back what is written: a signature written as it stands in a doc comment reads as
//! the same signature
use vstd::prelude::*;

use crate::doc_sig::{
    all_sig_chars, arg_text, ends_with_bare_question, first_index, first_true, char_flags,
    is_sig_char, joined_args, nonempty, sig_args, spaced_args, spec_is_ident_char, spec_parse_sig,
    spec_sig_text, word_args, words_args,
};
use crate::scan::{is_ws, split_at_char, trim_end_ws, words};

verus! {

/// A character that can stand in a name or a type and in nothing else of a signature
pub open spec fn is_plain_char(c: char) -> bool {
    spec_is_ident_char(c) && !is_ws(c) && c != '?' && c != '$' && c != ':'
}

/// A name or a type that can be written in a signature and read back: some plain characters
pub open spec fn is_plain_word(w: Seq<char>) -> bool {
    w.len() > 0 && forall|i: int| 0 <= i < w.len() ==> is_plain_char(#[trigger] w[i])
}

/// An argument that can be written and read back: a plain name, and a plain type if any
pub open spec fn is_plain_arg(a: (Seq<char>, Option<Seq<char>>)) -> bool {
    is_plain_word(a.0) && (a.1 matches Some(t) ==> is_plain_word(t))
}

/// A side of a signature that can be written and read back: no list, or a list of plain
/// arguments that is not empty
pub open spec fn is_plain_side(side: Option<Seq<(Seq<char>, Option<Seq<char>>)>>) -> bool {
    side matches Some(args) ==> args.len() > 0 && forall|i: int|
        0 <= i < args.len() ==> is_plain_arg(#[trigger] args[i])
}

/// A text without a separator splits into itself
proof fn lemma_split_whole(x: Seq<char>, sep: char)
    requires
        forall|i: int| 0 <= i < x.len() ==> x[i] != sep,
    ensures
        split_at_char(x, sep) == seq![x],
    decreases x.len(),
{
    if x.len() > 0 {
        lemma_split_whole(x.drop_last(), sep);
        assert(x.drop_last().push(x.last()) =~= x);
        assert(seq![x.drop_last()].update(0, x.drop_last().push(x.last())) =~= seq![x]);
    } else {
        assert(x =~= Seq::<char>::empty());
    }
}

/// A text with one separator splits into the parts before and after it
proof fn lemma_split_two(x: Seq<char>, y: Seq<char>, sep: char)
    requires
        forall|i: int| 0 <= i < x.len() ==> x[i] != sep,
        forall|i: int| 0 <= i < y.len() ==> y[i] != sep,
    ensures
        split_at_char(x + seq![sep] + y, sep) == seq![x, y],
    decreases y.len(),
{
    if y.len() == 0 {
        lemma_split_whole(x, sep);
        assert((x + seq![sep] + y).drop_last() =~= x);
        assert(y =~= Seq::<char>::empty());
    } else {
        lemma_split_two(x, y.drop_last(), sep);
        assert((x + seq![sep] + y).drop_last() =~= x + seq![sep] + y.drop_last());
        assert(y.drop_last().push(y.last()) =~= y);
        assert(seq![x, y.drop_last()].update(1, y.drop_last().push(y.last())) =~= seq![x, y]);
    }
}

/// The text of a plain argument is read back as that argument
proof fn lemma_word_args_of_arg(a: (Seq<char>, Option<Seq<char>>))
    requires
        is_plain_arg(a),
    ensures
        word_args(arg_text(a)) == seq![a],
{
    reveal_strlit("");
    reveal_strlit(":");
    match a.1 {
        Some(t) => {
            assert(arg_text(a) =~= a.0 + seq![':'] + t);
            lemma_split_two(a.0, t, ':');
            let p = split_at_char(arg_text(a), ':');
            assert(p == seq![a.0, t]);
            assert(word_args(arg_text(a)) =~= seq![(a.0, Some(t))]);
        },
        None => {
            assert(arg_text(a) =~= a.0);
            lemma_split_whole(a.0, ':');
        },
    }
}

/// The text of a plain argument is not empty and holds no whitespace
proof fn lemma_arg_text_plain(a: (Seq<char>, Option<Seq<char>>))
    requires
        is_plain_arg(a),
    ensures
        arg_text(a).len() > 0,
        forall|i: int|
            0 <= i < arg_text(a).len() ==> #[trigger] arg_text(a)[i] == ':' || is_plain_char(
                arg_text(a)[i],
            ),
{
    reveal_strlit("");
    reveal_strlit(":");
    let t = arg_text(a);
    match a.1 {
        Some(ty) => {
            assert(t =~= a.0 + seq![':'] + ty);
            assert forall|i: int| 0 <= i < t.len() implies #[trigger] t[i] == ':' || is_plain_char(
                t[i],
            ) by {
                if i < a.0.len() {
                    assert(t[i] == a.0[i]);
                } else if i > a.0.len() {
                    assert(t[i] == ty[i - a.0.len() - 1]);
                }
            }
        },
        None => {
            assert(t =~= a.0);
        },
    }
}

/// A whitespace character at the end does not change the words
proof fn lemma_words_trailing_ws(s: Seq<char>, c: char)
    requires
        is_ws(c),
    ensures
        words(s.push(c)) == words(s),
{
    assert(s.push(c).drop_last() =~= s);
}

/// A word after a space is one more word
proof fn lemma_words_space_word(s: Seq<char>, w: Seq<char>)
    requires
        w.len() > 0,
        forall|i: int| 0 <= i < w.len() ==> !is_ws(#[trigger] w[i]),
    ensures
        words(s + seq![' '] + w) == words(s).push(w),
    decreases w.len(),
{
    let t = s + seq![' '] + w;
    if w.len() == 1 {
        assert(t.drop_last() =~= s.push(' '));
        lemma_words_trailing_ws(s, ' ');
        assert(t.last() == w[0]);
        assert(t[t.len() - 2] == ' ');
        assert(seq![w[0]] =~= w);
    } else {
        let v = w.drop_last();
        assert(t.drop_last() =~= s + seq![' '] + v);
        lemma_words_space_word(s, v);
        assert(t.last() == w.last());
        assert(t[t.len() - 2] == w[w.len() - 2]);
        assert(!is_ws(w[w.len() - 2]));
        assert(v.push(w.last()) =~= w);
        assert(words(s).push(v).update(words(s).len() as int, v.push(w.last())) =~= words(
            s,
        ).push(w));
    }
}

/// The texts of some arguments
pub open spec fn arg_texts(args: Seq<(Seq<char>, Option<Seq<char>>)>) -> Seq<Seq<char>> {
    Seq::new(args.len(), |i: int| arg_text(args[i]))
}

/// The words of plain arguments, each after a space, are their texts
proof fn lemma_words_of_spaced(args: Seq<(Seq<char>, Option<Seq<char>>)>)
    requires
        forall|i: int| 0 <= i < args.len() ==> is_plain_arg(#[trigger] args[i]),
    ensures
        words(spaced_args(args)) == arg_texts(args),
    decreases args.len(),
{
    reveal_strlit("");
    reveal_strlit(" ");
    if args.len() == 0 {
        assert(arg_texts(args) =~= Seq::<Seq<char>>::empty());
    } else {
        let rest = args.drop_last();
        assert forall|i: int| 0 <= i < rest.len() implies is_plain_arg(#[trigger] rest[i]) by {
            assert(rest[i] == args[i]);
        }
        lemma_words_of_spaced(rest);
        let w = arg_text(args.last());
        assert(is_plain_arg(args[args.len() - 1]));
        lemma_arg_text_plain(args.last());
        assert forall|i: int| 0 <= i < w.len() implies !is_ws(#[trigger] w[i]) by {
            assert(w[i] == ':' || is_plain_char(w[i]));
        }
        assert(spaced_args(args) =~= spaced_args(rest) + seq![' '] + w);
        lemma_words_space_word(spaced_args(rest), w);
        assert(arg_texts(args) =~= arg_texts(rest).push(w));
    }
}

/// The texts of plain arguments read back as the arguments
proof fn lemma_words_args_of_texts(args: Seq<(Seq<char>, Option<Seq<char>>)>)
    requires
        forall|i: int| 0 <= i < args.len() ==> is_plain_arg(#[trigger] args[i]),
    ensures
        words_args(arg_texts(args)) == args,
    decreases args.len(),
{
    if args.len() == 0 {
        assert(args =~= Seq::<(Seq<char>, Option<Seq<char>>)>::empty());
    } else {
        let rest = args.drop_last();
        assert forall|i: int| 0 <= i < rest.len() implies is_plain_arg(#[trigger] rest[i]) by {
            assert(rest[i] == args[i]);
        }
        lemma_words_args_of_texts(rest);
        assert(arg_texts(args).drop_last() =~= arg_texts(rest));
        assert(is_plain_arg(args[args.len() - 1]));
        lemma_word_args_of_arg(args.last());
        assert(rest + seq![args.last()] =~= args);
    }
}

/// The characters of plain arguments, each after a space, are spaces, colons and plain
/// characters
proof fn lemma_spaced_chars(args: Seq<(Seq<char>, Option<Seq<char>>)>)
    requires
        forall|i: int| 0 <= i < args.len() ==> is_plain_arg(#[trigger] args[i]),
    ensures
        forall|i: int|
            0 <= i < spaced_args(args).len() ==> #[trigger] spaced_args(args)[i] == ' '
                || spaced_args(args)[i] == ':' || is_plain_char(spaced_args(args)[i]),
    decreases args.len(),
{
    reveal_strlit("");
    reveal_strlit(" ");
    if args.len() > 0 {
        let rest = args.drop_last();
        assert forall|i: int| 0 <= i < rest.len() implies is_plain_arg(#[trigger] rest[i]) by {
            assert(rest[i] == args[i]);
        }
        lemma_spaced_chars(rest);
        assert(is_plain_arg(args[args.len() - 1]));
        lemma_arg_text_plain(args.last());
        let p = spaced_args(rest);
        let w = arg_text(args.last());
        let t = spaced_args(args);
        assert(t =~= p + seq![' '] + w);
        assert forall|i: int| 0 <= i < t.len() implies #[trigger] t[i] == ' ' || t[i] == ':'
            || is_plain_char(t[i]) by {
            if i < p.len() {
                assert(t[i] == p[i]);
            } else if i > p.len() {
                assert(t[i] == w[i - p.len() - 1]);
            }
        }
    }
}

/// Plain arguments, each after a space, start with a space and end with a plain character
proof fn lemma_spaced_ends(args: Seq<(Seq<char>, Option<Seq<char>>)>)
    requires
        args.len() > 0,
        forall|i: int| 0 <= i < args.len() ==> is_plain_arg(#[trigger] args[i]),
    ensures
        spaced_args(args).len() > 0,
        spaced_args(args)[0] == ' ',
        is_plain_char(spaced_args(args).last()),
        seq![' '] + joined_args(args) == spaced_args(args),
    decreases args.len(),
{
    reveal_strlit("");
    reveal_strlit(" ");
    let rest = args.drop_last();
    assert forall|i: int| 0 <= i < rest.len() implies is_plain_arg(#[trigger] rest[i]) by {
        assert(rest[i] == args[i]);
    }
    assert(is_plain_arg(args[args.len() - 1]));
    lemma_arg_text_plain(args.last());
    let p = spaced_args(rest);
    let w = arg_text(args.last());
    let t = spaced_args(args);
    assert(t =~= p + seq![' '] + w);
    if rest.len() > 0 {
        lemma_spaced_ends(rest);
        assert(t[0] == p[0]);
    } else {
        assert(p.len() == 0);
    }
    assert(t.last() == w.last());
    assert(w.last() == ':' || is_plain_char(w.last()));
    lemma_last_not_colon(args.last());
    assert(seq![' '] + t.drop_first() =~= t);
}

/// The text of a plain argument ends with a plain character
proof fn lemma_last_not_colon(a: (Seq<char>, Option<Seq<char>>))
    requires
        is_plain_arg(a),
    ensures
        is_plain_char(arg_text(a).last()),
{
    reveal_strlit("");
    reveal_strlit(":");
    match a.1 {
        Some(t) => {
            assert(arg_text(a) =~= a.0 + seq![':'] + t);
            assert(arg_text(a).last() == t[t.len() - 1]);
        },
        None => {
            assert(arg_text(a) =~= a.0);
            assert(arg_text(a).last() == a.0[a.0.len() - 1]);
        },
    }
}

/// The outputs part of a written signature: the outputs, each after a space, and a space
pub open spec fn outputs_part(outputs: Option<Seq<(Seq<char>, Option<Seq<char>>)>>) -> Seq<char> {
    match outputs {
        Some(o) => spaced_args(o) + " "@,
        None => ""@,
    }
}

/// The arguments part of a written signature: a space and the arguments, separated by spaces
pub open spec fn args_part(args: Option<Seq<(Seq<char>, Option<Seq<char>>)>>) -> Seq<char> {
    match args {
        Some(a) => " "@ + joined_args(a),
        None => ""@,
    }
}

/// A plain side of a signature reads back as itself from the text that stands for it, whether
/// or not a trailing space follows
proof fn lemma_side_reads_back(side: Option<Seq<(Seq<char>, Option<Seq<char>>)>>, trailing: bool)
    requires
        is_plain_side(side),
    ensures
        nonempty(sig_args(
            match side {
                Some(a) => if trailing {
                    spaced_args(a) + seq![' ']
                } else {
                    spaced_args(a)
                },
                None => Seq::<char>::empty(),
            },
        )) == side,
{
    match side {
        Some(a) => {
            lemma_words_of_spaced(a);
            lemma_words_args_of_texts(a);
            if trailing {
                lemma_words_trailing_ws(spaced_args(a), ' ');
                assert(spaced_args(a) + seq![' '] =~= spaced_args(a).push(' '));
                assert(sig_args(spaced_args(a) + seq![' ']) == a);
            } else {
                assert(sig_args(spaced_args(a)) == a);
            }
        },
        None => {
            assert(words(Seq::<char>::empty()) =~= Seq::<Seq<char>>::empty());
        },
    }
}

/// The parts of a plain side hold only spaces, colons and plain characters
proof fn lemma_side_chars(side: Option<Seq<(Seq<char>, Option<Seq<char>>)>>)
    requires
        is_plain_side(side),
    ensures
        forall|i: int|
            0 <= i < outputs_part(side).len() ==> #[trigger] outputs_part(side)[i] == ' '
                || outputs_part(side)[i] == ':' || is_plain_char(outputs_part(side)[i]),
        forall|i: int|
            0 <= i < args_part(side).len() ==> #[trigger] args_part(side)[i] == ' '
                || args_part(side)[i] == ':' || is_plain_char(args_part(side)[i]),
{
    reveal_strlit("");
    reveal_strlit(" ");
    match side {
        Some(a) => {
            lemma_spaced_chars(a);
            lemma_spaced_ends(a);
            let s = spaced_args(a);
            assert(outputs_part(side) =~= s + seq![' ']);
            assert(args_part(side) =~= s);
            assert forall|i: int| 0 <= i < outputs_part(side).len() implies #[trigger] outputs_part(
                side,
            )[i] == ' ' || outputs_part(side)[i] == ':' || is_plain_char(outputs_part(side)[i]) by {
                if i < s.len() {
                    assert(outputs_part(side)[i] == s[i]);
                }
            }
        },
        None => {},
    }
}

/// The text of a written signature: the outputs part, the marker and the arguments part
proof fn lemma_sig_text_parts(
    v: (bool, Option<Seq<(Seq<char>, Option<Seq<char>>)>>, Option<Seq<(Seq<char>, Option<Seq<char>>)>>),
)
    ensures
        spec_sig_text(v) == outputs_part(v.2) + seq![if v.0 { '$' } else { '?' }] + args_part(v.1),
{
    reveal_strlit("?");
    reveal_strlit("$");
    assert(spec_sig_text(v) =~= outputs_part(v.2) + seq![if v.0 { '$' } else { '?' }] + args_part(
        v.1,
    ));
}

/// Every character of a text made of plain parts and a marker may appear in a signature line,
/// and none of the parts holds a marker
proof fn lemma_parts_chars(a: Seq<char>, marker: char, b: Seq<char>)
    requires
        marker == '?' || marker == '$',
        forall|i: int| 0 <= i < a.len() ==> #[trigger] a[i] == ' ' || a[i] == ':' || is_plain_char(a[i]),
        forall|i: int| 0 <= i < b.len() ==> #[trigger] b[i] == ' ' || b[i] == ':' || is_plain_char(b[i]),
    ensures
        all_sig_chars(a + seq![marker] + b),
        forall|k: int| 0 <= k < a.len() ==> (a + seq![marker] + b)[k] != '?' && (a + seq![marker]
            + b)[k] != '$',
        forall|k: int|
            a.len() < k < (a + seq![marker] + b).len() ==> (a + seq![marker] + b)[k] != '?' && (a
                + seq![marker] + b)[k] != '$',
{
    reveal_strlit(" ");
    let text = a + seq![marker] + b;
    assert forall|i: int| 0 <= i < text.len() implies is_sig_char(#[trigger] text[i]) by {
        if i < a.len() {
            assert(text[i] == a[i]);
        } else if i > a.len() {
            assert(text[i] == b[i - a.len() - 1]);
        }
    }
    assert forall|k: int| a.len() < k < text.len() implies text[k] != '?' && text[k] != '$' by {
        assert(text[k] == b[k - a.len() - 1]);
    }
    assert forall|k: int| 0 <= k < a.len() implies text[k] != '?' && text[k] != '$' by {
        assert(text[k] == a[k]);
    }
}

/// A written signature with a side or a label does not end with a bare question mark
proof fn lemma_no_bare_question(
    v: (bool, Option<Seq<(Seq<char>, Option<Seq<char>>)>>, Option<Seq<(Seq<char>, Option<Seq<char>>)>>),
)
    requires
        is_plain_side(v.1),
        is_plain_side(v.2),
        v.0 || v.1 is Some || v.2 is Some,
    ensures
        !ends_with_bare_question(spec_sig_text(v)),
{
    reveal_strlit("");
    reveal_strlit(" ");
    lemma_sig_text_parts(v);
    let a = outputs_part(v.2);
    let b = args_part(v.1);
    let marker = if v.0 {
        '$'
    } else {
        '?'
    };
    let text = spec_sig_text(v);
    if v.1 is Some {
        lemma_spaced_ends(v.1.unwrap());
        assert(b =~= spaced_args(v.1.unwrap()));
        assert(text.last() == b.last());
        assert(trim_end_ws(text) == text);
    } else {
        assert(b =~= Seq::<char>::empty());
        assert(text.last() == marker);
        assert(trim_end_ws(text) == text);
        if !v.0 {
            assert(a =~= spaced_args(v.2.unwrap()) + seq![' ']);
            assert(text[text.len() - 2] == ' ');
        }
    }
}

/// Writing a signature whose names and types are plain, that has a side or labels, and reading
/// the text back gives the same signature
pub proof fn lemma_sig_text_reads_back(
    v: (bool, Option<Seq<(Seq<char>, Option<Seq<char>>)>>, Option<Seq<(Seq<char>, Option<Seq<char>>)>>),
)
    requires
        is_plain_side(v.1),
        is_plain_side(v.2),
        v.0 || v.1 is Some || v.2 is Some,
    ensures
        spec_parse_sig(spec_sig_text(v)) == Some(v),
{
    reveal_strlit("");
    reveal_strlit(" ");
    let a = outputs_part(v.2);
    let b = args_part(v.1);
    let marker = if v.0 {
        '$'
    } else {
        '?'
    };
    let text = spec_sig_text(v);
    lemma_sig_text_parts(v);
    lemma_side_chars(v.2);
    lemma_side_chars(v.1);
    lemma_parts_chars(a, marker, b);
    lemma_no_bare_question(v);
    let m = a.len() as int;
    assert(text[m] == marker);
    assert(text.take(m) =~= a);
    assert(text.skip(m + 1) =~= b);
    if v.0 {
        let flags = char_flags(text, '?');
        assert forall|k: int| 0 <= k < flags.len() implies !flags[k] by {}
        lemma_first_true_all_clear(flags);
        let dflags = char_flags(text, '$');
        assert forall|k: int| 0 <= k < m implies !dflags[k] by {}
        lemma_first_true_at(dflags, m);
    } else {
        let flags = char_flags(text, '?');
        assert forall|k: int| 0 <= k < m implies !flags[k] by {}
        lemma_first_true_at(flags, m);
    }
    match v.2 {
        Some(o) => {
            assert(a =~= spaced_args(o) + seq![' ']);
        },
        None => {
            assert(a =~= Seq::<char>::empty());
        },
    }
    lemma_side_reads_back(v.2, true);
    match v.1 {
        Some(x) => {
            lemma_spaced_ends(x);
            assert(b =~= spaced_args(x));
        },
        None => {
            assert(b =~= Seq::<char>::empty());
        },
    }
    lemma_side_reads_back(v.1, false);
}

/// Where no flag is set, the first set flag is past the end
proof fn lemma_first_true_all_clear(flags: Seq<bool>)
    requires
        forall|k: int| 0 <= k < flags.len() ==> !flags[k],
    ensures
        first_true(flags) == flags.len(),
    decreases flags.len(),
{
    if flags.len() > 0 {
        assert forall|k: int| 0 <= k < flags.drop_first().len() implies !flags.drop_first()[k] by {
            assert(flags.drop_first()[k] == flags[k + 1]);
        }
        lemma_first_true_all_clear(flags.drop_first());
    }
}

/// The first set flag is the first one that is set
proof fn lemma_first_true_at(flags: Seq<bool>, m: int)
    requires
        0 <= m < flags.len(),
        flags[m],
        forall|k: int| 0 <= k < m ==> !flags[k],
    ensures
        first_true(flags) == m,
    decreases m,
{
    if m > 0 {
        assert forall|k: int| 0 <= k < m - 1 implies !flags.drop_first()[k] by {
            assert(flags.drop_first()[k] == flags[k + 1]);
        }
        lemma_first_true_at(flags.drop_first(), m - 1);
    }
}


/// A doc comment signature agrees with a function signature exactly when each side that it
/// lists has as many entries as the function has arguments or outputs: listing a different
/// number of outputs, or of arguments, makes it disagree, and a side it does not list never does
pub proof fn lemma_matches_sig_counts(d: crate::assembly::DocCommentSig, sig: crate::Signature)
    ensures
        d.outputs matches Some(o) && o@.len() != sig.outputs ==> !d.spec_matches_sig(sig),
        d.args matches Some(a) && a@.len() != sig.args ==> !d.spec_matches_sig(sig),
        d.args is None && d.outputs is None ==> d.spec_matches_sig(sig),
        (d.args matches Some(a) ==> a@.len() == sig.args) && (d.outputs matches Some(o) ==> o@.len()
            == sig.outputs) ==> d.spec_matches_sig(sig),
{
}

} // verus!
