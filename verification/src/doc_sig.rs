//! Signatures in documentation comments: how they are read, written and checked
use vstd::prelude::*;

use ecow::EcoString;

use crate::assembly::{DocComment, DocCommentArg, DocCommentSig};
use crate::eco::{eco_as_str, eco_chars, eco_from_str};
use crate::scan::{
    chars_of, is_whitespace, is_ws, lines, lines_of, split_at_char, split_chars, string_of,
    trim_chars, trim_end_ws, trim_ws, views, words, words_of,
};
use crate::text::decimal;
use crate::text::decimal_string;
use crate::Signature;

verus! {

/// Whether a character has the Unicode `Alphabetic` property (`char::is_alphabetic`)
pub uninterp spec fn char_is_alphabetic(c: char) -> bool;

/// Check whether a character has the Unicode `Alphabetic` property (`char::is_alphabetic`).
/// Of ASCII characters exactly the letters have it; of other characters nothing is stated.
#[verifier::external_body]
pub(crate) fn is_alphabetic(c: char) -> (r: bool)
    ensures
        r == char_is_alphabetic(c),
        (c as u32) < 128 ==> (r <==> (('a' <= c && c <= 'z') || ('A' <= c && c <= 'Z'))),
{
    c.is_alphabetic()
}

/// Whether a character is a subscript digit
pub open spec fn is_subscript_digit(c: char) -> bool {
    0x2080 <= (c as u32) && (c as u32) <= 0x2089
}

/// Whether a letter is one that stands for a glyph or a constant, and so cannot be part of a name
pub open spec fn is_reserved_letter(c: char) -> bool {
    c == 'ⁿ' || c == 'ₙ' || c == 'π' || c == 'τ' || c == 'η' || c == 'ℂ' || c == 'λ'
}

/// Whether a character can be part of an identifier: a letter that is not reserved, or a
/// subscript digit
pub open spec fn spec_is_ident_char(c: char) -> bool {
    (char_is_alphabetic(c) && !is_reserved_letter(c)) || is_subscript_digit(c)
}

/// Check whether a character can be part of an identifier
pub fn is_ident_char(c: char) -> (r: bool)
    ensures
        r == spec_is_ident_char(c),
{
    let u = c as u32;
    (is_alphabetic(c) && !(c == 'ⁿ' || c == 'ₙ' || c == 'π' || c == 'τ' || c == 'η' || c == 'ℂ'
        || c == 'λ')) || (0x2080 <= u && u <= 0x2089)
}

/// Whether a character may appear in a signature line: whitespace, `?`, `$`, `:` or a
/// character of an identifier
pub open spec fn is_sig_char(c: char) -> bool {
    is_ws(c) || c == '?' || c == '$' || c == ':' || spec_is_ident_char(c)
}

/// Whether every character of a text may appear in a signature line
pub open spec fn all_sig_chars(s: Seq<char>) -> bool {
    forall|i: int| 0 <= i < s.len() ==> is_sig_char(#[trigger] s[i])
}

/// The position of the first `true` flag, or the number of flags where there is none
pub open spec fn first_true(flags: Seq<bool>) -> int
    decreases flags.len(),
{
    if flags.len() == 0 || flags[0] {
        0
    } else {
        1 + first_true(flags.drop_first())
    }
}

/// The first position whose flag is set, when every earlier flag is clear
proof fn lemma_first_true(flags: Seq<bool>, i: int)
    requires
        0 <= i <= flags.len(),
        forall|k: int| 0 <= k < i ==> !flags[k],
        i == flags.len() || flags[i],
    ensures
        first_true(flags) == i,
    decreases i,
{
    if i > 0 {
        lemma_first_true(flags.drop_first(), i - 1);
    }
}

/// Where a text holds a given character
pub open spec fn char_flags(s: Seq<char>, c: char) -> Seq<bool> {
    Seq::new(s.len(), |i: int| s[i] == c)
}

/// The position of the first occurrence of a character, or the length where there is none
pub open spec fn first_index(s: Seq<char>, c: char) -> int {
    first_true(char_flags(s, c))
}

/// Find the first occurrence of a character
fn find_char(v: &Vec<char>, c: char) -> (i: usize)
    ensures
        i == first_index(v@, c),
        i <= v@.len(),
{
    let mut i: usize = 0;
    while i < v.len() && v[i] != c
        invariant
            i <= v@.len(),
            forall|k: int| 0 <= k < i ==> v@[k] != c,
        decreases v@.len() - i,
    {
        i += 1;
    }
    proof {
        let flags = char_flags(v@, c);
        assert(flags.len() == v@.len());
        assert forall|k: int| 0 <= k < i implies !flags[k] by {
            assert(v@[k] != c);
        }
        assert(i == flags.len() || flags[i as int]);
        lemma_first_true(flags, i as int);
    }
    i
}

/// The text of an argument: its name and, where it has one, its type
pub open spec fn ty_of(piece: Seq<char>) -> Option<Seq<char>> {
    if piece.len() == 0 {
        None
    } else {
        Some(piece)
    }
}

/// The arguments that one word of a signature names: a word without a colon is a name without
/// a type; in a word with colons the text before the first colon names an argument whose type
/// follows that colon, and each further colon starts an argument without a name
pub open spec fn word_args(w: Seq<char>) -> Seq<(Seq<char>, Option<Seq<char>>)> {
    let p = split_at_char(w, ':');
    if p.len() <= 1 {
        seq![(w, None)]
    } else {
        seq![(p[0], ty_of(p[1]))] + Seq::new(
            (p.len() - 2) as nat,
            |j: int| (Seq::<char>::empty(), ty_of(p[j + 2])),
        )
    }
}

/// The arguments named by a sequence of words, in order
pub open spec fn words_args(ws: Seq<Seq<char>>) -> Seq<(Seq<char>, Option<Seq<char>>)>
    decreases ws.len(),
{
    if ws.len() == 0 {
        seq![]
    } else {
        words_args(ws.drop_last()) + word_args(ws.last())
    }
}

/// The arguments named by one side of a signature
pub open spec fn sig_args(text: Seq<char>) -> Seq<(Seq<char>, Option<Seq<char>>)> {
    words_args(words(text))
}

/// A list of arguments, or nothing where it is empty
pub open spec fn nonempty(
    args: Seq<(Seq<char>, Option<Seq<char>>)>,
) -> Option<Seq<(Seq<char>, Option<Seq<char>>)>> {
    if args.len() == 0 {
        None
    } else {
        Some(args)
    }
}

/// Whether a signature text ends, past its whitespace, with a `?` that has no space before it
pub open spec fn ends_with_bare_question(s: Seq<char>) -> bool {
    let t = trim_end_ws(s);
    t.len() > 0 && t.last() == '?' && !(t.len() >= 2 && t[t.len() - 2] == ' ')
}

/// The signature that a text reads as, if any: the outputs before the first `?` and the
/// arguments after it, or, where there is no `?`, around the first `$`, which makes a labelling
/// signature
pub open spec fn spec_parse_sig(s: Seq<char>) -> Option<
    (bool, Option<Seq<(Seq<char>, Option<Seq<char>>)>>, Option<Seq<(Seq<char>, Option<Seq<char>>)>>),
> {
    if ends_with_bare_question(s) || !all_sig_chars(s) {
        None
    } else {
        let q = first_index(s, '?');
        let d = first_index(s, '$');
        if q < s.len() {
            Some((false, nonempty(sig_args(s.skip(q + 1))), nonempty(sig_args(s.take(q)))))
        } else if d < s.len() {
            Some((true, nonempty(sig_args(s.skip(d + 1))), nonempty(sig_args(s.take(d)))))
        } else {
            None
        }
    }
}

/// The text of an optional `EcoString`
pub open spec fn opt_eco(t: Option<EcoString>) -> Option<Seq<char>> {
    match t {
        Some(t) => Some(eco_chars(t)),
        None => None,
    }
}

/// The text of an argument: its name and its type
pub open spec fn arg_view(a: DocCommentArg) -> (Seq<char>, Option<Seq<char>>) {
    (eco_chars(a.name), opt_eco(a.ty))
}

/// The texts of a list of arguments
pub open spec fn args_view(args: Seq<DocCommentArg>) -> Seq<(Seq<char>, Option<Seq<char>>)> {
    args.map_values(|a: DocCommentArg| arg_view(a))
}

/// The texts of an optional list of arguments
pub open spec fn opt_args_view(args: Option<Vec<DocCommentArg>>) -> Option<
    Seq<(Seq<char>, Option<Seq<char>>)>,
> {
    match args {
        Some(v) => Some(args_view(v@)),
        None => None,
    }
}

impl View for DocCommentSig {
    type V = (
        bool,
        Option<Seq<(Seq<char>, Option<Seq<char>>)>>,
        Option<Seq<(Seq<char>, Option<Seq<char>>)>>,
    );

    /// Whether it labels, then the arguments and the outputs by their texts
    open spec fn view(&self) -> Self::V {
        (self.label, opt_args_view(self.args), opt_args_view(self.outputs))
    }
}

/// An `EcoString` holding some characters
fn eco_of(v: &Vec<char>) -> (e: EcoString)
    ensures
        eco_chars(e) == v@,
{
    let s = string_of(v);
    eco_from_str(s.as_str())
}

/// The type that a piece after a colon gives
fn ty_of_exec(piece: &Vec<char>) -> (t: Option<EcoString>)
    ensures
        opt_eco(t) == ty_of(piece@),
{
    if piece.len() == 0 {
        None
    } else {
        Some(eco_of(piece))
    }
}

/// Append the arguments that one word names
fn push_word_args(w: &Vec<char>, out: &mut Vec<DocCommentArg>)
    ensures
        args_view(final(out)@) == args_view(old(out)@) + word_args(w@),
{
    let p = split_chars(w, ':');
    let ghost pv = views(p@);
    let ghost start = args_view(out@);
    if p.len() <= 1 {
        out.push(DocCommentArg { name: eco_of(w), ty: None });
        assert(args_view(out@) =~= start + word_args(w@));
    } else {
        assert(pv[0] == p@[0]@ && pv[1] == p@[1]@);
        out.push(DocCommentArg { name: eco_of(&p[0]), ty: ty_of_exec(&p[1]) });
        let mut j: usize = 2;
        assert(args_view(out@) =~= start + seq![(pv[0], ty_of(pv[1]))] + Seq::new(
            (j - 2) as nat,
            |k: int| (Seq::<char>::empty(), ty_of(pv[k + 2])),
        ));
        while j < p.len()
            invariant
                2 <= j <= p@.len(),
                pv == views(p@),
                args_view(out@) == start + seq![(pv[0], ty_of(pv[1]))] + Seq::new(
                    (j - 2) as nat,
                    |k: int| (Seq::<char>::empty(), ty_of(pv[k + 2])),
                ),
            decreases p@.len() - j,
        {
            let empty: Vec<char> = Vec::new();
            assert(pv[j as int] == p@[j as int]@);
            let ghost before = args_view(out@);
            out.push(DocCommentArg { name: eco_of(&empty), ty: ty_of_exec(&p[j]) });
            assert(empty@ =~= Seq::<char>::empty());
            assert(args_view(out@) =~= before.push((Seq::<char>::empty(), ty_of(pv[j as int]))));
            j += 1;
            assert(args_view(out@) =~= start + seq![(pv[0], ty_of(pv[1]))] + Seq::new(
                (j - 2) as nat,
                |k: int| (Seq::<char>::empty(), ty_of(pv[k + 2])),
            ));
        }
        assert(args_view(out@) =~= start + word_args(w@));
    }
}

/// The arguments named by one side of a signature
fn sig_args_exec(text: &Vec<char>) -> (r: Vec<DocCommentArg>)
    ensures
        args_view(r@) == sig_args(text@),
{
    let ws = words_of(text);
    let ghost wv = views(ws@);
    let mut out: Vec<DocCommentArg> = Vec::new();
    let mut k: usize = 0;
    assert(args_view(out@) =~= words_args(wv.take(0)));
    while k < ws.len()
        invariant
            k <= ws@.len(),
            wv == views(ws@),
            args_view(out@) == words_args(wv.take(k as int)),
        decreases ws@.len() - k,
    {
        assert(wv.take(k + 1).drop_last() =~= wv.take(k as int));
        assert(wv[k as int] == ws@[k as int]@);
        push_word_args(&ws[k], &mut out);
        k += 1;
    }
    assert(wv.take(ws@.len() as int) =~= wv);
    out
}

/// The characters of a vector from a position to another
fn sub_chars(v: &Vec<char>, from: usize, to: usize) -> (r: Vec<char>)
    requires
        from <= to <= v@.len(),
    ensures
        r@ == v@.subrange(from as int, to as int),
{
    let mut r: Vec<char> = Vec::new();
    let mut i: usize = from;
    while i < to
        invariant
            from <= i <= to <= v@.len(),
            r@ == v@.subrange(from as int, i as int),
        decreases to - i,
    {
        r.push(v[i]);
        i += 1;
        assert(r@ =~= v@.subrange(from as int, i as int));
    }
    r
}

/// A list of arguments, or nothing where it is empty
fn nonempty_exec(args: Vec<DocCommentArg>) -> (r: Option<Vec<DocCommentArg>>)
    ensures
        opt_args_view(r) == nonempty(args_view(args@)),
{
    if args.len() == 0 {
        None
    } else {
        Some(args)
    }
}

/// Check whether the text ends, past its whitespace, with a `?` without a space before it
fn ends_with_bare_question_exec(v: &Vec<char>) -> (r: bool)
    ensures
        r == ends_with_bare_question(v@),
{
    let mut end: usize = v.len();
    assert(v@.take(v@.len() as int) =~= v@);
    while end > 0 && is_whitespace(v[end - 1])
        invariant
            end <= v@.len(),
            trim_end_ws(v@) == trim_end_ws(v@.take(end as int)),
        decreases end,
    {
        assert(v@.take(end as int).drop_last() =~= v@.take(end - 1));
        end -= 1;
    }
    assert(trim_end_ws(v@) == v@.take(end as int));
    end > 0 && v[end - 1] == '?' && !(end >= 2 && v[end - 2] == ' ')
}

/// Check whether every character may appear in a signature line
fn all_sig_chars_exec(v: &Vec<char>) -> (r: bool)
    ensures
        r == all_sig_chars(v@),
{
    let mut i: usize = 0;
    while i < v.len()
        invariant
            i <= v@.len(),
            forall|k: int| 0 <= k < i ==> is_sig_char(#[trigger] v@[k]),
        decreases v@.len() - i,
    {
        let c = v[i];
        if !(is_whitespace(c) || c == '?' || c == '$' || c == ':' || is_ident_char(c)) {
            assert(!is_sig_char(v@[i as int]));
            return false;
        }
        i += 1;
    }
    true
}

/// Read a signature from the characters of a signature line
pub fn parse_sig_chars(v: &Vec<char>) -> (r: Result<DocCommentSig, ()>)
    ensures
        match r {
            Ok(sig) => spec_parse_sig(v@) == Some(sig@),
            Err(_) => spec_parse_sig(v@) is None,
        },
{
    if ends_with_bare_question_exec(v) || !all_sig_chars_exec(v) {
        return Err(());
    }
    let q = find_char(v, '?');
    let d = find_char(v, '$');
    let (label, split) = if q < v.len() {
        (false, q)
    } else if d < v.len() {
        (true, d)
    } else {
        return Err(());
    };
    let outputs_text = sub_chars(v, 0, split);
    let args_text = sub_chars(v, split + 1, v.len());
    assert(outputs_text@ =~= v@.take(split as int));
    assert(args_text@ =~= v@.skip(split + 1));
    let args = sig_args_exec(&args_text);
    let outputs = sig_args_exec(&outputs_text);
    Ok(DocCommentSig { label, args: nonempty_exec(args), outputs: nonempty_exec(outputs) })
}

impl DocCommentSig {
    /// Read a signature from a signature line
    pub fn parse(s: &str) -> (r: Result<DocCommentSig, ()>)
        ensures
            match r {
                Ok(sig) => spec_parse_sig(s@) == Some(sig@),
                Err(_) => spec_parse_sig(s@) is None,
            },
    {
        let v = chars_of(s);
        parse_sig_chars(&v)
    }

    /// Whether the signature agrees with a function signature: each side that it lists has as
    /// many entries as the function has arguments or outputs
    pub open spec fn spec_matches_sig(&self, sig: Signature) -> bool {
        &&& (self.args matches Some(a) ==> a@.len() == sig.args)
        &&& (self.outputs matches Some(o) ==> o@.len() == sig.outputs)
    }

    /// Whether the doc comment signature matches a given function signature
    pub fn matches_sig(&self, sig: Signature) -> (r: bool)
        ensures
            r == self.spec_matches_sig(sig),
    {
        let args_ok = match &self.args {
            Some(args) => args.len() == sig.args,
            None => true,
        };
        let outputs_ok = match &self.outputs {
            Some(outputs) => outputs.len() == sig.outputs,
            None => true,
        };
        args_ok && outputs_ok
    }

    /// A description of what the signature gives: its whole signature, or the number of
    /// arguments or outputs that it lists
    pub open spec fn spec_sig_string(&self) -> Seq<char> {
        match self.args {
            Some(args) => match self.outputs {
                Some(outputs) => "signature "@ + Signature {
                    args: args@.len() as usize,
                    outputs: outputs@.len() as usize,
                }.spec_text(),
                None => decimal(args@.len()) + " arg"@ + plural(args@.len()),
            },
            None => match self.outputs {
                Some(outputs) => decimal(outputs@.len()) + " output"@ + plural(outputs@.len()),
                None => "signature"@,
            },
        }
    }

    /// Describe what the signature gives
    pub fn sig_string(&self) -> (s: String)
        ensures
            s@ == self.spec_sig_string(),
    {
        match &self.args {
            Some(args) => match &self.outputs {
                Some(outputs) => String::from_str("signature ").concat(
                    Signature::new(args.len(), outputs.len()).to_string().as_str(),
                ),
                None => decimal_string(args.len()).concat(" arg").concat(
                    if args.len() == 1 {
                        ""
                    } else {
                        "s"
                    },
                ),
            },
            None => match &self.outputs {
                Some(outputs) => decimal_string(outputs.len()).concat(" output").concat(
                    if outputs.len() == 1 {
                        ""
                    } else {
                        "s"
                    },
                ),
                None => String::from_str("signature"),
            },
        }
    }
}

/// The ending of a plural: nothing for one, `s` otherwise
pub open spec fn plural(n: nat) -> Seq<char> {
    if n == 1 {
        ""@
    } else {
        "s"@
    }
}


/// The text of an argument: its name, then a colon and its type where it has one
pub open spec fn arg_text(a: (Seq<char>, Option<Seq<char>>)) -> Seq<char> {
    a.0 + match a.1 {
        Some(t) => ":"@ + t,
        None => ""@,
    }
}

/// The texts of some arguments, each after a space
pub open spec fn spaced_args(args: Seq<(Seq<char>, Option<Seq<char>>)>) -> Seq<char>
    decreases args.len(),
{
    if args.len() == 0 {
        ""@
    } else {
        spaced_args(args.drop_last()) + " "@ + arg_text(args.last())
    }
}

/// The texts of some arguments, with a space between each two
pub open spec fn joined_args(args: Seq<(Seq<char>, Option<Seq<char>>)>) -> Seq<char> {
    if args.len() == 0 {
        ""@
    } else {
        spaced_args(args).drop_first()
    }
}

/// How a signature is written: the outputs, each after a space, and a space; `$` for a
/// labelling signature and `?` otherwise; then a space and the arguments, separated by spaces
pub open spec fn spec_sig_text(
    v: (bool, Option<Seq<(Seq<char>, Option<Seq<char>>)>>, Option<Seq<(Seq<char>, Option<Seq<char>>)>>),
) -> Seq<char> {
    (match v.2 {
        Some(outputs) => spaced_args(outputs) + " "@,
        None => ""@,
    }) + (if v.0 {
        "$"@
    } else {
        "?"@
    }) + (match v.1 {
        Some(args) => " "@ + joined_args(args),
        None => ""@,
    })
}

/// Append the texts of some arguments, each after a space
fn push_spaced_args(s: &mut String, args: &Vec<DocCommentArg>)
    ensures
        final(s)@ == old(s)@ + spaced_args(args_view(args@)),
{
    let ghost start = s@;
    let ghost av = args_view(args@);
    let mut i: usize = 0;
    proof {
        reveal_strlit("");
    }
    assert(av.take(0) =~= Seq::<(Seq<char>, Option<Seq<char>>)>::empty());
    assert(s@ =~= start + spaced_args(av.take(0)));
    while i < args.len()
        invariant
            i <= args@.len(),
            av == args_view(args@),
            s@ == start + spaced_args(av.take(i as int)),
        decreases args@.len() - i,
    {
        let arg = &args[i];
        s.append(" ");
        s.append(eco_as_str(&arg.name));
        match &arg.ty {
            Some(ty) => {
                s.append(":");
                s.append(eco_as_str(ty));
            },
            None => {},
        }
        assert(av.take(i + 1).drop_last() =~= av.take(i as int));
        assert(av[i as int] == arg_view(*arg));
        proof {
            reveal_strlit("");
        }
        assert(s@ =~= start + spaced_args(av.take(i + 1)));
        i += 1;
    }
    assert(av.take(args@.len() as int) =~= av);
}

/// The texts of some arguments, each after a space, start with a space where there are any
proof fn lemma_spaced_args_start(args: Seq<(Seq<char>, Option<Seq<char>>)>)
    requires
        args.len() > 0,
    ensures
        spaced_args(args).len() > 0,
        spaced_args(args)[0] == ' ',
    decreases args.len(),
{
    reveal_strlit(" ");
    reveal_strlit("");
    let prev = spaced_args(args.drop_last());
    let whole = prev + " "@ + arg_text(args.last());
    assert(spaced_args(args) == whole);
    if args.len() > 1 {
        lemma_spaced_args_start(args.drop_last());
        assert(whole[0] == prev[0]);
    } else {
        assert(prev.len() == 0);
        assert(whole[0] == " "@[0]);
    }
}

impl DocCommentSig {
    /// Write the signature as it stands in a doc comment
    pub fn to_string(&self) -> (s: String)
        ensures
            s@ == spec_sig_text(self@),
    {
        let mut s = String::new();
        match &self.outputs {
            Some(outputs) => {
                push_spaced_args(&mut s, outputs);
                s.append(" ");
            },
            None => {},
        }
        if self.label {
            s.append("$");
        } else {
            s.append("?");
        }
        match &self.args {
            Some(args) => {
                let ghost before = s@;
                let mut joined = String::new();
                push_spaced_args(&mut joined, args);
                let ghost av = args_view(args@);
                s.append(" ");
                if args.len() > 0 {
                    proof {
                        lemma_spaced_args_start(av);
                    }
                    let jv = chars_of(joined.as_str());
                    let rest = string_of(&sub_chars(&jv, 1, jv.len()));
                    assert(jv@.subrange(1, jv@.len() as int) =~= spaced_args(av).drop_first());
                    s.append(rest.as_str());
                } else {
                    assert(joined_args(av) == ""@);
                    s.append("");
                }
            },
            None => {},
        }
        proof {
            reveal_strlit("");
        }
        assert(s@ =~= spec_sig_text(self@));
        s
    }
}

impl core::str::FromStr for DocCommentSig {
    type Err = ();

    fn from_str(s: &str) -> (r: Result<Self, Self::Err>)
        ensures
            match r {
                Ok(sig) => spec_parse_sig(s@) == Some(sig@),
                Err(_) => spec_parse_sig(s@) is None,
            },
    {
        DocCommentSig::parse(s)
    }
}

/// The number of `$` and `?` characters in a line
pub open spec fn marker_count(l: Seq<char>) -> nat
    decreases l.len(),
{
    if l.len() == 0 {
        0
    } else {
        marker_count(l.drop_last()) + if l.last() == '$' || l.last() == '?' {
            1nat
        } else {
            0nat
        }
    }
}

/// Whether a line of a comment is its signature line: it holds exactly one `$` or `?`, does not
/// end with `?` past its whitespace, and holds only characters of signatures
pub open spec fn is_sig_line(l: Seq<char>) -> bool {
    &&& marker_count(l) == 1
    &&& !(trim_ws(l).len() > 0 && trim_ws(l).last() == '?')
    &&& all_sig_chars(l)
}

/// Which lines are signature lines
pub open spec fn sig_line_flags(ls: Seq<Seq<char>>) -> Seq<bool> {
    Seq::new(ls.len(), |i: int| is_sig_line(ls[i]))
}

/// Lines, each followed by a newline
pub open spec fn join_nl(ls: Seq<Seq<char>>) -> Seq<char>
    decreases ls.len(),
{
    if ls.len() == 0 {
        seq![]
    } else {
        join_nl(ls.drop_last()) + ls.last() + seq!['\n']
    }
}

/// A text without the newlines at its end
pub open spec fn strip_trailing_nl(s: Seq<char>) -> Seq<char>
    decreases s.len(),
{
    if s.len() > 0 && s.last() == '\n' {
        strip_trailing_nl(s.drop_last())
    } else {
        s
    }
}

/// A text without the newlines at its start
pub open spec fn strip_leading_nl(s: Seq<char>) -> Seq<char>
    decreases s.len(),
{
    if s.len() > 0 && s[0] == '\n' {
        strip_leading_nl(s.drop_first())
    } else {
        s
    }
}

/// The text of a comment before its lines are trimmed: where it has a signature line, the
/// lines before it and after it with an empty line between them, each line followed by a
/// newline, and the newlines at both ends taken off; otherwise the text itself
pub open spec fn comment_raw_text(s: Seq<char>) -> Seq<char> {
    let ls = lines(s);
    let i = first_true(sig_line_flags(ls));
    if i < ls.len() {
        strip_leading_nl(
            strip_trailing_nl(join_nl(ls.take(i)) + seq!['\n', '\n'] + join_nl(ls.skip(i + 1))),
        )
    } else {
        s
    }
}

/// Lines, each trimmed, with a newline between each two
pub open spec fn join_trimmed(ls: Seq<Seq<char>>) -> Seq<char>
    decreases ls.len(),
{
    if ls.len() == 0 {
        seq![]
    } else if ls.len() == 1 {
        trim_ws(ls[0])
    } else {
        join_trimmed(ls.drop_last()) + seq!['\n'] + trim_ws(ls.last())
    }
}

/// The text that a comment documents a binding with
pub open spec fn comment_text(s: Seq<char>) -> Seq<char> {
    join_trimmed(lines(comment_raw_text(s)))
}

/// The signature that a comment gives, read from its first signature line
pub open spec fn comment_sig(s: Seq<char>) -> Option<
    (bool, Option<Seq<(Seq<char>, Option<Seq<char>>)>>, Option<Seq<(Seq<char>, Option<Seq<char>>)>>),
> {
    let ls = lines(s);
    let i = first_true(sig_line_flags(ls));
    if i < ls.len() {
        spec_parse_sig(ls[i])
    } else {
        None
    }
}

/// The signature of a doc comment by its texts
pub open spec fn opt_sig_view(sig: Option<DocCommentSig>) -> Option<
    (bool, Option<Seq<(Seq<char>, Option<Seq<char>>)>>, Option<Seq<(Seq<char>, Option<Seq<char>>)>>),
> {
    match sig {
        Some(s) => Some(s@),
        None => None,
    }
}

/// Count the `$` and `?` characters in a line
fn marker_count_exec(l: &Vec<char>) -> (n: usize)
    ensures
        n == marker_count(l@),
{
    let mut n: usize = 0;
    let mut i: usize = 0;
    while i < l.len()
        invariant
            i <= l@.len(),
            n == marker_count(l@.take(i as int)),
            n <= i,
        decreases l@.len() - i,
    {
        assert(l@.take(i + 1).drop_last() =~= l@.take(i as int));
        if l[i] == '$' || l[i] == '?' {
            n += 1;
        }
        i += 1;
    }
    assert(l@.take(l@.len() as int) =~= l@);
    n
}

/// Check whether a line of a comment is its signature line
fn is_sig_line_exec(l: &Vec<char>) -> (r: bool)
    ensures
        r == is_sig_line(l@),
{
    let t = trim_chars(l);
    marker_count_exec(l) == 1 && !(t.len() > 0 && t[t.len() - 1] == '?') && all_sig_chars_exec(
        l,
    )
}

/// Append some characters
fn append_chars(dst: &mut Vec<char>, src: &Vec<char>)
    ensures
        final(dst)@ == old(dst)@ + src@,
{
    let ghost start = dst@;
    let mut i: usize = 0;
    while i < src.len()
        invariant
            i <= src@.len(),
            dst@ == start + src@.take(i as int),
        decreases src@.len() - i,
    {
        dst.push(src[i]);
        i += 1;
        assert(dst@ =~= start + src@.take(i as int));
    }
    assert(src@.take(src@.len() as int) =~= src@);
}

/// Append lines from one position to another, each followed by a newline
fn append_lines(dst: &mut Vec<char>, ls: &Vec<Vec<char>>, from: usize, to: usize)
    requires
        from <= to <= ls@.len(),
    ensures
        final(dst)@ == old(dst)@ + join_nl(views(ls@).subrange(from as int, to as int)),
{
    let ghost start = dst@;
    let ghost lv = views(ls@);
    let mut k: usize = from;
    assert(lv.subrange(from as int, from as int) =~= Seq::<Seq<char>>::empty());
    while k < to
        invariant
            from <= k <= to <= ls@.len(),
            lv == views(ls@),
            dst@ == start + join_nl(lv.subrange(from as int, k as int)),
        decreases to - k,
    {
        assert(lv.subrange(from as int, k + 1).drop_last() =~= lv.subrange(from as int, k as int));
        assert(lv[k as int] == ls@[k as int]@);
        append_chars(dst, &ls[k]);
        dst.push('\n');
        k += 1;
        assert(dst@ =~= start + join_nl(lv.subrange(from as int, k as int)));
    }
}

/// Take the newlines off both ends of a text
fn strip_newlines(v: &Vec<char>) -> (r: Vec<char>)
    ensures
        r@ == strip_leading_nl(strip_trailing_nl(v@)),
{
    let mut end: usize = v.len();
    assert(v@.take(v@.len() as int) =~= v@);
    while end > 0 && v[end - 1] == '\n'
        invariant
            end <= v@.len(),
            strip_trailing_nl(v@) == strip_trailing_nl(v@.take(end as int)),
        decreases end,
    {
        assert(v@.take(end as int).drop_last() =~= v@.take(end - 1));
        end -= 1;
    }
    assert(strip_trailing_nl(v@) == v@.take(end as int));
    let mut start: usize = 0;
    assert(v@.subrange(0, end as int) =~= v@.take(end as int));
    while start < end && v[start] == '\n'
        invariant
            start <= end <= v@.len(),
            strip_leading_nl(strip_trailing_nl(v@)) == strip_leading_nl(
                v@.subrange(start as int, end as int),
            ),
        decreases end - start,
    {
        assert(v@.subrange(start as int, end as int).drop_first() =~= v@.subrange(
            start + 1,
            end as int,
        ));
        start += 1;
    }
    sub_chars(v, start, end)
}

/// Trim each line and put a newline between each two
fn join_trimmed_exec(ls: &Vec<Vec<char>>) -> (r: Vec<char>)
    ensures
        r@ == join_trimmed(views(ls@)),
{
    let ghost lv = views(ls@);
    let mut out: Vec<char> = Vec::new();
    let mut k: usize = 0;
    assert(lv.take(0) =~= Seq::<Seq<char>>::empty());
    while k < ls.len()
        invariant
            k <= ls@.len(),
            lv == views(ls@),
            out@ == join_trimmed(lv.take(k as int)),
        decreases ls@.len() - k,
    {
        assert(lv.take(k + 1).drop_last() =~= lv.take(k as int));
        assert(lv[k as int] == ls@[k as int]@);
        if k > 0 {
            out.push('\n');
        }
        let t = trim_chars(&ls[k]);
        append_chars(&mut out, &t);
        k += 1;
        assert(out@ =~= join_trimmed(lv.take(k as int)));
    }
    assert(lv.take(ls@.len() as int) =~= lv);
    out
}

impl DocComment {
    /// Read a doc comment: its signature from its first signature line, and its text from the
    /// other lines, each trimmed
    pub fn from_text(text: &str) -> (c: DocComment)
        ensures
            eco_chars(c.text) == comment_text(text@),
            opt_sig_view(c.sig) == comment_sig(text@),
    {
        let v = chars_of(text);
        let ls = lines_of(&v);
        let ghost lv = views(ls@);
        let mut i: usize = 0;
        while i < ls.len() && !is_sig_line_exec(&ls[i])
            invariant
                i <= ls@.len(),
                lv == views(ls@),
                forall|k: int| 0 <= k < i ==> !is_sig_line(#[trigger] lv[k]),
            decreases ls@.len() - i,
        {
            assert(lv[i as int] == ls@[i as int]@);
            i += 1;
        }
        proof {
            let flags = sig_line_flags(lv);
            assert forall|k: int| 0 <= k < i implies !flags[k] by {
                assert(!is_sig_line(lv[k]));
            }
            if i < ls@.len() {
                assert(lv[i as int] == ls@[i as int]@);
            }
            lemma_first_true(flags, i as int);
        }
        let mut sig: Option<DocCommentSig> = None;
        let raw = if i < ls.len() {
            assert(lv[i as int] == ls@[i as int]@);
            sig = match parse_sig_chars(&ls[i]) {
                Ok(s) => Some(s),
                Err(_) => None,
            };
            let mut joined: Vec<char> = Vec::new();
            append_lines(&mut joined, &ls, 0, i);
            joined.push('\n');
            joined.push('\n');
            let ghost mid = joined@;
            append_lines(&mut joined, &ls, i + 1, ls.len());
            assert(lv.subrange(0, i as int) =~= lv.take(i as int));
            assert(lv.subrange(i + 1, ls@.len() as int) =~= lv.skip(i + 1));
            assert(mid =~= join_nl(lv.take(i as int)) + seq!['\n', '\n']);
            strip_newlines(&joined)
        } else {
            v
        };
        let raw_lines = lines_of(&raw);
        let out = join_trimmed_exec(&raw_lines);
        DocComment { text: eco_of(&out), sig }
    }
}

impl<'a> From<&'a str> for DocComment {
    /// Read a doc comment, as `DocComment::from_text` does
    fn from(text: &'a str) -> (c: Self)
        ensures
            eco_chars(c.text) == comment_text(text@),
            opt_sig_view(c.sig) == comment_sig(text@),
    {
        DocComment::from_text(text)
    }
}

impl<'a> vstd::std_specs::convert::FromSpecImpl<&'a str> for DocComment {
    /// A doc comment is fixed by its text only up to the characters of that text, so no exact
    /// value is promised here; `from` states the characters
    open spec fn obeys_from_spec() -> bool {
        false
    }

    open spec fn from_spec(text: &'a str) -> DocComment {
        vstd::pervasive::arbitrary()
    }
}

impl From<String> for DocComment {
    /// Read a doc comment, as `DocComment::from_text` does
    fn from(text: String) -> (c: Self)
        ensures
            eco_chars(c.text) == comment_text(text@),
            opt_sig_view(c.sig) == comment_sig(text@),
    {
        DocComment::from_text(text.as_str())
    }
}

impl vstd::std_specs::convert::FromSpecImpl<String> for DocComment {
    /// A doc comment is fixed by its text only up to the characters of that text, so no exact
    /// value is promised here; `from` states the characters
    open spec fn obeys_from_spec() -> bool {
        false
    }

    open spec fn from_spec(text: String) -> DocComment {
        vstd::pervasive::arbitrary()
    }
}

} // verus!
