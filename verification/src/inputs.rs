//! The code strings that are input to the compiler, by where they come from
use vstd::prelude::*;

use ecow::{EcoString, EcoVec};

use crate::assembly::CodeSpan;
use crate::eco::{
    eco_as_str, eco_chars, eco_new, string_at, string_items, strings_len, strings_new,
    strings_push, strings_set,
};
use crate::path::{path_key, same_path};

verus! {

/// Where a piece of input code comes from
pub enum InputSrc {
    /// A file, by its path
    File(String),
    /// A string, by its index among the input strings
    Str(usize),
    /// A macro expansion, by the span of the macro
    Macro(CodeSpan),
    /// A literal string of code
    Literal(EcoString),
}

/// A repository of code strings input to the compiler, each map held as a list of entries, in
/// which adding an input never makes a key occur twice (`spec_wf`)
pub struct Inputs {
    /// File paths and their contents
    pub files: Vec<(String, EcoString)>,
    /// Input strings without paths
    pub strings: EcoVec<EcoString>,
    /// Macro spans and their expansions
    pub macros: Vec<(CodeSpan, EcoString)>,
}

impl Default for Inputs {
    fn default() -> (r: Self)
        ensures
            r.spec_empty(),
            r.spec_wf(),
    {
        Inputs { files: Vec::new(), strings: strings_new(), macros: Vec::new() }
    }
}

/// The text bound to a path in a list of files, if any: paths are compared by their components
pub open spec fn file_text(files: Seq<(String, EcoString)>, path: Seq<char>) -> Option<Seq<char>>
    decreases files.len(),
{
    if files.len() == 0 {
        None
    } else if path_key(files.last().0@) == path_key(path) {
        Some(eco_chars(files.last().1))
    } else {
        file_text(files.drop_last(), path)
    }
}

/// The text bound to a span in a list of macros, if any
pub open spec fn macro_text(macros: Seq<(CodeSpan, EcoString)>, span: CodeSpan) -> Option<Seq<char>>
    decreases macros.len(),
{
    if macros.len() == 0 {
        None
    } else if macros.last().0 == span {
        Some(eco_chars(macros.last().1))
    } else {
        macro_text(macros.drop_last(), span)
    }
}

impl Inputs {
    /// Whether no path occurs twice among the files and no span twice among the macros
    pub open spec fn spec_wf(&self) -> bool {
        &&& forall|a: int, b: int|
            0 <= a < b < self.files@.len() ==> path_key((#[trigger] self.files@[a]).0@)
                != path_key((#[trigger] self.files@[b]).0@)
        &&& forall|a: int, b: int|
            0 <= a < b < self.macros@.len() ==> (#[trigger] self.macros@[a]).0
                != (#[trigger] self.macros@[b]).0
    }

    /// The inputs that hold nothing
    pub open spec fn spec_empty(&self) -> bool {
        self.files@.len() == 0 && string_items(self.strings).len() == 0 && self.macros@.len() == 0
    }

    /// The text of an input source, if the inputs hold it
    pub open spec fn spec_source(&self, src: InputSrc) -> Option<Seq<char>> {
        match src {
            InputSrc::File(path) => file_text(self.files@, path@),
            InputSrc::Str(i) => if i < string_items(self.strings).len() {
                Some(string_items(self.strings)[i as int])
            } else {
                None
            },
            InputSrc::Macro(span) => macro_text(self.macros@, span),
            InputSrc::Literal(s) => Some(eco_chars(s)),
        }
    }

    /// The texts of the input strings
    pub open spec fn string_texts(&self) -> Seq<Seq<char>> {
        string_items(self.strings)
    }

    /// Find a file's text, if any
    fn find_file(&self, path: &str) -> (r: Option<&EcoString>)
        ensures
            match r {
                Some(t) => file_text(self.files@, path@) == Some(eco_chars(*t)),
                None => file_text(self.files@, path@) is None,
            },
    {
        let mut i = self.files.len();
        assert(self.files@.take(i as int) =~= self.files@);
        while i > 0
            invariant
                i <= self.files@.len(),
                file_text(self.files@, path@) == file_text(self.files@.take(i as int), path@),
            decreases i,
        {
            assert(self.files@.take(i as int).drop_last() =~= self.files@.take(i - 1));
            if same_path(self.files[i - 1].0.as_str(), path) {
                return Some(&self.files[i - 1].1);
            }
            i -= 1;
        }
        None
    }

    /// Find where a file's path stands last, or the number of files where it is not there
    fn find_file_index(&self, path: &str) -> (r: usize)
        ensures
            r <= self.files@.len(),
            r < self.files@.len() ==> path_key(self.files@[r as int].0@) == path_key(path@),
            forall|m: int|
                r < m < self.files@.len() ==> path_key((#[trigger] self.files@[m]).0@) != path_key(
                    path@,
                ),
            r == self.files@.len() ==> forall|m: int|
                0 <= m < self.files@.len() ==> path_key((#[trigger] self.files@[m]).0@) != path_key(
                    path@,
                ),
    {
        let mut i = self.files.len();
        while i > 0
            invariant
                i <= self.files@.len(),
                forall|m: int|
                    i <= m < self.files@.len() ==> path_key((#[trigger] self.files@[m]).0@) != path_key(
                        path@,
                    ),
            decreases i,
        {
            if same_path(self.files[i - 1].0.as_str(), path) {
                return i - 1;
            }
            i -= 1;
        }
        self.files.len()
    }

    /// Find where a macro's span stands last, or the number of macros where it is not there
    fn find_macro_index(&self, span: CodeSpan) -> (r: usize)
        ensures
            r <= self.macros@.len(),
            r < self.macros@.len() ==> self.macros@[r as int].0 == span,
            forall|m: int| r < m < self.macros@.len() ==> (#[trigger] self.macros@[m]).0 != span,
            r == self.macros@.len() ==> forall|m: int|
                0 <= m < self.macros@.len() ==> (#[trigger] self.macros@[m]).0 != span,
    {
        let mut i = self.macros.len();
        while i > 0
            invariant
                i <= self.macros@.len(),
                forall|m: int| i <= m < self.macros@.len() ==> (#[trigger] self.macros@[m]).0 != span,
            decreases i,
        {
            if self.macros[i - 1].0 == span {
                return i - 1;
            }
            i -= 1;
        }
        self.macros.len()
    }

    /// Find a macro's expansion, if any
    fn find_macro(&self, span: CodeSpan) -> (r: Option<&EcoString>)
        ensures
            match r {
                Some(t) => macro_text(self.macros@, span) == Some(eco_chars(*t)),
                None => macro_text(self.macros@, span) is None,
            },
    {
        let mut i = self.macros.len();
        assert(self.macros@.take(i as int) =~= self.macros@);
        while i > 0
            invariant
                i <= self.macros@.len(),
                macro_text(self.macros@, span) == macro_text(self.macros@.take(i as int), span),
            decreases i,
        {
            assert(self.macros@.take(i as int).drop_last() =~= self.macros@.take(i - 1));
            if self.macros[i - 1].0 == span {
                return Some(&self.macros[i - 1].1);
            }
            i -= 1;
        }
        None
    }

    /// Find the text of an input source, if the inputs hold it
    fn find<'a>(&'a self, src: &'a InputSrc) -> (r: Option<&'a EcoString>)
        ensures
            match r {
                Some(t) => self.spec_source(*src) == Some(eco_chars(*t)),
                None => self.spec_source(*src) is None,
            },
    {
        match src {
            InputSrc::File(path) => self.find_file(path.as_str()),
            InputSrc::Str(i) => if *i < strings_len(&self.strings) {
                Some(string_at(&self.strings, *i))
            } else {
                None
            },
            InputSrc::Macro(span) => self.find_macro(*span),
            InputSrc::Literal(s) => Some(s),
        }
    }

    /// Get an input string
    pub fn get(&self, src: &InputSrc) -> (r: EcoString)
        requires
            self.spec_source(*src) is Some,
        ensures
            Some(eco_chars(r)) == self.spec_source(*src),
    {
        let t = self.find(src);
        match t {
            Some(t) => t.clone(),
            None => {
                assert(false);
                eco_new()
            },
        }
    }

    /// Get an input string and perform an operation on it
    pub fn get_with<T, F: FnOnce(&str) -> T>(&self, src: &InputSrc, f: F) -> (r: T)
        requires
            self.spec_source(*src) is Some,
            forall|s: &str| f.requires((s,)),
        ensures
            exists|s: &str| Some(s@) == self.spec_source(*src) && f.ensures((s,), r),
    {
        let t = self.find(src);
        match t {
            Some(t) => {
                let s = eco_as_str(t);
                f(s)
            },
            None => {
                assert(false);
                f("")
            },
        }
    }

    /// Get an input string and perform an operation on it, if the inputs hold it
    pub fn try_get_with<T, F: FnOnce(&str) -> T>(&self, src: &InputSrc, f: F) -> (r: Option<T>)
        requires
            forall|s: &str| f.requires((s,)),
        ensures
            match r {
                Some(v) => exists|s: &str| Some(s@) == self.spec_source(*src) && f.ensures((s,), v),
                None => self.spec_source(*src) is None,
            },
    {
        match self.find(src) {
            Some(t) => Some(f(eco_as_str(t))),
            None => None,
        }
    }

    /// Add an input under a source, in place of what the source held, and get the source back:
    /// input strings are filled with empty strings up to the index
    pub fn add_src(&mut self, src: InputSrc, input: EcoString) -> (r: InputSrc)
        ensures
            r == src,
            spec_added(*old(self), *final(self), src, input),
            old(self).spec_wf() ==> final(self).spec_wf(),
    {
        match &src {
            InputSrc::File(path) => {
                let k = self.find_file_index(path.as_str());
                let ghost before = self.files@;
                if k < self.files.len() {
                    let key = self.files[k].0.clone();
                    self.files.set(k, (key, input));
                    proof {
                        assert forall|p: Seq<char>| #[trigger]
                            file_text(self.files@, p) == if path_key(p) == path_key(path@) {
                                Some(eco_chars(input))
                            } else {
                                file_text(before, p)
                            } by {
                            lemma_file_text_set(before, k as int, path@, input, p);
                        }
                    }
                } else {
                    let key = path.clone();
                    self.files.push((key, input));
                    proof {
                        assert forall|p: Seq<char>| #[trigger]
                            file_text(self.files@, p) == if path_key(p) == path_key(path@) {
                                Some(eco_chars(input))
                            } else {
                                file_text(before, p)
                            } by {
                            assert(self.files@.drop_last() =~= before);
                        }
                    }
                }
            },
            InputSrc::Str(i) => {
                let i = *i;
                let ghost before = self.string_texts();
                while strings_len(&self.strings) <= i
                    invariant
                        self.string_texts().len() >= before.len(),
                        self.string_texts().len() <= before.len() || self.string_texts().len()
                            <= i + 1,
                        self.string_texts().take(before.len() as int) == before,
                        forall|k: int|
                            before.len() <= k < self.string_texts().len() ==> (
                            #[trigger] self.string_texts()[k]).len() == 0,
                        self.files@ == old(self).files@,
                        self.macros@ == old(self).macros@,
                        before == old(self).string_texts(),
                    decreases i + 1 - string_items(self.strings).len(),
                {
                    let ghost prev = self.string_texts();
                    strings_push(&mut self.strings, eco_new());
                    assert(self.string_texts() =~= prev.push(Seq::<char>::empty()));
                    assert(self.string_texts().take(before.len() as int) =~= prev.take(
                        before.len() as int,
                    ));
                }
                let ghost filled = self.string_texts();
                strings_set(&mut self.strings, i, input);
                assert(self.string_texts() =~= filled.update(i as int, eco_chars(input)));
                proof {
                    if i < before.len() {
                        assert(filled =~= before);
                    } else {
                        assert(filled.len() == i + 1);
                        assert forall|k: int| 0 <= k < before.len() implies filled[k] == before[k] by {
                            assert(filled.take(before.len() as int)[k] == filled[k]);
                        }
                        assert forall|k: int| before.len() <= k < filled.len() implies filled[k]
                            == Seq::<char>::empty() by {
                            assert(filled[k] =~= Seq::<char>::empty());
                        }
                        assert(filled =~= before + Seq::new(
                            (i - before.len()) as nat,
                            |k: int| Seq::<char>::empty(),
                        ) + seq![Seq::<char>::empty()]);
                    }
                }
                assert(self.string_texts() =~= padded_update(before, i as int, eco_chars(input)));
            },
            InputSrc::Macro(span) => {
                let span = *span;
                let k = self.find_macro_index(span);
                let ghost before = self.macros@;
                if k < self.macros.len() {
                    self.macros.set(k, (span, input));
                    proof {
                        assert forall|q: CodeSpan| #[trigger]
                            macro_text(self.macros@, q) == if q == span {
                                Some(eco_chars(input))
                            } else {
                                macro_text(before, q)
                            } by {
                            lemma_macro_text_set(before, k as int, span, input, q);
                        }
                    }
                } else {
                    self.macros.push((span, input));
                    proof {
                        assert forall|q: CodeSpan| #[trigger]
                            macro_text(self.macros@, q) == if q == span {
                                Some(eco_chars(input))
                            } else {
                                macro_text(before, q)
                            } by {
                            assert(self.macros@.drop_last() =~= before);
                        }
                    }
                }
            },
            InputSrc::Literal(_) => {},
        }
        src
    }

    /// List the input files by their paths and the input strings by their texts
    pub fn available_srcs(&self) -> (s: String)
        ensures
            s@ == joined_sources(file_paths(self.files@), self.string_texts()),
    {
        let mut parts: Vec<String> = Vec::new();
        let mut i: usize = 0;
        let ghost names = file_paths(self.files@);
        let ghost texts = self.string_texts();
        assert(string_views(parts@) =~= names.take(0));
        while i < self.files.len()
            invariant
                i <= self.files@.len(),
                names == file_paths(self.files@),
                string_views(parts@) == names.take(i as int),
            decreases self.files@.len() - i,
        {
            let ghost prev = string_views(parts@);
            parts.push(self.files[i].0.clone());
            assert(string_views(parts@) =~= prev.push(names[i as int]));
            i += 1;
            assert(names.take(i as int) =~= names.take(i - 1).push(names[i - 1]));
        }
        let mut k: usize = 0;
        assert(names.take(self.files@.len() as int) =~= names);
        assert(string_views(parts@) =~= names + string_entries(texts.take(0)));
        while k < strings_len(&self.strings)
            invariant
                k <= string_items(self.strings).len(),
                texts == self.string_texts(),
                string_views(parts@) == names + string_entries(texts.take(k as int)),
            decreases string_items(self.strings).len() - k,
        {
            let ghost prev = string_views(parts@);
            parts.push(String::from_str("string ").concat(eco_as_str(string_at(&self.strings, k))));
            assert(string_views(parts@) =~= prev.push("string "@ + texts[k as int]));
            k += 1;
            assert(string_entries(texts.take(k as int)) =~= string_entries(texts.take(k - 1)).push(
                "string "@ + texts[k - 1],
            ));
        }
        assert(texts.take(string_items(self.strings).len() as int) =~= texts);
        join_strings(&parts, ", ")
    }
}

/// Whether some inputs are others with an input added under a source, in place of what the
/// source held: input strings are filled with empty strings up to the index, and a literal
/// source changes nothing
pub open spec fn spec_added(old: Inputs, new: Inputs, src: InputSrc, input: EcoString) -> bool {
    match src {
        InputSrc::File(path) => {
            &&& forall|p: Seq<char>| #[trigger]
                file_text(new.files@, p) == if path_key(p) == path_key(path@) {
                    Some(eco_chars(input))
                } else {
                    file_text(old.files@, p)
                }
            &&& string_items(new.strings) == string_items(old.strings)
            &&& new.macros@ == old.macros@
        },
        InputSrc::Str(i) => {
            &&& new.string_texts() == padded_update(old.string_texts(), i as int, eco_chars(input))
            &&& new.files@ == old.files@
            &&& new.macros@ == old.macros@
        },
        InputSrc::Macro(span) => {
            &&& forall|s: CodeSpan| #[trigger]
                macro_text(new.macros@, s) == if s == span {
                    Some(eco_chars(input))
                } else {
                    macro_text(old.macros@, s)
                }
            &&& string_items(new.strings) == string_items(old.strings)
            &&& new.files@ == old.files@
        },
        InputSrc::Literal(_) => new == old,
    }
}

/// Whether two sources name the same place: paths with the same components, the same string
/// index or the same macro span
pub open spec fn same_place(a: InputSrc, b: InputSrc) -> bool {
    match (a, b) {
        (InputSrc::File(p), InputSrc::File(q)) => path_key(p@) == path_key(q@),
        (InputSrc::Str(i), InputSrc::Str(j)) => i == j,
        (InputSrc::Macro(s), InputSrc::Macro(t)) => s == t,
        _ => false,
    }
}

/// Reading a source after an input was added under it gives that input back, for every source
/// but a literal one, which holds its own text
pub proof fn lemma_get_after_add(old: Inputs, new: Inputs, src: InputSrc, input: EcoString)
    requires
        spec_added(old, new, src, input),
        !(src is Literal),
    ensures
        new.spec_source(src) == Some(eco_chars(input)),
{
    match src {
        InputSrc::File(path) => {
            assert(file_text(new.files@, path@) == Some(eco_chars(input)));
        },
        InputSrc::Str(i) => {
            assert(new.string_texts()[i as int] == eco_chars(input));
            assert(new.string_texts().len() == string_items(new.strings).len());
        },
        InputSrc::Macro(span) => {
            assert(macro_text(new.macros@, span) == Some(eco_chars(input)));
        },
        InputSrc::Literal(_) => {},
    }
}

/// Getting an input with a function and trying to get it with the same function agree: trying
/// gives nothing exactly where getting is refused, and where the function gives one result for
/// each text, trying gives what getting gives
pub proof fn lemma_get_with_agrees<T, F: FnOnce(&str) -> T>(
    inputs: Inputs,
    src: InputSrc,
    f: F,
    tried: Option<T>,
    got: T,
)
    requires
        match tried {
            Some(v) => exists|s: &str| Some(s@) == inputs.spec_source(src) && f.ensures((s,), v),
            None => inputs.spec_source(src) is None,
        },
        inputs.spec_source(src) is Some ==> exists|s: &str|
            Some(s@) == inputs.spec_source(src) && f.ensures((s,), got),
    ensures
        tried is None <==> inputs.spec_source(src) is None,
        (forall|s: &str, t: &str, v: T, w: T|
            s@ == t@ && #[trigger] f.ensures((s,), v) && #[trigger] f.ensures((t,), w) ==> v == w)
            ==> (tried is Some ==> tried == Some(got)),
{
}

/// Adding an input under a source leaves every source that names another place and that the
/// inputs held as it was
pub proof fn lemma_add_keeps_others(
    old: Inputs,
    new: Inputs,
    src: InputSrc,
    input: EcoString,
    other: InputSrc,
)
    requires
        spec_added(old, new, src, input),
        !same_place(src, other),
        old.spec_source(other) is Some,
    ensures
        new.spec_source(other) == old.spec_source(other),
{
    match other {
        InputSrc::File(q) => {
            if src is File {
                assert(file_text(new.files@, q@) == file_text(old.files@, q@));
            }
        },
        InputSrc::Str(j) => {
            if src is Str {
                let i = src->Str_0;
                assert(old.string_texts()[j as int] == string_items(old.strings)[j as int]);
                assert(new.string_texts()[j as int] == old.string_texts()[j as int]);
                assert(new.string_texts().len() == string_items(new.strings).len());
                assert(new.string_texts()[j as int] == string_items(new.strings)[j as int]);
            }
        },
        InputSrc::Macro(t) => {
            if src is Macro {
                assert(macro_text(new.macros@, t) == macro_text(old.macros@, t));
            }
        },
        InputSrc::Literal(_) => {},
    }
}

/// A list of texts with one text in place of the one at an index, padded with empty texts up to
/// that index where it is not long enough
pub open spec fn padded_update(texts: Seq<Seq<char>>, i: int, t: Seq<char>) -> Seq<Seq<char>> {
    if i < texts.len() {
        texts.update(i, t)
    } else {
        texts + Seq::new((i - texts.len()) as nat, |k: int| Seq::<char>::empty()) + seq![t]
    }
}

/// The paths of a list of files
pub open spec fn file_paths(files: Seq<(String, EcoString)>) -> Seq<Seq<char>> {
    Seq::new(files.len(), |i: int| files[i].0@)
}

/// The texts of some strings
pub open spec fn string_views(parts: Seq<String>) -> Seq<Seq<char>> {
    Seq::new(parts.len(), |i: int| parts[i]@)
}

/// Each text after `string `
pub open spec fn string_entries(texts: Seq<Seq<char>>) -> Seq<Seq<char>> {
    Seq::new(texts.len(), |i: int| "string "@ + texts[i])
}

/// The list of sources: the paths of the files, then `string ` and the text of each string,
/// separated by commas
pub open spec fn joined_sources(paths: Seq<Seq<char>>, strings: Seq<Seq<char>>) -> Seq<char> {
    join_texts(paths + string_entries(strings), ", "@)
}

/// Texts with a separator between each two
pub open spec fn join_texts(texts: Seq<Seq<char>>, sep: Seq<char>) -> Seq<char>
    decreases texts.len(),
{
    if texts.len() == 0 {
        seq![]
    } else if texts.len() == 1 {
        texts[0]
    } else {
        join_texts(texts.drop_last(), sep) + sep + texts.last()
    }
}

/// Join strings with a separator between each two
fn join_strings(parts: &Vec<String>, sep: &str) -> (s: String)
    ensures
        s@ == join_texts(string_views(parts@), sep@),
{
    let ghost texts = string_views(parts@);
    let mut s = String::new();
    let mut i: usize = 0;
    proof {
        reveal_strlit("");
    }
    assert(texts.take(0) =~= Seq::<Seq<char>>::empty());
    while i < parts.len()
        invariant
            i <= parts@.len(),
            texts == string_views(parts@),
            s@ == join_texts(texts.take(i as int), sep@),
        decreases parts@.len() - i,
    {
        assert(texts.take(i + 1).drop_last() =~= texts.take(i as int));
        assert(texts[i as int] == parts@[i as int]@);
        if i > 0 {
            s.append(sep);
        }
        s.append(parts[i].as_str());
        i += 1;
        assert(s@ =~= join_texts(texts.take(i as int), sep@));
    }
    assert(texts.take(parts@.len() as int) =~= texts);
    s
}

/// Putting a new text in place of the last entry of a path changes the text of that path only
proof fn lemma_file_text_set(
    files: Seq<(String, EcoString)>,
    k: int,
    path: Seq<char>,
    t: EcoString,
    p: Seq<char>,
)
    requires
        0 <= k < files.len(),
        path_key(files[k].0@) == path_key(path),
        forall|m: int| k < m < files.len() ==> path_key((#[trigger] files[m]).0@) != path_key(path),
    ensures
        file_text(files.update(k, (files[k].0, t)), p) == if path_key(p) == path_key(path) {
            Some(eco_chars(t))
        } else {
            file_text(files, p)
        },
    decreases files.len(),
{
    let new = files.update(k, (files[k].0, t));
    if k == files.len() - 1 {
        assert(new.drop_last() =~= files.drop_last());
    } else {
        assert(new.drop_last() =~= files.drop_last().update(k, (files[k].0, t)));
        assert(files.last() == files[files.len() - 1]);
        lemma_file_text_set(files.drop_last(), k, path, t, p);
    }
}

/// Putting a new expansion in place of the last entry of a span changes that span's only
proof fn lemma_macro_text_set(
    macros: Seq<(CodeSpan, EcoString)>,
    k: int,
    span: CodeSpan,
    t: EcoString,
    q: CodeSpan,
)
    requires
        0 <= k < macros.len(),
        macros[k].0 == span,
        forall|m: int| k < m < macros.len() ==> (#[trigger] macros[m]).0 != span,
    ensures
        macro_text(macros.update(k, (span, t)), q) == if q == span {
            Some(eco_chars(t))
        } else {
            macro_text(macros, q)
        },
    decreases macros.len(),
{
    let new = macros.update(k, (span, t));
    if k == macros.len() - 1 {
        assert(new.drop_last() =~= macros.drop_last());
    } else {
        assert(new.drop_last() =~= macros.drop_last().update(k, (span, t)));
        assert(macros.last() == macros[macros.len() - 1]);
        lemma_macro_text_set(macros.drop_last(), k, span, t, q);
    }
}

} // verus!
