//! Signatures under subscripts, subscript text and the layout of stack traces
use vstd::prelude::*;

use super::{PrimClass, Primitive};
use crate::text::push_char;
use crate::{FunctionId, Signature};

verus! {

impl Primitive {
    /// The signature of the primitive under a subscript
    pub open spec fn spec_subscript_sig(self, n: Option<i32>) -> Option<Signature> {
        if n is Some && self.spec_class() == PrimClass::DyadicPervasive {
            Some(Signature { args: 1, outputs: 1 })
        } else if n is Some && (self is Select || self is Pick || self is Take || self is Drop
            || self is Join || self is Rerank || self is Rotate || self is Orient || self is Windows
            || self is Base) {
            Some(Signature { args: 1, outputs: 1 })
        } else if (self is First || self is Last) && n is Some && n.unwrap() >= 0 {
            Some(Signature { args: 1, outputs: n.unwrap() as usize })
        } else if (self is Couple || self is Box) && n is Some && n.unwrap() >= 0 {
            Some(Signature { args: n.unwrap() as usize, outputs: 1 })
        } else if self is Couple && n is None {
            Some(Signature { args: 2, outputs: 1 })
        } else if self is Box && n is None {
            Some(Signature { args: 1, outputs: 1 })
        } else if self is Transpose || self is Sqrt || self is Round || self is Floor || self is Ceil
            || self is Rand || self is Utf8 {
            self.spec_sig()
        } else if self is Stack && n is Some && n.unwrap() >= 0 {
            Some(Signature { args: n.unwrap() as usize, outputs: n.unwrap() as usize })
        } else {
            None
        }
    }

    /// The modified signature of the primitive given a subscript
    pub fn subscript_sig(&self, n: Option<i32>) -> (r: Option<Signature>)
        ensures
            r == self.spec_subscript_sig(n),
    {
        match (self, n) {
            (prim, Some(_)) if prim.class() == PrimClass::DyadicPervasive => Some(Signature::new(1, 1)),
            (
                Primitive::Select | Primitive::Pick | Primitive::Take | Primitive::Drop | Primitive::Join
                | Primitive::Rerank | Primitive::Rotate | Primitive::Orient | Primitive::Windows
                | Primitive::Base,
                Some(_),
            ) => Some(Signature::new(1, 1)),
            (Primitive::First, Some(n)) if n >= 0 => Some(Signature::new(1, n as usize)),
            (Primitive::Last, Some(n)) if n >= 0 => Some(Signature::new(1, n as usize)),
            (Primitive::Couple, Some(n)) if n >= 0 => Some(Signature::new(n as usize, 1)),
            (Primitive::Box, Some(n)) if n >= 0 => Some(Signature::new(n as usize, 1)),
            (Primitive::Couple, None) => Some(Signature::new(2, 1)),
            (Primitive::Box, None) => Some(Signature::new(1, 1)),
            (
                Primitive::Transpose | Primitive::Sqrt | Primitive::Round | Primitive::Floor
                | Primitive::Ceil | Primitive::Rand | Primitive::Utf8,
                _,
            ) => self.sig(),
            (Primitive::Stack, Some(n)) if n >= 0 => Some(Signature::new(n as usize, n as usize)),
            _ => None,
        }
    }
}

/// The subscript glyph of a decimal digit
pub open spec fn subscript_digit(d: int) -> char {
    if d == 0 { '₀' }
    else if d == 1 { '₁' }
    else if d == 2 { '₂' }
    else if d == 3 { '₃' }
    else if d == 4 { '₄' }
    else if d == 5 { '₅' }
    else if d == 6 { '₆' }
    else if d == 7 { '₇' }
    else if d == 8 { '₈' }
    else { '₉' }
}

/// The subscript digits of a number, least significant digit first
pub open spec fn subscript_digits(n: int) -> Seq<char>
    decreases n,
{
    if n <= 0 {
        seq![]
    } else {
        seq![subscript_digit(n % 10)] + subscript_digits(n / 10)
    }
}

/// The subscript text of a number: a subscript minus for a negative number, then the digits of
/// its magnitude from the least significant on; nothing for zero
pub open spec fn spec_fmt_subscript(i: int) -> Seq<char> {
    if i < 0 {
        seq!['₋'] + subscript_digits(-i)
    } else {
        subscript_digits(i)
    }
}

/// The subscript glyph of a decimal digit
fn subscript_digit_exec(d: i32) -> (c: char)
    requires
        0 <= d < 10,
    ensures
        c == subscript_digit(d as int),
{
    if d == 0 { '₀' }
    else if d == 1 { '₁' }
    else if d == 2 { '₂' }
    else if d == 3 { '₃' }
    else if d == 4 { '₄' }
    else if d == 5 { '₅' }
    else if d == 6 { '₆' }
    else if d == 7 { '₇' }
    else if d == 8 { '₈' }
    else { '₉' }
}

/// Write a number as a subscript
pub fn fmt_subscript(i: i32) -> (s: String)
    requires
        i != i32::MIN,
    ensures
        s@ == spec_fmt_subscript(i as int),
{
    let mut s = String::new();
    let mut i = i;
    if i < 0 {
        push_char(&mut s, '₋');
        i = -i;
    }
    let ghost prefix = s@;
    let ghost total = subscript_digits(i as int);
    assert(s@ + subscript_digits(i as int) =~= prefix + total);
    while i > 0
        invariant
            i >= 0,
            s@ + subscript_digits(i as int) == prefix + total,
        decreases i,
    {
        let d = i % 10;
        let ghost before = s@;
        push_char(&mut s, subscript_digit_exec(d));
        assert(subscript_digits(i as int) == seq![subscript_digit(d as int)] + subscript_digits((i / 10) as int));
        assert(s@ + subscript_digits((i / 10) as int) =~= before + subscript_digits(i as int));
        i = i / 10;
    }
    assert(s@ =~= s@ + subscript_digits(0));
    s
}


/// The stick drawn before line `j` of a traced item of `n` lines
pub open spec fn trace_stick(n: int, j: int) -> Seq<char> {
    if n == 1 || j == 1 { "├╴"@ } else { "│ "@ }
}

/// Draw the sticks of a traced item's lines: each line gets its stick in front and a newline
/// at the end
pub fn format_trace_item_lines(lines: Vec<String>, max_line_len: usize) -> (r: Vec<String>)
    ensures
        r@.len() == lines@.len(),
        forall|j: int| 0 <= j < lines@.len() ==> #[trigger] r@[j]@ == trace_stick(lines@.len() as int, j)
            + lines@[j]@ + "\n"@,
{
    let lines_len = lines.len();
    let mut r: Vec<String> = Vec::new();
    let mut j: usize = 0;
    while j < lines_len
        invariant
            lines_len == lines@.len(),
            j <= lines_len,
            r@.len() == j,
            forall|k: int| 0 <= k < j ==> #[trigger] r@[k]@ == trace_stick(lines@.len() as int, k)
                + lines@[k]@ + "\n"@,
        decreases lines_len - j,
    {
        let stick = if lines_len == 1 || j == 1 { "├╴" } else { "│ " };
        let line = String::from_str(stick).concat(lines[j].as_str()).concat("\n");
        r.push(line);
        j += 1;
    }
    r
}

/// A frame of the call stack, as the stack trace reads it
pub struct CallFrame {
    /// The height of the stack when the frame was entered
    pub start_height: usize,
    /// The number of arguments of the called function
    pub args: usize,
    /// The called function
    pub id: Option<FunctionId>,
}

/// Whether a frame is the frame of the main program
pub open spec fn is_main_frame(f: CallFrame) -> bool {
    f.id matches Some(id) && id is Main
}

/// How deep into the stack a frame reaches, given how deep the frames above it reach
pub open spec fn frame_reach(stack_height: int, f: CallFrame, height: int) -> int {
    let own = f.args + (stack_height - f.start_height);
    let own = if own < 0 { 0 } else { own };
    if height < own { own } else { height }
}

/// The boundaries between the frames `0..i`, walking from frame `i - 1` down to the main frame
pub open spec fn spec_boundaries(frames: Seq<CallFrame>, stack_height: int, i: int, height: int) -> Seq<(int, Option<FunctionId>)>
    decreases i,
{
    if i <= 0 || i > frames.len() {
        seq![]
    } else {
        let f = frames[i - 1];
        let h = frame_reach(stack_height, f, height);
        if is_main_frame(f) {
            seq![]
        } else {
            seq![(if stack_height >= h { stack_height - h } else { 0 }, f.id)]
                + spec_boundaries(frames, stack_height, i - 1, h)
        }
    }
}

/// The views of stack boundaries
pub open spec fn boundaries_view<'a>(v: Seq<(usize, &'a Option<FunctionId>)>) -> Seq<(int, Option<FunctionId>)> {
    v.map_values(|b: (usize, &'a Option<FunctionId>)| (b.0 as int, *b.1))
}

/// The heights at which the frames of the call stack begin, innermost first, up to the main frame
pub fn stack_boundaries<'a>(frames: &'a Vec<CallFrame>, stack_height: usize) -> (r: Vec<(usize, &'a Option<FunctionId>)>)
    requires
        stack_height <= isize::MAX,
        forall|k: int| 0 <= k < frames@.len() ==> {
            &&& #[trigger] frames@[k].start_height <= isize::MAX
            &&& frames@[k].args <= isize::MAX
            &&& isize::MIN <= frames@[k].args + (stack_height - frames@[k].start_height) <= isize::MAX
        },
    ensures
        boundaries_view(r@) == spec_boundaries(frames@, stack_height as int, frames@.len() as int, 0),
{
    let mut boundaries: Vec<(usize, &'a Option<FunctionId>)> = Vec::new();
    let mut height: usize = 0;
    let mut i: usize = frames.len();
    assert(boundaries_view(boundaries@) =~= seq![]);
    while i > 0
        invariant
            i <= frames@.len(),
            stack_height <= isize::MAX,
            forall|k: int| 0 <= k < frames@.len() ==> {
                &&& #[trigger] frames@[k].start_height <= isize::MAX
                &&& frames@[k].args <= isize::MAX
                &&& isize::MIN <= frames@[k].args + (stack_height - frames@[k].start_height) <= isize::MAX
            },
            spec_boundaries(frames@, stack_height as int, frames@.len() as int, 0)
                == boundaries_view(boundaries@) + spec_boundaries(frames@, stack_height as int, i as int, height as int),
        decreases i,
    {
        let frame = &frames[i - 1];
        let ghost old_height = height;
        assert(frames@[i - 1].start_height <= isize::MAX);
        let delta = stack_height as isize - frame.start_height as isize;
        let own = frame.args as isize + delta;
        let own: usize = if own < 0 { 0 } else { own as usize };
        height = if height < own { own } else { height };
        let is_main = match &frame.id {
            Some(FunctionId::Main) => true,
            _ => false,
        };
        if is_main {
            assert(boundaries_view(boundaries@) + seq![] =~= boundaries_view(boundaries@));
            return boundaries;
        }
        let b = if stack_height >= height { stack_height - height } else { 0 };
        assert(height == frame_reach(stack_height as int, frames@[i - 1], old_height as int));
        assert(spec_boundaries(frames@, stack_height as int, i as int, old_height as int)
            == seq![(b as int, frame.id)] + spec_boundaries(frames@, stack_height as int, i - 1, height as int));
        let ghost before = boundaries@;
        boundaries.push((b, &frame.id));
        proof {
            assert(boundaries_view(boundaries@) =~= boundaries_view(before).push((b as int, frame.id)));
            assert(boundaries_view(before) + (seq![(b as int, frame.id)] + spec_boundaries(frames@, stack_height as int, i - 1, height as int))
                =~= boundaries_view(boundaries@) + spec_boundaries(frames@, stack_height as int, i - 1, height as int));
        }
        i -= 1;
    }
    assert(boundaries_view(boundaries@) + seq![] =~= boundaries_view(boundaries@));
    boundaries
}


/// The line that marks where the values of a function's call begin: the function's id between
/// dashes
pub open spec fn boundary_marker(id: Option<FunctionId>) -> Seq<char> {
    "│╴╴╴"@ + match id {
        Some(i) => i.spec_text(),
        None => ""@,
    } + "╶╶╶\n"@
}

/// The function whose call begins at a height, by the first boundary there
pub open spec fn boundary_at(bs: Seq<(int, Option<FunctionId>)>, h: int) -> Option<Option<FunctionId>>
    decreases bs.len(),
{
    if bs.len() == 0 {
        None
    } else if bs[0].0 == h {
        Some(bs[0].1)
    } else {
        boundary_at(bs.drop_first(), h)
    }
}

/// The first `j` lines of an item, each with its stick in front and a newline at the end
pub open spec fn traced_lines(lines: Seq<Seq<char>>, j: int) -> Seq<char>
    decreases j,
{
    if j <= 0 || j > lines.len() {
        ""@
    } else {
        traced_lines(lines, j - 1) + trace_stick(lines.len() as int, j - 1) + lines[j - 1] + "\n"@
    }
}

/// The text of the first `i` items of a stack, each after the marker of a call that begins
/// at its height, where there is one; heights count from a base
pub open spec fn items_text(
    items: Seq<Seq<Seq<char>>>,
    bs: Seq<(int, Option<FunctionId>)>,
    base: int,
    i: int,
) -> Seq<char>
    decreases i,
{
    if i <= 0 || i > items.len() {
        ""@
    } else {
        items_text(items, bs, base, i - 1) + match boundary_at(bs, base + i - 1) {
            Some(id) => boundary_marker(id),
            None => ""@,
        } + traced_lines(items[i - 1], items[i - 1].len() as int)
    }
}

/// What heads the report that a printing primitive makes: the primitive, after `un` where it
/// was inverted, and the span of the code that called it
pub open spec fn spec_report_span(prim: Primitive, inverse: bool, span: Seq<char>) -> Seq<char> {
    (if inverse {
        Primitive::Un.spec_text()
    } else {
        ""@
    }) + prim.spec_text() + " "@ + span
}

/// Write what heads the report that a printing primitive makes
pub fn report_span(prim: Primitive, inverse: bool, span: &str) -> (s: String)
    ensures
        s@ == spec_report_span(prim, inverse, span@),
{
    proof {
        reveal_strlit("");
        reveal_strlit(" ");
    }
    let un = if inverse {
        Primitive::Un.to_string()
    } else {
        String::new()
    };
    un.concat(prim.to_string().as_str()).concat(" ").concat(span)
}

/// The error of `dump` for a function that does not take one value and give one back
pub open spec fn spec_dump_sig_error(sig: Signature) -> Option<Seq<char>> {
    if sig.args == 1 && sig.outputs == 1 {
        None
    } else {
        Some(
            Primitive::Dump.spec_format_text() + "'s function's signature must be |1, but it is "@
                + sig.spec_text(),
        )
    }
}

/// Check the signature of the function that `dump` runs on each value
pub fn dump_sig_error(sig: Signature) -> (r: Option<String>)
    ensures
        match r {
            Some(m) => spec_dump_sig_error(sig) == Some(m@),
            None => spec_dump_sig_error(sig) is None,
        },
{
    if sig.args == 1 && sig.outputs == 1 {
        None
    } else {
        Some(
            Primitive::Dump.format().to_string().concat(
                "'s function's signature must be |1, but it is ",
            ).concat(sig.to_string().as_str()),
        )
    }
}

/// The closing line of a report whose header is a given width: a corner and a line
pub open spec fn closing_line(width: nat) -> Seq<char> {
    "└"@ + Seq::new((width - 1) as nat, |k: int| '╴') + "\n"@
}

/// A report of stack items: a header with the span, the items with the markers of calls, and
/// a closing line as wide as the header and the two characters before it
pub open spec fn spec_stack_report(
    span: Seq<char>,
    items: Seq<Seq<Seq<char>>>,
    bs: Seq<(int, Option<FunctionId>)>,
    base: int,
) -> Seq<char> {
    "┌╴"@ + span + "\n"@ + items_text(items, bs, base, items.len() as int) + closing_line(
        span.len() + 2,
    )
}

/// The texts of the lines of each item
pub open spec fn items_view(items: Seq<Vec<String>>) -> Seq<Seq<Seq<char>>> {
    Seq::new(items.len(), |i: int| Seq::new(items[i]@.len(), |j: int| items[i]@[j]@))
}

/// Find the function whose call begins at a height
fn find_boundary<'a>(boundaries: &Vec<(usize, &'a Option<FunctionId>)>, h: usize) -> (r: Option<
    &'a Option<FunctionId>,
>)
    ensures
        match r {
            Some(id) => boundary_at(boundaries_view(boundaries@), h as int) == Some(*id),
            None => boundary_at(boundaries_view(boundaries@), h as int) is None,
        },
{
    let ghost bv = boundaries_view(boundaries@);
    let mut k: usize = 0;
    assert(bv.skip(0) =~= bv);
    while k < boundaries.len()
        invariant
            k <= boundaries@.len(),
            bv == boundaries_view(boundaries@),
            boundary_at(bv, h as int) == boundary_at(bv.skip(k as int), h as int),
        decreases boundaries@.len() - k,
    {
        assert(bv.skip(k as int)[0] == bv[k as int]);
        assert(bv.skip(k as int).drop_first() =~= bv.skip(k + 1));
        if boundaries[k].0 == h {
            return Some(boundaries[k].1);
        }
        k += 1;
    }
    None
}

/// Write a report of stack items, given the lines that show each item, the boundaries of the
/// calls and the height of the first item
pub fn stack_report(
    span: &str,
    items: &Vec<Vec<String>>,
    boundaries: &Vec<(usize, &Option<FunctionId>)>,
    base: usize,
) -> (s: String)
    requires
        base + items@.len() <= usize::MAX,
        span@.len() + 2 <= usize::MAX,
    ensures
        s@ == spec_stack_report(span@, items_view(items@), boundaries_view(boundaries@), base as int),
{
    proof {
        reveal_strlit("");
    }
    let ghost iv = items_view(items@);
    let mut s = String::from_str("┌╴").concat(span).concat("\n");
    let ghost head = s@;
    let mut i: usize = 0;
    while i < items.len()
        invariant
            i <= items@.len(),
            base + items@.len() <= usize::MAX,
            iv == items_view(items@),
            s@ == head + items_text(iv, boundaries_view(boundaries@), base as int, i as int),
        decreases items@.len() - i,
    {
        proof {
            reveal_strlit("");
        }
        let ghost start_i = s@;
        let found = find_boundary(boundaries, base + i);
        match found {
            Some(id) => {
                let name = match id {
                    Some(f) => f.to_string(),
                    None => String::new(),
                };
                s.append("│╴╴╴");
                s.append(name.as_str());
                s.append("╶╶╶\n");
            },
            None => {},
        }
        assert(s@ =~= start_i + match boundary_at(boundaries_view(boundaries@), base + i) {
            Some(id) => boundary_marker(id),
            None => ""@,
        });
        let lines = &items[i];
        let n = lines.len();
        let ghost lv = iv[i as int];
        let ghost mid = s@;
        let mut j: usize = 0;
        assert(lv.len() == n);
        assert(s@ =~= mid + traced_lines(lv, 0));
        while j < n
            invariant
                n == lines@.len(),
                j <= n,
                lv == Seq::new(lines@.len(), |k: int| lines@[k]@),
                s@ == mid + traced_lines(lv, j as int),
            decreases n - j,
        {
            let stick = if n == 1 || j == 1 {
                "├╴"
            } else {
                "│ "
            };
            let ghost prev = s@;
            s.append(stick);
            s.append(lines[j].as_str());
            s.append("\n");
            assert(lv[j as int] == lines@[j as int]@);
            j += 1;
            assert(s@ =~= mid + traced_lines(lv, j as int));
        }
        i += 1;
        assert(s@ =~= head + items_text(iv, boundaries_view(boundaries@), base as int, i as int));
    }
    s.append("└");
    let width = span.unicode_len() + 2;
    let mut k: usize = 1;
    let ghost before_line = s@;
    while k < width
        invariant
            1 <= k <= width,
            width == span@.len() + 2,
            s@ == before_line + Seq::new((k - 1) as nat, |m: int| '╴'),
        decreases width - k,
    {
        let ghost prev = s@;
        crate::text::push_char(&mut s, '╴');
        k += 1;
        assert(s@ =~= before_line + Seq::new((k - 1) as nat, |m: int| '╴'));
    }
    s.append("\n");
    assert(s@ =~= spec_stack_report(span@, iv, boundaries_view(boundaries@), base as int));
    s
}

} // verus!
