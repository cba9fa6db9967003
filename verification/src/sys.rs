//! System functions and handles
use vstd::prelude::*;

use crate::text::decimal;
use crate::text::decimal_string;
use crate::value::Value;
use crate::utf8::{is_valid_utf8, valid_utf8_prefix};
use crate::{Purity, Signature};

verus! {

/// Categories of system functions
#[derive(Debug, Clone, Copy, PartialEq, Eq, Structural)]
pub enum SysOpClass {
    Filesystem,
    StdIO,
    Env,
    Stream,
    Command,
    Media,
    Tcp,
    Ffi,
    Misc,
}

impl SysOpClass {
    /// Every system function class, in declaration order
    pub open spec fn spec_all() -> Seq<SysOpClass> {
        seq![
            SysOpClass::Filesystem,
            SysOpClass::StdIO,
            SysOpClass::Env,
            SysOpClass::Stream,
            SysOpClass::Command,
            SysOpClass::Media,
            SysOpClass::Tcp,
            SysOpClass::Ffi,
            SysOpClass::Misc,
        ]
    }

    /// All system function classes
    pub fn all() -> (v: Vec<SysOpClass>)
        ensures
            v@ == Self::spec_all(),
    {
        let v = vec![
            SysOpClass::Filesystem,
            SysOpClass::StdIO,
            SysOpClass::Env,
            SysOpClass::Stream,
            SysOpClass::Command,
            SysOpClass::Media,
            SysOpClass::Tcp,
            SysOpClass::Ffi,
            SysOpClass::Misc,
        ];
        assert(v@ =~= Self::spec_all());
        v
    }
}

/// A system function
#[derive(Debug, Clone, Copy, PartialEq, Eq, Structural)]
pub enum SysOp {
    Exit,
    Sleep,
    ReadStr,
    ReadBytes,
    ReadUntil,
    ReadLines,
    Write,
    Close,
    FOpen,
    FCreate,
    FMakeDir,
    FDelete,
    FTrash,
    FExists,
    FListDir,
    FIsFile,
    FReadAllStr,
    FReadAllBytes,
    FWriteAll,
}

impl SysOp {
    /// The short name of the system function
    pub open spec fn spec_name(self) -> Seq<char> {
        match self {
            SysOp::Exit => "&exit"@,
            SysOp::Sleep => "&sl"@,
            SysOp::ReadStr => "&rs"@,
            SysOp::ReadBytes => "&rb"@,
            SysOp::ReadUntil => "&ru"@,
            SysOp::ReadLines => "&rl"@,
            SysOp::Write => "&w"@,
            SysOp::Close => "&cl"@,
            SysOp::FOpen => "&fo"@,
            SysOp::FCreate => "&fc"@,
            SysOp::FMakeDir => "&fmd"@,
            SysOp::FDelete => "&fde"@,
            SysOp::FTrash => "&ftr"@,
            SysOp::FExists => "&fe"@,
            SysOp::FListDir => "&fld"@,
            SysOp::FIsFile => "&fif"@,
            SysOp::FReadAllStr => "&fras"@,
            SysOp::FReadAllBytes => "&frab"@,
            SysOp::FWriteAll => "&fwa"@,
        }
    }

    /// The long name of the system function
    pub open spec fn spec_long_name(self) -> Seq<char> {
        match self {
            SysOp::Exit => "exit"@,
            SysOp::Sleep => "sleep"@,
            SysOp::ReadStr => "read to string"@,
            SysOp::ReadBytes => "read to bytes"@,
            SysOp::ReadUntil => "read until"@,
            SysOp::ReadLines => "read lines"@,
            SysOp::Write => "write"@,
            SysOp::Close => "close handle"@,
            SysOp::FOpen => "file - open"@,
            SysOp::FCreate => "file - create"@,
            SysOp::FMakeDir => "file - make directory"@,
            SysOp::FDelete => "file - delete"@,
            SysOp::FTrash => "file - trash"@,
            SysOp::FExists => "file - exists"@,
            SysOp::FListDir => "file - list directory"@,
            SysOp::FIsFile => "file - is file"@,
            SysOp::FReadAllStr => "file - read all to string"@,
            SysOp::FReadAllBytes => "file - read all to bytes"@,
            SysOp::FWriteAll => "file - write all"@,
        }
    }

    /// The number of arguments the system function expects
    pub open spec fn spec_args(self) -> usize {
        match self {
            SysOp::Exit => 1,
            SysOp::Sleep => 1,
            SysOp::ReadStr => 2,
            SysOp::ReadBytes => 2,
            SysOp::ReadUntil => 2,
            SysOp::ReadLines => 1,
            SysOp::Write => 2,
            SysOp::Close => 1,
            SysOp::FOpen => 1,
            SysOp::FCreate => 1,
            SysOp::FMakeDir => 1,
            SysOp::FDelete => 1,
            SysOp::FTrash => 1,
            SysOp::FExists => 1,
            SysOp::FListDir => 1,
            SysOp::FIsFile => 1,
            SysOp::FReadAllStr => 1,
            SysOp::FReadAllBytes => 1,
            SysOp::FWriteAll => 2,
        }
    }

    /// The number of function arguments, for a system modifier
    pub open spec fn spec_modifier_args(self) -> Option<usize> {
        match self {
            SysOp::Exit => None,
            SysOp::Sleep => None,
            SysOp::ReadStr => None,
            SysOp::ReadBytes => None,
            SysOp::ReadUntil => None,
            SysOp::ReadLines => Some(1),
            SysOp::Write => None,
            SysOp::Close => None,
            SysOp::FOpen => None,
            SysOp::FCreate => None,
            SysOp::FMakeDir => None,
            SysOp::FDelete => None,
            SysOp::FTrash => None,
            SysOp::FExists => None,
            SysOp::FListDir => None,
            SysOp::FIsFile => None,
            SysOp::FReadAllStr => None,
            SysOp::FReadAllBytes => None,
            SysOp::FWriteAll => None,
        }
    }

    /// The number of outputs the system function returns
    pub open spec fn spec_outputs(self) -> usize {
        match self {
            SysOp::Exit => 0,
            SysOp::Sleep => 0,
            SysOp::ReadStr => 1,
            SysOp::ReadBytes => 1,
            SysOp::ReadUntil => 1,
            SysOp::ReadLines => 1,
            SysOp::Write => 0,
            SysOp::Close => 0,
            SysOp::FOpen => 1,
            SysOp::FCreate => 1,
            SysOp::FMakeDir => 0,
            SysOp::FDelete => 0,
            SysOp::FTrash => 0,
            SysOp::FExists => 1,
            SysOp::FListDir => 1,
            SysOp::FIsFile => 1,
            SysOp::FReadAllStr => 1,
            SysOp::FReadAllBytes => 1,
            SysOp::FWriteAll => 0,
        }
    }

    /// The category of the system function
    pub open spec fn spec_class(self) -> SysOpClass {
        match self {
            SysOp::Exit => SysOpClass::Misc,
            SysOp::Sleep => SysOpClass::Misc,
            SysOp::ReadStr => SysOpClass::Stream,
            SysOp::ReadBytes => SysOpClass::Stream,
            SysOp::ReadUntil => SysOpClass::Stream,
            SysOp::ReadLines => SysOpClass::Stream,
            SysOp::Write => SysOpClass::Stream,
            SysOp::Close => SysOpClass::Stream,
            SysOp::FOpen => SysOpClass::Filesystem,
            SysOp::FCreate => SysOpClass::Filesystem,
            SysOp::FMakeDir => SysOpClass::Filesystem,
            SysOp::FDelete => SysOpClass::Filesystem,
            SysOp::FTrash => SysOpClass::Filesystem,
            SysOp::FExists => SysOpClass::Filesystem,
            SysOp::FListDir => SysOpClass::Filesystem,
            SysOp::FIsFile => SysOpClass::Filesystem,
            SysOp::FReadAllStr => SysOpClass::Filesystem,
            SysOp::FReadAllBytes => SysOpClass::Filesystem,
            SysOp::FWriteAll => SysOpClass::Filesystem,
        }
    }

    /// The purity of the system function
    pub open spec fn spec_purity(self) -> Purity {
        match self {
            SysOp::Exit => Purity::Mutating,
            SysOp::Sleep => Purity::Mutating,
            SysOp::ReadStr => Purity::Mutating,
            SysOp::ReadBytes => Purity::Mutating,
            SysOp::ReadUntil => Purity::Mutating,
            SysOp::ReadLines => Purity::Mutating,
            SysOp::Write => Purity::Mutating,
            SysOp::Close => Purity::Mutating,
            SysOp::FOpen => Purity::Impure,
            SysOp::FCreate => Purity::Mutating,
            SysOp::FMakeDir => Purity::Mutating,
            SysOp::FDelete => Purity::Mutating,
            SysOp::FTrash => Purity::Mutating,
            SysOp::FExists => Purity::Impure,
            SysOp::FListDir => Purity::Impure,
            SysOp::FIsFile => Purity::Impure,
            SysOp::FReadAllStr => Purity::Impure,
            SysOp::FReadAllBytes => Purity::Impure,
            SysOp::FWriteAll => Purity::Mutating,
        }
    }

    /// Every system function, in declaration order
    pub open spec fn spec_all() -> Seq<SysOp> {
        seq![SysOp::Exit, SysOp::Sleep, SysOp::ReadStr, SysOp::ReadBytes, SysOp::ReadUntil, SysOp::ReadLines, SysOp::Write, SysOp::Close, SysOp::FOpen, SysOp::FCreate, SysOp::FMakeDir, SysOp::FDelete, SysOp::FTrash, SysOp::FExists, SysOp::FListDir, SysOp::FIsFile, SysOp::FReadAllStr, SysOp::FReadAllBytes, SysOp::FWriteAll]
    }

    /// Every system function, in declaration order
    pub fn all() -> (v: Vec<SysOp>)
        ensures
            v@ == Self::spec_all(),
    {
        let v = vec![SysOp::Exit, SysOp::Sleep, SysOp::ReadStr, SysOp::ReadBytes, SysOp::ReadUntil, SysOp::ReadLines, SysOp::Write, SysOp::Close, SysOp::FOpen, SysOp::FCreate, SysOp::FMakeDir, SysOp::FDelete, SysOp::FTrash, SysOp::FExists, SysOp::FListDir, SysOp::FIsFile, SysOp::FReadAllStr, SysOp::FReadAllBytes, SysOp::FWriteAll];
        assert(v@ =~= Self::spec_all());
        v
    }

    /// Get the system function's short name
    pub fn name(&self) -> (r: &'static str)
        ensures
            r@ == self.spec_name(),
    {
        match self {
            SysOp::Exit => "&exit",
            SysOp::Sleep => "&sl",
            SysOp::ReadStr => "&rs",
            SysOp::ReadBytes => "&rb",
            SysOp::ReadUntil => "&ru",
            SysOp::ReadLines => "&rl",
            SysOp::Write => "&w",
            SysOp::Close => "&cl",
            SysOp::FOpen => "&fo",
            SysOp::FCreate => "&fc",
            SysOp::FMakeDir => "&fmd",
            SysOp::FDelete => "&fde",
            SysOp::FTrash => "&ftr",
            SysOp::FExists => "&fe",
            SysOp::FListDir => "&fld",
            SysOp::FIsFile => "&fif",
            SysOp::FReadAllStr => "&fras",
            SysOp::FReadAllBytes => "&frab",
            SysOp::FWriteAll => "&fwa",
        }
    }

    /// Get the system function's long name
    pub fn long_name(&self) -> (r: &'static str)
        ensures
            r@ == self.spec_long_name(),
    {
        match self {
            SysOp::Exit => "exit",
            SysOp::Sleep => "sleep",
            SysOp::ReadStr => "read to string",
            SysOp::ReadBytes => "read to bytes",
            SysOp::ReadUntil => "read until",
            SysOp::ReadLines => "read lines",
            SysOp::Write => "write",
            SysOp::Close => "close handle",
            SysOp::FOpen => "file - open",
            SysOp::FCreate => "file - create",
            SysOp::FMakeDir => "file - make directory",
            SysOp::FDelete => "file - delete",
            SysOp::FTrash => "file - trash",
            SysOp::FExists => "file - exists",
            SysOp::FListDir => "file - list directory",
            SysOp::FIsFile => "file - is file",
            SysOp::FReadAllStr => "file - read all to string",
            SysOp::FReadAllBytes => "file - read all to bytes",
            SysOp::FWriteAll => "file - write all",
        }
    }

    /// Get the number of arguments the system function expects
    pub fn args(&self) -> (r: usize)
        ensures
            r == self.spec_args(),
    {
        match self {
            SysOp::Exit => 1,
            SysOp::Sleep => 1,
            SysOp::ReadStr => 2,
            SysOp::ReadBytes => 2,
            SysOp::ReadUntil => 2,
            SysOp::ReadLines => 1,
            SysOp::Write => 2,
            SysOp::Close => 1,
            SysOp::FOpen => 1,
            SysOp::FCreate => 1,
            SysOp::FMakeDir => 1,
            SysOp::FDelete => 1,
            SysOp::FTrash => 1,
            SysOp::FExists => 1,
            SysOp::FListDir => 1,
            SysOp::FIsFile => 1,
            SysOp::FReadAllStr => 1,
            SysOp::FReadAllBytes => 1,
            SysOp::FWriteAll => 2,
        }
    }

    /// Get the number of function arguments the system function expects if it is a modifier
    pub fn modifier_args(&self) -> (r: Option<usize>)
        ensures
            r == self.spec_modifier_args(),
    {
        match self {
            SysOp::ReadLines => Some(1),
            _ => None,
        }
    }

    /// Get the number of outputs the system function returns
    pub fn outputs(&self) -> (r: usize)
        ensures
            r == self.spec_outputs(),
    {
        match self {
            SysOp::Exit => 0,
            SysOp::Sleep => 0,
            SysOp::Write => 0,
            SysOp::Close => 0,
            SysOp::FMakeDir => 0,
            SysOp::FDelete => 0,
            SysOp::FTrash => 0,
            SysOp::FWriteAll => 0,
            _ => 1,
        }
    }

    /// Get the system function's class
    pub fn class(&self) -> (r: SysOpClass)
        ensures
            r == self.spec_class(),
    {
        match self {
            SysOp::Exit => SysOpClass::Misc,
            SysOp::Sleep => SysOpClass::Misc,
            SysOp::ReadStr => SysOpClass::Stream,
            SysOp::ReadBytes => SysOpClass::Stream,
            SysOp::ReadUntil => SysOpClass::Stream,
            SysOp::ReadLines => SysOpClass::Stream,
            SysOp::Write => SysOpClass::Stream,
            SysOp::Close => SysOpClass::Stream,
            SysOp::FOpen => SysOpClass::Filesystem,
            SysOp::FCreate => SysOpClass::Filesystem,
            SysOp::FMakeDir => SysOpClass::Filesystem,
            SysOp::FDelete => SysOpClass::Filesystem,
            SysOp::FTrash => SysOpClass::Filesystem,
            SysOp::FExists => SysOpClass::Filesystem,
            SysOp::FListDir => SysOpClass::Filesystem,
            SysOp::FIsFile => SysOpClass::Filesystem,
            SysOp::FReadAllStr => SysOpClass::Filesystem,
            SysOp::FReadAllBytes => SysOpClass::Filesystem,
            SysOp::FWriteAll => SysOpClass::Filesystem,
        }
    }

    /// Whether the system function is pure
    pub fn purity(&self) -> (r: Purity)
        ensures
            r == self.spec_purity(),
    {
        match self {
            SysOp::Exit => Purity::Mutating,
            SysOp::Sleep => Purity::Mutating,
            SysOp::ReadStr => Purity::Mutating,
            SysOp::ReadBytes => Purity::Mutating,
            SysOp::ReadUntil => Purity::Mutating,
            SysOp::ReadLines => Purity::Mutating,
            SysOp::Write => Purity::Mutating,
            SysOp::Close => Purity::Mutating,
            SysOp::FCreate => Purity::Mutating,
            SysOp::FMakeDir => Purity::Mutating,
            SysOp::FDelete => Purity::Mutating,
            SysOp::FTrash => Purity::Mutating,
            SysOp::FWriteAll => Purity::Mutating,
            _ => Purity::Impure,
        }
    }
}

/// A handle to an IO stream
///
/// 0 is stdin, 1 is stdout, 2 is stderr.
///
/// Other handles can be used by files or sockets.
#[derive(Debug, Clone, Copy, PartialEq, Eq, Structural)]
pub struct Handle(pub u64);

impl Handle {
    /// The number of the standard input handle
    pub const STDIN_ID: u64 = 0;
    /// The number of the standard output handle
    pub const STDOUT_ID: u64 = 1;
    /// The number of the standard error handle
    pub const STDERR_ID: u64 = 2;

    /// The first handle that can be used by the user
    pub fn first_unreserved() -> (h: Handle)
        ensures
            h.0 == 3,
    {
        Handle(3)
    }
}

impl From<usize> for Handle {
    fn from(n: usize) -> (h: Self) {
        Handle(n as u64)
    }
}

impl vstd::std_specs::convert::FromSpecImpl<usize> for Handle {
    open spec fn obeys_from_spec() -> bool {
        true
    }

    open spec fn from_spec(n: usize) -> Handle {
        Handle(n as u64)
    }
}

/// The kind of a handle
#[derive(Debug, Clone, PartialEq, Eq)]
pub enum HandleKind {
    File(String),
    ChildStdin(String),
    ChildStdout(String),
    ChildStderr(String),
}

impl HandleKind {
    /// The text that describes the handle kind
    pub open spec fn spec_text(&self) -> Seq<char> {
        match self {
            HandleKind::File(path) => "file "@ + path@,
            HandleKind::ChildStdin(com) => "stdin "@ + com@,
            HandleKind::ChildStdout(com) => "stdout "@ + com@,
            HandleKind::ChildStderr(com) => "stderr "@ + com@,
        }
    }

    /// Describe the handle kind, as its display form does
    pub fn to_text(&self) -> (s: String)
        ensures
            s@ == self.spec_text(),
    {
        match self {
            HandleKind::File(path) => String::from_str("file ").concat(path.as_str()),
            HandleKind::ChildStdin(com) => String::from_str("stdin ").concat(com.as_str()),
            HandleKind::ChildStdout(com) => String::from_str("stdout ").concat(com.as_str()),
            HandleKind::ChildStderr(com) => String::from_str("stderr ").concat(com.as_str()),
        }
    }
}

/// A target to load a git module from
#[derive(Debug, Clone)]
pub enum GitTarget {
    Default,
    Branch(String),
    Commit(String),
}

impl Default for GitTarget {
    fn default() -> (t: Self)
        ensures
            t is Default,
    {
        GitTarget::Default
    }
}

/// A system backend that performs no real input or output
pub struct SafeSys {}

impl SafeSys {
    /// Create a new safe backend
    pub fn new() -> (s: Self) {
        SafeSys {}
    }
}


/// The size of the terminal, where it is known; here it never is
pub fn terminal_size() -> (r: Option<(usize, usize)>)
    ensures
        r is None,
{
    None
}

/// Whether a sequence ends with another
pub open spec fn ends_with(s: Seq<u8>, end: Seq<u8>) -> bool {
    end.len() <= s.len() && s.subrange(s.len() - end.len(), s.len() as int) == end
}

/// One step of reading a stream up to a delimiter: append what was read, and say whether to
/// stop, which is when nothing was read or the buffer now ends with the delimiter
pub fn read_until_step(buffer: &mut Vec<u8>, bytes: &[u8], delim: &[u8]) -> (done: bool)
    ensures
        bytes@.len() == 0 ==> final(buffer)@ == old(buffer)@ && done,
        bytes@.len() > 0 ==> final(buffer)@ == old(buffer)@ + bytes@ && done == ends_with(
            final(buffer)@,
            delim@,
        ),
{
    if bytes.len() == 0 {
        return true;
    }
    let ghost start = buffer@;
    let mut i: usize = 0;
    while i < bytes.len()
        invariant
            i <= bytes@.len(),
            start == old(buffer)@,
            buffer@ == start + bytes@.take(i as int),
        decreases bytes@.len() - i,
    {
        buffer.push(bytes[i]);
        i += 1;
        assert(buffer@ =~= start + bytes@.take(i as int));
    }
    assert(bytes@.take(bytes@.len() as int) =~= bytes@);
    let n = buffer.len();
    let d = delim.len();
    if d > n {
        return false;
    }
    let mut k: usize = 0;
    while k < d
        invariant
            d == delim@.len(),
            n == buffer@.len(),
            d <= n,
            k <= d,
            buffer@ == start + bytes@,
            start == old(buffer)@,
            bytes@.len() > 0,
            forall|m: int| 0 <= m < k ==> buffer@[n - d + m] == delim@[m],
        decreases d - k,
    {
        if buffer[n - d + k] != delim[k] {
            assert(buffer@.subrange(n - d, n as int)[k as int] != delim@[k as int]);
            assert(buffer@.subrange(n - d, n as int) != delim@);
            assert(buffer@.len() - delim@.len() == n - d);
            assert(!ends_with(buffer@, delim@));
            return false;
        }
        k += 1;
    }
    assert(buffer@.subrange(n - d, n as int) =~= delim@);
    true
}


/// The value in the box of a scalar array of boxes
pub open spec fn boxed_scalar(b: &crate::value::Array<crate::value::Boxed>) -> &Value {
    &*b.data@[0].0
}

/// The message for a value that is not a handle: the given one, or a default where it is empty
pub open spec fn handle_message(expected: Seq<char>) -> Seq<char> {
    if expected.len() == 0 {
        "Expected value to be a stream handle"@
    } else {
        expected
    }
}

/// Read a value as a stream handle: a boxed scalar is read by what it holds, a boxed array of
/// another rank is refused with its rank, and any other value is read as a natural number;
/// reading a natural number is given
pub fn as_handle<F: Fn(&Value, &str) -> Result<usize, String>>(value: &Value, expected: &str, as_nat: F) -> (r:
    Result<Handle, String>)
    requires
        value matches Value::Box(b) ==> b.spec_wf(),
        forall|v: &Value, m: &str| as_nat.requires((v, m)),
    ensures
        value matches Value::Box(b) ==> (b.shape@.len() == 0 ==> match r {
            Ok(h) => exists|n: usize, m: &str|
                m@ == handle_message(expected@) && as_nat.ensures((boxed_scalar(b), m), Ok(n))
                    && h.0 == n,
            Err(e) => exists|m: &str|
                m@ == handle_message(expected@) && as_nat.ensures((boxed_scalar(b), m), Err(e)),
        }),
        value matches Value::Box(b) ==> (b.shape@.len() != 0 ==> (r matches Err(e) && e@
            == handle_message(expected@) + ", but it is rank "@ + decimal(b.shape@.len()))),
        !(*value is Box) ==> match r {
            Ok(h) => exists|n: usize, m: &str|
                m@ == handle_message(expected@) && as_nat.ensures((value, m), Ok(n)) && h.0 == n,
            Err(e) => exists|m: &str|
                m@ == handle_message(expected@) && as_nat.ensures((value, m), Err(e)),
        },
{
    let ghost old_expected = expected;
    let expected = if expected.unicode_len() == 0 {
        "Expected value to be a stream handle"
    } else {
        expected
    };
    proof {
        reveal_strlit("Expected value to be a stream handle");
    }
    match value {
        Value::Box(b) => {
            if b.shape.len() == 0 {
                proof {
                    crate::table::lemma_product_empty(b.shape@);
                }
                let inner: &Value = &*b.data[0].0;
                let res = as_nat(inner, expected);
                assert(expected@ == handle_message(old_expected@));
                match res {
                    Ok(n) => {
                        assert(as_nat.ensures((boxed_scalar(b), expected), Ok(n)));
                        let h = Handle(n as u64);
                        assert(exists|k: usize, m: &str|
                            m@ == handle_message(old_expected@) && as_nat.ensures(
                                (boxed_scalar(b), m),
                                Ok(k),
                            ) && h.0 == k);
                        Ok(h)
                    },
                    Err(e) => {
                        assert(as_nat.ensures((boxed_scalar(b), expected), Err(e)));
                        assert(exists|m: &str|
                            m@ == handle_message(old_expected@) && as_nat.ensures(
                                (boxed_scalar(b), m),
                                Err(e),
                            ));
                        Err(e)
                    },
                }
            } else {
                assert(expected@ == handle_message(old_expected@));
                Err(String::from_str(expected).concat(", but it is rank ").concat(
                    decimal_string(b.shape.len()).as_str(),
                ))
            }
        },
        _ => {
            let res = as_nat(value, expected);
            assert(expected@ == handle_message(old_expected@));
            match res {
                Ok(n) => {
                    assert(as_nat.ensures((value, expected), Ok(n)));
                    Ok(Handle(n as u64))
                },
                Err(e) => {
                    assert(as_nat.ensures((value, expected), Err(e)));
                    Err(e)
                },
            }
        },
    }
}


/// Where writing to a handle goes
#[derive(Debug, Clone, Copy, PartialEq, Eq, Structural)]
pub enum WriteTarget {
    /// The standard output, as text
    Stdout,
    /// The standard error, as text
    Stderr,
    /// The standard input, which cannot be written to
    Stdin,
    /// Any other stream, as bytes
    Stream,
}

/// Where writing to a handle goes: the standard streams by their numbers, any other handle
/// to its stream
pub open spec fn spec_write_target(h: Handle) -> WriteTarget {
    if h.0 == Handle::STDOUT_ID {
        WriteTarget::Stdout
    } else if h.0 == Handle::STDERR_ID {
        WriteTarget::Stderr
    } else if h.0 == Handle::STDIN_ID {
        WriteTarget::Stdin
    } else {
        WriteTarget::Stream
    }
}

/// Decide where writing to a handle goes
pub fn write_target(h: Handle) -> (r: WriteTarget)
    ensures
        r == spec_write_target(h),
{
    if h.0 == Handle::STDOUT_ID {
        WriteTarget::Stdout
    } else if h.0 == Handle::STDERR_ID {
        WriteTarget::Stderr
    } else if h.0 == Handle::STDIN_ID {
        WriteTarget::Stdin
    } else {
        WriteTarget::Stream
    }
}

/// Whether a handle can be read from as a stream: the standard streams cannot
pub fn is_stream_handle(h: Handle) -> (r: bool)
    ensures
        r == (h.0 != Handle::STDIN_ID && h.0 != Handle::STDOUT_ID && h.0 != Handle::STDERR_ID),
{
    h.0 != Handle::STDIN_ID && h.0 != Handle::STDOUT_ID && h.0 != Handle::STDERR_ID
}

/// The UTF-8 encoding of some characters
pub fn utf8_bytes(chars: &Vec<char>) -> (r: Vec<u8>)
    ensures
        r@ == vstd::utf8::encode_utf8(chars@),
{
    let s = crate::scan::string_of(chars);
    let bytes = s.as_str().as_bytes();
    let mut r: Vec<u8> = Vec::new();
    let mut i: usize = 0;
    while i < bytes.len()
        invariant
            i <= bytes@.len(),
            r@ == bytes@.take(i as int),
        decreases bytes@.len() - i,
    {
        r.push(bytes[i]);
        i += 1;
        assert(r@ =~= bytes@.take(i as int));
    }
    assert(bytes@.take(bytes@.len() as int) =~= bytes@);
    r
}

/// Split bytes that were read into their longest valid UTF-8 prefix and the rest
pub fn split_valid_utf8(bytes: Vec<u8>) -> (r: (Vec<u8>, Vec<u8>))
    ensures
        r.0@ + r.1@ == bytes@,
        vstd::utf8::valid_utf8(r.0@),
        forall|j: int| r.0@.len() < j <= bytes@.len() ==> !vstd::utf8::valid_utf8(
            #[trigger] bytes@.take(j),
        ),
{
    let n = valid_utf8_prefix(bytes.as_slice());
    let mut valid: Vec<u8> = Vec::new();
    let mut rest: Vec<u8> = Vec::new();
    let mut i: usize = 0;
    while i < bytes.len()
        invariant
            n <= bytes@.len(),
            i <= bytes@.len(),
            i <= n ==> valid@ == bytes@.take(i as int) && rest@.len() == 0,
            i > n ==> valid@ == bytes@.take(n as int) && rest@ == bytes@.subrange(n as int, i as int),
        decreases bytes@.len() - i,
    {
        if i < n {
            valid.push(bytes[i]);
        } else {
            rest.push(bytes[i]);
        }
        i += 1;
        assert(i <= n ==> valid@ =~= bytes@.take(i as int));
        assert(i > n ==> rest@ =~= bytes@.subrange(n as int, i as int));
    }
    assert(valid@ + rest@ =~= bytes@);
    (valid, rest)
}

/// One step of completing a character that was cut off: add a byte that was read to the cut
/// off bytes, and where they are now valid UTF-8, move them onto the text; say whether they were
pub fn complete_utf8_step(text: &mut Vec<u8>, rest: &mut Vec<u8>, more: &[u8]) -> (done: bool)
    ensures
        done == vstd::utf8::valid_utf8(old(rest)@ + more@),
        done ==> final(text)@ == old(text)@ + old(rest)@ + more@,
        !done ==> final(text)@ == old(text)@ && final(rest)@ == old(rest)@ + more@,
{
    let ghost start = rest@;
    let mut i: usize = 0;
    while i < more.len()
        invariant
            i <= more@.len(),
            rest@ == start + more@.take(i as int),
            text@ == old(text)@,
            start == old(rest)@,
        decreases more@.len() - i,
    {
        rest.push(more[i]);
        i += 1;
        assert(rest@ =~= start + more@.take(i as int));
    }
    assert(more@.take(more@.len() as int) =~= more@);
    if is_valid_utf8(rest.as_slice()) {
        let ghost before = text@;
        let mut k: usize = 0;
        while k < rest.len()
            invariant
                k <= rest@.len(),
                text@ == before + rest@.take(k as int),
            decreases rest@.len() - k,
        {
            text.push(rest[k]);
            k += 1;
            assert(text@ =~= before + rest@.take(k as int));
        }
        assert(rest@.take(rest@.len() as int) =~= rest@);
        assert(text@ =~= old(text)@ + old(rest)@ + more@);
        true
    } else {
        false
    }
}

/// How many outputs of the function that reads lines collect a row for each line, or `None`
/// where the function takes no arguments and is run once: the arguments after the line are
/// accumulators, and as many outputs as there are accumulators carry them on
pub open spec fn spec_read_lines_outputs(sig: Signature) -> Option<nat> {
    if sig.args == 0 {
        None
    } else if sig.outputs >= sig.args - 1 {
        Some((sig.outputs - (sig.args - 1)) as nat)
    } else {
        Some(0)
    }
}

/// Decide how many outputs of the function that reads lines collect a row for each line
pub fn read_lines_outputs(sig: Signature) -> (r: Option<usize>)
    ensures
        match r {
            Some(n) => spec_read_lines_outputs(sig) == Some(n as nat),
            None => spec_read_lines_outputs(sig) is None,
        },
{
    if sig.args == 0 {
        return None;
    }
    let acc_count = sig.args - 1;
    Some(sig.outputs.saturating_sub(acc_count))
}

/// The message for a delimiter that is not a list of bytes or characters
pub open spec fn spec_delimiter_error(delim: &Value) -> Option<Seq<char>> {
    if crate::table::spec_rank(delim) > 1 {
        Some("Delimiter must be a rank 0 or 1 string or byte array"@)
    } else if *delim is Box {
        Some("Delimiter must be a string or byte array"@)
    } else {
        None
    }
}

/// Check that a delimiter is a scalar or a list of numbers, bytes or characters
pub fn delimiter_error(delim: &Value) -> (r: Option<&'static str>)
    ensures
        match r {
            Some(m) => spec_delimiter_error(delim) == Some(m@),
            None => spec_delimiter_error(delim) is None,
        },
{
    if crate::table::rank(delim) > 1 {
        Some("Delimiter must be a rank 0 or 1 string or byte array")
    } else {
        match delim {
            Value::Box(_) => Some("Delimiter must be a string or byte array"),
            _ => None,
        }
    }
}

} // verus!
