//! How the outcome of a native call is classified.
//!
//! The registry reports failure out of band: a call that looks something up
//! returns null and leaves a code in the thread's error indicator, and a call
//! that configures something returns a negative code. The functions here take
//! those plain values and say which of the outcomes they stand for.

use libc::c_int;
use vstd::prelude::*;
use vstd::string::*;
use vstd::utf8::*;

verus! {

/// Linux's code for "out of memory", as contracts speak of it.
pub const ENOMEM: c_int = 12;

/// Linux's code for "invalid argument", as contracts speak of it.
pub const EINVAL: c_int = 22;

/// A condition that no caller can recover from.
///
/// A value of this type is a request to end the process: it is handed back
/// instead of ending it here, so that the caller chooses how.
#[derive(Clone, Copy, Debug, PartialEq, Eq, Structural)]
pub enum Fatal {
    /// The registry could not allocate.
    OutOfMemory,
    /// The registry answered with something its interface rules out.
    Bug,
}

/// Why an operation on the registry did not succeed.
#[derive(Clone, Copy, Debug, PartialEq, Eq, Structural)]
pub enum Error {
    /// There is no such item. For a query this is an answer, not a fault.
    NotFound,
    /// The operating system refused, with this code.
    SystemError(c_int),
    /// The process cannot go on.
    Fatal(Fatal),
}

impl Error {
    /// Whether this error asks for the process to end.
    pub fn is_fatal(&self) -> (fatal: bool)
        ensures
            fatal == (*self is Fatal),
    {
        match self {
            Error::Fatal(_) => true,
            _ => false,
        }
    }
}

/// `libc::ENOMEM`. The contract pins it to 12, which is its value on every
/// Linux and Android target that `libc` knows.
#[verifier::external_body]
pub(crate) fn enomem() -> (code: c_int)
    ensures
        code == ENOMEM,
{
    libc::ENOMEM
}

/// `libc::EINVAL`. The contract pins it to 22, which is its value on every
/// Linux and Android target that `libc` knows.
#[verifier::external_body]
pub(crate) fn einval() -> (code: c_int)
    ensures
        code == EINVAL,
{
    libc::EINVAL
}

/// `libc::O_NONBLOCK`, the flag that makes reads and writes on a descriptor
/// return at once. Its value differs from one machine to another, so the
/// contract says nothing of it.
#[verifier::external_body]
pub(crate) fn o_nonblock() -> (flag: c_int) {
    libc::O_NONBLOCK
}

/// Status flags without one of them.
pub open spec fn without(flags: c_int, flag: c_int) -> c_int {
    flags & !flag
}

/// Takes one flag out of status flags.
pub fn clear_flag(flags: c_int, flag: c_int) -> (cleared: c_int)
    ensures
        cleared == without(flags, flag),
{
    flags & !flag
}

/// What a lookup stands for, given the pointer-like `result` it returned and
/// the error indicator `errno` read after it.
///
/// A result that is present wins whatever the indicator holds. An absent
/// result with a clear indicator means that nothing was found.
pub open spec fn classify<I>(result: Option<I>, errno: c_int) -> Result<Option<I>, Error> {
    match result {
        Some(found) => Ok(Some(found)),
        None => if errno == 0 {
            Ok(None)
        } else if errno == ENOMEM {
            Err(Error::Fatal(Fatal::OutOfMemory))
        } else {
            Err(Error::SystemError(errno))
        },
    }
}

/// What a status code stands for: zero is success, the negated
/// out-of-memory code is fatal, and so is every other value, since the calls
/// that answer with a status have no other way to fail.
pub open spec fn status_outcome(err: c_int) -> Result<(), Error> {
    if err == 0 {
        Ok(())
    } else if err == -ENOMEM {
        Err(Error::Fatal(Fatal::OutOfMemory))
    } else {
        Err(Error::Fatal(Fatal::Bug))
    }
}

/// Classifies the status code of a call that configures something.
pub fn handle_error(err: c_int) -> (outcome: Result<(), Error>)
    ensures
        outcome == status_outcome(err),
{
    if err == 0 {
        Ok(())
    } else if err == -enomem() {
        Err(Error::Fatal(Fatal::OutOfMemory))
    } else {
        Err(Error::Fatal(Fatal::Bug))
    }
}

/// Classifies a lookup that hands out something the caller may change.
///
/// `result` is what the call returned, `errno` the error indicator read
/// after it; the indicator has to be cleared before the call is made.
pub fn check_errno_mut<I>(result: Option<I>, errno: c_int) -> (outcome: Result<Option<I>, Error>)
    ensures
        outcome == classify(result, errno),
{
    match result {
        Some(found) => Ok(Some(found)),
        None => {
            if errno == enomem() {
                Err(Error::Fatal(Fatal::OutOfMemory))
            } else if errno == 0 {
                Ok(None)
            } else {
                Err(Error::SystemError(errno))
            }
        },
    }
}

/// Classifies a lookup that hands out something to read.
///
/// `result` is what the call returned, `errno` the error indicator read
/// after it; the indicator has to be cleared before the call is made.
pub fn check_errno<I>(result: Option<I>, errno: c_int) -> (outcome: Result<Option<I>, Error>)
    ensures
        outcome == classify(result, errno),
{
    check_errno_mut(result, errno)
}

/// What a lookup comes to where its caller tells no failure from another:
/// every failure that passes reads as "none", and only the fatal one stays.
pub open spec fn collapsed<I>(result: Option<I>, errno: c_int) -> Result<Option<I>, Fatal> {
    match classify(result, errno) {
        Ok(found) => Ok(found),
        Err(Error::Fatal(fatal)) => Err(fatal),
        Err(_) => Ok(None),
    }
}

/// Classifies a lookup for a caller that tells no failure from another.
///
/// `result` is what the call returned, `errno` the error indicator read
/// after it; the indicator has to be cleared before the call is made.
pub fn collapse<I>(result: Option<I>, errno: c_int) -> (outcome: Result<Option<I>, Fatal>)
    ensures
        outcome == collapsed(result, errno),
{
    match check_errno_mut(result, errno) {
        Ok(found) => Ok(found),
        Err(Error::Fatal(fatal)) => Err(fatal),
        Err(_) => Ok(None),
    }
}

/// Whether two strings hold the same characters.
pub fn str_eq(a: &str, b: &str) -> (same: bool)
    ensures
        same == (a@ == b@),
{
    let x = a.as_bytes();
    let y = b.as_bytes();
    proof {
        encode_utf8_decode_utf8(a@);
        encode_utf8_decode_utf8(b@);
    }
    if x.len() != y.len() {
        return false;
    }
    let mut i: usize = 0;
    while i < x.len()
        invariant
            i <= x.len(),
            x.len() == y.len(),
            x@ == encode_utf8(a@),
            y@ == encode_utf8(b@),
            forall|k: int| 0 <= k < i ==> x@[k] == y@[k],
        decreases x.len() - i,
    {
        if x[i] != y[i] {
            return false;
        }
        i = i + 1;
    }
    assert(x@ =~= y@);
    true
}

} // verus!
