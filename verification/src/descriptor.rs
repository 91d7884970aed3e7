//! What the system answers to a call, and what is made of the answer.

use vstd::prelude::*;

verus! {

/// The value by which a system call reports that it failed.
pub const FAILED: i32 = -1;

/// The answer to one system call: the value it returned, and the calling
/// thread's error code as it stood right after the call. The code means
/// something only where the call failed.
#[derive(Debug, Clone, Copy, PartialEq, Eq)]
pub struct Reply {
    pub ret: i32,
    pub errno: i32,
}

/// The one kind of failure: a system call failed, and this is the code that
/// the system gave for it.
#[derive(Debug, Clone, Copy, PartialEq, Eq)]
pub struct OsError {
    pub code: i32,
}

/// A descriptor that the system handed out: a returned value that is not the
/// failure value. It is neither copied nor cloned, so whoever holds it is the
/// one to release it or to pass it on.
#[derive(Debug, PartialEq, Eq)]
pub struct Descriptor {
    raw: i32,
}

impl View for Descriptor {
    type V = int;

    closed spec fn view(&self) -> int {
        self.raw as int
    }
}

impl Descriptor {
    #[verifier::type_invariant]
    spec fn well_formed(self) -> bool {
        self.raw != FAILED
    }

    /// The descriptor's number, which is never the failure value.
    pub fn raw(&self) -> (r: i32)
        ensures
            r == self@,
            r != FAILED,
    {
        proof {
            use_type_invariant(self);
        }
        self.raw
    }
}

/// How a creation ends, in the model: with the descriptor's number or with
/// the system's error.
pub type Outcome = Result<int, OsError>;

/// The model of an executable result.
pub open spec fn outcome_of(r: Result<Descriptor, OsError>) -> Outcome {
    match r {
        Ok(fd) => Ok(fd@),
        Err(e) => Err(e),
    }
}

/// What a reply to a creating call amounts to: the failure value gives the
/// error code that came with it, any other value is the new descriptor.
pub open spec fn made_of(reply: Reply) -> Outcome {
    if reply.ret == FAILED {
        Err(OsError { code: reply.errno })
    } else {
        Ok(reply.ret as int)
    }
}

/// Turns the reply to a creating call into a descriptor or an error.
///
/// Only a value that is not the failure value becomes a descriptor, so
/// ownership is never taken of the failure value.
pub fn make_fd(reply: Reply) -> (r: Result<Descriptor, OsError>)
    ensures
        outcome_of(r) == made_of(reply),
{
    if reply.ret == FAILED {
        Err(OsError { code: reply.errno })
    } else {
        Ok(Descriptor { raw: reply.ret })
    }
}

} // verus!
