//! Anonymous shared memory, decided here and performed elsewhere.
//!
//! Creating an anonymous, memory-backed file takes one to three system
//! calls, and which ones depends on what the target offers. This crate holds
//! every decision of that procedure and makes none of the calls itself: it
//! says which call comes next, reads what the system answered, and ends with
//! a descriptor or with the system's error.
//!
//! [`create_shmem`] is the whole procedure, over a function that performs
//! one call and reports the reply. [`begin`] and [`advance`] are its single
//! steps, for a caller that runs the loop itself. The module [`run`] says
//! what a creation does over any replies, and proves what holds of all of
//! them: when a descriptor is handed out, that no name is left behind, that
//! a descriptor is never lost.

pub mod create;
pub mod descriptor;
pub mod name;
pub mod protocol;
pub mod run;
pub mod syscall;

pub use crate::create::create_shmem;
pub use crate::descriptor::{make_fd, Descriptor, OsError, Reply, FAILED};
pub use crate::name::ShmName;
pub use crate::protocol::{advance, begin, State, StateView, Step, StepView};
pub use crate::syscall::{
    Facility, MemfdFlags, OpenFlags, Platform, Syscall, SyscallView, OWNER_ONLY,
};
