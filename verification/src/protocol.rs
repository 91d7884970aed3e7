//! The creation, step by step: which call comes next, and what follows from
//! the system's reply to it.

use vstd::prelude::*;
use crate::descriptor::{make_fd, made_of, Descriptor, OsError, Reply, FAILED};
use crate::name::ShmName;
use crate::syscall::{
    creating_call, Facility, MemfdFlags, OpenFlags, Syscall, SyscallView, OWNER_ONLY,
};

verus! {

/// Where a creation stands while a call is with the system.
#[derive(Debug, PartialEq, Eq)]
pub enum State {
    /// The facility was asked for a new object. If it was made under a name,
    /// `unlink` is that name.
    Creating { unlink: Option<ShmName> },
    /// The object is there as `fd`, and its name is being unlinked.
    Unlinking { fd: Descriptor },
    /// The name could not be unlinked: the descriptor is being closed, and
    /// `error` is what the unlinking failed with.
    Closing { error: OsError },
}

/// The model of a state.
pub enum StateView {
    Creating { unlink: Option<Seq<u8>> },
    Unlinking { fd: int },
    Closing { error: OsError },
}

impl View for State {
    type V = StateView;

    open spec fn view(&self) -> StateView {
        match *self {
            State::Creating { unlink } => StateView::Creating {
                unlink: match unlink {
                    Some(n) => Some(n@),
                    None => None,
                },
            },
            State::Unlinking { fd } => StateView::Unlinking { fd: fd@ },
            State::Closing { error } => StateView::Closing { error },
        }
    }
}

/// What a creation does next.
#[derive(Debug, PartialEq, Eq)]
pub enum Step {
    /// Perform the call, and come back in this state with the reply.
    Call(State, Syscall),
    /// Done: the descriptor is the caller's.
    Created(Descriptor),
    /// Done: nothing was handed out, and this is why.
    Failed(OsError),
}

/// The model of a step.
pub enum StepView {
    Call(StateView, SyscallView),
    Created(int),
    Failed(OsError),
}

impl View for Step {
    type V = StepView;

    open spec fn view(&self) -> StepView {
        match *self {
            Step::Call(state, call) => StepView::Call(state@, call@),
            Step::Created(fd) => StepView::Created(fd@),
            Step::Failed(error) => StepView::Failed(error),
        }
    }
}

/// The first step of a creation: ask the facility for a new object. Only
/// where the object gets a name is the name kept, to be unlinked.
pub open spec fn first_step(facility: Facility, name: Seq<u8>) -> StepView {
    StepView::Call(
        StateView::Creating {
            unlink: match facility {
                Facility::NamedOpen => Some(name),
                _ => None,
            },
        },
        creating_call(facility, name),
    )
}

/// The step that follows from `reply`, where `state` was waiting for it.
///
/// A failed call ends the creation with the error that came with it, and
/// nothing is tried again. The one thing still done after a failure is to
/// close a descriptor that is there already. A made object is handed out at
/// once, unless it has a name: then the name is unlinked first, and the
/// object is handed out only if that worked.
pub open spec fn next_step(state: StateView, reply: Reply) -> StepView {
    match state {
        StateView::Creating { unlink } => match made_of(reply) {
            Err(error) => StepView::Failed(error),
            Ok(fd) => match unlink {
                None => StepView::Created(fd),
                Some(name) => StepView::Call(
                    StateView::Unlinking { fd },
                    SyscallView::ShmUnlink { name },
                ),
            },
        },
        StateView::Unlinking { fd } => if reply.ret == FAILED {
            StepView::Call(
                StateView::Closing { error: OsError { code: reply.errno } },
                SyscallView::Close { fd },
            )
        } else {
            StepView::Created(fd)
        },
        StateView::Closing { error } => StepView::Failed(error),
    }
}

/// Begins a creation for `name` with the given facility.
pub fn begin(facility: Facility, name: ShmName) -> (r: Step)
    ensures
        r@ == first_step(facility, name@),
{
    match facility {
        Facility::AnonymousFile => Step::Call(
            State::Creating { unlink: None },
            Syscall::MemfdCreate { label: name, flags: MemfdFlags { close_on_exec: true } },
        ),
        Facility::AnonymousOpen => Step::Call(
            State::Creating { unlink: None },
            Syscall::ShmOpenAnon {
                oflag: OpenFlags { create: true, read_write: true, exclusive: true },
                mode: OWNER_ONLY,
            },
        ),
        Facility::NamedOpen => {
            let opened = name.clone();
            Step::Call(
                State::Creating { unlink: Some(name) },
                Syscall::ShmOpen {
                    name: opened,
                    oflag: OpenFlags { create: true, read_write: true, exclusive: true },
                    mode: OWNER_ONLY,
                },
            )
        },
    }
}

/// Takes the system's reply to the call that `state` was waiting for, and
/// says what comes next.
pub fn advance(state: State, reply: Reply) -> (r: Step)
    ensures
        r@ == next_step(state@, reply),
{
    match state {
        State::Creating { unlink } => match make_fd(reply) {
            Err(error) => Step::Failed(error),
            Ok(fd) => match unlink {
                None => Step::Created(fd),
                Some(name) => Step::Call(State::Unlinking { fd }, Syscall::ShmUnlink { name }),
            },
        },
        State::Unlinking { fd } => if reply.ret == FAILED {
            Step::Call(
                State::Closing { error: OsError { code: reply.errno } },
                Syscall::Close { fd },
            )
        } else {
            Step::Created(fd)
        },
        State::Closing { error } => Step::Failed(error),
    }
}

} // verus!
