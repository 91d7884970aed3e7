//! The creation as one function, over whatever performs the system calls.

use vstd::prelude::*;
use crate::descriptor::{outcome_of, Descriptor, OsError, Reply};
use crate::name::ShmName;
use crate::protocol::{advance, begin, first_step, next_step, StateView, Step, StepView};
use crate::run::{lemma_created_iff_system_succeeds, run, run_from, system_succeeds, Run};
use crate::syscall::{Facility, Syscall, SyscallView};

verus! {

/// The models of `calls`, one for one.
pub open spec fn views(calls: Seq<Syscall>) -> Seq<SyscallView> {
    Seq::new(calls.len(), |i: int| calls[i]@)
}

/// Whether `replies` are answers that `os` gave to `calls`, one for one.
pub open spec fn answered<F: Fn(&Syscall) -> Reply>(
    os: F,
    calls: Seq<Syscall>,
    replies: Seq<Reply>,
) -> bool {
    &&& calls.len() == replies.len()
    &&& forall|i: int|
        0 <= i < calls.len() ==> call_ensures(os, (&#[trigger] calls[i],), replies[i])
}

/// How many more calls a creation can make, at most.
spec fn calls_left(step: StepView) -> nat {
    match step {
        StepView::Call(StateView::Creating { .. }, _) => 3,
        StepView::Call(StateView::Unlinking { .. }, _) => 2,
        StepView::Call(StateView::Closing { .. }, _) => 1,
        _ => 0,
    }
}

/// Whether a creation that has made `calls`, got `replies` to them and now
/// stands at `step` is on its course: whatever replies follow, the whole
/// course is what it did so far and then the course from `step` on.
spec fn on_course(
    facility: Facility,
    name: Seq<u8>,
    calls: Seq<SyscallView>,
    replies: Seq<Reply>,
    step: StepView,
) -> bool {
    forall|rest: Seq<Reply>| #[trigger]
        run(facility, name, replies + rest) == (Run {
            calls: calls + run_from(step, rest).calls,
            end: run_from(step, rest).end,
        })
}

proof fn lemma_course_begins(facility: Facility, name: Seq<u8>)
    ensures
        on_course(facility, name, Seq::empty(), Seq::empty(), first_step(facility, name)),
{
    let step = first_step(facility, name);
    assert forall|rest: Seq<Reply>| #[trigger]
        run(facility, name, Seq::<Reply>::empty() + rest) == (Run {
            calls: Seq::<SyscallView>::empty() + run_from(step, rest).calls,
            end: run_from(step, rest).end,
        }) by {
        assert(Seq::<Reply>::empty() + rest =~= rest);
        assert(Seq::<SyscallView>::empty() + run_from(step, rest).calls =~= run_from(
            step,
            rest,
        ).calls);
    }
}

proof fn lemma_course_goes_on(
    facility: Facility,
    name: Seq<u8>,
    calls: Seq<SyscallView>,
    replies: Seq<Reply>,
    state: StateView,
    call: SyscallView,
    reply: Reply,
)
    requires
        on_course(facility, name, calls, replies, StepView::Call(state, call)),
    ensures
        on_course(facility, name, calls.push(call), replies.push(reply), next_step(state, reply)),
{
    let step = StepView::Call(state, call);
    let next = next_step(state, reply);
    assert forall|rest: Seq<Reply>| #[trigger]
        run(facility, name, replies.push(reply) + rest) == (Run {
            calls: calls.push(call) + run_from(next, rest).calls,
            end: run_from(next, rest).end,
        }) by {
        let longer = seq![reply] + rest;
        assert(longer[0] == reply);
        assert(longer.skip(1) =~= rest);
        assert(replies + longer =~= replies.push(reply) + rest);
        assert(run(facility, name, replies + longer) == (Run {
            calls: calls + run_from(step, longer).calls,
            end: run_from(step, longer).end,
        }));
        assert(calls.push(call) + run_from(next, rest).calls =~= calls + (seq![call] + run_from(
            next,
            rest,
        ).calls));
    }
}

proof fn lemma_course_ends(
    facility: Facility,
    name: Seq<u8>,
    calls: Seq<SyscallView>,
    replies: Seq<Reply>,
    step: StepView,
)
    requires
        on_course(facility, name, calls, replies, step),
    ensures
        step matches StepView::Created(fd) ==> run(facility, name, replies) == (Run {
            calls,
            end: Some(Ok(fd)),
        }),
        step matches StepView::Failed(error) ==> run(facility, name, replies) == (Run {
            calls,
            end: Some(Err(error)),
        }),
{
    let none = Seq::<Reply>::empty();
    assert(replies + none =~= replies);
    assert(run(facility, name, replies + none).end == run_from(step, none).end);
    if !(step is Call) {
        assert(calls + run_from(step, none).calls =~= calls);
    }
}

/// Creates an anonymous shared memory object for `name` with the given
/// facility, where `os` performs each system call and reports the reply.
///
/// The result is the end of the course that the creation takes over the
/// replies of `os`. On the way `os` is asked for the calls of that course,
/// each once and in order, and for nothing else. A descriptor comes out
/// exactly when the system let the creation through; otherwise the error is
/// that of the call that failed.
pub fn create_shmem<F: Fn(&Syscall) -> Reply>(facility: Facility, name: ShmName, os: F) -> (r:
    Result<Descriptor, OsError>)
    requires
        forall|call: &Syscall| call_requires(os, (call,)),
    ensures
        exists|calls: Seq<Syscall>, replies: Seq<Reply>|
            {
                &&& #[trigger] answered(os, calls, replies)
                &&& run(facility, name@, replies) == (Run {
                    calls: views(calls),
                    end: Some(outcome_of(r)),
                })
                &&& r is Ok <==> system_succeeds(facility, replies)
            },
{
    let ghost wanted = name@;
    let ghost mut calls: Seq<Syscall> = Seq::empty();
    let ghost mut replies: Seq<Reply> = Seq::empty();
    let mut step = begin(facility, name);
    proof {
        lemma_course_begins(facility, wanted);
        assert(views(calls) =~= Seq::empty());
    }
    loop
        invariant
            wanted == name@,
            forall|call: &Syscall| call_requires(os, (call,)),
            answered(os, calls, replies),
            on_course(facility, wanted, views(calls), replies, step@),
        decreases calls_left(step@),
    {
        let ghost before = step@;
        match step {
            Step::Call(state, call) => {
                let reply = os(&call);
                proof {
                    lemma_course_goes_on(
                        facility,
                        wanted,
                        views(calls),
                        replies,
                        state@,
                        call@,
                        reply,
                    );
                    assert(views(calls.push(call)) =~= views(calls).push(call@));
                    calls = calls.push(call);
                    replies = replies.push(reply);
                }
                step = advance(state, reply);
            },
            Step::Created(fd) => {
                proof {
                    lemma_course_ends(facility, wanted, views(calls), replies, before);
                    lemma_created_iff_system_succeeds(facility, wanted, replies);
                }
                return Ok(fd);
            },
            Step::Failed(error) => {
                proof {
                    lemma_course_ends(facility, wanted, views(calls), replies, before);
                    lemma_created_iff_system_succeeds(facility, wanted, replies);
                }
                return Err(error);
            },
        }
    }
}

} // verus!
