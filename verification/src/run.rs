//! Whole creations: the calls that one makes and how it ends, given what the
//! system replies.

use vstd::prelude::*;
use crate::descriptor::{OsError, Outcome, Reply, FAILED};
use crate::protocol::{first_step, next_step, StepView};
use crate::syscall::{creating_call, Facility, SyscallView};

verus! {

/// The course of a creation: the calls made, in order, and the end, once it
/// is reached.
pub struct Run {
    pub calls: Seq<SyscallView>,
    pub end: Option<Outcome>,
}

/// The course from `step` on, where the system answers the calls with
/// `replies`, in order. A call without a reply is the last one made, and the
/// course has no end yet; replies past the end go unread.
pub open spec fn run_from(step: StepView, replies: Seq<Reply>) -> Run
    decreases replies.len(),
{
    match step {
        StepView::Call(state, call) => if replies.len() == 0 {
            Run { calls: seq![call], end: None }
        } else {
            let rest = run_from(next_step(state, replies[0]), replies.skip(1));
            Run { calls: seq![call] + rest.calls, end: rest.end }
        },
        StepView::Created(fd) => Run { calls: Seq::empty(), end: Some(Ok(fd)) },
        StepView::Failed(error) => Run { calls: Seq::empty(), end: Some(Err(error)) },
    }
}

/// The course of a creation for `name` with the given facility.
pub open spec fn run(facility: Facility, name: Seq<u8>, replies: Seq<Reply>) -> Run {
    run_from(first_step(facility, name), replies)
}

/// Whether the system let the creation through: it made the object, and
/// where the object got a name, it unlinked the name.
pub open spec fn system_succeeds(facility: Facility, replies: Seq<Reply>) -> bool {
    &&& replies.len() > 0
    &&& replies[0].ret != FAILED
    &&& facility is NamedOpen ==> replies.len() > 1 && replies[1].ret != FAILED
}

/// A creation makes at most three calls, and with three replies it has
/// ended: no call is made a second time.
pub proof fn lemma_run_is_short(facility: Facility, name: Seq<u8>, replies: Seq<Reply>)
    ensures
        1 <= run(facility, name, replies).calls.len() <= 3,
        run(facility, name, replies).calls.len() <= replies.len() + 1,
        run(facility, name, replies).calls[0] == creating_call(facility, name),
        run(facility, name, replies).end is Some ==> run(facility, name, replies).calls.len()
            <= replies.len(),
        replies.len() >= 3 ==> run(facility, name, replies).end is Some,
{
    reveal_with_fuel(run_from, 4);
}

/// A creation hands out a descriptor exactly when the system let it
/// through, and the descriptor is the one that the system made: the value
/// that the creating call returned. The calls are then the creating call
/// and, for a named object, the unlinking of its name.
pub proof fn lemma_created_iff_system_succeeds(
    facility: Facility,
    name: Seq<u8>,
    replies: Seq<Reply>,
)
    ensures
        run(facility, name, replies).end matches Some(Ok(_)) <==> system_succeeds(
            facility,
            replies,
        ),
        run(facility, name, replies).end matches Some(Ok(fd)) ==> fd == replies[0].ret && fd
            != FAILED,
        system_succeeds(facility, replies) ==> run(facility, name, replies) == (Run {
            calls: if facility is NamedOpen {
                seq![creating_call(facility, name), SyscallView::ShmUnlink { name }]
            } else {
                seq![creating_call(facility, name)]
            },
            end: Some(Ok(replies[0].ret as int)),
        }),
{
    reveal_with_fuel(run_from, 4);
    if system_succeeds(facility, replies) {
        let course = run(facility, name, replies);
        if facility is NamedOpen {
            assert(course.calls =~= seq![
                creating_call(facility, name),
                SyscallView::ShmUnlink { name },
            ]);
        } else {
            assert(course.calls =~= seq![creating_call(facility, name)]);
        }
    }
}

/// Where the system refuses to make the object, the creation ends at once
/// with the error that came with the refusal: the creating call is the only
/// call, so no descriptor is there and nothing has to be undone.
pub proof fn lemma_refusal_ends_run(facility: Facility, name: Seq<u8>, replies: Seq<Reply>)
    requires
        replies.len() > 0,
        replies[0].ret == FAILED,
    ensures
        run(facility, name, replies) == (Run {
            calls: seq![creating_call(facility, name)],
            end: Some(Err(OsError { code: replies[0].errno })),
        }),
{
    reveal_with_fuel(run_from, 4);
    assert(run(facility, name, replies).calls =~= seq![creating_call(facility, name)]);
}

/// Where the object was made under a name and the name cannot be unlinked,
/// the creation fails with the error of the unlinking, and before it ends
/// it closes the descriptor, whatever the closing returns.
pub proof fn lemma_unlink_failure_closes(name: Seq<u8>, replies: Seq<Reply>)
    requires
        replies.len() >= 3,
        replies[0].ret != FAILED,
        replies[1].ret == FAILED,
    ensures
        run(Facility::NamedOpen, name, replies) == (Run {
            calls: seq![
                creating_call(Facility::NamedOpen, name),
                SyscallView::ShmUnlink { name },
                SyscallView::Close { fd: replies[0].ret as int },
            ],
            end: Some(Err(OsError { code: replies[1].errno })),
        }),
{
    reveal_with_fuel(run_from, 4);
    assert(run(Facility::NamedOpen, name, replies).calls =~= seq![
        creating_call(Facility::NamedOpen, name),
        SyscallView::ShmUnlink { name },
        SyscallView::Close { fd: replies[0].ret as int },
    ]);
}

/// The name that a call puts into the shared memory namespace, if it puts
/// one there.
pub open spec fn name_made_by(call: SyscallView) -> Option<Seq<u8>> {
    match call {
        SyscallView::ShmOpen { name: made, .. } => Some(made),
        _ => None,
    }
}

/// No handed-out object is left under a name. Only the facility that knows
/// nothing but names ever puts one into the namespace, and it is the
/// caller's. Once the object is made, the very next call unlinks that same
/// name, and a descriptor is handed out only if the unlinking worked.
pub proof fn lemma_no_name_is_left(facility: Facility, name: Seq<u8>, replies: Seq<Reply>)
    ensures
        forall|i: int|
            0 <= i < run(facility, name, replies).calls.len() && name_made_by(
                #[trigger] run(facility, name, replies).calls[i],
            ) is Some ==> {
                let course = run(facility, name, replies);
                &&& facility is NamedOpen
                &&& i == 0
                &&& name_made_by(course.calls[0]) == Some(name)
                &&& replies.len() > 0 && replies[0].ret != FAILED ==> {
                    &&& course.calls.len() >= 2
                    &&& course.calls[1] == SyscallView::ShmUnlink { name }
                }
                &&& course.end matches Some(Ok(_)) ==> {
                    &&& course.calls.len() == 2
                    &&& replies[1].ret != FAILED
                }
            },
{
    reveal_with_fuel(run_from, 4);
}

/// A descriptor that the system made goes one way: in a creation that has
/// ended it was either handed out or closed, never both, and nothing else
/// was ever closed.
pub proof fn lemma_descriptor_goes_one_way(facility: Facility, name: Seq<u8>, replies: Seq<Reply>)
    requires
        run(facility, name, replies).end is Some,
    ensures
        replies.len() > 0,
        replies[0].ret != FAILED ==> (run(facility, name, replies).end == Some(
            Ok::<int, OsError>(replies[0].ret as int),
        )) != run(facility, name, replies).calls.contains(
            SyscallView::Close { fd: replies[0].ret as int },
        ),
        forall|i: int|
            0 <= i < run(facility, name, replies).calls.len() && (#[trigger] run(
                facility,
                name,
                replies,
            ).calls[i]) is Close ==> replies[0].ret != FAILED && run(
                facility,
                name,
                replies,
            ).calls[i] == (SyscallView::Close { fd: replies[0].ret as int }),
{
    reveal_with_fuel(run_from, 4);
    let course = run(facility, name, replies);
    let closing = SyscallView::Close { fd: replies[0].ret as int };
    if replies[0].ret != FAILED && facility is NamedOpen && replies[1].ret == FAILED {
        assert(course.calls[2] == closing);
    }
}

/// Creations share nothing: each hands out the descriptor that the system
/// made for it, whatever the names. So two creations for which the system
/// made different descriptors hand out different ones, also under one name.
pub proof fn lemma_runs_are_independent(
    facility: Facility,
    first_name: Seq<u8>,
    first_replies: Seq<Reply>,
    second_name: Seq<u8>,
    second_replies: Seq<Reply>,
)
    requires
        run(facility, first_name, first_replies).end matches Some(Ok(_)),
        run(facility, second_name, second_replies).end matches Some(Ok(_)),
    ensures
        run(facility, first_name, first_replies).end == Some(
            Ok::<int, OsError>(first_replies[0].ret as int),
        ),
        run(facility, second_name, second_replies).end == Some(
            Ok::<int, OsError>(second_replies[0].ret as int),
        ),
        first_replies[0].ret != second_replies[0].ret ==> run(
            facility,
            first_name,
            first_replies,
        ).end != run(facility, second_name, second_replies).end,
{
    lemma_created_iff_system_succeeds(facility, first_name, first_replies);
    lemma_created_iff_system_succeeds(facility, second_name, second_replies);
}

} // verus!
