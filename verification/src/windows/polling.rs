//! How long the start and the stop of a service go on asking for its state.

use vstd::prelude::*;
use crate::status::{SERVICE_START_PENDING, SERVICE_STOP_PENDING};
use crate::windows::{
    Reply, StartOp, StartServiceError, StartStage, StopOp, StopServiceError, StopStage,
};

verus! {

/// `rounds` times a query that shows the service in `state`, and the sleep
/// that follows it.
pub open spec fn still_in(state: u32, rounds: nat) -> Seq<Reply>
    decreases rounds,
{
    if rounds == 0 {
        Seq::empty()
    } else {
        seq![Reply::Status(state), Reply::Succeeded] + still_in(state, (rounds - 1) as nat)
    }
}

/// A start that takes two runs of replies one after the other has taken
/// them all.
pub proof fn lemma_start_run_concat(op: StartOp, first: Seq<Reply>, then: Seq<Reply>)
    ensures
        op.run(first + then) == op.run(first).run(then),
    decreases first.len(),
{
    if first.len() == 0 {
        assert(first + then == then);
    } else {
        assert((first + then).drop_first() == first.drop_first() + then);
        assert((first + then)[0] == first[0]);
        lemma_start_run_concat(op.spec_advance(first[0]), first.drop_first(), then);
    }
}

/// A stop that takes two runs of replies one after the other has taken them
/// all.
pub proof fn lemma_stop_run_concat(op: StopOp, first: Seq<Reply>, then: Seq<Reply>)
    ensures
        op.run(first + then) == op.run(first).run(then),
    decreases first.len(),
{
    if first.len() == 0 {
        assert(first + then == then);
    } else {
        assert((first + then).drop_first() == first.drop_first() + then);
        assert((first + then)[0] == first[0]);
        lemma_stop_run_concat(op.spec_advance(first[0]), first.drop_first(), then);
    }
}

/// As long as the service is seen starting, the start goes on asking: it has
/// not ended and asks for the state again.
pub proof fn lemma_start_keeps_asking(op: StartOp, rounds: nat)
    requires
        op.stage == StartStage::QueryStatus,
    ensures
        op.run(still_in(SERVICE_START_PENDING, rounds)).stage == StartStage::QueryStatus,
        op.run(still_in(SERVICE_START_PENDING, rounds)).name == op.name,
        rounds > 0 ==> op.run(still_in(SERVICE_START_PENDING, rounds)).last_state
            == SERVICE_START_PENDING,
        rounds == 0 ==> op.run(still_in(SERVICE_START_PENDING, rounds)) == op,
    decreases rounds,
{
    let replies = still_in(SERVICE_START_PENDING, rounds);
    if rounds > 0 {
        let asked = op.spec_advance(replies[0]);
        let slept = asked.spec_advance(replies.drop_first()[0]);
        assert(replies.drop_first().drop_first() =~= still_in(
            SERVICE_START_PENDING,
            (rounds - 1) as nat,
        ));
        let rest = replies.drop_first();
        assert(replies.len() >= 2);
        assert(op.run(replies) == asked.run(rest));
        assert(asked.run(rest) == slept.run(rest.drop_first()));
        lemma_start_keeps_asking(slept, (rounds - 1) as nat);
    }
}

/// The start of a service ends with the first query that does not show the
/// service starting, however many showed it starting before. It succeeds
/// where that query shows the service running, and fails otherwise: with the
/// state that the query shows, or, where the query itself fails, with the
/// state that was last seen.
pub proof fn lemma_start_ends_with_first_other_state(op: StartOp, rounds: nat, last: Reply)
    requires
        op.stage == StartStage::QueryStatus,
        last != Reply::Status(SERVICE_START_PENDING),
    ensures
        op.run(still_in(SERVICE_START_PENDING, rounds).push(last)).spec_outcome() == Some(
            match last {
                Reply::Status(state) => StartOp::verdict(state),
                _ => Err(
                    StartServiceError::FailedToStart(
                        if rounds > 0 {
                            SERVICE_START_PENDING
                        } else {
                            op.last_state
                        },
                    ),
                ),
            },
        ),
{
    let waiting = still_in(SERVICE_START_PENDING, rounds);
    lemma_start_keeps_asking(op, rounds);
    lemma_start_run_concat(op, waiting, seq![last]);
    assert(waiting.push(last) =~= waiting + seq![last]);
    let asked = op.run(waiting);
    assert(seq![last].drop_first() =~= Seq::<Reply>::empty());
    assert(asked.run(seq![last]) == asked.spec_advance(last).run(seq![last].drop_first()));
    assert(asked.spec_advance(last).run(Seq::<Reply>::empty()) == asked.spec_advance(last));
}

/// As long as the service is seen stopping, the stop goes on asking: it has
/// not ended and asks for the state again.
pub proof fn lemma_stop_keeps_asking(op: StopOp, rounds: nat)
    requires
        op.stage == StopStage::QueryStatus,
    ensures
        op.run(still_in(SERVICE_STOP_PENDING, rounds)).stage == StopStage::QueryStatus,
        op.run(still_in(SERVICE_STOP_PENDING, rounds)).name == op.name,
        rounds > 0 ==> op.run(still_in(SERVICE_STOP_PENDING, rounds)).last_state == Some(
            SERVICE_STOP_PENDING,
        ),
        rounds == 0 ==> op.run(still_in(SERVICE_STOP_PENDING, rounds)) == op,
    decreases rounds,
{
    let replies = still_in(SERVICE_STOP_PENDING, rounds);
    if rounds > 0 {
        let asked = op.spec_advance(replies[0]);
        let slept = asked.spec_advance(replies.drop_first()[0]);
        assert(replies.drop_first().drop_first() =~= still_in(
            SERVICE_STOP_PENDING,
            (rounds - 1) as nat,
        ));
        let rest = replies.drop_first();
        assert(replies.len() >= 2);
        assert(op.run(replies) == asked.run(rest));
        assert(asked.run(rest) == slept.run(rest.drop_first()));
        lemma_stop_keeps_asking(slept, (rounds - 1) as nat);
    }
}

/// The stop of a service ends with the first query that does not show the
/// service stopping, however many showed it stopping before. It succeeds
/// exactly where that query shows the service stopped; a query that fails
/// ends it with the error code of the failure.
pub proof fn lemma_stop_ends_with_first_other_state(op: StopOp, rounds: nat, last: Reply)
    requires
        op.stage == StopStage::QueryStatus,
        last != Reply::Status(SERVICE_STOP_PENDING),
    ensures
        ({
            let outcome = op.run(still_in(SERVICE_STOP_PENDING, rounds).push(last)).spec_outcome();
            match last {
                Reply::Status(state) => outcome == Some(StopOp::verdict(state)),
                Reply::Failed(code) => outcome == Some(
                    Err::<(), StopServiceError>(StopServiceError::WindowsError(code)),
                ),
                Reply::Succeeded => outcome matches Some(Err(StopServiceError::FailedToStop(_))),
            }
        }),
{
    let waiting = still_in(SERVICE_STOP_PENDING, rounds);
    lemma_stop_keeps_asking(op, rounds);
    lemma_stop_run_concat(op, waiting, seq![last]);
    assert(waiting.push(last) =~= waiting + seq![last]);
    let asked = op.run(waiting);
    assert(seq![last].drop_first() =~= Seq::<Reply>::empty());
    assert(asked.run(seq![last]) == asked.spec_advance(last).run(seq![last].drop_first()));
    assert(asked.spec_advance(last).run(Seq::<Reply>::empty()) == asked.spec_advance(last));
}

} // verus!
