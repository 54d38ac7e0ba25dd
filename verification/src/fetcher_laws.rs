use vstd::prelude::*;
use crate::error::ProvisionError;
use crate::fetcher::{
    asset_path,
    ended,
    next_action,
    next_session,
    schedule,
    FetchActionView,
    FetchEventView,
    FetchPhase,
    UploadSessionView,
    STATUS_PENDING,
    STATUS_READY,
};

verus! {

/// The session after a sequence of events.
pub open spec fn run(s: UploadSessionView, events: Seq<FetchEventView>) -> UploadSessionView
    decreases events.len(),
{
    if events.len() == 0 {
        s
    } else {
        next_session(run(s, events.drop_last()), events.last())
    }
}

/// The actions that a sequence of events calls for, one for each event.
pub open spec fn trace(s: UploadSessionView, events: Seq<FetchEventView>) -> Seq<FetchActionView>
    decreases events.len(),
{
    if events.len() == 0 {
        seq![]
    } else {
        trace(s, events.drop_last()).push(next_action(run(s, events.drop_last()), events.last()))
    }
}

/// How many of the actions ask the broker for the asset.
pub open spec fn polls(actions: Seq<FetchActionView>) -> nat
    decreases actions.len(),
{
    if actions.len() == 0 {
        0
    } else {
        polls(actions.drop_last()) + if actions.last() is Poll {
            1nat
        } else {
            0nat
        }
    }
}

/// The sleeps among the actions, in their order.
pub open spec fn sleeps(actions: Seq<FetchActionView>) -> Seq<int>
    decreases actions.len(),
{
    if actions.len() == 0 {
        seq![]
    } else {
        match actions.last() {
            FetchActionView::Sleep { seconds } => sleeps(actions.drop_last()).push(seconds),
            _ => sleeps(actions.drop_last()),
        }
    }
}

/// What a broker sends that answers "pending" `n` times: each answer is
/// followed by the end of the sleep that it causes.
pub open spec fn pending_rounds(n: nat) -> Seq<FetchEventView>
    decreases n,
{
    if n == 0 {
        seq![]
    } else {
        pending_rounds((n - 1) as nat).push(
            FetchEventView::Polled { status: STATUS_PENDING as int, bytes: Seq::empty() },
        ).push(FetchEventView::Slept)
    }
}

/// The first `n` delays of the backoff schedule.
pub open spec fn delays(n: nat) -> Seq<int> {
    Seq::new(n, |i: int| schedule(i as nat))
}

/// A session that has just asked for the asset for the first time.
pub open spec fn first_poll(s: UploadSessionView) -> bool {
    s.phase == FetchPhase::Polling && s.cursor == 0
}

/// After `n` answers of "pending" the fetch has slept the first `n` delays
/// of the schedule (10, 10, 30, then 60 each time), has asked again after
/// each, and waits for the broker's next answer.
pub proof fn lemma_pending_rounds(s: UploadSessionView, n: nat)
    requires
        first_poll(s),
    ensures
        run(s, pending_rounds(n)) == (UploadSessionView {
            cursor: if n < 3 {
                n as int
            } else {
                3
            },
            ..s
        }),
        trace(s, pending_rounds(n)).len() == 2 * n,
        sleeps(trace(s, pending_rounds(n))) == delays(n),
        polls(trace(s, pending_rounds(n))) == n,
    decreases n,
{
    if n == 0 {
        assert(sleeps(trace(s, pending_rounds(0))) =~= delays(0));
    } else {
        let before = pending_rounds((n - 1) as nat);
        let pending = FetchEventView::Polled { status: STATUS_PENDING as int, bytes: Seq::empty() };
        let middle = before.push(pending);
        let all = pending_rounds(n);
        lemma_pending_rounds(s, (n - 1) as nat);
        assert(all == middle.push(FetchEventView::Slept));
        assert(all.drop_last() =~= middle);
        assert(middle.drop_last() =~= before);
        let s0 = run(s, before);
        let s1 = run(s, middle);
        assert(s1 == next_session(s0, pending));
        let t0 = trace(s, before);
        let t1 = trace(s, middle);
        let t2 = trace(s, all);
        assert(t1 == t0.push(FetchActionView::Sleep { seconds: schedule((n - 1) as nat) }));
        assert(t2 == t1.push(FetchActionView::Poll { token: s.token }));
        assert(t2.drop_last() =~= t1);
        assert(t1.drop_last() =~= t0);
        assert(sleeps(t1) == sleeps(t0).push(schedule((n - 1) as nat)));
        assert(sleeps(t2) == sleeps(t1));
        assert(sleeps(t2) =~= delays(n));
        assert(polls(t1) == polls(t0));
        assert(polls(t2) == polls(t1) + 1);
    }
}

/// With a broker that answers "pending" `n` times and then hands out the
/// asset, the fetch asks `n + 1` times in all, the first time included,
/// sleeps the first `n` delays of the schedule in between, and then writes
/// the bytes as they came to the file named by the token.
pub proof fn lemma_backoff_schedule(s: UploadSessionView, n: nat, bytes: Seq<u8>)
    requires
        first_poll(s),
    ensures
        ({
            let events = pending_rounds(n).push(
                FetchEventView::Polled { status: STATUS_READY as int, bytes },
            );
            &&& 1 + polls(trace(s, events)) == n + 1
            &&& sleeps(trace(s, events)) == delays(n)
            &&& trace(s, events).last() == (FetchActionView::Write {
                path: asset_path(s.directory, s.token),
                bytes,
            })
            &&& run(s, events).phase == FetchPhase::Writing
        }),
{
    let ready = FetchEventView::Polled { status: STATUS_READY as int, bytes };
    let events = pending_rounds(n).push(ready);
    lemma_pending_rounds(s, n);
    assert(events.drop_last() =~= pending_rounds(n));
    assert(trace(s, events).drop_last() =~= trace(s, pending_rounds(n)));
}

/// Any answer to a poll but "ready" and "pending" ends the fetch at once
/// with `BrokerUnavailable`, and so does a call that is not answered.
pub proof fn lemma_broker_failure_is_immediate(s: UploadSessionView, event: FetchEventView)
    requires
        s.phase == FetchPhase::Polling,
        event is Unreachable || (event matches FetchEventView::Polled { status, .. }
            && status != STATUS_READY && status != STATUS_PENDING),
    ensures
        next_session(s, event).phase == FetchPhase::Failed(ProvisionError::BrokerUnavailable),
        next_action(s, event) == (FetchActionView::Fail {
            error: ProvisionError::BrokerUnavailable,
        }),
{
}

/// Once a fetch has ended, nothing moves it and nothing more is asked of
/// the broker, whatever events follow.
pub proof fn lemma_ended_stays_ended(s: UploadSessionView, events: Seq<FetchEventView>)
    requires
        ended(s.phase),
    ensures
        run(s, events) == s,
        forall|i: int| 0 <= i < events.len() ==> trace(s, events)[i] == FetchActionView::Idle,
        trace(s, events).len() == events.len(),
        polls(trace(s, events)) == 0,
    decreases events.len(),
{
    if events.len() > 0 {
        lemma_ended_stays_ended(s, events.drop_last());
        assert(trace(s, events).drop_last() =~= trace(s, events.drop_last()));
    }
}

} // verus!
