//! What calls of the scheduler promise their callers.

use vstd::prelude::*;

use super::scheduler::{
    PipelineRequest, PipelineScheduler, RequestPhase, RequestState,
    SchedulerView,
};
use super::SessionId;

verus! {

/// `id` is the session of one of `requests`.
pub open spec fn asks(requests: Seq<PipelineRequest>, id: SessionId) -> bool {
    exists|i: int| 0 <= i < requests.len() && (#[trigger] requests[i]).session_id == id
}

/// From `before` to `after` the `n` oldest waiting requests were admitted, and nothing
/// else changed: each left the waiting line, joined the ready line in its turn, and was
/// answered once, over its own channel, with its own id and with the number of sessions
/// ready before it.
pub open spec fn admitted_oldest(before: SchedulerView, after: SchedulerView, n: int) -> bool {
    &&& 0 <= n <= before.waiting.len()
    &&& after.waiting == before.waiting.skip(n)
    &&& after.max_in_flight == before.max_in_flight
    &&& after.next_session == before.next_session
    &&& after.ready.len() == before.ready.len() + n
    &&& after.granted.len() == before.granted.len() + n
    &&& forall|i: int|
        0 <= i < before.ready.len() ==> #[trigger] after.ready[i] == before.ready[i]
    &&& forall|i: int|
        0 <= i < before.granted.len() ==> #[trigger] after.granted[i] == before.granted[i]
    &&& forall|i: int|
        0 <= i < n ==> after.ready[before.ready.len() + i] == (
        #[trigger] before.waiting[i]).session_id
    &&& forall|i: int|
        0 <= i < n ==> {
            let answer = after.granted[before.granted.len() + i];
            &&& answer.to == (#[trigger] before.waiting[i]).reply
            &&& answer.value.session_id == before.waiting[i].session_id
            &&& answer.value.queue_position == (before.ready.len() + i) as usize
        }
    &&& forall|id: SessionId| #[trigger]
        after.in_flight.contains_key(id) <==> before.in_flight.contains_key(id) || asks(
            before.waiting.take(n),
            id,
        )
    &&& forall|id: SessionId|
        asks(before.waiting.take(n), id) ==> {
            &&& (#[trigger] after.in_flight[id]).session_id == id
            &&& after.in_flight[id].phase == RequestPhase::Prefill
            &&& after.in_flight[id].step_id == 0
        }
    &&& forall|id: SessionId|
        before.in_flight.contains_key(id) && !asks(before.waiting.take(n), id)
            ==> #[trigger] after.in_flight[id] == before.in_flight[id]
}

/// Admission takes the oldest requests, as many as it takes.
proof fn lemma_admission_takes_oldest(v: SchedulerView) -> (n: int)
    ensures
        admitted_oldest(v, v.admit_all(), n),
        n > 0 ==> v.in_flight.len() < v.max_in_flight,
    decreases v.waiting.len(),
{
    if v.can_admit() {
        let w = v.admit_one();
        let id0 = v.waiting[0].session_id;
        let after = v.admit_all();
        let m = lemma_admission_takes_oldest(w);
        let n = m + 1;
        assert(w.waiting.skip(m) =~= v.waiting.skip(n));
        assert forall|id: SessionId| #[trigger]
            asks(v.waiting.take(n), id) == (id == id0 || asks(w.waiting.take(m), id)) by {
            if asks(v.waiting.take(n), id) {
                let i = choose|i: int|
                    0 <= i < n && (#[trigger] v.waiting.take(n)[i]).session_id == id;
                if i > 0 {
                    assert(w.waiting.take(m)[i - 1].session_id == id);
                }
            }
            if id == id0 {
                assert(v.waiting.take(n)[0].session_id == id);
            }
            if asks(w.waiting.take(m), id) {
                let i = choose|i: int|
                    0 <= i < m && (#[trigger] w.waiting.take(m)[i]).session_id == id;
                assert(v.waiting.take(n)[i + 1].session_id == id);
            }
        }
        assert forall|i: int| 0 <= i < n implies after.ready[v.ready.len() + i] == (
        #[trigger] v.waiting[i]).session_id by {
            if i == 0 {
                assert(after.ready[v.ready.len() as int] == w.ready[v.ready.len() as int]);
            } else {
                assert(w.waiting[i - 1] == v.waiting[i]);
                assert(w.ready.len() + (i - 1) == v.ready.len() + i);
            }
        }
        assert forall|i: int| 0 <= i < v.ready.len() implies #[trigger] after.ready[i]
            == v.ready[i] by {
            assert(w.ready[i] == v.ready[i]);
        }
        assert forall|i: int| 0 <= i < v.granted.len() implies #[trigger] after.granted[i]
            == v.granted[i] by {
            assert(w.granted[i] == v.granted[i]);
        }
        assert forall|i: int| 0 <= i < n implies {
            let answer = after.granted[v.granted.len() + i];
            &&& answer.to == (#[trigger] v.waiting[i]).reply
            &&& answer.value.session_id == v.waiting[i].session_id
            &&& answer.value.queue_position == (v.ready.len() + i) as usize
        } by {
            if i == 0 {
                assert(after.granted[v.granted.len() as int] == w.granted[v.granted.len() as int]);
            } else {
                assert(w.waiting[i - 1] == v.waiting[i]);
                assert(w.granted.len() + (i - 1) == v.granted.len() + i);
            }
        }
        assert forall|id: SessionId| asks(v.waiting.take(n), id) implies {
            &&& (#[trigger] after.in_flight[id]).session_id == id
            &&& after.in_flight[id].phase == RequestPhase::Prefill
            &&& after.in_flight[id].step_id == 0
        } by {
            if !asks(w.waiting.take(m), id) {
                assert(w.in_flight.contains_key(id));
            }
        }
        assert forall|id: SessionId|
            v.in_flight.contains_key(id) && !asks(
                v.waiting.take(n),
                id,
            ) implies #[trigger] after.in_flight[id] == v.in_flight[id] by {
            assert(w.in_flight.contains_key(id));
        }
        n
    } else {
        assert(v.waiting.skip(0) =~= v.waiting);
        assert forall|id: SessionId| !(#[trigger] asks(v.waiting.take(0), id)) by {}
        0
    }
}

/// A new scheduler has the slots that were asked for, or one, and nothing to do.
pub proof fn new_scheduler_is_idle(max_in_flight: usize, s: PipelineScheduler)
    requires
        call_ensures(PipelineScheduler::new, (max_in_flight,), s),
    ensures
        max_in_flight > 0 ==> s@.max_in_flight == max_in_flight,
        max_in_flight == 0 ==> s@.max_in_flight == 1,
        s@.waiting.len() == 0,
        s@.ready.len() == 0,
        s@.granted.len() == 0,
        s@.next_session == 1,
        forall|id: SessionId| !(#[trigger] s@.in_flight.contains_key(id)),
        s@.in_flight.len() == 0,
{
    assert(s@.in_flight =~= Map::<SessionId, RequestState>::empty());
}

/// Each id that is handed out is one more than the one before it, from zero again after
/// the last, and handing ids out changes nothing else.
pub proof fn ids_follow_each_other(
    s: &mut PipelineScheduler,
    t: &mut PipelineScheduler,
    first: SessionId,
    second: SessionId,
)
    requires
        call_ensures(PipelineScheduler::allocate_session_id, (s,), first),
        *t == *final(s),
        call_ensures(PipelineScheduler::allocate_session_id, (t,), second),
    ensures
        first == old(s)@.next_session,
        first < u64::MAX ==> second == first + 1,
        first == u64::MAX ==> second == 0,
        final(s)@.waiting == old(s)@.waiting,
        final(s)@.ready == old(s)@.ready,
        final(s)@.in_flight == old(s)@.in_flight,
        final(s)@.max_in_flight == old(s)@.max_in_flight,
        final(s)@.granted == old(s)@.granted,
{
}

/// A request that is enqueued waits behind all others, and nothing else changes.
pub proof fn enqueued_request_waits_last(s: &mut PipelineScheduler, request: PipelineRequest)
    requires
        call_ensures(PipelineScheduler::enqueue, (s, request), ()),
    ensures
        final(s)@.waiting.len() == old(s)@.waiting.len() + 1,
        final(s)@.waiting.last() == request,
        final(s)@.waiting.drop_last() == old(s)@.waiting,
        final(s)@.ready == old(s)@.ready,
        final(s)@.in_flight == old(s)@.in_flight,
        final(s)@.max_in_flight == old(s)@.max_in_flight,
        final(s)@.granted == old(s)@.granted,
        final(s)@.next_session == old(s)@.next_session,
{
    assert(final(s)@.waiting.drop_last() =~= old(s)@.waiting);
}

/// Admission answers the oldest requests and leaves nobody waiting for a free slot.
pub proof fn admission_fills_the_slots(s: &mut PipelineScheduler)
    requires
        call_ensures(PipelineScheduler::admit_ready, (s,), ()),
        old(s)@.in_flight.dom().finite(),
        old(s)@.in_flight.len() <= old(s)@.max_in_flight,
    ensures
        admitted_oldest(
            old(s)@,
            final(s)@,
            old(s)@.waiting.len() - final(s)@.waiting.len(),
        ),
        final(s)@.waiting.len() == 0 || final(s)@.in_flight.len() == old(s)@.max_in_flight,
        final(s)@.in_flight.len() <= old(s)@.max_in_flight,
        old(s)@.in_flight.len() == old(s)@.max_in_flight ==> final(s)@.waiting
            == old(s)@.waiting,
{
    let n = lemma_admission_takes_oldest(old(s)@);
    assert(n == old(s)@.waiting.len() - final(s)@.waiting.len());
    assert(old(s)@.waiting.skip(0) =~= old(s)@.waiting);
}

/// The session that runs next is the one that has been ready longest; taking it changes
/// nothing else, and with none ready nothing changes.
pub proof fn next_session_was_ready_longest(s: &mut PipelineScheduler, res: Option<SessionId>)
    requires
        call_ensures(PipelineScheduler::next_ready, (s,), res),
    ensures
        res is None <==> old(s)@.ready.len() == 0,
        res matches Some(id) ==> {
            &&& old(s)@.ready[0] == id
            &&& old(s)@.ready == seq![id] + final(s)@.ready
        },
        res is None ==> final(s)@.ready == old(s)@.ready,
        final(s)@.waiting == old(s)@.waiting,
        final(s)@.in_flight == old(s)@.in_flight,
        final(s)@.max_in_flight == old(s)@.max_in_flight,
        final(s)@.granted == old(s)@.granted,
        final(s)@.next_session == old(s)@.next_session,
{
    if let Some(id) = res {
        assert(old(s)@.ready =~= seq![id] + final(s)@.ready);
    }
}

/// What `before` becomes when a step of `id` has ended and nobody was admitted yet.
/// A finished session is out of flight; an unfinished one is one step further, past its
/// first phase, and last in the ready line; all other requests in flight stand where
/// they stood.
pub open spec fn step_is_over(
    before: SchedulerView,
    mid: SchedulerView,
    id: SessionId,
    finished: bool,
) -> bool {
    let goes_on = !finished && before.in_flight.contains_key(id);
    &&& mid.waiting == before.waiting
    &&& mid.granted == before.granted
    &&& mid.max_in_flight == before.max_in_flight
    &&& mid.next_session == before.next_session
    &&& finished ==> !mid.in_flight.contains_key(id)
    &&& !goes_on ==> mid.ready == before.ready
    &&& goes_on ==> {
        &&& mid.ready.len() == before.ready.len() + 1
        &&& mid.ready.last() == id
        &&& mid.ready.drop_last() == before.ready
        &&& mid.in_flight.contains_key(id)
        &&& mid.in_flight[id].session_id == before.in_flight[id].session_id
        &&& mid.in_flight[id].phase == RequestPhase::Decode
        &&& before.in_flight[id].step_id < usize::MAX ==> mid.in_flight[id].step_id
            == before.in_flight[id].step_id + 1
    }
    &&& forall|other: SessionId|
        other != id ==> (#[trigger] mid.in_flight.contains_key(other)
            <==> before.in_flight.contains_key(other))
    &&& forall|other: SessionId|
        other != id && before.in_flight.contains_key(other) ==> #[trigger] mid.in_flight[other]
            == before.in_flight[other]
    &&& !finished && !before.in_flight.contains_key(id) ==> !mid.in_flight.contains_key(id)
}

/// The end of a step does to the session what it should, whatever number of slots is
/// taken and whoever waits, and is followed by an admission that leaves no slot idle.
pub proof fn step_end_settles_the_session(
    s: &mut PipelineScheduler,
    id: SessionId,
    finished: bool,
) -> (mid: SchedulerView)
    requires
        call_ensures(PipelineScheduler::complete_step, (s, id, finished), ()),
        old(s)@.in_flight.dom().finite(),
        old(s)@.in_flight.len() <= old(s)@.max_in_flight,
    ensures
        step_is_over(old(s)@, mid, id, finished),
        admitted_oldest(mid, final(s)@, old(s)@.waiting.len() - final(s)@.waiting.len()),
        final(s)@.waiting.len() == 0 || final(s)@.in_flight.len() == old(s)@.max_in_flight,
        final(s)@.in_flight.len() <= old(s)@.max_in_flight,
{
    let mid = old(s)@.end_step(id, finished);
    let n = lemma_admission_takes_oldest(mid);
    assert(mid.ready.drop_last() =~= old(s)@.ready || mid.ready == old(s)@.ready);
    assert(n == mid.waiting.len() - final(s)@.waiting.len());
    mid
}

/// A finished session gives up its slot, whatever number of slots is taken and whether or
/// not anyone waits, and asking for it then says so. The other requests in flight are
/// what they were.
pub proof fn finished_session_leaves_flight(
    s: &mut PipelineScheduler,
    id: SessionId,
    other: SessionId,
    in_flight: bool,
)
    requires
        call_ensures(PipelineScheduler::complete_step, (s, id, true), ()),
        call_ensures(PipelineScheduler::is_in_flight, (final(s), id), in_flight),
        old(s)@.in_flight.dom().finite(),
        old(s)@.in_flight.len() <= old(s)@.max_in_flight,
        !asks(old(s)@.waiting, id),
        !asks(old(s)@.waiting, other),
        other != id,
    ensures
        !in_flight,
        !final(s)@.in_flight.contains_key(id),
        final(s)@.in_flight.contains_key(other) <==> old(s)@.in_flight.contains_key(other),
        old(s)@.in_flight.contains_key(other) ==> final(s)@.in_flight[other]
            == old(s)@.in_flight[other],
{
    let mid = step_end_settles_the_session(s, id, true);
    let n = old(s)@.waiting.len() - final(s)@.waiting.len();
    lemma_asks_prefix(old(s)@.waiting, n, id);
    lemma_asks_prefix(old(s)@.waiting, n, other);
}

/// Who asks in the beginning of a line asks in the line.
proof fn lemma_asks_prefix(requests: Seq<PipelineRequest>, n: int, id: SessionId)
    requires
        0 <= n <= requests.len(),
        !asks(requests, id),
    ensures
        !asks(requests.take(n), id),
{
    if asks(requests.take(n), id) {
        let i = choose|i: int| 0 <= i < n && (#[trigger] requests.take(n)[i]).session_id == id;
        assert(requests[i].session_id == id);
    }
}

/// What the getters say is what the scheduler holds.
pub proof fn getters_tell_what_is_held(
    s: PipelineScheduler,
    id: SessionId,
    max: usize,
    len: usize,
    in_flight: bool,
    state: Option<RequestState>,
)
    requires
        call_ensures(PipelineScheduler::max_in_flight, (&s,), max),
        call_ensures(PipelineScheduler::in_flight_len, (&s,), len),
        call_ensures(PipelineScheduler::is_in_flight, (&s, id), in_flight),
        call_ensures(PipelineScheduler::request_state, (&s, id), state),
    ensures
        max == s@.max_in_flight,
        len == s@.in_flight.len(),
        in_flight <==> s@.in_flight.contains_key(id),
        in_flight <==> state is Some,
        state matches Some(st) ==> st == s@.in_flight[id],
{
}

} // verus!
