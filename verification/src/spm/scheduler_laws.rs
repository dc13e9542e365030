//! What holds of the scheduler over more than one call.

use vstd::prelude::*;

use super::channel::Answer;
use super::scheduler::{PipelineAdmission, PipelineRequest, RequestPhase, RequestState, SchedulerView};
use super::SessionId;

verus! {

/// The session ids of `requests`, in order.
pub open spec fn request_ids(requests: Seq<PipelineRequest>) -> Seq<SessionId> {
    Seq::new(requests.len(), |i: int| requests[i].session_id)
}

/// Who waits for an answer: reply channel and session id of `requests`, in order.
pub open spec fn awaiting(requests: Seq<PipelineRequest>) -> Seq<
    (tokio::sync::oneshot::Sender<PipelineAdmission>, SessionId),
> {
    Seq::new(requests.len(), |i: int| (requests[i].reply, requests[i].session_id))
}

/// Who was answered: reply channel and session id of `answers`, in order.
pub open spec fn answered(answers: Seq<Answer<PipelineAdmission>>) -> Seq<
    (tokio::sync::oneshot::Sender<PipelineAdmission>, SessionId),
> {
    Seq::new(answers.len(), |i: int| (answers[i].to, answers[i].value.session_id))
}

/// Every waiting request has a session id of its own that no request in flight
/// uses.
pub open spec fn fresh_waiting(v: SchedulerView) -> bool {
    &&& request_ids(v.waiting).no_duplicates()
    &&& forall|i: int|
        0 <= i < v.waiting.len() ==> !v.in_flight.contains_key(#[trigger] v.waiting[i].session_id)
}

/// Session ids are used once, and a session that is ready is in flight and
/// stands in the ready line once. What is in flight and not ready has its step
/// running.
pub open spec fn disciplined(v: SchedulerView) -> bool {
    &&& fresh_waiting(v)
    &&& v.ready.no_duplicates()
    &&& forall|i: int| 0 <= i < v.ready.len() ==> v.in_flight.contains_key(#[trigger] v.ready[i])
}

/// How many waiting requests the free slots can take.
pub open spec fn admissible(v: SchedulerView) -> nat {
    if v.in_flight.len() >= v.max_in_flight {
        0
    } else if v.waiting.len() <= v.max_in_flight - v.in_flight.len() {
        v.waiting.len()
    } else {
        (v.max_in_flight - v.in_flight.len()) as nat
    }
}

/// `after` is `before` one step further. The count of steps is exact as long as it
/// fits.
pub open spec fn took_step(before: RequestState, after: RequestState) -> bool {
    &&& after.session_id == before.session_id
    &&& after.phase == RequestPhase::Decode
    &&& before.step_id < usize::MAX ==> after.step_id == before.step_id + 1
}

/// The session that runs next takes its step without ending.
pub open spec fn take_turn(v: SchedulerView) -> SchedulerView {
    v.take_ready().end_step(v.ready[0], false).admit_all()
}

/// `n` turns, one after the other.
pub open spec fn take_turns(v: SchedulerView, n: nat) -> SchedulerView
    decreases n,
{
    if n == 0 {
        v
    } else {
        take_turn(take_turns(v, (n - 1) as nat))
    }
}

/// Admission loses no request and invents none: those answered so far followed by
/// those still waiting stay the same sequence, each with its own reply channel and
/// session id.
pub proof fn admission_keeps_every_request(v: SchedulerView)
    ensures
        answered(v.admit_all().granted) + awaiting(v.admit_all().waiting) == answered(v.granted)
            + awaiting(v.waiting),
    decreases v.waiting.len(),
{
    if v.can_admit() {
        let w = v.admit_one();
        admission_keeps_every_request(w);
        assert(answered(w.granted) + awaiting(w.waiting) =~= answered(v.granted) + awaiting(
            v.waiting,
        ));
    }
}

/// Admission fills the slots: afterwards nothing waits or no slot is free.
pub proof fn admission_leaves_no_idle_slot(v: SchedulerView)
    ensures
        !v.admit_all().can_admit(),
        v.admit_all().max_in_flight == v.max_in_flight,
    decreases v.waiting.len(),
{
    if v.can_admit() {
        admission_leaves_no_idle_slot(v.admit_one());
    }
}

/// No admission puts more requests in flight than there are slots.
pub proof fn admission_respects_the_limit(v: SchedulerView)
    requires
        v.wf(),
    ensures
        v.admit_all().wf(),
        v.admit_all().in_flight.len() <= v.max_in_flight,
    decreases v.waiting.len(),
{
    if v.can_admit() {
        admission_respects_the_limit(v.admit_one());
    }
}

/// However many requests wait, odd or even: the free slots go to the oldest of
/// them in arrival order, each enters in its first phase behind the sessions
/// that are ready already, is answered over its own reply channel with its id and
/// its place in that line, and the requests that were in flight are untouched.
pub proof fn admission_is_first_come_first_served(v: SchedulerView)
    requires
        v.wf(),
        fresh_waiting(v),
    ensures
        ({
            let n = admissible(v) as int;
            let after = v.admit_all();
            &&& after.waiting == v.waiting.skip(n)
            &&& after.ready == v.ready + request_ids(v.waiting.take(n))
            &&& after.granted == v.granted + Seq::new(
                n as nat,
                |i: int|
                    Answer {
                        to: v.waiting[i].reply,
                        value: PipelineAdmission {
                            session_id: v.waiting[i].session_id,
                            queue_position: (v.ready.len() + i) as usize,
                        },
                    },
            )
            &&& after.in_flight.len() == v.in_flight.len() + n
            &&& forall|i: int|
                0 <= i < n ==> {
                    &&& after.in_flight.contains_key(#[trigger] v.waiting[i].session_id)
                    &&& after.in_flight[v.waiting[i].session_id] == RequestState::admitted(
                        v.waiting[i].session_id,
                    )
                }
            &&& forall|id: SessionId| #[trigger]
                after.in_flight.contains_key(id) <==> v.in_flight.contains_key(id) || request_ids(
                    v.waiting.take(n),
                ).contains(id)
            &&& forall|id: SessionId| #[trigger]
                v.in_flight.contains_key(id) ==> after.in_flight[id] == v.in_flight[id]
        }),
    decreases v.waiting.len(),
{
    let n = admissible(v) as int;
    if v.can_admit() {
        let w = v.admit_one();
        let id0 = v.waiting[0].session_id;
        assert(request_ids(v.waiting)[0] == id0);
        assert(fresh_waiting(w)) by {
            assert forall|i: int, j: int|
                0 <= i < j < w.waiting.len() implies request_ids(w.waiting)[i] != request_ids(
                w.waiting,
            )[j] by {
                assert(request_ids(v.waiting)[i + 1] != request_ids(v.waiting)[j + 1]);
            }
            assert forall|i: int| 0 <= i < w.waiting.len() implies !w.in_flight.contains_key(
                #[trigger] w.waiting[i].session_id,
            ) by {
                assert(w.waiting[i] == v.waiting[i + 1]);
                assert(request_ids(v.waiting)[i + 1] != request_ids(v.waiting)[0]);
            }
        }
        admission_is_first_come_first_served(w);
        let after = v.admit_all();
        let m = admissible(w) as int;
        assert(n == m + 1);
        assert(w.waiting.skip(m) =~= v.waiting.skip(n));
        assert(request_ids(v.waiting.take(n)) =~= seq![id0] + request_ids(w.waiting.take(m)));
        assert(after.ready =~= v.ready + request_ids(v.waiting.take(n)));
        assert(after.granted =~= v.granted + Seq::new(
            n as nat,
            |i: int|
                Answer {
                    to: v.waiting[i].reply,
                    value: PipelineAdmission {
                        session_id: v.waiting[i].session_id,
                        queue_position: (v.ready.len() + i) as usize,
                    },
                },
        ));
        assert(w.in_flight.contains_key(id0));
        assert forall|i: int| 0 <= i < n implies {
            &&& after.in_flight.contains_key(#[trigger] v.waiting[i].session_id)
            &&& after.in_flight[v.waiting[i].session_id] == RequestState::admitted(
                v.waiting[i].session_id,
            )
        } by {
            if i > 0 {
                assert(w.waiting[i - 1] == v.waiting[i]);
            }
        }
        assert forall|id: SessionId| #[trigger]
            after.in_flight.contains_key(id) <==> v.in_flight.contains_key(id) || request_ids(
                v.waiting.take(n),
            ).contains(id) by {
            let all = request_ids(v.waiting.take(n));
            let rest = request_ids(w.waiting.take(m));
            if rest.contains(id) {
                let k = choose|k: int| 0 <= k < rest.len() && rest[k] == id;
                assert(all[k + 1] == id);
            }
            if id == id0 {
                assert(all[0] == id);
            }
            if all.contains(id) && id != id0 {
                let k = choose|k: int| 0 <= k < all.len() && all[k] == id;
                assert(rest[k - 1] == id);
            }
        }
        assert forall|id: SessionId| #[trigger]
            v.in_flight.contains_key(id) implies after.in_flight[id] == v.in_flight[id] by {
            assert(w.in_flight.contains_key(id));
        }
    } else {
        assert(v.waiting.skip(0) =~= v.waiting);
        assert(v.ready + request_ids(v.waiting.take(0)) =~= v.ready);
        assert(v.granted + Seq::new(
            0,
            |i: int|
                Answer {
                    to: v.waiting[i].reply,
                    value: PipelineAdmission {
                        session_id: v.waiting[i].session_id,
                        queue_position: (v.ready.len() + i) as usize,
                    },
                },
        ) =~= v.granted);
    }
}

/// With all slots taken, a session that finishes hands its slot to the oldest
/// waiting request and to no other.
pub proof fn finished_slot_goes_to_the_next_waiter(v: SchedulerView, session_id: SessionId)
    requires
        v.wf(),
        fresh_waiting(v),
        v.in_flight.len() == v.max_in_flight,
        v.in_flight.contains_key(session_id),
        v.waiting.len() > 0,
    ensures
        ({
            let next = v.waiting[0].session_id;
            let after = v.end_step(session_id, true).admit_all();
            &&& after.in_flight == v.in_flight.remove(session_id).insert(
                next,
                RequestState::admitted(next),
            )
            &&& after.waiting == v.waiting.skip(1)
            &&& after.ready == v.ready.push(next)
        }),
{
    let ended = v.end_step(session_id, true);
    assert(ended.can_admit());
    let next = ended.admit_one();
    assert(!v.in_flight.contains_key(v.waiting[0].session_id));
    assert(!next.can_admit());
    assert(next.admit_all() == next);
}

/// A scheduler that has seen no request is disciplined.
pub proof fn empty_scheduler_is_disciplined(v: SchedulerView)
    requires
        v.waiting.len() == 0,
        v.ready.len() == 0,
    ensures
        disciplined(v),
{
}

/// A request under a session id that nobody uses keeps the discipline.
pub proof fn enqueue_keeps_discipline(v: SchedulerView, request: PipelineRequest)
    requires
        disciplined(v),
        !v.in_flight.contains_key(request.session_id),
        !request_ids(v.waiting).contains(request.session_id),
    ensures
        disciplined(v.enqueue(request)),
{
    let w = v.enqueue(request);
    assert(request_ids(w.waiting) =~= request_ids(v.waiting).push(request.session_id));
    assert forall|i: int, j: int|
        0 <= i < j < w.waiting.len() implies request_ids(w.waiting)[i] != request_ids(
        w.waiting,
    )[j] by {
        if j == v.waiting.len() {
            assert(request_ids(v.waiting).contains(request_ids(v.waiting)[i]));
        } else {
            assert(request_ids(v.waiting)[i] != request_ids(v.waiting)[j]);
        }
    }
}

/// One admission keeps the discipline.
proof fn lemma_one_admission_keeps_discipline(v: SchedulerView)
    requires
        disciplined(v),
        v.can_admit(),
    ensures
        disciplined(v.admit_one()),
{
    let w = v.admit_one();
    let id0 = v.waiting[0].session_id;
    assert(request_ids(v.waiting)[0] == id0);
    assert forall|i: int, j: int|
        0 <= i < j < w.waiting.len() implies request_ids(w.waiting)[i] != request_ids(
        w.waiting,
    )[j] by {
        assert(request_ids(v.waiting)[i + 1] != request_ids(v.waiting)[j + 1]);
    }
    assert forall|i: int| 0 <= i < w.waiting.len() implies !w.in_flight.contains_key(
        #[trigger] w.waiting[i].session_id,
    ) by {
        assert(w.waiting[i] == v.waiting[i + 1]);
        assert(request_ids(v.waiting)[i + 1] != request_ids(v.waiting)[0]);
    }
    assert forall|i: int, j: int| 0 <= i < j < w.ready.len() implies w.ready[i] != w.ready[j] by {
        if j == v.ready.len() {
            assert(v.in_flight.contains_key(v.ready[i]));
        }
    }
}

/// Admission keeps the discipline.
pub proof fn admission_keeps_discipline(v: SchedulerView)
    requires
        disciplined(v),
    ensures
        disciplined(v.admit_all()),
    decreases v.waiting.len(),
{
    if v.can_admit() {
        lemma_one_admission_keeps_discipline(v);
        admission_keeps_discipline(v.admit_one());
    }
}

/// A session that is taken to run its step is in flight and no longer in the ready
/// line.
pub proof fn session_leaves_the_line_to_run(v: SchedulerView)
    requires
        disciplined(v),
        v.ready.len() > 0,
    ensures
        disciplined(v.take_ready()),
        v.in_flight.contains_key(v.ready[0]),
        !v.take_ready().ready.contains(v.ready[0]),
{
    let w = v.take_ready();
    assert forall|i: int| 0 <= i < w.ready.len() implies w.ready[i] != v.ready[0] by {
        assert(w.ready[i] == v.ready[i + 1]);
    }
    assert forall|i: int| 0 <= i < w.ready.len() implies w.in_flight.contains_key(
        #[trigger] w.ready[i],
    ) by {
        assert(w.ready[i] == v.ready[i + 1]);
    }
}

/// The step of `id` is running.
pub open spec fn is_running(v: SchedulerView, id: SessionId) -> bool {
    v.in_flight.contains_key(id) && !v.ready.contains(id)
}

/// Something is done with the scheduler that does not end the step of `id`: a
/// request is enqueued under an id that nobody uses, requests are admitted, a
/// session is taken to run its step, or the running step of another session ends.
pub open spec fn spares(v: SchedulerView, w: SchedulerView, id: SessionId) -> bool {
    ||| exists|request: PipelineRequest|
        {
            &&& !v.in_flight.contains_key(request.session_id)
            &&& !request_ids(v.waiting).contains(request.session_id)
            &&& w == #[trigger] v.enqueue(request)
        }
    ||| w == v.admit_all()
    ||| v.ready.len() > 0 && w == v.take_ready()
    ||| exists|other: SessionId, finished: bool|
        other != id && is_running(v, other) && w == (#[trigger] v.end_step(
            other,
            finished,
        )).admit_all()
}

/// Admission offers no session whose step is running.
proof fn lemma_admission_spares(v: SchedulerView, id: SessionId)
    requires
        disciplined(v),
        is_running(v, id),
    ensures
        disciplined(v.admit_all()),
        is_running(v.admit_all(), id),
        v.admit_all().in_flight[id] == v.in_flight[id],
    decreases v.waiting.len(),
{
    admission_keeps_discipline(v);
    if v.can_admit() {
        let w = v.admit_one();
        let id0 = v.waiting[0].session_id;
        assert(!v.in_flight.contains_key(id0));
        assert forall|i: int| 0 <= i < w.ready.len() implies w.ready[i] != id by {
            if i < v.ready.len() {
                assert(v.ready.contains(v.ready[i]));
            }
        }
        lemma_one_admission_keeps_discipline(v);
        lemma_admission_spares(w, id);
    }
}

/// A session whose step is running is not offered again before that step ends,
/// whatever else is done: it stays in flight, out of the ready line, and where it
/// stands.
pub proof fn running_session_stays_out_of_line(v: SchedulerView, w: SchedulerView, id: SessionId)
    requires
        disciplined(v),
        is_running(v, id),
        spares(v, w, id),
    ensures
        disciplined(w),
        is_running(w, id),
        w.in_flight[id] == v.in_flight[id],
{
    if exists|request: PipelineRequest|
        {
            &&& !v.in_flight.contains_key(request.session_id)
            &&& !request_ids(v.waiting).contains(request.session_id)
            &&& w == #[trigger] v.enqueue(request)
        } {
        let request = choose|request: PipelineRequest|
            {
                &&& !v.in_flight.contains_key(request.session_id)
                &&& !request_ids(v.waiting).contains(request.session_id)
                &&& w == #[trigger] v.enqueue(request)
            };
        enqueue_keeps_discipline(v, request);
    } else if w == v.admit_all() {
        lemma_admission_spares(v, id);
    } else if v.ready.len() > 0 && w == v.take_ready() {
        session_leaves_the_line_to_run(v);
        assert forall|i: int| 0 <= i < w.ready.len() implies w.ready[i] != id by {
            assert(v.ready.contains(v.ready[i + 1]));
        }
    } else {
        let (other, finished) = choose|other: SessionId, finished: bool|
            other != id && is_running(v, other) && w == (#[trigger] v.end_step(
                other,
                finished,
            )).admit_all();
        let e = v.end_step(other, finished);
        step_end_keeps_discipline(v, other, finished);
        assert forall|i: int| 0 <= i < e.ready.len() implies e.ready[i] != id by {
            if i < v.ready.len() {
                assert(v.ready.contains(v.ready[i]));
            }
        }
        lemma_admission_spares(e, id);
    }
}

/// A session has at most one step running, over any history: from the moment it is
/// taken to run its step until that step ends it is never in the ready line. `trace`
/// is what happens in between.
pub proof fn session_has_one_step_running(trace: Seq<SchedulerView>, id: SessionId, k: int)
    requires
        trace.len() > 0,
        disciplined(trace[0]),
        is_running(trace[0], id),
        forall|i: int| 0 <= i < trace.len() - 1 ==> #[trigger] spares(trace[i], trace[i + 1], id),
        0 <= k < trace.len(),
    ensures
        disciplined(trace[k]),
        is_running(trace[k], id),
        trace[k].in_flight[id] == trace[0].in_flight[id],
    decreases k,
{
    if k > 0 {
        session_has_one_step_running(trace, id, k - 1);
        assert(spares(trace[k - 1], trace[k - 1 + 1], id));
        running_session_stays_out_of_line(trace[k - 1], trace[k], id);
    }
}

/// The end of a step that was running keeps the discipline, and so does the
/// admission that follows.
pub proof fn step_end_keeps_discipline(v: SchedulerView, session_id: SessionId, finished: bool)
    requires
        disciplined(v),
        v.in_flight.contains_key(session_id),
        !v.ready.contains(session_id),
    ensures
        disciplined(v.end_step(session_id, finished)),
        disciplined(v.end_step(session_id, finished).admit_all()),
{
    let w = v.end_step(session_id, finished);
    assert forall|i: int| 0 <= i < w.ready.len() implies w.in_flight.contains_key(
        #[trigger] w.ready[i],
    ) by {
        if i < v.ready.len() {
            assert(v.ready.contains(v.ready[i]));
        }
    }
    assert forall|i: int, j: int| 0 <= i < j < w.ready.len() implies w.ready[i] != w.ready[j] by {
        if j == v.ready.len() {
            assert(v.ready.contains(v.ready[i]));
        }
    }
    admission_keeps_discipline(w);
}

/// Round robin: as long as no session ends and none is admitted, `n` turns move
/// the first `n` ready sessions behind the others, so every ready session runs
/// once before any runs twice. Each of them is one step further and past its first
/// phase; the other requests in flight stand where they stood.
pub proof fn ready_sessions_take_turns(v: SchedulerView, n: nat)
    requires
        disciplined(v),
        !v.can_admit(),
        n <= v.ready.len(),
    ensures
        take_turns(v, n).ready == v.ready.skip(n as int) + v.ready.take(n as int),
        take_turns(v, n).waiting == v.waiting,
        take_turns(v, n).in_flight.dom() == v.in_flight.dom(),
        take_turns(v, n).max_in_flight == v.max_in_flight,
        forall|i: int|
            0 <= i < n ==> took_step(
                v.in_flight[#[trigger] v.ready[i]],
                take_turns(v, n).in_flight[v.ready[i]],
            ),
        forall|id: SessionId|
            v.in_flight.contains_key(id) && !v.ready.take(n as int).contains(id)
                ==> #[trigger] take_turns(v, n).in_flight[id] == v.in_flight[id],
    decreases n,
{
    if n == 0 {
        assert(v.ready.skip(0) + v.ready.take(0) =~= v.ready);
    } else {
        let k = (n - 1) as nat;
        ready_sessions_take_turns(v, k);
        let w = take_turns(v, k);
        assert(w.ready[0] == v.ready[k as int]);
        assert(v.in_flight.contains_key(v.ready[k as int]));
        assert(v.in_flight.dom().contains(v.ready[k as int]));
        assert(w.in_flight.dom().contains(w.ready[0]));
        let t = w.take_ready().end_step(w.ready[0], false);
        assert(t.in_flight.dom() =~= w.in_flight.dom());
        assert(!t.can_admit());
        assert(t.ready =~= v.ready.skip(n as int) + v.ready.take(n as int));
        let served = v.ready[k as int];
        assert(!v.ready.take(k as int).contains(served)) by {
            assert forall|i: int| 0 <= i < k implies v.ready.take(k as int)[i] != served by {
                assert(v.ready[i] != v.ready[k as int]);
            }
        }
        assert(w.in_flight[served] == v.in_flight[served]);
        assert(t.in_flight[served] == v.in_flight[served].stepped());
        assert forall|i: int| 0 <= i < n implies took_step(
            v.in_flight[#[trigger] v.ready[i]],
            t.in_flight[v.ready[i]],
        ) by {
            if i < k {
                assert(v.ready[i] != served);
            }
        }
        assert forall|id: SessionId|
            v.in_flight.contains_key(id) && !v.ready.take(n as int).contains(
                id,
            ) implies #[trigger] t.in_flight[id] == v.in_flight[id] by {
            assert(v.ready.take(n as int)[k as int] == served);
            assert forall|i: int| 0 <= i < k implies v.ready.take(k as int)[i] != id by {
                assert(v.ready.take(n as int)[i] == v.ready[i]);
            }
        }
    }
}

/// The `n`-th session id handed out by a scheduler that starts at `first`.
pub open spec fn nth_session_id(first: SessionId, n: nat) -> SessionId
    decreases n,
{
    if n == 0 {
        first
    } else {
        ((nth_session_id(first, (n - 1) as nat) + 1) % 0x1_0000_0000_0000_0000) as u64
    }
}

proof fn lemma_nth_session_id(first: SessionId, n: nat)
    ensures
        nth_session_id(first, n) == (first + n) % 0x1_0000_0000_0000_0000,
    decreases n,
{
    if n > 0 {
        lemma_nth_session_id(first, (n - 1) as nat);
    }
}

/// Session ids do not repeat before all of them have been handed out.
pub proof fn session_ids_are_distinct(first: SessionId, i: nat, j: nat)
    requires
        i < j,
        j - i < 0x1_0000_0000_0000_0000,
    ensures
        nth_session_id(first, i) != nth_session_id(first, j),
{
    lemma_nth_session_id(first, i);
    lemma_nth_session_id(first, j);
}

/// A new scheduler hands out 1, 2, 3 and so on, and zero, which stands for no
/// session, not before all other ids.
pub proof fn session_ids_count_up_from_one(n: nat)
    requires
        n < 0xffff_ffff_ffff_ffff,
    ensures
        nth_session_id(1, n) == n + 1,
        nth_session_id(1, n) != 0,
{
    lemma_nth_session_id(1, n);
}

} // verus!
