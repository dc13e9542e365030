//! What holds of the engine over more than one call.

use vstd::prelude::*;

use crate::models::generator::Generator;
use crate::models::Token;

use super::channel::Emission;
use super::engine::{
    ActiveRequest, EngineAction, EngineEvent, EnginePhase, EngineRequest, EngineView, EventView,
    PipelineEngine,
};
use super::master::{Master, MasterError};
use super::SessionId;

verus! {

/// Session `id` waits for its turn or takes it.
pub open spec fn is_served(v: EngineView, id: SessionId) -> bool {
    ||| exists|i: int| 0 <= i < v.active.len() && (#[trigger] v.active[i]).session_id == id
    ||| v.running is Some && v.running->0.session_id == id
}

/// What was sent about session `id`, in order.
pub open spec fn heard(emitted: Seq<Emission>, id: SessionId) -> Seq<EventView>
    decreases emitted.len(),
{
    if emitted.len() == 0 {
        Seq::empty()
    } else if emitted.last().session_id == id {
        heard(emitted.drop_last(), id).push(emitted.last().event)
    } else {
        heard(emitted.drop_last(), id)
    }
}

/// All of `events` are tokens.
pub open spec fn only_tokens(events: Seq<EventView>) -> bool {
    forall|i: int| 0 <= i < events.len() ==> (#[trigger] events[i]) is Token
}

/// `events` are tokens and then exactly one last event: an error, or the end with
/// the number of tokens before it.
pub open spec fn concluded(events: Seq<EventView>) -> bool {
    &&& events.len() > 0
    &&& only_tokens(events.drop_last())
    &&& events.last() is Error || (events.last() matches EventView::Finished {
        generated_tokens,
        ..
    } && generated_tokens == events.len() - 1)
}

/// What was sent for `request` so far is as many tokens as it counts, all to its
/// own requester.
pub open spec fn is_on_record(emitted: Seq<Emission>, request: ActiveRequest) -> bool {
    &&& only_tokens(heard(emitted, request.session_id))
    &&& heard(emitted, request.session_id).len() == request.generated
    &&& forall|i: int|
        0 <= i < emitted.len() && (#[trigger] emitted[i]).session_id == request.session_id
            ==> emitted[i].to == request.events
}

/// The record of what was sent fits the requests. Ids are given out in order. A
/// request being served has an id of its own and has heard its tokens and nothing
/// else; every other id that was given out has heard its tokens and one last
/// event; all that is sent about one id goes to one requester; nothing was sent
/// about an id that was not given out.
pub open spec fn ledger_is_right(v: EngineView) -> bool {
    &&& forall|i: int, j: int|
        0 <= i < j < v.active.len() ==> v.active[i].session_id != v.active[j].session_id
    &&& v.running matches Some(r) ==> forall|i: int|
        0 <= i < v.active.len() ==> (#[trigger] v.active[i]).session_id != r.session_id
    &&& forall|i: int| 0 <= i < v.active.len() ==> is_on_record(v.emitted, #[trigger] v.active[i])
    &&& v.running matches Some(r) ==> is_on_record(v.emitted, r)
    &&& forall|id: SessionId| #[trigger] is_served(v, id) ==> 0 < id < v.next_session
    &&& forall|id: SessionId|
        0 < id < v.next_session && !is_served(v, id) ==> concluded(#[trigger] heard(v.emitted, id))
    &&& forall|i: int| 0 <= i < v.emitted.len() ==> 0 < (#[trigger] v.emitted[i]).session_id
        < v.next_session
    &&& forall|i: int, j: int|
        0 <= i < j < v.emitted.len() && (#[trigger] v.emitted[i]).session_id == (
        #[trigger] v.emitted[j]).session_id ==> v.emitted[i].to == v.emitted[j].to
}

/// One move of an engine: it starts what is due, takes a request in, ends a step,
/// finds no request, or learns that none can come.
pub open spec fn moves(v: EngineView, w: EngineView) -> bool {
    ||| w == v.doing()
    ||| takes_in(v, w)
    ||| v.running is Some && exists|outcome: Result<Token, String>, now_ns: u128|
        (super::engine::goes_on(outcome) ==> v.running->0.step < usize::MAX) && w
            == #[trigger] v.step_ended(outcome, now_ns)
    ||| v.phase == EnginePhase::Fill && w == (EngineView { phase: EnginePhase::Filled, ..v })
    ||| v.due() == EngineAction::Receive && w == (EngineView { phase: EnginePhase::Stopped, ..v })
}

/// The engine takes a request in under the next session id, or refuses it.
pub open spec fn takes_in(v: EngineView, w: EngineView) -> bool {
    v.can_admit() && exists|
        events: tokio::sync::mpsc::UnboundedSender<EngineEvent>,
        accepted: tokio::sync::oneshot::Sender<SessionId>,
        refusal: Option<Seq<char>>,
        now_ns: u128,
    |
        w == #[trigger] v.allocated().admitted(v.next_session, events, accepted, refusal, now_ns)
}

/// What is sent about one session changes what no other session has heard.
proof fn lemma_heard_push(emitted: Seq<Emission>, e: Emission, id: SessionId)
    ensures
        heard(emitted.push(e), id) == if e.session_id == id {
            heard(emitted, id).push(e.event)
        } else {
            heard(emitted, id)
        },
{
    assert(emitted.push(e).drop_last() =~= emitted);
}

/// Nothing was heard of a session about which nothing was sent.
proof fn lemma_unheard(emitted: Seq<Emission>, id: SessionId)
    requires
        forall|i: int| 0 <= i < emitted.len() ==> (#[trigger] emitted[i]).session_id != id,
    ensures
        heard(emitted, id).len() == 0,
    decreases emitted.len(),
{
    if emitted.len() > 0 {
        assert(emitted.last() == emitted[emitted.len() - 1]);
        assert forall|i: int| 0 <= i < emitted.drop_last().len() implies (
        #[trigger] emitted.drop_last()[i]).session_id != id by {
            assert(emitted.drop_last()[i] == emitted[i]);
        }
        lemma_unheard(emitted.drop_last(), id);
    }
}

/// A request stays on record when something is sent about another session.
proof fn lemma_record_push_other(emitted: Seq<Emission>, e: Emission, request: ActiveRequest)
    requires
        is_on_record(emitted, request),
        e.session_id != request.session_id,
    ensures
        is_on_record(emitted.push(e), request),
{
    lemma_heard_push(emitted, e, request.session_id);
}

/// An engine that has done nothing yet has its record right.
pub proof fn new_engine_has_its_record_right(max_active: usize)
    ensures
        EngineView::start(max_active).wf(),
        ledger_is_right(EngineView::start(max_active)),
{
}

/// Starting what is due keeps the record right.
proof fn lemma_doing_keeps_ledger(v: EngineView)
    requires
        v.wf(),
        ledger_is_right(v),
    ensures
        v.doing().wf(),
        ledger_is_right(v.doing()),
        forall|id: SessionId| #[trigger] is_served(v.doing(), id) == is_served(v, id),
{
    let w = v.doing();
    if v.running is None && v.due() is Step {
        assert forall|i: int| 0 <= i < w.active.len() implies #[trigger] w.active[i]
            == v.active[i + 1] by {}
        assert forall|id: SessionId| #[trigger] is_served(w, id) == is_served(v, id) by {
            if is_served(v, id) {
                let i = choose|i: int|
                    0 <= i < v.active.len() && (#[trigger] v.active[i]).session_id == id;
                if i > 0 {
                    assert(w.active[i - 1] == v.active[i]);
                }
            }
            if is_served(w, id) {
                if w.running->0.session_id == id {
                    assert(v.active[0].session_id == id);
                } else {
                    let i = choose|i: int|
                        0 <= i < w.active.len() && (#[trigger] w.active[i]).session_id == id;
                    assert(v.active[i + 1].session_id == id);
                }
            }
        }
        assert forall|i: int, j: int|
            0 <= i < j < w.active.len() implies w.active[i].session_id != w.active[j].session_id by {
            assert(v.active[i + 1].session_id != v.active[j + 1].session_id);
        }
        assert forall|i: int| 0 <= i < w.active.len() implies (#[trigger] w.active[i]).session_id
            != v.active[0].session_id by {
            assert(v.active[0].session_id != v.active[i + 1].session_id);
        }
    }
}

/// Taking in a request keeps the record right.
proof fn lemma_admission_keeps_ledger(
    v: EngineView,
    events: tokio::sync::mpsc::UnboundedSender<EngineEvent>,
    accepted: tokio::sync::oneshot::Sender<SessionId>,
    refusal: Option<Seq<char>>,
    now_ns: u128,
)
    requires
        v.wf(),
        v.can_admit(),
        v.next_session < u64::MAX,
        ledger_is_right(v),
    ensures
        ({
            let w = v.allocated().admitted(v.next_session, events, accepted, refusal, now_ns);
            &&& w.wf()
            &&& ledger_is_right(w)
            &&& forall|id: SessionId| #[trigger]
                is_served(w, id) == (is_served(v, id) || (refusal is None && id == v.next_session))
            &&& forall|id: SessionId|
                id != v.next_session ==> #[trigger] heard(w.emitted, id) == heard(v.emitted, id)
        }),
{
    let w = v.allocated().admitted(v.next_session, events, accepted, refusal, now_ns);
    let id0 = v.next_session;
    lemma_unheard(v.emitted, id0);
    assert(!is_served(v, id0));
    match refusal {
        None => {
            let n = v.active.len() as int;
            assert(w.active[n].session_id == id0);
            assert forall|i: int| 0 <= i < n implies w.active[i] == v.active[i] by {}
            assert forall|i: int| 0 <= i < n implies (#[trigger] v.active[i]).session_id != id0 by {
                assert(is_served(v, v.active[i].session_id));
            }
            assert forall|id: SessionId| #[trigger] is_served(w, id) == (is_served(v, id) || id
                == id0) by {
                if is_served(v, id) {
                    let i = choose|i: int|
                        0 <= i < v.active.len() && (#[trigger] v.active[i]).session_id == id;
                    assert(w.active[i].session_id == id);
                }
                if is_served(w, id) && id != id0 {
                    let i = choose|i: int|
                        0 <= i < w.active.len() && (#[trigger] w.active[i]).session_id == id;
                    assert(v.active[i].session_id == id);
                }
            }
            assert(is_on_record(w.emitted, w.active[n]));
        },
        Some(cause) => {
            let e = Emission { session_id: id0, to: events, event: EventView::Error(cause) };
            assert(w.emitted == v.emitted.push(e));
            assert forall|id: SessionId| #[trigger] is_served(w, id) == is_served(v, id) by {
                assert(w.active == v.active);
            }
            assert forall|id: SessionId| id != id0 implies #[trigger] heard(w.emitted, id) == heard(
                v.emitted,
                id,
            ) by {
                lemma_heard_push(v.emitted, e, id);
            }
            lemma_heard_push(v.emitted, e, id0);
            assert(heard(w.emitted, id0).drop_last() =~= heard(v.emitted, id0));
            assert(concluded(heard(w.emitted, id0)));
            assert forall|i: int| 0 <= i < w.active.len() implies is_on_record(
                w.emitted,
                #[trigger] w.active[i],
            ) by {
                assert(is_served(v, v.active[i].session_id));
                lemma_record_push_other(v.emitted, e, v.active[i]);
            }
        },
    }
}

/// The end of a step keeps the record right.
proof fn lemma_step_end_keeps_ledger(v: EngineView, outcome: Result<Token, String>, now_ns: u128)
    requires
        v.wf(),
        v.running is Some,
        super::engine::goes_on(outcome) ==> v.running->0.step < usize::MAX,
        ledger_is_right(v),
    ensures
        ({
            let w = v.step_ended(outcome, now_ns);
            let running = v.running->0.session_id;
            &&& w.wf()
            &&& ledger_is_right(w)
            &&& forall|id: SessionId| #[trigger]
                is_served(w, id) == (is_served(v, id) && (id != running || super::engine::goes_on(
                    outcome,
                )))
            &&& forall|id: SessionId|
                id != running ==> #[trigger] heard(w.emitted, id) == heard(v.emitted, id)
        }),
{
    let w = v.step_ended(outcome, now_ns);
    let request = v.running->0;
    let running = request.session_id;
    let e = w.emitted.last();
    let n = v.active.len() as int;
    assert(w.emitted =~= v.emitted.push(e));
    assert(is_served(v, running));
    assert forall|id: SessionId| #[trigger] heard(w.emitted, id) == if running == id {
        heard(v.emitted, id).push(e.event)
    } else {
        heard(v.emitted, id)
    } by {
        lemma_heard_push(v.emitted, e, id);
    }
    assert(heard(w.emitted, running).drop_last() =~= heard(v.emitted, running));
    assert forall|i: int| 0 <= i < n implies w.active[i] == v.active[i] by {}
    assert forall|id: SessionId| #[trigger] is_served(w, id) == (is_served(v, id) && (id != running
        || super::engine::goes_on(outcome))) by {
        if is_served(v, id) && id != running {
            let i = choose|i: int|
                0 <= i < v.active.len() && (#[trigger] v.active[i]).session_id == id;
            assert(w.active[i].session_id == id);
        }
        if super::engine::goes_on(outcome) {
            assert(w.active[n].session_id == running);
        }
        if is_served(w, id) {
            let i = choose|i: int|
                0 <= i < w.active.len() && (#[trigger] w.active[i]).session_id == id;
            if i < n {
                assert(v.active[i].session_id == id);
            }
        }
    }
    assert forall|i: int| 0 <= i < w.active.len() implies is_on_record(
        w.emitted,
        #[trigger] w.active[i],
    ) by {
        if i < n {
            lemma_record_push_other(v.emitted, e, v.active[i]);
        }
    }
}

/// Whatever an engine does, its record stays right: what a request has heard is
/// tokens and then exactly one last event, and once that is sent, nothing more is
/// ever sent about it and it is not served again. Only a move about a session
/// changes what it has heard.
pub proof fn record_stays_right(v: EngineView, w: EngineView)
    requires
        v.wf(),
        ledger_is_right(v),
        v.next_session < u64::MAX,
        moves(v, w),
    ensures
        w.wf(),
        ledger_is_right(w),
        v.next_session <= w.next_session,
        w.max_active == v.max_active,
        forall|id: SessionId|
            0 < id < v.next_session && !is_served(v, id) ==> !(#[trigger] is_served(w, id)) && heard(
                w.emitted,
                id,
            ) == heard(v.emitted, id),
{
    if w == v.doing() {
        lemma_doing_keeps_ledger(v);
    } else if takes_in(v, w) {
        let (events, accepted, refusal, now_ns) = choose|
            events: tokio::sync::mpsc::UnboundedSender<EngineEvent>,
            accepted: tokio::sync::oneshot::Sender<SessionId>,
            refusal: Option<Seq<char>>,
            now_ns: u128,
        |
            w == #[trigger] v.allocated().admitted(
                v.next_session,
                events,
                accepted,
                refusal,
                now_ns,
            );
        lemma_admission_keeps_ledger(v, events, accepted, refusal, now_ns);
    } else if v.running is Some && exists|outcome: Result<Token, String>, now_ns: u128|
        (super::engine::goes_on(outcome) ==> v.running->0.step < usize::MAX) && w
            == #[trigger] v.step_ended(outcome, now_ns) {
        let (outcome, now_ns) = choose|outcome: Result<Token, String>, now_ns: u128|
            (super::engine::goes_on(outcome) ==> v.running->0.step < usize::MAX) && w
                == #[trigger] v.step_ended(outcome, now_ns);
        assert(is_served(v, v.running->0.session_id));
        lemma_step_end_keeps_ledger(v, outcome, now_ns);
    } else {
        assert(w.active == v.active && w.running == v.running && w.emitted == v.emitted);
        assert forall|id: SessionId| #[trigger] is_served(w, id) == is_served(v, id) by {}
    }
}

/// With one slot, requests are served one after the other: while a request is
/// served no other is, none is taken in, its step is what is due, and only the end
/// of its own last step makes room.
pub proof fn single_slot_serves_one_request_to_its_end(v: EngineView, w: EngineView, id: SessionId)
    requires
        v.wf(),
        v.max_active == 1,
        is_served(v, id),
        moves(v, w),
    ensures
        forall|other: SessionId| #[trigger] is_served(v, other) ==> other == id,
        !v.can_admit(),
        v.due() matches EngineAction::Step { session_id, .. } && session_id == id,
        is_served(w, id) || exists|outcome: Result<Token, String>, now_ns: u128|
            !super::engine::goes_on(outcome) && w == #[trigger] v.step_ended(outcome, now_ns),
{
    if v.running is None {
        assert(v.active[0].session_id == id);
    }
    if v.running is Some && exists|outcome: Result<Token, String>, now_ns: u128|
        (super::engine::goes_on(outcome) ==> v.running->0.step < usize::MAX) && w
            == #[trigger] v.step_ended(outcome, now_ns) {
        let (outcome, now_ns) = choose|outcome: Result<Token, String>, now_ns: u128|
            (super::engine::goes_on(outcome) ==> v.running->0.step < usize::MAX) && w
                == #[trigger] v.step_ended(outcome, now_ns);
        if super::engine::goes_on(outcome) {
            assert(w.active[0].session_id == id);
        }
    } else if w != v.doing() {
        assert(w.active == v.active && w.running == v.running);
        if v.running is None {
            assert(w.active[0].session_id == id);
        }
    }
}

/// The request whose turn it is takes its step and goes on. Where a slot is free,
/// no request is there to fill it.
pub open spec fn engine_turn(v: EngineView, token: Token, now_ns: u128) -> EngineView {
    let w = v.doing().step_ended(Ok(token), now_ns);
    if w.active.len() < w.max_active {
        EngineView { phase: EnginePhase::Filled, ..w }
    } else {
        w
    }
}

/// A step is due: no request is there to fill a slot with, or no slot is free.
pub open spec fn takes_no_request(v: EngineView) -> bool {
    v.phase == EnginePhase::Filled || v.active.len() == v.max_active
}

/// `tokens.len()` turns, one after the other.
pub open spec fn engine_turns(v: EngineView, tokens: Seq<Token>, now_ns: u128) -> EngineView
    decreases tokens.len(),
{
    if tokens.len() == 0 {
        v
    } else {
        engine_turn(engine_turns(v, tokens.drop_last(), now_ns), tokens.last(), now_ns)
    }
}

/// `request` after `n` more tokens.
pub open spec fn stepped_by(request: ActiveRequest, n: int) -> ActiveRequest {
    ActiveRequest {
        step: (request.step + n) as usize,
        generated: (request.generated + n) as usize,
        ..request
    }
}

/// The line after `n` turns: turn `k` took the request at place `k % m` of the `m` in
/// line, and put it behind the others one token further.
pub open spec fn line_after(line: Seq<ActiveRequest>, n: int) -> Seq<ActiveRequest> {
    let m = line.len() as int;
    Seq::new(line.len(), |i: int| stepped_by(line[(n + i) % m], (n + i) / m))
}

/// What is sent in the turns that yield `tokens`.
pub open spec fn sent_in_turns(line: Seq<ActiveRequest>, tokens: Seq<Token>) -> Seq<Emission> {
    Seq::new(
        tokens.len(),
        |k: int|
            Emission {
                session_id: line[k % (line.len() as int)].session_id,
                to: line[k % (line.len() as int)].events,
                event: EventView::Token(tokens[k].spec_text()),
            },
    )
}

/// One more turn moves the head of the line to its end.
proof fn lemma_line_turn(line: Seq<ActiveRequest>, n: int)
    requires
        0 <= n,
        line.len() > 0,
        forall|i: int|
            0 <= i < line.len() ==> (#[trigger] line[i]).step + n + 1 < usize::MAX && line[i].step
                == line[i].generated,
    ensures
        line_after(line, n + 1) == line_after(line, n).skip(1).push(
            line_after(line, n)[0].stepped(),
        ),
{
    let m = line.len() as int;
    let now = line_after(line, n);
    let next = line_after(line, n + 1);
    lemma_place(n, m);
    lemma_round(n, m);
    assert forall|i: int| 0 <= i < m implies next[i] == now.skip(1).push(now[0].stepped())[i] by {
        if i < m - 1 {
            assert(n + 1 + i == n + (i + 1));
        } else {
            assert(n + 1 + i == n + m);
            assert(now[0] == stepped_by(line[n % m], n / m));
            assert(next[i] == stepped_by(line[n % m], n / m + 1));
        }
    }
    assert(next =~= now.skip(1).push(now[0].stepped()));
}

/// Round robin: as long as no request ends and none is admitted, any number of
/// turns serves the requests in order, round after round. Turn `k` takes the
/// request at place `k % m` of the `m` in line, and its index is as many further as
/// there were rounds before, so every request counts its indices up without gap or
/// repeat and none is served twice before all others were.
pub proof fn requests_take_turns(v: EngineView, tokens: Seq<Token>, now_ns: u128)
    requires
        v.wf(),
        takes_no_request(v),
        v.active.len() > 0,
        forall|i: int| 0 <= i < tokens.len() ==> !(#[trigger] tokens[i]).is_end_of_stream,
        forall|i: int|
            0 <= i < v.active.len() ==> (#[trigger] v.active[i]).step + tokens.len() < usize::MAX,
    ensures
        ({
            let n = tokens.len() as int;
            let m = v.active.len() as int;
            let w = engine_turns(v, tokens, now_ns);
            &&& takes_no_request(w)
            &&& w.phase == EnginePhase::Fill || w.phase == EnginePhase::Filled
            &&& w.running is None
            &&& w.max_active == v.max_active
            &&& w.active == line_after(v.active, n)
            &&& w.due() == (EngineAction::Step {
                session_id: v.active[n % m].session_id,
                step: (v.active[n % m].step + n / m) as usize,
            })
            &&& v.active[n % m].step + n / m < usize::MAX
            &&& w.emitted == v.emitted + sent_in_turns(v.active, tokens)
        }),
    decreases tokens.len(),
{
    let n = tokens.len() as int;
    let m = v.active.len() as int;
    let w = engine_turns(v, tokens, now_ns);
    lemma_place(n, m);
    if n == 0 {
        assert forall|i: int| 0 <= i < m implies line_after(v.active, 0)[i] == v.active[i] by {
            lemma_small(i, m);
        }
        assert(line_after(v.active, 0) =~= v.active);
        assert(v.emitted + sent_in_turns(v.active, tokens) =~= v.emitted);
    } else {
        let fewer = tokens.drop_last();
        assert forall|i: int| 0 <= i < fewer.len() implies !(
        #[trigger] fewer[i]).is_end_of_stream by {
            assert(!tokens[i].is_end_of_stream);
        }
        requests_take_turns(v, fewer, now_ns);
        let u = engine_turns(v, fewer, now_ns);
        lemma_place(n - 1, m);
        assert(!tokens[n - 1].is_end_of_stream);
        lemma_turn(u, tokens.last(), now_ns);
        lemma_line_turn(v.active, n - 1);
        assert(sent_in_turns(v.active, tokens) =~= sent_in_turns(v.active, fewer).push(
            w.emitted.last(),
        ));
        assert(w.emitted =~= v.emitted + sent_in_turns(v.active, tokens));
    }
    assert(w.active[0] == stepped_by(v.active[n % m], n / m));
}

/// What one turn does to the line and to the record.
proof fn lemma_turn(u: EngineView, token: Token, now_ns: u128)
    requires
        u.running is None,
        u.phase == EnginePhase::Fill || u.phase == EnginePhase::Filled,
        takes_no_request(u),
        0 < u.active.len() <= u.max_active,
        !token.is_end_of_stream,
    ensures
        ({
            let w = engine_turn(u, token, now_ns);
            &&& takes_no_request(w)
            &&& w.phase == EnginePhase::Fill || w.phase == EnginePhase::Filled
            &&& w.running is None
            &&& w.max_active == u.max_active
            &&& w.active == u.active.skip(1).push(u.active[0].stepped())
            &&& w.emitted == u.emitted.push(
                Emission {
                    session_id: u.active[0].session_id,
                    to: u.active[0].events,
                    event: EventView::Token(token.spec_text()),
                },
            )
        }),
{
}

/// Where turn `n` of a line of `m` falls.
proof fn lemma_place(n: int, m: int)
    by (nonlinear_arith)
    requires
        0 <= n,
        0 < m,
    ensures
        0 <= n % m < m,
        0 <= n / m <= n,
{
}

/// The first round takes each place of the line once.
proof fn lemma_small(i: int, m: int)
    by (nonlinear_arith)
    requires
        0 <= i < m,
    ensures
        i % m == i,
        i / m == 0,
{
}

/// One round later it is the same place's turn.
proof fn lemma_round(n: int, m: int)
    requires
        0 <= n,
        0 < m,
    ensures
        (n + m) % m == n % m,
        (n + m) / m == n / m + 1,
{
    vstd::arithmetic::div_mod::lemma_mod_add_multiples_vanish(n, m);
    vstd::arithmetic::div_mod::lemma_div_plus_one(n, m);
}

/// The `n`-th session id that an engine gives out.
pub open spec fn nth_engine_session(n: nat) -> SessionId
    decreases n,
{
    if n == 0 {
        1
    } else {
        super::engine::session_after(nth_engine_session((n - 1) as nat))
    }
}

proof fn lemma_nth_engine_session(n: nat)
    ensures
        nth_engine_session(n) == 1 + n % 0xffff_ffff_ffff_ffff,
    decreases n,
{
    if n > 0 {
        lemma_nth_engine_session((n - 1) as nat);
    }
}

/// The session ids of an engine are never zero, which stands for no session, and
/// do not repeat before all others have been given out.
pub proof fn engine_sessions_are_distinct(i: nat, j: nat)
    requires
        i < j,
        j - i < 0xffff_ffff_ffff_ffff,
    ensures
        nth_engine_session(i) != 0,
        nth_engine_session(i) != nth_engine_session(j),
{
    lemma_nth_engine_session(i);
    lemma_nth_engine_session(j);
}

/// An engine with work never waits, and one without work stops when its requesters
/// are gone, and not before.
pub proof fn engine_waits_only_when_idle(v: EngineView)
    requires
        v.wf(),
    ensures
        v.due() == EngineAction::Receive <==> v.phase == EnginePhase::Filled && v.active.len() == 0,
        v.due() == EngineAction::Stop <==> v.phase == EnginePhase::Stopped,
        v.due() == EngineAction::Receive ==> (EngineView {
            phase: EnginePhase::Stopped,
            ..v
        }).due() == EngineAction::Stop,
        v.active.len() > 0 && v.phase == EnginePhase::Filled ==> v.due() == (EngineAction::Step {
            session_id: v.active[0].session_id,
            step: v.active[0].step,
        }),
{
}

/// The master keeps the state of no session but those being served.
pub open spec fn no_stray_sessions<G: Generator>(engine: PipelineEngine<G>) -> bool {
    forall|id: SessionId| #[trigger]
        engine.master.sessions@.contains_key(id) ==> is_served(engine.turns@, id)
}

/// Taking in a request leaves no stray session, whether or not its session could
/// be created.
pub proof fn admission_leaves_no_stray_session<G: Generator>(
    before: PipelineEngine<G>,
    request: EngineRequest,
    created: Result<(), MasterError>,
    after: PipelineEngine<G>,
)
    requires
        no_stray_sessions(before),
        PipelineEngine::admits(before, request, created, after),
    ensures
        no_stray_sessions(after),
        created is Ok ==> is_served(after.turns@, before.turns@.next_session)
            && after.master.sessions@.contains_key(before.turns@.next_session),
{
    let n = before.turns@.active.len() as int;
    let v = before.turns@;
    let w = after.turns@;
    if created is Ok {
        assert(w.active[n].session_id == v.next_session);
    }
    assert forall|id: SessionId| #[trigger] after.master.sessions@.contains_key(id) implies is_served(
        w,
        id,
    ) by {
        if before.master.sessions@.contains_key(id) {
            assert(is_served(v, id));
            if v.running is None || v.running->0.session_id != id {
                let i = choose|i: int|
                    0 <= i < v.active.len() && (#[trigger] v.active[i]).session_id == id;
                assert(w.active[i] == v.active[i]);
            }
        }
    }
}

/// Starting what is due leaves no stray session.
pub proof fn starting_leaves_no_stray_session<G: Generator>(
    before: PipelineEngine<G>,
    after: PipelineEngine<G>,
)
    requires
        before.wf(),
        no_stray_sessions(before),
        after.turns@ == before.turns@.doing(),
        after.master == before.master,
    ensures
        no_stray_sessions(after),
{
    let v = before.turns@;
    let w = after.turns@;
    assert forall|id: SessionId| #[trigger] after.master.sessions@.contains_key(id) implies is_served(
        w,
        id,
    ) by {
        assert(is_served(v, id));
        if v.running is None {
            let i = choose|i: int|
                0 <= i < v.active.len() && (#[trigger] v.active[i]).session_id == id;
            if v.due() is Step && i > 0 {
                assert(w.active[i - 1] == v.active[i]);
            }
        }
    }
}

/// Running the step of the session whose turn it is leaves no stray session,
/// whatever the model makes of it.
pub proof fn running_leaves_no_stray_session<G: Generator, T>(
    before: PipelineEngine<G>,
    begun: Master<G>,
    ran: Master<G>,
    after: PipelineEngine<G>,
    start: Result<(), MasterError>,
    outcome: Result<T, String>,
    res: Result<T, MasterError>,
)
    requires
        no_stray_sessions(before),
        before.turns@.running is Some,
        Master::begins_step(before.master, before.turns@.running->0.session_id, start, begun),
        match start {
            Ok(()) => {
                &&& ran.sessions@ == begun.sessions@
                &&& Master::ends_step(
                    ran,
                    before.turns@.running->0.session_id,
                    outcome,
                    res,
                    after.master,
                )
            },
            Err(_) => after.master == begun,
        },
        after.turns@ == before.turns@,
    ensures
        no_stray_sessions(after),
{
    let running = before.turns@.running->0.session_id;
    assert forall|id: SessionId| #[trigger] after.master.sessions@.contains_key(id) implies is_served(
        after.turns@,
        id,
    ) by {
        if id != running {
            assert(before.master.sessions@.contains_key(id));
        }
    }
}

/// The end of a turn leaves no stray session: a request that is over takes the
/// state of its session with it.
pub proof fn turn_end_leaves_no_stray_session<G: Generator>(
    before: PipelineEngine<G>,
    outcome: Result<Token, String>,
    after: PipelineEngine<G>,
)
    requires
        before.wf(),
        no_stray_sessions(before),
        before.turns@.running is Some,
        PipelineEngine::ends_turn(before, outcome, after),
    ensures
        no_stray_sessions(after),
        !super::engine::goes_on(outcome) ==> !after.master.sessions@.contains_key(
            before.turns@.running->0.session_id,
        ),
{
    let v = before.turns@;
    let w = after.turns@;
    let running = v.running->0.session_id;
    assert forall|id: SessionId| #[trigger] after.master.sessions@.contains_key(id) implies is_served(
        w,
        id,
    ) by {
        assert(before.master.sessions@.contains_key(id));
        assert(is_served(v, id));
        if id == running {
            assert(w.active[v.active.len() as int].session_id == id);
        } else {
            let i = choose|i: int|
                0 <= i < v.active.len() && (#[trigger] v.active[i]).session_id == id;
            assert(w.active[i] == v.active[i]);
        }
    }
}

/// The master holds at most as many sessions as there are slots, however many
/// requests were served.
pub proof fn sessions_fit_in_the_slots<G: Generator>(engine: PipelineEngine<G>)
    requires
        engine.wf(),
        no_stray_sessions(engine),
    ensures
        engine.master.sessions@.dom().finite(),
        engine.master.sessions@.len() <= engine.turns@.max_active,
{
    let v = engine.turns@;
    let line = Seq::new(v.active.len(), |i: int| v.active[i].session_id);
    let ids = if v.running is Some {
        line.push(v.running->0.session_id)
    } else {
        line
    };
    assert forall|id: SessionId| engine.master.sessions@.dom().contains(id) implies #[trigger]
        ids.to_set().contains(id) by {
        assert(engine.master.sessions@.contains_key(id));
        assert(is_served(v, id));
        if v.running is Some && v.running->0.session_id == id {
            assert(ids[v.active.len() as int] == id);
        } else {
            let i = choose|i: int|
                0 <= i < v.active.len() && (#[trigger] v.active[i]).session_id == id;
            assert(ids[i] == id);
        }
    }
    ids.lemma_cardinality_of_set();
    vstd::set_lib::lemma_len_subset(engine.master.sessions@.dom(), ids.to_set());
}

/// A look into the inbox was due at `a` and led to `b`; a request that was found was
/// taken in with the outcome `created`.
pub open spec fn fill_step<G: Generator>(
    a: PipelineEngine<G>,
    b: PipelineEngine<G>,
    created: Result<(), MasterError>,
) -> bool {
    &&& a.wf()
    &&& b.wf()
    &&& a.turns@.due() == EngineAction::TryReceive
    &&& PipelineEngine::looks(a, b)
    &&& PipelineEngine::found(a, b) matches Some(request) ==> PipelineEngine::admits(
        a,
        request,
        created,
        b,
    )
}

/// `after` is `before` followed by exactly those of `requests` whose session was
/// created, in their order, each at its first step.
pub open spec fn joined_by(
    before: Seq<ActiveRequest>,
    requests: Seq<EngineRequest>,
    created: Seq<Result<(), MasterError>>,
    after: Seq<ActiveRequest>,
) -> bool
    decreases requests.len(),
{
    if requests.len() == 0 {
        after == before
    } else if created[requests.len() - 1] is Ok {
        &&& after.len() > 0
        &&& after.last().events == requests.last().events
        &&& after.last().step == 0
        &&& after.last().generated == 0
        &&& joined_by(before, requests.drop_last(), created, after.drop_last())
    } else {
        joined_by(before, requests.drop_last(), created, after)
    }
}

/// Every look has an outcome for the request that it found.
pub proof fn looks_have_outcomes<G: Generator>(a: PipelineEngine<G>, b: PipelineEngine<G>) -> (created:
    Result<(), MasterError>)
    requires
        a.wf(),
        b.wf(),
        a.turns@.due() == EngineAction::TryReceive,
        PipelineEngine::looks(a, b),
    ensures
        fill_step(a, b, created),
{
    if let Some(request) = PipelineEngine::found(a, b) {
        choose|created: Result<(), MasterError>| #[trigger]
            PipelineEngine::admits(a, request, created, b)
    } else {
        Ok(())
    }
}

/// Only the last of `created` may decide the rest of the line.
proof fn lemma_joined_by_prefix(
    before: Seq<ActiveRequest>,
    requests: Seq<EngineRequest>,
    created: Seq<Result<(), MasterError>>,
    longer: Seq<Result<(), MasterError>>,
    after: Seq<ActiveRequest>,
)
    requires
        joined_by(before, requests, created, after),
        requests.len() <= created.len() <= longer.len(),
        created == longer.take(created.len() as int),
    ensures
        joined_by(before, requests, longer, after),
    decreases requests.len(),
{
    if requests.len() > 0 {
        let i = requests.len() - 1;
        assert(created[i] == longer[i]);
        if created[i] is Ok {
            lemma_joined_by_prefix(before, requests.drop_last(), created, longer, after.drop_last());
        } else {
            lemma_joined_by_prefix(before, requests.drop_last(), created, longer, after);
        }
    }
}

/// Filling the slots takes requests out of the inbox in their order until the slots
/// are full or nothing is there. The requests in line keep their places at the
/// front, and those taken in join behind them in order of arrival, all but those
/// whose session could not be created, which take no slot. `states` are the engine
/// before the first look and after each, `created` what came of each.
pub proof fn slots_fill_in_order_of_arrival<G: Generator>(
    states: Seq<PipelineEngine<G>>,
    created: Seq<Result<(), MasterError>>,
)
    requires
        states.len() > 1,
        created.len() == states.len() - 1,
        forall|i: int|
            0 <= i < states.len() - 1 ==> #[trigger] fill_step(
                states[i],
                states[i + 1],
                created[i],
            ),
    ensures
        ({
            let first = states[0];
            let last = states.last();
            let n = first.inbox.taken().len() as int;
            let looks = states.len() - 1;
            let found = last.inbox.taken().skip(n);
            &&& last.inbox.looked() == first.inbox.looked() + looks
            &&& n <= last.inbox.taken().len()
            &&& last.inbox.taken().take(n) == first.inbox.taken()
            &&& found.len() == looks || (found.len() == looks - 1 && PipelineEngine::found(
                states[looks - 1],
                last,
            ) is None)
            &&& joined_by(first.turns@.active, found, created, last.turns@.active)
            &&& last.turns@.active.len() <= last.turns@.max_active
            &&& last.turns@.max_active == first.turns@.max_active
            &&& last.turns@.due() != EngineAction::TryReceive ==> {
                ||| last.turns@.active.len() == last.turns@.max_active
                ||| PipelineEngine::found(states[looks - 1], last) is None
            }
        }),
    decreases states.len(),
{
    let first = states[0];
    let last = states.last();
    let n = first.inbox.taken().len() as int;
    let k = states.len() - 2;
    let mid = states[k];
    assert(fill_step(states[k], states[k + 1], created[k]));
    let earlier = mid.inbox.taken().skip(n);
    let all = last.inbox.taken().skip(n);
    if k > 0 {
        let before = states.drop_last();
        let so_far = created.drop_last();
        assert forall|i: int| 0 <= i < before.len() - 1 implies #[trigger] fill_step(
            before[i],
            before[i + 1],
            so_far[i],
        ) by {
            assert(fill_step(states[i], states[i + 1], created[i]));
        }
        slots_fill_in_order_of_arrival(before, so_far);
        assert(before.last() == mid);
        assert(so_far =~= created.take(k));
        assert(earlier.len() == k) by {
            if PipelineEngine::found(states[k - 1], mid) is None {
                assert(fill_step(states[k - 1], states[k - 1 + 1], created[k - 1]));
                assert(mid.turns@.phase == EnginePhase::Filled);
            }
        }
        lemma_joined_by_prefix(first.turns@.active, earlier, so_far, created, mid.turns@.active);
    } else {
        assert(mid.inbox.taken().take(n) =~= first.inbox.taken());
        assert(earlier =~= Seq::<EngineRequest>::empty());
    }
    assert(joined_by(first.turns@.active, earlier, created, mid.turns@.active));
    assert(last.inbox.taken().take(n) =~= mid.inbox.taken().take(n));
    match PipelineEngine::found(mid, last) {
        None => {
            assert(all =~= earlier);
        },
        Some(request) => {
            assert(all =~= earlier.push(request));
            assert(all.drop_last() =~= earlier);
            if created[k] is Ok {
                assert(last.turns@.active.drop_last() =~= mid.turns@.active);
            } else {
                assert(last.turns@.active == mid.turns@.active);
            }
        },
    }
}

/// The step of the session whose turn it is ran, from `before` to `after`.
pub open spec fn runs_step<G: Generator>(
    before: PipelineEngine<G>,
    after: PipelineEngine<G>,
) -> bool {
    &&& before.turns@.running is Some
    &&& after.turns@ == before.turns@
    &&& exists|begun: Master<G>, start: Result<(), MasterError>|
        {
            &&& #[trigger] Master::begins_step(
                before.master,
                before.turns@.running->0.session_id,
                start,
                begun,
            )
            &&& match start {
                Ok(()) => exists|
                    ran: Master<G>,
                    outcome: Result<Token, String>,
                    res: Result<Token, MasterError>,
                |
                    ran.sessions@ == begun.sessions@ && #[trigger] Master::ends_step(
                        ran,
                        before.turns@.running->0.session_id,
                        outcome,
                        res,
                        after.master,
                    ),
                Err(_) => after.master == begun,
            }
        }
}

/// One thing that is done with an engine: it starts what is due, takes a request
/// in, looks for one, runs a step, ends a turn, learns that no request can come, or
/// has its owner wait for one.
pub open spec fn works<G: Generator>(before: PipelineEngine<G>, after: PipelineEngine<G>) -> bool {
    ||| {
        &&& after.turns@ == before.turns@.doing()
        &&& after.master == before.master
        &&& after.inbox == before.inbox
    }
    ||| before.turns@.can_admit() && after.inbox == before.inbox && exists|
        request: EngineRequest,
        created: Result<(), MasterError>,
    |
        #[trigger] PipelineEngine::admits(before, request, created, after)
    ||| before.turns@.due() == EngineAction::TryReceive && PipelineEngine::looks(before, after)
    ||| runs_step(before, after) && after.inbox == before.inbox
    ||| before.turns@.running is Some && after.inbox == before.inbox && exists|
        outcome: Result<Token, String>,
    |
        (super::engine::goes_on(outcome) ==> before.turns@.running->0.step < usize::MAX)
            && #[trigger] PipelineEngine::ends_turn(before, outcome, after)
    ||| {
        &&& before.turns@.due() == EngineAction::Receive
        &&& after.turns@ == (EngineView { phase: EnginePhase::Stopped, ..before.turns@ })
        &&& after.master == before.master
        &&& after.inbox == before.inbox
    }
    ||| {
        &&& before.turns@.due() == EngineAction::Receive
        &&& after.turns@ == before.turns@
        &&& after.master == before.master
        &&& after.inbox.same_channel(&before.inbox)
    }
}

/// The sender that came with an engine feeds that engine throughout its run.
pub proof fn sender_feeds_its_engine<G: Generator>(
    tx: tokio::sync::mpsc::UnboundedSender<EngineRequest>,
    trace: Seq<PipelineEngine<G>>,
    k: int,
)
    requires
        0 <= k < trace.len(),
        super::channel::feeds(tx, trace[0].inbox.source()),
        forall|i: int| 0 <= i < trace.len() - 1 ==> #[trigger] works(trace[i], trace[i + 1]),
    ensures
        super::channel::feeds(tx, trace[k].inbox.source()),
    decreases k,
{
    if k > 0 {
        sender_feeds_its_engine(tx, trace, k - 1);
        assert(works(trace[k - 1], trace[k - 1 + 1]));
    }
}

/// Nothing that is done with an engine leaves a stray session, and the number of
/// slots stays.
pub proof fn work_leaves_no_stray_session<G: Generator>(
    before: PipelineEngine<G>,
    after: PipelineEngine<G>,
)
    requires
        before.wf(),
        no_stray_sessions(before),
        works(before, after),
    ensures
        no_stray_sessions(after),
        after.turns@.max_active == before.turns@.max_active,
{
    let v = before.turns@;
    let w = after.turns@;
    if w == v.doing() && after.master == before.master {
        starting_leaves_no_stray_session(before, after);
    } else if exists|request: EngineRequest, created: Result<(), MasterError>| #[trigger]
        PipelineEngine::admits(before, request, created, after) {
        let (request, created) = choose|request: EngineRequest, created: Result<(), MasterError>|
            #[trigger]
            PipelineEngine::admits(before, request, created, after);
        admission_leaves_no_stray_session(before, request, created, after);
    } else if runs_step(before, after) {
        let running = v.running->0.session_id;
        let (begun, start) = choose|begun: Master<G>, start: Result<(), MasterError>|
            {
                &&& #[trigger] Master::begins_step(before.master, running, start, begun)
                &&& match start {
                    Ok(()) => exists|
                        ran: Master<G>,
                        outcome: Result<Token, String>,
                        res: Result<Token, MasterError>,
                    |
                        ran.sessions@ == begun.sessions@ && #[trigger] Master::ends_step(
                            ran,
                            running,
                            outcome,
                            res,
                            after.master,
                        ),
                    Err(_) => after.master == begun,
                }
            };
        match start {
            Ok(()) => {
                let (ran, outcome, res) = choose|
                    ran: Master<G>,
                    outcome: Result<Token, String>,
                    res: Result<Token, MasterError>,
                |
                    ran.sessions@ == begun.sessions@ && #[trigger] Master::ends_step(
                        ran,
                        running,
                        outcome,
                        res,
                        after.master,
                    );
                running_leaves_no_stray_session(before, begun, ran, after, start, outcome, res);
            },
            Err(e) => {
                running_leaves_no_stray_session(
                    before,
                    begun,
                    begun,
                    after,
                    start,
                    Err::<Token, String>(arbitrary()),
                    Err::<Token, MasterError>(e),
                );
            },
        }
    } else if exists|outcome: Result<Token, String>| #[trigger]
        PipelineEngine::ends_turn(before, outcome, after) {
        let outcome = choose|outcome: Result<Token, String>| #[trigger]
            PipelineEngine::ends_turn(before, outcome, after);
        turn_end_leaves_no_stray_session(before, outcome, after);
    } else {
        assert(w.active == v.active && w.running == v.running);
        assert(after.master == before.master);
        assert forall|id: SessionId| #[trigger]
            after.master.sessions@.contains_key(id) implies is_served(w, id) by {
            assert(is_served(v, id));
            if v.running is None || v.running->0.session_id != id {
                let i = choose|i: int|
                    0 <= i < v.active.len() && (#[trigger] v.active[i]).session_id == id;
                assert(w.active[i].session_id == id);
            }
        }
    }
}

/// However many requests are served, the master never holds more sessions than
/// there are slots, and holds the state of no request that is over. `trace` is a run
/// of an engine from its start.
pub proof fn sessions_stay_bounded<G: Generator>(max_active: usize, trace: Seq<PipelineEngine<G>>)
    requires
        trace.len() > 0,
        trace[0].turns@ == EngineView::start(max_active),
        trace[0].master.sessions@ == Map::<SessionId, G::State>::empty(),
        forall|i: int| 0 <= i < trace.len() ==> (#[trigger] trace[i]).wf(),
        forall|i: int| 0 <= i < trace.len() - 1 ==> #[trigger] works(trace[i], trace[i + 1]),
    ensures
        no_stray_sessions(trace.last()),
        trace.last().master.sessions@.dom().finite(),
        trace.last().turns@.max_active == trace[0].turns@.max_active,
        trace.last().master.sessions@.len() <= if max_active == 0 {
            1
        } else {
            max_active as nat
        },
    decreases trace.len(),
{
    if trace.len() > 1 {
        let before = trace.drop_last();
        assert forall|i: int| 0 <= i < before.len() implies (#[trigger] before[i]).wf() by {
            assert(trace[i].wf());
        }
        assert forall|i: int| 0 <= i < before.len() - 1 implies #[trigger] works(
            before[i],
            before[i + 1],
        ) by {
            assert(works(trace[i], trace[i + 1]));
        }
        sessions_stay_bounded(max_active, before);
        let i = trace.len() - 2;
        assert(works(trace[i], trace[i + 1]));
        assert(trace[i].wf());
        work_leaves_no_stray_session(trace[i], trace[i + 1]);
    }
    assert(trace[trace.len() - 1].wf());
    sessions_fit_in_the_slots(trace.last());
}

/// Whatever is done with an engine is a move of its requests or leaves them alone.
pub proof fn work_is_moves<G: Generator>(before: PipelineEngine<G>, after: PipelineEngine<G>)
    requires
        before.wf(),
        works(before, after),
    ensures
        moves(before.turns@, after.turns@) || after.turns@ == before.turns@,
{
}

/// Every request of a run hears its tokens and then exactly one last event: the
/// end, with the number of tokens, or an error. `trace` is a run of an engine from
/// its start, of fewer requests than there are session ids. A request that is still
/// served has heard tokens only, as many as it counts, and all of it went to its
/// requester.
pub proof fn requests_hear_tokens_and_one_end<G: Generator>(
    max_active: usize,
    trace: Seq<PipelineEngine<G>>,
)
    requires
        trace.len() > 0,
        trace[0].turns@ == EngineView::start(max_active),
        forall|i: int|
            0 <= i < trace.len() - 1 ==> #[trigger] works(trace[i], trace[i + 1])
                && trace[i].turns@.next_session < u64::MAX,
    ensures
        trace.last().wf(),
        ledger_is_right(trace.last().turns@),
    decreases trace.len(),
{
    if trace.len() == 1 {
        new_engine_has_its_record_right(max_active);
    } else {
        let before = trace.drop_last();
        assert forall|i: int| 0 <= i < before.len() - 1 implies #[trigger] works(
            before[i],
            before[i + 1],
        ) && before[i].turns@.next_session < u64::MAX by {
            assert(works(trace[i], trace[i + 1]));
        }
        requests_hear_tokens_and_one_end(max_active, before);
        let i = trace.len() - 2;
        assert(works(trace[i], trace[i + 1]));
        work_is_moves(trace[i], trace[i + 1]);
        if trace[i + 1].turns@ != trace[i].turns@ {
            record_stays_right(trace[i].turns@, trace[i + 1].turns@);
        }
    }
}

} // verus!
