//! What calls of the engine promise their callers.

use vstd::prelude::*;

use crate::models::generator::Generator;
use crate::models::Token;
use crate::text;

use super::channel::{AnswerLog, Emission, EngineClock, EventLog, Inbox};
use super::engine::{
    EngineAction, EngineEvent, EnginePhase, EngineRequest, EngineTurns, EngineView, EventView,
    PipelineEngine,
};
use super::master::{Master, MasterError};
use super::SessionId;

verus! {

/// Events are put on record as what they are: each keeps its kind and what it carries.
pub proof fn events_are_recorded_as_they_are(event: EngineEvent)
    ensures
        event matches EngineEvent::Token(t) ==> event@ == EventView::Token(t@),
        event matches EngineEvent::Finished { generated_tokens, elapsed_ns } ==> event@ == (
        EventView::Finished { generated_tokens, elapsed_ns }),
        event matches EngineEvent::Error(cause) ==> event@ == EventView::Error(cause@),
{
}

/// Records start out empty, and an inbox is on the channel that it was given.
pub proof fn records_start_out_empty<T>(
    answers: AnswerLog<T>,
    events: EventLog,
    requests: tokio::sync::mpsc::UnboundedReceiver<EngineRequest>,
    inbox: Inbox,
    clock: EngineClock,
)
    requires
        call_ensures(AnswerLog::<T>::new, (), answers),
        call_ensures(EventLog::new, (), events),
        call_ensures(Inbox::new, (requests,), inbox),
        call_ensures(EngineClock::new, (), clock),
    ensures
        answers@.len() == 0,
        events@.len() == 0,
        inbox.source() == requests,
        inbox.looked() == 0,
        inbox.taken().len() == 0,
        clock.readings().len() == 0,
{
}

/// Nothing but the phase, the line and the running request differs.
pub open spec fn same_books(a: EngineView, b: EngineView) -> bool {
    &&& a.max_active == b.max_active
    &&& a.next_session == b.next_session
    &&& a.accepted == b.accepted
    &&& a.emitted == b.emitted
}

/// `after` has exactly one event more than `before`, and it is `sent`.
pub open spec fn sent_one(before: EngineView, after: EngineView, sent: Emission) -> bool {
    &&& after.emitted.len() == before.emitted.len() + 1
    &&& after.emitted.last() == sent
    &&& after.emitted.drop_last() == before.emitted
}

/// A new engine has the slots that were asked for, or one, and has done nothing.
pub proof fn new_turns_are_idle(max_active: usize, t: EngineTurns)
    requires
        call_ensures(EngineTurns::new, (max_active,), t),
    ensures
        max_active > 0 ==> t@.max_active == max_active,
        max_active == 0 ==> t@.max_active == 1,
        t@.active.len() == 0,
        t@.running is None,
        t@.next_session == 1,
        t@.accepted.len() == 0,
        t@.emitted.len() == 0,
        t@.phase == EnginePhase::Fill,
{
}

/// What is due is found out in this order: an engine that has stopped stays so; a step
/// that runs goes on; a free slot is filled first, unless nothing was there; then the
/// request that has waited longest takes its step; with none, a request is awaited. A
/// step that starts takes exactly that request out of the line.
pub proof fn next_action_is_the_longest_waiting(t: &mut EngineTurns, res: EngineAction)
    requires
        call_ensures(EngineTurns::next_action, (t,), res),
        old(t)@.running is Some <==> old(t)@.phase == EnginePhase::Running,
    ensures
        same_books(old(t)@, final(t)@),
        old(t)@.phase == EnginePhase::Stopped <==> res == EngineAction::Stop,
        res == EngineAction::TryReceive <==> old(t)@.phase == EnginePhase::Fill
            && old(t)@.active.len() < old(t)@.max_active,
        !(res is Step) ==> final(t)@ == old(t)@,
        res matches EngineAction::Step { session_id, step } ==> {
            &&& final(t)@.phase == EnginePhase::Running
            &&& final(t)@.running is Some
            &&& final(t)@.running->0.session_id == session_id
            &&& final(t)@.running->0.step == step
            &&& match old(t)@.running {
                Some(r) => final(t)@.running == Some(r) && final(t)@.active == old(t)@.active,
                None => {
                    &&& old(t)@.active.len() > 0
                    &&& final(t)@.running == Some(old(t)@.active[0])
                    &&& old(t)@.active == seq![old(t)@.active[0]] + final(t)@.active
                },
            }
        },
        res == EngineAction::Receive ==> old(t)@.active.len() == 0,
{
    if old(t)@.running is None && res is Step {
        assert(old(t)@.active =~= seq![old(t)@.active[0]] + final(t)@.active);
    }
}

/// Ids are given out one after the other, never zero, from one again after the last.
pub proof fn engine_ids_follow_each_other(
    t: &mut EngineTurns,
    u: &mut EngineTurns,
    first: SessionId,
    second: SessionId,
)
    requires
        call_ensures(EngineTurns::allocate_session_id, (t,), first),
        *u == *final(t),
        call_ensures(EngineTurns::allocate_session_id, (u,), second),
        old(t)@.next_session != 0,
    ensures
        first == old(t)@.next_session,
        first < u64::MAX ==> second == first + 1,
        first == u64::MAX ==> second == 1,
        first != 0 && second != 0,
        final(t)@.phase == old(t)@.phase,
        final(t)@.active == old(t)@.active,
        final(t)@.running == old(t)@.running,
        final(t)@.max_active == old(t)@.max_active,
        final(t)@.accepted == old(t)@.accepted,
        final(t)@.emitted == old(t)@.emitted,
{
}

/// Finding no request, and learning that none can come, change nothing but the phase.
pub proof fn reports_change_the_phase_alone(t: &mut EngineTurns, u: &mut EngineTurns)
    requires
        call_ensures(EngineTurns::nothing_received, (t,), ()),
        call_ensures(EngineTurns::closed, (u,), ()),
    ensures
        final(t)@.phase == EnginePhase::Filled,
        same_books(old(t)@, final(t)@),
        final(t)@.active == old(t)@.active,
        final(t)@.running == old(t)@.running,
        final(u)@.phase == EnginePhase::Stopped,
        same_books(old(u)@, final(u)@),
        final(u)@.active == old(u)@.active,
        final(u)@.running == old(u)@.running,
{
}

/// `after` is `before` with a request taken in under `id`, at the end of the line and at
/// its first step, its requester told the id over its own channel; no event was sent.
pub open spec fn took_in(
    before: EngineView,
    after: EngineView,
    id: SessionId,
    events: tokio::sync::mpsc::UnboundedSender<EngineEvent>,
    accepted: tokio::sync::oneshot::Sender<SessionId>,
    now_ns: u128,
) -> bool {
    &&& after.active.len() == before.active.len() + 1
    &&& after.active.drop_last() == before.active
    &&& after.active.last().session_id == id
    &&& after.active.last().step == 0
    &&& after.active.last().generated == 0
    &&& after.active.last().started_ns == now_ns
    &&& after.active.last().events == events
    &&& after.accepted.len() == before.accepted.len() + 1
    &&& after.accepted.drop_last() == before.accepted
    &&& after.accepted.last().to == accepted
    &&& after.accepted.last().value == id
    &&& after.emitted == before.emitted
}

/// `after` is `before` with a request refused: its requester heard the reason as an
/// error and nothing else, and got no id; the line is what it was.
pub open spec fn turned_away(
    before: EngineView,
    after: EngineView,
    id: SessionId,
    events: tokio::sync::mpsc::UnboundedSender<EngineEvent>,
    cause: Seq<char>,
) -> bool {
    &&& sent_one(
        before,
        after,
        Emission { session_id: id, to: events, event: EventView::Error(cause) },
    )
    &&& after.active == before.active
    &&& after.accepted == before.accepted
}

/// A request whose session was created is taken in, one whose session was not is turned
/// away with the reason.
pub proof fn created_sessions_are_taken_in(
    t: &mut EngineTurns,
    id: SessionId,
    events: tokio::sync::mpsc::UnboundedSender<EngineEvent>,
    accepted: tokio::sync::oneshot::Sender<SessionId>,
    created: Result<(), String>,
    now_ns: u128,
)
    requires
        call_ensures(EngineTurns::admit_session, (t, id, events, accepted, created, now_ns), ()),
    ensures
        match created {
            Ok(_) => took_in(old(t)@, final(t)@, id, events, accepted, now_ns),
            Err(cause) => turned_away(old(t)@, final(t)@, id, events, cause@),
        },
        final(t)@.phase == EnginePhase::Fill,
        final(t)@.running == old(t)@.running,
        final(t)@.max_active == old(t)@.max_active,
        final(t)@.next_session == old(t)@.next_session,
{
    match created {
        Ok(_) => {
            assert(final(t)@.active.drop_last() =~= old(t)@.active);
            assert(final(t)@.accepted.drop_last() =~= old(t)@.accepted);
        },
        Err(_) => {
            assert(final(t)@.emitted.drop_last() =~= old(t)@.emitted);
        },
    }
}

/// The event that a requester hears tells how its step ended: an end-of-stream token is
/// the end, with the tokens and the time so far; any other token is its text; a failure
/// is that failure, whatever came before.
pub open spec fn tells(
    event: EventView,
    outcome: Result<Token, String>,
    generated: usize,
    started_ns: u128,
    now_ns: u128,
) -> bool {
    &&& event is Error <==> outcome is Err
    &&& outcome matches Err(cause) ==> event == EventView::Error(cause@)
    &&& event is Finished <==> outcome is Ok && outcome->Ok_0.is_end_of_stream
    &&& event is Token <==> outcome is Ok && !outcome->Ok_0.is_end_of_stream
    &&& event matches EventView::Finished { generated_tokens, elapsed_ns } ==> {
        &&& generated_tokens == generated
        &&& now_ns >= started_ns ==> elapsed_ns == now_ns - started_ns
        &&& now_ns < started_ns ==> elapsed_ns == 0
    }
    &&& event matches EventView::Token(shown) ==> match outcome->Ok_0.text {
        Some(t) => shown == t@,
        None => shown == "<token "@ + text::decimal(outcome->Ok_0.id as nat) + ">"@,
    }
}

/// `after` is `before` once the running step ended with `outcome`: the requester, and
/// nobody else, heard how; the request goes to the end of the line, one token further, if
/// there is a next token, and is gone otherwise; all others keep their places.
pub open spec fn turn_over(
    before: EngineView,
    after: EngineView,
    outcome: Result<Token, String>,
    now_ns: u128,
) -> bool {
    let r = before.running->0;
    &&& after.running is None
    &&& after.phase == EnginePhase::Fill
    &&& after.max_active == before.max_active
    &&& after.next_session == before.next_session
    &&& after.accepted == before.accepted
    &&& after.emitted.len() == before.emitted.len() + 1
    &&& after.emitted.drop_last() == before.emitted
    &&& after.emitted.last().session_id == r.session_id
    &&& after.emitted.last().to == r.events
    &&& tells(after.emitted.last().event, outcome, r.generated, r.started_ns, now_ns)
    &&& outcome is Err || outcome->Ok_0.is_end_of_stream ==> after.active == before.active
    &&& outcome is Ok && !outcome->Ok_0.is_end_of_stream ==> {
        &&& after.active.len() == before.active.len() + 1
        &&& after.active.drop_last() == before.active
        &&& after.active.last().session_id == r.session_id
        &&& after.active.last().events == r.events
        &&& after.active.last().started_ns == r.started_ns
        &&& r.step < usize::MAX ==> after.active.last().step == r.step + 1
        &&& r.generated < usize::MAX ==> after.active.last().generated == r.generated + 1
    }
}

/// The end of a step is told as it was.
pub proof fn step_end_is_told(t: &mut EngineTurns, outcome: Result<Token, String>, now_ns: u128)
    requires
        call_ensures(EngineTurns::complete_step, (t, outcome, now_ns), ()),
        old(t)@.running is Some,
    ensures
        turn_over(old(t)@, final(t)@, outcome, now_ns),
{
    assert(final(t)@.emitted.drop_last() =~= old(t)@.emitted);
    if outcome is Ok && !outcome->Ok_0.is_end_of_stream {
        assert(final(t)@.active.drop_last() =~= old(t)@.active);
    }
}

/// A session is over exactly when its step failed or ended the stream, and it is the one
/// whose step ran.
pub proof fn sessions_end_with_the_stream_or_a_failure(
    t: EngineTurns,
    outcome: Result<Token, String>,
    res: Option<SessionId>,
)
    requires
        call_ensures(EngineTurns::session_over, (&t, &outcome), res),
        t@.running is Some,
    ensures
        res is Some <==> (outcome is Err || outcome->Ok_0.is_end_of_stream),
        res matches Some(id) ==> id == t@.running->0.session_id,
{
}

/// An engine comes with the sender that feeds it, over the master it was given, idle.
pub proof fn engine_comes_with_its_sender<G: Generator>(
    master: Master<G>,
    max_active: usize,
    tx: tokio::sync::mpsc::UnboundedSender<EngineRequest>,
    engine: PipelineEngine<G>,
)
    requires
        call_ensures(PipelineEngine::<G>::channel, (master, max_active), (tx, engine)),
    ensures
        super::channel::feeds(tx, engine.inbox.source()),
        engine.master == master,
        max_active > 0 ==> engine.turns@.max_active == max_active,
        max_active == 0 ==> engine.turns@.max_active == 1,
        engine.turns@.active.len() == 0,
        engine.turns@.running is None,
        engine.turns@.phase == EnginePhase::Fill,
        engine.turns@.next_session == 1,
        engine.turns@.accepted.len() == 0,
        engine.turns@.emitted.len() == 0,
        engine.inbox.looked() == 0,
        engine.inbox.taken().len() == 0,
        engine.clock.readings().len() == 0,
{
}

/// The engine does next what its turns say, and touches nothing else.
pub proof fn engine_asks_its_turns<G: Generator>(engine: &mut PipelineEngine<G>, res: EngineAction)
    requires
        call_ensures(PipelineEngine::<G>::next_action, (engine,), res),
        old(engine).turns@.running is Some <==> old(engine).turns@.phase == EnginePhase::Running,
    ensures
        final(engine).master == old(engine).master,
        final(engine).inbox == old(engine).inbox,
        final(engine).clock == old(engine).clock,
        same_books(old(engine).turns@, final(engine).turns@),
        old(engine).turns@.phase == EnginePhase::Stopped <==> res == EngineAction::Stop,
        res == EngineAction::TryReceive <==> old(engine).turns@.phase == EnginePhase::Fill
            && old(engine).turns@.active.len() < old(engine).turns@.max_active,
        !(res is Step) ==> final(engine).turns@ == old(engine).turns@,
        res matches EngineAction::Step { session_id, step } ==> {
            &&& final(engine).turns@.running is Some
            &&& final(engine).turns@.running->0.session_id == session_id
            &&& final(engine).turns@.running->0.step == step
            &&& match old(engine).turns@.running {
                Some(r) => {
                    &&& final(engine).turns@.running == Some(r)
                    &&& final(engine).turns@.active == old(engine).turns@.active
                },
                None => {
                    &&& old(engine).turns@.active.len() > 0
                    &&& final(engine).turns@.running == Some(old(engine).turns@.active[0])
                    &&& old(engine).turns@.active == seq![old(engine).turns@.active[0]]
                        + final(engine).turns@.active
                },
            }
        },
{
    if old(engine).turns@.running is None && res is Step {
        assert(old(engine).turns@.active =~= seq![old(engine).turns@.active[0]] + final(engine).turns@.active);
    }
}

/// From `before` to `after` the request was taken in under the next session id, with a
/// session that the master now holds, or turned away without one, and the id is used up.
pub open spec fn served_or_turned_away<G: Generator>(
    before: PipelineEngine<G>,
    request: EngineRequest,
    after: PipelineEngine<G>,
) -> bool {
    let id = before.turns@.next_session;
    let now_ns = after.clock.readings().last();
    &&& id < u64::MAX ==> after.turns@.next_session == id + 1
    &&& id == u64::MAX ==> after.turns@.next_session == 1
    &&& after.turns@.running == before.turns@.running
    &&& after.turns@.max_active == before.turns@.max_active
    &&& after.turns@.phase == EnginePhase::Fill
    &&& after.clock.readings().len() == before.clock.readings().len() + 1
    &&& after.clock.readings().drop_last() == before.clock.readings()
    &&& after.clock.origin() == before.clock.origin()
    &&& {
        ||| {
            &&& super::master_calls::creation(before.master, id, request.messages@, Ok(()), after.master)
            &&& took_in(
                before.turns@,
                after.turns@,
                id,
                request.events,
                request.accepted,
                now_ns,
            )
        }
        ||| exists|e: MasterError|
            {
                &&& #[trigger] super::master_calls::creation(
                    before.master,
                    id,
                    request.messages@,
                    Err(e),
                    after.master,
                )
                &&& turned_away(
                    before.turns@,
                    after.turns@,
                    id,
                    request.events,
                    super::master_calls::error_text(e),
                )
            }
    }
}

proof fn lemma_admits_serves<G: Generator>(
    before: PipelineEngine<G>,
    request: EngineRequest,
    after: PipelineEngine<G>,
    created: Result<(), MasterError>,
)
    requires
        PipelineEngine::admits(before, request, created, after),
        before.turns@.next_session != 0,
    ensures
        served_or_turned_away(before, request, after),
{
    let id = before.turns@.next_session;
    let v = before.turns@;
    let w = after.turns@;
    super::master_calls::lemma_creates_is_creation(
        before.master,
        id,
        request.messages@,
        created,
        after.master,
    );
    match created {
        Ok(u) => {
            assert(u == ());
            assert(w.active.drop_last() =~= v.active);
            assert(w.accepted.drop_last() =~= v.accepted);
        },
        Err(e) => {
            super::master_calls::lemma_error_text(e);
            assert(w.emitted.drop_last() =~= v.emitted);
            assert(super::master_calls::creation(
                before.master,
                id,
                request.messages@,
                Err(e),
                after.master,
            ));
        },
    }
}

/// A request that is handed to the engine is served or turned away.
pub proof fn requests_are_served_or_turned_away<G: Generator>(
    engine: &mut PipelineEngine<G>,
    request: EngineRequest,
)
    requires
        call_ensures(PipelineEngine::<G>::admit_request, (engine, request), ()),
        old(engine).turns@.next_session != 0,
    ensures
        served_or_turned_away(*old(engine), request, *final(engine)),
        final(engine).inbox == old(engine).inbox,
{
    let created = choose|created: Result<(), MasterError>| #[trigger]
        PipelineEngine::admits(*old(engine), request, created, *final(engine));
    lemma_admits_serves(*old(engine), request, *final(engine), created);
}

/// What was found for a slot is served or turned away; where nothing was found nothing
/// happens but that the engine stops looking.
pub proof fn found_requests_are_served<G: Generator>(
    engine: &mut PipelineEngine<G>,
    received: Option<EngineRequest>,
)
    requires
        call_ensures(PipelineEngine::<G>::fill_slot_with, (engine, received), ()),
        old(engine).turns@.next_session != 0,
    ensures
        final(engine).inbox == old(engine).inbox,
        match received {
            Some(request) => served_or_turned_away(*old(engine), request, *final(engine)),
            None => {
                &&& final(engine).master == old(engine).master
                &&& final(engine).clock == old(engine).clock
                &&& final(engine).turns@.phase == EnginePhase::Filled
                &&& same_books(old(engine).turns@, final(engine).turns@)
                &&& final(engine).turns@.active == old(engine).turns@.active
                &&& final(engine).turns@.running == old(engine).turns@.running
            },
        },
{
    if let Some(request) = received {
        let created = choose|created: Result<(), MasterError>| #[trigger]
            PipelineEngine::admits(*old(engine), request, created, *final(engine));
        lemma_admits_serves(*old(engine), request, *final(engine), created);
    }
}

/// Filling a slot takes one look into the engine's own channel; what comes out of it, and
/// nothing else, is served or turned away, and the result tells whether anything did.
pub proof fn slots_are_filled_from_the_inbox<G: Generator>(
    engine: &mut PipelineEngine<G>,
    res: bool,
)
    requires
        call_ensures(PipelineEngine::<G>::fill_slot, (engine,), res),
        old(engine).turns@.next_session != 0,
    ensures
        final(engine).inbox.looked() == old(engine).inbox.looked() + 1,
        forall|tx: tokio::sync::mpsc::UnboundedSender<EngineRequest>|
            super::channel::feeds(tx, old(engine).inbox.source())
                ==> #[trigger] super::channel::feeds(tx, final(engine).inbox.source()),
        if res {
            &&& final(engine).inbox.taken().len() == old(engine).inbox.taken().len() + 1
            &&& final(engine).inbox.taken().drop_last() == old(engine).inbox.taken()
            &&& served_or_turned_away(
                *old(engine),
                final(engine).inbox.taken().last(),
                *final(engine),
            )
        } else {
            &&& final(engine).inbox.taken() == old(engine).inbox.taken()
            &&& final(engine).master == old(engine).master
            &&& final(engine).clock == old(engine).clock
            &&& final(engine).turns@.phase == EnginePhase::Filled
            &&& same_books(old(engine).turns@, final(engine).turns@)
            &&& final(engine).turns@.active == old(engine).turns@.active
            &&& final(engine).turns@.running == old(engine).turns@.running
        },
{
    let before = *old(engine);
    let after = *final(engine);
    if res {
        let request = after.inbox.taken().last();
        assert(after.inbox.taken().drop_last() =~= before.inbox.taken());
        let created = choose|created: Result<(), MasterError>| #[trigger]
            PipelineEngine::admits(before, request, created, after);
        lemma_admits_serves(before, request, after, created);
    }
}

/// An engine that learns that no request can come has nothing more to do, and touches
/// nothing.
pub proof fn closed_engine_stops<G: Generator>(
    engine: &mut PipelineEngine<G>,
    later: &mut PipelineEngine<G>,
    next: EngineAction,
)
    requires
        call_ensures(PipelineEngine::<G>::closed, (engine,), ()),
        *later == *final(engine),
        call_ensures(PipelineEngine::<G>::next_action, (later,), next),
    ensures
        next == EngineAction::Stop,
        final(engine).master == old(engine).master,
        final(engine).inbox == old(engine).inbox,
        final(engine).clock == old(engine).clock,
        same_books(old(engine).turns@, final(engine).turns@),
        final(engine).turns@.active == old(engine).turns@.active,
{
}

/// The end of a step is told as it was, at the time that the clock shows. A session that
/// is over is returned, and the master has forgotten it and no other.
pub proof fn engine_tells_how_a_step_ended<G: Generator>(
    engine: &mut PipelineEngine<G>,
    outcome: Result<Token, String>,
    res: Option<SessionId>,
)
    requires
        call_ensures(PipelineEngine::<G>::complete_step, (engine, outcome), res),
        old(engine).turns@.running is Some,
    ensures
        turn_over(
            old(engine).turns@,
            final(engine).turns@,
            outcome,
            final(engine).clock.readings().last(),
        ),
        final(engine).clock.readings().len() == old(engine).clock.readings().len() + 1,
        final(engine).clock.readings().drop_last() == old(engine).clock.readings(),
        final(engine).inbox == old(engine).inbox,
        final(engine).master.ctx == old(engine).master.ctx,
        final(engine).master.model == old(engine).master.model,
        res is Some <==> (outcome is Err || outcome->Ok_0.is_end_of_stream),
        res matches Some(id) ==> {
            &&& id == old(engine).turns@.running->0.session_id
            &&& !final(engine).master.sessions@.contains_key(id)
        },
        forall|other: SessionId|
            res != Some(other) ==> (#[trigger] final(engine).master.sessions@.contains_key(other)
                <==> old(engine).master.sessions@.contains_key(other)),
        forall|other: SessionId|
            res != Some(other) && old(engine).master.sessions@.contains_key(other)
                ==> #[trigger] final(engine).master.sessions@[other] == old(engine).master.sessions@[other],
{
    let v = old(engine).turns@;
    let w = final(engine).turns@;
    assert(w.emitted.drop_last() =~= v.emitted);
    if outcome is Ok && !outcome->Ok_0.is_end_of_stream {
        assert(w.active.drop_last() =~= v.active);
    }
}

/// The last event that a requester hears tells how its last step ended: it is the end
/// exactly when that step gave an end-of-stream token, and an error with that step's
/// cause exactly when it failed, however many tokens came before.
pub proof fn last_event_tells_how_the_last_step_ended<G: Generator>(
    engine: &mut PipelineEngine<G>,
    outcome: Result<Token, String>,
    res: Option<SessionId>,
)
    requires
        call_ensures(PipelineEngine::<G>::complete_step, (engine, outcome), res),
        old(engine).turns@.running is Some,
    ensures
        ({
            let id = old(engine).turns@.running->0.session_id;
            let before = super::engine_laws::heard(old(engine).turns@.emitted, id);
            let heard = super::engine_laws::heard(final(engine).turns@.emitted, id);
            &&& heard.len() == before.len() + 1
            &&& heard.drop_last() == before
            &&& heard.last() is Finished <==> outcome is Ok && outcome->Ok_0.is_end_of_stream
            &&& heard.last() is Error <==> outcome is Err
            &&& outcome matches Err(cause) ==> heard.last() == EventView::Error(cause@)
            &&& heard.last() is Token <==> outcome is Ok && !outcome->Ok_0.is_end_of_stream
        }),
{
    engine_tells_how_a_step_ended(engine, outcome, res);
    let id = old(engine).turns@.running->0.session_id;
    let heard = super::engine_laws::heard(final(engine).turns@.emitted, id);
    assert(heard.drop_last() =~= super::engine_laws::heard(old(engine).turns@.emitted, id));
}

} // verus!
