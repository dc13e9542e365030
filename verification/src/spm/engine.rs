//! Request-level round-robin over one model.

use std::collections::VecDeque;

use vstd::prelude::*;

use crate::models::chat::Message;
use crate::models::generator::Generator;
use crate::models::Token;

use super::channel::{
    read_clock, request_channel, send_answer, send_event, try_receive, Answer, AnswerLog, Emission, EngineClock,
    EventLog, Inbox,
};
use super::master::{Master, MasterError};
use super::SessionId;

verus! {

/// A request for the engine.
#[derive(Debug)]
pub struct EngineRequest {
    pub messages: Vec<Message>,
    /// Where the tokens go.
    pub events: tokio::sync::mpsc::UnboundedSender<EngineEvent>,
    /// Where the session id goes once the request is admitted.
    pub accepted: tokio::sync::oneshot::Sender<SessionId>,
}

/// What a requester hears.
#[derive(Debug)]
pub enum EngineEvent {
    /// The text of one more token.
    Token(String),
    /// The request is done.
    Finished { generated_tokens: usize, elapsed_ns: u128 },
    /// The request failed.
    Error(String),
}

/// An event as contracts see it.
pub enum EventView {
    Token(Seq<char>),
    Finished { generated_tokens: usize, elapsed_ns: u128 },
    Error(Seq<char>),
}

impl View for EngineEvent {
    type V = EventView;

    open spec fn view(&self) -> EventView {
        match self {
            EngineEvent::Token(text) => EventView::Token(text@),
            EngineEvent::Finished { generated_tokens, elapsed_ns } => EventView::Finished {
                generated_tokens: *generated_tokens,
                elapsed_ns: *elapsed_ns,
            },
            EngineEvent::Error(cause) => EventView::Error(cause@),
        }
    }
}

/// A request that is being served.
pub struct ActiveRequest {
    pub session_id: SessionId,
    /// The index of the next token.
    pub step: usize,
    /// How many tokens were generated.
    pub generated: usize,
    /// When the request was admitted, on the engine's clock.
    pub started_ns: u128,
    pub events: tokio::sync::mpsc::UnboundedSender<EngineEvent>,
}

impl ActiveRequest {
    /// The request after one more token.
    pub open spec fn stepped(self) -> Self {
        ActiveRequest {
            step: (self.step + 1) as usize,
            generated: (self.generated + 1) as usize,
            ..self
        }
    }
}

/// Where the engine is in its round.
#[derive(Debug, Clone, Copy, PartialEq, Eq, Structural)]
pub enum EnginePhase {
    /// Free slots are filled with requests that are there already.
    Fill,
    /// No request is there to fill a slot with.
    Filled,
    /// One request takes its step.
    Running,
    /// Nothing is active and no request can come any more.
    Stopped,
}

/// What the owner of the engine does next.
#[derive(Debug, Clone, Copy, PartialEq, Eq, Structural)]
pub enum EngineAction {
    /// Fill a slot with a request that is there already, without waiting.
    TryReceive,
    /// Run one step of a session and report what came of it.
    Step { session_id: SessionId, step: usize },
    /// Wait for a request; admit it, or report that none can come.
    Receive,
    /// Leave.
    Stop,
}

/// The engine as its contracts see it.
#[verifier::ext_equal]
pub struct EngineView {
    pub phase: EnginePhase,
    /// The requests that wait for their turn, the next one first.
    pub active: Seq<ActiveRequest>,
    /// The request whose step runs.
    pub running: Option<ActiveRequest>,
    pub max_active: nat,
    /// The session id that is given out next.
    pub next_session: SessionId,
    /// Every session id sent to an admitted requester so far, and to whom.
    pub accepted: Seq<Answer<SessionId>>,
    /// Every event sent so far.
    pub emitted: Seq<Emission>,
}

/// The session id after `id`. Zero is skipped: it stands for no session.
pub open spec fn session_after(id: SessionId) -> SessionId {
    if id == u64::MAX {
        1
    } else {
        (id + 1) as u64
    }
}

/// The time from `started_ns` to `now_ns`, never negative.
pub open spec fn elapsed(started_ns: u128, now_ns: u128) -> u128 {
    if now_ns >= started_ns {
        (now_ns - started_ns) as u128
    } else {
        0
    }
}

/// A step with this outcome does not end its request.
pub open spec fn goes_on(outcome: Result<Token, String>) -> bool {
    outcome is Ok && !outcome->Ok_0.is_end_of_stream
}

/// Why a session could not be created.
pub open spec fn refusal(created: Result<(), String>) -> Option<Seq<char>> {
    match created {
        Ok(()) => None,
        Err(cause) => Some(cause@),
    }
}

impl EngineView {
    /// There is at least one slot and no more requests than slots; a request is
    /// running exactly in the phase for it; session ids are not zero.
    pub open spec fn wf(self) -> bool {
        &&& self.max_active >= 1
        &&& self.active.len() + (if self.running is Some {
            1nat
        } else {
            0nat
        }) <= self.max_active
        &&& self.running is Some <==> self.phase == EnginePhase::Running
        &&& self.phase == EnginePhase::Stopped ==> self.active.len() == 0
        &&& self.next_session != 0
        &&& forall|i: int| 0 <= i < self.active.len() ==> (#[trigger] self.active[i]).session_id != 0
        &&& self.running matches Some(r) ==> r.session_id != 0
        &&& forall|i: int|
            0 <= i < self.active.len() ==> (#[trigger] self.active[i]).step
                == self.active[i].generated
        &&& self.running matches Some(r) ==> r.step == r.generated
    }

    /// An engine that has done nothing yet, with `max_active` slots, or one if
    /// that is zero.
    pub open spec fn start(max_active: usize) -> Self {
        EngineView {
            phase: EnginePhase::Fill,
            active: Seq::empty(),
            running: None,
            max_active: if max_active == 0 {
                1
            } else {
                max_active as nat
            },
            next_session: 1,
            accepted: Seq::empty(),
            emitted: Seq::empty(),
        }
    }

    /// A request may be taken in: there is a slot to fill, or nothing else to do.
    pub open spec fn can_admit(self) -> bool {
        ||| self.phase == EnginePhase::Fill && self.active.len() < self.max_active
        ||| self.phase == EnginePhase::Filled && self.active.len() == 0
    }

    /// What has to be done next.
    pub open spec fn due(self) -> EngineAction {
        match self.phase {
            EnginePhase::Stopped => EngineAction::Stop,
            EnginePhase::Running => EngineAction::Step {
                session_id: self.running->0.session_id,
                step: self.running->0.step,
            },
            _ => if self.phase == EnginePhase::Fill && self.active.len() < self.max_active {
                EngineAction::TryReceive
            } else if self.active.len() > 0 {
                EngineAction::Step {
                    session_id: self.active[0].session_id,
                    step: self.active[0].step,
                }
            } else {
                EngineAction::Receive
            },
        }
    }

    /// The state in which `due` is being done.
    pub open spec fn doing(self) -> Self {
        if self.running is None && self.due() is Step {
            EngineView {
                phase: EnginePhase::Running,
                running: Some(self.active[0]),
                active: self.active.skip(1),
                ..self
            }
        } else {
            self
        }
    }

    /// The next session id was given out.
    pub open spec fn allocated(self) -> Self {
        EngineView { next_session: session_after(self.next_session), ..self }
    }

    /// A request under session `id` was taken in, or its session could not be
    /// created for the reason `refusal`.
    pub open spec fn admitted(
        self,
        id: SessionId,
        events: tokio::sync::mpsc::UnboundedSender<EngineEvent>,
        accepted: tokio::sync::oneshot::Sender<SessionId>,
        refusal: Option<Seq<char>>,
        now_ns: u128,
    ) -> Self {
        match refusal {
            None => EngineView {
                phase: EnginePhase::Fill,
                active: self.active.push(
                    ActiveRequest {
                        session_id: id,
                        step: 0,
                        generated: 0,
                        started_ns: now_ns,
                        events,
                    },
                ),
                accepted: self.accepted.push(Answer { to: accepted, value: id }),
                ..self
            },
            Some(cause) => EngineView {
                phase: EnginePhase::Fill,
                emitted: self.emitted.push(
                    Emission { session_id: id, to: events, event: EventView::Error(cause) },
                ),
                ..self
            },
        }
    }

    /// The running step ended.
    pub open spec fn step_ended(self, outcome: Result<Token, String>, now_ns: u128) -> Self {
        let request = self.running->0;
        let event = match outcome {
            Ok(token) => if token.is_end_of_stream {
                EventView::Finished {
                    generated_tokens: request.generated,
                    elapsed_ns: elapsed(request.started_ns, now_ns),
                }
            } else {
                EventView::Token(token.spec_text())
            },
            Err(cause) => EventView::Error(cause@),
        };
        EngineView {
            phase: EnginePhase::Fill,
            running: None,
            active: if goes_on(outcome) {
                self.active.push(request.stepped())
            } else {
                self.active
            },
            emitted: self.emitted.push(
                Emission { session_id: request.session_id, to: request.events, event },
            ),
            ..self
        }
    }
}

/// The requests being served, in the order of their turns.
pub struct EngineTurns {
    phase: EnginePhase,
    active: VecDeque<ActiveRequest>,
    running: Option<ActiveRequest>,
    max_active: usize,
    next_session: SessionId,
    accepted: AnswerLog<SessionId>,
    emitted: EventLog,
}

impl View for EngineTurns {
    type V = EngineView;

    closed spec fn view(&self) -> EngineView {
        EngineView {
            phase: self.phase,
            active: self.active@,
            running: self.running,
            max_active: self.max_active as nat,
            next_session: self.next_session,
            accepted: self.accepted@,
            emitted: self.emitted@,
        }
    }
}

impl EngineTurns {
    /// See [`EngineView::wf`].
    pub open spec fn wf(&self) -> bool {
        self@.wf()
    }

    /// Turns over `max_active` slots, or one if that is zero.
    pub fn new(max_active: usize) -> (res: Self)
        ensures
            res.wf(),
            res@ == EngineView::start(max_active),
    {
        EngineTurns {
            phase: EnginePhase::Fill,
            active: VecDeque::new(),
            running: None,
            max_active: if max_active == 0 {
                1
            } else {
                max_active
            },
            next_session: 1,
            accepted: AnswerLog::new(),
            emitted: EventLog::new(),
        }
    }

    /// What to do next. A step that is to be run leaves the line of active
    /// requests until its end is reported.
    pub fn next_action(&mut self) -> (res: EngineAction)
        requires
            old(self).wf(),
        ensures
            final(self).wf(),
            res == old(self)@.due(),
            final(self)@ == old(self)@.doing(),
    {
        match self.phase {
            EnginePhase::Stopped => EngineAction::Stop,
            EnginePhase::Running => match &self.running {
                Some(request) => EngineAction::Step {
                    session_id: request.session_id,
                    step: request.step,
                },
                None => EngineAction::Stop,
            },
            _ => {
                if self.phase == EnginePhase::Fill && self.active.len() < self.max_active {
                    return EngineAction::TryReceive;
                }
                match self.active.pop_front() {
                    Some(request) => {
                        let action = EngineAction::Step {
                            session_id: request.session_id,
                            step: request.step,
                        };
                        self.running = Some(request);
                        self.phase = EnginePhase::Running;
                        assert(self@ =~= old(self)@.doing());
                        action
                    },
                    None => EngineAction::Receive,
                }
            },
        }
    }

    /// No request was there to fill a slot with.
    pub fn nothing_received(&mut self)
        requires
            old(self).wf(),
            old(self)@.phase == EnginePhase::Fill,
        ensures
            final(self).wf(),
            final(self)@ == (EngineView { phase: EnginePhase::Filled, ..old(self)@ }),
    {
        self.phase = EnginePhase::Filled;
    }

    /// No request can come any more, and none is active.
    pub fn closed(&mut self)
        requires
            old(self).wf(),
            old(self)@.phase == EnginePhase::Fill || old(self)@.phase == EnginePhase::Filled,
            old(self)@.active.len() == 0,
        ensures
            final(self).wf(),
            final(self)@ == (EngineView { phase: EnginePhase::Stopped, ..old(self)@ }),
    {
        self.phase = EnginePhase::Stopped;
    }

    /// The session id for a request that is about to be admitted. It is used up
    /// even if the session cannot be created.
    pub fn allocate_session_id(&mut self) -> (res: SessionId)
        requires
            old(self).wf(),
        ensures
            final(self).wf(),
            res == old(self)@.next_session,
            res != 0,
            final(self)@ == old(self)@.allocated(),
    {
        let id = self.next_session;
        self.next_session = if id == u64::MAX {
            1
        } else {
            id + 1
        };
        id
    }

    /// Takes in a request whose session `id` was created, and tells the requester;
    /// or passes on why it could not be created.
    pub fn admit_session(
        &mut self,
        id: SessionId,
        events: tokio::sync::mpsc::UnboundedSender<EngineEvent>,
        accepted: tokio::sync::oneshot::Sender<SessionId>,
        created: Result<(), String>,
        now_ns: u128,
    )
        requires
            old(self).wf(),
            old(self)@.can_admit(),
            id != 0,
        ensures
            final(self).wf(),
            final(self)@ == old(self)@.admitted(
                id,
                events,
                accepted,
                refusal(created),
                now_ns,
            ),
    {
        self.phase = EnginePhase::Fill;
        match created {
            Ok(()) => {
                send_answer(&mut self.accepted, accepted, id);
                self.active.push_back(
                    ActiveRequest {
                        session_id: id,
                        step: 0,
                        generated: 0,
                        started_ns: now_ns,
                        events,
                    },
                );
            },
            Err(cause) => {
                send_event(&mut self.emitted, id, &events, EngineEvent::Error(cause));
            },
        }
    }

    /// The session that is over once its running step ends with `outcome`, if it
    /// is.
    pub fn session_over(&self, outcome: &Result<Token, String>) -> (res: Option<SessionId>)
        requires
            self.wf(),
            self@.running is Some,
        ensures
            res == if goes_on(*outcome) {
                None
            } else {
                Some(self@.running->0.session_id)
            },
    {
        match (outcome, &self.running) {
            (Ok(token), _) if !token.is_end_of_stream => None,
            (_, Some(request)) => Some(request.session_id),
            (_, None) => None,
        }
    }

    /// Takes the outcome of the running step: the requester hears of it, and an
    /// unfinished request joins the end of the line.
    pub fn complete_step(&mut self, outcome: Result<Token, String>, now_ns: u128)
        requires
            old(self).wf(),
            old(self)@.running is Some,
            goes_on(outcome) ==> old(self)@.running->0.step < usize::MAX,
        ensures
            final(self).wf(),
            final(self)@ == old(self)@.step_ended(outcome, now_ns),
    {
        let ghost before = self@;
        self.phase = EnginePhase::Fill;
        match self.running.take() {
            None => {},
            Some(request) => {
                let session_id = request.session_id;
                match outcome {
                    Ok(token) => {
                        if token.is_end_of_stream {
                            let elapsed_ns: u128 = now_ns.saturating_sub(request.started_ns);
                            let event = EngineEvent::Finished {
                                generated_tokens: request.generated,
                                elapsed_ns,
                            };
                            send_event(&mut self.emitted, session_id, &request.events, event);
                        } else {
                            let event = EngineEvent::Token(token.to_string());
                            send_event(&mut self.emitted, session_id, &request.events, event);
                            self.active.push_back(
                                ActiveRequest {
                                    session_id,
                                    step: request.step + 1,
                                    generated: request.generated + 1,
                                    started_ns: request.started_ns,
                                    events: request.events,
                                },
                            );
                            assert(self@ =~= before.step_ended(Ok(token), now_ns));
                        }
                    },
                    Err(cause) => {
                        send_event(
                            &mut self.emitted,
                            session_id,
                            &request.events,
                            EngineEvent::Error(cause),
                        );
                    },
                }
            },
        }
    }
}

/// Single model owner plus request-level round-robin. The model weights remain
/// one copy; request-local state is swapped between token steps.
///
/// The owner of the engine asks for the next action, performs it, and reports what
/// came of it.
#[verifier::reject_recursive_types(G)]
pub struct PipelineEngine<G: Generator> {
    pub master: Master<G>,
    pub turns: EngineTurns,
    pub inbox: Inbox,
    pub clock: EngineClock,
}

impl<G: Generator> PipelineEngine<G> {
    /// See [`EngineView::wf`].
    pub open spec fn wf(&self) -> bool {
        self.turns.wf()
    }

    /// Taking in `request` turned out as `created`: the clock was read, the master made a
    /// session out of its messages under the next session id, and the request
    /// waits for its turn; or the master refused, and the requester hears why. The
    /// id is used up either way.
    pub open spec fn admits(
        before: Self,
        request: EngineRequest,
        created: Result<(), MasterError>,
        after: Self,
    ) -> bool {
        let id = before.turns@.next_session;
        &&& after.clock.read_after(&before.clock)
        &&& Master::creates(before.master, id, request.messages@, created, after.master)
        &&& after.turns@ == before.turns@.allocated().admitted(
            id,
            request.events,
            request.accepted,
            match created {
                Ok(()) => None,
                Err(e) => Some(e.spec_text()),
            },
            after.clock.readings().last(),
        )
    }

    /// The running step ended with `outcome`: the clock was read, the requester
    /// hears of it, and the master forgets a session that is over.
    pub open spec fn ends_turn(before: Self, outcome: Result<Token, String>, after: Self) -> bool {
        &&& after.clock.read_after(&before.clock)
        &&& after.turns@ == before.turns@.step_ended(outcome, after.clock.readings().last())
        &&& after.master.ctx == before.master.ctx
        &&& after.master.model == before.master.model
        &&& after.master.sessions@ == if goes_on(outcome) {
            before.master.sessions@
        } else {
            before.master.sessions@.remove(before.turns@.running->0.session_id)
        }
    }

    /// The engine over `master` with `max_active` slots, or one if that is zero,
    /// and where its requests go: what is sent there arrives in its inbox.
    pub fn channel(master: Master<G>, max_active: usize) -> (res: (
        tokio::sync::mpsc::UnboundedSender<EngineRequest>,
        Self,
    ))
        ensures
            res.1.wf(),
            res.1.master == master,
            res.1.turns@ == EngineView::start(max_active),
            super::channel::feeds(res.0, res.1.inbox.source()),
            res.1.inbox.looked() == 0,
            res.1.inbox.taken() == Seq::<EngineRequest>::empty(),
            res.1.clock.readings() == Seq::<u128>::empty(),
    {
        let (tx, requests) = request_channel();
        let engine = PipelineEngine {
            master,
            turns: EngineTurns::new(max_active),
            inbox: Inbox::new(requests),
            clock: EngineClock::new(),
        };
        (tx, engine)
    }

    /// What to do next.
    pub fn next_action(&mut self) -> (res: EngineAction)
        requires
            old(self).wf(),
        ensures
            final(self).wf(),
            res == old(self).turns@.due(),
            final(self).turns@ == old(self).turns@.doing(),
            final(self).master == old(self).master,
            final(self).inbox == old(self).inbox,
            final(self).clock == old(self).clock,
    {
        self.turns.next_action()
    }

    /// Takes in a request.
    pub fn admit_request(&mut self, request: EngineRequest)
        requires
            old(self).wf(),
            old(self).turns@.can_admit(),
        ensures
            final(self).wf(),
            final(self).inbox == old(self).inbox,
            exists|created: Result<(), MasterError>| #[trigger]
                Self::admits(*old(self), request, created, *final(self)),
    {
        let id = self.turns.allocate_session_id();
        let created = self.master.create_session(id, request.messages);
        let said: Result<(), String> = match &created {
            Ok(()) => Ok(()),
            Err(e) => Err(e.to_string()),
        };
        let now_ns: u128 = read_clock(&mut self.clock);
        self.turns.admit_session(id, request.events, request.accepted, said, now_ns);
        assert(self.clock.readings().drop_last() =~= old(self).clock.readings());
        assert(Self::admits(*old(self), request, created, *self));
    }

    /// A slot was to be filled and `received` was found: that request was taken in,
    /// or there was none and the engine goes on without.
    pub open spec fn fills(before: Self, received: Option<EngineRequest>, after: Self) -> bool {
        match received {
            Some(request) => exists|created: Result<(), MasterError>| #[trigger]
                Self::admits(before, request, created, after),
            None => {
                &&& after.turns@ == (EngineView { phase: EnginePhase::Filled, ..before.turns@ })
                &&& after.master == before.master
                &&& after.clock == before.clock
            },
        }
    }

    /// Takes in what was found when a slot was to be filled.
    pub fn fill_slot_with(&mut self, received: Option<EngineRequest>)
        requires
            old(self).wf(),
            old(self).turns@.due() == EngineAction::TryReceive,
        ensures
            final(self).wf(),
            final(self).inbox == old(self).inbox,
            Self::fills(*old(self), received, *final(self)),
    {
        match received {
            Some(request) => self.admit_request(request),
            None => self.turns.nothing_received(),
        }
    }

    /// What the last look into the inbox of `after` found, if `before` was the
    /// engine before that look.
    pub open spec fn found(before: Self, after: Self) -> Option<EngineRequest> {
        if after.inbox.taken().len() > before.inbox.taken().len() {
            Some(after.inbox.taken().last())
        } else {
            None
        }
    }

    /// The inbox was looked into once, and what was found there, if anything, is
    /// what a slot was filled with. Requests still come by the same channel.
    pub open spec fn looks(before: Self, after: Self) -> bool {
        &&& after.inbox.same_channel(&before.inbox)
        &&& after.inbox.looked() == before.inbox.looked() + 1
        &&& after.inbox.taken() == match Self::found(before, after) {
            Some(request) => before.inbox.taken().push(request),
            None => before.inbox.taken(),
        }
        &&& Self::fills(before, Self::found(before, after), after)
    }

    /// Fills a slot with a request that is there already, and tells whether one
    /// was. What is taken out of the inbox is what is taken in.
    pub fn fill_slot(&mut self) -> (res: bool)
        requires
            old(self).wf(),
            old(self).turns@.due() == EngineAction::TryReceive,
        ensures
            final(self).wf(),
            Self::looks(*old(self), *final(self)),
            res == (Self::found(*old(self), *final(self)) is Some),
    {
        let received = try_receive(&mut self.inbox);
        let res = received.is_some();
        let ghost before = *self;
        let ghost request = received->0;
        self.fill_slot_with(received);
        proof {
            if res {
                let created = choose|created: Result<(), MasterError>| #[trigger]
                    Self::admits(before, request, created, *self);
                assert(Self::admits(*old(self), request, created, *self));
            }
        }
        res
    }

    /// No request can come any more, and none is active.
    pub fn closed(&mut self)
        requires
            old(self).wf(),
            old(self).turns@.due() == EngineAction::Receive,
        ensures
            final(self).wf(),
            final(self).turns@ == (EngineView { phase: EnginePhase::Stopped, ..old(self).turns@ }),
            final(self).master == old(self).master,
            final(self).inbox == old(self).inbox,
            final(self).clock == old(self).clock,
    {
        self.turns.closed();
    }

    /// Takes the outcome of the running step. A session that is over is forgotten
    /// here and returned, so that its workers can be told.
    pub fn complete_step(&mut self, outcome: Result<Token, String>) -> (res: Option<SessionId>)
        requires
            old(self).wf(),
            old(self).turns@.running is Some,
            goes_on(outcome) ==> old(self).turns@.running->0.step < usize::MAX,
        ensures
            final(self).wf(),
            final(self).inbox == old(self).inbox,
            Self::ends_turn(*old(self), outcome, *final(self)),
            res == if goes_on(outcome) {
                None
            } else {
                Some(old(self).turns@.running->0.session_id)
            },
    {
        let over: Option<SessionId> = self.turns.session_over(&outcome);
        if let Some(session_id) = over {
            self.master.release_session(session_id);
        }
        let now_ns: u128 = read_clock(&mut self.clock);
        self.turns.complete_step(outcome, now_ns);
        assert(self.clock.readings().drop_last() =~= old(self).clock.readings());
        over
    }
}

} // verus!
