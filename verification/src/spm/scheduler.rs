//! Admission and round-robin scheduling of inference requests.

use std::collections::{HashMap, VecDeque};

use vstd::prelude::*;

use crate::models::chat::Message;

use super::channel::{send_answer, Answer, AnswerLog};
use super::{settings, SessionId};

verus! {

broadcast use vstd::std_specs::hash::group_hash_axioms;

/// One logical inference request. Request count is unrestricted: 1, 3, 5, ...
/// are scheduled exactly like even counts; pipeline depth only bounds in-flight
/// work.
#[derive(Debug)]
pub struct PipelineRequest {
    pub session_id: SessionId,
    pub messages: Vec<Message>,
    pub stream: bool,
    pub reply: tokio::sync::oneshot::Sender<PipelineAdmission>,
}

/// The answer to an admitted request.
#[derive(Debug, Clone, Copy)]
pub struct PipelineAdmission {
    pub session_id: SessionId,
    /// How many sessions were ready to run when this one was admitted.
    pub queue_position: usize,
}

/// What a request in flight does next.
#[derive(Debug, Clone, Copy, PartialEq, Eq, Structural)]
pub enum RequestPhase {
    Prefill,
    Decode,
    Finished,
}

/// Where a request in flight stands.
#[derive(Debug, Clone, Copy)]
pub struct RequestState {
    pub session_id: SessionId,
    pub phase: RequestPhase,
    pub step_id: usize,
}

impl RequestState {
    /// The state of a request that has just been admitted.
    pub open spec fn admitted(session_id: SessionId) -> Self {
        RequestState { session_id, phase: RequestPhase::Prefill, step_id: 0 }
    }

    /// The state after one more step that did not end the request.
    pub open spec fn stepped(self) -> Self {
        RequestState {
            session_id: self.session_id,
            phase: RequestPhase::Decode,
            step_id: (self.step_id + 1) as usize,
        }
    }
}

/// The scheduler as its contracts see it.
#[verifier::ext_equal]
pub struct SchedulerView {
    /// The session id that is handed out next.
    pub next_session: SessionId,
    /// Requests that are not admitted yet, oldest first.
    pub waiting: Seq<PipelineRequest>,
    /// Sessions with a step to run, the next one first.
    pub ready: Seq<SessionId>,
    /// The admitted requests.
    pub in_flight: Map<SessionId, RequestState>,
    /// How many requests may be in flight.
    pub max_in_flight: nat,
    /// Every admission sent so far, in order, and the reply channel it went to.
    pub granted: Seq<Answer<PipelineAdmission>>,
}

impl SchedulerView {
    /// There is at least one slot, and no more requests are in flight than there
    /// are slots.
    pub open spec fn wf(self) -> bool {
        &&& self.max_in_flight >= 1
        &&& self.in_flight.dom().finite()
        &&& self.in_flight.len() <= self.max_in_flight
    }

    /// A slot is free and a request waits for it.
    pub open spec fn can_admit(self) -> bool {
        self.in_flight.len() < self.max_in_flight && self.waiting.len() > 0
    }

    /// The oldest waiting request takes a slot.
    pub open spec fn admit_one(self) -> Self {
        let id = self.waiting[0].session_id;
        SchedulerView {
            waiting: self.waiting.skip(1),
            ready: self.ready.push(id),
            in_flight: self.in_flight.insert(id, RequestState::admitted(id)),
            granted: self.granted.push(
                Answer {
                    to: self.waiting[0].reply,
                    value: PipelineAdmission {
                        session_id: id,
                        queue_position: self.ready.len() as usize,
                    },
                },
            ),
            ..self
        }
    }

    /// Waiting requests take slots, oldest first, as long as slots are free.
    pub open spec fn admit_all(self) -> Self
        decreases self.waiting.len(),
    {
        if self.can_admit() {
            self.admit_one().admit_all()
        } else {
            self
        }
    }

    /// A request joins the end of the waiting line.
    pub open spec fn enqueue(self, request: PipelineRequest) -> Self {
        SchedulerView { waiting: self.waiting.push(request), ..self }
    }

    /// The session that runs next leaves the ready line.
    pub open spec fn take_ready(self) -> Self {
        SchedulerView { ready: self.ready.skip(1), ..self }
    }

    /// A step of `session_id` ended: the session gives up its slot, or joins the
    /// end of the ready line. A session that is not in flight changes nothing.
    pub open spec fn end_step(self, session_id: SessionId, finished: bool) -> Self {
        if finished {
            SchedulerView { in_flight: self.in_flight.remove(session_id), ..self }
        } else if self.in_flight.contains_key(session_id) {
            SchedulerView {
                in_flight: self.in_flight.insert(
                    session_id,
                    self.in_flight[session_id].stepped(),
                ),
                ready: self.ready.push(session_id),
                ..self
            }
        } else {
            self
        }
    }
}

/// vLLM-style control plane: waiting requests are admitted independently of
/// model execution and ready sessions are round-robin scheduled. A session may
/// have at most one autoregressive step in flight, while different sessions
/// overlap.
pub struct PipelineScheduler {
    next_session: SessionId,
    waiting: VecDeque<PipelineRequest>,
    ready: VecDeque<SessionId>,
    in_flight: HashMap<SessionId, RequestState>,
    max_in_flight: usize,
    granted: AnswerLog<PipelineAdmission>,
}

impl View for PipelineScheduler {
    type V = SchedulerView;

    closed spec fn view(&self) -> SchedulerView {
        SchedulerView {
            next_session: self.next_session,
            waiting: self.waiting@,
            ready: self.ready@,
            in_flight: self.in_flight@,
            max_in_flight: self.max_in_flight as nat,
            granted: self.granted@,
        }
    }
}

impl PipelineScheduler {
    /// No more requests are in flight than there are slots.
    pub open spec fn wf(&self) -> bool {
        self@.wf()
    }

    /// A scheduler with `max_in_flight` slots, or one if that is zero.
    pub fn new(max_in_flight: usize) -> (res: Self)
        ensures
            res.wf(),
            res@.next_session == 1,
            res@.waiting == Seq::<PipelineRequest>::empty(),
            res@.ready == Seq::<SessionId>::empty(),
            res@.in_flight == Map::<SessionId, RequestState>::empty(),
            res@.max_in_flight == if max_in_flight == 0 {
                1nat
            } else {
                max_in_flight as nat
            },
            res@.granted == Seq::<Answer<PipelineAdmission>>::empty(),
    {
        PipelineScheduler {
            next_session: 1,
            waiting: VecDeque::new(),
            ready: VecDeque::new(),
            in_flight: HashMap::new(),
            max_in_flight: if max_in_flight == 0 {
                1
            } else {
                max_in_flight
            },
            granted: AnswerLog::new(),
        }
    }

    /// Hands out the next session id.
    pub fn allocate_session_id(&mut self) -> (res: SessionId)
        ensures
            res == old(self)@.next_session,
            final(self)@ == (SchedulerView {
                next_session: ((old(self)@.next_session + 1) % 0x1_0000_0000_0000_0000) as u64,
                ..old(self)@
            }),
    {
        let id = self.next_session;
        self.next_session = id.wrapping_add(1);
        id
    }

    /// Puts a request at the end of the waiting line.
    pub fn enqueue(&mut self, request: PipelineRequest)
        ensures
            final(self)@ == old(self)@.enqueue(request),
            old(self).wf() ==> final(self).wf(),
    {
        self.waiting.push_back(request);
    }

    /// Admits waiting requests into the free slots, oldest first, and answers each
    /// of them over its reply channel.
    pub fn admit_ready(&mut self)
        requires
            old(self).wf(),
        ensures
            final(self).wf(),
            final(self)@ == old(self)@.admit_all(),
            final(self)@.waiting.len() == 0 || final(self)@.in_flight.len()
                == final(self)@.max_in_flight,
    {
        while self.in_flight.len() < self.max_in_flight
            invariant
                self.wf(),
                self@.admit_all() == old(self)@.admit_all(),
            ensures
                self.wf(),
                !self@.can_admit(),
                self@.admit_all() == old(self)@.admit_all(),
            decreases self.waiting@.len(),
        {
            let ghost before = self@;
            match self.waiting.pop_front() {
                None => {
                    break;
                },
                Some(request) => {
                    let session_id = request.session_id;
                    let queue_position: usize = self.ready.len();
                    self.in_flight.insert(
                        session_id,
                        RequestState { session_id, phase: RequestPhase::Prefill, step_id: 0 },
                    );
                    self.ready.push_back(session_id);
                    let admission = PipelineAdmission { session_id, queue_position };
                    send_answer(&mut self.granted, request.reply, admission);
                    assert(self@ =~= before.admit_one());
                },
            }
        }
    }

    /// The session whose step runs next, if any is ready.
    pub fn next_ready(&mut self) -> (res: Option<SessionId>)
        ensures
            match res {
                Some(id) => {
                    &&& old(self)@.ready.len() > 0
                    &&& id == old(self)@.ready[0]
                    &&& final(self)@ == old(self)@.take_ready()
                },
                None => old(self)@.ready.len() == 0 && final(self)@ == old(self)@,
            },
    {
        self.ready.pop_front()
    }

    /// Records that a step of `session_id` ended. A finished session gives up its
    /// slot, an unfinished one waits for its next turn; then the free slots are
    /// filled.
    pub fn complete_step(&mut self, session_id: SessionId, finished: bool)
        requires
            old(self).wf(),
            !finished && old(self)@.in_flight.contains_key(session_id) ==> old(
                self,
            )@.in_flight[session_id].step_id < usize::MAX,
        ensures
            final(self).wf(),
            final(self)@ == old(self)@.end_step(session_id, finished).admit_all(),
            final(self)@.waiting.len() == 0 || final(self)@.in_flight.len()
                == final(self)@.max_in_flight,
    {
        if finished {
            self.in_flight.remove(&session_id);
        } else {
            let next: Option<RequestState> = match self.in_flight.get(&session_id) {
                Some(state) => Some(
                    RequestState {
                        session_id: state.session_id,
                        phase: RequestPhase::Decode,
                        step_id: state.step_id + 1,
                    },
                ),
                None => None,
            };
            if let Some(state) = next {
                self.in_flight.insert(session_id, state);
                self.ready.push_back(session_id);
            }
        }
        assert(self@ =~= old(self)@.end_step(session_id, finished));
        self.admit_ready();
    }

    /// How many requests may be in flight at once.
    pub fn max_in_flight(&self) -> (res: usize)
        ensures
            res == self@.max_in_flight,
    {
        self.max_in_flight
    }

    /// How many requests are in flight.
    pub fn in_flight_len(&self) -> (res: usize)
        ensures
            res == self@.in_flight.len(),
    {
        self.in_flight.len()
    }

    /// Whether `session_id` is in flight.
    pub fn is_in_flight(&self, session_id: SessionId) -> (res: bool)
        ensures
            res == self@.in_flight.contains_key(session_id),
    {
        self.in_flight.contains_key(&session_id)
    }

    /// Where the request of `session_id` stands, if it is in flight.
    pub fn request_state(&self, session_id: SessionId) -> (res: Option<RequestState>)
        ensures
            res == if self@.in_flight.contains_key(session_id) {
                Some(self@.in_flight[session_id])
            } else {
                None
            },
    {
        match self.in_flight.get(&session_id) {
            Some(state) => Some(*state),
            None => None,
        }
    }
}

/// How many requests the setting `DIAL_PIPELINE_DEPTH`, read as `value`, lets into
/// flight.
pub fn configured_pipeline_depth(value: Option<&str>) -> (res: usize)
    ensures
        res == settings::count_setting(settings::setting_chars(value), 4),
{
    settings::read_count(value, 4)
}

} // verus!
