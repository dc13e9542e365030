use dial_core::models::chat::Message;
use dial_core::models::generator::{
    detached_stages_unsupported, session_swapping_unsupported, Generator,
};
use dial_core::models::{PipelineStageJob, PipelineStageOutput, Token};
use dial_core::spm::args::Args;
use dial_core::spm::context::{Context, ModelConfig, ModelFamily};
use dial_core::spm::engine::{
    EngineAction, EngineEvent, EngineRequest, EngineTurns, PipelineEngine,
};
use dial_core::spm::master::Master;
use tokio::sync::mpsc::{unbounded_channel, UnboundedReceiver, UnboundedSender};
use tokio::sync::oneshot;

fn token(text: &str) -> Token {
    Token { id: 1, text: Some(text.to_string()), is_end_of_stream: false }
}

fn end() -> Token {
    Token { id: 2, text: None, is_end_of_stream: true }
}

struct Requester {
    events: UnboundedReceiver<EngineEvent>,
    accepted: oneshot::Receiver<u64>,
}

fn request(
    engine: &mut EngineTurns,
    created: Result<(), String>,
    now_ns: u128,
) -> (u64, Requester) {
    let (events_tx, events) = unbounded_channel();
    let (accepted_tx, accepted) = oneshot::channel();
    let id = engine.allocate_session_id();
    engine.admit_session(id, events_tx, accepted_tx, created, now_ns);
    (id, Requester { events, accepted })
}

fn next_text(requester: &mut Requester) -> String {
    match requester.events.try_recv().unwrap() {
        EngineEvent::Token(text) => text,
        other => panic!("{other:?}"),
    }
}

#[test]
fn idle_engine_waits_and_stops_when_closed() {
    let mut engine = EngineTurns::new(2);
    assert_eq!(engine.next_action(), EngineAction::TryReceive);
    engine.nothing_received();
    assert_eq!(engine.next_action(), EngineAction::Receive);
    engine.closed();
    assert_eq!(engine.next_action(), EngineAction::Stop);
}

#[test]
fn requesters_learn_their_session() {
    let mut engine = EngineTurns::new(2);
    let (first, mut a) = request(&mut engine, Ok(()), 0);
    let (second, mut b) = request(&mut engine, Ok(()), 0);
    assert_eq!((first, second), (1, 2));
    assert_eq!(a.accepted.try_recv(), Ok(1));
    assert_eq!(b.accepted.try_recv(), Ok(2));
}

#[test]
fn requests_take_turns_in_the_engine() {
    let mut engine = EngineTurns::new(3);
    let mut requesters: Vec<Requester> =
        (0..3).map(|_| request(&mut engine, Ok(()), 0).1).collect();
    let mut served = Vec::new();
    for round in 0..6 {
        match engine.next_action() {
            EngineAction::Step { session_id, step } => {
                served.push((session_id, step));
                let text = format!("r{round}s{session_id}");
                let outcome = Ok(token(&text));
                assert_eq!(engine.session_over(&outcome), None);
                engine.complete_step(outcome, 0);
            }
            other => panic!("{other:?}"),
        }
    }
    assert_eq!(served, vec![(1, 0), (2, 0), (3, 0), (1, 1), (2, 1), (3, 1)]);
    assert_eq!(next_text(&mut requesters[1]), "r1s2");
    assert_eq!(next_text(&mut requesters[1]), "r4s2");
    assert!(requesters[1].events.try_recv().is_err());
    assert_eq!(next_text(&mut requesters[2]), "r2s3");
}

#[test]
fn finished_request_reports_count_and_time() {
    let mut engine = EngineTurns::new(1);
    let (id, mut requester) = request(&mut engine, Ok(()), 1_000);
    for text in ["a", "b"] {
        assert!(matches!(engine.next_action(), EngineAction::Step { .. }));
        engine.complete_step(Ok(token(text)), 2_000);
    }
    assert_eq!(engine.next_action(), EngineAction::Step { session_id: id, step: 2 });
    let outcome = Ok(end());
    assert_eq!(engine.session_over(&outcome), Some(id));
    engine.complete_step(outcome, 5_000);
    assert_eq!(next_text(&mut requester), "a");
    assert_eq!(next_text(&mut requester), "b");
    match requester.events.try_recv().unwrap() {
        EngineEvent::Finished { generated_tokens, elapsed_ns } => {
            assert_eq!((generated_tokens, elapsed_ns), (2, 4_000));
        }
        other => panic!("{other:?}"),
    }
    assert_eq!(engine.next_action(), EngineAction::TryReceive);
}

#[test]
fn failed_step_ends_the_request() {
    let mut engine = EngineTurns::new(1);
    let (id, mut requester) = request(&mut engine, Ok(()), 0);
    assert_eq!(engine.next_action(), EngineAction::Step { session_id: id, step: 0 });
    let outcome = Err("worker error: x".to_string());
    assert_eq!(engine.session_over(&outcome), Some(id));
    engine.complete_step(outcome, 9);
    match requester.events.try_recv().unwrap() {
        EngineEvent::Error(cause) => assert_eq!(cause, "worker error: x"),
        other => panic!("{other:?}"),
    }
}

#[test]
fn session_that_cannot_be_created_is_refused() {
    let mut engine = EngineTurns::new(1);
    let (id, mut requester) = request(&mut engine, Err("no sessions".to_string()), 0);
    assert_eq!(id, 1);
    assert!(requester.accepted.try_recv().is_err());
    match requester.events.try_recv().unwrap() {
        EngineEvent::Error(cause) => assert_eq!(cause, "no sessions"),
        other => panic!("{other:?}"),
    }
    // Its id is used up, its slot is not.
    assert_eq!(engine.next_action(), EngineAction::TryReceive);
    assert_eq!(engine.allocate_session_id(), 2);
}

#[test]
fn full_engine_steps_before_it_looks_for_requests() {
    let mut engine = EngineTurns::new(0);
    let (id, _requester) = request(&mut engine, Ok(()), 0);
    assert_eq!(engine.next_action(), EngineAction::Step { session_id: id, step: 0 });
    assert_eq!(engine.next_action(), EngineAction::Step { session_id: id, step: 0 });
    engine.complete_step(Ok(token("t")), 0);
    assert_eq!(engine.next_action(), EngineAction::Step { session_id: id, step: 1 });
}

#[test]
fn free_slots_are_filled_between_steps() {
    let mut engine = EngineTurns::new(2);
    let (id, _requester) = request(&mut engine, Ok(()), 0);
    assert_eq!(engine.next_action(), EngineAction::TryReceive);
    engine.nothing_received();
    assert_eq!(engine.next_action(), EngineAction::Step { session_id: id, step: 0 });
    engine.complete_step(Ok(token("t")), 0);
    assert_eq!(engine.next_action(), EngineAction::TryReceive);
}

#[test]
fn requester_that_left_does_not_stop_the_engine() {
    let mut engine = EngineTurns::new(1);
    let (id, requester) = request(&mut engine, Ok(()), 0);
    drop(requester);
    assert_eq!(engine.next_action(), EngineAction::Step { session_id: id, step: 0 });
    engine.complete_step(Ok(token("t")), 0);
    assert_eq!(engine.next_action(), EngineAction::Step { session_id: id, step: 1 });
    let outcome = Ok(end());
    assert_eq!(engine.session_over(&outcome), Some(id));
    engine.complete_step(outcome, 0);
}

#[test]
fn clock_that_runs_backwards_gives_no_time() {
    let mut engine = EngineTurns::new(1);
    let (_, mut requester) = request(&mut engine, Ok(()), 10);
    engine.next_action();
    engine.complete_step(Ok(end()), 3);
    match requester.events.try_recv().unwrap() {
        EngineEvent::Finished { elapsed_ns, .. } => assert_eq!(elapsed_ns, 0),
        other => panic!("{other:?}"),
    }
}

/// Swaps its dialog in and out.
struct Dialog {
    messages: Vec<String>,
    swaps: bool,
}

impl Generator for Dialog {
    type State = Vec<String>;
    type Hidden = ();
    type Activation = ();
    type Cache = ();
    type Executor = ();

    const MODEL_NAME: &'static str = "dialog";

    fn add_message(&mut self, message: Message) -> Result<(), String> {
        self.messages.push(message.content);
        Ok(())
    }

    fn reset(&mut self) -> Result<(), String> {
        self.messages.clear();
        Ok(())
    }

    fn save_session(&mut self) -> Result<Option<Vec<String>>, String> {
        Ok(if self.swaps { Some(std::mem::take(&mut self.messages)) } else { None })
    }

    fn restore_session(&mut self, state: Vec<String>) -> Result<(), String> {
        if !self.swaps {
            return Err(session_swapping_unsupported(Self::MODEL_NAME));
        }
        self.messages = state;
        Ok(())
    }

    fn generated_tokens(&self) -> usize {
        0
    }

    fn pipeline_release_handles(&self) -> Vec<()> {
        vec![]
    }

    fn pipeline_detach_stage(
        &self,
        _stage: usize,
        _hidden: &mut (),
    ) -> Result<PipelineStageJob<(), (), ()>, String> {
        Err(detached_stages_unsupported(Self::MODEL_NAME))
    }

    fn pipeline_attach_stage(
        &self,
        _hidden: &mut (),
        _output: PipelineStageOutput<(), ()>,
    ) -> Result<(), String> {
        Err(detached_stages_unsupported(Self::MODEL_NAME))
    }
}

fn dialog_engine(
    max_active: usize,
) -> (UnboundedSender<EngineRequest>, PipelineEngine<Dialog>) {
    let ctx = Context::from_args(Args::default())
        .unwrap()
        .attach_device(Ok(false))
        .unwrap()
        .for_family(ModelFamily::Llama3)
        .configure(ModelConfig { attn_f32: false, max_seq_len: 1 })
        .unwrap()
        .finish()
        .unwrap();
    let model = Box::new(Dialog { messages: vec![], swaps: true });
    PipelineEngine::channel(Master::new(ctx, model), max_active)
}

fn ask(tx: &UnboundedSender<EngineRequest>, text: &str) -> Requester {
    let (events_tx, events) = unbounded_channel();
    let (accepted_tx, accepted) = oneshot::channel();
    let messages = vec![Message::user(text.to_string())];
    tx.send(EngineRequest { messages, events: events_tx, accepted: accepted_tx }).unwrap();
    Requester { events, accepted }
}

/// Runs one step that answers with the last message and counts up.
fn step(engine: &mut PipelineEngine<Dialog>, session_id: u64, limit: usize) -> Result<Token, String> {
    engine.master.begin_session_step(session_id).map_err(|e| e.to_string())?;
    let said = engine.master.model.messages.join(" ");
    engine.master.model.messages.push("+".to_string());
    let done = engine.master.model.messages.len() > limit;
    let outcome = Ok(Token { id: 0, text: Some(said), is_end_of_stream: done });
    engine.master.end_session_step(session_id, outcome).map_err(|e| e.to_string())
}

#[test]
fn engine_serves_requests_to_the_end() {
    let (tx, mut engine) = dialog_engine(2);
    let mut requesters: Vec<Requester> = ["a", "b", "c"].iter().map(|t| ask(&tx, t)).collect();
    drop(tx);
    let mut steps = Vec::new();
    let mut over = Vec::new();
    loop {
        match engine.next_action() {
            EngineAction::TryReceive => {
                engine.fill_slot();
            }
            EngineAction::Step { session_id, .. } => {
                steps.push(session_id);
                let outcome = step(&mut engine, session_id, 2);
                if let Some(id) = engine.complete_step(outcome) {
                    assert!(!engine.master.sessions.contains(id));
                    over.push(id);
                }
            }
            EngineAction::Receive => {
                assert!(engine.inbox.requests().try_recv().is_err());
                engine.closed();
            }
            EngineAction::Stop => break,
        }
    }
    // Two slots: sessions 1 and 2 alternate, 3 comes in once 1 is over.
    assert_eq!(steps, vec![1, 2, 1, 2, 3, 3]);
    assert_eq!(over, vec![1, 2, 3]);
    for (i, (requester, text)) in requesters.iter_mut().zip(["a", "b", "c"]).enumerate() {
        assert_eq!(requester.accepted.try_recv(), Ok(i as u64 + 1));
        assert_eq!(next_text(requester), text);
        assert!(matches!(
            requester.events.try_recv(),
            Ok(EngineEvent::Finished { generated_tokens: 1, .. })
        ));
        assert!(requester.events.try_recv().is_err());
    }
}

#[test]
fn engine_takes_requests_in_order_of_arrival() {
    let (tx, mut engine) = dialog_engine(3);
    assert_eq!(engine.next_action(), EngineAction::TryReceive);
    assert!(!engine.fill_slot());
    assert_eq!(engine.next_action(), EngineAction::Receive);
    let _first = ask(&tx, "first");
    let second = ask(&tx, "second");
    let request = engine.inbox.requests().try_recv().unwrap();
    engine.admit_request(request);
    assert_eq!(engine.next_action(), EngineAction::TryReceive);
    assert!(engine.fill_slot());
    assert!(engine.master.sessions.contains(1));
    assert!(engine.master.sessions.contains(2));
    let mut second = second;
    assert_eq!(second.accepted.try_recv(), Ok(2));
}

#[test]
fn model_without_sessions_refuses_every_request() {
    let (tx, mut engine) = dialog_engine(1);
    engine.master.model.swaps = false;
    for expected_id in [1, 2] {
        let mut requester = ask(&tx, "a");
        assert_eq!(engine.next_action(), EngineAction::TryReceive);
        assert!(engine.fill_slot());
        assert!(requester.accepted.try_recv().is_err());
        match requester.events.try_recv().unwrap() {
            EngineEvent::Error(cause) => {
                assert_eq!(cause, "dialog does not support pipeline sessions");
            }
            other => panic!("{other:?}"),
        }
        assert!(!engine.master.sessions.contains(expected_id));
    }
}

#[test]
fn lost_session_ends_its_request() {
    let (tx, mut engine) = dialog_engine(1);
    let mut requester = ask(&tx, "a");
    engine.next_action();
    assert!(engine.fill_slot());
    assert_eq!(engine.next_action(), EngineAction::Step { session_id: 1, step: 0 });
    engine.master.release_session(1);
    let outcome = step(&mut engine, 1, 9);
    assert_eq!(engine.complete_step(outcome), Some(1));
    match requester.events.try_recv().unwrap() {
        EngineEvent::Error(cause) => assert_eq!(cause, "unknown pipeline session 1"),
        other => panic!("{other:?}"),
    }
}

#[test]
fn slot_is_filled_with_what_was_found() {
    let (tx, mut engine) = dialog_engine(2);
    engine.fill_slot_with(None);
    assert_eq!(engine.next_action(), EngineAction::Receive);
    let mut requester = ask(&tx, "late");
    let request = engine.inbox.requests().try_recv().unwrap();
    engine.admit_request(request);
    assert_eq!(engine.next_action(), EngineAction::TryReceive);
    let mut second = ask(&tx, "found");
    let found = engine.inbox.requests().try_recv().ok();
    engine.fill_slot_with(found);
    assert_eq!(requester.accepted.try_recv(), Ok(1));
    assert_eq!(second.accepted.try_recv(), Ok(2));
    assert_eq!(engine.next_action(), EngineAction::Step { session_id: 1, step: 0 });
}

#[test]
fn single_slot_serves_requests_one_after_the_other() {
    let (tx, mut engine) = dialog_engine(1);
    let _requesters: Vec<Requester> = ["a", "b"].iter().map(|t| ask(&tx, t)).collect();
    drop(tx);
    let mut steps = Vec::new();
    loop {
        match engine.next_action() {
            EngineAction::TryReceive => {
                engine.fill_slot();
            }
            EngineAction::Step { session_id, step: index } => {
                steps.push((session_id, index));
                assert!(!engine.master.sessions.contains(3 - session_id));
                let outcome = step(&mut engine, session_id, 3);
                engine.complete_step(outcome);
            }
            EngineAction::Receive => engine.closed(),
            EngineAction::Stop => break,
        }
    }
    assert_eq!(steps, vec![(1, 0), (1, 1), (1, 2), (2, 0), (2, 1), (2, 2)]);
}

#[test]
fn requests_hear_one_last_event() {
    let (tx, mut engine) = dialog_engine(2);
    let mut requesters: Vec<Requester> = ["a", "b", "c"].iter().map(|t| ask(&tx, t)).collect();
    drop(tx);
    loop {
        match engine.next_action() {
            EngineAction::TryReceive => {
                engine.fill_slot();
            }
            EngineAction::Step { session_id, .. } => {
                let mut outcome = step(&mut engine, session_id, 4);
                if session_id == 2 {
                    outcome = Err("lost".to_string());
                }
                engine.complete_step(outcome);
            }
            EngineAction::Receive => engine.closed(),
            EngineAction::Stop => break,
        }
    }
    for (i, requester) in requesters.iter_mut().enumerate() {
        let mut tokens = 0;
        let mut ends = Vec::new();
        while let Ok(event) = requester.events.try_recv() {
            match event {
                EngineEvent::Token(_) => {
                    assert!(ends.is_empty());
                    tokens += 1;
                }
                EngineEvent::Finished { generated_tokens, .. } => {
                    assert_eq!(generated_tokens, tokens);
                    ends.push("finished");
                }
                EngineEvent::Error(cause) => {
                    assert_eq!(cause, "lost");
                    ends.push("error");
                }
            }
        }
        assert_eq!(ends, vec![if i == 1 { "error" } else { "finished" }]);
        assert_eq!(tokens, if i == 1 { 0 } else { 3 });
    }
}

#[test]
fn full_engine_takes_turns_over_many_rounds() {
    let (tx, mut engine) = dialog_engine(3);
    let _requesters: Vec<Requester> = ["a", "b", "c"].iter().map(|t| ask(&tx, t)).collect();
    let mut steps = Vec::new();
    while steps.len() < 9 {
        match engine.next_action() {
            EngineAction::TryReceive => assert!(engine.fill_slot()),
            EngineAction::Step { session_id, step: index } => {
                steps.push((session_id, index));
                let outcome = step(&mut engine, session_id, 99);
                assert_eq!(engine.complete_step(outcome), None);
            }
            other => panic!("{other:?}"),
        }
    }
    let expected: Vec<(u64, usize)> = (0..9).map(|k| (k as u64 % 3 + 1, k / 3)).collect();
    assert_eq!(steps, expected);
}

#[test]
fn sessions_never_outnumber_the_slots() {
    let (tx, mut engine) = dialog_engine(2);
    let _requesters: Vec<Requester> = (0..6).map(|i| ask(&tx, &format!("{i}"))).collect();
    drop(tx);
    loop {
        let held = (1..=6).filter(|id| engine.master.sessions.contains(*id)).count();
        assert!(held <= 2);
        match engine.next_action() {
            EngineAction::TryReceive => {
                engine.fill_slot();
            }
            EngineAction::Step { session_id, .. } => {
                let outcome = step(&mut engine, session_id, 2);
                engine.complete_step(outcome);
            }
            EngineAction::Receive => engine.closed(),
            EngineAction::Stop => break,
        }
    }
    assert!((1..=6).all(|id| !engine.master.sessions.contains(id)));
}

#[test]
fn refused_requests_take_no_slot() {
    let (tx, mut engine) = dialog_engine(2);
    let mut requesters: Vec<Requester> = ["a", "b", "c"].iter().map(|t| ask(&tx, t)).collect();
    for (i, swaps) in [true, false, true].into_iter().enumerate() {
        engine.master.model.swaps = swaps;
        assert_eq!(engine.next_action(), EngineAction::TryReceive);
        assert!(engine.fill_slot());
        assert_eq!(requesters[i].accepted.try_recv().is_ok(), swaps);
    }
    assert_eq!(engine.next_action(), EngineAction::Step { session_id: 1, step: 0 });
    let outcome = step(&mut engine, 1, 9);
    engine.complete_step(outcome);
    assert_eq!(engine.next_action(), EngineAction::Step { session_id: 3, step: 0 });
}

#[test]
fn elapsed_time_is_that_of_the_clock() {
    let before = std::time::Instant::now();
    let (tx, mut engine) = dialog_engine(1);
    let mut requester = ask(&tx, "a");
    assert!(engine.fill_slot());
    engine.next_action();
    let outcome = step(&mut engine, 1, 1);
    let started = std::time::Instant::now();
    while started.elapsed().as_millis() < 5 {}
    assert_eq!(engine.complete_step(outcome), Some(1));
    match requester.events.try_recv().unwrap() {
        EngineEvent::Finished { elapsed_ns, .. } => {
            assert!(elapsed_ns >= 5_000_000);
            assert!(elapsed_ns <= before.elapsed().as_nanos());
        }
        other => panic!("{other:?}"),
    }
}

#[test]
fn engine_serves_what_its_own_sender_sends() {
    let (tx, mut engine) = dialog_engine(2);
    let (other_tx, mut other) = dialog_engine(2);
    let mut requester = ask(&tx, "mine");
    let _elsewhere = ask(&other_tx, "theirs");
    assert!(engine.fill_slot());
    assert_eq!(requester.accepted.try_recv(), Ok(1));
    assert!(!engine.fill_slot());
    let mut late = ask(&tx, "late");
    engine.next_action();
    let outcome = step(&mut engine, 1, 9);
    assert_eq!(outcome.as_ref().unwrap().text.as_deref(), Some("mine"));
    engine.complete_step(outcome);
    assert!(engine.fill_slot());
    assert_eq!(late.accepted.try_recv(), Ok(2));
    assert!(other.fill_slot());
}
