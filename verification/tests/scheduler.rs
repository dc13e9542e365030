use dial_core::models::chat::Message;
use dial_core::spm::scheduler::{
    configured_pipeline_depth, PipelineAdmission, PipelineRequest, PipelineScheduler, RequestPhase,
};
use tokio::sync::oneshot;

fn req(id: u64) -> (PipelineRequest, oneshot::Receiver<PipelineAdmission>) {
    let (tx, rx) = oneshot::channel();
    (PipelineRequest { session_id: id, messages: vec![], stream: false, reply: tx }, rx)
}

#[test]
fn odd_request_counts_are_admitted_without_pairing() {
    let mut s = PipelineScheduler::new(5);
    let mut replies = Vec::new();
    for id in 1..=5 {
        let (r, rx) = req(id);
        s.enqueue(r);
        replies.push(rx);
    }
    s.admit_ready();
    assert_eq!(s.in_flight_len(), 5);
    for mut rx in replies {
        assert!(rx.try_recv().is_ok());
    }
    assert_eq!((0..5).filter_map(|_| s.next_ready()).collect::<Vec<_>>(), vec![1, 2, 3, 4, 5]);
}

#[test]
fn finished_slot_admits_next_waiter() {
    let mut s = PipelineScheduler::new(3);
    let mut replies = Vec::new();
    for id in 1..=5 {
        let (r, rx) = req(id);
        s.enqueue(r);
        replies.push(rx);
    }
    s.admit_ready();
    assert_eq!(s.in_flight_len(), 3);
    s.complete_step(2, true);
    assert!(s.is_in_flight(4));
    assert!(!s.is_in_flight(2));
    assert!(!s.is_in_flight(5));
    assert_eq!(s.in_flight_len(), 3);
}

#[test]
fn admissions_carry_session_and_position() {
    let mut s = PipelineScheduler::new(2);
    let mut replies = Vec::new();
    for id in [70, 7, 700] {
        let (r, rx) = req(id);
        s.enqueue(r);
        replies.push(rx);
    }
    s.admit_ready();
    let first = replies[0].try_recv().unwrap();
    assert_eq!((first.session_id, first.queue_position), (70, 0));
    let second = replies[1].try_recv().unwrap();
    assert_eq!((second.session_id, second.queue_position), (7, 1));
    assert!(replies[2].try_recv().is_err());

    // Session 70 ends its step and the slot goes on; 7 is still in line.
    assert_eq!(s.next_ready(), Some(70));
    s.complete_step(70, true);
    let third = replies[2].try_recv().unwrap();
    assert_eq!((third.session_id, third.queue_position), (700, 1));
}

#[test]
fn requester_that_left_does_not_stop_admission() {
    let mut s = PipelineScheduler::new(2);
    let (gone, rx) = req(1);
    drop(rx);
    let (here, mut rx) = req(2);
    s.enqueue(gone);
    s.enqueue(here);
    s.admit_ready();
    assert_eq!(s.in_flight_len(), 2);
    assert_eq!(rx.try_recv().unwrap().session_id, 2);
}

#[test]
fn sessions_run_round_robin() {
    let mut s = PipelineScheduler::new(3);
    for id in 1..=3 {
        s.enqueue(req(id).0);
    }
    s.admit_ready();
    let mut order = Vec::new();
    for _ in 0..7 {
        let id = s.next_ready().unwrap();
        order.push(id);
        s.complete_step(id, false);
    }
    assert_eq!(order, vec![1, 2, 3, 1, 2, 3, 1]);
}

#[test]
fn running_session_is_offered_once() {
    let mut s = PipelineScheduler::new(2);
    s.enqueue(req(1).0);
    s.admit_ready();
    assert_eq!(s.next_ready(), Some(1));
    assert_eq!(s.next_ready(), None);
    s.complete_step(1, false);
    assert_eq!(s.next_ready(), Some(1));
    assert_eq!(s.next_ready(), None);
}

#[test]
fn end_of_an_unknown_step_changes_nothing() {
    let mut s = PipelineScheduler::new(2);
    s.enqueue(req(1).0);
    s.admit_ready();
    s.complete_step(9, false);
    s.complete_step(9, true);
    assert_eq!(s.in_flight_len(), 1);
    assert_eq!(s.next_ready(), Some(1));
    assert_eq!(s.next_ready(), None);
}

#[test]
fn scheduler_has_at_least_one_slot() {
    assert_eq!(PipelineScheduler::new(0).max_in_flight(), 1);
    assert_eq!(PipelineScheduler::new(6).max_in_flight(), 6);
}

#[test]
fn session_ids_count_up_from_one() {
    let mut s = PipelineScheduler::new(1);
    let ids: Vec<u64> = (0..4).map(|_| s.allocate_session_id()).collect();
    assert_eq!(ids, vec![1, 2, 3, 4]);
}

#[test]
fn pipeline_depth_defaults_to_four() {
    assert_eq!(configured_pipeline_depth(None), 4);
    assert_eq!(configured_pipeline_depth(Some("0")), 4);
    assert_eq!(configured_pipeline_depth(Some("-3")), 4);
    assert_eq!(configured_pipeline_depth(Some(" 3")), 4);
    assert_eq!(configured_pipeline_depth(Some("many")), 4);
    assert_eq!(configured_pipeline_depth(Some("99999999999999999999999")), 4);
    assert_eq!(configured_pipeline_depth(Some("3")), 3);
    assert_eq!(configured_pipeline_depth(Some("+12")), 12);
}

#[test]
fn request_keeps_its_messages_while_it_waits() {
    let (mut r, mut rx) = req(5);
    r.messages.push(Message::user("hello".to_string()));
    r.stream = true;
    let mut s = PipelineScheduler::new(1);
    s.enqueue(r);
    assert!(rx.try_recv().is_err());
    s.admit_ready();
    assert_eq!(rx.try_recv().unwrap().session_id, 5);
}

#[test]
fn steps_are_counted_per_request() {
    let mut s = PipelineScheduler::new(1);
    s.enqueue(req(8).0);
    assert!(s.request_state(8).is_none());
    s.admit_ready();
    let state = s.request_state(8).unwrap();
    assert_eq!((state.session_id, state.phase, state.step_id), (8, RequestPhase::Prefill, 0));
    s.next_ready();
    s.complete_step(8, false);
    let state = s.request_state(8).unwrap();
    assert_eq!((state.session_id, state.phase, state.step_id), (8, RequestPhase::Decode, 1));
    s.complete_step(8, true);
    assert!(s.request_state(8).is_none());
}

#[test]
fn running_session_stays_out_of_the_line() {
    let mut s = PipelineScheduler::new(3);
    for id in 1..=5 {
        s.enqueue(req(id).0);
    }
    s.admit_ready();
    assert_eq!(s.next_ready(), Some(1));
    assert_eq!(s.next_ready(), Some(2));
    s.complete_step(2, false);
    s.enqueue(req(6).0);
    s.admit_ready();
    assert_eq!(s.next_ready(), Some(3));
    s.complete_step(3, true);
    let offered: Vec<u64> = std::iter::from_fn(|| s.next_ready()).collect();
    assert_eq!(offered, vec![2, 4]);
    assert!(s.is_in_flight(1));
    s.complete_step(1, false);
    assert_eq!(s.next_ready(), Some(1));
}
