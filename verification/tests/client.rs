use std::sync::Arc;

use dial_core::spm::client::{
    current_sampling_request, current_session_id, greeting, next_request_number, probe_worker, Client,
    ClientPool, HandshakeEvent, LaneChoice, PendingRequest, ReleaseEvent, SessionLanes, Transfer,
};
use dial_core::spm::client_error::ClientError;
use dial_core::spm::proto::{DType, FloatText, Message, RawTensor, SamplingRequest, WorkerInfo};

/// A connection, told apart by its number.
type Wire = u32;

/// What holds the lanes; here its name.
type Lanes = &'static str;

/// A device, told apart by its name.
type Device = &'static str;

type TestClient = Client<Wire, Lanes, Device>;

fn client_at(
    address: &str,
    layer_name: &str,
    number: u32,
    hello: Result<Message, ClientError>,
    compact_allowed: bool,
) -> Result<TestClient, ClientError> {
    Client::new(
        Arc::new("cpu"),
        address,
        layer_name,
        Arc::new(number),
        Arc::new("lanes"),
        hello,
        compact_allowed,
    )
}

fn tensor() -> RawTensor {
    RawTensor { data: vec![1, 2, 3, 4], dtype: DType::F16, shape: vec![1, 2] }
}

fn worker(capabilities: &[&str]) -> WorkerInfo {
    WorkerInfo {
        capabilities: capabilities.iter().map(|c| c.to_string()).collect(),
        ..Default::default()
    }
}

fn connected(capabilities: &[&str], compact_allowed: bool) -> TestClient {
    let hello = Ok(Message::WorkerInfo(worker(capabilities)));
    client_at("10.0.0.7:10128", "model.layers.0", 0, hello, compact_allowed).unwrap()
}

fn run_of(first: usize, n: usize) -> Vec<(String, usize, usize)> {
    (0..n).map(|i| (format!("model.layers.{}", first + i), 9, first + i)).collect()
}

#[test]
fn client_pool_reuses_one_connection_per_worker_address() {
    let address = "127.0.0.1:0";
    let mut connections = 0;
    let mut pool: ClientPool<Wire, Lanes, Device> = ClientPool::default();
    let mut client_for_layer = |layer_name: &str| match pool.client_for_layer(address, layer_name) {
        Some(client) => client,
        None => {
            connections += 1;
            let hello = Ok(Message::WorkerInfo(WorkerInfo::default()));
            pool.keep(address, client_at(address, layer_name, 0, hello, false)).unwrap()
        }
    };
    let layer0 = client_for_layer("model.layers.0");
    let layer1 = client_for_layer("model.layers.1");

    assert!(Arc::ptr_eq(&layer0.connection, &layer1.connection));
    assert!(Arc::ptr_eq(&layer0.session_connections, &layer1.session_connections));
    assert!(Arc::ptr_eq(&layer0.device, &layer1.device));
    assert_eq!(layer0.layer_name, "model.layers.0");
    assert_eq!(layer1.layer_name, "model.layers.1");
    assert_eq!(connections, 1);
}

#[test]
fn pool_keeps_addresses_apart() {
    let mut pool: ClientPool<Wire, Lanes, Device> = ClientPool::default();
    for (address, number) in [("a:1", 1u32), ("b:1", 2)] {
        let hello = Ok(Message::WorkerInfo(WorkerInfo::default()));
        pool.keep(address, client_at(address, "x", number, hello, false)).unwrap();
    }
    assert_eq!(*pool.client_for_layer("a:1", "y").unwrap().connection, 1);
    assert_eq!(*pool.client_for_layer("b:1", "y").unwrap().connection, 2);
    assert!(pool.client_for_layer("c:1", "y").is_none());
}

#[test]
fn release_session_closes_and_removes_dedicated_lane() {
    let client = connected(&[], false);
    let mut lanes: SessionLanes<Wire> = SessionLanes::new();

    assert!(matches!(client.connection_for_session(&lanes, 42), LaneChoice::Open));
    assert!(matches!(greeting(), Message::Hello));
    let event = HandshakeEvent::Answered { response: Message::WorkerInfo(WorkerInfo::default()) };
    client.check_lane_handshake(event).unwrap();
    let limit = TestClient::max_session_lanes(None);
    let lane = client.install_lane(&mut lanes, 42, Arc::new(7), limit).unwrap();
    assert!(lanes.contains(42));

    let release = TestClient::begin_release(&mut lanes, 42).unwrap();
    assert!(Arc::ptr_eq(&lane, &release.lane));
    assert!(matches!(release.message, Message::ReleaseSession { session_id: 42 }));
    assert_eq!(release.time_limit_ms, 2000);
    let answer = ReleaseEvent::Answered { response: Message::ReleaseSession { session_id: 42 } };
    client.release_session(42, answer).unwrap();
    assert!(!lanes.contains(42));
    assert!(matches!(client.connection_for_session(&lanes, 42), LaneChoice::Open));
}

#[test]
fn probe_worker_returns_handshake_info() {
    assert!(matches!(greeting(), Message::Hello));
    let event = HandshakeEvent::Answered {
        response: Message::WorkerInfo(WorkerInfo {
            version: "test-v1".to_string(),
            dtype: "F16".to_string(),
            os: "linux".to_string(),
            arch: "aarch64".to_string(),
            device: "NPU".to_string(),
            device_idx: 2,
            latency: 7,
            cpu_usage_percent: Some(FloatText { text: format!("{:?}", 25.0) }),
            memory_usage_percent: Some(FloatText { text: format!("{:?}", 50.0) }),
            npu_usage_percent: Some(FloatText { text: format!("{:?}", 75.0) }),
            temperature_c: Some(FloatText { text: format!("{:?}", 48.0) }),
            system_model: Some("test-board".to_string()),
            capabilities: vec![],
        }),
    };
    let info = probe_worker("127.0.0.1:0", event).unwrap();
    assert_eq!(info.version, "test-v1");
    assert_eq!(info.device, "NPU");
    assert_eq!(info.device_idx, 2);
    assert_eq!(info.latency, 7);
    assert_eq!(info.system_model.as_deref(), Some("test-board"));
    assert_eq!(info.temperature_c.map(|t| t.text.parse::<f64>().unwrap()), Some(48.0));
}

#[test]
fn probe_fails_with_the_address() {
    let refused = HandshakeEvent::ConnectFailed { cause: "refused".to_string() };
    let e = probe_worker("w:1", refused).unwrap_err();
    assert_eq!(e.to_string(), "can't connect to w:1: refused");
    let broken = HandshakeEvent::TransportFailed { cause: "eof".to_string() };
    assert_eq!(probe_worker("w:1", broken).unwrap_err().to_string(), "eof");
    let odd = HandshakeEvent::Answered { response: Message::Hello };
    let e = probe_worker("w:1", odd).unwrap_err();
    assert_eq!(e.to_string(), "unexpected topology probe response from w:1: Hello");
}

#[test]
fn handshake_decides_the_short_forms() {
    let both = ["compact_batch_v1", "compact_range_batch_v1"];
    let cases: [(&[&str], bool, bool, bool); 6] = [
        (&[], true, false, false),
        (&["compact_batch_v1"], true, true, false),
        (&["compact_range_batch_v1"], true, true, true),
        (&both, true, true, true),
        (&both, false, false, false),
        (&["compact_batch_v2"], true, false, false),
    ];
    for (capabilities, allowed, compact, range) in cases {
        let client = connected(capabilities, allowed);
        assert_eq!((client.compact_batch, client.compact_range_batch), (compact, range));
        assert!(!client.requires_remote_sampling());
    }
    assert!(connected(&["gguf_sample_token_v1"], false).requires_remote_sampling());
}

#[test]
fn handshake_must_bring_worker_info() {
    let res = client_at("w:1", "l", 0, Ok(Message::Hello), true);
    assert_eq!(res.err().unwrap().to_string(), "unexpected worker info message: Hello");
    let lost = PendingRequest::new(&Message::Hello).after_write(Err("broken pipe".to_string()));
    let res = client_at("w:1", "l", 0, Err(lost.unwrap_err()), true);
    assert_eq!(res.err().unwrap().to_string(), "error sending hello: broken pipe");
}

#[test]
fn runs_are_sent_in_the_shortest_form() {
    let range = connected(&["compact_range_batch_v1"], true);
    match range.forward_batch(3, tensor(), run_of(4, 3), None) {
        Message::CompactRangeBatch { session_id, batch, x, sampling } => {
            assert_eq!(session_id, 3);
            assert_eq!((batch.index_pos, batch.first_block_idx, batch.num_layers), (9, 4, 3));
            assert_eq!(x.data, vec![1, 2, 3, 4]);
            assert!(sampling.is_none());
        }
        other => panic!("{other:?}"),
    }
    let compact = connected(&["compact_batch_v1"], true);
    match compact.forward_batch(3, tensor(), run_of(4, 3), None) {
        Message::CompactBatch { session_id, batch, .. } => {
            assert_eq!(session_id, 3);
            assert_eq!(batch.first_layer_name, "model.layers.4");
            assert_eq!((batch.index_pos, batch.first_block_idx, batch.num_layers), (9, 4, 3));
        }
        other => panic!("{other:?}"),
    }
    let plain = connected(&["compact_batch_v1"], false);
    match plain.forward_batch(3, tensor(), run_of(4, 3), None) {
        Message::Batch { session_id, batch, .. } => {
            assert_eq!(session_id, 3);
            assert_eq!(batch, run_of(4, 3));
        }
        other => panic!("{other:?}"),
    }
}

#[test]
fn batches_that_are_no_run_are_sent_in_full() {
    let client = connected(&["compact_range_batch_v1"], true);
    let mut gap = run_of(0, 3);
    gap[2].2 = 7;
    let mut backwards = run_of(0, 3);
    backwards.reverse();
    let mut moved = run_of(0, 3);
    moved[1].1 = 8;
    let top = vec![("a".to_string(), 0, usize::MAX), ("b".to_string(), 0, 0)];
    for batch in [gap, backwards, moved, top, vec![]] {
        match client.forward_batch(1, tensor(), batch.clone(), None) {
            Message::Batch { batch: sent, .. } => assert_eq!(sent, batch),
            other => panic!("{other:?}"),
        }
    }
}

#[test]
fn sampling_goes_only_to_workers_that_sample() {
    let sampling = SamplingRequest { encoded: vec![7, 8] };
    let current = current_sampling_request(Some(&sampling));
    let with = connected(&["gguf_sample_token_v1"], true);
    match with.forward_mut(5, tensor(), 1, 2, current) {
        Message::SingleOp { session_id, layer_name, index_pos, block_idx, sampling, .. } => {
            assert_eq!((session_id, index_pos, block_idx), (5, 1, 2));
            assert_eq!(layer_name, "model.layers.0");
            assert_eq!(sampling.unwrap().encoded, vec![7, 8]);
        }
        other => panic!("{other:?}"),
    }
    let without = connected(&[], true);
    let current = current_sampling_request(Some(&sampling));
    match without.forward_batch(5, tensor(), run_of(0, 1), current) {
        Message::Batch { sampling, .. } => assert!(sampling.is_none()),
        other => panic!("{other:?}"),
    }
    assert!(current_sampling_request(None).is_none());
}

#[test]
fn task_without_session_uses_session_zero() {
    assert_eq!(current_session_id(None), 0);
    assert_eq!(current_session_id(Some(17)), 17);
}

#[test]
fn session_stays_on_one_lane() {
    let client = connected(&[], false);
    let mut lanes: SessionLanes<Wire> = SessionLanes::new();
    match client.connection_for_session(&lanes, 0) {
        LaneChoice::Ready { connection } => assert!(Arc::ptr_eq(&connection, &client.connection)),
        LaneChoice::Open => panic!("session zero has the base connection"),
    }
    client.install_lane(&mut lanes, 1, Arc::new(10), 2).unwrap();
    client.install_lane(&mut lanes, 2, Arc::new(20), 2).unwrap();
    // A lane that is there wins over a later one, even with all slots taken.
    assert_eq!(*client.install_lane(&mut lanes, 1, Arc::new(11), 2).unwrap(), 10);
    for (id, number) in [(1, 10), (2, 20)] {
        match client.connection_for_session(&lanes, id) {
            LaneChoice::Ready { connection } => assert_eq!(*connection, number),
            LaneChoice::Open => panic!("session {id} has a lane"),
        }
    }
    let e = client.install_lane(&mut lanes, 3, Arc::new(30), 2).unwrap_err();
    assert_eq!(
        e.to_string(),
        "concurrent session lane limit reached for 10.0.0.7:10128: 2 active lanes \
         (DIAL_MAX_SESSION_LANES=2)"
    );
    assert_eq!(lanes.len(), 2);
    assert!(TestClient::begin_release(&mut lanes, 2).is_some());
    client.install_lane(&mut lanes, 3, Arc::new(30), 2).unwrap();
    assert!(lanes.contains(3));
}

#[test]
fn sessions_without_lane_have_nothing_to_end() {
    let mut lanes: SessionLanes<Wire> = SessionLanes::new();
    let client = connected(&[], false);
    client.install_lane(&mut lanes, 5, Arc::new(1), 64).unwrap();
    assert!(TestClient::begin_release(&mut lanes, 0).is_none());
    assert!(TestClient::begin_release(&mut lanes, 6).is_none());
    assert_eq!(lanes.len(), 1);
}

#[test]
fn lane_handshake_failures() {
    let client = connected(&[], false);
    let text = |event| client.check_lane_handshake(event).unwrap_err().to_string();
    assert_eq!(
        text(HandshakeEvent::ConnectFailed { cause: "refused".to_string() }),
        "can't open inference lane to 10.0.0.7:10128: refused"
    );
    assert_eq!(text(HandshakeEvent::TransportFailed { cause: "eof".to_string() }), "eof");
    let response = Message::Error { message: "busy".to_string() };
    assert_eq!(
        text(HandshakeEvent::Answered { response }),
        "unexpected inference-lane handshake from 10.0.0.7:10128: Error { message: \"busy\" }"
    );
}

#[test]
fn release_failures() {
    let client = connected(&[], false);
    let text = |event| client.release_session(42, event).unwrap_err().to_string();
    assert_eq!(
        text(ReleaseEvent::SendFailed { cause: "gone".to_string() }),
        "failed to send release_session 42 to 10.0.0.7:10128: gone"
    );
    assert_eq!(
        text(ReleaseEvent::ReceiveFailed { cause: "gone".to_string() }),
        "failed to receive release_session 42 ack from 10.0.0.7:10128: gone"
    );
    assert_eq!(
        text(ReleaseEvent::TimedOut),
        "release_session 42 to 10.0.0.7:10128 timed out"
    );
    assert_eq!(
        text(ReleaseEvent::Answered { response: Message::ReleaseSession { session_id: 43 } }),
        "unexpected release_session response from 10.0.0.7:10128: ReleaseSession { session_id: 43 }"
    );
    assert_eq!(
        text(ReleaseEvent::Answered { response: Message::Hello }),
        "unexpected release_session response from 10.0.0.7:10128: Hello"
    );
}

#[test]
fn answers_with_a_tensor_are_timed() {
    let request = connected(&[], false).forward_mut(5, tensor(), 1, 2, None);
    let pending = PendingRequest::new(&request);
    assert_eq!(pending.session_id, 5);
    let awaiting = pending.after_write(Ok(Transfer { bytes: 100, elapsed_ns: 30 })).unwrap();
    let answer = Message::Tensor { x: tensor(), compute_us: 12 };
    let read = (Transfer { bytes: 200, elapsed_ns: 50 }, answer);
    let reply = awaiting.after_read(Ok(read), 90_000).unwrap();
    let sample = reply.sample.unwrap();
    assert_eq!((sample.total_ns, sample.compute_us), (90_000, 12));
    assert_eq!((sample.write_ns, sample.read_ns), (30, 50));
    assert_eq!((sample.write_bytes, sample.read_bytes), (100, 200));
    assert_eq!(TestClient::forward_request(reply.message).unwrap().shape, vec![1, 2]);
}

#[test]
fn other_answers_are_not_timed() {
    let awaiting = PendingRequest::new(&Message::Hello)
        .after_write(Ok(Transfer { bytes: 1, elapsed_ns: 1 }))
        .unwrap();
    let answer = Message::Error { message: "out of memory".to_string() };
    let reply = awaiting.after_read(Ok((Transfer { bytes: 2, elapsed_ns: 2 }, answer)), 9).unwrap();
    assert!(reply.sample.is_none());
    let e = TestClient::forward_request(reply.message).unwrap_err();
    assert_eq!(e.to_string(), "worker error: out of memory");
    let e = TestClient::forward_request(Message::Hello).unwrap_err();
    assert_eq!(e.to_string(), "unexpected response Hello");
}

#[test]
fn unanswered_requests_name_the_request() {
    let request = Message::ReleaseSession { session_id: 4 };
    let awaiting = PendingRequest::new(&request)
        .after_write(Ok(Transfer { bytes: 1, elapsed_ns: 1 }))
        .unwrap();
    let e = awaiting.after_read(Err("reset".to_string()), 5).unwrap_err();
    assert_eq!(
        e.to_string(),
        "error receiving response for release_session session=4: reset"
    );
}

#[test]
fn requests_are_numbered_from_one() {
    assert_eq!(next_request_number(0), 1);
    assert_eq!(next_request_number(41), 42);
}

#[test]
fn summaries_name_kind_and_addressing() {
    let s = |m: &Message| TestClient::message_summary(m);
    assert_eq!(s(&Message::Hello), "hello");
    assert_eq!(s(&Message::WorkerInfo(WorkerInfo::default())), "worker_info");
    assert_eq!(s(&Message::ReleaseSession { session_id: 42 }), "release_session session=42");
    assert_eq!(s(&Message::Error { message: "bad".to_string() }), "error bad");
    let client = connected(&["gguf_sample_token_v1"], false);
    let sampling = Some(SamplingRequest { encoded: vec![] });
    assert_eq!(
        s(&client.forward_mut(3, tensor(), 10, 11, sampling)),
        "single session=3 layer=model.layers.0 index_pos=10 block_idx=11 sampling=true \
         shape=[1, 2] dtype=F16"
    );
    assert_eq!(
        s(&client.forward_batch(3, tensor(), run_of(1, 2), None)),
        "batch session=3 ops=2 first=model.layers.1 last=model.layers.2 sampling=false \
         shape=[1, 2] dtype=F16"
    );
    assert_eq!(
        s(&client.forward_batch(3, tensor(), vec![], None)),
        "batch session=3 ops=0 first=- last=- sampling=false shape=[1, 2] dtype=F16"
    );
    let compact = connected(&["compact_batch_v1"], true);
    assert_eq!(
        s(&compact.forward_batch(3, tensor(), run_of(1, 2), None)),
        "compact_batch session=3 ops=2 first=model.layers.1 index_pos=9 block_idx=1 \
         sampling=false shape=[1, 2] dtype=F16"
    );
    let range = connected(&["compact_range_batch_v1"], true);
    assert_eq!(
        s(&range.forward_batch(3, tensor(), run_of(1, 2), None)),
        "compact_range_batch session=3 ops=2 index_pos=9 block_idx=1 sampling=false \
         shape=[1, 2] dtype=F16"
    );
}

#[test]
fn tensor_summaries_agree_with_formatting() {
    for compute_us in [0u64, 1, 12, 999, 1000, 1_234_567, 60_000_000] {
        for shape in [vec![], vec![7], vec![1, 20, 300]] {
            let x = RawTensor { data: vec![], dtype: DType::BF16, shape: shape.clone() };
            let summary = Message::Tensor { x, compute_us }.summary();
            let expected = format!(
                "tensor shape={:?} dtype={:?} compute={:.3}ms",
                shape,
                DType::BF16,
                compute_us as f64 / 1000.0
            );
            assert_eq!(summary, expected);
        }
    }
}

#[test]
fn type_names_agree_with_formatting() {
    let all = [
        DType::U8,
        DType::U32,
        DType::I16,
        DType::I32,
        DType::I64,
        DType::BF16,
        DType::F16,
        DType::F32,
        DType::F64,
        DType::F8E4M3,
        DType::F6E2M3,
        DType::F6E3M2,
        DType::F4,
        DType::F8E8M0,
    ];
    for dtype in all {
        assert_eq!(dtype.name(), format!("{dtype:?}"));
    }
}

#[test]
fn switches_know_five_spellings() {
    for on in ["1", "true", "TRUE", "yes", "YES"] {
        assert!(TestClient::compact_batch_enabled(Some(on)));
        assert!(TestClient::transfer_trace_enabled(Some(on)));
    }
    for off in ["", "0", "True", "Yes", "on", " 1"] {
        assert!(!TestClient::compact_batch_enabled(Some(off)));
        assert!(!TestClient::transfer_trace_enabled(Some(off)));
    }
    assert!(!TestClient::compact_batch_enabled(None));
    assert!(!TestClient::transfer_trace_enabled(None));
}

#[test]
fn lane_limit_defaults_to_sixty_four() {
    assert_eq!(TestClient::max_session_lanes(None), 64);
    assert_eq!(TestClient::max_session_lanes(Some("0")), 64);
    assert_eq!(TestClient::max_session_lanes(Some("x")), 64);
    assert_eq!(TestClient::max_session_lanes(Some("8")), 8);
}

#[test]
fn compact_mode_is_told() {
    let told = TestClient::compact_batch_mode;
    assert_eq!(told(true, true), "spm compact range batch enabled by SPM_COMPACT_BATCH");
    assert_eq!(told(true, false), "spm compact batch enabled by SPM_COMPACT_BATCH");
    assert_eq!(
        told(false, false),
        "spm compact batch disabled; set SPM_COMPACT_BATCH=1 to test it"
    );
}

#[test]
fn clients_neither_load_nor_run_in_place() {
    let e = TestClient::load().err().unwrap();
    assert!(matches!(e, ClientError::LoadOnClient));
    assert_eq!(e.to_string(), "load should never be called on spm::Client");
    let e = connected(&[], false).forward().err().unwrap();
    assert!(matches!(e, ClientError::ForwardOnClient));
    assert_eq!(e.to_string(), "immutable forward should never be called on spm::Client");
}

#[test]
fn client_describes_layer_and_worker() {
    let info = WorkerInfo {
        os: "linux".to_string(),
        arch: "aarch64".to_string(),
        device: "NPU".to_string(),
        device_idx: 2,
        latency: 17,
        ..Default::default()
    };
    let hello = Ok(Message::WorkerInfo(info));
    let client = client_at("w:1", "model.layers.3", 0, hello, false).unwrap();
    assert_eq!(client.to_string(), "model.layers.3@w:1 [NPU<2> linux-aarch64 latency=17ms]");
    assert_eq!(client.ident(), "w:1");
    let view = client.for_layer("model.layers.4");
    assert_eq!(view.layer_name(), "model.layers.4");
    assert_eq!(view.to_string(), "model.layers.4@w:1 [NPU<2> linux-aarch64 latency=17ms]");
    assert!(Arc::ptr_eq(&view.info, &client.info));
}

#[test]
fn failed_connection_is_tried_again() {
    let mut pool: ClientPool<Wire, Lanes, Device> = ClientPool::default();
    assert!(pool.client_for_layer("w:1", "a").is_none());
    let refused = TestClient::open("w:1", Err("refused".to_string())).err().unwrap();
    let e = pool.keep("w:1", Err(refused)).err().unwrap();
    assert_eq!(e.to_string(), "can't connect to w:1: refused");
    assert!(pool.client_for_layer("w:1", "a").is_none());
    let hello = Ok(Message::WorkerInfo(WorkerInfo::default()));
    pool.keep("w:1", client_at("w:1", "a", 5, hello, false)).unwrap();
    assert_eq!(*pool.client_for_layer("w:1", "b").unwrap().connection, 5);
}

#[test]
fn worker_is_greeted_first() {
    let opening = TestClient::open("w:1", Ok(Arc::new(3))).unwrap();
    assert!(matches!(opening.hello, Message::Hello));
    assert_eq!(*opening.connection, 3);
}

#[test]
fn handshake_does_not_depend_on_layer_or_device() {
    let clients: Vec<TestClient> = [("a", "cpu"), ("b", "cuda")]
        .into_iter()
        .map(|(layer, device)| {
            let info = worker(&["compact_batch_v1", "gguf_sample_token_v1"]);
            let hello = Ok(Message::WorkerInfo(info));
            let lanes = Arc::new("lanes");
            Client::new(Arc::new(device), "w:1", layer, Arc::new(0), lanes, hello, true).unwrap()
        })
        .collect();
    assert_eq!(clients[0].info.capabilities, clients[1].info.capabilities);
    for client in &clients {
        assert!(client.compact_batch && !client.compact_range_batch && client.remote_sampling);
    }
    assert_eq!(*clients[1].device, "cuda");
}

#[test]
fn many_sessions_have_lanes_of_their_own() {
    let client = connected(&[], false);
    let mut lanes: SessionLanes<Wire> = SessionLanes::new();
    let mut opened = 0;
    let mut given = Vec::new();
    for id in [3, 1, 2, 1, 3, 0, 2, 0] {
        let connection = match client.connection_for_session(&lanes, id) {
            LaneChoice::Ready { connection } => connection,
            LaneChoice::Open => {
                opened += 1;
                client.install_lane(&mut lanes, id, Arc::new(100 + opened), 64).unwrap()
            }
        };
        given.push((id, *connection));
    }
    assert_eq!(opened, 3);
    assert_eq!(
        given,
        vec![(3, 101), (1, 102), (2, 103), (1, 102), (3, 101), (0, 0), (2, 103), (0, 0)]
    );
}

#[test]
fn debug_forms_are_the_derived_ones() {
    let client = connected(&["gguf_sample_token_v1"], false);
    let compact = connected(&["compact_batch_v1"], true);
    let range = connected(&["compact_range_batch_v1"], true);
    let odd = "tab\t quote\" back\\ \u{e9} \u{200b} \n".to_string();
    let sampling = || Some(SamplingRequest { encoded: vec![0, 255] });
    let batch = vec![(odd.clone(), 1, 2), ("b".to_string(), 3, 4)];
    let empty = RawTensor { data: vec![], dtype: DType::BF16, shape: vec![] };
    let messages = [
        Message::Hello,
        Message::ReleaseSession { session_id: u64::MAX },
        client.forward_mut(3, tensor(), 10, 11, sampling()),
        client.forward_batch(3, tensor(), batch, None),
        client.forward_batch(3, empty, vec![], sampling()),
        compact.forward_batch(3, tensor(), run_of(1, 2), None),
        range.forward_batch(3, tensor(), run_of(1, 2), None),
        Message::Tensor { x: tensor(), compute_us: 12 },
        Message::Error { message: odd },
    ];
    for message in messages {
        assert_eq!(message.debug_text(), format!("{message:?}"));
    }
}

#[test]
fn worker_descriptions_show_their_numbers() {
    let info = WorkerInfo {
        version: "v\"1".to_string(),
        dtype: "F16".to_string(),
        os: "linux".to_string(),
        arch: "aarch64".to_string(),
        device: "NPU".to_string(),
        device_idx: 2,
        latency: 7,
        cpu_usage_percent: Some(FloatText { text: "25.0".to_string() }),
        system_model: Some("test-board".to_string()),
        ..Default::default()
    };
    let e = TestClient::forward_request(Message::WorkerInfo(info)).unwrap_err();
    assert_eq!(
        e.to_string(),
        "unexpected response WorkerInfo(WorkerInfo { version: \"v\\\"1\", dtype: \"F16\", \
         os: \"linux\", arch: \"aarch64\", device: \"NPU\", device_idx: 2, latency: 7, \
         cpu_usage_percent: Some(25.0), memory_usage_percent: None, npu_usage_percent: None, \
         temperature_c: None, system_model: Some(\"test-board\") })"
    );
}

#[test]
fn cloned_client_is_the_same_client() {
    let client = connected(&["compact_batch_v1"], true);
    let copy = client.clone();
    assert!(Arc::ptr_eq(&copy.connection, &client.connection));
    assert!(Arc::ptr_eq(&copy.session_connections, &client.session_connections));
    assert_eq!(copy.to_string(), client.to_string());
    assert!(copy.compact_batch);
}
