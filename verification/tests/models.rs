use dial_core::models::chat::{Message, MessageRole};
use dial_core::models::generator::{
    detached_stages_unsupported, session_swapping_unsupported, stage_pipeline_unsupported,
};
use dial_core::models::stage::{StageCall, StageError};
use dial_core::models::{PipelineStageJob, Token};
use dial_core::spm::generation::{terminal_text, GenerationLoop, GenerationStep};
use dial_core::spm::profile::{
    reset_distributed_profile, snapshot_distributed_profile, update_distributed_profile,
    DistributedProfile, RemoteSample,
};
use dial_core::text;

fn job(executors: usize, layers: usize, remote_batch: bool) -> PipelineStageJob<u8, u8, ()> {
    PipelineStageJob {
        x: 1,
        cache: 2,
        executors: vec![(); executors],
        batch: (0..layers).map(|i| (format!("l{i}"), 5, 10 + i)).collect(),
        remote_batch,
    }
}

fn token(text: &str) -> Token {
    Token { id: 9, text: Some(text.to_string()), is_end_of_stream: false }
}

#[test]
fn token_without_text_shows_its_id() {
    assert_eq!(token("hi").to_string(), "hi");
    assert_eq!(token("").to_string(), "");
    let bare = Token { id: 4_294_967_295, text: None, is_end_of_stream: true };
    assert_eq!(bare.to_string(), "<token 4294967295>");
}

/// Runs a stage whose call `i` adds `i + 1` to the activation and ten to the cache,
/// and whose call `fails` fails.
fn run_stage(
    job: PipelineStageJob<u8, u8, ()>,
    fails: Option<usize>,
) -> (Vec<String>, Result<(u8, u8), StageError>) {
    let mut calls = Vec::new();
    let (mut run, executors) = match job.execute() {
        Ok(started) => started,
        Err(e) => return (calls, Err(e)),
    };
    while let Some(step) = run.next_call() {
        let i = calls.len();
        let shown = match step.call {
            StageCall::RemoteBatch { executor, batch } => {
                let names: Vec<String> = batch.into_iter().map(|layer| layer.0).collect();
                format!("{executor}: {} on {}/{}", names.join("+"), step.x, step.cache)
            }
            StageCall::Forward { executor, index_pos, block_idx } => {
                assert!(executor < executors.len());
                format!("{executor}: {index_pos}/{block_idx} on {}/{}", step.x, step.cache)
            }
        };
        calls.push(shown);
        assert!(run.next_call().is_none());
        let outcome =
            if fails == Some(i) { Err(format!("call {i}")) } else { Ok(step.x + i as u8 + 1) };
        run.on_result(outcome, step.cache + 10);
    }
    (calls, run.finish().map(|output| (output.x, output.cache)))
}

#[test]
fn local_stage_threads_activation_and_cache() {
    let (calls, output) = run_stage(job(3, 3, false), None);
    assert_eq!(calls, vec!["0: 5/10 on 1/2", "1: 5/11 on 2/12", "2: 5/12 on 4/22"]);
    assert_eq!(output.unwrap(), (7, 32));
}

#[test]
fn remote_stage_hands_the_whole_batch_to_one_executor() {
    for executors in [1, 4] {
        let (calls, output) = run_stage(job(executors, 3, true), None);
        assert_eq!(calls, vec!["0: l0+l1+l2 on 1/2"]);
        assert_eq!(output.unwrap(), (2, 12));
    }
}

#[test]
fn first_failure_ends_a_stage() {
    let (calls, output) = run_stage(job(3, 3, false), Some(1));
    assert_eq!(calls.len(), 2);
    let e = output.unwrap_err();
    assert!(matches!(e, StageError::Executor { .. }));
    assert_eq!(e.to_string(), "call 1");
    let (calls, output) = run_stage(job(2, 3, true), Some(0));
    assert_eq!(calls.len(), 1);
    assert_eq!(output.unwrap_err().to_string(), "call 0");
}

#[test]
fn stages_that_cannot_run() {
    for remote in [false, true] {
        assert!(matches!(run_stage(job(0, 3, remote), None).1, Err(StageError::Empty)));
        assert!(matches!(run_stage(job(3, 0, remote), None).1, Err(StageError::Empty)));
    }
    assert!(matches!(run_stage(job(2, 3, false), None).1, Err(StageError::LengthMismatch)));
    assert_eq!(StageError::Empty.to_string(), "empty pipeline stage");
    assert_eq!(
        StageError::LengthMismatch.to_string(),
        "local pipeline executor/batch length mismatch"
    );
}

#[test]
fn messages_carry_their_role() {
    let system = Message::system("rules".to_string());
    assert_eq!((system.role, system.content.as_str()), (MessageRole::System, "rules"));
    let user = Message::user("question".to_string());
    assert_eq!((user.role, user.content.as_str()), (MessageRole::User, "question"));
}

#[test]
fn refusals_name_the_model() {
    assert_eq!(
        detached_stages_unsupported("m"),
        "m does not support detached pipeline stages"
    );
    assert_eq!(stage_pipeline_unsupported("m"), "m does not support stage pipeline");
    assert_eq!(
        session_swapping_unsupported("m"),
        "m does not support request session swapping"
    );
}

fn drive(sample_len: usize, outcomes: Vec<Result<Token, String>>) -> (Vec<String>, bool) {
    let mut tokens = GenerationLoop::new("prompt".to_string(), sample_len);
    let mut streamed = vec![tokens.opening().to_string()];
    let mut outcomes = outcomes.into_iter();
    let mut asked = 0;
    while let Some(index) = tokens.next_index() {
        assert_eq!(index, asked);
        asked += 1;
        assert!(tokens.closing().is_none());
        match tokens.on_token(outcomes.next().unwrap()) {
            GenerationStep::Stream { text } => streamed.push(text),
            GenerationStep::Stop => {}
            GenerationStep::Fail { cause } => assert_eq!(cause, "lost"),
        }
    }
    match tokens.closing() {
        Some(mark) => {
            streamed.push(mark.to_string());
            (streamed, true)
        }
        None => (streamed, false),
    }
}

#[test]
fn generation_stops_at_the_limit() {
    let outcomes = vec![Ok(token("a")), Ok(token("b")), Ok(token("c"))];
    let (streamed, done) = drive(2, outcomes);
    assert_eq!(streamed, vec!["prompt", "a", "b", ""]);
    assert!(done);
    assert_eq!(drive(0, vec![]).0, vec!["prompt", ""]);
}

#[test]
fn generation_stops_at_the_end_of_the_stream() {
    let end = Token { id: 0, text: Some("</s>".to_string()), is_end_of_stream: true };
    let (streamed, done) = drive(9, vec![Ok(token("a")), Ok(end)]);
    assert_eq!(streamed, vec!["prompt", "a", ""]);
    assert!(done);
}

#[test]
fn failed_generation_has_no_end_mark() {
    let (streamed, done) = drive(9, vec![Ok(token("a")), Err("lost".to_string())]);
    assert_eq!(streamed, vec!["prompt", "a"]);
    assert!(!done);
}

#[test]
fn terminal_ends_the_line_at_the_end_mark() {
    assert_eq!(terminal_text(""), "\n");
    assert_eq!(terminal_text("ab"), "ab");
}

fn sample() -> RemoteSample {
    RemoteSample {
        total_ns: 5_000_000,
        compute_us: 3_000,
        write_ns: 7,
        read_ns: 8,
        write_bytes: 9,
        read_bytes: 10,
    }
}

#[test]
fn profile_adds_samples_up() {
    let mut profile = DistributedProfile::default();
    assert!(profile.can_record(&sample()));
    profile.record(&sample());
    profile.record(&sample());
    assert_eq!(profile.remote_requests, 2);
    assert_eq!(profile.remote_total_ns, 10_000_000);
    assert_eq!(profile.remote_compute_ns, 6_000_000);
    assert_eq!((profile.remote_write_ns, profile.remote_read_ns), (14, 16));
    assert_eq!((profile.remote_write_bytes, profile.remote_read_bytes), (18, 20));
    assert_eq!(profile.distributed_overhead_ns(), 4_000_000);
}

#[test]
fn overhead_is_never_negative() {
    let mut profile = DistributedProfile::default();
    assert_eq!(profile.distributed_overhead_ns(), 0);
    profile.record(&RemoteSample { total_ns: 1, ..sample() });
    assert_eq!(profile.distributed_overhead_ns(), 0);
}

#[test]
fn full_counters_take_no_sample() {
    let full = DistributedProfile { remote_read_bytes: usize::MAX - 9, ..Default::default() };
    assert!(!full.can_record(&sample()));
    let room = DistributedProfile { remote_read_bytes: usize::MAX - 10, ..Default::default() };
    assert!(room.can_record(&sample()));
    let full = DistributedProfile { remote_requests: usize::MAX, ..Default::default() };
    assert!(!full.can_record(&sample()));
}

#[test]
fn samples_of_a_scoped_request_stay_out_of_the_global_profile() {
    let mut scoped = DistributedProfile::default();
    let mut global = DistributedProfile::default();
    update_distributed_profile(Some(&mut scoped), Some(&mut global), &sample());
    assert_eq!((scoped.remote_requests, global.remote_requests), (1, 0));
    update_distributed_profile(None, Some(&mut global), &sample());
    assert_eq!((scoped.remote_requests, global.remote_requests), (1, 1));
    update_distributed_profile(None, None, &sample());
    assert_eq!(snapshot_distributed_profile(Some(&global)).remote_total_ns, 5_000_000);
    assert_eq!(snapshot_distributed_profile(None).remote_total_ns, 0);
    reset_distributed_profile(Some(&mut global));
    assert_eq!(snapshot_distributed_profile(Some(&global)).remote_requests, 0);
    reset_distributed_profile(None);
}

#[test]
fn numbers_are_written_and_read_back() {
    for n in [0usize, 7, 10, 99, 100, 1_234_567, usize::MAX] {
        let written = text::decimal_text(n as u128);
        assert_eq!(written, n.to_string());
        assert_eq!(text::parse_usize(&written), Some(n));
    }
    assert_eq!(text::decimal_text(u128::MAX), u128::MAX.to_string());
}

#[test]
fn numbers_are_read_as_the_standard_library_reads_them() {
    let above = format!("{}0", usize::MAX);
    let cases = [
        "", "+", "-", "-0", "+0", "007", "+5", "++5", "5 ", " 5", "1e3", "0x10", "1_000",
        "18446744073709551615", "18446744073709551616", &above, "\u{663}", "12a",
    ];
    for case in cases {
        assert_eq!(text::parse_usize(case), case.parse::<usize>().ok(), "{case:?}");
    }
}

#[test]
fn texts_are_told_apart() {
    assert!(text::same_text("", ""));
    assert!(text::same_text("yes", "yes"));
    assert!(!text::same_text("yes", "yet"));
    assert!(!text::same_text("yes", "ye"));
    assert!(!text::same_text("ye", "yes"));
}
