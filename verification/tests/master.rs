use dial_core::models::chat::{Message, MessageRole};
use dial_core::models::generator::{
    detached_stages_unsupported, session_swapping_unsupported, Generator,
};
use dial_core::models::{PipelineStageJob, PipelineStageOutput};
use dial_core::spm::args::Args;
use dial_core::spm::context::{Context, ModelConfig, ModelFamily};
use dial_core::spm::master::{Master, MasterError, RunMode};
use dial_core::spm::profile::{DistributedProfile, RemoteSample};

/// Keeps the dialog as its state and remembers every call.
struct Dialog {
    messages: Vec<String>,
    refused: Option<String>,
    swaps: bool,
    fails_to_save: bool,
    calls: Vec<String>,
}

impl Dialog {
    fn new() -> Self {
        Dialog {
            messages: vec![],
            refused: None,
            swaps: true,
            fails_to_save: false,
            calls: vec![],
        }
    }
}

impl Generator for Dialog {
    type State = Vec<String>;
    type Hidden = u32;
    type Activation = u32;
    type Cache = ();
    type Executor = &'static str;

    const MODEL_NAME: &'static str = "dialog";

    fn add_message(&mut self, message: Message) -> Result<(), String> {
        self.calls.push(format!("add {}", message.content));
        if self.refused.as_deref() == Some(&message.content) {
            return Err(format!("refused {}", message.content));
        }
        let role = match message.role {
            MessageRole::System => "system",
            MessageRole::User => "user",
            MessageRole::Assistant => "assistant",
        };
        self.messages.push(format!("{role}: {}", message.content));
        Ok(())
    }

    fn reset(&mut self) -> Result<(), String> {
        self.calls.push("reset".to_string());
        if self.refused.as_deref() == Some("reset") {
            return Err("refused reset".to_string());
        }
        self.messages.clear();
        Ok(())
    }

    fn save_session(&mut self) -> Result<Option<Vec<String>>, String> {
        self.calls.push("save".to_string());
        if self.fails_to_save {
            return Err("cannot save".to_string());
        }
        if !self.swaps {
            return Ok(None);
        }
        Ok(Some(std::mem::take(&mut self.messages)))
    }

    fn restore_session(&mut self, state: Vec<String>) -> Result<(), String> {
        self.calls.push("restore".to_string());
        if !self.swaps {
            return Err(session_swapping_unsupported(Self::MODEL_NAME));
        }
        self.messages = state;
        Ok(())
    }

    fn generated_tokens(&self) -> usize {
        self.messages.len()
    }

    fn pipeline_release_handles(&self) -> Vec<&'static str> {
        vec!["w:1", "w:2"]
    }

    fn pipeline_detach_stage(
        &self,
        stage: usize,
        hidden: &mut u32,
    ) -> Result<PipelineStageJob<u32, (), &'static str>, String> {
        if stage > 0 {
            return Err(detached_stages_unsupported(Self::MODEL_NAME));
        }
        let x = std::mem::take(hidden);
        Ok(PipelineStageJob { x, cache: (), executors: vec![], batch: vec![], remote_batch: true })
    }

    fn pipeline_attach_stage(
        &self,
        hidden: &mut u32,
        output: PipelineStageOutput<u32, ()>,
    ) -> Result<(), String> {
        *hidden = output.x;
        Ok(())
    }
}

fn context(args: Args) -> Context {
    Context::from_args(args)
        .unwrap()
        .attach_device(Ok(false))
        .unwrap()
        .for_family(ModelFamily::Llama3)
        .configure(ModelConfig { attn_f32: false, max_seq_len: 1 })
        .unwrap()
        .finish()
        .unwrap()
}

fn master() -> Master<Dialog> {
    Master::new(context(Args::default()), Box::new(Dialog::new()))
}

fn says(text: &str) -> Vec<Message> {
    vec![Message::user(text.to_string())]
}

#[test]
fn sessions_are_interleaved_without_mixing() {
    let mut m = master();
    m.create_session(1, says("one")).unwrap();
    m.create_session(2, says("two")).unwrap();
    for round in 0..2 {
        for id in [1, 2] {
            m.begin_session_step(id).unwrap();
            assert!(!m.sessions.contains(id));
            m.model.messages.push(format!("token {round} of {id}"));
            m.end_session_step(id, Ok(round)).unwrap();
        }
    }
    m.begin_session_step(1).unwrap();
    assert_eq!(m.model.messages, vec!["user: one", "token 0 of 1", "token 1 of 1"]);
    m.end_session_step(1, Ok(())).unwrap();
    m.begin_session_step(2).unwrap();
    assert_eq!(m.model.messages, vec!["user: two", "token 0 of 2", "token 1 of 2"]);
}

#[test]
fn session_is_made_from_its_messages_alone() {
    let mut m = master();
    m.model.messages.push("left over".to_string());
    let dialog = vec![Message::system("s".to_string()), Message::user("u".to_string())];
    m.create_session(7, dialog).unwrap();
    assert_eq!(m.model.calls, vec!["reset", "add s", "add u", "save"]);
    assert!(m.sessions.contains(7));
    m.begin_session_step(7).unwrap();
    assert_eq!(m.model.messages, vec!["system: s", "user: u"]);
}

#[test]
fn refused_message_creates_no_session() {
    let mut m = master();
    m.model.refused = Some("b".to_string());
    let dialog = ["a", "b", "c"].map(|t| Message::user(t.to_string())).into();
    let e = m.create_session(7, dialog).unwrap_err();
    assert_eq!(e.to_string(), "refused b");
    assert_eq!(m.model.calls, vec!["reset", "add a", "add b"]);
    assert!(!m.sessions.contains(7));
    m.model.refused = Some("reset".to_string());
    assert_eq!(m.create_session(7, says("a")).unwrap_err().to_string(), "refused reset");
}

#[test]
fn model_without_sessions_is_named() {
    let mut m = master();
    m.model.swaps = false;
    let e = m.create_session(1, says("a")).unwrap_err();
    assert!(matches!(e, MasterError::NoSessions { .. }));
    assert_eq!(e.to_string(), "dialog does not support pipeline sessions");
    m.model.fails_to_save = true;
    assert_eq!(m.create_session(1, says("a")).unwrap_err().to_string(), "cannot save");
}

#[test]
fn unknown_session_has_no_step() {
    let mut m = master();
    let e = m.begin_session_step(42).unwrap_err();
    assert!(matches!(e, MasterError::UnknownSession { session_id: 42 }));
    assert_eq!(e.to_string(), "unknown pipeline session 42");
    assert!(m.model.calls.is_empty());
}

#[test]
fn running_session_has_no_second_step() {
    let mut m = master();
    m.create_session(1, says("a")).unwrap();
    m.begin_session_step(1).unwrap();
    assert!(m.begin_session_step(1).is_err());
}

#[test]
fn failed_step_keeps_the_session() {
    let mut m = master();
    m.create_session(1, says("a")).unwrap();
    m.begin_session_step(1).unwrap();
    let e = m.end_session_step::<u8>(1, Err("worker error: x".to_string())).unwrap_err();
    assert_eq!(e.to_string(), "worker error: x");
    assert!(m.sessions.contains(1));
}

#[test]
fn session_that_is_not_given_back_is_lost() {
    let mut m = master();
    m.create_session(1, says("a")).unwrap();
    m.begin_session_step(1).unwrap();
    m.model.swaps = false;
    assert_eq!(m.end_session_step(1, Ok(5)).unwrap(), 5);
    assert!(!m.sessions.contains(1));
    m.model.fails_to_save = true;
    assert_eq!(m.end_session_step(1, Ok(5)).unwrap_err().to_string(), "cannot save");
}

#[test]
fn session_that_the_model_refuses_is_lost() {
    let mut m = master();
    m.create_session(1, says("a")).unwrap();
    m.model.swaps = false;
    let e = m.begin_session_step(1).unwrap_err();
    assert_eq!(e.to_string(), "dialog does not support request session swapping");
    assert!(!m.sessions.contains(1));
}

#[test]
fn preparation_needs_the_state_back() {
    let mut m = master();
    m.create_session(1, says("a")).unwrap();
    m.begin_session_step(1).unwrap();
    assert_eq!(m.end_session_prepare(1, Ok(Some(3))).unwrap(), Some(3));
    assert!(m.sessions.contains(1));

    m.begin_session_step(1).unwrap();
    m.model.swaps = false;
    let e = m.end_session_prepare(1, Ok(())).unwrap_err();
    assert!(matches!(e, MasterError::MissingState));
    assert_eq!(e.to_string(), "missing session state");
    assert!(!m.sessions.contains(1));
    m.model.fails_to_save = true;
    assert_eq!(m.end_session_prepare(1, Ok(())).unwrap_err().to_string(), "cannot save");
}

#[test]
fn failed_preparation_loses_the_session() {
    let mut m = master();
    m.create_session(1, says("a")).unwrap();
    m.begin_session_step(1).unwrap();
    m.model.calls.clear();
    let e = m.end_session_prepare::<u8>(1, Err("broken".to_string())).unwrap_err();
    assert_eq!(e.to_string(), "broken");
    assert!(!m.sessions.contains(1));
    assert!(m.model.calls.is_empty());
}

#[test]
fn released_session_is_unknown() {
    let mut m = master();
    m.create_session(1, says("a")).unwrap();
    m.create_session(2, says("b")).unwrap();
    m.release_session(1);
    assert!(m.begin_session_step(1).is_err());
    assert_eq!(m.take_session_release_handles(2), vec!["w:1", "w:2"]);
    assert!(m.begin_session_step(2).is_err());
}

#[test]
fn command_line_request_gets_both_prompts() {
    let args = Args {
        system_prompt: "be brief".to_string(),
        prompt: "why?".to_string(),
        ..Default::default()
    };
    let mut m = Master::new(context(args), Box::new(Dialog::new()));
    assert_eq!(m.start().unwrap(), RunMode::Generate);
    assert_eq!(m.model.messages, vec!["system: be brief", "user: why?"]);
    m.model.refused = Some("be brief".to_string());
    assert_eq!(m.start().unwrap_err().to_string(), "refused be brief");
}

#[test]
fn api_address_means_serving() {
    let args = Args { api: Some("0.0.0.0:8080".to_string()), ..Default::default() };
    let mut m = Master::new(context(args), Box::new(Dialog::new()));
    assert_eq!(m.start().unwrap(), RunMode::Serve);
    assert!(m.model.calls.is_empty());
}

#[test]
fn reset_clears_counters_and_model() {
    let mut m = master();
    m.model.messages.push("old".to_string());
    let mut global = DistributedProfile::default();
    global.record(&RemoteSample {
        total_ns: 1,
        compute_us: 1,
        write_ns: 1,
        read_ns: 1,
        write_bytes: 1,
        read_bytes: 1,
    });
    m.reset(Some(&mut global)).unwrap();
    assert_eq!(global.remote_requests, 0);
    assert!(m.model.messages.is_empty());
    m.model.refused = Some("reset".to_string());
    assert_eq!(m.reset(None).unwrap_err().to_string(), "refused reset");
}

#[test]
fn stages_are_detached_and_attached() {
    let m = master();
    let mut hidden = 5;
    let job = m.detach_session_stage(0, &mut hidden).unwrap();
    assert_eq!((job.x, hidden), (5, 0));
    m.attach_session_stage(&mut hidden, PipelineStageOutput { x: 8, cache: () }).unwrap();
    assert_eq!(hidden, 8);
    let e = m.detach_session_stage(1, &mut hidden).err().unwrap();
    assert_eq!(e.to_string(), "dialog does not support detached pipeline stages");
}

#[test]
fn model_has_one_stage_by_default() {
    let m = master();
    assert_eq!(m.pipeline_stage_count(), 1);
    assert_eq!(m.pipeline_stage_key(0).unwrap(), "stage-0");
    assert_eq!(m.pipeline_stage_key(12).unwrap(), "stage-12");
    assert_eq!(m.model.generated_tokens(), 0);
}
