//! The interface of a model that can serve sessions.

use vstd::prelude::*;

use crate::text;

use super::chat::Message;
use super::{PipelineStageJob, PipelineStageOutput};

verus! {

/// A model that generates tokens and whose layers can be sharded.
///
/// Only the calls that return at once are declared here. What a call does to the
/// model is up to the model: each call that changes it comes with a relation
/// between the model before, the result and the model after, which an
/// implementation is free to choose and which rules nothing out if it does not. Contracts that speak of these relations say
/// which calls are made, in which order, with which arguments.
pub trait Generator: Sized {
    /// Request-local generation state, moved out of the model.
    type State;

    /// The state of a step between its stages.
    type Hidden;

    /// The activation that layers transform.
    type Activation;

    /// The request-local cache of the master.
    type Cache;

    /// What executes layers.
    type Executor;

    /// The model's name.
    const MODEL_NAME: &'static str;

    /// How `reset` may turn out.
    open spec fn resets(before: Self, res: Result<(), String>, after: Self) -> bool {
        true
    }

    /// How `add_message` may turn out.
    open spec fn adds(before: Self, message: Message, res: Result<(), String>, after: Self) -> bool {
        true
    }

    /// How `save_session` may turn out.
    open spec fn saves(
        before: Self,
        res: Result<Option<Self::State>, String>,
        after: Self,
    ) -> bool {
        true
    }

    /// How `restore_session` may turn out.
    open spec fn restores(
        before: Self,
        state: Self::State,
        res: Result<(), String>,
        after: Self,
    ) -> bool {
        true
    }

    /// How `pipeline_detach_stage` may turn out.
    open spec fn detaches(
        &self,
        stage: usize,
        before: Self::Hidden,
        res: Result<PipelineStageJob<Self::Activation, Self::Cache, Self::Executor>, String>,
        after: Self::Hidden,
    ) -> bool {
        true
    }

    /// How `pipeline_attach_stage` may turn out.
    open spec fn attaches(
        &self,
        before: Self::Hidden,
        output: PipelineStageOutput<Self::Activation, Self::Cache>,
        res: Result<(), String>,
        after: Self::Hidden,
    ) -> bool {
        true
    }

    /// Add a message to the chat.
    fn add_message(&mut self, message: Message) -> (res: Result<(), String>)
        ensures
            Self::adds(*old(self), message, res, *final(self)),
    ;

    /// Clear chat history.
    fn reset(&mut self) -> (res: Result<(), String>)
        ensures
            Self::resets(*old(self), res, *final(self)),
    ;

    /// Move request-local generation state out of the model. A model that serves
    /// one session at a time has none to give.
    fn save_session(&mut self) -> (res: Result<Option<Self::State>, String>)
        ensures
            Self::saves(*old(self), res, *final(self)),
    ;

    /// Move request-local generation state back into the model.
    fn restore_session(&mut self, state: Self::State) -> (res: Result<(), String>)
        ensures
            Self::restores(*old(self), state, res, *final(self)),
    ;

    /// Return the number of generated tokens so far.
    fn generated_tokens(&self) -> usize;

    /// What must be told that a session ended.
    fn pipeline_release_handles(&self) -> Vec<Self::Executor>;

    /// Number of independently schedulable transformer stages for this model.
    fn pipeline_stage_count(&self) -> (res: usize)
        default_ensures
            res == 1,
    {
        1
    }

    /// Stable execution-resource key for a stage (e.g. "local" or worker address).
    /// Stages with the same key share one scheduler slot.
    fn pipeline_stage_key(&self, stage: usize) -> (res: Result<String, String>)
        default_ensures
            res is Ok,
            res->Ok_0@ == "stage-"@ + text::decimal(stage as nat),
    {
        let number = text::decimal_text(stage as u128);
        Ok("stage-".to_owned().concat(number.as_str()))
    }

    /// Detaches one stage of a step.
    fn pipeline_detach_stage(&self, stage: usize, hidden: &mut Self::Hidden) -> (res: Result<
        PipelineStageJob<Self::Activation, Self::Cache, Self::Executor>,
        String,
    >)
        ensures
            self.detaches(stage, *old(hidden), res, *final(hidden)),
    ;

    /// Takes the result of a detached stage back.
    fn pipeline_attach_stage(
        &self,
        hidden: &mut Self::Hidden,
        output: PipelineStageOutput<Self::Activation, Self::Cache>,
    ) -> (res: Result<(), String>)
        ensures
            self.attaches(*old(hidden), output, res, *final(hidden)),
    ;
}

/// The model's name followed by what it lacks.
fn unsupported(model_name: &str, what: &str) -> (res: String)
    ensures
        res@ == model_name@ + what@,
{
    model_name.to_owned().concat(what)
}

/// The refusal of a model that does not split its steps.
pub fn detached_stages_unsupported(model_name: &str) -> (res: String)
    ensures
        res@ == model_name@ + " does not support detached pipeline stages"@,
{
    unsupported(model_name, " does not support detached pipeline stages")
}

/// The refusal of a model that cannot finish a step stage by stage.
pub fn stage_pipeline_unsupported(model_name: &str) -> (res: String)
    ensures
        res@ == model_name@ + " does not support stage pipeline"@,
{
    unsupported(model_name, " does not support stage pipeline")
}

/// The refusal of a model that cannot take a session back.
pub fn session_swapping_unsupported(model_name: &str) -> (res: String)
    ensures
        res@ == model_name@ + " does not support request session swapping"@,
{
    unsupported(model_name, " does not support request session swapping")
}

} // verus!
