//! The master: one model, many sessions.

use std::collections::HashMap;

use vstd::prelude::*;

use crate::models::chat::{Message, MessageRole};
use crate::models::generator::Generator;
use crate::models::{PipelineStageJob, PipelineStageOutput};
use crate::text;

use super::context::Context;
use super::profile::{reset_distributed_profile, DistributedProfile};
use super::SessionId;

verus! {

broadcast use vstd::std_specs::hash::group_hash_axioms;

/// Why the master cannot serve a session.
#[derive(Debug)]
pub enum MasterError {
    /// The model refused.
    Model { cause: String },
    /// The model cannot hold more than one session.
    NoSessions { model_name: String },
    /// The session was never created, has ended, or was lost in a failed step.
    UnknownSession { session_id: SessionId },
    /// The model gave no session state back.
    MissingState,
}

impl MasterError {
    /// The text of the error.
    pub open spec fn spec_text(&self) -> Seq<char> {
        match self {
            MasterError::Model { cause } => cause@,
            MasterError::NoSessions { model_name } => model_name@
                + " does not support pipeline sessions"@,
            MasterError::UnknownSession { session_id } => "unknown pipeline session "@
                + text::decimal(*session_id as nat),
            MasterError::MissingState => "missing session state"@,
        }
    }

    /// The text of the error.
    pub fn to_string(&self) -> (res: String)
        ensures
            res@ == self.spec_text(),
    {
        match self {
            MasterError::Model { cause } => cause.clone(),
            MasterError::NoSessions { model_name } => model_name.clone().concat(
                " does not support pipeline sessions",
            ),
            MasterError::UnknownSession { session_id } => {
                let id = text::decimal_text(*session_id as u128);
                "unknown pipeline session ".to_owned().concat(id.as_str())
            },
            MasterError::MissingState => "missing session state".to_owned(),
        }
    }
}

/// A refusal of the model as the master reports it.
pub open spec fn reported<T>(res: Result<T, String>) -> Result<T, MasterError> {
    match res {
        Ok(v) => Ok(v),
        Err(cause) => Err(MasterError::Model { cause }),
    }
}

/// Passes a refusal of the model on.
fn report<T>(res: Result<T, String>) -> (out: Result<T, MasterError>)
    ensures
        out == reported(res),
{
    match res {
        Ok(v) => Ok(v),
        Err(cause) => Err(MasterError::Model { cause }),
    }
}

/// There is one way to succeed with nothing to return.
proof fn lemma_ok_unit(res: Result<(), String>)
    requires
        res is Ok,
    ensures
        res == Ok::<(), String>(()),
{
    assert(res->Ok_0 == ());
}

/// How a master serves.
#[derive(Debug, Clone, Copy, PartialEq, Eq, Structural)]
pub enum RunMode {
    /// Over HTTP.
    Serve,
    /// One request from the command line.
    Generate,
}

/// `after` is `before` with `messages` added one by one, none refused.
pub open spec fn adds_all<G: Generator>(before: G, messages: Seq<Message>, after: G) -> bool
    decreases messages.len(),
{
    if messages.len() == 0 {
        before == after
    } else {
        exists|between: G|
            adds_all(before, messages.drop_last(), between) && #[trigger] G::adds(
                between,
                messages.last(),
                Ok(()),
                after,
            )
    }
}

/// Adding `messages` to `before` turned out as `res`: all of them were added, or
/// all before the first that was refused.
pub open spec fn adds_dialog<G: Generator>(
    before: G,
    messages: Seq<Message>,
    res: Result<(), String>,
    after: G,
) -> bool {
    match res {
        Ok(()) => adds_all(before, messages, after),
        Err(_) => exists|n: int, between: G|
            0 <= n < messages.len() && #[trigger] adds_all(before, messages.take(n), between)
                && G::adds(between, messages[n], res, after),
    }
}

/// Saving the session of `before` turned out as `res`.
pub open spec fn saves_new<G: Generator>(
    before: G,
    res: Result<G::State, MasterError>,
    after: G,
) -> bool {
    match res {
        Ok(state) => G::saves(before, Ok(Some(state)), after),
        Err(MasterError::Model { cause }) => G::saves(before, Err(cause), after),
        Err(MasterError::NoSessions { model_name }) => G::saves(before, Ok(None), after)
            && model_name@ == G::MODEL_NAME@,
        Err(_) => false,
    }
}

/// Making a session out of `messages` turned out as `res`: the model was reset,
/// then took the messages in order, then gave the session out; or the first of
/// these that was refused is what `res` reports.
pub open spec fn makes_session<G: Generator>(
    before: G,
    messages: Seq<Message>,
    res: Result<G::State, MasterError>,
    after: G,
) -> bool {
    ||| res matches Err(MasterError::Model { cause }) && G::resets(before, Err(cause), after)
    ||| exists|fresh: G| #[trigger]
        G::resets(before, Ok(()), fresh) && (res matches Err(MasterError::Model { cause })
            && adds_dialog(fresh, messages, Err(cause), after))
    ||| exists|fresh: G, ready: G| #[trigger]
        G::resets(before, Ok(()), fresh) && #[trigger] adds_dialog(fresh, messages, Ok(()), ready)
            && saves_new(ready, res, after)
}

/// The dialog of a request from the command line.
pub open spec fn command_line_dialog(ctx: &Context) -> Seq<Message> {
    seq![
        Message { role: MessageRole::System, content: ctx.args.system_prompt },
        Message { role: MessageRole::User, content: ctx.args.prompt },
    ]
}

/// The saved states `S` of sessions that are not being stepped.
#[verifier::reject_recursive_types(S)]
pub struct SessionTable<S> {
    states: HashMap<SessionId, S>,
}

impl<S> View for SessionTable<S> {
    type V = Map<SessionId, S>;

    closed spec fn view(&self) -> Map<SessionId, S> {
        self.states@
    }
}

impl<S> SessionTable<S> {
    /// No session is saved.
    pub fn new() -> (res: Self)
        ensures
            res@ == Map::<SessionId, S>::empty(),
    {
        SessionTable { states: HashMap::new() }
    }

    /// Saves the state of `session_id` in place of what was saved of it.
    pub fn put(&mut self, session_id: SessionId, state: S)
        ensures
            final(self)@ == old(self)@.insert(session_id, state),
    {
        self.states.insert(session_id, state);
    }

    /// Takes the state of `session_id` out, if one is saved.
    pub fn take(&mut self, session_id: SessionId) -> (res: Option<S>)
        ensures
            final(self)@ == old(self)@.remove(session_id),
            res == if old(self)@.contains_key(session_id) {
                Some(old(self)@[session_id])
            } else {
                None
            },
    {
        self.states.remove(&session_id)
    }

    /// Whether a state of `session_id` is saved.
    pub fn contains(&self, session_id: SessionId) -> (res: bool)
        ensures
            res == self@.contains_key(session_id),
    {
        self.states.contains_key(&session_id)
    }
}

/// A master connects to, communicates with and orchestrates the workers.
#[verifier::reject_recursive_types(G)]
pub struct Master<G: Generator> {
    pub ctx: Context,
    pub model: Box<G>,
    pub sessions: SessionTable<G::State>,
}

impl<G: Generator> Master<G> {
    /// Creating a session out of `messages` turned out as `res`: the model made
    /// its state, which is now saved, or refused, and nothing changed but the
    /// model.
    pub open spec fn creates(
        before: Self,
        session_id: SessionId,
        messages: Seq<Message>,
        res: Result<(), MasterError>,
        after: Self,
    ) -> bool {
        &&& after.ctx == before.ctx
        &&& exists|made: Result<G::State, MasterError>|
            {
                &&& #[trigger] makes_session(*before.model, messages, made, *after.model)
                &&& match made {
                    Ok(state) => {
                        &&& res is Ok
                        &&& after.sessions@ == before.sessions@.insert(session_id, state)
                    },
                    Err(e) => {
                        &&& res == Err::<(), MasterError>(e)
                        &&& after.sessions@ == before.sessions@
                    },
                }
            }
    }

    /// Beginning a step of a session turned out as `res`: its saved state moved
    /// into the model, which may have refused it; or there was none, and nothing
    /// changed.
    pub open spec fn begins_step(
        before: Self,
        session_id: SessionId,
        res: Result<(), MasterError>,
        after: Self,
    ) -> bool {
        &&& after.ctx == before.ctx
        &&& if before.sessions@.contains_key(session_id) {
            &&& after.sessions@ == before.sessions@.remove(session_id)
            &&& exists|out: Result<(), String>| #[trigger]
                G::restores(*before.model, before.sessions@[session_id], out, *after.model)
                    && res == reported(out)
        } else {
            &&& res == Err::<(), MasterError>(MasterError::UnknownSession { session_id })
            &&& after.sessions@ == before.sessions@
            &&& after.model == before.model
        }
    }

    /// Ending a step whose outcome was `outcome` turned out as `res`: what the
    /// model gave back is saved. A model that failed to give the session back
    /// overrides the outcome.
    pub open spec fn ends_step<T>(
        before: Self,
        session_id: SessionId,
        outcome: Result<T, String>,
        res: Result<T, MasterError>,
        after: Self,
    ) -> bool {
        &&& after.ctx == before.ctx
        &&& exists|saved: Result<Option<G::State>, String>|
            {
                &&& #[trigger] G::saves(*before.model, saved, *after.model)
                &&& match saved {
                    Ok(Some(state)) => {
                        &&& res == reported(outcome)
                        &&& after.sessions@ == before.sessions@.insert(session_id, state)
                    },
                    Ok(None) => {
                        &&& res == reported(outcome)
                        &&& after.sessions@ == before.sessions@
                    },
                    Err(cause) => {
                        &&& res == Err::<T, MasterError>(MasterError::Model { cause })
                        &&& after.sessions@ == before.sessions@
                    },
                }
            }
    }

    /// A master over a loaded model, without sessions.
    pub fn new(ctx: Context, model: Box<G>) -> (res: Self)
        ensures
            res.ctx == ctx,
            res.model == model,
            res.sessions@ == Map::<SessionId, G::State>::empty(),
    {
        Master { ctx, model, sessions: SessionTable::new() }
    }

    /// Starts serving: over HTTP where an address for it is given, else the system
    /// prompt and the prompt become the dialog of a single request.
    pub fn start(&mut self) -> (res: Result<RunMode, MasterError>)
        ensures
            final(self).ctx == old(self).ctx,
            final(self).sessions@ == old(self).sessions@,
            if old(self).ctx.args.api is Some {
                res == Ok::<RunMode, MasterError>(RunMode::Serve) && final(self).model == old(
                    self,
                ).model
            } else {
                exists|out: Result<(), String>|
                    {
                        &&& #[trigger] adds_dialog(
                            *old(self).model,
                            command_line_dialog(&old(self).ctx),
                            out,
                            *final(self).model,
                        )
                        &&& res == match out {
                            Ok(()) => Ok(RunMode::Generate),
                            Err(cause) => Err(MasterError::Model { cause }),
                        }
                    }
            },
    {
        if self.ctx.args.api.is_some() {
            return Ok(RunMode::Serve);
        }
        let mut dialog: Vec<Message> = Vec::new();
        dialog.push(Message::system(self.ctx.args.system_prompt.clone()));
        dialog.push(Message::user(self.ctx.args.prompt.clone()));
        assert(dialog@ =~= command_line_dialog(&self.ctx));
        let out = self.add_dialog(dialog);
        match out {
            Ok(()) => Ok(RunMode::Generate),
            Err(cause) => Err(MasterError::Model { cause }),
        }
    }

    /// Sets the timing counters and the model back.
    pub fn reset(&mut self, global: Option<&mut DistributedProfile>) -> (res: Result<
        (),
        MasterError,
    >)
        ensures
            global matches Some(p) ==> *final(p) == DistributedProfile::zero(),
            final(self).ctx == old(self).ctx,
            final(self).sessions@ == old(self).sessions@,
            exists|out: Result<(), String>| #[trigger]
                G::resets(*old(self).model, out, *final(self).model) && res == reported(out),
    {
        reset_distributed_profile(global);
        let out = self.model.reset();
        assert(G::resets(*old(self).model, out, *self.model));
        report(out)
    }

    /// Adds `messages` to the dialog of the model, up to the first refusal.
    fn add_dialog(&mut self, messages: Vec<Message>) -> (res: Result<(), String>)
        ensures
            final(self).ctx == old(self).ctx,
            final(self).sessions@ == old(self).sessions@,
            adds_dialog(*old(self).model, messages@, res, *final(self).model),
    {
        let ghost before = *self.model;
        let ghost all = messages@;
        assert(all.take(0) =~= Seq::empty());
        for message in it: messages
            invariant
                it.seq() == all,
                before == *old(self).model,
                self.ctx == old(self).ctx,
                self.sessions@ == old(self).sessions@,
                adds_all(before, all.take(it.index() as int), *self.model),
        {
            let ghost n = it.index() as int;
            let ghost between = *self.model;
            let out = self.model.add_message(message);
            match out {
                Ok(()) => {
                    proof {
                        lemma_ok_unit(out);
                        assert(all.take(n + 1).drop_last() =~= all.take(n));
                        assert(all.take(n + 1).last() == message);
                        assert(adds_all(before, all.take(n + 1).drop_last(), between));
                        assert(G::adds(between, all.take(n + 1).last(), Ok(()), *self.model));
                        assert(adds_all(before, all.take(n + 1), *self.model));
                    }
                },
                Err(cause) => {
                    assert(adds_all(before, all.take(n), between));
                    return Err(cause);
                },
            }
        }
        assert(all.take(all.len() as int) =~= all);
        Ok(())
    }

    /// Create an isolated request context while retaining the single shared model
    /// weights.
    pub fn create_session(&mut self, session_id: SessionId, messages: Vec<Message>) -> (res: Result<
        (),
        MasterError,
    >)
        ensures
            Self::creates(*old(self), session_id, messages@, res, *final(self)),
    {
        let ghost before = *self.model;
        let ghost dialog = messages@;
        let out = self.model.reset();
        match out {
            Ok(()) => {
                proof {
                    lemma_ok_unit(out);
                }
            },
            Err(cause) => {
                let ghost made = Err::<G::State, MasterError>(MasterError::Model { cause });
                assert(makes_session(before, dialog, made, *self.model));
                return Err(MasterError::Model { cause });
            },
        }
        let ghost fresh = *self.model;
        assert(G::resets(before, Ok(()), fresh));
        let out = self.add_dialog(messages);
        match out {
            Ok(()) => {
                proof {
                    lemma_ok_unit(out);
                }
            },
            Err(cause) => {
                let ghost made = Err::<G::State, MasterError>(MasterError::Model { cause });
                assert(makes_session(before, dialog, made, *self.model));
                return Err(MasterError::Model { cause });
            },
        }
        let ghost ready = *self.model;
        assert(adds_dialog(fresh, dialog, Ok(()), ready));
        match self.model.save_session() {
            Err(cause) => {
                let ghost made = Err::<G::State, MasterError>(MasterError::Model { cause });
                assert(saves_new(ready, made, *self.model));
                assert(makes_session(before, dialog, made, *self.model));
                Err(MasterError::Model { cause })
            },
            Ok(None) => {
                let model_name = G::MODEL_NAME.to_owned();
                let ghost made = Err::<G::State, MasterError>(
                    MasterError::NoSessions { model_name },
                );
                assert(saves_new(ready, made, *self.model));
                assert(makes_session(before, dialog, made, *self.model));
                Err(MasterError::NoSessions { model_name })
            },
            Ok(Some(state)) => {
                let ghost made = Ok::<G::State, MasterError>(state);
                assert(saves_new(ready, made, *self.model));
                assert(makes_session(before, dialog, made, *self.model));
                self.sessions.put(session_id, state);
                assert(makes_session(before, dialog, made, *self.model));
                Ok(())
            },
        }
    }

    /// Moves a session into the model, so that a step of it can run. While the
    /// step runs the session is not among the saved ones.
    pub fn begin_session_step(&mut self, session_id: SessionId) -> (res: Result<(), MasterError>)
        ensures
            Self::begins_step(*old(self), session_id, res, *final(self)),
    {
        match self.sessions.take(session_id) {
            None => {
                assert(self.sessions@ =~= old(self).sessions@);
                Err(MasterError::UnknownSession { session_id })
            },
            Some(state) => {
                let out = self.model.restore_session(state);
                assert(G::restores(
                    *old(self).model,
                    old(self).sessions@[session_id],
                    out,
                    *self.model,
                ));
                report(out)
            },
        }
    }

    /// Moves a session out of the model after its step, however the step turned
    /// out, and passes that outcome on. Where the model fails to give the session
    /// back, that failure is reported instead.
    pub fn end_session_step<T>(&mut self, session_id: SessionId, outcome: Result<T, String>) -> (res:
        Result<T, MasterError>)
        ensures
            Self::ends_step(*old(self), session_id, outcome, res, *final(self)),
    {
        let saved = self.model.save_session();
        assert(G::saves(*old(self).model, saved, *self.model));
        match saved {
            Ok(Some(state)) => {
                self.sessions.put(session_id, state);
                assert(G::saves(*old(self).model, Ok(Some(state)), *self.model));
                report(outcome)
            },
            Ok(None) => report(outcome),
            Err(cause) => Err(MasterError::Model { cause }),
        }
    }

    /// Moves a session out of the model after its step was prepared. A preparation
    /// that failed loses the session, and so does a model that does not give it
    /// back.
    pub fn end_session_prepare<T>(&mut self, session_id: SessionId, hidden: Result<T, String>) -> (
    res: Result<T, MasterError>)
        ensures
            final(self).ctx == old(self).ctx,
            match hidden {
                Err(cause) => {
                    &&& res == Err::<T, MasterError>(MasterError::Model { cause })
                    &&& final(self).sessions@ == old(self).sessions@
                    &&& final(self).model == old(self).model
                },
                Ok(hidden) => exists|saved: Result<Option<G::State>, String>|
                    {
                        &&& #[trigger] G::saves(*old(self).model, saved, *final(self).model)
                        &&& match saved {
                            Ok(Some(state)) => {
                                &&& res == Ok::<T, MasterError>(hidden)
                                &&& final(self).sessions@ == old(self).sessions@.insert(
                                    session_id,
                                    state,
                                )
                            },
                            Ok(None) => {
                                &&& res == Err::<T, MasterError>(MasterError::MissingState)
                                &&& final(self).sessions@ == old(self).sessions@
                            },
                            Err(cause) => {
                                &&& res == Err::<T, MasterError>(MasterError::Model { cause })
                                &&& final(self).sessions@ == old(self).sessions@
                            },
                        }
                    },
            },
    {
        match hidden {
            Err(cause) => Err(MasterError::Model { cause }),
            Ok(hidden) => {
                let saved = self.model.save_session();
                assert(G::saves(*old(self).model, saved, *self.model));
                match saved {
                    Ok(Some(state)) => {
                        self.sessions.put(session_id, state);
                        assert(G::saves(*old(self).model, Ok(Some(state)), *self.model));
                        Ok(hidden)
                    },
                    Ok(None) => Err(MasterError::MissingState),
                    Err(cause) => Err(MasterError::Model { cause }),
                }
            },
        }
    }

    /// Forgets a session.
    pub fn release_session(&mut self, session_id: SessionId)
        ensures
            final(self).ctx == old(self).ctx,
            final(self).model == old(self).model,
            final(self).sessions@ == old(self).sessions@.remove(session_id),
    {
        self.sessions.take(session_id);
        assert(self.sessions@ =~= old(self).sessions@.remove(session_id));
    }

    /// Forgets a session, and returns what must be told of its end.
    pub fn take_session_release_handles(&mut self, session_id: SessionId) -> (res: Vec<
        G::Executor,
    >)
        ensures
            final(self).ctx == old(self).ctx,
            final(self).model == old(self).model,
            final(self).sessions@ == old(self).sessions@.remove(session_id),
            call_ensures(G::pipeline_release_handles, (&*old(self).model,), res),
    {
        self.release_session(session_id);
        self.model.pipeline_release_handles()
    }

    /// Detaches one stage of a session's step.
    pub fn detach_session_stage(&self, stage: usize, hidden: &mut G::Hidden) -> (res: Result<
        PipelineStageJob<G::Activation, G::Cache, G::Executor>,
        MasterError,
    >)
        ensures
            exists|out: Result<PipelineStageJob<G::Activation, G::Cache, G::Executor>, String>|
                #[trigger]
                self.model.detaches(stage, *old(hidden), out, *final(hidden)) && res == reported(
                    out,
                ),
    {
        let out = self.model.pipeline_detach_stage(stage, hidden);
        assert(self.model.detaches(stage, *old(hidden), out, *hidden));
        report(out)
    }

    /// Takes the result of a detached stage back.
    pub fn attach_session_stage(
        &self,
        hidden: &mut G::Hidden,
        output: PipelineStageOutput<G::Activation, G::Cache>,
    ) -> (res: Result<(), MasterError>)
        ensures
            exists|out: Result<(), String>| #[trigger]
                self.model.attaches(*old(hidden), output, out, *final(hidden)) && res == reported(
                    out,
                ),
    {
        let out = self.model.pipeline_attach_stage(hidden, output);
        assert(self.model.attaches(*old(hidden), output, out, *hidden));
        report(out)
    }

    /// How many stages a step has.
    pub fn pipeline_stage_count(&self) -> (res: usize)
        ensures
            call_ensures(G::pipeline_stage_count, (&*self.model,), res),
    {
        self.model.pipeline_stage_count()
    }

    /// What a stage runs on.
    pub fn pipeline_stage_key(&self, stage: usize) -> (res: Result<String, MasterError>)
        ensures
            exists|out: Result<String, String>| #[trigger]
                call_ensures(G::pipeline_stage_key, (&*self.model, stage), out) && res == reported(
                    out,
                ),
    {
        let out = self.model.pipeline_stage_key(stage);
        assert(call_ensures(G::pipeline_stage_key, (&*self.model, stage), out));
        report(out)
    }
}

} // verus!
