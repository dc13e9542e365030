//! What calls of the master promise their callers.

use vstd::prelude::*;

use crate::models::chat::{Message, MessageRole};
use crate::models::generator::Generator;
use crate::models::{PipelineStageJob, PipelineStageOutput};
use crate::text;

use super::context::Context;
use super::master::{Master, MasterError, RunMode, SessionTable};
use super::profile::DistributedProfile;
use super::SessionId;

verus! {

/// The text of an error: what the model said, or what the master found missing.
pub open spec fn error_text(e: MasterError) -> Seq<char> {
    match e {
        MasterError::Model { cause } => cause@,
        MasterError::NoSessions { model_name } => model_name@
            + " does not support pipeline sessions"@,
        MasterError::UnknownSession { session_id } => "unknown pipeline session "@
            + text::decimal(session_id as nat),
        MasterError::MissingState => "missing session state"@,
    }
}

/// What an error says.
pub(crate) proof fn lemma_error_text(e: MasterError)
    ensures
        e.spec_text() == error_text(e),
{
}

/// Errors say what the model said, or what was missing.
pub proof fn errors_say_what_was_wrong(e: MasterError, res: String)
    requires
        call_ensures(MasterError::to_string, (&e,), res),
    ensures
        res@ == error_text(e),
{
}

/// `states` are a model and what it becomes as `messages` are added one by one, each of
/// them once, in order, none refused.
pub open spec fn takes_each<G: Generator>(states: Seq<G>, messages: Seq<Message>) -> bool {
    &&& states.len() == messages.len() + 1
    &&& forall|i: int|
        0 <= i < messages.len() ==> #[trigger] G::adds(states[i], messages[i], Ok(()), states[i + 1])
}

/// A dialog that was added went in message by message.
proof fn lemma_every_message_is_added<G: Generator>(
    before: G,
    messages: Seq<Message>,
    after: G,
) -> (states: Seq<G>)
    requires
        super::master::adds_all(before, messages, after),
    ensures
        takes_each(states, messages),
        states[0] == before,
        states.last() == after,
    decreases messages.len(),
{
    if messages.len() == 0 {
        seq![before]
    } else {
        let between = choose|between: G|
            super::master::adds_all(before, messages.drop_last(), between) && #[trigger] G::adds(
                between,
                messages.last(),
                Ok(()),
                after,
            );
        let fewer = lemma_every_message_is_added(before, messages.drop_last(), between);
        let states = fewer.push(after);
        assert forall|i: int| 0 <= i < messages.len() implies #[trigger] G::adds(
            states[i],
            messages[i],
            Ok(()),
            states[i + 1],
        ) by {
            if i < messages.len() - 1 {
                assert(G::adds(fewer[i], messages.drop_last()[i], Ok(()), fewer[i + 1]));
            }
        }
        states
    }
}

/// All of `messages` went into the model.
pub open spec fn all_went_in<G: Generator>(before: G, messages: Seq<Message>, after: G) -> bool {
    exists|states: Seq<G>|
        #[trigger] takes_each(states, messages) && states[0] == before && states.last() == after
}

/// Message `n` was refused with `cause`, after all before it went into the model.
pub open spec fn one_was_refused<G: Generator>(
    before: G,
    messages: Seq<Message>,
    n: int,
    cause: String,
    after: G,
) -> bool {
    0 <= n < messages.len() && exists|states: Seq<G>|
        #[trigger] takes_each(states, messages.take(n)) && states[0] == before && G::adds(
            states.last(),
            messages[n],
            Err(cause),
            after,
        )
}

proof fn lemma_dialog<G: Generator>(
    before: G,
    messages: Seq<Message>,
    out: Result<(), String>,
    after: G,
)
    requires
        super::master::adds_dialog(before, messages, out, after),
    ensures
        out is Ok ==> all_went_in(before, messages, after),
        out matches Err(cause) ==> exists|n: int| #[trigger]
            one_was_refused(before, messages, n, cause, after),
{
    match out {
        Ok(_) => {
            let states = lemma_every_message_is_added(before, messages, after);
            assert(takes_each(states, messages));
        },
        Err(cause) => {
            let (n, between) = choose|n: int, between: G|
                0 <= n < messages.len() && #[trigger] super::master::adds_all(
                    before,
                    messages.take(n),
                    between,
                ) && G::adds(between, messages[n], out, after);
            let states = lemma_every_message_is_added(before, messages.take(n), between);
            assert(takes_each(states, messages.take(n)));
            assert(one_was_refused(before, messages, n, cause, after));
        },
    }
}

/// Creating a session out of `messages` turned out as `res`. A session that was created
/// comes from a model that was reset and to which every message was added, once and in
/// order, and its state, as the model gave it out, is what is saved under `id`. What went
/// wrong otherwise is the first thing that the model refused, or that it has no sessions;
/// then no session was saved. No other session changed.
pub open spec fn creation<G: Generator>(
    before: Master<G>,
    id: SessionId,
    messages: Seq<Message>,
    res: Result<(), MasterError>,
    after: Master<G>,
) -> bool {
    &&& after.ctx == before.ctx
    &&& forall|other: SessionId|
        other != id ==> (#[trigger] after.sessions@.contains_key(other)
            <==> before.sessions@.contains_key(other))
    &&& forall|other: SessionId|
        other != id && before.sessions@.contains_key(other) ==> #[trigger] after.sessions@[other]
            == before.sessions@[other]
    &&& match res {
        Ok(_) => {
            &&& after.sessions@.contains_key(id)
            &&& exists|fresh: G, ready: G|
                {
                    &&& #[trigger] G::resets(*before.model, Ok(()), fresh)
                    &&& #[trigger] all_went_in(fresh, messages, ready)
                    &&& G::saves(ready, Ok(Some(after.sessions@[id])), *after.model)
                }
        },
        Err(e) => {
            &&& after.sessions@ == before.sessions@
            &&& match e {
                MasterError::Model { cause } => {
                    ||| G::resets(*before.model, Err(cause), *after.model)
                    ||| exists|fresh: G, n: int|
                        #[trigger] G::resets(*before.model, Ok(()), fresh)
                            && #[trigger] one_was_refused(fresh, messages, n, cause, *after.model)
                    ||| exists|fresh: G, ready: G|
                        {
                            &&& #[trigger] G::resets(*before.model, Ok(()), fresh)
                            &&& #[trigger] all_went_in(fresh, messages, ready)
                            &&& G::saves(ready, Err(cause), *after.model)
                        }
                },
                MasterError::NoSessions { model_name } => {
                    &&& model_name@ == G::MODEL_NAME@
                    &&& exists|fresh: G, ready: G|
                        {
                            &&& #[trigger] G::resets(*before.model, Ok(()), fresh)
                            &&& #[trigger] all_went_in(fresh, messages, ready)
                            &&& G::saves(ready, Ok(None), *after.model)
                        }
                },
                _ => false,
            }
        },
    }
}

pub(crate) proof fn lemma_creates_is_creation<G: Generator>(
    before: Master<G>,
    id: SessionId,
    messages: Seq<Message>,
    res: Result<(), MasterError>,
    after: Master<G>,
)
    requires
        Master::creates(before, id, messages, res, after),
    ensures
        creation(before, id, messages, res, after),
{
    let made = choose|made: Result<G::State, MasterError>|
        {
            &&& #[trigger] super::master::makes_session(
                *before.model,
                messages,
                made,
                *after.model,
            )
            &&& match made {
                Ok(state) => {
                    &&& res is Ok
                    &&& after.sessions@ == before.sessions@.insert(id, state)
                },
                Err(e) => {
                    &&& res == Err::<(), MasterError>(e)
                    &&& after.sessions@ == before.sessions@
                },
            }
        };
    let early = made matches Err(MasterError::Model { cause }) && G::resets(
        *before.model,
        Err(cause),
        *after.model,
    );
    if !early {
        if exists|fresh: G| #[trigger]
            G::resets(*before.model, Ok(()), fresh) && (made matches Err(
                MasterError::Model { cause },
            ) && super::master::adds_dialog(fresh, messages, Err(cause), *after.model)) {
            let fresh = choose|fresh: G| #[trigger]
                G::resets(*before.model, Ok(()), fresh) && (made matches Err(
                    MasterError::Model { cause },
                ) && super::master::adds_dialog(fresh, messages, Err(cause), *after.model));
            if let Err(MasterError::Model { cause }) = made {
                lemma_dialog(fresh, messages, Err(cause), *after.model);
            }
        } else {
            let (fresh, ready) = choose|fresh: G, ready: G| #[trigger]
                G::resets(*before.model, Ok(()), fresh) && #[trigger] super::master::adds_dialog(
                    fresh,
                    messages,
                    Ok(()),
                    ready,
                ) && super::master::saves_new(ready, made, *after.model);
            lemma_dialog(fresh, messages, Ok(()), ready);
            assert(all_went_in(fresh, messages, ready));
        }
    }
}

/// A created session holds the whole dialog, in order; a refusal is the model's first one
/// and leaves no session.
pub proof fn sessions_hold_their_whole_dialog<G: Generator>(
    m: &mut Master<G>,
    id: SessionId,
    messages: Vec<Message>,
    res: Result<(), MasterError>,
)
    requires
        call_ensures(Master::<G>::create_session, (m, id, messages), res),
    ensures
        creation(*old(m), id, messages@, res, *final(m)),
{
    lemma_creates_is_creation(*old(m), id, messages@, res, *final(m));
}

/// `dialog` is the system prompt, then the prompt.
pub open spec fn is_command_line(ctx: Context, dialog: Seq<Message>) -> bool {
    &&& dialog.len() == 2
    &&& dialog[0].role == MessageRole::System
    &&& dialog[0].content == ctx.args.system_prompt
    &&& dialog[1].role == MessageRole::User
    &&& dialog[1].content == ctx.args.prompt
}

/// A model that was told the prompts of the command line went from `before` to `after`,
/// with the outcome `res`: it took the system prompt as the system's word and the prompt
/// as the user's, in this order, or refused one of them.
pub open spec fn told_both_prompts<G: Generator>(
    ctx: Context,
    before: G,
    res: Result<RunMode, MasterError>,
    after: G,
) -> bool {
    match res {
        Ok(mode) => mode == RunMode::Generate && exists|dialog: Seq<Message>|
            is_command_line(ctx, dialog) && #[trigger] all_went_in(before, dialog, after),
        Err(MasterError::Model { cause }) => exists|dialog: Seq<Message>, n: int|
            is_command_line(ctx, dialog) && #[trigger] one_was_refused(
                before,
                dialog,
                n,
                cause,
                after,
            ),
        Err(_) => false,
    }
}

proof fn lemma_told_both_prompts<G: Generator>(
    ctx: Context,
    before: G,
    out: Result<(), String>,
    after: G,
)
    requires
        super::master::adds_dialog(before, super::master::command_line_dialog(&ctx), out, after),
    ensures
        out is Ok ==> told_both_prompts(ctx, before, Ok(RunMode::Generate), after),
        out matches Err(cause) ==> told_both_prompts(
            ctx,
            before,
            Err(MasterError::Model { cause }),
            after,
        ),
{
    let dialog = super::master::command_line_dialog(&ctx);
    assert(is_command_line(ctx, dialog));
    lemma_dialog(before, dialog, out, after);
    match out {
        Ok(_) => {
            assert(all_went_in(before, dialog, after));
        },
        Err(cause) => {
            let n = choose|n: int| #[trigger]
                one_was_refused(before, dialog, n, cause, after);
            assert(one_was_refused(before, dialog, n, cause, after));
            assert(exists|dialog: Seq<Message>, n: int|
                is_command_line(ctx, dialog) && #[trigger] one_was_refused(
                    before,
                    dialog,
                    n,
                    cause,
                    after,
                ));
            let e = MasterError::Model { cause };
            assert(e matches MasterError::Model { cause: c } && c == cause);
            assert(told_both_prompts(ctx, before, Err(e), after));
        },
    }
}

/// A request from the command line is the two prompts. With an address to serve at the
/// model is left alone.
pub proof fn command_line_says_both_prompts<G: Generator>(
    m: &mut Master<G>,
    res: Result<RunMode, MasterError>,
)
    requires
        call_ensures(Master::<G>::start, (m,), res),
    ensures
        final(m).ctx == old(m).ctx,
        final(m).sessions@ == old(m).sessions@,
        old(m).ctx.args.api is Some ==> {
            &&& res == Ok::<RunMode, MasterError>(RunMode::Serve)
            &&& final(m).model == old(m).model
        },
        old(m).ctx.args.api is None ==> told_both_prompts(
            old(m).ctx,
            *old(m).model,
            res,
            *final(m).model,
        ),
{
    if old(m).ctx.args.api is None {
        let out = choose|out: Result<(), String>|
            {
                &&& #[trigger] super::master::adds_dialog(
                    *old(m).model,
                    super::master::command_line_dialog(&old(m).ctx),
                    out,
                    *final(m).model,
                )
                &&& res == match out {
                    Ok(()) => Ok(RunMode::Generate),
                    Err(cause) => Err(MasterError::Model { cause }),
                }
            };
        lemma_told_both_prompts(old(m).ctx, *old(m).model, out, *final(m).model);
    }
}

/// A new master has the context and model it was given and no session.
pub proof fn new_master_has_no_sessions<G: Generator>(ctx: Context, model: Box<G>, m: Master<G>)
    requires
        call_ensures(Master::<G>::new, (ctx, model), m),
    ensures
        m.ctx == ctx,
        m.model == model,
        forall|id: SessionId| !(#[trigger] m.sessions@.contains_key(id)),
{
}

/// The sessions of `after` are those of `before` but for `id`.
pub open spec fn others_stay<S>(
    before: Map<SessionId, S>,
    after: Map<SessionId, S>,
    id: SessionId,
) -> bool {
    &&& forall|other: SessionId|
        other != id ==> (#[trigger] after.contains_key(other) <==> before.contains_key(other))
    &&& forall|other: SessionId|
        other != id && before.contains_key(other) ==> #[trigger] after[other] == before[other]
}

/// A step begins with the state that was saved of the session, which leaves the table and
/// goes into the model; an unknown session changes nothing.
pub proof fn steps_begin_with_the_saved_state<G: Generator>(
    m: &mut Master<G>,
    id: SessionId,
    res: Result<(), MasterError>,
)
    requires
        call_ensures(Master::<G>::begin_session_step, (m, id), res),
    ensures
        final(m).ctx == old(m).ctx,
        others_stay(old(m).sessions@, final(m).sessions@, id),
        !final(m).sessions@.contains_key(id),
        !old(m).sessions@.contains_key(id) ==> {
            &&& final(m).model == old(m).model
            &&& res == Err::<(), MasterError>(MasterError::UnknownSession { session_id: id })
        },
        old(m).sessions@.contains_key(id) ==> match res {
            Ok(_) => G::restores(
                *old(m).model,
                old(m).sessions@[id],
                Ok(()),
                *final(m).model,
            ),
            Err(MasterError::Model { cause }) => G::restores(
                *old(m).model,
                old(m).sessions@[id],
                Err(cause),
                *final(m).model,
            ),
            Err(_) => false,
        },
{
    if old(m).sessions@.contains_key(id) {
        let out = choose|out: Result<(), String>| #[trigger]
            G::restores(*old(m).model, old(m).sessions@[id], out, *final(m).model) && res
                == super::master::reported(out);
        if out is Ok {
            assert(out->Ok_0 == ());
        }
    }
}

/// A step ends with its own outcome, good or bad, and with the state that the model gives
/// back saved; only a model that fails to give it back has the last word.
pub proof fn steps_end_with_their_outcome<G: Generator, T>(
    m: &mut Master<G>,
    id: SessionId,
    outcome: Result<T, String>,
    res: Result<T, MasterError>,
)
    requires
        call_ensures(Master::<G>::end_session_step::<T>, (m, id, outcome), res),
    ensures
        final(m).ctx == old(m).ctx,
        others_stay(old(m).sessions@, final(m).sessions@, id),
        ({
            let passed_on = match outcome {
                Ok(v) => res == Ok::<T, MasterError>(v),
                Err(cause) => res == Err::<T, MasterError>(MasterError::Model { cause }),
            };
            ||| {
                &&& passed_on
                &&& final(m).sessions@.contains_key(id)
                &&& G::saves(
                    *old(m).model,
                    Ok(Some(final(m).sessions@[id])),
                    *final(m).model,
                )
            }
            ||| {
                &&& passed_on
                &&& final(m).sessions@ == old(m).sessions@
                &&& G::saves(*old(m).model, Ok(None), *final(m).model)
            }
            ||| {
                &&& res matches Err(MasterError::Model { cause })
                &&& final(m).sessions@ == old(m).sessions@
                &&& G::saves(*old(m).model, Err(cause), *final(m).model)
            }
        }),
{
    let saved = choose|saved: Result<Option<G::State>, String>|
        {
            &&& #[trigger] G::saves(*old(m).model, saved, *final(m).model)
            &&& match saved {
                Ok(Some(state)) => {
                    &&& res == super::master::reported(outcome)
                    &&& final(m).sessions@ == old(m).sessions@.insert(id, state)
                },
                Ok(None) => {
                    &&& res == super::master::reported(outcome)
                    &&& final(m).sessions@ == old(m).sessions@
                },
                Err(cause) => {
                    &&& res == Err::<T, MasterError>(MasterError::Model { cause })
                    &&& final(m).sessions@ == old(m).sessions@
                },
            }
        };
    if let Ok(Some(state)) = saved {
        assert(final(m).sessions@[id] == state);
    }
}

/// A step that was prepared keeps its session if the model gives it back, and is lost
/// otherwise; a preparation that failed asks the model for nothing.
pub proof fn prepared_steps_need_their_state<G: Generator, T>(
    m: &mut Master<G>,
    id: SessionId,
    hidden: Result<T, String>,
    res: Result<T, MasterError>,
)
    requires
        call_ensures(Master::<G>::end_session_prepare::<T>, (m, id, hidden), res),
    ensures
        final(m).ctx == old(m).ctx,
        others_stay(old(m).sessions@, final(m).sessions@, id),
        hidden matches Err(cause) ==> {
            &&& res == Err::<T, MasterError>(MasterError::Model { cause })
            &&& final(m).sessions@ == old(m).sessions@
            &&& final(m).model == old(m).model
        },
        hidden matches Ok(h) ==> {
            ||| {
                &&& res == Ok::<T, MasterError>(h)
                &&& final(m).sessions@.contains_key(id)
                &&& G::saves(
                    *old(m).model,
                    Ok(Some(final(m).sessions@[id])),
                    *final(m).model,
                )
            }
            ||| {
                &&& res == Err::<T, MasterError>(MasterError::MissingState)
                &&& final(m).sessions@ == old(m).sessions@
                &&& G::saves(*old(m).model, Ok(None), *final(m).model)
            }
            ||| {
                &&& res matches Err(MasterError::Model { cause })
                &&& final(m).sessions@ == old(m).sessions@
                &&& G::saves(*old(m).model, Err(cause), *final(m).model)
            }
        },
{
    if let Ok(h) = hidden {
        let saved = choose|saved: Result<Option<G::State>, String>|
            {
                &&& #[trigger] G::saves(*old(m).model, saved, *final(m).model)
                &&& match saved {
                    Ok(Some(state)) => {
                        &&& res == Ok::<T, MasterError>(h)
                        &&& final(m).sessions@ == old(m).sessions@.insert(id, state)
                    },
                    Ok(None) => {
                        &&& res == Err::<T, MasterError>(MasterError::MissingState)
                        &&& final(m).sessions@ == old(m).sessions@
                    },
                    Err(cause) => {
                        &&& res == Err::<T, MasterError>(MasterError::Model { cause })
                        &&& final(m).sessions@ == old(m).sessions@
                    },
                }
            };
        if let Ok(Some(state)) = saved {
            assert(final(m).sessions@[id] == state);
        }
    }
}

/// A released session is unknown from then on, and no other is touched.
pub proof fn released_sessions_are_forgotten<G: Generator>(
    m: &mut Master<G>,
    n: &mut Master<G>,
    id: SessionId,
    handles: Vec<G::Executor>,
)
    requires
        call_ensures(Master::<G>::release_session, (m, id), ()),
        call_ensures(Master::<G>::take_session_release_handles, (n, id), handles),
    ensures
        !final(m).sessions@.contains_key(id),
        others_stay(old(m).sessions@, final(m).sessions@, id),
        final(m).model == old(m).model,
        final(m).ctx == old(m).ctx,
        !final(n).sessions@.contains_key(id),
        others_stay(old(n).sessions@, final(n).sessions@, id),
        final(n).model == old(n).model,
        final(n).ctx == old(n).ctx,
        call_ensures(G::pipeline_release_handles, (&*old(n).model,), handles),
{
}

/// A reset sets the counters to zero and the model back, and leaves the sessions.
pub proof fn reset_keeps_the_sessions<G: Generator>(
    m: &mut Master<G>,
    global: &mut DistributedProfile,
    res: Result<(), MasterError>,
)
    requires
        call_ensures(Master::<G>::reset, (m, Some(global)), res),
    ensures
        final(m).sessions@ == old(m).sessions@,
        final(m).ctx == old(m).ctx,
        final(global).remote_requests == 0,
        final(global).remote_total_ns == 0,
        final(global).remote_compute_ns == 0,
        final(global).remote_write_ns == 0,
        final(global).remote_read_ns == 0,
        final(global).remote_write_bytes == 0,
        final(global).remote_read_bytes == 0,
        match res {
            Ok(_) => G::resets(*old(m).model, Ok(()), *final(m).model),
            Err(MasterError::Model { cause }) => G::resets(
                *old(m).model,
                Err(cause),
                *final(m).model,
            ),
            Err(_) => false,
        },
{
    let out = choose|out: Result<(), String>| #[trigger]
        G::resets(*old(m).model, out, *final(m).model) && res == super::master::reported(out);
    if out is Ok {
        assert(out->Ok_0 == ());
    }
}

/// What the model says of a stage is passed on, its refusals as refusals of the model.
pub proof fn stages_are_the_models_business<G: Generator>(
    m: Master<G>,
    stage: usize,
    hidden: &mut G::Hidden,
    job: Result<PipelineStageJob<G::Activation, G::Cache, G::Executor>, MasterError>,
    other: &mut G::Hidden,
    output: PipelineStageOutput<G::Activation, G::Cache>,
    attached: Result<(), MasterError>,
)
    requires
        call_ensures(Master::<G>::detach_session_stage, (&m, stage, hidden), job),
        call_ensures(Master::<G>::attach_session_stage, (&m, other, output), attached),
    ensures
        match job {
            Ok(j) => m.model.detaches(stage, *old(hidden), Ok(j), *final(hidden)),
            Err(MasterError::Model { cause }) => m.model.detaches(
                stage,
                *old(hidden),
                Err(cause),
                *final(hidden),
            ),
            Err(_) => false,
        },
        match attached {
            Ok(_) => m.model.attaches(*old(other), output, Ok(()), *final(other)),
            Err(MasterError::Model { cause }) => m.model.attaches(
                *old(other),
                output,
                Err(cause),
                *final(other),
            ),
            Err(_) => false,
        },
{
    let out = choose|out: Result<(), String>| #[trigger]
        m.model.attaches(*old(other), output, out, *final(other)) && attached
            == super::master::reported(out);
    if out is Ok {
        assert(out->Ok_0 == ());
    }
}

/// The number and the names of the stages are the model's.
pub proof fn stage_names_are_the_models<G: Generator>(
    m: Master<G>,
    stage: usize,
    count: usize,
    key: Result<String, MasterError>,
)
    requires
        call_ensures(Master::<G>::pipeline_stage_count, (&m,), count),
        call_ensures(Master::<G>::pipeline_stage_key, (&m, stage), key),
    ensures
        call_ensures(G::pipeline_stage_count, (&*m.model,), count),
        match key {
            Ok(k) => call_ensures(G::pipeline_stage_key, (&*m.model, stage), Ok(k)),
            Err(MasterError::Model { cause }) => call_ensures(
                G::pipeline_stage_key,
                (&*m.model, stage),
                Err(cause),
            ),
            Err(_) => false,
        },
{
}

/// A new table holds no session.
pub proof fn new_table_is_empty<S>(t: SessionTable<S>)
    requires
        call_ensures(SessionTable::<S>::new, (), t),
    ensures
        forall|id: SessionId| !(#[trigger] t@.contains_key(id)),
{
}

/// The table of sessions gives back what was put in last, once, and keeps the rest.
pub proof fn table_gives_back_what_was_put<S>(
    t: &mut SessionTable<S>,
    id: SessionId,
    state: S,
    u: &mut SessionTable<S>,
    there: bool,
    taken: Option<S>,
)
    requires
        call_ensures(SessionTable::<S>::put, (t, id, state), ()),
        *u == *final(t),
        call_ensures(SessionTable::<S>::contains, (final(t), id), there),
        call_ensures(SessionTable::<S>::take, (u, id), taken),
    ensures
        there,
        taken == Some(state),
        !final(u)@.contains_key(id),
        others_stay(old(t)@, final(u)@, id),
{
}

} // verus!
