//! What calls of the model types promise their callers.

use vstd::prelude::*;

use crate::text;

use super::chat::{Message, MessageRole};
use super::generator;
use super::stage::{StageCall, StageError, StageRun, StageStep};
use super::{PipelineStageJob, PipelineStageOutput, Token};

verus! {

/// A token shows its text, or its id where it has none.
pub proof fn tokens_show_their_text(token: Token, shown: String, id: String)
    requires
        call_ensures(Token::to_string, (&token,), shown),
        call_ensures(text::decimal_text, (token.id as u128,), id),
    ensures
        token.text matches Some(t) ==> shown@ == t@,
        token.text is None ==> shown@ == "<token "@ + id@ + ">"@,
{
}

/// A message is what was said by whoever said it.
pub proof fn messages_keep_speaker_and_words(content: String, a: Message, b: Message)
    requires
        call_ensures(Message::system, (content,), a),
        call_ensures(Message::user, (content,), b),
    ensures
        a.role == MessageRole::System,
        b.role == MessageRole::User,
        a.content == content,
        b.content == content,
{
}

/// Each refusal starts with the name of the model and says what it cannot do.
pub proof fn models_say_what_they_cannot_do(name: &str, a: String, b: String, c: String)
    requires
        call_ensures(generator::detached_stages_unsupported, (name,), a),
        call_ensures(generator::stage_pipeline_unsupported, (name,), b),
        call_ensures(generator::session_swapping_unsupported, (name,), c),
    ensures
        a@ == name@ + " does not support detached pipeline stages"@,
        b@ == name@ + " does not support stage pipeline"@,
        c@ == name@ + " does not support request session swapping"@,
{
}

/// A stage has a reason of its own for each way to fail.
pub proof fn stage_errors_say_why(e: StageError, res: String)
    requires
        call_ensures(StageError::to_string, (&e,), res),
    ensures
        e is Empty ==> res@ == "empty pipeline stage"@,
        e is LengthMismatch ==> res@ == "local pipeline executor/batch length mismatch"@,
        e matches StageError::Executor { cause } ==> res@ == cause@,
{
}

/// A stage starts exactly when there is something to run and something to run it, and a
/// local one has a layer for each executor. It hands its executors out as they were.
pub proof fn stages_start_with_work_for_all<X, C, E>(
    job: PipelineStageJob<X, C, E>,
    res: Result<(StageRun<X, C>, Vec<E>), StageError>,
)
    requires
        call_ensures(PipelineStageJob::<X, C, E>::execute, (job,), res),
    ensures
        ({
            let empty = job.executors@.len() == 0 || job.batch@.len() == 0;
            &&& res is Ok <==> !empty && (job.remote_batch || job.executors@.len()
                == job.batch@.len())
            &&& res matches Err(e) ==> {
                &&& e is Empty <==> empty
                &&& e is LengthMismatch <==> !empty
            }
        }),
        res matches Ok(started) ==> started.1 == job.executors,
{
}

/// What a stage does first: a remote one hands the whole batch to its first executor, and
/// that is all; a local one runs its layers in order, each on its own executor. The first
/// call gets activation and cache of the stage.
pub proof fn stages_call_their_executors_in_order<X, C, E>(
    job: PipelineStageJob<X, C, E>,
    executors: Vec<E>,
    run: &mut StageRun<X, C>,
    step: Option<StageStep<X, C>>,
)
    requires
        call_ensures(PipelineStageJob::<X, C, E>::execute, (job,), Ok((*old(run), executors))),
        call_ensures(StageRun::<X, C>::next_call, (run,), step),
    ensures
        ({
            let calls = old(run)@.remaining;
            &&& job.remote_batch ==> {
                &&& calls.len() == 1
                &&& calls[0] matches StageCall::RemoteBatch { executor, batch } && executor == 0
                    && batch == job.batch
            }
            &&& !job.remote_batch ==> {
                &&& calls.len() == job.executors@.len()
                &&& forall|i: int|
                    0 <= i < calls.len() ==> (#[trigger] calls[i] matches StageCall::Forward {
                        executor,
                        index_pos,
                        block_idx,
                    } && executor == i && index_pos == job.batch@[i].1 && block_idx
                        == job.batch@[i].2)
            }
            &&& step is Some
            &&& step->0.call == calls[0]
            &&& step->0.x == job.x
            &&& step->0.cache == job.cache
            &&& calls == seq![calls[0]] + final(run)@.remaining
        }),
{
    broadcast use vstd::std_specs::vec::axiom_spec_len;

    assert(job.executors.len() == job.executors@.len());
    assert(job.batch.len() == job.batch@.len());
    let calls = old(run)@.remaining;
    if !job.remote_batch {
        assert forall|i: int| 0 <= i < calls.len() implies (#[trigger] calls[i] matches StageCall::Forward {
            executor,
            index_pos,
            block_idx,
        } && executor == i && index_pos == job.batch@[i].1 && block_idx == job.batch@[i].2) by {
            assert(i as usize == i);
        }
    }
    assert(calls =~= seq![calls[0]] + final(run)@.remaining);
}

/// The next call gets exactly what the last one returned, and is the next in line.
pub proof fn calls_get_what_the_last_one_returned<X, C>(
    run: &mut StageRun<X, C>,
    later: &mut StageRun<X, C>,
    x: X,
    cache: C,
    step: Option<StageStep<X, C>>,
)
    requires
        call_ensures(StageRun::<X, C>::on_result, (run, Ok(x), cache), ()),
        *later == *final(run),
        call_ensures(StageRun::<X, C>::next_call, (later,), step),
        old(run)@.input is None,
        old(run)@.failure is None,
    ensures
        step is Some <==> old(run)@.remaining.len() > 0,
        step matches Some(s) ==> {
            &&& s.x == x
            &&& s.cache == cache
            &&& s.call == old(run)@.remaining[0]
            &&& old(run)@.remaining == seq![s.call] + final(later)@.remaining
        },
{
    if old(run)@.remaining.len() > 0 {
        assert(old(run)@.remaining =~= seq![old(run)@.remaining[0]] + final(later)@.remaining);
    }
}

/// After the last call the stage gives out what that call returned.
pub proof fn stages_give_out_the_last_result<X, C>(
    run: &mut StageRun<X, C>,
    x: X,
    cache: C,
    res: Result<PipelineStageOutput<X, C>, StageError>,
)
    requires
        call_ensures(StageRun::<X, C>::on_result, (run, Ok(x), cache), ()),
        call_ensures(StageRun::<X, C>::finish, (*final(run),), res),
        old(run)@.input is None,
        old(run)@.failure is None,
        old(run)@.remaining.len() == 0,
    ensures
        res is Ok,
        res->Ok_0.x == x,
        res->Ok_0.cache == cache,
{
}

/// A call that fails is the last one, and its failure is what the stage gives out.
pub proof fn failed_calls_end_the_stage<X, C>(
    run: &mut StageRun<X, C>,
    later: &mut StageRun<X, C>,
    cause: String,
    cache: C,
    step: Option<StageStep<X, C>>,
    res: Result<PipelineStageOutput<X, C>, StageError>,
)
    requires
        call_ensures(StageRun::<X, C>::on_result, (run, Err(cause), cache), ()),
        *later == *final(run),
        call_ensures(StageRun::<X, C>::next_call, (later,), step),
        call_ensures(StageRun::<X, C>::finish, (*final(later),), res),
        old(run)@.input is None,
        old(run)@.failure is None,
    ensures
        step is None,
        res is Err,
        res->Err_0 matches StageError::Executor { cause: why } && why == cause,
{
}

} // verus!
