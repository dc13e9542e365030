//! The execution of a detached stage.
//!
//! A stage hands activation and cache to one executor after the other and takes back
//! what the executor makes of them. The calls themselves are up to the caller.

use std::collections::VecDeque;

use vstd::prelude::*;

use super::{PipelineStageJob, PipelineStageOutput};

verus! {

/// One call of an executor within a stage.
#[derive(Debug)]
pub enum StageCall {
    /// The executor runs the whole batch.
    RemoteBatch { executor: usize, batch: Vec<(String, usize, usize)> },
    /// The executor runs one layer.
    Forward { executor: usize, index_pos: usize, block_idx: usize },
}

/// Why a stage has no output.
#[derive(Debug)]
pub enum StageError {
    /// There is no executor or no layer.
    Empty,
    /// Executors and layers of a local stage do not pair up.
    LengthMismatch,
    /// An executor failed.
    Executor { cause: String },
}

impl StageError {
    /// The text of the error.
    pub fn to_string(&self) -> (res: String)
        ensures
            res@ == match self {
                StageError::Empty => "empty pipeline stage"@,
                StageError::LengthMismatch => "local pipeline executor/batch length mismatch"@,
                StageError::Executor { cause } => cause@,
            },
    {
        match self {
            StageError::Empty => "empty pipeline stage".to_owned(),
            StageError::LengthMismatch => {
                "local pipeline executor/batch length mismatch".to_owned()
            },
            StageError::Executor { cause } => cause.clone(),
        }
    }
}

/// A call to be made, with what it works on.
#[derive(Debug)]
pub struct StageStep<X, C> {
    pub call: StageCall,
    pub x: X,
    pub cache: C,
}

/// A stage in execution as its contracts see it.
#[verifier::ext_equal]
pub struct StageView<X, C> {
    /// Activation and cache, unless a call has them or a call has failed.
    pub input: Option<(X, C)>,
    /// The calls still to be made, in order.
    pub remaining: Seq<StageCall>,
    /// What ended the stage before its last call.
    pub failure: Option<String>,
}

impl<X, C> StageView<X, C> {
    /// A call is being made.
    pub open spec fn is_calling(self) -> bool {
        self.input is None && self.failure is None
    }

    /// The next call can be made.
    pub open spec fn can_call(self) -> bool {
        self.input is Some && self.remaining.len() > 0
    }

    /// The next call got activation and cache.
    pub open spec fn called(self) -> Self {
        StageView { input: None, remaining: self.remaining.skip(1), ..self }
    }

    /// The call came back: with an activation, which the next call gets together
    /// with the cache as this call left it; or with a failure, which ends the
    /// stage.
    pub open spec fn returned(self, outcome: Result<X, String>, cache: C) -> Self {
        match outcome {
            Ok(x) => StageView { input: Some((x, cache)), ..self },
            Err(cause) => StageView { failure: Some(cause), ..self },
        }
    }
}

/// A stage in execution.
pub struct StageRun<X, C> {
    input: Option<(X, C)>,
    remaining: VecDeque<StageCall>,
    failure: Option<String>,
}

impl<X, C> View for StageRun<X, C> {
    type V = StageView<X, C>;

    closed spec fn view(&self) -> StageView<X, C> {
        StageView { input: self.input, remaining: self.remaining@, failure: self.failure }
    }
}

impl<X, C, E> PipelineStageJob<X, C, E> {
    /// Why the stage cannot run.
    pub open spec fn stage_error(&self) -> Option<StageError> {
        if self.executors@.len() == 0 || self.batch@.len() == 0 {
            Some(StageError::Empty)
        } else if !self.remote_batch && self.executors@.len() != self.batch@.len() {
            Some(StageError::LengthMismatch)
        } else {
            None
        }
    }

    /// The calls of the stage. A remote stage is one call of the first executor,
    /// however many there are; a local one goes executor by executor, each with its
    /// own layer.
    pub open spec fn stage_calls(&self) -> Seq<StageCall> {
        if self.remote_batch {
            seq![StageCall::RemoteBatch { executor: 0, batch: self.batch }]
        } else {
            local_calls(self.batch@)
        }
    }

    /// Starts the stage, and hands its executors out.
    pub fn execute(self) -> (res: Result<(StageRun<X, C>, Vec<E>), StageError>)
        ensures
            match self.stage_error() {
                Some(e) => res == Err::<(StageRun<X, C>, Vec<E>), StageError>(e),
                None => {
                    &&& res matches Ok((run, executors))
                    &&& executors == self.executors
                    &&& run@ == (StageView {
                        input: Some((self.x, self.cache)),
                        remaining: self.stage_calls(),
                        failure: None,
                    })
                },
            },
    {
        let n: usize = self.batch.len();
        if self.executors.len() == 0 || n == 0 {
            return Err(StageError::Empty);
        }
        let mut remaining: VecDeque<StageCall> = VecDeque::new();
        if self.remote_batch {
            remaining.push_back(StageCall::RemoteBatch { executor: 0, batch: self.batch });
            assert(remaining@ =~= self.stage_calls());
        } else {
            if self.executors.len() != n {
                return Err(StageError::LengthMismatch);
            }
            let mut i: usize = 0;
            while i < n
                invariant
                    i <= n,
                    n == self.batch@.len(),
                    remaining@ == local_calls(self.batch@).take(i as int),
                decreases n - i,
            {
                remaining.push_back(
                    StageCall::Forward {
                        executor: i,
                        index_pos: self.batch[i].1,
                        block_idx: self.batch[i].2,
                    },
                );
                assert(local_calls(self.batch@).take(i + 1) =~= local_calls(self.batch@).take(
                    i as int,
                ).push(local_calls(self.batch@)[i as int]));
                i = i + 1;
            }
            assert(local_calls(self.batch@).take(n as int) =~= local_calls(self.batch@));
        }
        Ok((StageRun { input: Some((self.x, self.cache)), remaining, failure: None }, self.executors))
    }
}

/// The calls of a local stage: executor by executor, each with its own layer.
pub open spec fn local_calls(batch: Seq<(String, usize, usize)>) -> Seq<StageCall> {
    Seq::new(
        batch.len(),
        |i: int|
            StageCall::Forward {
                executor: i as usize,
                index_pos: batch[i].1,
                block_idx: batch[i].2,
            },
    )
}

impl<X, C> StageRun<X, C> {
    /// The next call with what it works on, or `None` where the stage is over or a
    /// call is being made.
    pub fn next_call(&mut self) -> (res: Option<StageStep<X, C>>)
        ensures
            if old(self)@.can_call() {
                &&& res matches Some(step)
                &&& step.call == old(self)@.remaining[0]
                &&& old(self)@.input == Some((step.x, step.cache))
                &&& final(self)@ == old(self)@.called()
            } else {
                res is None && final(self)@ == old(self)@
            },
    {
        match self.input.take() {
            None => None,
            Some((x, cache)) => match self.remaining.pop_front() {
                None => {
                    self.input = Some((x, cache));
                    None
                },
                Some(call) => Some(StageStep { call, x, cache }),
            },
        }
    }

    /// Takes back what the call that is being made returned, and the cache as it
    /// left it.
    pub fn on_result(&mut self, outcome: Result<X, String>, cache: C)
        requires
            old(self)@.is_calling(),
        ensures
            final(self)@ == old(self)@.returned(outcome, cache),
    {
        match outcome {
            Ok(x) => {
                self.input = Some((x, cache));
            },
            Err(cause) => {
                self.failure = Some(cause);
            },
        }
    }

    /// The stage is over: the last activation and the cache go back to their
    /// owner, or the failure that ended it does.
    pub fn finish(self) -> (res: Result<PipelineStageOutput<X, C>, StageError>)
        requires
            !self@.can_call(),
            !self@.is_calling(),
        ensures
            match self@.failure {
                Some(cause) => res == Err::<PipelineStageOutput<X, C>, StageError>(
                    StageError::Executor { cause },
                ),
                None => res matches Ok(output) && self@.input == Some((output.x, output.cache)),
            },
    {
        match self.failure {
            Some(cause) => Err(StageError::Executor { cause }),
            None => match self.input {
                Some((x, cache)) => Ok(PipelineStageOutput { x, cache }),
                None => Err(StageError::Empty),
            },
        }
    }
}

/// What a call returned, and the cache as it left it.
pub struct Returned<X, C> {
    pub outcome: Result<X, String>,
    pub cache: C,
}

/// The stage after calls that returned `results`, one after the other.
pub open spec fn after_calls<X, C>(v: StageView<X, C>, results: Seq<Returned<X, C>>) -> StageView<
    X,
    C,
>
    decreases results.len(),
{
    if results.len() == 0 {
        v
    } else {
        let before = after_calls(v, results.drop_last());
        if before.can_call() {
            before.called().returned(results.last().outcome, results.last().cache)
        } else {
            before
        }
    }
}

/// All of `results` are activations.
pub open spec fn all_succeeded<X, C>(results: Seq<Returned<X, C>>) -> bool {
    forall|i: int| 0 <= i < results.len() ==> (#[trigger] results[i]).outcome is Ok
}

/// Activation and cache thread through the calls of a stage: as long as no call
/// fails, call `k` is the `k`-th of the stage and gets what call `k - 1` returned,
/// the first one what the stage started with; each call is made once. After the
/// last call the stage is over and what that call returned comes out.
pub proof fn stage_threads_its_activation<X, C, E>(
    job: PipelineStageJob<X, C, E>,
    start: StageView<X, C>,
    results: Seq<Returned<X, C>>,
)
    requires
        job.stage_error() is None,
        start == (StageView {
            input: Some((job.x, job.cache)),
            remaining: job.stage_calls(),
            failure: None,
        }),
        results.len() <= job.stage_calls().len(),
        all_succeeded(results),
    ensures
        ({
            let k = results.len() as int;
            let v = after_calls(start, results);
            &&& v.failure is None
            &&& v.remaining == job.stage_calls().skip(k)
            &&& v.input == Some(
                if k == 0 {
                    (job.x, job.cache)
                } else {
                    (results[k - 1].outcome->Ok_0, results[k - 1].cache)
                },
            )
            &&& v.can_call() <==> k < job.stage_calls().len()
            &&& v.can_call() ==> v.remaining[0] == job.stage_calls()[k]
        }),
    decreases results.len(),
{
    if results.len() > 0 {
        let fewer = results.drop_last();
        assert forall|i: int| 0 <= i < fewer.len() implies (#[trigger] fewer[i]).outcome is Ok by {
            assert(results[i].outcome is Ok);
        }
        stage_threads_its_activation(job, start, fewer);
        assert(results[results.len() - 1].outcome is Ok);
        assert(job.stage_calls().skip(fewer.len() as int).skip(1) =~= job.stage_calls().skip(
            results.len() as int,
        ));
    } else {
        assert(job.stage_calls().skip(0) =~= job.stage_calls());
    }
}

/// The first call that fails ends the stage: no further call is made, whatever it
/// would return, and that failure is what comes out.
pub proof fn first_failure_ends_the_stage<X, C, E>(
    job: PipelineStageJob<X, C, E>,
    start: StageView<X, C>,
    results: Seq<Returned<X, C>>,
    cause: String,
    cache: C,
    ignored: Seq<Returned<X, C>>,
)
    requires
        job.stage_error() is None,
        start == (StageView {
            input: Some((job.x, job.cache)),
            remaining: job.stage_calls(),
            failure: None,
        }),
        results.len() < job.stage_calls().len(),
        all_succeeded(results),
    ensures
        ({
            let v = after_calls(
                start,
                results.push(Returned { outcome: Err(cause), cache }) + ignored,
            );
            &&& v.failure == Some(cause)
            &&& !v.can_call()
            &&& !v.is_calling()
        }),
    decreases ignored.len(),
{
    let failed = results.push(Returned { outcome: Err(cause), cache });
    if ignored.len() == 0 {
        stage_threads_its_activation(job, start, results);
        assert(failed + ignored =~= failed);
        assert(failed.drop_last() =~= results);
    } else {
        first_failure_ends_the_stage(job, start, results, cause, cache, ignored.drop_last());
        assert((failed + ignored).drop_last() =~= failed + ignored.drop_last());
    }
}

/// A remote stage is one call of the first executor with the whole batch in its
/// order, and what it returns is what comes out.
pub proof fn remote_stage_is_one_call<X, C, E>(job: PipelineStageJob<X, C, E>)
    requires
        job.stage_error() is None,
        job.remote_batch,
    ensures
        job.stage_calls().len() == 1,
        job.stage_calls()[0] == (StageCall::RemoteBatch { executor: 0, batch: job.batch }),
{
}

/// A local stage calls every executor once, in order, each with its own layer, and
/// no executor gets the batch.
pub proof fn local_stage_calls_every_executor<X, C, E>(job: PipelineStageJob<X, C, E>, i: int)
    requires
        job.stage_error() is None,
        !job.remote_batch,
        0 <= i < job.executors@.len(),
    ensures
        job.stage_calls().len() == job.executors@.len(),
        job.stage_calls()[i] == (StageCall::Forward {
            executor: i as usize,
            index_pos: job.batch@[i].1,
            block_idx: job.batch@[i].2,
        }),
        i as usize == i,
{
    broadcast use vstd::std_specs::vec::axiom_spec_len;

    assert(job.executors.len() == job.executors@.len());
}

} // verus!
