//! What calls of the token loop and of the timing counters promise their callers.

use vstd::prelude::*;

use crate::models::Token;

use super::generation::{GenerationLoop, GenerationStep};
use super::profile::{DistributedProfile, RemoteSample};

verus! {

/// A new loop opens with its prompt and asks for token zero, unless none is wanted, and
/// then it is over and closes at once.
pub proof fn loops_open_with_the_prompt(
    prompt: String,
    sample_len: usize,
    l: GenerationLoop,
    opening: &str,
    next: Option<usize>,
    closing: Option<&'static str>,
)
    requires
        call_ensures(GenerationLoop::new, (prompt, sample_len), l),
        call_ensures(GenerationLoop::opening, (&l,), opening),
        call_ensures(GenerationLoop::next_index, (&l,), next),
        call_ensures(GenerationLoop::closing, (&l,), closing),
    ensures
        opening@ == prompt@,
        sample_len > 0 ==> next == Some(0usize),
        sample_len == 0 ==> next is None,
        closing is Some <==> sample_len == 0,
        l@.limit == sample_len,
{
}

/// A token that does not end the stream is streamed as it shows, and the next index
/// follows, up to the limit; a token that ends it is not streamed and ends the loop, and
/// so does a failure, which is passed on. A loop that is over closes with an empty text,
/// unless it failed, and one that is not does not close.
pub proof fn loops_stream_until_the_end(
    l: &mut GenerationLoop,
    outcome: Result<Token, String>,
    index: Option<usize>,
    res: GenerationStep,
    next: Option<usize>,
    closing: Option<&'static str>,
    shown: String,
)
    requires
        call_ensures(GenerationLoop::next_index, (old(l),), index),
        index is Some,
        call_ensures(GenerationLoop::on_token, (l, outcome), res),
        call_ensures(GenerationLoop::next_index, (final(l),), next),
        call_ensures(GenerationLoop::closing, (final(l),), closing),
        outcome is Ok ==> call_ensures(Token::to_string, (&outcome->Ok_0,), shown),
    ensures
        final(l)@.limit == old(l)@.limit,
        final(l)@.prompt == old(l)@.prompt,
        res is Fail <==> outcome is Err,
        outcome matches Err(cause) ==> {
            &&& res == (GenerationStep::Fail { cause })
            &&& next is None
            &&& closing is None
        },
        res is Stop <==> outcome is Ok && outcome->Ok_0.is_end_of_stream,
        res is Stop ==> next is None && closing is Some,
        res is Stream <==> outcome is Ok && !outcome->Ok_0.is_end_of_stream,
        res matches GenerationStep::Stream { text } ==> {
            &&& text@ == shown@
            &&& index->0 + 1 < old(l)@.limit ==> next is Some && next->0 == index->0 + 1
                && closing is None
            &&& index->0 + 1 >= old(l)@.limit ==> next is None && closing is Some
        },
        closing matches Some(text) ==> text@.len() == 0,
{
}

/// A terminal shows a text as it is and the end mark as a line break.
pub proof fn terminals_show_the_text(data: &str, res: String)
    requires
        call_ensures(super::generation::terminal_text, (data,), res),
    ensures
        data@.len() > 0 ==> res@ == data@,
        data@.len() == 0 ==> res@ == "\n"@,
{
}

/// `after` is `before` with `sample` counted in: one request more, each time and each
/// size on its own counter.
pub open spec fn counts_in(
    before: DistributedProfile,
    sample: RemoteSample,
    after: DistributedProfile,
) -> bool {
    &&& after.remote_requests == before.remote_requests + 1
    &&& after.remote_total_ns == before.remote_total_ns + sample.total_ns
    &&& after.remote_compute_ns == before.remote_compute_ns + 1000 * sample.compute_us
    &&& after.remote_write_ns == before.remote_write_ns + sample.write_ns
    &&& after.remote_read_ns == before.remote_read_ns + sample.read_ns
    &&& after.remote_write_bytes == before.remote_write_bytes + sample.write_bytes
    &&& after.remote_read_bytes == before.remote_read_bytes + sample.read_bytes
}

/// Nothing was counted.
pub open spec fn counts_nothing(p: DistributedProfile) -> bool {
    &&& p.remote_requests == 0
    &&& p.remote_total_ns == 0
    &&& p.remote_compute_ns == 0
    &&& p.remote_write_ns == 0
    &&& p.remote_read_ns == 0
    &&& p.remote_write_bytes == 0
    &&& p.remote_read_bytes == 0
}

/// A sample that the counters have room for is counted in; they have room for it exactly
/// when every sum can be held.
pub proof fn samples_are_counted(p: &mut DistributedProfile, sample: RemoteSample, fits: bool)
    requires
        call_ensures(DistributedProfile::can_record, (old(p), &sample), fits),
        fits ==> call_ensures(DistributedProfile::record, (p, &sample), ()),
    ensures
        fits <==> {
            &&& old(p).remote_requests + 1 <= usize::MAX
            &&& old(p).remote_total_ns + sample.total_ns <= u128::MAX
            &&& old(p).remote_compute_ns + 1000 * sample.compute_us <= u128::MAX
            &&& old(p).remote_write_ns + sample.write_ns <= u128::MAX
            &&& old(p).remote_read_ns + sample.read_ns <= u128::MAX
            &&& old(p).remote_write_bytes + sample.write_bytes <= usize::MAX
            &&& old(p).remote_read_bytes + sample.read_bytes <= usize::MAX
        },
        fits ==> counts_in(*old(p), sample, *final(p)),
{
}

/// What was not computation is overhead: the two make up the total, unless the workers
/// claim more than the total, and then there is no overhead.
pub proof fn overhead_and_computation_make_up_the_total(p: DistributedProfile, overhead: u128)
    requires
        call_ensures(DistributedProfile::distributed_overhead_ns, (&p,), overhead),
    ensures
        p.remote_compute_ns <= p.remote_total_ns ==> overhead + p.remote_compute_ns
            == p.remote_total_ns,
        p.remote_compute_ns > p.remote_total_ns ==> overhead == 0,
{
}

/// A sample is counted once: in the profile of the request, if there is one, and then the
/// global one stays as it is.
pub proof fn requests_count_in_their_own_profile(
    scoped: &mut DistributedProfile,
    global: &mut DistributedProfile,
    sample: RemoteSample,
)
    requires
        call_ensures(
            super::profile::update_distributed_profile,
            (Some(scoped), Some(global), &sample),
            (),
        ),
        old(scoped).has_room_for(sample),
    ensures
        counts_in(*old(scoped), sample, *final(scoped)),
        *final(global) == *old(global),
{
}

/// A sample of a request that has no profile is counted in the global one.
pub proof fn other_requests_count_in_the_global_profile(
    global: &mut DistributedProfile,
    sample: RemoteSample,
)
    requires
        call_ensures(
            super::profile::update_distributed_profile,
            (None, Some(global), &sample),
            (),
        ),
        old(global).has_room_for(sample),
    ensures
        counts_in(*old(global), sample, *final(global)),
{
}

/// Counters start at zero and go back to zero; a snapshot shows them as they are, or
/// zeros where they are out of reach.
pub proof fn snapshots_show_the_counters(
    global: &mut DistributedProfile,
    fresh: DistributedProfile,
    p: DistributedProfile,
    of_p: DistributedProfile,
    of_none: DistributedProfile,
)
    requires
        call_ensures(super::profile::reset_distributed_profile, (Some(global),), ()),
        call_ensures(DistributedProfile::default, (), fresh),
        call_ensures(super::profile::snapshot_distributed_profile, (Some(&p),), of_p),
        call_ensures(super::profile::snapshot_distributed_profile, (None,), of_none),
    ensures
        counts_nothing(*final(global)),
        counts_nothing(fresh),
        of_p == p,
        counts_nothing(of_none),
{
}

} // verus!
