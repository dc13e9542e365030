//! What holds of clients, lanes and batches over more than one call.

use std::sync::Arc;

use vstd::prelude::*;

use super::client::{Client, LaneChoice};
use super::client_error::ClientError;
use super::proto::{Message, RawTensor, SamplingRequest, WorkerInfo};
use super::SessionId;

verus! {

/// The steps, position and block number each, that a worker runs for `message`, in
/// order.
pub open spec fn steps_of(message: Message) -> Seq<(int, int)> {
    match message {
        Message::SingleOp { index_pos, block_idx, .. } => seq![(index_pos as int, block_idx as int)],
        Message::Batch { batch, .. } => Seq::new(
            batch@.len(),
            |i: int| (batch@[i].1 as int, batch@[i].2 as int),
        ),
        Message::CompactBatch { batch, .. } => Seq::new(
            batch.num_layers as nat,
            |i: int| (batch.index_pos as int, batch.first_block_idx + i),
        ),
        Message::CompactRangeBatch { batch, .. } => Seq::new(
            batch.num_layers as nat,
            |i: int| (batch.index_pos as int, batch.first_block_idx + i),
        ),
        _ => Seq::empty(),
    }
}

/// The tensor that `message` carries.
pub open spec fn tensor_of(message: Message) -> Option<RawTensor> {
    match message {
        Message::SingleOp { x, .. } => Some(x),
        Message::Batch { x, .. } => Some(x),
        Message::CompactBatch { x, .. } => Some(x),
        Message::CompactRangeBatch { x, .. } => Some(x),
        Message::Tensor { x, .. } => Some(x),
        _ => None,
    }
}

/// The sampling settings that `message` carries.
pub open spec fn sampling_of(message: Message) -> Option<SamplingRequest> {
    match message {
        Message::SingleOp { sampling, .. } => sampling,
        Message::Batch { sampling, .. } => sampling,
        Message::CompactBatch { sampling, .. } => sampling,
        Message::CompactRangeBatch { sampling, .. } => sampling,
        _ => None,
    }
}

/// Whatever form a batch is sent in, the worker runs the same steps in the same
/// order on the same tensor, for the same session and with the same sampling
/// settings.
pub proof fn short_forms_lose_nothing<C, L, D>(
    client: Client<C, L, D>,
    session_id: SessionId,
    x: RawTensor,
    batch: Vec<(String, usize, usize)>,
    sampling: Option<SamplingRequest>,
)
    ensures
        ({
            let message = client.batch_message(session_id, x, batch, sampling);
            &&& steps_of(message) == Seq::new(
                batch@.len(),
                |i: int| (batch@[i].1 as int, batch@[i].2 as int),
            )
            &&& tensor_of(message) == Some(x)
            &&& sampling_of(message) == sampling
            &&& message.spec_session_id() == session_id
            &&& message matches Message::CompactBatch { batch: run, .. }
                ==> run.first_layer_name == batch@[0].0
        }),
{
    broadcast use vstd::std_specs::vec::axiom_spec_len;

    let message = client.batch_message(session_id, x, batch, sampling);
    assert(batch.len() == batch@.len());
    assert(steps_of(message) =~= Seq::new(
        batch@.len(),
        |i: int| (batch@[i].1 as int, batch@[i].2 as int),
    ));
}

/// A client never uses a short form that its flags do not permit.
pub proof fn short_forms_need_permission<C, L, D>(
    client: Client<C, L, D>,
    session_id: SessionId,
    x: RawTensor,
    batch: Vec<(String, usize, usize)>,
    sampling: Option<SamplingRequest>,
)
    ensures
        ({
            let message = client.batch_message(session_id, x, batch, sampling);
            &&& message is CompactRangeBatch ==> client.compact_batch && client.compact_range_batch
            &&& message is CompactBatch ==> client.compact_batch && !client.compact_range_batch
            &&& !client.compact_batch ==> message == (Message::Batch {
                session_id,
                x,
                batch,
                sampling,
            })
        }),
{
}

/// A session stays on one lane: once a connection was installed for it, that
/// connection serves it, no other connection takes its place, and the lanes of
/// other sessions are what they were.
pub proof fn session_stays_on_its_lane<C>(
    base: Arc<C>,
    lanes: Map<SessionId, Arc<C>>,
    session_id: SessionId,
    connection: Arc<C>,
    later: Arc<C>,
    limit: usize,
    other: SessionId,
)
    requires
        session_id != 0,
        lanes.dom().finite(),
        !lanes.contains_key(session_id),
        lanes.len() < limit,
        other != session_id,
    ensures
        ({
            let after = super::client::lanes_with(lanes, session_id, connection, limit);
            &&& super::client::lane_choice(base, lanes, session_id) == LaneChoice::<C>::Open
            &&& super::client::lane_choice(base, after, session_id) == (LaneChoice::Ready {
                connection,
            })
            &&& super::client::lanes_with(after, session_id, later, limit) == after
            &&& super::client::lane_choice(base, after, other) == super::client::lane_choice(
                base,
                lanes,
                other,
            )
        }),
{
}

/// Ending a session frees its lane: the session needs a new one, a slot is free
/// again, and opening and ending a session leaves the lanes as they were.
pub proof fn ended_session_frees_its_lane<C>(
    base: Arc<C>,
    lanes: Map<SessionId, Arc<C>>,
    session_id: SessionId,
    connection: Arc<C>,
    limit: usize,
)
    requires
        session_id != 0,
        lanes.dom().finite(),
        !lanes.contains_key(session_id),
        lanes.len() < limit,
    ensures
        ({
            let open = super::client::lanes_with(lanes, session_id, connection, limit);
            &&& open.len() == lanes.len() + 1
            &&& open.remove(session_id) == lanes
            &&& super::client::lane_choice(base, open.remove(session_id), session_id)
                == LaneChoice::<C>::Open
        }),
{
    assert(lanes.insert(session_id, connection).remove(session_id) =~= lanes);
}

/// No installation opens more lanes than the limit allows.
pub proof fn lanes_respect_the_limit<C>(
    lanes: Map<SessionId, Arc<C>>,
    session_id: SessionId,
    connection: Arc<C>,
    limit: usize,
)
    requires
        lanes.dom().finite(),
        lanes.len() <= limit,
    ensures
        super::client::lanes_with(lanes, session_id, connection, limit).len() <= limit,
{
}

/// One request for the connection of a session: `fresh` is what is opened where the
/// session has no connection yet.
pub struct LaneCall<C> {
    pub session_id: SessionId,
    pub fresh: Arc<C>,
}

/// The connection that a call gets, or `None` where no further lane is allowed.
pub open spec fn connection_given<C>(
    base: Arc<C>,
    lanes: Map<SessionId, Arc<C>>,
    call: LaneCall<C>,
    limit: usize,
) -> Option<Arc<C>> {
    match super::client::lane_choice(base, lanes, call.session_id) {
        LaneChoice::Ready { connection } => Some(connection),
        LaneChoice::Open => if lanes.len() >= limit {
            None
        } else {
            Some(call.fresh)
        },
    }
}

/// The lanes after `calls`, one after the other, with no session ended in between.
pub open spec fn lanes_after<C>(
    base: Arc<C>,
    lanes: Map<SessionId, Arc<C>>,
    calls: Seq<LaneCall<C>>,
    limit: usize,
) -> Map<SessionId, Arc<C>>
    decreases calls.len(),
{
    if calls.len() == 0 {
        lanes
    } else {
        let before = lanes_after(base, lanes, calls.drop_last(), limit);
        let call = calls.last();
        match super::client::lane_choice(base, before, call.session_id) {
            LaneChoice::Ready { .. } => before,
            LaneChoice::Open => super::client::lanes_with(
                before,
                call.session_id,
                call.fresh,
                limit,
            ),
        }
    }
}

/// A lane that is open stays what it is through any number of calls.
proof fn lemma_open_lane_stays<C>(
    base: Arc<C>,
    lanes: Map<SessionId, Arc<C>>,
    calls: Seq<LaneCall<C>>,
    limit: usize,
    n: int,
    session_id: SessionId,
)
    requires
        0 <= n <= calls.len(),
        lanes_after(base, lanes, calls.take(n), limit).contains_key(session_id),
    ensures
        lanes_after(base, lanes, calls, limit).contains_key(session_id),
        lanes_after(base, lanes, calls, limit)[session_id] == lanes_after(
            base,
            lanes,
            calls.take(n),
            limit,
        )[session_id],
    decreases calls.len(),
{
    if n == calls.len() {
        assert(calls.take(n) =~= calls);
    } else {
        assert(calls.drop_last().take(n) =~= calls.take(n));
        lemma_open_lane_stays(base, lanes, calls.drop_last(), limit, n, session_id);
    }
}

/// A session keeps its connection through any sequence of calls: a later call for
/// the same session gets what an earlier one got and opens nothing. Session zero
/// has the base connection and never opens one.
pub proof fn session_keeps_its_connection<C>(
    base: Arc<C>,
    lanes: Map<SessionId, Arc<C>>,
    calls: Seq<LaneCall<C>>,
    limit: usize,
    i: int,
    j: int,
)
    requires
        0 <= i < j < calls.len(),
        calls[i].session_id == calls[j].session_id,
        connection_given(base, lanes_after(base, lanes, calls.take(i), limit), calls[i], limit)
            is Some,
    ensures
        connection_given(base, lanes_after(base, lanes, calls.take(j), limit), calls[j], limit)
            == connection_given(
            base,
            lanes_after(base, lanes, calls.take(i), limit),
            calls[i],
            limit,
        ),
        super::client::lane_choice(
            base,
            lanes_after(base, lanes, calls.take(j), limit),
            calls[j].session_id,
        ) is Ready,
        calls[i].session_id == 0 ==> super::client::lane_choice(
            base,
            lanes_after(base, lanes, calls.take(i), limit),
            0,
        ) == (LaneChoice::Ready { connection: base }),
{
    let s = calls[i].session_id;
    assert(calls.take(i + 1).drop_last() =~= calls.take(i));
    assert(calls.take(i + 1).last() == calls[i]);
    if s != 0 {
        assert(calls.take(j).take(i + 1) =~= calls.take(i + 1));
        lemma_open_lane_stays(base, lanes, calls.take(j), limit, i + 1, s);
    }
}

/// Every lane is a connection that was opened for its own session.
proof fn lemma_lanes_are_opened<C>(
    base: Arc<C>,
    calls: Seq<LaneCall<C>>,
    limit: usize,
    session_id: SessionId,
) -> (k: int)
    requires
        lanes_after(base, Map::empty(), calls, limit).contains_key(session_id),
    ensures
        0 <= k < calls.len(),
        calls[k].session_id == session_id,
        session_id != 0,
        lanes_after(base, Map::empty(), calls, limit)[session_id] == calls[k].fresh,
    decreases calls.len(),
{
    let before = lanes_after(base, Map::empty(), calls.drop_last(), limit);
    if before.contains_key(session_id) {
        lemma_lanes_are_opened(base, calls.drop_last(), limit, session_id)
    } else {
        calls.len() - 1
    }
}

/// Where call `i` gets a connection for a session of its own, that connection was
/// opened by a call for that session, and by none after `i`.
proof fn lemma_given_was_opened<C>(base: Arc<C>, calls: Seq<LaneCall<C>>, limit: usize, i: int) -> (k:
    int)
    requires
        0 <= i < calls.len(),
        calls[i].session_id != 0,
        connection_given(base, lanes_after(base, Map::empty(), calls.take(i), limit), calls[i], limit)
            is Some,
    ensures
        0 <= k <= i,
        calls[k].session_id == calls[i].session_id,
        connection_given(base, lanes_after(base, Map::empty(), calls.take(i), limit), calls[i], limit)
            == Some(calls[k].fresh),
{
    let lanes = lanes_after(base, Map::empty(), calls.take(i), limit);
    if lanes.contains_key(calls[i].session_id) {
        lemma_lanes_are_opened(base, calls.take(i), limit, calls[i].session_id)
    } else {
        i
    }
}

/// Different sessions never share a connection, whatever their number: where every
/// connection that is opened is a new one, two calls for different sessions get
/// different connections.
pub proof fn sessions_have_lanes_of_their_own<C>(
    base: Arc<C>,
    calls: Seq<LaneCall<C>>,
    limit: usize,
    i: int,
    j: int,
)
    requires
        0 <= i < calls.len(),
        0 <= j < calls.len(),
        calls[i].session_id != calls[j].session_id,
        forall|k: int| 0 <= k < calls.len() ==> (#[trigger] calls[k]).fresh != base,
        forall|k: int, l: int|
            0 <= k < l < calls.len() ==> (#[trigger] calls[k]).fresh != (#[trigger] calls[l]).fresh,
        connection_given(base, lanes_after(base, Map::empty(), calls.take(i), limit), calls[i], limit)
            is Some,
        connection_given(base, lanes_after(base, Map::empty(), calls.take(j), limit), calls[j], limit)
            is Some,
    ensures
        connection_given(base, lanes_after(base, Map::empty(), calls.take(i), limit), calls[i], limit)
            != connection_given(
            base,
            lanes_after(base, Map::empty(), calls.take(j), limit),
            calls[j],
            limit,
        ),
{
    if calls[i].session_id != 0 {
        let k = lemma_given_was_opened(base, calls, limit, i);
        if calls[j].session_id != 0 {
            let l = lemma_given_was_opened(base, calls, limit, j);
            assert(k != l);
            if k < l {
                assert(calls[k].fresh != calls[l].fresh);
            } else {
                assert(calls[l].fresh != calls[k].fresh);
            }
        }
    } else {
        let l = lemma_given_was_opened(base, calls, limit, j);
    }
}

/// What a handshake makes of a client depends on the worker's answer and the
/// setting alone: clients for different layers, on whatever device, get the same
/// worker and abilities and send the same messages for a batch.
pub proof fn handshake_alone_decides<C, L, D>(
    a: Client<C, L, D>,
    b: Client<C, L, D>,
    address: Seq<char>,
    a_layer: Seq<char>,
    b_layer: Seq<char>,
    info: WorkerInfo,
    compact_allowed: bool,
)
    requires
        a.greeted_by(address, a_layer, info, compact_allowed),
        b.greeted_by(address, b_layer, info, compact_allowed),
    ensures
        a.address@ == b.address@,
        *a.info == *b.info,
        a.compact_batch == b.compact_batch,
        a.compact_range_batch == b.compact_range_batch,
        a.remote_sampling == b.remote_sampling,
        forall|
            session_id: SessionId,
            x: RawTensor,
            batch: Vec<(String, usize, usize)>,
            sampling: Option<SamplingRequest>,
        |
            #[trigger] a.batch_message(session_id, x, batch, a.sent_sampling(sampling))
                == b.batch_message(session_id, x, batch, b.sent_sampling(sampling)),
{
}

/// All layers at one address share one connection, one set of session lanes, one
/// device and one worker.
pub proof fn layers_share_a_connection<C, L, D>(
    base: Client<C, L, D>,
    a: Client<C, L, D>,
    a_layer: Seq<char>,
    b: Client<C, L, D>,
    b_layer: Seq<char>,
)
    requires
        a.is_view_of(&base, a_layer),
        b.is_view_of(&base, b_layer),
    ensures
        a.connection == b.connection,
        a.session_connections == b.session_connections,
        a.device == b.device,
        a.info == b.info,
        a.is_view_of(&b, a_layer),
        b.is_view_of(&a, b_layer),
{
}

/// One request to a pool: for a client at `address`; `connected` is what connecting
/// yields where the pool has no client there.
pub struct PoolCall<C, L, D> {
    pub address: Seq<char>,
    pub connected: Result<Client<C, L, D>, ClientError>,
}

/// The clients of a pool after `calls`, one after the other.
pub open spec fn pool_after_all<C, L, D>(
    pool: Map<Seq<char>, Client<C, L, D>>,
    calls: Seq<PoolCall<C, L, D>>,
) -> Map<Seq<char>, Client<C, L, D>>
    decreases calls.len(),
{
    if calls.len() == 0 {
        pool
    } else {
        super::client::pool_after(
            pool_after_all(pool, calls.drop_last()),
            calls.last().address,
            calls.last().connected,
        )
    }
}

/// How many of `calls` open a connection to `address`.
pub open spec fn connections_opened<C, L, D>(
    pool: Map<Seq<char>, Client<C, L, D>>,
    calls: Seq<PoolCall<C, L, D>>,
    address: Seq<char>,
) -> nat
    decreases calls.len(),
{
    if calls.len() == 0 {
        0
    } else {
        connections_opened(pool, calls.drop_last(), address) + (if calls.last().address == address
            && calls.last().connected is Ok && !pool_after_all(
            pool,
            calls.drop_last(),
        ).contains_key(address) {
            1nat
        } else {
            0nat
        })
    }
}

/// A pool opens at most one connection per address, whatever is asked of it, and
/// none to an address that it has a client for; that client stays the one that all
/// layers there are views of. An address has a client as soon as connecting to it
/// has succeeded, so a failed attempt is made again.
pub proof fn pool_connects_once_per_address<C, L, D>(
    pool: Map<Seq<char>, Client<C, L, D>>,
    calls: Seq<PoolCall<C, L, D>>,
    address: Seq<char>,
)
    ensures
        connections_opened(pool, calls, address) <= 1,
        pool.contains_key(address) ==> {
            &&& connections_opened(pool, calls, address) == 0
            &&& pool_after_all(pool, calls).contains_key(address)
            &&& pool_after_all(pool, calls)[address] == pool[address]
        },
        !pool.contains_key(address) ==> pool_after_all(pool, calls).contains_key(address) == (
        connections_opened(pool, calls, address) == 1),
        forall|i: int|
            0 <= i < calls.len() && (#[trigger] calls[i]).address == address && calls[i].connected
                is Ok ==> pool_after_all(pool, calls).contains_key(address),
    decreases calls.len(),
{
    if calls.len() > 0 {
        pool_connects_once_per_address(pool, calls.drop_last(), address);
        assert forall|i: int|
            0 <= i < calls.len() && (#[trigger] calls[i]).address == address && calls[i].connected
                is Ok implies pool_after_all(pool, calls).contains_key(address) by {
            if i < calls.len() - 1 {
                assert(calls.drop_last()[i] == calls[i]);
            }
        }
    }
}

} // verus!
