//! What calls of the worker client promise their callers.

use std::sync::Arc;

use vstd::prelude::*;

use crate::text;

use super::client::{
    AwaitingReply, Client, ClientPool, HandshakeEvent, LaneChoice, Opening, PendingRequest,
    Release, ReleaseEvent, Reply, SessionLanes, Transfer,
};
use super::client_error::ClientError;
use super::proto::{Message, RawTensor, SamplingRequest, WorkerInfo};
use super::SessionId;

verus! {

/// `a` and `b` differ in nothing but the layer that they stand for.
pub open spec fn differ_in_layer_alone<C, L, D>(a: Client<C, L, D>, b: Client<C, L, D>) -> bool {
    a == (Client { layer_name: a.layer_name, ..b })
}

/// A layer view is its base under another layer name.
pub proof fn layer_view_is_its_base<C, L, D>(
    base: Client<C, L, D>,
    layer_name: &str,
    view: Client<C, L, D>,
)
    requires
        call_ensures(Client::<C, L, D>::for_layer, (&base, layer_name), view),
    ensures
        differ_in_layer_alone(view, base),
        view.layer_name@ == layer_name@,
{
}

/// For the same arguments a layer view and its base ask for the same work with the same
/// sampling settings; only the name of the layer tells them apart.
pub proof fn layer_view_sends_what_its_base_sends<C, L, D>(
    base: Client<C, L, D>,
    layer_name: &str,
    view: Client<C, L, D>,
    session_id: SessionId,
    x: RawTensor,
    index_pos: usize,
    block_idx: usize,
    batch: Vec<(String, usize, usize)>,
    sampling: Option<SamplingRequest>,
    by_base: Message,
    by_view: Message,
    many_by_base: Message,
    many_by_view: Message,
)
    requires
        call_ensures(Client::<C, L, D>::for_layer, (&base, layer_name), view),
        call_ensures(
            Client::<C, L, D>::forward_mut,
            (&base, session_id, x, index_pos, block_idx, sampling),
            by_base,
        ),
        call_ensures(
            Client::<C, L, D>::forward_mut,
            (&view, session_id, x, index_pos, block_idx, sampling),
            by_view,
        ),
        call_ensures(
            Client::<C, L, D>::forward_batch,
            (&base, session_id, x, batch, sampling),
            many_by_base,
        ),
        call_ensures(
            Client::<C, L, D>::forward_batch,
            (&view, session_id, x, batch, sampling),
            many_by_view,
        ),
    ensures
        by_base matches Message::SingleOp {
            session_id: s,
            layer_name: l,
            x: t,
            index_pos: i,
            block_idx: b,
            sampling: by_base_sampling,
        } ==> by_view == (Message::SingleOp {
            session_id: s,
            layer_name: view.layer_name,
            x: t,
            index_pos: i,
            block_idx: b,
            sampling: by_base_sampling,
        }),
        by_base is SingleOp,
        view.layer_name@ == layer_name@,
        many_by_view == many_by_base,
{
}

/// A layer view and its base ask for remote sampling both or neither, and speak to the
/// same worker on the same connections.
pub proof fn layer_view_samples_where_its_base_does<C, L, D>(
    base: Client<C, L, D>,
    layer_name: &str,
    view: Client<C, L, D>,
    base_samples: bool,
    view_samples: bool,
    base_ident: &str,
    view_ident: &str,
    view_layer: &str,
    lanes: SessionLanes<C>,
    session_id: SessionId,
    base_lane: LaneChoice<C>,
    view_lane: LaneChoice<C>,
)
    requires
        call_ensures(Client::<C, L, D>::for_layer, (&base, layer_name), view),
        call_ensures(Client::<C, L, D>::requires_remote_sampling, (&base,), base_samples),
        call_ensures(Client::<C, L, D>::requires_remote_sampling, (&view,), view_samples),
        call_ensures(Client::<C, L, D>::ident, (&base,), base_ident),
        call_ensures(Client::<C, L, D>::ident, (&view,), view_ident),
        call_ensures(Client::<C, L, D>::layer_name, (&view,), view_layer),
        call_ensures(
            Client::<C, L, D>::connection_for_session,
            (&base, &lanes, session_id),
            base_lane,
        ),
        call_ensures(
            Client::<C, L, D>::connection_for_session,
            (&view, &lanes, session_id),
            view_lane,
        ),
    ensures
        view_samples == base_samples,
        view_ident@ == base_ident@,
        view_layer@ == layer_name@,
        view_lane == base_lane,
{
}

/// What a client says of itself is what it holds.
pub proof fn client_tells_what_it_is<C, L, D>(
    c: Client<C, L, D>,
    samples: bool,
    ident: &str,
    layer: &str,
    shown: String,
)
    requires
        call_ensures(Client::<C, L, D>::requires_remote_sampling, (&c,), samples),
        call_ensures(Client::<C, L, D>::ident, (&c,), ident),
        call_ensures(Client::<C, L, D>::layer_name, (&c,), layer),
        call_ensures(Client::<C, L, D>::to_string, (&c,), shown),
    ensures
        samples == c.remote_sampling,
        ident@ == c.address@,
        layer@ == c.layer_name@,
        shown@ == layer@ + "@"@ + ident@ + " ["@ + c.info.device@ + "<"@ + text::decimal(
            c.info.device_idx as nat,
        ) + "> "@ + c.info.os@ + "-"@ + c.info.arch@ + " latency="@ + text::decimal(
            c.info.latency as nat,
        ) + "ms]"@,
{
}

/// A worker is greeted on the connection that was opened to it, and only there.
pub proof fn opening_greets_the_worker<C, L, D>(
    address: &str,
    attempt: Result<Arc<C>, String>,
    res: Result<Opening<C>, ClientError>,
    hello: Message,
)
    requires
        call_ensures(Client::<C, L, D>::open, (address, attempt), res),
        call_ensures(super::client::greeting, (), hello),
    ensures
        hello is Hello,
        res is Ok <==> attempt is Ok,
        attempt matches Ok(connection) ==> {
            &&& res->Ok_0.connection == connection
            &&& res->Ok_0.hello == hello
        },
        attempt matches Err(cause) ==> {
            &&& res matches Err(ClientError::Connect { address: at, cause: c })
            &&& at@ == address@
            &&& c == cause
        },
{
}

/// `info` lists the extension `name`.
pub open spec fn lists(info: WorkerInfo, name: Seq<char>) -> bool {
    exists|i: int| 0 <= i < info.capabilities@.len() && #[trigger] info.capabilities@[i]@ == name
}

/// A client is made of a worker's own description and of nothing else. It has what it was
/// given, samples remotely exactly where the worker says it samples, and uses a short
/// form exactly where that is allowed and the worker says it understands it.
pub proof fn client_does_what_its_worker_understands<C, L, D>(
    device: Arc<D>,
    address: &str,
    layer_name: &str,
    connection: Arc<C>,
    lanes: Arc<L>,
    hello: Result<Message, ClientError>,
    compact_allowed: bool,
    res: Result<Client<C, L, D>, ClientError>,
)
    requires
        call_ensures(
            Client::<C, L, D>::new,
            (device, address, layer_name, connection, lanes, hello, compact_allowed),
            res,
        ),
    ensures
        res is Ok <==> (hello is Ok && hello->Ok_0 is WorkerInfo),
        hello matches Err(e) ==> res == Err::<Client<C, L, D>, ClientError>(e),
        hello is Ok && !(hello->Ok_0 is WorkerInfo) ==> {
            &&& res matches Err(ClientError::UnexpectedWorkerInfo { response })
            &&& response == hello->Ok_0
        },
        res matches Ok(c) ==> {
            let info = hello->Ok_0->WorkerInfo_0;
            &&& c.device == device
            &&& c.address@ == address@
            &&& c.layer_name@ == layer_name@
            &&& *c.info == info
            &&& c.connection == connection
            &&& c.session_connections == lanes
            &&& c.remote_sampling <==> lists(info, "gguf_sample_token_v1"@)
            &&& c.compact_range_batch <==> compact_allowed && lists(
                info,
                "compact_range_batch_v1"@,
            )
            &&& c.compact_batch <==> compact_allowed && (lists(info, "compact_batch_v1"@)
                || lists(info, "compact_range_batch_v1"@))
        },
{
    if let Ok(Message::WorkerInfo(info)) = hello {
        assert(info.has_capability("gguf_sample_token_v1"@) == lists(
            info,
            "gguf_sample_token_v1"@,
        ));
        assert(info.has_capability("compact_range_batch_v1"@) == lists(
            info,
            "compact_range_batch_v1"@,
        ));
        assert(info.has_capability("compact_batch_v1"@) == lists(info, "compact_batch_v1"@));
    }
}

/// Session zero is served by the base connection and every other session by its own lane,
/// or by one that has yet to be opened.
pub proof fn sessions_are_served_by_their_lanes<C, L, D>(
    c: Client<C, L, D>,
    lanes: SessionLanes<C>,
    id: SessionId,
    res: LaneChoice<C>,
)
    requires
        call_ensures(Client::<C, L, D>::connection_for_session, (&c, &lanes, id), res),
    ensures
        res is Open <==> id != 0 && !lanes@.contains_key(id),
        res matches LaneChoice::Ready { connection } ==> {
            &&& id == 0 ==> connection == c.connection
            &&& id != 0 ==> connection == lanes@[id]
        },
{
}

/// A lane is good exactly when the worker describes itself on it; what it says instead,
/// or what broke, is reported with the worker's address.
pub proof fn lanes_open_with_a_description<C, L, D>(
    c: Client<C, L, D>,
    event: HandshakeEvent,
    res: Result<(), ClientError>,
)
    requires
        call_ensures(Client::<C, L, D>::check_lane_handshake, (&c, event), res),
    ensures
        res is Ok <==> (event matches HandshakeEvent::Answered { response }
            && response is WorkerInfo),
        match event {
            HandshakeEvent::ConnectFailed { cause } => {
                &&& res matches Err(ClientError::OpenLane { address: at, cause: why })
                &&& at@ == c.address@
                &&& why == cause
            },
            HandshakeEvent::TransportFailed { cause } => {
                &&& res matches Err(ClientError::Transport { cause: why })
                &&& why == cause
            },
            HandshakeEvent::Answered { response } => !(response is WorkerInfo) ==> {
                &&& res matches Err(
                    ClientError::UnexpectedHandshake { address: at, response: answer },
                )
                &&& at@ == c.address@
                &&& answer == response
            },
        },
{
}

/// A lane that is offered for a session is the session's from then on, unless it has one,
/// which stays, or there is no room, and then nothing changes. No other session's lane
/// changes in any case.
pub proof fn offered_lanes_are_kept<C, L, D>(
    c: Client<C, L, D>,
    lanes: &mut SessionLanes<C>,
    id: SessionId,
    connection: Arc<C>,
    limit: usize,
    res: Result<Arc<C>, ClientError>,
    after: LaneChoice<C>,
)
    requires
        call_ensures(
            Client::<C, L, D>::install_lane,
            (&c, lanes, id, connection, limit),
            res,
        ),
        call_ensures(Client::<C, L, D>::connection_for_session, (&c, final(lanes), id), after),
        id != 0,
    ensures
        res is Err <==> !old(lanes)@.contains_key(id) && old(lanes)@.len() >= limit,
        res matches Ok(lane) ==> {
            &&& after == (LaneChoice::Ready { connection: lane })
            &&& old(lanes)@.contains_key(id) ==> lane == old(lanes)@[id]
            &&& !old(lanes)@.contains_key(id) ==> lane == connection
        },
        res matches Err(e) ==> {
            &&& e matches ClientError::LaneLimit { address, active, limit: most }
            &&& address@ == c.address@
            &&& active == old(lanes)@.len() as usize
            &&& most == limit
            &&& final(lanes)@ == old(lanes)@
            &&& after is Open
        },
        forall|other: SessionId|
            other != id ==> (#[trigger] final(lanes)@.contains_key(other) <==> old(lanes)@.contains_key(other)),
        forall|other: SessionId|
            other != id && old(lanes)@.contains_key(other) ==> #[trigger] final(lanes)@[other]
                == old(lanes)@[other],
{
}

/// A session's end is told on the lane that was the session's, which is the session's no
/// longer, within two seconds; a session without a lane has nothing to tell. No other
/// session's lane changes.
pub proof fn ended_sessions_give_up_their_lanes<C, L, D>(
    lanes: &mut SessionLanes<C>,
    id: SessionId,
    res: Option<Release<C>>,
)
    requires
        call_ensures(Client::<C, L, D>::begin_release, (lanes, id), res),
    ensures
        res is Some <==> old(lanes)@.contains_key(id),
        res matches Some(r) ==> {
            &&& r.lane == old(lanes)@[id]
            &&& r.message == (Message::ReleaseSession { session_id: id })
            &&& r.time_limit_ms == 2000
        },
        !final(lanes)@.contains_key(id),
        forall|other: SessionId|
            other != id ==> (#[trigger] final(lanes)@.contains_key(other) <==> old(lanes)@.contains_key(other)),
        forall|other: SessionId|
            other != id && old(lanes)@.contains_key(other) ==> #[trigger] final(lanes)@[other]
                == old(lanes)@[other],
{
}

/// The end of a session is agreed on exactly when the worker names that very session;
/// everything else is an error that tells what happened and where.
pub proof fn session_end_is_agreed_on<C, L, D>(
    c: Client<C, L, D>,
    id: SessionId,
    event: ReleaseEvent,
    res: Result<(), ClientError>,
)
    requires
        call_ensures(Client::<C, L, D>::release_session, (&c, id, event), res),
    ensures
        res is Ok <==> (event matches ReleaseEvent::Answered { response } && response is ReleaseSession
            && response->ReleaseSession_session_id == id),
        match event {
            ReleaseEvent::SendFailed { cause } => {
                &&& res matches Err(ClientError::SendRelease { session_id, address, cause: why })
                &&& session_id == id
                &&& address@ == c.address@
                &&& why == cause
            },
            ReleaseEvent::ReceiveFailed { cause } => {
                &&& res matches Err(
                    ClientError::ReceiveRelease { session_id, address, cause: why },
                )
                &&& session_id == id
                &&& address@ == c.address@
                &&& why == cause
            },
            ReleaseEvent::TimedOut => {
                &&& res matches Err(ClientError::ReleaseTimeout { session_id, address })
                &&& session_id == id
                &&& address@ == c.address@
            },
            ReleaseEvent::Answered { response } => res is Err ==> {
                &&& res matches Err(ClientError::UnexpectedRelease { address, response: answer })
                &&& address@ == c.address@
                &&& answer == response
            },
        },
{
}

/// A request brings back the tensor of a result, the worker's own words of a failure, and
/// anything else as it came.
pub proof fn answers_are_results_or_failures<C, L, D>(
    response: Message,
    res: Result<RawTensor, ClientError>,
)
    requires
        call_ensures(Client::<C, L, D>::forward_request, (response,), res),
    ensures
        res is Ok <==> response is Tensor,
        res matches Ok(x) ==> response->Tensor_x == x,
        response is Error ==> {
            &&& res matches Err(ClientError::Worker { message })
            &&& message == response->Error_message
        },
        !(response is Tensor) && !(response is Error) ==> {
            &&& res matches Err(ClientError::UnexpectedResponse { response: answer })
            &&& answer == response
        },
{
}

/// The sampling settings of the task travel exactly to a worker that samples.
pub open spec fn sampling_travels<C, L, D>(
    c: Client<C, L, D>,
    sampling: Option<SamplingRequest>,
    sent: Option<SamplingRequest>,
) -> bool {
    &&& c.remote_sampling ==> sent == sampling
    &&& !c.remote_sampling ==> sent is None
}

/// A request for one layer names the session, the layer, the position and the block, and
/// carries the tensor as it is.
pub proof fn single_requests_carry_their_arguments<C, L, D>(
    c: Client<C, L, D>,
    session_id: SessionId,
    x: RawTensor,
    index_pos: usize,
    block_idx: usize,
    sampling: Option<SamplingRequest>,
    res: Message,
)
    requires
        call_ensures(
            Client::<C, L, D>::forward_mut,
            (&c, session_id, x, index_pos, block_idx, sampling),
            res,
        ),
    ensures
        res matches Message::SingleOp {
            session_id: s,
            layer_name: l,
            x: t,
            index_pos: i,
            block_idx: b,
            sampling: sent,
        } && s == session_id && l@ == c.layer_name@ && t == x && i == index_pos && b == block_idx
            && sampling_travels(c, sampling, sent),
{
}

/// The layers of `batch` all stand at one position, and their block numbers count up by
/// one.
pub open spec fn counts_up(batch: Seq<(String, usize, usize)>) -> bool {
    &&& batch.len() > 0
    &&& forall|i: int| 0 <= i < batch.len() ==> (#[trigger] batch[i]).1 == batch[0].1
    &&& forall|i: int| 0 <= i < batch.len() ==> (#[trigger] batch[i]).2 == batch[0].2 + i
}

/// The message `res` asks for the layers of `batch`, all of them and no others, in a form
/// that the worker of `c` understands: a short form wherever the layers count up and the
/// worker knows one, the shortest that it knows.
pub open spec fn asks_for_layers<C, L, D>(
    c: Client<C, L, D>,
    session_id: SessionId,
    x: RawTensor,
    batch: Vec<(String, usize, usize)>,
    sampling: Option<SamplingRequest>,
    res: Message,
) -> bool {
    match res {
        Message::Batch { session_id: s, x: t, batch: b, sampling: sent } => {
            &&& s == session_id && t == x && sampling_travels(c, sampling, sent)
            &&& b == batch
            &&& !c.compact_batch || !counts_up(batch@)
        },
        Message::CompactBatch { session_id: s, x: t, batch: b, sampling: sent } => {
            &&& s == session_id && t == x && sampling_travels(c, sampling, sent)
            &&& c.compact_batch && !c.compact_range_batch && counts_up(batch@)
            &&& b.first_layer_name@ == batch@[0].0@
            &&& b.num_layers == batch@.len()
            &&& forall|i: int|
                0 <= i < batch@.len() ==> (#[trigger] batch@[i]).1 == b.index_pos && batch@[i].2
                    == b.first_block_idx + i
        },
        Message::CompactRangeBatch { session_id: s, x: t, batch: b, sampling: sent } => {
            &&& s == session_id && t == x && sampling_travels(c, sampling, sent)
            &&& c.compact_batch && c.compact_range_batch && counts_up(batch@)
            &&& b.num_layers == batch@.len()
            &&& forall|i: int|
                0 <= i < batch@.len() ==> (#[trigger] batch@[i]).1 == b.index_pos && batch@[i].2
                    == b.first_block_idx + i
        },
        _ => false,
    }
}

/// A request for many layers asks for exactly these.
pub proof fn batch_requests_ask_for_their_layers<C, L, D>(
    c: Client<C, L, D>,
    session_id: SessionId,
    x: RawTensor,
    batch: Vec<(String, usize, usize)>,
    sampling: Option<SamplingRequest>,
    res: Message,
)
    requires
        call_ensures(
            Client::<C, L, D>::forward_batch,
            (&c, session_id, x, batch, sampling),
            res,
        ),
    ensures
        asks_for_layers(c, session_id, x, batch, sampling, res),
{
    broadcast use vstd::std_specs::vec::axiom_spec_len;

    assert(batch@.len() == batch.len());
    assert(super::client::is_run(batch@) == counts_up(batch@));
    if counts_up(batch@) {
        assert(batch@[0].1 == batch@[0].1);
    }
}

/// A client neither loads nor runs a layer itself.
pub proof fn client_runs_nothing_itself<C, L, D>(
    c: Client<C, L, D>,
    loaded: Result<Client<C, L, D>, ClientError>,
    run: Result<RawTensor, ClientError>,
)
    requires
        call_ensures(Client::<C, L, D>::load, (), loaded),
        call_ensures(Client::<C, L, D>::forward, (&c,), run),
    ensures
        loaded is Err && loaded->Err_0 is LoadOnClient,
        run is Err && run->Err_0 is ForwardOnClient,
{
}

/// A probe yields the worker's own description and nothing else; what came instead, or
/// what broke, is reported with the address.
pub proof fn probes_yield_descriptions(
    address: &str,
    event: HandshakeEvent,
    res: Result<WorkerInfo, ClientError>,
)
    requires
        call_ensures(super::client::probe_worker, (address, event), res),
    ensures
        res is Ok <==> (event matches HandshakeEvent::Answered { response }
            && response is WorkerInfo),
        match event {
            HandshakeEvent::ConnectFailed { cause } => {
                &&& res matches Err(ClientError::Connect { address: at, cause: why })
                &&& at@ == address@
                &&& why == cause
            },
            HandshakeEvent::TransportFailed { cause } => {
                &&& res matches Err(ClientError::Transport { cause: why })
                &&& why == cause
            },
            HandshakeEvent::Answered { response } => {
                &&& response is WorkerInfo ==> res->Ok_0 == response->WorkerInfo_0
                &&& !(response is WorkerInfo) ==> {
                    &&& res matches Err(
                        ClientError::UnexpectedProbe { address: at, response: answer },
                    )
                    &&& at@ == address@
                    &&& answer == response
                }
            },
        },
{
}

/// A request travels on the lane of the session that it names, and a failure to send it
/// is reported under its summary with what broke.
pub proof fn requests_are_sent_under_their_summary(
    request: Message,
    pending: PendingRequest,
    sent: Result<Transfer, String>,
    awaiting: Result<AwaitingReply, ClientError>,
    session_id: SessionId,
    summary: String,
)
    requires
        call_ensures(PendingRequest::new, (&request,), pending),
        call_ensures(PendingRequest::after_write, (pending, sent), awaiting),
        call_ensures(Message::session_id, (&request,), session_id),
        call_ensures(Message::summary, (&request,), summary),
    ensures
        pending.session_id == session_id,
        pending.summary@ == summary@,
        awaiting is Ok <==> sent is Ok,
        sent matches Ok(written) ==> {
            &&& awaiting->Ok_0.summary@ == summary@
            &&& awaiting->Ok_0.written == written
        },
        sent matches Err(cause) ==> {
            &&& awaiting matches Err(ClientError::Sending { summary: what, cause: why })
            &&& what@ == summary@
            &&& why == cause
        },
{
}

/// An answer counts in the timing exactly when it carries a tensor, with the worker's own
/// time and the bytes and times of both ways, each on its own side.
pub proof fn answers_are_measured(
    awaiting: AwaitingReply,
    read: Result<(Transfer, Message), String>,
    total_ns: u128,
    res: Result<Reply, ClientError>,
)
    requires
        call_ensures(AwaitingReply::after_read, (awaiting, read, total_ns), res),
    ensures
        res is Ok <==> read is Ok,
        read matches Ok((transfer, message)) ==> {
            &&& res->Ok_0.message == message
            &&& res->Ok_0.sample is Some <==> message is Tensor
            &&& res->Ok_0.sample matches Some(s) ==> {
                &&& s.total_ns == total_ns
                &&& s.compute_us == message->Tensor_compute_us
                &&& s.write_ns == awaiting.written.elapsed_ns
                &&& s.write_bytes == awaiting.written.bytes
                &&& s.read_ns == transfer.elapsed_ns
                &&& s.read_bytes == transfer.bytes
            }
        },
        read matches Err(cause) ==> {
            &&& res matches Err(ClientError::Receiving { summary, cause: why })
            &&& summary@ == awaiting.summary@
            &&& why == cause
        },
{
}

/// Requests are numbered one after the other.
pub proof fn requests_are_numbered_in_order(last: u64, next: u64)
    requires
        call_ensures(super::client::next_request_number, (last,), next),
        last < u64::MAX,
    ensures
        next == last + 1,
{
}

/// A task speaks for its own session with its own sampling settings; a task that has none
/// speaks for session zero without any.
pub proof fn tasks_speak_for_their_sessions(
    scoped: Option<SessionId>,
    id: SessionId,
    settings: Option<&SamplingRequest>,
    sampling: Option<SamplingRequest>,
)
    requires
        call_ensures(super::client::current_session_id, (scoped,), id),
        call_ensures(super::client::current_sampling_request, (settings,), sampling),
    ensures
        scoped matches Some(own) ==> id == own,
        scoped is None ==> id == 0,
        sampling is Some <==> settings is Some,
        settings matches Some(own) ==> sampling->0.encoded@ == own.encoded@,
{
}

/// New lanes are none; the number and the presence of lanes are told as they are.
pub proof fn lanes_are_told_as_they_are<C>(
    fresh: SessionLanes<C>,
    lanes: SessionLanes<C>,
    id: SessionId,
    count: usize,
    there: bool,
)
    requires
        call_ensures(SessionLanes::<C>::new, (), fresh),
        call_ensures(SessionLanes::<C>::len, (&lanes,), count),
        call_ensures(SessionLanes::<C>::contains, (&lanes, id), there),
    ensures
        forall|s: SessionId| !(#[trigger] fresh@.contains_key(s)),
        count == lanes@.len(),
        there <==> lanes@.contains_key(id),
{
}

/// A pool starts out empty.
pub proof fn new_pool_is_empty<C, L, D>(pool: ClientPool<C, L, D>)
    requires
        call_ensures(ClientPool::<C, L, D>::default, (), pool),
    ensures
        forall|address: Seq<char>| !(#[trigger] pool@.contains_key(address)),
{
}

/// A connection that was made is found again for every layer at its address, under that
/// layer's name and otherwise as it was made; a failed attempt leaves the address
/// unknown. Other addresses are served as before.
pub proof fn pool_serves_every_layer_by_one_connection<C, L, D>(
    pool: &mut ClientPool<C, L, D>,
    address: &str,
    connected: Result<Client<C, L, D>, ClientError>,
    kept: Result<Client<C, L, D>, ClientError>,
    layer_name: &str,
    found: Option<Client<C, L, D>>,
)
    requires
        call_ensures(ClientPool::<C, L, D>::keep, (pool, address, connected), kept),
        call_ensures(
            ClientPool::<C, L, D>::client_for_layer,
            (final(pool), address, layer_name),
            found,
        ),
        !old(pool)@.contains_key(address@),
    ensures
        kept == connected,
        found is Some <==> connected is Ok,
        found matches Some(client) ==> {
            &&& differ_in_layer_alone(client, connected->Ok_0)
            &&& client.layer_name@ == layer_name@
        },
        forall|other: Seq<char>|
            other != address@ ==> (#[trigger] final(pool)@.contains_key(other) <==> old(pool)@.contains_key(other)),
        forall|other: Seq<char>|
            other != address@ && old(pool)@.contains_key(other) ==> #[trigger] final(pool)@[other]
                == old(pool)@[other],
{
}

/// A client is found in the pool exactly where its address is known, and is that
/// address's client under the layer's name.
pub proof fn pool_finds_known_addresses<C, L, D>(
    pool: ClientPool<C, L, D>,
    address: &str,
    layer_name: &str,
    found: Option<Client<C, L, D>>,
)
    requires
        call_ensures(
            ClientPool::<C, L, D>::client_for_layer,
            (&pool, address, layer_name),
            found,
        ),
    ensures
        found is Some <==> pool@.contains_key(address@),
        found matches Some(client) ==> {
            &&& differ_in_layer_alone(client, pool@[address@])
            &&& client.layer_name@ == layer_name@
        },
{
}

} // verus!
