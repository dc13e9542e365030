//! The master's side of a worker connection.

use std::collections::HashMap;
use std::sync::Arc;

use vstd::prelude::*;

use crate::text;

use super::client_error::ClientError;
use super::profile::RemoteSample;
use super::proto::{
    CompactBatch, CompactRangeBatch, Message, RawTensor, SamplingRequest, WorkerInfo,
};
use super::{settings, SessionId};

verus! {

broadcast use vstd::std_specs::hash::group_hash_axioms;

/// A layer-specific view over one persistent worker connection.
///
/// The model keeps one client per layer, while all layers assigned to the same
/// worker address share the connection `C` with its request sequence, the cell `L`
/// that holds the session lanes, and the device `D` that tensors arrive on.
pub struct Client<C, L, D> {
    pub device: Arc<D>,
    pub address: String,
    pub layer_name: String,
    pub info: Arc<WorkerInfo>,
    pub compact_batch: bool,
    pub compact_range_batch: bool,
    pub remote_sampling: bool,
    pub connection: Arc<C>,
    /// Extra persistent lanes used by concurrent inference sessions.
    pub session_connections: Arc<L>,
}

/// A connection that was just opened, and what is said first on it.
pub struct Opening<C> {
    pub connection: Arc<C>,
    pub hello: Message,
}

/// What is said first on every connection.
pub fn greeting() -> (res: Message)
    ensures
        res == Message::Hello,
{
    Message::Hello
}

/// A session that ends: what the worker is told, on which lane, and how long that
/// may take.
pub struct Release<C> {
    pub lane: Arc<C>,
    pub message: Message,
    pub time_limit_ms: u64,
}

/// What came of a connection attempt with its handshake.
#[derive(Debug)]
pub enum HandshakeEvent {
    /// There is no connection.
    ConnectFailed { cause: String },
    /// The connection broke during the handshake.
    TransportFailed { cause: String },
    /// The worker answered.
    Answered { response: Message },
}

/// What came of telling a worker that a session has ended.
#[derive(Debug)]
pub enum ReleaseEvent {
    SendFailed { cause: String },
    ReceiveFailed { cause: String },
    Answered { response: Message },
    TimedOut,
}

/// Which connection serves a session.
pub enum LaneChoice<C> {
    /// This one.
    Ready { connection: Arc<C> },
    /// None yet: open one and install it.
    Open,
}

/// The connections opened for single sessions, by session.
pub struct SessionLanes<C> {
    lanes: HashMap<SessionId, Arc<C>>,
}

impl<C> View for SessionLanes<C> {
    type V = Map<SessionId, Arc<C>>;

    closed spec fn view(&self) -> Map<SessionId, Arc<C>> {
        self.lanes@
    }
}

impl<C> SessionLanes<C> {
    /// Session zero has no lane: it uses the base connection.
    pub open spec fn wf(&self) -> bool {
        &&& !self@.contains_key(0)
        &&& self@.dom().finite()
    }

    /// No lane is open.
    pub fn new() -> (res: Self)
        ensures
            res.wf(),
            res@ == Map::<SessionId, Arc<C>>::empty(),
    {
        SessionLanes { lanes: HashMap::new() }
    }

    /// How many lanes are open.
    pub fn len(&self) -> (res: usize)
        ensures
            res == self@.len(),
    {
        self.lanes.len()
    }

    /// Whether `session_id` has a lane.
    pub fn contains(&self, session_id: SessionId) -> (res: bool)
        ensures
            res == self@.contains_key(session_id),
    {
        self.lanes.contains_key(&session_id)
    }
}

/// The connection that serves `session_id`: `base` for session zero, the session's
/// own lane where one is open.
pub open spec fn lane_choice<C>(
    base: Arc<C>,
    lanes: Map<SessionId, Arc<C>>,
    session_id: SessionId,
) -> LaneChoice<C> {
    if session_id == 0 {
        LaneChoice::Ready { connection: base }
    } else if lanes.contains_key(session_id) {
        LaneChoice::Ready { connection: lanes[session_id] }
    } else {
        LaneChoice::Open
    }
}

/// The lanes after `connection` was offered as the lane of `session_id`: an open
/// lane stays, a new one must fit in `limit`.
pub open spec fn lanes_with<C>(
    lanes: Map<SessionId, Arc<C>>,
    session_id: SessionId,
    connection: Arc<C>,
    limit: usize,
) -> Map<SessionId, Arc<C>> {
    if lanes.contains_key(session_id) || lanes.len() >= limit {
        lanes
    } else {
        lanes.insert(session_id, connection)
    }
}

/// A request that is about to be sent.
#[derive(Debug)]
pub struct PendingRequest {
    /// The session whose lane carries the request.
    pub session_id: SessionId,
    /// What the request is called in errors.
    pub summary: String,
}

/// A request that was sent and waits for its answer.
#[derive(Debug)]
pub struct AwaitingReply {
    pub summary: String,
    pub written: Transfer,
}

/// Bytes that crossed a connection, and how long that took.
#[derive(Debug, Clone, Copy)]
pub struct Transfer {
    pub bytes: usize,
    pub elapsed_ns: u128,
}

/// An answer, and what it adds to the timing counters.
#[derive(Debug)]
pub struct Reply {
    pub message: Message,
    pub sample: Option<RemoteSample>,
}

impl PendingRequest {
    /// Prepares `request` for sending.
    pub fn new(request: &Message) -> (res: Self)
        ensures
            res.session_id == request.spec_session_id(),
            res.summary@ == request.spec_summary(),
    {
        PendingRequest { session_id: request.session_id(), summary: request.summary() }
    }

    /// The request was written, or could not be.
    pub fn after_write(self, outcome: Result<Transfer, String>) -> (res: Result<
        AwaitingReply,
        ClientError,
    >)
        ensures
            res == match outcome {
                Ok(written) => Ok(AwaitingReply { summary: self.summary, written }),
                Err(cause) => Err(ClientError::Sending { summary: self.summary, cause }),
            },
    {
        match outcome {
            Ok(written) => Ok(AwaitingReply { summary: self.summary, written }),
            Err(cause) => Err(ClientError::Sending { summary: self.summary, cause }),
        }
    }
}

impl AwaitingReply {
    /// The answer was read, or could not be. Only an answer that carries a tensor
    /// counts in the timing.
    pub fn after_read(
        self,
        outcome: Result<(Transfer, Message), String>,
        total_ns: u128,
    ) -> (res: Result<Reply, ClientError>)
        ensures
            match outcome {
                Ok((read, message)) => {
                    &&& res is Ok
                    &&& res->Ok_0.message == message
                    &&& res->Ok_0.sample == match message {
                        Message::Tensor { compute_us, .. } => Some(
                            RemoteSample {
                                total_ns,
                                compute_us,
                                write_ns: self.written.elapsed_ns,
                                read_ns: read.elapsed_ns,
                                write_bytes: self.written.bytes,
                                read_bytes: read.bytes,
                            },
                        ),
                        _ => None,
                    }
                },
                Err(cause) => res == Err::<Reply, ClientError>(
                    ClientError::Receiving { summary: self.summary, cause },
                ),
            },
    {
        match outcome {
            Ok((read, message)) => {
                let sample = match &message {
                    Message::Tensor { compute_us, .. } => Some(
                        RemoteSample {
                            total_ns,
                            compute_us: *compute_us,
                            write_ns: self.written.elapsed_ns,
                            read_ns: read.elapsed_ns,
                            write_bytes: self.written.bytes,
                            read_bytes: read.bytes,
                        },
                    ),
                    _ => None,
                };
                Ok(Reply { message, sample })
            },
            Err(cause) => Err(ClientError::Receiving { summary: self.summary, cause }),
        }
    }
}

/// The number of the request that follows number `last` on a connection.
pub fn next_request_number(last: u64) -> (res: u64)
    requires
        last < u64::MAX,
    ensures
        res == last + 1,
{
    last + 1
}

/// The session that the running task serves, or zero where it serves none.
pub fn current_session_id(scoped: Option<SessionId>) -> (res: SessionId)
    ensures
        res == match scoped {
            Some(id) => id,
            None => 0,
        },
{
    match scoped {
        Some(id) => id,
        None => 0,
    }
}

/// A copy of the sampling settings of the running task, if it has any.
pub fn current_sampling_request(scoped: Option<&SamplingRequest>) -> (res: Option<SamplingRequest>)
    ensures
        match scoped {
            Some(sampling) => res is Some && res->0.encoded@ == sampling.encoded@,
            None => res is None,
        },
{
    match scoped {
        Some(sampling) => Some(sampling.clone()),
        None => None,
    }
}

/// Reads the answer to a topology probe. Only the worker's own description will
/// do.
pub fn probe_worker(address: &str, event: HandshakeEvent) -> (res: Result<WorkerInfo, ClientError>)
    ensures
        match event {
            HandshakeEvent::ConnectFailed { cause } => {
                &&& res matches Err(ClientError::Connect { address: at, cause: c })
                &&& at@ == address@
                &&& c == cause
            },
            HandshakeEvent::TransportFailed { cause } => res == Err::<WorkerInfo, ClientError>(
                ClientError::Transport { cause },
            ),
            HandshakeEvent::Answered { response: Message::WorkerInfo(info) } => res == Ok::<
                WorkerInfo,
                ClientError,
            >(info),
            HandshakeEvent::Answered { response } => {
                &&& res matches Err(ClientError::UnexpectedProbe { address: at, response: r })
                &&& at@ == address@
                &&& r == response
            },
        },
{
    match event {
        HandshakeEvent::ConnectFailed { cause } => Err(
            ClientError::Connect { address: address.to_owned(), cause },
        ),
        HandshakeEvent::TransportFailed { cause } => Err(ClientError::Transport { cause }),
        HandshakeEvent::Answered { response } => match response {
            Message::WorkerInfo(info) => Ok(info),
            other => Err(
                ClientError::UnexpectedProbe { address: address.to_owned(), response: other },
            ),
        },
    }
}

/// The layers of `batch` (name, position, block number) form one run: all at the
/// same position, block numbers counting up by one.
pub open spec fn is_run(batch: Seq<(String, usize, usize)>) -> bool {
    &&& batch.len() > 0
    &&& forall|i: int|
        0 <= i < batch.len() ==> (#[trigger] batch[i]).1 == batch[0].1 && batch[i].2 == batch[0].2
            + i
}

/// Whether the layers of `batch` form one run.
fn check_run(batch: &Vec<(String, usize, usize)>) -> (res: bool)
    ensures
        res == is_run(batch@),
{
    let n: usize = batch.len();
    if n == 0 {
        return false;
    }
    let index_pos: usize = batch[0].1;
    let first_block_idx: usize = batch[0].2;
    let mut i: usize = 0;
    while i < n
        invariant
            i <= n,
            n > 0,
            n == batch@.len(),
            index_pos == batch@[0].1,
            first_block_idx == batch@[0].2,
            forall|j: int|
                0 <= j < i ==> (#[trigger] batch@[j]).1 == batch@[0].1 && batch@[j].2
                    == batch@[0].2 + j,
        decreases n - i,
    {
        let block_idx: usize = batch[i].2;
        if batch[i].1 != index_pos || block_idx < first_block_idx || block_idx - first_block_idx
            != i {
            return false;
        }
        i = i + 1;
    }
    true
}

impl<C, L, D> Client<C, L, D> {
    /// A client speaks the range form of a run only where it speaks runs at all.
    pub open spec fn wf(&self) -> bool {
        self.compact_range_batch ==> self.compact_batch
    }

    /// The connection attempt to `address` succeeded, or there is no client. The
    /// worker is greeted first.
    pub fn open(address: &str, attempt: Result<Arc<C>, String>) -> (res: Result<
        Opening<C>,
        ClientError,
    >)
        ensures
            match attempt {
                Ok(connection) => res == Ok::<Opening<C>, ClientError>(
                    Opening { connection, hello: Message::Hello },
                ),
                Err(cause) => {
                    &&& res matches Err(ClientError::Connect { address: at, cause: c })
                    &&& at@ == address@
                    &&& c == cause
                },
            },
    {
        match attempt {
            Ok(connection) => Ok(Opening { connection, hello: greeting() }),
            Err(cause) => Err(ClientError::Connect { address: address.to_owned(), cause }),
        }
    }

    /// `self` is what a worker at `address` that says `info` of itself makes of a
    /// client for `layer_name`: its extensions decide what the client may send,
    /// short forms only where `compact_allowed`.
    pub open spec fn greeted_by(
        &self,
        address: Seq<char>,
        layer_name: Seq<char>,
        info: WorkerInfo,
        compact_allowed: bool,
    ) -> bool {
        &&& self.wf()
        &&& self.address@ == address
        &&& self.layer_name@ == layer_name
        &&& *self.info == info
        &&& self.compact_range_batch == (compact_allowed && info.has_capability(
            "compact_range_batch_v1"@,
        ))
        &&& self.compact_batch == (compact_allowed && (info.has_capability(
            "compact_range_batch_v1"@,
        ) || info.has_capability("compact_batch_v1"@)))
        &&& self.remote_sampling == info.has_capability("gguf_sample_token_v1"@)
    }

    /// The client after the handshake. `hello` is what came back for the opening
    /// message on `connection`, `compact_allowed` the setting that permits runs of
    /// layers to be sent in short form.
    pub fn new(
        device: Arc<D>,
        address: &str,
        layer_name: &str,
        connection: Arc<C>,
        session_connections: Arc<L>,
        hello: Result<Message, ClientError>,
        compact_allowed: bool,
    ) -> (res: Result<Self, ClientError>)
        ensures
            match hello {
                Ok(Message::WorkerInfo(info)) => {
                    &&& res matches Ok(client)
                    &&& client.greeted_by(address@, layer_name@, info, compact_allowed)
                    &&& client.device == device
                    &&& client.connection == connection
                    &&& client.session_connections == session_connections
                },
                Ok(response) => res == Err::<Self, ClientError>(
                    ClientError::UnexpectedWorkerInfo { response },
                ),
                Err(e) => res == Err::<Self, ClientError>(e),
            },
    {
        match hello {
            Ok(Message::WorkerInfo(info)) => {
                let compact_range_batch = compact_allowed && info.supports(
                    "compact_range_batch_v1",
                );
                let compact_batch = compact_allowed && (compact_range_batch || info.supports(
                    "compact_batch_v1",
                ));
                let remote_sampling = info.supports("gguf_sample_token_v1");
                Ok(
                    Client {
                        device,
                        address: address.to_owned(),
                        layer_name: layer_name.to_owned(),
                        info: Arc::new(info),
                        compact_batch,
                        compact_range_batch,
                        remote_sampling,
                        connection,
                        session_connections,
                    },
                )
            },
            Ok(response) => Err(ClientError::UnexpectedWorkerInfo { response }),
            Err(e) => Err(e),
        }
    }

    /// Whether the setting `SPM_COMPACT_BATCH`, read as `value`, permits short
    /// forms.
    pub fn compact_batch_enabled(value: Option<&str>) -> (res: bool)
        ensures
            res == settings::switch_is_on(settings::setting_chars(value)),
    {
        settings::read_switch(value)
    }

    /// Whether the setting `SPM_TRACE_TRANSFER`, read as `value`, asks for a line
    /// per transfer.
    pub fn transfer_trace_enabled(value: Option<&str>) -> (res: bool)
        ensures
            res == settings::switch_is_on(settings::setting_chars(value)),
    {
        settings::read_switch(value)
    }

    /// How many session lanes the setting `DIAL_MAX_SESSION_LANES`, read as
    /// `value`, permits.
    pub fn max_session_lanes(value: Option<&str>) -> (res: usize)
        ensures
            res == settings::count_setting(settings::setting_chars(value), 64),
    {
        settings::read_count(value, 64)
    }

    /// The line that tells which form runs of layers are sent in.
    pub fn compact_batch_mode(enabled: bool, range_enabled: bool) -> (res: &'static str)
        ensures
            res@ == if range_enabled {
                "spm compact range batch enabled by SPM_COMPACT_BATCH"@
            } else if enabled {
                "spm compact batch enabled by SPM_COMPACT_BATCH"@
            } else {
                "spm compact batch disabled; set SPM_COMPACT_BATCH=1 to test it"@
            },
    {
        if range_enabled {
            "spm compact range batch enabled by SPM_COMPACT_BATCH"
        } else if enabled {
            "spm compact batch enabled by SPM_COMPACT_BATCH"
        } else {
            "spm compact batch disabled; set SPM_COMPACT_BATCH=1 to test it"
        }
    }

    /// A one-line description of a message, without the data it carries.
    pub fn message_summary(message: &Message) -> (res: String)
        ensures
            res@ == message.spec_summary(),
    {
        message.summary()
    }

    /// Which connection serves `session_id`: the base connection for session zero,
    /// the session's own lane where one is open.
    pub fn connection_for_session(
        &self,
        lanes: &SessionLanes<C>,
        session_id: SessionId,
    ) -> (res: LaneChoice<C>)
        ensures
            res == lane_choice(self.connection, lanes@, session_id),
    {
        if session_id == 0 {
            return LaneChoice::Ready { connection: self.connection.clone() };
        }
        match lanes.lanes.get(&session_id) {
            Some(connection) => LaneChoice::Ready { connection: connection.clone() },
            None => LaneChoice::Open,
        }
    }

    /// Judges the handshake of a connection that was opened for one session.
    pub fn check_lane_handshake(&self, event: HandshakeEvent) -> (res: Result<(), ClientError>)
        ensures
            res == match event {
                HandshakeEvent::ConnectFailed { cause } => Err(
                    ClientError::OpenLane { address: self.address, cause },
                ),
                HandshakeEvent::TransportFailed { cause } => Err(ClientError::Transport { cause }),
                HandshakeEvent::Answered { response: Message::WorkerInfo(_) } => Ok(()),
                HandshakeEvent::Answered { response } => Err(
                    ClientError::UnexpectedHandshake { address: self.address, response },
                ),
            },
    {
        match event {
            HandshakeEvent::ConnectFailed { cause } => Err(
                ClientError::OpenLane { address: self.address.clone(), cause },
            ),
            HandshakeEvent::TransportFailed { cause } => Err(ClientError::Transport { cause }),
            HandshakeEvent::Answered { response } => match response {
                Message::WorkerInfo(_) => Ok(()),
                other => Err(
                    ClientError::UnexpectedHandshake {
                        address: self.address.clone(),
                        response: other,
                    },
                ),
            },
        }
    }

    /// Installs a freshly opened connection as the lane of `session_id`. A lane
    /// that another task installed meanwhile wins; a new one must fit in `limit`.
    pub fn install_lane(
        &self,
        lanes: &mut SessionLanes<C>,
        session_id: SessionId,
        connection: Arc<C>,
        limit: usize,
    ) -> (res: Result<Arc<C>, ClientError>)
        requires
            session_id != 0,
            old(lanes).wf(),
        ensures
            final(lanes).wf(),
            final(lanes)@ == lanes_with(old(lanes)@, session_id, connection, limit),
            res == if old(lanes)@.contains_key(session_id) {
                Ok(old(lanes)@[session_id])
            } else if old(lanes)@.len() >= limit {
                Err(
                    ClientError::LaneLimit {
                        address: self.address,
                        active: old(lanes)@.len() as usize,
                        limit,
                    },
                )
            } else {
                Ok(connection)
            },
    {
        let existing: Option<Arc<C>> = match lanes.lanes.get(&session_id) {
            Some(connection) => Some(connection.clone()),
            None => None,
        };
        if let Some(connection) = existing {
            return Ok(connection);
        }
        let active: usize = lanes.lanes.len();
        if active >= limit {
            return Err(ClientError::LaneLimit { address: self.address.clone(), active, limit });
        }
        lanes.lanes.insert(session_id, connection.clone());
        Ok(connection)
    }

    /// Takes the lane of a session that ends out of use, so that the worker can be
    /// told over it. Session zero and sessions without a lane have nothing to end.
    pub fn begin_release(lanes: &mut SessionLanes<C>, session_id: SessionId) -> (res: Option<
        Release<C>,
    >)
        requires
            old(lanes).wf(),
        ensures
            final(lanes).wf(),
            final(lanes)@ == old(lanes)@.remove(session_id),
            res == if old(lanes)@.contains_key(session_id) {
                Some(
                    Release {
                        lane: old(lanes)@[session_id],
                        message: Message::ReleaseSession { session_id },
                        time_limit_ms: 2000,
                    },
                )
            } else {
                None
            },
    {
        if session_id == 0 {
            assert(lanes@ =~= lanes@.remove(session_id));
            return None;
        }
        match lanes.lanes.remove(&session_id) {
            Some(lane) => Some(
                Release {
                    lane,
                    message: Message::ReleaseSession { session_id },
                    time_limit_ms: 2000,
                },
            ),
            None => None,
        }
    }

    /// Judges what came of telling the worker that `session_id` has ended: the
    /// worker must name that very session in its answer.
    pub fn release_session(&self, session_id: SessionId, event: ReleaseEvent) -> (res: Result<
        (),
        ClientError,
    >)
        ensures
            res == match event {
                ReleaseEvent::SendFailed { cause } => Err(
                    ClientError::SendRelease { session_id, address: self.address, cause },
                ),
                ReleaseEvent::ReceiveFailed { cause } => Err(
                    ClientError::ReceiveRelease { session_id, address: self.address, cause },
                ),
                ReleaseEvent::TimedOut => Err(
                    ClientError::ReleaseTimeout { session_id, address: self.address },
                ),
                ReleaseEvent::Answered { response } => {
                    if response == (Message::ReleaseSession { session_id }) {
                        Ok(())
                    } else {
                        Err(ClientError::UnexpectedRelease { address: self.address, response })
                    }
                },
            },
    {
        match event {
            ReleaseEvent::SendFailed { cause } => Err(
                ClientError::SendRelease { session_id, address: self.address.clone(), cause },
            ),
            ReleaseEvent::ReceiveFailed { cause } => Err(
                ClientError::ReceiveRelease { session_id, address: self.address.clone(), cause },
            ),
            ReleaseEvent::TimedOut => Err(
                ClientError::ReleaseTimeout { session_id, address: self.address.clone() },
            ),
            ReleaseEvent::Answered { response } => {
                let named: Option<SessionId> = match &response {
                    Message::ReleaseSession { session_id: ack_id } => Some(*ack_id),
                    _ => None,
                };
                match named {
                    Some(ack_id) if ack_id == session_id => Ok(()),
                    _ => Err(
                        ClientError::UnexpectedRelease {
                            address: self.address.clone(),
                            response,
                        },
                    ),
                }
            },
        }
    }

    /// The tensor in the answer to a request, or why there is none.
    pub fn forward_request(response: Message) -> (res: Result<RawTensor, ClientError>)
        ensures
            res == match response {
                Message::Tensor { x, .. } => Ok(x),
                Message::Error { message } => Err(ClientError::Worker { message }),
                other => Err(ClientError::UnexpectedResponse { response: other }),
            },
    {
        match response {
            Message::Tensor { x, .. } => Ok(x),
            Message::Error { message } => Err(ClientError::Worker { message }),
            other => Err(ClientError::UnexpectedResponse { response: other }),
        }
    }

    /// The sampling settings that a request carries: those of the running task,
    /// and only to a worker that samples.
    pub open spec fn sent_sampling(&self, sampling: Option<SamplingRequest>) -> Option<
        SamplingRequest,
    > {
        if self.remote_sampling {
            sampling
        } else {
            None
        }
    }

    /// The message for a batch of layers: the shortest form that the worker
    /// understands.
    pub open spec fn batch_message(
        &self,
        session_id: SessionId,
        x: RawTensor,
        batch: Vec<(String, usize, usize)>,
        sampling: Option<SamplingRequest>,
    ) -> Message {
        if self.compact_batch && is_run(batch@) {
            if self.compact_range_batch {
                Message::CompactRangeBatch {
                    session_id,
                    x,
                    batch: CompactRangeBatch {
                        index_pos: batch@[0].1,
                        first_block_idx: batch@[0].2,
                        num_layers: batch@.len() as usize,
                    },
                    sampling,
                }
            } else {
                Message::CompactBatch {
                    session_id,
                    x,
                    batch: CompactBatch {
                        first_layer_name: batch@[0].0,
                        index_pos: batch@[0].1,
                        first_block_idx: batch@[0].2,
                        num_layers: batch@.len() as usize,
                    },
                    sampling,
                }
            }
        } else {
            Message::Batch { session_id, x, batch, sampling }
        }
    }

    /// The request that runs this client's layer on `x`.
    pub fn forward_mut(
        &self,
        session_id: SessionId,
        x: RawTensor,
        index_pos: usize,
        block_idx: usize,
        sampling: Option<SamplingRequest>,
    ) -> (res: Message)
        ensures
            res == (Message::SingleOp {
                session_id,
                layer_name: self.layer_name,
                x,
                index_pos,
                block_idx,
                sampling: self.sent_sampling(sampling),
            }),
    {
        Message::SingleOp {
            session_id,
            layer_name: self.layer_name.clone(),
            x,
            index_pos,
            block_idx,
            sampling: if self.remote_sampling {
                sampling
            } else {
                None
            },
        }
    }

    /// The request that runs all layers of `batch` on `x` in one round trip.
    pub fn forward_batch(
        &self,
        session_id: SessionId,
        x: RawTensor,
        batch: Vec<(String, usize, usize)>,
        sampling: Option<SamplingRequest>,
    ) -> (res: Message)
        ensures
            res == self.batch_message(session_id, x, batch, self.sent_sampling(sampling)),
    {
        let sampling = if self.remote_sampling {
            sampling
        } else {
            None
        };
        if self.compact_batch && check_run(&batch) {
            let index_pos: usize = batch[0].1;
            let first_block_idx: usize = batch[0].2;
            let num_layers: usize = batch.len();
            if self.compact_range_batch {
                return Message::CompactRangeBatch {
                    session_id,
                    x,
                    batch: CompactRangeBatch { index_pos, first_block_idx, num_layers },
                    sampling,
                };
            }
            let first_layer_name = batch[0].0.clone();
            return Message::CompactBatch {
                session_id,
                x,
                batch: CompactBatch { first_layer_name, index_pos, first_block_idx, num_layers },
                sampling,
            };
        }
        Message::Batch { session_id, x, batch, sampling }
    }

    /// A client loads no layers.
    pub fn load() -> (res: Result<Self, ClientError>)
        ensures
            res == Err::<Self, ClientError>(ClientError::LoadOnClient),
    {
        Err(ClientError::LoadOnClient)
    }

    /// A client runs no layer in place.
    pub fn forward(&self) -> (res: Result<RawTensor, ClientError>)
        ensures
            res == Err::<RawTensor, ClientError>(ClientError::ForwardOnClient),
    {
        Err(ClientError::ForwardOnClient)
    }

    /// Whether the worker samples by itself.
    pub fn requires_remote_sampling(&self) -> (res: bool)
        ensures
            res == self.remote_sampling,
    {
        self.remote_sampling
    }

    /// The worker's address, which identifies the client.
    pub fn ident(&self) -> (res: &str)
        ensures
            res@ == self.address@,
    {
        self.address.as_str()
    }

    /// The layer that this client stands for.
    pub fn layer_name(&self) -> (res: &str)
        ensures
            res@ == self.layer_name@,
    {
        self.layer_name.as_str()
    }

    /// Layer, address and worker in one line.
    pub open spec fn spec_text(&self) -> Seq<char> {
        self.layer_name@ + "@"@ + self.address@ + " ["@ + self.info.device@ + "<"@ + text::decimal(
            self.info.device_idx as nat,
        ) + "> "@ + self.info.os@ + "-"@ + self.info.arch@ + " latency="@ + text::decimal(
            self.info.latency as nat,
        ) + "ms]"@
    }

    /// Layer, address and worker in one line.
    pub fn to_string(&self) -> (res: String)
        ensures
            res@ == self.spec_text(),
    {
        let device_idx = text::decimal_text(self.info.device_idx as u128);
        let latency = text::decimal_text(self.info.latency);
        let mut s = self.layer_name.clone();
        s.append("@");
        s.append(self.address.as_str());
        s.append(" [");
        s.append(self.info.device.as_str());
        s.append("<");
        s.append(device_idx.as_str());
        s.append("> ");
        s.append(self.info.os.as_str());
        s.append("-");
        s.append(self.info.arch.as_str());
        s.append(" latency=");
        s.append(latency.as_str());
        s.append("ms]");
        s
    }

    /// `self` is the view of `base` for the layer `layer_name`: the same worker,
    /// device, connection, session lanes and abilities.
    pub open spec fn is_view_of(&self, base: &Self, layer_name: Seq<char>) -> bool {
        &&& self.device == base.device
        &&& self.address == base.address
        &&& self.layer_name@ == layer_name
        &&& self.info == base.info
        &&& self.compact_batch == base.compact_batch
        &&& self.compact_range_batch == base.compact_range_batch
        &&& self.remote_sampling == base.remote_sampling
        &&& self.connection == base.connection
        &&& self.session_connections == base.session_connections
    }

    /// Create a layer view which reuses this client's persistent connection.
    pub fn for_layer(&self, layer_name: &str) -> (res: Self)
        ensures
            res.is_view_of(self, layer_name@),
    {
        Client { layer_name: layer_name.to_owned(), ..self.clone() }
    }
}

impl<C, L, D> Clone for Client<C, L, D> {
    fn clone(&self) -> (res: Self)
        ensures
            res == *self,
    {
        Client {
            device: self.device.clone(),
            address: self.address.clone(),
            layer_name: self.layer_name.clone(),
            info: self.info.clone(),
            compact_batch: self.compact_batch,
            compact_range_batch: self.compact_range_batch,
            remote_sampling: self.remote_sampling,
            connection: self.connection.clone(),
            session_connections: self.session_connections.clone(),
        }
    }
}

/// The clients of a pool by address, after a client for `address` was asked for and
/// `connected` is what came of connecting, where that was needed: the first
/// connection to an address stays, and a failed attempt changes nothing.
pub open spec fn pool_after<C, L, D>(
    pool: Map<Seq<char>, Client<C, L, D>>,
    address: Seq<char>,
    connected: Result<Client<C, L, D>, ClientError>,
) -> Map<Seq<char>, Client<C, L, D>> {
    if pool.contains_key(address) {
        pool
    } else {
        match connected {
            Ok(client) => pool.insert(address, client),
            Err(_) => pool,
        }
    }
}

/// Reuses one persistent connection for every layer assigned to a worker
/// address. A model owns one pool, so separate master processes still get
/// independent connections and sessions on the worker.
#[verifier::reject_recursive_types(C)]
#[verifier::reject_recursive_types(L)]
#[verifier::reject_recursive_types(D)]
pub struct ClientPool<C, L, D> {
    clients_by_address: vstd::hash_map::StringHashMap<Client<C, L, D>>,
}

impl<C, L, D> View for ClientPool<C, L, D> {
    type V = Map<Seq<char>, Client<C, L, D>>;

    closed spec fn view(&self) -> Map<Seq<char>, Client<C, L, D>> {
        self.clients_by_address@
    }
}

impl<C, L, D> Default for ClientPool<C, L, D> {
    fn default() -> (res: Self)
        ensures
            res@ == Map::<Seq<char>, Client<C, L, D>>::empty(),
    {
        ClientPool { clients_by_address: vstd::hash_map::StringHashMap::new() }
    }
}

impl<C, L, D> ClientPool<C, L, D> {
    /// The client for `layer_name` at `address` over the connection that is open
    /// already, or `None` where the worker is not connected yet.
    pub fn client_for_layer(&self, address: &str, layer_name: &str) -> (res: Option<
        Client<C, L, D>,
    >)
        ensures
            match res {
                Some(client) => {
                    &&& self@.contains_key(address@)
                    &&& client.is_view_of(&self@[address@], layer_name@)
                },
                None => !self@.contains_key(address@),
            },
    {
        match self.clients_by_address.get(address) {
            Some(client) => Some(client.for_layer(layer_name)),
            None => None,
        }
    }

    /// Takes what came of connecting to `address`, which the pool had no client
    /// for. A connected client is kept for the other layers there and handed back;
    /// a failure is passed on and changes nothing.
    pub fn keep(&mut self, address: &str, connected: Result<Client<C, L, D>, ClientError>) -> (res:
        Result<Client<C, L, D>, ClientError>)
        requires
            !old(self)@.contains_key(address@),
        ensures
            res == connected,
            final(self)@ == pool_after(old(self)@, address@, connected),
    {
        match connected {
            Ok(client) => {
                self.clients_by_address.insert(address.to_owned(), client.clone());
                Ok(client)
            },
            Err(e) => Err(e),
        }
    }
}

} // verus!
