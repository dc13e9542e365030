//! The messages that a master and its workers exchange.

use vstd::prelude::*;

use crate::text;

use super::SessionId;

verus! {

/// The element types of tensors.
#[derive(Debug, Clone, Copy, PartialEq, Eq, Structural)]
pub enum DType {
    U8,
    U32,
    I16,
    I32,
    I64,
    BF16,
    F16,
    F32,
    F64,
    F8E4M3,
    F6E2M3,
    F6E3M2,
    F4,
    F8E8M0,
}

impl DType {
    /// The name of the type, in capitals.
    pub open spec fn spec_name(self) -> Seq<char> {
        match self {
            DType::U8 => "U8"@,
            DType::U32 => "U32"@,
            DType::I16 => "I16"@,
            DType::I32 => "I32"@,
            DType::I64 => "I64"@,
            DType::BF16 => "BF16"@,
            DType::F16 => "F16"@,
            DType::F32 => "F32"@,
            DType::F64 => "F64"@,
            DType::F8E4M3 => "F8E4M3"@,
            DType::F6E2M3 => "F6E2M3"@,
            DType::F6E3M2 => "F6E3M2"@,
            DType::F4 => "F4"@,
            DType::F8E8M0 => "F8E8M0"@,
        }
    }

    /// The name of the type, in capitals.
    pub fn name(self) -> (res: &'static str)
        ensures
            res@ == self.spec_name(),
    {
        match self {
            DType::U8 => "U8",
            DType::U32 => "U32",
            DType::I16 => "I16",
            DType::I32 => "I32",
            DType::I64 => "I64",
            DType::BF16 => "BF16",
            DType::F16 => "F16",
            DType::F32 => "F32",
            DType::F64 => "F64",
            DType::F8E4M3 => "F8E4M3",
            DType::F6E2M3 => "F6E2M3",
            DType::F6E3M2 => "F6E3M2",
            DType::F4 => "F4",
            DType::F8E8M0 => "F8E8M0",
        }
    }
}

/// A tensor as it travels: its bytes and what they mean.
#[derive(Debug)]
pub struct RawTensor {
    pub data: Vec<u8>,
    pub dtype: DType,
    pub shape: Vec<usize>,
}

/// Sampling settings that travel with a request to a worker that samples by
/// itself. They are carried in encoded form and never looked into here.
#[derive(Debug)]
pub struct SamplingRequest {
    pub encoded: Vec<u8>,
}

impl Clone for SamplingRequest {
    fn clone(&self) -> (res: Self)
        ensures
            res.encoded@ == self.encoded@,
    {
        let mut encoded: Vec<u8> = Vec::new();
        let n: usize = self.encoded.len();
        let mut i: usize = 0;
        while i < n
            invariant
                i <= n,
                n == self.encoded@.len(),
                encoded@ == self.encoded@.take(i as int),
            decreases n - i,
        {
            encoded.push(self.encoded[i]);
            i = i + 1;
            assert(self.encoded@.take(i as int) =~= self.encoded@.take(i - 1).push(
                self.encoded@[i - 1],
            ));
        }
        assert(self.encoded@.take(n as int) =~= self.encoded@);
        SamplingRequest { encoded }
    }
}

/// A floating-point number as the shortest decimal text that reads back as the same
/// number, `25.0` for example. It is carried along and never computed with.
#[derive(Debug)]
pub struct FloatText {
    pub text: String,
}

/// What a worker says of itself in the handshake.
#[derive(Debug)]
pub struct WorkerInfo {
    pub version: String,
    pub dtype: String,
    pub os: String,
    pub arch: String,
    pub device: String,
    pub device_idx: usize,
    /// Round trip of the handshake, in milliseconds.
    pub latency: u128,
    pub cpu_usage_percent: Option<FloatText>,
    pub memory_usage_percent: Option<FloatText>,
    pub npu_usage_percent: Option<FloatText>,
    pub temperature_c: Option<FloatText>,
    pub system_model: Option<String>,
    /// The names of the protocol extensions that the worker understands.
    pub capabilities: Vec<String>,
}

impl WorkerInfo {
    /// The worker names the extension `capability`.
    pub open spec fn has_capability(&self, capability: Seq<char>) -> bool {
        exists|i: int|
            0 <= i < self.capabilities@.len() && #[trigger] self.capabilities@[i]@ == capability
    }

    /// Whether the worker understands the extension `capability`.
    pub fn supports(&self, capability: &str) -> (res: bool)
        ensures
            res == self.has_capability(capability@),
    {
        let n: usize = self.capabilities.len();
        let mut i: usize = 0;
        while i < n
            invariant
                i <= n,
                n == self.capabilities@.len(),
                forall|j: int| 0 <= j < i ==> #[trigger] self.capabilities@[j]@ != capability@,
            decreases n - i,
        {
            if text::same_text(self.capabilities[i].as_str(), capability) {
                return true;
            }
            i = i + 1;
        }
        false
    }
}

impl Default for WorkerInfo {
    fn default() -> (res: Self)
        ensures
            res.version@ == Seq::<char>::empty(),
            res.dtype@ == Seq::<char>::empty(),
            res.os@ == Seq::<char>::empty(),
            res.arch@ == Seq::<char>::empty(),
            res.device@ == Seq::<char>::empty(),
            res.device_idx == 0,
            res.latency == 0,
            res.cpu_usage_percent is None,
            res.memory_usage_percent is None,
            res.npu_usage_percent is None,
            res.temperature_c is None,
            res.system_model is None,
            res.capabilities@ == Seq::<String>::empty(),
    {
        WorkerInfo {
            version: String::new(),
            dtype: String::new(),
            os: String::new(),
            arch: String::new(),
            device: String::new(),
            device_idx: 0,
            latency: 0,
            cpu_usage_percent: None,
            memory_usage_percent: None,
            npu_usage_percent: None,
            temperature_c: None,
            system_model: None,
            capabilities: Vec::new(),
        }
    }
}

/// A run of consecutive layers at one position, named by its first layer.
#[derive(Debug)]
pub struct CompactBatch {
    pub first_layer_name: String,
    pub index_pos: usize,
    pub first_block_idx: usize,
    pub num_layers: usize,
}

/// A run of consecutive layers at one position, named by block numbers alone.
#[derive(Debug)]
pub struct CompactRangeBatch {
    pub index_pos: usize,
    pub first_block_idx: usize,
    pub num_layers: usize,
}

/// A message between a master and a worker.
#[allow(inconsistent_fields)]
#[derive(Debug)]
pub enum Message {
    /// Opens a connection.
    Hello,
    /// Answers `Hello`.
    WorkerInfo(WorkerInfo),
    /// Ends a session, and acknowledges that end.
    ReleaseSession { session_id: SessionId },
    /// Runs one layer.
    SingleOp {
        session_id: SessionId,
        layer_name: String,
        x: RawTensor,
        index_pos: usize,
        block_idx: usize,
        sampling: Option<SamplingRequest>,
    },
    /// Runs the named layers in order: layer name, position, block number.
    Batch {
        session_id: SessionId,
        x: RawTensor,
        batch: Vec<(String, usize, usize)>,
        sampling: Option<SamplingRequest>,
    },
    /// Runs a run of layers, named by the first.
    CompactBatch {
        session_id: SessionId,
        x: RawTensor,
        batch: CompactBatch,
        sampling: Option<SamplingRequest>,
    },
    /// Runs a run of layers, named by block numbers.
    CompactRangeBatch {
        session_id: SessionId,
        x: RawTensor,
        batch: CompactRangeBatch,
        sampling: Option<SamplingRequest>,
    },
    /// The result of a run, with the time the worker computed.
    Tensor { x: RawTensor, compute_us: u64 },
    /// The run failed.
    Error { message: String },
}

/// `true` or `false`.
pub open spec fn flag_chars(flag: bool) -> Seq<char> {
    if flag {
        "true"@
    } else {
        "false"@
    }
}

/// The numbers of `dims` as texts.
pub open spec fn dims_parts(dims: Seq<usize>) -> Seq<Seq<char>> {
    Seq::new(dims.len(), |i: int| text::decimal(dims[i] as nat))
}

/// A count of microseconds as milliseconds with three decimals.
pub open spec fn millis_chars(us: nat) -> Seq<char> {
    text::decimal(us / 1000) + "."@ + seq![
        text::digit(us / 100),
        text::digit(us / 10),
        text::digit(us),
    ]
}

impl RawTensor {
    /// Shape and element type, as they end a summary.
    pub open spec fn spec_describe(&self) -> Seq<char> {
        " shape=["@ + text::comma_separated(dims_parts(self.shape@)) + "] dtype="@ + self.dtype.spec_name()
    }
}

impl Message {
    /// The session whose lane carries the message. Messages that belong to no
    /// session travel on the base connection, session zero.
    pub open spec fn spec_session_id(&self) -> SessionId {
        match self {
            Message::SingleOp { session_id, .. } => *session_id,
            Message::Batch { session_id, .. } => *session_id,
            Message::CompactBatch { session_id, .. } => *session_id,
            Message::CompactRangeBatch { session_id, .. } => *session_id,
            _ => 0,
        }
    }

    /// A one-line description: the kind, the addressing fields, and for a tensor
    /// its shape and type, never its data.
    pub open spec fn spec_summary(&self) -> Seq<char> {
        match self {
            Message::Hello => "hello"@,
            Message::WorkerInfo(_) => "worker_info"@,
            Message::ReleaseSession { session_id } => "release_session session="@ + text::decimal(
                *session_id as nat,
            ),
            Message::SingleOp { session_id, layer_name, x, index_pos, block_idx, sampling } => {
                "single session="@ + text::decimal(*session_id as nat) + " layer="@ + layer_name@
                    + " index_pos="@ + text::decimal(*index_pos as nat) + " block_idx="@
                    + text::decimal(*block_idx as nat) + " sampling="@ + flag_chars(sampling is Some)
                    + x.spec_describe()
            },
            Message::Batch { session_id, x, batch, sampling } => {
                let first = if batch@.len() > 0 {
                    batch@[0].0@
                } else {
                    "-"@
                };
                let last = if batch@.len() > 0 {
                    batch@.last().0@
                } else {
                    "-"@
                };
                "batch session="@ + text::decimal(*session_id as nat) + " ops="@ + text::decimal(
                    batch@.len(),
                ) + " first="@ + first + " last="@ + last + " sampling="@ + flag_chars(
                    sampling is Some,
                ) + x.spec_describe()
            },
            Message::CompactBatch { session_id, x, batch, sampling } => {
                "compact_batch session="@ + text::decimal(*session_id as nat) + " ops="@
                    + text::decimal(batch.num_layers as nat) + " first="@
                    + batch.first_layer_name@ + " index_pos="@ + text::decimal(
                    batch.index_pos as nat,
                ) + " block_idx="@ + text::decimal(batch.first_block_idx as nat) + " sampling="@
                    + flag_chars(sampling is Some) + x.spec_describe()
            },
            Message::CompactRangeBatch { session_id, x, batch, sampling } => {
                "compact_range_batch session="@ + text::decimal(*session_id as nat) + " ops="@
                    + text::decimal(batch.num_layers as nat) + " index_pos="@ + text::decimal(
                    batch.index_pos as nat,
                ) + " block_idx="@ + text::decimal(batch.first_block_idx as nat) + " sampling="@
                    + flag_chars(sampling is Some) + x.spec_describe()
            },
            Message::Tensor { x, compute_us } => {
                "tensor"@ + x.spec_describe() + " compute="@ + millis_chars(*compute_us as nat)
                    + "ms"@
            },
            Message::Error { message } => "error "@ + message@,
        }
    }

    /// The session whose lane carries the message.
    pub fn session_id(&self) -> (res: SessionId)
        ensures
            res == self.spec_session_id(),
    {
        match self {
            Message::SingleOp { session_id, .. } => *session_id,
            Message::Batch { session_id, .. } => *session_id,
            Message::CompactBatch { session_id, .. } => *session_id,
            Message::CompactRangeBatch { session_id, .. } => *session_id,
            _ => 0,
        }
    }

    /// A one-line description of the message, without the data it carries.
    pub fn summary(&self) -> (res: String)
        ensures
            res@ == self.spec_summary(),
    {
        match self {
            Message::Hello => "hello".to_owned(),
            Message::WorkerInfo(_) => "worker_info".to_owned(),
            Message::ReleaseSession { session_id } => {
                let mut s = "release_session session=".to_owned();
                append_number(&mut s, *session_id as u128);
                s
            },
            Message::SingleOp { session_id, layer_name, x, index_pos, block_idx, sampling } => {
                let mut s = "single session=".to_owned();
                append_number(&mut s, *session_id as u128);
                s.append(" layer=");
                s.append(layer_name.as_str());
                s.append(" index_pos=");
                append_number(&mut s, *index_pos as u128);
                s.append(" block_idx=");
                append_number(&mut s, *block_idx as u128);
                append_tail(&mut s, sampling.is_some(), x);
                s
            },
            Message::Batch { session_id, x, batch, sampling } => {
                let n: usize = batch.len();
                let mut s = "batch session=".to_owned();
                append_number(&mut s, *session_id as u128);
                s.append(" ops=");
                append_number(&mut s, n as u128);
                s.append(" first=");
                if n > 0 {
                    s.append(batch[0].0.as_str());
                } else {
                    s.append("-");
                }
                s.append(" last=");
                if n > 0 {
                    s.append(batch[n - 1].0.as_str());
                } else {
                    s.append("-");
                }
                append_tail(&mut s, sampling.is_some(), x);
                s
            },
            Message::CompactBatch { session_id, x, batch, sampling } => {
                let mut s = "compact_batch session=".to_owned();
                append_number(&mut s, *session_id as u128);
                s.append(" ops=");
                append_number(&mut s, batch.num_layers as u128);
                s.append(" first=");
                s.append(batch.first_layer_name.as_str());
                s.append(" index_pos=");
                append_number(&mut s, batch.index_pos as u128);
                s.append(" block_idx=");
                append_number(&mut s, batch.first_block_idx as u128);
                append_tail(&mut s, sampling.is_some(), x);
                s
            },
            Message::CompactRangeBatch { session_id, x, batch, sampling } => {
                let mut s = "compact_range_batch session=".to_owned();
                append_number(&mut s, *session_id as u128);
                s.append(" ops=");
                append_number(&mut s, batch.num_layers as u128);
                s.append(" index_pos=");
                append_number(&mut s, batch.index_pos as u128);
                s.append(" block_idx=");
                append_number(&mut s, batch.first_block_idx as u128);
                append_tail(&mut s, sampling.is_some(), x);
                s
            },
            Message::Tensor { x, compute_us } => {
                let mut s = "tensor".to_owned();
                append_tensor(&mut s, x);
                s.append(" compute=");
                let millis = millis_text(*compute_us);
                s.append(millis.as_str());
                s.append("ms");
                s
            },
            Message::Error { message } => {
                let mut s = "error ".to_owned();
                s.append(message.as_str());
                s
            },
        }
    }
}

/// Appends `n` in decimal.
pub(crate) fn append_number(s: &mut String, n: u128)
    ensures
        final(s)@ == old(s)@ + text::decimal(n as nat),
{
    let digits = text::decimal_text(n);
    s.append(digits.as_str());
}

/// Appends the numbers of `dims` with a comma and a space between them.
pub(crate) fn append_dims(s: &mut String, dims: &Vec<usize>)
    ensures
        final(s)@ == old(s)@ + text::comma_separated(dims_parts(dims@)),
{
    let ghost before = s@;
    let ghost parts = dims_parts(dims@);
    let n: usize = dims.len();
    let mut i: usize = 0;
    assert(s@ =~= before + text::comma_separated(parts.take(0)));
    while i < n
        invariant
            i <= n,
            n == dims@.len(),
            parts == dims_parts(dims@),
            s@ == before + text::comma_separated(parts.take(i as int)),
        decreases n - i,
    {
        let part = text::decimal_text(dims[i] as u128);
        text::append_part(s, part.as_str(), Ghost(before), Ghost(parts.take(i as int)), i == 0);
        assert(parts.take(i + 1) =~= parts.take(i as int).push(part@));
        i = i + 1;
    }
    assert(parts.take(n as int) =~= parts);
}

/// Renders microseconds as milliseconds with three decimals.
fn millis_text(us: u64) -> (res: String)
    ensures
        res@ == millis_chars(us as nat),
{
    let mut s = text::decimal_text((us / 1000) as u128);
    s.append(".");
    let hundreds = text::decimal_text((us / 100 % 10) as u128);
    let tens = text::decimal_text((us / 10 % 10) as u128);
    let ones = text::decimal_text((us % 10) as u128);
    let ghost whole = s@;
    s.append(hundreds.as_str());
    s.append(tens.as_str());
    s.append(ones.as_str());
    assert(s@ =~= whole + seq![
        text::digit(us as nat / 100),
        text::digit(us as nat / 10),
        text::digit(us as nat),
    ]);
    s
}

/// Appends shape and element type of `x`.
fn append_tensor(s: &mut String, x: &RawTensor)
    ensures
        final(s)@ == old(s)@ + x.spec_describe(),
{
    let ghost before = s@;
    s.append(" shape=[");
    append_dims(s, &x.shape);
    s.append("] dtype=");
    s.append(x.dtype.name());
    assert(s@ =~= before + x.spec_describe());
}

/// Appends whether sampling settings travel along, then the tensor.
fn append_tail(s: &mut String, sampling: bool, x: &RawTensor)
    ensures
        final(s)@ == old(s)@ + " sampling="@ + flag_chars(sampling) + x.spec_describe(),
{
    s.append(" sampling=");
    s.append(
        if sampling {
            "true"
        } else {
            "false"
        },
    );
    append_tensor(s, x);
}

} // verus!
