//! The debug form of messages, as errors show a message that nobody expected.
//!
//! It is the form that `std::fmt::Debug` derives: names, fields in braces, lists in
//! brackets, texts in quotation marks.

use vstd::prelude::*;

use crate::text;

use super::proto;
use super::proto::{
    CompactBatch, CompactRangeBatch, FloatText, Message, RawTensor, SamplingRequest, WorkerInfo,
};

verus! {

/// The bytes of `data` as numbers.
pub open spec fn byte_parts(data: Seq<u8>) -> Seq<Seq<char>> {
    Seq::new(data.len(), |i: int| text::decimal(data[i] as nat))
}

/// The debug form of a layer in a batch.
pub open spec fn layer_debug(layer: (String, usize, usize)) -> Seq<char> {
    "("@ + text::quoted(layer.0@) + ", "@ + text::decimal(layer.1 as nat) + ", "@ + text::decimal(
        layer.2 as nat,
    ) + ")"@
}

/// The debug forms of the layers of a batch.
pub open spec fn layer_parts(batch: Seq<(String, usize, usize)>) -> Seq<Seq<char>> {
    Seq::new(batch.len(), |i: int| layer_debug(batch[i]))
}

/// The debug form of an optional number.
pub open spec fn float_debug(number: Option<FloatText>) -> Seq<char> {
    match number {
        Some(n) => "Some("@ + n.text@ + ")"@,
        None => "None"@,
    }
}

/// The debug form of an optional text.
pub open spec fn text_debug(value: Option<String>) -> Seq<char> {
    match value {
        Some(t) => "Some("@ + text::quoted(t@) + ")"@,
        None => "None"@,
    }
}

/// The debug form of optional sampling settings.
pub open spec fn sampling_debug(sampling: Option<SamplingRequest>) -> Seq<char> {
    match sampling {
        Some(s) => "Some(SamplingRequest { encoded: ["@ + text::comma_separated(
            byte_parts(s.encoded@),
        ) + "] })"@,
        None => "None"@,
    }
}

impl RawTensor {
    /// The debug form.
    pub open spec fn spec_debug(&self) -> Seq<char> {
        "RawTensor { data: ["@ + text::comma_separated(byte_parts(self.data@)) + "], dtype: "@
            + self.dtype.spec_name() + ", shape: ["@ + text::comma_separated(
            proto::dims_parts(self.shape@),
        ) + "] }"@
    }
}

impl WorkerInfo {
    /// The debug form. The extensions are no part of it.
    pub open spec fn spec_debug(&self) -> Seq<char> {
        "WorkerInfo { version: "@ + text::quoted(self.version@) + ", dtype: "@ + text::quoted(
            self.dtype@,
        ) + ", os: "@ + text::quoted(self.os@) + ", arch: "@ + text::quoted(self.arch@)
            + ", device: "@ + text::quoted(self.device@) + ", device_idx: "@ + text::decimal(
            self.device_idx as nat,
        ) + ", latency: "@ + text::decimal(self.latency as nat) + ", cpu_usage_percent: "@
            + float_debug(self.cpu_usage_percent) + ", memory_usage_percent: "@ + float_debug(
            self.memory_usage_percent,
        ) + ", npu_usage_percent: "@ + float_debug(self.npu_usage_percent) + ", temperature_c: "@
            + float_debug(self.temperature_c) + ", system_model: "@ + text_debug(self.system_model)
            + " }"@
    }
}

impl CompactBatch {
    /// The debug form.
    pub open spec fn spec_debug(&self) -> Seq<char> {
        "CompactBatch { first_layer_name: "@ + text::quoted(self.first_layer_name@)
            + ", index_pos: "@ + text::decimal(self.index_pos as nat) + ", first_block_idx: "@
            + text::decimal(self.first_block_idx as nat) + ", num_layers: "@ + text::decimal(
            self.num_layers as nat,
        ) + " }"@
    }
}

impl CompactRangeBatch {
    /// The debug form.
    pub open spec fn spec_debug(&self) -> Seq<char> {
        "CompactRangeBatch { index_pos: "@ + text::decimal(self.index_pos as nat)
            + ", first_block_idx: "@ + text::decimal(self.first_block_idx as nat)
            + ", num_layers: "@ + text::decimal(self.num_layers as nat) + " }"@
    }
}

impl Message {
    /// The debug form.
    pub open spec fn spec_debug(&self) -> Seq<char> {
        match self {
            Message::Hello => "Hello"@,
            Message::WorkerInfo(info) => "WorkerInfo("@ + info.spec_debug() + ")"@,
            Message::ReleaseSession { session_id } => "ReleaseSession { session_id: "@
                + text::decimal(*session_id as nat) + " }"@,
            Message::SingleOp { session_id, layer_name, x, index_pos, block_idx, sampling } => {
                "SingleOp { session_id: "@ + text::decimal(*session_id as nat) + ", layer_name: "@
                    + text::quoted(layer_name@) + ", x: "@ + x.spec_debug() + ", index_pos: "@
                    + text::decimal(*index_pos as nat) + ", block_idx: "@ + text::decimal(
                    *block_idx as nat,
                ) + ", sampling: "@ + sampling_debug(*sampling) + " }"@
            },
            Message::Batch { session_id, x, batch, sampling } => {
                "Batch { session_id: "@ + text::decimal(*session_id as nat) + ", x: "@
                    + x.spec_debug() + ", batch: ["@ + text::comma_separated(layer_parts(batch@))
                    + "], sampling: "@ + sampling_debug(*sampling) + " }"@
            },
            Message::CompactBatch { session_id, x, batch, sampling } => {
                "CompactBatch { session_id: "@ + text::decimal(*session_id as nat) + ", x: "@
                    + x.spec_debug() + ", batch: "@ + batch.spec_debug() + ", sampling: "@
                    + sampling_debug(*sampling) + " }"@
            },
            Message::CompactRangeBatch { session_id, x, batch, sampling } => {
                "CompactRangeBatch { session_id: "@ + text::decimal(*session_id as nat) + ", x: "@
                    + x.spec_debug() + ", batch: "@ + batch.spec_debug() + ", sampling: "@
                    + sampling_debug(*sampling) + " }"@
            },
            Message::Tensor { x, compute_us } => "Tensor { x: "@ + x.spec_debug()
                + ", compute_us: "@ + text::decimal(*compute_us as nat) + " }"@,
            Message::Error { message } => "Error { message: "@ + text::quoted(message@) + " }"@,
        }
    }

    /// The debug form of the message.
    pub fn debug_text(&self) -> (res: String)
        ensures
            res@ == self.spec_debug(),
    {
        match self {
            Message::Hello => "Hello".to_owned(),
            Message::WorkerInfo(info) => {
                let mut s = "WorkerInfo(".to_owned();
                let info = worker_info_text(info);
                s.append(info.as_str());
                s.append(")");
                s
            },
            Message::ReleaseSession { session_id } => {
                let mut s = "ReleaseSession { session_id: ".to_owned();
                proto::append_number(&mut s, *session_id as u128);
                s.append(" }");
                s
            },
            Message::SingleOp { session_id, layer_name, x, index_pos, block_idx, sampling } => {
                let mut s = "SingleOp { session_id: ".to_owned();
                proto::append_number(&mut s, *session_id as u128);
                s.append(", layer_name: ");
                append_quoted(&mut s, layer_name.as_str());
                s.append(", x: ");
                append_tensor(&mut s, x);
                s.append(", index_pos: ");
                proto::append_number(&mut s, *index_pos as u128);
                s.append(", block_idx: ");
                proto::append_number(&mut s, *block_idx as u128);
                append_sampling(&mut s, sampling);
                s
            },
            Message::Batch { session_id, x, batch, sampling } => {
                let mut s = "Batch { session_id: ".to_owned();
                proto::append_number(&mut s, *session_id as u128);
                s.append(", x: ");
                append_tensor(&mut s, x);
                s.append(", batch: [");
                append_layers(&mut s, batch);
                s.append("]");
                let ghost before = s@;
                append_sampling(&mut s, sampling);
                proof {
                    reveal_strlit("]");
                    reveal_strlit(", sampling: ");
                    reveal_strlit("], sampling: ");
                    assert("]"@ + ", sampling: "@ =~= "], sampling: "@);
                    assert(s@ =~= self.spec_debug());
                }
                s
            },
            Message::CompactBatch { session_id, x, batch, sampling } => {
                let mut s = "CompactBatch { session_id: ".to_owned();
                proto::append_number(&mut s, *session_id as u128);
                s.append(", x: ");
                append_tensor(&mut s, x);
                s.append(", batch: ");
                let run = compact_batch_text(batch);
                s.append(run.as_str());
                append_sampling(&mut s, sampling);
                s
            },
            Message::CompactRangeBatch { session_id, x, batch, sampling } => {
                let mut s = "CompactRangeBatch { session_id: ".to_owned();
                proto::append_number(&mut s, *session_id as u128);
                s.append(", x: ");
                append_tensor(&mut s, x);
                s.append(", batch: ");
                let run = compact_range_batch_text(batch);
                s.append(run.as_str());
                append_sampling(&mut s, sampling);
                s
            },
            Message::Tensor { x, compute_us } => {
                let mut s = "Tensor { x: ".to_owned();
                append_tensor(&mut s, x);
                s.append(", compute_us: ");
                proto::append_number(&mut s, *compute_us as u128);
                s.append(" }");
                s
            },
            Message::Error { message } => {
                let mut s = "Error { message: ".to_owned();
                append_quoted(&mut s, message.as_str());
                s.append(" }");
                s
            },
        }
    }
}

/// Appends `value` in quotation marks.
fn append_quoted(s: &mut String, value: &str)
    ensures
        final(s)@ == old(s)@ + text::quoted(value@),
{
    let q = text::quote(value);
    s.append(q.as_str());
}

/// Appends the bytes of `data` as numbers.
fn append_bytes(s: &mut String, data: &Vec<u8>)
    ensures
        final(s)@ == old(s)@ + text::comma_separated(byte_parts(data@)),
{
    let ghost before = s@;
    let ghost parts = byte_parts(data@);
    let n: usize = data.len();
    let mut i: usize = 0;
    assert(s@ =~= before + text::comma_separated(parts.take(0)));
    while i < n
        invariant
            i <= n,
            n == data@.len(),
            parts == byte_parts(data@),
            s@ == before + text::comma_separated(parts.take(i as int)),
        decreases n - i,
    {
        let part = text::decimal_text(data[i] as u128);
        text::append_part(s, part.as_str(), Ghost(before), Ghost(parts.take(i as int)), i == 0);
        assert(parts.take(i + 1) =~= parts.take(i as int).push(part@));
        i = i + 1;
    }
    assert(parts.take(n as int) =~= parts);
}

/// The debug form of a layer in a batch.
fn layer_text(layer: &(String, usize, usize)) -> (res: String)
    ensures
        res@ == layer_debug(*layer),
{
    let mut s = "(".to_owned();
    append_quoted(&mut s, layer.0.as_str());
    s.append(", ");
    proto::append_number(&mut s, layer.1 as u128);
    s.append(", ");
    proto::append_number(&mut s, layer.2 as u128);
    s.append(")");
    s
}

/// Appends the debug forms of the layers of `batch`.
fn append_layers(s: &mut String, batch: &Vec<(String, usize, usize)>)
    ensures
        final(s)@ == old(s)@ + text::comma_separated(layer_parts(batch@)),
{
    let ghost before = s@;
    let ghost parts = layer_parts(batch@);
    let n: usize = batch.len();
    let mut i: usize = 0;
    assert(s@ =~= before + text::comma_separated(parts.take(0)));
    while i < n
        invariant
            i <= n,
            n == batch@.len(),
            parts == layer_parts(batch@),
            s@ == before + text::comma_separated(parts.take(i as int)),
        decreases n - i,
    {
        let part = layer_text(&batch[i]);
        text::append_part(s, part.as_str(), Ghost(before), Ghost(parts.take(i as int)), i == 0);
        assert(parts.take(i + 1) =~= parts.take(i as int).push(part@));
        i = i + 1;
    }
    assert(parts.take(n as int) =~= parts);
}

/// Appends the debug form of a tensor.
fn append_tensor(s: &mut String, x: &RawTensor)
    ensures
        final(s)@ == old(s)@ + x.spec_debug(),
{
    let ghost before = s@;
    s.append("RawTensor { data: [");
    append_bytes(s, &x.data);
    s.append("], dtype: ");
    s.append(x.dtype.name());
    s.append(", shape: [");
    proto::append_dims(s, &x.shape);
    s.append("] }");
    assert(s@ =~= before + x.spec_debug());
}

/// Appends the sampling settings as the last field of a message.
fn append_sampling(s: &mut String, sampling: &Option<SamplingRequest>)
    ensures
        final(s)@ == old(s)@ + ", sampling: "@ + sampling_debug(*sampling) + " }"@,
{
    s.append(", sampling: ");
    let ghost before = s@;
    match sampling {
        Some(settings) => {
            s.append("Some(SamplingRequest { encoded: [");
            append_bytes(s, &settings.encoded);
            s.append("] })");
        },
        None => {
            s.append("None");
        },
    }
    assert(s@ =~= before + sampling_debug(*sampling));
    s.append(" }");
}

/// Appends the debug form of an optional number.
fn append_float(s: &mut String, number: &Option<FloatText>)
    ensures
        final(s)@ == old(s)@ + float_debug(*number),
{
    let ghost before = s@;
    match number {
        Some(n) => {
            s.append("Some(");
            s.append(n.text.as_str());
            s.append(")");
        },
        None => {
            s.append("None");
        },
    }
    assert(s@ =~= before + float_debug(*number));
}

/// Appends the debug form of an optional text.
fn append_text(s: &mut String, value: &Option<String>)
    ensures
        final(s)@ == old(s)@ + text_debug(*value),
{
    let ghost before = s@;
    match value {
        Some(t) => {
            s.append("Some(");
            append_quoted(s, t.as_str());
            s.append(")");
        },
        None => {
            s.append("None");
        },
    }
    assert(s@ =~= before + text_debug(*value));
}

/// The debug form of a worker's description.
fn worker_info_text(info: &WorkerInfo) -> (res: String)
    ensures
        res@ == info.spec_debug(),
{
    let mut s = "WorkerInfo { version: ".to_owned();
    append_quoted(&mut s, info.version.as_str());
    s.append(", dtype: ");
    append_quoted(&mut s, info.dtype.as_str());
    s.append(", os: ");
    append_quoted(&mut s, info.os.as_str());
    s.append(", arch: ");
    append_quoted(&mut s, info.arch.as_str());
    s.append(", device: ");
    append_quoted(&mut s, info.device.as_str());
    s.append(", device_idx: ");
    proto::append_number(&mut s, info.device_idx as u128);
    s.append(", latency: ");
    proto::append_number(&mut s, info.latency);
    s.append(", cpu_usage_percent: ");
    append_float(&mut s, &info.cpu_usage_percent);
    s.append(", memory_usage_percent: ");
    append_float(&mut s, &info.memory_usage_percent);
    s.append(", npu_usage_percent: ");
    append_float(&mut s, &info.npu_usage_percent);
    s.append(", temperature_c: ");
    append_float(&mut s, &info.temperature_c);
    s.append(", system_model: ");
    append_text(&mut s, &info.system_model);
    s.append(" }");
    s
}

/// The debug form of a run of layers.
fn compact_batch_text(batch: &CompactBatch) -> (res: String)
    ensures
        res@ == batch.spec_debug(),
{
    let mut s = "CompactBatch { first_layer_name: ".to_owned();
    append_quoted(&mut s, batch.first_layer_name.as_str());
    s.append(", index_pos: ");
    proto::append_number(&mut s, batch.index_pos as u128);
    s.append(", first_block_idx: ");
    proto::append_number(&mut s, batch.first_block_idx as u128);
    s.append(", num_layers: ");
    proto::append_number(&mut s, batch.num_layers as u128);
    s.append(" }");
    s
}

/// The debug form of a run of layers by number.
fn compact_range_batch_text(batch: &CompactRangeBatch) -> (res: String)
    ensures
        res@ == batch.spec_debug(),
{
    let mut s = "CompactRangeBatch { index_pos: ".to_owned();
    proto::append_number(&mut s, batch.index_pos as u128);
    s.append(", first_block_idx: ");
    proto::append_number(&mut s, batch.first_block_idx as u128);
    s.append(", num_layers: ");
    proto::append_number(&mut s, batch.num_layers as u128);
    s.append(" }");
    s
}

} // verus!
