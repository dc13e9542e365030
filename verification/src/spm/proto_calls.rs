//! What calls on messages, settings and options promise their callers.

use vstd::prelude::*;

use crate::text;

use super::args::{Args, AutoPlanAlgorithm, InferenceBackend, Qwen38QuantLinear};
use super::client::Client;
use super::client_error::ClientError;
use super::context::{Context, ContextError, ContextSetup, GgmlFiles, TopologySource};
use super::proto::{DType, FloatText, Message, RawTensor, SamplingRequest, WorkerInfo};
use super::{Mode, SessionId};

verus! {

/// A request for layers belongs to the session that it names, every other message to
/// session zero.
pub proof fn requests_belong_to_their_sessions(m: Message, res: SessionId)
    requires
        call_ensures(Message::session_id, (&m,), res),
    ensures
        m matches Message::SingleOp { session_id, .. } ==> res == session_id,
        m matches Message::Batch { session_id, .. } ==> res == session_id,
        m matches Message::CompactBatch { session_id, .. } ==> res == session_id,
        m matches Message::CompactRangeBatch { session_id, .. } ==> res == session_id,
        m is Hello || m is WorkerInfo || m is ReleaseSession || m is Tensor || m is Error ==> res
            == 0,
{
}

/// A worker understands exactly the extensions that it lists.
pub proof fn workers_understand_what_they_list(info: WorkerInfo, capability: &str, res: bool)
    requires
        call_ensures(WorkerInfo::supports, (&info, capability), res),
    ensures
        res <==> exists|i: int|
            0 <= i < info.capabilities@.len() && #[trigger] info.capabilities@[i]@ == capability@,
{
}

/// A copy of sampling settings has the same bytes.
pub proof fn copied_settings_are_the_same(s: SamplingRequest, copy: SamplingRequest)
    requires
        call_ensures(SamplingRequest::clone, (&s,), copy),
    ensures
        copy.encoded@ == s.encoded@,
{
}

/// `parts` one after the other, with a comma and a space between any two.
pub open spec fn listed(parts: Seq<Seq<char>>) -> Seq<char>
    decreases parts.len(),
{
    if parts.len() == 0 {
        Seq::empty()
    } else if parts.len() == 1 {
        parts[0]
    } else {
        parts[0] + ", "@ + listed(parts.skip(1))
    }
}

proof fn lemma_listed(parts: Seq<Seq<char>>)
    ensures
        text::comma_separated(parts) == listed(parts),
    decreases parts.len(),
{
    if parts.len() > 1 {
        let front = parts.drop_last();
        let rest = parts.skip(1);
        let middle = rest.drop_last();
        lemma_listed(front);
        lemma_listed(rest);
        assert(text::comma_separated(parts) == listed(front) + ", "@ + parts.last());
        assert(listed(parts) == parts[0] + ", "@ + text::comma_separated(rest));
        if parts.len() == 2 {
            assert(front.len() == 1 && front[0] == parts[0]);
            assert(rest.len() == 1 && rest[0] == parts.last());
        } else {
            assert(front.skip(1) =~= middle);
            lemma_listed(middle);
            assert(listed(front) == parts[0] + ", "@ + listed(middle));
            assert(text::comma_separated(rest) == listed(middle) + ", "@ + parts.last());
            assert(parts[0] + ", "@ + (listed(middle) + ", "@ + parts.last()) =~= parts[0] + ", "@
                + listed(middle) + ", "@ + parts.last());
        }
    }
}

/// The numbers of `dims`, each in decimal.
pub open spec fn numbers(dims: Seq<usize>) -> Seq<Seq<char>> {
    Seq::new(dims.len(), |i: int| text::decimal(dims[i] as nat))
}

/// The bytes of `data`, each in decimal.
pub open spec fn byte_numbers(data: Seq<u8>) -> Seq<Seq<char>> {
    Seq::new(data.len(), |i: int| text::decimal(data[i] as nat))
}

/// `true` or `false`, as it is.
pub open spec fn yes_or_no(flag: bool) -> Seq<char> {
    if flag {
        "true"@
    } else {
        "false"@
    }
}

/// How a summary speaks of a tensor.
pub open spec fn tensor_said(x: RawTensor, dtype_name: Seq<char>) -> Seq<char> {
    " shape=["@ + listed(numbers(x.shape@)) + "] dtype="@ + dtype_name
}

proof fn lemma_tensor_said(x: RawTensor)
    ensures
        x.spec_describe() == tensor_said(x, x.dtype.spec_name()),
{
    assert(super::proto::dims_parts(x.shape@) =~= numbers(x.shape@));
    lemma_listed(numbers(x.shape@));
}

/// The name of each element type is how it is written.
pub proof fn element_types_are_named(dtype: DType, res: &'static str)
    requires
        call_ensures(DType::name, (dtype,), res),
    ensures
        match dtype {
            DType::U8 => res@ == "U8"@,
            DType::U32 => res@ == "U32"@,
            DType::I16 => res@ == "I16"@,
            DType::I32 => res@ == "I32"@,
            DType::I64 => res@ == "I64"@,
            DType::BF16 => res@ == "BF16"@,
            DType::F16 => res@ == "F16"@,
            DType::F32 => res@ == "F32"@,
            DType::F64 => res@ == "F64"@,
            DType::F8E4M3 => res@ == "F8E4M3"@,
            DType::F6E2M3 => res@ == "F6E2M3"@,
            DType::F6E3M2 => res@ == "F6E3M2"@,
            DType::F4 => res@ == "F4"@,
            DType::F8E8M0 => res@ == "F8E8M0"@,
        },
{
}

/// The summary of a request names its session, what it asks for, whether sampling
/// settings travel along, and shape and type of its tensor.
pub proof fn request_summaries_say_what_is_asked(m: Message, res: String, name: &'static str)
    requires
        call_ensures(Message::summary, (&m,), res),
        m matches Message::SingleOp { x, .. } ==> call_ensures(DType::name, (x.dtype,), name),
        m matches Message::Batch { x, .. } ==> call_ensures(DType::name, (x.dtype,), name),
        m matches Message::CompactBatch { x, .. } ==> call_ensures(DType::name, (x.dtype,), name),
        m matches Message::CompactRangeBatch { x, .. } ==> call_ensures(
            DType::name,
            (x.dtype,),
            name,
        ),
    ensures
        m matches Message::SingleOp { session_id, layer_name, x, index_pos, block_idx, sampling }
            ==> res@ == "single session="@ + text::decimal(session_id as nat) + " layer="@
            + layer_name@ + " index_pos="@ + text::decimal(index_pos as nat) + " block_idx="@
            + text::decimal(block_idx as nat) + " sampling="@ + yes_or_no(sampling is Some)
            + tensor_said(x, name@),
        m matches Message::Batch { session_id, x, batch, sampling } ==> {
            &&& batch@.len() > 0 ==> res@ == "batch session="@ + text::decimal(session_id as nat)
                + " ops="@ + text::decimal(batch@.len()) + " first="@ + batch@[0].0@ + " last="@
                + batch@[batch@.len() - 1].0@ + " sampling="@ + yes_or_no(sampling is Some)
                + tensor_said(x, name@)
            &&& batch@.len() == 0 ==> res@ == "batch session="@ + text::decimal(session_id as nat)
                + " ops="@ + text::decimal(0) + " first="@ + "-"@ + " last="@ + "-"@
                + " sampling="@ + yes_or_no(sampling is Some) + tensor_said(x, name@)
        },
        m matches Message::CompactBatch { session_id, x, batch, sampling } ==> res@
            == "compact_batch session="@ + text::decimal(session_id as nat) + " ops="@
            + text::decimal(batch.num_layers as nat) + " first="@ + batch.first_layer_name@
            + " index_pos="@ + text::decimal(batch.index_pos as nat) + " block_idx="@
            + text::decimal(batch.first_block_idx as nat) + " sampling="@ + yes_or_no(
            sampling is Some,
        ) + tensor_said(x, name@),
        m matches Message::CompactRangeBatch { session_id, x, batch, sampling } ==> res@
            == "compact_range_batch session="@ + text::decimal(session_id as nat) + " ops="@
            + text::decimal(batch.num_layers as nat) + " index_pos="@ + text::decimal(
            batch.index_pos as nat,
        ) + " block_idx="@ + text::decimal(batch.first_block_idx as nat) + " sampling="@
            + yes_or_no(sampling is Some) + tensor_said(x, name@),
{
    match m {
        Message::SingleOp { x, .. } => {
            lemma_tensor_said(x);
        },
        Message::Batch { x, .. } => {
            lemma_tensor_said(x);
        },
        Message::CompactBatch { x, .. } => {
            lemma_tensor_said(x);
        },
        Message::CompactRangeBatch { x, .. } => {
            lemma_tensor_said(x);
        },
        _ => {},
    }
}

/// A time in milliseconds with three decimals: the microseconds are the whole part times
/// a thousand and the decimals as a number.
pub open spec fn is_millis(s: Seq<char>, us: nat) -> bool {
    exists|whole: nat, a: nat, b: nat, c: nat|
        {
            &&& a < 10 && b < 10 && c < 10
            &&& us == whole * 1000 + a * 100 + b * 10 + c
            &&& #[trigger] millis_written(s, whole, a, b, c)
        }
}

/// `s` is `whole`, a point and three digits.
pub open spec fn millis_written(s: Seq<char>, whole: nat, a: nat, b: nat, c: nat) -> bool {
    s == text::decimal(whole) + "."@ + seq![
        (48 + a) as char,
        (48 + b) as char,
        (48 + c) as char,
    ]
}

/// The summary of a result gives shape, type and the worker's time; that of any other
/// message says its kind and, of an end of session or a failure, which or why.
pub proof fn answer_summaries_say_what_came_back(m: Message, res: String, name: &'static str)
    requires
        call_ensures(Message::summary, (&m,), res),
        m matches Message::Tensor { x, .. } ==> call_ensures(DType::name, (x.dtype,), name),
    ensures
        m is Hello ==> res@ == "hello"@,
        m is WorkerInfo ==> res@ == "worker_info"@,
        m matches Message::ReleaseSession { session_id } ==> res@ == "release_session session="@
            + text::decimal(session_id as nat),
        m matches Message::Error { message } ==> res@ == "error "@ + message@,
        m matches Message::Tensor { x, compute_us } ==> exists|millis: Seq<char>|
            #[trigger] is_millis(millis, compute_us as nat) && res@ == "tensor"@ + tensor_said(
                x,
                name@,
            ) + " compute="@ + millis + "ms"@,
{
    if let Message::Tensor { x, compute_us } = m {
        lemma_tensor_said(x);
        let us = compute_us as nat;
        let millis = super::proto::millis_chars(us);
        let whole = us / 1000;
        let a = us / 100 % 10;
        let b = us / 10 % 10;
        let c = us % 10;
        assert(millis =~= text::decimal(whole) + "."@ + seq![
            (48 + a) as char,
            (48 + b) as char,
            (48 + c) as char,
        ]);
        assert(millis_written(millis, whole, a, b, c));
        assert(us == whole * 1000 + a * 100 + b * 10 + c);
        assert(is_millis(millis, us));
    }
}

/// A summary does not depend on the data of the tensor, nor on what the sampling settings
/// are.
pub proof fn summaries_hold_no_data(
    session_id: SessionId,
    layer_name: String,
    x: RawTensor,
    y: RawTensor,
    index_pos: usize,
    block_idx: usize,
    s: SamplingRequest,
    t: SamplingRequest,
    a: String,
    b: String,
)
    requires
        x.shape@ == y.shape@,
        x.dtype == y.dtype,
        call_ensures(
            Message::summary,
            (&Message::SingleOp {
                session_id,
                layer_name,
                x,
                index_pos,
                block_idx,
                sampling: Some(s),
            },),
            a,
        ),
        call_ensures(
            Message::summary,
            (&Message::SingleOp {
                session_id,
                layer_name,
                x: y,
                index_pos,
                block_idx,
                sampling: Some(t),
            },),
            b,
        ),
    ensures
        a@ == b@,
{
}

/// The debug form of an optional number.
pub open spec fn number_shown(n: Option<FloatText>) -> Seq<char> {
    match n {
        Some(f) => "Some("@ + f.text@ + ")"@,
        None => "None"@,
    }
}

/// The debug form of optional sampling settings.
pub open spec fn settings_shown(s: Option<SamplingRequest>) -> Seq<char> {
    match s {
        Some(r) => "Some(SamplingRequest { encoded: ["@ + listed(byte_numbers(r.encoded@))
            + "] })"@,
        None => "None"@,
    }
}

proof fn lemma_settings_shown(s: Option<SamplingRequest>)
    ensures
        super::proto_debug::sampling_debug(s) == settings_shown(s),
{
    if let Some(r) = s {
        assert(super::proto_debug::byte_parts(r.encoded@) =~= byte_numbers(r.encoded@));
        lemma_listed(byte_numbers(r.encoded@));
    }
}

/// The debug form of a tensor.
pub open spec fn tensor_shown(x: RawTensor, dtype_name: Seq<char>) -> Seq<char> {
    "RawTensor { data: ["@ + listed(byte_numbers(x.data@)) + "], dtype: "@ + dtype_name
        + ", shape: ["@ + listed(numbers(x.shape@)) + "] }"@
}

proof fn lemma_tensor_shown(x: RawTensor)
    ensures
        x.spec_debug() == tensor_shown(x, x.dtype.spec_name()),
{
    assert(super::proto_debug::byte_parts(x.data@) =~= byte_numbers(x.data@));
    assert(super::proto::dims_parts(x.shape@) =~= numbers(x.shape@));
    lemma_listed(byte_numbers(x.data@));
    lemma_listed(numbers(x.shape@));
}

/// The debug forms of the layers of a batch.
pub open spec fn layers_shown(batch: Seq<(String, usize, usize)>) -> Seq<Seq<char>> {
    Seq::new(
        batch.len(),
        |i: int|
            "("@ + text::quoted(batch[i].0@) + ", "@ + text::decimal(batch[i].1 as nat) + ", "@
                + text::decimal(batch[i].2 as nat) + ")"@,
    )
}

/// The debug form of a request shows every field of it, by name and in order.
pub proof fn debug_form_shows_requests(m: Message, res: String, name: &'static str)
    requires
        call_ensures(Message::debug_text, (&m,), res),
        m matches Message::SingleOp { x, .. } ==> call_ensures(DType::name, (x.dtype,), name),
        m matches Message::Batch { x, .. } ==> call_ensures(DType::name, (x.dtype,), name),
        m matches Message::CompactBatch { x, .. } ==> call_ensures(DType::name, (x.dtype,), name),
        m matches Message::CompactRangeBatch { x, .. } ==> call_ensures(
            DType::name,
            (x.dtype,),
            name,
        ),
    ensures
        m matches Message::SingleOp { session_id, layer_name, x, index_pos, block_idx, sampling }
            ==> res@ == "SingleOp { session_id: "@ + text::decimal(session_id as nat)
            + ", layer_name: "@ + text::quoted(layer_name@) + ", x: "@ + tensor_shown(x, name@)
            + ", index_pos: "@ + text::decimal(index_pos as nat) + ", block_idx: "@ + text::decimal(
            block_idx as nat,
        ) + ", sampling: "@ + settings_shown(sampling) + " }"@,
        m matches Message::Batch { session_id, x, batch, sampling } ==> res@
            == "Batch { session_id: "@ + text::decimal(session_id as nat) + ", x: "@ + tensor_shown(
            x,
            name@,
        ) + ", batch: ["@ + listed(layers_shown(batch@)) + "], sampling: "@ + settings_shown(
            sampling,
        ) + " }"@,
        m matches Message::CompactBatch { session_id, x, batch, sampling } ==> res@
            == "CompactBatch { session_id: "@ + text::decimal(session_id as nat) + ", x: "@
            + tensor_shown(x, name@) + ", batch: "@ + ("CompactBatch { first_layer_name: "@
            + text::quoted(batch.first_layer_name@) + ", index_pos: "@ + text::decimal(
            batch.index_pos as nat,
        ) + ", first_block_idx: "@ + text::decimal(batch.first_block_idx as nat)
            + ", num_layers: "@ + text::decimal(batch.num_layers as nat) + " }"@) + ", sampling: "@
            + settings_shown(sampling) + " }"@,
        m matches Message::CompactRangeBatch { session_id, x, batch, sampling } ==> res@
            == "CompactRangeBatch { session_id: "@ + text::decimal(session_id as nat) + ", x: "@
            + tensor_shown(x, name@) + ", batch: "@ + ("CompactRangeBatch { index_pos: "@
            + text::decimal(batch.index_pos as nat) + ", first_block_idx: "@ + text::decimal(
            batch.first_block_idx as nat,
        ) + ", num_layers: "@ + text::decimal(batch.num_layers as nat) + " }"@) + ", sampling: "@
            + settings_shown(sampling) + " }"@,
{
    match m {
        Message::SingleOp { x, sampling, .. } => {
            lemma_tensor_shown(x);
            lemma_settings_shown(sampling);
        },
        Message::Batch { x, batch, sampling, .. } => {
            lemma_tensor_shown(x);
            lemma_settings_shown(sampling);
            assert(super::proto_debug::layer_parts(batch@) =~= layers_shown(batch@));
            lemma_listed(layers_shown(batch@));
        },
        Message::CompactBatch { x, sampling, .. } => {
            lemma_tensor_shown(x);
            lemma_settings_shown(sampling);
        },
        Message::CompactRangeBatch { x, sampling, .. } => {
            lemma_tensor_shown(x);
            lemma_settings_shown(sampling);
        },
        _ => {},
    }
}

/// The debug form of an answer shows every field of it, by name and in order; of a
/// worker's description it shows everything but the extensions.
pub proof fn debug_form_shows_answers(m: Message, res: String, name: &'static str)
    requires
        call_ensures(Message::debug_text, (&m,), res),
        m matches Message::Tensor { x, .. } ==> call_ensures(DType::name, (x.dtype,), name),
    ensures
        m is Hello ==> res@ == "Hello"@,
        m matches Message::ReleaseSession { session_id } ==> res@
            == "ReleaseSession { session_id: "@ + text::decimal(session_id as nat) + " }"@,
        m matches Message::Error { message } ==> res@ == "Error { message: "@ + text::quoted(
            message@,
        ) + " }"@,
        m matches Message::Tensor { x, compute_us } ==> res@ == "Tensor { x: "@ + tensor_shown(
            x,
            name@,
        ) + ", compute_us: "@ + text::decimal(compute_us as nat) + " }"@,
        m matches Message::WorkerInfo(info) ==> res@ == "WorkerInfo("@ + (
        "WorkerInfo { version: "@ + text::quoted(info.version@) + ", dtype: "@ + text::quoted(
            info.dtype@,
        ) + ", os: "@ + text::quoted(info.os@) + ", arch: "@ + text::quoted(info.arch@)
            + ", device: "@ + text::quoted(info.device@) + ", device_idx: "@ + text::decimal(
            info.device_idx as nat,
        ) + ", latency: "@ + text::decimal(info.latency as nat) + ", cpu_usage_percent: "@
            + number_shown(info.cpu_usage_percent) + ", memory_usage_percent: "@ + number_shown(
            info.memory_usage_percent,
        ) + ", npu_usage_percent: "@ + number_shown(info.npu_usage_percent) + ", temperature_c: "@
            + number_shown(info.temperature_c) + ", system_model: "@ + (match info.system_model {
            Some(t) => "Some("@ + text::quoted(t@) + ")"@,
            None => "None"@,
        }) + " }"@) + ")"@,
{
    match m {
        Message::Tensor { x, .. } => {
            lemma_tensor_shown(x);
        },
        Message::WorkerInfo(info) => {
            assert(super::proto_debug::float_debug(info.cpu_usage_percent) == number_shown(
                info.cpu_usage_percent,
            ));
            assert(super::proto_debug::float_debug(info.memory_usage_percent) == number_shown(
                info.memory_usage_percent,
            ));
            assert(super::proto_debug::float_debug(info.npu_usage_percent) == number_shown(
                info.npu_usage_percent,
            ));
            assert(super::proto_debug::float_debug(info.temperature_c) == number_shown(
                info.temperature_c,
            ));
        },
        _ => {},
    }
}

/// Each error on a worker connection says what failed, where and why; an answer that
/// nobody expected is repeated in its debug form.
pub proof fn client_errors_say_what_failed(e: ClientError, res: String, shown: String)
    requires
        call_ensures(ClientError::to_string, (&e,), res),
        e matches ClientError::UnexpectedProbe { response, .. } ==> call_ensures(
            Message::debug_text,
            (&response,),
            shown,
        ),
        e matches ClientError::UnexpectedWorkerInfo { response } ==> call_ensures(
            Message::debug_text,
            (&response,),
            shown,
        ),
        e matches ClientError::UnexpectedHandshake { response, .. } ==> call_ensures(
            Message::debug_text,
            (&response,),
            shown,
        ),
        e matches ClientError::UnexpectedRelease { response, .. } ==> call_ensures(
            Message::debug_text,
            (&response,),
            shown,
        ),
        e matches ClientError::UnexpectedResponse { response } ==> call_ensures(
            Message::debug_text,
            (&response,),
            shown,
        ),
    ensures
        match e {
            ClientError::Connect { address, cause } => res@ == "can't connect to "@ + address@
                + ": "@ + cause@,
            ClientError::OpenLane { address, cause } => res@ == "can't open inference lane to "@
                + address@ + ": "@ + cause@,
            ClientError::Transport { cause } => res@ == cause@,
            ClientError::UnexpectedProbe { address, .. } => res@
                == "unexpected topology probe response from "@ + address@ + ": "@ + shown@,
            ClientError::UnexpectedWorkerInfo { .. } => res@ == "unexpected worker info message: "@
                + shown@,
            ClientError::UnexpectedHandshake { address, .. } => res@
                == "unexpected inference-lane handshake from "@ + address@ + ": "@ + shown@,
            ClientError::LaneLimit { address, active, limit } => res@
                == "concurrent session lane limit reached for "@ + address@ + ": "@ + text::decimal(
                active as nat,
            ) + " active lanes (DIAL_MAX_SESSION_LANES="@ + text::decimal(limit as nat) + ")"@,
            ClientError::SendRelease { session_id, address, cause } => res@
                == "failed to send release_session "@ + text::decimal(session_id as nat) + " to "@
                + address@ + ": "@ + cause@,
            ClientError::ReceiveRelease { session_id, address, cause } => res@
                == "failed to receive release_session "@ + text::decimal(session_id as nat)
                + " ack from "@ + address@ + ": "@ + cause@,
            ClientError::UnexpectedRelease { address, .. } => res@
                == "unexpected release_session response from "@ + address@ + ": "@ + shown@,
            ClientError::ReleaseTimeout { session_id, address } => res@ == "release_session "@
                + text::decimal(session_id as nat) + " to "@ + address@ + " timed out"@,
            ClientError::Sending { summary, cause } => res@ == "error sending "@ + summary@ + ": "@
                + cause@,
            ClientError::Receiving { summary, cause } => res@ == "error receiving response for "@
                + summary@ + ": "@ + cause@,
            ClientError::Worker { message } => res@ == "worker error: "@ + message@,
            ClientError::UnexpectedResponse { .. } => res@ == "unexpected response "@ + shown@,
            ClientError::LoadOnClient => res@ == "load should never be called on spm::Client"@,
            ClientError::ForwardOnClient => res@
                == "immutable forward should never be called on spm::Client"@,
        },
{
}

/// One of the five spellings of yes.
pub open spec fn says_yes(value: Option<&str>) -> bool {
    value matches Some(v) && (v@ == "1"@ || v@ == "true"@ || v@ == "TRUE"@ || v@ == "yes"@ || v@
        == "YES"@)
}

/// A switch is on exactly when it is set to one of the five spellings of yes.
pub proof fn switches_are_on_when_they_say_yes<C, L, D>(
    value: Option<&str>,
    read: bool,
    compact: bool,
    trace: bool,
)
    requires
        call_ensures(super::settings::read_switch, (value,), read),
        call_ensures(Client::<C, L, D>::compact_batch_enabled, (value,), compact),
        call_ensures(Client::<C, L, D>::transfer_trace_enabled, (value,), trace),
    ensures
        read <==> says_yes(value),
        compact <==> says_yes(value),
        trace <==> says_yes(value),
{
}

/// A count is the positive number that the setting holds, and the fallback where it holds
/// none: sixty-four session lanes, four requests in flight.
pub proof fn counts_are_positive_numbers<C, L, D>(
    value: Option<&str>,
    parsed: Option<usize>,
    fallback: usize,
    count: usize,
    lanes: usize,
    depth: usize,
)
    requires
        value matches Some(v) ==> call_ensures(text::parse_usize, (v,), parsed),
        call_ensures(super::settings::read_count, (value, fallback), count),
        call_ensures(Client::<C, L, D>::max_session_lanes, (value,), lanes),
        call_ensures(super::scheduler::configured_pipeline_depth, (value,), depth),
    ensures
        if value is Some && parsed is Some && parsed->0 > 0 {
            count == parsed->0 && lanes == parsed->0 && depth == parsed->0
        } else {
            count == fallback && lanes == 64 && depth == 4
        },
{
}

/// The line on short forms tells the shortest one that is used.
pub proof fn short_form_line_tells_the_shortest<C, L, D>(
    enabled: bool,
    range_enabled: bool,
    res: &'static str,
    m: Message,
    summary: String,
    described: String,
)
    requires
        call_ensures(Client::<C, L, D>::compact_batch_mode, (enabled, range_enabled), res),
        call_ensures(Message::summary, (&m,), summary),
        call_ensures(Client::<C, L, D>::message_summary, (&m,), described),
    ensures
        range_enabled ==> res@ == "spm compact range batch enabled by SPM_COMPACT_BATCH"@,
        enabled && !range_enabled ==> res@ == "spm compact batch enabled by SPM_COMPACT_BATCH"@,
        !enabled && !range_enabled ==> res@
            == "spm compact batch disabled; set SPM_COMPACT_BATCH=1 to test it"@,
        described@ == summary@,
{
}

/// A node that is told nothing is a master that uses the built-in layers in half
/// precision, plans nothing, limits nothing and serves nobody; its options fit together.
pub proof fn plain_options_make_a_master(
    mode: Mode,
    args: Args,
    checked: Result<ContextSetup, ContextError>,
)
    requires
        call_ensures(Mode::default, (), mode),
        call_ensures(Args::default, (), args),
        call_ensures(Context::from_args, (args,), checked),
    ensures
        mode == Mode::Master,
        args.mode == mode,
        args.api is None,
        args.model@.len() == 0,
        args.topology@.len() == 0,
        args.prompt@.len() == 0,
        args.system_prompt@.len() == 0,
        args.sample_len == 0,
        !args.cpu,
        args.device == 0,
        args.dtype is None,
        args.inference_backend == InferenceBackend::Native,
        args.qwen38_gguf is None,
        args.qwen38_ggml_lib is None,
        args.qwen38_mmproj is None,
        args.qwen38_quant_linear == Qwen38QuantLinear::Auto,
        args.worker_quantized_gguf is None,
        !args.worker_gguf_fp16_prefill,
        !args.worker_gguf_output_head,
        !args.worker_gguf_sample_token,
        !args.worker_w8a16,
        !args.local_linear_q8,
        !args.attn_f32,
        args.kv_cache_max_len == 0,
        args.auto_plan_profile is None,
        args.auto_plan_algorithm == AutoPlanAlgorithm::Dial,
        args.auto_plan_output is None,
        checked is Ok,
        checked->Ok_0.args == args,
        checked->Ok_0.dtype == DType::F16,
{
}

/// A worker that says nothing of itself understands no extension.
pub proof fn silent_workers_understand_nothing(info: WorkerInfo, capability: &str, res: bool)
    requires
        call_ensures(WorkerInfo::default, (), info),
        call_ensures(WorkerInfo::supports, (&info, capability), res),
    ensures
        !res,
        info.version@.len() == 0,
        info.dtype@.len() == 0,
        info.os@.len() == 0,
        info.arch@.len() == 0,
        info.device@.len() == 0,
        info.device_idx == 0,
        info.latency == 0,
        info.cpu_usage_percent is None,
        info.memory_usage_percent is None,
        info.npu_usage_percent is None,
        info.temperature_c is None,
        info.system_model is None,
{
}

/// Copies of options, of a started node, of a topology, of a pair of files and of a client
/// are what they were copied from.
pub proof fn copies_are_equal<C, L, D>(
    args: Args,
    args_copy: Args,
    ctx: Context,
    ctx_copy: Context,
    topology: TopologySource,
    topology_copy: TopologySource,
    files: GgmlFiles,
    files_copy: GgmlFiles,
    client: Client<C, L, D>,
    client_copy: Client<C, L, D>,
)
    requires
        call_ensures(Args::clone, (&args,), args_copy),
        call_ensures(Context::clone, (&ctx,), ctx_copy),
        call_ensures(TopologySource::clone, (&topology,), topology_copy),
        call_ensures(GgmlFiles::clone, (&files,), files_copy),
        call_ensures(Client::<C, L, D>::clone, (&client,), client_copy),
    ensures
        args_copy == args,
        ctx_copy == ctx,
        topology_copy == topology,
        files_copy == files,
        client_copy == client,
{
}

} // verus!
