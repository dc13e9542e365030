//! What calls of the start of a node promise their callers.

use vstd::prelude::*;

use super::args::{Args, InferenceBackend, Qwen38QuantLinear};
use super::context::{
    AttachedContext, ConfiguredContext, Context, ContextError, ContextSetup, DetectedContext,
    ModelConfig, ModelFamily, ModelHook, TopologySource, WeightsSource,
};
use super::json;
use super::proto::DType;
use super::Mode;

verus! {

/// The options contradict none of each other, as far as the backend is concerned.
pub open spec fn fit_together(args: Args) -> bool {
    if args.inference_backend == InferenceBackend::Qwen38Ggml {
        &&& args.qwen38_gguf is Some
        &&& args.qwen38_ggml_lib is Some
        &&& args.qwen38_quant_linear == Qwen38QuantLinear::Auto
        &&& args.qwen38_mmproj is None
    } else {
        args.qwen38_ggml_lib is None
    }
}

/// Options pass exactly when they fit together and name a known element type, and they
/// pass unchanged.
pub proof fn options_pass_when_they_fit(args: Args, res: Result<ContextSetup, ContextError>)
    requires
        call_ensures(Context::from_args, (args,), res),
    ensures
        res is Ok <==> fit_together(args) && (args.dtype matches Some(name) ==> name@ == "f16"@
            || name@ == "bf16"@ || name@ == "f32"@),
        res matches Ok(setup) ==> setup.args == args,
{
}

/// Every rejection names an option that really is at fault, and the first one that is:
/// the weights, the library, the selector, the projector, then the element type.
pub proof fn rejections_name_the_fault(args: Args, res: Result<ContextSetup, ContextError>)
    requires
        call_ensures(Context::from_args, (args,), res),
    ensures
        ({
            let ggml = args.inference_backend == InferenceBackend::Qwen38Ggml;
            res matches Err(e) ==> match e {
                ContextError::GgufRequired => ggml && args.qwen38_gguf is None,
                ContextError::GgmlLibRequired => ggml && args.qwen38_ggml_lib is None
                    && args.qwen38_gguf is Some,
                ContextError::QuantLinearConflict => ggml && args.qwen38_quant_linear
                    != Qwen38QuantLinear::Auto && args.qwen38_gguf is Some
                    && args.qwen38_ggml_lib is Some,
                ContextError::MmprojUnsupported => ggml && args.qwen38_mmproj is Some
                    && args.qwen38_gguf is Some && args.qwen38_ggml_lib is Some
                    && args.qwen38_quant_linear == Qwen38QuantLinear::Auto,
                ContextError::GgmlLibUnexpected => !ggml && args.qwen38_ggml_lib is Some,
                ContextError::UnsupportedDtype { dtype } => {
                    &&& args.dtype is Some && dtype@ == args.dtype->0@
                    &&& dtype@ != "f16"@ && dtype@ != "bf16"@ && dtype@ != "f32"@
                    &&& fit_together(args)
                },
                _ => false,
            }
        }),
{
}

/// The element type is the one that the options name, half precision where they name
/// none.
pub proof fn element_type_is_the_named_one(args: Args, res: Result<ContextSetup, ContextError>)
    requires
        call_ensures(Context::from_args, (args,), res),
        res is Ok,
    ensures
        args.dtype is None ==> res->Ok_0.dtype == DType::F16,
        args.dtype matches Some(name) ==> {
            &&& name@ == "f16"@ ==> res->Ok_0.dtype == DType::F16
            &&& name@ == "bf16"@ ==> res->Ok_0.dtype == DType::BF16
            &&& name@ == "f32"@ ==> res->Ok_0.dtype == DType::F32
        },
{
    reveal_strlit("f16");
    reveal_strlit("bf16");
    reveal_strlit("f32");
    assert("f16"@[0] != "bf16"@[0]);
    assert("f16"@[1] != "f32"@[1]);
    assert("bf16"@[0] != "f32"@[0]);
}

/// A device will do unless it could not be attached, or the upstream library would fall
/// back to the CPU unasked. Options and element type stay.
pub proof fn no_silent_cpu_fallback(
    setup: ContextSetup,
    is_cuda: Result<bool, String>,
    res: Result<AttachedContext, ContextError>,
)
    requires
        call_ensures(ContextSetup::attach_device, (setup, is_cuda), res),
    ensures
        is_cuda matches Err(cause) ==> {
            &&& res matches Err(ContextError::AttachDevice { cause: why })
            &&& why == cause
        },
        is_cuda matches Ok(cuda) ==> {
            &&& res is Err <==> setup.args.inference_backend == InferenceBackend::Qwen38Ggml
                && !setup.args.cpu && !cuda
            &&& res matches Err(e) ==> e is CudaRequired
        },
        res matches Ok(node) ==> node.args == setup.args && node.dtype == setup.dtype,
{
}

/// `family` is the one that a model type names.
pub open spec fn is_named_by(family: ModelFamily, model_type: Option<Seq<char>>) -> bool {
    &&& family == ModelFamily::Qwen3Vl <==> model_type == Some("qwen3_vl"@)
    &&& family == ModelFamily::Qwen38 <==> model_type == Some("qwen3_5"@)
}

/// The model type that a document with these string members names.
pub open spec fn named_model(members: Map<Seq<char>, Seq<char>>) -> Option<Seq<char>> {
    if members.contains_key("model_type"@) {
        Some(members["model_type"@])
    } else {
        None
    }
}

proof fn lemma_family(model_type: Option<Seq<char>>)
    ensures
        is_named_by(ModelFamily::of(model_type), model_type),
{
    reveal_strlit("qwen3_vl");
    reveal_strlit("qwen3_5");
    assert("qwen3_vl"@[6] != "qwen3_5"@[6]);
}

/// A model type names its family, and one that is unknown or missing is served as
/// Llama 3.
pub proof fn model_type_names_the_family(model_type: Option<&str>, res: ModelFamily)
    requires
        call_ensures(ModelFamily::from_model_type, (model_type,), res),
    ensures
        is_named_by(
            res,
            match model_type {
                Some(t) => Some(t@),
                None => None,
            },
        ),
{
    lemma_family(
        match model_type {
            Some(t) => Some(t@),
            None => None,
        },
    );
}

/// The family is the one that the document names, and a document that cannot be read
/// names none.
pub proof fn document_names_the_family(raw: &[u8], res: Result<ModelFamily, String>)
    requires
        call_ensures(ModelFamily::detect, (raw,), res),
    ensures
        res is Ok <==> json::json_outcome(raw@) is Ok,
        json::json_outcome(raw@) matches Ok(members) ==> is_named_by(
            res->Ok_0,
            named_model(members),
        ),
        json::json_outcome(raw@) matches Err(cause) ==> res->Err_0@ == cause,
{
    if let Ok(members) = json::json_outcome(raw@) {
        lemma_family(named_model(members));
    }
}

/// The layers of both Qwen families carry the longer prefix.
pub proof fn families_name_their_layers(family: ModelFamily, res: &'static str)
    requires
        call_ensures(ModelFamily::layer_prefix, (family,), res),
    ensures
        family != ModelFamily::Llama3 ==> res@ == "model.language_model.layers"@,
        family == ModelFamily::Llama3 ==> res@ == "model.layers"@,
{
}

/// A node serves the model that its configuration file names. Where the file cannot be
/// read or parsed the error says which of the two, of which file and why.
pub proof fn node_serves_the_configured_model(
    node: AttachedContext,
    path: &str,
    raw: Result<Vec<u8>, String>,
    res: Result<DetectedContext, ContextError>,
)
    requires
        call_ensures(AttachedContext::detect_model, (node, path, raw), res),
    ensures
        res is Ok <==> raw is Ok && json::json_outcome(raw->Ok_0@) is Ok,
        raw matches Err(cause) ==> {
            &&& res matches Err(ContextError::ReadConfig { path: at, cause: why })
            &&& at@ == path@
            &&& why == cause
        },
        raw matches Ok(bytes) ==> {
            json::json_outcome(bytes@) matches Err(cause) ==> {
                &&& res matches Err(ContextError::ParseConfig { path: at, cause: why })
                &&& at@ == path@
                &&& why@ == cause
            }
        },
        res matches Ok(d) ==> {
            &&& d.args == node.args
            &&& d.dtype == node.dtype
            &&& is_named_by(d.family, named_model(json::json_outcome(raw->Ok_0@)->Ok_0))
        },
{
    if let Ok(bytes) = raw {
        if let Ok(members) = json::json_outcome(bytes@) {
            lemma_family(named_model(members));
        }
    }
}

/// A node for a family has that family, and options and element type stay.
pub proof fn node_has_its_family(node: AttachedContext, family: ModelFamily, res: DetectedContext)
    requires
        call_ensures(AttachedContext::for_family, (node, family), res),
    ensures
        res.family == family,
        res.args == node.args,
        res.dtype == node.dtype,
{
}

/// The upstream library serves Qwen3.8 alone, the other backends everything. A node that
/// goes on has its model's own configuration; all else stays.
pub proof fn upstream_library_serves_one_family(
    node: DetectedContext,
    config: ModelConfig,
    res: Result<ConfiguredContext, ContextError>,
)
    requires
        call_ensures(DetectedContext::configure, (node, config), res),
    ensures
        res is Err <==> node.args.inference_backend == InferenceBackend::Qwen38Ggml && node.family
            != ModelFamily::Qwen38,
        res matches Err(e) ==> e is ModelMismatch,
        res matches Ok(c) ==> {
            &&& c.args == node.args
            &&& c.dtype == node.dtype
            &&& c.family == node.family
            &&& c.config == config
        },
{
}

/// Only the Qwen families need anything set up: Qwen3.8 its multiplication, unless the
/// upstream library does it, and Qwen3-VL the five things of its own, in order, each as
/// the options have it.
pub proof fn models_are_set_up_as_asked(node: ConfiguredContext, res: Vec<ModelHook>)
    requires
        call_ensures(ConfiguredContext::model_hooks, (&node,), res),
    ensures
        ({
            let args = node.args;
            &&& node.family == ModelFamily::Llama3 ==> res@.len() == 0
            &&& node.family == ModelFamily::Qwen38 && args.inference_backend
                == InferenceBackend::Qwen38Ggml ==> res@.len() == 0
            &&& node.family == ModelFamily::Qwen38 && args.inference_backend
                != InferenceBackend::Qwen38Ggml ==> {
                &&& res@.len() == 1
                &&& res@[0] matches ModelHook::QuantLinear { selector } && selector
                    == args.qwen38_quant_linear
            }
            &&& node.family == ModelFamily::Qwen3Vl ==> {
                &&& res@.len() == 5
                &&& res@[0] matches ModelHook::WorkerGguf {
                    gguf,
                    fp16_prefill,
                    output_head,
                    sample_token,
                    worker,
                } && gguf == args.worker_quantized_gguf && fp16_prefill
                    == args.worker_gguf_fp16_prefill && output_head == args.worker_gguf_output_head
                    && sample_token == args.worker_gguf_sample_token && worker == (args.mode
                    == Mode::Worker)
                &&& res@[1] is QkvRknn
                &&& res@[2] is MlpRknn
                &&& res@[3] matches ModelHook::LocalQ8 { enabled } && enabled
                    == args.local_linear_q8
                &&& res@[4] matches ModelHook::WorkerW8a16 { enabled, worker } && enabled
                    == args.worker_w8a16 && worker == (args.mode == Mode::Worker)
            }
        }),
{
}

/// A node is finished unless the upstream library cannot work with its element type; what
/// was decided before stays.
pub proof fn nodes_finish_with_what_was_decided(
    node: ConfiguredContext,
    res: Result<Context, ContextError>,
)
    requires
        call_ensures(ConfiguredContext::finish, (node,), res),
    ensures
        res is Err <==> node.args.inference_backend == InferenceBackend::Qwen38Ggml && node.dtype
            != DType::F16 && !(node.args.cpu && node.dtype == DType::F32),
        res matches Err(e) ==> e is GgmlDtype,
        res matches Ok(ctx) ==> {
            &&& ctx.args == node.args
            &&& ctx.dtype == node.dtype
            &&& ctx.family == node.family
        },
{
}

/// Sequences are as long as the model allows and the cache holds, whichever is less, and
/// attention is computed as the options say.
pub proof fn sequences_fit_model_and_cache(
    node: ConfiguredContext,
    res: Result<Context, ContextError>,
)
    requires
        call_ensures(ConfiguredContext::finish, (node,), res),
        res is Ok,
    ensures
        ({
            let len = res->Ok_0.config.max_seq_len;
            let limit = node.args.kv_cache_max_len;
            &&& len <= node.config.max_seq_len
            &&& limit > 0 ==> len <= limit
            &&& len == node.config.max_seq_len || (limit > 0 && len == limit)
        }),
        res->Ok_0.config.attn_f32 == node.args.attn_f32,
{
}

/// Where profiles are given a planner assigns the layers, from those profiles, for the
/// layers of the node's family, by the algorithm of the options; a master writes the plan
/// where the options say, a worker nowhere. Without profiles the topology file assigns
/// them.
pub proof fn plans_follow_the_options(node: ConfiguredContext, res: Result<Context, ContextError>)
    requires
        call_ensures(ConfiguredContext::finish, (node,), res),
        res is Ok,
    ensures
        ({
            let ctx = res->Ok_0;
            &&& ctx.topology is Planned <==> node.args.auto_plan_profile is Some
            &&& ctx.topology matches TopologySource::Planned {
                profile,
                layer_prefix,
                algorithm,
                report,
            } ==> {
                &&& profile == node.args.auto_plan_profile->0
                &&& algorithm == node.args.auto_plan_algorithm
                &&& node.family != ModelFamily::Llama3 ==> layer_prefix@
                    == "model.language_model.layers"@
                &&& node.family == ModelFamily::Llama3 ==> layer_prefix@ == "model.layers"@
                &&& node.args.mode == Mode::Master ==> report == node.args.auto_plan_output
                &&& node.args.mode == Mode::Worker ==> report is None
            }
            &&& ctx.topology matches TopologySource::File { path } ==> path == node.args.topology
        }),
{
}

/// Two nodes whose options name different algorithms plan by different algorithms, and
/// two whose options name the same one plan by the same.
pub proof fn different_algorithms_plan_differently(
    a: ConfiguredContext,
    b: ConfiguredContext,
    of_a: Result<Context, ContextError>,
    of_b: Result<Context, ContextError>,
)
    requires
        call_ensures(ConfiguredContext::finish, (a,), of_a),
        call_ensures(ConfiguredContext::finish, (b,), of_b),
        a.args.auto_plan_profile is Some,
        b.args.auto_plan_profile is Some,
        of_a is Ok,
        of_b is Ok,
    ensures
        of_a->Ok_0.topology is Planned,
        of_b->Ok_0.topology is Planned,
        of_a->Ok_0.topology->algorithm == of_b->Ok_0.topology->algorithm
            <==> a.args.auto_plan_algorithm == b.args.auto_plan_algorithm,
{
}

/// The weights are left to the upstream library exactly where it runs the layers, with
/// the two files that the options name.
pub proof fn weights_come_from_one_place(
    node: ConfiguredContext,
    res: Result<Context, ContextError>,
)
    requires
        call_ensures(ConfiguredContext::finish, (node,), res),
        res is Ok,
    ensures
        ({
            let ggml = node.args.inference_backend == InferenceBackend::Qwen38Ggml;
            let ctx = res->Ok_0;
            &&& ctx.weights == WeightsSource::Placeholder <==> ggml
            &&& ctx.ggml is Some <==> ggml && node.args.qwen38_ggml_lib is Some
                && node.args.qwen38_gguf is Some
            &&& ctx.ggml matches Some(files) ==> {
                &&& files.library == node.args.qwen38_ggml_lib->0
                &&& files.weights == node.args.qwen38_gguf->0
            }
        }),
{
}

/// A node that started has the options that it was started with, whatever the machine
/// reported on the way; its topology and weights are those of these very options.
pub proof fn started_node_keeps_its_options(
    args: Args,
    setup: Result<ContextSetup, ContextError>,
    is_cuda: Result<bool, String>,
    attached: Result<AttachedContext, ContextError>,
    path: &str,
    raw: Result<Vec<u8>, String>,
    detected: Result<DetectedContext, ContextError>,
    config: ModelConfig,
    configured: Result<ConfiguredContext, ContextError>,
    started: Result<Context, ContextError>,
)
    requires
        call_ensures(Context::from_args, (args,), setup),
        setup is Ok,
        call_ensures(ContextSetup::attach_device, (setup->Ok_0, is_cuda), attached),
        attached is Ok,
        call_ensures(AttachedContext::detect_model, (attached->Ok_0, path, raw), detected),
        detected is Ok,
        call_ensures(DetectedContext::configure, (detected->Ok_0, config), configured),
        configured is Ok,
        call_ensures(ConfiguredContext::finish, (configured->Ok_0,), started),
        started is Ok,
    ensures
        ({
            let ctx = started->Ok_0;
            let ggml = args.inference_backend == InferenceBackend::Qwen38Ggml;
            &&& ctx.args == args
            &&& ctx.dtype == setup->Ok_0.dtype
            &&& ctx.family == detected->Ok_0.family
            &&& ggml ==> ctx.family == ModelFamily::Qwen38 && ctx.ggml is Some
            &&& args.auto_plan_profile is Some ==> {
                &&& ctx.topology is Planned
                &&& ctx.topology->algorithm == args.auto_plan_algorithm
                &&& ctx.topology->profile == args.auto_plan_profile->0
            }
            &&& args.auto_plan_profile is None ==> ctx.topology == (TopologySource::File {
                path: args.topology,
            })
        }),
{
    options_pass_when_they_fit(args, setup);
    no_silent_cpu_fallback(setup->Ok_0, is_cuda, attached);
    node_serves_the_configured_model(attached->Ok_0, path, raw, detected);
    upstream_library_serves_one_family(detected->Ok_0, config, configured);
    nodes_finish_with_what_was_decided(configured->Ok_0, started);
    plans_follow_the_options(configured->Ok_0, started);
    weights_come_from_one_place(configured->Ok_0, started);
}

/// Every reason not to start has its own words; those that a file, a device or an option
/// brought with it are repeated.
pub proof fn refusals_say_why(e: ContextError, res: String)
    requires
        call_ensures(ContextError::to_string, (&e,), res),
    ensures
        match e {
            ContextError::GgufRequired => res@ == "qwen38-ggml requires --qwen38-gguf FILE"@,
            ContextError::GgmlLibRequired => res@
                == "qwen38-ggml requires --qwen38-ggml-lib LIBRARY (build it on each node)"@,
            ContextError::QuantLinearConflict => res@
                == "qwen38-ggml uses upstream quantized operators, not --qwen38-quant-linear dense/cuda"@,
            ContextError::MmprojUnsupported => res@ == "qwen38-ggml currently supports text only"@,
            ContextError::GgmlLibUnexpected => res@
                == "--qwen38-ggml-lib requires --inference-backend qwen38-ggml"@,
            ContextError::UnsupportedDtype { dtype } => res@ == "unsupported dtype "@ + dtype@,
            ContextError::AttachDevice { cause } => res@ == "can't attach to device: "@ + cause@,
            ContextError::CudaRequired => res@
                == "qwen38-ggml GPU mode requires a CUDA build/device; no silent CPU fallback (use --cpu only for tests)"@,
            ContextError::ReadConfig { path, cause } => res@ == "can't read "@ + path@ + ": "@
                + cause@,
            ContextError::ParseConfig { path, cause } => res@ == "can't parse "@ + path@ + ": "@
                + cause@,
            ContextError::ModelMismatch => res@
                == "qwen38-ggml requires a Qwen3.8 HF config/tokenizer directory (--model), not a GGUF path"@,
            ContextError::GgmlDtype => res@
                == "qwen38-ggml requires --dtype f16 for GPU/wire compatibility (CPU tests may use f32)"@,
        },
{
}

} // verus!
