//! How a node starts.
//!
//! Starting alternates between what only the machine can tell (the device, the
//! files, the weights) and what follows from it. Each stage here takes the report
//! of the former and decides the latter, so a start that cannot work stops before
//! the next thing is opened.

use vstd::prelude::*;

use crate::text;

use super::args::{Args, AutoPlanAlgorithm, InferenceBackend, Qwen38QuantLinear};
use super::json;
use super::proto::DType;
use super::Mode;

verus! {

/// Why a node does not start.
#[derive(Debug)]
pub enum ContextError {
    GgufRequired,
    GgmlLibRequired,
    QuantLinearConflict,
    MmprojUnsupported,
    GgmlLibUnexpected,
    UnsupportedDtype { dtype: String },
    AttachDevice { cause: String },
    CudaRequired,
    ReadConfig { path: String, cause: String },
    ParseConfig { path: String, cause: String },
    ModelMismatch,
    GgmlDtype,
}

impl ContextError {
    /// The text of the error.
    pub open spec fn spec_text(&self) -> Seq<char> {
        match self {
            ContextError::GgufRequired => "qwen38-ggml requires --qwen38-gguf FILE"@,
            ContextError::GgmlLibRequired => {
                "qwen38-ggml requires --qwen38-ggml-lib LIBRARY (build it on each node)"@
            },
            ContextError::QuantLinearConflict => {
                "qwen38-ggml uses upstream quantized operators, not --qwen38-quant-linear dense/cuda"@
            },
            ContextError::MmprojUnsupported => "qwen38-ggml currently supports text only"@,
            ContextError::GgmlLibUnexpected => {
                "--qwen38-ggml-lib requires --inference-backend qwen38-ggml"@
            },
            ContextError::UnsupportedDtype { dtype } => "unsupported dtype "@ + dtype@,
            ContextError::AttachDevice { cause } => "can't attach to device: "@ + cause@,
            ContextError::CudaRequired => {
                "qwen38-ggml GPU mode requires a CUDA build/device; no silent CPU fallback (use --cpu only for tests)"@
            },
            ContextError::ReadConfig { path, cause } => "can't read "@ + path@ + ": "@ + cause@,
            ContextError::ParseConfig { path, cause } => "can't parse "@ + path@ + ": "@ + cause@,
            ContextError::ModelMismatch => {
                "qwen38-ggml requires a Qwen3.8 HF config/tokenizer directory (--model), not a GGUF path"@
            },
            ContextError::GgmlDtype => {
                "qwen38-ggml requires --dtype f16 for GPU/wire compatibility (CPU tests may use f32)"@
            },
        }
    }

    /// The text of the error.
    pub fn to_string(&self) -> (res: String)
        ensures
            res@ == self.spec_text(),
    {
        match self {
            ContextError::GgufRequired => "qwen38-ggml requires --qwen38-gguf FILE".to_owned(),
            ContextError::GgmlLibRequired => {
                "qwen38-ggml requires --qwen38-ggml-lib LIBRARY (build it on each node)".to_owned()
            },
            ContextError::QuantLinearConflict => {
                "qwen38-ggml uses upstream quantized operators, not --qwen38-quant-linear dense/cuda".to_owned()
            },
            ContextError::MmprojUnsupported => {
                "qwen38-ggml currently supports text only".to_owned()
            },
            ContextError::GgmlLibUnexpected => {
                "--qwen38-ggml-lib requires --inference-backend qwen38-ggml".to_owned()
            },
            ContextError::UnsupportedDtype { dtype } => {
                "unsupported dtype ".to_owned().concat(dtype.as_str())
            },
            ContextError::AttachDevice { cause } => {
                "can't attach to device: ".to_owned().concat(cause.as_str())
            },
            ContextError::CudaRequired => {
                "qwen38-ggml GPU mode requires a CUDA build/device; no silent CPU fallback (use --cpu only for tests)".to_owned()
            },
            ContextError::ReadConfig { path, cause } => {
                "can't read ".to_owned().concat(path.as_str()).concat(": ").concat(cause.as_str())
            },
            ContextError::ParseConfig { path, cause } => {
                "can't parse ".to_owned().concat(path.as_str()).concat(": ").concat(cause.as_str())
            },
            ContextError::ModelMismatch => {
                "qwen38-ggml requires a Qwen3.8 HF config/tokenizer directory (--model), not a GGUF path".to_owned()
            },
            ContextError::GgmlDtype => {
                "qwen38-ggml requires --dtype f16 for GPU/wire compatibility (CPU tests may use f32)".to_owned()
            },
        }
    }
}

/// The model implementations.
#[derive(Debug, Clone, Copy, PartialEq, Eq, Structural)]
pub enum ModelFamily {
    Qwen3Vl,
    Qwen38,
    Llama3,
}

impl ModelFamily {
    /// The implementation for a `model_type`; anything unknown or missing is
    /// compatible with Llama 3.
    pub open spec fn of(model_type: Option<Seq<char>>) -> Self {
        if model_type == Some("qwen3_vl"@) {
            ModelFamily::Qwen3Vl
        } else if model_type == Some("qwen3_5"@) {
            ModelFamily::Qwen38
        } else {
            ModelFamily::Llama3
        }
    }

    /// The implementation for a configuration document, given what parsing it
    /// yields.
    pub open spec fn of_members(members: Map<Seq<char>, Seq<char>>) -> Self {
        Self::of(
            if members.contains_key("model_type"@) {
                Some(members["model_type"@])
            } else {
                None
            },
        )
    }

    /// The implementation for a `model_type`.
    pub fn from_model_type(model_type: Option<&str>) -> (res: Self)
        ensures
            res == Self::of(
                match model_type {
                    Some(t) => Some(t@),
                    None => None,
                },
            ),
    {
        proof {
            reveal_strlit("qwen3_vl");
            reveal_strlit("qwen3_5");
        }
        match model_type {
            Some(t) => {
                if text::same_text(t, "qwen3_vl") {
                    ModelFamily::Qwen3Vl
                } else if text::same_text(t, "qwen3_5") {
                    ModelFamily::Qwen38
                } else {
                    ModelFamily::Llama3
                }
            },
            None => ModelFamily::Llama3,
        }
    }

    /// The implementation for the configuration document `raw`, or why the
    /// document cannot be read.
    pub fn detect(raw: &[u8]) -> (res: Result<Self, String>)
        ensures
            match json::json_outcome(raw@) {
                Ok(members) => res == Ok::<Self, String>(Self::of_members(members)),
                Err(cause) => res is Err && res->Err_0@ == cause,
            },
    {
        match json::parse_json(raw) {
            Ok(document) => Ok(Self::from_model_type(json::string_member(&document, "model_type"))),
            Err(cause) => Err(cause),
        }
    }

    /// What the names of the model's layers start with.
    pub open spec fn spec_layer_prefix(self) -> Seq<char> {
        match self {
            ModelFamily::Qwen3Vl | ModelFamily::Qwen38 => "model.language_model.layers"@,
            ModelFamily::Llama3 => "model.layers"@,
        }
    }

    /// What the names of the model's layers start with.
    pub fn layer_prefix(self) -> (res: &'static str)
        ensures
            res@ == self.spec_layer_prefix(),
    {
        match self {
            ModelFamily::Qwen3Vl | ModelFamily::Qwen38 => "model.language_model.layers",
            ModelFamily::Llama3 => "model.layers",
        }
    }
}

/// The part of a model's configuration that options change.
#[derive(Debug, Clone, Copy)]
pub struct ModelConfig {
    pub attn_f32: bool,
    pub max_seq_len: usize,
}

impl ModelConfig {
    /// The configuration under `args`: attention as asked for, and the sequence
    /// length capped at the cache limit, if there is one.
    pub open spec fn under(self, args: &Args) -> Self {
        ModelConfig {
            attn_f32: args.attn_f32,
            max_seq_len: if args.kv_cache_max_len > 0 && self.max_seq_len > args.kv_cache_max_len {
                args.kv_cache_max_len
            } else {
                self.max_seq_len
            },
        }
    }
}

/// Where the assignment of layers comes from.
#[derive(Debug)]
pub enum TopologySource {
    /// A planner works it out; a master may write it down.
    Planned {
        profile: String,
        layer_prefix: &'static str,
        algorithm: AutoPlanAlgorithm,
        report: Option<String>,
    },
    /// A file holds it.
    File { path: String },
}

impl Clone for TopologySource {
    fn clone(&self) -> (res: Self)
        ensures
            res == *self,
    {
        match self {
            TopologySource::Planned { profile, layer_prefix, algorithm, report } => {
                TopologySource::Planned {
                    profile: profile.clone(),
                    layer_prefix: *layer_prefix,
                    algorithm: *algorithm,
                    report: text::copy_of(report),
                }
            },
            TopologySource::File { path } => TopologySource::File { path: path.clone() },
        }
    }
}

/// Where the weights come from.
#[derive(Debug, Clone, Copy, PartialEq, Eq, Structural)]
pub enum WeightsSource {
    /// The upstream library reads its own; none are loaded here.
    Placeholder,
    /// The index of the model directory.
    Index,
}

/// The files that the upstream library works on.
#[derive(Debug)]
pub struct GgmlFiles {
    pub library: String,
    pub weights: String,
}

impl Clone for GgmlFiles {
    fn clone(&self) -> (res: Self)
        ensures
            res == *self,
    {
        GgmlFiles { library: self.library.clone(), weights: self.weights.clone() }
    }
}

/// Something to set up for the model before its weights are read.
#[derive(Debug)]
pub enum ModelHook {
    /// How the built-in Qwen3.8 layers multiply quantized weights.
    QuantLinear { selector: Qwen38QuantLinear },
    /// What a Qwen3-VL worker takes over from a GGUF file.
    WorkerGguf {
        gguf: Option<String>,
        fp16_prefill: bool,
        output_head: bool,
        sample_token: bool,
        worker: bool,
    },
    /// Attention projections of Qwen3-VL on a neural processing unit.
    QkvRknn,
    /// Feed-forward layers of Qwen3-VL on a neural processing unit.
    MlpRknn,
    /// Eight-bit weights in the local layers of Qwen3-VL.
    LocalQ8 { enabled: bool },
    /// Eight-bit weights in the layers of a Qwen3-VL worker.
    WorkerW8a16 { enabled: bool, worker: bool },
}

/// Options that fit together.
#[derive(Debug)]
pub struct ContextSetup {
    pub args: Args,
    pub dtype: DType,
}

/// A node with its device.
#[derive(Debug)]
pub struct AttachedContext {
    pub args: Args,
    pub dtype: DType,
}

/// A node that knows which model it serves.
#[derive(Debug)]
pub struct DetectedContext {
    pub args: Args,
    pub dtype: DType,
    pub family: ModelFamily,
}

/// A node with the configuration of its model.
#[derive(Debug)]
pub struct ConfiguredContext {
    pub args: Args,
    pub dtype: DType,
    pub family: ModelFamily,
    /// The model's own configuration.
    pub config: ModelConfig,
}

/// Everything that is decided about a node before its weights are read.
#[derive(Debug)]
pub struct Context {
    pub args: Args,
    pub dtype: DType,
    pub family: ModelFamily,
    pub config: ModelConfig,
    pub ggml: Option<GgmlFiles>,
    pub topology: TopologySource,
    pub weights: WeightsSource,
}

impl Clone for Context {
    fn clone(&self) -> (res: Self)
        ensures
            res == *self,
    {
        Context {
            args: self.args.clone(),
            dtype: self.dtype,
            family: self.family,
            config: self.config,
            ggml: match &self.ggml {
                Some(files) => Some(files.clone()),
                None => None,
            },
            topology: self.topology.clone(),
            weights: self.weights,
        }
    }
}

/// The upstream library runs the layers.
pub open spec fn uses_ggml(args: &Args) -> bool {
    args.inference_backend == InferenceBackend::Qwen38Ggml
}

/// The first option that contradicts the chosen backend.
pub open spec fn option_error(args: &Args) -> Option<ContextError> {
    if uses_ggml(args) {
        if args.qwen38_gguf is None {
            Some(ContextError::GgufRequired)
        } else if args.qwen38_ggml_lib is None {
            Some(ContextError::GgmlLibRequired)
        } else if args.qwen38_quant_linear != Qwen38QuantLinear::Auto {
            Some(ContextError::QuantLinearConflict)
        } else if args.qwen38_mmproj is Some {
            Some(ContextError::MmprojUnsupported)
        } else {
            None
        }
    } else if args.qwen38_ggml_lib is Some {
        Some(ContextError::GgmlLibUnexpected)
    } else {
        None
    }
}

/// The files for the upstream library, where it is used and both are named.
pub open spec fn ggml_files(args: &Args) -> Option<GgmlFiles> {
    match (args.qwen38_ggml_lib, args.qwen38_gguf) {
        (Some(library), Some(weights)) => if uses_ggml(args) {
            Some(GgmlFiles { library, weights })
        } else {
            None
        },
        _ => None,
    }
}

/// Options that passed the check name both files for the upstream library, or,
/// with another backend, no library that would be ignored.
pub proof fn checked_options_settle_the_backend(args: Args)
    requires
        option_error(&args) is None,
    ensures
        uses_ggml(&args) ==> ggml_files(&args) is Some,
        !uses_ggml(&args) ==> args.qwen38_ggml_lib is None && ggml_files(&args) is None,
{
}

/// The cache limit only ever shortens sequences, and once it holds it changes
/// nothing more.
pub proof fn cache_limit_caps_sequences(config: ModelConfig, args: Args)
    ensures
        config.under(&args).max_seq_len <= config.max_seq_len,
        args.kv_cache_max_len > 0 ==> config.under(&args).max_seq_len <= args.kv_cache_max_len,
        args.kv_cache_max_len == 0 ==> config.under(&args).max_seq_len == config.max_seq_len,
        config.under(&args).under(&args) == config.under(&args),
{
}

/// The element type that an option names; half precision where none is named.
pub open spec fn named_dtype(dtype: Option<String>) -> Option<DType> {
    match dtype {
        Some(name) => if name@ == "f16"@ {
            Some(DType::F16)
        } else if name@ == "bf16"@ {
            Some(DType::BF16)
        } else if name@ == "f32"@ {
            Some(DType::F32)
        } else {
            None
        },
        None => Some(DType::F16),
    }
}

/// Reads the element type that an option names.
fn read_dtype(dtype: &Option<String>) -> (res: Option<DType>)
    ensures
        res == named_dtype(*dtype),
{
    match dtype {
        Some(name) => {
            if text::same_text(name.as_str(), "f16") {
                Some(DType::F16)
            } else if text::same_text(name.as_str(), "bf16") {
                Some(DType::BF16)
            } else if text::same_text(name.as_str(), "f32") {
                Some(DType::F32)
            } else {
                None
            }
        },
        None => Some(DType::F16),
    }
}

/// The first option that contradicts the chosen backend.
fn check_options(args: &Args) -> (res: Option<ContextError>)
    ensures
        res == option_error(args),
{
    if args.inference_backend == InferenceBackend::Qwen38Ggml {
        if args.qwen38_gguf.is_none() {
            Some(ContextError::GgufRequired)
        } else if args.qwen38_ggml_lib.is_none() {
            Some(ContextError::GgmlLibRequired)
        } else if args.qwen38_quant_linear != Qwen38QuantLinear::Auto {
            Some(ContextError::QuantLinearConflict)
        } else if args.qwen38_mmproj.is_some() {
            Some(ContextError::MmprojUnsupported)
        } else {
            None
        }
    } else if args.qwen38_ggml_lib.is_some() {
        Some(ContextError::GgmlLibUnexpected)
    } else {
        None
    }
}

impl Context {
    /// Checks the options before anything is opened.
    pub fn from_args(args: Args) -> (res: Result<ContextSetup, ContextError>)
        ensures
            res == match option_error(&args) {
                Some(e) => Err(e),
                None => match named_dtype(args.dtype) {
                    Some(dtype) => Ok(ContextSetup { args, dtype }),
                    None => Err(ContextError::UnsupportedDtype { dtype: args.dtype->0 }),
                },
            },
    {
        if let Some(e) = check_options(&args) {
            return Err(e);
        }
        match read_dtype(&args.dtype) {
            Some(dtype) => Ok(ContextSetup { args, dtype }),
            None => {
                let dtype = match &args.dtype {
                    Some(name) => name.clone(),
                    None => String::new(),
                };
                Err(ContextError::UnsupportedDtype { dtype })
            },
        }
    }
}

impl ContextSetup {
    /// What came of attaching to the device: whether it is a CUDA device, or why
    /// there is none. The upstream library accepts a CPU only where it was asked
    /// for.
    pub fn attach_device(self, is_cuda: Result<bool, String>) -> (res: Result<
        AttachedContext,
        ContextError,
    >)
        ensures
            res == match is_cuda {
                Err(cause) => Err(ContextError::AttachDevice { cause }),
                Ok(cuda) => if uses_ggml(&self.args) && !self.args.cpu && !cuda {
                    Err(ContextError::CudaRequired)
                } else {
                    Ok(AttachedContext { args: self.args, dtype: self.dtype })
                },
            },
    {
        match is_cuda {
            Err(cause) => Err(ContextError::AttachDevice { cause }),
            Ok(cuda) => {
                if self.args.inference_backend == InferenceBackend::Qwen38Ggml && !self.args.cpu
                    && !cuda {
                    Err(ContextError::CudaRequired)
                } else {
                    Ok(AttachedContext { args: self.args, dtype: self.dtype })
                }
            },
        }
    }
}

impl AttachedContext {
    /// What came of reading the configuration file at `path`: its bytes, or why
    /// there are none. The document decides which model this is.
    pub fn detect_model(self, path: &str, raw: Result<Vec<u8>, String>) -> (res: Result<
        DetectedContext,
        ContextError,
    >)
        ensures
            match raw {
                Err(cause) => {
                    &&& res matches Err(ContextError::ReadConfig { path: at, cause: c })
                    &&& at@ == path@
                    &&& c == cause
                },
                Ok(bytes) => match json::json_outcome(bytes@) {
                    Err(cause) => {
                        &&& res matches Err(ContextError::ParseConfig { path: at, cause: c })
                        &&& at@ == path@
                        &&& c@ == cause
                    },
                    Ok(members) => res == Ok::<DetectedContext, ContextError>(
                        self.with_family(ModelFamily::of_members(members)),
                    ),
                },
            },
    {
        match raw {
            Err(cause) => Err(ContextError::ReadConfig { path: path.to_owned(), cause }),
            Ok(bytes) => match ModelFamily::detect(bytes.as_slice()) {
                Err(cause) => Err(ContextError::ParseConfig { path: path.to_owned(), cause }),
                Ok(family) => Ok(self.for_family(family)),
            },
        }
    }

    /// The node as one that serves `family`.
    pub open spec fn with_family(self, family: ModelFamily) -> DetectedContext {
        DetectedContext { args: self.args, dtype: self.dtype, family }
    }

    /// The node as one that serves `family`.
    pub fn for_family(self, family: ModelFamily) -> (res: DetectedContext)
        ensures
            res == self.with_family(family),
    {
        DetectedContext { args: self.args, dtype: self.dtype, family }
    }
}

impl DetectedContext {
    /// Takes the model's own configuration. The upstream library serves one family
    /// only.
    pub fn configure(self, config: ModelConfig) -> (res: Result<ConfiguredContext, ContextError>)
        ensures
            res == if uses_ggml(&self.args) && self.family != ModelFamily::Qwen38 {
                Err(ContextError::ModelMismatch)
            } else {
                Ok(
                    ConfiguredContext {
                        args: self.args,
                        dtype: self.dtype,
                        family: self.family,
                        config,
                    },
                )
            },
    {
        if self.args.inference_backend == InferenceBackend::Qwen38Ggml && self.family
            != ModelFamily::Qwen38 {
            Err(ContextError::ModelMismatch)
        } else {
            Ok(
                ConfiguredContext {
                    args: self.args,
                    dtype: self.dtype,
                    family: self.family,
                    config,
                },
            )
        }
    }
}

impl ConfiguredContext {
    /// What has to be set up for the model before its weights are read, in order.
    pub open spec fn hooks(&self) -> Seq<ModelHook> {
        let worker = self.args.mode == Mode::Worker;
        match self.family {
            ModelFamily::Qwen3Vl => seq![
                ModelHook::WorkerGguf {
                    gguf: self.args.worker_quantized_gguf,
                    fp16_prefill: self.args.worker_gguf_fp16_prefill,
                    output_head: self.args.worker_gguf_output_head,
                    sample_token: self.args.worker_gguf_sample_token,
                    worker,
                },
                ModelHook::QkvRknn,
                ModelHook::MlpRknn,
                ModelHook::LocalQ8 { enabled: self.args.local_linear_q8 },
                ModelHook::WorkerW8a16 { enabled: self.args.worker_w8a16, worker },
            ],
            ModelFamily::Qwen38 => if uses_ggml(&self.args) {
                Seq::empty()
            } else {
                seq![ModelHook::QuantLinear { selector: self.args.qwen38_quant_linear }]
            },
            ModelFamily::Llama3 => Seq::empty(),
        }
    }

    /// What has to be set up for the model before its weights are read, in order.
    pub fn model_hooks(&self) -> (res: Vec<ModelHook>)
        ensures
            res@ == self.hooks(),
    {
        let mut hooks: Vec<ModelHook> = Vec::new();
        match self.family {
            ModelFamily::Qwen3Vl => {
                let worker = self.args.mode == Mode::Worker;
                let gguf = text::copy_of(&self.args.worker_quantized_gguf);
                hooks.push(
                    ModelHook::WorkerGguf {
                        gguf,
                        fp16_prefill: self.args.worker_gguf_fp16_prefill,
                        output_head: self.args.worker_gguf_output_head,
                        sample_token: self.args.worker_gguf_sample_token,
                        worker,
                    },
                );
                hooks.push(ModelHook::QkvRknn);
                hooks.push(ModelHook::MlpRknn);
                hooks.push(ModelHook::LocalQ8 { enabled: self.args.local_linear_q8 });
                hooks.push(ModelHook::WorkerW8a16 { enabled: self.args.worker_w8a16, worker });
            },
            ModelFamily::Qwen38 => {
                if self.args.inference_backend != InferenceBackend::Qwen38Ggml {
                    hooks.push(
                        ModelHook::QuantLinear { selector: self.args.qwen38_quant_linear },
                    );
                }
            },
            ModelFamily::Llama3 => {},
        }
        assert(hooks@ =~= self.hooks());
        hooks
    }

    /// The upstream library can work with the element type.
    pub open spec fn dtype_fits(&self) -> bool {
        uses_ggml(&self.args) ==> self.dtype == DType::F16 || (self.args.cpu && self.dtype
            == DType::F32)
    }

    /// The assignment of layers comes from a planner where profiles are given,
    /// else from the topology file. Only a master writes the plan down.
    pub open spec fn comes_from(&self, topology: TopologySource) -> bool {
        match self.args.auto_plan_profile {
            Some(given) => {
                &&& topology matches TopologySource::Planned {
                    profile,
                    layer_prefix,
                    algorithm,
                    report,
                }
                &&& profile == given
                &&& layer_prefix@ == self.family.spec_layer_prefix()
                &&& algorithm == self.args.auto_plan_algorithm
                &&& report == if self.args.mode == Mode::Master {
                    self.args.auto_plan_output
                } else {
                    None
                }
            },
            None => topology == (TopologySource::File { path: self.args.topology }),
        }
    }

    /// Decides the rest.
    pub fn finish(self) -> (res: Result<Context, ContextError>)
        ensures
            if !self.dtype_fits() {
                res == Err::<Context, ContextError>(ContextError::GgmlDtype)
            } else {
                &&& res matches Ok(ctx)
                &&& ctx.args == self.args
                &&& ctx.dtype == self.dtype
                &&& ctx.family == self.family
                &&& ctx.config == self.config.under(&self.args)
                &&& self.comes_from(ctx.topology)
                &&& ctx.weights == if uses_ggml(&self.args) {
                    WeightsSource::Placeholder
                } else {
                    WeightsSource::Index
                }
                &&& ctx.ggml == ggml_files(&self.args)
            },
    {
        let ggml = self.args.inference_backend == InferenceBackend::Qwen38Ggml;
        let max_seq_len: usize = if self.args.kv_cache_max_len > 0
            && self.config.max_seq_len > self.args.kv_cache_max_len {
            self.args.kv_cache_max_len
        } else {
            self.config.max_seq_len
        };
        let config = ModelConfig { attn_f32: self.args.attn_f32, max_seq_len };
        if ggml && self.dtype != DType::F16 && !(self.args.cpu && self.dtype == DType::F32) {
            return Err(ContextError::GgmlDtype);
        }
        let files = match (&self.args.qwen38_ggml_lib, &self.args.qwen38_gguf) {
            (Some(library), Some(weights)) if ggml => Some(
                GgmlFiles { library: library.clone(), weights: weights.clone() },
            ),
            _ => None,
        };
        let topology = match &self.args.auto_plan_profile {
            Some(profile) => {
                let report = match (&self.args.mode, &self.args.auto_plan_output) {
                    (Mode::Master, Some(path)) => Some(path.clone()),
                    _ => None,
                };
                TopologySource::Planned {
                    profile: profile.clone(),
                    layer_prefix: self.family.layer_prefix(),
                    algorithm: self.args.auto_plan_algorithm,
                    report,
                }
            },
            None => TopologySource::File { path: self.args.topology.clone() },
        };
        let weights = if ggml {
            WeightsSource::Placeholder
        } else {
            WeightsSource::Index
        };
        Ok(
            Context {
                args: self.args,
                dtype: self.dtype,
                family: self.family,
                config,
                ggml: files,
                topology,
                weights,
            },
        )
    }
}

} // verus!
