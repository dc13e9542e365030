//! The options of a node.

use vstd::prelude::*;

use crate::text;

use super::Mode;

verus! {

/// What runs the layers.
#[derive(Debug, Clone, Copy, PartialEq, Eq, Structural)]
pub enum InferenceBackend {
    /// The built-in layer implementations.
    Native,
    /// A proxy for a model server.
    Qwen38Rpc,
    /// The operators of an upstream tensor library, loaded at run time.
    Qwen38Ggml,
}

/// How the built-in implementation multiplies quantized weights.
#[derive(Debug, Clone, Copy, PartialEq, Eq, Structural)]
pub enum Qwen38QuantLinear {
    Auto,
    Dense,
    Cuda,
}

/// How layers are assigned to nodes from measured profiles.
#[derive(Debug, Clone, Copy, PartialEq, Eq, Structural)]
pub enum AutoPlanAlgorithm {
    Dial,
    EdgeshardLatency,
    EdgeshardThroughput,
}

/// The options that decide how a node starts and what a master generates.
#[derive(Debug)]
pub struct Args {
    pub mode: Mode,
    /// Where the HTTP interface listens, if it is wanted.
    pub api: Option<String>,
    /// The model directory.
    pub model: String,
    /// The file that assigns layers to workers.
    pub topology: String,
    pub prompt: String,
    pub system_prompt: String,
    /// How many tokens a request may generate.
    pub sample_len: usize,
    /// Whether to stay on the CPU.
    pub cpu: bool,
    /// The accelerator to use otherwise.
    pub device: usize,
    /// The element type of weights and activations.
    pub dtype: Option<String>,
    pub inference_backend: InferenceBackend,
    pub qwen38_gguf: Option<String>,
    pub qwen38_ggml_lib: Option<String>,
    pub qwen38_mmproj: Option<String>,
    pub qwen38_quant_linear: Qwen38QuantLinear,
    /// The weights that a worker reads its layers from.
    pub worker_quantized_gguf: Option<String>,
    pub worker_gguf_fp16_prefill: bool,
    /// Whether the last worker also computes the output projection.
    pub worker_gguf_output_head: bool,
    /// Whether the last worker samples the token.
    pub worker_gguf_sample_token: bool,
    /// Whether a worker keeps its weights in eight bits.
    pub worker_w8a16: bool,
    /// Whether local layers keep their weights in eight bits.
    pub local_linear_q8: bool,
    /// Whether attention is computed in single precision.
    pub attn_f32: bool,
    /// A limit on the length of the cache; zero sets none.
    pub kv_cache_max_len: usize,
    /// Measured profiles; given these, layers are assigned by a planner.
    pub auto_plan_profile: Option<String>,
    pub auto_plan_algorithm: AutoPlanAlgorithm,
    /// Where a master writes the plan.
    pub auto_plan_output: Option<String>,
}

impl Clone for Args {
    fn clone(&self) -> (res: Self)
        ensures
            res == *self,
    {
        Args {
            mode: self.mode,
            api: text::copy_of(&self.api),
            model: self.model.clone(),
            topology: self.topology.clone(),
            prompt: self.prompt.clone(),
            system_prompt: self.system_prompt.clone(),
            sample_len: self.sample_len,
            cpu: self.cpu,
            device: self.device,
            dtype: text::copy_of(&self.dtype),
            inference_backend: self.inference_backend,
            qwen38_gguf: text::copy_of(&self.qwen38_gguf),
            qwen38_ggml_lib: text::copy_of(&self.qwen38_ggml_lib),
            qwen38_mmproj: text::copy_of(&self.qwen38_mmproj),
            qwen38_quant_linear: self.qwen38_quant_linear,
            worker_quantized_gguf: text::copy_of(&self.worker_quantized_gguf),
            worker_gguf_fp16_prefill: self.worker_gguf_fp16_prefill,
            worker_gguf_output_head: self.worker_gguf_output_head,
            worker_gguf_sample_token: self.worker_gguf_sample_token,
            worker_w8a16: self.worker_w8a16,
            local_linear_q8: self.local_linear_q8,
            attn_f32: self.attn_f32,
            kv_cache_max_len: self.kv_cache_max_len,
            auto_plan_profile: text::copy_of(&self.auto_plan_profile),
            auto_plan_algorithm: self.auto_plan_algorithm,
            auto_plan_output: text::copy_of(&self.auto_plan_output),
        }
    }
}

impl Default for Args {
    /// Nothing is set: a master with the built-in backend.
    fn default() -> (res: Self)
        ensures
            res.mode == Mode::Master,
            res.api is None,
            res.model@ == Seq::<char>::empty(),
            res.topology@ == Seq::<char>::empty(),
            res.prompt@ == Seq::<char>::empty(),
            res.system_prompt@ == Seq::<char>::empty(),
            res.sample_len == 0,
            !res.cpu,
            res.device == 0,
            res.dtype is None,
            res.inference_backend == InferenceBackend::Native,
            res.qwen38_gguf is None,
            res.qwen38_ggml_lib is None,
            res.qwen38_mmproj is None,
            res.qwen38_quant_linear == Qwen38QuantLinear::Auto,
            res.worker_quantized_gguf is None,
            !res.worker_gguf_fp16_prefill,
            !res.worker_gguf_output_head,
            !res.worker_gguf_sample_token,
            !res.worker_w8a16,
            !res.local_linear_q8,
            !res.attn_f32,
            res.kv_cache_max_len == 0,
            res.auto_plan_profile is None,
            res.auto_plan_algorithm == AutoPlanAlgorithm::Dial,
            res.auto_plan_output is None,
    {
        Args {
            mode: Mode::Master,
            api: None,
            model: String::new(),
            topology: String::new(),
            prompt: String::new(),
            system_prompt: String::new(),
            sample_len: 0,
            cpu: false,
            device: 0,
            dtype: None,
            inference_backend: InferenceBackend::Native,
            qwen38_gguf: None,
            qwen38_ggml_lib: None,
            qwen38_mmproj: None,
            qwen38_quant_linear: Qwen38QuantLinear::Auto,
            worker_quantized_gguf: None,
            worker_gguf_fp16_prefill: false,
            worker_gguf_output_head: false,
            worker_gguf_sample_token: false,
            worker_w8a16: false,
            local_linear_q8: false,
            attn_f32: false,
            kv_cache_max_len: 0,
            auto_plan_profile: None,
            auto_plan_algorithm: AutoPlanAlgorithm::Dial,
            auto_plan_output: None,
        }
    }
}

} // verus!
