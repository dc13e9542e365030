use dial_core::spm::args::{Args, AutoPlanAlgorithm, InferenceBackend, Qwen38QuantLinear};
use dial_core::spm::context::{
    AttachedContext, ConfiguredContext, Context, ContextError, ModelConfig, ModelFamily, ModelHook,
    TopologySource, WeightsSource,
};
use dial_core::spm::proto::DType;
use dial_core::spm::Mode;

fn error(args: Args) -> String {
    Context::from_args(args)
        .err()
        .expect("invalid GGML options must fail before device/model setup")
        .to_string()
}

fn ggml() -> Args {
    Args {
        inference_backend: InferenceBackend::Qwen38Ggml,
        qwen38_gguf: Some("test.gguf".into()),
        qwen38_ggml_lib: Some("test.so".into()),
        ..Default::default()
    }
}

fn attached(args: Args) -> AttachedContext {
    Context::from_args(args).unwrap().attach_device(Ok(true)).unwrap()
}

fn configured(args: Args, family: ModelFamily) -> ConfiguredContext {
    let config = ModelConfig { attn_f32: false, max_seq_len: 4096 };
    attached(args).for_family(family).configure(config).unwrap()
}

#[test]
fn ggml_requires_explicit_weights_and_library() {
    let args = || Args {
        inference_backend: InferenceBackend::Qwen38Ggml,
        ..Default::default()
    };
    assert!(error(args()).contains("--qwen38-gguf"));
    assert!(error(Args {
        qwen38_gguf: Some("test.gguf".into()),
        ..args()
    })
    .contains("--qwen38-ggml-lib"));
}

#[test]
fn ggml_rejects_legacy_quant_linear_selector() {
    let args = Args {
        inference_backend: InferenceBackend::Qwen38Ggml,
        qwen38_gguf: Some("test.gguf".into()),
        qwen38_ggml_lib: Some("test.so".into()),
        qwen38_quant_linear: Qwen38QuantLinear::Cuda,
        ..Default::default()
    };
    assert!(error(args).contains("not --qwen38-quant-linear"));
}

#[test]
fn ggml_library_cannot_be_silently_ignored_by_native() {
    assert!(error(Args {
        qwen38_ggml_lib: Some("test.so".into()),
        ..Default::default()
    })
    .contains("requires --inference-backend qwen38-ggml"));
}

#[test]
fn ggml_serves_text_only() {
    let args = Args { qwen38_mmproj: Some("mm.gguf".into()), ..ggml() };
    assert_eq!(error(args), "qwen38-ggml currently supports text only");
}

#[test]
fn element_types_by_name() {
    for (name, dtype) in [("f16", DType::F16), ("bf16", DType::BF16), ("f32", DType::F32)] {
        let args = Args { dtype: Some(name.into()), ..Default::default() };
        assert_eq!(Context::from_args(args).unwrap().dtype, dtype);
    }
    assert_eq!(Context::from_args(Args::default()).unwrap().dtype, DType::F16);
    let args = Args { dtype: Some("F16".into()), ..Default::default() };
    assert_eq!(error(args), "unsupported dtype F16");
}

#[test]
fn device_must_be_there() {
    let res = Context::from_args(Args::default()).unwrap().attach_device(Err("busy".into()));
    assert_eq!(res.err().unwrap().to_string(), "can't attach to device: busy");
}

#[test]
fn ggml_does_not_fall_back_to_the_cpu() {
    let res = Context::from_args(ggml()).unwrap().attach_device(Ok(false));
    assert_eq!(
        res.err().unwrap().to_string(),
        "qwen38-ggml GPU mode requires a CUDA build/device; no silent CPU fallback (use --cpu \
         only for tests)"
    );
    let on_cpu = Args { cpu: true, ..ggml() };
    assert!(Context::from_args(on_cpu).unwrap().attach_device(Ok(false)).is_ok());
    assert!(Context::from_args(ggml()).unwrap().attach_device(Ok(true)).is_ok());
    assert!(Context::from_args(Args::default()).unwrap().attach_device(Ok(false)).is_ok());
}

#[test]
fn model_type_picks_the_family() {
    let detect = |raw: &str| ModelFamily::detect(raw.as_bytes());
    assert_eq!(detect(r#"{"model_type": "qwen3_vl"}"#), Ok(ModelFamily::Qwen3Vl));
    assert_eq!(detect(r#"{"a": [1], "model_type": "qwen3_5"}"#), Ok(ModelFamily::Qwen38));
    assert_eq!(detect(r#"{"model_type": "llama"}"#), Ok(ModelFamily::Llama3));
    assert_eq!(detect(r#"{"model_type": 5}"#), Ok(ModelFamily::Llama3));
    assert_eq!(detect(r#"{"inner": {"model_type": "qwen3_vl"}}"#), Ok(ModelFamily::Llama3));
    assert_eq!(detect("{}"), Ok(ModelFamily::Llama3));
    assert_eq!(detect(r#""qwen3_vl""#), Ok(ModelFamily::Llama3));
    assert_eq!(detect(r#"["model_type", "qwen3_vl"]"#), Ok(ModelFamily::Llama3));
    assert_eq!(ModelFamily::from_model_type(None), ModelFamily::Llama3);
    assert_eq!(ModelFamily::from_model_type(Some("qwen3_5")), ModelFamily::Qwen38);
}

#[test]
fn unreadable_documents_are_reported() {
    let cause = ModelFamily::detect(b"{\"model_type\": ").unwrap_err();
    assert!(cause.contains("EOF"), "{cause}");
    let raw = Ok(b"{\"model_type\": ".to_vec());
    let e = attached(Args::default()).detect_model("m/config.json", raw).err().unwrap();
    assert_eq!(e.to_string(), format!("can't parse m/config.json: {cause}"));
    let raw = Err("NotFound".to_string());
    let e = attached(Args::default()).detect_model("m/config.json", raw).err().unwrap();
    assert_eq!(e.to_string(), "can't read m/config.json: NotFound");
}

#[test]
fn document_decides_the_model() {
    let raw = Ok(br#"{"model_type": "qwen3_vl"}"#.to_vec());
    let detected = attached(Args::default()).detect_model("c", raw).unwrap();
    assert_eq!(detected.family, ModelFamily::Qwen3Vl);
}

#[test]
fn ggml_serves_one_family() {
    let config = ModelConfig { attn_f32: false, max_seq_len: 1 };
    for family in [ModelFamily::Qwen3Vl, ModelFamily::Llama3] {
        let e = attached(ggml()).for_family(family).configure(config).err().unwrap();
        assert!(matches!(e, ContextError::ModelMismatch));
        assert_eq!(
            e.to_string(),
            "qwen38-ggml requires a Qwen3.8 HF config/tokenizer directory (--model), not a GGUF path"
        );
    }
    assert!(attached(ggml()).for_family(ModelFamily::Qwen38).configure(config).is_ok());
}

#[test]
fn hooks_depend_on_family_and_backend() {
    let hooks = |args, family| configured(args, family).model_hooks();
    assert!(hooks(Args::default(), ModelFamily::Llama3).is_empty());
    assert!(hooks(ggml(), ModelFamily::Qwen38).is_empty());
    let dense = Args { qwen38_quant_linear: Qwen38QuantLinear::Dense, ..Default::default() };
    let native = hooks(dense, ModelFamily::Qwen38);
    assert!(matches!(
        native[..],
        [ModelHook::QuantLinear { selector: Qwen38QuantLinear::Dense }]
    ));
}

#[test]
fn vision_model_has_its_hooks_in_order() {
    for mode in [Mode::Master, Mode::Worker] {
        let args = Args {
            mode,
            worker_quantized_gguf: Some("w.gguf".into()),
            worker_gguf_output_head: true,
            worker_w8a16: true,
            ..Default::default()
        };
        let hooks = configured(args, ModelFamily::Qwen3Vl).model_hooks();
        let is_worker = mode == Mode::Worker;
        assert_eq!(hooks.len(), 5);
        match &hooks[0] {
            ModelHook::WorkerGguf { gguf, fp16_prefill, output_head, sample_token, worker } => {
                assert_eq!(gguf.as_deref(), Some("w.gguf"));
                assert_eq!((*fp16_prefill, *output_head, *sample_token), (false, true, false));
                assert_eq!(*worker, is_worker);
            }
            other => panic!("{other:?}"),
        }
        assert!(matches!(hooks[1], ModelHook::QkvRknn));
        assert!(matches!(hooks[2], ModelHook::MlpRknn));
        assert!(matches!(hooks[3], ModelHook::LocalQ8 { enabled: false }));
        match hooks[4] {
            ModelHook::WorkerW8a16 { enabled, worker } => {
                assert_eq!((enabled, worker), (true, is_worker));
            }
            ref other => panic!("{other:?}"),
        }
    }
}

#[test]
fn ggml_wants_half_precision() {
    let finish = |args| configured(args, ModelFamily::Qwen38).finish();
    let f32_on_gpu = Args { dtype: Some("f32".into()), ..ggml() };
    assert_eq!(
        finish(f32_on_gpu).err().unwrap().to_string(),
        "qwen38-ggml requires --dtype f16 for GPU/wire compatibility (CPU tests may use f32)"
    );
    let bf16_on_cpu = Args { dtype: Some("bf16".into()), cpu: true, ..ggml() };
    assert!(matches!(finish(bf16_on_cpu), Err(ContextError::GgmlDtype)));
    let f32_on_cpu = Args { dtype: Some("f32".into()), cpu: true, ..ggml() };
    assert!(finish(f32_on_cpu).is_ok());
    let ctx = finish(ggml()).unwrap();
    assert_eq!(ctx.weights, WeightsSource::Placeholder);
    let files = ctx.ggml.unwrap();
    assert_eq!((files.library.as_str(), files.weights.as_str()), ("test.so", "test.gguf"));
}

#[test]
fn cache_limit_caps_the_sequence_length() {
    for (limit, expected) in [(0, 4096), (100, 100), (4096, 4096), (9000, 4096)] {
        let args = Args { kv_cache_max_len: limit, attn_f32: true, ..Default::default() };
        let ctx = configured(args, ModelFamily::Llama3).finish().unwrap();
        assert_eq!(ctx.config.max_seq_len, expected);
        assert!(ctx.config.attn_f32);
        assert_eq!(ctx.weights, WeightsSource::Index);
        assert!(ctx.ggml.is_none());
    }
}

#[test]
fn topology_comes_from_the_file_without_profiles() {
    let args = Args { topology: "t.yml".into(), ..Default::default() };
    match configured(args, ModelFamily::Llama3).finish().unwrap().topology {
        TopologySource::File { path } => assert_eq!(path, "t.yml"),
        other => panic!("{other:?}"),
    }
}

#[test]
fn planned_topology_is_written_by_the_master() {
    let args = |mode| Args {
        mode,
        auto_plan_profile: Some("p.json".into()),
        auto_plan_algorithm: AutoPlanAlgorithm::EdgeshardLatency,
        auto_plan_output: Some("plan.json".into()),
        ..Default::default()
    };
    for (mode, family, prefix, written) in [
        (Mode::Master, ModelFamily::Llama3, "model.layers", Some("plan.json")),
        (Mode::Worker, ModelFamily::Qwen38, "model.language_model.layers", None),
        (Mode::Master, ModelFamily::Qwen3Vl, "model.language_model.layers", Some("plan.json")),
    ] {
        match configured(args(mode), family).finish().unwrap().topology {
            TopologySource::Planned { profile, layer_prefix, algorithm, report } => {
                assert_eq!(profile, "p.json");
                assert_eq!(layer_prefix, prefix);
                assert_eq!(algorithm, AutoPlanAlgorithm::EdgeshardLatency);
                assert_eq!(report.as_deref(), written);
            }
            other => panic!("{other:?}"),
        }
    }
}

#[test]
fn nodes_are_masters_by_default() {
    assert_eq!(Mode::default(), Mode::Master);
    assert_eq!(Args::default().mode, Mode::Master);
}

#[test]
fn cloned_contexts_agree() {
    let planned = Args {
        auto_plan_profile: Some("p.json".into()),
        auto_plan_output: Some("plan.json".into()),
        ..ggml()
    };
    for args in [planned, ggml(), Args { api: Some("a:1".into()), ..ggml() }] {
        let ctx = configured(args, ModelFamily::Qwen38).finish().unwrap();
        assert_eq!(format!("{:?}", ctx.clone()), format!("{ctx:?}"));
    }
}
