use kyutaistt::ieee::{Binary32, Binary64};
use kyutaistt::model::SttModel;
use kyutaistt::setup::{
    ends_with, is_quantized, select_device, Config, DeviceKind, ExtraHeadsConfig, Gating, ModelInfo, NormType,
    PositionalEmbedding, SttConfig,
};

fn double(x: f64) -> Binary64 {
    Binary64 { bits: x.to_bits() }
}

fn config() -> Config {
    Config {
        mimi_name: "mimi.safetensors".to_string(),
        tokenizer_name: "tokenizer.model".to_string(),
        card: 2048,
        text_card: 8000,
        dim: 2048,
        n_q: 32,
        context: 750,
        max_period: double(100000.0),
        num_heads: 16,
        num_layers: 16,
        causal: true,
        stt_config: SttConfig {
            audio_silence_prefix_samples: double(0.25 * 24000.0),
            audio_delay_samples: double(0.5 * 24000.0),
            audio_delay_tokens: double(0.5 * 12.5),
        },
    }
}

#[test]
fn devices_are_tried_in_order() {
    assert_eq!(select_device(true, true, true), DeviceKind::Cpu);
    assert_eq!(select_device(false, true, true), DeviceKind::Cuda(0));
    assert_eq!(select_device(false, false, true), DeviceKind::Metal(0));
    assert_eq!(select_device(false, false, false), DeviceKind::Cpu);
}

#[test]
fn the_device_follows_the_build() {
    assert_eq!(SttModel::device(true), DeviceKind::Cpu);
    assert_eq!(
        SttModel::device(false),
        select_device(
            false,
            candle_core::utils::cuda_is_available(),
            candle_core::utils::metal_is_available()
        )
    );
}

#[test]
fn the_shape_of_the_model() {
    let config = config();
    assert!(config.can_shape());
    let shape = config.model_config(true);
    assert_eq!(shape.audio_vocab_size, 2049);
    assert_eq!(shape.text_in_vocab_size, 8001);
    assert_eq!(shape.text_out_vocab_size, 8000);
    assert_eq!(shape.audio_codebooks, 32);
    assert_eq!(
        shape.extra_heads,
        Some(ExtraHeadsConfig {
            num_heads: 4,
            dim: 6
        })
    );
    let transformer = shape.transformer;
    assert_eq!(transformer.d_model, 2048);
    assert_eq!(transformer.num_heads, 16);
    assert_eq!(transformer.num_layers, 16);
    assert_eq!(transformer.dim_feedforward, 8192);
    assert!(transformer.causal);
    assert!(transformer.norm_first);
    assert!(!transformer.bias_ff);
    assert!(!transformer.bias_attn);
    assert_eq!(transformer.layer_scale, None);
    assert_eq!(transformer.context, 750);
    assert_eq!(transformer.max_period, 100000);
    assert!(!transformer.use_conv_block);
    assert!(transformer.use_conv_bias);
    assert!(!transformer.cross_attention);
    assert_eq!(transformer.gating, Some(Gating::Silu));
    assert_eq!(transformer.norm, NormType::RmsNorm);
    assert_eq!(transformer.positional_embedding, PositionalEmbedding::Rope);
    assert!(!transformer.conv_layout);
    assert_eq!(transformer.conv_kernel_size, 3);
    assert_eq!(transformer.kv_repeat, 1);
    assert_eq!(transformer.max_seq_len, 16384);
    assert!(!transformer.shared_cross_attn);

    assert_eq!(config.model_config(false).extra_heads, None);
}

#[test]
fn sizes_that_do_not_fit_are_told_apart() {
    let mut large = config();
    large.dim = usize::MAX / 4 + 1;
    assert!(!large.can_shape());
    let mut large = config();
    large.card = usize::MAX;
    assert!(!large.can_shape());
    let mut large = config();
    large.text_card = usize::MAX;
    assert!(!large.can_shape());
}

#[test]
fn the_delay_is_cut_to_whole_tokens() {
    assert_eq!(config().delay_in_tokens(), 6);
}

#[test]
fn a_session_starts_with_its_silence_and_its_delay() {
    let (mut model, info) = SttModel::load(
        "kyutai/stt",
        Some("model.safetensors"),
        &config(),
        true,
        Binary32 { bits: 0.25f32.to_bits() },
        DeviceKind::Cpu,
    );
    assert_eq!(model.temperature(), double(0.25));
    assert_eq!(info.sample_rate, 24000);
    assert!(!info.gpu_enabled);
    assert_eq!(info.hf_repo, "kyutai/stt");
    assert!(!info.quantized);
    // 6000 samples of silence go before the first 10000.
    let run = model.process_chunk(&vec![Binary32 { bits: 0 }; 10000]);
    assert_eq!(run.remaining(), 9);
    let run = model.flush();
    assert_eq!(run.remaining(), 19);
}

#[test]
fn quantized_weights_are_known_by_their_name() {
    let told = |file| ModelInfo::describe("repo", file, DeviceKind::Metal(0));
    assert!(is_quantized(Some("model.gguf")));
    assert!(told(Some("/cache/model.gguf")).quantized);
    assert!(!told(Some("model.gguf.safetensors")).quantized);
    assert!(!told(None).quantized);
    assert!(told(None).gpu_enabled);
    assert!(ModelInfo::describe("repo", None, DeviceKind::Cuda(0)).gpu_enabled);
    assert!(!ModelInfo::describe("repo", None, DeviceKind::Cpu).gpu_enabled);
}

#[test]
fn suffixes() {
    assert!(ends_with("abc.gguf", ".gguf"));
    assert!(ends_with(".gguf", ".gguf"));
    assert!(!ends_with("gguf", ".gguf"));
    assert!(ends_with("caf\u{e9}.gguf", "\u{e9}.gguf"));
    assert!(ends_with("x", ""));
}
