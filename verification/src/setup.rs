//! Setting up the model: where it runs, how it is shaped, what is told of it.
use crate::ieee::{Binary32, Binary64};
use crate::model::SttModel;
use crate::pcm;
use vstd::prelude::*;
use vstd::string::*;

verus! {

/// Where the model runs.
#[derive(Clone, Copy, Debug, PartialEq, Eq, Structural)]
pub enum DeviceKind {
    /// On the processor.
    Cpu,
    /// On the CUDA device of this number.
    Cuda(usize),
    /// On the Metal device of this number.
    Metal(usize),
}

/// The best device: the processor if it is asked for or if there is nothing
/// else; CUDA before Metal.
pub open spec fn best_device(cpu: bool, cuda: bool, metal: bool) -> DeviceKind {
    if cpu {
        DeviceKind::Cpu
    } else if cuda {
        DeviceKind::Cuda(0)
    } else if metal {
        DeviceKind::Metal(0)
    } else {
        DeviceKind::Cpu
    }
}

/// Selects the best device, given what is available.
pub fn select_device(cpu: bool, cuda: bool, metal: bool) -> (device: DeviceKind)
    ensures
        device == best_device(cpu, cuda, metal),
{
    if cpu {
        DeviceKind::Cpu
    } else if cuda {
        DeviceKind::Cuda(0)
    } else if metal {
        DeviceKind::Metal(0)
    } else {
        DeviceKind::Cpu
    }
}

/// Calls `candle_core::utils::cuda_is_available`, which says whether the tensor
/// library was built for CUDA. Nothing is claimed of the answer: it is a
/// property of the build.
#[verifier::external_body]
fn cuda_is_available() -> bool {
    candle_core::utils::cuda_is_available()
}

/// Calls `candle_core::utils::metal_is_available`, which says whether the tensor
/// library was built for Metal. Nothing is claimed of the answer: it is a
/// property of the build.
#[verifier::external_body]
fn metal_is_available() -> bool {
    candle_core::utils::metal_is_available()
}

/// Whether this is what `candle_core::utils::cuda_is_available` can answer.
pub closed spec fn cuda_says(answer: bool) -> bool {
    call_ensures(cuda_is_available, (), answer)
}

/// Whether this is what `candle_core::utils::metal_is_available` can answer.
pub closed spec fn metal_says(answer: bool) -> bool {
    call_ensures(metal_is_available, (), answer)
}

/// Puts a question, and keeps hold of who answered.
fn ask(question: impl Fn() -> bool) -> (answer: bool)
    requires
        call_requires(question, ()),
    ensures
        call_ensures(question, (), answer),
{
    question()
}

/// How the stream is aligned with what the model says of it. Each number is the
/// configured time, in seconds, times the rate that its name gives.
#[derive(Clone, Copy, Debug, PartialEq, Eq, Structural)]
pub struct SttConfig {
    /// The silence before the stream, at 24000 samples a second.
    pub audio_silence_prefix_samples: Binary64,
    /// The delay of the model, at 24000 samples a second.
    pub audio_delay_samples: Binary64,
    /// The delay of the model, at 12.5 tokens a second.
    pub audio_delay_tokens: Binary64,
}

/// The configuration that comes with a model.
#[derive(Debug, PartialEq, Eq)]
pub struct Config {
    /// The file that holds the audio codec.
    pub mimi_name: String,
    /// The file that holds the text tokenizer.
    pub tokenizer_name: String,
    /// The size of the audio vocabulary.
    pub card: usize,
    /// The size of the text vocabulary.
    pub text_card: usize,
    /// The width of the model.
    pub dim: usize,
    /// The number of audio codebooks.
    pub n_q: usize,
    /// The length of the attention window.
    pub context: usize,
    /// The longest period of the positional embedding.
    pub max_period: Binary64,
    /// The number of attention heads.
    pub num_heads: usize,
    /// The number of layers.
    pub num_layers: usize,
    /// Whether attention looks back only.
    pub causal: bool,
    /// How the stream is aligned.
    pub stt_config: SttConfig,
}

/// The activation of a gated feed-forward block.
#[derive(Clone, Copy, Debug, PartialEq, Eq, Structural)]
pub enum Gating {
    /// The sigmoid linear unit.
    Silu,
}

/// How activations are normalized.
#[derive(Clone, Copy, Debug, PartialEq, Eq, Structural)]
pub enum NormType {
    /// By their root mean square.
    RmsNorm,
}

/// How positions are told apart.
#[derive(Clone, Copy, Debug, PartialEq, Eq, Structural)]
pub enum PositionalEmbedding {
    /// By rotation.
    Rope,
}

/// The shape of the transformer.
#[derive(Clone, Copy, Debug, PartialEq, Eq, Structural)]
pub struct TransformerConfig {
    /// The width of the model.
    pub d_model: usize,
    /// The number of attention heads.
    pub num_heads: usize,
    /// The number of layers.
    pub num_layers: usize,
    /// The width of the feed-forward blocks.
    pub dim_feedforward: usize,
    /// Whether attention looks back only.
    pub causal: bool,
    /// Whether normalization comes first.
    pub norm_first: bool,
    /// Whether feed-forward blocks have a bias.
    pub bias_ff: bool,
    /// Whether attention has a bias.
    pub bias_attn: bool,
    /// How layers are scaled, if they are.
    pub layer_scale: Option<Binary64>,
    /// The length of the attention window.
    pub context: usize,
    /// The longest period of the positional embedding.
    pub max_period: usize,
    /// Whether there are convolution blocks.
    pub use_conv_block: bool,
    /// Whether convolutions have a bias.
    pub use_conv_bias: bool,
    /// Whether there is attention to another stream.
    pub cross_attention: bool,
    /// The activation of the gated feed-forward blocks.
    pub gating: Option<Gating>,
    /// How activations are normalized.
    pub norm: NormType,
    /// How positions are told apart.
    pub positional_embedding: PositionalEmbedding,
    /// Whether tensors are laid out for convolutions.
    pub conv_layout: bool,
    /// The width of convolutions.
    pub conv_kernel_size: usize,
    /// How often keys and values are repeated.
    pub kv_repeat: usize,
    /// The longest sequence.
    pub max_seq_len: usize,
    /// Whether layers share attention to another stream.
    pub shared_cross_attn: bool,
}

/// Heads beside the one for text.
#[derive(Clone, Copy, Debug, PartialEq, Eq, Structural)]
pub struct ExtraHeadsConfig {
    /// How many there are.
    pub num_heads: usize,
    /// The width of each.
    pub dim: usize,
}

/// The shape of the language model. It has neither a depth transformer nor
/// conditioners.
#[derive(Clone, Copy, Debug, PartialEq, Eq, Structural)]
pub struct LmConfig {
    /// The shape of the transformer.
    pub transformer: TransformerConfig,
    /// The audio vocabulary, padding included.
    pub audio_vocab_size: usize,
    /// The text vocabulary that is read, padding included.
    pub text_in_vocab_size: usize,
    /// The text vocabulary that is written.
    pub text_out_vocab_size: usize,
    /// The number of audio codebooks.
    pub audio_codebooks: usize,
    /// The voice-activity heads, if there are any.
    pub extra_heads: Option<ExtraHeadsConfig>,
}

impl Config {
    /// Whether the sizes that the shape of the model needs fit a `usize`.
    pub open spec fn fits(&self) -> bool {
        &&& self.dim * 4 <= usize::MAX
        &&& self.card + 1 <= usize::MAX
        &&& self.text_card + 1 <= usize::MAX
    }

    /// Whether [`Config::model_config`] can be called.
    pub fn can_shape(&self) -> (can: bool)
        ensures
            can == self.fits(),
    {
        self.dim <= usize::MAX / 4 && self.card < usize::MAX && self.text_card < usize::MAX
    }

    /// The shape of the model that the configuration describes: four
    /// voice-activity heads if `vad`, the feed-forward blocks four times as wide
    /// as the model, one padding entry in each vocabulary that is read.
    pub open spec fn shape(&self, vad: bool) -> LmConfig {
        LmConfig {
            transformer: TransformerConfig {
                d_model: self.dim,
                num_heads: self.num_heads,
                num_layers: self.num_layers,
                dim_feedforward: (self.dim * 4) as usize,
                causal: self.causal,
                norm_first: true,
                bias_ff: false,
                bias_attn: false,
                layer_scale: None,
                context: self.context,
                max_period: self.max_period.cast(0, usize::MAX as int) as usize,
                use_conv_block: false,
                use_conv_bias: true,
                cross_attention: false,
                gating: Some(Gating::Silu),
                norm: NormType::RmsNorm,
                positional_embedding: PositionalEmbedding::Rope,
                conv_layout: false,
                conv_kernel_size: 3,
                kv_repeat: 1,
                max_seq_len: 16_384,
                shared_cross_attn: false,
            },
            audio_vocab_size: (self.card + 1) as usize,
            text_in_vocab_size: (self.text_card + 1) as usize,
            text_out_vocab_size: self.text_card,
            audio_codebooks: self.n_q,
            extra_heads: if vad {
                Some(ExtraHeadsConfig { num_heads: 4, dim: 6 })
            } else {
                None
            },
        }
    }

    /// The shape of the model.
    pub fn model_config(&self, vad: bool) -> (shape: LmConfig)
        requires
            self.fits(),
        ensures
            shape == self.shape(vad),
    {
        let transformer = TransformerConfig {
            d_model: self.dim,
            num_heads: self.num_heads,
            num_layers: self.num_layers,
            dim_feedforward: self.dim * 4,
            causal: self.causal,
            norm_first: true,
            bias_ff: false,
            bias_attn: false,
            layer_scale: None,
            context: self.context,
            max_period: self.max_period.to_usize(),
            use_conv_block: false,
            use_conv_bias: true,
            cross_attention: false,
            gating: Some(Gating::Silu),
            norm: NormType::RmsNorm,
            positional_embedding: PositionalEmbedding::Rope,
            conv_layout: false,
            conv_kernel_size: 3,
            kv_repeat: 1,
            max_seq_len: 4096 * 4,
            shared_cross_attn: false,
        };
        let extra_heads = if vad {
            Some(ExtraHeadsConfig { num_heads: 4, dim: 6 })
        } else {
            None
        };
        LmConfig {
            transformer,
            audio_vocab_size: self.card + 1,
            text_in_vocab_size: self.text_card + 1,
            text_out_vocab_size: self.text_card,
            audio_codebooks: self.n_q,
            extra_heads,
        }
    }

    /// The delay of the model in whole tokens.
    pub open spec fn delay_tokens(&self) -> int {
        self.stt_config.audio_delay_tokens.cast(0, usize::MAX as int)
    }

    /// The delay of the model in whole tokens.
    pub fn delay_in_tokens(&self) -> (tokens: usize)
        ensures
            tokens == self.stt_config.audio_delay_tokens.cast(0, usize::MAX as int),
            tokens == self.delay_tokens(),
    {
        self.stt_config.audio_delay_tokens.to_usize()
    }
}

/// Whether `text` ends with `suffix`.
pub fn ends_with(text: &str, suffix: &str) -> (ends: bool)
    ensures
        ends == suffix@.is_suffix_of(text@),
{
    let length: usize = text.unicode_len();
    let tail: usize = suffix.unicode_len();
    if tail > length {
        return false;
    }
    let mut i: usize = 0;
    while i < tail
        invariant
            i <= tail <= length,
            length == text@.len(),
            tail == suffix@.len(),
            forall|j: int| 0 <= j < i ==> #[trigger] suffix@[j] == text@[length - tail + j],
        decreases tail - i,
    {
        if text.get_char(length - tail + i) != suffix.get_char(i) {
            assert(suffix@[i as int] != text@.subrange(length - tail, length as int)[i as int]);
            return false;
        }
        i = i + 1;
    }
    assert(suffix@ =~= text@.subrange(length - tail, length as int));
    true
}

/// Information about the loaded model.
#[derive(Clone, Debug, PartialEq, Eq)]
pub struct ModelInfo {
    /// Samples a second that the model takes.
    pub sample_rate: u32,
    /// Whether it runs on a graphics processor.
    pub gpu_enabled: bool,
    /// Where it came from.
    pub hf_repo: String,
    /// Whether its weights are quantized.
    pub quantized: bool,
}

/// What is told of a model, as contracts see it.
pub struct Facts {
    /// Samples a second that the model takes.
    pub sample_rate: int,
    /// Whether it runs on a graphics processor.
    pub gpu_enabled: bool,
    /// Where it came from.
    pub hf_repo: Seq<char>,
    /// Whether its weights are quantized.
    pub quantized: bool,
}

impl View for ModelInfo {
    type V = Facts;

    open spec fn view(&self) -> Facts {
        Facts {
            sample_rate: self.sample_rate as int,
            gpu_enabled: self.gpu_enabled,
            hf_repo: self.hf_repo@,
            quantized: self.quantized,
        }
    }
}

/// Whether a file of weights is quantized, by its name; one whose name is no
/// text is not.
pub open spec fn quantized_file(model_file: Option<Seq<char>>) -> bool {
    match model_file {
        Some(name) => ".gguf"@.is_suffix_of(name),
        None => false,
    }
}

/// Whether a file of weights is quantized.
pub fn is_quantized(model_file: Option<&str>) -> (quantized: bool)
    ensures
        quantized == quantized_file(pcm::optional_text(model_file)),
{
    match model_file {
        Some(name) => ends_with(name, ".gguf"),
        None => false,
    }
}

/// What is told of a model from `hf_repo` that runs on `device`.
pub open spec fn facts(
    hf_repo: Seq<char>,
    model_file: Option<Seq<char>>,
    device: DeviceKind,
) -> Facts {
    Facts {
        sample_rate: 24_000,
        gpu_enabled: device != DeviceKind::Cpu,
        hf_repo,
        quantized: quantized_file(model_file),
    }
}

impl ModelInfo {
    /// What is told of a model, given what it runs on.
    pub fn describe(hf_repo: &str, model_file: Option<&str>, device: DeviceKind) -> (info: ModelInfo)
        ensures
            info@ == facts(hf_repo@, pcm::optional_text(model_file), device),
    {
        let gpu_enabled = match device {
            DeviceKind::Cpu => false,
            _ => true,
        };
        ModelInfo {
            sample_rate: 24_000,
            gpu_enabled,
            hf_repo: hf_repo.to_owned(),
            quantized: is_quantized(model_file),
        }
    }
}

impl Config {
    /// The session that the configuration leads to: times are cut down to whole
    /// samples.
    pub open spec fn session(&self, enable_vad: bool, temperature: Binary32) -> crate::model::Session {
        crate::model::Session::begun(
            enable_vad,
            temperature.wide(),
            self.stt_config.audio_silence_prefix_samples.cast(0, usize::MAX as int) as nat,
            self.stt_config.audio_delay_samples.cast(0, usize::MAX as int) as nat,
        )
    }
}

impl SttModel {
    /// Selects the best available device, by what the tensor library says is
    /// available. What it says is a property of the build: [`select_device`] says
    /// what follows from it.
    pub fn device(cpu: bool) -> (device: DeviceKind)
        ensures
            cpu ==> device == DeviceKind::Cpu,
            exists|cuda: bool, metal: bool|
                {
                    &&& cuda_says(cuda)
                    &&& metal_says(metal)
                    &&& device == #[trigger] best_device(cpu, cuda, metal)
                },
    {
        let cuda = ask(cuda_is_available);
        let metal = ask(metal_is_available);
        select_device(cpu, cuda, metal)
    }

    /// Sets up a session with a model that was fetched from `hf_repo`, with its
    /// weights in `model_file`, that runs on `device` and samples with
    /// `temperature`, and says what is told of the model.
    pub fn load(
        hf_repo: &str,
        model_file: Option<&str>,
        config: &Config,
        enable_vad: bool,
        temperature: Binary32,
        device: DeviceKind,
    ) -> (loaded: (SttModel, ModelInfo))
        ensures
            loaded.0@ == config.session(enable_vad, temperature),
            loaded.1@ == facts(hf_repo@, pcm::optional_text(model_file), device),
    {
        let model = SttModel::begin(
            enable_vad,
            temperature.widen(),
            config.stt_config.audio_silence_prefix_samples.to_usize(),
            config.stt_config.audio_delay_samples.to_usize(),
        );
        (model, ModelInfo::describe(hf_repo, model_file, device))
    }
}

/// A model is told to run on a graphics processor exactly when the processor is
/// not asked for and there is one.
pub proof fn gpu_is_told_truly(
    hf_repo: Seq<char>,
    model_file: Option<Seq<char>>,
    cpu: bool,
    cuda: bool,
    metal: bool,
)
    ensures
        facts(hf_repo, model_file, best_device(cpu, cuda, metal)).gpu_enabled == (!cpu && (cuda
            || metal)),
{
}

/// What was fetched of a model, and where it runs.
#[derive(Debug, PartialEq, Eq)]
pub struct Fetched {
    /// The configuration that came with it.
    pub config: Config,
    /// The file that holds its weights, where its name is a text.
    pub model_file: Option<String>,
    /// Where it runs.
    pub device: DeviceKind,
}

impl Fetched {
    /// The name of the file of weights.
    pub open spec fn file_name(&self) -> Option<Seq<char>> {
        match self.model_file {
            Some(name) => Some(name@),
            None => None,
        }
    }
}

/// The best device is one that there is: the processor only if it is asked for or
/// nothing else is there, and Metal only without CUDA.
pub proof fn the_best_device_is_there(cpu: bool, cuda: bool, metal: bool)
    ensures
        match best_device(cpu, cuda, metal) {
            DeviceKind::Cpu => cpu || !cuda && !metal,
            DeviceKind::Cuda(ordinal) => !cpu && cuda && ordinal == 0,
            DeviceKind::Metal(ordinal) => !cpu && !cuda && metal && ordinal == 0,
        },
{
}

/// What is told of a model: it takes 24000 samples a second, comes from where it
/// was asked for, runs on a graphics processor if its device is one, and is
/// quantized exactly if the name of its file goes on to `.gguf` at its end.
pub proof fn models_are_described_truly(
    hf_repo: Seq<char>,
    model_file: Option<Seq<char>>,
    device: DeviceKind,
)
    ensures
        facts(hf_repo, model_file, device).sample_rate == 24_000,
        facts(hf_repo, model_file, device).hf_repo == hf_repo,
        facts(hf_repo, model_file, device).gpu_enabled <==> device is Cuda || device is Metal,
        facts(hf_repo, model_file, device).quantized <==> exists|stem: Seq<char>|
            model_file == Some(#[trigger] (stem + ".gguf"@)),
{
    let quantized = facts(hf_repo, model_file, device).quantized;
    if quantized {
        let name = model_file.unwrap();
        let stem = name.take(name.len() - ".gguf"@.len());
        assert(stem + ".gguf"@ =~= name);
    }
    assert forall|stem: Seq<char>| model_file == Some(#[trigger] (stem + ".gguf"@)) implies
        quantized by {
        let name = stem + ".gguf"@;
        assert(name.subrange(name.len() - ".gguf"@.len(), name.len() as int) =~= ".gguf"@);
    }
}

/// The shape of a model is that of its configuration: each size is the one that the
/// configuration gives for it, the feed-forward blocks are four times as wide as
/// the model, each vocabulary that is read has one entry more than the one that is
/// given, and there are four heads of six for voice activity, or none.
pub proof fn shapes_follow_the_configuration(config: Config, vad: bool)
    requires
        config.fits(),
    ensures
        ({
            let shape = config.shape(vad);
            let transformer = shape.transformer;
            &&& transformer.d_model == config.dim
            &&& transformer.num_heads == config.num_heads
            &&& transformer.num_layers == config.num_layers
            &&& transformer.dim_feedforward == config.dim + config.dim + config.dim + config.dim
            &&& transformer.causal == config.causal
            &&& transformer.context == config.context
            &&& transformer.max_period == config.max_period.cast(0, usize::MAX as int)
            &&& shape.audio_vocab_size - 1 == config.card
            &&& shape.text_in_vocab_size - 1 == config.text_card
            &&& shape.text_out_vocab_size == config.text_card
            &&& shape.audio_codebooks == config.n_q
            &&& shape.extra_heads is Some <==> vad
            &&& shape.extra_heads matches Some(heads) ==> heads.num_heads == 4 && heads.dim == 6
            &&& transformer.norm_first && transformer.use_conv_bias
            &&& !transformer.bias_ff && !transformer.bias_attn && !transformer.use_conv_block
            &&& !transformer.cross_attention && !transformer.conv_layout
                && !transformer.shared_cross_attn
            &&& transformer.layer_scale is None
            &&& transformer.gating == Some(Gating::Silu)
            &&& transformer.norm == NormType::RmsNorm
            &&& transformer.positional_embedding == PositionalEmbedding::Rope
            &&& transformer.conv_kernel_size == 3
            &&& transformer.kv_repeat == 1
            &&& transformer.max_seq_len == 4096 * 4
        }),
{
}

/// Each size of a configuration has its own place in the shape: one that is changed
/// alone changes that place, to what it was changed to, and no other.
pub proof fn sizes_do_not_interfere(config: Config, other: Config, vad: bool)
    requires
        config.fits(),
        other.fits(),
    ensures
        ({
            let (shape, new) = (config.shape(vad), other.shape(vad));
            let (old_body, new_body) = (shape.transformer, new.transformer);
            &&& other == (Config { num_layers: other.num_layers, ..config }) ==> new == (LmConfig {
                transformer: TransformerConfig { num_layers: other.num_layers, ..old_body },
                ..shape
            })
            &&& other == (Config { num_heads: other.num_heads, ..config }) ==> new == (LmConfig {
                transformer: TransformerConfig { num_heads: other.num_heads, ..old_body },
                ..shape
            })
            &&& other == (Config { context: other.context, ..config }) ==> new == (LmConfig {
                transformer: TransformerConfig { context: other.context, ..old_body },
                ..shape
            })
            &&& other == (Config { causal: other.causal, ..config }) ==> new == (LmConfig {
                transformer: TransformerConfig { causal: other.causal, ..old_body },
                ..shape
            })
            &&& other == (Config { max_period: other.max_period, ..config }) ==> new == (LmConfig {
                transformer: TransformerConfig { max_period: new_body.max_period, ..old_body },
                ..shape
            })
            &&& other == (Config { dim: other.dim, ..config }) ==> new == (LmConfig {
                transformer: TransformerConfig {
                    d_model: other.dim,
                    dim_feedforward: new_body.dim_feedforward,
                    ..old_body
                },
                ..shape
            })
            &&& other == (Config { n_q: other.n_q, ..config }) ==> new == (LmConfig {
                audio_codebooks: other.n_q,
                ..shape
            })
            &&& other == (Config { card: other.card, ..config }) ==> new == (LmConfig {
                audio_vocab_size: new.audio_vocab_size,
                ..shape
            })
            &&& other == (Config { text_card: other.text_card, ..config }) ==> new == (LmConfig {
                text_in_vocab_size: new.text_in_vocab_size,
                text_out_vocab_size: other.text_card,
                ..shape
            })
            &&& other == (Config {
                mimi_name: other.mimi_name,
                tokenizer_name: other.tokenizer_name,
                stt_config: other.stt_config,
                ..config
            }) ==> new == shape
        }),
{
}

/// A session begins with nothing pending, listens to the voice-activity head if
/// asked, samples with the temperature that was asked for, and counts its silence
/// and its delay in the whole samples that they fill.
pub proof fn sessions_follow_the_configuration(
    config: Config,
    enable_vad: bool,
    temperature: Binary32,
)
    ensures
        ({
            let session = config.session(enable_vad, temperature);
            let timing = config.stt_config;
            &&& session.enable_vad == enable_vad
            &&& session.pending is None
            &&& temperature.is_widened(session.temperature)
            &&& whole_samples(session.silence_prefix_remaining, timing.audio_silence_prefix_samples)
            &&& whole_samples(session.delay_samples, timing.audio_delay_samples)
        }),
{
    whole_samples_are_cast(config.stt_config.audio_silence_prefix_samples);
    whole_samples_are_cast(config.stt_config.audio_delay_samples);
    crate::ieee::widening_exists(temperature);
}

proof fn whole_samples_are_cast(samples: Binary64)
    ensures
        whole_samples(samples.cast(0, usize::MAX as int) as nat, samples),
{
    let unit = vstd::arithmetic::power2::pow2(1074) as int;
    let count = samples.cast(0, usize::MAX as int);
    crate::ieee::casts_cut_down(samples, 0, usize::MAX as int);
    vstd::arithmetic::power2::lemma_pow2_pos(1074);
    assert(count > 0 ==> unit <= count * unit) by (nonlinear_arith)
        requires
            unit > 0,
    ;
    assert(count == 0 ==> count * unit == 0 && (count + 1) * unit == unit) by (nonlinear_arith);
}

/// Whether this many samples are the whole ones of `samples`; where that is no
/// number, or a negative one, none are, and where it is more than a `usize` holds,
/// as many as one holds.
pub open spec fn whole_samples(count: nat, samples: Binary64) -> bool {
    let unit = vstd::arithmetic::power2::pow2(1074);
    if samples.is_nan() || samples.scaled() < unit {
        count == 0
    } else {
        &&& count * unit <= samples.scaled()
        &&& count == usize::MAX || samples.scaled() < (count + 1) * unit
    }
}

/// The delay of the model is counted in the whole tokens that it fills.
pub proof fn delays_are_whole_tokens(config: Config)
    ensures
        whole_samples(config.delay_tokens() as nat, config.stt_config.audio_delay_tokens),
        0 <= config.delay_tokens() <= usize::MAX,
{
    whole_samples_are_cast(config.stt_config.audio_delay_tokens);
    crate::ieee::casts_cut_down(config.stt_config.audio_delay_tokens, 0, usize::MAX as int);
}

} // verus!
