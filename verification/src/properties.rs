//! The properties of the element: how they are declared, what they hold.
use crate::ieee::{Binary32, Binary64};
use crate::pcm::same_text;
use crate::vad::PauseDetectorConfig;
use vstd::prelude::*;

verus! {

/// The properties of the element.
#[derive(Clone, Copy, Debug, PartialEq, Eq, Structural)]
pub enum PropertyId {
    /// Where the model comes from.
    HfRepo,
    /// The file of its weights.
    ModelPath,
    /// The language that is spoken.
    Language,
    /// Whether to run on the processor.
    UseCpu,
    /// The sampling temperature.
    Temperature,
    /// Context for the model.
    InitialPrompt,
    /// Whether to detect the language.
    DetectLanguage,
    /// Whether times are absolute.
    UseUnixTimestamps,
    /// Whether the voice-activity head is listened to.
    EnableVad,
    /// The probability from which on there is speech.
    VadThreshold,
    /// The probability below which there is speech.
    NoSpeechThreshold,
    /// Whether pauses are detected.
    EnablePauseDetection,
    /// The energy above which there is speech.
    PauseEnergyThreshold,
    /// The least length of a pause, in milliseconds.
    PauseMinDuration,
    /// The least length of a boundary, in milliseconds.
    BoundaryMinDuration,
    /// The silence that ends a turn, in milliseconds.
    TurnSilenceThreshold,
    /// The least speech of a turn, in milliseconds.
    MinTurnSpeechDuration,
    /// The speech that starts speech, in milliseconds.
    SignalSpeechHysteresis,
    /// The silence that ends speech, in milliseconds.
    SignalSilenceHysteresis,
}

/// What a property can hold, and what it holds at first.
#[derive(Clone, Copy, Debug, PartialEq, Eq)]
pub enum PropertyKind {
    /// A text, or none.
    Text { default: Option<&'static str> },
    /// A truth value.
    Flag { default: bool },
    /// A single-precision number of a range.
    Float { minimum: Binary32, maximum: Binary32, default: Binary32 },
    /// A double-precision number of a range.
    Double { minimum: Binary64, maximum: Binary64, default: Binary64 },
    /// An unsigned number of a range.
    UInt { minimum: u32, maximum: u32, default: u32 },
}

/// The kind of a property, as contracts see it.
pub enum Kind {
    /// A text, or none.
    Text { default: Option<Seq<char>> },
    /// A truth value.
    Flag { default: bool },
    /// A single-precision number of a range.
    Float { minimum: Binary32, maximum: Binary32, default: Binary32 },
    /// A double-precision number of a range.
    Double { minimum: Binary64, maximum: Binary64, default: Binary64 },
    /// An unsigned number of a range.
    UInt { minimum: u32, maximum: u32, default: u32 },
}

impl View for PropertyKind {
    type V = Kind;

    open spec fn view(&self) -> Kind {
        match *self {
            PropertyKind::Text { default } => Kind::Text {
                default: match default {
                    Some(text) => Some(text@),
                    None => None,
                },
            },
            PropertyKind::Flag { default } => Kind::Flag { default },
            PropertyKind::Float { minimum, maximum, default } => Kind::Float {
                minimum,
                maximum,
                default,
            },
            PropertyKind::Double { minimum, maximum, default } => Kind::Double {
                minimum,
                maximum,
                default,
            },
            PropertyKind::UInt { minimum, maximum, default } => Kind::UInt {
                minimum,
                maximum,
                default,
            },
        }
    }
}

/// The declaration of a property.
#[derive(Clone, Copy, Debug, PartialEq, Eq)]
pub struct PropertySpec {
    /// What it is called.
    pub name: &'static str,
    /// Its name for people.
    pub nick: &'static str,
    /// What it is for.
    pub blurb: &'static str,
    /// What it can hold.
    pub kind: PropertyKind,
}

/// A declaration, as contracts see it.
pub struct Declaration {
    /// What the property is called.
    pub name: Seq<char>,
    /// Its name for people.
    pub nick: Seq<char>,
    /// What it is for.
    pub blurb: Seq<char>,
    /// What it can hold.
    pub kind: Kind,
}

impl View for PropertySpec {
    type V = Declaration;

    open spec fn view(&self) -> Declaration {
        Declaration {
            name: self.name@,
            nick: self.nick@,
            blurb: self.blurb@,
            kind: self.kind@,
        }
    }
}

/// What a property holds.
#[derive(Debug, PartialEq, Eq)]
pub enum PropertyValue {
    /// A text, or none.
    Text(Option<String>),
    /// A truth value.
    Flag(bool),
    /// A single-precision number.
    Float(Binary32),
    /// A double-precision number.
    Double(Binary64),
    /// An unsigned number.
    UInt(u32),
}

/// What a property holds, as contracts see it.
pub enum Setting {
    /// A text, or none.
    Text(Option<Seq<char>>),
    /// A truth value.
    Flag(bool),
    /// A single-precision number.
    Float(Binary32),
    /// A double-precision number.
    Double(Binary64),
    /// An unsigned number.
    UInt(u32),
}

impl View for PropertyValue {
    type V = Setting;

    open spec fn view(&self) -> Setting {
        match self {
            PropertyValue::Text(text) => Setting::Text(
                match text {
                    Some(text) => Some(text@),
                    None => None,
                },
            ),
            PropertyValue::Flag(flag) => Setting::Flag(*flag),
            PropertyValue::Float(number) => Setting::Float(*number),
            PropertyValue::Double(number) => Setting::Double(*number),
            PropertyValue::UInt(number) => Setting::UInt(*number),
        }
    }
}

impl Kind {
    /// What a property of this kind holds at first.
    pub open spec fn initial(self) -> Setting {
        match self {
            Kind::Text { default } => Setting::Text(default),
            Kind::Flag { default } => Setting::Flag(default),
            Kind::Float { default, .. } => Setting::Float(default),
            Kind::Double { default, .. } => Setting::Double(default),
            Kind::UInt { default, .. } => Setting::UInt(default),
        }
    }
}

impl PropertyId {
    /// All properties, in the order in which they are declared.
    pub open spec fn all() -> Seq<PropertyId> {
        seq![
            PropertyId::HfRepo,
            PropertyId::ModelPath,
            PropertyId::Language,
            PropertyId::UseCpu,
            PropertyId::Temperature,
            PropertyId::InitialPrompt,
            PropertyId::DetectLanguage,
            PropertyId::UseUnixTimestamps,
            PropertyId::EnableVad,
            PropertyId::VadThreshold,
            PropertyId::NoSpeechThreshold,
            PropertyId::EnablePauseDetection,
            PropertyId::PauseEnergyThreshold,
            PropertyId::PauseMinDuration,
            PropertyId::BoundaryMinDuration,
            PropertyId::TurnSilenceThreshold,
            PropertyId::MinTurnSpeechDuration,
            PropertyId::SignalSpeechHysteresis,
            PropertyId::SignalSilenceHysteresis,
        ]
    }

    /// The place of the property among all.
    pub open spec fn place(self) -> int {
        match self {
            PropertyId::HfRepo => 0,
            PropertyId::ModelPath => 1,
            PropertyId::Language => 2,
            PropertyId::UseCpu => 3,
            PropertyId::Temperature => 4,
            PropertyId::InitialPrompt => 5,
            PropertyId::DetectLanguage => 6,
            PropertyId::UseUnixTimestamps => 7,
            PropertyId::EnableVad => 8,
            PropertyId::VadThreshold => 9,
            PropertyId::NoSpeechThreshold => 10,
            PropertyId::EnablePauseDetection => 11,
            PropertyId::PauseEnergyThreshold => 12,
            PropertyId::PauseMinDuration => 13,
            PropertyId::BoundaryMinDuration => 14,
            PropertyId::TurnSilenceThreshold => 15,
            PropertyId::MinTurnSpeechDuration => 16,
            PropertyId::SignalSpeechHysteresis => 17,
            PropertyId::SignalSilenceHysteresis => 18,
        }
    }

    /// What the property is called.
    pub open spec fn called(self) -> Seq<char> {
        self.declared().name
    }

    /// How the property is declared.
    pub open spec fn declared(self) -> Declaration {
        match self {
            PropertyId::HfRepo => Declaration {
                name: "model"@,
                nick: "Model"@,
                blurb: "HuggingFace repo ID or path to model"@,
                kind: Kind::Text { default: Some("kyutai/stt-1b-en_fr-candle"@) },
            },
            PropertyId::ModelPath => Declaration {
                name: "model-path"@,
                nick: "Model path"@,
                blurb: "Filename of the model weights within the repo"@,
                kind: Kind::Text { default: Some("model.safetensors"@) },
            },
            PropertyId::Language => Declaration {
                name: "language"@,
                nick: "Language"@,
                blurb: "Language code (ISO 639-1) or 'auto'"@,
                kind: Kind::Text { default: Some("auto"@) },
            },
            PropertyId::UseCpu => Declaration {
                name: "use-cpu"@,
                nick: "Use CPU"@,
                blurb: "Force CPU inference (disable GPU)"@,
                kind: Kind::Flag { default: false },
            },
            PropertyId::Temperature => Declaration {
                name: "temperature"@,
                nick: "Temperature"@,
                blurb: "Sampling temperature"@,
                kind: Kind::Float {
                    minimum: Binary32 { bits: 0x0000_0000 },
                    maximum: Binary32 { bits: 0x3f80_0000 },
                    default: Binary32 { bits: 0x0000_0000 },
                },
            },
            PropertyId::InitialPrompt => Declaration {
                name: "initial-prompt"@,
                nick: "Initial prompt"@,
                blurb: "Optional context prompt"@,
                kind: Kind::Text { default: None },
            },
            PropertyId::DetectLanguage => Declaration {
                name: "detect-language"@,
                nick: "Detect language"@,
                blurb: "Auto-detect language"@,
                kind: Kind::Flag { default: true },
            },
            PropertyId::UseUnixTimestamps => Declaration {
                name: "use-unix-timestamps"@,
                nick: "Unix timestamps"@,
                blurb: "Use absolute unix timestamps in output"@,
                kind: Kind::Flag { default: false },
            },
            PropertyId::EnableVad => Declaration {
                name: "enable-vad"@,
                nick: "Enable VAD"@,
                blurb: "Enable voice activity detection"@,
                kind: Kind::Flag { default: true },
            },
            PropertyId::VadThreshold => Declaration {
                name: "vad-threshold"@,
                nick: "VAD threshold"@,
                blurb: "VAD speech probability threshold"@,
                kind: Kind::Float {
                    minimum: Binary32 { bits: 0x0000_0000 },
                    maximum: Binary32 { bits: 0x3f80_0000 },
                    default: Binary32 { bits: 0x3f33_3333 },
                },
            },
            PropertyId::NoSpeechThreshold => Declaration {
                name: "no-speech-threshold"@,
                nick: "No-speech threshold"@,
                blurb: "No-speech probability threshold"@,
                kind: Kind::Float {
                    minimum: Binary32 { bits: 0x0000_0000 },
                    maximum: Binary32 { bits: 0x3f80_0000 },
                    default: Binary32 { bits: 0x3f19_999a },
                },
            },
            PropertyId::EnablePauseDetection => Declaration {
                name: "enable-pause-detection"@,
                nick: "Enable pause detection"@,
                blurb: "Enable energy-based pause signals"@,
                kind: Kind::Flag { default: true },
            },
            PropertyId::PauseEnergyThreshold => Declaration {
                name: "pause-energy-threshold"@,
                nick: "Pause energy threshold"@,
                blurb: "RMS energy threshold for pause detection"@,
                kind: Kind::Double {
                    minimum: Binary64 { bits: 0x0000_0000_0000_0000 },
                    maximum: Binary64 { bits: 0x3ff0_0000_0000_0000 },
                    default: Binary64 { bits: 0x3f74_7ae1_47ae_147b },
                },
            },
            PropertyId::PauseMinDuration => Declaration {
                name: "pause-min-duration"@,
                nick: "Min pause duration"@,
                blurb: "Minimum pause duration in ms"@,
                kind: Kind::UInt { minimum: 0, maximum: 5000, default: 100 },
            },
            PropertyId::BoundaryMinDuration => Declaration {
                name: "boundary-min-duration"@,
                nick: "Min boundary duration"@,
                blurb: "Minimum pause for boundary detection in ms"@,
                kind: Kind::UInt { minimum: 0, maximum: 5000, default: 200 },
            },
            PropertyId::TurnSilenceThreshold => Declaration {
                name: "turn-silence-threshold"@,
                nick: "Turn silence threshold"@,
                blurb: "Silence duration to signal turn-end in ms"@,
                kind: Kind::UInt { minimum: 100, maximum: 5000, default: 500 },
            },
            PropertyId::MinTurnSpeechDuration => Declaration {
                name: "min-turn-speech-duration"@,
                nick: "Min turn speech"@,
                blurb: "Minimum speech before turn-end in ms"@,
                kind: Kind::UInt { minimum: 0, maximum: 5000, default: 200 },
            },
            PropertyId::SignalSpeechHysteresis => Declaration {
                name: "signal-speech-hysteresis"@,
                nick: "Speech hysteresis"@,
                blurb: "Debounce: consecutive speech before start (ms)"@,
                kind: Kind::UInt { minimum: 0, maximum: 1000, default: 60 },
            },
            PropertyId::SignalSilenceHysteresis => Declaration {
                name: "signal-silence-hysteresis"@,
                nick: "Silence hysteresis"@,
                blurb: "Debounce: consecutive silence before end (ms)"@,
                kind: Kind::UInt { minimum: 0, maximum: 1000, default: 150 },
            },
        }
    }

    /// Whether the property can be set to a value: it is of the right kind, and
    /// text is there where it must be. The prompt can be set to anything.
    pub open spec fn admits(self, value: Setting) -> bool {
        ||| self == PropertyId::InitialPrompt
        ||| match self.declared().kind {
            Kind::Text { .. } => value matches Setting::Text(text) && text is Some,
            Kind::Flag { .. } => value is Flag,
            Kind::Float { .. } => value is Float,
            Kind::Double { .. } => value is Double,
            Kind::UInt { .. } => value is UInt,
        }
    }

    /// What the property holds once it is set to a value. Setting the prompt to
    /// what is no text takes it away.
    pub open spec fn stored(self, value: Setting) -> Setting {
        if self == PropertyId::InitialPrompt && !(value is Text) {
            Setting::Text(None)
        } else {
            value
        }
    }

    /// How the property is declared.
    pub fn declare(self) -> (declaration: PropertySpec)
        ensures
            declaration@ == self.declared(),
    {
        match self {
            PropertyId::HfRepo => PropertySpec {
                name: "model",
                nick: "Model",
                blurb: "HuggingFace repo ID or path to model",
                kind: PropertyKind::Text { default: Some("kyutai/stt-1b-en_fr-candle") },
            },
            PropertyId::ModelPath => PropertySpec {
                name: "model-path",
                nick: "Model path",
                blurb: "Filename of the model weights within the repo",
                kind: PropertyKind::Text { default: Some("model.safetensors") },
            },
            PropertyId::Language => PropertySpec {
                name: "language",
                nick: "Language",
                blurb: "Language code (ISO 639-1) or 'auto'",
                kind: PropertyKind::Text { default: Some("auto") },
            },
            PropertyId::UseCpu => PropertySpec {
                name: "use-cpu",
                nick: "Use CPU",
                blurb: "Force CPU inference (disable GPU)",
                kind: PropertyKind::Flag { default: false },
            },
            PropertyId::Temperature => PropertySpec {
                name: "temperature",
                nick: "Temperature",
                blurb: "Sampling temperature",
                kind: PropertyKind::Float {
                    minimum: Binary32 { bits: 0x0000_0000 },
                    maximum: Binary32 { bits: 0x3f80_0000 },
                    default: Binary32 { bits: 0x0000_0000 },
                },
            },
            PropertyId::InitialPrompt => PropertySpec {
                name: "initial-prompt",
                nick: "Initial prompt",
                blurb: "Optional context prompt",
                kind: PropertyKind::Text { default: None },
            },
            PropertyId::DetectLanguage => PropertySpec {
                name: "detect-language",
                nick: "Detect language",
                blurb: "Auto-detect language",
                kind: PropertyKind::Flag { default: true },
            },
            PropertyId::UseUnixTimestamps => PropertySpec {
                name: "use-unix-timestamps",
                nick: "Unix timestamps",
                blurb: "Use absolute unix timestamps in output",
                kind: PropertyKind::Flag { default: false },
            },
            PropertyId::EnableVad => PropertySpec {
                name: "enable-vad",
                nick: "Enable VAD",
                blurb: "Enable voice activity detection",
                kind: PropertyKind::Flag { default: true },
            },
            PropertyId::VadThreshold => PropertySpec {
                name: "vad-threshold",
                nick: "VAD threshold",
                blurb: "VAD speech probability threshold",
                kind: PropertyKind::Float {
                    minimum: Binary32 { bits: 0x0000_0000 },
                    maximum: Binary32 { bits: 0x3f80_0000 },
                    default: Binary32 { bits: 0x3f33_3333 },
                },
            },
            PropertyId::NoSpeechThreshold => PropertySpec {
                name: "no-speech-threshold",
                nick: "No-speech threshold",
                blurb: "No-speech probability threshold",
                kind: PropertyKind::Float {
                    minimum: Binary32 { bits: 0x0000_0000 },
                    maximum: Binary32 { bits: 0x3f80_0000 },
                    default: Binary32 { bits: 0x3f19_999a },
                },
            },
            PropertyId::EnablePauseDetection => PropertySpec {
                name: "enable-pause-detection",
                nick: "Enable pause detection",
                blurb: "Enable energy-based pause signals",
                kind: PropertyKind::Flag { default: true },
            },
            PropertyId::PauseEnergyThreshold => PropertySpec {
                name: "pause-energy-threshold",
                nick: "Pause energy threshold",
                blurb: "RMS energy threshold for pause detection",
                kind: PropertyKind::Double {
                    minimum: Binary64 { bits: 0x0000_0000_0000_0000 },
                    maximum: Binary64 { bits: 0x3ff0_0000_0000_0000 },
                    default: Binary64 { bits: 0x3f74_7ae1_47ae_147b },
                },
            },
            PropertyId::PauseMinDuration => PropertySpec {
                name: "pause-min-duration",
                nick: "Min pause duration",
                blurb: "Minimum pause duration in ms",
                kind: PropertyKind::UInt { minimum: 0, maximum: 5000, default: 100 },
            },
            PropertyId::BoundaryMinDuration => PropertySpec {
                name: "boundary-min-duration",
                nick: "Min boundary duration",
                blurb: "Minimum pause for boundary detection in ms",
                kind: PropertyKind::UInt { minimum: 0, maximum: 5000, default: 200 },
            },
            PropertyId::TurnSilenceThreshold => PropertySpec {
                name: "turn-silence-threshold",
                nick: "Turn silence threshold",
                blurb: "Silence duration to signal turn-end in ms",
                kind: PropertyKind::UInt { minimum: 100, maximum: 5000, default: 500 },
            },
            PropertyId::MinTurnSpeechDuration => PropertySpec {
                name: "min-turn-speech-duration",
                nick: "Min turn speech",
                blurb: "Minimum speech before turn-end in ms",
                kind: PropertyKind::UInt { minimum: 0, maximum: 5000, default: 200 },
            },
            PropertyId::SignalSpeechHysteresis => PropertySpec {
                name: "signal-speech-hysteresis",
                nick: "Speech hysteresis",
                blurb: "Debounce: consecutive speech before start (ms)",
                kind: PropertyKind::UInt { minimum: 0, maximum: 1000, default: 60 },
            },
            PropertyId::SignalSilenceHysteresis => PropertySpec {
                name: "signal-silence-hysteresis",
                nick: "Silence hysteresis",
                blurb: "Debounce: consecutive silence before end (ms)",
                kind: PropertyKind::UInt { minimum: 0, maximum: 1000, default: 150 },
            },
        }
    }

    /// All properties.
    fn list() -> (ids: [PropertyId; 19])
        ensures
            ids@ == PropertyId::all(),
    {
        let ids: [PropertyId; 19] = [
            PropertyId::HfRepo,
            PropertyId::ModelPath,
            PropertyId::Language,
            PropertyId::UseCpu,
            PropertyId::Temperature,
            PropertyId::InitialPrompt,
            PropertyId::DetectLanguage,
            PropertyId::UseUnixTimestamps,
            PropertyId::EnableVad,
            PropertyId::VadThreshold,
            PropertyId::NoSpeechThreshold,
            PropertyId::EnablePauseDetection,
            PropertyId::PauseEnergyThreshold,
            PropertyId::PauseMinDuration,
            PropertyId::BoundaryMinDuration,
            PropertyId::TurnSilenceThreshold,
            PropertyId::MinTurnSpeechDuration,
            PropertyId::SignalSpeechHysteresis,
            PropertyId::SignalSilenceHysteresis,
        ];
        assert(ids@ =~= PropertyId::all());
        ids
    }

    /// The property of this name.
    pub fn from_name(name: &str) -> (id: Option<PropertyId>)
        ensures
            match id {
                Some(id) => id.called() == name@,
                None => forall|id: PropertyId| #[trigger] id.called() != name@,
            },
    {
        let ids = PropertyId::list();
        let mut i: usize = 0;
        while i < 19
            invariant
                i <= 19,
                ids@ == PropertyId::all(),
                forall|j: int| 0 <= j < i ==> (#[trigger] PropertyId::all()[j]).called() != name@,
            decreases 19 - i,
        {
            if same_text(ids[i].declare().name, name) {
                return Some(ids[i]);
            }
            i = i + 1;
        }
        assert forall|id: PropertyId| #[trigger] id.called() != name@ by {
            assert(PropertyId::all()[id.place()] == id);
        }
        None
    }
}

/// The properties of the element.
pub fn properties() -> (declared: Vec<PropertySpec>)
    ensures
        declared@.len() == PropertyId::all().len(),
        forall|i: int|
            0 <= i < declared@.len() ==> (#[trigger] declared@[i])@
                == PropertyId::all()[i].declared(),
{
    let ids = PropertyId::list();
    let mut declared: Vec<PropertySpec> = Vec::new();
    let mut i: usize = 0;
    while i < 19
        invariant
            i <= 19,
            ids@ == PropertyId::all(),
            PropertyId::all().len() == 19,
            declared@.len() == i,
            forall|j: int|
                0 <= j < i ==> (#[trigger] declared@[j])@ == PropertyId::all()[j].declared(),
        decreases 19 - i,
    {
        declared.push(ids[i].declare());
        i = i + 1;
    }
    declared
}

/// No two properties share a name.
pub proof fn property_names_differ(a: PropertyId, b: PropertyId)
    requires
        a.called() == b.called(),
    ensures
        a == b,
{
    reveal_strlit("model");
    reveal_strlit("model-path");
    reveal_strlit("language");
    reveal_strlit("use-cpu");
    reveal_strlit("temperature");
    reveal_strlit("initial-prompt");
    reveal_strlit("detect-language");
    reveal_strlit("use-unix-timestamps");
    reveal_strlit("enable-vad");
    reveal_strlit("vad-threshold");
    reveal_strlit("no-speech-threshold");
    reveal_strlit("enable-pause-detection");
    reveal_strlit("pause-energy-threshold");
    reveal_strlit("pause-min-duration");
    reveal_strlit("boundary-min-duration");
    reveal_strlit("turn-silence-threshold");
    reveal_strlit("min-turn-speech-duration");
    reveal_strlit("signal-speech-hysteresis");
    reveal_strlit("signal-silence-hysteresis");
    assert("model"@.len() == 5 && "model"@[0] == 'm');
    assert("model-path"@.len() == 10 && "model-path"@[0] == 'm');
    assert("language"@.len() == 8 && "language"@[0] == 'l');
    assert("use-cpu"@.len() == 7 && "use-cpu"@[0] == 'u');
    assert("temperature"@.len() == 11 && "temperature"@[0] == 't');
    assert("initial-prompt"@.len() == 14 && "initial-prompt"@[0] == 'i');
    assert("detect-language"@.len() == 15 && "detect-language"@[0] == 'd');
    assert("use-unix-timestamps"@.len() == 19 && "use-unix-timestamps"@[0] == 'u');
    assert("enable-vad"@.len() == 10 && "enable-vad"@[0] == 'e');
    assert("vad-threshold"@.len() == 13 && "vad-threshold"@[0] == 'v');
    assert("no-speech-threshold"@.len() == 19 && "no-speech-threshold"@[0] == 'n');
    assert("enable-pause-detection"@.len() == 22 && "enable-pause-detection"@[0] == 'e');
    assert("pause-energy-threshold"@.len() == 22 && "pause-energy-threshold"@[0] == 'p');
    assert("pause-min-duration"@.len() == 18 && "pause-min-duration"@[0] == 'p');
    assert("boundary-min-duration"@.len() == 21 && "boundary-min-duration"@[0] == 'b');
    assert("turn-silence-threshold"@.len() == 22 && "turn-silence-threshold"@[0] == 't');
    assert("min-turn-speech-duration"@.len() == 24 && "min-turn-speech-duration"@[0] == 'm');
    assert("signal-speech-hysteresis"@.len() == 24 && "signal-speech-hysteresis"@[0] == 's');
    assert("signal-silence-hysteresis"@.len() == 25 && "signal-silence-hysteresis"@[0] == 's');
    assert(a.called()[0] == b.called()[0]);
}

/// Every default lies in its range.
pub proof fn defaults_lie_in_range(id: PropertyId)
    ensures
        match id.declared().kind {
            Kind::Float { minimum, maximum, default } => minimum.scaled() <= default.scaled()
                <= maximum.scaled() && !default.is_nan(),
            Kind::Double { minimum, maximum, default } => minimum.scaled() <= default.scaled()
                <= maximum.scaled() && !default.is_nan(),
            Kind::UInt { minimum, maximum, default } => minimum <= default <= maximum,
            _ => true,
        },
{
    match id.declared().kind {
        Kind::Float { minimum, maximum, default } => {
            crate::ieee::magnitude_worth_orders(minimum.magnitude(), default.magnitude(), 23);
            crate::ieee::magnitude_worth_orders(default.magnitude(), maximum.magnitude(), 23);
        },
        Kind::Double { minimum, maximum, default } => {
            crate::ieee::magnitude_worth_orders(minimum.magnitude(), default.magnitude(), 52);
            crate::ieee::magnitude_worth_orders(default.magnitude(), maximum.magnitude(), 52);
        },
        _ => {},
    }
}

/// What the properties hold.
#[derive(Debug, PartialEq, Eq)]
pub struct Properties {
    /// Where the model comes from.
    pub hf_repo: String,
    /// The file of its weights.
    pub model_path: String,
    /// The language that is spoken.
    pub language: String,
    /// Whether to run on the processor.
    pub use_cpu: bool,
    /// The sampling temperature.
    pub temperature: Binary32,
    /// Context for the model.
    pub initial_prompt: Option<String>,
    /// Whether to detect the language.
    pub detect_language: bool,
    /// Whether times are absolute.
    pub use_unix_timestamps: bool,
    /// Whether the voice-activity head is listened to.
    pub enable_vad: bool,
    /// The probability from which on there is speech.
    pub vad_threshold: Binary32,
    /// The probability below which there is speech.
    pub no_speech_threshold: Binary32,
    /// Whether pauses are detected.
    pub enable_pause_detection: bool,
    /// The energy above which there is speech.
    pub pause_energy_threshold: Binary64,
    /// The least length of a pause, in milliseconds.
    pub pause_min_duration: u32,
    /// The least length of a boundary, in milliseconds.
    pub boundary_min_duration: u32,
    /// The silence that ends a turn, in milliseconds.
    pub turn_silence_threshold: u32,
    /// The least speech of a turn, in milliseconds.
    pub min_turn_speech_duration: u32,
    /// The speech that starts speech, in milliseconds.
    pub signal_speech_hysteresis: u32,
    /// The silence that ends speech, in milliseconds.
    pub signal_silence_hysteresis: u32,
}

impl Properties {
    /// What a property holds.
    pub open spec fn holds(&self, id: PropertyId) -> Setting {
        match id {
            PropertyId::HfRepo => Setting::Text(Some(self.hf_repo@)),
            PropertyId::ModelPath => Setting::Text(Some(self.model_path@)),
            PropertyId::Language => Setting::Text(Some(self.language@)),
            PropertyId::UseCpu => Setting::Flag(self.use_cpu),
            PropertyId::Temperature => Setting::Float(self.temperature),
            PropertyId::InitialPrompt => Setting::Text(
                match self.initial_prompt {
                    Some(text) => Some(text@),
                    None => None,
                },
            ),
            PropertyId::DetectLanguage => Setting::Flag(self.detect_language),
            PropertyId::UseUnixTimestamps => Setting::Flag(self.use_unix_timestamps),
            PropertyId::EnableVad => Setting::Flag(self.enable_vad),
            PropertyId::VadThreshold => Setting::Float(self.vad_threshold),
            PropertyId::NoSpeechThreshold => Setting::Float(self.no_speech_threshold),
            PropertyId::EnablePauseDetection => Setting::Flag(self.enable_pause_detection),
            PropertyId::PauseEnergyThreshold => Setting::Double(self.pause_energy_threshold),
            PropertyId::PauseMinDuration => Setting::UInt(self.pause_min_duration),
            PropertyId::BoundaryMinDuration => Setting::UInt(self.boundary_min_duration),
            PropertyId::TurnSilenceThreshold => Setting::UInt(self.turn_silence_threshold),
            PropertyId::MinTurnSpeechDuration => Setting::UInt(self.min_turn_speech_duration),
            PropertyId::SignalSpeechHysteresis => Setting::UInt(self.signal_speech_hysteresis),
            PropertyId::SignalSilenceHysteresis => Setting::UInt(self.signal_silence_hysteresis),
        }
    }
}

impl Default for Properties {
    fn default() -> (properties: Self)
        ensures
            forall|id: PropertyId| #[trigger]
                properties.holds(id) == id.declared().kind.initial(),
    {
        Properties {
            hf_repo: "kyutai/stt-1b-en_fr-candle".to_owned(),
            model_path: "model.safetensors".to_owned(),
            language: "auto".to_owned(),
            use_cpu: false,
            temperature: Binary32 { bits: 0x0000_0000 },
            initial_prompt: None,
            detect_language: true,
            use_unix_timestamps: false,
            enable_vad: true,
            vad_threshold: Binary32 { bits: 0x3f33_3333 },
            no_speech_threshold: Binary32 { bits: 0x3f19_999a },
            enable_pause_detection: true,
            pause_energy_threshold: Binary64 { bits: 0x3f74_7ae1_47ae_147b },
            pause_min_duration: 100,
            boundary_min_duration: 200,
            turn_silence_threshold: 500,
            min_turn_speech_duration: 200,
            signal_speech_hysteresis: 60,
            signal_silence_hysteresis: 150,
        }
    }
}

impl Properties {
    /// Whether these are the properties `before` with one set to a value: all
    /// others hold what they held.
    pub open spec fn set_from(&self, before: &Properties, id: PropertyId, value: Setting) -> bool {
        forall|other: PropertyId| #[trigger]
            self.holds(other) == if other == id {
                id.stored(value)
            } else {
                before.holds(other)
            }
    }

    /// Sets a property.
    pub fn set(&mut self, id: PropertyId, value: PropertyValue)
        requires
            id.admits(value@),
        ensures
            final(self).set_from(old(self), id, value@),
    {
        match (id, value) {
            (PropertyId::HfRepo, PropertyValue::Text(Some(text))) => {
                self.hf_repo = text;
            },
            (PropertyId::ModelPath, PropertyValue::Text(Some(text))) => {
                self.model_path = text;
            },
            (PropertyId::Language, PropertyValue::Text(Some(text))) => {
                self.language = text;
            },
            (PropertyId::UseCpu, PropertyValue::Flag(flag)) => {
                self.use_cpu = flag;
            },
            (PropertyId::Temperature, PropertyValue::Float(number)) => {
                self.temperature = number;
            },
            (PropertyId::InitialPrompt, PropertyValue::Text(text)) => {
                self.initial_prompt = text;
            },
            (PropertyId::InitialPrompt, _) => {
                self.initial_prompt = None;
            },
            (PropertyId::DetectLanguage, PropertyValue::Flag(flag)) => {
                self.detect_language = flag;
            },
            (PropertyId::UseUnixTimestamps, PropertyValue::Flag(flag)) => {
                self.use_unix_timestamps = flag;
            },
            (PropertyId::EnableVad, PropertyValue::Flag(flag)) => {
                self.enable_vad = flag;
            },
            (PropertyId::VadThreshold, PropertyValue::Float(number)) => {
                self.vad_threshold = number;
            },
            (PropertyId::NoSpeechThreshold, PropertyValue::Float(number)) => {
                self.no_speech_threshold = number;
            },
            (PropertyId::EnablePauseDetection, PropertyValue::Flag(flag)) => {
                self.enable_pause_detection = flag;
            },
            (PropertyId::PauseEnergyThreshold, PropertyValue::Double(number)) => {
                self.pause_energy_threshold = number;
            },
            (PropertyId::PauseMinDuration, PropertyValue::UInt(number)) => {
                self.pause_min_duration = number;
            },
            (PropertyId::BoundaryMinDuration, PropertyValue::UInt(number)) => {
                self.boundary_min_duration = number;
            },
            (PropertyId::TurnSilenceThreshold, PropertyValue::UInt(number)) => {
                self.turn_silence_threshold = number;
            },
            (PropertyId::MinTurnSpeechDuration, PropertyValue::UInt(number)) => {
                self.min_turn_speech_duration = number;
            },
            (PropertyId::SignalSpeechHysteresis, PropertyValue::UInt(number)) => {
                self.signal_speech_hysteresis = number;
            },
            (PropertyId::SignalSilenceHysteresis, PropertyValue::UInt(number)) => {
                self.signal_silence_hysteresis = number;
            },
            _ => {},
        }
    }

    /// What a property holds.
    pub fn get(&self, id: PropertyId) -> (value: PropertyValue)
        ensures
            value@ == self.holds(id),
    {
        match id {
            PropertyId::HfRepo => PropertyValue::Text(Some(self.hf_repo.clone())),
            PropertyId::ModelPath => PropertyValue::Text(Some(self.model_path.clone())),
            PropertyId::Language => PropertyValue::Text(Some(self.language.clone())),
            PropertyId::UseCpu => PropertyValue::Flag(self.use_cpu),
            PropertyId::Temperature => PropertyValue::Float(self.temperature),
            PropertyId::InitialPrompt => PropertyValue::Text(
                match &self.initial_prompt {
                    Some(text) => Some(text.clone()),
                    None => None,
                },
            ),
            PropertyId::DetectLanguage => PropertyValue::Flag(self.detect_language),
            PropertyId::UseUnixTimestamps => PropertyValue::Flag(self.use_unix_timestamps),
            PropertyId::EnableVad => PropertyValue::Flag(self.enable_vad),
            PropertyId::VadThreshold => PropertyValue::Float(self.vad_threshold),
            PropertyId::NoSpeechThreshold => PropertyValue::Float(self.no_speech_threshold),
            PropertyId::EnablePauseDetection => PropertyValue::Flag(self.enable_pause_detection),
            PropertyId::PauseEnergyThreshold => PropertyValue::Double(self.pause_energy_threshold),
            PropertyId::PauseMinDuration => PropertyValue::UInt(self.pause_min_duration),
            PropertyId::BoundaryMinDuration => PropertyValue::UInt(self.boundary_min_duration),
            PropertyId::TurnSilenceThreshold => PropertyValue::UInt(self.turn_silence_threshold),
            PropertyId::MinTurnSpeechDuration => PropertyValue::UInt(self.min_turn_speech_duration),
            PropertyId::SignalSpeechHysteresis => PropertyValue::UInt(self.signal_speech_hysteresis),
            PropertyId::SignalSilenceHysteresis => PropertyValue::UInt(self.signal_silence_hysteresis),
        }
    }

    /// Sets the property of this name; where there is none, nothing happens.
    pub fn set_property(&mut self, name: &str, value: PropertyValue)
        requires
            forall|id: PropertyId| #[trigger] id.called() == name@ ==> id.admits(value@),
        ensures
            forall|id: PropertyId| #[trigger]
                final(self).holds(id) == if id.called() == name@ {
                    id.stored(value@)
                } else {
                    old(self).holds(id)
                },
    {
        match PropertyId::from_name(name) {
            Some(id) => {
                proof {
                    assert forall|other: PropertyId| #[trigger] other.called() == name@ implies other
                        == id by {
                        property_names_differ(other, id);
                    }
                }
                self.set(id, value);
            },
            None => {},
        }
    }

    /// What the property of this name holds.
    pub fn property(&self, name: &str) -> (value: PropertyValue)
        requires
            exists|id: PropertyId| #[trigger] id.called() == name@,
        ensures
            forall|id: PropertyId| #[trigger]
                id.called() == name@ ==> value@ == self.holds(id),
    {
        match PropertyId::from_name(name) {
            Some(id) => {
                proof {
                    assert forall|other: PropertyId| #[trigger] other.called() == name@ implies other
                        == id by {
                        property_names_differ(other, id);
                    }
                }
                self.get(id)
            },
            None => PropertyValue::Text(None),
        }
    }

    /// What loading the model needs of the properties.
    pub fn clone_for_init(&self) -> (snapshot: PropertiesSnapshot)
        ensures
            snapshot.taken_from(self),
    {
        PropertiesSnapshot {
            hf_repo: self.hf_repo.clone(),
            model_path: self.model_path.clone(),
            enable_vad: self.enable_vad,
            use_cpu: self.use_cpu,
            temperature: self.temperature,
            pause_energy_threshold: self.pause_energy_threshold,
            pause_min_duration: self.pause_min_duration,
            boundary_min_duration: self.boundary_min_duration,
            turn_silence_threshold: self.turn_silence_threshold,
            min_turn_speech_duration: self.min_turn_speech_duration,
            signal_speech_hysteresis: self.signal_speech_hysteresis,
            signal_silence_hysteresis: self.signal_silence_hysteresis,
        }
    }
}

/// What a property was set to is what it holds until it is set again, whatever
/// others are set in between: `states` are the properties before, between and
/// after `changes`, of which the first sets the property and no other does.
pub proof fn settings_last(
    states: Seq<Properties>,
    changes: Seq<(PropertyId, Setting)>,
    id: PropertyId,
    value: Setting,
)
    requires
        states.len() == changes.len() + 1,
        forall|i: int|
            0 <= i < changes.len() ==> states[i + 1].set_from(
                &states[i],
                (#[trigger] changes[i]).0,
                changes[i].1,
            ),
        changes.len() > 0,
        changes[0] == (id, value),
        forall|i: int| 0 < i < changes.len() ==> (#[trigger] changes[i]).0 != id,
    ensures
        states.last().holds(id) == id.stored(value),
    decreases changes.len(),
{
    let last = changes.len() - 1;
    assert(states[last + 1].set_from(&states[last], changes[last].0, changes[last].1));
    if last > 0 {
        settings_last(states.drop_last(), changes.drop_last(), id, value);
        assert(states.drop_last().last() == states[last]);
    }
    assert(states[last + 1].holds(id) == id.stored(value));
}

/// The properties that loading the model needs.
#[derive(Debug, PartialEq, Eq)]
pub struct PropertiesSnapshot {
    /// Where the model comes from.
    pub hf_repo: String,
    /// The file of its weights.
    pub model_path: String,
    /// Whether the voice-activity head is listened to.
    pub enable_vad: bool,
    /// Whether to run on the processor.
    pub use_cpu: bool,
    /// The sampling temperature.
    pub temperature: Binary32,
    /// The energy above which there is speech.
    pub pause_energy_threshold: Binary64,
    /// The least length of a pause, in milliseconds.
    pub pause_min_duration: u32,
    /// The least length of a boundary, in milliseconds.
    pub boundary_min_duration: u32,
    /// The silence that ends a turn, in milliseconds.
    pub turn_silence_threshold: u32,
    /// The least speech of a turn, in milliseconds.
    pub min_turn_speech_duration: u32,
    /// The speech that starts speech, in milliseconds.
    pub signal_speech_hysteresis: u32,
    /// The silence that ends speech, in milliseconds.
    pub signal_silence_hysteresis: u32,
}

impl PropertiesSnapshot {
    /// Whether this holds what the properties hold.
    pub open spec fn taken_from(&self, properties: &Properties) -> bool {
        &&& self.hf_repo@ == properties.hf_repo@
        &&& self.model_path@ == properties.model_path@
        &&& self.enable_vad == properties.enable_vad
        &&& self.use_cpu == properties.use_cpu
        &&& self.temperature == properties.temperature
        &&& self.pause_energy_threshold == properties.pause_energy_threshold
        &&& self.pause_min_duration == properties.pause_min_duration
        &&& self.boundary_min_duration == properties.boundary_min_duration
        &&& self.turn_silence_threshold == properties.turn_silence_threshold
        &&& self.min_turn_speech_duration == properties.min_turn_speech_duration
        &&& self.signal_speech_hysteresis == properties.signal_speech_hysteresis
        &&& self.signal_silence_hysteresis == properties.signal_silence_hysteresis
    }

    /// The configuration of the pause detector that this describes.
    pub open spec fn pauses(&self) -> PauseDetectorConfig {
        PauseDetectorConfig {
            energy_threshold: self.pause_energy_threshold,
            min_pause_ms: self.pause_min_duration as u64,
            min_boundary_ms: self.boundary_min_duration as u64,
            turn_silence_ms: self.turn_silence_threshold as u64,
            min_turn_speech_ms: self.min_turn_speech_duration as u64,
            speech_hysteresis_ms: self.signal_speech_hysteresis as u64,
            silence_hysteresis_ms: self.signal_silence_hysteresis as u64,
        }
    }

    /// The configuration of the pause detector.
    pub fn pause_config(&self) -> (config: PauseDetectorConfig)
        ensures
            config == self.pauses(),
    {
        PauseDetectorConfig {
            energy_threshold: self.pause_energy_threshold,
            min_pause_ms: self.pause_min_duration as u64,
            min_boundary_ms: self.boundary_min_duration as u64,
            turn_silence_ms: self.turn_silence_threshold as u64,
            min_turn_speech_ms: self.min_turn_speech_duration as u64,
            speech_hysteresis_ms: self.signal_speech_hysteresis as u64,
            silence_hysteresis_ms: self.signal_silence_hysteresis as u64,
        }
    }
}

/// The defaults of the properties and those of the pause detector agree.
pub proof fn default_pauses_agree(properties: &Properties, snapshot: &PropertiesSnapshot)
    requires
        forall|id: PropertyId| #[trigger] properties.holds(id) == id.declared().kind.initial(),
        snapshot.taken_from(properties),
    ensures
        snapshot.pauses() == PauseDetectorConfig::standard(),
{
    assert(properties.holds(PropertyId::PauseEnergyThreshold)
        == PropertyId::PauseEnergyThreshold.declared().kind.initial());
    assert(properties.holds(PropertyId::PauseMinDuration)
        == PropertyId::PauseMinDuration.declared().kind.initial());
    assert(properties.holds(PropertyId::BoundaryMinDuration)
        == PropertyId::BoundaryMinDuration.declared().kind.initial());
    assert(properties.holds(PropertyId::TurnSilenceThreshold)
        == PropertyId::TurnSilenceThreshold.declared().kind.initial());
    assert(properties.holds(PropertyId::MinTurnSpeechDuration)
        == PropertyId::MinTurnSpeechDuration.declared().kind.initial());
    assert(properties.holds(PropertyId::SignalSpeechHysteresis)
        == PropertyId::SignalSpeechHysteresis.declared().kind.initial());
    assert(properties.holds(PropertyId::SignalSilenceHysteresis)
        == PropertyId::SignalSilenceHysteresis.declared().kind.initial());
}

/// The property of a name is the only one of that name.
proof fn names_find_properties(id: PropertyId)
    ensures
        forall|other: PropertyId| #[trigger] other.called() == id.called() ==> other == id,
        PropertyId::HfRepo.called() == "model"@,
        PropertyId::ModelPath.called() == "model-path"@,
        PropertyId::Language.called() == "language"@,
        PropertyId::UseCpu.called() == "use-cpu"@,
        PropertyId::Temperature.called() == "temperature"@,
        PropertyId::InitialPrompt.called() == "initial-prompt"@,
        PropertyId::DetectLanguage.called() == "detect-language"@,
        PropertyId::UseUnixTimestamps.called() == "use-unix-timestamps"@,
        PropertyId::EnableVad.called() == "enable-vad"@,
        PropertyId::VadThreshold.called() == "vad-threshold"@,
        PropertyId::NoSpeechThreshold.called() == "no-speech-threshold"@,
        PropertyId::EnablePauseDetection.called() == "enable-pause-detection"@,
        PropertyId::PauseEnergyThreshold.called() == "pause-energy-threshold"@,
        PropertyId::PauseMinDuration.called() == "pause-min-duration"@,
        PropertyId::BoundaryMinDuration.called() == "boundary-min-duration"@,
        PropertyId::TurnSilenceThreshold.called() == "turn-silence-threshold"@,
        PropertyId::MinTurnSpeechDuration.called() == "min-turn-speech-duration"@,
        PropertyId::SignalSpeechHysteresis.called() == "signal-speech-hysteresis"@,
        PropertyId::SignalSilenceHysteresis.called() == "signal-silence-hysteresis"@,
{
    assert forall|other: PropertyId| #[trigger] other.called() == id.called() implies other
        == id by {
        property_names_differ(other, id);
    }
}

/// A model is loaded as the properties ask, by their names: each value that loading
/// needs, and each one that the pause detector is made with, is what the property
/// for it holds.
pub proof fn loading_follows_the_properties(
    properties: &Properties,
    snapshot: &PropertiesSnapshot,
    id: PropertyId,
)
    requires
        snapshot.taken_from(properties),
    ensures
        ({
            let pauses = snapshot.pauses();
            let value = properties.holds(id);
            &&& id.called() == "model"@ ==> value == Setting::Text(Some(snapshot.hf_repo@))
            &&& id.called() == "model-path"@ ==> value == Setting::Text(
                Some(snapshot.model_path@),
            )
            &&& id.called() == "use-cpu"@ ==> value == Setting::Flag(snapshot.use_cpu)
            &&& id.called() == "temperature"@ ==> value == Setting::Float(snapshot.temperature)
            &&& id.called() == "enable-vad"@ ==> value == Setting::Flag(snapshot.enable_vad)
            &&& id.called() == "pause-energy-threshold"@ ==> value == Setting::Double(
                pauses.energy_threshold,
            )
            &&& id.called() == "pause-min-duration"@ ==> holds_number(value, pauses.min_pause_ms)
            &&& id.called() == "boundary-min-duration"@ ==> holds_number(
                value,
                pauses.min_boundary_ms,
            )
            &&& id.called() == "turn-silence-threshold"@ ==> holds_number(
                value,
                pauses.turn_silence_ms,
            )
            &&& id.called() == "min-turn-speech-duration"@ ==> holds_number(
                value,
                pauses.min_turn_speech_ms,
            )
            &&& id.called() == "signal-speech-hysteresis"@ ==> holds_number(
                value,
                pauses.speech_hysteresis_ms,
            )
            &&& id.called() == "signal-silence-hysteresis"@ ==> holds_number(
                value,
                pauses.silence_hysteresis_ms,
            )
        }),
{
    names_find_properties(id);
}

/// Whether this is the number.
pub open spec fn holds_number(value: Setting, number: u64) -> bool {
    value matches Setting::UInt(held) && held == number
}

/// Setting one property changes at most the one value of the pause detector that is
/// for it.
pub proof fn properties_do_not_interfere(
    before: &Properties,
    after: &Properties,
    id: PropertyId,
    value: Setting,
    old_snapshot: &PropertiesSnapshot,
    new_snapshot: &PropertiesSnapshot,
)
    requires
        after.set_from(before, id, value),
        old_snapshot.taken_from(before),
        new_snapshot.taken_from(after),
    ensures
        ({
            let (old_pauses, new_pauses) = (old_snapshot.pauses(), new_snapshot.pauses());
            &&& id.called() != "pause-energy-threshold"@ ==> old_pauses.energy_threshold
                == new_pauses.energy_threshold
            &&& id.called() != "pause-min-duration"@ ==> old_pauses.min_pause_ms
                == new_pauses.min_pause_ms
            &&& id.called() != "boundary-min-duration"@ ==> old_pauses.min_boundary_ms
                == new_pauses.min_boundary_ms
            &&& id.called() != "turn-silence-threshold"@ ==> old_pauses.turn_silence_ms
                == new_pauses.turn_silence_ms
            &&& id.called() != "min-turn-speech-duration"@ ==> old_pauses.min_turn_speech_ms
                == new_pauses.min_turn_speech_ms
            &&& id.called() != "signal-speech-hysteresis"@ ==> old_pauses.speech_hysteresis_ms
                == new_pauses.speech_hysteresis_ms
            &&& id.called() != "signal-silence-hysteresis"@ ==> old_pauses.silence_hysteresis_ms
                == new_pauses.silence_hysteresis_ms
        }),
{
    names_find_properties(id);
    setting_keeps(before, after, id, value, PropertyId::PauseEnergyThreshold);
    setting_keeps(before, after, id, value, PropertyId::PauseMinDuration);
    setting_keeps(before, after, id, value, PropertyId::BoundaryMinDuration);
    setting_keeps(before, after, id, value, PropertyId::TurnSilenceThreshold);
    setting_keeps(before, after, id, value, PropertyId::MinTurnSpeechDuration);
    setting_keeps(before, after, id, value, PropertyId::SignalSpeechHysteresis);
    setting_keeps(before, after, id, value, PropertyId::SignalSilenceHysteresis);
}

proof fn setting_keeps(
    before: &Properties,
    after: &Properties,
    id: PropertyId,
    value: Setting,
    other: PropertyId,
)
    requires
        after.set_from(before, id, value),
    ensures
        id != other ==> after.holds(other) == before.holds(other),
{
}

/// The properties that steer a call hold, by their names, what the call reads.
pub proof fn calls_follow_the_properties(properties: &Properties, id: PropertyId)
    ensures
        id.called() == "enable-pause-detection"@ ==> properties.holds(id) == Setting::Flag(
            properties.enable_pause_detection,
        ),
        id.called() == "no-speech-threshold"@ ==> properties.holds(id) == Setting::Float(
            properties.no_speech_threshold,
        ),
        id.called() == "use-unix-timestamps"@ ==> properties.holds(id) == Setting::Flag(
            properties.use_unix_timestamps,
        ),
        id.called() == "language"@ ==> properties.holds(id) == Setting::Text(
            Some(properties.language@),
        ),
{
    names_find_properties(id);
}

/// What properties can hold, by their names: durations up to five seconds, the one
/// that ends a turn from a tenth of a second on, debouncing up to one second, and
/// probabilities, energies and the temperature from zero to one.
pub proof fn ranges_are_declared(id: PropertyId)
    ensures
        id.called() == "pause-min-duration"@ || id.called() == "boundary-min-duration"@
            || id.called() == "min-turn-speech-duration"@ ==> {
            &&& id.declared().kind matches Kind::UInt { minimum, maximum, .. }
            &&& minimum == 0 && maximum == 5000
        },
        id.called() == "turn-silence-threshold"@ ==> {
            &&& id.declared().kind matches Kind::UInt { minimum, maximum, .. }
            &&& minimum == 100 && maximum == 5000
        },
        id.called() == "signal-speech-hysteresis"@ || id.called() == "signal-silence-hysteresis"@
            ==> {
            &&& id.declared().kind matches Kind::UInt { minimum, maximum, .. }
            &&& minimum == 0 && maximum == 1000
        },
        id.called() == "temperature"@ || id.called() == "vad-threshold"@ || id.called()
            == "no-speech-threshold"@ ==> {
            &&& id.declared().kind matches Kind::Float { minimum, maximum, .. }
            &&& minimum.bits == 0
            &&& maximum.encodes_sample(32768)
        },
        id.called() == "pause-energy-threshold"@ ==> {
            &&& id.declared().kind matches Kind::Double { minimum, maximum, .. }
            &&& minimum.bits == 0
            &&& maximum == Binary64::unity()
        },
        id.called() == "use-cpu"@ || id.called() == "detect-language"@ || id.called()
            == "use-unix-timestamps"@ || id.called() == "enable-vad"@ || id.called()
            == "enable-pause-detection"@ ==> id.declared().kind is Flag,
        id.called() == "model"@ || id.called() == "model-path"@ || id.called() == "language"@
            || id.called() == "initial-prompt"@ ==> id.declared().kind is Text,
{
    names_find_properties(id);
    let one = Binary32 { bits: 0x3f80_0000 };
    vstd::arithmetic::power2::lemma2_to64();
    vstd::arithmetic::power2::lemma_pow2_adds(23, 126);
    vstd::arithmetic::power2::lemma_pow2_adds(15, 134);
    assert(one.magnitude() / 0x80_0000 == 127 && one.magnitude() % 0x80_0000 == 0);
    assert(one.encodes_sample(32768));
}

/// How properties are described to people, by their names.
pub proof fn properties_are_described(id: PropertyId)
    ensures
        id.called() == "model"@ ==> id.declared().nick == "Model"@ && id.declared().blurb
            == "HuggingFace repo ID or path to model"@,
        id.called() == "model-path"@ ==> id.declared().nick == "Model path"@ && id.declared().blurb
            == "Filename of the model weights within the repo"@,
        id.called() == "language"@ ==> id.declared().nick == "Language"@ && id.declared().blurb
            == "Language code (ISO 639-1) or 'auto'"@,
        id.called() == "use-cpu"@ ==> id.declared().nick == "Use CPU"@ && id.declared().blurb
            == "Force CPU inference (disable GPU)"@,
        id.called() == "temperature"@ ==> id.declared().nick == "Temperature"@ && id.declared().blurb
            == "Sampling temperature"@,
        id.called() == "initial-prompt"@ ==> id.declared().nick == "Initial prompt"@ && id.declared().blurb
            == "Optional context prompt"@,
        id.called() == "detect-language"@ ==> id.declared().nick == "Detect language"@ && id.declared().blurb
            == "Auto-detect language"@,
        id.called() == "use-unix-timestamps"@ ==> id.declared().nick == "Unix timestamps"@ && id.declared().blurb
            == "Use absolute unix timestamps in output"@,
        id.called() == "enable-vad"@ ==> id.declared().nick == "Enable VAD"@ && id.declared().blurb
            == "Enable voice activity detection"@,
        id.called() == "vad-threshold"@ ==> id.declared().nick == "VAD threshold"@ && id.declared().blurb
            == "VAD speech probability threshold"@,
        id.called() == "no-speech-threshold"@ ==> id.declared().nick == "No-speech threshold"@ && id.declared().blurb
            == "No-speech probability threshold"@,
        id.called() == "enable-pause-detection"@ ==> id.declared().nick == "Enable pause detection"@ && id.declared().blurb
            == "Enable energy-based pause signals"@,
        id.called() == "pause-energy-threshold"@ ==> id.declared().nick == "Pause energy threshold"@ && id.declared().blurb
            == "RMS energy threshold for pause detection"@,
        id.called() == "pause-min-duration"@ ==> id.declared().nick == "Min pause duration"@ && id.declared().blurb
            == "Minimum pause duration in ms"@,
        id.called() == "boundary-min-duration"@ ==> id.declared().nick == "Min boundary duration"@ && id.declared().blurb
            == "Minimum pause for boundary detection in ms"@,
        id.called() == "turn-silence-threshold"@ ==> id.declared().nick == "Turn silence threshold"@ && id.declared().blurb
            == "Silence duration to signal turn-end in ms"@,
        id.called() == "min-turn-speech-duration"@ ==> id.declared().nick == "Min turn speech"@ && id.declared().blurb
            == "Minimum speech before turn-end in ms"@,
        id.called() == "signal-speech-hysteresis"@ ==> id.declared().nick == "Speech hysteresis"@ && id.declared().blurb
            == "Debounce: consecutive speech before start (ms)"@,
        id.called() == "signal-silence-hysteresis"@ ==> id.declared().nick == "Silence hysteresis"@ && id.declared().blurb
            == "Debounce: consecutive silence before end (ms)"@,
{
    names_find_properties(id);
}

/// Every property keeps the value that it is set to, as it is; only the prompt is
/// taken away by what is no text.
pub proof fn values_are_kept_as_they_are(id: PropertyId, value: Setting)
    requires
        id.called() != "initial-prompt"@ || value is Text,
    ensures
        id.stored(value) == value,
{
}

} // verus!
