//! The signals of the element: which there are, and what is sent with them.
use crate::ieee::Binary64;
use crate::model::{EndTime, SttWord};
use crate::setup::{Facts, ModelInfo};
use crate::vad::{Fraction, PauseEvent};
use vstd::prelude::*;

verus! {

/// The signals that the element can emit.
#[derive(Clone, Copy, Debug, PartialEq, Eq, Structural)]
pub enum SignalId {
    /// The model is ready.
    ModelLoaded,
    /// The model is gone.
    ModelUnloaded,
    /// The model could not be loaded.
    ModelLoadFailed,
    /// What is told of the model.
    ModelInfo,
    /// A word was heard.
    SegmentTranscribed,
    /// The language is known.
    LanguageDetected,
    /// Transcription began.
    TranscriptionStarted,
    /// Transcription ended.
    TranscriptionCompleted,
    /// The model heard speech, or none.
    VadSpeechDetected,
    /// Speech began.
    SpeechStart,
    /// Speech ended.
    SpeechEnd,
    /// Silence goes on.
    SilenceDetected,
    /// There is a pause.
    PauseDetected,
    /// There is a boundary.
    BoundaryDetected,
    /// A turn ended.
    TurnEnd,
    /// The mode changed.
    ModeChanged,
    /// Samples were lost.
    BufferOverflow,
}

/// The type of what is sent with a signal.
#[derive(Clone, Copy, Debug, PartialEq, Eq, Structural)]
pub enum ParamType {
    /// A text.
    Text,
    /// A structure.
    Structure,
    /// A signed 64-bit number.
    Int64,
    /// A double-precision number.
    Double,
    /// A truth value.
    Flag,
    /// A signed 32-bit number.
    Int32,
    /// An unsigned 64-bit number.
    UInt64,
}

impl SignalId {
    /// All signals, in the order in which they are declared.
    pub open spec fn all() -> Seq<SignalId> {
        seq![
            SignalId::ModelLoaded,
            SignalId::ModelUnloaded,
            SignalId::ModelLoadFailed,
            SignalId::ModelInfo,
            SignalId::SegmentTranscribed,
            SignalId::LanguageDetected,
            SignalId::TranscriptionStarted,
            SignalId::TranscriptionCompleted,
            SignalId::VadSpeechDetected,
            SignalId::SpeechStart,
            SignalId::SpeechEnd,
            SignalId::SilenceDetected,
            SignalId::PauseDetected,
            SignalId::BoundaryDetected,
            SignalId::TurnEnd,
            SignalId::ModeChanged,
            SignalId::BufferOverflow,
        ]
    }

    /// What the signal is called.
    pub open spec fn called(self) -> Seq<char> {
        match self {
            SignalId::ModelLoaded => "model-loaded"@,
            SignalId::ModelUnloaded => "model-unloaded"@,
            SignalId::ModelLoadFailed => "model-load-failed"@,
            SignalId::ModelInfo => "model-info"@,
            SignalId::SegmentTranscribed => "segment-transcribed"@,
            SignalId::LanguageDetected => "language-detected"@,
            SignalId::TranscriptionStarted => "transcription-started"@,
            SignalId::TranscriptionCompleted => "transcription-completed"@,
            SignalId::VadSpeechDetected => "vad-speech-detected"@,
            SignalId::SpeechStart => "speech-start"@,
            SignalId::SpeechEnd => "speech-end"@,
            SignalId::SilenceDetected => "silence-detected"@,
            SignalId::PauseDetected => "pause-detected"@,
            SignalId::BoundaryDetected => "boundary-detected"@,
            SignalId::TurnEnd => "turn-end"@,
            SignalId::ModeChanged => "mode-changed"@,
            SignalId::BufferOverflow => "buffer-overflow"@,
        }
    }

    /// The types of what is sent with the signal.
    pub open spec fn takes(self) -> Seq<ParamType> {
        match self {
            SignalId::ModelLoaded => seq![ParamType::Text],
            SignalId::ModelUnloaded => seq![],
            SignalId::ModelLoadFailed => seq![ParamType::Text],
            SignalId::ModelInfo => seq![ParamType::Structure],
            SignalId::SegmentTranscribed => seq![ParamType::Structure],
            SignalId::LanguageDetected => seq![ParamType::Text, ParamType::Double],
            SignalId::TranscriptionStarted => seq![ParamType::Int64],
            SignalId::TranscriptionCompleted => seq![ParamType::Int64, ParamType::Int64],
            SignalId::VadSpeechDetected => seq![ParamType::Int64, ParamType::Flag],
            SignalId::SpeechStart => seq![ParamType::Int64],
            SignalId::SpeechEnd => seq![ParamType::Int64, ParamType::Int64],
            SignalId::SilenceDetected => seq![ParamType::Int64, ParamType::Int64],
            SignalId::PauseDetected => seq![ParamType::Int64, ParamType::Int64, ParamType::Double],
            SignalId::BoundaryDetected => seq![ParamType::Int64, ParamType::Double],
            SignalId::TurnEnd => seq![ParamType::Int64, ParamType::Int64, ParamType::Int64],
            SignalId::ModeChanged => seq![ParamType::Int32, ParamType::Int32],
            SignalId::BufferOverflow => seq![ParamType::UInt64],
        }
    }

    /// What the signal is called.
    pub fn name(self) -> (name: &'static str)
        ensures
            name@ == self.called(),
    {
        match self {
            SignalId::ModelLoaded => "model-loaded",
            SignalId::ModelUnloaded => "model-unloaded",
            SignalId::ModelLoadFailed => "model-load-failed",
            SignalId::ModelInfo => "model-info",
            SignalId::SegmentTranscribed => "segment-transcribed",
            SignalId::LanguageDetected => "language-detected",
            SignalId::TranscriptionStarted => "transcription-started",
            SignalId::TranscriptionCompleted => "transcription-completed",
            SignalId::VadSpeechDetected => "vad-speech-detected",
            SignalId::SpeechStart => "speech-start",
            SignalId::SpeechEnd => "speech-end",
            SignalId::SilenceDetected => "silence-detected",
            SignalId::PauseDetected => "pause-detected",
            SignalId::BoundaryDetected => "boundary-detected",
            SignalId::TurnEnd => "turn-end",
            SignalId::ModeChanged => "mode-changed",
            SignalId::BufferOverflow => "buffer-overflow",
        }
    }

    /// The types of what is sent with the signal.
    pub fn param_types(self) -> (types: Vec<ParamType>)
        ensures
            types@ == self.takes(),
    {
        let types: Vec<ParamType> = match self {
            SignalId::ModelLoaded => vec![ParamType::Text],
            SignalId::ModelUnloaded => Vec::new(),
            SignalId::ModelLoadFailed => vec![ParamType::Text],
            SignalId::ModelInfo => vec![ParamType::Structure],
            SignalId::SegmentTranscribed => vec![ParamType::Structure],
            SignalId::LanguageDetected => vec![ParamType::Text, ParamType::Double],
            SignalId::TranscriptionStarted => vec![ParamType::Int64],
            SignalId::TranscriptionCompleted => vec![ParamType::Int64, ParamType::Int64],
            SignalId::VadSpeechDetected => vec![ParamType::Int64, ParamType::Flag],
            SignalId::SpeechStart => vec![ParamType::Int64],
            SignalId::SpeechEnd => vec![ParamType::Int64, ParamType::Int64],
            SignalId::SilenceDetected => vec![ParamType::Int64, ParamType::Int64],
            SignalId::PauseDetected => vec![ParamType::Int64, ParamType::Int64, ParamType::Double],
            SignalId::BoundaryDetected => vec![ParamType::Int64, ParamType::Double],
            SignalId::TurnEnd => vec![ParamType::Int64, ParamType::Int64, ParamType::Int64],
            SignalId::ModeChanged => vec![ParamType::Int32, ParamType::Int32],
            SignalId::BufferOverflow => vec![ParamType::UInt64],
        };
        assert(types@ =~= self.takes());
        types
    }
}

/// No two signals share a name.
pub proof fn signal_names_differ(a: SignalId, b: SignalId)
    requires
        a.called() == b.called(),
    ensures
        a == b,
{
    reveal_strlit("model-loaded");
    reveal_strlit("model-unloaded");
    reveal_strlit("model-load-failed");
    reveal_strlit("model-info");
    reveal_strlit("segment-transcribed");
    reveal_strlit("language-detected");
    reveal_strlit("transcription-started");
    reveal_strlit("transcription-completed");
    reveal_strlit("vad-speech-detected");
    reveal_strlit("speech-start");
    reveal_strlit("speech-end");
    reveal_strlit("silence-detected");
    reveal_strlit("pause-detected");
    reveal_strlit("boundary-detected");
    reveal_strlit("turn-end");
    reveal_strlit("mode-changed");
    reveal_strlit("buffer-overflow");
    assert("model-loaded"@.len() == 12);
    assert("model-loaded"@[0] == 'm' && "model-loaded"@[4] == 'l');
    assert("model-unloaded"@.len() == 14);
    assert("model-unloaded"@[0] == 'm' && "model-unloaded"@[4] == 'l');
    assert("model-load-failed"@.len() == 17);
    assert("model-load-failed"@[0] == 'm' && "model-load-failed"@[4] == 'l');
    assert("model-info"@.len() == 10);
    assert("model-info"@[0] == 'm' && "model-info"@[4] == 'l');
    assert("segment-transcribed"@.len() == 19);
    assert("segment-transcribed"@[0] == 's' && "segment-transcribed"@[4] == 'e');
    assert("language-detected"@.len() == 17);
    assert("language-detected"@[0] == 'l' && "language-detected"@[4] == 'u');
    assert("transcription-started"@.len() == 21);
    assert("transcription-started"@[0] == 't' && "transcription-started"@[4] == 's');
    assert("transcription-completed"@.len() == 23);
    assert("transcription-completed"@[0] == 't' && "transcription-completed"@[4] == 's');
    assert("vad-speech-detected"@.len() == 19);
    assert("vad-speech-detected"@[0] == 'v' && "vad-speech-detected"@[4] == 's');
    assert("speech-start"@.len() == 12);
    assert("speech-start"@[0] == 's' && "speech-start"@[4] == 'c');
    assert("speech-end"@.len() == 10);
    assert("speech-end"@[0] == 's' && "speech-end"@[4] == 'c');
    assert("silence-detected"@.len() == 16);
    assert("silence-detected"@[0] == 's' && "silence-detected"@[4] == 'n');
    assert("pause-detected"@.len() == 14);
    assert("pause-detected"@[0] == 'p' && "pause-detected"@[4] == 'e');
    assert("boundary-detected"@.len() == 17);
    assert("boundary-detected"@[0] == 'b' && "boundary-detected"@[4] == 'd');
    assert("turn-end"@.len() == 8);
    assert("turn-end"@[0] == 't' && "turn-end"@[4] == '-');
    assert("mode-changed"@.len() == 12);
    assert("mode-changed"@[0] == 'm' && "mode-changed"@[4] == '-');
    assert("buffer-overflow"@.len() == 15);
    assert("buffer-overflow"@[0] == 'b' && "buffer-overflow"@[4] == 'e');
    assert(a.called()[0] == b.called()[0] && a.called()[4] == b.called()[4]);
}

/// The declaration of a signal.
pub struct SignalSpec {
    /// What it is called.
    pub name: &'static str,
    /// What is sent with it.
    pub param_types: Vec<ParamType>,
}

/// The signals of the element.
pub fn signals() -> (declared: Vec<SignalSpec>)
    ensures
        declared@.len() == SignalId::all().len(),
        forall|i: int|
            0 <= i < declared@.len() ==> {
                &&& (#[trigger] declared@[i]).name@ == SignalId::all()[i].called()
                &&& declared@[i].param_types@ == SignalId::all()[i].takes()
            },
{
    let ids: [SignalId; 17] = [
        SignalId::ModelLoaded,
        SignalId::ModelUnloaded,
        SignalId::ModelLoadFailed,
        SignalId::ModelInfo,
        SignalId::SegmentTranscribed,
        SignalId::LanguageDetected,
        SignalId::TranscriptionStarted,
        SignalId::TranscriptionCompleted,
        SignalId::VadSpeechDetected,
        SignalId::SpeechStart,
        SignalId::SpeechEnd,
        SignalId::SilenceDetected,
        SignalId::PauseDetected,
        SignalId::BoundaryDetected,
        SignalId::TurnEnd,
        SignalId::ModeChanged,
        SignalId::BufferOverflow,
    ];
    assert(ids@ =~= SignalId::all());
    let mut declared: Vec<SignalSpec> = Vec::new();
    let mut i: usize = 0;
    while i < 17
        invariant
            i <= 17,
            ids@ == SignalId::all(),
            SignalId::all().len() == 17,
            declared@.len() == i,
            forall|j: int|
                0 <= j < i ==> {
                    &&& (#[trigger] declared@[j]).name@ == SignalId::all()[j].called()
                    &&& declared@[j].param_types@ == SignalId::all()[j].takes()
                },
        decreases 17 - i,
    {
        declared.push(SignalSpec { name: ids[i].name(), param_types: ids[i].param_types() });
        i = i + 1;
    }
    declared
}

/// What a field of a structure holds.
#[derive(Debug, PartialEq, Eq)]
pub enum FieldValue {
    /// A text.
    Text(String),
    /// A double-precision number.
    Double(Binary64),
    /// When a word ends that starts at `start_time`: a double-precision number.
    WordEnd { start_time: Binary64, end_time: EndTime },
    /// A signed 32-bit number.
    Int32(i32),
    /// A truth value.
    Flag(bool),
}

/// A field, as contracts see it.
pub enum Content {
    /// A text.
    Text(Seq<char>),
    /// A double-precision number.
    Double(Binary64),
    /// When a word ends.
    WordEnd { start_time: Binary64, end_time: EndTime },
    /// A signed 32-bit number.
    Int32(i32),
    /// A truth value.
    Flag(bool),
}

impl View for FieldValue {
    type V = Content;

    open spec fn view(&self) -> Content {
        match self {
            FieldValue::Text(text) => Content::Text(text@),
            FieldValue::Double(number) => Content::Double(*number),
            FieldValue::WordEnd { start_time, end_time } => Content::WordEnd {
                start_time: *start_time,
                end_time: *end_time,
            },
            FieldValue::Int32(number) => Content::Int32(*number),
            FieldValue::Flag(flag) => Content::Flag(*flag),
        }
    }
}

/// A named field.
#[derive(Debug, PartialEq, Eq)]
pub struct Field {
    /// What it is called.
    pub name: &'static str,
    /// What it holds.
    pub value: FieldValue,
}

/// Named fields under a name.
#[derive(Debug, PartialEq, Eq)]
pub struct Structure {
    /// What it is called.
    pub name: &'static str,
    /// What it holds, in order.
    pub fields: Vec<Field>,
}

/// A structure, as contracts see it.
pub struct Record {
    /// What it is called.
    pub name: Seq<char>,
    /// What it holds, in order.
    pub fields: Seq<(Seq<char>, Content)>,
}

impl View for Structure {
    type V = Record;

    open spec fn view(&self) -> Record {
        Record {
            name: self.name@,
            fields: self.fields@.map_values(|field: Field| (field.name@, field.value@)),
        }
    }
}

/// What is sent with a signal.
#[derive(Debug, PartialEq, Eq)]
pub enum SignalArg {
    /// A text.
    Text(String),
    /// A structure.
    Structure(Structure),
    /// A signed 64-bit number.
    Int64(i64),
    /// A double-precision number.
    Double(Binary64),
    /// A fraction, sent as a double-precision number.
    Share(Fraction),
    /// A truth value.
    Flag(bool),
}

/// What is sent, as contracts see it.
pub enum Arg {
    /// A text.
    Text(Seq<char>),
    /// A structure.
    Structure(Record),
    /// A signed 64-bit number.
    Int64(i64),
    /// A double-precision number.
    Double(Binary64),
    /// A fraction.
    Share(Fraction),
    /// A truth value.
    Flag(bool),
}

impl View for SignalArg {
    type V = Arg;

    open spec fn view(&self) -> Arg {
        match self {
            SignalArg::Text(text) => Arg::Text(text@),
            SignalArg::Structure(structure) => Arg::Structure(structure@),
            SignalArg::Int64(number) => Arg::Int64(*number),
            SignalArg::Double(number) => Arg::Double(*number),
            SignalArg::Share(fraction) => Arg::Share(*fraction),
            SignalArg::Flag(flag) => Arg::Flag(*flag),
        }
    }
}

impl Arg {
    /// The type of what is sent.
    pub open spec fn param_type(self) -> ParamType {
        match self {
            Arg::Text(_) => ParamType::Text,
            Arg::Structure(_) => ParamType::Structure,
            Arg::Int64(_) => ParamType::Int64,
            Arg::Double(_) => ParamType::Double,
            Arg::Share(_) => ParamType::Double,
            Arg::Flag(_) => ParamType::Flag,
        }
    }
}

/// A signal to be emitted.
#[derive(Debug, PartialEq, Eq)]
pub struct Signal {
    /// Which one.
    pub id: SignalId,
    /// What is sent with it.
    pub args: Vec<SignalArg>,
}

/// A signal, as contracts see it.
pub struct Emission {
    /// Which one.
    pub id: SignalId,
    /// What is sent with it.
    pub args: Seq<Arg>,
}

impl View for Signal {
    type V = Emission;

    open spec fn view(&self) -> Emission {
        Emission { id: self.id, args: self.args@.map_values(|arg: SignalArg| arg@) }
    }
}

impl Emission {
    /// Whether what is sent has the types that the signal was declared with.
    pub open spec fn conforms(self) -> bool {
        self.args.map_values(|arg: Arg| arg.param_type()) == self.id.takes()
    }

    /// What an event of the pause detector is told by. Times are sent as signed
    /// numbers of the same 64 bits.
    pub open spec fn of_pause(event: PauseEvent) -> Emission {
        match event {
            PauseEvent::SpeechStart { timestamp_ns } => Emission {
                id: SignalId::SpeechStart,
                args: seq![Arg::Int64(timestamp_ns as i64)],
            },
            PauseEvent::SpeechEnd { timestamp_ns, duration_ns } => Emission {
                id: SignalId::SpeechEnd,
                args: seq![Arg::Int64(timestamp_ns as i64), Arg::Int64(duration_ns as i64)],
            },
            PauseEvent::PauseDetected { timestamp_ns, duration_ns, energy } => Emission {
                id: SignalId::PauseDetected,
                args: seq![
                    Arg::Int64(timestamp_ns as i64),
                    Arg::Int64(duration_ns as i64),
                    Arg::Double(energy),
                ],
            },
            PauseEvent::BoundaryDetected { timestamp_ns, confidence } => Emission {
                id: SignalId::BoundaryDetected,
                args: seq![Arg::Int64(timestamp_ns as i64), Arg::Share(confidence)],
            },
            PauseEvent::TurnEnd { timestamp_ns, speech_duration_ns, silence_ns } => Emission {
                id: SignalId::TurnEnd,
                args: seq![
                    Arg::Int64(timestamp_ns as i64),
                    Arg::Int64(speech_duration_ns as i64),
                    Arg::Int64(silence_ns as i64),
                ],
            },
            PauseEvent::SilenceDetected { timestamp_ns, duration_ns } => Emission {
                id: SignalId::SilenceDetected,
                args: seq![Arg::Int64(timestamp_ns as i64), Arg::Int64(duration_ns as i64)],
            },
        }
    }

    /// What a word is told by.
    pub open spec fn of_word(word: crate::model::Word) -> Emission {
        Emission {
            id: SignalId::SegmentTranscribed,
            args: seq![
                Arg::Structure(
                    Record {
                        name: "segment"@,
                        fields: seq![
                            ("text"@, Content::Text(word.text)),
                            ("start-time"@, Content::Double(word.start_time)),
                            (
                                "end-time"@,
                                Content::WordEnd {
                                    start_time: word.start_time,
                                    end_time: word.end_time,
                                },
                            ),
                            ("confidence"@, Content::Double(word.confidence)),
                        ],
                    },
                ),
            ],
        }
    }

    /// What the verdict of the voice-activity head is told by.
    pub open spec fn of_vad(timestamp_ns: i64, is_speech: bool) -> Emission {
        Emission {
            id: SignalId::VadSpeechDetected,
            args: seq![Arg::Int64(timestamp_ns), Arg::Flag(is_speech)],
        }
    }

    /// What a signal that sends one text sends.
    pub open spec fn of_text(id: SignalId, text: Seq<char>) -> Emission {
        Emission { id, args: seq![Arg::Text(text)] }
    }

    /// What is told of a model that was loaded.
    pub open spec fn of_model(info: Facts) -> Emission {
        Emission {
            id: SignalId::ModelInfo,
            args: seq![
                Arg::Structure(
                    Record {
                        name: "model-info"@,
                        fields: seq![
                            ("type"@, Content::Text("kyutai-stt"@)),
                            ("sample-rate"@, Content::Int32(info.sample_rate as i32)),
                            ("gpu-enabled"@, Content::Flag(info.gpu_enabled)),
                            ("hf-repo"@, Content::Text(info.hf_repo)),
                            ("quantized"@, Content::Flag(info.quantized)),
                        ],
                    },
                ),
            ],
        }
    }
}

/// The signals of a list, as contracts see them.
pub open spec fn emitted(signals: Seq<Signal>) -> Seq<Emission> {
    signals.map_values(|signal: Signal| signal@)
}

/// Signals, one for each event of the pause detector.
pub open spec fn of_pauses(events: Seq<PauseEvent>) -> Seq<Emission> {
    events.map_values(|event: PauseEvent| Emission::of_pause(event))
}

/// What tells of an event of the pause detector has the types that it was
/// declared with.
pub proof fn pause_signals_conform(event: PauseEvent)
    ensures
        Emission::of_pause(event).conforms(),
{
    let emission = Emission::of_pause(event);
    assert(emission.args.map_values(|arg: Arg| arg.param_type()) =~= emission.id.takes());
}

/// What tells of a word has the types that it was declared with.
pub proof fn word_signals_conform(word: crate::model::Word)
    ensures
        Emission::of_word(word).conforms(),
{
    let emission = Emission::of_word(word);
    assert(emission.args.map_values(|arg: Arg| arg.param_type()) =~= emission.id.takes());
}

/// What tells the verdict of the voice-activity head has the types that it was
/// declared with.
pub proof fn vad_signals_conform(timestamp_ns: i64, is_speech: bool)
    ensures
        Emission::of_vad(timestamp_ns, is_speech).conforms(),
{
    let emission = Emission::of_vad(timestamp_ns, is_speech);
    assert(emission.args.map_values(|arg: Arg| arg.param_type()) =~= emission.id.takes());
}

/// What tells of the loading and unloading of models has the types that it was
/// declared with.
pub proof fn model_signals_conform(text: Seq<char>, info: Facts)
    ensures
        Emission::of_text(SignalId::ModelLoaded, text).conforms(),
        Emission::of_text(SignalId::ModelLoadFailed, text).conforms(),
        Emission::of_model(info).conforms(),
        (Emission { id: SignalId::ModelUnloaded, args: seq![] }).conforms(),
{
    let kind = |arg: Arg| arg.param_type();
    assert(Emission::of_text(SignalId::ModelLoaded, text).args.map_values(kind) =~= seq![
        ParamType::Text,
    ]);
    assert(Emission::of_text(SignalId::ModelLoadFailed, text).args.map_values(kind) =~= seq![
        ParamType::Text,
    ]);
    assert(Emission::of_model(info).args.map_values(kind) =~= seq![ParamType::Structure]);
    assert(Seq::<Arg>::empty().map_values(kind) =~= seq![]);
}

impl Signal {
    /// The signal that tells of an event of the pause detector.
    pub fn of_pause(event: &PauseEvent) -> (signal: Signal)
        ensures
            signal@ == Emission::of_pause(*event),
    {
        let (id, args): (SignalId, Vec<SignalArg>) = match event {
            PauseEvent::SpeechStart { timestamp_ns } => (
                SignalId::SpeechStart,
                vec![SignalArg::Int64(*timestamp_ns as i64)],
            ),
            PauseEvent::SpeechEnd { timestamp_ns, duration_ns } => (
                SignalId::SpeechEnd,
                vec![
                    SignalArg::Int64(*timestamp_ns as i64),
                    SignalArg::Int64(*duration_ns as i64),
                ],
            ),
            PauseEvent::PauseDetected { timestamp_ns, duration_ns, energy } => (
                SignalId::PauseDetected,
                vec![
                    SignalArg::Int64(*timestamp_ns as i64),
                    SignalArg::Int64(*duration_ns as i64),
                    SignalArg::Double(*energy),
                ],
            ),
            PauseEvent::BoundaryDetected { timestamp_ns, confidence } => (
                SignalId::BoundaryDetected,
                vec![SignalArg::Int64(*timestamp_ns as i64), SignalArg::Share(*confidence)],
            ),
            PauseEvent::TurnEnd { timestamp_ns, speech_duration_ns, silence_ns } => (
                SignalId::TurnEnd,
                vec![
                    SignalArg::Int64(*timestamp_ns as i64),
                    SignalArg::Int64(*speech_duration_ns as i64),
                    SignalArg::Int64(*silence_ns as i64),
                ],
            ),
            PauseEvent::SilenceDetected { timestamp_ns, duration_ns } => (
                SignalId::SilenceDetected,
                vec![
                    SignalArg::Int64(*timestamp_ns as i64),
                    SignalArg::Int64(*duration_ns as i64),
                ],
            ),
        };
        let signal = Signal { id, args };
        assert(signal@.args =~= Emission::of_pause(*event).args);
        signal
    }

    /// The signal that tells of a word.
    pub fn of_word(word: &SttWord) -> (signal: Signal)
        ensures
            signal@ == Emission::of_word(word@),
    {
        let fields = vec![
            Field { name: "text", value: FieldValue::Text(word.text.clone()) },
            Field { name: "start-time", value: FieldValue::Double(word.start_time) },
            Field {
                name: "end-time",
                value: FieldValue::WordEnd {
                    start_time: word.start_time,
                    end_time: word.end_time,
                },
            },
            Field { name: "confidence", value: FieldValue::Double(word.confidence) },
        ];
        let structure = Structure { name: "segment", fields };
        let ghost record = Emission::of_word(word@).args[0]->Structure_0;
        assert(structure@.fields =~= record.fields);
        let signal = Signal {
            id: SignalId::SegmentTranscribed,
            args: vec![SignalArg::Structure(structure)],
        };
        assert(signal@.args =~= Emission::of_word(word@).args);
        signal
    }

    /// The signal that tells the verdict of the voice-activity head.
    pub fn of_vad(timestamp_ns: i64, is_speech: bool) -> (signal: Signal)
        ensures
            signal@ == Emission::of_vad(timestamp_ns, is_speech),
    {
        let signal = Signal {
            id: SignalId::VadSpeechDetected,
            args: vec![SignalArg::Int64(timestamp_ns), SignalArg::Flag(is_speech)],
        };
        assert(signal@.args =~= Emission::of_vad(timestamp_ns, is_speech).args);
        signal
    }

    /// A signal that sends one text.
    pub fn of_text(id: SignalId, text: String) -> (signal: Signal)
        ensures
            signal@ == Emission::of_text(id, text@),
    {
        let signal = Signal { id, args: vec![SignalArg::Text(text)] };
        assert(signal@.args =~= Emission::of_text(id, text@).args);
        signal
    }

    /// The signal that tells of a model that was loaded.
    pub fn of_model(info: &ModelInfo) -> (signal: Signal)
        ensures
            signal@ == Emission::of_model(info@),
    {
        let fields = vec![
            Field { name: "type", value: FieldValue::Text("kyutai-stt".to_owned()) },
            Field { name: "sample-rate", value: FieldValue::Int32(info.sample_rate as i32) },
            Field { name: "gpu-enabled", value: FieldValue::Flag(info.gpu_enabled) },
            Field { name: "hf-repo", value: FieldValue::Text(info.hf_repo.clone()) },
            Field { name: "quantized", value: FieldValue::Flag(info.quantized) },
        ];
        let structure = Structure { name: "model-info", fields };
        let ghost record = Emission::of_model(info@).args[0]->Structure_0;
        assert(structure@.fields =~= record.fields);
        let signal = Signal {
            id: SignalId::ModelInfo,
            args: vec![SignalArg::Structure(structure)],
        };
        assert(signal@.args =~= Emission::of_model(info@).args);
        signal
    }
}

/// The signals that tell of events of the pause detector, in order.
pub fn emit_pause_events(events: &Vec<PauseEvent>) -> (signals: Vec<Signal>)
    ensures
        emitted(signals@) == of_pauses(events@),
{
    let mut signals: Vec<Signal> = Vec::new();
    let mut i: usize = 0;
    while i < events.len()
        invariant
            i <= events@.len(),
            signals@.len() == i,
            forall|j: int|
                0 <= j < i ==> (#[trigger] signals@[j])@ == Emission::of_pause(events@[j]),
        decreases events@.len() - i,
    {
        signals.push(Signal::of_pause(&events[i]));
        i = i + 1;
    }
    assert(emitted(signals@) =~= of_pauses(events@));
    signals
}

/// Whether a field of a word's structure gives the end of the word: the time that
/// is known for it, or how long after its start it comes.
pub open spec fn gives_end(content: Content, word: crate::model::Word) -> bool {
    match (content, word.end_time) {
        (Content::WordEnd { end_time: EndTime::At(told), .. }, EndTime::At(time)) => told == time,
        (
            Content::WordEnd { start_time, end_time: EndTime::AfterStart { milliseconds: told } },
            EndTime::AfterStart { milliseconds },
        ) => start_time == word.start_time && told == milliseconds,
        _ => false,
    }
}

/// A word is told by a segment that holds its text, its start, its end and how sure
/// the model is, and nothing else.
pub proof fn words_are_told_in_full(word: crate::model::Word)
    ensures
        Emission::of_word(word).id.called() == "segment-transcribed"@,
        Emission::of_word(word).args.len() == 1,
        ({
            &&& Emission::of_word(word).args[0] matches Arg::Structure(segment)
            &&& segment.name == "segment"@
            &&& segment.fields.len() == 4
            &&& segment.fields.contains(("text"@, Content::Text(word.text)))
            &&& segment.fields.contains(("start-time"@, Content::Double(word.start_time)))
            &&& segment.fields.contains(("confidence"@, Content::Double(word.confidence)))
            &&& exists|end: Content|
                #[trigger] segment.fields.contains(("end-time"@, end)) && gives_end(end, word)
        }),
{
    let fields = Emission::of_word(word).args[0]->Structure_0.fields;
    assert(fields[0] == ("text"@, Content::Text(word.text)));
    assert(fields[1] == ("start-time"@, Content::Double(word.start_time)));
    assert(fields[3] == ("confidence"@, Content::Double(word.confidence)));
    let end = fields[2].1;
    assert(fields[2] == ("end-time"@, end));
    assert(fields.contains(("end-time"@, end)) && gives_end(end, word));
}

/// Different words are told differently: in particular those that differ in their
/// ends alone.
pub proof fn different_words_are_told_differently(a: crate::model::Word, b: crate::model::Word)
    requires
        Emission::of_word(a) == Emission::of_word(b),
    ensures
        a == b,
{
    let (x, y) = (
        Emission::of_word(a).args[0]->Structure_0.fields,
        Emission::of_word(b).args[0]->Structure_0.fields,
    );
    assert(x[0] == y[0] && x[1] == y[1] && x[2] == y[2] && x[3] == y[3]);
}

/// A time as it is sent: a signed number of the same 64 bits.
pub open spec fn time_arg(nanoseconds: u64) -> Arg {
    Arg::Int64(nanoseconds as i64)
}

/// What tells of an event of the pause detector says first where the event is, and
/// then, in order, what else it carries; its name says what happened.
pub proof fn pauses_are_told_in_full(event: PauseEvent)
    ensures
        ({
            let told = Emission::of_pause(event);
            &&& told.args.len() > 0
            &&& told.args[0] == time_arg(event.at())
            &&& match event {
                PauseEvent::SpeechStart { .. } => told.id.called() == "speech-start"@
                    && told.args.len() == 1,
                PauseEvent::SpeechEnd { duration_ns, .. } => {
                    &&& told.id.called() == "speech-end"@
                    &&& told.args.skip(1) == seq![time_arg(duration_ns)]
                },
                PauseEvent::PauseDetected { duration_ns, energy, .. } => {
                    &&& told.id.called() == "pause-detected"@
                    &&& told.args.skip(1) == seq![time_arg(duration_ns), Arg::Double(energy)]
                },
                PauseEvent::BoundaryDetected { confidence, .. } => {
                    &&& told.id.called() == "boundary-detected"@
                    &&& told.args.skip(1) == seq![Arg::Share(confidence)]
                },
                PauseEvent::TurnEnd { speech_duration_ns, silence_ns, .. } => {
                    &&& told.id.called() == "turn-end"@
                    &&& told.args.skip(1) == seq![time_arg(speech_duration_ns), time_arg(silence_ns)]
                },
                PauseEvent::SilenceDetected { duration_ns, .. } => {
                    &&& told.id.called() == "silence-detected"@
                    &&& told.args.skip(1) == seq![time_arg(duration_ns)]
                },
            }
        }),
{
    let told = Emission::of_pause(event);
    let rest = told.args.skip(1);
    match event {
        PauseEvent::SpeechStart { .. } => {},
        PauseEvent::SpeechEnd { duration_ns, .. } => {
            assert(rest =~= seq![Arg::Int64(duration_ns as i64)]);
        },
        PauseEvent::PauseDetected { duration_ns, energy, .. } => {
            assert(rest =~= seq![Arg::Int64(duration_ns as i64), Arg::Double(energy)]);
        },
        PauseEvent::BoundaryDetected { confidence, .. } => {
            assert(rest =~= seq![Arg::Share(confidence)]);
        },
        PauseEvent::TurnEnd { speech_duration_ns, silence_ns, .. } => {
            assert(rest =~= seq![
                Arg::Int64(speech_duration_ns as i64),
                Arg::Int64(silence_ns as i64),
            ]);
        },
        PauseEvent::SilenceDetected { duration_ns, .. } => {
            assert(rest =~= seq![Arg::Int64(duration_ns as i64)]);
        },
    }
}

/// Every event of the pause detector is told once, in order, and by itself.
pub proof fn every_pause_is_told(events: Seq<PauseEvent>, event: PauseEvent)
    ensures
        of_pauses(seq![]).len() == 0,
        of_pauses(events.push(event)) == of_pauses(events).push(Emission::of_pause(event)),
{
    assert(of_pauses(events.push(event)) =~= of_pauses(events).push(Emission::of_pause(event)));
}

/// A model that was loaded is told by its kind, its rate, whether it runs on a
/// graphics processor, where it came from and whether it is quantized, and nothing
/// else.
pub proof fn models_are_told_in_full(info: Facts)
    requires
        0 <= info.sample_rate <= i32::MAX,
    ensures
        Emission::of_model(info).id.called() == "model-info"@,
        Emission::of_model(info).args.len() == 1,
        ({
            &&& Emission::of_model(info).args[0] matches Arg::Structure(record)
            &&& record.name == "model-info"@
            &&& record.fields.len() == 5
            &&& record.fields.contains(("type"@, Content::Text("kyutai-stt"@)))
            &&& exists|rate: i32| #[trigger]
                record.fields.contains(("sample-rate"@, Content::Int32(rate))) && rate
                    == info.sample_rate
            &&& record.fields.contains(("gpu-enabled"@, Content::Flag(info.gpu_enabled)))
            &&& record.fields.contains(("hf-repo"@, Content::Text(info.hf_repo)))
            &&& record.fields.contains(("quantized"@, Content::Flag(info.quantized)))
        }),
{
    let fields = Emission::of_model(info).args[0]->Structure_0.fields;
    let rate = info.sample_rate as i32;
    assert(fields[0] == ("type"@, Content::Text("kyutai-stt"@)));
    assert(fields[1] == ("sample-rate"@, Content::Int32(rate)));
    assert(fields[2] == ("gpu-enabled"@, Content::Flag(info.gpu_enabled)));
    assert(fields[3] == ("hf-repo"@, Content::Text(info.hf_repo)));
    assert(fields[4] == ("quantized"@, Content::Flag(info.quantized)));
    assert(fields.contains(("sample-rate"@, Content::Int32(rate))));
}

/// A verdict is told with its time and the verdict, and a text with the text.
pub proof fn verdicts_and_texts_are_told_in_full(
    timestamp_ns: i64,
    is_speech: bool,
    id: SignalId,
    text: Seq<char>,
)
    ensures
        Emission::of_vad(timestamp_ns, is_speech).id.called() == "vad-speech-detected"@,
        Emission::of_vad(timestamp_ns, is_speech).args == seq![
            Arg::Int64(timestamp_ns),
            Arg::Flag(is_speech),
        ],
        Emission::of_text(id, text).id == id,
        Emission::of_text(id, text).args == seq![Arg::Text(text)],
{
}

/// What each signal is declared to send, by its name.
pub proof fn signals_send_what_they_are_for(id: SignalId)
    ensures
        id.called() == "model-loaded"@ ==> id.takes() == seq![ParamType::Text],
        id.called() == "model-unloaded"@ ==> id.takes().len() == 0,
        id.called() == "model-load-failed"@ ==> id.takes() == seq![ParamType::Text],
        id.called() == "model-info"@ ==> id.takes() == seq![ParamType::Structure],
        id.called() == "segment-transcribed"@ ==> id.takes() == seq![ParamType::Structure],
        id.called() == "language-detected"@ ==> id.takes() == seq![
            ParamType::Text,
            ParamType::Double,
        ],
        id.called() == "transcription-started"@ ==> id.takes() == seq![ParamType::Int64],
        id.called() == "transcription-completed"@ ==> id.takes() == seq![
            ParamType::Int64,
            ParamType::Int64,
        ],
        id.called() == "vad-speech-detected"@ ==> id.takes() == seq![
            ParamType::Int64,
            ParamType::Flag,
        ],
        id.called() == "speech-start"@ ==> id.takes() == seq![ParamType::Int64],
        id.called() == "speech-end"@ ==> id.takes() == seq![ParamType::Int64, ParamType::Int64],
        id.called() == "silence-detected"@ ==> id.takes() == seq![
            ParamType::Int64,
            ParamType::Int64,
        ],
        id.called() == "pause-detected"@ ==> id.takes() == seq![
            ParamType::Int64,
            ParamType::Int64,
            ParamType::Double,
        ],
        id.called() == "boundary-detected"@ ==> id.takes() == seq![
            ParamType::Int64,
            ParamType::Double,
        ],
        id.called() == "turn-end"@ ==> id.takes() == seq![
            ParamType::Int64,
            ParamType::Int64,
            ParamType::Int64,
        ],
        id.called() == "mode-changed"@ ==> id.takes() == seq![ParamType::Int32, ParamType::Int32],
        id.called() == "buffer-overflow"@ ==> id.takes() == seq![ParamType::UInt64],
{
    assert forall|other: SignalId| #[trigger] other.called() == id.called() implies other
        == id by {
        signal_names_differ(other, id);
    }
    assert(SignalId::ModelLoaded.called() == "model-loaded"@);
    assert(SignalId::ModelUnloaded.called() == "model-unloaded"@);
    assert(SignalId::ModelLoadFailed.called() == "model-load-failed"@);
    assert(SignalId::ModelInfo.called() == "model-info"@);
    assert(SignalId::SegmentTranscribed.called() == "segment-transcribed"@);
    assert(SignalId::LanguageDetected.called() == "language-detected"@);
    assert(SignalId::TranscriptionStarted.called() == "transcription-started"@);
    assert(SignalId::TranscriptionCompleted.called() == "transcription-completed"@);
    assert(SignalId::VadSpeechDetected.called() == "vad-speech-detected"@);
    assert(SignalId::SpeechStart.called() == "speech-start"@);
    assert(SignalId::SpeechEnd.called() == "speech-end"@);
    assert(SignalId::SilenceDetected.called() == "silence-detected"@);
    assert(SignalId::PauseDetected.called() == "pause-detected"@);
    assert(SignalId::BoundaryDetected.called() == "boundary-detected"@);
    assert(SignalId::TurnEnd.called() == "turn-end"@);
    assert(SignalId::ModeChanged.called() == "mode-changed"@);
    assert(SignalId::BufferOverflow.called() == "buffer-overflow"@);
}

} // verus!
