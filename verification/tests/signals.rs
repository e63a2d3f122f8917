use kyutaistt::ieee::Binary64;
use kyutaistt::model::{EndTime, SttWord};
use kyutaistt::setup::ModelInfo;
use kyutaistt::signals::{
    emit_pause_events, signals, FieldValue, ParamType, Signal, SignalArg, SignalId,
};
use kyutaistt::vad::{Fraction, PauseEvent};

fn double(x: f64) -> Binary64 {
    Binary64 { bits: x.to_bits() }
}

#[test]
fn seventeen_signals_are_declared() {
    let declared = signals();
    let names: Vec<&str> = declared.iter().map(|s| s.name).collect();
    assert_eq!(
        names,
        vec![
            "model-loaded",
            "model-unloaded",
            "model-load-failed",
            "model-info",
            "segment-transcribed",
            "language-detected",
            "transcription-started",
            "transcription-completed",
            "vad-speech-detected",
            "speech-start",
            "speech-end",
            "silence-detected",
            "pause-detected",
            "boundary-detected",
            "turn-end",
            "mode-changed",
            "buffer-overflow",
        ]
    );
    let types = |name: &str| {
        declared
            .iter()
            .find(|s| s.name == name)
            .map(|s| s.param_types.clone())
    };
    assert_eq!(types("model-loaded"), Some(vec![ParamType::Text]));
    assert_eq!(types("model-unloaded"), Some(vec![]));
    assert_eq!(types("model-info"), Some(vec![ParamType::Structure]));
    assert_eq!(
        types("language-detected"),
        Some(vec![ParamType::Text, ParamType::Double])
    );
    assert_eq!(
        types("vad-speech-detected"),
        Some(vec![ParamType::Int64, ParamType::Flag])
    );
    assert_eq!(
        types("pause-detected"),
        Some(vec![ParamType::Int64, ParamType::Int64, ParamType::Double])
    );
    assert_eq!(types("turn-end"), Some(vec![ParamType::Int64; 3]));
    assert_eq!(types("mode-changed"), Some(vec![ParamType::Int32; 2]));
    assert_eq!(types("buffer-overflow"), Some(vec![ParamType::UInt64]));
}

fn kind(arg: &SignalArg) -> ParamType {
    match arg {
        SignalArg::Text(_) => ParamType::Text,
        SignalArg::Structure(_) => ParamType::Structure,
        SignalArg::Int64(_) => ParamType::Int64,
        SignalArg::Double(_) | SignalArg::Share(_) => ParamType::Double,
        SignalArg::Flag(_) => ParamType::Flag,
    }
}

fn conforms(signal: &Signal) {
    let kinds: Vec<ParamType> = signal.args.iter().map(kind).collect();
    assert_eq!(kinds, signal.id.param_types());
}

#[test]
fn pause_events_are_told_in_order() {
    let share = Fraction {
        numerator: 240,
        denominator: 500,
    };
    let events = vec![
        PauseEvent::SpeechStart { timestamp_ns: 1 },
        PauseEvent::SpeechEnd {
            timestamp_ns: 2,
            duration_ns: 3,
        },
        PauseEvent::PauseDetected {
            timestamp_ns: 4,
            duration_ns: 5,
            energy: double(0.25),
        },
        PauseEvent::BoundaryDetected {
            timestamp_ns: 6,
            confidence: share,
        },
        PauseEvent::TurnEnd {
            timestamp_ns: 7,
            speech_duration_ns: 8,
            silence_ns: 9,
        },
        PauseEvent::SilenceDetected {
            timestamp_ns: 10,
            duration_ns: u64::MAX,
        },
    ];
    let told = emit_pause_events(&events);
    for signal in &told {
        conforms(signal);
    }
    let int = SignalArg::Int64;
    let expected = vec![
        (SignalId::SpeechStart, vec![int(1)]),
        (SignalId::SpeechEnd, vec![int(2), int(3)]),
        (
            SignalId::PauseDetected,
            vec![int(4), int(5), SignalArg::Double(double(0.25))],
        ),
        (SignalId::BoundaryDetected, vec![int(6), SignalArg::Share(share)]),
        (SignalId::TurnEnd, vec![int(7), int(8), int(9)]),
        (SignalId::SilenceDetected, vec![int(10), int(-1)]),
    ];
    let told: Vec<(SignalId, Vec<SignalArg>)> =
        told.into_iter().map(|s| (s.id, s.args)).collect();
    assert_eq!(told, expected);
    assert_eq!(emit_pause_events(&vec![]), vec![]);
}

#[test]
fn a_word_is_told_as_a_structure() {
    let word = SttWord {
        text: "hi".to_string(),
        start_time: double(0.5),
        end_time: EndTime::AfterStart { milliseconds: 80 },
        confidence: double(1.0),
    };
    let signal = Signal::of_word(&word);
    conforms(&signal);
    assert_eq!(signal.id, SignalId::SegmentTranscribed);
    let structure = match &signal.args[0] {
        SignalArg::Structure(structure) => structure,
        _ => panic!("no structure"),
    };
    assert_eq!(structure.name, "segment");
    let names: Vec<&str> = structure.fields.iter().map(|f| f.name).collect();
    assert_eq!(names, vec!["text", "start-time", "end-time", "confidence"]);
    assert_eq!(structure.fields[0].value, FieldValue::Text("hi".to_string()));
    assert_eq!(structure.fields[1].value, FieldValue::Double(double(0.5)));
    assert_eq!(
        structure.fields[2].value,
        FieldValue::WordEnd {
            start_time: double(0.5),
            end_time: EndTime::AfterStart { milliseconds: 80 }
        }
    );
    assert_eq!(structure.fields[3].value, FieldValue::Double(double(1.0)));
}

#[test]
fn a_model_is_told_as_a_structure() {
    let info = ModelInfo {
        sample_rate: 24000,
        gpu_enabled: false,
        hf_repo: "kyutai/stt".to_string(),
        quantized: true,
    };
    let signal = Signal::of_model(&info);
    conforms(&signal);
    let structure = match &signal.args[0] {
        SignalArg::Structure(structure) => structure,
        _ => panic!("no structure"),
    };
    assert_eq!(structure.name, "model-info");
    let fields: Vec<(&str, &FieldValue)> =
        structure.fields.iter().map(|f| (f.name, &f.value)).collect();
    assert_eq!(
        fields,
        vec![
            ("type", &FieldValue::Text("kyutai-stt".to_string())),
            ("sample-rate", &FieldValue::Int32(24000)),
            ("gpu-enabled", &FieldValue::Flag(false)),
            ("hf-repo", &FieldValue::Text("kyutai/stt".to_string())),
            ("quantized", &FieldValue::Flag(true)),
        ]
    );
}

#[test]
fn verdicts_and_texts() {
    let signal = Signal::of_vad(80, true);
    conforms(&signal);
    assert_eq!(signal.id.name(), "vad-speech-detected");
    assert_eq!(signal.args, vec![SignalArg::Int64(80), SignalArg::Flag(true)]);
    let signal = Signal::of_text(SignalId::ModelLoadFailed, "no file".to_string());
    conforms(&signal);
    assert_eq!(signal.args, vec![SignalArg::Text("no file".to_string())]);
}
