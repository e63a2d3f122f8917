use kyutaistt::ieee::{Binary32, Binary64};
use kyutaistt::properties::{
    properties, Properties, PropertyId, PropertyKind, PropertyValue,
};
use kyutaistt::vad::PauseDetectorConfig;

fn single(x: f32) -> Binary32 {
    Binary32 { bits: x.to_bits() }
}

fn double(x: f64) -> Binary64 {
    Binary64 { bits: x.to_bits() }
}

fn text(s: &str) -> PropertyValue {
    PropertyValue::Text(Some(s.to_string()))
}

#[test]
fn nineteen_properties_are_declared() {
    let declared = properties();
    let names: Vec<&str> = declared.iter().map(|p| p.name).collect();
    assert_eq!(
        names,
        vec![
            "model",
            "model-path",
            "language",
            "use-cpu",
            "temperature",
            "initial-prompt",
            "detect-language",
            "use-unix-timestamps",
            "enable-vad",
            "vad-threshold",
            "no-speech-threshold",
            "enable-pause-detection",
            "pause-energy-threshold",
            "pause-min-duration",
            "boundary-min-duration",
            "turn-silence-threshold",
            "min-turn-speech-duration",
            "signal-speech-hysteresis",
            "signal-silence-hysteresis",
        ]
    );
    assert_eq!(declared[0].nick, "Model");
    assert_eq!(declared[0].blurb, "HuggingFace repo ID or path to model");
    assert_eq!(
        declared[4].kind,
        PropertyKind::Float {
            minimum: single(0.0),
            maximum: single(1.0),
            default: single(0.0)
        }
    );
    assert_eq!(declared[5].kind, PropertyKind::Text { default: None });
    assert_eq!(
        declared[12].kind,
        PropertyKind::Double {
            minimum: double(0.0),
            maximum: double(1.0),
            default: double(0.005)
        }
    );
    assert_eq!(
        declared[15].kind,
        PropertyKind::UInt {
            minimum: 100,
            maximum: 5000,
            default: 500
        }
    );
    assert_eq!(
        declared[18].kind,
        PropertyKind::UInt {
            minimum: 0,
            maximum: 1000,
            default: 150
        }
    );
}

#[test]
fn defaults() {
    let props = Properties::default();
    assert_eq!(props.hf_repo, "kyutai/stt-1b-en_fr-candle");
    assert_eq!(props.model_path, "model.safetensors");
    assert_eq!(props.language, "auto");
    assert!(!props.use_cpu);
    assert_eq!(props.temperature, single(0.0));
    assert_eq!(props.initial_prompt, None);
    assert!(props.detect_language);
    assert!(!props.use_unix_timestamps);
    assert!(props.enable_vad);
    assert_eq!(props.vad_threshold, single(0.7));
    assert_eq!(props.no_speech_threshold, single(0.6));
    assert!(props.enable_pause_detection);
    assert_eq!(props.pause_energy_threshold, double(0.005));
    assert_eq!(props.pause_min_duration, 100);
    assert_eq!(props.boundary_min_duration, 200);
    assert_eq!(props.turn_silence_threshold, 500);
    assert_eq!(props.min_turn_speech_duration, 200);
    assert_eq!(props.signal_speech_hysteresis, 60);
    assert_eq!(props.signal_silence_hysteresis, 150);
    assert_eq!(
        props.clone_for_init().pause_config(),
        PauseDetectorConfig::default()
    );
}

#[test]
fn every_property_holds_what_it_is_set_to() {
    for declared in properties() {
        let (value, expected) = match declared.kind {
            PropertyKind::Text { .. } => (text("changed"), text("changed")),
            PropertyKind::Flag { default } => (
                PropertyValue::Flag(!default),
                PropertyValue::Flag(!default),
            ),
            PropertyKind::Float { .. } => (
                PropertyValue::Float(single(0.25)),
                PropertyValue::Float(single(0.25)),
            ),
            PropertyKind::Double { .. } => (
                PropertyValue::Double(double(0.25)),
                PropertyValue::Double(double(0.25)),
            ),
            PropertyKind::UInt { .. } => (PropertyValue::UInt(777), PropertyValue::UInt(777)),
        };
        let untouched = Properties::default();
        let mut props = Properties::default();
        props.set_property(declared.name, value);
        for other in properties() {
            if other.name == declared.name {
                assert_eq!(props.property(other.name), expected);
            } else {
                assert_eq!(props.property(other.name), untouched.property(other.name));
            }
        }
    }
}

#[test]
fn an_unknown_name_changes_nothing() {
    let mut props = Properties::default();
    props.set_property("no-such-property", PropertyValue::Flag(true));
    assert_eq!(props, Properties::default());
    assert_eq!(PropertyId::from_name("no-such-property"), None);
    assert_eq!(PropertyId::from_name("model"), Some(PropertyId::HfRepo));
}

#[test]
fn the_prompt_can_be_taken_away() {
    let mut props = Properties::default();
    props.set_property("initial-prompt", text("context"));
    assert_eq!(props.property("initial-prompt"), text("context"));
    props.set_property("initial-prompt", PropertyValue::Flag(true));
    assert_eq!(props.property("initial-prompt"), PropertyValue::Text(None));
    props.set_property("initial-prompt", text("again"));
    props.set_property("initial-prompt", PropertyValue::Text(None));
    assert_eq!(props.initial_prompt, None);
}

#[test]
fn a_snapshot_holds_what_loading_needs() {
    let mut props = Properties::default();
    props.set_property("model", text("other/repo"));
    props.set_property("use-cpu", PropertyValue::Flag(true));
    props.set_property("turn-silence-threshold", PropertyValue::UInt(900));
    props.set_property("pause-energy-threshold", PropertyValue::Double(double(0.02)));
    let snapshot = props.clone_for_init();
    assert_eq!(snapshot.hf_repo, "other/repo");
    assert_eq!(snapshot.model_path, "model.safetensors");
    assert!(snapshot.use_cpu);
    assert_eq!(snapshot.temperature, props.temperature);
    assert!(snapshot.enable_vad);
    let pauses = snapshot.pause_config();
    assert_eq!(pauses.turn_silence_ms, 900);
    assert_eq!(pauses.energy_threshold, double(0.02));
    assert_eq!(pauses.min_pause_ms, 100);
    assert_eq!(pauses.min_boundary_ms, 200);
    assert_eq!(pauses.min_turn_speech_ms, 200);
    assert_eq!(pauses.speech_hysteresis_ms, 60);
    assert_eq!(pauses.silence_hysteresis_ms, 150);
}
