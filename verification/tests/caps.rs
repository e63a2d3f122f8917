use kyutaistt::caps::{
    metadata, pad_templates, request_new_pad, transform_caps, transform_size, CapsId, Options,
    PadDirection, PadPresence,
};

#[test]
fn audio_caps() {
    let caps = CapsId::Audio.caps();
    assert_eq!(caps.media_type, "audio/x-raw");
    assert_eq!(
        caps.fields,
        vec![
            ("format", Options::Texts(vec!["F32LE", "S16LE"])),
            (
                "rate",
                Options::Integers(vec![8000, 16000, 22050, 24000, 44100, 48000])
            ),
            ("channels", Options::Integers(vec![1, 2])),
        ]
    );
}

#[test]
fn transcription_and_control_caps() {
    let caps = CapsId::Transcription.caps();
    assert_eq!(caps.media_type, "application/x-json-transcription");
    assert_eq!(
        caps.fields,
        vec![("format", Options::Texts(vec!["whisper"]))]
    );
    let caps = CapsId::Control.caps();
    assert_eq!(caps.media_type, "application/x-whisper-control");
    assert!(caps.fields.is_empty());
}

#[test]
fn three_pads() {
    let pads = pad_templates();
    let names: Vec<&str> = pads.iter().map(|pad| pad.name).collect();
    assert_eq!(names, vec!["sink", "src", "ctrl"]);
    assert_eq!(pads[0].direction, PadDirection::Sink);
    assert_eq!(pads[1].direction, PadDirection::Src);
    assert_eq!(pads[2].direction, PadDirection::Sink);
    assert_eq!(pads[2].presence, PadPresence::Request);
    for pad in &pads {
        assert_eq!(request_new_pad(pad.name), pad.presence == PadPresence::Request);
    }
    assert!(!request_new_pad("other"));
}

#[test]
fn caps_cross_the_element() {
    assert_eq!(transform_caps(PadDirection::Sink), Some(CapsId::Transcription));
    assert_eq!(transform_caps(PadDirection::Src), Some(CapsId::Audio));
    assert_eq!(transform_caps(PadDirection::Unknown), None);
    assert_eq!(transform_size(), Some(65536));
}

#[test]
fn the_element_is_described() {
    let described = metadata();
    assert_eq!(described.long_name, "Kyutai STT Transcriber");
    assert_eq!(described.classification, "Audio/Text/Filter");
    assert_eq!(
        described.description,
        "Speech-to-text using Kyutai STT models (drop-in replacement for whispertranscribe)"
    );
    assert_eq!(described.author, "Kyutai");
}
