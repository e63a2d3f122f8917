use kyutaistt::control::FlowError;
use kyutaistt::element::{
    word_signals, CapsStep, ChangeStep, KyutaiStt, StateChange, TransformRun, Turn, Work,
};
use kyutaistt::ieee::{Binary32, Binary64};
use kyutaistt::model::{AsrMsg, EndTime, SttWord};
use kyutaistt::properties::{Properties, PropertyValue};
use kyutaistt::setup::{Config, DeviceKind, Fetched, ModelInfo, SttConfig};
use kyutaistt::signals::{Signal, SignalArg, SignalId};
use kyutaistt::transcript::{Moment, TimedWord};

fn single(x: f32) -> Binary32 {
    Binary32 { bits: x.to_bits() }
}

fn double(x: f64) -> Binary64 {
    Binary64 { bits: x.to_bits() }
}

fn info() -> ModelInfo {
    ModelInfo {
        sample_rate: 24000,
        gpu_enabled: false,
        hf_repo: "kyutai/stt-1b-en_fr-candle".to_string(),
        quantized: false,
    }
}

fn fetched() -> Fetched {
    Fetched {
        config: Config {
            mimi_name: "mimi".to_string(),
            tokenizer_name: "tokenizer".to_string(),
            card: 2048,
            text_card: 8000,
            dim: 2048,
            n_q: 32,
            context: 750,
            max_period: double(100000.0),
            num_heads: 16,
            num_layers: 16,
            causal: true,
            stt_config: SttConfig {
                audio_silence_prefix_samples: double(0.0),
                audio_delay_samples: double(0.0),
                audio_delay_tokens: double(0.0),
            },
        },
        model_file: Some("model.safetensors".to_string()),
        device: DeviceKind::Cpu,
    }
}

fn loaded(props: &Properties, enable_vad: bool) -> KyutaiStt {
    let mut element = KyutaiStt::default();
    let mut snapshot = props.clone_for_init();
    snapshot.enable_vad = enable_vad;
    element.load_model(&snapshot, Ok(fetched())).unwrap();
    element
}

fn quiet_props() -> Properties {
    let mut props = Properties::default();
    props.set_property("enable-pause-detection", PropertyValue::Flag(false));
    props
}

fn bytes(samples: &[f32]) -> Vec<u8> {
    samples.iter().flat_map(|s| s.to_le_bytes()).collect()
}

fn begin(element: &mut KyutaiStt, data: &[u8], format: &str, props: &Properties) -> (TransformRun, Turn) {
    match element.transform(data, Some(format), props, double(1.0)) {
        Ok(begun) => begun,
        Err(_) => panic!("refused"),
    }
}

fn heard(text: &str, start: f64) -> AsrMsg {
    AsrMsg::Word {
        text: Some(text.to_string()),
        start_time: double(start),
    }
}

fn ended(stop: f64) -> AsrMsg {
    AsrMsg::EndWord {
        stop_time: double(stop),
    }
}

fn spoken(text: &str, start: f64, end: f64) -> SttWord {
    SttWord {
        text: text.to_string(),
        start_time: double(start),
        end_time: EndTime::At(double(end)),
        confidence: double(1.0),
    }
}

fn unloaded() -> Vec<Signal> {
    vec![Signal {
        id: SignalId::ModelUnloaded,
        args: vec![],
    }]
}

#[test]
fn becoming_ready_takes_a_model() {
    let props = Properties::default();
    let mut element = KyutaiStt::default();
    assert!(!element.is_loaded());
    assert_eq!(
        element.change_state(StateChange::NullToReady, &props),
        ChangeStep::Load(props.clone_for_init())
    );
    let told = element
        .load_model(&props.clone_for_init(), Ok(fetched()))
        .unwrap();
    assert!(element.is_loaded());
    assert_eq!(told.len(), 2);
    assert_eq!(
        told[0],
        Signal::of_text(SignalId::ModelLoaded, "kyutai/stt-1b-en_fr-candle".to_string())
    );
    assert_eq!(told[1], Signal::of_model(&info()));
    assert_eq!(
        element.change_state(StateChange::Other, &props),
        ChangeStep::Proceed(vec![])
    );
    assert!(element.is_loaded());
    assert_eq!(
        element.change_state(StateChange::ReadyToNull, &props),
        ChangeStep::Proceed(unloaded())
    );
    assert!(!element.is_loaded());
}

#[test]
fn a_model_that_cannot_be_loaded_fails_the_change() {
    let props = Properties::default();
    let mut element = KyutaiStt::default();
    let told = element.load_model(&props.clone_for_init(), Err("no file".to_string()));
    assert_eq!(
        told,
        Err(vec![Signal::of_text(
            SignalId::ModelLoadFailed,
            "no file".to_string()
        )])
    );
    assert!(!element.is_loaded());
}

#[test]
fn without_a_model_buffers_are_refused() {
    let props = Properties::default();
    let mut element = KyutaiStt::default();
    assert!(matches!(
        element.transform(&[0, 0, 0, 0], None, &props, double(1.0)),
        Err(FlowError::NotNegotiated)
    ));
    assert_eq!(element.set_caps(48000, 2), CapsStep::Ignored);
    assert!(element.can_flush());
    assert!(element.handle_eos().is_none());
}

#[test]
fn caps_decide_on_resampling() {
    let props = quiet_props();
    let mut element = loaded(&props, false);
    assert_eq!(element.set_caps(24000, 1), CapsStep::Bypass);
    assert_eq!(
        element.set_caps(48000, 1),
        CapsStep::Resample {
            from_rate: 48000,
            to_rate: 24000,
            chunk: 1920,
            sub_chunks: 1,
            channels: 1
        }
    );
    let (_, turn) = begin(&mut element, &bytes(&[0.5]), "F32LE", &props);
    assert_eq!(
        turn.work,
        Work::Resample {
            mono: vec![single(0.5)]
        }
    );
    assert_eq!(element.set_caps(24000, 1), CapsStep::Bypass);
    let (_, turn) = begin(&mut element, &bytes(&[0.5]), "F32LE", &props);
    assert_eq!(turn.work, Work::Deliver { words: vec![] });
}

#[test]
fn stereo_is_averaged_and_then_resampled() {
    let props = quiet_props();
    let mut element = loaded(&props, false);
    element.set_caps(48000, 2);
    let data = [0x00, 0x40, 0x00, 0xc0, 0x00, 0x20, 0x00, 0x20];
    let (mut run, turn) = begin(&mut element, &data, "S16LE", &props);
    assert_eq!(
        turn.work,
        Work::Downmix {
            frames: vec![
                (single(0.5), single(-0.5)),
                (single(0.25), single(0.25))
            ]
        }
    );
    let mono = vec![single(0.0), single(0.25)];
    let turn = element.downmixed(&mut run, mono.clone(), &props);
    assert_eq!(turn.work, Work::Resample { mono });
    let turn = element.resampled(&mut run, Some(vec![vec![single(0.125)]]), &props);
    assert_eq!(turn.work, Work::Deliver { words: vec![] });
}

#[test]
fn samples_that_are_not_resampled_do_not_reach_the_model() {
    let props = quiet_props();
    let mut element = loaded(&props, false);
    element.set_caps(48000, 1);
    let samples = vec![0.75f32; 1920];
    let (mut run, _) = begin(&mut element, &bytes(&samples), "F32LE", &props);
    let turn = element.resampled(&mut run, None, &props);
    assert_eq!(turn.work, Work::Deliver { words: vec![] });
    // A resampler that gives no channel gives no samples.
    let (mut run, _) = begin(&mut element, &bytes(&samples), "F32LE", &props);
    let turn = element.resampled(&mut run, Some(vec![]), &props);
    assert_eq!(turn.work, Work::Deliver { words: vec![] });
    // Nothing of that was kept.
    let (mut run, _) = begin(&mut element, &bytes(&samples), "F32LE", &props);
    let turn = element.resampled(&mut run, Some(vec![vec![single(0.5); 1920]]), &props);
    assert_eq!(
        turn.work,
        Work::Infer {
            input: vec![single(0.5); 1920]
        }
    );
    let turn = element.inferred(&mut run, &vec![]);
    assert_eq!(turn.work, Work::Deliver { words: vec![] });
}

#[test]
fn samples_wait_until_they_fill_a_chunk() {
    let props = quiet_props();
    let mut element = loaded(&props, false);
    let (_, turn) = begin(&mut element, &bytes(&vec![0.1f32; 1000]), "F32LE", &props);
    assert_eq!(turn.work, Work::Deliver { words: vec![] });
    let (mut run, turn) = begin(&mut element, &bytes(&vec![0.2f32; 3000]), "F32LE", &props);
    let mut first = vec![single(0.1); 1000];
    first.extend(vec![single(0.2); 920]);
    assert_eq!(turn.work, Work::Infer { input: first });
    assert!(element.can_infer(&run, &vec![heard("a", 0.0)]));
    let turn = element.inferred(&mut run, &vec![heard("a", 0.0)]);
    assert_eq!(
        turn.work,
        Work::Infer {
            input: vec![single(0.2); 1920]
        }
    );
    let turn = element.inferred(&mut run, &vec![ended(0.5), heard("b", 0.75), ended(1.0)]);
    assert_eq!(turn.signals, vec![]);
    assert_eq!(
        turn.work,
        Work::Deliver {
            words: vec![spoken("a", 0.0, 0.5), spoken("b", 0.75, 1.0)]
        }
    );
}

#[test]
fn the_model_failing_costs_only_its_chunk() {
    let props = quiet_props();
    let mut element = loaded(&props, false);
    let (mut run, _) = begin(&mut element, &bytes(&vec![0.0f32; 3 * 1920]), "F32LE", &props);
    element.inferred(&mut run, &vec![heard("kept", 0.0), ended(0.5)]);
    assert!(element.can_fail());
    let turn = element.failed(&mut run);
    assert_eq!(turn.signals, vec![]);
    let turn = element.inferred(&mut run, &vec![heard("also", 1.0), ended(1.5)]);
    assert_eq!(
        turn.work,
        Work::Deliver {
            words: vec![spoken("kept", 0.0, 0.5), spoken("also", 1.0, 1.5)]
        }
    );
}

fn step(third: f32) -> AsrMsg {
    let row = |p: f32| vec![single(p)];
    AsrMsg::Step {
        prs: vec![row(0.0), row(0.0), row(third), row(0.0)],
    }
}

#[test]
fn the_third_horizon_decides_on_voice() {
    let props = quiet_props();
    let mut element = loaded(&props, true);
    let (mut run, _) = begin(&mut element, &bytes(&vec![0.0f32; 3 * 1920]), "F32LE", &props);
    let turn = element.inferred(&mut run, &vec![step(0.5), step(0.7), step(0.6)]);
    assert_eq!(
        turn.signals,
        vec![
            Signal::of_vad(0, true),
            Signal::of_vad(0, false),
            Signal::of_vad(0, false)
        ]
    );
    let turn = element.inferred(&mut run, &vec![step(f32::NAN)]);
    assert_eq!(turn.signals, vec![Signal::of_vad(80_000_000, false)]);
    let short = AsrMsg::Step {
        prs: vec![vec![single(1.0)], vec![single(1.0)]],
    };
    let turn = element.inferred(&mut run, &vec![short]);
    assert_eq!(turn.signals, vec![Signal::of_vad(160_000_000, true)]);
}

#[test]
fn chunks_are_measured_before_they_are_inferred() {
    let props = Properties::default();
    let mut element = loaded(&props, false);
    let (mut run, turn) = begin(&mut element, &bytes(&vec![0.5f32; 1920]), "F32LE", &props);
    assert_eq!(
        turn.work,
        Work::Measure {
            chunk: vec![single(0.5); 1920]
        }
    );
    assert!(element.can_measure(&run));
    let turn = element.measured(&mut run, double(0.5));
    assert_eq!(turn.signals.len(), 1);
    assert_eq!(turn.signals[0].id, SignalId::SpeechStart);
    assert_eq!(turn.signals[0].args, vec![SignalArg::Int64(0)]);
    assert_eq!(
        turn.work,
        Work::Infer {
            input: vec![single(0.5); 1920]
        }
    );
    let turn = element.inferred(&mut run, &vec![]);
    assert_eq!(turn.work, Work::Deliver { words: vec![] });
}

#[test]
fn messages_that_cannot_be_taken_in_are_told_apart() {
    let props = quiet_props();
    let mut element = loaded(&props, true);
    let (run, _) = begin(&mut element, &bytes(&vec![0.0f32; 1920]), "F32LE", &props);
    let empty = AsrMsg::Step { prs: vec![vec![]] };
    assert!(!element.can_infer(&run, &vec![empty]));
    assert!(element.can_infer(&run, &vec![step(0.5)]));
}

fn timed(text: &str) -> TimedWord {
    TimedWord {
        text: text.to_string(),
        start_time: serde_json::Number::from_f64(0.0),
        end_time: serde_json::Number::from_f64(0.5),
        confidence: serde_json::Number::from_f64(1.0),
        start_ms: double(0.0),
        end_ms: double(500.0),
        start_sample: double(0.0),
        end_sample: double(12000.0),
    }
}

#[test]
fn words_are_written_out_and_told() {
    let props = quiet_props();
    let mut element = loaded(&props, false);
    assert!(element.can_count(1));
    assert_eq!(element.build_json_output(&vec![]), r#"{"segments":[]}"#);
    let json = element.build_json_output(&vec![timed("hi")]);
    let expected = [
        r#"{"segments":[{"confidence":1.0,"end_time":0.5,"language":"auto","start_time":0.0,"text":"hi","#,
        r#""tokens":[{"end_ms":500,"end_sample":12000,"prob":1.0,"start_ms":0,"start_sample":0,"text":"hi"}]}]}"#,
    ]
    .concat();
    assert_eq!(json, expected);
    let words = vec![spoken("hi", 0.0, 0.5), spoken("ho", 1.0, 1.5)];
    assert_eq!(
        word_signals(&words),
        vec![Signal::of_word(&words[0]), Signal::of_word(&words[1])]
    );
}

#[test]
fn the_end_of_the_stream_tells_the_last_words() {
    let props = quiet_props();
    let mut element = loaded(&props, true);
    let (mut run, _) = begin(&mut element, &bytes(&vec![0.0f32; 1920]), "F32LE", &props);
    element.inferred(&mut run, &vec![heard("first", 0.0)]);

    assert!(element.can_flush());
    let mut flush = element.handle_eos().unwrap();
    // A second of silence.
    assert_eq!(flush.remaining(), 13);
    let messages = vec![step(0.5), heard("second", 0.5)];
    assert!(element.can_absorb(&messages));
    element.flushed(&mut flush, &messages);
    while flush.next_input().is_some() {
        element.flushed(&mut flush, &vec![]);
    }
    let last = SttWord {
        text: "second".to_string(),
        start_time: double(0.5),
        end_time: EndTime::AfterStart { milliseconds: 80 },
        confidence: double(1.0),
    };
    assert_eq!(
        element.end_of_stream(flush),
        vec![
            Signal::of_word(&spoken("first", 0.0, 0.5)),
            Signal::of_word(&last)
        ]
    );
}

#[test]
fn the_end_of_the_stream_feeds_what_is_left() {
    let props = quiet_props();
    let mut element = loaded(&props, false);
    let (_, turn) = begin(&mut element, &bytes(&vec![0.5f32; 1000]), "F32LE", &props);
    assert_eq!(turn.work, Work::Deliver { words: vec![] });
    let mut flush = element.handle_eos().unwrap();
    let mut fed: Vec<Binary32> = Vec::new();
    while let Some(input) = flush.next_input() {
        fed.extend(input.iter().copied());
        element.flushed(&mut flush, &vec![]);
    }
    let mut whole = vec![single(0.5); 1000];
    whole.extend(vec![single(0.0); 24000]);
    assert_eq!(fed, whole);
    assert_eq!(element.end_of_stream(flush), vec![]);
    // Nothing is left over.
    let (_, turn) = begin(&mut element, &bytes(&vec![0.5f32; 1919]), "F32LE", &props);
    assert_eq!(turn.work, Work::Deliver { words: vec![] });
}

#[test]
fn unix_times_count_from_when_the_stream_began() {
    let mut props = quiet_props();
    let mut element = loaded(&props, false);
    for now in [1_700_000_000.5, 1_700_000_009.0] {
        assert!(element.transform(&[], None, &props, double(now)).is_ok());
    }
    let last = SttWord {
        text: "last".to_string(),
        start_time: double(2.0),
        end_time: EndTime::AfterStart { milliseconds: 80 },
        confidence: double(1.0),
    };
    let words = vec![spoken("first", 0.25, 0.5), last];
    let stamps = element.stamps(&words, &props);
    assert_eq!(stamps.len(), 2);
    let moment = |since, time, later_ms| Moment {
        since,
        time: double(time),
        later_ms,
    };
    assert_eq!(stamps[0].start, moment(None, 0.25, 0));
    assert_eq!(stamps[1].end, moment(None, 2.0, 80));

    props.set_property("use-unix-timestamps", PropertyValue::Flag(true));
    let stamps = element.stamps(&words, &props);
    let began = Some(double(1_700_000_000.5));
    assert_eq!(stamps[0].text, "first");
    assert_eq!(stamps[0].start, moment(began, 0.25, 0));
    assert_eq!(stamps[0].end, moment(began, 0.5, 0));
    assert_eq!(stamps[1].start, moment(began, 2.0, 0));
    assert_eq!(stamps[1].end, moment(began, 2.0, 80));
    assert_eq!(stamps[1].confidence, double(1.0));
}

#[test]
fn no_sample_is_lost_however_the_stream_is_cut() {
    let props = quiet_props();
    let samples: Vec<f32> = (0..20_000).map(|i| i as f32).collect();
    let mut element = loaded(&props, false);
    let mut fed: Vec<Binary32> = Vec::new();
    let mut at = 0;
    let mut size = 1;
    while at < samples.len() {
        let end = samples.len().min(at + size);
        let (mut run, mut turn) = begin(&mut element, &bytes(&samples[at..end]), "F32LE", &props);
        while let Work::Infer { input } = turn.work {
            assert_eq!(input.len(), 1920);
            fed.extend(input);
            turn = element.inferred(&mut run, &vec![]);
        }
        at = end;
        size = size * 3 + 1;
    }
    assert_eq!(fed.len(), 20_000 / 1920 * 1920);
    for (i, sample) in fed.iter().enumerate() {
        assert_eq!(*sample, single(i as f32));
    }
}
