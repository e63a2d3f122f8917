use kyutaistt::ieee::{Binary32, Binary64};
use kyutaistt::vad::{Fraction, PauseDetector, PauseDetectorConfig, PauseEvent};

const LOUD: f64 = 0.1;
const QUIET: f64 = 0.001;

fn double(x: f64) -> Binary64 {
    Binary64 { bits: x.to_bits() }
}

fn silence(n: usize) -> Vec<Binary32> {
    vec![Binary32 { bits: 0 }; n]
}

fn feed(detector: &mut PauseDetector, rms: f64) -> Vec<PauseEvent> {
    assert!(detector.can_process(1920, 24000));
    detector.process(&silence(1920), double(rms), 24000)
}

const MS: u64 = 1_000_000;

#[test]
fn default_configuration() {
    let config = PauseDetectorConfig::default();
    assert_eq!(config.energy_threshold, double(0.005));
    assert_eq!(config.min_pause_ms, 100);
    assert_eq!(config.min_boundary_ms, 200);
    assert_eq!(config.turn_silence_ms, 500);
    assert_eq!(config.min_turn_speech_ms, 200);
    assert_eq!(config.speech_hysteresis_ms, 60);
    assert_eq!(config.silence_hysteresis_ms, 150);
}

#[test]
fn a_turn_from_start_to_end() {
    let mut detector = PauseDetector::new(PauseDetectorConfig::default());
    assert_eq!(
        feed(&mut detector, LOUD),
        vec![PauseEvent::SpeechStart { timestamp_ns: 0 }]
    );
    for _ in 0..5 {
        assert_eq!(feed(&mut detector, LOUD), vec![]);
    }
    // 480 ms of speech; the first quiet frame is not enough.
    assert_eq!(feed(&mut detector, QUIET), vec![]);
    assert_eq!(
        feed(&mut detector, QUIET),
        vec![
            PauseEvent::SpeechEnd {
                timestamp_ns: 560 * MS,
                duration_ns: 560 * MS
            },
            PauseEvent::PauseDetected {
                timestamp_ns: 560 * MS,
                duration_ns: 160 * MS,
                energy: double(QUIET)
            },
        ]
    );
    for _ in 0..4 {
        assert_eq!(feed(&mut detector, QUIET), vec![]);
    }
    assert_eq!(
        feed(&mut detector, QUIET),
        vec![
            PauseEvent::TurnEnd {
                timestamp_ns: 960 * MS,
                speech_duration_ns: 480 * MS,
                silence_ns: 560 * MS
            },
            PauseEvent::SilenceDetected {
                timestamp_ns: 960 * MS,
                duration_ns: 560 * MS
            },
        ]
    );
    // Silence goes on, but the turn does not end again.
    assert_eq!(
        feed(&mut detector, QUIET),
        vec![PauseEvent::SilenceDetected {
            timestamp_ns: 1040 * MS,
            duration_ns: 640 * MS
        }]
    );
    assert_eq!(
        feed(&mut detector, LOUD),
        vec![PauseEvent::SpeechStart {
            timestamp_ns: 1120 * MS
        }]
    );
}

#[test]
fn a_boundary_comes_with_a_confidence() {
    let config = PauseDetectorConfig {
        silence_hysteresis_ms: 240,
        ..PauseDetectorConfig::default()
    };
    let mut detector = PauseDetector::new(config);
    for _ in 0..4 {
        feed(&mut detector, LOUD);
    }
    assert_eq!(feed(&mut detector, QUIET), vec![]);
    assert_eq!(feed(&mut detector, QUIET), vec![]);
    let events = feed(&mut detector, QUIET);
    assert_eq!(events.len(), 3);
    assert_eq!(
        events[2],
        PauseEvent::BoundaryDetected {
            timestamp_ns: 480 * MS,
            confidence: Fraction {
                numerator: 240,
                denominator: 500
            }
        }
    );
}

#[test]
fn confidence_is_one_where_silence_is_long_enough() {
    let config = PauseDetectorConfig {
        silence_hysteresis_ms: 560,
        min_turn_speech_ms: 10_000,
        ..PauseDetectorConfig::default()
    };
    let mut detector = PauseDetector::new(config);
    for _ in 0..3 {
        feed(&mut detector, LOUD);
    }
    let mut last = Vec::new();
    for _ in 0..7 {
        last = feed(&mut detector, QUIET);
    }
    assert_eq!(
        last,
        vec![
            PauseEvent::SpeechEnd {
                timestamp_ns: 720 * MS,
                duration_ns: 720 * MS
            },
            PauseEvent::PauseDetected {
                timestamp_ns: 720 * MS,
                duration_ns: 560 * MS,
                energy: double(QUIET)
            },
            PauseEvent::BoundaryDetected {
                timestamp_ns: 720 * MS,
                confidence: Fraction {
                    numerator: 1,
                    denominator: 1
                }
            },
            PauseEvent::SilenceDetected {
                timestamp_ns: 720 * MS,
                duration_ns: 560 * MS
            },
        ]
    );
}

#[test]
fn short_bursts_do_not_start_speech() {
    let config = PauseDetectorConfig {
        speech_hysteresis_ms: 100,
        ..PauseDetectorConfig::default()
    };
    let mut detector = PauseDetector::new(config);
    for _ in 0..3 {
        assert_eq!(feed(&mut detector, LOUD), vec![]);
        assert_eq!(feed(&mut detector, QUIET), vec![]);
    }
    feed(&mut detector, LOUD);
    assert_eq!(
        feed(&mut detector, LOUD),
        vec![PauseEvent::SpeechStart {
            timestamp_ns: 560 * MS
        }]
    );
}

#[test]
fn energy_at_the_threshold_is_silence() {
    let mut detector = PauseDetector::new(PauseDetectorConfig::default());
    assert_eq!(feed(&mut detector, 0.005), vec![]);
    assert_eq!(feed(&mut detector, f64::NAN), vec![]);
    assert_eq!(
        feed(&mut detector, 0.0050000001),
        vec![PauseEvent::SpeechStart {
            timestamp_ns: 160 * MS
        }]
    );
}

#[test]
fn a_frame_without_samples_has_no_energy() {
    let config = PauseDetectorConfig {
        speech_hysteresis_ms: 0,
        ..PauseDetectorConfig::default()
    };
    let mut detector = PauseDetector::new(config);
    assert!(detector.can_process(0, 24000));
    assert_eq!(detector.process(&[], double(LOUD), 24000), vec![]);
}

#[test]
fn silence_is_dated_where_it_starts() {
    let mut detector = PauseDetector::new(PauseDetectorConfig::default());
    for _ in 0..3 {
        feed(&mut detector, LOUD);
    }
    for _ in 0..6 {
        feed(&mut detector, 0.0);
    }
    // Speech lasted until 240 ms.
    assert_eq!(
        feed(&mut detector, 0.0),
        vec![
            PauseEvent::TurnEnd {
                timestamp_ns: 720 * MS,
                speech_duration_ns: 240 * MS,
                silence_ns: 560 * MS
            },
            PauseEvent::SilenceDetected {
                timestamp_ns: 720 * MS,
                duration_ns: 560 * MS
            },
        ]
    );
}

#[test]
fn a_long_silent_frame_ends_speech() {
    let mut detector = PauseDetector::new(PauseDetectorConfig::default());
    feed(&mut detector, LOUD);
    assert!(detector.can_process(3840, 24000));
    assert_eq!(
        detector.process(&silence(3840), double(0.0), 24000),
        vec![
            PauseEvent::SpeechEnd {
                timestamp_ns: 80 * MS,
                duration_ns: 80 * MS
            },
            PauseEvent::PauseDetected {
                timestamp_ns: 80 * MS,
                duration_ns: 160 * MS,
                energy: double(0.0)
            },
        ]
    );
}

#[test]
fn without_debouncing_frames_report_what_they_hold() {
    let config = PauseDetectorConfig {
        speech_hysteresis_ms: 0,
        silence_hysteresis_ms: 0,
        turn_silence_ms: 0,
        min_turn_speech_ms: 0,
        ..PauseDetectorConfig::default()
    };
    let mut detector = PauseDetector::new(PauseDetectorConfig {
        turn_silence_ms: 500,
        ..config
    });
    assert_eq!(feed(&mut detector, 0.0), vec![]);
    assert_eq!(
        feed(&mut detector, LOUD),
        vec![PauseEvent::SpeechStart {
            timestamp_ns: 80 * MS
        }]
    );
    assert_eq!(feed(&mut detector, LOUD), vec![]);
    assert_eq!(
        feed(&mut detector, QUIET),
        vec![PauseEvent::SpeechEnd {
            timestamp_ns: 240 * MS,
            duration_ns: 160 * MS
        }]
    );
    // A frame with speech reports no silence.
    let mut detector = PauseDetector::new(PauseDetectorConfig {
        speech_hysteresis_ms: 100,
        ..config
    });
    assert_eq!(feed(&mut detector, LOUD), vec![]);
}

#[test]
fn a_turn_that_needs_no_speech_ends_once() {
    let config = PauseDetectorConfig {
        min_turn_speech_ms: 0,
        ..PauseDetectorConfig::default()
    };
    let mut detector = PauseDetector::new(config);
    let mut turns = 0;
    for _ in 0..30 {
        for event in feed(&mut detector, QUIET) {
            if let PauseEvent::TurnEnd { .. } = event {
                turns += 1;
            }
        }
    }
    assert_eq!(turns, 1);
    feed(&mut detector, LOUD);
    for _ in 0..30 {
        for event in feed(&mut detector, QUIET) {
            if let PauseEvent::TurnEnd { .. } = event {
                turns += 1;
            }
        }
    }
    assert_eq!(turns, 2);
}

#[test]
fn frames_that_cannot_be_taken_in_are_told_apart() {
    let mut detector = PauseDetector::new(PauseDetectorConfig::default());
    assert!(!detector.can_process(1920, 0));
    // A length that 64 bits do not hold.
    assert!(!detector.can_process(18_446_744_074, 24000));
    assert!(detector.can_process(18_446_744_073, 24000));
    // A position that 64 bits do not hold.
    assert!(detector.can_process(18_446_744_073, 1));
    detector.process(&silence(1920), double(QUIET), 24000);
    assert!(detector.can_process(18_446_744_073, 1));
    detector.process(&silence(24000), double(QUIET), 24000);
    assert!(!detector.can_process(18_446_744_073, 1));
}

#[test]
fn starts_and_ends_take_turns() {
    let mut detector = PauseDetector::new(PauseDetectorConfig::default());
    let mut active = false;
    for i in 0..400u32 {
        let rms = if (i / 7 + i / 11) % 2 == 0 { LOUD } else { QUIET };
        for event in feed(&mut detector, rms) {
            match event {
                PauseEvent::SpeechStart { timestamp_ns } => {
                    assert!(!active);
                    assert_eq!(timestamp_ns, i as u64 * 80 * MS);
                    active = true;
                }
                PauseEvent::SpeechEnd { .. } => {
                    assert!(active);
                    active = false;
                }
                _ => assert!(!active),
            }
        }
    }
}
