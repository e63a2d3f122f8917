//! Pauses and turns, from the energy of the signal.
//!
//! The detector supplements the model's own voice-activity head with
//! signal-level heuristics: it debounces speech and silence, and reports pauses,
//! boundaries and the ends of turns.
use crate::ieee::{Binary32, Binary64};
use vstd::prelude::*;

verus! {

/// Configuration for energy-based pause and turn-taking detection.
#[derive(Clone, Copy, Debug, PartialEq, Eq, Structural)]
pub struct PauseDetectorConfig {
    /// A frame holds speech when its energy exceeds this.
    pub energy_threshold: Binary64,
    /// Silence of this length is a pause.
    pub min_pause_ms: u64,
    /// Silence of this length is a boundary.
    pub min_boundary_ms: u64,
    /// Silence of this length can end a turn.
    pub turn_silence_ms: u64,
    /// A turn holds at least this much speech.
    pub min_turn_speech_ms: u64,
    /// Unbroken speech before speech counts as started.
    pub speech_hysteresis_ms: u64,
    /// Unbroken silence before speech counts as ended.
    pub silence_hysteresis_ms: u64,
}

impl PauseDetectorConfig {
    /// The default configuration; the threshold encodes 0.005.
    pub open spec fn standard() -> PauseDetectorConfig {
        PauseDetectorConfig {
            energy_threshold: Binary64 { bits: 0x3f74_7ae1_47ae_147b },
            min_pause_ms: 100,
            min_boundary_ms: 200,
            turn_silence_ms: 500,
            min_turn_speech_ms: 200,
            speech_hysteresis_ms: 60,
            silence_hysteresis_ms: 150,
        }
    }
}

impl Default for PauseDetectorConfig {
    fn default() -> (config: Self)
        ensures
            config == PauseDetectorConfig::standard(),
    {
        PauseDetectorConfig {
            energy_threshold: Binary64 { bits: 0x3f74_7ae1_47ae_147b },
            min_pause_ms: 100,
            min_boundary_ms: 200,
            turn_silence_ms: 500,
            min_turn_speech_ms: 200,
            speech_hysteresis_ms: 60,
            silence_hysteresis_ms: 150,
        }
    }
}

/// A fraction between zero and one.
#[derive(Clone, Copy, Debug, PartialEq, Eq, Structural)]
pub struct Fraction {
    /// At most the denominator.
    pub numerator: u64,
    /// Not zero.
    pub denominator: u64,
}

impl Fraction {
    /// `part / whole`, or one where the part reaches the whole.
    pub open spec fn share(part: int, whole: int) -> Fraction {
        if part < whole {
            Fraction { numerator: part as u64, denominator: whole as u64 }
        } else {
            Fraction { numerator: 1, denominator: 1 }
        }
    }

    /// Whether this is a number from zero to one.
    pub open spec fn wf(self) -> bool {
        self.denominator > 0 && self.numerator <= self.denominator
    }

    fn capped(part: u64, whole: u64) -> (fraction: Fraction)
        ensures
            fraction == Fraction::share(part as int, whole as int),
            fraction.wf(),
    {
        if part < whole {
            Fraction { numerator: part, denominator: whole }
        } else {
            Fraction { numerator: 1, denominator: 1 }
        }
    }
}

/// Events emitted by the pause/turn detector. Each carries the position at which
/// the frame that caused it starts.
#[derive(Clone, Copy, Debug, PartialEq, Eq, Structural)]
pub enum PauseEvent {
    /// Speech began.
    SpeechStart { timestamp_ns: u64 },
    /// Speech ended, after this long.
    SpeechEnd { timestamp_ns: u64, duration_ns: u64 },
    /// The silence that ended speech is a pause.
    PauseDetected { timestamp_ns: u64, duration_ns: u64, energy: Binary64 },
    /// The silence that ended speech is a boundary.
    BoundaryDetected { timestamp_ns: u64, confidence: Fraction },
    /// A turn ended.
    TurnEnd { timestamp_ns: u64, speech_duration_ns: u64, silence_ns: u64 },
    /// Silence goes on.
    SilenceDetected { timestamp_ns: u64, duration_ns: u64 },
}

impl PauseEvent {
    /// The position that the event carries.
    pub open spec fn at(self) -> u64 {
        match self {
            PauseEvent::SpeechStart { timestamp_ns } => timestamp_ns,
            PauseEvent::SpeechEnd { timestamp_ns, .. } => timestamp_ns,
            PauseEvent::PauseDetected { timestamp_ns, .. } => timestamp_ns,
            PauseEvent::BoundaryDetected { timestamp_ns, .. } => timestamp_ns,
            PauseEvent::TurnEnd { timestamp_ns, .. } => timestamp_ns,
            PauseEvent::SilenceDetected { timestamp_ns, .. } => timestamp_ns,
        }
    }
}

/// One frame, as far as the detector looks at it.
pub struct Frame {
    /// How many samples it holds.
    pub samples: nat,
    /// Samples a second.
    pub rate: nat,
    /// The root mean square of the samples, where there are any.
    pub rms: Binary64,
}

impl Frame {
    /// How long the frame lasts, in nanoseconds.
    pub open spec fn ns(self) -> int {
        (self.samples * 1_000_000_000) as int / self.rate as int
    }

    /// How long the frame lasts, in whole milliseconds.
    pub open spec fn ms(self) -> int {
        self.ns() / 1_000_000
    }

    /// The energy of the frame; one without samples has none.
    pub open spec fn energy(self) -> Binary64 {
        if self.samples == 0 {
            Binary64 { bits: 0 }
        } else {
            self.rms
        }
    }
}

/// `item` alone where `condition` holds, else nothing.
pub open spec fn given<T>(condition: bool, item: T) -> Seq<T> {
    if condition {
        seq![item]
    } else {
        seq![]
    }
}

/// What a detector knows.
pub struct Listening {
    /// What it was made with.
    pub config: PauseDetectorConfig,
    /// Whether speech is active (debounced).
    pub is_speech: bool,
    /// Where the current speech started, or where the last turn ended.
    pub speech_start_ns: int,
    /// Where the current silence started.
    pub silence_start_ns: int,
    /// Where the next frame starts.
    pub position_ns: int,
    /// How long the frames up to here have held speech without a break.
    pub speech_run_ms: int,
    /// How long the frames up to here have held none without a break.
    pub silence_run_ms: int,
    /// Whether the end of a turn has been reported since speech last started.
    pub turn_over: bool,
}

impl Listening {
    /// Before the first frame.
    pub open spec fn fresh(config: PauseDetectorConfig) -> Listening {
        Listening {
            config,
            is_speech: false,
            speech_start_ns: 0,
            silence_start_ns: 0,
            position_ns: 0,
            speech_run_ms: 0,
            silence_run_ms: 0,
            turn_over: false,
        }
    }

    /// Nothing started after the position, and no run is longer than the stream.
    pub open spec fn wf(self) -> bool {
        &&& 0 <= self.speech_start_ns <= self.position_ns <= u64::MAX
        &&& 0 <= self.silence_start_ns <= self.position_ns
        &&& 0 <= self.speech_run_ms && self.speech_run_ms * 1_000_000 <= self.position_ns
        &&& 0 <= self.silence_run_ms && self.silence_run_ms * 1_000_000 <= self.position_ns
    }

    /// Whether the frame's energy exceeds the threshold.
    pub open spec fn hears(self, frame: Frame) -> bool {
        self.config.energy_threshold.less_than(frame.energy())
    }

    /// Unbroken speech, the frame included.
    pub open spec fn speech_run(self, frame: Frame) -> int {
        if self.hears(frame) {
            self.speech_run_ms + frame.ms()
        } else {
            0
        }
    }

    /// Unbroken silence, the frame included.
    pub open spec fn silence_run(self, frame: Frame) -> int {
        if self.hears(frame) {
            0
        } else {
            self.silence_run_ms + frame.ms()
        }
    }

    /// Whether the frame starts speech: it holds speech, and speech has gone on
    /// long enough.
    pub open spec fn starts(self, frame: Frame) -> bool {
        !self.is_speech && self.hears(frame) && self.speech_run(frame)
            >= self.config.speech_hysteresis_ms
    }

    /// Whether the frame ends speech: it holds none, and silence has gone on long
    /// enough.
    pub open spec fn ends(self, frame: Frame) -> bool {
        self.is_speech && !self.hears(frame) && self.silence_run(frame)
            >= self.config.silence_hysteresis_ms
    }

    /// Whether speech is active after the frame.
    pub open spec fn speaks(self, frame: Frame) -> bool {
        (self.is_speech || self.starts(frame)) && !self.ends(frame)
    }

    /// Where speech last started.
    pub open spec fn speech_onset(self, frame: Frame) -> int {
        if self.starts(frame) {
            self.position_ns
        } else {
            self.speech_start_ns
        }
    }

    /// Where silence last started: as long before the end of the frame as silence
    /// has lasted by then.
    pub open spec fn silence_onset(self, frame: Frame) -> int {
        if self.ends(frame) {
            self.position_ns + frame.ns() - self.silence_run(frame) * 1_000_000
        } else {
            self.silence_start_ns
        }
    }

    /// Whether there is silence, and it is long enough to end a turn.
    pub open spec fn rests(self, frame: Frame) -> bool {
        !self.speaks(frame) && !self.hears(frame) && self.silence_run(frame)
            >= self.config.turn_silence_ms
    }

    /// How long speech lasted before silence.
    pub open spec fn spoken_ns(self, frame: Frame) -> int {
        if self.speech_onset(frame) < self.silence_onset(frame) {
            self.silence_onset(frame) - self.speech_onset(frame)
        } else {
            0
        }
    }

    /// Whether the frame ends a turn: long silence after sufficient speech, where
    /// that has not been reported yet.
    pub open spec fn turn_ends(self, frame: Frame) -> bool {
        self.rests(frame) && !self.turn_over && self.spoken_ns(frame) / 1_000_000
            >= self.config.min_turn_speech_ms
    }

    /// What the frame causes, in the order in which it is reported.
    pub open spec fn events(self, frame: Frame) -> Seq<PauseEvent> {
        let timestamp_ns = self.position_ns as u64;
        let silence_ns = (self.silence_run(frame) * 1_000_000) as u64;
        given(self.starts(frame), PauseEvent::SpeechStart { timestamp_ns }) + given(
            self.ends(frame),
            PauseEvent::SpeechEnd {
                timestamp_ns,
                duration_ns: (self.position_ns - self.speech_onset(frame)) as u64,
            },
        ) + given(
            self.ends(frame) && self.silence_run(frame) >= self.config.min_pause_ms,
            PauseEvent::PauseDetected {
                timestamp_ns,
                duration_ns: silence_ns,
                energy: frame.energy(),
            },
        ) + given(
            self.ends(frame) && self.silence_run(frame) >= self.config.min_boundary_ms,
            PauseEvent::BoundaryDetected {
                timestamp_ns,
                confidence: Fraction::share(
                    self.silence_run(frame),
                    self.config.turn_silence_ms as int,
                ),
            },
        ) + given(
            self.turn_ends(frame),
            PauseEvent::TurnEnd {
                timestamp_ns,
                speech_duration_ns: self.spoken_ns(frame) as u64,
                silence_ns,
            },
        ) + given(
            self.rests(frame),
            PauseEvent::SilenceDetected { timestamp_ns, duration_ns: silence_ns },
        )
    }

    /// What is known after the frame. The end of a turn restarts the measure of
    /// speech, and is not reported again before speech starts.
    pub open spec fn next(self, frame: Frame) -> Listening {
        Listening {
            config: self.config,
            is_speech: self.speaks(frame),
            speech_start_ns: if self.turn_ends(frame) {
                self.position_ns
            } else {
                self.speech_onset(frame)
            },
            silence_start_ns: self.silence_onset(frame),
            position_ns: self.position_ns + frame.ns(),
            speech_run_ms: self.speech_run(frame),
            silence_run_ms: self.silence_run(frame),
            turn_over: self.turn_ends(frame) || self.turn_over && !self.starts(frame),
        }
    }

    /// Whether time passes, and 64 bits hold the length of the frame and the
    /// position after it.
    pub open spec fn accepts(self, frame: Frame) -> bool {
        &&& frame.rate > 0
        &&& frame.samples * 1_000_000_000 <= u64::MAX
        &&& self.position_ns + frame.ns() <= u64::MAX
    }
}

/// Detects pauses and turns in a stream of frames.
pub struct PauseDetector {
    config: PauseDetectorConfig,
    is_speech: bool,
    speech_start_ns: u64,
    silence_start_ns: u64,
    position_ns: u64,
    consecutive_speech_ms: u64,
    consecutive_silence_ms: u64,
    turn_over: bool,
}

impl View for PauseDetector {
    type V = Listening;

    closed spec fn view(&self) -> Listening {
        Listening {
            config: self.config,
            is_speech: self.is_speech,
            speech_start_ns: self.speech_start_ns as int,
            silence_start_ns: self.silence_start_ns as int,
            position_ns: self.position_ns as int,
            speech_run_ms: self.consecutive_speech_ms as int,
            silence_run_ms: self.consecutive_silence_ms as int,
            turn_over: self.turn_over,
        }
    }
}

impl PauseDetector {
    /// A detector before its first frame.
    pub fn new(config: PauseDetectorConfig) -> (detector: Self)
        ensures
            detector@ == Listening::fresh(config),
            detector@.wf(),
    {
        PauseDetector {
            config,
            is_speech: false,
            speech_start_ns: 0,
            silence_start_ns: 0,
            position_ns: 0,
            consecutive_speech_ms: 0,
            consecutive_silence_ms: 0,
            turn_over: false,
        }
    }

    /// Whether [`PauseDetector::process`] can take a frame of this many samples,
    /// whatever they are.
    pub fn can_process(&self, samples: usize, sample_rate: u32) -> (can: bool)
        requires
            self@.wf(),
        ensures
            forall|rms: Binary64|
                can == #[trigger] self@.accepts(
                    (Frame { samples: samples as nat, rate: sample_rate as nat, rms }),
                ),
    {
        if sample_rate == 0 || samples as u64 > 18_446_744_073 {
            return false;
        }
        let frame_ns: u64 = (samples as u64 * 1_000_000_000) / sample_rate as u64;
        frame_ns <= u64::MAX - self.position_ns
    }

    /// Takes in a frame of samples and returns what it causes. `rms` is the root
    /// mean square of the samples, and is not looked at where there are none;
    /// `sample_rate` turns the number of samples into time.
    #[verifier::rlimit(40)]
    #[verifier::spinoff_prover]
    pub fn process(&mut self, samples: &[Binary32], rms: Binary64, sample_rate: u32) -> (events:
        Vec<PauseEvent>)
        requires
            old(self)@.wf(),
            old(self)@.accepts(
                (Frame { samples: samples@.len(), rate: sample_rate as nat, rms }),
            ),
        ensures
            final(self)@ == old(self)@.next(
                (Frame { samples: samples@.len(), rate: sample_rate as nat, rms }),
            ),
            events@ == old(self)@.events(
                (Frame { samples: samples@.len(), rate: sample_rate as nat, rms }),
            ),
            final(self)@.wf(),
    {
        let ghost before = self@;
        let ghost frame = Frame { samples: samples@.len(), rate: sample_rate as nat, rms };
        let mut events: Vec<PauseEvent> = Vec::new();
        let chunk_duration_ns: u64 = (samples.len() as u64 * 1_000_000_000) / sample_rate as u64;
        let chunk_duration_ms: u64 = chunk_duration_ns / 1_000_000;
        let energy = if samples.is_empty() {
            Binary64::zero()
        } else {
            rms
        };
        let frame_has_speech = energy.gt(self.config.energy_threshold);
        assert(frame_has_speech == before.hears(frame));
        if frame_has_speech {
            self.consecutive_speech_ms = self.consecutive_speech_ms + chunk_duration_ms;
            self.consecutive_silence_ms = 0;
        } else {
            self.consecutive_silence_ms = self.consecutive_silence_ms + chunk_duration_ms;
            self.consecutive_speech_ms = 0;
        }
        assert(self.consecutive_silence_ms == before.silence_run(frame));
        assert(self.consecutive_silence_ms * 1_000_000 <= u64::MAX);
        let ghost timestamp_ns = self.position_ns;
        let ghost silence_ns = (before.silence_run(frame) * 1_000_000) as u64;

        if !self.is_speech && frame_has_speech && self.consecutive_speech_ms
            >= self.config.speech_hysteresis_ms {
            self.is_speech = true;
            self.turn_over = false;
            self.speech_start_ns = self.position_ns;
            events.push(PauseEvent::SpeechStart { timestamp_ns: self.position_ns });
        }
        let ghost started = given(before.starts(frame), PauseEvent::SpeechStart { timestamp_ns });
        assert(events@ =~= started);
        let ghost ended = given(
            before.ends(frame),
            PauseEvent::SpeechEnd {
                timestamp_ns,
                duration_ns: (before.position_ns - before.speech_onset(frame)) as u64,
            },
        );
        let ghost paused = given(
            before.ends(frame) && before.silence_run(frame) >= before.config.min_pause_ms,
            PauseEvent::PauseDetected {
                timestamp_ns,
                duration_ns: silence_ns,
                energy: frame.energy(),
            },
        );
        let ghost bounded = given(
            before.ends(frame) && before.silence_run(frame) >= before.config.min_boundary_ms,
            PauseEvent::BoundaryDetected {
                timestamp_ns,
                confidence: Fraction::share(
                    before.silence_run(frame),
                    before.config.turn_silence_ms as int,
                ),
            },
        );
        if self.is_speech && !frame_has_speech && self.consecutive_silence_ms
            >= self.config.silence_hysteresis_ms {
            let speech_dur: u64 = self.position_ns - self.speech_start_ns;
            self.is_speech = false;
            self.silence_start_ns = self.position_ns + chunk_duration_ns - self.consecutive_silence_ms
                * 1_000_000;
            events.push(
                PauseEvent::SpeechEnd { timestamp_ns: self.position_ns, duration_ns: speech_dur },
            );
            assert(events@ =~= started + ended);
            if self.consecutive_silence_ms >= self.config.min_pause_ms {
                let silence_dur: u64 = self.consecutive_silence_ms * 1_000_000;
                events.push(
                    PauseEvent::PauseDetected {
                        timestamp_ns: self.position_ns,
                        duration_ns: silence_dur,
                        energy,
                    },
                );
            }
            assert(events@ =~= started + ended + paused);
            if self.consecutive_silence_ms >= self.config.min_boundary_ms {
                let confidence = Fraction::capped(
                    self.consecutive_silence_ms,
                    self.config.turn_silence_ms,
                );
                events.push(
                    PauseEvent::BoundaryDetected { timestamp_ns: self.position_ns, confidence },
                );
            }
        }
        assert(events@ =~= started + ended + paused + bounded);
        assert(self.is_speech == before.speaks(frame));
        let ghost turned = given(
            before.turn_ends(frame),
            PauseEvent::TurnEnd {
                timestamp_ns,
                speech_duration_ns: before.spoken_ns(frame) as u64,
                silence_ns,
            },
        );
        if !self.is_speech && !frame_has_speech && self.consecutive_silence_ms
            >= self.config.turn_silence_ms {
            let speech_dur: u64 = if self.speech_start_ns < self.silence_start_ns {
                self.silence_start_ns - self.speech_start_ns
            } else {
                0
            };
            let silence_ns: u64 = self.consecutive_silence_ms * 1_000_000;
            if !self.turn_over && speech_dur / 1_000_000 >= self.config.min_turn_speech_ms {
                events.push(
                    PauseEvent::TurnEnd {
                        timestamp_ns: self.position_ns,
                        speech_duration_ns: speech_dur,
                        silence_ns,
                    },
                );
                self.speech_start_ns = self.position_ns;
                self.turn_over = true;
            }
            assert(events@ =~= started + ended + paused + bounded + turned);
            events.push(
                PauseEvent::SilenceDetected {
                    timestamp_ns: self.position_ns,
                    duration_ns: silence_ns,
                },
            );
        }
        self.position_ns = self.position_ns + chunk_duration_ns;
        assert(self@ == before.next(frame));
        assert(events@ =~= before.events(frame));
        events
    }
}

impl Listening {
    /// What is known after a stream of frames.
    pub open spec fn after(self, frames: Seq<Frame>) -> Listening
        decreases frames.len(),
    {
        if frames.len() == 0 {
            self
        } else {
            self.after(frames.drop_last()).next(frames.last())
        }
    }

    /// How many frames of the stream start speech.
    pub open spec fn start_count(self, frames: Seq<Frame>) -> nat
        decreases frames.len(),
    {
        if frames.len() == 0 {
            0
        } else {
            self.start_count(frames.drop_last()) + if self.after(frames.drop_last()).starts(
                frames.last(),
            ) {
                1nat
            } else {
                0nat
            }
        }
    }

    /// How many frames of the stream end speech.
    pub open spec fn end_count(self, frames: Seq<Frame>) -> nat
        decreases frames.len(),
    {
        if frames.len() == 0 {
            0
        } else {
            self.end_count(frames.drop_last()) + if self.after(frames.drop_last()).ends(
                frames.last(),
            ) {
                1nat
            } else {
                0nat
            }
        }
    }

    /// Whether no frame of the stream starts speech.
    pub open spec fn stays_quiet(self, frames: Seq<Frame>) -> bool {
        forall|i: int|
            0 <= i < frames.len() ==> !#[trigger] self.after(frames.take(i)).starts(frames[i])
    }
}

/// How long a stream of frames lasts, in nanoseconds.
pub open spec fn total_ns(frames: Seq<Frame>) -> int
    decreases frames.len(),
{
    if frames.len() == 0 {
        0
    } else {
        total_ns(frames.drop_last()) + frames.last().ns()
    }
}

/// How long the frames at the end of a stream last, in milliseconds, that are
/// all above (`loud`) or all not above the threshold.
pub open spec fn trailing_ms(frames: Seq<Frame>, threshold: Binary64, loud: bool) -> int
    decreases frames.len(),
{
    if frames.len() == 0 || threshold.less_than(frames.last().energy()) != loud {
        0
    } else {
        trailing_ms(frames.drop_last(), threshold, loud) + frames.last().ms()
    }
}

/// The position of a detector is the length of what it has taken in, and its
/// runs are the unbroken speech and silence at the end of it.
pub proof fn runs_measure_the_stream(config: PauseDetectorConfig, frames: Seq<Frame>)
    ensures
        Listening::fresh(config).after(frames).config == config,
        Listening::fresh(config).after(frames).position_ns == total_ns(frames),
        Listening::fresh(config).after(frames).speech_run_ms == trailing_ms(
            frames,
            config.energy_threshold,
            true,
        ),
        Listening::fresh(config).after(frames).silence_run_ms == trailing_ms(
            frames,
            config.energy_threshold,
            false,
        ),
    decreases frames.len(),
{
    if frames.len() > 0 {
        runs_measure_the_stream(config, frames.drop_last());
    }
}

/// Speech is reported only after unbroken speech of the configured length, and
/// its end only after unbroken silence of the configured length.
pub proof fn reports_are_debounced(config: PauseDetectorConfig, frames: Seq<Frame>, frame: Frame)
    ensures
        Listening::fresh(config).after(frames).starts(frame) ==> trailing_ms(
            frames.push(frame),
            config.energy_threshold,
            true,
        ) >= config.speech_hysteresis_ms,
        Listening::fresh(config).after(frames).ends(frame) ==> trailing_ms(
            frames.push(frame),
            config.energy_threshold,
            false,
        ) >= config.silence_hysteresis_ms,
{
    runs_measure_the_stream(config, frames);
    assert(frames.push(frame).drop_last() =~= frames);
}

/// A start of speech is reported exactly by the frames that start it, an end by
/// those that end it, and the end of a turn by those that end one. All that a
/// frame causes carries the position at which the frame starts, and every
/// confidence lies between zero and one.
#[verifier::rlimit(40)]
#[verifier::spinoff_prover]
pub proof fn reports_match_the_state(before: Listening, frame: Frame)
    requires
        before.wf(),
        frame.rate > 0,
    ensures
        before.starts(frame) <==> exists|i: int|
            0 <= i < before.events(frame).len() && #[trigger] before.events(
                frame,
            )[i] is SpeechStart,
        before.ends(frame) <==> exists|i: int|
            0 <= i < before.events(frame).len() && #[trigger] before.events(frame)[i] is SpeechEnd,
        before.turn_ends(frame) <==> exists|i: int|
            0 <= i < before.events(frame).len() && #[trigger] before.events(frame)[i] is TurnEnd,
        forall|i: int|
            0 <= i < before.events(frame).len() ==> (#[trigger] before.events(frame)[i]).at()
                == before.position_ns,
        forall|i: int|
            0 <= i < before.events(frame).len() ==> (#[trigger] before.events(
                frame,
            )[i] matches PauseEvent::BoundaryDetected { confidence, .. } ==> confidence.wf()),
{
    let events = before.events(frame);
    let starts = before.starts(frame);
    let ends = before.ends(frame);
    let run = before.silence_run(frame);
    let a: int = if starts {
        1
    } else {
        0
    };
    let b: int = a + if ends {
        1int
    } else {
        0
    };
    let c: int = b + if ends && run >= before.config.min_pause_ms {
        1int
    } else {
        0
    };
    let d: int = c + if ends && run >= before.config.min_boundary_ms {
        1int
    } else {
        0
    };
    if starts {
        assert(events[0] is SpeechStart);
    }
    if ends {
        assert(events[a] is SpeechEnd);
    }
    if before.turn_ends(frame) {
        assert(events[d] is TurnEnd);
    }
    frame_length(frame);
}

/// Starts and ends of speech alternate, a start coming first: over any stream
/// there have been as many ends as starts, or one fewer while speech is active.
pub proof fn starts_and_ends_alternate(config: PauseDetectorConfig, frames: Seq<Frame>)
    ensures
        Listening::fresh(config).start_count(frames) == Listening::fresh(config).end_count(frames)
            + if Listening::fresh(config).after(frames).is_speech {
            1nat
        } else {
            0nat
        },
    decreases frames.len(),
{
    if frames.len() > 0 {
        starts_and_ends_alternate(config, frames.drop_last());
    }
}

/// What a frame reports is what it holds: one without speech starts none, and one
/// with speech ends none and reports no silence.
pub proof fn frames_report_what_they_hold(before: Listening, frame: Frame)
    ensures
        !before.hears(frame) ==> !before.starts(frame),
        before.hears(frame) ==> !before.ends(frame) && !before.rests(frame) && !before.turn_ends(
            frame,
        ),
{
}

/// The end of a turn is reported once: after it, as long as no frame starts
/// speech, no frame ends a turn.
pub proof fn a_turn_ends_once(before: Listening, frame: Frame, quiet: Seq<Frame>, later: Frame)
    requires
        before.turn_ends(frame),
        before.next(frame).stays_quiet(quiet),
    ensures
        !before.next(frame).after(quiet).turn_ends(later),
{
    turn_stays_over(before.next(frame), quiet, quiet.len());
    assert(quiet.take(quiet.len() as int) =~= quiet);
}

proof fn frame_length(frame: Frame)
    requires
        frame.rate > 0,
    ensures
        0 <= frame.ns(),
        0 <= frame.ms(),
        frame.ms() * 1_000_000 <= frame.ns(),
{
    assert(frame.ns() >= 0) by (nonlinear_arith)
        requires
            frame.ns() == (frame.samples * 1_000_000_000) as int / (frame.rate as int),
            frame.rate > 0,
    ;
}

proof fn turn_stays_over(state: Listening, frames: Seq<Frame>, n: nat)
    requires
        state.turn_over,
        state.stays_quiet(frames),
        n <= frames.len(),
    ensures
        state.after(frames.take(n as int)).turn_over,
    decreases n,
{
    if n > 0 {
        let m = (n - 1) as nat;
        turn_stays_over(state, frames, m);
        assert(frames.take(n as int).drop_last() =~= frames.take(m as int));
        assert(frames.take(n as int).last() == frames[m as int]);
        assert(!state.after(frames.take(m as int)).starts(frames[m as int]));
    } else {
        assert(frames.take(0) =~= Seq::empty());
    }
}

/// Whether a frame lasts exactly `ms` milliseconds.
pub open spec fn lasts(frame: Frame, ms: int) -> bool {
    frame.rate > 0 && frame.ns() == ms * 1_000_000
}

/// Silence is dated where it starts. In a stream of frames of whole milliseconds
/// whose frames from the `n`th on hold no speech, while the one before them, if
/// any, does, the end of speech finds that silence started with the `n`th frame.
pub proof fn silence_is_dated_where_it_starts(
    config: PauseDetectorConfig,
    frames: Seq<Frame>,
    n: nat,
)
    requires
        n < frames.len(),
        forall|i: int| 0 <= i < frames.len() ==> lasts(#[trigger] frames[i], frames[i].ms()),
        n > 0 ==> config.energy_threshold.less_than(frames[n - 1].energy()),
        forall|i: int|
            n <= i < frames.len() ==> !config.energy_threshold.less_than(
                (#[trigger] frames[i]).energy(),
            ),
        Listening::fresh(config).after(frames.drop_last()).ends(frames.last()),
    ensures
        Listening::fresh(config).after(frames).silence_start_ns == total_ns(frames.take(n as int)),
{
    runs_measure_the_stream(config, frames);
    runs_measure_the_stream(config, frames.drop_last());
    silence_fills_the_rest(frames, config.energy_threshold, n, frames.len());
    assert(frames.take(frames.len() as int) =~= frames);
}

proof fn silence_fills_the_rest(frames: Seq<Frame>, threshold: Binary64, n: nat, m: nat)
    requires
        n <= m <= frames.len(),
        forall|i: int| 0 <= i < frames.len() ==> lasts(#[trigger] frames[i], frames[i].ms()),
        n > 0 ==> threshold.less_than(frames[n - 1].energy()),
        forall|i: int|
            n <= i < frames.len() ==> !threshold.less_than((#[trigger] frames[i]).energy()),
    ensures
        trailing_ms(frames.take(m as int), threshold, false) * 1_000_000 == total_ns(
            frames.take(m as int),
        ) - total_ns(frames.take(n as int)),
    decreases m,
{
    if m > n {
        silence_fills_the_rest(frames, threshold, n, (m - 1) as nat);
        assert(frames.take(m as int).drop_last() =~= frames.take(m - 1));
        assert(frames.take(m as int).last() == frames[m - 1]);
        assert(lasts(frames[m - 1], frames[m - 1].ms()));
    } else if n > 0 {
        assert(frames.take(n as int).last() == frames[n - 1]);
    }
}

} // verus!
