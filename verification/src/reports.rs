//! What the pause detector reports of a stream, measured on the frames of the
//! stream and on what was reported before.
use crate::ieee::Binary64;
use crate::vad;
use crate::vad::{Frame, Listening, PauseDetectorConfig, PauseEvent};
use vstd::prelude::*;

verus! {

/// Whether a number exceeds another: both are numbers, and the first is worth more.
pub open spec fn exceeds(a: Binary64, b: Binary64) -> bool {
    !a.is_nan() && !b.is_nan() && b.scaled() < a.scaled()
}

/// A frame lasts as long as its samples do at its rate, cut down to whole
/// nanoseconds, and to whole milliseconds from there. Its energy is the root mean
/// square of its samples; one without samples has none.
pub proof fn a_frame_is_its_samples(frame: Frame)
    requires
        frame.rate > 0,
    ensures
        frame.ns() * frame.rate <= frame.samples * 1_000_000_000 < (frame.ns() + 1) * frame.rate,
        0 <= frame.ns(),
        frame.ms() * 1_000_000 <= frame.ns() < (frame.ms() + 1) * 1_000_000,
        frame.samples > 0 ==> frame.energy() == frame.rms,
        frame.samples == 0 ==> !frame.energy().is_nan() && frame.energy().scaled() == 0,
{
    let total = (frame.samples * 1_000_000_000) as int;
    let rate = frame.rate as int;
    vstd::arithmetic::div_mod::lemma_fundamental_div_mod(total, rate);
    vstd::arithmetic::div_mod::lemma_mod_bound(total, rate);
    let ns = total / rate;
    assert(ns * rate <= total < (ns + 1) * rate && 0 <= ns) by (nonlinear_arith)
        requires
            total == rate * ns + total % rate,
            0 <= total % rate < rate,
            0 <= total,
    ;
    crate::ieee::magnitude_worth_orders(0, 0, 52);
}

/// What was reported, as far as it bears on what is reported next.
pub struct Told {
    /// Whether the last start of speech has no end yet.
    pub speaking: bool,
    /// The position of the last start of speech.
    pub start_ns: int,
    /// Whether the end of a turn was reported after it.
    pub turned: bool,
}

impl Told {
    /// After one more event.
    pub open spec fn and(self, event: PauseEvent) -> Told {
        match event {
            PauseEvent::SpeechStart { timestamp_ns } => Told {
                speaking: true,
                start_ns: timestamp_ns as int,
                turned: false,
            },
            PauseEvent::SpeechEnd { .. } => Told { speaking: false, ..self },
            PauseEvent::TurnEnd { .. } => Told { turned: true, ..self },
            _ => self,
        }
    }
}

/// What a list of events tells.
pub open spec fn told(events: Seq<PauseEvent>) -> Told
    decreases events.len(),
{
    if events.len() == 0 {
        Told { speaking: false, start_ns: 0, turned: false }
    } else {
        told(events.drop_last()).and(events.last())
    }
}

/// What a detector reports of the last frame of a stream.
pub open spec fn report(config: PauseDetectorConfig, frames: Seq<Frame>) -> Seq<PauseEvent>
    recommends
        frames.len() > 0,
{
    Listening::fresh(config).after(frames.drop_last()).events(frames.last())
}

/// All that a detector reports of a stream.
pub open spec fn reports(config: PauseDetectorConfig, frames: Seq<Frame>) -> Seq<PauseEvent>
    decreases frames.len(),
{
    if frames.len() == 0 {
        seq![]
    } else {
        reports(config, frames.drop_last()) + report(config, frames)
    }
}

/// Where the silence began that ended speech last: as long before the end of the
/// frame that reported the end of speech as frames had held no speech by then.
pub open spec fn silence_began(config: PauseDetectorConfig, frames: Seq<Frame>) -> int
    decreases frames.len(),
{
    if frames.len() == 0 {
        0
    } else if told(reports(config, frames.drop_last())).speaking && !told(
        reports(config, frames),
    ).speaking {
        vad::total_ns(frames) - vad::trailing_ms(frames, config.energy_threshold, false) * 1_000_000
    } else {
        silence_began(config, frames.drop_last())
    }
}

/// Whether time passes in every frame, and 64 bits hold the length of the stream.
pub open spec fn fits(frames: Seq<Frame>) -> bool {
    &&& forall|i: int| 0 <= i < frames.len() ==> (#[trigger] frames[i]).rate > 0
    &&& vad::total_ns(frames) <= u64::MAX
}

/// The place of an event among those of one frame.
pub open spec fn rank(event: PauseEvent) -> int {
    match event {
        PauseEvent::SpeechStart { .. } => 0,
        PauseEvent::SpeechEnd { .. } => 1,
        PauseEvent::PauseDetected { .. } => 2,
        PauseEvent::BoundaryDetected { .. } => 3,
        PauseEvent::TurnEnd { .. } => 4,
        PauseEvent::SilenceDetected { .. } => 5,
    }
}

/// Whether one of the events has this place.
pub open spec fn has_rank(events: Seq<PauseEvent>, place: int) -> bool {
    exists|i: int| 0 <= i < events.len() && rank(#[trigger] events[i]) == place
}

proof fn told_and_given(events: Seq<PauseEvent>, condition: bool, event: PauseEvent)
    ensures
        told(events + vad::given(condition, event)) == if condition {
            told(events).and(event)
        } else {
            told(events)
        },
{
    if condition {
        assert((events + vad::given(condition, event)).drop_last() =~= events);
    } else {
        assert(events + vad::given(condition, event) =~= events);
    }
}

proof fn told_after_frame(earlier: Seq<PauseEvent>, state: Listening, frame: Frame)
    requires
        state.wf(),
    ensures
        ({
            let before = told(earlier);
            let after = told(earlier + state.events(frame));
            &&& after.speaking == ((before.speaking || state.starts(frame)) && !state.ends(frame))
            &&& after.start_ns == if state.starts(frame) {
                state.position_ns
            } else {
                before.start_ns
            }
            &&& after.turned == (state.turn_ends(frame) || before.turned && !state.starts(frame))
        }),
{
    let timestamp_ns = state.position_ns as u64;
    let silence_ns = (state.silence_run(frame) * 1_000_000) as u64;
    let e0 = PauseEvent::SpeechStart { timestamp_ns };
    let e1 = PauseEvent::SpeechEnd {
        timestamp_ns,
        duration_ns: (state.position_ns - state.speech_onset(frame)) as u64,
    };
    let e2 = PauseEvent::PauseDetected {
        timestamp_ns,
        duration_ns: silence_ns,
        energy: frame.energy(),
    };
    let e3 = PauseEvent::BoundaryDetected {
        timestamp_ns,
        confidence: vad::Fraction::share(
            state.silence_run(frame),
            state.config.turn_silence_ms as int,
        ),
    };
    let e4 = PauseEvent::TurnEnd {
        timestamp_ns,
        speech_duration_ns: state.spoken_ns(frame) as u64,
        silence_ns,
    };
    let e5 = PauseEvent::SilenceDetected { timestamp_ns, duration_ns: silence_ns };
    let c2 = state.ends(frame) && state.silence_run(frame) >= state.config.min_pause_ms;
    let c3 = state.ends(frame) && state.silence_run(frame) >= state.config.min_boundary_ms;
    let r0 = earlier + vad::given(state.starts(frame), e0);
    let r1 = r0 + vad::given(state.ends(frame), e1);
    let r2 = r1 + vad::given(c2, e2);
    let r3 = r2 + vad::given(c3, e3);
    let r4 = r3 + vad::given(state.turn_ends(frame), e4);
    let r5 = r4 + vad::given(state.rests(frame), e5);
    told_and_given(earlier, state.starts(frame), e0);
    told_and_given(r0, state.ends(frame), e1);
    told_and_given(r1, c2, e2);
    told_and_given(r2, c3, e3);
    told_and_given(r3, state.turn_ends(frame), e4);
    told_and_given(r4, state.rests(frame), e5);
    assert(earlier + state.events(frame) =~= r5);
}

proof fn state_mirrors_reports(config: PauseDetectorConfig, frames: Seq<Frame>)
    requires
        fits(frames),
    ensures
        ({
            let state = Listening::fresh(config).after(frames);
            let before = told(reports(config, frames));
            &&& state.wf()
            &&& state.config == config
            &&& state.is_speech == before.speaking
            &&& state.turn_over == before.turned
            &&& state.is_speech ==> !state.turn_over
            &&& !state.turn_over ==> state.speech_start_ns == before.start_ns
            &&& state.silence_start_ns == silence_began(config, frames)
        }),
    decreases frames.len(),
{
    if frames.len() > 0 {
        let earlier = frames.drop_last();
        let frame = frames.last();
        assert(frames[frames.len() - 1] == frame);
        a_frame_is_its_samples(frame);
        assert(fits(earlier)) by {
            assert forall|i: int| 0 <= i < earlier.len() implies (#[trigger] earlier[i]).rate
                > 0 by {
                assert(earlier[i] == frames[i]);
            }
        }
        state_mirrors_reports(config, earlier);
        let state = Listening::fresh(config).after(earlier);
        vad::runs_measure_the_stream(config, frames);
        vad::runs_measure_the_stream(config, earlier);
        told_after_frame(reports(config, earlier), state, frame);
        let next = state.next(frame);
        assert(Listening::fresh(config).after(frames) == next);
        assert(next.wf());
    }
}

/// When the last frame of a stream is reported as what. Speech starts when it has
/// not, and the frames up to here hold speech for as long as is asked for; it ends
/// when it has started, and they hold none for as long as is asked for. The end of
/// speech is a pause, and a boundary, when silence has lasted that long. Silence is
/// reported when it has lasted as long as a turn asks for and speech is not going
/// on, and with it the end of a turn, once after each start of speech, if the time
/// from that start to where the silence began that ended it is enough speech.
pub proof fn frames_cause_their_reports(config: PauseDetectorConfig, frames: Seq<Frame>)
    requires
        frames.len() > 0,
        fits(frames),
    ensures
        ({
            let events = report(config, frames);
            let before = told(reports(config, frames.drop_last()));
            let loud = exceeds(frames.last().energy(), config.energy_threshold);
            let speech_ms = vad::trailing_ms(frames, config.energy_threshold, true);
            let silence_ms = vad::trailing_ms(frames, config.energy_threshold, false);
            let ended = before.speaking && !loud && silence_ms >= config.silence_hysteresis_ms;
            let rests = !loud && silence_ms >= config.turn_silence_ms && (!before.speaking
                || ended);
            let spoken_ns = silence_began(config, frames) - before.start_ns;
            &&& has_rank(events, 0) <==> !before.speaking && loud && speech_ms
                >= config.speech_hysteresis_ms
            &&& has_rank(events, 1) <==> ended
            &&& has_rank(events, 2) <==> ended && silence_ms >= config.min_pause_ms
            &&& has_rank(events, 3) <==> ended && silence_ms >= config.min_boundary_ms
            &&& has_rank(events, 4) <==> rests && !before.turned && (config.min_turn_speech_ms
                == 0 || spoken_ns / 1_000_000 >= config.min_turn_speech_ms)
            &&& has_rank(events, 5) <==> rests
        }),
{
    let earlier = frames.drop_last();
    let frame = frames.last();
    assert(frames[frames.len() - 1] == frame);
    a_frame_is_its_samples(frame);
    assert(fits(earlier)) by {
        assert forall|i: int| 0 <= i < earlier.len() implies (#[trigger] earlier[i]).rate > 0 by {
            assert(earlier[i] == frames[i]);
        }
    }
    state_mirrors_reports(config, earlier);
    state_mirrors_reports(config, frames);
    vad::runs_measure_the_stream(config, frames);
    vad::runs_measure_the_stream(config, earlier);
    let state = Listening::fresh(config).after(earlier);
    ranks_match_the_state(state, frame);
}

#[verifier::rlimit(40)]
#[verifier::spinoff_prover]
proof fn ranks_match_the_state(state: Listening, frame: Frame)
    ensures
        ({
            let events = state.events(frame);
            &&& has_rank(events, 0) <==> state.starts(frame)
            &&& has_rank(events, 1) <==> state.ends(frame)
            &&& has_rank(events, 2) <==> state.ends(frame) && state.silence_run(frame)
                >= state.config.min_pause_ms
            &&& has_rank(events, 3) <==> state.ends(frame) && state.silence_run(frame)
                >= state.config.min_boundary_ms
            &&& has_rank(events, 4) <==> state.turn_ends(frame)
            &&& has_rank(events, 5) <==> state.rests(frame)
            &&& forall|i: int, j: int|
                0 <= i < j < events.len() ==> rank(#[trigger] events[i]) < rank(
                    #[trigger] events[j],
                )
        }),
{
    let events = state.events(frame);
    let c2 = state.ends(frame) && state.silence_run(frame) >= state.config.min_pause_ms;
    let c3 = state.ends(frame) && state.silence_run(frame) >= state.config.min_boundary_ms;
    let n0: int = if state.starts(frame) { 1 } else { 0 };
    let n1: int = n0 + if state.ends(frame) { 1int } else { 0 };
    let n2: int = n1 + if c2 { 1int } else { 0 };
    let n3: int = n2 + if c3 { 1int } else { 0 };
    let n4: int = n3 + if state.turn_ends(frame) { 1int } else { 0 };
    if state.starts(frame) {
        assert(rank(events[0]) == 0);
    }
    if state.ends(frame) {
        assert(rank(events[n0]) == 1);
    }
    if c2 {
        assert(rank(events[n1]) == 2);
    }
    if c3 {
        assert(rank(events[n2]) == 3);
    }
    if state.turn_ends(frame) {
        assert(rank(events[n3]) == 4);
    }
    if state.rests(frame) {
        assert(rank(events[n4]) == 5);
    }
}

/// What the events of a frame carry: where the frame starts; how long speech had
/// lasted by then; how long silence has lasted when the frame ends; the energy of
/// the frame; how much that silence is of what a turn asks for, one at most; and
/// for a turn, the time from the start of speech to where the silence began that
/// ended it. A turn has the speech and the silence that are asked for. The events
/// come in one order, and each at most once.
#[verifier::rlimit(40)]
#[verifier::spinoff_prover]
pub proof fn reports_carry_what_was_measured(config: PauseDetectorConfig, frames: Seq<Frame>)
    requires
        frames.len() > 0,
        fits(frames),
    ensures
        ({
            let events = report(config, frames);
            let before = told(reports(config, frames.drop_last()));
            let at = vad::total_ns(frames.drop_last());
            let silence_ms = vad::trailing_ms(frames, config.energy_threshold, false);
            let spoken_ns = silence_began(config, frames) - before.start_ns;
            &&& forall|i: int|
                0 <= i < events.len() ==> match #[trigger] events[i] {
                    PauseEvent::SpeechStart { timestamp_ns } => timestamp_ns == at,
                    PauseEvent::SpeechEnd { timestamp_ns, duration_ns } => timestamp_ns == at
                        && duration_ns == at - before.start_ns,
                    PauseEvent::PauseDetected { timestamp_ns, duration_ns, energy } => {
                        &&& timestamp_ns == at
                        &&& duration_ns == silence_ms * 1_000_000
                        &&& energy == frames.last().energy()
                    },
                    PauseEvent::BoundaryDetected { timestamp_ns, confidence } => {
                        &&& timestamp_ns == at
                        &&& confidence.denominator > 0
                        &&& silence_ms < config.turn_silence_ms ==> confidence.numerator
                            * config.turn_silence_ms == silence_ms * confidence.denominator
                        &&& silence_ms >= config.turn_silence_ms ==> confidence.numerator
                            == confidence.denominator
                    },
                    PauseEvent::TurnEnd { timestamp_ns, speech_duration_ns, silence_ns } => {
                        &&& timestamp_ns == at
                        &&& speech_duration_ns == if spoken_ns > 0 {
                            spoken_ns
                        } else {
                            0
                        }
                        &&& speech_duration_ns / 1_000_000 >= config.min_turn_speech_ms
                        &&& silence_ns == silence_ms * 1_000_000
                        &&& silence_ns / 1_000_000 >= config.turn_silence_ms
                    },
                    PauseEvent::SilenceDetected { timestamp_ns, duration_ns } => {
                        &&& timestamp_ns == at
                        &&& duration_ns == silence_ms * 1_000_000
                        &&& duration_ns / 1_000_000 >= config.turn_silence_ms
                    },
                }
            &&& forall|i: int, j: int|
                0 <= i < j < events.len() ==> rank(#[trigger] events[i]) < rank(
                    #[trigger] events[j],
                )
        }),
{
    let earlier = frames.drop_last();
    let frame = frames.last();
    assert(frames[frames.len() - 1] == frame);
    a_frame_is_its_samples(frame);
    assert(fits(earlier)) by {
        assert forall|i: int| 0 <= i < earlier.len() implies (#[trigger] earlier[i]).rate > 0 by {
            assert(earlier[i] == frames[i]);
        }
    }
    state_mirrors_reports(config, earlier);
    state_mirrors_reports(config, frames);
    vad::runs_measure_the_stream(config, frames);
    vad::runs_measure_the_stream(config, earlier);
    let state = Listening::fresh(config).after(earlier);
    ranks_match_the_state(state, frame);
    let silence_ms = state.silence_run(frame);
    assert(0 <= silence_ms && silence_ms * 1_000_000 <= u64::MAX);
    let share = vad::Fraction::share(silence_ms, config.turn_silence_ms as int);
    if silence_ms < config.turn_silence_ms {
        assert(share.numerator * config.turn_silence_ms == silence_ms * share.denominator)
            by (nonlinear_arith)
            requires
                share.numerator == silence_ms,
                share.denominator == config.turn_silence_ms,
        ;
    }
}

/// Whatever a detector has heard, an end of a turn that it reports has as much
/// speech as is asked for, and as much silence.
#[verifier::rlimit(40)]
#[verifier::spinoff_prover]
pub proof fn turns_have_enough_speech(before: Listening, frame: Frame)
    requires
        before.wf(),
        before.accepts(frame),
    ensures
        forall|i: int|
            0 <= i < before.events(frame).len() ==> (#[trigger] before.events(
                frame,
            )[i] matches PauseEvent::TurnEnd { speech_duration_ns, silence_ns, .. } ==> {
                &&& speech_duration_ns / 1_000_000 >= before.config.min_turn_speech_ms
                &&& silence_ns / 1_000_000 >= before.config.turn_silence_ms
            }),
{
    a_frame_is_its_samples(frame);
    ranks_match_the_state(before, frame);
}

} // verus!
