//! The element: its state, and how buffers pass through it.
//!
//! The element decides; the caller does what takes floating-point arithmetic or
//! the model. A transform call is a conversation: each answer of the element
//! says which signals to emit and what work to do next, and the caller comes
//! back with the result of that work.
use crate::control::FlowError;
use crate::ieee::{Binary32, Binary64};
use crate::model;
use crate::model::{AsrMsg, ChunkRun, SttEvent, SttModel, SttWord};
use crate::pcm;
use crate::pcm::{bytes_to_f32, stereo_frames, CHUNK_SAMPLES, MODEL_SAMPLE_RATE};
use crate::properties::{Properties, PropertiesSnapshot};
use crate::setup;
use crate::setup::{Fetched, ModelInfo};
use crate::signals;
use crate::signals::{emit_pause_events, Signal, SignalId};
use crate::transcript;
use crate::transcript::{stamp_all, write_transcript, Stamp, TimedWord};
use crate::vad;
use crate::vad::PauseDetector;
use vstd::pervasive::unreached;
use vstd::prelude::*;

verus! {

/// What is kept while a model is loaded.
struct State {
    model: SttModel,
    info: ModelInfo,
    pause_detector: PauseDetector,
    pcm_buffer: Vec<Binary32>,
    segment_idx: u64,
    sample_position: u64,
    began: Option<Binary64>,
    input_rate: u32,
    input_channels: u32,
}

/// What is kept while a model is loaded, as contracts see it.
pub struct Stream {
    /// The session with the model.
    pub model: model::Session,
    /// What is told of the model.
    pub info: setup::Facts,
    /// What the pause detector knows.
    pub detector: vad::Listening,
    /// Samples that do not make a chunk yet.
    pub buffer: Seq<Binary32>,
    /// How many segments there have been.
    pub segment_idx: int,
    /// How many samples the chunks hold that the model has been given.
    pub sample_position: int,
    /// When the stream began, in seconds of unix time, once it has.
    pub began: Option<Binary64>,
    /// The rate of the input.
    pub input_rate: u32,
    /// The channels of the input.
    pub input_channels: u32,
}

impl State {
    spec fn stream(&self) -> Stream {
        Stream {
            model: self.model@,
            info: self.info@,
            detector: self.pause_detector@,
            buffer: self.pcm_buffer@,
            segment_idx: self.segment_idx as int,
            sample_position: self.sample_position as int,
            began: self.began,
            input_rate: self.input_rate,
            input_channels: self.input_channels,
        }
    }
}

/// The element.
pub struct KyutaiStt {
    state: Option<State>,
}

impl Default for KyutaiStt {
    /// An element without a model.
    fn default() -> (element: Self)
        ensures
            element.stream() is None,
            element.wf(),
    {
        KyutaiStt { state: None }
    }
}

/// A change of state of the element.
#[derive(Clone, Copy, Debug, PartialEq, Eq, Structural)]
pub enum StateChange {
    /// It is to become ready.
    NullToReady,
    /// It is to be put away.
    ReadyToNull,
    /// Any other.
    Other,
}

/// What a change of state takes.
#[derive(Debug, PartialEq, Eq)]
pub enum ChangeStep {
    /// To load a model, and to go on with [`KyutaiStt::load_model`].
    Load(PropertiesSnapshot),
    /// To emit these signals.
    Proceed(Vec<Signal>),
}

/// What new input caps take.
#[derive(Clone, Copy, Debug, PartialEq, Eq, Structural)]
pub enum CapsStep {
    /// Nothing, as no model is loaded.
    Ignored,
    /// Nothing, as the input has the rate of the model.
    Bypass,
    /// To make a resampler. Until there is one, resampling fails.
    Resample {
        /// The rate of the input.
        from_rate: usize,
        /// The rate of the model.
        to_rate: usize,
        /// Samples that go in at a time.
        chunk: usize,
        /// Parts in which these are resampled.
        sub_chunks: usize,
        /// Channels that are resampled.
        channels: usize,
    },
}

impl Stream {
    /// When a model was just loaded.
    pub open spec fn begun(
        model: model::Session,
        info: setup::Facts,
        config: vad::PauseDetectorConfig,
    ) -> Stream {
        Stream {
            model,
            info,
            detector: vad::Listening::fresh(config),
            buffer: seq![],
            segment_idx: 0,
            sample_position: 0,
            began: None,
            input_rate: 24_000,
            input_channels: 1,
        }
    }
}

impl Stream {
    /// When a model was just loaded as the properties ask.
    pub open spec fn loaded(snapshot: PropertiesSnapshot, fetched: Fetched) -> Stream {
        Stream::begun(
            fetched.config.session(snapshot.enable_vad, snapshot.temperature),
            setup::facts(snapshot.hf_repo@, fetched.file_name(), fetched.device),
            snapshot.pauses(),
        )
    }

    /// What tells of a model that was just loaded.
    pub open spec fn introduction(self) -> Seq<signals::Emission> {
        seq![
            signals::Emission::of_text(SignalId::ModelLoaded, self.info.hf_repo),
            signals::Emission::of_model(self.info),
        ]
    }

    /// When the rate and the channels of the input were just negotiated.
    pub open spec fn negotiated(self, rate: i32, channels: i32) -> Stream {
        Stream { input_rate: rate as u32, input_channels: channels as u32, ..self }
    }
}

impl CapsStep {
    /// What an input of this rate takes.
    pub open spec fn of_rate(rate: i32) -> CapsStep {
        if rate == 24_000 {
            CapsStep::Bypass
        } else {
            CapsStep::Resample {
                from_rate: rate as usize,
                to_rate: 24_000,
                chunk: 1920,
                sub_chunks: 1,
                channels: 1,
            }
        }
    }
}

impl KyutaiStt {
    /// What is kept while a model is loaded; nothing while there is none.
    pub closed spec fn stream(&self) -> Option<Stream> {
        match self.state {
            Some(state) => Some(state.stream()),
            None => None,
        }
    }

    /// The pause detector can go on.
    pub open spec fn wf(&self) -> bool {
        self.stream() matches Some(stream) ==> stream.detector.wf()
    }

    /// Whether a model is loaded.
    pub fn is_loaded(&self) -> (loaded: bool)
        ensures
            loaded == self.stream() is Some,
    {
        self.state.is_some()
    }

    /// Begins a change of state. Becoming ready takes a model; being put away
    /// drops it, and says so.
    pub fn change_state(&mut self, transition: StateChange, props: &Properties) -> (step:
        ChangeStep)
        requires
            old(self).wf(),
        ensures
            final(self).wf(),
            match transition {
                StateChange::NullToReady => {
                    &&& step matches ChangeStep::Load(snapshot)
                    &&& snapshot.taken_from(props)
                    &&& final(self).stream() == old(self).stream()
                },
                StateChange::ReadyToNull => {
                    &&& step matches ChangeStep::Proceed(signals)
                    &&& signals::emitted(signals@) == seq![
                        signals::Emission { id: SignalId::ModelUnloaded, args: seq![] },
                    ]
                    &&& final(self).stream() is None
                },
                StateChange::Other => {
                    &&& step matches ChangeStep::Proceed(signals)
                    &&& signals@.len() == 0
                    &&& final(self).stream() == old(self).stream()
                },
            },
    {
        match transition {
            StateChange::NullToReady => ChangeStep::Load(props.clone_for_init()),
            StateChange::ReadyToNull => {
                self.state = None;
                let signal = Signal { id: SignalId::ModelUnloaded, args: Vec::new() };
                assert(signal@.args =~= seq![]);
                let signals: Vec<Signal> = vec![signal];
                assert(signals::emitted(signals@) =~= seq![
                    signals::Emission { id: SignalId::ModelUnloaded, args: seq![] },
                ]);
                ChangeStep::Proceed(signals)
            },
            StateChange::Other => ChangeStep::Proceed(Vec::new()),
        }
    }

    /// Ends a change of state that took a model. With a model the stream starts
    /// afresh, at the rate of the model and with one channel, as the properties
    /// ask; without one, for the reason given, the change fails. Either way there
    /// are signals to emit.
    pub fn load_model(
        &mut self,
        snapshot: &PropertiesSnapshot,
        fetched: Result<Fetched, String>,
    ) -> (told: Result<Vec<Signal>, Vec<Signal>>)
        requires
            old(self).wf(),
        ensures
            final(self).wf(),
            match fetched {
                Ok(fetched) => {
                    let info = setup::facts(
                        snapshot.hf_repo@,
                        fetched.file_name(),
                        fetched.device,
                    );
                    &&& told matches Ok(signals)
                    &&& signals::emitted(signals@) == seq![
                        signals::Emission::of_text(SignalId::ModelLoaded, snapshot.hf_repo@),
                        signals::Emission::of_model(info),
                    ]
                    &&& signals::emitted(signals@) == Stream::loaded(
                        *snapshot,
                        fetched,
                    ).introduction()
                    &&& final(self).stream() == Some(
                        Stream::begun(
                            fetched.config.session(snapshot.enable_vad, snapshot.temperature),
                            info,
                            snapshot.pauses(),
                        ),
                    )
                    &&& final(self).stream() == Some(Stream::loaded(*snapshot, fetched))
                },
                Err(reason) => {
                    &&& told matches Err(signals)
                    &&& signals::emitted(signals@) == seq![
                        signals::Emission::of_text(SignalId::ModelLoadFailed, reason@),
                    ]
                    &&& final(self).stream() == old(self).stream()
                },
            },
    {
        match fetched {
            Ok(fetched) => {
                let model_file = match &fetched.model_file {
                    Some(name) => Some(name.as_str()),
                    None => None,
                };
                let (model, info) = SttModel::load(
                    snapshot.hf_repo.as_str(),
                    model_file,
                    &fetched.config,
                    snapshot.enable_vad,
                    snapshot.temperature,
                    fetched.device,
                );
                let signals: Vec<Signal> = vec![
                    Signal::of_text(SignalId::ModelLoaded, info.hf_repo.clone()),
                    Signal::of_model(&info),
                ];
                assert(signals::emitted(signals@) =~= seq![
                    signals::Emission::of_text(SignalId::ModelLoaded, info.hf_repo@),
                    signals::Emission::of_model(info@),
                ]);
                self.state = Some(
                    State {
                        model,
                        info,
                        pause_detector: PauseDetector::new(snapshot.pause_config()),
                        pcm_buffer: Vec::with_capacity(CHUNK_SAMPLES * 4),
                        segment_idx: 0,
                        sample_position: 0,
                        began: None,
                        input_rate: MODEL_SAMPLE_RATE,
                        input_channels: 1,
                    },
                );
                Ok(signals)
            },
            Err(reason) => {
                let signals: Vec<Signal> = vec![
                    Signal::of_text(SignalId::ModelLoadFailed, reason),
                ];
                assert(signals::emitted(signals@) =~= seq![
                    signals::Emission::of_text(SignalId::ModelLoadFailed, reason@),
                ]);
                Err(signals)
            },
        }
    }

    /// Takes in the rate and the channels of the input. An input at the rate of
    /// the model is taken as it is; any other takes a new resampler, from its rate
    /// to that of the model, for one channel.
    pub fn set_caps(&mut self, rate: i32, channels: i32) -> (step: CapsStep)
        requires
            old(self).wf(),
        ensures
            final(self).wf(),
            match old(self).stream() {
                None => step == CapsStep::Ignored && final(self).stream() is None,
                Some(stream) => {
                    &&& step == if rate == 24_000 {
                        CapsStep::Bypass
                    } else {
                        CapsStep::Resample {
                            from_rate: rate as usize,
                            to_rate: 24_000,
                            chunk: 1920,
                            sub_chunks: 1,
                            channels: 1,
                        }
                    }
                    &&& step == CapsStep::of_rate(rate)
                    &&& final(self).stream() == Some(
                        Stream {
                            input_rate: rate as u32,
                            input_channels: channels as u32,
                            ..stream
                        },
                    )
                    &&& final(self).stream() == Some(stream.negotiated(rate, channels))
                },
            },
    {
        match &mut self.state {
            Some(state) => {
                state.input_rate = rate as u32;
                state.input_channels = channels as u32;
                proof {
                    assert(rate as u32 == 24_000u32 <==> rate == 24_000i32) by (bit_vector);
                }
                if rate as u32 != MODEL_SAMPLE_RATE {
                    CapsStep::Resample {
                        from_rate: rate as usize,
                        to_rate: MODEL_SAMPLE_RATE as usize,
                        chunk: CHUNK_SAMPLES,
                        sub_chunks: 1,
                        channels: 1,
                    }
                } else {
                    CapsStep::Bypass
                }
            },
            None => CapsStep::Ignored,
        }
    }
}

/// What the caller is to do next.
#[derive(Debug, PartialEq, Eq)]
pub enum Work {
    /// Average the two samples of each frame, and go on with
    /// [`KyutaiStt::downmixed`].
    Downmix { frames: Vec<(Binary32, Binary32)> },
    /// Resample these samples, and go on with [`KyutaiStt::resampled`], with or
    /// without an output.
    Resample { mono: Vec<Binary32> },
    /// Find the root mean square of these samples, and go on with
    /// [`KyutaiStt::measured`].
    Measure { chunk: Vec<Binary32> },
    /// Feed these samples to the model, and go on with [`KyutaiStt::inferred`],
    /// or with [`KyutaiStt::failed`] if the model fails.
    Infer { input: Vec<Binary32> },
    /// Write out these words, as [`KyutaiStt::stamps`] and
    /// [`KyutaiStt::build_json_output`] have it, and then tell of them: the
    /// transform is over.
    Deliver { words: Vec<SttWord> },
}

/// What the caller is to do next, as contracts see it.
pub enum Task {
    /// Average the two samples of each frame.
    Downmix(Seq<(Binary32, Binary32)>),
    /// Resample these samples.
    Resample(Seq<Binary32>),
    /// Find the root mean square of these samples.
    Measure(Seq<Binary32>),
    /// Feed these samples to the model.
    Infer(Seq<Binary32>),
    /// Write out these words.
    Deliver(Seq<model::Word>),
}

impl View for Work {
    type V = Task;

    open spec fn view(&self) -> Task {
        match self {
            Work::Downmix { frames } => Task::Downmix(frames@),
            Work::Resample { mono } => Task::Resample(mono@),
            Work::Measure { chunk } => Task::Measure(chunk@),
            Work::Infer { input } => Task::Infer(input@),
            Work::Deliver { words } => Task::Deliver(words@.map_values(|word: SttWord| word@)),
        }
    }
}

/// An answer of the element: signals to emit, in order, and then work to do.
#[derive(Debug, PartialEq, Eq)]
pub struct Turn {
    /// What to emit.
    pub signals: Vec<Signal>,
    /// What to do.
    pub work: Work,
}

enum Stage {
    Downmixing,
    Resampling,
    Measuring(Vec<Binary32>),
    Inferring(ChunkRun),
    Finished,
}

/// A transform call on its way.
pub struct TransformRun {
    stage: Stage,
    words: Vec<SttWord>,
    detect_pauses: bool,
    no_speech_threshold: Binary32,
}

/// What a transform call waits for.
pub enum Step {
    /// The averages of stereo frames.
    Downmixing,
    /// Resampled samples.
    Resampling,
    /// The root mean square of this chunk.
    Measuring(Seq<Binary32>),
    /// What the model says to a part of a chunk.
    Inferring(model::Progress),
    /// Nothing.
    Finished,
}

/// A transform call on its way, as contracts see it.
pub struct Course {
    /// What it waits for.
    pub step: Step,
    /// The words of its chunks so far.
    pub words: Seq<model::Word>,
    /// Whether it looks for pauses.
    pub detect_pauses: bool,
    /// The probability below which there is speech.
    pub no_speech_threshold: Binary32,
}

impl View for TransformRun {
    type V = Course;

    closed spec fn view(&self) -> Course {
        Course {
            step: match self.stage {
                Stage::Downmixing => Step::Downmixing,
                Stage::Resampling => Step::Resampling,
                Stage::Measuring(chunk) => Step::Measuring(chunk@),
                Stage::Inferring(run) => Step::Inferring(run@),
                Stage::Finished => Step::Finished,
            },
            words: self.words@.map_values(|word: SttWord| word@),
            detect_pauses: self.detect_pauses,
            no_speech_threshold: self.no_speech_threshold,
        }
    }
}

impl TransformRun {
    /// A chunk that is to be measured is whole, and one that is on its way
    /// through the model has a part to be fed.
    pub closed spec fn wf(&self) -> bool {
        match self.stage {
            Stage::Measuring(chunk) => chunk@.len() == 1920,
            Stage::Inferring(run) => run@.inputs.len() > 0,
            _ => true,
        }
    }
}

/// What an answer comes to: what is kept, what the call waits for, what is
/// emitted and what is to be done.
pub struct Reaction {
    /// What is kept.
    pub stream: Stream,
    /// What the call waits for.
    pub course: Course,
    /// What is emitted.
    pub signals: Seq<signals::Emission>,
    /// What is to be done.
    pub task: Task,
}

/// The words among a list of events.
pub open spec fn words_among(events: Seq<model::Event>) -> Seq<model::Word>
    decreases events.len(),
{
    if events.len() == 0 {
        seq![]
    } else {
        words_among(events.drop_last()) + match events.last() {
            model::Event::Word(word) => seq![word],
            model::Event::Vad(_) => seq![],
        }
    }
}

/// Whether the voice-activity head hears speech: it finds none less likely than
/// the threshold at its third horizon, or has no such horizon.
pub open spec fn voice(no_speech_probs: Seq<Binary64>, no_speech_threshold: Binary32) -> bool {
    no_speech_probs.len() > 2 ==> no_speech_probs[2].less_than(no_speech_threshold.wide())
}

/// A position in the stream as a time, in nanoseconds.
pub open spec fn position_ns(sample_position: int) -> i64 {
    (sample_position * 1_000_000_000 / 24_000) as i64
}

/// What the voice-activity updates among a list of events are told by.
pub open spec fn verdicts(
    events: Seq<model::Event>,
    sample_position: int,
    no_speech_threshold: Binary32,
) -> Seq<signals::Emission>
    decreases events.len(),
{
    if events.len() == 0 {
        seq![]
    } else {
        verdicts(events.drop_last(), sample_position, no_speech_threshold) + match events.last() {
            model::Event::Word(_) => seq![],
            model::Event::Vad(no_speech_probs) => seq![
                signals::Emission::of_vad(
                    position_ns(sample_position),
                    voice(no_speech_probs, no_speech_threshold),
                ),
            ],
        }
    }
}

/// The samples of the first channel of what a resampler gave, if it gave any.
pub open spec fn first_channel(output: Option<Seq<Seq<Binary32>>>) -> Seq<Binary32> {
    match output {
        Some(channels) if channels.len() > 0 => channels[0],
        _ => seq![],
    }
}

/// A frame of the pause detector that holds a chunk.
pub open spec fn chunk_frame(chunk: Seq<Binary32>, rms: Binary64) -> vad::Frame {
    vad::Frame { samples: chunk.len(), rate: 24_000, rms }
}

impl Stream {
    /// A chunk goes to the model.
    pub open spec fn infer(
        self,
        course: Course,
        signals: Seq<signals::Emission>,
        chunk: Seq<Binary32>,
    ) -> Reaction {
        let inputs = self.model.inputs(chunk);
        Reaction {
            stream: Stream { model: self.model.fed(), ..self },
            course: Course {
                step: Step::Inferring(model::Progress { inputs, events: seq![] }),
                ..course
            },
            signals,
            task: Task::Infer(inputs[0]),
        }
    }

    /// The next chunk is taken from the buffer; where there is none, the call is
    /// over.
    pub open spec fn next_chunk(
        self,
        course: Course,
        signals: Seq<signals::Emission>,
    ) -> Reaction {
        if self.buffer.len() >= 1920 {
            let chunk = self.buffer.take(1920);
            let rest = Stream { buffer: self.buffer.skip(1920), ..self };
            if course.detect_pauses {
                Reaction {
                    stream: rest,
                    course: Course { step: Step::Measuring(chunk), ..course },
                    signals,
                    task: Task::Measure(chunk),
                }
            } else {
                rest.infer(course, signals, chunk)
            }
        } else {
            Reaction {
                stream: self,
                course: Course { step: Step::Finished, words: seq![], ..course },
                signals,
                task: Task::Deliver(course.words),
            }
        }
    }

    /// Samples at the rate of the model have come in.
    pub open spec fn got_samples(self, samples: Seq<Binary32>, props: &Properties) -> Reaction {
        Stream { buffer: self.buffer + samples, ..self }.next_chunk(
            Course {
                step: Step::Finished,
                words: seq![],
                detect_pauses: props.enable_pause_detection,
                no_speech_threshold: props.no_speech_threshold,
            },
            seq![],
        )
    }

    /// Mono samples have come in; those that are not at the rate of the model are
    /// to be resampled first.
    pub open spec fn got_mono(
        self,
        course: Course,
        mono: Seq<Binary32>,
        props: &Properties,
    ) -> Reaction {
        if self.input_rate != 24_000 {
            Reaction {
                stream: self,
                course: Course { step: Step::Resampling, ..course },
                signals: seq![],
                task: Task::Resample(mono),
            }
        } else {
            self.got_samples(mono, props)
        }
    }

    /// Samples have come in at this time. The first of them begin the stream.
    pub open spec fn got_input(
        self,
        samples: Seq<Binary32>,
        props: &Properties,
        now: Binary64,
    ) -> Reaction {
        let course = Course {
            step: Step::Downmixing,
            words: seq![],
            detect_pauses: false,
            no_speech_threshold: Binary32 { bits: 0 },
        };
        if self.input_channels == 2 {
            Reaction {
                stream: self.begun_by(now),
                course,
                signals: seq![],
                task: Task::Downmix(pcm::frames_of(samples)),
            }
        } else {
            self.begun_by(now).got_mono(course, samples, props)
        }
    }

    /// The stream, which begins now if it has not begun.
    pub open spec fn begun_by(self, now: Binary64) -> Stream {
        Stream {
            began: Some(
                match self.began {
                    Some(began) => began,
                    None => now,
                },
            ),
            ..self
        }
    }

    /// What times are counted from when they are written out.
    pub open spec fn since(self, props: &Properties) -> Option<Binary64> {
        if props.use_unix_timestamps {
            self.began
        } else {
            None
        }
    }

    /// Resampling is done; where it failed, or gave no channel, no samples have
    /// come in.
    pub open spec fn got_resampled(
        self,
        output: Option<Seq<Seq<Binary32>>>,
        props: &Properties,
    ) -> Reaction {
        self.got_samples(first_channel(output), props)
    }

    /// A chunk has been measured.
    pub open spec fn got_measure(
        self,
        course: Course,
        chunk: Seq<Binary32>,
        rms: Binary64,
    ) -> Reaction {
        Stream { detector: self.detector.next(chunk_frame(chunk, rms)), ..self }.infer(
            course,
            signals::of_pauses(self.detector.events(chunk_frame(chunk, rms))),
            chunk,
        )
    }

    /// The model is done with a chunk, and these are its events.
    pub open spec fn end_chunk(
        self,
        course: Course,
        events: Seq<model::Event>,
    ) -> Reaction {
        Stream { sample_position: self.sample_position + 1920, ..self }.next_chunk(
            Course { words: course.words + words_among(events), ..course },
            verdicts(events, self.sample_position, course.no_speech_threshold),
        )
    }

    /// The model has made a step of a chunk.
    pub open spec fn got_messages(
        self,
        course: Course,
        progress: model::Progress,
        messages: Seq<model::Msg>,
    ) -> Reaction {
        let inputs = progress.inputs.skip(1);
        let events = progress.events + model::caused_by_all(
            self.model.pending,
            messages,
            self.model.enable_vad,
        );
        let told = Stream { model: self.model.told(messages), ..self };
        if inputs.len() > 0 {
            Reaction {
                stream: told,
                course: Course {
                    step: Step::Inferring(model::Progress { inputs, events }),
                    ..course
                },
                signals: seq![],
                task: Task::Infer(inputs[0]),
            }
        } else {
            told.end_chunk(course, events)
        }
    }

    /// What the model is fed at the end of the stream: what is buffered, and then
    /// silence for as long as the model's delay and a second.
    pub open spec fn flush(self) -> model::Progress {
        model::Progress {
            inputs: self.model.inputs(
                self.buffer + model::silence(self.model.delay_samples + 24_000),
            ),
            events: seq![],
        }
    }

    /// What tells of the words of a flush that caused these events, and of the word
    /// that nothing ended.
    pub open spec fn last_words(self, events: Seq<model::Event>) -> Seq<signals::Emission> {
        of_words(
            words_among(
                events + model::completed(
                    self.model.pending,
                    model::EndTime::AfterStart { milliseconds: 80 },
                ),
            ),
        )
    }

    /// After all that was buffered went to the model.
    pub open spec fn drained(self) -> Stream {
        Stream { model: self.model.fed(), buffer: seq![], ..self }
    }

    /// Whether 64 bits hold the position after a chunk with these events, and
    /// the time that goes with a voice-activity update.
    pub open spec fn can_end_chunk(self, events: Seq<model::Event>) -> bool {
        &&& self.sample_position + 1920 <= u64::MAX
        &&& model::tells_voice(events) ==> self.sample_position * 1_000_000_000 <= i64::MAX
    }

    /// Whether a step of the model with these messages can be taken in.
    pub open spec fn can_take_messages(
        self,
        progress: model::Progress,
        messages: Seq<model::Msg>,
    ) -> bool {
        &&& self.model.enable_vad ==> model::readable(messages)
        &&& progress.inputs.len() == 1 ==> self.can_end_chunk(
            progress.events + model::caused_by_all(
                self.model.pending,
                messages,
                self.model.enable_vad,
            ),
        )
    }
}

impl State {
    /// Hands a chunk to the model.
    fn infer(&mut self, run: &mut TransformRun, chunk: Vec<Binary32>) -> (work: Work)
        requires
            chunk@.len() > 0,
        ensures
            final(run).wf(),
            ({
                let reaction = old(self).stream().infer(old(run)@, seq![], chunk@);
                &&& final(self).stream() == reaction.stream
                &&& final(run)@ == reaction.course
                &&& work@ == reaction.task
            }),
    {
        let ghost inputs = self.model@.inputs(chunk@);
        let progress = self.model.process_chunk(chunk.as_slice());
        proof {
            assert(inputs.len() > 0) by {
                let fed = model::silence(old(self).model@.silence_prefix_remaining) + chunk@;
                assert(fed.len() >= 1);
            }
        }
        let input = match progress.next_input() {
            Some(input) => vstd::slice::slice_to_vec(input.as_slice()),
            None => unreached(),
        };
        run.stage = Stage::Inferring(progress);
        Work::Infer { input }
    }

    /// Takes the next chunk from the buffer, if there is one.
    fn next_chunk(&mut self, run: &mut TransformRun) -> (work: Work)
        ensures
            final(run).wf(),
            ({
                let reaction = old(self).stream().next_chunk(old(run)@, seq![]);
                &&& final(self).stream() == reaction.stream
                &&& final(run)@ == reaction.course
                &&& work@ == reaction.task
            }),
    {
        if self.pcm_buffer.len() >= CHUNK_SAMPLES {
            let mut chunk = self.pcm_buffer.split_off(CHUNK_SAMPLES);
            std::mem::swap(&mut chunk, &mut self.pcm_buffer);
            proof {
                assert(chunk@ =~= old(self).pcm_buffer@.take(1920));
                assert(self.pcm_buffer@ =~= old(self).pcm_buffer@.skip(1920));
            }
            if run.detect_pauses {
                let copy = vstd::slice::slice_to_vec(chunk.as_slice());
                run.stage = Stage::Measuring(chunk);
                Work::Measure { chunk: copy }
            } else {
                self.infer(run, chunk)
            }
        } else {
            let mut words: Vec<SttWord> = Vec::new();
            std::mem::swap(&mut words, &mut run.words);
            run.stage = Stage::Finished;
            assert(run@.words =~= seq![]);
            Work::Deliver { words }
        }
    }

    /// Takes in samples at the rate of the model.
    fn got_samples(
        &mut self,
        run: &mut TransformRun,
        samples: Vec<Binary32>,
        props: &Properties,
    ) -> (work: Work)
        ensures
            final(run).wf(),
            ({
                let reaction = old(self).stream().got_samples(samples@, props);
                &&& final(self).stream() == reaction.stream
                &&& final(run)@ == reaction.course
                &&& work@ == reaction.task
            }),
    {
        let mut samples = samples;
        self.pcm_buffer.append(&mut samples);
        run.stage = Stage::Finished;
        run.words = Vec::new();
        run.detect_pauses = props.enable_pause_detection;
        run.no_speech_threshold = props.no_speech_threshold;
        assert(run@.words =~= seq![]);
        self.next_chunk(run)
    }

    /// Takes in mono samples.
    fn got_mono(
        &mut self,
        run: &mut TransformRun,
        mono: Vec<Binary32>,
        props: &Properties,
    ) -> (work: Work)
        ensures
            final(run).wf(),
            ({
                let reaction = old(self).stream().got_mono(old(run)@, mono@, props);
                &&& final(self).stream() == reaction.stream
                &&& final(run)@ == reaction.course
                &&& work@ == reaction.task
            }),
    {
        if self.input_rate != MODEL_SAMPLE_RATE {
            run.stage = Stage::Resampling;
            Work::Resample { mono }
        } else {
            self.got_samples(run, mono, props)
        }
    }

    /// Takes in the events of a chunk that the model is done with.
    fn end_chunk(&mut self, run: &mut TransformRun, events: Vec<SttEvent>) -> (turn: Turn)
        requires
            old(self).stream().can_end_chunk(model::views(events@)),
        ensures
            final(run).wf(),
            ({
                let reaction = old(self).stream().end_chunk(
                    old(run)@,
                    model::views(events@),
                );
                &&& final(self).stream() == reaction.stream
                &&& final(run)@ == reaction.course
                &&& signals::emitted(turn.signals@) == reaction.signals
                &&& turn.work@ == reaction.task
            }),
    {
        let ghost before = *run;
        let ghost all = model::views(events@);
        let mut signals: Vec<Signal> = Vec::new();
        let mut i: usize = 0;
        proof {
            assert(all.take(0) =~= seq![]);
            assert(run@.words =~= before@.words + words_among(all.take(0)));
            assert(signals::emitted(signals@) =~= verdicts(
                all.take(0),
                self.sample_position as int,
                run.no_speech_threshold,
            ));
        }
        while i < events.len()
            invariant
                i <= events@.len(),
                all == model::views(events@),
                self.stream().can_end_chunk(all),
                *self == *old(self),
                run.stage == before.stage,
                run.detect_pauses == before.detect_pauses,
                run.no_speech_threshold == before.no_speech_threshold,
                run@.words == before@.words + words_among(all.take(i as int)),
                signals::emitted(signals@) == verdicts(
                    all.take(i as int),
                    self.sample_position as int,
                    run.no_speech_threshold,
                ),
            decreases events@.len() - i,
        {
            let ghost words = run.words@;
            let ghost told = signals@;
            proof {
                assert(all.take(i + 1).drop_last() =~= all.take(i as int));
                assert(all.take(i + 1).last() == events@[i as int]@);
            }
            match &events[i] {
                SttEvent::Word(word) => {
                    let copy = SttWord {
                        text: word.text.clone(),
                        start_time: word.start_time,
                        end_time: word.end_time,
                        confidence: word.confidence,
                    };
                    run.words.push(copy);
                    assert(run@.words =~= words.map_values(|word: SttWord| word@).push(word@));
                    assert(run@.words =~= before@.words + words_among(all.take(i + 1)));
                    assert(signals::emitted(signals@) =~= verdicts(
                        all.take(i + 1),
                        self.sample_position as int,
                        run.no_speech_threshold,
                    ));
                },
                SttEvent::Vad(vad) => {
                    assert(all[i as int] is Vad);
                    let is_speech = if vad.no_speech_probs.len() > 2 {
                        vad.no_speech_probs[2].lt(run.no_speech_threshold.widen())
                    } else {
                        true
                    };
                    let ts: i64 = (self.sample_position as i64 * 1_000_000_000)
                        / MODEL_SAMPLE_RATE as i64;
                    signals.push(Signal::of_vad(ts, is_speech));
                    assert(run@.words =~= before@.words + words_among(all.take(i + 1)));
                    assert(signals::emitted(signals@) =~= signals::emitted(
                        told,
                    ).push(
                        signals::Emission::of_vad(
                            position_ns(self.sample_position as int),
                            voice(vad.no_speech_probs@, run.no_speech_threshold),
                        ),
                    ));
                    assert(signals::emitted(signals@) =~= verdicts(
                        all.take(i + 1),
                        self.sample_position as int,
                        run.no_speech_threshold,
                    ));
                },
            }
            i = i + 1;
        }
        assert(all.take(i as int) =~= all);
        self.sample_position = self.sample_position + CHUNK_SAMPLES as u64;
        let work = self.next_chunk(run);
        Turn { signals, work }
    }
}

/// Whether an answer is what it should come to.
pub open spec fn answers(
    element: &KyutaiStt,
    run: &TransformRun,
    turn: &Turn,
    reaction: Reaction,
) -> bool {
    &&& element.stream() == Some(reaction.stream)
    &&& run@ == reaction.course
    &&& signals::emitted(turn.signals@) == reaction.signals
    &&& turn.work@ == reaction.task
    &&& element.wf()
    &&& run.wf()
}

impl KyutaiStt {
    /// Begins a transform call on the bytes of a buffer, in the format that was
    /// negotiated, if any was. `now` is the unix time in seconds. Without a model
    /// the buffer is refused.
    pub fn transform(
        &mut self,
        data: &[u8],
        format: Option<&str>,
        props: &Properties,
        now: Binary64,
    ) -> (begun: Result<(TransformRun, Turn), FlowError>)
        requires
            old(self).wf(),
        ensures
            match old(self).stream() {
                None => {
                    &&& begun == Err::<(TransformRun, Turn), FlowError>(FlowError::NotNegotiated)
                    &&& final(self).stream() is None
                },
                Some(stream) => {
                    &&& begun matches Ok((run, turn))
                    &&& exists|samples: Seq<Binary32>|
                        {
                            &&& #[trigger] pcm::decodes(
                                data@,
                                pcm::optional_text(format),
                                samples,
                            )
                            &&& answers(
                                final(self),
                                &run,
                                &turn,
                                stream.got_input(samples, props, now),
                            )
                        }
                },
            },
    {
        match &mut self.state {
            None => Err(FlowError::NotNegotiated),
            Some(state) => {
                if state.began.is_none() {
                    state.began = Some(now);
                }
                let samples = bytes_to_f32(data, format);
                let mut run = TransformRun {
                    stage: Stage::Downmixing,
                    words: Vec::new(),
                    detect_pauses: false,
                    no_speech_threshold: Binary32 { bits: 0 },
                };
                assert(run@.words =~= seq![]);
                let work = if state.input_channels == 2 {
                    Work::Downmix { frames: stereo_frames(samples.as_slice()) }
                } else {
                    state.got_mono(&mut run, samples, props)
                };
                let signals: Vec<Signal> = Vec::new();
                assert(signals::emitted(signals@) =~= seq![]);
                Ok((run, Turn { signals, work }))
            },
        }
    }

    /// Goes on with the averages of the stereo frames.
    pub fn downmixed(&mut self, run: &mut TransformRun, mono: Vec<Binary32>, props: &Properties)
        -> (turn: Turn)
        requires
            old(self).wf(),
            old(self).stream() is Some,
            old(run).wf(),
            old(run)@.step is Downmixing,
        ensures
            answers(
                final(self),
                final(run),
                &turn,
                old(self).stream().unwrap().got_mono(old(run)@, mono@, props),
            ),
    {
        let signals: Vec<Signal> = Vec::new();
        assert(signals::emitted(signals@) =~= seq![]);
        let work = match &mut self.state {
            Some(state) => state.got_mono(run, mono, props),
            None => unreached(),
        };
        Turn { signals, work }
    }

    /// Goes on with what the resampler gave, channel by channel, or with nothing
    /// if it failed.
    pub fn resampled(
        &mut self,
        run: &mut TransformRun,
        output: Option<Vec<Vec<Binary32>>>,
        props: &Properties,
    ) -> (turn: Turn)
        requires
            old(self).wf(),
            old(self).stream() is Some,
            old(run).wf(),
            old(run)@.step is Resampling,
        ensures
            answers(
                final(self),
                final(run),
                &turn,
                old(self).stream().unwrap().got_resampled(
                    match output {
                        Some(channels) => Some(
                            channels@.map_values(|channel: Vec<Binary32>| channel@),
                        ),
                        None => None,
                    },
                    props,
                ),
            ),
    {
        let signals: Vec<Signal> = Vec::new();
        assert(signals::emitted(signals@) =~= seq![]);
        let mut samples: Vec<Binary32> = Vec::new();
        match &output {
            Some(channels) => {
                if channels.len() > 0 {
                    samples = vstd::slice::slice_to_vec(channels[0].as_slice());
                }
            },
            None => {},
        }
        assert(samples@ =~= first_channel(
            match output {
                Some(channels) => Some(channels@.map_values(|channel: Vec<Binary32>| channel@)),
                None => None,
            },
        ));
        let work = match &mut self.state {
            Some(state) => state.got_samples(run, samples, props),
            None => unreached(),
        };
        Turn { signals, work }
    }

    /// Whether [`KyutaiStt::measured`] can be called, whatever was measured.
    pub fn can_measure(&self, run: &TransformRun) -> (can: bool)
        requires
            self.wf(),
            self.stream() is Some,
            run@.step is Measuring,
        ensures
            forall|rms: Binary64|
                can == #[trigger] self.stream().unwrap().detector.accepts(
                    chunk_frame(run@.step->Measuring_0, rms),
                ),
    {
        match (&self.state, &run.stage) {
            (Some(state), Stage::Measuring(chunk)) => state.pause_detector.can_process(
                chunk.len(),
                MODEL_SAMPLE_RATE,
            ),
            _ => unreached(),
        }
    }

    /// Goes on with the root mean square of the chunk: tells of pauses, and
    /// hands the chunk to the model.
    pub fn measured(&mut self, run: &mut TransformRun, rms: Binary64) -> (turn: Turn)
        requires
            old(self).wf(),
            old(self).stream() is Some,
            old(run).wf(),
            old(run)@.step is Measuring,
            old(self).stream().unwrap().detector.accepts(
                chunk_frame(old(run)@.step->Measuring_0, rms),
            ),
        ensures
            answers(
                final(self),
                final(run),
                &turn,
                old(self).stream().unwrap().got_measure(
                    old(run)@,
                    old(run)@.step->Measuring_0,
                    rms,
                ),
            ),
    {
        let mut stage = Stage::Finished;
        std::mem::swap(&mut stage, &mut run.stage);
        match (&mut self.state, stage) {
            (Some(state), Stage::Measuring(chunk)) => {
                let events = state.pause_detector.process(
                    chunk.as_slice(),
                    rms,
                    MODEL_SAMPLE_RATE,
                );
                let signals = emit_pause_events(&events);
                let work = state.infer(run, chunk);
                Turn { signals, work }
            },
            _ => unreached(),
        }
    }

    /// Goes on with the messages of the step that the model has made. When it
    /// has made its last step of a chunk, tells what its voice-activity head
    /// said, keeps the words, and turns to the next chunk.
    pub fn inferred(&mut self, run: &mut TransformRun, messages: &Vec<AsrMsg>) -> (turn: Turn)
        requires
            old(self).wf(),
            old(self).stream() is Some,
            old(run).wf(),
            old(run)@.step is Inferring,
            old(self).stream().unwrap().can_take_messages(
                old(run)@.step->Inferring_0,
                model::said(messages@),
            ),
        ensures
            answers(
                final(self),
                final(run),
                &turn,
                old(self).stream().unwrap().got_messages(
                    old(run)@,
                    old(run)@.step->Inferring_0,
                    model::said(messages@),
                ),
            ),
    {
        let mut stage = Stage::Finished;
        std::mem::swap(&mut stage, &mut run.stage);
        match (&mut self.state, stage) {
            (Some(state), Stage::Inferring(progress)) => {
                let mut progress = progress;
                state.model.absorb(&mut progress, messages);
                let input = match progress.next_input() {
                    Some(input) => Some(vstd::slice::slice_to_vec(input.as_slice())),
                    None => None,
                };
                match input {
                    Some(input) => {
                        run.stage = Stage::Inferring(progress);
                        let signals: Vec<Signal> = Vec::new();
                        assert(signals::emitted(signals@) =~= seq![]);
                        Turn { signals, work: Work::Infer { input } }
                    },
                    None => {
                        let events = progress.into_events();
                        state.end_chunk(run, events)
                    },
                }
            },
            _ => unreached(),
        }
    }

    /// Whether [`KyutaiStt::failed`] can be called.
    pub fn can_fail(&self) -> (can: bool)
        requires
            self.stream() is Some,
        ensures
            can == (self.stream().unwrap().sample_position + 1920 <= u64::MAX),
    {
        match &self.state {
            Some(state) => state.sample_position <= u64::MAX - CHUNK_SAMPLES as u64,
            None => false,
        }
    }

    /// Goes on after the model has failed: what it said of the chunk is lost.
    pub fn failed(&mut self, run: &mut TransformRun) -> (turn: Turn)
        requires
            old(self).wf(),
            old(self).stream() is Some,
            old(run).wf(),
            old(run)@.step is Inferring,
            old(self).stream().unwrap().sample_position + 1920 <= u64::MAX,
        ensures
            answers(
                final(self),
                final(run),
                &turn,
                old(self).stream().unwrap().end_chunk(old(run)@, seq![]),
            ),
    {
        match &mut self.state {
            Some(state) => {
                let events: Vec<SttEvent> = Vec::new();
                assert(model::views(events@) =~= seq![]);
                state.end_chunk(run, events)
            },
            None => unreached(),
        }
    }
}

/// Signals, one for each word.
pub open spec fn of_words(words: Seq<model::Word>) -> Seq<signals::Emission> {
    words.map_values(|word: model::Word| signals::Emission::of_word(word))
}

/// The signals that tell of words, in order.
pub fn word_signals(words: &Vec<SttWord>) -> (signals: Vec<Signal>)
    ensures
        signals::emitted(signals@) == of_words(words@.map_values(|word: SttWord| word@)),
{
    let mut signals: Vec<Signal> = Vec::new();
    let mut i: usize = 0;
    while i < words.len()
        invariant
            i <= words@.len(),
            signals@.len() == i,
            forall|j: int|
                0 <= j < i ==> (#[trigger] signals@[j])@ == signals::Emission::of_word(
                    words@[j]@,
                ),
        decreases words@.len() - i,
    {
        signals.push(Signal::of_word(&words[i]));
        i = i + 1;
    }
    assert(signals::emitted(signals@) =~= of_words(
        words@.map_values(|word: SttWord| word@),
    ));
    signals
}

impl KyutaiStt {
    /// Whether [`KyutaiStt::inferred`] can be called.
    pub fn can_infer(&self, run: &TransformRun, messages: &Vec<AsrMsg>) -> (can: bool)
        requires
            self.stream() is Some,
            run.wf(),
            run@.step is Inferring,
        ensures
            can == self.stream().unwrap().can_take_messages(
                run@.step->Inferring_0,
                model::said(messages@),
            ),
    {
        match (&self.state, &run.stage) {
            (Some(state), Stage::Inferring(progress)) => {
                if !state.model.can_absorb(messages) {
                    return false;
                }
                if progress.remaining() != 1 {
                    return true;
                }
                state.sample_position <= u64::MAX - CHUNK_SAMPLES as u64 && (
                !state.model.will_tell_voice(progress, messages) || state.sample_position
                    <= 9_223_372_036)
            },
            _ => unreached(),
        }
    }

    /// The words of a transform call as they are to be written out. Where the
    /// properties ask for unix times, every time is counted from when the stream
    /// began; else it is a time of the stream.
    pub fn stamps(&self, words: &Vec<SttWord>, props: &Properties) -> (stamps: Vec<Stamp>)
        requires
            self.stream() is Some,
        ensures
            stamps@.map_values(|stamp: Stamp| stamp@) == transcript::entries(
                words@.map_values(|word: SttWord| word@),
                self.stream().unwrap().since(props),
            ),
    {
        let since = match &self.state {
            Some(state) => if props.use_unix_timestamps {
                state.began
            } else {
                None
            },
            None => unreached(),
        };
        stamp_all(words, since)
    }

    /// The transcript that is written out for the words of a transform call, with
    /// the numbers that the sums of [`KyutaiStt::stamps`] come to. Its segments
    /// are counted.
    pub fn build_json_output(&mut self, words: &Vec<TimedWord>) -> (json: String)
        requires
            old(self).wf(),
            old(self).stream() is Some,
            old(self).stream().unwrap().segment_idx + words@.len() <= u64::MAX,
        ensures
            json@ == transcript::transcript_text(words@),
            words@.len() == 0 ==> json@ == "{\"segments\":[]}"@,
            final(self).stream() == Some(
                Stream {
                    segment_idx: old(self).stream().unwrap().segment_idx + words@.len(),
                    ..old(self).stream().unwrap()
                },
            ),
            final(self).wf(),
    {
        match &mut self.state {
            Some(state) => {
                state.segment_idx = state.segment_idx + words.len() as u64;
            },
            None => unreached(),
        }
        proof {
            if words@.len() == 0 {
                assert(words@ =~= seq![]);
                transcript::silence_has_no_segments();
            }
        }
        write_transcript(words)
    }

    /// Whether [`KyutaiStt::build_json_output`] can be called.
    pub fn can_count(&self, words: usize) -> (can: bool)
        requires
            self.stream() is Some,
        ensures
            can == (self.stream().unwrap().segment_idx + words <= u64::MAX),
    {
        match &self.state {
            Some(state) => state.segment_idx <= u64::MAX - words as u64,
            None => unreached(),
        }
    }

    /// Whether [`KyutaiStt::handle_eos`] can be called.
    pub fn can_flush(&self) -> (can: bool)
        ensures
            can == (self.stream() matches Some(stream) ==> stream.model.delay_samples + 24_000
                <= usize::MAX),
    {
        match &self.state {
            Some(state) => state.model.can_flush(),
            None => true,
        }
    }

    /// Begins to handle the end of the stream: the model is to be fed what is
    /// still buffered, and then silence, so that it gives out what it holds.
    /// Without a model there is nothing to do.
    pub fn handle_eos(&mut self) -> (flush: Option<ChunkRun>)
        requires
            old(self).wf(),
            old(self).stream() matches Some(stream) ==> stream.model.delay_samples + 24_000
                <= usize::MAX,
        ensures
            final(self).wf(),
            match old(self).stream() {
                None => flush is None && final(self).stream() is None,
                Some(stream) => {
                    &&& flush matches Some(run)
                    &&& run@ == stream.flush()
                    &&& final(self).stream() == Some(stream.drained())
                },
            },
    {
        match &mut self.state {
            Some(state) => {
                let mut rest: Vec<Binary32> = Vec::new();
                std::mem::swap(&mut rest, &mut state.pcm_buffer);
                assert(state.pcm_buffer@ =~= seq![]);
                Some(state.model.flush_after(rest))
            },
            None => None,
        }
    }

    /// Whether [`KyutaiStt::flushed`] can be called.
    pub fn can_absorb(&self, messages: &Vec<AsrMsg>) -> (can: bool)
        requires
            self.stream() is Some,
        ensures
            can == (self.stream().unwrap().model.enable_vad ==> model::readable(
                model::said(messages@),
            )),
    {
        match &self.state {
            Some(state) => state.model.can_absorb(messages),
            None => unreached(),
        }
    }

    /// Goes on at the end of the stream with the messages of a step.
    pub fn flushed(&mut self, run: &mut ChunkRun, messages: &Vec<AsrMsg>)
        requires
            old(self).wf(),
            old(self).stream() is Some,
            old(run)@.inputs.len() > 0,
            old(self).stream().unwrap().model.enable_vad ==> model::readable(
                model::said(messages@),
            ),
        ensures
            final(self).wf(),
            ({
                let stream = old(self).stream().unwrap();
                &&& final(run)@ == (model::Progress {
                    inputs: old(run)@.inputs.skip(1),
                    events: old(run)@.events + model::caused_by_all(
                        stream.model.pending,
                        model::said(messages@),
                        stream.model.enable_vad,
                    ),
                })
                &&& final(self).stream() == Some(
                    Stream { model: stream.model.told(model::said(messages@)), ..stream },
                )
            }),
    {
        match &mut self.state {
            Some(state) => state.model.absorb(run, messages),
            None => unreached(),
        }
    }

    /// Ends the handling of the end of the stream: tells of the words that came,
    /// and of the one that nothing ended.
    pub fn end_of_stream(&mut self, run: ChunkRun) -> (signals: Vec<Signal>)
        requires
            old(self).wf(),
            old(self).stream() is Some,
            run@.inputs.len() == 0,
        ensures
            final(self).wf(),
            ({
                let stream = old(self).stream().unwrap();
                &&& signals::emitted(signals@) == stream.last_words(run@.events)
                &&& signals::emitted(signals@) == of_words(
                    words_among(
                        run@.events + model::completed(
                            stream.model.pending,
                            model::EndTime::AfterStart { milliseconds: 80 },
                        ),
                    ),
                )
                &&& final(self).stream() == Some(
                    Stream {
                        model: model::Session { pending: None, ..stream.model },
                        ..stream
                    },
                )
            }),
    {
        let events = match &mut self.state {
            Some(state) => state.model.finish_flush(run),
            None => unreached(),
        };
        let ghost all = model::views(events@);
        let mut signals: Vec<Signal> = Vec::new();
        let mut i: usize = 0;
        assert(signals::emitted(signals@) =~= of_words(words_among(all.take(0))));
        while i < events.len()
            invariant
                i <= events@.len(),
                all == model::views(events@),
                signals::emitted(signals@) == of_words(words_among(all.take(i as int))),
            decreases events@.len() - i,
        {
            let ghost told = signals@;
            proof {
                assert(all.take(i + 1).drop_last() =~= all.take(i as int));
                assert(all.take(i + 1).last() == events@[i as int]@);
            }
            match &events[i] {
                SttEvent::Word(word) => {
                    signals.push(Signal::of_word(word));
                    assert(signals::emitted(signals@) =~= signals::emitted(
                        told,
                    ).push(signals::Emission::of_word(word@)));
                },
                SttEvent::Vad(_) => {},
            }
            assert(signals::emitted(signals@) =~= of_words(
                words_among(all.take(i + 1)),
            ));
            i = i + 1;
        }
        assert(all.take(i as int) =~= all);
        signals
    }
}

} // verus!
