//! What holds of whole transform calls, and of streams of them, whatever the
//! caller comes back with.
use crate::element;
use crate::element::{Course, Reaction, Step, Stream, Task};
use crate::ieee::{Binary32, Binary64};
use crate::model;
use crate::properties;
use crate::signals;
use crate::vad;
use vstd::prelude::*;

verus! {

/// What the caller comes back with while chunks are on their way.
pub enum Reply {
    /// The root mean square of a chunk.
    Measure(Binary64),
    /// The messages of a step of the model.
    Messages(Seq<model::Msg>),
    /// That the model failed.
    Failure,
}

impl Reaction {
    /// What the element answers to a reply that it waits for; to any other it
    /// does not react.
    pub open spec fn to_reply(self, reply: Reply) -> Reaction {
        match (self.course.step, reply) {
            (Step::Measuring(chunk), Reply::Measure(rms)) => self.stream.got_measure(
                self.course,
                chunk,
                rms,
            ),
            (Step::Inferring(progress), Reply::Messages(messages)) => self.stream.got_messages(
                self.course,
                progress,
                messages,
            ),
            (Step::Inferring(_), Reply::Failure) => self.stream.end_chunk(self.course, seq![]),
            _ => self,
        }
    }

    /// What the element answers last to a list of replies.
    pub open spec fn to_replies(self, replies: Seq<Reply>) -> Reaction
        decreases replies.len(),
    {
        if replies.len() == 0 {
            self
        } else {
            self.to_replies(replies.drop_last()).to_reply(replies.last())
        }
    }

    /// The chunk that is with the detector, if there is one.
    pub open spec fn at_detector(self) -> Seq<Binary32> {
        match self.course.step {
            Step::Measuring(chunk) => chunk,
            _ => seq![],
        }
    }

    /// How many samples of the position are still to come: those of the chunk
    /// that is with the model.
    pub open spec fn at_model(self) -> int {
        if self.course.step is Inferring {
            1920
        } else {
            0
        }
    }

    /// The chunk that the model is handed in answer to a reply, if there is one.
    pub open spec fn handed_by(self, reply: Reply) -> Seq<Seq<Binary32>> {
        match (self.course.step, reply) {
            (Step::Measuring(chunk), Reply::Measure(_)) => seq![chunk],
            (Step::Inferring(progress), Reply::Messages(_)) => if progress.inputs.skip(1).len()
                == 0 {
                self.stream.hands_over(self.course.detect_pauses)
            } else {
                seq![]
            },
            (Step::Inferring(_), Reply::Failure) => self.stream.hands_over(
                self.course.detect_pauses,
            ),
            _ => seq![],
        }
    }

    /// Whether this is an answer of a call that had `pending` samples before it,
    /// those that came in after those that were left over in `start`, and of which
    /// the model has been handed these chunks:
    ///
    /// - the chunks, then what is with the detector, then what is buffered are
    ///   these samples;
    /// - every chunk is full, and the position counts those that are done with;
    /// - while a chunk is with the model, it is the last one, and what the model
    ///   has still to be fed is the end of what goes in for that chunk;
    /// - when the call is over, less than a chunk is buffered.
    pub open spec fn accounts_for(
        self,
        start: Stream,
        pending: Seq<Binary32>,
        chunks: Seq<Seq<Binary32>>,
    ) -> bool {
        &&& chunks.flatten() + self.at_detector() + self.stream.buffer == pending
        &&& all_full(chunks)
        &&& self.stream.sample_position + self.at_model() == start.sample_position + 1920
            * chunks.len()
        &&& self.stream.model.silence_prefix_remaining == start.model.fed_all(
            chunks,
        ).silence_prefix_remaining
        &&& self.stream.model.delay_samples == start.model.delay_samples
        &&& self.stream.began == start.began
        &&& match self.course.step {
            Step::Measuring(chunk) => chunk.len() == 1920 && self.task == Task::Measure(chunk),
            Step::Inferring(progress) => {
                let inputs = start.model.fed_all(chunks.drop_last()).inputs(chunks.last());
                &&& chunks.len() > 0
                &&& 0 < progress.inputs.len() <= inputs.len()
                &&& progress.inputs == inputs.skip(inputs.len() - progress.inputs.len())
                &&& self.task == Task::Infer(progress.inputs[0])
            },
            Step::Finished => self.stream.buffer.len() < 1920 && self.task is Deliver,
            _ => false,
        }
    }
}

impl Stream {
    /// The next chunk of the buffer, where it goes to the model at once.
    pub open spec fn hands_over(self, detect_pauses: bool) -> Seq<Seq<Binary32>> {
        if self.buffer.len() >= 1920 && !detect_pauses {
            seq![self.buffer.take(1920)]
        } else {
            seq![]
        }
    }

    /// The chunks that the model is handed in a call up to a list of replies.
    pub open spec fn chunks_handed(
        self,
        samples: Seq<Binary32>,
        props: &properties::Properties,
        replies: Seq<Reply>,
    ) -> Seq<Seq<Binary32>>
        decreases replies.len(),
    {
        if replies.len() == 0 {
            Stream { buffer: self.buffer + samples, ..self }.hands_over(
                props.enable_pause_detection,
            )
        } else {
            self.chunks_handed(samples, props, replies.drop_last()) + self.got_samples(
                samples,
                props,
            ).to_replies(replies.drop_last()).handed_by(replies.last())
        }
    }
}

/// Whether every chunk is full.
pub open spec fn all_full(chunks: Seq<Seq<Binary32>>) -> bool {
    forall|i: int| 0 <= i < chunks.len() ==> (#[trigger] chunks[i]).len() == 1920
}

proof fn full_chunks_count(chunks: Seq<Seq<Binary32>>)
    requires
        all_full(chunks),
    ensures
        chunks.flatten().len() == 1920 * chunks.len(),
    decreases chunks.len(),
{
    if chunks.len() > 0 {
        full_chunks_count(chunks.drop_last());
        chunks.drop_last().lemma_flatten_push(chunks.last());
        assert(chunks.drop_last().push(chunks.last()) =~= chunks);
    }
}

proof fn infer_accounts(
    stream: Stream,
    course: Course,
    signals: Seq<signals::Emission>,
    chunk: Seq<Binary32>,
    start: Stream,
    pending: Seq<Binary32>,
    chunks: Seq<Seq<Binary32>>,
)
    requires
        chunk.len() == 1920,
        chunks.flatten() + chunk + stream.buffer == pending,
        all_full(chunks),
        stream.sample_position == start.sample_position + 1920 * chunks.len(),
        stream.model.silence_prefix_remaining == start.model.fed_all(
            chunks,
        ).silence_prefix_remaining,
        stream.model.delay_samples == start.model.delay_samples,
        stream.began == start.began,
    ensures
        stream.infer(course, signals, chunk).accounts_for(start, pending, chunks.push(chunk)),
{
    let after = stream.infer(course, signals, chunk);
    let inputs = stream.model.inputs(chunk);
    let handed = chunks.push(chunk);
    chunks.lemma_flatten_push(chunk);
    assert(handed.drop_last() =~= chunks);
    assert(handed.flatten() + after.at_detector() + after.stream.buffer =~= pending);
    assert(inputs.len() > 0);
    assert(inputs.skip(0) =~= inputs);
}

proof fn next_chunk_accounts(
    stream: Stream,
    course: Course,
    signals: Seq<signals::Emission>,
    start: Stream,
    pending: Seq<Binary32>,
    chunks: Seq<Seq<Binary32>>,
)
    requires
        chunks.flatten() + stream.buffer == pending,
        all_full(chunks),
        stream.sample_position == start.sample_position + 1920 * chunks.len(),
        stream.model.silence_prefix_remaining == start.model.fed_all(
            chunks,
        ).silence_prefix_remaining,
        stream.model.delay_samples == start.model.delay_samples,
        stream.began == start.began,
    ensures
        stream.next_chunk(course, signals).accounts_for(
            start,
            pending,
            chunks + stream.hands_over(course.detect_pauses),
        ),
{
    let after = stream.next_chunk(course, signals);
    let handed = stream.hands_over(course.detect_pauses);
    if stream.buffer.len() >= 1920 {
        let chunk = stream.buffer.take(1920);
        let rest = Stream { buffer: stream.buffer.skip(1920), ..stream };
        assert(chunk + rest.buffer =~= stream.buffer);
        assert(chunks.flatten() + chunk + rest.buffer =~= pending);
        if course.detect_pauses {
            assert(chunks + handed =~= chunks);
        } else {
            assert(chunks + handed =~= chunks.push(chunk));
            infer_accounts(rest, course, signals, chunk, start, pending, chunks);
        }
    } else {
        assert(chunks + handed =~= chunks);
        assert(chunks.flatten() + after.at_detector() + after.stream.buffer =~= pending);
    }
}

/// No sample of a call is lost, repeated or reordered: at every point the samples
/// that came in, after those that had been left over, are those of the chunks that
/// the model was handed, then those with the detector, then those that are
/// buffered; what the model is fed is what goes in for these chunks; and when the
/// call is over, less than a chunk is buffered.
pub proof fn samples_are_accounted_for(
    stream: Stream,
    samples: Seq<Binary32>,
    props: &properties::Properties,
    replies: Seq<Reply>,
)
    ensures
        stream.got_samples(samples, props).to_replies(replies).accounts_for(
            stream,
            stream.buffer + samples,
            stream.chunks_handed(samples, props, replies),
        ),
    decreases replies.len(),
{
    let pending = stream.buffer + samples;
    if replies.len() == 0 {
        let none = Seq::<Seq<Binary32>>::empty();
        assert(none.flatten() + pending =~= pending);
        let full = Stream { buffer: pending, ..stream };
        assert(none + full.hands_over(props.enable_pause_detection) =~= full.hands_over(
            props.enable_pause_detection,
        ));
        next_chunk_accounts(
            full,
            Course {
                step: Step::Finished,
                words: seq![],
                detect_pauses: props.enable_pause_detection,
                no_speech_threshold: props.no_speech_threshold,
            },
            seq![],
            stream,
            pending,
            none,
        );
    } else {
        let earlier = replies.drop_last();
        samples_are_accounted_for(stream, samples, props, earlier);
        let before = stream.got_samples(samples, props).to_replies(earlier);
        let chunks = stream.chunks_handed(samples, props, earlier);
        let handed = before.handed_by(replies.last());
        match (before.course.step, replies.last()) {
            (Step::Measuring(chunk), Reply::Measure(rms)) => {
                let frame = element::chunk_frame(chunk, rms);
                assert(chunks + handed =~= chunks.push(chunk));
                infer_accounts(
                    Stream { detector: before.stream.detector.next(frame), ..before.stream },
                    before.course,
                    signals::of_pauses(before.stream.detector.events(frame)),
                    chunk,
                    stream,
                    pending,
                    chunks,
                );
            },
            (Step::Inferring(progress), Reply::Messages(messages)) => {
                let told = Stream { model: before.stream.model.told(messages), ..before.stream };
                let events = progress.events + model::caused_by_all(
                    before.stream.model.pending,
                    messages,
                    before.stream.model.enable_vad,
                );
                assert(chunks.flatten() + before.at_detector() + before.stream.buffer
                    =~= chunks.flatten() + before.stream.buffer);
                let inputs = stream.model.fed_all(chunks.drop_last()).inputs(chunks.last());
                let left = progress.inputs.skip(1);
                if left.len() == 0 {
                    next_chunk_accounts(
                        Stream { sample_position: told.sample_position + 1920, ..told },
                        Course {
                            words: before.course.words + element::words_among(events),
                            ..before.course
                        },
                        element::verdicts(
                            events,
                            told.sample_position,
                            before.course.no_speech_threshold,
                        ),
                        stream,
                        pending,
                        chunks,
                    );
                } else {
                    assert(chunks + handed =~= chunks);
                    assert(left =~= inputs.skip(inputs.len() - left.len()));
                }
            },
            (Step::Inferring(_), Reply::Failure) => {
                assert(chunks.flatten() + before.at_detector() + before.stream.buffer
                    =~= chunks.flatten() + before.stream.buffer);
                next_chunk_accounts(
                    Stream {
                        sample_position: before.stream.sample_position + 1920,
                        ..before.stream
                    },
                    Course {
                        words: before.course.words + element::words_among(seq![]),
                        ..before.course
                    },
                    element::verdicts(
                        seq![],
                        before.stream.sample_position,
                        before.course.no_speech_threshold,
                    ),
                    stream,
                    pending,
                    chunks,
                );
            },
            _ => {
                assert(chunks + handed =~= chunks);
            },
        }
    }
}

/// A chunk that the model is handed is one that it begins to be fed, all of it,
/// and it begins to be fed nothing else.
pub proof fn handed_chunks_enter_the_model(before: Reaction, reply: Reply)
    ensures
        before.handed_by(reply).len() <= 1,
        before.handed_by(reply).len() == 1 ==> {
            let after = before.to_reply(reply);
            let inputs = before.stream.model.inputs(before.handed_by(reply)[0]);
            &&& after.course.step == Step::Inferring(model::Progress { inputs, events: seq![] })
            &&& after.task == Task::Infer(inputs[0])
        },
        before.handed_by(reply).len() == 0 ==> {
            before.to_reply(reply).course.step matches Step::Inferring(after) ==> {
                &&& before.course.step matches Step::Inferring(progress)
                &&& after.inputs == progress.inputs || after.inputs == progress.inputs.skip(1)
            }
        },
{
}

/// What is left over when a call is over is what does not fill a chunk.
pub proof fn a_call_leaves_the_remainder(
    stream: Stream,
    samples: Seq<Binary32>,
    props: &properties::Properties,
    replies: Seq<Reply>,
)
    requires
        stream.got_samples(samples, props).to_replies(replies).course.step is Finished,
    ensures
        ({
            let after = stream.got_samples(samples, props).to_replies(replies).stream;
            let left = (stream.buffer.len() + samples.len()) % 1920;
            &&& after.buffer == (stream.buffer + samples).skip(
                stream.buffer.len() + samples.len() - left,
            )
            &&& after.sample_position == stream.sample_position + stream.buffer.len()
                + samples.len() - left
        }),
{
    samples_are_accounted_for(stream, samples, props, replies);
    let chunks = stream.chunks_handed(samples, props, replies);
    full_chunks_count(chunks);
    let after = stream.got_samples(samples, props).to_replies(replies);
    let pending = stream.buffer + samples;
    let rest = after.stream.buffer.len();
    assert(pending.len() == 1920 * chunks.len() + rest);
    assert(pending.skip(pending.len() - rest) =~= after.stream.buffer);
}

/// A transform call: what was negotiated for it, what came in, and what the caller
/// came back with.
pub struct Call {
    /// The rate of the input.
    pub input_rate: u32,
    /// The channels of the input.
    pub input_channels: u32,
    /// The samples that the bytes of the buffer decode to.
    pub decoded: Seq<Binary32>,
    /// The averages of their stereo frames, if they were asked for.
    pub averages: Seq<Binary32>,
    /// What the resampler gave, if it was asked.
    pub output: Option<Seq<Seq<Binary32>>>,
    /// The properties.
    pub props: properties::Properties,
    /// The unix time.
    pub now: Binary64,
    /// What the caller came back with while chunks were on their way.
    pub replies: Seq<Reply>,
}

impl Call {
    /// The samples of the call at the rate of the model, in one channel.
    pub open spec fn converted(self) -> Seq<Binary32> {
        if self.input_rate != 24_000 {
            element::first_channel(self.output)
        } else if self.input_channels == 2 {
            self.averages
        } else {
            self.decoded
        }
    }
}

/// The samples of a list of calls, one after the other.
pub open spec fn all_converted(calls: Seq<Call>) -> Seq<Binary32>
    decreases calls.len(),
{
    if calls.len() == 0 {
        seq![]
    } else {
        all_converted(calls.drop_last()) + calls.last().converted()
    }
}

impl Stream {
    /// The stream as a call finds it: what was negotiated is known, and it has
    /// begun.
    pub open spec fn found_by(self, call: Call) -> Stream {
        Stream {
            input_rate: call.input_rate,
            input_channels: call.input_channels,
            ..self
        }.begun_by(call.now)
    }

    /// What the element answers once the samples of a call are converted: it asks
    /// for averages where there are two channels, and for resampling where the
    /// rate is not that of the model.
    pub open spec fn first_answer(self, call: Call) -> Reaction {
        let known = Stream {
            input_rate: call.input_rate,
            input_channels: call.input_channels,
            ..self
        };
        let asked = known.got_input(call.decoded, &call.props, call.now);
        let mixed = if asked.course.step is Downmixing {
            asked.stream.got_mono(asked.course, call.averages, &call.props)
        } else {
            asked
        };
        if mixed.course.step is Resampling {
            mixed.stream.got_resampled(call.output, &call.props)
        } else {
            mixed
        }
    }

    /// What the element answers last in a call.
    pub open spec fn last_answer(self, call: Call) -> Reaction {
        self.first_answer(call).to_replies(call.replies)
    }

    /// After a call, whose words have been written out and counted.
    #[verifier::opaque]
    pub open spec fn after_call(self, call: Call) -> Stream {
        let last = self.last_answer(call);
        Stream {
            segment_idx: last.stream.segment_idx + last.words_so_far().len(),
            ..last.stream
        }
    }

    /// After a list of calls.
    pub open spec fn after_calls(self, calls: Seq<Call>) -> Stream
        decreases calls.len(),
    {
        if calls.len() == 0 {
            self
        } else {
            self.after_calls(calls.drop_last()).after_call(calls.last())
        }
    }

    /// Whether every call of a list came to its end.
    pub open spec fn completes(self, calls: Seq<Call>) -> bool
        decreases calls.len(),
    {
        calls.len() > 0 ==> {
            &&& self.completes(calls.drop_last())
            &&& self.after_calls(calls.drop_last()).last_answer(
                calls.last(),
            ).course.step is Finished
        }
    }

    /// The chunks that the model is handed in a call.
    #[verifier::opaque]
    pub open spec fn chunks_of_call(self, call: Call) -> Seq<Seq<Binary32>> {
        self.found_by(call).chunks_handed(call.converted(), &call.props, call.replies)
    }

    /// The chunks that the model is handed in a list of calls.
    pub open spec fn chunks_of(self, calls: Seq<Call>) -> Seq<Seq<Binary32>>
        decreases calls.len(),
    {
        if calls.len() == 0 {
            seq![]
        } else {
            self.chunks_of(calls.drop_last()) + self.after_calls(
                calls.drop_last(),
            ).chunks_of_call(calls.last())
        }
    }
}

/// Whatever the input is, a call goes on with samples at the rate of the model, in
/// one channel: samples at another rate never come into the stream.
pub proof fn conversion_comes_first(stream: Stream, call: Call)
    ensures
        stream.first_answer(call) == stream.found_by(call).got_samples(
            call.converted(),
            &call.props,
        ),
{
}

proof fn call_accounts(stream: Stream, call: Call)
    requires
        stream.last_answer(call).course.step is Finished,
    ensures
        stream.chunks_of_call(call).flatten() + stream.after_call(call).buffer == stream.buffer
            + call.converted(),
        all_full(stream.chunks_of_call(call)),
        stream.after_call(call).buffer.len() < 1920,
        stream.after_call(call).sample_position == stream.sample_position + 1920
            * stream.chunks_of_call(call).len(),
        stream.after_call(call).model.silence_prefix_remaining == if stream.chunks_of_call(
            call,
        ).len() == 0 {
            stream.model.silence_prefix_remaining
        } else {
            0
        },
        stream.after_call(call).model.delay_samples == stream.model.delay_samples,
{
    reveal(Stream::after_call);
    reveal(Stream::chunks_of_call);
    let found = stream.found_by(call);
    let chunks = stream.chunks_of_call(call);
    conversion_comes_first(stream, call);
    samples_are_accounted_for(found, call.converted(), &call.props, call.replies);
    fed_all_leaves_no_silence(found.model, chunks);
    let last = stream.last_answer(call);
    assert(chunks.flatten() + last.at_detector() + last.stream.buffer =~= chunks.flatten()
        + last.stream.buffer);
}

/// No sample is lost, repeated or reordered over any number of calls: the chunks
/// that the model was handed, and then what is buffered, are what was buffered at
/// first, and then the samples of all the calls. Every chunk is full, less than a
/// chunk is left, and the position counts the chunks.
pub proof fn no_sample_is_lost(stream: Stream, calls: Seq<Call>)
    requires
        stream.completes(calls),
        stream.buffer.len() < 1920,
    ensures
        stream.chunks_of(calls).flatten() + stream.after_calls(calls).buffer == stream.buffer
            + all_converted(calls),
        all_full(stream.chunks_of(calls)),
        stream.after_calls(calls).buffer.len() < 1920,
        stream.after_calls(calls).sample_position == stream.sample_position + 1920
            * stream.chunks_of(calls).len(),
        stream.after_calls(calls).model.silence_prefix_remaining == stream.model.fed_all(
            stream.chunks_of(calls),
        ).silence_prefix_remaining,
        stream.after_calls(calls).model.delay_samples == stream.model.delay_samples,
    decreases calls.len(),
{
    let chunks = stream.chunks_of(calls);
    let end = stream.after_calls(calls);
    if calls.len() == 0 {
        assert(chunks.flatten() + end.buffer =~= stream.buffer + all_converted(calls));
    } else {
        let earlier = calls.drop_last();
        let call = calls.last();
        no_sample_is_lost(stream, earlier);
        let between = stream.after_calls(earlier);
        let old_chunks = stream.chunks_of(earlier);
        let new_chunks = between.chunks_of_call(call);
        call_accounts(between, call);
        vstd::seq_lib::lemma_flatten_concat(old_chunks, new_chunks);
        fed_all_leaves_no_silence(stream.model, old_chunks);
        fed_all_leaves_no_silence(stream.model, chunks);
        assert(chunks =~= old_chunks + new_chunks);
        assert(chunks.flatten() + end.buffer =~= old_chunks.flatten() + (new_chunks.flatten()
            + end.buffer));
        assert(old_chunks.flatten() + (between.buffer + call.converted()) =~= (
        old_chunks.flatten() + between.buffer) + call.converted());
        assert((stream.buffer + all_converted(earlier)) + call.converted() =~= stream.buffer
            + all_converted(calls));
    }
}

proof fn fed_all_leaves_no_silence(session: model::Session, chunks: Seq<Seq<Binary32>>)
    ensures
        session.fed_all(chunks).silence_prefix_remaining == if chunks.len() == 0 {
            session.silence_prefix_remaining
        } else {
            0
        },
{
}

/// Every sample goes to the model: what goes in for the chunks of any number of
/// calls and at the end of the stream is the silence that goes before the stream,
/// then what was buffered at first and the samples of all the calls, and then the
/// silence of the flush. After that nothing is buffered. A model that fails on a
/// chunk is not fed the rest of that chunk.
pub proof fn every_sample_goes_to_the_model(stream: Stream, calls: Seq<Call>)
    requires
        stream.completes(calls),
        stream.buffer.len() < 1920,
    ensures
        ({
            let end = stream.after_calls(calls);
            let suffix = model::silence(stream.model.delay_samples + 24_000);
            let chunks = stream.chunks_of(calls);
            &&& end.flush().inputs == stream.model.fed_all(chunks).inputs(end.buffer + suffix)
            &&& stream.model.audio(chunks.push(end.buffer + suffix)) == model::silence(
                stream.model.silence_prefix_remaining,
            ) + (stream.buffer + all_converted(calls)) + suffix
            &&& end.drained().buffer.len() == 0
        }),
{
    let end = stream.after_calls(calls);
    let suffix = model::silence(stream.model.delay_samples + 24_000);
    let chunks = stream.chunks_of(calls);
    let lead = model::silence(stream.model.silence_prefix_remaining);
    no_sample_is_lost(stream, calls);
    model::silence_leads_the_stream(stream.model, chunks.push(end.buffer + suffix));
    chunks.lemma_flatten_push(end.buffer + suffix);
    assert(chunks.flatten() + (end.buffer + suffix) =~= (chunks.flatten() + end.buffer) + suffix);
    assert(lead + ((stream.buffer + all_converted(calls)) + suffix) =~= lead + (stream.buffer
        + all_converted(calls)) + suffix);
}

/// The stream begins with its first call, whatever calls follow, and that is what
/// unix times are counted from.
pub proof fn the_stream_begins_once(
    stream: Stream,
    calls: Seq<Call>,
    props: &properties::Properties,
)
    requires
        stream.began is None,
        calls.len() > 0,
    ensures
        stream.after_calls(calls).began == Some(calls[0].now),
        stream.after_calls(calls).since(props) == if props.use_unix_timestamps {
            Some(calls[0].now)
        } else {
            None
        },
    decreases calls.len(),
{
    let earlier = calls.drop_last();
    let call = calls.last();
    let between = stream.after_calls(earlier);
    reveal(Stream::after_call);
    conversion_comes_first(between, call);
    samples_are_accounted_for(
        between.found_by(call),
        call.converted(),
        &call.props,
        call.replies,
    );
    if earlier.len() > 0 {
        the_stream_begins_once(stream, earlier, props);
    }
}

/// All that a call emits has the types that it was declared with.
pub proof fn calls_emit_what_is_declared(
    stream: Stream,
    samples: Seq<Binary32>,
    props: &properties::Properties,
    replies: Seq<Reply>,
)
    ensures
        ({
            let signals = stream.got_samples(samples, props).to_replies(replies).signals;
            forall|i: int| 0 <= i < signals.len() ==> (#[trigger] signals[i]).conforms()
        }),
    decreases replies.len(),
{
    if replies.len() > 0 {
        calls_emit_what_is_declared(stream, samples, props, replies.drop_last());
        let before = stream.got_samples(samples, props).to_replies(replies.drop_last());
        match (before.course.step, replies.last()) {
            (Step::Measuring(chunk), Reply::Measure(rms)) => {
                let events = before.stream.detector.events(
                    element::chunk_frame(chunk, rms),
                );
                assert forall|i: int| 0 <= i < events.len() implies (
                #[trigger] signals::of_pauses(events)[i]).conforms() by {
                    signals::pause_signals_conform(events[i]);
                }
            },
            (Step::Inferring(progress), Reply::Messages(messages)) => {
                let events = progress.events + model::caused_by_all(
                    before.stream.model.pending,
                    messages,
                    before.stream.model.enable_vad,
                );
                verdicts_conform(
                    events,
                    before.stream.sample_position,
                    before.course.no_speech_threshold,
                );
            },
            (Step::Inferring(_), Reply::Failure) => {
                verdicts_conform(
                    seq![],
                    before.stream.sample_position,
                    before.course.no_speech_threshold,
                );
            },
            _ => {},
        }
    }
}

proof fn verdicts_conform(
    events: Seq<model::Event>,
    sample_position: int,
    no_speech_threshold: Binary32,
)
    ensures
        forall|i: int|
            0 <= i < element::verdicts(
                events,
                sample_position,
                no_speech_threshold,
            ).len() ==> (#[trigger] element::verdicts(
                events,
                sample_position,
                no_speech_threshold,
            )[i]).conforms(),
    decreases events.len(),
{
    if events.len() > 0 {
        verdicts_conform(events.drop_last(), sample_position, no_speech_threshold);
        let earlier = element::verdicts(
            events.drop_last(),
            sample_position,
            no_speech_threshold,
        );
        let all = element::verdicts(events, sample_position, no_speech_threshold);
        assert forall|i: int| 0 <= i < earlier.len() implies (#[trigger] all[i]).conforms() by {
            assert(all[i] == earlier[i]);
        }
        match events.last() {
            model::Event::Vad(probs) => {
                signals::vad_signals_conform(
                    element::position_ns(sample_position),
                    element::voice(probs, no_speech_threshold),
                );
            },
            _ => {},
        }
    }
}

impl Reaction {
    /// The words that the call has so far.
    pub open spec fn words_so_far(self) -> Seq<model::Word> {
        match self.task {
            Task::Deliver(words) => words,
            _ => self.course.words,
        }
    }

    /// The words that a reply adds: when it ends a chunk, those of the chunk; of
    /// a chunk on which the model fails, none.
    pub open spec fn words_of_reply(self, reply: Reply) -> Seq<model::Word> {
        match (self.course.step, reply) {
            (Step::Inferring(progress), Reply::Messages(messages)) => if progress.inputs.skip(
                1,
            ).len() == 0 {
                element::words_among(
                    progress.events + model::caused_by_all(
                        self.stream.model.pending,
                        messages,
                        self.stream.model.enable_vad,
                    ),
                )
            } else {
                seq![]
            },
            _ => seq![],
        }
    }

    /// The words that a list of replies adds.
    pub open spec fn words_of_replies(self, replies: Seq<Reply>) -> Seq<model::Word>
        decreases replies.len(),
    {
        if replies.len() == 0 {
            seq![]
        } else {
            self.words_of_replies(replies.drop_last()) + self.to_replies(
                replies.drop_last(),
            ).words_of_reply(replies.last())
        }
    }
}

/// A call delivers the words of all chunks that went through the model, in
/// order; a chunk on which the model failed costs its own words and no others.
pub proof fn words_are_kept(
    stream: Stream,
    samples: Seq<Binary32>,
    props: &properties::Properties,
    replies: Seq<Reply>,
)
    ensures
        ({
            let start = stream.got_samples(samples, props);
            &&& start.to_replies(replies).words_so_far() == start.words_of_replies(replies)
            &&& start.to_replies(replies).task is Deliver <==> start.to_replies(
                replies,
            ).course.step is Finished
        }),
    decreases replies.len(),
{
    let start = stream.got_samples(samples, props);
    if replies.len() > 0 {
        words_are_kept(stream, samples, props, replies.drop_last());
        let before = start.to_replies(replies.drop_last());
        let words = before.words_so_far();
        assert(words + seq![] =~= words);
        assert(element::words_among(seq![]) =~= seq![]);
    }
}

/// A chunk is a frame of 80 ms to the pause detector.
pub proof fn chunks_last_80_ms(chunk: Seq<Binary32>, rms: Binary64)
    requires
        chunk.len() == 1920,
    ensures
        vad::lasts(element::chunk_frame(chunk, rms), 80),
{
}

/// The voice-activity head hears speech exactly if its third probability is, as a
/// number, less than the threshold, whatever the other ones are; without a third
/// one it does.
pub proof fn the_third_horizon_alone_decides(
    probs: Seq<Binary64>,
    threshold: Binary32,
    same: Binary64,
)
    requires
        threshold.is_widened(same),
    ensures
        probs.len() > 2 ==> (element::voice(probs, threshold) <==> !probs[2].is_nan()
            && !same.is_nan() && probs[2].scaled() < same.scaled()),
        probs.len() > 2 && threshold.magnitude() < 0x7f80_0000 ==> (element::voice(probs, threshold)
            <==> !probs[2].is_nan() && probs[2].scaled() < threshold.scaled()
            * vstd::arithmetic::power2::pow2(925)),
        probs.len() <= 2 ==> element::voice(probs, threshold),
{
    crate::ieee::widening_exists(threshold);
    crate::ieee::widening_is_unique(threshold, same, threshold.wide());
}

/// The verdicts of two updates with the same third probability are the same.
pub proof fn other_horizons_do_not_matter(
    a: Seq<Binary64>,
    b: Seq<Binary64>,
    threshold: Binary32,
)
    requires
        a.len() > 2,
        b.len() > 2,
        a[2] == b[2],
    ensures
        element::voice(a, threshold) == element::voice(b, threshold),
{
    crate::ieee::widening_exists(threshold);
    the_third_horizon_alone_decides(a, threshold, threshold.wide());
    the_third_horizon_alone_decides(b, threshold, threshold.wide());
}

/// Every voice-activity update is told by one verdict, in order, with the time of
/// the chunk in whole nanoseconds; a word is told by none.
pub proof fn every_update_has_its_verdict(
    events: Seq<model::Event>,
    probs: Seq<Binary64>,
    word: model::Word,
    sample_position: int,
    threshold: Binary32,
)
    requires
        0 <= sample_position,
        sample_position * 1_000_000_000 <= i64::MAX,
    ensures
        ({
            let before = element::verdicts(events, sample_position, threshold);
            let after = element::verdicts(
                events.push(model::Event::Vad(probs)),
                sample_position,
                threshold,
            );
            &&& element::verdicts(seq![], sample_position, threshold).len() == 0
            &&& after.len() == before.len() + 1
            &&& after.drop_last() == before
            &&& after.last().id.called() == "vad-speech-detected"@
            &&& after.last().args.len() == 2
            &&& after.last().args[0] matches signals::Arg::Int64(time)
            &&& time * 24_000 <= sample_position * 1_000_000_000 < (time + 1) * 24_000
            &&& after.last().args[1] == signals::Arg::Flag(element::voice(probs, threshold))
            &&& element::verdicts(
                events.push(model::Event::Word(word)),
                sample_position,
                threshold,
            ) == before
        }),
{
    let before = element::verdicts(events, sample_position, threshold);
    let more = events.push(model::Event::Vad(probs));
    let after = element::verdicts(more, sample_position, threshold);
    assert(more.drop_last() =~= events);
    assert(after.drop_last() =~= before);
    assert(events.push(model::Event::Word(word)).drop_last() =~= events);
    assert(element::verdicts(events.push(model::Event::Word(word)), sample_position, threshold)
        =~= before);
}

/// The words among events are all of them, in order.
pub proof fn no_word_is_passed_over(
    events: Seq<model::Event>,
    word: model::Word,
    probs: Seq<Binary64>,
)
    ensures
        element::words_among(seq![]).len() == 0,
        element::words_among(events.push(model::Event::Word(word))) == element::words_among(
            events,
        ).push(word),
        element::words_among(events.push(model::Event::Vad(probs))) == element::words_among(events),
{
    let (a, b) = (events.push(model::Event::Word(word)), events.push(model::Event::Vad(probs)));
    assert(a.drop_last() =~= events && b.drop_last() =~= events);
    assert(element::words_among(a) =~= element::words_among(events).push(word));
    assert(element::words_among(b) =~= element::words_among(events));
}

/// Every word is told once, in order, and by itself.
pub proof fn every_word_has_its_signal(words: Seq<model::Word>, word: model::Word)
    ensures
        element::of_words(seq![]).len() == 0,
        element::of_words(words.push(word)) == element::of_words(words).push(
            signals::Emission::of_word(word),
        ),
{
    assert(element::of_words(words.push(word)) =~= element::of_words(words).push(
        signals::Emission::of_word(word),
    ));
}

/// What the answer to a reply emits. A measure is told by what the detector reports
/// of the chunk, as a frame of its samples at the rate of the model. What the model
/// says of a chunk is told when it is done with the chunk, at the position of the
/// chunk, and against the threshold of the call; a failure is told by nothing. The
/// detector hears measures alone.
pub proof fn replies_are_told(before: Reaction, reply: Reply)
    ensures
        ({
            let after = before.to_reply(reply);
            match (before.course.step, reply) {
                (Step::Measuring(chunk), Reply::Measure(rms)) => {
                    let frame = vad::Frame { samples: chunk.len(), rate: 24_000, rms };
                    &&& after.signals == signals::of_pauses(before.stream.detector.events(frame))
                    &&& after.stream.detector == before.stream.detector.next(frame)
                },
                (Step::Inferring(progress), Reply::Messages(messages)) => {
                    &&& after.stream.detector == before.stream.detector
                    &&& progress.inputs.len() > 1 ==> after.signals.len() == 0
                    &&& progress.inputs.len() == 1 ==> after.signals == element::verdicts(
                        progress.events + model::caused_by_all(
                            before.stream.model.pending,
                            messages,
                            before.stream.model.enable_vad,
                        ),
                        before.stream.sample_position,
                        before.course.no_speech_threshold,
                    )
                    &&& after.stream.model.pending == model::pending_after_all(
                        before.stream.model.pending,
                        messages,
                    )
                },
                (Step::Inferring(_), Reply::Failure) => {
                    &&& after.stream.detector == before.stream.detector
                    &&& after.signals.len() == 0
                    &&& after.stream.model.pending == before.stream.model.pending
                },
                _ => after == before,
            }
        }),
{
}

/// A call looks for pauses if it is asked to, and judges voices by the threshold
/// that it is given, from its first answer to its last; where it does not look for
/// pauses, no chunk goes to the detector.
pub proof fn calls_do_as_they_are_asked(
    stream: Stream,
    samples: Seq<Binary32>,
    props: &properties::Properties,
    replies: Seq<Reply>,
)
    ensures
        ({
            let last = stream.got_samples(samples, props).to_replies(replies);
            &&& last.course.detect_pauses == props.enable_pause_detection
            &&& last.course.no_speech_threshold == props.no_speech_threshold
            &&& !props.enable_pause_detection ==> !(last.course.step is Measuring)
                && last.stream.detector == stream.detector
            &&& last.stream.model.enable_vad == stream.model.enable_vad
            &&& last.stream.model.temperature == stream.model.temperature
            &&& last.stream.info == stream.info
            &&& last.stream.segment_idx == stream.segment_idx
        }),
    decreases replies.len(),
{
    if replies.len() > 0 {
        calls_do_as_they_are_asked(stream, samples, props, replies.drop_last());
    }
}

/// What is asked for before samples come in: the averages of the frames of stereo
/// samples, and samples of the rate of the model for mono samples of another rate.
/// Nothing is told meanwhile, and the stream stays as it was, but that it begins.
pub proof fn conversions_are_asked_for(stream: Stream, call: Call)
    ensures
        ({
            let known = Stream {
                input_rate: call.input_rate,
                input_channels: call.input_channels,
                ..stream
            };
            let asked = known.got_input(call.decoded, &call.props, call.now);
            let mixed = stream.found_by(call).got_mono(asked.course, call.averages, &call.props);
            &&& call.input_channels == 2 ==> {
                &&& asked.task matches Task::Downmix(frames)
                &&& frames.len() == call.decoded.len() / 2
                &&& forall|i: int|
                    0 <= i < frames.len() ==> #[trigger] frames[i] == (
                        call.decoded[2 * i],
                        call.decoded[2 * i + 1],
                    )
                &&& asked.signals.len() == 0
                &&& asked.stream == stream.found_by(call)
                &&& call.input_rate != 24_000 ==> mixed.task == Task::Resample(call.averages)
                    && mixed.stream == stream.found_by(call) && mixed.signals.len() == 0
            }
            &&& call.input_channels != 2 && call.input_rate != 24_000 ==> {
                &&& asked.task == Task::Resample(call.decoded)
                &&& asked.signals.len() == 0
                &&& asked.stream == stream.found_by(call)
            }
        }),
{
}

/// A stream that has just begun has nothing buffered and nothing counted, takes
/// mono samples at the rate of the model, and listens with the configuration that it
/// was given, from silence on.
pub proof fn streams_begin_afresh(
    session: model::Session,
    info: crate::setup::Facts,
    config: vad::PauseDetectorConfig,
)
    ensures
        ({
            let stream = Stream::begun(session, info, config);
            &&& stream.model == session
            &&& stream.info == info
            &&& stream.detector.config == config
            &&& stream.detector == vad::Listening::fresh(config)
            &&& !stream.detector.is_speech && stream.detector.position_ns == 0
            &&& stream.buffer.len() == 0
            &&& stream.segment_idx == 0 && stream.sample_position == 0
            &&& stream.began is None
            &&& stream.input_rate == 24_000 && stream.input_channels == 1
        }),
{
}

/// A model is loaded as the properties ask: the stream starts afresh, listens to the
/// voice-activity head as `enable-vad` has it, samples with the `temperature`, comes
/// from the `model` that was asked for, and detects pauses with the values of the
/// properties for that, by their names.
pub proof fn loads_do_as_they_are_asked(
    props: &properties::Properties,
    snapshot: properties::PropertiesSnapshot,
    fetched: crate::setup::Fetched,
    id: properties::PropertyId,
)
    requires
        snapshot.taken_from(props),
    ensures
        ({
            let stream = Stream::loaded(snapshot, fetched);
            let pauses = stream.detector.config;
            let value = props.holds(id);
            &&& id.called() == "enable-vad"@ ==> value == properties::Setting::Flag(
                stream.model.enable_vad,
            )
            &&& id.called() == "temperature"@ ==> {
                &&& value matches properties::Setting::Float(temperature)
                &&& temperature.is_widened(stream.model.temperature)
            }
            &&& id.called() == "model"@ ==> value == properties::Setting::Text(
                Some(stream.info.hf_repo),
            )
            &&& id.called() == "pause-energy-threshold"@ ==> value == properties::Setting::Double(
                pauses.energy_threshold,
            )
            &&& id.called() == "pause-min-duration"@ ==> properties::holds_number(
                value,
                pauses.min_pause_ms,
            )
            &&& id.called() == "boundary-min-duration"@ ==> properties::holds_number(
                value,
                pauses.min_boundary_ms,
            )
            &&& id.called() == "turn-silence-threshold"@ ==> properties::holds_number(
                value,
                pauses.turn_silence_ms,
            )
            &&& id.called() == "min-turn-speech-duration"@ ==> properties::holds_number(
                value,
                pauses.min_turn_speech_ms,
            )
            &&& id.called() == "signal-speech-hysteresis"@ ==> properties::holds_number(
                value,
                pauses.speech_hysteresis_ms,
            )
            &&& id.called() == "signal-silence-hysteresis"@ ==> properties::holds_number(
                value,
                pauses.silence_hysteresis_ms,
            )
            &&& stream.info.gpu_enabled <==> !(fetched.device is Cpu)
            &&& stream.info.quantized <==> exists|stem: Seq<char>|
                fetched.file_name() == Some(#[trigger] (stem + ".gguf"@))
            &&& crate::setup::whole_samples(
                stream.model.silence_prefix_remaining,
                fetched.config.stt_config.audio_silence_prefix_samples,
            )
            &&& crate::setup::whole_samples(
                stream.model.delay_samples,
                fetched.config.stt_config.audio_delay_samples,
            )
            &&& stream.model.pending is None
            &&& stream.buffer.len() == 0 && stream.sample_position == 0 && stream.segment_idx == 0
            &&& stream.input_rate == 24_000 && stream.input_channels == 1
            &&& stream.began is None
        }),
{
    properties::loading_follows_the_properties(props, &snapshot, id);
    crate::setup::sessions_follow_the_configuration(
        fetched.config,
        snapshot.enable_vad,
        snapshot.temperature,
    );
    crate::setup::models_are_described_truly(
        snapshot.hf_repo@,
        fetched.file_name(),
        fetched.device,
    );
}

/// What was negotiated is known, and nothing else changes. An input is resampled
/// exactly if its rate is not that of the model: from its rate to that of the model,
/// a chunk at a time, in one channel.
pub proof fn negotiations_are_known(stream: Stream, rate: i32, channels: i32)
    requires
        rate >= 0,
        channels >= 0,
    ensures
        ({
            let known = stream.negotiated(rate, channels);
            &&& known.input_rate == rate
            &&& known.input_channels == channels
            &&& known.model == stream.model && known.info == stream.info && known.detector
                == stream.detector && known.buffer == stream.buffer
            &&& known.segment_idx == stream.segment_idx && known.sample_position
                == stream.sample_position && known.began == stream.began
        }),
        match element::CapsStep::of_rate(rate) {
            element::CapsStep::Ignored => false,
            element::CapsStep::Bypass => rate == 24_000,
            element::CapsStep::Resample { from_rate, to_rate, chunk, sub_chunks, channels } => {
                &&& rate != 24_000
                &&& from_rate == rate && to_rate == 24_000
                &&& chunk == 1920 && sub_chunks == 1 && channels == 1
            },
        },
{
}

/// The end of the stream feeds the model what is buffered, then silence for its
/// delay and a second, and leaves nothing buffered; all else stays as it was, but
/// that no silence is left to go before the stream.
pub proof fn ends_feed_what_is_left(stream: Stream)
    requires
        stream.model.silence_prefix_remaining == 0,
    ensures
        stream.flush().events.len() == 0,
        stream.flush().inputs.flatten() == stream.buffer + model::silence(
            stream.model.delay_samples + 24_000,
        ),
        stream.drained() == (Stream { buffer: seq![], ..stream }),
{
    let rest = stream.buffer + model::silence(stream.model.delay_samples + 24_000);
    model::a_chunk_is_fed_whole(stream.model, rest);
    assert(model::silence(0) + rest =~= rest);
}

/// A model that was loaded is told twice: first with where it came from, and then in
/// full.
pub proof fn models_are_introduced(stream: Stream)
    ensures
        stream.introduction().len() == 2,
        stream.introduction()[0].id.called() == "model-loaded"@,
        stream.introduction()[0].args.len() == 1,
        stream.introduction()[0].args[0] == signals::Arg::Text(stream.info.hf_repo),
        stream.introduction()[1].id.called() == "model-info"@,
        stream.introduction()[1] == signals::Emission::of_model(stream.info),
{
}

/// What a resampler gave is its first channel; where it gave none, or failed, it is
/// nothing.
pub proof fn the_first_channel_counts(channels: Seq<Seq<Binary32>>)
    ensures
        channels.len() > 0 ==> element::first_channel(Some(channels)) == channels[0],
        channels.len() == 0 ==> element::first_channel(Some(channels)).len() == 0,
        element::first_channel(None).len() == 0,
{
}

/// At the end of the stream every word that came is told, in order, and then the one
/// that nothing ended, if there is one, as lasting 80 ms.
pub proof fn the_end_tells_what_is_left(stream: Stream, events: Seq<model::Event>)
    ensures
        match stream.model.pending {
            None => stream.last_words(events) == element::of_words(element::words_among(events)),
            Some(word) => exists|told: model::Word|
                {
                    &&& stream.last_words(events) == element::of_words(
                        element::words_among(events),
                    ).push(#[trigger] signals::Emission::of_word(told))
                    &&& model::tells_word(
                        model::Event::Word(told),
                        word,
                        model::EndTime::AfterStart { milliseconds: 80 },
                    )
                },
        },
{
    let end_time = model::EndTime::AfterStart { milliseconds: 80 };
    let words = element::words_among(events);
    match stream.model.pending {
        None => {
            assert(events + model::completed(None, end_time) =~= events);
        },
        Some(word) => {
            model::the_last_word_is_told_whole(word, end_time);
            let event = model::completed(Some(word), end_time)[0];
            let told = event->Word_0;
            assert(events + model::completed(Some(word), end_time) =~= events.push(event));
            no_word_is_passed_over(events, told, seq![]);
            every_word_has_its_signal(words, told);
            assert(stream.last_words(events) == element::of_words(words).push(
                signals::Emission::of_word(told),
            ));
        },
    }
}

} // verus!
