//! What surrounds the speech-to-text model: its input and its messages.
//!
//! The model itself is run by the caller, one step at a time. The library
//! decides what each step is fed, and turns the messages of a step into words
//! and voice-activity updates.
use crate::ieee::{Binary32, Binary64};
use crate::pcm::cut;
use vstd::prelude::*;

verus! {

/// Silence that follows the model's delay when a stream is flushed, in samples.
pub const FLUSH_SAMPLES: usize = 24_000;

/// How long a word lasts that nothing ended, in milliseconds.
pub const LAST_WORD_MS: u64 = 80;

/// When a word ends.
#[derive(Clone, Copy, Debug, PartialEq, Eq, Structural)]
pub enum EndTime {
    /// At this many seconds.
    At(Binary64),
    /// This long after its start.
    AfterStart { milliseconds: u64 },
}

/// Decoded word with timing information, in seconds.
#[derive(Clone, Debug, PartialEq, Eq)]
pub struct SttWord {
    /// What was said.
    pub text: String,
    /// When it starts.
    pub start_time: Binary64,
    /// When it ends.
    pub end_time: EndTime,
    /// How sure the model is, from zero to one.
    pub confidence: Binary64,
}

/// A word, as contracts see it.
pub struct Word {
    /// What was said.
    pub text: Seq<char>,
    /// When it starts.
    pub start_time: Binary64,
    /// When it ends.
    pub end_time: EndTime,
    /// How sure the model is.
    pub confidence: Binary64,
}

impl View for SttWord {
    type V = Word;

    open spec fn view(&self) -> Word {
        Word {
            text: self.text@,
            start_time: self.start_time,
            end_time: self.end_time,
            confidence: self.confidence,
        }
    }
}

/// VAD probability update from the model's built-in VAD head.
#[derive(Clone, Debug, PartialEq, Eq)]
pub struct VadUpdate {
    /// Probability of no voice activity at various horizons.
    /// Index 0 = ~0.5s, 1 = ~1s, 2 = ~2s, 3 = ~3s.
    pub no_speech_probs: Vec<Binary64>,
}

/// Events emitted by the model during inference.
#[derive(Clone, Debug, PartialEq, Eq)]
pub enum SttEvent {
    /// A word is complete.
    Word(SttWord),
    /// The voice-activity head has spoken.
    Vad(VadUpdate),
}

/// An event, as contracts see it.
pub enum Event {
    /// A word is complete.
    Word(Word),
    /// The probabilities of the voice-activity head.
    Vad(Seq<Binary64>),
}

impl View for SttEvent {
    type V = Event;

    open spec fn view(&self) -> Event {
        match self {
            SttEvent::Word(word) => Event::Word(word@),
            SttEvent::Vad(vad) => Event::Vad(vad.no_speech_probs@),
        }
    }
}

/// The events of a list, as contracts see them.
pub open spec fn views(events: Seq<SttEvent>) -> Seq<Event> {
    events.map_values(|event: SttEvent| event@)
}

/// What a step of the model says.
#[derive(Debug, PartialEq, Eq)]
pub enum AsrMsg {
    /// A step was made; for each horizon, the probabilities of its head.
    Step { prs: Vec<Vec<Binary32>> },
    /// A word was heard. It has no text where its tokens could not be decoded.
    Word { text: Option<String>, start_time: Binary64 },
    /// The last word has ended.
    EndWord { stop_time: Binary64 },
}

/// A message, as contracts see it.
pub enum Msg {
    /// A step was made.
    Step { prs: Seq<Seq<Binary32>> },
    /// A word was heard.
    Word { text: Option<Seq<char>>, start_time: Binary64 },
    /// The last word has ended.
    EndWord { stop_time: Binary64 },
}

impl View for AsrMsg {
    type V = Msg;

    open spec fn view(&self) -> Msg {
        match self {
            AsrMsg::Step { prs } => Msg::Step {
                prs: prs@.map_values(|p: Vec<Binary32>| p@),
            },
            AsrMsg::Word { text, start_time } => Msg::Word {
                text: match text {
                    Some(text) => Some(text@),
                    None => None,
                },
                start_time: *start_time,
            },
            AsrMsg::EndWord { stop_time } => Msg::EndWord { stop_time: *stop_time },
        }
    }
}

/// The messages of a list, as contracts see them.
pub open spec fn said(messages: Seq<AsrMsg>) -> Seq<Msg> {
    messages.map_values(|message: AsrMsg| message@)
}

/// A word that was heard and has not ended.
pub struct Pending {
    /// What was said; nothing where it could not be decoded.
    pub text: Seq<char>,
    /// When it starts.
    pub start_time: Binary64,
}

/// The event that completes a pending word, if there is one.
pub open spec fn completed(pending: Option<Pending>, end_time: EndTime) -> Seq<Event> {
    match pending {
        Some(word) => seq![
            Event::Word(
                Word {
                    text: word.text,
                    start_time: word.start_time,
                    end_time,
                    confidence: Binary64::unity(),
                },
            ),
        ],
        None => seq![],
    }
}

/// What one message causes.
pub open spec fn caused(pending: Option<Pending>, message: Msg, enable_vad: bool) -> Seq<Event> {
    match message {
        Msg::Step { prs } => if enable_vad {
            seq![Event::Vad(prs.map_values(|p: Seq<Binary32>| p[0].wide()))]
        } else {
            seq![]
        },
        Msg::EndWord { stop_time } => completed(pending, EndTime::At(stop_time)),
        Msg::Word { start_time, .. } => completed(pending, EndTime::At(start_time)),
    }
}

/// The word that is pending after one message.
pub open spec fn pending_after(pending: Option<Pending>, message: Msg) -> Option<Pending> {
    match message {
        Msg::Step { .. } => pending,
        Msg::EndWord { .. } => None,
        Msg::Word { text, start_time } => Some(
            Pending {
                text: match text {
                    Some(text) => text,
                    None => Seq::empty(),
                },
                start_time,
            },
        ),
    }
}

/// The word that is pending after a list of messages.
pub open spec fn pending_after_all(pending: Option<Pending>, messages: Seq<Msg>) -> Option<Pending>
    decreases messages.len(),
{
    if messages.len() == 0 {
        pending
    } else {
        pending_after(pending_after_all(pending, messages.drop_last()), messages.last())
    }
}

/// What a list of messages causes, in order.
pub open spec fn caused_by_all(
    pending: Option<Pending>,
    messages: Seq<Msg>,
    enable_vad: bool,
) -> Seq<Event>
    decreases messages.len(),
{
    if messages.len() == 0 {
        seq![]
    } else {
        caused_by_all(pending, messages.drop_last(), enable_vad) + caused(
            pending_after_all(pending, messages.drop_last()),
            messages.last(),
            enable_vad,
        )
    }
}

/// Whether every horizon of every step has a probability.
pub open spec fn readable(messages: Seq<Msg>) -> bool {
    forall|i: int|
        0 <= i < messages.len() ==> (#[trigger] messages[i] matches Msg::Step { prs } ==> forall|
            j: int,
        |
            0 <= j < prs.len() ==> (#[trigger] prs[j]).len() > 0)
}

/// Whether there is a voice-activity update among the events.
pub open spec fn tells_voice(events: Seq<Event>) -> bool {
    exists|i: int| 0 <= i < events.len() && #[trigger] events[i] is Vad
}

/// Samples of silence.
pub open spec fn silence(samples: nat) -> Seq<Binary32> {
    Seq::new(samples, |i: int| Binary32 { bits: 0 })
}

/// What is kept between steps of the model, as contracts see it.
pub struct Session {
    /// Whether the voice-activity head is listened to.
    pub enable_vad: bool,
    /// The temperature that the model samples with.
    pub temperature: Binary64,
    /// Samples of silence still to be fed before the stream.
    pub silence_prefix_remaining: nat,
    /// The model's delay, in samples.
    pub delay_samples: nat,
    /// The word that has not ended.
    pub pending: Option<Pending>,
}

impl Session {
    /// Before the first chunk.
    pub open spec fn begun(
        enable_vad: bool,
        temperature: Binary64,
        silence_prefix: nat,
        delay_samples: nat,
    ) -> Session {
        Session {
            enable_vad,
            temperature,
            silence_prefix_remaining: silence_prefix,
            delay_samples,
            pending: None,
        }
    }

    /// After a chunk was taken in: no silence is left to go before the stream.
    pub open spec fn fed(self) -> Session {
        Session { silence_prefix_remaining: 0, ..self }
    }

    /// What the model is fed for `pcm`, step by step: the silence that is still to
    /// go before the stream, and then `pcm`.
    pub open spec fn inputs(self, pcm: Seq<Binary32>) -> Seq<Seq<Binary32>> {
        crate::pcm::pieces(silence(self.silence_prefix_remaining) + pcm, 1920)
    }

    /// After a list of messages.
    pub open spec fn told(self, messages: Seq<Msg>) -> Session {
        Session { pending: pending_after_all(self.pending, messages), ..self }
    }
}

/// A chunk on its way through the model.
pub struct ChunkRun {
    inputs: Vec<Vec<Binary32>>,
    events: Vec<SttEvent>,
}

/// A chunk on its way, as contracts see it.
pub struct Progress {
    /// What the model has still to be fed.
    pub inputs: Seq<Seq<Binary32>>,
    /// What it has caused so far.
    pub events: Seq<Event>,
}

impl View for ChunkRun {
    type V = Progress;

    closed spec fn view(&self) -> Progress {
        Progress {
            inputs: self.inputs@.map_values(|piece: Vec<Binary32>| piece@),
            events: views(self.events@),
        }
    }
}

impl ChunkRun {
    /// The samples that the model is to be fed next, while there are any.
    pub fn next_input(&self) -> (input: Option<&Vec<Binary32>>)
        ensures
            match input {
                Some(samples) => self@.inputs.len() > 0 && samples@ == self@.inputs[0],
                None => self@.inputs.len() == 0,
            },
    {
        if self.inputs.len() > 0 {
            Some(&self.inputs[0])
        } else {
            None
        }
    }

    /// How many steps the model has still to make.
    pub fn remaining(&self) -> (steps: usize)
        ensures
            steps == self@.inputs.len(),
    {
        self.inputs.len()
    }

    /// What the chunk has caused.
    pub fn into_events(self) -> (events: Vec<SttEvent>)
        ensures
            views(events@) == self@.events,
    {
        self.events
    }
}

/// What is kept between steps of the model.
pub struct SttModel {
    enable_vad: bool,
    temperature: Binary64,
    silence_prefix_remaining: usize,
    delay_samples: usize,
    pending_word: Option<(String, Binary64)>,
}

impl View for SttModel {
    type V = Session;

    closed spec fn view(&self) -> Session {
        Session {
            enable_vad: self.enable_vad,
            temperature: self.temperature,
            silence_prefix_remaining: self.silence_prefix_remaining as nat,
            delay_samples: self.delay_samples as nat,
            pending: match self.pending_word {
                Some((text, start_time)) => Some(Pending { text: text@, start_time }),
                None => None,
            },
        }
    }
}

fn zeros(samples: usize) -> (zeros: Vec<Binary32>)
    ensures
        zeros@ == silence(samples as nat),
{
    let mut zeros: Vec<Binary32> = Vec::new();
    let mut i: usize = 0;
    while i < samples
        invariant
            i <= samples,
            zeros@ == silence(i as nat),
        decreases samples - i,
    {
        zeros.push(Binary32 { bits: 0 });
        i = i + 1;
        assert(silence(i as nat) =~= silence((i - 1) as nat).push(Binary32 { bits: 0 }));
    }
    zeros
}

impl SttModel {
    /// A session before its first chunk.
    pub fn begin(
        enable_vad: bool,
        temperature: Binary64,
        silence_prefix: usize,
        delay_samples: usize,
    ) -> (model: SttModel)
        ensures
            model@ == Session::begun(
                enable_vad,
                temperature,
                silence_prefix as nat,
                delay_samples as nat,
            ),
    {
        SttModel {
            enable_vad,
            temperature,
            silence_prefix_remaining: silence_prefix,
            delay_samples,
            pending_word: None,
        }
    }

    /// The temperature that the model samples with.
    pub fn temperature(&self) -> (temperature: Binary64)
        ensures
            temperature == self@.temperature,
    {
        self.temperature
    }

    /// Takes in a chunk of PCM audio (24kHz, mono), which is fed to the model in
    /// steps of at most 1920 samples. All the silence that goes before the stream
    /// comes before its first chunk.
    pub fn process_chunk(&mut self, pcm: &[Binary32]) -> (run: ChunkRun)
        ensures
            run@ == (Progress { inputs: old(self)@.inputs(pcm@), events: seq![] }),
            final(self)@ == old(self)@.fed(),
    {
        let mut input = zeros(self.silence_prefix_remaining);
        let mut samples = vstd::slice::slice_to_vec(pcm);
        input.append(&mut samples);
        self.silence_prefix_remaining = 0;
        let inputs = cut(input.as_slice());
        let events: Vec<SttEvent> = Vec::new();
        assert(views(events@) =~= seq![]);
        ChunkRun { inputs, events }
    }

    /// Whether [`SttModel::absorb`] can take in the messages.
    pub fn can_absorb(&self, messages: &Vec<AsrMsg>) -> (can: bool)
        ensures
            can == (self@.enable_vad ==> readable(said(messages@))),
    {
        if !self.enable_vad {
            return true;
        }
        let ghost all = said(messages@);
        let mut i: usize = 0;
        while i < messages.len()
            invariant
                i <= messages@.len(),
                all == said(messages@),
                self@.enable_vad,
                readable(all.take(i as int)),
            decreases messages@.len() - i,
        {
            assert(all[i as int] == messages@[i as int]@);
            match &messages[i] {
                AsrMsg::Step { prs } => {
                    let ghost rows = prs@.map_values(|p: Vec<Binary32>| p@);
                    let mut j: usize = 0;
                    while j < prs.len()
                        invariant
                            i < messages@.len(),
                            all == said(messages@),
                            all[i as int] == (Msg::Step { prs: rows }),
                            self@.enable_vad,
                            j <= prs@.len(),
                            rows == prs@.map_values(|p: Vec<Binary32>| p@),
                            forall|k: int| 0 <= k < j ==> (#[trigger] rows[k]).len() > 0,
                        decreases prs@.len() - j,
                    {
                        if prs[j].len() == 0 {
                            proof {
                                if readable(all) {
                                    let heads = all[i as int]->prs;
                                    assert(heads[j as int].len() > 0);
                                }
                            }
                            return false;
                        }
                        j = j + 1;
                    }
                },
                _ => {},
            }
            proof {
                assert forall|k: int| 0 <= k < i + 1 implies (#[trigger] all.take(
                    i + 1,
                )[k] matches Msg::Step { prs } ==> forall|j: int|
                    0 <= j < prs.len() ==> (#[trigger] prs[j]).len() > 0) by {
                    if k < i {
                        assert(all.take(i as int)[k] == all.take(i + 1)[k]);
                    }
                }
            }
            i = i + 1;
        }
        assert(all.take(i as int) =~= all);
        true
    }

    /// Whether a chunk will have caused a voice-activity update once the
    /// messages are taken in.
    pub fn will_tell_voice(&self, run: &ChunkRun, messages: &Vec<AsrMsg>) -> (tells: bool)
        ensures
            tells == tells_voice(
                run@.events + caused_by_all(self@.pending, said(messages@), self@.enable_vad),
            ),
    {
        let ghost events = views(run.events@);
        let ghost all = said(messages@);
        proof {
            voice_follows_steps(self@.pending, all, self@.enable_vad);
        }
        let ghost caused = caused_by_all(self@.pending, all, self@.enable_vad);
        let mut i: usize = 0;
        while i < run.events.len()
            invariant
                i <= run.events@.len(),
                events == views(run.events@),
                run@.events == events,
                forall|k: int| 0 <= k < i ==> !(#[trigger] events[k] is Vad),
                caused == caused_by_all(self@.pending, said(messages@), self@.enable_vad),
            decreases run.events@.len() - i,
        {
            assert(events[i as int] == run.events@[i as int]@);
            match &run.events[i] {
                SttEvent::Vad(_) => {
                    assert((events + caused)[i as int] is Vad);
                    return true;
                },
                SttEvent::Word(_) => {},
            }
            i = i + 1;
        }
        let mut found = false;
        if self.enable_vad {
            let mut j: usize = 0;
            while j < messages.len() && !found
                invariant
                    j <= messages@.len(),
                    all == said(messages@),
                    !found ==> forall|k: int| 0 <= k < j ==> !(#[trigger] all[k] is Step),
                    found ==> exists|k: int| 0 <= k < all.len() && #[trigger] all[k] is Step,
                decreases messages@.len() - j,
            {
                assert(all[j as int] == messages@[j as int]@);
                match &messages[j] {
                    AsrMsg::Step { .. } => {
                        found = true;
                    },
                    _ => {},
                }
                j = j + 1;
            }
        }
        proof {
            if found {
                let k = choose|k: int| 0 <= k < caused.len() && #[trigger] caused[k] is Vad;
                assert((events + caused)[events.len() + k] is Vad);
            } else {
                assert forall|k: int| 0 <= k < (events + caused).len() implies !(#[trigger] (events
                    + caused)[k] is Vad) by {
                    if k >= events.len() {
                        assert(!(caused[k - events.len()] is Vad));
                    }
                }
            }
        }
        found
    }

    /// Takes in the messages of the step that was fed the next input.
    pub fn absorb(&mut self, run: &mut ChunkRun, messages: &Vec<AsrMsg>)
        requires
            old(run)@.inputs.len() > 0,
            old(self)@.enable_vad ==> readable(said(messages@)),
        ensures
            final(run)@ == (Progress {
                inputs: old(run)@.inputs.skip(1),
                events: old(run)@.events + caused_by_all(
                    old(self)@.pending,
                    said(messages@),
                    old(self)@.enable_vad,
                ),
            }),
            final(self)@ == old(self)@.told(said(messages@)),
    {
        let ghost before = self@;
        let ghost start = *run;
        let ghost all = said(messages@);
        let mut i: usize = 0;
        assert(views(run.events@) + seq![] =~= views(run.events@));
        while i < messages.len()
            invariant
                i <= messages@.len(),
                all == said(messages@),
                before.enable_vad ==> readable(all),
                start@.inputs.len() > 0,
                self@ == before.told(all.take(i as int)),
                run.inputs == start.inputs,
                views(run.events@) == views(start.events@) + caused_by_all(
                    before.pending,
                    all.take(i as int),
                    before.enable_vad,
                ),
            decreases messages@.len() - i,
        {
            let ghost taken = all.take(i as int);
            let ghost events = run.events@;
            proof {
                assert(all.take(i + 1).drop_last() =~= taken);
                assert(all.take(i + 1).last() == messages@[i as int]@);
            }
            match &messages[i] {
                AsrMsg::Step { prs } => {
                    if self.enable_vad {
                        proof {
                            let rows = prs@.map_values(|p: Vec<Binary32>| p@);
                            assert(all[i as int] == (Msg::Step { prs: rows }));
                            assert forall|j: int| 0 <= j < prs@.len() implies (
                            #[trigger] prs@[j])@.len() > 0 by {
                                assert(rows[j].len() > 0);
                            }
                        }
                        let no_speech_probs = first_of_each(prs);
                        run.events.push(SttEvent::Vad(VadUpdate { no_speech_probs }));
                    }
                },
                AsrMsg::EndWord { stop_time } => {
                    self.complete(&mut run.events, EndTime::At(*stop_time));
                },
                AsrMsg::Word { text, start_time } => {
                    self.complete(&mut run.events, EndTime::At(*start_time));
                    let word = match text {
                        Some(text) => text.clone(),
                        None => String::new(),
                    };
                    self.pending_word = Some((word, *start_time));
                },
            }
            proof {
                assert(views(run.events@) =~= views(events) + caused(
                    pending_after_all(before.pending, taken),
                    all[i as int],
                    before.enable_vad,
                ));
                assert(views(run.events@) =~= views(start.events@) + caused_by_all(
                    before.pending,
                    all.take(i + 1),
                    before.enable_vad,
                ));
            }
            i = i + 1;
        }
        assert(run@.inputs.len() > 0);
        run.inputs.remove(0);
        proof {
            assert(all.take(i as int) =~= all);
            assert(run@.inputs =~= start@.inputs.skip(1));
        }
    }

    /// Completes the pending word, if there is one.
    fn complete(&mut self, events: &mut Vec<SttEvent>, end_time: EndTime)
        ensures
            views(final(events)@) == views(old(events)@) + completed(old(self)@.pending, end_time),
            final(self)@ == (Session { pending: None, ..old(self)@ }),
    {
        let ghost before = events@;
        match self.pending_word.take() {
            Some((text, start_time)) => {
                events.push(
                    SttEvent::Word(
                        SttWord { text, start_time, end_time, confidence: Binary64::one() },
                    ),
                );
            },
            None => {},
        }
        assert(views(events@) =~= views(before) + completed(old(self)@.pending, end_time));
    }

    /// Whether [`SttModel::flush`] can be called.
    pub fn can_flush(&self) -> (can: bool)
        ensures
            can == (self@.delay_samples + FLUSH_SAMPLES <= usize::MAX),
    {
        self.delay_samples <= usize::MAX - FLUSH_SAMPLES
    }

    /// Begins to flush what the model still holds, by feeding it silence. Call
    /// this at the end of the stream.
    pub fn flush(&mut self) -> (run: ChunkRun)
        requires
            old(self)@.delay_samples + FLUSH_SAMPLES <= usize::MAX,
        ensures
            run@ == (Progress {
                inputs: old(self)@.inputs(silence(old(self)@.delay_samples + 24_000)),
                events: seq![],
            }),
            final(self)@ == old(self)@.fed(),
    {
        let rest: Vec<Binary32> = Vec::new();
        let ghost suffix = silence(old(self)@.delay_samples + 24_000);
        assert(rest@ + suffix =~= suffix);
        self.flush_after(rest)
    }

    /// Begins to flush what the model still holds, and before it the rest of the
    /// stream that no chunk has held.
    pub fn flush_after(&mut self, rest: Vec<Binary32>) -> (run: ChunkRun)
        requires
            old(self)@.delay_samples + FLUSH_SAMPLES <= usize::MAX,
        ensures
            run@ == (Progress {
                inputs: old(self)@.inputs(rest@ + silence(old(self)@.delay_samples + 24_000)),
                events: seq![],
            }),
            final(self)@ == old(self)@.fed(),
    {
        let mut last = rest;
        let mut silent = zeros(self.delay_samples + FLUSH_SAMPLES);
        last.append(&mut silent);
        self.process_chunk(last.as_slice())
    }

    /// Ends a flush whose silence has been fed: a word that nothing ended lasts
    /// for 80 ms.
    pub fn finish_flush(&mut self, run: ChunkRun) -> (events: Vec<SttEvent>)
        requires
            run@.inputs.len() == 0,
        ensures
            views(events@) == run@.events + completed(
                old(self)@.pending,
                EndTime::AfterStart { milliseconds: 80 },
            ),
            final(self)@ == (Session { pending: None, ..old(self)@ }),
    {
        let mut events = run.into_events();
        self.complete(&mut events, EndTime::AfterStart { milliseconds: LAST_WORD_MS });
        events
    }
}

/// The first probability of each horizon, in double precision.
fn first_of_each(prs: &Vec<Vec<Binary32>>) -> (firsts: Vec<Binary64>)
    requires
        forall|j: int| 0 <= j < prs@.len() ==> (#[trigger] prs@[j])@.len() > 0,
    ensures
        firsts@ == prs@.map_values(|p: Vec<Binary32>| p@).map_values(|p: Seq<Binary32>| p[0].wide()),
{
    let mut firsts: Vec<Binary64> = Vec::new();
    let mut i: usize = 0;
    while i < prs.len()
        invariant
            i <= prs@.len(),
            forall|j: int| 0 <= j < prs@.len() ==> (#[trigger] prs@[j])@.len() > 0,
            firsts@.len() == i,
            forall|j: int| 0 <= j < i ==> firsts@[j] == (#[trigger] prs@[j])@[0].wide(),
        decreases prs@.len() - i,
    {
        firsts.push(prs[i][0].widen());
        i = i + 1;
    }
    assert(firsts@ =~= prs@.map_values(|p: Vec<Binary32>| p@).map_values(
        |p: Seq<Binary32>| p[0].wide(),
    ));
    firsts
}

/// The voice-activity head is told of exactly when it is listened to and the
/// model has made a step.
pub proof fn voice_follows_steps(pending: Option<Pending>, messages: Seq<Msg>, enable_vad: bool)
    ensures
        tells_voice(caused_by_all(pending, messages, enable_vad)) <==> enable_vad && exists|i: int|
            0 <= i < messages.len() && #[trigger] messages[i] is Step,
    decreases messages.len(),
{
    if messages.len() > 0 {
        let earlier = messages.drop_last();
        let last = messages.last();
        voice_follows_steps(pending, earlier, enable_vad);
        let told = caused_by_all(pending, earlier, enable_vad);
        let caused = caused(pending_after_all(pending, earlier), last, enable_vad);
        let all = caused_by_all(pending, messages, enable_vad);
        assert(all =~= told + caused);
        if tells_voice(told) {
            let i = choose|i: int| 0 <= i < told.len() && #[trigger] told[i] is Vad;
            assert(all[i] is Vad);
            let j = choose|j: int| 0 <= j < earlier.len() && #[trigger] earlier[j] is Step;
            assert(messages[j] is Step);
        } else if enable_vad && last is Step {
            assert(caused[0] is Vad);
            assert(all[told.len() as int] is Vad);
            assert(messages[messages.len() - 1] is Step);
        } else {
            assert forall|i: int| 0 <= i < all.len() implies !(#[trigger] all[i] is Vad) by {
                if i < told.len() {
                    assert(all[i] == told[i]);
                } else {
                    assert(all[i] == caused[i - told.len()]);
                }
            }
            assert forall|i: int| 0 <= i < messages.len() && enable_vad implies !(
            #[trigger] messages[i] is Step) by {
                if i < earlier.len() {
                    assert(messages[i] == earlier[i]);
                }
            }
        }
    }
}

/// Messages cause the same whether they come in one step or in two.
pub proof fn steps_do_not_matter(
    pending: Option<Pending>,
    first: Seq<Msg>,
    second: Seq<Msg>,
    enable_vad: bool,
)
    ensures
        pending_after_all(pending, first + second) == pending_after_all(
            pending_after_all(pending, first),
            second,
        ),
        caused_by_all(pending, first + second, enable_vad) == caused_by_all(
            pending,
            first,
            enable_vad,
        ) + caused_by_all(pending_after_all(pending, first), second, enable_vad),
    decreases second.len(),
{
    if second.len() == 0 {
        assert(first + second =~= first);
        assert(caused_by_all(pending, first, enable_vad) + seq![] =~= caused_by_all(
            pending,
            first,
            enable_vad,
        ));
    } else {
        steps_do_not_matter(pending, first, second.drop_last(), enable_vad);
        assert((first + second).drop_last() =~= first + second.drop_last());
        assert(caused_by_all(pending, first + second, enable_vad) =~= caused_by_all(
            pending,
            first,
            enable_vad,
        ) + caused_by_all(pending_after_all(pending, first), second, enable_vad));
    }
}

/// The words that a list of messages speaks of.
pub open spec fn words_heard(messages: Seq<Msg>) -> Seq<Pending>
    decreases messages.len(),
{
    if messages.len() == 0 {
        seq![]
    } else {
        words_heard(messages.drop_last()) + match messages.last() {
            Msg::Word { .. } => seq![pending_after(None, messages.last()).unwrap()],
            _ => seq![],
        }
    }
}

/// The words among a list of events, without their ends.
pub open spec fn words_told(events: Seq<Event>) -> Seq<Pending>
    decreases events.len(),
{
    if events.len() == 0 {
        seq![]
    } else {
        words_told(events.drop_last()) + match events.last() {
            Event::Word(word) => seq![
                Pending { text: word.text, start_time: word.start_time },
            ],
            Event::Vad(_) => seq![],
        }
    }
}

/// A pending word as a list.
pub open spec fn as_list(pending: Option<Pending>) -> Seq<Pending> {
    match pending {
        Some(word) => seq![word],
        None => seq![],
    }
}

proof fn words_told_joins(first: Seq<Event>, second: Seq<Event>)
    ensures
        words_told(first + second) == words_told(first) + words_told(second),
    decreases second.len(),
{
    if second.len() == 0 {
        assert(first + second =~= first);
        assert(words_told(first) + seq![] =~= words_told(first));
    } else {
        words_told_joins(first, second.drop_last());
        assert((first + second).drop_last() =~= first + second.drop_last());
        assert(words_told(first + second) =~= words_told(first) + words_told(second));
    }
}

/// Every word that is heard is told once, in the order in which it was heard:
/// what has been told, and then what is pending, is what was pending, and then
/// what has been heard.
pub proof fn every_word_is_told_once(
    pending: Option<Pending>,
    messages: Seq<Msg>,
    enable_vad: bool,
)
    ensures
        words_told(caused_by_all(pending, messages, enable_vad)) + as_list(
            pending_after_all(pending, messages),
        ) == as_list(pending) + words_heard(messages),
    decreases messages.len(),
{
    let told = caused_by_all(pending, messages, enable_vad);
    if messages.len() == 0 {
        assert(words_told(told) + as_list(pending) =~= as_list(pending) + words_heard(messages));
    } else {
        let earlier = messages.drop_last();
        let last = messages.last();
        every_word_is_told_once(pending, earlier, enable_vad);
        let between = pending_after_all(pending, earlier);
        let caused = caused(between, last, enable_vad);
        words_told_joins(caused_by_all(pending, earlier, enable_vad), caused);
        assert(words_told(caused) =~= match last {
            Msg::Step { .. } => seq![],
            _ => as_list(between),
        }) by {
            reveal_with_fuel(words_told, 2);
        }
        assert(words_told(told) + as_list(pending_after_all(pending, messages)) =~= as_list(pending)
            + words_heard(messages));
    }
}

/// A flush leaves no word untold: together with the word that was pending, what
/// it tells is all that it heard.
pub proof fn a_flush_tells_every_word(
    pending: Option<Pending>,
    messages: Seq<Msg>,
    enable_vad: bool,
    end_time: EndTime,
)
    ensures
        words_told(
            caused_by_all(pending, messages, enable_vad) + completed(
                pending_after_all(pending, messages),
                end_time,
            ),
        ) == as_list(pending) + words_heard(messages),
{
    let told = caused_by_all(pending, messages, enable_vad);
    let left = pending_after_all(pending, messages);
    every_word_is_told_once(pending, messages, enable_vad);
    words_told_joins(told, completed(left, end_time));
    assert(words_told(completed(left, end_time)) =~= as_list(left)) by {
        reveal_with_fuel(words_told, 2);
    }
}

/// A model whose voice-activity head is not listened to tells words alone.
pub proof fn without_vad_there_are_only_words(pending: Option<Pending>, messages: Seq<Msg>)
    ensures
        forall|i: int|
            0 <= i < caused_by_all(pending, messages, false).len() ==> #[trigger] caused_by_all(
                pending,
                messages,
                false,
            )[i] is Word,
    decreases messages.len(),
{
    if messages.len() > 0 {
        without_vad_there_are_only_words(pending, messages.drop_last());
    }
}

impl Session {
    /// After a list of chunks was taken in.
    pub open spec fn fed_all(self, chunks: Seq<Seq<Binary32>>) -> Session
        decreases chunks.len(),
    {
        if chunks.len() == 0 {
            self
        } else {
            self.fed_all(chunks.drop_last()).fed()
        }
    }

    /// All that goes in for a list of chunks, one after the other.
    pub open spec fn audio(self, chunks: Seq<Seq<Binary32>>) -> Seq<Binary32>
        decreases chunks.len(),
    {
        if chunks.len() == 0 {
            seq![]
        } else {
            self.audio(chunks.drop_last()) + self.fed_all(chunks.drop_last()).inputs(
                chunks.last(),
            ).flatten()
        }
    }
}

/// However a stream is cut into chunks, what goes in is all the silence that goes
/// before the stream, once, and then the stream, whole and in order.
pub proof fn silence_leads_the_stream(session: Session, chunks: Seq<Seq<Binary32>>)
    requires
        chunks.len() > 0,
    ensures
        session.audio(chunks) == silence(session.silence_prefix_remaining) + chunks.flatten(),
    decreases chunks.len(),
{
    let before = chunks.drop_last();
    let last = chunks.last();
    a_chunk_is_fed_whole(session.fed_all(before), last);
    assert(before.push(last) =~= chunks);
    before.lemma_flatten_push(last);
    let lead = silence(session.silence_prefix_remaining);
    assert(chunks.flatten() == before.flatten() + last);
    if before.len() > 0 {
        silence_leads_the_stream(session, before);
        assert(session.fed_all(before).silence_prefix_remaining == 0);
        assert(silence(0) + last =~= last);
        assert((lead + before.flatten()) + last =~= lead + (before.flatten() + last));
    } else {
        assert(before.flatten() =~= seq![]);
        assert(session.audio(before) =~= seq![] && session.fed_all(before) == session);
        assert(seq![] + (lead + last) =~= lead + (before.flatten() + last));
    }
}

/// The model is fed a chunk whole and in order, after the silence that is still to
/// come, in steps that are full but for the last.
pub proof fn a_chunk_is_fed_whole(session: Session, pcm: Seq<Binary32>)
    ensures
        session.inputs(pcm).flatten() == silence(session.silence_prefix_remaining) + pcm,
        forall|i: int|
            0 <= i < session.inputs(pcm).len() ==> 0 < (#[trigger] session.inputs(pcm)[i]).len()
                <= 1920,
        forall|i: int|
            0 <= i < session.inputs(pcm).len() - 1 ==> (#[trigger] session.inputs(pcm)[i]).len()
                == 1920,
{
    crate::pcm::pieces_make_the_whole(silence(session.silence_prefix_remaining) + pcm, 1920);
}

proof fn steps_end_no_word(pending: Option<Pending>, steps: Seq<Msg>, enable_vad: bool)
    requires
        forall|i: int| 0 <= i < steps.len() ==> #[trigger] steps[i] is Step,
    ensures
        pending_after_all(pending, steps) == pending,
        forall|i: int|
            0 <= i < caused_by_all(pending, steps, enable_vad).len() ==> #[trigger] caused_by_all(
                pending,
                steps,
                enable_vad,
            )[i] is Vad,
    decreases steps.len(),
{
    if steps.len() > 0 {
        let earlier = steps.drop_last();
        assert forall|i: int| 0 <= i < earlier.len() implies #[trigger] earlier[i] is Step by {
            assert(earlier[i] == steps[i]);
        }
        steps_end_no_word(pending, earlier, enable_vad);
        assert(steps[steps.len() - 1] is Step);
    }
}

/// Whether an event tells of a word with this text and this start, that ends then,
/// and of which the model is sure.
pub open spec fn tells_word(event: Event, word: Pending, end_time: EndTime) -> bool {
    &&& event matches Event::Word(told)
    &&& told.text == word.text
    &&& told.start_time == word.start_time
    &&& told.end_time == end_time
    &&& !told.confidence.is_nan()
    &&& told.confidence.scaled() == vstd::arithmetic::power2::pow2(1074)
}

/// A word that was heard is told when its end is said, or the next word is heard,
/// however many steps the model makes in between: with its own text and start, with
/// that time as its end, and last. No other word is told. After its end nothing is
/// pending; after the next word, that one is.
pub proof fn words_end_where_they_are_said_to(
    word: Pending,
    steps: Seq<Msg>,
    message: Msg,
    enable_vad: bool,
)
    requires
        forall|i: int| 0 <= i < steps.len() ==> #[trigger] steps[i] is Step,
        !(message is Step),
    ensures
        ({
            let events = caused_by_all(Some(word), steps.push(message), enable_vad);
            let time = match message {
                Msg::Word { start_time, .. } => start_time,
                Msg::EndWord { stop_time } => stop_time,
                Msg::Step { .. } => arbitrary(),
            };
            &&& events.len() > 0
            &&& tells_word(events.last(), word, EndTime::At(time))
            &&& forall|i: int| 0 <= i < events.len() - 1 ==> #[trigger] events[i] is Vad
        }),
        match pending_after_all(Some(word), steps.push(message)) {
            Some(next) => {
                &&& message matches Msg::Word { text, start_time }
                &&& next.start_time == start_time
                &&& text matches Some(text) ==> next.text == text
                &&& text is None ==> next.text.len() == 0
            },
            None => message is EndWord,
        },
{
    let all = steps.push(message);
    assert(all.drop_last() =~= steps);
    steps_end_no_word(Some(word), steps, enable_vad);
    let told = caused_by_all(Some(word), steps, enable_vad);
    let last = caused(Some(word), message, enable_vad);
    let events = caused_by_all(Some(word), all, enable_vad);
    assert(events =~= told + last);
    assert(last.len() == 1);
    assert(events.last() == last[0]);
    assert forall|i: int| 0 <= i < events.len() - 1 implies #[trigger] events[i] is Vad by {
        assert(events[i] == told[i]);
    }
    crate::ieee::unity_is_one();
}

/// Where no word is pending, none is told by the end of one or by the next one.
pub proof fn no_word_is_made_up(message: Msg, enable_vad: bool)
    requires
        !(message is Step),
    ensures
        caused(None, message, enable_vad).len() == 0,
{
}

/// The word that is left over at the end is told whole, with the end that it is
/// given; where none is left over, none is told.
pub proof fn the_last_word_is_told_whole(word: Pending, end_time: EndTime)
    ensures
        completed(Some(word), end_time).len() == 1,
        tells_word(completed(Some(word), end_time)[0], word, end_time),
        completed(None, end_time).len() == 0,
{
    crate::ieee::unity_is_one();
}

/// A step of the model adds one voice-activity update to what it causes, where that
/// is listened to: for each head, its first probability, as the same number in
/// double precision. It leaves the pending word as it was.
pub proof fn steps_tell_their_heads(
    pending: Option<Pending>,
    messages: Seq<Msg>,
    prs: Seq<Seq<Binary32>>,
    enable_vad: bool,
)
    ensures
        ({
            let before = caused_by_all(pending, messages, enable_vad);
            let after = caused_by_all(pending, messages.push(Msg::Step { prs }), enable_vad);
            &&& !enable_vad ==> after == before
            &&& enable_vad ==> {
                &&& after.len() == before.len() + 1
                &&& after.drop_last() == before
                &&& after.last() matches Event::Vad(probs)
                &&& probs.len() == prs.len()
                &&& forall|i: int|
                    0 <= i < prs.len() ==> (#[trigger] prs[i])[0].is_widened(probs[i])
            }
        }),
        pending_after_all(pending, messages.push(Msg::Step { prs })) == pending_after_all(
            pending,
            messages,
        ),
{
    let all = messages.push(Msg::Step { prs });
    assert(all.drop_last() =~= messages);
    let before = caused_by_all(pending, messages, enable_vad);
    let after = caused_by_all(pending, all, enable_vad);
    if enable_vad {
        assert(after.drop_last() =~= before);
        let probs = prs.map_values(|p: Seq<Binary32>| p[0].wide());
        assert(after.last() == Event::Vad(probs));
        assert forall|i: int| 0 <= i < prs.len() implies (#[trigger] prs[i])[0].is_widened(
            probs[i],
        ) by {
            crate::ieee::widening_exists(prs[i][0]);
        }
    } else {
        assert(after =~= before);
    }
}

/// Silence has as many samples as are asked for, and each of them is zero.
pub proof fn silence_is_silent(samples: nat, i: int)
    requires
        0 <= i < samples,
    ensures
        silence(samples).len() == samples,
        silence(samples)[i].encodes_sample(0),
{
    crate::ieee::magnitude_worth_orders(0, 0, 23);
}

} // verus!
