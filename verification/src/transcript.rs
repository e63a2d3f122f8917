//! The output of the element: transcripts in JSON, and their bytes.
use crate::ieee::Binary64;
use crate::json;
use crate::json::{array_value, integer_value, number_value, object_value, render, text_value};
use crate::model::{EndTime, SttWord, Word};
use vstd::prelude::*;

verus! {

/// A time in seconds, as the sum that it is: `time`, `later_ms` milliseconds
/// later, counted from `since` where there is such a time. The sum is formed in
/// floating point, by the caller.
#[derive(Clone, Copy, Debug, PartialEq, Eq, Structural)]
pub struct Moment {
    /// What the time is counted from; nothing where it is a time of the stream.
    pub since: Option<Binary64>,
    /// A time of the stream.
    pub time: Binary64,
    /// How much later it is.
    pub later_ms: u64,
}

/// A word as it is to be written out.
#[derive(Debug, PartialEq, Eq)]
pub struct Stamp {
    /// What was said.
    pub text: String,
    /// When it starts.
    pub start: Moment,
    /// When it ends.
    pub end: Moment,
    /// How sure the model is.
    pub confidence: Binary64,
}

/// A word as it is to be written out, as contracts see it.
pub struct Entry {
    /// What was said.
    pub text: Seq<char>,
    /// When it starts.
    pub start: Moment,
    /// When it ends.
    pub end: Moment,
    /// How sure the model is.
    pub confidence: Binary64,
}

impl View for Stamp {
    type V = Entry;

    open spec fn view(&self) -> Entry {
        Entry {
            text: self.text@,
            start: self.start,
            end: self.end,
            confidence: self.confidence,
        }
    }
}

impl Entry {
    /// A word with its times counted from `since`.
    pub open spec fn of(word: Word, since: Option<Binary64>) -> Entry {
        Entry {
            text: word.text,
            start: Moment { since, time: word.start_time, later_ms: 0 },
            end: match word.end_time {
                EndTime::At(time) => Moment { since, time, later_ms: 0 },
                EndTime::AfterStart { milliseconds } => Moment {
                    since,
                    time: word.start_time,
                    later_ms: milliseconds,
                },
            },
            confidence: word.confidence,
        }
    }
}

/// Words with their times counted from `since`, in order.
pub open spec fn entries(words: Seq<Word>, since: Option<Binary64>) -> Seq<Entry> {
    words.map_values(|word: Word| Entry::of(word, since))
}

impl Stamp {
    /// A word with its times counted from `since`.
    pub fn of(word: &SttWord, since: Option<Binary64>) -> (stamp: Stamp)
        ensures
            stamp@ == Entry::of(word@, since),
    {
        Stamp {
            text: word.text.clone(),
            start: Moment { since, time: word.start_time, later_ms: 0 },
            end: match word.end_time {
                EndTime::At(time) => Moment { since, time, later_ms: 0 },
                EndTime::AfterStart { milliseconds } => Moment {
                    since,
                    time: word.start_time,
                    later_ms: milliseconds,
                },
            },
            confidence: word.confidence,
        }
    }
}

/// Words with their times counted from `since`.
pub fn stamp_all(words: &Vec<SttWord>, since: Option<Binary64>) -> (stamps: Vec<Stamp>)
    ensures
        stamps@.map_values(|stamp: Stamp| stamp@) == entries(
            words@.map_values(|word: SttWord| word@),
            since,
        ),
{
    let mut stamps: Vec<Stamp> = Vec::new();
    let mut i: usize = 0;
    while i < words.len()
        invariant
            i <= words@.len(),
            stamps@.len() == i,
            forall|j: int| 0 <= j < i ==> (#[trigger] stamps@[j])@ == Entry::of(words@[j]@, since),
        decreases words@.len() - i,
    {
        stamps.push(Stamp::of(&words[i], since));
        i = i + 1;
    }
    assert(stamps@.map_values(|stamp: Stamp| stamp@) =~= entries(
        words@.map_values(|word: SttWord| word@),
        since,
    ));
    stamps
}

/// A word with the numbers that are written out for it: its times in seconds,
/// those times a thousand, and the times of the stream times 24000. What is no
/// finite number is missing.
#[derive(Debug)]
pub struct TimedWord {
    /// What was said.
    pub text: String,
    /// When it starts, in seconds.
    pub start_time: Option<serde_json::Number>,
    /// When it ends, in seconds.
    pub end_time: Option<serde_json::Number>,
    /// How sure the model is.
    pub confidence: Option<serde_json::Number>,
    /// The start, in milliseconds.
    pub start_ms: Binary64,
    /// The end, in milliseconds.
    pub end_ms: Binary64,
    /// The start, in samples of the stream.
    pub start_sample: Binary64,
    /// The end, in samples of the stream.
    pub end_sample: Binary64,
}

/// A number as it is written; one that is missing is `null`.
pub open spec fn optional_number(number: Option<serde_json::Number>) -> Seq<char> {
    match number {
        Some(number) => json::number_text(number),
        None => "null"@,
    }
}

/// A time without its fraction, in decimal notation.
pub open spec fn whole(time: Binary64) -> Seq<char> {
    json::decimal(time.cast(i64::MIN as int, i64::MAX as int))
}

/// The token of a word.
pub open spec fn token_text(word: &TimedWord) -> Seq<char> {
    json::object_text(
        seq![
            ("end_ms"@, whole(word.end_ms)),
            ("end_sample"@, whole(word.end_sample)),
            ("prob"@, optional_number(word.confidence)),
            ("start_ms"@, whole(word.start_ms)),
            ("start_sample"@, whole(word.start_sample)),
            ("text"@, json::quoted(word.text@)),
        ],
    )
}

/// The segment of a word: it has one token, and no particular language.
pub open spec fn segment_text(word: &TimedWord) -> Seq<char> {
    json::object_text(
        seq![
            ("confidence"@, optional_number(word.confidence)),
            ("end_time"@, optional_number(word.end_time)),
            ("language"@, json::quoted("auto"@)),
            ("start_time"@, optional_number(word.start_time)),
            ("text"@, json::quoted(word.text@)),
            ("tokens"@, json::array_text(seq![token_text(word)])),
        ],
    )
}

/// The transcript of words: a segment for each of them, in order.
pub open spec fn transcript_text(words: Seq<TimedWord>) -> Seq<char> {
    json::object_text(
        seq![
            ("segments"@, json::array_text(words.map_values(|word: TimedWord| segment_text(&word)))),
        ],
    )
}

proof fn token_keys_are_sorted()
    ensures
        json::precedes("end_ms"@, "end_sample"@),
        json::precedes("end_sample"@, "prob"@),
        json::precedes("prob"@, "start_ms"@),
        json::precedes("start_ms"@, "start_sample"@),
        json::precedes("start_sample"@, "text"@),
{
    reveal_strlit("end_ms");
    reveal_strlit("end_sample");
    reveal_strlit("prob");
    reveal_strlit("start_ms");
    reveal_strlit("start_sample");
    reveal_strlit("text");
    assert("end_ms"@.take(4) =~= "end_sample"@.take(4));
    assert(json::precedes_at("end_ms"@, "end_sample"@, 4));
    assert("end_sample"@.take(0) =~= "prob"@.take(0));
    assert(json::precedes_at("end_sample"@, "prob"@, 0));
    assert("prob"@.take(0) =~= "start_ms"@.take(0));
    assert(json::precedes_at("prob"@, "start_ms"@, 0));
    assert("start_ms"@.take(6) =~= "start_sample"@.take(6));
    assert(json::precedes_at("start_ms"@, "start_sample"@, 6));
    assert("start_sample"@.take(0) =~= "text"@.take(0));
    assert(json::precedes_at("start_sample"@, "text"@, 0));
}

proof fn segment_keys_are_sorted()
    ensures
        json::precedes("confidence"@, "end_time"@),
        json::precedes("end_time"@, "language"@),
        json::precedes("language"@, "start_time"@),
        json::precedes("start_time"@, "text"@),
        json::precedes("text"@, "tokens"@),
{
    reveal_strlit("confidence");
    reveal_strlit("end_time");
    reveal_strlit("language");
    reveal_strlit("start_time");
    reveal_strlit("text");
    reveal_strlit("tokens");
    assert("confidence"@.take(0) =~= "end_time"@.take(0));
    assert(json::precedes_at("confidence"@, "end_time"@, 0));
    assert("end_time"@.take(0) =~= "language"@.take(0));
    assert(json::precedes_at("end_time"@, "language"@, 0));
    assert("language"@.take(0) =~= "start_time"@.take(0));
    assert(json::precedes_at("language"@, "start_time"@, 0));
    assert("start_time"@.take(0) =~= "text"@.take(0));
    assert(json::precedes_at("start_time"@, "text"@, 0));
    assert("text"@.take(1) =~= "tokens"@.take(1));
    assert(json::precedes_at("text"@, "tokens"@, 1));
}

/// The token of a word.
fn token_value(word: &TimedWord) -> (token: serde_json::Value)
    ensures
        json::rendered(token) == token_text(word),
{
    let members: Vec<(&'static str, serde_json::Value)> = vec![
        ("end_ms", integer_value(word.end_ms.to_i64())),
        ("end_sample", integer_value(word.end_sample.to_i64())),
        ("prob", number_value(&word.confidence)),
        ("start_ms", integer_value(word.start_ms.to_i64())),
        ("start_sample", integer_value(word.start_sample.to_i64())),
        ("text", text_value(word.text.as_str())),
    ];
    proof {
        token_keys_are_sorted();
        assert(json::member_texts(members@) =~= seq![
            ("end_ms"@, whole(word.end_ms)),
            ("end_sample"@, whole(word.end_sample)),
            ("prob"@, optional_number(word.confidence)),
            ("start_ms"@, whole(word.start_ms)),
            ("start_sample"@, whole(word.start_sample)),
            ("text"@, json::quoted(word.text@)),
        ]);
    }
    object_value(members)
}

/// The segment of a word.
fn segment_value(word: &TimedWord) -> (segment: serde_json::Value)
    ensures
        json::rendered(segment) == segment_text(word),
{
    let token = token_value(word);
    let tokens: Vec<serde_json::Value> = vec![token];
    assert(tokens@.map_values(|element: serde_json::Value| json::rendered(element)) =~= seq![
        token_text(word),
    ]);
    let members: Vec<(&'static str, serde_json::Value)> = vec![
        ("confidence", number_value(&word.confidence)),
        ("end_time", number_value(&word.end_time)),
        ("language", text_value("auto")),
        ("start_time", number_value(&word.start_time)),
        ("text", text_value(word.text.as_str())),
        ("tokens", array_value(tokens)),
    ];
    proof {
        segment_keys_are_sorted();
        assert(json::member_texts(members@) =~= seq![
            ("confidence"@, optional_number(word.confidence)),
            ("end_time"@, optional_number(word.end_time)),
            ("language"@, json::quoted("auto"@)),
            ("start_time"@, optional_number(word.start_time)),
            ("text"@, json::quoted(word.text@)),
            ("tokens"@, json::array_text(seq![token_text(word)])),
        ]);
    }
    object_value(members)
}

/// Writes out a transcript.
pub fn write_transcript(words: &Vec<TimedWord>) -> (text: String)
    ensures
        text@ == transcript_text(words@),
{
    let mut segments: Vec<serde_json::Value> = Vec::new();
    let mut i: usize = 0;
    while i < words.len()
        invariant
            i <= words@.len(),
            segments@.len() == i,
            forall|j: int| 0 <= j < i ==> json::rendered(#[trigger] segments@[j]) == segment_text(&words@[j]),
        decreases words@.len() - i,
    {
        segments.push(segment_value(&words[i]));
        i = i + 1;
    }
    proof {
        assert(segments@.map_values(|element: serde_json::Value| json::rendered(element))
            =~= words@.map_values(|word: TimedWord| segment_text(&word)));
    }
    let members: Vec<(&'static str, serde_json::Value)> = vec![("segments", array_value(segments))];
    proof {
        assert(json::member_texts(members@) =~= seq![
            (
                "segments"@,
                json::array_text(words@.map_values(|word: TimedWord| segment_text(&word))),
            ),
        ]);
    }
    render(&object_value(members))
}

/// The transcript of no words has no segments.
pub proof fn silence_has_no_segments()
    ensures
        transcript_text(seq![]) == "{\"segments\":[]}"@,
{
    reveal_strlit("segments");
    reveal_strlit("{\"segments\":[]}");
    let none = Seq::<TimedWord>::empty().map_values(|word: TimedWord| segment_text(&word));
    assert(none =~= seq![]);
    plain_text_stands_for_itself("segments"@);
    let member = ("segments"@, json::array_text(none));
    let texts = seq![member].map_values(
        |member: (Seq<char>, Seq<char>)| json::quoted(member.0) + seq![':'] + member.1,
    );
    assert(texts[0] == json::quoted(member.0) + seq![':'] + member.1);
    assert(transcript_text(seq![]) =~= "{\"segments\":[]}"@);
}

/// A text without quotation marks, backslashes and control characters stands
/// between quotation marks as it is.
pub proof fn plain_text_stands_for_itself(text: Seq<char>)
    requires
        forall|i: int|
            0 <= i < text.len() ==> (#[trigger] text[i]) != '"' && text[i] != '\\' && text[i] as int
                >= 0x20,
    ensures
        json::quoted(text) == seq!['"'] + text + seq!['"'],
    decreases text.len(),
{
    let parts = text.map_values(|c: char| json::escaped(c));
    if text.len() == 0 {
        assert(parts =~= seq![]);
        assert(parts.flatten() =~= text);
    } else {
        let rest = text.drop_first();
        plain_text_stands_for_itself(rest);
        let rest_parts = rest.map_values(|c: char| json::escaped(c));
        assert(parts.drop_first() =~= rest_parts);
        assert(parts.first() == seq![text[0]]);
        assert(json::quoted(rest).subrange(1, json::quoted(rest).len() - 1) =~= rest_parts.flatten());
        assert((seq!['"'] + rest + seq!['"']).subrange(1, rest.len() as int + 1) =~= rest);
        assert(parts.flatten() =~= seq![text[0]] + rest);
        assert(parts.flatten() =~= text);
    }
}

/// Copies as much of `bytes` into `room` as it holds, and returns how much that
/// was.
pub fn copy_output(bytes: &[u8], room: &mut [u8]) -> (copied: usize)
    ensures
        copied == if bytes@.len() < old(room)@.len() {
            bytes@.len()
        } else {
            old(room)@.len()
        },
        final(room)@ == bytes@.take(copied as int) + old(room)@.skip(copied as int),
{
    let copied: usize = if bytes.len() < room.len() {
        bytes.len()
    } else {
        room.len()
    };
    let ghost before = room@;
    let mut i: usize = 0;
    while i < copied
        invariant
            i <= copied,
            copied <= bytes@.len(),
            copied <= before.len(),
            room@ == bytes@.take(i as int) + before.skip(i as int),
        decreases copied - i,
    {
        room[i] = bytes[i];
        i = i + 1;
        assert(room@ =~= bytes@.take(i as int) + before.skip(i as int));
    }
    copied
}

/// A word that is written out keeps its text and how sure the model is. It starts
/// when the word starts and ends when it ends, both counted from the same time.
pub proof fn entries_keep_their_words(word: Word, since: Option<Binary64>)
    ensures
        ({
            let entry = Entry::of(word, since);
            &&& entry.text == word.text
            &&& entry.confidence == word.confidence
            &&& entry.start.since == since && entry.end.since == since
            &&& entry.start.time == word.start_time && entry.start.later_ms == 0
            &&& word.end_time matches EndTime::At(time) ==> entry.end.time == time
                && entry.end.later_ms == 0
            &&& word.end_time matches EndTime::AfterStart { milliseconds } ==> entry.end.time
                == word.start_time && entry.end.later_ms == milliseconds
        }),
{
}

/// Every word is written out once, in order, and by itself.
pub proof fn every_word_is_written_out(words: Seq<Word>, word: Word, since: Option<Binary64>)
    ensures
        entries(seq![], since).len() == 0,
        entries(words.push(word), since) == entries(words, since).push(Entry::of(word, since)),
{
    assert(entries(words.push(word), since) =~= entries(words, since).push(
        Entry::of(word, since),
    ));
}

/// Whether a text is a number written out without its fraction.
pub open spec fn writes_whole(text: Seq<char>, time: Binary64) -> bool {
    exists|number: int|
        {
            &&& text == #[trigger] json::decimal(number)
            &&& i64::MIN <= number <= i64::MAX
            &&& time.is_nan() ==> number == 0
            &&& !time.is_nan() && 0 <= number < i64::MAX ==> time.scaled() < (number + 1)
                * vstd::arithmetic::power2::pow2(1074)
            &&& !time.is_nan() && number > 0 ==> number * vstd::arithmetic::power2::pow2(1074)
                <= time.scaled()
            &&& !time.is_nan() && i64::MIN < number <= 0 ==> (number - 1)
                * vstd::arithmetic::power2::pow2(1074) < time.scaled()
            &&& !time.is_nan() && number < 0 ==> time.scaled() <= number
                * vstd::arithmetic::power2::pow2(1074)
        }
}

/// Whether an object has a member with this key and this text.
pub open spec fn has_member(
    members: Seq<(Seq<char>, Seq<char>)>,
    key: Seq<char>,
    text: Seq<char>,
) -> bool {
    members.contains((key, text))
}

proof fn whole_is_written(time: Binary64)
    ensures
        writes_whole(whole(time), time),
{
    crate::ieee::casts_cut_down(time, i64::MIN as int, i64::MAX as int);
    assert(whole(time) == json::decimal(time.cast(i64::MIN as int, i64::MAX as int)));
}

/// The token of a word says, under their keys, the text, how sure the model is, and
/// the start and the end in whole milliseconds and samples, and nothing else.
pub proof fn tokens_say_their_words(word: &TimedWord)
    ensures
        exists|members: Seq<(Seq<char>, Seq<char>)>|
            {
                &&& token_text(word) == #[trigger] json::object_text(members)
                &&& members.len() == 6
                &&& has_member(members, "text"@, json::quoted(word.text@))
                &&& has_member(members, "prob"@, optional_number(word.confidence))
                &&& exists|text: Seq<char>| #[trigger]
                    has_member(members, "start_ms"@, text) && writes_whole(text, word.start_ms)
                &&& exists|text: Seq<char>| #[trigger]
                    has_member(members, "end_ms"@, text) && writes_whole(text, word.end_ms)
                &&& exists|text: Seq<char>| #[trigger]
                    has_member(members, "start_sample"@, text) && writes_whole(
                        text,
                        word.start_sample,
                    )
                &&& exists|text: Seq<char>| #[trigger]
                    has_member(members, "end_sample"@, text) && writes_whole(text, word.end_sample)
            },
{
    let members = seq![
        ("end_ms"@, whole(word.end_ms)),
        ("end_sample"@, whole(word.end_sample)),
        ("prob"@, optional_number(word.confidence)),
        ("start_ms"@, whole(word.start_ms)),
        ("start_sample"@, whole(word.start_sample)),
        ("text"@, json::quoted(word.text@)),
    ];
    whole_is_written(word.end_ms);
    whole_is_written(word.end_sample);
    whole_is_written(word.start_ms);
    whole_is_written(word.start_sample);
    assert(members[0] == ("end_ms"@, whole(word.end_ms)));
    assert(members[1] == ("end_sample"@, whole(word.end_sample)));
    assert(members[2] == ("prob"@, optional_number(word.confidence)));
    assert(members[3] == ("start_ms"@, whole(word.start_ms)));
    assert(members[4] == ("start_sample"@, whole(word.start_sample)));
    assert(members[5] == ("text"@, json::quoted(word.text@)));
    assert(has_member(members, "end_ms"@, whole(word.end_ms)));
    assert(has_member(members, "end_sample"@, whole(word.end_sample)));
    assert(has_member(members, "start_ms"@, whole(word.start_ms)));
    assert(has_member(members, "start_sample"@, whole(word.start_sample)));
    assert(token_text(word) == json::object_text(members));
}

/// The segment of a word says, under their keys, the text, how sure the model is,
/// the start and the end in seconds, that no language is known, and its one token,
/// and nothing else.
pub proof fn segments_say_their_words(word: &TimedWord)
    ensures
        exists|members: Seq<(Seq<char>, Seq<char>)>|
            {
                &&& segment_text(word) == #[trigger] json::object_text(members)
                &&& members.len() == 6
                &&& has_member(members, "text"@, json::quoted(word.text@))
                &&& has_member(members, "start_time"@, optional_number(word.start_time))
                &&& has_member(members, "end_time"@, optional_number(word.end_time))
                &&& has_member(members, "confidence"@, optional_number(word.confidence))
                &&& has_member(members, "language"@, json::quoted("auto"@))
                &&& has_member(members, "tokens"@, json::array_text(seq![token_text(word)]))
            },
{
    let members = seq![
        ("confidence"@, optional_number(word.confidence)),
        ("end_time"@, optional_number(word.end_time)),
        ("language"@, json::quoted("auto"@)),
        ("start_time"@, optional_number(word.start_time)),
        ("text"@, json::quoted(word.text@)),
        ("tokens"@, json::array_text(seq![token_text(word)])),
    ];
    assert(members[0] == ("confidence"@, optional_number(word.confidence)));
    assert(members[1] == ("end_time"@, optional_number(word.end_time)));
    assert(members[2] == ("language"@, json::quoted("auto"@)));
    assert(members[3] == ("start_time"@, optional_number(word.start_time)));
    assert(members[4] == ("text"@, json::quoted(word.text@)));
    assert(members[5] == ("tokens"@, json::array_text(seq![token_text(word)])));
    assert(segment_text(word) == json::object_text(members));
}

/// A transcript has one segment for each word, in order, and nothing else.
pub proof fn transcripts_hold_every_word(words: Seq<TimedWord>)
    ensures
        exists|segments: Seq<Seq<char>>|
            {
                &&& segments.len() == words.len()
                &&& forall|i: int|
                    0 <= i < words.len() ==> #[trigger] segments[i] == segment_text(&words[i])
                &&& transcript_text(words) == json::object_text(
                    seq![("segments"@, #[trigger] json::array_text(segments))],
                )
            },
{
    let segments = words.map_values(|word: TimedWord| segment_text(&word));
    assert(transcript_text(words) == json::object_text(
        seq![("segments"@, json::array_text(segments))],
    ));
}

} // verus!
