//! What the element is, which pads it has, and what flows through them.
use crate::pcm::same_text;
use vstd::prelude::*;

verus! {

/// Room for the output of one transform call, in bytes.
pub const OUTPUT_BYTES: usize = 65_536;

/// What flows through a pad.
#[derive(Clone, Copy, Debug, PartialEq, Eq, Structural)]
pub enum CapsId {
    /// Raw audio.
    Audio,
    /// Transcriptions, as JSON.
    Transcription,
    /// Control commands, as JSON.
    Control,
}

/// The values that a field can have.
#[derive(Debug, PartialEq, Eq)]
pub enum Options {
    /// One of these texts.
    Texts(Vec<&'static str>),
    /// One of these numbers.
    Integers(Vec<i32>),
}

/// The values that a field can have, as contracts see them.
pub enum Choice {
    /// One of these texts.
    Texts(Seq<Seq<char>>),
    /// One of these numbers.
    Integers(Seq<i32>),
}

impl View for Options {
    type V = Choice;

    open spec fn view(&self) -> Choice {
        match self {
            Options::Texts(texts) => Choice::Texts(texts@.map_values(|text: &'static str| text@)),
            Options::Integers(numbers) => Choice::Integers(numbers@),
        }
    }
}

/// A media type with its fields.
#[derive(Debug, PartialEq, Eq)]
pub struct Caps {
    /// The media type.
    pub media_type: &'static str,
    /// Its fields, by name.
    pub fields: Vec<(&'static str, Options)>,
}

/// A media type, as contracts see it.
pub struct Media {
    /// The media type.
    pub media_type: Seq<char>,
    /// Its fields, by name.
    pub fields: Seq<(Seq<char>, Choice)>,
}

impl View for Caps {
    type V = Media;

    open spec fn view(&self) -> Media {
        Media {
            media_type: self.media_type@,
            fields: self.fields@.map_values(
                |field: (&'static str, Options)| (field.0@, field.1@),
            ),
        }
    }
}

impl CapsId {
    /// The media type in full.
    pub open spec fn media(self) -> Media {
        match self {
            CapsId::Audio => Media {
                media_type: "audio/x-raw"@,
                fields: seq![
                    ("format"@, Choice::Texts(seq!["F32LE"@, "S16LE"@])),
                    (
                        "rate"@,
                        Choice::Integers(
                            seq![8000i32, 16000i32, 22050i32, 24000i32, 44100i32, 48000i32],
                        ),
                    ),
                    ("channels"@, Choice::Integers(seq![1i32, 2i32])),
                ],
            },
            CapsId::Transcription => Media {
                media_type: "application/x-json-transcription"@,
                fields: seq![("format"@, Choice::Texts(seq!["whisper"@]))],
            },
            CapsId::Control => Media {
                media_type: "application/x-whisper-control"@,
                fields: seq![],
            },
        }
    }

    /// The media type in full.
    pub fn caps(self) -> (caps: Caps)
        ensures
            caps@ == self.media(),
    {
        match self {
            CapsId::Audio => {
                let formats: Vec<&'static str> = vec!["F32LE", "S16LE"];
                let rates: Vec<i32> = vec![8000, 16000, 22050, 24000, 44100, 48000];
                let channels: Vec<i32> = vec![1, 2];
                proof {
                    assert(formats@.map_values(|text: &'static str| text@) =~= seq![
                        "F32LE"@,
                        "S16LE"@,
                    ]);
                    assert(rates@ =~= seq![
                        8000i32,
                        16000i32,
                        22050i32,
                        24000i32,
                        44100i32,
                        48000i32,
                    ]);
                    assert(channels@ =~= seq![1i32, 2i32]);
                }
                let caps = Caps {
                    media_type: "audio/x-raw",
                    fields: vec![
                        ("format", Options::Texts(formats)),
                        ("rate", Options::Integers(rates)),
                        ("channels", Options::Integers(channels)),
                    ],
                };
                assert(caps@.fields =~= self.media().fields);
                caps
            },
            CapsId::Transcription => {
                let formats: Vec<&'static str> = vec!["whisper"];
                assert(formats@.map_values(|text: &'static str| text@) =~= seq!["whisper"@]);
                let caps = Caps {
                    media_type: "application/x-json-transcription",
                    fields: vec![("format", Options::Texts(formats))],
                };
                assert(caps@.fields =~= self.media().fields);
                caps
            },
            CapsId::Control => {
                let caps = Caps { media_type: "application/x-whisper-control", fields: Vec::new() };
                assert(caps@.fields =~= self.media().fields);
                caps
            },
        }
    }
}

/// Which way data flows through a pad.
#[derive(Clone, Copy, Debug, PartialEq, Eq, Structural)]
pub enum PadDirection {
    /// Into the element.
    Sink,
    /// Out of the element.
    Src,
    /// Not known.
    Unknown,
}

/// When a pad is there.
#[derive(Clone, Copy, Debug, PartialEq, Eq, Structural)]
pub enum PadPresence {
    /// Always.
    Always,
    /// When it is asked for.
    Request,
}

/// A pad that the element has or can have.
#[derive(Clone, Copy, Debug, PartialEq, Eq)]
pub struct PadTemplate {
    /// What it is called.
    pub name: &'static str,
    /// Which way data flows.
    pub direction: PadDirection,
    /// When it is there.
    pub presence: PadPresence,
    /// What flows.
    pub caps: CapsId,
}

/// A pad, as contracts see it.
pub struct Pad {
    /// What it is called.
    pub name: Seq<char>,
    /// Which way data flows.
    pub direction: PadDirection,
    /// When it is there.
    pub presence: PadPresence,
    /// What flows.
    pub caps: CapsId,
}

impl View for PadTemplate {
    type V = Pad;

    open spec fn view(&self) -> Pad {
        Pad {
            name: self.name@,
            direction: self.direction,
            presence: self.presence,
            caps: self.caps,
        }
    }
}

/// The pads of the element: audio comes in, transcriptions go out, and commands
/// come in where a pad is requested for them.
pub open spec fn pads() -> Seq<Pad> {
    seq![
        Pad {
            name: "sink"@,
            direction: PadDirection::Sink,
            presence: PadPresence::Always,
            caps: CapsId::Audio,
        },
        Pad {
            name: "src"@,
            direction: PadDirection::Src,
            presence: PadPresence::Always,
            caps: CapsId::Transcription,
        },
        Pad {
            name: "ctrl"@,
            direction: PadDirection::Sink,
            presence: PadPresence::Request,
            caps: CapsId::Control,
        },
    ]
}

/// The pads of the element.
pub fn pad_templates() -> (templates: Vec<PadTemplate>)
    ensures
        templates@.map_values(|template: PadTemplate| template@) == pads(),
{
    let templates: Vec<PadTemplate> = vec![
        PadTemplate {
            name: "sink",
            direction: PadDirection::Sink,
            presence: PadPresence::Always,
            caps: CapsId::Audio,
        },
        PadTemplate {
            name: "src",
            direction: PadDirection::Src,
            presence: PadPresence::Always,
            caps: CapsId::Transcription,
        },
        PadTemplate {
            name: "ctrl",
            direction: PadDirection::Sink,
            presence: PadPresence::Request,
            caps: CapsId::Control,
        },
    ];
    assert(templates@.map_values(|template: PadTemplate| template@) =~= pads());
    templates
}

/// What flows on the other side of the pad that data flows through this way.
pub open spec fn other_side(direction: PadDirection) -> Option<CapsId> {
    match direction {
        PadDirection::Sink => Some(CapsId::Transcription),
        PadDirection::Src => Some(CapsId::Audio),
        PadDirection::Unknown => None,
    }
}

/// What flows on the other side.
pub fn transform_caps(direction: PadDirection) -> (caps: Option<CapsId>)
    ensures
        caps == other_side(direction),
{
    match direction {
        PadDirection::Sink => Some(CapsId::Transcription),
        PadDirection::Src => Some(CapsId::Audio),
        PadDirection::Unknown => None,
    }
}

/// Across the element, what one of its lasting pads takes turns into what the
/// other one takes.
pub proof fn caps_cross_over(a: Pad, b: Pad)
    requires
        pads().contains(a),
        pads().contains(b),
        a.presence == PadPresence::Always,
        b.presence == PadPresence::Always,
        a.direction != b.direction,
    ensures
        other_side(a.direction) == Some(b.caps),
        other_side(b.direction) == Some(a.caps),
{
}

/// Room for the output of one transform call, whatever goes in.
pub fn transform_size() -> (size: Option<usize>)
    ensures
        size == Some(65_536usize),
{
    Some(OUTPUT_BYTES)
}

/// Whether pads of this template are made on request.
pub open spec fn on_request(template: Seq<char>) -> bool {
    template == "ctrl"@
}

/// Whether a pad is made when one of this template is requested.
pub fn request_new_pad(template: &str) -> (made: bool)
    ensures
        made == (template@ == "ctrl"@),
        made == on_request(template@),
{
    same_text(template, "ctrl")
}

/// Of the pads of the element, a request makes exactly the one that is there on
/// request.
pub proof fn requests_make_request_pads(pad: Pad)
    requires
        pads().contains(pad),
    ensures
        pad.name == "ctrl"@ <==> pad.presence == PadPresence::Request,
        on_request(pad.name) <==> pad.presence == PadPresence::Request,
{
    reveal_strlit("sink");
    reveal_strlit("src");
    reveal_strlit("ctrl");
    assert("sink"@[0] == 's' && "ctrl"@[0] == 'c' && "src"@.len() == 3);
}

/// How the element is described.
#[derive(Clone, Copy, Debug, PartialEq, Eq)]
pub struct ElementMetadata {
    /// Its name for people.
    pub long_name: &'static str,
    /// What kind of element it is.
    pub classification: &'static str,
    /// What it does.
    pub description: &'static str,
    /// Who made it.
    pub author: &'static str,
}

/// How the element is described.
pub fn metadata() -> (metadata: ElementMetadata)
    ensures
        metadata.long_name@ == "Kyutai STT Transcriber"@,
        metadata.classification@ == "Audio/Text/Filter"@,
        metadata.description@
            == "Speech-to-text using Kyutai STT models (drop-in replacement for whispertranscribe)"@,
        metadata.author@ == "Kyutai"@,
{
    ElementMetadata {
        long_name: "Kyutai STT Transcriber",
        classification: "Audio/Text/Filter",
        description: "Speech-to-text using Kyutai STT models (drop-in replacement for whispertranscribe)",
        author: "Kyutai",
    }
}

/// Audio comes in through the lasting pad that takes data in, transcriptions go out
/// through the one that gives data out, and the requested pad takes in commands.
pub proof fn pads_carry_what_they_are_for(pad: Pad)
    requires
        pads().contains(pad),
    ensures
        pad.presence == PadPresence::Request ==> pad.direction == PadDirection::Sink && pad.caps
            == CapsId::Control,
        pad.presence == PadPresence::Always ==> pad.direction == PadDirection::Sink && pad.caps
            == CapsId::Audio || pad.direction == PadDirection::Src && pad.caps
            == CapsId::Transcription,
        pads().len() == 3,
{
}

/// A request is answered exactly where the element has a pad of that name that is
/// there on request.
pub proof fn requests_are_for_pads_there_are(template: Seq<char>)
    ensures
        on_request(template) <==> exists|pad: Pad|
            #[trigger] pads().contains(pad) && pad.presence == PadPresence::Request && pad.name
                == template,
{
    let ctrl = pads()[2];
    assert(pads().contains(ctrl));
}

} // verus!
