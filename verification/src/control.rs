//! Control commands: JSON objects that arrive on the control pad.
use crate::json::{parse_json, text_member};
use crate::pcm::same_text;
use crate::properties::{Properties, PropertyId, Setting};
use vstd::prelude::*;
use vstd::utf8::*;

verus! {

/// Why a buffer is refused.
#[derive(Clone, Copy, Debug, PartialEq, Eq, Structural)]
pub enum FlowError {
    /// It cannot be read.
    Error,
    /// There is no model to take it in.
    NotNegotiated,
}

/// Calls `std::str::from_utf8`. Claims that it succeeds exactly on bytes that
/// are UTF-8, and then gives the characters that they encode.
#[verifier::external_body]
fn from_utf8(bytes: &[u8]) -> (text: Option<&str>)
    ensures
        match text {
            Some(text) => valid_utf8(bytes@) && text@ == decode_utf8(bytes@),
            None => !valid_utf8(bytes@),
        },
{
    std::str::from_utf8(bytes).ok()
}

/// What a command asks for.
#[derive(Debug, PartialEq, Eq)]
pub enum ControlCommand {
    /// To set the language.
    SetLanguage(String),
    /// To set the language, without saying to which one.
    NoLanguage,
    /// This, which is not known.
    Unknown(String),
    /// Nothing, as it is no JSON document.
    Malformed,
}

/// What a command asks for, as contracts see it.
pub enum Request {
    /// To set the language.
    SetLanguage(Seq<char>),
    /// To set the language, without saying to which one.
    NoLanguage,
    /// This, which is not known.
    Unknown(Seq<char>),
    /// Nothing, as it is no JSON document.
    Malformed,
}

impl View for ControlCommand {
    type V = Request;

    open spec fn view(&self) -> Request {
        match self {
            ControlCommand::SetLanguage(language) => Request::SetLanguage(language@),
            ControlCommand::NoLanguage => Request::NoLanguage,
            ControlCommand::Unknown(command) => Request::Unknown(command@),
            ControlCommand::Malformed => Request::Malformed,
        }
    }
}

/// What is asked for by the members `command` and `language` of an object, as
/// far as they are texts. Without a command the empty one is asked for.
pub open spec fn asked(command: Option<Seq<char>>, language: Option<Seq<char>>) -> Request {
    match command {
        Some(command) => if command == "set_language"@ {
            match language {
                Some(language) => Request::SetLanguage(language),
                None => Request::NoLanguage,
            }
        } else {
            Request::Unknown(command)
        },
        None => Request::Unknown(seq![]),
    }
}

/// The member under a key.
pub open spec fn member(members: Map<Seq<char>, Seq<char>>, key: Seq<char>) -> Option<Seq<char>> {
    if members.dom().contains(key) {
        Some(members[key])
    } else {
        None
    }
}

/// What is asked for by a document with these members.
pub open spec fn request(members: Option<Map<Seq<char>, Seq<char>>>) -> Request {
    match members {
        Some(members) => asked(member(members, "command"@), member(members, "language"@)),
        None => Request::Malformed,
    }
}

/// A text, or none, as contracts see it.
pub open spec fn text_view(text: Option<String>) -> Option<Seq<char>> {
    match text {
        Some(text) => Some(text@),
        None => None,
    }
}

/// What the members `command` and `language` ask for.
pub fn interpret(command: Option<String>, language: Option<String>) -> (asked_for: ControlCommand)
    ensures
        asked_for@ == asked(text_view(command), text_view(language)),
{
    let command = match command {
        Some(command) => command,
        None => {
            let none = String::new();
            proof {
                reveal_strlit("set_language");
                assert(none@ =~= seq![]);
                assert("set_language"@.len() == 12);
            }
            none
        },
    };
    if same_text(command.as_str(), "set_language") {
        match language {
            Some(language) => ControlCommand::SetLanguage(language),
            None => ControlCommand::NoLanguage,
        }
    } else {
        ControlCommand::Unknown(command)
    }
}

/// What a JSON text asks for.
pub fn read_command(text: &str) -> (asked_for: ControlCommand)
    ensures
        asked_for@ == request(crate::json::document_members(text@)),
{
    match parse_json(text) {
        Ok(document) => interpret(
            text_member(&document, "command"),
            text_member(&document, "language"),
        ),
        Err(_) => ControlCommand::Malformed,
    }
}

impl Properties {
    /// Whether these are the properties `before`, once they did what was asked:
    /// the language is set where that was asked, and all else is as it was.
    pub open spec fn obeyed(&self, before: &Properties, asked_for: Request) -> bool {
        forall|id: PropertyId| #[trigger]
            self.holds(id) == match asked_for {
                Request::SetLanguage(language) if id == PropertyId::Language => Setting::Text(
                    Some(language),
                ),
                _ => before.holds(id),
            }
    }

    /// Does what a command asks for.
    pub fn obey(&mut self, asked_for: &ControlCommand)
        ensures
            final(self).obeyed(old(self), asked_for@),
    {
        match asked_for {
            ControlCommand::SetLanguage(language) => {
                self.language = language.clone();
            },
            _ => {},
        }
    }

    /// Takes in a buffer of the control pad. One that is not UTF-8 is refused;
    /// any other is taken, and changes the language if that is what it asks for.
    pub fn handle_ctrl_buffer(&mut self, buffer: &[u8]) -> (taken: Result<
        ControlCommand,
        FlowError,
    >)
        ensures
            match taken {
                Ok(asked_for) => {
                    &&& valid_utf8(buffer@)
                    &&& asked_for@ == request(crate::json::document_members(decode_utf8(buffer@)))
                    &&& final(self).obeyed(old(self), asked_for@)
                },
                Err(error) => {
                    &&& !valid_utf8(buffer@)
                    &&& error == FlowError::Error
                    &&& *final(self) == *old(self)
                },
            },
    {
        match from_utf8(buffer) {
            Some(text) => {
                let asked_for = read_command(text);
                self.obey(&asked_for);
                Ok(asked_for)
            },
            None => Err(FlowError::Error),
        }
    }
}

/// Commands change nothing but the language, and only one that sets it does.
pub proof fn commands_set_only_the_language(
    before: Properties,
    after: Properties,
    asked_for: Request,
    id: PropertyId,
)
    requires
        after.obeyed(&before, asked_for),
    ensures
        id != PropertyId::Language || !(asked_for is SetLanguage) ==> after.holds(id)
            == before.holds(id),
{
    assert(after.holds(id) == after.holds(id));
}

/// What a document asks for goes by its members alone: to set the language where
/// its command is `set_language` and it names a language, and to nothing else where
/// that is not so. Any other command is one that is not known, by its own name, and
/// no command is one without a name.
pub proof fn commands_mean_what_they_say(
    members: Map<Seq<char>, Seq<char>>,
    language: Seq<char>,
    command: Seq<char>,
)
    ensures
        request(Some(members)) == Request::SetLanguage(language) <==> members.contains_pair(
            "command"@,
            "set_language"@,
        ) && members.contains_pair("language"@, language),
        request(Some(members)) == Request::NoLanguage <==> members.contains_pair(
            "command"@,
            "set_language"@,
        ) && !members.dom().contains("language"@),
        command != "set_language"@ && members.contains_pair("command"@, command) ==> request(
            Some(members),
        ) == Request::Unknown(command),
        !members.dom().contains("command"@) ==> request(Some(members)) == Request::Unknown(seq![]),
        request(Some(members)) != Request::Malformed,
        request(None) == Request::Malformed,
{
}

/// The property called `language` holds the language that a command sets.
pub proof fn the_language_is_what_was_asked_for(
    before: Properties,
    after: Properties,
    language: Seq<char>,
    id: PropertyId,
)
    requires
        after.obeyed(&before, Request::SetLanguage(language)),
        id.called() == "language"@,
    ensures
        after.holds(id) == Setting::Text(Some(language)),
{
    crate::properties::property_names_differ(id, PropertyId::Language);
}

} // verus!
