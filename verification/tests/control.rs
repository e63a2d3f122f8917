use kyutaistt::control::{interpret, read_command, ControlCommand, FlowError};
use kyutaistt::properties::Properties;

fn language(name: &str) -> ControlCommand {
    ControlCommand::SetLanguage(name.to_string())
}

fn unknown(command: &str) -> ControlCommand {
    ControlCommand::Unknown(command.to_string())
}

#[test]
fn the_language_can_be_set() {
    let mut props = Properties::default();
    let command = br#"{"command": "set_language", "language": "fr"}"#;
    assert_eq!(props.handle_ctrl_buffer(command), Ok(language("fr")));
    let mut expected = Properties::default();
    expected.language = "fr".to_string();
    assert_eq!(props, expected);
}

#[test]
fn escapes_and_duplicates_are_read_as_json_has_them() {
    assert_eq!(
        read_command(r#"{"command":"set_language","language":"de"}"#),
        language("de")
    );
    assert_eq!(
        read_command(r#"{"language":"a","command":"set_language","language":"b"}"#),
        language("b")
    );
}

#[test]
fn other_commands_change_nothing() {
    for (command, asked_for) in [
        (r#"{"command":"reset"}"#, unknown("reset")),
        (r#"{"command":"set_language"}"#, ControlCommand::NoLanguage),
        (r#"{"command":"set_language","language":3}"#, ControlCommand::NoLanguage),
        (r#"{"command":["set_language"],"language":"fr"}"#, unknown("")),
        (r#"{"language":"fr"}"#, unknown("")),
        (r#"["set_language","fr"]"#, unknown("")),
        ("17", unknown("")),
        ("null", unknown("")),
    ] {
        let mut props = Properties::default();
        assert_eq!(
            props.handle_ctrl_buffer(command.as_bytes()),
            Ok(asked_for),
            "{command}"
        );
        assert_eq!(props, Properties::default());
    }
}

#[test]
fn what_is_no_json_changes_nothing() {
    for command in ["", "{", "set_language", r#"{"command":"set_language"} x"#] {
        let mut props = Properties::default();
        assert_eq!(
            props.handle_ctrl_buffer(command.as_bytes()),
            Ok(ControlCommand::Malformed)
        );
        assert_eq!(props, Properties::default());
    }
}

#[test]
fn what_is_no_text_is_refused() {
    let mut props = Properties::default();
    assert_eq!(
        props.handle_ctrl_buffer(&[0x22, 0xff, 0x22]),
        Err(FlowError::Error)
    );
    assert_eq!(props, Properties::default());
}

#[test]
fn members_are_interpreted() {
    let text = |s: &str| Some(s.to_string());
    assert_eq!(interpret(text("set_language"), text("en")), language("en"));
    assert_eq!(interpret(text("set_language"), None), ControlCommand::NoLanguage);
    assert_eq!(interpret(text("stop"), text("en")), unknown("stop"));
    assert_eq!(interpret(None, text("en")), unknown(""));
}
