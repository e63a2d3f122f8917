use kyutaistt::ieee::Binary64;
use kyutaistt::transcript::{copy_output, write_transcript, TimedWord};

fn double(x: f64) -> Binary64 {
    Binary64 { bits: x.to_bits() }
}

fn word(text: &str, start: f64, end: f64) -> TimedWord {
    TimedWord {
        text: text.to_string(),
        start_time: serde_json::Number::from_f64(start),
        end_time: serde_json::Number::from_f64(end),
        confidence: serde_json::Number::from_f64(1.0),
        start_ms: double(start * 1000.0),
        end_ms: double(end * 1000.0),
        start_sample: double(start * 24000.0),
        end_sample: double(end * 24000.0),
    }
}

#[test]
fn no_words_no_segments() {
    assert_eq!(write_transcript(&vec![]), r#"{"segments":[]}"#);
}

#[test]
fn one_segment_for_each_word() {
    let json = write_transcript(&vec![word("hello", 0.32, 0.72), word("w\"o\\r\nld\u{1}", 1.5, 2.0)]);
    assert_eq!(
        json,
        concat_lines(&[
            r#"{"segments":["#,
            r#"{"confidence":1.0,"end_time":0.72,"language":"auto","start_time":0.32,"text":"hello","#,
            r#""tokens":[{"end_ms":720,"end_sample":17280,"prob":1.0,"start_ms":320,"start_sample":7680,"text":"hello"}]},"#,
            r#"{"confidence":1.0,"end_time":2.0,"language":"auto","start_time":1.5,"text":"w\"o\\r\nld\u0001","#,
            r#""tokens":[{"end_ms":2000,"end_sample":48000,"prob":1.0,"start_ms":1500,"start_sample":36000,"text":"w\"o\\r\nld\u0001"}]}"#,
            r#"]}"#,
        ])
    );
    let parsed: serde_json::Value = serde_json::from_str(&json).unwrap();
    assert_eq!(parsed["segments"][1]["text"], "w\"o\\r\nld\u{1}");
    assert_eq!(parsed["segments"][0]["tokens"][0]["start_sample"], 7680);
}

fn concat_lines(lines: &[&str]) -> String {
    lines.concat()
}

#[test]
fn times_out_of_range_and_missing_numbers() {
    let json = write_transcript(&vec![word("x", -1.5, f64::INFINITY)]);
    assert_eq!(
        json,
        concat_lines(&[
            r#"{"segments":[{"confidence":1.0,"end_time":null,"language":"auto","start_time":-1.5,"text":"x","#,
            r#""tokens":[{"end_ms":9223372036854775807,"end_sample":9223372036854775807,"prob":1.0,"#,
            r#""start_ms":-1500,"start_sample":-36000,"text":"x"}]}]}"#,
        ])
    );
    let json = write_transcript(&vec![word("x", f64::NAN, f64::NEG_INFINITY)]);
    assert!(json.contains(r#""start_time":null"#));
    assert!(json.contains(r#""start_ms":0"#));
    assert!(json.contains(r#""end_ms":-9223372036854775808"#));
}

#[test]
fn control_characters_are_escaped() {
    let json = write_transcript(&vec![word("\u{8}\t\n\u{c}\r\u{1f}\u{7f}\u{e9}/", 0.0, 0.0)]);
    let expected = "\"text\":\"\\b\\t\\n\\f\\r\\u001f\u{7f}\u{e9}/\"";
    assert!(json.contains(expected), "{json}");
}

#[test]
fn as_much_is_copied_as_there_is_room() {
    let mut room = [9u8; 4];
    assert_eq!(copy_output(b"ab", &mut room), 2);
    assert_eq!(room, [b'a', b'b', 9, 9]);
    assert_eq!(copy_output(b"cdefgh", &mut room), 4);
    assert_eq!(&room, b"cdef");
    assert_eq!(copy_output(b"", &mut room), 0);
    let mut none: [u8; 0] = [];
    assert_eq!(copy_output(b"xy", &mut none), 0);
}
