use speech_stream::error::SessionError;
use speech_stream::reader::{reader_step, InboundFrame, ReaderAction};
use speech_stream::transcript::{decode_text, interpret, TranscriptEvent, WireFields};

fn event(text: &str, is_final: bool) -> TranscriptEvent {
    TranscriptEvent { text: text.to_string(), is_final }
}

fn fields(kind: Option<&str>, transcript: Option<&str>, is_final: Option<bool>) -> WireFields {
    WireFields {
        kind: kind.map(|s| s.to_string()),
        transcript: transcript.map(|s| s.to_string()),
        is_final,
    }
}

#[test]
fn interim_result_yields_event() {
    let text = r#"{"type":"Results","is_final":false,"channel":{"alternatives":[{"transcript":"hel"}]}}"#;
    assert_eq!(decode_text(text), Ok(Some(event("hel", false))));
}

#[test]
fn metadata_yields_no_event() {
    assert_eq!(decode_text(r#"{"type":"Metadata"}"#), Ok(None));
}

#[test]
fn final_result_yields_final_event() {
    let text = r#"{"channel":{"alternatives":[{"transcript":"hello world","confidence":0.98},{"transcript":"other"}]},"is_final":true,"type":"Results"}"#;
    assert_eq!(decode_text(text), Ok(Some(event("hello world", true))));
}

#[test]
fn malformed_text_is_reported() {
    assert_eq!(decode_text("{not json"), Err(SessionError::MalformedServerMessage));
    assert_eq!(decode_text(""), Err(SessionError::MalformedServerMessage));
    assert_eq!(decode_text(r#"{"type":"Results""#), Err(SessionError::MalformedServerMessage));
}

#[test]
fn absent_finality_counts_as_false() {
    let text = r#"{"type":"Results","channel":{"alternatives":[{"transcript":"hi"}]}}"#;
    assert_eq!(decode_text(text), Ok(Some(event("hi", false))));
}

#[test]
fn finality_of_another_type_counts_as_false() {
    let text = r#"{"type":"Results","is_final":"true","channel":{"alternatives":[{"transcript":"hi"}]}}"#;
    assert_eq!(decode_text(text), Ok(Some(event("hi", false))));
}

#[test]
fn absent_transcript_yields_no_event() {
    assert_eq!(decode_text(r#"{"type":"Results","is_final":true}"#), Ok(None));
    assert_eq!(
        decode_text(r#"{"type":"Results","channel":{"alternatives":[]}}"#),
        Ok(None)
    );
}

#[test]
fn empty_transcript_yields_no_event() {
    let text = r#"{"type":"Results","is_final":true,"channel":{"alternatives":[{"transcript":""}]}}"#;
    assert_eq!(decode_text(text), Ok(None));
}

#[test]
fn transcript_of_another_type_yields_no_event() {
    let text = r#"{"type":"Results","channel":{"alternatives":[{"transcript":42}]}}"#;
    assert_eq!(decode_text(text), Ok(None));
}

#[test]
fn missing_or_foreign_type_yields_no_event() {
    let body = r#""channel":{"alternatives":[{"transcript":"hi"}]}"#;
    assert_eq!(decode_text(&format!("{{{}}}", body)), Ok(None));
    assert_eq!(decode_text(&format!(r#"{{"type":"results",{}}}"#, body)), Ok(None));
    assert_eq!(decode_text(&format!(r#"{{"type":7,{}}}"#, body)), Ok(None));
    assert_eq!(decode_text(&format!(r#"{{"type":"Results",{}}}"#, body)), Ok(Some(event("hi", false))));
}

#[test]
fn document_that_is_no_object_yields_no_event() {
    assert_eq!(decode_text("[1,2,3]"), Ok(None));
    assert_eq!(decode_text("\"Results\""), Ok(None));
    assert_eq!(decode_text("null"), Ok(None));
}

#[test]
fn transcript_is_read_from_the_first_alternative() {
    let text = r#"{"type":"Results","channel":{"alternatives":[{"transcript":"first"},{"transcript":"second"}]}}"#;
    assert_eq!(decode_text(text), Ok(Some(event("first", false))));
}

#[test]
fn transcript_keeps_escapes_and_unicode() {
    let text = r#"{"type":"Results","is_final":true,"channel":{"alternatives":[{"transcript":"café \"ok\"\n"}]}}"#;
    assert_eq!(decode_text(text), Ok(Some(event("café \"ok\"\n", true))));
}

#[test]
fn interpret_applies_the_defaults() {
    assert_eq!(
        interpret(&fields(Some("Results"), Some("hel"), None)),
        Some(event("hel", false))
    );
    assert_eq!(
        interpret(&fields(Some("Results"), Some("hel"), Some(true))),
        Some(event("hel", true))
    );
    assert_eq!(interpret(&fields(Some("Results"), None, Some(true))), None);
    assert_eq!(interpret(&fields(Some("Results"), Some(""), Some(true))), None);
    assert_eq!(interpret(&fields(Some("Metadata"), Some("hel"), Some(true))), None);
    assert_eq!(interpret(&fields(None, Some("hel"), Some(true))), None);
}

#[test]
fn reader_emits_transcripts_and_ignores_the_rest() {
    let results = r#"{"type":"Results","is_final":false,"channel":{"alternatives":[{"transcript":"hel"}]}}"#;
    assert_eq!(
        reader_step(&InboundFrame::Text(results.to_string())),
        ReaderAction::Emit(event("hel", false))
    );
    assert_eq!(
        reader_step(&InboundFrame::Text(r#"{"type":"Metadata"}"#.to_string())),
        ReaderAction::Ignore
    );
    assert_eq!(reader_step(&InboundFrame::Text("oops".to_string())), ReaderAction::Malformed);
    assert_eq!(reader_step(&InboundFrame::Other), ReaderAction::Ignore);
    assert_eq!(reader_step(&InboundFrame::Close), ReaderAction::Closed);
    assert_eq!(reader_step(&InboundFrame::Failed), ReaderAction::Lost);
}

#[test]
fn reader_actions_say_whether_to_go_on() {
    assert!(ReaderAction::Emit(event("a", true)).keeps_reading());
    assert!(ReaderAction::Ignore.keeps_reading());
    assert!(ReaderAction::Malformed.keeps_reading());
    assert!(!ReaderAction::Closed.keeps_reading());
    assert!(!ReaderAction::Lost.keeps_reading());
}

#[test]
fn reader_actions_name_their_failure() {
    assert_eq!(ReaderAction::Malformed.error(), Some(SessionError::MalformedServerMessage));
    assert_eq!(ReaderAction::Lost.error(), Some(SessionError::ConnectionLost));
    assert_eq!(ReaderAction::Closed.error(), None);
    assert_eq!(ReaderAction::Ignore.error(), None);
    assert_eq!(ReaderAction::Emit(event("a", false)).error(), None);
}

#[test]
fn malformed_message_does_not_stop_the_reader() {
    let mut frames = vec![InboundFrame::Text("{\"type\":".to_string())];
    let mut expected = Vec::new();
    for i in 0..5 {
        let word = format!("word{}", i);
        let is_final = i % 2 == 1;
        frames.push(InboundFrame::Text(format!(
            r#"{{"type":"Results","is_final":{},"channel":{{"alternatives":[{{"transcript":"{}"}}]}}}}"#,
            is_final, word
        )));
        expected.push(TranscriptEvent { text: word, is_final });
    }
    let mut emitted = Vec::new();
    let mut running = true;
    for frame in &frames {
        assert!(running);
        let action = reader_step(frame);
        running = action.keeps_reading();
        if let ReaderAction::Emit(found) = action {
            emitted.push(found);
        }
    }
    assert!(running);
    assert_eq!(emitted, expected);
}
