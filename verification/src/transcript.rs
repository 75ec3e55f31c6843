//! Reading a text message of the transcription service.
//!
//! A message is a JSON document.  Three of its fields matter: the message
//! type, the transcript of the first alternative, and the finality flag.
//! `serde_json` parses the document and finds the fields; what they mean is
//! decided here.

use vstd::prelude::*;
use vstd::string::StringExecFns;
use crate::error::SessionError;

verus! {

/// The fields of a server message that the reader looks at, each as it was
/// found: `None` where the document has no such field or the field has
/// another JSON type.
#[derive(Clone, Debug, PartialEq, Eq)]
pub struct WireFields {
    /// The string under the key of the message type.
    pub kind: Option<String>,
    /// The string at the place of the transcript.
    pub transcript: Option<String>,
    /// The boolean under the key of the finality flag.
    pub is_final: Option<bool>,
}

/// `WireFields` as plain values.
pub struct WireFieldsModel {
    pub kind: Option<Seq<char>>,
    pub transcript: Option<Seq<char>>,
    pub is_final: Option<bool>,
}

/// The view of a string that may be absent.
pub open spec fn text_view(text: Option<String>) -> Option<Seq<char>> {
    match text {
        Some(s) => Some(s@),
        None => None,
    }
}

impl View for WireFields {
    type V = WireFieldsModel;

    open spec fn view(&self) -> WireFieldsModel {
        WireFieldsModel {
            kind: text_view(self.kind),
            transcript: text_view(self.transcript),
            is_final: self.is_final,
        }
    }
}

/// A piece of recognized speech: the text, and whether the service will
/// still revise it.
#[derive(Clone, Debug, PartialEq, Eq)]
pub struct TranscriptEvent {
    /// The recognized text, never empty.
    pub text: String,
    /// `true` when the service will not revise this text again.
    pub is_final: bool,
}

/// `TranscriptEvent` as plain values.
pub struct TranscriptEventModel {
    pub text: Seq<char>,
    pub is_final: bool,
}

impl View for TranscriptEvent {
    type V = TranscriptEventModel;

    open spec fn view(&self) -> TranscriptEventModel {
        TranscriptEventModel { text: self.text@, is_final: self.is_final }
    }
}

/// The view of an event that may be absent.
pub open spec fn event_view(event: Option<TranscriptEvent>) -> Option<TranscriptEventModel> {
    match event {
        Some(e) => Some(e@),
        None => None,
    }
}

/// The view of what decoding returns.
pub open spec fn decoded_view(decoded: Result<Option<TranscriptEvent>, SessionError>) -> Result<
    Option<TranscriptEventModel>,
    SessionError,
> {
    match decoded {
        Ok(event) => Ok(event_view(event)),
        Err(error) => Err(error),
    }
}

/// The key of the message type.
pub open spec fn kind_key() -> Seq<char> {
    "type"@
}

/// The JSON Pointer of the transcript: that of the first alternative of the
/// channel.
pub open spec fn transcript_pointer() -> Seq<char> {
    "/channel/alternatives/0/transcript"@
}

/// The key of the finality flag.
pub open spec fn final_key() -> Seq<char> {
    "is_final"@
}

/// The message type of a message that bears a transcript.
pub open spec fn results_kind() -> Seq<char> {
    "Results"@
}

/// The event that a message with the given fields stands for.
///
/// Only a message of type `Results` bears a transcript.  An absent transcript
/// counts as empty and an absent finality flag as `false`.  A message with an
/// empty transcript stands for no event.
pub open spec fn event_of(fields: WireFieldsModel) -> Option<TranscriptEventModel> {
    let text = match fields.transcript {
        Some(t) => t,
        None => Seq::<char>::empty(),
    };
    let is_final = match fields.is_final {
        Some(f) => f,
        None => false,
    };
    if fields.kind == Some(results_kind()) && text.len() > 0 {
        Some(TranscriptEventModel { text, is_final })
    } else {
        None
    }
}

/// What `serde_json` finds in a text: `None` where the text is no JSON
/// document, else the string that `Value::get` finds under `kind_key`, the
/// string that `Value::pointer` finds at `transcript_pointer`, and the boolean
/// that `Value::get` finds under `final_key`.
pub uninterp spec fn parsed_fields(
    text: Seq<char>,
    kind_key: Seq<char>,
    transcript_pointer: Seq<char>,
    final_key: Seq<char>,
) -> Option<WireFieldsModel>;

/// What a text message decodes to: the failure `MalformedServerMessage` where
/// it is no JSON document, else the event it stands for, if any.
pub open spec fn decoded(text: Seq<char>) -> Result<Option<TranscriptEventModel>, SessionError> {
    match parsed_fields(text, kind_key(), transcript_pointer(), final_key()) {
        Some(fields) => Ok(event_of(fields)),
        None => Err(SessionError::MalformedServerMessage),
    }
}

/// `serde_json::Error`, opaque here: why a text is no JSON document.
#[verifier::external_type_specification]
#[verifier::external_body]
pub struct ExJsonError(serde_json::Error);

/// Parses `text` with `serde_json::from_str` into a `serde_json::Value` and
/// reads three fields of it: with `Value::get` and `Value::as_str` the string
/// under `kind_key`, with `Value::pointer` and `Value::as_str` the string at
/// `transcript_pointer`, with `Value::get` and `Value::as_bool` the boolean
/// under `final_key`.
///
/// Nothing of this is proved.  The contract claims that the outcome is a
/// function of the four arguments, `parsed_fields`, and that the error of
/// `from_str` comes back exactly where that function is `None`.
#[verifier::external_body]
fn read_fields(text: &str, kind_key: &str, transcript_pointer: &str, final_key: &str) -> (fields:
    Result<WireFields, serde_json::Error>)
    ensures
        match fields {
            Ok(found) => parsed_fields(text@, kind_key@, transcript_pointer@, final_key@) == Some(
                found@,
            ),
            Err(_) => parsed_fields(text@, kind_key@, transcript_pointer@, final_key@) is None,
        },
{
    let doc = serde_json::from_str::<serde_json::Value>(text)?;
    Ok(
        WireFields {
            kind: doc.get(kind_key).and_then(|v| v.as_str()).map(|s| s.to_string()),
            transcript: doc.pointer(transcript_pointer).and_then(|v| v.as_str()).map(
                |s| s.to_string(),
            ),
            is_final: doc.get(final_key).and_then(|v| v.as_bool()),
        },
    )
}

/// Decides which event, if any, a message with the given fields stands for.
pub fn interpret(fields: &WireFields) -> (event: Option<TranscriptEvent>)
    ensures
        event_view(event) == event_of(fields@),
{
    let bears_transcript = match &fields.kind {
        Some(kind) => {
            let results = String::from_str("Results");
            *kind == results
        },
        None => false,
    };
    if !bears_transcript {
        return None;
    }
    let is_final = match fields.is_final {
        Some(flag) => flag,
        None => false,
    };
    match &fields.transcript {
        Some(text) => {
            if text.as_str().is_empty() {
                None
            } else {
                Some(TranscriptEvent { text: text.clone(), is_final })
            }
        },
        None => None,
    }
}

/// Decodes one text message of the service.
///
/// Returns `Err(MalformedServerMessage)` where the text is no JSON document,
/// `Ok(None)` for a message that bears no transcript or an empty one, and
/// `Ok(Some(event))` for a transcript.
pub fn decode_text(text: &str) -> (outcome: Result<Option<TranscriptEvent>, SessionError>)
    ensures
        decoded_view(outcome) == decoded(text@),
{
    match read_fields(text, "type", "/channel/alternatives/0/transcript", "is_final") {
        Ok(fields) => Ok(interpret(&fields)),
        Err(_) => Err(SessionError::MalformedServerMessage),
    }
}

} // verus!
