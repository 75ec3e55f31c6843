//! The inbound side of a session: what the reader does with each message it
//! receives.

use vstd::prelude::*;
use crate::error::SessionError;
use crate::transcript::{decode_text, decoded, TranscriptEvent, TranscriptEventModel};

verus! {

/// One thing that the receiving half of the connection hands to the reader.
#[derive(Clone, Debug, PartialEq, Eq)]
pub enum InboundFrame {
    /// A text message with its payload.
    Text(String),
    /// A close message.
    Close,
    /// A message of any other kind.
    Other,
    /// Receiving failed.
    Failed,
}

/// `InboundFrame` as plain values.
pub enum InboundFrameModel {
    Text(Seq<char>),
    Close,
    Other,
    Failed,
}

impl View for InboundFrame {
    type V = InboundFrameModel;

    open spec fn view(&self) -> InboundFrameModel {
        match self {
            InboundFrame::Text(text) => InboundFrameModel::Text(text@),
            InboundFrame::Close => InboundFrameModel::Close,
            InboundFrame::Other => InboundFrameModel::Other,
            InboundFrame::Failed => InboundFrameModel::Failed,
        }
    }
}

/// What the reader does after one frame.
#[derive(Clone, Debug, PartialEq, Eq)]
pub enum ReaderAction {
    /// Hand the event to the consumer and go on.
    Emit(TranscriptEvent),
    /// Go on: the frame bears nothing for the consumer.
    Ignore,
    /// Go on: the text message was malformed and is skipped.
    Malformed,
    /// Stop: the service closed the session.
    Closed,
    /// Stop: the connection is lost.
    Lost,
}

/// `ReaderAction` as plain values.
pub enum ReaderActionModel {
    Emit(TranscriptEventModel),
    Ignore,
    Malformed,
    Closed,
    Lost,
}

impl View for ReaderAction {
    type V = ReaderActionModel;

    open spec fn view(&self) -> ReaderActionModel {
        match self {
            ReaderAction::Emit(event) => ReaderActionModel::Emit(event@),
            ReaderAction::Ignore => ReaderActionModel::Ignore,
            ReaderAction::Malformed => ReaderActionModel::Malformed,
            ReaderAction::Closed => ReaderActionModel::Closed,
            ReaderAction::Lost => ReaderActionModel::Lost,
        }
    }
}

impl ReaderActionModel {
    /// Whether the reader goes on after this action.
    pub open spec fn continues(self) -> bool {
        !(self is Closed) && !(self is Lost)
    }

    /// The failure that this action stands for, if any.
    pub open spec fn failure(self) -> Option<SessionError> {
        match self {
            ReaderActionModel::Malformed => Some(SessionError::MalformedServerMessage),
            ReaderActionModel::Lost => Some(SessionError::ConnectionLost),
            _ => None,
        }
    }
}

/// The action for a frame.
pub open spec fn action_of(frame: InboundFrameModel) -> ReaderActionModel {
    match frame {
        InboundFrameModel::Text(text) => match decoded(text) {
            Ok(Some(event)) => ReaderActionModel::Emit(event),
            Ok(None) => ReaderActionModel::Ignore,
            Err(_) => ReaderActionModel::Malformed,
        },
        InboundFrameModel::Close => ReaderActionModel::Closed,
        InboundFrameModel::Other => ReaderActionModel::Ignore,
        InboundFrameModel::Failed => ReaderActionModel::Lost,
    }
}

/// Whether the reader is still running after the given frames.
pub open spec fn reader_alive(frames: Seq<InboundFrameModel>) -> bool {
    forall|i: int| 0 <= i < frames.len() ==> (#[trigger] action_of(frames[i])).continues()
}

/// The events that the reader emits for the given frames, in order.  Frames
/// after the one that stops the reader are not read.
pub open spec fn reader_events(frames: Seq<InboundFrameModel>) -> Seq<TranscriptEventModel>
    decreases frames.len(),
{
    if frames.len() == 0 {
        Seq::empty()
    } else {
        match action_of(frames[0]) {
            ReaderActionModel::Emit(event) => seq![event] + reader_events(frames.drop_first()),
            ReaderActionModel::Ignore => reader_events(frames.drop_first()),
            ReaderActionModel::Malformed => reader_events(frames.drop_first()),
            ReaderActionModel::Closed => Seq::empty(),
            ReaderActionModel::Lost => Seq::empty(),
        }
    }
}

/// A run of text frames.
pub open spec fn text_frames(texts: Seq<Seq<char>>) -> Seq<InboundFrameModel> {
    Seq::new(texts.len(), |i: int| InboundFrameModel::Text(texts[i]))
}

impl ReaderAction {
    /// Tells whether the reader goes on after this action.  When it does
    /// not, the session has ended and the controller is told so.
    pub fn keeps_reading(&self) -> (go_on: bool)
        ensures
            go_on == self@.continues(),
    {
        match self {
            ReaderAction::Closed => false,
            ReaderAction::Lost => false,
            _ => true,
        }
    }

    /// The failure to log or report for this action, if any.
    pub fn error(&self) -> (failure: Option<SessionError>)
        ensures
            failure == self@.failure(),
    {
        match self {
            ReaderAction::Malformed => Some(SessionError::MalformedServerMessage),
            ReaderAction::Lost => Some(SessionError::ConnectionLost),
            _ => None,
        }
    }
}

/// Decides what the reader does with one frame.
///
/// A text message is decoded: a transcript is emitted, a malformed message is
/// skipped, any other message is ignored.  A close message and a receive
/// failure stop the reader.  Messages of other kinds are ignored.
pub fn reader_step(frame: &InboundFrame) -> (action: ReaderAction)
    ensures
        action@ == action_of(frame@),
{
    match frame {
        InboundFrame::Text(text) => match decode_text(text.as_str()) {
            Ok(Some(event)) => ReaderAction::Emit(event),
            Ok(None) => ReaderAction::Ignore,
            Err(_) => ReaderAction::Malformed,
        },
        InboundFrame::Close => ReaderAction::Closed,
        InboundFrame::Other => ReaderAction::Ignore,
        InboundFrame::Failed => ReaderAction::Lost,
    }
}

/// A run of text frames of which each decodes to a transcript is emitted
/// event for event, in order, and leaves the reader running.
pub proof fn lemma_transcripts_emitted_in_order(
    texts: Seq<Seq<char>>,
    events: Seq<TranscriptEventModel>,
)
    requires
        texts.len() == events.len(),
        forall|i: int| 0 <= i < texts.len() ==> decoded(#[trigger] texts[i]) == Ok::<
            Option<TranscriptEventModel>,
            SessionError,
        >(Some(events[i])),
    ensures
        reader_events(text_frames(texts)) == events,
        reader_alive(text_frames(texts)),
    decreases texts.len(),
{
    let frames = text_frames(texts);
    if texts.len() == 0 {
        assert(reader_events(frames) =~= events);
    } else {
        let rest = texts.drop_first();
        let later = events.drop_first();
        assert forall|i: int| 0 <= i < rest.len() implies decoded(#[trigger] rest[i]) == Ok::<
            Option<TranscriptEventModel>,
            SessionError,
        >(Some(later[i])) by {
            assert(rest[i] == texts[i + 1]);
        }
        lemma_transcripts_emitted_in_order(rest, later);
        assert(frames.drop_first() =~= text_frames(rest));
        assert(decoded(texts[0]) == Ok::<Option<TranscriptEventModel>, SessionError>(
            Some(events[0]),
        ));
        assert(reader_events(frames) =~= events);
        assert forall|i: int| 0 <= i < frames.len() implies (#[trigger] action_of(
            frames[i],
        )).continues() by {
            assert(decoded(texts[i]) == Ok::<Option<TranscriptEventModel>, SessionError>(
                Some(events[i]),
            ));
        }
    }
}

/// Resilience: a malformed text message followed by text messages of which
/// each decodes to a transcript gives exactly the events of those messages,
/// in order, and the reader is still running.
pub proof fn lemma_malformed_then_transcripts(
    malformed: Seq<char>,
    texts: Seq<Seq<char>>,
    events: Seq<TranscriptEventModel>,
)
    requires
        decoded(malformed) is Err,
        texts.len() == events.len(),
        forall|i: int| 0 <= i < texts.len() ==> decoded(#[trigger] texts[i]) == Ok::<
            Option<TranscriptEventModel>,
            SessionError,
        >(Some(events[i])),
    ensures
        reader_events(seq![InboundFrameModel::Text(malformed)] + text_frames(texts)) == events,
        reader_alive(seq![InboundFrameModel::Text(malformed)] + text_frames(texts)),
{
    let head = seq![InboundFrameModel::Text(malformed)];
    let frames = head + text_frames(texts);
    lemma_transcripts_emitted_in_order(texts, events);
    assert(frames.drop_first() =~= text_frames(texts));
    assert(action_of(frames[0]) is Malformed);
    assert forall|i: int| 0 <= i < frames.len() implies (#[trigger] action_of(
        frames[i],
    )).continues() by {
        if i > 0 {
            assert(frames[i] == text_frames(texts)[i - 1]);
        }
    }
}

/// A frame that the reader skips or ignores leaves no trace: taken out of
/// the frames received, the events emitted are the same.
pub proof fn lemma_skipped_frame_leaves_no_trace(frames: Seq<InboundFrameModel>, at: int)
    requires
        0 <= at < frames.len(),
        action_of(frames[at]) is Malformed || action_of(frames[at]) is Ignore,
    ensures
        reader_events(frames) == reader_events(frames.remove(at)),
        reader_alive(frames) == reader_alive(frames.remove(at)),
    decreases at,
{
    let short = frames.remove(at);
    if at == 0 {
        assert(short =~= frames.drop_first());
    } else {
        lemma_skipped_frame_leaves_no_trace(frames.drop_first(), at - 1);
        assert(short.drop_first() =~= frames.drop_first().remove(at - 1));
        assert(short[0] == frames[0]);
    }
    if reader_alive(frames) {
        assert forall|i: int| 0 <= i < short.len() implies (#[trigger] action_of(
            short[i],
        )).continues() by {
            if i < at {
                assert(short[i] == frames[i]);
            } else {
                assert(short[i] == frames[i + 1]);
            }
        }
    }
    if reader_alive(short) {
        assert forall|i: int| 0 <= i < frames.len() implies (#[trigger] action_of(
            frames[i],
        )).continues() by {
            if i < at {
                assert(short[i] == frames[i]);
            } else if i > at {
                assert(short[i - 1] == frames[i]);
            }
        }
    }
}

} // verus!
