//! What streamed responses have in common.

use vstd::prelude::*;
use crate::error::{Failure, FailureView};
use crate::inference;
use crate::inference::{CompletionEvent, CompletionEventView, StreamKind};

verus! {

/// What the engine's stream yields next: an event, a failure, or its end.
#[derive(Debug)]
pub enum StreamInput {
    Event(CompletionEvent),
    Failed(Failure),
    Ended,
}

pub enum StreamInputView {
    Event(CompletionEventView),
    Failed(FailureView),
    Ended,
}

impl View for StreamInput {
    type V = StreamInputView;

    open spec fn view(&self) -> StreamInputView {
        match self {
            StreamInput::Event(event) => StreamInputView::Event(event@),
            StreamInput::Failed(failure) => StreamInputView::Failed(failure@),
            StreamInput::Ended => StreamInputView::Ended,
        }
    }
}

/// Whether the stream goes on after an input.
pub open spec fn goes_on(input: StreamInputView) -> bool {
    input matches StreamInputView::Event(CompletionEventView::Delta(_))
}

/// Whether the input is a summary with counts.
pub open spec fn measured(input: StreamInputView) -> bool {
    input matches StreamInputView::Event(CompletionEventView::Done(summary)) && summary.usage is Some
}

/// Pieces of text, as the engine's stream yields them.
pub open spec fn delta_inputs(deltas: Seq<Seq<char>>) -> Seq<StreamInputView> {
    deltas.map_values(|t: Seq<char>| StreamInputView::Event(CompletionEventView::Delta(t)))
}

/// The head of a response that an engine served.
#[derive(Debug, Clone, Copy)]
pub struct ResponseHead {
    pub status: u16,
    pub content_type: &'static str,
    /// The value of the `x-hologram-stream` header.
    pub stream: &'static str,
}

/// The head of a response of the given content type: the header names how the
/// engine streams, whether the response is a stream or not.
pub fn response_head(content_type: &'static str, kind: StreamKind) -> (head: ResponseHead)
    ensures
        head.status == 200,
        head.content_type@ == content_type@,
        head.stream@ == inference::stream_header(kind),
{
    ResponseHead { status: 200, content_type, stream: kind.header_value() }
}

/// The inputs of a stream whose engine yields `events` and then ends.
pub open spec fn event_inputs(events: Seq<CompletionEventView>) -> Seq<StreamInputView> {
    events.map_values(|e: CompletionEventView| StreamInputView::Event(e)).push(
        StreamInputView::Ended,
    )
}

/// The text that the inputs of a stream carry, up to the first without text.
pub open spec fn yielded(inputs: Seq<StreamInputView>) -> Seq<char>
    decreases inputs.len(),
{
    if inputs.len() == 0 {
        seq![]
    } else {
        match inputs[0] {
            StreamInputView::Event(CompletionEventView::Delta(text)) => text + yielded(
                inputs.drop_first(),
            ),
            _ => seq![],
        }
    }
}

/// The head of every answer tells success, the type that it was given, and
/// whether the engine's stream is native.
pub proof fn law_head_says_how_the_engine_streams(
    content_type: &'static str,
    kind: StreamKind,
    head: ResponseHead,
)
    requires
        call_ensures(response_head, (content_type, kind), head),
    ensures
        head.status == 200,
        head.content_type@ == content_type@,
        kind == StreamKind::Native ==> head.stream@ == "native"@,
        kind == StreamKind::Buffered ==> head.stream@ == "emulated"@,
{
}

} // verus!
