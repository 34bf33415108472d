//! The server-sent events of a streamed chat completion.
//!
//! A stream opens with a chunk that announces the assistant, carries one chunk
//! per piece of text, and closes with a chunk that tells why it stopped, the
//! counts on request, and the end marker. A failure on the way is reported in
//! the stream itself, because the status has been sent by then; it is followed
//! by the end marker and by no claim of a clean stop.

use vstd::prelude::*;
use crate::error::FailureView;
use crate::inference;
use crate::inference::{CompletionEvent, CompletionEventView, CompletionView, TokenUsage};
use crate::modules::openai_compat;
use crate::modules::openai_compat::{
    ChatCompletionChunk, ChatCompletionChunkView, ChunkChoice, ChunkChoiceView, ChunkDelta,
    ChunkDeltaView, OpenAiError, OpenAiErrorBodyView, OpenAiErrorEnvelope, Usage,
};
use crate::modules::stream;
use crate::modules::stream::{StreamInput, StreamInputView};
use crate::text;

verus! {

/// One event of the response body.
#[derive(Debug)]
pub enum Frame {
    Chunk(ChatCompletionChunk),
    Error(OpenAiErrorEnvelope),
    /// The end marker.
    End,
}

pub enum FrameView {
    Chunk(ChatCompletionChunkView),
    Error(OpenAiErrorBodyView),
    End,
}

impl View for Frame {
    type V = FrameView;

    open spec fn view(&self) -> FrameView {
        match self {
            Frame::Chunk(chunk) => FrameView::Chunk(chunk@),
            Frame::Error(envelope) => FrameView::Error(envelope@),
            Frame::End => FrameView::End,
        }
    }
}

/// What a list of frames says.
pub open spec fn frames(list: Seq<Frame>) -> Seq<FrameView> {
    list.map_values(|f: Frame| f@)
}

/// The text that stands for the end of the stream.
pub open spec fn end_marker_text() -> Seq<char> {
    "[DONE]"@
}

/// The text that stands for the end of the stream.
pub fn end_marker() -> (marker: &'static str)
    ensures
        marker@ == end_marker_text(),
{
    "[DONE]"
}

/// A streamed chat completion.
#[derive(Debug)]
pub struct ChatStream {
    id: String,
    created: u64,
    model: String,
    include_usage: bool,
    open: bool,
}

pub struct ChatStreamView {
    pub id: Seq<char>,
    pub created: u64,
    pub model: Seq<char>,
    pub include_usage: bool,
    /// Whether frames may still follow.
    pub open: bool,
}

impl View for ChatStream {
    type V = ChatStreamView;

    closed spec fn view(&self) -> ChatStreamView {
        ChatStreamView {
            id: self.id@,
            created: self.created,
            model: self.model@,
            include_usage: self.include_usage,
            open: self.open,
        }
    }
}

/// A chunk of a stream.
pub open spec fn chunk(
    stream: ChatStreamView,
    choices: Seq<ChunkChoiceView>,
    usage: Option<Usage>,
) -> FrameView {
    FrameView::Chunk(
        ChatCompletionChunkView {
            id: stream.id,
            object: "chat.completion.chunk"@,
            created: stream.created,
            model: stream.model,
            choices,
            usage,
        },
    )
}

/// A chunk with one choice.
pub open spec fn choice_chunk(
    stream: ChatStreamView,
    role: Option<Seq<char>>,
    content: Option<Seq<char>>,
    finish_reason: Option<Seq<char>>,
) -> FrameView {
    chunk(
        stream,
        seq![ChunkChoiceView { index: 0, delta: ChunkDeltaView { role, content }, finish_reason }],
        None,
    )
}

/// The chunk that announces the assistant.
pub open spec fn role_frame(stream: ChatStreamView) -> FrameView {
    choice_chunk(stream, Some("assistant"@), None, None)
}

/// The chunk for a piece of text.
pub open spec fn delta_frame(stream: ChatStreamView, text: Seq<char>) -> FrameView {
    choice_chunk(stream, None, Some(text), None)
}

/// The chunk that tells that the answer is complete.
pub open spec fn stop_frame(stream: ChatStreamView) -> FrameView {
    choice_chunk(stream, None, None, Some("stop"@))
}

/// The chunk that carries the counts and no choices.
pub open spec fn usage_frame(stream: ChatStreamView, usage: TokenUsage) -> FrameView {
    chunk(stream, seq![], Some(openai_compat::with_total(usage)))
}

/// How a stream closes cleanly: the counts come only if the client asked for
/// them and the engine measured them.
pub open spec fn clean_end(stream: ChatStreamView, usage: Option<TokenUsage>) -> Seq<FrameView> {
    match usage {
        Some(usage) if stream.include_usage => seq![
            stop_frame(stream),
            usage_frame(stream, usage),
            FrameView::End,
        ],
        _ => seq![stop_frame(stream), FrameView::End],
    }
}

/// How a stream closes after a failure.
pub open spec fn failed_end(failure: FailureView) -> Seq<FrameView> {
    seq![FrameView::Error(openai_compat::failure_error(failure).body), FrameView::End]
}

/// The frames that an input of an open stream leads to.
pub open spec fn frames_for(stream: ChatStreamView, input: StreamInputView) -> Seq<FrameView> {
    match input {
        StreamInputView::Event(CompletionEventView::Delta(text)) => seq![
            delta_frame(stream, text),
        ],
        StreamInputView::Event(CompletionEventView::Done(summary)) => clean_end(
            stream,
            summary.usage,
        ),
        StreamInputView::Failed(failure) => failed_end(failure),
        StreamInputView::Ended => clean_end(stream, None),
    }
}

impl ChatStream {
    /// A stream for `model`, with the id that its creation gives it.
    pub fn start(created: u64, sequence: u64, model: String, include_usage: bool) -> (stream: Self)
        ensures
            stream@ == (ChatStreamView {
                id: openai_compat::completion_id_text(created, sequence, model@),
                created,
                model: model@,
                include_usage,
                open: true,
            }),
    {
        let id = openai_compat::completion_id(created, sequence, model.as_str());
        ChatStream { id, created, model, include_usage, open: true }
    }

    /// Whether frames may still follow.
    pub fn is_open(&self) -> (open: bool)
        ensures
            open == self@.open,
    {
        self.open
    }

    fn chunk(&self, choices: Vec<ChunkChoice>, usage: Option<Usage>) -> (frame: Frame)
        ensures
            frame@ == chunk(self@, choices@.map_values(|c: ChunkChoice| c@), usage),
    {
        Frame::Chunk(
            ChatCompletionChunk {
                id: self.id.clone(),
                object: "chat.completion.chunk".to_owned(),
                created: self.created,
                model: self.model.clone(),
                choices,
                usage,
            },
        )
    }

    fn choice_chunk(
        &self,
        role: Option<String>,
        content: Option<String>,
        finish_reason: Option<String>,
    ) -> (frame: Frame)
        ensures
            frame@ == choice_chunk(
                self@,
                text::opt(role),
                text::opt(content),
                text::opt(finish_reason),
            ),
    {
        let mut choices: Vec<ChunkChoice> = Vec::new();
        choices.push(ChunkChoice { index: 0, delta: ChunkDelta { role, content }, finish_reason });
        assert(choices@.map_values(|c: ChunkChoice| c@) =~= seq![
            ChunkChoiceView {
                index: 0,
                delta: ChunkDeltaView {
                    role: text::opt(role),
                    content: text::opt(content),
                },
                finish_reason: text::opt(finish_reason),
            },
        ]);
        self.chunk(choices, None)
    }

    /// The chunk that opens the stream.
    pub fn role_chunk(&self) -> (frame: Frame)
        ensures
            frame@ == role_frame(self@),
    {
        self.choice_chunk(Some("assistant".to_owned()), None, None)
    }

    fn finish(&self, usage: Option<TokenUsage>) -> (list: Vec<Frame>)
        ensures
            frames(list@) == clean_end(self@, usage),
    {
        let mut list: Vec<Frame> = Vec::new();
        list.push(self.choice_chunk(None, None, Some("stop".to_owned())));
        if self.include_usage {
            if let Some(usage) = usage {
                let choices: Vec<ChunkChoice> = Vec::new();
                assert(choices@.map_values(|c: ChunkChoice| c@) =~= seq![]);
                list.push(self.chunk(choices, Some(Usage::from(usage))));
            }
        }
        list.push(Frame::End);
        assert(frames(list@) =~= clean_end(self@, usage));
        list
    }

    /// Takes what the engine's stream yields next and gives the frames to
    /// send. After the summary, a failure or the end, the stream is closed and
    /// gives no more frames, whatever the engine yields.
    pub fn step(&mut self, input: StreamInput) -> (list: Vec<Frame>)
        ensures
            final(self)@ == (ChatStreamView {
                open: old(self)@.open && stream::goes_on(input@),
                ..old(self)@
            }),
            frames(list@) == if old(self)@.open {
                frames_for(old(self)@, input@)
            } else {
                seq![]
            },
    {
        if !self.open {
            let list: Vec<Frame> = Vec::new();
            assert(frames(list@) =~= seq![]);
            return list;
        }
        match input {
            StreamInput::Event(CompletionEvent::Delta(text)) => {
                let mut list: Vec<Frame> = Vec::new();
                list.push(self.choice_chunk(None, Some(text), None));
                assert(frames(list@) =~= frames_for(self@, input@));
                list
            },
            StreamInput::Event(CompletionEvent::Done(summary)) => {
                let list = self.finish(summary.usage);
                self.open = false;
                list
            },
            StreamInput::Failed(failure) => {
                let mut list: Vec<Frame> = Vec::new();
                list.push(
                    Frame::Error(
                        OpenAiErrorEnvelope { error: OpenAiError::from(failure).body },
                    ),
                );
                list.push(Frame::End);
                assert(frames(list@) =~= frames_for(self@, input@));
                self.open = false;
                list
            },
            StreamInput::Ended => {
                let list = self.finish(None);
                self.open = false;
                list
            },
        }
    }
}

/// The frames that follow the opening chunk when the engine's stream yields
/// `inputs` in turn.
pub open spec fn body_after(stream: ChatStreamView, inputs: Seq<StreamInputView>) -> Seq<FrameView>
    decreases inputs.len(),
{
    if inputs.len() == 0 || !stream.open {
        seq![]
    } else {
        frames_for(stream, inputs[0]) + body_after(
            ChatStreamView { open: stream::goes_on(inputs[0]), ..stream },
            inputs.drop_first(),
        )
    }
}

/// The response body when the engine's stream yields `inputs` in turn.
pub open spec fn body(stream: ChatStreamView, inputs: Seq<StreamInputView>) -> Seq<FrameView> {
    seq![role_frame(stream)] + body_after(stream, inputs)
}

/// The chunks for pieces of text.
pub open spec fn delta_frames(stream: ChatStreamView, deltas: Seq<Seq<char>>) -> Seq<FrameView> {
    deltas.map_values(|t: Seq<char>| delta_frame(stream, t))
}

/// Whether the frame claims that the answer is complete.
pub open spec fn claims_stop(frame: FrameView) -> bool {
    frame matches FrameView::Chunk(c) && exists|i: int|
        0 <= i < c.choices.len() && (#[trigger] c.choices[i]).finish_reason is Some
}

/// Whether the frame carries counts.
pub open spec fn carries_usage(frame: FrameView) -> bool {
    frame matches FrameView::Chunk(c) && c.usage is Some
}

proof fn lemma_body_after(
    stream: ChatStreamView,
    deltas: Seq<Seq<char>>,
    last: StreamInputView,
    rest: Seq<StreamInputView>,
)
    requires
        stream.open,
        !stream::goes_on(last),
    ensures
        body_after(stream, stream::delta_inputs(deltas) + seq![last] + rest) == delta_frames(
            stream,
            deltas,
        ) + frames_for(stream, last),
    decreases deltas.len(),
{
    let inputs = stream::delta_inputs(deltas) + seq![last] + rest;
    if deltas.len() == 0 {
        assert(inputs[0] == last);
        reveal_with_fuel(body_after, 2);
        assert(body_after(stream, inputs) =~= frames_for(stream, last));
        assert(delta_frames(stream, deltas) + frames_for(stream, last) =~= frames_for(
            stream,
            last,
        ));
    } else {
        let fewer = deltas.drop_first();
        assert(inputs.drop_first() =~= stream::delta_inputs(fewer) + seq![last] + rest);
        assert(inputs[0] == StreamInputView::Event(CompletionEventView::Delta(deltas[0])));
        assert((ChatStreamView { open: stream::goes_on(inputs[0]), ..stream }) == stream);
        lemma_body_after(stream, fewer, last, rest);
        assert(delta_frames(stream, deltas) =~= seq![delta_frame(stream, deltas[0])]
            + delta_frames(stream, fewer));
        assert(body_after(stream, inputs) =~= delta_frames(stream, deltas) + frames_for(
            stream,
            last,
        ));
    }
}

/// The body of a stream: the announcement, one chunk per piece of text in
/// order, and the close that the first input without text calls for. What the
/// engine yields after that input changes nothing.
pub proof fn law_stream_body(
    stream: ChatStreamView,
    deltas: Seq<Seq<char>>,
    last: StreamInputView,
    rest: Seq<StreamInputView>,
)
    requires
        stream.open,
        !stream::goes_on(last),
    ensures
        body(stream, stream::delta_inputs(deltas) + seq![last] + rest) == seq![role_frame(stream)]
            + delta_frames(stream, deltas) + frames_for(stream, last),
{
    lemma_body_after(stream, deltas, last, rest);
    assert(body(stream, stream::delta_inputs(deltas) + seq![last] + rest) =~= seq![
        role_frame(stream),
    ] + delta_frames(stream, deltas) + frames_for(stream, last));
}

/// Every closed stream ends with the end marker, and the marker stands nowhere
/// else.
pub proof fn law_end_marker_is_last(
    stream: ChatStreamView,
    deltas: Seq<Seq<char>>,
    last: StreamInputView,
    rest: Seq<StreamInputView>,
)
    requires
        stream.open,
        !stream::goes_on(last),
    ensures
        ({
            let frames = body(stream, stream::delta_inputs(deltas) + seq![last] + rest);
            forall|i: int|
                0 <= i < frames.len() ==> ((#[trigger] frames[i]) == FrameView::End <==> i
                    == frames.len() - 1)
        }),
        body(stream, stream::delta_inputs(deltas) + seq![last] + rest).len() > 0,
{
    law_stream_body(stream, deltas, last, rest);
    let frames = body(stream, stream::delta_inputs(deltas) + seq![last] + rest);
    let tail = frames_for(stream, last);
    assert forall|i: int| 0 <= i < frames.len() implies ((#[trigger] frames[i]) == FrameView::End
        <==> i == frames.len() - 1) by {
        if i >= 1 + deltas.len() {
            assert(frames[i] == tail[i - 1 - deltas.len()]);
        } else if i >= 1 {
            assert(frames[i] == delta_frame(stream, deltas[i - 1]));
        }
    }
}

/// A stream that failed never claims a clean stop, and it tells the failure
/// right before the end marker.
pub proof fn law_failed_stream_never_stops(
    stream: ChatStreamView,
    deltas: Seq<Seq<char>>,
    failure: FailureView,
    rest: Seq<StreamInputView>,
)
    requires
        stream.open,
    ensures
        ({
            let frames = body(
                stream,
                stream::delta_inputs(deltas) + seq![StreamInputView::Failed(failure)] + rest,
            );
            &&& frames.len() >= 2
            &&& frames[frames.len() - 2] == FrameView::Error(
                openai_compat::failure_error(failure).body,
            )
            &&& forall|i: int| 0 <= i < frames.len() ==> !claims_stop(#[trigger] frames[i])
        }),
{
    let last = StreamInputView::Failed(failure);
    law_stream_body(stream, deltas, last, rest);
    let frames = body(stream, stream::delta_inputs(deltas) + seq![last] + rest);
    assert forall|i: int| 0 <= i < frames.len() implies !claims_stop(#[trigger] frames[i]) by {
        if i >= 1 + deltas.len() {
            assert(frames[i] == failed_end(failure)[i - 1 - deltas.len()]);
        } else if i >= 1 {
            assert(frames[i] == delta_frame(stream, deltas[i - 1]));
        }
    }
}

/// A stream that closes cleanly claims its stop exactly once, after all text;
/// the counts stand right before the end marker if the client asked for them
/// and the engine measured them, and nowhere otherwise.
pub proof fn law_clean_stream_stops_once(
    stream: ChatStreamView,
    deltas: Seq<Seq<char>>,
    last: StreamInputView,
    rest: Seq<StreamInputView>,
)
    requires
        stream.open,
        !stream::goes_on(last),
        !(last is Failed),
    ensures
        ({
            let frames = body(stream, stream::delta_inputs(deltas) + seq![last] + rest);
            let counted = stream.include_usage && stream::measured(last);
            &&& forall|i: int|
                0 <= i < frames.len() ==> (claims_stop(#[trigger] frames[i]) <==> i == 1
                    + deltas.len())
            &&& forall|i: int|
                0 <= i < frames.len() ==> (carries_usage(#[trigger] frames[i]) <==> counted && i
                    == frames.len() - 2)
        }),
{
    law_stream_body(stream, deltas, last, rest);
    let frames = body(stream, stream::delta_inputs(deltas) + seq![last] + rest);
    let tail = frames_for(stream, last);
    let stop = tail[0];
    assert(claims_stop(stop)) by {
        assert(stop->Chunk_0.choices[0].finish_reason is Some);
    }
    assert forall|i: int| 0 <= i < frames.len() implies (claims_stop(#[trigger] frames[i]) <==> i
        == 1 + deltas.len()) by {
        if i >= 1 + deltas.len() {
            assert(frames[i] == tail[i - 1 - deltas.len()]);
        } else if i >= 1 {
            assert(frames[i] == delta_frame(stream, deltas[i - 1]));
        }
    }
    assert forall|i: int| 0 <= i < frames.len() implies (carries_usage(#[trigger] frames[i])
        <==> stream.include_usage && stream::measured(last) && i == frames.len() - 2) by {
        if i >= 1 + deltas.len() {
            assert(frames[i] == tail[i - 1 - deltas.len()]);
        } else if i >= 1 {
            assert(frames[i] == delta_frame(stream, deltas[i - 1]));
        }
    }
}

/// A completed answer that is replayed reaches the client whole: its text in
/// one chunk, and its counts where they are asked for.
pub proof fn law_replayed_answer_is_whole(stream: ChatStreamView, completion: CompletionView)
    requires
        stream.open,
    ensures
        body(stream, stream::event_inputs(inference::replay(completion))) == seq![
            role_frame(stream),
            delta_frame(stream, completion.text),
        ] + clean_end(stream, completion.usage),
{
    let inputs = stream::event_inputs(inference::replay(completion));
    let deltas = seq![completion.text];
    let last = inputs[1];
    assert(inputs =~= stream::delta_inputs(deltas) + seq![last] + seq![StreamInputView::Ended]);
    law_stream_body(stream, deltas, last, seq![StreamInputView::Ended]);
    assert(seq![role_frame(stream)] + delta_frames(stream, deltas) + frames_for(stream, last)
        =~= seq![role_frame(stream), delta_frame(stream, completion.text)] + clean_end(
        stream,
        completion.usage,
    ));
}

/// The text of the choices of a chunk.
pub open spec fn choices_text(choices: Seq<ChunkChoiceView>) -> Seq<char>
    decreases choices.len(),
{
    if choices.len() == 0 {
        seq![]
    } else {
        choices_text(choices.drop_last()) + match choices.last().delta.content {
            Some(text) => text,
            None => seq![],
        }
    }
}

/// The text of a response body: what its chunks carry, one after the other.
pub open spec fn body_text(list: Seq<FrameView>) -> Seq<char>
    decreases list.len(),
{
    if list.len() == 0 {
        seq![]
    } else {
        body_text(list.drop_last()) + match list.last() {
            FrameView::Chunk(chunk) => choices_text(chunk.choices),
            _ => seq![],
        }
    }
}

proof fn lemma_body_text_concat(a: Seq<FrameView>, b: Seq<FrameView>)
    ensures
        body_text(a + b) == body_text(a) + body_text(b),
    decreases b.len(),
{
    if b.len() == 0 {
        assert(a + b =~= a);
        assert(body_text(a) + body_text(b) =~= body_text(a));
    } else {
        lemma_body_text_concat(a, b.drop_last());
        assert((a + b).drop_last() =~= a + b.drop_last());
        assert((a + b).last() == b.last());
        let end = match b.last() {
            FrameView::Chunk(chunk) => choices_text(chunk.choices),
            _ => seq![],
        };
        assert(body_text(a) + body_text(b.drop_last()) + end =~= body_text(a) + (body_text(
            b.drop_last(),
        ) + end));
    }
}

proof fn lemma_frame_text(frame: FrameView)
    ensures
        body_text(seq![frame]) == match frame {
            FrameView::Chunk(chunk) => choices_text(chunk.choices),
            _ => seq![],
        },
{
    reveal_with_fuel(body_text, 2);
    assert(seq![frame].drop_last() =~= seq![]);
    let own = match frame {
        FrameView::Chunk(chunk) => choices_text(chunk.choices),
        _ => seq![],
    };
    assert(Seq::<char>::empty() + own =~= own);
}

proof fn lemma_choice_text(choice: ChunkChoiceView)
    ensures
        choices_text(seq![choice]) == match choice.delta.content {
            Some(text) => text,
            None => seq![],
        },
{
    reveal_with_fuel(choices_text, 2);
    assert(seq![choice].drop_last() =~= seq![]);
    let own = match choice.delta.content {
        Some(text) => text,
        None => seq![],
    };
    assert(Seq::<char>::empty() + own =~= own);
}

proof fn lemma_closing_frames_have_no_text(stream: ChatStreamView, input: StreamInputView)
    requires
        !stream::goes_on(input),
    ensures
        body_text(frames_for(stream, input)) == Seq::<char>::empty(),
{
    let list = frames_for(stream, input);
    lemma_frame_text(list[0]);
    lemma_frame_text(list[1]);
    if let FrameView::Chunk(chunk) = list[0] {
        lemma_choice_text(chunk.choices[0]);
        assert(chunk.choices =~= seq![chunk.choices[0]]);
    }
    if list.len() == 3 {
        lemma_frame_text(list[2]);
        lemma_body_text_concat(seq![list[0]], seq![list[1]]);
        lemma_body_text_concat(seq![list[0]] + seq![list[1]], seq![list[2]]);
        assert(list =~= seq![list[0]] + seq![list[1]] + seq![list[2]]);
    } else {
        lemma_body_text_concat(seq![list[0]], seq![list[1]]);
        assert(list =~= seq![list[0]] + seq![list[1]]);
    }
    assert(body_text(list) =~= seq![]);
}

proof fn lemma_body_after_text(stream: ChatStreamView, inputs: Seq<StreamInputView>)
    requires
        stream.open,
    ensures
        body_text(body_after(stream, inputs)) == stream::yielded(inputs),
    decreases inputs.len(),
{
    if inputs.len() > 0 {
        let next = ChatStreamView { open: stream::goes_on(inputs[0]), ..stream };
        let first = frames_for(stream, inputs[0]);
        let rest = body_after(next, inputs.drop_first());
        lemma_body_text_concat(first, rest);
        if let StreamInputView::Event(CompletionEventView::Delta(text)) = inputs[0] {
            assert(next == stream);
            lemma_body_after_text(stream, inputs.drop_first());
            lemma_frame_text(first[0]);
            assert(first =~= seq![first[0]]);
            let chunk = first[0]->Chunk_0;
            lemma_choice_text(chunk.choices[0]);
            assert(chunk.choices =~= seq![chunk.choices[0]]);
        } else {
            lemma_closing_frames_have_no_text(stream, inputs[0]);
            assert(rest =~= seq![]);
            assert(body_text(first) + body_text(rest) =~= seq![]);
        }
    }
}

/// The client gets the engine's text whole: what the chunks of a response body
/// carry, put together in order, is what the engine's stream yielded up to its
/// end, character by character.
pub proof fn law_body_says_what_the_engine_yields(
    stream: ChatStreamView,
    inputs: Seq<StreamInputView>,
)
    requires
        stream.open,
    ensures
        body_text(body(stream, inputs)) == stream::yielded(inputs),
{
    let opening = role_frame(stream);
    lemma_frame_text(opening);
    let chunk = opening->Chunk_0;
    lemma_choice_text(chunk.choices[0]);
    assert(chunk.choices =~= seq![chunk.choices[0]]);
    lemma_body_after_text(stream, inputs);
    lemma_body_text_concat(seq![opening], body_after(stream, inputs));
    assert(body_text(seq![opening]) + stream::yielded(inputs) =~= stream::yielded(inputs));
}

/// Each piece of the engine's text is sent as one chunk with one choice whose
/// content is exactly that piece, under the id, time and model of the stream.
pub proof fn law_delta_is_sent_as_it_is(
    stream: &mut ChatStream,
    text: String,
    list: Vec<Frame>,
)
    requires
        old(stream)@.open,
        call_ensures(
            ChatStream::step,
            (stream, StreamInput::Event(CompletionEvent::Delta(text))),
            list,
        ),
    ensures
        list@.len() == 1,
        list@[0] matches Frame::Chunk(chunk) && {
            &&& chunk.id@ == old(stream)@.id
            &&& chunk.object@ == "chat.completion.chunk"@
            &&& chunk.created == old(stream)@.created
            &&& chunk.model@ == old(stream)@.model
            &&& chunk.usage is None
            &&& chunk.choices@.len() == 1
            &&& chunk.choices@[0].index == 0
            &&& chunk.choices@[0].delta.content matches Some(content) && content@ == text@
            &&& chunk.choices@[0].delta.role is None
            &&& chunk.choices@[0].finish_reason is None
        },
        final(stream)@ == old(stream)@,
{
    let frames = frames(list@);
    assert(frames.len() == list@.len());
    assert(frames[0] == list@[0]@);
    let chunk = list@[0]->Chunk_0;
    assert(chunk@.choices.len() == chunk.choices@.len());
    assert(chunk@.choices[0] == chunk.choices@[0]@);
}

/// The answer is closed by a stop without text, the counts where the client
/// asked for them and the engine measured them, and the end marker.
pub proof fn law_summary_closes_the_stream(
    stream: &mut ChatStream,
    input: StreamInput,
    usage: Option<TokenUsage>,
    list: Vec<Frame>,
)
    requires
        old(stream)@.open,
        match input {
            StreamInput::Event(CompletionEvent::Done(summary)) => usage == summary.usage,
            StreamInput::Ended => usage is None,
            _ => false,
        },
        call_ensures(ChatStream::step, (stream, input), list),
    ensures
        !final(stream)@.open,
        list@.len() >= 2,
        list@.last() is End,
        list@[0] matches Frame::Chunk(chunk) && {
            &&& chunk.choices@.len() == 1
            &&& chunk.choices@[0].finish_reason matches Some(reason) && reason@ == "stop"@
            &&& chunk.choices@[0].delta.content is None
            &&& chunk.choices@[0].delta.role is None
            &&& chunk.usage is None
            &&& chunk.id@ == old(stream)@.id && chunk.model@ == old(stream)@.model
            &&& chunk.created == old(stream)@.created
        },
        match usage {
            Some(counts) if old(stream)@.include_usage => list@.len() == 3 && (
            list@[1] matches Frame::Chunk(chunk) && {
                &&& chunk.choices@.len() == 0
                &&& chunk.id@ == old(stream)@.id && chunk.model@ == old(stream)@.model
                &&& chunk.usage matches Some(told) && {
                    &&& told.prompt_tokens == counts.prompt_tokens
                    &&& told.completion_tokens == counts.completion_tokens
                    &&& counts.prompt_tokens + counts.completion_tokens <= u64::MAX
                        ==> told.total_tokens == counts.prompt_tokens + counts.completion_tokens
                }
            }),
            _ => list@.len() == 2,
        },
{
    let frames = frames(list@);
    assert(frames.len() == list@.len());
    assert(forall|i: int| 0 <= i < list@.len() ==> frames[i] == (#[trigger] list@[i])@);
    assert(frames == clean_end(old(stream)@, usage));
    let stop = list@[0]->Chunk_0;
    assert(stop@.choices.len() == stop.choices@.len());
    assert(stop@.choices[0] == stop.choices@[0]@);
    if list@.len() == 3 {
        let counted = list@[1]->Chunk_0;
        assert(counted@.choices.len() == counted.choices@.len());
    }
}

/// A failure is told in the stream with its text and its code, and then the
/// stream ends.
pub proof fn law_failure_closes_the_stream(
    stream: &mut ChatStream,
    failure: crate::error::Failure,
    list: Vec<Frame>,
)
    requires
        old(stream)@.open,
        call_ensures(ChatStream::step, (stream, StreamInput::Failed(failure)), list),
    ensures
        !final(stream)@.open,
        list@.len() == 2,
        list@[0] matches Frame::Error(envelope) && {
            &&& envelope.error.message@ == failure.text@
            &&& envelope.error.code matches Some(code) && code@ == failure.code@
        },
        list@[1] is End,
{
    let frames = frames(list@);
    assert(frames.len() == list@.len());
    assert(frames[0] == list@[0]@ && frames[1] == list@[1]@);
}

/// A stream that is closed sends nothing, whatever the engine yields.
pub proof fn law_closed_stream_is_silent(
    stream: &mut ChatStream,
    input: StreamInput,
    list: Vec<Frame>,
    open: bool,
)
    requires
        !old(stream)@.open,
        call_ensures(ChatStream::is_open, (&*old(stream),), open),
        call_ensures(ChatStream::step, (stream, input), list),
    ensures
        !open,
        list@.len() == 0,
        !final(stream)@.open,
{
    assert(frames(list@).len() == list@.len());
}

/// A stream starts open, under the model and the time that it was given, and
/// opens with a chunk that announces the assistant and carries no text.
pub proof fn law_stream_opens_with_the_assistant(
    created: u64,
    sequence: u64,
    model: String,
    include_usage: bool,
    stream: ChatStream,
    frame: Frame,
)
    requires
        call_ensures(ChatStream::start, (created, sequence, model, include_usage), stream),
        call_ensures(ChatStream::role_chunk, (&stream,), frame),
    ensures
        stream@.open && stream@.model == model@ && stream@.created == created,
        stream@.include_usage == include_usage,
        stream@.id == openai_compat::completion_id_text(created, sequence, model@),
        frame matches Frame::Chunk(chunk) && {
            &&& chunk.id@ == stream@.id && chunk.model@ == model@ && chunk.created == created
            &&& chunk.choices@.len() == 1
            &&& chunk.choices@[0].delta.role matches Some(role) && role@ == "assistant"@
            &&& chunk.choices@[0].delta.content is None
            &&& chunk.choices@[0].finish_reason is None
            &&& chunk.usage is None
        },
{
    let chunk = frame->Chunk_0;
    assert(chunk@.choices.len() == chunk.choices@.len());
    assert(chunk@.choices[0] == chunk.choices@[0]@);
}

} // verus!
