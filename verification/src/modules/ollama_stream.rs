//! The NDJSON lines of a streamed answer.
//!
//! A stream carries one line per piece of text and closes with one line that
//! says `done`, where the counts stand if the engine measured them. A failure
//! on the way closes it with an error line instead, because the status has
//! been sent by then; no line claims then that the answer is complete.

use vstd::prelude::*;
use crate::chat::Turn;
use crate::inference;
use crate::inference::{CompletionEvent, CompletionEventView, CompletionView, TokenUsage};
use crate::modules::ollama_compat;
use crate::modules::ollama_compat::{LineShape, OllamaErrorBody, OllamaMessage};
use crate::modules::stream;
use crate::modules::stream::{StreamInput, StreamInputView};
use crate::text;

verus! {

/// One NDJSON line. `/api/generate` carries text in `response`, `/api/chat` in
/// `message`.
#[derive(Debug)]
pub struct StreamLine {
    pub model: String,
    pub created_at: String,
    pub response: Option<String>,
    pub message: Option<OllamaMessage>,
    pub done: bool,
    pub done_reason: Option<String>,
    pub prompt_eval_count: Option<u64>,
    pub eval_count: Option<u64>,
}

pub struct StreamLineView {
    pub model: Seq<char>,
    pub created_at: Seq<char>,
    pub response: Option<Seq<char>>,
    pub message: Option<Turn>,
    pub done: bool,
    pub done_reason: Option<Seq<char>>,
    pub prompt_eval_count: Option<u64>,
    pub eval_count: Option<u64>,
}

impl View for StreamLine {
    type V = StreamLineView;

    open spec fn view(&self) -> StreamLineView {
        StreamLineView {
            model: self.model@,
            created_at: self.created_at@,
            response: text::opt(self.response),
            message: ollama_compat::turn(self.message),
            done: self.done,
            done_reason: text::opt(self.done_reason),
            prompt_eval_count: self.prompt_eval_count,
            eval_count: self.eval_count,
        }
    }
}

/// One line of the response body.
#[derive(Debug)]
pub enum Line {
    Stream(StreamLine),
    Error(OllamaErrorBody),
}

pub enum LineView {
    Stream(StreamLineView),
    Error(Seq<char>),
}

impl View for Line {
    type V = LineView;

    open spec fn view(&self) -> LineView {
        match self {
            Line::Stream(line) => LineView::Stream(line@),
            Line::Error(body) => LineView::Error(body.error@),
        }
    }
}

/// An encoded object as a line of NDJSON.
pub fn framed(encoded: &str) -> (line: String)
    ensures
        line@ == encoded@ + "\n"@,
{
    text::concat(encoded, "\n")
}

/// A streamed answer.
#[derive(Debug)]
pub struct LineStream {
    model: String,
    shape: LineShape,
    open: bool,
}

pub struct LineStreamView {
    pub model: Seq<char>,
    pub shape: LineShape,
    /// Whether lines may still follow.
    pub open: bool,
}

impl View for LineStream {
    type V = LineStreamView;

    closed spec fn view(&self) -> LineStreamView {
        LineStreamView { model: self.model@, shape: self.shape, open: self.open }
    }
}

/// The line for a piece of text: exactly the field of the stream's shape
/// carries it.
pub open spec fn delta_line(stream: LineStreamView, text: Seq<char>, created_at: Seq<char>) ->
    LineView {
    LineView::Stream(
        StreamLineView {
            model: stream.model,
            created_at,
            response: match stream.shape {
                LineShape::Response => Some(text),
                LineShape::Message => None,
            },
            message: match stream.shape {
                LineShape::Response => None,
                LineShape::Message => Some(Turn { role: "assistant"@, content: text }),
            },
            done: false,
            done_reason: None,
            prompt_eval_count: None,
            eval_count: None,
        },
    )
}

/// The line that tells that the answer is complete.
pub open spec fn done_line(
    stream: LineStreamView,
    usage: Option<TokenUsage>,
    created_at: Seq<char>,
) -> LineView {
    LineView::Stream(
        StreamLineView {
            model: stream.model,
            created_at,
            response: None,
            message: None,
            done: true,
            done_reason: Some("stop"@),
            prompt_eval_count: ollama_compat::prompt_count(usage),
            eval_count: ollama_compat::completion_count(usage),
        },
    )
}

/// The line that an input of an open stream leads to.
pub open spec fn line_for(
    stream: LineStreamView,
    input: StreamInputView,
    created_at: Seq<char>,
) -> LineView {
    match input {
        StreamInputView::Event(CompletionEventView::Delta(text)) => delta_line(
            stream,
            text,
            created_at,
        ),
        StreamInputView::Event(CompletionEventView::Done(summary)) => done_line(
            stream,
            summary.usage,
            created_at,
        ),
        StreamInputView::Failed(failure) => LineView::Error(failure.text),
        StreamInputView::Ended => done_line(stream, None, created_at),
    }
}

/// What an optional line says.
pub open spec fn opt_line(line: Option<Line>) -> Option<LineView> {
    match line {
        Some(line) => Some(line@),
        None => None,
    }
}

impl LineStream {
    /// A stream for `model` whose text stands in the field of `shape`.
    pub fn start(model: String, shape: LineShape) -> (stream: Self)
        ensures
            stream@ == (LineStreamView { model: model@, shape, open: true }),
    {
        LineStream { model, shape, open: true }
    }

    /// Whether lines may still follow.
    pub fn is_open(&self) -> (open: bool)
        ensures
            open == self@.open,
    {
        self.open
    }

    fn line(
        &self,
        text: Option<String>,
        done: bool,
        usage: Option<TokenUsage>,
        created_at: String,
    ) -> (line: Line)
        requires
            done == text is None,
            !done ==> usage is None,
        ensures
            line@ == match text {
                Some(text) => delta_line(self@, text@, created_at@),
                None => done_line(self@, usage, created_at@),
            },
    {
        let (response, message) = match (self.shape, text) {
            (_, None) => (None, None),
            (LineShape::Response, Some(text)) => (Some(text), None),
            (LineShape::Message, Some(text)) => (
                None,
                Some(OllamaMessage { role: "assistant".to_owned(), content: text }),
            ),
        };
        let (prompt_eval_count, eval_count) = ollama_compat::eval_counts(usage);
        Line::Stream(
            StreamLine {
                model: self.model.clone(),
                created_at,
                response,
                message,
                done,
                done_reason: if done {
                    Some("stop".to_owned())
                } else {
                    None
                },
                prompt_eval_count,
                eval_count,
            },
        )
    }

    /// Takes what the engine's stream yields next and gives the line to send.
    /// After the summary, a failure or the end, the stream is closed and gives
    /// no more lines, whatever the engine yields.
    pub fn step(&mut self, input: StreamInput, created_at: String) -> (line: Option<Line>)
        ensures
            final(self)@ == (LineStreamView {
                open: old(self)@.open && stream::goes_on(input@),
                ..old(self)@
            }),
            opt_line(line) == if old(self)@.open {
                Some(line_for(old(self)@, input@, created_at@))
            } else {
                None
            },
    {
        if !self.open {
            return None;
        }
        match input {
            StreamInput::Event(CompletionEvent::Delta(text)) => Some(
                self.line(Some(text), false, None, created_at),
            ),
            StreamInput::Event(CompletionEvent::Done(summary)) => {
                let line = self.line(None, true, summary.usage, created_at);
                self.open = false;
                Some(line)
            },
            StreamInput::Failed(failure) => {
                self.open = false;
                Some(Line::Error(OllamaErrorBody { error: failure.text }))
            },
            StreamInput::Ended => {
                let line = self.line(None, true, None, created_at);
                self.open = false;
                Some(line)
            },
        }
    }
}

/// The lines of the response body when the engine's stream yields `inputs` in
/// turn and the clock shows `times` meanwhile.
pub open spec fn body(
    stream: LineStreamView,
    inputs: Seq<StreamInputView>,
    times: Seq<Seq<char>>,
) -> Seq<LineView>
    decreases inputs.len(),
{
    if inputs.len() == 0 || !stream.open {
        seq![]
    } else {
        seq![line_for(stream, inputs[0], times[0])] + body(
            LineStreamView { open: stream::goes_on(inputs[0]), ..stream },
            inputs.drop_first(),
            times.drop_first(),
        )
    }
}

/// The lines for pieces of text.
pub open spec fn delta_lines(
    stream: LineStreamView,
    deltas: Seq<Seq<char>>,
    times: Seq<Seq<char>>,
) -> Seq<LineView> {
    Seq::new(deltas.len(), |i: int| delta_line(stream, deltas[i], times[i]))
}

/// Whether the line claims that the answer is complete.
pub open spec fn claims_done(line: LineView) -> bool {
    line matches LineView::Stream(l) && l.done
}

/// Whether the line carries a count.
pub open spec fn carries_counts(line: LineView) -> bool {
    line matches LineView::Stream(l) && (l.prompt_eval_count is Some || l.eval_count is Some)
}

/// The body of a stream: one line per piece of text in order, and the line
/// that the first input without text calls for. What the engine yields after
/// that input changes nothing.
pub proof fn law_line_body(
    stream: LineStreamView,
    deltas: Seq<Seq<char>>,
    last: StreamInputView,
    rest: Seq<StreamInputView>,
    times: Seq<Seq<char>>,
)
    requires
        stream.open,
        !stream::goes_on(last),
        times.len() > deltas.len(),
    ensures
        body(stream, stream::delta_inputs(deltas) + seq![last] + rest, times) == delta_lines(
            stream,
            deltas,
            times,
        ).push(line_for(stream, last, times[deltas.len() as int])),
    decreases deltas.len(),
{
    let inputs = stream::delta_inputs(deltas) + seq![last] + rest;
    if deltas.len() == 0 {
        assert(inputs[0] == last);
        reveal_with_fuel(body, 2);
        assert(body(stream, inputs, times) =~= delta_lines(stream, deltas, times).push(
            line_for(stream, last, times[0]),
        ));
    } else {
        let fewer = deltas.drop_first();
        let later = times.drop_first();
        assert(inputs.drop_first() =~= stream::delta_inputs(fewer) + seq![last] + rest);
        assert(inputs[0] == StreamInputView::Event(CompletionEventView::Delta(deltas[0])));
        assert((LineStreamView { open: stream::goes_on(inputs[0]), ..stream }) == stream);
        law_line_body(stream, fewer, last, rest, later);
        assert(body(stream, inputs, times) =~= delta_lines(stream, deltas, times).push(
            line_for(stream, last, times[deltas.len() as int]),
        ));
    }
}

/// The last line of a closed stream says `done` or tells a failure, never
/// both, and no line before it does either.
pub proof fn law_one_closing_line(
    stream: LineStreamView,
    deltas: Seq<Seq<char>>,
    last: StreamInputView,
    rest: Seq<StreamInputView>,
    times: Seq<Seq<char>>,
)
    requires
        stream.open,
        !stream::goes_on(last),
        times.len() > deltas.len(),
    ensures
        ({
            let lines = body(stream, stream::delta_inputs(deltas) + seq![last] + rest, times);
            &&& lines.len() == deltas.len() + 1
            &&& forall|i: int|
                0 <= i < lines.len() ==> ((claims_done(#[trigger] lines[i]) || lines[i] is Error)
                    <==> i == lines.len() - 1)
            &&& claims_done(lines.last()) <==> !(last is Failed)
            &&& last matches StreamInputView::Failed(failure) ==> lines.last() == LineView::Error(
                failure.text,
            )
        }),
{
    law_line_body(stream, deltas, last, rest, times);
}

/// Counts stand on the last line alone, and only when the engine measured
/// them.
pub proof fn law_counts_on_the_last_line(
    stream: LineStreamView,
    deltas: Seq<Seq<char>>,
    last: StreamInputView,
    rest: Seq<StreamInputView>,
    times: Seq<Seq<char>>,
)
    requires
        stream.open,
        !stream::goes_on(last),
        times.len() > deltas.len(),
    ensures
        ({
            let lines = body(stream, stream::delta_inputs(deltas) + seq![last] + rest, times);
            forall|i: int|
                0 <= i < lines.len() ==> (carries_counts(#[trigger] lines[i]) <==> i == lines.len()
                    - 1 && stream::measured(last))
        }),
{
    law_line_body(stream, deltas, last, rest, times);
}

/// A line with a piece of text carries it in exactly one field, the one of the
/// stream's shape.
pub proof fn law_text_in_one_field(stream: LineStreamView, text: Seq<char>, created_at: Seq<char>)
    ensures
        ({
            let line = delta_line(stream, text, created_at)->Stream_0;
            &&& line.response is Some <==> line.message is None
            &&& stream.shape == LineShape::Response ==> line.response == Some(text)
            &&& stream.shape == LineShape::Message ==> line.message == Some(
                Turn { role: "assistant"@, content: text },
            )
        }),
{
}

/// A completed answer that is replayed reaches the client whole: its text on
/// one line, and its counts on the last.
pub proof fn law_replayed_answer_is_whole(
    stream: LineStreamView,
    completion: CompletionView,
    times: Seq<Seq<char>>,
)
    requires
        stream.open,
        times.len() >= 2,
    ensures
        body(stream, stream::event_inputs(inference::replay(completion)), times) == seq![
            delta_line(stream, completion.text, times[0]),
            done_line(stream, completion.usage, times[1]),
        ],
{
    let inputs = stream::event_inputs(inference::replay(completion));
    let deltas = seq![completion.text];
    let last = inputs[1];
    assert(inputs =~= stream::delta_inputs(deltas) + seq![last] + seq![StreamInputView::Ended]);
    law_line_body(stream, deltas, last, seq![StreamInputView::Ended], times);
    assert(body(stream, inputs, times) =~= seq![
        delta_line(stream, completion.text, times[0]),
        done_line(stream, completion.usage, times[1]),
    ]);
}

/// The text of a response body: what its lines carry under either field, one
/// after the other.
pub open spec fn body_text(list: Seq<LineView>) -> Seq<char>
    decreases list.len(),
{
    if list.len() == 0 {
        seq![]
    } else {
        line_text(list[0]) + body_text(list.drop_first())
    }
}

/// What a line carries under either field.
pub open spec fn line_text(line: LineView) -> Seq<char> {
    match line {
        LineView::Stream(l) => {
            let response = match l.response {
                Some(text) => text,
                None => seq![],
            };
            let message = match l.message {
                Some(turn) => turn.content,
                None => seq![],
            };
            response + message
        },
        LineView::Error(_) => seq![],
    }
}

/// The client gets the engine's text whole: what the lines of a response body
/// carry, put together in order, is what the engine's stream yielded up to its
/// end, character by character.
pub proof fn law_body_says_what_the_engine_yields(
    stream: LineStreamView,
    inputs: Seq<StreamInputView>,
    times: Seq<Seq<char>>,
)
    requires
        stream.open,
    ensures
        body_text(body(stream, inputs, times)) == stream::yielded(inputs),
    decreases inputs.len(),
{
    if inputs.len() > 0 {
        let next = LineStreamView { open: stream::goes_on(inputs[0]), ..stream };
        let first = line_for(stream, inputs[0], times[0]);
        let rest = body(next, inputs.drop_first(), times.drop_first());
        let all = body(stream, inputs, times);
        assert(all[0] == first);
        assert(all.drop_first() =~= rest);
        if let StreamInputView::Event(CompletionEventView::Delta(text)) = inputs[0] {
            assert(next == stream);
            law_body_says_what_the_engine_yields(stream, inputs.drop_first(), times.drop_first());
            assert(line_text(first) =~= text);
        } else {
            assert(rest =~= seq![]);
            assert(line_text(first) =~= seq![]);
            assert(body_text(rest) =~= seq![]);
            assert(body_text(all) =~= seq![]);
        }
    }
}

/// Each piece of the engine's text is sent as one line that carries exactly
/// that piece, in the field of the stream's shape alone, under the stream's
/// model and the given time, and that claims no end.
pub proof fn law_delta_is_sent_as_it_is(
    stream: &mut LineStream,
    text: String,
    created_at: String,
    line: Option<Line>,
)
    requires
        old(stream)@.open,
        call_ensures(
            LineStream::step,
            (stream, StreamInput::Event(CompletionEvent::Delta(text)), created_at),
            line,
        ),
    ensures
        line matches Some(Line::Stream(sent)) && {
            &&& sent.model@ == old(stream)@.model
            &&& sent.created_at@ == created_at@
            &&& old(stream)@.shape == LineShape::Response ==> {
                &&& sent.response matches Some(said) && said@ == text@
                &&& sent.message is None
            }
            &&& old(stream)@.shape == LineShape::Message ==> {
                &&& sent.message matches Some(message) && message.content@ == text@ && message.role@
                    == "assistant"@
                &&& sent.response is None
            }
            &&& !sent.done && sent.done_reason is None
            &&& sent.prompt_eval_count is None && sent.eval_count is None
        },
        final(stream)@ == old(stream)@,
{
}

/// The answer is closed by one line that says so, carries no text, and has the
/// counts where the engine measured them.
pub proof fn law_summary_closes_the_stream(
    stream: &mut LineStream,
    input: StreamInput,
    usage: Option<TokenUsage>,
    created_at: String,
    line: Option<Line>,
)
    requires
        old(stream)@.open,
        match input {
            StreamInput::Event(CompletionEvent::Done(summary)) => usage == summary.usage,
            StreamInput::Ended => usage is None,
            _ => false,
        },
        call_ensures(LineStream::step, (stream, input, created_at), line),
    ensures
        !final(stream)@.open,
        line matches Some(Line::Stream(sent)) && {
            &&& sent.done
            &&& sent.done_reason matches Some(reason) && reason@ == "stop"@
            &&& sent.response is None && sent.message is None
            &&& sent.model@ == old(stream)@.model
            &&& sent.created_at@ == created_at@
            &&& match usage {
                Some(counts) => sent.prompt_eval_count == Some(counts.prompt_tokens)
                    && sent.eval_count == Some(counts.completion_tokens),
                None => sent.prompt_eval_count is None && sent.eval_count is None,
            }
        },
{
}

/// A failure is told in the stream with its text, and ends it; a stream that is
/// closed sends nothing, whatever the engine yields.
pub proof fn law_failure_closes_the_stream(
    stream: &mut LineStream,
    input: StreamInput,
    created_at: String,
    line: Option<Line>,
)
    requires
        call_ensures(LineStream::step, (stream, input, created_at), line),
    ensures
        old(stream)@.open ==> (input matches StreamInput::Failed(failure) ==> (line matches Some(
            Line::Error(body),
        ) && body.error@ == failure.text@ && !final(stream)@.open)),
        !old(stream)@.open ==> line is None && !final(stream)@.open,
{
}

/// A stream starts open, for its model and in its shape; an object is framed by
/// the newline behind it.
pub proof fn law_stream_starts_open(
    model: String,
    shape: LineShape,
    stream: LineStream,
    encoded: &str,
    framed_line: String,
)
    requires
        call_ensures(LineStream::start, (model, shape), stream),
        call_ensures(framed, (encoded,), framed_line),
    ensures
        stream@.open && stream@.model == model@ && stream@.shape == shape,
        framed_line@ == encoded@ + "\n"@,
{
}

} // verus!
