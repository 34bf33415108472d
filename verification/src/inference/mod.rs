//! What the daemon asks of an inference engine, and what it gets back.

pub mod echo;
pub mod ndjson;
pub mod ollama;
pub mod weightc;

use vstd::prelude::*;
use crate::text;

verus! {

/// A sampling temperature: a single-precision number, held by its bits,
/// together with the numeral that it prints as.
#[derive(Debug)]
pub struct Temperature {
    pub bits: u32,
    pub numeral: String,
}

impl Clone for Temperature {
    fn clone(&self) -> (copy: Self)
        ensures
            copy == *self,
    {
        Temperature { bits: self.bits, numeral: self.numeral.clone() }
    }
}

/// A double-precision rate, held by its bits.
#[derive(Debug, Clone, Copy, PartialEq, Eq, Structural)]
pub struct Rate {
    pub bits: u64,
}

/// One request to an engine.
#[derive(Debug)]
pub struct CompletionRequest {
    pub prompt: String,
    pub model: Option<String>,
    pub max_tokens: Option<u32>,
    pub temperature: Option<Temperature>,
    pub seed: Option<u64>,
    pub session_key: Option<String>,
}

pub struct CompletionRequestView {
    pub prompt: Seq<char>,
    pub model: Option<Seq<char>>,
    pub max_tokens: Option<u32>,
    pub temperature: Option<Temperature>,
    pub seed: Option<u64>,
    pub session_key: Option<Seq<char>>,
}

impl View for CompletionRequest {
    type V = CompletionRequestView;

    open spec fn view(&self) -> CompletionRequestView {
        CompletionRequestView {
            prompt: self.prompt@,
            model: text::opt(self.model),
            max_tokens: self.max_tokens,
            temperature: self.temperature,
            seed: self.seed,
            session_key: text::opt(self.session_key),
        }
    }
}

/// A request for `prompt` that leaves everything else to the engine.
pub open spec fn plain_request(prompt: Seq<char>) -> CompletionRequestView {
    CompletionRequestView {
        prompt,
        model: None,
        max_tokens: None,
        temperature: None,
        seed: None,
        session_key: None,
    }
}

impl Default for CompletionRequest {
    fn default() -> (request: Self)
        ensures
            request@ == plain_request(seq![]),
    {
        CompletionRequest {
            prompt: String::new(),
            model: None,
            max_tokens: None,
            temperature: None,
            seed: None,
            session_key: None,
        }
    }
}

/// Token counts of one completion, both of them measured.
#[derive(Debug, Clone, Copy, PartialEq, Eq, Structural)]
pub struct TokenUsage {
    pub prompt_tokens: u64,
    pub completion_tokens: u64,
}

/// The usage that two optional counts amount to: there is one only when both
/// halves were measured.
pub open spec fn usage_of(
    prompt_tokens: Option<u64>,
    completion_tokens: Option<u64>,
) -> Option<TokenUsage> {
    match (prompt_tokens, completion_tokens) {
        (Some(prompt_tokens), Some(completion_tokens)) => Some(
            TokenUsage { prompt_tokens, completion_tokens },
        ),
        _ => None,
    }
}

impl TokenUsage {
    /// The usage, when the engine measured both halves.
    pub fn from_counts(
        prompt_tokens: Option<u64>,
        completion_tokens: Option<u64>,
    ) -> (usage: Option<TokenUsage>)
        ensures
            usage == usage_of(prompt_tokens, completion_tokens),
    {
        match (prompt_tokens, completion_tokens) {
            (Some(prompt_tokens), Some(completion_tokens)) => Some(
                TokenUsage { prompt_tokens, completion_tokens },
            ),
            _ => None,
        }
    }

    /// Both counts together; a sum past the largest number stays there.
    pub open spec fn spec_total(self) -> u64 {
        if self.prompt_tokens + self.completion_tokens > u64::MAX {
            u64::MAX
        } else {
            (self.prompt_tokens + self.completion_tokens) as u64
        }
    }

    /// Both counts together; a sum past the largest number stays there.
    pub fn total(&self) -> (total: u64)
        ensures
            total == self.spec_total(),
    {
        self.prompt_tokens.saturating_add(self.completion_tokens)
    }
}

/// How an engine streams.
#[derive(Debug, Clone, Copy, PartialEq, Eq, Structural)]
pub enum StreamKind {
    /// The engine produces deltas as it generates them.
    Native,
    /// The engine completes the request first; its answer is replayed.
    Buffered,
}

/// The value of the `x-hologram-stream` header for a kind of streaming.
pub open spec fn stream_header(kind: StreamKind) -> Seq<char> {
    match kind {
        StreamKind::Native => "native"@,
        StreamKind::Buffered => "emulated"@,
    }
}

impl StreamKind {
    /// The value of the `x-hologram-stream` header.
    pub fn header_value(&self) -> (value: &'static str)
        ensures
            value@ == stream_header(*self),
    {
        match self {
            StreamKind::Native => "native",
            StreamKind::Buffered => "emulated",
        }
    }
}

/// A finished completion.
#[derive(Debug)]
pub struct Completion {
    pub text: String,
    pub model: String,
    pub tokens_per_second: Option<Rate>,
    pub elapsed_millis: u64,
    pub usage: Option<TokenUsage>,
    pub model_kappa: Option<String>,
    pub answer_kappa: Option<String>,
    pub ttft_millis: Option<u64>,
    pub device: Option<String>,
    pub locality: Option<String>,
}

pub struct CompletionView {
    pub text: Seq<char>,
    pub model: Seq<char>,
    pub tokens_per_second: Option<Rate>,
    pub elapsed_millis: u64,
    pub usage: Option<TokenUsage>,
    pub model_kappa: Option<Seq<char>>,
    pub answer_kappa: Option<Seq<char>>,
    pub ttft_millis: Option<u64>,
    pub device: Option<Seq<char>>,
    pub locality: Option<Seq<char>>,
}

impl View for Completion {
    type V = CompletionView;

    open spec fn view(&self) -> CompletionView {
        CompletionView {
            text: self.text@,
            model: self.model@,
            tokens_per_second: self.tokens_per_second,
            elapsed_millis: self.elapsed_millis,
            usage: self.usage,
            model_kappa: text::opt(self.model_kappa),
            answer_kappa: text::opt(self.answer_kappa),
            ttft_millis: self.ttft_millis,
            device: text::opt(self.device),
            locality: text::opt(self.locality),
        }
    }
}

/// A completion by an engine on this machine that reports no more than the
/// text, the model, its speed, the time it took and the counts.
pub open spec fn local_completion(
    text: Seq<char>,
    model: Seq<char>,
    tokens_per_second: Option<Rate>,
    elapsed_millis: u64,
    usage: Option<TokenUsage>,
) -> CompletionView {
    CompletionView {
        text,
        model,
        tokens_per_second,
        elapsed_millis,
        usage,
        model_kappa: None,
        answer_kappa: None,
        ttft_millis: None,
        device: None,
        locality: Some("local"@),
    }
}

impl Completion {
    /// A completion by an engine on this machine.
    pub fn local(
        text: String,
        model: String,
        tokens_per_second: Option<Rate>,
        elapsed_millis: u64,
        usage: Option<TokenUsage>,
    ) -> (completion: Completion)
        ensures
            completion@ == local_completion(
                text@,
                model@,
                tokens_per_second,
                elapsed_millis,
                usage,
            ),
    {
        Completion {
            text,
            model,
            tokens_per_second,
            elapsed_millis,
            usage,
            model_kappa: None,
            answer_kappa: None,
            ttft_millis: None,
            device: None,
            locality: Some("local".to_owned()),
        }
    }
}

/// What the last event of a stream reports.
#[derive(Debug)]
pub struct CompletionSummary {
    pub model: String,
    pub usage: Option<TokenUsage>,
    pub tokens_per_second: Option<Rate>,
    pub elapsed_millis: u64,
}

pub struct CompletionSummaryView {
    pub model: Seq<char>,
    pub usage: Option<TokenUsage>,
    pub tokens_per_second: Option<Rate>,
    pub elapsed_millis: u64,
}

impl View for CompletionSummary {
    type V = CompletionSummaryView;

    open spec fn view(&self) -> CompletionSummaryView {
        CompletionSummaryView {
            model: self.model@,
            usage: self.usage,
            tokens_per_second: self.tokens_per_second,
            elapsed_millis: self.elapsed_millis,
        }
    }
}

/// One event of a stream: a piece of text, or the end with its summary.
#[derive(Debug)]
pub enum CompletionEvent {
    Delta(String),
    Done(CompletionSummary),
}

pub enum CompletionEventView {
    Delta(Seq<char>),
    Done(CompletionSummaryView),
}

impl View for CompletionEvent {
    type V = CompletionEventView;

    open spec fn view(&self) -> CompletionEventView {
        match self {
            CompletionEvent::Delta(text) => CompletionEventView::Delta(text@),
            CompletionEvent::Done(summary) => CompletionEventView::Done(summary@),
        }
    }
}

/// What a list of events says.
pub open spec fn event_views(events: Seq<CompletionEvent>) -> Seq<CompletionEventView> {
    events.map_values(|e: CompletionEvent| e@)
}

/// The events of a completed answer that is replayed.
pub open spec fn replay(completion: CompletionView) -> Seq<CompletionEventView> {
    seq![
        CompletionEventView::Delta(completion.text),
        CompletionEventView::Done(
            CompletionSummaryView {
                model: completion.model,
                usage: completion.usage,
                tokens_per_second: completion.tokens_per_second,
                elapsed_millis: completion.elapsed_millis,
            },
        ),
    ]
}

/// A completed answer replayed as a stream: all of its text as one delta,
/// then the end.
pub fn replayed(completion: Completion) -> (events: Vec<CompletionEvent>)
    ensures
        event_views(events@) == replay(completion@),
{
    let mut events: Vec<CompletionEvent> = Vec::new();
    events.push(CompletionEvent::Delta(completion.text));
    events.push(
        CompletionEvent::Done(
            CompletionSummary {
                model: completion.model,
                usage: completion.usage,
                tokens_per_second: completion.tokens_per_second,
                elapsed_millis: completion.elapsed_millis,
            },
        ),
    );
    assert(event_views(events@) =~= replay(completion@));
    events
}

/// The settings that engines read.
#[derive(Debug)]
pub struct InferenceConfig {
    /// The engine that the configuration names.
    pub engine: String,
    pub default_model: String,
    pub ollama_endpoint: String,
    pub weightc_path: String,
    pub request_timeout_secs: u64,
    pub resident_sessions: bool,
    pub max_resident_sessions: usize,
}

/// An engine, together with what it says of itself.
#[derive(Debug)]
pub struct Engine<E> {
    pub profile: EngineProfile,
    pub service: E,
}

/// What an engine says of itself.
#[derive(Debug, Clone, Copy)]
pub struct EngineProfile {
    pub name: &'static str,
    /// Whether the engine holds the context of a session itself.
    pub supports_sessions: bool,
    pub stream_kind: StreamKind,
}

/// Counts make a usage only together, and each stays the count that it was.
pub proof fn law_usage_is_both_counts(
    prompt_tokens: Option<u64>,
    completion_tokens: Option<u64>,
    usage: Option<TokenUsage>,
)
    requires
        call_ensures(TokenUsage::from_counts, (prompt_tokens, completion_tokens), usage),
    ensures
        usage is Some <==> prompt_tokens is Some && completion_tokens is Some,
        usage matches Some(counts) ==> prompt_tokens == Some(counts.prompt_tokens)
            && completion_tokens == Some(counts.completion_tokens),
{
}

/// The total is the sum of both counts, or the largest number where that does
/// not fit.
pub proof fn law_total_is_the_sum(usage: TokenUsage, total: u64)
    requires
        call_ensures(TokenUsage::total, (&usage,), total),
    ensures
        total <= usage.prompt_tokens + usage.completion_tokens,
        total == usage.prompt_tokens + usage.completion_tokens || total == u64::MAX,
        total >= usage.prompt_tokens && total >= usage.completion_tokens,
{
}

/// The header tells native streams from emulated ones.
pub proof fn law_stream_header(kind: StreamKind, value: &'static str)
    requires
        call_ensures(StreamKind::header_value, (&kind,), value),
    ensures
        kind == StreamKind::Native ==> value@ == "native"@,
        kind == StreamKind::Buffered ==> value@ == "emulated"@,
{
}

/// A completion on this machine says what it was given, and of the rest
/// nothing but that it is local.
pub proof fn law_local_completion_says_what_it_was_given(
    text: String,
    model: String,
    tokens_per_second: Option<Rate>,
    elapsed_millis: u64,
    usage: Option<TokenUsage>,
    completion: Completion,
)
    requires
        call_ensures(
            Completion::local,
            (text, model, tokens_per_second, elapsed_millis, usage),
            completion,
        ),
    ensures
        completion.text@ == text@,
        completion.model@ == model@,
        completion.tokens_per_second == tokens_per_second,
        completion.elapsed_millis == elapsed_millis,
        completion.usage == usage,
        completion.model_kappa is None && completion.answer_kappa is None,
        completion.ttft_millis is None && completion.device is None,
        completion.locality matches Some(place) && place@ == "local"@,
{
}

/// A replayed answer is its whole text in one piece, and then one end with its
/// model, counts, speed and time.
pub proof fn law_replay_says_the_whole_answer(completion: Completion, events: Vec<CompletionEvent>)
    requires
        call_ensures(replayed, (completion,), events),
    ensures
        events@.len() == 2,
        events@[0] matches CompletionEvent::Delta(said) && said@ == completion.text@,
        events@[1] matches CompletionEvent::Done(summary) && {
            &&& summary.model@ == completion.model@
            &&& summary.usage == completion.usage
            &&& summary.tokens_per_second == completion.tokens_per_second
            &&& summary.elapsed_millis == completion.elapsed_millis
        },
{
    let views = event_views(events@);
    assert(views.len() == 2);
    assert(views[0] == events@[0]@);
    assert(views[1] == events@[1]@);
}

/// A request by default asks for nothing and leaves everything to the engine.
pub proof fn law_default_request_is_plain(request: CompletionRequest)
    requires
        call_ensures(<CompletionRequest as Default>::default, (), request),
    ensures
        request.prompt@.len() == 0,
        request.model is None && request.max_tokens is None && request.temperature is None,
        request.seed is None && request.session_key is None,
{
}

} // verus!
