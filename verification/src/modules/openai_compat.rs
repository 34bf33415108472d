//! OpenAI-compatible HTTP API.
//!
//! A thin translation layer over the inference core: chat messages render to
//! the same `role: content` transcript that native chat uses, and completions
//! come from the configured engine. `stream: true` is accepted for every
//! engine, and the `x-hologram-stream` response header tells whether the
//! deltas were real or replayed.

use vstd::prelude::*;
use crate::chat;
use crate::chat::{Spoken, Turn};
use crate::digest;
use crate::error;
use crate::error::{Failure, FailureView, FaultClass, LiveError};
use crate::inference;
use crate::inference::{Completion, CompletionRequest, EngineProfile, Temperature, TokenUsage};
use crate::models;
use crate::models::{ModelInfo, ModelInfoView};
use crate::module;
use crate::module::{Method, ModuleDescriptor, Route};
use crate::modules::resolve;
use crate::modules::resolve::{Resolution, ResolutionView};
use crate::modules::stream;
use crate::modules::stream::ResponseHead;
use crate::text;

verus! {

/// The module that serves the OpenAI chat API.
#[derive(Debug)]
pub struct OpenAiCompatModule;

impl OpenAiCompatModule {
    /// The module, as it is in the daemon of that version.
    pub fn descriptor(&self, version: &str) -> (descriptor: ModuleDescriptor)
        ensures
            descriptor.id@ == "dev.hologram.live.openai-compat"@,
            descriptor.name@ == "OpenAI-Compatible API"@,
            descriptor.version@ == version@,
            descriptor.dependencies@.len() == 1,
            descriptor.dependencies@[0]@ == "dev.hologram.live.inference"@,
            descriptor.operations@.len() == 0,
    {
        module::inference_client("dev.hologram.live.openai-compat", "OpenAI-Compatible API", version)
    }

    /// The routes that the module serves.
    pub fn routes(&self) -> (routes: Vec<Route>)
        ensures
            module::paths(routes@) == seq![
                (Method::Post, "/v1/chat/completions"@),
                (Method::Get, "/v1/models"@),
            ],
    {
        let mut routes: Vec<Route> = Vec::new();
        routes.push(Route { method: Method::Post, path: "/v1/chat/completions" });
        routes.push(Route { method: Method::Get, path: "/v1/models" });
        assert(module::paths(routes@) =~= seq![
            (Method::Post, "/v1/chat/completions"@),
            (Method::Get, "/v1/models"@),
        ]);
        routes
    }
}

/// One message of a chat.
#[derive(Debug)]
pub struct ChatMessage {
    pub role: String,
    pub content: String,
}

impl View for ChatMessage {
    type V = Turn;

    open spec fn view(&self) -> Turn {
        Turn { role: self.role@, content: self.content@ }
    }
}

impl Spoken for ChatMessage {
    open spec fn turn(&self) -> Turn {
        self@
    }

    fn role(&self) -> &str {
        self.role.as_str()
    }

    fn content(&self) -> &str {
        self.content.as_str()
    }
}

impl Clone for ChatMessage {
    fn clone(&self) -> (copy: Self)
        ensures
            copy == *self,
    {
        ChatMessage { role: self.role.clone(), content: self.content.clone() }
    }
}

#[derive(Debug, Clone, Copy, PartialEq, Eq, Structural)]
pub struct StreamOptions {
    /// Adds a chunk with the counts and empty `choices` before the end of the
    /// stream.
    pub include_usage: bool,
}

impl Default for StreamOptions {
    fn default() -> (options: Self)
        ensures
            !options.include_usage,
    {
        StreamOptions { include_usage: false }
    }
}

#[derive(Debug)]
pub struct ChatCompletionRequest {
    /// Catalog model id or name; falls back to the configured default.
    pub model: String,
    pub messages: Vec<ChatMessage>,
    pub max_tokens: Option<u32>,
    pub temperature: Option<Temperature>,
    pub seed: Option<u64>,
    pub stream: Option<bool>,
    pub stream_options: Option<StreamOptions>,
}

pub struct ChatCompletionRequestView {
    pub model: Seq<char>,
    pub messages: Seq<Turn>,
    pub max_tokens: Option<u32>,
    pub temperature: Option<Temperature>,
    pub seed: Option<u64>,
    pub stream: Option<bool>,
    pub stream_options: Option<StreamOptions>,
}

/// What a list of messages says.
pub open spec fn turns(messages: Seq<ChatMessage>) -> Seq<Turn> {
    messages.map_values(|m: ChatMessage| m@)
}

impl View for ChatCompletionRequest {
    type V = ChatCompletionRequestView;

    open spec fn view(&self) -> ChatCompletionRequestView {
        ChatCompletionRequestView {
            model: self.model@,
            messages: turns(self.messages@),
            max_tokens: self.max_tokens,
            temperature: self.temperature,
            seed: self.seed,
            stream: self.stream,
            stream_options: self.stream_options,
        }
    }
}

/// Token counts. Present only when the engine measured both halves.
#[derive(Debug, Clone, Copy, PartialEq, Eq, Structural)]
pub struct Usage {
    pub prompt_tokens: u64,
    pub completion_tokens: u64,
    pub total_tokens: u64,
}

/// The counts with their total.
pub open spec fn with_total(usage: TokenUsage) -> Usage {
    Usage {
        prompt_tokens: usage.prompt_tokens,
        completion_tokens: usage.completion_tokens,
        total_tokens: usage.spec_total(),
    }
}

impl From<TokenUsage> for Usage {
    fn from(usage: TokenUsage) -> (counts: Self) {
        Usage {
            prompt_tokens: usage.prompt_tokens,
            completion_tokens: usage.completion_tokens,
            total_tokens: usage.total(),
        }
    }
}

impl vstd::std_specs::convert::FromSpecImpl<TokenUsage> for Usage {
    open spec fn obeys_from_spec() -> bool {
        true
    }

    open spec fn from_spec(usage: TokenUsage) -> Usage {
        with_total(usage)
    }
}

/// The counts with their total, if there are any.
pub open spec fn counts(usage: Option<TokenUsage>) -> Option<Usage> {
    match usage {
        Some(usage) => Some(with_total(usage)),
        None => None,
    }
}

fn counted(usage: Option<TokenUsage>) -> (reported: Option<Usage>)
    ensures
        reported == counts(usage),
{
    match usage {
        Some(usage) => Some(Usage::from(usage)),
        None => None,
    }
}

#[derive(Debug)]
pub struct ChatChoice {
    pub index: u32,
    pub message: ChatMessage,
    pub finish_reason: String,
}

pub struct ChatChoiceView {
    pub index: u32,
    pub message: Turn,
    pub finish_reason: Seq<char>,
}

impl View for ChatChoice {
    type V = ChatChoiceView;

    open spec fn view(&self) -> ChatChoiceView {
        ChatChoiceView {
            index: self.index,
            message: self.message@,
            finish_reason: self.finish_reason@,
        }
    }
}

#[derive(Debug)]
pub struct ChatCompletion {
    pub id: String,
    pub object: String,
    pub created: u64,
    pub model: String,
    pub choices: Vec<ChatChoice>,
    pub usage: Option<Usage>,
}

#[verifier::ext_equal]
pub struct ChatCompletionView {
    pub id: Seq<char>,
    pub object: Seq<char>,
    pub created: u64,
    pub model: Seq<char>,
    pub choices: Seq<ChatChoiceView>,
    pub usage: Option<Usage>,
}

impl View for ChatCompletion {
    type V = ChatCompletionView;

    open spec fn view(&self) -> ChatCompletionView {
        ChatCompletionView {
            id: self.id@,
            object: self.object@,
            created: self.created,
            model: self.model@,
            choices: self.choices@.map_values(|c: ChatChoice| c@),
            usage: self.usage,
        }
    }
}

#[derive(Debug)]
pub struct ChunkDelta {
    pub role: Option<String>,
    pub content: Option<String>,
}

pub struct ChunkDeltaView {
    pub role: Option<Seq<char>>,
    pub content: Option<Seq<char>>,
}

impl View for ChunkDelta {
    type V = ChunkDeltaView;

    open spec fn view(&self) -> ChunkDeltaView {
        ChunkDeltaView { role: text::opt(self.role), content: text::opt(self.content) }
    }
}

impl Default for ChunkDelta {
    fn default() -> (delta: Self)
        ensures
            delta@ == (ChunkDeltaView { role: None, content: None }),
    {
        ChunkDelta { role: None, content: None }
    }
}

#[derive(Debug)]
pub struct ChunkChoice {
    pub index: u32,
    pub delta: ChunkDelta,
    pub finish_reason: Option<String>,
}

pub struct ChunkChoiceView {
    pub index: u32,
    pub delta: ChunkDeltaView,
    pub finish_reason: Option<Seq<char>>,
}

impl View for ChunkChoice {
    type V = ChunkChoiceView;

    open spec fn view(&self) -> ChunkChoiceView {
        ChunkChoiceView {
            index: self.index,
            delta: self.delta@,
            finish_reason: text::opt(self.finish_reason),
        }
    }
}

#[derive(Debug)]
pub struct ChatCompletionChunk {
    pub id: String,
    pub object: String,
    pub created: u64,
    pub model: String,
    pub choices: Vec<ChunkChoice>,
    pub usage: Option<Usage>,
}

#[verifier::ext_equal]
pub struct ChatCompletionChunkView {
    pub id: Seq<char>,
    pub object: Seq<char>,
    pub created: u64,
    pub model: Seq<char>,
    pub choices: Seq<ChunkChoiceView>,
    pub usage: Option<Usage>,
}

impl View for ChatCompletionChunk {
    type V = ChatCompletionChunkView;

    open spec fn view(&self) -> ChatCompletionChunkView {
        ChatCompletionChunkView {
            id: self.id@,
            object: self.object@,
            created: self.created,
            model: self.model@,
            choices: self.choices@.map_values(|c: ChunkChoice| c@),
            usage: self.usage,
        }
    }
}

#[derive(Debug)]
pub struct ModelObject {
    pub id: String,
    pub object: String,
    pub created: u64,
    pub owned_by: String,
}

pub struct ModelObjectView {
    pub id: Seq<char>,
    pub object: Seq<char>,
    pub created: u64,
    pub owned_by: Seq<char>,
}

impl View for ModelObject {
    type V = ModelObjectView;

    open spec fn view(&self) -> ModelObjectView {
        ModelObjectView {
            id: self.id@,
            object: self.object@,
            created: self.created,
            owned_by: self.owned_by@,
        }
    }
}

#[derive(Debug)]
pub struct ModelList {
    pub object: String,
    pub data: Vec<ModelObject>,
}

#[verifier::ext_equal]
pub struct ModelListView {
    pub object: Seq<char>,
    pub data: Seq<ModelObjectView>,
}

impl View for ModelList {
    type V = ModelListView;

    open spec fn view(&self) -> ModelListView {
        ModelListView {
            object: self.object@,
            data: self.data@.map_values(|m: ModelObject| m@),
        }
    }
}

#[derive(Debug)]
pub struct OpenAiErrorBody {
    pub message: String,
    pub kind: String,
    pub code: Option<String>,
}

pub struct OpenAiErrorBodyView {
    pub message: Seq<char>,
    pub kind: Seq<char>,
    pub code: Option<Seq<char>>,
}

impl View for OpenAiErrorBody {
    type V = OpenAiErrorBodyView;

    open spec fn view(&self) -> OpenAiErrorBodyView {
        OpenAiErrorBodyView {
            message: self.message@,
            kind: self.kind@,
            code: text::opt(self.code),
        }
    }
}

#[derive(Debug)]
pub struct OpenAiErrorEnvelope {
    pub error: OpenAiErrorBody,
}

impl View for OpenAiErrorEnvelope {
    type V = OpenAiErrorBodyView;

    open spec fn view(&self) -> OpenAiErrorBodyView {
        self.error@
    }
}

/// An error rendered in the OpenAI envelope, with its HTTP status.
#[derive(Debug)]
pub struct OpenAiError {
    pub status: u16,
    pub body: OpenAiErrorBody,
}

pub struct OpenAiErrorView {
    pub status: u16,
    pub body: OpenAiErrorBodyView,
}

impl View for OpenAiError {
    type V = OpenAiErrorView;

    open spec fn view(&self) -> OpenAiErrorView {
        OpenAiErrorView { status: self.status, body: self.body@ }
    }
}

pub open spec fn invalid_request_error(
    message: Seq<char>,
    code: Option<Seq<char>>,
) -> OpenAiErrorView {
    OpenAiErrorView {
        status: 400,
        body: OpenAiErrorBodyView { message, kind: "invalid_request_error"@, code },
    }
}

pub open spec fn not_found_error(message: Seq<char>, code: Option<Seq<char>>) -> OpenAiErrorView {
    OpenAiErrorView {
        status: 404,
        body: OpenAiErrorBodyView { message, kind: "not_found_error"@, code },
    }
}

pub open spec fn server_error(message: Seq<char>, code: Option<Seq<char>>) -> OpenAiErrorView {
    OpenAiErrorView {
        status: 500,
        body: OpenAiErrorBodyView { message, kind: "server_error"@, code },
    }
}

/// How a failure is answered: its text and its code, under the status and the
/// kind of its class.
pub open spec fn failure_error(failure: FailureView) -> OpenAiErrorView {
    match error::class_of(failure.error) {
        FaultClass::NotFound => not_found_error(failure.text, Some(failure.code)),
        FaultClass::Invalid => invalid_request_error(failure.text, Some(failure.code)),
        FaultClass::Server => server_error(failure.text, Some(failure.code)),
    }
}

impl OpenAiError {
    pub fn invalid_request(message: &str) -> (refusal: OpenAiError)
        ensures
            refusal@ == invalid_request_error(message@, None),
    {
        OpenAiError {
            status: 400,
            body: OpenAiErrorBody {
                message: message.to_owned(),
                kind: "invalid_request_error".to_owned(),
                code: None,
            },
        }
    }

    pub fn not_found(message: &str) -> (refusal: OpenAiError)
        ensures
            refusal@ == not_found_error(message@, None),
    {
        OpenAiError {
            status: 404,
            body: OpenAiErrorBody {
                message: message.to_owned(),
                kind: "not_found_error".to_owned(),
                code: None,
            },
        }
    }

    pub fn server(failure: &Failure) -> (refusal: OpenAiError)
        ensures
            refusal@ == server_error(failure@.text, Some(failure@.code)),
    {
        OpenAiError {
            status: 500,
            body: OpenAiErrorBody {
                message: failure.text.clone(),
                kind: "server_error".to_owned(),
                code: Some(failure.code.clone()),
            },
        }
    }

    /// The status and the envelope of the response.
    pub fn into_response(self) -> (response: (u16, OpenAiErrorEnvelope))
        ensures
            response.0 == self@.status,
            response.1@ == self@.body,
    {
        (self.status, OpenAiErrorEnvelope { error: self.body })
    }
}

/// The answer to a failure.
impl From<Failure> for OpenAiError {
    fn from(failure: Failure) -> (refusal: OpenAiError)
        ensures
            refusal@ == failure_error(failure@),
    {
        match failure.error.class() {
            FaultClass::NotFound => {
                let mut mapped = OpenAiError::not_found(failure.text.as_str());
                mapped.body.code = Some(failure.code);
                mapped
            },
            FaultClass::Invalid => {
                let mut mapped = OpenAiError::invalid_request(failure.text.as_str());
                mapped.body.code = Some(failure.code);
                mapped
            },
            FaultClass::Server => OpenAiError::server(&failure),
        }
    }
}

/// A refusal holds strings, and what is promised of them is said over their
/// contents, by `from` itself.
impl vstd::std_specs::convert::FromSpecImpl<Failure> for OpenAiError {
    open spec fn obeys_from_spec() -> bool {
        false
    }

    open spec fn from_spec(failure: Failure) -> OpenAiError {
        arbitrary()
    }
}

/// The prompt that a list of messages renders to.
pub fn render_prompt(messages: &Vec<ChatMessage>) -> (prompt: String)
    ensures
        prompt@ == chat::transcript(turns(messages@)),
{
    let lines = chat::rendered_turns(messages);
    assert(chat::spoken(messages@) =~= turns(messages@));
    text::joined(&lines, "\n")
}

/// How a chat is answered.
#[derive(Debug, Clone, Copy, PartialEq, Eq, Structural)]
pub enum ChatMode {
    /// With one JSON object.
    Buffered,
    /// With a stream of chunks, and the counts at its end on request.
    Streaming { include_usage: bool },
}

/// The content type of an answer.
pub open spec fn content_type(mode: ChatMode) -> Seq<char> {
    match mode {
        ChatMode::Buffered => "application/json"@,
        ChatMode::Streaming { .. } => "text/event-stream"@,
    }
}

/// The head of the response when `engine` did the job.
pub fn response_head(engine: &EngineProfile, mode: ChatMode) -> (head: ResponseHead)
    ensures
        head.status == 200,
        head.content_type@ == content_type(mode),
        head.stream@ == inference::stream_header(engine.stream_kind),
{
    stream::response_head(
        match mode {
            ChatMode::Buffered => "application/json",
            ChatMode::Streaming { .. } => "text/event-stream",
        },
        engine.stream_kind,
    )
}

/// What has to be done once the model is known.
#[derive(Debug)]
pub struct ChatJob {
    pub request: CompletionRequest,
    pub mode: ChatMode,
}

pub struct ChatJobView {
    pub request: inference::CompletionRequestView,
    pub mode: ChatMode,
}

impl View for ChatJob {
    type V = ChatJobView;

    open spec fn view(&self) -> ChatJobView {
        ChatJobView { request: self.request@, mode: self.mode }
    }
}

/// How far a chat has come: what has to be done next, or how it was refused.
#[derive(Debug)]
pub enum ChatCall {
    /// Nothing reaches the engine.
    Refused { error: OpenAiError },
    /// The catalog has to be asked for `name`.
    Lookup { name: String, job: ChatJob },
    /// The engine has to list its models.
    Listing { name: String, job: ChatJob },
    /// The engine has to do the job; the response names `model`.
    Run { model: String, job: ChatJob },
}

pub enum ChatCallView {
    Refused { error: OpenAiErrorView },
    Lookup { name: Seq<char>, job: ChatJobView },
    Listing { name: Seq<char>, job: ChatJobView },
    Run { model: Seq<char>, job: ChatJobView },
}

impl View for ChatCall {
    type V = ChatCallView;

    open spec fn view(&self) -> ChatCallView {
        match self {
            ChatCall::Refused { error } => ChatCallView::Refused { error: error@ },
            ChatCall::Lookup { name, job } => ChatCallView::Lookup { name: name@, job: job@ },
            ChatCall::Listing { name, job } => ChatCallView::Listing { name: name@, job: job@ },
            ChatCall::Run { model, job } => ChatCallView::Run { model: model@, job: job@ },
        }
    }
}

/// A call whose model is resolved as far as `resolution` says. A name that
/// nothing goes by is refused as not found.
pub open spec fn chat_call_of(resolution: ResolutionView, job: ChatJobView) -> ChatCallView {
    match resolution {
        ResolutionView::Resolved { label } => ChatCallView::Run { model: label, job },
        ResolutionView::Lookup { name } => ChatCallView::Lookup { name, job },
        ResolutionView::Listing { name } => ChatCallView::Listing { name, job },
        ResolutionView::Unknown { name } => ChatCallView::Refused {
            error: not_found_error(resolve::unknown_model_text(name), None),
        },
    }
}

/// What the engine is asked for a chat: the transcript, with the sampling
/// options of the request.
pub open spec fn chat_request(request: ChatCompletionRequestView) ->
    inference::CompletionRequestView {
    inference::CompletionRequestView {
        prompt: chat::transcript(request.messages),
        model: None,
        max_tokens: request.max_tokens,
        temperature: request.temperature,
        seed: request.seed,
        session_key: None,
    }
}

/// How a chat starts that is answered in a given mode: without messages there
/// is nothing to answer, whatever model is asked for.
pub open spec fn chat_start(
    engine: Seq<char>,
    default_model: Seq<char>,
    request: ChatCompletionRequestView,
    mode: ChatMode,
) -> ChatCallView {
    if request.messages.len() == 0 {
        ChatCallView::Refused { error: invalid_request_error("messages must not be empty"@, None) }
    } else {
        chat_call_of(
            resolve::resolution_start(engine, default_model, request.model),
            ChatJobView { request: chat_request(request), mode },
        )
    }
}

/// How a buffered chat starts: it cannot be one that asks for a stream.
pub open spec fn complete_chat_start(
    engine: Seq<char>,
    default_model: Seq<char>,
    request: ChatCompletionRequestView,
) -> ChatCallView {
    if request.stream == Some(true) {
        ChatCallView::Refused {
            error: invalid_request_error(
                "streaming is not supported; omit stream or send stream: false"@,
                None,
            ),
        }
    } else {
        chat_start(engine, default_model, request, ChatMode::Buffered)
    }
}

/// How a streamed chat starts.
pub open spec fn stream_chat_start(
    engine: Seq<char>,
    default_model: Seq<char>,
    request: ChatCompletionRequestView,
) -> ChatCallView {
    let include_usage = match request.stream_options {
        Some(options) => options.include_usage,
        None => false,
    };
    chat_start(engine, default_model, request, ChatMode::Streaming { include_usage })
}

/// How a chat starts: it streams exactly when the request asks for it.
pub open spec fn dispatch_chat_start(
    engine: Seq<char>,
    default_model: Seq<char>,
    request: ChatCompletionRequestView,
) -> ChatCallView {
    if request.stream == Some(true) {
        stream_chat_start(engine, default_model, request)
    } else {
        complete_chat_start(engine, default_model, request)
    }
}

fn call_of(resolution: Resolution, job: ChatJob) -> (call: ChatCall)
    ensures
        call@ == chat_call_of(resolution@, job@),
{
    match resolution {
        Resolution::Resolved { label } => ChatCall::Run { model: label, job },
        Resolution::Lookup { name } => ChatCall::Lookup { name, job },
        Resolution::Listing { name } => ChatCall::Listing { name, job },
        Resolution::Unknown { name } => ChatCall::Refused {
            error: OpenAiError::not_found(resolve::unknown_model(name.as_str()).as_str()),
        },
    }
}

fn start_chat(
    engine: &EngineProfile,
    default_model: &str,
    request: ChatCompletionRequest,
    mode: ChatMode,
) -> (call: ChatCall)
    ensures
        call@ == chat_start(engine.name@, default_model@, request@, mode),
{
    if request.messages.len() == 0 {
        return ChatCall::Refused {
            error: OpenAiError::invalid_request("messages must not be empty"),
        };
    }
    let resolution = Resolution::start(engine, default_model, request.model.as_str());
    let job = ChatJob {
        request: CompletionRequest {
            prompt: render_prompt(&request.messages),
            model: None,
            max_tokens: request.max_tokens,
            temperature: request.temperature,
            seed: request.seed,
            session_key: None,
        },
        mode,
    };
    call_of(resolution, job)
}

/// Starts a chat that is answered with one JSON object.
pub fn complete_chat(
    engine: &EngineProfile,
    default_model: &str,
    request: ChatCompletionRequest,
) -> (call: ChatCall)
    ensures
        call@ == complete_chat_start(engine.name@, default_model@, request@),
{
    if let Some(true) = request.stream {
        return ChatCall::Refused {
            error: OpenAiError::invalid_request(
                "streaming is not supported; omit stream or send stream: false",
            ),
        };
    }
    start_chat(engine, default_model, request, ChatMode::Buffered)
}

/// Starts a chat that is answered with a stream.
pub fn stream_chat(
    engine: &EngineProfile,
    default_model: &str,
    request: ChatCompletionRequest,
) -> (call: ChatCall)
    ensures
        call@ == stream_chat_start(engine.name@, default_model@, request@),
{
    let include_usage = match request.stream_options {
        Some(options) => options.include_usage,
        None => false,
    };
    start_chat(engine, default_model, request, ChatMode::Streaming { include_usage })
}

/// Starts a chat in the mode that the request asks for.
pub fn dispatch_chat_completions(
    engine: &EngineProfile,
    default_model: &str,
    request: ChatCompletionRequest,
) -> (call: ChatCall)
    ensures
        call@ == dispatch_chat_start(engine.name@, default_model@, request@),
{
    if let Some(true) = request.stream {
        stream_chat(engine, default_model, request)
    } else {
        complete_chat(engine, default_model, request)
    }
}

/// The call once the catalog was asked, or the task that asks was lost.
pub open spec fn chat_looked_up(
    call: ChatCallView,
    found: Result<Option<Seq<char>>, FailureView>,
) -> ChatCallView {
    match (call, found) {
        (ChatCallView::Lookup { name, job }, Ok(found)) => chat_call_of(
            resolve::resolution_looked_up(ResolutionView::Lookup { name }, found),
            job,
        ),
        (ChatCallView::Lookup { .. }, Err(lost)) => ChatCallView::Refused {
            error: server_error(lost.text, Some(lost.code)),
        },
        _ => call,
    }
}

/// The call once the engine listed its models.
pub open spec fn chat_listed(call: ChatCallView, offered: Seq<ModelInfoView>) -> ChatCallView {
    match call {
        ChatCallView::Listing { name, job } => chat_call_of(
            resolve::resolution_listed(ResolutionView::Listing { name }, offered),
            job,
        ),
        _ => call,
    }
}

impl ChatCall {
    /// The catalog was asked, or the task that asks was lost. A call that does
    /// not wait for the catalog stays as it is.
    pub fn looked_up(self, found: Result<Result<ModelInfo, LiveError>, Failure>) -> (next: ChatCall)
        ensures
            next@ == chat_looked_up(
                self@,
                match found {
                    Ok(found) => Ok(resolve::found_name(found)),
                    Err(lost) => Err(lost@),
                },
            ),
    {
        match self {
            ChatCall::Lookup { name, job } => match found {
                Ok(found) => call_of(Resolution::Lookup { name }.looked_up(found), job),
                Err(lost) => ChatCall::Refused { error: OpenAiError::server(&lost) },
            },
            other => other,
        }
    }

    /// The engine listed its models, or could not. A call that does not wait
    /// for the engine stays as it is.
    pub fn listed(self, listing: Result<Vec<ModelInfo>, LiveError>) -> (next: ChatCall)
        ensures
            next@ == chat_listed(self@, resolve::listed(listing)),
    {
        match self {
            ChatCall::Listing { name, job } => call_of(
                Resolution::Listing { name }.listed(listing),
                job,
            ),
            other => other,
        }
    }
}

/// What the id of a completion is the digest of: the second it was created
/// in, its number in the life of the process, and a text.
pub open spec fn id_input(created: u64, sequence: u64, text: Seq<char>) -> Seq<u8> {
    vstd::bytes::spec_u64_to_le_bytes(created) + vstd::bytes::spec_u64_to_le_bytes(sequence)
        + vstd::utf8::encode_utf8(text)
}

/// The id with a given digest.
pub open spec fn id_of_digest(hex: Seq<char>) -> Seq<char> {
    "chatcmpl-"@ + hex.take(24)
}

/// The id of a completion.
pub open spec fn completion_id_text(created: u64, sequence: u64, text: Seq<char>) -> Seq<char> {
    id_of_digest(digest::blake3_hex(id_input(created, sequence, text)))
}

/// The id with a given digest, of which the first 24 digits show.
pub fn id_from_digest(hex: &str) -> (id: String)
    requires
        hex@.len() >= 24,
    ensures
        id@ == id_of_digest(hex@),
{
    let head = hex.substring_char(0, 24);
    assert(head@ =~= hex@.take(24));
    text::concat("chatcmpl-", head)
}

/// The id of the completion with number `sequence`.
pub fn completion_id(created: u64, sequence: u64, text: &str) -> (id: String)
    ensures
        id@ == completion_id_text(created, sequence, text@),
        id@.len() == 33,
        forall|i: int| 9 <= i < 33 ==> digest::hex_digit(#[trigger] id@[i]),
{
    let mut input: Vec<u8> = vstd::bytes::u64_to_le_bytes(created);
    let mut number: Vec<u8> = vstd::bytes::u64_to_le_bytes(sequence);
    let mut bytes: Vec<u8> = text.as_bytes_vec();
    input.append(&mut number);
    input.append(&mut bytes);
    let hex = digest::hash_hex(input.as_slice());
    proof {
        reveal_strlit("chatcmpl-");
        assert(forall|i: int| 9 <= i < 33 ==> id_of_digest(hex@)[i] == hex@[i - 9]);
    }
    id_from_digest(hex.as_str())
}

/// The answer to a buffered chat.
pub open spec fn chat_completion_of(
    model: Seq<char>,
    text: Seq<char>,
    usage: Option<TokenUsage>,
    created: u64,
    sequence: u64,
) -> ChatCompletionView {
    ChatCompletionView {
        id: completion_id_text(created, sequence, text),
        object: "chat.completion"@,
        created,
        model,
        choices: seq![
            ChatChoiceView {
                index: 0,
                message: Turn { role: "assistant"@, content: text },
                finish_reason: "stop"@,
            },
        ],
        usage: counts(usage),
    }
}

/// The answer to a buffered chat: the engine's text under the resolved model,
/// with the counts that the engine measured.
pub fn chat_completion(model: String, completion: Completion, created: u64, sequence: u64) -> (answer:
    ChatCompletion)
    ensures
        answer@ == chat_completion_of(
            model@,
            completion@.text,
            completion@.usage,
            created,
            sequence,
        ),
{
    let id = completion_id(created, sequence, completion.text.as_str());
    let mut choices: Vec<ChatChoice> = Vec::new();
    choices.push(
        ChatChoice {
            index: 0,
            message: ChatMessage { role: "assistant".to_owned(), content: completion.text },
            finish_reason: "stop".to_owned(),
        },
    );
    let answer = ChatCompletion {
        id,
        object: "chat.completion".to_owned(),
        created,
        model,
        choices,
        usage: counted(completion.usage),
    };
    assert(answer@ =~= chat_completion_of(
        model@,
        completion@.text,
        completion@.usage,
        created,
        sequence,
    ));
    answer
}

/// A catalog model in the OpenAI shape.
pub open spec fn model_object(model: ModelInfoView) -> ModelObjectView {
    ModelObjectView {
        id: model.id,
        object: "model"@,
        created: (model.created_at_millis / 1000) as u64,
        owned_by: "hologram"@,
    }
}

/// The catalog in the OpenAI shape.
pub open spec fn model_list_of(models: Seq<ModelInfoView>) -> ModelListView {
    ModelListView {
        object: "list"@,
        data: models.map_values(|m: ModelInfoView| model_object(m)),
    }
}

/// The catalog in the OpenAI shape.
pub fn model_list(models: Vec<ModelInfo>) -> (list: ModelList)
    ensures
        list@ == model_list_of(models::infos(models@)),
{
    let mut data: Vec<ModelObject> = Vec::new();
    for model in it: models
        invariant
            it.seq() == models@,
            data@.len() == it.index(),
            forall|k: int|
                0 <= k < data@.len() ==> (#[trigger] data@[k])@ == model_object(models@[k]@),
    {
        data.push(
            ModelObject {
                id: model.id,
                object: "model".to_owned(),
                created: model.created_at_millis / 1000,
                owned_by: "hologram".to_owned(),
            },
        );
    }
    let list = ModelList { object: "list".to_owned(), data };
    assert(list@ =~= model_list_of(models::infos(models@)));
    list
}

/// The answer to a listing: what the catalog holds, or why it could not be
/// read, or that the task that reads it was lost.
pub fn list_models(listing: Result<Result<Vec<ModelInfo>, Failure>, Failure>) -> (answer: Result<
    ModelList,
    OpenAiError,
>)
    ensures
        match listing {
            Ok(Ok(models)) => answer matches Ok(list) && list@ == model_list_of(
                models::infos(models@),
            ),
            Ok(Err(failure)) => answer matches Err(error) && error@ == failure_error(failure@),
            Err(lost) => answer matches Err(error) && error@ == server_error(
                lost@.text,
                Some(lost@.code),
            ),
        },
{
    match listing {
        Ok(Ok(models)) => Ok(model_list(models)),
        Ok(Err(failure)) => Err(OpenAiError::from(failure)),
        Err(lost) => Err(OpenAiError::server(&lost)),
    }
}

/// A chat reaches the engine exactly when it has messages and its model is
/// known, and with the transcript of those messages. It is refused before the
/// engine is asked in every other case.
pub proof fn law_only_known_models_run(
    engine: Seq<char>,
    default_model: Seq<char>,
    request: ChatCompletionRequestView,
    found: Option<Seq<char>>,
    offered: Seq<ModelInfoView>,
)
    ensures
        ({
            let name = resolve::wanted(default_model, request.model);
            let known = name.len() == 0 || engine == "echo"@ || found is Some || resolve::offers(
                offered,
                name,
            );
            match chat_listed(
                chat_looked_up(dispatch_chat_start(engine, default_model, request), Ok(found)),
                offered,
            ) {
                ChatCallView::Run { job, .. } => {
                    &&& request.messages.len() > 0
                    &&& known
                    &&& job.request == chat_request(request)
                    &&& job.mode is Streaming <==> request.stream == Some(true)
                },
                ChatCallView::Refused { error } => {
                    if request.messages.len() == 0 {
                        error == invalid_request_error("messages must not be empty"@, None)
                    } else {
                        &&& !known
                        &&& error == not_found_error(resolve::unknown_model_text(name), None)
                    }
                },
                _ => false,
            }
        }),
{
}

/// What the id of a completion is a digest of tells its time, its number and
/// its text apart: two completions share that only if they share all three.
pub proof fn law_id_inputs_differ(
    created: u64,
    sequence: u64,
    text: Seq<char>,
    other_created: u64,
    other_sequence: u64,
    other_text: Seq<char>,
)
    requires
        id_input(created, sequence, text) == id_input(other_created, other_sequence, other_text),
    ensures
        created == other_created,
        sequence == other_sequence,
        text == other_text,
{
    vstd::bytes::lemma_auto_spec_u64_to_from_le_bytes();
    let a = vstd::bytes::spec_u64_to_le_bytes(created);
    let b = vstd::bytes::spec_u64_to_le_bytes(other_created);
    let c = vstd::bytes::spec_u64_to_le_bytes(sequence);
    let d = vstd::bytes::spec_u64_to_le_bytes(other_sequence);
    let e = vstd::utf8::encode_utf8(text);
    let f = vstd::utf8::encode_utf8(other_text);
    let left = a + c + e;
    let right = b + d + f;
    assert(left == right);
    assert(a =~= left.take(8) && b =~= right.take(8));
    assert(c =~= left.subrange(8, 16) && d =~= right.subrange(8, 16));
    assert(e =~= left.skip(16) && f =~= right.skip(16));
    vstd::utf8::encode_utf8_decode_utf8(text);
    vstd::utf8::encode_utf8_decode_utf8(other_text);
}

/// The job of a call that is not refused.
pub open spec fn job_of(call: ChatCall) -> Option<ChatJob> {
    match call {
        ChatCall::Refused { .. } => None,
        ChatCall::Lookup { job, .. } => Some(job),
        ChatCall::Listing { job, .. } => Some(job),
        ChatCall::Run { job, .. } => Some(job),
    }
}

/// The lines of messages, each with who speaks and what is said.
pub open spec fn message_lines(messages: Seq<ChatMessage>) -> Seq<Seq<char>> {
    Seq::new(messages.len(), |i: int| messages[i].role@ + ": "@ + messages[i].content@)
}

/// The engine is asked with every message of the chat, in order, one line
/// `role: content` for each, and with the sampling options of the request. The
/// answer streams exactly when the request asks for it, with the counts exactly
/// when it asks for those.
pub proof fn law_chat_reaches_the_engine(
    engine: EngineProfile,
    default_model: &str,
    request: ChatCompletionRequest,
    call: ChatCall,
)
    requires
        request.messages@.len() > 0,
        call_ensures(dispatch_chat_completions, (&engine, default_model, request), call),
    ensures
        job_of(call) matches Some(job) && {
            &&& job.request.prompt@ == text::join(message_lines(request.messages@), "\n"@)
            &&& job.request.max_tokens == request.max_tokens
            &&& job.request.temperature == request.temperature
            &&& job.request.seed == request.seed
            &&& job.request.model is None && job.request.session_key is None
            &&& match job.mode {
                ChatMode::Streaming { include_usage } => {
                    &&& request.stream == Some(true)
                    &&& include_usage <==> request.stream_options is Some
                        && request.stream_options->0.include_usage
                },
                ChatMode::Buffered => request.stream != Some(true),
            }
        },
{
    assert(chat::turn_lines(turns(request.messages@)) =~= message_lines(request.messages@));
}

/// The model that the request names is the one that is asked for, without the
/// white space around its name and whatever the default is; the default counts
/// where it names none, and the engine itself where there is no default.
pub proof fn law_chat_asks_for_its_model(
    engine: EngineProfile,
    default_model: &str,
    request: ChatCompletionRequest,
    before: Seq<char>,
    name: Seq<char>,
    after: Seq<char>,
    call: ChatCall,
)
    requires
        request.messages@.len() > 0,
        call_ensures(dispatch_chat_completions, (&engine, default_model, request), call),
    ensures
        ({
            let unnamed = forall|i: int|
                0 <= i < request.model@.len() ==> text::white_space(#[trigger] request.model@[i]);
            let no_default = forall|i: int|
                0 <= i < default_model@.len() ==> text::white_space(#[trigger] default_model@[i]);
            let meant = resolve::names(request.model@, before, name, after) || (unnamed
                && resolve::names(default_model@, before, name, after));
            &&& meant && engine.name@ == "echo"@ ==> (call matches ChatCall::Run { model, .. }
                && model@ == name)
            &&& meant && engine.name@ != "echo"@ ==> (call matches ChatCall::Lookup {
                name: asked,
                ..
            } && asked@ == name)
            &&& unnamed && no_default ==> (call matches ChatCall::Run { model, .. } && model@
                == engine.name@)
        }),
{
    text::lemma_blank(request.model@);
    text::lemma_blank(default_model@);
    if resolve::names(request.model@, before, name, after) || resolve::names(
        default_model@,
        before,
        name,
        after,
    ) {
        text::law_trim_keeps_what_stands_between(before, name, after);
    }
}

/// A chat without messages is refused, whatever else it says; so is a stream
/// where one object is asked for.
pub proof fn law_chat_needs_messages(
    engine: EngineProfile,
    default_model: &str,
    request: ChatCompletionRequest,
    call: ChatCall,
    buffered: ChatCall,
    streamed: ChatCall,
)
    requires
        call_ensures(dispatch_chat_completions, (&engine, default_model, request), call),
        call_ensures(complete_chat, (&engine, default_model, request), buffered),
        call_ensures(stream_chat, (&engine, default_model, request), streamed),
    ensures
        call is Refused <==> request.messages@.len() == 0,
        call matches ChatCall::Refused { error } ==> error.status == 400 && error.body.message@
            == "messages must not be empty"@,
        streamed is Refused <==> request.messages@.len() == 0,
        job_of(streamed) matches Some(job) ==> job.mode is Streaming,
        buffered is Refused <==> request.messages@.len() == 0 || request.stream == Some(true),
        buffered matches ChatCall::Refused { error } ==> error.status == 400,
        job_of(buffered) matches Some(job) ==> job.mode is Buffered,
        request.stream == Some(true) ==> call@ == streamed@,
        request.stream != Some(true) ==> call@ == buffered@,
{
    assert(turns(request.messages@).len() == request.messages@.len());
}

/// Whatever the catalog and the engine say of the model, the job stays what it
/// is: the engine does it under the name that the catalog gives, or under the
/// name asked for where the engine lists it, and a name that neither knows is
/// refused as not found. A lookup that is lost is a failure of the server.
pub proof fn law_job_waits_for_its_model(
    name: String,
    job: ChatJob,
    found: Result<Result<ModelInfo, LiveError>, Failure>,
    looked_up: ChatCall,
    listing: Result<Vec<ModelInfo>, LiveError>,
    listed: ChatCall,
)
    requires
        call_ensures(ChatCall::looked_up, (ChatCall::Lookup { name, job }, found), looked_up),
        call_ensures(ChatCall::listed, (ChatCall::Listing { name, job }, listing), listed),
    ensures
        match found {
            Ok(Ok(info)) => looked_up matches ChatCall::Run { model, job: kept } && model@
                == info.name@ && kept@ == job@,
            Ok(Err(_)) => looked_up matches ChatCall::Listing { name: asked, job: kept } && asked@
                == name@ && kept@ == job@,
            Err(lost) => looked_up matches ChatCall::Refused { error } && error.status == 500
                && error.body.message@ == lost.text@ && (error.body.code matches Some(code)
                && code@ == lost.code@),
        },
        if listing is Ok && resolve::lists(listing->Ok_0@, name@) {
            listed matches ChatCall::Run { model, job: kept } && model@ == name@ && kept@ == job@
        } else {
            listed matches ChatCall::Refused { error } && error.status == 404
                && error.body.message@ == "model "@ + text::debug_text(name@) + " not found"@
        },
{
    resolve::lemma_lists(listing, name@);
}

/// A buffered answer carries the engine's text whole, as the one message of the
/// assistant, under the resolved model, with the counts where the engine
/// measured them.
pub proof fn law_answer_carries_the_text(
    model: String,
    completion: Completion,
    created: u64,
    sequence: u64,
    answer: ChatCompletion,
)
    requires
        call_ensures(chat_completion, (model, completion, created, sequence), answer),
    ensures
        answer.model@ == model@,
        answer.created == created,
        answer.object@ == "chat.completion"@,
        answer.choices@.len() == 1,
        answer.choices@[0].index == 0,
        answer.choices@[0].message.content@ == completion.text@,
        answer.choices@[0].message.role@ == "assistant"@,
        answer.choices@[0].finish_reason@ == "stop"@,
        answer.usage is Some <==> completion.usage is Some,
        answer.usage matches Some(told) ==> {
            let counts = completion.usage->0;
            &&& told.prompt_tokens == counts.prompt_tokens
            &&& told.completion_tokens == counts.completion_tokens
            &&& counts.prompt_tokens + counts.completion_tokens <= u64::MAX ==> told.total_tokens
                == counts.prompt_tokens + counts.completion_tokens
        },
        answer.id@ == "chatcmpl-"@ + digest::blake3_hex(
            vstd::bytes::spec_u64_to_le_bytes(created) + vstd::bytes::spec_u64_to_le_bytes(
                sequence,
            ) + vstd::utf8::encode_utf8(completion.text@),
        ).take(24),
{
    assert(answer@.choices.len() == answer.choices@.len());
    assert(answer@.choices[0] == answer.choices@[0]@);
}

/// An id is the first digits of the digest of its time, its number and its
/// text, in that order.
pub proof fn law_id_is_a_digest(created: u64, sequence: u64, text: &str, id: String)
    requires
        call_ensures(completion_id, (created, sequence, text), id),
    ensures
        id@ == "chatcmpl-"@ + digest::blake3_hex(
            vstd::bytes::spec_u64_to_le_bytes(created) + vstd::bytes::spec_u64_to_le_bytes(
                sequence,
            ) + vstd::utf8::encode_utf8(text@),
        ).take(24),
{
}

/// Models are listed one for one and in order, by their ids, with the second
/// that they were made in. Where the catalog cannot be read, the failure is
/// answered; a task that is lost is a failure of the server.
pub proof fn law_catalog_is_listed(
    listing: Result<Result<Vec<ModelInfo>, Failure>, Failure>,
    answer: Result<ModelList, OpenAiError>,
)
    requires
        call_ensures(list_models, (listing,), answer),
    ensures
        match listing {
            Ok(Ok(models)) => answer matches Ok(list) && {
                &&& list.object@ == "list"@
                &&& list.data@.len() == models@.len()
                &&& forall|i: int|
                    0 <= i < models@.len() ==> {
                        let entry = #[trigger] list.data@[i];
                        &&& entry.id@ == models@[i].id@
                        &&& entry.object@ == "model"@
                        &&& entry.owned_by@ == "hologram"@
                        &&& entry.created * 1000 <= models@[i].created_at_millis
                            < entry.created * 1000 + 1000
                    }
            },
            Ok(Err(failure)) => answer matches Err(error) && error.body.message@ == failure.text@
                && (error.body.code matches Some(code) && code@ == failure.code@),
            Err(lost) => answer matches Err(error) && error.status == 500 && error.body.message@
                == lost.text@ && (error.body.code matches Some(code) && code@ == lost.code@),
        },
{
    if let Ok(Ok(models)) = listing {
        let list = answer->Ok_0;
        let infos = models::infos(models@);
        assert(list@.data.len() == list.data@.len());
        assert(infos.len() == models@.len());
        assert forall|i: int| 0 <= i < models@.len() implies list@.data[i] == (
        #[trigger] list.data@[i])@ && infos[i] == models@[i]@ by {}
    }
}

/// A refusal tells the text and the code of the failure, under the status and
/// the kind of its class.
pub proof fn law_refusal_tells_the_failure(
    failure: Failure,
    refusal: OpenAiError,
    response: (u16, OpenAiErrorEnvelope),
)
    requires
        call_ensures(<OpenAiError as From<Failure>>::from, (failure,), refusal),
        call_ensures(OpenAiError::into_response, (refusal,), response),
    ensures
        response.0 == refusal.status,
        response.1.error.message@ == failure.text@,
        response.1.error.code matches Some(code) && code@ == failure.code@,
        failure.error is NotFound ==> response.0 == 404 && response.1.error.kind@
            == "not_found_error"@,
        failure.error is Config || failure.error is Protocol || failure.error is InvalidHolo
            ==> response.0 == 400 && response.1.error.kind@ == "invalid_request_error"@,
        failure.error is Capability || failure.error is Conflict || failure.error is Io
            || failure.error is Transport || failure.error is Other ==> response.0 == 500
            && response.1.error.kind@ == "server_error"@,
{
}

/// Refusals of the API's own say what they were given.
pub proof fn law_refusals_say_why(
    message: &str,
    failure: Failure,
    invalid: OpenAiError,
    missing: OpenAiError,
    server: OpenAiError,
)
    requires
        call_ensures(OpenAiError::invalid_request, (message,), invalid),
        call_ensures(OpenAiError::not_found, (message,), missing),
        call_ensures(OpenAiError::server, (&failure,), server),
    ensures
        invalid.status == 400 && invalid.body.message@ == message@ && invalid.body.code is None,
        missing.status == 404 && missing.body.message@ == message@ && missing.body.code is None,
        server.status == 500 && server.body.message@ == failure.text@,
        server.body.code matches Some(code) && code@ == failure.code@,
{
}

/// Counts keep their values, and their total is the sum where it fits.
pub proof fn law_counts_are_totalled(usage: TokenUsage, counts: Usage)
    requires
        call_ensures(<Usage as From<TokenUsage>>::from, (usage,), counts),
    ensures
        counts.prompt_tokens == usage.prompt_tokens,
        counts.completion_tokens == usage.completion_tokens,
        usage.prompt_tokens + usage.completion_tokens <= u64::MAX ==> counts.total_tokens
            == usage.prompt_tokens + usage.completion_tokens,
        usage.prompt_tokens + usage.completion_tokens > u64::MAX ==> counts.total_tokens
            == u64::MAX,
{
}

/// A stream is announced as server-sent events and a single answer as JSON.
pub proof fn law_answer_is_announced(
    engine: EngineProfile,
    mode: ChatMode,
    head: ResponseHead,
)
    requires
        call_ensures(response_head, (&engine, mode), head),
    ensures
        head.status == 200,
        mode is Buffered ==> head.content_type@ == "application/json"@,
        mode is Streaming ==> head.content_type@ == "text/event-stream"@,
        engine.stream_kind is Native ==> head.stream@ == "native"@,
        engine.stream_kind is Buffered ==> head.stream@ == "emulated"@,
{
}

/// Messages render as one line `role: content` each, in order.
pub proof fn law_prompt_is_every_message(messages: &Vec<ChatMessage>, prompt: String)
    requires
        call_ensures(render_prompt, (messages,), prompt),
    ensures
        prompt@ == text::join(message_lines(messages@), "\n"@),
{
    assert(chat::turn_lines(turns(messages@)) =~= message_lines(messages@));
}

/// The module serves these paths, each by its method, and stands on the
/// inference module alone.
pub proof fn law_module_serves_its_paths(
    module: OpenAiCompatModule,
    routes: Vec<Route>,
    version: &str,
    descriptor: ModuleDescriptor,
)
    requires
        call_ensures(OpenAiCompatModule::routes, (&module,), routes),
        call_ensures(OpenAiCompatModule::descriptor, (&module, version), descriptor),
    ensures
        routes@.len() == 2,
        routes@[0].method == Method::Post && routes@[0].path@ == "/v1/chat/completions"@,
        routes@[1].method == Method::Get && routes@[1].path@ == "/v1/models"@,
        descriptor.version@ == version@,
        descriptor.dependencies@.len() == 1,
        descriptor.dependencies@[0]@ == "dev.hologram.live.inference"@,
        descriptor.operations@.len() == 0,
{
    let paths = module::paths(routes@);
    assert(paths.len() == routes@.len());
    assert(forall|i: int|
        0 <= i < routes@.len() ==> paths[i] == ((#[trigger] routes@[i]).method, routes@[i].path@));
    assert(routes@[0].path@ == paths[0].1);
    assert(routes@[1].path@ == paths[1].1);
}

} // verus!
