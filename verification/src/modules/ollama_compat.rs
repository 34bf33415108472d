//! Ollama-compatible HTTP API.
//!
//! A thin translation layer over the inference core. `/api/generate` and
//! `/api/chat` answer with one JSON object or stream NDJSON lines; the
//! `x-hologram-stream` response header tells whether the deltas were real or
//! replayed.

use vstd::prelude::*;
use crate::calendar;
use crate::chat;
use crate::chat::{Spoken, Turn};
use crate::error;
use crate::error::{Failure, FailureView, FaultClass, LiveError};
use crate::inference;
use crate::inference::{Completion, CompletionRequest, EngineProfile, Temperature, TokenUsage};
use crate::models;
use crate::models::{ModelInfo, ModelInfoView};
use crate::module;
use crate::module::{Method, ModuleDescriptor, Route};
use crate::modules::openai_compat;
use crate::modules::resolve;
use crate::modules::resolve::{Resolution, ResolutionView};
use crate::modules::stream;
use crate::modules::stream::ResponseHead;
use crate::text;

verus! {

/// The module that serves the Ollama API.
#[derive(Debug)]
pub struct OllamaCompatModule;

impl OllamaCompatModule {
    /// The module, as it is in the daemon of that version.
    pub fn descriptor(&self, version: &str) -> (descriptor: ModuleDescriptor)
        ensures
            descriptor.id@ == "dev.hologram.live.ollama-compat"@,
            descriptor.name@ == "Ollama-Compatible API"@,
            descriptor.version@ == version@,
            descriptor.dependencies@.len() == 1,
            descriptor.dependencies@[0]@ == "dev.hologram.live.inference"@,
            descriptor.operations@.len() == 0,
    {
        module::inference_client("dev.hologram.live.ollama-compat", "Ollama-Compatible API", version)
    }

    /// The routes that the module serves.
    pub fn routes(&self) -> (routes: Vec<Route>)
        ensures
            module::paths(routes@) == seq![
                (Method::Post, "/api/generate"@),
                (Method::Post, "/api/chat"@),
                (Method::Get, "/api/tags"@),
                (Method::Post, "/api/show"@),
            ],
    {
        let mut routes: Vec<Route> = Vec::new();
        routes.push(Route { method: Method::Post, path: "/api/generate" });
        routes.push(Route { method: Method::Post, path: "/api/chat" });
        routes.push(Route { method: Method::Get, path: "/api/tags" });
        routes.push(Route { method: Method::Post, path: "/api/show" });
        assert(module::paths(routes@) =~= seq![
            (Method::Post, "/api/generate"@),
            (Method::Post, "/api/chat"@),
            (Method::Get, "/api/tags"@),
            (Method::Post, "/api/show"@),
        ]);
        routes
    }
}

#[derive(Debug)]
pub struct OllamaOptions {
    pub num_predict: Option<u32>,
    pub temperature: Option<Temperature>,
    pub seed: Option<u64>,
}

impl Default for OllamaOptions {
    fn default() -> (options: Self)
        ensures
            options == (OllamaOptions { num_predict: None, temperature: None, seed: None }),
    {
        OllamaOptions { num_predict: None, temperature: None, seed: None }
    }
}

#[derive(Debug)]
pub struct GenerateRequest {
    /// Catalog model id or name; falls back to the configured default.
    pub model: String,
    pub prompt: String,
    pub stream: Option<bool>,
    pub options: Option<OllamaOptions>,
}

pub struct GenerateRequestView {
    pub model: Seq<char>,
    pub prompt: Seq<char>,
    pub stream: Option<bool>,
    pub options: Option<OllamaOptions>,
}

impl View for GenerateRequest {
    type V = GenerateRequestView;

    open spec fn view(&self) -> GenerateRequestView {
        GenerateRequestView {
            model: self.model@,
            prompt: self.prompt@,
            stream: self.stream,
            options: self.options,
        }
    }
}

#[derive(Debug)]
pub struct OllamaMessage {
    pub role: String,
    pub content: String,
}

impl View for OllamaMessage {
    type V = Turn;

    open spec fn view(&self) -> Turn {
        Turn { role: self.role@, content: self.content@ }
    }
}

impl Spoken for OllamaMessage {
    open spec fn turn(&self) -> Turn {
        self@
    }

    fn role(&self) -> &str {
        self.role.as_str()
    }

    fn content(&self) -> &str {
        self.content.as_str()
    }
}

impl Clone for OllamaMessage {
    fn clone(&self) -> (copy: Self)
        ensures
            copy == *self,
    {
        OllamaMessage { role: self.role.clone(), content: self.content.clone() }
    }
}

/// What a list of messages says.
pub open spec fn turns(messages: Seq<OllamaMessage>) -> Seq<Turn> {
    messages.map_values(|m: OllamaMessage| m@)
}

/// What an optional message says.
pub open spec fn turn(message: Option<OllamaMessage>) -> Option<Turn> {
    match message {
        Some(message) => Some(message@),
        None => None,
    }
}

#[derive(Debug)]
pub struct ChatRequest {
    /// Catalog model id or name; falls back to the configured default.
    pub model: String,
    pub messages: Vec<OllamaMessage>,
    pub stream: Option<bool>,
    pub options: Option<OllamaOptions>,
}

pub struct ChatRequestView {
    pub model: Seq<char>,
    pub messages: Seq<Turn>,
    pub stream: Option<bool>,
    pub options: Option<OllamaOptions>,
}

impl View for ChatRequest {
    type V = ChatRequestView;

    open spec fn view(&self) -> ChatRequestView {
        ChatRequestView {
            model: self.model@,
            messages: turns(self.messages@),
            stream: self.stream,
            options: self.options,
        }
    }
}

#[derive(Debug)]
pub struct GenerateResponse {
    pub model: String,
    pub created_at: String,
    pub response: String,
    pub done: bool,
    /// Absent unless the engine measured both halves.
    pub prompt_eval_count: Option<u64>,
    pub eval_count: Option<u64>,
}

pub struct GenerateResponseView {
    pub model: Seq<char>,
    pub created_at: Seq<char>,
    pub response: Seq<char>,
    pub done: bool,
    pub prompt_eval_count: Option<u64>,
    pub eval_count: Option<u64>,
}

impl View for GenerateResponse {
    type V = GenerateResponseView;

    open spec fn view(&self) -> GenerateResponseView {
        GenerateResponseView {
            model: self.model@,
            created_at: self.created_at@,
            response: self.response@,
            done: self.done,
            prompt_eval_count: self.prompt_eval_count,
            eval_count: self.eval_count,
        }
    }
}

#[derive(Debug)]
pub struct ChatResponse {
    pub model: String,
    pub created_at: String,
    pub message: OllamaMessage,
    pub done: bool,
    /// Absent unless the engine measured both halves.
    pub prompt_eval_count: Option<u64>,
    pub eval_count: Option<u64>,
}

pub struct ChatResponseView {
    pub model: Seq<char>,
    pub created_at: Seq<char>,
    pub message: Turn,
    pub done: bool,
    pub prompt_eval_count: Option<u64>,
    pub eval_count: Option<u64>,
}

impl View for ChatResponse {
    type V = ChatResponseView;

    open spec fn view(&self) -> ChatResponseView {
        ChatResponseView {
            model: self.model@,
            created_at: self.created_at@,
            message: self.message@,
            done: self.done,
            prompt_eval_count: self.prompt_eval_count,
            eval_count: self.eval_count,
        }
    }
}

#[derive(Debug)]
pub struct TagModel {
    pub name: String,
    pub model: String,
    pub modified_at: String,
    pub size: u64,
    pub digest: String,
}

pub struct TagModelView {
    pub name: Seq<char>,
    pub model: Seq<char>,
    pub modified_at: Seq<char>,
    pub size: u64,
    pub digest: Seq<char>,
}

impl View for TagModel {
    type V = TagModelView;

    open spec fn view(&self) -> TagModelView {
        TagModelView {
            name: self.name@,
            model: self.model@,
            modified_at: self.modified_at@,
            size: self.size,
            digest: self.digest@,
        }
    }
}

#[derive(Debug)]
pub struct TagsResponse {
    pub models: Vec<TagModel>,
}

impl View for TagsResponse {
    type V = Seq<TagModelView>;

    open spec fn view(&self) -> Seq<TagModelView> {
        self.models@.map_values(|m: TagModel| m@)
    }
}

#[derive(Debug)]
pub struct ShowRequest {
    pub model: String,
}

#[derive(Debug)]
pub struct ModelDetails {
    pub format: String,
    pub family: String,
    pub families: Vec<String>,
    pub parameter_size: String,
    pub quantization_level: String,
}

#[verifier::ext_equal]
pub struct ModelDetailsView {
    pub format: Seq<char>,
    pub family: Seq<char>,
    pub families: Seq<Seq<char>>,
    pub parameter_size: Seq<char>,
    pub quantization_level: Seq<char>,
}

impl View for ModelDetails {
    type V = ModelDetailsView;

    open spec fn view(&self) -> ModelDetailsView {
        ModelDetailsView {
            format: self.format@,
            family: self.family@,
            families: text::texts(self.families@),
            parameter_size: self.parameter_size@,
            quantization_level: self.quantization_level@,
        }
    }
}

#[derive(Debug)]
pub struct ShowResponse {
    pub modelfile: String,
    pub parameters: String,
    pub template: String,
    pub details: ModelDetails,
}

#[verifier::ext_equal]
pub struct ShowResponseView {
    pub modelfile: Seq<char>,
    pub parameters: Seq<char>,
    pub template: Seq<char>,
    pub details: ModelDetailsView,
}

impl View for ShowResponse {
    type V = ShowResponseView;

    open spec fn view(&self) -> ShowResponseView {
        ShowResponseView {
            modelfile: self.modelfile@,
            parameters: self.parameters@,
            template: self.template@,
            details: self.details@,
        }
    }
}

/// The envelope of an error: `{"error": "..."}`.
#[derive(Debug)]
pub struct OllamaErrorBody {
    pub error: String,
}

/// An error rendered in Ollama's plain envelope, with its HTTP status.
#[derive(Debug)]
pub struct OllamaError {
    pub status: u16,
    pub message: String,
}

pub struct OllamaErrorView {
    pub status: u16,
    pub message: Seq<char>,
}

impl View for OllamaError {
    type V = OllamaErrorView;

    open spec fn view(&self) -> OllamaErrorView {
        OllamaErrorView { status: self.status, message: self.message@ }
    }
}

pub open spec fn bad_request_error(message: Seq<char>) -> OllamaErrorView {
    OllamaErrorView { status: 400, message }
}

pub open spec fn not_found_error(message: Seq<char>) -> OllamaErrorView {
    OllamaErrorView { status: 404, message }
}

pub open spec fn server_error(message: Seq<char>) -> OllamaErrorView {
    OllamaErrorView { status: 500, message }
}

/// How a failure is answered: its text, under the status of its class.
pub open spec fn failure_error(failure: FailureView) -> OllamaErrorView {
    match error::class_of(failure.error) {
        FaultClass::NotFound => not_found_error(failure.text),
        FaultClass::Invalid => bad_request_error(failure.text),
        FaultClass::Server => server_error(failure.text),
    }
}

impl OllamaError {
    pub fn bad_request(message: &str) -> (refusal: OllamaError)
        ensures
            refusal@ == bad_request_error(message@),
    {
        OllamaError { status: 400, message: message.to_owned() }
    }

    pub fn not_found(message: &str) -> (refusal: OllamaError)
        ensures
            refusal@ == not_found_error(message@),
    {
        OllamaError { status: 404, message: message.to_owned() }
    }

    pub fn server(message: &str) -> (refusal: OllamaError)
        ensures
            refusal@ == server_error(message@),
    {
        OllamaError { status: 500, message: message.to_owned() }
    }

    /// The status and the envelope of the response.
    pub fn into_response(self) -> (response: (u16, OllamaErrorBody))
        ensures
            response.0 == self@.status,
            response.1.error@ == self@.message,
    {
        (self.status, OllamaErrorBody { error: self.message })
    }
}

/// The answer to a failure.
impl From<Failure> for OllamaError {
    fn from(failure: Failure) -> (refusal: OllamaError)
        ensures
            refusal@ == failure_error(failure@),
    {
        match failure.error.class() {
            FaultClass::NotFound => OllamaError::not_found(failure.text.as_str()),
            FaultClass::Invalid => OllamaError::bad_request(failure.text.as_str()),
            FaultClass::Server => OllamaError::server(failure.text.as_str()),
        }
    }
}

/// A refusal holds strings, and what is promised of them is said over their
/// contents, by `from` itself.
impl vstd::std_specs::convert::FromSpecImpl<Failure> for OllamaError {
    open spec fn obeys_from_spec() -> bool {
        false
    }

    open spec fn from_spec(failure: Failure) -> OllamaError {
        arbitrary()
    }
}

/// The prompt that a list of messages renders to.
pub fn render_prompt(messages: &Vec<OllamaMessage>) -> (prompt: String)
    ensures
        prompt@ == chat::transcript(turns(messages@)),
{
    let lines = chat::rendered_turns(messages);
    assert(chat::spoken(messages@) =~= turns(messages@));
    text::joined(&lines, "\n")
}

/// What the engine is asked for a prompt: absent options leave everything to
/// the engine.
pub open spec fn engine_request(prompt: Seq<char>, options: Option<OllamaOptions>) ->
    inference::CompletionRequestView {
    match options {
        Some(options) => inference::CompletionRequestView {
            max_tokens: options.num_predict,
            temperature: options.temperature,
            seed: options.seed,
            ..inference::plain_request(prompt)
        },
        None => inference::plain_request(prompt),
    }
}

/// Builds the request to the engine from Ollama's `options`. Shared by the
/// buffered and streaming paths of both `generate` and `chat`.
pub fn completion_request(prompt: String, options: Option<OllamaOptions>) -> (request:
    CompletionRequest)
    ensures
        request@ == engine_request(prompt@, options),
{
    let options = match options {
        Some(options) => options,
        None => OllamaOptions::default(),
    };
    CompletionRequest {
        model: None,
        prompt,
        max_tokens: options.num_predict,
        temperature: options.temperature,
        seed: options.seed,
        session_key: None,
    }
}

/// Which field carries the text: `/api/generate` uses `response`, `/api/chat`
/// uses `message`.
#[derive(Debug, Clone, Copy, PartialEq, Eq, Structural)]
pub enum LineShape {
    Response,
    Message,
}

/// What has to be done once the model is known.
#[derive(Debug)]
pub struct OllamaJob {
    pub request: CompletionRequest,
    pub shape: LineShape,
    /// Whether the answer is a stream of NDJSON lines.
    pub streaming: bool,
}

pub struct OllamaJobView {
    pub request: inference::CompletionRequestView,
    pub shape: LineShape,
    pub streaming: bool,
}

impl View for OllamaJob {
    type V = OllamaJobView;

    open spec fn view(&self) -> OllamaJobView {
        OllamaJobView {
            request: self.request@,
            shape: self.shape,
            streaming: self.streaming,
        }
    }
}

/// How far a request has come: what has to be done next, or how it was refused.
#[derive(Debug)]
pub enum OllamaCall {
    /// Nothing reaches the engine.
    Refused { error: OllamaError },
    /// The catalog has to be asked for `name`.
    Lookup { name: String, job: OllamaJob },
    /// The engine has to list its models.
    Listing { name: String, job: OllamaJob },
    /// The engine has to do the job; the response names `model`.
    Run { model: String, job: OllamaJob },
}

pub enum OllamaCallView {
    Refused { error: OllamaErrorView },
    Lookup { name: Seq<char>, job: OllamaJobView },
    Listing { name: Seq<char>, job: OllamaJobView },
    Run { model: Seq<char>, job: OllamaJobView },
}

impl View for OllamaCall {
    type V = OllamaCallView;

    open spec fn view(&self) -> OllamaCallView {
        match self {
            OllamaCall::Refused { error } => OllamaCallView::Refused { error: error@ },
            OllamaCall::Lookup { name, job } => OllamaCallView::Lookup { name: name@, job: job@ },
            OllamaCall::Listing { name, job } => OllamaCallView::Listing {
                name: name@,
                job: job@,
            },
            OllamaCall::Run { model, job } => OllamaCallView::Run { model: model@, job: job@ },
        }
    }
}

/// A call whose model is resolved as far as `resolution` says. A name that
/// nothing goes by is refused as not found.
pub open spec fn ollama_call_of(resolution: ResolutionView, job: OllamaJobView) -> OllamaCallView {
    match resolution {
        ResolutionView::Resolved { label } => OllamaCallView::Run { model: label, job },
        ResolutionView::Lookup { name } => OllamaCallView::Lookup { name, job },
        ResolutionView::Listing { name } => OllamaCallView::Listing { name, job },
        ResolutionView::Unknown { name } => OllamaCallView::Refused {
            error: not_found_error(resolve::unknown_model_text(name)),
        },
    }
}

fn call_of(resolution: Resolution, job: OllamaJob) -> (call: OllamaCall)
    ensures
        call@ == ollama_call_of(resolution@, job@),
{
    match resolution {
        Resolution::Resolved { label } => OllamaCall::Run { model: label, job },
        Resolution::Lookup { name } => OllamaCall::Lookup { name, job },
        Resolution::Listing { name } => OllamaCall::Listing { name, job },
        Resolution::Unknown { name } => OllamaCall::Refused {
            error: OllamaError::not_found(resolve::unknown_model(name.as_str()).as_str()),
        },
    }
}

/// How a generation starts that is answered in a given way.
pub open spec fn generate_start(
    engine: Seq<char>,
    default_model: Seq<char>,
    request: GenerateRequestView,
    streaming: bool,
) -> OllamaCallView {
    ollama_call_of(
        resolve::resolution_start(engine, default_model, request.model),
        OllamaJobView {
            request: engine_request(request.prompt, request.options),
            shape: LineShape::Response,
            streaming,
        },
    )
}

/// How a chat starts that is answered in a given way: without messages there
/// is nothing to answer, whatever model is asked for.
pub open spec fn chat_start(
    engine: Seq<char>,
    default_model: Seq<char>,
    request: ChatRequestView,
    streaming: bool,
) -> OllamaCallView {
    if request.messages.len() == 0 {
        OllamaCallView::Refused { error: bad_request_error("messages must not be empty"@) }
    } else {
        ollama_call_of(
            resolve::resolution_start(engine, default_model, request.model),
            OllamaJobView {
                request: engine_request(chat::transcript(request.messages), request.options),
                shape: LineShape::Message,
                streaming,
            },
        )
    }
}

/// The refusal of a stream where one object is asked for.
pub open spec fn no_stream() -> OllamaCallView {
    OllamaCallView::Refused {
        error: bad_request_error("streaming is not supported; send stream: false"@),
    }
}

/// Starts a generation that is answered with one JSON object.
pub fn generate_core(
    engine: &EngineProfile,
    default_model: &str,
    request: GenerateRequest,
) -> (call: OllamaCall)
    ensures
        call@ == if request@.stream == Some(true) {
            no_stream()
        } else {
            generate_start(engine.name@, default_model@, request@, false)
        },
{
    if let Some(true) = request.stream {
        return OllamaCall::Refused {
            error: OllamaError::bad_request("streaming is not supported; send stream: false"),
        };
    }
    let resolution = Resolution::start(engine, default_model, request.model.as_str());
    let job = OllamaJob {
        request: completion_request(request.prompt, request.options),
        shape: LineShape::Response,
        streaming: false,
    };
    call_of(resolution, job)
}

/// Starts a generation that is answered with a stream.
pub fn stream_generate(
    engine: &EngineProfile,
    default_model: &str,
    request: GenerateRequest,
) -> (call: OllamaCall)
    ensures
        call@ == generate_start(engine.name@, default_model@, request@, true),
{
    let resolution = Resolution::start(engine, default_model, request.model.as_str());
    let job = OllamaJob {
        request: completion_request(request.prompt, request.options),
        shape: LineShape::Response,
        streaming: true,
    };
    call_of(resolution, job)
}

/// Starts a generation; it streams exactly when the request asks for it.
pub fn dispatch_generate(
    engine: &EngineProfile,
    default_model: &str,
    request: GenerateRequest,
) -> (call: OllamaCall)
    ensures
        call@ == generate_start(
            engine.name@,
            default_model@,
            request@,
            request@.stream == Some(true),
        ),
{
    if let Some(true) = request.stream {
        stream_generate(engine, default_model, request)
    } else {
        generate_core(engine, default_model, request)
    }
}

/// Starts a chat that is answered with one JSON object.
pub fn chat_core(
    engine: &EngineProfile,
    default_model: &str,
    request: ChatRequest,
) -> (call: OllamaCall)
    ensures
        call@ == if request@.stream == Some(true) {
            no_stream()
        } else {
            chat_start(engine.name@, default_model@, request@, false)
        },
{
    if let Some(true) = request.stream {
        return OllamaCall::Refused {
            error: OllamaError::bad_request("streaming is not supported; send stream: false"),
        };
    }
    if request.messages.len() == 0 {
        return OllamaCall::Refused {
            error: OllamaError::bad_request("messages must not be empty"),
        };
    }
    let resolution = Resolution::start(engine, default_model, request.model.as_str());
    let job = OllamaJob {
        request: completion_request(render_prompt(&request.messages), request.options),
        shape: LineShape::Message,
        streaming: false,
    };
    call_of(resolution, job)
}

/// Starts a chat that is answered with a stream.
pub fn stream_chat(
    engine: &EngineProfile,
    default_model: &str,
    request: ChatRequest,
) -> (call: OllamaCall)
    ensures
        call@ == chat_start(engine.name@, default_model@, request@, true),
{
    if request.messages.len() == 0 {
        return OllamaCall::Refused {
            error: OllamaError::bad_request("messages must not be empty"),
        };
    }
    let resolution = Resolution::start(engine, default_model, request.model.as_str());
    let job = OllamaJob {
        request: completion_request(render_prompt(&request.messages), request.options),
        shape: LineShape::Message,
        streaming: true,
    };
    call_of(resolution, job)
}

/// Starts a chat; it streams exactly when the request asks for it.
pub fn dispatch_chat(
    engine: &EngineProfile,
    default_model: &str,
    request: ChatRequest,
) -> (call: OllamaCall)
    ensures
        call@ == chat_start(
            engine.name@,
            default_model@,
            request@,
            request@.stream == Some(true),
        ),
{
    if let Some(true) = request.stream {
        stream_chat(engine, default_model, request)
    } else {
        chat_core(engine, default_model, request)
    }
}

/// The call once the catalog was asked, or the task that asks was lost.
pub open spec fn ollama_looked_up(
    call: OllamaCallView,
    found: Result<Option<Seq<char>>, Seq<char>>,
) -> OllamaCallView {
    match (call, found) {
        (OllamaCallView::Lookup { name, job }, Ok(found)) => ollama_call_of(
            resolve::resolution_looked_up(ResolutionView::Lookup { name }, found),
            job,
        ),
        (OllamaCallView::Lookup { .. }, Err(lost)) => OllamaCallView::Refused {
            error: server_error("join model lookup: "@ + lost),
        },
        _ => call,
    }
}

/// The call once the engine listed its models.
pub open spec fn ollama_listed(call: OllamaCallView, offered: Seq<ModelInfoView>) ->
    OllamaCallView {
    match call {
        OllamaCallView::Listing { name, job } => ollama_call_of(
            resolve::resolution_listed(ResolutionView::Listing { name }, offered),
            job,
        ),
        _ => call,
    }
}

impl OllamaCall {
    /// The catalog was asked, or the task that asks was lost. A call that does
    /// not wait for the catalog stays as it is.
    pub fn looked_up(self, found: Result<Result<ModelInfo, LiveError>, String>) -> (next:
        OllamaCall)
        ensures
            next@ == ollama_looked_up(
                self@,
                match found {
                    Ok(found) => Ok(resolve::found_name(found)),
                    Err(lost) => Err(lost@),
                },
            ),
    {
        match self {
            OllamaCall::Lookup { name, job } => match found {
                Ok(found) => call_of(Resolution::Lookup { name }.looked_up(found), job),
                Err(lost) => OllamaCall::Refused {
                    error: OllamaError::server(
                        text::concat("join model lookup: ", lost.as_str()).as_str(),
                    ),
                },
            },
            other => other,
        }
    }

    /// The engine listed its models, or could not. A call that does not wait
    /// for the engine stays as it is.
    pub fn listed(self, listing: Result<Vec<ModelInfo>, LiveError>) -> (next: OllamaCall)
        ensures
            next@ == ollama_listed(self@, resolve::listed(listing)),
    {
        match self {
            OllamaCall::Listing { name, job } => call_of(
                Resolution::Listing { name }.listed(listing),
                job,
            ),
            other => other,
        }
    }
}

/// The content type of an answer.
pub open spec fn content_type(streaming: bool) -> Seq<char> {
    if streaming {
        "application/x-ndjson"@
    } else {
        "application/json"@
    }
}

/// The head of the response when `engine` did the job.
pub fn response_head(engine: &EngineProfile, streaming: bool) -> (head: ResponseHead)
    ensures
        head.status == 200,
        head.content_type@ == content_type(streaming),
        head.stream@ == inference::stream_header(engine.stream_kind),
{
    stream::response_head(
        if streaming {
            "application/x-ndjson"
        } else {
            "application/json"
        },
        engine.stream_kind,
    )
}

/// The prompt tokens of a usage, if it was measured.
pub open spec fn prompt_count(usage: Option<TokenUsage>) -> Option<u64> {
    match usage {
        Some(usage) => Some(usage.prompt_tokens),
        None => None,
    }
}

/// The completion tokens of a usage, if it was measured.
pub open spec fn completion_count(usage: Option<TokenUsage>) -> Option<u64> {
    match usage {
        Some(usage) => Some(usage.completion_tokens),
        None => None,
    }
}

/// The counts of a usage: of the prompt, and of the completion.
pub fn eval_counts(usage: Option<TokenUsage>) -> (counts: (Option<u64>, Option<u64>))
    ensures
        counts.0 == prompt_count(usage),
        counts.1 == completion_count(usage),
{
    match usage {
        Some(usage) => (Some(usage.prompt_tokens), Some(usage.completion_tokens)),
        None => (None, None),
    }
}

/// The answer to a generation.
pub fn generate_response(model: String, completion: Completion, created_at: String) -> (answer:
    GenerateResponse)
    ensures
        answer@ == (GenerateResponseView {
            model: model@,
            created_at: created_at@,
            response: completion@.text,
            done: true,
            prompt_eval_count: prompt_count(completion@.usage),
            eval_count: completion_count(completion@.usage),
        }),
{
    let (prompt_eval_count, eval_count) = eval_counts(completion.usage);
    GenerateResponse {
        model,
        created_at,
        response: completion.text,
        done: true,
        prompt_eval_count,
        eval_count,
    }
}

/// The answer to a chat.
pub fn chat_response(model: String, completion: Completion, created_at: String) -> (answer:
    ChatResponse)
    ensures
        answer@ == (ChatResponseView {
            model: model@,
            created_at: created_at@,
            message: Turn { role: "assistant"@, content: completion@.text },
            done: true,
            prompt_eval_count: prompt_count(completion@.usage),
            eval_count: completion_count(completion@.usage),
        }),
{
    let (prompt_eval_count, eval_count) = eval_counts(completion.usage);
    ChatResponse {
        model,
        created_at,
        message: OllamaMessage { role: "assistant".to_owned(), content: completion.text },
        done: true,
        prompt_eval_count,
        eval_count,
    }
}

/// A catalog model as a tag.
pub open spec fn tag_of(model: ModelInfoView) -> TagModelView {
    TagModelView {
        name: model.name,
        model: model.name,
        modified_at: calendar::rfc3339(model.created_at_millis as nat),
        size: model.size,
        digest: model.id,
    }
}

/// The catalog as tags.
pub open spec fn tags_of(models: Seq<ModelInfoView>) -> Seq<TagModelView> {
    models.map_values(|m: ModelInfoView| tag_of(m))
}

/// The catalog as tags.
pub fn tags_from(models: Vec<ModelInfo>) -> (tags: TagsResponse)
    ensures
        tags@ == tags_of(models::infos(models@)),
{
    let mut list: Vec<TagModel> = Vec::new();
    for model in it: models
        invariant
            it.seq() == models@,
            list@.len() == it.index(),
            forall|k: int| 0 <= k < list@.len() ==> (#[trigger] list@[k])@ == tag_of(models@[k]@),
    {
        list.push(
            TagModel {
                name: model.name.clone(),
                model: model.name,
                modified_at: calendar::rfc3339_from_millis(model.created_at_millis),
                size: model.size,
                digest: model.id,
            },
        );
    }
    let tags = TagsResponse { models: list };
    assert(tags@ =~= tags_of(models::infos(models@)));
    tags
}

/// The answer to a listing: what the catalog holds, or why it could not be
/// read, or that the task that reads it was lost.
pub fn list_tags(listing: Result<Result<Vec<ModelInfo>, Failure>, String>) -> (answer: Result<
    TagsResponse,
    OllamaError,
>)
    ensures
        match listing {
            Ok(Ok(models)) => answer matches Ok(tags) && tags@ == tags_of(models::infos(models@)),
            Ok(Err(failure)) => answer matches Err(error) && error@ == failure_error(failure@),
            Err(lost) => answer matches Err(error) && error@ == server_error(
                "join model listing: "@ + lost@,
            ),
        },
{
    match listing {
        Ok(Ok(models)) => Ok(tags_from(models)),
        Ok(Err(failure)) => Err(OllamaError::from(failure)),
        Err(lost) => Err(
            OllamaError::server(text::concat("join model listing: ", lost.as_str()).as_str()),
        ),
    }
}

/// The description of a model: no more than the catalog knows.
pub open spec fn show_of(engine: Seq<char>) -> ShowResponseView {
    ShowResponseView {
        modelfile: seq![],
        parameters: seq![],
        template: seq![],
        details: ModelDetailsView {
            format: "wcpu"@,
            family: engine,
            families: seq![engine],
            parameter_size: seq![],
            quantization_level: seq![],
        },
    }
}

/// The description of a model.
pub fn show_from(model: &ModelInfo) -> (show: ShowResponse)
    ensures
        show@ == show_of(model@.engine),
{
    let mut families: Vec<String> = Vec::new();
    families.push(model.engine.clone());
    assert(text::texts(families@) =~= seq![model@.engine]);
    ShowResponse {
        modelfile: String::new(),
        parameters: String::new(),
        template: String::new(),
        details: ModelDetails {
            format: "wcpu".to_owned(),
            family: model.engine.clone(),
            families,
            parameter_size: String::new(),
            quantization_level: String::new(),
        },
    }
}

/// The name to look up for a description: a request has to give one.
pub fn show_model(request: &ShowRequest) -> (name: Result<String, OllamaError>)
    ensures
        if text::trim(request.model@).len() == 0 {
            name matches Err(error) && error@ == bad_request_error("model is required"@)
        } else {
            name matches Ok(name) && name@ == text::trim(request.model@)
        },
{
    if text::is_blank(request.model.as_str()) {
        return Err(OllamaError::bad_request("model is required"));
    }
    Ok(text::trimmed(request.model.as_str()).to_owned())
}

/// The answer to a description, once the catalog was asked or the task that
/// asks was lost.
pub fn shown(found: Result<Result<ModelInfo, Failure>, String>) -> (answer: Result<
    ShowResponse,
    OllamaError,
>)
    ensures
        match found {
            Ok(Ok(model)) => answer matches Ok(show) && show@ == show_of(model@.engine),
            Ok(Err(failure)) => answer matches Err(error) && error@ == failure_error(failure@),
            Err(lost) => answer matches Err(error) && error@ == server_error(
                "join model lookup: "@ + lost@,
            ),
        },
{
    match found {
        Ok(Ok(model)) => Ok(show_from(&model)),
        Ok(Err(failure)) => Err(OllamaError::from(failure)),
        Err(lost) => Err(
            OllamaError::server(text::concat("join model lookup: ", lost.as_str()).as_str()),
        ),
    }
}

/// A generation reaches the engine exactly when its model is known, with its
/// prompt; it is refused before the engine is asked in every other case.
pub proof fn law_only_known_models_generate(
    engine: Seq<char>,
    default_model: Seq<char>,
    request: GenerateRequestView,
    streaming: bool,
    found: Option<Seq<char>>,
    offered: Seq<ModelInfoView>,
)
    ensures
        ({
            let name = resolve::wanted(default_model, request.model);
            let known = name.len() == 0 || engine == "echo"@ || found is Some || resolve::offers(
                offered,
                name,
            );
            match ollama_listed(
                ollama_looked_up(
                    generate_start(engine, default_model, request, streaming),
                    Ok(found),
                ),
                offered,
            ) {
                OllamaCallView::Run { job, .. } => {
                    &&& known
                    &&& job.request == engine_request(request.prompt, request.options)
                    &&& job.streaming == streaming
                },
                OllamaCallView::Refused { error } => {
                    &&& !known
                    &&& error == not_found_error(resolve::unknown_model_text(name))
                },
                _ => false,
            }
        }),
{
}

/// A chat reaches the engine exactly when it has messages and its model is
/// known, and with the transcript of those messages. It is refused before the
/// engine is asked in every other case.
pub proof fn law_only_known_models_chat(
    engine: Seq<char>,
    default_model: Seq<char>,
    request: ChatRequestView,
    streaming: bool,
    found: Option<Seq<char>>,
    offered: Seq<ModelInfoView>,
)
    ensures
        ({
            let name = resolve::wanted(default_model, request.model);
            let known = name.len() == 0 || engine == "echo"@ || found is Some || resolve::offers(
                offered,
                name,
            );
            match ollama_listed(
                ollama_looked_up(chat_start(engine, default_model, request, streaming), Ok(found)),
                offered,
            ) {
                OllamaCallView::Run { job, .. } => {
                    &&& request.messages.len() > 0
                    &&& known
                    &&& job.request == engine_request(
                        chat::transcript(request.messages),
                        request.options,
                    )
                    &&& job.streaming == streaming
                },
                OllamaCallView::Refused { error } => {
                    if request.messages.len() == 0 {
                        error == bad_request_error("messages must not be empty"@)
                    } else {
                        &&& !known
                        &&& error == not_found_error(resolve::unknown_model_text(name))
                    }
                },
                _ => false,
            }
        }),
{
}

/// Both HTTP APIs answer a failure with the same status and with its text:
/// 404 for what is not there, 400 for what is the caller's, else 500.
pub proof fn law_apis_agree_on_failures(failure: FailureView)
    ensures
        failure_error(failure).status == openai_compat::failure_error(failure).status,
        failure_error(failure).status == 404 <==> failure.error is NotFound,
        failure_error(failure).status == 400 <==> failure.error is Config || failure.error
            is Protocol || failure.error is InvalidHolo,
        failure_error(failure).status == 404 || failure_error(failure).status == 400
            || failure_error(failure).status == 500,
        failure_error(failure).message == failure.text,
        openai_compat::failure_error(failure).body.message == failure.text,
{
}

/// The conversions of equal failures into the refusals of the two HTTP APIs
/// agree, on the status and on the text.
pub proof fn law_refusals_agree(
    failure: Failure,
    other: Failure,
    refusal: OllamaError,
    openai_refusal: openai_compat::OpenAiError,
)
    requires
        failure@ == other@,
        call_ensures(<OllamaError as From<Failure>>::from, (failure,), refusal),
        call_ensures(<openai_compat::OpenAiError as From<Failure>>::from, (other,), openai_refusal),
    ensures
        refusal@.status == openai_refusal@.status,
        refusal@.status == if failure.error@ is NotFound {
            404u16
        } else if failure.error@ is Config || failure.error@ is Protocol || failure.error@
            is InvalidHolo {
            400
        } else {
            500
        },
        refusal@.message == failure.text@,
        openai_refusal@.body.message == other.text@,
{
    law_apis_agree_on_failures(failure@);
}

/// Counts come together: an answer carries both or neither.
pub proof fn law_counts_come_together(usage: Option<TokenUsage>)
    ensures
        prompt_count(usage) is Some <==> completion_count(usage) is Some,
{
}

/// The job of a call that is not refused.
pub open spec fn job_of(call: OllamaCall) -> Option<OllamaJob> {
    match call {
        OllamaCall::Refused { .. } => None,
        OllamaCall::Lookup { job, .. } => Some(job),
        OllamaCall::Listing { job, .. } => Some(job),
        OllamaCall::Run { job, .. } => Some(job),
    }
}

/// The lines of messages, each with who speaks and what is said.
pub open spec fn message_lines(messages: Seq<OllamaMessage>) -> Seq<Seq<char>> {
    Seq::new(messages.len(), |i: int| messages[i].role@ + ": "@ + messages[i].content@)
}

/// Whether a request to the engine gives the sampling options of an Ollama
/// request, and nothing where that gives none.
pub open spec fn samples(request: CompletionRequest, options: Option<OllamaOptions>) -> bool {
    match options {
        Some(options) => {
            &&& request.max_tokens == options.num_predict
            &&& request.temperature == options.temperature
            &&& request.seed == options.seed
        },
        None => request.max_tokens is None && request.temperature is None && request.seed is None,
    }
}

/// A generation is asked of the engine with its prompt as it stands and with
/// its options. It streams exactly when the request asks for it, and answers
/// under `response`.
pub proof fn law_generation_reaches_the_engine(
    engine: EngineProfile,
    default_model: &str,
    request: GenerateRequest,
    call: OllamaCall,
)
    requires
        call_ensures(dispatch_generate, (&engine, default_model, request), call),
    ensures
        job_of(call) matches Some(job) && {
            &&& job.request.prompt@ == request.prompt@
            &&& samples(job.request, request.options)
            &&& job.request.model is None && job.request.session_key is None
            &&& job.shape == LineShape::Response
            &&& job.streaming <==> request.stream == Some(true)
        },
{
}

/// A chat is asked of the engine with every message, in order, one line
/// `role: content` for each, and with its options. It streams exactly when the
/// request asks for it, and answers under `message`.
pub proof fn law_chat_reaches_the_engine(
    engine: EngineProfile,
    default_model: &str,
    request: ChatRequest,
    call: OllamaCall,
)
    requires
        request.messages@.len() > 0,
        call_ensures(dispatch_chat, (&engine, default_model, request), call),
    ensures
        job_of(call) matches Some(job) && {
            &&& job.request.prompt@ == text::join(message_lines(request.messages@), "\n"@)
            &&& samples(job.request, request.options)
            &&& job.request.model is None && job.request.session_key is None
            &&& job.shape == LineShape::Message
            &&& job.streaming <==> request.stream == Some(true)
        },
{
    assert(chat::turn_lines(turns(request.messages@)) =~= message_lines(request.messages@));
}

/// Whether `call` asks for the model that a request means: the one that it
/// names, without the white space around its name and whatever the default is;
/// the default where it names none; the engine itself where there is none.
pub open spec fn asks_for_its_model(
    engine: EngineProfile,
    default_model: Seq<char>,
    requested: Seq<char>,
    before: Seq<char>,
    name: Seq<char>,
    after: Seq<char>,
    call: OllamaCall,
) -> bool {
    let unnamed = forall|i: int|
        0 <= i < requested.len() ==> text::white_space(#[trigger] requested[i]);
    let no_default = forall|i: int|
        0 <= i < default_model.len() ==> text::white_space(#[trigger] default_model[i]);
    let meant = resolve::names(requested, before, name, after) || (unnamed && resolve::names(
        default_model,
        before,
        name,
        after,
    ));
    &&& meant && engine.name@ == "echo"@ ==> (call matches OllamaCall::Run { model, .. } && model@
        == name)
    &&& meant && engine.name@ != "echo"@ ==> (call matches OllamaCall::Lookup { name: asked, .. }
        && asked@ == name)
    &&& unnamed && no_default ==> (call matches OllamaCall::Run { model, .. } && model@
        == engine.name@)
}

/// Generations and chats ask for the model that the request means.
pub proof fn law_requests_ask_for_their_model(
    engine: EngineProfile,
    default_model: &str,
    generation: GenerateRequest,
    generating: OllamaCall,
    chat: ChatRequest,
    chatting: OllamaCall,
    before: Seq<char>,
    name: Seq<char>,
    after: Seq<char>,
)
    requires
        call_ensures(dispatch_generate, (&engine, default_model, generation), generating),
        call_ensures(dispatch_chat, (&engine, default_model, chat), chatting),
    ensures
        asks_for_its_model(
            engine,
            default_model@,
            generation.model@,
            before,
            name,
            after,
            generating,
        ),
        chat.messages@.len() > 0 ==> asks_for_its_model(
            engine,
            default_model@,
            chat.model@,
            before,
            name,
            after,
            chatting,
        ),
{
    text::lemma_blank(generation.model@);
    text::lemma_blank(chat.model@);
    text::lemma_blank(default_model@);
    assert(turns(chat.messages@).len() == chat.messages@.len());
    if resolve::names(generation.model@, before, name, after) || resolve::names(
        default_model@,
        before,
        name,
        after,
    ) || resolve::names(chat.model@, before, name, after) {
        text::law_trim_keeps_what_stands_between(before, name, after);
    }
}

/// A chat without messages is refused; so is a stream where one object is
/// asked for. Nothing else is refused before the model is looked for.
pub proof fn law_requests_are_refused(
    engine: EngineProfile,
    default_model: &str,
    chat: ChatRequest,
    chatting: OllamaCall,
    buffered_chat: OllamaCall,
    streamed_chat: OllamaCall,
    generation: GenerateRequest,
    generating: OllamaCall,
    buffered: OllamaCall,
    streamed: OllamaCall,
)
    requires
        call_ensures(dispatch_chat, (&engine, default_model, chat), chatting),
        call_ensures(chat_core, (&engine, default_model, chat), buffered_chat),
        call_ensures(stream_chat, (&engine, default_model, chat), streamed_chat),
        call_ensures(dispatch_generate, (&engine, default_model, generation), generating),
        call_ensures(generate_core, (&engine, default_model, generation), buffered),
        call_ensures(stream_generate, (&engine, default_model, generation), streamed),
    ensures
        chatting is Refused <==> chat.messages@.len() == 0,
        chatting matches OllamaCall::Refused { error } ==> error.status == 400 && error.message@
            == "messages must not be empty"@,
        streamed_chat is Refused <==> chat.messages@.len() == 0,
        job_of(streamed_chat) matches Some(job) ==> job.streaming,
        buffered_chat is Refused <==> chat.messages@.len() == 0 || chat.stream == Some(true),
        buffered_chat matches OllamaCall::Refused { error } ==> error.status == 400,
        job_of(buffered_chat) matches Some(job) ==> !job.streaming,
        generating !is Refused && streamed !is Refused,
        buffered is Refused <==> generation.stream == Some(true),
        buffered matches OllamaCall::Refused { error } ==> error.status == 400,
        job_of(streamed) matches Some(job) && job.streaming,
        job_of(buffered) matches Some(job) ==> !job.streaming,
        chat.stream == Some(true) ==> chatting@ == streamed_chat@,
        chat.stream != Some(true) ==> chatting@ == buffered_chat@,
        generation.stream == Some(true) ==> generating@ == streamed@,
        generation.stream != Some(true) ==> generating@ == buffered@,
{
    assert(turns(chat.messages@).len() == chat.messages@.len());
}

/// Whatever the catalog and the engine say of the model, the job stays what it
/// is: the engine does it under the name that the catalog gives, or under the
/// name asked for where the engine lists it, and a name that neither knows is
/// refused as not found. A lookup that is lost is a failure of the server.
pub proof fn law_job_waits_for_its_model(
    name: String,
    job: OllamaJob,
    found: Result<Result<ModelInfo, LiveError>, String>,
    looked_up: OllamaCall,
    listing: Result<Vec<ModelInfo>, LiveError>,
    listed: OllamaCall,
)
    requires
        call_ensures(OllamaCall::looked_up, (OllamaCall::Lookup { name, job }, found), looked_up),
        call_ensures(OllamaCall::listed, (OllamaCall::Listing { name, job }, listing), listed),
    ensures
        match found {
            Ok(Ok(info)) => looked_up matches OllamaCall::Run { model, job: kept } && model@
                == info.name@ && kept@ == job@,
            Ok(Err(_)) => looked_up matches OllamaCall::Listing { name: asked, job: kept }
                && asked@ == name@ && kept@ == job@,
            Err(lost) => looked_up matches OllamaCall::Refused { error } && error.status == 500
                && error.message@ == "join model lookup: "@ + lost@,
        },
        if listing is Ok && resolve::lists(listing->Ok_0@, name@) {
            listed matches OllamaCall::Run { model, job: kept } && model@ == name@ && kept@ == job@
        } else {
            listed matches OllamaCall::Refused { error } && error.status == 404 && error.message@
                == "model "@ + text::debug_text(name@) + " not found"@
        },
{
    resolve::lemma_lists(listing, name@);
}

/// The counts of a usage stand on their own sides: the prompt's and the
/// completion's.
pub proof fn law_counts_keep_their_sides(
    usage: Option<TokenUsage>,
    counts: (Option<u64>, Option<u64>),
)
    requires
        call_ensures(eval_counts, (usage,), counts),
    ensures
        match usage {
            Some(usage) => counts.0 == Some(usage.prompt_tokens) && counts.1 == Some(
                usage.completion_tokens,
            ),
            None => counts.0 is None && counts.1 is None,
        },
{
}

/// A buffered answer carries the engine's text whole, under the resolved model
/// and the given time, and says that it is complete; a generation under
/// `response`, a chat as the assistant's message.
pub proof fn law_answers_carry_the_text(
    model: String,
    completion: Completion,
    created_at: String,
    generated: GenerateResponse,
    chatted: ChatResponse,
)
    requires
        call_ensures(generate_response, (model, completion, created_at), generated),
        call_ensures(chat_response, (model, completion, created_at), chatted),
    ensures
        generated.response@ == completion.text@,
        generated.model@ == model@ && generated.created_at@ == created_at@ && generated.done,
        chatted.message.content@ == completion.text@,
        chatted.message.role@ == "assistant"@,
        chatted.model@ == model@ && chatted.created_at@ == created_at@ && chatted.done,
        match completion.usage {
            Some(usage) => {
                &&& generated.prompt_eval_count == Some(usage.prompt_tokens)
                &&& generated.eval_count == Some(usage.completion_tokens)
                &&& chatted.prompt_eval_count == Some(usage.prompt_tokens)
                &&& chatted.eval_count == Some(usage.completion_tokens)
            },
            None => {
                &&& generated.prompt_eval_count is None && generated.eval_count is None
                &&& chatted.prompt_eval_count is None && chatted.eval_count is None
            },
        },
{
}

/// The catalog is listed one for one and in order: each model by its name, its
/// size, the time that it was made, and its id as its digest. Where the catalog
/// cannot be read, the failure is answered; a task that is lost is a failure of
/// the server.
pub proof fn law_catalog_is_listed(
    listing: Result<Result<Vec<ModelInfo>, Failure>, String>,
    answer: Result<TagsResponse, OllamaError>,
)
    requires
        call_ensures(list_tags, (listing,), answer),
    ensures
        match listing {
            Ok(Ok(models)) => answer matches Ok(tags) && {
                &&& tags.models@.len() == models@.len()
                &&& forall|i: int|
                    0 <= i < models@.len() ==> {
                        let tag = #[trigger] tags.models@[i];
                        &&& tag.name@ == models@[i].name@
                        &&& tag.model@ == models@[i].name@
                        &&& tag.digest@ == models@[i].id@
                        &&& tag.size == models@[i].size
                        &&& tag.modified_at@ == calendar::rfc3339(
                            models@[i].created_at_millis as nat,
                        )
                    }
            },
            Ok(Err(failure)) => answer matches Err(error) && error.message@ == failure.text@,
            Err(lost) => answer matches Err(error) && error.status == 500 && error.message@
                == "join model listing: "@ + lost@,
        },
{
    if let Ok(Ok(models)) = listing {
        let tags = answer->Ok_0;
        let infos = models::infos(models@);
        assert(tags@.len() == tags.models@.len());
        assert(infos.len() == models@.len());
        assert forall|i: int| 0 <= i < models@.len() implies tags@[i] == (
        #[trigger] tags.models@[i])@ && infos[i] == models@[i]@ by {}
    }
}

/// A description is looked up under the name that the request gives, without
/// the white space around it, and is refused where it gives none.
pub proof fn law_description_is_of_the_model_named(
    request: ShowRequest,
    before: Seq<char>,
    name: Seq<char>,
    after: Seq<char>,
    asked: Result<String, OllamaError>,
)
    requires
        call_ensures(show_model, (&request,), asked),
    ensures
        resolve::names(request.model@, before, name, after) ==> (asked matches Ok(given) && given@
            == name),
        (forall|i: int|
            0 <= i < request.model@.len() ==> text::white_space(#[trigger] request.model@[i])) ==> (
        asked matches Err(error) && error.status == 400 && error.message@ == "model is required"@),
{
    text::lemma_blank(request.model@);
    if resolve::names(request.model@, before, name, after) {
        text::law_trim_keeps_what_stands_between(before, name, after);
    }
}

/// A description tells the engine of the model as its family, and nothing that
/// the catalog does not know.
pub proof fn law_description_tells_the_engine(
    found: Result<Result<ModelInfo, Failure>, String>,
    answer: Result<ShowResponse, OllamaError>,
)
    requires
        call_ensures(shown, (found,), answer),
    ensures
        match found {
            Ok(Ok(model)) => answer matches Ok(show) && {
                &&& show.details.family@ == model.engine@
                &&& show.details.families@.len() == 1
                &&& show.details.families@[0]@ == model.engine@
                &&& show.details.format@ == "wcpu"@
                &&& show.modelfile@.len() == 0 && show.parameters@.len() == 0
                &&& show.template@.len() == 0 && show.details.parameter_size@.len() == 0
                &&& show.details.quantization_level@.len() == 0
            },
            Ok(Err(failure)) => answer matches Err(error) && error.message@ == failure.text@,
            Err(lost) => answer matches Err(error) && error.status == 500 && error.message@
                == "join model lookup: "@ + lost@,
        },
{
    if let Ok(Ok(model)) = found {
        let show = answer->Ok_0;
        let families = show@.details.families;
        assert(families.len() == show.details.families@.len());
        assert(families[0] == show.details.families@[0]@);
    }
}

/// Refusals of the API's own say what they were given, and are sent so.
pub proof fn law_refusals_say_why(
    message: &str,
    invalid: OllamaError,
    missing: OllamaError,
    server: OllamaError,
    refusal: OllamaError,
    response: (u16, OllamaErrorBody),
)
    requires
        call_ensures(OllamaError::bad_request, (message,), invalid),
        call_ensures(OllamaError::not_found, (message,), missing),
        call_ensures(OllamaError::server, (message,), server),
        call_ensures(OllamaError::into_response, (refusal,), response),
    ensures
        invalid.status == 400 && invalid.message@ == message@,
        missing.status == 404 && missing.message@ == message@,
        server.status == 500 && server.message@ == message@,
        response.0 == refusal.status && response.1.error@ == refusal.message@,
{
}

/// A stream is announced as lines of JSON and a single answer as JSON.
pub proof fn law_answer_is_announced(
    engine: EngineProfile,
    streaming: bool,
    head: ResponseHead,
)
    requires
        call_ensures(response_head, (&engine, streaming), head),
    ensures
        head.status == 200,
        streaming ==> head.content_type@ == "application/x-ndjson"@,
        !streaming ==> head.content_type@ == "application/json"@,
        engine.stream_kind is Native ==> head.stream@ == "native"@,
        engine.stream_kind is Buffered ==> head.stream@ == "emulated"@,
{
}

/// Messages render as one line `role: content` each, in order, and a request
/// to the engine carries the prompt as it stands.
pub proof fn law_prompt_is_every_message(
    messages: &Vec<OllamaMessage>,
    prompt: String,
    options: Option<OllamaOptions>,
    request: CompletionRequest,
)
    requires
        call_ensures(render_prompt, (messages,), prompt),
        call_ensures(completion_request, (prompt, options), request),
    ensures
        prompt@ == text::join(message_lines(messages@), "\n"@),
        request.prompt@ == prompt@,
        samples(request, options),
{
    assert(chat::turn_lines(turns(messages@)) =~= message_lines(messages@));
}

/// The module serves these paths, each by its method, and stands on the
/// inference module alone.
pub proof fn law_module_serves_its_paths(
    module: OllamaCompatModule,
    routes: Vec<Route>,
    version: &str,
    descriptor: ModuleDescriptor,
)
    requires
        call_ensures(OllamaCompatModule::routes, (&module,), routes),
        call_ensures(OllamaCompatModule::descriptor, (&module, version), descriptor),
    ensures
        routes@.len() == 4,
        routes@[0].method == Method::Post && routes@[0].path@ == "/api/generate"@,
        routes@[1].method == Method::Post && routes@[1].path@ == "/api/chat"@,
        routes@[2].method == Method::Get && routes@[2].path@ == "/api/tags"@,
        routes@[3].method == Method::Post && routes@[3].path@ == "/api/show"@,
        descriptor.version@ == version@,
        descriptor.dependencies@.len() == 1,
        descriptor.dependencies@[0]@ == "dev.hologram.live.inference"@,
        descriptor.operations@.len() == 0,
{
    let paths = module::paths(routes@);
    assert(paths.len() == routes@.len());
    assert(forall|i: int|
        0 <= i < routes@.len() ==> paths[i] == ((#[trigger] routes@[i]).method, routes@[i].path@));
    assert(routes@[0].path@ == paths[0].1);
    assert(routes@[1].path@ == paths[1].1);
    assert(routes@[2].path@ == paths[2].1);
    assert(routes@[3].path@ == paths[3].1);
}

} // verus!
