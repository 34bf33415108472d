use hologram_live::clock::unix_seconds;
use hologram_live::error::{join_failed, Failure, LiveError};
use hologram_live::inference::echo::EchoEngine;
use hologram_live::inference::{
    replayed, Completion, CompletionEvent, CompletionRequest, EngineProfile, StreamKind,
    Temperature, TokenUsage,
};
use hologram_live::models::ModelInfo;
use hologram_live::module::Method;
use hologram_live::modules::openai_compat::{
    chat_completion, complete_chat, completion_id, dispatch_chat_completions, id_from_digest,
    list_models, model_list, response_head, stream_chat, ChatCall, ChatCompletion,
    ChatCompletionChunk, ChatCompletionRequest, ChatJob, ChatMessage, ChatMode, OpenAiCompatModule,
    OpenAiError, OpenAiErrorBody, OpenAiErrorEnvelope, StreamOptions, Usage,
};
use hologram_live::modules::openai_stream::{end_marker, ChatStream, Frame};
use hologram_live::modules::stream::{ResponseHead, StreamInput};

/// What the engines of these tests do with a request.
trait Runs {
    fn profile(&self) -> EngineProfile;

    fn run(&self, request: CompletionRequest) -> Completion;

    /// What the engine's stream yields.
    fn stream(&self, request: CompletionRequest) -> Vec<StreamInput> {
        let mut inputs: Vec<StreamInput> =
            replayed(self.run(request)).into_iter().map(StreamInput::Event).collect();
        inputs.push(StreamInput::Ended);
        inputs
    }
}

impl Runs for EchoEngine {
    fn profile(&self) -> EngineProfile {
        EchoEngine.profile()
    }

    fn run(&self, request: CompletionRequest) -> Completion {
        self.complete(&request, 0)
    }
}

/// Replies with the prompt verbatim so tests can assert the transcript.
struct MirrorEngine;

impl Runs for MirrorEngine {
    fn profile(&self) -> EngineProfile {
        EngineProfile {
            name: "mirror",
            supports_sessions: false,
            stream_kind: StreamKind::Buffered,
        }
    }

    fn run(&self, request: CompletionRequest) -> Completion {
        Completion::local(request.prompt, "mirror".to_owned(), None, 0, None)
    }
}

/// Reports both token counts.
struct MeteredEngine;

impl Runs for MeteredEngine {
    fn profile(&self) -> EngineProfile {
        EngineProfile {
            name: "metered",
            supports_sessions: false,
            stream_kind: StreamKind::Buffered,
        }
    }

    fn run(&self, request: CompletionRequest) -> Completion {
        let usage = TokenUsage { prompt_tokens: 11, completion_tokens: 22 };
        Completion::local(request.prompt, "metered".to_owned(), None, 0, Some(usage))
    }
}

/// Streams one delta, then fails.
struct HalfwayFailingEngine;

fn vanished() -> Failure {
    Failure {
        error: LiveError::Transport("the engine vanished".to_owned()),
        text: "transport: the engine vanished".to_owned(),
        code: "LIVE_TRANSPORT_UNAVAILABLE".to_owned(),
    }
}

impl Runs for HalfwayFailingEngine {
    fn profile(&self) -> EngineProfile {
        EngineProfile {
            name: "halfway-failing",
            supports_sessions: false,
            stream_kind: StreamKind::Native,
        }
    }

    fn run(&self, _request: CompletionRequest) -> Completion {
        panic!("this fixture only streams")
    }

    fn stream(&self, _request: CompletionRequest) -> Vec<StreamInput> {
        vec![
            StreamInput::Event(CompletionEvent::Delta("Hel".to_owned())),
            StreamInput::Failed(vanished()),
            StreamInput::Ended,
        ]
    }
}

fn tiny() -> ModelInfo {
    ModelInfo {
        id: "blake3:0123".to_owned(),
        name: "tiny".to_owned(),
        engine: "weightc".to_owned(),
        source: "/models/tiny.wcpu".to_owned(),
        size: 2,
        created_at_millis: 1_700_000_000_999,
    }
}

/// Takes a call to the engine, over a catalog that holds the given models.
fn resolved(mut call: ChatCall, catalog: Vec<ModelInfo>) -> Result<(String, ChatJob), OpenAiError> {
    let mut catalog = Some(catalog);
    loop {
        let name = match call {
            ChatCall::Refused { error } => return Err(error),
            ChatCall::Run { model, job } => return Ok((model, job)),
            ChatCall::Lookup { ref name, .. } => name.clone(),
            ChatCall::Listing { .. } => {
                call = call.listed(Ok(Vec::new()));
                continue;
            }
        };
        let found = catalog
            .take()
            .expect("the catalog is asked once")
            .into_iter()
            .find(|model| model.id == name || model.name == name)
            .ok_or(LiveError::NotFound(name));
        call = call.looked_up(Ok(found));
    }
}

fn completed<E: Runs>(
    engine: &E,
    catalog: Vec<ModelInfo>,
    default_model: &str,
    request: ChatCompletionRequest,
) -> Result<ChatCompletion, OpenAiError> {
    let (model, job) = resolved(complete_chat(&engine.profile(), default_model, request), catalog)?;
    assert_eq!(job.mode, ChatMode::Buffered);
    Ok(chat_completion(model, engine.run(job.request), unix_seconds(), 0))
}

fn streamed<E: Runs>(
    engine: &E,
    default_model: &str,
    request: ChatCompletionRequest,
) -> Result<(ResponseHead, Vec<Frame>), OpenAiError> {
    let (model, job) = resolved(stream_chat(&engine.profile(), default_model, request), Vec::new())?;
    let include_usage = match job.mode {
        ChatMode::Streaming { include_usage } => include_usage,
        ChatMode::Buffered => panic!("a streamed chat streams"),
    };
    let head = response_head(&engine.profile(), job.mode);
    let mut stream = ChatStream::start(1_700_000_000, 3, model, include_usage);
    let mut frames = vec![stream.role_chunk()];
    for input in engine.stream(job.request) {
        frames.extend(stream.step(input));
    }
    assert!(!stream.is_open());
    Ok((head, frames))
}

fn request(model: &str, contents: &[&str]) -> ChatCompletionRequest {
    ChatCompletionRequest {
        model: model.to_owned(),
        messages: contents
            .iter()
            .map(|content| ChatMessage {
                role: "user".to_owned(),
                content: (*content).to_owned(),
            })
            .collect(),
        max_tokens: None,
        temperature: None,
        seed: None,
        stream: None,
        stream_options: None,
    }
}

fn chunk(frame: &Frame) -> Option<&ChatCompletionChunk> {
    match frame {
        Frame::Chunk(chunk) => Some(chunk),
        _ => None,
    }
}

fn position(frames: &[Frame], wanted: impl Fn(&ChatCompletionChunk) -> bool) -> Option<usize> {
    frames.iter().position(|frame| chunk(frame).is_some_and(&wanted))
}

fn has_content(chunk: &ChatCompletionChunk, text: &str) -> bool {
    chunk.choices.iter().any(|choice| choice.delta.content.as_deref() == Some(text))
}

fn stops(chunk: &ChatCompletionChunk) -> bool {
    chunk.choices.iter().any(|choice| choice.finish_reason.as_deref() == Some("stop"))
}

#[test]
fn echo_request_maps_to_a_valid_chat_completion() {
    let completion = completed(&EchoEngine, Vec::new(), "", request("gpt-test", &["hello world"]))
        .expect("completion");

    assert_eq!(completion.object, "chat.completion");
    assert!(completion.id.starts_with("chatcmpl-"));
    assert!(completion.created > 0);
    assert_eq!(completion.model, "gpt-test");
    assert_eq!(completion.choices.len(), 1);
    assert_eq!(completion.choices[0].index, 0);
    assert_eq!(completion.choices[0].finish_reason, "stop");
    assert_eq!(completion.choices[0].message.role, "assistant");
    assert_eq!(completion.choices[0].message.content, "hello world");
}

#[test]
fn usage_is_omitted_when_the_engine_reports_no_counts() {
    let completion = completed(&EchoEngine, Vec::new(), "echo", request("", &["Hello"]))
        .expect("the echo engine always completes");

    assert!(completion.usage.is_none(), "echo measures no tokens");
}

#[test]
fn usage_carries_the_total_when_the_engine_measured_both_halves() {
    let usage = Usage::from(TokenUsage { prompt_tokens: 18, completion_tokens: 42 });
    assert_eq!(usage.prompt_tokens, 18);
    assert_eq!(usage.completion_tokens, 42);
    assert_eq!(usage.total_tokens, 60);
}

#[test]
fn messages_render_as_a_transcript_prompt() {
    let mut conversation = request("", &[]);
    conversation.messages = vec![
        ChatMessage { role: "system".to_owned(), content: "be brief".to_owned() },
        ChatMessage { role: "user".to_owned(), content: "ping".to_owned() },
    ];
    let completion =
        completed(&MirrorEngine, Vec::new(), "", conversation).expect("completion");

    assert_eq!(completion.choices[0].message.content, "system: be brief\nuser: ping");
}

#[test]
fn streaming_emits_ordered_chunks_and_marks_emulation() {
    let mut request = request("", &["Hello"]);
    request.stream = Some(true);

    let (head, frames) = streamed(&EchoEngine, "echo", request)
        .expect("the echo engine streams by emulation");

    assert_eq!(head.stream, "emulated");

    let role_pos = position(&frames, |chunk| {
        chunk.choices.iter().any(|choice| choice.delta.role.as_deref() == Some("assistant"))
    })
    .expect("the role chunk is present");
    let content_pos = position(&frames, |chunk| has_content(chunk, "Hello"))
        .expect("the content chunk is present");
    let stop_pos = position(&frames, stops).expect("the stop chunk is present");
    let done_pos = frames.len() - 1;
    assert!(matches!(frames[done_pos], Frame::End), "the stream ends with [DONE]");
    assert_eq!(end_marker(), "[DONE]");

    assert!(role_pos < content_pos, "role announces before content");
    assert!(content_pos < stop_pos, "content precedes the stop chunk");
    assert!(stop_pos < done_pos, "stop precedes [DONE]");
}

#[test]
fn include_usage_adds_no_chunk_when_the_engine_measured_nothing() {
    let mut request = request("", &["Hello"]);
    request.stream = Some(true);
    request.stream_options = Some(StreamOptions { include_usage: true });

    let (_, frames) = streamed(&EchoEngine, "echo", request)
        .expect("the echo engine streams by emulation");

    assert!(
        position(&frames, |chunk| chunk.usage.is_some()).is_none(),
        "echo measures nothing, so no usage chunk is emitted"
    );
}

#[test]
fn include_usage_adds_a_usage_chunk_before_done_when_the_engine_measured_counts() {
    let mut request = request("", &["Hello"]);
    request.stream = Some(true);
    request.stream_options = Some(StreamOptions { include_usage: true });

    let (_, frames) =
        streamed(&MeteredEngine, "", request).expect("the metered engine streams by emulation");

    let usage_pos =
        position(&frames, |chunk| chunk.usage.is_some()).expect("a usage chunk is emitted");
    let done_pos = frames.len() - 1;
    assert!(matches!(frames[done_pos], Frame::End), "the stream ends with [DONE]");
    assert_eq!(usage_pos, done_pos - 1, "the usage chunk sits immediately before [DONE]");

    let usage_chunk = chunk(&frames[usage_pos]).expect("a chunk");
    assert!(usage_chunk.choices.is_empty(), "the usage chunk carries empty choices");
    assert_eq!(usage_chunk.usage.expect("counts").total_tokens, 33);
}

#[test]
fn a_mid_stream_failure_is_reported_in_band_and_marked_native() {
    let mut request = request("", &["Hello"]);
    request.stream = Some(true);

    let (head, frames) = streamed(&HalfwayFailingEngine, "", request)
        .expect("the stream opens before the failure occurs");

    assert_eq!(head.stream, "native");

    let delta_pos =
        position(&frames, |chunk| has_content(chunk, "Hel")).expect("the delta arrives");
    let error_pos = frames
        .iter()
        .position(|frame| match frame {
            Frame::Error(envelope) => {
                envelope.error.code.as_deref() == Some("LIVE_TRANSPORT_UNAVAILABLE")
            }
            _ => false,
        })
        .expect("the failure is reported in-band");
    let done_pos = frames.len() - 1;
    assert!(matches!(frames[done_pos], Frame::End), "the stream ends with [DONE]");
    assert!(delta_pos < error_pos, "the delta precedes the in-band error");
    assert!(error_pos < done_pos, "the in-band error precedes [DONE]");
    assert!(position(&frames, stops).is_none(), "a failed stream must not claim a clean stop");
}

#[test]
fn openai_compat_stream_chat_rejects_empty_messages() {
    let mut request = request("", &[]);
    request.stream = Some(true);

    let error = streamed(&EchoEngine, "echo", request).expect_err("must fail");

    assert_eq!(error.status, 400);
    assert_eq!(error.body.kind, "invalid_request_error");
}

#[test]
fn stream_chat_rejects_an_unknown_model_before_returning_a_body() {
    let mut request = request("ghost", &["hi"]);
    request.stream = Some(true);

    let error = streamed(&MirrorEngine, "", request).expect_err("must fail");

    assert_eq!(error.status, 404);
    assert_eq!(error.body.kind, "not_found_error");
}

#[test]
fn openai_compat_unknown_model_is_a_not_found_error() {
    let error = completed(&MirrorEngine, Vec::new(), "", request("ghost", &["hi"]))
        .expect_err("must fail");

    assert_eq!(error.status, 404);
    assert_eq!(error.body.kind, "not_found_error");
    assert_eq!(error.body.message, "model \"ghost\" not found");
}

#[test]
fn openai_compat_empty_model_falls_back_to_the_default_model() {
    let imported = tiny();
    let completion =
        completed(&MirrorEngine, vec![tiny()], &imported.id, request("", &["hi"]))
            .expect("completion");

    assert_eq!(completion.model, "tiny");
}

#[test]
fn model_resolves_by_catalog_name() {
    let completion = completed(&MirrorEngine, vec![tiny()], "", request("tiny", &["hi"]))
        .expect("completion");

    assert_eq!(completion.model, tiny().name);
}

#[test]
fn model_list_uses_the_openai_list_shape() {
    let imported = tiny();
    let list = model_list(vec![tiny()]);

    assert_eq!(list.object, "list");
    assert_eq!(list.data.len(), 1);
    assert_eq!(list.data[0].id, imported.id);
    assert_eq!(list.data[0].object, "model");
    assert_eq!(list.data[0].owned_by, "hologram");
    assert_eq!(list.data[0].created, imported.created_at_millis / 1000);
}

#[test]
fn error_envelope_serializes_in_the_openai_shape() {
    let (status, envelope) = OpenAiError::not_found("missing").into_response();
    assert_eq!(status, 404);
    let expected = OpenAiErrorEnvelope {
        error: OpenAiErrorBody {
            message: "missing".to_owned(),
            kind: "not_found_error".to_owned(),
            code: None,
        },
    };
    assert_eq!(envelope.error.message, expected.error.message);
    assert_eq!(envelope.error.kind, expected.error.kind);
    assert_eq!(envelope.error.code, expected.error.code);
}

#[test]
fn non_streaming_chat_completion_carries_the_stream_header() {
    let call = dispatch_chat_completions(&EchoEngine.profile(), "echo", request("", &["hi"]));
    let (_, job) = resolved(call, Vec::new()).expect("the echo engine always completes");

    assert_eq!(response_head(&EchoEngine.profile(), job.mode).stream, "emulated");
}

#[test]
fn dispatch_chat_completions_streams_or_not_based_on_the_request() {
    let mut streaming = request("", &["hi"]);
    streaming.stream = Some(true);
    let call = dispatch_chat_completions(&EchoEngine.profile(), "echo", streaming);
    let (_, job) = resolved(call, Vec::new()).expect("the echo engine streams by emulation");
    assert_eq!(response_head(&EchoEngine.profile(), job.mode).content_type, "text/event-stream");

    let mut buffered = request("", &["hi"]);
    buffered.stream = None;
    let call = dispatch_chat_completions(&EchoEngine.profile(), "echo", buffered);
    let (_, job) = resolved(call, Vec::new()).expect("the echo engine always completes");
    let head = response_head(&EchoEngine.profile(), job.mode);
    assert_eq!(head.content_type, "application/json");
    assert_eq!(head.status, 200);
}

#[test]
fn the_total_of_two_counts_saturates() {
    let usage = Usage::from(TokenUsage { prompt_tokens: u64::MAX, completion_tokens: 1 });
    assert_eq!(usage.total_tokens, u64::MAX);
}

#[test]
fn a_buffered_chat_is_no_stream() {
    let mut request = request("", &[]);
    request.stream = Some(true);
    match complete_chat(&EchoEngine.profile(), "echo", request) {
        ChatCall::Refused { error } => {
            assert_eq!(error.status, 400);
            assert_eq!(
                error.body.message,
                "streaming is not supported; omit stream or send stream: false"
            );
        }
        other => panic!("{other:?}"),
    }
}

#[test]
fn sampling_options_reach_the_engine() {
    let mut asked = request("", &["hi"]);
    asked.max_tokens = Some(5);
    asked.seed = Some(6);
    asked.temperature = Some(Temperature { bits: 1.5_f32.to_bits(), numeral: "1.5".to_owned() });
    let call = dispatch_chat_completions(&EchoEngine.profile(), "", asked);
    let (model, job) = resolved(call, Vec::new()).expect("echo takes anything");
    assert_eq!(model, "echo");
    assert_eq!(job.request.max_tokens, Some(5));
    assert_eq!(job.request.seed, Some(6));
    assert_eq!(job.request.temperature.expect("given").bits, 1.5_f32.to_bits());
    assert_eq!(job.request.prompt, "user: hi");
    assert_eq!(job.request.session_key, None);
}

#[test]
fn the_models_of_an_engine_are_known_by_id_and_name() {
    for name in ["tiny", "blake3:0123"] {
        let call = complete_chat(&MirrorEngine.profile(), "", request(name, &["hi"]));
        let call = call.looked_up(Ok(Err(LiveError::NotFound("x".to_owned()))));
        match call.listed(Ok(vec![tiny()])) {
            ChatCall::Run { model, .. } => assert_eq!(model, name),
            other => panic!("{other:?}"),
        }
    }
    let call = complete_chat(&MirrorEngine.profile(), "", request(" tiny ", &["hi"]));
    let call = call.looked_up(Ok(Err(LiveError::NotFound("x".to_owned()))));
    match call.listed(Err(LiveError::Transport("down".to_owned()))) {
        ChatCall::Refused { error } => assert_eq!(error.status, 404),
        other => panic!("{other:?}"),
    }
}

fn failure(error: LiveError) -> Failure {
    Failure { error, text: "shown".to_owned(), code: "CODE".to_owned() }
}

#[test]
fn a_lookup_that_cannot_be_joined_is_a_server_error() {
    let call = complete_chat(&MirrorEngine.profile(), "", request("tiny", &["hi"]));
    match call.looked_up(Err(failure(join_failed("model lookup", "cancelled")))) {
        ChatCall::Refused { error } => {
            assert_eq!(error.status, 500);
            assert_eq!(error.body.kind, "server_error");
            assert_eq!(error.body.code.as_deref(), Some("CODE"));
        }
        other => panic!("{other:?}"),
    }
}

#[test]
fn failures_are_answered_by_their_class() {
    let m = || "m".to_owned();
    let cases = [
        (LiveError::NotFound(m()), 404, "not_found_error"),
        (LiveError::Config(m()), 400, "invalid_request_error"),
        (LiveError::Protocol(m()), 400, "invalid_request_error"),
        (LiveError::InvalidHolo(m()), 400, "invalid_request_error"),
        (LiveError::Capability(m()), 500, "server_error"),
        (LiveError::Conflict(m()), 500, "server_error"),
        (LiveError::Io(m()), 500, "server_error"),
        (LiveError::Transport(m()), 500, "server_error"),
        (LiveError::Other(m()), 500, "server_error"),
    ];
    for (error, status, kind) in cases {
        let refusal = OpenAiError::from(failure(error));
        assert_eq!(refusal.status, status);
        assert_eq!(refusal.body.kind, kind);
        assert_eq!(refusal.body.message, "shown");
        assert_eq!(refusal.body.code.as_deref(), Some("CODE"));
    }
}

#[test]
fn a_listing_is_answered_or_refused() {
    let list = list_models(Ok(Ok(vec![tiny()]))).expect("a list");
    assert_eq!(list.data.len(), 1);
    let refused = list_models(Ok(Err(failure(LiveError::NotFound("m".to_owned())))));
    assert_eq!(refused.expect_err("the catalog failed").status, 404);
    let lost = list_models(Err(failure(join_failed("model listing", "cancelled"))));
    assert_eq!(lost.expect_err("the task failed").status, 500);
}

#[test]
fn ids_are_digests_of_time_number_and_text() {
    let mut input = Vec::new();
    input.extend_from_slice(&7_u64.to_le_bytes());
    input.extend_from_slice(&9_u64.to_le_bytes());
    input.extend_from_slice("h\u{e9}llo".as_bytes());
    let hex = blake3::hash(&input).to_hex().to_string();
    let id = completion_id(7, 9, "h\u{e9}llo");
    assert_eq!(id, format!("chatcmpl-{}", &hex[..24]));
    assert_eq!(id, id_from_digest(&hex));
    let mut hasher = blake3::Hasher::new();
    hasher.update(&7_u64.to_le_bytes());
    hasher.update(&9_u64.to_le_bytes());
    hasher.update("h\u{e9}llo".as_bytes());
    assert_eq!(hasher.finalize().to_hex().to_string(), hex);
    assert_eq!(id.len(), 33);
    assert!(id[9..].chars().all(|c| c.is_ascii_digit() || ('a'..='f').contains(&c)));
    assert_ne!(id, completion_id(7, 10, "h\u{e9}llo"));
    assert_ne!(id, completion_id(8, 9, "h\u{e9}llo"));
}

#[test]
fn every_chunk_of_a_stream_carries_its_id() {
    let mut request = request("m", &["Hello"]);
    request.stream = Some(true);
    let (_, frames) = streamed(&EchoEngine, "", request).expect("echo streams");
    let id = completion_id(1_700_000_000, 3, "m");
    for frame in &frames {
        if let Some(chunk) = chunk(frame) {
            assert_eq!(chunk.id, id);
            assert_eq!(chunk.object, "chat.completion.chunk");
            assert_eq!(chunk.created, 1_700_000_000);
            assert_eq!(chunk.model, "m");
        }
    }
    assert_eq!(frames.len(), 4);
}

#[test]
fn nothing_follows_the_end_of_a_stream() {
    let mut stream = ChatStream::start(0, 0, "m".to_owned(), false);
    assert!(stream.is_open());
    assert_eq!(stream.step(StreamInput::Ended).len(), 2);
    assert!(stream.step(StreamInput::Event(CompletionEvent::Delta("late".to_owned()))).is_empty());
    assert!(stream.step(StreamInput::Failed(vanished())).is_empty());
    assert!(stream.step(StreamInput::Ended).is_empty());
}

#[test]
fn the_module_serves_two_routes() {
    let descriptor = OpenAiCompatModule.descriptor("1.2.3");
    assert_eq!(descriptor.version, "1.2.3");
    assert_eq!(descriptor.id, "dev.hologram.live.openai-compat");
    assert_eq!(descriptor.name, "OpenAI-Compatible API");
    assert_eq!(descriptor.dependencies, vec!["dev.hologram.live.inference"]);
    assert!(descriptor.operations.is_empty());
    let routes = OpenAiCompatModule.routes();
    assert_eq!(routes.len(), 2);
    assert_eq!((routes[0].method, routes[0].path), (Method::Post, "/v1/chat/completions"));
    assert_eq!((routes[1].method, routes[1].path), (Method::Get, "/v1/models"));
}

#[test]
fn a_replayed_answer_is_whole() {
    let events = replayed(MeteredEngine.run(CompletionRequest {
        prompt: "two\nlines".to_owned(),
        ..CompletionRequest::default()
    }));
    assert_eq!(events.len(), 2);
    assert!(matches!(&events[0], CompletionEvent::Delta(text) if text == "two\nlines"));
    let mut stream = ChatStream::start(0, 0, "m".to_owned(), true);
    let frames: Vec<Frame> = events
        .into_iter()
        .map(StreamInput::Event)
        .flat_map(|input| stream.step(input))
        .collect();
    assert_eq!(frames.len(), 4);
    assert!(has_content(chunk(&frames[0]).expect("a chunk"), "two\nlines"));
    assert!(stops(chunk(&frames[1]).expect("a chunk")));
    assert_eq!(
        chunk(&frames[2]).expect("a chunk").usage,
        Some(Usage { prompt_tokens: 11, completion_tokens: 22, total_tokens: 33 })
    );
    assert!(matches!(frames[3], Frame::End));
}
