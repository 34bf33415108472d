use hologram_live::calendar::rfc3339_from_millis;
use hologram_live::clock::{rfc3339_from_reading, rfc3339_now, seconds_from};
use hologram_live::error::{Failure, LiveError};
use hologram_live::inference::echo::EchoEngine;
use hologram_live::inference::{
    replayed, Completion, CompletionEvent, CompletionRequest, EngineProfile, StreamKind,
    Temperature, TokenUsage,
};
use hologram_live::models::ModelInfo;
use hologram_live::module::Method;
use hologram_live::modules::ollama_compat::{
    chat_core, chat_response, dispatch_chat, dispatch_generate, generate_core, generate_response,
    list_tags, response_head, show_from, show_model, shown, stream_chat, stream_generate,
    tags_from, ChatRequest, ChatResponse, GenerateRequest, GenerateResponse, LineShape, OllamaCall,
    OllamaCompatModule, OllamaError, OllamaErrorBody, OllamaJob, OllamaMessage, OllamaOptions,
    ShowRequest,
};
use hologram_live::modules::ollama_stream::{framed, Line, LineStream, StreamLine};
use hologram_live::modules::resolve::{unknown_model, unknown_model_message, Resolution};
use hologram_live::modules::stream::{ResponseHead, StreamInput};

/// What the engines of these tests do with a request.
trait Runs {
    fn profile(&self) -> EngineProfile;

    fn run(&self, request: CompletionRequest) -> Completion;

    /// What the engine's stream yields.
    fn stream(&self, request: CompletionRequest) -> Vec<StreamInput> {
        let mut inputs: Vec<StreamInput> =
            replayed(self.run(request)).into_iter().map(StreamInput::Event).collect();
        inputs.push(StreamInput::Ended);
        inputs
    }
}

impl Runs for EchoEngine {
    fn profile(&self) -> EngineProfile {
        EchoEngine.profile()
    }

    fn run(&self, request: CompletionRequest) -> Completion {
        self.complete(&request, 0)
    }
}

/// Replies with the prompt verbatim so tests can assert the transcript.
struct MirrorEngine;

impl Runs for MirrorEngine {
    fn profile(&self) -> EngineProfile {
        EngineProfile {
            name: "mirror",
            supports_sessions: false,
            stream_kind: StreamKind::Buffered,
        }
    }

    fn run(&self, request: CompletionRequest) -> Completion {
        Completion::local(request.prompt, "mirror".to_owned(), None, 0, None)
    }
}

/// Reports fixed, distinct usage.
struct MeteredEngine;

impl Runs for MeteredEngine {
    fn profile(&self) -> EngineProfile {
        EngineProfile {
            name: "metered",
            supports_sessions: false,
            stream_kind: StreamKind::Buffered,
        }
    }

    fn run(&self, request: CompletionRequest) -> Completion {
        let usage = TokenUsage { prompt_tokens: 11, completion_tokens: 22 };
        Completion::local(request.prompt, "metered".to_owned(), None, 0, Some(usage))
    }
}

/// Streams one delta, then fails.
struct HalfwayFailingEngine;

impl Runs for HalfwayFailingEngine {
    fn profile(&self) -> EngineProfile {
        EngineProfile {
            name: "halfway-failing",
            supports_sessions: false,
            stream_kind: StreamKind::Native,
        }
    }

    fn run(&self, _request: CompletionRequest) -> Completion {
        panic!("this fixture only streams")
    }

    fn stream(&self, _request: CompletionRequest) -> Vec<StreamInput> {
        vec![
            StreamInput::Event(CompletionEvent::Delta("Hel".to_owned())),
            StreamInput::Failed(failure(LiveError::Transport("the engine vanished".to_owned()))),
            StreamInput::Ended,
        ]
    }
}

fn failure(error: LiveError) -> Failure {
    Failure { error, text: "shown".to_owned(), code: "CODE".to_owned() }
}

fn tiny() -> ModelInfo {
    ModelInfo {
        id: "blake3:0123".to_owned(),
        name: "tiny".to_owned(),
        engine: "weightc".to_owned(),
        source: "/models/tiny.wcpu".to_owned(),
        size: 2,
        created_at_millis: 1_700_000_000_000,
    }
}

fn resolved(call: OllamaCall) -> Result<(String, OllamaJob), OllamaError> {
    let mut call = call;
    loop {
        call = match call {
            OllamaCall::Refused { error } => return Err(error),
            OllamaCall::Run { model, job } => return Ok((model, job)),
            OllamaCall::Lookup { .. } => {
                call.looked_up(Ok(Err(LiveError::NotFound("no such model".to_owned()))))
            }
            OllamaCall::Listing { .. } => call.listed(Ok(Vec::new())),
        };
    }
}

fn resolve_model<E: Runs>(
    engine: &E,
    catalog: Vec<ModelInfo>,
    default_model: &str,
    requested: &str,
) -> Result<String, OllamaError> {
    let start = Resolution::start(&engine.profile(), default_model, requested);
    let found = match &start {
        Resolution::Lookup { name } => catalog
            .into_iter()
            .find(|model| model.id == *name || model.name == *name)
            .ok_or(LiveError::NotFound(name.clone())),
        _ => Err(LiveError::NotFound(String::new())),
    };
    match start.looked_up(found).listed(Ok(Vec::new())) {
        Resolution::Resolved { label } => Ok(label),
        Resolution::Unknown { name } => Err(OllamaError::not_found(&unknown_model(&name))),
        other => panic!("a resolution settles: {other:?}"),
    }
}

fn generated<E: Runs>(
    engine: &E,
    default_model: &str,
    request: GenerateRequest,
) -> Result<GenerateResponse, OllamaError> {
    let (model, job) = resolved(generate_core(&engine.profile(), default_model, request))?;
    assert!(!job.streaming);
    Ok(generate_response(model, engine.run(job.request), rfc3339_now()))
}

fn chatted<E: Runs>(
    engine: &E,
    default_model: &str,
    request: ChatRequest,
) -> Result<ChatResponse, OllamaError> {
    let (model, job) = resolved(chat_core(&engine.profile(), default_model, request))?;
    assert!(!job.streaming);
    Ok(chat_response(model, engine.run(job.request), rfc3339_now()))
}

fn streamed<E: Runs>(
    engine: &E,
    call: OllamaCall,
) -> Result<(ResponseHead, Vec<Line>), OllamaError> {
    let (model, job) = resolved(call)?;
    assert!(job.streaming);
    let head = response_head(&engine.profile(), job.streaming);
    let mut stream = LineStream::start(model, job.shape);
    let mut lines = Vec::new();
    for input in engine.stream(job.request) {
        lines.extend(stream.step(input, rfc3339_now()));
    }
    assert!(!stream.is_open());
    Ok((head, lines))
}

fn line(line: &Line) -> &StreamLine {
    match line {
        Line::Stream(line) => line,
        Line::Error(body) => panic!("an error line: {}", body.error),
    }
}

fn claims_done(line: &Line) -> bool {
    matches!(line, Line::Stream(line) if line.done)
}

fn generate_request(model: &str, prompt: &str) -> GenerateRequest {
    GenerateRequest {
        model: model.to_owned(),
        prompt: prompt.to_owned(),
        stream: Some(false),
        options: None,
    }
}

fn user(content: &str) -> OllamaMessage {
    OllamaMessage { role: "user".to_owned(), content: content.to_owned() }
}

fn chat_request(messages: Vec<OllamaMessage>, stream: Option<bool>) -> ChatRequest {
    ChatRequest { model: String::new(), messages, stream, options: None }
}

fn streaming_generate(model: &str, prompt: &str) -> GenerateRequest {
    GenerateRequest { stream: Some(true), ..generate_request(model, prompt) }
}

#[test]
fn generate_maps_to_the_ollama_response_shape() {
    let response =
        generated(&EchoEngine, "", generate_request("tiny", "hello")).expect("generate");

    assert_eq!(response.model, "tiny");
    assert_eq!(response.response, "hello");
    assert!(response.done);
    assert!(response.created_at.ends_with('Z'));
}

#[test]
fn chat_messages_render_as_a_transcript() {
    let request = chat_request(
        vec![
            OllamaMessage { role: "system".to_owned(), content: "be brief".to_owned() },
            user("ping"),
        ],
        None,
    );
    let response = chatted(&MirrorEngine, "", request).expect("chat");

    assert_eq!(response.message.role, "assistant");
    assert_eq!(response.message.content, "system: be brief\nuser: ping");
    assert!(response.done);
}

#[test]
fn generate_streams_ndjson_lines_and_marks_emulation() {
    let call = stream_generate(&EchoEngine.profile(), "echo", streaming_generate("", "Hello"));
    let (head, lines) = streamed(&EchoEngine, call).expect("the echo engine streams by emulation");

    assert_eq!(head.stream, "emulated");
    assert_eq!(head.content_type, "application/x-ndjson");
    assert_eq!(lines.len(), 2, "one delta line, then one terminal line: {lines:?}");

    let first = line(&lines[0]);
    assert_eq!(first.response.as_deref(), Some("Hello"));
    assert!(!first.done);
    assert!(first.message.is_none(), "generate lines never carry a chat message");

    let terminal = line(lines.last().expect("a terminal line"));
    assert!(terminal.done);
    assert_eq!(terminal.done_reason.as_deref(), Some("stop"));
    assert!(terminal.response.is_none(), "the terminal line carries no further text");
    assert!(terminal.prompt_eval_count.is_none(), "echo measures nothing");
    assert!(terminal.eval_count.is_none());
}

#[test]
fn chat_streams_ndjson_lines_and_marks_emulation() {
    let request = chat_request(vec![user("Hello")], Some(true));
    let call = stream_chat(&EchoEngine.profile(), "echo", request);
    let (head, lines) = streamed(&EchoEngine, call).expect("the echo engine streams by emulation");

    assert_eq!(head.stream, "emulated");
    assert_eq!(head.content_type, "application/x-ndjson");
    assert_eq!(lines.len(), 2, "one delta line, then one terminal line: {lines:?}");

    let first = line(&lines[0]);
    let message = first.message.as_ref().expect("a message");
    assert_eq!(message.role, "assistant");
    assert_eq!(message.content, "Hello");
    assert!(!first.done);
    assert!(first.response.is_none(), "chat lines never carry the generate-shaped field");

    let terminal = line(lines.last().expect("a terminal line"));
    assert!(terminal.done);
    assert_eq!(terminal.done_reason.as_deref(), Some("stop"));
    assert!(terminal.message.is_none());
}

#[test]
fn generate_mid_stream_failure_is_reported_in_band_and_marked_native() {
    let call = stream_generate(&HalfwayFailingEngine.profile(), "", streaming_generate("", "Hello"));
    let (head, lines) =
        streamed(&HalfwayFailingEngine, call).expect("the stream opens before the failure occurs");

    assert_eq!(head.stream, "native");
    assert_eq!(head.content_type, "application/x-ndjson");
    assert_eq!(lines.len(), 2, "one delta line, then one error line: {lines:?}");
    assert_eq!(line(&lines[0]).response.as_deref(), Some("Hel"));
    assert!(!line(&lines[0]).done);
    assert!(
        matches!(lines.last().expect("a final line"), Line::Error(body) if body.error == "shown"),
        "the failure is reported in-band as an error line"
    );
    assert!(!lines.iter().any(claims_done), "no line may claim done after a failure");
}

#[test]
fn chat_mid_stream_failure_is_reported_in_band_and_marked_native() {
    let request = chat_request(vec![user("Hello")], Some(true));
    let call = stream_chat(&HalfwayFailingEngine.profile(), "", request);
    let (head, lines) =
        streamed(&HalfwayFailingEngine, call).expect("the stream opens before the failure occurs");

    assert_eq!(head.stream, "native");
    assert_eq!(head.content_type, "application/x-ndjson");
    assert_eq!(lines.len(), 2, "one delta line, then one error line: {lines:?}");
    assert_eq!(line(&lines[0]).message.as_ref().expect("a message").content, "Hel");
    assert!(!line(&lines[0]).done);
    assert!(matches!(lines.last().expect("a final line"), Line::Error(_)));
    assert!(!lines.iter().any(claims_done), "no line may claim done after a failure");
}

#[test]
fn ollama_compat_stream_chat_rejects_empty_messages() {
    let call = stream_chat(&EchoEngine.profile(), "echo", chat_request(Vec::new(), Some(true)));
    let error = streamed(&EchoEngine, call).expect_err("must fail");

    assert_eq!(error.status, 400);
}

#[test]
fn stream_generate_rejects_an_unknown_model_before_returning_a_body() {
    let call = stream_generate(&MirrorEngine.profile(), "", streaming_generate("ghost", "hi"));
    let error = streamed(&MirrorEngine, call).expect_err("must fail");

    assert_eq!(error.status, 404);
}

#[test]
fn streaming_reports_measured_counts_on_the_terminal_line() {
    let call = stream_generate(&MeteredEngine.profile(), "", streaming_generate("", "hello"));
    let (_, lines) =
        streamed(&MeteredEngine, call).expect("the metered engine streams by emulation");

    let terminal = line(lines.last().expect("a terminal line"));
    assert!(terminal.done);
    assert_eq!(terminal.prompt_eval_count, Some(11));
    assert_eq!(terminal.eval_count, Some(22));

    for other in &lines[..lines.len() - 1] {
        assert!(
            line(other).prompt_eval_count.is_none() && line(other).eval_count.is_none(),
            "a line that is not terminal carries no counts: {other:?}"
        );
    }
}

#[test]
fn ollama_compat_unknown_model_is_a_not_found_error() {
    let error = resolve_model(&MirrorEngine, Vec::new(), "", "ghost").expect_err("must fail");

    assert_eq!(error.status, 404);
    assert!(error.message.contains("ghost"));
}

#[test]
fn ollama_compat_empty_model_falls_back_to_the_default_model() {
    let imported = tiny();
    let resolved =
        resolve_model(&MirrorEngine, vec![tiny()], &imported.id, "").expect("resolve");

    assert_eq!(resolved, "tiny");
}

#[test]
fn echo_engine_accepts_any_model_label() {
    let resolved = resolve_model(&EchoEngine, Vec::new(), "", "llama3").expect("resolve");

    assert_eq!(resolved, "llama3");
}

#[test]
fn tags_response_maps_catalog_entries() {
    let imported = tiny();
    let tags = tags_from(vec![tiny()]);

    assert_eq!(tags.models.len(), 1);
    let tag = &tags.models[0];
    assert_eq!(tag.name, "tiny");
    assert_eq!(tag.model, "tiny");
    assert_eq!(tag.digest, imported.id);
    assert_eq!(tag.size, imported.size);
    assert!(tag.modified_at.ends_with('Z'));
    assert_eq!(tag.modified_at, "2023-11-14T22:13:20Z");
}

#[test]
fn show_response_is_minimal_and_catalog_backed() {
    let show = show_from(&tiny());

    assert!(show.modelfile.is_empty());
    assert!(show.parameters.is_empty());
    assert!(show.template.is_empty());
    assert_eq!(show.details.format, "wcpu");
    assert_eq!(show.details.family, "weightc");
    assert_eq!(show.details.families, vec!["weightc".to_owned()]);
    assert!(show.details.parameter_size.is_empty());
    assert!(show.details.quantization_level.is_empty());
}

#[test]
fn error_serializes_in_the_ollama_shape() {
    let (status, body) = OllamaError::not_found("missing").into_response();
    assert_eq!(status, 404);
    let expected = OllamaErrorBody { error: "missing".to_owned() };
    assert_eq!(body.error, expected.error);
}

#[test]
fn generate_omits_counts_when_the_engine_measures_none() {
    let response = generated(&EchoEngine, "echo", generate_request("", "Hello"))
        .expect("the echo engine always completes");

    assert!(response.eval_count.is_none());
    assert!(response.prompt_eval_count.is_none());
}

#[test]
fn generate_reports_measured_counts_with_the_ollama_field_names() {
    let response = generated(&MeteredEngine, "", generate_request("", "hello")).expect("generate");

    assert_eq!(response.prompt_eval_count, Some(11));
    assert_eq!(response.eval_count, Some(22));
}

#[test]
fn chat_reports_measured_counts_with_the_ollama_field_names() {
    let request = chat_request(vec![user("ping")], Some(false));
    let response = chatted(&MeteredEngine, "", request).expect("chat");

    assert_eq!(response.prompt_eval_count, Some(11));
    assert_eq!(response.eval_count, Some(22));
}

#[test]
fn rfc3339_formats_known_timestamps() {
    assert_eq!(rfc3339_from_millis(0), "1970-01-01T00:00:00Z");
    assert_eq!(rfc3339_from_millis(1_700_000_000_000), "2023-11-14T22:13:20Z");
    assert_eq!(rfc3339_from_millis(951_782_400_000), "2000-02-29T00:00:00Z");
}

#[test]
fn non_streaming_generate_carries_the_stream_header() {
    let call = dispatch_generate(&EchoEngine.profile(), "echo", generate_request("", "hello"));
    let (_, job) = resolved(call).expect("the echo engine always completes");

    assert_eq!(response_head(&EchoEngine.profile(), job.streaming).stream, "emulated");
}

#[test]
fn non_streaming_chat_carries_the_stream_header() {
    let request = chat_request(vec![user("ping")], Some(false));
    let call = dispatch_chat(&EchoEngine.profile(), "echo", request);
    let (_, job) = resolved(call).expect("the echo engine always completes");

    assert_eq!(response_head(&EchoEngine.profile(), job.streaming).stream, "emulated");
}

#[test]
fn dispatch_generate_streams_or_not_based_on_the_request() {
    let call = dispatch_generate(&EchoEngine.profile(), "echo", streaming_generate("", "hello"));
    let (_, job) = resolved(call).expect("the echo engine streams by emulation");
    assert_eq!(response_head(&EchoEngine.profile(), job.streaming).content_type, "application/x-ndjson");

    let buffered = GenerateRequest { stream: None, ..generate_request("", "hello") };
    let call = dispatch_generate(&EchoEngine.profile(), "echo", buffered);
    let (_, job) = resolved(call).expect("the echo engine always completes");
    assert_eq!(response_head(&EchoEngine.profile(), job.streaming).content_type, "application/json");
}

#[test]
fn dispatch_chat_streams_or_not_based_on_the_request() {
    let message = user("hello");
    let streaming = chat_request(vec![message.clone()], Some(true));
    let (_, job) = resolved(dispatch_chat(&EchoEngine.profile(), "echo", streaming))
        .expect("the echo engine streams by emulation");
    assert_eq!(response_head(&EchoEngine.profile(), job.streaming).content_type, "application/x-ndjson");
    assert_eq!(job.shape, LineShape::Message);

    let buffered = chat_request(vec![message], None);
    let (_, job) = resolved(dispatch_chat(&EchoEngine.profile(), "echo", buffered))
        .expect("the echo engine always completes");
    assert_eq!(response_head(&EchoEngine.profile(), job.streaming).content_type, "application/json");
}

#[test]
fn timestamps_cross_months_years_and_the_end_of_the_clock() {
    assert_eq!(rfc3339_from_millis(999), "1970-01-01T00:00:00Z");
    assert_eq!(rfc3339_from_millis(86_399_999), "1970-01-01T23:59:59Z");
    assert_eq!(rfc3339_from_millis(86_400_000), "1970-01-02T00:00:00Z");
    assert_eq!(rfc3339_from_millis(951_868_800_000), "2000-03-01T00:00:00Z");
    assert_eq!(rfc3339_from_millis(4_107_542_400_000), "2100-03-01T00:00:00Z");
    assert_eq!(rfc3339_from_millis(4_107_456_000_000), "2100-02-28T00:00:00Z");
    assert_eq!(rfc3339_from_millis(253_402_300_799_000), "9999-12-31T23:59:59Z");
    assert_eq!(rfc3339_from_millis(u64::MAX), "584556019-04-03T14:25:51Z");
}

#[test]
fn a_clock_before_the_epoch_reads_as_the_epoch() {
    assert_eq!(rfc3339_from_reading(None), "1970-01-01T00:00:00Z");
    assert_eq!(rfc3339_from_reading(Some(u128::MAX)), "584556019-04-03T14:25:51Z");
    assert_eq!(seconds_from(None), 0);
    assert_eq!(seconds_from(Some(1_999)), 1);
    assert!(rfc3339_now().as_str() > "2020-01-01T00:00:00Z");
}

#[test]
fn buffered_answers_refuse_a_stream() {
    let refused = |call| match call {
        OllamaCall::Refused { error } => error,
        other => panic!("{other:?}"),
    };
    let error = refused(generate_core(&EchoEngine.profile(), "", streaming_generate("", "x")));
    assert_eq!(error.status, 400);
    assert_eq!(error.message, "streaming is not supported; send stream: false");
    let error = refused(chat_core(&EchoEngine.profile(), "", chat_request(Vec::new(), Some(true))));
    assert_eq!(error.message, "streaming is not supported; send stream: false");
    let error = refused(chat_core(&EchoEngine.profile(), "", chat_request(Vec::new(), None)));
    assert_eq!(error.message, "messages must not be empty");
}

#[test]
fn options_reach_the_engine() {
    let request = GenerateRequest {
        options: Some(OllamaOptions {
            num_predict: Some(5),
            temperature: Some(Temperature { bits: 1, numeral: "x".to_owned() }),
            seed: Some(6),
        }),
        ..generate_request("", "hello")
    };
    let (model, job) = resolved(dispatch_generate(&EchoEngine.profile(), "", request)).expect("echo runs");
    assert_eq!(model, "echo");
    assert_eq!(job.request.prompt, "hello");
    assert_eq!(job.request.max_tokens, Some(5));
    assert_eq!(job.request.seed, Some(6));
    assert_eq!(job.request.temperature.expect("given").bits, 1);
    assert_eq!(job.shape, LineShape::Response);
    assert!(OllamaOptions::default().seed.is_none());
}

#[test]
fn a_lost_lookup_is_a_server_error() {
    let call = generate_core(&MirrorEngine.profile(), "", generate_request("tiny", "x"));
    match call.looked_up(Err("cancelled".to_owned())) {
        OllamaCall::Refused { error } => {
            assert_eq!(error.status, 500);
            assert_eq!(error.message, "join model lookup: cancelled");
        }
        other => panic!("{other:?}"),
    }
}

#[test]
fn every_failure_has_its_status() {
    let m = || "m".to_owned();
    let cases = [
        (LiveError::NotFound(m()), 404),
        (LiveError::Config(m()), 400),
        (LiveError::Protocol(m()), 400),
        (LiveError::InvalidHolo(m()), 400),
        (LiveError::Capability(m()), 500),
        (LiveError::Conflict(m()), 500),
        (LiveError::Io(m()), 500),
        (LiveError::Transport(m()), 500),
        (LiveError::Other(m()), 500),
    ];
    for (error, status) in cases {
        let refusal = OllamaError::from(failure(error));
        assert_eq!(refusal.status, status);
        assert_eq!(refusal.message, "shown");
    }
}

#[test]
fn tags_and_models_are_answered_or_refused() {
    assert_eq!(list_tags(Ok(Ok(vec![tiny()]))).expect("tags").models.len(), 1);
    let refused = list_tags(Ok(Err(failure(LiveError::Config("m".to_owned())))));
    assert_eq!(refused.expect_err("the catalog failed").status, 400);
    let lost = list_tags(Err("cancelled".to_owned())).expect_err("the task failed");
    assert_eq!(lost.status, 500);
    assert_eq!(lost.message, "join model listing: cancelled");

    let asked = show_model(&ShowRequest { model: " tiny\n".to_owned() });
    assert_eq!(asked.expect("a name"), "tiny");
    let bare = show_model(&ShowRequest { model: " ".to_owned() }).expect_err("no name");
    assert_eq!(bare.status, 400);
    assert_eq!(bare.message, "model is required");

    assert_eq!(shown(Ok(Ok(tiny()))).expect("shown").details.family, "weightc");
    let missing = shown(Ok(Err(failure(LiveError::NotFound("m".to_owned())))));
    assert_eq!(missing.expect_err("no such model").status, 404);
    let lost = shown(Err("cancelled".to_owned())).expect_err("the task failed");
    assert_eq!(lost.message, "join model lookup: cancelled");
}

#[test]
fn unknown_names_are_quoted() {
    assert_eq!(unknown_model("gh\"ost\n"), "model \"gh\\\"ost\\n\" not found");
    assert_eq!(unknown_model_message("'x'"), "model 'x' not found");
}

#[test]
fn a_line_ends_with_a_newline() {
    assert_eq!(framed("{}"), "{}\n");
}

#[test]
fn no_line_follows_the_last() {
    let mut stream = LineStream::start("m".to_owned(), LineShape::Response);
    assert!(stream.is_open());
    let last = stream.step(StreamInput::Ended, "t".to_owned()).expect("a terminal line");
    assert!(claims_done(&last));
    assert_eq!(line(&last).created_at, "t");
    assert_eq!(line(&last).model, "m");
    assert!(stream.step(StreamInput::Ended, "t".to_owned()).is_none());
    let late = StreamInput::Event(CompletionEvent::Delta("late".to_owned()));
    assert!(stream.step(late, "t".to_owned()).is_none());
}

#[test]
fn the_module_serves_four_routes() {
    let descriptor = OllamaCompatModule.descriptor("1.2.3");
    assert_eq!(descriptor.version, "1.2.3");
    assert_eq!(descriptor.id, "dev.hologram.live.ollama-compat");
    assert_eq!(descriptor.name, "Ollama-Compatible API");
    assert_eq!(descriptor.dependencies, vec!["dev.hologram.live.inference"]);
    let routes: Vec<(Method, &str)> =
        OllamaCompatModule.routes().iter().map(|route| (route.method, route.path)).collect();
    assert_eq!(
        routes,
        vec![
            (Method::Post, "/api/generate"),
            (Method::Post, "/api/chat"),
            (Method::Get, "/api/tags"),
            (Method::Post, "/api/show"),
        ]
    );
}

#[test]
fn a_replayed_answer_is_one_line_and_the_last() {
    let request = CompletionRequest { prompt: "two\nlines".to_owned(), ..CompletionRequest::default() };
    let mut stream = LineStream::start("m".to_owned(), LineShape::Message);
    let lines: Vec<Line> = MeteredEngine
        .stream(request)
        .into_iter()
        .filter_map(|input| stream.step(input, "t".to_owned()))
        .collect();
    assert_eq!(lines.len(), 2);
    assert_eq!(line(&lines[0]).message.as_ref().expect("a message").content, "two\nlines");
    assert!(line(&lines[0]).response.is_none());
    assert!(claims_done(&lines[1]));
    assert_eq!(line(&lines[1]).prompt_eval_count, Some(11));
    assert_eq!(line(&lines[1]).eval_count, Some(22));
}

#[test]
fn timestamps_keep_the_order_of_their_seconds() {
    let moments = [
        0,
        999,
        1_000,
        59_999,
        86_399_000,
        86_400_000,
        951_782_400_000,
        951_868_800_000,
        1_700_000_000_000,
        4_107_456_000_000,
        253_402_300_799_000,
        253_402_300_799_999,
    ];
    for a in moments {
        for b in moments {
            let (x, y) = (rfc3339_from_millis(a), rfc3339_from_millis(b));
            assert_eq!(x == y, a / 1000 == b / 1000);
            assert_eq!(x < y, a / 1000 < b / 1000);
        }
    }
}
