use hologram_live::error::LiveError;
use hologram_live::inference::ndjson::LineBuffer;
use hologram_live::inference::ollama::{
    deadline, generate_status, is_success, measured_speed, tags_status, Deadline, OllamaEngine,
    OllamaFault, OllamaGenerateResponse, OllamaStreamLine, OllamaTag, StreamReader,
    MAX_STREAM_LINE_BYTES,
};
use hologram_live::inference::{
    CompletionEvent, CompletionRequest, CompletionSummary, InferenceConfig, Rate,
    StreamKind, Temperature, TokenUsage,
};

fn config(model: &str, endpoint: &str) -> InferenceConfig {
    InferenceConfig {
        engine: "ollama".to_owned(),
        default_model: model.to_owned(),
        ollama_endpoint: endpoint.to_owned(),
        weightc_path: String::new(),
        request_timeout_secs: 1,
        resident_sessions: false,
        max_resident_sessions: 1,
    }
}

fn engine() -> OllamaEngine {
    OllamaEngine::new(&config("test-model", "http://127.0.0.1:9/"))
}

fn hi() -> CompletionRequest {
    CompletionRequest { prompt: "hi".to_owned(), model: None, ..CompletionRequest::default() }
}

fn count(value: &serde_json::Value, key: &str) -> Option<u64> {
    value.get(key).and_then(serde_json::Value::as_u64)
}

fn text(value: &serde_json::Value, key: &str) -> String {
    value.get(key).and_then(serde_json::Value::as_str).unwrap_or_default().to_owned()
}

fn parse_line(line: &String) -> Result<OllamaStreamLine, String> {
    let value: serde_json::Value =
        serde_json::from_str(line).map_err(|error| error.to_string())?;
    Ok(OllamaStreamLine {
        response: text(&value, "response"),
        done: value.get("done").and_then(serde_json::Value::as_bool).unwrap_or(false),
        prompt_eval_count: count(&value, "prompt_eval_count"),
        eval_count: count(&value, "eval_count"),
    })
}

fn parse_answer(body: &str) -> OllamaGenerateResponse {
    let value: serde_json::Value = serde_json::from_str(body).expect("the stub sends JSON");
    OllamaGenerateResponse {
        response: text(&value, "response"),
        prompt_eval_count: count(&value, "prompt_eval_count"),
        eval_count: count(&value, "eval_count"),
        eval_duration: count(&value, "eval_duration"),
    }
}

/// Feeds the chunks to a reader, as the HTTP client would.
fn read_all(reader: &mut StreamReader, chunks: &[&[u8]]) -> Vec<Result<CompletionEvent, LiveError>> {
    let mut items = Vec::new();
    for chunk in chunks {
        match reader.read(chunk) {
            Ok(lines) => items.extend(reader.events(lines.iter().map(parse_line).collect(), 5)),
            Err(error) => items.push(Err(error)),
        }
    }
    items.extend(reader.ended().map(Err));
    items
}

fn stream(chunks: &[&[u8]]) -> Vec<Result<CompletionEvent, LiveError>> {
    let engine = engine();
    let call = engine.send_generate(&hi(), true).expect("the model is named");
    assert!(call.stream);
    read_all(&mut engine.complete_stream(), chunks)
}

fn deltas(items: &[Result<CompletionEvent, LiveError>]) -> Vec<String> {
    items
        .iter()
        .filter_map(|item| match item {
            Ok(CompletionEvent::Delta(text)) => Some(text.clone()),
            _ => None,
        })
        .collect()
}

fn summary(items: &[Result<CompletionEvent, LiveError>]) -> Option<&CompletionSummary> {
    match items.last() {
        Some(Ok(CompletionEvent::Done(done))) => Some(done),
        _ => None,
    }
}

fn message(error: &LiveError) -> String {
    match error {
        LiveError::Protocol(message)
        | LiveError::Transport(message)
        | LiveError::Capability(message) => message.clone(),
        other => panic!("not a failure of this engine: {other:?}"),
    }
}

#[test]
fn generate_reports_the_counts_ollama_sends() {
    let parsed = parse_answer(
        "{\"response\":\"hello\",\"prompt_eval_count\":18,\"eval_count\":42,\"eval_duration\":1000000000}",
    );
    let completion = engine().complete(parsed, None, 3);

    assert_eq!(completion.text, "hello");
    assert_eq!(
        completion.usage,
        Some(TokenUsage { prompt_tokens: 18, completion_tokens: 42 })
    );
    assert_eq!(completion.model, "test-model");
    assert_eq!(completion.elapsed_millis, 3);
}

#[test]
fn generate_omits_usage_when_ollama_sends_no_counts() {
    let completion = engine().complete(parse_answer("{\"response\":\"hello\"}"), None, 0);
    assert_eq!(completion.usage, None);
}

#[test]
fn streaming_yields_each_ndjson_line_then_the_final_counts() {
    let body = concat_lines(&[
        "{\"response\":\"Hel\",\"done\":false}\n",
        "{\"response\":\"lo\",\"done\":false}\n",
        "{\"response\":\"\",\"done\":true,\"prompt_eval_count\":18,\"eval_count\":42}\n",
    ]);
    assert_eq!(engine().stream_kind(), StreamKind::Native);

    let items = stream(&[body.as_bytes()]);

    assert_eq!(deltas(&items), vec!["Hel".to_owned(), "lo".to_owned()]);
    let done = summary(&items).expect("the stream terminates with Done");
    assert_eq!(done.usage, Some(TokenUsage { prompt_tokens: 18, completion_tokens: 42 }));
    assert_eq!(done.model, "test-model");
    assert_eq!(done.elapsed_millis, 5);
    assert_eq!(items.len(), 3);
}

fn concat_lines(lines: &[&str]) -> String {
    lines.concat()
}

#[test]
fn streaming_errs_when_the_body_ends_without_a_done_line() {
    let body = concat_lines(&[
        "{\"response\":\"Hel\",\"done\":false}\n",
        "{\"response\":\"lo\",\"done\":false}\n",
    ]);
    let engine = engine();
    let mut reader = engine.complete_stream();
    let items = read_all(&mut reader, &[body.as_bytes()]);

    assert_eq!(deltas(&items), vec!["Hel".to_owned(), "lo".to_owned()]);
    let error = items.last().expect("an item").as_ref().expect_err("a truncated stream fails");
    assert_eq!(message(error), "ollama stream ended before a done line");
    assert!(reader.ended().is_none(), "nothing follows the terminal Err");
}

#[test]
fn streaming_reassembles_a_json_line_split_across_chunk_boundaries() {
    let items = stream(&[
        b"{\"response\":\"Hel",
        b"lo\",\"done\":false}\n{\"response\":\"\",\"done\":true,\"prompt_eval_count\":1,\"eval_count\":2}\n",
    ]);

    assert_eq!(deltas(&items).concat(), "Hello");
    assert_eq!(
        summary(&items).expect("the stream terminates with Done").usage,
        Some(TokenUsage { prompt_tokens: 1, completion_tokens: 2 })
    );
}

#[test]
fn streaming_errs_on_a_line_that_never_terminates_within_the_byte_cap() {
    let chunk = vec![b'x'; 256 * 1024];
    let chunks: Vec<&[u8]> = vec![&chunk; 8];
    let items = stream(&chunks);

    assert_eq!(items.len(), 1, "nothing follows the terminal Err");
    let error = items[0].as_ref().expect_err("a newline-free body carries no complete line");
    assert!(message(error).contains("1048576"));
    assert_eq!(
        message(error),
        "ollama stream line exceeded 1048576 bytes without a newline"
    );
}

#[test]
fn streaming_survives_past_the_whole_request_timeout_as_long_as_tokens_keep_arriving() {
    let lines: [&[u8]; 7] = [
        b"{\"response\":\"H\",\"done\":false}\n",
        b"{\"response\":\"e\",\"done\":false}\n",
        b"{\"response\":\"l\",\"done\":false}\n",
        b"{\"response\":\"l\",\"done\":false}\n",
        b"{\"response\":\"o\",\"done\":false}\n",
        b"{\"response\":\"!\",\"done\":false}\n",
        b"{\"response\":\"\",\"done\":true,\"prompt_eval_count\":1,\"eval_count\":2}\n",
    ];
    // Each line arrives 250 ms after the one before it; the whole takes longer
    // than the one second of the configuration. The limit of a stream is on
    // the silence before each line, so no read runs out of time.
    let engine = engine();
    let call = engine.send_generate(&hi(), true).expect("the model is named");
    let silence = match call.deadline {
        Deadline::EachRead { secs } => secs * 1000,
        Deadline::Whole { .. } => panic!("a stream is not bounded as a whole"),
    };
    let mut reader = engine.complete_stream();
    let mut items = Vec::new();
    let mut elapsed = 0;
    for line in lines {
        assert!(250 < silence, "the line is there in time");
        elapsed += 250;
        let texts = reader.read(line).expect("no line is too long");
        items.extend(reader.events(texts.iter().map(parse_line).collect(), elapsed));
    }

    assert_eq!(deltas(&items).concat(), "Hello!");
    let done = summary(&items).expect("the stream reaches Done past the timeout");
    assert_eq!(done.elapsed_millis, 1750);
    assert!(!reader.is_open());

    let buffered = engine.send_generate(&hi(), false).expect("the model is named");
    assert_eq!(buffered.deadline, Deadline::Whole { secs: 1 });
    assert!(elapsed > 1000, "a limit on the whole would have cut the stream");
}

#[test]
fn a_limit_is_on_each_read_of_a_stream_and_else_on_the_whole() {
    assert_eq!(deadline(true, 30), Deadline::EachRead { secs: 30 });
    assert_eq!(deadline(false, 30), Deadline::Whole { secs: 30 });
    assert_eq!(engine().tags_call().deadline, Deadline::Whole { secs: 1 });
}

#[test]
fn a_status_that_tells_no_success_is_a_failure() {
    let said = || ("404 Not Found".to_owned(), "no such model".to_owned());
    for status in [200, 204, 299] {
        let (shown, tail) = said();
        assert!(generate_status(status, shown, tail).is_ok());
        assert!(tags_status(status, said().0).is_ok());
    }
    for status in [100, 199, 300, 404, 500] {
        let (shown, tail) = said();
        let error = generate_status(status, shown, tail).expect_err("no success");
        let expected = OllamaFault::GenerateStatus {
            status: "404 Not Found".to_owned(),
            tail: "no such model".to_owned(),
        };
        assert_eq!(message(&error), message(&expected.report()));
        let error = tags_status(status, said().0).expect_err("no success");
        let expected = OllamaFault::TagsStatus { status: "404 Not Found".to_owned() };
        assert_eq!(message(&error), message(&expected.report()));
    }
}

#[test]
fn every_cut_of_a_stream_reads_the_same() {
    let body: &[u8] = b"{\"response\":\"a\"}\n{\"response\":\"b\"}\n{\"done\":true}\n{\"response\":\"c\"}\n";
    let whole = format!("{:?}", stream(&[body]));
    for size in 1..body.len() {
        let chunks: Vec<&[u8]> = body.chunks(size).collect();
        assert_eq!(format!("{:?}", stream(&chunks)), whole);
    }
}

#[test]
fn a_summary_needs_a_done_line_with_its_newline() {
    assert!(summary(&stream(&[b"{\"response\":\"a\"}\n{\"done\":true}\n"])).is_some());
    assert!(summary(&stream(&[b"{\"response\":\"a\"}\n{\"done\":true}"])).is_none());
    assert!(summary(&stream(&[b"nonsense\n{\"done\":true}\n"])).is_none());
    let long = vec![b'x'; MAX_STREAM_LINE_BYTES + 1];
    assert!(summary(&stream(&[&long, b"\n{\"done\":true}\n"])).is_none());
}

#[test]
fn a_newline_in_a_long_chunk_keeps_the_stream_open() {
    let mut chunk = b"\n".to_vec();
    chunk.extend(vec![b'x'; MAX_STREAM_LINE_BYTES + 1]);
    let mut reader = engine().complete_stream();
    assert!(reader.read(&chunk).expect("the chunk holds a newline").is_empty());
    assert!(reader.is_open());
    assert!(reader.read(b"y").is_err());
}

#[test]
fn a_stream_reads_the_same_wherever_it_is_cut() {
    let body = "{\"response\":\"a\"}\n\n  \n{\"response\":\"\u{e9}\",\"done\":false}\r\n{\"done\":true}\n{\"response\":\"late\"}\n";
    let whole = format!("{:?}", stream(&[body.as_bytes()]));
    for at in 0..=body.len() {
        let (head, tail) = body.as_bytes().split_at(at);
        assert_eq!(format!("{:?}", stream(&[head, tail])), whole);
    }
    assert!(!whole.contains("late"), "nothing follows the end of the answer");
}

#[test]
fn a_chunk_of_several_lines_may_exceed_the_cap() {
    let line = format!("{{\"response\":\"{}\"}}\n", "y".repeat(600 * 1024));
    let body = line.repeat(3);
    assert!(body.len() > MAX_STREAM_LINE_BYTES);
    let items = stream(&[body.as_bytes(), b"{\"done\":true}\n"]);
    assert_eq!(items.len(), 4);
    assert!(summary(&items).is_some());

    let exactly = vec![b' '; MAX_STREAM_LINE_BYTES];
    let mut reader = engine().complete_stream();
    assert!(reader.read(&exactly).is_ok());
    assert!(reader.read(b"z").is_err());
    assert!(reader.read(b"\n").expect("a reader at its end reads nothing").is_empty());
}

#[test]
fn a_line_that_is_not_json_ends_the_stream() {
    let items = stream(&[b"{\"response\":\"a\"}\nnonsense\n{\"response\":\"b\"}\n"]);
    assert_eq!(items.len(), 2);
    let error = items[1].as_ref().expect_err("the second line is not JSON");
    assert!(message(error).starts_with("parse ollama stream line: "));
}

#[test]
fn a_read_that_fails_ends_the_stream() {
    let mut reader = engine().complete_stream();
    let error = reader.read_failed("connection reset".to_owned()).expect("the first end");
    assert_eq!(message(&error), "ollama stream failed: connection reset");
    assert!(matches!(error, LiveError::Transport(_)));
    assert!(reader.read_failed("again".to_owned()).is_none());
    assert!(reader.events(vec![parse_line(&"{\"done\":true}".to_owned())], 0).is_empty());
}

#[test]
fn a_generation_carries_options_only_when_there_are_any() {
    let engine = engine();
    let plain = engine.send_generate(&hi(), false).expect("the model is named");
    assert_eq!(plain.url, "http://127.0.0.1:9/api/generate");
    assert_eq!(plain.model, "test-model");
    assert_eq!(plain.prompt, "hi");
    assert!(!plain.stream);
    assert!(plain.options.is_none());

    let request = CompletionRequest {
        temperature: Some(Temperature { bits: 0.5_f32.to_bits(), numeral: "0.5".to_owned() }),
        ..hi()
    };
    let options = engine
        .send_generate(&request, true)
        .expect("the model is named")
        .options
        .expect("one option is given");
    assert_eq!(options.num_predict, None);
    assert_eq!(options.seed, None);
    assert_eq!(options.temperature.expect("given").bits, 0.5_f32.to_bits());
}

#[test]
fn an_engine_without_a_model_asks_nothing() {
    let engine = OllamaEngine::new(&config(" \t", "http://x"));
    let error = engine.send_generate(&hi(), false).expect_err("there is no model");
    assert!(matches!(error, LiveError::Capability(_)));
    assert_eq!(
        message(&error),
        "the ollama engine requires inference.default_model to name a model tag"
    );
    assert_eq!(engine.name(), "ollama");
    assert!(!engine.supports_sessions());
}

#[test]
fn the_endpoint_loses_the_slashes_at_its_end() {
    let engine = OllamaEngine::new(&config("m", "http://x///"));
    assert_eq!(engine.tags_call().url, "http://x/api/tags");
}

#[test]
fn a_speed_needs_a_count_and_a_time() {
    assert_eq!(measured_speed(Some(42), Some(7)), Some((42, 7)));
    assert_eq!(measured_speed(Some(42), Some(0)), None);
    assert_eq!(measured_speed(None, Some(7)), None);
    assert_eq!(measured_speed(Some(42), None), None);
    let rate = Rate { bits: 42.0_f64.to_bits() };
    let completion = engine().complete(parse_answer("{\"response\":\"x\"}"), Some(rate), 0);
    assert_eq!(completion.tokens_per_second, Some(rate));
}

#[test]
fn tags_are_listed_under_the_endpoint() {
    let tags = vec![OllamaTag { name: "llama3".to_owned(), size: 9 }];
    let models = engine().list_models(tags);
    assert_eq!(models.len(), 1);
    assert_eq!(models[0].id, "llama3");
    assert_eq!(models[0].name, "llama3");
    assert_eq!(models[0].engine, "ollama");
    assert_eq!(models[0].source, "http://127.0.0.1:9");
    assert_eq!(models[0].size, 9);
    assert_eq!(models[0].created_at_millis, 0);
}

#[test]
fn success_is_a_status_of_two_hundred_and_something() {
    assert!(is_success(200) && is_success(299));
    assert!(!is_success(199) && !is_success(300) && !is_success(404));
}

#[test]
fn faults_are_reported_by_where_they_arose() {
    let e = || "e".to_owned();
    let cases = [
        (OllamaFault::BuildClient { error: e() }, true, "build ollama client: e"),
        (OllamaFault::BuildStreamClient { error: e() }, true, "build ollama streaming client: e"),
        (OllamaFault::SendGenerate { error: e() }, true, "ollama generate: e"),
        (
            OllamaFault::GenerateStatus { status: "404 Not Found".to_owned(), tail: e() },
            true,
            "ollama generate failed (404 Not Found): e",
        ),
        (OllamaFault::ParseGenerate { error: e() }, false, "parse ollama response: e"),
        (OllamaFault::ReadStream { error: e() }, true, "ollama stream failed: e"),
        (
            OllamaFault::LineTooLong,
            false,
            "ollama stream line exceeded 1048576 bytes without a newline",
        ),
        (OllamaFault::ParseLine { error: e() }, false, "parse ollama stream line: e"),
        (OllamaFault::StreamCut, false, "ollama stream ended before a done line"),
        (OllamaFault::SendTags { error: e() }, true, "ollama tags: e"),
        (
            OllamaFault::TagsStatus { status: "500 Internal Server Error".to_owned() },
            true,
            "ollama tags failed (500 Internal Server Error)",
        ),
        (OllamaFault::ParseTags { error: e() }, false, "parse ollama tags: e"),
    ];
    for (fault, transport, expected) in cases {
        let error = fault.report();
        assert_eq!(matches!(error, LiveError::Transport(_)), transport, "{expected}");
        assert_eq!(message(&error), expected);
    }
}

#[test]
fn a_line_buffer_gives_lines_in_order_and_keeps_the_rest() {
    let mut buffer = LineBuffer::new();
    buffer.extend(b"one\n \ntwo\xff\nthr");
    assert!(buffer.has_newline());
    assert_eq!(buffer.next_line().as_deref(), Some("one"));
    assert_eq!(buffer.next_line().as_deref(), Some("two\u{fffd}"));
    assert_eq!(buffer.next_line(), None);
    assert_eq!(buffer.len(), 3);
    buffer.extend(b"ee\n");
    assert_eq!(buffer.next_line().as_deref(), Some("three"));
    assert_eq!(buffer.len(), 0);
}

#[test]
fn a_streamed_generation_asks_what_a_buffered_one_does() {
    let engine = engine();
    let request = CompletionRequest { max_tokens: Some(3), seed: Some(4), ..hi() };
    let mut streamed = engine.send_generate(&request, true).expect("the model is named");
    let buffered = engine.send_generate(&request, false).expect("the model is named");
    assert!(streamed.stream && !buffered.stream);
    streamed.stream = false;
    streamed.deadline = Deadline::Whole { secs: 1 };
    assert_eq!(format!("{streamed:?}"), format!("{buffered:?}"));
}
