use hologram_live::error::LiveError;
use hologram_live::inference::weightc::{
    complaint, complete_resident, sampling_args, session_turn, AskArg, AskOutcome, Route,
    SessionNeed, SessionReply, WeightcAskOutput, WeightcEngine,
};
use hologram_live::inference::{
    Completion, CompletionRequest, InferenceConfig, Rate, StreamKind, Temperature,
    TokenUsage,
};
use std::sync::Arc;

fn config(model: &str, resident_sessions: bool) -> InferenceConfig {
    InferenceConfig {
        engine: "weightc".to_owned(),
        default_model: model.to_owned(),
        ollama_endpoint: String::new(),
        weightc_path: "/opt/weightc".to_owned(),
        request_timeout_secs: 30,
        resident_sessions,
        max_resident_sessions: 0,
    }
}

/// An engine over a catalog of one model.
fn engine() -> WeightcEngine<Vec<&'static str>> {
    WeightcEngine::new(&config("model-1", false), Arc::new(vec!["tiny"]), 8)
}

fn prompt(text: &str) -> CompletionRequest {
    CompletionRequest { prompt: text.to_owned(), model: None, ..CompletionRequest::default() }
}

fn output() -> WeightcAskOutput {
    WeightcAskOutput {
        response: None,
        text: None,
        output: None,
        tokens_per_second: None,
        prompt_tokens: None,
        completion_tokens: None,
    }
}

/// Asks once, with what the command printed.
fn complete(
    engine: &WeightcEngine<Vec<&'static str>>,
    outcome: AskOutcome,
) -> Result<Completion, LiveError> {
    let request = prompt("user: hi");
    assert!(matches!(engine.complete(&request), Route::OneShot));
    engine.artifact_dir()?;
    engine.complete_one_shot(outcome, 4)
}

#[test]
fn weightc_parses_the_json_response() {
    let engine = engine();
    let printed = WeightcAskOutput {
        response: Some("weightc answer".to_owned()),
        tokens_per_second: Some(Rate { bits: 12.5_f64.to_bits() }),
        ..output()
    };
    let completion = complete(&engine, AskOutcome::Printed { output: printed }).expect("complete");
    assert_eq!(completion.text, "weightc answer");
    assert_eq!(
        completion.tokens_per_second.map(|rate| f64::from_bits(rate.bits)),
        Some(12.5)
    );
    assert_eq!(engine.name(), "weightc");
    assert_eq!(engine.catalog().len(), 1);
    assert_eq!(completion.model, "model-1");
    assert_eq!(completion.elapsed_millis, 4);
}

#[test]
fn weightc_accepts_alternate_text_fields() {
    let printed = WeightcAskOutput { text: Some("from text field".to_owned()), ..output() };
    let completion =
        complete(&engine(), AskOutcome::Printed { output: printed }).expect("complete");
    assert_eq!(completion.text, "from text field");
}

#[test]
fn weightc_nonzero_exit_reports_the_stderr_tail() {
    let tail = complaint(b"boom\n");
    assert_eq!(tail, "boom");
    let outcome = AskOutcome::Failed { status: "exit status: 3".to_owned(), tail };
    match complete(&engine(), outcome).expect_err("must fail") {
        LiveError::Io(message) => {
            assert!(message.contains("boom"), "error: {message}");
            assert_eq!(message, "weightc ask failed (exit status: 3): boom");
        }
        other => panic!("not an I/O failure: {other:?}"),
    }
}

#[test]
fn weightc_without_a_default_model_is_a_capability_error() {
    let engine = WeightcEngine::new(&config("", false), Arc::new(vec!["tiny"]), 8);
    let error = complete(&engine, AskOutcome::TimedOut).expect_err("must fail");
    match error {
        LiveError::Capability(message) => assert_eq!(
            message,
            "the weightc engine requires inference.default_model to name an imported model"
        ),
        other => panic!("not a capability failure: {other:?}"),
    }
}

#[test]
fn the_first_text_field_wins() {
    let all = WeightcAskOutput {
        response: Some("r".to_owned()),
        text: Some("t".to_owned()),
        output: Some("o".to_owned()),
        prompt_tokens: Some(1),
        completion_tokens: Some(2),
        ..output()
    };
    let completion = complete(&engine(), AskOutcome::Printed { output: all }).expect("complete");
    assert_eq!(completion.text, "r");
    assert_eq!(completion.usage, Some(TokenUsage { prompt_tokens: 1, completion_tokens: 2 }));
    let last = WeightcAskOutput { output: Some("o".to_owned()), ..output() };
    let completion = complete(&engine(), AskOutcome::Printed { output: last }).expect("complete");
    assert_eq!(completion.text, "o");
    assert_eq!(completion.usage, None);
}

#[test]
fn each_way_to_fail_has_its_message() {
    let engine = engine();
    match complete(&engine, AskOutcome::TimedOut) {
        Err(LiveError::Transport(m)) => assert_eq!(m, "weightc ask timed out after 30s"),
        other => panic!("{other:?}"),
    }
    match complete(&engine, AskOutcome::NotStarted { error: "no such file".to_owned() }) {
        Err(LiveError::Transport(m)) => assert_eq!(m, "failed to start /opt/weightc: no such file"),
        other => panic!("{other:?}"),
    }
    match complete(&engine, AskOutcome::Printed { output: output() }) {
        Err(LiveError::Protocol(m)) => {
            assert_eq!(m, "weightc --json output has no response, text, or output field");
        }
        other => panic!("{other:?}"),
    }
    let failure = LiveError::Other("expected value at line 1".to_owned());
    match complete(&engine, AskOutcome::Unreadable { failure }) {
        Err(LiveError::Other(m)) => assert_eq!(m, "expected value at line 1"),
        other => panic!("{other:?}"),
    }
}

#[test]
fn the_command_asks_for_the_prompt_on_the_artifact() {
    let call = engine().ask("/models/tiny.wcpu", &prompt("user: hi"));
    assert_eq!(call.binary, "/opt/weightc");
    assert_eq!(call.timeout_secs, 30);
    let shown: Vec<String> = call
        .args
        .into_iter()
        .map(|arg| match arg {
            AskArg::Text(text) => text,
            AskArg::Path(path) => path.to_owned(),
        })
        .collect();
    assert_eq!(shown, vec!["ask", "/models/tiny.wcpu", "user: hi", "--json"]);
}

#[test]
fn sampling_flags_are_those_of_the_request() {
    assert!(sampling_args(&prompt("x")).is_empty());
    let request = CompletionRequest {
        max_tokens: Some(64),
        temperature: Some(Temperature { bits: 0.7_f32.to_bits(), numeral: 0.7_f32.to_string() }),
        seed: Some(u64::MAX),
        ..prompt("x")
    };
    assert_eq!(
        sampling_args(&request),
        vec!["--max-tokens", "64", "--temperature", "0.7", "--seed", "18446744073709551615"]
    );
}

#[test]
fn only_a_named_session_is_resident() {
    let engine = WeightcEngine::new(&config("m", true), Arc::new(Vec::<&str>::new()), 0);
    assert!(engine.supports_sessions());
    assert_eq!(engine.stream_kind(), StreamKind::Buffered);
    assert!(matches!(engine.complete(&prompt("x")), Route::OneShot));
    let request = CompletionRequest { session_key: Some("k".to_owned()), ..prompt("x") };
    assert!(matches!(engine.complete(&request), Route::Resident { key } if key == "k"));
    let off = WeightcEngine::new(&config("m", false), Arc::new(Vec::<&str>::new()), 0);
    assert!(matches!(off.complete(&request), Route::OneShot));

    assert!(matches!(engine.session_actor(Some(7)), SessionNeed::Ready { session: 7 }));
    assert!(matches!(
        engine.session_actor(None::<u8>),
        SessionNeed::Artifact { model } if model == "m"
    ));
    let start = engine.session_start("k", "/a", &request);
    assert_eq!(start.key, "k");
    assert_eq!(start.session.artifact, "/a");
    assert_eq!(start.session.model, "m");
    assert_eq!(start.session.binary, "/opt/weightc");
    assert_eq!(start.session.timeout_secs, 30);
    assert!(start.session.sampling.is_empty());
    assert_eq!(start.max_sessions, 1, "a table holds at least one session");
    assert_eq!(start.mailbox_capacity, 1, "a mailbox holds at least one message");
    let turn = session_turn(&request);
    assert_eq!(turn.prompt, "x");
    assert_eq!(turn.system, None);

    let bare = WeightcEngine::new(&config(" ", true), Arc::new(Vec::<&str>::new()), 0);
    assert!(matches!(
        bare.session_actor(None::<u8>),
        SessionNeed::Failed { error: LiveError::Capability(_) }
    ));
}

#[test]
fn a_session_that_broke_is_dropped() {
    let answer = || Completion::local("a".to_owned(), "m".to_owned(), None, 0, None);
    let (dropped, result) =
        complete_resident("k", SessionReply::Answered { alive: true, result: Ok(answer()) });
    assert!(!dropped && result.is_ok());
    let lost = Err(LiveError::Transport("lost".to_owned()));
    let (dropped, result) =
        complete_resident("k", SessionReply::Answered { alive: false, result: lost });
    assert!(dropped && result.is_err());
    let (dropped, result) =
        complete_resident("k", SessionReply::Unavailable { error: "stopped".to_owned() });
    assert!(dropped);
    match result {
        Err(LiveError::Transport(m)) => {
            assert_eq!(m, "weightc session k actor is unavailable: stopped");
        }
        other => panic!("{other:?}"),
    }
}

#[test]
fn a_complaint_is_decoded_and_trimmed() {
    assert_eq!(complaint(b"  bad \xff byte \n\n"), "bad \u{fffd} byte");
    assert_eq!(complaint(b""), "");
}
