use hologram_live::chat::{render_transcript, ChatService, Conversation, Exchange, Message};
use hologram_live::error::{join_failed, LiveError};
use hologram_live::inference::echo::{last_user_content, EchoEngine};
use hologram_live::inference::{Completion, CompletionRequest, Engine, EngineProfile, StreamKind};
use std::sync::Arc;

fn message(role: &str, content: &str) -> Message {
    Message { role: role.to_owned(), content: content.to_owned() }
}

fn conversation(messages: Vec<Message>) -> Conversation {
    Conversation { id: "c-1".to_owned(), messages }
}

/// What the history holds after an exchange is recorded.
fn recorded(mut before: Conversation, exchange: Exchange) -> Conversation {
    match exchange {
        Exchange::Appending { id, content, reply } => {
            assert_eq!(id, before.id);
            before.messages.push(message("user", &content));
            before.messages.push(message("assistant", &reply));
            before
        }
        other => panic!("the exchange is not at its end: {other:?}"),
    }
}

struct StubEngine;

fn engine<E>(service: E, profile: EngineProfile) -> Arc<Engine<E>> {
    Arc::new(Engine { profile, service })
}

fn profile(name: &'static str, supports_sessions: bool) -> EngineProfile {
    EngineProfile { name, supports_sessions, stream_kind: StreamKind::Buffered }
}


struct SessionStubEngine;

fn reply(text: &str) -> Completion {
    Completion::local(text.to_owned(), "stub".to_owned(), None, 0, None)
}

fn prompt(text: &str) -> CompletionRequest {
    CompletionRequest { prompt: text.to_owned(), model: None, ..CompletionRequest::default() }
}

#[test]
fn transcript_renders_role_prefixed_lines_with_the_new_turn_last() {
    let conversation = conversation(vec![message("user", "hi"), message("assistant", "hello")]);

    let transcript = render_transcript(&conversation, "how are you");

    assert_eq!(transcript, "user: hi\nassistant: hello\nuser: how are you");
}

#[test]
fn echo_engine_matches_the_original_demo_behavior() {
    let chat = ChatService::new(Arc::new(()), engine(EchoEngine, EchoEngine.profile()));
    let exchange = chat.send("c-1", "echo me".to_owned());

    let updated = recorded(conversation(Vec::new()), exchange);

    assert_eq!(updated.messages.len(), 2);
    assert_eq!(updated.messages[0].role, "user");
    assert_eq!(updated.messages[0].content, "echo me");
    assert_eq!(updated.messages[1].role, "assistant");
    assert_eq!(updated.messages[1].content, "echo me");
}

#[test]
fn non_echo_engines_receive_the_transcript_and_reply_is_recorded() {
    let chat = ChatService::new(Arc::new(()), engine(StubEngine, profile("stub", false)));
    let exchange = chat.send("c-1", "ping".to_owned());
    assert!(matches!(exchange, Exchange::Loading { .. }));

    let exchange = exchange.loaded(Ok(conversation(Vec::new())));
    match &exchange {
        Exchange::Completing { request, .. } => {
            assert!(request.prompt.ends_with("user: ping"));
            assert_eq!(request.session_key, None);
        }
        other => panic!("the engine is asked: {other:?}"),
    }
    let updated = recorded(conversation(Vec::new()), exchange.completed(Ok(reply("pong"))));

    assert_eq!(updated.messages[1].content, "pong");
}

#[test]
fn session_capable_engines_receive_the_raw_turn_and_conversation_key() {
    let chat = ChatService::new(Arc::new(()), engine(SessionStubEngine, profile("session-stub", true)));
    let mut seen = Vec::new();
    for turn in ["first turn", "second turn"] {
        match chat.send("c-1", turn.to_owned()) {
            Exchange::Completing { request, .. } => seen.push(request),
            other => panic!("nothing is loaded for a session: {other:?}"),
        }
    }

    assert_eq!(seen.len(), 2);
    assert_eq!(seen[0].prompt, "first turn");
    assert_eq!(seen[1].prompt, "second turn");
    assert_eq!(seen[0].session_key.as_deref(), Some("c-1"));
    assert_eq!(seen[1].session_key, seen[0].session_key);
}

#[test]
fn echo_returns_the_newest_user_turn() {
    let engine = EchoEngine;
    let completion = engine.complete(&prompt("user: first\nassistant: first\nuser: second"), 0);
    assert_eq!(completion.text, "second");
    assert_eq!(engine.name(), "echo");
    assert!(engine.list_models().is_empty());
}

#[test]
fn echo_returns_a_bare_prompt_unchanged() {
    let completion = EchoEngine.complete(&prompt("hello"), 0);
    assert_eq!(completion.text, "hello");
}

#[test]
fn a_completion_is_local_and_carries_what_it_was_given() {
    let completion = EchoEngine.complete(&prompt("hello"), 7);
    assert_eq!(completion.model, "echo");
    assert_eq!(completion.elapsed_millis, 7);
    assert_eq!(completion.usage, None);
    assert_eq!(completion.locality.as_deref(), Some("local"));
    assert_eq!(completion.model_kappa, None);
    assert_eq!(completion.device, None);
}

#[test]
fn a_turn_of_several_lines_is_echoed_from_its_first() {
    assert_eq!(last_user_content("user: one\ntwo"), "one");
    assert_eq!(last_user_content("user: one\r\n"), "one");
    assert_eq!(last_user_content("plain text \n\n"), "plain text \n\n");
    assert_eq!(last_user_content("hello \n"), "hello \n");
    assert_eq!(last_user_content("user:no space"), "user:no space");
    assert_eq!(last_user_content(""), "");
}

#[test]
fn a_transcript_is_echoed_by_its_newest_turn() {
    let before = conversation(vec![message("user", "a"), message("assistant", "user: b")]);
    for content in ["how are you", "user: nested", "tail \r", "x"] {
        assert_eq!(last_user_content(&render_transcript(&before, content)), content);
    }
}

#[test]
fn a_failed_read_or_answer_ends_the_exchange() {
    let chat = ChatService::new(Arc::new(()), engine(StubEngine, profile("stub", false)));
    let lost = chat
        .send("c-1", "ping".to_owned())
        .loaded(Err(join_failed("chat history", "task 3 panicked")));
    match lost {
        Exchange::Failed { error: LiveError::Conflict(message) } => {
            assert_eq!(message, "join chat history: task 3 panicked");
        }
        other => panic!("the exchange failed: {other:?}"),
    }

    let failed = chat
        .send("c-1", "ping".to_owned())
        .loaded(Ok(conversation(Vec::new())))
        .completed(Err(LiveError::Transport("gone".to_owned())));
    assert!(matches!(failed, Exchange::Failed { error: LiveError::Transport(m) } if m == "gone"));
}

#[test]
fn a_chat_service_names_its_engine() {
    let chat = ChatService::new(Arc::new(5_u8), engine(StubEngine, profile("stub", false)));
    assert_eq!(chat.engine_name(), "stub");
    assert!(matches!(chat.engine().service, StubEngine));
    assert_eq!(**chat.history(), 5);
}
