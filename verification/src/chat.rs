//! Conversation-backed chat over the configured inference engine.

use vstd::prelude::*;
use crate::error::{LiveError, LiveErrorView};
use crate::inference;
use crate::inference::echo;
use crate::inference::{Completion, CompletionRequest, Engine};
use crate::text;
use std::sync::Arc;

verus! {

/// Who speaks, and what is said.
pub struct Turn {
    pub role: Seq<char>,
    pub content: Seq<char>,
}

/// One message of a conversation.
#[derive(Debug)]
pub struct Message {
    pub role: String,
    pub content: String,
}

impl View for Message {
    type V = Turn;

    open spec fn view(&self) -> Turn {
        Turn { role: self.role@, content: self.content@ }
    }
}

/// A stored conversation.
#[derive(Debug)]
pub struct Conversation {
    pub id: String,
    pub messages: Vec<Message>,
}

impl Conversation {
    /// What was said, in order.
    pub open spec fn turns(&self) -> Seq<Turn> {
        self.messages@.map_values(|m: Message| m@)
    }
}

/// A turn as a line of a transcript.
pub open spec fn turn_line(turn: Turn) -> Seq<char> {
    turn.role + ": "@ + turn.content
}

/// The turns as `role: content` lines.
pub open spec fn turn_lines(turns: Seq<Turn>) -> Seq<Seq<char>> {
    turns.map_values(|t: Turn| turn_line(t))
}

/// The turns as a transcript of `role: content` lines.
pub open spec fn transcript(turns: Seq<Turn>) -> Seq<char> {
    text::join(turn_lines(turns), "\n"@)
}

/// A turn of the user.
pub open spec fn user_turn(content: Seq<char>) -> Turn {
    Turn { role: "user"@, content }
}

/// A turn as a line of a transcript.
pub fn rendered_turn(role: &str, content: &str) -> (line: String)
    ensures
        line@ == turn_line(Turn { role: role@, content: content@ }),
{
    let mut line = text::concat(role, ": ");
    line.append(content);
    line
}

pub proof fn lemma_turn_lines_push(turns: Seq<Turn>, turn: Turn)
    ensures
        turn_lines(turns.push(turn)) == turn_lines(turns).push(turn_line(turn)),
{
    assert(turn_lines(turns.push(turn)) =~= turn_lines(turns).push(turn_line(turn)));
}

/// A message that renders as a line of a transcript.
pub trait Spoken {
    spec fn turn(&self) -> Turn;

    fn role(&self) -> (role: &str)
        ensures
            role@ == self.turn().role,
    ;

    fn content(&self) -> (content: &str)
        ensures
            content@ == self.turn().content,
    ;
}

impl Spoken for Message {
    open spec fn turn(&self) -> Turn {
        self@
    }

    fn role(&self) -> &str {
        self.role.as_str()
    }

    fn content(&self) -> &str {
        self.content.as_str()
    }
}

/// What a list of messages says.
pub open spec fn spoken<M: Spoken>(messages: Seq<M>) -> Seq<Turn> {
    messages.map_values(|m: M| m.turn())
}

/// The messages as lines of a transcript.
pub fn rendered_turns<M: Spoken>(messages: &Vec<M>) -> (lines: Vec<String>)
    ensures
        text::texts(lines@) == turn_lines(spoken(messages@)),
{
    let ghost turns = spoken(messages@);
    let mut lines: Vec<String> = Vec::new();
    assert(text::texts(lines@) =~= turn_lines(turns.take(0)));
    for i in 0..messages.len()
        invariant
            turns == spoken(messages@),
            text::texts(lines@) == turn_lines(turns.take(i as int)),
    {
        let message = &messages[i];
        let line = rendered_turn(message.role(), message.content());
        proof {
            text::lemma_texts_push(lines@, line);
            assert(turns.take(i + 1) =~= turns.take(i as int).push(message.turn()));
            lemma_turn_lines_push(turns.take(i as int), message.turn());
        }
        lines.push(line);
    }
    assert(turns.take(messages@.len() as int) =~= turns);
    lines
}

/// Renders history plus the new user turn as plain `role: content` lines.
/// Engines apply their own chat templates, so the rendering stays minimal.
pub fn render_transcript(conversation: &Conversation, new_user_content: &str) -> (rendered: String)
    ensures
        rendered@ == transcript(conversation.turns().push(user_turn(new_user_content@))),
{
    let mut lines = rendered_turns(&conversation.messages);
    let line = rendered_turn("user", new_user_content);
    proof {
        assert(spoken(conversation.messages@) =~= conversation.turns());
        text::lemma_texts_push(lines@, line);
        lemma_turn_lines_push(conversation.turns(), user_turn(new_user_content@));
    }
    lines.push(line);
    text::joined(&lines, "\n")
}

/// Chat over a history `H` and an engine `E`.
pub struct ChatService<H, E> {
    history: Arc<H>,
    engine: Arc<Engine<E>>,
}

impl<H, E> ChatService<H, E> {
    pub closed spec fn spec_history(&self) -> H {
        *self.history
    }

    pub closed spec fn spec_engine(&self) -> Engine<E> {
        *self.engine
    }

    pub fn new(history: Arc<H>, engine: Arc<Engine<E>>) -> (service: Self)
        ensures
            service.spec_history() == *history,
            service.spec_engine() == *engine,
    {
        ChatService { history, engine }
    }

    pub fn engine_name(&self) -> (name: &'static str)
        ensures
            name@ == self.spec_engine().profile.name@,
    {
        self.engine.profile.name
    }

    /// The configured engine, shared with the compatibility HTTP modules.
    pub fn engine(&self) -> (engine: &Arc<Engine<E>>)
        ensures
            **engine == self.spec_engine(),
    {
        &self.engine
    }

    /// The history that exchanges are appended to.
    pub fn history(&self) -> (history: &Arc<H>)
        ensures
            **history == self.spec_history(),
    {
        &self.history
    }

    /// Starts an exchange: the echo engine's reply is the message itself; an
    /// engine with sessions gets the raw turn under the conversation's key;
    /// any other needs the conversation first.
    pub fn send(&self, conversation_id: &str, content: String) -> (exchange: Exchange)
        ensures
            exchange@ == exchange_start(
                self.spec_engine().profile.name@,
                self.spec_engine().profile.supports_sessions,
                conversation_id@,
                content@,
            ),
    {
        let id = conversation_id.to_owned();
        if text::same(self.engine.profile.name, "echo") {
            let reply = content.clone();
            return Exchange::Appending { id, content, reply };
        }
        if self.engine.profile.supports_sessions {
            let request = CompletionRequest {
                prompt: content.clone(),
                model: None,
                max_tokens: None,
                temperature: None,
                seed: None,
                session_key: Some(conversation_id.to_owned()),
            };
            Exchange::Completing { id, content, request }
        } else {
            Exchange::Loading { id, content }
        }
    }
}

/// Where an exchange stands: what has to be done next, or how it failed.
#[derive(Debug)]
pub enum Exchange {
    /// The conversation `id` has to be read.
    Loading { id: String, content: String },
    /// The engine has to answer `request`.
    Completing { id: String, content: String, request: CompletionRequest },
    /// The user's `content` and the `reply` have to be appended to the
    /// conversation as one exchange, whose outcome is the outcome of all.
    Appending { id: String, content: String, reply: String },
    /// Nothing is appended.
    Failed { error: LiveError },
}

pub enum ExchangeView {
    Loading { id: Seq<char>, content: Seq<char> },
    Completing { id: Seq<char>, content: Seq<char>, request: inference::CompletionRequestView },
    Appending { id: Seq<char>, content: Seq<char>, reply: Seq<char> },
    Failed { error: LiveErrorView },
}

impl View for Exchange {
    type V = ExchangeView;

    open spec fn view(&self) -> ExchangeView {
        match self {
            Exchange::Loading { id, content } => ExchangeView::Loading {
                id: id@,
                content: content@,
            },
            Exchange::Completing { id, content, request } => ExchangeView::Completing {
                id: id@,
                content: content@,
                request: request@,
            },
            Exchange::Appending { id, content, reply } => ExchangeView::Appending {
                id: id@,
                content: content@,
                reply: reply@,
            },
            Exchange::Failed { error } => ExchangeView::Failed { error: error@ },
        }
    }
}

/// How an exchange starts with an engine of that name.
pub open spec fn exchange_start(
    engine: Seq<char>,
    keeps_sessions: bool,
    id: Seq<char>,
    content: Seq<char>,
) -> ExchangeView {
    if engine == "echo"@ {
        ExchangeView::Appending { id, content, reply: content }
    } else if keeps_sessions {
        ExchangeView::Completing {
            id,
            content,
            request: inference::CompletionRequestView {
                session_key: Some(id),
                ..inference::plain_request(content)
            },
        }
    } else {
        ExchangeView::Loading { id, content }
    }
}

/// The exchange once the conversation was read, or could not be.
pub open spec fn exchange_loaded(
    exchange: ExchangeView,
    read: Result<Seq<Turn>, LiveErrorView>,
) -> ExchangeView {
    match (exchange, read) {
        (ExchangeView::Loading { id, content }, Ok(turns)) => ExchangeView::Completing {
            id,
            content,
            request: inference::plain_request(transcript(turns.push(user_turn(content)))),
        },
        (ExchangeView::Loading { .. }, Err(error)) => ExchangeView::Failed { error },
        _ => exchange,
    }
}

/// The exchange once the engine answered, or failed.
pub open spec fn exchange_completed(
    exchange: ExchangeView,
    answer: Result<Seq<char>, LiveErrorView>,
) -> ExchangeView {
    match (exchange, answer) {
        (ExchangeView::Completing { id, content, .. }, Ok(reply)) => ExchangeView::Appending {
            id,
            content,
            reply,
        },
        (ExchangeView::Completing { .. }, Err(error)) => ExchangeView::Failed { error },
        _ => exchange,
    }
}

impl Exchange {
    /// The conversation was read, or could not be; an exchange that does not
    /// wait for it stays as it is.
    pub fn loaded(self, read: Result<Conversation, LiveError>) -> (next: Exchange)
        ensures
            next@ == exchange_loaded(
                self@,
                match read {
                    Ok(conversation) => Ok(conversation.turns()),
                    Err(error) => Err(error@),
                },
            ),
    {
        match self {
            Exchange::Loading { id, content } => match read {
                Ok(conversation) => {
                    let request = CompletionRequest {
                        prompt: render_transcript(&conversation, content.as_str()),
                        model: None,
                        max_tokens: None,
                        temperature: None,
                        seed: None,
                        session_key: None,
                    };
                    Exchange::Completing { id, content, request }
                },
                Err(error) => Exchange::Failed { error },
            },
            other => other,
        }
    }

    /// The engine answered, or failed; an exchange that does not wait for it
    /// stays as it is.
    pub fn completed(self, answer: Result<Completion, LiveError>) -> (next: Exchange)
        ensures
            next@ == exchange_completed(
                self@,
                match answer {
                    Ok(completion) => Ok(completion@.text),
                    Err(error) => Err(error@),
                },
            ),
    {
        match self {
            Exchange::Completing { id, content, request } => match answer {
                Ok(completion) => Exchange::Appending { id, content, reply: completion.text },
                Err(error) => Exchange::Failed { error },
            },
            other => other,
        }
    }
}

/// The echo engine answers a transcript with its newest turn, whatever came
/// before it, as long as that turn is one line.
pub proof fn law_echo_answers_the_newest_turn(turns: Seq<Turn>, content: Seq<char>)
    requires
        !content.contains('\n'),
    ensures
        echo::echoed(transcript(turns.push(user_turn(content)))) == content,
{
    reveal_strlit("\n");
    reveal_strlit("user: ");
    reveal_strlit("user");
    reveal_strlit(": ");
    let all = turns.push(user_turn(content));
    let parts = turn_lines(all);
    let line = turn_line(user_turn(content));
    let prompt = transcript(all);
    assert(parts.last() == line);
    assert(line =~= "user: "@ + content);
    assert(!line.contains('\n')) by {
        assert forall|i: int| 0 <= i < line.len() implies line[i] != '\n' by {
            if i >= 6 {
                assert(line[i] == content[i - 6]);
                assert(content.contains(content[i - 6]));
            }
        }
    }
    assert("\n"@ =~= seq!['\n']);
    let before = text::join(parts.drop_last(), "\n"@);
    text::lemma_last_line(before, line);
    if parts.len() == 1 {
        assert(prompt == line);
    } else {
        assert(prompt =~= before + seq!['\n'] + line);
    }
    let lines = text::lines(prompt);
    assert(lines.last() == line);
    assert("user: "@.is_prefix_of(line));
    assert(line.skip(6) =~= content);
}

/// An exchange comes to its end in three steps, and on the way neither the
/// conversation nor what the user said changes: what is recorded is that turn.
pub proof fn law_exchange_records_the_turn(
    engine: Seq<char>,
    keeps_sessions: bool,
    id: Seq<char>,
    content: Seq<char>,
    read: Result<Seq<Turn>, LiveErrorView>,
    answer: Result<Seq<char>, LiveErrorView>,
)
    ensures
        match exchange_completed(
            exchange_loaded(exchange_start(engine, keeps_sessions, id, content), read),
            answer,
        ) {
            ExchangeView::Appending { id: kept, content: said, reply } => {
                &&& kept == id
                &&& said == content
                &&& if engine == "echo"@ {
                    reply == content
                } else {
                    answer == Ok::<Seq<char>, LiveErrorView>(reply)
                }
            },
            ExchangeView::Failed { error } => {
                &&& engine != "echo"@
                &&& if !keeps_sessions && read is Err {
                    read == Err::<Seq<Turn>, LiveErrorView>(error)
                } else {
                    answer == Err::<Seq<char>, LiveErrorView>(error)
                }
            },
            _ => false,
        },
{
}

/// The lines of messages, each with who speaks and what is said.
pub open spec fn message_lines(messages: Seq<Message>) -> Seq<Seq<char>> {
    Seq::new(messages.len(), |i: int| messages[i].role@ + ": "@ + messages[i].content@)
}

/// An engine without sessions is asked with the whole conversation: one line
/// `role: content` for every stored message, in order, and then the new turn
/// of the user. Everything else is left to the engine.
pub proof fn law_history_reaches_the_engine<H, E>(
    service: ChatService<H, E>,
    conversation_id: &str,
    content: String,
    started: Exchange,
    conversation: Conversation,
    next: Exchange,
)
    requires
        service.spec_engine().profile.name@ != "echo"@,
        !service.spec_engine().profile.supports_sessions,
        call_ensures(ChatService::<H, E>::send, (&service, conversation_id, content), started),
        call_ensures(Exchange::loaded, (started, Ok(conversation)), next),
    ensures
        started matches Exchange::Loading { id, content: said } && id@ == conversation_id@ && said@
            == content@,
        next matches Exchange::Completing { id, content: said, request } && {
            &&& id@ == conversation_id@
            &&& said@ == content@
            &&& request.prompt@ == text::join(
                message_lines(conversation.messages@).push("user"@ + ": "@ + content@),
                "\n"@,
            )
            &&& request.model is None && request.max_tokens is None && request.temperature is None
            &&& request.seed is None && request.session_key is None
        },
{
    let said = message_lines(conversation.messages@).push("user"@ + ": "@ + content@);
    assert(turn_lines(conversation.turns().push(user_turn(content@))) =~= said);
}

/// What a stored message says stands in the prompt, whole, before the new
/// turn: for a conversation of one message more the prompt is longer by that
/// message's line and its end.
pub proof fn law_prompt_grows_by_the_message(
    messages: Seq<Message>,
    message: Message,
    line: Seq<char>,
)
    requires
        messages.len() > 0,
    ensures
        text::join(message_lines(messages.push(message)).push(line), "\n"@) == text::join(
            message_lines(messages),
            "\n"@,
        ) + "\n"@ + (message.role@ + ": "@ + message.content@) + "\n"@ + line,
{
    let lines = message_lines(messages);
    let one = message.role@ + ": "@ + message.content@;
    assert(message_lines(messages.push(message)) =~= lines.push(one));
    assert(lines.push(one).push(line).drop_last() =~= lines.push(one));
    assert(lines.push(one).drop_last() =~= lines);
    reveal_with_fuel(text::join, 3);
}

/// An engine with sessions is asked with the new turn alone, under the key of
/// the conversation.
pub proof fn law_session_gets_the_turn<H, E>(
    service: ChatService<H, E>,
    conversation_id: &str,
    content: String,
    started: Exchange,
)
    requires
        service.spec_engine().profile.name@ != "echo"@,
        service.spec_engine().profile.supports_sessions,
        call_ensures(ChatService::<H, E>::send, (&service, conversation_id, content), started),
    ensures
        started matches Exchange::Completing { id, content: said, request } && {
            &&& id@ == conversation_id@
            &&& said@ == content@
            &&& request.prompt@ == content@
            &&& request.session_key matches Some(key) && key@ == conversation_id@
            &&& request.model is None && request.max_tokens is None && request.temperature is None
            &&& request.seed is None
        },
{
}

/// The echo engine's exchange needs no engine: what the user said is the reply
/// too.
pub proof fn law_echo_replies_with_the_message<H, E>(
    service: ChatService<H, E>,
    conversation_id: &str,
    content: String,
    started: Exchange,
)
    requires
        service.spec_engine().profile.name@ == "echo"@,
        call_ensures(ChatService::<H, E>::send, (&service, conversation_id, content), started),
    ensures
        started matches Exchange::Appending { id, content: said, reply } && id@ == conversation_id@
            && said@ == content@ && reply@ == content@,
{
}

/// What is appended to a conversation is the user's turn with the engine's
/// whole text as its reply; a failure of the engine or of the history is the
/// failure of the exchange, and nothing is appended then.
pub proof fn law_reply_is_recorded_whole(
    id: String,
    content: String,
    request: CompletionRequest,
    answer: Result<Completion, LiveError>,
    next: Exchange,
    error: LiveError,
    unread: Exchange,
)
    requires
        call_ensures(
            Exchange::completed,
            (Exchange::Completing { id, content, request }, answer),
            next,
        ),
        call_ensures(Exchange::loaded, (Exchange::Loading { id, content }, Err(error)), unread),
    ensures
        match answer {
            Ok(completion) => next matches Exchange::Appending { id: kept, content: said, reply }
                && kept@ == id@ && said@ == content@ && reply@ == completion.text@,
            Err(failure) => next matches Exchange::Failed { error: told } && told@ == failure@,
        },
        unread matches Exchange::Failed { error: told } && told@ == error@,
{
}

/// A step that an exchange does not wait for changes nothing of it.
pub proof fn law_exchange_waits_for_its_own_step(
    exchange: Exchange,
    read: Result<Conversation, LiveError>,
    loaded: Exchange,
    answer: Result<Completion, LiveError>,
    completed: Exchange,
)
    requires
        call_ensures(Exchange::loaded, (exchange, read), loaded),
        call_ensures(Exchange::completed, (exchange, answer), completed),
    ensures
        exchange !is Loading ==> loaded@ == exchange@,
        exchange !is Completing ==> completed@ == exchange@,
{
}

/// A chat speaks with the engine and the history that it was made with, under
/// the engine's own name.
pub proof fn law_chat_keeps_its_parts<H, E>(
    history: Arc<H>,
    engine: Arc<Engine<E>>,
    service: ChatService<H, E>,
    name: &'static str,
)
    requires
        call_ensures(ChatService::<H, E>::new, (history, engine), service),
        call_ensures(ChatService::<H, E>::engine_name, (&service,), name),
    ensures
        service.spec_engine() == *engine,
        service.spec_history() == *history,
        name@ == engine.profile.name@,
{
}

/// A message renders as who speaks, a colon and a space, and what is said.
pub proof fn law_rendered_turn(role: &str, content: &str, line: String)
    requires
        call_ensures(rendered_turn, (role, content), line),
    ensures
        line@ == role@ + ": "@ + content@,
{
}

} // verus!
