//! Engine over the `weightc` command line: `weightc ask <artifact> <prompt>
//! --json`.
//!
//! With resident sessions on, a request that carries a session key goes to a
//! resident child, one per key, which holds the context: only the new turn is
//! sent. When a child dies or breaks the protocol, the request that finds it
//! out fails with an error that names the lost session, and the next request
//! on that key starts a fresh one.

use std::sync::Arc;
use vstd::prelude::*;
use crate::error::{LiveError, LiveErrorView};
use crate::inference;
use crate::inference::ndjson;
use crate::inference::{
    Completion, CompletionRequest, CompletionRequestView, CompletionView, InferenceConfig,
    EngineProfile, Rate, StreamKind, TokenUsage,
};
use crate::text;

verus! {

/// An engine behind a command. `C` is the catalog of imported models.
#[derive(Debug)]
pub struct WeightcEngine<C> {
    binary: String,
    timeout_secs: u64,
    catalog: Arc<C>,
    default_model: String,
    resident_sessions: bool,
    max_sessions: usize,
    mailbox_capacity: usize,
}

pub struct WeightcEngineView<C> {
    pub binary: Seq<char>,
    pub timeout_secs: u64,
    pub catalog: C,
    pub default_model: Seq<char>,
    pub resident_sessions: bool,
    pub max_sessions: usize,
    pub mailbox_capacity: usize,
}

impl<C> View for WeightcEngine<C> {
    type V = WeightcEngineView<C>;

    closed spec fn view(&self) -> WeightcEngineView<C> {
        WeightcEngineView {
            binary: self.binary@,
            timeout_secs: self.timeout_secs,
            catalog: *self.catalog,
            default_model: self.default_model@,
            resident_sessions: self.resident_sessions,
            max_sessions: self.max_sessions,
            mailbox_capacity: self.mailbox_capacity,
        }
    }
}

impl<C> WeightcEngine<C> {
    pub fn name(&self) -> (name: &'static str)
        ensures
            name@ == "weightc"@,
    {
        "weightc"
    }

    pub fn supports_sessions(&self) -> (yes: bool)
        ensures
            yes == self@.resident_sessions,
    {
        self.resident_sessions
    }

    pub fn stream_kind(&self) -> (kind: StreamKind)
        ensures
            kind == StreamKind::Buffered,
    {
        StreamKind::Buffered
    }

    pub fn profile(&self) -> (profile: EngineProfile)
        ensures
            profile.name@ == "weightc"@,
            profile.supports_sessions == self@.resident_sessions,
            profile.stream_kind == StreamKind::Buffered,
    {
        EngineProfile {
            name: self.name(),
            supports_sessions: self.supports_sessions(),
            stream_kind: self.stream_kind(),
        }
    }
}

/// Where a request is served.
#[derive(Debug)]
pub enum Route {
    /// By the resident session of this key.
    Resident { key: String },
    /// By a command of its own.
    OneShot,
}

/// One turn of a resident session.
#[derive(Debug)]
pub struct SessionTurn {
    pub prompt: String,
    pub system: Option<String>,
}

/// Everything a session needs to start its child. `P` is a path.
#[derive(Debug)]
pub struct SessionSpec<P> {
    pub binary: String,
    pub artifact: P,
    /// Sampling flags of the first turn, fixed for the life of the session.
    pub sampling: Vec<String>,
    pub timeout_secs: u64,
    pub model: String,
}

/// A session that is to be started, and the bounds of the table it goes into.
#[derive(Debug)]
pub struct SessionStart<P> {
    pub key: String,
    pub session: SessionSpec<P>,
    pub max_sessions: usize,
    pub mailbox_capacity: usize,
}

/// What stands between a request and the session of its key.
#[derive(Debug)]
pub enum SessionNeed<A> {
    /// Nothing: the session is there.
    Ready { session: A },
    /// The artifact of this model, to start a session on.
    Artifact { model: String },
    /// A session cannot be started.
    Failed { error: LiveError },
}

/// What a session gives back for a turn.
#[derive(Debug)]
pub enum SessionReply {
    /// An outcome, and whether the session is still alive.
    Answered { alive: bool, result: Result<Completion, LiveError> },
    /// The session could not be asked.
    Unavailable { error: String },
}

/// One argument of a command.
#[derive(Debug)]
pub enum AskArg<P> {
    Text(String),
    Path(P),
}

/// A command that asks once.
#[derive(Debug)]
pub struct AskCall<P> {
    pub binary: String,
    pub args: Vec<AskArg<P>>,
    pub timeout_secs: u64,
}

/// What the command prints. The name of the field that holds the text varies.
#[derive(Debug)]
pub struct WeightcAskOutput {
    pub response: Option<String>,
    pub text: Option<String>,
    pub output: Option<String>,
    pub tokens_per_second: Option<Rate>,
    pub prompt_tokens: Option<u64>,
    pub completion_tokens: Option<u64>,
}

/// What became of a command.
#[derive(Debug)]
pub enum AskOutcome {
    TimedOut,
    NotStarted { error: String },
    /// It reported failure; `tail` is the end of its complaint.
    Failed { status: String, tail: String },
    /// What it printed cannot be parsed.
    Unreadable { failure: LiveError },
    Printed { output: WeightcAskOutput },
}

/// What a result says.
pub open spec fn outcome(result: Result<Completion, LiveError>) -> Result<
    CompletionView,
    LiveErrorView,
> {
    match result {
        Ok(completion) => Ok(completion@),
        Err(error) => Err(error@),
    }
}

/// The text that a command printed: the first of the three fields that is
/// there.
pub open spec fn printed_text(output: WeightcAskOutput) -> Option<Seq<char>> {
    if output.response is Some {
        text::opt(output.response)
    } else if output.text is Some {
        text::opt(output.text)
    } else {
        text::opt(output.output)
    }
}

/// What a request gets for what became of its command.
pub open spec fn ask_result(
    binary: Seq<char>,
    timeout_secs: u64,
    model: Seq<char>,
    outcome: AskOutcome,
    elapsed_millis: u64,
) -> Result<CompletionView, LiveErrorView> {
    match outcome {
        AskOutcome::TimedOut => Err(
            LiveErrorView::Transport(
                "weightc ask timed out after "@ + text::decimal(timeout_secs as nat) + "s"@,
            ),
        ),
        AskOutcome::NotStarted { error } => Err(
            LiveErrorView::Transport("failed to start "@ + binary + ": "@ + error@),
        ),
        AskOutcome::Failed { status, tail } => Err(
            LiveErrorView::Io("weightc ask failed ("@ + status@ + "): "@ + tail@),
        ),
        AskOutcome::Unreadable { failure } => Err(failure@),
        AskOutcome::Printed { output } => match printed_text(output) {
            Some(answer) => Ok(
                inference::local_completion(
                    answer,
                    model,
                    output.tokens_per_second,
                    elapsed_millis,
                    inference::usage_of(output.prompt_tokens, output.completion_tokens),
                ),
            ),
            None => Err(
                LiveErrorView::Protocol(
                    "weightc --json output has no response, text, or output field"@,
                ),
            ),
        },
    }
}

/// The refusal of an engine that has no model to work with.
pub open spec fn no_model() -> LiveErrorView {
    LiveErrorView::Capability(
        "the weightc engine requires inference.default_model to name an imported model"@,
    )
}

/// The sampling flags that a request gives: only what it carries, in this
/// order.
pub open spec fn sampling_flags(request: CompletionRequestView) -> Seq<Seq<char>> {
    let max_tokens = match request.max_tokens {
        Some(n) => seq!["--max-tokens"@, text::decimal(n as nat)],
        None => seq![],
    };
    let temperature = match request.temperature {
        Some(t) => seq!["--temperature"@, t.numeral@],
        None => seq![],
    };
    let seed = match request.seed {
        Some(n) => seq!["--seed"@, text::decimal(n as nat)],
        None => seq![],
    };
    max_tokens + temperature + seed
}

fn push_flag(args: &mut Vec<String>, flag: &str, value: String)
    ensures
        text::texts(final(args)@) == text::texts(old(args)@) + seq![flag@, value@],
{
    let ghost before = args@;
    let name = flag.to_owned();
    proof {
        text::lemma_texts_push(before, name);
        text::lemma_texts_push(before.push(name), value);
        assert(text::texts(before).push(name@).push(value@) =~= text::texts(before) + seq![
            flag@,
            value@,
        ]);
    }
    args.push(name);
    args.push(value);
}

/// The sampling flags that are fixed when a session starts.
pub fn sampling_args(request: &CompletionRequest) -> (args: Vec<String>)
    ensures
        text::texts(args@) == sampling_flags(request@),
{
    let mut args: Vec<String> = Vec::new();
    assert(text::texts(args@) =~= seq![]);
    if let Some(max_tokens) = request.max_tokens {
        let n: u64 = max_tokens as u64;
        push_flag(&mut args, "--max-tokens", text::decimal_text(n));
    }
    if let Some(temperature) = &request.temperature {
        push_flag(&mut args, "--temperature", temperature.numeral.clone());
    }
    if let Some(seed) = request.seed {
        push_flag(&mut args, "--seed", text::decimal_text(seed));
    }
    assert(text::texts(args@) =~= sampling_flags(request@));
    args
}

/// What a command complained of, without the white space around it.
pub fn complaint(stderr: &[u8]) -> (said: String)
    ensures
        said@ == text::trim(ndjson::text_of(stderr@)),
{
    let decoded = ndjson::utf8_lossy(stderr);
    trimmed_complaint(decoded.as_str())
}

/// A decoded complaint without the white space around it.
pub fn trimmed_complaint(decoded: &str) -> (said: String)
    ensures
        said@ == text::trim(decoded@),
{
    text::trimmed(decoded).to_owned()
}

impl<C> WeightcEngine<C> {
    /// An engine. A session table holds at least one session, and a mailbox at
    /// least one message.
    pub fn new(config: &InferenceConfig, catalog: Arc<C>, mailbox_capacity: usize) -> (engine: Self)
        ensures
            engine@ == (WeightcEngineView {
                binary: config.weightc_path@,
                timeout_secs: config.request_timeout_secs,
                catalog: *catalog,
                default_model: config.default_model@,
                resident_sessions: config.resident_sessions,
                max_sessions: if config.max_resident_sessions >= 1 {
                    config.max_resident_sessions
                } else {
                    1
                },
                mailbox_capacity: if mailbox_capacity >= 1 {
                    mailbox_capacity
                } else {
                    1
                },
            }),
    {
        WeightcEngine {
            binary: config.weightc_path.clone(),
            timeout_secs: config.request_timeout_secs,
            catalog,
            default_model: config.default_model.clone(),
            resident_sessions: config.resident_sessions,
            max_sessions: if config.max_resident_sessions >= 1 {
                config.max_resident_sessions
            } else {
                1
            },
            mailbox_capacity: if mailbox_capacity >= 1 {
                mailbox_capacity
            } else {
                1
            },
        }
    }

    /// The catalog of imported models.
    pub fn catalog(&self) -> (catalog: &Arc<C>)
        ensures
            **catalog == self@.catalog,
    {
        &self.catalog
    }

    /// The model whose artifact a request runs on.
    pub fn artifact_dir(&self) -> (model: Result<String, LiveError>)
        ensures
            if text::trim(self@.default_model).len() == 0 {
                model matches Err(error) && error@ == no_model()
            } else {
                model matches Ok(model) && model@ == self@.default_model
            },
    {
        if text::is_blank(self.default_model.as_str()) {
            return Err(
                LiveError::Capability(
                    "the weightc engine requires inference.default_model to name an imported model".to_owned(),
                ),
            );
        }
        Ok(self.default_model.clone())
    }

    /// Where a request is served: by a session when sessions are on and it
    /// names one, else on its own.
    pub fn complete(&self, request: &CompletionRequest) -> (route: Route)
        ensures
            match request@.session_key {
                Some(key) if self@.resident_sessions => {
                    route matches Route::Resident { key: named } && named@ == key
                },
                _ => route is OneShot,
            },
    {
        if self.resident_sessions {
            if let Some(key) = &request.session_key {
                return Route::Resident { key: key.clone() };
            }
        }
        Route::OneShot
    }

    /// What a request on a key needs, given the session that is there for it.
    pub fn session_actor<A>(&self, resident: Option<A>) -> (need: SessionNeed<A>)
        ensures
            match resident {
                Some(session) => need == (SessionNeed::Ready { session }),
                None => if text::trim(self@.default_model).len() == 0 {
                    need matches SessionNeed::Failed { error } && error@ == no_model()
                } else {
                    need matches SessionNeed::Artifact { model } && model@ == self@.default_model
                },
            },
    {
        match resident {
            Some(session) => SessionNeed::Ready { session },
            None => match self.artifact_dir() {
                Ok(model) => SessionNeed::Artifact { model },
                Err(error) => SessionNeed::Failed { error },
            },
        }
    }

    /// The session that is started for the first turn on a key.
    pub fn session_start<P>(&self, key: &str, artifact: P, request: &CompletionRequest) -> (start:
        SessionStart<P>)
        ensures
            start.key@ == key@,
            start.session.binary@ == self@.binary,
            start.session.artifact == artifact,
            text::texts(start.session.sampling@) == sampling_flags(request@),
            start.session.timeout_secs == self@.timeout_secs,
            start.session.model@ == self@.default_model,
            start.max_sessions == self@.max_sessions,
            start.mailbox_capacity == self@.mailbox_capacity,
    {
        SessionStart {
            key: key.to_owned(),
            session: SessionSpec {
                binary: self.binary.clone(),
                artifact,
                sampling: sampling_args(request),
                timeout_secs: self.timeout_secs,
                model: self.default_model.clone(),
            },
            max_sessions: self.max_sessions,
            mailbox_capacity: self.mailbox_capacity,
        }
    }

    /// The command of a request that no session serves. Its sampling options
    /// are not passed on.
    pub fn ask<P>(&self, artifact: P, request: &CompletionRequest) -> (call: AskCall<P>)
        ensures
            call.binary@ == self@.binary,
            call.timeout_secs == self@.timeout_secs,
            call.args@.len() == 4,
            call.args@[0] matches AskArg::Text(t) && t@ == "ask"@,
            call.args@[1] == AskArg::Path(artifact),
            call.args@[2] matches AskArg::Text(t) && t@ == request@.prompt,
            call.args@[3] matches AskArg::Text(t) && t@ == "--json"@,
    {
        let mut args: Vec<AskArg<P>> = Vec::new();
        args.push(AskArg::Text("ask".to_owned()));
        args.push(AskArg::Path(artifact));
        args.push(AskArg::Text(request.prompt.clone()));
        args.push(AskArg::Text("--json".to_owned()));
        AskCall { binary: self.binary.clone(), args, timeout_secs: self.timeout_secs }
    }

    /// What a request gets for what became of its command.
    pub fn complete_one_shot(&self, outcome: AskOutcome, elapsed_millis: u64) -> (result: Result<
        Completion,
        LiveError,
    >)
        ensures
            self::outcome(result) == ask_result(
                self@.binary,
                self@.timeout_secs,
                self@.default_model,
                outcome,
                elapsed_millis,
            ),
    {
        match outcome {
            AskOutcome::TimedOut => {
                let mut message = text::concat(
                    "weightc ask timed out after ",
                    text::decimal_text(self.timeout_secs).as_str(),
                );
                message.append("s");
                Err(LiveError::Transport(message))
            },
            AskOutcome::NotStarted { error } => {
                let mut message = text::concat("failed to start ", self.binary.as_str());
                message.append(": ");
                message.append(error.as_str());
                Err(LiveError::Transport(message))
            },
            AskOutcome::Failed { status, tail } => {
                let mut message = text::concat("weightc ask failed (", status.as_str());
                message.append("): ");
                message.append(tail.as_str());
                Err(LiveError::Io(message))
            },
            AskOutcome::Unreadable { failure } => Err(failure),
            AskOutcome::Printed { output } => {
                let usage = TokenUsage::from_counts(
                    output.prompt_tokens,
                    output.completion_tokens,
                );
                let rate = output.tokens_per_second;
                let answer = match output.response {
                    Some(response) => Some(response),
                    None => match output.text {
                        Some(text) => Some(text),
                        None => output.output,
                    },
                };
                match answer {
                    Some(answer) => Ok(
                        Completion::local(
                            answer,
                            self.default_model.clone(),
                            rate,
                            elapsed_millis,
                            usage,
                        ),
                    ),
                    None => Err(
                        LiveError::Protocol(
                            "weightc --json output has no response, text, or output field".to_owned(),
                        ),
                    ),
                }
            },
        }
    }
}

/// The turn that a session is sent: the prompt alone, since the session holds
/// what came before.
pub fn session_turn(request: &CompletionRequest) -> (turn: SessionTurn)
    ensures
        turn.prompt@ == request@.prompt,
        turn.system is None,
{
    SessionTurn { prompt: request.prompt.clone(), system: None }
}

/// What a session's reply means: whether the session is to be dropped, so that
/// the next request on its key starts a fresh one, and what the request gets.
pub fn complete_resident(key: &str, reply: SessionReply) -> (settled: (
    bool,
    Result<Completion, LiveError>,
))
    ensures
        match reply {
            SessionReply::Answered { alive, result } => settled.0 == !alive && settled.1 == result,
            SessionReply::Unavailable { error } => settled.0 && (settled.1 matches Err(e) && e@
                == LiveErrorView::Transport(
                "weightc session "@ + key@ + " actor is unavailable: "@ + error@,
            )),
        },
{
    match reply {
        SessionReply::Answered { alive, result } => (!alive, result),
        SessionReply::Unavailable { error } => {
            let mut message = text::concat("weightc session ", key);
            message.append(" actor is unavailable: ");
            message.append(error.as_str());
            (true, Err(LiveError::Transport(message)))
        },
    }
}

/// A command of its own gets the configured binary and time, and the prompt of
/// the request, whole, as one argument.
pub proof fn law_command_carries_the_prompt<C, P>(
    config: InferenceConfig,
    catalog: Arc<C>,
    mailbox_capacity: usize,
    engine: WeightcEngine<C>,
    artifact: P,
    request: CompletionRequest,
    call: AskCall<P>,
)
    requires
        call_ensures(WeightcEngine::<C>::new, (&config, catalog, mailbox_capacity), engine),
        call_ensures(WeightcEngine::<C>::ask::<P>, (&engine, artifact, &request), call),
    ensures
        call.binary@ == config.weightc_path@,
        call.timeout_secs == config.request_timeout_secs,
        call.args@.len() == 4,
        call.args@[0] matches AskArg::Text(word) && word@ == "ask"@,
        call.args@[1] matches AskArg::Path(path) && path == artifact,
        call.args@[2] matches AskArg::Text(prompt) && prompt@ == request.prompt@,
        call.args@[3] matches AskArg::Text(flag) && flag@ == "--json"@,
{
}

/// A session starts on the configured model with the sampling flags of its
/// first turn; its table and its mailbox have room for one at least.
pub proof fn law_session_starts_as_configured<C, P>(
    config: InferenceConfig,
    catalog: Arc<C>,
    mailbox_capacity: usize,
    engine: WeightcEngine<C>,
    key: &str,
    artifact: P,
    request: CompletionRequest,
    start: SessionStart<P>,
    args: Vec<String>,
)
    requires
        call_ensures(WeightcEngine::<C>::new, (&config, catalog, mailbox_capacity), engine),
        call_ensures(
            WeightcEngine::<C>::session_start::<P>,
            (&engine, key, artifact, &request),
            start,
        ),
        call_ensures(sampling_args, (&request,), args),
    ensures
        start.key@ == key@,
        start.session.binary@ == config.weightc_path@,
        start.session.artifact == artifact,
        start.session.timeout_secs == config.request_timeout_secs,
        start.session.model@ == config.default_model@,
        text::texts(start.session.sampling@) == text::texts(args@),
        start.max_sessions >= 1 && start.mailbox_capacity >= 1,
        config.max_resident_sessions >= 1 ==> start.max_sessions == config.max_resident_sessions,
        config.max_resident_sessions < 1 ==> start.max_sessions == 1,
        mailbox_capacity >= 1 ==> start.mailbox_capacity == mailbox_capacity,
        mailbox_capacity < 1 ==> start.mailbox_capacity == 1,
{
}

/// Each sampling option that a request gives is one flag with its value right
/// behind it; an option that it does not give is no flag.
pub proof fn law_sampling_flags_carry_their_values(request: CompletionRequest, args: Vec<String>)
    requires
        call_ensures(sampling_args, (&request,), args),
    ensures
        ({
            let given = text::texts(args@);
            let after_tokens: int = if request.max_tokens is Some {
                2
            } else {
                0
            };
            let after_temperature: int = after_tokens + if request.temperature is Some {
                2int
            } else {
                0
            };
            &&& given.len() == after_temperature + if request.seed is Some {
                2int
            } else {
                0
            }
            &&& request.max_tokens matches Some(n) ==> given[0] == "--max-tokens"@ && given[1]
                == text::decimal(n as nat)
            &&& request.temperature matches Some(t) ==> given[after_tokens] == "--temperature"@
                && given[after_tokens + 1] == t.numeral@
            &&& request.seed matches Some(n) ==> given[after_temperature] == "--seed"@
                && given[after_temperature + 1] == text::decimal(n as nat)
        }),
{
}

/// What a command printed becomes a completion: the whole of the first text
/// that is there, of `response`, `text` and `output`, under the configured
/// model, with the counts where both are there.
pub proof fn law_printed_text_is_the_answer<C>(
    config: InferenceConfig,
    catalog: Arc<C>,
    mailbox_capacity: usize,
    engine: WeightcEngine<C>,
    output: WeightcAskOutput,
    elapsed_millis: u64,
    result: Result<Completion, LiveError>,
)
    requires
        call_ensures(WeightcEngine::<C>::new, (&config, catalog, mailbox_capacity), engine),
        call_ensures(
            WeightcEngine::<C>::complete_one_shot,
            (&engine, AskOutcome::Printed { output }, elapsed_millis),
            result,
        ),
    ensures
        result is Ok <==> output.response is Some || output.text is Some || output.output is Some,
        result matches Err(error) ==> error@ is Protocol,
        result matches Ok(completion) ==> {
            &&& output.response matches Some(answer) ==> completion.text@ == answer@
            &&& output.response is None ==> (output.text matches Some(answer) ==> completion.text@
                == answer@)
            &&& output.response is None && output.text is None ==> (output.output matches Some(
                answer,
            ) ==> completion.text@ == answer@)
            &&& completion.model@ == config.default_model@
            &&& completion.elapsed_millis == elapsed_millis
            &&& completion.tokens_per_second == output.tokens_per_second
            &&& completion.usage is Some <==> output.prompt_tokens is Some
                && output.completion_tokens is Some
            &&& completion.usage matches Some(counts) ==> output.prompt_tokens == Some(
                counts.prompt_tokens,
            ) && output.completion_tokens == Some(counts.completion_tokens)
        },
{
}

/// A command that gave no output fails the request, with what is known of it.
pub proof fn law_failed_command_fails_the_request<C>(
    engine: WeightcEngine<C>,
    outcome: AskOutcome,
    elapsed_millis: u64,
    result: Result<Completion, LiveError>,
)
    requires
        outcome !is Printed,
        call_ensures(
            WeightcEngine::<C>::complete_one_shot,
            (&engine, outcome, elapsed_millis),
            result,
        ),
    ensures
        result matches Err(told) && match outcome {
            AskOutcome::TimedOut => told@ == LiveErrorView::Transport(
                "weightc ask timed out after "@ + text::decimal(engine@.timeout_secs as nat)
                    + "s"@,
            ),
            AskOutcome::NotStarted { error } => told@ == LiveErrorView::Transport(
                "failed to start "@ + engine@.binary + ": "@ + error@,
            ),
            AskOutcome::Failed { status, tail } => told@ == LiveErrorView::Io(
                "weightc ask failed ("@ + status@ + "): "@ + tail@,
            ),
            AskOutcome::Unreadable { failure } => told@ == failure@,
            AskOutcome::Printed { .. } => false,
        },
{
}

/// A request goes to a session exactly when sessions are on and it names one,
/// and then to the one that it names. The engine says of itself whether they
/// are on.
pub proof fn law_sessions_serve_what_names_them<C>(
    config: InferenceConfig,
    catalog: Arc<C>,
    mailbox_capacity: usize,
    engine: WeightcEngine<C>,
    profile: EngineProfile,
    request: CompletionRequest,
    route: Route,
)
    requires
        call_ensures(WeightcEngine::<C>::new, (&config, catalog, mailbox_capacity), engine),
        call_ensures(WeightcEngine::<C>::profile, (&engine,), profile),
        call_ensures(WeightcEngine::<C>::complete, (&engine, &request), route),
    ensures
        profile.name@ == "weightc"@ && profile.stream_kind is Buffered,
        profile.supports_sessions == config.resident_sessions,
        route is Resident <==> config.resident_sessions && request.session_key is Some,
        route matches Route::Resident { key } ==> key@ == request.session_key->0@,
{
}

/// Requests run on the configured model, and only where there is one. A session
/// that is there is used as it is.
pub proof fn law_requests_run_on_the_configured_model<C, A>(
    config: InferenceConfig,
    catalog: Arc<C>,
    mailbox_capacity: usize,
    engine: WeightcEngine<C>,
    model: Result<String, LiveError>,
    resident: Option<A>,
    need: SessionNeed<A>,
)
    requires
        call_ensures(WeightcEngine::<C>::new, (&config, catalog, mailbox_capacity), engine),
        call_ensures(WeightcEngine::<C>::artifact_dir, (&engine,), model),
        call_ensures(WeightcEngine::<C>::session_actor::<A>, (&engine, resident), need),
    ensures
        model is Ok <==> exists|i: int|
            0 <= i < config.default_model@.len() && !text::white_space(
                #[trigger] config.default_model@[i],
            ),
        model matches Ok(name) ==> name@ == config.default_model@,
        model matches Err(error) ==> error@ is Capability,
        match resident {
            Some(session) => need matches SessionNeed::Ready { session: used } && used == session,
            None => match model {
                Ok(name) => need matches SessionNeed::Artifact { model: asked } && asked@ == name@,
                Err(error) => need matches SessionNeed::Failed { error: told } && told@ == error@,
            },
        },
{
    text::lemma_blank(config.default_model@);
}

/// A session is sent the prompt of the request, whole, and its reply is what
/// the request gets. It is dropped exactly when it is no longer alive.
pub proof fn law_session_is_sent_the_prompt(
    request: CompletionRequest,
    turn: SessionTurn,
    key: &str,
    reply: SessionReply,
    settled: (bool, Result<Completion, LiveError>),
)
    requires
        call_ensures(session_turn, (&request,), turn),
        call_ensures(complete_resident, (key, reply), settled),
    ensures
        turn.prompt@ == request.prompt@,
        turn.system is None,
        match reply {
            SessionReply::Answered { alive, result } => settled.0 == !alive && settled.1 == result,
            SessionReply::Unavailable { error } => settled.0 && (settled.1 matches Err(told)
                && told@ == LiveErrorView::Transport(
                "weightc session "@ + key@ + " actor is unavailable: "@ + error@,
            )),
        },
{
}

/// A complaint is told without the white space around it and else as it was
/// printed.
pub proof fn law_complaint_is_told(
    stderr: &[u8],
    before: Seq<char>,
    kept: Seq<char>,
    after: Seq<char>,
    said: String,
)
    requires
        vstd::utf8::valid_utf8(stderr@),
        vstd::utf8::decode_utf8(stderr@) == before + kept + after,
        forall|i: int| 0 <= i < before.len() ==> text::white_space(#[trigger] before[i]),
        forall|i: int| 0 <= i < after.len() ==> text::white_space(#[trigger] after[i]),
        kept.len() > 0 ==> !text::white_space(kept[0]) && !text::white_space(kept.last()),
        call_ensures(complaint, (stderr,), said),
    ensures
        said@ == kept,
{
    text::law_trim_keeps_what_stands_between(before, kept, after);
}

} // verus!
