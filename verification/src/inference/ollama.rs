//! Ollama-compatible HTTP engine (`POST {endpoint}/api/generate`).

use vstd::prelude::*;
use crate::error::{LiveError, LiveErrorView};
use crate::inference;
use crate::inference::{
    Completion, CompletionEvent, CompletionEventView, CompletionRequest, CompletionRequestView,
    CompletionSummary, CompletionSummaryView, InferenceConfig, EngineProfile, Rate, StreamKind,
    Temperature, TokenUsage,
};
use crate::inference::ndjson;
use crate::inference::ndjson::LineBuffer;
use crate::models;
use crate::models::{ModelInfo, ModelInfoView};
use crate::text;

verus! {

/// Cap on a single buffered NDJSON line while streaming: generous for a line
/// of a few hundred bytes, and a bound for an upstream that never sends a
/// newline.
pub const MAX_STREAM_LINE_BYTES: usize = 1_048_576;

/// An engine behind an HTTP endpoint.
#[derive(Debug)]
pub struct OllamaEngine {
    endpoint: String,
    model: String,
    timeout_secs: u64,
}

/// What a time limit bounds.
#[derive(Debug, Clone, Copy, PartialEq, Eq, Structural)]
pub enum Deadline {
    /// The whole request, with the reading of its answer.
    Whole { secs: u64 },
    /// Each single read: the limit is on silence.
    EachRead { secs: u64 },
}

/// The time limit of a request. A stream may run for as long as text keeps
/// arriving; a buffered answer has to be there in time.
pub fn deadline(stream: bool, secs: u64) -> (deadline: Deadline)
    ensures
        deadline == deadline_of(stream, secs),
{
    if stream {
        Deadline::EachRead { secs }
    } else {
        Deadline::Whole { secs }
    }
}

/// The time limit of a request that streams, or does not.
pub open spec fn deadline_of(stream: bool, secs: u64) -> Deadline {
    if stream {
        Deadline::EachRead { secs }
    } else {
        Deadline::Whole { secs }
    }
}

impl OllamaEngine {
    pub fn name(&self) -> (name: &'static str)
        ensures
            name@ == "ollama"@,
    {
        "ollama"
    }

    pub fn supports_sessions(&self) -> (yes: bool)
        ensures
            yes == false,
    {
        false
    }

    pub fn stream_kind(&self) -> (kind: StreamKind)
        ensures
            kind == StreamKind::Native,
    {
        StreamKind::Native
    }

    pub fn profile(&self) -> (profile: EngineProfile)
        ensures
            profile.name@ == "ollama"@,
            profile.supports_sessions == false,
            profile.stream_kind == StreamKind::Native,
    {
        EngineProfile {
            name: self.name(),
            supports_sessions: self.supports_sessions(),
            stream_kind: self.stream_kind(),
        }
    }
}

/// What can go wrong between the engine and its endpoint, with what the HTTP
/// client says of it.
#[derive(Debug)]
pub enum OllamaFault {
    BuildClient { error: String },
    BuildStreamClient { error: String },
    SendGenerate { error: String },
    /// The endpoint refused; `tail` is the end of what it said.
    GenerateStatus { status: String, tail: String },
    ParseGenerate { error: String },
    ReadStream { error: String },
    LineTooLong,
    ParseLine { error: String },
    StreamCut,
    SendTags { error: String },
    TagsStatus { status: String },
    ParseTags { error: String },
}

/// The failure that a fault is reported as: what did not get through is a
/// transport failure, what came through and made no sense a protocol one.
pub open spec fn fault_error(fault: OllamaFault) -> LiveErrorView {
    match fault {
        OllamaFault::BuildClient { error } => LiveErrorView::Transport(
            "build ollama client: "@ + error@,
        ),
        OllamaFault::BuildStreamClient { error } => LiveErrorView::Transport(
            "build ollama streaming client: "@ + error@,
        ),
        OllamaFault::SendGenerate { error } => LiveErrorView::Transport(
            "ollama generate: "@ + error@,
        ),
        OllamaFault::GenerateStatus { status, tail } => LiveErrorView::Transport(
            "ollama generate failed ("@ + status@ + "): "@ + tail@,
        ),
        OllamaFault::ParseGenerate { error } => LiveErrorView::Protocol(
            "parse ollama response: "@ + error@,
        ),
        OllamaFault::ReadStream { error } => LiveErrorView::Transport(
            "ollama stream failed: "@ + error@,
        ),
        OllamaFault::LineTooLong => LiveErrorView::Protocol(
            "ollama stream line exceeded "@ + text::decimal(MAX_STREAM_LINE_BYTES as nat)
                + " bytes without a newline"@,
        ),
        OllamaFault::ParseLine { error } => LiveErrorView::Protocol(
            "parse ollama stream line: "@ + error@,
        ),
        OllamaFault::StreamCut => LiveErrorView::Protocol(
            "ollama stream ended before a done line"@,
        ),
        OllamaFault::SendTags { error } => LiveErrorView::Transport("ollama tags: "@ + error@),
        OllamaFault::TagsStatus { status } => LiveErrorView::Transport(
            "ollama tags failed ("@ + status@ + ")"@,
        ),
        OllamaFault::ParseTags { error } => LiveErrorView::Protocol(
            "parse ollama tags: "@ + error@,
        ),
    }
}

impl OllamaFault {
    /// The failure that the fault is reported as.
    pub fn report(self) -> (error: LiveError)
        ensures
            error@ == fault_error(self),
    {
        match self {
            OllamaFault::BuildClient { error } => LiveError::Transport(
                text::concat("build ollama client: ", error.as_str()),
            ),
            OllamaFault::BuildStreamClient { error } => LiveError::Transport(
                text::concat("build ollama streaming client: ", error.as_str()),
            ),
            OllamaFault::SendGenerate { error } => LiveError::Transport(
                text::concat("ollama generate: ", error.as_str()),
            ),
            OllamaFault::GenerateStatus { status, tail } => {
                let mut message = text::concat("ollama generate failed (", status.as_str());
                message.append("): ");
                message.append(tail.as_str());
                LiveError::Transport(message)
            },
            OllamaFault::ParseGenerate { error } => LiveError::Protocol(
                text::concat("parse ollama response: ", error.as_str()),
            ),
            OllamaFault::ReadStream { error } => LiveError::Transport(
                text::concat("ollama stream failed: ", error.as_str()),
            ),
            OllamaFault::LineTooLong => {
                let cap: u64 = MAX_STREAM_LINE_BYTES as u64;
                let mut message = text::concat(
                    "ollama stream line exceeded ",
                    text::decimal_text(cap).as_str(),
                );
                message.append(" bytes without a newline");
                LiveError::Protocol(message)
            },
            OllamaFault::ParseLine { error } => LiveError::Protocol(
                text::concat("parse ollama stream line: ", error.as_str()),
            ),
            OllamaFault::StreamCut => LiveError::Protocol(
                "ollama stream ended before a done line".to_owned(),
            ),
            OllamaFault::SendTags { error } => LiveError::Transport(
                text::concat("ollama tags: ", error.as_str()),
            ),
            OllamaFault::TagsStatus { status } => {
                let mut message = text::concat("ollama tags failed (", status.as_str());
                message.append(")");
                LiveError::Transport(message)
            },
            OllamaFault::ParseTags { error } => LiveError::Protocol(
                text::concat("parse ollama tags: ", error.as_str()),
            ),
        }
    }
}

/// Sampling options of a generation.
#[derive(Debug)]
pub struct GenerateOptions {
    pub num_predict: Option<u32>,
    pub temperature: Option<Temperature>,
    pub seed: Option<u64>,
}

/// The body and the target of a generation.
#[derive(Debug)]
pub struct GenerateCall {
    pub url: String,
    pub model: String,
    pub prompt: String,
    /// Whether the answer streams.
    pub stream: bool,
    pub options: Option<GenerateOptions>,
    pub deadline: Deadline,
}

pub struct GenerateCallView {
    pub url: Seq<char>,
    pub model: Seq<char>,
    pub prompt: Seq<char>,
    pub stream: bool,
    pub options: Option<GenerateOptions>,
    pub deadline: Deadline,
}

impl View for GenerateCall {
    type V = GenerateCallView;

    open spec fn view(&self) -> GenerateCallView {
        GenerateCallView {
            url: self.url@,
            model: self.model@,
            prompt: self.prompt@,
            stream: self.stream,
            options: self.options,
            deadline: self.deadline,
        }
    }
}

/// The options that a request gives; none at all when it gives none.
pub open spec fn generate_options(request: CompletionRequestView) -> Option<GenerateOptions> {
    if request.max_tokens is None && request.temperature is None && request.seed is None {
        None
    } else {
        Some(
            GenerateOptions {
                num_predict: request.max_tokens,
                temperature: request.temperature,
                seed: request.seed,
            },
        )
    }
}

/// The generation that `request` asks of `model` at `endpoint`.
pub open spec fn generate_call(
    endpoint: Seq<char>,
    model: Seq<char>,
    request: CompletionRequestView,
    stream: bool,
    timeout_secs: u64,
) -> GenerateCallView {
    GenerateCallView {
        url: endpoint + "/api/generate"@,
        model,
        prompt: request.prompt,
        stream,
        options: generate_options(request),
        deadline: deadline_of(stream, timeout_secs),
    }
}

/// A streamed and a buffered generation ask for the same thing: nothing but
/// the flag and what the time limit bounds differs.
pub proof fn law_streaming_asks_the_same(
    endpoint: Seq<char>,
    model: Seq<char>,
    request: CompletionRequestView,
    timeout_secs: u64,
)
    ensures
        generate_call(endpoint, model, request, true, timeout_secs) == (GenerateCallView {
            stream: true,
            deadline: Deadline::EachRead { secs: timeout_secs },
            ..generate_call(endpoint, model, request, false, timeout_secs)
        }),
        generate_call(endpoint, model, request, false, timeout_secs).deadline == (Deadline::Whole {
            secs: timeout_secs,
        }),
{
}

/// The answer to a buffered generation.
#[derive(Debug)]
pub struct OllamaGenerateResponse {
    pub response: String,
    pub prompt_eval_count: Option<u64>,
    pub eval_count: Option<u64>,
    pub eval_duration: Option<u64>,
}

/// One line of a streamed generation. The last one says `done` and carries the
/// counts.
#[derive(Debug)]
pub struct OllamaStreamLine {
    pub response: String,
    pub done: bool,
    pub prompt_eval_count: Option<u64>,
    pub eval_count: Option<u64>,
}

pub struct OllamaStreamLineView {
    pub response: Seq<char>,
    pub done: bool,
    pub prompt_eval_count: Option<u64>,
    pub eval_count: Option<u64>,
}

impl View for OllamaStreamLine {
    type V = OllamaStreamLineView;

    open spec fn view(&self) -> OllamaStreamLineView {
        OllamaStreamLineView {
            response: self.response@,
            done: self.done,
            prompt_eval_count: self.prompt_eval_count,
            eval_count: self.eval_count,
        }
    }
}

/// The target of a listing.
#[derive(Debug)]
pub struct TagsCall {
    pub url: String,
    pub deadline: Deadline,
}

/// One model that the endpoint offers.
#[derive(Debug)]
pub struct OllamaTag {
    pub name: String,
    pub size: u64,
}

/// Whether an HTTP status tells success.
pub fn is_success(status: u16) -> (yes: bool)
    ensures
        yes == (200 <= status < 300),
{
    200 <= status && status < 300
}

/// Whether the endpoint took a generation on: any status but one that tells
/// success is a failure, which says `shown`, the status as text, and `tail`,
/// the end of what the endpoint said.
pub fn generate_status(status: u16, shown: String, tail: String) -> (taken: Result<(), LiveError>)
    ensures
        if 200 <= status < 300 {
            taken is Ok
        } else {
            taken matches Err(error) && error@ == fault_error(
                OllamaFault::GenerateStatus { status: shown, tail },
            )
        },
{
    if is_success(status) {
        Ok(())
    } else {
        Err(OllamaFault::GenerateStatus { status: shown, tail }.report())
    }
}

/// Whether the endpoint listed its models, likewise.
pub fn tags_status(status: u16, shown: String) -> (listed: Result<(), LiveError>)
    ensures
        if 200 <= status < 300 {
            listed is Ok
        } else {
            listed matches Err(error) && error@ == fault_error(
                OllamaFault::TagsStatus { status: shown },
            )
        },
{
    if is_success(status) {
        Ok(())
    } else {
        Err(OllamaFault::TagsStatus { status: shown }.report())
    }
}

/// What the speed of a generation is the quotient of: tokens, and the
/// nanoseconds they took. There is no speed without both, nor over no time.
pub fn measured_speed(eval_count: Option<u64>, eval_duration: Option<u64>) -> (speed: Option<
    (u64, u64),
>)
    ensures
        speed == match (eval_count, eval_duration) {
            (Some(count), Some(duration)) => if duration > 0 {
                Some((count, duration))
            } else {
                None
            },
            _ => None,
        },
{
    match (eval_count, eval_duration) {
        (Some(count), Some(duration)) => if duration > 0 {
            Some((count, duration))
        } else {
            None
        },
        _ => None,
    }
}

/// A model of the endpoint, as the daemon lists it.
pub open spec fn tag_info(name: Seq<char>, size: u64, endpoint: Seq<char>) -> ModelInfoView {
    ModelInfoView {
        id: name,
        name,
        engine: "ollama"@,
        source: endpoint,
        size,
        created_at_millis: 0,
    }
}

impl OllamaEngine {
    /// Where the endpoint is, without a slash at its end.
    pub closed spec fn spec_endpoint(&self) -> Seq<char> {
        self.endpoint@
    }

    /// The model tag that requests go to.
    pub closed spec fn spec_model(&self) -> Seq<char> {
        self.model@
    }

    /// The time limit of its requests, in seconds.
    pub closed spec fn spec_timeout_secs(&self) -> u64 {
        self.timeout_secs
    }

    pub fn new(config: &InferenceConfig) -> (engine: OllamaEngine)
        ensures
            engine.spec_timeout_secs() == config.request_timeout_secs,
            engine.spec_endpoint() == text::trim_end_matches(config.ollama_endpoint@, '/'),
            engine.spec_model() == config.default_model@,
    {
        OllamaEngine {
            endpoint: text::trimmed_end_matches(config.ollama_endpoint.as_str(), '/').to_owned(),
            model: config.default_model.clone(),
            timeout_secs: config.request_timeout_secs,
        }
    }

    /// The request that both ways of completing send; whether it streams, and
    /// so what its time limit bounds, is the only difference. Without a model
    /// there is nothing to ask.
    pub fn send_generate(&self, request: &CompletionRequest, stream: bool) -> (call: Result<
        GenerateCall,
        LiveError,
    >)
        ensures
            if text::trim(self.spec_model()).len() == 0 {
                call matches Err(error) && error@ == LiveErrorView::Capability(
                    "the ollama engine requires inference.default_model to name a model tag"@,
                )
            } else {
                call matches Ok(call) && call@ == generate_call(
                    self.spec_endpoint(),
                    self.spec_model(),
                    request@,
                    stream,
                    self.spec_timeout_secs(),
                )
            },
    {
        if text::is_blank(self.model.as_str()) {
            return Err(
                LiveError::Capability(
                    "the ollama engine requires inference.default_model to name a model tag".to_owned(),
                ),
            );
        }
        let options = if request.max_tokens.is_some() || request.temperature.is_some()
            || request.seed.is_some() {
            let temperature = match &request.temperature {
                Some(temperature) => Some(temperature.clone()),
                None => None,
            };
            Some(
                GenerateOptions {
                    num_predict: request.max_tokens,
                    temperature,
                    seed: request.seed,
                },
            )
        } else {
            None
        };
        Ok(
            GenerateCall {
                url: text::concat(self.endpoint.as_str(), "/api/generate"),
                model: self.model.clone(),
                prompt: request.prompt.clone(),
                stream,
                options,
                deadline: deadline(stream, self.timeout_secs),
            },
        )
    }

    /// The completion that a buffered answer amounts to.
    pub fn complete(
        &self,
        parsed: OllamaGenerateResponse,
        tokens_per_second: Option<Rate>,
        elapsed_millis: u64,
    ) -> (completion: Completion)
        ensures
            completion@ == inference::local_completion(
                parsed.response@,
                self.spec_model(),
                tokens_per_second,
                elapsed_millis,
                inference::usage_of(parsed.prompt_eval_count, parsed.eval_count),
            ),
    {
        Completion::local(
            parsed.response,
            self.model.clone(),
            tokens_per_second,
            elapsed_millis,
            TokenUsage::from_counts(parsed.prompt_eval_count, parsed.eval_count),
        )
    }

    /// Where the endpoint lists its models, and the time limit of asking.
    pub fn tags_call(&self) -> (call: TagsCall)
        ensures
            call.url@ == self.spec_endpoint() + "/api/tags"@,
            call.deadline == deadline_of(false, self.spec_timeout_secs()),
    {
        TagsCall {
            url: text::concat(self.endpoint.as_str(), "/api/tags"),
            deadline: deadline(false, self.timeout_secs),
        }
    }

    /// The models that the endpoint lists, in its order.
    pub fn list_models(&self, tags: Vec<OllamaTag>) -> (list: Vec<ModelInfo>)
        ensures
            models::infos(list@) == tags@.map_values(
                |t: OllamaTag| tag_info(t.name@, t.size, self.spec_endpoint()),
            ),
    {
        let mut list: Vec<ModelInfo> = Vec::new();
        for tag in it: tags
            invariant
                it.seq() == tags@,
                list@.len() == it.index(),
                forall|k: int|
                    0 <= k < list@.len() ==> (#[trigger] list@[k])@ == tag_info(
                        tags@[k].name@,
                        tags@[k].size,
                        self.spec_endpoint(),
                    ),
        {
            list.push(
                ModelInfo {
                    id: tag.name.clone(),
                    name: tag.name,
                    engine: "ollama".to_owned(),
                    source: self.endpoint.clone(),
                    size: tag.size,
                    created_at_millis: 0,
                },
            );
        }
        assert(models::infos(list@) =~= tags@.map_values(
            |t: OllamaTag| tag_info(t.name@, t.size, self.spec_endpoint()),
        ));
        list
    }

    /// Starts to read a stream.
    pub fn complete_stream(&self) -> (reader: StreamReader)
        ensures
            reader@ == (StreamReaderView {
                model: self.spec_model(),
                buffered: seq![],
                open: true,
            }),
    {
        StreamReader { model: self.model.clone(), buffer: LineBuffer::new(), open: true }
    }
}

/// Reads a streamed generation: bytes in chunks, lines, events.
#[derive(Debug)]
pub struct StreamReader {
    model: String,
    buffer: LineBuffer,
    open: bool,
}

#[verifier::ext_equal]
pub struct StreamReaderView {
    pub model: Seq<char>,
    pub buffered: Seq<u8>,
    /// Whether events may still follow.
    pub open: bool,
}

impl View for StreamReader {
    type V = StreamReaderView;

    closed spec fn view(&self) -> StreamReaderView {
        StreamReaderView { model: self.model@, buffered: self.buffer@, open: self.open }
    }
}

/// What a reader gives on: an event, or the failure that ends the stream.
pub enum ItemView {
    Event(CompletionEventView),
    Failed(LiveErrorView),
}

/// What an item says.
pub open spec fn item(item: Result<CompletionEvent, LiveError>) -> ItemView {
    match item {
        Ok(event) => ItemView::Event(event@),
        Err(error) => ItemView::Failed(error@),
    }
}

/// What a list of items says.
pub open spec fn items(list: Seq<Result<CompletionEvent, LiveError>>) -> Seq<ItemView> {
    list.map_values(|i: Result<CompletionEvent, LiveError>| item(i))
}

/// What an optional failure says.
pub open spec fn opt_error(error: Option<LiveError>) -> Option<LiveErrorView> {
    match error {
        Some(error) => Some(error@),
        None => None,
    }
}

/// Whether what is buffered holds a line that is too long: more than the cap,
/// and no newline in it.
pub open spec fn too_long(buffered: Seq<u8>) -> bool {
    buffered.len() > MAX_STREAM_LINE_BYTES && !ndjson::has_line(buffered)
}

/// The items of one parsed line: its text, unless it is empty, and the end, if
/// it says so. A line that cannot be parsed is the end too.
pub open spec fn line_items(
    model: Seq<char>,
    parsed: Result<OllamaStreamLineView, Seq<char>>,
    elapsed_millis: u64,
) -> Seq<ItemView> {
    match parsed {
        Ok(line) => {
            let text = if line.response.len() > 0 {
                seq![ItemView::Event(CompletionEventView::Delta(line.response))]
            } else {
                seq![]
            };
            let end = if line.done {
                seq![
                    ItemView::Event(
                        CompletionEventView::Done(
                            CompletionSummaryView {
                                model,
                                usage: inference::usage_of(
                                    line.prompt_eval_count,
                                    line.eval_count,
                                ),
                                tokens_per_second: None,
                                elapsed_millis,
                            },
                        ),
                    ),
                ]
            } else {
                seq![]
            };
            text + end
        },
        Err(error) => seq![
            ItemView::Failed(LiveErrorView::Protocol("parse ollama stream line: "@ + error)),
        ],
    }
}

/// Whether the stream goes on after a line.
pub open spec fn line_goes_on(parsed: Result<OllamaStreamLineView, Seq<char>>) -> bool {
    parsed matches Ok(line) && !line.done
}

/// What a parsed line says.
pub open spec fn parsed_line(parsed: Result<OllamaStreamLine, String>) -> Result<
    OllamaStreamLineView,
    Seq<char>,
> {
    match parsed {
        Ok(line) => Ok(line@),
        Err(error) => Err(error@),
    }
}

/// What a list of parsed lines says.
pub open spec fn parsed_lines(parsed: Seq<Result<OllamaStreamLine, String>>) -> Seq<
    Result<OllamaStreamLineView, Seq<char>>,
> {
    parsed.map_values(|p: Result<OllamaStreamLine, String>| parsed_line(p))
}

/// Whether the stream goes on after all of these lines.
pub open spec fn all_go_on(parsed: Seq<Result<OllamaStreamLineView, Seq<char>>>) -> bool {
    forall|i: int| 0 <= i < parsed.len() ==> line_goes_on(#[trigger] parsed[i])
}

/// The items of a list of lines. A line counts only where the stream goes on
/// after every line before it.
pub open spec fn parsed_items(
    model: Seq<char>,
    parsed: Seq<Result<OllamaStreamLineView, Seq<char>>>,
    elapsed_millis: u64,
) -> Seq<ItemView>
    decreases parsed.len(),
{
    if parsed.len() == 0 {
        seq![]
    } else if all_go_on(parsed.drop_last()) {
        parsed_items(model, parsed.drop_last(), elapsed_millis) + line_items(
            model,
            parsed.last(),
            elapsed_millis,
        )
    } else {
        parsed_items(model, parsed.drop_last(), elapsed_millis)
    }
}

impl StreamReader {
    /// Whether events may still follow.
    pub fn is_open(&self) -> (open: bool)
        ensures
            open == self@.open,
    {
        self.open
    }

    /// Takes a chunk and gives the lines that are complete with it, without
    /// the blank ones. A chunk may carry several lines that together exceed
    /// the cap; what ends the stream is a buffer that has grown past the cap
    /// and holds no newline.
    pub fn read(&mut self, chunk: &[u8]) -> (lines: Result<Vec<String>, LiveError>)
        ensures
            ({
                let buffered = old(self)@.buffered + chunk@;
                if !old(self)@.open {
                    &&& final(self)@ == old(self)@
                    &&& lines matches Ok(lines)
                    &&& lines@.len() == 0
                } else if too_long(buffered) {
                    &&& final(self)@ == (StreamReaderView { buffered, open: false, ..old(self)@ })
                    &&& lines matches Err(error)
                    &&& error@ == fault_error(OllamaFault::LineTooLong)
                } else {
                    &&& final(self)@ == (StreamReaderView {
                        buffered: ndjson::tail(buffered),
                        ..old(self)@
                    })
                    &&& lines matches Ok(lines)
                    &&& text::texts(lines@) == ndjson::line_texts(buffered)
                }
            }),
    {
        let mut lines: Vec<String> = Vec::new();
        if !self.open {
            return Ok(lines);
        }
        self.buffer.extend(chunk);
        if self.buffer.len() > MAX_STREAM_LINE_BYTES && !self.buffer.has_newline() {
            self.open = false;
            return Err(OllamaFault::LineTooLong.report());
        }
        let ghost buffered = self.buffer@;
        assert(text::texts(lines@) + ndjson::line_texts(buffered) =~= ndjson::line_texts(
            buffered,
        ));
        loop
            invariant
                text::texts(lines@) + ndjson::line_texts(self.buffer@) == ndjson::line_texts(
                    buffered,
                ),
                ndjson::tail(self.buffer@) == ndjson::tail(buffered),
                self.model@ == old(self)@.model,
                self.open && old(self)@.open,
                buffered == old(self)@.buffered + chunk@,
                !too_long(buffered),
            decreases self.buffer@.len(),
        {
            let ghost before = text::texts(lines@);
            let ghost rest = ndjson::line_texts(self.buffer@);
            match self.buffer.next_line() {
                Some(line) => {
                    proof {
                        text::lemma_texts_push(lines@, line);
                    }
                    lines.push(line);
                    assert(before + rest =~= text::texts(lines@) + ndjson::line_texts(
                        self.buffer@,
                    ));
                },
                None => {
                    assert(before + rest =~= before);
                    return Ok(lines);
                },
            }
        }
    }

    /// Takes one line as it was parsed, or why it could not be.
    fn line(&mut self, parsed: Result<OllamaStreamLine, String>, elapsed_millis: u64) -> (list: Vec<
        Result<CompletionEvent, LiveError>,
    >)
        ensures
            final(self)@ == (StreamReaderView {
                open: old(self)@.open && line_goes_on(parsed_line(parsed)),
                ..old(self)@
            }),
            items(list@) == if old(self)@.open {
                line_items(old(self)@.model, parsed_line(parsed), elapsed_millis)
            } else {
                seq![]
            },
    {
        let mut list: Vec<Result<CompletionEvent, LiveError>> = Vec::new();
        if self.open {
            match parsed {
                Ok(line) => {
                    if !line.response.as_str().is_empty() {
                        list.push(Ok(CompletionEvent::Delta(line.response)));
                    }
                    if line.done {
                        list.push(
                            Ok(
                                CompletionEvent::Done(
                                    CompletionSummary {
                                        model: self.model.clone(),
                                        usage: TokenUsage::from_counts(
                                            line.prompt_eval_count,
                                            line.eval_count,
                                        ),
                                        tokens_per_second: None,
                                        elapsed_millis,
                                    },
                                ),
                            ),
                        );
                        self.open = false;
                    }
                },
                Err(error) => {
                    list.push(Err(OllamaFault::ParseLine { error }.report()));
                    self.open = false;
                },
            }
            assert(items(list@) =~= line_items(
                old(self)@.model,
                parsed_line(parsed),
                elapsed_millis,
            ));
        } else {
            assert(items(list@) =~= seq![]);
        }
        list
    }

    /// Takes the lines of a chunk as they were parsed, and gives the items
    /// that they amount to.
    pub fn events(
        &mut self,
        parsed: Vec<Result<OllamaStreamLine, String>>,
        elapsed_millis: u64,
    ) -> (list: Vec<Result<CompletionEvent, LiveError>>)
        ensures
            final(self)@ == (StreamReaderView {
                open: old(self)@.open && all_go_on(parsed_lines(parsed@)),
                ..old(self)@
            }),
            items(list@) == if old(self)@.open {
                parsed_items(old(self)@.model, parsed_lines(parsed@), elapsed_millis)
            } else {
                seq![]
            },
    {
        let mut list: Vec<Result<CompletionEvent, LiveError>> = Vec::new();
        let was_open = self.open;
        assert(parsed_lines(parsed@.take(0)) =~= seq![]);
        assert(items(list@) =~= seq![]);
        for line in it: parsed
            invariant
                it.seq() == parsed@,
                was_open == old(self)@.open,
                self@ == (StreamReaderView {
                    open: was_open && all_go_on(parsed_lines(parsed@.take(it.index()))),
                    ..old(self)@
                }),
                items(list@) == if was_open {
                    parsed_items(
                        old(self)@.model,
                        parsed_lines(parsed@.take(it.index())),
                        elapsed_millis,
                    )
                } else {
                    seq![]
                },
        {
            let ghost done = parsed_lines(parsed@.take(it.index()));
            let ghost next = parsed_lines(parsed@.take(it.index() + 1));
            let ghost before = list@;
            let ghost was = self@;
            let mut one = self.line(line, elapsed_millis);
            let ghost added = one@;
            list.append(&mut one);
            proof {
                assert(next =~= done.push(parsed_line(line)));
                assert(next.drop_last() =~= done);
                assert(all_go_on(next) == (all_go_on(done) && line_goes_on(parsed_line(line)))) by {
                    if all_go_on(next) {
                        assert forall|i: int| 0 <= i < done.len() implies line_goes_on(
                            #[trigger] done[i],
                        ) by {
                            assert(next[i] == done[i]);
                        }
                        assert(line_goes_on(next[done.len() as int]));
                    }
                }
                assert(items(list@) =~= items(before) + items(added));
                assert(items(before) + Seq::<ItemView>::empty() =~= items(before));
            }
        }
        assert(parsed@.take(parsed@.len() as int) =~= parsed@);
        list
    }

    /// The bytes cannot be read any further.
    pub fn read_failed(&mut self, error: String) -> (failed: Option<LiveError>)
        ensures
            final(self)@ == (StreamReaderView { open: false, ..old(self)@ }),
            opt_error(failed) == if old(self)@.open {
                Some(fault_error(OllamaFault::ReadStream { error }))
            } else {
                None
            },
    {
        if !self.open {
            return None;
        }
        self.open = false;
        Some(OllamaFault::ReadStream { error }.report())
    }

    /// The bytes are at their end. Without a line that said so, the answer was
    /// cut off, and a consumer could not tell it from a short one.
    pub fn ended(&mut self) -> (failed: Option<LiveError>)
        ensures
            final(self)@ == (StreamReaderView { open: false, ..old(self)@ }),
            opt_error(failed) == if old(self)@.open {
                Some(fault_error(OllamaFault::StreamCut))
            } else {
                None
            },
    {
        if !self.open {
            return None;
        }
        self.open = false;
        Some(OllamaFault::StreamCut.report())
    }
}

/// How the bytes of a stream come to their end.
pub enum Ending {
    /// The connection was closed.
    Closed,
    /// They could not be read any further.
    Broken(Seq<char>),
}

/// What a reader makes of the end of the bytes, when nothing ended the stream
/// before.
pub open spec fn ending_item(last: Ending) -> ItemView {
    match last {
        Ending::Closed => ItemView::Failed(
            LiveErrorView::Protocol("ollama stream ended before a done line"@),
        ),
        Ending::Broken(error) => ItemView::Failed(
            LiveErrorView::Transport("ollama stream failed: "@ + error),
        ),
    }
}

/// All the items that a reader gives for bytes that arrive in `chunks`, where
/// lines are parsed by `parse`.
pub open spec fn reading(
    reader: StreamReaderView,
    chunks: Seq<Seq<u8>>,
    last: Ending,
    parse: spec_fn(Seq<char>) -> Result<OllamaStreamLineView, Seq<char>>,
    elapsed_millis: u64,
) -> Seq<ItemView>
    decreases chunks.len(),
{
    if !reader.open {
        seq![]
    } else if chunks.len() == 0 {
        seq![ending_item(last)]
    } else {
        let buffered = reader.buffered + chunks[0];
        if too_long(buffered) {
            seq![ItemView::Failed(fault_error(OllamaFault::LineTooLong))]
        } else {
            let parsed = ndjson::line_texts(buffered).map_values(parse);
            parsed_items(reader.model, parsed, elapsed_millis) + reading(
                StreamReaderView {
                    buffered: ndjson::tail(buffered),
                    open: all_go_on(parsed),
                    ..reader
                },
                chunks.skip(1),
                last,
                parse,
                elapsed_millis,
            )
        }
    }
}

/// Whether an item carries text.
pub open spec fn is_delta(item: ItemView) -> bool {
    item matches ItemView::Event(CompletionEventView::Delta(text)) && text.len() > 0
}

/// Whether an item ends a stream.
pub open spec fn is_terminal(item: ItemView) -> bool {
    item is Failed || item matches ItemView::Event(CompletionEventView::Done(_))
}

/// Whether exactly the last of the items ends the stream, and all the others
/// carry text.
pub open spec fn ends_once(list: Seq<ItemView>) -> bool {
    &&& list.len() > 0
    &&& is_terminal(list.last())
    &&& forall|i: int| 0 <= i < list.len() - 1 ==> is_delta(#[trigger] list[i])
}

proof fn lemma_parsed_items(
    model: Seq<char>,
    parsed: Seq<Result<OllamaStreamLineView, Seq<char>>>,
    elapsed_millis: u64,
)
    ensures
        all_go_on(parsed) ==> forall|i: int|
            0 <= i < parsed_items(model, parsed, elapsed_millis).len() ==> is_delta(
                #[trigger] parsed_items(model, parsed, elapsed_millis)[i],
            ),
        !all_go_on(parsed) ==> ends_once(parsed_items(model, parsed, elapsed_millis)),
    decreases parsed.len(),
{
    if parsed.len() > 0 {
        let before = parsed.drop_last();
        lemma_parsed_items(model, before, elapsed_millis);
        assert(all_go_on(parsed) == (all_go_on(before) && line_goes_on(parsed.last()))) by {
            if all_go_on(parsed) {
                assert forall|i: int| 0 <= i < before.len() implies line_goes_on(
                    #[trigger] before[i],
                ) by {
                    assert(parsed[i] == before[i]);
                }
                assert(line_goes_on(parsed[parsed.len() - 1]));
            }
            if all_go_on(before) && line_goes_on(parsed.last()) {
                assert forall|i: int| 0 <= i < parsed.len() implies line_goes_on(
                    #[trigger] parsed[i],
                ) by {
                    if i < before.len() {
                        assert(parsed[i] == before[i]);
                    }
                }
            }
        }
        if all_go_on(before) {
            let head = parsed_items(model, before, elapsed_millis);
            let tail = line_items(model, parsed.last(), elapsed_millis);
            let all = parsed_items(model, parsed, elapsed_millis);
            assert(all == head + tail);
            assert forall|i: int| 0 <= i < all.len() - 1 implies is_delta(#[trigger] all[i]) by {
                if i < head.len() {
                    assert(all[i] == head[i]);
                } else {
                    assert(all[i] == tail[i - head.len()]);
                }
            }
            if tail.len() > 0 {
                assert(all.last() == tail.last());
            } else {
                assert(all =~= head);
            }
        }
    }
}

proof fn lemma_all_go_on_concat(
    a: Seq<Result<OllamaStreamLineView, Seq<char>>>,
    b: Seq<Result<OllamaStreamLineView, Seq<char>>>,
)
    ensures
        all_go_on(a + b) == (all_go_on(a) && all_go_on(b)),
{
    if all_go_on(a + b) {
        assert forall|i: int| 0 <= i < a.len() implies line_goes_on(#[trigger] a[i]) by {
            assert((a + b)[i] == a[i]);
        }
        assert forall|i: int| 0 <= i < b.len() implies line_goes_on(#[trigger] b[i]) by {
            assert((a + b)[i + a.len()] == b[i]);
        }
    }
}

proof fn lemma_parsed_items_concat(
    model: Seq<char>,
    a: Seq<Result<OllamaStreamLineView, Seq<char>>>,
    b: Seq<Result<OllamaStreamLineView, Seq<char>>>,
    elapsed_millis: u64,
)
    ensures
        parsed_items(model, a + b, elapsed_millis) == parsed_items(model, a, elapsed_millis)
            + if all_go_on(a) {
            parsed_items(model, b, elapsed_millis)
        } else {
            seq![]
        },
    decreases b.len(),
{
    let left = parsed_items(model, a, elapsed_millis);
    if b.len() == 0 {
        assert(a + b =~= a);
        assert(left + Seq::<ItemView>::empty() =~= left);
    } else {
        lemma_parsed_items_concat(model, a, b.drop_last(), elapsed_millis);
        lemma_all_go_on_concat(a, b.drop_last());
        assert((a + b).drop_last() =~= a + b.drop_last());
        assert((a + b).last() == b.last());
        if all_go_on(a) && all_go_on(b.drop_last()) {
            assert(parsed_items(model, a + b, elapsed_millis) =~= left + parsed_items(
                model,
                b,
                elapsed_millis,
            ));
        } else {
            assert(left + Seq::<ItemView>::empty() =~= left);
        }
    }
}

/// A stream that is read always ends, and once: with the end of the answer or
/// with a failure. Nothing follows that item, and only text comes before it.
pub proof fn law_stream_ends_once(
    reader: StreamReaderView,
    chunks: Seq<Seq<u8>>,
    last: Ending,
    parse: spec_fn(Seq<char>) -> Result<OllamaStreamLineView, Seq<char>>,
    elapsed_millis: u64,
)
    requires
        reader.open,
    ensures
        ends_once(reading(reader, chunks, last, parse, elapsed_millis)),
    decreases chunks.len(),
{
    reveal_with_fuel(reading, 2);
    if chunks.len() > 0 {
        let buffered = reader.buffered + chunks[0];
        if !too_long(buffered) {
            let parsed = ndjson::line_texts(buffered).map_values(parse);
            let next = StreamReaderView {
                buffered: ndjson::tail(buffered),
                open: all_go_on(parsed),
                ..reader
            };
            let head = parsed_items(reader.model, parsed, elapsed_millis);
            let tail = reading(next, chunks.skip(1), last, parse, elapsed_millis);
            let all = reading(reader, chunks, last, parse, elapsed_millis);
            assert(all == head + tail);
            lemma_parsed_items(reader.model, parsed, elapsed_millis);
            if all_go_on(parsed) {
                law_stream_ends_once(next, chunks.skip(1), last, parse, elapsed_millis);
                assert(all.last() == tail.last());
                assert forall|i: int| 0 <= i < all.len() - 1 implies is_delta(
                    #[trigger] all[i],
                ) by {
                    if i < head.len() {
                        assert(all[i] == head[i]);
                    } else {
                        assert(all[i] == tail[i - head.len()]);
                    }
                }
            } else {
                assert(all =~= head);
            }
        }
    }
}

/// What a reader is left with after a chunk that is not too long.
pub open spec fn after_read(
    reader: StreamReaderView,
    chunk: Seq<u8>,
    parse: spec_fn(Seq<char>) -> Result<OllamaStreamLineView, Seq<char>>,
) -> StreamReaderView {
    StreamReaderView {
        buffered: ndjson::tail(reader.buffered + chunk),
        open: all_go_on(ndjson::line_texts(reader.buffered + chunk).map_values(parse)),
        ..reader
    }
}

proof fn lemma_first_chunk(
    reader: StreamReaderView,
    chunk: Seq<u8>,
    rest: Seq<Seq<u8>>,
    last: Ending,
    parse: spec_fn(Seq<char>) -> Result<OllamaStreamLineView, Seq<char>>,
    elapsed_millis: u64,
)
    requires
        reader.open,
        !too_long(reader.buffered + chunk),
    ensures
        reading(reader, seq![chunk] + rest, last, parse, elapsed_millis) == parsed_items(
            reader.model,
            ndjson::line_texts(reader.buffered + chunk).map_values(parse),
            elapsed_millis,
        ) + reading(after_read(reader, chunk, parse), rest, last, parse, elapsed_millis),
{
    let chunks = seq![chunk] + rest;
    assert(chunks[0] == chunk);
    assert(chunks.skip(1) =~= rest);
}

/// Where the bytes of a stream are cut does not change what is read from
/// them: two chunks read as one, as long as neither makes a line outgrow the
/// cap.
#[verifier::spinoff_prover]
pub proof fn law_chunk_boundaries_do_not_matter(
    reader: StreamReaderView,
    a: Seq<u8>,
    b: Seq<u8>,
    rest: Seq<Seq<u8>>,
    last: Ending,
    parse: spec_fn(Seq<char>) -> Result<OllamaStreamLineView, Seq<char>>,
    elapsed_millis: u64,
)
    requires
        !too_long(reader.buffered + a),
        !too_long(ndjson::tail(reader.buffered + a) + b),
    ensures
        reading(reader, seq![a, b] + rest, last, parse, elapsed_millis) == reading(
            reader,
            seq![a + b] + rest,
            last,
            parse,
            elapsed_millis,
        ),
{
    if reader.open {
        let next = after_read(reader, a, parse);
        let first = ndjson::line_texts(reader.buffered + a).map_values(parse);
        let second = ndjson::line_texts(next.buffered + b).map_values(parse);
        lemma_lines_of_both(reader.buffered, a, b, parse);
        lemma_parsed_items_concat(reader.model, first, second, elapsed_millis);
        lemma_all_go_on_concat(first, second);
        lemma_first_chunk(reader, a, seq![b] + rest, last, parse, elapsed_millis);
        assert(seq![a, b] + rest =~= seq![a] + (seq![b] + rest));
        lemma_first_chunk(reader, a + b, rest, last, parse, elapsed_millis);
        let one = parsed_items(reader.model, first, elapsed_millis);
        let two = parsed_items(reader.model, second, elapsed_millis);
        let end = after_read(reader, a + b, parse);
        let rest_items = reading(end, rest, last, parse, elapsed_millis);
        if all_go_on(first) {
            lemma_first_chunk(next, b, rest, last, parse, elapsed_millis);
            assert(after_read(next, b, parse) == end);
            assert(one + two + rest_items =~= one + (two + rest_items));
        } else {
            assert(one + Seq::<ItemView>::empty() =~= one);
        }
    }
}

proof fn lemma_lines_of_both(
    buffered: Seq<u8>,
    a: Seq<u8>,
    b: Seq<u8>,
    parse: spec_fn(Seq<char>) -> Result<OllamaStreamLineView, Seq<char>>,
)
    ensures
        ndjson::line_texts(buffered + (a + b)).map_values(parse) == ndjson::line_texts(
            buffered + a,
        ).map_values(parse) + ndjson::line_texts(ndjson::tail(buffered + a) + b).map_values(parse),
        ndjson::tail(buffered + (a + b)) == ndjson::tail(ndjson::tail(buffered + a) + b),
        !too_long(buffered + a) && !too_long(ndjson::tail(buffered + a) + b) ==> !too_long(
            buffered + (a + b),
        ),
{
    let x = buffered + a;
    assert(buffered + (a + b) =~= x + b);
    ndjson::law_lines_ignore_chunking(x, b);
    ndjson::lemma_line_of_longer(x, b);
    assert(ndjson::line_texts(x + b).map_values(parse) =~= ndjson::line_texts(x).map_values(parse)
        + ndjson::line_texts(ndjson::tail(x) + b).map_values(parse));
}

/// Whether no read fails for a line that outgrew the cap.
pub open spec fn within_cap(
    reader: StreamReaderView,
    chunks: Seq<Seq<u8>>,
    parse: spec_fn(Seq<char>) -> Result<OllamaStreamLineView, Seq<char>>,
) -> bool
    decreases chunks.len(),
{
    if !reader.open || chunks.len() == 0 {
        true
    } else {
        !too_long(reader.buffered + chunks[0]) && within_cap(
            after_read(reader, chunks[0], parse),
            chunks.drop_first(),
            parse,
        )
    }
}

/// Whether a reader is as a read leaves it: nothing but the start of a line is
/// buffered.
pub open spec fn between_reads(reader: StreamReaderView) -> bool {
    !ndjson::has_line(reader.buffered)
}

/// What is read from `bytes`, however they arrive.
pub open spec fn reading_of(
    reader: StreamReaderView,
    bytes: Seq<u8>,
    last: Ending,
    parse: spec_fn(Seq<char>) -> Result<OllamaStreamLineView, Seq<char>>,
    elapsed_millis: u64,
) -> Seq<ItemView> {
    let parsed = ndjson::line_texts(reader.buffered + bytes).map_values(parse);
    if !reader.open {
        seq![]
    } else if all_go_on(parsed) {
        parsed_items(reader.model, parsed, elapsed_millis) + seq![ending_item(last)]
    } else {
        parsed_items(reader.model, parsed, elapsed_millis)
    }
}

#[verifier::spinoff_prover]
proof fn lemma_reading_is_of_the_bytes(
    reader: StreamReaderView,
    chunks: Seq<Seq<u8>>,
    last: Ending,
    parse: spec_fn(Seq<char>) -> Result<OllamaStreamLineView, Seq<char>>,
    elapsed_millis: u64,
)
    requires
        between_reads(reader),
        within_cap(reader, chunks, parse),
    ensures
        reading(reader, chunks, last, parse, elapsed_millis) == reading_of(
            reader,
            chunks.flatten(),
            last,
            parse,
            elapsed_millis,
        ),
    decreases chunks.len(),
{
    if !reader.open {
    } else if chunks.len() == 0 {
        assert(reader.buffered + chunks.flatten() =~= reader.buffered);
        assert(ndjson::line_texts(reader.buffered).map_values(parse) =~= seq![]);
        assert(parsed_items(reader.model, seq![], elapsed_millis) + seq![ending_item(last)]
            =~= seq![ending_item(last)]);
    } else {
        let a = chunks[0];
        let rest = chunks.drop_first();
        let b = rest.flatten();
        let next = after_read(reader, a, parse);
        assert(chunks =~= seq![a] + rest);
        assert(chunks.flatten() == a + b);
        lemma_first_chunk(reader, a, rest, last, parse, elapsed_millis);
        ndjson::law_tail_holds_no_line(reader.buffered + a);
        lemma_reading_is_of_the_bytes(next, rest, last, parse, elapsed_millis);
        let first = ndjson::line_texts(reader.buffered + a).map_values(parse);
        let second = ndjson::line_texts(next.buffered + b).map_values(parse);
        lemma_lines_of_both(reader.buffered, a, b, parse);
        lemma_parsed_items_concat(reader.model, first, second, elapsed_millis);
        lemma_all_go_on_concat(first, second);
        let one = parsed_items(reader.model, first, elapsed_millis);
        let two = parsed_items(reader.model, second, elapsed_millis);
        if all_go_on(first) {
            assert(one + two + seq![ending_item(last)] =~= one + (two + seq![ending_item(last)]));
        } else {
            assert(one + Seq::<ItemView>::empty() =~= one);
        }
    }
}

/// Any two ways to cut the same bytes read the same, as long as neither makes
/// a line outgrow the cap: the lines alone decide.
pub proof fn law_any_cut_reads_the_same(
    reader: StreamReaderView,
    chunks: Seq<Seq<u8>>,
    others: Seq<Seq<u8>>,
    last: Ending,
    parse: spec_fn(Seq<char>) -> Result<OllamaStreamLineView, Seq<char>>,
    elapsed_millis: u64,
)
    requires
        between_reads(reader),
        chunks.flatten() == others.flatten(),
        within_cap(reader, chunks, parse),
        within_cap(reader, others, parse),
    ensures
        reading(reader, chunks, last, parse, elapsed_millis) == reading(
            reader,
            others,
            last,
            parse,
            elapsed_millis,
        ),
        reading(reader, chunks, last, parse, elapsed_millis) == reading_of(
            reader,
            chunks.flatten(),
            last,
            parse,
            elapsed_millis,
        ),
{
    lemma_reading_is_of_the_bytes(reader, chunks, last, parse, elapsed_millis);
    lemma_reading_is_of_the_bytes(reader, others, last, parse, elapsed_millis);
}

/// The lines that are complete before a read fails for a line that outgrew the
/// cap.
pub open spec fn lines_read(buffered: Seq<u8>, chunks: Seq<Seq<u8>>) -> Seq<Seq<char>>
    decreases chunks.len(),
{
    if chunks.len() == 0 || too_long(buffered + chunks[0]) {
        seq![]
    } else {
        ndjson::line_texts(buffered + chunks[0]) + lines_read(
            ndjson::tail(buffered + chunks[0]),
            chunks.drop_first(),
        )
    }
}

/// Whether a line that says `done` comes before any that cannot be parsed.
pub open spec fn done_first(parsed: Seq<Result<OllamaStreamLineView, Seq<char>>>) -> bool {
    exists|i: int|
        0 <= i < parsed.len() && is_done_line(#[trigger] parsed[i]) && all_go_on(parsed.take(i))
}

/// Whether a line was parsed and says `done`.
pub open spec fn is_done_line(parsed: Result<OllamaStreamLineView, Seq<char>>) -> bool {
    parsed matches Ok(line) && line.done
}

/// Whether an item is the summary of a complete answer.
pub open spec fn is_summary(item: ItemView) -> bool {
    item matches ItemView::Event(CompletionEventView::Done(_))
}

proof fn lemma_last_of_parsed_items(
    model: Seq<char>,
    parsed: Seq<Result<OllamaStreamLineView, Seq<char>>>,
    elapsed_millis: u64,
)
    ensures
        all_go_on(parsed) ==> !done_first(parsed),
        !all_go_on(parsed) ==> parsed_items(model, parsed, elapsed_millis).len() > 0 && (is_summary(
            parsed_items(model, parsed, elapsed_millis).last(),
        ) <==> done_first(parsed)),
    decreases parsed.len(),
{
    if parsed.len() > 0 {
        let before = parsed.drop_last();
        let n = parsed.len() - 1;
        lemma_last_of_parsed_items(model, before, elapsed_millis);
        assert(parsed =~= before + seq![parsed.last()]);
        lemma_all_go_on_concat(before, seq![parsed.last()]);
        assert(all_go_on(seq![parsed.last()]) == line_goes_on(parsed.last())) by {
            assert(seq![parsed.last()][0] == parsed.last());
        }
        assert(parsed.take(n) =~= before);
        assert forall|i: int| 0 <= i < n implies parsed.take(i) == #[trigger] before.take(i) by {
            assert(parsed.take(i) =~= before.take(i));
        }
        if done_first(before) {
            let i = choose|i: int|
                0 <= i < before.len() && is_done_line(#[trigger] before[i]) && all_go_on(
                    before.take(i),
                );
            assert(parsed[i] == before[i] && parsed.take(i) == before.take(i));
        }
        if done_first(parsed) {
            let i = choose|i: int|
                0 <= i < parsed.len() && is_done_line(#[trigger] parsed[i]) && all_go_on(
                    parsed.take(i),
                );
            if i < n {
                assert(before[i] == parsed[i] && parsed.take(i) == before.take(i));
                assert(done_first(before));
            }
        }
        if all_go_on(before) && !line_goes_on(parsed.last()) {
            let tail = line_items(model, parsed.last(), elapsed_millis);
            assert(parsed_items(model, parsed, elapsed_millis).last() == tail.last());
            if is_done_line(parsed.last()) {
                assert(done_first(parsed)) by {
                    assert(is_done_line(parsed[n]) && all_go_on(parsed.take(n)));
                }
            }
        }
    }
}

/// The items of a reader are those of the lines that it reads, and where all
/// of those go on, one failure more.
#[verifier::spinoff_prover]
proof fn lemma_reading_is_of_the_lines(
    reader: StreamReaderView,
    chunks: Seq<Seq<u8>>,
    last: Ending,
    parse: spec_fn(Seq<char>) -> Result<OllamaStreamLineView, Seq<char>>,
    elapsed_millis: u64,
)
    requires
        reader.open,
    ensures
        ({
            let parsed = lines_read(reader.buffered, chunks).map_values(parse);
            let items = reading(reader, chunks, last, parse, elapsed_millis);
            if all_go_on(parsed) {
                items.len() > 0 && items.last() is Failed
            } else {
                items == parsed_items(reader.model, parsed, elapsed_millis)
            }
        }),
    decreases chunks.len(),
{
    if chunks.len() > 0 && !too_long(reader.buffered + chunks[0]) {
        let a = chunks[0];
        let rest = chunks.drop_first();
        let next = after_read(reader, a, parse);
        assert(chunks =~= seq![a] + rest);
        lemma_first_chunk(reader, a, rest, last, parse, elapsed_millis);
        let first = ndjson::line_texts(reader.buffered + a).map_values(parse);
        let second = lines_read(next.buffered, rest).map_values(parse);
        let all = lines_read(reader.buffered, chunks).map_values(parse);
        assert(all =~= first + second);
        lemma_parsed_items_concat(reader.model, first, second, elapsed_millis);
        lemma_all_go_on_concat(first, second);
        let one = parsed_items(reader.model, first, elapsed_millis);
        let items = reading(next, rest, last, parse, elapsed_millis);
        if all_go_on(first) {
            lemma_reading_is_of_the_lines(next, rest, last, parse, elapsed_millis);
            if all_go_on(second) {
                assert((one + items).last() == items.last());
            }
        } else {
            assert(one + Seq::<ItemView>::empty() =~= one);
        }
    }
}

/// A stream ends with the summary exactly when a line that says `done`, with
/// its newline, is read before a line that cannot be parsed or that outgrows
/// the cap. It ends with a failure in every other case.
pub proof fn law_summary_means_a_done_line(
    reader: StreamReaderView,
    chunks: Seq<Seq<u8>>,
    last: Ending,
    parse: spec_fn(Seq<char>) -> Result<OllamaStreamLineView, Seq<char>>,
    elapsed_millis: u64,
)
    requires
        reader.open,
    ensures
        ({
            let items = reading(reader, chunks, last, parse, elapsed_millis);
            let done = done_first(lines_read(reader.buffered, chunks).map_values(parse));
            &&& items.len() > 0
            &&& is_summary(items.last()) <==> done
            &&& items.last() is Failed <==> !done
        }),
{
    let parsed = lines_read(reader.buffered, chunks).map_values(parse);
    lemma_reading_is_of_the_lines(reader, chunks, last, parse, elapsed_millis);
    lemma_last_of_parsed_items(reader.model, parsed, elapsed_millis);
    law_stream_ends_once(reader, chunks, last, parse, elapsed_millis);
}

/// A read leaves nothing but the start of a line, no longer than the cap or
/// than the chunk that was read.
pub proof fn law_buffer_is_bounded(reader: StreamReaderView, chunk: Seq<u8>)
    requires
        between_reads(reader),
        !too_long(reader.buffered + chunk),
    ensures
        !ndjson::has_line(ndjson::tail(reader.buffered + chunk)),
        ndjson::tail(reader.buffered + chunk).len() <= MAX_STREAM_LINE_BYTES || ndjson::tail(
            reader.buffered + chunk,
        ).len() < chunk.len(),
{
    ndjson::law_tail_holds_no_line(reader.buffered + chunk);
    if ndjson::has_line(reader.buffered + chunk) {
        ndjson::lemma_tail_is_short(reader.buffered, chunk);
    }
}

/// The text that a stream yields: its deltas, one after the other.
pub open spec fn said(list: Seq<ItemView>) -> Seq<char>
    decreases list.len(),
{
    if list.len() == 0 {
        seq![]
    } else {
        said(list.drop_last()) + match list.last() {
            ItemView::Event(CompletionEventView::Delta(text)) => text,
            _ => seq![],
        }
    }
}

/// The text that lines carry up to the end of the answer: what each says under
/// `response`, with the first that says `done`, and up to the first that
/// cannot be parsed.
pub open spec fn responses(parsed: Seq<Result<OllamaStreamLineView, Seq<char>>>) -> Seq<char>
    decreases parsed.len(),
{
    if parsed.len() == 0 {
        seq![]
    } else {
        match parsed[0] {
            Ok(line) => if line.done {
                line.response
            } else {
                line.response + responses(parsed.drop_first())
            },
            Err(_) => seq![],
        }
    }
}

proof fn lemma_said_concat(a: Seq<ItemView>, b: Seq<ItemView>)
    ensures
        said(a + b) == said(a) + said(b),
    decreases b.len(),
{
    if b.len() == 0 {
        assert(a + b =~= a);
        assert(said(a) + said(b) =~= said(a));
    } else {
        lemma_said_concat(a, b.drop_last());
        assert((a + b).drop_last() =~= a + b.drop_last());
        assert((a + b).last() == b.last());
        let end = match b.last() {
            ItemView::Event(CompletionEventView::Delta(text)) => text,
            _ => seq![],
        };
        assert(said(a) + said(b.drop_last()) + end =~= said(a) + (said(b.drop_last()) + end));
    }
}

/// The deltas of a list of lines, put together in order, are the `response`
/// texts of the lines up to and with the first that says `done`, character by
/// character: none is lost, added or changed.
#[verifier::spinoff_prover]
pub proof fn law_deltas_are_the_responses(
    model: Seq<char>,
    parsed: Seq<Result<OllamaStreamLineView, Seq<char>>>,
    elapsed_millis: u64,
)
    ensures
        said(parsed_items(model, parsed, elapsed_millis)) == responses(parsed),
    decreases parsed.len(),
{
    if parsed.len() > 0 {
        let first = seq![parsed[0]];
        let rest = parsed.drop_first();
        assert(parsed =~= first + rest);
        lemma_parsed_items_concat(model, first, rest, elapsed_millis);
        law_deltas_are_the_responses(model, rest, elapsed_millis);
        lemma_one_line(model, parsed[0], elapsed_millis);
        let one = parsed_items(model, first, elapsed_millis);
        let more = parsed_items(model, rest, elapsed_millis);
        lemma_said_concat(one, more);
        assert(one + Seq::<ItemView>::empty() =~= one);
        assert(all_go_on(first) == line_goes_on(parsed[0])) by {
            assert(first[0] == parsed[0]);
        }
    }
}

proof fn lemma_one_line(
    model: Seq<char>,
    parsed: Result<OllamaStreamLineView, Seq<char>>,
    elapsed_millis: u64,
)
    ensures
        parsed_items(model, seq![parsed], elapsed_millis) == line_items(
            model,
            parsed,
            elapsed_millis,
        ),
        said(line_items(model, parsed, elapsed_millis)) == match parsed {
            Ok(line) => line.response,
            Err(_) => seq![],
        },
{
    let none = Seq::<Result<OllamaStreamLineView, Seq<char>>>::empty();
    assert(seq![parsed].drop_last() =~= none);
    assert(parsed_items(model, none, elapsed_millis) =~= seq![]);
    let list = line_items(model, parsed, elapsed_millis);
    assert(parsed_items(model, seq![parsed], elapsed_millis) =~= list);
    reveal_with_fuel(said, 3);
    if list.len() == 2 {
        assert(list.drop_last() =~= seq![list[0]]);
        assert(seq![list[0]].drop_last() =~= seq![]);
    } else if list.len() == 1 {
        assert(list.drop_last() =~= seq![]);
    }
    if let Ok(line) = parsed {
        assert(said(list) =~= line.response);
    }
}

/// The text of a whole stream, however its bytes arrive, is what its lines say
/// under `response`, up to and with the first that says `done`.
#[verifier::spinoff_prover]
pub proof fn law_stream_says_what_its_lines_say(
    reader: StreamReaderView,
    chunks: Seq<Seq<u8>>,
    last: Ending,
    parse: spec_fn(Seq<char>) -> Result<OllamaStreamLineView, Seq<char>>,
    elapsed_millis: u64,
)
    requires
        reader.open,
    ensures
        said(reading(reader, chunks, last, parse, elapsed_millis)) == responses(
            lines_read(reader.buffered, chunks).map_values(parse),
        ),
    decreases chunks.len(),
{
    let lines = lines_read(reader.buffered, chunks).map_values(parse);
    let items = reading(reader, chunks, last, parse, elapsed_millis);
    if chunks.len() > 0 && !too_long(reader.buffered + chunks[0]) {
        let a = chunks[0];
        let rest = chunks.drop_first();
        let next = after_read(reader, a, parse);
        assert(chunks =~= seq![a] + rest);
        lemma_first_chunk(reader, a, rest, last, parse, elapsed_millis);
        let first = ndjson::line_texts(reader.buffered + a).map_values(parse);
        let second = lines_read(next.buffered, rest).map_values(parse);
        assert(lines =~= first + second);
        lemma_parsed_items_concat(reader.model, first, second, elapsed_millis);
        let one = parsed_items(reader.model, first, elapsed_millis);
        let two = parsed_items(reader.model, second, elapsed_millis);
        let more = reading(next, rest, last, parse, elapsed_millis);
        lemma_said_concat(one, more);
        lemma_said_concat(one, two);
        law_deltas_are_the_responses(reader.model, lines, elapsed_millis);
        law_deltas_are_the_responses(reader.model, second, elapsed_millis);
        if all_go_on(first) {
            law_stream_says_what_its_lines_say(next, rest, last, parse, elapsed_millis);
        } else {
            assert(one + Seq::<ItemView>::empty() =~= one);
        }
    } else {
        assert(lines =~= seq![]);
        reveal_with_fuel(said, 2);
        assert(items.drop_last() =~= seq![]);
        assert(said(items) =~= seq![]);
    }
}

/// The text of the events that a reader gives out.
pub open spec fn told(list: Seq<Result<CompletionEvent, LiveError>>) -> Seq<char>
    decreases list.len(),
{
    if list.len() == 0 {
        seq![]
    } else {
        told(list.drop_last()) + match list.last() {
            Ok(CompletionEvent::Delta(text)) => text@,
            _ => seq![],
        }
    }
}

/// The text that parsed lines carry up to the end of the answer.
pub open spec fn carried(parsed: Seq<Result<OllamaStreamLine, String>>) -> Seq<char>
    decreases parsed.len(),
{
    if parsed.len() == 0 {
        seq![]
    } else {
        match parsed[0] {
            Ok(line) => if line.done {
                line.response@
            } else {
                line.response@ + carried(parsed.drop_first())
            },
            Err(_) => seq![],
        }
    }
}

proof fn lemma_told(list: Seq<Result<CompletionEvent, LiveError>>)
    ensures
        told(list) == said(items(list)),
    decreases list.len(),
{
    if list.len() > 0 {
        lemma_told(list.drop_last());
        assert(items(list).drop_last() =~= items(list.drop_last()));
    }
}

proof fn lemma_carried(parsed: Seq<Result<OllamaStreamLine, String>>)
    ensures
        carried(parsed) == responses(parsed_lines(parsed)),
    decreases parsed.len(),
{
    if parsed.len() > 0 {
        lemma_carried(parsed.drop_first());
        assert(parsed_lines(parsed).drop_first() =~= parsed_lines(parsed.drop_first()));
    }
}

/// An open reader gives out the text of the lines that it is handed, whole and
/// in order, up to the end of the answer; one that is at its end gives out
/// nothing. It stays open exactly while every line could be parsed and none
/// said `done`.
pub proof fn law_events_carry_the_text(
    reader: &mut StreamReader,
    parsed: Vec<Result<OllamaStreamLine, String>>,
    elapsed_millis: u64,
    list: Vec<Result<CompletionEvent, LiveError>>,
)
    requires
        call_ensures(StreamReader::events, (reader, parsed, elapsed_millis), list),
    ensures
        old(reader)@.open ==> told(list@) == carried(parsed@),
        !old(reader)@.open ==> list@.len() == 0,
        final(reader)@.open <==> old(reader)@.open && forall|i: int|
            0 <= i < parsed@.len() ==> (#[trigger] parsed@[i] matches Ok(line) && !line.done),
        final(reader)@.model == old(reader)@.model,
        final(reader)@.buffered == old(reader)@.buffered,
{
    lemma_told(list@);
    lemma_carried(parsed@);
    law_deltas_are_the_responses(old(reader)@.model, parsed_lines(parsed@), elapsed_millis);
    assert(items(list@).len() == list@.len());
    let views = parsed_lines(parsed@);
    assert(forall|i: int| 0 <= i < parsed@.len() ==> views[i] == parsed_line(#[trigger] parsed@[i]));
    if all_go_on(views) {
        assert forall|i: int| 0 <= i < parsed@.len() implies (#[trigger] parsed@[i] matches Ok(line)
            && !line.done) by {
            assert(line_goes_on(views[i]));
        }
    }
}

/// A line that says `done` gives a summary last: under the reader's model,
/// with the counts of the line where both are there. A line that cannot be
/// parsed gives that failure alone.
pub proof fn law_done_line_is_summarised(
    model: Seq<char>,
    line: OllamaStreamLineView,
    error: Seq<char>,
    elapsed_millis: u64,
)
    ensures
        ({
            let list = line_items(model, Ok(line), elapsed_millis);
            line.done ==> list.len() > 0 && (list.last() matches ItemView::Event(
                CompletionEventView::Done(summary),
            ) && {
                &&& summary.model == model
                &&& summary.elapsed_millis == elapsed_millis
                &&& summary.tokens_per_second is None
                &&& summary.usage is Some <==> line.prompt_eval_count is Some && line.eval_count
                    is Some
                &&& summary.usage matches Some(counts) ==> line.prompt_eval_count == Some(
                    counts.prompt_tokens,
                ) && line.eval_count == Some(counts.completion_tokens)
            })
        }),
        line.response.len() > 0 ==> line_items(model, Ok(line), elapsed_millis).len() > 0
            && line_items(model, Ok(line), elapsed_millis)[0] == ItemView::Event(
            CompletionEventView::Delta(line.response),
        ),
        line_items(model, Err(error), elapsed_millis) == seq![
            ItemView::Failed(LiveErrorView::Protocol("parse ollama stream line: "@ + error)),
        ],
{
}

/// A reader takes a chunk behind what it has. It fails exactly when that has
/// grown past a mebibyte and holds no newline; else it gives the lines out and
/// keeps what follows the last newline.
pub proof fn law_read_gives_the_lines(
    reader: &mut StreamReader,
    chunk: &[u8],
    lines: Result<Vec<String>, LiveError>,
)
    requires
        call_ensures(StreamReader::read, (reader, chunk), lines),
    ensures
        ({
            let bytes = old(reader)@.buffered + chunk@;
            let failed = bytes.len() > 1_048_576 && !bytes.contains(10u8);
            if !old(reader)@.open {
                &&& lines matches Ok(list) && list@.len() == 0
                &&& !final(reader)@.open
            } else if failed {
                &&& lines matches Err(error) && error@ is Protocol
                &&& !final(reader)@.open
            } else {
                &&& lines matches Ok(list) && Seq::new(list@.len(), |i: int| list@[i]@)
                    == ndjson::line_texts(bytes)
                &&& final(reader)@.buffered == ndjson::tail(bytes)
                &&& final(reader)@.open
            }
        }),
        final(reader)@.model == old(reader)@.model,
{
    let bytes = old(reader)@.buffered + chunk@;
    text::lemma_first_of(bytes, ndjson::NEWLINE);
    if bytes.contains(10u8) {
        let at = choose|i: int| 0 <= i < bytes.len() && bytes[i] == 10u8;
        assert(bytes[at] == ndjson::NEWLINE);
    }
    if let Ok(list) = lines {
        assert(text::texts(list@) =~= Seq::new(list@.len(), |i: int| list@[i]@));
    }
}

/// A reader whose bytes end, or break off, before the answer is complete fails
/// once; one that is at its end says nothing more.
pub proof fn law_cut_stream_fails(
    cut: &mut StreamReader,
    ended: Option<LiveError>,
    broken: &mut StreamReader,
    error: String,
    failed: Option<LiveError>,
)
    requires
        call_ensures(StreamReader::ended, (cut,), ended),
        call_ensures(StreamReader::read_failed, (broken, error), failed),
    ensures
        !final(cut)@.open && !final(broken)@.open,
        ended is Some <==> old(cut)@.open,
        ended matches Some(told) ==> told@ == LiveErrorView::Protocol(
            "ollama stream ended before a done line"@,
        ),
        failed is Some <==> old(broken)@.open,
        failed matches Some(told) ==> told@ == LiveErrorView::Transport(
            "ollama stream failed: "@ + error@,
        ),
{
}

/// What did not get through is a transport failure and what made no sense a
/// protocol one; either tells what the client said of it, whole.
pub proof fn law_faults_tell_what_happened(fault: OllamaFault, told: LiveError)
    requires
        call_ensures(OllamaFault::report, (fault,), told),
    ensures
        told@ is Transport || told@ is Protocol,
        told@ is Protocol <==> {
            ||| fault is ParseGenerate
            ||| fault is LineTooLong
            ||| fault is ParseLine
            ||| fault is StreamCut
            ||| fault is ParseTags
        },
        match fault {
            OllamaFault::SendGenerate { error } => told@ == LiveErrorView::Transport(
                "ollama generate: "@ + error@,
            ),
            OllamaFault::GenerateStatus { status, tail } => told@ == LiveErrorView::Transport(
                "ollama generate failed ("@ + status@ + "): "@ + tail@,
            ),
            OllamaFault::ParseGenerate { error } => told@ == LiveErrorView::Protocol(
                "parse ollama response: "@ + error@,
            ),
            OllamaFault::ParseLine { error } => told@ == LiveErrorView::Protocol(
                "parse ollama stream line: "@ + error@,
            ),
            OllamaFault::SendTags { error } => told@ == LiveErrorView::Transport(
                "ollama tags: "@ + error@,
            ),
            OllamaFault::TagsStatus { status } => told@ == LiveErrorView::Transport(
                "ollama tags failed ("@ + status@ + ")"@,
            ),
            OllamaFault::ParseTags { error } => told@ == LiveErrorView::Protocol(
                "parse ollama tags: "@ + error@,
            ),
            OllamaFault::BuildClient { error } => told@ == LiveErrorView::Transport(
                "build ollama client: "@ + error@,
            ),
            OllamaFault::BuildStreamClient { error } => told@ == LiveErrorView::Transport(
                "build ollama streaming client: "@ + error@,
            ),
            OllamaFault::LineTooLong => told@ == LiveErrorView::Protocol(
                "ollama stream line exceeded "@ + text::decimal(1_048_576)
                    + " bytes without a newline"@,
            ),
            OllamaFault::ReadStream { error } => told@ == LiveErrorView::Transport(
                "ollama stream failed: "@ + error@,
            ),
            OllamaFault::StreamCut => told@ == LiveErrorView::Protocol(
                "ollama stream ended before a done line"@,
            ),
        },
{
}

/// An answer other than success is a failure, and success is none.
pub proof fn law_status_decides(
    status: u16,
    shown: String,
    tail: String,
    taken: Result<(), LiveError>,
    listed: Result<(), LiveError>,
)
    requires
        call_ensures(generate_status, (status, shown, tail), taken),
        call_ensures(tags_status, (status, shown), listed),
    ensures
        taken is Ok <==> status as int / 100 == 2,
        listed is Ok <==> status as int / 100 == 2,
        taken matches Err(error) ==> error@ == LiveErrorView::Transport(
            "ollama generate failed ("@ + shown@ + "): "@ + tail@,
        ),
        listed matches Err(error) ==> error@ == LiveErrorView::Transport(
            "ollama tags failed ("@ + shown@ + ")"@,
        ),
{
}

/// A generation goes to the configured endpoint and model and carries the
/// request: its prompt, and each sampling option that it gives. It streams, and
/// is bounded read by read, exactly when that is asked for. Slashes at the end
/// of the endpoint do not count.
pub proof fn law_generation_carries_the_request(
    config: InferenceConfig,
    endpoint: Seq<char>,
    slashes: nat,
    engine: OllamaEngine,
    request: CompletionRequest,
    stream: bool,
    call: Result<GenerateCall, LiveError>,
)
    requires
        config.ollama_endpoint@ == endpoint + Seq::new(slashes, |i: int| '/'),
        endpoint.len() > 0 ==> endpoint.last() != '/',
        call_ensures(OllamaEngine::new, (&config,), engine),
        call_ensures(OllamaEngine::send_generate, (&engine, &request, stream), call),
    ensures
        call is Ok <==> exists|i: int|
            0 <= i < config.default_model@.len() && !text::white_space(
                #[trigger] config.default_model@[i],
            ),
        call matches Err(error) ==> error@ is Capability,
        call matches Ok(call) ==> {
            &&& call.url@ == endpoint + "/api/generate"@
            &&& call.model@ == config.default_model@
            &&& call.prompt@ == request.prompt@
            &&& call.stream == stream
            &&& stream ==> call.deadline == (Deadline::EachRead {
                secs: config.request_timeout_secs,
            })
            &&& !stream ==> call.deadline == (Deadline::Whole {
                secs: config.request_timeout_secs,
            })
            &&& match call.options {
                Some(options) => {
                    &&& options.num_predict == request.max_tokens
                    &&& options.temperature == request.temperature
                    &&& options.seed == request.seed
                },
                None => request.max_tokens is None && request.temperature is None
                    && request.seed is None,
            }
        },
{
    text::law_trim_end_matches(endpoint, '/', slashes);
    text::lemma_blank(config.default_model@);
}

/// Models are listed from the configured endpoint, in time as a whole. Each one
/// goes by its tag and keeps its size and its place.
pub proof fn law_tags_are_listed(
    config: InferenceConfig,
    endpoint: Seq<char>,
    slashes: nat,
    engine: OllamaEngine,
    call: TagsCall,
    tags: Vec<OllamaTag>,
    list: Vec<ModelInfo>,
)
    requires
        config.ollama_endpoint@ == endpoint + Seq::new(slashes, |i: int| '/'),
        endpoint.len() > 0 ==> endpoint.last() != '/',
        call_ensures(OllamaEngine::new, (&config,), engine),
        call_ensures(OllamaEngine::tags_call, (&engine,), call),
        call_ensures(OllamaEngine::list_models, (&engine, tags), list),
    ensures
        call.url@ == endpoint + "/api/tags"@,
        call.deadline == (Deadline::Whole { secs: config.request_timeout_secs }),
        list@.len() == tags@.len(),
        forall|i: int|
            0 <= i < tags@.len() ==> {
                let model = #[trigger] list@[i];
                &&& model.id@ == tags@[i].name@
                &&& model.name@ == tags@[i].name@
                &&& model.size == tags@[i].size
                &&& model.source@ == endpoint
                &&& model.engine@ == "ollama"@
            },
{
    text::law_trim_end_matches(endpoint, '/', slashes);
    let infos = models::infos(list@);
    assert(infos.len() == list@.len());
    assert(forall|i: int| 0 <= i < list@.len() ==> infos[i] == (#[trigger] list@[i])@);
}

/// A buffered answer becomes a completion with its whole text, under the
/// configured model, with the counts where both are there.
pub proof fn law_answer_is_completed_whole(
    config: InferenceConfig,
    engine: OllamaEngine,
    parsed: OllamaGenerateResponse,
    tokens_per_second: Option<Rate>,
    elapsed_millis: u64,
    completion: Completion,
    reader: StreamReader,
)
    requires
        call_ensures(OllamaEngine::new, (&config,), engine),
        call_ensures(
            OllamaEngine::complete,
            (&engine, parsed, tokens_per_second, elapsed_millis),
            completion,
        ),
        call_ensures(OllamaEngine::complete_stream, (&engine,), reader),
    ensures
        completion.text@ == parsed.response@,
        completion.model@ == config.default_model@,
        completion.tokens_per_second == tokens_per_second,
        completion.elapsed_millis == elapsed_millis,
        completion.usage is Some <==> parsed.prompt_eval_count is Some && parsed.eval_count is Some,
        completion.usage matches Some(counts) ==> parsed.prompt_eval_count == Some(
            counts.prompt_tokens,
        ) && parsed.eval_count == Some(counts.completion_tokens),
        reader@.model == config.default_model@,
        reader@.open && reader@.buffered.len() == 0,
{
}

/// A speed is measured exactly when tokens were counted over some time, and is
/// the quotient of the two.
pub proof fn law_speed_needs_time(
    eval_count: Option<u64>,
    eval_duration: Option<u64>,
    speed: Option<(u64, u64)>,
)
    requires
        call_ensures(measured_speed, (eval_count, eval_duration), speed),
    ensures
        speed is Some <==> eval_count is Some && eval_duration is Some && eval_duration->0 > 0,
        speed matches Some(quotient) ==> eval_count == Some(quotient.0) && eval_duration == Some(
            quotient.1,
        ),
{
}

/// The engine is known as `ollama`, keeps no sessions, and its streams are
/// native. A time limit is on each read of a stream and else on the whole.
pub proof fn law_ollama_profile(
    engine: OllamaEngine,
    profile: EngineProfile,
    stream: bool,
    secs: u64,
    limit: Deadline,
)
    requires
        call_ensures(OllamaEngine::profile, (&engine,), profile),
        call_ensures(deadline, (stream, secs), limit),
    ensures
        profile.name@ == "ollama"@,
        !profile.supports_sessions,
        profile.stream_kind is Native,
        limit is EachRead <==> stream,
        limit matches Deadline::EachRead { secs: each } ==> each == secs,
        limit matches Deadline::Whole { secs: whole } ==> whole == secs,
{
}

} // verus!
