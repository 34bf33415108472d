//! Requests to the daemon: what each one is about, which service it goes to,
//! and how the outcome is answered and recorded.

use vstd::prelude::*;
use crate::error::{Failure, FailureView, LiveError, LiveErrorView};
use crate::text;

verus! {

/// What an operation does to the daemon.
#[derive(Debug, Clone, Copy, PartialEq, Eq, Structural)]
pub enum OperationKind {
    /// It only reads.
    Read,
    /// It may change something.
    Write,
}

/// A node that reports itself. `N` is what it reports beside its name.
#[derive(Debug)]
pub struct Node<N> {
    pub node_id: String,
    pub details: N,
}

/// A request. `R` is the role of a turn, `I` the inputs of a run, `N` what a
/// node reports, and `P` the payload of a plugin call; they are carried to
/// their service as they stand.
#[derive(Debug)]
pub enum RpcRequest<R, I, N, P> {
    Handshake,
    Health,
    Shutdown,
    ModulesList,
    TracingGet,
    TracingSet { filter: String },
    RegistryList,
    RegistryPut {
        kind: String,
        media_type: String,
        filename: Option<String>,
        bytes: Vec<u8>,
    },
    RegistryGet { id: String },
    FilesList,
    FilesPut { media_type: String, filename: Option<String>, bytes: Vec<u8> },
    FilesGet { id: String },
    FilesRename { id: String, filename: String },
    HoloImport { name: String, bytes: Vec<u8> },
    HoloList,
    HoloInspect { kappa: String },
    HoloPlan { kappa: String },
    HoloVerify { kappa: String },
    HoloRemove { kappa: String },
    HoloLoad { kappa: String },
    HoloUnload { kappa: String },
    HoloRun { kappa: String, inputs: I },
    HoloResident,
    HistoryCreate { title: String },
    HistoryList { include_archived: bool },
    HistoryGet { id: String },
    HistoryAppend { id: String, role: R, content: String },
    HistoryArchive { id: String, archived: bool },
    HistoryDelete { id: String },
    ChatSend { id: String, content: String },
    ModelList,
    ModelImport { path: String },
    ModelRemove { id: String },
    NodesList,
    NodeHeartbeat { node: Node<N> },
    PluginList,
    PluginCall { plugin_id: String, operation: String, payload: P },
}

/// The thing that a request is about, by its name. A change of whether a
/// conversation is archived names nothing, and neither do requests for lists.
pub open spec fn resource<R, I, N, P>(request: RpcRequest<R, I, N, P>) -> Option<Seq<char>> {
    match request {
        RpcRequest::HoloInspect { kappa } => Some(kappa@),
        RpcRequest::HoloPlan { kappa } => Some(kappa@),
        RpcRequest::HoloVerify { kappa } => Some(kappa@),
        RpcRequest::HoloRemove { kappa } => Some(kappa@),
        RpcRequest::HoloLoad { kappa } => Some(kappa@),
        RpcRequest::HoloUnload { kappa } => Some(kappa@),
        RpcRequest::HoloRun { kappa, .. } => Some(kappa@),
        RpcRequest::RegistryGet { id } => Some(id@),
        RpcRequest::FilesGet { id } => Some(id@),
        RpcRequest::FilesRename { id, .. } => Some(id@),
        RpcRequest::HistoryGet { id } => Some(id@),
        RpcRequest::HistoryAppend { id, .. } => Some(id@),
        RpcRequest::HistoryDelete { id } => Some(id@),
        RpcRequest::ChatSend { id, .. } => Some(id@),
        RpcRequest::ModelRemove { id } => Some(id@),
        RpcRequest::ModelImport { path } => Some(path@),
        RpcRequest::RegistryPut { filename, .. } => text::opt(filename),
        RpcRequest::FilesPut { filename, .. } => text::opt(filename),
        RpcRequest::NodeHeartbeat { node } => Some(node.node_id@),
        RpcRequest::PluginCall { plugin_id, .. } => Some(plugin_id@),
        _ => None,
    }
}

/// The name of the thing that a request is about, if it names one.
pub fn resource_for<R, I, N, P>(request: &RpcRequest<R, I, N, P>) -> (name: Option<String>)
    ensures
        text::opt(name) == resource(*request),
{
    match request {
        RpcRequest::HoloInspect { kappa }
        | RpcRequest::HoloPlan { kappa }
        | RpcRequest::HoloVerify { kappa }
        | RpcRequest::HoloRemove { kappa }
        | RpcRequest::HoloLoad { kappa }
        | RpcRequest::HoloUnload { kappa }
        | RpcRequest::HoloRun { kappa, .. } => Some(kappa.clone()),
        RpcRequest::RegistryGet { id }
        | RpcRequest::FilesGet { id }
        | RpcRequest::FilesRename { id, .. }
        | RpcRequest::HistoryGet { id }
        | RpcRequest::HistoryAppend { id, .. }
        | RpcRequest::HistoryDelete { id }
        | RpcRequest::ChatSend { id, .. }
        | RpcRequest::ModelRemove { id } => Some(id.clone()),
        RpcRequest::ModelImport { path } => Some(path.clone()),
        RpcRequest::RegistryPut { filename, .. } | RpcRequest::FilesPut { filename, .. } => {
            match filename {
                Some(filename) => Some(filename.clone()),
                None => None,
            }
        },
        RpcRequest::NodeHeartbeat { node } => Some(node.node_id.clone()),
        RpcRequest::PluginCall { plugin_id, .. } => Some(plugin_id.clone()),
        _ => None,
    }
}

/// The shape of an answer that carries one value.
#[derive(Debug, Clone, Copy, PartialEq, Eq, Structural)]
pub enum Answer {
    CapabilityManifest,
    Health,
    Modules,
    Objects,
    Object,
    ObjectContent,
    HoloInspection,
    HoloList,
    HoloPlan,
    HoloRun,
    Conversation,
    Conversations,
    Models,
    Model,
    Nodes,
    Plugins,
    PluginResult,
}

/// Work of a service that yields a value.
#[derive(Debug)]
pub enum Work<R, I, P> {
    Manifest,
    Health,
    Modules,
    ListObjects { kind: Option<String> },
    PutObject {
        kind: String,
        media_type: String,
        filename: Option<String>,
        bytes: Vec<u8>,
    },
    GetObject { id: String },
    RenameFile { id: String, filename: String },
    ImportHolo { name: String, bytes: Vec<u8> },
    ListHolos,
    InspectHolo { kappa: String },
    PlanHolo { kappa: String },
    VerifyHolo { kappa: String },
    RunHolo { kappa: String, inputs: I },
    CreateConversation { title: String },
    ListConversations { include_archived: bool },
    GetConversation { id: String },
    AppendTurn { id: String, role: R, content: String },
    SetArchived { id: String, archived: bool },
    Chat { id: String, content: String },
    ListModels,
    ImportModel { path: String },
    ListNodes,
    ListPlugins,
    CallPlugin { plugin_id: String, operation: String, payload: P },
}

/// Work of a service that yields nothing.
#[derive(Debug)]
pub enum Errand<N> {
    Shutdown,
    RemoveHolo { kappa: String },
    UnloadHolo { kappa: String },
    DeleteConversation { id: String },
    RemoveModel { id: String },
    Heartbeat { node: Node<N> },
}

/// What is to be done for a request.
#[derive(Debug)]
pub enum Step<R, I, N, P> {
    /// Work whose value is answered in the given shape.
    Value { work: Work<R, I, P>, answer: Answer },
    /// Work that is answered by an acknowledgement.
    Errand(Errand<N>),
    /// Read the tracing filter.
    ReadFilter,
    /// Replace the tracing filter.
    SetFilter { filter: String },
    /// Load an artifact on behalf of a principal.
    Load { kappa: String, principal: String },
    /// List the artifacts that are loaded.
    ListResident,
}

/// Whether `step` is work of the given kind, answered in the given shape.
pub open spec fn asks<R, I, N, P>(
    step: Step<R, I, N, P>,
    work: Work<R, I, P>,
    answer: Answer,
) -> bool {
    step == Step::<R, I, N, P>::Value { work, answer }
}

/// Whether `step` lists the objects of a kind.
pub open spec fn lists_kind<R, I, N, P>(step: Step<R, I, N, P>, kind: Option<Seq<char>>) -> bool {
    step matches Step::Value { work: Work::ListObjects { kind: k }, answer } && text::opt(k)
        == kind && answer == Answer::Objects
}

/// Whether `step` stores the given object.
pub open spec fn puts<R, I, N, P>(
    step: Step<R, I, N, P>,
    kind: Seq<char>,
    media_type: String,
    filename: Option<String>,
    bytes: Vec<u8>,
) -> bool {
    step matches Step::Value {
        work: Work::PutObject { kind: k, media_type: m, filename: f, bytes: b },
        answer,
    } && k@ == kind && m == media_type && f == filename && b == bytes && answer == Answer::Object
}

/// Whether `step` is what is to be done for `request`. The files of a client
/// are the objects of kind "file".
pub open spec fn routed<R, I, N, P>(
    request: RpcRequest<R, I, N, P>,
    principal: Seq<char>,
    step: Step<R, I, N, P>,
) -> bool {
    match request {
        RpcRequest::Handshake => asks(step, Work::Manifest, Answer::CapabilityManifest),
        RpcRequest::Health => asks(step, Work::Health, Answer::Health),
        RpcRequest::Shutdown => step == Step::<R, I, N, P>::Errand(Errand::Shutdown),
        RpcRequest::ModulesList => asks(step, Work::Modules, Answer::Modules),
        RpcRequest::TracingGet => step == Step::<R, I, N, P>::ReadFilter,
        RpcRequest::TracingSet { filter } => step == (Step::<R, I, N, P>::SetFilter { filter }),
        RpcRequest::RegistryList => lists_kind(step, None),
        RpcRequest::FilesList => lists_kind(step, Some("file"@)),
        RpcRequest::RegistryPut { kind, media_type, filename, bytes } => puts(
            step,
            kind@,
            media_type,
            filename,
            bytes,
        ),
        RpcRequest::FilesPut { media_type, filename, bytes } => puts(
            step,
            "file"@,
            media_type,
            filename,
            bytes,
        ),
        RpcRequest::RegistryGet { id } => asks(
            step,
            Work::GetObject { id },
            Answer::ObjectContent,
        ),
        RpcRequest::FilesGet { id } => asks(step, Work::GetObject { id }, Answer::ObjectContent),
        RpcRequest::FilesRename { id, filename } => asks(
            step,
            Work::RenameFile { id, filename },
            Answer::Object,
        ),
        RpcRequest::HoloImport { name, bytes } => asks(
            step,
            Work::ImportHolo { name, bytes },
            Answer::HoloInspection,
        ),
        RpcRequest::HoloList => asks(step, Work::ListHolos, Answer::HoloList),
        RpcRequest::HoloInspect { kappa } => asks(
            step,
            Work::InspectHolo { kappa },
            Answer::HoloInspection,
        ),
        RpcRequest::HoloPlan { kappa } => asks(step, Work::PlanHolo { kappa }, Answer::HoloPlan),
        RpcRequest::HoloVerify { kappa } => asks(
            step,
            Work::VerifyHolo { kappa },
            Answer::HoloInspection,
        ),
        RpcRequest::HoloRemove { kappa } => step == Step::<R, I, N, P>::Errand(
            Errand::RemoveHolo { kappa },
        ),
        RpcRequest::HoloLoad { kappa } => step matches Step::Load { kappa: k, principal: p } && k
            == kappa && p@ == principal,
        RpcRequest::HoloUnload { kappa } => step == Step::<R, I, N, P>::Errand(
            Errand::UnloadHolo { kappa },
        ),
        RpcRequest::HoloRun { kappa, inputs } => asks(
            step,
            Work::RunHolo { kappa, inputs },
            Answer::HoloRun,
        ),
        RpcRequest::HoloResident => step == Step::<R, I, N, P>::ListResident,
        RpcRequest::HistoryCreate { title } => asks(
            step,
            Work::CreateConversation { title },
            Answer::Conversation,
        ),
        RpcRequest::HistoryList { include_archived } => asks(
            step,
            Work::ListConversations { include_archived },
            Answer::Conversations,
        ),
        RpcRequest::HistoryGet { id } => asks(
            step,
            Work::GetConversation { id },
            Answer::Conversation,
        ),
        RpcRequest::HistoryAppend { id, role, content } => asks(
            step,
            Work::AppendTurn { id, role, content },
            Answer::Conversation,
        ),
        RpcRequest::HistoryArchive { id, archived } => asks(
            step,
            Work::SetArchived { id, archived },
            Answer::Conversation,
        ),
        RpcRequest::HistoryDelete { id } => step == Step::<R, I, N, P>::Errand(
            Errand::DeleteConversation { id },
        ),
        RpcRequest::ChatSend { id, content } => asks(
            step,
            Work::Chat { id, content },
            Answer::Conversation,
        ),
        RpcRequest::ModelList => asks(step, Work::ListModels, Answer::Models),
        RpcRequest::ModelImport { path } => asks(step, Work::ImportModel { path }, Answer::Model),
        RpcRequest::ModelRemove { id } => step == Step::<R, I, N, P>::Errand(
            Errand::RemoveModel { id },
        ),
        RpcRequest::NodesList => asks(step, Work::ListNodes, Answer::Nodes),
        RpcRequest::NodeHeartbeat { node } => step == Step::<R, I, N, P>::Errand(
            Errand::Heartbeat { node },
        ),
        RpcRequest::PluginList => asks(step, Work::ListPlugins, Answer::Plugins),
        RpcRequest::PluginCall { plugin_id, operation, payload } => asks(
            step,
            Work::CallPlugin { plugin_id, operation, payload },
            Answer::PluginResult,
        ),
    }
}

/// What is to be done for a request of `principal`.
pub fn dispatch_authorized<R, I, N, P>(
    principal: &str,
    request: RpcRequest<R, I, N, P>,
) -> (step: Step<R, I, N, P>)
    ensures
        routed(request, principal@, step),
{
    match request {
        RpcRequest::Handshake => Step::Value {
            work: Work::Manifest,
            answer: Answer::CapabilityManifest,
        },
        RpcRequest::Health => Step::Value { work: Work::Health, answer: Answer::Health },
        RpcRequest::Shutdown => Step::Errand(Errand::Shutdown),
        RpcRequest::ModulesList => Step::Value { work: Work::Modules, answer: Answer::Modules },
        RpcRequest::TracingGet => Step::ReadFilter,
        RpcRequest::TracingSet { filter } => Step::SetFilter { filter },
        RpcRequest::RegistryList => Step::Value {
            work: Work::ListObjects { kind: None },
            answer: Answer::Objects,
        },
        RpcRequest::FilesList => Step::Value {
            work: Work::ListObjects { kind: Some("file".to_owned()) },
            answer: Answer::Objects,
        },
        RpcRequest::RegistryPut { kind, media_type, filename, bytes } => Step::Value {
            work: Work::PutObject { kind, media_type, filename, bytes },
            answer: Answer::Object,
        },
        RpcRequest::FilesPut { media_type, filename, bytes } => Step::Value {
            work: Work::PutObject { kind: "file".to_owned(), media_type, filename, bytes },
            answer: Answer::Object,
        },
        RpcRequest::RegistryGet { id } => Step::Value {
            work: Work::GetObject { id },
            answer: Answer::ObjectContent,
        },
        RpcRequest::FilesGet { id } => Step::Value {
            work: Work::GetObject { id },
            answer: Answer::ObjectContent,
        },
        RpcRequest::FilesRename { id, filename } => Step::Value {
            work: Work::RenameFile { id, filename },
            answer: Answer::Object,
        },
        RpcRequest::HoloImport { name, bytes } => Step::Value {
            work: Work::ImportHolo { name, bytes },
            answer: Answer::HoloInspection,
        },
        RpcRequest::HoloList => Step::Value { work: Work::ListHolos, answer: Answer::HoloList },
        RpcRequest::HoloInspect { kappa } => Step::Value {
            work: Work::InspectHolo { kappa },
            answer: Answer::HoloInspection,
        },
        RpcRequest::HoloPlan { kappa } => Step::Value {
            work: Work::PlanHolo { kappa },
            answer: Answer::HoloPlan,
        },
        RpcRequest::HoloVerify { kappa } => Step::Value {
            work: Work::VerifyHolo { kappa },
            answer: Answer::HoloInspection,
        },
        RpcRequest::HoloRemove { kappa } => Step::Errand(Errand::RemoveHolo { kappa }),
        RpcRequest::HoloLoad { kappa } => Step::Load { kappa, principal: principal.to_owned() },
        RpcRequest::HoloUnload { kappa } => Step::Errand(Errand::UnloadHolo { kappa }),
        RpcRequest::HoloRun { kappa, inputs } => Step::Value {
            work: Work::RunHolo { kappa, inputs },
            answer: Answer::HoloRun,
        },
        RpcRequest::HoloResident => Step::ListResident,
        RpcRequest::HistoryCreate { title } => Step::Value {
            work: Work::CreateConversation { title },
            answer: Answer::Conversation,
        },
        RpcRequest::HistoryList { include_archived } => Step::Value {
            work: Work::ListConversations { include_archived },
            answer: Answer::Conversations,
        },
        RpcRequest::HistoryGet { id } => Step::Value {
            work: Work::GetConversation { id },
            answer: Answer::Conversation,
        },
        RpcRequest::HistoryAppend { id, role, content } => Step::Value {
            work: Work::AppendTurn { id, role, content },
            answer: Answer::Conversation,
        },
        RpcRequest::HistoryArchive { id, archived } => Step::Value {
            work: Work::SetArchived { id, archived },
            answer: Answer::Conversation,
        },
        RpcRequest::HistoryDelete { id } => Step::Errand(Errand::DeleteConversation { id }),
        RpcRequest::ChatSend { id, content } => Step::Value {
            work: Work::Chat { id, content },
            answer: Answer::Conversation,
        },
        RpcRequest::ModelList => Step::Value { work: Work::ListModels, answer: Answer::Models },
        RpcRequest::ModelImport { path } => Step::Value {
            work: Work::ImportModel { path },
            answer: Answer::Model,
        },
        RpcRequest::ModelRemove { id } => Step::Errand(Errand::RemoveModel { id }),
        RpcRequest::NodesList => Step::Value { work: Work::ListNodes, answer: Answer::Nodes },
        RpcRequest::NodeHeartbeat { node } => Step::Errand(Errand::Heartbeat { node }),
        RpcRequest::PluginList => Step::Value {
            work: Work::ListPlugins,
            answer: Answer::Plugins,
        },
        RpcRequest::PluginCall { plugin_id, operation, payload } => Step::Value {
            work: Work::CallPlugin { plugin_id, operation, payload },
            answer: Answer::PluginResult,
        },
    }
}

/// A failure as clients see it.
#[derive(Debug)]
pub struct ApiError {
    pub code: String,
    pub message: String,
}

pub struct ApiErrorView {
    pub code: Seq<char>,
    pub message: Seq<char>,
}

impl View for ApiError {
    type V = ApiErrorView;

    open spec fn view(&self) -> ApiErrorView {
        ApiErrorView { code: self.code@, message: self.message@ }
    }
}

/// How a failure is shown to clients.
pub open spec fn api_error(failure: FailureView) -> ApiErrorView {
    ApiErrorView { code: failure.code, message: failure.text }
}

impl ApiError {
    /// How a failure is shown to clients.
    pub fn from_failure(failure: Failure) -> (shown: ApiError)
        ensures
            shown@ == api_error(failure@),
    {
        ApiError { code: failure.code, message: failure.text }
    }
}

/// An answer. `T` is what a service yields.
#[derive(Debug)]
pub enum RpcResponse<T> {
    Value { answer: Answer, value: T },
    HoloResident(Vec<T>),
    TracingFilter(String),
    Accepted,
    Error(ApiError),
}

/// Whether a response reports the given failure.
pub open spec fn reports<T>(response: RpcResponse<T>, failure: Failure) -> bool {
    response matches RpcResponse::Error(error) && error@ == api_error(failure@)
}

impl<T> RpcResponse<T> {
    /// The answer to work that yields a value.
    pub fn from_result(result: Result<T, Failure>, answer: Answer) -> (response: Self)
        ensures
            match result {
                Ok(value) => response == (RpcResponse::Value { answer, value }),
                Err(failure) => reports(response, failure),
            },
    {
        match result {
            Ok(value) => RpcResponse::Value { answer, value },
            Err(failure) => RpcResponse::Error(ApiError::from_failure(failure)),
        }
    }

    /// The answer to work that yields nothing.
    pub fn from_errand(result: Result<(), Failure>) -> (response: Self)
        ensures
            match result {
                Ok(_) => response == RpcResponse::<T>::Accepted,
                Err(failure) => reports(response, failure),
            },
    {
        match result {
            Ok(_) => RpcResponse::Accepted,
            Err(failure) => RpcResponse::Error(ApiError::from_failure(failure)),
        }
    }

    /// The answer to a request for the tracing filter.
    pub fn from_filter(current: Result<String, Failure>) -> (response: Self)
        ensures
            match current {
                Ok(filter) => response == RpcResponse::<T>::TracingFilter(filter),
                Err(failure) => reports(response, failure),
            },
    {
        match current {
            Ok(filter) => RpcResponse::TracingFilter(filter),
            Err(failure) => RpcResponse::Error(ApiError::from_failure(failure)),
        }
    }

    /// The answer to a change of the tracing filter: the new filter.
    pub fn from_filter_set(filter: String, result: Result<(), Failure>) -> (response: Self)
        ensures
            match result {
                Ok(_) => response == RpcResponse::<T>::TracingFilter(filter),
                Err(failure) => reports(response, failure),
            },
    {
        match result {
            Ok(_) => RpcResponse::TracingFilter(filter),
            Err(failure) => RpcResponse::Error(ApiError::from_failure(failure)),
        }
    }

    /// The answer to the loading of an artifact: a list of that one.
    pub fn from_load(result: Result<T, Failure>) -> (response: Self)
        ensures
            match result {
                Ok(value) => {
                    response matches RpcResponse::HoloResident(list) && list@ == seq![value]
                },
                Err(failure) => reports(response, failure),
            },
    {
        match result {
            Ok(value) => {
                let mut list: Vec<T> = Vec::new();
                list.push(value);
                RpcResponse::HoloResident(list)
            },
            Err(failure) => RpcResponse::Error(ApiError::from_failure(failure)),
        }
    }

    /// The answer to a request for what is loaded.
    pub fn from_resident(result: Result<Vec<T>, Failure>) -> (response: Self)
        ensures
            match result {
                Ok(list) => response == RpcResponse::HoloResident(list),
                Err(failure) => reports(response, failure),
            },
    {
        match result {
            Ok(list) => RpcResponse::HoloResident(list),
            Err(failure) => RpcResponse::Error(ApiError::from_failure(failure)),
        }
    }
}

/// What the work of a step yields.
#[derive(Debug)]
pub enum Yield<T> {
    Nothing,
    Value(T),
    List(Vec<T>),
    Text(String),
}

/// How the outcome of a step is answered.
#[derive(Debug)]
pub enum Reply {
    /// By its value, in the given shape.
    Value { answer: Answer },
    /// By an acknowledgement.
    Acknowledgement,
    /// By the tracing filter that was read.
    Filter,
    /// By the tracing filter that was set.
    NewFilter { filter: String },
    /// By a list of the artifact that was loaded.
    Loaded,
    /// By the list of the artifacts that are loaded.
    Resident,
}

/// How the outcome of `step` is answered.
pub open spec fn reply_to<R, I, N, P>(step: Step<R, I, N, P>) -> Reply {
    match step {
        Step::Value { answer, .. } => Reply::Value { answer },
        Step::Errand(_) => Reply::Acknowledgement,
        Step::ReadFilter => Reply::Filter,
        Step::SetFilter { filter } => Reply::NewFilter { filter },
        Step::Load { .. } => Reply::Loaded,
        Step::ListResident => Reply::Resident,
    }
}

/// Whether `response` answers `outcome` as `reply` says. There is no answer
/// to an outcome that is not one of the step's work.
pub open spec fn answered<T>(
    reply: Reply,
    outcome: Result<Yield<T>, Failure>,
    response: Option<RpcResponse<T>>,
) -> bool {
    match (reply, outcome) {
        (_, Err(failure)) => response matches Some(response) && reports(response, failure),
        (Reply::Value { answer }, Ok(Yield::Value(value))) => response == Some(
            RpcResponse::Value { answer, value },
        ),
        (Reply::Acknowledgement, Ok(Yield::Nothing)) => response == Some(
            RpcResponse::<T>::Accepted,
        ),
        (Reply::Filter, Ok(Yield::Text(filter))) => response == Some(
            RpcResponse::<T>::TracingFilter(filter),
        ),
        (Reply::NewFilter { filter }, Ok(Yield::Nothing)) => response == Some(
            RpcResponse::<T>::TracingFilter(filter),
        ),
        (Reply::Loaded, Ok(Yield::Value(value))) => response matches Some(
            RpcResponse::HoloResident(list),
        ) && list@ == seq![value],
        (Reply::Resident, Ok(Yield::List(list))) => response == Some(
            RpcResponse::HoloResident(list),
        ),
        _ => response is None,
    }
}

impl<R, I, N, P> Step<R, I, N, P> {
    /// How the outcome of the step is answered.
    pub fn reply(&self) -> (reply: Reply)
        ensures
            reply == reply_to(*self),
    {
        match self {
            Step::Value { answer, .. } => Reply::Value { answer: *answer },
            Step::Errand(_) => Reply::Acknowledgement,
            Step::ReadFilter => Reply::Filter,
            Step::SetFilter { filter } => Reply::NewFilter { filter: filter.clone() },
            Step::Load { .. } => Reply::Loaded,
            Step::ListResident => Reply::Resident,
        }
    }
}

impl Reply {
    /// The answer to the outcome of a step.
    pub fn respond<T>(self, outcome: Result<Yield<T>, Failure>) -> (response: Option<
        RpcResponse<T>,
    >)
        ensures
            answered(self, outcome, response),
    {
        let yielded = match outcome {
            Ok(yielded) => yielded,
            Err(failure) => {
                return Some(RpcResponse::Error(ApiError::from_failure(failure)));
            },
        };
        match (self, yielded) {
            (Reply::Value { answer }, Yield::Value(value)) => Some(
                RpcResponse::from_result(Ok(value), answer),
            ),
            (Reply::Acknowledgement, Yield::Nothing) => Some(RpcResponse::from_errand(Ok(()))),
            (Reply::Filter, Yield::Text(filter)) => Some(RpcResponse::from_filter(Ok(filter))),
            (Reply::NewFilter { filter }, Yield::Nothing) => Some(
                RpcResponse::from_filter_set(filter, Ok(())),
            ),
            (Reply::Loaded, Yield::Value(value)) => Some(RpcResponse::from_load(Ok(value))),
            (Reply::Resident, Yield::List(list)) => Some(RpcResponse::from_resident(Ok(list))),
            _ => None,
        }
    }
}

/// A request, with what the protocol says of it.
#[derive(Debug)]
pub struct Call<R, I, N, P> {
    pub operation: String,
    pub kind: OperationKind,
    pub request: RpcRequest<R, I, N, P>,
}

/// A request that the daemon provides for, and has yet to allow.
#[derive(Debug)]
pub struct Ticket<R, I, N, P> {
    principal: String,
    call: Call<R, I, N, P>,
}

/// A request that is allowed.
#[derive(Debug)]
pub struct Permit {
    principal: String,
    operation: String,
    kind: OperationKind,
    resource: Option<String>,
}

pub struct TicketView<R, I, N, P> {
    pub principal: Seq<char>,
    pub operation: Seq<char>,
    pub kind: OperationKind,
    pub request: RpcRequest<R, I, N, P>,
}

pub struct PermitView {
    pub principal: Seq<char>,
    pub operation: Seq<char>,
    pub kind: OperationKind,
    pub resource: Option<Seq<char>>,
}

impl<R, I, N, P> View for Ticket<R, I, N, P> {
    type V = TicketView<R, I, N, P>;

    closed spec fn view(&self) -> TicketView<R, I, N, P> {
        TicketView {
            principal: self.principal@,
            operation: self.call.operation@,
            kind: self.call.kind,
            request: self.call.request,
        }
    }
}

impl View for Permit {
    type V = PermitView;

    closed spec fn view(&self) -> PermitView {
        PermitView {
            principal: self.principal@,
            operation: self.operation@,
            kind: self.kind,
            resource: text::opt(self.resource),
        }
    }
}

/// What a request of `principal` is taken in as.
pub open spec fn ticket_for<R, I, N, P>(
    principal: Seq<char>,
    call: Call<R, I, N, P>,
) -> TicketView<R, I, N, P> {
    TicketView {
        principal,
        operation: call.operation@,
        kind: call.kind,
        request: call.request,
    }
}

/// What an allowed request is done under.
pub open spec fn permit_for<R, I, N, P>(ticket: TicketView<R, I, N, P>) -> PermitView {
    PermitView {
        principal: ticket.principal,
        operation: ticket.operation,
        kind: ticket.kind,
        resource: resource(ticket.request),
    }
}

/// An entry of the audit log.
#[derive(Debug)]
pub struct AuditEntry {
    pub principal: String,
    pub operation: String,
    pub resource: Option<String>,
    pub outcome: String,
}

#[verifier::ext_equal]
pub struct AuditEntryView {
    pub principal: Seq<char>,
    pub operation: Seq<char>,
    pub resource: Option<Seq<char>>,
    pub outcome: Seq<char>,
}

impl View for AuditEntry {
    type V = AuditEntryView;

    open spec fn view(&self) -> AuditEntryView {
        AuditEntryView {
            principal: self.principal@,
            operation: self.operation@,
            resource: text::opt(self.resource),
            outcome: self.outcome@,
        }
    }
}

/// What an optional entry says.
pub open spec fn opt_entry(entry: Option<AuditEntry>) -> Option<AuditEntryView> {
    match entry {
        Some(entry) => Some(entry@),
        None => None,
    }
}

/// How the audit log calls an outcome.
pub open spec fn outcome_text<T>(response: RpcResponse<T>) -> Seq<char> {
    match response {
        RpcResponse::Error(error) => "error:"@ + error.code@,
        _ => "accepted"@,
    }
}

/// What the audit log gets for a request that was answered: an entry, unless
/// the request only read.
pub open spec fn audited<T>(permit: PermitView, response: RpcResponse<T>) -> Option<
    AuditEntryView,
> {
    if permit.kind == OperationKind::Read {
        None
    } else {
        Some(
            AuditEntryView {
                principal: permit.principal,
                operation: permit.operation,
                resource: permit.resource,
                outcome: outcome_text(response),
            },
        )
    }
}

/// The refusal of an operation that nobody offers.
pub open spec fn not_provided(operation: Seq<char>) -> LiveErrorView {
    LiveErrorView::Capability("operation "@ + operation + " is not provided by this server"@)
}

/// Takes a request in. What neither a module nor a plugin offers is refused.
pub fn dispatch<R, I, N, P>(
    principal: &str,
    call: Call<R, I, N, P>,
    in_modules: bool,
    in_plugins: bool,
) -> (ticket: Result<Ticket<R, I, N, P>, LiveError>)
    ensures
        if in_modules || in_plugins {
            ticket matches Ok(ticket) && ticket@ == ticket_for(principal@, call)
        } else {
            ticket matches Err(error) && error@ == not_provided(call.operation@)
        },
{
    if !in_modules && !in_plugins {
        let mut message = text::concat("operation ", call.operation.as_str());
        message.append(" is not provided by this server");
        return Err(LiveError::Capability(message));
    }
    Ok(Ticket { principal: principal.to_owned(), call })
}

impl<R, I, N, P> Ticket<R, I, N, P> {
    /// Who asks.
    pub fn principal(&self) -> (principal: &str)
        ensures
            principal@ == self@.principal,
    {
        self.principal.as_str()
    }

    /// The operation that has to be allowed.
    pub fn operation(&self) -> (operation: &str)
        ensures
            operation@ == self@.operation,
    {
        self.call.operation.as_str()
    }

    /// What the operation does to the daemon.
    pub fn kind(&self) -> (kind: OperationKind)
        ensures
            kind == self@.kind,
    {
        self.call.kind
    }

    /// Goes on to what is to be done for the request, if it is allowed.
    pub fn authorized(self, verdict: Result<(), Failure>) -> (next: Result<
        (Permit, Step<R, I, N, P>),
        ApiError,
    >)
        ensures
            match verdict {
                Ok(_) => {
                    &&& next matches Ok(next)
                    &&& next.0@ == permit_for(self@)
                    &&& routed(self@.request, self@.principal, next.1)
                },
                Err(failure) => {
                    &&& next matches Err(error)
                    &&& error@ == api_error(failure@)
                },
            },
    {
        match verdict {
            Ok(_) => {
                let Call { operation, kind, request } = self.call;
                let resource = resource_for(&request);
                let step = dispatch_authorized(self.principal.as_str(), request);
                Ok((Permit { principal: self.principal, operation, kind, resource }, step))
            },
            Err(failure) => Err(ApiError::from_failure(failure)),
        }
    }
}

impl Permit {
    /// The audit entry of the request, given how it was answered.
    pub fn audit_entry<T>(self, response: &RpcResponse<T>) -> (entry: Option<AuditEntry>)
        ensures
            opt_entry(entry) == audited(self@, *response),
    {
        if self.kind == OperationKind::Read {
            return None;
        }
        let outcome = match response {
            RpcResponse::Error(error) => text::concat("error:", error.code.as_str()),
            _ => "accepted".to_owned(),
        };
        Some(
            AuditEntry {
                principal: self.principal,
                operation: self.operation,
                resource: self.resource,
                outcome,
            },
        )
    }
}

/// How a request that was answered with `response` stands in the audit log
/// tells whether it failed: "accepted" is never said of a failure.
pub proof fn law_failures_are_not_accepted<T>(permit: PermitView, response: RpcResponse<T>)
    requires
        permit.kind != OperationKind::Read,
    ensures
        audited(permit, response) matches Some(entry) && (entry.outcome == "accepted"@
            <==> response !is Error),
{
    reveal_strlit("accepted");
    reveal_strlit("error:");
    if response is Error {
        assert(outcome_text(response)[0] == 'e');
    }
}

/// A request is answered by the same service whoever makes it; only the
/// loading of an artifact is told who asked.
pub proof fn law_routing_ignores_the_principal<R, I, N, P>(
    request: RpcRequest<R, I, N, P>,
    one: Seq<char>,
    other: Seq<char>,
    step: Step<R, I, N, P>,
)
    requires
        routed(request, one, step),
        request !is HoloLoad,
    ensures
        routed(request, other, step),
{
}

/// Files are objects of kind "file": a file is stored as that object would be
/// through the registry.
pub proof fn law_files_are_objects<R, I, N, P>(
    kind: String,
    media_type: String,
    filename: Option<String>,
    bytes: Vec<u8>,
    principal: Seq<char>,
    step: Step<R, I, N, P>,
)
    requires
        kind@ == "file"@,
    ensures
        routed(
            RpcRequest::<R, I, N, P>::FilesPut { media_type, filename, bytes },
            principal,
            step,
        ) <==> routed(
            RpcRequest::<R, I, N, P>::RegistryPut { kind, media_type, filename, bytes },
            principal,
            step,
        ),
{
}

/// Whether `step` is what the daemon does for `request` when `principal` makes
/// it, at once or by way of a ticket.
pub open spec fn done_for<R, I, N, P>(
    principal: &str,
    request: RpcRequest<R, I, N, P>,
    step: Step<R, I, N, P>,
) -> bool {
    ||| call_ensures(dispatch_authorized::<R, I, N, P>, (principal, request), step)
    ||| exists|
        call: Call<R, I, N, P>,
        in_modules: bool,
        in_plugins: bool,
        ticket: Ticket<R, I, N, P>,
        permit: Permit,
    |
        {
            &&& call.request == request
            &&& #[trigger] call_ensures(
                dispatch::<R, I, N, P>,
                (principal, call, in_modules, in_plugins),
                Ok(ticket),
            )
            &&& #[trigger] call_ensures(
                Ticket::<R, I, N, P>::authorized,
                (ticket, Ok(())),
                Ok((permit, step)),
            )
        }
}

/// Requests about the daemon itself are asked of the daemon; a new tracing
/// filter is the one of the request.
pub proof fn law_system_requests_ask_the_daemon<R, I, N, P>(
    principal: &str,
    request: RpcRequest<R, I, N, P>,
    step: Step<R, I, N, P>,
)
    requires
        done_for(principal, request, step),
    ensures
        match request {
            RpcRequest::Handshake => {
                &&& step matches Step::Value { work: Work::Manifest, answer, }
                &&& answer == Answer::CapabilityManifest
            },
            RpcRequest::Health => {
                &&& step matches Step::Value { work: Work::Health, answer, }
                &&& answer == Answer::Health
            },
            RpcRequest::Shutdown => step matches Step::Errand(Errand::Shutdown),
            RpcRequest::ModulesList => {
                &&& step matches Step::Value { work: Work::Modules, answer, }
                &&& answer == Answer::Modules
            },
            RpcRequest::TracingGet => step is ReadFilter,
            RpcRequest::TracingSet { filter } => {
                &&& step matches Step::SetFilter { filter: set }
                &&& set@ == filter@
            },
            _ => true,
        },
{
}

/// Objects are stored with the kind, media type, name and bytes of the
/// request, and read and renamed by its id. Files are the objects of kind
/// "file".
pub proof fn law_objects_keep_their_contents<R, I, N, P>(
    principal: &str,
    request: RpcRequest<R, I, N, P>,
    step: Step<R, I, N, P>,
)
    requires
        done_for(principal, request, step),
    ensures
        match request {
            RpcRequest::RegistryList => {
                &&& step matches Step::Value { work: Work::ListObjects { kind }, answer }
                &&& kind is None
                &&& answer == Answer::Objects
            },
            RpcRequest::FilesList => {
                &&& step matches Step::Value { work, answer }
                &&& work matches Work::ListObjects { kind: Some(kind) }
                &&& kind@ == "file"@
                &&& answer == Answer::Objects
            },
            RpcRequest::RegistryPut { kind, media_type, filename, bytes } => {
                &&& step matches Step::Value { work, answer }
                &&& work matches Work::PutObject {
                    kind: its_kind,
                    media_type: its_media_type,
                    filename: its_filename,
                    bytes: its_bytes,
                }
                &&& its_kind@ == kind@
                &&& its_media_type@ == media_type@
                &&& text::opt(its_filename) == text::opt(filename)
                &&& its_bytes@ == bytes@
                &&& answer == Answer::Object
            },
            RpcRequest::FilesPut { media_type, filename, bytes } => {
                &&& step matches Step::Value { work, answer }
                &&& work matches Work::PutObject {
                    kind,
                    media_type: its_media_type,
                    filename: its_filename,
                    bytes: its_bytes,
                }
                &&& kind@ == "file"@
                &&& its_media_type@ == media_type@
                &&& text::opt(its_filename) == text::opt(filename)
                &&& its_bytes@ == bytes@
                &&& answer == Answer::Object
            },
            RpcRequest::RegistryGet { id } => {
                &&& step matches Step::Value { work: Work::GetObject { id: its_id }, answer, }
                &&& its_id@ == id@
                &&& answer == Answer::ObjectContent
            },
            RpcRequest::FilesGet { id } => {
                &&& step matches Step::Value { work: Work::GetObject { id: its_id }, answer, }
                &&& its_id@ == id@
                &&& answer == Answer::ObjectContent
            },
            RpcRequest::FilesRename { id, filename } => {
                &&& step matches Step::Value { work, answer }
                &&& work matches Work::RenameFile { id: its_id, filename: its_filename }
                &&& its_id@ == id@
                &&& its_filename@ == filename@
                &&& answer == Answer::Object
            },
            _ => true,
        },
{
}

/// Artifacts are imported with the bytes of the request, and else it is about
/// the one that it names. One is loaded on behalf of who asked.
pub proof fn law_artifacts_are_those_named<R, I, N, P>(
    principal: &str,
    request: RpcRequest<R, I, N, P>,
    step: Step<R, I, N, P>,
)
    requires
        done_for(principal, request, step),
    ensures
        match request {
            RpcRequest::HoloImport { name, bytes } => {
                &&& step matches Step::Value { work, answer }
                &&& work matches Work::ImportHolo { name: its_name, bytes: its_bytes }
                &&& its_name@ == name@
                &&& its_bytes@ == bytes@
                &&& answer == Answer::HoloInspection
            },
            RpcRequest::HoloList => {
                &&& step matches Step::Value { work: Work::ListHolos, answer, }
                &&& answer == Answer::HoloList
            },
            RpcRequest::HoloInspect { kappa } => {
                &&& step matches Step::Value { work, answer }
                &&& work matches Work::InspectHolo { kappa: its_kappa }
                &&& its_kappa@ == kappa@
                &&& answer == Answer::HoloInspection
            },
            RpcRequest::HoloPlan { kappa } => {
                &&& step matches Step::Value { work, answer }
                &&& work matches Work::PlanHolo { kappa: its_kappa }
                &&& its_kappa@ == kappa@
                &&& answer == Answer::HoloPlan
            },
            RpcRequest::HoloVerify { kappa } => {
                &&& step matches Step::Value { work, answer }
                &&& work matches Work::VerifyHolo { kappa: its_kappa }
                &&& its_kappa@ == kappa@
                &&& answer == Answer::HoloInspection
            },
            RpcRequest::HoloRemove { kappa } => {
                &&& step matches Step::Errand(Errand::RemoveHolo { kappa: its_kappa })
                &&& its_kappa@ == kappa@
            },
            RpcRequest::HoloLoad { kappa } => {
                &&& step matches Step::Load { kappa: its_kappa, principal: asks }
                &&& its_kappa@ == kappa@
                &&& asks@ == principal@
            },
            RpcRequest::HoloUnload { kappa } => {
                &&& step matches Step::Errand(Errand::UnloadHolo { kappa: its_kappa })
                &&& its_kappa@ == kappa@
            },
            RpcRequest::HoloRun { kappa, inputs } => {
                &&& step matches Step::Value { work, answer }
                &&& work matches Work::RunHolo { kappa: its_kappa, inputs: its_inputs }
                &&& its_kappa@ == kappa@
                &&& its_inputs == inputs
                &&& answer == Answer::HoloRun
            },
            RpcRequest::HoloResident => step is ListResident,
            _ => true,
        },
{
}

/// Conversations are made, read and changed as the request says: the one that
/// it names, with its turn, and archived exactly when it says so.
pub proof fn law_conversations_change_as_asked<R, I, N, P>(
    principal: &str,
    request: RpcRequest<R, I, N, P>,
    step: Step<R, I, N, P>,
)
    requires
        done_for(principal, request, step),
    ensures
        match request {
            RpcRequest::HistoryCreate { title } => {
                &&& step matches Step::Value { work, answer }
                &&& work matches Work::CreateConversation { title: its_title }
                &&& its_title@ == title@
                &&& answer == Answer::Conversation
            },
            RpcRequest::HistoryList { include_archived } => {
                &&& step matches Step::Value { work, answer }
                &&& work matches Work::ListConversations {
                    include_archived: its_include_archived,
                }
                &&& its_include_archived == include_archived
                &&& answer == Answer::Conversations
            },
            RpcRequest::HistoryGet { id } => {
                &&& step matches Step::Value { work, answer }
                &&& work matches Work::GetConversation { id: its_id }
                &&& its_id@ == id@
                &&& answer == Answer::Conversation
            },
            RpcRequest::HistoryAppend { id, role, content } => {
                &&& step matches Step::Value { work, answer }
                &&& work matches Work::AppendTurn {
                    id: its_id,
                    role: its_role,
                    content: its_content,
                }
                &&& its_id@ == id@
                &&& its_role == role
                &&& its_content@ == content@
                &&& answer == Answer::Conversation
            },
            RpcRequest::HistoryArchive { id, archived } => {
                &&& step matches Step::Value { work, answer }
                &&& work matches Work::SetArchived { id: its_id, archived: its_archived }
                &&& its_id@ == id@
                &&& its_archived == archived
                &&& answer == Answer::Conversation
            },
            RpcRequest::HistoryDelete { id } => {
                &&& step matches Step::Errand(Errand::DeleteConversation { id: its_id })
                &&& its_id@ == id@
            },
            RpcRequest::ChatSend { id, content } => {
                &&& step matches Step::Value { work, answer }
                &&& work matches Work::Chat { id: its_id, content: its_content }
                &&& its_id@ == id@
                &&& its_content@ == content@
                &&& answer == Answer::Conversation
            },
            _ => true,
        },
{
}

/// Models, nodes and plugins get what the request carries for them.
pub proof fn law_models_nodes_and_plugins_get_their_values<R, I, N, P>(
    principal: &str,
    request: RpcRequest<R, I, N, P>,
    step: Step<R, I, N, P>,
)
    requires
        done_for(principal, request, step),
    ensures
        match request {
            RpcRequest::ModelList => {
                &&& step matches Step::Value { work: Work::ListModels, answer, }
                &&& answer == Answer::Models
            },
            RpcRequest::ModelImport { path } => {
                &&& step matches Step::Value { work, answer }
                &&& work matches Work::ImportModel { path: its_path }
                &&& its_path@ == path@
                &&& answer == Answer::Model
            },
            RpcRequest::ModelRemove { id } => {
                &&& step matches Step::Errand(Errand::RemoveModel { id: its_id })
                &&& its_id@ == id@
            },
            RpcRequest::NodesList => {
                &&& step matches Step::Value { work: Work::ListNodes, answer, }
                &&& answer == Answer::Nodes
            },
            RpcRequest::NodeHeartbeat { node } => {
                &&& step matches Step::Errand(Errand::Heartbeat { node: reported })
                &&& reported.node_id@ == node.node_id@
                &&& reported.details == node.details
            },
            RpcRequest::PluginList => {
                &&& step matches Step::Value { work: Work::ListPlugins, answer, }
                &&& answer == Answer::Plugins
            },
            RpcRequest::PluginCall { plugin_id, operation, payload } => {
                &&& step matches Step::Value { work, answer }
                &&& work matches Work::CallPlugin {
                    plugin_id: its_plugin_id,
                    operation: its_operation,
                    payload: its_payload,
                }
                &&& its_plugin_id@ == plugin_id@
                &&& its_operation@ == operation@
                &&& its_payload == payload
                &&& answer == Answer::PluginResult
            },
            _ => true,
        },
{
}


/// A request goes through the daemon unchanged: what nobody offers is refused
/// by the name of its operation, what is not allowed by the reason, and what
/// is allowed is done under its own operation, on behalf of who asked.
pub proof fn law_dispatch_serves_the_request<R, I, N, P>(
    principal: &str,
    call: Call<R, I, N, P>,
    in_modules: bool,
    in_plugins: bool,
    ticket: Result<Ticket<R, I, N, P>, LiveError>,
    verdict: Result<(), Failure>,
    next: Result<(Permit, Step<R, I, N, P>), ApiError>,
)
    requires
        call_ensures(
            dispatch::<R, I, N, P>,
            (principal, call, in_modules, in_plugins),
            ticket,
        ),
        ticket is Ok ==> call_ensures(
            Ticket::<R, I, N, P>::authorized,
            (ticket->Ok_0, verdict),
            next,
        ),
    ensures
        ticket is Ok <==> in_modules || in_plugins,
        ticket matches Err(error) ==> error@ == LiveErrorView::Capability(
            "operation "@ + call.operation@ + " is not provided by this server"@,
        ),
        ticket is Ok ==> match verdict {
            Ok(_) => next matches Ok(allowed) && {
                &&& allowed.0@.principal == principal@
                &&& allowed.0@.operation == call.operation@
                &&& allowed.0@.kind == call.kind
            },
            Err(failure) => next matches Err(error) && error.code@ == failure.code@
                && error.message@ == failure.text@,
        },
{
}

/// Who asks, for what and how, is told of a request as it came in.
pub proof fn law_ticket_tells_the_request<R, I, N, P>(
    principal: &str,
    call: Call<R, I, N, P>,
    in_modules: bool,
    in_plugins: bool,
    ticket: Ticket<R, I, N, P>,
    asks: &str,
    operation: &str,
    kind: OperationKind,
)
    requires
        call_ensures(
            dispatch::<R, I, N, P>,
            (principal, call, in_modules, in_plugins),
            Ok(ticket),
        ),
        call_ensures(Ticket::<R, I, N, P>::principal, (&ticket,), asks),
        call_ensures(Ticket::<R, I, N, P>::operation, (&ticket,), operation),
        call_ensures(Ticket::<R, I, N, P>::kind, (&ticket,), kind),
    ensures
        asks@ == principal@,
        operation@ == call.operation@,
        kind == call.kind,
{
}

/// An audit entry stands for the request: who asked for which operation, about
/// what, and how it came out. Requests that only read leave none.
pub proof fn law_audit_entry_tells_the_request<R, I, N, P, T>(
    principal: &str,
    call: Call<R, I, N, P>,
    in_modules: bool,
    in_plugins: bool,
    ticket: Ticket<R, I, N, P>,
    permit: Permit,
    step: Step<R, I, N, P>,
    name: Option<String>,
    response: RpcResponse<T>,
    entry: Option<AuditEntry>,
)
    requires
        call_ensures(
            dispatch::<R, I, N, P>,
            (principal, call, in_modules, in_plugins),
            Ok(ticket),
        ),
        call_ensures(
            Ticket::<R, I, N, P>::authorized,
            (ticket, Ok(())),
            Ok((permit, step)),
        ),
        call_ensures(resource_for::<R, I, N, P>, (&call.request,), name),
        call_ensures(Permit::audit_entry::<T>, (permit, &response), entry),
    ensures
        entry is None <==> call.kind == OperationKind::Read,
        entry matches Some(told) ==> {
            &&& told.principal@ == principal@
            &&& told.operation@ == call.operation@
            &&& told.resource is Some <==> name is Some
            &&& told.resource matches Some(about) ==> about@ == name->0@
            &&& match response {
                RpcResponse::Error(error) => told.outcome@ == "error:"@ + error.code@,
                _ => told.outcome@ == "accepted"@,
            }
        },
{
    assert(opt_entry(entry) == audited(permit@, response));
}

/// A request is about the thing that it names, under that very name.
pub proof fn law_resource_is_what_the_request_names<R, I, N, P>(
    request: RpcRequest<R, I, N, P>,
    name: Option<String>,
)
    requires
        call_ensures(resource_for::<R, I, N, P>, (&request,), name),
    ensures
        match request {
            RpcRequest::HoloInspect { kappa }
            | RpcRequest::HoloPlan { kappa }
            | RpcRequest::HoloVerify { kappa }
            | RpcRequest::HoloRemove { kappa }
            | RpcRequest::HoloLoad { kappa }
            | RpcRequest::HoloUnload { kappa }
            | RpcRequest::HoloRun { kappa, .. } => name matches Some(about) && about@ == kappa@,
            RpcRequest::RegistryGet { id }
            | RpcRequest::FilesGet { id }
            | RpcRequest::FilesRename { id, .. }
            | RpcRequest::HistoryGet { id }
            | RpcRequest::HistoryAppend { id, .. }
            | RpcRequest::HistoryDelete { id }
            | RpcRequest::ChatSend { id, .. }
            | RpcRequest::ModelRemove { id } => name matches Some(about) && about@ == id@,
            RpcRequest::ModelImport { path } => name matches Some(about) && about@ == path@,
            RpcRequest::RegistryPut { filename, .. } | RpcRequest::FilesPut { filename, .. } => {
                match filename {
                    Some(filename) => name matches Some(about) && about@ == filename@,
                    None => name is None,
                }
            },
            RpcRequest::NodeHeartbeat { node } => name matches Some(about) && about@
                == node.node_id@,
            RpcRequest::PluginCall { plugin_id, .. } => name matches Some(about) && about@
                == plugin_id@,
            _ => name is None,
        },
{
}

/// What a step yields is what the answer carries, and a failure is answered
/// with its code and its text, whatever the step was.
pub proof fn law_answers_carry_what_was_yielded<R, I, N, P, T>(
    step: Step<R, I, N, P>,
    reply: Reply,
    outcome: Result<Yield<T>, Failure>,
    response: Option<RpcResponse<T>>,
)
    requires
        call_ensures(Step::<R, I, N, P>::reply, (&step,), reply),
        call_ensures(Reply::respond::<T>, (reply, outcome), response),
    ensures
        outcome matches Err(failure) ==> (response matches Some(RpcResponse::Error(error))
            && error.code@ == failure.code@ && error.message@ == failure.text@),
        outcome matches Ok(Yield::Value(value)) ==> match step {
            Step::Value { answer, .. } => response matches Some(
                RpcResponse::Value { answer: shape, value: told },
            ) && shape == answer && told == value,
            Step::Load { .. } => response matches Some(RpcResponse::HoloResident(list))
                && list@.len() == 1 && list@[0] == value,
            _ => response is None,
        },
        outcome matches Ok(Yield::Nothing) ==> match step {
            Step::Errand(_) => response matches Some(RpcResponse::Accepted),
            Step::SetFilter { filter } => response matches Some(RpcResponse::TracingFilter(told))
                && told@ == filter@,
            _ => response is None,
        },
        outcome matches Ok(Yield::Text(text)) ==> match step {
            Step::ReadFilter => response matches Some(RpcResponse::TracingFilter(told)) && told@
                == text@,
            _ => response is None,
        },
        outcome matches Ok(Yield::List(list)) ==> match step {
            Step::ListResident => response matches Some(RpcResponse::HoloResident(told)) && told@
                == list@,
            _ => response is None,
        },
{
}

/// The outcomes of single services are answered likewise.
pub proof fn law_service_outcomes_are_answered<T>(
    answer: Answer,
    value: Result<T, Failure>,
    valued: RpcResponse<T>,
    loaded: RpcResponse<T>,
    errand: Result<(), Failure>,
    acknowledged: RpcResponse<T>,
    filter: String,
    set: RpcResponse<T>,
    current: Result<String, Failure>,
    read: RpcResponse<T>,
    resident: Result<Vec<T>, Failure>,
    listed: RpcResponse<T>,
)
    requires
        call_ensures(RpcResponse::<T>::from_result, (value, answer), valued),
        call_ensures(RpcResponse::<T>::from_load, (value,), loaded),
        call_ensures(RpcResponse::<T>::from_errand, (errand,), acknowledged),
        call_ensures(RpcResponse::<T>::from_filter_set, (filter, errand), set),
        call_ensures(RpcResponse::<T>::from_filter, (current,), read),
        call_ensures(RpcResponse::<T>::from_resident, (resident,), listed),
    ensures
        match value {
            Ok(value) => {
                &&& valued matches RpcResponse::Value { answer: shape, value: told } && shape
                    == answer && told == value
                &&& loaded matches RpcResponse::HoloResident(list) && list@.len() == 1 && list@[0]
                    == value
            },
            Err(failure) => tells(valued, failure) && tells(loaded, failure),
        },
        match errand {
            Ok(_) => {
                &&& acknowledged is Accepted
                &&& set matches RpcResponse::TracingFilter(told) && told@ == filter@
            },
            Err(failure) => tells(acknowledged, failure) && tells(set, failure),
        },
        match current {
            Ok(filter) => read matches RpcResponse::TracingFilter(told) && told@ == filter@,
            Err(failure) => tells(read, failure),
        },
        match resident {
            Ok(list) => listed matches RpcResponse::HoloResident(told) && told@ == list@,
            Err(failure) => tells(listed, failure),
        },
{
}

/// Whether a response tells the code and the text of a failure.
pub open spec fn tells<T>(response: RpcResponse<T>, failure: Failure) -> bool {
    response matches RpcResponse::Error(error) && error.code@ == failure.code@ && error.message@
        == failure.text@
}

} // verus!
