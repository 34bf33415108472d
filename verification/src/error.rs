//! Failures of the daemon.

use vstd::prelude::*;
use crate::text;

verus! {

/// A failure, by kind, with its message.
#[derive(Debug)]
pub enum LiveError {
    Capability(String),
    Config(String),
    Conflict(String),
    InvalidHolo(String),
    Io(String),
    NotFound(String),
    Protocol(String),
    Transport(String),
    /// A failure of any further kind.
    Other(String),
}

/// What a [`LiveError`] says.
pub enum LiveErrorView {
    Capability(Seq<char>),
    Config(Seq<char>),
    Conflict(Seq<char>),
    InvalidHolo(Seq<char>),
    Io(Seq<char>),
    NotFound(Seq<char>),
    Protocol(Seq<char>),
    Transport(Seq<char>),
    Other(Seq<char>),
}

impl View for LiveError {
    type V = LiveErrorView;

    open spec fn view(&self) -> LiveErrorView {
        match self {
            LiveError::Capability(m) => LiveErrorView::Capability(m@),
            LiveError::Config(m) => LiveErrorView::Config(m@),
            LiveError::Conflict(m) => LiveErrorView::Conflict(m@),
            LiveError::InvalidHolo(m) => LiveErrorView::InvalidHolo(m@),
            LiveError::Io(m) => LiveErrorView::Io(m@),
            LiveError::NotFound(m) => LiveErrorView::NotFound(m@),
            LiveError::Protocol(m) => LiveErrorView::Protocol(m@),
            LiveError::Transport(m) => LiveErrorView::Transport(m@),
            LiveError::Other(m) => LiveErrorView::Other(m@),
        }
    }
}

/// How a request that failed is answered over HTTP.
#[derive(Debug, Clone, Copy, PartialEq, Eq, Structural)]
pub enum FaultClass {
    /// What was asked for is not there.
    NotFound,
    /// The request cannot be served as it stands.
    Invalid,
    /// The daemon or its engine failed.
    Server,
}

/// The class of a failure: missing things are the only ones "not found";
/// configuration, protocol and artifact problems are the caller's.
pub open spec fn class_of(error: LiveErrorView) -> FaultClass {
    match error {
        LiveErrorView::NotFound(_) => FaultClass::NotFound,
        LiveErrorView::Config(_) => FaultClass::Invalid,
        LiveErrorView::Protocol(_) => FaultClass::Invalid,
        LiveErrorView::InvalidHolo(_) => FaultClass::Invalid,
        _ => FaultClass::Server,
    }
}

impl LiveError {
    /// The class under which this failure is answered.
    pub fn class(&self) -> (class: FaultClass)
        ensures
            class == class_of(self@),
    {
        match self {
            LiveError::NotFound(_) => FaultClass::NotFound,
            LiveError::Config(_) | LiveError::Protocol(_) | LiveError::InvalidHolo(_) =>
                FaultClass::Invalid,
            _ => FaultClass::Server,
        }
    }
}

/// A failure with the way it is shown to clients: its full text and its
/// stable code.
#[derive(Debug)]
pub struct Failure {
    pub error: LiveError,
    pub text: String,
    pub code: String,
}

pub struct FailureView {
    pub error: LiveErrorView,
    pub text: Seq<char>,
    pub code: Seq<char>,
}

impl View for Failure {
    type V = FailureView;

    open spec fn view(&self) -> FailureView {
        FailureView { error: self.error@, text: self.text@, code: self.code@ }
    }
}

/// The failure of a background task: a conflict that says what `task` was and
/// why it could not be joined.
pub fn join_failed(task: &str, error: &str) -> (failed: LiveError)
    ensures
        failed@ == LiveErrorView::Conflict("join "@ + task@ + ": "@ + error@),
{
    let mut message = text::concat("join ", task);
    message.append(": ");
    message.append(error);
    LiveError::Conflict(message)
}

/// The failure of blocking work that could not be finished.
pub fn blocking_failed(error: &str) -> (failed: LiveError)
    ensures
        failed@ == LiveErrorView::Conflict("blocking task failed: "@ + error@),
{
    LiveError::Conflict(text::concat("blocking task failed: ", error))
}

/// A failure counts as "not found" exactly when something is missing, and as
/// the caller's exactly when it is of the configuration, the protocol or an
/// artifact.
pub proof fn law_failures_have_their_class(error: LiveError, class: FaultClass)
    requires
        call_ensures(LiveError::class, (&error,), class),
    ensures
        class == FaultClass::NotFound <==> error is NotFound,
        class == FaultClass::Invalid <==> error is Config || error is Protocol || error
            is InvalidHolo,
{
}

/// Work that was lost is a conflict that says which and why.
pub proof fn law_lost_work_is_told(
    task: &str,
    error: &str,
    lost: LiveError,
    blocked: LiveError,
)
    requires
        call_ensures(join_failed, (task, error), lost),
        call_ensures(blocking_failed, (error,), blocked),
    ensures
        lost matches LiveError::Conflict(message) && message@ == "join "@ + task@ + ": "@ + error@,
        blocked matches LiveError::Conflict(message) && message@ == "blocking task failed: "@
            + error@,
{
}

} // verus!
