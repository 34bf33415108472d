//! Local fallback engine: the assistant response repeats the user's message.

use vstd::prelude::*;
use crate::inference;
use crate::inference::{Completion, CompletionRequest, EngineProfile, StreamKind};
use crate::models::ModelInfo;
use crate::text;

verus! {

#[derive(Debug)]
pub struct EchoEngine;

impl EchoEngine {
    pub fn name(&self) -> (name: &'static str)
        ensures
            name@ == "echo"@,
    {
        "echo"
    }

    pub fn supports_sessions(&self) -> (yes: bool)
        ensures
            yes == false,
    {
        false
    }

    pub fn stream_kind(&self) -> (kind: StreamKind)
        ensures
            kind == StreamKind::Buffered,
    {
        StreamKind::Buffered
    }

    pub fn profile(&self) -> (profile: EngineProfile)
        ensures
            profile.name@ == "echo"@,
            profile.supports_sessions == false,
            profile.stream_kind == StreamKind::Buffered,
    {
        EngineProfile {
            name: self.name(),
            supports_sessions: self.supports_sessions(),
            stream_kind: self.stream_kind(),
        }
    }
}

/// What follows `user: ` on the last of the lines that start with it.
pub open spec fn newest_user_turn(lines: Seq<Seq<char>>) -> Option<Seq<char>>
    decreases lines.len(),
{
    if lines.len() == 0 {
        None
    } else if "user: "@.is_prefix_of(lines.last()) {
        Some(lines.last().skip("user: "@.len() as int))
    } else {
        newest_user_turn(lines.drop_last())
    }
}

/// The text that the engine answers with: the newest user turn of a
/// transcript, or a prompt without one unchanged.
pub open spec fn echoed(prompt: Seq<char>) -> Seq<char> {
    match newest_user_turn(text::lines(prompt)) {
        Some(turn) => turn,
        None => prompt,
    }
}

/// Newest user turn of a rendered `role: content` transcript. Prompts without
/// transcript framing are returned unchanged.
pub fn last_user_content(prompt: &str) -> (content: String)
    ensures
        content@ == echoed(prompt@),
{
    let lines = text::lines_of(prompt);
    let ghost all = text::texts(lines@);
    let mut left: usize = lines.len();
    assert(all.take(left as int) =~= all);
    while left > 0
        invariant
            left <= lines@.len(),
            all == text::texts(lines@),
            all == text::lines(prompt@),
            newest_user_turn(all) == newest_user_turn(all.take(left as int)),
        decreases left,
    {
        assert(all.take(left as int).drop_last() =~= all.take(left - 1));
        assert(all.take(left as int).last() == lines@[left - 1]@);
        match text::strip_prefix(lines[left - 1].as_str(), "user: ") {
            Some(content) => {
                assert(content@ =~= lines@[left - 1]@.skip("user: "@.len() as int));
                return content.to_owned();
            },
            None => {},
        }
        left = left - 1;
    }
    prompt.to_owned()
}

impl EchoEngine {
    /// Answers `request` with its newest user turn, after `elapsed_millis`.
    pub fn complete(&self, request: &CompletionRequest, elapsed_millis: u64) -> (completion:
        Completion)
        ensures
            completion@ == inference::local_completion(
                echoed(request@.prompt),
                "echo"@,
                None,
                elapsed_millis,
                None,
            ),
    {
        Completion::local(
            last_user_content(request.prompt.as_str()),
            "echo".to_owned(),
            None,
            elapsed_millis,
            None,
        )
    }

    /// The engine has no models of its own.
    pub fn list_models(&self) -> (models: Vec<ModelInfo>)
        ensures
            models@.len() == 0,
    {
        Vec::new()
    }
}

/// A prompt without a line of the user comes back unchanged.
pub proof fn law_bare_prompt_is_unchanged(prompt: &str, content: String)
    requires
        forall|i: int|
            0 <= i < text::lines(prompt@).len() ==> !"user: "@.is_prefix_of(
                #[trigger] text::lines(prompt@)[i],
            ),
        call_ensures(last_user_content, (prompt,), content),
    ensures
        content@ == prompt@,
{
    lemma_no_user_turn(text::lines(prompt@));
}

proof fn lemma_no_user_turn(lines: Seq<Seq<char>>)
    requires
        forall|i: int| 0 <= i < lines.len() ==> !"user: "@.is_prefix_of(#[trigger] lines[i]),
    ensures
        newest_user_turn(lines) is None,
    decreases lines.len(),
{
    if lines.len() > 0 {
        assert(lines.last() == lines[lines.len() - 1]);
        assert forall|i: int| 0 <= i < lines.drop_last().len() implies !"user: "@.is_prefix_of(
            #[trigger] lines.drop_last()[i],
        ) by {
            assert(lines.drop_last()[i] == lines[i]);
        }
        lemma_no_user_turn(lines.drop_last());
    }
}

/// The answer is what follows `user: ` on the last line that starts so, with
/// every character of it.
pub proof fn law_newest_user_turn_is_echoed(prompt: &str, at: int, content: String)
    requires
        0 <= at < text::lines(prompt@).len(),
        "user: "@.is_prefix_of(text::lines(prompt@)[at]),
        forall|i: int|
            at < i < text::lines(prompt@).len() ==> !"user: "@.is_prefix_of(
                #[trigger] text::lines(prompt@)[i],
            ),
        call_ensures(last_user_content, (prompt,), content),
    ensures
        "user: "@ + content@ == text::lines(prompt@)[at],
{
    let lines = text::lines(prompt@);
    lemma_newest_user_turn(lines, at);
    assert("user: "@ + content@ =~= lines[at]);
}

proof fn lemma_newest_user_turn(lines: Seq<Seq<char>>, at: int)
    requires
        0 <= at < lines.len(),
        "user: "@.is_prefix_of(lines[at]),
        forall|i: int| at < i < lines.len() ==> !"user: "@.is_prefix_of(#[trigger] lines[i]),
    ensures
        newest_user_turn(lines) == Some(lines[at].skip("user: "@.len() as int)),
    decreases lines.len(),
{
    if at < lines.len() - 1 {
        assert(lines.last() == lines[lines.len() - 1]);
        assert forall|i: int| at < i < lines.drop_last().len() implies !"user: "@.is_prefix_of(
            #[trigger] lines.drop_last()[i],
        ) by {
            assert(lines.drop_last()[i] == lines[i]);
        }
        lemma_newest_user_turn(lines.drop_last(), at);
    }
}

/// The engine's completion is the echo of its prompt, by itself and unmeasured.
pub proof fn law_echo_completes_with_the_echo(
    engine: EchoEngine,
    request: CompletionRequest,
    prompt: &str,
    elapsed_millis: u64,
    completion: Completion,
    content: String,
)
    requires
        prompt@ == request.prompt@,
        call_ensures(EchoEngine::complete, (&engine, &request, elapsed_millis), completion),
        call_ensures(last_user_content, (prompt,), content),
    ensures
        completion.text@ == content@,
        completion.model@ == "echo"@,
        completion.elapsed_millis == elapsed_millis,
        completion.usage is None,
        completion.tokens_per_second is None,
{
}

/// The engine is known as `echo`, keeps no sessions, and its streams are
/// replayed.
pub proof fn law_echo_profile(engine: EchoEngine, profile: EngineProfile)
    requires
        call_ensures(EchoEngine::profile, (&engine,), profile),
    ensures
        profile.name@ == "echo"@,
        !profile.supports_sessions,
        profile.stream_kind is Buffered,
{
}

} // verus!
