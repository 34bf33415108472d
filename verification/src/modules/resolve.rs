//! Which model a request means.
//!
//! The echo engine accepts any label; other engines validate against the
//! catalog, then against the models that the engine itself reports.

use vstd::prelude::*;
use crate::error::LiveError;
use crate::inference::EngineProfile;
use crate::models;
use crate::models::{ModelInfo, ModelInfoView};
use crate::text;

verus! {

/// The name that a request asks for: its own, or the configured default when
/// it names none.
pub open spec fn wanted(default_model: Seq<char>, requested: Seq<char>) -> Seq<char> {
    if text::trim(requested).len() == 0 {
        text::trim(default_model)
    } else {
        text::trim(requested)
    }
}

/// Whether `name` is the model's id or its name.
pub open spec fn goes_by(model: ModelInfoView, name: Seq<char>) -> bool {
    model.id == name || model.name == name
}

/// Whether one of the models goes by `name`.
pub open spec fn offers(models: Seq<ModelInfoView>, name: Seq<char>) -> bool {
    exists|i: int| 0 <= i < models.len() && goes_by(#[trigger] models[i], name)
}

/// What a client is told of a name that nothing goes by.
pub open spec fn unknown_model_text(name: Seq<char>) -> Seq<char> {
    "model "@ + text::debug_text(name) + " not found"@
}

/// How far the resolution of a model has come.
#[derive(Debug)]
pub enum Resolution {
    /// The model that the response names.
    Resolved { label: String },
    /// The catalog has to be asked for `name`.
    Lookup { name: String },
    /// The catalog does not know `name`; the engine has to list its models.
    Listing { name: String },
    /// Nothing goes by `name`.
    Unknown { name: String },
}

pub enum ResolutionView {
    Resolved { label: Seq<char> },
    Lookup { name: Seq<char> },
    Listing { name: Seq<char> },
    Unknown { name: Seq<char> },
}

impl View for Resolution {
    type V = ResolutionView;

    open spec fn view(&self) -> ResolutionView {
        match self {
            Resolution::Resolved { label } => ResolutionView::Resolved { label: label@ },
            Resolution::Lookup { name } => ResolutionView::Lookup { name: name@ },
            Resolution::Listing { name } => ResolutionView::Listing { name: name@ },
            Resolution::Unknown { name } => ResolutionView::Unknown { name: name@ },
        }
    }
}

/// How the resolution starts: no name at all means the engine itself, and the
/// echo engine takes any name.
pub open spec fn resolution_start(
    engine: Seq<char>,
    default_model: Seq<char>,
    requested: Seq<char>,
) -> ResolutionView {
    let name = wanted(default_model, requested);
    if name.len() == 0 {
        ResolutionView::Resolved { label: engine }
    } else if engine == "echo"@ {
        ResolutionView::Resolved { label: name }
    } else {
        ResolutionView::Lookup { name }
    }
}

/// The resolution once the catalog was asked; `found` is the name of the model
/// that it knows.
pub open spec fn resolution_looked_up(
    resolution: ResolutionView,
    found: Option<Seq<char>>,
) -> ResolutionView {
    match (resolution, found) {
        (ResolutionView::Lookup { .. }, Some(label)) => ResolutionView::Resolved { label },
        (ResolutionView::Lookup { name }, None) => ResolutionView::Listing { name },
        _ => resolution,
    }
}

/// The resolution once the engine listed its models.
pub open spec fn resolution_listed(
    resolution: ResolutionView,
    offered: Seq<ModelInfoView>,
) -> ResolutionView {
    match resolution {
        ResolutionView::Listing { name } => if offers(offered, name) {
            ResolutionView::Resolved { label: name }
        } else {
            ResolutionView::Unknown { name }
        },
        _ => resolution,
    }
}

/// The models of a listing; a failed one counts as empty.
pub open spec fn listed(listing: Result<Vec<ModelInfo>, LiveError>) -> Seq<ModelInfoView> {
    match listing {
        Ok(offered) => models::infos(offered@),
        Err(_) => seq![],
    }
}

/// The name of the model that a lookup found.
pub open spec fn found_name(found: Result<ModelInfo, LiveError>) -> Option<Seq<char>> {
    match found {
        Ok(info) => Some(info@.name),
        Err(_) => None,
    }
}

impl Resolution {
    /// Starts to resolve the `requested` name for `engine`.
    pub fn start(engine: &EngineProfile, default_model: &str, requested: &str) -> (start:
        Resolution)
        ensures
            start@ == resolution_start(engine.name@, default_model@, requested@),
    {
        let name = if text::is_blank(requested) {
            text::trimmed(default_model)
        } else {
            text::trimmed(requested)
        };
        if name.is_empty() {
            return Resolution::Resolved { label: engine.name.to_owned() };
        }
        if text::same(engine.name, "echo") {
            return Resolution::Resolved { label: name.to_owned() };
        }
        Resolution::Lookup { name: name.to_owned() }
    }

    /// The catalog was asked: a model that it knows is named as it names it.
    /// A resolution that does not wait for the catalog stays as it is.
    pub fn looked_up(self, found: Result<ModelInfo, LiveError>) -> (next: Resolution)
        ensures
            next@ == resolution_looked_up(self@, found_name(found)),
    {
        match self {
            Resolution::Lookup { name } => match found {
                Ok(info) => Resolution::Resolved { label: info.name },
                Err(_) => Resolution::Listing { name },
            },
            other => other,
        }
    }

    /// The engine listed its models, or could not, which counts as none. A
    /// resolution that does not wait for the engine stays as it is.
    pub fn listed(self, listing: Result<Vec<ModelInfo>, LiveError>) -> (next: Resolution)
        ensures
            next@ == resolution_listed(self@, listed(listing)),
    {
        match self {
            Resolution::Listing { name } => {
                let known = match &listing {
                    Ok(offered) => offers_name(offered, name.as_str()),
                    Err(_) => false,
                };
                if known {
                    Resolution::Resolved { label: name }
                } else {
                    Resolution::Unknown { name }
                }
            },
            other => other,
        }
    }
}

/// Whether one of the models goes by `name`.
fn offers_name(offered: &Vec<ModelInfo>, name: &str) -> (known: bool)
    ensures
        known == offers(models::infos(offered@), name@),
{
    let ghost all = models::infos(offered@);
    for i in 0..offered.len()
        invariant
            all == models::infos(offered@),
            forall|k: int| 0 <= k < i ==> !goes_by(#[trigger] all[k], name@),
    {
        let model = &offered[i];
        assert(all[i as int] == model@);
        if text::same(model.id.as_str(), name) || text::same(model.name.as_str(), name) {
            return true;
        }
    }
    false
}

/// What a client is told of a name that nothing goes by, given the name in
/// quotes.
pub fn unknown_model_message(quoted: &str) -> (message: String)
    ensures
        message@ == "model "@ + quoted@ + " not found"@,
{
    let mut message = text::concat("model ", quoted);
    message.append(" not found");
    message
}

/// What a client is told of a name that nothing goes by.
pub fn unknown_model(name: &str) -> (message: String)
    ensures
        message@ == unknown_model_text(name@),
{
    unknown_model_message(text::quoted(name).as_str())
}

/// A resolution settles once the catalog and the engine were asked. A name is
/// unknown exactly where neither knows it; an engine that takes any name, and
/// a request without one, are never asked to prove it.
pub proof fn law_resolution_settles(
    engine: Seq<char>,
    default_model: Seq<char>,
    requested: Seq<char>,
    found: Option<Seq<char>>,
    offered: Seq<ModelInfoView>,
)
    ensures
        ({
            let name = wanted(default_model, requested);
            let known = name.len() == 0 || engine == "echo"@ || found is Some || offers(
                offered,
                name,
            );
            match resolution_listed(
                resolution_looked_up(resolution_start(engine, default_model, requested), found),
                offered,
            ) {
                ResolutionView::Resolved { label } => {
                    &&& known
                    &&& label == if name.len() == 0 {
                        engine
                    } else if engine != "echo"@ && found is Some {
                        found->0
                    } else {
                        name
                    }
                },
                ResolutionView::Unknown { name: asked } => !known && asked == name,
                _ => false,
            }
        }),
{
}

/// Whether `name` is `given` without the white space around it.
pub open spec fn names(
    given: Seq<char>,
    before: Seq<char>,
    name: Seq<char>,
    after: Seq<char>,
) -> bool {
    &&& given == before + name + after
    &&& forall|i: int| 0 <= i < before.len() ==> text::white_space(#[trigger] before[i])
    &&& forall|i: int| 0 <= i < after.len() ==> text::white_space(#[trigger] after[i])
    &&& name.len() > 0
    &&& !text::white_space(name[0])
    &&& !text::white_space(name.last())
}

/// A request that names a model means that model, whatever the default is: the
/// name, without the white space around it, is what the catalog is asked for,
/// or what the echo engine answers as.
pub proof fn law_requested_model_is_meant(
    engine: EngineProfile,
    default_model: &str,
    requested: &str,
    before: Seq<char>,
    name: Seq<char>,
    after: Seq<char>,
    start: Resolution,
)
    requires
        names(requested@, before, name, after),
        call_ensures(Resolution::start, (&engine, default_model, requested), start),
    ensures
        if engine.name@ == "echo"@ {
            start matches Resolution::Resolved { label } && label@ == name
        } else {
            start matches Resolution::Lookup { name: asked } && asked@ == name
        },
{
    text::law_trim_keeps_what_stands_between(before, name, after);
}

/// A request that names no model means the default, and the engine itself
/// where there is no default either.
pub proof fn law_default_model_is_meant_without_a_name(
    engine: EngineProfile,
    default_model: &str,
    requested: &str,
    before: Seq<char>,
    name: Seq<char>,
    after: Seq<char>,
    start: Resolution,
)
    requires
        forall|i: int| 0 <= i < requested@.len() ==> text::white_space(#[trigger] requested@[i]),
        call_ensures(Resolution::start, (&engine, default_model, requested), start),
    ensures
        names(default_model@, before, name, after) ==> if engine.name@ == "echo"@ {
            start matches Resolution::Resolved { label } && label@ == name
        } else {
            start matches Resolution::Lookup { name: asked } && asked@ == name
        },
        (forall|i: int|
            0 <= i < default_model@.len() ==> text::white_space(#[trigger] default_model@[i]))
            ==> (start matches Resolution::Resolved { label } && label@ == engine.name@),
{
    text::lemma_blank(requested@);
    text::lemma_blank(default_model@);
    if names(default_model@, before, name, after) {
        text::law_trim_keeps_what_stands_between(before, name, after);
    }
}

/// The catalog's answer counts first: a model that it knows is named as it
/// names it. Else the engine is asked for that same name.
pub proof fn law_catalog_is_asked_first(
    name: String,
    found: Result<ModelInfo, LiveError>,
    next: Resolution,
)
    requires
        call_ensures(Resolution::looked_up, (Resolution::Lookup { name }, found), next),
    ensures
        match found {
            Ok(info) => next matches Resolution::Resolved { label } && label@ == info.name@,
            Err(_) => next matches Resolution::Listing { name: asked } && asked@ == name@,
        },
{
}

/// Whether a listed model goes by `name`, as its id or as its name.
pub open spec fn lists(offered: Seq<ModelInfo>, name: Seq<char>) -> bool {
    exists|i: int|
        0 <= i < offered.len() && ((#[trigger] offered[i]).id@ == name || offered[i].name@ == name)
}

/// The engine's listing counts last: the name stands where one of its models
/// goes by it, as its id or as its name, and is unknown in every other case,
/// with no listing too.
pub proof fn law_listing_decides(
    name: String,
    listing: Result<Vec<ModelInfo>, LiveError>,
    next: Resolution,
)
    requires
        call_ensures(Resolution::listed, (Resolution::Listing { name }, listing), next),
    ensures
        if listing is Ok && lists(listing->Ok_0@, name@) {
            next matches Resolution::Resolved { label } && label@ == name@
        } else {
            next matches Resolution::Unknown { name: asked } && asked@ == name@
        },
{
    lemma_lists(listing, name@);
}

/// What a listing offers, by the models themselves.
pub proof fn lemma_lists(listing: Result<Vec<ModelInfo>, LiveError>, name: Seq<char>)
    ensures
        offers(listed(listing), name) <==> listing is Ok && lists(listing->Ok_0@, name),
{
    if let Ok(offered) = listing {
        let infos = models::infos(offered@);
        assert(infos.len() == offered@.len());
        assert(forall|i: int|
            0 <= i < offered@.len() ==> infos[i] == (#[trigger] offered@[i])@);
        if lists(offered@, name) {
            let at = choose|i: int|
                0 <= i < offered@.len() && ((#[trigger] offered@[i]).id@ == name
                    || offered@[i].name@ == name);
            assert(goes_by(infos[at], name));
        }
        if offers(infos, name) {
            let at = choose|i: int| 0 <= i < infos.len() && goes_by(#[trigger] infos[i], name);
            assert(infos[at] == offered@[at]@);
        }
    }
}

/// A step that a resolution does not wait for changes nothing of it.
pub proof fn law_resolution_waits_for_its_own_step(
    resolution: Resolution,
    found: Result<ModelInfo, LiveError>,
    looked_up: Resolution,
    listing: Result<Vec<ModelInfo>, LiveError>,
    listed: Resolution,
)
    requires
        call_ensures(Resolution::looked_up, (resolution, found), looked_up),
        call_ensures(Resolution::listed, (resolution, listing), listed),
    ensures
        resolution !is Lookup ==> looked_up@ == resolution@,
        resolution !is Listing ==> listed@ == resolution@,
{
}

/// A client is told of the very name that nothing goes by, in quotes.
pub proof fn law_unknown_model_is_named(name: &str, message: String)
    requires
        call_ensures(unknown_model, (name,), message),
    ensures
        message@ == "model "@ + text::debug_text(name@) + " not found"@,
{
}

} // verus!
