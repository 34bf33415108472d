//! The daemon as a whole: what it says of itself, and the order in which it
//! comes up.

use std::sync::Arc;
use vstd::prelude::*;
use crate::chat::ChatService;
use crate::digest;
use crate::error::{LiveError, LiveErrorView};
use crate::inference::{Engine, InferenceConfig};
use crate::rpc;
use crate::rpc::{Call, Ticket};
use crate::text;

verus! {

/// What the plan of the daemon's start and its description of itself read of
/// the configuration. What a single service reads for itself, such as the
/// configuration of the plugins, goes to that service.
#[derive(Debug)]
pub struct AppConfig {
    /// Where the daemon listens.
    pub listen: String,
    /// Where it keeps its data.
    pub data_dir: String,
    /// Where it keeps its state.
    pub state_dir: String,
    pub role: String,
    /// The modules that are registered.
    pub enabled_modules: Vec<String>,
    pub max_rpc_bytes: usize,
    /// How many messages an actor's mailbox holds.
    pub actor_mailbox_capacity: usize,
    pub inference: InferenceConfig,
    /// A file that grants artifacts more than the baseline, in development.
    pub development_grant: Option<String>,
}

/// The types of the parts that a daemon is made of.
pub trait Parts {
    /// A module that an embedder brings.
    type Module;
    /// The modules that are registered.
    type Modules;
    type Store;
    type Registry;
    type HoloCatalog;
    type Actors;
    type Audit;
    /// What artifacts may do.
    type Grant;
    type HoloRuntime;
    type History;
    type Models;
    /// What an engine does its work with.
    type Service;
    type Nodes;
    type Plugins;
}

/// A running daemon.
pub struct AppState<P: Parts> {
    config: AppConfig,
    version: String,
    protocol_version: u32,
    server_id: String,
    modules: Arc<P::Modules>,
    store: Arc<P::Store>,
    registry: Arc<P::Registry>,
    holo_catalog: Arc<P::HoloCatalog>,
    holo_runtime: Arc<P::HoloRuntime>,
    chat: ChatService<P::History, P::Service>,
    models: Arc<P::Models>,
    nodes: Arc<P::Nodes>,
    plugins: Arc<P::Plugins>,
    actors: Arc<P::Actors>,
    audit: Arc<P::Audit>,
}

/// What stands for a daemon in its identity: where it listens, where its data
/// is and its role, set apart by NUL. Nothing keeps that character out of the
/// address or of the path.
pub open spec fn server_seed_text(
    listen: Seq<char>,
    data_dir: Seq<char>,
    role: Seq<char>,
) -> Seq<char> {
    listen + "\0"@ + data_dir + "\0"@ + role
}

/// The identity of a daemon.
pub open spec fn server_id_text(
    listen: Seq<char>,
    data_dir: Seq<char>,
    role: Seq<char>,
) -> Seq<char> {
    id_of_digest(
        digest::blake3_hex(vstd::utf8::encode_utf8(server_seed_text(listen, data_dir, role))),
    )
}

/// An identity, by the digest that it holds.
pub open spec fn id_of_digest(hex: Seq<char>) -> Seq<char> {
    "blake3:"@ + hex
}

/// What stands for a daemon in its identity.
pub fn server_seed(listen: &str, data_dir: &str, role: &str) -> (seed: String)
    ensures
        seed@ == server_seed_text(listen@, data_dir@, role@),
{
    let mut seed = text::concat(listen, "\0");
    seed.append(data_dir);
    seed.append("\0");
    seed.append(role);
    seed
}

/// The identity that holds the given digest.
pub fn id_from_digest(hex: &str) -> (id: String)
    ensures
        id@ == id_of_digest(hex@),
{
    text::concat("blake3:", hex)
}

/// The identity of a daemon.
pub fn server_id(listen: &str, data_dir: &str, role: &str) -> (id: String)
    ensures
        id@ == server_id_text(listen@, data_dir@, role@),
{
    let seed = server_seed(listen, data_dir, role);
    let bytes = seed.as_str().as_bytes_vec();
    id_from_digest(digest::hash_hex(bytes.as_slice()).as_str())
}

/// Whether the daemon is up.
#[derive(Debug)]
pub struct HealthResponse {
    pub status: String,
    pub version: String,
    pub role: String,
    pub modules_ready: usize,
}

/// What the daemon offers. `O` is an operation, `M` what a module says of
/// itself.
#[derive(Debug)]
pub struct CapabilityManifest<O, M> {
    pub protocol_version: u32,
    pub server_version: String,
    pub server_id: String,
    pub role: String,
    pub operations: Vec<O>,
    pub modules: Vec<M>,
    pub maximum_message_bytes: u32,
}

/// Under which directory a file of the daemon lies.
#[derive(Debug, Clone, Copy, PartialEq, Eq, Structural)]
pub enum Root {
    Data,
    State,
}

/// One step of the daemon's start, with what it is done with: the
/// configuration, and what the steps before it made.
pub enum BootStep<'a, P: Parts> {
    CreateDirectories,
    /// Register the modules that are enabled, and those of an embedder.
    Modules { enabled: &'a Vec<String>, extra: &'a Vec<P::Module> },
    /// Open the object store, with the registry and the artifact catalog over
    /// it.
    Store { root: Root, name: &'static str },
    Actors,
    Audit { root: Root, name: &'static str, mailbox_capacity: usize, actors: &'a Arc<P::Actors> },
    /// Grant artifacts what a development file says.
    DevelopmentGrant { path: &'a String },
    /// Grant artifacts the baseline.
    BaselineGrant,
    /// Start the artifact runtime.
    HoloRuntime {
        holo_catalog: &'a Arc<P::HoloCatalog>,
        mailbox_capacity: usize,
        grant: &'a Arc<P::Grant>,
        audit: &'a Arc<P::Audit>,
    },
    History { root: Root, name: &'static str },
    Models { store: &'a Arc<P::Store>, root: Root, name: &'static str },
    /// Make the engine, by the embedder's factory.
    CustomEngine,
    /// Make the engine that the configuration names.
    ConfiguredEngine,
    Nodes { root: Root, name: &'static str },
    Plugins { state_dir: &'a String, mailbox_capacity: usize, actors: &'a Arc<P::Actors> },
    StartModules {
        modules: &'a Arc<P::Modules>,
        actors: &'a Arc<P::Actors>,
        data_dir: &'a String,
    },
}

/// What a [`BootStep`] takes from the configuration and from an embedder, with
/// modules `M`.
pub enum BootStepView<M> {
    CreateDirectories,
    Modules { enabled: Seq<Seq<char>>, extra: Seq<M> },
    Store { root: Root, name: Seq<char> },
    Actors,
    Audit { root: Root, name: Seq<char>, mailbox_capacity: usize },
    DevelopmentGrant { path: Seq<char> },
    BaselineGrant,
    HoloRuntime { mailbox_capacity: usize },
    History { root: Root, name: Seq<char> },
    Models { root: Root, name: Seq<char> },
    CustomEngine,
    ConfiguredEngine,
    Nodes { root: Root, name: Seq<char> },
    Plugins { state_dir: Seq<char>, mailbox_capacity: usize },
    StartModules { data_dir: Seq<char> },
}

/// What a step takes from the configuration and from an embedder.
pub open spec fn step_view<P: Parts>(step: BootStep<P>) -> BootStepView<P::Module> {
    match step {
        BootStep::CreateDirectories => BootStepView::CreateDirectories,
        BootStep::Modules { enabled, extra } => BootStepView::Modules {
            enabled: text::texts(enabled@),
            extra: extra@,
        },
        BootStep::Store { root, name } => BootStepView::Store { root, name: name@ },
        BootStep::Actors => BootStepView::Actors,
        BootStep::Audit { root, name, mailbox_capacity, .. } => BootStepView::Audit {
            root,
            name: name@,
            mailbox_capacity,
        },
        BootStep::DevelopmentGrant { path } => BootStepView::DevelopmentGrant { path: path@ },
        BootStep::BaselineGrant => BootStepView::BaselineGrant,
        BootStep::HoloRuntime { mailbox_capacity, .. } => BootStepView::HoloRuntime {
            mailbox_capacity,
        },
        BootStep::History { root, name } => BootStepView::History { root, name: name@ },
        BootStep::Models { root, name, .. } => BootStepView::Models { root, name: name@ },
        BootStep::CustomEngine => BootStepView::CustomEngine,
        BootStep::ConfiguredEngine => BootStepView::ConfiguredEngine,
        BootStep::Nodes { root, name } => BootStepView::Nodes { root, name: name@ },
        BootStep::Plugins { state_dir, mailbox_capacity, .. } => BootStepView::Plugins {
            state_dir: state_dir@,
            mailbox_capacity,
        },
        BootStep::StartModules { data_dir, .. } => BootStepView::StartModules {
            data_dir: data_dir@,
        },
    }
}

/// Whether a step is done with the parts that are there.
pub open spec fn wired<P: Parts>(step: BootStep<P>, made: Made<P>) -> bool {
    match step {
        BootStep::Audit { actors, .. } => made.actors == Some(*actors),
        BootStep::HoloRuntime { holo_catalog, grant, audit, .. } => {
            &&& made.holo_catalog == Some(*holo_catalog)
            &&& made.grant == Some(*grant)
            &&& made.audit == Some(*audit)
        },
        BootStep::Models { store, .. } => made.store == Some(*store),
        BootStep::Plugins { actors, .. } => made.actors == Some(*actors),
        BootStep::StartModules { modules, actors, .. } => {
            &&& made.modules == Some(*modules)
            &&& made.actors == Some(*actors)
        },
        _ => true,
    }
}

/// The steps of the daemon's start, in order. The modules start last, when
/// everything that they may use is there.
pub open spec fn boot_plan<M>(
    config: AppConfig,
    extra: Seq<M>,
    custom_engine: bool,
) -> Seq<BootStepView<M>> {
    let mailbox_capacity = config.actor_mailbox_capacity;
    seq![
        BootStepView::CreateDirectories,
        BootStepView::Modules { enabled: text::texts(config.enabled_modules@), extra },
        BootStepView::Store { root: Root::Data, name: "registry"@ },
        BootStepView::Actors,
        BootStepView::Audit { root: Root::State, name: "audit.jsonl"@, mailbox_capacity },
        match config.development_grant {
            Some(path) => BootStepView::DevelopmentGrant { path: path@ },
            None => BootStepView::BaselineGrant,
        },
        BootStepView::HoloRuntime { mailbox_capacity },
        BootStepView::History { root: Root::Data, name: "history"@ },
        BootStepView::Models { root: Root::Data, name: "models"@ },
        if custom_engine {
            BootStepView::CustomEngine
        } else {
            BootStepView::ConfiguredEngine
        },
        BootStepView::Nodes { root: Root::Data, name: "control-plane/nodes.json"@ },
        BootStepView::Plugins { state_dir: config.state_dir@, mailbox_capacity },
        BootStepView::StartModules { data_dir: config.data_dir@ },
    ]
}

/// Makes the daemon's engine: by the embedder's factory where there is one,
/// else the one that the configuration names.
pub fn make_engine<C, K, E, F, G>(
    factory: Option<F>,
    configured: G,
    config: &C,
    catalog: Arc<K>,
    mailbox_capacity: usize,
) -> (made: Result<Arc<E>, LiveError>) where
    F: FnOnce(&C, Arc<K>) -> Result<Arc<E>, LiveError>,
    G: FnOnce(&C, Arc<K>, usize) -> Result<Arc<E>, LiveError>,

    requires
        match factory {
            Some(f) => call_requires(f, (config, catalog)),
            None => call_requires(configured, (config, catalog, mailbox_capacity)),
        },
    ensures
        match factory {
            Some(f) => call_ensures(f, (config, catalog), made),
            None => call_ensures(configured, (config, catalog, mailbox_capacity), made),
        },
{
    match factory {
        Some(factory) => factory(config, catalog),
        None => configured(config, catalog, mailbox_capacity),
    }
}

/// What a step of the start made.
pub enum Outcome<P: Parts> {
    /// Nothing that a later step or the daemon holds.
    Done,
    Modules(Arc<P::Modules>),
    Store {
        store: Arc<P::Store>,
        registry: Arc<P::Registry>,
        holo_catalog: Arc<P::HoloCatalog>,
    },
    Actors(Arc<P::Actors>),
    Audit(Arc<P::Audit>),
    Grant(Arc<P::Grant>),
    HoloRuntime(Arc<P::HoloRuntime>),
    History(Arc<P::History>),
    Models(Arc<P::Models>),
    Nodes(Arc<P::Nodes>),
    Plugins(Arc<P::Plugins>),
}

/// The parts that are there.
pub struct Made<P: Parts> {
    pub modules: Option<Arc<P::Modules>>,
    pub store: Option<Arc<P::Store>>,
    pub registry: Option<Arc<P::Registry>>,
    pub holo_catalog: Option<Arc<P::HoloCatalog>>,
    pub actors: Option<Arc<P::Actors>>,
    pub audit: Option<Arc<P::Audit>>,
    pub grant: Option<Arc<P::Grant>>,
    pub holo_runtime: Option<Arc<P::HoloRuntime>>,
    pub history: Option<Arc<P::History>>,
    pub models: Option<Arc<P::Models>>,
    pub engine: Option<Arc<Engine<P::Service>>>,
    pub nodes: Option<Arc<P::Nodes>>,
    pub plugins: Option<Arc<P::Plugins>>,
}

/// No part.
pub open spec fn nothing_made<P: Parts>() -> Made<P> {
    Made {
        modules: None,
        store: None,
        registry: None,
        holo_catalog: None,
        actors: None,
        audit: None,
        grant: None,
        holo_runtime: None,
        history: None,
        models: None,
        engine: None,
        nodes: None,
        plugins: None,
    }
}

/// The parts that are there once a step had the given outcome.
pub open spec fn with_outcome<P: Parts>(made: Made<P>, outcome: Outcome<P>) -> Made<P> {
    match outcome {
        Outcome::Done => made,
        Outcome::Modules(modules) => Made { modules: Some(modules), ..made },
        Outcome::Store { store, registry, holo_catalog } => Made {
            store: Some(store),
            registry: Some(registry),
            holo_catalog: Some(holo_catalog),
            ..made
        },
        Outcome::Actors(actors) => Made { actors: Some(actors), ..made },
        Outcome::Audit(audit) => Made { audit: Some(audit), ..made },
        Outcome::Grant(grant) => Made { grant: Some(grant), ..made },
        Outcome::HoloRuntime(runtime) => Made { holo_runtime: Some(runtime), ..made },
        Outcome::History(history) => Made { history: Some(history), ..made },
        Outcome::Models(models) => Made { models: Some(models), ..made },
        Outcome::Nodes(nodes) => Made { nodes: Some(nodes), ..made },
        Outcome::Plugins(plugins) => Made { plugins: Some(plugins), ..made },
    }
}

/// Whether every part is there that the first `at` steps make.
pub open spec fn made_before<P: Parts>(made: Made<P>, at: int) -> bool {
    &&& at > 1 ==> made.modules is Some
    &&& at > 2 ==> made.store is Some && made.registry is Some && made.holo_catalog is Some
    &&& at > 3 ==> made.actors is Some
    &&& at > 4 ==> made.audit is Some
    &&& at > 5 ==> made.grant is Some
    &&& at > 6 ==> made.holo_runtime is Some
    &&& at > 7 ==> made.history is Some
    &&& at > 8 ==> made.models is Some
    &&& at > 9 ==> made.engine is Some
    &&& at > 10 ==> made.nodes is Some
    &&& at > 11 ==> made.plugins is Some
}

/// The start of a daemon: which step comes next, and what the steps made. `F`
/// is an embedder's engine factory.
pub struct Startup<P: Parts, F> {
    config: AppConfig,
    extra: Vec<P::Module>,
    factory: Option<F>,
    custom_engine: bool,
    at: usize,
    failure: Option<LiveError>,
    made: Made<P>,
}

pub struct StartupView<P: Parts> {
    pub plan: Seq<BootStepView<P::Module>>,
    /// How many steps are done.
    pub at: int,
    pub failure: Option<LiveErrorView>,
    pub made: Made<P>,
}

impl<P: Parts, F> View for Startup<P, F> {
    type V = StartupView<P>;

    closed spec fn view(&self) -> StartupView<P> {
        StartupView {
            plan: boot_plan(self.config, self.extra@, self.custom_engine),
            at: self.at as int,
            failure: match self.failure {
                Some(error) => Some(error@),
                None => None,
            },
            made: self.made,
        }
    }
}

/// How a start begins.
pub open spec fn startup_begin<P: Parts>(plan: Seq<BootStepView<P::Module>>) -> StartupView<P> {
    StartupView { plan, at: 0, failure: None, made: nothing_made() }
}

/// Whether a step is still to be done.
pub open spec fn starting<P: Parts>(start: StartupView<P>) -> bool {
    start.failure is None && start.at < start.plan.len()
}

/// Whether the step that comes next makes the engine.
pub open spec fn makes_engine<P: Parts>(start: StartupView<P>) -> bool {
    starting(start) && (start.plan[start.at] is CustomEngine || start.plan[start.at]
        is ConfiguredEngine)
}

/// Whether `outcome` is one of `step`.
pub open spec fn fits<P: Parts>(step: BootStepView<P::Module>, outcome: Outcome<P>) -> bool {
    match step {
        BootStepView::Modules { .. } => outcome is Modules,
        BootStepView::Store { .. } => outcome is Store,
        BootStepView::Actors => outcome is Actors,
        BootStepView::Audit { .. } => outcome is Audit,
        BootStepView::DevelopmentGrant { .. } => outcome is Grant,
        BootStepView::BaselineGrant => outcome is Grant,
        BootStepView::HoloRuntime { .. } => outcome is HoloRuntime,
        BootStepView::History { .. } => outcome is History,
        BootStepView::Models { .. } => outcome is Models,
        BootStepView::Nodes { .. } => outcome is Nodes,
        BootStepView::Plugins { .. } => outcome is Plugins,
        _ => outcome is Done,
    }
}

/// The start once its next step was done, or failed, which ends it. An outcome
/// that is not one of that step changes nothing.
pub open spec fn step_done<P: Parts>(
    start: StartupView<P>,
    outcome: Result<Outcome<P>, LiveErrorView>,
) -> StartupView<P> {
    if !starting(start) || makes_engine(start) {
        start
    } else {
        match outcome {
            Err(error) => StartupView { failure: Some(error), ..start },
            Ok(outcome) => if fits(start.plan[start.at], outcome) {
                StartupView {
                    at: start.at + 1,
                    made: with_outcome(start.made, outcome),
                    ..start
                }
            } else {
                start
            },
        }
    }
}

/// The start once its engine was made, or could not be, which ends it.
pub open spec fn engine_made<P: Parts>(
    start: StartupView<P>,
    made: Result<Arc<Engine<P::Service>>, LiveError>,
) -> StartupView<P> {
    match made {
        Ok(engine) => StartupView {
            at: start.at + 1,
            made: Made { engine: Some(engine), ..start.made },
            ..start
        },
        Err(error) => StartupView { failure: Some(error@), ..start },
    }
}

/// What the outcome of a step says.
pub open spec fn outcome_view<P: Parts>(outcome: Result<Outcome<P>, LiveError>) -> Result<
    Outcome<P>,
    LiveErrorView,
> {
    match outcome {
        Ok(outcome) => Ok(outcome),
        Err(error) => Err(error@),
    }
}

/// How a start ends, or that it has not.
pub enum Ended<P: Parts, F> {
    Up(AppState<P>),
    Failed(LiveError),
    Pending(Startup<P, F>),
}

/// Which steps make what a later step or the daemon needs.
proof fn lemma_boot_plan<M>(config: AppConfig, extra: Seq<M>, custom_engine: bool)
    ensures
        ({
            let plan = boot_plan(config, extra, custom_engine);
            &&& plan.len() == 13
            &&& plan[0] is CreateDirectories && plan[1] is Modules && plan[2] is Store
            &&& plan[3] is Actors && plan[4] is Audit
            &&& plan[5] is DevelopmentGrant || plan[5] is BaselineGrant
            &&& plan[6] is HoloRuntime && plan[7] is History && plan[8] is Models
            &&& plan[9] is CustomEngine <==> custom_engine
            &&& plan[9] is ConfiguredEngine <==> !custom_engine
            &&& plan[10] is Nodes && plan[11] is Plugins && plan[12] is StartModules
        }),
{
}

/// Whether `outcome` is one of `step`.
fn fitting<P: Parts>(step: &BootStep<P>, outcome: &Outcome<P>) -> (yes: bool)
    ensures
        yes == fits(step_view(*step), *outcome),
{
    match (step, outcome) {
        (BootStep::Modules { .. }, Outcome::Modules(_)) => true,
        (BootStep::Store { .. }, Outcome::Store { .. }) => true,
        (BootStep::Actors, Outcome::Actors(_)) => true,
        (BootStep::Audit { .. }, Outcome::Audit(_)) => true,
        (BootStep::DevelopmentGrant { .. }, Outcome::Grant(_)) => true,
        (BootStep::BaselineGrant, Outcome::Grant(_)) => true,
        (BootStep::HoloRuntime { .. }, Outcome::HoloRuntime(_)) => true,
        (BootStep::History { .. }, Outcome::History(_)) => true,
        (BootStep::Models { .. }, Outcome::Models(_)) => true,
        (BootStep::Nodes { .. }, Outcome::Nodes(_)) => true,
        (BootStep::Plugins { .. }, Outcome::Plugins(_)) => true,
        (BootStep::CreateDirectories, Outcome::Done) => true,
        (BootStep::CustomEngine, Outcome::Done) => true,
        (BootStep::ConfiguredEngine, Outcome::Done) => true,
        (BootStep::StartModules { .. }, Outcome::Done) => true,
        _ => false,
    }
}

impl<P: Parts, F> Startup<P, F> {
    pub closed spec fn spec_config(&self) -> AppConfig {
        self.config
    }

    /// The embedder's engine factory, until it is used.
    pub closed spec fn spec_factory(&self) -> Option<F> {
        self.factory
    }

    #[verifier::type_invariant]
    spec fn consistent(self) -> bool {
        self.at <= 13 && made_before(self.made, self.at as int)
    }

    /// The step that comes next, if one is still to be done, with the parts
    /// that it needs.
    pub fn step(&self) -> (step: Option<BootStep<P>>)
        ensures
            match step {
                Some(step) => {
                    &&& starting(self@)
                    &&& step_view(step) == self@.plan[self@.at]
                    &&& wired(step, self@.made)
                },
                None => !starting(self@),
            },
    {
        proof {
            use_type_invariant(self);
            lemma_boot_plan(self.config, self.extra@, self.custom_engine);
        }
        if self.failure.is_some() {
            return None;
        }
        let mailbox_capacity = self.config.actor_mailbox_capacity;
        let made = &self.made;
        match self.at {
            0 => Some(BootStep::CreateDirectories),
            1 => Some(
                BootStep::Modules { enabled: &self.config.enabled_modules, extra: &self.extra },
            ),
            2 => Some(BootStep::Store { root: Root::Data, name: "registry" }),
            3 => Some(BootStep::Actors),
            4 => match &made.actors {
                Some(actors) => Some(
                    BootStep::Audit {
                        root: Root::State,
                        name: "audit.jsonl",
                        mailbox_capacity,
                        actors,
                    },
                ),
                None => None,
            },
            5 => match &self.config.development_grant {
                Some(path) => Some(BootStep::DevelopmentGrant { path }),
                None => Some(BootStep::BaselineGrant),
            },
            6 => match (&made.holo_catalog, &made.grant, &made.audit) {
                (Some(holo_catalog), Some(grant), Some(audit)) => Some(
                    BootStep::HoloRuntime { holo_catalog, mailbox_capacity, grant, audit },
                ),
                _ => None,
            },
            7 => Some(BootStep::History { root: Root::Data, name: "history" }),
            8 => match &made.store {
                Some(store) => Some(BootStep::Models { store, root: Root::Data, name: "models" }),
                None => None,
            },
            9 => if self.custom_engine {
                Some(BootStep::CustomEngine)
            } else {
                Some(BootStep::ConfiguredEngine)
            },
            10 => Some(BootStep::Nodes { root: Root::Data, name: "control-plane/nodes.json" }),
            11 => match &made.actors {
                Some(actors) => Some(
                    BootStep::Plugins {
                        state_dir: &self.config.state_dir,
                        mailbox_capacity,
                        actors,
                    },
                ),
                None => None,
            },
            12 => match (&made.modules, &made.actors) {
                (Some(modules), Some(actors)) => Some(
                    BootStep::StartModules { modules, actors, data_dir: &self.config.data_dir },
                ),
                _ => None,
            },
            _ => None,
        }
    }

    fn makes_engine(&self) -> (yes: bool)
        ensures
            yes == makes_engine(self@),
    {
        match self.step() {
            Some(BootStep::CustomEngine) | Some(BootStep::ConfiguredEngine) => true,
            _ => false,
        }
    }

    /// Takes the outcome of the next step. The first failure ends the start.
    pub fn performed(self, outcome: Result<Outcome<P>, LiveError>) -> (next: Self)
        ensures
            next@ == step_done(self@, outcome_view(outcome)),
            next.spec_config() == self.spec_config(),
            next.spec_factory() == self.spec_factory(),
    {
        proof {
            use_type_invariant(&self);
            lemma_boot_plan(self.config, self.extra@, self.custom_engine);
        }
        if self.makes_engine() {
            return self;
        }
        let taken = match (self.step(), &outcome) {
            (None, _) => false,
            (_, Err(_)) => true,
            (Some(step), Ok(outcome)) => fitting(&step, outcome),
        };
        if !taken {
            return self;
        }
        let Startup { config, extra, factory, custom_engine, at, failure, made } = self;
        match outcome {
            Err(error) => Startup {
                config,
                extra,
                factory,
                custom_engine,
                at,
                failure: Some(error),
                made,
            },
            Ok(outcome) => {
                let mut made = made;
                match outcome {
                    Outcome::Done => {},
                    Outcome::Modules(modules) => {
                        made.modules = Some(modules);
                    },
                    Outcome::Store { store, registry, holo_catalog } => {
                        made.store = Some(store);
                        made.registry = Some(registry);
                        made.holo_catalog = Some(holo_catalog);
                    },
                    Outcome::Actors(actors) => {
                        made.actors = Some(actors);
                    },
                    Outcome::Audit(audit) => {
                        made.audit = Some(audit);
                    },
                    Outcome::Grant(grant) => {
                        made.grant = Some(grant);
                    },
                    Outcome::HoloRuntime(runtime) => {
                        made.holo_runtime = Some(runtime);
                    },
                    Outcome::History(history) => {
                        made.history = Some(history);
                    },
                    Outcome::Models(models) => {
                        made.models = Some(models);
                    },
                    Outcome::Nodes(nodes) => {
                        made.nodes = Some(nodes);
                    },
                    Outcome::Plugins(plugins) => {
                        made.plugins = Some(plugins);
                    },
                }
                Startup { config, extra, factory, custom_engine, at: at + 1, failure, made }
            },
        }
    }

    /// Makes the engine, when that comes next. An embedder's factory replaces
    /// the configured engine; either gets the inference configuration and the
    /// catalog that was opened. A failure ends the start.
    pub fn make_engine<G>(self, configured: G) -> (next: Self) where
        F: FnOnce(&InferenceConfig, Arc<P::Models>) -> Result<Arc<Engine<P::Service>>, LiveError>,
        G: FnOnce(&InferenceConfig, Arc<P::Models>, usize) -> Result<
            Arc<Engine<P::Service>>,
            LiveError,
        >,

        requires
            makes_engine(self@) ==> match self.spec_factory() {
                Some(f) => call_requires(
                    f,
                    (&self.spec_config().inference, self@.made.models->0),
                ),
                None => call_requires(
                    configured,
                    (
                        &self.spec_config().inference,
                        self@.made.models->0,
                        self.spec_config().actor_mailbox_capacity,
                    ),
                ),
            },
        ensures
            next.spec_config() == self.spec_config(),
            if makes_engine(self@) {
                exists|made: Result<Arc<Engine<P::Service>>, LiveError>|
                    {
                        &&& next@ == #[trigger] engine_made(self@, made)
                        &&& match self.spec_factory() {
                            Some(f) => call_ensures(
                                f,
                                (&self.spec_config().inference, self@.made.models->0),
                                made,
                            ),
                            None => call_ensures(
                                configured,
                                (
                                    &self.spec_config().inference,
                                    self@.made.models->0,
                                    self.spec_config().actor_mailbox_capacity,
                                ),
                                made,
                            ),
                        }
                    }
            } else {
                next@ == self@ && next.spec_factory() == self.spec_factory()
            },
    {
        proof {
            use_type_invariant(&self);
            lemma_boot_plan(self.config, self.extra@, self.custom_engine);
        }
        if !self.makes_engine() {
            return self;
        }
        let ghost before = self@;
        let catalog = match &self.made.models {
            Some(models) => models.clone(),
            None => {
                return self;
            },
        };
        let Startup { config, extra, factory, custom_engine, at, failure, made } = self;
        let result = make_engine(
            factory,
            configured,
            &config.inference,
            catalog,
            config.actor_mailbox_capacity,
        );
        let ghost outcome = result;
        let mut made = made;
        let next = match result {
            Ok(engine) => {
                made.engine = Some(engine);
                Startup { config, extra, factory: None, custom_engine, at: at + 1, failure, made }
            },
            Err(error) => Startup {
                config,
                extra,
                factory: None,
                custom_engine,
                at,
                failure: Some(error),
                made,
            },
        };
        assert(next@ == engine_made(before, outcome));
        next
    }

    /// The daemon, once every step is done, with the parts that the steps
    /// made: its chat speaks with the engine, over the history.
    pub fn finish(self, version: &str, protocol_version: u32) -> (ended: Ended<P, F>)
        ensures
            match self@.failure {
                Some(failure) => ended matches Ended::Failed(error) && error@ == failure,
                None => if starting(self@) {
                    ended matches Ended::Pending(start) && start == self
                } else {
                    ended matches Ended::Up(state) && {
                        &&& state.spec_config() == self.spec_config()
                        &&& state.spec_version() == version@
                        &&& state.spec_protocol_version() == protocol_version
                        &&& state.spec_server_id() == server_id_text(
                            self.spec_config().listen@,
                            self.spec_config().data_dir@,
                            self.spec_config().role@,
                        )
                        &&& holds(state, self@.made)
                    }
                },
            },
    {
        proof {
            use_type_invariant(&self);
            lemma_boot_plan(self.config, self.extra@, self.custom_engine);
        }
        if self.failure.is_none() && self.at < 13 {
            return Ended::Pending(self);
        }
        let Startup { config, extra, factory, custom_engine, at, failure, made } = self;
        if let Some(error) = failure {
            return Ended::Failed(error);
        }
        let server_id = server_id(
            config.listen.as_str(),
            config.data_dir.as_str(),
            config.role.as_str(),
        );
        Ended::Up(
            AppState {
                config,
                version: version.to_owned(),
                protocol_version,
                server_id,
                modules: made.modules.unwrap(),
                store: made.store.unwrap(),
                registry: made.registry.unwrap(),
                holo_catalog: made.holo_catalog.unwrap(),
                holo_runtime: made.holo_runtime.unwrap(),
                chat: ChatService::new(made.history.unwrap(), made.engine.unwrap()),
                models: made.models.unwrap(),
                nodes: made.nodes.unwrap(),
                plugins: made.plugins.unwrap(),
                actors: made.actors.unwrap(),
                audit: made.audit.unwrap(),
            },
        )
    }
}

/// Whether a daemon is made of the given parts.
pub open spec fn holds<P: Parts>(state: AppState<P>, made: Made<P>) -> bool {
    &&& made.modules == Some(state.spec_modules())
    &&& made.store == Some(state.spec_store())
    &&& made.registry == Some(state.spec_registry())
    &&& made.holo_catalog == Some(state.spec_holo_catalog())
    &&& made.holo_runtime == Some(state.spec_holo_runtime())
    &&& made.history is Some && state.spec_chat().spec_history() == *made.history->0
    &&& made.engine is Some && state.spec_chat().spec_engine() == *made.engine->0
    &&& made.models == Some(state.spec_models())
    &&& made.nodes == Some(state.spec_nodes())
    &&& made.plugins == Some(state.spec_plugins())
    &&& made.actors == Some(state.spec_actors())
    &&& made.audit == Some(state.spec_audit())
}

/// A start after a number of outcomes, none of them of the engine's step.
pub open spec fn steps_done<P: Parts>(
    start: StartupView<P>,
    outcomes: Seq<Result<Outcome<P>, LiveErrorView>>,
) -> StartupView<P>
    decreases outcomes.len(),
{
    if outcomes.len() == 0 {
        start
    } else {
        step_done(steps_done(start, outcomes.drop_last()), outcomes.last())
    }
}

/// A start that failed stays failed, with its first failure: no step is done
/// after it, whatever is handed in.
pub proof fn law_first_failure_ends_the_start<P: Parts>(
    start: StartupView<P>,
    outcomes: Seq<Result<Outcome<P>, LiveErrorView>>,
)
    requires
        start.failure is Some,
    ensures
        steps_done(start, outcomes) == start,
    decreases outcomes.len(),
{
    if outcomes.len() > 0 {
        law_first_failure_ends_the_start(start, outcomes.drop_last());
    }
}

/// Whether the parts that the first `at` steps make are the same.
pub open spec fn same_before<P: Parts>(made: Made<P>, other: Made<P>, at: int) -> bool {
    &&& at > 1 ==> made.modules == other.modules
    &&& at > 2 ==> {
        &&& made.store == other.store
        &&& made.registry == other.registry
        &&& made.holo_catalog == other.holo_catalog
    }
    &&& at > 3 ==> made.actors == other.actors
    &&& at > 4 ==> made.audit == other.audit
    &&& at > 5 ==> made.grant == other.grant
    &&& at > 6 ==> made.holo_runtime == other.holo_runtime
    &&& at > 7 ==> made.history == other.history
    &&& at > 8 ==> made.models == other.models
    &&& at > 9 ==> made.engine == other.engine
    &&& at > 10 ==> made.nodes == other.nodes
    &&& at > 11 ==> made.plugins == other.plugins
}

/// A part that was made is not replaced, whatever is handed in: every later
/// step, and the daemon in the end, has the one that its own step made.
pub proof fn law_made_parts_are_kept<P: Parts>(
    config: AppConfig,
    extra: Seq<P::Module>,
    custom_engine: bool,
    start: StartupView<P>,
    outcomes: Seq<Result<Outcome<P>, LiveErrorView>>,
)
    requires
        start.plan == boot_plan(config, extra, custom_engine),
        start.at >= 0,
    ensures
        steps_done(start, outcomes).plan == start.plan,
        steps_done(start, outcomes).at >= start.at,
        same_before(start.made, steps_done(start, outcomes).made, start.at),
    decreases outcomes.len(),
{
    if outcomes.len() > 0 {
        law_made_parts_are_kept(config, extra, custom_engine, start, outcomes.drop_last());
        let now = steps_done(start, outcomes.drop_last());
        if starting(now) {
            lemma_step_keeps(config, extra, custom_engine, now, outcomes.last());
        }
    }
}

proof fn lemma_step_keeps<P: Parts>(
    config: AppConfig,
    extra: Seq<P::Module>,
    custom_engine: bool,
    start: StartupView<P>,
    outcome: Result<Outcome<P>, LiveErrorView>,
)
    requires
        start.plan == boot_plan(config, extra, custom_engine),
        start.at >= 0,
        starting(start),
    ensures
        same_before(start.made, step_done(start, outcome).made, start.at),
{
    lemma_boot_plan(config, extra, custom_engine);
    let at = start.at;
    assert(at == 0 || at == 1 || at == 2 || at == 3 || at == 4 || at == 5 || at == 6 || at == 7
        || at == 8 || at == 9 || at == 10 || at == 11 || at == 12);
}

/// The engine that was made, and what was there when it was made, are what the
/// daemon ends up with; where it could not be made, the start ends with that
/// failure.
pub proof fn law_wiring_is_kept<P: Parts>(
    config: AppConfig,
    extra: Seq<P::Module>,
    custom_engine: bool,
    start: StartupView<P>,
    made: Result<Arc<Engine<P::Service>>, LiveError>,
    outcomes: Seq<Result<Outcome<P>, LiveErrorView>>,
)
    requires
        start.plan == boot_plan(config, extra, custom_engine),
        start.at >= 0,
        makes_engine(start),
    ensures
        ({
            let end = steps_done(engine_made(start, made), outcomes);
            &&& same_before(start.made, end.made, start.at)
            &&& match made {
                Ok(engine) => end.made.engine == Some(engine) && end.at > start.at,
                Err(error) => end == (StartupView { failure: Some(error@), ..start }),
            }
        }),
{
    lemma_boot_plan(config, extra, custom_engine);
    let at = start.at;
    assert(at == 0 || at == 1 || at == 2 || at == 3 || at == 4 || at == 5 || at == 6 || at == 7
        || at == 8 || at == 9 || at == 10 || at == 11 || at == 12);
    match made {
        Ok(_) => law_made_parts_are_kept(
            config,
            extra,
            custom_engine,
            engine_made(start, made),
            outcomes,
        ),
        Err(_) => law_first_failure_ends_the_start(engine_made(start, made), outcomes),
    }
}

impl<P: Parts> AppState<P> {
    pub closed spec fn spec_config(&self) -> AppConfig {
        self.config
    }

    pub closed spec fn spec_version(&self) -> Seq<char> {
        self.version@
    }

    pub closed spec fn spec_protocol_version(&self) -> u32 {
        self.protocol_version
    }

    pub closed spec fn spec_server_id(&self) -> Seq<char> {
        self.server_id@
    }

    pub closed spec fn spec_chat(&self) -> ChatService<P::History, P::Service> {
        self.chat
    }

    pub closed spec fn spec_modules(&self) -> Arc<P::Modules> {
        self.modules
    }

    pub closed spec fn spec_store(&self) -> Arc<P::Store> {
        self.store
    }

    pub closed spec fn spec_registry(&self) -> Arc<P::Registry> {
        self.registry
    }

    pub closed spec fn spec_holo_catalog(&self) -> Arc<P::HoloCatalog> {
        self.holo_catalog
    }

    pub closed spec fn spec_holo_runtime(&self) -> Arc<P::HoloRuntime> {
        self.holo_runtime
    }

    pub closed spec fn spec_models(&self) -> Arc<P::Models> {
        self.models
    }

    pub closed spec fn spec_nodes(&self) -> Arc<P::Nodes> {
        self.nodes
    }

    pub closed spec fn spec_plugins(&self) -> Arc<P::Plugins> {
        self.plugins
    }

    pub closed spec fn spec_actors(&self) -> Arc<P::Actors> {
        self.actors
    }

    pub closed spec fn spec_audit(&self) -> Arc<P::Audit> {
        self.audit
    }

    /// The start of a daemon with the modules and the engine of its
    /// configuration.
    pub fn build<F>(config: AppConfig) -> (start: Startup<P, F>)
        ensures
            start@ == startup_begin::<P>(boot_plan(config, seq![], false)),
            start.spec_config() == config,
            start.spec_factory() is None,
    {
        AppState::build_with_modules(config, Vec::new())
    }

    /// The start of a daemon with `extra` modules from an embedder, which are
    /// registered beside those of its configuration.
    pub fn build_with_modules<F>(config: AppConfig, extra: Vec<P::Module>) -> (start: Startup<P, F>)
        ensures
            start@ == startup_begin::<P>(boot_plan(config, extra@, false)),
            start.spec_config() == config,
            start.spec_factory() is None,
    {
        AppState::build_with(config, extra, None)
    }

    /// The start of a daemon, with `extra` modules and an engine factory from
    /// an embedder. When given, the factory replaces the configured engine.
    pub fn build_with<F>(config: AppConfig, extra: Vec<P::Module>, engine: Option<F>) -> (start:
        Startup<P, F>)
        ensures
            start@ == startup_begin::<P>(boot_plan(config, extra@, engine is Some)),
            start.spec_config() == config,
            start.spec_factory() == engine,
    {
        let custom_engine = engine.is_some();
        Startup {
            config,
            extra,
            factory: engine,
            custom_engine,
            at: 0,
            failure: None,
            made: Made {
                modules: None,
                store: None,
                registry: None,
                holo_catalog: None,
                actors: None,
                audit: None,
                grant: None,
                holo_runtime: None,
                history: None,
                models: None,
                engine: None,
                nodes: None,
                plugins: None,
            },
        }
    }

    pub fn config(&self) -> (config: &AppConfig)
        ensures
            *config == self.spec_config(),
    {
        &self.config
    }

    pub fn chat(&self) -> (chat: &ChatService<P::History, P::Service>)
        ensures
            *chat == self.spec_chat(),
    {
        &self.chat
    }

    pub fn history(&self) -> (history: &Arc<P::History>)
        ensures
            **history == self.spec_chat().spec_history(),
    {
        self.chat.history()
    }

    pub fn modules(&self) -> (modules: &Arc<P::Modules>)
        ensures
            *modules == self.spec_modules(),
    {
        &self.modules
    }

    pub fn store(&self) -> (store: &Arc<P::Store>)
        ensures
            *store == self.spec_store(),
    {
        &self.store
    }

    pub fn registry(&self) -> (registry: &Arc<P::Registry>)
        ensures
            *registry == self.spec_registry(),
    {
        &self.registry
    }

    pub fn holo_catalog(&self) -> (holo_catalog: &Arc<P::HoloCatalog>)
        ensures
            *holo_catalog == self.spec_holo_catalog(),
    {
        &self.holo_catalog
    }

    pub fn holo_runtime(&self) -> (holo_runtime: &Arc<P::HoloRuntime>)
        ensures
            *holo_runtime == self.spec_holo_runtime(),
    {
        &self.holo_runtime
    }

    pub fn models(&self) -> (models: &Arc<P::Models>)
        ensures
            *models == self.spec_models(),
    {
        &self.models
    }

    pub fn nodes(&self) -> (nodes: &Arc<P::Nodes>)
        ensures
            *nodes == self.spec_nodes(),
    {
        &self.nodes
    }

    pub fn plugins(&self) -> (plugins: &Arc<P::Plugins>)
        ensures
            *plugins == self.spec_plugins(),
    {
        &self.plugins
    }

    pub fn actors(&self) -> (actors: &Arc<P::Actors>)
        ensures
            *actors == self.spec_actors(),
    {
        &self.actors
    }

    pub fn audit(&self) -> (audit: &Arc<P::Audit>)
        ensures
            *audit == self.spec_audit(),
    {
        &self.audit
    }

    /// Takes a request in. What neither a module nor a plugin offers is
    /// refused.
    pub fn dispatch<R, I, N, L>(
        &self,
        principal: &str,
        call: Call<R, I, N, L>,
        in_modules: bool,
        in_plugins: bool,
    ) -> (ticket: Result<Ticket<R, I, N, L>, LiveError>)
        ensures
            if in_modules || in_plugins {
                ticket matches Ok(ticket) && ticket@ == rpc::ticket_for(principal@, call)
            } else {
                ticket matches Err(error) && error@ == rpc::not_provided(call.operation@)
            },
    {
        rpc::dispatch(principal, call, in_modules, in_plugins)
    }

    /// The daemon's health, with that many modules up.
    pub fn health(&self, modules_ready: usize) -> (health: HealthResponse)
        ensures
            health.status@ == "ready"@,
            health.version@ == self.spec_version(),
            health.role@ == self.spec_config().role@,
            health.modules_ready == modules_ready,
    {
        HealthResponse {
            status: "ready".to_owned(),
            version: self.version.clone(),
            role: self.config.role.clone(),
            modules_ready,
        }
    }

    /// What the daemon offers: first its modules, then its plugins. The limit
    /// on a message is told as far as the field for it goes.
    pub fn capability_manifest<O, M>(
        &self,
        module_operations: Vec<O>,
        plugin_operations: Vec<O>,
        module_info: Vec<M>,
        plugin_info: Vec<M>,
    ) -> (manifest: CapabilityManifest<O, M>)
        ensures
            manifest.protocol_version == self.spec_protocol_version(),
            manifest.server_version@ == self.spec_version(),
            manifest.server_id@ == self.spec_server_id(),
            manifest.role@ == self.spec_config().role@,
            manifest.operations@ == module_operations@ + plugin_operations@,
            manifest.modules@ == module_info@ + plugin_info@,
            manifest.maximum_message_bytes == if self.spec_config().max_rpc_bytes <= u32::MAX {
                self.spec_config().max_rpc_bytes as u32
            } else {
                u32::MAX
            },
    {
        let mut operations = module_operations;
        let mut more_operations = plugin_operations;
        operations.append(&mut more_operations);
        let mut modules = module_info;
        let mut more_modules = plugin_info;
        modules.append(&mut more_modules);
        let limit = self.config.max_rpc_bytes;
        let maximum_message_bytes: u32 = if limit <= u32::MAX as usize {
            limit as u32
        } else {
            u32::MAX
        };
        CapabilityManifest {
            protocol_version: self.protocol_version,
            server_version: self.version.clone(),
            server_id: self.server_id.clone(),
            role: self.config.role.clone(),
            operations,
            modules,
            maximum_message_bytes,
        }
    }
}

/// What stands for a daemon in its identity tells daemons apart: two of them
/// share it only if they share where they listen, where their data is and
/// their role, as long as no address and no path holds the separator.
pub proof fn law_server_seeds_differ(
    listen: Seq<char>,
    data_dir: Seq<char>,
    role: Seq<char>,
    other_listen: Seq<char>,
    other_data_dir: Seq<char>,
    other_role: Seq<char>,
)
    requires
        !listen.contains('\0'),
        !data_dir.contains('\0'),
        !other_listen.contains('\0'),
        !other_data_dir.contains('\0'),
        server_seed_text(listen, data_dir, role) == server_seed_text(
            other_listen,
            other_data_dir,
            other_role,
        ),
    ensures
        listen == other_listen,
        data_dir == other_data_dir,
        role == other_role,
{
    reveal_strlit("\0");
    assert("\0"@ =~= seq!['\0']);
    let rest = data_dir + "\0"@ + role;
    let other_rest = other_data_dir + "\0"@ + other_role;
    assert(server_seed_text(listen, data_dir, role) =~= listen + seq!['\0'] + rest);
    assert(server_seed_text(other_listen, other_data_dir, other_role) =~= other_listen + seq!['\0']
        + other_rest);
    lemma_split_once(listen, rest, other_listen, other_rest);
    lemma_split_once(data_dir, role, other_data_dir, other_role);
}

proof fn lemma_split_once(a: Seq<char>, b: Seq<char>, c: Seq<char>, d: Seq<char>)
    requires
        !a.contains('\0'),
        !c.contains('\0'),
        a + seq!['\0'] + b == c + seq!['\0'] + d,
    ensures
        a == c,
        b == d,
{
    let s = a + seq!['\0'] + b;
    let t = c + seq!['\0'] + d;
    assert(forall|k: int| 0 <= k < a.len() ==> s[k] != '\0') by {
        assert forall|k: int| 0 <= k < a.len() implies s[k] != '\0' by {
            assert(s[k] == a[k] && a.contains(a[k]));
        }
    }
    assert(forall|k: int| 0 <= k < c.len() ==> t[k] != '\0') by {
        assert forall|k: int| 0 <= k < c.len() implies t[k] != '\0' by {
            assert(t[k] == c[k] && c.contains(c[k]));
        }
    }
    assert(s[a.len() as int] == '\0' && t[c.len() as int] == '\0');
    text::lemma_first_of_is(s, '\0', a.len() as int);
    text::lemma_first_of_is(t, '\0', c.len() as int);
    assert(a =~= s.take(a.len() as int));
    assert(c =~= t.take(c.len() as int));
    assert(b =~= s.skip((a.len() + 1) as int));
    assert(d =~= t.skip((c.len() + 1) as int));
}

/// The identity of a daemon is the digest of where it listens, where its data
/// is and its role, in that order.
pub proof fn law_identity_is_a_digest(listen: &str, data_dir: &str, role: &str, id: String)
    requires
        call_ensures(server_id, (listen, data_dir, role), id),
    ensures
        id@ == "blake3:"@ + digest::blake3_hex(
            vstd::utf8::encode_utf8(listen@ + "\0"@ + data_dir@ + "\0"@ + role@),
        ),
{
}

/// A start goes through its steps in order, each with what the configuration
/// and the embedder give it: every part is there before the steps that need it,
/// the grant is the development file's exactly when one is named, a factory
/// replaces the configured engine, and the modules start last.
pub proof fn law_start_follows_the_configuration<P: Parts, F>(
    config: AppConfig,
    extra: Vec<P::Module>,
    engine: Option<F>,
    start: Startup<P, F>,
)
    requires
        call_ensures(AppState::<P>::build_with::<F>, (config, extra, engine), start),
    ensures
        start@.at == 0 && start@.failure is None,
        start@.plan.len() == 13,
        start@.plan[0] is CreateDirectories,
        start@.plan[1] matches BootStepView::Modules { enabled, extra: more } && enabled.len()
            == config.enabled_modules@.len() && (forall|i: int|
            0 <= i < enabled.len() ==> #[trigger] enabled[i] == config.enabled_modules@[i]@)
            && more == extra@,
        start@.plan[2] matches BootStepView::Store { root: Root::Data, name } && name
            == "registry"@,
        start@.plan[3] is Actors,
        start@.plan[4] matches BootStepView::Audit { root: Root::State, name, mailbox_capacity }
            && name == "audit.jsonl"@ && mailbox_capacity == config.actor_mailbox_capacity,
        match config.development_grant {
            Some(file) => start@.plan[5] matches BootStepView::DevelopmentGrant { path } && path
                == file@,
            None => start@.plan[5] is BaselineGrant,
        },
        start@.plan[6] matches BootStepView::HoloRuntime { mailbox_capacity } && mailbox_capacity
            == config.actor_mailbox_capacity,
        start@.plan[7] matches BootStepView::History { root: Root::Data, name } && name
            == "history"@,
        start@.plan[8] matches BootStepView::Models { root: Root::Data, name } && name
            == "models"@,
        engine is Some ==> start@.plan[9] is CustomEngine,
        engine is None ==> start@.plan[9] is ConfiguredEngine,
        start@.plan[10] matches BootStepView::Nodes { root: Root::Data, name } && name
            == "control-plane/nodes.json"@,
        start@.plan[11] matches BootStepView::Plugins { state_dir, mailbox_capacity } && state_dir
            == config.state_dir@ && mailbox_capacity == config.actor_mailbox_capacity,
        start@.plan[12] matches BootStepView::StartModules { data_dir } && data_dir
            == config.data_dir@,
{
}

/// An embedder's modules, and its engine, are what differs between the ways to
/// start: without either, the start is that of the configuration alone.
pub proof fn law_starts_differ_by_what_the_embedder_gives<P: Parts, F>(
    config: AppConfig,
    extra: Vec<P::Module>,
    plain: Startup<P, F>,
    extended: Startup<P, F>,
    whole: Startup<P, F>,
)
    requires
        call_ensures(AppState::<P>::build::<F>, (config,), plain),
        call_ensures(AppState::<P>::build_with_modules::<F>, (config, extra), extended),
        call_ensures(AppState::<P>::build_with::<F>, (config, extra, None), whole),
    ensures
        extended@ == whole@,
        plain.spec_config() == config && extended.spec_config() == config,
        plain.spec_factory() is None && extended.spec_factory() is None,
        extended@.plan[1] matches BootStepView::Modules { extra: more, .. } && more == extra@,
        plain@.plan[1] matches BootStepView::Modules { extra: more, .. } && more.len() == 0,
        forall|i: int| 0 <= i < 13 && i != 1 ==> #[trigger] plain@.plan[i] == extended@.plan[i],
{
}

/// A step is done with the very parts that earlier steps made, and with the
/// values that the plan gives it.
pub proof fn law_steps_are_given_the_parts_made<P: Parts, F>(
    start: Startup<P, F>,
    step: Option<BootStep<P>>,
)
    requires
        call_ensures(Startup::<P, F>::step, (&start,), step),
    ensures
        step is Some <==> start@.failure is None && start@.at < start@.plan.len(),
        step matches Some(BootStep::Modules { enabled, extra }) ==> (
        start@.plan[start@.at] matches BootStepView::Modules { extra: more, .. } && more == extra@),
        step matches Some(BootStep::Audit { actors, .. }) ==> start@.made.actors == Some(*actors),
        step matches Some(BootStep::HoloRuntime { holo_catalog, grant, audit, .. }) ==> {
            &&& start@.made.holo_catalog == Some(*holo_catalog)
            &&& start@.made.grant == Some(*grant)
            &&& start@.made.audit == Some(*audit)
        },
        step matches Some(BootStep::Models { store, .. }) ==> start@.made.store == Some(*store),
        step matches Some(BootStep::Plugins { actors, .. }) ==> start@.made.actors == Some(*actors),
        step matches Some(BootStep::StartModules { modules, actors, .. }) ==> {
            &&& start@.made.modules == Some(*modules)
            &&& start@.made.actors == Some(*actors)
        },
        step matches Some(BootStep::DevelopmentGrant { path }) ==> (
        start@.plan[start@.at] matches BootStepView::DevelopmentGrant { path: file } && file
            == path@),
{
}

/// An outcome is kept as the part that its step made; a failure ends the start
/// and is the one that it ends with.
pub proof fn law_outcomes_are_kept<P: Parts, F>(
    start: Startup<P, F>,
    outcome: Result<Outcome<P>, LiveError>,
    next: Startup<P, F>,
)
    requires
        start@.failure is None,
        start@.at < start@.plan.len(),
        !(start@.plan[start@.at] is CustomEngine),
        !(start@.plan[start@.at] is ConfiguredEngine),
        call_ensures(Startup::<P, F>::performed, (start, outcome), next),
    ensures
        next@.plan == start@.plan && next.spec_config() == start.spec_config(),
        outcome matches Err(error) ==> next@.failure == Some(error@) && next@.at == start@.at
            && next@.made == start@.made,
        outcome is Ok && next@.at != start@.at ==> next@.at == start@.at + 1 && next@.failure is None,
        next@.at == start@.at + 1 ==> match outcome {
            Ok(Outcome::Modules(part)) => next@.made.modules == Some(part)
                && start@.plan[start@.at] is Modules,
            Ok(Outcome::Store { store, registry, holo_catalog }) => {
                &&& next@.made.store == Some(store) && next@.made.registry == Some(registry)
                &&& next@.made.holo_catalog == Some(holo_catalog)
                &&& start@.plan[start@.at] is Store
            },
            Ok(Outcome::Actors(part)) => next@.made.actors == Some(part)
                && start@.plan[start@.at] is Actors,
            Ok(Outcome::Audit(part)) => next@.made.audit == Some(part)
                && start@.plan[start@.at] is Audit,
            Ok(Outcome::Grant(part)) => next@.made.grant == Some(part) && (
            start@.plan[start@.at] is DevelopmentGrant || start@.plan[start@.at] is BaselineGrant),
            Ok(Outcome::HoloRuntime(part)) => next@.made.holo_runtime == Some(part)
                && start@.plan[start@.at] is HoloRuntime,
            Ok(Outcome::History(part)) => next@.made.history == Some(part)
                && start@.plan[start@.at] is History,
            Ok(Outcome::Models(part)) => next@.made.models == Some(part)
                && start@.plan[start@.at] is Models,
            Ok(Outcome::Nodes(part)) => next@.made.nodes == Some(part)
                && start@.plan[start@.at] is Nodes,
            Ok(Outcome::Plugins(part)) => next@.made.plugins == Some(part)
                && start@.plan[start@.at] is Plugins,
            Ok(Outcome::Done) => next@.made == start@.made,
            Err(_) => false,
        },
        outcome matches Ok(Outcome::Grant(_)) ==> ((start@.plan[start@.at] is DevelopmentGrant
            || start@.plan[start@.at] is BaselineGrant) <==> next@.at == start@.at + 1),
        outcome matches Ok(Outcome::Models(_)) ==> (start@.plan[start@.at] is Models <==> next@.at
            == start@.at + 1),
        outcome matches Ok(Outcome::History(_)) ==> (start@.plan[start@.at] is History <==> next@.at
            == start@.at + 1),
{
}

/// An embedder's factory makes the engine where there is one, else the
/// configuration does; either is given the inference configuration and the
/// models that were opened, and what it makes is the daemon's engine.
pub proof fn law_engine_comes_from_the_factory<P: Parts, F, G>(
    start: Startup<P, F>,
    configured: G,
    next: Startup<P, F>,
) where
    F: FnOnce(&InferenceConfig, Arc<P::Models>) -> Result<Arc<Engine<P::Service>>, LiveError>,
    G: FnOnce(&InferenceConfig, Arc<P::Models>, usize) -> Result<
        Arc<Engine<P::Service>>,
        LiveError,
    >,

    requires
        makes_engine(start@),
        call_ensures(Startup::<P, F>::make_engine::<G>, (start, configured), next),
    ensures
        start.spec_factory() is Some ==> exists|made: Result<Arc<Engine<P::Service>>, LiveError>|
            {
                &&& #[trigger] call_ensures(
                    start.spec_factory()->0,
                    (&start.spec_config().inference, start@.made.models->0),
                    made,
                )
                &&& made matches Ok(engine) ==> next@.made.engine == Some(engine) && next@.failure
                    is None
                &&& made matches Err(error) ==> next@.failure == Some(error@)
            },
        start.spec_factory() is None ==> exists|made: Result<Arc<Engine<P::Service>>, LiveError>|
            {
                &&& #[trigger] call_ensures(
                    configured,
                    (
                        &start.spec_config().inference,
                        start@.made.models->0,
                        start.spec_config().actor_mailbox_capacity,
                    ),
                    made,
                )
                &&& made matches Ok(engine) ==> next@.made.engine == Some(engine) && next@.failure
                    is None
                &&& made matches Err(error) ==> next@.failure == Some(error@)
            },
{
    let made = choose|made: Result<Arc<Engine<P::Service>>, LiveError>|
        {
            &&& next@ == #[trigger] engine_made(start@, made)
            &&& match start.spec_factory() {
                Some(f) => call_ensures(
                    f,
                    (&start.spec_config().inference, start@.made.models->0),
                    made,
                ),
                None => call_ensures(
                    configured,
                    (
                        &start.spec_config().inference,
                        start@.made.models->0,
                        start.spec_config().actor_mailbox_capacity,
                    ),
                    made,
                ),
            }
        };
    assert(next@ == engine_made(start@, made));
}

/// A daemon that is up is made of the parts that its start made, and known by
/// its configuration; a start that failed ends with its failure, and one that
/// is not through stays as it is.
pub proof fn law_daemon_is_made_of_its_parts<P: Parts, F>(
    start: Startup<P, F>,
    version: &str,
    protocol_version: u32,
    ended: Ended<P, F>,
)
    requires
        call_ensures(Startup::<P, F>::finish, (start, version, protocol_version), ended),
    ensures
        ended is Failed <==> start@.failure is Some,
        ended matches Ended::Failed(error) ==> start@.failure == Some(error@),
        ended is Up <==> start@.failure is None && start@.at >= start@.plan.len(),
        ended matches Ended::Pending(kept) ==> kept == start,
        ended matches Ended::Up(state) ==> {
            &&& state.spec_config() == start.spec_config()
            &&& state.spec_version() == version@
            &&& state.spec_protocol_version() == protocol_version
            &&& start@.made.engine matches Some(engine) && state.spec_chat().spec_engine()
                == *engine
            &&& start@.made.history matches Some(history) && state.spec_chat().spec_history()
                == *history
            &&& start@.made.models == Some(state.spec_models())
            &&& start@.made.modules == Some(state.spec_modules())
            &&& start@.made.store == Some(state.spec_store())
            &&& start@.made.registry == Some(state.spec_registry())
            &&& start@.made.holo_catalog == Some(state.spec_holo_catalog())
            &&& start@.made.holo_runtime == Some(state.spec_holo_runtime())
            &&& start@.made.nodes == Some(state.spec_nodes())
            &&& start@.made.plugins == Some(state.spec_plugins())
            &&& start@.made.audit == Some(state.spec_audit())
            &&& start@.made.actors == Some(state.spec_actors())
            &&& state.spec_server_id() == "blake3:"@ + digest::blake3_hex(
                vstd::utf8::encode_utf8(
                    start.spec_config().listen@ + "\0"@ + start.spec_config().data_dir@ + "\0"@
                        + start.spec_config().role@,
                ),
            )
        },
{
}

/// A daemon describes itself by its own version, role and identity, with the
/// operations of its modules first and then those of its plugins, none left
/// out. A limit that does not fit is told as the largest that does.
pub proof fn law_daemon_describes_itself<P: Parts, O, M>(
    state: AppState<P>,
    modules_ready: usize,
    health: HealthResponse,
    module_operations: Vec<O>,
    plugin_operations: Vec<O>,
    module_info: Vec<M>,
    plugin_info: Vec<M>,
    manifest: CapabilityManifest<O, M>,
)
    requires
        call_ensures(AppState::<P>::health, (&state, modules_ready), health),
        call_ensures(
            AppState::<P>::capability_manifest::<O, M>,
            (&state, module_operations, plugin_operations, module_info, plugin_info),
            manifest,
        ),
    ensures
        health.status@ == "ready"@ && health.modules_ready == modules_ready,
        health.version@ == state.spec_version() && health.role@ == state.spec_config().role@,
        manifest.server_version@ == state.spec_version(),
        manifest.server_id@ == state.spec_server_id(),
        manifest.role@ == state.spec_config().role@,
        manifest.protocol_version == state.spec_protocol_version(),
        manifest.operations@.len() == module_operations@.len() + plugin_operations@.len(),
        forall|i: int|
            0 <= i < module_operations@.len() ==> #[trigger] manifest.operations@[i]
                == module_operations@[i],
        forall|i: int|
            0 <= i < plugin_operations@.len() ==> manifest.operations@[module_operations@.len() + i]
                == #[trigger] plugin_operations@[i],
        manifest.modules@.len() == module_info@.len() + plugin_info@.len(),
        forall|i: int|
            0 <= i < module_info@.len() ==> #[trigger] manifest.modules@[i] == module_info@[i],
        forall|i: int|
            0 <= i < plugin_info@.len() ==> manifest.modules@[module_info@.len() + i]
                == #[trigger] plugin_info@[i],
        manifest.maximum_message_bytes <= state.spec_config().max_rpc_bytes,
        manifest.maximum_message_bytes == state.spec_config().max_rpc_bytes
            || manifest.maximum_message_bytes == u32::MAX,
{
}

/// The daemon takes a request in exactly when a module or a plugin offers its
/// operation, as it came and for who made it.
pub proof fn law_daemon_takes_requests_in<P: Parts, R, I, N, L>(
    state: AppState<P>,
    principal: &str,
    call: Call<R, I, N, L>,
    in_modules: bool,
    in_plugins: bool,
    ticket: Result<Ticket<R, I, N, L>, LiveError>,
)
    requires
        call_ensures(
            AppState::<P>::dispatch::<R, I, N, L>,
            (&state, principal, call, in_modules, in_plugins),
            ticket,
        ),
    ensures
        ticket is Ok <==> in_modules || in_plugins,
        ticket matches Ok(taken) ==> {
            &&& taken@.principal == principal@
            &&& taken@.operation == call.operation@
            &&& taken@.kind == call.kind
            &&& taken@.request == call.request
        },
        ticket matches Err(error) ==> error@ == LiveErrorView::Capability(
            "operation "@ + call.operation@ + " is not provided by this server"@,
        ),
{
}

} // verus!
