use hologram_live::app::{
    id_from_digest, make_engine, server_id, server_seed, AppConfig, AppState, BootStep, Ended,
    Outcome, Parts, Startup,
};
use hologram_live::error::{blocking_failed, Failure, LiveError};
use hologram_live::inference::{Engine, EngineProfile, InferenceConfig, StreamKind};
use hologram_live::rpc::{
    dispatch, resource_for, Answer, Call, Errand, Node, OperationKind, RpcRequest, RpcResponse,
    Step, Ticket, Work, Yield,
};
use std::sync::Arc;

type Request = RpcRequest<&'static str, u8, u16, u32>;

fn config() -> AppConfig {
    AppConfig {
        listen: "127.0.0.1:7777".to_owned(),
        data_dir: "/var/lib/live".to_owned(),
        state_dir: "/var/state/live".to_owned(),
        role: "node".to_owned(),
        enabled_modules: vec!["system".to_owned(), "chat".to_owned()],
        max_rpc_bytes: 4096,
        actor_mailbox_capacity: 8,
        inference: InferenceConfig {
            engine: "echo".to_owned(),
            default_model: "m".to_owned(),
            ollama_endpoint: String::new(),
            weightc_path: String::new(),
            request_timeout_secs: 1,
            resident_sessions: false,
            max_resident_sessions: 1,
        },
        development_grant: None,
    }
}

fn s(text: &str) -> String {
    text.to_owned()
}

fn failure() -> Failure {
    Failure { error: LiveError::NotFound(s("m")), text: s("not found: m"), code: s("LIVE_NOT_FOUND") }
}

#[test]
fn a_daemon_is_known_by_the_digest_of_its_seed() {
    let seed = "127.0.0.1:7777\0/var/lib/live\0node";
    assert_eq!(server_seed("127.0.0.1:7777", "/var/lib/live", "node"), seed);
    let hex = blake3::hash(seed.as_bytes()).to_hex().to_string();
    let id = server_id("127.0.0.1:7777", "/var/lib/live", "node");
    assert_eq!(id, format!("blake3:{hex}"));
    assert_eq!(id, id_from_digest(&hex));
    assert_ne!(id, server_id("127.0.0.1:7777", "/var/lib/liven", "ode"));
}

/// Parts that are told apart by a text.
struct Texts;

impl Parts for Texts {
    type Module = &'static str;
    type Modules = String;
    type Store = &'static str;
    type Registry = &'static str;
    type HoloCatalog = &'static str;
    type Actors = &'static str;
    type Audit = &'static str;
    type Grant = &'static str;
    type HoloRuntime = String;
    type History = &'static str;
    type Models = Vec<u8>;
    type Service = &'static str;
    type Nodes = &'static str;
    type Plugins = &'static str;
}

type Factory = fn(&InferenceConfig, Arc<Vec<u8>>) -> Result<Arc<Engine<&'static str>>, LiveError>;
type Start = Startup<Texts, Factory>;
type State = AppState<Texts>;

fn engine(service: &'static str) -> Arc<Engine<&'static str>> {
    let profile = EngineProfile {
        name: service,
        supports_sessions: false,
        stream_kind: StreamKind::Buffered,
    };
    Arc::new(Engine { profile, service })
}

/// What a step is done with, and what it makes.
fn performed(step: BootStep<Texts>) -> (String, Outcome<Texts>) {
    match step {
        BootStep::CreateDirectories => (s("directories"), Outcome::Done),
        BootStep::Modules { enabled, extra } => {
            let all = format!("{}+{}", enabled.join(","), extra.join(","));
            (format!("modules {all}"), Outcome::Modules(Arc::new(all)))
        }
        BootStep::Store { root, name } => (
            format!("store {root:?} {name}"),
            Outcome::Store {
                store: Arc::new("the store"),
                registry: Arc::new("the registry"),
                holo_catalog: Arc::new("the artifacts"),
            },
        ),
        BootStep::Actors => (s("actors"), Outcome::Actors(Arc::new("the actors"))),
        BootStep::Audit { root, name, mailbox_capacity, actors } => (
            format!("audit {root:?} {name} {mailbox_capacity} {actors}"),
            Outcome::Audit(Arc::new("the audit log")),
        ),
        BootStep::DevelopmentGrant { path } => {
            (format!("grant {path}"), Outcome::Grant(Arc::new("more")))
        }
        BootStep::BaselineGrant => (s("baseline"), Outcome::Grant(Arc::new("the baseline"))),
        BootStep::HoloRuntime { holo_catalog, mailbox_capacity, grant, audit } => {
            let shown = format!("{holo_catalog}, {mailbox_capacity}, {grant}, {audit}");
            (format!("runtime {shown}"), Outcome::HoloRuntime(Arc::new(shown)))
        }
        BootStep::History { root, name } => {
            (format!("history {root:?} {name}"), Outcome::History(Arc::new("the history")))
        }
        BootStep::Models { store, root, name } => {
            (format!("models {store} {root:?} {name}"), Outcome::Models(Arc::new(vec![1, 2])))
        }
        BootStep::CustomEngine => (s("custom engine"), Outcome::Done),
        BootStep::ConfiguredEngine => (s("configured engine"), Outcome::Done),
        BootStep::Nodes { root, name } => {
            (format!("nodes {root:?} {name}"), Outcome::Nodes(Arc::new("the nodes")))
        }
        BootStep::Plugins { state_dir, mailbox_capacity, actors } => (
            format!("plugins {state_dir} {mailbox_capacity} {actors}"),
            Outcome::Plugins(Arc::new("the plugins")),
        ),
        BootStep::StartModules { modules, actors, data_dir } => {
            (format!("start {modules} {actors} {data_dir}"), Outcome::Done)
        }
    }
}

/// Runs a start, with a configured engine of the given name.
fn run(mut start: Start, configured: &'static str) -> (Vec<String>, Ended<Texts, Factory>) {
    let mut shown = Vec::new();
    loop {
        let step = match start.step() {
            Some(step) => step,
            None => return (shown, start.finish("1.2.3", 4)),
        };
        let makes_engine = matches!(step, BootStep::CustomEngine | BootStep::ConfiguredEngine);
        let (what, outcome) = performed(step);
        shown.push(what);
        start = if makes_engine {
            start.make_engine(|config: &InferenceConfig, models: Arc<Vec<u8>>, capacity: usize| {
                assert_eq!(config.default_model, "m");
                assert_eq!(*models, vec![1, 2]);
                assert_eq!(capacity, 8);
                Ok(engine(configured))
            })
        } else {
            start.performed(Ok(outcome))
        };
    }
}

fn up(config: AppConfig) -> State {
    match run(State::build(config), "configured").1 {
        Ended::Up(state) => state,
        _ => panic!("every step is done"),
    }
}

#[test]
fn health_and_manifest_describe_the_daemon() {
    let state = up(config());
    assert_eq!(state.config().role, "node");
    let health = state.health(5);
    assert_eq!(health.status, "ready");
    assert_eq!(health.version, "1.2.3");
    assert_eq!(health.role, "node");
    assert_eq!(health.modules_ready, 5);

    let manifest = state.capability_manifest(vec!["a"], vec!["b"], vec![1], vec![2, 3]);
    assert_eq!(manifest.protocol_version, 4);
    assert_eq!(manifest.server_version, "1.2.3");
    assert_eq!(manifest.server_id, server_id("127.0.0.1:7777", "/var/lib/live", "node"));
    assert_eq!(manifest.role, "node");
    assert_eq!(manifest.operations, vec!["a", "b"]);
    assert_eq!(manifest.modules, vec![1, 2, 3]);
    assert_eq!(manifest.maximum_message_bytes, 4096);
}

#[test]
fn a_limit_that_does_not_fit_is_cut() {
    let state = up(AppConfig { max_rpc_bytes: usize::MAX, ..config() });
    let manifest = state.capability_manifest::<u8, u8>(vec![], vec![], vec![], vec![]);
    assert_eq!(manifest.maximum_message_bytes, u32::MAX);
}

#[test]
fn a_daemon_comes_up_in_order() {
    let (steps, ended) = run(State::build(config()), "configured");
    assert_eq!(
        steps,
        vec![
            "directories",
            "modules system,chat+",
            "store Data registry",
            "actors",
            "audit State audit.jsonl 8 the actors",
            "baseline",
            "runtime the artifacts, 8, the baseline, the audit log",
            "history Data history",
            "models the store Data models",
            "configured engine",
            "nodes Data control-plane/nodes.json",
            "plugins /var/state/live 8 the actors",
            "start system,chat+ the actors /var/lib/live",
        ]
    );
    match ended {
        Ended::Up(state) => {
            assert_eq!(state.chat().engine_name(), "configured");
            assert_eq!(**state.modules(), "system,chat+");
            assert_eq!(**state.store(), "the store");
            assert_eq!(**state.registry(), "the registry");
            assert_eq!(**state.holo_catalog(), "the artifacts");
            assert_eq!(
                **state.holo_runtime(),
                "the artifacts, 8, the baseline, the audit log"
            );
            assert_eq!(**state.history(), "the history");
            assert_eq!(**state.models(), vec![1, 2]);
            assert_eq!(**state.nodes(), "the nodes");
            assert_eq!(**state.plugins(), "the plugins");
            assert_eq!(**state.actors(), "the actors");
            assert_eq!(**state.audit(), "the audit log");
        }
        _ => panic!("every step is done"),
    }

    let granted = AppConfig { development_grant: Some(s("/etc/grant.json")), ..config() };
    let (steps, _) = run(State::build(granted), "configured");
    assert_eq!(steps[5], "grant /etc/grant.json");
    assert_eq!(steps[6], "runtime the artifacts, 8, more, the audit log");
}

#[test]
fn a_factory_replaces_the_configured_engine() {
    let factory: Factory = |config, models| {
        assert_eq!(config.default_model, "m");
        assert_eq!(*models, vec![1, 2]);
        Ok(engine("custom"))
    };
    let (steps, ended) = run(State::build_with(config(), vec![], Some(factory)), "configured");
    assert_eq!(steps[9], "custom engine");
    match ended {
        Ended::Up(state) => {
            assert_eq!(state.chat().engine_name(), "custom");
            assert_eq!(state.chat().engine().service, "custom");
            assert_eq!(**state.models(), vec![1, 2]);
        }
        _ => panic!("every step is done"),
    }

    let broken: Factory = |_, _| Err(LiveError::Config(s("no engine")));
    let (steps, ended) = run(State::build_with(config(), vec![], Some(broken)), "configured");
    assert_eq!(steps.len(), 10, "no step follows the one that failed");
    assert!(matches!(ended, Ended::Failed(LiveError::Config(m)) if m == "no engine"));
}

#[test]
fn an_engine_is_made_by_one_of_two() {
    let configured = |config: &u8, models: Arc<u16>, capacity: usize| {
        Ok(Arc::new((*config as usize) + (*models as usize) + capacity))
    };
    let none: Option<fn(&u8, Arc<u16>) -> Result<Arc<usize>, LiveError>> = None;
    assert_eq!(*make_engine(none, configured, &1, Arc::new(2), 3).expect("made"), 6);
    let factory: fn(&u8, Arc<u16>) -> Result<Arc<usize>, LiveError> =
        |config, models| Ok(Arc::new((*config as usize) * (*models as usize)));
    assert_eq!(*make_engine(Some(factory), configured, &5, Arc::new(7), 3).expect("made"), 35);
}

#[test]
fn the_first_failure_ends_the_start() {
    let start: Start = State::build(config());
    let start = start.performed(Ok(Outcome::Done)).performed(Err(LiveError::Io(s("disk"))));
    assert!(start.step().is_none());
    let start = start.performed(Ok(Outcome::Done)).performed(Err(LiveError::Io(s("later"))));
    assert!(matches!(start.finish("1", 1), Ended::Failed(LiveError::Io(m)) if m == "disk"));
}

#[test]
fn an_outcome_of_another_step_changes_nothing() {
    let start: Start = State::build(config());
    let start = start.performed(Ok(Outcome::History(Arc::new("h"))));
    assert!(matches!(start.step(), Some(BootStep::CreateDirectories)));
    assert!(matches!(start.finish("1", 1), Ended::Pending(_)));
}

#[test]
fn further_modules_are_registered_beside_the_enabled_ones() {
    let plain = run(State::build(config()), "configured").0;
    let extra = || vec!["mine", "yours"];
    let (steps, ended) = run(State::build_with_modules(config(), extra()), "configured");
    assert_eq!(steps.len(), plain.len());
    for (at, (step, other)) in steps.iter().zip(&plain).enumerate() {
        match at {
            1 => assert_eq!(step, "modules system,chat+mine,yours"),
            12 => assert_eq!(step, "start system,chat+mine,yours the actors /var/lib/live"),
            _ => assert_eq!(step, other),
        }
    }
    match ended {
        Ended::Up(state) => assert_eq!(**state.modules(), "system,chat+mine,yours"),
        _ => panic!("every step is done"),
    }
    assert_eq!(steps, run(State::build_with(config(), extra(), None), "configured").0);
}

#[test]
fn a_part_that_was_made_is_not_replaced() {
    let start: Start = State::build(config());
    let start = start.performed(Ok(Outcome::Done));
    let start = start.performed(Ok(Outcome::Modules(Arc::new(s("first")))));
    let start = start.performed(Ok(Outcome::Modules(Arc::new(s("second")))));
    match run(start, "configured").1 {
        Ended::Up(state) => assert_eq!(**state.modules(), "first"),
        _ => panic!("every step is done"),
    }
}

#[test]
fn a_request_names_what_it_is_about() {
    let named: Vec<(Request, Option<&str>)> = vec![
        (RpcRequest::HoloInspect { kappa: s("k") }, Some("k")),
        (RpcRequest::HoloPlan { kappa: s("k") }, Some("k")),
        (RpcRequest::HoloVerify { kappa: s("k") }, Some("k")),
        (RpcRequest::HoloRemove { kappa: s("k") }, Some("k")),
        (RpcRequest::HoloLoad { kappa: s("k") }, Some("k")),
        (RpcRequest::HoloUnload { kappa: s("k") }, Some("k")),
        (RpcRequest::HoloRun { kappa: s("k"), inputs: 1 }, Some("k")),
        (RpcRequest::RegistryGet { id: s("i") }, Some("i")),
        (RpcRequest::FilesGet { id: s("i") }, Some("i")),
        (RpcRequest::FilesRename { id: s("i"), filename: s("f") }, Some("i")),
        (RpcRequest::HistoryGet { id: s("i") }, Some("i")),
        (RpcRequest::HistoryAppend { id: s("i"), role: "user", content: s("c") }, Some("i")),
        (RpcRequest::HistoryDelete { id: s("i") }, Some("i")),
        (RpcRequest::ChatSend { id: s("i"), content: s("c") }, Some("i")),
        (RpcRequest::ModelRemove { id: s("i") }, Some("i")),
        (RpcRequest::ModelImport { path: s("/p") }, Some("/p")),
        (
            RpcRequest::RegistryPut {
                kind: s("blob"),
                media_type: s("t"),
                filename: Some(s("f")),
                bytes: vec![],
            },
            Some("f"),
        ),
        (RpcRequest::FilesPut { media_type: s("t"), filename: None, bytes: vec![] }, None),
        (RpcRequest::NodeHeartbeat { node: Node { node_id: s("n"), details: 1 } }, Some("n")),
        (
            RpcRequest::PluginCall { plugin_id: s("p"), operation: s("o"), payload: 1 },
            Some("p"),
        ),
        (RpcRequest::HistoryArchive { id: s("i"), archived: true }, None),
        (RpcRequest::HistoryCreate { title: s("t") }, None),
        (RpcRequest::HoloImport { name: s("n"), bytes: vec![] }, None),
        (RpcRequest::TracingSet { filter: s("info") }, None),
        (RpcRequest::Handshake, None),
        (RpcRequest::Shutdown, None),
    ];
    for (request, expected) in named {
        assert_eq!(resource_for(&request).as_deref(), expected, "{request:?}");
    }
}

fn ticket(
    principal: &str,
    operation: &str,
    kind: OperationKind,
    request: Request,
) -> Ticket<&'static str, u8, u16, u32> {
    let call = Call { operation: operation.to_owned(), kind, request };
    dispatch(principal, call, false, true).expect("provided")
}

fn step_of(request: Request) -> Step<&'static str, u8, u16, u32> {
    ticket("alice", "op", OperationKind::Write, request).authorized(Ok(())).expect("allowed").1
}

#[test]
fn files_are_objects_of_their_kind() {
    match step_of(RpcRequest::FilesList) {
        Step::Value { work: Work::ListObjects { kind }, answer } => {
            assert_eq!(kind.as_deref(), Some("file"));
            assert_eq!(answer, Answer::Objects);
        }
        other => panic!("{other:?}"),
    }
    match step_of(RpcRequest::RegistryList) {
        Step::Value { work: Work::ListObjects { kind }, .. } => assert_eq!(kind, None),
        other => panic!("{other:?}"),
    }
    let put = RpcRequest::FilesPut { media_type: s("t"), filename: Some(s("f")), bytes: vec![7] };
    match step_of(put) {
        Step::Value { work: Work::PutObject { kind, media_type, filename, bytes }, answer } => {
            assert_eq!((kind.as_str(), media_type.as_str()), ("file", "t"));
            assert_eq!(filename.as_deref(), Some("f"));
            assert_eq!(bytes, vec![7]);
            assert_eq!(answer, Answer::Object);
        }
        other => panic!("{other:?}"),
    }
    for request in [RpcRequest::FilesGet { id: s("i") }, RpcRequest::RegistryGet { id: s("i") }] {
        match step_of(request) {
            Step::Value { work: Work::GetObject { id }, answer } => {
                assert_eq!(id, "i");
                assert_eq!(answer, Answer::ObjectContent);
            }
            other => panic!("{other:?}"),
        }
    }
}

#[test]
fn requests_go_to_their_service() {
    let shape = |request| match step_of(request) {
        Step::Value { answer, .. } => answer,
        other => panic!("{other:?}"),
    };
    assert_eq!(shape(RpcRequest::Handshake), Answer::CapabilityManifest);
    assert_eq!(shape(RpcRequest::Health), Answer::Health);
    assert_eq!(shape(RpcRequest::ModulesList), Answer::Modules);
    assert_eq!(shape(RpcRequest::HoloImport { name: s("n"), bytes: vec![] }), Answer::HoloInspection);
    assert_eq!(shape(RpcRequest::HoloList), Answer::HoloList);
    assert_eq!(shape(RpcRequest::HoloPlan { kappa: s("k") }), Answer::HoloPlan);
    assert_eq!(shape(RpcRequest::HoloVerify { kappa: s("k") }), Answer::HoloInspection);
    assert_eq!(shape(RpcRequest::HoloRun { kappa: s("k"), inputs: 1 }), Answer::HoloRun);
    assert_eq!(shape(RpcRequest::HistoryList { include_archived: true }), Answer::Conversations);
    assert_eq!(shape(RpcRequest::HistoryArchive { id: s("i"), archived: true }), Answer::Conversation);
    assert_eq!(shape(RpcRequest::ChatSend { id: s("i"), content: s("c") }), Answer::Conversation);
    assert_eq!(shape(RpcRequest::ModelList), Answer::Models);
    assert_eq!(shape(RpcRequest::ModelImport { path: s("p") }), Answer::Model);
    assert_eq!(shape(RpcRequest::NodesList), Answer::Nodes);
    assert_eq!(shape(RpcRequest::PluginList), Answer::Plugins);
    let call = RpcRequest::PluginCall { plugin_id: s("p"), operation: s("o"), payload: 9 };
    assert_eq!(shape(call), Answer::PluginResult);

    assert!(matches!(step_of(RpcRequest::Shutdown), Step::Errand(Errand::Shutdown)));
    assert!(matches!(
        step_of(RpcRequest::HoloUnload { kappa: s("k") }),
        Step::Errand(Errand::UnloadHolo { kappa }) if kappa == "k"
    ));
    assert!(matches!(step_of(RpcRequest::TracingGet), Step::ReadFilter));
    assert!(matches!(step_of(RpcRequest::HoloResident), Step::ListResident));
    assert!(matches!(
        step_of(RpcRequest::HoloLoad { kappa: s("k") }),
        Step::Load { kappa, principal } if kappa == "k" && principal == "alice"
    ));
}

#[test]
fn an_operation_that_nobody_offers_is_refused() {
    let call = || -> Call<&'static str, u8, u16, u32> {
        Call { operation: s("x.y"), kind: OperationKind::Read, request: RpcRequest::Health }
    };
    match dispatch("alice", call(), false, false) {
        Err(LiveError::Capability(message)) => {
            assert_eq!(message, "operation x.y is not provided by this server");
        }
        other => panic!("{other:?}"),
    }
    let ticket = up(config()).dispatch("alice", call(), true, false).expect("provided");
    assert_eq!(ticket.principal(), "alice");
    assert_eq!(ticket.operation(), "x.y");
    assert_eq!(ticket.kind(), OperationKind::Read);
}

#[test]
fn a_request_that_is_not_allowed_is_not_routed() {
    let ticket = ticket("alice", "op", OperationKind::Write, RpcRequest::Shutdown);
    let error = ticket.authorized(Err(failure())).expect_err("not allowed");
    assert_eq!(error.code, "LIVE_NOT_FOUND");
    assert_eq!(error.message, "not found: m");
}

#[test]
fn only_changes_are_audited() {
    let permit = |kind| {
        let request: Request = RpcRequest::HistoryDelete { id: s("i") };
        ticket("alice", "history.delete", kind, request).authorized(Ok(())).expect("allowed").0
    };
    let done: RpcResponse<u8> = RpcResponse::from_errand(Ok(()));
    assert!(matches!(done, RpcResponse::Accepted));
    assert!(permit(OperationKind::Read).audit_entry(&done).is_none());
    let entry = permit(OperationKind::Write).audit_entry(&done).expect("a change is audited");
    assert_eq!(entry.principal, "alice");
    assert_eq!(entry.operation, "history.delete");
    assert_eq!(entry.resource.as_deref(), Some("i"));
    assert_eq!(entry.outcome, "accepted");
    let failed: RpcResponse<u8> = RpcResponse::from_errand(Err(failure()));
    let entry = permit(OperationKind::Write).audit_entry(&failed).expect("a failure is audited");
    assert_eq!(entry.outcome, "error:LIVE_NOT_FOUND");
}

#[test]
fn answers_wrap_what_the_services_yield() {
    match RpcResponse::from_result(Ok(7_u8), Answer::Objects) {
        RpcResponse::Value { answer, value } => assert_eq!((answer, value), (Answer::Objects, 7)),
        other => panic!("{other:?}"),
    }
    match RpcResponse::from_load(Ok(7_u8)) {
        RpcResponse::HoloResident(list) => assert_eq!(list, vec![7]),
        other => panic!("{other:?}"),
    }
    match RpcResponse::from_resident(Ok(vec![7_u8, 8])) {
        RpcResponse::HoloResident(list) => assert_eq!(list, vec![7, 8]),
        other => panic!("{other:?}"),
    }
    match RpcResponse::<u8>::from_filter(Ok(s("info"))) {
        RpcResponse::TracingFilter(filter) => assert_eq!(filter, "info"),
        other => panic!("{other:?}"),
    }
    match RpcResponse::<u8>::from_filter_set(s("debug"), Ok(())) {
        RpcResponse::TracingFilter(filter) => assert_eq!(filter, "debug"),
        other => panic!("{other:?}"),
    }
    let failed: Vec<RpcResponse<u8>> = vec![
        RpcResponse::from_result(Err(failure()), Answer::Model),
        RpcResponse::from_load(Err(failure())),
        RpcResponse::from_resident(Err(failure())),
        RpcResponse::from_filter(Err(failure())),
        RpcResponse::from_filter_set(s("debug"), Err(failure())),
    ];
    for response in failed {
        assert!(matches!(response, RpcResponse::Error(e) if e.code == "LIVE_NOT_FOUND"));
    }
}

#[test]
fn blocking_work_that_is_lost_is_a_conflict() {
    assert!(matches!(
        blocking_failed("task 1 panicked"),
        LiveError::Conflict(m) if m == "blocking task failed: task 1 panicked"
    ));
}

#[test]
fn who_asks_does_not_matter_but_for_loading() {
    let shown = |principal: &str, request: Request| {
        let ticket = ticket(principal, "op", OperationKind::Write, request);
        format!("{:?}", ticket.authorized(Ok(())).expect("allowed").1)
    };
    let list = || -> Request { RpcRequest::HistoryList { include_archived: true } };
    assert_eq!(shown("alice", list()), shown("bob", list()));
    let load = || -> Request { RpcRequest::HoloLoad { kappa: s("k") } };
    assert_ne!(shown("alice", load()), shown("bob", load()));
}

#[test]
fn a_step_is_answered_by_its_outcome() {
    let respond = |request, outcome: Result<Yield<u8>, Failure>| {
        step_of(request).reply().respond(outcome)
    };
    match respond(RpcRequest::NodesList, Ok(Yield::Value(7))) {
        Some(RpcResponse::Value { answer, value }) => {
            assert_eq!((answer, value), (Answer::Nodes, 7));
        }
        other => panic!("{other:?}"),
    }
    assert!(matches!(
        respond(RpcRequest::Shutdown, Ok(Yield::Nothing)),
        Some(RpcResponse::Accepted)
    ));
    assert!(matches!(
        respond(RpcRequest::TracingGet, Ok(Yield::Text(s("info")))),
        Some(RpcResponse::TracingFilter(filter)) if filter == "info"
    ));
    assert!(matches!(
        respond(RpcRequest::TracingSet { filter: s("debug") }, Ok(Yield::Nothing)),
        Some(RpcResponse::TracingFilter(filter)) if filter == "debug"
    ));
    assert!(matches!(
        respond(RpcRequest::HoloLoad { kappa: s("k") }, Ok(Yield::Value(7))),
        Some(RpcResponse::HoloResident(list)) if list == vec![7]
    ));
    assert!(matches!(
        respond(RpcRequest::HoloResident, Ok(Yield::List(vec![7, 8]))),
        Some(RpcResponse::HoloResident(list)) if list == vec![7, 8]
    ));
    assert!(matches!(
        respond(RpcRequest::HoloResident, Err(failure())),
        Some(RpcResponse::Error(error)) if error.code == "LIVE_NOT_FOUND"
    ));
    assert!(respond(RpcRequest::Shutdown, Ok(Yield::Value(7))).is_none());
}
