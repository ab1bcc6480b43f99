use nexus_runtime::error::RuntimeError;
use nexus_runtime::http_types;
use nexus_runtime::invocation::{Action, Event, Stage};
use nexus_runtime::model::{Header, HttpRequest};
use nexus_runtime::runtime::{EnginePolicy, HostStore, Isolate, Runtime, RuntimeConfig};
use std::time::Duration;
use wasmtime::component::{Instance, Linker, ResourceTable};
use wasmtime::{ResourceLimiter, StoreLimits};
use wasmtime_wasi::cli::WasiCliView;
use wasmtime_wasi::filesystem::WasiFilesystemView;
use wasmtime_wasi::p2::bindings::cli::environment::Host as EnvironmentHost;
use wasmtime_wasi::p2::bindings::filesystem::preopens::Host as PreopensHost;
use wasmtime_wasi::{WasiCtx, WasiCtxView, WasiView};

const LOOP_FOREVER: &str = r#"(component
  (core module $m (func (export "run") (loop $again (br $again))))
  (core instance $i (instantiate $m))
  (func (export "run") (canon lift (core func $i "run"))))"#;

const RETURN_AT_ONCE: &str = r#"(component
  (core module $m (func (export "run")))
  (core instance $i (instantiate $m))
  (func (export "run") (canon lift (core func $i "run"))))"#;

/// A component with so many instances of a core module that has this in it.
fn instances_of(count: usize, fields: &str) -> String {
    let instances = "(core instance (instantiate $m))".repeat(count);
    format!("(component (core module $m {}) {})", fields, instances)
}

/// What the tests keep in a store.
struct State {
    limits: StoreLimits,
    wasi: WasiCtx,
    table: ResourceTable,
}

impl WasiView for State {
    fn ctx(&mut self) -> WasiCtxView<'_> {
        WasiCtxView { ctx: &mut self.wasi, table: &mut self.table }
    }
}

fn open(isolate: &Isolate) -> HostStore<State> {
    isolate.new_store(
        |limits, wasi, table| State {
            limits,
            wasi: wasi.into_ctx(),
            table: table.into_table(),
        },
        |state: &mut State| &mut state.limits,
    )
}

fn instantiate(isolate: &Isolate, store: &mut HostStore<State>) -> wasmtime::Result<Instance> {
    let mut linker = Linker::<State>::new(isolate.program().engine().engine());
    wasmtime_wasi::p2::add_to_linker_sync(&mut linker)?;
    linker.instantiate(store.store_mut(), isolate.program().component())
}

fn runtime() -> Runtime {
    Runtime::new(RuntimeConfig::default()).unwrap()
}

fn isolate(source: &str) -> Isolate {
    runtime().spawn_isolate(source.as_bytes().to_vec()).unwrap()
}

fn request() -> HttpRequest {
    HttpRequest::new(
        "GET",
        "/r",
        vec![Header { name: "n".to_string(), value: "v".to_string() }],
        vec![1u8, 2],
    )
}

fn response() -> http_types::HttpResponse {
    http_types::HttpResponse {
        status: 201,
        headers: vec![http_types::HttpHeader { name: "a".to_string(), value: "b".to_string() }],
        body: vec![3, 4],
    }
}

/// These events, after those that lead to the call of the plugin.
fn after_call(events: Vec<Event>) -> Vec<Event> {
    let mut all =
        vec![Event::Opened, Event::WasiWired, Event::HostWired, Event::Instantiated];
    all.extend(events);
    all
}

/// The message that an invocation ends with after these events.
fn failure(events: Vec<Event>) -> String {
    let isolate = isolate("(component)");
    let (mut stage, _) = isolate.begin(request());
    let mut last = None;
    for event in events {
        let (next, action) = isolate.step(stage, event);
        stage = next;
        last = action.or(last);
    }
    assert!(matches!(stage, Stage::Finished));
    match last {
        Some(Action::Finish(Err(error))) => error.message(),
        _ => panic!("the invocation did not fail"),
    }
}

#[test]
fn default_configuration_is_as_documented() {
    let config = RuntimeConfig::default();
    assert_eq!(config.fuel_per_request, 250_000);
    assert_eq!(config.max_memory_bytes, 8 * 1024 * 1024);
    assert_eq!(config.max_instances, 4);
    assert_eq!(config.max_tables, 8);
    assert_eq!(config.max_memories, 4);
    assert_eq!(config.execution_timeout, Duration::from_millis(50));
    assert_eq!(config.execution_timeout.as_millis(), 50);
}

#[test]
fn components_compile_and_anything_else_is_refused() {
    assert!(runtime().spawn_isolate(b"(component)".to_vec()).is_ok());
    assert!(runtime().spawn_isolate(b"\0asm\x0d\0\x01\0".to_vec()).is_ok());
    for wrong in [&b"\0asm\x01\0\0\0"[..], b"(module)", b"not wasm", b""] {
        match runtime().spawn_isolate(wrong.to_vec()) {
            Err(RuntimeError::Compile(text)) => {
                assert!(!text.is_empty());
                let message = RuntimeError::Compile(text.clone()).message();
                assert_eq!(message, format!("failed to compile component for isolate: {}", text));
            }
            _ => panic!("compiled"),
        }
    }
}

#[test]
fn refusal_gives_the_reason_for_these_bytes() {
    let runtime = runtime();
    let good = runtime.spawn_isolate(b"(component)".to_vec()).unwrap();
    let engine = good.program().engine().engine();
    let mut reasons = Vec::new();
    for wrong in [&b"(module)"[..], b"not wasm", b""] {
        let reason = match wasmtime::component::Component::new(engine, wrong) {
            Err(error) => error.to_string(),
            Ok(_) => panic!("compiled"),
        };
        match runtime.spawn_isolate(wrong.to_vec()) {
            Err(RuntimeError::Compile(text)) => assert_eq!(text, reason),
            _ => panic!("compiled"),
        }
        reasons.push(reason);
    }
    assert_ne!(reasons[0], reasons[1]);
}

#[test]
fn engine_failure_is_reported() {
    let failed = Runtime::with_engine(Err(wasmtime::Error::msg("no cpu")), RuntimeConfig::default());
    match failed {
        Err(error) => assert_eq!(error.message(), "failed to build wasmtime engine: no cpu"),
        Ok(_) => panic!("built"),
    }
}

#[test]
fn compile_failure_is_reported() {
    match runtime().with_program(Err(wasmtime::Error::msg("bad magic"))) {
        Err(error) => {
            assert_eq!(error.message(), "failed to compile component for isolate: bad magic")
        }
        Ok(_) => panic!("compiled"),
    }
}

#[test]
fn isolates_share_the_configuration() {
    let config = RuntimeConfig {
        fuel_per_request: 11,
        max_memory_bytes: 65_536,
        max_instances: 1,
        max_tables: 2,
        max_memories: 3,
        execution_timeout: Duration::from_secs(2),
    };
    let runtime = Runtime::new(config.clone()).unwrap();
    let isolate = runtime.spawn_isolate(b"(component)".to_vec()).unwrap();
    assert_eq!(isolate.config().fuel_per_request, 11);
    assert_eq!(isolate.config().execution_timeout, Duration::from_secs(2));
    let limits = isolate.limits();
    assert_eq!(limits.instances(), 1);
    assert_eq!(limits.tables(), 2);
    assert_eq!(limits.memories(), 3);
    assert_eq!(EnginePolicy::metered(), EnginePolicy { consume_fuel: true, component_model: true });
}

#[test]
fn limits_bound_memory() {
    let mut limits = isolate("(component)").limits();
    assert_eq!(limits.instances(), 4);
    assert_eq!(limits.tables(), 8);
    assert_eq!(limits.memories(), 4);
    assert!(limits.memory_growing(0, 8 * 1024 * 1024, None).unwrap());
    assert!(!limits.memory_growing(0, 8 * 1024 * 1024 + 1, None).unwrap());
    assert!(limits.table_growing(0, 1_000_000, None).unwrap());
}

#[test]
fn every_store_starts_with_the_budget() {
    let isolate = isolate(RETURN_AT_ONCE);
    for _ in 0..2 {
        let mut store = isolate.new_store(
            |limits, _, _| (limits, "state"),
            |state: &mut (StoreLimits, &'static str)| &mut state.0,
        );
        assert!(matches!(store.read_fuel(), Event::FuelRead(250_000)));
        assert_eq!(store.store_mut().data().1, "state");
        assert_eq!(store.store_mut().data().0.tables(), 8);
        let instance =
            Linker::new(isolate.program().engine().engine())
                .instantiate(store.store_mut(), isolate.program().component())
                .unwrap();
        let run = instance.get_typed_func::<(), ()>(store.store_mut(), "run").unwrap();
        run.call(store.store_mut(), ()).unwrap();
    }
}

#[test]
fn plugins_within_the_limits_are_instantiated() {
    for source in [
        instances_of(4, ""),
        instances_of(4, "(table 1 funcref) (table 1 funcref)"),
    ] {
        let isolate = isolate(&source);
        instantiate(&isolate, &mut open(&isolate)).unwrap();
    }
}

#[test]
fn plugins_over_the_limits_are_not_instantiated() {
    let runtime = runtime();
    for (source, reason) in [
        (instances_of(1, "(memory 129)"), "exceeds memory limits"),
        (instances_of(5, ""), "instance count too high"),
        (
            instances_of(3, "(table 1 funcref) (table 1 funcref) (table 1 funcref)"),
            "table count too high",
        ),
    ] {
        let isolate = runtime.spawn_isolate(source.into_bytes()).unwrap();
        let error = match instantiate(&isolate, &mut open(&isolate)) {
            Err(error) => error.to_string(),
            Ok(_) => panic!("instantiated"),
        };
        assert!(error.contains(reason));
        let message = failure(vec![
            Event::Opened,
            Event::WasiWired,
            Event::HostWired,
            Event::InstantiationFailed(error.clone()),
            Event::Instantiated,
            Event::Responded(response(), Duration::ZERO),
        ]);
        assert_eq!(message, format!("failed to instantiate isolate: {}", error));

        let next = runtime.spawn_isolate(RETURN_AT_ONCE.as_bytes().to_vec()).unwrap();
        assert!(instantiate(&next, &mut open(&next)).is_ok());
    }
}

#[test]
fn limits_of_the_configuration_reach_the_store() {
    let config = RuntimeConfig {
        max_memory_bytes: 0,
        max_instances: 2,
        max_tables: 3,
        max_memories: 0,
        ..RuntimeConfig::default()
    };
    let runtime = Runtime::new(config).unwrap();
    for (source, reason) in [
        (instances_of(2, "(table 1 funcref)"), None),
        (instances_of(3, ""), Some("instance count too high at 3")),
        (instances_of(2, "(table 1 funcref) (table 1 funcref)"), Some("table count too high at 4")),
        (instances_of(1, "(memory 0)"), Some("memory count too high at 1")),
    ] {
        let isolate = runtime.spawn_isolate(source.into_bytes()).unwrap();
        match (instantiate(&isolate, &mut open(&isolate)), reason) {
            (Ok(_), None) => {}
            (Err(error), Some(reason)) => assert!(error.to_string().contains(reason)),
            _ => panic!("the limits are not those of the configuration"),
        }
    }
}

#[test]
fn plugin_is_granted_nothing() {
    let isolate = isolate("(component)");
    let mut store = open(&isolate);
    let state = store.store_mut().data_mut();
    assert!(state.table.is_empty());
    assert!(state.cli().get_arguments().unwrap().is_empty());
    assert!(state.cli().get_environment().unwrap().is_empty());
    assert!(state.filesystem().get_directories().unwrap().is_empty());
}

#[test]
fn failed_spawn_leaves_no_trace() {
    let runtime = runtime();
    assert!(runtime.spawn_isolate(b"not wasm".to_vec()).is_err());
    let isolate = runtime.spawn_isolate(RETURN_AT_ONCE.as_bytes().to_vec()).unwrap();
    assert_eq!(isolate.config().fuel_per_request, 250_000);
    assert!(matches!(open(&isolate).read_fuel(), Event::FuelRead(250_000)));
    assert!(instantiate(&isolate, &mut open(&isolate)).is_ok());
}

#[test]
fn fuel_stops_an_endless_loop() {
    let isolate = isolate(LOOP_FOREVER);
    let mut store = open(&isolate);
    let instance = instantiate(&isolate, &mut store).unwrap();
    let run = instance.get_typed_func::<(), ()>(store.store_mut(), "run").unwrap();
    assert!(run.call(store.store_mut(), ()).is_err());
    assert!(matches!(store.read_fuel(), Event::FuelRead(0)));
}

#[test]
fn fuel_that_is_left_can_be_read() {
    let isolate = isolate(RETURN_AT_ONCE);
    let mut store = open(&isolate);
    let instance = instantiate(&isolate, &mut store).unwrap();
    let run = instance.get_typed_func::<(), ()>(store.store_mut(), "run").unwrap();
    run.call(store.store_mut(), ()).unwrap();
    match store.read_fuel() {
        Event::FuelRead(left) => assert!(left > 0 && left < 250_000),
        _ => panic!("fuel could not be read"),
    }
}

#[test]
fn invocation_hands_the_response_out() {
    let isolate = isolate("(component)");
    let (stage, action) = isolate.begin(request());
    assert!(matches!(action, Action::OpenStore));
    let (stage, action) = isolate.step(stage, Event::Opened);
    assert!(matches!(action, Some(Action::WireWasi)));
    let (stage, action) = isolate.step(stage, Event::WasiWired);
    assert!(matches!(action, Some(Action::WireHost)));
    let (stage, action) = isolate.step(stage, Event::HostWired);
    assert!(matches!(action, Some(Action::Instantiate)));
    let (stage, action) = isolate.step(stage, Event::Instantiated);
    match action {
        Some(Action::Call(lowered, limit)) => {
            assert_eq!(lowered.method, "GET");
            assert_eq!(lowered.uri, "/r");
            assert_eq!(lowered.headers.len(), 1);
            assert_eq!(lowered.headers[0].name, "n");
            assert_eq!(lowered.body, vec![1, 2]);
            assert_eq!(limit, Duration::from_millis(50));
        }
        _ => panic!("no call"),
    }
    let (stage, action) = isolate.step(stage, Event::Responded(response(), Duration::from_millis(50)));
    assert!(matches!(action, Some(Action::ReadFuel)));
    let (stage, action) = isolate.step(stage, Event::FuelRead(249_000));
    match action {
        Some(Action::Finish(Ok(completed))) => {
            assert_eq!(completed.response.status, 201);
            assert_eq!(completed.response.headers[0].value, "b");
            assert_eq!(&completed.response.body[..], &[3u8, 4]);
            assert_eq!(completed.fuel_remaining, 249_000);
            assert_eq!(completed.fuel_consumed, 1_000);
        }
        _ => panic!("not finished"),
    }
    let (stage, action) = isolate.step(stage, Event::Responded(response(), Duration::from_millis(50)));
    assert!(matches!(stage, Stage::Finished));
    assert!(action.is_none());
}

#[test]
fn more_fuel_than_the_budget_counts_as_none_spent() {
    let isolate = isolate("(component)");
    let (stage, _) = isolate.begin(request());
    let (stage, _) = isolate.step(stage, Event::Opened);
    let (stage, _) = isolate.step(stage, Event::WasiWired);
    let (stage, _) = isolate.step(stage, Event::HostWired);
    let (stage, _) = isolate.step(stage, Event::Instantiated);
    let (stage, _) = isolate.step(stage, Event::Responded(response(), Duration::from_millis(50)));
    match isolate.step(stage, Event::FuelRead(250_001)) {
        (_, Some(Action::Finish(Ok(completed)))) => assert_eq!(completed.fuel_consumed, 0),
        _ => panic!("not finished"),
    }
}

#[test]
fn late_response_is_a_timeout() {
    let late = Duration::from_millis(50) + Duration::from_nanos(1);
    assert_eq!(
        failure(after_call(vec![Event::Responded(response(), late)])),
        "guest execution exceeded 50ms"
    );
}

#[test]
fn events_out_of_turn_change_nothing() {
    let isolate = isolate("(component)");
    let (stage, _) = isolate.begin(request());
    let (stage, action) = isolate.step(stage, Event::FuelRead(1));
    assert!(matches!(stage, Stage::Opening(_)));
    assert!(action.is_none());
    let (stage, action) = isolate.step(stage, Event::Opened);
    assert!(matches!(stage, Stage::WiringWasi(_)));
    assert!(matches!(action, Some(Action::WireWasi)));
    let (stage, action) = isolate.step(stage, Event::HostImportsFailed("early".to_string()));
    assert!(matches!(stage, Stage::WiringWasi(_)));
    assert!(action.is_none());
}

#[test]
fn every_failure_names_its_stage() {
    let text = || "why".to_string();
    assert_eq!(
        failure(vec![Event::Opened, Event::WasiImportsFailed(text())]),
        "failed to wire WASI imports into linker: why"
    );
    assert_eq!(
        failure(vec![Event::Opened, Event::WasiWired, Event::HostImportsFailed(text())]),
        "failed to wire host imports into linker: why"
    );
    assert_eq!(
        failure(vec![
            Event::Opened,
            Event::WasiWired,
            Event::HostWired,
            Event::InstantiationFailed(text())
        ]),
        "failed to instantiate isolate: why"
    );
    assert_eq!(
        failure(after_call(vec![Event::TimedOut])),
        "guest execution exceeded 50ms"
    );
    assert_eq!(
        failure(after_call(vec![Event::Trapped(text())])),
        "guest trapped while handling request: why"
    );
    assert_eq!(
        failure(vec![
            Event::Opened,
            Event::WasiWired,
            Event::HostWired,
            Event::Instantiated,
            Event::Responded(response(), Duration::ZERO),
            Event::of_fuel(Err(wasmtime::Error::msg("why"))),
        ]),
        "failed to read remaining fuel after request: why"
    );
}

#[test]
fn earlier_invocations_leave_no_trace() {
    let used = isolate(LOOP_FOREVER);
    let mut results = Vec::new();
    for isolate in [&used, &used, &isolate(LOOP_FOREVER)] {
        let mut store = open(isolate);
        let before = match store.read_fuel() {
            Event::FuelRead(fuel) => fuel,
            _ => panic!("fuel could not be read"),
        };
        let instance = instantiate(isolate, &mut store).unwrap();
        let run = instance.get_typed_func::<(), ()>(store.store_mut(), "run").unwrap();
        let error = run.call(store.store_mut(), ()).unwrap_err();
        results.push((before, error.root_cause().to_string()));
    }
    assert_eq!(results[0].0, 250_000);
    assert_eq!(results[0], results[1]);
    assert_eq!(results[0], results[2]);
}
