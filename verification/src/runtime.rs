//! The runtime, the isolates that it makes of plugins, and the budget of an invocation.
use crate::error::RuntimeError;
use crate::host;
pub use crate::host::{
    BareTable, BareWasi, EnginePolicy, HostEngine, HostStore, LimitsView, Program, WasiGrants,
};
use std::time::Duration;
use vstd::prelude::*;
use vstd::string::*;
use wasmtime::StoreLimits;

verus! {

/// How long a `Duration` is, in nanoseconds: what `Duration::as_nanos` gives.
pub uninterp spec fn nanos(d: Duration) -> nat;

/// `Duration::as_nanos`: how long the duration is.
pub assume_specification[ Duration::as_nanos ](d: &Duration) -> (n: u128)
    ensures
        n == nanos(*d),
;

/// `Duration::from_millis`: a duration of that many milliseconds.
pub assume_specification[ Duration::from_millis ](millis: u64) -> (d: Duration)
    ensures
        nanos(d) == millis * 1_000_000,
;

const DEFAULT_FUEL: u64 = 250_000;

const DEFAULT_MAX_MEMORY_BYTES: usize = 8 * 1024 * 1024;

const DEFAULT_EXECUTION_TIMEOUT_MILLIS: u64 = 50;

/// What one invocation of a plugin may use.
#[derive(Debug)]
pub struct RuntimeConfig {
    /// The fuel that an invocation starts with.
    pub fuel_per_request: u64,
    /// How many bytes each linear memory may grow to.
    pub max_memory_bytes: usize,
    /// How many instances there may be.
    pub max_instances: usize,
    /// How many tables there may be.
    pub max_tables: usize,
    /// How many linear memories there may be.
    pub max_memories: usize,
    /// How long the plugin may run.
    pub execution_timeout: Duration,
}

impl Clone for RuntimeConfig {
    fn clone(&self) -> (r: Self)
        ensures
            r == *self,
    {
        RuntimeConfig {
            fuel_per_request: self.fuel_per_request,
            max_memory_bytes: self.max_memory_bytes,
            max_instances: self.max_instances,
            max_tables: self.max_tables,
            max_memories: self.max_memories,
            execution_timeout: self.execution_timeout,
        }
    }
}

impl Default for RuntimeConfig {
    fn default() -> (r: Self)
        ensures
            r.fuel_per_request == 250_000,
            r.max_memory_bytes == 8_388_608,
            r.max_instances == 4,
            r.max_tables == 8,
            r.max_memories == 4,
            nanos(r.execution_timeout) == 50_000_000,
    {
        RuntimeConfig {
            fuel_per_request: DEFAULT_FUEL,
            max_memory_bytes: DEFAULT_MAX_MEMORY_BYTES,
            max_instances: 4,
            max_tables: 8,
            max_memories: 4,
            execution_timeout: Duration::from_millis(DEFAULT_EXECUTION_TIMEOUT_MILLIS),
        }
    }
}

/// What owns the engine, and says what an invocation may use.
#[derive(Debug)]
pub struct Runtime {
    engine: HostEngine,
    config: RuntimeConfig,
}

impl Runtime {
    /// The engine.
    pub closed spec fn engine_view(self) -> HostEngine {
        self.engine
    }

    /// What an invocation may use.
    pub closed spec fn config_view(self) -> RuntimeConfig {
        self.config
    }

    /// A runtime with a metered engine of its own. It fails exactly if the engine cannot be built,
    /// and says why.
    pub fn new(config: RuntimeConfig) -> (r: Result<Self, RuntimeError>)
        ensures
            exists|built: Result<HostEngine, wasmtime::Error>|
                #[trigger] HostEngine::may_build(EnginePolicy::metered_spec(), built)
                    && match built {
                    Ok(engine) => {
                        &&& r is Ok
                        &&& r->Ok_0.engine_view() == engine
                        &&& r->Ok_0.config_view() == config
                        &&& engine.policy() == EnginePolicy::metered_spec()
                        &&& engine.policy().consume_fuel
                        &&& engine.policy().component_model
                    },
                    Err(error) => r matches Err(RuntimeError::Engine(text))
                        && to_string_from_display_ensures::<wasmtime::Error>(&error, text),
                },
    {
        let built = HostEngine::new(EnginePolicy::metered());
        assert(HostEngine::may_build(EnginePolicy::metered_spec(), built));
        Runtime::with_engine(built, config)
    }

    /// A runtime with the engine that came of building one.
    pub fn with_engine(
        engine: Result<HostEngine, wasmtime::Error>,
        config: RuntimeConfig,
    ) -> (r: Result<Self, RuntimeError>)
        ensures
            match engine {
                Ok(engine) => {
                    &&& r is Ok
                    &&& r->Ok_0.engine_view() == engine
                    &&& r->Ok_0.config_view() == config
                },
                Err(error) => r matches Err(RuntimeError::Engine(text))
                    && to_string_from_display_ensures::<wasmtime::Error>(&error, text),
            },
    {
        match engine {
            Ok(engine) => Ok(Runtime { engine, config }),
            Err(error) => Err(RuntimeError::Engine(error.to_string())),
        }
    }

    /// Whether `r` is what may come of spawning an isolate from these bytes: what the engine of the
    /// runtime makes of just these bytes, with the configuration of the runtime, or why it can make
    /// nothing of them.
    pub open spec fn may_spawn(
        self,
        wasm_bytes: Seq<u8>,
        r: Result<Isolate, RuntimeError>,
    ) -> bool {
        exists|compiled: Result<Program, wasmtime::Error>|
            #[trigger] Program::may_compile(self.engine_view(), wasm_bytes, compiled)
                && match compiled {
                Ok(program) => {
                    &&& r is Ok
                    &&& r->Ok_0.program_view() == program
                    &&& r->Ok_0.config_view() == self.config_view()
                    &&& program.engine_view() == self.engine_view()
                    &&& program.source() == wasm_bytes
                },
                Err(error) => r matches Err(RuntimeError::Compile(text))
                    && to_string_from_display_ensures::<wasmtime::Error>(&error, text),
            }
    }

    /// Compiles a plugin into an isolate of its own. It fails exactly if the plugin does not
    /// compile, and says why.
    pub fn spawn_isolate(&self, wasm_bytes: Vec<u8>) -> (r: Result<Isolate, RuntimeError>)
        ensures
            self.may_spawn(wasm_bytes@, r),
    {
        let compiled = Program::new(self.engine.clone(), wasm_bytes);
        assert(Program::may_compile(self.engine_view(), wasm_bytes@, compiled));
        self.with_program(compiled)
    }

    /// An isolate with the program that came of compiling one.
    pub fn with_program(&self, program: Result<Program, wasmtime::Error>) -> (r: Result<
        Isolate,
        RuntimeError,
    >)
        ensures
            match program {
                Ok(program) => {
                    &&& r is Ok
                    &&& r->Ok_0.config_view() == self.config_view()
                    &&& r->Ok_0.program_view() == program
                },
                Err(error) => r matches Err(RuntimeError::Compile(text))
                    && to_string_from_display_ensures::<wasmtime::Error>(&error, text),
            },
    {
        match program {
            Ok(program) => Ok(Isolate { program, config: self.config.clone() }),
            Err(error) => Err(RuntimeError::Compile(error.to_string())),
        }
    }
}

/// Spawning leaves no trace in a runtime: what it makes of some bytes depends on the bytes, its
/// engine and its configuration alone, so two isolates of the same bytes are alike in all of them,
/// whatever was spawned or refused in between.
pub proof fn law_spawning_leaves_no_trace(
    runtime: Runtime,
    wasm_bytes: Seq<u8>,
    before: Isolate,
    after: Isolate,
)
    requires
        runtime.may_spawn(wasm_bytes, Ok(before)),
        runtime.may_spawn(wasm_bytes, Ok(after)),
    ensures
        after.program_view().source() == before.program_view().source(),
        after.program_view().engine_view() == before.program_view().engine_view(),
        after.config_view() == before.config_view(),
        Program::may_compile(runtime.engine_view(), wasm_bytes, Ok(before.program_view())),
        Program::may_compile(runtime.engine_view(), wasm_bytes, Ok(after.program_view())),
{
}

/// What comes of spawning is an isolate of just these bytes with the engine and the configuration of
/// the runtime if they compile, and otherwise a failure to compile with what the engine said.
pub proof fn law_spawning_follows_the_compiler(
    runtime: Runtime,
    wasm_bytes: Seq<u8>,
    r: Result<Isolate, RuntimeError>,
)
    requires
        runtime.may_spawn(wasm_bytes, r),
    ensures
        exists|compiled: Result<Program, wasmtime::Error>|
            {
                &&& #[trigger] Program::may_compile(runtime.engine_view(), wasm_bytes, compiled)
                &&& compiled is Ok <==> r is Ok
                &&& compiled matches Ok(program) ==> r->Ok_0.program_view() == program
                &&& compiled matches Err(error) ==> {
                    &&& r->Err_0 matches RuntimeError::Compile(text)
                    &&& to_string_from_display_ensures::<wasmtime::Error>(&error, text)
                }
            },
        r matches Ok(isolate) ==> {
            &&& isolate.program_view().source() == wasm_bytes
            &&& isolate.program_view().engine_view() == runtime.engine_view()
            &&& isolate.config_view() == runtime.config_view()
        },
{
}

/// All isolates of a runtime have its engine and its configuration, whatever they were made from.
pub proof fn law_isolates_share_the_runtime(
    runtime: Runtime,
    a_bytes: Seq<u8>,
    a: Isolate,
    b_bytes: Seq<u8>,
    b: Isolate,
)
    requires
        runtime.may_spawn(a_bytes, Ok(a)),
        runtime.may_spawn(b_bytes, Ok(b)),
    ensures
        a.program_view().engine_view() == b.program_view().engine_view(),
        a.config_view() == b.config_view(),
{
}

impl RuntimeConfig {
    /// What the plugin is held to in an invocation.
    pub open spec fn limits(self) -> LimitsView {
        LimitsView {
            memory_size: Some(self.max_memory_bytes),
            table_elements: None,
            instances: self.max_instances,
            tables: self.max_tables,
            memories: self.max_memories,
            trap_on_grow_failure: false,
        }
    }
}

/// A plugin that is ready to be invoked.
pub struct Isolate {
    program: Program,
    config: RuntimeConfig,
}

impl Isolate {
    /// The compiled plugin.
    pub closed spec fn program_view(self) -> Program {
        self.program
    }

    /// What an invocation may use.
    pub closed spec fn config_view(self) -> RuntimeConfig {
        self.config
    }

    /// The compiled plugin.
    pub fn program(&self) -> (r: &Program)
        ensures
            *r == self.program_view(),
    {
        &self.program
    }

    /// What an invocation may use.
    pub fn config(&self) -> (r: &RuntimeConfig)
        ensures
            *r == self.config_view(),
    {
        &self.config
    }

    /// The limits for the store of the next invocation.
    pub fn limits(&self) -> (limits: StoreLimits)
        ensures
            host::limits_held(limits) == self.config_view().limits(),
            host::limits_held(limits).memory_size == Some(self.config_view().max_memory_bytes),
            host::limits_held(limits).instances == self.config_view().max_instances,
            host::limits_held(limits).tables == self.config_view().max_tables,
            host::limits_held(limits).memories == self.config_view().max_memories,
    {
        host::build_limits(
            self.config.max_memory_bytes,
            self.config.max_instances,
            self.config.max_tables,
            self.config.max_memories,
        )
    }

    /// Whether these are what `make` is given for an invocation: the limits of the configuration, a
    /// WASI context that grants nothing, and an empty resource table.
    pub open spec fn may_supply(
        self,
        limits: StoreLimits,
        wasi: BareWasi,
        table: BareTable,
    ) -> bool {
        &&& host::limits_held(limits) == self.config_view().limits()
        &&& wasi.grants() == WasiGrants::none()
        &&& table.resources() == 0
    }

    /// Whether `data` may be what `make` makes for an invocation.
    pub open spec fn may_make<Data, Make>(self, make: Make, data: Data) -> bool where
        Make: FnOnce(StoreLimits, BareWasi, BareTable) -> Data,
     {
        exists|limits: StoreLimits, wasi: BareWasi, table: BareTable|
            self.may_supply(limits, wasi, table) && #[trigger] call_ensures(
                make,
                (limits, wasi, table),
                data,
            )
    }

    /// Whether `store` may be what an invocation starts with: it belongs to the engine of the
    /// plugin, holds what `make` makes, and has the fuel and the limits of one invocation.
    pub open spec fn may_open<Data: 'static, Make>(
        self,
        make: Make,
        store: HostStore<Data>,
    ) -> bool where Make: FnOnce(StoreLimits, BareWasi, BareTable) -> Data {
        &&& store.engine_view() == self.program_view().engine_view()
        &&& store.contents() is Some
        &&& store.contents()->0.fuel == self.config_view().fuel_per_request
        &&& store.contents()->0.limits == Some(self.config_view().limits())
        &&& self.may_make(make, store.contents()->0.data)
    }

    /// A new store for one invocation: with the fuel of one invocation, with what `make` makes of
    /// the limits, a bare WASI context and an empty resource table in it, and held to the limits,
    /// which `pick` finds there without changing anything.
    pub fn new_store<Data: 'static, Make, Pick>(&self, make: Make, pick: Pick) -> (store: HostStore<
        Data,
    >) where
        Make: FnOnce(StoreLimits, BareWasi, BareTable) -> Data,
        Pick: (Fn(&mut Data) -> &mut StoreLimits) + Send + Sync + 'static,

        requires
            forall|limits: StoreLimits, wasi: BareWasi, table: BareTable|
                self.may_supply(limits, wasi, table) ==> #[trigger] call_requires(
                    make,
                    (limits, wasi, table),
                ),
            forall|data: &mut Data| call_requires(pick, (data,)),
            forall|data: &mut Data, found: &mut StoreLimits|
                {
                    &&& self.may_make(make, *data)
                    &&& #[trigger] call_ensures(pick, (data,), found)
                } ==> {
                    &&& host::limits_held(*found) == self.config_view().limits()
                    &&& *final(found) == *found ==> *final(data) == *data
                },
        ensures
            self.may_open(make, store),
            store.engine_view().policy() == EnginePolicy::metered_spec(),
            store.engine_view().policy().consume_fuel,
            store.contents()->0.fuel == self.config_view().fuel_per_request,
    {
        let limits = self.limits();
        let wasi = BareWasi::build();
        let table = BareTable::empty();
        let data = make(limits, wasi, table);
        assert(self.may_make(make, data));
        let mut store = HostStore::open(self.program.engine(), data);
        store.limit(pick);
        let filled = store.set_fuel(self.config.fuel_per_request);
        assert(filled is Ok);
        store
    }
}

/// Every store that is opened for an invocation has just the fuel of the configuration, and holds its
/// plugin to just the memory size, the instances, the tables and the memories of the configuration,
/// each to its own. It bounds nothing else, and a growth that is refused is no trap.
pub proof fn law_store_is_held_to_the_configuration<Data: 'static, Make>(
    isolate: Isolate,
    make: Make,
    store: HostStore<Data>,
) where Make: FnOnce(StoreLimits, BareWasi, BareTable) -> Data
    requires
        isolate.may_open(make, store),
    ensures
        store.contents() matches Some(contents) && {
            &&& contents.fuel == isolate.config_view().fuel_per_request
            &&& contents.limits matches Some(limits) && {
                &&& limits.memory_size == Some(isolate.config_view().max_memory_bytes)
                &&& limits.instances == isolate.config_view().max_instances
                &&& limits.tables == isolate.config_view().max_tables
                &&& limits.memories == isolate.config_view().max_memories
                &&& limits.table_elements is None
                &&& !limits.trap_on_grow_failure
            }
        },
        store.engine_view() == isolate.program_view().engine_view(),
{
}

/// The data of every store that is opened for an invocation come of the limits of the configuration,
/// of a WASI context with no arguments, no environment variables, no directories, none of the host's
/// streams, no network address and no lookup of names, and of a resource table without resources.
pub proof fn law_store_is_given_nothing_of_the_host<Data: 'static, Make>(
    isolate: Isolate,
    make: Make,
    store: HostStore<Data>,
) where Make: FnOnce(StoreLimits, BareWasi, BareTable) -> Data
    requires
        isolate.may_open(make, store),
    ensures
        exists|limits: StoreLimits, wasi: BareWasi, table: BareTable|
            {
                &&& #[trigger] call_ensures(
                    make,
                    (limits, wasi, table),
                    store.contents()->0.data,
                )
                &&& host::limits_held(limits).memory_size == Some(
                    isolate.config_view().max_memory_bytes,
                )
                &&& host::limits_held(limits).instances == isolate.config_view().max_instances
                &&& host::limits_held(limits).tables == isolate.config_view().max_tables
                &&& host::limits_held(limits).memories == isolate.config_view().max_memories
                &&& wasi.grants().arguments == 0
                &&& wasi.grants().variables == 0
                &&& wasi.grants().directories == 0
                &&& !wasi.grants().host_streams
                &&& !wasi.grants().addresses
                &&& !wasi.grants().name_lookup
                &&& table.resources() == 0
            },
{
    let data = store.contents()->0.data;
    let (limits, wasi, table) = choose|limits: StoreLimits, wasi: BareWasi, table: BareTable|
        isolate.may_supply(limits, wasi, table) && #[trigger] call_ensures(
            make,
            (limits, wasi, table),
            data,
        );
    assert(call_ensures(make, (limits, wasi, table), data));
}

/// What the limits of a configuration are, one by one.
pub proof fn law_limits_are_those_of_the_configuration(config: RuntimeConfig)
    ensures
        config.limits().memory_size == Some(config.max_memory_bytes),
        config.limits().instances == config.max_instances,
        config.limits().tables == config.max_tables,
        config.limits().memories == config.max_memories,
        config.limits().table_elements is None,
        !config.limits().trap_on_grow_failure,
{
}

/// Whether `make` makes data that look alike whenever it is given limits, WASI grants and
/// resources that are alike.
pub open spec fn makes_alike<Data, Make, Look>(make: Make, look: spec_fn(Data) -> Look) -> bool where
    Make: FnOnce(StoreLimits, BareWasi, BareTable) -> Data,
 {
    forall|
        l: StoreLimits,
        w: BareWasi,
        t: BareTable,
        data: Data,
        l2: StoreLimits,
        w2: BareWasi,
        t2: BareTable,
        data2: Data,
    |
        {
            &&& #[trigger] call_ensures(make, (l, w, t), data)
            &&& #[trigger] call_ensures(make, (l2, w2, t2), data2)
            &&& host::limits_held(l) == host::limits_held(l2)
            &&& w.grants() == w2.grants()
            &&& t.resources() == t2.resources()
        } ==> look(data) == look(data2)
}

/// Earlier invocations leave no trace in a store: any two stores that are opened for isolates of
/// the same engine and configuration start with the same engine, the same fuel and the same
/// limits. The data of either might have been made for the other, from limits that are alike, a
/// WASI context that grants nothing and an empty resource table; and in every respect in which
/// `make` makes data alike from those, the data are alike.
pub proof fn law_stores_start_alike<Data: 'static, Make, Look>(
    first: Isolate,
    first_store: HostStore<Data>,
    later: Isolate,
    later_store: HostStore<Data>,
    make: Make,
    look: spec_fn(Data) -> Look,
) where Make: FnOnce(StoreLimits, BareWasi, BareTable) -> Data
    requires
        first.program_view().engine_view() == later.program_view().engine_view(),
        first.config_view() == later.config_view(),
        first.may_open(make, first_store),
        later.may_open(make, later_store),
    ensures
        first_store.engine_view() == later_store.engine_view(),
        first_store.contents()->0.fuel == later_store.contents()->0.fuel,
        first_store.contents()->0.limits == later_store.contents()->0.limits,
        first.may_make(make, later_store.contents()->0.data),
        later.may_make(make, first_store.contents()->0.data),
        makes_alike(make, look) ==> look(first_store.contents()->0.data) == look(
            later_store.contents()->0.data,
        ),
{
    assert(forall|limits: StoreLimits, wasi: BareWasi, table: BareTable|
        first.may_supply(limits, wasi, table) == later.may_supply(limits, wasi, table));
}

} // verus!
