//! The parts of the engine that the runtime is built from: each outside value, with what is known of
//! it.
//!
//! What is known is set by the calls of the engine in this module, and nowhere else.
use crate::invocation::Event;
use vstd::prelude::*;
use vstd::string::*;
use wasmtime::component::{Component, ResourceTable};
use wasmtime::{Engine, Store, StoreLimits};
use wasmtime_wasi::WasiCtx;

verus! {

/// What compiles and runs plugins.
#[verifier::external_type_specification]
#[verifier::external_body]
pub struct ExEngine(wasmtime::Engine);

/// A compiled plugin.
#[verifier::external_type_specification]
#[verifier::external_body]
pub struct ExComponent(wasmtime::component::Component);

/// The limits that a store holds its plugin to.
#[verifier::external_type_specification]
#[verifier::external_body]
pub struct ExStoreLimits(wasmtime::StoreLimits);

/// Where a plugin is instantiated and runs.
#[verifier::external_type_specification]
#[verifier::external_body]
#[verifier::reject_recursive_types(Data)]
pub struct ExStore<Data: 'static>(wasmtime::Store<Data>);

/// What a plugin sees of the host through WASI.
#[verifier::external_type_specification]
#[verifier::external_body]
pub struct ExWasiCtx(wasmtime_wasi::WasiCtx);

/// The resources that a plugin has been lent by the host.
#[verifier::external_type_specification]
#[verifier::external_body]
pub struct ExResourceTable(wasmtime::component::ResourceTable);

/// A failure inside the engine.
#[verifier::external_type_specification]
#[verifier::external_body]
pub struct ExError(wasmtime::Error);

/// `Engine::clone`: another handle to the same engine.
pub assume_specification[ <wasmtime::Engine as Clone>::clone ](engine: &wasmtime::Engine) -> (r:
    wasmtime::Engine)
    ensures
        r == *engine,
;

/// How the engine treats every plugin that it runs.
#[derive(Clone, Copy, Debug, PartialEq, Eq, Structural)]
pub struct EnginePolicy {
    /// Whether plugins spend fuel as they run, and trap when they have none left.
    pub consume_fuel: bool,
    /// Whether plugins may be components.
    pub component_model: bool,
}

impl EnginePolicy {
    /// The policy of every runtime: plugins are components, and spend fuel.
    pub open spec fn metered_spec() -> EnginePolicy {
        EnginePolicy { consume_fuel: true, component_model: true }
    }

    /// The policy of every runtime: plugins are components, and spend fuel.
    pub fn metered() -> (r: EnginePolicy)
        ensures
            r == EnginePolicy::metered_spec(),
    {
        EnginePolicy { consume_fuel: true, component_model: true }
    }
}

/// An engine, with the policy that it was built for.
#[derive(Debug)]
pub struct HostEngine {
    engine: Engine,
    policy: EnginePolicy,
}

impl HostEngine {
    /// The policy that the engine was built for.
    pub closed spec fn policy(self) -> EnginePolicy {
        self.policy
    }

    /// Every engine is metered.
    #[verifier::type_invariant]
    spec fn is_metered(self) -> bool {
        self.policy == EnginePolicy::metered_spec()
    }

    /// Calls `Engine::new` with a `Config::new` on which `Config::consume_fuel` and
    /// `Config::wasm_component_model` are set as the policy says. Whether an engine can be built
    /// depends on the machine, and is not stated.
    #[verifier::external_body]
    fn build(policy: EnginePolicy) -> (r: Result<HostEngine, wasmtime::Error>)
        requires
            policy == EnginePolicy::metered_spec(),
        ensures
            r is Ok ==> r->Ok_0.policy() == policy,
    {
        let mut config = wasmtime::Config::new();
        config.consume_fuel(policy.consume_fuel);
        config.wasm_component_model(policy.component_model);
        match Engine::new(&config) {
            Ok(engine) => Ok(HostEngine { engine, policy }),
            Err(error) => Err(error),
        }
    }

    /// Whether `Engine::new` with this policy may come to this.
    pub closed spec fn may_build(
        policy: EnginePolicy,
        built: Result<HostEngine, wasmtime::Error>,
    ) -> bool {
        call_ensures(HostEngine::build, (policy,), built)
    }

    /// Builds an engine with this policy.
    pub(crate) fn new(policy: EnginePolicy) -> (built: Result<HostEngine, wasmtime::Error>)
        requires
            policy == EnginePolicy::metered_spec(),
        ensures
            HostEngine::may_build(policy, built),
            built is Ok ==> built->Ok_0.policy() == policy,
    {
        HostEngine::build(policy)
    }

    /// The engine.
    pub fn engine(&self) -> (r: &Engine)
        ensures
            *r == self.engine_view(),
    {
        &self.engine
    }

    /// The engine.
    pub closed spec fn engine_view(self) -> Engine {
        self.engine
    }
}

impl Clone for HostEngine {
    fn clone(&self) -> (r: Self)
        ensures
            r == *self,
    {
        proof {
            use_type_invariant(self);
        }
        HostEngine { engine: self.engine.clone(), policy: self.policy }
    }
}

/// A compiled plugin, with the engine that compiled it and the bytes that it was compiled from.
pub struct Program {
    component: Component,
    engine: HostEngine,
    source: Ghost<Seq<u8>>,
}

impl Program {
    /// The engine that compiled the plugin.
    pub closed spec fn engine_view(self) -> HostEngine {
        self.engine
    }

    /// The bytes that the plugin was compiled from.
    pub closed spec fn source(self) -> Seq<u8> {
        self.source@
    }

    /// Calls `Component::new`. Which bytes compile is for the engine to say, and is not stated.
    #[verifier::external_body]
    fn compile(engine: HostEngine, wasm_bytes: Vec<u8>) -> (r: Result<Program, wasmtime::Error>)
        ensures
            r is Ok ==> r->Ok_0.engine_view() == engine && r->Ok_0.source() == wasm_bytes@,
    {
        match Component::new(&engine.engine, wasm_bytes) {
            Ok(component) => Ok(Program { component, engine, source: Ghost(wasm_bytes@) }),
            Err(error) => Err(error),
        }
    }

    /// Whether `Component::new` with this engine and these bytes may come to this.
    pub closed spec fn may_compile(
        engine: HostEngine,
        wasm_bytes: Seq<u8>,
        compiled: Result<Program, wasmtime::Error>,
    ) -> bool {
        exists|bytes: Vec<u8>|
            bytes@ == wasm_bytes && #[trigger] call_ensures(
                Program::compile,
                (engine, bytes),
                compiled,
            )
    }

    /// Compiles a plugin.
    pub(crate) fn new(engine: HostEngine, wasm_bytes: Vec<u8>) -> (compiled: Result<
        Program,
        wasmtime::Error,
    >)
        ensures
            Program::may_compile(engine, wasm_bytes@, compiled),
            compiled is Ok ==> compiled->Ok_0.engine_view() == engine
                && compiled->Ok_0.source() == wasm_bytes@,
    {
        Program::compile(engine, wasm_bytes)
    }

    /// The engine that compiled the plugin, and is to run it.
    pub fn engine(&self) -> (r: &HostEngine)
        ensures
            *r == self.engine_view(),
            r.policy() == EnginePolicy::metered_spec(),
    {
        proof {
            use_type_invariant(&self.engine);
        }
        &self.engine
    }

    /// The compiled plugin.
    pub fn component(&self) -> (r: &Component)
        ensures
            *r == self.component_view(),
    {
        &self.component
    }

    /// The compiled plugin.
    pub closed spec fn component_view(self) -> Component {
        self.component
    }
}

/// What a store holds its plugin to.
pub struct LimitsView {
    /// How many bytes each linear memory may grow to, if that is bounded.
    pub memory_size: Option<usize>,
    /// How many elements each table may grow to, if that is bounded.
    pub table_elements: Option<usize>,
    /// How many instances there may be.
    pub instances: usize,
    /// How many tables there may be.
    pub tables: usize,
    /// How many linear memories there may be.
    pub memories: usize,
    /// Whether a plugin traps if it asks for more than it may have.
    pub trap_on_grow_failure: bool,
}

/// What a `StoreLimits` holds: its six fields.
pub uninterp spec fn limits_held(limits: StoreLimits) -> LimitsView;

/// Calls `StoreLimitsBuilder::memory_size`, `instances`, `tables` and `memories` on a new builder,
/// and then `build`: the four bounds are as given, tables may have any number of elements, and a
/// growth that is refused is no trap.
#[verifier::external_body]
pub(crate) fn build_limits(memory_size: usize, instances: usize, tables: usize, memories: usize) -> (r:
    StoreLimits)
    ensures
        limits_held(r) == (LimitsView {
            memory_size: Some(memory_size),
            table_elements: None,
            instances,
            tables,
            memories,
            trap_on_grow_failure: false,
        }),
{
    wasmtime::StoreLimitsBuilder::new()
        .memory_size(memory_size)
        .instances(instances)
        .tables(tables)
        .memories(memories)
        .build()
}

/// What a plugin is given of the host's environment through WASI.
pub struct WasiGrants {
    /// How many command line arguments it can read.
    pub arguments: nat,
    /// How many environment variables it can read.
    pub variables: nat,
    /// How many directories it can open files in.
    pub directories: nat,
    /// Whether its standard streams are those of the host.
    pub host_streams: bool,
    /// Whether it can reach any network address.
    pub addresses: bool,
    /// Whether it can look up names of hosts.
    pub name_lookup: bool,
}

impl WasiGrants {
    /// Nothing at all.
    pub open spec fn none() -> WasiGrants {
        WasiGrants {
            arguments: 0,
            variables: 0,
            directories: 0,
            host_streams: false,
            addresses: false,
            name_lookup: false,
        }
    }
}

/// A WASI context, with what it grants.
pub struct BareWasi {
    ctx: WasiCtx,
    grants: Ghost<WasiGrants>,
}

impl BareWasi {
    /// What the context grants.
    pub closed spec fn grants(self) -> WasiGrants {
        self.grants@
    }

    /// Calls `WasiCtxBuilder::new` and `WasiCtxBuilder::build`: the context grants no arguments, no
    /// environment variables and no directories, its standard streams lead nowhere, and it denies
    /// every network address and the lookup of names. That it has clocks and random numbers is
    /// left unsaid.
    #[verifier::external_body]
    pub(crate) fn build() -> (r: BareWasi)
        ensures
            r.grants() == WasiGrants::none(),
    {
        BareWasi {
            ctx: wasmtime_wasi::WasiCtxBuilder::new().build(),
            grants: Ghost(WasiGrants::none()),
        }
    }

    /// The context itself.
    pub closed spec fn ctx_view(self) -> WasiCtx {
        self.ctx
    }

    /// The context itself.
    pub fn into_ctx(self) -> (ctx: WasiCtx)
        ensures
            ctx == self.ctx_view(),
    {
        self.ctx
    }
}

/// A resource table, with how many resources it holds.
pub struct BareTable {
    table: ResourceTable,
    resources: Ghost<nat>,
}

impl BareTable {
    /// How many resources the table holds.
    pub closed spec fn resources(self) -> nat {
        self.resources@
    }

    /// Calls `ResourceTable::new`: the table holds no resource.
    #[verifier::external_body]
    pub(crate) fn empty() -> (r: BareTable)
        ensures
            r.resources() == 0,
    {
        BareTable { table: ResourceTable::new(), resources: Ghost(0) }
    }

    /// The table itself.
    pub closed spec fn table_view(self) -> ResourceTable {
        self.table
    }

    /// The table itself.
    pub fn into_table(self) -> (table: ResourceTable)
        ensures
            table == self.table_view(),
    {
        self.table
    }
}

/// What a store holds.
pub struct StoreContents<Data> {
    /// The host's data.
    pub data: Data,
    /// The fuel that is left.
    pub fuel: u64,
    /// The limits that the plugin is held to, if it is held to any.
    pub limits: Option<LimitsView>,
}

/// A store: where one invocation of a plugin lives.
#[verifier::reject_recursive_types(Data)]
pub struct HostStore<Data: 'static> {
    store: Store<Data>,
    engine: Ghost<HostEngine>,
    contents: Ghost<Option<StoreContents<Data>>>,
}

impl<Data: 'static> HostStore<Data> {
    /// The engine that the store was made with. That the store still belongs to it is known only
    /// while `contents` is.
    pub closed spec fn engine_view(self) -> HostEngine {
        self.engine@
    }

    /// What the store holds, as long as it has not been handed out to be written.
    pub closed spec fn contents(self) -> Option<StoreContents<Data>> {
        self.contents@
    }

    /// Calls `Store::new`: the store belongs to the engine, holds the data, and has neither fuel
    /// nor a limiter yet.
    #[verifier::external_body]
    pub(crate) fn open(engine: &HostEngine, data: Data) -> (r: HostStore<Data>)
        ensures
            r.engine_view() == *engine,
            r.contents() == Some((StoreContents { data, fuel: 0, limits: None })),
    {
        HostStore {
            store: Store::new(&engine.engine, data),
            engine: Ghost(*engine),
            contents: Ghost(Some(StoreContents { data, fuel: 0, limits: None })),
        }
    }

    /// Calls `Store::limiter`: it calls `pick` on the data once and reads the limits found there,
    /// and from then on the store is held to what `pick` finds. The engine and the fuel stay as
    /// they were.
    #[verifier::external_body]
    pub(crate) fn limit<Pick>(&mut self, pick: Pick) where
        Pick: (Fn(&mut Data) -> &mut StoreLimits) + Send + Sync + 'static,

        requires
            forall|data: &mut Data| call_requires(pick, (data,)),
        ensures
            final(self).engine_view() == old(self).engine_view(),
            final(self).contents() is Some <==> old(self).contents() is Some,
            old(self).contents() is Some ==> {
                &&& final(self).contents()->0.fuel == old(self).contents()->0.fuel
                &&& final(self).contents()->0.limits is Some
                &&& exists|data: &mut Data, found: &mut StoreLimits|
                    {
                        &&& *data == old(self).contents()->0.data
                        &&& #[trigger] call_ensures(pick, (data,), found)
                        &&& final(self).contents()->0.limits == Some(limits_held(*found))
                        &&& *final(found) == *found
                        &&& final(self).contents()->0.data == *final(data)
                    }
            },
    {
        self.store.limiter(move |data| pick(data));
    }

    /// Calls `Store::set_fuel`: it succeeds exactly if the engine was built to consume fuel, and
    /// then the store has that much fuel. Nothing else about the store changes. Nothing is said of
    /// a store that has been handed out: another store may have been put in its place.
    #[verifier::external_body]
    pub(crate) fn set_fuel(&mut self, fuel: u64) -> (r: Result<(), wasmtime::Error>)
        ensures
            old(self).contents() is Some ==> (r is Ok
                <==> old(self).engine_view().policy().consume_fuel),
            final(self).engine_view() == old(self).engine_view(),
            final(self).contents() == match old(self).contents() {
                Some(contents) => if r is Ok {
                    Some((StoreContents { fuel, ..contents }))
                } else {
                    Some(contents)
                },
                None => None,
            },
    {
        self.store.set_fuel(fuel)
    }

    /// Calls `Store::get_fuel`: it succeeds exactly if the engine was built to consume fuel, and
    /// then gives the fuel that the store has. Nothing is said of a store that has been handed
    /// out: another store may have been put in its place.
    #[verifier::external_body]
    fn get_fuel(&self) -> (r: Result<u64, wasmtime::Error>)
        ensures
            self.contents() is Some ==> (r is Ok <==> self.engine_view().policy().consume_fuel),
            r is Ok && self.contents() is Some ==> r->Ok_0 == self.contents()->0.fuel,
    {
        self.store.get_fuel()
    }

    /// Whether `Store::get_fuel` on this store, as it is now, may come to this. That holds of a
    /// store that a plugin has run in, too.
    pub closed spec fn may_read(self, read: Result<u64, wasmtime::Error>) -> bool {
        call_ensures(HostStore::<Data>::get_fuel, (&self,), read)
    }

    /// Reads the fuel that is left, and reports the amount, or what the store said against it. As
    /// long as the store has not been handed out, the fuel can be read exactly if the engine
    /// consumes fuel, and it is what the store was given.
    pub fn read_fuel(&self) -> (event: Event)
        ensures
            exists|read: Result<u64, wasmtime::Error>|
                #[trigger] self.may_read(read) && match read {
                    Ok(fuel) => event == Event::FuelRead(fuel),
                    Err(error) => event matches Event::FuelUnreadable(text)
                        && to_string_from_display_ensures::<wasmtime::Error>(&error, text),
                },
            self.contents() is Some ==> (event is FuelRead
                <==> self.engine_view().policy().consume_fuel),
            event is FuelRead && self.contents() is Some ==> event == Event::FuelRead(
                self.contents()->0.fuel,
            ),
    {
        let read = self.get_fuel();
        assert(self.may_read(read));
        Event::of_fuel(read)
    }

    /// The store itself, for the plugin to run in. What it holds, and which engine it belongs to,
    /// is not known from then on.
    pub fn store_mut(&mut self) -> (r: &mut Store<Data>)
        ensures
            *r == old(self).store_view(),
            final(self).store_view() == *final(r),
            final(self).engine_view() == old(self).engine_view(),
            final(self).contents() is None,
    {
        self.contents = Ghost(None);
        &mut self.store
    }

    /// The store itself.
    pub closed spec fn store_view(self) -> Store<Data> {
        self.store
    }
}

} // verus!
