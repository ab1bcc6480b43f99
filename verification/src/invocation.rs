//! One invocation of a plugin, as a state machine.
//!
//! The driver performs an action and reports what came of it as an event; the next action follows
//! from that. Every failure ends the invocation, and nothing but the invocation.
use crate::error::{RuntimeError, RuntimeErrorView};
use crate::http_types;
use crate::model;
use crate::model::{RequestView, ResponseView};
use crate::runtime;
use crate::host::{BareTable, BareWasi, HostEngine, HostStore, StoreContents};
use crate::runtime::{Isolate, Runtime, RuntimeConfig};
use std::time::Duration;
use vstd::prelude::*;
use vstd::string::*;
use wasmtime::StoreLimits;

verus! {

/// What an invocation is waiting for.
pub enum Stage {
    /// The store.
    Opening(model::HttpRequest),
    /// The WASI imports.
    WiringWasi(model::HttpRequest),
    /// The host's own imports.
    WiringHost(model::HttpRequest),
    /// An instance of the plugin.
    Instantiating(model::HttpRequest),
    /// The plugin's response.
    Calling,
    /// The fuel that the plugin left.
    Metering(model::HttpResponse),
    /// Nothing: the invocation is over.
    Finished,
}

/// What an invocation is waiting for, as plain values.
pub enum StageView {
    Opening(RequestView),
    WiringWasi(RequestView),
    WiringHost(RequestView),
    Instantiating(RequestView),
    Calling,
    Metering(ResponseView),
    Finished,
}

impl View for Stage {
    type V = StageView;

    open spec fn view(&self) -> StageView {
        match self {
            Stage::Opening(request) => StageView::Opening(request@),
            Stage::WiringWasi(request) => StageView::WiringWasi(request@),
            Stage::WiringHost(request) => StageView::WiringHost(request@),
            Stage::Instantiating(request) => StageView::Instantiating(request@),
            Stage::Calling => StageView::Calling,
            Stage::Metering(response) => StageView::Metering(response@),
            Stage::Finished => StageView::Finished,
        }
    }
}

/// What came of an invocation that succeeded.
#[derive(Debug)]
pub struct Completed {
    /// The plugin's response.
    pub response: model::HttpResponse,
    /// The fuel that the plugin left.
    pub fuel_remaining: u64,
    /// The fuel that the plugin spent.
    pub fuel_consumed: u64,
}

/// What came of an invocation that succeeded, as plain values.
pub struct CompletedView {
    pub response: ResponseView,
    pub fuel_remaining: u64,
    pub fuel_consumed: u64,
}

impl View for Completed {
    type V = CompletedView;

    open spec fn view(&self) -> CompletedView {
        CompletedView {
            response: self.response@,
            fuel_remaining: self.fuel_remaining,
            fuel_consumed: self.fuel_consumed,
        }
    }
}

/// What the driver is to do next.
pub enum Action {
    /// Make a new store.
    OpenStore,
    /// Offer the plugin the WASI imports.
    WireWasi,
    /// Offer the plugin the host's own imports.
    WireHost,
    /// Instantiate the plugin in the store.
    Instantiate,
    /// Call the plugin with this request, and wait for no longer than this.
    Call(http_types::HttpRequest, Duration),
    /// Read the fuel that is left in the store.
    ReadFuel,
    /// Hand the outcome to whoever asked for the invocation.
    Finish(Result<Completed, RuntimeError>),
}

/// What the driver is to do next, as plain values.
pub enum ActionView {
    OpenStore,
    WireWasi,
    WireHost,
    Instantiate,
    Call(RequestView, Duration),
    ReadFuel,
    Finish(Result<CompletedView, RuntimeErrorView>),
}

impl View for Action {
    type V = ActionView;

    open spec fn view(&self) -> ActionView {
        match self {
            Action::OpenStore => ActionView::OpenStore,
            Action::WireWasi => ActionView::WireWasi,
            Action::WireHost => ActionView::WireHost,
            Action::Instantiate => ActionView::Instantiate,
            Action::Call(request, limit) => ActionView::Call(request@, *limit),
            Action::ReadFuel => ActionView::ReadFuel,
            Action::Finish(Ok(completed)) => ActionView::Finish(Ok(completed@)),
            Action::Finish(Err(error)) => ActionView::Finish(Err(error@)),
        }
    }
}

/// What came of an action. A failure carries what the part that failed said.
#[derive(Debug)]
pub enum Event {
    /// The store is there.
    Opened,
    /// The plugin has the WASI imports.
    WasiWired,
    /// The WASI imports could not be offered.
    WasiImportsFailed(String),
    /// The plugin has the host's own imports.
    HostWired,
    /// The host's own imports could not be offered.
    HostImportsFailed(String),
    /// The plugin is instantiated.
    Instantiated,
    /// The plugin could not be instantiated.
    InstantiationFailed(String),
    /// The plugin responded, after so much time.
    Responded(http_types::HttpResponse, Duration),
    /// The plugin had not responded when the time was up, and was stopped.
    TimedOut,
    /// The plugin trapped.
    Trapped(String),
    /// So much fuel is left.
    FuelRead(u64),
    /// The fuel that is left could not be read.
    FuelUnreadable(String),
}

/// What came of an action, as plain values.
pub enum EventView {
    Opened,
    WasiWired,
    WasiImportsFailed(Seq<char>),
    HostWired,
    HostImportsFailed(Seq<char>),
    Instantiated,
    InstantiationFailed(Seq<char>),
    Responded(ResponseView, Duration),
    TimedOut,
    Trapped(Seq<char>),
    FuelRead(u64),
    FuelUnreadable(Seq<char>),
}

impl View for Event {
    type V = EventView;

    open spec fn view(&self) -> EventView {
        match self {
            Event::Opened => EventView::Opened,
            Event::WasiWired => EventView::WasiWired,
            Event::HostWired => EventView::HostWired,
            Event::WasiImportsFailed(e) => EventView::WasiImportsFailed(e@),
            Event::HostImportsFailed(e) => EventView::HostImportsFailed(e@),
            Event::Instantiated => EventView::Instantiated,
            Event::InstantiationFailed(e) => EventView::InstantiationFailed(e@),
            Event::Responded(response, elapsed) => EventView::Responded(response@, *elapsed),
            Event::TimedOut => EventView::TimedOut,
            Event::Trapped(e) => EventView::Trapped(e@),
            Event::FuelRead(fuel) => EventView::FuelRead(*fuel),
            Event::FuelUnreadable(e) => EventView::FuelUnreadable(e@),
        }
    }
}

impl Event {
    /// What came of reading the fuel.
    pub fn of_fuel(read: Result<u64, wasmtime::Error>) -> (event: Event)
        ensures
            match read {
                Ok(fuel) => event == Event::FuelRead(fuel),
                Err(error) => event matches Event::FuelUnreadable(text)
                    && to_string_from_display_ensures::<wasmtime::Error>(&error, text),
            },
    {
        match read {
            Ok(fuel) => Event::FuelRead(fuel),
            Err(error) => Event::FuelUnreadable(error.to_string()),
        }
    }
}

/// The fuel that was spent of a budget, none if more is left than there was.
pub open spec fn fuel_spent(budget: u64, remaining: u64) -> u64 {
    if remaining <= budget {
        (budget - remaining) as u64
    } else {
        0
    }
}

/// Whether a response that took so long came in time.
pub open spec fn in_time(config: RuntimeConfig, elapsed: Duration) -> bool {
    runtime::nanos(elapsed) <= runtime::nanos(config.execution_timeout)
}

/// The end of an invocation that failed.
pub open spec fn failed(error: RuntimeErrorView) -> (StageView, Option<ActionView>) {
    (StageView::Finished, Some(ActionView::Finish(Err(error))))
}

/// What follows from an event. One that does not tell what the invocation is waiting for changes
/// nothing.
pub open spec fn next(config: RuntimeConfig, stage: StageView, event: EventView) -> (
    StageView,
    Option<ActionView>,
) {
    match (stage, event) {
        (StageView::Opening(request), EventView::Opened) => (
            StageView::WiringWasi(request),
            Some(ActionView::WireWasi),
        ),
        (StageView::WiringWasi(request), EventView::WasiWired) => (
            StageView::WiringHost(request),
            Some(ActionView::WireHost),
        ),
        (StageView::WiringWasi(_), EventView::WasiImportsFailed(e)) => failed(
            RuntimeErrorView::WasiImports(e),
        ),
        (StageView::WiringHost(request), EventView::HostWired) => (
            StageView::Instantiating(request),
            Some(ActionView::Instantiate),
        ),
        (StageView::WiringHost(_), EventView::HostImportsFailed(e)) => failed(
            RuntimeErrorView::HostImports(e),
        ),
        (StageView::Instantiating(request), EventView::Instantiated) => (
            StageView::Calling,
            Some(ActionView::Call(request, config.execution_timeout)),
        ),
        (StageView::Instantiating(_), EventView::InstantiationFailed(e)) => failed(
            RuntimeErrorView::Instantiate(e),
        ),
        (StageView::Calling, EventView::Responded(response, elapsed)) => if in_time(
            config,
            elapsed,
        ) {
            (StageView::Metering(response), Some(ActionView::ReadFuel))
        } else {
            failed(RuntimeErrorView::TimedOut(config.execution_timeout))
        },
        (StageView::Calling, EventView::TimedOut) => failed(
            RuntimeErrorView::TimedOut(config.execution_timeout),
        ),
        (StageView::Calling, EventView::Trapped(e)) => failed(RuntimeErrorView::Trapped(e)),
        (StageView::Metering(response), EventView::FuelRead(fuel)) => (
            StageView::Finished,
            Some(
                ActionView::Finish(
                    Ok(
                        CompletedView {
                            response,
                            fuel_remaining: fuel,
                            fuel_consumed: fuel_spent(config.fuel_per_request, fuel),
                        },
                    ),
                ),
            ),
        ),
        (StageView::Metering(_), EventView::FuelUnreadable(e)) => failed(RuntimeErrorView::Fuel(e)),
        _ => (stage, None),
    }
}

/// An action that may be none, as plain values.
pub open spec fn action_view(action: Option<Action>) -> Option<ActionView> {
    match action {
        Some(action) => Some(action@),
        None => None,
    }
}

fn fail(error: RuntimeError) -> (r: (Stage, Option<Action>))
    ensures
        (r.0@, action_view(r.1)) == failed(error@),
{
    (Stage::Finished, Some(Action::Finish(Err(error))))
}

impl Isolate {
    /// Begins an invocation: the first thing to do is to make a store, which `new_store` does.
    pub fn begin(&self, request: model::HttpRequest) -> (r: (Stage, Action))
        ensures
            r.0@ == StageView::Opening(request@),
            r.1@ == ActionView::OpenStore,
    {
        (Stage::Opening(request), Action::OpenStore)
    }

    /// Goes on with an invocation after an event.
    pub fn step(&self, stage: Stage, event: Event) -> (r: (Stage, Option<Action>))
        ensures
            (r.0@, action_view(r.1)) == next(self.config_view(), stage@, event@),
            stage matches Stage::Instantiating(request) ==> event matches Event::Instantiated ==> {
                &&& r.1 matches Some(Action::Call(lowered, limit))
                &&& lowered.method@ == request.method@
                &&& lowered.uri@ == request.uri@
                &&& lowered.headers@.len() == request.headers@.len()
                &&& lowered.body@ == model::bytes_held(request.body)
                &&& limit == self.config_view().execution_timeout
            },
            stage matches Stage::Calling ==> event matches Event::Responded(response, elapsed)
                ==> runtime::nanos(elapsed) <= runtime::nanos(self.config_view().execution_timeout)
                ==> {
                &&& r.0 matches Stage::Metering(lifted)
                &&& lifted.status == response.status
                &&& lifted.headers@.len() == response.headers@.len()
                &&& model::bytes_held(lifted.body) == response.body@
                &&& r.1 matches Some(Action::ReadFuel)
            },
            stage matches Stage::Metering(response) ==> event matches Event::FuelRead(fuel) ==> {
                &&& r.1 matches Some(Action::Finish(Ok(completed)))
                &&& completed.response == response
                &&& completed.fuel_remaining == fuel
            },
    {
        match (stage, event) {
            (Stage::Opening(request), Event::Opened) => (
                Stage::WiringWasi(request),
                Some(Action::WireWasi),
            ),
            (Stage::WiringWasi(request), Event::WasiWired) => (
                Stage::WiringHost(request),
                Some(Action::WireHost),
            ),
            (Stage::WiringWasi(_), Event::WasiImportsFailed(e)) => fail(
                RuntimeError::WasiImports(e),
            ),
            (Stage::WiringHost(request), Event::HostWired) => (
                Stage::Instantiating(request),
                Some(Action::Instantiate),
            ),
            (Stage::WiringHost(_), Event::HostImportsFailed(e)) => fail(
                RuntimeError::HostImports(e),
            ),
            (Stage::Instantiating(request), Event::Instantiated) => (
                Stage::Calling,
                Some(
                    Action::Call(
                        http_types::HttpRequest::from(request),
                        self.config().execution_timeout,
                    ),
                ),
            ),
            (Stage::Instantiating(_), Event::InstantiationFailed(e)) => fail(
                RuntimeError::Instantiate(e),
            ),
            (Stage::Calling, Event::Responded(response, elapsed)) => {
                if elapsed.as_nanos() <= self.config().execution_timeout.as_nanos() {
                    (
                        Stage::Metering(model::HttpResponse::from(response)),
                        Some(Action::ReadFuel),
                    )
                } else {
                    fail(RuntimeError::TimedOut(self.config().execution_timeout))
                }
            },
            (Stage::Calling, Event::TimedOut) => fail(
                RuntimeError::TimedOut(self.config().execution_timeout),
            ),
            (Stage::Calling, Event::Trapped(e)) => fail(RuntimeError::Trapped(e)),
            (Stage::Metering(response), Event::FuelRead(fuel)) => (
                Stage::Finished,
                Some(
                    Action::Finish(
                        Ok(
                            Completed {
                                response,
                                fuel_remaining: fuel,
                                fuel_consumed: self.config().fuel_per_request.saturating_sub(fuel),
                            },
                        ),
                    ),
                ),
            ),
            (Stage::Metering(_), Event::FuelUnreadable(e)) => fail(RuntimeError::Fuel(e)),
            (stage, _) => (stage, None),
        }
    }
}

/// An invocation of `request` after a series of events: what it waits for, and every action that
/// it called for, in order.
pub open spec fn run(config: RuntimeConfig, request: RequestView, events: Seq<EventView>) -> (
    StageView,
    Seq<ActionView>,
)
    decreases events.len(),
{
    if events.len() == 0 {
        (StageView::Opening(request), seq![ActionView::OpenStore])
    } else {
        let (stage, actions) = run(config, request, events.drop_last());
        match next(config, stage, events.last()) {
            (stage, Some(action)) => (stage, actions.push(action)),
            (stage, None) => (stage, actions),
        }
    }
}

/// The actions of an invocation up to the reading of the fuel.
pub open spec fn plan(config: RuntimeConfig, request: RequestView) -> Seq<ActionView> {
    seq![
        ActionView::OpenStore,
        ActionView::WireWasi,
        ActionView::WireHost,
        ActionView::Instantiate,
        ActionView::Call(request, config.execution_timeout),
        ActionView::ReadFuel,
    ]
}

/// How far an invocation that is not over has got: the number of its actions.
pub open spec fn progress(stage: StageView) -> int {
    match stage {
        StageView::Opening(_) => 1,
        StageView::WiringWasi(_) => 2,
        StageView::WiringHost(_) => 3,
        StageView::Instantiating(_) => 4,
        StageView::Calling => 5,
        StageView::Metering(_) => 6,
        StageView::Finished => 0,
    }
}

/// Whether this response was among the events, and came in time.
pub open spec fn responded_in_time(
    config: RuntimeConfig,
    response: ResponseView,
    events: Seq<EventView>,
) -> bool {
    exists|elapsed: Duration|
        #[trigger] events.contains(EventView::Responded(response, elapsed)) && in_time(
            config,
            elapsed,
        )
}

/// Whether a response that came too late was among the events.
pub open spec fn responded_late(config: RuntimeConfig, events: Seq<EventView>) -> bool {
    exists|response: ResponseView, elapsed: Duration|
        #[trigger] events.contains(EventView::Responded(response, elapsed)) && !in_time(
            config,
            elapsed,
        )
}

/// Whether `outcome` is what an invocation ends with after its first `done` actions, given the
/// events that there were.
pub open spec fn fitting_outcome(
    config: RuntimeConfig,
    done: int,
    outcome: Result<CompletedView, RuntimeErrorView>,
    events: Seq<EventView>,
) -> bool {
    match outcome {
        Ok(completed) => {
            &&& done == 6
            &&& responded_in_time(config, completed.response, events)
            &&& events.contains(EventView::FuelRead(completed.fuel_remaining))
            &&& completed.fuel_consumed == fuel_spent(
                config.fuel_per_request,
                completed.fuel_remaining,
            )
        },
        Err(RuntimeErrorView::WasiImports(e)) => done == 2 && events.contains(
            EventView::WasiImportsFailed(e),
        ),
        Err(RuntimeErrorView::HostImports(e)) => done == 3 && events.contains(
            EventView::HostImportsFailed(e),
        ),
        Err(RuntimeErrorView::Instantiate(e)) => done == 4 && events.contains(
            EventView::InstantiationFailed(e),
        ),
        Err(RuntimeErrorView::TimedOut(limit)) => {
            &&& done == 5
            &&& limit == config.execution_timeout
            &&& events.contains(EventView::TimedOut) || responded_late(config, events)
        },
        Err(RuntimeErrorView::Trapped(e)) => done == 5 && events.contains(EventView::Trapped(e)),
        Err(RuntimeErrorView::Fuel(e)) => done == 6 && events.contains(
            EventView::FuelUnreadable(e),
        ),
        Err(_) => false,
    }
}

/// Whatever events come, and in whatever order, an invocation keeps to its plan: it makes one
/// store, wires the WASI imports before the host's own, instantiates at most once, calls the plugin
/// at most once, with the request as it came and within the time limit, and reads the fuel only
/// after a response. It ends at most once, with
/// a failure that the plan had got to, or with the very response that the plugin gave, if that
/// came in time.
pub proof fn law_invocation_keeps_to_plan(
    config: RuntimeConfig,
    request: RequestView,
    events: Seq<EventView>,
)
    ensures
        ({
            let (stage, actions) = run(config, request, events);
            if stage == StageView::Finished {
                exists|done: int, outcome: Result<CompletedView, RuntimeErrorView>|
                    {
                        &&& 2 <= done <= 6
                        &&& actions == #[trigger] plan(config, request).take(done).push(
                            ActionView::Finish(outcome),
                        )
                        &&& fitting_outcome(config, done, outcome, events)
                    }
            } else {
                actions == plan(config, request).take(progress(stage))
            }
        }),
        match run(config, request, events).0 {
            StageView::Opening(r) => r == request,
            StageView::WiringWasi(r) => r == request,
            StageView::WiringHost(r) => r == request,
            StageView::Instantiating(r) => r == request,
            StageView::Metering(response) => responded_in_time(config, response, events),
            _ => true,
        },
    decreases events.len(),
{
    let whole = plan(config, request);
    if events.len() == 0 {
        assert(whole.take(1) =~= seq![ActionView::OpenStore]);
    } else {
        let before = events.drop_last();
        let last = events.last();
        law_invocation_keeps_to_plan(config, request, before);
        let (stage, actions) = run(config, request, before);
        assert forall|e: EventView| before.contains(e) implies events.contains(e) by {
            let i = choose|i: int| 0 <= i < before.len() && before[i] == e;
            assert(events[i] == e);
        }
        assert(events[events.len() - 1] == last);
        assert(events.contains(last));
        if let EventView::Responded(response, elapsed) = last {
            assert(events.contains(EventView::Responded(response, elapsed)));
        }
        let (next_stage, next_actions) = run(config, request, events);
        if stage == StageView::Finished {
            let (done, outcome) = choose|
                done: int,
                outcome: Result<CompletedView, RuntimeErrorView>,
            |
                {
                    &&& 2 <= done <= 6
                    &&& actions == #[trigger] whole.take(done).push(ActionView::Finish(outcome))
                    &&& fitting_outcome(config, done, outcome, before)
                };
            assert(next_actions == whole.take(done).push(ActionView::Finish(outcome)));
            assert(fitting_outcome(config, done, outcome, events));
        } else {
            let done = progress(stage);
            assert(actions == whole.take(done));
            match next(config, stage, last).1 {
                Some(ActionView::Finish(outcome)) => {
                    assert(next_actions == whole.take(done).push(ActionView::Finish(outcome)));
                    assert(fitting_outcome(config, done, outcome, events));
                },
                Some(action) => {
                    assert(whole.take(done + 1) =~= whole.take(done).push(action));
                },
                None => {},
            }
        }
    }
}

/// Whether an event tells what the invocation is waiting for.
pub open spec fn answers(stage: StageView, event: EventView) -> bool {
    match stage {
        StageView::Opening(_) => event is Opened,
        StageView::WiringWasi(_) => event is WasiWired || event is WasiImportsFailed,
        StageView::WiringHost(_) => event is HostWired || event is HostImportsFailed,
        StageView::Instantiating(_) => event is Instantiated || event is InstantiationFailed,
        StageView::Calling => event is Responded || event is TimedOut || event is Trapped,
        StageView::Metering(_) => event is FuelRead || event is FuelUnreadable,
        StageView::Finished => false,
    }
}

/// How many answers an invocation can still take.
pub open spec fn answers_left(stage: StageView) -> nat {
    match stage {
        StageView::Opening(_) => 6,
        StageView::WiringWasi(_) => 5,
        StageView::WiringHost(_) => 4,
        StageView::Instantiating(_) => 3,
        StageView::Calling => 2,
        StageView::Metering(_) => 1,
        StageView::Finished => 0,
    }
}

/// Every answer brings an invocation nearer to its end and tells the driver what to do, and an
/// event that is no answer does neither. So an invocation that is always answered ends, and the
/// action that it ends with is to hand out its outcome.
pub proof fn law_answers_lead_to_the_end(
    config: RuntimeConfig,
    stage: StageView,
    event: EventView,
)
    ensures
        answers(stage, event) ==> {
            &&& answers_left(next(config, stage, event).0) < answers_left(stage)
            &&& next(config, stage, event).1 is Some
        },
        !answers(stage, event) ==> next(config, stage, event) == (stage, None::<ActionView>),
        answers(stage, event) ==> (next(config, stage, event).0 is Finished <==> next(
            config,
            stage,
            event,
        ).1->0 is Finish),
{
}

/// Once it is over, an invocation calls for nothing more.
pub proof fn law_finished_stays_finished(config: RuntimeConfig, event: EventView)
    ensures
        next(config, StageView::Finished, event) == (StageView::Finished, None::<ActionView>),
{
}

/// A response that comes within the time limit, however long it took of it, is taken, and the fuel is
/// read next.
pub proof fn law_response_in_time_is_taken(
    config: RuntimeConfig,
    response: ResponseView,
    elapsed: Duration,
)
    requires
        runtime::nanos(elapsed) <= runtime::nanos(config.execution_timeout),
    ensures
        next(config, StageView::Calling, EventView::Responded(response, elapsed)) == (
            StageView::Metering(response),
            Some(ActionView::ReadFuel),
        ),
{
}

/// The steps before the call follow one another in this order, each on the success of the one before:
/// the store, the WASI imports, the host's own imports, the instance, and the call, with the request
/// as it came and the time limit of the configuration.
pub proof fn law_steps_follow_one_another(config: RuntimeConfig, request: RequestView)
    ensures
        next(config, StageView::Opening(request), EventView::Opened) == (
            StageView::WiringWasi(request),
            Some(ActionView::WireWasi),
        ),
        next(config, StageView::WiringWasi(request), EventView::WasiWired) == (
            StageView::WiringHost(request),
            Some(ActionView::WireHost),
        ),
        next(config, StageView::WiringHost(request), EventView::HostWired) == (
            StageView::Instantiating(request),
            Some(ActionView::Instantiate),
        ),
        next(config, StageView::Instantiating(request), EventView::Instantiated) == (
            StageView::Calling,
            Some(ActionView::Call(request, config.execution_timeout)),
        ),
{
}

/// Every failure ends the invocation with just that failure and what was said of it, whatever the
/// configuration, the request and the response are.
pub proof fn law_every_failure_ends_with_itself(
    config: RuntimeConfig,
    request: RequestView,
    response: ResponseView,
    reason: Seq<char>,
)
    ensures
        next(config, StageView::WiringWasi(request), EventView::WasiImportsFailed(reason)) == (
            StageView::Finished,
            Some(ActionView::Finish(Err(RuntimeErrorView::WasiImports(reason)))),
        ),
        next(config, StageView::WiringHost(request), EventView::HostImportsFailed(reason)) == (
            StageView::Finished,
            Some(ActionView::Finish(Err(RuntimeErrorView::HostImports(reason)))),
        ),
        next(config, StageView::Instantiating(request), EventView::InstantiationFailed(reason)) == (
            StageView::Finished,
            Some(ActionView::Finish(Err(RuntimeErrorView::Instantiate(reason)))),
        ),
        next(config, StageView::Calling, EventView::TimedOut) == (
            StageView::Finished,
            Some(ActionView::Finish(Err(RuntimeErrorView::TimedOut(config.execution_timeout)))),
        ),
        next(config, StageView::Calling, EventView::Trapped(reason)) == (
            StageView::Finished,
            Some(ActionView::Finish(Err(RuntimeErrorView::Trapped(reason)))),
        ),
        next(config, StageView::Metering(response), EventView::FuelUnreadable(reason)) == (
            StageView::Finished,
            Some(ActionView::Finish(Err(RuntimeErrorView::Fuel(reason)))),
        ),
{
}

/// Once the fuel is read, whatever is left of it, the response is handed out as it came, with the fuel
/// that is left and the fuel that was spent of the budget, which is none if more is left than there
/// was.
pub proof fn law_metered_response_is_handed_out(
    config: RuntimeConfig,
    response: ResponseView,
    fuel: u64,
)
    ensures
        next(config, StageView::Metering(response), EventView::FuelRead(fuel)).0 is Finished,
        next(config, StageView::Metering(response), EventView::FuelRead(fuel)).1 matches Some(
            ActionView::Finish(Ok(completed)),
        ) && {
            &&& completed.response == response
            &&& completed.fuel_remaining == fuel
            &&& fuel <= config.fuel_per_request ==> completed.fuel_consumed + fuel
                == config.fuel_per_request
            &&& fuel > config.fuel_per_request ==> completed.fuel_consumed == 0
        },
{
}

/// An event that does not tell what the invocation is waiting for changes nothing and calls for
/// nothing.
pub proof fn law_event_out_of_turn_changes_nothing(
    config: RuntimeConfig,
    stage: StageView,
    event: EventView,
)
    requires
        match stage {
            StageView::Opening(_) => !(event is Opened),
            StageView::WiringWasi(_) => !(event is WasiWired || event is WasiImportsFailed),
            StageView::WiringHost(_) => !(event is HostWired || event is HostImportsFailed),
            StageView::Instantiating(_) => !(event is Instantiated || event is InstantiationFailed),
            StageView::Calling => !(event is Responded || event is TimedOut || event is Trapped),
            StageView::Metering(_) => !(event is FuelRead || event is FuelUnreadable),
            StageView::Finished => true,
        },
    ensures
        next(config, stage, event) == (stage, None::<ActionView>),
{
}

/// A plugin that can be wired, instantiated and called, that responds within the time limit, and
/// whose fuel can be read, has its response handed out unchanged, after one call with the request as
/// it came.
pub proof fn law_response_comes_back(
    config: RuntimeConfig,
    request: RequestView,
    response: ResponseView,
    elapsed: Duration,
    fuel: u64,
)
    requires
        runtime::nanos(elapsed) <= runtime::nanos(config.execution_timeout),
    ensures
        ({
            let (stage, actions) = run(
                config,
                request,
                seq![
                    EventView::Opened,
                    EventView::WasiWired,
                    EventView::HostWired,
                    EventView::Instantiated,
                    EventView::Responded(response, elapsed),
                    EventView::FuelRead(fuel),
                ],
            );
            &&& stage is Finished
            &&& actions.len() == 7
            &&& actions.take(6) == seq![
                ActionView::OpenStore,
                ActionView::WireWasi,
                ActionView::WireHost,
                ActionView::Instantiate,
                ActionView::Call(request, config.execution_timeout),
                ActionView::ReadFuel,
            ]
            &&& actions[6] matches ActionView::Finish(Ok(completed)) && {
                &&& completed.response == response
                &&& completed.fuel_remaining == fuel
                &&& fuel <= config.fuel_per_request ==> completed.fuel_consumed + fuel
                    == config.fuel_per_request
                &&& fuel > config.fuel_per_request ==> completed.fuel_consumed == 0
            }
        }),
{
    let e0 = Seq::<EventView>::empty();
    let e1 = e0.push(EventView::Opened);
    let e2 = e1.push(EventView::WasiWired);
    let e3 = e2.push(EventView::HostWired);
    let e4 = e3.push(EventView::Instantiated);
    let e5 = e4.push(EventView::Responded(response, elapsed));
    let e6 = e5.push(EventView::FuelRead(fuel));
    assert(e1.drop_last() =~= e0);
    assert(e2.drop_last() =~= e1);
    assert(e3.drop_last() =~= e2);
    assert(e4.drop_last() =~= e3);
    assert(e5.drop_last() =~= e4);
    assert(e6.drop_last() =~= e5);
    assert(run(config, request, e0).0 == StageView::Opening(request));
    assert(run(config, request, e1).0 == StageView::WiringWasi(request));
    assert(run(config, request, e2).0 == StageView::WiringHost(request));
    assert(run(config, request, e3).0 == StageView::Instantiating(request));
    assert(run(config, request, e4).0 == StageView::Calling);
    assert(run(config, request, e5).0 == StageView::Metering(response));
    assert(e6 =~= seq![
        EventView::Opened,
        EventView::WasiWired,
        EventView::HostWired,
        EventView::Instantiated,
        EventView::Responded(response, elapsed),
        EventView::FuelRead(fuel),
    ]);
    assert(run(config, request, e6).1.take(6) =~= seq![
        ActionView::OpenStore,
        ActionView::WireWasi,
        ActionView::WireHost,
        ActionView::Instantiate,
        ActionView::Call(request, config.execution_timeout),
        ActionView::ReadFuel,
    ]);
}

/// A response that comes after the time limit is not handed out, whatever it is: the invocation ends
/// with a timeout that names the limit, as if the plugin had been stopped.
pub proof fn law_late_response_is_a_timeout(
    config: RuntimeConfig,
    response: ResponseView,
    elapsed: Duration,
)
    requires
        runtime::nanos(elapsed) > runtime::nanos(config.execution_timeout),
    ensures
        next(config, StageView::Calling, EventView::Responded(response, elapsed)) == (
            StageView::Finished,
            Some(ActionView::Finish(Err(RuntimeErrorView::TimedOut(config.execution_timeout)))),
        ),
        next(config, StageView::Calling, EventView::Responded(response, elapsed)) == next(
            config,
            StageView::Calling,
            EventView::TimedOut,
        ),
{
}

/// A plugin that cannot be instantiated, for instance because it needs more than the limits of the
/// store, is never called: the invocation ends with a failure to instantiate, and whatever is
/// reported after that changes nothing.
pub proof fn law_failed_instantiation_is_contained(
    config: RuntimeConfig,
    request: RequestView,
    reason: Seq<char>,
    later: Seq<EventView>,
)
    ensures
        run(
            config,
            request,
            seq![
                EventView::Opened,
                EventView::WasiWired,
                EventView::HostWired,
                EventView::InstantiationFailed(reason),
            ] + later,
        ) == (
            StageView::Finished,
            seq![
                ActionView::OpenStore,
                ActionView::WireWasi,
                ActionView::WireHost,
                ActionView::Instantiate,
                ActionView::Finish(Err(RuntimeErrorView::Instantiate(reason))),
            ],
        ),
        RuntimeErrorView::Instantiate(reason).message() == "failed to instantiate isolate: "@
            + reason,
    decreases later.len(),
{
    let e0 = Seq::<EventView>::empty();
    let e1 = e0.push(EventView::Opened);
    let e2 = e1.push(EventView::WasiWired);
    let e3 = e2.push(EventView::HostWired);
    let e4 = e3.push(EventView::InstantiationFailed(reason));
    let start = seq![
        EventView::Opened,
        EventView::WasiWired,
        EventView::HostWired,
        EventView::InstantiationFailed(reason),
    ];
    assert(start =~= e4);
    if later.len() == 0 {
        assert(e1.drop_last() =~= e0);
        assert(e2.drop_last() =~= e1);
        assert(e3.drop_last() =~= e2);
        assert(e4.drop_last() =~= e3);
        assert(start + later =~= e4);
        assert(run(config, request, e0).0 == StageView::Opening(request));
        assert(run(config, request, e1).0 == StageView::WiringWasi(request));
        assert(run(config, request, e2).0 == StageView::WiringHost(request));
        assert(run(config, request, e3).0 == StageView::Instantiating(request));
        assert(run(config, request, e4).1 =~= seq![
            ActionView::OpenStore,
            ActionView::WireWasi,
            ActionView::WireHost,
            ActionView::Instantiate,
            ActionView::Finish(Err(RuntimeErrorView::Instantiate(reason))),
        ]);
    } else {
        law_failed_instantiation_is_contained(config, request, reason, later.drop_last());
        assert((start + later).drop_last() =~= start + later.drop_last());
    }
}

/// What an invocation starts with: the engine, the bytes of the plugin, and what the store holds.
pub struct Start<Data> {
    pub engine: HostEngine,
    pub source: Seq<u8>,
    pub contents: StoreContents<Data>,
}

/// What an invocation of this isolate in this store starts with.
pub open spec fn start_of<Data: 'static>(isolate: Isolate, store: HostStore<Data>) -> Start<Data> {
    Start {
        engine: store.engine_view(),
        source: isolate.program_view().source(),
        contents: store.contents()->0,
    }
}

/// Whether these events may be reported in turn, if `world` says what may come of the last action
/// of an invocation, given what it started with and every action that it called for.
pub open spec fn may_report<Data>(
    config: RuntimeConfig,
    request: RequestView,
    start: Start<Data>,
    world: spec_fn(Start<Data>, Seq<ActionView>, EventView) -> bool,
    events: Seq<EventView>,
) -> bool
    decreases events.len(),
{
    events.len() == 0 || {
        &&& may_report(config, request, start, world, events.drop_last())
        &&& world(start, run(config, request, events.drop_last()).1, events.last())
    }
}

/// Whether an invocation of `request` on this isolate may be reported these events, in a store that
/// is opened for it. What it then waits for and called for is `run` of those events.
pub open spec fn may_see<Data: 'static, Make>(
    isolate: Isolate,
    make: Make,
    world: spec_fn(Start<Data>, Seq<ActionView>, EventView) -> bool,
    request: RequestView,
    events: Seq<EventView>,
) -> bool where Make: FnOnce(StoreLimits, BareWasi, BareTable) -> Data {
    exists|store: HostStore<Data>|
        #[trigger] isolate.may_open(make, store) && may_report(
            isolate.config_view(),
            request,
            start_of(isolate, store),
            world,
            events,
        )
}

/// Earlier invocations leave no trace: whatever an invocation may come to on an isolate that has
/// been used, a first one may come to on a newly spawned isolate of the same plugin, and the other
/// way round, whatever became of the invocations before it, on its isolate and on others. So where
/// nothing is left to chance, and a first invocation can come to one thing only after so many
/// events, a later one comes to just that.
///
/// `world` is any account of the work outside: what may come of an action, given what the
/// invocation started with and what it called for.
pub proof fn law_earlier_invocations_leave_no_trace<Data: 'static, Make>(
    runtime: Runtime,
    wasm_bytes: Seq<u8>,
    fresh: Isolate,
    used: Isolate,
    make: Make,
    world: spec_fn(Start<Data>, Seq<ActionView>, EventView) -> bool,
    request: RequestView,
    events: Seq<EventView>,
) where Make: FnOnce(StoreLimits, BareWasi, BareTable) -> Data
    requires
        runtime.may_spawn(wasm_bytes, Ok(fresh)),
        runtime.may_spawn(wasm_bytes, Ok(used)),
    ensures
        may_see(used, make, world, request, events) == may_see(
            fresh,
            make,
            world,
            request,
            events,
        ),
        run(used.config_view(), request, events) == run(fresh.config_view(), request, events),
        forall|first: Seq<EventView>|
            {
                &&& may_see(used, make, world, request, events)
                &&& #[trigger] may_see(fresh, make, world, request, first)
                &&& first.len() == events.len()
                &&& forall|other: Seq<EventView>|
                    #[trigger] may_see(fresh, make, world, request, other) && other.len()
                        == first.len() ==> run(fresh.config_view(), request, other) == run(
                        fresh.config_view(),
                        request,
                        first,
                    )
            } ==> run(used.config_view(), request, events) == run(
                fresh.config_view(),
                request,
                first,
            ),
{
    assert(fresh.config_view() == used.config_view());
    assert forall|limits: StoreLimits, wasi: BareWasi, table: BareTable|
        fresh.may_supply(limits, wasi, table) == used.may_supply(limits, wasi, table) by {}
    assert forall|store: HostStore<Data>| #[trigger]
        fresh.may_open(make, store) == used.may_open(make, store) by {
        if fresh.may_open(make, store) {
            assert(used.may_make(make, store.contents()->0.data));
        }
        if used.may_open(make, store) {
            assert(fresh.may_make(make, store.contents()->0.data));
        }
    }
    if may_see(used, make, world, request, events) {
        let store = choose|store: HostStore<Data>|
            #[trigger] used.may_open(make, store) && may_report(
                used.config_view(),
                request,
                start_of(used, store),
                world,
                events,
            );
        assert(fresh.may_open(make, store));
    }
    if may_see(fresh, make, world, request, events) {
        let store = choose|store: HostStore<Data>|
            #[trigger] fresh.may_open(make, store) && may_report(
                fresh.config_view(),
                request,
                start_of(fresh, store),
                world,
                events,
            );
        assert(used.may_open(make, store));
    }
}

/// A plugin never spends more fuel than its budget, and what it spent and what it left make up
/// the budget, unless more is left than there was.
pub proof fn law_fuel_adds_up(budget: u64, remaining: u64)
    ensures
        fuel_spent(budget, remaining) <= budget,
        remaining <= budget ==> fuel_spent(budget, remaining) + remaining == budget,
        remaining > budget ==> fuel_spent(budget, remaining) == 0,
{
}

/// An invocation begins by opening a store, and each event adds just what follows from it.
pub proof fn law_events_are_taken_one_by_one(
    config: RuntimeConfig,
    request: RequestView,
    events: Seq<EventView>,
    event: EventView,
)
    ensures
        run(config, request, Seq::empty()) == (
            StageView::Opening(request),
            seq![ActionView::OpenStore],
        ),
        run(config, request, events.push(event)).0 == next(
            config,
            run(config, request, events).0,
            event,
        ).0,
        run(config, request, events.push(event)).1 == match next(
            config,
            run(config, request, events).0,
            event,
        ).1 {
            Some(action) => run(config, request, events).1.push(action),
            None => run(config, request, events).1,
        },
{
    assert(events.push(event).drop_last() =~= events);
}

/// A stage is seen as what it is, with the request or the response that it holds.
pub proof fn law_stages_are_seen_whole(stage: Stage)
    ensures
        match stage {
            Stage::Opening(request) => stage@ == StageView::Opening(request@),
            Stage::WiringWasi(request) => stage@ == StageView::WiringWasi(request@),
            Stage::WiringHost(request) => stage@ == StageView::WiringHost(request@),
            Stage::Instantiating(request) => stage@ == StageView::Instantiating(request@),
            Stage::Calling => stage@ == StageView::Calling,
            Stage::Metering(response) => stage@ == StageView::Metering(response@),
            Stage::Finished => stage@ == StageView::Finished,
        },
{
}

/// Actions and events are seen as what they are, with all that they carry.
pub proof fn law_actions_and_events_are_seen_whole(action: Action, event: Event)
    ensures
        action is OpenStore <==> action@ is OpenStore,
        action is WireWasi <==> action@ is WireWasi,
        action is WireHost <==> action@ is WireHost,
        action is Instantiate <==> action@ is Instantiate,
        action is Call <==> action@ is Call,
        action is ReadFuel <==> action@ is ReadFuel,
        action is Finish <==> action@ is Finish,
        event is Opened <==> event@ is Opened,
        event is WasiWired <==> event@ is WasiWired,
        event is HostWired <==> event@ is HostWired,
        event is Instantiated <==> event@ is Instantiated,
        event is TimedOut <==> event@ is TimedOut,
        action matches Action::Call(request, limit) ==> action@ == ActionView::Call(
            request@,
            limit,
        ),
        action matches Action::Finish(Ok(completed)) ==> {
            &&& action@ matches ActionView::Finish(Ok(seen))
            &&& seen.response == completed.response@
            &&& seen.fuel_remaining == completed.fuel_remaining
            &&& seen.fuel_consumed == completed.fuel_consumed
        },
        action matches Action::Finish(Err(error)) ==> action@ == ActionView::Finish(Err(error@)),
        event matches Event::Responded(response, elapsed) ==> event@ == EventView::Responded(
            response@,
            elapsed,
        ),
        event matches Event::FuelRead(fuel) ==> event@ == EventView::FuelRead(fuel),
        event matches Event::WasiImportsFailed(e) ==> event@ == EventView::WasiImportsFailed(e@),
        event matches Event::HostImportsFailed(e) ==> event@ == EventView::HostImportsFailed(e@),
        event matches Event::InstantiationFailed(e) ==> event@ == EventView::InstantiationFailed(
            e@,
        ),
        event matches Event::Trapped(e) ==> event@ == EventView::Trapped(e@),
        event matches Event::FuelUnreadable(e) ==> event@ == EventView::FuelUnreadable(e@),
{
}

} // verus!
