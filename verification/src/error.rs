//! The ways in which starting the runtime, or one invocation of a plugin, can fail.
use std::time::Duration;
use vstd::prelude::*;
use vstd::string::*;

verus! {

/// The text that a `Duration` is shown as for debugging.
pub uninterp spec fn duration_text(d: Duration) -> Seq<char>;

/// Formats a duration with `{:?}`, that is by `<Duration as Debug>::fmt`. The text depends on the
/// duration alone; how it chooses a unit and rounds is not described here.
#[verifier::external_body]
fn format_duration(d: Duration) -> (s: String)
    ensures
        s@ == duration_text(d),
{
    format!("{:?}", d)
}

/// A failure as plain text. Every case but a timeout carries what the part that failed said.
pub enum RuntimeErrorView {
    Engine(Seq<char>),
    Compile(Seq<char>),
    WasiImports(Seq<char>),
    HostImports(Seq<char>),
    Instantiate(Seq<char>),
    TimedOut(Duration),
    Trapped(Seq<char>),
    Fuel(Seq<char>),
}

/// A failure. Every case but a timeout carries what the part that failed said.
#[derive(Debug)]
pub enum RuntimeError {
    /// The engine could not be built.
    Engine(String),
    /// The plugin is not a component, or could not be compiled.
    Compile(String),
    /// The WASI imports could not be offered to the plugin.
    WasiImports(String),
    /// The host's own imports could not be offered to the plugin.
    HostImports(String),
    /// The plugin could not be instantiated.
    Instantiate(String),
    /// The plugin ran longer than this.
    TimedOut(Duration),
    /// The plugin trapped, or ran out of fuel.
    Trapped(String),
    /// The fuel that is left could not be read.
    Fuel(String),
}

impl View for RuntimeError {
    type V = RuntimeErrorView;

    open spec fn view(&self) -> RuntimeErrorView {
        match self {
            RuntimeError::Engine(e) => RuntimeErrorView::Engine(e@),
            RuntimeError::Compile(e) => RuntimeErrorView::Compile(e@),
            RuntimeError::WasiImports(e) => RuntimeErrorView::WasiImports(e@),
            RuntimeError::HostImports(e) => RuntimeErrorView::HostImports(e@),
            RuntimeError::Instantiate(e) => RuntimeErrorView::Instantiate(e@),
            RuntimeError::TimedOut(limit) => RuntimeErrorView::TimedOut(*limit),
            RuntimeError::Trapped(e) => RuntimeErrorView::Trapped(e@),
            RuntimeError::Fuel(e) => RuntimeErrorView::Fuel(e@),
        }
    }
}

impl RuntimeErrorView {
    /// The message for the user.
    pub open spec fn message(self) -> Seq<char> {
        match self {
            RuntimeErrorView::Engine(e) => "failed to build wasmtime engine: "@ + e,
            RuntimeErrorView::Compile(e) => "failed to compile component for isolate: "@ + e,
            RuntimeErrorView::WasiImports(e) => "failed to wire WASI imports into linker: "@ + e,
            RuntimeErrorView::HostImports(e) => "failed to wire host imports into linker: "@ + e,
            RuntimeErrorView::Instantiate(e) => "failed to instantiate isolate: "@ + e,
            RuntimeErrorView::TimedOut(limit) => "guest execution exceeded "@ + duration_text(
                limit,
            ),
            RuntimeErrorView::Trapped(e) => "guest trapped while handling request: "@ + e,
            RuntimeErrorView::Fuel(e) => "failed to read remaining fuel after request: "@ + e,
        }
    }
}

/// `head` followed by `tail`.
fn join(head: &str, tail: &str) -> (s: String)
    ensures
        s@ == head@ + tail@,
{
    let mut s = head.to_owned();
    s.append(tail);
    s
}

impl RuntimeError {
    /// The message for the user.
    pub fn message(&self) -> (s: String)
        ensures
            s@ == self@.message(),
            match self {
                RuntimeError::Engine(e) => s@ == "failed to build wasmtime engine: "@ + e@,
                RuntimeError::Compile(e) => s@ == "failed to compile component for isolate: "@ + e@,
                RuntimeError::WasiImports(e) => s@ == "failed to wire WASI imports into linker: "@
                    + e@,
                RuntimeError::HostImports(e) => s@ == "failed to wire host imports into linker: "@
                    + e@,
                RuntimeError::Instantiate(e) => s@ == "failed to instantiate isolate: "@ + e@,
                RuntimeError::TimedOut(limit) => s@ == "guest execution exceeded "@
                    + duration_text(*limit),
                RuntimeError::Trapped(e) => s@ == "guest trapped while handling request: "@ + e@,
                RuntimeError::Fuel(e) => s@ == "failed to read remaining fuel after request: "@
                    + e@,
            },
    {
        match self {
            RuntimeError::Engine(e) => join("failed to build wasmtime engine: ", e.as_str()),
            RuntimeError::Compile(e) => join(
                "failed to compile component for isolate: ",
                e.as_str(),
            ),
            RuntimeError::WasiImports(e) => join(
                "failed to wire WASI imports into linker: ",
                e.as_str(),
            ),
            RuntimeError::HostImports(e) => join(
                "failed to wire host imports into linker: ",
                e.as_str(),
            ),
            RuntimeError::Instantiate(e) => join("failed to instantiate isolate: ", e.as_str()),
            RuntimeError::TimedOut(limit) => join(
                "guest execution exceeded ",
                format_duration(*limit).as_str(),
            ),
            RuntimeError::Trapped(e) => join("guest trapped while handling request: ", e.as_str()),
            RuntimeError::Fuel(e) => join(
                "failed to read remaining fuel after request: ",
                e.as_str(),
            ),
        }
    }
}

/// Every message says which part failed, and then, word for word, what that part said or how long
/// the plugin was allowed to run.
pub proof fn law_message_says_what_failed(reason: Seq<char>, limit: Duration)
    ensures
        RuntimeErrorView::Engine(reason).message() == "failed to build wasmtime engine: "@ + reason,
        RuntimeErrorView::Compile(reason).message() == "failed to compile component for isolate: "@
            + reason,
        RuntimeErrorView::WasiImports(reason).message()
            == "failed to wire WASI imports into linker: "@ + reason,
        RuntimeErrorView::HostImports(reason).message()
            == "failed to wire host imports into linker: "@ + reason,
        RuntimeErrorView::Instantiate(reason).message() == "failed to instantiate isolate: "@
            + reason,
        RuntimeErrorView::TimedOut(limit).message() == "guest execution exceeded "@
            + duration_text(limit),
        RuntimeErrorView::Trapped(reason).message() == "guest trapped while handling request: "@
            + reason,
        RuntimeErrorView::Fuel(reason).message()
            == "failed to read remaining fuel after request: "@ + reason,
{
}

/// A failure is seen as the failure of the part that failed, with what it said.
pub proof fn law_failure_is_seen_as_it_is(error: RuntimeError)
    ensures
        error matches RuntimeError::Engine(e) ==> error@ == RuntimeErrorView::Engine(e@),
        error matches RuntimeError::Compile(e) ==> error@ == RuntimeErrorView::Compile(e@),
        error matches RuntimeError::WasiImports(e) ==> error@ == RuntimeErrorView::WasiImports(e@),
        error matches RuntimeError::HostImports(e) ==> error@ == RuntimeErrorView::HostImports(e@),
        error matches RuntimeError::Instantiate(e) ==> error@ == RuntimeErrorView::Instantiate(e@),
        error matches RuntimeError::TimedOut(d) ==> error@ == RuntimeErrorView::TimedOut(d),
        error matches RuntimeError::Trapped(e) ==> error@ == RuntimeErrorView::Trapped(e@),
        error matches RuntimeError::Fuel(e) ==> error@ == RuntimeErrorView::Fuel(e@),
{
}

} // verus!
