//! The one host interface that a plugin may call: writing a log line.
use vstd::prelude::*;

verus! {

/// The level at which a plugin writes a line.
#[derive(Clone, Copy, Debug, PartialEq, Eq, Structural)]
pub enum LogLevel {
    Trace,
    Debug,
    Info,
    Warn,
    Error,
}

/// The level at which the host passes a line on.
#[derive(Clone, Copy, Debug, PartialEq, Eq, Structural)]
pub enum Severity {
    Debug,
    Info,
    Warn,
    Error,
}

impl LogLevel {
    /// How grave a plugin says a line is, from 0 up.
    pub open spec fn rank(self) -> int {
        match self {
            LogLevel::Trace => 0,
            LogLevel::Debug => 1,
            LogLevel::Info => 2,
            LogLevel::Warn => 3,
            LogLevel::Error => 4,
        }
    }

    /// The host's level for a plugin's level. The host keeps no trace level of its own.
    pub open spec fn severity_spec(self) -> Severity {
        match self {
            LogLevel::Trace => Severity::Debug,
            LogLevel::Debug => Severity::Debug,
            LogLevel::Info => Severity::Info,
            LogLevel::Warn => Severity::Warn,
            LogLevel::Error => Severity::Error,
        }
    }

    /// The host's level for a plugin's level.
    pub fn severity(self) -> (s: Severity)
        ensures
            s == self.severity_spec(),
    {
        match self {
            LogLevel::Trace => Severity::Debug,
            LogLevel::Debug => Severity::Debug,
            LogLevel::Info => Severity::Info,
            LogLevel::Warn => Severity::Warn,
            LogLevel::Error => Severity::Error,
        }
    }
}

impl Severity {
    /// How grave the host says a line is, on the scale of `LogLevel::rank`.
    pub open spec fn rank(self) -> int {
        match self {
            Severity::Debug => 1,
            Severity::Info => 2,
            Severity::Warn => 3,
            Severity::Error => 4,
        }
    }
}

/// The host passes no line on as less grave than the plugin wrote it, and never swaps the order
/// of two levels; only the two lowest levels become one.
pub proof fn law_severity_keeps_order(a: LogLevel, b: LogLevel)
    ensures
        a.rank() <= a.severity_spec().rank(),
        a.rank() <= b.rank() ==> a.severity_spec().rank() <= b.severity_spec().rank(),
        a.severity_spec() == b.severity_spec() ==> a == b || (a.rank() <= 1 && b.rank() <= 1),
{
}

/// The host passes a line on at the level that the plugin wrote it at, but a trace as a debug line.
pub proof fn law_severity_is_the_level(level: LogLevel)
    ensures
        level.severity_spec() is Error <==> level is Error,
        level.severity_spec() is Warn <==> level is Warn,
        level.severity_spec() is Info <==> level is Info,
        level.severity_spec() is Debug <==> level is Debug || level is Trace,
{
}

/// A log line as plain text.
pub struct LogRecordView {
    pub level: LogLevel,
    pub message: Seq<char>,
}

/// A log line that a plugin wrote.
#[derive(Debug)]
pub struct LogRecord {
    pub level: LogLevel,
    pub message: String,
}

impl View for LogRecord {
    type V = LogRecordView;

    open spec fn view(&self) -> LogRecordView {
        LogRecordView { level: self.level, message: self.message@ }
    }
}

/// Where a plugin writes its log lines. A sink is used up by the line that is written to it, and
/// gives back the sink for the lines after that: so the sink that a plugin is left with shows
/// which lines it wrote, each once and in order.
pub trait LogSink: Sized {
    /// Writes a line.
    fn write(self, level: LogLevel, message: &str) -> (after: Self);
}

/// Whether `after` is the sink that is left once just these lines were written to `before`, in
/// order.
pub open spec fn written<Sink: LogSink>(
    before: Sink,
    lines: Seq<LogRecordView>,
    after: Sink,
) -> bool
    decreases lines.len(),
{
    if lines.len() == 0 {
        after == before
    } else {
        exists|last: Sink, message: &str|
            {
                &&& written(before, lines.drop_last(), last)
                &&& message@ == lines.last().message
                &&& #[trigger] call_ensures(
                    Sink::write,
                    (last, lines.last().level, message),
                    after,
                )
            }
    }
}

/// A line that is written after others comes last.
proof fn lemma_line_is_written<Sink: LogSink>(
    before: Sink,
    lines: Seq<LogRecordView>,
    last: Sink,
    level: LogLevel,
    message: &str,
    after: Sink,
)
    requires
        written(before, lines, last),
        call_ensures(Sink::write, (last, level, message), after),
    ensures
        written(before, lines.push(LogRecordView { level, message: message@ }), after),
{
    let all = lines.push(LogRecordView { level, message: message@ });
    assert(all.drop_last() =~= lines);
    assert(call_ensures(Sink::write, (last, all.last().level, message), after));
}

/// A single line that is written to a sink.
pub(crate) proof fn lemma_one_line_is_written<Sink: LogSink>(
    before: Sink,
    level: LogLevel,
    message: &str,
    after: Sink,
)
    requires
        call_ensures(Sink::write, (before, level, message), after),
    ensures
        written(before, seq![LogRecordView { level, message: message@ }], after),
{
    let none = Seq::<LogRecordView>::empty();
    lemma_line_is_written(before, none, before, level, message, after);
    let line = LogRecordView { level, message: message@ };
    assert(none.push(line) =~= seq![line]);
}

/// Lines that are written one lot after another are written in that order.
pub proof fn law_lines_are_written_in_order<Sink: LogSink>(
    before: Sink,
    first: Seq<LogRecordView>,
    between: Sink,
    second: Seq<LogRecordView>,
    after: Sink,
)
    requires
        written(before, first, between),
        written(between, second, after),
    ensures
        written(before, first + second, after),
    decreases second.len(),
{
    if second.len() == 0 {
        assert(first + second =~= first);
    } else {
        let (last, message) = choose|last: Sink, message: &str|
            {
                &&& written(between, second.drop_last(), last)
                &&& message@ == second.last().message
                &&& #[trigger] call_ensures(
                    Sink::write,
                    (last, second.last().level, message),
                    after,
                )
            };
        law_lines_are_written_in_order(before, first, between, second.drop_last(), last);
        lemma_line_is_written(
            before,
            first + second.drop_last(),
            last,
            second.last().level,
            message,
            after,
        );
        assert(first + second =~= (first + second.drop_last()).push(second.last()));
    }
}

/// A sink that keeps its lines, in order.
#[derive(Debug)]
pub struct HostLog {
    records: Vec<LogRecord>,
}

impl View for HostLog {
    type V = Seq<LogRecordView>;

    closed spec fn view(&self) -> Seq<LogRecordView> {
        Seq::new(self.records@.len(), |i: int| self.records@[i]@)
    }
}

impl HostLog {
    /// A log without lines.
    pub fn new() -> (log: Self)
        ensures
            log@ == Seq::<LogRecordView>::empty(),
    {
        let log = HostLog { records: Vec::new() };
        assert(log@ =~= Seq::<LogRecordView>::empty());
        log
    }

    /// The lines, in order.
    pub fn into_records(self) -> (records: Vec<LogRecord>)
        ensures
            records@.len() == self@.len(),
            forall|i: int| 0 <= i < records@.len() ==> (#[trigger] records@[i])@ == self@[i],
            forall|i: int|
                0 <= i < records@.len() ==> (#[trigger] records@[i]).level == self@[i].level
                    && records@[i].message@ == self@[i].message,
    {
        self.records
    }
}

impl LogSink for HostLog {
    fn write(self, level: LogLevel, message: &str) -> (after: Self)
        ensures
            after@ == self@.push((LogRecordView { level, message: message@ })),
    {
        let mut records = self.records;
        records.push(LogRecord { level, message: message.to_owned() });
        let after = HostLog { records };
        assert(after@ =~= self@.push(LogRecordView { level, message: message@ }));
        after
    }
}

/// A log keeps just the lines that are written to it, each once and in order.
pub proof fn law_log_keeps_what_is_written(
    before: HostLog,
    lines: Seq<LogRecordView>,
    after: HostLog,
)
    requires
        written(before, lines, after),
    ensures
        after@ == before@ + lines,
    decreases lines.len(),
{
    if lines.len() == 0 {
        assert(before@ + lines =~= before@);
    } else {
        let (last, message) = choose|last: HostLog, message: &str|
            {
                &&& written(before, lines.drop_last(), last)
                &&& message@ == lines.last().message
                &&& #[trigger] call_ensures(
                    HostLog::write,
                    (last, lines.last().level, message),
                    after,
                )
            };
        law_log_keeps_what_is_written(before, lines.drop_last(), last);
        assert(after@ == last@.push(
            LogRecordView { level: lines.last().level, message: message@ },
        ));
        assert(before@ + lines =~= (before@ + lines.drop_last()).push(lines.last()));
    }
}

} // verus!
