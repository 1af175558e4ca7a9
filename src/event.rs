//! Events exchanged between fuzzer processes.
use vstd::prelude::*;

verus! {

/// Identity of a participant on a broker, assigned by the transport.
#[derive(Clone, Copy, Debug, PartialEq, Eq, Structural)]
pub struct ClientId(pub u32);

/// Identity of an event manager inside its process.
#[derive(Clone, Copy, Debug, PartialEq, Eq, Structural)]
pub struct EventManagerId(pub usize);

/// Fingerprint of the observer layout of a fuzzer.
#[derive(Clone, Copy, Debug, PartialEq, Eq, Structural)]
pub enum EventConfig {
    /// Matches no other configuration, not even itself.
    AlwaysUnique,
    /// Derived from a configuration name.
    FromName { name_hash: u64 },
    /// Derived from the build of the running binary.
    BuildId,
}

impl EventConfig {
    /// Whether observer data produced under `self` can be read under `other`.
    pub open spec fn agrees_with(self, other: EventConfig) -> bool {
        match (self, other) {
            (EventConfig::FromName { name_hash: a }, EventConfig::FromName { name_hash: b }) => a == b,
            (EventConfig::BuildId, EventConfig::BuildId) => true,
            _ => false,
        }
    }

    /// Whether two configurations agree.
    pub fn match_with(&self, other: &EventConfig) -> (r: bool)
        ensures
            r == self.agrees_with(*other),
    {
        match (self, other) {
            (EventConfig::FromName { name_hash: a }, EventConfig::FromName { name_hash: b }) => *a == *b,
            (EventConfig::BuildId, EventConfig::BuildId) => true,
            _ => false,
        }
    }
}

/// How the target exited when an input ran.
#[derive(Clone, Copy, Debug, PartialEq, Eq, Structural)]
pub enum ExitKind {
    /// The run finished without a fault.
    Normal,
    Crash,
    Oom,
    Timeout,
}

/// Severity of a log event.
#[derive(Clone, Copy, Debug, PartialEq, Eq, Structural)]
pub enum LogSeverity {
    Debug,
    Info,
    Warn,
    Error,
}

/// The variant of an event, without its fields.
#[derive(Clone, Copy, Debug, PartialEq, Eq, Structural)]
pub enum EventKind {
    NewTestcase,
    UpdateExecStats,
    UpdateUserStats,
    Objective,
    Log,
    CustomBuf,
    Stop,
}

/// An event produced by fuzzer activity.
#[derive(Clone, Debug)]
pub enum Event<I> {
    /// A candidate input, with the observer state it produced if the sender
    /// serialized it.
    NewTestcase {
        input: I,
        observers_buf: Option<Vec<u8>>,
        exit_kind: ExitKind,
        corpus_size: usize,
        client_config: EventConfig,
        time_nanos: u64,
        executions: u64,
        forward_id: Option<ClientId>,
    },
    /// Throughput heartbeat.
    UpdateExecStats { time_nanos: u64, executions: u64 },
    /// A user-defined statistic.
    UpdateUserStats { name: String, value: u64 },
    /// An objective (a crash, for instance) was found.
    Objective { objective_size: usize, executions: u64, time_nanos: u64 },
    /// A log line.
    Log { severity_level: LogSeverity, message: String },
    /// An application-defined payload.
    CustomBuf { buf: Vec<u8>, tag: u32 },
    /// Request to stop fuzzing everywhere.
    Stop,
}

/// The variant of `e`.
pub open spec fn kind_of<I>(e: Event<I>) -> EventKind {
    match e {
        Event::NewTestcase { .. } => EventKind::NewTestcase,
        Event::UpdateExecStats { .. } => EventKind::UpdateExecStats,
        Event::UpdateUserStats { .. } => EventKind::UpdateUserStats,
        Event::Objective { .. } => EventKind::Objective,
        Event::Log { .. } => EventKind::Log,
        Event::CustomBuf { .. } => EventKind::CustomBuf,
        Event::Stop => EventKind::Stop,
    }
}

/// The kinds of event that may travel on the centralized channel.
pub open spec fn legal_on_channel(k: EventKind) -> bool {
    k == EventKind::NewTestcase || k == EventKind::UpdateExecStats || k == EventKind::Stop
}

/// `e` with its forward id set to `id`, when it is a new testcase.
pub open spec fn stamped<I>(e: Event<I>, id: ClientId) -> Event<I> {
    match e {
        Event::NewTestcase {
            input,
            observers_buf,
            exit_kind,
            corpus_size,
            client_config,
            time_nanos,
            executions,
            forward_id,
        } => Event::NewTestcase {
            input,
            observers_buf,
            exit_kind,
            corpus_size,
            client_config,
            time_nanos,
            executions,
            forward_id: Some(id),
        },
        _ => e,
    }
}

/// Stamping keeps the kind of an event, and a stamped new testcase carries
/// the stamped id as its forward id.
pub proof fn lemma_stamped_carries_id<I>(e: Event<I>, id: ClientId)
    ensures
        kind_of(stamped(e, id)) == kind_of(e),
        stamped(e, id) is NewTestcase ==> stamped(e, id)->NewTestcase_forward_id == Some(id),
        !(e is NewTestcase) ==> stamped(e, id) == e,
{
}

impl<I> Event<I> {
    /// The variant of this event.
    pub fn kind(&self) -> (r: EventKind)
        ensures
            r == kind_of(*self),
    {
        match self {
            Event::NewTestcase { .. } => EventKind::NewTestcase,
            Event::UpdateExecStats { .. } => EventKind::UpdateExecStats,
            Event::UpdateUserStats { .. } => EventKind::UpdateUserStats,
            Event::Objective { .. } => EventKind::Objective,
            Event::Log { .. } => EventKind::Log,
            Event::CustomBuf { .. } => EventKind::CustomBuf,
            Event::Stop => EventKind::Stop,
        }
    }
}

} // verus!
