//! The centralized event manager: how a secondary routes the events it
//! fires, and how the main evaluator drains and handles what secondaries
//! forwarded to it.
use vstd::prelude::*;

use crate::codec::{
    gzip_of, is_compressed, unframed, Compressor, Frame, COMPRESS_THRESHOLD, TAG_TO_MAIN,
};
use crate::event::{
    kind_of, legal_on_channel, stamped, ClientId, Event, EventConfig, EventKind, EventManagerId,
};

verus! {

/// Errors of the centralized protocol.
#[derive(Clone, Copy, Debug, PartialEq, Eq, Structural)]
pub enum CentralizedError {
    /// A message on the centralized channel carried this tag.
    UnexpectedTag(u32),
    /// An event of this kind reached the main evaluator.
    IllegalEvent(EventKind),
    /// A compressed payload did not decompress.
    Compression,
}

/// Where an event fired on a node goes.
#[derive(Clone, Copy, Debug, PartialEq, Eq, Structural)]
pub struct FireRoute {
    /// Send it on the centralized channel to the main evaluator.
    pub to_main: bool,
    /// Hand it to the inner event manager.
    pub to_inner: bool,
}

/// The builder of a [`CentralizedEventManager`].
#[derive(Debug)]
pub struct CentralizedEventManagerBuilder {
    is_main: bool,
}

impl CentralizedEventManagerBuilder {
    /// Whether the manager built will be the main evaluator.
    pub closed spec fn spec_is_main(&self) -> bool {
        self.is_main
    }

    /// A builder for a secondary node.
    pub fn new() -> (r: Self)
        ensures
            !r.spec_is_main(),
    {
        CentralizedEventManagerBuilder { is_main: false }
    }

    /// Make the node a main evaluator, or not.
    pub fn is_main(self, is_main: bool) -> (r: Self)
        ensures
            r.spec_is_main() == is_main,
    {
        CentralizedEventManagerBuilder { is_main }
    }

    /// The manager wrapping an inner manager of identity `mgr_id`, whose
    /// configuration is `configuration`.
    pub fn build(self, mgr_id: EventManagerId, configuration: EventConfig) -> (r:
        CentralizedEventManager)
        ensures
            r.spec_is_main() == self.spec_is_main(),
            r.spec_mgr_id() == mgr_id,
            r.spec_configuration() == configuration,
            r.spec_threshold() == COMPRESS_THRESHOLD,
    {
        CentralizedEventManager {
            is_main: self.is_main,
            mgr_id,
            configuration,
            compressor: Compressor::with_threshold(COMPRESS_THRESHOLD),
        }
    }
}

impl Default for CentralizedEventManagerBuilder {
    fn default() -> (r: Self)
        ensures
            !r.spec_is_main(),
    {
        Self::new()
    }
}

/// What the main evaluator does with a forwarded event.
#[derive(Clone, Copy, Debug, PartialEq, Eq, Structural)]
pub enum MainPlan {
    /// Evaluate the testcase with the observers that the sender serialized,
    /// without running it again.
    EvaluateExecution,
    /// Run the testcase again and evaluate it.
    EvaluateInput,
    /// Ask the fuzzing loop to stop.
    RequestStop,
}

/// The plan of the main evaluator, configured with `config`, for `e`.
pub open spec fn main_plan_of<I>(config: EventConfig, e: Event<I>) -> Result<MainPlan, CentralizedError> {
    match e {
        Event::NewTestcase { client_config, observers_buf, .. } => if client_config.agrees_with(
            config,
        ) && observers_buf is Some {
            Ok(MainPlan::EvaluateExecution)
        } else {
            Ok(MainPlan::EvaluateInput)
        },
        Event::Stop => Ok(MainPlan::RequestStop),
        _ => Err(CentralizedError::IllegalEvent(kind_of(e))),
    }
}

/// The route of `e` fired on a secondary.
pub open spec fn secondary_route(k: EventKind) -> FireRoute {
    FireRoute { to_main: legal_on_channel(k), to_inner: k != EventKind::NewTestcase }
}

/// The forward id that a node stamps on the testcases it forwards.
pub open spec fn forward_id_of(mgr_id: EventManagerId) -> ClientId {
    ClientId(mgr_id.0 as u32)
}

/// The routing core of a fuzzer process: the role, the inner manager's
/// identity and configuration, and the compressor of the centralized channel.
#[derive(Debug)]
pub struct CentralizedEventManager {
    is_main: bool,
    mgr_id: EventManagerId,
    configuration: EventConfig,
    compressor: Compressor,
}

impl CentralizedEventManager {
    pub closed spec fn spec_is_main(&self) -> bool {
        self.is_main
    }

    pub closed spec fn spec_mgr_id(&self) -> EventManagerId {
        self.mgr_id
    }

    pub closed spec fn spec_configuration(&self) -> EventConfig {
        self.configuration
    }

    pub closed spec fn spec_threshold(&self) -> usize {
        self.compressor.spec_threshold()
    }

    /// A builder for a manager.
    pub fn builder() -> (r: CentralizedEventManagerBuilder)
        ensures
            !r.spec_is_main(),
    {
        CentralizedEventManagerBuilder::new()
    }

    /// Whether this node is the main evaluator.
    pub fn is_main(&self) -> (r: bool)
        ensures
            r == self.spec_is_main(),
    {
        self.is_main
    }

    /// The identity of the inner manager.
    pub fn mgr_id(&self) -> (r: EventManagerId)
        ensures
            r == self.spec_mgr_id(),
    {
        self.mgr_id
    }

    /// The configuration of the inner manager.
    pub fn configuration(&self) -> (r: EventConfig)
        ensures
            r == self.spec_configuration(),
    {
        self.configuration
    }

    /// The size from which serialized events are compressed.
    pub fn compressor_threshold(&self) -> (r: usize)
        ensures
            r == self.spec_threshold(),
    {
        self.compressor.threshold()
    }

    /// Whether `process` drains the centralized channel (on the main
    /// evaluator) rather than handing over to the inner manager.
    pub fn drains_centralized(&self) -> (r: bool)
        ensures
            r == self.spec_is_main(),
    {
        self.is_main
    }

    /// Route an event fired on this node. A secondary stamps its forward id
    /// on a new testcase and sends it to the main evaluator only; it sends
    /// heartbeats and stop requests both ways, and everything else to the
    /// inner manager only. The main evaluator hands every event to the
    /// inner manager.
    pub fn route<I>(&self, event: &mut Event<I>) -> (r: FireRoute)
        ensures
            self.spec_is_main() ==> r == (FireRoute { to_main: false, to_inner: true }),
            self.spec_is_main() ==> *final(event) == *old(event),
            !self.spec_is_main() ==> r == secondary_route(kind_of(*old(event))),
            !self.spec_is_main() ==> *final(event) == stamped(
                *old(event),
                forward_id_of(self.spec_mgr_id()),
            ),
    {
        if self.is_main {
            return FireRoute { to_main: false, to_inner: true };
        }
        match event {
            Event::NewTestcase { forward_id, .. } => {
                *forward_id = Some(ClientId(self.mgr_id.0 as u32));
                FireRoute { to_main: true, to_inner: false }
            },
            Event::UpdateExecStats { .. } => FireRoute { to_main: true, to_inner: true },
            Event::Stop => FireRoute { to_main: true, to_inner: true },
            _ => FireRoute { to_main: false, to_inner: true },
        }
    }

    /// The frame that carries a serialized event to the main evaluator.
    pub fn frame_for_main(&self, serialized: Vec<u8>) -> (r: Frame)
        ensures
            r.tag == TAG_TO_MAIN,
            r.flags == crate::codec::framed_flags(self.spec_threshold(), serialized@),
            r.payload@ == crate::codec::framed_payload(self.spec_threshold(), serialized@),
    {
        self.compressor.frame(serialized)
    }

    /// What the main evaluator does with a forwarded event: evaluate a new
    /// testcase, from the sender's observers where the configurations agree
    /// and the sender sent them, else by running it; stop on a stop request;
    /// any other event is illegal on the centralized channel.
    pub fn plan_in_main<I>(&self, event: &Event<I>) -> (r: Result<MainPlan, CentralizedError>)
        ensures
            r == main_plan_of(self.spec_configuration(), *event),
    {
        match event {
            Event::NewTestcase { client_config, observers_buf, .. } => {
                if client_config.match_with(&self.configuration) && observers_buf.is_some() {
                    Ok(MainPlan::EvaluateExecution)
                } else {
                    Ok(MainPlan::EvaluateInput)
                }
            },
            Event::Stop => Ok(MainPlan::RequestStop),
            _ => Err(CentralizedError::IllegalEvent(event.kind())),
        }
    }

    /// The event that the main evaluator republishes through its inner
    /// manager once the evaluator has decided on a new testcase: the same
    /// event where it was accepted (`accepted` holds its corpus id), nothing
    /// otherwise. Nothing but new testcases is ever republished.
    pub fn republish<I>(&self, event: Event<I>, accepted: Option<usize>) -> (r: Option<Event<I>>)
        ensures
            r is Some <==> (accepted is Some && kind_of(event) == EventKind::NewTestcase),
            r is Some ==> r->0 == event,
    {
        match (&event, accepted) {
            (Event::NewTestcase { .. }, Some(_)) => Some(event),
            _ => None,
        }
    }
}

/// A received message: sender, tag, flag word and payload.
#[derive(Clone, Debug)]
pub struct RawMessage {
    pub client_id: ClientId,
    pub tag: u32,
    pub flags: u32,
    pub payload: Vec<u8>,
}

/// The outcome of one step of the main evaluator's drain.
#[derive(Clone, Debug)]
pub enum DrainStep {
    /// No message was ready: the drain is over, having delivered this many
    /// events.
    Done(usize),
    /// The message came from this node itself and was dropped.
    Skipped,
    /// A serialized event, from `client_id`, to deserialize and handle.
    Deliver { client_id: ClientId, bytes: Vec<u8> },
}

/// The drain of the centralized channel on the main evaluator.
#[derive(Clone, Copy, Debug)]
pub struct Drain {
    self_id: ClientId,
    count: usize,
}

impl Drain {
    pub closed spec fn spec_self_id(&self) -> ClientId {
        self.self_id
    }

    pub closed spec fn spec_count(&self) -> usize {
        self.count
    }

    /// A drain for the node whose transport sender is `self_id`.
    pub fn new(self_id: ClientId) -> (r: Drain)
        ensures
            r.spec_self_id() == self_id,
            r.spec_count() == 0,
    {
        Drain { self_id, count: 0 }
    }

    /// How many events this drain has delivered.
    pub fn count(&self) -> (r: usize)
        ensures
            r == self.spec_count(),
    {
        self.count
    }

    /// Take the next message that the transport handed over, `None` where
    /// none was ready. A message with another tag than `TAG_TO_MAIN` ends the
    /// drain with an error; one from this node itself is dropped uncounted;
    /// any other is unframed and delivered, and counted.
    pub fn step(&mut self, mgr: &CentralizedEventManager, msg: Option<RawMessage>) -> (r: Result<
        DrainStep,
        CentralizedError,
    >)
        requires
            old(self).spec_count() < usize::MAX,
        ensures
            final(self).spec_self_id() == old(self).spec_self_id(),
            msg is None ==> r == Ok::<DrainStep, CentralizedError>(DrainStep::Done(old(self).spec_count())),
            msg is Some && msg->0.tag != TAG_TO_MAIN ==> r == Err::<DrainStep, CentralizedError>(
                CentralizedError::UnexpectedTag(msg->0.tag),
            ),
            msg is Some && msg->0.tag == TAG_TO_MAIN && msg->0.client_id == old(self).spec_self_id()
                ==> r == Ok::<DrainStep, CentralizedError>(DrainStep::Skipped),
            msg is Some && msg->0.tag == TAG_TO_MAIN && msg->0.client_id != old(self).spec_self_id()
                ==> match unframed(msg->0.flags, msg->0.payload@) {
                Some(bytes) => r is Ok && r->Ok_0 is Deliver && r->Ok_0->Deliver_client_id
                    == msg->0.client_id && r->Ok_0->Deliver_bytes@ == bytes,
                None => r == Err::<DrainStep, CentralizedError>(CentralizedError::Compression),
            },
            msg is Some && msg->0.tag == TAG_TO_MAIN && msg->0.client_id != old(self).spec_self_id()
                && is_compressed(msg->0.flags) ==> forall|x: Seq<u8>| #[trigger]
                gzip_of(x) == msg->0.payload@ ==> (r is Ok && r->Ok_0 is Deliver
                    && r->Ok_0->Deliver_bytes@ == x),
            r is Ok && r->Ok_0 is Deliver ==> final(self).spec_count() == old(self).spec_count() + 1,
            !(r is Ok && r->Ok_0 is Deliver) ==> final(self).spec_count() == old(self).spec_count(),
    {
        match msg {
            None => Ok(DrainStep::Done(self.count)),
            Some(m) => {
                if m.tag != TAG_TO_MAIN {
                    return Err(CentralizedError::UnexpectedTag(m.tag));
                }
                if m.client_id == self.self_id {
                    return Ok(DrainStep::Skipped);
                }
                match mgr.compressor.unframe(m.flags, m.payload) {
                    Some(bytes) => {
                        self.count = self.count + 1;
                        Ok(DrainStep::Deliver { client_id: m.client_id, bytes })
                    },
                    None => Err(CentralizedError::Compression),
                }
            },
        }
    }
}

} // verus!
