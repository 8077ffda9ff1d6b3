//! The decisions of the event-stream loop: what to do with each item the
//! stream yields, for a dispatcher bound to one event kind.
use vstd::prelude::*;
use crate::events::{project, projection, MatchMakerEvent, PendingTxOrBundle, StreamingEventTypes};

verus! {

/// What the stream yielded next.
pub enum StreamItem {
    /// A message that decoded as an event.
    Event(MatchMakerEvent),
    /// A message that did not decode.
    Malformed,
    /// The stream ended cleanly.
    End,
    /// The transport failed.
    Failed,
}

/// What the loop does next.
pub enum DispatchAction {
    /// Call the handler with this value, then pull the next item.
    Deliver(PendingTxOrBundle),
    /// Pull the next item.
    Skip,
    /// Leave the loop.
    Stop,
}

/// The next running flag and the action, for a dispatcher of `kind` that receives `item`.
pub open spec fn transition(kind: StreamingEventTypes, running: bool, item: StreamItem) -> (
    bool,
    DispatchAction,
) {
    if !running {
        (false, DispatchAction::Stop)
    } else {
        match item {
            StreamItem::Event(e) => (true, DispatchAction::Deliver(projection(kind, e))),
            StreamItem::Malformed => (true, DispatchAction::Skip),
            StreamItem::End => (false, DispatchAction::Stop),
            StreamItem::Failed => (false, DispatchAction::Stop),
        }
    }
}

/// A dispatch loop bound to one event kind.
pub struct Dispatcher {
    kind: StreamingEventTypes,
    running: bool,
}

impl Dispatcher {
    pub closed spec fn kind(&self) -> StreamingEventTypes {
        self.kind
    }

    pub closed spec fn running(&self) -> bool {
        self.running
    }

    /// A running dispatcher for `kind`.
    pub fn new(kind: StreamingEventTypes) -> (r: Dispatcher)
        ensures
            r.kind() == kind,
            r.running(),
    {
        Dispatcher { kind, running: true }
    }

    /// The event kind this dispatcher delivers.
    pub fn event_kind(&self) -> (r: StreamingEventTypes)
        ensures
            r == self.kind(),
    {
        self.kind
    }

    /// Whether the loop should go on pulling items.
    pub fn is_running(&self) -> (r: bool)
        ensures
            r == self.running(),
    {
        self.running
    }

    /// Decides what to do with one item: a decoded event is projected and
    /// delivered, a malformed one skipped, and the end or failure of the
    /// stream stops the loop for good.
    pub fn step(&mut self, item: StreamItem) -> (a: DispatchAction)
        ensures
            final(self).kind() == old(self).kind(),
            (final(self).running(), a) == transition(old(self).kind(), old(self).running(), item),
    {
        if !self.running {
            return DispatchAction::Stop;
        }
        match item {
            StreamItem::Event(e) => DispatchAction::Deliver(project(self.kind, e)),
            StreamItem::Malformed => DispatchAction::Skip,
            StreamItem::End => {
                self.running = false;
                DispatchAction::Stop
            },
            StreamItem::Failed => {
                self.running = false;
                DispatchAction::Stop
            },
        }
    }
}

/// A malformed message does not stop a running dispatcher, and a well-formed
/// message right after it is still delivered, projected for the dispatcher's kind.
pub proof fn lemma_malformed_then_delivered(kind: StreamingEventTypes, e: MatchMakerEvent)
    ensures
        transition(kind, true, StreamItem::Malformed) == (true, DispatchAction::Skip),
        transition(kind, transition(kind, true, StreamItem::Malformed).0, StreamItem::Event(e))
            == (true, DispatchAction::Deliver(projection(kind, e))),
{
}

/// Once stopped, a dispatcher stays stopped and delivers nothing, whatever comes.
pub proof fn lemma_stopped_stays_stopped(kind: StreamingEventTypes, item: StreamItem)
    ensures
        transition(kind, false, item) == (false, DispatchAction::Stop),
{
}

} // verus!
