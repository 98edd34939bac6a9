//! An event beside a value of the host's own.

use crate::args::{Args, ArgsView};
use crate::generic_event::{embedded, GenericEvent};
use crate::kind::EventKind;
use crate::EventId;
use vstd::prelude::*;

verus! {

/// An event together with a context: a value of the host's own, such as a
/// time stamp or a frame count, that making a new event from an old one
/// leaves as it was.
#[derive(Debug, PartialEq)]
pub struct WithContext<E, C> {
    /// The event.
    pub event: E,
    /// What the host keeps beside it.
    pub context: C,
}

impl<E: Clone, C: Clone> Clone for WithContext<E, C> {
    /// A clone of the event beside a clone of the context.
    fn clone(&self) -> (r: Self)
        ensures
            cloned(self.event, r.event),
            cloned(self.context, r.context),
    {
        WithContext { event: self.event.clone(), context: self.context.clone() }
    }
}

impl<E: GenericEvent, C: Copy> GenericEvent for WithContext<E, C> {
    open spec fn id(&self) -> Seq<char> {
        self.event.id()
    }

    open spec fn args(&self) -> ArgsView {
        self.event.args()
    }

    open spec fn supports(id: Seq<char>) -> bool {
        E::supports(id)
    }

    /// The context is the same, and the event inside has kept its own.
    open spec fn keeps_context(&self, old: &Self) -> bool {
        self.context == old.context && self.event.keeps_context(&old.event)
    }

    proof fn lemma_consistent(&self) {
        self.event.lemma_consistent();
    }

    fn event_id(&self) -> (r: EventId) {
        self.event.event_id()
    }

    fn with_args<U, F: FnOnce(Args) -> U>(&self, id: EventId, f: F) -> (r: Option<U>) {
        self.event.with_args(id, f)
    }

    fn from_args(id: EventId, args: Args, old: &Self) -> (r: Option<Self>) {
        match E::from_args(id, args, &old.event) {
            Some(event) => Some(WithContext { event, context: old.context }),
            None => None,
        }
    }
}

/// An event made from an old one, of whatever kind and with whatever
/// payload, has the context that the old one had.
pub proof fn lemma_context_is_kept<E: GenericEvent, C: Copy>(
    e: WithContext<E, C>,
    old: WithContext<E, C>,
    kind: EventKind,
    args: ArgsView,
)
    requires
        embedded(e, kind, args, old),
    ensures
        e.context == old.context,
        embedded(e.event, kind, args, old.event),
{
}

} // verus!
