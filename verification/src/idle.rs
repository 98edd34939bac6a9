//! The idle tick.

use crate::args::{idle_of, Args, ArgsView};
use crate::generic_event::{carried, embed, embedded, extract, GenericEvent};
use crate::kind::EventKind;
use crate::scalar::Scalar;
use vstd::prelude::*;

verus! {

/// Idle arguments, such as expected idle time in seconds.
#[derive(Copy, Clone, Debug, PartialEq)]
pub struct IdleArgs {
    /// Expected idle time in seconds.
    pub dt: Scalar,
}

/// The tick on which the event loop has time to spare.
pub trait IdleEvent: GenericEvent {
    /// Makes the idle event of `args` that keeps the context of `old`,
    /// where the type of `old` can hold idle events.
    fn from_idle(args: IdleArgs, old: &Self) -> (r: Option<Self>)
        ensures
            r is Some <==> Self::supports(EventKind::Idle.token()),
            r matches Some(e) ==> embedded(e, EventKind::Idle, ArgsView::Idle(args), *old),
    {
        embed(EventKind::Idle, Args::Idle(args), old)
    }

    /// The arguments of the tick, if this is an idle event.
    fn idle_args(&self) -> (r: Option<IdleArgs>)
        ensures
            match r {
                Some(args) => carried(self.id(), self.args(), EventKind::Idle) == Some(
                    ArgsView::Idle(args),
                ),
                None => carried(self.id(), self.args(), EventKind::Idle) is None,
            },
    {
        extract(self, EventKind::Idle, idle_of)
    }
}

impl<T: GenericEvent> IdleEvent for T {

}

} // verus!
