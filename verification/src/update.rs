//! The update tick.

use crate::args::{update_of, Args, ArgsView};
use crate::generic_event::{carried, embed, embedded, extract, GenericEvent};
use crate::kind::EventKind;
use crate::scalar::Scalar;
use vstd::prelude::*;

verus! {

/// Update arguments, such as delta time in seconds.
#[derive(Copy, Clone, Debug, PartialEq)]
pub struct UpdateArgs {
    /// Delta time in seconds.
    pub dt: Scalar,
}

/// The tick on which the application updates its state.
pub trait UpdateEvent: GenericEvent {
    /// Makes the update event of `args` that keeps the context of `old`,
    /// where the type of `old` can hold update events.
    fn from_update(args: UpdateArgs, old: &Self) -> (r: Option<Self>)
        ensures
            r is Some <==> Self::supports(EventKind::Update.token()),
            r matches Some(e) ==> embedded(e, EventKind::Update, ArgsView::Update(args), *old),
    {
        embed(EventKind::Update, Args::Update(args), old)
    }

    /// The arguments of the tick, if this is an update event.
    fn update_args(&self) -> (r: Option<UpdateArgs>)
        ensures
            match r {
                Some(args) => carried(self.id(), self.args(), EventKind::Update) == Some(
                    ArgsView::Update(args),
                ),
                None => carried(self.id(), self.args(), EventKind::Update) is None,
            },
    {
        extract(self, EventKind::Update, update_of)
    }
}

impl<T: GenericEvent> UpdateEvent for T {

}

} // verus!
