//! The tick after rendering.

use crate::args::{after_render_of, Args, ArgsView};
use crate::generic_event::{carried, embed, embedded, extract, GenericEvent};
use crate::kind::EventKind;
use vstd::prelude::*;

verus! {

/// After render arguments.
#[derive(Copy, Clone, Debug, PartialEq, Eq, Structural)]
pub struct AfterRenderArgs;

/// The tick after rendering.
pub trait AfterRenderEvent: GenericEvent {
    /// Makes the after render event of `args` that keeps the context of `old`,
    /// where the type of `old` can hold after render events.
    fn from_after_render(args: AfterRenderArgs, old: &Self) -> (r: Option<Self>)
        ensures
            r is Some <==> Self::supports(EventKind::AfterRender.token()),
            r matches Some(e) ==> embedded(
                e,
                EventKind::AfterRender,
                ArgsView::AfterRender(args),
                *old,
            ),
    {
        embed(EventKind::AfterRender, Args::AfterRender(args), old)
    }

    /// The arguments of the tick, if this is an after render event.
    fn after_render_args(&self) -> (r: Option<AfterRenderArgs>)
        ensures
            match r {
                Some(args) => carried(self.id(), self.args(), EventKind::AfterRender) == Some(
                    ArgsView::AfterRender(args),
                ),
                None => carried(self.id(), self.args(), EventKind::AfterRender) is None,
            },
    {
        extract(self, EventKind::AfterRender, after_render_of)
    }
}

impl<T: GenericEvent> AfterRenderEvent for T {

}

} // verus!
