//! The render tick.

use crate::args::{render_of, Args, ArgsView};
use crate::generic_event::{carried, embed, embedded, extract, GenericEvent};
use crate::kind::EventKind;
use crate::scalar::Scalar;
use vstd::prelude::*;

verus! {

/// Render arguments.
#[derive(Copy, Clone, Debug, PartialEq)]
pub struct RenderArgs {
    /// Extrapolated time in seconds, used to do smooth animation.
    pub ext_dt: Scalar,
    /// The width of rendered area in points.
    pub width: u32,
    /// The height of rendered area in points.
    pub height: u32,
    /// The width of rendered area in pixels.
    pub draw_width: u32,
    /// The height of rendered area in pixels.
    pub draw_height: u32,
}

/// The tick on which the application renders.
pub trait RenderEvent: GenericEvent {
    /// Makes the render event of `args` that keeps the context of `old`,
    /// where the type of `old` can hold render events.
    fn from_render(args: RenderArgs, old: &Self) -> (r: Option<Self>)
        ensures
            r is Some <==> Self::supports(EventKind::Render.token()),
            r matches Some(e) ==> embedded(e, EventKind::Render, ArgsView::Render(args), *old),
    {
        embed(EventKind::Render, Args::Render(args), old)
    }

    /// The arguments of the tick, if this is a render event.
    fn render_args(&self) -> (r: Option<RenderArgs>)
        ensures
            match r {
                Some(args) => carried(self.id(), self.args(), EventKind::Render) == Some(
                    ArgsView::Render(args),
                ),
                None => carried(self.id(), self.args(), EventKind::Render) is None,
            },
    {
        extract(self, EventKind::Render, render_of)
    }
}

impl<T: GenericEvent> RenderEvent for T {

}

} // verus!
