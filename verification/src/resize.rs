//! Resizing the window.

use crate::args::{size_of, Args, ArgsView};
use crate::generic_event::{carried, embed, embedded, extract, GenericEvent};
use crate::kind::EventKind;
use vstd::prelude::*;

verus! {

/// The resizing of the window.
pub trait ResizeEvent: GenericEvent {
    /// Makes the resize event to `width` and `height` that keeps the context
    /// of `old`, where the type of `old` can hold resize events.
    fn from_resize(width: u32, height: u32, old: &Self) -> (r: Option<Self>)
        ensures
            r is Some <==> Self::supports(EventKind::Resize.token()),
            r matches Some(e) ==> embedded(
                e,
                EventKind::Resize,
                ArgsView::Size(width, height),
                *old,
            ),
    {
        embed(EventKind::Resize, Args::Size(width, height), old)
    }

    /// The new width and height, if this is a resize event.
    fn resize_args(&self) -> (r: Option<(u32, u32)>)
        ensures
            match r {
                Some(size) => carried(self.id(), self.args(), EventKind::Resize) == Some(
                    ArgsView::Size(size.0, size.1),
                ),
                None => carried(self.id(), self.args(), EventKind::Resize) is None,
            },
    {
        extract(self, EventKind::Resize, size_of)
    }
}

impl<T: GenericEvent> ResizeEvent for T {

}

} // verus!
