//! Releasing a button.

use crate::args::{button_of, Args, ArgsView};
use crate::generic_event::{carried, embed, embedded, extract, GenericEvent};
use crate::kind::EventKind;
use crate::Button;
use vstd::prelude::*;

verus! {

/// The release of a button.
pub trait ReleaseEvent: GenericEvent {
    /// Makes the release event of `button` that keeps the context of `old`,
    /// where the type of `old` can hold release events.
    fn from_release(button: Button, old: &Self) -> (r: Option<Self>)
        ensures
            r is Some <==> Self::supports(EventKind::Release.token()),
            r matches Some(e) ==> embedded(e, EventKind::Release, ArgsView::Button(button), *old),
    {
        embed(EventKind::Release, Args::Button(button), old)
    }

    /// The button that was released, if this is a release event.
    fn release_args(&self) -> (r: Option<Button>)
        ensures
            match r {
                Some(button) => carried(self.id(), self.args(), EventKind::Release) == Some(
                    ArgsView::Button(button),
                ),
                None => carried(self.id(), self.args(), EventKind::Release) is None,
            },
    {
        extract(self, EventKind::Release, button_of)
    }
}

impl<T: GenericEvent> ReleaseEvent for T {

}

} // verus!
