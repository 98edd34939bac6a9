//! Pressing a button.

use crate::args::{button_of, Args, ArgsView};
use crate::generic_event::{carried, embed, embedded, extract, GenericEvent};
use crate::kind::EventKind;
use crate::Button;
use vstd::prelude::*;

verus! {

/// The press of a button.
pub trait PressEvent: GenericEvent {
    /// Makes the press event of `button` that keeps the context of `old`,
    /// where the type of `old` can hold press events.
    fn from_press(button: Button, old: &Self) -> (r: Option<Self>)
        ensures
            r is Some <==> Self::supports(EventKind::Press.token()),
            r matches Some(e) ==> embedded(e, EventKind::Press, ArgsView::Button(button), *old),
    {
        embed(EventKind::Press, Args::Button(button), old)
    }

    /// The button that was pressed, if this is a press event.
    fn press_args(&self) -> (r: Option<Button>)
        ensures
            match r {
                Some(button) => carried(self.id(), self.args(), EventKind::Press) == Some(
                    ArgsView::Button(button),
                ),
                None => carried(self.id(), self.args(), EventKind::Press) is None,
            },
    {
        extract(self, EventKind::Press, button_of)
    }
}

impl<T: GenericEvent> PressEvent for T {

}

} // verus!
