//! Gaining and losing focus.

use crate::args::{flag_of, Args, ArgsView};
use crate::generic_event::{carried, embed, embedded, extract, GenericEvent};
use crate::kind::EventKind;
use vstd::prelude::*;

verus! {

/// The window gaining or losing focus.
pub trait FocusEvent: GenericEvent {
    /// Makes the focus event of `focused` that keeps the context of `old`,
    /// where the type of `old` can hold focus events.
    fn from_focus(focused: bool, old: &Self) -> (r: Option<Self>)
        ensures
            r is Some <==> Self::supports(EventKind::Focus.token()),
            r matches Some(e) ==> embedded(e, EventKind::Focus, ArgsView::Flag(focused), *old),
    {
        embed(EventKind::Focus, Args::Flag(focused), old)
    }

    /// Whether focus was gained, if this is a focus event.
    fn focus_args(&self) -> (r: Option<bool>)
        ensures
            match r {
                Some(focused) => carried(self.id(), self.args(), EventKind::Focus) == Some(
                    ArgsView::Flag(focused),
                ),
                None => carried(self.id(), self.args(), EventKind::Focus) is None,
            },
    {
        extract(self, EventKind::Focus, flag_of)
    }
}

impl<T: GenericEvent> FocusEvent for T {

}

} // verus!
