//! Gaining and losing the cursor.

use crate::args::{flag_of, Args, ArgsView};
use crate::generic_event::{carried, embed, embedded, extract, GenericEvent};
use crate::kind::EventKind;
use vstd::prelude::*;

verus! {

/// The window gaining or losing the cursor.
pub trait CursorEvent: GenericEvent {
    /// Makes the cursor event of `inside` that keeps the context of `old`,
    /// where the type of `old` can hold cursor events.
    fn from_cursor(inside: bool, old: &Self) -> (r: Option<Self>)
        ensures
            r is Some <==> Self::supports(EventKind::Cursor.token()),
            r matches Some(e) ==> embedded(e, EventKind::Cursor, ArgsView::Flag(inside), *old),
    {
        embed(EventKind::Cursor, Args::Flag(inside), old)
    }

    /// Whether the cursor was gained, if this is a cursor event.
    fn cursor_args(&self) -> (r: Option<bool>)
        ensures
            match r {
                Some(inside) => carried(self.id(), self.args(), EventKind::Cursor) == Some(
                    ArgsView::Flag(inside),
                ),
                None => carried(self.id(), self.args(), EventKind::Cursor) is None,
            },
    {
        extract(self, EventKind::Cursor, flag_of)
    }
}

impl<T: GenericEvent> CursorEvent for T {

}

} // verus!
