//! Entering text.

use crate::args::{text_of, Args, ArgsView};
use crate::generic_event::{carried, embed, embedded, extract, GenericEvent};
use crate::kind::EventKind;
use vstd::prelude::*;

verus! {

/// The entering of text.
pub trait TextEvent: GenericEvent {
    /// Makes the text event of `text` that keeps the context of `old`, where
    /// the type of `old` can hold text events.
    fn from_text(text: &str, old: &Self) -> (r: Option<Self>)
        ensures
            r is Some <==> Self::supports(EventKind::Text.token()),
            r matches Some(e) ==> embedded(e, EventKind::Text, ArgsView::Text(text@), *old),
    {
        embed(EventKind::Text, Args::Text(text), old)
    }

    /// A copy of the text that was entered, if this is a text event.
    fn text_args(&self) -> (r: Option<String>)
        ensures
            match r {
                Some(text) => carried(self.id(), self.args(), EventKind::Text) == Some(
                    ArgsView::Text(text@),
                ),
                None => carried(self.id(), self.args(), EventKind::Text) is None,
            },
    {
        extract(self, EventKind::Text, text_of)
    }
}

impl<T: GenericEvent> TextEvent for T {

}

} // verus!
