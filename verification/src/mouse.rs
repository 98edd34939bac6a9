//! Mouse buttons, and the events of the mouse.

use crate::args::{pair_of, Args, ArgsView};
use crate::generic_event::{carried, embed, embedded, extract, GenericEvent};
use crate::kind::EventKind;
use crate::scalar::Scalar;
use vstd::prelude::*;

verus! {

/// A button of the mouse.
#[derive(Copy, Clone, Debug, PartialEq, Eq, Structural, Hash)]
pub enum MouseButton {
    /// A button the backend could not name.
    Unknown,
    /// The left button.
    Left,
    /// The right button.
    Right,
    /// The middle button.
    Middle,
    /// The first extra button.
    X1,
    /// The second extra button.
    X2,
    /// The sixth button.
    Button6,
    /// The seventh button.
    Button7,
    /// The eighth button.
    Button8,
}

/// The mouse cursor moving, in window coordinates.
pub trait MouseCursorEvent: GenericEvent {
    /// Makes the mouse cursor event of `x` and `y` that keeps the context
    /// of `old`, where the type of `old` can hold mouse cursor events.
    fn from_mouse_cursor(x: Scalar, y: Scalar, old: &Self) -> (r: Option<Self>)
        ensures
            r is Some <==> Self::supports(EventKind::MouseCursor.token()),
            r matches Some(e) ==> embedded(e, EventKind::MouseCursor, ArgsView::Pair(x, y), *old),
    {
        embed(EventKind::MouseCursor, Args::Pair(x, y), old)
    }

    /// The position of the cursor, if this is a mouse cursor event.
    fn mouse_cursor_args(&self) -> (r: Option<(Scalar, Scalar)>)
        ensures
            match r {
                Some(pair) => carried(self.id(), self.args(), EventKind::MouseCursor) == Some(
                    ArgsView::Pair(pair.0, pair.1),
                ),
                None => carried(self.id(), self.args(), EventKind::MouseCursor) is None,
            },
    {
        extract(self, EventKind::MouseCursor, pair_of)
    }
}

impl<T: GenericEvent> MouseCursorEvent for T {

}

/// The mouse moving, in relative coordinates.
pub trait MouseRelativeEvent: GenericEvent {
    /// Makes the mouse relative event of `dx` and `dy` that keeps the context
    /// of `old`, where the type of `old` can hold mouse relative events.
    fn from_mouse_relative(dx: Scalar, dy: Scalar, old: &Self) -> (r: Option<Self>)
        ensures
            r is Some <==> Self::supports(EventKind::MouseRelative.token()),
            r matches Some(e) ==> embedded(
                e,
                EventKind::MouseRelative,
                ArgsView::Pair(dx, dy),
                *old,
            ),
    {
        embed(EventKind::MouseRelative, Args::Pair(dx, dy), old)
    }

    /// The relative move, if this is a mouse relative event.
    fn mouse_relative_args(&self) -> (r: Option<(Scalar, Scalar)>)
        ensures
            match r {
                Some(pair) => carried(self.id(), self.args(), EventKind::MouseRelative) == Some(
                    ArgsView::Pair(pair.0, pair.1),
                ),
                None => carried(self.id(), self.args(), EventKind::MouseRelative) is None,
            },
    {
        extract(self, EventKind::MouseRelative, pair_of)
    }
}

impl<T: GenericEvent> MouseRelativeEvent for T {

}

/// The mouse wheel scrolling.
pub trait MouseScrollEvent: GenericEvent {
    /// Makes the mouse scroll event of `sx` and `sy` that keeps the context
    /// of `old`, where the type of `old` can hold mouse scroll events.
    fn from_mouse_scroll(sx: Scalar, sy: Scalar, old: &Self) -> (r: Option<Self>)
        ensures
            r is Some <==> Self::supports(EventKind::MouseScroll.token()),
            r matches Some(e) ==> embedded(e, EventKind::MouseScroll, ArgsView::Pair(sx, sy), *old),
    {
        embed(EventKind::MouseScroll, Args::Pair(sx, sy), old)
    }

    /// The scroll ticks, if this is a mouse scroll event.
    fn mouse_scroll_args(&self) -> (r: Option<(Scalar, Scalar)>)
        ensures
            match r {
                Some(pair) => carried(self.id(), self.args(), EventKind::MouseScroll) == Some(
                    ArgsView::Pair(pair.0, pair.1),
                ),
                None => carried(self.id(), self.args(), EventKind::MouseScroll) is None,
            },
    {
        extract(self, EventKind::MouseScroll, pair_of)
    }
}

impl<T: GenericEvent> MouseScrollEvent for T {

}

} // verus!
