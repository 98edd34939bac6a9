//! Joystick buttons and axes, and the event of an axis.

use crate::args::{joystick_axis_of, Args, ArgsView};
use crate::generic_event::{carried, embed, embedded, extract, GenericEvent};
use crate::kind::EventKind;
use crate::scalar::Scalar;
use vstd::prelude::*;

verus! {

/// A button of one joystick.
#[derive(Copy, Clone, Debug, PartialEq, Eq, Structural, Hash)]
pub struct JoystickButton {
    /// Which joystick.
    pub id: i32,
    /// Which button of it.
    pub button: u8,
}

/// The reading of one axis of one joystick.
#[derive(Copy, Clone, Debug, PartialEq)]
pub struct JoystickAxisArgs {
    /// Which joystick.
    pub id: i32,
    /// Which axis of it.
    pub axis: u8,
    /// Where the axis stands.
    pub position: Scalar,
}

/// A joystick axis moving.
pub trait JoystickAxisEvent: GenericEvent {
    /// Makes the joystick axis event of `axis` that keeps the context of
    /// `old`, where the type of `old` can hold joystick axis events.
    fn from_joystick_axis(axis: JoystickAxisArgs, old: &Self) -> (r: Option<Self>)
        ensures
            r is Some <==> Self::supports(EventKind::JoystickAxis.token()),
            r matches Some(e) ==> embedded(
                e,
                EventKind::JoystickAxis,
                ArgsView::JoystickAxis(axis),
                *old,
            ),
    {
        embed(EventKind::JoystickAxis, Args::JoystickAxis(axis), old)
    }

    /// The reading of the axis, if this is a joystick axis event.
    fn joystick_axis_args(&self) -> (r: Option<JoystickAxisArgs>)
        ensures
            match r {
                Some(axis) => carried(self.id(), self.args(), EventKind::JoystickAxis) == Some(
                    ArgsView::JoystickAxis(axis),
                ),
                None => carried(self.id(), self.args(), EventKind::JoystickAxis) is None,
            },
    {
        extract(self, EventKind::JoystickAxis, joystick_axis_of)
    }
}

impl<T: GenericEvent> JoystickAxisEvent for T {

}

} // verus!
