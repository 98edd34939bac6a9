//! A flexible structure for user interactions,
//! to be used in window frameworks and widget libraries.
//!
//! A backend hands out `Input` values. A host wraps them, beside ticks and
//! whatever else it needs, in an event type of its own, and implements
//! `GenericEvent` for that type. Library code then asks an event typed
//! questions through one small trait for each kind of event, such as
//! `PressEvent` and `ResizeEvent`, without knowing the type of the event.
//!
//! An event is modelled by the text of its id and the value of its payload.
//! The contracts say what the typed methods read from and write to that
//! model, and the proof functions beside them state what follows: that no
//! two kinds share an id, that an event made for one kind answers for that
//! kind and no other, that a context is kept when an event is made from an
//! old one, and that widening a leaf value into its variant loses nothing.
//!
//! Numbers with a fraction are held by their bits, as `Scalar`.

pub mod args;
pub mod context;
pub mod event;
pub mod generic_event;
pub mod joystick;
pub mod keyboard;
pub mod kind;
pub mod mouse;
pub mod scalar;

mod after_render;
mod cursor;
mod focus;
mod idle;
mod input_event;
mod press;
mod release;
mod render;
mod resize;
mod text;
mod update;

pub use after_render::{AfterRenderArgs, AfterRenderEvent};
pub use args::Args;
pub use context::WithContext;
pub use cursor::CursorEvent;
pub use event::Event;
pub use focus::FocusEvent;
pub use generic_event::GenericEvent;
pub use idle::{IdleArgs, IdleEvent};
pub use joystick::{JoystickAxisArgs, JoystickAxisEvent, JoystickButton};
pub use keyboard::Key;
pub use kind::EventKind;
pub use mouse::{MouseButton, MouseCursorEvent, MouseRelativeEvent, MouseScrollEvent};
pub use press::PressEvent;
pub use release::ReleaseEvent;
pub use render::{RenderArgs, RenderEvent};
pub use resize::ResizeEvent;
pub use scalar::Scalar;
pub use text::TextEvent;
pub use update::{UpdateArgs, UpdateEvent};

use vstd::prelude::*;
use vstd::std_specs::convert::FromSpec;

verus! {

/// Used to identify events arguments provided by traits.
///
/// An id is its text: two ids are the same id when their texts are the same
/// sequence of characters, wherever the two strings are stored. The view of
/// an id is that sequence.
#[derive(Copy, Clone, Debug)]
pub struct EventId(pub &'static str);

impl View for EventId {
    type V = Seq<char>;

    open spec fn view(&self) -> Seq<char> {
        self.0@
    }
}

impl PartialEq for EventId {
    /// Whether the two ids have the same text.
    fn eq(&self, other: &EventId) -> (r: bool)
        ensures
            r == (self@ == other@),
    {
        same_text(self.0, other.0)
    }
}

impl Eq for EventId {

}

impl vstd::std_specs::cmp::PartialEqSpecImpl for EventId {
    open spec fn obeys_eq_spec() -> bool {
        true
    }

    open spec fn eq_spec(&self, other: &EventId) -> bool {
        self@ == other@
    }
}

/// Whether two strings hold the same characters.
///
/// Two strings have the same characters exactly when their UTF-8 bytes are
/// the same, since decoding the bytes gives the characters back.
fn same_text(a: &str, b: &str) -> (r: bool)
    ensures
        r == (a@ == b@),
{
    let x = a.as_bytes();
    let y = b.as_bytes();
    proof {
        vstd::utf8::encode_utf8_decode_utf8(a@);
        vstd::utf8::encode_utf8_decode_utf8(b@);
    }
    if x.len() != y.len() {
        return false;
    }
    let n: usize = x.len();
    let mut i: usize = 0;
    while i < n
        invariant
            i <= n,
            n == x@.len(),
            n == y@.len(),
            x@ == vstd::utf8::encode_utf8(a@),
            y@ == vstd::utf8::encode_utf8(b@),
            forall|j: int| 0 <= j < i ==> x@[j] == y@[j],
        decreases n - i,
    {
        if x[i] != y[i] {
            return false;
        }
        i = i + 1;
    }
    assert(x@ =~= y@);
    true
}

/// Models different kinds of buttons.
#[derive(Copy, Clone, Debug, PartialEq, Eq, Structural, Hash)]
pub enum Button {
    /// A keyboard button.
    Keyboard(Key),
    /// A mouse button.
    Mouse(MouseButton),
    /// A joystick button.
    Joystick(JoystickButton),
}

/// Models different kinds of motion.
#[derive(Copy, Clone, Debug, PartialEq)]
pub enum Motion {
    /// x and y in window coordinates.
    MouseCursor(Scalar, Scalar),
    /// x and y in relative coordinates.
    MouseRelative(Scalar, Scalar),
    /// x and y in scroll ticks.
    MouseScroll(Scalar, Scalar),
    /// Joystick axis move event.
    JoystickAxis(JoystickAxisArgs),
}

/// Models input events.
#[derive(Debug, PartialEq)]
pub enum Input {
    /// Pressed a button.
    Press(Button),
    /// Released a button.
    Release(Button),
    /// Moved mouse cursor.
    Move(Motion),
    /// Text (usually from keyboard).
    Text(String),
    /// Window got resized.
    Resize(u32, u32),
    /// Window gained or lost focus.
    Focus(bool),
    /// Window gained or lost cursor.
    Cursor(bool),
}

impl From<Key> for Button {
    /// The keyboard button of a key.
    fn from(key: Key) -> (r: Button)
        ensures
            r == Button::Keyboard(key),
    {
        Button::Keyboard(key)
    }
}

impl vstd::std_specs::convert::FromSpecImpl<Key> for Button {
    open spec fn obeys_from_spec() -> bool {
        true
    }

    open spec fn from_spec(key: Key) -> Button {
        Button::Keyboard(key)
    }
}

impl From<MouseButton> for Button {
    /// The button of a mouse button.
    fn from(btn: MouseButton) -> (r: Button)
        ensures
            r == Button::Mouse(btn),
    {
        Button::Mouse(btn)
    }
}

impl vstd::std_specs::convert::FromSpecImpl<MouseButton> for Button {
    open spec fn obeys_from_spec() -> bool {
        true
    }

    open spec fn from_spec(btn: MouseButton) -> Button {
        Button::Mouse(btn)
    }
}

impl From<JoystickButton> for Button {
    /// The button of a joystick button.
    fn from(btn: JoystickButton) -> (r: Button)
        ensures
            r == Button::Joystick(btn),
    {
        Button::Joystick(btn)
    }
}

impl vstd::std_specs::convert::FromSpecImpl<JoystickButton> for Button {
    open spec fn obeys_from_spec() -> bool {
        true
    }

    open spec fn from_spec(btn: JoystickButton) -> Button {
        Button::Joystick(btn)
    }
}

impl From<JoystickAxisArgs> for Motion {
    /// The motion of a joystick axis.
    fn from(args: JoystickAxisArgs) -> (r: Motion)
        ensures
            r == Motion::JoystickAxis(args),
    {
        Motion::JoystickAxis(args)
    }
}

impl vstd::std_specs::convert::FromSpecImpl<JoystickAxisArgs> for Motion {
    open spec fn obeys_from_spec() -> bool {
        true
    }

    open spec fn from_spec(args: JoystickAxisArgs) -> Motion {
        Motion::JoystickAxis(args)
    }
}

impl From<Motion> for Input {
    /// The input of a motion.
    fn from(motion: Motion) -> (r: Input)
        ensures
            r == Input::Move(motion),
    {
        Input::Move(motion)
    }
}

impl vstd::std_specs::convert::FromSpecImpl<Motion> for Input {
    open spec fn obeys_from_spec() -> bool {
        true
    }

    open spec fn from_spec(motion: Motion) -> Input {
        Input::Move(motion)
    }
}

/// Widening loses nothing: the value that a leaf value is widened to is
/// the variant made for it, and holds that leaf value.
pub proof fn lemma_widening_round_trip(
    key: Key,
    mouse: MouseButton,
    joystick: JoystickButton,
    axis: JoystickAxisArgs,
    motion: Motion,
)
    ensures
        Button::from_spec(key) matches Button::Keyboard(k) && k == key,
        Button::from_spec(mouse) matches Button::Mouse(b) && b == mouse,
        Button::from_spec(joystick) matches Button::Joystick(b) && b == joystick,
        Motion::from_spec(axis) matches Motion::JoystickAxis(a) && a == axis,
        Input::from_spec(motion) matches Input::Move(m) && m == motion,
{
}

/// The variants of a button, of a motion and of an input are closed sets:
/// a value of one of these types is of one of the variants named here.
pub proof fn lemma_variants_are_closed(button: Button, motion: Motion, input: Input)
    ensures
        button is Keyboard || button is Mouse || button is Joystick,
        motion is MouseCursor || motion is MouseRelative || motion is MouseScroll
            || motion is JoystickAxis,
        input is Press || input is Release || input is Move || input is Text || input is Resize
            || input is Focus || input is Cursor,
{
}

} // verus!
