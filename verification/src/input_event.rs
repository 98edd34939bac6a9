//! The input as an event.

use crate::args::{Args, ArgsView};
use crate::generic_event::GenericEvent;
use crate::kind::{kind_of, lemma_kind_of_token, EventKind};
use crate::{EventId, Input, Motion};
use vstd::prelude::*;

verus! {

impl Input {
    /// The kind of this input.
    pub open spec fn kind_spec(&self) -> EventKind {
        match self {
            Input::Press(_) => EventKind::Press,
            Input::Release(_) => EventKind::Release,
            Input::Move(Motion::MouseCursor(_, _)) => EventKind::MouseCursor,
            Input::Move(Motion::MouseRelative(_, _)) => EventKind::MouseRelative,
            Input::Move(Motion::MouseScroll(_, _)) => EventKind::MouseScroll,
            Input::Move(Motion::JoystickAxis(_)) => EventKind::JoystickAxis,
            Input::Text(_) => EventKind::Text,
            Input::Resize(_, _) => EventKind::Resize,
            Input::Focus(_) => EventKind::Focus,
            Input::Cursor(_) => EventKind::Cursor,
        }
    }

    /// The value of what this input carries.
    pub open spec fn payload_view(&self) -> ArgsView {
        match self {
            Input::Press(button) => ArgsView::Button(*button),
            Input::Release(button) => ArgsView::Button(*button),
            Input::Move(Motion::MouseCursor(x, y)) => ArgsView::Pair(*x, *y),
            Input::Move(Motion::MouseRelative(x, y)) => ArgsView::Pair(*x, *y),
            Input::Move(Motion::MouseScroll(x, y)) => ArgsView::Pair(*x, *y),
            Input::Move(Motion::JoystickAxis(args)) => ArgsView::JoystickAxis(*args),
            Input::Text(text) => ArgsView::Text(text@),
            Input::Resize(w, h) => ArgsView::Size(*w, *h),
            Input::Focus(focused) => ArgsView::Flag(*focused),
            Input::Cursor(inside) => ArgsView::Flag(*inside),
        }
    }

    /// The kind of this input.
    #[verifier::when_used_as_spec(kind_spec)]
    pub fn kind(&self) -> (r: EventKind)
        ensures
            r == self.kind_spec(),
    {
        match self {
            Input::Press(_) => EventKind::Press,
            Input::Release(_) => EventKind::Release,
            Input::Move(Motion::MouseCursor(_, _)) => EventKind::MouseCursor,
            Input::Move(Motion::MouseRelative(_, _)) => EventKind::MouseRelative,
            Input::Move(Motion::MouseScroll(_, _)) => EventKind::MouseScroll,
            Input::Move(Motion::JoystickAxis(_)) => EventKind::JoystickAxis,
            Input::Text(_) => EventKind::Text,
            Input::Resize(_, _) => EventKind::Resize,
            Input::Focus(_) => EventKind::Focus,
            Input::Cursor(_) => EventKind::Cursor,
        }
    }

    /// What this input carries.
    pub fn payload(&self) -> (r: Args<'_>)
        ensures
            r@ == self.payload_view(),
    {
        match self {
            Input::Press(button) => Args::Button(*button),
            Input::Release(button) => Args::Button(*button),
            Input::Move(Motion::MouseCursor(x, y)) => Args::Pair(*x, *y),
            Input::Move(Motion::MouseRelative(x, y)) => Args::Pair(*x, *y),
            Input::Move(Motion::MouseScroll(x, y)) => Args::Pair(*x, *y),
            Input::Move(Motion::JoystickAxis(args)) => Args::JoystickAxis(*args),
            Input::Text(text) => Args::Text(text.as_str()),
            Input::Resize(w, h) => Args::Size(*w, *h),
            Input::Focus(focused) => Args::Flag(*focused),
            Input::Cursor(inside) => Args::Flag(*inside),
        }
    }

    /// The input of kind `kind` that carries `args`. There is none where
    /// `kind` is a tick, or where `args` is not what the kind carries.
    pub fn from_kind(kind: EventKind, args: Args) -> (r: Option<Input>)
        ensures
            r is Some <==> kind.is_input() && kind.takes(args@),
            r matches Some(input) ==> input.kind_spec() == kind && input.payload_view() == args@,
    {
        match (kind, args) {
            (EventKind::Press, Args::Button(button)) => Some(Input::Press(button)),
            (EventKind::Release, Args::Button(button)) => Some(Input::Release(button)),
            (EventKind::MouseCursor, Args::Pair(x, y)) => {
                Some(Input::Move(Motion::MouseCursor(x, y)))
            },
            (EventKind::MouseRelative, Args::Pair(x, y)) => {
                Some(Input::Move(Motion::MouseRelative(x, y)))
            },
            (EventKind::MouseScroll, Args::Pair(x, y)) => {
                Some(Input::Move(Motion::MouseScroll(x, y)))
            },
            (EventKind::JoystickAxis, Args::JoystickAxis(axis)) => {
                Some(Input::Move(Motion::JoystickAxis(axis)))
            },
            (EventKind::Text, Args::Text(text)) => Some(Input::Text(text.to_owned())),
            (EventKind::Resize, Args::Size(w, h)) => Some(Input::Resize(w, h)),
            (EventKind::Focus, Args::Flag(focused)) => Some(Input::Focus(focused)),
            (EventKind::Cursor, Args::Flag(inside)) => Some(Input::Cursor(inside)),
            _ => None,
        }
    }
}

impl Clone for Input {
    /// An input of the same kind that carries the same.
    fn clone(&self) -> (r: Input)
        ensures
            r.kind_spec() == self.kind_spec(),
            r.payload_view() == self.payload_view(),
    {
        match self {
            Input::Press(button) => Input::Press(*button),
            Input::Release(button) => Input::Release(*button),
            Input::Move(motion) => Input::Move(*motion),
            Input::Text(text) => Input::Text(text.clone()),
            Input::Resize(w, h) => Input::Resize(*w, *h),
            Input::Focus(focused) => Input::Focus(*focused),
            Input::Cursor(inside) => Input::Cursor(*inside),
        }
    }
}

impl GenericEvent for Input {
    open spec fn id(&self) -> Seq<char> {
        self.kind_spec().token()
    }

    open spec fn args(&self) -> ArgsView {
        self.payload_view()
    }

    /// An input can be of every kind but the ticks.
    open spec fn supports(id: Seq<char>) -> bool {
        kind_of(id) matches Some(kind) && kind.is_input()
    }

    /// An input holds nothing besides its kind and payload.
    open spec fn keeps_context(&self, old: &Self) -> bool {
        true
    }

    proof fn lemma_consistent(&self) {
        lemma_kind_of_token(self.kind_spec());
    }

    fn event_id(&self) -> (r: EventId) {
        self.kind().id()
    }

    fn with_args<U, F: FnOnce(Args) -> U>(&self, id: EventId, f: F) -> (r: Option<U>) {
        if self.event_id() == id {
            Some(f(self.payload()))
        } else {
            None
        }
    }

    fn from_args(id: EventId, args: Args, old: &Self) -> (r: Option<Self>) {
        match id.kind() {
            Some(kind) => Input::from_kind(kind, args),
            None => None,
        }
    }
}

/// An input is what its kind and its payload say: two inputs of one kind
/// that carry the same are the same input, or are two texts of the same
/// characters.
pub proof fn lemma_input_is_kind_and_payload(a: Input, b: Input)
    requires
        a.kind_spec() == b.kind_spec(),
        a.payload_view() == b.payload_view(),
    ensures
        match (a, b) {
            (Input::Text(s), Input::Text(t)) => s@ == t@,
            _ => a == b,
        },
{
}

/// An input can be made of a kind exactly where the kind is not a tick.
pub proof fn lemma_input_supports(kind: EventKind)
    ensures
        Input::supports(kind.token()) <==> kind.is_input(),
{
    lemma_kind_of_token(kind);
}

} // verus!
