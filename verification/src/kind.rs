//! The closed set of event kinds, and the id of each.

use crate::EventId;
use vstd::prelude::*;

verus! {

/// The kinds of event that this library names.
///
/// A host may give events of its own other ids; those belong to no kind.
#[derive(Copy, Clone, Debug, PartialEq, Eq, Structural, Hash)]
pub enum EventKind {
    /// A button went down.
    Press,
    /// A button went up.
    Release,
    /// The mouse cursor moved, in window coordinates.
    MouseCursor,
    /// The mouse moved, in relative coordinates.
    MouseRelative,
    /// The mouse wheel scrolled.
    MouseScroll,
    /// A joystick axis moved.
    JoystickAxis,
    /// Text was entered.
    Text,
    /// The window was resized.
    Resize,
    /// The window gained or lost focus.
    Focus,
    /// The window gained or lost the cursor.
    Cursor,
    /// The application should update its state.
    Update,
    /// The application should render.
    Render,
    /// Rendering has finished.
    AfterRender,
    /// The event loop has time to spare.
    Idle,
}

impl EventKind {
    /// The text of the id of this kind.
    pub open spec fn token(self) -> Seq<char> {
        match self {
            EventKind::Press => "piston/press"@,
            EventKind::Release => "piston/release"@,
            EventKind::MouseCursor => "piston/mouse_cursor"@,
            EventKind::MouseRelative => "piston/mouse_relative"@,
            EventKind::MouseScroll => "piston/mouse_scroll"@,
            EventKind::JoystickAxis => "piston/joystick_axis"@,
            EventKind::Text => "piston/text"@,
            EventKind::Resize => "piston/resize"@,
            EventKind::Focus => "piston/focus"@,
            EventKind::Cursor => "piston/cursor"@,
            EventKind::Update => "piston/update"@,
            EventKind::Render => "piston/render"@,
            EventKind::AfterRender => "piston/after_render"@,
            EventKind::Idle => "piston/idle"@,
        }
    }

    /// Whether events of this kind come from an input device or the window,
    /// rather than from the event loop as its ticks do.
    pub open spec fn is_input(self) -> bool {
        !(self is Update || self is Render || self is AfterRender || self is Idle)
    }

    /// The id of this kind.
    pub fn id(self) -> (r: EventId)
        ensures
            r@ == self.token(),
    {
        match self {
            EventKind::Press => EventId("piston/press"),
            EventKind::Release => EventId("piston/release"),
            EventKind::MouseCursor => EventId("piston/mouse_cursor"),
            EventKind::MouseRelative => EventId("piston/mouse_relative"),
            EventKind::MouseScroll => EventId("piston/mouse_scroll"),
            EventKind::JoystickAxis => EventId("piston/joystick_axis"),
            EventKind::Text => EventId("piston/text"),
            EventKind::Resize => EventId("piston/resize"),
            EventKind::Focus => EventId("piston/focus"),
            EventKind::Cursor => EventId("piston/cursor"),
            EventKind::Update => EventId("piston/update"),
            EventKind::Render => EventId("piston/render"),
            EventKind::AfterRender => EventId("piston/after_render"),
            EventKind::Idle => EventId("piston/idle"),
        }
    }
}

/// The kind whose id has the text `id`, if there is one.
pub open spec fn kind_of(id: Seq<char>) -> Option<EventKind> {
    if exists|k: EventKind| #[trigger] k.token() == id {
        Some(choose|k: EventKind| #[trigger] k.token() == id)
    } else {
        None
    }
}

/// No two kinds share an id.
pub proof fn lemma_tokens_distinct(a: EventKind, b: EventKind)
    ensures
        a.token() == b.token() ==> a == b,
{
    reveal_strlit("piston/press");
    reveal_strlit("piston/release");
    reveal_strlit("piston/mouse_cursor");
    reveal_strlit("piston/mouse_relative");
    reveal_strlit("piston/mouse_scroll");
    reveal_strlit("piston/joystick_axis");
    reveal_strlit("piston/text");
    reveal_strlit("piston/resize");
    reveal_strlit("piston/focus");
    reveal_strlit("piston/cursor");
    reveal_strlit("piston/update");
    reveal_strlit("piston/render");
    reveal_strlit("piston/after_render");
    reveal_strlit("piston/idle");
    if a != b && a.token() == b.token() {
        // Ids of one length that agree in their eighth character differ in
        // their tenth, or in their fourteenth.
        let s = a.token();
        let t = b.token();
        assert(s[9] == t[9]);
        if s.len() == 19 {
            assert(s[13] == t[13]);
        }
    }
}

/// Each kind is the kind of its own id.
pub proof fn lemma_kind_of_token(k: EventKind)
    ensures
        kind_of(k.token()) == Some(k),
{
    let found = choose|j: EventKind| #[trigger] j.token() == k.token();
    lemma_tokens_distinct(found, k);
}

/// The ids of the kinds share a name space: each begins with `piston/`, and
/// goes on after it.
pub proof fn lemma_tokens_are_namespaced(k: EventKind)
    ensures
        k.token().len() > 7,
        k.token().subrange(0, 7) == "piston/"@,
{
    reveal_strlit("piston/");
    reveal_strlit("piston/press");
    reveal_strlit("piston/release");
    reveal_strlit("piston/mouse_cursor");
    reveal_strlit("piston/mouse_relative");
    reveal_strlit("piston/mouse_scroll");
    reveal_strlit("piston/joystick_axis");
    reveal_strlit("piston/text");
    reveal_strlit("piston/resize");
    reveal_strlit("piston/focus");
    reveal_strlit("piston/cursor");
    reveal_strlit("piston/update");
    reveal_strlit("piston/render");
    reveal_strlit("piston/after_render");
    reveal_strlit("piston/idle");
}

/// An id outside the name space of the kinds is the id of no kind.
pub proof fn lemma_foreign_id(id: Seq<char>)
    requires
        !(id.len() > 7 && id.subrange(0, 7) == "piston/"@),
    ensures
        kind_of(id) is None,
{
    if kind_of(id) is Some {
        lemma_tokens_are_namespaced(kind_of(id).unwrap());
    }
}

impl EventId {
    /// The kind that this id names, if it is the id of one.
    pub fn kind(&self) -> (r: Option<EventKind>)
        ensures
            r == kind_of(self@),
            r matches Some(k) ==> k.token() == self@,
            r is None ==> forall|k: EventKind| #[trigger] k.token() != self@,
    {
        let found = if *self == EventKind::Press.id() {
            Some(EventKind::Press)
        } else if *self == EventKind::Release.id() {
            Some(EventKind::Release)
        } else if *self == EventKind::MouseCursor.id() {
            Some(EventKind::MouseCursor)
        } else if *self == EventKind::MouseRelative.id() {
            Some(EventKind::MouseRelative)
        } else if *self == EventKind::MouseScroll.id() {
            Some(EventKind::MouseScroll)
        } else if *self == EventKind::JoystickAxis.id() {
            Some(EventKind::JoystickAxis)
        } else if *self == EventKind::Text.id() {
            Some(EventKind::Text)
        } else if *self == EventKind::Resize.id() {
            Some(EventKind::Resize)
        } else if *self == EventKind::Focus.id() {
            Some(EventKind::Focus)
        } else if *self == EventKind::Cursor.id() {
            Some(EventKind::Cursor)
        } else if *self == EventKind::Update.id() {
            Some(EventKind::Update)
        } else if *self == EventKind::Render.id() {
            Some(EventKind::Render)
        } else if *self == EventKind::AfterRender.id() {
            Some(EventKind::AfterRender)
        } else if *self == EventKind::Idle.id() {
            Some(EventKind::Idle)
        } else {
            None
        };
        proof {
            if let Some(k) = found {
                lemma_kind_of_token(k);
            }
        }
        found
    }
}

} // verus!
