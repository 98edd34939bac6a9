//! An event type that holds ticks of the event loop beside inputs.

use crate::after_render::AfterRenderArgs;
use crate::args::{Args, ArgsView};
use crate::generic_event::GenericEvent;
use crate::idle::IdleArgs;
use crate::kind::{kind_of, lemma_kind_of_token, EventKind};
use crate::render::RenderArgs;
use crate::update::UpdateArgs;
use crate::{EventId, Input};
use vstd::prelude::*;

verus! {

/// Models all events: the ticks of an event loop, and the inputs.
#[derive(Debug, PartialEq)]
pub enum Event {
    /// Render graphics.
    Render(RenderArgs),
    /// After rendering and swapping buffers.
    AfterRender(AfterRenderArgs),
    /// Update the state of the application.
    Update(UpdateArgs),
    /// Do background tasks that can be done incrementally.
    Idle(IdleArgs),
    /// Input event.
    Input(Input),
}

impl Event {
    /// The kind of this event.
    pub open spec fn kind_spec(&self) -> EventKind {
        match self {
            Event::Render(_) => EventKind::Render,
            Event::AfterRender(_) => EventKind::AfterRender,
            Event::Update(_) => EventKind::Update,
            Event::Idle(_) => EventKind::Idle,
            Event::Input(input) => input.kind_spec(),
        }
    }

    /// The value of what this event carries.
    pub open spec fn payload_view(&self) -> ArgsView {
        match self {
            Event::Render(args) => ArgsView::Render(*args),
            Event::AfterRender(args) => ArgsView::AfterRender(*args),
            Event::Update(args) => ArgsView::Update(*args),
            Event::Idle(args) => ArgsView::Idle(*args),
            Event::Input(input) => input.payload_view(),
        }
    }

    /// The kind of this event.
    #[verifier::when_used_as_spec(kind_spec)]
    pub fn kind(&self) -> (r: EventKind)
        ensures
            r == self.kind_spec(),
    {
        match self {
            Event::Render(_) => EventKind::Render,
            Event::AfterRender(_) => EventKind::AfterRender,
            Event::Update(_) => EventKind::Update,
            Event::Idle(_) => EventKind::Idle,
            Event::Input(input) => input.kind(),
        }
    }

    /// What this event carries.
    pub fn payload(&self) -> (r: Args<'_>)
        ensures
            r@ == self.payload_view(),
    {
        match self {
            Event::Render(args) => Args::Render(*args),
            Event::AfterRender(args) => Args::AfterRender(*args),
            Event::Update(args) => Args::Update(*args),
            Event::Idle(args) => Args::Idle(*args),
            Event::Input(input) => input.payload(),
        }
    }

    /// The event of kind `kind` that carries `args`. There is none where
    /// `args` is not what the kind carries.
    pub fn from_kind(kind: EventKind, args: Args) -> (r: Option<Event>)
        ensures
            r is Some <==> kind.takes(args@),
            r matches Some(event) ==> event.kind_spec() == kind && event.payload_view() == args@,
    {
        match (kind, args) {
            (EventKind::Render, Args::Render(render)) => Some(Event::Render(render)),
            (EventKind::AfterRender, Args::AfterRender(after)) => Some(Event::AfterRender(after)),
            (EventKind::Update, Args::Update(update)) => Some(Event::Update(update)),
            (EventKind::Idle, Args::Idle(idle)) => Some(Event::Idle(idle)),
            _ => match Input::from_kind(kind, args) {
                Some(input) => Some(Event::Input(input)),
                None => None,
            },
        }
    }
}

impl Clone for Event {
    /// An event of the same kind that carries the same.
    fn clone(&self) -> (r: Event)
        ensures
            r.kind_spec() == self.kind_spec(),
            r.payload_view() == self.payload_view(),
    {
        match self {
            Event::Render(args) => Event::Render(*args),
            Event::AfterRender(args) => Event::AfterRender(*args),
            Event::Update(args) => Event::Update(*args),
            Event::Idle(args) => Event::Idle(*args),
            Event::Input(input) => Event::Input(input.clone()),
        }
    }
}

impl GenericEvent for Event {
    open spec fn id(&self) -> Seq<char> {
        self.kind_spec().token()
    }

    open spec fn args(&self) -> ArgsView {
        self.payload_view()
    }

    /// An event can be of every kind, and of no other id.
    open spec fn supports(id: Seq<char>) -> bool {
        kind_of(id) is Some
    }

    /// An event holds nothing besides its kind and payload.
    open spec fn keeps_context(&self, old: &Self) -> bool {
        true
    }

    proof fn lemma_consistent(&self) {
        lemma_kind_of_token(self.kind_spec());
    }

    fn event_id(&self) -> (r: EventId) {
        self.kind().id()
    }

    fn with_args<U, F: FnOnce(Args) -> U>(&self, id: EventId, f: F) -> (r: Option<U>) {
        if self.event_id() == id {
            Some(f(self.payload()))
        } else {
            None
        }
    }

    fn from_args(id: EventId, args: Args, old: &Self) -> (r: Option<Self>) {
        match id.kind() {
            Some(kind) => Event::from_kind(kind, args),
            None => None,
        }
    }
}

/// An event is what its kind and its payload say: two events of one kind
/// that carry the same are the same event, or are two texts of the same
/// characters.
pub proof fn lemma_event_is_kind_and_payload(a: Event, b: Event)
    requires
        a.kind_spec() == b.kind_spec(),
        a.payload_view() == b.payload_view(),
    ensures
        match (a, b) {
            (Event::Input(Input::Text(s)), Event::Input(Input::Text(t))) => s@ == t@,
            _ => a == b,
        },
{
}

/// An event can be made of every kind.
pub proof fn lemma_event_supports(kind: EventKind)
    ensures
        Event::supports(kind.token()),
{
    lemma_kind_of_token(kind);
}

} // verus!
