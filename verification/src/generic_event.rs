//! The capability by which any event type answers typed queries.

use crate::args::{fits, Args, ArgsView};
use crate::kind::{lemma_kind_of_token, lemma_tokens_distinct, EventKind};
use crate::EventId;
use vstd::prelude::*;

verus! {

/// What a query for `kind` reads from an event with this id and payload:
/// the payload where the id is that of `kind`, nothing otherwise.
pub open spec fn carried(id: Seq<char>, args: ArgsView, kind: EventKind) -> Option<ArgsView> {
    if id == kind.token() {
        Some(args)
    } else {
        None
    }
}

/// Implemented by all events.
///
/// An event is modelled by the text of its id (`id`) and the value of its
/// payload (`args`). Whatever else it holds is its context, of which the
/// event type says, by `keeps_context`, when one event has kept what another
/// had.
pub trait GenericEvent: Sized {
    /// The text of the id of this event.
    spec fn id(&self) -> Seq<char>;

    /// The value of the payload of this event.
    spec fn args(&self) -> ArgsView;

    /// Whether events of this type can be made with the id `id`.
    spec fn supports(id: Seq<char>) -> bool;

    /// Whether this event holds, besides its id and payload, what `old` held.
    spec fn keeps_context(&self, old: &Self) -> bool;

    /// The payload of an event has the type that its id asks for.
    proof fn lemma_consistent(&self)
        ensures
            fits(self.id(), self.args()),
    ;

    /// The id of this event.
    fn event_id(&self) -> (r: EventId)
        ensures
            r@ == self.id(),
    ;

    /// Calls `f` on the payload of this event if the event has the id `id`,
    /// and does not call it otherwise.
    fn with_args<U, F: FnOnce(Args) -> U>(&self, id: EventId, f: F) -> (r: Option<U>)
        requires
            self.id() == id@ ==> forall|a: Args| #[trigger] a@ == self.args() ==> f.requires((a,)),
        ensures
            self.id() != id@ ==> r is None,
            self.id() == id@ ==> r is Some && exists|a: Args| #[trigger]
                a@ == self.args() && f.ensures((a,), r->0),
    ;

    /// Makes the event with the id `id` and the payload `args` that keeps
    /// the context of `old`. There is none where this type of event cannot
    /// have that id, or where the payload does not fit the id.
    fn from_args(id: EventId, args: Args, old: &Self) -> (r: Option<Self>)
        ensures
            r is Some <==> Self::supports(id@) && fits(id@, args@),
            r matches Some(e) ==> e.id() == id@ && e.args() == args@ && e.keeps_context(old),
    ;
}

/// Whether `e` is what embedding a payload of a kind into `old` gives: an
/// event of that kind, with that payload, that keeps the context of `old`.
pub open spec fn embedded<E: GenericEvent>(e: E, kind: EventKind, args: ArgsView, old: E) -> bool {
    &&& e.id() == kind.token()
    &&& e.args() == args
    &&& e.keeps_context(&old)
}

/// Reads the payload of `event` through `f` if the event is of kind `kind`.
pub fn extract<E: GenericEvent, U, F: FnOnce(Args) -> U>(
    event: &E,
    kind: EventKind,
    f: F,
) -> (r: Option<U>)
    requires
        forall|a: Args| kind.takes(#[trigger] a@) ==> f.requires((a,)),
    ensures
        r is Some <==> event.id() == kind.token(),
        r matches Some(u) ==> exists|a: Args| #[trigger] a@ == event.args() && f.ensures((a,), u),
{
    proof {
        event.lemma_consistent();
        lemma_kind_of_token(kind);
    }
    event.with_args(kind.id(), f)
}

/// Makes the event of kind `kind` with the payload `args` that keeps the
/// context of `old`, where the type of `old` can hold events of that kind
/// and `args` is what the kind carries.
pub fn embed<E: GenericEvent>(kind: EventKind, args: Args, old: &E) -> (r: Option<E>)
    ensures
        r is Some <==> E::supports(kind.token()) && kind.takes(args@),
        r matches Some(e) ==> embedded(e, kind, args@, *old),
{
    proof {
        lemma_kind_of_token(kind);
    }
    E::from_args(kind.id(), args, old)
}

/// An event that was made for one kind answers a query for that kind with
/// what it was made with, and a query for any other kind with nothing.
pub proof fn lemma_embedded_is_carried<E: GenericEvent>(
    e: E,
    old: E,
    kind: EventKind,
    args: ArgsView,
    other: EventKind,
)
    requires
        embedded(e, kind, args, old),
    ensures
        carried(e.id(), e.args(), kind) == Some(args),
        other != kind ==> carried(e.id(), e.args(), other) is None,
{
    lemma_tokens_distinct(kind, other);
}

} // verus!
