//! What events carry.

use crate::after_render::AfterRenderArgs;
use crate::idle::IdleArgs;
use crate::joystick::JoystickAxisArgs;
use crate::kind::{kind_of, EventKind};
use crate::render::RenderArgs;
use crate::scalar::Scalar;
use crate::update::UpdateArgs;
use crate::Button;
use vstd::pervasive::unreached;
use vstd::prelude::*;

verus! {

/// What an event carries, lent out for the time of a query.
///
/// There is one variant for each type of payload; several kinds of event
/// may carry the same type.
#[derive(Copy, Clone, Debug, PartialEq)]
pub enum Args<'a> {
    /// A button: of a press, of a release.
    Button(Button),
    /// Two coordinates: of the cursor, of a relative move, of a scroll.
    Pair(Scalar, Scalar),
    /// The reading of a joystick axis.
    JoystickAxis(JoystickAxisArgs),
    /// Entered text.
    Text(&'a str),
    /// A width and a height: of a resize.
    Size(u32, u32),
    /// Gained or lost: of focus, of the cursor.
    Flag(bool),
    /// The arguments of an update tick.
    Update(UpdateArgs),
    /// The arguments of a render tick.
    Render(RenderArgs),
    /// The arguments of the tick after rendering.
    AfterRender(AfterRenderArgs),
    /// The arguments of an idle tick.
    Idle(IdleArgs),
}

/// The value of a payload: what `Args` holds, with text as its characters.
pub enum ArgsView {
    /// A button.
    Button(Button),
    /// Two coordinates.
    Pair(Scalar, Scalar),
    /// The reading of a joystick axis.
    JoystickAxis(JoystickAxisArgs),
    /// The characters of entered text.
    Text(Seq<char>),
    /// A width and a height.
    Size(u32, u32),
    /// Gained or lost.
    Flag(bool),
    /// The arguments of an update tick.
    Update(UpdateArgs),
    /// The arguments of a render tick.
    Render(RenderArgs),
    /// The arguments of the tick after rendering.
    AfterRender(AfterRenderArgs),
    /// The arguments of an idle tick.
    Idle(IdleArgs),
}

impl<'a> View for Args<'a> {
    type V = ArgsView;

    open spec fn view(&self) -> ArgsView {
        match *self {
            Args::Button(b) => ArgsView::Button(b),
            Args::Pair(x, y) => ArgsView::Pair(x, y),
            Args::JoystickAxis(a) => ArgsView::JoystickAxis(a),
            Args::Text(s) => ArgsView::Text(s@),
            Args::Size(w, h) => ArgsView::Size(w, h),
            Args::Flag(b) => ArgsView::Flag(b),
            Args::Update(a) => ArgsView::Update(a),
            Args::Render(a) => ArgsView::Render(a),
            Args::AfterRender(a) => ArgsView::AfterRender(a),
            Args::Idle(a) => ArgsView::Idle(a),
        }
    }
}

impl EventKind {
    /// Whether `args` has the type of payload that events of this kind carry.
    pub open spec fn takes(self, args: ArgsView) -> bool {
        match self {
            EventKind::Press | EventKind::Release => args is Button,
            EventKind::MouseCursor | EventKind::MouseRelative | EventKind::MouseScroll => {
                args is Pair
            },
            EventKind::JoystickAxis => args is JoystickAxis,
            EventKind::Text => args is Text,
            EventKind::Resize => args is Size,
            EventKind::Focus | EventKind::Cursor => args is Flag,
            EventKind::Update => args is Update,
            EventKind::Render => args is Render,
            EventKind::AfterRender => args is AfterRender,
            EventKind::Idle => args is Idle,
        }
    }
}

/// Whether a payload may stand beside an id: where the id is that of a kind,
/// the payload has the type of that kind. Beside an id of the host's own any
/// payload may stand.
pub open spec fn fits(id: Seq<char>, args: ArgsView) -> bool {
    match kind_of(id) {
        Some(kind) => kind.takes(args),
        None => true,
    }
}

/// The button of a payload that holds one.
pub(crate) fn button_of(args: Args) -> (button: Button)
    requires
        args@ is Button,
    ensures
        args@ == ArgsView::Button(button),
{
    match args {
        Args::Button(button) => button,
        _ => unreached(),
    }
}

/// The two coordinates of a payload that holds a pair.
pub(crate) fn pair_of(args: Args) -> (pair: (Scalar, Scalar))
    requires
        args@ is Pair,
    ensures
        args@ == ArgsView::Pair(pair.0, pair.1),
{
    match args {
        Args::Pair(x, y) => (x, y),
        _ => unreached(),
    }
}

/// The axis reading of a payload that holds one.
pub(crate) fn joystick_axis_of(args: Args) -> (axis: JoystickAxisArgs)
    requires
        args@ is JoystickAxis,
    ensures
        args@ == ArgsView::JoystickAxis(axis),
{
    match args {
        Args::JoystickAxis(axis) => axis,
        _ => unreached(),
    }
}

/// A copy of the text of a payload that holds text.
pub(crate) fn text_of(args: Args) -> (text: String)
    requires
        args@ is Text,
    ensures
        args@ == ArgsView::Text(text@),
{
    match args {
        Args::Text(text) => text.to_owned(),
        _ => unreached(),
    }
}

/// The width and height of a payload that holds a size.
pub(crate) fn size_of(args: Args) -> (size: (u32, u32))
    requires
        args@ is Size,
    ensures
        args@ == ArgsView::Size(size.0, size.1),
{
    match args {
        Args::Size(w, h) => (w, h),
        _ => unreached(),
    }
}

/// The flag of a payload that holds one.
pub(crate) fn flag_of(args: Args) -> (flag: bool)
    requires
        args@ is Flag,
    ensures
        args@ == ArgsView::Flag(flag),
{
    match args {
        Args::Flag(flag) => flag,
        _ => unreached(),
    }
}

/// The update arguments of a payload that holds them.
pub(crate) fn update_of(args: Args) -> (update: UpdateArgs)
    requires
        args@ is Update,
    ensures
        args@ == ArgsView::Update(update),
{
    match args {
        Args::Update(update) => update,
        _ => unreached(),
    }
}

/// The render arguments of a payload that holds them.
pub(crate) fn render_of(args: Args) -> (render: RenderArgs)
    requires
        args@ is Render,
    ensures
        args@ == ArgsView::Render(render),
{
    match args {
        Args::Render(render) => render,
        _ => unreached(),
    }
}

/// The after-render arguments of a payload that holds them.
pub(crate) fn after_render_of(args: Args) -> (after_render: AfterRenderArgs)
    requires
        args@ is AfterRender,
    ensures
        args@ == ArgsView::AfterRender(after_render),
{
    match args {
        Args::AfterRender(after_render) => after_render,
        _ => unreached(),
    }
}

/// The idle arguments of a payload that holds them.
pub(crate) fn idle_of(args: Args) -> (idle: IdleArgs)
    requires
        args@ is Idle,
    ensures
        args@ == ArgsView::Idle(idle),
{
    match args {
        Args::Idle(idle) => idle,
        _ => unreached(),
    }
}

} // verus!
