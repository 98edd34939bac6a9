use input::{EventId, EventKind};

fn all_kinds() -> [EventKind; 14] {
    [
        EventKind::Press,
        EventKind::Release,
        EventKind::MouseCursor,
        EventKind::MouseRelative,
        EventKind::MouseScroll,
        EventKind::JoystickAxis,
        EventKind::Text,
        EventKind::Resize,
        EventKind::Focus,
        EventKind::Cursor,
        EventKind::Update,
        EventKind::Render,
        EventKind::AfterRender,
        EventKind::Idle,
    ]
}

fn leaked(text: &str) -> &'static str {
    Box::leak(text.to_string().into_boxed_str())
}

#[test]
fn each_kind_has_its_id() {
    assert_eq!(EventKind::Press.id().0, "piston/press");
    assert_eq!(EventKind::Release.id().0, "piston/release");
    assert_eq!(EventKind::MouseCursor.id().0, "piston/mouse_cursor");
    assert_eq!(EventKind::MouseRelative.id().0, "piston/mouse_relative");
    assert_eq!(EventKind::MouseScroll.id().0, "piston/mouse_scroll");
    assert_eq!(EventKind::JoystickAxis.id().0, "piston/joystick_axis");
    assert_eq!(EventKind::Text.id().0, "piston/text");
    assert_eq!(EventKind::Resize.id().0, "piston/resize");
    assert_eq!(EventKind::Focus.id().0, "piston/focus");
    assert_eq!(EventKind::Cursor.id().0, "piston/cursor");
    assert_eq!(EventKind::Update.id().0, "piston/update");
    assert_eq!(EventKind::Render.id().0, "piston/render");
    assert_eq!(EventKind::AfterRender.id().0, "piston/after_render");
    assert_eq!(EventKind::Idle.id().0, "piston/idle");
}

#[test]
fn ids_of_different_kinds_differ() {
    for a in all_kinds() {
        for b in all_kinds() {
            assert_eq!(a.id() == b.id(), a == b, "{:?} and {:?}", a, b);
        }
    }
}

#[test]
fn an_id_is_its_text_wherever_it_is_stored() {
    let here = EventId("piston/resize");
    let there = EventId(leaked("piston/resize"));
    assert!(!std::ptr::eq(here.0.as_ptr(), there.0.as_ptr()));
    assert_eq!(here, there);
    assert_eq!(there, EventKind::Resize.id());
}

#[test]
fn ids_with_other_text_are_other_ids() {
    let press = EventKind::Press.id();
    assert_ne!(press, EventId("piston/pres"));
    assert_ne!(press, EventId("piston/press "));
    assert_ne!(press, EventId("Piston/press"));
    assert_ne!(press, EventId("piston/presz"));
    assert_ne!(press, EventId(""));
    assert_ne!(EventId("a"), EventId("b"));
    assert_eq!(EventId(""), EventId(""));
    assert_ne!(EventId("é"), EventId("e\u{301}"));
    assert_eq!(EventId("caf\u{e9}"), EventId(leaked("café")));
}

#[test]
fn each_id_names_its_kind() {
    for kind in all_kinds() {
        assert_eq!(kind.id().kind(), Some(kind));
        assert_eq!(EventId(leaked(kind.id().0)).kind(), Some(kind));
    }
}

#[test]
fn other_ids_name_no_kind() {
    assert_eq!(EventId("").kind(), None);
    assert_eq!(EventId("piston").kind(), None);
    assert_eq!(EventId("piston/").kind(), None);
    assert_eq!(EventId("piston/Press").kind(), None);
    assert_eq!(EventId("piston/press\n").kind(), None);
    assert_eq!(EventId("piston/custom").kind(), None);
    assert_eq!(EventId("host/tick").kind(), None);
    assert_eq!(EventId("press").kind(), None);
}

#[test]
fn an_id_can_be_copied_and_shown() {
    let id = EventKind::Focus.id();
    let copy = id;
    assert_eq!(id, copy);
    assert_eq!(format!("{:?}", id), "EventId(\"piston/focus\")");
}
