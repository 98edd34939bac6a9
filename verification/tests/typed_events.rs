use input::{
    AfterRenderArgs, AfterRenderEvent, Button, CursorEvent, Event, EventKind, FocusEvent,
    GenericEvent, IdleArgs, IdleEvent, Input, JoystickAxisArgs, JoystickAxisEvent, JoystickButton,
    Key, Motion, MouseButton, MouseCursorEvent, MouseRelativeEvent, MouseScrollEvent, PressEvent,
    ReleaseEvent, RenderArgs, RenderEvent, ResizeEvent, Scalar, TextEvent, UpdateArgs, UpdateEvent,
};

fn scalar(x: f64) -> Scalar {
    Scalar { bits: x.to_bits() }
}

fn render_args() -> RenderArgs {
    RenderArgs { ext_dt: scalar(0.25), width: 320, height: 200, draw_width: 640, draw_height: 400 }
}

/// Which of the typed getters answer on `e`, in a fixed order.
fn answers<E>(e: &E) -> Vec<EventKind>
where
    E: GenericEvent,
{
    let mut found = Vec::new();
    if e.press_args().is_some() {
        found.push(EventKind::Press);
    }
    if e.release_args().is_some() {
        found.push(EventKind::Release);
    }
    if e.mouse_cursor_args().is_some() {
        found.push(EventKind::MouseCursor);
    }
    if e.mouse_relative_args().is_some() {
        found.push(EventKind::MouseRelative);
    }
    if e.mouse_scroll_args().is_some() {
        found.push(EventKind::MouseScroll);
    }
    if e.joystick_axis_args().is_some() {
        found.push(EventKind::JoystickAxis);
    }
    if e.text_args().is_some() {
        found.push(EventKind::Text);
    }
    if e.resize_args().is_some() {
        found.push(EventKind::Resize);
    }
    if e.focus_args().is_some() {
        found.push(EventKind::Focus);
    }
    if e.cursor_args().is_some() {
        found.push(EventKind::Cursor);
    }
    if e.update_args().is_some() {
        found.push(EventKind::Update);
    }
    if e.render_args().is_some() {
        found.push(EventKind::Render);
    }
    if e.after_render_args().is_some() {
        found.push(EventKind::AfterRender);
    }
    if e.idle_args().is_some() {
        found.push(EventKind::Idle);
    }
    found
}

#[test]
fn press_is_read_back_and_nothing_else() {
    let old = Event::Idle(IdleArgs { dt: scalar(0.0) });
    let button = Button::Keyboard(Key { code: 0x1b });
    let e = Event::from_press(button, &old).unwrap();
    assert_eq!(e, Event::Input(Input::Press(button)));
    assert_eq!(e.press_args(), Some(button));
    assert_eq!(answers(&e), vec![EventKind::Press]);
}

#[test]
fn release_is_read_back_and_nothing_else() {
    let old = Event::Idle(IdleArgs { dt: scalar(0.0) });
    let button = Button::Joystick(JoystickButton { id: 2, button: 11 });
    let e = Event::from_release(button, &old).unwrap();
    assert_eq!(e, Event::Input(Input::Release(button)));
    assert_eq!(e.release_args(), Some(button));
    assert_eq!(answers(&e), vec![EventKind::Release]);
}

#[test]
fn mouse_cursor_is_read_back_and_nothing_else() {
    let old = Event::Idle(IdleArgs { dt: scalar(0.0) });
    let e = Event::from_mouse_cursor(scalar(12.5), scalar(-3.0), &old).unwrap();
    assert_eq!(e, Event::Input(Input::Move(Motion::MouseCursor(scalar(12.5), scalar(-3.0)))));
    assert_eq!(e.mouse_cursor_args(), Some((scalar(12.5), scalar(-3.0))));
    assert_eq!(answers(&e), vec![EventKind::MouseCursor]);
}

#[test]
fn mouse_relative_is_read_back_and_nothing_else() {
    let old = Event::Idle(IdleArgs { dt: scalar(0.0) });
    let e = Event::from_mouse_relative(scalar(-1.0), scalar(1.0), &old).unwrap();
    assert_eq!(e, Event::Input(Input::Move(Motion::MouseRelative(scalar(-1.0), scalar(1.0)))));
    assert_eq!(e.mouse_relative_args(), Some((scalar(-1.0), scalar(1.0))));
    assert_eq!(answers(&e), vec![EventKind::MouseRelative]);
}

#[test]
fn mouse_scroll_is_read_back_and_nothing_else() {
    let old = Event::Idle(IdleArgs { dt: scalar(0.0) });
    let e = Event::from_mouse_scroll(scalar(0.0), scalar(2.0), &old).unwrap();
    assert_eq!(e, Event::Input(Input::Move(Motion::MouseScroll(scalar(0.0), scalar(2.0)))));
    assert_eq!(e.mouse_scroll_args(), Some((scalar(0.0), scalar(2.0))));
    assert_eq!(answers(&e), vec![EventKind::MouseScroll]);
}

#[test]
fn mouse_coordinates_keep_their_bits() {
    let old = Input::Focus(true);
    let x = Scalar { bits: 0x8000_0000_0000_0000 };
    let y = Scalar { bits: 0x0000_0000_0000_0001 };
    let got = Input::from_mouse_cursor(x, y, &old).unwrap().mouse_cursor_args().unwrap();
    assert_eq!(got.0.bits, x.bits);
    assert_eq!(got.1.bits, y.bits);
}

#[test]
fn joystick_axis_is_read_back_and_nothing_else() {
    let old = Event::Idle(IdleArgs { dt: scalar(0.0) });
    let axis = JoystickAxisArgs { id: 1, axis: 0, position: scalar(0.5) };
    let e = Event::from_joystick_axis(axis, &old).unwrap();
    assert_eq!(e, Event::Input(Input::Move(Motion::JoystickAxis(axis))));
    assert_eq!(e.joystick_axis_args(), Some(axis));
    assert_eq!(answers(&e), vec![EventKind::JoystickAxis]);
}

#[test]
fn text_is_read_back_and_nothing_else() {
    let old = Event::Idle(IdleArgs { dt: scalar(0.0) });
    let e = Event::from_text("grüß dich", &old).unwrap();
    assert_eq!(e, Event::Input(Input::Text("grüß dich".to_string())));
    assert_eq!(e.text_args(), Some("grüß dich".to_string()));
    assert_eq!(answers(&e), vec![EventKind::Text]);
    let empty = Event::from_text("", &old).unwrap();
    assert_eq!(empty.text_args(), Some(String::new()));
}

#[test]
fn resize_is_read_back_and_nothing_else() {
    let old = Event::Idle(IdleArgs { dt: scalar(0.0) });
    let e = Event::from_resize(800, 600, &old).unwrap();
    assert_eq!(e, Event::Input(Input::Resize(800, 600)));
    assert_eq!(e.resize_args(), Some((800, 600)));
    assert_eq!(answers(&e), vec![EventKind::Resize]);
    let extreme = Event::from_resize(u32::MAX, 0, &old).unwrap();
    assert_eq!(extreme.resize_args(), Some((u32::MAX, 0)));
}

#[test]
fn focus_is_read_back_and_nothing_else() {
    let old = Event::Idle(IdleArgs { dt: scalar(0.0) });
    for focused in [true, false] {
        let e = Event::from_focus(focused, &old).unwrap();
        assert_eq!(e, Event::Input(Input::Focus(focused)));
        assert_eq!(e.focus_args(), Some(focused));
        assert_eq!(answers(&e), vec![EventKind::Focus]);
    }
}

#[test]
fn cursor_is_read_back_and_nothing_else() {
    let old = Event::Idle(IdleArgs { dt: scalar(0.0) });
    for inside in [true, false] {
        let e = Event::from_cursor(inside, &old).unwrap();
        assert_eq!(e, Event::Input(Input::Cursor(inside)));
        assert_eq!(e.cursor_args(), Some(inside));
        assert_eq!(answers(&e), vec![EventKind::Cursor]);
    }
}

#[test]
fn update_is_read_back_and_nothing_else() {
    let old = Event::Input(Input::Focus(true));
    let args = UpdateArgs { dt: scalar(1.0 / 120.0) };
    let e = Event::from_update(args, &old).unwrap();
    assert_eq!(e, Event::Update(args));
    assert_eq!(e.update_args(), Some(args));
    assert_eq!(answers(&e), vec![EventKind::Update]);
}

#[test]
fn render_is_read_back_and_nothing_else() {
    let old = Event::Input(Input::Focus(true));
    let e = Event::from_render(render_args(), &old).unwrap();
    assert_eq!(e, Event::Render(render_args()));
    assert_eq!(e.render_args(), Some(render_args()));
    assert_eq!(e.render_args().unwrap().draw_width, 640);
    assert_eq!(answers(&e), vec![EventKind::Render]);
}

#[test]
fn after_render_is_read_back_and_nothing_else() {
    let old = Event::Input(Input::Focus(true));
    let e = Event::from_after_render(AfterRenderArgs, &old).unwrap();
    assert_eq!(e, Event::AfterRender(AfterRenderArgs));
    assert_eq!(e.after_render_args(), Some(AfterRenderArgs));
    assert_eq!(answers(&e), vec![EventKind::AfterRender]);
}

#[test]
fn idle_is_read_back_and_nothing_else() {
    let old = Event::Input(Input::Focus(true));
    let args = IdleArgs { dt: scalar(0.002) };
    let e = Event::from_idle(args, &old).unwrap();
    assert_eq!(e, Event::Idle(args));
    assert_eq!(e.idle_args(), Some(args));
    assert_eq!(answers(&e), vec![EventKind::Idle]);
}

#[test]
fn an_input_takes_every_kind_but_the_ticks() {
    let old = Input::Focus(true);
    let button = Button::Mouse(MouseButton::Right);
    let axis = JoystickAxisArgs { id: 0, axis: 1, position: scalar(-1.0) };
    assert_eq!(Input::from_press(button, &old), Some(Input::Press(button)));
    assert_eq!(Input::from_release(button, &old), Some(Input::Release(button)));
    assert_eq!(
        Input::from_mouse_cursor(scalar(1.0), scalar(2.0), &old),
        Some(Input::Move(Motion::MouseCursor(scalar(1.0), scalar(2.0))))
    );
    assert_eq!(
        Input::from_mouse_relative(scalar(1.0), scalar(2.0), &old),
        Some(Input::Move(Motion::MouseRelative(scalar(1.0), scalar(2.0))))
    );
    assert_eq!(
        Input::from_mouse_scroll(scalar(1.0), scalar(2.0), &old),
        Some(Input::Move(Motion::MouseScroll(scalar(1.0), scalar(2.0))))
    );
    assert_eq!(
        Input::from_joystick_axis(axis, &old),
        Some(Input::Move(Motion::JoystickAxis(axis)))
    );
    assert_eq!(Input::from_text("a", &old), Some(Input::Text("a".to_string())));
    assert_eq!(Input::from_resize(1, 2, &old), Some(Input::Resize(1, 2)));
    assert_eq!(Input::from_focus(false, &old), Some(Input::Focus(false)));
    assert_eq!(Input::from_cursor(true, &old), Some(Input::Cursor(true)));
}

#[test]
fn an_input_takes_no_tick() {
    let old = Input::Press(Button::Mouse(MouseButton::Left));
    assert_eq!(Input::from_update(UpdateArgs { dt: scalar(0.1) }, &old), None);
    assert_eq!(Input::from_render(render_args(), &old), None);
    assert_eq!(Input::from_after_render(AfterRenderArgs, &old), None);
    assert_eq!(Input::from_idle(IdleArgs { dt: scalar(0.1) }, &old), None);
}

#[test]
fn getters_of_an_input_answer_for_its_kind_only() {
    let button = Button::Mouse(MouseButton::X1);
    let axis = JoystickAxisArgs { id: 0, axis: 1, position: scalar(-1.0) };
    let cases = vec![
        (Input::Press(button), EventKind::Press),
        (Input::Release(button), EventKind::Release),
        (Input::Move(Motion::MouseCursor(scalar(0.0), scalar(0.0))), EventKind::MouseCursor),
        (Input::Move(Motion::MouseRelative(scalar(0.0), scalar(0.0))), EventKind::MouseRelative),
        (Input::Move(Motion::MouseScroll(scalar(0.0), scalar(0.0))), EventKind::MouseScroll),
        (Input::Move(Motion::JoystickAxis(axis)), EventKind::JoystickAxis),
        (Input::Text("t".to_string()), EventKind::Text),
        (Input::Resize(5, 6), EventKind::Resize),
        (Input::Focus(true), EventKind::Focus),
        (Input::Cursor(false), EventKind::Cursor),
    ];
    for (input, kind) in cases {
        assert_eq!(answers(&input), vec![kind]);
        assert_eq!(answers(&Event::Input(input)), vec![kind]);
    }
}

#[test]
fn press_and_release_are_told_apart() {
    let old = Input::Focus(true);
    let left = Button::Mouse(MouseButton::Left);
    let pressed = Input::from_press(left, &old).unwrap();
    assert_eq!(pressed.press_args(), Some(left));
    assert_eq!(pressed.release_args(), None);
    let released = Input::from_release(left, &old).unwrap();
    assert_eq!(released.release_args(), Some(left));
    assert_eq!(released.press_args(), None);
}

#[test]
fn focus_and_cursor_are_told_apart() {
    let focus = Input::Focus(true);
    assert_eq!(focus.focus_args(), Some(true));
    assert_eq!(focus.cursor_args(), None);
    let cursor = Input::Cursor(true);
    assert_eq!(cursor.cursor_args(), Some(true));
    assert_eq!(cursor.focus_args(), None);
}

#[test]
fn press_then_resize_on_an_input() {
    let old = Input::Focus(false);
    let pressed = Input::from_press(Button::Mouse(MouseButton::Left), &old).unwrap();
    assert_eq!(pressed.press_args(), Some(Button::Mouse(MouseButton::Left)));
    assert_eq!(pressed.resize_args(), None);
    let resized = Input::from_resize(800, 600, &old).unwrap();
    assert_eq!(resized.resize_args(), Some((800, 600)));
}
