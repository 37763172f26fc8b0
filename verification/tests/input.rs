use thunderclap::base::{KeyInput, KeyModifiers, MouseButton, WindowEvent};
use thunderclap::input::{convert_mouse_button, translate_event, FrameAction, InputState, SystemEvent, SystemMouseButton};

fn mods(shift: bool) -> KeyModifiers {
    KeyModifiers { shift, ctrl: false, alt: false, logo: false }
}

#[test]
fn mouse_buttons_convert() {
    assert_eq!(convert_mouse_button(SystemMouseButton::Left), MouseButton::Left);
    assert_eq!(convert_mouse_button(SystemMouseButton::Right), MouseButton::Right);
    assert_eq!(convert_mouse_button(SystemMouseButton::Middle), MouseButton::Middle);
    assert_eq!(convert_mouse_button(SystemMouseButton::Other(7)), MouseButton::Left);
}

#[test]
fn mouse_input_clears_focus_then_presses_at_the_cursor() {
    let mut st = InputState { cursor: (0, 0), modifiers: mods(false) };
    let (evs, action, propagate) = translate_event(&mut st, SystemEvent::CursorMoved((4, 5)));
    assert_eq!((action, propagate), (FrameAction::Idle, true));
    assert_eq!(evs.len(), 1);
    assert_eq!(st.cursor, (4, 5));
    let (_, _, _) = translate_event(&mut st, SystemEvent::ModifiersChanged(mods(true)));
    assert_eq!(st.modifiers, mods(true));
    let (evs, _, _) = translate_event(
        &mut st,
        SystemEvent::MouseInput { pressed: true, button: SystemMouseButton::Left },
    );
    assert_eq!(evs.len(), 2);
    assert!(matches!(evs[0], WindowEvent::ClearFocus));
    match &evs[1] {
        WindowEvent::MousePress(c) => assert_eq!(*c.get(), ((4, 5), MouseButton::Left, mods(true))),
        _ => panic!("expected a press"),
    }
    let (evs, _, _) = translate_event(
        &mut st,
        SystemEvent::MouseInput { pressed: false, button: SystemMouseButton::Right },
    );
    match &evs[1] {
        WindowEvent::MouseRelease(c) => assert_eq!(c.get().1, MouseButton::Right),
        _ => panic!("expected a release"),
    }
}

#[test]
fn loop_actions() {
    let mut st = InputState { cursor: (0u32, 0u32), modifiers: mods(false) };
    assert_eq!(translate_event(&mut st, SystemEvent::CloseRequested).1, FrameAction::Exit);
    assert_eq!(translate_event(&mut st, SystemEvent::MainEventsCleared).1, FrameAction::RequestRedraw);
    assert_eq!(translate_event(&mut st, SystemEvent::RedrawRequested).1, FrameAction::Redraw);
    assert_eq!(translate_event(&mut st, SystemEvent::ScaleFactorChanged).1, FrameAction::Rescale);
    assert_eq!(translate_event(&mut st, SystemEvent::Resized).1, FrameAction::Resize);
    let (evs, action, propagate) = translate_event(&mut st, SystemEvent::Other);
    assert!(evs.is_empty() && action == FrameAction::Idle && !propagate);
    let (evs, _, propagate) = translate_event(&mut st, SystemEvent::Focused(true));
    assert!(evs.is_empty() && !propagate);
    let (evs, _, propagate) = translate_event(&mut st, SystemEvent::Focused(false));
    assert!(propagate && evs.len() == 1 && matches!(evs[0], WindowEvent::ClearFocus));
}

#[test]
fn keyboard_and_text_events() {
    let mut st = InputState { cursor: (0u32, 0u32), modifiers: mods(false) };
    let (evs, _, _) = translate_event(&mut st, SystemEvent::ReceivedCharacter('q'));
    match &evs[0] {
        WindowEvent::TextInput(c) => assert_eq!(*c.get(), 'q'),
        _ => panic!("expected text"),
    }
    let (evs, _, _) = translate_event(&mut st, SystemEvent::KeyboardInput { key: Some(KeyInput::Back), pressed: true });
    match &evs[0] {
        WindowEvent::KeyPress(c) => assert_eq!(c.get().0, KeyInput::Back),
        _ => panic!("expected a key press"),
    }
    let (evs, _, _) = translate_event(&mut st, SystemEvent::KeyboardInput { key: Some(KeyInput::A), pressed: false });
    assert!(matches!(evs[0], WindowEvent::KeyRelease(_)));
    let (evs, _, _) = translate_event(&mut st, SystemEvent::KeyboardInput { key: None, pressed: true });
    assert!(evs.is_empty());
}
