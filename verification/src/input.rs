//! The application's event loop decisions: which window events an input from the windowing
//! system produces, and what the loop does next.

use vstd::prelude::*;

use crate::base::{ConsumableEvent, KeyInput, KeyModifiers, MouseButton, WindowEvent};

verus! {

/// A mouse button as the windowing system reports it.
#[derive(Debug, Clone, Copy, PartialEq, Eq, Structural)]
pub enum SystemMouseButton {
    Left,
    Right,
    Middle,
    Other(u16),
}

/// An event of the windowing system's event loop, with positions already in logical units.
#[derive(Debug, Clone, Copy, PartialEq)]
pub enum SystemEvent<P> {
    /// All pending events have been processed.
    MainEventsCleared,
    /// The window must be redrawn.
    RedrawRequested,
    /// The user asked to close the window.
    CloseRequested,
    /// The DPI scale factor of the window changed.
    ScaleFactorChanged,
    /// The window was resized.
    Resized,
    /// The held modifier keys changed.
    ModifiersChanged(KeyModifiers),
    /// The cursor moved to a position.
    CursorMoved(P),
    /// A mouse button was pressed (`pressed`) or released.
    MouseInput { pressed: bool, button: SystemMouseButton },
    /// A character was typed.
    ReceivedCharacter(char),
    /// A key was pressed (`pressed`) or released; `key` is `None` for keys without a code.
    KeyboardInput { key: Option<KeyInput>, pressed: bool },
    /// The window gained (`true`) or lost (`false`) focus.
    Focused(bool),
    /// Any other event.
    Other,
}

/// What the event loop does with the display after an event.
#[derive(Debug, Clone, Copy, PartialEq, Eq, Structural)]
pub enum FrameAction {
    /// Nothing.
    Idle,
    /// Ask the window for a redraw.
    RequestRedraw,
    /// Draw the root widget and present the frame.
    Redraw,
    /// Adopt the new scale factor and window size, and repaint the background.
    Rescale,
    /// Adopt the new window size.
    Resize,
    /// Leave the event loop.
    Exit,
}

/// The input state the event loop keeps between events.
#[derive(Debug, Clone, Copy)]
pub struct InputState<P> {
    /// Last known cursor position.
    pub cursor: P,
    /// Modifier keys currently held.
    pub modifiers: KeyModifiers,
}

/// The mouse button the toolkit sees for a system mouse button (unknown buttons count as left).
pub open spec fn spec_mouse_button(button: SystemMouseButton) -> MouseButton {
    match button {
        SystemMouseButton::Left => MouseButton::Left,
        SystemMouseButton::Middle => MouseButton::Middle,
        SystemMouseButton::Right => MouseButton::Right,
        SystemMouseButton::Other(_) => MouseButton::Left,
    }
}

/// Converts a system mouse button (unknown buttons count as left).
pub fn convert_mouse_button(button: SystemMouseButton) -> (r: MouseButton)
    ensures
        r == spec_mouse_button(button),
{
    match button {
        SystemMouseButton::Left => MouseButton::Left,
        SystemMouseButton::Middle => MouseButton::Middle,
        SystemMouseButton::Right => MouseButton::Right,
        SystemMouseButton::Other(_) => MouseButton::Left,
    }
}

/// A summary of a window event (its kind and what it carries), for contracts.
pub enum WindowEventView<P> {
    MousePress(P, MouseButton, KeyModifiers),
    MouseRelease(P, MouseButton, KeyModifiers),
    MouseMove(P, KeyModifiers),
    TextInput(char),
    KeyPress(KeyInput, KeyModifiers),
    KeyRelease(KeyInput, KeyModifiers),
    ClearFocus,
}

/// What a window event carries, and that it is fresh (not consumed).
pub open spec fn fresh_view<P>(e: WindowEvent<P>) -> Option<WindowEventView<P>> {
    match e {
        WindowEvent::MousePress(c) => if c.spec_fresh() {
            Some(WindowEventView::MousePress(c.spec_data().0, c.spec_data().1, c.spec_data().2))
        } else {
            None
        },
        WindowEvent::MouseRelease(c) => if c.spec_fresh() {
            Some(WindowEventView::MouseRelease(c.spec_data().0, c.spec_data().1, c.spec_data().2))
        } else {
            None
        },
        WindowEvent::MouseMove(c) => if c.spec_fresh() {
            Some(WindowEventView::MouseMove(c.spec_data().0, c.spec_data().1))
        } else {
            None
        },
        WindowEvent::TextInput(c) => if c.spec_fresh() {
            Some(WindowEventView::TextInput(c.spec_data()))
        } else {
            None
        },
        WindowEvent::KeyPress(c) => if c.spec_fresh() {
            Some(WindowEventView::KeyPress(c.spec_data().0, c.spec_data().1))
        } else {
            None
        },
        WindowEvent::KeyRelease(c) => if c.spec_fresh() {
            Some(WindowEventView::KeyRelease(c.spec_data().0, c.spec_data().1))
        } else {
            None
        },
        WindowEvent::ClearFocus => Some(WindowEventView::ClearFocus),
    }
}

/// What the event loop does for one system event: the new input state, the (fresh) window
/// events emitted to the widgets, what happens to the display, and whether the user callback
/// and the root widget's update run afterwards.
pub open spec fn spec_translate<P>(state: InputState<P>, event: SystemEvent<P>) -> (
    InputState<P>,
    Seq<WindowEventView<P>>,
    FrameAction,
    bool,
) {
    match event {
        SystemEvent::MainEventsCleared => (state, seq![], FrameAction::RequestRedraw, true),
        SystemEvent::RedrawRequested => (state, seq![], FrameAction::Redraw, true),
        SystemEvent::CloseRequested => (state, seq![], FrameAction::Exit, true),
        SystemEvent::ScaleFactorChanged => (state, seq![], FrameAction::Rescale, true),
        SystemEvent::Resized => (state, seq![], FrameAction::Resize, true),
        SystemEvent::ModifiersChanged(m) => (
            InputState { modifiers: m, ..state },
            seq![],
            FrameAction::Idle,
            true,
        ),
        SystemEvent::CursorMoved(p) => (
            InputState { cursor: p, ..state },
            seq![WindowEventView::MouseMove(p, state.modifiers)],
            FrameAction::Idle,
            true,
        ),
        SystemEvent::MouseInput { pressed, button } => {
            let b = spec_mouse_button(button);
            (
                state,
                seq![
                    WindowEventView::ClearFocus,
                    if pressed {
                        WindowEventView::MousePress(state.cursor, b, state.modifiers)
                    } else {
                        WindowEventView::MouseRelease(state.cursor, b, state.modifiers)
                    },
                ],
                FrameAction::Idle,
                true,
            )
        },
        SystemEvent::ReceivedCharacter(c) => (
            state,
            seq![WindowEventView::TextInput(c)],
            FrameAction::Idle,
            true,
        ),
        SystemEvent::KeyboardInput { key, pressed } => (
            state,
            match key {
                Some(k) => if pressed {
                    seq![WindowEventView::KeyPress(k, state.modifiers)]
                } else {
                    seq![WindowEventView::KeyRelease(k, state.modifiers)]
                },
                None => seq![],
            },
            FrameAction::Idle,
            true,
        ),
        SystemEvent::Focused(focused) => if focused {
            (state, seq![], FrameAction::Idle, false)
        } else {
            (state, seq![WindowEventView::ClearFocus], FrameAction::Idle, true)
        },
        SystemEvent::Other => (state, seq![], FrameAction::Idle, false),
    }
}

/// The event loop's decisions for one system event (see `spec_translate`): mouse input first
/// clears focus, then reports the press or release at the last cursor position; losing window
/// focus clears focus; the cursor and modifiers are remembered for later events.
pub fn translate_event<P: Copy>(state: &mut InputState<P>, event: SystemEvent<P>) -> (r: (
    Vec<WindowEvent<P>>,
    FrameAction,
    bool,
))
    ensures
        ({
            let (s, evs, action, propagate) = spec_translate(*old(state), event);
            &&& *final(state) == s
            &&& r.0@.len() == evs.len()
            &&& forall|i: int| 0 <= i < evs.len() ==> fresh_view(#[trigger] r.0@[i]) == Some(evs[i])
            &&& r.1 == action
            &&& r.2 == propagate
        }),
{
    let mut out: Vec<WindowEvent<P>> = Vec::new();
    let (action, propagate) = match event {
        SystemEvent::MainEventsCleared => (FrameAction::RequestRedraw, true),
        SystemEvent::RedrawRequested => (FrameAction::Redraw, true),
        SystemEvent::CloseRequested => (FrameAction::Exit, true),
        SystemEvent::ScaleFactorChanged => (FrameAction::Rescale, true),
        SystemEvent::Resized => (FrameAction::Resize, true),
        SystemEvent::ModifiersChanged(m) => {
            state.modifiers = m;
            (FrameAction::Idle, true)
        },
        SystemEvent::CursorMoved(p) => {
            state.cursor = p;
            out.push(WindowEvent::MouseMove(ConsumableEvent::new((p, state.modifiers))));
            (FrameAction::Idle, true)
        },
        SystemEvent::MouseInput { pressed, button } => {
            let b = convert_mouse_button(button);
            out.push(WindowEvent::ClearFocus);
            if pressed {
                out.push(
                    WindowEvent::MousePress(ConsumableEvent::new((state.cursor, b, state.modifiers))),
                );
            } else {
                out.push(
                    WindowEvent::MouseRelease(
                        ConsumableEvent::new((state.cursor, b, state.modifiers)),
                    ),
                );
            }
            (FrameAction::Idle, true)
        },
        SystemEvent::ReceivedCharacter(c) => {
            out.push(WindowEvent::TextInput(ConsumableEvent::new(c)));
            (FrameAction::Idle, true)
        },
        SystemEvent::KeyboardInput { key, pressed } => {
            match key {
                Some(k) => {
                    if pressed {
                        out.push(WindowEvent::KeyPress(ConsumableEvent::new((k, state.modifiers))));
                    } else {
                        out.push(
                            WindowEvent::KeyRelease(ConsumableEvent::new((k, state.modifiers))),
                        );
                    }
                },
                None => {},
            }
            (FrameAction::Idle, true)
        },
        SystemEvent::Focused(focused) => {
            if focused {
                (FrameAction::Idle, false)
            } else {
                out.push(WindowEvent::ClearFocus);
                (FrameAction::Idle, true)
            }
        },
        SystemEvent::Other => (FrameAction::Idle, false),
    };
    (out, action, propagate)
}

} // verus!

verus! {

/// Every mouse press or release reaches the widgets right after a `ClearFocus`, at the last
/// cursor position, with the modifiers held at the time; only mouse input and losing window
/// focus clear focus; closing the window exits the loop.
pub proof fn lemma_mouse_input_clears_focus_first<P>(state: InputState<P>, event: SystemEvent<P>)
    ensures
        ({
            let (s, evs, action, propagate) = spec_translate(state, event);
            &&& forall|i: int|
                0 <= i < evs.len() && ((#[trigger] evs[i]) is MousePress || evs[i] is MouseRelease) ==> {
                    &&& i == 1
                    &&& evs[0] is ClearFocus
                }
            &&& forall|i: int|
                0 <= i < evs.len() && #[trigger] evs[i] is MousePress ==> evs[i]
                    == WindowEventView::MousePress(
                    state.cursor,
                    evs[i]->MousePress_1,
                    state.modifiers,
                )
            &&& (exists|i: int| 0 <= i < evs.len() && #[trigger] evs[i] is ClearFocus) ==> (
            event is MouseInput || event == SystemEvent::<P>::Focused(false))
            &&& (action == FrameAction::Exit <==> event is CloseRequested)
        }),
{
}

/// Mouse events reach the widgets at the cursor as it stands after the event that produced
/// them, with the modifiers held then: a cursor move goes to the position moved to (which the
/// loop remembers), and a button press or release to the last position the cursor moved to.
/// Typed characters and key presses carry what was typed or pressed.
pub proof fn lemma_mouse_events_at_cursor<P>(state: InputState<P>, event: SystemEvent<P>)
    ensures
        ({
            let (s, evs, _, _) = spec_translate(state, event);
            &&& forall|i: int| 0 <= i < evs.len() ==> match #[trigger] evs[i] {
                WindowEventView::MouseMove(p, m) => p == s.cursor && m == s.modifiers,
                WindowEventView::MousePress(p, _, m) => p == s.cursor && m == s.modifiers,
                WindowEventView::MouseRelease(p, _, m) => p == s.cursor && m == s.modifiers,
                _ => true,
            }
            &&& event matches SystemEvent::CursorMoved(p) ==> (s.cursor == p && evs.len() == 1
                && evs[0] is MouseMove)
            &&& !(event is CursorMoved) ==> s.cursor == state.cursor
            &&& event matches SystemEvent::ReceivedCharacter(c) ==> evs == seq![WindowEventView::<P>::TextInput(c)]
            &&& event matches SystemEvent::KeyboardInput { key: Some(k), pressed } ==> (evs.len() == 1
                && (pressed ==> (evs[0] matches WindowEventView::KeyPress(kk, _) && kk == k))
                && (!pressed ==> (evs[0] matches WindowEventView::KeyRelease(kk, _) && kk == k)))
        }),
{
}

} // verus!
