use thunderclap::base::{ConsumableEvent, KeyInput, KeyModifiers, MouseButton, WindowEvent};
use thunderclap::state::{ControlState, InteractionState};
use thunderclap::text::{InputText, TextArea, TextAreaEvent, TextAreaWidget};
use thunderclap::ui::{basic_interaction, basic_interaction_all, Align, CoreWidget, InteractionEvent, ToggledEvent};
use thunderclap::widgets::{ButtonEvent, ButtonWidget, Checkbox, CheckboxEvent, CheckboxWidget};

type Pos = (i32, i32);

fn mods() -> KeyModifiers {
    KeyModifiers { shift: false, ctrl: false, alt: false, logo: false }
}

fn press(p: Pos) -> WindowEvent<Pos> {
    WindowEvent::MousePress(ConsumableEvent::new((p, MouseButton::Left, mods())))
}

fn right_press(p: Pos) -> WindowEvent<Pos> {
    WindowEvent::MousePress(ConsumableEvent::new((p, MouseButton::Right, mods())))
}

fn release(p: Pos) -> WindowEvent<Pos> {
    WindowEvent::MouseRelease(ConsumableEvent::new((p, MouseButton::Left, mods())))
}

fn moved(p: Pos) -> WindowEvent<Pos> {
    WindowEvent::MouseMove(ConsumableEvent::new((p, mods())))
}

fn typed(c: char) -> WindowEvent<Pos> {
    WindowEvent::TextInput(ConsumableEvent::new(c))
}

fn key(k: KeyInput) -> WindowEvent<Pos> {
    WindowEvent::KeyPress(ConsumableEvent::new((k, mods())))
}

/// Whether the consumable data of a window event is still there to be taken.
fn is_fresh(e: &mut WindowEvent<Pos>) -> bool {
    match e {
        WindowEvent::MousePress(c) | WindowEvent::MouseRelease(c) => c.with(|_| true).is_some(),
        WindowEvent::MouseMove(c) => c.with(|_| true).is_some(),
        WindowEvent::TextInput(c) => c.with(|_| true).is_some(),
        WindowEvent::KeyPress(c) | WindowEvent::KeyRelease(c) => c.with(|_| true).is_some(),
        WindowEvent::ClearFocus => true,
    }
}

#[test]
fn toggled_event_accessors() {
    let mut e = ToggledEvent::new(true, 3u8);
    assert!(e.is_start());
    assert_eq!(*e.data(), 3);
    *e.data_mut() = 4;
    assert_eq!(e, ToggledEvent::Start(4));
    let s = ToggledEvent::new(false, 9u8);
    assert!(!s.is_start());
    assert_eq!(s.into_data(), 9);
    assert_eq!(Align::default(), Align::Begin);
}

#[test]
fn press_inside_presses_and_consumes() {
    let mut s = InteractionState::empty();
    let mut e = press((1, 1));
    let out = basic_interaction(&mut s, false, &mut e, true);
    assert_eq!(out, vec![InteractionEvent::Pressed((1, 1))]);
    assert_eq!(s.bits(), 2);
    assert!(!is_fresh(&mut e));
}

#[test]
fn press_outside_or_disabled_or_right_is_ignored() {
    let mut s = InteractionState::empty();
    let mut e = press((1, 1));
    assert_eq!(basic_interaction(&mut s, false, &mut e, false), vec![]);
    assert!(is_fresh(&mut e));
    let mut e = press((1, 1));
    assert_eq!(basic_interaction(&mut s, true, &mut e, true), vec![]);
    assert!(is_fresh(&mut e));
    let mut e = right_press((1, 1));
    assert_eq!(basic_interaction(&mut s, false, &mut e, true), vec![]);
    assert_eq!(s.bits(), 0);
}

#[test]
fn consumed_press_does_not_reach_the_widget_behind() {
    let mut front = InteractionState::empty();
    let mut back = InteractionState::empty();
    let mut e = press((3, 3));
    assert_eq!(basic_interaction(&mut front, false, &mut e, true).len(), 1);
    assert_eq!(basic_interaction(&mut back, false, &mut e, true), vec![]);
    assert_eq!(back.bits(), 0);
}

#[test]
fn release_gives_focus_once_and_clear_focus_blurs() {
    let mut s = InteractionState::pressed_flag();
    let mut e = release((2, 2));
    assert_eq!(
        basic_interaction(&mut s, false, &mut e, false),
        vec![InteractionEvent::Released((2, 2)), InteractionEvent::Focus]
    );
    assert_eq!(s.bits(), 4);
    s.insert(InteractionState::pressed_flag());
    let mut e = release((2, 2));
    assert_eq!(basic_interaction(&mut s, false, &mut e, true), vec![InteractionEvent::Released((2, 2))]);
    let mut e: WindowEvent<Pos> = WindowEvent::ClearFocus;
    assert_eq!(basic_interaction(&mut s, false, &mut e, false), vec![InteractionEvent::Blur]);
    assert_eq!(s.bits(), 0);
    assert_eq!(basic_interaction(&mut s, false, &mut e, false), vec![]);
}

#[test]
fn hover_begins_and_ends() {
    let mut s = InteractionState::empty();
    let mut e = moved((5, 5));
    assert_eq!(basic_interaction(&mut s, false, &mut e, true), vec![InteractionEvent::BeginHover((5, 5))]);
    let mut e = moved((6, 6));
    assert_eq!(basic_interaction(&mut s, false, &mut e, true), vec![]);
    assert!(!is_fresh(&mut e));
    let mut e = moved((50, 50));
    assert_eq!(basic_interaction(&mut s, false, &mut e, false), vec![InteractionEvent::EndHover((50, 50))]);
    assert!(is_fresh(&mut e));
    assert_eq!(s.bits(), 0);
}

#[test]
fn batch_interaction_runs_in_order() {
    let mut s = InteractionState::empty();
    let mut evs = vec![moved((1, 1)), press((1, 1)), release((1, 1)), moved((9, 9))];
    let inside = vec![true, true, true, false];
    let out = basic_interaction_all(&mut s, false, &mut evs, &inside);
    assert_eq!(
        out,
        vec![
            InteractionEvent::BeginHover((1, 1)),
            InteractionEvent::Pressed((1, 1)),
            InteractionEvent::Released((1, 1)),
            InteractionEvent::Focus,
            InteractionEvent::EndHover((9, 9)),
        ]
    );
    assert_eq!(s.bits(), 4);
    assert!(!is_fresh(&mut evs[0]));
    assert!(!is_fresh(&mut evs[1]));
    assert!(!is_fresh(&mut evs[2]));
    assert!(is_fresh(&mut evs[3]));
}

#[test]
fn button_click_emits_press_release_focus() {
    let mut b = ButtonWidget::new(false);
    let mut evs = vec![moved((1, 1)), press((1, 1)), release((1, 1))];
    let out = b.update(&mut evs, &vec![true, true, true]);
    assert_eq!(
        out,
        vec![
            ButtonEvent::BeginHover((1, 1)),
            ButtonEvent::Press((1, 1)),
            ButtonEvent::Release((1, 1)),
            ButtonEvent::Focus,
        ]
    );
    assert_eq!(b.derive_state(), ControlState::Normal(b.interaction));
    let mut evs: Vec<WindowEvent<Pos>> = vec![WindowEvent::ClearFocus];
    assert_eq!(b.update(&mut evs, &vec![false]), vec![ButtonEvent::Blur]);
    assert_eq!(b.on_interaction_event(InteractionEvent::<Pos>::Focus), ButtonEvent::Focus);
}

#[test]
fn disabled_button_ignores_clicks() {
    let mut b = ButtonWidget::new(true);
    let mut evs = vec![press((1, 1)), release((1, 1))];
    assert_eq!(b.update(&mut evs, &vec![true, true]), vec![]);
    assert_eq!(b.derive_state(), ControlState::Disabled);
    assert!(is_fresh(&mut evs[0]));
}

#[test]
fn checkbox_toggles_on_each_release() {
    let mut c = CheckboxWidget::new(Checkbox { checked: false, disabled: false });
    let mut evs = vec![press((1, 1)), release((1, 1))];
    assert_eq!(
        c.update(&mut evs, &vec![true, true]),
        vec![
            CheckboxEvent::Press((1, 1)),
            CheckboxEvent::Check((1, 1)),
            CheckboxEvent::Release((1, 1)),
            CheckboxEvent::Focus,
        ]
    );
    assert!(c.data.checked);
    let mut evs = vec![press((2, 2)), release((2, 2))];
    assert_eq!(
        c.update(&mut evs, &vec![true, false]),
        vec![CheckboxEvent::Press((2, 2)), CheckboxEvent::Uncheck((2, 2)), CheckboxEvent::Release((2, 2))]
    );
    assert!(!c.data.checked);
    assert_eq!(c.on_interaction_event(InteractionEvent::<Pos>::Blur), vec![CheckboxEvent::Blur]);
    assert!(!c.data.checked);
}

fn area(text: &str, cursor: usize) -> TextAreaWidget {
    let mut data = TextArea::new();
    data.text = text.to_string();
    data.cursor = cursor;
    TextAreaWidget::new(data)
}

#[test]
fn text_area_edits_at_the_cursor() {
    let mut t = area("ac", 1);
    t.push_char('b');
    assert_eq!(t.data.text, "abc");
    assert_eq!(t.data.cursor, 2);
    t.remove_char();
    assert_eq!(t.data.text, "ac");
    assert_eq!(t.data.cursor, 1);
    t.move_cursor(1);
    assert_eq!(t.data.cursor, 2);
    t.move_cursor(1);
    assert_eq!(t.data.cursor, 2);
    t.move_cursor(-3);
    assert_eq!(t.data.cursor, 2);
    t.move_cursor(-2);
    assert_eq!(t.data.cursor, 0);
    t.remove_char();
    assert_eq!(t.data.text, "ac");
    assert_eq!(t.data.cursor, 0);
}

#[test]
fn text_area_shows_placeholder_while_empty() {
    let mut data = TextArea::new();
    data.placeholder = "type here".to_string();
    assert_eq!(data.displayed_text(), InputText::Placeholder("type here".to_string()));
    data.text = "hi".to_string();
    assert_eq!(data.displayed_text(), InputText::Normal("hi".to_string()));
}

#[test]
fn text_area_types_only_while_focused() {
    let mut t = area("", 0);
    let mut evs = vec![typed('x')];
    assert_eq!(t.update(&mut evs, &vec![false]), vec![]);
    assert_eq!(t.data.text, "");
    assert!(is_fresh(&mut evs[0]));

    let mut evs = vec![
        press((1, 1)),
        release((1, 1)),
        typed('a'),
        typed('b'),
        key(KeyInput::Back),
        key(KeyInput::Left),
        typed('c'),
        typed('\u{7}'),
    ];
    let inside = vec![true; evs.len()];
    let out = t.update(&mut evs, &inside);
    assert_eq!(
        out,
        vec![
            TextAreaEvent::Focus,
            TextAreaEvent::UserModify("a".to_string()),
            TextAreaEvent::UserModify("ab".to_string()),
            TextAreaEvent::UserModify("a".to_string()),
            TextAreaEvent::UserModify("ca".to_string()),
        ]
    );
    assert_eq!(t.data.text, "ca");
    assert_eq!(t.data.cursor, 1);
    for e in evs.iter_mut() {
        assert!(!is_fresh(e));
    }

    let mut evs: Vec<WindowEvent<Pos>> = vec![WindowEvent::ClearFocus, typed('z')];
    assert_eq!(t.update(&mut evs, &vec![false, false]), vec![TextAreaEvent::Blur]);
    assert_eq!(t.data.text, "ca");
}

#[test]
fn text_area_focus_events_only() {
    let t = area("", 0);
    assert_eq!(t.on_interaction_event(InteractionEvent::<Pos>::Focus), Some(TextAreaEvent::Focus));
    assert_eq!(t.on_interaction_event(InteractionEvent::Pressed((0, 0))), None);
}

#[test]
fn toggled_pairs_stay_in_order_across_updates() {
    let mut b = ButtonWidget::new(false);
    let mut all = Vec::new();
    let batches: Vec<(Vec<WindowEvent<Pos>>, Vec<bool>)> = vec![
        (vec![release((0, 0)), moved((9, 9))], vec![true, false]),
        (vec![moved((1, 1)), press((1, 1))], vec![true, true]),
        (vec![WindowEvent::ClearFocus, release((1, 1)), moved((9, 9))], vec![false, true, false]),
        (vec![WindowEvent::ClearFocus, WindowEvent::ClearFocus], vec![false, false]),
    ];
    for (mut evs, inside) in batches {
        all.extend(b.update(&mut evs, &inside));
    }
    assert_eq!(
        all,
        vec![
            ButtonEvent::BeginHover((1, 1)),
            ButtonEvent::Press((1, 1)),
            ButtonEvent::Release((1, 1)),
            ButtonEvent::Focus,
            ButtonEvent::EndHover((9, 9)),
            ButtonEvent::Blur,
        ]
    );
}
