use thunderclap::base::{
    draw_targets, update_targets, ConsumableEvent, DrawCounter, KeyModifiers, MouseButton, Observed,
    ObservedEvent, Visibility, WindowEvent, CLEANUP_PERIOD,
};

fn no_mods() -> KeyModifiers {
    KeyModifiers { shift: false, ctrl: false, alt: false, logo: false }
}

#[test]
fn visibility_default_and_flags() {
    assert_eq!(Visibility::default(), Visibility::Normal);
    assert!(Visibility::Normal.receives_updates() && Visibility::Normal.is_rendered());
    assert!(Visibility::Invisible.receives_updates() && !Visibility::Invisible.is_rendered());
    assert!(!Visibility::Static.receives_updates() && Visibility::Static.is_rendered());
    assert!(!Visibility::Hidden.receives_updates() && !Visibility::Hidden.is_rendered());
}

#[test]
fn consumable_event_is_taken_once() {
    let mut ev = ConsumableEvent::new(5u32);
    assert_eq!(ev.with(|x| *x > 10), None);
    assert_eq!(ev.with(|x| *x == 5), Some(&5));
    assert_eq!(ev.with(|_| true), None);
    assert_eq!(*ev.get(), 5);
}

#[test]
fn update_goes_to_forefront_children_first() {
    let v = vec![
        Visibility::Normal,
        Visibility::Static,
        Visibility::Invisible,
        Visibility::Hidden,
        Visibility::Normal,
    ];
    assert_eq!(update_targets(&v), vec![4, 2, 0]);
    assert_eq!(update_targets(&Vec::new()), Vec::<usize>::new());
    assert_eq!(update_targets(&vec![Visibility::Static, Visibility::Hidden]), Vec::<usize>::new());
}

#[test]
fn draw_counter_cleans_up_every_sixty_frames() {
    assert_eq!(CLEANUP_PERIOD, 60);
    let mut c = DrawCounter::new();
    let mut cleanups = Vec::new();
    for frame in 1..=130u32 {
        if c.frame() {
            cleanups.push(frame);
        }
    }
    assert_eq!(cleanups, vec![61, 121]);
}

#[test]
fn observed_emits_one_event_per_change() {
    let mut o = Observed::new(3i32);
    assert_eq!(o.changes(), 0);
    assert_eq!(*o.get(), 3);
    assert_eq!(o.changes(), 0);
    o.set(4);
    assert_eq!(o.changes(), 1);
    o.set(5);
    assert_eq!(o.take_changes().len(), 2);
    assert_eq!(o.take_changes().len(), 0);
    *o.get_mut() += 1;
    assert_eq!(*o.get(), 6);
    assert_eq!(o.take_changes(), vec![ObservedEvent]);
}

#[test]
fn window_event_keeps_its_data() {
    let ev: WindowEvent<(i32, i32)> =
        WindowEvent::MousePress(ConsumableEvent::new(((1, 2), MouseButton::Left, no_mods())));
    match ev {
        WindowEvent::MousePress(ce) => assert_eq!(ce.get().0, (1, 2)),
        _ => panic!("wrong variant"),
    }
}

#[test]
fn draw_goes_to_rendered_children_back_to_front() {
    let v = vec![
        Visibility::Normal,
        Visibility::Invisible,
        Visibility::Static,
        Visibility::Hidden,
        Visibility::Normal,
    ];
    assert_eq!(draw_targets(&v), vec![0, 2, 4]);
    assert_eq!(draw_targets(&Vec::new()), Vec::<usize>::new());
}
