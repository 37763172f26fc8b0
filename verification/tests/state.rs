use thunderclap::state::{ButtonType, ControlState, InteractionState, ALL_BITS, FOCUSED_BIT, HOVERED_BIT, PRESSED_BIT};

#[test]
fn flag_constants_are_distinct_bits() {
    assert_eq!(HOVERED_BIT, 1);
    assert_eq!(PRESSED_BIT, 2);
    assert_eq!(FOCUSED_BIT, 4);
    assert_eq!(ALL_BITS, 7);
    assert_eq!(InteractionState::empty().bits(), 0);
    assert_eq!(InteractionState::all().bits(), 7);
    assert_eq!(InteractionState::hovered_flag().bits(), 1);
    assert_eq!(InteractionState::pressed_flag().bits(), 2);
    assert_eq!(InteractionState::focused_flag().bits(), 4);
}

#[test]
fn insert_and_remove_flags() {
    let mut s = InteractionState::empty();
    assert!(s.is_empty());
    s.insert(InteractionState::hovered_flag());
    s.insert(InteractionState::focused_flag());
    assert_eq!(s.bits(), 5);
    assert!(s.contains(InteractionState::hovered_flag()));
    assert!(!s.contains(InteractionState::pressed_flag()));
    assert!(s.contains(InteractionState::empty()));
    s.remove(InteractionState::hovered_flag());
    assert_eq!(s.bits(), 4);
    s.remove(InteractionState::pressed_flag());
    assert_eq!(s.bits(), 4);
    assert!(!s.is_empty());
    assert!(InteractionState::all().contains(s));
}

#[test]
fn from_bits_rejects_unknown_bits() {
    assert_eq!(InteractionState::from_bits(6).map(|s| s.bits()), Some(6));
    assert_eq!(InteractionState::from_bits(8).map(|s| s.bits()), None);
    assert_eq!(InteractionState::from_bits_truncate(0xff).bits(), 7);
    assert_eq!(InteractionState::from_bits_truncate(10).bits(), 2);
}

#[test]
fn control_state_from_widget() {
    let s = InteractionState::pressed_flag();
    assert_eq!(ControlState::from_widget(true, s), ControlState::Disabled);
    assert_eq!(ControlState::from_widget(false, s), ControlState::Normal(s));
    assert_ne!(ButtonType::Primary, ButtonType::Danger);
}
