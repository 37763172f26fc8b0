use thunderclap::themes::{recolor_icon, recolor_pixels, IconImage};

#[test]
fn recolor_replaces_matching_pixels_and_keeps_alpha() {
    let mut buf = vec![1, 2, 3, 200, 9, 9, 9, 255, 1, 2, 3, 0, 1, 2, 3, 7];
    recolor_pixels(&mut buf, 12, (1, 2, 3), (40, 50, 60));
    assert_eq!(buf, vec![40, 50, 60, 200, 9, 9, 9, 255, 40, 50, 60, 0, 1, 2, 3, 7]);
}

#[test]
fn recolor_to_the_same_color_changes_nothing() {
    let mut buf = vec![1, 2, 3, 4, 5, 6, 7, 8];
    recolor_pixels(&mut buf, 8, (1, 2, 3), (1, 2, 3));
    assert_eq!(buf, vec![1, 2, 3, 4, 5, 6, 7, 8]);
}

#[test]
fn recolor_icon_through_the_image_buffer() {
    let raw = vec![0, 0, 0, 255, 10, 20, 30, 128, 0, 0, 0, 1, 0, 0, 0, 0];
    let mut icon = IconImage::from_raw(2, 2, raw).unwrap();
    assert_eq!(icon.width(), 2);
    assert_eq!(icon.height(), 2);
    recolor_icon(&mut icon, (0, 0, 0), (255, 0, 0));
    assert_eq!(icon.width(), 2);
    assert_eq!(icon.height(), 2);
    assert_eq!(
        icon.into_raw(),
        vec![255, 0, 0, 255, 10, 20, 30, 128, 255, 0, 0, 1, 255, 0, 0, 0]
    );
}

#[test]
fn image_from_a_short_buffer_is_refused() {
    assert!(IconImage::from_raw(2, 2, vec![0; 15]).is_none());
    assert!(IconImage::from_raw(1, 1, vec![0; 4]).is_some());
    let blank = IconImage::blank();
    assert_eq!((blank.width(), blank.height()), (0, 0));
    assert_eq!(blank.into_raw(), Vec::<u8>::new());
}

use thunderclap::state::{ButtonType, ControlState, InteractionState};
use thunderclap::themes::{primer_button_style, PrimerFill, Rgba};

fn c(red: u8, green: u8, blue: u8, alpha_percent: u8) -> Rgba {
    Rgba { red, green, blue, alpha_percent }
}

#[test]
fn primer_normal_button_palette() {
    let idle = primer_button_style(ButtonType::Normal, ControlState::Normal(InteractionState::empty()));
    assert_eq!(idle.background, PrimerFill::Gradient { top: c(250, 251, 252, 100), bottom: c(239, 243, 246, 100) });
    assert_eq!(idle.border, c(27, 31, 35, 35));
    assert_eq!(idle.text, c(36, 41, 46, 100));
    assert!(!idle.focus_ring && !idle.inset_shadow);
    let hovered = primer_button_style(ButtonType::Normal, ControlState::Normal(InteractionState::hovered_flag()));
    assert_eq!(hovered.background, PrimerFill::Gradient { top: c(239, 243, 246, 100), bottom: c(230, 235, 241, 100) });
    let disabled = primer_button_style(ButtonType::Normal, ControlState::Disabled);
    assert_eq!(disabled.background, PrimerFill::Solid(c(239, 243, 246, 100)));
    assert_eq!(disabled.text, c(36, 41, 46, 40));
}

#[test]
fn primer_pressed_buttons() {
    let mut pressed_focused = InteractionState::pressed_flag();
    pressed_focused.insert(InteractionState::focused_flag());
    let primary = primer_button_style(ButtonType::Primary, ControlState::Normal(pressed_focused));
    assert_eq!(primary.background, PrimerFill::Solid(c(39, 159, 67, 100)));
    assert!(primary.inset_shadow && !primary.focus_ring);
    let danger = primer_button_style(ButtonType::Danger, ControlState::Normal(InteractionState::pressed_flag()));
    assert_eq!(danger.border, c(104, 32, 40, 100));
    assert_eq!(danger.text, c(255, 255, 255, 100));
    let outline = primer_button_style(ButtonType::Outline, ControlState::Normal(InteractionState::pressed_flag()));
    assert!(outline.focus_ring && !outline.inset_shadow);
    assert_eq!(outline.background, PrimerFill::Solid(c(3, 102, 214, 100)));
}

#[test]
fn primer_focused_outline_and_disabled_primary() {
    let focused = primer_button_style(ButtonType::Outline, ControlState::Normal(InteractionState::focused_flag()));
    assert_eq!(focused.background, PrimerFill::Solid(c(255, 255, 255, 100)));
    assert_eq!(focused.border, c(3, 102, 214, 100));
    assert!(focused.focus_ring);
    let disabled = primer_button_style(ButtonType::Primary, ControlState::Disabled);
    assert_eq!(disabled.background, PrimerFill::Solid(c(148, 211, 162, 100)));
    assert_eq!(disabled.text, c(255, 255, 255, 75));
    assert!(!disabled.focus_ring && !disabled.inset_shadow);
}

#[test]
fn recoloring_twice_is_recoloring_once() {
    let orig = vec![1, 2, 3, 9, 4, 5, 6, 9, 1, 2, 3, 9];
    let mut once = orig.clone();
    recolor_pixels(&mut once, 12, (1, 2, 3), (4, 5, 6));
    let mut twice = once.clone();
    recolor_pixels(&mut twice, 12, (1, 2, 3), (4, 5, 6));
    assert_eq!(once, twice);
    assert_eq!(once, vec![4, 5, 6, 9, 4, 5, 6, 9, 4, 5, 6, 9]);
}
