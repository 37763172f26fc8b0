use thunderclap::draw::{
    button_appearance, checkbox_appearance, ButtonBackground, ColorSwatch, TextStyle, ThemeContrast,
    Typeface,
};
use thunderclap::state::InteractionState;

fn swatch() -> ColorSwatch<u16> {
    ColorSwatch {
        shade_50: 50,
        shade_100: 100,
        shade_200: 200,
        shade_300: 300,
        shade_400: 400,
        shade_500: 500,
        shade_600: 600,
        shade_700: 700,
        shade_800: 800,
        shade_900: 900,
    }
}

#[test]
fn swatch_weaken_and_strengthen() {
    let s = swatch();
    assert_eq!(s.weaken_500(ThemeContrast::Dark, 3), 800);
    assert_eq!(s.weaken_500(ThemeContrast::Light, 3), 200);
    assert_eq!(s.strengthen_500(ThemeContrast::Dark, 3), 200);
    assert_eq!(s.strengthen_500(ThemeContrast::Light, 3), 800);
    assert_eq!(s.weaken_500(ThemeContrast::Light, 5), 50);
    assert_eq!(s.strengthen_500(ThemeContrast::Dark, 0), 500);
}

#[test]
fn swatch_index_by_shade() {
    let mut s = swatch();
    assert_eq!(*s.index(0), 50);
    assert_eq!(*s.index(50), 50);
    assert_eq!(*s.index(700), 700);
    *s.index_mut(300) = 1;
    assert_eq!(s.shade_300, 1);
    assert_eq!(*s.index(400), 400);
}

#[test]
fn typeface_picks_by_style() {
    let t = Typeface { regular: "r", italic: "i", bold: "b", bold_italic: "bi" };
    assert_eq!(*t.pick(TextStyle::Regular), "r");
    assert_eq!(*t.pick(TextStyle::RegularItalic), "i");
    assert_eq!(*t.pick(TextStyle::Bold), "b");
    assert_eq!(*t.pick(TextStyle::BoldItalic), "bi");
}

#[test]
fn button_appearance_by_state() {
    let idle = button_appearance(false, InteractionState::empty());
    assert_eq!(idle.background, ButtonBackground::Gradient { strengthen: 0 });
    assert_eq!((idle.border_weaken, idle.text_weaken), (40, 0));
    assert!(!idle.focus_ring && !idle.inset_shadow);

    let hovered = button_appearance(false, InteractionState::hovered_flag());
    assert_eq!(hovered.background, ButtonBackground::Gradient { strengthen: 10 });
    assert_eq!(hovered.border_weaken, 30);

    let pressed = button_appearance(false, InteractionState::all());
    assert_eq!(pressed.background, ButtonBackground::Flat { strengthen: 20 });
    assert!(pressed.inset_shadow && !pressed.focus_ring);

    let focused = button_appearance(false, InteractionState::focused_flag());
    assert!(focused.focus_ring);

    let disabled = button_appearance(true, InteractionState::empty());
    assert_eq!(disabled.background, ButtonBackground::Flat { strengthen: 20 });
    assert_eq!((disabled.border_weaken, disabled.text_weaken), (40, 40));
}

#[test]
fn checkbox_appearance_by_state() {
    let a = checkbox_appearance(true, InteractionState::empty());
    assert_eq!(a.check_mark_weaken, Some(10));
    assert_eq!(a.background_strengthen, 0);
    let b = checkbox_appearance(false, InteractionState::hovered_flag());
    assert_eq!(b.check_mark_weaken, None);
    assert_eq!(b.background_strengthen, 5);
    let c = checkbox_appearance(false, InteractionState::all());
    assert_eq!(c.pressed_strengthen, 20);
    assert!(!c.focus_ring);
    assert_eq!(c.border_weaken, 40);
    let d = checkbox_appearance(true, InteractionState::focused_flag());
    assert!(d.focus_ring);
}
