//! Theme vocabulary: contrast, text styles, color swatches and typefaces, and the decisions the
//! painters make from a widget's state (which shades to use, which adornments to draw).

use vstd::prelude::*;

use crate::state::{has_bits, InteractionState, FOCUSED_BIT, HOVERED_BIT, PRESSED_BIT};

verus! {

/// Empty themed value for widgets which don't have a visual appearance (e.g. layout widgets).
#[derive(Default, Debug, Clone, Copy, PartialEq, Eq, Hash, Structural)]
pub struct PhantomThemed;

/// Text weights and italics.
#[derive(Debug, Clone, Copy, PartialEq, Eq, Hash, Structural)]
pub enum TextStyle {
    /// "Baseline" font weight.
    Regular,
    /// Italicized variant of `Regular`.
    RegularItalic,
    /// Bold font weight.
    Bold,
    /// Italicized variant of `Bold`.
    BoldItalic,
}

/// The "contrast" mode of a theme, i.e. light or dark.
#[derive(Debug, Clone, Copy, PartialEq, Eq, Hash, Structural)]
pub enum ThemeContrast {
    Light,
    Dark,
}

/// A single typeface in 2 weights and italics. `F` is a loaded font.
#[derive(Debug, Clone)]
pub struct Typeface<F> {
    pub regular: F,
    pub italic: F,
    pub bold: F,
    pub bold_italic: F,
}

impl<F> Typeface<F> {
    /// The font of the typeface for a text style.
    pub open spec fn spec_pick(&self, style: TextStyle) -> F {
        match style {
            TextStyle::Regular => self.regular,
            TextStyle::RegularItalic => self.italic,
            TextStyle::Bold => self.bold,
            TextStyle::BoldItalic => self.bold_italic,
        }
    }

    /// The font of the typeface for a text style.
    pub fn pick(&self, style: TextStyle) -> (r: &F)
        ensures
            *r == self.spec_pick(style),
    {
        match style {
            TextStyle::Regular => &self.regular,
            TextStyle::RegularItalic => &self.italic,
            TextStyle::Bold => &self.bold,
            TextStyle::BoldItalic => &self.bold_italic,
        }
    }
}

/// 10 different shades of a color; lower shades are lighter and less saturated.
/// `C` is a color.
#[derive(Debug, Clone, Copy, PartialEq)]
pub struct ColorSwatch<C> {
    pub shade_50: C,
    pub shade_100: C,
    pub shade_200: C,
    pub shade_300: C,
    pub shade_400: C,
    pub shade_500: C,
    pub shade_600: C,
    pub shade_700: C,
    pub shade_800: C,
    pub shade_900: C,
}

/// Whether a number names a shade of a swatch: 0 or 50 (both the lightest shade), or a
/// multiple of 100 from 100 to 900.
pub open spec fn is_shade(shade: int) -> bool {
    shade == 0 || shade == 50 || (100 <= shade <= 900 && shade % 100 == 0)
}

impl<C> ColorSwatch<C> {
    /// The color of a shade.
    pub open spec fn spec_index(&self, shade: int) -> C {
        if shade == 0 || shade == 50 {
            self.shade_50
        } else if shade == 100 {
            self.shade_100
        } else if shade == 200 {
            self.shade_200
        } else if shade == 300 {
            self.shade_300
        } else if shade == 400 {
            self.shade_400
        } else if shade == 500 {
            self.shade_500
        } else if shade == 600 {
            self.shade_600
        } else if shade == 700 {
            self.shade_700
        } else if shade == 800 {
            self.shade_800
        } else {
            self.shade_900
        }
    }

    /// The swatch with the color of one shade replaced.
    pub open spec fn spec_with(self, shade: int, c: C) -> Self {
        if shade == 0 || shade == 50 {
            ColorSwatch { shade_50: c, ..self }
        } else if shade == 100 {
            ColorSwatch { shade_100: c, ..self }
        } else if shade == 200 {
            ColorSwatch { shade_200: c, ..self }
        } else if shade == 300 {
            ColorSwatch { shade_300: c, ..self }
        } else if shade == 400 {
            ColorSwatch { shade_400: c, ..self }
        } else if shade == 500 {
            ColorSwatch { shade_500: c, ..self }
        } else if shade == 600 {
            ColorSwatch { shade_600: c, ..self }
        } else if shade == 700 {
            ColorSwatch { shade_700: c, ..self }
        } else if shade == 800 {
            ColorSwatch { shade_800: c, ..self }
        } else {
            ColorSwatch { shade_900: c, ..self }
        }
    }

    /// The color of a shade (0 and 50 both name the lightest shade).
    pub fn index(&self, shade: u16) -> (r: &C)
        requires
            is_shade(shade as int),
        ensures
            *r == self.spec_index(shade as int),
    {
        match shade {
            0 | 50 => &self.shade_50,
            100 => &self.shade_100,
            200 => &self.shade_200,
            300 => &self.shade_300,
            400 => &self.shade_400,
            500 => &self.shade_500,
            600 => &self.shade_600,
            700 => &self.shade_700,
            800 => &self.shade_800,
            _ => &self.shade_900,
        }
    }

    /// The color of a shade, for changing it.
    pub fn index_mut(&mut self, shade: u16) -> (r: &mut C)
        requires
            is_shade(shade as int),
        ensures
            *r == old(self).spec_index(shade as int),
            *final(self) == old(self).spec_with(shade as int, *final(r)),
    {
        match shade {
            0 | 50 => &mut self.shade_50,
            100 => &mut self.shade_100,
            200 => &mut self.shade_200,
            300 => &mut self.shade_300,
            400 => &mut self.shade_400,
            500 => &mut self.shade_500,
            600 => &mut self.shade_600,
            700 => &mut self.shade_700,
            800 => &mut self.shade_800,
            _ => &mut self.shade_900,
        }
    }

    /// The shade `steps` hundred away from the mid-tone (`shade_500`) towards the background:
    /// lighter on a light theme, darker on a dark one.
    pub open spec fn spec_weaken_500(&self, contrast: ThemeContrast, steps: int) -> C {
        match contrast {
            ThemeContrast::Light => self.spec_index(500 - steps * 100),
            ThemeContrast::Dark => self.spec_index(500 + steps * 100),
        }
    }

    /// The shade `steps` hundred away from the mid-tone (`shade_500`) towards the foreground:
    /// darker on a light theme, lighter on a dark one.
    pub open spec fn spec_strengthen_500(&self, contrast: ThemeContrast, steps: int) -> C {
        match contrast {
            ThemeContrast::Light => self.spec_index(500 + steps * 100),
            ThemeContrast::Dark => self.spec_index(500 - steps * 100),
        }
    }

    /// Returns a shade which is weak with regards to the contrast.
    /// For example, `swatch.weaken_500(ThemeContrast::Dark, 3)` returns `swatch.shade_800`,
    /// while `ThemeContrast::Light` gives `swatch.shade_200`.
    pub fn weaken_500(&self, contrast: ThemeContrast, steps: u8) -> (r: C) where C: Copy
        requires
            contrast is Light ==> steps <= 5,
            contrast is Dark ==> steps <= 4,
        ensures
            r == self.spec_weaken_500(contrast, steps as int),
    {
        let offset: u16 = steps as u16 * 100;
        match contrast {
            ThemeContrast::Light => *self.index(500 - offset),
            ThemeContrast::Dark => *self.index(500 + offset),
        }
    }

    /// Returns a shade which is in the foreground with regards to the contrast.
    /// For example, `swatch.strengthen_500(ThemeContrast::Dark, 3)` returns `swatch.shade_200`,
    /// while `ThemeContrast::Light` gives `swatch.shade_800`.
    pub fn strengthen_500(&self, contrast: ThemeContrast, steps: u8) -> (r: C) where C: Copy
        requires
            contrast is Light ==> steps <= 4,
            contrast is Dark ==> steps <= 5,
        ensures
            r == self.spec_strengthen_500(contrast, steps as int),
    {
        let offset: u16 = steps as u16 * 100;
        match contrast {
            ThemeContrast::Light => *self.index(500 + offset),
            ThemeContrast::Dark => *self.index(500 - offset),
        }
    }
}

} // verus!

verus! {

/// How the background of a button is filled.
#[derive(Debug, Clone, Copy, PartialEq, Eq, Structural)]
pub enum ButtonBackground {
    /// A flat fill of the background color strengthened by `strengthen` percent.
    Flat { strengthen: u8 },
    /// A vertical gradient around the background color strengthened by `strengthen` percent:
    /// lightened at the top and darkened at the bottom.
    Gradient { strengthen: u8 },
}

/// What a button painter draws for a state; color amounts are percents of lightening or
/// darkening relative to the theme's contrast.
#[derive(Debug, Clone, Copy, PartialEq, Eq, Structural)]
pub struct ButtonAppearance {
    pub background: ButtonBackground,
    /// How much the border color (the text color) is weakened.
    pub border_weaken: u8,
    /// How much the text color is weakened.
    pub text_weaken: u8,
    /// Whether the focus ring is drawn around the button.
    pub focus_ring: bool,
    /// Whether the pressed inset shadow is drawn.
    pub inset_shadow: bool,
}

/// The appearance of a button: disabled buttons are flat and faded; pressed buttons are flat
/// and darker (on a light theme); hovered buttons have a stronger gradient; the focus ring shows
/// while focused and not pressed; the inset shadow shows while pressed.
pub open spec fn spec_button_appearance(disabled: bool, bits: u32) -> ButtonAppearance {
    let pressed = has_bits(bits, PRESSED_BIT);
    let hovered = has_bits(bits, HOVERED_BIT);
    let focused = has_bits(bits, FOCUSED_BIT);
    let (background, border_weaken, text_weaken) = if disabled {
        (ButtonBackground::Flat { strengthen: 20 }, 40u8, 40u8)
    } else if pressed {
        (ButtonBackground::Flat { strengthen: 20 }, 30u8, 0u8)
    } else if hovered {
        (ButtonBackground::Gradient { strengthen: 10 }, 30u8, 0u8)
    } else {
        (ButtonBackground::Gradient { strengthen: 0 }, 40u8, 0u8)
    };
    ButtonAppearance {
        background,
        border_weaken,
        text_weaken,
        focus_ring: focused && !pressed,
        inset_shadow: pressed,
    }
}

/// Decides what a button painter draws for a button's disabled state and interaction flags.
pub fn button_appearance(disabled: bool, interaction: InteractionState) -> (r: ButtonAppearance)
    ensures
        r == spec_button_appearance(disabled, interaction.spec_bits()),
{
    let pressed = interaction.contains(InteractionState::pressed_flag());
    let hovered = interaction.contains(InteractionState::hovered_flag());
    let focused = interaction.contains(InteractionState::focused_flag());
    let (background, border_weaken, text_weaken) = if disabled {
        (ButtonBackground::Flat { strengthen: 20 }, 40u8, 40u8)
    } else if pressed {
        (ButtonBackground::Flat { strengthen: 20 }, 30u8, 0u8)
    } else if hovered {
        (ButtonBackground::Gradient { strengthen: 10 }, 30u8, 0u8)
    } else {
        (ButtonBackground::Gradient { strengthen: 0 }, 40u8, 0u8)
    };
    ButtonAppearance {
        background,
        border_weaken,
        text_weaken,
        focus_ring: focused && !pressed,
        inset_shadow: pressed,
    }
}

/// What a checkbox painter draws for a state; color amounts are percents of lightening or
/// darkening relative to the theme's contrast.
#[derive(Debug, Clone, Copy, PartialEq, Eq, Structural)]
pub struct CheckboxAppearance {
    /// How much the background color is strengthened.
    pub background_strengthen: u8,
    /// How much more the background is strengthened while pressed.
    pub pressed_strengthen: u8,
    /// How much the check mark color (the foreground) is weakened; `None` when no check mark shows.
    pub check_mark_weaken: Option<u8>,
    /// How much the border color (the foreground) is weakened.
    pub border_weaken: u8,
    /// Whether the focus ring is drawn around the checkbox.
    pub focus_ring: bool,
}

/// The appearance of a checkbox: a checked box shows its check mark; an unchecked hovered box
/// has a slightly stronger background; a pressed box is strengthened further; the focus ring
/// shows while focused and not pressed.
pub open spec fn spec_checkbox_appearance(checked: bool, bits: u32) -> CheckboxAppearance {
    let pressed = has_bits(bits, PRESSED_BIT);
    let hovered = has_bits(bits, HOVERED_BIT);
    let focused = has_bits(bits, FOCUSED_BIT);
    CheckboxAppearance {
        background_strengthen: if !checked && hovered {
            5
        } else {
            0
        },
        pressed_strengthen: if pressed {
            20
        } else {
            0
        },
        check_mark_weaken: if checked {
            Some(10u8)
        } else {
            None
        },
        border_weaken: 40,
        focus_ring: focused && !pressed,
    }
}

/// Decides what a checkbox painter draws for a checkbox's checked state and interaction flags.
pub fn checkbox_appearance(checked: bool, interaction: InteractionState) -> (r: CheckboxAppearance)
    ensures
        r == spec_checkbox_appearance(checked, interaction.spec_bits()),
{
    let pressed = interaction.contains(InteractionState::pressed_flag());
    let hovered = interaction.contains(InteractionState::hovered_flag());
    let focused = interaction.contains(InteractionState::focused_flag());
    CheckboxAppearance {
        background_strengthen: if !checked && hovered {
            5
        } else {
            0
        },
        pressed_strengthen: if pressed {
            20
        } else {
            0
        },
        check_mark_weaken: if checked {
            Some(10u8)
        } else {
            None
        },
        border_weaken: 40,
        focus_ring: focused && !pressed,
    }
}

} // verus!

verus! {

/// Strengthening on one contrast is weakening on the other, and shade 0 is shade 50.
pub proof fn lemma_swatch_symmetry<C>(swatch: ColorSwatch<C>, steps: int)
    requires
        0 <= steps <= 4,
    ensures
        swatch.spec_strengthen_500(ThemeContrast::Light, steps) == swatch.spec_weaken_500(
            ThemeContrast::Dark,
            steps,
        ),
        swatch.spec_strengthen_500(ThemeContrast::Dark, steps) == swatch.spec_weaken_500(
            ThemeContrast::Light,
            steps,
        ),
        swatch.spec_index(0) == swatch.spec_index(50),
        swatch.spec_weaken_500(ThemeContrast::Light, 0) == swatch.shade_500,
{
}

/// A pressed button never shows its focus ring, and shows the inset shadow; a focus ring shows
/// only on a focused button. The same holds of checkboxes' focus ring.
pub proof fn lemma_focus_ring_not_while_pressed(disabled: bool, checked: bool, bits: u32)
    ensures
        has_bits(bits, PRESSED_BIT) ==> !spec_button_appearance(disabled, bits).focus_ring
            && spec_button_appearance(disabled, bits).inset_shadow,
        spec_button_appearance(disabled, bits).focus_ring ==> has_bits(bits, FOCUSED_BIT),
        has_bits(bits, PRESSED_BIT) ==> !spec_checkbox_appearance(checked, bits).focus_ring,
        spec_checkbox_appearance(checked, bits).focus_ring ==> has_bits(bits, FOCUSED_BIT),
{
}

/// Hovering an enabled button or an unchecked checkbox changes its look: a hovered button (not
/// pressed) has a stronger background than an idle one, and a hovered unchecked checkbox a
/// stronger background than an idle unchecked one.
pub proof fn lemma_hover_shows(hovered: u32, idle: u32)
    requires
        has_bits(hovered, HOVERED_BIT),
        !has_bits(hovered, PRESSED_BIT),
        !has_bits(idle, HOVERED_BIT),
        !has_bits(idle, PRESSED_BIT),
    ensures
        spec_button_appearance(false, hovered).background != spec_button_appearance(false, idle).background,
        spec_checkbox_appearance(false, hovered).background_strengthen
            > spec_checkbox_appearance(false, idle).background_strengthen,
{
}

} // verus!
