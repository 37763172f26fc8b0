//! Theme helpers: recoloring solid icons, and the Primer theme's button palette.

use vstd::prelude::*;

use image::RgbaImage;

use crate::state::{ButtonType, ControlState, InteractionState};

verus! {

/// An RGBA image (four bytes per pixel: red, green, blue, alpha), held in `image`'s buffer type.
/// `ImageBuffer`'s parameters carry bounds of `image`'s own traits, so it cannot be declared as
/// a type of the specification language; the buffer is held here, opaque, and read through the
/// names below.
#[verifier::external_body]
pub struct IconImage {
    image: RgbaImage,
}

/// The raw sample buffer of an icon: four bytes (red, green, blue, alpha) per pixel, row after
/// row, possibly followed by unused bytes.
pub uninterp spec fn icon_bytes(icon: IconImage) -> Seq<u8>;

/// The width of an icon, in pixels.
pub uninterp spec fn icon_width(icon: IconImage) -> u32;

/// The height of an icon, in pixels.
pub uninterp spec fn icon_height(icon: IconImage) -> u32;

impl IconImage {
    /// Calls `ImageBuffer::width`. Four bytes per pixel of a row can be counted in `usize`
    /// (every constructor of `ImageBuffer` checks so, with checked multiplication).
    #[verifier::external_body]
    pub fn width(&self) -> (r: u32)
        ensures
            r == icon_width(*self),
            4 * r <= usize::MAX,
    {
        self.image.width()
    }

    /// Calls `ImageBuffer::height`.
    #[verifier::external_body]
    pub fn height(&self) -> (r: u32)
        ensures
            r == icon_height(*self),
    {
        self.image.height()
    }

    /// Calls `ImageBuffer::new(0, 0)`: an image without pixels and with an empty buffer.
    #[verifier::external_body]
    pub fn blank() -> (r: Self)
        ensures
            icon_width(r) == 0,
            icon_height(r) == 0,
            icon_bytes(r) == Seq::<u8>::empty(),
    {
        IconImage { image: RgbaImage::new(0, 0) }
    }

    /// Calls `ImageBuffer::into_raw`: the raw buffer, which holds at least four bytes per pixel
    /// (every constructor of `ImageBuffer` checks, with checked multiplication, that the buffer
    /// length needed for the dimensions can be computed and that the buffer is that long).
    #[verifier::external_body]
    pub fn into_raw(self) -> (buf: Vec<u8>)
        ensures
            buf@ == icon_bytes(self),
            buf.len() >= 4 * icon_width(self) * icon_height(self),
    {
        self.image.into_raw()
    }

    /// Calls `ImageBuffer::from_raw`: an image of the given dimensions over `buf`, provided that
    /// the buffer length needed (four bytes per pixel) can be computed in `usize` and `buf` is
    /// at least that long; `None` otherwise.
    #[verifier::external_body]
    pub fn from_raw(width: u32, height: u32, buf: Vec<u8>) -> (r: Option<Self>)
        ensures
            r is Some <==> (4 * width <= usize::MAX && 4 * width * height <= usize::MAX && 4
                * width * height <= buf.len()),
            r matches Some(img) ==> icon_width(img) == width && icon_height(img) == height
                && icon_bytes(img) == buf@,
    {
        RgbaImage::from_raw(width, height, buf).map(|image| IconImage { image })
    }
}

/// Whether the pixel starting at byte `start` has exactly the color `rgb`.
pub open spec fn pixel_is(bytes: Seq<u8>, start: int, rgb: (u8, u8, u8)) -> bool {
    bytes[start] == rgb.0 && bytes[start + 1] == rgb.1 && bytes[start + 2] == rgb.2
}

/// The color component of `rgb` for channel `c` (0 red, 1 green, 2 blue).
pub open spec fn channel(rgb: (u8, u8, u8), c: int) -> u8 {
    if c == 0 {
        rgb.0
    } else if c == 1 {
        rgb.1
    } else {
        rgb.2
    }
}

/// The buffer after replacing color `from` with color `to` in the pixels held by its first
/// `end` bytes, preserving alpha; bytes from `end` on are kept.
pub open spec fn spec_recolor(bytes: Seq<u8>, end: int, from: (u8, u8, u8), to: (u8, u8, u8)) -> Seq<
    u8,
> {
    Seq::new(
        bytes.len(),
        |i: int|
            if i < end && i % 4 < 3 && pixel_is(bytes, i - i % 4, from) {
                channel(to, i % 4)
            } else {
                bytes[i]
            },
    )
}

/// Replaces the color `from` with the color `to` in the first `end` bytes of an RGBA sample
/// buffer, pixel by pixel, preserving alpha.
pub fn recolor_pixels(buf: &mut Vec<u8>, end: usize, from: (u8, u8, u8), to: (u8, u8, u8))
    requires
        end <= old(buf).len(),
        end % 4 == 0,
    ensures
        final(buf)@ == spec_recolor(old(buf)@, end as int, from, to),
{
    let ghost orig = buf@;
    let mut i: usize = 0;
    while i < end
        invariant
            end <= buf.len(),
            end % 4 == 0,
            i % 4 == 0,
            i <= end,
            buf.len() == orig.len(),
            forall|k: int|
                0 <= k < i ==> #[trigger] buf@[k] == spec_recolor(orig, end as int, from, to)[k],
            forall|k: int| i <= k < buf.len() ==> #[trigger] buf@[k] == orig[k],
        decreases end - i,
    {
        if buf[i] == from.0 && buf[i + 1] == from.1 && buf[i + 2] == from.2 {
            buf.set(i, to.0);
            buf.set(i + 1, to.1);
            buf.set(i + 2, to.2);
        }
        proof {
            assert(pixel_is(orig, i as int, from) == (orig[i as int] == from.0 && orig[i + 1]
                == from.1 && orig[i + 2] == from.2));
            assert forall|k: int| i <= k < i + 4 implies #[trigger] buf@[k] == spec_recolor(
                orig,
                end as int,
                from,
                to,
            )[k] by {
                assert(k - k % 4 == i);
            }
        }
        i += 4;
    }
    proof {
        assert(buf@ =~= spec_recolor(orig, end as int, from, to));
    }
}

/// Replaces a specific color in an image while preserving alpha.
/// Useful to recolor a solid icon.
pub fn recolor_icon(icon: &mut IconImage, from: (u8, u8, u8), to: (u8, u8, u8))
    ensures
        icon_width(*final(icon)) == icon_width(*old(icon)),
        icon_height(*final(icon)) == icon_height(*old(icon)),
        icon_bytes(*final(icon)).len() >= 4 * icon_width(*final(icon)) * icon_height(*final(icon)),
        icon_bytes(*final(icon)) == spec_recolor(
            icon_bytes(*old(icon)),
            4 * icon_width(*old(icon)) * icon_height(*old(icon)),
            from,
            to,
        ),
{
    let w = icon.width();
    let h = icon.height();
    let mut taken = IconImage::blank();
    std::mem::swap(&mut taken, icon);
    let buf0 = taken.into_raw();
    let mut buf = buf0;
    let ghost m = (w as int) * (h as int);
    let ghost n = 4 * m;
    proof {
        assert(4 * (w as int) * (h as int) == 4 * m) by (nonlinear_arith)
            requires
                m == (w as int) * (h as int),
        ;
        assert(n % 4 == 0);
    }
    let ghost len = buf.len() as int;
    let bytes_per_row: usize = if h == 0 { 0 } else { 4 * (w as usize) };
    let end: usize = bytes_per_row * (h as usize);
    assert(end == n) by (nonlinear_arith)
        requires
            bytes_per_row == (if h == 0 { 0 } else { 4 * (w as int) }),
            end == bytes_per_row * (h as int),
            n == 4 * m,
            m == (w as int) * (h as int),
    ;
    recolor_pixels(&mut buf, end, from, to);
    match IconImage::from_raw(w, h, buf) {
        Some(img) => {
            *icon = img;
        },
        None => {},
    }
}

} // verus!

verus! {

/// Theme generated from a description file; it holds no data yet.
#[derive(Debug, Clone, Copy, PartialEq, Eq, Structural)]
pub struct Dynamic {}

} // verus!

verus! {

/// Recoloring keeps the buffer length and every alpha byte, and changes nothing beyond the
/// pixel area.
pub proof fn lemma_recolor_keeps_alpha(bytes: Seq<u8>, end: int, from: (u8, u8, u8), to: (u8, u8, u8))
    ensures
        spec_recolor(bytes, end, from, to).len() == bytes.len(),
        forall|i: int|
            0 <= i < bytes.len() && (i % 4 == 3 || i >= end) ==> #[trigger] spec_recolor(
                bytes,
                end,
                from,
                to,
            )[i] == bytes[i],
{
}

/// Replacing a color with itself changes nothing.
pub proof fn lemma_recolor_same_color(bytes: Seq<u8>, end: int, c: (u8, u8, u8))
    ensures
        spec_recolor(bytes, end, c, c) == bytes,
{
    assert forall|i: int| 0 <= i < bytes.len() implies #[trigger] spec_recolor(
        bytes,
        end,
        c,
        c,
    )[i] == bytes[i] by {
        let k = i % 4;
        let s = i - k;
        if i < end && k < 3 && pixel_is(bytes, s, c) {
            if k == 0 {
                assert(i == s);
            } else if k == 1 {
                assert(i == s + 1);
            } else {
                assert(i == s + 2);
            }
        }
    }
    assert(spec_recolor(bytes, end, c, c) =~= bytes);
}

/// Recoloring twice with the same two colors changes nothing more than recoloring once.
pub proof fn lemma_recolor_idempotent(
    bytes: Seq<u8>,
    end: int,
    from: (u8, u8, u8),
    to: (u8, u8, u8),
)
    requires
        0 <= end <= bytes.len(),
        end % 4 == 0,
    ensures
        spec_recolor(spec_recolor(bytes, end, from, to), end, from, to) == spec_recolor(
            bytes,
            end,
            from,
            to,
        ),
{
    let r = spec_recolor(bytes, end, from, to);
    let rr = spec_recolor(r, end, from, to);
    if from == to {
        lemma_recolor_same_color(bytes, end, from);
        lemma_recolor_same_color(r, end, from);
    } else {
        assert forall|i: int| 0 <= i < r.len() implies #[trigger] rr[i] == r[i] by {
            let k = i % 4;
            let s = i - k;
            if i < end && k < 3 && pixel_is(r, s, from) {
                assert(s % 4 == 0);
                assert(s < end);
                assert(s + 3 < end + 1);
                assert(s + 2 < end);
                assert(s + 1 - (s + 1) % 4 == s);
                assert(s + 2 - (s + 2) % 4 == s);
                assert((s + 1) % 4 == 1);
                assert((s + 2) % 4 == 2);
                if pixel_is(bytes, s, from) {
                    assert(r[s] == to.0);
                    assert(r[s + 1] == to.1);
                    assert(r[s + 2] == to.2);
                } else {
                    assert(r[s] == bytes[s]);
                    assert(r[s + 1] == bytes[s + 1]);
                    assert(r[s + 2] == bytes[s + 2]);
                }
            }
        }
        assert(rr =~= r);
    }
}

} // verus!

verus! {

/// A color of the Primer palette: 8-bit channels and an opacity in percent.
#[derive(Debug, Clone, Copy, PartialEq, Eq, Structural)]
pub struct Rgba {
    pub red: u8,
    pub green: u8,
    pub blue: u8,
    pub alpha_percent: u8,
}

/// How a Primer button's background is filled.
#[derive(Debug, Clone, Copy, PartialEq, Eq, Structural)]
pub enum PrimerFill {
    /// One color.
    Solid(Rgba),
    /// A vertical gradient from `top` (at the top edge) to `bottom` (at nine tenths of the height).
    Gradient { top: Rgba, bottom: Rgba },
}

/// What the Primer theme paints for a button.
#[derive(Debug, Clone, Copy, PartialEq, Eq, Structural)]
pub struct PrimerButtonStyle {
    pub background: PrimerFill,
    pub border: Rgba,
    pub text: Rgba,
    pub focus: Rgba,
    /// Whether the focus ring is drawn around the button.
    pub focus_ring: bool,
    /// Whether the pressed inset shadow is drawn.
    pub inset_shadow: bool,
}

/// A palette color.
pub open spec fn rgba(red: u8, green: u8, blue: u8, alpha_percent: u8) -> Rgba {
    Rgba { red, green, blue, alpha_percent }
}

/// The Primer palette for a button: background, border, text and focus colors by button type,
/// by whether the button is disabled, and by its interaction flags.
pub open spec fn spec_primer_button_colors(button_type: ButtonType, state: ControlState) -> (
    PrimerFill,
    Rgba,
    Rgba,
    Rgba,
) {
    let white = rgba(255, 255, 255, 100);
    match button_type {
        ButtonType::Normal => match state {
            ControlState::Normal(i) => {
                let top = if i.hovered() || i.pressed() {
                    rgba(239, 243, 246, 100)
                } else {
                    rgba(250, 251, 252, 100)
                };
                let bottom = if i.hovered() || i.pressed() {
                    rgba(230, 235, 241, 100)
                } else {
                    rgba(239, 243, 246, 100)
                };
                (
                    PrimerFill::Gradient { top, bottom },
                    rgba(27, 31, 35, 35),
                    rgba(36, 41, 46, 100),
                    rgba(3, 102, 214, 30),
                )
            },
            ControlState::Disabled => (
                PrimerFill::Solid(rgba(239, 243, 246, 100)),
                rgba(27, 31, 35, 20),
                rgba(36, 41, 46, 40),
                rgba(3, 102, 214, 30),
            ),
        },
        ButtonType::Primary => match state {
            ControlState::Normal(i) => (
                if i.pressed() {
                    PrimerFill::Solid(rgba(39, 159, 67, 100))
                } else if i.hovered() {
                    PrimerFill::Gradient { top: rgba(46, 200, 82, 100), bottom: rgba(38, 159, 66, 100) }
                } else {
                    PrimerFill::Gradient { top: rgba(52, 208, 88, 100), bottom: rgba(40, 167, 69, 100) }
                },
                rgba(27, 31, 35, 50),
                white,
                rgba(46, 200, 82, 50),
            ),
            ControlState::Disabled => (
                PrimerFill::Solid(rgba(148, 211, 162, 100)),
                rgba(27, 31, 35, 50),
                rgba(255, 255, 255, 75),
                rgba(46, 200, 82, 50),
            ),
        },
        ButtonType::Danger => match state {
            ControlState::Normal(i) => if i.pressed() {
                (
                    PrimerFill::Solid(rgba(181, 32, 44, 100)),
                    rgba(104, 32, 40, 100),
                    white,
                    rgba(181, 32, 44, 40),
                )
            } else if i.hovered() {
                (
                    PrimerFill::Gradient { top: rgba(221, 66, 78, 100), bottom: rgba(203, 36, 49, 100) },
                    rgba(104, 32, 40, 100),
                    white,
                    rgba(181, 32, 44, 40),
                )
            } else {
                (
                    PrimerFill::Gradient {
                        top: rgba(250, 251, 252, 100),
                        bottom: rgba(239, 243, 246, 100),
                    },
                    rgba(27, 31, 35, 35),
                    rgba(203, 36, 49, 100),
                    rgba(181, 32, 44, 40),
                )
            },
            ControlState::Disabled => (
                PrimerFill::Solid(rgba(239, 243, 246, 100)),
                rgba(27, 31, 35, 20),
                rgba(203, 36, 49, 40),
                rgba(3, 102, 214, 30),
            ),
        },
        ButtonType::Outline => match state {
            ControlState::Normal(i) => if i.pressed() || i.hovered() {
                (
                    PrimerFill::Solid(rgba(3, 102, 214, 100)),
                    rgba(3, 102, 214, 100),
                    white,
                    rgba(3, 102, 214, 50),
                )
            } else if i.focused() {
                (PrimerFill::Solid(white), rgba(3, 102, 214, 100), rgba(3, 102, 214, 100), rgba(3, 102, 214, 50))
            } else {
                (PrimerFill::Solid(white), rgba(27, 31, 35, 35), rgba(3, 102, 214, 100), rgba(3, 102, 214, 50))
            },
            ControlState::Disabled => (
                PrimerFill::Solid(white),
                rgba(27, 31, 35, 35),
                rgba(36, 41, 46, 40),
                rgba(3, 102, 214, 50),
            ),
        },
    }
}

/// What the Primer theme paints for a button: the palette colors; the focus ring while focused
/// and not pressed, or while an outline button is pressed; the inset shadow while a button other
/// than an outline one is pressed. A disabled button shows neither.
pub open spec fn spec_primer_button_style(button_type: ButtonType, state: ControlState) -> PrimerButtonStyle {
    let (background, border, text, focus) = spec_primer_button_colors(button_type, state);
    let pressed = match state {
        ControlState::Normal(i) => i.pressed(),
        ControlState::Disabled => false,
    };
    let focused = match state {
        ControlState::Normal(i) => i.focused(),
        ControlState::Disabled => false,
    };
    PrimerButtonStyle {
        background,
        border,
        text,
        focus,
        focus_ring: (focused && !pressed) || (button_type == ButtonType::Outline && pressed),
        inset_shadow: button_type != ButtonType::Outline && pressed,
    }
}

fn color(red: u8, green: u8, blue: u8, alpha_percent: u8) -> (c: Rgba)
    ensures
        c == rgba(red, green, blue, alpha_percent),
{
    Rgba { red, green, blue, alpha_percent }
}

/// Decides what the Primer theme paints for a button of a given type and state.
pub fn primer_button_style(button_type: ButtonType, state: ControlState) -> (r: PrimerButtonStyle)
    ensures
        r == spec_primer_button_style(button_type, state),
{
    let white = color(255, 255, 255, 100);
    let mut interaction = InteractionState::empty();
    let (background, border, text, focus) = match button_type {
        ButtonType::Normal => match state {
            ControlState::Normal(i) => {
                interaction = i;
                if i.contains(InteractionState::hovered_flag()) || i.contains(
                    InteractionState::pressed_flag(),
                ) {
                    (
                        PrimerFill::Gradient {
                            top: color(239, 243, 246, 100),
                            bottom: color(230, 235, 241, 100),
                        },
                        color(27, 31, 35, 35),
                        color(36, 41, 46, 100),
                        color(3, 102, 214, 30),
                    )
                } else {
                    (
                        PrimerFill::Gradient {
                            top: color(250, 251, 252, 100),
                            bottom: color(239, 243, 246, 100),
                        },
                        color(27, 31, 35, 35),
                        color(36, 41, 46, 100),
                        color(3, 102, 214, 30),
                    )
                }
            },
            ControlState::Disabled => (
                PrimerFill::Solid(color(239, 243, 246, 100)),
                color(27, 31, 35, 20),
                color(36, 41, 46, 40),
                color(3, 102, 214, 30),
            ),
        },
        ButtonType::Primary => match state {
            ControlState::Normal(i) => {
                interaction = i;
                let background = if i.contains(InteractionState::pressed_flag()) {
                    PrimerFill::Solid(color(39, 159, 67, 100))
                } else if i.contains(InteractionState::hovered_flag()) {
                    PrimerFill::Gradient { top: color(46, 200, 82, 100), bottom: color(38, 159, 66, 100) }
                } else {
                    PrimerFill::Gradient { top: color(52, 208, 88, 100), bottom: color(40, 167, 69, 100) }
                };
                (background, color(27, 31, 35, 50), white, color(46, 200, 82, 50))
            },
            ControlState::Disabled => (
                PrimerFill::Solid(color(148, 211, 162, 100)),
                color(27, 31, 35, 50),
                color(255, 255, 255, 75),
                color(46, 200, 82, 50),
            ),
        },
        ButtonType::Danger => match state {
            ControlState::Normal(i) => {
                interaction = i;
                if i.contains(InteractionState::pressed_flag()) {
                    (
                        PrimerFill::Solid(color(181, 32, 44, 100)),
                        color(104, 32, 40, 100),
                        white,
                        color(181, 32, 44, 40),
                    )
                } else if i.contains(InteractionState::hovered_flag()) {
                    (
                        PrimerFill::Gradient { top: color(221, 66, 78, 100), bottom: color(203, 36, 49, 100) },
                        color(104, 32, 40, 100),
                        white,
                        color(181, 32, 44, 40),
                    )
                } else {
                    (
                        PrimerFill::Gradient {
                            top: color(250, 251, 252, 100),
                            bottom: color(239, 243, 246, 100),
                        },
                        color(27, 31, 35, 35),
                        color(203, 36, 49, 100),
                        color(181, 32, 44, 40),
                    )
                }
            },
            ControlState::Disabled => (
                PrimerFill::Solid(color(239, 243, 246, 100)),
                color(27, 31, 35, 20),
                color(203, 36, 49, 40),
                color(3, 102, 214, 30),
            ),
        },
        ButtonType::Outline => match state {
            ControlState::Normal(i) => {
                interaction = i;
                if i.contains(InteractionState::pressed_flag()) || i.contains(
                    InteractionState::hovered_flag(),
                ) {
                    (
                        PrimerFill::Solid(color(3, 102, 214, 100)),
                        color(3, 102, 214, 100),
                        white,
                        color(3, 102, 214, 50),
                    )
                } else if i.contains(InteractionState::focused_flag()) {
                    (PrimerFill::Solid(white), color(3, 102, 214, 100), color(3, 102, 214, 100), color(3, 102, 214, 50))
                } else {
                    (PrimerFill::Solid(white), color(27, 31, 35, 35), color(3, 102, 214, 100), color(3, 102, 214, 50))
                }
            },
            ControlState::Disabled => (
                PrimerFill::Solid(white),
                color(27, 31, 35, 35),
                color(36, 41, 46, 40),
                color(3, 102, 214, 50),
            ),
        },
    };
    let pressed = interaction.contains(InteractionState::pressed_flag());
    let focused = interaction.contains(InteractionState::focused_flag());
    let outline = match button_type {
        ButtonType::Outline => true,
        _ => false,
    };
    PrimerButtonStyle {
        background,
        border,
        text,
        focus,
        focus_ring: (focused && !pressed) || (outline && pressed),
        inset_shadow: !outline && pressed,
    }
}


/// A disabled Primer button shows neither the focus ring nor the inset shadow; the inset shadow
/// and the focus ring never show together; apart from a pressed outline button, the ring shows
/// only on a focused button.
pub proof fn lemma_primer_adornments(button_type: ButtonType, state: ControlState)
    ensures
        state is Disabled ==> !spec_primer_button_style(button_type, state).focus_ring
            && !spec_primer_button_style(button_type, state).inset_shadow,
        !(spec_primer_button_style(button_type, state).focus_ring
            && spec_primer_button_style(button_type, state).inset_shadow),
        spec_primer_button_style(button_type, state).focus_ring && button_type != ButtonType::Outline
            ==> (state matches ControlState::Normal(i) && i.focused() && !i.pressed()),
{
}

/// Hovering an enabled Primer button changes its look: for every button type, a hovered button
/// (not pressed) has another background than an idle one (neither hovered, pressed nor
/// focused). A hovered outline button looks like a pressed one: filled with its blue, with a
/// blue border and white text.
pub proof fn lemma_primer_hover_shows(
    button_type: ButtonType,
    hovered: InteractionState,
    pressed: InteractionState,
    idle: InteractionState,
)
    requires
        hovered.hovered(),
        !hovered.pressed(),
        pressed.pressed(),
        !idle.hovered() && !idle.pressed() && !idle.focused(),
    ensures
        spec_primer_button_style(button_type, ControlState::Normal(hovered)).background
            != spec_primer_button_style(button_type, ControlState::Normal(idle)).background,
        ({
            let h = spec_primer_button_style(ButtonType::Outline, ControlState::Normal(hovered));
            let p = spec_primer_button_style(ButtonType::Outline, ControlState::Normal(pressed));
            &&& h.background == p.background
            &&& h.border == p.border
            &&& h.text == p.text
            &&& h.background == PrimerFill::Solid(Rgba { red: 3, green: 102, blue: 214, alpha_percent: 100 })
            &&& h.border == (Rgba { red: 3, green: 102, blue: 214, alpha_percent: 100 })
            &&& h.text == (Rgba { red: 255, green: 255, blue: 255, alpha_percent: 100 })
        }),
{
}

} // verus!
