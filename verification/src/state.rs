//! The visual states for a widget.
//!
//! These are simply the fields relevant to rendering, existing only in the scope of drawing.

use vstd::prelude::*;

verus! {

/// Set of interaction flags of a widget: hovered, pressed and focused.
///
/// The value is a bit set over `HOVERED`, `PRESSED` and `FOCUSED`; no other bit is ever set.
#[derive(Debug, Clone, Copy, PartialEq, Eq, Hash, Structural)]
pub struct InteractionState {
    bits: u32,
}

/// Bit of the hovered flag.
pub const HOVERED_BIT: u32 = 1;
/// Bit of the pressed flag.
pub const PRESSED_BIT: u32 = 2;
/// Bit of the focused flag.
pub const FOCUSED_BIT: u32 = 4;
/// All flag bits together.
pub const ALL_BITS: u32 = 7;

/// Whether every bit of `flag` is set in `bits`.
pub open spec fn has_bits(bits: u32, flag: u32) -> bool {
    bits & flag == flag
}

/// Facts about the three flag bits that the state machines need.
pub proof fn lemma_flag_bits(b: u32)
    requires
        b <= 7,
    ensures
        (b | 1) <= 7,
        (b | 2) <= 7,
        (b | 4) <= 7,
        (b & !1u32) <= 7,
        (b & !2u32) <= 7,
        (b & !4u32) <= 7,
        has_bits(b | 1, 1),
        has_bits(b | 2, 2),
        has_bits(b | 4, 4),
        !has_bits(b & !1u32, 1),
        !has_bits(b & !2u32, 2),
        !has_bits(b & !4u32, 4),
        has_bits(b | 1, 2) == has_bits(b, 2),
        has_bits(b | 1, 4) == has_bits(b, 4),
        has_bits(b | 2, 1) == has_bits(b, 1),
        has_bits(b | 2, 4) == has_bits(b, 4),
        has_bits(b | 4, 1) == has_bits(b, 1),
        has_bits(b | 4, 2) == has_bits(b, 2),
        has_bits(b & !1u32, 2) == has_bits(b, 2),
        has_bits(b & !1u32, 4) == has_bits(b, 4),
        has_bits(b & !2u32, 1) == has_bits(b, 1),
        has_bits(b & !2u32, 4) == has_bits(b, 4),
        has_bits(b & !4u32, 1) == has_bits(b, 1),
        has_bits(b & !4u32, 2) == has_bits(b, 2),
        has_bits(b, 0),
        (b == (if has_bits(b, 1) { 1u32 } else { 0u32 }) + (if has_bits(b, 2) { 2u32 } else { 0u32 })
            + (if has_bits(b, 4) { 4u32 } else { 0u32 })),
{
    assert((b | 1) <= 7 && (b | 2) <= 7 && (b | 4) <= 7) by (bit_vector)
        requires
            b <= 7,
    ;
    assert((b & !1u32) <= 7 && (b & !2u32) <= 7 && (b & !4u32) <= 7) by (bit_vector)
        requires
            b <= 7,
    ;
    assert((b | 1) & 1 == 1 && (b | 2) & 2 == 2 && (b | 4) & 4 == 4) by (bit_vector);
    assert((b & !1u32) & 1 != 1 && (b & !2u32) & 2 != 2 && (b & !4u32) & 4 != 4) by (bit_vector);
    assert(((b | 1) & 2 == 2) == (b & 2 == 2) && ((b | 1) & 4 == 4) == (b & 4 == 4)) by (bit_vector);
    assert(((b | 2) & 1 == 1) == (b & 1 == 1) && ((b | 2) & 4 == 4) == (b & 4 == 4)) by (bit_vector);
    assert(((b | 4) & 1 == 1) == (b & 1 == 1) && ((b | 4) & 2 == 2) == (b & 2 == 2)) by (bit_vector);
    assert(((b & !1u32) & 2 == 2) == (b & 2 == 2) && ((b & !1u32) & 4 == 4) == (b & 4 == 4))
        by (bit_vector);
    assert(((b & !2u32) & 1 == 1) == (b & 1 == 1) && ((b & !2u32) & 4 == 4) == (b & 4 == 4))
        by (bit_vector);
    assert(((b & !4u32) & 1 == 1) == (b & 1 == 1) && ((b & !4u32) & 2 == 2) == (b & 2 == 2))
        by (bit_vector);
    assert(b & 0 == 0) by (bit_vector);
    assert(b == (if b & 1 == 1 { 1u32 } else { 0u32 }) + (if b & 2 == 2 { 2u32 } else { 0u32 }) + (
    if b & 4 == 4 { 4u32 } else { 0u32 })) by (bit_vector)
        requires
            b <= 7,
    ;
}

/// Flag sets behave as sets: after inserting `o` every flag of `o` is set, inserting twice is
/// inserting once, and removing flags that were just inserted (and were not set before) gives
/// back the flags as they were.
pub proof fn lemma_flag_set_laws(a: u32, o: u32)
    ensures
        has_bits(a | o, o),
        (a | o) | o == a | o,
        !has_bits(a & !o, o) || o == 0,
        a & o == 0 ==> (a | o) & !o == a,
{
    assert(has_bits(a | o, o)) by (bit_vector);
    assert((a | o) | o == a | o) by (bit_vector);
    assert(o != 0 ==> (a & !o) & o != o) by (bit_vector);
    assert(a & o == 0 ==> (a | o) & !o == a) by (bit_vector);
}

impl InteractionState {
    /// The flags are a subset of the three known flags.
    #[verifier::type_invariant]
    spec fn well_formed(self) -> bool {
        self.bits <= ALL_BITS
    }

    /// The raw bits.
    pub closed spec fn spec_bits(self) -> u32 {
        self.bits
    }

    /// Whether the hovered flag is set.
    pub open spec fn hovered(self) -> bool {
        has_bits(self.spec_bits(), HOVERED_BIT)
    }

    /// Whether the pressed flag is set.
    pub open spec fn pressed(self) -> bool {
        has_bits(self.spec_bits(), PRESSED_BIT)
    }

    /// Whether the focused flag is set.
    pub open spec fn focused(self) -> bool {
        has_bits(self.spec_bits(), FOCUSED_BIT)
    }

    /// The state with no flag set.
    pub fn empty() -> (r: Self)
        ensures
            r.spec_bits() == 0,
            !r.hovered() && !r.pressed() && !r.focused(),
    {
        proof {
            lemma_flag_bits(0);
        }
        InteractionState { bits: 0 }
    }

    /// The state with every flag set.
    pub fn all() -> (r: Self)
        ensures
            r.spec_bits() == ALL_BITS,
            r.hovered() && r.pressed() && r.focused(),
    {
        assert(has_bits(7, 1) && has_bits(7, 2) && has_bits(7, 4)) by (bit_vector);
        InteractionState { bits: ALL_BITS }
    }

    /// The hovered flag alone.
    pub fn hovered_flag() -> (r: Self)
        ensures
            r.spec_bits() == HOVERED_BIT,
    {
        InteractionState { bits: HOVERED_BIT }
    }

    /// The pressed flag alone.
    pub fn pressed_flag() -> (r: Self)
        ensures
            r.spec_bits() == PRESSED_BIT,
    {
        InteractionState { bits: PRESSED_BIT }
    }

    /// The focused flag alone.
    pub fn focused_flag() -> (r: Self)
        ensures
            r.spec_bits() == FOCUSED_BIT,
    {
        InteractionState { bits: FOCUSED_BIT }
    }

    /// The raw bit value.
    pub fn bits(&self) -> (r: u32)
        ensures
            r == self.spec_bits(),
    {
        self.bits
    }

    /// Builds a state from raw bits; `None` where a bit outside the known flags is set.
    pub fn from_bits(bits: u32) -> (r: Option<Self>)
        ensures
            r is Some <==> bits <= ALL_BITS,
            r matches Some(s) ==> s.spec_bits() == bits,
    {
        if bits <= ALL_BITS {
            Some(InteractionState { bits })
        } else {
            None
        }
    }

    /// Builds a state from raw bits, dropping the bits outside the known flags.
    pub fn from_bits_truncate(bits: u32) -> (r: Self)
        ensures
            r.spec_bits() == bits & ALL_BITS,
    {
        assert(bits & 7 <= 7) by (bit_vector);
        InteractionState { bits: bits & ALL_BITS }
    }

    /// Whether no flag is set.
    pub fn is_empty(&self) -> (r: bool)
        ensures
            r == (self.spec_bits() == 0),
    {
        self.bits == 0
    }

    /// Whether every flag of `other` is set in `self`.
    pub fn contains(&self, other: Self) -> (r: bool)
        ensures
            r == has_bits(self.spec_bits(), other.spec_bits()),
    {
        self.bits & other.bits == other.bits
    }

    /// Sets every flag of `other`.
    pub fn insert(&mut self, other: Self)
        ensures
            final(self).spec_bits() == old(self).spec_bits() | other.spec_bits(),
    {
        proof {
            use_type_invariant(&*self);
            use_type_invariant(&other);
        }
        let b = self.bits;
        let o = other.bits;
        assert((b | o) <= 7) by (bit_vector)
            requires
                b <= 7,
                o <= 7,
        ;
        self.bits = b | o;
    }

    /// Clears every flag of `other`.
    pub fn remove(&mut self, other: Self)
        ensures
            final(self).spec_bits() == old(self).spec_bits() & !other.spec_bits(),
    {
        proof {
            use_type_invariant(&*self);
        }
        let b = self.bits;
        let o = other.bits;
        assert((b & !o) <= 7) by (bit_vector)
            requires
                b <= 7,
        ;
        self.bits = b & !o;
    }
}

/// Either the interaction state (`InteractionState`) or the disabled state (none) of a widget.
#[derive(Debug, Clone, Copy, PartialEq, Eq, Hash, Structural)]
pub enum ControlState {
    Normal(InteractionState),
    Disabled,
}

/// Visual button type.
#[derive(Debug, Clone, Copy, PartialEq, Eq, Hash, Structural)]
pub enum ButtonType {
    Normal,
    Primary,
    Danger,
    Outline,
}

} // verus!

verus! {

impl ControlState {
    /// The control state of a widget: disabled, or its interaction flags.
    pub fn from_widget(disabled: bool, interaction: InteractionState) -> (r: Self)
        ensures
            r == (if disabled {
                ControlState::Disabled
            } else {
                ControlState::Normal(interaction)
            }),
    {
        if disabled {
            ControlState::Disabled
        } else {
            ControlState::Normal(interaction)
        }
    }
}

} // verus!
