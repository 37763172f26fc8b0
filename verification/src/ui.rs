//! Widget-level vocabulary: toggled events and child alignment.

use vstd::prelude::*;

use crate::base::{ConsumableEvent, KeyModifiers, MouseButton, WindowEvent};
use crate::state::{
    has_bits, lemma_flag_bits, InteractionState, ALL_BITS, FOCUSED_BIT, HOVERED_BIT, PRESSED_BIT,
};

verus! {

/// An event which is "toggled". That is to say, `Stop` is always received only after `Start`
/// and `Stop` indicates an exact opposite event to `Start`.
#[derive(Clone, Copy, Debug, PartialEq, Eq)]
pub enum ToggledEvent<T> {
    Start(T),
    Stop(T),
}

impl<T> ToggledEvent<T> {
    /// The data carried by the event, whichever side it is.
    pub open spec fn spec_data(self) -> T {
        match self {
            ToggledEvent::Start(x) => x,
            ToggledEvent::Stop(x) => x,
        }
    }

    /// Creates a new toggled event with given data, either as start or stop (indicated by `is_start`).
    pub fn new(is_start: bool, data: T) -> (r: Self)
        ensures
            r == (if is_start { ToggledEvent::Start(data) } else { ToggledEvent::Stop(data) }),
    {
        if is_start {
            ToggledEvent::Start(data)
        } else {
            ToggledEvent::Stop(data)
        }
    }

    /// Returns `true` if the current value is `ToggledEvent::Start`, otherwise `false`.
    pub fn is_start(&self) -> (r: bool)
        ensures
            r == (*self is Start),
    {
        match self {
            ToggledEvent::Start(_) => true,
            ToggledEvent::Stop(_) => false,
        }
    }

    /// Returns the inner data immutably.
    pub fn data(&self) -> (r: &T)
        ensures
            *r == self.spec_data(),
    {
        match self {
            ToggledEvent::Start(x) => x,
            ToggledEvent::Stop(x) => x,
        }
    }

    /// Returns the inner data mutably.
    pub fn data_mut(&mut self) -> (r: &mut T)
        ensures
            *r == old(self).spec_data(),
            (*final(self) is Start) == (*old(self) is Start),
            final(self).spec_data() == *final(r),
    {
        match self {
            ToggledEvent::Start(x) => x,
            ToggledEvent::Stop(x) => x,
        }
    }

    /// Consumes self, returning the inner data.
    pub fn into_data(self) -> (r: T)
        ensures
            r == self.spec_data(),
    {
        match self {
            ToggledEvent::Start(x) => x,
            ToggledEvent::Stop(x) => x,
        }
    }
}

} // verus!

verus! {

/// How a child should be aligned within a layout.
/// On which axis the align applies to depends on the layout.
#[derive(Debug, Clone, Copy, PartialEq, Eq, Hash, Structural)]
pub enum Align {
    /// The child is aligned to the beginning of the layout.
    Begin,
    /// The child is centered.
    Middle,
    /// The child is aligned to the end of the layout.
    End,
    /// The child is stretched to fill the container.
    Stretch,
}

impl Default for Align {
    fn default() -> (r: Self)
        ensures
            r == Align::Begin,
    {
        Align::Begin
    }
}

/// A change in the interaction with a widget. `P` is the type of a window position.
#[derive(Debug, Clone, Copy, PartialEq)]
pub enum InteractionEvent<P> {
    Pressed(P),
    Released(P),
    BeginHover(P),
    EndHover(P),
    Focus,
    Blur,
}

/// What one window event does to an interactive widget: the new flag bits, whether the widget
/// consumed the event, and the interaction events it reports.
///
/// `inside` tells whether the position carried by the event lies within the widget's mouse bounds.
pub open spec fn spec_interaction_step<P>(
    bits: u32,
    disabled: bool,
    event: WindowEvent<P>,
    inside: bool,
) -> (u32, bool, Seq<InteractionEvent<P>>) {
    match event {
        WindowEvent::MousePress(ce) => {
            if ce.spec_fresh() && !disabled && ce.spec_data().1 == MouseButton::Left && inside {
                (bits | PRESSED_BIT, true, seq![InteractionEvent::Pressed(ce.spec_data().0)])
            } else {
                (bits, false, seq![])
            }
        },
        WindowEvent::MouseRelease(ce) => {
            if ce.spec_fresh() && !disabled && ce.spec_data().1 == MouseButton::Left && has_bits(
                bits,
                PRESSED_BIT,
            ) {
                (
                    (bits & !PRESSED_BIT) | FOCUSED_BIT,
                    true,
                    if has_bits(bits, FOCUSED_BIT) {
                        seq![InteractionEvent::Released(ce.spec_data().0)]
                    } else {
                        seq![
                            InteractionEvent::Released(ce.spec_data().0),
                            InteractionEvent::Focus,
                        ]
                    },
                )
            } else {
                (bits, false, seq![])
            }
        },
        WindowEvent::MouseMove(ce) => {
            if ce.spec_fresh() && inside {
                if has_bits(bits, HOVERED_BIT) {
                    (bits, true, seq![])
                } else {
                    (bits | HOVERED_BIT, true, seq![InteractionEvent::BeginHover(ce.spec_data().0)])
                }
            } else if has_bits(bits, HOVERED_BIT) {
                (bits & !HOVERED_BIT, false, seq![InteractionEvent::EndHover(ce.spec_data().0)])
            } else {
                (bits, false, seq![])
            }
        },
        WindowEvent::ClearFocus => {
            if has_bits(bits, FOCUSED_BIT) {
                (bits & !FOCUSED_BIT, false, seq![InteractionEvent::Blur])
            } else {
                (bits, false, seq![])
            }
        },
        _ => (bits, false, seq![]),
    }
}

/// Handles basic interactivity for one window event: modifies the interaction flags and reports
/// the interaction changes that occurred.
///
/// - A left press inside the bounds of an enabled widget presses it.
/// - A left release of an enabled, pressed widget releases it and gives it focus.
/// - A move inside the bounds begins a hover; any other move ends a running hover.
/// - `ClearFocus` removes focus.
///
/// `Focus` and `Blur` are reported only when the focused flag actually changes.
pub fn basic_interaction<P: Copy>(
    interaction: &mut InteractionState,
    disabled: bool,
    event: &mut WindowEvent<P>,
    inside: bool,
) -> (out: Vec<InteractionEvent<P>>)
    ensures
        ({
            let (bits, consumed, events) = spec_interaction_step(
                old(interaction).spec_bits(),
                disabled,
                *old(event),
                inside,
            );
            &&& final(interaction).spec_bits() == bits
            &&& WindowEvent::spec_consumed_as(*old(event), *final(event), consumed)
            &&& out@ == events
        }),
{
    let mut out: Vec<InteractionEvent<P>> = Vec::new();
    let was_focused = interaction.contains(InteractionState::focused_flag());
    match event {
        WindowEvent::MousePress(ce) => {
            let left = ce.get().1 == MouseButton::Left;
            let accept = !disabled && left && inside;
            let taken = ce.with(|_d: &(P, MouseButton, KeyModifiers)| -> (b: bool)
                ensures
                    b == accept,
                { accept });
            if let Some(d) = taken {
                let pos = d.0;
                interaction.insert(InteractionState::pressed_flag());
                out.push(InteractionEvent::Pressed(pos));
            }
        },
        WindowEvent::MouseRelease(ce) => {
            let left = ce.get().1 == MouseButton::Left;
            let pressed = interaction.contains(InteractionState::pressed_flag());
            let accept = !disabled && left && pressed;
            let taken = ce.with(|_d: &(P, MouseButton, KeyModifiers)| -> (b: bool)
                ensures
                    b == accept,
                { accept });
            if let Some(d) = taken {
                let pos = d.0;
                interaction.remove(InteractionState::pressed_flag());
                interaction.insert(InteractionState::focused_flag());
                out.push(InteractionEvent::Released(pos));
                if !was_focused {
                    out.push(InteractionEvent::Focus);
                }
            }
        },
        WindowEvent::MouseMove(ce) => {
            let hovered = interaction.contains(InteractionState::hovered_flag());
            let taken = ce.with(|_d: &(P, KeyModifiers)| -> (b: bool)
                ensures
                    b == inside,
                { inside });
            if let Some(d) = taken {
                let pos = d.0;
                if !hovered {
                    interaction.insert(InteractionState::hovered_flag());
                    out.push(InteractionEvent::BeginHover(pos));
                }
            } else if hovered {
                let pos = ce.get().0;
                interaction.remove(InteractionState::hovered_flag());
                out.push(InteractionEvent::EndHover(pos));
            }
        },
        WindowEvent::ClearFocus => {
            if was_focused {
                interaction.remove(InteractionState::focused_flag());
                out.push(InteractionEvent::Blur);
            }
        },
        _ => {},
    }
    proof {
        assert(out@ =~= spec_interaction_step(
            old(interaction).spec_bits(),
            disabled,
            *old(event),
            inside,
        ).2);
    }
    out
}

} // verus!

verus! {

/// The effect of a batch of window events on an interactive widget, event after event:
/// the final flag bits, for each event whether the widget consumed it, and every reported
/// interaction event in order.
pub open spec fn spec_interaction_run<P>(
    bits: u32,
    disabled: bool,
    events: Seq<WindowEvent<P>>,
    inside: Seq<bool>,
) -> (u32, Seq<bool>, Seq<InteractionEvent<P>>)
    decreases events.len(),
{
    if events.len() == 0 {
        (bits, seq![], seq![])
    } else {
        let (b, consumed, out) = spec_interaction_run(
            bits,
            disabled,
            events.drop_last(),
            inside.drop_last(),
        );
        let (b2, c, o) = spec_interaction_step(b, disabled, events.last(), inside.last());
        (b2, consumed.push(c), out + o)
    }
}

/// Handles basic interactivity for a batch of window events, in order (see `basic_interaction`).
/// `inside[i]` tells whether the position of `events[i]` lies within the widget's mouse bounds.
pub fn basic_interaction_all<P: Copy>(
    interaction: &mut InteractionState,
    disabled: bool,
    events: &mut Vec<WindowEvent<P>>,
    inside: &Vec<bool>,
) -> (out: Vec<InteractionEvent<P>>)
    requires
        old(events).len() == inside.len(),
    ensures
        ({
            let (bits, consumed, reported) = spec_interaction_run(
                old(interaction).spec_bits(),
                disabled,
                old(events)@,
                inside@,
            );
            &&& final(interaction).spec_bits() == bits
            &&& final(events).len() == old(events).len()
            &&& forall|i: int|
                0 <= i < old(events).len() ==> WindowEvent::spec_consumed_as(
                    #[trigger] old(events)@[i],
                    final(events)@[i],
                    consumed[i],
                )
            &&& out@ == reported
        }),
{
    let ghost start = interaction.spec_bits();
    let ghost before = events@;
    let mut out: Vec<InteractionEvent<P>> = Vec::new();
    let n = events.len();
    let mut i: usize = 0;
    while i < n
        invariant
            n == events.len(),
            n == inside.len(),
            n == before.len(),
            0 <= i <= n,
            ({
                let (bits, consumed, reported) = spec_interaction_run(
                    start,
                    disabled,
                    before.take(i as int),
                    inside@.take(i as int),
                );
                &&& interaction.spec_bits() == bits
                &&& consumed.len() == i
                &&& forall|j: int|
                    0 <= j < i ==> WindowEvent::spec_consumed_as(
                        #[trigger] before[j],
                        events@[j],
                        consumed[j],
                    )
                &&& out@ == reported
            }),
            forall|j: int| i <= j < n ==> #[trigger] events@[j] == before[j],
        decreases n - i,
    {
        let ghost prev = spec_interaction_run(
            start,
            disabled,
            before.take(i as int),
            inside@.take(i as int),
        );
        proof {
            assert(before.take(i + 1).drop_last() =~= before.take(i as int));
            assert(inside@.take(i + 1).drop_last() =~= inside@.take(i as int));
        }
        let flag = inside[i];
        let step = basic_interaction(interaction, disabled, &mut events[i], flag);
        let mut k: usize = 0;
        while k < step.len()
            invariant
                0 <= k <= step.len(),
                out@ == prev.2 + step@.take(k as int),
            decreases step.len() - k,
        {
            out.push(step[k]);
            proof {
                assert(step@.take(k + 1) =~= step@.take(k as int).push(step@[k as int]));
            }
            k += 1;
        }
        proof {
            assert(step@.take(step.len() as int) =~= step@);
        }
        i += 1;
    }
    proof {
        assert(before.take(n as int) =~= before);
        assert(inside@.take(n as int) =~= inside@);
    }
    out
}

} // verus!
verus! {

/// Interaction events come in toggled pairs: across one window event, a widget reports a press
/// only when enabled, a release only while pressed, the start of a hover only while not hovered
/// and its end only while hovered, focus only when it gains focus and blur only when it loses
/// it; a disabled widget never becomes pressed, and focus changes are always reported.
pub proof fn lemma_interaction_pairs<P>(bits: u32, disabled: bool, event: WindowEvent<P>, inside: bool)
    requires
        bits <= ALL_BITS,
    ensures
        ({
            let (nb, consumed, out) = spec_interaction_step(bits, disabled, event, inside);
            &&& nb <= ALL_BITS
            &&& forall|p: P|
                out.contains(InteractionEvent::Pressed(p)) ==> !disabled && has_bits(
                    nb,
                    PRESSED_BIT,
                )
            &&& forall|p: P|
                out.contains(InteractionEvent::Released(p)) ==> has_bits(bits, PRESSED_BIT)
                    && !has_bits(nb, PRESSED_BIT) && has_bits(nb, FOCUSED_BIT)
            &&& forall|p: P|
                out.contains(InteractionEvent::BeginHover(p)) ==> !has_bits(bits, HOVERED_BIT)
                    && has_bits(nb, HOVERED_BIT)
            &&& forall|p: P|
                out.contains(InteractionEvent::EndHover(p)) ==> has_bits(bits, HOVERED_BIT)
                    && !has_bits(nb, HOVERED_BIT)
            &&& out.contains(InteractionEvent::Focus) <==> (!has_bits(bits, FOCUSED_BIT)
                && has_bits(nb, FOCUSED_BIT))
            &&& out.contains(InteractionEvent::Blur) <==> (has_bits(bits, FOCUSED_BIT) && !has_bits(
                nb,
                FOCUSED_BIT,
            ))
            &&& disabled && !has_bits(bits, PRESSED_BIT) ==> !has_bits(nb, PRESSED_BIT)
        }),
{
    lemma_flag_bits(bits);
    let b1 = bits & !PRESSED_BIT;
    lemma_flag_bits(b1);
    let (nb, consumed, out) = spec_interaction_step(bits, disabled, event, inside);
    match event {
        WindowEvent::MouseRelease(ce) => {
            if out.len() > 0 {
                assert(out[0] == InteractionEvent::Released(ce.spec_data().0));
                if !has_bits(bits, FOCUSED_BIT) {
                    assert(out[1] == InteractionEvent::<P>::Focus);
                }
            }
        },
        WindowEvent::ClearFocus => {
            if out.len() > 0 {
                assert(out[0] == InteractionEvent::<P>::Blur);
            }
        },
        _ => {},
    }
}

} // verus!

verus! {

/// A widget that derives its visual state from its data.
pub trait CoreWidget<S> {
    /// The visually relevant state of the widget.
    fn derive_state(&self) -> S;

    /// Called after the widget's rectangle changed.
    fn on_transform(&mut self) {
    }
}

} // verus!

verus! {

/// A click or a hover reaches at most one of several stacked widgets: once a widget has taken
/// a window event, the widget behind it does not take it too, and gets no press, release or
/// start of a hover from it.
pub proof fn lemma_event_taken_once<P>(
    front_bits: u32,
    front_disabled: bool,
    front_inside: bool,
    back_bits: u32,
    back_disabled: bool,
    back_inside: bool,
    event: WindowEvent<P>,
    seen_by_back: WindowEvent<P>,
)
    requires
        WindowEvent::spec_consumed_as(
            event,
            seen_by_back,
            spec_interaction_step(front_bits, front_disabled, event, front_inside).1,
        ),
    ensures
        ({
            let (_, front_took, _) = spec_interaction_step(
                front_bits,
                front_disabled,
                event,
                front_inside,
            );
            let (_, back_took, back_out) = spec_interaction_step(
                back_bits,
                back_disabled,
                seen_by_back,
                back_inside,
            );
            front_took ==> {
                &&& !back_took
                &&& forall|p: P|
                    !back_out.contains(InteractionEvent::Pressed(p)) && !back_out.contains(
                        InteractionEvent::Released(p),
                    ) && !back_out.contains(InteractionEvent::BeginHover(p))
            }
        }),
{
    let (_, front_took, _) = spec_interaction_step(front_bits, front_disabled, event, front_inside);
    let (_, back_took, back_out) = spec_interaction_step(
        back_bits,
        back_disabled,
        seen_by_back,
        back_inside,
    );
    if front_took {
        match seen_by_back {
            WindowEvent::MouseMove(ce) => {
                if back_out.len() > 0 {
                    assert(back_out[0] == InteractionEvent::EndHover(ce.spec_data().0));
                }
            },
            _ => {},
        }
    }
}

} // verus!

verus! {

/// The three toggled pairs of interaction events: press and release, the start and end of a
/// hover, focus and blur.
#[derive(Debug, Clone, Copy, PartialEq, Eq, Structural)]
pub enum ToggleKind {
    Press,
    Hover,
    Focus,
}

/// The flag that a kind of toggled event follows.
pub open spec fn toggle_flag(kind: ToggleKind) -> u32 {
    match kind {
        ToggleKind::Press => PRESSED_BIT,
        ToggleKind::Hover => HOVERED_BIT,
        ToggleKind::Focus => FOCUSED_BIT,
    }
}

/// Whether an interaction event starts a toggled pair of the kind.
pub open spec fn starts<P>(e: InteractionEvent<P>, kind: ToggleKind) -> bool {
    match kind {
        ToggleKind::Press => e is Pressed,
        ToggleKind::Hover => e is BeginHover,
        ToggleKind::Focus => e is Focus,
    }
}

/// Whether an interaction event stops a toggled pair of the kind.
pub open spec fn stops<P>(e: InteractionEvent<P>, kind: ToggleKind) -> bool {
    match kind {
        ToggleKind::Press => e is Released,
        ToggleKind::Hover => e is EndHover,
        ToggleKind::Focus => e is Blur,
    }
}

/// Reading interaction events one by one, with `on` telling whether a pair of the kind is
/// open: a stop must close an open pair; hover and focus starts must open a closed one (a press
/// may come while already pressed). `None` when the events break this; otherwise whether a pair
/// is open at the end.
pub open spec fn toggle_state<P>(on: bool, events: Seq<InteractionEvent<P>>, kind: ToggleKind) -> Option<bool>
    decreases events.len(),
{
    if events.len() == 0 {
        Some(on)
    } else {
        match toggle_state(on, events.drop_last(), kind) {
            None => None,
            Some(s) => {
                let e = events.last();
                if starts(e, kind) {
                    if s && kind != ToggleKind::Press {
                        None
                    } else {
                        Some(true)
                    }
                } else if stops(e, kind) {
                    if s {
                        Some(false)
                    } else {
                        None
                    }
                } else {
                    Some(s)
                }
            },
        }
    }
}

/// Reading two runs of events in turn is reading them one after the other.
proof fn lemma_toggle_state_append<P>(
    on: bool,
    a: Seq<InteractionEvent<P>>,
    b: Seq<InteractionEvent<P>>,
    kind: ToggleKind,
)
    ensures
        toggle_state(on, a + b, kind) == match toggle_state(on, a, kind) {
            Some(s) => toggle_state(s, b, kind),
            None => None,
        },
    decreases b.len(),
{
    if b.len() == 0 {
        assert(a + b =~= a);
    } else {
        assert((a + b).drop_last() =~= a + b.drop_last());
        assert((a + b).last() == b.last());
        lemma_toggle_state_append(on, a, b.drop_last(), kind);
    }
}

/// One window event keeps every toggled pair in step with its flag.
proof fn lemma_toggle_step<P>(
    bits: u32,
    disabled: bool,
    event: WindowEvent<P>,
    inside: bool,
    kind: ToggleKind,
)
    requires
        bits <= ALL_BITS,
    ensures
        ({
            let (nb, _, out) = spec_interaction_step(bits, disabled, event, inside);
            toggle_state(has_bits(bits, toggle_flag(kind)), out, kind) == Some(
                has_bits(nb, toggle_flag(kind)),
            )
        }),
{
    lemma_flag_bits(bits);
    let b1 = bits & !PRESSED_BIT;
    lemma_flag_bits(b1);
    let (nb, _, out) = spec_interaction_step(bits, disabled, event, inside);
    reveal_with_fuel(toggle_state, 3);
    if out.len() == 1 {
        assert(out.drop_last() =~= Seq::<InteractionEvent<P>>::empty());
    } else if out.len() == 2 {
        assert(out.drop_last().drop_last() =~= Seq::<InteractionEvent<P>>::empty());
        assert(out.drop_last().last() == out[0]);
    }
}

/// Interaction events keep every toggled pair in order across any sequence of window events
/// (and so across updates, each of which starts from the flags the last one left): a release
/// comes only after a press since the previous release, a hover ends only after it began, and
/// focus and blur alternate; at the end a pair is open exactly when its flag is set. So from a
/// widget nobody interacted with, each kind begins with its start.
pub proof fn lemma_toggles_in_order<P>(
    bits: u32,
    disabled: bool,
    events: Seq<WindowEvent<P>>,
    inside: Seq<bool>,
    kind: ToggleKind,
)
    requires
        bits <= ALL_BITS,
        events.len() == inside.len(),
    ensures
        spec_interaction_run(bits, disabled, events, inside).0 <= ALL_BITS,
        toggle_state(
            has_bits(bits, toggle_flag(kind)),
            spec_interaction_run(bits, disabled, events, inside).2,
            kind,
        ) == Some(has_bits(spec_interaction_run(bits, disabled, events, inside).0, toggle_flag(kind))),
    decreases events.len(),
{
    if events.len() > 0 {
        lemma_toggles_in_order(bits, disabled, events.drop_last(), inside.drop_last(), kind);
        let (b, _, out) = spec_interaction_run(bits, disabled, events.drop_last(), inside.drop_last());
        let (b2, _, o) = spec_interaction_step(b, disabled, events.last(), inside.last());
        lemma_interaction_pairs(b, disabled, events.last(), inside.last());
        lemma_toggle_step(b, disabled, events.last(), inside.last(), kind);
        lemma_toggle_state_append(has_bits(bits, toggle_flag(kind)), out, o, kind);
    }
}

/// A fresh left press is taken by an enabled widget exactly when it lands inside it; the
/// widget then becomes pressed and reports the press at the position pressed. Anything else
/// leaves the press and the flags alone and reports nothing.
pub proof fn lemma_press_taken_inside<P>(
    bits: u32,
    disabled: bool,
    press: ConsumableEvent<(P, MouseButton, KeyModifiers)>,
    inside: bool,
)
    requires
        bits <= ALL_BITS,
        press.spec_fresh(),
    ensures
        ({
            let (nb, taken, out) = spec_interaction_step(bits, disabled, WindowEvent::MousePress(press), inside);
            &&& taken == (!disabled && inside && press.spec_data().1 == MouseButton::Left)
            &&& taken ==> has_bits(nb, PRESSED_BIT) && out == seq![InteractionEvent::Pressed(press.spec_data().0)]
            &&& !taken ==> nb == bits && out.len() == 0
            &&& has_bits(nb, HOVERED_BIT) == has_bits(bits, HOVERED_BIT)
            &&& has_bits(nb, FOCUSED_BIT) == has_bits(bits, FOCUSED_BIT)
        }),
{
    lemma_flag_bits(bits);
}

/// A fresh cursor move inside a widget is taken, and begins a hover there if none was running;
/// a move outside is left for others and ends a running hover at the position moved to. The
/// other flags stay as they were.
pub proof fn lemma_hover_follows_cursor<P>(
    bits: u32,
    disabled: bool,
    moved: ConsumableEvent<(P, KeyModifiers)>,
    inside: bool,
)
    requires
        bits <= ALL_BITS,
        moved.spec_fresh(),
    ensures
        ({
            let (nb, taken, out) = spec_interaction_step(bits, disabled, WindowEvent::MouseMove(moved), inside);
            let p = moved.spec_data().0;
            &&& taken == inside
            &&& has_bits(nb, HOVERED_BIT) == inside
            &&& (inside && !has_bits(bits, HOVERED_BIT)) ==> out == seq![InteractionEvent::BeginHover(p)]
            &&& (!inside && has_bits(bits, HOVERED_BIT)) ==> out == seq![InteractionEvent::EndHover(p)]
            &&& (inside == has_bits(bits, HOVERED_BIT)) ==> out.len() == 0
            &&& has_bits(nb, PRESSED_BIT) == has_bits(bits, PRESSED_BIT)
            &&& has_bits(nb, FOCUSED_BIT) == has_bits(bits, FOCUSED_BIT)
        }),
{
    lemma_flag_bits(bits);
}

} // verus!
