//! Widget logic: how buttons, checkboxes and text areas react to window events.
//!
//! Each widget keeps its interaction flags and its plain data; painting, geometry and event
//! queues are the caller's. The caller hands in the window events of one update, in order, and
//! for each one whether its position lies within the widget's mouse bounds.

use vstd::prelude::*;

use crate::base::{KeyInput, KeyModifiers, WindowEvent};
use crate::pipe::Event;
use crate::state::{has_bits, ControlState, InteractionState, FOCUSED_BIT};
use crate::ui::{basic_interaction_all, spec_interaction_run, CoreWidget, InteractionEvent};

verus! {

/// Events emitted by a button.
#[derive(Debug, Clone, Copy, PartialEq)]
pub enum ButtonEvent<P> {
    /// Emitted when the button is pressed.
    Press(P),
    /// Emitted when the button is released.
    Release(P),
    /// Emitted when the mouse enters the button boundaries.
    BeginHover(P),
    /// Emitted when the mouse leaves the button boundaries.
    EndHover(P),
    /// Emitted when focus is gained.
    Focus,
    /// Emitted when focus is lost.
    Blur,
}

/// The button event that reports an interaction event.
pub open spec fn spec_button_event<P>(event: InteractionEvent<P>) -> ButtonEvent<P> {
    match event {
        InteractionEvent::Pressed(p) => ButtonEvent::Press(p),
        InteractionEvent::Released(p) => ButtonEvent::Release(p),
        InteractionEvent::BeginHover(p) => ButtonEvent::BeginHover(p),
        InteractionEvent::EndHover(p) => ButtonEvent::EndHover(p),
        InteractionEvent::Focus => ButtonEvent::Focus,
        InteractionEvent::Blur => ButtonEvent::Blur,
    }
}

/// Focus-able button widget logic.
#[derive(Debug, Clone, Copy)]
pub struct ButtonWidget {
    /// Interaction flags (hovered, pressed, focused).
    pub interaction: InteractionState,
    /// Whether the button can be interacted with.
    pub disabled: bool,
}

impl ButtonWidget {
    /// A button that nobody interacts with yet.
    pub fn new(disabled: bool) -> (r: Self)
        ensures
            r.disabled == disabled,
            r.interaction.spec_bits() == 0,
    {
        ButtonWidget { interaction: InteractionState::empty(), disabled }
    }

    /// The button event emitted for an interaction event.
    pub fn on_interaction_event<P: Copy>(&self, event: InteractionEvent<P>) -> (r: ButtonEvent<P>)
        ensures
            r == spec_button_event(event),
    {
        match event {
            InteractionEvent::Pressed(p) => ButtonEvent::Press(p),
            InteractionEvent::Released(p) => ButtonEvent::Release(p),
            InteractionEvent::BeginHover(p) => ButtonEvent::BeginHover(p),
            InteractionEvent::EndHover(p) => ButtonEvent::EndHover(p),
            InteractionEvent::Focus => ButtonEvent::Focus,
            InteractionEvent::Blur => ButtonEvent::Blur,
        }
    }

    /// Processes the window events of one update and returns the button events to emit.
    pub fn update<P: Copy>(&mut self, events: &mut Vec<WindowEvent<P>>, inside: &Vec<bool>) -> (out:
        Vec<ButtonEvent<P>>)
        requires
            old(events).len() == inside.len(),
        ensures
            ({
                let (bits, consumed, reported) = spec_interaction_run(
                    old(self).interaction.spec_bits(),
                    old(self).disabled,
                    old(events)@,
                    inside@,
                );
                &&& final(self).interaction.spec_bits() == bits
                &&& final(self).disabled == old(self).disabled
                &&& final(events).len() == old(events).len()
                &&& forall|i: int|
                    0 <= i < old(events).len() ==> WindowEvent::spec_consumed_as(
                        #[trigger] old(events)@[i],
                        final(events)@[i],
                        consumed[i],
                    )
                &&& out@ == reported.map_values(|e: InteractionEvent<P>| spec_button_event(e))
            }),
    {
        let reported = basic_interaction_all(&mut self.interaction, self.disabled, events, inside);
        let mut out: Vec<ButtonEvent<P>> = Vec::new();
        let mut i: usize = 0;
        while i < reported.len()
            invariant
                0 <= i <= reported.len(),
                out@ == reported@.take(i as int).map_values(
                    |e: InteractionEvent<P>| spec_button_event(e),
                ),
            decreases reported.len() - i,
        {
            let e = self.on_interaction_event(reported[i]);
            out.push(e);
            proof {
                assert(reported@.take(i + 1).map_values(
                    |e: InteractionEvent<P>| spec_button_event(e),
                ) =~= reported@.take(i as int).map_values(
                    |e: InteractionEvent<P>| spec_button_event(e),
                ).push(spec_button_event(reported@[i as int])));
            }
            i += 1;
        }
        proof {
            assert(reported@.take(reported.len() as int) =~= reported@);
        }
        out
    }
}

} // verus!

verus! {

/// Events emitted by a checkbox.
#[derive(Debug, Clone, Copy, PartialEq)]
pub enum CheckboxEvent<P> {
    /// Emitted when the checkbox is pressed.
    Press(P),
    /// Emitted when the checkbox is released.
    Release(P),
    /// Emitted when the checkbox is checked.
    Check(P),
    /// Emitted when the checkbox is unchecked.
    Uncheck(P),
    /// Emitted when the mouse enters the checkbox boundaries.
    BeginHover(P),
    /// Emitted when the mouse leaves the checkbox boundaries.
    EndHover(P),
    /// Emitted when focus is gained.
    Focus,
    /// Emitted when focus is lost.
    Blur,
}

/// How a checkbox reacts to one interaction event: its new checked state and the events it emits.
/// A release toggles the checked state.
pub open spec fn spec_checkbox_reaction<P>(checked: bool, event: InteractionEvent<P>) -> (bool, Seq<
    CheckboxEvent<P>,
>) {
    match event {
        InteractionEvent::Pressed(p) => (checked, seq![CheckboxEvent::Press(p)]),
        InteractionEvent::Released(p) => (
            !checked,
            seq![
                if !checked {
                    CheckboxEvent::Check(p)
                } else {
                    CheckboxEvent::Uncheck(p)
                },
                CheckboxEvent::Release(p),
            ],
        ),
        InteractionEvent::BeginHover(p) => (checked, seq![CheckboxEvent::BeginHover(p)]),
        InteractionEvent::EndHover(p) => (checked, seq![CheckboxEvent::EndHover(p)]),
        InteractionEvent::Focus => (checked, seq![CheckboxEvent::Focus]),
        InteractionEvent::Blur => (checked, seq![CheckboxEvent::Blur]),
    }
}

/// How a checkbox reacts to a sequence of interaction events, in order.
pub open spec fn spec_checkbox_reactions<P>(checked: bool, events: Seq<InteractionEvent<P>>) -> (
    bool,
    Seq<CheckboxEvent<P>>,
)
    decreases events.len(),
{
    if events.len() == 0 {
        (checked, seq![])
    } else {
        let (c, out) = spec_checkbox_reactions(checked, events.drop_last());
        let (c2, o) = spec_checkbox_reaction(c, events.last());
        (c2, out + o)
    }
}

/// The plain state of a checkbox.
#[derive(Debug, Clone, Copy, PartialEq, Eq, Structural)]
pub struct Checkbox {
    /// Whether the checkbox is checked.
    pub checked: bool,
    /// Whether the checkbox can be interacted with.
    pub disabled: bool,
}

/// Toggled checkbox logic.
#[derive(Debug, Clone, Copy)]
pub struct CheckboxWidget {
    pub data: Checkbox,
    /// Interaction flags (hovered, pressed, focused).
    pub interaction: InteractionState,
}

impl CheckboxWidget {
    /// A checkbox that nobody interacts with yet.
    pub fn new(data: Checkbox) -> (r: Self)
        ensures
            r.data == data,
            r.interaction.spec_bits() == 0,
    {
        CheckboxWidget { data, interaction: InteractionState::empty() }
    }

    /// Reacts to one interaction event: a release toggles `checked` and reports `Check` or
    /// `Uncheck` before `Release`; every other interaction event is reported as is.
    pub fn on_interaction_event<P: Copy>(&mut self, event: InteractionEvent<P>) -> (out: Vec<
        CheckboxEvent<P>,
    >)
        ensures
            ({
                let (c, o) = spec_checkbox_reaction(old(self).data.checked, event);
                &&& final(self).data.checked == c
                &&& final(self).data.disabled == old(self).data.disabled
                &&& final(self).interaction == old(self).interaction
                &&& out@ == o
            }),
    {
        let mut out: Vec<CheckboxEvent<P>> = Vec::new();
        match event {
            InteractionEvent::Pressed(p) => out.push(CheckboxEvent::Press(p)),
            InteractionEvent::Released(p) => {
                self.data.checked = !self.data.checked;
                if self.data.checked {
                    out.push(CheckboxEvent::Check(p));
                } else {
                    out.push(CheckboxEvent::Uncheck(p));
                }
                out.push(CheckboxEvent::Release(p));
            },
            InteractionEvent::BeginHover(p) => out.push(CheckboxEvent::BeginHover(p)),
            InteractionEvent::EndHover(p) => out.push(CheckboxEvent::EndHover(p)),
            InteractionEvent::Focus => out.push(CheckboxEvent::Focus),
            InteractionEvent::Blur => out.push(CheckboxEvent::Blur),
        }
        proof {
            assert(out@ =~= spec_checkbox_reaction(old(self).data.checked, event).1);
        }
        out
    }

    /// Processes the window events of one update and returns the checkbox events to emit.
    pub fn update<P: Copy>(&mut self, events: &mut Vec<WindowEvent<P>>, inside: &Vec<bool>) -> (out:
        Vec<CheckboxEvent<P>>)
        requires
            old(events).len() == inside.len(),
        ensures
            ({
                let (bits, consumed, reported) = spec_interaction_run(
                    old(self).interaction.spec_bits(),
                    old(self).data.disabled,
                    old(events)@,
                    inside@,
                );
                let (checked, emitted) = spec_checkbox_reactions(old(self).data.checked, reported);
                &&& final(self).interaction.spec_bits() == bits
                &&& final(self).data.disabled == old(self).data.disabled
                &&& final(self).data.checked == checked
                &&& final(events).len() == old(events).len()
                &&& forall|i: int|
                    0 <= i < old(events).len() ==> WindowEvent::spec_consumed_as(
                        #[trigger] old(events)@[i],
                        final(events)@[i],
                        consumed[i],
                    )
                &&& out@ == emitted
            }),
    {
        let reported = basic_interaction_all(
            &mut self.interaction,
            self.data.disabled,
            events,
            inside,
        );
        let ghost start = self.data.checked;
        let ghost inter = self.interaction;
        let mut out: Vec<CheckboxEvent<P>> = Vec::new();
        let mut i: usize = 0;
        while i < reported.len()
            invariant
                0 <= i <= reported.len(),
                self.data.disabled == old(self).data.disabled,
                self.interaction == inter,
                ({
                    let (c, o) = spec_checkbox_reactions(start, reported@.take(i as int));
                    &&& self.data.checked == c
                    &&& out@ == o
                }),
            decreases reported.len() - i,
        {
            proof {
                assert(reported@.take(i + 1).drop_last() =~= reported@.take(i as int));
            }
            let mut step = self.on_interaction_event(reported[i]);
            out.append(&mut step);
            i += 1;
        }
        proof {
            assert(reported@.take(reported.len() as int) =~= reported@);
        }
        out
    }
}

} // verus!

verus! {

impl<P> Event for ButtonEvent<P> {
    open spec fn spec_key(&self) -> Seq<char> {
        match self {
            ButtonEvent::Press(_) => "press"@,
            ButtonEvent::Release(_) => "release"@,
            ButtonEvent::BeginHover(_) => "begin_hover"@,
            ButtonEvent::EndHover(_) => "end_hover"@,
            ButtonEvent::Focus => "focus"@,
            ButtonEvent::Blur => "blur"@,
        }
    }

    fn get_key(&self) -> (k: &'static str) {
        match self {
            ButtonEvent::Press(_) => "press",
            ButtonEvent::Release(_) => "release",
            ButtonEvent::BeginHover(_) => "begin_hover",
            ButtonEvent::EndHover(_) => "end_hover",
            ButtonEvent::Focus => "focus",
            ButtonEvent::Blur => "blur",
        }
    }
}

impl<P> Event for CheckboxEvent<P> {
    open spec fn spec_key(&self) -> Seq<char> {
        match self {
            CheckboxEvent::Press(_) => "press"@,
            CheckboxEvent::Release(_) => "release"@,
            CheckboxEvent::Check(_) => "check"@,
            CheckboxEvent::Uncheck(_) => "uncheck"@,
            CheckboxEvent::BeginHover(_) => "begin_hover"@,
            CheckboxEvent::EndHover(_) => "end_hover"@,
            CheckboxEvent::Focus => "focus"@,
            CheckboxEvent::Blur => "blur"@,
        }
    }

    fn get_key(&self) -> (k: &'static str) {
        match self {
            CheckboxEvent::Press(_) => "press",
            CheckboxEvent::Release(_) => "release",
            CheckboxEvent::Check(_) => "check",
            CheckboxEvent::Uncheck(_) => "uncheck",
            CheckboxEvent::BeginHover(_) => "begin_hover",
            CheckboxEvent::EndHover(_) => "end_hover",
            CheckboxEvent::Focus => "focus",
            CheckboxEvent::Blur => "blur",
        }
    }
}

} // verus!

verus! {

impl CoreWidget<ControlState> for ButtonWidget {
    fn derive_state(&self) -> (r: ControlState)
        ensures
            r == (if self.disabled {
                ControlState::Disabled
            } else {
                ControlState::Normal(self.interaction)
            }),
    {
        ControlState::from_widget(self.disabled, self.interaction)
    }
}

impl CoreWidget<ControlState> for CheckboxWidget {
    fn derive_state(&self) -> (r: ControlState)
        ensures
            r == (if self.data.disabled {
                ControlState::Disabled
            } else {
                ControlState::Normal(self.interaction)
            }),
    {
        ControlState::from_widget(self.data.disabled, self.interaction)
    }
}

} // verus!

verus! {

/// The number of releases among interaction events.
pub open spec fn count_releases<P>(events: Seq<InteractionEvent<P>>) -> nat
    decreases events.len(),
{
    if events.len() == 0 {
        0
    } else {
        count_releases(events.drop_last()) + if events.last() is Released {
            1nat
        } else {
            0nat
        }
    }
}

/// Every release toggles a checkbox exactly once: after a sequence of interaction events the
/// checkbox is checked when it started checked and saw an even number of releases, or started
/// unchecked and saw an odd number.
pub proof fn lemma_checkbox_toggles<P>(checked: bool, events: Seq<InteractionEvent<P>>)
    ensures
        spec_checkbox_reactions(checked, events).0 == (checked != (count_releases(events) % 2
            == 1)),
    decreases events.len(),
{
    if events.len() > 0 {
        lemma_checkbox_toggles(checked, events.drop_last());
    }
}

} // verus!

verus! {

/// Each button event has a key of its own: two button events share a key exactly when they are
/// the same kind of event, so a handler bound to one kind never receives another. A button
/// event's key is the key of the checkbox event of the same name.
pub proof fn lemma_button_keys_distinct<P>(a: ButtonEvent<P>, b: ButtonEvent<P>, p: P)
    ensures
        a.spec_key() == b.spec_key() <==> ({
            &&& (a is Press <==> b is Press)
            &&& (a is Release <==> b is Release)
            &&& (a is BeginHover <==> b is BeginHover)
            &&& (a is EndHover <==> b is EndHover)
            &&& (a is Focus <==> b is Focus)
            &&& (a is Blur <==> b is Blur)
        }),
        ButtonEvent::Press(p).spec_key() == CheckboxEvent::Press(p).spec_key(),
        ButtonEvent::Release(p).spec_key() == CheckboxEvent::Release(p).spec_key(),
        ButtonEvent::BeginHover(p).spec_key() == CheckboxEvent::BeginHover(p).spec_key(),
        ButtonEvent::EndHover(p).spec_key() == CheckboxEvent::EndHover(p).spec_key(),
        ButtonEvent::<P>::Focus.spec_key() == CheckboxEvent::<P>::Focus.spec_key(),
        ButtonEvent::<P>::Blur.spec_key() == CheckboxEvent::<P>::Blur.spec_key(),
{
    reveal_strlit("press");
    reveal_strlit("release");
    reveal_strlit("begin_hover");
    reveal_strlit("end_hover");
    reveal_strlit("focus");
    reveal_strlit("blur");
    reveal_strlit("check");
    reveal_strlit("uncheck");
    lemma_keys_differ();
}

/// Each checkbox event has a key of its own: two checkbox events share a key exactly when they
/// are the same kind of event.
pub proof fn lemma_checkbox_keys_distinct<P>(a: CheckboxEvent<P>, b: CheckboxEvent<P>)
    ensures
        a.spec_key() == b.spec_key() <==> ({
            &&& (a is Press <==> b is Press)
            &&& (a is Release <==> b is Release)
            &&& (a is Check <==> b is Check)
            &&& (a is Uncheck <==> b is Uncheck)
            &&& (a is BeginHover <==> b is BeginHover)
            &&& (a is EndHover <==> b is EndHover)
            &&& (a is Focus <==> b is Focus)
            &&& (a is Blur <==> b is Blur)
        }),
{
    lemma_keys_differ();
}

/// The event keys of buttons and checkboxes are different strings.
proof fn lemma_keys_differ()
    ensures
        "press"@ != "release"@,
        "press"@ != "begin_hover"@,
        "press"@ != "end_hover"@,
        "press"@ != "focus"@,
        "press"@ != "blur"@,
        "press"@ != "check"@,
        "press"@ != "uncheck"@,
        "release"@ != "begin_hover"@,
        "release"@ != "end_hover"@,
        "release"@ != "focus"@,
        "release"@ != "blur"@,
        "release"@ != "check"@,
        "release"@ != "uncheck"@,
        "begin_hover"@ != "end_hover"@,
        "begin_hover"@ != "focus"@,
        "begin_hover"@ != "blur"@,
        "begin_hover"@ != "check"@,
        "begin_hover"@ != "uncheck"@,
        "end_hover"@ != "focus"@,
        "end_hover"@ != "blur"@,
        "end_hover"@ != "check"@,
        "end_hover"@ != "uncheck"@,
        "focus"@ != "blur"@,
        "focus"@ != "check"@,
        "focus"@ != "uncheck"@,
        "blur"@ != "check"@,
        "blur"@ != "uncheck"@,
        "check"@ != "uncheck"@,
{
    reveal_strlit("press");
    reveal_strlit("release");
    reveal_strlit("begin_hover");
    reveal_strlit("end_hover");
    reveal_strlit("focus");
    reveal_strlit("blur");
    reveal_strlit("check");
    reveal_strlit("uncheck");
    assert("press"@[0] != "release"@[0]);
    assert("press"@[0] != "begin_hover"@[0]);
    assert("press"@[0] != "end_hover"@[0]);
    assert("press"@[0] != "focus"@[0]);
    assert("press"@[0] != "blur"@[0]);
    assert("press"@[0] != "check"@[0]);
    assert("press"@[0] != "uncheck"@[0]);
    assert("release"@[0] != "begin_hover"@[0]);
    assert("release"@[0] != "end_hover"@[0]);
    assert("release"@[0] != "focus"@[0]);
    assert("release"@[0] != "blur"@[0]);
    assert("release"@[0] != "check"@[0]);
    assert("release"@[0] != "uncheck"@[0]);
    assert("begin_hover"@[0] != "end_hover"@[0]);
    assert("begin_hover"@[0] != "focus"@[0]);
    assert("begin_hover"@.len() != "blur"@.len());
    assert("begin_hover"@[0] != "check"@[0]);
    assert("begin_hover"@[0] != "uncheck"@[0]);
    assert("end_hover"@[0] != "focus"@[0]);
    assert("end_hover"@[0] != "blur"@[0]);
    assert("end_hover"@[0] != "check"@[0]);
    assert("end_hover"@[0] != "uncheck"@[0]);
    assert("focus"@[0] != "blur"@[0]);
    assert("focus"@[0] != "check"@[0]);
    assert("focus"@[0] != "uncheck"@[0]);
    assert("blur"@.len() != "check"@.len());
    assert("blur"@[0] != "uncheck"@[0]);
    assert("check"@[0] != "uncheck"@[0]);
}

/// A button reports each interaction event as the button event of the same name, at the same
/// position.
pub proof fn lemma_button_reports_same_event<P>(p: P)
    ensures
        spec_button_event(InteractionEvent::Pressed(p)) == ButtonEvent::Press(p),
        spec_button_event(InteractionEvent::Released(p)) == ButtonEvent::Release(p),
        spec_button_event(InteractionEvent::BeginHover(p)) == ButtonEvent::BeginHover(p),
        spec_button_event(InteractionEvent::EndHover(p)) == ButtonEvent::EndHover(p),
        spec_button_event(InteractionEvent::<P>::Focus) == ButtonEvent::<P>::Focus,
        spec_button_event(InteractionEvent::<P>::Blur) == ButtonEvent::<P>::Blur,
{
}

/// A checkbox reports every interaction event other than a release as the checkbox event of the
/// same name, at the same position, and stays as checked as it was; a release flips the checked
/// state and reports the new state (check when it becomes checked, uncheck otherwise) before the
/// release itself, at the release's position.
pub proof fn lemma_checkbox_reports_same_event<P>(checked: bool, p: P)
    ensures
        spec_checkbox_reaction(checked, InteractionEvent::Pressed(p)) == (checked, seq![CheckboxEvent::Press(p)]),
        spec_checkbox_reaction(checked, InteractionEvent::BeginHover(p)) == (
            checked,
            seq![CheckboxEvent::BeginHover(p)],
        ),
        spec_checkbox_reaction(checked, InteractionEvent::EndHover(p)) == (
            checked,
            seq![CheckboxEvent::EndHover(p)],
        ),
        spec_checkbox_reaction(checked, InteractionEvent::<P>::Focus) == (
            checked,
            seq![CheckboxEvent::<P>::Focus],
        ),
        spec_checkbox_reaction(checked, InteractionEvent::<P>::Blur) == (
            checked,
            seq![CheckboxEvent::<P>::Blur],
        ),
        ({
            let (c, out) = spec_checkbox_reaction(checked, InteractionEvent::Released(p));
            &&& c == !checked
            &&& out.len() == 2
            &&& out[0] == (if c { CheckboxEvent::Check(p) } else { CheckboxEvent::Uncheck(p) })
            &&& out[1] == CheckboxEvent::Release(p)
        }),
{
}

} // verus!

