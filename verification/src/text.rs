//! Single-line text input: the text area's editing logic.

use vstd::prelude::*;
use vstd::string::StringSliceAdditionalSpecFns;

use crate::base::{lemma_consumed_as_compose, ConsumableEvent, KeyInput, KeyModifiers, WindowEvent};
use crate::pipe::Event;
use crate::state::{has_bits, ControlState, InteractionState, FOCUSED_BIT};
use crate::ui::{basic_interaction_all, spec_interaction_run, CoreWidget, InteractionEvent};
use vstd::utf8::{is_ascii_chars, is_ascii_chars_encode_utf8};

verus! {

/// Inserts an ASCII character into an ASCII string at a character position.
///
/// Calls `String::insert`, which inserts at a byte position; in an ASCII string every
/// character is one byte, so byte and character positions coincide. The contract claims that
/// the character lands at `idx` and the rest of the string is kept around it.
#[verifier::external_body]
fn string_insert_ascii(s: &mut String, idx: usize, ch: char)
    requires
        is_ascii_chars(old(s)@),
        ch <= '\u{7f}',
        idx <= old(s)@.len(),
        old(s)@.len() < isize::MAX,
    ensures
        final(s)@ == old(s)@.subrange(0, idx as int) + seq![ch] + old(s)@.subrange(
            idx as int,
            old(s)@.len() as int,
        ),
{
    s.insert(idx, ch)
}

/// Removes the character at a character position of an ASCII string and returns it.
///
/// Calls `String::remove`, which removes at a byte position; in an ASCII string byte and
/// character positions coincide. The contract claims that the returned character is the one
/// at `idx` and that it alone leaves the string.
#[verifier::external_body]
fn string_remove_ascii(s: &mut String, idx: usize) -> (r: char)
    requires
        is_ascii_chars(old(s)@),
        idx < old(s)@.len(),
    ensures
        r == old(s)@[idx as int],
        final(s)@ == old(s)@.remove(idx as int),
{
    s.remove(idx)
}

/// Whether a character is an ASCII graphic character (`'!'` to `'~'`).
pub open spec fn spec_is_ascii_graphic(c: char) -> bool {
    0x21 <= (c as u32) <= 0x7e
}

/// Whether a character is ASCII whitespace: space, tab, line feed, form feed or carriage return.
pub open spec fn spec_is_ascii_whitespace(c: char) -> bool {
    let v = c as u32;
    v == 0x20 || v == 0x09 || v == 0x0a || v == 0x0c || v == 0x0d
}

/// Whether a character is an ASCII graphic character.
pub fn is_ascii_graphic(c: char) -> (r: bool)
    ensures
        r == spec_is_ascii_graphic(c),
{
    let v = c as u32;
    0x21 <= v && v <= 0x7e
}

/// Whether a character is ASCII whitespace.
pub fn is_ascii_whitespace(c: char) -> (r: bool)
    ensures
        r == spec_is_ascii_whitespace(c),
{
    let v = c as u32;
    v == 0x20 || v == 0x09 || v == 0x0a || v == 0x0c || v == 0x0d
}

/// Text which can either be displayed normally or as placeholder.
#[derive(Debug, Clone, PartialEq, Eq)]
pub enum InputText {
    Normal(String),
    Placeholder(String),
}

/// The plain state of a text area.
#[derive(Debug, Clone)]
pub struct TextArea {
    /// Text within the text area.
    pub text: String,
    /// Placeholder text to appear when text is empty.
    pub placeholder: String,
    /// Whether the text area can be interacted with.
    pub disabled: bool,
    /// Text cursor position, in characters from the start.
    pub cursor: usize,
}

impl TextArea {
    /// The text is ASCII, no longer than a `String` can be, and the cursor lies within it
    /// (at most at its end).
    pub open spec fn wf(&self) -> bool {
        &&& is_ascii_chars(self.text@)
        &&& self.text@.len() <= isize::MAX
        &&& self.cursor <= self.text@.len()
    }

    /// An empty text area with no placeholder.
    pub fn new() -> (r: Self)
        ensures
            r.wf(),
            r.text@.len() == 0,
            r.placeholder@.len() == 0,
            !r.disabled,
            r.cursor == 0,
    {
        TextArea { text: String::new(), placeholder: String::new(), disabled: false, cursor: 0 }
    }

    /// The text to show: the placeholder while the text is empty, the text otherwise.
    pub fn displayed_text(&self) -> (r: InputText)
        ensures
            match r {
                InputText::Placeholder(s) => self.text@.len() == 0 && s@ == self.placeholder@,
                InputText::Normal(s) => self.text@.len() > 0 && s@ == self.text@,
            },
    {
        if self.text.as_str().is_empty() {
            InputText::Placeholder(self.placeholder.clone())
        } else {
            InputText::Normal(self.text.clone())
        }
    }
}

} // verus!

verus! {

/// Events emitted by a text area.
#[derive(Debug, Clone, PartialEq)]
pub enum TextAreaEvent {
    /// The text area gained focus.
    Focus,
    /// The text area lost focus.
    Blur,
    /// The user modified text within the text area; carries the new text.
    UserModify(String),
}

/// What a text area event says, with the text taken by its characters.
pub enum TextAreaEventView {
    Focus,
    Blur,
    UserModify(Seq<char>),
}

impl View for TextAreaEvent {
    type V = TextAreaEventView;

    open spec fn view(&self) -> TextAreaEventView {
        match self {
            TextAreaEvent::Focus => TextAreaEventView::Focus,
            TextAreaEvent::Blur => TextAreaEventView::Blur,
            TextAreaEvent::UserModify(s) => TextAreaEventView::UserModify(s@),
        }
    }
}

/// The text after inserting `c` at `cursor`.
pub open spec fn spec_insert(text: Seq<char>, cursor: int, c: char) -> Seq<char> {
    text.subrange(0, cursor) + seq![c] + text.subrange(cursor, text.len() as int)
}

/// Text area logic: a text with a cursor, and its interaction flags.
#[derive(Debug, Clone)]
pub struct TextAreaWidget {
    pub data: TextArea,
    /// Interaction flags (hovered, pressed, focused).
    pub interaction: InteractionState,
}

impl TextAreaWidget {
    /// A text area that nobody interacts with yet.
    pub fn new(data: TextArea) -> (r: Self)
        ensures
            r.data == data,
            r.interaction.spec_bits() == 0,
    {
        TextAreaWidget { data, interaction: InteractionState::empty() }
    }

    /// The length of the text, in characters.
    fn text_len(&self) -> (r: usize)
        requires
            self.data.wf(),
        ensures
            r == self.data.text@.len(),
    {
        let s = self.data.text.as_str();
        proof {
            is_ascii_chars_encode_utf8(s@);
            assert(s.spec_bytes() == vstd::utf8::encode_utf8(s@));
        }
        s.len()
    }

    /// Adds a character to the text at the cursor and moves the cursor past it.
    pub fn push_char(&mut self, c: char)
        requires
            old(self).data.wf(),
            (c as u32) <= 0x7f,
            old(self).data.text@.len() < isize::MAX,
        ensures
            final(self).data.wf(),
            final(self).data.text@ == spec_insert(
                old(self).data.text@,
                old(self).data.cursor as int,
                c,
            ),
            final(self).data.cursor == old(self).data.cursor + 1,
            final(self).data.placeholder == old(self).data.placeholder,
            final(self).data.disabled == old(self).data.disabled,
            final(self).interaction == old(self).interaction,
    {
        let cursor = self.data.cursor;
        assert(c <= '\u{7f}');
        string_insert_ascii(&mut self.data.text, cursor, c);
        self.data.cursor = cursor + 1;
        proof {
            let t = self.data.text@;
            assert forall|i: int| 0 <= i < t.len() implies '\0' <= #[trigger] t[i] <= '\u{7f}' by {
                if i < cursor {
                    assert(t[i] == old(self).data.text@[i]);
                } else if i > cursor {
                    assert(t[i] == old(self).data.text@[i - 1]);
                }
            }
        }
    }

    /// Removes the character before the cursor, if there is one, and moves the cursor back.
    pub fn remove_char(&mut self)
        requires
            old(self).data.wf(),
        ensures
            final(self).data.wf(),
            if old(self).data.cursor > 0 {
                &&& final(self).data.text@ == old(self).data.text@.remove(
                    old(self).data.cursor - 1,
                )
                &&& final(self).data.cursor == old(self).data.cursor - 1
            } else {
                &&& final(self).data.text@ == old(self).data.text@
                &&& final(self).data.cursor == 0
            },
            final(self).data.placeholder == old(self).data.placeholder,
            final(self).data.disabled == old(self).data.disabled,
            final(self).interaction == old(self).interaction,
    {
        if self.text_len() > 0 && self.data.cursor > 0 {
            let cursor = self.data.cursor;
            let _removed = string_remove_ascii(&mut self.data.text, cursor - 1);
            self.data.cursor = cursor - 1;
            proof {
                let t = self.data.text@;
                assert forall|i: int| 0 <= i < t.len() implies '\0' <= #[trigger] t[i]
                    <= '\u{7f}' by {
                    if i < cursor - 1 {
                        assert(t[i] == old(self).data.text@[i]);
                    } else {
                        assert(t[i] == old(self).data.text@[i + 1]);
                    }
                }
            }
        }
    }

    /// Moves the text cursor by an offset, unless that would put it outside the text.
    pub fn move_cursor(&mut self, offset: isize)
        requires
            old(self).data.wf(),
        ensures
            final(self).data.wf(),
            final(self).data.text == old(self).data.text,
            final(self).data.cursor == (if 0 <= old(self).data.cursor + offset
                <= old(self).data.text@.len() {
                (old(self).data.cursor + offset) as usize
            } else {
                old(self).data.cursor
            }),
            final(self).data.placeholder == old(self).data.placeholder,
            final(self).data.disabled == old(self).data.disabled,
            final(self).interaction == old(self).interaction,
    {
        let len = self.text_len();
        let cursor: i128 = self.data.cursor as i128 + offset as i128;
        if 0 <= cursor && cursor <= len as i128 {
            self.data.cursor = cursor as usize;
        }
    }

    /// The text area event emitted for an interaction event: focus and blur are reported,
    /// other interaction events are not.
    pub fn on_interaction_event<P>(&self, event: InteractionEvent<P>) -> (r: Option<
        TextAreaEvent,
    >)
        ensures
            r == (match event {
                InteractionEvent::Focus => Some(TextAreaEvent::Focus),
                InteractionEvent::Blur => Some(TextAreaEvent::Blur),
                _ => None,
            }),
    {
        match event {
            InteractionEvent::Focus => Some(TextAreaEvent::Focus),
            InteractionEvent::Blur => Some(TextAreaEvent::Blur),
            _ => None,
        }
    }
}

} // verus!

verus! {

/// What the text-editing handler of a text area does with one window event: the new text and
/// cursor, whether it consumed the event, and the events it reports. Text input and key presses
/// are taken only while the text area is focused; only ASCII graphic and whitespace characters
/// are inserted; backspace removes the character before the cursor; left and right arrows move
/// the cursor within the text.
pub open spec fn spec_text_step<P>(
    text: Seq<char>,
    cursor: int,
    focused: bool,
    event: WindowEvent<P>,
) -> (Seq<char>, int, bool, Seq<TextAreaEventView>) {
    match event {
        WindowEvent::TextInput(ce) => {
            if ce.spec_fresh() && focused {
                let c = ce.spec_data();
                if spec_is_ascii_graphic(c) || spec_is_ascii_whitespace(c) {
                    let t = spec_insert(text, cursor, c);
                    (t, cursor + 1, true, seq![TextAreaEventView::UserModify(t)])
                } else {
                    (text, cursor, true, seq![])
                }
            } else {
                (text, cursor, false, seq![])
            }
        },
        WindowEvent::KeyPress(ce) => {
            if ce.spec_fresh() && focused {
                match ce.spec_data().0 {
                    KeyInput::Back => {
                        if cursor > 0 {
                            let t = text.remove(cursor - 1);
                            (t, cursor - 1, true, seq![TextAreaEventView::UserModify(t)])
                        } else {
                            (text, cursor, true, seq![])
                        }
                    },
                    KeyInput::Left => (
                        text,
                        if cursor - 1 >= 0 {
                            cursor - 1
                        } else {
                            cursor
                        },
                        true,
                        seq![],
                    ),
                    KeyInput::Right => (
                        text,
                        if cursor + 1 <= text.len() {
                            cursor + 1
                        } else {
                            cursor
                        },
                        true,
                        seq![],
                    ),
                    _ => (text, cursor, true, seq![]),
                }
            } else {
                (text, cursor, false, seq![])
            }
        },
        _ => (text, cursor, false, seq![]),
    }
}

/// The text-editing handler over a batch of window events, in order.
pub open spec fn spec_text_run<P>(
    text: Seq<char>,
    cursor: int,
    focused: bool,
    events: Seq<WindowEvent<P>>,
) -> (Seq<char>, int, Seq<bool>, Seq<TextAreaEventView>)
    decreases events.len(),
{
    if events.len() == 0 {
        (text, cursor, seq![], seq![])
    } else {
        let (t, c, consumed, out) = spec_text_run(text, cursor, focused, events.drop_last());
        let (t2, c2, k, o) = spec_text_step(t, c, focused, events.last());
        (t2, c2, consumed.push(k), out + o)
    }
}

/// The focus and blur changes among interaction events, as text area events.
pub open spec fn spec_focus_events<P>(events: Seq<InteractionEvent<P>>) -> Seq<TextAreaEventView>
    decreases events.len(),
{
    if events.len() == 0 {
        seq![]
    } else {
        spec_focus_events(events.drop_last()) + match events.last() {
            InteractionEvent::Focus => seq![TextAreaEventView::Focus],
            InteractionEvent::Blur => seq![TextAreaEventView::Blur],
            _ => seq![],
        }
    }
}

/// Basic interaction only ever consumes mouse events.
proof fn lemma_interaction_consumes_mouse_only<P>(
    bits: u32,
    disabled: bool,
    events: Seq<WindowEvent<P>>,
    inside: Seq<bool>,
)
    requires
        events.len() == inside.len(),
    ensures
        spec_interaction_run(bits, disabled, events, inside).1.len() == events.len(),
        forall|i: int|
            0 <= i < events.len() && #[trigger] spec_interaction_run(
                bits,
                disabled,
                events,
                inside,
            ).1[i] ==> (events[i] is MousePress || events[i] is MouseRelease
                || events[i] is MouseMove),
    decreases events.len(),
{
    if events.len() > 0 {
        lemma_interaction_consumes_mouse_only(
            bits,
            disabled,
            events.drop_last(),
            inside.drop_last(),
        );
    }
}

impl TextAreaWidget {
    /// Processes the window events of one update and returns the text area events to emit:
    /// first the focus changes that basic interaction caused over the whole batch, then the
    /// modifications that the text-editing handler made, as the two handlers run one after the
    /// other over the batch.
    pub fn update<P: Copy>(&mut self, events: &mut Vec<WindowEvent<P>>, inside: &Vec<bool>) -> (out:
        Vec<TextAreaEvent>)
        requires
            old(self).data.wf(),
            old(events).len() == inside.len(),
            old(self).data.text@.len() + old(events).len() < isize::MAX,
        ensures
            final(self).data.wf(),
            ({
                let (bits, consumed, reported) = spec_interaction_run(
                    old(self).interaction.spec_bits(),
                    old(self).data.disabled,
                    old(events)@,
                    inside@,
                );
                let (text, cursor, taken, edits) = spec_text_run(
                    old(self).data.text@,
                    old(self).data.cursor as int,
                    has_bits(bits, FOCUSED_BIT),
                    old(events)@,
                );
                &&& final(self).interaction.spec_bits() == bits
                &&& final(self).data.text@ == text
                &&& final(self).data.cursor == cursor
                &&& final(self).data.disabled == old(self).data.disabled
                &&& final(self).data.placeholder == old(self).data.placeholder
                &&& final(events).len() == old(events).len()
                &&& forall|i: int|
                    0 <= i < old(events).len() ==> WindowEvent::spec_consumed_as(
                        #[trigger] old(events)@[i],
                        final(events)@[i],
                        consumed[i] || taken[i],
                    )
                &&& out@.map_values(|e: TextAreaEvent| e@) == spec_focus_events(reported) + edits
            }),
    {
        let ghost before = events@;
        let reported = basic_interaction_all(
            &mut self.interaction,
            self.data.disabled,
            events,
            inside,
        );
        proof {
            lemma_interaction_consumes_mouse_only(
                old(self).interaction.spec_bits(),
                self.data.disabled,
                before,
                inside@,
            );
        }
        let ghost mid = events@;
        let mut out: Vec<TextAreaEvent> = Vec::new();
        let mut i: usize = 0;
        while i < reported.len()
            invariant
                0 <= i <= reported.len(),
                out@.map_values(|e: TextAreaEvent| e@) == spec_focus_events(
                    reported@.take(i as int),
                ),
            decreases reported.len() - i,
        {
            proof {
                assert(reported@.take(i + 1).drop_last() =~= reported@.take(i as int));
            }
            let r = self.on_interaction_event(reported[i]);
            if let Some(e) = r {
                out.push(e);
            }
            proof {
                assert(out@.map_values(|e: TextAreaEvent| e@) =~= spec_focus_events(
                    reported@.take(i + 1),
                ));
            }
            i += 1;
        }
        proof {
            assert(reported@.take(reported.len() as int) =~= reported@);
        }
        let ghost focus_out = out@.map_values(|e: TextAreaEvent| e@);
        let ghost inter = self.interaction;
        let focused = self.interaction.contains(InteractionState::focused_flag());
        let ghost text0 = self.data.text@;
        let ghost cursor0 = self.data.cursor as int;
        let n = events.len();
        let mut j: usize = 0;
        while j < n
            invariant
                n == events.len(),
                n == before.len(),
                n == mid.len(),
                n == inside.len(),
                0 <= j <= n,
                self.data.disabled == old(self).data.disabled,
                self.data.placeholder == old(self).data.placeholder,
                self.interaction == inter,
                self.data.wf(),
                text0 == old(self).data.text@,
                cursor0 == old(self).data.cursor,
                focused == has_bits(inter.spec_bits(), FOCUSED_BIT),
                self.data.text@.len() + (n - j) < isize::MAX,
                forall|k: int| j <= k < n ==> #[trigger] events@[k] == mid[k],
                forall|k: int|
                    0 <= k < n ==> WindowEvent::spec_consumed_as(
                        #[trigger] before[k],
                        mid[k],
                        spec_interaction_run(
                            old(self).interaction.spec_bits(),
                            old(self).data.disabled,
                            before,
                            inside@,
                        ).1[k],
                    ),
                forall|k: int|
                    0 <= k < n && #[trigger] spec_interaction_run(
                        old(self).interaction.spec_bits(),
                        old(self).data.disabled,
                        before,
                        inside@,
                    ).1[k] ==> (before[k] is MousePress || before[k] is MouseRelease
                        || before[k] is MouseMove),
                ({
                    let (t, c, taken, edits) = spec_text_run(
                        text0,
                        cursor0,
                        focused,
                        before.take(j as int),
                    );
                    &&& self.data.text@ == t
                    &&& self.data.cursor == c
                    &&& taken.len() == j
                    &&& forall|k: int|
                        0 <= k < j ==> WindowEvent::spec_consumed_as(
                            #[trigger] mid[k],
                            events@[k],
                            taken[k],
                        )
                    &&& out@.map_values(|e: TextAreaEvent| e@) == focus_out + edits
                }),
            decreases n - j,
        {
            let ghost t_prev = self.data.text@;
            let ghost c_prev = self.data.cursor as int;
            let ghost out_prev = out@.map_values(|e: TextAreaEvent| e@);
            let ghost ev_before = before[j as int];
            let ghost ev_mid = mid[j as int];
            proof {
                assert(before.take(j + 1).drop_last() =~= before.take(j as int));
                assert(before.take(j + 1).last() == ev_before);
                assert(spec_text_step(t_prev, c_prev, focused, ev_before) == spec_text_step(
                    t_prev,
                    c_prev,
                    focused,
                    ev_mid,
                ));
            }
            let ev = &mut events[j];
            match ev {
                WindowEvent::TextInput(ce) => {
                    let taken = ce.with(|_d: &char| -> (b: bool)
                        ensures
                            b == focused,
                        { focused });
                    if let Some(cr) = taken {
                        let c = *cr;
                        if is_ascii_graphic(c) || is_ascii_whitespace(c) {
                            self.push_char(c);
                            out.push(TextAreaEvent::UserModify(self.data.text.clone()));
                        }
                    }
                },
                WindowEvent::KeyPress(ce) => {
                    let taken = ce.with(|_d: &(KeyInput, KeyModifiers)| -> (b: bool)
                        ensures
                            b == focused,
                        { focused });
                    if let Some(d) = taken {
                        let key = d.0;
                        match key {
                            KeyInput::Back => {
                                let had = self.data.cursor > 0;
                                self.remove_char();
                                if had {
                                    out.push(TextAreaEvent::UserModify(self.data.text.clone()));
                                }
                            },
                            KeyInput::Left => {
                                self.move_cursor(-1);
                            },
                            KeyInput::Right => {
                                self.move_cursor(1);
                            },
                            _ => {},
                        }
                    }
                },
                _ => {},
            }
            proof {
                let (t2, c2, k2, o2) = spec_text_step(t_prev, c_prev, focused, ev_mid);
                assert(out@.map_values(|e: TextAreaEvent| e@) =~= out_prev + o2);
            }
            j += 1;
        }
        proof {
            assert(before.take(n as int) =~= before);
            let (bits, consumed, reported_s) = spec_interaction_run(
                old(self).interaction.spec_bits(),
                old(self).data.disabled,
                before,
                inside@,
            );
            let (text, cursor, taken, edits) = spec_text_run(text0, cursor0, focused, before);
            assert forall|i: int| 0 <= i < n implies WindowEvent::spec_consumed_as(
                #[trigger] before[i],
                events@[i],
                consumed[i] || taken[i],
            ) by {
                lemma_consumed_as_compose(before[i], mid[i], events@[i], consumed[i], taken[i]);
            }
        }
        out
    }
}

} // verus!

verus! {

impl CoreWidget<ControlState> for TextAreaWidget {
    fn derive_state(&self) -> (r: ControlState)
        ensures
            r == (if self.data.disabled {
                ControlState::Disabled
            } else {
                ControlState::Normal(self.interaction)
            }),
    {
        ControlState::from_widget(self.data.disabled, self.interaction)
    }
}

impl Event for TextAreaEvent {
    open spec fn spec_key(&self) -> Seq<char> {
        match self {
            TextAreaEvent::Focus => "focus"@,
            TextAreaEvent::Blur => "blur"@,
            TextAreaEvent::UserModify(_) => "user_modify"@,
        }
    }

    fn get_key(&self) -> (k: &'static str) {
        match self {
            TextAreaEvent::Focus => "focus",
            TextAreaEvent::Blur => "blur",
            TextAreaEvent::UserModify(_) => "user_modify",
        }
    }
}

} // verus!

verus! {

/// Removing the character before the cursor undoes typing a character at the cursor: the text
/// is as it was, and the cursor is back where it was.
pub proof fn lemma_remove_undoes_insert(text: Seq<char>, cursor: int, c: char)
    requires
        0 <= cursor <= text.len(),
    ensures
        spec_insert(text, cursor, c).remove(cursor) == text,
        (cursor + 1) - 1 == cursor,
{
    assert(spec_insert(text, cursor, c).remove(cursor) =~= text);
}

/// The text-editing handler keeps the cursor within the text.
pub proof fn lemma_text_step_keeps_cursor<P>(
    text: Seq<char>,
    cursor: int,
    focused: bool,
    event: WindowEvent<P>,
)
    requires
        0 <= cursor <= text.len(),
    ensures
        ({
            let (t, c, _, _) = spec_text_step(text, cursor, focused, event);
            0 <= c <= t.len()
        }),
{
}

/// The text-editing handler reports `UserModify` exactly when it changed the text, and then
/// reports the new text, once.
pub proof fn lemma_user_modify_iff_changed<P>(
    text: Seq<char>,
    cursor: int,
    focused: bool,
    event: WindowEvent<P>,
)
    requires
        0 <= cursor <= text.len(),
    ensures
        ({
            let (t, _, _, out) = spec_text_step(text, cursor, focused, event);
            &&& (out.len() > 0 <==> t != text)
            &&& out.len() > 0 ==> out == seq![TextAreaEventView::UserModify(t)]
        }),
{
    let (t, _, _, out) = spec_text_step(text, cursor, focused, event);
    if out.len() > 0 {
        assert(t.len() != text.len());
    }
}

/// The arrow keys move the cursor of a focused text area one character, within the text, and
/// change nothing else: Right toward the end, Left toward the start. Each consumes the key
/// press and reports nothing; one undoes the other.
pub proof fn lemma_arrows_move_cursor<P>(
    text: Seq<char>,
    cursor: int,
    right: ConsumableEvent<(KeyInput, KeyModifiers)>,
    left: ConsumableEvent<(KeyInput, KeyModifiers)>,
)
    requires
        0 <= cursor <= text.len(),
        right.spec_fresh(),
        right.spec_data().0 == KeyInput::Right,
        left.spec_fresh(),
        left.spec_data().0 == KeyInput::Left,
    ensures
        ({
            let (t, c, taken, out) = spec_text_step(text, cursor, true, WindowEvent::<P>::KeyPress(right));
            &&& t == text
            &&& taken
            &&& out.len() == 0
            &&& c == (if cursor < text.len() { cursor + 1 } else { cursor })
        }),
        ({
            let (t, c, taken, out) = spec_text_step(text, cursor, true, WindowEvent::<P>::KeyPress(left));
            &&& t == text
            &&& taken
            &&& out.len() == 0
            &&& c == (if cursor > 0 { cursor - 1 } else { cursor })
        }),
        cursor < text.len() ==> spec_text_step(
            text,
            spec_text_step(text, cursor, true, WindowEvent::<P>::KeyPress(right)).1,
            true,
            WindowEvent::<P>::KeyPress(left),
        ).1 == cursor,
        cursor > 0 ==> spec_text_step(
            text,
            spec_text_step(text, cursor, true, WindowEvent::<P>::KeyPress(left)).1,
            true,
            WindowEvent::<P>::KeyPress(right),
        ).1 == cursor,
{
}

/// Backspace in a focused text area deletes the character just before the cursor (all others
/// keep their order) and moves the cursor back over it, reporting the new text; at the start of
/// the text it changes nothing. Either way the key press is consumed.
pub proof fn lemma_backspace_deletes_before_cursor<P>(
    text: Seq<char>,
    cursor: int,
    back: ConsumableEvent<(KeyInput, KeyModifiers)>,
)
    requires
        0 <= cursor <= text.len(),
        back.spec_fresh(),
        back.spec_data().0 == KeyInput::Back,
    ensures
        ({
            let (t, c, taken, out) = spec_text_step(text, cursor, true, WindowEvent::<P>::KeyPress(back));
            &&& taken
            &&& cursor == 0 ==> t == text && c == 0 && out.len() == 0
            &&& cursor > 0 ==> {
                &&& t.len() == text.len() - 1
                &&& c == cursor - 1
                &&& forall|i: int| 0 <= i < cursor - 1 ==> #[trigger] t[i] == text[i]
                &&& forall|i: int| cursor - 1 <= i < t.len() ==> #[trigger] t[i] == text[i + 1]
                &&& out == seq![TextAreaEventView::UserModify(t)]
            }
        }),
{
}

/// Typing a printable ASCII character into a focused text area puts it at the cursor (the
/// characters before stay before it, the ones after follow it) and moves the cursor past it,
/// reporting the new text.
pub proof fn lemma_typing_inserts_at_cursor<P>(
    text: Seq<char>,
    cursor: int,
    typed: ConsumableEvent<char>,
)
    requires
        0 <= cursor <= text.len(),
        typed.spec_fresh(),
        spec_is_ascii_graphic(typed.spec_data()) || typed.spec_data() == ' ',
    ensures
        ({
            let ch = typed.spec_data();
            let (t, c, taken, out) = spec_text_step(text, cursor, true, WindowEvent::<P>::TextInput(typed));
            &&& taken
            &&& t.len() == text.len() + 1
            &&& c == cursor + 1
            &&& t[cursor] == ch
            &&& forall|i: int| 0 <= i < cursor ==> #[trigger] t[i] == text[i]
            &&& forall|i: int| cursor < i < t.len() ==> #[trigger] t[i] == text[i - 1]
            &&& out == seq![TextAreaEventView::UserModify(t)]
        }),
{
}

/// A text area that is not focused takes no text input or key press: the text, the cursor and
/// the event are left as they were, and nothing is reported.
pub proof fn lemma_unfocused_takes_nothing<P>(text: Seq<char>, cursor: int, event: WindowEvent<P>)
    ensures
        spec_text_step(text, cursor, false, event) == (text, cursor, false, Seq::<TextAreaEventView>::empty()),
{
}

} // verus!
