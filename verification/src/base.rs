//! Core vocabulary shared by every widget: visibility, consumable window events and input keys.

use vstd::prelude::*;

use crate::pipe::Event;

verus! {

/// Describes the interactivity/visibility condition of a widget.
#[derive(Debug, Clone, Copy, PartialEq, Eq, Hash, Structural)]
pub enum Visibility {
    /// Is rendered and receives updates.
    Normal,
    /// Receives updates but isn't rendered.
    Invisible,
    /// Is rendered but doesn't receive updates.
    Static,
    /// Is neither rendered nor updated.
    Hidden,
}

impl Default for Visibility {
    fn default() -> (r: Self)
        ensures
            r == Visibility::Normal,
    {
        Visibility::Normal
    }
}

impl Visibility {
    /// Whether a widget with this visibility receives updates.
    pub open spec fn spec_receives_updates(self) -> bool {
        self is Normal || self is Invisible
    }

    /// Whether a widget with this visibility is rendered.
    pub open spec fn spec_is_rendered(self) -> bool {
        self is Normal || self is Static
    }

    /// Whether `update` is propagated to a child with this visibility.
    pub fn receives_updates(&self) -> (r: bool)
        ensures
            r == self.spec_receives_updates(),
    {
        match self {
            Visibility::Normal | Visibility::Invisible => true,
            Visibility::Static | Visibility::Hidden => false,
        }
    }

    /// Whether `draw` is invoked for a widget with this visibility.
    pub fn is_rendered(&self) -> (r: bool)
        ensures
            r == self.spec_is_rendered(),
    {
        match self {
            Visibility::Normal | Visibility::Static => true,
            Visibility::Invisible | Visibility::Hidden => false,
        }
    }
}

/// Event data that can be "consumed". This is needed for events such as clicking and typing.
/// Those kinds of events aren't typically received by multiple widgets.
///
/// When a stack of widgets receives the same click, only the first one whose predicate
/// accepts it receives the data; the event is then *consumed* for every later receiver.
/// The data itself can still be read with `get` regardless of consumption.
#[derive(Debug)]
pub struct ConsumableEvent<T> {
    data: T,
    fresh: bool,
}

impl<T> ConsumableEvent<T> {
    /// The event data.
    pub closed spec fn spec_data(self) -> T {
        self.data
    }

    /// Whether the event has not been consumed yet.
    pub closed spec fn spec_fresh(self) -> bool {
        self.fresh
    }

    /// Creates a unconsumed event, initialized with `val`.
    pub fn new(val: T) -> (r: Self)
        ensures
            r.spec_data() == val,
            r.spec_fresh(),
    {
        ConsumableEvent { data: val, fresh: true }
    }

    /// Returns the event data as long as **both** the following conditions are satisfied:
    /// 1. The event hasn't been consumed yet.
    /// 2. The predicate returns true.
    ///
    /// The data is then marked as consumed. The predicate is only asked while the
    /// event is unconsumed.
    pub fn with<F: Fn(&T) -> bool>(&mut self, pred: F) -> (r: Option<&T>)
        requires
            old(self).spec_fresh() ==> pred.requires((&old(self).spec_data(),)),
        ensures
            final(self).spec_data() == old(self).spec_data(),
            r matches Some(d) ==> {
                &&& *d == old(self).spec_data()
                &&& old(self).spec_fresh()
                &&& pred.ensures((&old(self).spec_data(),), true)
                &&& !final(self).spec_fresh()
            },
            r is None ==> {
                &&& final(self).spec_fresh() == old(self).spec_fresh()
                &&& old(self).spec_fresh() ==> pred.ensures((&old(self).spec_data(),), false)
            },
    {
        if self.fresh && pred(&self.data) {
            self.fresh = false;
            Some(&self.data)
        } else {
            None
        }
    }

    /// Returns the inner event data regardless of consumption.
    pub fn get(&self) -> (r: &T)
        ensures
            *r == self.spec_data(),
    {
        &self.data
    }
}

/// Modifier keys held during an input event.
#[derive(Debug, Clone, Copy, PartialEq, Eq, Hash, Structural)]
pub struct KeyModifiers {
    pub shift: bool,
    pub ctrl: bool,
    pub alt: bool,
    pub logo: bool,
}

/// Button on a mouse.
#[derive(Debug, Clone, Copy, PartialEq, Eq, Hash, Structural)]
pub enum MouseButton {
    Left,
    Middle,
    Right,
}

/// Key on a keyboard.
#[derive(Debug, Clone, Copy, PartialEq, Eq, Hash, Structural)]
pub enum KeyInput {
    Key1,
    Key2,
    Key3,
    Key4,
    Key5,
    Key6,
    Key7,
    Key8,
    Key9,
    Key0,
    A,
    B,
    C,
    D,
    E,
    F,
    G,
    H,
    I,
    J,
    K,
    L,
    M,
    N,
    O,
    P,
    Q,
    R,
    S,
    T,
    U,
    V,
    W,
    X,
    Y,
    Z,
    Escape,
    F1,
    F2,
    F3,
    F4,
    F5,
    F6,
    F7,
    F8,
    F9,
    F10,
    F11,
    F12,
    F13,
    F14,
    F15,
    F16,
    F17,
    F18,
    F19,
    F20,
    F21,
    F22,
    F23,
    F24,
    Snapshot,
    Scroll,
    Pause,
    Insert,
    Home,
    Delete,
    End,
    PageDown,
    PageUp,
    Left,
    Up,
    Right,
    Down,
    Back,
    Return,
    Space,
    Compose,
    Caret,
    Numlock,
    Numpad0,
    Numpad1,
    Numpad2,
    Numpad3,
    Numpad4,
    Numpad5,
    Numpad6,
    Numpad7,
    Numpad8,
    Numpad9,
    AbntC1,
    AbntC2,
    Add,
    Apostrophe,
    Apps,
    At,
    Ax,
    Backslash,
    Calculator,
    Capital,
    Colon,
    Comma,
    Convert,
    Decimal,
    Divide,
    Equals,
    Grave,
    Kana,
    Kanji,
    LAlt,
    LBracket,
    LControl,
    LShift,
    LWin,
    Mail,
    MediaSelect,
    MediaStop,
    Minus,
    Multiply,
    Mute,
    MyComputer,
    NavigateForward,
    NavigateBackward,
    NextTrack,
    NoConvert,
    NumpadComma,
    NumpadEnter,
    NumpadEquals,
    OEM102,
    Period,
    PlayPause,
    Power,
    PrevTrack,
    RAlt,
    RBracket,
    RControl,
    RShift,
    RWin,
    Semicolon,
    Slash,
    Sleep,
    Stop,
    Subtract,
    Sysrq,
    Tab,
    Underline,
    Unlabeled,
    VolumeDown,
    VolumeUp,
    Wake,
    WebBack,
    WebFavorites,
    WebForward,
    WebHome,
    WebRefresh,
    WebSearch,
    WebStop,
    Yen,
    Copy,
    Paste,
    Cut,
}

/// An event related to the window, e.g. input. `P` is the type of a window position.
#[derive(Debug)]
pub enum WindowEvent<P> {
    /// The user pressed a mouse button.
    MousePress(ConsumableEvent<(P, MouseButton, KeyModifiers)>),
    /// The user released a mouse button.
    /// This event complements `MousePress`, which means it realistically can only
    /// be emitted after `MousePress` has been emitted.
    MouseRelease(ConsumableEvent<(P, MouseButton, KeyModifiers)>),
    /// The user moved the cursor.
    MouseMove(ConsumableEvent<(P, KeyModifiers)>),
    /// Emitted when a text input is received.
    TextInput(ConsumableEvent<char>),
    /// Emitted when a key is pressed.
    KeyPress(ConsumableEvent<(KeyInput, KeyModifiers)>),
    /// Emitted when a key is released.
    KeyRelease(ConsumableEvent<(KeyInput, KeyModifiers)>),
    /// Emitted immediately before an event which is capable of changing focus.
    /// A focusable widget clears its focused flag when it receives this event.
    ClearFocus,
}

} // verus!

verus! {

impl<P> WindowEvent<P> {
    /// Whether `after` is `before` with its consumable data untouched, and consumed
    /// exactly when `consumed` holds (an already consumed event stays consumed).
    pub open spec fn spec_consumed_as(before: Self, after: Self, consumed: bool) -> bool {
        match (before, after) {
            (WindowEvent::MousePress(x), WindowEvent::MousePress(y)) => x.spec_data() == y.spec_data()
                && y.spec_fresh() == (x.spec_fresh() && !consumed),
            (WindowEvent::MouseRelease(x), WindowEvent::MouseRelease(y)) => x.spec_data()
                == y.spec_data() && y.spec_fresh() == (x.spec_fresh() && !consumed),
            (WindowEvent::MouseMove(x), WindowEvent::MouseMove(y)) => x.spec_data() == y.spec_data()
                && y.spec_fresh() == (x.spec_fresh() && !consumed),
            (WindowEvent::TextInput(x), WindowEvent::TextInput(y)) => x.spec_data() == y.spec_data()
                && y.spec_fresh() == (x.spec_fresh() && !consumed),
            (WindowEvent::KeyPress(x), WindowEvent::KeyPress(y)) => x.spec_data() == y.spec_data()
                && y.spec_fresh() == (x.spec_fresh() && !consumed),
            (WindowEvent::KeyRelease(x), WindowEvent::KeyRelease(y)) => x.spec_data() == y.spec_data()
                && y.spec_fresh() == (x.spec_fresh() && !consumed),
            (WindowEvent::ClearFocus, WindowEvent::ClearFocus) => !consumed,
            _ => false,
        }
    }
}

} // verus!

verus! {

/// Consuming an event in two steps is consuming it once, by either step.
pub proof fn lemma_consumed_as_compose<P>(
    a: WindowEvent<P>,
    b: WindowEvent<P>,
    c: WindowEvent<P>,
    x: bool,
    y: bool,
)
    requires
        WindowEvent::spec_consumed_as(a, b, x),
        WindowEvent::spec_consumed_as(b, c, y),
    ensures
        WindowEvent::spec_consumed_as(a, c, x || y),
{
}

} // verus!

verus! {

impl<P> Event for WindowEvent<P> {
    open spec fn spec_key(&self) -> Seq<char> {
        match self {
            WindowEvent::MousePress(_) => "mouse_press"@,
            WindowEvent::MouseRelease(_) => "mouse_release"@,
            WindowEvent::MouseMove(_) => "mouse_move"@,
            WindowEvent::TextInput(_) => "text_input"@,
            WindowEvent::KeyPress(_) => "key_press"@,
            WindowEvent::KeyRelease(_) => "key_release"@,
            WindowEvent::ClearFocus => "clear_focus"@,
        }
    }

    fn get_key(&self) -> (k: &'static str) {
        match self {
            WindowEvent::MousePress(_) => "mouse_press",
            WindowEvent::MouseRelease(_) => "mouse_release",
            WindowEvent::MouseMove(_) => "mouse_move",
            WindowEvent::TextInput(_) => "text_input",
            WindowEvent::KeyPress(_) => "key_press",
            WindowEvent::KeyRelease(_) => "key_release",
            WindowEvent::ClearFocus => "clear_focus",
        }
    }
}

/// Empty event indicating `Observed` data has changed.
#[derive(Debug, Clone, Copy, PartialEq, Eq, Hash, Structural)]
pub struct ObservedEvent;

impl Event for ObservedEvent {
    open spec fn spec_key(&self) -> Seq<char> {
        "change"@
    }

    fn get_key(&self) -> (k: &'static str) {
        "change"
    }
}

/// Event emitted once when a widget is dropped.
#[derive(Debug, Clone, Copy, PartialEq, Eq, Hash, Structural)]
pub struct DropEvent;

impl Event for DropEvent {
    open spec fn spec_key(&self) -> Seq<char> {
        "drop"@
    }

    fn get_key(&self) -> (k: &'static str) {
        "drop"
    }
}

} // verus!

verus! {

/// The children that receive `update`, as places in the children list: the most visually
/// forefront children (the last ones) come first, and only children whose visibility lets
/// them receive updates are listed.
pub open spec fn spec_update_targets(visibilities: Seq<Visibility>) -> Seq<usize>
    decreases visibilities.len(),
{
    if visibilities.len() == 0 {
        seq![]
    } else {
        let rest = spec_update_targets(visibilities.drop_last());
        if visibilities.last().spec_receives_updates() {
            seq![(visibilities.len() - 1) as usize] + rest
        } else {
            rest
        }
    }
}

/// The order in which `update` is propagated to the children of a widget, given each child's
/// visibility: in reverse, because the most visually forefront widgets should get events first,
/// skipping children that don't receive updates.
pub fn update_targets(visibilities: &Vec<Visibility>) -> (r: Vec<usize>)
    ensures
        r@ == spec_update_targets(visibilities@),
{
    let mut r: Vec<usize> = Vec::new();
    let mut i: usize = 0;
    let n = visibilities.len();
    while i < n
        invariant
            n == visibilities.len(),
            0 <= i <= n,
            r@ == spec_update_targets(visibilities@.take(i as int)),
        decreases n - i,
    {
        proof {
            assert(visibilities@.take(i + 1).drop_last() =~= visibilities@.take(i as int));
        }
        if visibilities[i].receives_updates() {
            let mut front: Vec<usize> = Vec::new();
            front.push(i);
            front.append(&mut r);
            r = front;
        }
        i += 1;
    }
    proof {
        assert(visibilities@.take(n as int) =~= visibilities@);
    }
    r
}

/// The children that draw themselves, as places in the children list, in the order they are
/// drawn: back to front (first child first), listing each child whose visibility lets it be
/// rendered, once. (The draw pass still walks into every child, since a child's own children
/// may be rendered.)
pub fn draw_targets(visibilities: &Vec<Visibility>) -> (r: Vec<usize>)
    ensures
        forall|k: int|
            0 <= k < r.len() ==> r@[k] < visibilities.len() && visibilities@[r@[k] as int].spec_is_rendered(),
        forall|k: int, l: int| 0 <= k < l < r.len() ==> #[trigger] r@[k] < #[trigger] r@[l],
        forall|i: int|
            0 <= i < visibilities.len() && (#[trigger] visibilities@[i]).spec_is_rendered()
                ==> r@.contains(i as usize),
{
    let mut r: Vec<usize> = Vec::new();
    let n = visibilities.len();
    let mut i: usize = 0;
    while i < n
        invariant
            n == visibilities.len(),
            0 <= i <= n,
            forall|k: int|
                0 <= k < r.len() ==> r@[k] < i && visibilities@[r@[k] as int].spec_is_rendered(),
            forall|k: int, l: int| 0 <= k < l < r.len() ==> #[trigger] r@[k] < #[trigger] r@[l],
            forall|j: int|
                0 <= j < i && (#[trigger] visibilities@[j]).spec_is_rendered() ==> r@.contains(
                    j as usize,
                ),
        decreases n - i,
    {
        if visibilities[i].is_rendered() {
            let ghost prev = r@;
            r.push(i);
            proof {
                assert forall|j: int|
                    0 <= j < i && (#[trigger] visibilities@[j]).spec_is_rendered() implies r@.contains(
                    j as usize,
                ) by {
                    let p = choose|p: int| 0 <= p < prev.len() && prev[p] == j as usize;
                    assert(r@[p] == j as usize);
                }
                assert(r@[r.len() - 1] == i);
            }
        }
        i += 1;
    }
    r
}

/// Number of frames between two clean-ups of the cached clip command groups.
pub const CLEANUP_PERIOD: u8 = 60;

/// Frame counter of `invoke_draw`: every 60 frames the cached clip command groups of widgets
/// that were not drawn in that frame are discarded.
#[derive(Debug, Clone, Copy)]
pub struct DrawCounter {
    count: u8,
}

impl DrawCounter {
    #[verifier::type_invariant]
    spec fn bounded(self) -> bool {
        self.count <= CLEANUP_PERIOD
    }

    /// Frames drawn since the last clean-up (or since the start).
    pub closed spec fn spec_count(self) -> u8 {
        self.count
    }

    /// A counter before the first frame.
    pub fn new() -> (r: Self)
        ensures
            r.spec_count() == 0,
    {
        DrawCounter { count: 0 }
    }

    /// Counts one drawn frame and tells whether this frame cleans up the cached clip groups
    /// (the counter then restarts).
    pub fn frame(&mut self) -> (cleanup: bool)
        ensures
            cleanup == (old(self).spec_count() >= CLEANUP_PERIOD),
            final(self).spec_count() == (if cleanup {
                1
            } else {
                old(self).spec_count() + 1
            }),
            final(self).spec_count() <= CLEANUP_PERIOD,
    {
        proof {
            use_type_invariant(&*self);
        }
        let cleanup = self.count >= CLEANUP_PERIOD;
        if cleanup {
            self.count = 1;
        } else {
            self.count = self.count + 1;
        }
        cleanup
    }
}

} // verus!

verus! {

/// Wrapper which emits a change event (`ObservedEvent`) whenever the inner value is changed, so
/// that whatever depends on it (typically the widget's painting) can be refreshed. The events
/// not yet taken are counted.
#[derive(Debug)]
pub struct Observed<T> {
    inner: T,
    changes: u64,
}

impl<T> Observed<T> {
    /// The inner value.
    pub closed spec fn spec_value(&self) -> T {
        self.inner
    }

    /// The number of change events emitted and not yet taken.
    pub closed spec fn spec_changes(&self) -> u64 {
        self.changes
    }

    /// Wraps a value; no change event has been emitted.
    pub fn new(val: T) -> (r: Self)
        ensures
            r.spec_value() == val,
            r.spec_changes() == 0,
    {
        Observed { inner: val, changes: 0 }
    }

    /// Updates the inner value and emits one change event.
    pub fn set(&mut self, val: T)
        requires
            old(self).spec_changes() < u64::MAX,
        ensures
            final(self).spec_value() == val,
            final(self).spec_changes() == old(self).spec_changes() + 1,
    {
        self.inner = val;
        self.changes = self.changes + 1;
    }

    /// Returns an immutable reference to the inner value; emits nothing.
    pub fn get(&self) -> (r: &T)
        ensures
            *r == self.spec_value(),
    {
        &self.inner
    }

    /// Returns a mutable reference to the inner value and emits one change event.
    pub fn get_mut(&mut self) -> (r: &mut T)
        requires
            old(self).spec_changes() < u64::MAX,
        ensures
            *r == old(self).spec_value(),
            final(self).spec_value() == *final(r),
            final(self).spec_changes() == old(self).spec_changes() + 1,
    {
        self.changes = self.changes + 1;
        &mut self.inner
    }

    /// The number of change events emitted and not yet taken.
    pub fn changes(&self) -> (r: u64)
        ensures
            r == self.spec_changes(),
    {
        self.changes
    }

    /// Takes the change events emitted since the last call, one per change.
    pub fn take_changes(&mut self) -> (r: Vec<ObservedEvent>)
        ensures
            r.len() == old(self).spec_changes(),
            final(self).spec_changes() == 0,
            final(self).spec_value() == old(self).spec_value(),
    {
        let n = self.changes;
        let mut r: Vec<ObservedEvent> = Vec::new();
        let mut i: u64 = 0;
        while i < n
            invariant
                0 <= i <= n,
                r.len() == i,
            decreases n - i,
        {
            r.push(ObservedEvent);
            i = i + 1;
        }
        self.changes = 0;
        r
    }
}

} // verus!

verus! {

/// `update` reaches exactly the children that receive updates, each once, last child first.
pub proof fn lemma_update_targets(visibilities: Seq<Visibility>)
    requires
        visibilities.len() <= usize::MAX,
    ensures
        forall|k: int|
            0 <= k < spec_update_targets(visibilities).len() ==> {
                let i = #[trigger] spec_update_targets(visibilities)[k];
                &&& i < visibilities.len()
                &&& visibilities[i as int].spec_receives_updates()
            },
        forall|k: int, l: int|
            0 <= k < l < spec_update_targets(visibilities).len() ==> #[trigger] spec_update_targets(
                visibilities,
            )[k] > #[trigger] spec_update_targets(visibilities)[l],
        forall|i: int|
            0 <= i < visibilities.len() && (#[trigger] visibilities[i]).spec_receives_updates()
                ==> spec_update_targets(visibilities).contains(i as usize),
    decreases visibilities.len(),
{
    if visibilities.len() > 0 {
        let prev = visibilities.drop_last();
        lemma_update_targets(prev);
        let rest = spec_update_targets(prev);
        let cur = spec_update_targets(visibilities);
        let last = visibilities.len() - 1;
        assert forall|i: int|
            0 <= i < visibilities.len() && (#[trigger] visibilities[i]).spec_receives_updates()
                implies cur.contains(i as usize) by {
            if i < last {
                assert(prev[i] == visibilities[i]);
                let k = choose|k: int| 0 <= k < rest.len() && rest[k] == i as usize;
                if visibilities.last().spec_receives_updates() {
                    assert(cur[k + 1] == i as usize);
                } else {
                    assert(cur[k] == i as usize);
                }
            } else {
                assert(cur[0] == i as usize);
            }
        }
        if visibilities.last().spec_receives_updates() {
            assert forall|k: int|
                0 <= k < cur.len() implies {
                    let i = #[trigger] cur[k];
                    &&& i < visibilities.len()
                    &&& visibilities[i as int].spec_receives_updates()
                } by {
                if k > 0 {
                    assert(cur[k] == rest[k - 1]);
                    assert(prev[rest[k - 1] as int] == visibilities[rest[k - 1] as int]);
                }
            }
            assert forall|k: int, l: int| 0 <= k < l < cur.len() implies #[trigger] cur[k]
                > #[trigger] cur[l] by {
                if k > 0 {
                    assert(cur[k] == rest[k - 1]);
                }
                assert(cur[l] == rest[l - 1]);
            }
        } else {
            assert forall|k: int|
                0 <= k < cur.len() implies {
                    let i = #[trigger] cur[k];
                    &&& i < visibilities.len()
                    &&& visibilities[i as int].spec_receives_updates()
                } by {
                assert(prev[rest[k] as int] == visibilities[rest[k] as int]);
            }
        }
    }
}

impl DrawCounter {
    /// The counter after one frame, and whether that frame cleans up.
    pub open spec fn spec_frame(count: int) -> (int, bool) {
        if count >= CLEANUP_PERIOD {
            (1, true)
        } else {
            (count + 1, false)
        }
    }

    /// The counter after `n` frames from `count`, and how many of them cleaned up.
    pub open spec fn spec_frames(count: int, n: nat) -> (int, nat)
        decreases n,
    {
        if n == 0 {
            (count, 0)
        } else {
            let (c, k) = Self::spec_frames(count, (n - 1) as nat);
            let (c2, cleaned) = Self::spec_frame(c);
            (c2, if cleaned {
                k + 1
            } else {
                k
            })
        }
    }

    /// Clean-ups come every 60 frames: from a count `c` within the period, the next `60 - c`
    /// frames clean nothing and the frame after them cleans up, leaving the count at 1; so from
    /// a fresh counter the 61st frame is the first to clean, and after a clean-up the next one
    /// comes 60 frames later.
    pub proof fn lemma_cleanup_period(c: int)
        requires
            0 <= c <= CLEANUP_PERIOD,
        ensures
            Self::spec_frames(c, (CLEANUP_PERIOD - c) as nat) == (CLEANUP_PERIOD as int, 0nat),
            Self::spec_frames(c, (CLEANUP_PERIOD - c + 1) as nat) == (1int, 1nat),
    {
        Self::lemma_no_cleanup_before_period(c, (CLEANUP_PERIOD - c) as nat);
    }

    /// From a count `c`, the next `n` frames clean nothing as long as the count stays within
    /// the period.
    pub proof fn lemma_no_cleanup_before_period(c: int, n: nat)
        requires
            0 <= c,
            c + n <= CLEANUP_PERIOD,
        ensures
            Self::spec_frames(c, n) == (c + n, 0nat),
        decreases n,
    {
        if n > 0 {
            Self::lemma_no_cleanup_before_period(c, (n - 1) as nat);
        }
    }
}

} // verus!
