use vstd::prelude::*;
use vstd::string::StrSliceExecFns;
use crate::gate::{DebounceGate, NUDGE_INTERVAL_MS, TOGGLE_INTERVAL_MS};

verus! {

/// The window-level properties that the toggle manages.
#[derive(Clone, Copy, Debug, PartialEq, Eq, Structural)]
pub struct WindowProps {
    pub always_on_top: bool,
    pub decorations: bool,
    pub content_protected: bool,
    pub skip_taskbar: bool,
    pub ignore_cursor_events: bool,
}

/// One property change for the host window to apply.
#[derive(Clone, Copy, Debug, PartialEq, Eq, Structural)]
pub enum WindowChange {
    AlwaysOnTop(bool),
    Decorations(bool),
    ContentProtected(bool),
    SkipTaskbar(bool),
    IgnoreCursorEvents(bool),
}

/// The styled, interactive window: on top, frameless, protected from capture,
/// off the taskbar, accepting pointer input.
pub open spec fn visible_props() -> WindowProps {
    WindowProps {
        always_on_top: true,
        decorations: false,
        content_protected: true,
        skip_taskbar: true,
        ignore_cursor_events: false,
    }
}

pub open spec fn apply_change(p: WindowProps, c: WindowChange) -> WindowProps {
    match c {
        WindowChange::AlwaysOnTop(b) => WindowProps { always_on_top: b, ..p },
        WindowChange::Decorations(b) => WindowProps { decorations: b, ..p },
        WindowChange::ContentProtected(b) => WindowProps { content_protected: b, ..p },
        WindowChange::SkipTaskbar(b) => WindowProps { skip_taskbar: b, ..p },
        WindowChange::IgnoreCursorEvents(b) => WindowProps { ignore_cursor_events: b, ..p },
    }
}

/// The properties after applying a list of changes in order.
pub open spec fn apply_changes(p: WindowProps, cs: Seq<WindowChange>) -> WindowProps
    decreases cs.len(),
{
    if cs.len() == 0 {
        p
    } else {
        apply_changes(apply_change(p, cs[0]), cs.drop_first())
    }
}

/// The changes made on entering the given visibility.
pub open spec fn changes_for(visible: bool) -> Seq<WindowChange> {
    if visible {
        seq![
            WindowChange::AlwaysOnTop(true),
            WindowChange::Decorations(false),
            WindowChange::ContentProtected(true),
            WindowChange::SkipTaskbar(true),
            WindowChange::IgnoreCursorEvents(false),
        ]
    } else {
        seq![WindowChange::IgnoreCursorEvents(true)]
    }
}

impl WindowProps {
    /// Applies one change.
    pub fn apply(&mut self, c: WindowChange)
        ensures
            *final(self) == apply_change(*old(self), c),
    {
        match c {
            WindowChange::AlwaysOnTop(b) => self.always_on_top = b,
            WindowChange::Decorations(b) => self.decorations = b,
            WindowChange::ContentProtected(b) => self.content_protected = b,
            WindowChange::SkipTaskbar(b) => self.skip_taskbar = b,
            WindowChange::IgnoreCursorEvents(b) => self.ignore_cursor_events = b,
        }
    }
}

/// The changes to make on entering the given visibility.
pub fn window_changes(visible: bool) -> (r: Vec<WindowChange>)
    ensures
        r@ == changes_for(visible),
{
    let r = if visible {
        vec![
            WindowChange::AlwaysOnTop(true),
            WindowChange::Decorations(false),
            WindowChange::ContentProtected(true),
            WindowChange::SkipTaskbar(true),
            WindowChange::IgnoreCursorEvents(false),
        ]
    } else {
        vec![WindowChange::IgnoreCursorEvents(true)]
    };
    assert(r@ =~= changes_for(visible));
    r
}

/// Becoming visible restores all five properties to the styled state, whatever
/// they were; becoming hidden changes pointer-event acceptance and nothing else.
pub proof fn lemma_toggle_window_effect(p: WindowProps)
    ensures
        apply_changes(p, changes_for(true)) == visible_props(),
        apply_changes(p, changes_for(false)) == (WindowProps { ignore_cursor_events: true, ..p }),
{
    reveal_with_fuel(apply_changes, 6);
    assert(changes_for(true).drop_first().drop_first().drop_first().drop_first().drop_first()
        =~= Seq::<WindowChange>::empty());
    assert(changes_for(false).drop_first() =~= Seq::<WindowChange>::empty());
}

/// What a toggle request produced: the visibility flag after it, and the window
/// changes to apply (none when the request was debounced).
#[derive(Clone, Debug)]
pub struct ToggleOutcome {
    pub visible: bool,
    pub changes: Vec<WindowChange>,
}

/// The four directions a nudge can move the window in.
#[derive(Clone, Copy, Debug, PartialEq, Eq, Structural)]
pub enum Direction {
    Up,
    Down,
    Left,
    Right,
}

/// Shared visibility state: the interactive flag and the two guards that debounce
/// toggles and nudges.
#[derive(Clone, Copy, Debug, PartialEq, Eq, Structural)]
pub struct VisibilityState {
    pub interactive: bool,
    pub toggle_gate: DebounceGate,
    pub nudge_gate: DebounceGate,
}

impl VisibilityState {
    /// The state after a toggle request at `now`.
    pub open spec fn toggled(self, now: u64) -> VisibilityState {
        if self.toggle_gate.allows(now) {
            VisibilityState {
                interactive: !self.interactive,
                toggle_gate: self.toggle_gate.after(now),
                ..self
            }
        } else {
            self
        }
    }

    /// The state after a series of toggle requests, taken in order.
    pub open spec fn toggled_all(self, times: Seq<u64>) -> VisibilityState
        decreases times.len(),
    {
        if times.len() == 0 {
            self
        } else {
            self.toggled(times[0]).toggled_all(times.drop_first())
        }
    }

    /// The start-up state: interactive, with guards that have never fired.
    pub fn new() -> (s: VisibilityState)
        ensures
            s.interactive,
            s.toggle_gate == (DebounceGate { interval_ms: TOGGLE_INTERVAL_MS, last_fired_ms: None }),
            s.nudge_gate == (DebounceGate { interval_ms: NUDGE_INTERVAL_MS, last_fired_ms: None }),
    {
        VisibilityState {
            interactive: true,
            toggle_gate: DebounceGate::new(TOGGLE_INTERVAL_MS),
            nudge_gate: DebounceGate::new(NUDGE_INTERVAL_MS),
        }
    }

    /// A toggle request at `now`. When the guard refuses, the current flag comes
    /// back and nothing changes; otherwise the flag flips and the window changes
    /// for the new visibility come back with it.
    pub fn toggle(&mut self, now: u64) -> (r: ToggleOutcome)
        ensures
            *final(self) == old(self).toggled(now),
            r.visible == final(self).interactive,
            old(self).toggle_gate.allows(now) ==> r.changes@ == changes_for(r.visible),
            !old(self).toggle_gate.allows(now) ==> r.changes@.len() == 0,
    {
        if !self.toggle_gate.try_acquire(now) {
            return ToggleOutcome { visible: self.interactive, changes: Vec::new() };
        }
        let was_visible = self.interactive;
        self.interactive = !was_visible;
        ToggleOutcome { visible: !was_visible, changes: window_changes(!was_visible) }
    }

    /// Asks the nudge guard whether a nudge at `now` may go ahead; only the
    /// nudge guard's stamp can change.
    pub fn permit_nudge(&mut self, now: u64) -> (r: bool)
        ensures
            r == old(self).nudge_gate.allows(now),
            *final(self) == (VisibilityState { nudge_gate: old(self).nudge_gate.after(now), ..*old(self) }),
    {
        self.nudge_gate.try_acquire(now)
    }
}

/// The position a permitted nudge moves the window at (`x`, `y`) to. A direction
/// other than "up", "down", "left" or "right" leaves it where it is.
pub fn nudge_target(direction: &str, step: i32, x: i32, y: i32) -> (r: (i32, i32))
    ensures
        r == match direction_named(direction@) {
            Some(d) => nudged(x, y, d, step),
            None => (x, y),
        },
{
    match Direction::parse(direction) {
        Some(d) => nudge_position(x, y, d, step),
        None => (x, y),
    }
}

/// Whether two strings hold the same characters.
pub fn same_text(a: &str, b: &str) -> (r: bool)
    ensures
        r == (a@ == b@),
{
    let n = a.unicode_len();
    if n != b.unicode_len() {
        return false;
    }
    let mut i: usize = 0;
    while i < n
        invariant
            n == a@.len(),
            n == b@.len(),
            i <= n,
            forall|j: int| 0 <= j < i ==> a@[j] == b@[j],
        decreases n - i,
    {
        if a.get_char(i) != b.get_char(i) {
            return false;
        }
        i = i + 1;
    }
    assert(a@ =~= b@);
    true
}

/// The direction a name stands for.
pub open spec fn direction_named(s: Seq<char>) -> Option<Direction> {
    if s == "up"@ {
        Some(Direction::Up)
    } else if s == "down"@ {
        Some(Direction::Down)
    } else if s == "left"@ {
        Some(Direction::Left)
    } else if s == "right"@ {
        Some(Direction::Right)
    } else {
        None
    }
}

impl Direction {
    /// Reads "up", "down", "left" or "right".
    pub fn parse(s: &str) -> (r: Option<Direction>)
        ensures
            r == direction_named(s@),
    {
        if same_text(s, "up") {
            Some(Direction::Up)
        } else if same_text(s, "down") {
            Some(Direction::Down)
        } else if same_text(s, "left") {
            Some(Direction::Left)
        } else if same_text(s, "right") {
            Some(Direction::Right)
        } else {
            None
        }
    }
}

/// The screen corners and centre that the window can be moved to.
#[derive(Clone, Copy, Debug, PartialEq, Eq, Structural)]
pub enum Anchor {
    TopLeft,
    TopRight,
    BottomLeft,
    BottomRight,
    Center,
}

/// The anchor a name stands for.
pub open spec fn anchor_named(s: Seq<char>) -> Option<Anchor> {
    if s == "top-left"@ {
        Some(Anchor::TopLeft)
    } else if s == "top-right"@ {
        Some(Anchor::TopRight)
    } else if s == "bottom-left"@ {
        Some(Anchor::BottomLeft)
    } else if s == "bottom-right"@ {
        Some(Anchor::BottomRight)
    } else if s == "center"@ {
        Some(Anchor::Center)
    } else {
        None
    }
}

impl Anchor {
    /// Reads "top-left", "top-right", "bottom-left", "bottom-right" or "center".
    pub fn parse(s: &str) -> (r: Option<Anchor>)
        ensures
            r == anchor_named(s@),
    {
        if same_text(s, "top-left") {
            Some(Anchor::TopLeft)
        } else if same_text(s, "top-right") {
            Some(Anchor::TopRight)
        } else if same_text(s, "bottom-left") {
            Some(Anchor::BottomLeft)
        } else if same_text(s, "bottom-right") {
            Some(Anchor::BottomRight)
        } else if same_text(s, "center") {
            Some(Anchor::Center)
        } else {
            None
        }
    }
}

/// Twice the window origin that an anchor name asks for, on a screen of
/// `sw` x `sh` with a window of `ww` x `wh`: a corner puts the window flush with
/// it, the centre splits the free space evenly, any other name means (100, 100).
pub open spec fn anchor_origin_doubled(name: Seq<char>, sw: int, sh: int, ww: int, wh: int) -> (int, int) {
    match anchor_named(name) {
        Some(Anchor::TopLeft) => (0, 0),
        Some(Anchor::TopRight) => (2 * (sw - ww), 0),
        Some(Anchor::BottomLeft) => (0, 2 * (sh - wh)),
        Some(Anchor::BottomRight) => (2 * (sw - ww), 2 * (sh - wh)),
        Some(Anchor::Center) => (sw - ww, sh - wh),
        None => (200, 200),
    }
}

/// The window origin for an anchor name, in half pixels (twice the logical
/// coordinate), so that a centred position stays exact.
pub fn anchor_origin(position: &str, screen_w: u32, screen_h: u32, win_w: u32, win_h: u32) -> (r: (i64, i64))
    ensures
        (r.0 as int, r.1 as int) == anchor_origin_doubled(
            position@,
            screen_w as int,
            screen_h as int,
            win_w as int,
            win_h as int,
        ),
{
    let dx = screen_w as i64 - win_w as i64;
    let dy = screen_h as i64 - win_h as i64;
    match Anchor::parse(position) {
        Some(Anchor::TopLeft) => (0, 0),
        Some(Anchor::TopRight) => (2 * dx, 0),
        Some(Anchor::BottomLeft) => (0, 2 * dy),
        Some(Anchor::BottomRight) => (2 * dx, 2 * dy),
        Some(Anchor::Center) => (dx, dy),
        None => (200, 200),
    }
}

/// The distance of a nudge: the caller's step, or 50 pixels when it is zero.
pub open spec fn nudge_delta(step: i32) -> int {
    if step == 0 { 50 } else { step as int }
}

/// A coordinate kept within the range of `i32`.
pub open spec fn clamp_i32(v: int) -> i32 {
    if v < i32::MIN { i32::MIN } else if v > i32::MAX { i32::MAX } else { v as i32 }
}

/// The position a nudge moves the window to, held within the coordinate range.
pub open spec fn nudged(x: i32, y: i32, d: Direction, step: i32) -> (i32, i32) {
    let delta = nudge_delta(step);
    match d {
        Direction::Up => (x, clamp_i32(y - delta)),
        Direction::Down => (x, clamp_i32(y + delta)),
        Direction::Left => (clamp_i32(x - delta), y),
        Direction::Right => (clamp_i32(x + delta), y),
    }
}

fn clamp_to_i32(v: i64) -> (r: i32)
    ensures
        r == clamp_i32(v as int),
{
    if v < i32::MIN as i64 {
        i32::MIN
    } else if v > i32::MAX as i64 {
        i32::MAX
    } else {
        v as i32
    }
}

/// The position a nudge moves the window at (`x`, `y`) to.
pub fn nudge_position(x: i32, y: i32, direction: Direction, step: i32) -> (r: (i32, i32))
    ensures
        r == nudged(x, y, direction, step),
{
    let delta: i64 = if step == 0 { 50 } else { step as i64 };
    match direction {
        Direction::Up => (x, clamp_to_i32(y as i64 - delta)),
        Direction::Down => (x, clamp_to_i32(y as i64 + delta)),
        Direction::Left => (clamp_to_i32(x as i64 - delta), y),
        Direction::Right => (clamp_to_i32(x as i64 + delta), y),
    }
}

/// Within a burst of toggle requests that all fall inside one debounce interval
/// of the first, which the guard permits, only the first is applied: the state
/// after the burst equals the state after that one toggle.
pub proof fn lemma_toggle_burst_applies_once(s: VisibilityState, times: Seq<u64>)
    requires
        times.len() >= 1,
        s.toggle_gate.allows(times[0]),
        forall|i: int|
            0 <= i < times.len() ==> (#[trigger] times[i] as int) < times[0] as int
                + s.toggle_gate.interval_ms as int,
    ensures
        s.toggled_all(times) == s.toggled(times[0]),
{
    lemma_toggles_refused(s.toggled(times[0]), times[0], times.drop_first());
}

proof fn lemma_toggles_refused(s: VisibilityState, first: u64, times: Seq<u64>)
    requires
        s.toggle_gate.last_fired_ms == Some(first),
        forall|i: int|
            0 <= i < times.len() ==> (#[trigger] times[i] as int) < first as int
                + s.toggle_gate.interval_ms as int,
    ensures
        s.toggled_all(times) == s,
    decreases times.len(),
{
    if times.len() > 0 {
        lemma_toggles_refused(s.toggled(times[0]), first, times.drop_first());
    }
}

} // verus!
