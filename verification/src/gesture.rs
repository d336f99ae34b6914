//! Mouse gestures on the tray icon: wheel acceleration, batching of wheel
//! events, double clicks, and which mouse events need a hit test.
use vstd::prelude::*;
use vstd::math::abs;

verus! {

/// The Win32 `WM_MOUSEMOVE` message.
pub const WM_MOUSEMOVE: u32 = 0x0200;

/// The Win32 `WM_LBUTTONUP` message.
pub const WM_LBUTTONUP: u32 = 0x0202;

/// The Win32 `WM_MOUSEWHEEL` message.
pub const WM_MOUSEWHEEL: u32 = 0x020A;

/// The Win32 `WHEEL_DELTA`: the wheel rotation of one notch.
pub const WHEEL_DELTA: u32 = 120;

/// How long after a left-Ctrl click on the tray icon, in milliseconds, all
/// monitors are turned off.
pub const MONITOR_OFF_DELAY_MS: u64 = 5000;

/// A pause longer than this, in nanoseconds, starts a new acceleration streak.
pub const ACCELERATION_RESET_NS: u64 = 350_000_000;

/// One wheel event over the tray icon.
#[derive(Clone, Copy, Debug, PartialEq, Eq, Structural)]
pub struct WheelEvent {
    /// Notches turned; positive away from the user.
    pub steps: i32,
    /// When the event happened, in nanoseconds on a monotonic clock.
    pub timestamp: u64,
    /// The wheel interaction the event belongs to.
    pub generation: u32,
}

/// The brightness step, in percentage points, of the `streak`-th notch of a
/// continuous gesture.
pub open spec fn spec_step_size(streak: u32) -> int {
    if 1 <= streak <= 2 {
        2
    } else if 3 <= streak <= 5 {
        4
    } else if 6 <= streak <= 9 {
        7
    } else {
        10
    }
}

/// The acceleration curve: precise 2% steps at first, growing to 10% steps.
pub fn step_size(streak: u32) -> (r: i32)
    ensures
        r == spec_step_size(streak),
{
    if 1 <= streak && streak <= 2 {
        2
    } else if 3 <= streak && streak <= 5 {
        4
    } else if 6 <= streak && streak <= 9 {
        7
    } else {
        10
    }
}

/// The acceleration curve never slows down along a streak and stays within 2 to 10.
pub proof fn lemma_step_size_monotone(a: u32, b: u32)
    requires
        1 <= a <= b,
    ensures
        2 <= spec_step_size(a) <= spec_step_size(b) <= 10,
{
}

/// The sign of `x`: -1, 0 or 1.
pub open spec fn signum(x: int) -> int {
    if x > 0 {
        1
    } else if x < 0 {
        -1
    } else {
        0
    }
}

/// `x` clamped to the `i32` range, as saturating arithmetic does.
pub open spec fn saturate(x: int) -> int {
    if x > i32::MAX {
        i32::MAX as int
    } else if x < i32::MIN {
        i32::MIN as int
    } else {
        x
    }
}

/// `a.saturating_add(b)` on `i32`.
pub fn saturating_add_i32(a: i32, b: i32) -> (r: i32)
    ensures
        r == saturate(a + b),
{
    let s = a as i64 + b as i64;
    if s > i32::MAX as i64 {
        i32::MAX
    } else if s < i32::MIN as i64 {
        i32::MIN
    } else {
        s as i32
    }
}

/// `streak.saturating_add(1)`.
pub open spec fn next_streak(streak: u32) -> u32 {
    if streak == u32::MAX {
        streak
    } else {
        (streak + 1) as u32
    }
}

/// The streak and adjustment after `count` more notches in `direction`, from
/// `streak` and the running adjustment `total`.
pub open spec fn accelerate(streak: u32, count: nat, direction: int, total: int) -> (u32, int)
    decreases count,
{
    if count == 0 {
        (streak, total)
    } else {
        let s = next_streak(streak);
        accelerate(s, (count - 1) as nat, direction, saturate(total + direction * spec_step_size(s)))
    }
}

/// Whether an event in `direction` at `timestamp` starts a new streak after the
/// last event at `last`, going in `previous_direction`.
pub open spec fn starts_new_streak(direction: int, timestamp: u64, previous_direction: i32, last: Option<u64>) -> bool {
    direction != previous_direction || match last {
        None => true,
        Some(t) => (if timestamp >= t { timestamp - t } else { 0 }) > ACCELERATION_RESET_NS,
    }
}

/// The acceleration state of a continuous wheel gesture.
#[derive(Debug)]
pub struct WheelAccelerator {
    direction: i32,
    streak: u32,
    last_event: Option<u64>,
}

impl WheelAccelerator {
    /// The direction of the current streak.
    pub closed spec fn direction(&self) -> i32 {
        self.direction
    }

    /// The number of notches in the current streak.
    pub closed spec fn streak(&self) -> u32 {
        self.streak
    }

    /// When the last event happened, if any.
    pub closed spec fn last_event(&self) -> Option<u64> {
        self.last_event
    }

    /// Whether the accelerator is in its initial state.
    pub open spec fn is_fresh(&self) -> bool {
        self.direction() == 0 && self.streak() == 0 && self.last_event() is None
    }

    /// An accelerator with no gesture in progress.
    pub fn new() -> (r: Self)
        ensures
            r.is_fresh(),
    {
        WheelAccelerator { direction: 0, streak: 0, last_event: None }
    }

    /// Forgets the gesture in progress.
    pub fn reset(&mut self)
        ensures
            final(self).is_fresh(),
    {
        *self = WheelAccelerator::new();
    }

    /// Returns the brightness adjustment, in percentage points, of `event`: each
    /// notch adds the step of its position in the streak, in the event's
    /// direction. A change of direction, the first event, or a pause longer than
    /// `ACCELERATION_RESET_NS` starts a new streak.
    pub fn adjust(&mut self, event: WheelEvent) -> (r: i32)
        ensures
            ({
                let direction = signum(event.steps as int);
                let fresh = starts_new_streak(direction, event.timestamp, old(self).direction(), old(self).last_event());
                let start = if fresh { 0u32 } else { old(self).streak() };
                let outcome = accelerate(start, abs(event.steps as int) as nat, direction, 0);
                &&& final(self).direction() == direction
                &&& final(self).last_event() == Some(event.timestamp)
                &&& final(self).streak() == outcome.0
                &&& r == outcome.1
            }),
    {
        let direction: i32 = if event.steps > 0 {
            1
        } else if event.steps < 0 {
            -1
        } else {
            0
        };
        let starts_new = direction != self.direction || match self.last_event {
            None => true,
            Some(last) => {
                let elapsed = if event.timestamp >= last { event.timestamp - last } else { 0 };
                elapsed > ACCELERATION_RESET_NS
            },
        };
        if starts_new {
            self.streak = 0;
            self.direction = direction;
        }
        self.last_event = Some(event.timestamp);
        let count: u32 = if event.steps < 0 {
            (0 - (event.steps as i64)) as u32
        } else {
            event.steps as u32
        };
        let ghost start = self.streak;
        let mut adjustment: i32 = 0;
        let mut i: u32 = 0;
        while i < count
            invariant
                i <= count,
                count == abs(event.steps as int),
                direction == signum(event.steps as int),
                self.direction == direction,
                self.last_event == Some(event.timestamp),
                accelerate(self.streak, (count - i) as nat, direction as int, adjustment as int)
                    == accelerate(start, count as nat, direction as int, 0),
            decreases count - i,
        {
            self.streak = if self.streak == u32::MAX { self.streak } else { self.streak + 1 };
            let step = step_size(self.streak);
            adjustment = saturating_add_i32(adjustment, direction * step);
            i = i + 1;
        }
        adjustment
    }
}

impl Default for WheelAccelerator {
    fn default() -> (r: Self)
        ensures
            r.is_fresh(),
    {
        WheelAccelerator::new()
    }
}

/// The steps, in percentage points, of the notches at positions `streak + 1`
/// to `streak + count` of a streak.
pub open spec fn steps_from(streak: nat, count: nat) -> int
    decreases count,
{
    if count == 0 {
        0
    } else {
        spec_step_size((streak + 1) as u32) + steps_from(streak + 1, (count - 1) as nat)
    }
}

/// The closed form of acceleration: `count` notches in `direction` from any
/// streak position `streak`, onto the running total `total`, add the steps of
/// positions `streak + 1` to `streak + count` and leave the streak at
/// `streak + count`, whenever neither the total nor the streak counter can
/// reach its limits.
pub proof fn lemma_accelerate_sum(streak: u32, count: nat, direction: int, total: int)
    requires
        -1 <= direction <= 1,
        streak + count <= u32::MAX,
        i32::MIN + 10 * count <= total <= i32::MAX - 10 * count,
    ensures
        accelerate(streak, count, direction, total) == ((streak + count) as u32, total + direction * steps_from(
            streak as nat,
            count,
        )),
    decreases count,
{
    if count > 0 {
        let s = next_streak(streak);
        assert(s == streak + 1);
        let step = spec_step_size(s);
        assert(2 <= step <= 10);
        assert(-10 <= direction * step <= 10) by (nonlinear_arith)
            requires
                -1 <= direction <= 1,
                2 <= step <= 10,
        ;
        assert(saturate(total + direction * step) == total + direction * step);
        lemma_accelerate_sum(s, (count - 1) as nat, direction, total + direction * step);
        let rest = steps_from(s as nat, (count - 1) as nat);
        assert(steps_from(streak as nat, count) == step + rest);
        assert(direction * (step + rest) == direction * step + direction * rest) by (nonlinear_arith);
    }
}

/// Running `first` notches, then `second` more from where they left the streak
/// and the total, is running `first + second` notches.
pub proof fn lemma_accelerate_concat(streak: u32, first: nat, second: nat, direction: int, total: int)
    ensures
        accelerate(streak, first + second, direction, total) == ({
            let middle = accelerate(streak, first, direction, total);
            accelerate(middle.0, second, direction, middle.1)
        }),
    decreases first,
{
    if first > 0 {
        let s = next_streak(streak);
        let t = saturate(total + direction * spec_step_size(s));
        lemma_accelerate_concat(s, (first - 1) as nat, second, direction, t);
        assert((first + second - 1) as nat == (first - 1) as nat + second);
    }
}

/// The streak and the summed adjustment after `count` one-notch events in
/// `direction`, each continuing the streak, summed as a batch sums them.
pub open spec fn one_notch_events(streak: u32, count: nat, direction: int) -> (u32, int)
    decreases count,
{
    if count == 0 {
        (streak, 0)
    } else {
        let before = one_notch_events(streak, (count - 1) as nat, direction);
        let event = accelerate(before.0, 1, direction, 0);
        (event.0, saturate(before.1 + event.1))
    }
}

/// A burst of `count` one-notch events that continue a streak adds up exactly
/// to one event of `count` notches from the same streak position, saturation
/// included.
pub proof fn lemma_notch_by_notch(streak: u32, count: nat, direction: int)
    requires
        -1 <= direction <= 1,
    ensures
        one_notch_events(streak, count, direction) == accelerate(streak, count, direction, 0),
    decreases count,
{
    if count > 0 {
        let n1 = (count - 1) as nat;
        lemma_notch_by_notch(streak, n1, direction);
        lemma_accelerate_concat(streak, n1, 1, direction, 0);
        assert(n1 + 1 == count);
        let middle = accelerate(streak, n1, direction, 0);
        let s = next_streak(middle.0);
        let step = spec_step_size(s);
        assert(2 <= step <= 10);
        assert(-10 <= direction * step <= 10) by (nonlinear_arith)
            requires
                -1 <= direction <= 1,
                2 <= step <= 10,
        ;
        reveal_with_fuel(accelerate, 2);
        assert(accelerate(middle.0, 1, direction, 0) == (s, saturate(direction * step)));
        assert(accelerate(middle.0, 1, direction, middle.1) == (s, saturate(middle.1 + direction * step)));
    }
}

/// `WheelAccelerator::adjust` on a fresh accelerator, or right after `reset`, is
/// the start of a new streak whatever the event.
pub proof fn lemma_fresh_starts_new_streak(a: WheelAccelerator, event: WheelEvent)
    requires
        a.is_fresh(),
    ensures
        starts_new_streak(signum(event.steps as int), event.timestamp, a.direction(), a.last_event()),
{
}

/// A continuing gesture keeps its streak, in either direction: an event in the
/// direction of the last one, at most the reset interval after it, starts no new
/// streak.
pub proof fn lemma_continuing_gesture_keeps_streak(direction: i32, timestamp: u64, last: u64)
    requires
        last <= timestamp <= last + ACCELERATION_RESET_NS,
    ensures
        !starts_new_streak(direction as int, timestamp, direction, Some(last)),
{
}

/// A pause longer than the reset interval, or a change of direction, starts a
/// new streak.
pub proof fn lemma_pause_or_turn_resets(direction: int, timestamp: u64, previous_direction: i32, last: u64)
    requires
        direction != previous_direction || (timestamp >= last && timestamp - last > ACCELERATION_RESET_NS),
    ensures
        starts_new_streak(direction, timestamp, previous_direction, Some(last)),
{
}

/// The high word of `mouse_data` read as a signed wheel rotation.
pub open spec fn wheel_rotation(mouse_data: u32) -> int {
    let high = mouse_data as int / 0x10000;
    if high >= 0x8000 {
        high - 0x10000
    } else {
        high
    }
}

/// The notches of a wheel rotation: whole notches, rounded toward zero, or one
/// notch in its direction for a rotation smaller than a notch.
pub open spec fn spec_steps_from_rotation(delta: int) -> int {
    if delta >= WHEEL_DELTA {
        delta / WHEEL_DELTA as int
    } else if delta <= -(WHEEL_DELTA as int) {
        -((-delta) / WHEEL_DELTA as int)
    } else {
        signum(delta)
    }
}

/// How many notches a wheel rotation counts: none for no rotation; for a turn
/// away from the user, the whole notches in it, at least one; and a turn toward
/// the user counts the same notches the other way.
pub proof fn lemma_rotation_counts_whole_notches(delta: int)
    ensures
        spec_steps_from_rotation(-delta) == -spec_steps_from_rotation(delta),
        delta == 0 ==> spec_steps_from_rotation(delta) == 0,
        delta > 0 ==> ({
            let r = spec_steps_from_rotation(delta);
            let turned = if delta < 120 { 120 } else { delta };
            r >= 1 && r * 120 <= turned < (r + 1) * 120
        }),
{
    if delta > 0 {
        let r = spec_steps_from_rotation(delta);
        if delta >= 120 {
            assert(r == delta / 120);
        }
    }
}

/// Converts the `mouseData` of a low-level wheel event into notches, counting
/// high-resolution partial rotations as one notch.
pub fn steps_from_mouse_data(mouse_data: u32) -> (r: i32)
    ensures
        r == spec_steps_from_rotation(wheel_rotation(mouse_data)),
{
    let high = mouse_data / 0x10000;
    let delta: i32 = if high >= 0x8000 {
        (high as i64 - 0x10000) as i32
    } else {
        high as i32
    };
    if delta >= 120 {
        delta / 120
    } else if delta <= -120 {
        let magnitude = (0 - delta) as u32;
        0 - ((magnitude / 120) as i32)
    } else if delta > 0 {
        1
    } else if delta < 0 {
        -1
    } else {
        0
    }
}

/// Whether a click at `current` following one at `previous` (0 when none is
/// pending) is a double click: the millisecond tick count may wrap around.
pub open spec fn spec_is_double_click(previous: u32, current: u32, maximum_interval: u32) -> bool {
    previous != 0 && (if current >= previous {
        current - previous
    } else {
        current + 0x1_0000_0000 - previous
    }) <= maximum_interval
}

/// Two clicks make a double click exactly when a first click is pending and the
/// ticks from it to the second, counted modulo 2^32 as the tick counter wraps,
/// are at most the double-click time.
pub proof fn lemma_double_click_counts_ticks_modulo(previous: u32, current: u32, maximum_interval: u32)
    ensures
        spec_is_double_click(previous, current, maximum_interval) <==> previous != 0 && (current - previous)
            % 0x1_0000_0000 <= maximum_interval,
{
    let d = current - previous;
    if current >= previous {
        assert(d % 0x1_0000_0000 == d);
    } else {
        assert(d % 0x1_0000_0000 == d + 0x1_0000_0000);
    }
}

/// Recognizes a double click from the tick counts of two clicks.
pub fn is_double_click(previous: u32, current: u32, maximum_interval: u32) -> (r: bool)
    ensures
        r == spec_is_double_click(previous, current, maximum_interval),
{
    let interval: u32 = if current >= previous {
        current - previous
    } else {
        ((current as u64 + 0x1_0000_0000) - previous as u64) as u32
    };
    previous != 0 && interval <= maximum_interval
}

/// Whether a low-level mouse `message` needs the tray icon's rectangle: moves
/// only while a wheel gesture or a click is pending, wheel turns and left-button
/// releases always, nothing else.
pub fn needs_tray_hit_test(message: u32, interaction_active: bool, click_pending: bool) -> (r: bool)
    ensures
        r == (if message == WM_MOUSEMOVE {
            interaction_active || click_pending
        } else {
            message == WM_MOUSEWHEEL || message == WM_LBUTTONUP
        }),
{
    if message == WM_MOUSEMOVE {
        interaction_active || click_pending
    } else {
        message == WM_MOUSEWHEEL || message == WM_LBUTTONUP
    }
}

/// The wheel events gathered in one batch window, all of one interaction.
#[derive(Debug, Clone, Copy, PartialEq, Eq, Structural)]
pub struct WheelBatch {
    /// The interaction the batched events belong to.
    pub generation: u32,
    /// The summed adjustment of the batched events, saturating.
    pub adjustment: i32,
}

impl WheelBatch {
    /// Starts a batch with its first event.
    pub fn begin(accelerator: &mut WheelAccelerator, first: WheelEvent) -> (r: Self)
        ensures
            r.generation == first.generation,
            ({
                let direction = signum(first.steps as int);
                let fresh = starts_new_streak(direction, first.timestamp, old(accelerator).direction(), old(accelerator).last_event());
                let start = if fresh { 0u32 } else { old(accelerator).streak() };
                let outcome = accelerate(start, abs(first.steps as int) as nat, direction, 0);
                &&& r.adjustment == outcome.1
                &&& final(accelerator).streak() == outcome.0
                &&& final(accelerator).last_event() == Some(first.timestamp)
            }),
    {
        let adjustment = accelerator.adjust(first);
        WheelBatch { generation: first.generation, adjustment }
    }

    /// Adds an event to the batch. An event of another interaction drops what was
    /// gathered and starts the accelerator afresh.
    pub fn add(&mut self, accelerator: &mut WheelAccelerator, event: WheelEvent)
        ensures
            final(self).generation == event.generation,
            ({
                let switched = event.generation != old(self).generation;
                let before = if switched { 0 } else { old(self).adjustment as int };
                let previous_direction = if switched { 0i32 } else { old(accelerator).direction() };
                let last = if switched { None } else { old(accelerator).last_event() };
                let streak = if switched { 0u32 } else { old(accelerator).streak() };
                let direction = signum(event.steps as int);
                let start = if starts_new_streak(direction, event.timestamp, previous_direction, last) { 0u32 } else { streak };
                let outcome = accelerate(start, abs(event.steps as int) as nat, direction, 0);
                &&& final(self).adjustment == saturate(before + outcome.1)
                &&& final(accelerator).streak() == outcome.0
                &&& final(accelerator).last_event() == Some(event.timestamp)
            }),
    {
        if event.generation != self.generation {
            self.generation = event.generation;
            self.adjustment = 0;
            accelerator.reset();
        }
        let a = accelerator.adjust(event);
        self.adjustment = saturating_add_i32(self.adjustment, a);
    }

    /// Closes the batch: the adjustment to apply, or none when the interaction
    /// was cancelled or superseded meanwhile, in which case the accelerator is
    /// reset.
    pub fn finish(self, accelerator: &mut WheelAccelerator, current_generation: u32, interaction_active: bool) -> (r: Option<i32>)
        ensures
            self.generation == current_generation && interaction_active ==> r == Some(self.adjustment)
                && *final(accelerator) == *old(accelerator),
            !(self.generation == current_generation && interaction_active) ==> r is None
                && final(accelerator).is_fresh(),
    {
        if self.generation != current_generation || !interaction_active {
            accelerator.reset();
            None
        } else {
            Some(self.adjustment)
        }
    }
}

/// The tray-icon mouse state shared by the hook and the brightness worker.
#[derive(Debug, Clone, Copy, PartialEq, Eq, Structural)]
pub struct PointerState {
    /// Whether a wheel gesture over the icon is in progress.
    pub interaction_active: bool,
    /// The current wheel interaction; bumped when one is cancelled.
    pub wheel_generation: u32,
    /// The tick count of a pending first click on the icon, or 0.
    pub last_left_click: u32,
}

/// What the hook does after a mouse event.
#[derive(Debug, Clone, Copy, PartialEq, Eq, Structural)]
pub enum PointerAction {
    /// Nothing more.
    Nothing,
    /// Send a wheel event of `steps` notches in interaction `generation` to the
    /// brightness worker, and swallow the mouse event.
    SendWheel { steps: i32, generation: u32 },
    /// Ask the window to toggle HDR.
    ToggleHdr,
    /// Turn all monitors off once `delay_ms` milliseconds have passed, and not before.
    TurnOffMonitors { delay_ms: u64 },
}

impl PointerState {
    /// No gesture and no click pending.
    pub fn new() -> (r: Self)
        ensures
            r == (PointerState { interaction_active: false, wheel_generation: 0, last_left_click: 0 }),
    {
        PointerState { interaction_active: false, wheel_generation: 0, last_left_click: 0 }
    }

    /// Ends the wheel gesture in progress: the worker drops its pending batch.
    pub fn cancel_wheel_interaction(&mut self)
        ensures
            !final(self).interaction_active,
            final(self).wheel_generation == (if old(self).wheel_generation == u32::MAX {
                0
            } else {
                old(self).wheel_generation + 1
            }),
            final(self).last_left_click == old(self).last_left_click,
    {
        self.interaction_active = false;
        self.wheel_generation = if self.wheel_generation == u32::MAX { 0 } else { self.wheel_generation + 1 };
    }

    /// Decides what a mouse `message` over (or off) the tray icon does: moving off
    /// the icon cancels a wheel gesture, or else forgets a pending click; a wheel
    /// turn over the icon starts or continues a gesture; a left release over the
    /// icon with left Ctrl held turns all monitors off after
    /// `MONITOR_OFF_DELAY_MS`, and without it is a first click, or a double click
    /// that toggles HDR; elsewhere it forgets a pending click.
    pub fn handle_mouse_event(
        &mut self,
        message: u32,
        over_icon: bool,
        left_ctrl_down: bool,
        mouse_data: u32,
        time: u32,
        double_click_time: u32,
    ) -> (r: PointerAction)
        ensures
            message == WM_MOUSEMOVE ==> r == PointerAction::Nothing && (if old(self).interaction_active && !over_icon {
                !final(self).interaction_active && final(self).wheel_generation == (if old(self).wheel_generation == u32::MAX {
                    0
                } else {
                    old(self).wheel_generation + 1
                }) && final(self).last_left_click == old(self).last_left_click
            } else if old(self).last_left_click != 0 && !over_icon {
                *final(self) == (PointerState { last_left_click: 0, ..*old(self) })
            } else {
                *final(self) == *old(self)
            }),
            message == WM_MOUSEWHEEL && over_icon ==> *final(self) == (PointerState { interaction_active: true, ..*old(self) })
                && r == (PointerAction::SendWheel {
                    steps: spec_steps_from_rotation(wheel_rotation(mouse_data)) as i32,
                    generation: old(self).wheel_generation,
                }),
            message == WM_LBUTTONUP && over_icon && left_ctrl_down ==> *final(self) == (PointerState {
                last_left_click: 0,
                ..*old(self)
            }) && r == (PointerAction::TurnOffMonitors { delay_ms: MONITOR_OFF_DELAY_MS }),
            message == WM_LBUTTONUP && over_icon && !left_ctrl_down ==> (if spec_is_double_click(old(self).last_left_click, time, double_click_time) {
                *final(self) == (PointerState { last_left_click: 0, ..*old(self) }) && r == PointerAction::ToggleHdr
            } else {
                *final(self) == (PointerState { last_left_click: time, ..*old(self) }) && r == PointerAction::Nothing
            }),
            message == WM_LBUTTONUP && !over_icon ==> *final(self) == (PointerState { last_left_click: 0, ..*old(self) })
                && r == PointerAction::Nothing,
            message != WM_MOUSEMOVE && message != WM_LBUTTONUP && !(message == WM_MOUSEWHEEL && over_icon) ==> *final(self) == *old(self)
                && r == PointerAction::Nothing,
    {
        if message == WM_MOUSEMOVE {
            if self.interaction_active && !over_icon {
                self.cancel_wheel_interaction();
            } else if self.last_left_click != 0 && !over_icon {
                self.last_left_click = 0;
            }
            PointerAction::Nothing
        } else if message == WM_MOUSEWHEEL && over_icon {
            self.interaction_active = true;
            PointerAction::SendWheel { steps: steps_from_mouse_data(mouse_data), generation: self.wheel_generation }
        } else if message == WM_LBUTTONUP && over_icon && left_ctrl_down {
            self.last_left_click = 0;
            PointerAction::TurnOffMonitors { delay_ms: MONITOR_OFF_DELAY_MS }
        } else if message == WM_LBUTTONUP && over_icon {
            let previous = self.last_left_click;
            self.last_left_click = time;
            if is_double_click(previous, time, double_click_time) {
                self.last_left_click = 0;
                PointerAction::ToggleHdr
            } else {
                PointerAction::Nothing
            }
        } else if message == WM_LBUTTONUP {
            self.last_left_click = 0;
            PointerAction::Nothing
        } else {
            PointerAction::Nothing
        }
    }
}

/// Whether the hook swallows the mouse event: wheel turns over the icon.
pub fn consumes_event(message: u32, over_icon: bool) -> (r: bool)
    ensures
        r == (message == WM_MOUSEWHEEL && over_icon),
{
    message == WM_MOUSEWHEEL && over_icon
}

} // verus!
