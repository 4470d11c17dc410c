//! Debounced inputs and the retriggerable haptic timer.
//!
//! A `Debouncer` is fed the raw level of a pin, with the time, whenever the
//! pin changes and whenever its `deadline` passes; it reports an edge only
//! once the new level has held for the whole window. `Haptic` is a one-shot
//! timer that a new request restarts. `InputHub` joins them: it takes the
//! events that the input task's selection produces and says what to do with
//! the vibration motor.

use crate::wakeup::Button;
use vstd::prelude::*;

verus! {

/// Settling time that a new level must hold before it counts.
pub const DEBOUNCE_MS: u64 = 5;

/// Length of the buzz that acknowledges a button press.
pub const PRESS_BUZZ_MS: u64 = 60;

#[derive(Clone, Copy, Debug, PartialEq, Eq, Structural)]
pub enum Edge {
    Rising,
    Falling,
}

/// The edge that ends at `level`.
pub open spec fn edge_to(level: bool) -> Edge {
    if level {
        Edge::Rising
    } else {
        Edge::Falling
    }
}

/// The state of a debounced input.
#[derive(Clone, Copy, Debug, PartialEq, Eq, Structural)]
pub struct DebounceState {
    /// The settling window in milliseconds.
    pub window: u64,
    /// The last level that held for the whole window.
    pub stable: bool,
    /// Since when the input has been away from `stable`, if it is.
    pub pending_since: Option<u64>,
}

/// Milliseconds from `since` to `now`, or zero if the clock reads earlier.
pub open spec fn elapsed(since: u64, now: u64) -> int {
    if now >= since {
        now - since
    } else {
        0
    }
}

/// One sample of the raw level at time `now`: the new state and the edge
/// reported, if any.
pub open spec fn debounce_step(d: DebounceState, level: bool, now: u64) -> (DebounceState, Option<Edge>) {
    if level == d.stable {
        (DebounceState { pending_since: None, ..d }, None)
    } else {
        let since = match d.pending_since {
            Some(t) => t,
            None => now,
        };
        if elapsed(since, now) >= d.window {
            (DebounceState { stable: level, pending_since: None, ..d }, Some(edge_to(level)))
        } else {
            (DebounceState { pending_since: Some(since), ..d }, None)
        }
    }
}

/// Feeds a run of samples in order: the final state and the number of edges
/// reported.
pub open spec fn debounce_run(d: DebounceState, samples: Seq<(bool, u64)>) -> (DebounceState, nat)
    decreases samples.len(),
{
    if samples.len() == 0 {
        (d, 0)
    } else {
        let (d1, e) = debounce_step(d, samples[0].0, samples[0].1);
        let (d2, n) = debounce_run(d1, samples.drop_first());
        (d2, n + if e is Some {
            1nat
        } else {
            0nat
        })
    }
}

/// A debounced input.
pub struct Debouncer {
    state: DebounceState,
}

impl View for Debouncer {
    type V = DebounceState;

    closed spec fn view(&self) -> DebounceState {
        self.state
    }
}

impl Debouncer {
    /// A debouncer with a settling window of `window` milliseconds, whose
    /// input rests at `level`.
    pub fn new(level: bool, window: u64) -> (r: Self)
        ensures
            r@ == (DebounceState { window, stable: level, pending_since: None }),
    {
        Debouncer { state: DebounceState { window, stable: level, pending_since: None } }
    }

    /// The level that last held for the whole window.
    pub fn level(&self) -> (r: bool)
        ensures
            r == self@.stable,
    {
        self.state.stable
    }

    /// Takes the raw level read at `now` and reports the edge, if the new
    /// level has now held for the whole window.
    pub fn update(&mut self, level: bool, now: u64) -> (r: Option<Edge>)
        ensures
            (final(self)@, r) == debounce_step(old(self)@, level, now),
    {
        let d = self.state;
        if level == d.stable {
            self.state = DebounceState { pending_since: None, ..d };
            None
        } else {
            let since = match d.pending_since {
                Some(t) => t,
                None => now,
            };
            let waited = if now >= since {
                now - since
            } else {
                0
            };
            if waited >= d.window {
                self.state = DebounceState { stable: level, pending_since: None, ..d };
                if level {
                    Some(Edge::Rising)
                } else {
                    Some(Edge::Falling)
                }
            } else {
                self.state = DebounceState { pending_since: Some(since), ..d };
                None
            }
        }
    }

    /// When the input must be sampled again to settle a pending change:
    /// the end of the window, or `None` when no change is pending.
    pub fn deadline(&self) -> (r: Option<u64>)
        ensures
            r == (match self@.pending_since {
                Some(t) => Some(
                    if t + self@.window <= u64::MAX {
                        (t + self@.window) as u64
                    } else {
                        u64::MAX
                    },
                ),
                None => None,
            }),
    {
        match self.state.pending_since {
            Some(t) => Some(t.saturating_add(self.state.window)),
            None => None,
        }
    }
}

proof fn lemma_settled_run(d: DebounceState, samples: Seq<(bool, u64)>)
    requires
        d.pending_since is None,
        forall|i: int| 0 <= i < samples.len() ==> (#[trigger] samples[i]).0 == d.stable,
    ensures
        debounce_run(d, samples) == (d, 0nat),
    decreases samples.len(),
{
    if samples.len() > 0 {
        let rest = samples.drop_first();
        assert forall|i: int| 0 <= i < rest.len() implies (#[trigger] rest[i]).0 == d.stable by {
            assert(rest[i] == samples[i + 1]);
        }
        assert(samples[0].0 == d.stable);
        lemma_settled_run(d, rest);
    }
}

/// A change that reverts before the window is over reports no edge, however
/// long the input then rests at its old level.
pub proof fn law_glitch_ignored(d: DebounceState, t1: u64, t2: u64, rest: Seq<(bool, u64)>)
    requires
        d.pending_since is None,
        t1 <= t2,
        t2 - t1 < d.window,
        forall|i: int| 0 <= i < rest.len() ==> (#[trigger] rest[i]).0 == d.stable,
    ensures
        debounce_run(d, seq![(!d.stable, t1), (d.stable, t2)] + rest) == (d, 0nat),
{
    let s = seq![(!d.stable, t1), (d.stable, t2)] + rest;
    let s1 = seq![(d.stable, t2)] + rest;
    assert(s.drop_first() =~= s1);
    assert(s1.drop_first() =~= rest);
    let d1 = DebounceState { pending_since: Some(t1), ..d };
    assert(debounce_step(d, !d.stable, t1) == (d1, None::<Edge>));
    assert(debounce_step(d1, d.stable, t2) == (d, None::<Edge>));
    lemma_settled_run(d, rest);
    assert(debounce_run(d1, s1) == (d, 0nat));
}

/// A change that holds for the whole window reports exactly one edge, to
/// the new level, however long the input then rests there.
pub proof fn law_held_change(d: DebounceState, t1: u64, t2: u64, rest: Seq<(bool, u64)>)
    requires
        d.pending_since is None,
        t1 <= t2,
        t2 - t1 >= d.window,
        forall|i: int| 0 <= i < rest.len() ==> (#[trigger] rest[i]).0 == !d.stable,
    ensures
        debounce_run(d, seq![(!d.stable, t1), (!d.stable, t2)] + rest) == (
            DebounceState { stable: !d.stable, pending_since: None, ..d },
            1nat,
        ),
{
    let s = seq![(!d.stable, t1), (!d.stable, t2)] + rest;
    assert(s.drop_first() =~= seq![(!d.stable, t2)] + rest);
    assert((seq![(!d.stable, t2)] + rest).drop_first() =~= rest);
    let s1 = seq![(!d.stable, t2)] + rest;
    let settled = DebounceState { stable: !d.stable, pending_since: None, ..d };
    lemma_settled_run(settled, rest);
    if d.window == 0 {
        assert(debounce_step(d, !d.stable, t1) == (settled, Some(edge_to(!d.stable))));
        assert(debounce_step(settled, !d.stable, t2) == (settled, None::<Edge>));
        assert(debounce_run(settled, s1) == (settled, 0nat));
    } else {
        let d1 = DebounceState { pending_since: Some(t1), ..d };
        assert(debounce_step(d, !d.stable, t1) == (d1, None::<Edge>));
        assert(debounce_step(d1, !d.stable, t2) == (settled, Some(edge_to(!d.stable))));
        assert(debounce_run(d1, s1) == (settled, 1nat));
    }
}

/// The vibration motor's one-shot timer.
#[derive(Clone, Copy, Debug, PartialEq, Eq, Structural)]
pub struct HapticState {
    /// When the motor must stop, while it runs.
    pub until: Option<u64>,
}

/// A retriggerable one-shot timer for the vibration motor: a new request
/// restarts the countdown rather than extending it.
pub struct Haptic {
    state: HapticState,
}

impl View for Haptic {
    type V = HapticState;

    closed spec fn view(&self) -> HapticState {
        self.state
    }
}

/// `now + d`, or the end of the clock's range.
pub open spec fn deadline_after(now: u64, d: u64) -> u64 {
    if now + d <= u64::MAX {
        (now + d) as u64
    } else {
        u64::MAX
    }
}

impl Haptic {
    /// A stopped motor.
    pub fn new() -> (r: Self)
        ensures
            r@.until is None,
    {
        Haptic { state: HapticState { until: None } }
    }

    /// Whether the motor runs.
    pub fn is_running(&self) -> (r: bool)
        ensures
            r == self@.until is Some,
    {
        self.state.until.is_some()
    }

    /// When the countdown ends, if it is armed.
    pub fn deadline(&self) -> (r: Option<u64>)
        ensures
            r == self@.until,
    {
        self.state.until
    }

    /// Starts the motor for `duration` milliseconds from `now`, replacing
    /// any countdown under way.
    pub fn request(&mut self, duration: u64, now: u64)
        ensures
            final(self)@.until == Some(deadline_after(now, duration)),
    {
        self.state = HapticState { until: Some(now.saturating_add(duration)) };
    }

    /// Checks the countdown at `now`: when it has run out the motor stops
    /// and `true` is returned; otherwise nothing changes.
    pub fn expire(&mut self, now: u64) -> (r: bool)
        ensures
            r == (match old(self)@.until {
                Some(t) => now >= t,
                None => false,
            }),
            final(self)@ == (if r {
                HapticState { until: None }
            } else {
                old(self)@
            }),
    {
        match self.state.until {
            Some(t) => {
                if now >= t {
                    self.state = HapticState { until: None };
                    true
                } else {
                    false
                }
            },
            None => false,
        }
    }
}

/// What woke the input task.
#[derive(Clone, Copy, Debug, PartialEq, Eq, Structural)]
pub enum InputEvent {
    /// A button pin changed level, or its settling deadline passed; `level`
    /// is what the pin reads now.
    ButtonSample(Button, bool),
    /// The accelerometer's interrupt line changed level, or its settling
    /// deadline passed.
    TapSample(bool),
    /// Some task asked for a buzz of this many milliseconds.
    Buzz(u64),
    /// The haptic countdown's deadline passed.
    HapticDeadline,
}

/// What the input task must do after an event.
#[derive(Clone, Copy, Debug, PartialEq, Eq, Structural)]
pub struct InputOutcome {
    /// The button whose press was confirmed, if one was.
    pub pressed: Option<Button>,
    /// Whether a tap was confirmed.
    pub tapped: bool,
    /// The level to drive the vibration motor to, if it changes.
    pub motor: Option<bool>,
}

/// The debouncers of the four buttons and of the tap line, with the haptic
/// timer they drive.
pub struct InputHub {
    pub buttons: [Debouncer; 4],
    pub tap: Debouncer,
    pub haptic: Haptic,
}

/// The position of a button among the hub's debouncers.
pub open spec fn button_index(b: Button) -> int {
    match b {
        Button::BottomLeft => 0,
        Button::TopLeft => 1,
        Button::TopRight => 2,
        Button::BottomRight => 3,
    }
}

impl InputHub {
    /// A hub whose buttons rest released (high) and whose tap line rests low.
    pub fn new() -> (r: Self)
        ensures
            forall|i: int|
                0 <= i < 4 ==> (#[trigger] r.buttons[i])@ == (DebounceState {
                    window: DEBOUNCE_MS,
                    stable: true,
                    pending_since: None,
                }),
            r.tap@ == (DebounceState { window: DEBOUNCE_MS, stable: false, pending_since: None }),
            r.haptic@.until is None,
    {
        InputHub {
            buttons: [
                Debouncer::new(true, DEBOUNCE_MS),
                Debouncer::new(true, DEBOUNCE_MS),
                Debouncer::new(true, DEBOUNCE_MS),
                Debouncer::new(true, DEBOUNCE_MS),
            ],
            tap: Debouncer::new(false, DEBOUNCE_MS),
            haptic: Haptic::new(),
        }
    }

    /// Handles one event at time `now`. A confirmed button press (a falling
    /// edge) buzzes the motor for `PRESS_BUZZ_MS`; a buzz request restarts
    /// the motor's countdown; the countdown's end stops the motor.
    pub fn handle(&mut self, ev: InputEvent, now: u64) -> (r: InputOutcome)
        ensures
            match ev {
                InputEvent::ButtonSample(b, level) => {
                    let i = button_index(b);
                    let (d, e) = debounce_step(old(self).buttons[i]@, level, now);
                    &&& final(self).buttons[i]@ == d
                    &&& forall|j: int|
                        0 <= j < 4 && j != i ==> (#[trigger] final(self).buttons[j])@ == old(
                            self,
                        ).buttons[j]@
                    &&& final(self).tap@ == old(self).tap@
                    &&& r.tapped == false
                    &&& if e == Some(Edge::Falling) {
                        &&& r.pressed == Some(b)
                        &&& r.motor == Some(true)
                        &&& final(self).haptic@.until == Some(deadline_after(now, PRESS_BUZZ_MS))
                    } else {
                        &&& r.pressed == None::<Button>
                        &&& r.motor == None::<bool>
                        &&& final(self).haptic@ == old(self).haptic@
                    }
                },
                InputEvent::TapSample(level) => {
                    let (d, e) = debounce_step(old(self).tap@, level, now);
                    &&& final(self).tap@ == d
                    &&& forall|j: int|
                        0 <= j < 4 ==> (#[trigger] final(self).buttons[j])@ == old(
                            self,
                        ).buttons[j]@
                    &&& final(self).haptic@ == old(self).haptic@
                    &&& r == (InputOutcome { pressed: None, tapped: e is Some, motor: None })
                },
                InputEvent::Buzz(ms) => {
                    &&& final(self).haptic@.until == Some(deadline_after(now, ms))
                    &&& forall|j: int|
                        0 <= j < 4 ==> (#[trigger] final(self).buttons[j])@ == old(
                            self,
                        ).buttons[j]@
                    &&& final(self).tap@ == old(self).tap@
                    &&& r == (InputOutcome { pressed: None, tapped: false, motor: Some(true) })
                },
                InputEvent::HapticDeadline => {
                    let stops = match old(self).haptic@.until {
                        Some(t) => now >= t,
                        None => false,
                    };
                    &&& final(self).haptic@ == (if stops {
                        HapticState { until: None }
                    } else {
                        old(self).haptic@
                    })
                    &&& forall|j: int|
                        0 <= j < 4 ==> (#[trigger] final(self).buttons[j])@ == old(
                            self,
                        ).buttons[j]@
                    &&& final(self).tap@ == old(self).tap@
                    &&& r == (InputOutcome {
                        pressed: None,
                        tapped: false,
                        motor: if stops {
                            Some(false)
                        } else {
                            None
                        },
                    })
                },
            },
    {
        match ev {
            InputEvent::ButtonSample(b, level) => {
                let i: usize = match b {
                    Button::BottomLeft => 0,
                    Button::TopLeft => 1,
                    Button::TopRight => 2,
                    Button::BottomRight => 3,
                };
                let e = self.buttons[i].update(level, now);
                match e {
                    Some(Edge::Falling) => {
                        self.haptic.request(PRESS_BUZZ_MS, now);
                        InputOutcome { pressed: Some(b), tapped: false, motor: Some(true) }
                    },
                    _ => InputOutcome { pressed: None, tapped: false, motor: None },
                }
            },
            InputEvent::TapSample(level) => {
                let e = self.tap.update(level, now);
                InputOutcome { pressed: None, tapped: e.is_some(), motor: None }
            },
            InputEvent::Buzz(ms) => {
                self.haptic.request(ms, now);
                InputOutcome { pressed: None, tapped: false, motor: Some(true) }
            },
            InputEvent::HapticDeadline => {
                let stopped = self.haptic.expire(now);
                InputOutcome {
                    pressed: None,
                    tapped: false,
                    motor: if stopped {
                        Some(false)
                    } else {
                        None
                    },
                }
            },
        }
    }
}

} // verus!
