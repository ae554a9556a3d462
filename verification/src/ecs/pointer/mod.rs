//! Pointer input: the plain values that Win32 mouse messages are normalised
//! into, and the per-tick buffers that collect them between two ECS ticks.

pub mod dispatch;
pub mod input;

pub use dispatch::{DispatchCursor, Phase, PhaseKind, VisitOutcome};
pub use input::{PointerInput, TickInput};

use std::collections::VecDeque;
use vstd::prelude::*;

verus! {

/// A point in physical (device) pixels.
#[derive(Debug, Clone, Copy, PartialEq, Eq, Structural)]
pub struct PhysicalPoint {
    pub x: i32,
    pub y: i32,
}

impl PhysicalPoint {
    /// Builds a point from its two coordinates.
    pub fn new(x: i32, y: i32) -> (p: Self)
        ensures
            p.x == x,
            p.y == y,
    {
        Self { x, y }
    }
}

impl Default for PhysicalPoint {
    fn default() -> (p: Self)
        ensures
            p.x == 0,
            p.y == 0,
    {
        Self { x: 0, y: 0 }
    }
}

/// Which button was double-clicked during the current frame, if any.
#[derive(Debug, Clone, Copy, PartialEq, Eq, Structural)]
pub enum DoubleClick {
    NoClick,
    Left,
    Right,
    Middle,
    XButton1,
    XButton2,
}

impl Default for DoubleClick {
    fn default() -> (d: Self)
        ensures
            d == DoubleClick::NoClick,
    {
        DoubleClick::NoClick
    }
}

/// Wheel rotation received during the current frame (in WHEEL_DELTA units).
#[derive(Debug, Clone, Copy, PartialEq, Eq, Structural)]
pub struct WheelDelta {
    /// Vertical rotation; positive is away from the user.
    pub vertical: i16,
    /// Horizontal rotation; positive is to the right.
    pub horizontal: i16,
}

impl Default for WheelDelta {
    fn default() -> (d: Self)
        ensures
            d.vertical == 0,
            d.horizontal == 0,
    {
        WheelDelta { vertical: 0, horizontal: 0 }
    }
}

/// A mouse button.
#[derive(Debug, Clone, Copy, PartialEq, Eq, Structural, Hash)]
pub enum PointerButton {
    Left,
    Right,
    Middle,
    XButton1,
    XButton2,
}

/// Former name of [`PointerButton`].
pub type MouseButton = PointerButton;

/// Marks, for one frame, an entity the pointer just left.
#[derive(Debug, Clone, Copy, PartialEq, Eq, Structural)]
pub struct PointerLeave;

/// Former name of [`PointerLeave`].
pub type MouseLeave = PointerLeave;

/// Whether leave tracking (`TrackMouseEvent` with `TME_LEAVE`) is active
/// for a window.
#[derive(Debug, Clone, Copy, PartialEq, Eq, Structural)]
pub struct WindowPointerTracking(pub bool);

impl Default for WindowPointerTracking {
    /// Tracking inactive.
    fn default() -> (t: Self)
        ensures
            !t.0,
    {
        WindowPointerTracking(false)
    }
}

/// Former name of [`WindowPointerTracking`].
pub type WindowMouseTracking = WindowPointerTracking;

// ---------------------------------------------------------------------------
// Button buffer
// ---------------------------------------------------------------------------

/// Records whether a button went down and/or up during one tick.
#[derive(Debug, Clone, Copy, PartialEq, Eq, Structural)]
pub struct ButtonBuffer {
    /// A button-down message arrived during the tick.
    pub down_received: bool,
    /// A button-up message arrived during the tick.
    pub up_received: bool,
}

impl Default for ButtonBuffer {
    fn default() -> (b: Self)
        ensures
            !b.down_received,
            !b.up_received,
    {
        ButtonBuffer { down_received: false, up_received: false }
    }
}

/// The pressed state a button has after a tick, from what the tick recorded
/// and the state it had before: a recorded press wins, then a recorded
/// release, and a tick without messages keeps the state.
pub open spec fn resolved_pressed(down_received: bool, up_received: bool, was_pressed: bool) -> bool {
    if down_received {
        true
    } else if up_received {
        false
    } else {
        was_pressed
    }
}

impl ButtonBuffer {
    /// Records a button press.
    pub fn record_down(&mut self)
        ensures
            final(self).down_received,
            final(self).up_received == old(self).up_received,
    {
        self.down_received = true;
    }

    /// Records a button release.
    pub fn record_up(&mut self)
        ensures
            final(self).up_received,
            final(self).down_received == old(self).down_received,
    {
        self.up_received = true;
    }

    /// Forgets what the tick recorded.
    pub fn reset(&mut self)
        ensures
            !final(self).down_received,
            !final(self).up_received,
    {
        self.down_received = false;
        self.up_received = false;
    }

    /// The pressed state of the button after this tick, given its state
    /// before the tick (a press in the tick takes priority over a release).
    pub fn resolve_pressed(&self, was_pressed: bool) -> (pressed: bool)
        ensures
            pressed == resolved_pressed(self.down_received, self.up_received, was_pressed),
    {
        if self.down_received {
            true
        } else if self.up_received {
            false
        } else {
            was_pressed
        }
    }
}

// ---------------------------------------------------------------------------
// Wheel buffer
// ---------------------------------------------------------------------------

/// `a + b`, clamped to the range of `i16`.
pub open spec fn saturating_add_i16(a: int, b: int) -> int {
    if a + b > i16::MAX {
        i16::MAX as int
    } else if a + b < i16::MIN {
        i16::MIN as int
    } else {
        a + b
    }
}

/// Wheel rotation adds up exactly as long as the sum fits in `i16`, and
/// stops at the bound it would cross otherwise; the result always fits.
pub proof fn lemma_wheel_sum_saturates(a: i16, b: i16)
    ensures
        i16::MIN <= saturating_add_i16(a as int, b as int) <= i16::MAX,
        i16::MIN <= a + b <= i16::MAX ==> saturating_add_i16(a as int, b as int) == a + b,
        a + b > i16::MAX ==> saturating_add_i16(a as int, b as int) == i16::MAX,
        a + b < i16::MIN ==> saturating_add_i16(a as int, b as int) == i16::MIN,
        saturating_add_i16(a as int, b as int) == saturating_add_i16(b as int, a as int),
{
}

/// Adds two `i16`, clamping at the bounds of the type.
fn add_saturating(a: i16, b: i16) -> (r: i16)
    ensures
        r == saturating_add_i16(a as int, b as int),
{
    let sum: i32 = a as i32 + b as i32;
    if sum > i16::MAX as i32 {
        i16::MAX
    } else if sum < i16::MIN as i32 {
        i16::MIN
    } else {
        sum as i16
    }
}

/// Accumulates the wheel rotation received during one tick.
#[derive(Debug, Clone, Copy, PartialEq, Eq, Structural)]
pub struct WheelBuffer {
    pub vertical: i16,
    pub horizontal: i16,
}

impl Default for WheelBuffer {
    fn default() -> (b: Self)
        ensures
            b.vertical == 0,
            b.horizontal == 0,
    {
        WheelBuffer { vertical: 0, horizontal: 0 }
    }
}

impl WheelBuffer {
    /// Adds a vertical rotation, saturating at the bounds of `i16`.
    pub fn add_vertical(&mut self, delta: i16)
        ensures
            final(self).vertical == saturating_add_i16(old(self).vertical as int, delta as int),
            final(self).horizontal == old(self).horizontal,
    {
        self.vertical = add_saturating(self.vertical, delta);
    }

    /// Adds a horizontal rotation, saturating at the bounds of `i16`.
    pub fn add_horizontal(&mut self, delta: i16)
        ensures
            final(self).horizontal == saturating_add_i16(old(self).horizontal as int, delta as int),
            final(self).vertical == old(self).vertical,
    {
        self.horizontal = add_saturating(self.horizontal, delta);
    }

    /// Clears both accumulators.
    pub fn reset(&mut self)
        ensures
            final(self).vertical == 0,
            final(self).horizontal == 0,
    {
        self.vertical = 0;
        self.horizontal = 0;
    }

    /// The accumulated rotation as the frame's wheel delta.
    pub fn to_delta(&self) -> (d: WheelDelta)
        ensures
            d.vertical == self.vertical,
            d.horizontal == self.horizontal,
    {
        WheelDelta { vertical: self.vertical, horizontal: self.horizontal }
    }
}

// ---------------------------------------------------------------------------
// Double-click buffer
// ---------------------------------------------------------------------------

/// The double click a tick reports: the first one detected in the tick.
pub fn first_double_click(recorded: Option<DoubleClick>, detected: DoubleClick) -> (d: DoubleClick)
    ensures
        d == (match recorded {
            Some(r) => r,
            None => detected,
        }),
{
    match recorded {
        Some(r) => r,
        None => detected,
    }
}

// ---------------------------------------------------------------------------
// Position sample buffer
// ---------------------------------------------------------------------------

/// How many position samples a [`PointerBuffer`] keeps.
pub const POINTER_BUFFER_MAX_SAMPLES: usize = 5;

/// The samples a buffer holds after `sample` is pushed onto `samples`: the
/// oldest one is dropped when the buffer is full.
pub open spec fn pushed_samples<S>(samples: Seq<S>, sample: S) -> Seq<S> {
    if samples.len() >= POINTER_BUFFER_MAX_SAMPLES {
        samples.drop_first().push(sample)
    } else {
        samples.push(sample)
    }
}

/// The samples held after pushing `new` (in order) onto `held`.
pub open spec fn pushed_all<S>(held: Seq<S>, new: Seq<S>) -> Seq<S>
    decreases new.len(),
{
    if new.len() == 0 {
        held
    } else {
        pushed_samples(pushed_all(held, new.drop_last()), new.last())
    }
}

/// The last `min(n, s.len())` elements of `s`.
pub open spec fn last_n<S>(s: Seq<S>, n: nat) -> Seq<S> {
    if s.len() <= n {
        s
    } else {
        s.subrange(s.len() - n, s.len() as int)
    }
}

/// Whatever is pushed, a buffer holds exactly the most recent samples, at
/// most [`POINTER_BUFFER_MAX_SAMPLES`] of them, oldest first.
pub proof fn lemma_buffer_keeps_latest<S>(held: Seq<S>, new: Seq<S>)
    requires
        held.len() <= POINTER_BUFFER_MAX_SAMPLES,
    ensures
        pushed_all(held, new) == last_n(held + new, POINTER_BUFFER_MAX_SAMPLES as nat),
    decreases new.len(),
{
    if new.len() > 0 {
        lemma_buffer_keeps_latest(held, new.drop_last());
        let prev = pushed_all(held, new.drop_last());
        let all = held + new;
        assert(held + new.drop_last() =~= all.drop_last());
        assert(last_n(all, 5) =~= pushed_samples(prev, new.last()));
    } else {
        assert(held + new =~= held);
    }
}

/// The most recent position samples of one pointer, oldest first, at most
/// [`POINTER_BUFFER_MAX_SAMPLES`] of them.
#[derive(Debug)]
pub struct PointerBuffer<S> {
    samples: VecDeque<S>,
}

impl<S> View for PointerBuffer<S> {
    type V = Seq<S>;

    closed spec fn view(&self) -> Seq<S> {
        self.samples@
    }
}

impl<S> PointerBuffer<S> {
    /// The buffer never holds more than the maximum number of samples.
    #[verifier::type_invariant]
    spec fn bounded(self) -> bool {
        self.samples@.len() <= POINTER_BUFFER_MAX_SAMPLES
    }

    /// The number of samples kept (same value as [`POINTER_BUFFER_MAX_SAMPLES`]).
    pub const MAX_SAMPLES: usize = 5;

    /// An empty buffer.
    pub fn new() -> (b: Self)
        ensures
            b@ == Seq::<S>::empty(),
    {
        PointerBuffer { samples: VecDeque::with_capacity(POINTER_BUFFER_MAX_SAMPLES) }
    }

    /// Appends a sample, dropping the oldest one when the buffer is full.
    pub fn push(&mut self, sample: S)
        ensures
            final(self)@ == pushed_samples(old(self)@, sample),
            final(self)@.len() <= POINTER_BUFFER_MAX_SAMPLES,
    {
        proof {
            use_type_invariant(&*self);
        }
        let mut samples = VecDeque::new();
        std::mem::swap(&mut samples, &mut self.samples);
        if samples.len() >= POINTER_BUFFER_MAX_SAMPLES {
            let _ = samples.pop_front();
        }
        samples.push_back(sample);
        self.samples = samples;
    }

    /// The most recent sample, if any.
    pub fn latest(&self) -> (s: Option<&S>)
        ensures
            self@.len() == 0 ==> s is None,
            self@.len() > 0 ==> s == Some(&self@.last()),
    {
        let n = self.samples.len();
        if n == 0 {
            None
        } else {
            Some(&self.samples[n - 1])
        }
    }

    /// The two most recent samples as `(previous, newest)`, when the buffer
    /// holds at least two; a velocity can only be computed from such a pair.
    pub fn latest_pair(&self) -> (p: Option<(&S, &S)>)
        ensures
            self@.len() < 2 ==> p is None,
            self@.len() >= 2 ==> p == Some((&self@[self@.len() - 2], &self@[self@.len() - 1])),
    {
        let n = self.samples.len();
        if n < 2 {
            None
        } else {
            Some((&self.samples[n - 2], &self.samples[n - 1]))
        }
    }

    /// The number of samples held.
    pub fn len(&self) -> (n: usize)
        ensures
            n == self@.len(),
            n <= POINTER_BUFFER_MAX_SAMPLES,
    {
        proof {
            use_type_invariant(self);
        }
        self.samples.len()
    }

    /// Whether no sample is held.
    pub fn is_empty(&self) -> (e: bool)
        ensures
            e == (self@.len() == 0),
    {
        self.samples.len() == 0
    }

    /// Drops every sample.
    pub fn clear(&mut self)
        ensures
            final(self)@ == Seq::<S>::empty(),
    {
        let mut samples = VecDeque::new();
        std::mem::swap(&mut samples, &mut self.samples);
        samples.clear();
        self.samples = samples;
    }
}

impl<S> Default for PointerBuffer<S> {
    fn default() -> (b: Self)
        ensures
            b@ == Seq::<S>::empty(),
    {
        Self::new()
    }
}

/// Former name of [`PointerBuffer`].
pub type MouseBuffer<S> = PointerBuffer<S>;

} // verus!
