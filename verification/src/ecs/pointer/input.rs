//! The pointer state an entity sees, apart from its floating-point velocity,
//! and how one tick of buffered window messages changes it.

use crate::ecs::pointer::{ButtonBuffer, DoubleClick, PhysicalPoint, WheelDelta, resolved_pressed};
use vstd::prelude::*;

verus! {

/// Position, buttons, modifier keys, double click and wheel of the pointer
/// over an entity.
#[derive(Debug, Clone, Copy, PartialEq, Eq, Structural)]
pub struct PointerInput {
    /// Screen position (physical pixels).
    pub screen_point: PhysicalPoint,
    /// Position relative to the entity (physical pixels).
    pub local_point: PhysicalPoint,
    pub left_down: bool,
    pub right_down: bool,
    pub middle_down: bool,
    pub xbutton1_down: bool,
    pub xbutton2_down: bool,
    pub shift_down: bool,
    pub ctrl_down: bool,
    /// Double click of the current frame.
    pub double_click: DoubleClick,
    /// Wheel rotation of the current frame.
    pub wheel: WheelDelta,
}

impl Default for PointerInput {
    /// At the origin, nothing pressed, no double click, no wheel rotation.
    fn default() -> (p: Self)
        ensures
            p.screen_point == (PhysicalPoint { x: 0, y: 0 }),
            p.local_point == (PhysicalPoint { x: 0, y: 0 }),
            !p.left_down && !p.right_down && !p.middle_down && !p.xbutton1_down && !p.xbutton2_down,
            !p.shift_down && !p.ctrl_down,
            p.double_click == DoubleClick::NoClick,
            p.wheel == (WheelDelta { vertical: 0, horizontal: 0 }),
    {
        PointerInput {
            screen_point: PhysicalPoint { x: 0, y: 0 },
            local_point: PhysicalPoint { x: 0, y: 0 },
            left_down: false,
            right_down: false,
            middle_down: false,
            xbutton1_down: false,
            xbutton2_down: false,
            shift_down: false,
            ctrl_down: false,
            double_click: DoubleClick::NoClick,
            wheel: WheelDelta { vertical: 0, horizontal: 0 },
        }
    }
}

/// What the window procedure buffered for one entity during a tick; `None`
/// where nothing was buffered.
#[derive(Debug, Clone, Copy)]
pub struct TickInput {
    pub left: Option<ButtonBuffer>,
    pub right: Option<ButtonBuffer>,
    pub middle: Option<ButtonBuffer>,
    pub xbutton1: Option<ButtonBuffer>,
    pub xbutton2: Option<ButtonBuffer>,
    /// The latest position sample.
    pub position: Option<PhysicalPoint>,
    /// The accumulated wheel rotation.
    pub wheel: Option<WheelDelta>,
    /// The double click detected.
    pub double_click: Option<DoubleClick>,
    /// The last `(shift, ctrl)` state seen.
    pub modifiers: Option<(bool, bool)>,
}

/// A button's state after a tick: resolved from its buffer (a press wins),
/// kept when nothing was buffered.
pub open spec fn button_after(buffer: Option<ButtonBuffer>, was: bool) -> bool {
    match buffer {
        Some(b) => resolved_pressed(b.down_received, b.up_received, was),
        None => was,
    }
}

/// The pointer state after a tick's buffers are taken in: each buffered
/// button is resolved, the latest sample becomes both positions, and the
/// wheel, double click and modifiers take what was buffered; everything
/// without a buffer is kept.
pub open spec fn after_tick(s: PointerInput, t: TickInput) -> PointerInput {
    PointerInput {
        screen_point: match t.position {
            Some(p) => p,
            None => s.screen_point,
        },
        local_point: match t.position {
            Some(p) => p,
            None => s.local_point,
        },
        left_down: button_after(t.left, s.left_down),
        right_down: button_after(t.right, s.right_down),
        middle_down: button_after(t.middle, s.middle_down),
        xbutton1_down: button_after(t.xbutton1, s.xbutton1_down),
        xbutton2_down: button_after(t.xbutton2, s.xbutton2_down),
        shift_down: match t.modifiers {
            Some((shift, _)) => shift,
            None => s.shift_down,
        },
        ctrl_down: match t.modifiers {
            Some((_, ctrl)) => ctrl,
            None => s.ctrl_down,
        },
        double_click: match t.double_click {
            Some(d) => d,
            None => s.double_click,
        },
        wheel: match t.wheel {
            Some(w) => w,
            None => s.wheel,
        },
    }
}

/// A button's state after a tick; see [`button_after`].
fn resolve_button(buffer: Option<ButtonBuffer>, was: bool) -> (b: bool)
    ensures
        b == button_after(buffer, was),
{
    match buffer {
        Some(b) => b.resolve_pressed(was),
        None => was,
    }
}

impl PointerInput {
    /// Takes in what the window procedure buffered during a tick.
    pub fn apply_tick(&mut self, tick: &TickInput)
        ensures
            *final(self) == after_tick(*old(self), *tick),
    {
        let (screen_point, local_point) = match tick.position {
            Some(p) => (p, p),
            None => (self.screen_point, self.local_point),
        };
        let (shift_down, ctrl_down) = match tick.modifiers {
            Some(m) => m,
            None => (self.shift_down, self.ctrl_down),
        };
        let double_click = match tick.double_click {
            Some(d) => d,
            None => self.double_click,
        };
        let wheel = match tick.wheel {
            Some(w) => w,
            None => self.wheel,
        };
        let next = PointerInput {
            screen_point,
            local_point,
            left_down: resolve_button(tick.left, self.left_down),
            right_down: resolve_button(tick.right, self.right_down),
            middle_down: resolve_button(tick.middle, self.middle_down),
            xbutton1_down: resolve_button(tick.xbutton1, self.xbutton1_down),
            xbutton2_down: resolve_button(tick.xbutton2, self.xbutton2_down),
            shift_down,
            ctrl_down,
            double_click,
            wheel,
        };
        *self = next;
    }

    /// Whether press handlers fire this frame: the left, right or middle
    /// button is down (the extra buttons do not count).
    pub fn fires_pressed(&self) -> (b: bool)
        ensures
            b == (self.left_down || self.right_down || self.middle_down),
    {
        self.left_down || self.right_down || self.middle_down
    }

    /// After dispatch: every button is released and the double click is
    /// consumed, so that neither fires again next frame; the rest is kept.
    pub fn clear_after_dispatch(&mut self)
        ensures
            *final(self) == (PointerInput {
                left_down: false,
                right_down: false,
                middle_down: false,
                xbutton1_down: false,
                xbutton2_down: false,
                double_click: DoubleClick::NoClick,
                ..*old(self)
            }),
    {
        self.left_down = false;
        self.right_down = false;
        self.middle_down = false;
        self.xbutton1_down = false;
        self.xbutton2_down = false;
        self.double_click = DoubleClick::NoClick;
    }

    /// At the end of a frame: the double click and the wheel rotation, which
    /// last one frame, are cleared; the rest is kept.
    pub fn clear_transient(&mut self)
        ensures
            *final(self) == (PointerInput {
                double_click: DoubleClick::NoClick,
                wheel: WheelDelta { vertical: 0, horizontal: 0 },
                ..*old(self)
            }),
    {
        self.double_click = DoubleClick::NoClick;
        self.wheel = WheelDelta { vertical: 0, horizontal: 0 };
    }
}

/// Taking in a tick puts every buffered value into the state unchanged and
/// keeps what was not buffered: the wheel delta in both its components, the
/// latest sample as screen and local position, the double click and the
/// modifier keys. A button is down afterwards exactly when a press was
/// buffered, or when it was down before and no release was buffered. Since
/// buffers are taken as values, not added, taking the same tick in twice is
/// taking it in once.
pub proof fn lemma_tick_takes_buffers_as_they_are(s: PointerInput, t: TickInput)
    ensures
        ({
            let a = after_tick(s, t);
            &&& (match t.wheel {
                Some(w) => a.wheel.vertical == w.vertical && a.wheel.horizontal == w.horizontal,
                None => a.wheel == s.wheel,
            })
            &&& (match t.position {
                Some(p) => a.screen_point == p && a.local_point == p,
                None => a.screen_point == s.screen_point && a.local_point == s.local_point,
            })
            &&& (match t.double_click {
                Some(d) => a.double_click == d,
                None => a.double_click == s.double_click,
            })
            &&& (match t.modifiers {
                Some((shift, ctrl)) => a.shift_down == shift && a.ctrl_down == ctrl,
                None => a.shift_down == s.shift_down && a.ctrl_down == s.ctrl_down,
            })
            &&& (match t.left {
                Some(b) => a.left_down == (b.down_received || (!b.up_received && s.left_down)),
                None => a.left_down == s.left_down,
            })
            &&& (match t.right {
                Some(b) => a.right_down == (b.down_received || (!b.up_received && s.right_down)),
                None => a.right_down == s.right_down,
            })
            &&& (match t.middle {
                Some(b) => a.middle_down == (b.down_received || (!b.up_received && s.middle_down)),
                None => a.middle_down == s.middle_down,
            })
            &&& (match t.xbutton1 {
                Some(b) => a.xbutton1_down == (b.down_received || (!b.up_received && s.xbutton1_down)),
                None => a.xbutton1_down == s.xbutton1_down,
            })
            &&& (match t.xbutton2 {
                Some(b) => a.xbutton2_down == (b.down_received || (!b.up_received && s.xbutton2_down)),
                None => a.xbutton2_down == s.xbutton2_down,
            })
            &&& after_tick(a, t) == a
        }),
{
}

/// A press fires exactly once: after a tick that buffered a left, right or
/// middle press, press handlers fire, and after the dispatch clears the
/// buttons they do not fire again unless a new press is buffered.
pub proof fn lemma_press_fires_once(s: PointerInput, t: TickInput, next: TickInput)
    requires
        t.left matches Some(b) && b.down_received,
        next.left is None && next.right is None && next.middle is None,
    ensures
        ({
            let after = after_tick(s, t);
            let cleared = PointerInput {
                left_down: false,
                right_down: false,
                middle_down: false,
                xbutton1_down: false,
                xbutton2_down: false,
                double_click: DoubleClick::NoClick,
                ..after
            };
            let again = after_tick(cleared, next);
            &&& after.left_down || after.right_down || after.middle_down
            &&& !(again.left_down || again.right_down || again.middle_down)
        }),
{
}

} // verus!
