//! Last known value of every control of one gamepad.

use vstd::prelude::*;

use crate::ev::{axis_index, button_index, Axis, Button, EventType, AXIS_COUNT, BUTTON_COUNT};

verus! {

/// What a gamepad's state holds: one value per button, one per axis, and
/// whether the gamepad is connected.
pub struct PadModel {
    pub buttons: Seq<i32>,
    pub axes: Seq<i32>,
    pub connected: bool,
}

/// The state of a freshly connected gamepad: buttons released, axes at rest.
pub open spec fn neutral_model() -> PadModel {
    PadModel {
        buttons: Seq::new(BUTTON_COUNT as nat, |i: int| 0i32),
        axes: Seq::new(AXIS_COUNT as nat, |i: int| 0i32),
        connected: true,
    }
}

pub open spec fn model_wf(m: PadModel) -> bool {
    m.buttons.len() == BUTTON_COUNT && m.axes.len() == AXIS_COUNT
}

pub open spec fn model_button(m: PadModel, b: Button) -> i32 {
    m.buttons[button_index(b)]
}

pub open spec fn model_axis(m: PadModel, a: Axis) -> i32 {
    m.axes[axis_index(a)]
}

/// The state after an accepted event: a value change replaces that control's
/// value, a connection resets everything to neutral, a disconnection clears
/// the connected flag, and nothing else changes the state.
pub open spec fn apply_event(m: PadModel, e: EventType) -> PadModel {
    match e {
        EventType::ButtonChanged(b, v, _) => PadModel {
            buttons: m.buttons.update(button_index(b), v),
            ..m
        },
        EventType::AxisChanged(a, v, _) => PadModel { axes: m.axes.update(axis_index(a), v), ..m },
        EventType::Connected => neutral_model(),
        EventType::Disconnected => PadModel { connected: false, ..m },
        _ => m,
    }
}

/// Applies each event of `es` in turn.
pub open spec fn apply_events(m: PadModel, es: Seq<EventType>) -> PadModel
    decreases es.len(),
{
    if es.len() == 0 {
        m
    } else {
        apply_event(apply_events(m, es.drop_last()), es.last())
    }
}

/// Per-gamepad table of last known control values.
pub struct GamepadState {
    buttons: Vec<i32>,
    axes: Vec<i32>,
    connected: bool,
}

impl View for GamepadState {
    type V = PadModel;

    closed spec fn view(&self) -> PadModel {
        PadModel { buttons: self.buttons@, axes: self.axes@, connected: self.connected }
    }
}

impl GamepadState {
    pub open spec fn wf(&self) -> bool {
        model_wf(self@)
    }

    /// State of a gamepad that just connected: all buttons released, all axes at rest.
    pub fn new() -> (r: GamepadState)
        ensures
            r@ == neutral_model(),
            r.wf(),
    {
        let mut buttons: Vec<i32> = Vec::new();
        let mut i: usize = 0;
        while i < BUTTON_COUNT
            invariant
                i <= BUTTON_COUNT,
                buttons@ == Seq::new(i as nat, |j: int| 0i32),
            decreases BUTTON_COUNT - i,
        {
            buttons.push(0);
            i = i + 1;
            assert(buttons@ =~= Seq::new(i as nat, |j: int| 0i32));
        }
        let mut axes: Vec<i32> = Vec::new();
        let mut k: usize = 0;
        while k < AXIS_COUNT
            invariant
                k <= AXIS_COUNT,
                axes@ == Seq::new(k as nat, |j: int| 0i32),
            decreases AXIS_COUNT - k,
        {
            axes.push(0);
            k = k + 1;
            assert(axes@ =~= Seq::new(k as nat, |j: int| 0i32));
        }
        GamepadState { buttons, axes, connected: true }
    }

    pub fn button_value(&self, b: Button) -> (r: i32)
        requires
            self.wf(),
        ensures
            r == model_button(self@, b),
    {
        self.buttons[b.index()]
    }

    pub fn axis_value(&self, a: Axis) -> (r: i32)
        requires
            self.wf(),
        ensures
            r == model_axis(self@, a),
    {
        self.axes[a.index()]
    }

    pub fn is_connected(&self) -> (r: bool)
        ensures
            r == self@.connected,
    {
        self.connected
    }

    /// Records an accepted event. Returns whether the state changed; applying
    /// the same value twice changes it at most once.
    pub fn update(&mut self, e: &EventType) -> (changed: bool)
        requires
            old(self).wf(),
        ensures
            final(self).wf(),
            final(self)@ == apply_event(old(self)@, *e),
            changed == (final(self)@ != old(self)@),
    {
        match *e {
            EventType::ButtonChanged(b, v, _) => {
                let i = b.index();
                if self.buttons[i] == v {
                    assert(self.buttons@.update(i as int, v) =~= self.buttons@);
                    false
                } else {
                    self.buttons.set(i, v);
                    assert(self@.buttons[i as int] != old(self)@.buttons[i as int]);
                    true
                }
            },
            EventType::AxisChanged(a, v, _) => {
                let i = a.index();
                if self.axes[i] == v {
                    assert(self.axes@.update(i as int, v) =~= self.axes@);
                    false
                } else {
                    self.axes.set(i, v);
                    assert(self@.axes[i as int] != old(self)@.axes[i as int]);
                    true
                }
            },
            EventType::Connected => {
                let fresh = GamepadState::new();
                let same = self.connected && self.buttons_at_rest() && self.axes_at_rest();
                *self = fresh;
                same == false
            },
            EventType::Disconnected => {
                let was = self.connected;
                self.connected = false;
                was
            },
            _ => false,
        }
    }

    fn buttons_at_rest(&self) -> (r: bool)
        requires
            self.wf(),
        ensures
            r == (self.buttons@ == neutral_model().buttons),
    {
        let mut i: usize = 0;
        while i < BUTTON_COUNT
            invariant
                self.wf(),
                i <= BUTTON_COUNT,
                forall|j: int| 0 <= j < i ==> self.buttons@[j] == 0,
            decreases BUTTON_COUNT - i,
        {
            if self.buttons[i] != 0 {
                assert(self.buttons@[i as int] != neutral_model().buttons[i as int]);
                return false;
            }
            i = i + 1;
        }
        assert(self.buttons@ =~= neutral_model().buttons);
        true
    }

    fn axes_at_rest(&self) -> (r: bool)
        requires
            self.wf(),
        ensures
            r == (self.axes@ == neutral_model().axes),
    {
        let mut i: usize = 0;
        while i < AXIS_COUNT
            invariant
                self.wf(),
                i <= AXIS_COUNT,
                forall|j: int| 0 <= j < i ==> self.axes@[j] == 0,
            decreases AXIS_COUNT - i,
        {
            if self.axes[i] != 0 {
                assert(self.axes@[i as int] != neutral_model().axes[i as int]);
                return false;
            }
            i = i + 1;
        }
        assert(self.axes@ =~= neutral_model().axes);
        true
    }
}

} // verus!
