//! The event and control vocabulary shared by every backend.

use vstd::prelude::*;

verus! {

/// Platform specific event code of a single button or axis, packed into a `u32`
/// the way gilrs_core's `EvCode::into_u32` packs it. Codes are comparable
/// within one backend only.
#[derive(Clone, Copy, Debug, PartialEq, Eq, Structural, Hash)]
pub struct Code {
    pub raw: u32,
}

impl Code {
    /// Wraps a packed native code, as a backend hands it over.
    pub fn from_u32(raw: u32) -> (r: Code)
        ensures
            r.raw == raw,
    {
        Code { raw }
    }

    pub fn into_u32(&self) -> (r: u32)
        ensures
            r == self.raw,
    {
        self.raw
    }
}

/// Buttons, whose value lies between 0 and full scale.
#[derive(Clone, Copy, Debug, Default, PartialEq, Eq, Structural, Hash)]
pub enum Button {
    South,
    East,
    North,
    West,
    C,
    Z,
    LeftTrigger,
    LeftTrigger2,
    RightTrigger,
    RightTrigger2,
    Select,
    Start,
    Mode,
    LeftThumb,
    RightThumb,
    DPadUp,
    DPadDown,
    DPadLeft,
    DPadRight,
    #[default]
    Unknown,
}

pub open spec fn spec_is_action(b: Button) -> bool {
    b == Button::South || b == Button::East || b == Button::North || b == Button::West
        || b == Button::C || b == Button::Z
}

pub open spec fn spec_is_trigger(b: Button) -> bool {
    b == Button::LeftTrigger || b == Button::LeftTrigger2 || b == Button::RightTrigger
        || b == Button::RightTrigger2
}

pub open spec fn spec_is_menu(b: Button) -> bool {
    b == Button::Select || b == Button::Start || b == Button::Mode
}

pub open spec fn spec_is_stick_button(b: Button) -> bool {
    b == Button::LeftThumb || b == Button::RightThumb
}

pub open spec fn spec_is_dpad(b: Button) -> bool {
    b == Button::DPadUp || b == Button::DPadDown || b == Button::DPadLeft || b == Button::DPadRight
}

impl Button {
    pub fn is_action(self) -> (r: bool)
        ensures
            r == spec_is_action(self),
    {
        matches!(self, Button::South | Button::East | Button::North | Button::West | Button::C | Button::Z)
    }

    pub fn is_trigger(self) -> (r: bool)
        ensures
            r == spec_is_trigger(self),
    {
        matches!(
            self,
            Button::LeftTrigger | Button::LeftTrigger2 | Button::RightTrigger | Button::RightTrigger2
        )
    }

    pub fn is_menu(self) -> (r: bool)
        ensures
            r == spec_is_menu(self),
    {
        matches!(self, Button::Select | Button::Start | Button::Mode)
    }

    pub fn is_stick(self) -> (r: bool)
        ensures
            r == spec_is_stick_button(self),
    {
        matches!(self, Button::LeftThumb | Button::RightThumb)
    }

    pub fn is_dpad(self) -> (r: bool)
        ensures
            r == spec_is_dpad(self),
    {
        matches!(self, Button::DPadUp | Button::DPadDown | Button::DPadLeft | Button::DPadRight)
    }

    /// Position of this button in per-button tables.
    pub fn index(self) -> (r: usize)
        ensures
            r == button_index(self),
    {
        match self {
            Button::South => 0,
            Button::East => 1,
            Button::North => 2,
            Button::West => 3,
            Button::C => 4,
            Button::Z => 5,
            Button::LeftTrigger => 6,
            Button::LeftTrigger2 => 7,
            Button::RightTrigger => 8,
            Button::RightTrigger2 => 9,
            Button::Select => 10,
            Button::Start => 11,
            Button::Mode => 12,
            Button::LeftThumb => 13,
            Button::RightThumb => 14,
            Button::DPadUp => 15,
            Button::DPadDown => 16,
            Button::DPadLeft => 17,
            Button::DPadRight => 18,
            Button::Unknown => 19,
        }
    }

    /// The button at position `i` of per-button tables.
    pub fn from_index(i: usize) -> (r: Button)
        requires
            i < BUTTON_COUNT,
        ensures
            button_index(r) == i,
            r == button_at(i as int),
    {
        match i {
            0 => Button::South,
            1 => Button::East,
            2 => Button::North,
            3 => Button::West,
            4 => Button::C,
            5 => Button::Z,
            6 => Button::LeftTrigger,
            7 => Button::LeftTrigger2,
            8 => Button::RightTrigger,
            9 => Button::RightTrigger2,
            10 => Button::Select,
            11 => Button::Start,
            12 => Button::Mode,
            13 => Button::LeftThumb,
            14 => Button::RightThumb,
            15 => Button::DPadUp,
            16 => Button::DPadDown,
            17 => Button::DPadLeft,
            18 => Button::DPadRight,
            _ => Button::Unknown,
        }
    }

    /// The backend's canonical native code for this button, looked up in the
    /// backend's table; `Unknown` has none.
    pub fn to_nec(self, table: &NecTable) -> (r: Option<Code>)
        ensures
            self == Button::Unknown ==> r.is_none(),
            self != Button::Unknown ==> r == Some(Code { raw: table.buttons[button_index(self)] }),
    {
        let i = self.index();
        if i < NAMED_BUTTONS {
            Some(Code { raw: table.buttons[i] })
        } else {
            None
        }
    }
}

/// Number of entries in per-button tables, `Unknown` included.
pub const BUTTON_COUNT: usize = 20;

/// Number of buttons that have a native code, that is all but `Unknown`.
pub const NAMED_BUTTONS: usize = 19;

pub open spec fn button_index(b: Button) -> int {
    match b {
        Button::South => 0,
        Button::East => 1,
        Button::North => 2,
        Button::West => 3,
        Button::C => 4,
        Button::Z => 5,
        Button::LeftTrigger => 6,
        Button::LeftTrigger2 => 7,
        Button::RightTrigger => 8,
        Button::RightTrigger2 => 9,
        Button::Select => 10,
        Button::Start => 11,
        Button::Mode => 12,
        Button::LeftThumb => 13,
        Button::RightThumb => 14,
        Button::DPadUp => 15,
        Button::DPadDown => 16,
        Button::DPadLeft => 17,
        Button::DPadRight => 18,
        Button::Unknown => 19,
    }
}

/// The button at position `i` of per-button tables.
pub open spec fn button_at(i: int) -> Button {
    if i == 0 { Button::South }
    else if i == 1 { Button::East }
    else if i == 2 { Button::North }
    else if i == 3 { Button::West }
    else if i == 4 { Button::C }
    else if i == 5 { Button::Z }
    else if i == 6 { Button::LeftTrigger }
    else if i == 7 { Button::LeftTrigger2 }
    else if i == 8 { Button::RightTrigger }
    else if i == 9 { Button::RightTrigger2 }
    else if i == 10 { Button::Select }
    else if i == 11 { Button::Start }
    else if i == 12 { Button::Mode }
    else if i == 13 { Button::LeftThumb }
    else if i == 14 { Button::RightThumb }
    else if i == 15 { Button::DPadUp }
    else if i == 16 { Button::DPadDown }
    else if i == 17 { Button::DPadLeft }
    else if i == 18 { Button::DPadRight }
    else { Button::Unknown }
}

/// A backend's canonical native codes, one per named button, in the order of
/// `Button::index`.
#[derive(Clone, Copy, Debug, PartialEq, Eq)]
pub struct NecTable {
    pub buttons: [u32; 19],
}

/// The five button groups cover every named button, and no button lies in two.
pub proof fn lemma_button_groups_partition(b: Button)
    ensures
        b != Button::Unknown ==> (spec_is_action(b) || spec_is_trigger(b) || spec_is_menu(b)
            || spec_is_stick_button(b) || spec_is_dpad(b)),
        b == Button::Unknown ==> !(spec_is_action(b) || spec_is_trigger(b) || spec_is_menu(b)
            || spec_is_stick_button(b) || spec_is_dpad(b)),
        spec_is_action(b) ==> !spec_is_trigger(b) && !spec_is_menu(b) && !spec_is_stick_button(b)
            && !spec_is_dpad(b),
        spec_is_trigger(b) ==> !spec_is_menu(b) && !spec_is_stick_button(b) && !spec_is_dpad(b),
        spec_is_menu(b) ==> !spec_is_stick_button(b) && !spec_is_dpad(b),
        spec_is_stick_button(b) ==> !spec_is_dpad(b),
{
}

/// Axes, whose value lies between minus and plus full scale.
#[derive(Clone, Copy, Debug, PartialEq, Eq, Structural, Hash)]
pub enum Axis {
    LeftStickX,
    LeftStickY,
    LeftZ,
    RightStickX,
    RightStickY,
    RightZ,
    DPadX,
    DPadY,
    Unknown,
}

/// Number of entries in per-axis tables, `Unknown` included.
pub const AXIS_COUNT: usize = 9;

pub open spec fn axis_index(a: Axis) -> int {
    match a {
        Axis::LeftStickX => 0,
        Axis::LeftStickY => 1,
        Axis::LeftZ => 2,
        Axis::RightStickX => 3,
        Axis::RightStickY => 4,
        Axis::RightZ => 5,
        Axis::DPadX => 6,
        Axis::DPadY => 7,
        Axis::Unknown => 8,
    }
}

pub open spec fn spec_is_stick_axis(a: Axis) -> bool {
    a == Axis::LeftStickX || a == Axis::LeftStickY || a == Axis::RightStickX || a == Axis::RightStickY
}

/// The other axis of the same stick or d-pad.
pub open spec fn spec_second_axis(a: Axis) -> Option<Axis> {
    match a {
        Axis::LeftStickX => Some(Axis::LeftStickY),
        Axis::LeftStickY => Some(Axis::LeftStickX),
        Axis::RightStickX => Some(Axis::RightStickY),
        Axis::RightStickY => Some(Axis::RightStickX),
        Axis::DPadX => Some(Axis::DPadY),
        Axis::DPadY => Some(Axis::DPadX),
        _ => None,
    }
}

impl Axis {
    /// True for the four axes of the two sticks.
    pub fn is_stick(self) -> (r: bool)
        ensures
            r == spec_is_stick_axis(self),
    {
        matches!(self, Axis::LeftStickX | Axis::LeftStickY | Axis::RightStickX | Axis::RightStickY)
    }

    /// The other axis from the same element of the gamepad, if any.
    pub fn second_axis(self) -> (r: Option<Axis>)
        ensures
            r == spec_second_axis(self),
    {
        match self {
            Axis::LeftStickX => Some(Axis::LeftStickY),
            Axis::LeftStickY => Some(Axis::LeftStickX),
            Axis::RightStickX => Some(Axis::RightStickY),
            Axis::RightStickY => Some(Axis::RightStickX),
            Axis::DPadX => Some(Axis::DPadY),
            Axis::DPadY => Some(Axis::DPadX),
            _ => None,
        }
    }

    /// Position of this axis in per-axis tables.
    pub fn index(self) -> (r: usize)
        ensures
            r == axis_index(self),
    {
        match self {
            Axis::LeftStickX => 0,
            Axis::LeftStickY => 1,
            Axis::LeftZ => 2,
            Axis::RightStickX => 3,
            Axis::RightStickY => 4,
            Axis::RightZ => 5,
            Axis::DPadX => 6,
            Axis::DPadY => 7,
            Axis::Unknown => 8,
        }
    }
}

/// Pairing axes is an involution on the stick and d-pad axes, and pairs nothing else.
pub proof fn lemma_second_axis_involution(a: Axis)
    ensures
        (spec_is_stick_axis(a) || a == Axis::DPadX || a == Axis::DPadY) ==> (
            spec_second_axis(a) is Some
            && spec_second_axis(a)->Some_0 != a
            && spec_second_axis(spec_second_axis(a)->Some_0) == Some(a)),
        !(spec_is_stick_axis(a) || a == Axis::DPadX || a == Axis::DPadY) ==> spec_second_axis(a)
            is None,
{
}

/// Either an axis or a button.
#[derive(Clone, Copy, Debug, PartialEq, Eq, Structural, Hash)]
pub enum AxisOrBtn {
    Axis(Axis),
    Btn(Button),
}

impl AxisOrBtn {
    pub fn is_button(&self) -> (r: bool)
        ensures
            r == (*self is Btn),
    {
        matches!(self, AxisOrBtn::Btn(_))
    }
}

/// Stable identifier of a gamepad for the whole run of the process.
#[derive(Clone, Copy, Debug, PartialEq, Eq, Structural, Hash)]
pub struct GamepadId(pub usize);

/// Full scale of a control value: a button reads from 0 to `FULL`, an axis
/// from `-FULL` to `FULL`.
pub const FULL: i32 = 1000;

/// What happened on a gamepad. Values are in thousandths of full scale.
#[derive(Clone, Copy, Debug, PartialEq, Eq, Structural)]
pub enum EventType {
    ButtonPressed(Button, Code),
    ButtonRepeated(Button, Code),
    ButtonReleased(Button, Code),
    ButtonChanged(Button, i32, Code),
    AxisChanged(Axis, i32, Code),
    Connected,
    Disconnected,
    Dropped,
    ForceFeedbackEffectCompleted,
}

/// A gamepad event: the gamepad, what happened, and when (milliseconds since the epoch).
#[derive(Clone, Copy, Debug, PartialEq, Eq, Structural)]
pub struct Event {
    pub id: GamepadId,
    pub event: EventType,
    pub time: u64,
}

/// Relies on `std::time::SystemTime::elapsed` on `UNIX_EPOCH`: the current
/// time in milliseconds since the epoch, 0 if the clock reads earlier.
#[verifier::external_body]
fn clock_millis() -> (r: u64) {
    std::time::UNIX_EPOCH.elapsed().map_or(0, |d| d.as_millis() as u64)
}

impl Event {
    /// A new event stamped with the current time.
    pub fn new(id: GamepadId, event: EventType) -> (r: Event)
        ensures
            r.id == id,
            r.event == event,
    {
        Event { id, event, time: clock_millis() }
    }

    pub fn new_with_time(id: GamepadId, event: EventType, time: u64) -> (r: Event)
        ensures
            r == (Event { id, event, time }),
    {
        Event { id, event, time }
    }

    /// The same event with its payload replaced by `Dropped`.
    pub fn drop(self) -> (r: Event)
        ensures
            r == (Event { event: EventType::Dropped, ..self }),
    {
        Event { id: self.id, event: EventType::Dropped, time: self.time }
    }

    /// True if the event was dropped by a filter and should be ignored.
    pub fn is_dropped(&self) -> (r: bool)
        ensures
            r == (self.event is Dropped),
    {
        matches!(self.event, EventType::Dropped)
    }
}

} // verus!
