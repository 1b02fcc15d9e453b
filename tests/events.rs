use gilrs_events::ev::{
    Axis, AxisOrBtn, Button, Code, Event, EventType, GamepadId, NecTable, AXIS_COUNT, FULL,
};
use gilrs_events::filter::{filter_event, process, FilterConfig};
use gilrs_events::identity::{DeviceManager, IdentityError};
use gilrs_events::repeat::Repeater;
use gilrs_events::state::GamepadState;

const ALL_BUTTONS: [Button; 20] = [
    Button::South,
    Button::East,
    Button::North,
    Button::West,
    Button::C,
    Button::Z,
    Button::LeftTrigger,
    Button::LeftTrigger2,
    Button::RightTrigger,
    Button::RightTrigger2,
    Button::Select,
    Button::Start,
    Button::Mode,
    Button::LeftThumb,
    Button::RightThumb,
    Button::DPadUp,
    Button::DPadDown,
    Button::DPadLeft,
    Button::DPadRight,
    Button::Unknown,
];

const ALL_AXES: [Axis; 9] = [
    Axis::LeftStickX,
    Axis::LeftStickY,
    Axis::LeftZ,
    Axis::RightStickX,
    Axis::RightStickY,
    Axis::RightZ,
    Axis::DPadX,
    Axis::DPadY,
    Axis::Unknown,
];

fn table() -> NecTable {
    let mut buttons = [0u32; 19];
    for (i, b) in buttons.iter_mut().enumerate() {
        *b = 0x0001_0130 + i as u32;
    }
    NecTable { buttons }
}

fn cfg(dz: u16) -> FilterConfig {
    FilterConfig { button_deadzone: dz, axis_deadzone: dz, dpad_buttons: false }
}

fn code(n: u32) -> Code {
    Code::from_u32(n)
}

#[test]
fn to_nec_is_some_except_unknown() {
    let t = table();
    for b in ALL_BUTTONS {
        assert_eq!(b.to_nec(&t).is_some(), b != Button::Unknown);
    }
    assert_eq!(Button::South.to_nec(&t), Some(code(0x0001_0130)));
    assert_eq!(Button::DPadRight.to_nec(&t), Some(code(0x0001_0130 + 18)));
    assert_eq!(Button::Unknown.to_nec(&t), None);
}

#[test]
fn second_axis_is_an_involution() {
    for a in ALL_AXES {
        match a.second_axis() {
            Some(o) => {
                assert_ne!(o, a);
                assert_eq!(o.second_axis(), Some(a));
            }
            None => assert!(matches!(a, Axis::LeftZ | Axis::RightZ | Axis::Unknown)),
        }
    }
    assert_eq!(Axis::LeftStickX.second_axis(), Some(Axis::LeftStickY));
    assert_eq!(Axis::DPadY.second_axis(), Some(Axis::DPadX));
}

#[test]
fn button_groups_partition() {
    for b in ALL_BUTTONS {
        let n = [b.is_action(), b.is_trigger(), b.is_menu(), b.is_stick(), b.is_dpad()]
            .iter()
            .filter(|x| **x)
            .count();
        assert_eq!(n, if b == Button::Unknown { 0 } else { 1 });
    }
    assert!(Button::Z.is_action());
    assert!(Button::RightTrigger2.is_trigger());
    assert!(Button::Mode.is_menu());
    assert!(Button::LeftThumb.is_stick());
    assert!(Button::DPadDown.is_dpad());
    assert_eq!(Button::default(), Button::Unknown);
}

#[test]
fn axis_is_stick() {
    let sticks: Vec<Axis> = ALL_AXES.iter().copied().filter(|a| a.is_stick()).collect();
    assert_eq!(
        sticks,
        vec![Axis::LeftStickX, Axis::LeftStickY, Axis::RightStickX, Axis::RightStickY]
    );
}

#[test]
fn axis_or_button() {
    assert!(AxisOrBtn::Btn(Button::South).is_button());
    assert!(!AxisOrBtn::Axis(Axis::LeftZ).is_button());
}

#[test]
fn code_round_trip() {
    assert_eq!(code(0x0003_0010).into_u32(), 0x0003_0010);
}

#[test]
fn event_drop_and_time() {
    let e = Event::new_with_time(GamepadId(2), EventType::Connected, 1234);
    assert_eq!(e.time, 1234);
    assert!(!e.is_dropped());
    let d = e.drop();
    assert!(d.is_dropped());
    assert_eq!(d.id, GamepadId(2));
    assert_eq!(d.time, 1234);
    let n = Event::new(GamepadId(1), EventType::Disconnected);
    assert_eq!(n.event, EventType::Disconnected);
    assert!(n.time > 1_600_000_000_000);
}

#[test]
fn small_stick_motion_stays_in_deadzone() {
    let c = cfg(50);
    let mut st = GamepadState::new();
    let out = process(&c, &mut st, &vec![EventType::AxisChanged(Axis::LeftStickX, 20, code(1))]);
    assert!(out.is_empty());
    assert_eq!(st.axis_value(Axis::LeftStickX), 0);
    let out = process(&c, &mut st, &vec![EventType::AxisChanged(Axis::LeftStickX, 200, code(1))]);
    assert_eq!(out, vec![EventType::AxisChanged(Axis::LeftStickX, 200, code(1))]);
    assert_eq!(st.axis_value(Axis::LeftStickX), 200);
}

#[test]
fn deadzone_is_radial() {
    let c = cfg(50);
    let mut st = GamepadState::new();
    process(&c, &mut st, &vec![EventType::AxisChanged(Axis::LeftStickY, 40, code(2))]);
    assert_eq!(st.axis_value(Axis::LeftStickY), 0);
    // 40 alone is inside, but 40 on both axes lies outside a radius of 50.
    let mut st2 = GamepadState::new();
    st2.update(&EventType::AxisChanged(Axis::LeftStickY, 40, code(2)));
    let out = filter_event(&c, &st2, &EventType::AxisChanged(Axis::LeftStickX, 40, code(1)));
    assert_eq!(out, vec![EventType::AxisChanged(Axis::LeftStickX, 40, code(1))]);
}

#[test]
fn same_value_twice_changes_once() {
    let c = cfg(50);
    let mut st = GamepadState::new();
    let e = EventType::AxisChanged(Axis::RightZ, 300, code(5));
    let out = process(&c, &mut st, &vec![e, e]);
    assert_eq!(out, vec![e]);
    assert!(!st.update(&e));
    let b = EventType::ButtonChanged(Button::East, 800, code(6));
    let out = process(&c, &mut st, &vec![b, b]);
    assert_eq!(
        out,
        vec![b, EventType::ButtonPressed(Button::East, code(6))]
    );
}

#[test]
fn values_are_clamped() {
    let c = cfg(0);
    let mut st = GamepadState::new();
    let out = process(
        &c,
        &mut st,
        &vec![
            EventType::ButtonChanged(Button::LeftTrigger2, 5000, code(7)),
            EventType::AxisChanged(Axis::RightStickY, -7000, code(8)),
        ],
    );
    assert_eq!(
        out,
        vec![
            EventType::ButtonChanged(Button::LeftTrigger2, FULL, code(7)),
            EventType::ButtonPressed(Button::LeftTrigger2, code(7)),
            EventType::AxisChanged(Axis::RightStickY, -FULL, code(8)),
        ]
    );
}

#[test]
fn button_deadzone_press_and_release() {
    let c = cfg(100);
    let mut st = GamepadState::new();
    let out = process(
        &c,
        &mut st,
        &vec![
            EventType::ButtonChanged(Button::South, 50, code(1)),
            EventType::ButtonChanged(Button::South, 600, code(1)),
            EventType::ButtonChanged(Button::South, 90, code(1)),
        ],
    );
    assert_eq!(
        out,
        vec![
            EventType::ButtonChanged(Button::South, 600, code(1)),
            EventType::ButtonPressed(Button::South, code(1)),
            EventType::ButtonChanged(Button::South, 0, code(1)),
            EventType::ButtonReleased(Button::South, code(1)),
        ]
    );
    assert_eq!(st.button_value(Button::South), 0);
}

#[test]
fn events_keep_their_order() {
    let c = cfg(50);
    let mut st = GamepadState::new();
    let raw = vec![
        EventType::AxisChanged(Axis::LeftZ, 500, code(3)),
        EventType::Dropped,
        EventType::ButtonChanged(Button::North, 1000, code(4)),
        EventType::ForceFeedbackEffectCompleted,
        EventType::AxisChanged(Axis::LeftZ, 10, code(3)),
    ];
    let out = process(&c, &mut st, &raw);
    assert_eq!(
        out,
        vec![
            EventType::AxisChanged(Axis::LeftZ, 500, code(3)),
            EventType::ButtonChanged(Button::North, 1000, code(4)),
            EventType::ButtonPressed(Button::North, code(4)),
            EventType::ForceFeedbackEffectCompleted,
            EventType::AxisChanged(Axis::LeftZ, 0, code(3)),
        ]
    );
}

#[test]
fn dpad_axes_make_buttons() {
    let c = FilterConfig { button_deadzone: 0, axis_deadzone: 0, dpad_buttons: true };
    let mut st = GamepadState::new();
    let out = process(
        &c,
        &mut st,
        &vec![
            EventType::AxisChanged(Axis::DPadX, -FULL, code(9)),
            EventType::AxisChanged(Axis::DPadX, FULL, code(9)),
            EventType::AxisChanged(Axis::DPadY, FULL, code(10)),
            EventType::AxisChanged(Axis::DPadY, 0, code(10)),
        ],
    );
    assert_eq!(
        out,
        vec![
            EventType::AxisChanged(Axis::DPadX, -FULL, code(9)),
            EventType::ButtonPressed(Button::DPadLeft, code(9)),
            EventType::AxisChanged(Axis::DPadX, FULL, code(9)),
            EventType::ButtonReleased(Button::DPadLeft, code(9)),
            EventType::ButtonPressed(Button::DPadRight, code(9)),
            EventType::AxisChanged(Axis::DPadY, FULL, code(10)),
            EventType::ButtonPressed(Button::DPadUp, code(10)),
            EventType::AxisChanged(Axis::DPadY, 0, code(10)),
            EventType::ButtonReleased(Button::DPadUp, code(10)),
        ]
    );
}

#[test]
fn disconnected_gamepad_drops_input() {
    let c = cfg(0);
    let mut st = GamepadState::new();
    let out = process(
        &c,
        &mut st,
        &vec![
            EventType::ButtonChanged(Button::West, 700, code(1)),
            EventType::Disconnected,
            EventType::ButtonChanged(Button::West, 0, code(1)),
            EventType::AxisChanged(Axis::LeftZ, 300, code(2)),
        ],
    );
    assert_eq!(
        out,
        vec![
            EventType::ButtonChanged(Button::West, 700, code(1)),
            EventType::ButtonPressed(Button::West, code(1)),
            EventType::Disconnected,
        ]
    );
    assert!(!st.is_connected());
    let out = process(&c, &mut st, &vec![EventType::Connected]);
    assert_eq!(out, vec![EventType::Connected]);
    assert!(st.is_connected());
    assert_eq!(st.button_value(Button::West), 0);
}

#[test]
fn held_button_repeats_at_cadence() {
    let c = cfg(50);
    let mut st = GamepadState::new();
    let mut rep = Repeater::new(100);
    let out = process(&c, &mut st, &vec![EventType::ButtonChanged(Button::South, FULL, code(1))]);
    for e in &out {
        rep.observe(e, 0);
    }
    assert!(rep.is_held(Button::South));
    let mut repeats = Vec::new();
    for now in [50u64, 100, 150, 200, 250, 300] {
        repeats.extend(rep.tick(now));
    }
    assert_eq!(
        repeats,
        vec![EventType::ButtonRepeated(Button::South, code(1)); 3]
    );
    assert_eq!(rep.interval(), 100);
}

#[test]
fn released_button_does_not_repeat() {
    let mut rep = Repeater::new(10);
    rep.observe(&EventType::ButtonPressed(Button::Start, code(3)), 0);
    rep.observe(&EventType::ButtonChanged(Button::Start, 0, code(3)), 5);
    assert!(!rep.is_held(Button::Start));
    assert!(rep.tick(100).is_empty());
    rep.observe(&EventType::ButtonPressed(Button::Start, code(3)), 100);
    rep.observe(&EventType::ButtonReleased(Button::Start, code(3)), 105);
    assert!(rep.tick(200).is_empty());
}

#[test]
fn reconnection_keeps_identity() {
    let mut m = DeviceManager::new(4);
    let a = m.connect(0xAAAA).unwrap();
    assert_eq!(a, GamepadId(0));
    assert_eq!(m.disconnect(a), Ok(()));
    assert_eq!(m.is_connected(a), Ok(false));
    let b = m.connect(0xBBBB).unwrap();
    assert_ne!(b, a);
    assert_eq!(b, GamepadId(1));
    assert_eq!(m.connect(0xAAAA), Ok(a));
    assert_eq!(m.is_connected(a), Ok(true));
    assert_eq!(m.len(), 2);
}

#[test]
fn same_signature_twice_gets_two_ids() {
    let mut m = DeviceManager::new(4);
    let a = m.connect(7).unwrap();
    let b = m.connect(7).unwrap();
    assert_ne!(a, b);
}

#[test]
fn identity_errors() {
    let mut m = DeviceManager::new(1);
    assert_eq!(m.connect(1), Ok(GamepadId(0)));
    assert_eq!(m.connect(2), Err(IdentityError::TooManyDevices));
    assert_eq!(m.disconnect(GamepadId(5)), Err(IdentityError::UnknownDevice));
    assert_eq!(m.is_connected(GamepadId(1)), Err(IdentityError::UnknownDevice));
    assert_eq!(m.disconnect(GamepadId(0)), Ok(()));
    assert_eq!(m.connect(1), Ok(GamepadId(0)));
}

#[test]
fn new_state_is_neutral() {
    let st = GamepadState::new();
    for a in ALL_AXES {
        assert_eq!(st.axis_value(a), 0);
    }
    assert_eq!(ALL_AXES.len(), AXIS_COUNT);
    for b in ALL_BUTTONS {
        assert_eq!(st.button_value(b), 0);
        assert_eq!(Button::from_index(b.index()), b);
    }
    assert!(st.is_connected());
}
