use gilrs_events::ev::{Axis, Button, Code, Event, EventType, GamepadId};
use gilrs_events::filter::FilterConfig;
use gilrs_events::hub::Gamepads;
use gilrs_events::identity::IdentityError;

fn config() -> FilterConfig {
    FilterConfig { button_deadzone: 50, axis_deadzone: 50, dpad_buttons: false }
}

#[test]
fn hub_connects_filters_and_reconnects() {
    let mut g = Gamepads::new(8, config(), 250);
    let a = g.connect(0x51, 10).unwrap();
    assert_eq!(a, Event::new_with_time(GamepadId(0), EventType::Connected, 10));
    let out = g
        .handle(GamepadId(0), &EventType::ButtonChanged(Button::South, 1000, Code::from_u32(3)), 11)
        .unwrap();
    assert_eq!(
        out,
        vec![
            Event::new_with_time(GamepadId(0), EventType::ButtonChanged(Button::South, 1000, Code::from_u32(3)), 11),
            Event::new_with_time(GamepadId(0), EventType::ButtonPressed(Button::South, Code::from_u32(3)), 11),
        ]
    );
    assert_eq!(g.state(GamepadId(0)).unwrap().button_value(Button::South), 1000);

    let d = g.disconnect(GamepadId(0), 12).unwrap();
    assert_eq!(d.event, EventType::Disconnected);
    assert_eq!(g.is_connected(GamepadId(0)), Ok(false));
    let stale = g
        .handle(GamepadId(0), &EventType::AxisChanged(Axis::LeftZ, 700, Code::from_u32(4)), 13)
        .unwrap();
    assert!(stale.is_empty());
    assert_eq!(g.stale_samples(), 1);

    let b = g.connect(0x99, 14).unwrap();
    assert_eq!(b.id, GamepadId(1));
    let again = g.connect(0x51, 15).unwrap();
    assert_eq!(again.id, GamepadId(0));
    assert_eq!(g.is_connected(GamepadId(0)), Ok(true));
    assert_eq!(g.state(GamepadId(0)).unwrap().button_value(Button::South), 0);
}

#[test]
fn hub_unknown_device() {
    let mut g = Gamepads::new(1, config(), 250);
    assert_eq!(
        g.handle(GamepadId(0), &EventType::Connected, 1),
        Err(IdentityError::UnknownDevice)
    );
    assert!(g.state(GamepadId(3)).is_err());
    assert_eq!(g.disconnect(GamepadId(0), 1), Err(IdentityError::UnknownDevice));
    assert!(g.connect(1, 2).is_ok());
    assert_eq!(g.connect(2, 3), Err(IdentityError::TooManyDevices));
    assert_eq!(g.config(), config());
}

#[test]
fn hub_ignores_connection_samples() {
    let mut g = Gamepads::new(2, config(), 250);
    g.connect(5, 0).unwrap();
    assert!(g.handle(GamepadId(0), &EventType::Disconnected, 1).unwrap().is_empty());
    assert_eq!(g.is_connected(GamepadId(0)), Ok(true));
    let ff = g.handle(GamepadId(0), &EventType::ForceFeedbackEffectCompleted, 2).unwrap();
    assert_eq!(ff, vec![Event::new_with_time(GamepadId(0), EventType::ForceFeedbackEffectCompleted, 2)]);
}

#[test]
fn hub_repeats_held_button_three_times() {
    let mut g = Gamepads::new(2, config(), 100);
    g.connect(1, 0).unwrap();
    let c = Code::from_u32(0x130);
    let out = g.handle(GamepadId(0), &EventType::ButtonChanged(Button::South, 1000, c), 0).unwrap();
    assert_eq!(out.len(), 2);
    assert_eq!(out[1].event, EventType::ButtonPressed(Button::South, c));
    let mut repeats = Vec::new();
    for now in [100u64, 200, 300] {
        repeats.extend(g.tick(now));
    }
    assert_eq!(
        repeats,
        vec![
            Event::new_with_time(GamepadId(0), EventType::ButtonRepeated(Button::South, c), 100),
            Event::new_with_time(GamepadId(0), EventType::ButtonRepeated(Button::South, c), 200),
            Event::new_with_time(GamepadId(0), EventType::ButtonRepeated(Button::South, c), 300),
        ]
    );
    assert!(g.tick(350).is_empty());
    g.handle(GamepadId(0), &EventType::ButtonChanged(Button::South, 0, c), 360).unwrap();
    assert!(g.tick(1000).is_empty());
}

#[test]
fn hub_disconnected_pad_does_not_repeat() {
    let mut g = Gamepads::new(2, config(), 100);
    g.connect(1, 0).unwrap();
    let c = Code::from_u32(0x131);
    g.handle(GamepadId(0), &EventType::ButtonChanged(Button::East, 1000, c), 0).unwrap();
    g.disconnect(GamepadId(0), 10).unwrap();
    assert!(g.tick(500).is_empty());
}
