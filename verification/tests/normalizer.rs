use padbridge::backend::{ControllerInfo, PowerInfo, RawEvent};
use padbridge::event::{ControllerState, Emission};
use padbridge::normalize::{AxisDirectionState, Config, Normalizer};
use padbridge::reading::{Band, Reading};
use padbridge::symbol::{Axis, Button};

fn analog(value: f32) -> Reading {
    Reading::from_bits(value.to_bits())
}

fn pad_snapshot() -> ControllerState {
    ControllerState::snapshot(Some(ControllerInfo {
        name: "Pad".to_string(),
        power_info: PowerInfo::Wired,
    }))
}

/// A record in words: the channel, the controller's name and power level,
/// the element, the phase, and the value of an input record.
fn told(emission: &Emission) -> (String, String, f32, String, String, Option<f32>) {
    match emission {
        Emission::Input(input) => (
            emission.channel(),
            input.state.name.clone(),
            f32::from_bits(input.state.power_level.bits),
            input.button.clone(),
            input.event.clone(),
            Some(f32::from_bits(input.value.bits)),
        ),
        Emission::Change(change) => (
            emission.channel(),
            change.state.name.clone(),
            f32::from_bits(change.state.power_level.bits),
            String::new(),
            change.event.clone(),
            None,
        ),
    }
}

fn input(button: &str, phase: &str, value: f32) -> (String, String, f32, String, String, Option<f32>) {
    (
        "controller-input".to_string(),
        "Pad".to_string(),
        100.0,
        button.to_string(),
        phase.to_string(),
        Some(value),
    )
}

fn change(phase: &str) -> (String, String, f32, String, String, Option<f32>) {
    (
        "controller-change".to_string(),
        "Pad".to_string(),
        100.0,
        String::new(),
        phase.to_string(),
        None,
    )
}

fn records_of(
    normalizer: &mut Normalizer,
    id: u64,
    event: RawEvent,
) -> Vec<(String, String, f32, String, String, Option<f32>)> {
    let mut outbox: Vec<Emission> = Vec::new();
    normalizer.process(id, pad_snapshot(), event, &mut outbox);
    outbox.iter().map(told).collect()
}

#[test]
fn button_events_give_one_record_each() {
    let mut normalizer = Normalizer::new(Config::default());
    assert_eq!(
        records_of(&mut normalizer, 1, RawEvent::ButtonPressed(Button::East)),
        vec![input("east", "pressed", 1.0)]
    );
    assert_eq!(
        records_of(&mut normalizer, 1, RawEvent::ButtonRepeated(Button::East)),
        vec![input("east", "repeated", 1.0)]
    );
    assert_eq!(
        records_of(&mut normalizer, 1, RawEvent::ButtonReleased(Button::East)),
        vec![input("east", "released", 0.0)]
    );
    assert_eq!(
        records_of(&mut normalizer, 1, RawEvent::ButtonChanged(Button::LeftTrigger2, analog(0.37))),
        vec![input("left_trigger2", "changed", 0.37)]
    );
}

#[test]
fn unidentified_button_is_reported_as_unknown() {
    let mut normalizer = Normalizer::new(Config::default());
    assert_eq!(
        records_of(&mut normalizer, 1, RawEvent::ButtonPressed(Button::Unknown)),
        vec![input("unknown", "pressed", 1.0)]
    );
}

#[test]
fn connection_events_give_one_record_each() {
    let mut normalizer = Normalizer::new(Config::default());
    assert_eq!(records_of(&mut normalizer, 1, RawEvent::Connected), vec![change("connected")]);
    assert_eq!(
        records_of(&mut normalizer, 1, RawEvent::Disconnected),
        vec![change("disconnected")]
    );
    assert_eq!(records_of(&mut normalizer, 1, RawEvent::Dropped), vec![change("dropped")]);
}

#[test]
fn connection_record_of_a_controller_that_is_gone() {
    let mut normalizer = Normalizer::new(Config::default());
    let mut outbox: Vec<Emission> = Vec::new();
    normalizer.process(3, ControllerState::snapshot(None), RawEvent::Disconnected, &mut outbox);
    assert_eq!(outbox.len(), 1);
    assert_eq!(
        told(&outbox[0]),
        (
            "controller-change".to_string(),
            String::new(),
            -1.0,
            String::new(),
            "disconnected".to_string(),
            None
        )
    );
}

#[test]
fn pad_axis_gives_two_records_in_order() {
    let mut normalizer = Normalizer::new(Config::default());
    assert_eq!(
        records_of(&mut normalizer, 1, RawEvent::AxisChanged(Axis::DPadX, analog(0.8))),
        vec![input("dpad_right", "pressed", 1.0), input("dpad_left", "released", 0.0)]
    );
    assert_eq!(
        records_of(&mut normalizer, 1, RawEvent::AxisChanged(Axis::DPadX, analog(-0.8))),
        vec![input("dpad_left", "pressed", 1.0), input("dpad_right", "released", 0.0)]
    );
    assert_eq!(
        records_of(&mut normalizer, 1, RawEvent::AxisChanged(Axis::DPadY, analog(0.8))),
        vec![input("dpad_down", "pressed", 1.0), input("dpad_up", "released", 0.0)]
    );
    assert_eq!(
        records_of(&mut normalizer, 1, RawEvent::AxisChanged(Axis::DPadY, analog(-0.8))),
        vec![input("dpad_up", "pressed", 1.0), input("dpad_down", "released", 0.0)]
    );
    assert_eq!(
        records_of(&mut normalizer, 1, RawEvent::AxisChanged(Axis::DPadY, analog(0.5))),
        vec![input("dpad_down", "released", 0.0), input("dpad_up", "released", 0.0)]
    );
}

#[test]
fn repeated_readings_are_reported_every_time() {
    let mut normalizer = Normalizer::new(Config::default());
    for value in [0.8f32, 0.0, -0.8] {
        let event = RawEvent::AxisChanged(Axis::DPadX, analog(value));
        let first = records_of(&mut normalizer, 1, event);
        let second = records_of(&mut normalizer, 1, event);
        let third = records_of(&mut normalizer, 1, event);
        assert_eq!(first.len(), 2);
        assert_eq!(second, first);
        assert_eq!(third, first);
    }
}

#[test]
fn other_axes_are_not_reported_unless_asked_for() {
    let mut normalizer = Normalizer::new(Config::default());
    assert_eq!(
        records_of(&mut normalizer, 1, RawEvent::AxisChanged(Axis::LeftStickX, analog(0.9))),
        vec![]
    );
    assert_eq!(
        records_of(&mut normalizer, 1, RawEvent::AxisChanged(Axis::Unknown, analog(-0.9))),
        vec![]
    );
}

#[test]
fn other_axes_are_reported_as_changed_when_asked_for() {
    let mut normalizer =
        Normalizer::new(Config { forward_axes: true, suppress_repeats: false });
    assert_eq!(
        records_of(&mut normalizer, 1, RawEvent::AxisChanged(Axis::LeftStickX, analog(0.9))),
        vec![input("left_stick_x", "changed", 0.9)]
    );
    assert_eq!(
        records_of(&mut normalizer, 1, RawEvent::AxisChanged(Axis::RightZ, analog(-0.25))),
        vec![input("right_z", "changed", -0.25)]
    );
    assert_eq!(
        records_of(&mut normalizer, 1, RawEvent::AxisChanged(Axis::Unknown, analog(0.1))),
        vec![input("unknown", "changed", 0.1)]
    );
    // A pad axis still gives its two button records.
    assert_eq!(
        records_of(&mut normalizer, 1, RawEvent::AxisChanged(Axis::DPadX, analog(0.8))),
        vec![input("dpad_right", "pressed", 1.0), input("dpad_left", "released", 0.0)]
    );
}

#[test]
fn repeats_are_passed_over_when_asked_for() {
    let mut normalizer =
        Normalizer::new(Config { forward_axes: false, suppress_repeats: true });
    // A controller starts neutral, so a neutral reading is a repeat.
    assert_eq!(
        records_of(&mut normalizer, 1, RawEvent::AxisChanged(Axis::DPadX, analog(0.1))),
        vec![]
    );
    assert_eq!(
        records_of(&mut normalizer, 1, RawEvent::AxisChanged(Axis::DPadX, analog(0.8))),
        vec![input("dpad_right", "pressed", 1.0), input("dpad_left", "released", 0.0)]
    );
    assert_eq!(
        records_of(&mut normalizer, 1, RawEvent::AxisChanged(Axis::DPadX, analog(0.9))),
        vec![]
    );
    // The other axis and the other controller have states of their own.
    assert_eq!(
        records_of(&mut normalizer, 1, RawEvent::AxisChanged(Axis::DPadY, analog(0.9))),
        vec![input("dpad_down", "pressed", 1.0), input("dpad_up", "released", 0.0)]
    );
    assert_eq!(
        records_of(&mut normalizer, 2, RawEvent::AxisChanged(Axis::DPadX, analog(0.9))),
        vec![input("dpad_right", "pressed", 1.0), input("dpad_left", "released", 0.0)]
    );
    assert_eq!(
        records_of(&mut normalizer, 1, RawEvent::AxisChanged(Axis::DPadX, analog(0.0))),
        vec![input("dpad_right", "released", 0.0), input("dpad_left", "released", 0.0)]
    );
}

#[test]
fn pad_state_follows_the_readings() {
    let mut normalizer = Normalizer::new(Config::default());
    assert_eq!(normalizer.directions(1), AxisDirectionState::neutral());
    assert_eq!(normalizer.kept_count(), 0);
    records_of(&mut normalizer, 1, RawEvent::AxisChanged(Axis::DPadX, analog(0.8)));
    assert_eq!(
        normalizer.directions(1),
        AxisDirectionState { x: Band::Positive, y: Band::Neutral }
    );
    records_of(&mut normalizer, 1, RawEvent::AxisChanged(Axis::DPadY, analog(-0.8)));
    assert_eq!(
        normalizer.directions(1),
        AxisDirectionState { x: Band::Positive, y: Band::Negative }
    );
    records_of(&mut normalizer, 1, RawEvent::AxisChanged(Axis::LeftStickX, analog(-0.8)));
    records_of(&mut normalizer, 1, RawEvent::ButtonPressed(Button::South));
    records_of(&mut normalizer, 1, RawEvent::Dropped);
    assert_eq!(
        normalizer.directions(1),
        AxisDirectionState { x: Band::Positive, y: Band::Negative }
    );
    assert_eq!(normalizer.directions(2), AxisDirectionState::neutral());
    assert_eq!(normalizer.kept_count(), 1);
}

#[test]
fn pad_state_is_dropped_on_disconnect_and_fresh_on_connect() {
    let mut normalizer = Normalizer::new(Config::default());
    records_of(&mut normalizer, 1, RawEvent::AxisChanged(Axis::DPadX, analog(0.8)));
    records_of(&mut normalizer, 2, RawEvent::AxisChanged(Axis::DPadY, analog(0.8)));
    assert_eq!(normalizer.kept_count(), 2);
    records_of(&mut normalizer, 1, RawEvent::Disconnected);
    assert_eq!(normalizer.kept_count(), 1);
    assert_eq!(normalizer.directions(1), AxisDirectionState::neutral());
    assert_eq!(
        normalizer.directions(2),
        AxisDirectionState { x: Band::Neutral, y: Band::Positive }
    );
    records_of(&mut normalizer, 2, RawEvent::Connected);
    assert_eq!(normalizer.kept_count(), 0);
    assert_eq!(normalizer.directions(2), AxisDirectionState::neutral());
}

#[test]
fn direction_state_by_axis() {
    let state = AxisDirectionState::neutral();
    assert_eq!(state, AxisDirectionState { x: Band::Neutral, y: Band::Neutral });
    let state = state.with_band(Axis::DPadX, Band::Negative);
    let state = state.with_band(Axis::DPadY, Band::Positive);
    assert_eq!(state.band_on(Axis::DPadX), Band::Negative);
    assert_eq!(state.band_on(Axis::DPadY), Band::Positive);
    assert_eq!(state.band_on(Axis::LeftStickX), Band::Neutral);
    assert_eq!(state.with_band(Axis::LeftStickX, Band::Positive), state);
}

#[test]
fn default_choices_are_off() {
    assert_eq!(Config::default(), Config { forward_axes: false, suppress_repeats: false });
}

#[test]
fn records_are_queued_behind_what_is_pending() {
    let mut normalizer = Normalizer::new(Config::default());
    let mut outbox: Vec<Emission> = Vec::new();
    normalizer.process(1, pad_snapshot(), RawEvent::Connected, &mut outbox);
    normalizer.process(1, pad_snapshot(), RawEvent::ButtonPressed(Button::South), &mut outbox);
    let told_all: Vec<_> = outbox.iter().map(told).collect();
    assert_eq!(told_all, vec![change("connected"), input("south", "pressed", 1.0)]);
}

#[test]
fn end_to_end_scenario() {
    let mut normalizer = Normalizer::new(Config::default());
    let mut outbox: Vec<Emission> = Vec::new();
    let events = [
        RawEvent::Connected,
        RawEvent::ButtonPressed(Button::South),
        RawEvent::AxisChanged(Axis::DPadX, analog(0.9)),
        RawEvent::ButtonReleased(Button::South),
        RawEvent::Disconnected,
    ];
    for event in events {
        normalizer.process(1, pad_snapshot(), event, &mut outbox);
    }
    let told_all: Vec<_> = outbox.iter().map(told).collect();
    assert_eq!(
        told_all,
        vec![
            change("connected"),
            input("south", "pressed", 1.0),
            input("dpad_right", "pressed", 1.0),
            input("dpad_left", "released", 0.0),
            input("south", "released", 0.0),
            change("disconnected"),
        ]
    );
    assert_eq!(normalizer.kept_count(), 0);
}
