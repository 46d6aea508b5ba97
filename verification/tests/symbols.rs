use padbridge::symbol::{
    axis_to_string, btn_to_string, change_phase_to_string, input_phase_to_string, Axis, Button,
    ChangePhase, InputPhase,
};

const BUTTONS: [Button; 20] = [
    Button::South,
    Button::East,
    Button::North,
    Button::West,
    Button::C,
    Button::Z,
    Button::LeftTrigger,
    Button::RightTrigger,
    Button::LeftTrigger2,
    Button::RightTrigger2,
    Button::Select,
    Button::Start,
    Button::Mode,
    Button::LeftThumb,
    Button::RightThumb,
    Button::DPadUp,
    Button::DPadDown,
    Button::DPadLeft,
    Button::DPadRight,
    Button::Unknown,
];

const BUTTON_WORDS: [&str; 20] = [
    "south",
    "east",
    "north",
    "west",
    "c",
    "z",
    "left_trigger",
    "right_trigger",
    "left_trigger2",
    "right_trigger2",
    "select",
    "start",
    "mode",
    "left_thumb",
    "right_thumb",
    "dpad_up",
    "dpad_down",
    "dpad_left",
    "dpad_right",
    "unknown",
];

const AXES: [Axis; 9] = [
    Axis::LeftStickX,
    Axis::LeftStickY,
    Axis::RightStickX,
    Axis::RightStickY,
    Axis::DPadX,
    Axis::DPadY,
    Axis::LeftZ,
    Axis::RightZ,
    Axis::Unknown,
];

const AXIS_WORDS: [&str; 9] = [
    "left_stick_x",
    "left_stick_y",
    "right_stick_x",
    "right_stick_y",
    "dpad_x",
    "dpad_y",
    "left_z",
    "right_z",
    "unknown",
];

#[test]
fn every_button_has_its_symbol() {
    for (button, word) in BUTTONS.iter().zip(BUTTON_WORDS.iter()) {
        assert_eq!(btn_to_string(*button), *word);
    }
}

#[test]
fn every_axis_has_its_symbol() {
    for (axis, word) in AXES.iter().zip(AXIS_WORDS.iter()) {
        assert_eq!(axis_to_string(*axis), *word);
    }
}

#[test]
fn button_symbols_are_in_the_vocabulary_and_differ() {
    for (i, button) in BUTTONS.iter().enumerate() {
        let word = btn_to_string(*button);
        assert!(BUTTON_WORDS.contains(&word.as_str()));
        for other in BUTTONS.iter().skip(i + 1) {
            assert_ne!(word, btn_to_string(*other));
        }
    }
}

#[test]
fn axis_symbols_are_in_the_vocabulary_and_differ() {
    for (i, axis) in AXES.iter().enumerate() {
        let word = axis_to_string(*axis);
        assert!(AXIS_WORDS.contains(&word.as_str()));
        for other in AXES.iter().skip(i + 1) {
            assert_ne!(word, axis_to_string(*other));
        }
    }
}

#[test]
fn unidentified_elements_are_unknown() {
    assert_eq!(btn_to_string(Button::Unknown), "unknown");
    assert_eq!(axis_to_string(Axis::Unknown), "unknown");
}

#[test]
fn input_phases_have_their_symbols() {
    assert_eq!(input_phase_to_string(InputPhase::Pressed), "pressed");
    assert_eq!(input_phase_to_string(InputPhase::Repeated), "repeated");
    assert_eq!(input_phase_to_string(InputPhase::Released), "released");
    assert_eq!(input_phase_to_string(InputPhase::Changed), "changed");
}

#[test]
fn change_phases_have_their_symbols() {
    assert_eq!(change_phase_to_string(ChangePhase::Connected), "connected");
    assert_eq!(change_phase_to_string(ChangePhase::Disconnected), "disconnected");
    assert_eq!(change_phase_to_string(ChangePhase::Dropped), "dropped");
}
