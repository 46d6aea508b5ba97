//! The stable vocabulary: a fixed text symbol for every button, every axis
//! and every phase of an event.
//!
//! The symbols are what consumers see. They do not depend on the backend
//! that reported the element, and an element that the backend could not
//! identify has the symbol `unknown`.

use vstd::prelude::*;

verus! {

/// A button of a controller.
#[derive(Clone, Copy, Debug, PartialEq, Eq, Hash, Structural)]
pub enum Button {
    South,
    East,
    North,
    West,
    C,
    Z,
    LeftTrigger,
    LeftTrigger2,
    RightTrigger,
    RightTrigger2,
    Select,
    Start,
    Mode,
    LeftThumb,
    RightThumb,
    DPadUp,
    DPadDown,
    DPadLeft,
    DPadRight,
    /// A button that the backend could not identify.
    Unknown,
}

/// An analog axis of a controller.
#[derive(Clone, Copy, Debug, PartialEq, Eq, Hash, Structural)]
pub enum Axis {
    LeftStickX,
    LeftStickY,
    LeftZ,
    RightStickX,
    RightStickY,
    RightZ,
    DPadX,
    DPadY,
    /// An axis that the backend could not identify.
    Unknown,
}

/// The phase of an input event.
#[derive(Clone, Copy, Debug, PartialEq, Eq, Hash, Structural)]
pub enum InputPhase {
    Pressed,
    Repeated,
    Released,
    Changed,
}

/// The phase of a connection event.
#[derive(Clone, Copy, Debug, PartialEq, Eq, Hash, Structural)]
pub enum ChangePhase {
    Connected,
    Disconnected,
    Dropped,
}

/// The symbol of a button.
pub open spec fn button_symbol(btn: Button) -> Seq<char> {
    match btn {
        Button::South => "south"@,
        Button::East => "east"@,
        Button::North => "north"@,
        Button::West => "west"@,
        Button::C => "c"@,
        Button::Z => "z"@,
        Button::LeftTrigger => "left_trigger"@,
        Button::RightTrigger => "right_trigger"@,
        Button::LeftTrigger2 => "left_trigger2"@,
        Button::RightTrigger2 => "right_trigger2"@,
        Button::Select => "select"@,
        Button::Start => "start"@,
        Button::Mode => "mode"@,
        Button::LeftThumb => "left_thumb"@,
        Button::RightThumb => "right_thumb"@,
        Button::DPadUp => "dpad_up"@,
        Button::DPadDown => "dpad_down"@,
        Button::DPadLeft => "dpad_left"@,
        Button::DPadRight => "dpad_right"@,
        Button::Unknown => "unknown"@,
    }
}

/// The symbol of an axis.
pub open spec fn axis_symbol(axis: Axis) -> Seq<char> {
    match axis {
        Axis::LeftStickX => "left_stick_x"@,
        Axis::LeftStickY => "left_stick_y"@,
        Axis::RightStickX => "right_stick_x"@,
        Axis::RightStickY => "right_stick_y"@,
        Axis::DPadX => "dpad_x"@,
        Axis::DPadY => "dpad_y"@,
        Axis::LeftZ => "left_z"@,
        Axis::RightZ => "right_z"@,
        Axis::Unknown => "unknown"@,
    }
}

/// The symbol of an input phase.
pub open spec fn input_phase_symbol(phase: InputPhase) -> Seq<char> {
    match phase {
        InputPhase::Pressed => "pressed"@,
        InputPhase::Repeated => "repeated"@,
        InputPhase::Released => "released"@,
        InputPhase::Changed => "changed"@,
    }
}

/// The symbol of a connection phase.
pub open spec fn change_phase_symbol(phase: ChangePhase) -> Seq<char> {
    match phase {
        ChangePhase::Connected => "connected"@,
        ChangePhase::Disconnected => "disconnected"@,
        ChangePhase::Dropped => "dropped"@,
    }
}

/// Every button symbol there is.
pub open spec fn button_vocabulary() -> Set<Seq<char>> {
    set![
        "south"@,
        "east"@,
        "north"@,
        "west"@,
        "c"@,
        "z"@,
        "left_trigger"@,
        "right_trigger"@,
        "left_trigger2"@,
        "right_trigger2"@,
        "select"@,
        "start"@,
        "mode"@,
        "left_thumb"@,
        "right_thumb"@,
        "dpad_up"@,
        "dpad_down"@,
        "dpad_left"@,
        "dpad_right"@,
        "unknown"@,
    ]
}

/// Every axis symbol there is.
pub open spec fn axis_vocabulary() -> Set<Seq<char>> {
    set![
        "left_stick_x"@,
        "left_stick_y"@,
        "right_stick_x"@,
        "right_stick_y"@,
        "dpad_x"@,
        "dpad_y"@,
        "left_z"@,
        "right_z"@,
        "unknown"@,
    ]
}

/// Every input phase symbol there is.
pub open spec fn input_phase_vocabulary() -> Set<Seq<char>> {
    set!["pressed"@, "repeated"@, "released"@, "changed"@]
}

/// Every connection phase symbol there is.
pub open spec fn change_phase_vocabulary() -> Set<Seq<char>> {
    set!["connected"@, "disconnected"@, "dropped"@]
}

/// The symbol of a button, as text. Every button has one, and it is a word
/// of the button vocabulary.
pub fn btn_to_string(btn: Button) -> (s: String)
    ensures
        s@ == button_symbol(btn),
        button_vocabulary().contains(s@),
{
    match btn {
        Button::South => "south".to_string(),
        Button::East => "east".to_string(),
        Button::North => "north".to_string(),
        Button::West => "west".to_string(),
        Button::C => "c".to_string(),
        Button::Z => "z".to_string(),
        Button::LeftTrigger => "left_trigger".to_string(),
        Button::RightTrigger => "right_trigger".to_string(),
        Button::LeftTrigger2 => "left_trigger2".to_string(),
        Button::RightTrigger2 => "right_trigger2".to_string(),
        Button::Select => "select".to_string(),
        Button::Start => "start".to_string(),
        Button::Mode => "mode".to_string(),
        Button::LeftThumb => "left_thumb".to_string(),
        Button::RightThumb => "right_thumb".to_string(),
        Button::DPadUp => "dpad_up".to_string(),
        Button::DPadDown => "dpad_down".to_string(),
        Button::DPadLeft => "dpad_left".to_string(),
        Button::DPadRight => "dpad_right".to_string(),
        Button::Unknown => "unknown".to_string(),
    }
}

/// The symbol of an axis, as text. Every axis has one, and it is a word of
/// the axis vocabulary.
pub fn axis_to_string(axis: Axis) -> (s: String)
    ensures
        s@ == axis_symbol(axis),
        axis_vocabulary().contains(s@),
{
    match axis {
        Axis::LeftStickX => "left_stick_x".to_string(),
        Axis::LeftStickY => "left_stick_y".to_string(),
        Axis::RightStickX => "right_stick_x".to_string(),
        Axis::RightStickY => "right_stick_y".to_string(),
        Axis::DPadX => "dpad_x".to_string(),
        Axis::DPadY => "dpad_y".to_string(),
        Axis::LeftZ => "left_z".to_string(),
        Axis::RightZ => "right_z".to_string(),
        Axis::Unknown => "unknown".to_string(),
    }
}

/// The symbol of an input phase, as text.
pub fn input_phase_to_string(phase: InputPhase) -> (s: String)
    ensures
        s@ == input_phase_symbol(phase),
        input_phase_vocabulary().contains(s@),
{
    match phase {
        InputPhase::Pressed => "pressed".to_string(),
        InputPhase::Repeated => "repeated".to_string(),
        InputPhase::Released => "released".to_string(),
        InputPhase::Changed => "changed".to_string(),
    }
}

/// The symbol of a connection phase, as text.
pub fn change_phase_to_string(phase: ChangePhase) -> (s: String)
    ensures
        s@ == change_phase_symbol(phase),
        change_phase_vocabulary().contains(s@),
{
    match phase {
        ChangePhase::Connected => "connected".to_string(),
        ChangePhase::Disconnected => "disconnected".to_string(),
        ChangePhase::Dropped => "dropped".to_string(),
    }
}

/// Every button has a symbol in the button vocabulary.
pub proof fn lemma_button_symbol_in_vocabulary(btn: Button)
    ensures
        button_vocabulary().contains(button_symbol(btn)),
{
}

/// Every axis has a symbol in the axis vocabulary.
pub proof fn lemma_axis_symbol_in_vocabulary(axis: Axis)
    ensures
        axis_vocabulary().contains(axis_symbol(axis)),
{
}

/// A button symbol identifies its button: two buttons with one symbol are
/// one button.
pub proof fn lemma_button_symbol_identifies(a: Button, b: Button)
    requires
        button_symbol(a) == button_symbol(b),
    ensures
        a == b,
{
    reveal_strlit("south");
    reveal_strlit("east");
    reveal_strlit("north");
    reveal_strlit("west");
    reveal_strlit("c");
    reveal_strlit("z");
    reveal_strlit("left_trigger");
    reveal_strlit("right_trigger");
    reveal_strlit("left_trigger2");
    reveal_strlit("right_trigger2");
    reveal_strlit("select");
    reveal_strlit("start");
    reveal_strlit("mode");
    reveal_strlit("left_thumb");
    reveal_strlit("right_thumb");
    reveal_strlit("dpad_up");
    reveal_strlit("dpad_down");
    reveal_strlit("dpad_left");
    reveal_strlit("dpad_right");
    reveal_strlit("unknown");
    assert("south"@.len() == 5 && "south"@[0] == 's' && "south"@[1] == 'o');
    assert("east"@.len() == 4 && "east"@[0] == 'e' && "east"@[1] == 'a');
    assert("north"@.len() == 5 && "north"@[0] == 'n' && "north"@[1] == 'o');
    assert("west"@.len() == 4 && "west"@[0] == 'w' && "west"@[1] == 'e');
    assert("c"@.len() == 1 && "c"@[0] == 'c');
    assert("z"@.len() == 1 && "z"@[0] == 'z');
    assert("left_trigger"@.len() == 12
        && "left_trigger"@[0] == 'l'
        && "left_trigger"@[1] == 'e'
        && "left_trigger"@[5] == 't');
    assert("right_trigger"@.len() == 13
        && "right_trigger"@[0] == 'r'
        && "right_trigger"@[1] == 'i'
        && "right_trigger"@[5] == '_');
    assert("left_trigger2"@.len() == 13
        && "left_trigger2"@[0] == 'l'
        && "left_trigger2"@[1] == 'e'
        && "left_trigger2"@[5] == 't');
    assert("right_trigger2"@.len() == 14
        && "right_trigger2"@[0] == 'r'
        && "right_trigger2"@[1] == 'i'
        && "right_trigger2"@[5] == '_');
    assert("select"@.len() == 6
        && "select"@[0] == 's'
        && "select"@[1] == 'e'
        && "select"@[5] == 't');
    assert("start"@.len() == 5 && "start"@[0] == 's' && "start"@[1] == 't');
    assert("mode"@.len() == 4 && "mode"@[0] == 'm' && "mode"@[1] == 'o');
    assert("left_thumb"@.len() == 10
        && "left_thumb"@[0] == 'l'
        && "left_thumb"@[1] == 'e'
        && "left_thumb"@[5] == 't');
    assert("right_thumb"@.len() == 11
        && "right_thumb"@[0] == 'r'
        && "right_thumb"@[1] == 'i'
        && "right_thumb"@[5] == '_');
    assert("dpad_up"@.len() == 7
        && "dpad_up"@[0] == 'd'
        && "dpad_up"@[1] == 'p'
        && "dpad_up"@[5] == 'u');
    assert("dpad_down"@.len() == 9
        && "dpad_down"@[0] == 'd'
        && "dpad_down"@[1] == 'p'
        && "dpad_down"@[5] == 'd');
    assert("dpad_left"@.len() == 9
        && "dpad_left"@[0] == 'd'
        && "dpad_left"@[1] == 'p'
        && "dpad_left"@[5] == 'l');
    assert("dpad_right"@.len() == 10
        && "dpad_right"@[0] == 'd'
        && "dpad_right"@[1] == 'p'
        && "dpad_right"@[5] == 'r');
    assert("unknown"@.len() == 7
        && "unknown"@[0] == 'u'
        && "unknown"@[1] == 'n'
        && "unknown"@[5] == 'w');
}

/// An axis symbol identifies its axis.
pub proof fn lemma_axis_symbol_identifies(a: Axis, b: Axis)
    requires
        axis_symbol(a) == axis_symbol(b),
    ensures
        a == b,
{
    reveal_strlit("left_stick_x");
    reveal_strlit("left_stick_y");
    reveal_strlit("right_stick_x");
    reveal_strlit("right_stick_y");
    reveal_strlit("dpad_x");
    reveal_strlit("dpad_y");
    reveal_strlit("left_z");
    reveal_strlit("right_z");
    reveal_strlit("unknown");
    assert("left_stick_x"@.len() == 12 && "left_stick_x"@[5] == 's' && "left_stick_x"@[11] == 'x');
    assert("left_stick_y"@.len() == 12 && "left_stick_y"@[5] == 's' && "left_stick_y"@[11] == 'y');
    assert("right_stick_x"@.len() == 13
        && "right_stick_x"@[5] == '_'
        && "right_stick_x"@[11] == '_'
        && "right_stick_x"@[12] == 'x');
    assert("right_stick_y"@.len() == 13
        && "right_stick_y"@[5] == '_'
        && "right_stick_y"@[11] == '_'
        && "right_stick_y"@[12] == 'y');
    assert("dpad_x"@.len() == 6 && "dpad_x"@[5] == 'x');
    assert("dpad_y"@.len() == 6 && "dpad_y"@[5] == 'y');
    assert("left_z"@.len() == 6 && "left_z"@[5] == 'z');
    assert("right_z"@.len() == 7 && "right_z"@[5] == '_');
    assert("unknown"@.len() == 7 && "unknown"@[5] == 'w');
}

/// A phase symbol identifies its input phase.
pub proof fn lemma_input_phase_symbol_identifies(a: InputPhase, b: InputPhase)
    requires
        input_phase_symbol(a) == input_phase_symbol(b),
    ensures
        a == b,
{
    reveal_strlit("pressed");
    reveal_strlit("repeated");
    reveal_strlit("released");
    reveal_strlit("changed");
    assert("pressed"@.len() == 7 && "pressed"@[2] == 'e');
    assert("repeated"@.len() == 8 && "repeated"@[2] == 'p');
    assert("released"@.len() == 8 && "released"@[2] == 'l');
    assert("changed"@.len() == 7 && "changed"@[2] == 'a');
}

/// A phase symbol identifies its connection phase.
pub proof fn lemma_change_phase_symbol_identifies(a: ChangePhase, b: ChangePhase)
    requires
        change_phase_symbol(a) == change_phase_symbol(b),
    ensures
        a == b,
{
    reveal_strlit("connected");
    reveal_strlit("disconnected");
    reveal_strlit("dropped");
    assert("connected"@.len() == 9);
    assert("disconnected"@.len() == 12);
    assert("dropped"@.len() == 7);
}

} // verus!
