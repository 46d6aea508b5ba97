//! The directional pad, read from two analog axes.
//!
//! Some controllers report their directional pad as two axes rather than
//! four buttons. Each reading of such an axis is turned into the two button
//! signals that a pad with buttons would have given: one for each direction
//! of the axis, the direction that is held first.
//!
//! A reading above one half holds the positive direction, one below minus
//! one half the negative direction, and anything between, the thresholds
//! included, holds neither.

use vstd::prelude::*;
use crate::reading::{Band, Reading, ONE_BITS, ZERO_BITS};
use crate::symbol::{Axis, Button, InputPhase};

verus! {

/// A button signal: the button, the phase it went through, and how far it
/// is pressed.
#[derive(Clone, Copy, Debug, PartialEq, Eq, Structural)]
pub struct Signal {
    pub button: Button,
    pub phase: InputPhase,
    pub value: Reading,
}

/// The axis is one of the two axes of the directional pad.
pub open spec fn is_dpad_axis(axis: Axis) -> bool {
    axis == Axis::DPadX || axis == Axis::DPadY
}

/// The button of the positive direction of a pad axis: right on the
/// horizontal axis, down on the vertical one.
pub open spec fn positive_button(axis: Axis) -> Button
    recommends
        is_dpad_axis(axis),
{
    if axis == Axis::DPadX {
        Button::DPadRight
    } else {
        Button::DPadDown
    }
}

/// The button of the negative direction of a pad axis: left on the
/// horizontal axis, up on the vertical one.
pub open spec fn negative_button(axis: Axis) -> Button
    recommends
        is_dpad_axis(axis),
{
    if axis == Axis::DPadX {
        Button::DPadLeft
    } else {
        Button::DPadUp
    }
}

/// The signal of a button that is held: pressed, at the value one.
pub open spec fn held(button: Button) -> Signal {
    Signal { button, phase: InputPhase::Pressed, value: Reading { bits: ONE_BITS } }
}

/// The signal of a button that is not held: released, at the value zero.
pub open spec fn let_go(button: Button) -> Signal {
    Signal { button, phase: InputPhase::Released, value: Reading { bits: ZERO_BITS } }
}

/// The two signals for a pad axis whose reading lies in `band`, in the
/// order in which they are given.
pub open spec fn pad_signals(axis: Axis, band: Band) -> (Signal, Signal)
    recommends
        is_dpad_axis(axis),
{
    match band {
        Band::Positive => (held(positive_button(axis)), let_go(negative_button(axis))),
        Band::Negative => (held(negative_button(axis)), let_go(positive_button(axis))),
        Band::Neutral => (let_go(positive_button(axis)), let_go(negative_button(axis))),
    }
}

/// What a reading of an axis gives: the two signals of a pad axis, and
/// nothing for any other axis.
pub open spec fn synthesized(axis: Axis, value: Reading) -> Option<(Signal, Signal)> {
    if is_dpad_axis(axis) {
        Some(pad_signals(axis, value.band()))
    } else {
        None
    }
}

/// Turns a reading of an axis into button signals. A pad axis gives two:
/// first the direction that the reading holds, as pressed, then the opposite
/// one, as released; a reading that holds neither gives both as released,
/// the positive direction first. Every reading gives its signals, whatever
/// was read before. Any other axis gives none.
pub fn synthesize(axis: Axis, value: Reading) -> (signals: Option<(Signal, Signal)>)
    ensures
        signals == synthesized(axis, value),
{
    let (positive, negative) = match axis {
        Axis::DPadX => (Button::DPadRight, Button::DPadLeft),
        Axis::DPadY => (Button::DPadDown, Button::DPadUp),
        _ => {
            return None;
        },
    };
    let one = Reading { bits: ONE_BITS };
    let zero = Reading { bits: ZERO_BITS };
    let pair = match value.classify() {
        Band::Positive => (
            Signal { button: positive, phase: InputPhase::Pressed, value: one },
            Signal { button: negative, phase: InputPhase::Released, value: zero },
        ),
        Band::Negative => (
            Signal { button: negative, phase: InputPhase::Pressed, value: one },
            Signal { button: positive, phase: InputPhase::Released, value: zero },
        ),
        Band::Neutral => (
            Signal { button: positive, phase: InputPhase::Released, value: zero },
            Signal { button: negative, phase: InputPhase::Released, value: zero },
        ),
    };
    Some(pair)
}

/// The button that takes the place of a horizontal pad button on the
/// vertical axis: down for right, up for left. Other buttons stay.
pub open spec fn turned(button: Button) -> Button {
    match button {
        Button::DPadRight => Button::DPadDown,
        Button::DPadLeft => Button::DPadUp,
        other => other,
    }
}

/// A signal with its button turned to the vertical axis.
pub open spec fn turned_signal(signal: Signal) -> Signal {
    Signal { button: turned(signal.button), phase: signal.phase, value: signal.value }
}

/// The vertical axis mirrors the horizontal one: a reading gives on the
/// vertical axis the signals that it gives on the horizontal one, with down
/// in place of right and up in place of left.
pub proof fn lemma_vertical_mirrors_horizontal(value: Reading)
    ensures
        synthesized(Axis::DPadY, value) matches Some(vertical) && synthesized(Axis::DPadX, value)
            matches Some(horizontal) && vertical.0 == turned_signal(horizontal.0) && vertical.1
            == turned_signal(horizontal.1),
{
}

/// A reading of exactly one half, or of exactly minus one half, holds
/// neither direction: the thresholds are strict.
pub proof fn lemma_thresholds_are_neutral(axis: Axis)
    requires
        is_dpad_axis(axis),
    ensures
        synthesized(axis, Reading { bits: crate::reading::HALF_BITS }) == Some(
            pad_signals(axis, Band::Neutral),
        ),
        synthesized(axis, Reading { bits: crate::reading::MINUS_HALF_BITS }) == Some(
            pad_signals(axis, Band::Neutral),
        ),
{
    crate::reading::lemma_thresholds(Reading { bits: crate::reading::HALF_BITS });
    crate::reading::lemma_thresholds(Reading { bits: crate::reading::MINUS_HALF_BITS });
}

/// The signals of a reading say how far each button is pressed in whole
/// numbers: a pressed button is at one, a released button at zero.
pub proof fn lemma_signal_values(axis: Axis, value: Reading)
    requires
        is_dpad_axis(axis),
    ensures
        synthesized(axis, value) matches Some(pair) && signal_is_digital(pair.0)
            && signal_is_digital(pair.1),
{
    crate::reading::lemma_named_patterns();
}

/// The signal is a press at the value one or a release at the value zero.
pub open spec fn signal_is_digital(signal: Signal) -> bool {
    ||| signal.phase == InputPhase::Pressed && signal.value.stands_for(1)
    ||| signal.phase == InputPhase::Released && signal.value.stands_for(0)
}

} // verus!
