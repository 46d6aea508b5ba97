//! What the library takes from a controller backend, in the library's own
//! terms: the raw events, what a lookup of a controller returns, and the
//! settings that the backend is to be opened with.

use vstd::prelude::*;
use vstd::arithmetic::power2::{lemma2_to64, lemma_pow2_adds, lemma_pow2_pos, pow2};
use crate::reading::{one_in_units, Reading};
use crate::symbol::{Axis, Button};

verus! {

/// An event as the hardware backend reports it.
#[derive(Clone, Copy, Debug, PartialEq, Eq, Structural)]
pub enum RawEvent {
    ButtonPressed(Button),
    ButtonRepeated(Button),
    ButtonReleased(Button),
    /// The button is now pressed this far.
    ButtonChanged(Button, Reading),
    /// The axis is now at this position.
    AxisChanged(Axis, Reading),
    Connected,
    Disconnected,
    /// An event that a filter of the backend took out.
    Dropped,
}

/// How a controller is powered, as its backend reports it.
#[derive(Clone, Copy, Debug, PartialEq, Eq, Structural)]
pub enum PowerInfo {
    /// The backend could not tell.
    Unknown,
    /// The controller has no battery.
    Wired,
    /// The controller runs on its battery, at this percentage.
    Discharging(u8),
    /// The battery is charging, at this percentage.
    Charging(u8),
    /// The battery is full.
    Charged,
}

/// What a backend knows of a controller when asked for it.
#[derive(Debug)]
pub struct ControllerInfo {
    pub name: String,
    pub power_info: PowerInfo,
}

/// Bit pattern of three quarters, the position from which the backend takes
/// an axis for a pressed button.
pub const PRESS_THRESHOLD_BITS: u32 = 0x3F40_0000;

/// Bit pattern of the binary32 number nearest to thirteen twentieths, the
/// position down to which the backend takes an axis for a released button.
pub const RELEASE_THRESHOLD_BITS: u32 = 0x3F26_6666;

/// The settings that a backend is opened with.
#[derive(Clone, Copy, Debug, PartialEq, Eq, Structural)]
pub struct AdapterSettings {
    /// Whether the backend applies its own default filters to the events.
    pub default_filters: bool,
    /// The position from which an axis that stands for a button counts as
    /// pressed.
    pub press_threshold: Reading,
    /// The position down to which such an axis counts as released.
    pub release_threshold: Reading,
}

/// A pair of thresholds that a backend accepts: both are numbers from zero
/// to one, and the axis is pressed strictly above where it is released.
pub open spec fn thresholds_admissible(press: Reading, release: Reading) -> bool {
    &&& press.is_finite()
    &&& release.is_finite()
    &&& 0 <= release.units() < press.units() <= one_in_units()
}

/// The settings of the library.
pub open spec fn standard_settings() -> AdapterSettings {
    AdapterSettings {
        default_filters: false,
        press_threshold: Reading { bits: PRESS_THRESHOLD_BITS },
        release_threshold: Reading { bits: RELEASE_THRESHOLD_BITS },
    }
}

impl AdapterSettings {
    /// The settings of the library: the backend's default filters are off,
    /// since the directional pad is read by the library itself, and an axis
    /// that stands for a button is pressed from three quarters up and
    /// released from thirteen twentieths down.
    pub fn standard() -> (settings: AdapterSettings)
        ensures
            settings == standard_settings(),
            thresholds_admissible(settings.press_threshold, settings.release_threshold),
    {
        proof {
            lemma_standard_thresholds();
        }
        AdapterSettings {
            default_filters: false,
            press_threshold: Reading { bits: PRESS_THRESHOLD_BITS },
            release_threshold: Reading { bits: RELEASE_THRESHOLD_BITS },
        }
    }
}

/// What the two threshold patterns stand for: the first is three quarters
/// exactly, the second is within half a step of the binary32 grid of
/// thirteen twentieths, and the pair is one that a backend accepts.
pub proof fn lemma_standard_thresholds()
    ensures
        4 * (Reading { bits: PRESS_THRESHOLD_BITS }).units() == 3 * one_in_units(),
        -20 * pow2(124) <= 20 * (Reading { bits: RELEASE_THRESHOLD_BITS }).units() - 13
            * one_in_units() <= 20 * pow2(124),
        thresholds_admissible(
            Reading { bits: PRESS_THRESHOLD_BITS },
            Reading { bits: RELEASE_THRESHOLD_BITS },
        ),
{
    let press = Reading { bits: PRESS_THRESHOLD_BITS };
    let release = Reading { bits: RELEASE_THRESHOLD_BITS };
    lemma2_to64();
    lemma_pow2_adds(24, 125);
    lemma_pow2_adds(1, 124);
    lemma_pow2_pos(124);
    let p = pow2(125);
    assert(press.exponent_field() == 126 && press.fraction_field() == 0x40_0000);
    assert(release.exponent_field() == 126 && release.fraction_field() == 0x26_6666);
    assert(press.units() == 0xC0_0000 * p);
    assert(release.units() == 0xA6_6666 * p);
    assert(one_in_units() == 0x100_0000 * p);
    assert(4 * (0xC0_0000 * p) == 3 * (0x100_0000 * p)) by (nonlinear_arith);
    assert(20 * (0xA6_6666 * p) - 13 * (0x100_0000 * p) == -8 * p) by (nonlinear_arith);
    assert(0xA6_6666 * p < 0xC0_0000 * p <= 0x100_0000 * p && 0 <= 0xA6_6666 * p)
        by (nonlinear_arith)
        requires
            p > 0,
    ;
}

} // verus!
