//! The records that leave the library, and the snapshot of a controller
//! that each of them carries.

use vstd::prelude::*;
use crate::backend::{ControllerInfo, PowerInfo};
use crate::reading::{
    lemma_named_patterns, lemma_whole, lemma_whole_patterns, whole, Reading, HUNDRED_BITS,
    MINUS_ONE_BITS,
};

verus! {

/// The power level that a power status stands for, as a whole number: the
/// battery's percentage, 100 without a battery or with a full one, and -1
/// where the status is unknown.
pub open spec fn power_percent(info: PowerInfo) -> int {
    match info {
        PowerInfo::Unknown => -1,
        PowerInfo::Wired => 100,
        PowerInfo::Discharging(level) => level as int,
        PowerInfo::Charging(level) => level as int,
        PowerInfo::Charged => 100,
    }
}

/// The power level of a controller as an analog number: the reading that
/// stands for its percentage. That is one hundred for a controller without
/// a battery or with a full one, and minus one where the status is unknown.
pub fn power_level(info: PowerInfo) -> (level: Reading)
    ensures
        level.stands_for(power_percent(info)),
        level == whole(power_percent(info)),
        info == PowerInfo::Wired || info == PowerInfo::Charged ==> level.bits == HUNDRED_BITS,
        info == PowerInfo::Unknown ==> level.bits == MINUS_ONE_BITS,
{
    proof {
        lemma_whole_patterns();
    }
    match info {
        PowerInfo::Unknown => {
            proof {
                lemma_named_patterns();
                lemma_whole(Reading { bits: MINUS_ONE_BITS }, -1);
            }
            Reading { bits: MINUS_ONE_BITS }
        },
        PowerInfo::Wired => Reading::from_level(100),
        PowerInfo::Discharging(level) => Reading::from_level(level),
        PowerInfo::Charging(level) => Reading::from_level(level),
        PowerInfo::Charged => Reading::from_level(100),
    }
}

/// A controller as it was when an event was produced: its name and its power
/// level. A snapshot is a value of its own; every record holds its own copy.
#[derive(Debug)]
pub struct ControllerState {
    pub name: String,
    pub power_level: Reading,
}

/// The mathematical content of a [`ControllerState`].
pub struct ControllerStateView {
    pub name: Seq<char>,
    pub power_level: Reading,
}

impl View for ControllerState {
    type V = ControllerStateView;

    open spec fn view(&self) -> ControllerStateView {
        ControllerStateView { name: self.name@, power_level: self.power_level }
    }
}

impl Clone for ControllerState {
    fn clone(&self) -> (copy: Self)
        ensures
            copy == *self,
    {
        ControllerState { name: self.name.clone(), power_level: self.power_level }
    }
}

impl Default for ControllerState {
    /// The snapshot of a controller of which nothing is known: no name, and
    /// the power level of an unknown power status.
    fn default() -> (state: Self)
        ensures
            state@ == unidentified(),
    {
        ControllerState { name: String::new(), power_level: power_level(PowerInfo::Unknown) }
    }
}

/// The snapshot that stands in for a controller that the backend no longer
/// knows: no name, and an unknown power status.
pub open spec fn unidentified() -> ControllerStateView {
    ControllerStateView {
        name: Seq::empty(),
        power_level: whole(power_percent(PowerInfo::Unknown)),
    }
}

/// The snapshot that a lookup gives: of the controller that was found, its
/// name and the level of its power status; of none, the unidentified one.
pub open spec fn snapshot_of(found: Option<ControllerInfo>) -> ControllerStateView {
    match found {
        Some(info) => ControllerStateView {
            name: info.name@,
            power_level: whole(power_percent(info.power_info)),
        },
        None => unidentified(),
    }
}

impl ControllerState {
    /// Takes the snapshot of a controller from what the backend's lookup
    /// returned. A lookup that found nothing is no error: the event that
    /// caused it is still worth reporting, under the unidentified snapshot.
    pub fn snapshot(found: Option<ControllerInfo>) -> (state: ControllerState)
        ensures
            state@ == snapshot_of(found),
    {
        match found {
            Some(info) => ControllerState {
                name: info.name,
                power_level: power_level(info.power_info),
            },
            None => ControllerState::default(),
        }
    }
}

/// An input event: an element of a controller, the phase it went through
/// and how far it is pressed, under the snapshot of its controller.
#[derive(Debug)]
pub struct InputEvent {
    pub state: ControllerState,
    /// The symbol of the button, or of the axis where an axis is reported.
    pub button: String,
    /// The symbol of the phase.
    pub event: String,
    pub value: Reading,
}

/// The mathematical content of an [`InputEvent`].
pub struct InputEventView {
    pub state: ControllerStateView,
    pub button: Seq<char>,
    pub event: Seq<char>,
    pub value: Reading,
}

impl View for InputEvent {
    type V = InputEventView;

    open spec fn view(&self) -> InputEventView {
        InputEventView {
            state: self.state@,
            button: self.button@,
            event: self.event@,
            value: self.value,
        }
    }
}

/// A connection event: what happened to a controller, under its snapshot.
#[derive(Debug)]
pub struct ChangeEvent {
    pub state: ControllerState,
    /// The symbol of the phase.
    pub event: String,
}

/// The mathematical content of a [`ChangeEvent`].
pub struct ChangeEventView {
    pub state: ControllerStateView,
    pub event: Seq<char>,
}

impl View for ChangeEvent {
    type V = ChangeEventView;

    open spec fn view(&self) -> ChangeEventView {
        ChangeEventView { state: self.state@, event: self.event@ }
    }
}

/// A record on its way to the sink.
#[derive(Debug)]
pub enum Emission {
    Input(InputEvent),
    Change(ChangeEvent),
}

/// The mathematical content of an [`Emission`].
pub enum EmissionView {
    Input(InputEventView),
    Change(ChangeEventView),
}

impl View for Emission {
    type V = EmissionView;

    open spec fn view(&self) -> EmissionView {
        match self {
            Emission::Input(input) => EmissionView::Input(input@),
            Emission::Change(change) => EmissionView::Change(change@),
        }
    }
}

/// The contents of a queue of records, in order.
pub open spec fn views(queue: Seq<Emission>) -> Seq<EmissionView> {
    queue.map_values(|e: Emission| e@)
}

/// The name of the channel on which a record is delivered.
pub open spec fn channel_name(emission: EmissionView) -> Seq<char> {
    match emission {
        EmissionView::Input(_) => "controller-input"@,
        EmissionView::Change(_) => "controller-change"@,
    }
}

impl Emission {
    /// The name of the channel on which the record is delivered.
    pub fn channel(&self) -> (name: String)
        ensures
            name@ == channel_name(self@),
    {
        match self {
            Emission::Input(_) => "controller-input".to_string(),
            Emission::Change(_) => "controller-change".to_string(),
        }
    }
}

/// Queues an input event for the sink: the element's symbol, the phase's
/// symbol and the value of `data`, in this order, under the snapshot `state`.
/// What was queued before stays, in its order.
pub fn emit_input_event(
    outbox: &mut Vec<Emission>,
    state: ControllerState,
    data: (String, String, Reading),
)
    ensures
        views(final(outbox)@) == views(old(outbox)@).push(
            EmissionView::Input(
                (InputEventView { state: state@, button: data.0@, event: data.1@, value: data.2 }),
            ),
        ),
{
    let input = InputEvent { state, button: data.0, event: data.1, value: data.2 };
    let ghost before = outbox@;
    outbox.push(Emission::Input(input));
    proof {
        assert(views(outbox@) =~= views(before).push(Emission::Input(input)@));
    }
}

/// Queues a connection event for the sink: the phase's symbol `event` under
/// the snapshot `state`. What was queued before stays, in its order.
pub fn emit_change_event(outbox: &mut Vec<Emission>, state: ControllerState, event: String)
    ensures
        views(final(outbox)@) == views(old(outbox)@).push(
            EmissionView::Change((ChangeEventView { state: state@, event: event@ })),
        ),
{
    let change = ChangeEvent { state, event };
    let ghost before = outbox@;
    outbox.push(Emission::Change(change));
    proof {
        assert(views(outbox@) =~= views(before).push(Emission::Change(change)@));
    }
}

} // verus!
