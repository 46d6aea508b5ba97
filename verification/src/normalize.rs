//! From raw hardware events to records.
//!
//! Every raw event is reported under one snapshot of its controller. A
//! button event becomes one input record, a connection event one connection
//! record, and a reading of a directional pad axis the two button records of
//! its signals. The normalizer remembers, for each controller, the band in
//! which each pad axis was last read; a controller that connects or
//! disconnects is forgotten, so that a controller starts with both axes
//! neutral and nothing is kept for controllers that are gone.
//!
//! Two choices are left to the caller, and both are off unless asked for:
//! readings of axes other than those of the directional pad can be reported
//! as `changed` records under the axis symbol, and a reading of a pad axis
//! that lies in the band of the reading before it can be passed over.

use vstd::prelude::*;
use std::collections::HashMap;
use vstd::std_specs::hash::group_hash_axioms;
use crate::backend::RawEvent;
use crate::dpad::{is_dpad_axis, pad_signals, synthesize, Signal};
use crate::event::{
    emit_change_event, emit_input_event, views, ChangeEventView, ControllerState,
    ControllerStateView, Emission, EmissionView, InputEventView,
};
use crate::reading::{Band, Reading, ONE_BITS, ZERO_BITS};
use crate::symbol::{
    axis_symbol, axis_to_string, btn_to_string, button_symbol, change_phase_symbol,
    change_phase_to_string, input_phase_symbol, input_phase_to_string,
    lemma_input_phase_symbol_identifies, Axis, ChangePhase, InputPhase,
};

verus! {

/// The band in which each axis of a directional pad was last read.
#[derive(Clone, Copy, Debug, PartialEq, Eq, Structural)]
pub struct AxisDirectionState {
    pub x: Band,
    pub y: Band,
}

impl AxisDirectionState {
    /// Both axes neutral.
    pub open spec fn spec_neutral() -> AxisDirectionState {
        AxisDirectionState { x: Band::Neutral, y: Band::Neutral }
    }

    /// Both axes neutral: the state of a controller of which no pad axis
    /// was read yet.
    #[verifier::when_used_as_spec(spec_neutral)]
    pub fn neutral() -> (state: AxisDirectionState)
        ensures
            state == Self::spec_neutral(),
    {
        AxisDirectionState { x: Band::Neutral, y: Band::Neutral }
    }

    /// The band of a pad axis; neutral for any other axis.
    pub open spec fn spec_band_on(self, axis: Axis) -> Band {
        match axis {
            Axis::DPadX => self.x,
            Axis::DPadY => self.y,
            _ => Band::Neutral,
        }
    }

    /// The band in which a pad axis was last read; neutral for any other axis.
    #[verifier::when_used_as_spec(spec_band_on)]
    pub fn band_on(self, axis: Axis) -> (band: Band)
        ensures
            band == self.spec_band_on(axis),
    {
        match axis {
            Axis::DPadX => self.x,
            Axis::DPadY => self.y,
            _ => Band::Neutral,
        }
    }

    /// The state after a pad axis was read in `band`; the same state for
    /// any other axis.
    pub open spec fn spec_with_band(self, axis: Axis, band: Band) -> AxisDirectionState {
        match axis {
            Axis::DPadX => AxisDirectionState { x: band, y: self.y },
            Axis::DPadY => AxisDirectionState { x: self.x, y: band },
            _ => self,
        }
    }

    /// The state after a pad axis was read in `band`; the same state for
    /// any other axis.
    #[verifier::when_used_as_spec(spec_with_band)]
    pub fn with_band(self, axis: Axis, band: Band) -> (state: AxisDirectionState)
        ensures
            state == self.spec_with_band(axis, band),
    {
        match axis {
            Axis::DPadX => AxisDirectionState { x: band, y: self.y },
            Axis::DPadY => AxisDirectionState { x: self.x, y: band },
            _ => self,
        }
    }
}

/// The choices that a normalizer is made with.
#[derive(Clone, Copy, Debug, PartialEq, Eq, Structural)]
pub struct Config {
    /// Report readings of axes other than those of the directional pad.
    pub forward_axes: bool,
    /// Pass over a reading of a pad axis that lies in the band of the
    /// reading before it.
    pub suppress_repeats: bool,
}

impl Default for Config {
    /// Neither choice taken: other axes are not reported, and every reading
    /// of a pad axis gives its two records.
    fn default() -> (config: Config)
        ensures
            config == (Config { forward_axes: false, suppress_repeats: false }),
    {
        Config { forward_axes: false, suppress_repeats: false }
    }
}

/// The record of a button signal under a snapshot.
pub open spec fn input_record(state: ControllerStateView, signal: Signal) -> EmissionView {
    EmissionView::Input(
        InputEventView {
            state,
            button: button_symbol(signal.button),
            event: input_phase_symbol(signal.phase),
            value: signal.value,
        },
    )
}

/// The record of an axis reading under a snapshot.
pub open spec fn axis_record(state: ControllerStateView, axis: Axis, value: Reading) -> EmissionView {
    EmissionView::Input(
        InputEventView {
            state,
            button: axis_symbol(axis),
            event: input_phase_symbol(InputPhase::Changed),
            value,
        },
    )
}

/// The record of a connection phase under a snapshot.
pub open spec fn change_record(state: ControllerStateView, phase: ChangePhase) -> EmissionView {
    EmissionView::Change(ChangeEventView { state, event: change_phase_symbol(phase) })
}

/// The records that a raw event gives, in order, for a controller whose pad
/// axes were last read as `before`, under the snapshot `state`.
pub open spec fn normalized(
    config: Config,
    before: AxisDirectionState,
    state: ControllerStateView,
    event: RawEvent,
) -> Seq<EmissionView> {
    match event {
        RawEvent::ButtonPressed(button) => seq![
            input_record(
                state,
                Signal { button, phase: InputPhase::Pressed, value: Reading { bits: ONE_BITS } },
            ),
        ],
        RawEvent::ButtonRepeated(button) => seq![
            input_record(
                state,
                Signal { button, phase: InputPhase::Repeated, value: Reading { bits: ONE_BITS } },
            ),
        ],
        RawEvent::ButtonReleased(button) => seq![
            input_record(
                state,
                Signal { button, phase: InputPhase::Released, value: Reading { bits: ZERO_BITS } },
            ),
        ],
        RawEvent::ButtonChanged(button, value) => seq![
            input_record(state, Signal { button, phase: InputPhase::Changed, value }),
        ],
        RawEvent::AxisChanged(axis, value) => {
            if is_dpad_axis(axis) {
                if config.suppress_repeats && before.band_on(axis) == value.band() {
                    Seq::empty()
                } else {
                    let pair = pad_signals(axis, value.band());
                    seq![input_record(state, pair.0), input_record(state, pair.1)]
                }
            } else if config.forward_axes {
                seq![axis_record(state, axis, value)]
            } else {
                Seq::empty()
            }
        },
        RawEvent::Connected => seq![change_record(state, ChangePhase::Connected)],
        RawEvent::Disconnected => seq![change_record(state, ChangePhase::Disconnected)],
        RawEvent::Dropped => seq![change_record(state, ChangePhase::Dropped)],
    }
}

/// The pad state of a controller in what is remembered: what is kept under
/// its id, and neutral where nothing is kept.
pub open spec fn remembered(
    kept: Map<u64, AxisDirectionState>,
    id: u64,
) -> AxisDirectionState {
    if kept.contains_key(id) {
        kept[id]
    } else {
        AxisDirectionState::neutral()
    }
}

/// What is remembered after a raw event of the controller `id`: a reading
/// of a pad axis is noted under the id, a controller that connects or
/// disconnects is forgotten, and any other event changes nothing.
pub open spec fn kept_after(
    kept: Map<u64, AxisDirectionState>,
    id: u64,
    event: RawEvent,
) -> Map<u64, AxisDirectionState> {
    match event {
        RawEvent::AxisChanged(axis, value) => {
            if is_dpad_axis(axis) {
                kept.insert(id, remembered(kept, id).with_band(axis, value.band()))
            } else {
                kept
            }
        },
        RawEvent::Connected => kept.remove(id),
        RawEvent::Disconnected => kept.remove(id),
        _ => kept,
    }
}

/// Queues the record of a button signal under the snapshot `state`.
pub fn emit_signal(outbox: &mut Vec<Emission>, state: ControllerState, signal: Signal)
    ensures
        views(final(outbox)@) == views(old(outbox)@).push(input_record(state@, signal)),
{
    emit_input_event(
        outbox,
        state,
        (btn_to_string(signal.button), input_phase_to_string(signal.phase), signal.value),
    );
}

/// Turns raw events into records, and remembers the pad state of each
/// controller.
pub struct Normalizer {
    config: Config,
    directions: HashMap<u64, AxisDirectionState>,
}

impl Normalizer {
    /// The choices that the normalizer was made with.
    pub closed spec fn config(&self) -> Config {
        self.config
    }

    /// The pad states that are remembered, by controller id.
    pub closed spec fn kept(&self) -> Map<u64, AxisDirectionState> {
        self.directions@
    }

    /// A normalizer that remembers no controller.
    pub fn new(config: Config) -> (normalizer: Normalizer)
        ensures
            normalizer.config() == config,
            normalizer.kept() == Map::<u64, AxisDirectionState>::empty(),
    {
        Normalizer { config, directions: HashMap::new() }
    }

    /// The pad state of a controller: the bands in which its pad axes were
    /// last read, and neutral where none was read since it connected.
    pub fn directions(&self, id: u64) -> (state: AxisDirectionState)
        ensures
            state == remembered(self.kept(), id),
    {
        broadcast use group_hash_axioms;

        match self.directions.get(&id) {
            Some(state) => *state,
            None => AxisDirectionState::neutral(),
        }
    }

    /// The number of controllers of which a pad state is kept.
    pub fn kept_count(&self) -> (count: usize)
        ensures
            count == self.kept().len(),
    {
        broadcast use group_hash_axioms;

        self.directions.len()
    }

    /// Reports one raw event of the controller `id` under the snapshot
    /// `state`: its records are queued behind what `outbox` holds, and the
    /// pad state of the controller is brought up to date.
    pub fn process(
        &mut self,
        id: u64,
        state: ControllerState,
        event: RawEvent,
        outbox: &mut Vec<Emission>,
    )
        ensures
            views(final(outbox)@) == views(old(outbox)@) + normalized(
                old(self).config(),
                remembered(old(self).kept(), id),
                state@,
                event,
            ),
            final(self).config() == old(self).config(),
            final(self).kept() == kept_after(old(self).kept(), id, event),
    {
        broadcast use group_hash_axioms;

        let ghost queued = views(outbox@);
        let one = Reading { bits: ONE_BITS };
        let zero = Reading { bits: ZERO_BITS };
        match event {
            RawEvent::ButtonPressed(button) => {
                emit_signal(outbox, state, Signal { button, phase: InputPhase::Pressed, value: one });
            },
            RawEvent::ButtonRepeated(button) => {
                emit_signal(
                    outbox,
                    state,
                    Signal { button, phase: InputPhase::Repeated, value: one },
                );
            },
            RawEvent::ButtonReleased(button) => {
                emit_signal(
                    outbox,
                    state,
                    Signal { button, phase: InputPhase::Released, value: zero },
                );
            },
            RawEvent::ButtonChanged(button, value) => {
                emit_signal(outbox, state, Signal { button, phase: InputPhase::Changed, value });
            },
            RawEvent::AxisChanged(axis, value) => {
                match synthesize(axis, value) {
                    Some((first, second)) => {
                        let band = value.classify();
                        let before = self.directions(id);
                        let repeated = before.band_on(axis) == band;
                        self.directions.insert(id, before.with_band(axis, band));
                        if !(self.config.suppress_repeats && repeated) {
                            emit_signal(outbox, state.clone(), first);
                            emit_signal(outbox, state, second);
                        }
                    },
                    None => {
                        if self.config.forward_axes {
                            emit_input_event(
                                outbox,
                                state,
                                (
                                    axis_to_string(axis),
                                    input_phase_to_string(InputPhase::Changed),
                                    value,
                                ),
                            );
                        }
                    },
                }
            },
            RawEvent::Connected => {
                self.directions.remove(&id);
                emit_change_event(outbox, state, change_phase_to_string(ChangePhase::Connected));
            },
            RawEvent::Disconnected => {
                self.directions.remove(&id);
                emit_change_event(outbox, state, change_phase_to_string(ChangePhase::Disconnected));
            },
            RawEvent::Dropped => {
                emit_change_event(outbox, state, change_phase_to_string(ChangePhase::Dropped));
            },
        }
        proof {
            assert(views(outbox@) =~= queued + normalized(
                old(self).config(),
                remembered(old(self).kept(), id),
                state@,
                event,
            ));
        }
    }
}

/// A raw event gives at most two records, and each of them carries the
/// snapshot under which the event was reported.
pub proof fn lemma_records_carry_the_snapshot(
    config: Config,
    before: AxisDirectionState,
    state: ControllerStateView,
    event: RawEvent,
)
    ensures
        normalized(config, before, state, event).len() <= 2,
        forall|i: int|
            0 <= i < normalized(config, before, state, event).len() ==> snapshot_in(
                #[trigger] normalized(config, before, state, event)[i],
            ) == state,
{
}

/// The snapshot that a record carries.
pub open spec fn snapshot_in(record: EmissionView) -> ControllerStateView {
    match record {
        EmissionView::Input(input) => input.state,
        EmissionView::Change(change) => change.state,
    }
}

/// The record names its element and its phase in words of the vocabulary: an
/// input record a button or an axis and an input phase, a connection record
/// a connection phase.
pub open spec fn in_vocabulary(record: EmissionView) -> bool {
    match record {
        EmissionView::Input(input) => {
            &&& crate::symbol::button_vocabulary().contains(input.button)
                || crate::symbol::axis_vocabulary().contains(input.button)
            &&& crate::symbol::input_phase_vocabulary().contains(input.event)
        },
        EmissionView::Change(change) => crate::symbol::change_phase_vocabulary().contains(
            change.event,
        ),
    }
}

/// An input record of a press or of a repeat is at the value one, and an
/// input record of a release is at the value zero.
pub open spec fn digital_where_due(record: EmissionView) -> bool {
    match record {
        EmissionView::Input(input) => {
            &&& input.event == input_phase_symbol(InputPhase::Pressed) ==> input.value.stands_for(1)
            &&& input.event == input_phase_symbol(InputPhase::Repeated) ==> input.value.stands_for(
                1,
            )
            &&& input.event == input_phase_symbol(InputPhase::Released) ==> input.value.stands_for(
                0,
            )
        },
        EmissionView::Change(_) => true,
    }
}

/// Every record of a raw event is worded in the vocabulary, and its value is
/// one or zero wherever its phase is a press, a repeat or a release.
pub proof fn lemma_records_are_well_formed(
    config: Config,
    before: AxisDirectionState,
    state: ControllerStateView,
    event: RawEvent,
)
    ensures
        forall|i: int|
            0 <= i < normalized(config, before, state, event).len() ==> in_vocabulary(
                #[trigger] normalized(config, before, state, event)[i],
            ),
        forall|i: int|
            0 <= i < normalized(config, before, state, event).len() ==> digital_where_due(
                #[trigger] normalized(config, before, state, event)[i],
            ),
{
    crate::reading::lemma_named_patterns();
    assert forall|p: InputPhase, q: InputPhase| #[trigger]
        input_phase_symbol(p) == #[trigger] input_phase_symbol(q) implies p == q by {
        lemma_input_phase_symbol_identifies(p, q);
    }
}

/// Where repeats are not passed over, what a raw event gives does not
/// depend on what was read before: the same reading of a pad axis gives the
/// same two records every time, and what is remembered after it is read
/// once more is what was remembered after it was read first.
pub proof fn lemma_same_reading_same_records(
    config: Config,
    kept: Map<u64, AxisDirectionState>,
    id: u64,
    state: ControllerStateView,
    axis: Axis,
    value: Reading,
)
    requires
        !config.suppress_repeats,
        is_dpad_axis(axis),
    ensures
        ({
            let event = RawEvent::AxisChanged(axis, value);
            let first = normalized(config, remembered(kept, id), state, event);
            let kept_then = kept_after(kept, id, event);
            let second = normalized(config, remembered(kept_then, id), state, event);
            &&& first.len() == 2
            &&& second == first
            &&& kept_after(kept_then, id, event) == kept_then
        }),
{
    let event = RawEvent::AxisChanged(axis, value);
    let kept_then = kept_after(kept, id, event);
    assert(kept_after(kept_then, id, event) =~= kept_then);
}

/// Where repeats are passed over, a reading of a pad axis gives its two
/// records if it lies in another band than the reading before it, and none
/// if it lies in the same.
pub proof fn lemma_repeats_passed_over(
    config: Config,
    before: AxisDirectionState,
    state: ControllerStateView,
    axis: Axis,
    value: Reading,
)
    requires
        config.suppress_repeats,
        is_dpad_axis(axis),
    ensures
        ({
            let records = normalized(config, before, state, RawEvent::AxisChanged(axis, value));
            if before.band_on(axis) == value.band() {
                records.len() == 0
            } else {
                records.len() == 2
            }
        }),
{
}

/// A controller that connects, disconnects or has an event dropped gives
/// exactly one connection record, with the phase of the event and under the
/// snapshot of the event, whatever the choices and whatever was read before.
pub proof fn lemma_connection_records(
    config: Config,
    before: AxisDirectionState,
    state: ControllerStateView,
)
    ensures
        normalized(config, before, state, RawEvent::Connected) == seq![
            change_record(state, ChangePhase::Connected),
        ],
        normalized(config, before, state, RawEvent::Disconnected) == seq![
            change_record(state, ChangePhase::Disconnected),
        ],
        normalized(config, before, state, RawEvent::Dropped) == seq![
            change_record(state, ChangePhase::Dropped),
        ],
{
}

/// Nothing is kept of a controller that connects or disconnects: it starts
/// with both pad axes neutral, whatever was read of a controller that had
/// its id before.
pub proof fn lemma_forgotten_on_connection_change(kept: Map<u64, AxisDirectionState>, id: u64)
    ensures
        !kept_after(kept, id, RawEvent::Connected).contains_key(id),
        !kept_after(kept, id, RawEvent::Disconnected).contains_key(id),
        remembered(kept_after(kept, id, RawEvent::Connected), id) == AxisDirectionState::neutral(),
        remembered(kept_after(kept, id, RawEvent::Disconnected), id)
            == AxisDirectionState::neutral(),
{
}

/// An event of one controller leaves what is remembered of every other
/// controller as it was, and a state is kept only for controllers of which
/// one was kept before or whose pad axis was just read.
pub proof fn lemma_other_controllers_untouched(
    kept: Map<u64, AxisDirectionState>,
    id: u64,
    event: RawEvent,
    other: u64,
)
    requires
        other != id,
    ensures
        kept_after(kept, id, event).contains_key(other) == kept.contains_key(other),
        remembered(kept_after(kept, id, event), other) == remembered(kept, other),
{
}

} // verus!
