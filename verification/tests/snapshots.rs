use padbridge::backend::{ControllerInfo, PowerInfo};
use padbridge::event::{
    emit_change_event, emit_input_event, power_level, ControllerState, Emission,
};
use padbridge::reading::Reading;

fn level_of(info: PowerInfo) -> f32 {
    f32::from_bits(power_level(info).bits)
}

#[test]
fn power_level_mapping() {
    assert_eq!(level_of(PowerInfo::Wired), 100.0);
    assert_eq!(level_of(PowerInfo::Charged), 100.0);
    assert_eq!(level_of(PowerInfo::Unknown), -1.0);
    assert_eq!(level_of(PowerInfo::Discharging(42)), 42.0);
    assert_eq!(level_of(PowerInfo::Charging(7)), 7.0);
}

#[test]
fn power_level_of_every_percentage() {
    for level in 0..=255u8 {
        assert_eq!(level_of(PowerInfo::Discharging(level)), f32::from(level));
        assert_eq!(level_of(PowerInfo::Charging(level)), f32::from(level));
    }
}

#[test]
fn power_level_of_an_empty_battery_is_plain_zero() {
    assert_eq!(power_level(PowerInfo::Discharging(0)).bits, 0);
    assert_eq!(power_level(PowerInfo::Charging(0)).bits, 0);
}

#[test]
fn snapshot_of_a_controller_that_was_found() {
    let found = ControllerInfo { name: "Pad".to_string(), power_info: PowerInfo::Discharging(42) };
    let state = ControllerState::snapshot(Some(found));
    assert_eq!(state.name, "Pad");
    assert_eq!(f32::from_bits(state.power_level.bits), 42.0);
}

#[test]
fn snapshot_of_a_controller_that_is_gone() {
    let state = ControllerState::snapshot(None);
    assert_eq!(state.name, "");
    assert_eq!(f32::from_bits(state.power_level.bits), -1.0);
}

#[test]
fn default_snapshot_is_the_unidentified_one() {
    let state = ControllerState::default();
    assert_eq!(state.name, "");
    assert_eq!(f32::from_bits(state.power_level.bits), -1.0);
}

#[test]
fn a_snapshot_is_copied_whole() {
    let found = ControllerInfo { name: "Pad".to_string(), power_info: PowerInfo::Wired };
    let state = ControllerState::snapshot(Some(found));
    let copy = state.clone();
    assert_eq!(copy.name, state.name);
    assert_eq!(copy.power_level, state.power_level);
}

#[test]
fn emit_input_event_queues_the_record_last() {
    let mut outbox: Vec<Emission> = Vec::new();
    emit_change_event(&mut outbox, ControllerState::default(), "connected".to_string());
    let found = ControllerInfo { name: "Pad".to_string(), power_info: PowerInfo::Wired };
    emit_input_event(
        &mut outbox,
        ControllerState::snapshot(Some(found)),
        ("south".to_string(), "changed".to_string(), Reading::from_bits(0.25f32.to_bits())),
    );
    assert_eq!(outbox.len(), 2);
    assert!(matches!(outbox[0], Emission::Change(_)));
    match &outbox[1] {
        Emission::Input(input) => {
            assert_eq!(input.state.name, "Pad");
            assert_eq!(f32::from_bits(input.state.power_level.bits), 100.0);
            assert_eq!(input.button, "south");
            assert_eq!(input.event, "changed");
            assert_eq!(f32::from_bits(input.value.bits), 0.25);
        }
        Emission::Change(_) => panic!("an input record was queued"),
    }
}

#[test]
fn emit_change_event_queues_the_record_last() {
    let mut outbox: Vec<Emission> = Vec::new();
    emit_input_event(
        &mut outbox,
        ControllerState::default(),
        ("east".to_string(), "pressed".to_string(), Reading::from_bits(1.0f32.to_bits())),
    );
    let found = ControllerInfo { name: "Pad".to_string(), power_info: PowerInfo::Charging(7) };
    emit_change_event(
        &mut outbox,
        ControllerState::snapshot(Some(found)),
        "disconnected".to_string(),
    );
    assert_eq!(outbox.len(), 2);
    assert!(matches!(outbox[0], Emission::Input(_)));
    match &outbox[1] {
        Emission::Change(change) => {
            assert_eq!(change.state.name, "Pad");
            assert_eq!(f32::from_bits(change.state.power_level.bits), 7.0);
            assert_eq!(change.event, "disconnected");
        }
        Emission::Input(_) => panic!("a connection record was queued"),
    }
}

#[test]
fn records_name_their_channel() {
    let mut outbox: Vec<Emission> = Vec::new();
    emit_input_event(
        &mut outbox,
        ControllerState::default(),
        ("east".to_string(), "pressed".to_string(), Reading::from_bits(1.0f32.to_bits())),
    );
    emit_change_event(&mut outbox, ControllerState::default(), "dropped".to_string());
    assert_eq!(outbox[0].channel(), "controller-input");
    assert_eq!(outbox[1].channel(), "controller-change");
}
