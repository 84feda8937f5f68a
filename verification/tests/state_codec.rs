use alliumd::state::AlliumDState;
use alliumd::codec::{encode_state, parse_state};

#[test]
fn save_load_round_trips_exactly() {
    let s = AlliumDState { time: 1_700_000_000, volume: 7, brightness: 83 };
    let bytes = s.save();
    let out = AlliumDState::load_from(Some(bytes), 1_800_000_000);
    assert_eq!(out.state.time, 1_700_000_000);
    assert_eq!(out.state.volume, 7);
    assert_eq!(out.state.brightness, 83);
    assert!(!out.remove_file);
    assert_eq!(out.advance_clock_to, None);
}

#[test]
fn future_timestamp_advances_clock() {
    let s = AlliumDState { time: 1_900_000_000, volume: 0, brightness: 100 };
    let bytes = s.save();
    let out = AlliumDState::load_from(Some(bytes), 1_800_000_000);
    assert_eq!(out.state.time, 1_900_000_000);
    assert_eq!(out.advance_clock_to, Some(1_900_000_000));
    assert!(!out.remove_file);
}

#[test]
fn record_bytes_are_fixed_layout() {
    let s = AlliumDState { time: 1_700_000_000, volume: 3, brightness: 50 };
    let bytes = encode_state(&s);
    let expected = b"{\"time\":\"001700000000\",\"volume\":\"03\",\"brightness\":\"050\"}";
    assert_eq!(bytes, expected.to_vec());
}

#[test]
fn corrupted_file_yields_defaults_and_removal() {
    let garbage = b"{\"time\":oops".to_vec();
    let out = AlliumDState::load_from(Some(garbage), 1_800_000_000);
    assert_eq!(out.state.volume, 0);
    assert_eq!(out.state.brightness, 50);
    assert_eq!(out.state.time, 1_800_000_000);
    assert!(out.remove_file);
    assert_eq!(out.advance_clock_to, None);
}

#[test]
fn out_of_range_record_is_corrupt() {
    let bad = b"{\"time\":\"001700000000\",\"volume\":\"99\",\"brightness\":\"050\"}".to_vec();
    assert!(parse_state(&bad).is_none());
    let out = AlliumDState::load_from(Some(bad), 1_800_000_000);
    assert_eq!(out.state.volume, 0);
    assert_eq!(out.state.brightness, 50);
    assert!(out.remove_file);
}

#[test]
fn truncated_record_is_corrupt() {
    let bad = b"{\"time\":\"001700000000\",\"volume\":\"03".to_vec();
    assert!(parse_state(&bad).is_none());
}

#[test]
fn missing_file_yields_defaults_without_removal() {
    let out = AlliumDState::load_from(None, 42);
    assert_eq!(out.state.volume, 0);
    assert_eq!(out.state.brightness, 50);
    assert_eq!(out.state.time, 42);
    assert!(!out.remove_file);
    assert_eq!(out.advance_clock_to, None);
}

#[test]
fn parse_is_inverse_of_encode() {
    let s = AlliumDState { time: 0, volume: 20, brightness: 0 };
    let bytes = encode_state(&s);
    let parsed = parse_state(&bytes).expect("canonical record must parse");
    assert_eq!(parsed, s);
}

#[test]
fn fresh_state_has_defaults() {
    // runs through the real wall clock
    let s = AlliumDState::new();
    assert_eq!(s.volume, 0);
    assert_eq!(s.brightness, 50);
    assert!(s.time >= 0);
    let out = AlliumDState::load(None);
    assert_eq!(out.state.volume, 0);
    assert_eq!(out.state.brightness, 50);
    assert!(!out.remove_file);
}
