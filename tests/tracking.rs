use atc24_radar::config::RadarConfig;
use atc24_radar::render::predicted_distance;
use atc24_radar::state::RadarState;
use atc24_radar::types::{AircraftInfo, Atis, ControllerPosition, FlightPlan, Position, TrackedAircraft};

fn sample(x: i64, y: i64) -> AircraftInfo {
    AircraftInfo {
        heading: 0,
        player_name: "pilot".to_string(),
        altitude: 3500,
        aircraft_type: "Airbus A320".to_string(),
        position: Position { x, y },
        speed: 130,
        wind: "357/15".to_string(),
        is_on_ground: Some(false),
        ground_speed: 120,
        is_emergency_occuring: false,
    }
}

fn plan(callsign: &str) -> FlightPlan {
    FlightPlan {
        roblox_name: "pilot".to_string(),
        callsign: callsign.to_string(),
        real_callsign: callsign.to_string(),
        aircraft: "A320".to_string(),
        flight_rules: "IFR".to_string(),
        departing: "IRFD".to_string(),
        arriving: "ITKO".to_string(),
        route: "DCT".to_string(),
        flight_level: "350".to_string(),
    }
}

fn controller(airport: &str, queue: &[&str]) -> ControllerPosition {
    ControllerPosition {
        holder: Some("ctl".to_string()),
        held_since: Some(1000),
        claimable: false,
        airport: airport.to_string(),
        position: "TWR".to_string(),
        queue: queue.iter().map(|s| s.to_string()).collect(),
    }
}

fn atis(airport: &str, letter: &str) -> Atis {
    Atis {
        airport: airport.to_string(),
        letter: letter.to_string(),
        content: "INFO\nWIND".to_string(),
        lines: vec!["INFO".to_string(), "WIND".to_string()],
        editor: None,
    }
}

#[test]
fn history_records_previous_position_after_long_move() {
    let mut t = TrackedAircraft::new_at("ABC123".to_string(), sample(0, 0), 1000);
    t.update_at(sample(0, 150), 20, 2000);
    assert_eq!(t.history, vec![(0, 0, 1000)]);
    assert_eq!(t.info.position, Position { x: 0, y: 150 });
    assert_eq!(t.last_update, 2000);
}

#[test]
fn scenario_predictive_vector_due_north() {
    let mut t = TrackedAircraft::new_at("ABC123".to_string(), sample(0, 0), 1000);
    t.update_at(sample(0, 150), 20, 2000);
    assert_eq!(t.history.len(), 1);
    assert_eq!(t.history[0], (0, 0, 1000));
    // 120 kt * 0.5442765 * 180 s = 11756.3724 world units
    assert_eq!(predicted_distance(t.info.ground_speed, 3000), 11756);
    assert_eq!(t.info.heading as i64 - 90, -90);
}

#[test]
fn history_skips_short_moves() {
    let mut t = TrackedAircraft::new_at("A".to_string(), sample(0, 0), 0);
    t.update_at(sample(60, 80), 20, 1);
    assert!(t.history.is_empty());
    t.update_at(sample(100, 0), 20, 2);
    assert!(t.history.is_empty());
    t.update_at(sample(201, 0), 20, 3);
    assert_eq!(t.history, vec![(100, 0, 2)]);
}

#[test]
fn history_distance_exactly_threshold_is_not_added() {
    let t = TrackedAircraft::new_at("A".to_string(), sample(0, 0), 0);
    assert!(!t.should_add_history(&sample(60, 80)));
    assert!(t.should_add_history(&sample(60, 81)));
    assert!(t.should_add_history(&sample(i64::MAX, i64::MIN)));
}

#[test]
fn history_never_exceeds_maximum() {
    let mut t = TrackedAircraft::new_at("A".to_string(), sample(0, 0), 0);
    for k in 1..50i64 {
        t.update_at(sample(k * 200, 0), 5, k);
        assert!(t.history.len() <= 5);
    }
    assert_eq!(t.history.len(), 5);
    assert_eq!(t.history[0], (44 * 200, 0, 44));
    assert_eq!(t.history[4], (48 * 200, 0, 48));
}

#[test]
fn history_with_zero_maximum_stays_empty() {
    let mut t = TrackedAircraft::new_at("A".to_string(), sample(0, 0), 0);
    t.update_at(sample(1000, 0), 0, 1);
    assert!(t.history.is_empty());
}

#[test]
fn batch_creates_then_updates_aircraft() {
    let mut s = RadarState::new();
    s.update_aircraft_batch_at(vec![("ABC123".to_string(), sample(0, 0)), ("XYZ1".to_string(), sample(5, 5))], 100);
    assert_eq!(s.get_aircraft().len(), 2);
    assert_eq!(s.get_connection_status().aircraft_count, 2);
    assert_eq!(s.get_connection_status().last_data_received, Some(100));
    s.update_aircraft_batch_at(vec![("ABC123".to_string(), sample(0, 150))], 200);
    let a = s.get_aircraft_by_callsign("ABC123").unwrap();
    assert_eq!(a.history, vec![(0, 0, 100)]);
    assert_eq!(a.last_update, 200);
    assert_eq!(s.get_aircraft().len(), 2);
    assert!(s.get_aircraft_by_callsign("abc123").is_none());
}

#[test]
fn flight_plan_before_aircraft_is_dropped() {
    let mut s = RadarState::new();
    s.update_flight_plan(plan("XYZ1"));
    assert!(s.get_aircraft_by_callsign("XYZ1").is_none());
    assert!(s.get_aircraft().is_empty());
    s.update_aircraft_batch_at(vec![("XYZ1".to_string(), sample(0, 0))], 10);
    assert!(s.get_aircraft_by_callsign("XYZ1").unwrap().flight_plan.is_none());
}

#[test]
fn flight_plan_attaches_to_known_aircraft() {
    let mut s = RadarState::new();
    s.update_aircraft_batch_at(vec![("XYZ1".to_string(), sample(0, 0))], 10);
    s.update_flight_plan(plan("XYZ1"));
    let a = s.get_aircraft_by_callsign("XYZ1").unwrap();
    assert_eq!(a.flight_plan.unwrap().arriving, "ITKO");
}

#[test]
fn controller_replay_is_idempotent() {
    let mut s = RadarState::new();
    let payload = vec![controller("IRFD", &["a", "b", "a"]), controller("ITKO", &[])];
    s.update_controllers(payload.clone());
    let first = s.get_controllers();
    s.update_controllers(payload);
    let second = s.get_controllers();
    assert_eq!(second.len(), 2);
    assert_eq!(first.len(), second.len());
    for (a, b) in first.iter().zip(second.iter()) {
        assert_eq!(a.airport, b.airport);
        assert_eq!(a.queue, b.queue);
    }
    assert_eq!(second[0].queue, vec!["a".to_string(), "b".to_string(), "a".to_string()]);
}

#[test]
fn atis_last_write_wins() {
    let mut s = RadarState::new();
    s.update_atis(atis("IRFD", "A"));
    s.update_atis(atis("ITKO", "C"));
    s.update_atis(atis("IRFD", "B"));
    assert_eq!(s.get_all_atis().len(), 2);
    assert_eq!(s.get_atis("IRFD").unwrap().letter, "B");
    assert_eq!(s.get_atis("ITKO").unwrap().letter, "C");
    assert!(s.get_atis("IPPH").is_none());
}

#[test]
fn stale_aircraft_are_evicted() {
    let mut s = RadarState::new();
    s.update_aircraft_batch_at(vec![("OLD".to_string(), sample(0, 0))], 1_000);
    s.update_aircraft_batch_at(vec![("NEW".to_string(), sample(0, 0))], 20_000);
    s.clear_stale_aircraft_at(10, 25_000);
    assert!(s.get_aircraft_by_callsign("OLD").is_none());
    assert!(s.get_aircraft_by_callsign("NEW").is_some());
    s.clear_stale_aircraft_at(5, 25_000);
    assert!(s.get_aircraft().is_empty());
}

#[test]
fn config_swap_is_whole() {
    let mut s = RadarState::new();
    let mut c = RadarConfig::default();
    c.display.history_length = 3;
    c.network.enable_event_server = true;
    s.update_config(c);
    let got = s.get_config();
    assert_eq!(got.display.history_length, 3);
    assert!(got.network.enable_event_server);
}

#[test]
fn connection_flag_is_recorded() {
    let mut s = RadarState::new();
    assert!(!s.get_connection_status().websocket_connected);
    s.set_websocket_connected(true);
    assert!(s.get_connection_status().websocket_connected);
    s.set_websocket_connected(false);
    assert!(!s.get_connection_status().websocket_connected);
}

#[test]
fn new_store_holds_default_configuration() {
    let s = RadarState::new();
    let c = s.get_config();
    assert_eq!(c.display.history_length, 20);
    assert_eq!(c.colors.background, "#0A0E1A");
    assert_eq!(c.data_tags.line2, "F{altitude:03} {gs:03}KT");
    assert_eq!(c.performance.stale_after_secs, 60);
    assert_eq!(c.network.reconnect_delay_secs, 5);
    assert!(!c.network.enable_event_server);
    let st = s.get_connection_status();
    assert!(!st.websocket_connected && st.last_data_received.is_none() && st.aircraft_count == 0);
}

#[test]
fn batch_keeps_connected_flag() {
    let mut s = RadarState::new();
    s.set_websocket_connected(true);
    s.update_aircraft_batch(vec![("A1".to_string(), sample(0, 0))]);
    assert!(s.get_connection_status().websocket_connected);
    assert_eq!(s.get_connection_status().aircraft_count, 1);
}
