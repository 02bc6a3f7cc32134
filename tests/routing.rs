use atc24_radar::config::RadarConfig;
use atc24_radar::router::{accepts, classify, Message, MessageKind};
use atc24_radar::state::RadarState;
use atc24_radar::stream::{keep_alive_continues, step, LinkAction, LinkEvent, LinkState};
use atc24_radar::types::{AircraftInfo, FlightPlan, Position};

fn sample(x: i64, y: i64) -> AircraftInfo {
    AircraftInfo {
        heading: 90,
        player_name: "pilot".to_string(),
        altitude: 1000,
        aircraft_type: "Cessna 172".to_string(),
        position: Position { x, y },
        speed: 100,
        wind: "000/00".to_string(),
        is_on_ground: None,
        ground_speed: 95,
        is_emergency_occuring: false,
    }
}

#[test]
fn classify_known_and_unknown_types() {
    assert_eq!(classify("ACFT_DATA"), MessageKind::AircraftData);
    assert_eq!(classify("EVENT_ACFT_DATA"), MessageKind::EventAircraftData);
    assert_eq!(classify("FLIGHT_PLAN"), MessageKind::FlightPlan);
    assert_eq!(classify("EVENT_FLIGHT_PLAN"), MessageKind::EventFlightPlan);
    assert_eq!(classify("CONTROLLERS"), MessageKind::Controllers);
    assert_eq!(classify("ATIS"), MessageKind::Atis);
    assert_eq!(classify("atis"), MessageKind::Unknown);
    assert_eq!(classify(""), MessageKind::Unknown);
    assert_eq!(classify("ACFT_DATA2"), MessageKind::Unknown);
}

#[test]
fn event_source_disabled_is_ignored() {
    let mut s = RadarState::new();
    assert!(!accepts(MessageKind::EventAircraftData, &s.get_config()));
    s.apply_message_at(Message::EventAircraftData(vec![("EVT1".to_string(), sample(0, 0))]), 5);
    assert!(s.get_aircraft().is_empty());
    assert_eq!(s.get_connection_status().last_data_received, None);
}

#[test]
fn event_flight_plan_disabled_is_ignored() {
    let mut s = RadarState::new();
    s.apply_message_at(Message::AircraftData(vec![("EVT1".to_string(), sample(0, 0))]), 5);
    let fp = FlightPlan {
        roblox_name: "p".to_string(),
        callsign: "EVT1".to_string(),
        real_callsign: "EVT1".to_string(),
        aircraft: "C172".to_string(),
        flight_rules: "VFR".to_string(),
        departing: "IRFD".to_string(),
        arriving: "IRFD".to_string(),
        route: "".to_string(),
        flight_level: "010".to_string(),
    };
    s.apply_message_at(Message::EventFlightPlan(fp), 6);
    assert!(s.get_aircraft_by_callsign("EVT1").unwrap().flight_plan.is_none());
}

#[test]
fn event_source_enabled_is_applied() {
    let mut s = RadarState::new();
    let mut c = RadarConfig::default();
    c.network.enable_event_server = true;
    s.update_config(c);
    s.apply_message_at(Message::EventAircraftData(vec![("EVT1".to_string(), sample(0, 0))]), 5);
    assert_eq!(s.get_aircraft().len(), 1);
}

#[test]
fn unknown_message_changes_nothing() {
    let mut s = RadarState::new();
    s.apply_message_at(Message::Unknown("NEW_KIND".to_string()), 5);
    assert!(s.get_aircraft().is_empty());
    assert!(s.get_controllers().is_empty());
    assert!(!accepts(MessageKind::Unknown, &s.get_config()));
}

#[test]
fn link_connects_and_routes_text() {
    let (st, act) = step(LinkState::Disconnected, LinkEvent::Retry, 5);
    assert_eq!(st, LinkState::Connecting);
    assert!(matches!(act, LinkAction::Connect));
    let (st, act) = step(st, LinkEvent::HandshakeSucceeded, 5);
    assert_eq!(st, LinkState::Connected);
    assert!(matches!(act, LinkAction::MarkConnected));
    let (st, act) = step(st, LinkEvent::Text("{}".to_string()), 5);
    assert_eq!(st, LinkState::Connected);
    match act {
        LinkAction::Route(t) => assert_eq!(t, "{}"),
        _ => panic!("expected a frame to route"),
    }
    let (st, act) = step(st, LinkEvent::OtherFrame, 5);
    assert_eq!(st, LinkState::Connected);
    assert!(matches!(act, LinkAction::Idle));
}

#[test]
fn link_failures_wait_fixed_delay() {
    for ev in [LinkEvent::CloseFrame, LinkEvent::ReadError, LinkEvent::StreamEnded, LinkEvent::PingFailed] {
        let (st, act) = step(LinkState::Connected, ev, 7);
        assert_eq!(st, LinkState::Disconnected);
        assert!(matches!(act, LinkAction::MarkDisconnectedAndWait(7)));
    }
    let (st, act) = step(LinkState::Connecting, LinkEvent::HandshakeFailed, 7);
    assert_eq!(st, LinkState::Disconnected);
    assert!(matches!(act, LinkAction::MarkDisconnectedAndWait(7)));
    let (st, act) = step(st, LinkEvent::Retry, 7);
    assert_eq!(st, LinkState::Connecting);
    assert!(matches!(act, LinkAction::Connect));
}

#[test]
fn keep_alive_stops_when_disconnected() {
    assert!(keep_alive_continues(true));
    assert!(!keep_alive_continues(false));
}
