use atc24_radar::listing::list_entries;
use atc24_radar::config::{ColorConfig, DataTagConfig, DisplayConfig};
use atc24_radar::projection::{Projection, ScreenPos};
use atc24_radar::render::{flash_visible, parse_color, DrawCommand, RadarRenderer, Rgba};
use atc24_radar::types::{AircraftInfo, Position, TrackedAircraft};

fn aircraft(callsign: &str, x: i64, y: i64) -> TrackedAircraft {
    TrackedAircraft::new_at(
        callsign.to_string(),
        AircraftInfo {
            heading: 0,
            player_name: "pilot".to_string(),
            altitude: 3500,
            aircraft_type: "Airbus A320".to_string(),
            position: Position { x, y },
            speed: 250,
            wind: "357/15".to_string(),
            is_on_ground: Some(false),
            ground_speed: 120,
            is_emergency_occuring: false,
        },
        0,
    )
}

#[test]
fn projection_maps_center_to_screen_middle() {
    let p = Projection::new(1_920_000, 1_080_000);
    assert_eq!(p.studs_per_pixel, 100_000);
    assert_eq!(p.studs_to_screen(0, 0), ScreenPos { x: 960_000, y: 540_000 });
    // 100 world units per pixel: 1000 units is 10 pixels
    assert_eq!(p.studs_to_screen(1000, -1000), ScreenPos { x: 970_000, y: 530_000 });
    assert_eq!(p.screen_to_studs(ScreenPos { x: 970_000, y: 530_000 }), (1000, -1000));
}

#[test]
fn projection_round_trip_keeps_world_point() {
    let mut p = Projection::new(1_000_000, 800_000);
    p.center = (12_345, -6_789);
    p.studs_per_pixel = 1_100;
    for &(x, y) in &[(0i64, 0i64), (1, -1), (123_457, 99), (-5, 7), (1_000_000_000_000, -1_000_000_000_000)] {
        let s = p.studs_to_screen(x, y);
        assert_eq!(p.screen_to_studs(s), (x, y));
    }
}

#[test]
fn zoom_keeps_anchor_world_point() {
    let mut p = Projection::new(1_000_000, 1_000_000);
    p.center = (500, 300);
    let anchor = ScreenPos { x: 123_456, y: 876_543 };
    let before = p.screen_to_studs(anchor);
    p.zoom(1, Some(anchor));
    assert_eq!(p.studs_per_pixel, 90_000);
    assert_eq!(p.screen_to_studs(anchor), before);
    p.zoom(-1, Some(anchor));
    assert_eq!(p.studs_per_pixel, 99_000);
    assert_eq!(p.screen_to_studs(anchor), before);
}

#[test]
fn zoom_scale_is_clamped() {
    let mut p = Projection::new(1_000, 1_000);
    p.studs_per_pixel = 1_050;
    p.zoom(1, None);
    assert_eq!(p.studs_per_pixel, 1_000);
    p.studs_per_pixel = 950_000;
    p.zoom(0, None);
    assert_eq!(p.studs_per_pixel, 1_000_000);
}

#[test]
fn pan_moves_center_against_drag() {
    let mut p = Projection::new(1_000_000, 1_000_000);
    p.pan(ScreenPos { x: 10_000, y: -5_000 });
    assert_eq!(p.center, (-1_000, 500));
    p.update_screen_size(2_000_000, 500_000);
    assert_eq!(p.screen_width, 2_000_000);
    assert_eq!(p.center, (-1_000, 500));
}

#[test]
fn parse_color_hex_strings() {
    assert_eq!(parse_color("#FF0000"), Rgba { r: 255, g: 0, b: 0, a: 255 });
    assert_eq!(parse_color("#0a0E1a"), Rgba { r: 10, g: 14, b: 26, a: 255 });
    assert_eq!(parse_color("00AA00"), Rgba { r: 0, g: 170, b: 0, a: 255 });
    assert_eq!(parse_color("##0088FF"), Rgba { r: 0, g: 136, b: 255, a: 255 });
    assert_eq!(parse_color("#GG0000"), Rgba { r: 0, g: 0, b: 0, a: 255 });
    assert_eq!(parse_color("#+F0000"), Rgba { r: 15, g: 0, b: 0, a: 255 });
    assert_eq!(parse_color("#FFF"), Rgba { r: 255, g: 255, b: 255, a: 255 });
    assert_eq!(parse_color(""), Rgba { r: 255, g: 255, b: 255, a: 255 });
}

#[test]
fn emergency_flash_period_is_one_second() {
    assert!(flash_visible(0));
    assert!(flash_visible(499));
    assert!(!flash_visible(500));
    assert!(!flash_visible(999));
    assert!(flash_visible(1000));
    assert!(flash_visible(12_345_200));
    assert!(!flash_visible(12_345_600));
}

#[test]
fn tag_template_tokens() {
    let a = aircraft("ABC123", 0, 0);
    assert_eq!(RadarRenderer::format_tag_line("{callsign}", &a), "ABC123");
    assert_eq!(RadarRenderer::format_tag_line("F{altitude:03} {gs:03}KT", &a), "F035 120KT");
    assert_eq!(RadarRenderer::format_tag_line("{altitude} {speed} {speed:03} {gs}", &a), "35 250 250 120");
    assert_eq!(RadarRenderer::format_tag_line("{heading:03}/{heading} {type}", &a), "000/0 Airbus A320");
    assert_eq!(RadarRenderer::format_tag_line("{unknown} {callsign", &a), "{unknown} {callsign");
    assert_eq!(RadarRenderer::format_tag_line("", &a), "");
}

#[test]
fn tag_template_negative_values() {
    let mut a = aircraft("N1", 0, 0);
    a.info.altitude = -250;
    a.info.ground_speed = -7;
    assert_eq!(RadarRenderer::format_tag_line("{altitude:03}|{altitude}|{gs:03}", &a), "-02|-2|-07");
}

#[test]
fn target_color_priority() {
    let colors = ColorConfig::default();
    let mut r = RadarRenderer::new();
    let mut a = aircraft("ABC123", 0, 0);
    assert_eq!(r.target_color(&a, &colors, 0), parse_color("#00FF00"));
    a.info.is_on_ground = Some(true);
    assert_eq!(r.target_color(&a, &colors, 0), parse_color("#888888"));
    r.selected_aircraft = Some("ABC123".to_string());
    assert_eq!(r.target_color(&a, &colors, 0), parse_color("#FFD700"));
    a.info.is_emergency_occuring = true;
    assert_eq!(r.target_color(&a, &colors, 100), parse_color("#FF0000"));
    assert_eq!(r.target_color(&a, &colors, 700), Rgba { r: 0, g: 0, b: 0, a: 0 });
}

#[test]
fn render_orders_layers() {
    let p = Projection::new(1_000_000, 1_000_000);
    let mut a = aircraft("ABC123", 0, 0);
    a.update_at(
        AircraftInfo { position: Position { x: 0, y: 150 }, ..a.info.clone() },
        20,
        10,
    );
    let b = aircraft("XYZ1", 1000, 1000);
    let display = DisplayConfig::default();
    let colors = ColorConfig::default();
    let tags = DataTagConfig::default();
    let cmds = RadarRenderer::new().render(&p, &vec![a, b], &display, &colors, &tags, 0);
    // one history dot, two vectors, two diamonds with heading strokes, four tag lines
    assert_eq!(cmds.len(), 1 + 2 + 4 + 4);
    assert!(matches!(cmds[0], DrawCommand::Dot { center: (500_000, 500_000), radius: 2000, .. }));
    match &cmds[1] {
        DrawCommand::Ray { origin, angle, length, .. } => {
            assert_eq!(*origin, (500_000, 501_500));
            assert_eq!(*angle, -90);
            // 11756 world units at 100 units per pixel
            assert_eq!(*length, 117_560);
        }
        _ => panic!("expected the predictive vector"),
    }
    assert!(matches!(cmds[3], DrawCommand::Diamond { half_size: 6000, .. }));
    assert!(matches!(cmds[4], DrawCommand::Ray { length: 12000, width: 1400, .. }));
    match &cmds[7] {
        DrawCommand::Text { origin, text, .. } => {
            assert_eq!(*origin, (515_000, 491_500));
            assert_eq!(text, "ABC123");
        }
        _ => panic!("expected a tag line"),
    }
    match &cmds[8] {
        DrawCommand::Text { origin, text, .. } => {
            assert_eq!(*origin, (515_000, 505_500));
            assert_eq!(text, "F035 120KT");
        }
        _ => panic!("expected a tag line"),
    }
}

#[test]
fn render_respects_show_flags() {
    let p = Projection::new(1_000_000, 1_000_000);
    let mut display = DisplayConfig::default();
    display.show_history = false;
    display.show_vectors = false;
    display.show_tags = false;
    let cmds = RadarRenderer::new().render(
        &p,
        &vec![aircraft("A", 0, 0)],
        &display,
        &ColorConfig::default(),
        &DataTagConfig::default(),
        0,
    );
    assert_eq!(cmds.len(), 2);
    assert!(matches!(cmds[0], DrawCommand::Diamond { .. }));
}

#[test]
fn click_picks_nearest_aircraft_within_radius() {
    let p = Projection::new(1_000_000, 1_000_000);
    // 100 world units per pixel: aircraft at 0, 8 and 30 pixels right of the middle
    let list = vec![aircraft("FAR", 3000, 0), aircraft("MID", 800, 0), aircraft("NEAR", 0, 0)];
    let at = ScreenPos { x: 503_000, y: 500_000 };
    assert_eq!(RadarRenderer::aircraft_at(&p, &list, at), Some(2));
    let mut r = RadarRenderer::new();
    r.select_aircraft_at_position(&p, &list, at);
    assert_eq!(r.selected_aircraft.as_deref(), Some("NEAR"));
    // 15 pixels away is outside the radius
    r.select_aircraft_at_position(&p, &list, ScreenPos { x: 500_000, y: 515_000 });
    assert_eq!(r.selected_aircraft, None);
}

#[test]
fn click_tie_picks_first_aircraft() {
    let p = Projection::new(1_000_000, 1_000_000);
    let list = vec![aircraft("LEFT", -500, 0), aircraft("RIGHT", 500, 0)];
    assert_eq!(RadarRenderer::aircraft_at(&p, &list, ScreenPos { x: 500_000, y: 500_000 }), Some(0));
}

#[test]
fn list_filters_and_orders_by_callsign() {
    let list = vec![aircraft("UAL12", 0, 0), aircraft("BAW1", 0, 0), aircraft("ual3", 0, 0), aircraft("DAL9", 0, 0)];
    assert_eq!(list_entries(&list, ""), vec![1, 3, 0, 2]);
    assert_eq!(list_entries(&list, "Ual"), vec![0, 2]);
    assert_eq!(list_entries(&list, "9"), vec![3]);
    assert!(list_entries(&list, "zzz").is_empty());
    assert!(list_entries(&Vec::new(), "").is_empty());
}

#[test]
fn negative_stroke_width_rounds_toward_zero() {
    let p = Projection::new(1_000_000, 1_000_000);
    let mut display = DisplayConfig::default();
    display.target_stroke = -15;
    display.show_history = false;
    display.show_vectors = false;
    display.show_tags = false;
    let cmds = RadarRenderer::new().render(
        &p,
        &vec![aircraft("A", 0, 0)],
        &display,
        &ColorConfig::default(),
        &DataTagConfig::default(),
        0,
    );
    assert!(matches!(cmds[1], DrawCommand::Ray { width: -10, .. }));
}
