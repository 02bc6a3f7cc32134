//! Render decisions: which color, shape and text each aircraft gets, and
//! in what order the draw commands come. Drawing them is left to the
//! presentation layer.
//!
//! Commands come in four layers, back to front: history dots, predictive
//! vectors, target symbols, data tags. Rays carry an angle in degrees
//! measured clockwise from the +x axis of the screen (so −90 points up,
//! North) and a length in thousandths of a pixel.

use vstd::prelude::*;
use crate::arith::{floor_div, floor_div_exec};
use crate::config::{ColorConfig, DataTagConfig, DisplayConfig};
use crate::format::{expand, push_token, token_at_start, trunc_div};
use crate::projection::{clamp, in_world, screen_pos_ok, Projection, ScreenPos, PRECISION};
use crate::state::views;
use crate::types::{TrackView, TrackedAircraft};

verus! {

/// World units flown per knot per second, in ten-millionths.
pub const STUDS_PER_KNOT_SECOND_E7: i64 = 5442765;

/// Width of the predictive vector, in thousandths of a pixel.
pub const VECTOR_WIDTH: i64 = 1500;

/// Radius around a click within which an aircraft is picked, in
/// thousandths of a pixel.
pub const PICK_RADIUS: i64 = 15_000;

/// Largest magnitude of a ray length, in thousandths of a pixel.
pub const RAY_LIMIT: i64 = 4_000_000_000_000;

/// A color with alpha.
#[derive(Debug, Clone, Copy, PartialEq, Eq, Structural)]
pub struct Rgba {
    pub r: u8,
    pub g: u8,
    pub b: u8,
    pub a: u8,
}

pub open spec fn white() -> Rgba {
    Rgba { r: 255, g: 255, b: 255, a: 255 }
}

pub open spec fn transparent() -> Rgba {
    Rgba { r: 0, g: 0, b: 0, a: 0 }
}

pub open spec fn is_hex(c: char) -> bool {
    ('0' <= c && c <= '9') || ('a' <= c && c <= 'f') || ('A' <= c && c <= 'F')
}

pub open spec fn hex_value(c: char) -> int {
    if '0' <= c && c <= '9' {
        c as int - '0' as int
    } else if 'a' <= c && c <= 'f' {
        c as int - 'a' as int + 10
    } else {
        c as int - 'A' as int + 10
    }
}

/// Value of a two-character base-16 number, an optional '+' sign
/// included; 0 when the pair is not such a number.
pub open spec fn byte_of(a: char, b: char) -> int {
    if is_hex(a) && is_hex(b) {
        16 * hex_value(a) + hex_value(b)
    } else if a == '+' && is_hex(b) {
        hex_value(b)
    } else {
        0
    }
}

/// `s` without its leading '#' characters.
pub open spec fn strip_hashes(s: Seq<char>) -> Seq<char>
    decreases s.len(),
{
    if s.len() > 0 && s[0] == '#' {
        strip_hashes(s.skip(1))
    } else {
        s
    }
}

/// The color that a hex string such as "#00FF00" names: six hex
/// characters after the leading '#'s give red, green and blue, an invalid
/// pair counts as 0; any other length gives white.
pub open spec fn color_of(s: Seq<char>) -> Rgba {
    let h = strip_hashes(s);
    if h.len() == 6 {
        Rgba {
            r: byte_of(h[0], h[1]) as u8,
            g: byte_of(h[2], h[3]) as u8,
            b: byte_of(h[4], h[5]) as u8,
            a: 255,
        }
    } else {
        white()
    }
}

/// Whether an emergency target is shown at animation time `t`: shown in
/// even 500 ms windows, hidden in odd ones.
pub open spec fn flash_on(t: int) -> bool {
    let a = if t < 0 {
        -t
    } else {
        t
    };
    (a / 500) % 2 == 0
}

/// Color of a target symbol, by priority: emergency (flashing), selected,
/// on the ground, airborne.
pub open spec fn target_color_spec(
    t: TrackView,
    selected: Option<Seq<char>>,
    colors: ColorConfig,
    time: i64,
) -> Rgba {
    if t.info.is_emergency_occuring {
        if flash_on(time as int) {
            color_of(colors.target_emergency@)
        } else {
            transparent()
        }
    } else if selected == Some(t.callsign) {
        color_of(colors.target_selected@)
    } else if t.info.is_on_ground == Some(true) {
        color_of(colors.ground@)
    } else {
        color_of(colors.target@)
    }
}

/// Distance flown at `ground_speed` knots over `vector_minutes` thousandths
/// of a minute, in whole world units, rounded down.
pub open spec fn predicted_distance_spec(ground_speed: i32, vector_minutes: u32) -> int {
    floor_div(
        ground_speed as int * STUDS_PER_KNOT_SECOND_E7 as int * vector_minutes as int * 60,
        10_000_000_000,
    )
}

/// Screen length of a world distance under a scale, within the ray limit.
pub open spec fn screen_length(distance: int, scale: int) -> int {
    clamp(floor_div(distance * PRECISION, scale), -RAY_LIMIT as int, RAY_LIMIT as int)
}

/// Planar angle of a compass heading: 0 = right, clockwise on screen.
pub open spec fn planar_angle(heading: i32) -> int {
    heading as int - 90
}

/// A draw command.
#[derive(Debug)]
pub enum DrawCommand {
    /// A filled circle.
    Dot { center: (i64, i64), radius: i64, color: Rgba },
    /// A straight stroke from `origin`, `length` long, at `angle` degrees.
    Ray { origin: (i64, i64), angle: i64, length: i64, width: i64, color: Rgba },
    /// A closed diamond whose corners lie `half_size` from `center`.
    Diamond { center: (i64, i64), half_size: i64, width: i64, color: Rgba },
    /// A line of text with its top-left corner at `origin`.
    Text { origin: (i64, i64), text: String, size: i64, color: Rgba },
}

/// A draw command as mathematical values.
pub enum DrawSpec {
    Dot { center: (int, int), radius: int, color: Rgba },
    Ray { origin: (int, int), angle: int, length: int, width: int, color: Rgba },
    Diamond { center: (int, int), half_size: int, width: int, color: Rgba },
    Text { origin: (int, int), text: Seq<char>, size: int, color: Rgba },
}

impl View for DrawCommand {
    type V = DrawSpec;

    open spec fn view(&self) -> DrawSpec {
        match self {
            DrawCommand::Dot { center, radius, color } => DrawSpec::Dot {
                center: (center.0 as int, center.1 as int),
                radius: *radius as int,
                color: *color,
            },
            DrawCommand::Ray { origin, angle, length, width, color } => DrawSpec::Ray {
                origin: (origin.0 as int, origin.1 as int),
                angle: *angle as int,
                length: *length as int,
                width: *width as int,
                color: *color,
            },
            DrawCommand::Diamond { center, half_size, width, color } => DrawSpec::Diamond {
                center: (center.0 as int, center.1 as int),
                half_size: *half_size as int,
                width: *width as int,
                color: *color,
            },
            DrawCommand::Text { origin, text, size, color } => DrawSpec::Text {
                origin: (origin.0 as int, origin.1 as int),
                text: text@,
                size: *size as int,
                color: *color,
            },
        }
    }
}

pub open spec fn cmd_views(s: Seq<DrawCommand>) -> Seq<DrawSpec> {
    s.map_values(|c: DrawCommand| c@)
}

/// Whether a world position lies in the range the projection handles.
pub open spec fn drawable(x: i64, y: i64) -> bool {
    in_world(x as int) && in_world(y as int)
}

/// One dot per drawable history point, oldest first.
pub open spec fn dots_of(h: Seq<(i64, i64, i64)>, p: Projection, radius: int, color: Rgba) -> Seq<DrawSpec>
    decreases h.len(),
{
    if h.len() == 0 {
        Seq::empty()
    } else {
        let pt = h.last();
        dots_of(h.drop_last(), p, radius, color) + if drawable(pt.0, pt.1) {
            seq![DrawSpec::Dot { center: p.to_screen_spec(pt.0 as int, pt.1 as int), radius, color }]
        } else {
            Seq::empty()
        }
    }
}

/// Squared screen distance between the symbol of `t` and `at`.
pub open spec fn pick_dist_sq(p: Projection, t: TrackView, at: ScreenPos) -> int {
    let s = p.to_screen_spec(t.info.position.x as int, t.info.position.y as int);
    (s.0 - at.x) * (s.0 - at.x) + (s.1 - at.y) * (s.1 - at.y)
}

/// Whether a click at `at` lands on the symbol of `t`.
pub open spec fn pickable(p: Projection, t: TrackView, at: ScreenPos) -> bool {
    drawable(t.info.position.x, t.info.position.y) && pick_dist_sq(p, t, at) < PICK_RADIUS * PICK_RADIUS
}

pub open spec fn history_cmds(t: TrackView, p: Projection, d: DisplayConfig, c: ColorConfig) -> Seq<DrawSpec> {
    dots_of(t.history, p, d.history_dot_size as int, color_of(c.history@))
}

pub open spec fn vector_cmds(t: TrackView, p: Projection, d: DisplayConfig, c: ColorConfig) -> Seq<DrawSpec> {
    let pos = t.info.position;
    if drawable(pos.x, pos.y) {
        seq![
            DrawSpec::Ray {
                origin: p.to_screen_spec(pos.x as int, pos.y as int),
                angle: planar_angle(t.info.heading),
                length: screen_length(
                    predicted_distance_spec(t.info.ground_speed, d.vector_minutes),
                    p.studs_per_pixel as int,
                ),
                width: VECTOR_WIDTH as int,
                color: color_of(c.vector@),
            },
        ]
    } else {
        Seq::empty()
    }
}

pub open spec fn target_cmds(
    t: TrackView,
    p: Projection,
    d: DisplayConfig,
    c: ColorConfig,
    selected: Option<Seq<char>>,
    time: i64,
) -> Seq<DrawSpec> {
    let pos = t.info.position;
    let color = target_color_spec(t, selected, c, time);
    let center = p.to_screen_spec(pos.x as int, pos.y as int);
    if drawable(pos.x, pos.y) {
        seq![
            DrawSpec::Diamond { center, half_size: 6 * d.target_scale, width: d.target_stroke as int, color },
            DrawSpec::Ray {
                origin: center,
                angle: planar_angle(t.info.heading),
                length: 12 * d.target_scale,
                width: trunc_div(d.target_stroke * 7, 10),
                color,
            },
        ]
    } else {
        Seq::empty()
    }
}

/// The templates of the data tag, in order: lines 1 and 2, then 3 and 4
/// where given.
pub open spec fn tag_templates(g: DataTagConfig) -> Seq<Seq<char>> {
    let base = seq![g.line1@, g.line2@];
    let with3 = match g.line3 {
        Some(l) => base.push(l@),
        None => base,
    };
    match g.line4 {
        Some(l) => with3.push(l@),
        None => with3,
    }
}

pub open spec fn tag_cmds(t: TrackView, p: Projection, d: DisplayConfig, c: ColorConfig, g: DataTagConfig) -> Seq<DrawSpec> {
    let pos = t.info.position;
    let center = p.to_screen_spec(pos.x as int, pos.y as int);
    let lines = tag_templates(g);
    if drawable(pos.x, pos.y) {
        Seq::new(
            lines.len(),
            |k: int|
                DrawSpec::Text {
                    origin: (center.0 + g.offset.0, center.1 + g.offset.1 + k * g.line_spacing),
                    text: expand(lines[k], t),
                    size: d.font_size as int,
                    color: color_of(c.tag_text@),
                },
        )
    } else {
        Seq::empty()
    }
}

/// The commands `g` gives for each aircraft of `f`, in order.
pub open spec fn concat_map(f: Seq<TrackView>, g: spec_fn(TrackView) -> Seq<DrawSpec>) -> Seq<DrawSpec>
    decreases f.len(),
{
    if f.len() == 0 {
        Seq::empty()
    } else {
        concat_map(f.drop_last(), g) + g(f.last())
    }
}

proof fn lemma_concat_map_step(f: Seq<TrackView>, i: int, g: spec_fn(TrackView) -> Seq<DrawSpec>)
    requires
        0 <= i < f.len(),
    ensures
        concat_map(f.subrange(0, i + 1), g) == concat_map(f.subrange(0, i), g) + g(f[i]),
{
    assert(f.subrange(0, i + 1).drop_last() =~= f.subrange(0, i));
}

/// The whole frame: history dots, predictive vectors, target symbols and
/// data tags, each layer over all aircraft in order.
pub open spec fn frame_spec(
    f: Seq<TrackView>,
    selected: Option<Seq<char>>,
    p: Projection,
    d: DisplayConfig,
    c: ColorConfig,
    g: DataTagConfig,
    time: i64,
) -> Seq<DrawSpec> {
    let history = if d.show_history {
        concat_map(f, history_layer(p, d, c))
    } else {
        Seq::empty()
    };
    let vectors = if d.show_vectors {
        concat_map(f, vector_layer(p, d, c))
    } else {
        Seq::empty()
    };
    let targets = concat_map(f, target_layer(p, d, c, selected, time));
    let tags = if d.show_tags {
        concat_map(f, tag_layer(p, d, c, g))
    } else {
        Seq::empty()
    };
    history + vectors + targets + tags
}

pub open spec fn history_layer(p: Projection, d: DisplayConfig, c: ColorConfig) -> spec_fn(TrackView) -> Seq<DrawSpec> {
    |t: TrackView| history_cmds(t, p, d, c)
}

pub open spec fn vector_layer(p: Projection, d: DisplayConfig, c: ColorConfig) -> spec_fn(TrackView) -> Seq<DrawSpec> {
    |t: TrackView| vector_cmds(t, p, d, c)
}

pub open spec fn target_layer(
    p: Projection,
    d: DisplayConfig,
    c: ColorConfig,
    selected: Option<Seq<char>>,
    time: i64,
) -> spec_fn(TrackView) -> Seq<DrawSpec> {
    |t: TrackView| target_cmds(t, p, d, c, selected, time)
}

pub open spec fn tag_layer(p: Projection, d: DisplayConfig, c: ColorConfig, g: DataTagConfig) -> spec_fn(TrackView) -> Seq<DrawSpec> {
    |t: TrackView| tag_cmds(t, p, d, c, g)
}

fn is_hex_exec(c: char) -> (r: bool)
    ensures
        r == is_hex(c),
{
    ('0' <= c && c <= '9') || ('a' <= c && c <= 'f') || ('A' <= c && c <= 'F')
}

fn hex_value_exec(c: char) -> (r: u8)
    requires
        is_hex(c),
    ensures
        r as int == hex_value(c),
        r < 16,
{
    if '0' <= c && c <= '9' {
        (c as u32 - '0' as u32) as u8
    } else if 'a' <= c && c <= 'f' {
        (c as u32 - 'a' as u32 + 10) as u8
    } else {
        (c as u32 - 'A' as u32 + 10) as u8
    }
}

fn byte_of_exec(a: char, b: char) -> (r: u8)
    ensures
        r as int == byte_of(a, b),
{
    if is_hex_exec(a) && is_hex_exec(b) {
        16 * hex_value_exec(a) + hex_value_exec(b)
    } else if a == '+' && is_hex_exec(b) {
        hex_value_exec(b)
    } else {
        0
    }
}

/// The color a hex string such as "#00FF00" names.
pub fn parse_color(hex: &str) -> (r: Rgba)
    ensures
        r == color_of(hex@),
{
    let ghost s = hex@;
    let n: usize = hex.unicode_len();
    let mut j: usize = 0;
    assert(s.skip(0) =~= s);
    while j < n && hex.get_char(j) == '#'
        invariant
            n == s.len(),
            s == hex@,
            j <= n,
            strip_hashes(s.skip(j as int)) == strip_hashes(s),
        decreases n - j,
    {
        assert(s.skip(j as int).skip(1) =~= s.skip(j + 1));
        j = j + 1;
    }
    let ghost h = s.skip(j as int);
    assert(strip_hashes(h) == h);
    if n - j == 6 {
        let r = byte_of_exec(hex.get_char(j), hex.get_char(j + 1));
        let g = byte_of_exec(hex.get_char(j + 2), hex.get_char(j + 3));
        let b = byte_of_exec(hex.get_char(j + 4), hex.get_char(j + 5));
        Rgba { r, g, b, a: 255 }
    } else {
        Rgba { r: 255, g: 255, b: 255, a: 255 }
    }
}

/// Whether an emergency target is shown at animation time `time_millis`.
pub fn flash_visible(time_millis: i64) -> (r: bool)
    ensures
        r == flash_on(time_millis as int),
{
    let t: i128 = time_millis as i128;
    let a: i128 = if t < 0 {
        -t
    } else {
        t
    };
    (a / 500) % 2 == 0
}

/// Distance flown at `ground_speed` knots over `vector_minutes` thousandths
/// of a minute, in whole world units, rounded down.
pub fn predicted_distance(ground_speed: i32, vector_minutes: u32) -> (r: i64)
    ensures
        r == predicted_distance_spec(ground_speed, vector_minutes),
{
    let gs: i128 = ground_speed as i128;
    let vm: i128 = vector_minutes as i128;
    proof {
        assert(-0x8000_0000 * 5442765 <= gs * 5442765 <= 0x8000_0000 * 5442765) by (nonlinear_arith)
            requires
                -0x8000_0000 <= gs <= 0x8000_0000;
        assert(-0x8000_0000 * 5442765 * 0x1_0000_0000 <= (gs * 5442765) * vm
            <= 0x8000_0000 * 5442765 * 0x1_0000_0000) by (nonlinear_arith)
            requires
                -0x8000_0000 * 5442765 <= gs * 5442765 <= 0x8000_0000 * 5442765,
                0 <= vm <= 0x1_0000_0000;
    }
    let n: i128 = gs * (STUDS_PER_KNOT_SECOND_E7 as i128) * vm * 60;
    assert(-0x1000_0000_0000_0000_0000_0000 <= n <= 0x1000_0000_0000_0000_0000_0000);
    let q: i128 = floor_div_exec(n, 10_000_000_000);
    proof {
        crate::arith::lemma_floor_div_bounds(n as int, 10_000_000_000);
        assert(-0x1000_0000_0000_0000 <= q <= 0x1000_0000_0000_0000) by (nonlinear_arith)
            requires
                q * 10_000_000_000 <= n < q * 10_000_000_000 + 10_000_000_000,
                -0x1000_0000_0000_0000_0000_0000 <= n <= 0x1000_0000_0000_0000_0000_0000;
    }
    q as i64
}

proof fn lemma_dots_step(h: Seq<(i64, i64, i64)>, k: int, p: Projection, radius: int, color: Rgba)
    requires
        0 <= k < h.len(),
    ensures
        dots_of(h.subrange(0, k + 1), p, radius, color) == dots_of(h.subrange(0, k), p, radius, color) + if drawable(
            h[k].0,
            h[k].1,
        ) {
            seq![DrawSpec::Dot { center: p.to_screen_spec(h[k].0 as int, h[k].1 as int), radius, color }]
        } else {
            Seq::empty()
        },
{
    assert(h.subrange(0, k + 1).drop_last() =~= h.subrange(0, k));
}

/// Selection of a single aircraft, by callsign, and the commands of a
/// frame.
pub struct RadarRenderer {
    pub selected_aircraft: Option<String>,
}

impl RadarRenderer {
    pub open spec fn selected_view(&self) -> Option<Seq<char>> {
        match self.selected_aircraft {
            Some(s) => Some(s@),
            None => None,
        }
    }

    /// Expands a data-tag template for one aircraft: each token is replaced by
    /// its value, unknown tokens and other text are kept.
    pub fn format_tag_line(template: &str, aircraft: &TrackedAircraft) -> (r: String)
        ensures
            r@ == expand(template@, aircraft@),
    {
        let ghost s = template@;
        let ghost t = aircraft@;
        let n: usize = template.unicode_len();
        let mut out = String::new();
        let mut i: usize = 0;
        assert(s.skip(0) =~= s);
        assert(out@ + expand(s, t) =~= expand(s, t));
        while i < n
            invariant
                n == s.len(),
                s == template@,
                t == aircraft@,
                i <= n,
                out@ + expand(s.skip(i as int), t) == expand(s, t),
            decreases n - i,
        {
            let ghost before = out@;
            let k: usize = push_token(&mut out, template, n, i, aircraft);
            if k > 0 {
                proof {
                    let rest = s.skip(i as int);
                    assert(rest.skip(k as int) =~= s.skip(i + k));
                    let tv = token_at_start(rest, t).unwrap();
                    assert(expand(rest, t) == tv.1 + expand(rest.skip(tv.0), t));
                    assert(out@ + expand(s.skip(i + k), t) =~= before + expand(rest, t));
                }
                i = i + k;
            } else {
                let c: &str = template.substring_char(i, i + 1);
                out.append(c);
                proof {
                    assert(s.skip(i as int)[0] == s[i as int]);
                    assert(c@ =~= seq![s[i as int]]);
                    assert(s.skip(i as int).skip(1) =~= s.skip(i + 1));
                    let rest = s.skip(i as int);
                    assert(expand(rest, t) == seq![rest[0]] + expand(rest.skip(1), t));
                    assert(out@ + expand(s.skip(i + 1), t) =~= before + expand(rest, t));
                }
                i = i + 1;
            }
        }
        assert(s.skip(n as int) =~= Seq::<char>::empty());
        assert(out@ =~= out@ + Seq::<char>::empty());
        out
    }

    /// The aircraft whose symbol a click at `screen_pos` lands on: the
    /// nearest one within the pick radius, the first of them on a tie.
    pub fn aircraft_at(projection: &Projection, aircraft: &Vec<TrackedAircraft>, screen_pos: ScreenPos) -> (r: Option<usize>)
        requires
            projection.wf(),
            screen_pos_ok(screen_pos),
        ensures
            ({
                let f = views(aircraft@);
                match r {
                    None => forall|k: int| 0 <= k < f.len() ==> !pickable(*projection, #[trigger] f[k], screen_pos),
                    Some(i) => {
                        &&& i < f.len()
                        &&& pickable(*projection, f[i as int], screen_pos)
                        &&& forall|k: int|
                            0 <= k < f.len() && pickable(*projection, #[trigger] f[k], screen_pos) ==> pick_dist_sq(
                                *projection,
                                f[i as int],
                                screen_pos,
                            ) <= pick_dist_sq(*projection, f[k], screen_pos)
                        &&& forall|k: int|
                            0 <= k < i && pickable(*projection, #[trigger] f[k], screen_pos) ==> pick_dist_sq(
                                *projection,
                                f[i as int],
                                screen_pos,
                            ) < pick_dist_sq(*projection, f[k], screen_pos)
                    },
                }
            }),
    {
        let ghost f = views(aircraft@);
        let ghost p = *projection;
        let mut best: Option<(usize, i128)> = None;
        let mut i: usize = 0;
        while i < aircraft.len()
            invariant
                f == views(aircraft@),
                p == *projection,
                projection.wf(),
                screen_pos_ok(screen_pos),
                i <= f.len(),
                (match best {
                    None => forall|k: int| 0 <= k < i ==> !pickable(p, #[trigger] f[k], screen_pos),
                    Some((b, d)) => {
                        &&& b < i
                        &&& d == pick_dist_sq(p, f[b as int], screen_pos)
                        &&& pickable(p, f[b as int], screen_pos)
                        &&& forall|k: int| 0 <= k < i && pickable(p, #[trigger] f[k], screen_pos) ==> d <= pick_dist_sq(p, f[k], screen_pos)
                        &&& forall|k: int| 0 <= k < b && pickable(p, #[trigger] f[k], screen_pos) ==> d < pick_dist_sq(p, f[k], screen_pos)
                    },
                }),
            decreases f.len() - i,
        {
            let pos = aircraft[i].info.position;
            assert(f[i as int] == aircraft@[i as int]@);
            if -crate::projection::WORLD_LIMIT <= pos.x && pos.x <= crate::projection::WORLD_LIMIT
                && -crate::projection::WORLD_LIMIT <= pos.y && pos.y <= crate::projection::WORLD_LIMIT {
                let at = projection.studs_to_screen(pos.x, pos.y);
                let dx: i128 = at.x as i128 - screen_pos.x as i128;
                let dy: i128 = at.y as i128 - screen_pos.y as i128;
                proof {
                    assert(0 <= dx * dx <= 0x1000_0000_0000_0000_0000_0000_0000) by (nonlinear_arith)
                        requires
                            -0x40_0000_0000_0000 <= dx <= 0x40_0000_0000_0000;
                    assert(0 <= dy * dy <= 0x1000_0000_0000_0000_0000_0000_0000) by (nonlinear_arith)
                        requires
                            -0x40_0000_0000_0000 <= dy <= 0x40_0000_0000_0000;
                }
                let d: i128 = dx * dx + dy * dy;
                assert(d == pick_dist_sq(p, f[i as int], screen_pos));
                if d < PICK_RADIUS as i128 * PICK_RADIUS as i128 {
                    match best {
                        Some((_, bd)) => {
                            if d < bd {
                                best = Some((i, d));
                            }
                        },
                        None => {
                            best = Some((i, d));
                        },
                    }
                }
            }
            i = i + 1;
        }
        match best {
            Some((b, _)) => Some(b),
            None => None,
        }
    }

    /// Selects the aircraft whose symbol a click at `screen_pos` lands on,
    /// or clears the selection when the click lands on none.
    pub fn select_aircraft_at_position(
        &mut self,
        projection: &Projection,
        aircraft: &Vec<TrackedAircraft>,
        screen_pos: ScreenPos,
    )
        requires
            projection.wf(),
            screen_pos_ok(screen_pos),
        ensures
            ({
                let f = views(aircraft@);
                match final(self).selected_view() {
                    None => forall|k: int| 0 <= k < f.len() ==> !pickable(*projection, #[trigger] f[k], screen_pos),
                    Some(c) => (exists|i: int|
                        0 <= i < f.len() && #[trigger] f[i].callsign == c && pickable(*projection, f[i], screen_pos)
                            && (forall|k: int|
                            0 <= k < f.len() && pickable(*projection, #[trigger] f[k], screen_pos) ==> pick_dist_sq(
                                *projection,
                                f[i],
                                screen_pos,
                            ) <= pick_dist_sq(*projection, f[k], screen_pos))),
                }
            }),
    {
        match Self::aircraft_at(projection, aircraft, screen_pos) {
            Some(i) => {
                self.selected_aircraft = Some(aircraft[i].callsign.clone());
                assert(views(aircraft@)[i as int].callsign == aircraft@[i as int].callsign@);
            },
            None => {
                self.selected_aircraft = None;
            },
        }
    }

    /// A renderer with no aircraft selected.
    pub fn new() -> (r: RadarRenderer)
        ensures
            r.selected_aircraft.is_none(),
    {
        RadarRenderer { selected_aircraft: None }
    }

    /// Color of the target symbol of `aircraft` at animation time
    /// `time_millis`.
    pub fn target_color(&self, aircraft: &TrackedAircraft, colors: &ColorConfig, time_millis: i64) -> (r: Rgba)
        ensures
            r == target_color_spec(aircraft@, self.selected_view(), *colors, time_millis),
    {
        let selected: bool = match &self.selected_aircraft {
            Some(s) => *s == aircraft.callsign,
            None => false,
        };
        if aircraft.info.is_emergency_occuring {
            if flash_visible(time_millis) {
                parse_color(colors.target_emergency.as_str())
            } else {
                Rgba { r: 0, g: 0, b: 0, a: 0 }
            }
        } else if selected {
            parse_color(colors.target_selected.as_str())
        } else if aircraft.info.is_on_ground == Some(true) {
            parse_color(colors.ground.as_str())
        } else {
            parse_color(colors.target.as_str())
        }
    }

    fn push_history(
        out: &mut Vec<DrawCommand>,
        aircraft: &TrackedAircraft,
        p: &Projection,
        d: &DisplayConfig,
        c: &ColorConfig,
    )
        requires
            p.wf(),
        ensures
            cmd_views(final(out)@) == cmd_views(old(out)@) + history_cmds(aircraft@, *p, *d, *c),
    {
        let color = parse_color(c.history.as_str());
        let ghost base = cmd_views(out@);
        let ghost h = aircraft.history@;
        let mut k: usize = 0;
        assert(cmd_views(out@) =~= base + dots_of(h.subrange(0, 0), *p, d.history_dot_size as int, color));
        while k < aircraft.history.len()
            invariant
                p.wf(),
                h == aircraft.history@,
                k <= h.len(),
                color == color_of(c.history@),
                cmd_views(out@) == base + dots_of(h.subrange(0, k as int), *p, d.history_dot_size as int, color),
            decreases h.len() - k,
        {
            let (x, y, _) = aircraft.history[k];
            let ghost before = cmd_views(out@);
            proof {
                lemma_dots_step(h, k as int, *p, d.history_dot_size as int, color);
            }
            if -crate::projection::WORLD_LIMIT <= x && x <= crate::projection::WORLD_LIMIT
                && -crate::projection::WORLD_LIMIT <= y && y <= crate::projection::WORLD_LIMIT {
                let at = p.studs_to_screen(x, y);
                out.push(DrawCommand::Dot { center: (at.x, at.y), radius: d.history_dot_size, color });
                assert(cmd_views(out@) =~= before + seq![
                    DrawSpec::Dot {
                        center: p.to_screen_spec(x as int, y as int),
                        radius: d.history_dot_size as int,
                        color,
                    },
                ]);
            } else {
                assert(cmd_views(out@) =~= before + Seq::<DrawSpec>::empty());
            }
            k = k + 1;
        }
        assert(h.subrange(0, k as int) =~= h);
    }

    fn push_vector(
        out: &mut Vec<DrawCommand>,
        aircraft: &TrackedAircraft,
        p: &Projection,
        d: &DisplayConfig,
        c: &ColorConfig,
    )
        requires
            p.wf(),
        ensures
            cmd_views(final(out)@) == cmd_views(old(out)@) + vector_cmds(aircraft@, *p, *d, *c),
    {
        let ghost base = cmd_views(out@);
        let pos = aircraft.info.position;
        if -crate::projection::WORLD_LIMIT <= pos.x && pos.x <= crate::projection::WORLD_LIMIT
            && -crate::projection::WORLD_LIMIT <= pos.y && pos.y <= crate::projection::WORLD_LIMIT {
            let at = p.studs_to_screen(pos.x, pos.y);
            let dist: i64 = predicted_distance(aircraft.info.ground_speed, d.vector_minutes);
            let scaled: i128 = floor_div_exec(dist as i128 * PRECISION as i128, p.studs_per_pixel as i128);
            let length: i128 = if scaled < -(RAY_LIMIT as i128) {
                -(RAY_LIMIT as i128)
            } else if scaled > RAY_LIMIT as i128 {
                RAY_LIMIT as i128
            } else {
                scaled
            };
            let color = parse_color(c.vector.as_str());
            out.push(
                DrawCommand::Ray {
                    origin: (at.x, at.y),
                    angle: aircraft.info.heading as i64 - 90,
                    length: length as i64,
                    width: VECTOR_WIDTH,
                    color,
                },
            );
            assert(cmd_views(out@) =~= base + vector_cmds(aircraft@, *p, *d, *c));
        } else {
            assert(cmd_views(out@) =~= base + vector_cmds(aircraft@, *p, *d, *c));
        }
    }

    fn push_target(
        &self,
        out: &mut Vec<DrawCommand>,
        aircraft: &TrackedAircraft,
        p: &Projection,
        d: &DisplayConfig,
        c: &ColorConfig,
        time_millis: i64,
    )
        requires
            p.wf(),
            d.wf(),
        ensures
            cmd_views(final(out)@) == cmd_views(old(out)@) + target_cmds(
                aircraft@,
                *p,
                *d,
                *c,
                self.selected_view(),
                time_millis,
            ),
    {
        let ghost base = cmd_views(out@);
        let pos = aircraft.info.position;
        if -crate::projection::WORLD_LIMIT <= pos.x && pos.x <= crate::projection::WORLD_LIMIT
            && -crate::projection::WORLD_LIMIT <= pos.y && pos.y <= crate::projection::WORLD_LIMIT {
            let at = p.studs_to_screen(pos.x, pos.y);
            let color = self.target_color(aircraft, c, time_millis);
            let half: i64 = 6 * d.target_scale;
            out.push(DrawCommand::Diamond { center: (at.x, at.y), half_size: half, width: d.target_stroke, color });
            out.push(
                DrawCommand::Ray {
                    origin: (at.x, at.y),
                    angle: aircraft.info.heading as i64 - 90,
                    length: 12 * d.target_scale,
                    width: d.target_stroke * 7 / 10,
                    color,
                },
            );
            assert(cmd_views(out@) =~= base + target_cmds(
                aircraft@,
                *p,
                *d,
                *c,
                self.selected_view(),
                time_millis,
            ));
        } else {
            assert(cmd_views(out@) =~= base + target_cmds(
                aircraft@,
                *p,
                *d,
                *c,
                self.selected_view(),
                time_millis,
            ));
        }
    }

    fn push_text(
        out: &mut Vec<DrawCommand>,
        origin: (i64, i64),
        template: &str,
        aircraft: &TrackedAircraft,
        size: i64,
        color: Rgba,
    )
        ensures
            cmd_views(final(out)@) == cmd_views(old(out)@).push(
                DrawSpec::Text {
                    origin: (origin.0 as int, origin.1 as int),
                    text: expand(template@, aircraft@),
                    size: size as int,
                    color,
                },
            ),
    {
        let text = Self::format_tag_line(template, aircraft);
        out.push(DrawCommand::Text { origin, text, size, color });
        assert(cmd_views(final(out)@) =~= cmd_views(old(out)@).push(
            DrawSpec::Text {
                origin: (origin.0 as int, origin.1 as int),
                text: expand(template@, aircraft@),
                size: size as int,
                color,
            },
        ));
    }

    fn push_tags(
        out: &mut Vec<DrawCommand>,
        aircraft: &TrackedAircraft,
        p: &Projection,
        d: &DisplayConfig,
        c: &ColorConfig,
        g: &DataTagConfig,
    )
        requires
            p.wf(),
            g.wf(),
        ensures
            cmd_views(final(out)@) == cmd_views(old(out)@) + tag_cmds(aircraft@, *p, *d, *c, *g),
    {
        let ghost base = cmd_views(out@);
        let pos = aircraft.info.position;
        if -crate::projection::WORLD_LIMIT <= pos.x && pos.x <= crate::projection::WORLD_LIMIT
            && -crate::projection::WORLD_LIMIT <= pos.y && pos.y <= crate::projection::WORLD_LIMIT {
            let at = p.studs_to_screen(pos.x, pos.y);
            let color = parse_color(c.tag_text.as_str());
            let x: i64 = at.x + g.offset.0;
            let y: i64 = at.y + g.offset.1;
            let ghost center = p.to_screen_spec(pos.x as int, pos.y as int);
            let ghost lines = tag_templates(*g);
            let ghost t = aircraft@;
            let ghost mk = |k: int, l: Seq<char>|
                DrawSpec::Text {
                    origin: (center.0 + g.offset.0, center.1 + g.offset.1 + k * g.line_spacing),
                    text: expand(l, t),
                    size: d.font_size as int,
                    color: color_of(c.tag_text@),
                };
            assert(center.0 == at.x && center.1 == at.y);
            Self::push_text(out, (x, y), g.line1.as_str(), aircraft, d.font_size, color);
            let ghost pushed = seq![g.line1@];
            assert(cmd_views(out@) =~= base + Seq::new(pushed.len(), |k: int| mk(k, pushed[k])));
            let ghost prev = cmd_views(out@);
            Self::push_text(out, (x, y + g.line_spacing), g.line2.as_str(), aircraft, d.font_size, color);
            assert(cmd_views(out@) == prev.push(mk(1, g.line2@)));
            let ghost pushed = pushed.push(g.line2@);
            assert(cmd_views(out@) =~= base + Seq::new(pushed.len(), |k: int| mk(k, pushed[k])));
            let mut k: i64 = 2;
            match &g.line3 {
                Some(l) => {
                    let ghost prev = cmd_views(out@);
                    Self::push_text(out, (x, y + 2 * g.line_spacing), l.as_str(), aircraft, d.font_size, color);
                    assert(cmd_views(out@) == prev.push(mk(2, l@)));
                    k = 3;
                    proof {
                        pushed = pushed.push(l@);
                    }
                    assert(cmd_views(out@) =~= base + Seq::new(pushed.len(), |k: int| mk(k, pushed[k])));
                },
                None => {},
            }
            match &g.line4 {
                Some(l) => {
                    let ghost prev = cmd_views(out@);
                    Self::push_text(out, (x, y + k * g.line_spacing), l.as_str(), aircraft, d.font_size, color);
                    assert(cmd_views(out@) == prev.push(mk(k as int, l@)));
                    proof {
                        pushed = pushed.push(l@);
                    }
                    assert(cmd_views(out@) =~= base + Seq::new(pushed.len(), |k: int| mk(k, pushed[k])));
                },
                None => {},
            }
            assert(pushed =~= lines);
            assert(cmd_views(out@) =~= base + tag_cmds(aircraft@, *p, *d, *c, *g));
        } else {
            assert(cmd_views(out@) =~= base + tag_cmds(aircraft@, *p, *d, *c, *g));
        }
    }

    /// The draw commands of one frame: history dots, predictive vectors,
    /// target symbols and data tags, each layer over all aircraft in order,
    /// so that no tag is covered by a symbol.
    pub fn render(
        &self,
        projection: &Projection,
        aircraft: &Vec<TrackedAircraft>,
        display_config: &DisplayConfig,
        color_config: &ColorConfig,
        tag_config: &DataTagConfig,
        time_millis: i64,
    ) -> (r: Vec<DrawCommand>)
        requires
            projection.wf(),
            display_config.wf(),
            tag_config.wf(),
        ensures
            cmd_views(r@) == frame_spec(
                views(aircraft@),
                self.selected_view(),
                *projection,
                *display_config,
                *color_config,
                *tag_config,
                time_millis,
            ),
    {
        let ghost f = views(aircraft@);
        let ghost p = *projection;
        let ghost d = *display_config;
        let ghost c = *color_config;
        let ghost g = *tag_config;
        let mut out: Vec<DrawCommand> = Vec::new();
        let n: usize = aircraft.len();
        assert(cmd_views(out@) =~= Seq::<DrawSpec>::empty());

        let ghost layer = history_layer(p, d, c);
        if display_config.show_history {
            let mut i: usize = 0;
            assert(concat_map(f.subrange(0, 0), layer) =~= Seq::<DrawSpec>::empty());
            assert(cmd_views(out@) =~= concat_map(f.subrange(0, 0), layer));
            while i < n
                invariant
                    n == aircraft@.len(),
                    f == views(aircraft@),
                    p == *projection,
                    d == *display_config,
                    c == *color_config,
                    layer == history_layer(p, d, c),
                    projection.wf(),
                    i <= n,
                    cmd_views(out@) == concat_map(f.subrange(0, i as int), layer),
                decreases n - i,
            {
                Self::push_history(&mut out, &aircraft[i], projection, display_config, color_config);
                proof {
                    lemma_concat_map_step(f, i as int, layer);
                }
                i = i + 1;
            }
            assert(f.subrange(0, n as int) =~= f);
        }
        let ghost after_history = cmd_views(out@);

        let ghost layer = vector_layer(p, d, c);
        if display_config.show_vectors {
            let mut i: usize = 0;
            assert(concat_map(f.subrange(0, 0), layer) =~= Seq::<DrawSpec>::empty());
            assert(cmd_views(out@) =~= after_history + concat_map(f.subrange(0, 0), layer));
            while i < n
                invariant
                    n == aircraft@.len(),
                    f == views(aircraft@),
                    p == *projection,
                    d == *display_config,
                    c == *color_config,
                    layer == vector_layer(p, d, c),
                    projection.wf(),
                    i <= n,
                    cmd_views(out@) == after_history + concat_map(f.subrange(0, i as int), layer),
                decreases n - i,
            {
                Self::push_vector(&mut out, &aircraft[i], projection, display_config, color_config);
                proof {
                    lemma_concat_map_step(f, i as int, layer);
                }
                i = i + 1;
            }
            assert(f.subrange(0, n as int) =~= f);
        } else {
            assert(cmd_views(out@) =~= after_history + Seq::<DrawSpec>::empty());
        }
        let ghost after_vectors = cmd_views(out@);

        let ghost layer = target_layer(p, d, c, self.selected_view(), time_millis);
        let mut i: usize = 0;
        assert(concat_map(f.subrange(0, 0), layer) =~= Seq::<DrawSpec>::empty());
        assert(cmd_views(out@) =~= after_vectors + concat_map(f.subrange(0, 0), layer));
        while i < n
            invariant
                n == aircraft@.len(),
                f == views(aircraft@),
                p == *projection,
                d == *display_config,
                c == *color_config,
                layer == target_layer(p, d, c, self.selected_view(), time_millis),
                projection.wf(),
                display_config.wf(),
                i <= n,
                cmd_views(out@) == after_vectors + concat_map(f.subrange(0, i as int), layer),
            decreases n - i,
        {
            self.push_target(&mut out, &aircraft[i], projection, display_config, color_config, time_millis);
            proof {
                lemma_concat_map_step(f, i as int, layer);
            }
            i = i + 1;
        }
        assert(f.subrange(0, n as int) =~= f);
        let ghost after_targets = cmd_views(out@);

        let ghost layer = tag_layer(p, d, c, g);
        if display_config.show_tags {
            let mut i: usize = 0;
            assert(concat_map(f.subrange(0, 0), layer) =~= Seq::<DrawSpec>::empty());
            assert(cmd_views(out@) =~= after_targets + concat_map(f.subrange(0, 0), layer));
            while i < n
                invariant
                    n == aircraft@.len(),
                    f == views(aircraft@),
                    p == *projection,
                    d == *display_config,
                    c == *color_config,
                    g == *tag_config,
                    layer == tag_layer(p, d, c, g),
                    projection.wf(),
                    tag_config.wf(),
                    i <= n,
                    cmd_views(out@) == after_targets + concat_map(f.subrange(0, i as int), layer),
                decreases n - i,
            {
                Self::push_tags(&mut out, &aircraft[i], projection, display_config, color_config, tag_config);
                proof {
                    lemma_concat_map_step(f, i as int, layer);
                }
                i = i + 1;
            }
            assert(f.subrange(0, n as int) =~= f);
        } else {
            assert(cmd_views(out@) =~= after_targets + Seq::<DrawSpec>::empty());
        }
        out
    }
}

impl Default for RadarRenderer {
    fn default() -> (r: Self)
        ensures
            r.selected_aircraft.is_none(),
    {
        RadarRenderer::new()
    }
}

/// The emergency flash has a period of exactly 1000 ms: at every
/// non-negative animation time the target is shown during the first 500 ms
/// of each second and hidden during the last 500 ms.
pub proof fn lemma_flash_period(t: int)
    requires
        t >= 0,
    ensures
        flash_on(t) <==> t % 1000 < 500,
        flash_on(t + 1000) == flash_on(t),
        flash_on(t + 500) != flash_on(t),
{
    lemma_flash_window(t);
    lemma_flash_window(t + 1000);
    lemma_flash_window(t + 500);
    crate::arith::lemma_floor_div_bounds(t, 1000);
    let q = t / 1000;
    let r = t % 1000;
    vstd::arithmetic::div_mod::lemma_fundamental_div_mod(t, 1000);
    vstd::arithmetic::div_mod::lemma_fundamental_div_mod_converse(t + 1000, 1000, q + 1, r);
    if r < 500 {
        vstd::arithmetic::div_mod::lemma_fundamental_div_mod_converse(t + 500, 1000, q, r + 500);
    } else {
        vstd::arithmetic::div_mod::lemma_fundamental_div_mod_converse(t + 500, 1000, q + 1, r - 500);
    }
}

proof fn lemma_flash_window(t: int)
    requires
        t >= 0,
    ensures
        flash_on(t) <==> t % 1000 < 500,
{
    vstd::arithmetic::div_mod::lemma_fundamental_div_mod(t, 1000);
    let q = t / 1000;
    let r = t % 1000;
    assert(0 <= r < 1000);
    if r < 500 {
        vstd::arithmetic::div_mod::lemma_fundamental_div_mod_converse(t, 500, 2 * q, r);
        vstd::arithmetic::div_mod::lemma_fundamental_div_mod_converse(2 * q, 2, q, 0);
    } else {
        vstd::arithmetic::div_mod::lemma_fundamental_div_mod_converse(t, 500, 2 * q + 1, r - 500);
        vstd::arithmetic::div_mod::lemma_fundamental_div_mod_converse(2 * q + 1, 2, q, 1);
    }
}

} // verus!
