//! Conversion between world coordinates and screen coordinates, and the
//! pan and zoom state of the view.
//!
//! World coordinates are whole world units ("studs"); −y is North and −x is
//! West. Screen coordinates are thousandths of a pixel, +y pointing down.
//! The scale is held in thousandths of a world unit per pixel.

use vstd::prelude::*;
use crate::arith::{
    ceil_div, ceil_div_exec, floor_div, floor_div_exec, lemma_ceil_div_bounds, lemma_ceil_div_unique,
    lemma_floor_div_bounds,
};

verus! {

/// Largest magnitude of a world coordinate that the projection handles.
pub const WORLD_LIMIT: i64 = 1_000_000_000_000;

/// Largest magnitude of a screen coordinate, in thousandths of a pixel.
pub const SCREEN_LIMIT: i64 = 1_000_000_000_000;

/// Largest magnitude of the screen position of a world point.
pub const SCREEN_REACH: i64 = 5_000_000_000_000_000;

/// Largest magnitude of the view center.
pub const CENTER_LIMIT: i64 = 3_000_000_000_000;

/// Smallest scale: one world unit per pixel.
pub const MIN_SCALE: i64 = 1_000;

/// Largest scale: a thousand world units per pixel.
pub const MAX_SCALE: i64 = 1_000_000;

/// Scale of a new view: a hundred world units per pixel.
pub const DEFAULT_SCALE: i64 = 100_000;

/// Thousandths of a pixel per pixel times thousandths of a world unit per
/// world unit.
pub const PRECISION: i64 = 1_000_000;

/// A point on screen, in thousandths of a pixel.
#[derive(Debug, Clone, Copy, PartialEq, Eq, Structural)]
pub struct ScreenPos {
    pub x: i64,
    pub y: i64,
}

/// The view: which world point sits at the middle of the screen, and how
/// many world units one pixel covers.
#[derive(Debug, Clone, Copy)]
pub struct Projection {
    /// World point shown at the middle of the screen.
    pub center: (i64, i64),
    /// Thousandths of a world unit per pixel.
    pub studs_per_pixel: i64,
    /// Screen width, in thousandths of a pixel.
    pub screen_width: i64,
    /// Screen height, in thousandths of a pixel.
    pub screen_height: i64,
}

pub open spec fn in_world(v: int) -> bool {
    -WORLD_LIMIT <= v <= WORLD_LIMIT
}

pub open spec fn on_screen_range(v: int) -> bool {
    -SCREEN_LIMIT <= v <= SCREEN_LIMIT
}

pub open spec fn screen_pos_ok(p: ScreenPos) -> bool {
    on_screen_range(p.x as int) && on_screen_range(p.y as int)
}

pub open spec fn clamp(v: int, lo: int, hi: int) -> int {
    if v < lo {
        lo
    } else if v > hi {
        hi
    } else {
        v
    }
}

/// Screen coordinate of world coordinate `w` along one axis.
pub open spec fn axis_to_screen(w: int, center: int, extent: int, scale: int) -> int {
    extent / 2 + floor_div((w - center) * PRECISION, scale)
}

/// World coordinate of screen coordinate `p` along one axis.
pub open spec fn axis_to_world(p: int, center: int, extent: int, scale: int) -> int {
    center + ceil_div((p - extent / 2) * scale, PRECISION as int)
}

/// Scale after one zoom step: nine tenths when zooming in, eleven tenths
/// when zooming out, kept within the scale range.
pub open spec fn zoomed_scale(scale: int, zoom_in: bool) -> int {
    let raw = if zoom_in {
        scale * 9 / 10
    } else {
        scale * 11 / 10
    };
    clamp(raw, MIN_SCALE as int, MAX_SCALE as int)
}

impl Projection {
    pub open spec fn wf(&self) -> bool {
        &&& -CENTER_LIMIT <= self.center.0 <= CENTER_LIMIT
        &&& -CENTER_LIMIT <= self.center.1 <= CENTER_LIMIT
        &&& MIN_SCALE <= self.studs_per_pixel <= MAX_SCALE
        &&& 0 <= self.screen_width <= SCREEN_LIMIT
        &&& 0 <= self.screen_height <= SCREEN_LIMIT
    }

    pub open spec fn to_screen_spec(&self, x: int, y: int) -> (int, int) {
        (
            axis_to_screen(x, self.center.0 as int, self.screen_width as int, self.studs_per_pixel as int),
            axis_to_screen(y, self.center.1 as int, self.screen_height as int, self.studs_per_pixel as int),
        )
    }

    pub open spec fn to_world_spec(&self, px: int, py: int) -> (int, int) {
        (
            axis_to_world(px, self.center.0 as int, self.screen_width as int, self.studs_per_pixel as int),
            axis_to_world(py, self.center.1 as int, self.screen_height as int, self.studs_per_pixel as int),
        )
    }

    /// The view after one zoom step, anchored at `anchor` when one is given.
    pub open spec fn zoom_spec(&self, delta: i64, anchor: Option<ScreenPos>) -> Projection {
        let scale = zoomed_scale(self.studs_per_pixel as int, delta > 0);
        let rescaled = Projection { studs_per_pixel: scale as i64, ..*self };
        match anchor {
            None => rescaled,
            Some(a) => {
                let before = self.to_world_spec(a.x as int, a.y as int);
                let after = rescaled.to_world_spec(a.x as int, a.y as int);
                Projection {
                    center: (
                        clamp(self.center.0 + before.0 - after.0, -CENTER_LIMIT as int, CENTER_LIMIT as int) as i64,
                        clamp(self.center.1 + before.1 - after.1, -CENTER_LIMIT as int, CENTER_LIMIT as int) as i64,
                    ),
                    ..rescaled
                }
            },
        }
    }

    /// A view centered on the world origin at the default scale.
    pub fn new(screen_width: i64, screen_height: i64) -> (r: Projection)
        requires
            0 <= screen_width <= SCREEN_LIMIT,
            0 <= screen_height <= SCREEN_LIMIT,
        ensures
            r.wf(),
            r.center == (0i64, 0i64),
            r.studs_per_pixel == DEFAULT_SCALE,
            r.screen_width == screen_width,
            r.screen_height == screen_height,
    {
        Projection { center: (0, 0), studs_per_pixel: DEFAULT_SCALE, screen_width, screen_height }
    }

    /// Screen position of a world point.
    pub fn studs_to_screen(&self, studs_x: i64, studs_y: i64) -> (r: ScreenPos)
        requires
            self.wf(),
            in_world(studs_x as int),
            in_world(studs_y as int),
        ensures
            (r.x as int, r.y as int) == self.to_screen_spec(studs_x as int, studs_y as int),
            -SCREEN_REACH <= r.x <= SCREEN_REACH,
            -SCREEN_REACH <= r.y <= SCREEN_REACH,
    {
        let p: i128 = PRECISION as i128;
        let s: i128 = self.studs_per_pixel as i128;
        let dx: i128 = (studs_x as i128 - self.center.0 as i128) * p;
        let dy: i128 = (studs_y as i128 - self.center.1 as i128) * p;
        let ox: i128 = floor_div_exec(dx, s);
        let oy: i128 = floor_div_exec(dy, s);
        proof {
            lemma_floor_div_bounds(dx as int, s as int);
            lemma_floor_div_bounds(dy as int, s as int);
            assert(-4_000_000_000_000_000 <= ox <= 4_000_000_000_000_000) by (nonlinear_arith)
                requires
                    ox * s <= dx < ox * s + s,
                    1000 <= s,
                    -4_000_000_000_000_000_000 <= dx <= 4_000_000_000_000_000_000;
            assert(-4_000_000_000_000_000 <= oy <= 4_000_000_000_000_000) by (nonlinear_arith)
                requires
                    oy * s <= dy < oy * s + s,
                    1000 <= s,
                    -4_000_000_000_000_000_000 <= dy <= 4_000_000_000_000_000_000;
        }
        ScreenPos {
            x: (self.screen_width / 2) + ox as i64,
            y: (self.screen_height / 2) + oy as i64,
        }
    }

    /// World point under a screen position.
    pub fn screen_to_studs(&self, screen_pos: ScreenPos) -> (r: (i64, i64))
        requires
            self.wf(),
            screen_pos_ok(screen_pos),
        ensures
            (r.0 as int, r.1 as int) == self.to_world_spec(screen_pos.x as int, screen_pos.y as int),
            -CENTER_LIMIT - 2 * SCREEN_LIMIT <= r.0 <= CENTER_LIMIT + 2 * SCREEN_LIMIT,
            -CENTER_LIMIT - 2 * SCREEN_LIMIT <= r.1 <= CENTER_LIMIT + 2 * SCREEN_LIMIT,
    {
        let p: i128 = PRECISION as i128;
        let s: i128 = self.studs_per_pixel as i128;
        let ex: i128 = screen_pos.x as i128 - (self.screen_width / 2) as i128;
        let ey: i128 = screen_pos.y as i128 - (self.screen_height / 2) as i128;
        proof {
            assert(-2_000_000_000_000 * s <= ex * s <= 2_000_000_000_000 * s) by (nonlinear_arith)
                requires
                    -2_000_000_000_000 <= ex <= 2_000_000_000_000,
                    0 < s;
            assert(-2_000_000_000_000 * s <= ey * s <= 2_000_000_000_000 * s) by (nonlinear_arith)
                requires
                    -2_000_000_000_000 <= ey <= 2_000_000_000_000,
                    0 < s;
        }
        let dx: i128 = ex * s;
        let dy: i128 = ey * s;
        let ox: i128 = ceil_div_exec(dx, p);
        let oy: i128 = ceil_div_exec(dy, p);
        proof {
            lemma_ceil_div_bounds(dx as int, p as int);
            lemma_ceil_div_bounds(dy as int, p as int);
            assert(-2 * SCREEN_LIMIT <= ox <= 2 * SCREEN_LIMIT) by (nonlinear_arith)
                requires
                    ox * p - p < dx <= ox * p,
                    p == 1_000_000,
                    -2_000_000_000_000 * s <= dx <= 2_000_000_000_000 * s,
                    s <= 1_000_000;
            assert(-2 * SCREEN_LIMIT <= oy <= 2 * SCREEN_LIMIT) by (nonlinear_arith)
                requires
                    oy * p - p < dy <= oy * p,
                    p == 1_000_000,
                    -2_000_000_000_000 * s <= dy <= 2_000_000_000_000 * s,
                    s <= 1_000_000;
        }
        (self.center.0 + ox as i64, self.center.1 + oy as i64)
    }

    /// Moves the view by a drag of `delta_screen`: the world under the
    /// cursor follows the cursor, so the center moves the opposite way.
    pub fn pan(&mut self, delta_screen: ScreenPos)
        requires
            old(self).wf(),
            screen_pos_ok(delta_screen),
        ensures
            final(self).wf(),
            final(self).center.0 == clamp(
                old(self).center.0 - floor_div(delta_screen.x * old(self).studs_per_pixel, PRECISION as int),
                -CENTER_LIMIT as int,
                CENTER_LIMIT as int,
            ),
            final(self).center.1 == clamp(
                old(self).center.1 - floor_div(delta_screen.y * old(self).studs_per_pixel, PRECISION as int),
                -CENTER_LIMIT as int,
                CENTER_LIMIT as int,
            ),
            final(self).studs_per_pixel == old(self).studs_per_pixel,
            final(self).screen_width == old(self).screen_width,
            final(self).screen_height == old(self).screen_height,
    {
        let s: i128 = self.studs_per_pixel as i128;
        let ex: i128 = delta_screen.x as i128;
        let ey: i128 = delta_screen.y as i128;
        proof {
            assert(-SCREEN_LIMIT * s <= ex * s <= SCREEN_LIMIT * s) by (nonlinear_arith)
                requires
                    -SCREEN_LIMIT <= ex <= SCREEN_LIMIT,
                    0 < s;
            assert(-SCREEN_LIMIT * s <= ey * s <= SCREEN_LIMIT * s) by (nonlinear_arith)
                requires
                    -SCREEN_LIMIT <= ey <= SCREEN_LIMIT,
                    0 < s;
        }
        let dx: i128 = floor_div_exec(ex * s, PRECISION as i128);
        let dy: i128 = floor_div_exec(ey * s, PRECISION as i128);
        proof {
            lemma_floor_div_bounds(ex * s, PRECISION as int);
            lemma_floor_div_bounds(ey * s, PRECISION as int);
            assert(-2 * SCREEN_LIMIT <= dx <= 2 * SCREEN_LIMIT) by (nonlinear_arith)
                requires
                    dx * 1_000_000 <= ex * s < dx * 1_000_000 + 1_000_000,
                    -SCREEN_LIMIT * s <= ex * s <= SCREEN_LIMIT * s,
                    0 < s <= 1_000_000;
            assert(-2 * SCREEN_LIMIT <= dy <= 2 * SCREEN_LIMIT) by (nonlinear_arith)
                requires
                    dy * 1_000_000 <= ey * s < dy * 1_000_000 + 1_000_000,
                    -SCREEN_LIMIT * s <= ey * s <= SCREEN_LIMIT * s,
                    0 < s <= 1_000_000;
        }
        self.center = (
            clamp_exec(self.center.0 - dx as i64, -CENTER_LIMIT, CENTER_LIMIT),
            clamp_exec(self.center.1 - dy as i64, -CENTER_LIMIT, CENTER_LIMIT),
        );
    }

    /// Zooms in one step when `delta` is positive, out otherwise. With an
    /// anchor, the world point under the anchor stays where it is.
    pub fn zoom(&mut self, delta: i64, mouse_pos: Option<ScreenPos>)
        requires
            old(self).wf(),
            mouse_pos matches Some(a) ==> screen_pos_ok(a),
        ensures
            final(self).wf(),
            *final(self) == old(self).zoom_spec(delta, mouse_pos),
    {
        let raw: i64 = if delta > 0 {
            self.studs_per_pixel * 9 / 10
        } else {
            self.studs_per_pixel * 11 / 10
        };
        let scale: i64 = clamp_exec(raw, MIN_SCALE, MAX_SCALE);
        match mouse_pos {
            Some(mouse) => {
                let before = self.screen_to_studs(mouse);
                self.studs_per_pixel = scale;
                let after = self.screen_to_studs(mouse);
                self.center = (
                    clamp_exec(self.center.0 + before.0 - after.0, -CENTER_LIMIT, CENTER_LIMIT),
                    clamp_exec(self.center.1 + before.1 - after.1, -CENTER_LIMIT, CENTER_LIMIT),
                );
            },
            None => {
                self.studs_per_pixel = scale;
            },
        }
    }

    /// Records a new screen size.
    pub fn update_screen_size(&mut self, width: i64, height: i64)
        requires
            old(self).wf(),
            0 <= width <= SCREEN_LIMIT,
            0 <= height <= SCREEN_LIMIT,
        ensures
            final(self).wf(),
            final(self).screen_width == width,
            final(self).screen_height == height,
            final(self).center == old(self).center,
            final(self).studs_per_pixel == old(self).studs_per_pixel,
    {
        self.screen_width = width;
        self.screen_height = height;
    }
}

pub fn clamp_exec(v: i64, lo: i64, hi: i64) -> (r: i64)
    requires
        lo <= hi,
    ensures
        r == clamp(v as int, lo as int, hi as int),
{
    if v < lo {
        lo
    } else if v > hi {
        hi
    } else {
        v
    }
}

/// Along one axis, the screen coordinate of a world coordinate maps back to
/// that same world coordinate, whatever the center and valid scale.
pub proof fn lemma_axis_round_trip(w: int, center: int, extent: int, scale: int)
    requires
        MIN_SCALE <= scale <= MAX_SCALE,
    ensures
        axis_to_world(axis_to_screen(w, center, extent, scale), center, extent, scale) == w,
{
    let n = (w - center) * PRECISION;
    let q = floor_div(n, scale);
    lemma_floor_div_bounds(n, scale);
    assert(q * scale <= n < q * scale + scale);
    assert((w - center) * PRECISION - PRECISION < q * scale <= (w - center) * PRECISION);
    lemma_ceil_div_unique(q * scale, PRECISION as int, w - center);
    assert(axis_to_screen(w, center, extent, scale) - extent / 2 == q);
}

/// Mapping a world point to the screen and back gives the same world point,
/// for every valid view.
pub proof fn lemma_screen_round_trip(p: Projection, x: int, y: int)
    requires
        p.wf(),
    ensures
        ({
            let s = p.to_screen_spec(x, y);
            p.to_world_spec(s.0, s.1) == (x, y)
        }),
{
    lemma_axis_round_trip(x, p.center.0 as int, p.screen_width as int, p.studs_per_pixel as int);
    lemma_axis_round_trip(y, p.center.1 as int, p.screen_height as int, p.studs_per_pixel as int);
}

/// Zooming with an anchor keeps the world point under the anchor, whenever
/// that point lies in the world range.
pub proof fn lemma_zoom_keeps_anchor(p: Projection, delta: i64, anchor: ScreenPos)
    requires
        p.wf(),
        screen_pos_ok(anchor),
        in_world(p.to_world_spec(anchor.x as int, anchor.y as int).0),
        in_world(p.to_world_spec(anchor.x as int, anchor.y as int).1),
    ensures
        p.zoom_spec(delta, Some(anchor)).to_world_spec(anchor.x as int, anchor.y as int)
            == p.to_world_spec(anchor.x as int, anchor.y as int),
{
    let scale = zoomed_scale(p.studs_per_pixel as int, delta > 0);
    let ex = anchor.x - p.screen_width / 2;
    let ey = anchor.y - p.screen_height / 2;
    lemma_ceil_div_bounds(ex * scale, PRECISION as int);
    lemma_ceil_div_bounds(ey * scale, PRECISION as int);
    let cx = ceil_div(ex * scale, PRECISION as int);
    let cy = ceil_div(ey * scale, PRECISION as int);
    assert(-2 * SCREEN_LIMIT <= cx <= 2 * SCREEN_LIMIT) by (nonlinear_arith)
        requires
            cx * 1_000_000 - 1_000_000 < ex * scale <= cx * 1_000_000,
            -2 * SCREEN_LIMIT <= ex <= 2 * SCREEN_LIMIT,
            0 < scale <= 1_000_000;
    assert(-2 * SCREEN_LIMIT <= cy <= 2 * SCREEN_LIMIT) by (nonlinear_arith)
        requires
            cy * 1_000_000 - 1_000_000 < ey * scale <= cy * 1_000_000,
            -2 * SCREEN_LIMIT <= ey <= 2 * SCREEN_LIMIT,
            0 < scale <= 1_000_000;
}

} // verus!
