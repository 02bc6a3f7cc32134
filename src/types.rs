//! The data the radar tracks: aircraft samples, flight plans, controller
//! positions, ATIS, and the per-aircraft history trail.
//!
//! Continuous quantities are held as whole numbers: positions in world
//! units, headings in degrees, altitudes in feet, speeds in knots.

use vstd::prelude::*;

verus! {

/// A history point is recorded only when the aircraft moved farther than
/// this many world units since its previous sample.
pub const HISTORY_SPACING: i64 = 100;

/// Position in world units; −y is North and −x is West.
#[derive(Debug, Clone, Copy, PartialEq, Eq, Structural)]
pub struct Position {
    pub x: i64,
    pub y: i64,
}

/// One sample of an aircraft's state.
#[derive(Debug)]
pub struct AircraftInfo {
    /// Heading in degrees (0-360, 360 = North).
    pub heading: i32,
    /// User name of the pilot.
    pub player_name: String,
    /// Altitude in feet.
    pub altitude: i32,
    /// Aircraft type (e.g. "Airbus A380").
    pub aircraft_type: String,
    pub position: Position,
    /// Indicated airspeed in knots.
    pub speed: i32,
    /// Wind direction and speed (e.g. "357/15").
    pub wind: String,
    /// Whether the aircraft is on the ground; absent for rotorcraft.
    pub is_on_ground: Option<bool>,
    /// Ground speed in knots.
    pub ground_speed: i32,
    pub is_emergency_occuring: bool,
}

/// A filed flight plan, joined to an aircraft by callsign.
#[derive(Debug)]
pub struct FlightPlan {
    pub roblox_name: String,
    pub callsign: String,
    pub real_callsign: String,
    pub aircraft: String,
    /// "IFR" or "VFR".
    pub flight_rules: String,
    /// Departure airport ICAO code.
    pub departing: String,
    /// Arrival airport ICAO code.
    pub arriving: String,
    pub route: String,
    pub flight_level: String,
}

/// An air traffic control position and who holds or waits for it.
#[derive(Debug)]
pub struct ControllerPosition {
    /// User name of the holder, if the position is claimed.
    pub holder: Option<String>,
    /// Unix time in milliseconds at which the position was claimed.
    pub held_since: Option<u64>,
    pub claimable: bool,
    /// Airport ICAO code or area control centre.
    pub airport: String,
    /// Position type: GND, TWR, CTR.
    pub position: String,
    /// User names waiting for the position, in order.
    pub queue: Vec<String>,
}

/// ATIS of one airport.
#[derive(Debug)]
pub struct Atis {
    pub airport: String,
    /// Designator letter.
    pub letter: String,
    /// Full text, lines separated by newlines.
    pub content: String,
    pub lines: Vec<String>,
    /// User name of the last editor, if known.
    pub editor: Option<String>,
}

/// An aircraft under watch, with its trail of earlier positions.
#[derive(Debug)]
pub struct TrackedAircraft {
    pub callsign: String,
    /// Latest sample.
    pub info: AircraftInfo,
    pub flight_plan: Option<FlightPlan>,
    /// Earlier positions as (x, y, time in milliseconds), oldest first.
    pub history: Vec<(i64, i64, i64)>,
    /// Time of the latest sample, in milliseconds.
    pub last_update: i64,
    pub emergency_flash: bool,
}

/// What an aircraft record holds, as mathematical values.
pub struct TrackView {
    pub callsign: Seq<char>,
    pub info: AircraftInfo,
    pub flight_plan: Option<FlightPlan>,
    pub history: Seq<(i64, i64, i64)>,
    pub last_update: i64,
    pub emergency_flash: bool,
}

impl View for TrackedAircraft {
    type V = TrackView;

    open spec fn view(&self) -> TrackView {
        TrackView {
            callsign: self.callsign@,
            info: self.info,
            flight_plan: self.flight_plan,
            history: self.history@,
            last_update: self.last_update,
            emergency_flash: self.emergency_flash,
        }
    }
}

/// Squared planar distance between two positions.
pub open spec fn dist_sq(a: Position, b: Position) -> int {
    (b.x - a.x) * (b.x - a.x) + (b.y - a.y) * (b.y - a.y)
}

/// Whether `b` lies farther than the history spacing from `a`.
pub open spec fn moved_far(a: Position, b: Position) -> bool {
    dist_sq(a, b) > HISTORY_SPACING * HISTORY_SPACING
}

/// The last `max` entries of `h`, or all of them when there are fewer.
pub open spec fn keep_newest(h: Seq<(i64, i64, i64)>, max: nat) -> Seq<(i64, i64, i64)> {
    if h.len() > max {
        h.subrange(h.len() - max, h.len() as int)
    } else {
        h
    }
}

/// The trail after a sample at `next` follows one at `prev` taken at time
/// `prev_time`: the previous position is appended when the aircraft moved
/// far enough, and the oldest points go when the trail grows over `max`.
pub open spec fn trail_after(
    h: Seq<(i64, i64, i64)>,
    prev: Position,
    prev_time: i64,
    next: Position,
    max: nat,
) -> Seq<(i64, i64, i64)> {
    if moved_far(prev, next) {
        keep_newest(h.push((prev.x, prev.y, prev_time)), max)
    } else {
        h
    }
}

/// An aircraft record after the sample `info` arrived at time `now`.
pub open spec fn track_updated(t: TrackView, info: AircraftInfo, max: nat, now: i64) -> TrackView {
    TrackView {
        info,
        history: trail_after(t.history, t.info.position, t.last_update, info.position, max),
        last_update: now,
        ..t
    }
}

/// A newly sighted aircraft.
pub open spec fn track_new(callsign: Seq<char>, info: AircraftInfo, now: i64) -> TrackView {
    TrackView {
        callsign,
        info,
        flight_plan: None,
        history: Seq::empty(),
        last_update: now,
        emergency_flash: false,
    }
}

/// Relies on chrono's `From<SystemTime> for DateTime<Utc>` and
/// `DateTime::timestamp_millis`: the system clock in milliseconds since the
/// Unix epoch, negative for a clock set before 1970. Nothing is promised of
/// its value.
#[verifier::external_body]
pub(crate) fn now_millis() -> (r: i64) {
    chrono::DateTime::<chrono::Utc>::from(std::time::SystemTime::now()).timestamp_millis()
}

pub fn clone_strings(v: &Vec<String>) -> (r: Vec<String>)
    ensures
        r@ == v@,
{
    let mut r: Vec<String> = Vec::new();
    let mut i: usize = 0;
    while i < v.len()
        invariant
            i <= v@.len(),
            r@ == v@.subrange(0, i as int),
        decreases v@.len() - i,
    {
        r.push(v[i].clone());
        i = i + 1;
    }
    assert(r@ =~= v@);
    r
}

pub fn clone_opt_string(v: &Option<String>) -> (r: Option<String>)
    ensures
        r == *v,
{
    match v {
        Some(s) => Some(s.clone()),
        None => None,
    }
}

impl Clone for AircraftInfo {
    fn clone(&self) -> (r: Self)
        ensures
            r == *self,
    {
        AircraftInfo {
            heading: self.heading,
            player_name: self.player_name.clone(),
            altitude: self.altitude,
            aircraft_type: self.aircraft_type.clone(),
            position: self.position,
            speed: self.speed,
            wind: self.wind.clone(),
            is_on_ground: self.is_on_ground,
            ground_speed: self.ground_speed,
            is_emergency_occuring: self.is_emergency_occuring,
        }
    }
}

impl Clone for FlightPlan {
    fn clone(&self) -> (r: Self)
        ensures
            r == *self,
    {
        FlightPlan {
            roblox_name: self.roblox_name.clone(),
            callsign: self.callsign.clone(),
            real_callsign: self.real_callsign.clone(),
            aircraft: self.aircraft.clone(),
            flight_rules: self.flight_rules.clone(),
            departing: self.departing.clone(),
            arriving: self.arriving.clone(),
            route: self.route.clone(),
            flight_level: self.flight_level.clone(),
        }
    }
}

impl ControllerPosition {
    /// Whether two controller positions hold the same values.
    pub open spec fn same_as(&self, o: &ControllerPosition) -> bool {
        &&& self.holder == o.holder
        &&& self.held_since == o.held_since
        &&& self.claimable == o.claimable
        &&& self.airport == o.airport
        &&& self.position == o.position
        &&& self.queue@ == o.queue@
    }
}

impl Clone for ControllerPosition {
    fn clone(&self) -> (r: Self)
        ensures
            r.same_as(self),
    {
        ControllerPosition {
            holder: clone_opt_string(&self.holder),
            held_since: self.held_since,
            claimable: self.claimable,
            airport: self.airport.clone(),
            position: self.position.clone(),
            queue: clone_strings(&self.queue),
        }
    }
}

impl Atis {
    /// Whether two ATIS records hold the same values.
    pub open spec fn same_as(&self, o: &Atis) -> bool {
        &&& self.airport == o.airport
        &&& self.letter == o.letter
        &&& self.content == o.content
        &&& self.lines@ == o.lines@
        &&& self.editor == o.editor
    }
}

impl Clone for Atis {
    fn clone(&self) -> (r: Self)
        ensures
            r.same_as(self),
    {
        Atis {
            airport: self.airport.clone(),
            letter: self.letter.clone(),
            content: self.content.clone(),
            lines: clone_strings(&self.lines),
            editor: clone_opt_string(&self.editor),
        }
    }
}

impl Clone for TrackedAircraft {
    fn clone(&self) -> (r: Self)
        ensures
            r@ == self@,
    {
        let mut history: Vec<(i64, i64, i64)> = Vec::new();
        let mut i: usize = 0;
        while i < self.history.len()
            invariant
                i <= self.history@.len(),
                history@ == self.history@.subrange(0, i as int),
            decreases self.history@.len() - i,
        {
            history.push(self.history[i]);
            i = i + 1;
        }
        assert(history@ =~= self.history@);
        let flight_plan = match &self.flight_plan {
            Some(p) => Some(p.clone()),
            None => None,
        };
        TrackedAircraft {
            callsign: self.callsign.clone(),
            info: self.info.clone(),
            flight_plan,
            history,
            last_update: self.last_update,
            emergency_flash: self.emergency_flash,
        }
    }
}

/// Drops the oldest points of a trail until at most `max` remain.
fn trim_trail(h: &mut Vec<(i64, i64, i64)>, max: usize)
    ensures
        final(h)@ == keep_newest(old(h)@, max as nat),
{
    let ghost start = h@;
    while h.len() > max
        invariant
            h@.len() <= start.len(),
            start.len() <= max || max <= h@.len(),
            start.len() <= max ==> h@ == start,
            h@ == start.subrange(start.len() - h@.len(), start.len() as int),
        decreases h@.len(),
    {
        h.remove(0);
        assert(h@ =~= start.subrange(start.len() - h@.len(), start.len() as int));
    }
    assert(h@ =~= keep_newest(start, max as nat));
}

impl TrackedAircraft {
    /// A newly sighted aircraft, first seen at time `now`.
    pub fn new_at(callsign: String, info: AircraftInfo, now: i64) -> (r: TrackedAircraft)
        ensures
            r@ == track_new(callsign@, info, now),
    {
        let r = TrackedAircraft {
            callsign,
            info,
            flight_plan: None,
            history: Vec::new(),
            last_update: now,
            emergency_flash: false,
        };
        assert(r@.history =~= Seq::<(i64, i64, i64)>::empty());
        r
    }

    /// A newly sighted aircraft, first seen now.
    pub fn new(callsign: String, info: AircraftInfo) -> (r: TrackedAircraft)
        ensures
            r@.callsign == callsign@,
            r@.info == info,
            r@.flight_plan.is_none(),
            r@.history.len() == 0,
            !r@.emergency_flash,
    {
        let now = now_millis();
        TrackedAircraft::new_at(callsign, info, now)
    }

    /// Takes in the sample `info`, received at time `now`, and keeps at most
    /// `max_history` trail points.
    pub fn update_at(&mut self, info: AircraftInfo, max_history: usize, now: i64)
        ensures
            final(self)@ == track_updated(old(self)@, info, max_history as nat, now),
    {
        if self.should_add_history(&info) {
            self.history.push((self.info.position.x, self.info.position.y, self.last_update));
            trim_trail(&mut self.history, max_history);
        }
        self.info = info;
        self.last_update = now;
    }

    /// Takes in the sample `info`, received now, and keeps at most
    /// `max_history` trail points.
    pub fn update(&mut self, info: AircraftInfo, max_history: usize)
        ensures
            final(self)@ == track_updated(old(self)@, info, max_history as nat, final(self)@.last_update),
    {
        let now = now_millis();
        self.update_at(info, max_history, now);
    }

    /// Whether the sample `new_info` lies farther than the history spacing
    /// from the current position.
    pub fn should_add_history(&self, new_info: &AircraftInfo) -> (r: bool)
        ensures
            r == moved_far(self.info.position, new_info.position),
    {
        let dx: i128 = new_info.position.x as i128 - self.info.position.x as i128;
        let dy: i128 = new_info.position.y as i128 - self.info.position.y as i128;
        let limit: i128 = HISTORY_SPACING as i128;
        if dx > limit || dx < -limit || dy > limit || dy < -limit {
            proof {
                assert(dx * dx > limit * limit || dy * dy > limit * limit) by (nonlinear_arith)
                    requires
                        dx > limit || dx < -limit || dy > limit || dy < -limit,
                        limit == 100;
                assert(dx * dx >= 0 && dy * dy >= 0) by (nonlinear_arith);
            }
            true
        } else {
            assert(-100 <= dx <= 100 && -100 <= dy <= 100);
            proof {
                assert(0 <= dx * dx <= 10000 && 0 <= dy * dy <= 10000) by (nonlinear_arith)
                    requires
                        -100 <= dx <= 100,
                        -100 <= dy <= 100;
            }
            let sx: i128 = dx * dx;
            let sy: i128 = dy * dy;
            sx + sy > limit * limit
        }
    }
}

/// An aircraft after the samples of `samples`, each with its arrival time,
/// were taken in, in order, keeping at most `max` trail points.
pub open spec fn track_replay(t: TrackView, samples: Seq<(AircraftInfo, i64)>, max: nat) -> TrackView
    decreases samples.len(),
{
    if samples.len() == 0 {
        t
    } else {
        track_updated(track_replay(t, samples.drop_last(), max), samples.last().0, max, samples.last().1)
    }
}

/// One sample keeps the trail within `max` points, and changes it only
/// when the aircraft moved farther than the history spacing; the point then
/// added is the previous position, at its time.
pub proof fn lemma_trail_step(t: TrackView, info: AircraftInfo, max: nat, now: i64)
    requires
        t.history.len() <= max,
    ensures
        track_updated(t, info, max, now).history.len() <= max,
        !moved_far(t.info.position, info.position) ==> track_updated(t, info, max, now).history == t.history,
        moved_far(t.info.position, info.position) && max > 0 ==> track_updated(t, info, max, now).history.last()
            == (t.info.position.x, t.info.position.y, t.last_update),
{
}

/// For every sequence of samples of one callsign, the trail never holds
/// more than `max` points.
pub proof fn lemma_trail_bounded(
    callsign: Seq<char>,
    first: AircraftInfo,
    first_time: i64,
    samples: Seq<(AircraftInfo, i64)>,
    max: nat,
)
    ensures
        track_replay(track_new(callsign, first, first_time), samples, max).history.len() <= max,
    decreases samples.len(),
{
    if samples.len() > 0 {
        lemma_trail_bounded(callsign, first, first_time, samples.drop_last(), max);
        let prev = track_replay(track_new(callsign, first, first_time), samples.drop_last(), max);
        lemma_trail_step(prev, samples.last().0, max, samples.last().1);
    }
}

} // verus!
