//! The shared state store: tracked-aircraft records, controller positions, ATIS,
//! the configuration snapshot and the connection status.
//!
//! Every reader gets its own copy. Aircraft are keyed by callsign and ATIS
//! by airport; each key occurs at most once.

use vstd::prelude::*;
use crate::config::{is_default_config, RadarConfig};
use crate::types::{
    now_millis, track_new, track_updated, AircraftInfo, Atis, ControllerPosition, FlightPlan,
    TrackView, TrackedAircraft,
};

verus! {

/// Connection and data-flow status, for display.
#[derive(Debug, Clone, Copy, PartialEq, Eq)]
pub struct ConnectionStatus {
    pub websocket_connected: bool,
    /// Time of the latest aircraft batch, in milliseconds.
    pub last_data_received: Option<i64>,
    pub aircraft_count: usize,
    pub event_aircraft_count: usize,
}

impl Default for ConnectionStatus {
    fn default() -> (r: Self)
        ensures
            !r.websocket_connected,
            r.last_data_received.is_none(),
            r.aircraft_count == 0,
            r.event_aircraft_count == 0,
    {
        ConnectionStatus {
            websocket_connected: false,
            last_data_received: None,
            aircraft_count: 0,
            event_aircraft_count: 0,
        }
    }
}

/// The store.
pub struct RadarState {
    pub aircraft: Vec<TrackedAircraft>,
    pub controllers: Vec<ControllerPosition>,
    pub atis: Vec<Atis>,
    pub config: RadarConfig,
    pub connection_status: ConnectionStatus,
}

/// Views of a list of aircraft records.
pub open spec fn views(s: Seq<TrackedAircraft>) -> Seq<TrackView> {
    s.map_values(|t: TrackedAircraft| t@)
}

/// Whether some aircraft of `f` has the callsign `c`.
pub open spec fn has_callsign(f: Seq<TrackView>, c: Seq<char>) -> bool {
    exists|i: int| 0 <= i < f.len() && #[trigger] f[i].callsign == c
}

/// The index of the aircraft with callsign `c`, when there is one.
pub open spec fn callsign_index(f: Seq<TrackView>, c: Seq<char>) -> int {
    choose|i: int| 0 <= i < f.len() && #[trigger] f[i].callsign == c
}

/// Whether no two aircraft of `f` share a callsign.
pub open spec fn callsigns_unique(f: Seq<TrackView>) -> bool {
    forall|i: int, j: int|
        0 <= i < f.len() && 0 <= j < f.len() && #[trigger] f[i].callsign == #[trigger] f[j].callsign
            ==> i == j
}

/// The aircraft after the sample `info` for callsign `c` arrived at `now`:
/// a known aircraft is updated in place, a new one is added at the end.
pub open spec fn upsert(f: Seq<TrackView>, c: Seq<char>, info: AircraftInfo, max: nat, now: i64) -> Seq<TrackView> {
    if has_callsign(f, c) {
        let i = callsign_index(f, c);
        f.update(i, track_updated(f[i], info, max, now))
    } else {
        f.push(track_new(c, info, now))
    }
}

/// The aircraft after every sample of `batch` was taken in, in order.
pub open spec fn upsert_all(
    f: Seq<TrackView>,
    batch: Seq<(String, AircraftInfo)>,
    max: nat,
    now: i64,
) -> Seq<TrackView>
    decreases batch.len(),
{
    if batch.len() == 0 {
        f
    } else {
        upsert(upsert_all(f, batch.drop_last(), max, now), batch.last().0@, batch.last().1, max, now)
    }
}

/// The aircraft after a flight plan for callsign `c` arrived: attached to
/// the aircraft of that callsign, or dropped when there is none.
pub open spec fn attach_plan(f: Seq<TrackView>, plan: FlightPlan) -> Seq<TrackView> {
    if has_callsign(f, plan.callsign@) {
        let i = callsign_index(f, plan.callsign@);
        f.update(i, TrackView { flight_plan: Some(plan), ..f[i] })
    } else {
        f
    }
}

/// Whether an aircraft last updated at `last` is still fresh at `now`.
pub open spec fn is_fresh(last: i64, now: i64, max_age_secs: i64) -> bool {
    now - last < max_age_secs * 1000
}

/// The aircraft of `f` that are still fresh at `now`, in order.
pub open spec fn keep_fresh(f: Seq<TrackView>, now: i64, max_age_secs: i64) -> Seq<TrackView>
    decreases f.len(),
{
    if f.len() == 0 {
        f
    } else if is_fresh(f.last().last_update, now, max_age_secs) {
        keep_fresh(f.drop_last(), now, max_age_secs).push(f.last())
    } else {
        keep_fresh(f.drop_last(), now, max_age_secs)
    }
}

/// The stored controller positions after `payload` arrived: the payload
/// replaces the whole list.
pub open spec fn controllers_after(stored: Seq<ControllerPosition>, payload: Seq<ControllerPosition>) -> Seq<ControllerPosition> {
    payload
}

/// Whether some ATIS of `s` is for airport `a`.
pub open spec fn has_airport(s: Seq<Atis>, a: Seq<char>) -> bool {
    exists|i: int| 0 <= i < s.len() && #[trigger] s[i].airport@ == a
}

pub open spec fn airport_index(s: Seq<Atis>, a: Seq<char>) -> int {
    choose|i: int| 0 <= i < s.len() && #[trigger] s[i].airport@ == a
}

pub open spec fn airports_unique(s: Seq<Atis>) -> bool {
    forall|i: int, j: int|
        0 <= i < s.len() && 0 <= j < s.len() && #[trigger] s[i].airport@ == #[trigger] s[j].airport@
            ==> i == j
}

/// The ATIS records after `atis` arrived: it replaces the record of its
/// airport, or is added at the end.
pub open spec fn put_atis(s: Seq<Atis>, atis: Atis) -> Seq<Atis> {
    if has_airport(s, atis.airport@) {
        s.update(airport_index(s, atis.airport@), atis)
    } else {
        s.push(atis)
    }
}

impl RadarState {
    pub open spec fn fleet(&self) -> Seq<TrackView> {
        views(self.aircraft@)
    }

    pub open spec fn controller_list(&self) -> Seq<ControllerPosition> {
        self.controllers@
    }

    pub open spec fn atis_list(&self) -> Seq<Atis> {
        self.atis@
    }

    pub open spec fn config_spec(&self) -> RadarConfig {
        self.config
    }

    pub open spec fn status_spec(&self) -> ConnectionStatus {
        self.connection_status
    }

    pub open spec fn wf(&self) -> bool {
        &&& callsigns_unique(self.fleet())
        &&& airports_unique(self.atis@)
    }

    /// An empty store with the default configuration.
    pub fn new() -> (r: RadarState)
        ensures
            r.wf(),
            r.fleet().len() == 0,
            r.controller_list().len() == 0,
            r.atis_list().len() == 0,
            is_default_config(r.config_spec()),
            r.status_spec() == (ConnectionStatus {
                websocket_connected: false,
                last_data_received: None,
                aircraft_count: 0,
                event_aircraft_count: 0,
            }),
    {
        let r = RadarState {
            aircraft: Vec::new(),
            controllers: Vec::new(),
            atis: Vec::new(),
            config: RadarConfig::default(),
            connection_status: ConnectionStatus::default(),
        };
        assert(r.fleet() =~= Seq::<TrackView>::empty());
        r
    }

    /// Index of the aircraft with the given callsign, if any.
    fn find_aircraft(&self, callsign: &String) -> (r: Option<usize>)
        requires
            self.wf(),
        ensures
            match r {
                Some(i) => i < self.fleet().len() && has_callsign(self.fleet(), callsign@)
                    && i == callsign_index(self.fleet(), callsign@),
                None => !has_callsign(self.fleet(), callsign@),
            },
    {
        let mut i: usize = 0;
        while i < self.aircraft.len()
            invariant
                self.wf(),
                i <= self.aircraft@.len(),
                forall|k: int| 0 <= k < i ==> #[trigger] self.fleet()[k].callsign != callsign@,
            decreases self.aircraft@.len() - i,
        {
            if self.aircraft[i].callsign == *callsign {
                proof {
                    let f = self.fleet();
                    assert(f[i as int].callsign == callsign@);
                    assert(has_callsign(f, callsign@));
                    let j = callsign_index(f, callsign@);
                    assert(f[j].callsign == f[i as int].callsign);
                }
                return Some(i);
            }
            i = i + 1;
        }
        None
    }

    /// Takes in one sample for `callsign`, received at time `now`.
    fn upsert_aircraft(&mut self, callsign: String, info: AircraftInfo, max_history: usize, now: i64)
        requires
            old(self).wf(),
        ensures
            final(self).wf(),
            final(self).fleet() == upsert(old(self).fleet(), callsign@, info, max_history as nat, now),
            final(self).controllers == old(self).controllers,
            final(self).atis == old(self).atis,
            final(self).config == old(self).config,
            final(self).connection_status == old(self).connection_status,
    {
        let ghost f = self.fleet();
        match self.find_aircraft(&callsign) {
            Some(i) => {
                let mut t = self.aircraft.remove(i);
                t.update_at(info, max_history, now);
                self.aircraft.insert(i, t);
                proof {
                    assert(self.fleet() =~= f.update(i as int, track_updated(f[i as int], info, max_history as nat, now)));
                    assert forall|a: int, b: int|
                        0 <= a < self.fleet().len() && 0 <= b < self.fleet().len()
                            && #[trigger] self.fleet()[a].callsign == #[trigger] self.fleet()[b].callsign
                        implies a == b by {
                        assert(self.fleet()[a].callsign == f[a].callsign);
                        assert(self.fleet()[b].callsign == f[b].callsign);
                    }
                }
            },
            None => {
                let t = TrackedAircraft::new_at(callsign, info, now);
                self.aircraft.push(t);
                proof {
                    assert(self.fleet() =~= f.push(track_new(callsign@, info, now)));
                    assert forall|a: int, b: int|
                        0 <= a < self.fleet().len() && 0 <= b < self.fleet().len()
                            && #[trigger] self.fleet()[a].callsign == #[trigger] self.fleet()[b].callsign
                        implies a == b by {
                        if a < f.len() && b == f.len() {
                            assert(f[a].callsign == callsign@);
                        } else if b < f.len() && a == f.len() {
                            assert(f[b].callsign == callsign@);
                        }
                    }
                }
            },
        }
    }

    /// Takes in a batch of samples, keyed by callsign, received at time
    /// `now`, and records the new aircraft count and data time.
    pub fn update_aircraft_batch_at(&mut self, aircraft_map: Vec<(String, AircraftInfo)>, now: i64)
        requires
            old(self).wf(),
        ensures
            final(self).wf(),
            final(self).fleet() == upsert_all(
                old(self).fleet(),
                aircraft_map@,
                old(self).config.display.history_length as nat,
                now,
            ),
            final(self).controllers == old(self).controllers,
            final(self).atis == old(self).atis,
            final(self).config == old(self).config,
            final(self).connection_status.aircraft_count == final(self).fleet().len(),
            final(self).connection_status.last_data_received == Some(now),
            final(self).connection_status.websocket_connected == old(self).connection_status.websocket_connected,
            final(self).connection_status.event_aircraft_count == old(self).connection_status.event_aircraft_count,
    {
        let max_history: usize = self.config.display.history_length;
        let ghost start = self.fleet();
        let ghost batch = aircraft_map@;
        let n: usize = aircraft_map.len();
        let mut rest = aircraft_map;
        let mut k: usize = 0;
        while rest.len() > 0
            invariant
                self.wf(),
                k <= batch.len(),
                k + rest@.len() == batch.len(),
                n == batch.len(),
                rest@ == batch.subrange(k as int, batch.len() as int),
                self.fleet() == upsert_all(start, batch.subrange(0, k as int), max_history as nat, now),
                max_history == old(self).config.display.history_length,
                self.controllers == old(self).controllers,
                self.atis == old(self).atis,
                self.config == old(self).config,
                self.connection_status == old(self).connection_status,
            decreases rest@.len(),
        {
            let (callsign, info) = rest.remove(0);
            proof {
                assert(batch[k as int] == (callsign, info));
                assert(batch.subrange(0, k + 1).drop_last() =~= batch.subrange(0, k as int));
            }
            self.upsert_aircraft(callsign, info, max_history, now);
            k = k + 1;
        }
        assert(batch.subrange(0, k as int) =~= batch);
        let count: usize = self.aircraft.len();
        self.connection_status.aircraft_count = count;
        self.connection_status.last_data_received = Some(now);
    }

    /// Takes in a batch of samples, keyed by callsign, received now.
    pub fn update_aircraft_batch(&mut self, aircraft_map: Vec<(String, AircraftInfo)>)
        requires
            old(self).wf(),
        ensures
            final(self).wf(),
            ({
                let now = final(self).connection_status.last_data_received.unwrap();
                final(self).fleet() == upsert_all(
                    old(self).fleet(),
                    aircraft_map@,
                    old(self).config.display.history_length as nat,
                    now,
                )
            }),
            final(self).connection_status.last_data_received.is_some(),
            final(self).connection_status.aircraft_count == final(self).fleet().len(),
            final(self).connection_status.websocket_connected == old(self).connection_status.websocket_connected,
            final(self).connection_status.event_aircraft_count == old(self).connection_status.event_aircraft_count,
            final(self).controllers == old(self).controllers,
            final(self).atis == old(self).atis,
            final(self).config == old(self).config,
    {
        let now = now_millis();
        self.update_aircraft_batch_at(aircraft_map, now);
    }

    /// Copies of all aircraft records.
    pub fn get_aircraft(&self) -> (r: Vec<TrackedAircraft>)
        ensures
            views(r@) == self.fleet(),
    {
        let mut r: Vec<TrackedAircraft> = Vec::new();
        let mut i: usize = 0;
        while i < self.aircraft.len()
            invariant
                i <= self.aircraft@.len(),
                views(r@) == self.fleet().subrange(0, i as int),
            decreases self.aircraft@.len() - i,
        {
            let ghost before = r@;
            let c = self.aircraft[i].clone();
            r.push(c);
            assert(views(r@) =~= views(before).push(self.fleet()[i as int]));
            i = i + 1;
            assert(views(r@) =~= self.fleet().subrange(0, i as int));
        }
        assert(self.fleet() =~= self.fleet().subrange(0, i as int));
        r
    }

    /// A copy of the aircraft with the given callsign, if there is one.
    pub fn get_aircraft_by_callsign(&self, callsign: &str) -> (r: Option<TrackedAircraft>)
        requires
            self.wf(),
        ensures
            match r {
                Some(t) => has_callsign(self.fleet(), callsign@)
                    && t@ == self.fleet()[callsign_index(self.fleet(), callsign@)],
                None => !has_callsign(self.fleet(), callsign@),
            },
    {
        let key = String::from_str(callsign);
        match self.find_aircraft(&key) {
            Some(i) => Some(self.aircraft[i].clone()),
            None => None,
        }
    }

    /// Drops the aircraft not updated within the last `max_age_secs`
    /// seconds before `now`.
    pub fn clear_stale_aircraft_at(&mut self, max_age_secs: i64, now: i64)
        requires
            old(self).wf(),
        ensures
            final(self).wf(),
            final(self).fleet() == keep_fresh(old(self).fleet(), now, max_age_secs),
            final(self).controllers == old(self).controllers,
            final(self).atis == old(self).atis,
            final(self).config == old(self).config,
            final(self).connection_status == old(self).connection_status,
    {
        let ghost f = self.fleet();
        let mut kept: Vec<TrackedAircraft> = Vec::new();
        let mut i: usize = 0;
        while i < self.aircraft.len()
            invariant
                i <= f.len(),
                f == self.fleet(),
                callsigns_unique(f),
                views(kept@) == keep_fresh(f.subrange(0, i as int), now, max_age_secs),
                callsigns_unique(views(kept@)),
                forall|j: int| 0 <= j < kept@.len() ==> exists|k: int| 0 <= k < i && #[trigger] views(kept@)[j] == f[k],
            decreases f.len() - i,
        {
            let t = &self.aircraft[i];
            let age: i128 = now as i128 - t.last_update as i128;
            let limit: i128 = max_age_secs as i128 * 1000;
            let ghost before = views(kept@);
            proof {
                assert(f.subrange(0, i + 1).drop_last() =~= f.subrange(0, i as int));
                assert(f.subrange(0, i + 1).last() == f[i as int]);
            }
            if age < limit {
                kept.push(t.clone());
                proof {
                    assert(views(kept@) =~= before.push(f[i as int]));
                    assert forall|a: int, b: int|
                        0 <= a < views(kept@).len() && 0 <= b < views(kept@).len()
                            && #[trigger] views(kept@)[a].callsign == #[trigger] views(kept@)[b].callsign
                        implies a == b by {
                        if a < before.len() && b == before.len() {
                            let ka = choose|k: int| 0 <= k < i && #[trigger] before[a] == f[k];
                            assert(f[ka].callsign == f[i as int].callsign);
                        } else if b < before.len() && a == before.len() {
                            let kb = choose|k: int| 0 <= k < i && #[trigger] before[b] == f[k];
                            assert(f[kb].callsign == f[i as int].callsign);
                        }
                    }
                    assert forall|j: int| 0 <= j < kept@.len() implies exists|k: int| 0 <= k < i + 1 && #[trigger] views(kept@)[j] == f[k] by {
                        if j < before.len() {
                            let kj = choose|k: int| 0 <= k < i && #[trigger] before[j] == f[k];
                            assert(views(kept@)[j] == f[kj]);
                        } else {
                            assert(views(kept@)[j] == f[i as int]);
                        }
                    }
                }
            } else {
                proof {
                    assert forall|j: int| 0 <= j < kept@.len() implies exists|k: int| 0 <= k < i + 1 && #[trigger] views(kept@)[j] == f[k] by {
                        let kj = choose|k: int| 0 <= k < i && #[trigger] before[j] == f[k];
                        assert(views(kept@)[j] == f[kj]);
                    }
                }
            }
            i = i + 1;
        }
        assert(f.subrange(0, i as int) =~= f);
        self.aircraft = kept;
    }

    /// Drops the aircraft not updated within the last `max_age_secs`
    /// seconds.
    pub fn clear_stale_aircraft(&mut self, max_age_secs: i64)
        requires
            old(self).wf(),
        ensures
            final(self).wf(),
            exists|now: i64| final(self).fleet() == keep_fresh(old(self).fleet(), now, max_age_secs),
            final(self).controllers == old(self).controllers,
            final(self).atis == old(self).atis,
            final(self).config == old(self).config,
            final(self).connection_status == old(self).connection_status,
    {
        let now = now_millis();
        self.clear_stale_aircraft_at(max_age_secs, now);
    }

    /// Attaches a flight plan to the aircraft of its callsign; a plan for a
    /// callsign with no aircraft record is dropped.
    pub fn update_flight_plan(&mut self, flight_plan: FlightPlan)
        requires
            old(self).wf(),
        ensures
            final(self).wf(),
            final(self).fleet() == attach_plan(old(self).fleet(), flight_plan),
            final(self).controllers == old(self).controllers,
            final(self).atis == old(self).atis,
            final(self).config == old(self).config,
            final(self).connection_status == old(self).connection_status,
    {
        let ghost f = self.fleet();
        match self.find_aircraft(&flight_plan.callsign) {
            Some(i) => {
                let mut t = self.aircraft.remove(i);
                let ghost plan = flight_plan;
                t.flight_plan = Some(flight_plan);
                self.aircraft.insert(i, t);
                proof {
                    assert(self.fleet() =~= f.update(i as int, TrackView { flight_plan: Some(plan), ..f[i as int] }));
                    assert forall|a: int, b: int|
                        0 <= a < self.fleet().len() && 0 <= b < self.fleet().len()
                            && #[trigger] self.fleet()[a].callsign == #[trigger] self.fleet()[b].callsign
                        implies a == b by {
                        assert(self.fleet()[a].callsign == f[a].callsign);
                        assert(self.fleet()[b].callsign == f[b].callsign);
                    }
                }
            },
            None => {},
        }
    }

    /// Replaces the whole list of controller positions.
    pub fn update_controllers(&mut self, positions: Vec<ControllerPosition>)
        ensures
            final(self).controller_list() == controllers_after(old(self).controller_list(), positions@),
            final(self).aircraft == old(self).aircraft,
            final(self).atis == old(self).atis,
            final(self).config == old(self).config,
            final(self).connection_status == old(self).connection_status,
    {
        self.controllers = positions;
    }

    /// Copies of all controller positions.
    pub fn get_controllers(&self) -> (r: Vec<ControllerPosition>)
        ensures
            r@.len() == self.controller_list().len(),
            forall|i: int| 0 <= i < r@.len() ==> #[trigger] r@[i].same_as(&self.controller_list()[i]),
    {
        let mut r: Vec<ControllerPosition> = Vec::new();
        let mut i: usize = 0;
        while i < self.controllers.len()
            invariant
                i <= self.controllers@.len(),
                r@.len() == i,
                forall|k: int| 0 <= k < i ==> #[trigger] r@[k].same_as(&self.controllers@[k]),
            decreases self.controllers@.len() - i,
        {
            r.push(self.controllers[i].clone());
            i = i + 1;
        }
        r
    }

    /// Stores the ATIS of an airport, replacing the earlier one.
    pub fn update_atis(&mut self, atis: Atis)
        requires
            old(self).wf(),
        ensures
            final(self).wf(),
            final(self).atis_list() == put_atis(old(self).atis_list(), atis),
            final(self).aircraft == old(self).aircraft,
            final(self).controllers == old(self).controllers,
            final(self).config == old(self).config,
            final(self).connection_status == old(self).connection_status,
    {
        let ghost s = self.atis@;
        let ghost new_airport = atis.airport@;
        match self.find_atis(&atis.airport) {
            Some(i) => {
                self.atis.set(i, atis);
                proof {
                    assert forall|a: int, b: int|
                        0 <= a < self.atis@.len() && 0 <= b < self.atis@.len()
                            && #[trigger] self.atis@[a].airport@ == #[trigger] self.atis@[b].airport@
                        implies a == b by {
                        assert(self.atis@[a].airport@ == s[a].airport@);
                        assert(self.atis@[b].airport@ == s[b].airport@);
                    }
                }
            },
            None => {
                self.atis.push(atis);
                proof {
                    assert forall|a: int, b: int|
                        0 <= a < self.atis@.len() && 0 <= b < self.atis@.len()
                            && #[trigger] self.atis@[a].airport@ == #[trigger] self.atis@[b].airport@
                        implies a == b by {
                        if a < s.len() && b == s.len() {
                            assert(s[a].airport@ == new_airport);
                        } else if b < s.len() && a == s.len() {
                            assert(s[b].airport@ == new_airport);
                        }
                    }
                }
            },
        }
    }

    /// Index of the ATIS of the given airport, if any.
    fn find_atis(&self, airport: &String) -> (r: Option<usize>)
        requires
            self.wf(),
        ensures
            match r {
                Some(i) => i < self.atis@.len() && has_airport(self.atis@, airport@)
                    && i == airport_index(self.atis@, airport@),
                None => !has_airport(self.atis@, airport@),
            },
    {
        let mut i: usize = 0;
        while i < self.atis.len()
            invariant
                self.wf(),
                i <= self.atis@.len(),
                forall|k: int| 0 <= k < i ==> #[trigger] self.atis@[k].airport@ != airport@,
            decreases self.atis@.len() - i,
        {
            if self.atis[i].airport == *airport {
                proof {
                    assert(has_airport(self.atis@, airport@));
                    let j = airport_index(self.atis@, airport@);
                    assert(self.atis@[j].airport@ == self.atis@[i as int].airport@);
                }
                return Some(i);
            }
            i = i + 1;
        }
        None
    }

    /// A copy of the ATIS of an airport, if there is one.
    pub fn get_atis(&self, airport: &str) -> (r: Option<Atis>)
        requires
            self.wf(),
        ensures
            match r {
                Some(a) => has_airport(self.atis_list(), airport@)
                    && a.same_as(&self.atis_list()[airport_index(self.atis_list(), airport@)]),
                None => !has_airport(self.atis_list(), airport@),
            },
    {
        let key = String::from_str(airport);
        match self.find_atis(&key) {
            Some(i) => Some(self.atis[i].clone()),
            None => None,
        }
    }

    /// Copies of all ATIS records.
    pub fn get_all_atis(&self) -> (r: Vec<Atis>)
        ensures
            r@.len() == self.atis_list().len(),
            forall|i: int| 0 <= i < r@.len() ==> #[trigger] r@[i].same_as(&self.atis_list()[i]),
    {
        let mut r: Vec<Atis> = Vec::new();
        let mut i: usize = 0;
        while i < self.atis.len()
            invariant
                i <= self.atis@.len(),
                r@.len() == i,
                forall|k: int| 0 <= k < i ==> #[trigger] r@[k].same_as(&self.atis@[k]),
            decreases self.atis@.len() - i,
        {
            r.push(self.atis[i].clone());
            i = i + 1;
        }
        r
    }

    /// Swaps in a whole new configuration snapshot.
    pub fn update_config(&mut self, config: RadarConfig)
        ensures
            final(self).config == config,
            final(self).aircraft == old(self).aircraft,
            final(self).controllers == old(self).controllers,
            final(self).atis == old(self).atis,
            final(self).connection_status == old(self).connection_status,
    {
        self.config = config;
    }

    /// A copy of the configuration snapshot.
    pub fn get_config(&self) -> (r: RadarConfig)
        ensures
            r == self.config_spec(),
    {
        self.config.clone()
    }

    /// Records whether the stream connection is up.
    pub fn set_websocket_connected(&mut self, connected: bool)
        ensures
            final(self).connection_status == (ConnectionStatus {
                websocket_connected: connected,
                ..old(self).connection_status
            }),
            final(self).aircraft == old(self).aircraft,
            final(self).controllers == old(self).controllers,
            final(self).atis == old(self).atis,
            final(self).config == old(self).config,
    {
        self.connection_status.websocket_connected = connected;
    }

    /// A copy of the connection status.
    pub fn get_connection_status(&self) -> (r: ConnectionStatus)
        ensures
            r == self.status_spec(),
    {
        self.connection_status
    }
}

impl Default for RadarState {
    fn default() -> (r: Self)
        ensures
            r.wf(),
            r.fleet().len() == 0,
            r.controller_list().len() == 0,
            r.atis_list().len() == 0,
            is_default_config(r.config_spec()),
    {
        RadarState::new()
    }
}

} // verus!
