//! Classification of inbound messages by their declared type, and their
//! application to the store.
//!
//! Decoding a payload into values is left to the caller; this module
//! decides what each message does.

use vstd::prelude::*;
use crate::config::RadarConfig;
use crate::state::{attach_plan, controllers_after, put_atis, upsert_all, RadarState};
use crate::text::str_eq;
use crate::types::{now_millis, AircraftInfo, Atis, ControllerPosition, FlightPlan};

verus! {

/// The kinds of inbound message, by declared type string.
#[derive(Debug, Clone, Copy, PartialEq, Eq, Structural)]
pub enum MessageKind {
    /// "ACFT_DATA": a batch of aircraft samples.
    AircraftData,
    /// "EVENT_ACFT_DATA": a batch from the event data source.
    EventAircraftData,
    /// "FLIGHT_PLAN": one flight plan.
    FlightPlan,
    /// "EVENT_FLIGHT_PLAN": a flight plan from the event data source.
    EventFlightPlan,
    /// "CONTROLLERS": the full list of controller positions.
    Controllers,
    /// "ATIS": the ATIS of one airport.
    Atis,
    /// Any other type string; ignored.
    Unknown,
}

/// A decoded inbound message.
#[derive(Debug)]
pub enum Message {
    AircraftData(Vec<(String, AircraftInfo)>),
    EventAircraftData(Vec<(String, AircraftInfo)>),
    FlightPlan(FlightPlan),
    EventFlightPlan(FlightPlan),
    Controllers(Vec<ControllerPosition>),
    Atis(Atis),
    Unknown(String),
}

pub open spec fn kind_of(t: Seq<char>) -> MessageKind {
    if t == "ACFT_DATA"@ {
        MessageKind::AircraftData
    } else if t == "EVENT_ACFT_DATA"@ {
        MessageKind::EventAircraftData
    } else if t == "FLIGHT_PLAN"@ {
        MessageKind::FlightPlan
    } else if t == "EVENT_FLIGHT_PLAN"@ {
        MessageKind::EventFlightPlan
    } else if t == "CONTROLLERS"@ {
        MessageKind::Controllers
    } else if t == "ATIS"@ {
        MessageKind::Atis
    } else {
        MessageKind::Unknown
    }
}

/// Whether a kind comes from the event data source.
pub open spec fn is_event_kind(k: MessageKind) -> bool {
    k == MessageKind::EventAircraftData || k == MessageKind::EventFlightPlan
}

/// Whether messages of a kind are applied under a configuration: those of
/// the event source only while it is enabled, unknown ones never.
pub open spec fn accepts_spec(k: MessageKind, config: RadarConfig) -> bool {
    if is_event_kind(k) {
        config.network.enable_event_server
    } else {
        k != MessageKind::Unknown
    }
}

impl Message {
    pub open spec fn kind_spec(&self) -> MessageKind {
        match self {
            Message::AircraftData(_) => MessageKind::AircraftData,
            Message::EventAircraftData(_) => MessageKind::EventAircraftData,
            Message::FlightPlan(_) => MessageKind::FlightPlan,
            Message::EventFlightPlan(_) => MessageKind::EventFlightPlan,
            Message::Controllers(_) => MessageKind::Controllers,
            Message::Atis(_) => MessageKind::Atis,
            Message::Unknown(_) => MessageKind::Unknown,
        }
    }

    pub fn kind(&self) -> (r: MessageKind)
        ensures
            r == self.kind_spec(),
    {
        match self {
            Message::AircraftData(_) => MessageKind::AircraftData,
            Message::EventAircraftData(_) => MessageKind::EventAircraftData,
            Message::FlightPlan(_) => MessageKind::FlightPlan,
            Message::EventFlightPlan(_) => MessageKind::EventFlightPlan,
            Message::Controllers(_) => MessageKind::Controllers,
            Message::Atis(_) => MessageKind::Atis,
            Message::Unknown(_) => MessageKind::Unknown,
        }
    }
}

/// The kind of a message with the declared type string `t`.
pub fn classify(t: &str) -> (r: MessageKind)
    ensures
        r == kind_of(t@),
{
    if str_eq(t, "ACFT_DATA") {
        MessageKind::AircraftData
    } else if str_eq(t, "EVENT_ACFT_DATA") {
        MessageKind::EventAircraftData
    } else if str_eq(t, "FLIGHT_PLAN") {
        MessageKind::FlightPlan
    } else if str_eq(t, "EVENT_FLIGHT_PLAN") {
        MessageKind::EventFlightPlan
    } else if str_eq(t, "CONTROLLERS") {
        MessageKind::Controllers
    } else if str_eq(t, "ATIS") {
        MessageKind::Atis
    } else {
        MessageKind::Unknown
    }
}

/// Whether messages of kind `k` are applied under `config`.
pub fn accepts(k: MessageKind, config: &RadarConfig) -> (r: bool)
    ensures
        r == accepts_spec(k, *config),
{
    match k {
        MessageKind::EventAircraftData | MessageKind::EventFlightPlan => config.network.enable_event_server,
        MessageKind::Unknown => false,
        _ => true,
    }
}

/// What applying `msg`, received at time `now`, does to the store: a
/// message the configuration does not accept leaves it as it was; an
/// accepted one updates the part of the store it is about.
pub open spec fn message_effect(before: RadarState, after: RadarState, msg: Message, now: i64) -> bool {
    &&& after.config == before.config
    &&& !accepts_spec(msg.kind_spec(), before.config) ==> after == before
    &&& accepts_spec(msg.kind_spec(), before.config) ==> match msg {
        Message::AircraftData(b) | Message::EventAircraftData(b) => {
            &&& after.fleet() == upsert_all(before.fleet(), b@, before.config.display.history_length as nat, now)
            &&& after.connection_status.aircraft_count == after.fleet().len()
            &&& after.connection_status.last_data_received == Some(now)
            &&& after.connection_status.websocket_connected == before.connection_status.websocket_connected
            &&& after.connection_status.event_aircraft_count == before.connection_status.event_aircraft_count
            &&& after.controllers == before.controllers
            &&& after.atis == before.atis
        },
        Message::FlightPlan(p) | Message::EventFlightPlan(p) => {
            &&& after.fleet() == attach_plan(before.fleet(), p)
            &&& after.controllers == before.controllers
            &&& after.atis == before.atis
            &&& after.connection_status == before.connection_status
        },
        Message::Controllers(c) => {
            &&& after.controller_list() == controllers_after(before.controller_list(), c@)
            &&& after.aircraft == before.aircraft
            &&& after.atis == before.atis
            &&& after.connection_status == before.connection_status
        },
        Message::Atis(a) => {
            &&& after.atis_list() == put_atis(before.atis_list(), a)
            &&& after.aircraft == before.aircraft
            &&& after.controllers == before.controllers
            &&& after.connection_status == before.connection_status
        },
        Message::Unknown(_) => true,
    }
}

impl RadarState {
    /// Applies one decoded message received at time `now`. A message that
    /// the configuration does not accept changes nothing.
    pub fn apply_message_at(&mut self, msg: Message, now: i64)
        requires
            old(self).wf(),
        ensures
            final(self).wf(),
            message_effect(*old(self), *final(self), msg, now),
    {
        if !accepts(msg.kind(), &self.config) {
            return;
        }
        match msg {
            Message::AircraftData(b) | Message::EventAircraftData(b) => {
                self.update_aircraft_batch_at(b, now);
            },
            Message::FlightPlan(p) | Message::EventFlightPlan(p) => {
                self.update_flight_plan(p);
            },
            Message::Controllers(c) => {
                self.update_controllers(c);
            },
            Message::Atis(a) => {
                self.update_atis(a);
            },
            Message::Unknown(_) => {},
        }
    }

    /// Applies one decoded message received now.
    pub fn apply_message(&mut self, msg: Message)
        requires
            old(self).wf(),
        ensures
            final(self).wf(),
            exists|now: i64| message_effect(*old(self), *final(self), msg, now),
    {
        let now = now_millis();
        self.apply_message_at(msg, now);
    }
}

/// Replaying an identical controller payload leaves the stored list as the
/// first application made it: the list is replaced, never merged, so
/// nothing is duplicated.
pub proof fn lemma_controllers_replay(stored: Seq<ControllerPosition>, payload: Seq<ControllerPosition>)
    ensures
        controllers_after(controllers_after(stored, payload), payload) == controllers_after(stored, payload),
        controllers_after(stored, payload).len() == payload.len(),
{
}

} // verus!
