//! The domain events and the two aggregates that are folded from them: the
//! state of one aircraft and the directory of reporting stations.

use crate::adsbtypes::{
    trim, trimmed, ADSBMessage, ADSBMessagePayload, ADSBMessagePayloadView, ADSBMessageView,
    Position,
};
use crate::keyed::{KeyedMap, Replicate};
use vstd::prelude::*;

verus! {

/// A receiver station.
#[derive(Debug, Clone, PartialEq, Eq)]
pub struct Station {
    pub id: String,
    pub name: String,
}

pub struct StationView {
    pub id: Seq<char>,
    pub name: Seq<char>,
}

impl View for Station {
    type V = StationView;

    open spec fn view(&self) -> StationView {
        StationView { id: self.id@, name: self.name@ }
    }
}

impl Replicate for Station {
    open spec fn valid(&self) -> bool {
        true
    }

    fn replicate(&self) -> (r: Self) {
        Station { id: self.id.clone(), name: self.name.clone() }
    }
}

/// A fact about one aircraft, attributed to the station that reported it.
#[derive(Debug, Clone, PartialEq, Eq)]
pub enum AdsbUpdateEvent {
    AircraftIdentified {
        icao_address: String,
        source_station: Station,
        emitter_category: u8,
        callsign: String,
    },
    PositionUpdated {
        icao_address: String,
        source_station: Station,
        altitude: u16,
        position: Position,
    },
    VelocityUpdated {
        icao_address: String,
        source_station: Station,
        heading: u64,
        ground_speed: u64,
        vertical_rate: i16,
    },
}

pub enum AdsbUpdateEventView {
    AircraftIdentified {
        icao_address: Seq<char>,
        source_station: StationView,
        emitter_category: u8,
        callsign: Seq<char>,
    },
    PositionUpdated {
        icao_address: Seq<char>,
        source_station: StationView,
        altitude: u16,
        position: Position,
    },
    VelocityUpdated {
        icao_address: Seq<char>,
        source_station: StationView,
        heading: u64,
        ground_speed: u64,
        vertical_rate: i16,
    },
}

impl AdsbUpdateEventView {
    /// The address of the aircraft that the event is about.
    pub open spec fn icao_address(self) -> Seq<char> {
        match self {
            AdsbUpdateEventView::AircraftIdentified { icao_address, .. } => icao_address,
            AdsbUpdateEventView::PositionUpdated { icao_address, .. } => icao_address,
            AdsbUpdateEventView::VelocityUpdated { icao_address, .. } => icao_address,
        }
    }

    /// The station that reported the event.
    pub open spec fn source_station(self) -> StationView {
        match self {
            AdsbUpdateEventView::AircraftIdentified { source_station, .. } => source_station,
            AdsbUpdateEventView::PositionUpdated { source_station, .. } => source_station,
            AdsbUpdateEventView::VelocityUpdated { source_station, .. } => source_station,
        }
    }
}

impl View for AdsbUpdateEvent {
    type V = AdsbUpdateEventView;

    open spec fn view(&self) -> AdsbUpdateEventView {
        match *self {
            AdsbUpdateEvent::AircraftIdentified {
                icao_address,
                source_station,
                emitter_category,
                callsign,
            } => AdsbUpdateEventView::AircraftIdentified {
                icao_address: icao_address@,
                source_station: source_station@,
                emitter_category,
                callsign: callsign@,
            },
            AdsbUpdateEvent::PositionUpdated { icao_address, source_station, altitude, position } => {
                AdsbUpdateEventView::PositionUpdated {
                    icao_address: icao_address@,
                    source_station: source_station@,
                    altitude,
                    position,
                }
            },
            AdsbUpdateEvent::VelocityUpdated {
                icao_address,
                source_station,
                heading,
                ground_speed,
                vertical_rate,
            } => AdsbUpdateEventView::VelocityUpdated {
                icao_address: icao_address@,
                source_station: source_station@,
                heading,
                ground_speed,
                vertical_rate,
            },
        }
    }
}

/// The event that a report stands for: the payload decides the variant, the
/// callsign loses the white space around it, and the address and the station
/// are carried over as they are.
pub open spec fn translated(m: ADSBMessageView) -> AdsbUpdateEventView {
    let icao_address = m.header.icao_address;
    let source_station = StationView { id: m.station_id, name: m.station_name };
    match m.payload {
        ADSBMessagePayloadView::AircraftIdentification { emitter_category, callsign } => {
            AdsbUpdateEventView::AircraftIdentified {
                icao_address,
                source_station,
                emitter_category,
                callsign: trimmed(callsign),
            }
        },
        ADSBMessagePayloadView::AirbornePosition { altitude, position } => {
            AdsbUpdateEventView::PositionUpdated { icao_address, source_station, altitude, position }
        },
        ADSBMessagePayloadView::AirborneVelocity { heading, ground_speed, vertical_rate } => {
            AdsbUpdateEventView::VelocityUpdated {
                icao_address,
                source_station,
                heading,
                ground_speed,
                vertical_rate,
            }
        },
    }
}

impl AdsbUpdateEvent {
    /// The address of the aircraft that the event is about: the key under
    /// which its state is kept.
    pub fn key(&self) -> (r: String)
        ensures
            r@ == self@.icao_address(),
    {
        match self {
            AdsbUpdateEvent::VelocityUpdated { icao_address, .. } => icao_address.clone(),
            AdsbUpdateEvent::AircraftIdentified { icao_address, .. } => icao_address.clone(),
            AdsbUpdateEvent::PositionUpdated { icao_address, .. } => icao_address.clone(),
        }
    }

    /// The station that reported the event.
    pub fn source_station(&self) -> (r: &Station)
        ensures
            r@ == self@.source_station(),
    {
        match self {
            AdsbUpdateEvent::VelocityUpdated { source_station, .. } => source_station,
            AdsbUpdateEvent::AircraftIdentified { source_station, .. } => source_station,
            AdsbUpdateEvent::PositionUpdated { source_station, .. } => source_station,
        }
    }

    /// Translates a report into its event. Every report has one: there is no
    /// failure, and equal reports give equal events.
    pub fn from(source: ADSBMessage) -> (r: AdsbUpdateEvent)
        ensures
            r@ == translated(source@),
    {
        let icao_address = source.header.icao_address;
        let source_station = Station { id: source.station_id, name: source.station_name };
        match source.payload {
            ADSBMessagePayload::AircraftIdentification { emitter_category, callsign } => {
                AdsbUpdateEvent::AircraftIdentified {
                    icao_address,
                    source_station,
                    emitter_category,
                    callsign: trim(callsign.as_str()),
                }
            },
            ADSBMessagePayload::AirbornePosition { altitude, position } => {
                AdsbUpdateEvent::PositionUpdated { icao_address, source_station, altitude, position }
            },
            ADSBMessagePayload::AirborneVelocity { heading, ground_speed, vertical_rate } => {
                AdsbUpdateEvent::VelocityUpdated {
                    icao_address,
                    source_station,
                    heading,
                    ground_speed,
                    vertical_rate,
                }
            },
        }
    }
}

impl Replicate for AdsbUpdateEvent {
    open spec fn valid(&self) -> bool {
        true
    }

    fn replicate(&self) -> (r: Self) {
        match self {
            AdsbUpdateEvent::AircraftIdentified {
                icao_address,
                source_station,
                emitter_category,
                callsign,
            } => AdsbUpdateEvent::AircraftIdentified {
                icao_address: icao_address.clone(),
                source_station: source_station.replicate(),
                emitter_category: *emitter_category,
                callsign: callsign.clone(),
            },
            AdsbUpdateEvent::PositionUpdated { icao_address, source_station, altitude, position } => {
                AdsbUpdateEvent::PositionUpdated {
                    icao_address: icao_address.clone(),
                    source_station: source_station.replicate(),
                    altitude: *altitude,
                    position: *position,
                }
            },
            AdsbUpdateEvent::VelocityUpdated {
                icao_address,
                source_station,
                heading,
                ground_speed,
                vertical_rate,
            } => AdsbUpdateEvent::VelocityUpdated {
                icao_address: icao_address.clone(),
                source_station: source_station.replicate(),
                heading: *heading,
                ground_speed: *ground_speed,
                vertical_rate: *vertical_rate,
            },
        }
    }
}

/// What is known of one aircraft.
#[derive(Debug, Clone, PartialEq, Eq)]
pub struct AircraftState {
    pub generation: u64,
    pub icao_address: String,
    pub emitter_category: u8,
    pub callsign: String,
    pub altitude: u16,
    pub position: Position,
    pub heading: u64,
    pub ground_speed: u64,
    pub vertical_rate: i16,
    pub last_reporting_station_id: String,
}

pub struct AircraftStateView {
    pub generation: nat,
    pub icao_address: Seq<char>,
    pub emitter_category: u8,
    pub callsign: Seq<char>,
    pub altitude: u16,
    pub position: Position,
    pub heading: u64,
    pub ground_speed: u64,
    pub vertical_rate: i16,
    pub last_reporting_station_id: Seq<char>,
}

impl AircraftStateView {
    /// The state of an aircraft of which nothing was heard yet.
    pub open spec fn unseen() -> AircraftStateView {
        AircraftStateView {
            generation: 0,
            icao_address: Seq::empty(),
            emitter_category: 0,
            callsign: Seq::empty(),
            altitude: 0,
            position: Position { latitude: 0, longitude: 0 },
            heading: 0,
            ground_speed: 0,
            vertical_rate: 0,
            last_reporting_station_id: Seq::empty(),
        }
    }

    /// The state after `e`: the fields of the event's variant are
    /// overwritten, the address and the station are taken from the event, the
    /// generation goes up by one, and every other field stays.
    pub open spec fn applied(self, e: AdsbUpdateEventView) -> AircraftStateView {
        let stamped = AircraftStateView {
            generation: self.generation + 1,
            icao_address: e.icao_address(),
            last_reporting_station_id: e.source_station().id,
            ..self
        };
        match e {
            AdsbUpdateEventView::AircraftIdentified { emitter_category, callsign, .. } => {
                AircraftStateView { emitter_category, callsign, ..stamped }
            },
            AdsbUpdateEventView::PositionUpdated { altitude, position, .. } => {
                AircraftStateView { altitude, position, ..stamped }
            },
            AdsbUpdateEventView::VelocityUpdated { heading, ground_speed, vertical_rate, .. } => {
                AircraftStateView { heading, ground_speed, vertical_rate, ..stamped }
            },
        }
    }

    /// The state after the events of `es`, applied first to last.
    pub open spec fn folded(self, es: Seq<AdsbUpdateEventView>) -> AircraftStateView
        decreases es.len(),
    {
        if es.len() == 0 {
            self
        } else {
            self.folded(es.drop_last()).applied(es.last())
        }
    }
}

impl View for AircraftState {
    type V = AircraftStateView;

    open spec fn view(&self) -> AircraftStateView {
        AircraftStateView {
            generation: self.generation as nat,
            icao_address: self.icao_address@,
            emitter_category: self.emitter_category,
            callsign: self.callsign@,
            altitude: self.altitude,
            position: self.position,
            heading: self.heading,
            ground_speed: self.ground_speed,
            vertical_rate: self.vertical_rate,
            last_reporting_station_id: self.last_reporting_station_id@,
        }
    }
}

impl Default for AircraftState {
    fn default() -> (r: Self)
        ensures
            r@ == AircraftStateView::unseen(),
    {
        AircraftState {
            generation: 0,
            icao_address: String::new(),
            emitter_category: 0,
            callsign: String::new(),
            altitude: 0,
            position: Position { latitude: 0, longitude: 0 },
            heading: 0,
            ground_speed: 0,
            vertical_rate: 0,
            last_reporting_station_id: String::new(),
        }
    }
}

impl Replicate for AircraftState {
    open spec fn valid(&self) -> bool {
        true
    }

    fn replicate(&self) -> (r: Self) {
        AircraftState {
            generation: self.generation,
            icao_address: self.icao_address.clone(),
            emitter_category: self.emitter_category,
            callsign: self.callsign.clone(),
            altitude: self.altitude,
            position: self.position,
            heading: self.heading,
            ground_speed: self.ground_speed,
            vertical_rate: self.vertical_rate,
            last_reporting_station_id: self.last_reporting_station_id.clone(),
        }
    }
}

impl AircraftState {
    /// The number of events that were folded into this state.
    pub fn generation(&self) -> (g: u64)
        ensures
            g == self@.generation,
    {
        self.generation
    }
}

/// The directory of the stations that have reported.
#[derive(Debug, Clone)]
pub struct StationListState {
    pub generation: u64,
    pub stations: KeyedMap<Station>,
}

pub struct StationListStateView {
    pub generation: nat,
    pub stations: Map<Seq<char>, StationView>,
}

impl StationListStateView {
    /// The directory before any event.
    pub open spec fn vacant() -> StationListStateView {
        StationListStateView { generation: 0, stations: Map::empty() }
    }

    /// The directory after `e`: the reporting station is written under its
    /// id, in place of what stood there, and the generation goes up by one.
    pub open spec fn applied(self, e: AdsbUpdateEventView) -> StationListStateView {
        StationListStateView {
            generation: self.generation + 1,
            stations: self.stations.insert(e.source_station().id, e.source_station()),
        }
    }
}

impl View for StationListState {
    type V = StationListStateView;

    open spec fn view(&self) -> StationListStateView {
        StationListStateView { generation: self.generation as nat, stations: self.stations@ }
    }
}

impl StationListState {
    /// No station id occurs twice in the directory.
    pub open spec fn wf(&self) -> bool {
        self.stations.wf()
    }

    /// The number of events that were folded into this state.
    pub fn generation(&self) -> (g: u64)
        ensures
            g == self@.generation,
    {
        self.generation
    }

}

impl Replicate for StationListState {
    open spec fn valid(&self) -> bool {
        self.wf()
    }

    fn replicate(&self) -> (r: Self) {
        StationListState { generation: self.generation, stations: self.stations.duplicate() }
    }
}

impl Default for StationListState {
    fn default() -> (r: Self)
        ensures
            r.wf(),
            r@ == StationListStateView::vacant(),
    {
        StationListState { generation: 0, stations: KeyedMap::new() }
    }
}

/// The aggregate of one aircraft.
pub struct Aircraft;

/// The aggregate of the station directory.
pub struct StationList;

impl Aircraft {
    /// Folds one event into the state of an aircraft. The caller routes to a
    /// state only the events of its aircraft; the address is taken from the
    /// event without a test.
    pub fn apply_event(state: &AircraftState, evt: &AdsbUpdateEvent) -> (r: AircraftState)
        requires
            state.generation < u64::MAX,
        ensures
            r@ == state@.applied(evt@),
    {
        let generation: u64 = state.generation + 1;
        let icao_address = evt.key();
        let last_reporting_station_id = evt.source_station().id.clone();
        match evt {
            AdsbUpdateEvent::AircraftIdentified { emitter_category, callsign, .. } => AircraftState {
                generation,
                icao_address,
                emitter_category: *emitter_category,
                callsign: callsign.clone(),
                altitude: state.altitude,
                position: state.position,
                heading: state.heading,
                ground_speed: state.ground_speed,
                vertical_rate: state.vertical_rate,
                last_reporting_station_id,
            },
            AdsbUpdateEvent::PositionUpdated { altitude, position, .. } => AircraftState {
                generation,
                icao_address,
                emitter_category: state.emitter_category,
                callsign: state.callsign.clone(),
                altitude: *altitude,
                position: *position,
                heading: state.heading,
                ground_speed: state.ground_speed,
                vertical_rate: state.vertical_rate,
                last_reporting_station_id,
            },
            AdsbUpdateEvent::VelocityUpdated { heading, ground_speed, vertical_rate, .. } => {
                AircraftState {
                    generation,
                    icao_address,
                    emitter_category: state.emitter_category,
                    callsign: state.callsign.clone(),
                    altitude: state.altitude,
                    position: state.position,
                    heading: *heading,
                    ground_speed: *ground_speed,
                    vertical_rate: *vertical_rate,
                    last_reporting_station_id,
                }
            },
        }
    }
}

impl StationList {
    /// Folds one event into the directory: whatever the event's variant, the
    /// station that reported it is written under its id.
    pub fn apply_event(state: &StationListState, evt: &AdsbUpdateEvent) -> (r: StationListState)
        requires
            state.wf(),
            state.generation < u64::MAX,
        ensures
            r.wf(),
            r@ == state@.applied(evt@),
    {
        let station = evt.source_station();
        let mut stations = state.stations.duplicate();
        stations.insert(station.id.clone(), station.replicate());
        StationListState { generation: state.generation + 1, stations }
    }
}

/// The event of a report names the report's aircraft and carries the
/// report's station as it is, whatever the payload.
pub proof fn lemma_translation_keeps_origin(m: ADSBMessageView)
    ensures
        translated(m).icao_address() == m.header.icao_address,
        translated(m).source_station() == (StationView { id: m.station_id, name: m.station_name }),
{
}

/// Every event raises the generation of an aircraft by exactly one, records
/// the reporting station, and leaves each field that its variant does not
/// carry as it was; the address stays where the event is about the same
/// aircraft.
pub proof fn lemma_applied_keeps_other_fields(s: AircraftStateView, e: AdsbUpdateEventView)
    ensures
        s.applied(e).generation == s.generation + 1,
        s.applied(e).last_reporting_station_id == e.source_station().id,
        s.applied(e).icao_address == e.icao_address(),
        e.icao_address() == s.icao_address ==> s.applied(e).icao_address == s.icao_address,
        e is AircraftIdentified ==> s.applied(e) == (AircraftStateView {
            generation: s.generation + 1,
            icao_address: e.icao_address(),
            last_reporting_station_id: e.source_station().id,
            emitter_category: e->AircraftIdentified_emitter_category,
            callsign: e->AircraftIdentified_callsign,
            ..s
        }),
        e is PositionUpdated ==> s.applied(e) == (AircraftStateView {
            generation: s.generation + 1,
            icao_address: e.icao_address(),
            last_reporting_station_id: e.source_station().id,
            altitude: e->PositionUpdated_altitude,
            position: e->PositionUpdated_position,
            ..s
        }),
        e is VelocityUpdated ==> s.applied(e) == (AircraftStateView {
            generation: s.generation + 1,
            icao_address: e.icao_address(),
            last_reporting_station_id: e.source_station().id,
            heading: e->VelocityUpdated_heading,
            ground_speed: e->VelocityUpdated_ground_speed,
            vertical_rate: e->VelocityUpdated_vertical_rate,
            ..s
        }),
{
}

/// Applying one event twice in a row gives what applying it once gives, but
/// for the generation, which counts both applications. For an
/// identification the callsign and the emitter category are those of the
/// event after either application.
pub proof fn lemma_applied_twice(s: AircraftStateView, e: AdsbUpdateEventView)
    ensures
        s.applied(e).applied(e) == (AircraftStateView {
            generation: s.generation + 2,
            ..s.applied(e)
        }),
        e is AircraftIdentified ==> {
            &&& s.applied(e).applied(e).callsign == e->AircraftIdentified_callsign
            &&& s.applied(e).callsign == e->AircraftIdentified_callsign
            &&& s.applied(e).applied(e).emitter_category == e->AircraftIdentified_emitter_category
            &&& s.applied(e).emitter_category == e->AircraftIdentified_emitter_category
        },
{
}

/// Folding a run of events raises the generation by the length of the run:
/// none is skipped and none is counted twice.
pub proof fn lemma_folded_generation(s: AircraftStateView, es: Seq<AdsbUpdateEventView>)
    ensures
        s.folded(es).generation == s.generation + es.len(),
    decreases es.len(),
{
    if es.len() > 0 {
        lemma_folded_generation(s, es.drop_last());
    }
}

/// Two events from one station, whatever they say of the aircraft, leave the
/// directory with the entry that the first one wrote; each raises the
/// generation by one.
pub proof fn lemma_station_upsert_idempotent(
    d: StationListStateView,
    e1: AdsbUpdateEventView,
    e2: AdsbUpdateEventView,
)
    requires
        e1.source_station() == e2.source_station(),
    ensures
        d.applied(e1).stations.contains_key(e1.source_station().id),
        d.applied(e1).stations[e1.source_station().id] == e1.source_station(),
        d.applied(e1).applied(e2).stations == d.applied(e1).stations,
        d.applied(e1).generation == d.generation + 1,
        d.applied(e1).applied(e2).generation == d.generation + 2,
{
    assert(d.applied(e1).applied(e2).stations =~= d.applied(e1).stations);
}

} // verus!
