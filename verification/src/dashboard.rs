//! The state behind the dashboard: the stations it lists, the row that is
//! selected among them, and the flights of the selected station. Drawing and
//! keyboard handling are the caller's.

use crate::adsbtypes::Position;
use crate::keyed::{KeyedMap, Replicate};
use crate::textorder::{ascending, is_arrangement, sorted_order, stable, text_le};
use vstd::prelude::*;
use vstd::string::*;

verus! {

/// A station as the dashboard lists it.
#[derive(Debug, Clone, PartialEq, Eq)]
pub struct Station {
    pub name: String,
    pub location: String,
    pub coords: Position,
    pub status: String,
}

pub struct StationView {
    pub name: Seq<char>,
    pub location: Seq<char>,
    pub coords: Position,
    pub status: Seq<char>,
}

impl View for Station {
    type V = StationView;

    open spec fn view(&self) -> StationView {
        StationView {
            name: self.name@,
            location: self.location@,
            coords: self.coords,
            status: self.status@,
        }
    }
}

impl Replicate for Station {
    open spec fn valid(&self) -> bool {
        true
    }

    fn replicate(&self) -> (r: Self) {
        Station {
            name: self.name.clone(),
            location: self.location.clone(),
            coords: self.coords,
            status: self.status.clone(),
        }
    }
}

/// One row of the flight table, every cell as it is shown.
#[derive(Debug, Clone, PartialEq, Eq)]
pub struct Flight {
    pub callsign: String,
    pub position: String,
    pub speed: String,
    pub heading: String,
    pub altitude: String,
    pub last_seen: String,
}

pub struct FlightView {
    pub callsign: Seq<char>,
    pub position: Seq<char>,
    pub speed: Seq<char>,
    pub heading: Seq<char>,
    pub altitude: Seq<char>,
    pub last_seen: Seq<char>,
}

impl View for Flight {
    type V = FlightView;

    open spec fn view(&self) -> FlightView {
        FlightView {
            callsign: self.callsign@,
            position: self.position@,
            speed: self.speed@,
            heading: self.heading@,
            altitude: self.altitude@,
            last_seen: self.last_seen@,
        }
    }
}

impl Replicate for Flight {
    open spec fn valid(&self) -> bool {
        true
    }

    fn replicate(&self) -> (r: Self) {
        Flight {
            callsign: self.callsign.clone(),
            position: self.position.clone(),
            speed: self.speed.clone(),
            heading: self.heading.clone(),
            altitude: self.altitude.clone(),
            last_seen: self.last_seen.clone(),
        }
    }
}

impl Default for Flight {
    fn default() -> (r: Self)
        ensures
            r@ == FlightView::blank(),
    {
        Flight {
            callsign: String::new(),
            position: String::new(),
            speed: String::new(),
            heading: String::new(),
            altitude: String::new(),
            last_seen: String::new(),
        }
    }
}

/// The station of an event as the dashboard receives it.
#[derive(Debug, Clone, PartialEq, Eq)]
pub struct EventStation {
    pub id: String,
    pub name: String,
}

/// What an event says of a flight, every value as it is shown.
#[derive(Debug, Clone, PartialEq, Eq)]
pub enum FlightUpdate {
    Identified { callsign: String },
    Velocity { heading: String, speed: String },
    Position { position: String, altitude: String },
}

pub enum FlightUpdateView {
    Identified { callsign: Seq<char> },
    Velocity { heading: Seq<char>, speed: Seq<char> },
    Position { position: Seq<char>, altitude: Seq<char> },
}

impl View for FlightUpdate {
    type V = FlightUpdateView;

    open spec fn view(&self) -> FlightUpdateView {
        match *self {
            FlightUpdate::Identified { callsign } => FlightUpdateView::Identified {
                callsign: callsign@,
            },
            FlightUpdate::Velocity { heading, speed } => FlightUpdateView::Velocity {
                heading: heading@,
                speed: speed@,
            },
            FlightUpdate::Position { position, altitude } => FlightUpdateView::Position {
                position: position@,
                altitude: altitude@,
            },
        }
    }
}

/// An aircraft as the query service reports it: its address, the station
/// that reported it last, and its row in the flight table.
#[derive(Debug, Clone, PartialEq, Eq)]
pub struct Craft {
    pub icao_address: String,
    pub last_reporting_station_id: String,
    pub flight: Flight,
}

impl FlightView {
    /// The row of a flight of which nothing is known.
    pub open spec fn blank() -> FlightView {
        FlightView {
            callsign: Seq::empty(),
            position: Seq::empty(),
            speed: Seq::empty(),
            heading: Seq::empty(),
            altitude: Seq::empty(),
            last_seen: Seq::empty(),
        }
    }

    /// The row after an update: the cells that the update carries are
    /// overwritten and the others stay.
    pub open spec fn updated(self, u: FlightUpdateView) -> FlightView {
        match u {
            FlightUpdateView::Identified { callsign } => FlightView { callsign, ..self },
            FlightUpdateView::Velocity { heading, speed } => FlightView { heading, speed, ..self },
            FlightUpdateView::Position { position, altitude } => FlightView {
                position,
                altitude,
                ..self
            },
        }
    }
}

/// The flight table after an update for the aircraft `icao_address`: its row
/// is updated, or made from a blank one where the table has none.
pub open spec fn observed(
    flights: Map<Seq<char>, FlightView>,
    icao_address: Seq<char>,
    u: FlightUpdateView,
) -> Map<Seq<char>, FlightView> {
    let row = if flights.contains_key(icao_address) {
        flights[icao_address]
    } else {
        FlightView::blank()
    };
    flights.insert(icao_address, row.updated(u))
}

/// The flight table that holds the rows of the aircraft of `crafts` that
/// `station` reported last; of two rows for one aircraft, the later.
pub open spec fn flights_of(crafts: Seq<Craft>, station: Seq<char>) -> Map<Seq<char>, FlightView>
    decreases crafts.len(),
{
    if crafts.len() == 0 {
        Map::empty()
    } else {
        let front = flights_of(crafts.drop_last(), station);
        let craft = crafts.last();
        if craft.last_reporting_station_id@ == station {
            front.insert(craft.icao_address@, craft.flight@)
        } else {
            front
        }
    }
}

/// Whether `rows` holds the rows of `table`, each once, with the callsigns
/// never going down, and rows with one callsign in the order in which their
/// aircraft came into the table.
pub open spec fn flights_listed(rows: Seq<Flight>, table: KeyedMap<Flight>) -> bool {
    &&& forall|i: int, j: int|
        0 <= i < j < rows.len() ==> text_le(
            (#[trigger] rows[i]).callsign@,
            (#[trigger] rows[j]).callsign@,
        )
    &&& exists|order: Seq<usize>|
        {
            &&& #[trigger] is_arrangement(order, table.key_seq().len())
            &&& rows.len() == order.len()
            &&& forall|i: int|
                0 <= i < rows.len() ==> (#[trigger] rows[i])@ == table@[table.key_seq()[order[i] as int]]
            &&& forall|i: int, j: int|
                0 <= i < j < rows.len() && text_le(
                    (#[trigger] rows[j]).callsign@,
                    (#[trigger] rows[i]).callsign@,
                ) ==> order[i] < order[j]
        }
}

/// Whether `rows` holds the stations of `table`, each once, with the names
/// never going down, and stations with one name in the order in which they
/// came into the table.
pub open spec fn stations_listed(rows: Seq<Station>, table: KeyedMap<Station>) -> bool {
    &&& forall|i: int, j: int|
        0 <= i < j < rows.len() ==> text_le((#[trigger] rows[i]).name@, (#[trigger] rows[j]).name@)
    &&& exists|order: Seq<usize>|
        {
            &&& #[trigger] is_arrangement(order, table.key_seq().len())
            &&& rows.len() == order.len()
            &&& forall|i: int|
                0 <= i < rows.len() ==> (#[trigger] rows[i])@ == table@[table.key_seq()[order[i] as int]]
            &&& forall|i: int, j: int|
                0 <= i < j < rows.len() && text_le(
                    (#[trigger] rows[j]).name@,
                    (#[trigger] rows[i]).name@,
                ) ==> order[i] < order[j]
        }
}

/// What the title of the flight table shows where no station is current.
pub const NOT_AVAILABLE: &'static str = "N/A";

/// The name that stands for the current station where there is none.
pub const NO_STATION: &'static str = "none";

/// 41.85278 degrees north.
pub const WINDSOR_LATITUDE: u64 = 0x4044ED27E5215769;

/// 72.64306 degrees west.
pub const WINDSOR_LONGITUDE: u64 = 0xC0522927E5215769;

/// 38.8951 degrees north.
pub const WASHINGTON_LATITUDE: u64 = 0x40437292A3055326;

/// 77.0364 degrees west.
pub const WASHINGTON_LONGITUDE: u64 = 0xC053425460AA64C3;

/// The row after `selected` in a table of `rows` rows, going round to the
/// first row after the last; the first row where none is selected.
pub open spec fn row_after(selected: Option<usize>, rows: nat) -> int {
    match selected {
        Some(i) => if i >= rows - 1 {
            0
        } else {
            i + 1
        },
        None => 0,
    }
}

/// The row before `selected` in a table of `rows` rows, going round to the
/// last row before the first; the first row where none is selected.
pub open spec fn row_before(selected: Option<usize>, rows: nat) -> int {
    match selected {
        Some(i) => if i == 0 {
            rows - 1
        } else {
            i - 1
        },
        None => 0,
    }
}

/// The view of a name, where there is one.
pub open spec fn name_view(name: Option<String>) -> Option<Seq<char>> {
    match name {
        Some(n) => Some(n@),
        None => None,
    }
}

/// The state of the dashboard.
#[derive(Debug, Clone)]
pub struct App {
    /// The selected row of the station table.
    pub stations_state: Option<usize>,
    /// The name of the station whose flights are shown.
    pub current_station: Option<String>,
    /// The known stations by name.
    pub stations: KeyedMap<Station>,
    /// The flights of the current station by aircraft address.
    pub flights: KeyedMap<Flight>,
    /// The rows of the station table.
    pub render_stations: Vec<Station>,
    /// The rows of the flight table.
    pub render_flights: Vec<Flight>,
    /// The title of the flight table.
    pub render_station: String,
}

impl App {
    /// The selected row is a row of the station table, and the two maps are
    /// well formed.
    pub open spec fn wf(&self) -> bool {
        &&& self.stations.wf()
        &&& self.flights.wf()
        &&& match self.stations_state {
            Some(i) => i < self.render_stations.len(),
            None => true,
        }
    }

    /// The name of the station in the selected row.
    pub open spec fn selected_name(&self) -> Option<Seq<char>> {
        match self.stations_state {
            Some(i) => Some(self.render_stations[i as int].name@),
            None => None,
        }
    }

    /// The dashboard at its start: the two laboratory stations are known,
    /// the first is current, no row is selected and the tables are empty.
    pub fn new() -> (r: App)
        ensures
            r.wf(),
            r.stations_state.is_none(),
            name_view(r.current_station) == Some("kevin_lab"@),
            r.stations@.dom() =~= set!["kevin_lab"@, "liam_lab"@],
            r.stations@["kevin_lab"@] == (StationView {
                name: "kevin_lab"@,
                location: "Windsor, CT"@,
                coords: Position { latitude: WINDSOR_LATITUDE, longitude: WINDSOR_LONGITUDE },
                status: "Up"@,
            }),
            r.stations@["liam_lab"@] == (StationView {
                name: "liam_lab"@,
                location: "Washington, DC"@,
                coords: Position { latitude: WASHINGTON_LATITUDE, longitude: WASHINGTON_LONGITUDE },
                status: "Up"@,
            }),
            r.flights@ == Map::<Seq<char>, FlightView>::empty(),
            r.render_stations@.len() == 0,
            r.render_flights@.len() == 0,
            r.render_station@ == "..."@,
    {
        let mut stations: KeyedMap<Station> = KeyedMap::new();
        stations.insert(
            "kevin_lab".to_owned(),
            Station {
                name: "kevin_lab".to_owned(),
                location: "Windsor, CT".to_owned(),
                coords: Position { latitude: WINDSOR_LATITUDE, longitude: WINDSOR_LONGITUDE },
                status: "Up".to_owned(),
            },
        );
        stations.insert(
            "liam_lab".to_owned(),
            Station {
                name: "liam_lab".to_owned(),
                location: "Washington, DC".to_owned(),
                coords: Position { latitude: WASHINGTON_LATITUDE, longitude: WASHINGTON_LONGITUDE },
                status: "Up".to_owned(),
            },
        );
        proof {
            reveal_strlit("kevin_lab");
            reveal_strlit("liam_lab");
            assert("kevin_lab"@[0] != "liam_lab"@[0]);
        }
        App {
            stations_state: None,
            stations,
            flights: KeyedMap::new(),
            current_station: Some("kevin_lab".to_owned()),
            render_stations: Vec::new(),
            render_flights: Vec::new(),
            render_station: "...".to_owned(),
        }
    }

    /// Moves the selection one row down and makes the station of the new
    /// row current. The caller then loads that station's flights.
    pub fn next(&mut self)
        requires
            old(self).wf(),
            old(self).render_stations.len() > 0,
        ensures
            final(self).wf(),
            final(self).stations_state == Some(
                row_after(old(self).stations_state, old(self).render_stations@.len()) as usize,
            ),
            name_view(final(self).current_station) == final(self).selected_name(),
            final(self).stations == old(self).stations,
            final(self).flights == old(self).flights,
            final(self).render_stations == old(self).render_stations,
            final(self).render_flights == old(self).render_flights,
            final(self).render_station == old(self).render_station,
    {
        let i: usize = match self.stations_state {
            Some(i) => {
                if i >= self.render_stations.len() - 1 {
                    0
                } else {
                    i + 1
                }
            },
            None => 0,
        };
        self.stations_state = Some(i);
        self.query();
    }

    /// Moves the selection one row up and makes the station of the new row
    /// current. The caller then loads that station's flights.
    pub fn previous(&mut self)
        requires
            old(self).wf(),
            old(self).render_stations.len() > 0,
        ensures
            final(self).wf(),
            final(self).stations_state == Some(
                row_before(old(self).stations_state, old(self).render_stations@.len()) as usize,
            ),
            name_view(final(self).current_station) == final(self).selected_name(),
            final(self).stations == old(self).stations,
            final(self).flights == old(self).flights,
            final(self).render_stations == old(self).render_stations,
            final(self).render_flights == old(self).render_flights,
            final(self).render_station == old(self).render_station,
    {
        let i: usize = match self.stations_state {
            Some(i) => {
                if i == 0 {
                    self.render_stations.len() - 1
                } else {
                    i - 1
                }
            },
            None => 0,
        };
        self.stations_state = Some(i);
        self.query();
    }

    /// Clears the selection and the flights. The current station stays
    /// until the next query.
    pub fn unselect(&mut self)
        requires
            old(self).wf(),
        ensures
            final(self).wf(),
            final(self).stations_state.is_none(),
            final(self).render_flights@.len() == 0,
            final(self).flights@ == Map::<Seq<char>, FlightView>::empty(),
            final(self).current_station == old(self).current_station,
            final(self).stations == old(self).stations,
            final(self).render_stations == old(self).render_stations,
            final(self).render_station == old(self).render_station,
    {
        self.stations_state = None;
        self.render_flights = Vec::new();
        self.flights = KeyedMap::new();
    }

    /// The current station, or `NO_STATION` where there is none.
    pub open spec fn watched(&self) -> Seq<char> {
        match self.current_station {
            Some(name) => name@,
            None => NO_STATION@,
        }
    }

    /// Takes in what an event says of the aircraft `icao_address`. An event
    /// from another station than the current one changes nothing.
    pub fn observe(&mut self, station: &EventStation, icao_address: String, update: FlightUpdate)
        requires
            old(self).wf(),
        ensures
            final(self).wf(),
            final(self).flights@ == (if station.id@ == old(self).watched() {
                observed(old(self).flights@, icao_address@, update@)
            } else {
                old(self).flights@
            }),
            final(self).stations_state == old(self).stations_state,
            final(self).current_station == old(self).current_station,
            final(self).stations == old(self).stations,
            final(self).render_stations == old(self).render_stations,
            final(self).render_flights == old(self).render_flights,
            final(self).render_station == old(self).render_station,
    {
        let watched = match &self.current_station {
            Some(name) => name.clone(),
            None => NO_STATION.to_owned(),
        };
        if station.id == watched {
            let row = match self.flights.get(&icao_address) {
                Some(found) => found.replicate(),
                None => Flight::default(),
            };
            let row = match update {
                FlightUpdate::Identified { callsign } => Flight {
                    callsign,
                    position: row.position,
                    speed: row.speed,
                    heading: row.heading,
                    altitude: row.altitude,
                    last_seen: row.last_seen,
                },
                FlightUpdate::Velocity { heading, speed } => Flight {
                    callsign: row.callsign,
                    position: row.position,
                    speed,
                    heading,
                    altitude: row.altitude,
                    last_seen: row.last_seen,
                },
                FlightUpdate::Position { position, altitude } => Flight {
                    callsign: row.callsign,
                    position,
                    speed: row.speed,
                    heading: row.heading,
                    altitude,
                    last_seen: row.last_seen,
                },
            };
            self.flights.insert(icao_address, row);
        }
    }

    /// Replaces the flight table by the rows of the aircraft that `station`
    /// reported last.
    pub fn load_flights(&mut self, station: &str, crafts: Vec<Craft>)
        requires
            old(self).wf(),
        ensures
            final(self).wf(),
            final(self).flights@ == flights_of(crafts@, station@),
            final(self).stations_state == old(self).stations_state,
            final(self).current_station == old(self).current_station,
            final(self).stations == old(self).stations,
            final(self).render_stations == old(self).render_stations,
            final(self).render_flights == old(self).render_flights,
            final(self).render_station == old(self).render_station,
    {
        let station = station.to_owned();
        let mut flights: KeyedMap<Flight> = KeyedMap::new();
        let mut i: usize = 0;
        assert(crafts@.subrange(0, 0) =~= Seq::<Craft>::empty());
        while i < crafts.len()
            invariant
                i <= crafts.len(),
                flights.wf(),
                flights@ == flights_of(crafts@.subrange(0, i as int), station@),
            decreases crafts.len() - i,
        {
            proof {
                let upto = crafts@.subrange(0, i + 1);
                assert(upto.drop_last() =~= crafts@.subrange(0, i as int));
                assert(upto.last() == crafts@[i as int]);
            }
            if crafts[i].last_reporting_station_id == station {
                flights.insert(crafts[i].icao_address.clone(), crafts[i].flight.replicate());
            }
            i = i + 1;
        }
        assert(crafts@.subrange(0, i as int) =~= crafts@);
        self.flights = flights;
    }

    /// Renders the tables anew: the flights by callsign and the stations by
    /// name, in the order of texts. The station of the selected row becomes
    /// current, and the title of the flight table is its name between two
    /// spaces, or `NOT_AVAILABLE` where no row is selected.
    pub fn update(&mut self)
        requires
            old(self).stations.wf(),
            old(self).flights.wf(),
            match old(self).stations_state {
                Some(i) => i < old(self).stations.key_seq().len(),
                None => true,
            },
        ensures
            final(self).wf(),
            flights_listed(final(self).render_flights@, final(self).flights),
            stations_listed(final(self).render_stations@, final(self).stations),
            name_view(final(self).current_station) == final(self).selected_name(),
            final(self).render_station@ == " "@ + (match final(self).selected_name() {
                Some(name) => name,
                None => NOT_AVAILABLE@,
            }) + " "@,
            final(self).stations_state == old(self).stations_state,
            final(self).stations == old(self).stations,
            final(self).flights == old(self).flights,
    {
        let n = self.flights.len();
        let mut callsigns: Vec<String> = Vec::new();
        let mut i: usize = 0;
        while i < n
            invariant
                self.flights.wf(),
                n == self.flights.key_seq().len(),
                i <= n,
                callsigns@.len() == i,
                forall|j: int|
                    0 <= j < i ==> (#[trigger] callsigns[j])@
                        == self.flights@[self.flights.key_seq()[j]].callsign,
            decreases n - i,
        {
            callsigns.push(self.flights.value_at(i).callsign.clone());
            i = i + 1;
        }
        let order = sorted_order(&callsigns);
        let mut flights: Vec<Flight> = Vec::new();
        let mut i: usize = 0;
        while i < n
            invariant
                self.flights.wf(),
                ascending(order@, callsigns@),
                stable(order@, callsigns@),
                callsigns@.len() == n,
                forall|j: int|
                    0 <= j < n ==> (#[trigger] callsigns[j])@
                        == self.flights@[self.flights.key_seq()[j]].callsign,
                n == self.flights.key_seq().len(),
                is_arrangement(order@, n as nat),
                i <= n,
                flights@.len() == i,
                forall|j: int|
                    0 <= j < i ==> (#[trigger] flights[j])@
                        == self.flights@[self.flights.key_seq()[order[j] as int]],
            decreases n - i,
        {
            flights.push(self.flights.value_at(order[i]).replicate());
            i = i + 1;
        }
        proof {
            assert forall|a: int, b: int| 0 <= a < b < flights@.len() implies text_le(
                (#[trigger] flights[a]).callsign@,
                (#[trigger] flights[b]).callsign@,
            ) by {
                assert(text_le(callsigns[order[a] as int]@, callsigns[order[b] as int]@));
            }
            assert forall|a: int, b: int|
                0 <= a < b < flights@.len() && text_le(
                    (#[trigger] flights[b]).callsign@,
                    (#[trigger] flights[a]).callsign@,
                ) implies order[a] < order[b] by {
                assert(text_le(callsigns[order[b] as int]@, callsigns[order[a] as int]@));
            }
            assert(is_arrangement(order@, self.flights.key_seq().len()));
            assert(flights_listed(flights@, self.flights));
        }
        self.render_flights = flights;

        let n = self.stations.len();
        let mut names: Vec<String> = Vec::new();
        let mut i: usize = 0;
        while i < n
            invariant
                self.stations.wf(),
                n == self.stations.key_seq().len(),
                i <= n,
                names@.len() == i,
                forall|j: int|
                    0 <= j < i ==> (#[trigger] names[j])@
                        == self.stations@[self.stations.key_seq()[j]].name,
            decreases n - i,
        {
            names.push(self.stations.value_at(i).name.clone());
            i = i + 1;
        }
        let order = sorted_order(&names);
        let mut stations: Vec<Station> = Vec::new();
        let mut i: usize = 0;
        while i < n
            invariant
                self.stations.wf(),
                ascending(order@, names@),
                stable(order@, names@),
                names@.len() == n,
                forall|j: int|
                    0 <= j < n ==> (#[trigger] names[j])@
                        == self.stations@[self.stations.key_seq()[j]].name,
                n == self.stations.key_seq().len(),
                is_arrangement(order@, n as nat),
                i <= n,
                stations@.len() == i,
                forall|j: int|
                    0 <= j < i ==> (#[trigger] stations[j])@
                        == self.stations@[self.stations.key_seq()[order[j] as int]],
            decreases n - i,
        {
            stations.push(self.stations.value_at(order[i]).replicate());
            i = i + 1;
        }
        proof {
            assert forall|a: int, b: int| 0 <= a < b < stations@.len() implies text_le(
                (#[trigger] stations[a]).name@,
                (#[trigger] stations[b]).name@,
            ) by {
                assert(text_le(names[order[a] as int]@, names[order[b] as int]@));
            }
            assert forall|a: int, b: int|
                0 <= a < b < stations@.len() && text_le(
                    (#[trigger] stations[b]).name@,
                    (#[trigger] stations[a]).name@,
                ) implies order[a] < order[b] by {
                assert(text_le(names[order[b] as int]@, names[order[a] as int]@));
            }
            assert(is_arrangement(order@, self.stations.key_seq().len()));
            assert(stations_listed(stations@, self.stations));
        }
        self.render_stations = stations;

        self.query();
        let mut title = " ".to_owned();
        match &self.current_station {
            Some(name) => title.append(name.as_str()),
            None => title.append(NOT_AVAILABLE),
        }
        title.append(" ");
        self.render_station = title;
    }

    /// Makes the station of the selected row current, or none where no row
    /// is selected. The caller then loads the flights of the current
    /// station.
    pub fn query(&mut self)
        requires
            old(self).wf(),
        ensures
            final(self).wf(),
            name_view(final(self).current_station) == final(self).selected_name(),
            final(self).stations_state == old(self).stations_state,
            final(self).stations == old(self).stations,
            final(self).flights == old(self).flights,
            final(self).render_stations == old(self).render_stations,
            final(self).render_flights == old(self).render_flights,
            final(self).render_station == old(self).render_station,
    {
        self.current_station = match self.stations_state {
            Some(i) => Some(self.render_stations[i].name.clone()),
            None => None,
        };
    }
}

} // verus!
