use wasmair::adsbtypes::Position;
use wasmair::dashboard::{
    App, Craft, EventStation, Flight, FlightUpdate, Station, NO_STATION, WASHINGTON_LATITUDE,
    WASHINGTON_LONGITUDE, WINDSOR_LATITUDE, WINDSOR_LONGITUDE,
};
use wasmair::textorder::{precedes, sorted_order};

fn station(name: &str) -> Station {
    Station {
        name: name.to_string(),
        location: "Somewhere".to_string(),
        coords: Position { latitude: 0, longitude: 0 },
        status: "Up".to_string(),
    }
}

fn app_with(names: &[&str]) -> App {
    let mut app = App::new();
    for n in names {
        app.render_stations.push(station(n));
    }
    app
}

#[test]
fn dashboard_starts_with_the_two_laboratories() {
    let app = App::new();
    assert_eq!(app.stations_state, None);
    assert_eq!(app.current_station, Some("kevin_lab".to_string()));
    assert_eq!(app.stations.len(), 2);
    assert_eq!(
        app.stations.get(&"kevin_lab".to_string()),
        Some(&Station {
            name: "kevin_lab".to_string(),
            location: "Windsor, CT".to_string(),
            coords: Position { latitude: WINDSOR_LATITUDE, longitude: WINDSOR_LONGITUDE },
            status: "Up".to_string(),
        })
    );
    let liam = app.stations.get(&"liam_lab".to_string()).unwrap();
    assert_eq!(liam.location, "Washington, DC");
    assert_eq!(f64::from_bits(liam.coords.latitude), 38.8951);
    assert_eq!(f64::from_bits(liam.coords.longitude), -77.0364);
    assert_eq!(f64::from_bits(WINDSOR_LATITUDE), 41.85278);
    assert_eq!(f64::from_bits(WINDSOR_LONGITUDE), -72.64306);
    assert_eq!(WASHINGTON_LATITUDE, 38.8951f64.to_bits());
    assert_eq!(WASHINGTON_LONGITUDE, (-77.0364f64).to_bits());
    assert_eq!(app.flights.len(), 0);
    assert!(app.render_stations.is_empty());
    assert!(app.render_flights.is_empty());
    assert_eq!(app.render_station, "...");
}

#[test]
fn selection_goes_round_downwards() {
    let mut app = app_with(&["a", "b", "c"]);
    app.next();
    assert_eq!(app.stations_state, Some(0));
    assert_eq!(app.current_station, Some("a".to_string()));
    app.next();
    app.next();
    assert_eq!(app.stations_state, Some(2));
    assert_eq!(app.current_station, Some("c".to_string()));
    app.next();
    assert_eq!(app.stations_state, Some(0));
    assert_eq!(app.current_station, Some("a".to_string()));
}

#[test]
fn selection_goes_round_upwards() {
    let mut app = app_with(&["a", "b", "c"]);
    app.previous();
    assert_eq!(app.stations_state, Some(0));
    app.previous();
    assert_eq!(app.stations_state, Some(2));
    assert_eq!(app.current_station, Some("c".to_string()));
    app.previous();
    assert_eq!(app.stations_state, Some(1));
    assert_eq!(app.current_station, Some("b".to_string()));
    let mut one = app_with(&["only"]);
    one.next();
    one.next();
    assert_eq!(one.stations_state, Some(0));
    one.previous();
    assert_eq!(one.stations_state, Some(0));
}

#[test]
fn unselect_clears_selection_and_flights() {
    let mut app = app_with(&["a", "b"]);
    app.next();
    app.flights.insert("A1B2C3".to_string(), Flight { callsign: "UAL123".to_string(), ..Flight::default() });
    app.render_flights.push(Flight::default());
    app.unselect();
    assert_eq!(app.stations_state, None);
    assert_eq!(app.flights.len(), 0);
    assert!(app.render_flights.is_empty());
    assert_eq!(app.current_station, Some("a".to_string()));
    assert_eq!(app.render_stations.len(), 2);
    app.query();
    assert_eq!(app.current_station, None);
}

#[test]
fn flight_and_event_station_values() {
    let f = Flight::default();
    assert_eq!(
        f,
        Flight {
            callsign: String::new(),
            position: String::new(),
            speed: String::new(),
            heading: String::new(),
            altitude: String::new(),
            last_seen: String::new(),
        }
    );
    let s = EventStation { id: "S1".to_string(), name: "Lab".to_string() };
    assert_eq!(s.clone(), s);
}

fn row(callsign: &str) -> Flight {
    Flight { callsign: callsign.to_string(), ..Flight::default() }
}

#[test]
fn texts_are_ordered_as_strings_are() {
    let samples = ["", "a", "A", "ab", "abc", "b", "B1", "é", "z", "\u{10FFFF}", "\u{0}", "ab ", "aB"];
    for a in samples {
        for b in samples {
            assert_eq!(precedes(a, b), a <= b, "{:?} {:?}", a, b);
        }
    }
}

#[test]
fn sorted_order_is_stable() {
    let keys: Vec<String> = ["b", "a", "c", "a", ""].iter().map(|s| s.to_string()).collect();
    assert_eq!(sorted_order(&keys), vec![4, 1, 3, 0, 2]);
    assert_eq!(sorted_order(&Vec::new()), Vec::<usize>::new());
}

#[test]
fn update_renders_sorted_tables() {
    let mut app = App::new();
    app.stations.insert("alpha".to_string(), station("alpha"));
    app.flights.insert("C".to_string(), row("UAL9"));
    app.flights.insert("A".to_string(), row("KLM1"));
    app.flights.insert("B".to_string(), row("AAL7"));
    app.update();
    let names: Vec<&str> = app.render_stations.iter().map(|s| s.name.as_str()).collect();
    assert_eq!(names, vec!["alpha", "kevin_lab", "liam_lab"]);
    let callsigns: Vec<&str> = app.render_flights.iter().map(|f| f.callsign.as_str()).collect();
    assert_eq!(callsigns, vec!["AAL7", "KLM1", "UAL9"]);
    assert_eq!(app.current_station, None);
    assert_eq!(app.render_station, " N/A ");
    app.next();
    app.next();
    app.update();
    assert_eq!(app.stations_state, Some(1));
    assert_eq!(app.current_station, Some("kevin_lab".to_string()));
    assert_eq!(app.render_station, " kevin_lab ");
    assert_eq!(app.flights.len(), 3);
}

#[test]
fn events_of_the_current_station_update_the_flight_table() {
    let mut app = App::new();
    let kevin = EventStation { id: "kevin_lab".to_string(), name: "Kevin".to_string() };
    let other = EventStation { id: "liam_lab".to_string(), name: "Liam".to_string() };
    app.observe(&kevin, "A1".to_string(), FlightUpdate::Identified { callsign: "UAL1".to_string() });
    app.observe(
        &kevin,
        "A1".to_string(),
        FlightUpdate::Velocity { heading: "182".to_string(), speed: "294.8".to_string() },
    );
    app.observe(
        &kevin,
        "A1".to_string(),
        FlightUpdate::Position { position: "41.5, -72.25".to_string(), altitude: "38000ft".to_string() },
    );
    app.observe(&other, "B2".to_string(), FlightUpdate::Identified { callsign: "KLM2".to_string() });
    assert_eq!(app.flights.len(), 1);
    assert_eq!(
        app.flights.get(&"A1".to_string()),
        Some(&Flight {
            callsign: "UAL1".to_string(),
            position: "41.5, -72.25".to_string(),
            speed: "294.8".to_string(),
            heading: "182".to_string(),
            altitude: "38000ft".to_string(),
            last_seen: String::new(),
        })
    );
    app.current_station = None;
    assert_eq!(NO_STATION, "none");
    let none = EventStation { id: "none".to_string(), name: String::new() };
    app.observe(&kevin, "C3".to_string(), FlightUpdate::Identified { callsign: "X".to_string() });
    assert_eq!(app.flights.len(), 1);
    app.observe(&none, "C3".to_string(), FlightUpdate::Identified { callsign: "X".to_string() });
    assert_eq!(app.flights.get(&"C3".to_string()), Some(&row("X")));
}

#[test]
fn loading_flights_keeps_those_of_the_station() {
    let mut app = App::new();
    app.flights.insert("OLD".to_string(), row("GONE"));
    let craft = |icao: &str, station: &str, callsign: &str| Craft {
        icao_address: icao.to_string(),
        last_reporting_station_id: station.to_string(),
        flight: row(callsign),
    };
    app.load_flights(
        "kevin_lab",
        vec![
            craft("A1", "kevin_lab", "ONE"),
            craft("B2", "liam_lab", "TWO"),
            craft("C3", "kevin_lab", "THREE"),
            craft("A1", "kevin_lab", "ONE AGAIN"),
        ],
    );
    assert_eq!(app.flights.len(), 2);
    assert_eq!(app.flights.get(&"A1".to_string()), Some(&row("ONE AGAIN")));
    assert_eq!(app.flights.get(&"C3".to_string()), Some(&row("THREE")));
    assert_eq!(app.flights.get(&"OLD".to_string()), None);
    app.load_flights("nobody", vec![craft("A1", "kevin_lab", "ONE")]);
    assert_eq!(app.flights.len(), 0);
}
