//! The pipeline that takes one report through translation, both aggregates
//! and the store, and hands back the event to publish.

use crate::adsbtypes::{ADSBMessage, ADSBMessageView};
use crate::esmodel::{
    translated, AdsbUpdateEvent, AdsbUpdateEventView, Aircraft, AircraftState, AircraftStateView,
    StationList, StationListState, StationListStateView,
};
use crate::store::{Aggregate, AggregateStore, AggregateStoreView, AggregateView};
use vstd::prelude::*;
use vstd::string::*;

verus! {

/// The subject on which accepted events are published.
pub const EVENTS_SUBJECT: &'static str = "adsb.events";

/// The key of the station directory.
pub const STATION_LIST_KEY: &'static str = "adsb:stations";

/// The name of the set that lists the key of every aircraft ever written.
pub const AIRCRAFT_SET_KEY: &'static str = "adsb:aircraft";

/// What stands before the address in the key of an aircraft.
pub const AIRCRAFT_KEY_PREFIX: &'static str = "adsb:aircraft:";

/// The time to live of an aircraft's state, in seconds: ten minutes.
pub const AIRCRAFT_EXPIRATION_SECONDS: u32 = 600;

/// Why a report was not processed, or a query not answered.
#[derive(Debug, Clone, Copy, PartialEq, Eq, Structural)]
pub enum ProcessingError {
    /// The store holds, under the key of one kind of aggregate, a value of
    /// the other kind.
    StateUnreadable,
    /// The aggregate has counted as many events as its generation can hold.
    GenerationExhausted,
}

/// The key of the aircraft with the address `icao_address`.
pub open spec fn aircraft_key_of(icao_address: Seq<char>) -> Seq<char> {
    AIRCRAFT_KEY_PREFIX@ + icao_address
}

/// The state to fold into, given what the store holds under the key of an
/// aircraft: the unseen state where it holds nothing readable.
pub open spec fn loaded_aircraft(found: Option<AggregateView>) -> Result<
    AircraftStateView,
    ProcessingError,
> {
    match found {
        None => Ok(AircraftStateView::unseen()),
        Some(AggregateView::Aircraft(s)) => Ok(s),
        Some(AggregateView::Stations(_)) => Err(ProcessingError::StateUnreadable),
    }
}

/// The directory to fold into, given what the store holds under the
/// directory's key: the vacant directory where it holds nothing readable.
pub open spec fn loaded_stations(found: Option<AggregateView>) -> Result<
    StationListStateView,
    ProcessingError,
> {
    match found {
        None => Ok(StationListStateView::vacant()),
        Some(AggregateView::Stations(d)) => Ok(d),
        Some(AggregateView::Aircraft(_)) => Err(ProcessingError::StateUnreadable),
    }
}

/// The state of the aircraft after the event, given what the store holds.
pub open spec fn next_aircraft(found: Option<AggregateView>, e: AdsbUpdateEventView) -> Result<
    AircraftStateView,
    ProcessingError,
> {
    match loaded_aircraft(found) {
        Err(err) => Err(err),
        Ok(s) => if s.generation < u64::MAX {
            Ok(s.applied(e))
        } else {
            Err(ProcessingError::GenerationExhausted)
        },
    }
}

/// The directory after the event, given what the store holds.
pub open spec fn next_stations(found: Option<AggregateView>, e: AdsbUpdateEventView) -> Result<
    StationListStateView,
    ProcessingError,
> {
    match loaded_stations(found) {
        Err(err) => Err(err),
        Ok(d) => if d.generation < u64::MAX {
            Ok(d.applied(e))
        } else {
            Err(ProcessingError::GenerationExhausted)
        },
    }
}

/// The store after the state of an aircraft is written: the entry under the
/// aircraft's key, with the ten minutes to live, and the key in the set of
/// aircraft keys.
pub open spec fn aircraft_stored(s: AggregateStoreView, a: AircraftStateView, now: u64)
    -> AggregateStoreView {
    let key = aircraft_key_of(a.icao_address);
    s.written(key, AggregateView::Aircraft(a), Some(AIRCRAFT_EXPIRATION_SECONDS), now).indexed(
        AIRCRAFT_SET_KEY@,
        key,
    )
}

/// The store after the directory is written: it never expires.
pub open spec fn stations_stored(s: AggregateStoreView, d: StationListStateView, now: u64)
    -> AggregateStoreView {
    s.written(STATION_LIST_KEY@, AggregateView::Stations(d), None, now)
}

/// The store after a report is processed at `now`, and the event to
/// publish. The steps follow one another, and a step that fails leaves what
/// the steps before it have written.
pub open spec fn processed(s: AggregateStoreView, m: ADSBMessageView, now: u64) -> (
    AggregateStoreView,
    Result<AdsbUpdateEventView, ProcessingError>,
) {
    let e = translated(m);
    match next_aircraft(s.read(aircraft_key_of(e.icao_address()), now), e) {
        Err(err) => (s, Err(err)),
        Ok(a) => {
            let s1 = aircraft_stored(s, a, now);
            match next_stations(s1.read(STATION_LIST_KEY@, now), e) {
                Err(err) => (s1, Err(err)),
                Ok(d) => (stations_stored(s1, d, now), Ok(e)),
            }
        },
    }
}

/// The key of the aircraft with the address `icao_address`.
pub fn aircraft_key(icao_address: &str) -> (r: String)
    ensures
        r@ == aircraft_key_of(icao_address@),
{
    let mut key = AIRCRAFT_KEY_PREFIX.to_owned();
    key.append(icao_address);
    key
}

/// Reads the state of the aircraft with the address `key`. An aircraft of
/// which the store holds nothing readable, because nothing was written or
/// because it has expired, has the unseen state.
pub fn load_state(store: &AggregateStore, key: &str, now: u64) -> (r: Result<
    AircraftState,
    ProcessingError,
>)
    requires
        store.wf(),
    ensures
        match r {
            Ok(s) => loaded_aircraft(store@.read(aircraft_key_of(key@), now)) == Ok::<
                AircraftStateView,
                ProcessingError,
            >(s@),
            Err(err) => loaded_aircraft(store@.read(aircraft_key_of(key@), now)) == Err::<
                AircraftStateView,
                ProcessingError,
            >(err),
        },
{
    let key = aircraft_key(key);
    match store.get(key.as_str(), now) {
        Some(Aggregate::Aircraft(s)) => Ok(s),
        Some(Aggregate::Stations(_)) => Err(ProcessingError::StateUnreadable),
        None => Ok(AircraftState::default()),
    }
}

/// Writes the state of an aircraft under its key, to live ten minutes from
/// `now`, and records the key in the set of aircraft keys.
pub fn put_aircraft_state(store: &mut AggregateStore, state: AircraftState, now: u64)
    requires
        old(store).wf(),
    ensures
        final(store).wf(),
        final(store)@ == aircraft_stored(old(store)@, state@, now),
{
    let key = aircraft_key(state.icao_address.as_str());
    store.set(key.as_str(), Aggregate::Aircraft(state), Some(AIRCRAFT_EXPIRATION_SECONDS), now);
    store.set_add(AIRCRAFT_SET_KEY, key.as_str());
}

/// Reads the station directory; where the store holds none, the vacant one.
pub fn get_stations_list(store: &AggregateStore, now: u64) -> (r: Result<
    StationListState,
    ProcessingError,
>)
    requires
        store.wf(),
    ensures
        match r {
            Ok(d) => d.wf() && loaded_stations(store@.read(STATION_LIST_KEY@, now)) == Ok::<
                StationListStateView,
                ProcessingError,
            >(d@),
            Err(err) => loaded_stations(store@.read(STATION_LIST_KEY@, now)) == Err::<
                StationListStateView,
                ProcessingError,
            >(err),
        },
{
    match store.get(STATION_LIST_KEY, now) {
        Some(Aggregate::Stations(d)) => Ok(d),
        Some(Aggregate::Aircraft(_)) => Err(ProcessingError::StateUnreadable),
        None => Ok(StationListState::default()),
    }
}

/// Writes the station directory under its key, never to expire.
pub fn put_stations_state(store: &mut AggregateStore, new_stations: StationListState, now: u64)
    requires
        old(store).wf(),
        new_stations.wf(),
    ensures
        final(store).wf(),
        final(store)@ == stations_stored(old(store)@, new_stations@, now),
{
    store.set(STATION_LIST_KEY, Aggregate::Stations(new_stations), None, now);
}

/// A report after translation: its event, and the key under which the state
/// of its aircraft is read and written.
#[derive(Debug, Clone, PartialEq, Eq)]
pub struct Translated {
    pub event: AdsbUpdateEvent,
    pub aircraft_key: String,
}

/// A report after the fold into its aircraft: the event, and the state to
/// write under the key, to live `AIRCRAFT_EXPIRATION_SECONDS`, the key then
/// to be added to the set `AIRCRAFT_SET_KEY`.
#[derive(Debug, Clone, PartialEq, Eq)]
pub struct AircraftFolded {
    pub event: AdsbUpdateEvent,
    pub aircraft_key: String,
    pub aircraft: AircraftState,
}

/// A report after the fold into the directory: the directory to write under
/// `STATION_LIST_KEY`, never to expire, and the event to publish on
/// `EVENTS_SUBJECT` after that.
#[derive(Debug, Clone)]
pub struct StationsFolded {
    pub event: AdsbUpdateEvent,
    pub stations: StationListState,
}

/// What a reader of the store has found of an aircraft, as a stored value.
pub open spec fn aircraft_found(found: Option<AircraftState>) -> Option<AggregateView> {
    match found {
        Some(s) => Some(AggregateView::Aircraft(s@)),
        None => None,
    }
}

/// What a reader of the store has found of the directory, as a stored
/// value.
pub open spec fn stations_found(found: Option<StationListState>) -> Option<AggregateView> {
    match found {
        Some(d) => Some(AggregateView::Stations(d@)),
        None => None,
    }
}

/// The first step for a report: its event and the key of its aircraft. The
/// caller reads the state under that key next.
pub fn translate(payload: ADSBMessage) -> (r: Translated)
    ensures
        r.event@ == translated(payload@),
        r.aircraft_key@ == aircraft_key_of(translated(payload@).icao_address()),
{
    let event = AdsbUpdateEvent::from(payload);
    let icao_address = event.key();
    let aircraft_key = aircraft_key(icao_address.as_str());
    Translated { event, aircraft_key }
}

/// The second step: folds the event into what was found of its aircraft,
/// the unseen state where nothing was found or the read failed. The caller
/// writes the state and records the key next.
pub fn fold_aircraft(step: Translated, found: Option<AircraftState>) -> (r: Result<
    AircraftFolded,
    ProcessingError,
>)
    ensures
        match r {
            Ok(folded) => {
                &&& next_aircraft(aircraft_found(found), step.event@) == Ok::<
                    AircraftStateView,
                    ProcessingError,
                >(folded.aircraft@)
                &&& folded.event@ == step.event@
                &&& folded.aircraft_key@ == step.aircraft_key@
            },
            Err(err) => next_aircraft(aircraft_found(found), step.event@) == Err::<
                AircraftStateView,
                ProcessingError,
            >(err),
        },
{
    let state = match found {
        Some(state) => state,
        None => AircraftState::default(),
    };
    if state.generation == u64::MAX {
        return Err(ProcessingError::GenerationExhausted);
    }
    let aircraft = Aircraft::apply_event(&state, &step.event);
    Ok(AircraftFolded { event: step.event, aircraft_key: step.aircraft_key, aircraft })
}

/// The third step: folds the event into what was found of the directory,
/// the vacant directory where nothing was found or the read failed. The
/// caller writes the directory and publishes the event next.
pub fn fold_stations(event: AdsbUpdateEvent, found: Option<StationListState>) -> (r: Result<
    StationsFolded,
    ProcessingError,
>)
    requires
        found.is_some() ==> found.unwrap().wf(),
    ensures
        match r {
            Ok(folded) => {
                &&& folded.stations.wf()
                &&& next_stations(stations_found(found), event@) == Ok::<
                    StationListStateView,
                    ProcessingError,
                >(folded.stations@)
                &&& folded.event@ == event@
            },
            Err(err) => next_stations(stations_found(found), event@) == Err::<
                StationListStateView,
                ProcessingError,
            >(err),
        },
{
    let state = match found {
        Some(state) => state,
        None => StationListState::default(),
    };
    if state.generation == u64::MAX {
        return Err(ProcessingError::GenerationExhausted);
    }
    let stations = StationList::apply_event(&state, &event);
    Ok(StationsFolded { event, stations })
}

/// Processes one report at `now`: translates it, folds the event into the
/// state of its aircraft and writes that, folds it into the station
/// directory and writes that, and returns the event, which the caller
/// publishes on `EVENTS_SUBJECT`. Nothing is retried: the first step that
/// fails ends the processing with its error, and the report is then not
/// delivered.
pub fn process_adsb_message(store: &mut AggregateStore, payload: ADSBMessage, now: u64) -> (r:
    Result<AdsbUpdateEvent, ProcessingError>)
    requires
        old(store).wf(),
    ensures
        final(store).wf(),
        final(store)@ == processed(old(store)@, payload@, now).0,
        match r {
            Ok(event) => processed(old(store)@, payload@, now).1 == Ok::<
                AdsbUpdateEventView,
                ProcessingError,
            >(event@),
            Err(err) => processed(old(store)@, payload@, now).1 == Err::<
                AdsbUpdateEventView,
                ProcessingError,
            >(err),
        },
{
    let step = translate(payload);
    let found = match store.get(step.aircraft_key.as_str(), now) {
        Some(Aggregate::Aircraft(state)) => Some(state),
        Some(Aggregate::Stations(_)) => {
            return Err(ProcessingError::StateUnreadable);
        },
        None => None,
    };
    let folded = match fold_aircraft(step, found) {
        Ok(folded) => folded,
        Err(err) => {
            return Err(err);
        },
    };
    put_aircraft_state(store, folded.aircraft, now);
    let found = match store.get(STATION_LIST_KEY, now) {
        Some(Aggregate::Stations(stations)) => Some(stations),
        Some(Aggregate::Aircraft(_)) => {
            return Err(ProcessingError::StateUnreadable);
        },
        None => None,
    };
    let folded = match fold_stations(folded.event, found) {
        Ok(folded) => folded,
        Err(err) => {
            return Err(err);
        },
    };
    put_stations_state(store, folded.stations, now);
    Ok(folded.event)
}

/// The key of an aircraft is never the key of the station directory.
pub proof fn lemma_keys_apart(icao_address: Seq<char>)
    ensures
        aircraft_key_of(icao_address) != STATION_LIST_KEY@,
{
    reveal_strlit("adsb:aircraft:");
    reveal_strlit("adsb:stations");
    assert(aircraft_key_of(icao_address)[5] == 'a');
    assert(STATION_LIST_KEY@[5] == 's');
}

/// A report that is processed counts once: the state of its aircraft has
/// afterwards a generation one more than that of the state that was readable
/// before, or one where none was, and it is readable for the ten minutes
/// that follow and no longer. A report that is refused at the aircraft's
/// state leaves the store as it was.
pub proof fn lemma_processed_counts_once(s: AggregateStoreView, m: ADSBMessageView, now: u64)
    ensures
        ({
            let e = translated(m);
            let key = aircraft_key_of(e.icao_address());
            match loaded_aircraft(s.read(key, now)) {
                Ok(prior) if prior.generation < u64::MAX => {
                    &&& prior.applied(e).generation == prior.generation + 1
                    &&& processed(s, m, now).0.members(AIRCRAFT_SET_KEY@).contains(key)
                    &&& forall|t: u64|
                        #[trigger] processed(s, m, now).0.read(key, t) == (if t - now
                            < AIRCRAFT_EXPIRATION_SECONDS {
                            Some(AggregateView::Aircraft(prior.applied(e)))
                        } else {
                            None
                        })
                },
                _ => processed(s, m, now).0 == s && processed(s, m, now).1.is_err(),
            }
        }),
{
    let e = translated(m);
    let key = aircraft_key_of(e.icao_address());
    lemma_keys_apart(e.icao_address());
    match loaded_aircraft(s.read(key, now)) {
        Ok(prior) if prior.generation < u64::MAX => {
            let members = s.members(AIRCRAFT_SET_KEY@);
            if !members.contains(key) {
                assert(members.push(key)[members.len() as int] == key);
            }
        },
        _ => {},
    }
}

/// The store after a run of reports, the `i`-th processed at the `i`-th
/// time, first to last.
pub open spec fn processed_all(s: AggregateStoreView, ms: Seq<ADSBMessageView>, times: Seq<u64>)
    -> AggregateStoreView
    recommends
        ms.len() == times.len(),
    decreases ms.len(),
{
    if ms.len() == 0 {
        s
    } else {
        processed(processed_all(s, ms.drop_last(), times.drop_last()), ms.last(), times.last()).0
    }
}

/// Whether every report of a run is accepted.
pub open spec fn all_accepted(s: AggregateStoreView, ms: Seq<ADSBMessageView>, times: Seq<u64>)
    -> bool
    recommends
        ms.len() == times.len(),
    decreases ms.len(),
{
    ms.len() == 0 || {
        &&& all_accepted(s, ms.drop_last(), times.drop_last())
        &&& processed(
            processed_all(s, ms.drop_last(), times.drop_last()),
            ms.last(),
            times.last(),
        ).1.is_ok()
    }
}

/// No update is lost: after a run of accepted reports for one aircraft, each
/// processed less than ten minutes after the one before it, the generation
/// of the aircraft is that of the state readable at the first report plus
/// the number of reports. The store is changed through `&mut` alone, so the
/// reports of one aircraft are processed one after another, in some order;
/// this holds of every order.
pub proof fn lemma_no_update_lost(
    s: AggregateStoreView,
    ms: Seq<ADSBMessageView>,
    times: Seq<u64>,
    icao_address: Seq<char>,
)
    requires
        ms.len() == times.len(),
        ms.len() > 0,
        forall|i: int| 0 <= i < ms.len() ==> (#[trigger] ms[i]).header.icao_address == icao_address,
        forall|i: int|
            0 < i < times.len() ==> #[trigger] times[i] - times[i - 1] < AIRCRAFT_EXPIRATION_SECONDS,
        all_accepted(s, ms, times),
    ensures
        ({
            let key = aircraft_key_of(icao_address);
            let first = loaded_aircraft(s.read(key, times[0]));
            let last = processed_all(s, ms, times).read(key, times.last());
            &&& first.is_ok()
            &&& last matches Some(AggregateView::Aircraft(a)) && a.generation
                == first.unwrap().generation + ms.len()
        }),
    decreases ms.len(),
{
    let key = aircraft_key_of(icao_address);
    let front = ms.drop_last();
    let front_times = times.drop_last();
    let before = processed_all(s, front, front_times);
    assert(translated(ms.last()).icao_address() == icao_address);
    lemma_processed_counts_once(before, ms.last(), times.last());
    assert(processed_all(s, ms, times) == processed(before, ms.last(), times.last()).0);
    if front.len() > 0 {
        assert forall|i: int| 0 <= i < front.len() implies (#[trigger] front[i]).header.icao_address
            == icao_address by {
            assert(front[i] == ms[i]);
        }
        assert forall|i: int| 0 < i < front_times.len() implies #[trigger] front_times[i]
            - front_times[i - 1] < AIRCRAFT_EXPIRATION_SECONDS by {
            assert(front_times[i] == times[i]);
            assert(front_times[i - 1] == times[i - 1]);
        }
        lemma_no_update_lost(s, front, front_times, icao_address);
        assert(front_times[0] == times[0]);
        assert(front_times.last() == times[times.len() - 2]);
        let pen = front.drop_last();
        let earlier = processed_all(s, pen, front_times.drop_last());
        assert(translated(front.last()).icao_address() == icao_address);
        lemma_processed_counts_once(earlier, front.last(), front_times.last());
        assert(before == processed(earlier, front.last(), front_times.last()).0);
        assert(times.last() == times[times.len() - 1]);
        assert(before.read(key, times.last()) == before.read(key, front_times.last()));
    } else {
        assert(before == s);
        assert(times.last() == times[0]);
    }
}

} // verus!