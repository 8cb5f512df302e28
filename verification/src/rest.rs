//! The read side: the snapshot of all known aircraft, the snapshot of the
//! station directory, and the routing of a request path to one of them.
//! Nothing here changes the store.

use crate::esmodel::{AircraftState, AircraftStateView, StationListState, StationListStateView};
use crate::processor::{
    get_stations_list, loaded_stations, ProcessingError, AIRCRAFT_SET_KEY, STATION_LIST_KEY,
};
use crate::store::{Aggregate, AggregateStore, AggregateStoreView, AggregateView};
use vstd::prelude::*;

verus! {

/// What a request path asks for.
#[derive(Debug, Clone, Copy, PartialEq, Eq, Structural)]
pub enum Route {
    Stations,
    Aircraft,
    /// No resource has this path: the request is answered with a client
    /// error.
    Unknown,
}

/// The answer to a request.
#[derive(Debug, Clone)]
pub enum Response {
    Stations(StationListState),
    Aircraft(Vec<AircraftState>),
    BadRequest,
}

/// The lowercase equivalent of a text, as `str::to_lowercase` gives it.
pub uninterp spec fn lowercased(s: Seq<char>) -> Seq<char>;

/// Calls `str::to_lowercase`, whose result depends on the text alone.
#[verifier::external_body]
fn to_lowercase(s: &str) -> (r: String)
    ensures
        r@ == lowercased(s@),
{
    s.to_lowercase()
}

/// The route of a path that is in lower case already.
pub open spec fn routed(lowered: Seq<char>) -> Route {
    if lowered == "/stations"@ {
        Route::Stations
    } else if lowered == "/aircraft"@ {
        Route::Aircraft
    } else {
        Route::Unknown
    }
}

/// The views of a list of states.
pub open spec fn views(list: Seq<AircraftState>) -> Seq<AircraftStateView> {
    list.map_values(|a: AircraftState| a@)
}

/// The states readable at `now` under the keys of `keys`, in their order. A
/// key under which nothing is readable is passed over; one under which a
/// directory stands makes the listing fail.
pub open spec fn listed(s: AggregateStoreView, keys: Seq<Seq<char>>, now: u64) -> Result<
    Seq<AircraftStateView>,
    ProcessingError,
>
    decreases keys.len(),
{
    if keys.len() == 0 {
        Ok(Seq::empty())
    } else {
        match listed(s, keys.drop_last(), now) {
            Err(err) => Err(err),
            Ok(front) => match s.read(keys.last(), now) {
                None => Ok(front),
                Some(AggregateView::Aircraft(a)) => Ok(front.push(a)),
                Some(AggregateView::Stations(_)) => Err(ProcessingError::StateUnreadable),
            },
        }
    }
}

/// A listing that fails on the first keys fails on all of them, with the
/// same error.
proof fn lemma_listed_fails_on(
    s: AggregateStoreView,
    keys: Seq<Seq<char>>,
    k: int,
    now: u64,
)
    requires
        0 <= k <= keys.len(),
        listed(s, keys.subrange(0, k), now).is_err(),
    ensures
        listed(s, keys, now) == listed(s, keys.subrange(0, k), now),
    decreases keys.len() - k,
{
    if k < keys.len() {
        assert(keys.subrange(0, k + 1).drop_last() =~= keys.subrange(0, k));
        lemma_listed_fails_on(s, keys, k + 1, now);
    } else {
        assert(keys.subrange(0, k) =~= keys);
    }
}

/// A key whose entry has expired, or was never written, adds nothing to a
/// listing and does not make it fail.
pub proof fn lemma_listed_passes_over(
    s: AggregateStoreView,
    keys: Seq<Seq<char>>,
    key: Seq<char>,
    now: u64,
)
    requires
        s.read(key, now).is_none(),
    ensures
        listed(s, keys.push(key), now) == listed(s, keys, now),
{
    assert(keys.push(key).drop_last() =~= keys);
}

/// The route of a path that is in lower case already.
pub fn route_lowered(lowered: &str) -> (r: Route)
    ensures
        r == routed(lowered@),
{
    let path = lowered.to_owned();
    if path == "/stations".to_owned() {
        Route::Stations
    } else if path == "/aircraft".to_owned() {
        Route::Aircraft
    } else {
        Route::Unknown
    }
}

/// The route of a request path, whatever the case of its letters.
pub fn route(path: &str) -> (r: Route)
    ensures
        r == routed(lowercased(path@)),
{
    let lowered = to_lowercase(path);
    route_lowered(lowered.as_str())
}

/// The station directory as it stands at `now`; the vacant one where none
/// was written.
pub fn query_stations(store: &AggregateStore, now: u64) -> (r: Result<
    StationListState,
    ProcessingError,
>)
    requires
        store.wf(),
    ensures
        match r {
            Ok(d) => d.wf() && loaded_stations(store@.read(STATION_LIST_KEY@, now)) == Ok::<
                StationListStateView,
                ProcessingError,
            >(d@),
            Err(err) => loaded_stations(store@.read(STATION_LIST_KEY@, now)) == Err::<
                StationListStateView,
                ProcessingError,
            >(err),
        },
{
    get_stations_list(store, now)
}

/// The state of every aircraft whose key is in the set of aircraft keys and
/// whose entry is readable at `now`, in the order of the set. A key whose
/// entry has expired is passed over without an error.
pub fn query_aircraft(store: &AggregateStore, now: u64) -> (r: Result<
    Vec<AircraftState>,
    ProcessingError,
>)
    requires
        store.wf(),
    ensures
        match r {
            Ok(list) => listed(store@, store@.members(AIRCRAFT_SET_KEY@), now) == Ok::<
                Seq<AircraftStateView>,
                ProcessingError,
            >(views(list@)),
            Err(err) => listed(store@, store@.members(AIRCRAFT_SET_KEY@), now) == Err::<
                Seq<AircraftStateView>,
                ProcessingError,
            >(err),
        },
{
    let plane_keys = store.set_members(AIRCRAFT_SET_KEY);
    let ghost members = store@.members(AIRCRAFT_SET_KEY@);
    let mut planes: Vec<AircraftState> = Vec::new();
    let mut i: usize = 0;
    assert(members.subrange(0, 0) =~= Seq::<Seq<char>>::empty());
    assert(views(planes@) =~= Seq::<AircraftStateView>::empty());
    while i < plane_keys.len()
        invariant
            store.wf(),
            members == store@.members(AIRCRAFT_SET_KEY@),
            i <= plane_keys.len(),
            plane_keys@.len() == members.len(),
            forall|j: int| 0 <= j < plane_keys@.len() ==> (#[trigger] plane_keys[j])@ == members[j],
            listed(store@, members.subrange(0, i as int), now) == Ok::<
                Seq<AircraftStateView>,
                ProcessingError,
            >(views(planes@)),
        decreases plane_keys.len() - i,
    {
        let ghost before = planes@;
        let found = store.get(plane_keys[i].as_str(), now);
        proof {
            assert(members.subrange(0, i + 1).drop_last() =~= members.subrange(0, i as int));
            assert(members.subrange(0, i + 1).last() == members[i as int]);
        }
        match found {
            Some(Aggregate::Aircraft(s)) => {
                planes.push(s);
                assert(views(planes@) =~= views(before).push(s@));
            },
            Some(Aggregate::Stations(_)) => {
                proof {
                    lemma_listed_fails_on(store@, members, i + 1, now);
                }
                return Err(ProcessingError::StateUnreadable);
            },
            None => {},
        }
        i = i + 1;
    }
    assert(members.subrange(0, i as int) =~= members);
    Ok(planes)
}

/// Answers a request that was routed already.
pub fn respond(store: &AggregateStore, route: Route, now: u64) -> (r: Result<
    Response,
    ProcessingError,
>)
    requires
        store.wf(),
    ensures
        answers(store@, route, now, r),
{
    match route {
        Route::Stations => match query_stations(store, now) {
            Ok(d) => Ok(Response::Stations(d)),
            Err(err) => Err(err),
        },
        Route::Aircraft => match query_aircraft(store, now) {
            Ok(list) => Ok(Response::Aircraft(list)),
            Err(err) => Err(err),
        },
        Route::Unknown => Ok(Response::BadRequest),
    }
}

/// Whether `r` is the answer that the store gives at `now` to a request for
/// `route`: the directory, the list of aircraft, the error of the query that
/// failed, or the refusal of an unknown path.
pub open spec fn answers(
    s: AggregateStoreView,
    route: Route,
    now: u64,
    r: Result<Response, ProcessingError>,
) -> bool {
    match route {
        Route::Stations => match r {
            Ok(Response::Stations(d)) => d.wf() && loaded_stations(s.read(STATION_LIST_KEY@, now))
                == Ok::<StationListStateView, ProcessingError>(d@),
            Err(err) => loaded_stations(s.read(STATION_LIST_KEY@, now)) == Err::<
                StationListStateView,
                ProcessingError,
            >(err),
            _ => false,
        },
        Route::Aircraft => match r {
            Ok(Response::Aircraft(list)) => listed(s, s.members(AIRCRAFT_SET_KEY@), now) == Ok::<
                Seq<AircraftStateView>,
                ProcessingError,
            >(views(list@)),
            Err(err) => listed(s, s.members(AIRCRAFT_SET_KEY@), now) == Err::<
                Seq<AircraftStateView>,
                ProcessingError,
            >(err),
            _ => false,
        },
        Route::Unknown => r matches Ok(Response::BadRequest),
    }
}

/// Answers the request for `path`: the station directory for `/stations`,
/// the known aircraft for `/aircraft`, in any case of letters, and a client
/// error for every other path.
pub fn handle_http(store: &AggregateStore, path: &str, now: u64) -> (r: Result<
    Response,
    ProcessingError,
>)
    requires
        store.wf(),
    ensures
        answers(store@, routed(lowercased(path@)), now, r),
{
    respond(store, route(path), now)
}

} // verus!
