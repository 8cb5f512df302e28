//! The keyed store of aggregates.
//!
//! An entry may be written with a time to live, counted in seconds from the
//! write: once that time has passed the entry can no longer be read, and
//! writing it again starts the count anew. Beside the entries the store keeps
//! named sets of keys, which never expire, so that a reader can enumerate the
//! keys that were written without scanning the entries; a key in such a set
//! may belong to an entry that has expired.
//!
//! The store holds the aggregates themselves; how they are written out as
//! bytes is the caller's matter. A value of the other kind under the key of
//! an aggregate is to this store what bytes that do not decode are to one
//! that holds bytes.
//!
//! The store has no clock of its own: every call is given the time. It is
//! changed through `&mut` alone, so each key has one writer at a time and no
//! update is lost between a read and the write that follows it.

use crate::esmodel::{AircraftState, AircraftStateView, StationListState, StationListStateView};
use crate::keyed::{with_member, KeySet, KeyedMap, Replicate};
use vstd::prelude::*;

verus! {

/// A stored aggregate of either kind.
#[derive(Debug, Clone)]
pub enum Aggregate {
    Aircraft(AircraftState),
    Stations(StationListState),
}

pub enum AggregateView {
    Aircraft(AircraftStateView),
    Stations(StationListStateView),
}

impl View for Aggregate {
    type V = AggregateView;

    open spec fn view(&self) -> AggregateView {
        match *self {
            Aggregate::Aircraft(s) => AggregateView::Aircraft(s@),
            Aggregate::Stations(d) => AggregateView::Stations(d@),
        }
    }
}

impl Replicate for Aggregate {
    open spec fn valid(&self) -> bool {
        match *self {
            Aggregate::Aircraft(_) => true,
            Aggregate::Stations(d) => d.wf(),
        }
    }

    fn replicate(&self) -> (r: Self) {
        match self {
            Aggregate::Aircraft(s) => Aggregate::Aircraft(s.replicate()),
            Aggregate::Stations(d) => Aggregate::Stations(d.replicate()),
        }
    }
}

/// An aggregate with the time of its last write and its time to live.
#[derive(Debug, Clone)]
pub struct Entry {
    pub value: Aggregate,
    pub written_at: u64,
    pub ttl: Option<u32>,
}

pub struct EntryView {
    pub value: AggregateView,
    pub written_at: u64,
    pub ttl: Option<u32>,
}

impl EntryView {
    /// Whether the entry can be read at `now`: it has no time to live, or
    /// fewer seconds than that have passed since it was written.
    pub open spec fn live_at(self, now: u64) -> bool {
        match self.ttl {
            None => true,
            Some(ttl) => now - self.written_at < ttl,
        }
    }
}

impl View for Entry {
    type V = EntryView;

    open spec fn view(&self) -> EntryView {
        EntryView { value: self.value@, written_at: self.written_at, ttl: self.ttl }
    }
}

impl Replicate for Entry {
    open spec fn valid(&self) -> bool {
        self.value.valid()
    }

    fn replicate(&self) -> (r: Self) {
        Entry { value: self.value.replicate(), written_at: self.written_at, ttl: self.ttl }
    }
}

impl Entry {
    /// Whether the entry can be read at `now`.
    pub fn live_at(&self, now: u64) -> (r: bool)
        ensures
            r == self@.live_at(now),
    {
        match self.ttl {
            None => true,
            Some(ttl) => now < self.written_at || now - self.written_at < ttl as u64,
        }
    }
}

/// The store: entries by key, and sets of keys by name.
#[derive(Debug, Clone)]
pub struct AggregateStore {
    entries: KeyedMap<Entry>,
    sets: KeyedMap<KeySet>,
}

pub struct AggregateStoreView {
    /// Every entry that was written, readable or not.
    pub entries: Map<Seq<char>, EntryView>,
    /// The members of each set, first come first.
    pub sets: Map<Seq<char>, Seq<Seq<char>>>,
}

impl AggregateStoreView {
    /// The store that holds nothing.
    pub open spec fn vacant() -> AggregateStoreView {
        AggregateStoreView { entries: Map::empty(), sets: Map::empty() }
    }

    /// What a reader finds under `key` at `now`.
    pub open spec fn read(self, key: Seq<char>, now: u64) -> Option<AggregateView> {
        if self.entries.contains_key(key) && self.entries[key].live_at(now) {
            Some(self.entries[key].value)
        } else {
            None
        }
    }

    /// The members of the set `set_key`; a set that was never added to is
    /// empty.
    pub open spec fn members(self, set_key: Seq<char>) -> Seq<Seq<char>> {
        if self.sets.contains_key(set_key) {
            self.sets[set_key]
        } else {
            Seq::empty()
        }
    }

    /// The store after `value` is written under `key` at `now`.
    pub open spec fn written(
        self,
        key: Seq<char>,
        value: AggregateView,
        ttl: Option<u32>,
        now: u64,
    ) -> AggregateStoreView {
        AggregateStoreView {
            entries: self.entries.insert(key, EntryView { value, written_at: now, ttl }),
            ..self
        }
    }

    /// The store after `member` is added to the set `set_key`.
    pub open spec fn indexed(self, set_key: Seq<char>, member: Seq<char>) -> AggregateStoreView {
        AggregateStoreView {
            sets: self.sets.insert(set_key, with_member(self.members(set_key), member)),
            ..self
        }
    }
}

impl View for AggregateStore {
    type V = AggregateStoreView;

    closed spec fn view(&self) -> AggregateStoreView {
        AggregateStoreView { entries: self.entries@, sets: self.sets@ }
    }
}

impl AggregateStore {
    /// No key occurs twice, among the entries or in a set, and every stored
    /// aggregate is valid.
    pub closed spec fn wf(&self) -> bool {
        self.entries.wf() && self.sets.wf()
    }

    /// A store that holds nothing.
    pub fn new() -> (r: Self)
        ensures
            r.wf(),
            r@ == AggregateStoreView::vacant(),
    {
        AggregateStore { entries: KeyedMap::new(), sets: KeyedMap::new() }
    }

    /// A copy of what is readable under `key` at `now`. The store is left as
    /// it is.
    pub fn get(&self, key: &str, now: u64) -> (r: Option<Aggregate>)
        requires
            self.wf(),
        ensures
            match r {
                Some(value) => value.valid() && self@.read(key@, now) == Some(value@),
                None => self@.read(key@, now).is_none(),
            },
    {
        let k = key.to_owned();
        match self.entries.get(&k) {
            Some(entry) => {
                if entry.live_at(now) {
                    Some(entry.value.replicate())
                } else {
                    None
                }
            },
            None => None,
        }
    }

    /// Writes `value` under `key`, in place of what was there. With a time to
    /// live the entry can be read for that many seconds from `now`.
    pub fn set(&mut self, key: &str, value: Aggregate, ttl: Option<u32>, now: u64)
        requires
            old(self).wf(),
            value.valid(),
        ensures
            final(self).wf(),
            final(self)@ == old(self)@.written(key@, value@, ttl, now),
    {
        self.entries.insert(key.to_owned(), Entry { value, written_at: now, ttl });
    }

    /// Adds `member` to the set `set_key`, unless the set holds it already.
    pub fn set_add(&mut self, set_key: &str, member: &str)
        requires
            old(self).wf(),
        ensures
            final(self).wf(),
            final(self)@ == old(self)@.indexed(set_key@, member@),
    {
        let k = set_key.to_owned();
        let mut set = match self.sets.get(&k) {
            Some(found) => found.replicate(),
            None => KeySet::new(),
        };
        set.add(member.to_owned());
        self.sets.insert(k, set);
    }

    /// The members of the set `set_key`, first come first.
    pub fn set_members(&self, set_key: &str) -> (r: Vec<String>)
        requires
            self.wf(),
        ensures
            r@.len() == self@.members(set_key@).len(),
            forall|i: int| 0 <= i < r@.len() ==> (#[trigger] r[i])@ == self@.members(set_key@)[i],
    {
        let k = set_key.to_owned();
        match self.sets.get(&k) {
            Some(found) => found.members(),
            None => Vec::new(),
        }
    }
}

/// An entry written with a time to live can be read while fewer seconds than
/// that have passed since the write, and not from then on.
pub proof fn lemma_entry_expires(
    s: AggregateStoreView,
    key: Seq<char>,
    value: AggregateView,
    ttl: u32,
    written_at: u64,
    now: u64,
)
    ensures
        s.written(key, value, Some(ttl), written_at).read(key, now) == (if now - written_at < ttl {
            Some(value)
        } else {
            None
        }),
        s.written(key, value, None, written_at).read(key, now) == Some(value),
{
}

/// Writing an entry again starts its time to live anew: what was written
/// before no longer decides when it expires.
pub proof fn lemma_rewrite_slides_expiry(
    s: AggregateStoreView,
    key: Seq<char>,
    first: AggregateView,
    second: AggregateView,
    ttl: u32,
    first_at: u64,
    second_at: u64,
    now: u64,
)
    ensures
        s.written(key, first, Some(ttl), first_at).written(key, second, Some(ttl), second_at).read(
            key,
            now,
        ) == (if now - second_at < ttl {
            Some(second)
        } else {
            None
        }),
{
}

/// A write changes what is read under its own key and under no other, and
/// leaves every set as it was.
pub proof fn lemma_write_is_local(
    s: AggregateStoreView,
    key: Seq<char>,
    value: AggregateView,
    ttl: Option<u32>,
    written_at: u64,
    other: Seq<char>,
    now: u64,
)
    requires
        other != key,
    ensures
        s.written(key, value, ttl, written_at).read(other, now) == s.read(other, now),
        s.written(key, value, ttl, written_at).sets == s.sets,
{
}

} // verus!
