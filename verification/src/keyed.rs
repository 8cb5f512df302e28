//! A finite map keyed by strings, kept as two parallel vectors.
//!
//! No key occurs twice, and a key that is written again keeps its place, so
//! the keys come out in the order in which they were first written.

use vstd::prelude::*;

verus! {

/// A value with an invariant that can be copied, the copy being valid and
/// having the same view.
pub trait Replicate: View + Sized {
    /// The invariant of the value.
    spec fn valid(&self) -> bool;

    fn replicate(&self) -> (r: Self)
        requires
            self.valid(),
        ensures
            r.valid(),
            r@ == self@,
    ;
}

impl Replicate for String {
    open spec fn valid(&self) -> bool {
        true
    }

    fn replicate(&self) -> (r: Self) {
        self.clone()
    }
}

/// A map from strings to values of `V`.
#[derive(Debug, Clone)]
pub struct KeyedMap<V: Replicate> {
    keys: Vec<String>,
    values: Vec<V>,
}

impl<V: Replicate> View for KeyedMap<V> {
    type V = Map<Seq<char>, V::V>;

    closed spec fn view(&self) -> Map<Seq<char>, V::V> {
        Map::new(|k: Seq<char>| self.holds(k), |k: Seq<char>| self.values[self.slot(k)]@)
    }
}

impl<V: Replicate> KeyedMap<V> {
    /// No key occurs twice and every value is valid.
    pub closed spec fn wf(&self) -> bool {
        &&& self.keys.len() == self.values.len()
        &&& forall|i: int, j: int|
            0 <= i < j < self.keys.len() ==> #[trigger] self.keys[i]@ != #[trigger] self.keys[j]@
        &&& forall|i: int| 0 <= i < self.values.len() ==> (#[trigger] self.values[i]).valid()
    }

    /// The keys in the order in which they were first written.
    pub closed spec fn key_seq(&self) -> Seq<Seq<char>> {
        Seq::new(self.keys.len() as nat, |i: int| self.keys[i]@)
    }

    spec fn holds(&self, key: Seq<char>) -> bool {
        exists|i: int| 0 <= i < self.keys.len() && #[trigger] self.keys[i]@ == key
    }

    spec fn slot(&self, key: Seq<char>) -> int {
        choose|i: int| 0 <= i < self.keys.len() && #[trigger] self.keys[i]@ == key
    }

    proof fn lemma_slot(&self, i: int)
        requires
            self.wf(),
            0 <= i < self.keys.len(),
        ensures
            self.holds(self.keys[i]@),
            self.slot(self.keys[i]@) == i,
            self@.contains_key(self.keys[i]@),
            self@[self.keys[i]@] == self.values[i]@,
    {
        let k = self.keys[i]@;
        assert(self.holds(k));
        let j = self.slot(k);
        assert(0 <= j < self.keys.len() && self.keys[j]@ == k);
        if j < i {
            assert(self.keys[j]@ != self.keys[i]@);
        } else if i < j {
            assert(self.keys[i]@ != self.keys[j]@);
        }
    }

    /// The key sequence lists the map's domain, each key once.
    pub proof fn lemma_key_seq(&self)
        requires
            self.wf(),
        ensures
            self.key_seq().no_duplicates(),
            forall|k: Seq<char>| self.key_seq().contains(k) <==> self@.contains_key(k),
            self.key_seq().len() == self@.dom().len(),
            self@.dom().finite(),
    {
        let ks = self.key_seq();
        assert forall|i: int, j: int| 0 <= i < ks.len() && 0 <= j < ks.len() && i != j implies ks[i]
            != ks[j] by {
            if i < j {
                assert(self.keys[i]@ != self.keys[j]@);
            } else {
                assert(self.keys[j]@ != self.keys[i]@);
            }
        }
        assert forall|k: Seq<char>| ks.contains(k) <==> self@.contains_key(k) by {
            if ks.contains(k) {
                let i = choose|i: int| 0 <= i < ks.len() && ks[i] == k;
                assert(self.keys[i]@ == k);
            }
            if self@.contains_key(k) {
                let i = self.slot(k);
                assert(ks[i] == k);
            }
        }
        assert(ks.to_set() =~= self@.dom());
        ks.unique_seq_to_set();
    }

    /// The empty map.
    pub fn new() -> (r: Self)
        ensures
            r.wf(),
            r@ == Map::<Seq<char>, V::V>::empty(),
            r.key_seq() == Seq::<Seq<char>>::empty(),
    {
        let r = KeyedMap { keys: Vec::new(), values: Vec::new() };
        assert(r@ =~= Map::<Seq<char>, V::V>::empty());
        assert(r.key_seq() =~= Seq::<Seq<char>>::empty());
        r
    }

    /// The number of keys.
    pub fn len(&self) -> (n: usize)
        requires
            self.wf(),
        ensures
            n == self.key_seq().len(),
            n == self@.dom().len(),
    {
        proof {
            self.lemma_key_seq();
        }
        self.keys.len()
    }

    /// The key that was first written as the `i`-th.
    pub fn key_at(&self, i: usize) -> (k: &String)
        requires
            self.wf(),
            i < self.key_seq().len(),
        ensures
            k@ == self.key_seq()[i as int],
            self@.contains_key(k@),
    {
        proof {
            self.lemma_slot(i as int);
        }
        &self.keys[i]
    }

    /// The value under the key that was first written as the `i`-th.
    pub fn value_at(&self, i: usize) -> (v: &V)
        requires
            self.wf(),
            i < self.key_seq().len(),
        ensures
            self@.contains_key(self.key_seq()[i as int]),
            v@ == self@[self.key_seq()[i as int]],
            v.valid(),
    {
        proof {
            self.lemma_slot(i as int);
        }
        &self.values[i]
    }

    fn find(&self, key: &String) -> (r: Option<usize>)
        requires
            self.wf(),
        ensures
            match r {
                Some(i) => i < self.keys.len() && self.keys[i as int]@ == key@,
                None => !self.holds(key@),
            },
    {
        let mut i: usize = 0;
        while i < self.keys.len()
            invariant
                i <= self.keys.len(),
                forall|j: int| 0 <= j < i ==> #[trigger] self.keys[j]@ != key@,
            decreases self.keys.len() - i,
        {
            if self.keys[i] == *key {
                return Some(i);
            }
            i = i + 1;
        }
        None
    }

    /// The value under `key`, if the map holds one.
    pub fn get(&self, key: &String) -> (r: Option<&V>)
        requires
            self.wf(),
        ensures
            r.is_some() == self@.contains_key(key@),
            r.is_some() ==> r.unwrap()@ == self@[key@] && r.unwrap().valid(),
    {
        match self.find(key) {
            Some(i) => {
                proof {
                    self.lemma_slot(i as int);
                }
                Some(&self.values[i])
            },
            None => None,
        }
    }

    /// Writes `value` under `key`, in place of what the map held there.
    pub fn insert(&mut self, key: String, value: V)
        requires
            old(self).wf(),
            value.valid(),
        ensures
            final(self).wf(),
            final(self)@ == old(self)@.insert(key@, value@),
            old(self)@.contains_key(key@) ==> final(self).key_seq() == old(self).key_seq(),
            !old(self)@.contains_key(key@) ==> final(self).key_seq() == old(self).key_seq().push(
                key@,
            ),
    {
        let ghost before = *self;
        match self.find(&key) {
            Some(i) => {
                self.values.set(i, value);
                assert(self.wf());
                assert(self.key_seq() =~= before.key_seq());
                assert forall|k: Seq<char>| self@.contains_key(k) implies #[trigger] self@[k]
                    == before@.insert(key@, value@)[k] by {
                    let j = self.slot(k);
                    self.lemma_slot(j);
                    before.lemma_slot(j);
                    before.lemma_slot(i as int);
                }
                assert(self@ =~= before@.insert(key@, value@));
            },
            None => {
                self.keys.push(key);
                self.values.push(value);
                let ghost n = before.keys.len() as int;
                assert(self.wf()) by {
                    assert forall|i: int, j: int| 0 <= i < j < self.keys.len() implies 
                        #[trigger] self.keys[i]@ != #[trigger] self.keys[j]@ by {
                        if j < n {
                            assert(before.keys[i]@ != before.keys[j]@);
                        } else {
                            assert(before.keys[i]@ != key@);
                        }
                    }
                }
                assert(self.key_seq() =~= before.key_seq().push(key@));
                proof {
                    self.lemma_slot(n);
                }
                let ghost after = before@.insert(key@, value@);
                assert(self.keys[n]@ == key@);
                assert forall|k: Seq<char>| self@.contains_key(k) == after.contains_key(k) by {
                    if before@.contains_key(k) {
                        let j = before.slot(k);
                        assert(self.keys[j]@ == k);
                    }
                    if self@.contains_key(k) && k != key@ {
                        let j = self.slot(k);
                        assert(before.keys[j]@ == k);
                    }
                }
                assert forall|k: Seq<char>| self@.contains_key(k) implies self@[k] == after[k] by {
                    if k != key@ {
                        let j = before.slot(k);
                        before.lemma_slot(j);
                        self.lemma_slot(j);
                    }
                }
                assert(self@ =~= before@.insert(key@, value@));
            },
        }
    }
}

impl<V: Replicate> KeyedMap<V> {
    /// A copy that holds the same keys in the same order, each with a copy of
    /// its value.
    pub fn duplicate(&self) -> (r: Self)
        requires
            self.wf(),
        ensures
            r.wf(),
            r@ == self@,
            r.key_seq() == self.key_seq(),
    {
        let mut keys: Vec<String> = Vec::new();
        let mut values: Vec<V> = Vec::new();
        let mut i: usize = 0;
        while i < self.keys.len() && i < self.values.len()
            invariant
                i <= self.keys.len(),
                i <= self.values.len(),
                keys@ == self.keys@.subrange(0, i as int),
                self.wf(),
                values.len() == i,
                forall|j: int| 0 <= j < i ==> (#[trigger] values[j])@ == self.values[j]@,
                forall|j: int| 0 <= j < i ==> (#[trigger] values[j]).valid(),
            decreases self.keys.len() - i,
        {
            keys.push(self.keys[i].clone());
            values.push(self.values[i].replicate());
            i = i + 1;
            assert(keys@ =~= self.keys@.subrange(0, i as int));
        }
        let r = KeyedMap { keys, values };
        proof {
            assert(r.keys@ =~= self.keys@);
            assert(r.wf());
            assert(r.key_seq() =~= self.key_seq());
            assert forall|k: Seq<char>| r@.contains_key(k) == self@.contains_key(k) by {
                if r@.contains_key(k) {
                    assert(self.keys[r.slot(k)]@ == k);
                }
                if self@.contains_key(k) {
                    assert(r.keys[self.slot(k)]@ == k);
                }
            }
            assert forall|k: Seq<char>| r@.contains_key(k) implies r@[k] == self@[k] by {
                let j = self.slot(k);
                self.lemma_slot(j);
                r.lemma_slot(j);
            }
            assert(r@ =~= self@);
        }
        r
    }
}

impl<V: Replicate> Replicate for KeyedMap<V> {
    open spec fn valid(&self) -> bool {
        self.wf()
    }

    fn replicate(&self) -> (r: Self) {
        self.duplicate()
    }
}

/// The presence of a key in a `KeySet`.
#[derive(Debug, Clone, Copy)]
pub struct Present;

impl View for Present {
    type V = ();

    open spec fn view(&self) -> () {
        ()
    }
}

impl Replicate for Present {
    open spec fn valid(&self) -> bool {
        true
    }

    fn replicate(&self) -> (r: Self) {
        Present
    }
}

/// A set of strings that remembers the order in which its members came.
#[derive(Debug, Clone)]
pub struct KeySet {
    items: KeyedMap<Present>,
}

impl View for KeySet {
    type V = Seq<Seq<char>>;

    /// The members, first come first.
    closed spec fn view(&self) -> Seq<Seq<char>> {
        self.items.key_seq()
    }
}

impl KeySet {
    /// No member occurs twice.
    pub closed spec fn wf(&self) -> bool {
        self.items.wf()
    }

    /// The view holds no member twice.
    pub proof fn lemma_no_duplicates(&self)
        requires
            self.wf(),
        ensures
            self@.no_duplicates(),
    {
        self.items.lemma_key_seq();
    }

    /// The empty set.
    pub fn new() -> (r: Self)
        ensures
            r.wf(),
            r@ == Seq::<Seq<char>>::empty(),
    {
        KeySet { items: KeyedMap::new() }
    }

    /// Adds `member`, unless the set holds it already.
    pub fn add(&mut self, member: String)
        requires
            old(self).wf(),
        ensures
            final(self).wf(),
            final(self)@ == with_member(old(self)@, member@),
    {
        proof {
            self.items.lemma_key_seq();
        }
        self.items.insert(member, Present);
    }

    /// The members, first come first.
    pub fn members(&self) -> (r: Vec<String>)
        requires
            self.wf(),
        ensures
            r@.len() == self@.len(),
            forall|i: int| 0 <= i < r@.len() ==> (#[trigger] r[i])@ == self@[i],
    {
        let mut r: Vec<String> = Vec::new();
        let n = self.items.len();
        let mut i: usize = 0;
        while i < n
            invariant
                self.wf(),
                n == self@.len(),
                i <= n,
                r@.len() == i,
                forall|j: int| 0 <= j < i ==> (#[trigger] r[j])@ == self@[j],
            decreases n - i,
        {
            r.push(self.items.key_at(i).clone());
            i = i + 1;
        }
        r
    }
}

/// `members` with `member` at its end, unless it is there already.
pub open spec fn with_member(members: Seq<Seq<char>>, member: Seq<char>) -> Seq<Seq<char>> {
    if members.contains(member) {
        members
    } else {
        members.push(member)
    }
}

impl Replicate for KeySet {
    open spec fn valid(&self) -> bool {
        self.wf()
    }

    fn replicate(&self) -> (r: Self) {
        let r = KeySet { items: self.items.duplicate() };
        r
    }
}

} // verus!
