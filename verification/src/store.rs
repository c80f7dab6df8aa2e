//! The key-value store that the editor fills.
//!
//! The store is a mapping from text keys to text values. It keeps its entries
//! in the order in which their keys first arrived, so that a listing of the
//! store is stable from one frame to the next; writing a key that is already
//! there replaces its value in place.

use vstd::prelude::*;

verus! {

/// No two entries of `listing` have the same key.
pub open spec fn keys_distinct(listing: Seq<(Seq<char>, Seq<char>)>) -> bool {
    forall|i: int, j: int|
        0 <= i < j < listing.len() ==> (#[trigger] listing[i]).0 != (#[trigger] listing[j]).0
}

/// Some entry of `listing` has the key `key`.
pub open spec fn has_key(listing: Seq<(Seq<char>, Seq<char>)>, key: Seq<char>) -> bool {
    exists|i: int| 0 <= i < listing.len() && (#[trigger] listing[i]).0 == key
}

/// The place of the entry of `listing` that has the key `key`, where there is
/// one.
pub open spec fn key_index(listing: Seq<(Seq<char>, Seq<char>)>, key: Seq<char>) -> int {
    choose|i: int| 0 <= i < listing.len() && (#[trigger] listing[i]).0 == key
}

/// The listing after `value` was written under `key`: an entry that has the
/// key keeps its place and takes the value; without one, a new entry goes to
/// the end.
pub open spec fn listing_written(
    listing: Seq<(Seq<char>, Seq<char>)>,
    key: Seq<char>,
    value: Seq<char>,
) -> Seq<(Seq<char>, Seq<char>)> {
    if has_key(listing, key) {
        listing.update(key_index(listing, key), (key, value))
    } else {
        listing.push((key, value))
    }
}

/// `pairs` written into `store` one after the other.
pub open spec fn written(
    store: Map<Seq<char>, Seq<char>>,
    pairs: Seq<(Seq<char>, Seq<char>)>,
) -> Map<Seq<char>, Seq<char>>
    decreases pairs.len(),
{
    if pairs.len() == 0 {
        store
    } else {
        written(store, pairs.drop_last()).insert(pairs.last().0, pairs.last().1)
    }
}

/// The mapping that results from writing the entries of `listing` one after
/// the other into an empty mapping.
pub open spec fn listing_map(listing: Seq<(Seq<char>, Seq<char>)>) -> Map<Seq<char>, Seq<char>> {
    written(Map::empty(), listing)
}

/// The keys of `pairs`.
pub open spec fn keys_of(pairs: Seq<(Seq<char>, Seq<char>)>) -> Set<Seq<char>> {
    Set::new(|key: Seq<char>| has_key(pairs, key))
}

/// No later entry of `pairs` has the key of the entry at `at`.
pub open spec fn is_last_write(pairs: Seq<(Seq<char>, Seq<char>)>, at: int) -> bool {
    &&& 0 <= at < pairs.len()
    &&& forall|later: int| at < later < pairs.len() ==> (#[trigger] pairs[later]).0 != pairs[at].0
}

/// The entries of a vector of pairs of strings, as text.
pub open spec fn pairs_view(pairs: Seq<(String, String)>) -> Seq<(Seq<char>, Seq<char>)> {
    Seq::new(pairs.len(), |i: int| (pairs[i].0@, pairs[i].1@))
}

/// A key has an entry in a listing if it has one in all but the last entry or
/// is the key of the last.
proof fn lemma_has_key_step(pairs: Seq<(Seq<char>, Seq<char>)>, key: Seq<char>)
    requires
        pairs.len() > 0,
    ensures
        has_key(pairs, key) <==> has_key(pairs.drop_last(), key) || pairs.last().0 == key,
{
    let front = pairs.drop_last();
    if has_key(front, key) {
        let i = choose|i: int| 0 <= i < front.len() && (#[trigger] front[i]).0 == key;
        assert(pairs[i].0 == key);
    }
    if pairs.last().0 == key {
        assert(pairs[pairs.len() - 1].0 == key);
    }
    if has_key(pairs, key) && pairs.last().0 != key {
        let i = choose|i: int| 0 <= i < pairs.len() && (#[trigger] pairs[i]).0 == key;
        assert(front[i].0 == key);
    }
}

/// After a sequence of writes a store has the keys that it had and the keys
/// that were written, and no others.
pub proof fn lemma_written_keys(
    store: Map<Seq<char>, Seq<char>>,
    pairs: Seq<(Seq<char>, Seq<char>)>,
)
    ensures
        store.dom().finite() ==> written(store, pairs).dom().finite(),
        written(store, pairs).dom() == store.dom().union(keys_of(pairs)),
        forall|key: Seq<char>|
            #![trigger written(store, pairs).contains_key(key)]
            #![trigger has_key(pairs, key)]
            written(store, pairs).contains_key(key) <==> store.contains_key(key) || has_key(
                pairs,
                key,
            ),
    decreases pairs.len(),
{
    if pairs.len() > 0 {
        lemma_written_keys(store, pairs.drop_last());
        assert forall|key: Seq<char>|
            written(store, pairs).contains_key(key) <==> store.contains_key(key) || has_key(
                pairs,
                key,
            ) by {
            lemma_has_key_step(pairs, key);
        }
    }
    assert(written(store, pairs).dom() =~= store.dom().union(keys_of(pairs)));
}

/// After a sequence of writes a store holds, for a key that was written, the
/// value of the last write to it.
pub proof fn lemma_written_last(
    store: Map<Seq<char>, Seq<char>>,
    pairs: Seq<(Seq<char>, Seq<char>)>,
    at: int,
)
    requires
        is_last_write(pairs, at),
    ensures
        written(store, pairs).contains_key(pairs[at].0),
        written(store, pairs)[pairs[at].0] == pairs[at].1,
    decreases pairs.len(),
{
    if at < pairs.len() - 1 {
        let front = pairs.drop_last();
        assert(pairs[pairs.len() - 1].0 != pairs[at].0);
        assert(is_last_write(front, at)) by {
            assert forall|later: int| at < later < front.len() implies (#[trigger] front[later]).0
                != front[at].0 by {
                assert(pairs[later].0 != pairs[at].0);
            }
        }
        lemma_written_last(store, front, at);
    }
}

/// After a sequence of writes a store holds, for a key that was not written,
/// what it held before.
pub proof fn lemma_written_others(
    store: Map<Seq<char>, Seq<char>>,
    pairs: Seq<(Seq<char>, Seq<char>)>,
    key: Seq<char>,
)
    requires
        !has_key(pairs, key),
    ensures
        written(store, pairs).contains_key(key) == store.contains_key(key),
        written(store, pairs)[key] == store[key],
    decreases pairs.len(),
{
    if pairs.len() > 0 {
        lemma_has_key_step(pairs, key);
        lemma_written_others(store, pairs.drop_last(), key);
    }
}

/// The keys of `listing_map(listing)` are the keys of the entries, and there
/// are finitely many of them.
pub proof fn lemma_listing_map_keys(listing: Seq<(Seq<char>, Seq<char>)>)
    ensures
        listing_map(listing).dom().finite(),
        forall|key: Seq<char>|
            #![trigger listing_map(listing).contains_key(key)]
            #![trigger has_key(listing, key)]
            listing_map(listing).contains_key(key) <==> has_key(listing, key),
{
    lemma_written_keys(Map::empty(), listing);
}

/// Where the keys are distinct, `listing_map(listing)` has one key for each
/// entry and gives each key the value of its entry.
pub proof fn lemma_listing_map_values(listing: Seq<(Seq<char>, Seq<char>)>)
    requires
        keys_distinct(listing),
    ensures
        listing_map(listing).len() == listing.len(),
        forall|i: int|
            0 <= i < listing.len() ==> listing_map(listing).contains_key(
                (#[trigger] listing[i]).0,
            ) && listing_map(listing)[listing[i].0] == listing[i].1,
    decreases listing.len(),
{
    assert forall|i: int| 0 <= i < listing.len() implies listing_map(listing).contains_key(
        (#[trigger] listing[i]).0,
    ) && listing_map(listing)[listing[i].0] == listing[i].1 by {
        assert(is_last_write(listing, i)) by {
            assert forall|later: int| i < later < listing.len() implies (
            #[trigger] listing[later]).0 != listing[i].0 by {
                assert(listing[i].0 != listing[later].0);
            }
        }
        lemma_written_last(Map::empty(), listing, i);
    }
    if listing.len() > 0 {
        let front = listing.drop_last();
        let last = listing.last();
        assert(keys_distinct(front)) by {
            assert forall|i: int, j: int| 0 <= i < j < front.len() implies (#[trigger] front[i]).0
                != (#[trigger] front[j]).0 by {
                assert(listing[i].0 != listing[j].0);
            }
        }
        lemma_listing_map_values(front);
        lemma_listing_map_keys(front);
        assert(!listing_map(front).contains_key(last.0)) by {
            if has_key(front, last.0) {
                let i = choose|i: int| 0 <= i < front.len() && (#[trigger] front[i]).0 == last.0;
                assert(listing[i].0 != listing[listing.len() - 1].0);
            }
        }
    }
}

/// Adding an entry at the end of a listing writes it into the mapping.
pub proof fn lemma_listing_map_push(
    listing: Seq<(Seq<char>, Seq<char>)>,
    key: Seq<char>,
    value: Seq<char>,
)
    ensures
        listing_map(listing.push((key, value))) == listing_map(listing).insert(key, value),
{
    assert(listing.push((key, value)).drop_last() =~= listing);
}

/// Replacing the value of an entry in place writes the entry's key into the
/// mapping with the new value.
pub proof fn lemma_listing_map_update(
    listing: Seq<(Seq<char>, Seq<char>)>,
    at: int,
    value: Seq<char>,
)
    requires
        keys_distinct(listing),
        0 <= at < listing.len(),
    ensures
        keys_distinct(listing.update(at, (listing[at].0, value))),
        listing_map(listing.update(at, (listing[at].0, value))) == listing_map(listing).insert(
            listing[at].0,
            value,
        ),
{
    let key = listing[at].0;
    let updated = listing.update(at, (key, value));
    assert(keys_distinct(updated)) by {
        assert forall|i: int, j: int| 0 <= i < j < updated.len() implies (#[trigger] updated[i]).0
            != (#[trigger] updated[j]).0 by {
            assert(listing[i].0 != listing[j].0);
        }
    }
    lemma_listing_map_keys(listing);
    lemma_listing_map_keys(updated);
    lemma_listing_map_values(listing);
    lemma_listing_map_values(updated);
    let left = listing_map(updated);
    let right = listing_map(listing).insert(key, value);
    assert forall|k: Seq<char>| left.contains_key(k) <==> right.contains_key(k) by {
        if has_key(updated, k) {
            let i = choose|i: int| 0 <= i < updated.len() && (#[trigger] updated[i]).0 == k;
            assert(listing[i].0 == k);
        }
        if has_key(listing, k) {
            let i = choose|i: int| 0 <= i < listing.len() && (#[trigger] listing[i]).0 == k;
            assert(updated[i].0 == k);
        }
        if k == key {
            assert(updated[at].0 == k);
        }
    }
    assert forall|k: Seq<char>| left.contains_key(k) implies left[k] == right[k] by {
        assert(has_key(updated, k));
        let i = choose|i: int| 0 <= i < updated.len() && (#[trigger] updated[i]).0 == k;
        assert(left[updated[i].0] == updated[i].1);
        if i != at {
            assert(listing[i].0 == k);
            if i < at {
                assert(listing[i].0 != listing[at].0);
            } else {
                assert(listing[at].0 != listing[i].0);
            }
            assert(listing_map(listing)[listing[i].0] == listing[i].1);
        }
    }
    assert(left =~= right);
}

/// A mapping from text keys to text values.
///
/// Keys are unique: writing a key again replaces its value. The entries are
/// kept in the order in which their keys were first written.
pub struct KeyValueStore {
    entries: Vec<(String, String)>,
}

impl View for KeyValueStore {
    type V = Map<Seq<char>, Seq<char>>;

    /// The store as a mapping.
    open spec fn view(&self) -> Map<Seq<char>, Seq<char>> {
        listing_map(self.listing())
    }
}

impl KeyValueStore {
    /// The entries of the store in the order in which their keys were first
    /// written.
    pub closed spec fn listing(&self) -> Seq<(Seq<char>, Seq<char>)> {
        pairs_view(self.entries@)
    }

    #[verifier::type_invariant]
    spec fn keys_are_unique(&self) -> bool {
        keys_distinct(self.listing())
    }

    /// An empty store.
    pub fn new() -> (store: KeyValueStore)
        ensures
            store.listing() == Seq::<(Seq<char>, Seq<char>)>::empty(),
            store@ == Map::<Seq<char>, Seq<char>>::empty(),
    {
        let store = KeyValueStore { entries: Vec::new() };
        assert(store.listing() =~= Seq::<(Seq<char>, Seq<char>)>::empty());
        store
    }

    /// The number of entries.
    pub fn len(&self) -> (count: usize)
        ensures
            count == self@.len(),
            count == self.listing().len(),
    {
        proof {
            use_type_invariant(self);
            lemma_listing_map_values(self.listing());
        }
        self.entries.len()
    }

    /// True if the store has no entry.
    pub fn is_empty(&self) -> (empty: bool)
        ensures
            empty == (self@ == Map::<Seq<char>, Seq<char>>::empty()),
            empty == (self.listing().len() == 0),
    {
        proof {
            use_type_invariant(self);
            lemma_listing_map_values(self.listing());
            lemma_listing_map_keys(self.listing());
            if self.listing().len() == 0 {
                assert(self@ =~= Map::<Seq<char>, Seq<char>>::empty());
            }
        }
        self.entries.len() == 0
    }

    /// The place of `key` in the listing, if the store has it.
    fn position(&self, key: &String) -> (place: Option<usize>)
        ensures
            match place {
                Some(at) => at < self.listing().len() && self.listing()[at as int].0 == key@,
                None => !has_key(self.listing(), key@),
            },
    {
        let mut at: usize = 0;
        while at < self.entries.len()
            invariant
                at <= self.entries.len(),
                forall|i: int| 0 <= i < at ==> (#[trigger] self.listing()[i]).0 != key@,
            decreases self.entries.len() - at,
        {
            if self.entries[at].0 == *key {
                return Some(at);
            }
            at += 1;
        }
        None
    }

    /// True if the store has an entry for `key`.
    pub fn contains_key(&self, key: &String) -> (found: bool)
        ensures
            found == self@.contains_key(key@),
    {
        proof {
            lemma_listing_map_keys(self.listing());
        }
        let place = self.position(key);
        proof {
            if let Some(at) = place {
                assert(self.listing()[at as int].0 == key@);
                assert(has_key(self.listing(), key@));
            }
        }
        place.is_some()
    }

    /// The value stored for `key`, if there is one.
    pub fn get(&self, key: &String) -> (value: Option<&String>)
        ensures
            match value {
                Some(text) => self@.contains_key(key@) && text@ == self@[key@],
                None => !self@.contains_key(key@),
            },
    {
        proof {
            use_type_invariant(self);
            lemma_listing_map_keys(self.listing());
            lemma_listing_map_values(self.listing());
        }
        match self.position(key) {
            Some(at) => {
                assert(self@[self.listing()[at as int].0] == self.listing()[at as int].1);
                Some(&self.entries[at].1)
            },
            None => None,
        }
    }

    /// Writes `value` under `key` and hands back the value that it replaces.
    ///
    /// A key that the store already has keeps its place in the listing; a new
    /// key goes to the end.
    pub fn insert(&mut self, key: String, value: String) -> (previous: Option<String>)
        ensures
            final(self)@ == old(self)@.insert(key@, value@),
            match previous {
                Some(text) => old(self)@.contains_key(key@) && text@ == old(self)@[key@],
                None => !old(self)@.contains_key(key@),
            },
            final(self).listing() == listing_written(old(self).listing(), key@, value@),
    {
        proof {
            use_type_invariant(&*self);
            lemma_listing_map_keys(self.listing());
            lemma_listing_map_values(self.listing());
        }
        let ghost before = self.listing();
        // The entries are taken out of the store while they change and put
        // back when they are whole again.
        match self.position(&key) {
            Some(at) => {
                let previous = self.entries[at].1.clone();
                let mut entries: Vec<(String, String)> = Vec::new();
                std::mem::swap(&mut self.entries, &mut entries);
                entries[at] = (key, value);
                proof {
                    lemma_listing_map_update(before, at as int, value@);
                    assert(pairs_view(entries@) =~= before.update(at as int, (key@, value@)));
                    let chosen = key_index(before, key@);
                    assert(before[at as int].0 == key@);
                    assert(has_key(before, key@));
                    assert(chosen == at) by {
                        if chosen < at {
                            assert(before[chosen].0 != before[at as int].0);
                        }
                        if at < chosen {
                            assert(before[at as int].0 != before[chosen].0);
                        }
                    }
                }
                std::mem::swap(&mut self.entries, &mut entries);
                Some(previous)
            },
            None => {
                let mut entries: Vec<(String, String)> = Vec::new();
                std::mem::swap(&mut self.entries, &mut entries);
                entries.push((key, value));
                proof {
                    let after = pairs_view(entries@);
                    assert(after =~= before.push((key@, value@)));
                    assert forall|i: int, j: int| 0 <= i < j < after.len() implies (
                    #[trigger] after[i]).0 != (#[trigger] after[j]).0 by {
                        assert(before[i].0 == after[i].0);
                        if j < before.len() {
                            assert(before[j].0 == after[j].0);
                        }
                    }
                }
                std::mem::swap(&mut self.entries, &mut entries);
                proof {
                    lemma_listing_map_push(before, key@, value@);
                }
                None
            },
        }
    }

    /// The entries, in the order of the listing. No two of them share a key.
    pub fn entries(&self) -> (pairs: &Vec<(String, String)>)
        ensures
            pairs_view(pairs@) == self.listing(),
            keys_distinct(self.listing()),
    {
        proof {
            use_type_invariant(self);
        }
        &self.entries
    }
}

} // verus!
