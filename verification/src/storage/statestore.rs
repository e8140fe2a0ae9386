//! A store of named states kept in a datastore: a state is begun under a name, read,
//! mutated, listed, and ended.
//!
//! States travel as encoded bytes: the caller supplies the encoding and decoding.

use vstd::prelude::*;
use crate::storage::datastore::{
    Datastore, DataStoreError, Key, Query, Results, all_listed_ok, datastore_error_text, key_less, listed_entries_stored,
    listed_key,
    lists_prefix,
};

verus! {

/// Errors of the state store.
#[derive(Debug, Clone)]
pub enum StateStoreError {
    /// A state is already tracked under the name held here.
    AlreadyTracking(String),
    /// No state is tracked under the name held here.
    NoState(String),
    /// The datastore failed.
    Store(DataStoreError),
    /// Listing produced a failed entry; holds its message.
    Listing(String),
    /// Encoding or decoding a state failed; holds the message.
    Codec(String),
}

/// The display text of a state store error.
pub open spec fn state_store_error_text(e: StateStoreError) -> Seq<char> {
    match e {
        StateStoreError::AlreadyTracking(k) => "already tracking state for "@ + k@,
        StateStoreError::NoState(k) => "No state for "@ + k@,
        StateStoreError::Store(d) => datastore_error_text(d),
        StateStoreError::Listing(m) => m@,
        StateStoreError::Codec(m) => m@,
    }
}

impl StateStoreError {
    /// The display text of the error.
    pub fn to_string(&self) -> (s: String)
        ensures
            s@ == state_store_error_text(*self),
    {
        match self {
            StateStoreError::AlreadyTracking(k) => {
                let mut s = String::from_str("already tracking state for ");
                s.append(k.as_str());
                s
            },
            StateStoreError::NoState(k) => {
                let mut s = String::from_str("No state for ");
                s.append(k.as_str());
                s
            },
            StateStoreError::Store(d) => d.to_string(),
            StateStoreError::Listing(m) => m.clone(),
            StateStoreError::Codec(m) => m.clone(),
        }
    }
}

/// The value an item was decoded from is stored under some key.
pub open spec fn decoded_from_store<S, D: Fn(&Vec<u8>) -> Result<S, String>>(
    decode: D,
    entries: Map<Seq<char>, Seq<u8>>,
    item: S,
) -> bool {
    exists|k: Seq<char>, v: Vec<u8>|
        #![trigger entries[k], call_ensures(decode, (&v,), Ok(item))]
        entries.contains_key(k) && entries[k] == v@ && call_ensures(decode, (&v,), Ok(item))
}

/// `item` is what `decode` gives of the bytes `stored`.
pub open spec fn decoded_from<S, D: Fn(&Vec<u8>) -> Result<S, String>>(decode: D, stored: Seq<u8>, item: S) -> bool {
    exists|v: Vec<u8>| #![trigger call_ensures(decode, (&v,), Ok(item))] v@ == stored && call_ensures(decode, (&v,), Ok(item))
}

/// `updated` is what a mutation stores in place of the bytes `stored`: the encoding of the
/// mutated state decoded from them.
pub open spec fn mutation_result<S, D, M, E>(
    decode: D,
    mutator: M,
    encode: E,
    stored: Seq<u8>,
    updated: Seq<u8>,
) -> bool where
    D: Fn(&Vec<u8>) -> Result<S, String>,
    M: FnOnce(S) -> S,
    E: Fn(&S) -> Result<Vec<u8>, String>,
 {
    exists|v: Vec<u8>, s: S, t: S, w: Vec<u8>|
        #![trigger call_ensures(decode, (&v,), Ok(s)), call_ensures(encode, (&t,), Ok(w))]
        {
            &&& v@ == stored
            &&& call_ensures(decode, (&v,), Ok(s))
            &&& call_ensures(mutator, (s,), t)
            &&& call_ensures(encode, (&t,), Ok(w))
            &&& w@ == updated
        }
}

/// Decoding the bytes `stored` fails with message `m`.
pub open spec fn decoding_fails<S, D: Fn(&Vec<u8>) -> Result<S, String>>(decode: D, stored: Seq<u8>, m: String) -> bool {
    exists|v: Vec<u8>| #![trigger call_ensures(decode, (&v,), Err::<S, String>(m))]
        v@ == stored && call_ensures(decode, (&v,), Err::<S, String>(m))
}

/// Mutating the state stored as `stored` fails with message `m`: decoding it gives `m`, or
/// encoding the mutated state does.
pub open spec fn mutation_fails<S, D, M, E>(decode: D, mutator: M, encode: E, stored: Seq<u8>, m: String) -> bool where
    D: Fn(&Vec<u8>) -> Result<S, String>,
    M: FnOnce(S) -> S,
    E: Fn(&S) -> Result<Vec<u8>, String>,
 {
    ||| exists|v: Vec<u8>| #![trigger call_ensures(decode, (&v,), Err::<S, String>(m))]
        v@ == stored && call_ensures(decode, (&v,), Err::<S, String>(m))
    ||| exists|v: Vec<u8>, s: S, t: S|
        #![trigger call_ensures(decode, (&v,), Ok::<S, String>(s)), call_ensures(encode, (&t,), Err::<Vec<u8>, String>(m))]
        {
            &&& v@ == stored
            &&& call_ensures(decode, (&v,), Ok::<S, String>(s))
            &&& call_ensures(mutator, (s,), t)
            &&& call_ensures(encode, (&t,), Err::<Vec<u8>, String>(m))
        }
}

/// A store of named states over a datastore.
pub struct StateStore<T: Datastore> {
    pub ds: T,
}

impl<T: Datastore> StateStore<T> {
    pub fn new(ds: T) -> (s: Self)
        ensures
            s.ds == ds,
    {
        StateStore { ds }
    }

    /// The datastore key of a state name.
    pub fn to_key(name: &str) -> (k: Key)
        ensures
            k.0@ == name@,
    {
        Key(name.to_owned())
    }

    /// Starts tracking `state` (already encoded) under `name`; refused when a state is
    /// tracked under that name. A refused or failed begin changes nothing.
    pub fn begin(&mut self, name: &str, state: Vec<u8>) -> (r: Result<(), StateStoreError>)
        ensures
            r is Ok ==> !old(self).ds.entries().contains_key(name@)
                && final(self).ds.entries() == old(self).ds.entries().insert(name@, state@),
            r is Err ==> final(self).ds.entries() == old(self).ds.entries(),
            r matches Err(StateStoreError::AlreadyTracking(k)) ==> k@ == name@
                && old(self).ds.entries().contains_key(name@),
            old(self).ds.entries().contains_key(name@) ==> r is Err,
            r matches Err(e) ==> e is AlreadyTracking || (e is Store && !old(self).ds.healthy()),
            final(self).ds.healthy() == old(self).ds.healthy(),
    {
        let key = Self::to_key(name);
        let present = match self.ds.has(&key) {
            Ok(b) => b,
            Err(e) => return Err(StateStoreError::Store(e)),
        };
        if present {
            return Err(StateStoreError::AlreadyTracking(key.0));
        }
        match self.ds.put(&key, &state) {
            Ok(()) => Ok(()),
            Err(e) => Err(StateStoreError::Store(e)),
        }
    }

    /// The state stored under `name`, for reading, mutating or ending it.
    pub fn get(&mut self, name: &str) -> (st: StoredState<'_, T>)
        ensures
            *st.ds == old(self).ds,
            final(self).ds == *final(st.ds),
            st.name.0@ == name@,
    {
        let name = Self::to_key(name);
        StoredState { ds: &mut self.ds, name }
    }

    /// Whether a state is tracked under `name`.
    pub fn has(&self, name: &str) -> (r: Result<bool, StateStoreError>)
        ensures
            r matches Ok(b) ==> b == self.ds.entries().contains_key(name@),
            r matches Err(e) ==> e is Store,
            self.ds.healthy() ==> r is Ok,
    {
        match self.ds.has(&Self::to_key(name)) {
            Ok(b) => Ok(b),
            Err(e) => Err(StateStoreError::Store(e)),
        }
    }

    /// Every stored state, decoded with `decode`: one item for each stored name, in key order.
    /// Fails when a stored state does not decode, or when the datastore fails.
    pub fn list<S, D: Fn(&Vec<u8>) -> Result<S, String>>(&self, decode: D) -> (r: Result<Vec<S>, StateStoreError>)
        requires
            forall|v: &Vec<u8>| decode.requires((v,)),
        ensures
            r matches Ok(items) ==> forall|i: int|
                0 <= i < items.len() ==> decoded_from_store(decode, self.ds.entries(), #[trigger] items[i]),
            r matches Ok(items) ==> lists_every_state(decode, self.ds.entries(), items@),
            r matches Err(StateStoreError::Codec(m)) ==> some_state_fails(decode, self.ds.entries(), m),
            r matches Err(e) ==> e is Codec || ((e is Store || e is Listing) && !self.ds.healthy()),
            self.ds.healthy() && every_state_decodes(decode, self.ds.entries()) ==> r is Ok,
    {
        let ghost entries = self.ds.entries();
        let results = match self.ds.query(Query::all()) {
            Ok(res) => res,
            Err(e) => return Err(StateStoreError::Store(e)),
        };
        let listed = results.to_vec();
        let ghost all = results.listed();
        assert(lists_prefix(all, entries, Seq::<char>::empty()));
        let mut items: Vec<S> = Vec::new();
        let mut i: usize = 0;
        while i < listed.len()
            invariant
                forall|v: &Vec<u8>| decode.requires((v,)),
                entries == self.ds.entries(),
                listed@ == all,
                listed_entries_stored(all, entries),
                self.ds.healthy() ==> all_listed_ok(all),
                i <= listed@.len(),
                items@.len() == i,
                forall|j: int| 0 <= j < i ==> (#[trigger] all[j]) is Ok,
                forall|j: int|
                    0 <= j < items.len() ==> decoded_from_store(decode, entries, #[trigger] items[j]),
                forall|j: int|
                    0 <= j < items.len() ==> entries.contains_key(listed_key(all[j]))
                        && decoded_from(decode, entries[listed_key(all[j])], #[trigger] items@[j]),
            decreases listed@.len() - i,
        {
            match &listed[i] {
                Ok(entry) => {
                    assert(listed@[i as int] matches Ok(e) && e == *entry);
                    match decode(&entry.value) {
                        Ok(item) => {
                            let ghost before = items@;
                            proof {
                                let k = entry.key.0@;
                                assert(entries.contains_key(k));
                                assert(entries[k] == entry.value@);
                                assert(decoded_from_store(decode, entries, item));
                                assert(decoded_from(decode, entries[k], item));
                            }
                            items.push(item);
                            proof {
                                assert forall|j: int| 0 <= j < items.len() implies entries.contains_key(listed_key(all[j]))
                                    && decoded_from(decode, entries[listed_key(all[j])], #[trigger] items@[j]) by {
                                    if j < before.len() {
                                        assert(items@[j] == before[j]);
                                    }
                                }
                                assert forall|j: int| 0 <= j < items.len() implies decoded_from_store(decode, entries, #[trigger] items[j]) by {
                                    if j < before.len() {
                                        assert(items@[j] == before[j]);
                                    }
                                }
                            }
                        },
                        Err(m) => {
                            assert(entries.contains_key(entry.key.0@) && entries[entry.key.0@] == entry.value@);
                            assert(some_state_fails(decode, self.ds.entries(), m)) by {
                                assert(self.ds.entries()[entry.key.0@] == entry.value@);
                                assert(call_ensures(decode, (&entry.value,), Err::<S, String>(m)));
                            }
                            return Err(StateStoreError::Codec(m));
                        },
                    }
                },
                Err(m) => {
                    assert(!all_listed_ok(all));
                    return Err(StateStoreError::Listing(m.clone()));
                },
            }
            i = i + 1;
        }
        proof {
            assert(all_listed_ok(all));
            let keys = Seq::new(all.len(), |j: int| listed_key(all[j]));
            assert forall|k: Seq<char>| entries.contains_key(k) implies keys.contains(k) by {
                assert(Seq::<char>::empty().is_prefix_of(k)) by {
                    assert(Seq::<char>::empty() =~= k.subrange(0, 0));
                }
                let j = choose|j: int| 0 <= j < all.len() && listed_key(#[trigger] all[j]) == k;
                assert(keys[j] == k);
            }
            assert forall|k: Seq<char>| keys.contains(k) implies entries.contains_key(k) by {
                let j = choose|j: int| 0 <= j < keys.len() && keys[j] == k;
                assert(all[j] is Ok);
            }
            assert forall|a: int, b: int| 0 <= a < b < keys.len() implies key_less(keys[a], keys[b]) by {
                assert(key_less(listed_key(all[a]), listed_key(all[b])));
            }
            assert(decodes_states(decode, self.ds.entries(), keys, items@));
            assert(lists_every_state(decode, self.ds.entries(), items@));
        }
        Ok(items)
    }
}

/// `items` are the decoded stored states, one for each stored name, in key order: `keys` holds
/// each stored name once, in key order, and item `i` is decoded from the bytes stored under
/// `keys[i]`.
pub open spec fn decodes_states<S, D: Fn(&Vec<u8>) -> Result<S, String>>(
    decode: D,
    entries: Map<Seq<char>, Seq<u8>>,
    keys: Seq<Seq<char>>,
    items: Seq<S>,
) -> bool {
    &&& keys.len() == items.len()
    &&& forall|a: int, b: int| 0 <= a < b < keys.len() ==> key_less(keys[a], keys[b])
    &&& forall|k: Seq<char>| entries.contains_key(k) <==> keys.contains(k)
    &&& forall|i: int| 0 <= i < keys.len() ==> decoded_from(decode, entries[keys[i]], #[trigger] items[i])
}

/// `items` are the decoded stored states, one for each stored name (see `decodes_states`).
pub open spec fn lists_every_state<S, D: Fn(&Vec<u8>) -> Result<S, String>>(
    decode: D,
    entries: Map<Seq<char>, Seq<u8>>,
    items: Seq<S>,
) -> bool {
    exists|keys: Seq<Seq<char>>| #[trigger] decodes_states(decode, entries, keys, items)
}

/// Decoding some stored state fails with message `m`.
pub open spec fn some_state_fails<S, D: Fn(&Vec<u8>) -> Result<S, String>>(
    decode: D,
    entries: Map<Seq<char>, Seq<u8>>,
    m: String,
) -> bool {
    exists|k: Seq<char>, v: Vec<u8>|
        #![trigger entries[k], call_ensures(decode, (&v,), Err::<S, String>(m))]
        entries.contains_key(k) && entries[k] == v@ && call_ensures(decode, (&v,), Err::<S, String>(m))
}

/// Every stored state decodes: `decode` succeeds on each stored value.
pub open spec fn every_state_decodes<S, D: Fn(&Vec<u8>) -> Result<S, String>>(
    decode: D,
    entries: Map<Seq<char>, Seq<u8>>,
) -> bool {
    forall|k: Seq<char>, v: Vec<u8>, res: Result<S, String>|
        #![trigger entries[k], call_ensures(decode, (&v,), res)]
        entries.contains_key(k) && entries[k] == v@ && call_ensures(decode, (&v,), res) ==> res is Ok
}

/// One named state of a state store.
pub struct StoredState<'a, T: Datastore> {
    pub ds: &'a mut T,
    pub name: Key,
}

impl<'a, T: Datastore> StoredState<'a, T> {
    /// The state, decoded with `decode`.
    pub fn get<S, D: Fn(&Vec<u8>) -> Result<S, String>>(&self, decode: D) -> (r: Result<S, StateStoreError>)
        requires
            forall|v: &Vec<u8>| decode.requires((v,)),
        ensures
            r matches Ok(s) ==> old(self.ds).entries().contains_key(self.name.0@)
                && decoded_from(decode, old(self.ds).entries()[self.name.0@], s),
            r matches Err(StateStoreError::Store(DataStoreError::Redaction(_))) ==> !old(self.ds).entries().contains_key(self.name.0@),
            r matches Err(StateStoreError::Store(e)) ==> !old(self.ds).healthy()
                || (e is Redaction && !old(self.ds).entries().contains_key(self.name.0@)),
            r matches Err(StateStoreError::Codec(m)) ==> old(self.ds).entries().contains_key(self.name.0@)
                && decoding_fails(decode, old(self.ds).entries()[self.name.0@], m),
            r matches Err(e) ==> e is Store || e is Codec,
    {
        let bytes = match self.ds.get(&self.name) {
            Ok(b) => b,
            Err(e) => return Err(StateStoreError::Store(e)),
        };
        match decode(&bytes) {
            Ok(s) => {
                assert(decoded_from(decode, bytes@, s));
                Ok(s)
            },
            Err(m) => {
                assert(decoding_fails(decode, bytes@, m));
                Err(StateStoreError::Codec(m))
            },
        }
    }

    /// Decodes the state, applies `mutator`, and stores the encoding of the result in place of
    /// the stored bytes. A failed mutation changes nothing.
    pub fn mutate<S, D, M, E>(self, decode: D, mutator: M, encode: E) -> (r: Result<(), StateStoreError>) where
        D: Fn(&Vec<u8>) -> Result<S, String>,
        M: FnOnce(S) -> S,
        E: Fn(&S) -> Result<Vec<u8>, String>,
        requires
            forall|v: &Vec<u8>| decode.requires((v,)),
            forall|s: S| mutator.requires((s,)),
            forall|s: &S| encode.requires((s,)),
        ensures
            r is Ok ==> old(self.ds).entries().contains_key(self.name.0@) && exists|updated: Seq<u8>|
                #![trigger mutation_result(decode, mutator, encode, old(self.ds).entries()[self.name.0@], updated)]
                mutation_result(decode, mutator, encode, old(self.ds).entries()[self.name.0@], updated)
                && final(self.ds).entries() == old(self.ds).entries().insert(self.name.0@, updated),
            r is Err ==> final(self.ds).entries() == old(self.ds).entries(),
            r matches Err(StateStoreError::Store(e)) ==> !old(self.ds).healthy()
                || (e is Redaction && !old(self.ds).entries().contains_key(self.name.0@)),
            r matches Err(StateStoreError::Codec(m)) ==> old(self.ds).entries().contains_key(self.name.0@)
                && mutation_fails(decode, mutator, encode, old(self.ds).entries()[self.name.0@], m),
            r matches Err(e) ==> e is Store || e is Codec,
            final(self.ds).healthy() == old(self.ds).healthy(),
    {
        let bytes = match self.ds.get(&self.name) {
            Ok(b) => b,
            Err(e) => return Err(StateStoreError::Store(e)),
        };
        let state = match decode(&bytes) {
            Ok(s) => s,
            Err(m) => return Err(StateStoreError::Codec(m)),
        };
        let mutated = mutator(state);
        let encoded = match encode(&mutated) {
            Ok(w) => w,
            Err(m) => return Err(StateStoreError::Codec(m)),
        };
        let ghost stored = bytes@;
        match self.ds.put(&self.name, &encoded) {
            Ok(()) => {
                assert(mutation_result(decode, mutator, encode, stored, encoded@));
                Ok(())
            },
            Err(e) => Err(StateStoreError::Store(e)),
        }
    }

    /// Stops tracking the state; refused when no state is tracked under the name.
    /// A refused or failed end changes nothing.
    pub fn end(self) -> (r: Result<(), StateStoreError>)
        ensures
            r is Ok ==> old(self.ds).entries().contains_key(self.name.0@)
                && final(self.ds).entries() == old(self.ds).entries().remove(self.name.0@),
            r is Err ==> final(self.ds).entries() == old(self.ds).entries(),
            r matches Err(StateStoreError::NoState(k)) ==> k@ == self.name.0@
                && !old(self.ds).entries().contains_key(self.name.0@),
            !old(self.ds).entries().contains_key(self.name.0@) ==> r is Err,
            r matches Err(e) ==> e is NoState || (e is Store && !old(self.ds).healthy()),
            final(self.ds).healthy() == old(self.ds).healthy(),
    {
        let present = match self.ds.has(&self.name) {
            Ok(b) => b,
            Err(e) => return Err(StateStoreError::Store(e)),
        };
        if !present {
            return Err(StateStoreError::NoState(self.name.0.clone()));
        }
        match self.ds.delete(&self.name) {
            Ok(()) => Ok(()),
            Err(e) => Err(StateStoreError::Store(e)),
        }
    }
}

} // verus!

verus! {

/// A state begun under a name that was free, then ended, leaves the store as it was before.
pub proof fn law_begin_then_end_restores(entries: Map<Seq<char>, Seq<u8>>, name: Seq<char>, state: Seq<u8>)
    requires
        !entries.contains_key(name),
    ensures
        entries.insert(name, state).contains_key(name),
        entries.insert(name, state).remove(name) == entries,
{
    assert(entries.insert(name, state).remove(name) =~= entries);
}

/// Once begun, a state is tracked and holds the bytes it was begun with, so a second begin under
/// the same name is refused; states under other names are untouched.
pub proof fn law_begun_state_reads_back(entries: Map<Seq<char>, Seq<u8>>, name: Seq<char>, state: Seq<u8>, other: Seq<char>)
    requires
        other != name,
    ensures
        entries.insert(name, state).contains_key(name),
        entries.insert(name, state)[name] == state,
        entries.insert(name, state).contains_key(other) == entries.contains_key(other),
        entries.contains_key(other) ==> entries.insert(name, state)[other] == entries[other],
{
}

/// A mutation replaces the state: afterwards the name holds exactly the new encoding, which a
/// later read decodes; the states under other names are untouched.
pub proof fn law_mutation_replaces_state(entries: Map<Seq<char>, Seq<u8>>, name: Seq<char>, updated: Seq<u8>, other: Seq<char>)
    requires
        entries.contains_key(name),
        other != name,
    ensures
        entries.insert(name, updated).contains_key(name),
        entries.insert(name, updated)[name] == updated,
        entries.insert(name, updated).dom() == entries.dom(),
        entries.contains_key(other) ==> entries.insert(name, updated)[other] == entries[other],
{
    assert(entries.insert(name, updated).dom() =~= entries.dom());
}

/// Ending a state leaves no state under its name, so ending it again is refused.
pub proof fn law_ended_state_is_gone(entries: Map<Seq<char>, Seq<u8>>, name: Seq<char>)
    ensures
        !entries.remove(name).contains_key(name),
{
}

} // verus!
