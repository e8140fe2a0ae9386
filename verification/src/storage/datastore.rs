//! Key-value datastore interface used by the sealing state store.
//!
//! The interface follows the IPFS datastore: keys are strings, values are bytes.
//! A datastore is modelled by `entries`, a map from key text to stored bytes.

use vstd::prelude::*;
use vstd::utf8::{valid_utf8, decode_utf8};
use crate::text::{str_eq, starts_with_text};

verus! {

/// A datastore key.
#[derive(Debug, Clone, Default)]
pub struct Key(pub String);

impl Key {
    /// The text of the key, as it is displayed.
    pub fn to_string(&self) -> (s: String)
        ensures
            s@ == self.0@,
    {
        self.0.clone()
    }
}

/// Key order: texts compared character by character by code point, a proper prefix first. This
/// is the byte order of their UTF-8 encodings, in which the storage engine keeps its keys.
pub open spec fn key_less(a: Seq<char>, b: Seq<char>) -> bool
    decreases a.len(),
{
    if a.len() == 0 {
        b.len() > 0
    } else if b.len() == 0 {
        false
    } else if a[0] != b[0] {
        (a[0] as int) < (b[0] as int)
    } else {
        key_less(a.drop_first(), b.drop_first())
    }
}

/// No key comes before itself.
pub proof fn lemma_key_less_irreflexive(a: Seq<char>)
    ensures
        !key_less(a, a),
    decreases a.len(),
{
    if a.len() > 0 {
        lemma_key_less_irreflexive(a.drop_first());
    }
}

/// Key order is transitive.
pub proof fn lemma_key_less_transitive(a: Seq<char>, b: Seq<char>, c: Seq<char>)
    requires
        key_less(a, b),
        key_less(b, c),
    ensures
        key_less(a, c),
    decreases a.len(),
{
    if a.len() > 0 && b.len() > 0 && c.len() > 0 && a[0] == b[0] && b[0] == c[0] {
        lemma_key_less_transitive(a.drop_first(), b.drop_first(), c.drop_first());
    }
}

/// Of two different keys, one comes first.
pub proof fn lemma_key_less_total(a: Seq<char>, b: Seq<char>)
    requires
        a != b,
    ensures
        key_less(a, b) || key_less(b, a),
    decreases a.len(),
{
    if a.len() > 0 && b.len() > 0 && a[0] == b[0] {
        if a.drop_first() == b.drop_first() {
            assert(a =~= seq![a[0]] + a.drop_first());
            assert(b =~= seq![b[0]] + b.drop_first());
        }
        lemma_key_less_total(a.drop_first(), b.drop_first());
    } else if a.len() == 0 && b.len() == 0 {
        assert(a =~= b);
    } else if a.len() > 0 && b.len() > 0 {
        assert((a[0] as int) != (b[0] as int));
    }
}

/// Whether key text `a` comes before `b` in key order.
pub fn key_text_less(a: &str, b: &str) -> (r: bool)
    ensures
        r == key_less(a@, b@),
{
    let n = a.unicode_len();
    let m = b.unicode_len();
    let mut i: usize = 0;
    assert(a@.subrange(0, n as int) =~= a@);
    assert(b@.subrange(0, m as int) =~= b@);
    while i < n && i < m
        invariant
            n == a@.len(),
            m == b@.len(),
            i <= n,
            i <= m,
            key_less(a@, b@) == key_less(a@.subrange(i as int, n as int), b@.subrange(i as int, m as int)),
        decreases n - i,
    {
        let ca = a.get_char(i);
        let cb = b.get_char(i);
        let ghost ra = a@.subrange(i as int, n as int);
        let ghost rb = b@.subrange(i as int, m as int);
        assert(ra[0] == ca && rb[0] == cb);
        if ca != cb {
            return (ca as u32) < (cb as u32);
        }
        assert(ra.drop_first() =~= a@.subrange(i + 1, n as int));
        assert(rb.drop_first() =~= b@.subrange(i + 1, m as int));
        i = i + 1;
    }
    i == n && i < m
}

/// Errors reported by a datastore.
#[derive(Debug, Clone)]
pub enum DataStoreError {
    /// The store could not be reached; holds the underlying message.
    Disconnect(String),
    /// No data is stored under the key held here.
    Redaction(String),
    /// Reading failed; holds the underlying message.
    ReadError(String),
    /// Writing failed; holds the underlying message.
    WriteError(String),
    /// Any other failure; holds the underlying message.
    Unknown(String),
}

/// The display text of a datastore error.
pub open spec fn datastore_error_text(e: DataStoreError) -> Seq<char> {
    match e {
        DataStoreError::Disconnect(_) => "data store disconnected"@,
        DataStoreError::Redaction(k) => "the data for key `"@ + k@ + "` is not available"@,
        DataStoreError::ReadError(_) => "failed to read data"@,
        DataStoreError::WriteError(_) => "failed to write data"@,
        DataStoreError::Unknown(_) => "unknown data store error"@,
    }
}

impl DataStoreError {
    /// The display text of the error.
    pub fn to_string(&self) -> (s: String)
        ensures
            s@ == datastore_error_text(*self),
    {
        match self {
            DataStoreError::Disconnect(_) => String::from_str("data store disconnected"),
            DataStoreError::Redaction(k) => {
                let mut s = String::from_str("the data for key `");
                s.append(k.as_str());
                s.append("` is not available");
                s
            },
            DataStoreError::ReadError(_) => String::from_str("failed to read data"),
            DataStoreError::WriteError(_) => String::from_str("failed to write data"),
            DataStoreError::Unknown(_) => String::from_str("unknown data store error"),
        }
    }
}

/// A filter applied to query results.
pub trait Filter {
    fn filter(&self, e: &Entry) -> bool;
}

/// An order applied to query results.
pub trait Order {
    fn compare(&self, a: &Entry, b: &Entry) -> i32;
}

/// A datastore query.
pub struct Query {
    /// Namespaces the query to results whose keys have this prefix.
    pub prefix: String,
    /// Filters results, applied in sequence.
    pub filters: Vec<Box<dyn Filter>>,
    /// Orders results, applied hierarchically.
    pub orders: Vec<Box<dyn Order>>,
    /// Maximum number of results.
    pub limit: usize,
    /// Number of results to skip.
    pub offset: usize,
    /// Return only keys.
    pub keys_only: bool,
    /// Return expirations.
    pub return_expirations: bool,
    /// Always return sizes.
    pub returns_sizes: bool,
}

impl Query {
    /// The query over every entry: empty prefix, no filter, no order, no limit or offset.
    pub fn all() -> (q: Query)
        ensures
            q.prefix@ == Seq::<char>::empty(),
            q.filters@.len() == 0,
            q.orders@.len() == 0,
            q.limit == 0,
            q.offset == 0,
            !q.keys_only,
            !q.return_expirations,
            !q.returns_sizes,
    {
        Query {
            prefix: String::new(),
            filters: Vec::new(),
            orders: Vec::new(),
            limit: 0,
            offset: 0,
            keys_only: false,
            return_expirations: false,
            returns_sizes: false,
        }
    }
}

/// One result of a query.
#[derive(Debug, Clone, Default)]
pub struct Entry {
    pub key: Key,
    /// Empty when only keys were asked for.
    pub value: Vec<u8>,
    /// Expiration timestamp, if requested and supported.
    pub expiration: u64,
    pub size: usize,
}

/// The results of a query.
pub trait Results {
    /// The entries that the query produced, in order.
    spec fn listed(&self) -> Seq<Result<Entry, String>>;

    /// The query these results answer.
    spec fn answered(&self) -> Query;

    fn query(&self) -> (q: &Query)
        ensures
            *q == self.answered(),
    ;

    fn to_vec(&self) -> (r: &Vec<Result<Entry, String>>)
        ensures
            r@ == self.listed(),
    ;
}

/// Read access to a datastore.
pub trait Read {
    /// What the store holds: key text to stored bytes.
    spec fn entries(&self) -> Map<Seq<char>, Seq<u8>>;

    /// Whether the storage engine answers every call without failing.
    spec fn healthy(&self) -> bool;

    /// The bytes stored under `key`; the redaction error when nothing is stored there.
    fn get(&self, key: &Key) -> (r: Result<Vec<u8>, DataStoreError>)
        ensures
            r matches Ok(v) ==> self.entries().contains_key(key.0@) && v@ == self.entries()[key.0@],
            r matches Err(DataStoreError::Redaction(k)) ==> !self.entries().contains_key(key.0@) && k@ == key.0@,
            self.healthy() ==> (r is Ok <==> self.entries().contains_key(key.0@)),
            self.healthy() && r is Err ==> r matches Err(DataStoreError::Redaction(_)),
    ;

    /// Whether something is stored under `key`.
    fn has(&self, key: &Key) -> (r: Result<bool, DataStoreError>)
        ensures
            r matches Ok(b) ==> b == self.entries().contains_key(key.0@),
            self.healthy() ==> r is Ok,
    ;

    /// The number of bytes stored under `key`, zero when nothing is.
    fn get_size(&self, key: &Key) -> (r: Result<usize, DataStoreError>)
        ensures
            r matches Ok(n) ==> n == (if self.entries().contains_key(key.0@) {
                self.entries()[key.0@].len()
            } else {
                0
            }),
            self.healthy() ==> r is Ok,
    ;

    /// Only listing by prefix is supported: the entries whose key starts with the query's prefix.
    fn query(&self, query: Query) -> (r: Result<Box<dyn Results>, DataStoreError>)
        ensures
            r matches Ok(res) ==> listed_entries_stored(res.listed(), self.entries())
                && lists_prefix(res.listed(), self.entries(), query.prefix@)
                && no_expirations(res.listed())
                && res.answered() == query,
            self.healthy() ==> (r matches Ok(res) && all_listed_ok(res.listed())),
    ;
}

/// Every entry listed without error is stored, under its key, with its value and size.
pub open spec fn listed_entries_stored(
    listed: Seq<Result<Entry, String>>,
    entries: Map<Seq<char>, Seq<u8>>,
) -> bool {
    forall|i: int|
        0 <= i < listed.len() ==> (#[trigger] listed[i] matches Ok(e) ==> {
            &&& entries.contains_key(e.key.0@)
            &&& e.value@ == entries[e.key.0@]
            &&& e.size == e.value@.len()
        })
}

/// Every listed entry has expiration 0: the store keeps no expirations.
pub open spec fn no_expirations(listed: Seq<Result<Entry, String>>) -> bool {
    forall|i: int| 0 <= i < listed.len() ==> (#[trigger] listed[i] matches Ok(e) ==> e.expiration == 0)
}

/// No entry of a listing is a failure.
pub open spec fn all_listed_ok(listed: Seq<Result<Entry, String>>) -> bool {
    forall|i: int| 0 <= i < listed.len() ==> (#[trigger] listed[i]) is Ok
}

/// The key text of a listed entry (empty for a failed one).
pub open spec fn listed_key(r: Result<Entry, String>) -> Seq<char> {
    match r {
        Ok(e) => e.key.0@,
        Err(_) => Seq::empty(),
    }
}

/// A listing under `prefix`: each listed key starts with `prefix`; when no entry failed, each
/// stored key that starts with `prefix` is listed, once, in key order.
pub open spec fn lists_prefix(listed: Seq<Result<Entry, String>>, entries: Map<Seq<char>, Seq<u8>>, prefix: Seq<char>) -> bool {
    &&& forall|i: int| 0 <= i < listed.len() ==> (#[trigger] listed[i] matches Ok(e) ==> prefix.is_prefix_of(e.key.0@))
    &&& all_listed_ok(listed) ==> {
        &&& forall|i: int, j: int|
            0 <= i < j < listed.len() ==> key_less(listed_key(#[trigger] listed[i]), listed_key(#[trigger] listed[j]))
        &&& forall|k: Seq<char>|
            entries.contains_key(k) && prefix.is_prefix_of(k) ==> exists|i: int|
                0 <= i < listed.len() && listed_key(#[trigger] listed[i]) == k
    }
}

/// Write access to a datastore. A failed write leaves the store unchanged; a write does not
/// change whether the engine is healthy.
pub trait Write: Read {
    fn put(&mut self, key: &Key, value: &Vec<u8>) -> (r: Result<(), DataStoreError>)
        ensures
            r is Ok ==> final(self).entries() == old(self).entries().insert(key.0@, value@),
            r is Err ==> final(self).entries() == old(self).entries(),
            old(self).healthy() ==> r is Ok,
            final(self).healthy() == old(self).healthy(),
    ;

    fn delete(&mut self, key: &Key) -> (r: Result<(), DataStoreError>)
        ensures
            r is Ok ==> final(self).entries() == old(self).entries().remove(key.0@),
            r is Err ==> final(self).entries() == old(self).entries(),
            old(self).healthy() ==> r is Ok,
            final(self).healthy() == old(self).healthy(),
    ;
}

/// A datastore.
pub trait Datastore: Read + Write {
    /// Makes every put or delete under `prefix` that returned before durable.
    fn sync(&self, prefix: Key) -> (r: Result<(), DataStoreError>)
        ensures
            self.healthy() ==> r is Ok,
    ;

    fn close(&self) -> (r: Result<(), DataStoreError>)
        ensures
            self.healthy() ==> r is Ok,
    ;
}

/// The results of a listing, held in memory.
pub struct RocksdbResults {
    pub results: Vec<Result<Entry, String>>,
    pub cur: usize,
    pub query: Query,
}

impl Results for RocksdbResults {
    open spec fn listed(&self) -> Seq<Result<Entry, String>> {
        self.results@
    }

    open spec fn answered(&self) -> Query {
        self.query
    }

    fn query(&self) -> (q: &Query)
        ensures
            *q == self.query,
    {
        &self.query
    }

    fn to_vec(&self) -> (r: &Vec<Result<Entry, String>>) {
        &self.results
    }
}

/// Text from UTF-8 bytes (`String::from_utf8`). Claimed: it succeeds exactly on valid UTF-8, with
/// the decoded characters.
#[verifier::external_body]
fn utf8_text(bytes: Vec<u8>) -> (r: Option<String>)
    ensures
        r is Some <==> valid_utf8(bytes@),
        r matches Some(s) ==> s@ == decode_utf8(bytes@),
{
    String::from_utf8(bytes).ok()
}

/// The outcome of a read from the key-value engine: the value, or `Redaction` when the key is
/// absent, or `ReadError` when the engine failed.
pub fn read_outcome(key: &Key, raw: Result<Option<Vec<u8>>, String>) -> (r: Result<Vec<u8>, DataStoreError>)
    ensures
        match raw {
            Ok(Some(v)) => r == Ok::<Vec<u8>, DataStoreError>(v),
            Ok(None) => r matches Err(DataStoreError::Redaction(k)) && k@ == key.0@,
            Err(e) => r matches Err(DataStoreError::ReadError(m)) && m@ == e@,
        },
{
    match raw {
        Ok(Some(v)) => Ok(v),
        Ok(None) => Err(DataStoreError::Redaction(key.0.clone())),
        Err(e) => Err(DataStoreError::ReadError(e)),
    }
}

/// Whether a key is present, from the length the engine reports for it (if present).
pub fn presence_outcome(raw: Result<Option<usize>, String>) -> (r: Result<bool, DataStoreError>)
    ensures
        match raw {
            Ok(found) => r == Ok::<bool, DataStoreError>(found is Some),
            Err(e) => r matches Err(DataStoreError::ReadError(m)) && m@ == e@,
        },
{
    match raw {
        Ok(Some(_)) => Ok(true),
        Ok(None) => Ok(false),
        Err(e) => Err(DataStoreError::ReadError(e)),
    }
}

/// The size of a value, zero when the key is absent.
pub fn size_outcome(raw: Result<Option<usize>, String>) -> (r: Result<usize, DataStoreError>)
    ensures
        match raw {
            Ok(Some(n)) => r == Ok::<usize, DataStoreError>(n),
            Ok(None) => r == Ok::<usize, DataStoreError>(0),
            Err(e) => r matches Err(DataStoreError::ReadError(m)) && m@ == e@,
        },
{
    match raw {
        Ok(Some(n)) => Ok(n),
        Ok(None) => Ok(0),
        Err(e) => Err(DataStoreError::ReadError(e)),
    }
}

/// The outcome of a put: a failure is a `WriteError`.
pub fn put_outcome(raw: Result<(), String>) -> (r: Result<(), DataStoreError>)
    ensures
        match raw {
            Ok(()) => r is Ok,
            Err(e) => r matches Err(DataStoreError::WriteError(m)) && m@ == e@,
        },
{
    match raw {
        Ok(()) => Ok(()),
        Err(e) => Err(DataStoreError::WriteError(e)),
    }
}

/// The outcome of a delete: a failure is reported as a `ReadError`.
pub fn delete_outcome(raw: Result<(), String>) -> (r: Result<(), DataStoreError>)
    ensures
        match raw {
            Ok(()) => r is Ok,
            Err(e) => r matches Err(DataStoreError::ReadError(m)) && m@ == e@,
        },
{
    match raw {
        Ok(()) => Ok(()),
        Err(e) => Err(DataStoreError::ReadError(e)),
    }
}

/// The outcome of opening, syncing or closing: a failure is `Unknown`.
pub fn engine_outcome(raw: Result<(), String>) -> (r: Result<(), DataStoreError>)
    ensures
        match raw {
            Ok(()) => r is Ok,
            Err(e) => r matches Err(DataStoreError::Unknown(m)) && m@ == e@,
        },
{
    match raw {
        Ok(()) => Ok(()),
        Err(e) => Err(DataStoreError::Unknown(e)),
    }
}

/// The entry listed for a stored key and value: the key as text (empty when the bytes are not
/// UTF-8), the value, no expiration, and the value's size.
pub open spec fn listed_entry(key: Seq<u8>, value: Seq<u8>, e: Entry) -> bool {
    &&& e.key.0@ == (if valid_utf8(key) { decode_utf8(key) } else { Seq::empty() })
    &&& e.value@ == value
    &&& e.expiration == 0
    &&& e.size == value.len()
}

/// The results of listing from the pairs the engine yields; a failed pair stays a failure.
pub fn entries_from_pairs(pairs: Vec<Result<(Vec<u8>, Vec<u8>), String>>) -> (r: Vec<Result<Entry, String>>)
    ensures
        r@.len() == pairs@.len(),
        forall|i: int| 0 <= i < pairs@.len() ==> match (#[trigger] pairs@[i], r@[i]) {
            (Ok((k, v)), Ok(e)) => listed_entry(k@, v@, e),
            (Err(m), Err(n)) => m@ == n@,
            _ => false,
        },
{
    let mut r: Vec<Result<Entry, String>> = Vec::new();
    let mut i: usize = 0;
    while i < pairs.len()
        invariant
            i <= pairs@.len(),
            r@.len() == i,
            forall|j: int| 0 <= j < i ==> match (#[trigger] pairs@[j], r@[j]) {
                (Ok((k, v)), Ok(e)) => listed_entry(k@, v@, e),
                (Err(m), Err(n)) => m@ == n@,
                _ => false,
            },
        decreases pairs@.len() - i,
    {
        match &pairs[i] {
            Ok((k, v)) => {
                let key = match utf8_text(k.clone()) {
                    Some(t) => t,
                    None => String::new(),
                };
                let size = v.len();
                r.push(Ok(Entry { key: Key(key), value: v.clone(), expiration: 0, size }));
            },
            Err(m) => r.push(Err(m.clone())),
        }
        i = i + 1;
    }
    r
}

/// A datastore held in memory: one slot per key, in key order.
pub struct MemDatastore {
    items: Vec<(String, Vec<u8>)>,
    model: Ghost<Map<Seq<char>, Seq<u8>>>,
}

/// The slots hold distinct keys in key order, and they hold exactly what the model maps.
spec fn mem_slots_match(items: Seq<(String, Vec<u8>)>, model: Map<Seq<char>, Seq<u8>>) -> bool {
    &&& forall|i: int, j: int|
        0 <= i < j < items.len() ==> (#[trigger] items[i]).0@ != (#[trigger] items[j]).0@
    &&& forall|i: int, j: int|
        0 <= i < j < items.len() ==> key_less((#[trigger] items[i]).0@, (#[trigger] items[j]).0@)
    &&& forall|i: int|
        0 <= i < items.len() ==> model.contains_key((#[trigger] items[i]).0@) && model[items[i].0@] == items[i].1@
    &&& forall|k: Seq<char>|
        #[trigger] model.contains_key(k) ==> exists|i: int| 0 <= i < items.len() && (#[trigger] items[i]).0@ == k
}

/// Writing a slot over the slot that holds its key keeps the slots matching the updated model.
proof fn lemma_set_slot(before: Seq<(String, Vec<u8>)>, model: Map<Seq<char>, Seq<u8>>, p: int, slot: (String, Vec<u8>))
    requires
        mem_slots_match(before, model),
        0 <= p < before.len(),
        before[p].0@ == slot.0@,
    ensures
        mem_slots_match(before.update(p, slot), model.insert(slot.0@, slot.1@)),
{
    let items = before.update(p, slot);
    let new_model = model.insert(slot.0@, slot.1@);
    assert forall|j: int| 0 <= j < items.len() implies (#[trigger] items[j]).0@ == before[j].0@ by {}
    assert forall|i: int, j: int| 0 <= i < j < items.len() implies (#[trigger] items[i]).0@ != (#[trigger] items[j]).0@ by {
        assert(items[i].0@ == before[i].0@ && items[j].0@ == before[j].0@);
    }
    assert forall|i: int, j: int| 0 <= i < j < items.len() implies key_less((#[trigger] items[i]).0@, (#[trigger] items[j]).0@) by {
        assert(items[i].0@ == before[i].0@ && items[j].0@ == before[j].0@);
    }
    assert forall|j: int| 0 <= j < items.len() implies
        new_model.contains_key((#[trigger] items[j]).0@) && new_model[items[j].0@] == items[j].1@ by {
        if j != p {
            assert(items[j] == before[j]);
            assert(before[j].0@ != before[p].0@);
        }
    }
    assert forall|k: Seq<char>| #[trigger] new_model.contains_key(k) implies
        exists|j: int| 0 <= j < items.len() && (#[trigger] items[j]).0@ == k by {
        if k == slot.0@ {
            assert(items[p].0@ == k);
        } else {
            let j = choose|j: int| 0 <= j < before.len() && (#[trigger] before[j]).0@ == k;
            assert(items[j].0@ == k);
        }
    }
}

/// Inserting a slot for a new key at its place in key order keeps the slots matching the
/// updated model.
proof fn lemma_insert_slot(before: Seq<(String, Vec<u8>)>, model: Map<Seq<char>, Seq<u8>>, p: int, slot: (String, Vec<u8>))
    requires
        mem_slots_match(before, model),
        0 <= p <= before.len(),
        forall|j: int| 0 <= j < p ==> key_less((#[trigger] before[j]).0@, slot.0@),
        p < before.len() ==> key_less(slot.0@, before[p].0@),
    ensures
        !model.contains_key(slot.0@),
        mem_slots_match(before.insert(p, slot), model.insert(slot.0@, slot.1@)),
{
    let k0 = slot.0@;
    before.insert_ensures(p, slot);
    let items = before.insert(p, slot);
    let new_model = model.insert(k0, slot.1@);
    assert forall|j: int| p <= j < before.len() implies key_less(k0, (#[trigger] before[j]).0@) by {
        if j > p {
            lemma_key_less_transitive(k0, before[p].0@, before[j].0@);
        }
    }
    lemma_key_less_irreflexive(k0);
    assert forall|j: int| 0 <= j < before.len() implies (#[trigger] before[j]).0@ != k0 by {
        if j < p {
            assert(key_less(before[j].0@, k0));
        } else {
            assert(key_less(k0, before[j].0@));
        }
    }
    if model.contains_key(k0) {
        let j = choose|j: int| 0 <= j < before.len() && (#[trigger] before[j]).0@ == k0;
        assert(before[j].0@ != k0);
    }
    // each slot of `items` is the new one or an old one
    assert forall|j: int| 0 <= j < items.len() implies
        (#[trigger] items[j]) == (if j < p { before[j] } else if j == p { slot } else { before[j - 1] }) by {
        if j > p {
            assert(items[(j - 1) + 1] == before[j - 1]);
        }
    }
    assert forall|i: int, j: int| 0 <= i < j < items.len() implies key_less((#[trigger] items[i]).0@, (#[trigger] items[j]).0@) by {
        if j < p {
        } else if j == p {
        } else if i < p {
            lemma_key_less_transitive(before[i].0@, k0, before[j - 1].0@);
        } else if i == p {
        } else {
        }
    }
    assert forall|i: int, j: int| 0 <= i < j < items.len() implies (#[trigger] items[i]).0@ != (#[trigger] items[j]).0@ by {
        lemma_key_less_irreflexive(items[i].0@);
        assert(key_less(items[i].0@, items[j].0@));
    }
    assert forall|j: int| 0 <= j < items.len() implies
        new_model.contains_key((#[trigger] items[j]).0@) && new_model[items[j].0@] == items[j].1@ by {
        if j < p {
            assert(before[j].0@ != k0);
        } else if j > p {
            assert(before[j - 1].0@ != k0);
        }
    }
    assert forall|k: Seq<char>| #[trigger] new_model.contains_key(k) implies
        exists|j: int| 0 <= j < items.len() && (#[trigger] items[j]).0@ == k by {
        if k == k0 {
            assert(items[p].0@ == k);
        } else {
            let j = choose|j: int| 0 <= j < before.len() && (#[trigger] before[j]).0@ == k;
            if j < p {
                assert(items[j].0@ == k);
            } else {
                assert(items[j + 1].0@ == k);
            }
        }
    }
}

impl MemDatastore {
    #[verifier::type_invariant]
    closed spec fn inv(self) -> bool {
        mem_slots_match(self.items@, self.model@)
    }

    /// An empty store.
    pub fn new() -> (d: MemDatastore)
        ensures
            d.entries() == Map::<Seq<char>, Seq<u8>>::empty(),
    {
        MemDatastore { items: Vec::new(), model: Ghost(Map::empty()) }
    }

    /// The slot holding `key`, if any.
    fn find(&self, key: &Key) -> (r: Option<usize>)
        ensures
            match r {
                Some(i) => i < self.items@.len() && self.items@[i as int].0@ == key.0@,
                None => !self.entries().contains_key(key.0@),
            },
    {
        proof { use_type_invariant(self); }
        let mut i: usize = 0;
        while i < self.items.len()
            invariant
                i <= self.items@.len(),
                forall|j: int| 0 <= j < i ==> (#[trigger] self.items@[j]).0@ != key.0@,
            decreases self.items@.len() - i,
        {
            if str_eq(self.items[i].0.as_str(), key.0.as_str()) {
                return Some(i);
            }
            i = i + 1;
        }
        None
    }

    /// Takes the slots out, leaving an empty store behind.
    fn take_slots(&mut self) -> (r: (Vec<(String, Vec<u8>)>, Ghost<Map<Seq<char>, Seq<u8>>>))
        ensures
            r.0@ == old(self).items@,
            r.1@ == old(self).model@,
            mem_slots_match(r.0@, r.1@),
            final(self).entries() == Map::<Seq<char>, Seq<u8>>::empty(),
    {
        proof { use_type_invariant(&*self); }
        let mut empty = MemDatastore::new();
        std::mem::swap(self, &mut empty);
        let MemDatastore { items, model } = empty;
        (items, model)
    }
}

impl Read for MemDatastore {
    closed spec fn entries(&self) -> Map<Seq<char>, Seq<u8>> {
        self.model@
    }

    /// Memory never fails.
    open spec fn healthy(&self) -> bool {
        true
    }

    fn get(&self, key: &Key) -> (r: Result<Vec<u8>, DataStoreError>)
        ensures
            r is Ok <==> self.entries().contains_key(key.0@),
            r is Err ==> r matches Err(DataStoreError::Redaction(_)),
    {
        proof { use_type_invariant(self); }
        match self.find(key) {
            Some(i) => Ok(self.items[i].1.clone()),
            None => Err(DataStoreError::Redaction(key.0.clone())),
        }
    }

    fn has(&self, key: &Key) -> (r: Result<bool, DataStoreError>)
        ensures
            r is Ok,
    {
        proof { use_type_invariant(self); }
        match self.find(key) {
            Some(_) => Ok(true),
            None => Ok(false),
        }
    }

    fn get_size(&self, key: &Key) -> (r: Result<usize, DataStoreError>)
        ensures
            r is Ok,
    {
        proof { use_type_invariant(self); }
        match self.find(key) {
            Some(i) => Ok(self.items[i].1.len()),
            None => Ok(0),
        }
    }

    /// Lists the entries whose key starts with the query's prefix, in key order.
    fn query(&self, query: Query) -> (r: Result<Box<dyn Results>, DataStoreError>)
        ensures
            r matches Ok(res) && all_listed_ok(res.listed()),
    {
        proof { use_type_invariant(self); }
        let ghost prefix = query.prefix@;
        let mut results: Vec<Result<Entry, String>> = Vec::new();
        let mut i: usize = 0;
        assert(listing_so_far(self.items@, self.model@, prefix, 0, results@)) by {
            reveal(listing_so_far);
        }
        while i < self.items.len()
            invariant
                i <= self.items@.len(),
                prefix == query.prefix@,
                mem_slots_match(self.items@, self.model@),
                listing_so_far(self.items@, self.model@, prefix, i as int, results@),
            decreases self.items@.len() - i,
        {
            if starts_with_text(self.items[i].0.as_str(), query.prefix.as_str()) {
                let value = self.items[i].1.clone();
                let size = value.len();
                let entry = Entry { key: Key(self.items[i].0.clone()), value, expiration: 0, size };
                let ghost before = results@;
                results.push(Ok(entry));
                proof { lemma_listing_push(self.items@, self.model@, prefix, i as int, before, entry); }
            } else {
                proof { lemma_listing_skip(self.items@, self.model@, prefix, i as int, results@); }
            }
            i = i + 1;
        }
        proof { lemma_listing_done(self.items@, self.model@, prefix, results@); }
        let res = RocksdbResults { results, cur: 0, query };
        Ok(Box::new(res))
    }
}

/// `results` lists, in key order, the slots among the first `i` whose key starts with `prefix`,
/// each with its value, size and expiration 0.
#[verifier::opaque]
spec fn listing_so_far(
    items: Seq<(String, Vec<u8>)>,
    model: Map<Seq<char>, Seq<u8>>,
    prefix: Seq<char>,
    i: int,
    results: Seq<Result<Entry, String>>,
) -> bool {
    &&& listed_entries_stored(results, model)
    &&& all_listed_ok(results)
    &&& no_expirations(results)
    &&& forall|j: int| 0 <= j < results.len() ==> prefix.is_prefix_of(listed_key(#[trigger] results[j]))
    &&& forall|j: int| 0 <= j < results.len() ==> exists|m: int|
        0 <= m < i && (#[trigger] items[m]).0@ == listed_key(#[trigger] results[j])
    &&& forall|a: int, b: int|
        0 <= a < b < results.len() ==> key_less(listed_key(#[trigger] results[a]), listed_key(#[trigger] results[b]))
    &&& forall|m: int| 0 <= m < i && prefix.is_prefix_of((#[trigger] items[m]).0@) ==> exists|j: int|
        0 <= j < results.len() && listed_key(#[trigger] results[j]) == items[m].0@
}

/// Listing slot `i`, whose key starts with the prefix, extends the listing.
proof fn lemma_listing_push(
    items: Seq<(String, Vec<u8>)>,
    model: Map<Seq<char>, Seq<u8>>,
    prefix: Seq<char>,
    i: int,
    before: Seq<Result<Entry, String>>,
    entry: Entry,
)
    requires
        0 <= i < items.len(),
        mem_slots_match(items, model),
        listing_so_far(items, model, prefix, i, before),
        entry.key.0@ == items[i].0@,
        entry.value@ == items[i].1@,
        entry.size == entry.value@.len(),
        entry.expiration == 0,
        prefix.len() <= items[i].0@.len() && items[i].0@.subrange(0, prefix.len() as int) == prefix,
    ensures
        listing_so_far(items, model, prefix, i + 1, before.push(Ok(entry))),
{
    reveal(listing_so_far);
    let results = before.push(Ok(entry));
    let k = items[i].0@;
    assert(prefix.is_prefix_of(k));
    assert(listed_key(results[before.len() as int]) == k);
    assert forall|j: int| 0 <= j < results.len() implies (#[trigger] results[j] matches Ok(e) ==> {
        &&& model.contains_key(e.key.0@)
        &&& e.value@ == model[e.key.0@]
        &&& e.size == e.value@.len()
    }) by {
        if j < before.len() {
            assert(results[j] == before[j]);
        }
    }
    assert forall|j: int| 0 <= j < results.len() implies exists|m: int|
        0 <= m < i + 1 && (#[trigger] items[m]).0@ == listed_key(#[trigger] results[j]) by {
        if j < before.len() {
            assert(results[j] == before[j]);
            let m = choose|m: int| 0 <= m < i && (#[trigger] items[m]).0@ == listed_key(before[j]);
            assert(items[m].0@ == listed_key(results[j]));
        } else {
            assert(items[i].0@ == listed_key(results[j]));
        }
    }
    assert forall|a: int, b: int|
        0 <= a < b < results.len() implies key_less(listed_key(#[trigger] results[a]), listed_key(#[trigger] results[b])) by {
        assert(results[a] == before[a]);
        if b < before.len() {
            assert(results[b] == before[b]);
        } else {
            let m = choose|m: int| 0 <= m < i && (#[trigger] items[m]).0@ == listed_key(before[a]);
            assert(key_less(items[m].0@, items[i].0@));
        }
    }
    assert forall|m: int| 0 <= m < i + 1 && prefix.is_prefix_of((#[trigger] items[m]).0@) implies exists|j: int|
        0 <= j < results.len() && listed_key(#[trigger] results[j]) == items[m].0@ by {
        if m < i {
            let j = choose|j: int| 0 <= j < before.len() && listed_key(#[trigger] before[j]) == items[m].0@;
            assert(results[j] == before[j]);
        } else {
            assert(listed_key(results[before.len() as int]) == items[m].0@);
        }
    }
    assert forall|j: int| 0 <= j < results.len() implies (#[trigger] results[j]) is Ok by {
        if j < before.len() {
            assert(results[j] == before[j]);
        }
    }
    assert forall|j: int| 0 <= j < results.len() implies (#[trigger] results[j] matches Ok(e) ==> e.expiration == 0) by {
        if j < before.len() {
            assert(results[j] == before[j]);
        }
    }
    assert forall|j: int| 0 <= j < results.len() implies prefix.is_prefix_of(listed_key(#[trigger] results[j])) by {
        if j < before.len() {
            assert(results[j] == before[j]);
        }
    }
}

/// Skipping slot `i`, whose key does not start with the prefix, keeps the listing.
proof fn lemma_listing_skip(
    items: Seq<(String, Vec<u8>)>,
    model: Map<Seq<char>, Seq<u8>>,
    prefix: Seq<char>,
    i: int,
    results: Seq<Result<Entry, String>>,
)
    requires
        0 <= i < items.len(),
        listing_so_far(items, model, prefix, i, results),
        !(prefix.len() <= items[i].0@.len() && items[i].0@.subrange(0, prefix.len() as int) == prefix),
    ensures
        listing_so_far(items, model, prefix, i + 1, results),
{
    reveal(listing_so_far);
    assert forall|j: int| 0 <= j < results.len() implies exists|m: int|
        0 <= m < i + 1 && (#[trigger] items[m]).0@ == listed_key(#[trigger] results[j]) by {
        let m = choose|m: int| 0 <= m < i && (#[trigger] items[m]).0@ == listed_key(results[j]);
    }
    assert forall|m: int| 0 <= m < i + 1 && prefix.is_prefix_of((#[trigger] items[m]).0@) implies exists|j: int|
        0 <= j < results.len() && listed_key(#[trigger] results[j]) == items[m].0@ by {
        if m == i {
            assert(!prefix.is_prefix_of(items[m].0@));
        }
    }
}

/// A listing over all the slots is a listing under the prefix.
proof fn lemma_listing_done(
    items: Seq<(String, Vec<u8>)>,
    model: Map<Seq<char>, Seq<u8>>,
    prefix: Seq<char>,
    results: Seq<Result<Entry, String>>,
)
    requires
        mem_slots_match(items, model),
        listing_so_far(items, model, prefix, items.len() as int, results),
    ensures
        lists_prefix(results, model, prefix),
        listed_entries_stored(results, model),
        all_listed_ok(results),
        no_expirations(results),
{
    reveal(listing_so_far);
    assert forall|j: int| 0 <= j < results.len() implies (#[trigger] results[j] matches Ok(e) ==> prefix.is_prefix_of(e.key.0@)) by {
        assert(prefix.is_prefix_of(listed_key(results[j])));
    }
    assert forall|k: Seq<char>| model.contains_key(k) && prefix.is_prefix_of(k) implies exists|j: int|
        0 <= j < results.len() && listed_key(#[trigger] results[j]) == k by {
        let m = choose|m: int| 0 <= m < items.len() && (#[trigger] items[m]).0@ == k;
        assert(prefix.is_prefix_of(items[m].0@));
    }
}

impl Write for MemDatastore {
    fn put(&mut self, key: &Key, value: &Vec<u8>) -> (r: Result<(), DataStoreError>)
        ensures
            r is Ok,
    {
        proof { use_type_invariant(&*self); }
        let n = self.items.len();
        let mut p: usize = 0;
        while p < n && key_text_less(self.items[p].0.as_str(), key.0.as_str())
            invariant
                n == self.items@.len(),
                p <= n,
                forall|j: int| 0 <= j < p ==> key_less((#[trigger] self.items@[j]).0@, key.0@),
            decreases n - p,
        {
            p = p + 1;
        }
        let same = p < n && str_eq(self.items[p].0.as_str(), key.0.as_str());
        let (mut items, Ghost(model)) = self.take_slots();
        let ghost before = items@;
        let slot = (key.0.clone(), value.clone());
        if same {
            items.set(p, slot);
            proof { lemma_set_slot(before, model, p as int, slot); }
        } else {
            proof {
                if p < n {
                    lemma_key_less_total(before[p as int].0@, key.0@);
                }
                lemma_insert_slot(before, model, p as int, slot);
            }
            items.insert(p, slot);
        }
        *self = MemDatastore { items, model: Ghost(model.insert(key.0@, value@)) };
        Ok(())
    }

    fn delete(&mut self, key: &Key) -> (r: Result<(), DataStoreError>)
        ensures
            r is Ok,
    {
        let found = self.find(key);
        match found {
            Some(i) => {
                let (mut items, Ghost(model)) = self.take_slots();
                let ghost new_model = model.remove(key.0@);
                let ghost before = items@;
                items.remove(i);
                assert(mem_slots_match(items@, new_model)) by {
                    assert forall|j: int| 0 <= j < items@.len() implies
                        (#[trigger] items@[j]) == (if j < i { before[j] } else { before[j + 1] }) by {}
                    assert forall|k: Seq<char>| #[trigger] new_model.contains_key(k) implies
                        exists|j: int| 0 <= j < items@.len() && (#[trigger] items@[j]).0@ == k by {
                        let j = choose|j: int| 0 <= j < before.len() && (#[trigger] before[j]).0@ == k;
                        if j < i {
                            assert(items@[j] == before[j]);
                        } else {
                            assert(j != i);
                            assert(items@[j - 1] == before[j]);
                        }
                    }
                    assert forall|a: int, b: int| 0 <= a < b < items@.len() implies
                        (#[trigger] items@[a]).0@ != (#[trigger] items@[b]).0@ by {
                        let a2 = if a < i { a } else { a + 1 };
                        let b2 = if b < i { b } else { b + 1 };
                        assert(items@[a] == before[a2]);
                        assert(items@[b] == before[b2]);
                    }
                    assert forall|j: int| 0 <= j < items@.len() implies
                        new_model.contains_key((#[trigger] items@[j]).0@) && new_model[items@[j].0@] == items@[j].1@ by {
                        let j2 = if j < i { j } else { j + 1 };
                        assert(items@[j] == before[j2]);
                        assert(before[j2].0@ != key.0@);
                    }
                }
                *self = MemDatastore { items, model: Ghost(new_model) };
            },
            None => {
                proof { use_type_invariant(&*self); }
                assert(self.model@.remove(key.0@) =~= self.model@);
            },
        }
        Ok(())
    }
}

impl Datastore for MemDatastore {
    fn sync(&self, prefix: Key) -> (r: Result<(), DataStoreError>)
        ensures
            r is Ok,
    {
        Ok(())
    }

    fn close(&self) -> (r: Result<(), DataStoreError>)
        ensures
            r is Ok,
    {
        Ok(())
    }
}

} // verus!

verus! {

/// After a successful `put` of `value` under `key`, `get` of that key gives `value` and `has`
/// gives `true`; after a successful `delete` of it, `has` gives `false` and `get` gives the
/// redaction error. Other keys keep what they held.
pub proof fn law_write_then_read(entries: Map<Seq<char>, Seq<u8>>, key: Seq<char>, value: Seq<u8>, other: Seq<char>)
    requires
        other != key,
    ensures
        entries.insert(key, value).contains_key(key),
        entries.insert(key, value)[key] == value,
        !entries.remove(key).contains_key(key),
        entries.insert(key, value).contains_key(other) == entries.contains_key(other),
        entries.remove(key).contains_key(other) == entries.contains_key(other),
        entries.contains_key(other) ==> entries.insert(key, value)[other] == entries[other]
            && entries.remove(key)[other] == entries[other],
{
}

} // verus!
