//! Tracks the calls a worker is running in the state store, so that results survive until
//! they have been returned to the sealing manager.

use vstd::prelude::*;
use crate::storage::datastore::Datastore;
use crate::storage::statestore::{StateStore, StateStoreError, mutation_result};
use crate::storage::storiface::{CallID, call_id_text};
use crate::storage::worker_local::ReturnType;

verus! {

/// Whether a call has finished.
#[derive(Debug, Clone, Copy, PartialEq, Eq, Structural)]
pub enum CallState {
    CallStarted,
    CallDone,
}

/// Bytes carried as one value.
#[derive(Debug, Clone)]
pub struct ManyBytes(pub Vec<u8>);

/// The tracked record of a call.
#[derive(Debug, Clone)]
pub struct Call {
    pub id: CallID,
    pub return_type: ReturnType,
    pub state: CallState,
    /// The call's result, encoded.
    pub result: ManyBytes,
}

/// `c` is the record of call `ci` of kind `rt` that has just started.
pub open spec fn is_started_call(c: Call, ci: CallID, rt: ReturnType) -> bool {
    &&& c.id == ci
    &&& c.return_type == rt
    &&& c.state == CallState::CallStarted
    &&& c.result.0@ == Seq::<u8>::empty()
}

/// `after` is the record `before` once the call is done with result `ret`.
pub open spec fn is_done_call(before: Call, after: Call, ret: Seq<u8>) -> bool {
    &&& after.id == before.id
    &&& after.return_type == before.return_type
    &&& after.state == CallState::CallDone
    &&& after.result.0@ == ret
}

/// The record of a call once it is done with result `ret`.
pub fn mark_done(call: Call, ret: Vec<u8>) -> (done: Call)
    ensures
        is_done_call(call, done, ret@),
{
    Call { id: call.id, return_type: call.return_type, state: CallState::CallDone, result: ManyBytes(ret) }
}

/// Keeps one record per running call in a state store, named by the call id's text.
pub struct WorkerCallTracker<T: Datastore> {
    pub st: StateStore<T>,
}

impl<T: Datastore> WorkerCallTracker<T> {
    pub fn new(st: StateStore<T>) -> (ct: Self)
        ensures
            ct.st == st,
    {
        WorkerCallTracker { st }
    }

    /// Records that call `ci` of kind `rt` started, encoding the record with `encode`.
    /// Refused when the call is already tracked; a refused or failed start changes nothing.
    pub fn on_start<E: Fn(&Call) -> Result<Vec<u8>, String>>(
        &mut self,
        ci: CallID,
        rt: ReturnType,
        encode: E,
    ) -> (r: Result<(), StateStoreError>)
        requires
            forall|c: &Call| encode.requires((c,)),
        ensures
            r is Ok ==> !old(self).st.ds.entries().contains_key(call_id_text(ci))
                && exists|c: Call, w: Vec<u8>|
                    #![trigger call_ensures(encode, (&c,), Ok(w))]
                    is_started_call(c, ci, rt) && call_ensures(encode, (&c,), Ok(w))
                    && final(self).st.ds.entries() == old(self).st.ds.entries().insert(call_id_text(ci), w@),
            r is Err ==> final(self).st.ds.entries() == old(self).st.ds.entries(),
            old(self).st.ds.entries().contains_key(call_id_text(ci)) ==> r is Err,
            r matches Err(StateStoreError::AlreadyTracking(k)) ==> k@ == call_id_text(ci)
                && old(self).st.ds.entries().contains_key(call_id_text(ci)),
            r matches Err(StateStoreError::Codec(m)) ==> start_encoding_fails(encode, ci, rt, m),
            r matches Err(e) ==> e is AlreadyTracking || e is Codec || (e is Store && !old(self).st.ds.healthy()),
            final(self).st.ds.healthy() == old(self).st.ds.healthy(),
    {
        let key = ci.to_string();
        let call = Call {
            id: ci,
            return_type: rt,
            state: CallState::CallStarted,
            result: ManyBytes(Vec::new()),
        };
        let encoded = match encode(&call) {
            Ok(w) => w,
            Err(m) => {
                assert(is_started_call(call, ci, rt) && call_ensures(encode, (&call,), Err::<Vec<u8>, String>(m)));
                return Err(StateStoreError::Codec(m));
            },
        };
        let ghost w = encoded;
        let r = self.st.begin(key.as_str(), encoded);
        proof {
            if r is Ok {
                assert(is_started_call(call, ci, rt) && call_ensures(encode, (&call,), Ok(w)));
            }
        }
        r
    }

    /// Records that call `ci` is done with result `ret`: the tracked record is decoded, marked
    /// done with `ret`, and its encoding replaces the tracked bytes.
    /// A failed update changes nothing.
    pub fn on_done<D, E>(&mut self, ci: CallID, ret: Vec<u8>, decode: D, encode: E) -> (r: Result<(), StateStoreError>) where
        D: Fn(&Vec<u8>) -> Result<Call, String>,
        E: Fn(&Call) -> Result<Vec<u8>, String>,
        requires
            forall|v: &Vec<u8>| decode.requires((v,)),
            forall|c: &Call| encode.requires((c,)),
        ensures
            r is Ok ==> old(self).st.ds.entries().contains_key(call_id_text(ci)) && exists|updated: Seq<u8>|
                #![trigger done_record(decode, encode, ret@, old(self).st.ds.entries()[call_id_text(ci)], updated)]
                done_record(decode, encode, ret@, old(self).st.ds.entries()[call_id_text(ci)], updated)
                && final(self).st.ds.entries() == old(self).st.ds.entries().insert(call_id_text(ci), updated),
            r is Err ==> final(self).st.ds.entries() == old(self).st.ds.entries(),
            r matches Err(StateStoreError::Store(e)) ==> !old(self).st.ds.healthy()
                || (e is Redaction && !old(self).st.ds.entries().contains_key(call_id_text(ci))),
            r matches Err(StateStoreError::Codec(m)) ==> old(self).st.ds.entries().contains_key(call_id_text(ci))
                && done_fails(decode, encode, ret@, old(self).st.ds.entries()[call_id_text(ci)], m),
            r matches Err(e) ==> e is Store || e is Codec,
            final(self).st.ds.healthy() == old(self).st.ds.healthy(),
    {
        let key = ci.to_string();
        let ghost ret_view = ret@;
        let mutator = move |c: Call| -> (d: Call)
            ensures
                is_done_call(c, d, ret_view),
            { mark_done(c, ret) };
        let st = self.st.get(key.as_str());
        let r = st.mutate(decode, mutator, encode);
        proof {
            if r is Ok {
                let stored = old(self).st.ds.entries()[call_id_text(ci)];
                let updated = choose|updated: Seq<u8>| mutation_result(decode, mutator, encode, stored, updated)
                    && self.st.ds.entries() == old(self).st.ds.entries().insert(call_id_text(ci), updated);
                assert(done_record(decode, encode, ret@, stored, updated));
            }
        }
        r
    }

    /// Stops tracking call `ci` once its result has been returned. Refused when the call is
    /// not tracked; a refused or failed end changes nothing.
    pub fn on_returned(&mut self, ci: CallID) -> (r: Result<(), StateStoreError>)
        ensures
            r is Ok ==> old(self).st.ds.entries().contains_key(call_id_text(ci))
                && final(self).st.ds.entries() == old(self).st.ds.entries().remove(call_id_text(ci)),
            r is Err ==> final(self).st.ds.entries() == old(self).st.ds.entries(),
            !old(self).st.ds.entries().contains_key(call_id_text(ci)) ==> r is Err,
            r matches Err(StateStoreError::NoState(k)) ==> k@ == call_id_text(ci)
                && !old(self).st.ds.entries().contains_key(call_id_text(ci)),
            r matches Err(e) ==> e is NoState || (e is Store && !old(self).st.ds.healthy()),
            final(self).st.ds.healthy() == old(self).st.ds.healthy(),
    {
        let key = ci.to_string();
        let st = self.st.get(key.as_str());
        st.end()
    }
}

/// Encoding the record of call `ci` of kind `rt` that has just started fails with message `m`.
pub open spec fn start_encoding_fails<E: Fn(&Call) -> Result<Vec<u8>, String>>(encode: E, ci: CallID, rt: ReturnType, m: String) -> bool {
    exists|c: Call| #![trigger call_ensures(encode, (&c,), Err::<Vec<u8>, String>(m))]
        is_started_call(c, ci, rt) && call_ensures(encode, (&c,), Err::<Vec<u8>, String>(m))
}

/// Marking the record stored as `stored` done with `ret` fails with message `m`: decoding the
/// record gives `m`, or encoding the record marked done does.
pub open spec fn done_fails<D, E>(decode: D, encode: E, ret: Seq<u8>, stored: Seq<u8>, m: String) -> bool where
    D: Fn(&Vec<u8>) -> Result<Call, String>,
    E: Fn(&Call) -> Result<Vec<u8>, String>,
 {
    ||| exists|v: Vec<u8>| #![trigger call_ensures(decode, (&v,), Err::<Call, String>(m))]
        v@ == stored && call_ensures(decode, (&v,), Err::<Call, String>(m))
    ||| exists|v: Vec<u8>, c: Call, d: Call|
        #![trigger call_ensures(decode, (&v,), Ok::<Call, String>(c)), call_ensures(encode, (&d,), Err::<Vec<u8>, String>(m))]
        {
            &&& v@ == stored
            &&& call_ensures(decode, (&v,), Ok::<Call, String>(c))
            &&& is_done_call(c, d, ret)
            &&& call_ensures(encode, (&d,), Err::<Vec<u8>, String>(m))
        }
}

/// `updated` is the encoding of the record decoded from `stored`, marked done with `ret`.
pub open spec fn done_record<D, E>(decode: D, encode: E, ret: Seq<u8>, stored: Seq<u8>, updated: Seq<u8>) -> bool where
    D: Fn(&Vec<u8>) -> Result<Call, String>,
    E: Fn(&Call) -> Result<Vec<u8>, String>,
 {
    exists|v: Vec<u8>, c: Call, d: Call, w: Vec<u8>|
        #![trigger call_ensures(decode, (&v,), Ok(c)), call_ensures(encode, (&d,), Ok(w))]
        {
            &&& v@ == stored
            &&& call_ensures(decode, (&v,), Ok(c))
            &&& is_done_call(c, d, ret)
            &&& call_ensures(encode, (&d,), Ok(w))
            &&& w@ == updated
        }
}

} // verus!

verus! {

/// A call tracked from its start and forgotten once returned leaves the store as it was; while it
/// runs, the record is kept under the call id's text.
pub proof fn law_start_then_returned_restores(entries: Map<Seq<char>, Seq<u8>>, ci: CallID, record: Seq<u8>)
    requires
        !entries.contains_key(call_id_text(ci)),
    ensures
        entries.insert(call_id_text(ci), record).contains_key(call_id_text(ci)),
        entries.insert(call_id_text(ci), record).remove(call_id_text(ci)) == entries,
{
    assert(entries.insert(call_id_text(ci), record).remove(call_id_text(ci)) =~= entries);
}

} // verus!
