//! The local worker: what it reports back to the sealing manager, and how a commit2 call runs.

use vstd::prelude::*;
use crate::text::str_eq;
use crate::api::WorkerReturn;
use crate::storage::datastore::Datastore;
use crate::storage::calltracker::WorkerCallTracker;
use crate::storage::statestore::StateStore;
use crate::storage::storiface::{CallError, CallID, ErrorCode, SectorId, SectorRef};

verus! {

/// The kind of result a call returns to the sealing manager.
#[derive(Debug, Clone, Copy, PartialEq, Eq, Structural)]
pub enum ReturnType {
    DataCid,
    AddPiece,
    SealPreCommit1,
    SealPreCommit2,
    SealCommit1,
    SealCommit2,
    FinalizeSector,
    FinalizeReplicaUpdate,
    ReplicaUpdate,
    ProveReplicaUpdate1,
    ProveReplicaUpdate2,
    GenerateSectorKey,
    ReleaseUnsealed,
    MoveStorage,
    UnsealPiece,
    DownloadSector,
    Fetch,
}

/// The name of a return type: the name of its variant.
pub open spec fn return_type_name(r: ReturnType) -> Seq<char> {
    match r {
        ReturnType::DataCid => "DataCid"@,
        ReturnType::AddPiece => "AddPiece"@,
        ReturnType::SealPreCommit1 => "SealPreCommit1"@,
        ReturnType::SealPreCommit2 => "SealPreCommit2"@,
        ReturnType::SealCommit1 => "SealCommit1"@,
        ReturnType::SealCommit2 => "SealCommit2"@,
        ReturnType::FinalizeSector => "FinalizeSector"@,
        ReturnType::FinalizeReplicaUpdate => "FinalizeReplicaUpdate"@,
        ReturnType::ReplicaUpdate => "ReplicaUpdate"@,
        ReturnType::ProveReplicaUpdate1 => "ProveReplicaUpdate1"@,
        ReturnType::ProveReplicaUpdate2 => "ProveReplicaUpdate2"@,
        ReturnType::GenerateSectorKey => "GenerateSectorKey"@,
        ReturnType::ReleaseUnsealed => "ReleaseUnsealed"@,
        ReturnType::MoveStorage => "MoveStorage"@,
        ReturnType::UnsealPiece => "UnsealPiece"@,
        ReturnType::DownloadSector => "DownloadSector"@,
        ReturnType::Fetch => "Fetch"@,
    }
}

/// The return type named by a text, if any.
pub open spec fn return_type_named(s: Seq<char>) -> Option<ReturnType> {
    if s == "DataCid"@ {
        Some(ReturnType::DataCid)
    } else if s == "AddPiece"@ {
        Some(ReturnType::AddPiece)
    } else if s == "SealPreCommit1"@ {
        Some(ReturnType::SealPreCommit1)
    } else if s == "SealPreCommit2"@ {
        Some(ReturnType::SealPreCommit2)
    } else if s == "SealCommit1"@ {
        Some(ReturnType::SealCommit1)
    } else if s == "SealCommit2"@ {
        Some(ReturnType::SealCommit2)
    } else if s == "FinalizeSector"@ {
        Some(ReturnType::FinalizeSector)
    } else if s == "FinalizeReplicaUpdate"@ {
        Some(ReturnType::FinalizeReplicaUpdate)
    } else if s == "ReplicaUpdate"@ {
        Some(ReturnType::ReplicaUpdate)
    } else if s == "ProveReplicaUpdate1"@ {
        Some(ReturnType::ProveReplicaUpdate1)
    } else if s == "ProveReplicaUpdate2"@ {
        Some(ReturnType::ProveReplicaUpdate2)
    } else if s == "GenerateSectorKey"@ {
        Some(ReturnType::GenerateSectorKey)
    } else if s == "ReleaseUnsealed"@ {
        Some(ReturnType::ReleaseUnsealed)
    } else if s == "MoveStorage"@ {
        Some(ReturnType::MoveStorage)
    } else if s == "UnsealPiece"@ {
        Some(ReturnType::UnsealPiece)
    } else if s == "DownloadSector"@ {
        Some(ReturnType::DownloadSector)
    } else if s == "Fetch"@ {
        Some(ReturnType::Fetch)
    } else {
        None
    }
}

impl ReturnType {
    /// The name of the return type: the name of its variant.
    pub fn to_string(&self) -> (s: String)
        ensures
            s@ == return_type_name(*self),
    {
        match self {
            ReturnType::DataCid => String::from_str("DataCid"),
            ReturnType::AddPiece => String::from_str("AddPiece"),
            ReturnType::SealPreCommit1 => String::from_str("SealPreCommit1"),
            ReturnType::SealPreCommit2 => String::from_str("SealPreCommit2"),
            ReturnType::SealCommit1 => String::from_str("SealCommit1"),
            ReturnType::SealCommit2 => String::from_str("SealCommit2"),
            ReturnType::FinalizeSector => String::from_str("FinalizeSector"),
            ReturnType::FinalizeReplicaUpdate => String::from_str("FinalizeReplicaUpdate"),
            ReturnType::ReplicaUpdate => String::from_str("ReplicaUpdate"),
            ReturnType::ProveReplicaUpdate1 => String::from_str("ProveReplicaUpdate1"),
            ReturnType::ProveReplicaUpdate2 => String::from_str("ProveReplicaUpdate2"),
            ReturnType::GenerateSectorKey => String::from_str("GenerateSectorKey"),
            ReturnType::ReleaseUnsealed => String::from_str("ReleaseUnsealed"),
            ReturnType::MoveStorage => String::from_str("MoveStorage"),
            ReturnType::UnsealPiece => String::from_str("UnsealPiece"),
            ReturnType::DownloadSector => String::from_str("DownloadSector"),
            ReturnType::Fetch => String::from_str("Fetch"),
        }
    }

    /// The return type with the given name; `None` for any other text.
    pub fn from_str(s: &str) -> (r: Option<ReturnType>)
        ensures
            r == return_type_named(s@),
    {
        if str_eq(s, "DataCid") {
            return Some(ReturnType::DataCid);
        }
        if str_eq(s, "AddPiece") {
            return Some(ReturnType::AddPiece);
        }
        if str_eq(s, "SealPreCommit1") {
            return Some(ReturnType::SealPreCommit1);
        }
        if str_eq(s, "SealPreCommit2") {
            return Some(ReturnType::SealPreCommit2);
        }
        if str_eq(s, "SealCommit1") {
            return Some(ReturnType::SealCommit1);
        }
        if str_eq(s, "SealCommit2") {
            return Some(ReturnType::SealCommit2);
        }
        if str_eq(s, "FinalizeSector") {
            return Some(ReturnType::FinalizeSector);
        }
        if str_eq(s, "FinalizeReplicaUpdate") {
            return Some(ReturnType::FinalizeReplicaUpdate);
        }
        if str_eq(s, "ReplicaUpdate") {
            return Some(ReturnType::ReplicaUpdate);
        }
        if str_eq(s, "ProveReplicaUpdate1") {
            return Some(ReturnType::ProveReplicaUpdate1);
        }
        if str_eq(s, "ProveReplicaUpdate2") {
            return Some(ReturnType::ProveReplicaUpdate2);
        }
        if str_eq(s, "GenerateSectorKey") {
            return Some(ReturnType::GenerateSectorKey);
        }
        if str_eq(s, "ReleaseUnsealed") {
            return Some(ReturnType::ReleaseUnsealed);
        }
        if str_eq(s, "MoveStorage") {
            return Some(ReturnType::MoveStorage);
        }
        if str_eq(s, "UnsealPiece") {
            return Some(ReturnType::UnsealPiece);
        }
        if str_eq(s, "DownloadSector") {
            return Some(ReturnType::DownloadSector);
        }
        if str_eq(s, "Fetch") {
            return Some(ReturnType::Fetch);
        }
        None
    }
}

/// Reading back the name of a return type gives that return type.
pub proof fn law_return_type_name_round_trip(r: ReturnType)
    ensures
        return_type_named(return_type_name(r)) == Some(r),
{
    reveal_strlit("DataCid");
    reveal_strlit("AddPiece");
    reveal_strlit("SealPreCommit1");
    reveal_strlit("SealPreCommit2");
    reveal_strlit("SealCommit1");
    reveal_strlit("SealCommit2");
    reveal_strlit("FinalizeSector");
    reveal_strlit("FinalizeReplicaUpdate");
    reveal_strlit("ReplicaUpdate");
    reveal_strlit("ProveReplicaUpdate1");
    reveal_strlit("ProveReplicaUpdate2");
    reveal_strlit("GenerateSectorKey");
    reveal_strlit("ReleaseUnsealed");
    reveal_strlit("MoveStorage");
    reveal_strlit("UnsealPiece");
    reveal_strlit("DownloadSector");
    reveal_strlit("Fetch");
    // Each name differs from every name tested before it, in length or at one position.
    match r {
        ReturnType::DataCid => {
        },
        ReturnType::AddPiece => {
            assert("AddPiece"@.len() != "DataCid"@.len());
        },
        ReturnType::SealPreCommit1 => {
            assert("SealPreCommit1"@.len() != "DataCid"@.len());
            assert("SealPreCommit1"@.len() != "AddPiece"@.len());
        },
        ReturnType::SealPreCommit2 => {
            assert("SealPreCommit2"@.len() != "DataCid"@.len());
            assert("SealPreCommit2"@.len() != "AddPiece"@.len());
            assert("SealPreCommit2"@[13] != "SealPreCommit1"@[13]);
        },
        ReturnType::SealCommit1 => {
            assert("SealCommit1"@.len() != "DataCid"@.len());
            assert("SealCommit1"@.len() != "AddPiece"@.len());
            assert("SealCommit1"@.len() != "SealPreCommit1"@.len());
            assert("SealCommit1"@.len() != "SealPreCommit2"@.len());
        },
        ReturnType::SealCommit2 => {
            assert("SealCommit2"@.len() != "DataCid"@.len());
            assert("SealCommit2"@.len() != "AddPiece"@.len());
            assert("SealCommit2"@.len() != "SealPreCommit1"@.len());
            assert("SealCommit2"@.len() != "SealPreCommit2"@.len());
            assert("SealCommit2"@[10] != "SealCommit1"@[10]);
        },
        ReturnType::FinalizeSector => {
            assert("FinalizeSector"@.len() != "DataCid"@.len());
            assert("FinalizeSector"@.len() != "AddPiece"@.len());
            assert("FinalizeSector"@[0] != "SealPreCommit1"@[0]);
            assert("FinalizeSector"@[0] != "SealPreCommit2"@[0]);
            assert("FinalizeSector"@.len() != "SealCommit1"@.len());
            assert("FinalizeSector"@.len() != "SealCommit2"@.len());
        },
        ReturnType::FinalizeReplicaUpdate => {
            assert("FinalizeReplicaUpdate"@.len() != "DataCid"@.len());
            assert("FinalizeReplicaUpdate"@.len() != "AddPiece"@.len());
            assert("FinalizeReplicaUpdate"@.len() != "SealPreCommit1"@.len());
            assert("FinalizeReplicaUpdate"@.len() != "SealPreCommit2"@.len());
            assert("FinalizeReplicaUpdate"@.len() != "SealCommit1"@.len());
            assert("FinalizeReplicaUpdate"@.len() != "SealCommit2"@.len());
            assert("FinalizeReplicaUpdate"@.len() != "FinalizeSector"@.len());
        },
        ReturnType::ReplicaUpdate => {
            assert("ReplicaUpdate"@.len() != "DataCid"@.len());
            assert("ReplicaUpdate"@.len() != "AddPiece"@.len());
            assert("ReplicaUpdate"@.len() != "SealPreCommit1"@.len());
            assert("ReplicaUpdate"@.len() != "SealPreCommit2"@.len());
            assert("ReplicaUpdate"@.len() != "SealCommit1"@.len());
            assert("ReplicaUpdate"@.len() != "SealCommit2"@.len());
            assert("ReplicaUpdate"@.len() != "FinalizeSector"@.len());
            assert("ReplicaUpdate"@.len() != "FinalizeReplicaUpdate"@.len());
        },
        ReturnType::ProveReplicaUpdate1 => {
            assert("ProveReplicaUpdate1"@.len() != "DataCid"@.len());
            assert("ProveReplicaUpdate1"@.len() != "AddPiece"@.len());
            assert("ProveReplicaUpdate1"@.len() != "SealPreCommit1"@.len());
            assert("ProveReplicaUpdate1"@.len() != "SealPreCommit2"@.len());
            assert("ProveReplicaUpdate1"@.len() != "SealCommit1"@.len());
            assert("ProveReplicaUpdate1"@.len() != "SealCommit2"@.len());
            assert("ProveReplicaUpdate1"@.len() != "FinalizeSector"@.len());
            assert("ProveReplicaUpdate1"@.len() != "FinalizeReplicaUpdate"@.len());
            assert("ProveReplicaUpdate1"@.len() != "ReplicaUpdate"@.len());
        },
        ReturnType::ProveReplicaUpdate2 => {
            assert("ProveReplicaUpdate2"@.len() != "DataCid"@.len());
            assert("ProveReplicaUpdate2"@.len() != "AddPiece"@.len());
            assert("ProveReplicaUpdate2"@.len() != "SealPreCommit1"@.len());
            assert("ProveReplicaUpdate2"@.len() != "SealPreCommit2"@.len());
            assert("ProveReplicaUpdate2"@.len() != "SealCommit1"@.len());
            assert("ProveReplicaUpdate2"@.len() != "SealCommit2"@.len());
            assert("ProveReplicaUpdate2"@.len() != "FinalizeSector"@.len());
            assert("ProveReplicaUpdate2"@.len() != "FinalizeReplicaUpdate"@.len());
            assert("ProveReplicaUpdate2"@.len() != "ReplicaUpdate"@.len());
            assert("ProveReplicaUpdate2"@[18] != "ProveReplicaUpdate1"@[18]);
        },
        ReturnType::GenerateSectorKey => {
            assert("GenerateSectorKey"@.len() != "DataCid"@.len());
            assert("GenerateSectorKey"@.len() != "AddPiece"@.len());
            assert("GenerateSectorKey"@.len() != "SealPreCommit1"@.len());
            assert("GenerateSectorKey"@.len() != "SealPreCommit2"@.len());
            assert("GenerateSectorKey"@.len() != "SealCommit1"@.len());
            assert("GenerateSectorKey"@.len() != "SealCommit2"@.len());
            assert("GenerateSectorKey"@.len() != "FinalizeSector"@.len());
            assert("GenerateSectorKey"@.len() != "FinalizeReplicaUpdate"@.len());
            assert("GenerateSectorKey"@.len() != "ReplicaUpdate"@.len());
            assert("GenerateSectorKey"@.len() != "ProveReplicaUpdate1"@.len());
            assert("GenerateSectorKey"@.len() != "ProveReplicaUpdate2"@.len());
        },
        ReturnType::ReleaseUnsealed => {
            assert("ReleaseUnsealed"@.len() != "DataCid"@.len());
            assert("ReleaseUnsealed"@.len() != "AddPiece"@.len());
            assert("ReleaseUnsealed"@.len() != "SealPreCommit1"@.len());
            assert("ReleaseUnsealed"@.len() != "SealPreCommit2"@.len());
            assert("ReleaseUnsealed"@.len() != "SealCommit1"@.len());
            assert("ReleaseUnsealed"@.len() != "SealCommit2"@.len());
            assert("ReleaseUnsealed"@.len() != "FinalizeSector"@.len());
            assert("ReleaseUnsealed"@.len() != "FinalizeReplicaUpdate"@.len());
            assert("ReleaseUnsealed"@.len() != "ReplicaUpdate"@.len());
            assert("ReleaseUnsealed"@.len() != "ProveReplicaUpdate1"@.len());
            assert("ReleaseUnsealed"@.len() != "ProveReplicaUpdate2"@.len());
            assert("ReleaseUnsealed"@.len() != "GenerateSectorKey"@.len());
        },
        ReturnType::MoveStorage => {
            assert("MoveStorage"@.len() != "DataCid"@.len());
            assert("MoveStorage"@.len() != "AddPiece"@.len());
            assert("MoveStorage"@.len() != "SealPreCommit1"@.len());
            assert("MoveStorage"@.len() != "SealPreCommit2"@.len());
            assert("MoveStorage"@[0] != "SealCommit1"@[0]);
            assert("MoveStorage"@[0] != "SealCommit2"@[0]);
            assert("MoveStorage"@.len() != "FinalizeSector"@.len());
            assert("MoveStorage"@.len() != "FinalizeReplicaUpdate"@.len());
            assert("MoveStorage"@.len() != "ReplicaUpdate"@.len());
            assert("MoveStorage"@.len() != "ProveReplicaUpdate1"@.len());
            assert("MoveStorage"@.len() != "ProveReplicaUpdate2"@.len());
            assert("MoveStorage"@.len() != "GenerateSectorKey"@.len());
            assert("MoveStorage"@.len() != "ReleaseUnsealed"@.len());
        },
        ReturnType::UnsealPiece => {
            assert("UnsealPiece"@.len() != "DataCid"@.len());
            assert("UnsealPiece"@.len() != "AddPiece"@.len());
            assert("UnsealPiece"@.len() != "SealPreCommit1"@.len());
            assert("UnsealPiece"@.len() != "SealPreCommit2"@.len());
            assert("UnsealPiece"@[0] != "SealCommit1"@[0]);
            assert("UnsealPiece"@[0] != "SealCommit2"@[0]);
            assert("UnsealPiece"@.len() != "FinalizeSector"@.len());
            assert("UnsealPiece"@.len() != "FinalizeReplicaUpdate"@.len());
            assert("UnsealPiece"@.len() != "ReplicaUpdate"@.len());
            assert("UnsealPiece"@.len() != "ProveReplicaUpdate1"@.len());
            assert("UnsealPiece"@.len() != "ProveReplicaUpdate2"@.len());
            assert("UnsealPiece"@.len() != "GenerateSectorKey"@.len());
            assert("UnsealPiece"@.len() != "ReleaseUnsealed"@.len());
            assert("UnsealPiece"@[0] != "MoveStorage"@[0]);
        },
        ReturnType::DownloadSector => {
            assert("DownloadSector"@.len() != "DataCid"@.len());
            assert("DownloadSector"@.len() != "AddPiece"@.len());
            assert("DownloadSector"@[0] != "SealPreCommit1"@[0]);
            assert("DownloadSector"@[0] != "SealPreCommit2"@[0]);
            assert("DownloadSector"@.len() != "SealCommit1"@.len());
            assert("DownloadSector"@.len() != "SealCommit2"@.len());
            assert("DownloadSector"@[0] != "FinalizeSector"@[0]);
            assert("DownloadSector"@.len() != "FinalizeReplicaUpdate"@.len());
            assert("DownloadSector"@.len() != "ReplicaUpdate"@.len());
            assert("DownloadSector"@.len() != "ProveReplicaUpdate1"@.len());
            assert("DownloadSector"@.len() != "ProveReplicaUpdate2"@.len());
            assert("DownloadSector"@.len() != "GenerateSectorKey"@.len());
            assert("DownloadSector"@.len() != "ReleaseUnsealed"@.len());
            assert("DownloadSector"@.len() != "MoveStorage"@.len());
            assert("DownloadSector"@.len() != "UnsealPiece"@.len());
        },
        ReturnType::Fetch => {
            assert("Fetch"@.len() != "DataCid"@.len());
            assert("Fetch"@.len() != "AddPiece"@.len());
            assert("Fetch"@.len() != "SealPreCommit1"@.len());
            assert("Fetch"@.len() != "SealPreCommit2"@.len());
            assert("Fetch"@.len() != "SealCommit1"@.len());
            assert("Fetch"@.len() != "SealCommit2"@.len());
            assert("Fetch"@.len() != "FinalizeSector"@.len());
            assert("Fetch"@.len() != "FinalizeReplicaUpdate"@.len());
            assert("Fetch"@.len() != "ReplicaUpdate"@.len());
            assert("Fetch"@.len() != "ProveReplicaUpdate1"@.len());
            assert("Fetch"@.len() != "ProveReplicaUpdate2"@.len());
            assert("Fetch"@.len() != "GenerateSectorKey"@.len());
            assert("Fetch"@.len() != "ReleaseUnsealed"@.len());
            assert("Fetch"@.len() != "MoveStorage"@.len());
            assert("Fetch"@.len() != "UnsealPiece"@.len());
            assert("Fetch"@.len() != "DownloadSector"@.len());
        },
    }
}

} // verus!

verus! {

/// Unsigned LEB128: seven bits per byte, least significant first, the high bit set on every
/// byte but the last.
pub open spec fn leb128(n: nat) -> Seq<u8>
    decreases n,
{
    if n < 128 {
        seq![n as u8]
    } else {
        seq![((n % 128) + 128) as u8] + leb128(n / 128)
    }
}

/// The payload bytes of an ID address: the ID protocol byte 0, then the id in LEB128.
pub open spec fn id_payload_bytes(id: u64) -> Seq<u8> {
    seq![0u8] + leb128(id as nat)
}

/// The payload bytes of the ID address of an actor (`fvm_shared::address::Address::new_id`, then
/// `payload().to_bytes()`). Claimed: they are `id_payload_bytes` of the id.
#[verifier::external_body]
fn id_address_payload(id: u64) -> (b: Vec<u8>)
    ensures
        b@ == id_payload_bytes(id),
{
    fvm_shared::address::Address::new_id(id).payload().to_bytes()
}

proof fn lemma_leb128_len(n: nat, k: nat)
    requires
        k >= 1,
        n < pow128(k),
    ensures
        leb128(n).len() <= k,
    decreases k,
{
    if n >= 128 {
        assert(n / 128 < pow128((k - 1) as nat)) by (nonlinear_arith)
            requires n < pow128(k), k >= 1, pow128(k) == 128 * pow128((k - 1) as nat), n >= 128;
        lemma_leb128_len(n / 128, (k - 1) as nat);
    }
}

spec fn pow128(k: nat) -> nat
    decreases k,
{
    if k == 0 { 1 } else { 128 * pow128((k - 1) as nat) }
}

/// The prover id of a miner: the payload bytes of its ID address, followed by zeros up to 32 bytes.
pub open spec fn prover_id_bytes(miner: u64) -> Seq<u8> {
    id_payload_bytes(miner) + Seq::new((32 - id_payload_bytes(miner).len()) as nat, |i: int| 0u8)
}

/// The prover id of a miner, as the proving backend takes it.
pub fn prover_id(miner: u64) -> (p: [u8; 32])
    ensures
        p@ == prover_id_bytes(miner),
{
    let payload = id_address_payload(miner);
    proof {
        reveal_with_fuel(pow128, 11);
        assert(pow128(10) == 1180591620717411303424nat);
        lemma_leb128_len(miner as nat, 10);
    }
    let mut p = [0u8; 32];
    let mut i: usize = 0;
    while i < payload.len()
        invariant
            payload@ == id_payload_bytes(miner),
            payload@.len() <= 11,
            i <= payload@.len(),
            forall|j: int| 0 <= j < i ==> p@[j] == payload@[j],
            forall|j: int| i <= j < 32 ==> p@[j] == 0u8,
        decreases payload@.len() - i,
    {
        p[i] = payload[i];
        i = i + 1;
    }
    assert(p@ =~= prover_id_bytes(miner));
    p
}

} // verus!

verus! {

/// Where a commit2 call is.
#[derive(Debug, Clone)]
pub enum Commit2Stage {
    /// Waiting for the commit phase 1 output to be decoded.
    Decoding,
    /// The output did not decode: returning this error until the manager takes it.
    ReturningDecodeError(CallError),
    /// Waiting for the proof.
    Proving,
    /// Waiting for the tracker to record the call as done.
    RecordingDone,
    /// Waiting for the proof to be returned.
    ReturningProof,
    /// Returning the outcome of returning the proof (an error, or none) until the manager takes it.
    ReturningOutcome(Option<CallError>),
    /// Waiting for the tracker to record the call as returned.
    MarkingReturned,
    Finished,
}

/// What happened since the last step.
#[derive(Debug, Clone)]
pub enum Commit2Event {
    /// The output was decoded, or failed to with this error text.
    Decoded(Option<String>),
    /// The proof is ready.
    Proved,
    /// The tracker recorded the call as done, or failed with this error text.
    Recorded(Option<String>),
    /// The manager took what was returned, or returning failed with this error text.
    Returned(Option<String>),
    /// The wait before a retry is over.
    Slept,
    /// The tracker recorded the call as returned, or failed with this error text.
    Marked(Option<String>),
}

/// What to do next.
#[derive(Debug, Clone)]
pub enum Commit2Op {
    /// Compute the proof with this prover id for this sector number.
    Prove { prover_id: [u8; 32], sector_number: u64 },
    /// Record the call as done with the proof.
    RecordDone,
    /// Return the proof, without error.
    ReturnProof,
    /// Return an empty proof with this error, or none.
    ReturnEmpty(Option<CallError>),
    /// Wait, then report `Slept`.
    Sleep { millis: u64 },
    /// Record the call as returned.
    MarkReturned,
    /// Nothing more to do.
    Stop,
}

/// The outcome of a step: the next stage, a line to log if any, and the next operation.
#[derive(Debug, Clone)]
pub struct Commit2Step {
    pub stage: Commit2Stage,
    pub log: Option<String>,
    pub op: Commit2Op,
}

/// The events a stage waits for.
pub open spec fn commit2_event_fits(stage: Commit2Stage, event: Commit2Event) -> bool {
    match stage {
        Commit2Stage::Decoding => event is Decoded,
        Commit2Stage::ReturningDecodeError(_) => event is Returned || event is Slept,
        Commit2Stage::Proving => event is Proved,
        Commit2Stage::RecordingDone => event is Recorded,
        Commit2Stage::ReturningProof => event is Returned,
        Commit2Stage::ReturningOutcome(_) => event is Returned || event is Slept,
        Commit2Stage::MarkingReturned => event is Marked,
        Commit2Stage::Finished => false,
    }
}

/// The line logged when returning fails and is retried.
pub open spec fn retry_line(e: Seq<char>) -> Seq<char> {
    "return error, will retry in 5s: "@ + "SealCommit2"@ + ": "@ + e
}

/// The line logged when the tracker fails.
pub open spec fn tracking_line(e: Seq<char>) -> Seq<char> {
    "tracking call (done): "@ + e
}

/// `ce` is the error of an unknown kind made from the text `e`.
pub open spec fn is_unknown_error(ce: CallError, e: Seq<char>) -> bool {
    ce.code == ErrorCode::ErrUnknown && ce.message@ == e && ce.cause() == Some(e)
}

/// Both are absent, or both are present with the same code and texts.
pub open spec fn same_call_error(a: Option<CallError>, b: Option<CallError>) -> bool {
    match (a, b) {
        (None, None) => true,
        (Some(x), Some(y)) => x.code == y.code && x.message@ == y.message@ && x.cause() == y.cause(),
        _ => false,
    }
}

/// `step` is what a commit2 call on `sector` does in `stage` when `event` happens.
pub open spec fn is_commit2_step(sector: SectorId, stage: Commit2Stage, event: Commit2Event, step: Commit2Step) -> bool {
    match stage {
        Commit2Stage::Decoding => match event {
            Commit2Event::Decoded(Some(e)) => {
                &&& step.stage matches Commit2Stage::ReturningDecodeError(ce) && is_unknown_error(ce, e@)
                &&& step.op matches Commit2Op::ReturnEmpty(Some(ce2)) && is_unknown_error(ce2, e@)
                &&& step.log is None
            },
            _ => {
                &&& step.stage is Proving
                &&& step.op matches Commit2Op::Prove { prover_id, sector_number }
                    && prover_id@ == prover_id_bytes(sector.miner) && sector_number == sector.number
                &&& step.log is None
            },
        },
        Commit2Stage::ReturningDecodeError(ce) => match event {
            Commit2Event::Returned(None) => step.stage is Finished && step.op is Stop && step.log is None,
            Commit2Event::Returned(Some(e)) => {
                &&& step.stage matches Commit2Stage::ReturningDecodeError(ce2) && same_call_error(Some(ce2), Some(ce))
                &&& step.op == (Commit2Op::Sleep { millis: 5000 })
                &&& step.log matches Some(l) && l@ == retry_line(e@)
            },
            _ => {
                &&& step.stage matches Commit2Stage::ReturningDecodeError(ce2) && same_call_error(Some(ce2), Some(ce))
                &&& step.op matches Commit2Op::ReturnEmpty(err) && same_call_error(err, Some(ce))
                &&& step.log is None
            },
        },
        Commit2Stage::Proving => step.stage is RecordingDone && step.op is RecordDone && step.log is None,
        Commit2Stage::RecordingDone => {
            &&& step.stage is ReturningProof
            &&& step.op is ReturnProof
            &&& match event {
                Commit2Event::Recorded(Some(e)) => step.log matches Some(l) && l@ == tracking_line(e@),
                _ => step.log is None,
            }
        },
        Commit2Stage::ReturningProof => {
            &&& step.log is None
            &&& match event {
                Commit2Event::Returned(Some(e)) => {
                    &&& step.stage matches Commit2Stage::ReturningOutcome(Some(ce)) && is_unknown_error(ce, e@)
                    &&& step.op matches Commit2Op::ReturnEmpty(Some(ce2)) && is_unknown_error(ce2, e@)
                },
                _ => {
                    &&& step.stage matches Commit2Stage::ReturningOutcome(None)
                    &&& step.op matches Commit2Op::ReturnEmpty(None)
                },
            }
        },
        Commit2Stage::ReturningOutcome(ce) => match event {
            Commit2Event::Returned(None) => step.stage is MarkingReturned && step.op is MarkReturned && step.log is None,
            Commit2Event::Returned(Some(e)) => {
                &&& step.stage matches Commit2Stage::ReturningOutcome(ce2) && same_call_error(ce2, ce)
                &&& step.op == (Commit2Op::Sleep { millis: 5000 })
                &&& step.log matches Some(l) && l@ == retry_line(e@)
            },
            _ => {
                &&& step.stage matches Commit2Stage::ReturningOutcome(ce2) && same_call_error(ce2, ce)
                &&& step.op matches Commit2Op::ReturnEmpty(err) && same_call_error(err, ce)
                &&& step.log is None
            },
        },
        Commit2Stage::MarkingReturned => {
            &&& step.stage is Finished
            &&& step.op is Stop
            &&& match event {
                Commit2Event::Marked(Some(e)) => step.log matches Some(l) && l@ == tracking_line(e@),
                _ => step.log is None,
            }
        },
        Commit2Stage::Finished => false,
    }
}

fn copy_call_error(ce: &CallError) -> (c: CallError)
    ensures
        same_call_error(Some(c), Some(*ce)),
{
    CallError { code: ce.code, message: ce.message.clone(), sub: ce.sub.clone() }
}

fn copy_opt_call_error(ce: &Option<CallError>) -> (c: Option<CallError>)
    ensures
        same_call_error(c, *ce),
{
    match ce {
        Some(e) => Some(copy_call_error(e)),
        None => None,
    }
}

fn retry_message(e: &str) -> (l: String)
    ensures
        l@ == retry_line(e@),
{
    let mut l = String::from_str("return error, will retry in 5s: ");
    l.append("SealCommit2");
    l.append(": ");
    l.append(e);
    proof {
        assert(l@ =~= retry_line(e@));
    }
    l
}

fn tracking_message(e: &str) -> (l: String)
    ensures
        l@ == tracking_line(e@),
{
    let mut l = String::from_str("tracking call (done): ");
    l.append(e);
    l
}

/// The first stage of a commit2 call: decoding its input.
pub fn commit2_start() -> (stage: Commit2Stage)
    ensures
        stage is Decoding,
{
    Commit2Stage::Decoding
}

/// One step of a commit2 call on `sector`: from its stage and what happened, the next stage,
/// what to log, and what to do.
pub fn commit2_step(sector: SectorId, stage: Commit2Stage, event: Commit2Event) -> (step: Commit2Step)
    requires
        commit2_event_fits(stage, event),
    ensures
        is_commit2_step(sector, stage, event, step),
{
    match stage {
        Commit2Stage::Decoding => match event {
            Commit2Event::Decoded(Some(e)) => {
                let ce = CallError::new(ErrorCode::ErrUnknown, Some(e));
                let op = Commit2Op::ReturnEmpty(Some(copy_call_error(&ce)));
                Commit2Step { stage: Commit2Stage::ReturningDecodeError(ce), log: None, op }
            },
            _ => Commit2Step {
                stage: Commit2Stage::Proving,
                log: None,
                op: Commit2Op::Prove { prover_id: prover_id(sector.miner), sector_number: sector.number },
            },
        },
        Commit2Stage::ReturningDecodeError(ce) => match event {
            Commit2Event::Returned(None) => Commit2Step { stage: Commit2Stage::Finished, log: None, op: Commit2Op::Stop },
            Commit2Event::Returned(Some(e)) => Commit2Step {
                stage: Commit2Stage::ReturningDecodeError(ce),
                log: Some(retry_message(e.as_str())),
                op: Commit2Op::Sleep { millis: 5000 },
            },
            _ => {
                let op = Commit2Op::ReturnEmpty(Some(copy_call_error(&ce)));
                Commit2Step { stage: Commit2Stage::ReturningDecodeError(ce), log: None, op }
            },
        },
        Commit2Stage::Proving => Commit2Step { stage: Commit2Stage::RecordingDone, log: None, op: Commit2Op::RecordDone },
        Commit2Stage::RecordingDone => {
            let log = match event {
                Commit2Event::Recorded(Some(e)) => Some(tracking_message(e.as_str())),
                _ => None,
            };
            Commit2Step { stage: Commit2Stage::ReturningProof, log, op: Commit2Op::ReturnProof }
        },
        Commit2Stage::ReturningProof => match event {
            Commit2Event::Returned(Some(e)) => {
                let ce = CallError::new(ErrorCode::ErrUnknown, Some(e));
                let op = Commit2Op::ReturnEmpty(Some(copy_call_error(&ce)));
                Commit2Step { stage: Commit2Stage::ReturningOutcome(Some(ce)), log: None, op }
            },
            _ => Commit2Step { stage: Commit2Stage::ReturningOutcome(None), log: None, op: Commit2Op::ReturnEmpty(None) },
        },
        Commit2Stage::ReturningOutcome(ce) => match event {
            Commit2Event::Returned(None) => Commit2Step {
                stage: Commit2Stage::MarkingReturned,
                log: None,
                op: Commit2Op::MarkReturned,
            },
            Commit2Event::Returned(Some(e)) => Commit2Step {
                stage: Commit2Stage::ReturningOutcome(ce),
                log: Some(retry_message(e.as_str())),
                op: Commit2Op::Sleep { millis: 5000 },
            },
            _ => {
                let op = Commit2Op::ReturnEmpty(copy_opt_call_error(&ce));
                Commit2Step { stage: Commit2Stage::ReturningOutcome(ce), log: None, op }
            },
        },
        Commit2Stage::MarkingReturned => {
            let log = match event {
                Commit2Event::Marked(Some(e)) => Some(tracking_message(e.as_str())),
                _ => None,
            };
            Commit2Step { stage: Commit2Stage::Finished, log, op: Commit2Op::Stop }
        },
        Commit2Stage::Finished => Commit2Step { stage: Commit2Stage::Finished, log: None, op: Commit2Op::Stop },
    }
}

/// A worker that runs calls locally, tracks them, and returns their results to the manager.
pub struct LocalWorker<T: Datastore, R: WorkerReturn> {
    pub ct: WorkerCallTracker<T>,
    pub ret: R,
}

impl<T: Datastore, R: WorkerReturn> LocalWorker<T, R> {
    pub fn new(statestore: StateStore<T>, ret: R) -> (w: Self)
        ensures
            w.ct.st == statestore,
            w.ret == ret,
    {
        LocalWorker { ct: WorkerCallTracker::new(statestore), ret }
    }

    /// Starts a commit2 call on `sector`: a new call id, and the call's first stage.
    pub fn seal_commit2(&self, sector: SectorRef) -> (r: (CallID, Commit2Stage))
        ensures
            r.0.sector == sector.id,
            (r.0.id >> 76u128) & 0xfu128 == 4,
            (r.0.id >> 62u128) & 0x3u128 == 2,
            r.1 is Decoding,
    {
        (CallID::new_random(sector.id), commit2_start())
    }
}

} // verus!

verus! {

/// A commit2 call whose input does not decode is never proved: it only returns the decoding error
/// until the manager takes it, then finishes.
pub proof fn law_commit2_undecodable_never_proved(sector: SectorId, stage: Commit2Stage, event: Commit2Event, step: Commit2Step)
    requires
        commit2_event_fits(stage, event),
        is_commit2_step(sector, stage, event, step),
        stage is ReturningDecodeError || (stage is Decoding && event matches Commit2Event::Decoded(Some(_))),
    ensures
        !(step.op is Prove),
        step.stage is ReturningDecodeError || step.stage is Finished,
{
}

/// A commit2 call is recorded as returned only once the manager took the outcome, and it finishes
/// only after that record, or after the manager took the decoding error.
pub proof fn law_commit2_returned_before_marked(sector: SectorId, stage: Commit2Stage, event: Commit2Event, step: Commit2Step)
    requires
        commit2_event_fits(stage, event),
        is_commit2_step(sector, stage, event, step),
    ensures
        step.op is MarkReturned ==> stage is ReturningOutcome && event matches Commit2Event::Returned(None),
        step.stage is Finished ==> stage is MarkingReturned
            || (stage is ReturningDecodeError && event matches Commit2Event::Returned(None)),
        step.op is ReturnProof ==> stage is RecordingDone,
{
}

/// Retrying keeps what is returned: after a wait, the same error (or none) is returned again,
/// with an empty proof.
pub proof fn law_commit2_retry_returns_same(sector: SectorId, stage: Commit2Stage, step: Commit2Step)
    requires
        stage is ReturningOutcome || stage is ReturningDecodeError,
        is_commit2_step(sector, stage, Commit2Event::Slept, step),
    ensures
        stage matches Commit2Stage::ReturningOutcome(ce) ==> step.op matches Commit2Op::ReturnEmpty(err) && same_call_error(err, ce),
        stage matches Commit2Stage::ReturningDecodeError(ce) ==> step.op matches Commit2Op::ReturnEmpty(err) && same_call_error(err, Some(ce)),
{
}

/// The stage a run of steps started in `start` is in before its `k`-th step.
pub open spec fn commit2_stage_before(start: Commit2Stage, steps: Seq<Commit2Step>, k: int) -> Commit2Stage {
    if k == 0 { start } else { steps[k - 1].stage }
}

/// `steps` is a run of a commit2 call on `sector` from `start`: each step answers the event that
/// happened in the stage the previous step left.
pub open spec fn is_commit2_run(sector: SectorId, start: Commit2Stage, events: Seq<Commit2Event>, steps: Seq<Commit2Step>) -> bool {
    &&& events.len() == steps.len()
    &&& forall|k: int| 0 <= k < steps.len() ==> is_commit2_step(sector, commit2_stage_before(start, steps, k), #[trigger] events[k], steps[k])
}

/// Once the proof is computed and the call recorded as done, the proof is returned to the
/// manager next, whether the tracker recorded the call or failed to.
pub proof fn law_commit2_recorded_proof_is_returned(sector: SectorId, recorded: Option<String>, step: Commit2Step)
    requires
        is_commit2_step(sector, Commit2Stage::RecordingDone, Commit2Event::Recorded(recorded), step),
    ensures
        step.op is ReturnProof,
        step.stage is ReturningProof,
{
}

/// Every run that starts proving and finishes returns the proof on the way: one of its steps
/// asks to return the proof.
pub proof fn law_commit2_proved_run_returns_proof(sector: SectorId, events: Seq<Commit2Event>, steps: Seq<Commit2Step>)
    requires
        is_commit2_run(sector, Commit2Stage::Proving, events, steps),
        steps.len() > 0,
        steps.last().stage is Finished,
    ensures
        exists|k: int| 0 <= k < steps.len() && (#[trigger] steps[k]).op is ReturnProof,
{
    assert(is_commit2_step(sector, commit2_stage_before(Commit2Stage::Proving, steps, 0), events[0], steps[0]));
    assert(steps[0].stage is RecordingDone);
    assert(steps.len() > 1);
    assert(is_commit2_step(sector, commit2_stage_before(Commit2Stage::Proving, steps, 1), events[1], steps[1]));
    assert(steps[1].op is ReturnProof);
}

} // verus!
