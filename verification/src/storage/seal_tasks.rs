//! Kinds of sealing tasks a worker can take.

use vstd::prelude::*;

verus! {

/// A kind of sealing task.
#[derive(Debug, Clone, Copy, PartialEq, Eq, Hash, Structural)]
pub enum TaskType {
    TTIDLE,
    TTDataCid,
    TTAddPiece,
    TTPreCommit1,
    TTPreCommit2,
    TTCommit1,
    TTCommit2,
    TTFinalize,
    TTFinalizeUnsealed,
    TTFetch,
    TTUnseal,
    TTReplicaUpdate,
    TTProveReplicaUpdate1,
    TTProveReplicaUpdate2,
    TTRegenSectorKey,
    TTFinalizeReplicaUpdate,
    TTDownloadSector,
    TTGenerateWindowPoSt,
    TTGenerateWinningPoSt,
    TTNoop,
}

/// The name under which a task type is known to the sealing manager.
pub open spec fn task_type_name(t: TaskType) -> Seq<char> {
    match t {
        TaskType::TTIDLE => "seal/v0/idle"@,
        TaskType::TTDataCid => "seal/v0/datacid"@,
        TaskType::TTAddPiece => "seal/v0/addpiece"@,
        TaskType::TTPreCommit1 => "seal/v0/precommit/1"@,
        TaskType::TTPreCommit2 => "seal/v0/precommit/2"@,
        TaskType::TTCommit1 => "seal/v0/commit/1"@,
        TaskType::TTCommit2 => "seal/v0/commit/2"@,
        TaskType::TTFinalize => "seal/v0/finalize"@,
        TaskType::TTFinalizeUnsealed => "seal/v0/finalizeunsealed"@,
        TaskType::TTFetch => "seal/v0/fetch"@,
        TaskType::TTUnseal => "seal/v0/unseal"@,
        TaskType::TTReplicaUpdate => "seal/v0/replicaupdate"@,
        TaskType::TTProveReplicaUpdate1 => "seal/v0/provereplicaupdate/1"@,
        TaskType::TTProveReplicaUpdate2 => "seal/v0/provereplicaupdate/2"@,
        TaskType::TTRegenSectorKey => "seal/v0/regensectorkey"@,
        TaskType::TTFinalizeReplicaUpdate => "seal/v0/finalize/replicaupdate"@,
        TaskType::TTDownloadSector => "seal/v0/download/sector"@,
        TaskType::TTGenerateWindowPoSt => "post/v0/windowproof"@,
        TaskType::TTGenerateWinningPoSt => "post/v0/winningproof"@,
        TaskType::TTNoop => ""@,
    }
}

impl Default for TaskType {
    /// The default task type, `TTNoop`.
    fn default() -> (t: TaskType)
        ensures
            t == TaskType::TTNoop,
    {
        TaskType::TTNoop
    }
}

impl TaskType {
    /// The name under which the task type is known to the sealing manager.
    pub fn to_string(&self) -> (s: String)
        ensures
            s@ == task_type_name(*self),
    {
        match self {
            TaskType::TTIDLE => String::from_str("seal/v0/idle"),
            TaskType::TTDataCid => String::from_str("seal/v0/datacid"),
            TaskType::TTAddPiece => String::from_str("seal/v0/addpiece"),
            TaskType::TTPreCommit1 => String::from_str("seal/v0/precommit/1"),
            TaskType::TTPreCommit2 => String::from_str("seal/v0/precommit/2"),
            TaskType::TTCommit1 => String::from_str("seal/v0/commit/1"),
            TaskType::TTCommit2 => String::from_str("seal/v0/commit/2"),
            TaskType::TTFinalize => String::from_str("seal/v0/finalize"),
            TaskType::TTFinalizeUnsealed => String::from_str("seal/v0/finalizeunsealed"),
            TaskType::TTFetch => String::from_str("seal/v0/fetch"),
            TaskType::TTUnseal => String::from_str("seal/v0/unseal"),
            TaskType::TTReplicaUpdate => String::from_str("seal/v0/replicaupdate"),
            TaskType::TTProveReplicaUpdate1 => String::from_str("seal/v0/provereplicaupdate/1"),
            TaskType::TTProveReplicaUpdate2 => String::from_str("seal/v0/provereplicaupdate/2"),
            TaskType::TTRegenSectorKey => String::from_str("seal/v0/regensectorkey"),
            TaskType::TTFinalizeReplicaUpdate => String::from_str("seal/v0/finalize/replicaupdate"),
            TaskType::TTDownloadSector => String::from_str("seal/v0/download/sector"),
            TaskType::TTGenerateWindowPoSt => String::from_str("post/v0/windowproof"),
            TaskType::TTGenerateWinningPoSt => String::from_str("post/v0/winningproof"),
            TaskType::TTNoop => String::from_str(""),
        }
    }
}

} // verus!

verus! {

/// The task type known by a name, if any.
pub open spec fn task_type_named(s: Seq<char>) -> Option<TaskType> {
    if s == "seal/v0/idle"@ {
        Some(TaskType::TTIDLE)
    } else if s == "seal/v0/datacid"@ {
        Some(TaskType::TTDataCid)
    } else if s == "seal/v0/addpiece"@ {
        Some(TaskType::TTAddPiece)
    } else if s == "seal/v0/precommit/1"@ {
        Some(TaskType::TTPreCommit1)
    } else if s == "seal/v0/precommit/2"@ {
        Some(TaskType::TTPreCommit2)
    } else if s == "seal/v0/commit/1"@ {
        Some(TaskType::TTCommit1)
    } else if s == "seal/v0/commit/2"@ {
        Some(TaskType::TTCommit2)
    } else if s == "seal/v0/finalize"@ {
        Some(TaskType::TTFinalize)
    } else if s == "seal/v0/finalizeunsealed"@ {
        Some(TaskType::TTFinalizeUnsealed)
    } else if s == "seal/v0/fetch"@ {
        Some(TaskType::TTFetch)
    } else if s == "seal/v0/unseal"@ {
        Some(TaskType::TTUnseal)
    } else if s == "seal/v0/replicaupdate"@ {
        Some(TaskType::TTReplicaUpdate)
    } else if s == "seal/v0/provereplicaupdate/1"@ {
        Some(TaskType::TTProveReplicaUpdate1)
    } else if s == "seal/v0/provereplicaupdate/2"@ {
        Some(TaskType::TTProveReplicaUpdate2)
    } else if s == "seal/v0/regensectorkey"@ {
        Some(TaskType::TTRegenSectorKey)
    } else if s == "seal/v0/finalize/replicaupdate"@ {
        Some(TaskType::TTFinalizeReplicaUpdate)
    } else if s == "seal/v0/download/sector"@ {
        Some(TaskType::TTDownloadSector)
    } else if s == "post/v0/windowproof"@ {
        Some(TaskType::TTGenerateWindowPoSt)
    } else if s == "post/v0/winningproof"@ {
        Some(TaskType::TTGenerateWinningPoSt)
    } else if s == ""@ {
        Some(TaskType::TTNoop)
    } else {
        None
    }
}

/// Reading the name of `t` back gives `t`.
pub open spec fn name_reads_back(t: TaskType) -> bool {
    task_type_named(task_type_name(t)) == Some(t)
}

/// Reading a task type's name back gives that type.
proof fn lemma_task_type_named(t: TaskType)
    ensures
        name_reads_back(t),
{
    reveal_strlit("seal/v0/idle");
    reveal_strlit("seal/v0/datacid");
    reveal_strlit("seal/v0/addpiece");
    reveal_strlit("seal/v0/precommit/1");
    reveal_strlit("seal/v0/precommit/2");
    reveal_strlit("seal/v0/commit/1");
    reveal_strlit("seal/v0/commit/2");
    reveal_strlit("seal/v0/finalize");
    reveal_strlit("seal/v0/finalizeunsealed");
    reveal_strlit("seal/v0/fetch");
    reveal_strlit("seal/v0/unseal");
    reveal_strlit("seal/v0/replicaupdate");
    reveal_strlit("seal/v0/provereplicaupdate/1");
    reveal_strlit("seal/v0/provereplicaupdate/2");
    reveal_strlit("seal/v0/regensectorkey");
    reveal_strlit("seal/v0/finalize/replicaupdate");
    reveal_strlit("seal/v0/download/sector");
    reveal_strlit("post/v0/windowproof");
    reveal_strlit("post/v0/winningproof");
    reveal_strlit("");
    // Each name differs from every name tested before it, in length or at one position.
    match t {
        TaskType::TTIDLE => {
            assert(task_type_name(t) == "seal/v0/idle"@);
            assert(name_reads_back(t));
        },
        TaskType::TTDataCid => {
            assert(task_type_name(t) == "seal/v0/datacid"@);
            assert(task_type_name(t).len() != "seal/v0/idle"@.len());
            assert(name_reads_back(t));
        },
        TaskType::TTAddPiece => {
            assert(task_type_name(t) == "seal/v0/addpiece"@);
            assert(task_type_name(t).len() != "seal/v0/idle"@.len());
            assert(task_type_name(t).len() != "seal/v0/datacid"@.len());
            assert(name_reads_back(t));
        },
        TaskType::TTPreCommit1 => {
            assert(task_type_name(t) == "seal/v0/precommit/1"@);
            assert(task_type_name(t).len() != "seal/v0/idle"@.len());
            assert(task_type_name(t).len() != "seal/v0/datacid"@.len());
            assert(task_type_name(t).len() != "seal/v0/addpiece"@.len());
            assert(name_reads_back(t));
        },
        TaskType::TTPreCommit2 => {
            assert(task_type_name(t) == "seal/v0/precommit/2"@);
            assert(task_type_name(t).len() != "seal/v0/idle"@.len());
            assert(task_type_name(t).len() != "seal/v0/datacid"@.len());
            assert(task_type_name(t).len() != "seal/v0/addpiece"@.len());
            assert(task_type_name(t)[18] != "seal/v0/precommit/1"@[18]);
            assert(name_reads_back(t));
        },
        TaskType::TTCommit1 => {
            assert(task_type_name(t) == "seal/v0/commit/1"@);
            assert(task_type_name(t).len() != "seal/v0/idle"@.len());
            assert(task_type_name(t).len() != "seal/v0/datacid"@.len());
            assert(task_type_name(t)[8] != "seal/v0/addpiece"@[8]);
            assert(task_type_name(t).len() != "seal/v0/precommit/1"@.len());
            assert(task_type_name(t).len() != "seal/v0/precommit/2"@.len());
            assert(name_reads_back(t));
        },
        TaskType::TTCommit2 => {
            assert(task_type_name(t) == "seal/v0/commit/2"@);
            assert(task_type_name(t).len() != "seal/v0/idle"@.len());
            assert(task_type_name(t).len() != "seal/v0/datacid"@.len());
            assert(task_type_name(t)[8] != "seal/v0/addpiece"@[8]);
            assert(task_type_name(t).len() != "seal/v0/precommit/1"@.len());
            assert(task_type_name(t).len() != "seal/v0/precommit/2"@.len());
            assert(task_type_name(t)[15] != "seal/v0/commit/1"@[15]);
            assert(name_reads_back(t));
        },
        TaskType::TTFinalize => {
            assert(task_type_name(t) == "seal/v0/finalize"@);
            assert(task_type_name(t).len() != "seal/v0/idle"@.len());
            assert(task_type_name(t).len() != "seal/v0/datacid"@.len());
            assert(task_type_name(t)[8] != "seal/v0/addpiece"@[8]);
            assert(task_type_name(t).len() != "seal/v0/precommit/1"@.len());
            assert(task_type_name(t).len() != "seal/v0/precommit/2"@.len());
            assert(task_type_name(t)[8] != "seal/v0/commit/1"@[8]);
            assert(task_type_name(t)[8] != "seal/v0/commit/2"@[8]);
            assert(name_reads_back(t));
        },
        TaskType::TTFinalizeUnsealed => {
            assert(task_type_name(t) == "seal/v0/finalizeunsealed"@);
            assert(task_type_name(t).len() != "seal/v0/idle"@.len());
            assert(task_type_name(t).len() != "seal/v0/datacid"@.len());
            assert(task_type_name(t).len() != "seal/v0/addpiece"@.len());
            assert(task_type_name(t).len() != "seal/v0/precommit/1"@.len());
            assert(task_type_name(t).len() != "seal/v0/precommit/2"@.len());
            assert(task_type_name(t).len() != "seal/v0/commit/1"@.len());
            assert(task_type_name(t).len() != "seal/v0/commit/2"@.len());
            assert(task_type_name(t).len() != "seal/v0/finalize"@.len());
            assert(name_reads_back(t));
        },
        TaskType::TTFetch => {
            assert(task_type_name(t) == "seal/v0/fetch"@);
            assert(task_type_name(t).len() != "seal/v0/idle"@.len());
            assert(task_type_name(t).len() != "seal/v0/datacid"@.len());
            assert(task_type_name(t).len() != "seal/v0/addpiece"@.len());
            assert(task_type_name(t).len() != "seal/v0/precommit/1"@.len());
            assert(task_type_name(t).len() != "seal/v0/precommit/2"@.len());
            assert(task_type_name(t).len() != "seal/v0/commit/1"@.len());
            assert(task_type_name(t).len() != "seal/v0/commit/2"@.len());
            assert(task_type_name(t).len() != "seal/v0/finalize"@.len());
            assert(task_type_name(t).len() != "seal/v0/finalizeunsealed"@.len());
            assert(name_reads_back(t));
        },
        TaskType::TTUnseal => {
            assert(task_type_name(t) == "seal/v0/unseal"@);
            assert(task_type_name(t).len() != "seal/v0/idle"@.len());
            assert(task_type_name(t).len() != "seal/v0/datacid"@.len());
            assert(task_type_name(t).len() != "seal/v0/addpiece"@.len());
            assert(task_type_name(t).len() != "seal/v0/precommit/1"@.len());
            assert(task_type_name(t).len() != "seal/v0/precommit/2"@.len());
            assert(task_type_name(t).len() != "seal/v0/commit/1"@.len());
            assert(task_type_name(t).len() != "seal/v0/commit/2"@.len());
            assert(task_type_name(t).len() != "seal/v0/finalize"@.len());
            assert(task_type_name(t).len() != "seal/v0/finalizeunsealed"@.len());
            assert(task_type_name(t).len() != "seal/v0/fetch"@.len());
            assert(name_reads_back(t));
        },
        TaskType::TTReplicaUpdate => {
            assert(task_type_name(t) == "seal/v0/replicaupdate"@);
            assert(task_type_name(t).len() != "seal/v0/idle"@.len());
            assert(task_type_name(t).len() != "seal/v0/datacid"@.len());
            assert(task_type_name(t).len() != "seal/v0/addpiece"@.len());
            assert(task_type_name(t).len() != "seal/v0/precommit/1"@.len());
            assert(task_type_name(t).len() != "seal/v0/precommit/2"@.len());
            assert(task_type_name(t).len() != "seal/v0/commit/1"@.len());
            assert(task_type_name(t).len() != "seal/v0/commit/2"@.len());
            assert(task_type_name(t).len() != "seal/v0/finalize"@.len());
            assert(task_type_name(t).len() != "seal/v0/finalizeunsealed"@.len());
            assert(task_type_name(t).len() != "seal/v0/fetch"@.len());
            assert(task_type_name(t).len() != "seal/v0/unseal"@.len());
            assert(name_reads_back(t));
        },
        TaskType::TTProveReplicaUpdate1 => {
            assert(task_type_name(t) == "seal/v0/provereplicaupdate/1"@);
            assert(task_type_name(t).len() != "seal/v0/idle"@.len());
            assert(task_type_name(t).len() != "seal/v0/datacid"@.len());
            assert(task_type_name(t).len() != "seal/v0/addpiece"@.len());
            assert(task_type_name(t).len() != "seal/v0/precommit/1"@.len());
            assert(task_type_name(t).len() != "seal/v0/precommit/2"@.len());
            assert(task_type_name(t).len() != "seal/v0/commit/1"@.len());
            assert(task_type_name(t).len() != "seal/v0/commit/2"@.len());
            assert(task_type_name(t).len() != "seal/v0/finalize"@.len());
            assert(task_type_name(t).len() != "seal/v0/finalizeunsealed"@.len());
            assert(task_type_name(t).len() != "seal/v0/fetch"@.len());
            assert(task_type_name(t).len() != "seal/v0/unseal"@.len());
            assert(task_type_name(t).len() != "seal/v0/replicaupdate"@.len());
            assert(name_reads_back(t));
        },
        TaskType::TTProveReplicaUpdate2 => {
            assert(task_type_name(t) == "seal/v0/provereplicaupdate/2"@);
            assert(task_type_name(t).len() != "seal/v0/idle"@.len());
            assert(task_type_name(t).len() != "seal/v0/datacid"@.len());
            assert(task_type_name(t).len() != "seal/v0/addpiece"@.len());
            assert(task_type_name(t).len() != "seal/v0/precommit/1"@.len());
            assert(task_type_name(t).len() != "seal/v0/precommit/2"@.len());
            assert(task_type_name(t).len() != "seal/v0/commit/1"@.len());
            assert(task_type_name(t).len() != "seal/v0/commit/2"@.len());
            assert(task_type_name(t).len() != "seal/v0/finalize"@.len());
            assert(task_type_name(t).len() != "seal/v0/finalizeunsealed"@.len());
            assert(task_type_name(t).len() != "seal/v0/fetch"@.len());
            assert(task_type_name(t).len() != "seal/v0/unseal"@.len());
            assert(task_type_name(t).len() != "seal/v0/replicaupdate"@.len());
            assert(task_type_name(t)[27] != "seal/v0/provereplicaupdate/1"@[27]);
            assert(name_reads_back(t));
        },
        TaskType::TTRegenSectorKey => {
            assert(task_type_name(t) == "seal/v0/regensectorkey"@);
            assert(task_type_name(t).len() != "seal/v0/idle"@.len());
            assert(task_type_name(t).len() != "seal/v0/datacid"@.len());
            assert(task_type_name(t).len() != "seal/v0/addpiece"@.len());
            assert(task_type_name(t).len() != "seal/v0/precommit/1"@.len());
            assert(task_type_name(t).len() != "seal/v0/precommit/2"@.len());
            assert(task_type_name(t).len() != "seal/v0/commit/1"@.len());
            assert(task_type_name(t).len() != "seal/v0/commit/2"@.len());
            assert(task_type_name(t).len() != "seal/v0/finalize"@.len());
            assert(task_type_name(t).len() != "seal/v0/finalizeunsealed"@.len());
            assert(task_type_name(t).len() != "seal/v0/fetch"@.len());
            assert(task_type_name(t).len() != "seal/v0/unseal"@.len());
            assert(task_type_name(t).len() != "seal/v0/replicaupdate"@.len());
            assert(task_type_name(t).len() != "seal/v0/provereplicaupdate/1"@.len());
            assert(task_type_name(t).len() != "seal/v0/provereplicaupdate/2"@.len());
            assert(name_reads_back(t));
        },
        TaskType::TTFinalizeReplicaUpdate => {
            assert(task_type_name(t) == "seal/v0/finalize/replicaupdate"@);
            assert(task_type_name(t).len() != "seal/v0/idle"@.len());
            assert(task_type_name(t).len() != "seal/v0/datacid"@.len());
            assert(task_type_name(t).len() != "seal/v0/addpiece"@.len());
            assert(task_type_name(t).len() != "seal/v0/precommit/1"@.len());
            assert(task_type_name(t).len() != "seal/v0/precommit/2"@.len());
            assert(task_type_name(t).len() != "seal/v0/commit/1"@.len());
            assert(task_type_name(t).len() != "seal/v0/commit/2"@.len());
            assert(task_type_name(t).len() != "seal/v0/finalize"@.len());
            assert(task_type_name(t).len() != "seal/v0/finalizeunsealed"@.len());
            assert(task_type_name(t).len() != "seal/v0/fetch"@.len());
            assert(task_type_name(t).len() != "seal/v0/unseal"@.len());
            assert(task_type_name(t).len() != "seal/v0/replicaupdate"@.len());
            assert(task_type_name(t).len() != "seal/v0/provereplicaupdate/1"@.len());
            assert(task_type_name(t).len() != "seal/v0/provereplicaupdate/2"@.len());
            assert(task_type_name(t).len() != "seal/v0/regensectorkey"@.len());
            assert(name_reads_back(t));
        },
        TaskType::TTDownloadSector => {
            assert(task_type_name(t) == "seal/v0/download/sector"@);
            assert(task_type_name(t).len() != "seal/v0/idle"@.len());
            assert(task_type_name(t).len() != "seal/v0/datacid"@.len());
            assert(task_type_name(t).len() != "seal/v0/addpiece"@.len());
            assert(task_type_name(t).len() != "seal/v0/precommit/1"@.len());
            assert(task_type_name(t).len() != "seal/v0/precommit/2"@.len());
            assert(task_type_name(t).len() != "seal/v0/commit/1"@.len());
            assert(task_type_name(t).len() != "seal/v0/commit/2"@.len());
            assert(task_type_name(t).len() != "seal/v0/finalize"@.len());
            assert(task_type_name(t).len() != "seal/v0/finalizeunsealed"@.len());
            assert(task_type_name(t).len() != "seal/v0/fetch"@.len());
            assert(task_type_name(t).len() != "seal/v0/unseal"@.len());
            assert(task_type_name(t).len() != "seal/v0/replicaupdate"@.len());
            assert(task_type_name(t).len() != "seal/v0/provereplicaupdate/1"@.len());
            assert(task_type_name(t).len() != "seal/v0/provereplicaupdate/2"@.len());
            assert(task_type_name(t).len() != "seal/v0/regensectorkey"@.len());
            assert(task_type_name(t).len() != "seal/v0/finalize/replicaupdate"@.len());
            assert(name_reads_back(t));
        },
        TaskType::TTGenerateWindowPoSt => {
            assert(task_type_name(t) == "post/v0/windowproof"@);
            assert(task_type_name(t).len() != "seal/v0/idle"@.len());
            assert(task_type_name(t).len() != "seal/v0/datacid"@.len());
            assert(task_type_name(t).len() != "seal/v0/addpiece"@.len());
            assert(task_type_name(t)[0] != "seal/v0/precommit/1"@[0]);
            assert(task_type_name(t)[0] != "seal/v0/precommit/2"@[0]);
            assert(task_type_name(t).len() != "seal/v0/commit/1"@.len());
            assert(task_type_name(t).len() != "seal/v0/commit/2"@.len());
            assert(task_type_name(t).len() != "seal/v0/finalize"@.len());
            assert(task_type_name(t).len() != "seal/v0/finalizeunsealed"@.len());
            assert(task_type_name(t).len() != "seal/v0/fetch"@.len());
            assert(task_type_name(t).len() != "seal/v0/unseal"@.len());
            assert(task_type_name(t).len() != "seal/v0/replicaupdate"@.len());
            assert(task_type_name(t).len() != "seal/v0/provereplicaupdate/1"@.len());
            assert(task_type_name(t).len() != "seal/v0/provereplicaupdate/2"@.len());
            assert(task_type_name(t).len() != "seal/v0/regensectorkey"@.len());
            assert(task_type_name(t).len() != "seal/v0/finalize/replicaupdate"@.len());
            assert(task_type_name(t).len() != "seal/v0/download/sector"@.len());
            assert(name_reads_back(t));
        },
        TaskType::TTGenerateWinningPoSt => {
            assert(task_type_name(t) == "post/v0/winningproof"@);
            assert(task_type_name(t).len() != "seal/v0/idle"@.len());
            assert(task_type_name(t).len() != "seal/v0/datacid"@.len());
            assert(task_type_name(t).len() != "seal/v0/addpiece"@.len());
            assert(task_type_name(t).len() != "seal/v0/precommit/1"@.len());
            assert(task_type_name(t).len() != "seal/v0/precommit/2"@.len());
            assert(task_type_name(t).len() != "seal/v0/commit/1"@.len());
            assert(task_type_name(t).len() != "seal/v0/commit/2"@.len());
            assert(task_type_name(t).len() != "seal/v0/finalize"@.len());
            assert(task_type_name(t).len() != "seal/v0/finalizeunsealed"@.len());
            assert(task_type_name(t).len() != "seal/v0/fetch"@.len());
            assert(task_type_name(t).len() != "seal/v0/unseal"@.len());
            assert(task_type_name(t).len() != "seal/v0/replicaupdate"@.len());
            assert(task_type_name(t).len() != "seal/v0/provereplicaupdate/1"@.len());
            assert(task_type_name(t).len() != "seal/v0/provereplicaupdate/2"@.len());
            assert(task_type_name(t).len() != "seal/v0/regensectorkey"@.len());
            assert(task_type_name(t).len() != "seal/v0/finalize/replicaupdate"@.len());
            assert(task_type_name(t).len() != "seal/v0/download/sector"@.len());
            assert(task_type_name(t).len() != "post/v0/windowproof"@.len());
            assert(name_reads_back(t));
        },
        TaskType::TTNoop => {
            assert(task_type_name(t) == ""@);
            assert(task_type_name(t).len() != "seal/v0/idle"@.len());
            assert(task_type_name(t).len() != "seal/v0/datacid"@.len());
            assert(task_type_name(t).len() != "seal/v0/addpiece"@.len());
            assert(task_type_name(t).len() != "seal/v0/precommit/1"@.len());
            assert(task_type_name(t).len() != "seal/v0/precommit/2"@.len());
            assert(task_type_name(t).len() != "seal/v0/commit/1"@.len());
            assert(task_type_name(t).len() != "seal/v0/commit/2"@.len());
            assert(task_type_name(t).len() != "seal/v0/finalize"@.len());
            assert(task_type_name(t).len() != "seal/v0/finalizeunsealed"@.len());
            assert(task_type_name(t).len() != "seal/v0/fetch"@.len());
            assert(task_type_name(t).len() != "seal/v0/unseal"@.len());
            assert(task_type_name(t).len() != "seal/v0/replicaupdate"@.len());
            assert(task_type_name(t).len() != "seal/v0/provereplicaupdate/1"@.len());
            assert(task_type_name(t).len() != "seal/v0/provereplicaupdate/2"@.len());
            assert(task_type_name(t).len() != "seal/v0/regensectorkey"@.len());
            assert(task_type_name(t).len() != "seal/v0/finalize/replicaupdate"@.len());
            assert(task_type_name(t).len() != "seal/v0/download/sector"@.len());
            assert(task_type_name(t).len() != "post/v0/windowproof"@.len());
            assert(task_type_name(t).len() != "post/v0/winningproof"@.len());
            assert(name_reads_back(t));
        },
    }
}

/// The names of the task types tell them apart: reading a type's name back gives that type, so
/// no two types share a name. Only `TTNoop` has the empty name; every other name starts with
/// `seal/v0/` or `post/v0/`.
pub proof fn law_task_type_names_distinct(a: TaskType, b: TaskType)
    ensures
        name_reads_back(a),
        task_type_name(a) == task_type_name(b) ==> a == b,
        task_type_name(a).len() == 0 <==> a == TaskType::TTNoop,
        a != TaskType::TTNoop ==> "seal/v0/"@.is_prefix_of(task_type_name(a)) || "post/v0/"@.is_prefix_of(task_type_name(a)),
{
    reveal_strlit("seal/v0/idle");
    reveal_strlit("seal/v0/datacid");
    reveal_strlit("seal/v0/addpiece");
    reveal_strlit("seal/v0/precommit/1");
    reveal_strlit("seal/v0/precommit/2");
    reveal_strlit("seal/v0/commit/1");
    reveal_strlit("seal/v0/commit/2");
    reveal_strlit("seal/v0/finalize");
    reveal_strlit("seal/v0/finalizeunsealed");
    reveal_strlit("seal/v0/fetch");
    reveal_strlit("seal/v0/unseal");
    reveal_strlit("seal/v0/replicaupdate");
    reveal_strlit("seal/v0/provereplicaupdate/1");
    reveal_strlit("seal/v0/provereplicaupdate/2");
    reveal_strlit("seal/v0/regensectorkey");
    reveal_strlit("seal/v0/finalize/replicaupdate");
    reveal_strlit("seal/v0/download/sector");
    reveal_strlit("post/v0/windowproof");
    reveal_strlit("post/v0/winningproof");
    reveal_strlit("");
    reveal_strlit("seal/v0/");
    reveal_strlit("post/v0/");
    lemma_task_type_named(a);
    lemma_task_type_named(b);
}

} // verus!
