use commit2_worker::storage::datastore::MemDatastore;
use commit2_worker::storage::seal_tasks::TaskType;
use commit2_worker::storage::statestore::StateStore;
use commit2_worker::storage::storiface::{CallError, CallID, ErrorCode, SectorId, SectorRef};
use commit2_worker::storage::worker_local::{
    commit2_start, commit2_step, prover_id, Commit2Event, Commit2Op, Commit2Stage, LocalWorker, ReturnType,
};
use commit2_worker::api::WorkerReturn;

#[test]
fn return_type_names_round_trip() {
    let all = [
        ReturnType::DataCid, ReturnType::AddPiece, ReturnType::SealPreCommit1, ReturnType::SealPreCommit2,
        ReturnType::SealCommit1, ReturnType::SealCommit2, ReturnType::FinalizeSector,
        ReturnType::FinalizeReplicaUpdate, ReturnType::ReplicaUpdate, ReturnType::ProveReplicaUpdate1,
        ReturnType::ProveReplicaUpdate2, ReturnType::GenerateSectorKey, ReturnType::ReleaseUnsealed,
        ReturnType::MoveStorage, ReturnType::UnsealPiece, ReturnType::DownloadSector, ReturnType::Fetch,
    ];
    for r in all {
        assert_eq!(ReturnType::from_str(&r.to_string()), Some(r));
        assert_eq!(r.to_string(), format!("{:?}", r));
    }
    assert_eq!(ReturnType::SealCommit2.to_string(), "SealCommit2");
    assert_eq!(ReturnType::from_str("sealcommit2"), None);
    assert_eq!(ReturnType::from_str(""), None);
}

#[test]
fn task_type_names() {
    assert_eq!(TaskType::TTIDLE.to_string(), "seal/v0/idle");
    assert_eq!(TaskType::TTPreCommit1.to_string(), "seal/v0/precommit/1");
    assert_eq!(TaskType::TTFinalizeReplicaUpdate.to_string(), "seal/v0/finalize/replicaupdate");
    assert_eq!(TaskType::TTGenerateWindowPoSt.to_string(), "post/v0/windowproof");
    assert_eq!(TaskType::TTGenerateWinningPoSt.to_string(), "post/v0/winningproof");
    assert_eq!(TaskType::TTNoop.to_string(), "");
    assert_eq!(TaskType::default(), TaskType::TTNoop);
}

#[test]
fn prover_id_holds_the_id_address_payload() {
    let p = prover_id(1000);
    let mut expected = [0u8; 32];
    expected[..3].copy_from_slice(&[0, 0xe8, 0x07]);
    assert_eq!(p, expected);
    let q = prover_id(5);
    assert_eq!(&q[..2], &[0, 5]);
    assert!(q[2..].iter().all(|b| *b == 0));
    let m = prover_id(u64::MAX);
    assert_eq!(&m[..11], &[0, 0xff, 0xff, 0xff, 0xff, 0xff, 0xff, 0xff, 0xff, 0xff, 0x01]);
}

fn sector() -> SectorId {
    SectorId { miner: 1000, number: 23 }
}

#[test]
fn commit2_happy_path() {
    let s = commit2_start();
    assert!(matches!(s, Commit2Stage::Decoding));
    let step = commit2_step(sector(), s, Commit2Event::Decoded(None));
    match &step.op {
        Commit2Op::Prove { prover_id: p, sector_number } => {
            assert_eq!(*p, prover_id(1000));
            assert_eq!(*sector_number, 23);
        }
        other => panic!("{:?}", other),
    }
    let step = commit2_step(sector(), step.stage, Commit2Event::Proved);
    assert!(matches!(step.op, Commit2Op::RecordDone));
    let step = commit2_step(sector(), step.stage, Commit2Event::Recorded(Some("disk".into())));
    assert_eq!(step.log.as_deref(), Some("tracking call (done): disk"));
    assert!(matches!(step.op, Commit2Op::ReturnProof));
    let step = commit2_step(sector(), step.stage, Commit2Event::Returned(None));
    assert!(matches!(step.op, Commit2Op::ReturnEmpty(None)));
    let step = commit2_step(sector(), step.stage, Commit2Event::Returned(Some("busy".into())));
    assert_eq!(step.log.as_deref(), Some("return error, will retry in 5s: SealCommit2: busy"));
    assert!(matches!(step.op, Commit2Op::Sleep { millis: 5000 }));
    let step = commit2_step(sector(), step.stage, Commit2Event::Slept);
    assert!(matches!(step.op, Commit2Op::ReturnEmpty(None)));
    let step = commit2_step(sector(), step.stage, Commit2Event::Returned(None));
    assert!(matches!(step.op, Commit2Op::MarkReturned));
    let step = commit2_step(sector(), step.stage, Commit2Event::Marked(None));
    assert!(matches!(step.op, Commit2Op::Stop));
    assert!(matches!(step.stage, Commit2Stage::Finished));
}

#[test]
fn commit2_failed_return_is_reported_back() {
    let step = commit2_step(sector(), Commit2Stage::ReturningProof, Commit2Event::Returned(Some("refused".into())));
    match &step.op {
        Commit2Op::ReturnEmpty(Some(e)) => {
            assert_eq!(e.message, "refused");
            assert_eq!(e.code, ErrorCode::ErrUnknown);
        }
        other => panic!("{:?}", other),
    }
    let step = commit2_step(sector(), step.stage, Commit2Event::Slept);
    assert!(matches!(&step.op, Commit2Op::ReturnEmpty(Some(e)) if e.message == "refused"));
}

#[test]
fn commit2_undecodable_input_returns_the_error() {
    let step = commit2_step(sector(), Commit2Stage::Decoding, Commit2Event::Decoded(Some("bad json".into())));
    assert!(matches!(&step.op, Commit2Op::ReturnEmpty(Some(e)) if e.message == "bad json" && e.unwrap() == "bad json"));
    let step = commit2_step(sector(), step.stage, Commit2Event::Returned(Some("down".into())));
    assert!(matches!(step.op, Commit2Op::Sleep { millis: 5000 }));
    let step = commit2_step(sector(), step.stage, Commit2Event::Slept);
    assert!(matches!(&step.op, Commit2Op::ReturnEmpty(Some(e)) if e.message == "bad json"));
    let step = commit2_step(sector(), step.stage, Commit2Event::Returned(None));
    assert!(matches!(step.op, Commit2Op::Stop));
    assert!(matches!(step.stage, Commit2Stage::Finished));
}

#[test]
fn commit2_marking_failure_is_logged() {
    let step = commit2_step(sector(), Commit2Stage::MarkingReturned, Commit2Event::Marked(Some("gone".into())));
    assert_eq!(step.log.as_deref(), Some("tracking call (done): gone"));
    assert!(matches!(step.stage, Commit2Stage::Finished));
}

struct NullReturn;

impl WorkerReturn for NullReturn {
    fn return_seal_commit2(&self, _call_id: CallID, _proof: Vec<u8>, _err: Option<&CallError>) -> Result<(), String> {
        Ok(())
    }
}

#[test]
fn local_worker_starts_commit2_calls() {
    let w = LocalWorker::new(StateStore::new(MemDatastore::new()), NullReturn);
    let (ci, stage) = w.seal_commit2(SectorRef { id: sector(), proof_type: 8 });
    assert_eq!(ci.sector, sector());
    assert_eq!((ci.id >> 76) & 0xf, 4);
    assert!(matches!(stage, Commit2Stage::Decoding));
    assert!(w.ret.return_seal_commit2(ci, vec![], None).is_ok());
}

#[test]
fn task_type_names_are_distinct() {
    let all = [
        TaskType::TTIDLE, TaskType::TTDataCid, TaskType::TTAddPiece, TaskType::TTPreCommit1,
        TaskType::TTPreCommit2, TaskType::TTCommit1, TaskType::TTCommit2, TaskType::TTFinalize,
        TaskType::TTFinalizeUnsealed, TaskType::TTFetch, TaskType::TTUnseal, TaskType::TTReplicaUpdate,
        TaskType::TTProveReplicaUpdate1, TaskType::TTProveReplicaUpdate2, TaskType::TTRegenSectorKey,
        TaskType::TTFinalizeReplicaUpdate, TaskType::TTDownloadSector, TaskType::TTGenerateWindowPoSt,
        TaskType::TTGenerateWinningPoSt, TaskType::TTNoop,
    ];
    let names: std::collections::HashSet<String> = all.iter().map(|t| t.to_string()).collect();
    assert_eq!(names.len(), all.len());
    assert_eq!(TaskType::TTNoop.to_string(), "");
    for t in all.iter().filter(|t| **t != TaskType::TTNoop) {
        let n = t.to_string();
        assert!(n.starts_with("seal/v0/") || n.starts_with("post/v0/"));
    }
}
