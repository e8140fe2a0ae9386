use commit2_worker::storage::storiface::{sector_name, CallError, CallID, Commit1Out, ErrorCode, SectorId};

#[test]
fn sector_name_formats_miner_and_number() {
    assert_eq!(sector_name(SectorId { miner: 1000, number: 23 }), "s-t01000-23");
    assert_eq!(sector_name(SectorId { miner: 0, number: 0 }), "s-t00-0");
}

#[test]
fn commit1_out_uses_standard_base64() {
    assert_eq!(Commit1Out(b"hello".to_vec()).to_base64(), "aGVsbG8=");
    assert_eq!(Commit1Out(b"hi".to_vec()).to_base64(), "aGk=");
    assert_eq!(Commit1Out(b"abc".to_vec()).to_base64(), "YWJj");
    assert_eq!(Commit1Out(vec![]).to_base64(), "");
    assert_eq!(Commit1Out(vec![0xff, 0xfe, 0xfd, 0x00]).to_base64(), "//79AA==");
}

#[test]
fn commit1_out_round_trips() {
    for bytes in [vec![], vec![0u8], vec![1, 2], vec![1, 2, 3], b"commit phase one output".to_vec(), (0..=255).collect::<Vec<u8>>()] {
        let c = Commit1Out(bytes.clone());
        let back = Commit1Out::from_base64(&c.to_base64()).unwrap();
        assert_eq!(back.0, bytes);
    }
}

#[test]
fn commit1_out_rejects_bad_base64() {
    assert!(Commit1Out::from_base64("aGVsbG8").is_none());
    assert!(Commit1Out::from_base64("a!==").is_none());
    assert!(Commit1Out::from_base64("aGk==").is_none());
    assert!(Commit1Out::from_base64("aGl=").is_none());
    assert_eq!(Commit1Out::from_base64("aGk=").unwrap().0, b"hi".to_vec());
}

#[test]
fn call_id_text_has_miner_number_and_uuid() {
    let ci = CallID { sector: SectorId { miner: 1000, number: 7 }, id: 0x67e55044_10b1_426f_9247_bb680e5fe0c8 };
    assert_eq!(ci.to_string(), "1000-7-67e55044-10b1-426f-9247-bb680e5fe0c8");
}

#[test]
fn new_random_call_ids_are_version_4() {
    let a = CallID::new_random(SectorId { miner: 1, number: 2 });
    let b = CallID::new_random(SectorId { miner: 1, number: 2 });
    assert_eq!(a.sector, SectorId { miner: 1, number: 2 });
    assert_eq!((a.id >> 76) & 0xf, 4);
    assert_eq!((a.id >> 62) & 0x3, 2);
    assert_ne!(a.id, b.id);
    let text = a.to_string();
    assert_eq!(text.len(), "1-2-".len() + 36);
    assert_eq!(&text[4 + 14..4 + 15], "4");
}

#[test]
fn call_error_keeps_the_error_text() {
    let e = CallError::new(ErrorCode::ErrUnknown, Some("proof failed".to_string()));
    assert_eq!(e.message, "proof failed");
    assert_eq!(e.unwrap(), "proof failed");
    let wire = CallError::from_parts(e.code, e.message.clone());
    assert_eq!(wire.unwrap(), "proof failed");
    let none = CallError::new(ErrorCode::ErrTempUnknown, None);
    assert_eq!(none.message, "");
    assert_eq!(none.unwrap(), "");
}

#[test]
fn error_codes_have_their_values() {
    assert_eq!(ErrorCode::ErrUnknown.value(), 0);
    assert_eq!(ErrorCode::ErrTempUnknown.value(), 100);
    assert_eq!(ErrorCode::ErrTempWorkerRestart.value(), 101);
    assert_eq!(ErrorCode::ErrTempAllocateSpace.value(), 102);
}
