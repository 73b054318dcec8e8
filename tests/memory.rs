use memory_tool::{
    bigint_to_addr, check_transfer, complete_read, complete_scalar_read, kind_of, offset_address,
    scalar_from_bytes, scalar_size, scalar_to_bytes, MemError, ProtectedWrite, Scalar, ScalarKind,
    TransferError, WriteAction, WriteEvent, WritePhase, PAGE_EXECUTE_READWRITE,
};

#[test]
fn address_argument_validation() {
    assert_eq!(bigint_to_addr(false, 0x7FF600000000, true), Ok(0x7FF600000000));
    assert_eq!(bigint_to_addr(true, 5, true), Err(MemError::InvalidAddress));
    assert_eq!(bigint_to_addr(false, 5, false), Err(MemError::InvalidAddress));
    assert_eq!(offset_address(0x1000, 0x20), Ok(0x1020));
    assert_eq!(offset_address(u64::MAX, 1), Err(MemError::InvalidAddress));
}

#[test]
fn transfer_judgement() {
    assert_eq!(check_transfer(4, Ok(4)), Ok(()));
    assert_eq!(
        check_transfer(4, Ok(2)),
        Err(TransferError::Short { requested: 4, transferred: 2 })
    );
    assert_eq!(check_transfer(4, Err(5)), Err(TransferError::Os(5)));
}

#[test]
fn short_read_is_a_failure_not_a_value() {
    assert_eq!(complete_read(3, Ok(3), vec![1, 2, 3]), Ok(vec![1, 2, 3]));
    assert_eq!(
        complete_read(3, Ok(1), vec![1, 0, 0]),
        Err(MemError::Transfer(TransferError::Short { requested: 3, transferred: 1 }))
    );
    assert_eq!(
        complete_scalar_read(ScalarKind::U32, Ok(2), vec![1, 2, 0, 0]),
        Err(MemError::Transfer(TransferError::Short { requested: 4, transferred: 2 }))
    );
    assert_eq!(
        complete_scalar_read(ScalarKind::I16, Err(998), vec![0, 0]),
        Err(MemError::Transfer(TransferError::Os(998)))
    );
}

#[test]
fn scalar_values_are_little_endian() {
    assert_eq!(scalar_to_bytes(Scalar::U32(0x11223344)), vec![0x44, 0x33, 0x22, 0x11]);
    assert_eq!(scalar_to_bytes(Scalar::I16(-2)), vec![0xFE, 0xFF]);
    assert_eq!(scalar_to_bytes(Scalar::I8(-1)), vec![0xFF]);
    assert_eq!(
        scalar_from_bytes(ScalarKind::U64, &vec![1, 0, 0, 0, 0, 0, 0, 0x80]),
        Scalar::U64(0x8000000000000001)
    );
    assert_eq!(
        complete_scalar_read(ScalarKind::I32, Ok(4), vec![0xFF, 0xFF, 0xFF, 0xFF]),
        Ok(Scalar::I32(-1))
    );
    assert_eq!(scalar_size(ScalarKind::I64), 8);
    assert_eq!(scalar_size(ScalarKind::U8), 1);
}

#[test]
fn every_scalar_type_round_trips() {
    let values = vec![
        Scalar::U8(0xAB),
        Scalar::I8(-100),
        Scalar::U16(0xBEEF),
        Scalar::I16(-12345),
        Scalar::U32(0xDEADBEEF),
        Scalar::I32(i32::MIN),
        Scalar::U64(u64::MAX - 7),
        Scalar::I64(-1234567890123),
    ];
    for v in values {
        let bytes = scalar_to_bytes(v);
        assert_eq!(bytes.len(), scalar_size(kind_of(v)));
        assert_eq!(scalar_from_bytes(kind_of(v), &bytes), v);
    }
}

#[test]
fn direct_write_success_changes_no_protection() {
    let (mut w, first) = ProtectedWrite::begin(0x401000, 3);
    assert_eq!(first, WriteAction::Write);
    assert_eq!(w.step(WriteEvent::Written(Ok(3))), WriteAction::Finish(Ok(())));
    assert_eq!(w.phase, WritePhase::Finished);
}

#[test]
fn forced_write_restores_protection_after_success() {
    let (mut w, _) = ProtectedWrite::begin(0x401000, 2);
    assert_eq!(
        w.step(WriteEvent::Written(Err(998))),
        WriteAction::Protect { flags: PAGE_EXECUTE_READWRITE }
    );
    assert_eq!(w.step(WriteEvent::Protected(Ok(0x20))), WriteAction::Write);
    assert_eq!(w.step(WriteEvent::Written(Ok(2))), WriteAction::Protect { flags: 0x20 });
    assert_eq!(w.step(WriteEvent::Protected(Ok(0x40))), WriteAction::Finish(Ok(())));
}

#[test]
fn forced_write_restores_protection_after_failure() {
    let (mut w, _) = ProtectedWrite::begin(0x401000, 4);
    w.step(WriteEvent::Written(Err(5)));
    w.step(WriteEvent::Protected(Ok(0x02)));
    assert_eq!(w.step(WriteEvent::Written(Err(6))), WriteAction::Protect { flags: 0x02 });
    assert_eq!(
        w.step(WriteEvent::Protected(Err(87))),
        WriteAction::Finish(Err(MemError::ForcedWriteFailed(6)))
    );
}

#[test]
fn protection_change_failure_stops_the_write() {
    let (mut w, _) = ProtectedWrite::begin(0x401000, 4);
    w.step(WriteEvent::Written(Err(5)));
    assert_eq!(
        w.step(WriteEvent::Protected(Err(487))),
        WriteAction::Finish(Err(MemError::ProtectionChangeFailed(487)))
    );
    assert_eq!(w.phase, WritePhase::Finished);
}

#[test]
fn short_write_takes_the_forced_path_and_fails_if_short_again() {
    let (mut w, _) = ProtectedWrite::begin(0x401000, 8);
    assert_eq!(
        w.step(WriteEvent::Written(Ok(4))),
        WriteAction::Protect { flags: PAGE_EXECUTE_READWRITE }
    );
    w.step(WriteEvent::Protected(Ok(0x10)));
    assert_eq!(w.step(WriteEvent::Written(Ok(5))), WriteAction::Protect { flags: 0x10 });
    assert_eq!(
        w.step(WriteEvent::Protected(Ok(0x40))),
        WriteAction::Finish(Err(MemError::Transfer(TransferError::Short {
            requested: 8,
            transferred: 5
        })))
    );
}
