use memory_tool::{Arch, ChainStep, ChainWalk, MemError, TransferError};

fn le64(v: u64) -> Vec<u8> {
    v.to_le_bytes().to_vec()
}

fn le32(v: u32) -> Vec<u8> {
    v.to_le_bytes().to_vec()
}

#[test]
fn empty_chain_is_base_without_reads() {
    let (walk, step) = ChainWalk::start(Arch::X64, 0x1234, vec![]);
    assert_eq!(step, ChainStep::Done(0x1234));
    assert!(walk.finished);
}

#[test]
fn single_offset_chain_adds_without_dereference() {
    let (walk, step) = ChainWalk::start(Arch::X64, 0x1000, vec![0x24]);
    assert_eq!(step, ChainStep::Done(0x1024));
    assert!(walk.finished);
    let (_, step32) = ChainWalk::start(Arch::X86, 0x400000, vec![0x10]);
    assert_eq!(step32, ChainStep::Done(0x400010));
}

#[test]
fn end_to_end_chain_on_64_bit_target() {
    let base: u64 = 0x7FF600000000;
    let (mut walk, step) = ChainWalk::start(Arch::X64, base, vec![0x10, 0x20]);
    assert_eq!(step, ChainStep::ReadPointer { location: 0x7FF600000010, width: 8 });
    let step = walk.feed(Ok(8), le64(0x1000000));
    assert_eq!(step, ChainStep::Done(0x1000020));
    assert!(walk.finished);
}

#[test]
fn thirty_two_bit_target_reads_four_byte_pointers() {
    let (mut walk, step) = ChainWalk::start(Arch::X86, 0x400000, vec![0x8, 0x4, 0xC]);
    assert_eq!(step, ChainStep::ReadPointer { location: 0x400008, width: 4 });
    let step = walk.feed(Ok(4), le32(0x00A00000));
    assert_eq!(step, ChainStep::ReadPointer { location: 0x00A00004, width: 4 });
    let step = walk.feed(Ok(4), le32(0xFFFF0000));
    assert_eq!(step, ChainStep::Done(0xFFFF000C));
}

#[test]
fn null_pointer_reports_its_depth_and_stops() {
    let (mut walk, _) = ChainWalk::start(Arch::X64, 0x5000, vec![0x1, 0x2, 0x3, 0x4]);
    let step = walk.feed(Ok(8), le64(0x9000));
    assert_eq!(step, ChainStep::ReadPointer { location: 0x9002, width: 8 });
    let step = walk.feed(Ok(8), le64(0));
    assert_eq!(step, ChainStep::Failed(MemError::NullPointerInChain(2)));
    assert!(walk.finished);
}

#[test]
fn null_pointer_at_first_depth() {
    let (mut walk, _) = ChainWalk::start(Arch::X86, 0x5000, vec![0x1, 0x2]);
    let step = walk.feed(Ok(4), le32(0));
    assert_eq!(step, ChainStep::Failed(MemError::NullPointerInChain(1)));
}

#[test]
fn failed_pointer_read_reports_depth_and_cause() {
    let (mut walk, _) = ChainWalk::start(Arch::X64, 0x5000, vec![0x1, 0x2, 0x3]);
    let step = walk.feed(Ok(8), le64(0x7000));
    assert_eq!(step, ChainStep::ReadPointer { location: 0x7002, width: 8 });
    let step = walk.feed(Err(299), vec![0; 8]);
    assert_eq!(
        step,
        ChainStep::Failed(MemError::ChainReadFailed { depth: 2, cause: TransferError::Os(299) })
    );
    assert!(walk.finished);
}

#[test]
fn short_pointer_read_is_a_failure() {
    let (mut walk, _) = ChainWalk::start(Arch::X64, 0x5000, vec![0x1, 0x2]);
    let step = walk.feed(Ok(3), vec![1, 2, 3, 0, 0, 0, 0, 0]);
    assert_eq!(
        step,
        ChainStep::Failed(MemError::ChainReadFailed {
            depth: 1,
            cause: TransferError::Short { requested: 8, transferred: 3 },
        })
    );
}

#[test]
fn address_overflow_is_invalid() {
    let (_, step) = ChainWalk::start(Arch::X64, u64::MAX, vec![1]);
    assert_eq!(step, ChainStep::Failed(MemError::InvalidAddress));
    let (mut walk, _) = ChainWalk::start(Arch::X64, 0x10, vec![0, 0x10]);
    let step = walk.feed(Ok(8), le64(u64::MAX - 4));
    assert_eq!(step, ChainStep::Failed(MemError::InvalidAddress));
}
