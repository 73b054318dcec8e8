use vstd::bytes::*;
use vstd::prelude::*;

use crate::error::{MemError, TransferError};

verus! {

/// Outcome of one transfer as the system call reports it: the number of bytes
/// moved, or the platform's error code.
pub open spec fn spec_transfer_outcome(requested: usize, status: Result<usize, u32>) -> Result<
    (),
    TransferError,
> {
    match status {
        Ok(moved) => if moved == requested {
            Ok(())
        } else {
            Err(TransferError::Short { requested, transferred: moved })
        },
        Err(code) => Err(TransferError::Os(code)),
    }
}

/// Judges a finished transfer: it succeeds only when the call succeeded and
/// moved exactly the requested number of bytes.
pub fn check_transfer(requested: usize, status: Result<usize, u32>) -> (r: Result<(), TransferError>)
    ensures
        r == spec_transfer_outcome(requested, status),
        r is Ok <==> status == Ok::<usize, u32>(requested),
{
    match status {
        Ok(moved) => if moved == requested {
            Ok(())
        } else {
            Err(TransferError::Short { requested, transferred: moved })
        },
        Err(code) => Err(TransferError::Os(code)),
    }
}

/// Completes a raw read of `requested` bytes into `buffer`: the bytes when the
/// whole range came over, the transfer failure otherwise (a short read is a
/// failure, never a truncated value).
pub fn complete_read(requested: usize, status: Result<usize, u32>, buffer: Vec<u8>) -> (r: Result<
    Vec<u8>,
    MemError,
>)
    requires
        buffer@.len() == requested,
    ensures
        match spec_transfer_outcome(requested, status) {
            Ok(_) => r is Ok && r->Ok_0@ == buffer@,
            Err(e) => r == Err::<Vec<u8>, MemError>(MemError::Transfer(e)),
        },
{
    match check_transfer(requested, status) {
        Ok(()) => Ok(buffer),
        Err(e) => Err(MemError::Transfer(e)),
    }
}

/// The fixed-size integer types that can be read and written.
#[derive(Clone, Copy, PartialEq, Eq, Debug)]
pub enum ScalarKind {
    U8,
    I8,
    U16,
    I16,
    U32,
    I32,
    U64,
    I64,
}

/// A value of one of the fixed-size integer types.
#[derive(Clone, Copy, PartialEq, Eq, Debug)]
pub enum Scalar {
    U8(u8),
    I8(i8),
    U16(u16),
    I16(i16),
    U32(u32),
    I32(i32),
    U64(u64),
    I64(i64),
}

/// Size in bytes of a value of the kind.
pub open spec fn spec_scalar_size(kind: ScalarKind) -> nat {
    match kind {
        ScalarKind::U8 | ScalarKind::I8 => 1,
        ScalarKind::U16 | ScalarKind::I16 => 2,
        ScalarKind::U32 | ScalarKind::I32 => 4,
        ScalarKind::U64 | ScalarKind::I64 => 8,
    }
}

/// The kind of a value.
pub open spec fn spec_kind_of(v: Scalar) -> ScalarKind {
    match v {
        Scalar::U8(_) => ScalarKind::U8,
        Scalar::I8(_) => ScalarKind::I8,
        Scalar::U16(_) => ScalarKind::U16,
        Scalar::I16(_) => ScalarKind::I16,
        Scalar::U32(_) => ScalarKind::U32,
        Scalar::I32(_) => ScalarKind::I32,
        Scalar::U64(_) => ScalarKind::U64,
        Scalar::I64(_) => ScalarKind::I64,
    }
}

/// Little-endian memory image of a value: exactly its size in bytes, signed
/// values in two's complement.
pub open spec fn spec_scalar_bytes(v: Scalar) -> Seq<u8> {
    match v {
        Scalar::U8(x) => seq![x],
        Scalar::I8(x) => seq![x as u8],
        Scalar::U16(x) => spec_u16_to_le_bytes(x),
        Scalar::I16(x) => spec_u16_to_le_bytes(x as u16),
        Scalar::U32(x) => spec_u32_to_le_bytes(x),
        Scalar::I32(x) => spec_u32_to_le_bytes(x as u32),
        Scalar::U64(x) => spec_u64_to_le_bytes(x),
        Scalar::I64(x) => spec_u64_to_le_bytes(x as u64),
    }
}

/// The value of the kind whose little-endian memory image is `b`.
pub open spec fn spec_scalar_from_bytes(kind: ScalarKind, b: Seq<u8>) -> Scalar
    recommends
        b.len() == spec_scalar_size(kind),
{
    match kind {
        ScalarKind::U8 => Scalar::U8(b[0]),
        ScalarKind::I8 => Scalar::I8(b[0] as i8),
        ScalarKind::U16 => Scalar::U16(spec_u16_from_le_bytes(b)),
        ScalarKind::I16 => Scalar::I16(spec_u16_from_le_bytes(b) as i16),
        ScalarKind::U32 => Scalar::U32(spec_u32_from_le_bytes(b)),
        ScalarKind::I32 => Scalar::I32(spec_u32_from_le_bytes(b) as i32),
        ScalarKind::U64 => Scalar::U64(spec_u64_from_le_bytes(b)),
        ScalarKind::I64 => Scalar::I64(spec_u64_from_le_bytes(b) as i64),
    }
}

/// Number of bytes that a read of the kind transfers.
pub fn scalar_size(kind: ScalarKind) -> (r: usize)
    ensures
        r == spec_scalar_size(kind),
{
    match kind {
        ScalarKind::U8 | ScalarKind::I8 => 1,
        ScalarKind::U16 | ScalarKind::I16 => 2,
        ScalarKind::U32 | ScalarKind::I32 => 4,
        ScalarKind::U64 | ScalarKind::I64 => 8,
    }
}

/// The kind of a value.
pub fn kind_of(v: Scalar) -> (r: ScalarKind)
    ensures
        r == spec_kind_of(v),
{
    match v {
        Scalar::U8(_) => ScalarKind::U8,
        Scalar::I8(_) => ScalarKind::I8,
        Scalar::U16(_) => ScalarKind::U16,
        Scalar::I16(_) => ScalarKind::I16,
        Scalar::U32(_) => ScalarKind::U32,
        Scalar::I32(_) => ScalarKind::I32,
        Scalar::U64(_) => ScalarKind::U64,
        Scalar::I64(_) => ScalarKind::I64,
    }
}

/// The bytes that a write of the value transfers.
pub fn scalar_to_bytes(v: Scalar) -> (r: Vec<u8>)
    ensures
        r@ == spec_scalar_bytes(v),
        r@.len() == spec_scalar_size(spec_kind_of(v)),
{
    proof {
        lemma_auto_spec_u16_to_from_le_bytes();
        lemma_auto_spec_u32_to_from_le_bytes();
        lemma_auto_spec_u64_to_from_le_bytes();
    }
    match v {
        Scalar::U8(x) => vec![x],
        Scalar::I8(x) => vec![x as u8],
        Scalar::U16(x) => u16_to_le_bytes(x),
        Scalar::I16(x) => u16_to_le_bytes(x as u16),
        Scalar::U32(x) => u32_to_le_bytes(x),
        Scalar::I32(x) => u32_to_le_bytes(x as u32),
        Scalar::U64(x) => u64_to_le_bytes(x),
        Scalar::I64(x) => u64_to_le_bytes(x as u64),
    }
}

/// The value of the kind held by the bytes of a completed read.
pub fn scalar_from_bytes(kind: ScalarKind, b: &Vec<u8>) -> (r: Scalar)
    requires
        b@.len() == spec_scalar_size(kind),
    ensures
        r == spec_scalar_from_bytes(kind, b@),
        spec_kind_of(r) == kind,
{
    let s = b.as_slice();
    match kind {
        ScalarKind::U8 => Scalar::U8(b[0]),
        ScalarKind::I8 => Scalar::I8(b[0] as i8),
        ScalarKind::U16 => Scalar::U16(u16_from_le_bytes(s)),
        ScalarKind::I16 => Scalar::I16(u16_from_le_bytes(s) as i16),
        ScalarKind::U32 => Scalar::U32(u32_from_le_bytes(s)),
        ScalarKind::I32 => Scalar::I32(u32_from_le_bytes(s) as i32),
        ScalarKind::U64 => Scalar::U64(u64_from_le_bytes(s)),
        ScalarKind::I64 => Scalar::I64(u64_from_le_bytes(s) as i64),
    }
}

/// Completes a typed read: the value when all of its bytes came over, the
/// transfer failure otherwise.
pub fn complete_scalar_read(kind: ScalarKind, status: Result<usize, u32>, buffer: Vec<u8>) -> (r:
    Result<Scalar, MemError>)
    requires
        buffer@.len() == spec_scalar_size(kind),
    ensures
        match spec_transfer_outcome(spec_scalar_size(kind) as usize, status) {
            Ok(_) => r == Ok::<Scalar, MemError>(spec_scalar_from_bytes(kind, buffer@)),
            Err(e) => r == Err::<Scalar, MemError>(MemError::Transfer(e)),
        },
{
    let size = scalar_size(kind);
    match complete_read(size, status, buffer) {
        Ok(bytes) => Ok(scalar_from_bytes(kind, &bytes)),
        Err(e) => Err(e),
    }
}

/// Writing a value and reading the same kind back gives the value again:
/// the memory image of a value decodes to that value, for every type.
pub proof fn lemma_scalar_round_trip(v: Scalar)
    ensures
        spec_scalar_bytes(v).len() == spec_scalar_size(spec_kind_of(v)),
        spec_scalar_from_bytes(spec_kind_of(v), spec_scalar_bytes(v)) == v,
{
    lemma_auto_spec_u16_to_from_le_bytes();
    lemma_auto_spec_u32_to_from_le_bytes();
    lemma_auto_spec_u64_to_from_le_bytes();
    match v {
        Scalar::I8(x) => {
            assert((x as u8) as i8 == x) by (bit_vector);
        },
        Scalar::I16(x) => {
            assert((x as u16) as i16 == x) by (bit_vector);
        },
        Scalar::I32(x) => {
            assert((x as u32) as i32 == x) by (bit_vector);
        },
        Scalar::I64(x) => {
            assert((x as u64) as i64 == x) by (bit_vector);
        },
        _ => {},
    }
}

} // verus!
