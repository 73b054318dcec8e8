use vstd::prelude::*;

use crate::error::MemError;

verus! {

/// Validates an address argument given as a big integer's sign, lowest
/// 64-bit word and whether that word holds the whole value.
///
/// Negative values and values beyond 64 bits are rejected before any memory
/// access is made.
pub fn bigint_to_addr(negative: bool, low_word: u64, lossless: bool) -> (r: Result<u64, MemError>)
    ensures
        r == if negative || !lossless {
            Err::<u64, MemError>(MemError::InvalidAddress)
        } else {
            Ok::<u64, MemError>(low_word)
        },
{
    if negative {
        return Err(MemError::InvalidAddress);
    }
    if !lossless {
        return Err(MemError::InvalidAddress);
    }
    Ok(low_word)
}

/// `address + offset`, when it is still a 64-bit address.
pub open spec fn spec_offset_address(address: u64, offset: u32) -> Result<u64, MemError> {
    if address + offset <= u64::MAX {
        Ok((address + offset) as u64)
    } else {
        Err(MemError::InvalidAddress)
    }
}

/// Adds an offset to an address; a sum beyond 64 bits is an invalid address.
pub fn offset_address(address: u64, offset: u32) -> (r: Result<u64, MemError>)
    ensures
        r == spec_offset_address(address, offset),
{
    if address <= u64::MAX - offset as u64 {
        Ok(address + offset as u64)
    } else {
        Err(MemError::InvalidAddress)
    }
}

} // verus!
