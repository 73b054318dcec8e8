use vstd::prelude::*;

verus! {

/// Why a single memory transfer did not deliver what was asked.
#[derive(Clone, Copy, PartialEq, Eq, Debug)]
pub enum TransferError {
    /// The system call reported failure; the platform's last error code.
    Os(u32),
    /// The system call reported success but moved fewer bytes than requested.
    Short { requested: usize, transferred: usize },
}

/// Every failure that an engine operation reports.
#[derive(Clone, Copy, PartialEq, Eq, Debug)]
pub enum MemError {
    /// The address argument is negative or does not fit in 64 bits, or an
    /// address computed from it does not.
    InvalidAddress,
    /// Neither a process name nor a process id was given.
    MissingTarget,
    /// No running process has the requested name.
    ProcessNotFound,
    /// The target process has no module of the requested name.
    ModuleNotFound,
    /// The process could not be opened; the platform's error code.
    HandleAcquisitionFailed(u32),
    /// A read or a write did not transfer the requested bytes.
    Transfer(TransferError),
    /// The page protection could not be relaxed for a forced write.
    ProtectionChangeFailed(u32),
    /// The write after relaxing the page protection failed too.
    ForcedWriteFailed(u32),
    /// A pointer in a chain was null at this 1-based depth.
    NullPointerInChain(usize),
    /// Reading a pointer of a chain failed at this 1-based depth.
    ChainReadFailed { depth: usize, cause: TransferError },
    /// Hex patch text with an odd number of hex digits.
    InvalidHexPatch,
    /// Bytes read as a string are not valid UTF-8.
    DecodeError,
}

} // verus!
