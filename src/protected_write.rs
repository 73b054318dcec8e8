use vstd::prelude::*;

use crate::error::{MemError, TransferError};
use crate::transfer::{check_transfer, spec_transfer_outcome};

verus! {

/// Page protection that allows reading, writing and executing, set over a
/// byte range for the time of a forced write.
pub const PAGE_EXECUTE_READWRITE: u32 = 0x40;

/// Where a protected write stands.
#[derive(Clone, Copy, PartialEq, Eq, Debug)]
pub enum WritePhase {
    /// The direct write was asked for.
    Direct,
    /// The direct write failed; relaxing the protection was asked for.
    Unprotecting,
    /// The protection is relaxed (it was `previous`); the retry was asked for.
    Retrying { previous: u32 },
    /// The retry is over with `result`; restoring the protection was asked for.
    Restoring { result: Result<(), MemError> },
    /// The write is over.
    Finished,
}

/// What a protected write asks of its driver next.
#[derive(Clone, Copy, PartialEq, Eq, Debug)]
pub enum WriteAction {
    /// Write the whole byte range, then report [`WriteEvent::Written`].
    Write,
    /// Set the protection of the byte range to `flags`, then report
    /// [`WriteEvent::Protected`].
    Protect { flags: u32 },
    /// The write is over, with this result.
    Finish(Result<(), MemError>),
}

/// What the driver reports after performing an action.
#[derive(Clone, Copy, PartialEq, Eq, Debug)]
pub enum WriteEvent {
    /// The write call's status: bytes written, or the platform's error code.
    Written(Result<usize, u32>),
    /// The protection call's status: the protection the range had before, or
    /// the platform's error code.
    Protected(Result<u32, u32>),
}

/// A write of `length` bytes at `address` that, when the direct write fails,
/// relaxes the page protection of the range, writes again, and restores the
/// protection it found, whether or not the second write succeeded.
///
/// The restoring call is best effort: its own failure is not reported, so
/// the protection stays relaxed in that one case.
pub struct ProtectedWrite {
    pub address: u64,
    pub length: usize,
    pub phase: WritePhase,
}

/// Result of the write made after the protection was relaxed.
pub open spec fn spec_retry_result(length: usize, status: Result<usize, u32>) -> Result<
    (),
    MemError,
> {
    match status {
        Ok(moved) => if moved == length {
            Ok(())
        } else {
            Err(MemError::Transfer(TransferError::Short { requested: length, transferred: moved }))
        },
        Err(code) => Err(MemError::ForcedWriteFailed(code)),
    }
}

/// Whether the event answers the action asked for in the phase.
pub open spec fn spec_answers(phase: WritePhase, event: WriteEvent) -> bool {
    match phase {
        WritePhase::Direct | WritePhase::Retrying { .. } => event is Written,
        WritePhase::Unprotecting | WritePhase::Restoring { .. } => event is Protected,
        WritePhase::Finished => false,
    }
}

/// The next phase and action of a write of `length` bytes.
pub open spec fn spec_write_transition(length: usize, phase: WritePhase, event: WriteEvent) -> (
    WritePhase,
    WriteAction,
) {
    match (phase, event) {
        (WritePhase::Direct, WriteEvent::Written(status)) => if spec_transfer_outcome(
            length,
            status,
        ) is Ok {
            (WritePhase::Finished, WriteAction::Finish(Ok(())))
        } else {
            (WritePhase::Unprotecting, WriteAction::Protect { flags: PAGE_EXECUTE_READWRITE })
        },
        (WritePhase::Unprotecting, WriteEvent::Protected(Err(code))) => (
            WritePhase::Finished,
            WriteAction::Finish(Err(MemError::ProtectionChangeFailed(code))),
        ),
        (WritePhase::Unprotecting, WriteEvent::Protected(Ok(previous))) => (
            WritePhase::Retrying { previous },
            WriteAction::Write,
        ),
        (WritePhase::Retrying { previous }, WriteEvent::Written(status)) => (
            WritePhase::Restoring { result: spec_retry_result(length, status) },
            WriteAction::Protect { flags: previous },
        ),
        (WritePhase::Restoring { result }, WriteEvent::Protected(_)) => (
            WritePhase::Finished,
            WriteAction::Finish(result),
        ),
        _ => (phase, WriteAction::Finish(Err(MemError::InvalidAddress))),
    }
}

impl ProtectedWrite {
    /// Starts a write of `length` bytes at `address`: the first action is
    /// the direct write.
    pub fn begin(address: u64, length: usize) -> (r: (ProtectedWrite, WriteAction))
        ensures
            r.0.address == address,
            r.0.length == length,
            r.0.phase == WritePhase::Direct,
            r.1 == WriteAction::Write,
    {
        (ProtectedWrite { address, length, phase: WritePhase::Direct }, WriteAction::Write)
    }

    /// Advances the write with the outcome of the action it asked for.
    ///
    /// A direct write that moved every byte finishes at once, with no
    /// protection change. A failed relaxing of the protection finishes with
    /// `ProtectionChangeFailed` and no second write. After the second write,
    /// whatever its outcome, the next action restores the protection that
    /// was captured, and the write then finishes with the second write's
    /// result.
    pub fn step(&mut self, event: WriteEvent) -> (r: WriteAction)
        requires
            spec_answers(old(self).phase, event),
        ensures
            final(self).address == old(self).address,
            final(self).length == old(self).length,
            (final(self).phase, r) == spec_write_transition(old(self).length, old(self).phase, event),
    {
        match (self.phase, event) {
            (WritePhase::Direct, WriteEvent::Written(status)) => {
                if check_transfer(self.length, status).is_ok() {
                    self.phase = WritePhase::Finished;
                    WriteAction::Finish(Ok(()))
                } else {
                    self.phase = WritePhase::Unprotecting;
                    WriteAction::Protect { flags: PAGE_EXECUTE_READWRITE }
                }
            },
            (WritePhase::Unprotecting, WriteEvent::Protected(Err(code))) => {
                self.phase = WritePhase::Finished;
                WriteAction::Finish(Err(MemError::ProtectionChangeFailed(code)))
            },
            (WritePhase::Unprotecting, WriteEvent::Protected(Ok(previous))) => {
                self.phase = WritePhase::Retrying { previous };
                WriteAction::Write
            },
            (WritePhase::Retrying { previous }, WriteEvent::Written(status)) => {
                let result = match check_transfer(self.length, status) {
                    Ok(()) => Ok(()),
                    Err(TransferError::Short { requested, transferred }) => Err(
                        MemError::Transfer(TransferError::Short { requested, transferred }),
                    ),
                    Err(TransferError::Os(code)) => Err(MemError::ForcedWriteFailed(code)),
                };
                self.phase = WritePhase::Restoring { result };
                WriteAction::Protect { flags: previous }
            },
            (WritePhase::Restoring { result }, WriteEvent::Protected(_)) => {
                self.phase = WritePhase::Finished;
                WriteAction::Finish(result)
            },
            _ => WriteAction::Finish(Err(MemError::InvalidAddress)),
        }
    }
}

/// Phases and actions of a forced write from the moment the protection is
/// relaxed (it was `previous`): the retry, the restore, and the end.
pub open spec fn spec_forced_run(
    length: usize,
    previous: u32,
    retry: Result<usize, u32>,
    restore: Result<u32, u32>,
) -> (WriteAction, WriteAction, WritePhase, WriteAction) {
    let (relaxed, retry_action) = spec_write_transition(
        length,
        WritePhase::Unprotecting,
        WriteEvent::Protected(Ok(previous)),
    );
    let (retried, restore_action) = spec_write_transition(length, relaxed, WriteEvent::Written(retry));
    let (last, end_action) = spec_write_transition(length, retried, WriteEvent::Protected(restore));
    (retry_action, restore_action, last, end_action)
}

/// Once a forced write has relaxed the protection of its range (capturing
/// `previous`), the action after the second write sets the protection back
/// to `previous`, whatever that write gave; the write then finishes with
/// the second write's result, whatever the restoring call gave.
pub proof fn lemma_forced_write_restores_protection(
    length: usize,
    previous: u32,
    retry: Result<usize, u32>,
    restore: Result<u32, u32>,
)
    ensures
        spec_forced_run(length, previous, retry, restore).0 == WriteAction::Write,
        spec_forced_run(length, previous, retry, restore).1 == (WriteAction::Protect {
            flags: previous,
        }),
        spec_forced_run(length, previous, retry, restore).2 == WritePhase::Finished,
        spec_forced_run(length, previous, retry, restore).3 == WriteAction::Finish(
            spec_retry_result(length, retry),
        ),
{
}

/// A write whose call reports success but moves fewer bytes than requested
/// is never taken for a success: the direct write falls back to the forced
/// path, and a short second write finishes with `Short`.
pub proof fn lemma_short_write_is_failure(length: usize, moved: usize)
    requires
        moved != length,
    ensures
        spec_write_transition(length, WritePhase::Direct, WriteEvent::Written(Ok(moved))).1 == (
        WriteAction::Protect { flags: PAGE_EXECUTE_READWRITE }),
        spec_retry_result(length, Ok(moved)) == (Err::<(), MemError>(
            MemError::Transfer(TransferError::Short { requested: length, transferred: moved }),
        )),
{
}

} // verus!
