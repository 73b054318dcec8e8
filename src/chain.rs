use vstd::bytes::*;
use vstd::prelude::*;

use crate::address::{offset_address, spec_offset_address};
use crate::arch::{pointer_width, spec_pointer_width, Arch};
use crate::error::{MemError, TransferError};
use crate::transfer::{check_transfer, spec_transfer_outcome};

verus! {

/// What a pointer-chain walk asks of its driver next.
#[derive(Clone, Copy, PartialEq, Eq, Debug)]
pub enum ChainStep {
    /// The walk is over: the resolved address.
    Done(u64),
    /// Read `width` bytes at `location` and feed them back with
    /// [`ChainWalk::feed`].
    ReadPointer { location: u64, width: usize },
    /// The walk is over: why it failed.
    Failed(MemError),
}

/// A pointer chain being resolved: a base address and an ordered list of
/// offsets. All offsets but the last are added to a pointer that is then
/// dereferenced; the last one is added to the final pointer, which is not.
pub struct ChainWalk {
    /// Pointer width of the target.
    pub arch: Arch,
    /// The offsets of the chain, in order.
    pub offsets: Vec<u32>,
    /// The pointer reached so far (the base before any dereference).
    pub current: u64,
    /// Number of pointers dereferenced so far.
    pub depth: usize,
    /// Whether the walk has ended.
    pub finished: bool,
}

/// The pointer value held by the bytes read at a chain location, widened to
/// 64 bits.
pub open spec fn spec_pointer_value(arch: Arch, b: Seq<u8>) -> u64 {
    match arch {
        Arch::X86 => spec_u32_from_le_bytes(b) as u64,
        Arch::X64 => spec_u64_from_le_bytes(b),
    }
}

/// Where the walk stands on a pointer, `depth` dereferences in, with `k`
/// offsets: the next read, or the end of the walk when only the last offset
/// is left.
pub open spec fn spec_next_step(
    arch: Arch,
    offsets: Seq<u32>,
    current: u64,
    depth: int,
) -> ChainStep {
    if depth + 1 >= offsets.len() {
        match spec_offset_address(current, offsets[offsets.len() - 1]) {
            Ok(a) => ChainStep::Done(a),
            Err(e) => ChainStep::Failed(e),
        }
    } else {
        match spec_offset_address(current, offsets[depth]) {
            Ok(a) => ChainStep::ReadPointer {
                location: a,
                width: spec_pointer_width(arch) as usize,
            },
            Err(e) => ChainStep::Failed(e),
        }
    }
}

impl ChainWalk {
    /// The walk waits for the pointer read at its current location.
    pub open spec fn awaiting_read(&self) -> bool {
        &&& !self.finished
        &&& self.depth + 1 < self.offsets@.len()
    }

    /// Starts resolving `offsets` from `base` for a target of the given
    /// architecture.
    ///
    /// An empty chain resolves to `base` and a one-offset chain to
    /// `base + offset`, both without any memory read.
    pub fn start(arch: Arch, base: u64, offsets: Vec<u32>) -> (r: (ChainWalk, ChainStep))
        ensures
            r.0.arch == arch,
            r.0.offsets@ == offsets@,
            r.0.current == base,
            r.0.depth == 0,
            offsets@.len() == 0 ==> r.1 == ChainStep::Done(base),
            offsets@.len() == 1 ==> r.1 == match spec_offset_address(base, offsets@[0]) {
                Ok(a) => ChainStep::Done(a),
                Err(e) => ChainStep::Failed(e),
            },
            offsets@.len() > 0 ==> r.1 == spec_next_step(arch, offsets@, base, 0),
            r.0.awaiting_read() <==> r.1 is ReadPointer,
    {
        if offsets.len() == 0 {
            let walk = ChainWalk { arch, offsets, current: base, depth: 0, finished: true };
            return (walk, ChainStep::Done(base));
        }
        let mut walk = ChainWalk { arch, offsets, current: base, depth: 0, finished: false };
        let step = walk.next_step();
        (walk, step)
    }

    /// The step from the current pointer; ends the walk unless it is a read.
    fn next_step(&mut self) -> (r: ChainStep)
        requires
            !old(self).finished,
            old(self).depth < old(self).offsets@.len(),
        ensures
            r == spec_next_step(old(self).arch, old(self).offsets@, old(self).current, old(self).depth as int),
            final(self).arch == old(self).arch,
            final(self).offsets@ == old(self).offsets@,
            final(self).current == old(self).current,
            final(self).depth == old(self).depth,
            final(self).finished <==> !(r is ReadPointer),
            r is ReadPointer ==> old(self).depth + 1 < old(self).offsets@.len(),
    {
        let n = self.offsets.len();
        if self.depth + 1 >= n {
            self.finished = true;
            match offset_address(self.current, self.offsets[n - 1]) {
                Ok(a) => ChainStep::Done(a),
                Err(e) => ChainStep::Failed(e),
            }
        } else {
            match offset_address(self.current, self.offsets[self.depth]) {
                Ok(a) => ChainStep::ReadPointer { location: a, width: pointer_width(self.arch) },
                Err(e) => {
                    self.finished = true;
                    ChainStep::Failed(e)
                },
            }
        }
    }

    /// Hands the walk the outcome of the pointer read it asked for: the
    /// status of the system call and the buffer of pointer width it filled.
    ///
    /// A failed or short read ends the walk with `ChainReadFailed`, a null
    /// pointer with `NullPointerInChain`, both at the 1-based depth of the
    /// pointer; no later offset is looked at. Otherwise the pointer becomes
    /// the current one and the walk goes on.
    pub fn feed(&mut self, status: Result<usize, u32>, buffer: Vec<u8>) -> (r: ChainStep)
        requires
            old(self).awaiting_read(),
            buffer@.len() == spec_pointer_width(old(self).arch),
        ensures
            final(self).arch == old(self).arch,
            final(self).offsets@ == old(self).offsets@,
            match spec_transfer_outcome(spec_pointer_width(old(self).arch) as usize, status) {
                Err(cause) => {
                    &&& r == ChainStep::Failed(
                        MemError::ChainReadFailed { depth: (old(self).depth + 1) as usize, cause },
                    )
                    &&& final(self).finished
                },
                Ok(_) => {
                    let p = spec_pointer_value(old(self).arch, buffer@);
                    if p == 0 {
                        &&& r == ChainStep::Failed(
                            MemError::NullPointerInChain((old(self).depth + 1) as usize),
                        )
                        &&& final(self).finished
                    } else {
                        &&& r == spec_next_step(
                            old(self).arch,
                            old(self).offsets@,
                            p,
                            old(self).depth + 1,
                        )
                        &&& final(self).current == p
                        &&& final(self).depth == old(self).depth + 1
                    }
                },
            },
            final(self).awaiting_read() <==> r is ReadPointer,
    {
        let width = pointer_width(self.arch);
        let n = self.offsets.len();
        assert(self.depth + 1 < n);
        let depth = self.depth + 1;
        match check_transfer(width, status) {
            Err(cause) => {
                self.finished = true;
                return ChainStep::Failed(MemError::ChainReadFailed { depth, cause });
            },
            Ok(()) => {},
        }
        let p = match self.arch {
            Arch::X86 => u32_from_le_bytes(buffer.as_slice()) as u64,
            Arch::X64 => u64_from_le_bytes(buffer.as_slice()),
        };
        if p == 0 {
            self.finished = true;
            return ChainStep::Failed(MemError::NullPointerInChain(depth));
        }
        self.current = p;
        self.depth = depth;
        self.next_step()
    }
}

} // verus!
