use vstd::prelude::*;

verus! {

/// Pointer width of the target process.
#[derive(Clone, Copy, PartialEq, Eq, Debug)]
pub enum Arch {
    /// 32-bit target: pointers are four bytes wide.
    X86,
    /// 64-bit target: pointers are eight bytes wide.
    X64,
}

/// Number of bytes in one pointer of a process of the given architecture.
pub open spec fn spec_pointer_width(arch: Arch) -> nat {
    match arch {
        Arch::X86 => 4,
        Arch::X64 => 8,
    }
}

/// Number of bytes read when a pointer of the target is dereferenced.
pub fn pointer_width(arch: Arch) -> (r: usize)
    ensures
        r == spec_pointer_width(arch),
{
    match arch {
        Arch::X86 => 4,
        Arch::X64 => 8,
    }
}

/// The name that callers see for an architecture.
pub open spec fn spec_arch_name(arch: Arch) -> Seq<char> {
    match arch {
        Arch::X86 => seq!['x', '8', '6'],
        Arch::X64 => seq!['x', '6', '4'],
    }
}

/// `"x86"` or `"x64"`.
pub fn arch_name(arch: Arch) -> (r: String)
    ensures
        r@ == spec_arch_name(arch),
{
    let r = match arch {
        Arch::X86 => "x86".to_string(),
        Arch::X64 => "x64".to_string(),
    };
    proof {
        reveal_strlit("x86");
        reveal_strlit("x64");
        assert(r@ =~= spec_arch_name(arch));
    }
    r
}

/// Bitness of a target process from what the host knows of it.
///
/// `host_is_64` tells whether the host itself runs with 64-bit pointers: a
/// 32-bit host only sees 32-bit processes. On a 64-bit host `wow64` is the
/// answer of the emulation query (`Some(true)`: the target runs under 32-bit
/// emulation), or `None` when the query failed; the bitness is then unknown.
pub fn is_process_x64(host_is_64: bool, wow64: Option<bool>) -> (r: Option<bool>)
    ensures
        !host_is_64 ==> r == Some(false),
        host_is_64 ==> r == match wow64 {
            Some(emulated) => Some(!emulated),
            None => None::<bool>,
        },
{
    if !host_is_64 {
        return Some(false);
    }
    match wow64 {
        Some(emulated) => Some(!emulated),
        None => None,
    }
}

/// Architecture chosen for an engine: the explicit choice when there is one,
/// else the detected bitness, else 64-bit.
pub fn select_arch(explicit_x64: Option<bool>, detected_x64: Option<bool>) -> (r: Arch)
    ensures
        r == match explicit_x64 {
            Some(true) => Arch::X64,
            Some(false) => Arch::X86,
            None => match detected_x64 {
                Some(false) => Arch::X86,
                _ => Arch::X64,
            },
        },
{
    match explicit_x64 {
        Some(true) => Arch::X64,
        Some(false) => Arch::X86,
        None => match detected_x64 {
            Some(false) => Arch::X86,
            _ => Arch::X64,
        },
    }
}

} // verus!
