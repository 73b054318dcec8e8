//! Decision logic of a remote memory access engine: address validation,
//! pointer-chain walking, typed value encoding, the protected-write protocol,
//! hex patch text, string decoding and the lookups of processes and modules.
//!
//! The operating-system calls themselves are made by the host program; each
//! component here is driven with their plain results.
pub mod address;
pub mod arch;
pub mod chain;
pub mod error;
pub mod process;
pub mod protected_write;
pub mod text;
pub mod transfer;

pub use address::{bigint_to_addr, offset_address};
pub use arch::{arch_name, is_process_x64, pointer_width, select_arch, Arch};
pub use chain::{ChainStep, ChainWalk};
pub use error::{MemError, TransferError};
pub use process::{
    describe_module, eq_ignore_ascii_case, find_module_info, find_process_id, select_target,
    CreateOptions, ModuleAddressInfo, ModuleInfo, ProcessInfo, Target,
};
pub use protected_write::{
    ProtectedWrite, WriteAction, WriteEvent, WritePhase, PAGE_EXECUTE_READWRITE,
};
pub use text::{
    decode_c_string, find_string_end, DEFAULT_INSTRUCTION_LENGTH, DEFAULT_STRING_LENGTH, format_hex, i8_to_string, nop_fill, parse_hex_patch, NOP,
};
pub use transfer::{
    check_transfer, complete_read, complete_scalar_read, kind_of, scalar_from_bytes, scalar_size,
    scalar_to_bytes, Scalar, ScalarKind,
};
