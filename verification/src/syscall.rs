//! System calls as plain data.
//!
//! The library never calls the system. It describes each call it wants
//! made, the embedding program makes it, and the outcome comes back as a
//! reply: the word the call produced, or the error code the system reported.

use vstd::prelude::*;
use vstd::multiset::Multiset;

verus! {

/// A system call the library asks for.
#[derive(Clone, Copy, Debug, PartialEq, Eq, Structural)]
#[allow(inconsistent_fields)]
pub enum SysCall {
    /// Map `len` bytes of the object `fd` names, starting at `offset`, and
    /// reply with the address of the region.
    Mmap { len: usize, protection: i32, flags: i32, fd: isize, offset: u64 },
    /// Unmap the region of `len` bytes at `address`.
    Unmap { address: usize, len: usize },
    /// Open the access token of the process and reply with its handle.
    OpenProcessToken { access: u32 },
    /// Look up the identifier of the lock-memory privilege and keep it for
    /// the call that adjusts the token.
    LookupLockMemory,
    /// Give `token` the privilege that was looked up last, with
    /// `attributes`.
    AdjustPrivileges { token: usize, attributes: u32 },
    /// Create a mapping object from `file`, or from the paging file where
    /// `file` is the sentinel, and reply with its handle.
    CreateFileMapping { file: isize, protection: u32, size_high: u32, size_low: u32 },
    /// Map a view of `len` bytes of the mapping object `section` and reply
    /// with the address of the view.
    MapViewOfFile { section: usize, access: u32, offset_high: u32, offset_low: u32, len: usize },
    /// Duplicate the handle `source` within the process and reply with the
    /// duplicate.
    DuplicateHandle { source: isize, options: u32 },
    /// Change the protection of `len` bytes at `address`.
    VirtualProtect { address: usize, len: usize, protection: u32 },
    /// Close `handle`.
    CloseHandle { handle: usize },
    /// Start writing back the modified pages among the `len` bytes that
    /// begin `offset` bytes into the region at `base`.
    WriteBack { base: usize, offset: usize, len: usize },
    /// Force what the file behind `handle` has buffered to stable storage.
    SyncFile { handle: usize },
}

/// Something the system hands out and wants back.
#[derive(Clone, Copy, Debug, PartialEq, Eq, Structural)]
pub enum Resource {
    /// An open handle.
    Handle(usize),
    /// A mapped region or view, named by its address.
    View(usize),
}

/// The resources the process holds after `call` was answered with `reply`,
/// where it held `ledger` before.
///
/// A call that maps or opens something adds what it was answered with. A
/// call that unmaps or closes something takes it off the ledger whatever the
/// answer: a release is attempted once and never repeated.
pub open spec fn ledger_after(
    ledger: Multiset<Resource>,
    call: SysCall,
    reply: Result<usize, i32>,
) -> Multiset<Resource> {
    match call {
        SysCall::Mmap { .. } | SysCall::MapViewOfFile { .. } => match reply {
            Ok(address) => ledger.insert(Resource::View(address)),
            Err(_) => ledger,
        },
        SysCall::OpenProcessToken { .. }
        | SysCall::CreateFileMapping { .. }
        | SysCall::DuplicateHandle { .. } => match reply {
            Ok(handle) => ledger.insert(Resource::Handle(handle)),
            Err(_) => ledger,
        },
        SysCall::Unmap { address, .. } => ledger.remove(Resource::View(address)),
        SysCall::CloseHandle { handle } => ledger.remove(Resource::Handle(handle)),
        SysCall::LookupLockMemory
        | SysCall::AdjustPrivileges { .. }
        | SysCall::VirtualProtect { .. }
        | SysCall::WriteBack { .. }
        | SysCall::SyncFile { .. } => ledger,
    }
}

/// What a call gives back to the system, if it gives anything back.
pub open spec fn released_by(call: SysCall) -> Option<Resource> {
    match call {
        SysCall::Unmap { address, .. } => Some(Resource::View(address)),
        SysCall::CloseHandle { handle } => Some(Resource::Handle(handle)),
        _ => None,
    }
}

/// The upper half of a 64-bit quantity.
pub open spec fn high_word(value: u64) -> u32 {
    (value / 0x1_0000_0000) as u32
}

/// The lower half of a 64-bit quantity.
pub open spec fn low_word(value: u64) -> u32 {
    (value % 0x1_0000_0000) as u32
}

/// Splits a 64-bit quantity into the two 32-bit words the system takes it
/// as, upper half first.
pub fn split_words(value: u64) -> (words: (u32, u32))
    ensures
        words.0 == high_word(value),
        words.1 == low_word(value),
        words.0 as int * 0x1_0000_0000 + words.1 as int == value,
{
    let high: u64 = value >> 32;
    let low: u64 = value & 0xffff_ffff;
    proof {
        assert(value >> 32 == value / 0x1_0000_0000) by (bit_vector);
        assert(value & 0xffff_ffff == value % 0x1_0000_0000) by (bit_vector);
        assert((value >> 32) <= 0xffff_ffff) by (bit_vector);
    }
    (high as u32, low as u32)
}

} // verus!
