//! What the library has to be told about the platform it runs on: the
//! granularity the system aligns mappings to, and the numeric values of the
//! protection and flag words the system calls take.

use vstd::prelude::*;

verus! {

/// The bits of the protection word of a descriptor platform.
#[derive(Clone, Copy, Debug, PartialEq, Eq)]
pub struct ProtectionBits {
    pub read: i32,
    pub write: i32,
    pub execute: i32,
}

/// The bits of the flag word of a descriptor platform.
#[derive(Clone, Copy, Debug, PartialEq, Eq)]
pub struct MappingFlags {
    pub shared: i32,
    pub private: i32,
    pub anonymous: i32,
    pub populate: i32,
    pub stack: i32,
    pub huge_2mb: i32,
    pub huge_1gb: i32,
}

/// The advisory codes of a descriptor platform.
#[derive(Clone, Copy, Debug, PartialEq, Eq)]
pub struct AdviceCodes {
    pub normal: i32,
    pub random: i32,
    pub sequential: i32,
    pub willneed: i32,
    pub dontneed: i32,
}

/// A platform that names open files by descriptor number and maps them with
/// one call.
#[derive(Clone, Copy, Debug, PartialEq, Eq)]
pub struct PosixPlatform {
    /// The size of an ordinary page.
    pub page_size: usize,
    pub protection: ProtectionBits,
    pub flags: MappingFlags,
    pub advice: AdviceCodes,
}

/// The access bits a view of a file mapping is opened with.
#[derive(Clone, Copy, Debug, PartialEq, Eq)]
pub struct ViewAccess {
    pub read: u32,
    pub all_access: u32,
    pub execute: u32,
    pub copy: u32,
    pub large_pages: u32,
}

/// The page protection values and section attributes a file mapping is
/// created with.
#[derive(Clone, Copy, Debug, PartialEq, Eq)]
pub struct PageProtection {
    pub readonly: u32,
    pub readwrite: u32,
    pub execute_read: u32,
    pub execute_readwrite: u32,
    pub commit: u32,
    pub large_pages: u32,
}

/// The words used while enabling a privilege and duplicating a handle.
#[derive(Clone, Copy, Debug, PartialEq, Eq)]
pub struct HandleRights {
    pub token_adjust_privileges: u32,
    pub token_query: u32,
    pub privilege_enabled: u32,
    pub duplicate_same_access: u32,
}

/// A platform that names open files by handle and maps them in two steps:
/// a mapping object is created from the handle, then a view of it is mapped.
#[derive(Clone, Copy, Debug, PartialEq, Eq)]
pub struct WindowsPlatform {
    /// The granularity at which views can start.
    pub allocation_granularity: usize,
    /// The smallest large page, zero where large pages are not supported.
    pub large_page_minimum: usize,
    pub access: ViewAccess,
    pub protection: PageProtection,
    pub rights: HandleRights,
}

/// The platform a mapping is built for.
#[derive(Clone, Copy, Debug, PartialEq, Eq)]
pub enum Platform {
    Posix(PosixPlatform),
    Windows(WindowsPlatform),
}

impl Platform {
    /// The ordinary granularity of the platform is not zero.
    pub open spec fn well_formed(self) -> bool {
        match self {
            Platform::Posix(p) => p.page_size > 0,
            Platform::Windows(w) => w.allocation_granularity > 0,
        }
    }

    /// Whether the ordinary granularity of the platform is not zero, which
    /// building a mapping takes for granted.
    pub fn is_well_formed(&self) -> (ok: bool)
        ensures
            ok == self.well_formed(),
    {
        match self {
            Platform::Posix(p) => p.page_size > 0,
            Platform::Windows(w) => w.allocation_granularity > 0,
        }
    }
}

} // verus!
