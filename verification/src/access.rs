//! Translating the access a request asks for into the protection and access
//! words of the platform.

use vstd::prelude::*;
use crate::error::MmapError;
use crate::platform::{PageProtection, ProtectionBits, ViewAccess, WindowsPlatform};

verus! {

/// Whether the platform can express an access combination: reading is part
/// of every mapping, so a combination without it cannot be expressed.
pub open spec fn expressible(read: bool, write: bool, execute: bool) -> bool {
    read
}

/// The protection word of a descriptor platform for an access combination.
pub open spec fn posix_protection_of(
    bits: ProtectionBits,
    read: bool,
    write: bool,
    execute: bool,
) -> Result<i32, MmapError> {
    match (read, write, execute) {
        (true, true, true) => Ok(bits.read | bits.write | bits.execute),
        (true, true, false) => Ok(bits.read | bits.write),
        (true, false, true) => Ok(bits.read | bits.execute),
        (true, false, false) => Ok(bits.read),
        _ => Err(MmapError::InvalidAccess),
    }
}

/// Translates an access combination into the protection word of a
/// descriptor platform, or rejects it as inexpressible.
pub fn posix_protection(bits: &ProtectionBits, read: bool, write: bool, execute: bool) -> (r: Result<
    i32,
    MmapError,
>)
    ensures
        r == posix_protection_of(*bits, read, write, execute),
        r is Ok <==> expressible(read, write, execute),
{
    if !read {
        return Err(MmapError::InvalidAccess);
    }
    let mut protection: i32 = bits.read;
    if write {
        protection = protection | bits.write;
    }
    if execute {
        protection = protection | bits.execute;
    }
    Ok(protection)
}

/// The pair of words a handle platform takes: the access a view is opened
/// with and the protection the mapping object is created with.
#[derive(Clone, Copy, Debug, PartialEq, Eq, Structural)]
pub struct AccessPair {
    pub access: u32,
    pub protection: u32,
}

/// The pair for an access combination that includes reading.
pub open spec fn windows_base_pair(
    access: ViewAccess,
    protection: PageProtection,
    write: bool,
    execute: bool,
) -> AccessPair {
    match (write, execute) {
        (true, true) => AccessPair {
            access: access.all_access | access.execute,
            protection: protection.execute_readwrite,
        },
        (true, false) => AccessPair {
            access: access.all_access,
            protection: protection.readwrite,
        },
        (false, true) => AccessPair {
            access: access.read | access.execute,
            protection: protection.execute_read,
        },
        (false, false) => AccessPair { access: access.read, protection: protection.readonly },
    }
}

/// Whether a handle platform can express the access a request asks for:
/// reading is included, and writing in place is not combined with writing
/// to a private copy.
pub open spec fn windows_expressible(read: bool, write: bool, copy_on_write: bool) -> bool {
    read && !(write && copy_on_write)
}

/// The pair of a handle platform for the access a request asks for. Large
/// pages add their bit to both words, copy-on-write adds its bit to the
/// access word.
pub open spec fn windows_access_of(
    platform: WindowsPlatform,
    read: bool,
    write: bool,
    execute: bool,
    copy_on_write: bool,
    large_pages: bool,
) -> Result<AccessPair, MmapError> {
    if !windows_expressible(read, write, copy_on_write) {
        Err(MmapError::InvalidAccess)
    } else {
        let base = windows_base_pair(platform.access, platform.protection, write, execute);
        let sized = if large_pages {
            AccessPair {
                access: base.access | platform.access.large_pages,
                protection: base.protection | platform.protection.large_pages,
            }
        } else {
            base
        };
        Ok(
            AccessPair {
                access: if copy_on_write {
                    sized.access | platform.access.copy
                } else {
                    sized.access
                },
                protection: sized.protection,
            },
        )
    }
}

/// Translates the access a request asks for into the pair of words of a
/// handle platform, or rejects it as inexpressible.
pub fn windows_access(
    platform: &WindowsPlatform,
    read: bool,
    write: bool,
    execute: bool,
    copy_on_write: bool,
    large_pages: bool,
) -> (r: Result<AccessPair, MmapError>)
    ensures
        r == windows_access_of(*platform, read, write, execute, copy_on_write, large_pages),
        r is Ok <==> windows_expressible(read, write, copy_on_write),
{
    if !read || (write && copy_on_write) {
        return Err(MmapError::InvalidAccess);
    }
    let access_bits = &platform.access;
    let protection_bits = &platform.protection;
    let (mut access, mut protection): (u32, u32) = if write {
        if execute {
            (access_bits.all_access | access_bits.execute, protection_bits.execute_readwrite)
        } else {
            (access_bits.all_access, protection_bits.readwrite)
        }
    } else {
        if execute {
            (access_bits.read | access_bits.execute, protection_bits.execute_read)
        } else {
            (access_bits.read, protection_bits.readonly)
        }
    };
    if large_pages {
        access = access | access_bits.large_pages;
        protection = protection | protection_bits.large_pages;
    }
    if copy_on_write {
        access = access | access_bits.copy;
    }
    Ok(AccessPair { access, protection })
}

} // verus!
