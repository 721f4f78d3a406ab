//! Descriptor platforms: the mapping call a request translates to.

use vstd::prelude::*;
use crate::access::{expressible, posix_protection, posix_protection_of};
use crate::advice::{advice_word, conflicting, validate};
use crate::alignment::{alignable, geometry_of, resolve, Geometry};
use crate::bits::{set_bits, with_bits};
use crate::descriptor::{descriptor_argument, resolve_descriptor};
use crate::error::MmapError;
use crate::granularity::{posix_granularity, posix_granularity_of};
use crate::platform::{AdviceCodes, MappingFlags, PosixPlatform, ProtectionBits};
use crate::request::MappingRequest;
use crate::syscall::SysCall;

verus! {

/// Everything the mapping call of a descriptor platform takes, and what is
/// remembered of the request besides.
#[derive(Clone, Copy, Debug, PartialEq, Eq)]
pub struct PosixPlan {
    /// The protection word.
    pub protection: i32,
    /// The flag word.
    pub flags: i32,
    /// The descriptor argument: the backing object, or the sentinel.
    pub fd: isize,
    /// The combined codes of the advisory hints, to be applied once the
    /// region is mapped.
    pub advice: i32,
    pub geometry: Geometry,
}

/// The flag word of a request: shared or private, then one bit each for
/// populating, anonymous backing, stack use and the huge-page size class.
pub open spec fn posix_flags_of(flags: MappingFlags, request: MappingRequest) -> i32 {
    let sharing = if request.private {
        flags.private
    } else {
        flags.shared
    };
    let populated = with_bits(sharing, request.map_populate, flags.populate);
    let backed = with_bits(populated, request.descriptor is None, flags.anonymous);
    let stacked = with_bits(backed, request.map_stack, flags.stack);
    with_bits(
        stacked,
        request.huge_page,
        if request.huge_page_1gb {
            flags.huge_1gb
        } else {
            flags.huge_2mb
        },
    )
}

/// Puts the flag word of a request together.
pub fn posix_flags(flags: &MappingFlags, request: &MappingRequest) -> (word: i32)
    ensures
        word == posix_flags_of(*flags, *request),
{
    let word = if request.private {
        flags.private
    } else {
        flags.shared
    };
    let word = set_bits(word, request.map_populate, flags.populate);
    let word = set_bits(word, request.descriptor.is_none(), flags.anonymous);
    let word = set_bits(word, request.map_stack, flags.stack);
    set_bits(
        word,
        request.huge_page,
        if request.huge_page_1gb {
            flags.huge_1gb
        } else {
            flags.huge_2mb
        },
    )
}

/// Why a request cannot be mapped on a descriptor platform, if it cannot.
/// The access is looked at first, the hints second, the length last.
pub open spec fn posix_rejection(platform: PosixPlatform, request: MappingRequest) -> Option<
    MmapError,
> {
    if !expressible(request.read, request.write, request.execute) {
        Some(MmapError::InvalidAccess)
    } else if conflicting(request) {
        Some(MmapError::ConflictingAdvice)
    } else if !alignable(request.offset, request.len, posix_granularity_of(platform, request)) {
        Some(MmapError::InvalidLength)
    } else {
        None
    }
}

/// The plan of a request on a descriptor platform.
pub open spec fn posix_plan_of(platform: PosixPlatform, request: MappingRequest) -> Result<
    PosixPlan,
    MmapError,
> {
    match posix_rejection(platform, request) {
        Some(e) => Err(e),
        None => Ok(
            PosixPlan {
                protection: posix_protection_of(
                    platform.protection,
                    request.read,
                    request.write,
                    request.execute,
                )->Ok_0,
                flags: posix_flags_of(platform.flags, request),
                fd: descriptor_argument(request.descriptor),
                advice: advice_word(platform.advice, request),
                geometry: geometry_of(
                    request.offset,
                    request.len,
                    posix_granularity_of(platform, request),
                ),
            },
        ),
    }
}

impl PosixPlan {
    pub open spec fn well_formed(self) -> bool {
        self.geometry.well_formed()
    }

    /// The mapping call of the plan.
    pub open spec fn call(self) -> SysCall {
        SysCall::Mmap {
            len: self.geometry.aligned_len,
            protection: self.protection,
            flags: self.flags,
            fd: self.fd,
            offset: self.geometry.aligned_offset,
        }
    }
}

/// Validates a request and translates it into the mapping call of a
/// descriptor platform.
pub fn plan(platform: &PosixPlatform, request: &MappingRequest) -> (r: Result<PosixPlan, MmapError>)
    requires
        platform.page_size > 0,
    ensures
        r == posix_plan_of(*platform, *request),
        r matches Ok(p) ==> p.well_formed(),
{
    let protection = match posix_protection(
        &platform.protection,
        request.read,
        request.write,
        request.execute,
    ) {
        Ok(protection) => protection,
        Err(e) => {
            return Err(e);
        },
    };
    let flags = posix_flags(&platform.flags, request);
    let fd = resolve_descriptor(request.descriptor);
    let advice = match validate(&platform.advice, request) {
        Ok(advice) => advice,
        Err(e) => {
            return Err(e);
        },
    };
    let granularity = posix_granularity(platform, request);
    match resolve(request.offset, request.len, granularity) {
        Ok(geometry) => Ok(PosixPlan { protection, flags, fd, advice, geometry }),
        Err(e) => Err(e),
    }
}

/// The bits of the protection word on the machine the library is built
/// for, read from `libc`: `PROT_READ`, `PROT_WRITE` and `PROT_EXEC`. The
/// contract gives the values `libc` declares for them on Linux, whatever
/// the architecture; the flags read below exist together on Linux only, so
/// the library is not built for anything else.
#[verifier::external_body]
fn host_protection_bits() -> (bits: ProtectionBits)
    ensures
        bits.read == 1,
        bits.write == 2,
        bits.execute == 4,
{
    ProtectionBits { read: libc::PROT_READ, write: libc::PROT_WRITE, execute: libc::PROT_EXEC }
}

/// The bits of the flag word on the machine the library is built for, read
/// from `libc`: `MAP_SHARED`, `MAP_PRIVATE`, `MAP_ANON`, `MAP_POPULATE`,
/// `MAP_STACK`, `MAP_HUGE_2MB` and `MAP_HUGE_1GB`. The contract gives the
/// values `libc` declares for the first two on Linux, whatever the
/// architecture; the others differ between architectures and nothing is
/// claimed of them.
#[verifier::external_body]
fn host_mapping_flags() -> (flags: MappingFlags)
    ensures
        flags.shared == 1,
        flags.private == 2,
{
    MappingFlags {
        shared: libc::MAP_SHARED,
        private: libc::MAP_PRIVATE,
        anonymous: libc::MAP_ANON,
        populate: libc::MAP_POPULATE,
        stack: libc::MAP_STACK,
        huge_2mb: libc::MAP_HUGE_2MB,
        huge_1gb: libc::MAP_HUGE_1GB,
    }
}

/// The advisory codes on the machine the library is built for, read from
/// `libc`: `MADV_NORMAL`, `MADV_RANDOM`, `MADV_SEQUENTIAL`, `MADV_WILLNEED`
/// and `MADV_DONTNEED`. The contract gives the values `libc` declares for
/// them on Linux, whatever the architecture.
#[verifier::external_body]
fn host_advice_codes() -> (codes: AdviceCodes)
    ensures
        codes.normal == 0,
        codes.random == 1,
        codes.sequential == 2,
        codes.willneed == 3,
        codes.dontneed == 4,
{
    AdviceCodes {
        normal: libc::MADV_NORMAL,
        random: libc::MADV_RANDOM,
        sequential: libc::MADV_SEQUENTIAL,
        willneed: libc::MADV_WILLNEED,
        dontneed: libc::MADV_DONTNEED,
    }
}

/// What is known of the machine the library is built for, whatever its
/// architecture.
pub open spec fn is_host(platform: PosixPlatform, page_size: usize) -> bool {
    &&& platform.page_size == page_size
    &&& platform.protection == (ProtectionBits { read: 1, write: 2, execute: 4 })
    &&& platform.flags.shared == 1
    &&& platform.flags.private == 2
    &&& platform.advice == (AdviceCodes {
        normal: 0,
        random: 1,
        sequential: 2,
        willneed: 3,
        dontneed: 4,
    })
}

/// The descriptor platform the library is built for, with the page size
/// that was probed on it.
pub fn host(page_size: usize) -> (platform: PosixPlatform)
    ensures
        is_host(platform, page_size),
{
    PosixPlatform {
        page_size,
        protection: host_protection_bits(),
        flags: host_mapping_flags(),
        advice: host_advice_codes(),
    }
}

} // verus!
