//! Handle platforms: the calls a request translates to.

use vstd::prelude::*;
use crate::access::{windows_access, windows_access_of, windows_expressible, AccessPair};
use crate::advice::{conflicting, has_conflict};
use crate::alignment::{alignable, geometry_of, resolve, Geometry};
use crate::descriptor::{descriptor_argument, resolve_descriptor};
use crate::error::MmapError;
use crate::granularity::{windows_granularity, windows_granularity_of, windows_large_pages};
use crate::platform::WindowsPlatform;
use crate::request::MappingRequest;

verus! {

/// Everything the calls of a handle platform take, settled before the
/// first of them is made.
#[derive(Clone, Copy, Debug, PartialEq, Eq)]
pub struct WindowsPlan {
    /// The file argument of the mapping object: the backing handle, or the
    /// sentinel that selects the paging file.
    pub file: isize,
    /// Whether the mapping is backed by a file of the caller.
    pub backed: bool,
    /// Whether the lock-memory privilege has to be enabled first.
    pub elevate: bool,
    /// The access the process token is opened with.
    pub token_access: u32,
    /// The attributes the privilege is enabled with.
    pub privilege_attributes: u32,
    /// The protection the mapping object is created with.
    pub section_protection: u32,
    /// The size the mapping object is created with; zero takes the size of
    /// the file.
    pub section_size: u64,
    /// The access the view is opened with.
    pub view_access: u32,
    /// The offset into the mapping object at which the view starts.
    pub view_offset: u64,
    /// The protection an anonymous view is given once it is mapped.
    pub protection: u32,
    /// The options the backing handle is duplicated with.
    pub duplicate_options: u32,
    pub geometry: Geometry,
}

/// Why a request cannot be mapped on a handle platform, if it cannot. The
/// access is looked at first, the hints second, the length last.
pub open spec fn windows_rejection(platform: WindowsPlatform, request: MappingRequest) -> Option<
    MmapError,
> {
    if !windows_expressible(request.read, request.write, request.copy_on_write) {
        Some(MmapError::InvalidAccess)
    } else if conflicting(request) {
        Some(MmapError::ConflictingAdvice)
    } else if !alignable(request.offset, request.len, windows_granularity_of(platform, request)) {
        Some(MmapError::InvalidLength)
    } else {
        None
    }
}

/// The translated access of a request that is not rejected.
pub open spec fn windows_pair_of(platform: WindowsPlatform, request: MappingRequest) -> AccessPair {
    windows_access_of(
        platform,
        request.read,
        request.write,
        request.execute,
        request.copy_on_write,
        windows_large_pages(platform, request),
    )->Ok_0
}

/// The plan of a request that maps a file of the caller: the mapping object
/// takes its size from the file and the translated protection, and the view
/// starts at the aligned offset with the translated access.
pub open spec fn backed_plan_of(
    platform: WindowsPlatform,
    request: MappingRequest,
    file: isize,
) -> WindowsPlan {
    let pair = windows_pair_of(platform, request);
    let geometry = geometry_of(
        request.offset,
        request.len,
        windows_granularity_of(platform, request),
    );
    WindowsPlan {
        file,
        backed: true,
        elevate: false,
        token_access: platform.rights.token_adjust_privileges | platform.rights.token_query,
        privilege_attributes: platform.rights.privilege_enabled,
        section_protection: pair.protection,
        section_size: 0,
        view_access: pair.access,
        view_offset: geometry.aligned_offset,
        protection: pair.protection,
        duplicate_options: platform.rights.duplicate_same_access,
        geometry,
    }
}

/// The plan of a request that maps anonymous memory: the mapping object is
/// created from the paging file with the aligned length and the widest
/// protection, the view starts at its beginning, and the translated
/// protection is applied to the view afterwards. With large pages the
/// privilege is enabled first and the mapping object is committed in large
/// pages.
pub open spec fn anonymous_plan_of(platform: WindowsPlatform, request: MappingRequest) -> WindowsPlan {
    let pair = windows_pair_of(platform, request);
    let large = windows_large_pages(platform, request);
    let geometry = geometry_of(
        request.offset,
        request.len,
        windows_granularity_of(platform, request),
    );
    WindowsPlan {
        file: descriptor_argument(None),
        backed: false,
        elevate: large,
        token_access: platform.rights.token_adjust_privileges | platform.rights.token_query,
        privilege_attributes: platform.rights.privilege_enabled,
        section_protection: if large {
            platform.protection.readwrite | platform.protection.commit
                | platform.protection.large_pages
        } else {
            platform.protection.execute_readwrite
        },
        section_size: geometry.aligned_len as u64,
        view_access: if large {
            platform.access.all_access
        } else {
            platform.access.all_access | platform.access.execute
        },
        view_offset: 0,
        protection: pair.protection,
        duplicate_options: platform.rights.duplicate_same_access,
        geometry,
    }
}

/// The plan of a request on a handle platform.
pub open spec fn windows_plan_of(platform: WindowsPlatform, request: MappingRequest) -> Result<
    WindowsPlan,
    MmapError,
> {
    match windows_rejection(platform, request) {
        Some(e) => Err(e),
        None => Ok(
            match request.descriptor {
                Some(d) => backed_plan_of(platform, request, d.0),
                None => anonymous_plan_of(platform, request),
            },
        ),
    }
}

impl WindowsPlan {
    pub open spec fn well_formed(self) -> bool {
        self.geometry.well_formed()
    }
}

/// Validates a request and settles the arguments of the calls of a handle
/// platform.
pub fn plan(platform: &WindowsPlatform, request: &MappingRequest) -> (r: Result<
    WindowsPlan,
    MmapError,
>)
    requires
        platform.allocation_granularity > 0,
    ensures
        r == windows_plan_of(*platform, *request),
        r matches Ok(p) ==> p.well_formed(),
{
    let large = request.huge_page && platform.large_page_minimum != 0;
    let pair = match windows_access(
        platform,
        request.read,
        request.write,
        request.execute,
        request.copy_on_write,
        large,
    ) {
        Ok(pair) => pair,
        Err(e) => {
            return Err(e);
        },
    };
    if has_conflict(request) {
        return Err(MmapError::ConflictingAdvice);
    }
    let granularity = windows_granularity(platform, request);
    let geometry = match resolve(request.offset, request.len, granularity) {
        Ok(geometry) => geometry,
        Err(e) => {
            return Err(e);
        },
    };
    let token_access = platform.rights.token_adjust_privileges | platform.rights.token_query;
    let backed = request.descriptor.is_some();
    let file = resolve_descriptor(request.descriptor);
    if backed {
        Ok(
            WindowsPlan {
                file,
                backed: true,
                elevate: false,
                token_access,
                privilege_attributes: platform.rights.privilege_enabled,
                section_protection: pair.protection,
                section_size: 0,
                view_access: pair.access,
                view_offset: geometry.aligned_offset,
                protection: pair.protection,
                duplicate_options: platform.rights.duplicate_same_access,
                geometry,
            },
        )
    } else {
        Ok(
            WindowsPlan {
                file,
                backed: false,
                elevate: large,
                token_access,
                privilege_attributes: platform.rights.privilege_enabled,
                section_protection: if large {
                    platform.protection.readwrite | platform.protection.commit
                        | platform.protection.large_pages
                } else {
                    platform.protection.execute_readwrite
                },
                section_size: geometry.aligned_len as u64,
                view_access: if large {
                    platform.access.all_access
                } else {
                    platform.access.all_access | platform.access.execute
                },
                view_offset: 0,
                protection: pair.protection,
                duplicate_options: platform.rights.duplicate_same_access,
                geometry,
            },
        )
    }
}

} // verus!
