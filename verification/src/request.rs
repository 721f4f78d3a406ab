//! What a caller asks for: the options a builder accumulates.

use vstd::prelude::*;
use crate::descriptor::RawDescriptor;

verus! {

/// A declarative mapping request.
///
/// A request carries no ownership of the backing object, and nothing in it
/// is checked while it is being put together: mutually exclusive options are
/// detected when the request is finalized.
#[derive(Clone, Copy, Debug, PartialEq, Eq)]
pub struct MappingRequest {
    /// Byte offset into the backing object at which the visible range starts.
    pub offset: u64,
    /// Number of visible bytes. Zero is allowed; the mapping established for
    /// it still covers one byte.
    pub len: usize,
    pub read: bool,
    pub write: bool,
    pub execute: bool,
    /// The backing object; `None` asks for an anonymous mapping.
    pub descriptor: Option<RawDescriptor>,
    /// Ask for pages of a larger size class.
    pub huge_page: bool,
    /// Changes stay private to the mapping (descriptor platforms).
    pub private: bool,
    pub advise_normal: bool,
    pub advise_sequential: bool,
    pub advise_random: bool,
    pub advise_willneed: bool,
    pub advise_dontneed: bool,
    /// Map a region suitable for a stack (descriptor platforms).
    pub map_stack: bool,
    /// Populate the page tables while mapping (descriptor platforms).
    pub map_populate: bool,
    /// Select the one-gigabyte size class instead of the two-megabyte one.
    pub huge_page_1gb: bool,
    /// Writes go to a private copy of the page (handle platforms).
    /// Excludes `write`.
    pub copy_on_write: bool,
}

impl MappingRequest {
    /// The request with nothing asked for: offset and length zero, no
    /// access, anonymous, every option off.
    pub open spec fn empty() -> MappingRequest {
        MappingRequest {
            offset: 0,
            len: 0,
            read: false,
            write: false,
            execute: false,
            descriptor: None,
            huge_page: false,
            private: false,
            advise_normal: false,
            advise_sequential: false,
            advise_random: false,
            advise_willneed: false,
            advise_dontneed: false,
            map_stack: false,
            map_populate: false,
            huge_page_1gb: false,
            copy_on_write: false,
        }
    }

    pub fn new() -> (request: MappingRequest)
        ensures
            request == MappingRequest::empty(),
    {
        MappingRequest {
            offset: 0,
            len: 0,
            read: false,
            write: false,
            execute: false,
            descriptor: None,
            huge_page: false,
            private: false,
            advise_normal: false,
            advise_sequential: false,
            advise_random: false,
            advise_willneed: false,
            advise_dontneed: false,
            map_stack: false,
            map_populate: false,
            huge_page_1gb: false,
            copy_on_write: false,
        }
    }
}

} // verus!
