//! The identifier of the object that backs a mapping.

use vstd::prelude::*;
use vstd::std_specs::convert::FromSpecImpl;

verus! {

/// The platform's native identifier of a file-like object: a descriptor
/// number where the platform counts its open files, a handle value where it
/// hands out handles. The wrapper owns nothing; whoever opened the object
/// keeps it open while a mapping is being built from it.
#[derive(Clone, Copy, Debug, PartialEq, Eq, Structural)]
pub struct RawDescriptor(pub isize);

/// What is handed to the system in place of a descriptor when a mapping has
/// no backing object.
pub const NO_DESCRIPTOR: isize = -1;

/// Anything that can name the object it wraps.
pub trait MmapRawDescriptor {
    fn raw_descriptor(&self) -> RawDescriptor;
}

impl MmapRawDescriptor for RawDescriptor {
    fn raw_descriptor(&self) -> (d: RawDescriptor)
        ensures
            d == *self,
    {
        *self
    }
}

impl RawDescriptor {
    /// The wrapped identifier.
    pub fn as_ref(&self) -> (raw: &isize)
        ensures
            *raw == self.0,
    {
        &self.0
    }
}

impl From<isize> for RawDescriptor {
    fn from(raw: isize) -> (d: RawDescriptor) {
        RawDescriptor(raw)
    }
}

impl FromSpecImpl<isize> for RawDescriptor {
    open spec fn obeys_from_spec() -> bool {
        true
    }

    open spec fn from_spec(raw: isize) -> RawDescriptor {
        RawDescriptor(raw)
    }
}

impl From<i32> for RawDescriptor {
    fn from(raw: i32) -> (d: RawDescriptor) {
        RawDescriptor(raw as isize)
    }
}

impl FromSpecImpl<i32> for RawDescriptor {
    open spec fn obeys_from_spec() -> bool {
        true
    }

    open spec fn from_spec(raw: i32) -> RawDescriptor {
        RawDescriptor(raw as isize)
    }
}

/// The descriptor argument of the mapping call: the backing object's
/// identifier, or the sentinel when the mapping is anonymous.
pub open spec fn descriptor_argument(backing: Option<RawDescriptor>) -> isize {
    match backing {
        Some(d) => d.0,
        None => NO_DESCRIPTOR,
    }
}

/// Resolves the backing of a request to the descriptor argument of the
/// mapping call.
pub fn resolve_descriptor(backing: Option<RawDescriptor>) -> (fd: isize)
    ensures
        fd == descriptor_argument(backing),
{
    match backing {
        Some(d) => d.0,
        None => NO_DESCRIPTOR,
    }
}

} // verus!
