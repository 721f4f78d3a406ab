//! The builder a request is put together with.

use vstd::prelude::*;
use crate::descriptor::RawDescriptor;
use crate::error::MmapError;
use crate::mapping::Mmap;
use crate::platform::Platform;
use crate::request::MappingRequest;
use crate::session::{session_of, Session};

verus! {

/// Accumulates the options of a mapping request.
///
/// Every setter takes the builder and hands it back with one option
/// changed. Finalizing consumes the builder: a request is validated and
/// turned into a session once.
#[derive(Debug)]
pub struct MmapBuilder {
    request: MappingRequest,
}

impl View for MmapBuilder {
    type V = MappingRequest;

    closed spec fn view(&self) -> MappingRequest {
        self.request
    }
}

impl Clone for MmapBuilder {
    fn clone(&self) -> (copy: Self)
        ensures
            copy@ == self@,
    {
        MmapBuilder { request: self.request }
    }
}

impl Default for MmapBuilder {
    fn default() -> (builder: Self)
        ensures
            builder@ == MappingRequest::empty(),
    {
        MmapBuilder { request: MappingRequest::new() }
    }
}

/// The options every platform has.
pub trait CommonMmapBuilder: Sized {
    fn set_offset(self, offset: u64) -> Self;

    fn set_len(self, len: usize) -> Self;

    fn set_discriptor(self, discriptor: RawDescriptor) -> Self;

    fn set_read(self, toggle: bool) -> Self;

    fn set_write(self, toggle: bool) -> Self;

    fn set_execute(self, toggle: bool) -> Self;

    fn offset(&self) -> u64;

    fn len(&self) -> usize;

    fn is_empty(&self) -> bool;

    fn discriptor(&self) -> Option<RawDescriptor>;

    fn read(&self) -> bool;

    fn write(&self) -> bool;

    fn execute(&self) -> bool;
}

impl CommonMmapBuilder for MmapBuilder {
    fn set_offset(self, offset: u64) -> (builder: Self)
        ensures
            builder@ == (MappingRequest { offset, ..self@ }),
    {
        let mut builder = self;
        builder.request.offset = offset;
        builder
    }

    fn set_len(self, len: usize) -> (builder: Self)
        ensures
            builder@ == (MappingRequest { len, ..self@ }),
    {
        let mut builder = self;
        builder.request.len = len;
        builder
    }

    fn set_discriptor(self, discriptor: RawDescriptor) -> (builder: Self)
        ensures
            builder@ == (MappingRequest { descriptor: Some(discriptor), ..self@ }),
    {
        let mut builder = self;
        builder.request.descriptor = Some(discriptor);
        builder
    }

    fn set_read(self, toggle: bool) -> (builder: Self)
        ensures
            builder@ == (MappingRequest { read: toggle, ..self@ }),
    {
        let mut builder = self;
        builder.request.read = toggle;
        builder
    }

    fn set_write(self, toggle: bool) -> (builder: Self)
        ensures
            builder@ == (MappingRequest { write: toggle, ..self@ }),
    {
        let mut builder = self;
        builder.request.write = toggle;
        builder
    }

    fn set_execute(self, toggle: bool) -> (builder: Self)
        ensures
            builder@ == (MappingRequest { execute: toggle, ..self@ }),
    {
        let mut builder = self;
        builder.request.execute = toggle;
        builder
    }

    fn offset(&self) -> (offset: u64)
        ensures
            offset == self@.offset,
    {
        self.request.offset
    }

    fn len(&self) -> (len: usize)
        ensures
            len == self@.len,
    {
        self.request.len
    }

    fn is_empty(&self) -> (empty: bool)
        ensures
            empty == (self@.len == 0),
    {
        self.request.len == 0
    }

    fn discriptor(&self) -> (discriptor: Option<RawDescriptor>)
        ensures
            discriptor == self@.descriptor,
    {
        self.request.descriptor
    }

    fn read(&self) -> (toggle: bool)
        ensures
            toggle == self@.read,
    {
        self.request.read
    }

    fn write(&self) -> (toggle: bool)
        ensures
            toggle == self@.write,
    {
        self.request.write
    }

    fn execute(&self) -> (toggle: bool)
        ensures
            toggle == self@.execute,
    {
        self.request.execute
    }
}

impl MmapBuilder {
    /// A builder that starts from a request put together elsewhere.
    pub fn from_request(request: MappingRequest) -> (builder: Self)
        ensures
            builder@ == request,
    {
        MmapBuilder { request }
    }

    /// The request as it stands.
    pub fn request(&self) -> (request: MappingRequest)
        ensures
            request == self@,
    {
        self.request
    }

    /// Changes stay private to the mapping instead of reaching the backing
    /// object.
    pub fn set_private(self, toggle: bool) -> (builder: Self)
        ensures
            builder@ == (MappingRequest { private: toggle, ..self@ }),
    {
        let mut builder = self;
        builder.request.private = toggle;
        builder
    }

    pub fn set_advise_normal(self, toggle: bool) -> (builder: Self)
        ensures
            builder@ == (MappingRequest { advise_normal: toggle, ..self@ }),
    {
        let mut builder = self;
        builder.request.advise_normal = toggle;
        builder
    }

    pub fn set_advise_sequential(self, toggle: bool) -> (builder: Self)
        ensures
            builder@ == (MappingRequest { advise_sequential: toggle, ..self@ }),
    {
        let mut builder = self;
        builder.request.advise_sequential = toggle;
        builder
    }

    pub fn set_advise_random(self, toggle: bool) -> (builder: Self)
        ensures
            builder@ == (MappingRequest { advise_random: toggle, ..self@ }),
    {
        let mut builder = self;
        builder.request.advise_random = toggle;
        builder
    }

    pub fn set_advise_willneed(self, toggle: bool) -> (builder: Self)
        ensures
            builder@ == (MappingRequest { advise_willneed: toggle, ..self@ }),
    {
        let mut builder = self;
        builder.request.advise_willneed = toggle;
        builder
    }

    pub fn set_advise_dontneed(self, toggle: bool) -> (builder: Self)
        ensures
            builder@ == (MappingRequest { advise_dontneed: toggle, ..self@ }),
    {
        let mut builder = self;
        builder.request.advise_dontneed = toggle;
        builder
    }

    /// Map a region suitable for a stack.
    pub fn set_map_stack(self, toggle: bool) -> (builder: Self)
        ensures
            builder@ == (MappingRequest { map_stack: toggle, ..self@ }),
    {
        let mut builder = self;
        builder.request.map_stack = toggle;
        builder
    }

    /// Populate the page tables while mapping.
    pub fn set_map_populate(self, toggle: bool) -> (builder: Self)
        ensures
            builder@ == (MappingRequest { map_populate: toggle, ..self@ }),
    {
        let mut builder = self;
        builder.request.map_populate = toggle;
        builder
    }

    /// Select the one-gigabyte huge-page class instead of the two-megabyte
    /// one.
    pub fn set_huge_page_1gb(self, toggle: bool) -> (builder: Self)
        ensures
            builder@ == (MappingRequest { huge_page_1gb: toggle, ..self@ }),
    {
        let mut builder = self;
        builder.request.huge_page_1gb = toggle;
        builder
    }

    /// Writes go to a private copy of the page.
    pub fn set_copy_on_write(self, toggle: bool) -> (builder: Self)
        ensures
            builder@ == (MappingRequest { copy_on_write: toggle, ..self@ }),
    {
        let mut builder = self;
        builder.request.copy_on_write = toggle;
        builder
    }

    /// Finalizes the request: validates it and opens the session that
    /// builds its mapping on `platform`.
    ///
    /// The request is rejected with `InvalidAccess` where its access cannot
    /// be expressed, else with `ConflictingAdvice` where its hints exclude
    /// each other, else with `InvalidLength` where its aligned length is
    /// not representable. Nothing has been acquired from the system when a
    /// request is rejected, and nothing when a session is handed out: its
    /// first call is still to be made.
    pub fn build(self, platform: &Platform) -> (r: Result<Session, MmapError>)
        requires
            platform.well_formed(),
        ensures
            r == session_of(*platform, self@),
            r matches Ok(session) ==> session.well_formed(),
    {
        Session::open(platform, &self.request)
    }
}

/// Building with the copy-on-write option of handle platforms.
pub trait MmapBuilderWindowsExt: Sized {
    /// Finalizes the request with copy-on-write switched on.
    fn build_cow(self, platform: &Platform) -> Result<Session, MmapError>
        requires
            platform.well_formed(),
    ;
}

impl MmapBuilderWindowsExt for MmapBuilder {
    fn build_cow(self, platform: &Platform) -> (r: Result<Session, MmapError>)
        ensures
            r == session_of(*platform, (MappingRequest { copy_on_write: true, ..self@ })),
            r matches Ok(session) ==> session.well_formed(),
    {
        self.set_copy_on_write(true).build(platform)
    }
}

impl Mmap {
    /// A builder with nothing asked for yet.
    pub fn builder() -> (builder: MmapBuilder)
        ensures
            builder@ == MappingRequest::empty(),
    {
        MmapBuilder { request: MappingRequest::new() }
    }
}

} // verus!
