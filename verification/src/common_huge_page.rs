//! The huge-page option, which several platforms have.

use vstd::prelude::*;
use crate::common_builder::MmapBuilder;
use crate::request::MappingRequest;

verus! {

pub trait CommonMmapBuilderHugePage: Sized {
    /// Ask for pages of a larger size class. The request is then aligned to
    /// the size of a huge page instead of the size of an ordinary one.
    fn set_huge_page(self, huge_page: bool) -> Self;
}

impl CommonMmapBuilderHugePage for MmapBuilder {
    fn set_huge_page(self, huge_page: bool) -> (builder: Self)
        ensures
            builder@ == (MappingRequest { huge_page, ..self@ }),
    {
        let mut request = self.request();
        request.huge_page = huge_page;
        MmapBuilder::from_request(request)
    }
}

} // verus!
