//! A mapped region and the views of it.

use vstd::prelude::*;
use vstd::multiset::Multiset;
use crate::alignment::Geometry;
use crate::syscall::{ledger_after, Resource, SysCall};

verus! {

/// Where a mapping lies in memory and what belongs to it.
#[derive(Clone, Copy, Debug, PartialEq, Eq)]
pub struct Layout {
    /// The address the system mapped the region at.
    pub base: usize,
    /// The number of bytes the system was asked to map.
    pub aligned_len: usize,
    /// The distance from `base` to the first visible byte.
    pub visible_offset: usize,
    /// The number of visible bytes.
    pub len: usize,
    /// The duplicate of the backing handle that the mapping owns, on
    /// platforms where a mapping holds one.
    pub handle: Option<usize>,
}

impl Layout {
    /// The visible range lies inside what is mapped, and what is mapped is
    /// not empty.
    pub open spec fn well_formed(self) -> bool {
        &&& self.aligned_len >= 1
        &&& self.visible_offset + self.len <= self.aligned_len
    }

    /// The layout of a region mapped at `base` with the given geometry.
    pub open spec fn of(base: usize, geometry: Geometry, handle: Option<usize>) -> Layout {
        Layout {
            base,
            aligned_len: geometry.aligned_len,
            visible_offset: geometry.visible_offset,
            len: geometry.len,
            handle,
        }
    }

    /// What the process holds for a mapping with this layout: the mapped
    /// region, and the duplicated handle where there is one.
    pub open spec fn resources(self) -> Multiset<Resource> {
        let region = Multiset::singleton(Resource::View(self.base));
        match self.handle {
            Some(h) => region.insert(Resource::Handle(h)),
            None => region,
        }
    }
}

/// A range of bytes inside a mapped region: `len` bytes that begin `offset`
/// bytes after `base`.
#[derive(Clone, Copy, Debug, PartialEq, Eq, Structural)]
pub struct Region {
    pub base: usize,
    pub offset: usize,
    pub len: usize,
}

impl Region {
    /// The address of the first byte of the range.
    pub open spec fn start(self) -> int {
        self.base + self.offset
    }

    /// The address just past the last byte of the range.
    pub open spec fn end(self) -> int {
        self.base + self.offset + self.len
    }

    /// The range of `len` bytes that begins `offset` bytes into this one,
    /// or `None` where that range does not lie inside this one or cannot be
    /// named with machine words.
    pub fn subrange(&self, offset: usize, len: usize) -> (sub: Option<Region>)
        ensures
            sub == (if offset + len <= self.len && self.offset + offset <= usize::MAX {
                Some(Region { base: self.base, offset: (self.offset + offset) as usize, len })
            } else {
                None::<Region>
            }),
            sub matches Some(s) ==> self.start() <= s.start() && s.end() <= self.end(),
    {
        if offset <= self.len && len <= self.len - offset {
            match self.offset.checked_add(offset) {
                Some(start) => Some(Region { base: self.base, offset: start, len }),
                None => None,
            }
        } else {
            None
        }
    }
}

/// What has to be done to give a mapping back to the system: the region is
/// unmapped first, then the handle the mapping owns is closed.
#[derive(Clone, Copy, Debug, PartialEq, Eq)]
pub struct Teardown {
    pub unmap: SysCall,
    pub close: Option<SysCall>,
}

impl Teardown {
    /// The teardown of a mapping with the given layout. The region is
    /// unmapped from the address the system mapped it at and over the
    /// length it was mapped with, not from the visible range.
    pub open spec fn of(layout: Layout) -> Teardown {
        Teardown {
            unmap: SysCall::Unmap { address: layout.base, len: layout.aligned_len },
            close: match layout.handle {
                Some(handle) => Some(SysCall::CloseHandle { handle }),
                None => None,
            },
        }
    }

    /// What the process holds once the teardown has run, whatever the
    /// system answered to its calls.
    pub open spec fn ledger_after(
        self,
        ledger: Multiset<Resource>,
        unmapped: Result<usize, i32>,
        closed: Result<usize, i32>,
    ) -> Multiset<Resource> {
        let after_unmap = ledger_after(ledger, self.unmap, unmapped);
        match self.close {
            Some(call) => ledger_after(after_unmap, call, closed),
            None => after_unmap,
        }
    }
}

/// A mapped region, owned.
///
/// A mapping comes into being only when the system has mapped the region,
/// and it is the one owner of the region and of the duplicated handle: it
/// cannot be copied, and tearing it down consumes it.
#[derive(Debug)]
pub struct Mmap {
    layout: Layout,
}

/// A view of a mapped region through which the bytes can be changed.
///
/// The view names the same region as the mapping it was taken from and owns
/// nothing: the region stays mapped until the mapping is torn down, and a
/// view is not to be used after that.
#[derive(Clone, Copy, Debug)]
pub struct MmapMut {
    layout: Layout,
}

impl View for Mmap {
    type V = Layout;

    closed spec fn view(&self) -> Layout {
        self.layout
    }
}

impl View for MmapMut {
    type V = Layout;

    closed spec fn view(&self) -> Layout {
        self.layout
    }
}

impl Mmap {
    #[verifier::type_invariant]
    spec fn inv(self) -> bool {
        self.layout.well_formed()
    }

    /// The mapping of a region the system has just mapped.
    pub(crate) fn from_layout(layout: Layout) -> (mapping: Mmap)
        requires
            layout.well_formed(),
        ensures
            mapping@ == layout,
    {
        Mmap { layout }
    }

    /// Where the mapping lies and what belongs to it.
    pub fn layout(&self) -> (layout: Layout)
        ensures
            layout == self@,
            layout.well_formed(),
    {
        proof {
            use_type_invariant(self);
        }
        self.layout
    }

    /// The number of visible bytes: the length that was asked for, whatever
    /// the system had to map to provide it.
    pub fn len(&self) -> (len: usize)
        ensures
            len == self@.len,
    {
        self.layout.len
    }

    /// Whether no byte is visible.
    pub fn is_empty(&self) -> (empty: bool)
        ensures
            empty == (self@.len == 0),
    {
        self.layout.len == 0
    }

    /// The visible bytes: the range of the requested length that begins the
    /// visible offset after the address the system mapped the region at.
    pub fn as_slice(&self) -> (region: Region)
        ensures
            region == (Region { base: self@.base, offset: self@.visible_offset, len: self@.len }),
            region.start() == self@.base + self@.visible_offset,
            region.end() <= self@.base + self@.aligned_len,
    {
        proof {
            use_type_invariant(self);
        }
        Region { base: self.layout.base, offset: self.layout.visible_offset, len: self.layout.len }
    }

    /// A view of the same region through which the bytes can be changed.
    /// Nothing is mapped or duplicated for it.
    pub fn as_mut(&self) -> (view: MmapMut)
        ensures
            view@ == self@,
    {
        proof {
            use_type_invariant(self);
        }
        MmapMut { layout: self.layout }
    }

    /// Gives up the mapping and says what has to be done to return it to
    /// the system. The calls are to be made in order, once, and their
    /// failures are to be ignored.
    pub fn teardown(self) -> (teardown: Teardown)
        ensures
            teardown == Teardown::of(self@),
    {
        Teardown {
            unmap: SysCall::Unmap { address: self.layout.base, len: self.layout.aligned_len },
            close: match self.layout.handle {
                Some(handle) => Some(SysCall::CloseHandle { handle }),
                None => None,
            },
        }
    }
}

impl MmapMut {
    #[verifier::type_invariant]
    spec fn inv(self) -> bool {
        self.layout.well_formed()
    }

    /// Where the viewed region lies.
    pub fn layout(&self) -> (layout: Layout)
        ensures
            layout == self@,
            layout.well_formed(),
    {
        proof {
            use_type_invariant(self);
        }
        self.layout
    }

    /// The number of visible bytes.
    pub fn len(&self) -> (len: usize)
        ensures
            len == self@.len,
    {
        self.layout.len
    }

    /// Whether no byte is visible.
    pub fn is_empty(&self) -> (empty: bool)
        ensures
            empty == (self@.len == 0),
    {
        self.layout.len == 0
    }
}

/// Tearing a mapping down returns exactly what the mapping holds: a process
/// that holds the resources of a mapping and nothing else holds nothing
/// once the teardown has run, whatever the system answers.
pub proof fn lemma_teardown_releases_everything(
    layout: Layout,
    unmapped: Result<usize, i32>,
    closed: Result<usize, i32>,
)
    ensures
        Teardown::of(layout).ledger_after(layout.resources(), unmapped, closed)
            =~= Multiset::<Resource>::empty(),
{
    broadcast use vstd::multiset::group_multiset_axioms;

    let region = Multiset::singleton(Resource::View(layout.base));
    assert(region.remove(Resource::View(layout.base)) =~= Multiset::<Resource>::empty());
    match layout.handle {
        Some(h) => {
            let held = region.insert(Resource::Handle(h));
            assert(held.remove(Resource::View(layout.base)) =~= Multiset::singleton(
                Resource::Handle(h),
            ));
            assert(Multiset::singleton(Resource::Handle(h)).remove(Resource::Handle(h))
                =~= Multiset::<Resource>::empty());
        },
        None => {},
    }
}

/// Tearing a mapping down releases nothing twice and nothing the mapping
/// does not hold: each call of the teardown returns a resource that is on
/// the ledger when the call is made.
pub proof fn lemma_teardown_releases_held(layout: Layout, unmapped: Result<usize, i32>)
    ensures
        layout.resources().count(Resource::View(layout.base)) == 1,
        layout.handle matches Some(h) ==> ledger_after(
            layout.resources(),
            Teardown::of(layout).unmap,
            unmapped,
        ).count(Resource::Handle(h)) == 1,
{
    broadcast use vstd::multiset::group_multiset_axioms;

}

} // verus!
