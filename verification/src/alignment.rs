//! Aligning a requested byte range to the granularity of the platform.

use vstd::prelude::*;
use crate::error::MmapError;

verus! {

/// Where a mapping lies in its backing object and how much of it the caller
/// sees.
///
/// The system maps `aligned_len` bytes starting at `aligned_offset`; the
/// caller sees `len` bytes starting `visible_offset` bytes into what was
/// mapped.
#[derive(Clone, Copy, Debug, PartialEq, Eq, Structural)]
pub struct Geometry {
    /// The requested offset rounded down to the granularity.
    pub aligned_offset: u64,
    /// The number of bytes to map: the requested length plus what the
    /// rounding added in front, and never zero.
    pub aligned_len: usize,
    /// The distance from the start of what is mapped to the first visible
    /// byte.
    pub visible_offset: usize,
    /// The requested length.
    pub len: usize,
}

/// The distance of `offset` from the last multiple of `granularity` at or
/// below it.
pub open spec fn alignment_of(offset: u64, granularity: usize) -> int {
    offset as int % granularity as int
}

/// Whether a range of `len` bytes at `offset` can be aligned: the length and
/// the bytes added in front of it together fit the machine word.
pub open spec fn alignable(offset: u64, len: usize, granularity: usize) -> bool {
    len + alignment_of(offset, granularity) <= usize::MAX
}

/// The aligned geometry of `len` bytes at `offset`.
pub open spec fn geometry_of(offset: u64, len: usize, granularity: usize) -> Geometry {
    let alignment = alignment_of(offset, granularity);
    Geometry {
        aligned_offset: (offset - alignment) as u64,
        aligned_len: (if len + alignment >= 1 { len + alignment } else { 1 }) as usize,
        visible_offset: alignment as usize,
        len,
    }
}

/// What aligning a range yields: its geometry, or `InvalidLength` where the
/// aligned length is not representable.
pub open spec fn aligned(offset: u64, len: usize, granularity: usize) -> Result<Geometry, MmapError> {
    if alignable(offset, len, granularity) {
        Ok(geometry_of(offset, len, granularity))
    } else {
        Err(MmapError::InvalidLength)
    }
}

impl Geometry {
    /// The visible range lies inside what is mapped, and what is mapped is
    /// not empty.
    pub open spec fn well_formed(self) -> bool {
        &&& self.aligned_len >= 1
        &&& self.visible_offset + self.len <= self.aligned_len
    }

    /// The number of bytes the system sets aside for the mapping: the
    /// aligned length rounded up to whole units of `granularity`.
    pub open spec fn reserved(self, granularity: usize) -> int {
        let g = granularity as int;
        ((self.aligned_len + g - 1) / g) * g
    }

    /// The number of bytes the system sets aside for the mapping, where the
    /// machine word can hold it.
    pub fn reserved_len(&self, granularity: usize) -> (reserved: Option<usize>)
        requires
            granularity > 0,
        ensures
            reserved == (if self.reserved(granularity) <= usize::MAX {
                Some(self.reserved(granularity) as usize)
            } else {
                None::<usize>
            }),
            reserved matches Some(r) ==> {
                &&& r % granularity == 0
                &&& self.aligned_len <= r < self.aligned_len + granularity
            },
    {
        let remainder = self.aligned_len % granularity;
        proof {
            lemma_round_up(self.aligned_len as int, granularity as int);
        }
        if remainder == 0 {
            Some(self.aligned_len)
        } else {
            self.aligned_len.checked_add(granularity - remainder)
        }
    }
}

/// Rounding `n` up to a multiple of `g` adds what `n` lacks to the next
/// multiple, and nothing where `n` is one already.
pub proof fn lemma_round_up(n: int, g: int)
    requires
        n >= 0,
        g > 0,
    ensures
        ((n + g - 1) / g) * g == (if n % g == 0 { n } else { n + g - n % g }),
        (((n + g - 1) / g) * g) % g == 0,
        n <= ((n + g - 1) / g) * g < n + g,
{
    let q = n / g;
    let r = n % g;
    vstd::arithmetic::div_mod::lemma_fundamental_div_mod(n, g);
    assert(n == g * q + r);
    vstd::arithmetic::mul::lemma_mul_is_commutative(g, q);
    if r == 0 {
        // n + g - 1 == q * g + (g - 1)
        vstd::arithmetic::div_mod::lemma_fundamental_div_mod_converse(n + g - 1, g, q, g - 1);
        assert((n + g - 1) / g == q);
    } else {
        // n + g - 1 == (q + 1) * g + (r - 1)
        vstd::arithmetic::mul::lemma_mul_is_distributive_add_other_way(g, q, 1);
        assert((q + 1) * g == q * g + g);
        vstd::arithmetic::div_mod::lemma_fundamental_div_mod_converse(n + g - 1, g, q + 1, r - 1);
        assert((n + g - 1) / g == q + 1);
    }
    vstd::arithmetic::div_mod::lemma_mod_multiples_basic((n + g - 1) / g, g);
}

/// Aligns `len` bytes at `offset` to `granularity`.
///
/// The offset is rounded down to a multiple of the granularity, the length
/// grows by what the rounding added, and a length of zero is promoted to one
/// byte, since the system refuses to map nothing. Fails with `InvalidLength`
/// exactly when the grown length does not fit the machine word.
pub fn resolve(offset: u64, len: usize, granularity: usize) -> (r: Result<Geometry, MmapError>)
    requires
        granularity > 0,
    ensures
        r == aligned(offset, len, granularity),
        r matches Ok(g) ==> g.well_formed(),
{
    let alignment: u64 = offset % (granularity as u64);
    proof {
        vstd::arithmetic::div_mod::lemma_mod_decreases(offset as nat, granularity as nat);
    }
    let aligned_offset: u64 = offset - alignment;
    let visible_offset: usize = alignment as usize;
    match len.checked_add(visible_offset) {
        Some(covered) => {
            let aligned_len: usize = if covered >= 1 { covered } else { 1 };
            Ok(Geometry { aligned_offset, aligned_len, visible_offset, len })
        },
        None => Err(MmapError::InvalidLength),
    }
}

/// The aligned offset and the visible offset add up to the requested
/// offset, the aligned offset is a multiple of the granularity, and the
/// visible offset is less than one unit of it.
pub proof fn lemma_offset_split(offset: u64, len: usize, granularity: usize)
    requires
        granularity > 0,
    ensures
        ({
            let g = geometry_of(offset, len, granularity);
            &&& g.aligned_offset + g.visible_offset == offset
            &&& g.aligned_offset as int % granularity as int == 0
            &&& g.visible_offset < granularity
        }),
{
    let g = granularity as int;
    let o = offset as int;
    vstd::arithmetic::div_mod::lemma_fundamental_div_mod(o, g);
    vstd::arithmetic::div_mod::lemma_mod_multiples_basic(o / g, g);
    vstd::arithmetic::mul::lemma_mul_is_commutative(g, o / g);
}

/// What is mapped covers the visible range, is never empty, and is no
/// larger than the promotion of an empty range requires: the aligned length
/// is the larger of one and the requested length plus the visible offset.
pub proof fn lemma_aligned_length_covers(offset: u64, len: usize, granularity: usize)
    requires
        granularity > 0,
        alignable(offset, len, granularity),
    ensures
        ({
            let g = geometry_of(offset, len, granularity);
            &&& g.len == len
            &&& g.aligned_len >= 1
            &&& g.aligned_len >= g.visible_offset + len
            &&& g.aligned_len == vstd::math::max(len + g.visible_offset, 1)
            &&& g.well_formed()
        }),
{
}

} // verus!
