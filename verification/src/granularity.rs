//! The granularity a request is aligned to, and the cache that holds the
//! probed granularity of the platform for the life of the process.

use vstd::prelude::*;
use crate::platform::{Platform, PosixPlatform, WindowsPlatform};
use crate::request::MappingRequest;

verus! {

/// The size of a page of the two-megabyte class.
pub const HUGE_PAGE_2MB: usize = 0x20_0000;

/// The size of a page of the one-gigabyte class.
pub const HUGE_PAGE_1GB: usize = 0x4000_0000;

/// The granularity of a descriptor platform for a request: the size of the
/// selected huge-page class where huge pages are asked for, the size of an
/// ordinary page otherwise.
pub open spec fn posix_granularity_of(platform: PosixPlatform, request: MappingRequest) -> usize {
    if request.huge_page {
        if request.huge_page_1gb {
            HUGE_PAGE_1GB
        } else {
            HUGE_PAGE_2MB
        }
    } else {
        platform.page_size
    }
}

/// Whether a request gets large pages on a handle platform: it asks for
/// them and the platform has them.
pub open spec fn windows_large_pages(platform: WindowsPlatform, request: MappingRequest) -> bool {
    request.huge_page && platform.large_page_minimum != 0
}

/// The granularity of a handle platform for a request: the size of a large
/// page where the request gets large pages, the allocation granularity
/// otherwise.
pub open spec fn windows_granularity_of(
    platform: WindowsPlatform,
    request: MappingRequest,
) -> usize {
    if windows_large_pages(platform, request) {
        platform.large_page_minimum
    } else {
        platform.allocation_granularity
    }
}

/// The granularity a request is aligned to on a platform.
pub open spec fn active_granularity(platform: Platform, request: MappingRequest) -> usize {
    match platform {
        Platform::Posix(p) => posix_granularity_of(p, request),
        Platform::Windows(w) => windows_granularity_of(w, request),
    }
}

/// Selects the granularity of a descriptor platform for a request.
pub fn posix_granularity(platform: &PosixPlatform, request: &MappingRequest) -> (g: usize)
    ensures
        g == posix_granularity_of(*platform, *request),
        platform.page_size > 0 ==> g > 0,
{
    if request.huge_page {
        if request.huge_page_1gb {
            HUGE_PAGE_1GB
        } else {
            HUGE_PAGE_2MB
        }
    } else {
        platform.page_size
    }
}

/// Selects the granularity of a handle platform for a request.
pub fn windows_granularity(platform: &WindowsPlatform, request: &MappingRequest) -> (g: usize)
    ensures
        g == windows_granularity_of(*platform, *request),
        platform.allocation_granularity > 0 ==> g > 0,
{
    if request.huge_page && platform.large_page_minimum != 0 {
        platform.large_page_minimum
    } else {
        platform.allocation_granularity
    }
}

/// On a well-formed platform the granularity of every request is positive.
pub proof fn lemma_granularity_positive(platform: Platform, request: MappingRequest)
    requires
        platform.well_formed(),
    ensures
        active_granularity(platform, request) > 0,
{
}

/// What a cache holds after `probed` was published to a cache that held
/// `before`: what it held, where it held something; the probed value
/// otherwise, unless that is zero, which publishes nothing.
pub open spec fn after_publishing(before: Option<usize>, probed: usize) -> Option<usize> {
    match before {
        Some(first) => Some(first),
        None => if probed == 0 {
            None
        } else {
            Some(probed)
        },
    }
}

/// The value a publisher is handed: the one already in the cache where
/// there is one, its own otherwise.
pub open spec fn handed_out(before: Option<usize>, probed: usize) -> usize {
    match before {
        Some(first) => first,
        None => probed,
    }
}

/// The granularity of the platform once it has been probed.
///
/// The cache starts out empty. The first value published stays: whoever
/// publishes later is handed the value that is already there, so that all
/// readers converge on one value without a lock. Zero stands for "not
/// probed yet" and is never a published value.
#[derive(Clone, Copy, Debug, PartialEq, Eq)]
pub struct GranularityCache {
    value: usize,
}

impl GranularityCache {
    /// The published value, if there is one. It is never zero.
    pub closed spec fn published(self) -> Option<usize> {
        if self.value == 0 {
            None
        } else {
            Some(self.value)
        }
    }

    /// A cache in which nothing is published.
    pub fn new() -> (cache: GranularityCache)
        ensures
            cache.published() is None,
    {
        GranularityCache { value: 0 }
    }

    /// A cache holding the content of a shared word, in which zero stands
    /// for "nothing published".
    pub fn from_word(word: usize) -> (cache: GranularityCache)
        ensures
            cache.published() == (if word == 0 {
                None::<usize>
            } else {
                Some(word)
            }),
    {
        GranularityCache { value: word }
    }

    /// The content of the cache as a shared word.
    pub fn to_word(&self) -> (word: usize)
        ensures
            word == (match self.published() {
                Some(v) => v,
                None => 0usize,
            }),
    {
        self.value
    }

    /// The published value, or `None` where the platform still has to be
    /// probed.
    pub fn get(&self) -> (value: Option<usize>)
        ensures
            value == self.published(),
            value matches Some(v) ==> v != 0,
    {
        if self.value == 0 {
            None
        } else {
            Some(self.value)
        }
    }

    /// Publishes a probed value and returns the value to use from now on:
    /// the one already in the cache where there is one, the probed one
    /// otherwise. A probe that yields zero publishes nothing.
    pub fn publish(&mut self, probed: usize) -> (value: usize)
        ensures
            value == handed_out(old(self).published(), probed),
            final(self).published() == after_publishing(old(self).published(), probed),
    {
        if self.value == 0 {
            self.value = probed;
        }
        self.value
    }
}

/// The first value published wins: once a publisher has been handed a
/// value other than zero, every later publisher is handed that value,
/// whatever it probed, and the cache keeps holding it.
pub proof fn lemma_first_published_wins(before: Option<usize>, first: usize, later: usize)
    requires
        handed_out(before, first) != 0,
    ensures
        after_publishing(before, first) == Some(handed_out(before, first)),
        handed_out(after_publishing(before, first), later) == handed_out(before, first),
        after_publishing(after_publishing(before, first), later) == after_publishing(
            before,
            first,
        ),
{
}

} // verus!
