//! Checking advisory hints before they reach the system.

use vstd::prelude::*;
use crate::bits::{set_bits, with_bits};
use crate::error::MmapError;
use crate::platform::AdviceCodes;
use crate::request::MappingRequest;

verus! {

/// Whether more than one of the access-pattern hints is set.
pub open spec fn pattern_conflict(request: MappingRequest) -> bool {
    ||| request.advise_normal && request.advise_sequential
    ||| request.advise_normal && request.advise_random
    ||| request.advise_sequential && request.advise_random
}

/// Whether the hints of a request exclude each other: both of the
/// residency hints, or more than one of the access-pattern hints.
pub open spec fn conflicting(request: MappingRequest) -> bool {
    (request.advise_willneed && request.advise_dontneed) || pattern_conflict(request)
}

/// The codes of the hints a request sets, combined into one word.
pub open spec fn advice_word(codes: AdviceCodes, request: MappingRequest) -> i32 {
    let w0 = with_bits(0, request.advise_dontneed, codes.dontneed);
    let w1 = with_bits(w0, request.advise_willneed, codes.willneed);
    let w2 = with_bits(w1, request.advise_normal, codes.normal);
    let w3 = with_bits(w2, request.advise_sequential, codes.sequential);
    with_bits(w3, request.advise_random, codes.random)
}

/// Whether the hints of a request exclude each other.
pub fn has_conflict(request: &MappingRequest) -> (conflict: bool)
    ensures
        conflict == conflicting(*request),
{
    (request.advise_willneed && request.advise_dontneed) || (request.advise_normal
        && request.advise_sequential) || (request.advise_normal && request.advise_random) || (
    request.advise_sequential && request.advise_random)
}

/// Validates the hints of a request and combines their codes.
///
/// Fails with `ConflictingAdvice` exactly when the hints exclude each
/// other; otherwise the result is the combination of the codes of the hints
/// that are set, to be applied once the region is mapped.
pub fn validate(codes: &AdviceCodes, request: &MappingRequest) -> (r: Result<i32, MmapError>)
    ensures
        r == (if conflicting(*request) {
            Err::<i32, MmapError>(MmapError::ConflictingAdvice)
        } else {
            Ok(advice_word(*codes, *request))
        }),
{
    if has_conflict(request) {
        return Err(MmapError::ConflictingAdvice);
    }
    let word = set_bits(0, request.advise_dontneed, codes.dontneed);
    let word = set_bits(word, request.advise_willneed, codes.willneed);
    let word = set_bits(word, request.advise_normal, codes.normal);
    let word = set_bits(word, request.advise_sequential, codes.sequential);
    Ok(set_bits(word, request.advise_random, codes.random))
}

/// A request that sets a single hint is advised with exactly that hint's
/// code, and one that sets none with the empty word.
pub proof fn lemma_single_hint(codes: AdviceCodes, request: MappingRequest)
    ensures
        !request.advise_dontneed && !request.advise_willneed && !request.advise_normal
            && !request.advise_sequential && !request.advise_random ==> advice_word(
            codes,
            request,
        ) == 0,
        request.advise_dontneed && !request.advise_willneed && !request.advise_normal
            && !request.advise_sequential && !request.advise_random ==> advice_word(
            codes,
            request,
        ) == codes.dontneed,
        !request.advise_dontneed && request.advise_willneed && !request.advise_normal
            && !request.advise_sequential && !request.advise_random ==> advice_word(
            codes,
            request,
        ) == codes.willneed,
        !request.advise_dontneed && !request.advise_willneed && request.advise_normal
            && !request.advise_sequential && !request.advise_random ==> advice_word(
            codes,
            request,
        ) == codes.normal,
        !request.advise_dontneed && !request.advise_willneed && !request.advise_normal
            && request.advise_sequential && !request.advise_random ==> advice_word(
            codes,
            request,
        ) == codes.sequential,
        !request.advise_dontneed && !request.advise_willneed && !request.advise_normal
            && !request.advise_sequential && request.advise_random ==> advice_word(
            codes,
            request,
        ) == codes.random,
{
    let (d, w, n, s, r) = (
        codes.dontneed,
        codes.willneed,
        codes.normal,
        codes.sequential,
        codes.random,
    );
    assert(0i32 | d == d) by (bit_vector);
    assert(0i32 | w == w) by (bit_vector);
    assert(0i32 | n == n) by (bit_vector);
    assert(0i32 | s == s) by (bit_vector);
    assert(0i32 | r == r) by (bit_vector);
}

} // verus!
