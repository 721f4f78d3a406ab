//! The name of the privilege that large pages need, in the form the system
//! takes it.

use vstd::prelude::*;

verus! {

/// Whether every character of a text is an ASCII character other than NUL.
pub open spec fn plain(text: Seq<char>) -> bool {
    forall|i: int| 0 <= i < text.len() ==> 1 <= #[trigger] (text[i] as u32) <= 0x7f
}

/// A plain text as a NUL-terminated string of 16-bit units: the code of
/// each character, then a zero.
pub open spec fn wide_nul_terminated(text: Seq<char>) -> Seq<u16> {
    Seq::new(
        text.len() + 1,
        |i: int|
            if i < text.len() {
                text[i] as u16
            } else {
                0u16
            },
    )
}

/// Encodes a text as a NUL-terminated wide string with
/// `widestring::U16CString::from_str` and hands out its units, terminator
/// included. The encoding is UTF-16, which for a text of ASCII characters
/// other than NUL is the code of each character; such a text has no
/// interior NUL, so it is never refused, and the terminator is appended to
/// it. Of other texts the contract says nothing.
#[verifier::external_body]
fn encode_wide(text: &str) -> (wide: Option<Vec<u16>>)
    ensures
        plain(text@) ==> wide is Some && wide->Some_0@ == wide_nul_terminated(text@),
{
    match widestring::U16CString::from_str(text) {
        Ok(encoded) => Some(encoded.into_vec_with_nul()),
        Err(_) => None,
    }
}

/// The name of the lock-memory privilege.
pub open spec fn lock_memory_name() -> Seq<char> {
    "SeLockMemoryPrivilege"@
}

/// The name of the lock-memory privilege as the NUL-terminated wide string
/// the privilege lookup takes.
pub fn lock_memory_privilege_name() -> (name: Vec<u16>)
    ensures
        name@ == wide_nul_terminated(lock_memory_name()),
        name@.len() == 22,
        name@[21] == 0,
{
    proof {
        reveal_strlit("SeLockMemoryPrivilege");
        assert(plain("SeLockMemoryPrivilege"@));
    }
    match encode_wide("SeLockMemoryPrivilege") {
        Some(name) => name,
        None => Vec::new(),
    }
}

} // verus!
