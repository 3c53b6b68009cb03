//! Validation of strings that are about to cross the native boundary.
//!
//! The native entry points take null-terminated byte strings, so a caller
//! string must not itself contain a null byte. In the UTF-8 encoding of a
//! Rust string a zero byte occurs exactly where the character U+0000
//! occurs, so scanning the characters for U+0000 finds every embedded
//! null byte.

use vstd::prelude::*;
use vstd::string::StrSliceExecFns;

verus! {

/// Whether the character sequence contains the null character U+0000,
/// and hence whether its UTF-8 encoding contains an embedded null byte.
pub open spec fn contains_nul(s: Seq<char>) -> bool {
    exists|i: int| 0 <= i < s.len() && s[i] == '\0'
}

/// Scans a string for an embedded null character. A string for which this
/// returns `true` cannot be represented as a null-terminated byte string
/// and must never be handed to the native library.
pub fn has_nul_char(s: &str) -> (b: bool)
    ensures
        b == contains_nul(s@),
{
    let n: usize = s.unicode_len();
    let mut i: usize = 0;
    while i < n
        invariant
            n == s@.len(),
            i <= n,
            forall|j: int| 0 <= j < i ==> s@[j] != '\0',
        decreases n - i,
    {
        if s.get_char(i) == '\0' {
            return true;
        }
        i = i + 1;
    }
    false
}

} // verus!
