//! The operating systems the tool runs on.
use vstd::prelude::*;
use crate::text::same_text;

verus! {

/// Whether `os` is one of `supported`.
pub fn is_supported_os(supported: &Vec<&str>, os: &str) -> (r: bool)
    ensures
        r == exists|i: int| 0 <= i < supported@.len() && supported@[i]@ == os@,
{
    let mut i: usize = 0;
    while i < supported.len()
        invariant
            i <= supported@.len(),
            forall|j: int| 0 <= j < i ==> supported@[j]@ != os@,
        decreases supported.len() - i,
    {
        if same_text(supported[i], os) {
            return true;
        }
        i += 1;
    }
    false
}

} // verus!
