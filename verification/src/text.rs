//! Small verified string utilities shared by the other modules.

use vstd::prelude::*;
use vstd::string::StrSliceExecFns;
use vstd::string::StringExecFns;

verus! {

/// Character-for-character equality of two string slices.
pub fn str_eq(a: &str, b: &str) -> (r: bool)
    ensures
        r == (a@ == b@),
{
    let n = a.unicode_len();
    if n != b.unicode_len() {
        return false;
    }
    let mut i: usize = 0;
    while i < n
        invariant
            n == a@.len(),
            n == b@.len(),
            i <= n,
            forall|j: int| 0 <= j < i ==> a@[j] == b@[j],
        decreases n - i,
    {
        if a.get_char(i) != b.get_char(i) {
            return false;
        }
        i += 1;
    }
    proof {
        assert(a@ =~= b@);
    }
    true
}

/// Builds the URL for a registry endpoint: the base, a slash, the path.
pub fn request_url(base_url: &str, endpoint: &str) -> (r: String)
    ensures
        r@ == base_url@ + "/"@ + endpoint@,
{
    let mut url = String::from_str(base_url);
    url.append("/");
    url.append(endpoint);
    url
}

} // verus!
