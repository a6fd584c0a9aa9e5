//! The form of a backend address: a scheme, the separator `://`, and what the
//! scheme leads to.

use vstd::prelude::*;

verus! {

/// Whether the separator `://` stands in `url` at position `i`.
pub open spec fn separator_at(url: Seq<u8>, i: int) -> bool {
    &&& 0 <= i
    &&& i + 3 <= url.len()
    &&& url[i] == 0x3a
    &&& url[i + 1] == 0x2f
    &&& url[i + 2] == 0x2f
}

/// Whether the first separator of `url` stands at position `i`.
pub open spec fn first_separator(url: Seq<u8>, i: int) -> bool {
    &&& separator_at(url, i)
    &&& forall|j: int| 0 <= j < i ==> !separator_at(url, j)
}

/// Whether `url` is well formed: it holds a separator, and both the scheme
/// before the first one and the rest behind it are not empty.
pub open spec fn names_endpoint(url: Seq<u8>) -> bool {
    exists|i: int| first_separator(url, i) && 0 < i && i + 3 < url.len()
}

/// Decides whether an address is well formed.
pub fn is_endpoint(url: &[u8]) -> (ok: bool)
    ensures
        ok == names_endpoint(url@),
{
    let n: usize = url.len();
    if n < 3 {
        return false;
    }
    let mut i: usize = 0;
    while i <= n - 3
        invariant
            n == url@.len(),
            n >= 3,
            forall|j: int| 0 <= j < i ==> !separator_at(url@, j),
        decreases n - i,
    {
        if url[i] == 0x3a && url[i + 1] == 0x2f && url[i + 2] == 0x2f {
            proof {
                let at: int = i as int;
                assert(first_separator(url@, at));
                assert forall|k: int| first_separator(url@, k) implies k == at by {
                    if k < at {
                        assert(!separator_at(url@, k));
                    } else if k > at {
                        assert(separator_at(url@, at));
                    }
                }
            }
            return 0 < i && i + 3 < n;
        }
        i += 1;
    }
    false
}

/// A well-formed address is at least five bytes long, and an address without
/// a separator is never well formed.
pub proof fn endpoint_has_scheme_and_rest(url: Seq<u8>)
    ensures
        names_endpoint(url) ==> url.len() >= 5,
        names_endpoint(url) ==> exists|i: int| 0 < i && separator_at(url, i),
        separator_at(url, 0) ==> !names_endpoint(url),
{
    if names_endpoint(url) {
        let i = choose|i: int| first_separator(url, i) && 0 < i && i + 3 < url.len();
        assert(0 < i && separator_at(url, i));
    }
}

} // verus!
