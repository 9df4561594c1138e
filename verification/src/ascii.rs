//! Case-insensitive ASCII substring search, used by the event and
//! module filters.

use vstd::prelude::*;
use vstd::string::StringSliceAdditionalSpecFns;

verus! {

/// ASCII lower-casing of one byte; other bytes are unchanged.
pub open spec fn spec_ascii_lower(b: u8) -> u8 {
    if 65 <= b <= 90 {
        (b + 32) as u8
    } else {
        b
    }
}

pub fn ascii_lower(b: u8) -> (r: u8)
    ensures
        r == spec_ascii_lower(b),
{
    if 65 <= b && b <= 90 {
        b + 32
    } else {
        b
    }
}

/// The needle matches the haystack at `start`, ignoring ASCII case.
pub open spec fn spec_matches_at(h: Seq<u8>, n: Seq<u8>, start: int) -> bool {
    &&& 0 <= start
    &&& start + n.len() <= h.len()
    &&& forall|i: int|
        0 <= i < n.len() ==> spec_ascii_lower(h[start + i]) == spec_ascii_lower(#[trigger] n[i])
}

/// The needle occurs somewhere in the haystack, ignoring ASCII case. An
/// empty needle occurs in every haystack.
pub open spec fn spec_contains_ci(h: Seq<u8>, n: Seq<u8>) -> bool {
    exists|start: int| #[trigger] spec_matches_at(h, n, start)
}

/// Whether `needle` occurs in `haystack`, comparing bytes with ASCII
/// case folded.
pub fn contains_ignore_ascii_case(haystack: &str, needle: &str) -> (r: bool)
    ensures
        r == spec_contains_ci(haystack.spec_bytes(), needle.spec_bytes()),
{
    let hay = haystack.as_bytes();
    let nee = needle.as_bytes();
    if nee.len() == 0 {
        proof {
            assert(spec_matches_at(hay@, nee@, 0));
        }
        return true;
    }
    if nee.len() > hay.len() {
        proof {
            assert(forall|start: int| !spec_matches_at(hay@, nee@, start));
        }
        return false;
    }

    let mut start: usize = 0;
    while start <= hay.len() - nee.len()
        invariant
            hay@ == haystack.spec_bytes(),
            nee@ == needle.spec_bytes(),
            nee.len() >= 1,
            nee.len() <= hay.len(),
            start <= hay.len(),
            forall|s: int| 0 <= s < start ==> !spec_matches_at(hay@, nee@, s),
        decreases hay.len() - start,
    {
        let mut i: usize = 0;
        let mut matched: bool = true;
        while i < nee.len() && matched
            invariant
                nee.len() <= hay.len(),
                start + nee.len() <= hay.len(),
                i <= nee.len(),
                matched ==> forall|k: int|
                    0 <= k < i ==> spec_ascii_lower(hay@[start + k]) == spec_ascii_lower(
                        #[trigger] nee@[k],
                    ),
                !matched ==> !spec_matches_at(hay@, nee@, start as int),
            decreases nee.len() - i + (if matched {
                1int
            } else {
                0int
            }),
        {
            if ascii_lower(hay[start + i]) != ascii_lower(nee[i]) {
                matched = false;
            } else {
                i += 1;
            }
        }
        if matched {
            proof {
                assert(spec_matches_at(hay@, nee@, start as int));
            }
            return true;
        }
        start += 1;
    }
    proof {
        assert forall|s: int| !spec_matches_at(hay@, nee@, s) by {
            if 0 <= s && s + nee@.len() <= hay@.len() {
                assert(s < start);
            }
        }
    }
    false
}

} // verus!
