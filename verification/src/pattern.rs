//! Masked byte-signature matching over a byte region.
//!
//! A signature is an ordered list of slots; each slot holds a byte value and a
//! significance flag.  A significant slot matches only its own byte value; an
//! insignificant slot is a wildcard and matches any byte.  Scanning slides the
//! signature across a region and stops at the first (leftmost) offset where
//! every significant slot matches.

use vstd::prelude::*;

verus! {

/// A masked byte signature: (byte value, is significant) per slot.
pub struct Pattern(pub Vec<(u8, bool)>);

impl View for Pattern {
    type V = Seq<(u8, bool)>;

    open spec fn view(&self) -> Seq<(u8, bool)> {
        self.0@
    }
}

impl Pattern {
    /// A signature is defined at load time and is never empty.
    pub open spec fn wf(&self) -> bool {
        self@.len() > 0
    }

    pub fn len(&self) -> (n: usize)
        ensures
            n == self@.len(),
    {
        self.0.len()
    }

    /// Does every significant slot of the signature equal the region byte at
    /// `offset` plus the slot position?
    pub fn compare(&self, region: &Vec<u8>, offset: usize) -> (r: bool)
        requires
            offset + self@.len() <= region@.len(),
        ensures
            r == matches_at(region@, self@, offset as int),
    {
        let n = self.0.len();
        let rl = region.len();
        for i in 0..n
            invariant
                n == self@.len(),
                rl == region@.len(),
                offset + n <= rl,
                forall|j: int|
                    0 <= j < i && (#[trigger] self@[j]).1 ==> region@[offset + j] == self@[j].0,
        {
            let (b, significant) = self.0[i];
            if significant && region[offset + i] != b {
                return false;
            }
        }
        true
    }
}

/// Does the signature match the region at the given offset?  Free-function
/// form of [`Pattern::compare`].
pub fn compare(region: &Vec<u8>, offset: usize, pat: &Pattern) -> (r: bool)
    requires
        offset + pat@.len() <= region@.len(),
    ensures
        r == matches_at(region@, pat@, offset as int),
{
    pat.compare(region, offset)
}

/// The signature matches the region at offset `i`: the whole window lies
/// inside the region and every significant slot agrees with the region byte.
pub open spec fn matches_at(region: Seq<u8>, pat: Seq<(u8, bool)>, i: int) -> bool {
    &&& 0 <= i
    &&& i + pat.len() <= region.len()
    &&& forall|j: int| 0 <= j < pat.len() && (#[trigger] pat[j]).1 ==> region[i + j] == pat[j].0
}

/// The first offset at or after `i` where the signature matches, if any.
pub open spec fn first_match_from(region: Seq<u8>, pat: Seq<(u8, bool)>, i: int) -> Option<int>
    decreases region.len() - i,
{
    if i + pat.len() > region.len() {
        None
    } else if matches_at(region, pat, i) {
        Some(i)
    } else {
        first_match_from(region, pat, i + 1)
    }
}

/// The leftmost offset where the signature matches the region, if any.
pub open spec fn spec_find(region: Seq<u8>, pat: Seq<(u8, bool)>) -> Option<int> {
    first_match_from(region, pat, 0)
}

/// What a successful scan means: the reported offset matches, and no earlier
/// offset does (the scan is leftmost-first).
pub proof fn lemma_first_match_some(region: Seq<u8>, pat: Seq<(u8, bool)>, i: int, a: int)
    requires
        first_match_from(region, pat, i) == Some(a),
    ensures
        i <= a,
        matches_at(region, pat, a),
        forall|k: int| i <= k < a ==> !matches_at(region, pat, k),
    decreases region.len() - i,
{
    if i + pat.len() > region.len() {
    } else if matches_at(region, pat, i) {
    } else {
        lemma_first_match_some(region, pat, i + 1, a);
    }
}

/// What a failed scan means: no offset at or after `i` matches.
pub proof fn lemma_first_match_none(region: Seq<u8>, pat: Seq<(u8, bool)>, i: int)
    requires
        first_match_from(region, pat, i) is None,
    ensures
        forall|k: int| i <= k ==> !matches_at(region, pat, k),
    decreases region.len() - i,
{
    if i + pat.len() > region.len() {
    } else if matches_at(region, pat, i) {
    } else {
        lemma_first_match_none(region, pat, i + 1);
    }
}

/// A scan never reports a match for a signature longer than the region.
pub proof fn lemma_find_short_region(region: Seq<u8>, pat: Seq<(u8, bool)>)
    requires
        pat.len() > region.len(),
    ensures
        spec_find(region, pat) is None,
{
}

/// Scan `region` for the leftmost match of `pat`.
///
/// Returns the first offset whose window matches, or `None` when no window
/// matches (in particular whenever the signature is longer than the region).
/// Never reads outside `region`.
pub fn find(region: &Vec<u8>, pat: &Pattern) -> (r: Option<usize>)
    requires
        pat.wf(),
    ensures
        match r {
            Some(a) => spec_find(region@, pat@) == Some(a as int),
            None => spec_find(region@, pat@) is None,
        },
        pat@.len() > region@.len() ==> r is None,
{
    let n = pat.len();
    if n > region.len() {
        return None;
    }
    let end = region.len() - n;
    let mut i: usize = 0;
    while i <= end
        invariant
            n == pat@.len(),
            1 <= n <= region@.len(),
            end == region@.len() - n,
            end <= usize::MAX - 1,
            i <= end + 1,
            first_match_from(region@, pat@, 0) == first_match_from(region@, pat@, i as int),
        decreases end + 1 - i,
    {
        if pat.compare(region, i) {
            return Some(i);
        }
        assert(first_match_from(region@, pat@, i as int) == first_match_from(
            region@,
            pat@,
            i as int + 1,
        ));
        i = i + 1;
    }
    assert(first_match_from(region@, pat@, i as int) is None);
    None
}

} // verus!
