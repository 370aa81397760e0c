//! Hashed cluster index: a strictly ascending array of cluster hashes beside an
//! index-aligned array of glyph record offsets.
use vstd::prelude::*;

verus! {

/// Every hash is smaller than every hash after it.
#[verifier::opaque]
pub open spec fn strictly_ascending(s: Seq<u32>) -> bool {
    forall|i: int, j: int| 0 <= i < j < s.len() ==> s[i] < s[j]
}

/// Every hash is smaller than the next one.
pub open spec fn ascending_pairs(s: Seq<u32>) -> bool {
    forall|i: int| 0 <= i < s.len() - 1 ==> #[trigger] s[i] < s[i + 1]
}

/// Whether `key` stands at position `i` of `hashes`.
pub open spec fn entry_at(hashes: Seq<u32>, key: u32, i: int) -> bool {
    0 <= i < hashes.len() && hashes[i] == key
}

/// The offset stored beside `key`, or `None` where no entry holds `key`.
pub open spec fn lookup(hashes: Seq<u32>, offsets: Seq<usize>, key: u32) -> Option<usize> {
    if exists|i: int| entry_at(hashes, key, i) {
        Some(offsets[choose|i: int| entry_at(hashes, key, i)])
    } else {
        None
    }
}

/// Ascending neighbours make the whole sequence strictly ascending.
pub proof fn lemma_pairs_make_ascending(s: Seq<u32>)
    requires
        ascending_pairs(s),
    ensures
        strictly_ascending(s),
{
    reveal(strictly_ascending);
    assert forall|i: int, j: int| 0 <= i < j < s.len() implies s[i] < s[j] by {
        lemma_ascending_from(s, i, j);
    }
}

proof fn lemma_ascending_from(s: Seq<u32>, i: int, j: int)
    requires
        ascending_pairs(s),
        0 <= i < j < s.len(),
    ensures
        s[i] < s[j],
    decreases j - i,
{
    assert(s[j - 1] < s[j]);
    if i < j - 1 {
        lemma_ascending_from(s, i, j - 1);
    }
}

/// In a strictly ascending index, the entry at `i` is the one that `lookup`
/// finds for its own hash.
pub proof fn lemma_lookup_entry(hashes: Seq<u32>, offsets: Seq<usize>, i: int)
    requires
        strictly_ascending(hashes),
        0 <= i < hashes.len(),
    ensures
        lookup(hashes, offsets, hashes[i]) == Some(offsets[i]),
{
    reveal(strictly_ascending);
    assert(entry_at(hashes, hashes[i], i));
    let j = choose|j: int| entry_at(hashes, hashes[i], j);
    if j < i {
        assert(hashes[j] < hashes[i]);
    } else if i < j {
        assert(hashes[i] < hashes[j]);
    }
}

/// Binary search of a strictly ascending hash array for `key`; returns the
/// offset at the same position.
pub fn find_offset(hashes: &[u32], offsets: &[usize], key: u32) -> (r: Option<usize>)
    requires
        strictly_ascending(hashes@),
        hashes@.len() == offsets@.len(),
    ensures
        r == lookup(hashes@, offsets@, key),
{
    let mut lo: usize = 0;
    let mut hi: usize = hashes.len();
    while lo < hi
        invariant
            strictly_ascending(hashes@),
            hashes@.len() == offsets@.len(),
            lo <= hi <= hashes@.len(),
            forall|i: int| 0 <= i < lo ==> hashes@[i] < key,
            forall|i: int| hi <= i < hashes@.len() ==> key < hashes@[i],
        decreases hi - lo,
    {
        proof {
            reveal(strictly_ascending);
        }
        let mid = lo + (hi - lo) / 2;
        let h = hashes[mid];
        if h == key {
            proof {
                lemma_lookup_entry(hashes@, offsets@, mid as int);
            }
            return Some(offsets[mid]);
        } else if h < key {
            lo = mid + 1;
        } else {
            hi = mid;
        }
    }
    assert(!exists|i: int| entry_at(hashes@, key, i));
    None
}

} // verus!
