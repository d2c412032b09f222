use crate::features::SLOTS;
use vstd::prelude::*;
use vstd::seq_lib::seq_to_set_is_finite;
use vstd::set_lib::{lemma_int_range, lemma_len_subset, lemma_subset_equality, set_int_range};

verus! {

/// Why a feature catalog does not fit the engine.
#[derive(Clone, Copy, Debug, PartialEq, Eq, Structural)]
pub enum CatalogDriftError {
    /// The catalog does not hold 256 entries.
    WrongCount,
    /// The greatest index in the catalog is not 255.
    WrongMaxIndex,
    /// Two entries of the catalog share an index.
    DuplicateIndex,
}

/// Whether `m` is the greatest index in `s`.
pub open spec fn is_max_index(s: Seq<usize>, m: usize) -> bool {
    &&& exists|i: int| 0 <= i < s.len() && s[i] == m
    &&& forall|i: int| 0 <= i < s.len() ==> s[i] <= m
}

/// Whether the indices `s` of a catalog fit the engine: 256 of them, no two
/// alike, the greatest being 255.
pub open spec fn valid(s: Seq<usize>) -> bool {
    &&& s.len() == SLOTS
    &&& is_max_index(s, (SLOTS - 1) as usize)
    &&& s.no_duplicates()
}

/// What is wrong with the indices `s`, if anything is. The count is looked
/// at first, then the greatest index, then duplicates.
pub open spec fn drift(s: Seq<usize>) -> Option<CatalogDriftError> {
    if s.len() != SLOTS {
        Some(CatalogDriftError::WrongCount)
    } else if !is_max_index(s, (SLOTS - 1) as usize) {
        Some(CatalogDriftError::WrongMaxIndex)
    } else if !s.no_duplicates() {
        Some(CatalogDriftError::DuplicateIndex)
    } else {
        None
    }
}

/// Whether each of the 256 slots is the index of some entry of `s`.
pub open spec fn covers_all_slots(s: Seq<usize>) -> bool {
    forall|k: usize| k < SLOTS ==> #[trigger] s.contains(k)
}

/// Checks the indices of a feature catalog, one per entry. They are
/// accepted if and only if there are 256 of them, no two alike, with 255 as
/// the greatest.
pub fn check_catalog(indices: &[usize]) -> (r: Result<(), CatalogDriftError>)
    ensures
        r is Ok <==> valid(indices@),
        r matches Err(e) ==> drift(indices@) == Some(e),
{
    if indices.len() != 256 {
        return Err(CatalogDriftError::WrongCount);
    }
    let mut top: bool = false;
    let ghost mut at: int = 0;
    let mut i: usize = 0;
    while i < 256
        invariant
            i <= 256,
            indices@.len() == 256,
            forall|j: int| 0 <= j < i ==> indices@[j] <= 255,
            top ==> 0 <= at < i && indices@[at] == 255,
            !top ==> forall|j: int| 0 <= j < i ==> indices@[j] != 255,
        decreases 256 - i,
    {
        if indices[i] > 255 {
            return Err(CatalogDriftError::WrongMaxIndex);
        }
        if indices[i] == 255 {
            top = true;
            proof {
                at = i as int;
            }
        }
        i += 1;
    }
    if !top {
        return Err(CatalogDriftError::WrongMaxIndex);
    }
    assert(is_max_index(indices@, 255));
    let mut seen = [false; 256];
    let mut i: usize = 0;
    while i < 256
        invariant
            i <= 256,
            indices@.len() == 256,
            is_max_index(indices@, 255),
            forall|j: int| 0 <= j < i ==> seen@[indices@[j] as int],
            forall|k: int|
                0 <= k < 256 && seen@[k] ==> exists|j: int| 0 <= j < i && indices@[j] == k,
            forall|a: int, b: int| 0 <= a < b < i ==> indices@[a] != indices@[b],
        decreases 256 - i,
    {
        let k: usize = indices[i];
        if seen[k] {
            proof {
                let j = choose|j: int| 0 <= j < i && indices@[j] == k;
                assert(indices@[j] == indices@[i as int] && j != i);
                assert(!indices@.no_duplicates());
            }
            return Err(CatalogDriftError::DuplicateIndex);
        }
        let ghost before = seen@;
        seen[k] = true;
        proof {
            assert forall|n: int| 0 <= n < 256 && seen@[n] implies exists|j: int|
                0 <= j < i + 1 && indices@[j] == n by {
                if n == k {
                    assert(indices@[i as int] == n);
                } else {
                    assert(before[n]);
                    let j = choose|j: int| 0 <= j < i && indices@[j] == n;
                    assert(0 <= j < i + 1 && indices@[j] == n);
                }
            }
        }
        i += 1;
    }
    Ok(())
}

/// The indices of `s` as integers.
pub open spec fn as_ints(s: Seq<usize>) -> Seq<int> {
    s.map_values(|x: usize| x as int)
}

/// A catalog fits the engine if and only if it has 256 entries and each of
/// the slots 0 to 255 is the index of one of them. Each slot is then the
/// index of exactly one entry, and no entry lies outside the slots.
pub proof fn lemma_valid_catalog_is_permutation(s: Seq<usize>)
    ensures
        valid(s) <==> s.len() == SLOTS && covers_all_slots(s),
        valid(s) ==> forall|i: int| 0 <= i < s.len() ==> s[i] < SLOTS,
{
    let m = as_ints(s);
    let range = set_int_range(0, 256);
    lemma_int_range(0, 256);
    seq_to_set_is_finite(m);
    assert(m.len() == s.len());
    if valid(s) {
        assert forall|i: int, j: int|
            0 <= i < m.len() && 0 <= j < m.len() && i != j implies m[i] != m[j] by {
            assert(s[i] != s[j]);
        }
        m.unique_seq_to_set();
        assert forall|x: int| m.to_set().contains(x) implies range.contains(x) by {
            let i = choose|i: int| 0 <= i < m.len() && m[i] == x;
            assert(s[i] <= 255);
        }
        lemma_subset_equality(m.to_set(), range);
        assert forall|k: usize| k < SLOTS implies #[trigger] s.contains(k) by {
            assert(range.contains(k as int));
            assert(m.to_set().contains(k as int));
            let i = choose|i: int| 0 <= i < m.len() && m[i] == k as int;
            assert(s[i] == k);
        }
    }
    if s.len() == SLOTS && covers_all_slots(s) {
        assert forall|x: int| range.contains(x) implies m.to_set().contains(x) by {
            let k = x as usize;
            assert(s.contains(k));
            let i = choose|i: int| 0 <= i < s.len() && s[i] == k;
            assert(m[i] == x);
        }
        m.lemma_cardinality_of_set();
        lemma_len_subset(range, m.to_set());
        m.lemma_no_dup_set_cardinality();
        assert forall|i: int, j: int|
            0 <= i < s.len() && 0 <= j < s.len() && i != j implies s[i] != s[j] by {
            assert(m[i] != m[j]);
        }
        lemma_subset_equality(range, m.to_set());
        assert forall|i: int| 0 <= i < s.len() implies s[i] <= 255 by {
            assert(m.to_set().contains(m[i]));
            assert(range.contains(m[i]));
        }
        assert(s.contains(255usize));
        let top = choose|i: int| 0 <= i < s.len() && s[i] == 255usize;
        assert(0 <= top < s.len() && s[top] == 255usize);
    }
}

} // verus!
