use vstd::prelude::*;

use crate::access::{Mutability, StorageId, TypeInfo, TypeInfoV};
use crate::error::InvalidSystem;

verus! {

/// Whether one access record is the reserved "entire storage set, Exclusive"
/// sentinel: the empty label, the reserved storage identifier, exclusive
/// access, and both capability flags set.
pub open spec fn spec_is_all_storages_entry(t: TypeInfoV) -> bool {
    &&& t.name.len() == 0
    &&& t.storage_id == StorageId::AllStorages
    &&& t.mutability == Mutability::Exclusive
    &&& t.is_send
    &&& t.is_sync
}

/// Decides [`spec_is_all_storages_entry`] on a concrete record.
pub fn is_all_storages_entry(t: &TypeInfo) -> (r: bool)
    ensures
        r == spec_is_all_storages_entry(t@),
{
    t.name.as_str().is_empty() && matches!(t.storage_id, StorageId::AllStorages) && matches!(
        t.mutability,
        Mutability::Exclusive,
    ) && t.is_send && t.is_sync
}

/// An access list conflicts with the whole-set sentinel when it contains the
/// sentinel and more than one entry in total, regardless of where the extra
/// entry appears.
pub open spec fn has_all_storages_conflict(s: Seq<TypeInfoV>) -> bool {
    s.len() > 1 && exists|i: int| 0 <= i < s.len() && spec_is_all_storages_entry(#[trigger] s[i])
}

/// The split point of the pairwise check: entries at indices below
/// `mid_of(len)` form the first half, the rest the second half.
pub open spec fn mid_of(len: int) -> int {
    (len + 1) / 2
}

/// What a pair of access records sharing a storage identifier amounts to:
/// two exclusive accesses or a shared/exclusive mix conflict; two shared
/// accesses, or accesses to different storages, do not.
pub open spec fn pair_conflict(a: TypeInfoV, b: TypeInfoV) -> Option<InvalidSystem> {
    if a.storage_id == b.storage_id {
        match (a.mutability, b.mutability) {
            (Mutability::Exclusive, Mutability::Exclusive) => Some(InvalidSystem::MultipleViewsMut),
            (Mutability::Shared, Mutability::Shared) => None,
            _ => Some(InvalidSystem::MultipleViews),
        }
    } else {
        None
    }
}

/// The first conflict, in scan order, between the first-half entry at `i`
/// and the second-half entries from `j` on.
pub open spec fn row_first_conflict(s: Seq<TypeInfoV>, i: int, j: int) -> Option<InvalidSystem>
    decreases s.len() - j,
{
    if j < 0 || j >= s.len() {
        None
    } else if pair_conflict(s[i], s[j]) is Some {
        pair_conflict(s[i], s[j])
    } else {
        row_first_conflict(s, i, j + 1)
    }
}

/// The first conflict, in scan order, over all pairs whose first element is
/// a first-half entry at index `i` or later and whose second element is in
/// the second half.
pub open spec fn cross_first_conflict(s: Seq<TypeInfoV>, i: int) -> Option<InvalidSystem>
    decreases mid_of(s.len() as int) - i,
{
    if i < 0 || i >= mid_of(s.len() as int) {
        None
    } else {
        match row_first_conflict(s, i, mid_of(s.len() as int)) {
            Some(e) => Some(e),
            None => cross_first_conflict(s, i + 1),
        }
    }
}

/// Whether any first-half entry conflicts with any second-half entry.
/// Conflicts entirely within one half are not considered: this is an
/// intentional, documented limitation of the validator.
pub open spec fn has_cross_conflict(s: Seq<TypeInfoV>) -> bool {
    exists|a: int, b: int|
        0 <= a < mid_of(s.len() as int) && mid_of(s.len() as int) <= b < s.len() && pair_conflict(
            #[trigger] s[a],
            #[trigger] s[b],
        ) is Some
}

/// What the validator decides for an access list: the whole-set sentinel
/// check first, then the first cross-half conflict in scan order, else
/// acceptance.
pub open spec fn validate_spec(s: Seq<TypeInfoV>) -> Result<(), InvalidSystem> {
    if has_all_storages_conflict(s) {
        Err(InvalidSystem::AllStorages)
    } else {
        match cross_first_conflict(s, 0) {
            Some(e) => Err(e),
            None => Ok(()),
        }
    }
}

proof fn lemma_row_none_iff(s: Seq<TypeInfoV>, i: int, j: int)
    requires
        0 <= j,
    ensures
        row_first_conflict(s, i, j) is None <==> forall|k: int|
            j <= k < s.len() ==> pair_conflict(s[i], #[trigger] s[k]) is None,
    decreases s.len() - j,
{
    if j >= s.len() {
    } else {
        lemma_row_none_iff(s, i, j + 1);
    }
}

proof fn lemma_cross_none_iff(s: Seq<TypeInfoV>, i: int)
    requires
        0 <= i,
    ensures
        cross_first_conflict(s, i) is None <==> forall|a: int, b: int|
            i <= a < mid_of(s.len() as int) && mid_of(s.len() as int) <= b < s.len()
                ==> pair_conflict(#[trigger] s[a], #[trigger] s[b]) is None,
    decreases mid_of(s.len() as int) - i,
{
    if i >= mid_of(s.len() as int) {
    } else {
        lemma_row_none_iff(s, i, mid_of(s.len() as int));
        lemma_cross_none_iff(s, i + 1);
    }
}

/// The validator accepts an access list exactly when it neither conflicts
/// with the whole-set sentinel nor holds a cross-half conflict.
pub proof fn lemma_validate_ok_iff(s: Seq<TypeInfoV>)
    ensures
        validate_spec(s) is Ok <==> !has_all_storages_conflict(s) && !has_cross_conflict(s),
{
    lemma_cross_none_iff(s, 0);
}

/// The empty access list is always accepted.
pub proof fn lemma_validate_empty()
    ensures
        validate_spec(Seq::<TypeInfoV>::empty()) is Ok,
{
    lemma_validate_ok_iff(Seq::<TypeInfoV>::empty());
}

proof fn lemma_row_some_is_pair(s: Seq<TypeInfoV>, i: int, j: int)
    requires
        0 <= j,
    ensures
        (match row_first_conflict(s, i, j) {
            Some(e) => exists|k: int|
                j <= k < s.len() && pair_conflict(s[i], #[trigger] s[k]) == Some(e),
            None => true,
        }),
    decreases s.len() - j,
{
    if j >= s.len() {
    } else if pair_conflict(s[i], s[j]) is Some {
        assert(pair_conflict(s[i], s[j]) == Some(row_first_conflict(s, i, j)->Some_0));
    } else {
        lemma_row_some_is_pair(s, i, j + 1);
    }
}

proof fn lemma_cross_some_is_pair(s: Seq<TypeInfoV>, i: int)
    requires
        0 <= i,
    ensures
        (match cross_first_conflict(s, i) {
            Some(e) => exists|x: int, y: int|
                i <= x < mid_of(s.len() as int) && mid_of(s.len() as int) <= y < s.len()
                    && pair_conflict(#[trigger] s[x], #[trigger] s[y]) == Some(e),
            None => true,
        }),
    decreases mid_of(s.len() as int) - i,
{
    if i >= mid_of(s.len() as int) {
    } else {
        lemma_row_some_is_pair(s, i, mid_of(s.len() as int));
        lemma_cross_none_iff(s, i + 1);
        lemma_cross_some_is_pair(s, i + 1);
    }
}

/// A system whose sole access entry is the whole-set sentinel is accepted:
/// the sentinel check requires a second entry, and a one-entry list has no
/// cross-half pair.
pub proof fn lemma_sole_all_storages_entry_accepted(s: Seq<TypeInfoV>)
    requires
        s.len() == 1,
        spec_is_all_storages_entry(s[0]),
    ensures
        validate_spec(s) is Ok,
{
    lemma_validate_ok_iff(s);
}

/// The whole-set exclusive sentinel beside any second entry, of any mode and
/// on any storage, is rejected with `AllStorages`, regardless of which half
/// either entry lands in.
pub proof fn lemma_all_storages_beside_any_other_rejected(s: Seq<TypeInfoV>, i: int)
    requires
        s.len() > 1,
        0 <= i < s.len(),
        spec_is_all_storages_entry(s[i]),
    ensures
        validate_spec(s) == Err::<(), InvalidSystem>(InvalidSystem::AllStorages),
{
}

/// Any two access descriptors sharing a storage identifier, not both
/// `Shared`, landing in opposite halves of the split, make construction
/// fail: with `MultipleViewsMut` or `MultipleViews`, whichever the first
/// conflicting pair in scan order decides.
pub proof fn lemma_cross_half_conflict_rejected(s: Seq<TypeInfoV>, a: int, b: int)
    requires
        !has_all_storages_conflict(s),
        0 <= a < mid_of(s.len() as int),
        mid_of(s.len() as int) <= b < s.len(),
        s[a].storage_id == s[b].storage_id,
        s[a].mutability == Mutability::Exclusive || s[b].mutability == Mutability::Exclusive,
    ensures
        validate_spec(s) == Err::<(), InvalidSystem>(InvalidSystem::MultipleViewsMut)
            || validate_spec(s) == Err::<(), InvalidSystem>(InvalidSystem::MultipleViews),
{
    assert(pair_conflict(s[a], s[b]) is Some);
    match cross_first_conflict(s, 0) {
        None => {
            lemma_cross_none_iff(s, 0);
            assert(pair_conflict(s[a], s[b]) is None);
        },
        Some(e) => {
            lemma_cross_some_is_pair(s, 0);
            let (x, y) = choose|x: int, y: int|
                0 <= x < mid_of(s.len() as int) && mid_of(s.len() as int) <= y < s.len()
                    && pair_conflict(#[trigger] s[x], #[trigger] s[y]) == Some(e);
            assert(e == InvalidSystem::MultipleViewsMut || e == InvalidSystem::MultipleViews);
        },
    }
}

/// Two access descriptors sharing a storage identifier, both `Exclusive`,
/// landing in opposite halves of the split, make construction fail with
/// `MultipleViewsMut` — provided the sentinel check does not pre-empt the
/// pairwise one, and every conflicting cross-half pair is of this
/// exclusive/exclusive shape (a mixed pair met earlier in the scan would
/// decide the error instead).
pub proof fn lemma_cross_half_exclusive_pair_rejected(s: Seq<TypeInfoV>, a: int, b: int)
    requires
        !has_all_storages_conflict(s),
        0 <= a < mid_of(s.len() as int),
        mid_of(s.len() as int) <= b < s.len(),
        s[a].storage_id == s[b].storage_id,
        s[a].mutability == Mutability::Exclusive,
        s[b].mutability == Mutability::Exclusive,
        forall|x: int, y: int|
            0 <= x < mid_of(s.len() as int) && mid_of(s.len() as int) <= y < s.len()
                && pair_conflict(#[trigger] s[x], #[trigger] s[y]) is Some ==> s[x].mutability
                == Mutability::Exclusive && s[y].mutability == Mutability::Exclusive,
    ensures
        validate_spec(s) == Err::<(), InvalidSystem>(InvalidSystem::MultipleViewsMut),
{
    assert(pair_conflict(s[a], s[b]) is Some);
    match cross_first_conflict(s, 0) {
        None => {
            lemma_cross_none_iff(s, 0);
            assert(pair_conflict(s[a], s[b]) is None);
        },
        Some(e) => {
            lemma_cross_some_is_pair(s, 0);
            let (x, y) = choose|x: int, y: int|
                0 <= x < mid_of(s.len() as int) && mid_of(s.len() as int) <= y < s.len()
                    && pair_conflict(#[trigger] s[x], #[trigger] s[y]) == Some(e);
            assert(e == InvalidSystem::MultipleViewsMut);
        },
    }
}

/// Two access descriptors sharing a storage identifier, one `Shared` and one
/// `Exclusive`, landing in opposite halves of the split, make construction
/// fail with `MultipleViews` — provided the sentinel check does not pre-empt
/// the pairwise one, and no conflicting cross-half pair is
/// exclusive/exclusive (such a pair met earlier in the scan would decide the
/// error instead).
pub proof fn lemma_cross_half_mixed_pair_rejected(s: Seq<TypeInfoV>, a: int, b: int)
    requires
        !has_all_storages_conflict(s),
        0 <= a < mid_of(s.len() as int),
        mid_of(s.len() as int) <= b < s.len(),
        s[a].storage_id == s[b].storage_id,
        s[a].mutability != s[b].mutability,
        forall|x: int, y: int|
            0 <= x < mid_of(s.len() as int) && mid_of(s.len() as int) <= y < s.len()
                && pair_conflict(#[trigger] s[x], #[trigger] s[y]) is Some ==> !(s[x].mutability
                == Mutability::Exclusive && s[y].mutability == Mutability::Exclusive),
    ensures
        validate_spec(s) == Err::<(), InvalidSystem>(InvalidSystem::MultipleViews),
{
    assert(pair_conflict(s[a], s[b]) is Some);
    match cross_first_conflict(s, 0) {
        None => {
            lemma_cross_none_iff(s, 0);
            assert(pair_conflict(s[a], s[b]) is None);
        },
        Some(e) => {
            lemma_cross_some_is_pair(s, 0);
            let (x, y) = choose|x: int, y: int|
                0 <= x < mid_of(s.len() as int) && mid_of(s.len() as int) <= y < s.len()
                    && pair_conflict(#[trigger] s[x], #[trigger] s[y]) == Some(e);
            assert(e == InvalidSystem::MultipleViews);
        },
    }
}

/// When every cross-half pair sharing a storage identifier is shared/shared,
/// and the whole-set sentinel does not object, construction succeeds: two
/// `Shared` accesses to one storage are no conflict.
pub proof fn lemma_cross_half_shared_pairs_accepted(s: Seq<TypeInfoV>)
    requires
        !has_all_storages_conflict(s),
        forall|x: int, y: int|
            0 <= x < mid_of(s.len() as int) && mid_of(s.len() as int) <= y < s.len()
                && (#[trigger] s[x]).storage_id == (#[trigger] s[y]).storage_id
                ==> s[x].mutability == Mutability::Shared && s[y].mutability == Mutability::Shared,
    ensures
        validate_spec(s) is Ok,
{
    assert forall|x: int, y: int|
        0 <= x < mid_of(s.len() as int) && mid_of(s.len() as int) <= y
            < s.len() implies pair_conflict(#[trigger] s[x], #[trigger] s[y]) is None by {
        if s[x].storage_id == s[y].storage_id {
            assert(s[x].mutability == Mutability::Shared && s[y].mutability == Mutability::Shared);
        }
    }
    lemma_validate_ok_iff(s);
}

/// The pairwise check only compares entries across the two halves: when no
/// first-half entry shares a storage identifier with any second-half entry,
/// construction succeeds even if entries within one half conflict with each
/// other. This blind spot is intentional, preserved behavior.
pub proof fn lemma_same_half_conflicts_undetected(s: Seq<TypeInfoV>)
    requires
        !has_all_storages_conflict(s),
        forall|x: int, y: int|
            0 <= x < mid_of(s.len() as int) && mid_of(s.len() as int) <= y < s.len()
                ==> (#[trigger] s[x]).storage_id != (#[trigger] s[y]).storage_id,
    ensures
        validate_spec(s) is Ok,
{
    lemma_validate_ok_iff(s);
}

/// Inspects an accumulated access list and decides whether the system it
/// describes may be constructed, exactly as [`validate_spec`] states: a
/// whole-set exclusive borrow beside any other entry fails with
/// `AllStorages`; otherwise the entries are split at `mid_of` and every
/// first-half/second-half pair sharing a storage identifier fails with
/// `MultipleViewsMut` (both exclusive) or `MultipleViews` (mixed), the first
/// such pair in scan order deciding; otherwise the list is accepted.
pub fn check_constraints(borrows: &Vec<TypeInfo>) -> (r: Result<(), InvalidSystem>)
    ensures
        r == validate_spec(borrows.deep_view()),
        r is Ok <==> !has_all_storages_conflict(borrows.deep_view()) && !has_cross_conflict(
            borrows.deep_view(),
        ),
{
    let ghost s = borrows.deep_view();
    proof {
        lemma_validate_ok_iff(s);
    }
    let len = borrows.len();
    let mut has_sentinel = false;
    let mut k: usize = 0;
    while k < len
        invariant
            k <= len,
            len == borrows@.len(),
            s == borrows.deep_view(),
            has_sentinel <==> exists|i: int|
                0 <= i < k && spec_is_all_storages_entry(#[trigger] s[i]),
        decreases len - k,
    {
        let t = &borrows[k];
        proof {
            assert(t@ == s[k as int]);
        }
        if is_all_storages_entry(t) {
            has_sentinel = true;
            proof {
                assert(spec_is_all_storages_entry(s[k as int]));
            }
        }
        k += 1;
    }
    if has_sentinel && len > 1 {
        return Err(InvalidSystem::AllStorages);
    }
    proof {
        assert(!has_all_storages_conflict(s));
    }
    let mid = len / 2 + if len % 2 != 0 {
        1
    } else {
        0
    };
    proof {
        assert(mid as int == mid_of(s.len() as int));
    }
    let mut i: usize = 0;
    while i < mid
        invariant
            i <= mid,
            len == borrows@.len(),
            s == borrows.deep_view(),
            mid as int == mid_of(s.len() as int),
            !has_all_storages_conflict(s),
            cross_first_conflict(s, 0) == cross_first_conflict(s, i as int),
        decreases mid - i,
    {
        let mut j: usize = mid;
        while j < len
            invariant
                i < mid,
                mid <= j <= len,
                len == borrows@.len(),
                s == borrows.deep_view(),
                mid as int == mid_of(s.len() as int),
                !has_all_storages_conflict(s),
                cross_first_conflict(s, 0) == (match row_first_conflict(s, i as int, j as int) {
                    Some(e) => Some(e),
                    None => cross_first_conflict(s, i as int + 1),
                }),
            decreases len - j,
        {
            let a = &borrows[i];
            let b = &borrows[j];
            proof {
                assert(a@ == s[i as int]);
                assert(b@ == s[j as int]);
            }
            if a.storage_id == b.storage_id {
                match (a.mutability, b.mutability) {
                    (Mutability::Exclusive, Mutability::Exclusive) => {
                        return Err(InvalidSystem::MultipleViewsMut);
                    },
                    (Mutability::Shared, Mutability::Shared) => {},
                    _ => {
                        return Err(InvalidSystem::MultipleViews);
                    },
                }
            }
            proof {
                assert(pair_conflict(s[i as int], s[j as int]) is None);
            }
            j += 1;
        }
        i += 1;
    }
    Ok(())
}

} // verus!
