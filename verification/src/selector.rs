//! Display selection: given the snapshot of available outputs that the
//! platform backend enumerated, pick exactly one capture target according
//! to the configured policy, or fail with the policy's own error.

use vstd::prelude::*;

use crate::target::{same_target, CaptureError, CaptureTarget};

verus! {

/// How the one capture target is picked from the available outputs.
#[derive(Debug)]
pub enum SelectionPolicy {
    /// First output whose name contains the given substring.
    NameSubstring(String),
    /// First output flagged primary by the platform.
    Primary,
    /// The output at the given position in the enumeration order.
    ByIndex(usize),
}

/// The needle occurs in the haystack starting at position `i`.
pub open spec fn contains_at(hay: Seq<char>, needle: Seq<char>, i: int) -> bool {
    &&& 0 <= i
    &&& i + needle.len() <= hay.len()
    &&& hay.subrange(i, i + needle.len() as int) == needle
}

/// The needle occurs somewhere in the haystack.
pub open spec fn contains_seq(hay: Seq<char>, needle: Seq<char>) -> bool {
    exists|i: int| contains_at(hay, needle, i)
}

/// Substring search over the characters of two string slices.
pub fn contains_substring(hay: &str, needle: &str) -> (r: bool)
    ensures
        r == contains_seq(hay@, needle@),
{
    let hay_len: usize = hay.unicode_len();
    let needle_len: usize = needle.unicode_len();
    if needle_len > hay_len {
        assert(forall|i: int| !contains_at(hay@, needle@, i));
        return false;
    }
    if needle_len == 0 {
        proof {
            assert(hay@.subrange(0, 0) =~= needle@);
            assert(contains_at(hay@, needle@, 0));
        }
        return true;
    }
    let mut i: usize = 0;
    while i <= hay_len - needle_len
        invariant
            1 <= needle_len <= hay_len,
            hay_len == hay@.len(),
            needle_len == needle@.len(),
            i <= hay_len - needle_len + 1,
            forall|k: int| 0 <= k < i ==> !contains_at(hay@, needle@, k),
        decreases hay_len - needle_len - i + 1,
    {
        let mut j: usize = 0;
        let mut is_match = true;
        while is_match && j < needle_len
            invariant
                needle_len <= hay_len,
                hay_len == hay@.len(),
                needle_len == needle@.len(),
                i <= hay_len - needle_len,
                j <= needle_len,
                is_match ==> forall|t: int| 0 <= t < j ==> hay@[i + t] == needle@[t],
                !is_match ==> !contains_at(hay@, needle@, i as int),
            decreases needle_len - j + (if is_match { 1int } else { 0int }),
        {
            if hay.get_char(i + j) != needle.get_char(j) {
                proof {
                    if contains_at(hay@, needle@, i as int) {
                        assert(hay@.subrange(i as int, i + needle@.len() as int)[j as int]
                            == needle@[j as int]);
                    }
                }
                is_match = false;
            } else {
                j = j + 1;
            }
        }
        if is_match {
            proof {
                assert(forall|t: int|
                    0 <= t < needle@.len() ==> hay@.subrange(i as int, i + needle@.len() as int)[t]
                        == needle@[t]);
                assert(hay@.subrange(i as int, i + needle@.len() as int) =~= needle@);
                assert(contains_at(hay@, needle@, i as int));
            }
            return true;
        }
        i = i + 1;
    }
    assert(forall|k: int| i <= k ==> !contains_at(hay@, needle@, k));
    false
}

/// The target's name contains the needle.
pub open spec fn name_matches(t: CaptureTarget, needle: Seq<char>) -> bool {
    contains_seq(t.name@, needle)
}

/// Position `j` holds the first output whose name contains the needle.
pub open spec fn is_first_match(s: Seq<CaptureTarget>, needle: Seq<char>, j: int) -> bool {
    &&& 0 <= j < s.len()
    &&& name_matches(s[j], needle)
    &&& forall|k: int| 0 <= k < j ==> !name_matches(s[k], needle)
}

/// Position `j` holds the first output flagged primary.
pub open spec fn is_first_primary(s: Seq<CaptureTarget>, j: int) -> bool {
    &&& 0 <= j < s.len()
    &&& s[j].primary
    &&& forall|k: int| 0 <= k < j ==> !s[k].primary
}

/// The policy finds no target in the available list.
pub open spec fn selection_fails(s: Seq<CaptureTarget>, policy: SelectionPolicy) -> bool {
    match policy {
        SelectionPolicy::NameSubstring(needle) => forall|j: int|
            0 <= j < s.len() ==> !name_matches(s[j], needle@),
        SelectionPolicy::Primary => forall|j: int| 0 <= j < s.len() ==> !s[j].primary,
        SelectionPolicy::ByIndex(i) => i >= s.len(),
    }
}

/// The error each policy reports when it finds no target.
pub open spec fn selection_error(policy: SelectionPolicy) -> CaptureError {
    match policy {
        SelectionPolicy::NameSubstring(_) => CaptureError::NoMatchingTarget,
        SelectionPolicy::Primary => CaptureError::NoPrimaryTarget,
        SelectionPolicy::ByIndex(_) => CaptureError::IndexOutOfRange,
    }
}

/// The target `t` is the one the policy picks from the available list.
pub open spec fn target_selected(s: Seq<CaptureTarget>, policy: SelectionPolicy, t: CaptureTarget) -> bool {
    match policy {
        SelectionPolicy::NameSubstring(needle) => exists|j: int|
            is_first_match(s, needle@, j) && same_target(t, s[j]),
        SelectionPolicy::Primary => exists|j: int| is_first_primary(s, j) && same_target(t, s[j]),
        SelectionPolicy::ByIndex(i) => i < s.len() && same_target(t, s[i as int]),
    }
}

/// What `resolve` returns: the selected target when the policy finds one
/// in the available list, the policy's own error when it does not.
pub open spec fn resolve_post(
    s: Seq<CaptureTarget>,
    policy: SelectionPolicy,
    r: Result<CaptureTarget, CaptureError>,
) -> bool {
    if selection_fails(s, policy) {
        r == Err::<CaptureTarget, CaptureError>(selection_error(policy))
    } else {
        r is Ok && target_selected(s, policy, r->Ok_0)
    }
}

/// There is at most one first primary position.
pub proof fn lemma_first_primary_unique(s: Seq<CaptureTarget>, j1: int, j2: int)
    requires
        is_first_primary(s, j1),
        is_first_primary(s, j2),
    ensures
        j1 == j2,
{
}

/// There is at most one first matching position for a given needle.
pub proof fn lemma_first_match_unique(s: Seq<CaptureTarget>, needle: Seq<char>, j1: int, j2: int)
    requires
        is_first_match(s, needle, j1),
        is_first_match(s, needle, j2),
    ensures
        j1 == j2,
{
}

/// Law: selection is deterministic — any two results that `resolve` may
/// return for the same available list and policy agree: the same error,
/// or the same target field for field.
pub proof fn lemma_resolve_deterministic(
    s: Seq<CaptureTarget>,
    policy: SelectionPolicy,
    r1: Result<CaptureTarget, CaptureError>,
    r2: Result<CaptureTarget, CaptureError>,
)
    requires
        resolve_post(s, policy, r1),
        resolve_post(s, policy, r2),
    ensures
        r1 is Ok <==> r2 is Ok,
        r1 is Err ==> r1 == r2,
        r1 is Ok ==> same_target(r1->Ok_0, r2->Ok_0),
{
    if !selection_fails(s, policy) {
        match policy {
            SelectionPolicy::NameSubstring(needle) => {
                let j1 = choose|j: int| is_first_match(s, needle@, j) && same_target(r1->Ok_0, s[j]);
                let j2 = choose|j: int| is_first_match(s, needle@, j) && same_target(r2->Ok_0, s[j]);
                lemma_first_match_unique(s, needle@, j1, j2);
            },
            SelectionPolicy::Primary => {
                let j1 = choose|j: int| is_first_primary(s, j) && same_target(r1->Ok_0, s[j]);
                let j2 = choose|j: int| is_first_primary(s, j) && same_target(r2->Ok_0, s[j]);
                lemma_first_primary_unique(s, j1, j2);
            },
            SelectionPolicy::ByIndex(_) => {},
        }
    }
}

/// Picks exactly one capture target from the snapshot of available
/// outputs, scanning in enumeration order; pure selection, no side effect,
/// deterministic in the list and the policy.
pub fn resolve(available: &Vec<CaptureTarget>, policy: &SelectionPolicy) -> (r: Result<
    CaptureTarget,
    CaptureError,
>)
    ensures
        resolve_post(available@, *policy, r),
{
    match policy {
        SelectionPolicy::ByIndex(i) => {
            if *i < available.len() {
                Ok(available[*i].duplicate())
            } else {
                Err(CaptureError::IndexOutOfRange)
            }
        },
        SelectionPolicy::Primary => {
            let mut idx: usize = 0;
            while idx < available.len()
                invariant
                    (*policy) is Primary,
                    idx <= available@.len(),
                    forall|k: int| 0 <= k < idx ==> !available@[k].primary,
                decreases available@.len() - idx,
            {
                if available[idx].primary {
                    assert(is_first_primary(available@, idx as int));
                    let t = available[idx].duplicate();
                    assert(target_selected(available@, *policy, t));
                    return Ok(t);
                }
                idx = idx + 1;
            }
            Err(CaptureError::NoPrimaryTarget)
        },
        SelectionPolicy::NameSubstring(needle) => {
            let mut idx: usize = 0;
            while idx < available.len()
                invariant
                    *policy == SelectionPolicy::NameSubstring(*needle),
                    idx <= available@.len(),
                    forall|k: int| 0 <= k < idx ==> !name_matches(available@[k], needle@),
                decreases available@.len() - idx,
            {
                if contains_substring(available[idx].name.as_str(), needle.as_str()) {
                    assert(is_first_match(available@, needle@, idx as int));
                    let t = available[idx].duplicate();
                    assert(same_target(t, available@[idx as int]));
                    assert(((*policy)->NameSubstring_0)@ == needle@);
                    assert(exists|j: int|
                        is_first_match(available@, ((*policy)->NameSubstring_0)@, j)
                            && same_target(t, available@[j]));
                    assert(target_selected(available@, *policy, t));
                    return Ok(t);
                }
                idx = idx + 1;
            }
            Err(CaptureError::NoMatchingTarget)
        },
    }
}

} // verus!
