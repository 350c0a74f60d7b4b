//! Keyframe lookup for the general resampling case: each source timestamp is
//! quantized to its precision key once, and each grid point is placed by an
//! exact-key match, or between the latest key strictly before it and the
//! earliest key strictly after it.

use vstd::prelude::*;

use crate::bits::{into_precision, precision_key_of};

verus! {

/// The precision keys of a timestamp array.
pub open spec fn keys_of(stamps: Seq<u32>) -> Seq<i32> {
    stamps.map_values(|t: u32| precision_key_of(t))
}

/// The first index whose key equals the target.
pub open spec fn exact_at(keys: Seq<i32>, target: i32) -> Option<int>
    decreases keys.len(),
{
    if keys.len() == 0 {
        None
    } else if keys[0] == target {
        Some(0int)
    } else {
        match exact_at(keys.drop_first(), target) {
            Some(j) => Some(j + 1),
            None => None,
        }
    }
}

/// The first index whose key exceeds the target.
pub open spec fn first_gt(keys: Seq<i32>, target: i32) -> Option<int>
    decreases keys.len(),
{
    if keys.len() == 0 {
        None
    } else if keys[0] > target {
        Some(0int)
    } else {
        match first_gt(keys.drop_first(), target) {
            Some(j) => Some(j + 1),
            None => None,
        }
    }
}

/// How many keys lie below the target before the first one that does not.
pub open spec fn lt_prefix_len(keys: Seq<i32>, target: i32) -> int
    decreases keys.len(),
{
    if keys.len() == 0 {
        0
    } else if keys[0] < target {
        1 + lt_prefix_len(keys.drop_first(), target)
    } else {
        0
    }
}

/// The index of the latest keyframe in the initial run of keys below the
/// target (the scan stops at the first key not below it), or the first
/// keyframe when none precedes the target.
pub open spec fn lead_index(keys: Seq<i32>, target: i32) -> int {
    let p = lt_prefix_len(keys, target);
    if p == 0 {
        0
    } else {
        p - 1
    }
}

/// The keyframe a grid point is interpolated towards: the first one strictly
/// after the target, falling back to the leading keyframe itself when none
/// follows.
pub open spec fn follow_index(keys: Seq<i32>, target: i32) -> int {
    match first_gt(keys, target) {
        Some(j) => j,
        None => lead_index(keys, target),
    }
}

/// A scan that saw `j` keys differing from the target, then a match (or the
/// end), pins down `exact_at`.
proof fn lemma_exact_at(keys: Seq<i32>, target: i32, j: int)
    requires
        0 <= j <= keys.len(),
        forall|k: int| 0 <= k < j ==> keys[k] != target,
        j < keys.len() ==> keys[j] == target,
    ensures
        j == keys.len() ==> exact_at(keys, target) is None,
        j < keys.len() ==> exact_at(keys, target) == Some(j),
    decreases keys.len(),
{
    if keys.len() == 0 {
    } else if keys[0] == target {
        assert(j == 0);
    } else {
        assert(j >= 1);
        lemma_exact_at(keys.drop_first(), target, j - 1);
    }
}

/// A scan that saw `j` keys not above the target, then one above it (or the
/// end), pins down `first_gt`.
proof fn lemma_first_gt(keys: Seq<i32>, target: i32, j: int)
    requires
        0 <= j <= keys.len(),
        forall|k: int| 0 <= k < j ==> !(keys[k] > target),
        j < keys.len() ==> keys[j] > target,
    ensures
        j == keys.len() ==> first_gt(keys, target) is None,
        j < keys.len() ==> first_gt(keys, target) == Some(j),
    decreases keys.len(),
{
    if keys.len() == 0 {
    } else if keys[0] > target {
        assert(j == 0);
    } else {
        assert(j >= 1);
        lemma_first_gt(keys.drop_first(), target, j - 1);
    }
}

/// A scan that saw `j` keys below the target, then one not below it (or the
/// end), pins down `lt_prefix_len`.
proof fn lemma_lt_prefix_len(keys: Seq<i32>, target: i32, j: int)
    requires
        0 <= j <= keys.len(),
        forall|k: int| 0 <= k < j ==> keys[k] < target,
        j < keys.len() ==> !(keys[j] < target),
    ensures
        lt_prefix_len(keys, target) == j,
    decreases keys.len(),
{
    if keys.len() == 0 {
    } else if keys[0] < target {
        lemma_lt_prefix_len(keys.drop_first(), target, j - 1);
    } else {
        assert(j == 0);
    }
}

/// Quantizes every timestamp of one array to its precision key.
#[verifier::loop_isolation(false)]
pub fn compute_keys(stamps: &Vec<u32>) -> (r: Vec<i32>)
    ensures
        r@ == keys_of(stamps@),
{
    let mut keys: Vec<i32> = Vec::new();
    let mut j: usize = 0;
    while j < stamps.len()
        invariant
            j <= stamps@.len(),
            keys@.len() == j,
            forall|k: int| 0 <= k < j ==> keys@[k] == precision_key_of(stamps@[k]),
        decreases stamps@.len() - j,
    {
        let key = into_precision(stamps[j]);
        keys.push(key);
        j = j + 1;
    }
    proof {
        assert(keys@ =~= keys_of(stamps@));
    }
    keys
}

/// Where one grid point takes its value from, in the general case.
pub enum SlotSource {
    /// A source keyframe whose key matches the grid point exactly.
    Exact(usize),
    /// No match and the grid point's key is zero: the second keyframe
    /// stands in for the missing start.
    SecondAtZero,
    /// No match: interpolate from the leading towards the following
    /// keyframe.
    Between(usize, usize),
}

/// Places one grid point against the source keys: an exact match wins; a
/// keyless grid start falls back to the second keyframe; otherwise the
/// leading and following keyframes around the target are found by linear
/// scans that mirror [`lead_index`] and [`follow_index`].
#[verifier::loop_isolation(false)]
pub fn locate_slot(keys: &Vec<i32>, target: i32) -> (r: SlotSource)
    requires
        keys@.len() >= 1,
    ensures
        match r {
            SlotSource::Exact(j) => j < keys@.len() && exact_at(keys@, target) == Some(j as int),
            SlotSource::SecondAtZero => exact_at(keys@, target) is None && target == 0,
            SlotSource::Between(l, f) => {
                &&& exact_at(keys@, target) is None
                &&& target != 0
                &&& l < keys@.len()
                &&& f < keys@.len()
                &&& l == lead_index(keys@, target)
                &&& f == follow_index(keys@, target)
            },
        },
{
    let n = keys.len();
    let mut j: usize = 0;
    while j < n
        invariant
            j <= n,
            forall|k: int| 0 <= k < j ==> keys@[k] != target,
        decreases n - j,
    {
        if keys[j] == target {
            proof {
                lemma_exact_at(keys@, target, j as int);
            }
            return SlotSource::Exact(j);
        }
        j = j + 1;
    }
    proof {
        lemma_exact_at(keys@, target, n as int);
    }
    if target == 0 {
        return SlotSource::SecondAtZero;
    }
    // The leading scan keeps the latest key of the initial run below the
    // target and stops at the first key that is not.
    let mut lead: usize = 0;
    let mut l: usize = 0;
    while l < n && keys[l] < target
        invariant
            l <= n,
            forall|k: int| 0 <= k < l ==> keys@[k] < target,
            lead == if l == 0 {
                0usize
            } else {
                (l - 1) as usize
            },
        decreases n - l,
    {
        lead = l;
        l = l + 1;
    }
    proof {
        lemma_lt_prefix_len(keys@, target, l as int);
        assert(lead == lead_index(keys@, target));
    }
    // The following scan takes the first key above the target, falling back
    // to the leading keyframe.
    let mut follow: usize = lead;
    let mut f: usize = 0;
    let mut found_follow = false;
    while f < n && !found_follow
        invariant
            f <= n,
            !found_follow ==> forall|k: int| 0 <= k < f ==> !(keys@[k] > target),
            !found_follow ==> follow == lead,
            found_follow ==> f >= 1 && follow == (f - 1) as usize && first_gt(keys@, target)
                == Some((f - 1) as int) && follow < n,
            lead == lead_index(keys@, target),
            lead < n,
        decreases n - f,
    {
        if keys[f] > target {
            proof {
                lemma_first_gt(keys@, target, f as int);
            }
            follow = f;
            found_follow = true;
        }
        f = f + 1;
    }
    if !found_follow {
        proof {
            lemma_first_gt(keys@, target, n as int);
        }
    }
    SlotSource::Between(lead, follow)
}

} // verus!
