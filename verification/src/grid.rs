//! Global timing parameters: one pass over every timestamp array of every
//! node record yields the smallest observed timestamp, the largest, and the
//! smallest gap between consecutive timestamps within a single array; from
//! the last two the shared frame count of the uniform grid is derived.

use vstd::prelude::*;

use crate::bits::{
    canon_bits, canonicalize, f32_div, f32_lt, f32_round_to_usize, f32_sub, lt_bits,
    positive_finite_bits, round_to_usize_of, sub_bits, div_bits, MAX_FINITE_BITS,
};
use crate::channel::{BoneAnimationChannel, ChannelModel};
use crate::extract::models_of;

verus! {

/// Running extremes of the timestamp scan.
#[derive(Clone, Copy, Debug, PartialEq, Eq, Structural)]
pub struct ScanAcc {
    /// Smallest timestamp seen (starts at zero, like the grid origin).
    pub min_time: u32,
    /// Largest timestamp seen (starts at zero).
    pub max_time: u32,
    /// Smallest gap between consecutive timestamps of one array.
    pub min_distance: u32,
}

/// The shared grid every channel is resampled onto.
#[derive(Clone, Copy, Debug, PartialEq, Eq, Structural)]
pub struct GridParams {
    /// Largest observed timestamp: the end of the grid.
    pub max_time: u32,
    /// The grid spacing: the smallest observed positive gap.
    pub min_distance: u32,
    /// Number of grid slots, `round(max_time / min_distance) + 1`.
    pub required_frames: usize,
}

/// One timestamp folded into the running extremes. The gap to the previous
/// timestamp of the same array counts only from the second element on, and
/// is taken in canonical NaN form, since a NaN difference's payload bits are
/// unspecified (it never becomes the minimum: NaN compares below nothing).
pub open spec fn scan_step(acc: ScanAcc, t: u32, prev: Option<u32>) -> ScanAcc {
    let md = match prev {
        Some(p) => if lt_bits(canon_bits(sub_bits(t, p)), acc.min_distance) {
            canon_bits(sub_bits(t, p))
        } else {
            acc.min_distance
        },
        None => acc.min_distance,
    };
    ScanAcc {
        min_time: if lt_bits(t, acc.min_time) {
            t
        } else {
            acc.min_time
        },
        max_time: if lt_bits(acc.max_time, t) {
            t
        } else {
            acc.max_time
        },
        min_distance: md,
    }
}

/// One timestamp array folded into the running extremes.
pub open spec fn scan_stamps(acc: ScanAcc, prev: Option<u32>, stamps: Seq<u32>) -> ScanAcc
    decreases stamps.len(),
{
    if stamps.len() == 0 {
        acc
    } else {
        scan_stamps(scan_step(acc, stamps[0], prev), Some(stamps[0]), stamps.drop_first())
    }
}

/// All four timestamp arrays of one record folded in, each starting afresh.
pub open spec fn scan_channel(acc: ScanAcc, ch: ChannelModel) -> ScanAcc {
    let a1 = scan_stamps(acc, None, ch.translation_timestamps);
    let a2 = scan_stamps(a1, None, ch.rotation_timestamps);
    let a3 = scan_stamps(a2, None, ch.scale_timestamps);
    scan_stamps(a3, None, ch.weight_timestamps)
}

/// Every node record folded in, in map order.
pub open spec fn scan_nodes(acc: ScanAcc, list: Seq<(i32, ChannelModel)>) -> ScanAcc
    decreases list.len(),
{
    if list.len() == 0 {
        acc
    } else {
        scan_nodes(scan_channel(acc, list[0].1), list.drop_first())
    }
}

/// Where the scan starts: extremes at zero, smallest gap at the largest
/// finite value.
pub open spec fn initial_acc() -> ScanAcc {
    ScanAcc { min_time: 0, max_time: 0, min_distance: MAX_FINITE_BITS }
}

/// The timing extremes observed over a whole node map.
pub open spec fn observed_timing(list: Seq<(i32, ChannelModel)>) -> ScanAcc {
    scan_nodes(initial_acc(), list)
}

/// The grid the extremes give, or `None` when the timing is degenerate: the
/// smallest gap is not a positive finite value (zero, negative, or not
/// finite), the largest timestamp is not a finite nonnegative value, or the
/// rounded frame count leaves no room for the final added slot.
pub open spec fn grid_spec(acc: ScanAcc) -> Option<GridParams> {
    if !positive_finite_bits(acc.min_distance) || acc.max_time >= 0x7F80_0000 {
        None
    } else {
        let rf0 = round_to_usize_of(div_bits(acc.max_time, acc.min_distance));
        if rf0 == usize::MAX {
            None
        } else {
            Some(
                GridParams {
                    max_time: acc.max_time,
                    min_distance: acc.min_distance,
                    required_frames: (rf0 + 1) as usize,
                },
            )
        }
    }
}

/// Folds one timestamp array into the running extremes.
#[verifier::loop_isolation(false)]
fn scan_stamps_exec(acc: ScanAcc, stamps: &Vec<u32>) -> (r: ScanAcc)
    ensures
        r == scan_stamps(acc, None, stamps@),
{
    let mut cur = acc;
    let mut prev: Option<u32> = None;
    let mut j: usize = 0;
    proof {
        assert(stamps@.skip(0) =~= stamps@);
    }
    while j < stamps.len()
        invariant
            j <= stamps@.len(),
            scan_stamps(acc, None, stamps@) == scan_stamps(cur, prev, stamps@.skip(j as int)),
        decreases stamps@.len() - j,
    {
        let ghost pre = cur;
        let ghost prevpre = prev;
        let t = stamps[j];
        let md = match prev {
            Some(p) => {
                let d = canonicalize(f32_sub(t, p));
                if f32_lt(d, cur.min_distance) {
                    d
                } else {
                    cur.min_distance
                }
            },
            None => cur.min_distance,
        };
        let mn = if f32_lt(t, cur.min_time) {
            t
        } else {
            cur.min_time
        };
        let mx = if f32_lt(cur.max_time, t) {
            t
        } else {
            cur.max_time
        };
        cur = ScanAcc { min_time: mn, max_time: mx, min_distance: md };
        proof {
            assert(cur == scan_step(pre, t, prevpre));
            assert(stamps@.skip(j as int)[0] == t);
            assert(stamps@.skip(j as int).drop_first() =~= stamps@.skip(j as int + 1));
        }
        prev = Some(t);
        j = j + 1;
    }
    cur
}

/// Folds every timestamp array of every node record into the extremes, in
/// map order: translation, rotation, scale, then weight timestamps per node.
#[verifier::loop_isolation(false)]
pub fn observe_timing(map: &Vec<(i32, BoneAnimationChannel)>) -> (r: ScanAcc)
    ensures
        r == observed_timing(models_of(map@)),
{
    let ghost models = models_of(map@);
    let mut cur = ScanAcc { min_time: 0, max_time: 0, min_distance: MAX_FINITE_BITS };
    let mut j: usize = 0;
    proof {
        assert(cur == initial_acc());
        assert(models.len() == map@.len());
        assert(models.skip(0) =~= models);
    }
    while j < map.len()
        invariant
            j <= map@.len(),
            scan_nodes(initial_acc(), models) == scan_nodes(cur, models.skip(j as int)),
        decreases map@.len() - j,
    {
        let ghost pre = cur;
        let ch = &map[j].1;
        proof {
            assert(models.skip(j as int)[0] == models[j as int]);
            assert(models[j as int].1 == ch@);
        }
        cur = scan_stamps_exec(cur, &ch.translation_timestamps);
        cur = scan_stamps_exec(cur, &ch.rotation_timestamps);
        cur = scan_stamps_exec(cur, &ch.scale_timestamps);
        cur = scan_stamps_exec(cur, &ch.weight_timestamps);
        proof {
            assert(cur == scan_channel(pre, ch@));
            assert(models.skip(j as int).drop_first() =~= models.skip(j as int + 1));
        }
        j = j + 1;
    }
    cur
}

/// Derives the shared grid from the observed extremes, or reports that the
/// timing is degenerate, exactly as [`grid_spec`] describes.
pub fn compute_grid(acc: ScanAcc) -> (r: Option<GridParams>)
    ensures
        r == grid_spec(acc),
        match r {
            Some(g) => g.required_frames >= 1,
            None => true,
        },
{
    if !(acc.min_distance >= 1 && acc.min_distance < 0x7F80_0000) {
        return None;
    }
    if !(acc.max_time < 0x7F80_0000) {
        return None;
    }
    proof {
        crate::bits::lemma_small_bits_finite(acc.max_time);
    }
    let rf0 = f32_round_to_usize(f32_div(acc.max_time, acc.min_distance));
    if rf0 == usize::MAX {
        return None;
    }
    Some(
        GridParams {
            max_time: acc.max_time,
            min_distance: acc.min_distance,
            required_frames: rf0 + 1,
        },
    )
}

} // verus!
