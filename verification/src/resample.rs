//! The timeline resampler: every component track of every node is rebuilt on
//! the shared uniform grid. A track with no keyframes is filled with its
//! identity value, a single keyframe is broadcast, a track already on the
//! grid is copied verbatim, a start/end pair is interpolated linearly across
//! the grid, and anything else is resampled per grid point by exact-key
//! match or interpolation between the neighbouring keyframes.

use vstd::prelude::*;

use crate::bits::{
    canon_bits, canon_vec3, canonicalize, canonicalize_vec3, div_bits, f32_bits_of_usize, f32_div,
    f32_mul, f32_sub, into_precision, mul_bits, precision_key_of, quat_identity, quat_lerp,
    sub_bits, usize_to_f32_bits, vec3_finite, vec3_lerp, vec3_lerp_bits, vec3_one, vec3_regular,
    vec3_zero, QuatBits, Vec3Bits, ONE_BITS,
};
use crate::channel::{AnimationError, BoneAnimationChannel, ChannelModel, ComponentKind};
use crate::extract::models_of;
use crate::grid::{compute_grid, grid_spec, observe_timing, observed_timing, GridParams};
use crate::lookup::{
    compute_keys, exact_at, follow_index, keys_of, lead_index, locate_slot, SlotSource,
};

verus! {

/// Which resampling policy one component track falls under, decided in
/// order: no keyframes, one keyframe, already spanning the grid at full
/// length, spanning it with only its two endpoints, or anything else.
pub enum GridCase {
    Empty,
    Single,
    RawAdd,
    StartEnd,
    General,
}

/// The policy for a track with the given timestamps. "Spanning" means the
/// first timestamp's precision key is zero and the last one's equals the
/// grid end's key.
pub open spec fn case_of(stamps: Seq<u32>, g: GridParams) -> GridCase {
    if stamps.len() == 0 {
        GridCase::Empty
    } else if stamps.len() == 1 {
        GridCase::Single
    } else {
        let spans = precision_key_of(stamps[0]) == 0 && precision_key_of(
            stamps[stamps.len() - 1],
        ) == precision_key_of(g.max_time);
        if spans && stamps.len() == g.required_frames {
            GridCase::RawAdd
        } else if spans && stamps.len() == 2 {
            GridCase::StartEnd
        } else {
            GridCase::General
        }
    }
}

/// The grid timestamp used for identity fills and broadcasts: `i` times the
/// grid spacing, in canonical NaN form.
pub open spec fn ident_stamp(i: int, g: GridParams) -> u32 {
    canon_bits(mul_bits(f32_bits_of_usize(i as usize), g.min_distance))
}

/// The fractional position of grid slot `i`: `i / (required_frames - 1)`,
/// in canonical NaN form (a one-slot grid divides zero by zero).
pub open spec fn grid_pct(i: int, g: GridParams) -> u32 {
    canon_bits(
        div_bits(f32_bits_of_usize(i as usize), f32_bits_of_usize((g.required_frames - 1) as usize)),
    )
}

/// The grid timestamp used for interpolated slots: the fractional position
/// scaled to the grid end, in canonical NaN form.
pub open spec fn grid_stamp(i: int, g: GridParams) -> u32 {
    canon_bits(mul_bits(grid_pct(i, g), g.max_time))
}

/// The precision key of grid slot `i`.
pub open spec fn grid_key(i: int, g: GridParams) -> i32 {
    precision_key_of(grid_stamp(i, g))
}

/// The timestamp written to slot `i` of a resampled track.
pub open spec fn out_stamp(stamps: Seq<u32>, g: GridParams, i: int) -> u32 {
    match case_of(stamps, g) {
        GridCase::Empty => ident_stamp(i, g),
        GridCase::Single => ident_stamp(i, g),
        GridCase::RawAdd => stamps[i],
        GridCase::StartEnd => grid_stamp(i, g),
        GridCase::General => match exact_at(keys_of(stamps), grid_key(i, g)) {
            Some(j) => stamps[j],
            None => grid_stamp(i, g),
        },
    }
}

/// The slot's fractional position between the leading and following
/// keyframes' timestamps, every operation in canonical NaN form.
pub open spec fn between_pct(stamps: Seq<u32>, g: GridParams, i: int, lead: int, fol: int) -> u32 {
    canon_bits(
        div_bits(
            canon_bits(sub_bits(grid_stamp(i, g), stamps[lead])),
            canon_bits(sub_bits(stamps[fol], stamps[lead])),
        ),
    )
}

/// The vector written to slot `i` in the general case: an exact key match
/// reuses that keyframe; a matchless grid start takes the second keyframe;
/// otherwise the slot is interpolated from the leading towards the following
/// keyframe at the slot's position between their timestamps, in canonical
/// NaN form.
pub open spec fn general_vec3(
    values: Seq<Vec3Bits>,
    stamps: Seq<u32>,
    g: GridParams,
    i: int,
) -> Vec3Bits {
    let keys = keys_of(stamps);
    let k = grid_key(i, g);
    match exact_at(keys, k) {
        Some(j) => values[j],
        None => if k == 0 {
            values[1]
        } else {
            let lead = lead_index(keys, k);
            let fol = follow_index(keys, k);
            canon_vec3(
                vec3_lerp_bits(values[lead], values[fol], between_pct(stamps, g, i, lead, fol)),
            )
        },
    }
}

/// The vector written to slot `i` of a resampled track.
pub open spec fn out_vec3(
    values: Seq<Vec3Bits>,
    stamps: Seq<u32>,
    g: GridParams,
    ident: Vec3Bits,
    i: int,
) -> Vec3Bits {
    match case_of(stamps, g) {
        GridCase::Empty => ident,
        GridCase::Single => values[0],
        GridCase::RawAdd => values[i],
        GridCase::StartEnd => canon_vec3(
            vec3_lerp_bits(values[0], values[values.len() - 1], grid_pct(i, g)),
        ),
        GridCase::General => general_vec3(values, stamps, g, i),
    }
}

/// What is promised of the quaternion written to slot `i` of a resampled
/// track. Slots that copy a source keyframe or an identity are pinned
/// exactly; slots computed by quaternion interpolation (the start/end case
/// and the matchless general slots away from the grid start) promise
/// nothing, because glam's Quat::lerp rounds differently across backends,
/// so no bit pattern may be named for its result.
pub open spec fn quat_slot_ok(
    values: Seq<QuatBits>,
    stamps: Seq<u32>,
    g: GridParams,
    ident: QuatBits,
    i: int,
    v: QuatBits,
) -> bool {
    match case_of(stamps, g) {
        GridCase::Empty => v == ident,
        GridCase::Single => v == values[0],
        GridCase::RawAdd => v == values[i],
        GridCase::StartEnd => true,
        GridCase::General => match exact_at(keys_of(stamps), grid_key(i, g)) {
            Some(j) => v == values[j],
            None => grid_key(i, g) == 0 ==> v == values[1],
        },
    }
}

/// Resamples one vector track onto the grid. Every slot of the result is
/// pinned by [`out_vec3`] and [`out_stamp`]; in the start/end case the first
/// and last slot reproduce the source endpoints exactly, for operands on
/// which linear interpolation is exact at its ends.
#[verifier::loop_isolation(false)]
pub fn resample_vec3(
    values: &Vec<Vec3Bits>,
    stamps: &Vec<u32>,
    g: &GridParams,
    ident: Vec3Bits,
) -> (r: (Vec<Vec3Bits>, Vec<u32>))
    requires
        values@.len() == stamps@.len(),
        g.required_frames >= 1,
    ensures
        r.0@.len() == g.required_frames,
        r.1@.len() == g.required_frames,
        forall|i: int|
            0 <= i < g.required_frames ==> r.0@[i] == out_vec3(values@, stamps@, *g, ident, i),
        forall|i: int| 0 <= i < g.required_frames ==> r.1@[i] == out_stamp(stamps@, *g, i),
        (case_of(stamps@, *g) == GridCase::StartEnd && g.required_frames >= 2 && vec3_regular(
            values@[0],
        ) && vec3_finite(values@[values@.len() - 1])) ==> r.0@[0] == values@[0],
        (case_of(stamps@, *g) == GridCase::StartEnd && g.required_frames >= 2 && vec3_finite(
            values@[0],
        ) && vec3_regular(values@[values@.len() - 1])) ==> r.0@[g.required_frames - 1]
            == values@[values@.len() - 1],
{
    let n = g.required_frames;
    let mut vout: Vec<Vec3Bits> = Vec::new();
    let mut sout: Vec<u32> = Vec::new();
    if stamps.len() == 0 {
        let mut i: usize = 0;
        while i < n
            invariant
                i <= n,
                vout@.len() == i,
                sout@.len() == i,
                forall|k: int| 0 <= k < i ==> vout@[k] == ident,
                forall|k: int| 0 <= k < i ==> sout@[k] == ident_stamp(k, *g),
            decreases n - i,
        {
            let st = canonicalize(f32_mul(usize_to_f32_bits(i), g.min_distance));
            sout.push(st);
            vout.push(ident);
            i = i + 1;
        }
    } else if stamps.len() == 1 {
        let v0 = values[0];
        let mut i: usize = 0;
        while i < n
            invariant
                i <= n,
                vout@.len() == i,
                sout@.len() == i,
                forall|k: int| 0 <= k < i ==> vout@[k] == values@[0],
                forall|k: int| 0 <= k < i ==> sout@[k] == ident_stamp(k, *g),
            decreases n - i,
        {
            let st = canonicalize(f32_mul(usize_to_f32_bits(i), g.min_distance));
            sout.push(st);
            vout.push(v0);
            i = i + 1;
        }
    } else {
        let last = stamps.len() - 1;
        let k0 = into_precision(stamps[0]);
        let klast = into_precision(stamps[last]);
        let kmax = into_precision(g.max_time);
        let spans = k0 == 0 && klast == kmax;
        if spans && stamps.len() == n {
            let mut i: usize = 0;
            while i < n
                invariant
                    i <= n,
                    vout@.len() == i,
                    sout@.len() == i,
                    forall|k: int| 0 <= k < i ==> vout@[k] == values@[k],
                    forall|k: int| 0 <= k < i ==> sout@[k] == stamps@[k],
                decreases n - i,
            {
                sout.push(stamps[i]);
                vout.push(values[i]);
                i = i + 1;
            }
        } else if spans && stamps.len() == 2 {
            let v0 = values[0];
            let v1 = values[last];
            let mut i: usize = 0;
            while i < n
                invariant
                    i <= n,
                    vout@.len() == i,
                    sout@.len() == i,
                    forall|k: int|
                        0 <= k < i ==> vout@[k] == canon_vec3(
                            vec3_lerp_bits(values@[0], values@[values@.len() - 1], grid_pct(k, *g)),
                        ),
                    forall|k: int| 0 <= k < i ==> sout@[k] == grid_stamp(k, *g),
                    (n >= 2 && vec3_regular(values@[0]) && vec3_finite(values@[values@.len() - 1])
                        && i > 0) ==> vout@[0] == values@[0],
                    (n >= 2 && vec3_finite(values@[0]) && vec3_regular(values@[values@.len() - 1])
                        && i == n) ==> vout@[n - 1] == values@[values@.len() - 1],
                decreases n - i,
            {
                let a = usize_to_f32_bits(i);
                let b = usize_to_f32_bits(n - 1);
                let pct = canonicalize(f32_div(a, b));
                let st = canonicalize(f32_mul(pct, g.max_time));
                let v = canonicalize_vec3(vec3_lerp(v0, v1, pct));
                sout.push(st);
                vout.push(v);
                proof {
                    if n >= 2 && i == 0 {
                        crate::bits::lemma_small_bits_finite(0);
                        crate::bits::lemma_canon_finite(0);
                        assert(pct == 0);
                    }
                    if n >= 2 && i == n - 1 {
                        assert(a == b);
                        crate::bits::lemma_small_bits_finite(ONE_BITS);
                        crate::bits::lemma_canon_finite(ONE_BITS);
                        assert(pct == ONE_BITS);
                    }
                }
                i = i + 1;
            }
        } else {
            let keys = compute_keys(stamps);
            let mut i: usize = 0;
            while i < n
                invariant
                    i <= n,
                    vout@.len() == i,
                    sout@.len() == i,
                    keys@ == keys_of(stamps@),
                    forall|k: int| 0 <= k < i ==> vout@[k] == general_vec3(values@, stamps@, *g, k),
                    forall|k: int| 0 <= k < i ==> sout@[k] == out_stamp(stamps@, *g, k),
                decreases n - i,
            {
                let a = usize_to_f32_bits(i);
                let b = usize_to_f32_bits(n - 1);
                let pct = canonicalize(f32_div(a, b));
                let st = canonicalize(f32_mul(pct, g.max_time));
                let key = into_precision(st);
                match locate_slot(&keys, key) {
                    SlotSource::Exact(j) => {
                        sout.push(stamps[j]);
                        vout.push(values[j]);
                    },
                    SlotSource::SecondAtZero => {
                        sout.push(st);
                        vout.push(values[1]);
                    },
                    SlotSource::Between(l, f) => {
                        let scale = canonicalize(f32_sub(stamps[f], stamps[l]));
                        let shifted = canonicalize(f32_sub(st, stamps[l]));
                        let pct2 = canonicalize(f32_div(shifted, scale));
                        let v = canonicalize_vec3(vec3_lerp(values[l], values[f], pct2));
                        sout.push(st);
                        vout.push(v);
                    },
                }
                i = i + 1;
            }
        }
    }
    (vout, sout)
}

/// Resamples one quaternion track onto the grid. Every timestamp slot is
/// pinned by [`out_stamp`], and every value slot satisfies [`quat_slot_ok`]:
/// copied and identity-filled slots are pinned exactly, while interpolated
/// slots carry whatever glam's backend-dependent Quat::lerp returned.
#[verifier::loop_isolation(false)]
pub fn resample_quat(
    values: &Vec<QuatBits>,
    stamps: &Vec<u32>,
    g: &GridParams,
    ident: QuatBits,
) -> (r: (Vec<QuatBits>, Vec<u32>))
    requires
        values@.len() == stamps@.len(),
        g.required_frames >= 1,
    ensures
        r.0@.len() == g.required_frames,
        r.1@.len() == g.required_frames,
        forall|i: int|
            0 <= i < g.required_frames ==> quat_slot_ok(
                values@,
                stamps@,
                *g,
                ident,
                i,
                r.0@[i],
            ),
        forall|i: int| 0 <= i < g.required_frames ==> r.1@[i] == out_stamp(stamps@, *g, i),
{
    let n = g.required_frames;
    let mut vout: Vec<QuatBits> = Vec::new();
    let mut sout: Vec<u32> = Vec::new();
    if stamps.len() == 0 {
        let mut i: usize = 0;
        while i < n
            invariant
                i <= n,
                vout@.len() == i,
                sout@.len() == i,
                forall|k: int| 0 <= k < i ==> vout@[k] == ident,
                forall|k: int| 0 <= k < i ==> sout@[k] == ident_stamp(k, *g),
            decreases n - i,
        {
            let st = canonicalize(f32_mul(usize_to_f32_bits(i), g.min_distance));
            sout.push(st);
            vout.push(ident);
            i = i + 1;
        }
    } else if stamps.len() == 1 {
        let v0 = values[0];
        let mut i: usize = 0;
        while i < n
            invariant
                i <= n,
                vout@.len() == i,
                sout@.len() == i,
                forall|k: int| 0 <= k < i ==> vout@[k] == values@[0],
                forall|k: int| 0 <= k < i ==> sout@[k] == ident_stamp(k, *g),
            decreases n - i,
        {
            let st = canonicalize(f32_mul(usize_to_f32_bits(i), g.min_distance));
            sout.push(st);
            vout.push(v0);
            i = i + 1;
        }
    } else {
        let last = stamps.len() - 1;
        let k0 = into_precision(stamps[0]);
        let klast = into_precision(stamps[last]);
        let kmax = into_precision(g.max_time);
        let spans = k0 == 0 && klast == kmax;
        if spans && stamps.len() == n {
            let mut i: usize = 0;
            while i < n
                invariant
                    i <= n,
                    vout@.len() == i,
                    sout@.len() == i,
                    forall|k: int| 0 <= k < i ==> vout@[k] == values@[k],
                    forall|k: int| 0 <= k < i ==> sout@[k] == stamps@[k],
                decreases n - i,
            {
                sout.push(stamps[i]);
                vout.push(values[i]);
                i = i + 1;
            }
        } else if spans && stamps.len() == 2 {
            let v0 = values[0];
            let v1 = values[last];
            let mut i: usize = 0;
            while i < n
                invariant
                    i <= n,
                    vout@.len() == i,
                    sout@.len() == i,
                    forall|k: int| 0 <= k < i ==> sout@[k] == grid_stamp(k, *g),
                decreases n - i,
            {
                let a = usize_to_f32_bits(i);
                let b = usize_to_f32_bits(n - 1);
                let pct = canonicalize(f32_div(a, b));
                let st = canonicalize(f32_mul(pct, g.max_time));
                let v = quat_lerp(v0, v1, pct);
                sout.push(st);
                vout.push(v);
                i = i + 1;
            }
        } else {
            let keys = compute_keys(stamps);
            let mut i: usize = 0;
            while i < n
                invariant
                    i <= n,
                    vout@.len() == i,
                    sout@.len() == i,
                    keys@ == keys_of(stamps@),
                    forall|k: int| #![trigger vout@[k]]
                        0 <= k < i ==> match exact_at(keys_of(stamps@), grid_key(k, *g)) {
                            Some(j) => vout@[k] == values@[j],
                            None => grid_key(k, *g) == 0 ==> vout@[k] == values@[1],
                        },
                    forall|k: int| 0 <= k < i ==> sout@[k] == out_stamp(stamps@, *g, k),
                decreases n - i,
            {
                let a = usize_to_f32_bits(i);
                let b = usize_to_f32_bits(n - 1);
                let pct = canonicalize(f32_div(a, b));
                let st = canonicalize(f32_mul(pct, g.max_time));
                let key = into_precision(st);
                match locate_slot(&keys, key) {
                    SlotSource::Exact(j) => {
                        sout.push(stamps[j]);
                        vout.push(values[j]);
                    },
                    SlotSource::SecondAtZero => {
                        sout.push(st);
                        vout.push(values[1]);
                    },
                    SlotSource::Between(l, f) => {
                        let scale = canonicalize(f32_sub(stamps[f], stamps[l]));
                        let shifted = canonicalize(f32_sub(st, stamps[l]));
                        let pct2 = canonicalize(f32_div(shifted, scale));
                        let v = quat_lerp(values[l], values[f], pct2);
                        sout.push(st);
                        vout.push(v);
                    },
                }
                i = i + 1;
            }
        }
    }
    (vout, sout)
}

/// The first unequal-length component of one raw record, checked in
/// translation, rotation, scale order; weights are exempt from the check.
pub open spec fn channel_error(ch: ChannelModel, id: i32) -> Option<AnimationError> {
    if ch.translations.len() != ch.translation_timestamps.len() {
        Some(AnimationError::UnequalLengths { node: id, kind: ComponentKind::Translation })
    } else if ch.rotations.len() != ch.rotation_timestamps.len() {
        Some(AnimationError::UnequalLengths { node: id, kind: ComponentKind::Rotation })
    } else if ch.scales.len() != ch.scale_timestamps.len() {
        Some(AnimationError::UnequalLengths { node: id, kind: ComponentKind::Scale })
    } else {
        None
    }
}

/// The record a node ends with: the three TRS tracks resampled onto the
/// grid with their identities (zero vector, identity quaternion, unit
/// scale), the weights carried through unchanged. Vector tracks and all
/// timestamps are pinned slot for slot; quaternion values are pinned
/// through [`quat_slot_ok`], which leaves interpolated slots open.
pub open spec fn channel_resampled_ok(ch: ChannelModel, g: GridParams, o: ChannelModel) -> bool {
    &&& o.translations == Seq::new(
        g.required_frames as nat,
        |i: int| out_vec3(ch.translations, ch.translation_timestamps, g, vec3_zero(), i),
    )
    &&& o.translation_timestamps == Seq::new(
        g.required_frames as nat,
        |i: int| out_stamp(ch.translation_timestamps, g, i),
    )
    &&& o.rotations.len() == g.required_frames
    &&& (forall|i: int|
        0 <= i < g.required_frames ==> quat_slot_ok(
            ch.rotations,
            ch.rotation_timestamps,
            g,
            quat_identity(),
            i,
            o.rotations[i],
        ))
    &&& o.rotation_timestamps == Seq::new(
        g.required_frames as nat,
        |i: int| out_stamp(ch.rotation_timestamps, g, i),
    )
    &&& o.scales == Seq::new(
        g.required_frames as nat,
        |i: int| out_vec3(ch.scales, ch.scale_timestamps, g, vec3_one(), i),
    )
    &&& o.scale_timestamps == Seq::new(
        g.required_frames as nat,
        |i: int| out_stamp(ch.scale_timestamps, g, i),
    )
    &&& o.weights == ch.weights
    &&& o.weight_timestamps == ch.weight_timestamps
}

/// Copies one weight array; weights ride along unresampled.
#[verifier::loop_isolation(false)]
fn copy_u32s(v: &Vec<u32>) -> (r: Vec<u32>)
    ensures
        r@ == v@,
{
    let mut out: Vec<u32> = Vec::new();
    let mut i: usize = 0;
    while i < v.len()
        invariant
            i <= v@.len(),
            out@ == v@.take(i as int),
        decreases v@.len() - i,
    {
        out.push(v[i]);
        proof {
            assert(out@ =~= v@.take(i as int + 1));
        }
        i = i + 1;
    }
    proof {
        assert(v@.take(v@.len() as int) =~= v@);
    }
    out
}

/// Resamples one node's record onto the grid, after checking that each TRS
/// component's value and timestamp arrays agree in length.
fn resample_channel(ch: &BoneAnimationChannel, id: i32, g: &GridParams) -> (r: Result<
    BoneAnimationChannel,
    AnimationError,
>)
    requires
        g.required_frames >= 1,
    ensures
        match r {
            Ok(out) => channel_error(ch@, id) is None && channel_resampled_ok(ch@, *g, out@),
            Err(e) => channel_error(ch@, id) == Some(e),
        },
{
    if ch.translations.len() != ch.translation_timestamps.len() {
        return Err(AnimationError::UnequalLengths { node: id, kind: ComponentKind::Translation });
    }
    if ch.rotations.len() != ch.rotation_timestamps.len() {
        return Err(AnimationError::UnequalLengths { node: id, kind: ComponentKind::Rotation });
    }
    if ch.scales.len() != ch.scale_timestamps.len() {
        return Err(AnimationError::UnequalLengths { node: id, kind: ComponentKind::Scale });
    }
    let (tv, tt) = resample_vec3(
        &ch.translations,
        &ch.translation_timestamps,
        g,
        Vec3Bits { x: 0, y: 0, z: 0 },
    );
    let (rv, rt) = resample_quat(
        &ch.rotations,
        &ch.rotation_timestamps,
        g,
        QuatBits { x: 0, y: 0, z: 0, w: ONE_BITS },
    );
    let (sv, st) = resample_vec3(
        &ch.scales,
        &ch.scale_timestamps,
        g,
        Vec3Bits { x: ONE_BITS, y: ONE_BITS, z: ONE_BITS },
    );
    let out = BoneAnimationChannel {
        translations: tv,
        translation_timestamps: tt,
        rotations: rv,
        rotation_timestamps: rt,
        scales: sv,
        scale_timestamps: st,
        weights: copy_u32s(&ch.weights),
        weight_timestamps: copy_u32s(&ch.weight_timestamps),
    };
    proof {
        assert(out@.translations =~= Seq::new(
            g.required_frames as nat,
            |i: int| out_vec3(ch@.translations, ch@.translation_timestamps, *g, vec3_zero(), i),
        ));
        assert(out@.translation_timestamps =~= Seq::new(
            g.required_frames as nat,
            |i: int| out_stamp(ch@.translation_timestamps, *g, i),
        ));
        assert(out@.rotation_timestamps =~= Seq::new(
            g.required_frames as nat,
            |i: int| out_stamp(ch@.rotation_timestamps, *g, i),
        ));
        assert(out@.scales =~= Seq::new(
            g.required_frames as nat,
            |i: int| out_vec3(ch@.scales, ch@.scale_timestamps, *g, vec3_one(), i),
        ));
        assert(out@.scale_timestamps =~= Seq::new(
            g.required_frames as nat,
            |i: int| out_stamp(ch@.scale_timestamps, *g, i),
        ));
    }
    Ok(out)
}

/// The first unequal-length failure over a whole node map, in map order.
pub open spec fn first_channel_error(list: Seq<(i32, ChannelModel)>) -> Option<AnimationError>
    decreases list.len(),
{
    if list.len() == 0 {
        None
    } else {
        match channel_error(list[0].1, list[0].0) {
            Some(e) => Some(e),
            None => first_channel_error(list.drop_first()),
        }
    }
}

/// What resampling yields for a whole node map: degenerate timing or the
/// first corrupt record fails the whole animation; otherwise every record is
/// resampled onto the one shared grid, keys and order kept.
pub open spec fn first_finalize_error(list: Seq<(i32, ChannelModel)>) -> Option<AnimationError> {
    if grid_spec(observed_timing(list)) is None {
        Some(AnimationError::DegenerateTiming)
    } else {
        first_channel_error(list)
    }
}

/// Resamples every node record onto the shared grid: on success the result
/// keeps every key in order and every record satisfies
/// [`channel_resampled_ok`] against the observed grid; the first fatal
/// condition — degenerate timing, then the first corrupt record in map
/// order — fails the whole animation and discards all resampled output.
#[verifier::loop_isolation(false)]
#[verifier::rlimit(60)]
pub fn finalize_animations(map: &Vec<(i32, BoneAnimationChannel)>) -> (r: Result<
    Vec<(i32, BoneAnimationChannel)>,
    AnimationError,
>)
    ensures
        match r {
            Ok(out) => match grid_spec(observed_timing(models_of(map@))) {
                Some(g) => {
                    &&& first_channel_error(models_of(map@)) is None
                    &&& out@.len() == map@.len()
                    &&& forall|k: int|
                        0 <= k < map@.len() ==> models_of(out@)[k].0 == models_of(map@)[k].0
                            && channel_resampled_ok(
                            models_of(map@)[k].1,
                            g,
                            models_of(out@)[k].1,
                        )
                },
                None => false,
            },
            Err(e) => first_finalize_error(models_of(map@)) == Some(e),
        },
{
    let ghost models = models_of(map@);
    let acc = observe_timing(map);
    let g = match compute_grid(acc) {
        Some(g) => g,
        None => {
            return Err(AnimationError::DegenerateTiming);
        },
    };
    let mut out: Vec<(i32, BoneAnimationChannel)> = Vec::new();
    let mut j: usize = 0;
    proof {
        assert(models.skip(0) =~= models);
        assert(models.len() == map@.len());
    }
    while j < map.len()
        invariant
            j <= map@.len(),
            out@.len() == j,
            first_channel_error(models.skip(j as int)) == first_channel_error(models),
            forall|k: int|
                0 <= k < j ==> models_of(out@)[k].0 == models[k].0 && channel_resampled_ok(
                    models[k].1,
                    g,
                    models_of(out@)[k].1,
                ),
        decreases map@.len() - j,
    {
        let id = map[j].0;
        let ch = &map[j].1;
        proof {
            assert(models[j as int] == (map@[j as int].0, map@[j as int].1@));
            assert(models.skip(j as int)[0] == models[j as int]);
            assert(models.skip(j as int).drop_first() =~= models.skip(j as int + 1));
        }
        match resample_channel(ch, id, &g) {
            Ok(newch) => {
                let ghost oldout = models_of(out@);
                let ghost newm = newch@;
                out.push((id, newch));
                proof {
                    assert(models_of(out@) =~= oldout.push((id, newm)));
                    assert(models_of(out@)[j as int] == (id, newm));
                    assert(channel_error(models[j as int].1, models[j as int].0) is None);
                    assert(models.skip(j as int).len() > 0);
                    assert(channel_error(
                        models.skip(j as int)[0].1,
                        models.skip(j as int)[0].0,
                    ) is None);
                    assert(first_channel_error(models.skip(j as int)) == first_channel_error(
                        models.skip(j as int).drop_first(),
                    ));
                    assert(first_channel_error(models.skip(j as int)) == first_channel_error(
                        models.skip(j as int + 1),
                    ));
                }
            },
            Err(e) => {
                return Err(e);
            },
        }
        j = j + 1;
    }
    proof {
        assert(models.skip(map@.len() as int) =~= Seq::<(i32, ChannelModel)>::empty());
    }
    Ok(out)
}

} // verus!
