//! The laws the resampler obeys, stated over the specification functions
//! that the executable functions' contracts use.

use vstd::prelude::*;

use crate::bits::{precision_key_of, QuatBits, Vec3Bits};
use crate::channel::ChannelModel;
use crate::grid::{grid_spec, observed_timing, GridParams};
use crate::lookup::{exact_at, keys_of};
use crate::resample::{
    case_of, channel_error, channel_resampled_ok, first_channel_error, first_finalize_error,
    grid_key, grid_stamp, ident_stamp, out_stamp, out_vec3, quat_slot_ok, GridCase,
};

verus! {

/// Uniform length law: every record of a successful resampling carries
/// value and timestamp arrays of exactly the shared frame count for all
/// three TRS components.
pub proof fn lemma_uniform_lengths(ch: ChannelModel, g: GridParams, o: ChannelModel)
    requires
        channel_resampled_ok(ch, g, o),
    ensures
        o.translations.len() == g.required_frames,
        o.translation_timestamps.len() == g.required_frames,
        o.rotations.len() == g.required_frames,
        o.rotation_timestamps.len() == g.required_frames,
        o.scales.len() == g.required_frames,
        o.scale_timestamps.len() == g.required_frames,
{
}

/// Grid identity law, for the exactly representable cases: any two tracks
/// resampled by identity fill or broadcast (zero or one source keyframe)
/// carry the identical grid timestamp at every slot, `i` times the grid
/// spacing. Tracks that reach the grid through interpolation carry the same
/// instants only up to floating-point tolerance, which these bit-level
/// contracts do not state.
pub proof fn lemma_grid_identity_fills(
    stamps1: Seq<u32>,
    stamps2: Seq<u32>,
    g: GridParams,
    i: int,
)
    requires
        stamps1.len() <= 1,
        stamps2.len() <= 1,
        0 <= i < g.required_frames,
    ensures
        out_stamp(stamps1, g, i) == ident_stamp(i, g),
        out_stamp(stamps1, g, i) == out_stamp(stamps2, g, i),
{
}

/// Grid identity law, for the interpolated cases: any two tracks resampled
/// through the start/end policy or through a general slot without an exact
/// key match carry the identical grid timestamp at that slot, the slot's
/// fractional position scaled to the grid end. A slot with an exact key
/// match reuses the source instant, which agrees with the grid only up to
/// the precision key's quantization.
pub proof fn lemma_grid_identity_interpolated(
    stamps1: Seq<u32>,
    stamps2: Seq<u32>,
    g: GridParams,
    i: int,
)
    requires
        0 <= i < g.required_frames,
        case_of(stamps1, g) == GridCase::StartEnd || (case_of(stamps1, g) == GridCase::General
            && exact_at(keys_of(stamps1), grid_key(i, g)) is None),
        case_of(stamps2, g) == GridCase::StartEnd || (case_of(stamps2, g) == GridCase::General
            && exact_at(keys_of(stamps2), grid_key(i, g)) is None),
    ensures
        out_stamp(stamps1, g, i) == grid_stamp(i, g),
        out_stamp(stamps1, g, i) == out_stamp(stamps2, g, i),
{
}

/// Identity-fill law: a vector track with zero source keyframes yields the
/// identity value at every grid slot.
pub proof fn lemma_identity_fill_vec3(
    values: Seq<Vec3Bits>,
    stamps: Seq<u32>,
    g: GridParams,
    ident: Vec3Bits,
    i: int,
)
    requires
        values.len() == 0,
        stamps.len() == 0,
        0 <= i < g.required_frames,
    ensures
        out_vec3(values, stamps, g, ident, i) == ident,
{
}

/// Identity-fill law for rotation tracks: any value a resampled slot may
/// hold for an empty track is the identity quaternion.
pub proof fn lemma_identity_fill_quat(
    values: Seq<QuatBits>,
    stamps: Seq<u32>,
    g: GridParams,
    ident: QuatBits,
    i: int,
    v: QuatBits,
)
    requires
        values.len() == 0,
        stamps.len() == 0,
        0 <= i < g.required_frames,
        quat_slot_ok(values, stamps, g, ident, i, v),
    ensures
        v == ident,
{
}

/// Broadcast law: a vector track with exactly one source keyframe yields
/// that value, unchanged, at every grid slot.
pub proof fn lemma_broadcast_vec3(
    values: Seq<Vec3Bits>,
    stamps: Seq<u32>,
    g: GridParams,
    ident: Vec3Bits,
    i: int,
)
    requires
        values.len() == 1,
        stamps.len() == 1,
        0 <= i < g.required_frames,
    ensures
        out_vec3(values, stamps, g, ident, i) == values[0],
{
}

/// Broadcast law for rotation tracks: any value a resampled slot may hold
/// for a one-keyframe track is that keyframe's value.
pub proof fn lemma_broadcast_quat(
    values: Seq<QuatBits>,
    stamps: Seq<u32>,
    g: GridParams,
    ident: QuatBits,
    i: int,
    v: QuatBits,
)
    requires
        values.len() == 1,
        stamps.len() == 1,
        0 <= i < g.required_frames,
        quat_slot_ok(values, stamps, g, ident, i, v),
    ensures
        v == values[0],
{
}

/// Idempotence law: a vector track whose timestamps already sit on the
/// grid — first key at zero, last key at the grid end's key, and exactly
/// the shared frame count of keyframes — is returned value for value and
/// timestamp for timestamp.
pub proof fn lemma_raw_add_vec3(
    values: Seq<Vec3Bits>,
    stamps: Seq<u32>,
    g: GridParams,
    ident: Vec3Bits,
    i: int,
)
    requires
        values.len() == stamps.len(),
        stamps.len() == g.required_frames,
        stamps.len() >= 2,
        precision_key_of(stamps[0]) == 0,
        precision_key_of(stamps[stamps.len() - 1]) == precision_key_of(g.max_time),
        0 <= i < g.required_frames,
    ensures
        out_vec3(values, stamps, g, ident, i) == values[i],
        out_stamp(stamps, g, i) == stamps[i],
{
}

/// Idempotence law for rotation tracks: on a track already sitting on the
/// grid, any value a resampled slot may hold is the source keyframe's, and
/// the timestamp is the source timestamp.
pub proof fn lemma_raw_add_quat(
    values: Seq<QuatBits>,
    stamps: Seq<u32>,
    g: GridParams,
    ident: QuatBits,
    i: int,
    v: QuatBits,
)
    requires
        values.len() == stamps.len(),
        stamps.len() == g.required_frames,
        stamps.len() >= 2,
        precision_key_of(stamps[0]) == 0,
        precision_key_of(stamps[stamps.len() - 1]) == precision_key_of(g.max_time),
        0 <= i < g.required_frames,
        quat_slot_ok(values, stamps, g, ident, i, v),
    ensures
        v == values[i],
        out_stamp(stamps, g, i) == stamps[i],
{
}

/// Idempotence law for a whole record: when all three TRS tracks already sit
/// on the grid, resampling returns the record unchanged, weights included.
pub proof fn lemma_raw_add_channel(ch: ChannelModel, g: GridParams, o: ChannelModel)
    requires
        channel_resampled_ok(ch, g, o),
        ch.translations.len() == ch.translation_timestamps.len(),
        ch.rotations.len() == ch.rotation_timestamps.len(),
        ch.scales.len() == ch.scale_timestamps.len(),
        ch.translation_timestamps.len() == g.required_frames,
        ch.rotation_timestamps.len() == g.required_frames,
        ch.scale_timestamps.len() == g.required_frames,
        g.required_frames >= 2,
        precision_key_of(ch.translation_timestamps[0]) == 0,
        precision_key_of(ch.translation_timestamps[g.required_frames - 1]) == precision_key_of(
            g.max_time,
        ),
        precision_key_of(ch.rotation_timestamps[0]) == 0,
        precision_key_of(ch.rotation_timestamps[g.required_frames - 1]) == precision_key_of(
            g.max_time,
        ),
        precision_key_of(ch.scale_timestamps[0]) == 0,
        precision_key_of(ch.scale_timestamps[g.required_frames - 1]) == precision_key_of(
            g.max_time,
        ),
    ensures
        o == ch,
{
    assert forall|i: int| 0 <= i < g.required_frames implies o.translations[i]
        == ch.translations[i] && o.translation_timestamps[i] == ch.translation_timestamps[i] by {
        lemma_raw_add_vec3(ch.translations, ch.translation_timestamps, g, crate::bits::vec3_zero(), i);
    }
    assert forall|i: int| 0 <= i < g.required_frames implies o.rotations[i] == ch.rotations[i]
        && o.rotation_timestamps[i] == ch.rotation_timestamps[i] by {
        lemma_raw_add_quat(
            ch.rotations,
            ch.rotation_timestamps,
            g,
            crate::bits::quat_identity(),
            i,
            o.rotations[i],
        );
    }
    assert forall|i: int| 0 <= i < g.required_frames implies o.scales[i] == ch.scales[i]
        && o.scale_timestamps[i] == ch.scale_timestamps[i] by {
        lemma_raw_add_vec3(ch.scales, ch.scale_timestamps, g, crate::bits::vec3_one(), i);
    }
    assert(o =~= ch);
}

/// A corrupt record somewhere in the map makes `first_channel_error` report
/// a failure.
proof fn lemma_first_channel_error_some(list: Seq<(i32, ChannelModel)>, j: int)
    requires
        0 <= j < list.len(),
        channel_error(list[j].1, list[j].0) is Some,
    ensures
        first_channel_error(list) is Some,
    decreases list.len(),
{
    if channel_error(list[0].1, list[0].0) is Some {
    } else {
        assert(j >= 1);
        lemma_first_channel_error_some(list.drop_first(), j - 1);
    }
}

/// Fatal-on-corruption law: one record with a value array whose length
/// differs from its timestamp array fails the whole resampling — the result
/// is an error, never a partially resampled map.
pub proof fn lemma_fatal_on_corruption(list: Seq<(i32, ChannelModel)>, j: int)
    requires
        0 <= j < list.len(),
        channel_error(list[j].1, list[j].0) is Some,
    ensures
        first_finalize_error(list) is Some,
{
    if grid_spec(observed_timing(list)) is None {
    } else {
        lemma_first_channel_error_some(list, j);
    }
}

} // verus!
