//! End-to-end behaviour of the channel extractor and timeline resampler,
//! driven through the public API with real float data encoded as bits.

use minetest_gltf::bits::{QuatBits, Vec3Bits};
use minetest_gltf::channel::ComponentKind;
use minetest_gltf::{
    finalize_animations, grab_animations, AnimationError, BoneAnimationChannel, ChannelSource,
    Keyframes, TimestampSource,
};

fn v3(x: f32, y: f32, z: f32) -> Vec3Bits {
    Vec3Bits { x: x.to_bits(), y: y.to_bits(), z: z.to_bits() }
}

fn quat(x: f32, y: f32, z: f32, w: f32) -> QuatBits {
    QuatBits { x: x.to_bits(), y: y.to_bits(), z: z.to_bits(), w: w.to_bits() }
}

fn stamps(ts: &[f32]) -> Vec<u32> {
    ts.iter().map(|t| t.to_bits()).collect()
}

fn vec3_close(a: Vec3Bits, x: f32, y: f32, z: f32, tol: f32) -> bool {
    (f32::from_bits(a.x) - x).abs() <= tol && (f32::from_bits(a.y) - y).abs() <= tol
        && (f32::from_bits(a.z) - z).abs() <= tol
}

/// A rotation track that already sits on an 11-slot grid from 0.0 to 1.0,
/// pinning the global spacing at 0.1.
fn grid_rotation_channel() -> (Vec<QuatBits>, Vec<u32>) {
    let ts: Vec<f32> = (0..11).map(|i| i as f32 * 0.1).collect();
    let rs: Vec<QuatBits> = (0..11).map(|_| quat(0.0, 0.0, 0.0, 1.0)).collect();
    (rs, stamps(&ts))
}

fn node_with_rotation_grid() -> BoneAnimationChannel {
    let mut ch = BoneAnimationChannel::new();
    let (rs, rt) = grid_rotation_channel();
    ch.rotations = rs;
    ch.rotation_timestamps = rt;
    ch
}

#[test]
fn new_channel_is_empty() {
    let ch = BoneAnimationChannel::new();
    assert!(ch.translations.is_empty());
    assert!(ch.translation_timestamps.is_empty());
    assert!(ch.rotations.is_empty());
    assert!(ch.rotation_timestamps.is_empty());
    assert!(ch.scales.is_empty());
    assert!(ch.scale_timestamps.is_empty());
    assert!(ch.weights.is_empty());
    assert!(ch.weight_timestamps.is_empty());
}

#[test]
fn uniform_lengths_and_grid_identity() {
    // One node: rotations already on the grid, translations and scales
    // absent. Every resampled array must reach the shared frame count, and
    // the identity-filled timestamp arrays must agree exactly.
    let raw = vec![(4i32, node_with_rotation_grid())];
    let out = finalize_animations(&raw).expect("resampling must succeed");
    assert_eq!(out.len(), 1);
    let ch = &out[0].1;
    assert_eq!(out[0].0, 4);
    assert_eq!(ch.translations.len(), 11);
    assert_eq!(ch.translation_timestamps.len(), 11);
    assert_eq!(ch.rotations.len(), 11);
    assert_eq!(ch.rotation_timestamps.len(), 11);
    assert_eq!(ch.scales.len(), 11);
    assert_eq!(ch.scale_timestamps.len(), 11);
    // Identity-filled tracks share one grid, bit for bit.
    assert_eq!(ch.translation_timestamps, ch.scale_timestamps);
    // And all three timestamp arrays hold the same instants within
    // floating-point tolerance.
    for i in 0..11 {
        let expect = i as f32 * 0.1;
        assert!((f32::from_bits(ch.translation_timestamps[i]) - expect).abs() < 1e-5);
        assert!((f32::from_bits(ch.rotation_timestamps[i]) - expect).abs() < 1e-5);
        assert!((f32::from_bits(ch.scale_timestamps[i]) - expect).abs() < 1e-5);
    }
}

#[test]
fn identity_fill_for_empty_components() {
    let raw = vec![(0i32, node_with_rotation_grid())];
    let out = finalize_animations(&raw).expect("resampling must succeed");
    let ch = &out[0].1;
    for i in 0..11 {
        assert_eq!(ch.translations[i], v3(0.0, 0.0, 0.0));
        assert_eq!(ch.scales[i], v3(1.0, 1.0, 1.0));
    }
}

#[test]
fn broadcast_single_keyframe() {
    let mut node = node_with_rotation_grid();
    node.translations = vec![v3(2.5, -1.0, 7.0)];
    node.translation_timestamps = stamps(&[0.5]);
    let raw = vec![(1i32, node)];
    let out = finalize_animations(&raw).expect("resampling must succeed");
    let ch = &out[0].1;
    assert_eq!(ch.translations.len(), 11);
    for i in 0..11 {
        assert_eq!(ch.translations[i], v3(2.5, -1.0, 7.0));
    }
}

#[test]
fn raw_add_returns_source_unchanged() {
    let mut node = node_with_rotation_grid();
    let ts: Vec<f32> = (0..11).map(|i| i as f32 * 0.1).collect();
    let vals: Vec<Vec3Bits> = (0..11).map(|i| v3(i as f32, -(i as f32), 0.25 * i as f32)).collect();
    node.translations = vals.clone();
    node.translation_timestamps = stamps(&ts);
    let raw = vec![(2i32, node)];
    let out = finalize_animations(&raw).expect("resampling must succeed");
    let ch = &out[0].1;
    assert_eq!(ch.translations, vals);
    assert_eq!(ch.translation_timestamps, stamps(&ts));
}

#[test]
fn interpolation_boundary_start_end() {
    let mut node = node_with_rotation_grid();
    node.translations = vec![v3(1.0, 2.0, 3.0), v3(-5.0, 0.5, 9.0)];
    node.translation_timestamps = stamps(&[0.0, 1.0]);
    let raw = vec![(3i32, node)];
    let out = finalize_animations(&raw).expect("resampling must succeed");
    let ch = &out[0].1;
    // The endpoints reproduce the source values exactly.
    assert_eq!(ch.translations[0], v3(1.0, 2.0, 3.0));
    assert_eq!(ch.translations[10], v3(-5.0, 0.5, 9.0));
    // Interior slots follow the line between them.
    for i in 0..11 {
        let t = i as f32 / 10.0;
        assert!(vec3_close(
            ch.translations[i],
            1.0 + (-5.0 - 1.0) * t,
            2.0 + (0.5 - 2.0) * t,
            3.0 + (9.0 - 3.0) * t,
            1e-4
        ));
    }
}

#[test]
fn quat_start_end_matches_glam_lerp() {
    let qa = glam::Quat::from_xyzw(0.0, 0.0, 0.0, 1.0);
    let qb = glam::Quat::from_xyzw(0.7071068, 0.0, 0.0, 0.7071068);
    let mut node = BoneAnimationChannel::new();
    // Pin the grid spacing with an on-grid translation track.
    let ts: Vec<f32> = (0..11).map(|i| i as f32 * 0.1).collect();
    node.translations = (0..11).map(|_| v3(0.0, 0.0, 0.0)).collect();
    node.translation_timestamps = stamps(&ts);
    node.rotations = vec![
        quat(0.0, 0.0, 0.0, 1.0),
        quat(0.7071068, 0.0, 0.0, 0.7071068),
    ];
    node.rotation_timestamps = stamps(&[0.0, 1.0]);
    let raw = vec![(9i32, node)];
    let out = finalize_animations(&raw).expect("resampling must succeed");
    let ch = &out[0].1;
    for i in 0..11 {
        let pct = i as f32 / 10.0;
        let expect = qa.lerp(qb, pct);
        let got = ch.rotations[i];
        assert_eq!(got.x, expect.x.to_bits(), "slot {}", i);
        assert_eq!(got.y, expect.y.to_bits(), "slot {}", i);
        assert_eq!(got.z, expect.z.to_bits(), "slot {}", i);
        assert_eq!(got.w, expect.w.to_bits(), "slot {}", i);
    }
}

#[test]
fn monotonic_lookup_general_case() {
    // Keyframes at t = [0, 0.3, 1.0] with values A, B, C resampled onto an
    // 11-slot grid: A at the start, C at the end, and at t = 0.4 a value
    // strictly between B and C.
    let mut node = node_with_rotation_grid();
    node.translations = vec![v3(1.0, 0.0, 0.0), v3(2.0, 0.0, 0.0), v3(10.0, 0.0, 0.0)];
    node.translation_timestamps = stamps(&[0.0, 0.3, 1.0]);
    let raw = vec![(5i32, node)];
    let out = finalize_animations(&raw).expect("resampling must succeed");
    let ch = &out[0].1;
    assert_eq!(ch.translations.len(), 11);
    assert_eq!(ch.translations[0], v3(1.0, 0.0, 0.0));
    assert_eq!(ch.translations[10], v3(10.0, 0.0, 0.0));
    let x4 = f32::from_bits(ch.translations[4].x);
    assert!(x4 > 2.0 && x4 < 10.0, "expected strictly between B and C, got {}", x4);
    // t = 0.4 sits 1/7 of the way from B (t=0.3) to C (t=1.0).
    assert!((x4 - (2.0 + 8.0 / 7.0)).abs() < 1e-3);
}

#[test]
fn precision_key_collapses_nearby_stamps() {
    // A source timestamp that differs from the grid instant in its low bits
    // but shares its 5-digit precision key: the keyframe is reused verbatim,
    // source timestamp included.
    let near = 0.30000004f32;
    assert_ne!(near.to_bits(), (0.3f32).to_bits());
    let mut node = node_with_rotation_grid();
    node.translations = vec![v3(1.0, 0.0, 0.0), v3(42.0, 0.0, 0.0), v3(10.0, 0.0, 0.0)];
    node.translation_timestamps = stamps(&[0.0, near, 1.0]);
    let raw = vec![(6i32, node)];
    let out = finalize_animations(&raw).expect("resampling must succeed");
    let ch = &out[0].1;
    assert_eq!(ch.translations[3], v3(42.0, 0.0, 0.0));
    assert_eq!(ch.translation_timestamps[3], near.to_bits());
}

#[test]
fn fatal_on_corrupt_lengths() {
    let mut node = node_with_rotation_grid();
    node.translations = vec![v3(0.0, 0.0, 0.0), v3(1.0, 0.0, 0.0), v3(2.0, 0.0, 0.0)];
    node.translation_timestamps = stamps(&[0.0, 1.0]);
    let raw = vec![(7i32, node)];
    let r = finalize_animations(&raw);
    assert_eq!(
        r.err(),
        Some(AnimationError::UnequalLengths { node: 7, kind: ComponentKind::Translation })
    );
}

#[test]
fn degenerate_timing_zero_gap() {
    let mut node = BoneAnimationChannel::new();
    node.translations = vec![v3(0.0, 0.0, 0.0), v3(1.0, 0.0, 0.0), v3(2.0, 0.0, 0.0)];
    node.translation_timestamps = stamps(&[0.0, 0.5, 0.5]);
    let raw = vec![(8i32, node)];
    assert_eq!(finalize_animations(&raw).err(), Some(AnimationError::DegenerateTiming));
}

#[test]
fn degenerate_timing_unsorted_stamps() {
    let mut node = BoneAnimationChannel::new();
    node.translations = vec![v3(0.0, 0.0, 0.0), v3(1.0, 0.0, 0.0), v3(2.0, 0.0, 0.0)];
    node.translation_timestamps = stamps(&[0.0, 0.8, 0.4]);
    let raw = vec![(8i32, node)];
    assert_eq!(finalize_animations(&raw).err(), Some(AnimationError::DegenerateTiming));
}

#[test]
fn end_to_end_two_keyframe_rig() {
    // One animated node: two translation keyframes from (0,0,0) at t=0 to
    // (10,0,0) at t=1, with the grid spacing pinned at 0.1 elsewhere. The
    // resampled track walks (i, 0, 0) at t = i / 10.
    let translation = ChannelSource {
        bone_id: 11,
        timestamps: TimestampSource::Dense(stamps(&[0.0, 1.0])),
        keyframes: Some(Keyframes::Translation(vec![v3(0.0, 0.0, 0.0), v3(10.0, 0.0, 0.0)])),
    };
    let (rs, rt) = grid_rotation_channel();
    let rotation = ChannelSource {
        bone_id: 11,
        timestamps: TimestampSource::Dense(rt),
        keyframes: Some(Keyframes::Rotation(rs)),
    };
    let raw = grab_animations(vec![translation, rotation]).expect("extraction must succeed");
    assert_eq!(raw.len(), 1);
    assert_eq!(raw[0].0, 11);
    let out = finalize_animations(&raw).expect("resampling must succeed");
    let ch = &out[0].1;
    assert_eq!(ch.translations.len(), 11);
    assert_eq!(ch.translation_timestamps.len(), 11);
    for i in 0..11 {
        assert!(vec3_close(ch.translations[i], i as f32, 0.0, 0.0, 1e-4), "slot {}", i);
        assert!((f32::from_bits(ch.translation_timestamps[i]) - i as f32 * 0.1).abs() < 1e-5);
    }
}

#[test]
fn extractor_routes_channels_by_node() {
    let t0 = ChannelSource {
        bone_id: 1,
        timestamps: TimestampSource::Dense(stamps(&[0.0, 1.0])),
        keyframes: Some(Keyframes::Translation(vec![v3(0.0, 0.0, 0.0), v3(1.0, 1.0, 1.0)])),
    };
    let s1 = ChannelSource {
        bone_id: 2,
        timestamps: TimestampSource::Dense(stamps(&[0.0])),
        keyframes: Some(Keyframes::Scale(vec![v3(2.0, 2.0, 2.0)])),
    };
    let w0 = ChannelSource {
        bone_id: 1,
        timestamps: TimestampSource::Dense(stamps(&[0.0, 0.5, 1.0])),
        keyframes: Some(Keyframes::Weights(vec![(0.25f32).to_bits(), (0.75f32).to_bits()])),
    };
    let map = grab_animations(vec![t0, s1, w0]).expect("extraction must succeed");
    assert_eq!(map.len(), 2);
    assert_eq!(map[0].0, 1);
    assert_eq!(map[1].0, 2);
    assert_eq!(map[0].1.translations.len(), 2);
    assert_eq!(map[1].1.scales.len(), 1);
    // Weights are stored without the length comparison.
    assert_eq!(map[0].1.weights.len(), 2);
    assert_eq!(map[0].1.weight_timestamps.len(), 3);
}

#[test]
fn extractor_rejects_sparse_timestamps() {
    let bad = ChannelSource { bone_id: 0, timestamps: TimestampSource::Sparse, keyframes: None };
    assert_eq!(
        grab_animations(vec![bad]).err(),
        Some(AnimationError::SparseTimestamps { channel: 0 })
    );
}

#[test]
fn extractor_rejects_missing_timestamps() {
    let bad = ChannelSource { bone_id: 0, timestamps: TimestampSource::Missing, keyframes: None };
    assert_eq!(
        grab_animations(vec![bad]).err(),
        Some(AnimationError::MissingTimestamps { channel: 0 })
    );
}

#[test]
fn extractor_rejects_missing_keyframes() {
    let ok = ChannelSource {
        bone_id: 3,
        timestamps: TimestampSource::Dense(stamps(&[0.0])),
        keyframes: Some(Keyframes::Scale(vec![v3(1.0, 1.0, 1.0)])),
    };
    let bad = ChannelSource {
        bone_id: 3,
        timestamps: TimestampSource::Dense(stamps(&[0.0])),
        keyframes: None,
    };
    assert_eq!(
        grab_animations(vec![ok, bad]).err(),
        Some(AnimationError::MissingKeyframes { channel: 1 })
    );
}

#[test]
fn extractor_rejects_duplicate_component() {
    let first = ChannelSource {
        bone_id: 4,
        timestamps: TimestampSource::Dense(stamps(&[0.0])),
        keyframes: Some(Keyframes::Translation(vec![v3(1.0, 0.0, 0.0)])),
    };
    let second = ChannelSource {
        bone_id: 4,
        timestamps: TimestampSource::Dense(stamps(&[0.5])),
        keyframes: Some(Keyframes::Translation(vec![v3(2.0, 0.0, 0.0)])),
    };
    assert_eq!(
        grab_animations(vec![first, second]).err(),
        Some(AnimationError::DuplicateChannel { node: 4, kind: ComponentKind::Translation })
    );
}

#[test]
fn extractor_rejects_length_mismatch() {
    let bad = ChannelSource {
        bone_id: 5,
        timestamps: TimestampSource::Dense(stamps(&[0.0, 1.0])),
        keyframes: Some(Keyframes::Rotation(vec![quat(0.0, 0.0, 0.0, 1.0)])),
    };
    assert_eq!(
        grab_animations(vec![bad]).err(),
        Some(AnimationError::LengthMismatch {
            node: 5,
            kind: ComponentKind::Rotation,
            values: 1,
            timestamps: 2
        })
    );
}

#[test]
fn weights_carried_through_unchanged() {
    let mut node = node_with_rotation_grid();
    node.weights = vec![(0.25f32).to_bits(), (0.5f32).to_bits()];
    node.weight_timestamps = stamps(&[0.0, 1.0]);
    let raw = vec![(12i32, node)];
    let out = finalize_animations(&raw).expect("resampling must succeed");
    let ch = &out[0].1;
    assert_eq!(ch.weights, vec![(0.25f32).to_bits(), (0.5f32).to_bits()]);
    assert_eq!(ch.weight_timestamps, stamps(&[0.0, 1.0]));
}

#[test]
fn empty_map_resamples_to_empty_map() {
    let raw: Vec<(i32, BoneAnimationChannel)> = vec![];
    let out = finalize_animations(&raw).expect("nothing to resample");
    assert!(out.is_empty());
}

#[test]
fn all_empty_node_gets_identities() {
    // A second node with no keyframes at all still comes out with full
    // identity tracks on the shared grid.
    let raw = vec![(0i32, node_with_rotation_grid()), (1i32, BoneAnimationChannel::new())];
    let out = finalize_animations(&raw).expect("resampling must succeed");
    assert_eq!(out.len(), 2);
    assert_eq!(out[1].0, 1);
    let ch = &out[1].1;
    assert_eq!(ch.rotations.len(), 11);
    for i in 0..11 {
        assert_eq!(ch.translations[i], v3(0.0, 0.0, 0.0));
        assert_eq!(ch.rotations[i], quat(0.0, 0.0, 0.0, 1.0));
        assert_eq!(ch.scales[i], v3(1.0, 1.0, 1.0));
    }
    assert!(ch.weights.is_empty());
    assert!(ch.weight_timestamps.is_empty());
}

#[test]
fn skinned_needs_joints_and_weights_everywhere() {
    assert!(!minetest_gltf::is_model_skinned(&vec![]));
    assert!(minetest_gltf::is_model_skinned(&vec![(true, true), (true, true)]));
    assert!(!minetest_gltf::is_model_skinned(&vec![(true, true), (true, false)]));
    assert!(!minetest_gltf::is_model_skinned(&vec![(false, true)]));
}

#[test]
fn file_name_from_existing_path() {
    let name = minetest_gltf::file_name_from_path("/tmp").expect("path exists");
    assert_eq!(name, "tmp");
}

#[test]
fn file_name_from_root_path() {
    let err = minetest_gltf::file_name_from_path("/").unwrap_err();
    assert_eq!(err, "File name from file path. Failed to parse OS Path str.");
}

#[test]
fn file_name_from_missing_path() {
    let err = minetest_gltf::file_name_from_path("no/such/path.gltf").unwrap_err();
    assert_eq!(err, "File name from file path. Path does not exist.");
}
