//! The data carried between the channel extractor and the timeline
//! resampler: per-node raw keyframe records, the decoded form of one source
//! channel, and the errors that make a whole animation unusable.

use vstd::prelude::*;

use crate::bits::{QuatBits, Vec3Bits};

verus! {

/// Which of a node's four component tracks a channel feeds.
#[derive(Clone, Copy, Debug, PartialEq, Eq, Structural)]
pub enum ComponentKind {
    Translation,
    Rotation,
    Scale,
    Weight,
}

/// A condition that makes the whole animation unusable; the caller degrades
/// the asset to a static model.
#[derive(Clone, Copy, Debug, PartialEq, Eq, Structural)]
pub enum AnimationError {
    /// A channel's timestamp accessor is sparse, which is not supported.
    SparseTimestamps { channel: usize },
    /// A channel exposes no timestamp data at all.
    MissingTimestamps { channel: usize },
    /// A channel exposes no keyframe payload.
    MissingKeyframes { channel: usize },
    /// A node received a second channel for a component it already holds.
    DuplicateChannel { node: i32, kind: ComponentKind },
    /// A channel's payload length differs from its timestamp length.
    LengthMismatch { node: i32, kind: ComponentKind, values: usize, timestamps: usize },
    /// A raw record reached the resampler with unequal value and timestamp
    /// lengths for one component.
    UnequalLengths { node: i32, kind: ComponentKind },
    /// The observed timestamps give no usable grid: the smallest gap is not
    /// a positive finite value, the largest timestamp is not finite and
    /// nonnegative, or the frame count does not fit.
    DegenerateTiming,
}

/// Raw animation data of one channel, tagged by component kind.
pub enum Keyframes {
    /// Translation raw data.
    Translation(Vec<Vec3Bits>),
    /// Rotation raw data.
    Rotation(Vec<QuatBits>),
    /// Scale raw data.
    Scale(Vec<Vec3Bits>),
    /// Morph target weights raw data.
    Weights(Vec<u32>),
}

/// What a channel's timestamp accessor decoded to.
pub enum TimestampSource {
    /// A dense array of timestamps.
    Dense(Vec<u32>),
    /// A sparse accessor, which is not supported.
    Sparse,
    /// No timestamp data could be read.
    Missing,
}

/// One decoded animation channel: the node it targets, its timestamps, and
/// its payload (`None` when no output data could be read).
pub struct ChannelSource {
    pub bone_id: i32,
    pub timestamps: TimestampSource,
    pub keyframes: Option<Keyframes>,
}

/// Raw TRS and weight keyframe data accumulated for one node (bone).
#[derive(Debug)]
pub struct BoneAnimationChannel {
    /// Translation data.
    pub translations: Vec<Vec3Bits>,
    /// Translation timestamp data.
    pub translation_timestamps: Vec<u32>,
    /// Rotation data.
    pub rotations: Vec<QuatBits>,
    /// Rotation timestamp data.
    pub rotation_timestamps: Vec<u32>,
    /// Scale data.
    pub scales: Vec<Vec3Bits>,
    /// Scale timestamp data.
    pub scale_timestamps: Vec<u32>,
    /// Weight data.
    pub weights: Vec<u32>,
    /// Weight timestamp data.
    pub weight_timestamps: Vec<u32>,
}

/// The mathematical view of a [`BoneAnimationChannel`]: eight sequences.
#[verifier::ext_equal]
pub struct ChannelModel {
    pub translations: Seq<Vec3Bits>,
    pub translation_timestamps: Seq<u32>,
    pub rotations: Seq<QuatBits>,
    pub rotation_timestamps: Seq<u32>,
    pub scales: Seq<Vec3Bits>,
    pub scale_timestamps: Seq<u32>,
    pub weights: Seq<u32>,
    pub weight_timestamps: Seq<u32>,
}

impl ChannelModel {
    /// The record a node starts from: every track empty.
    pub open spec fn empty() -> ChannelModel {
        ChannelModel {
            translations: Seq::empty(),
            translation_timestamps: Seq::empty(),
            rotations: Seq::empty(),
            rotation_timestamps: Seq::empty(),
            scales: Seq::empty(),
            scale_timestamps: Seq::empty(),
            weights: Seq::empty(),
            weight_timestamps: Seq::empty(),
        }
    }
}

impl View for BoneAnimationChannel {
    type V = ChannelModel;

    open spec fn view(&self) -> ChannelModel {
        ChannelModel {
            translations: self.translations@,
            translation_timestamps: self.translation_timestamps@,
            rotations: self.rotations@,
            rotation_timestamps: self.rotation_timestamps@,
            scales: self.scales@,
            scale_timestamps: self.scale_timestamps@,
            weights: self.weights@,
            weight_timestamps: self.weight_timestamps@,
        }
    }
}

impl BoneAnimationChannel {
    /// Create a new bone animation record with every track empty.
    pub fn new() -> (r: Self)
        ensures
            r@ == ChannelModel::empty(),
    {
        let r = BoneAnimationChannel {
            translations: Vec::new(),
            translation_timestamps: Vec::new(),
            rotations: Vec::new(),
            rotation_timestamps: Vec::new(),
            scales: Vec::new(),
            scale_timestamps: Vec::new(),
            weights: Vec::new(),
            weight_timestamps: Vec::new(),
        };
        proof {
            assert(r@ =~= ChannelModel::empty());
        }
        r
    }
}

} // verus!
