//! The channel extractor: walks the decoded channels of the first animation
//! clip in source order and accumulates their keyframe payloads into one raw
//! record per targeted node. The first unsupported or corrupt channel makes
//! the whole animation unusable.

use vstd::prelude::*;

use crate::bits::{QuatBits, Vec3Bits};
use crate::channel::{
    AnimationError, BoneAnimationChannel, ChannelModel, ChannelSource, ComponentKind, Keyframes,
    TimestampSource,
};

verus! {

/// The mathematical view of a [`TimestampSource`].
pub enum TimestampsModel {
    Dense(Seq<u32>),
    Sparse,
    Missing,
}

/// The mathematical view of a [`Keyframes`] payload.
pub enum KeyframesModel {
    Translation(Seq<Vec3Bits>),
    Rotation(Seq<QuatBits>),
    Scale(Seq<Vec3Bits>),
    Weights(Seq<u32>),
}

/// The mathematical view of a [`ChannelSource`].
pub struct ChannelSourceModel {
    pub bone_id: i32,
    pub timestamps: TimestampsModel,
    pub keyframes: Option<KeyframesModel>,
}

impl View for TimestampSource {
    type V = TimestampsModel;

    open spec fn view(&self) -> TimestampsModel {
        match self {
            TimestampSource::Dense(ts) => TimestampsModel::Dense(ts@),
            TimestampSource::Sparse => TimestampsModel::Sparse,
            TimestampSource::Missing => TimestampsModel::Missing,
        }
    }
}

impl View for Keyframes {
    type V = KeyframesModel;

    open spec fn view(&self) -> KeyframesModel {
        match self {
            Keyframes::Translation(v) => KeyframesModel::Translation(v@),
            Keyframes::Rotation(v) => KeyframesModel::Rotation(v@),
            Keyframes::Scale(v) => KeyframesModel::Scale(v@),
            Keyframes::Weights(v) => KeyframesModel::Weights(v@),
        }
    }
}

impl View for ChannelSource {
    type V = ChannelSourceModel;

    open spec fn view(&self) -> ChannelSourceModel {
        ChannelSourceModel {
            bone_id: self.bone_id,
            timestamps: self.timestamps@,
            keyframes: match self.keyframes {
                Some(kf) => Some(kf@),
                None => None,
            },
        }
    }
}

/// The views of a node map's entries.
pub open spec fn models_of(m: Seq<(i32, BoneAnimationChannel)>) -> Seq<(i32, ChannelModel)> {
    m.map_values(|p: (i32, BoneAnimationChannel)| (p.0, p.1@))
}

/// The views of a channel list's entries.
pub open spec fn sources_of(chs: Seq<ChannelSource>) -> Seq<ChannelSourceModel> {
    chs.map_values(|c: ChannelSource| c@)
}

/// The index of the record node `id` accumulates into, if one exists yet.
pub open spec fn find_node(m: Seq<(i32, ChannelModel)>, id: i32) -> Option<int>
    decreases m.len(),
{
    if m.len() == 0 {
        None
    } else if m[0].0 == id {
        Some(0int)
    } else {
        match find_node(m.drop_first(), id) {
            Some(j) => Some(j + 1),
            None => None,
        }
    }
}

/// Routes one decoded payload into the matching track of a node's record:
/// rejected if the track is already populated, or (for the three TRS kinds)
/// if the payload length differs from the timestamp length. Weights skip the
/// length comparison.
pub open spec fn route_payload(
    entry: ChannelModel,
    node: i32,
    kf: KeyframesModel,
    ts: Seq<u32>,
) -> Result<ChannelModel, AnimationError> {
    match kf {
        KeyframesModel::Translation(vals) => if entry.translations.len() != 0 {
            Err(AnimationError::DuplicateChannel { node, kind: ComponentKind::Translation })
        } else if vals.len() != ts.len() {
            Err(AnimationError::LengthMismatch {
                node,
                kind: ComponentKind::Translation,
                values: vals.len() as usize,
                timestamps: ts.len() as usize,
            })
        } else {
            Ok(ChannelModel { translations: vals, translation_timestamps: ts, ..entry })
        },
        KeyframesModel::Rotation(vals) => if entry.rotations.len() != 0 {
            Err(AnimationError::DuplicateChannel { node, kind: ComponentKind::Rotation })
        } else if vals.len() != ts.len() {
            Err(AnimationError::LengthMismatch {
                node,
                kind: ComponentKind::Rotation,
                values: vals.len() as usize,
                timestamps: ts.len() as usize,
            })
        } else {
            Ok(ChannelModel { rotations: vals, rotation_timestamps: ts, ..entry })
        },
        KeyframesModel::Scale(vals) => if entry.scales.len() != 0 {
            Err(AnimationError::DuplicateChannel { node, kind: ComponentKind::Scale })
        } else if vals.len() != ts.len() {
            Err(AnimationError::LengthMismatch {
                node,
                kind: ComponentKind::Scale,
                values: vals.len() as usize,
                timestamps: ts.len() as usize,
            })
        } else {
            Ok(ChannelModel { scales: vals, scale_timestamps: ts, ..entry })
        },
        KeyframesModel::Weights(vals) => if entry.weights.len() != 0 {
            Err(AnimationError::DuplicateChannel { node, kind: ComponentKind::Weight })
        } else {
            Ok(ChannelModel { weights: vals, weight_timestamps: ts, ..entry })
        },
    }
}

/// Processes the channel at position `index`: a sparse or missing timestamp
/// accessor and a missing payload are unsupported; otherwise the payload is
/// routed into the targeted node's record, created empty on first reference.
pub open spec fn route_channel(
    m: Seq<(i32, ChannelModel)>,
    index: int,
    c: ChannelSourceModel,
) -> Result<Seq<(i32, ChannelModel)>, AnimationError> {
    match c.timestamps {
        TimestampsModel::Sparse => Err(
            AnimationError::SparseTimestamps { channel: index as usize },
        ),
        TimestampsModel::Missing => Err(
            AnimationError::MissingTimestamps { channel: index as usize },
        ),
        TimestampsModel::Dense(ts) => match c.keyframes {
            None => Err(AnimationError::MissingKeyframes { channel: index as usize }),
            Some(kf) => match find_node(m, c.bone_id) {
                Some(j) => match route_payload(m[j].1, c.bone_id, kf, ts) {
                    Ok(entry) => Ok(m.update(j, (c.bone_id, entry))),
                    Err(e) => Err(e),
                },
                None => match route_payload(ChannelModel::empty(), c.bone_id, kf, ts) {
                    Ok(entry) => Ok(m.push((c.bone_id, entry))),
                    Err(e) => Err(e),
                },
            },
        },
    }
}

/// The node map after the first `n` channels, or the first fatal error.
pub open spec fn extract_prefix(
    chs: Seq<ChannelSourceModel>,
    n: int,
) -> Result<Seq<(i32, ChannelModel)>, AnimationError>
    decreases n,
{
    if n <= 0 {
        Ok(Seq::empty())
    } else {
        match extract_prefix(chs, n - 1) {
            Ok(m) => route_channel(m, n - 1, chs[n - 1]),
            Err(e) => Err(e),
        }
    }
}

/// What extraction yields for a whole channel list.
pub open spec fn extract_spec(
    chs: Seq<ChannelSourceModel>,
) -> Result<Seq<(i32, ChannelModel)>, AnimationError> {
    extract_prefix(chs, chs.len() as int)
}

/// Once a prefix of the channel list fails, every longer prefix fails the
/// same way.
proof fn lemma_extract_err_persists(
    chs: Seq<ChannelSourceModel>,
    j: int,
    e: AnimationError,
    n: int,
)
    requires
        0 <= j <= n,
        extract_prefix(chs, j) == Err::<Seq<(i32, ChannelModel)>, AnimationError>(e),
    ensures
        extract_prefix(chs, n) == Err::<Seq<(i32, ChannelModel)>, AnimationError>(e),
    decreases n - j,
{
    if n > j {
        lemma_extract_err_persists(chs, j, e, n - 1);
    }
}

/// `find_node` returns the first index holding `id`, and `None` when no
/// entry holds it.
proof fn lemma_find_node(m: Seq<(i32, ChannelModel)>, id: i32, j: int)
    requires
        0 <= j <= m.len(),
        forall|k: int| 0 <= k < j ==> m[k].0 != id,
        j < m.len() ==> m[j].0 == id,
    ensures
        j == m.len() ==> find_node(m, id) is None,
        j < m.len() ==> find_node(m, id) == Some(j),
    decreases m.len(),
{
    if m.len() == 0 {
    } else if m[0].0 == id {
        assert(j == 0);
    } else {
        assert(j >= 1);
        lemma_find_node(m.drop_first(), id, j - 1);
    }
}

/// Finds the record already accumulating for node `id`, scanning in order.
fn find_entry(map: &Vec<(i32, BoneAnimationChannel)>, id: i32) -> (r: Option<usize>)
    ensures
        match r {
            Some(j) => j < map@.len() && map@[j as int].0 == id && find_node(
                models_of(map@),
                id,
            ) == Some(j as int),
            None => find_node(models_of(map@), id) is None,
        },
{
    let ghost models = models_of(map@);
    proof {
        assert(models.len() == map@.len());
    }
    let mut j: usize = 0;
    while j < map.len()
        invariant
            j <= map@.len(),
            models == models_of(map@),
            models.len() == map@.len(),
            forall|k: int| 0 <= k < j ==> models[k].0 != id,
        decreases map@.len() - j,
    {
        proof {
            assert(models[j as int].0 == map@[j as int].0);
        }
        if map[j].0 == id {
            proof {
                lemma_find_node(models, id, j as int);
            }
            return Some(j);
        }
        j = j + 1;
    }
    proof {
        lemma_find_node(models, id, map@.len() as int);
    }
    None
}

/// Walks the decoded channels in source order and accumulates their payloads
/// into one raw record per node id, exactly as [`extract_spec`] describes:
/// the resulting map on success, or the first fatal condition.
#[verifier::loop_isolation(false)]
pub fn grab_animations(channels: Vec<ChannelSource>) -> (r: Result<
    Vec<(i32, BoneAnimationChannel)>,
    AnimationError,
>)
    ensures
        match r {
            Ok(m) => extract_spec(sources_of(channels@)) == Ok::<
                Seq<(i32, ChannelModel)>,
                AnimationError,
            >(models_of(m@)),
            Err(e) => extract_spec(sources_of(channels@)) == Err::<
                Seq<(i32, ChannelModel)>,
                AnimationError,
            >(e),
        },
{
    let ghost srcs = sources_of(channels@);
    let mut remaining = channels;
    let total: usize = remaining.len();
    let mut map: Vec<(i32, BoneAnimationChannel)> = Vec::new();
    let mut i: usize = 0;
    proof {
        assert(srcs.len() == total);
        assert(models_of(map@) =~= Seq::<(i32, ChannelModel)>::empty());
    }
    while remaining.len() > 0
        invariant
            i + remaining@.len() == srcs.len(),
            forall|k: int| 0 <= k < remaining@.len() ==> srcs[i + k] == #[trigger] remaining@[k]@,
            extract_prefix(srcs, i as int) == Ok::<Seq<(i32, ChannelModel)>, AnimationError>(
                models_of(map@),
            ),
        decreases remaining@.len(),
    {
        let ghost pre = models_of(map@);
        let ghost old_rem = remaining@;
        let c = remaining.remove(0);
        let ghost cm = c@;
        proof {
            assert(cm == srcs[i as int]);
            assert forall|k: int| 0 <= k < remaining@.len() implies srcs[i + 1 + k]
                == #[trigger] remaining@[k]@ by {
                assert(remaining@[k] == old_rem[k + 1]);
                assert(old_rem[k + 1]@ == srcs[i + 1 + k]);
            }
        }
        let ts: Vec<u32> = match c.timestamps {
            TimestampSource::Dense(ts) => ts,
            TimestampSource::Sparse => {
                proof {
                    lemma_extract_err_persists(
                        srcs,
                        i + 1,
                        AnimationError::SparseTimestamps { channel: i },
                        srcs.len() as int,
                    );
                }
                return Err(AnimationError::SparseTimestamps { channel: i });
            },
            TimestampSource::Missing => {
                proof {
                    lemma_extract_err_persists(
                        srcs,
                        i + 1,
                        AnimationError::MissingTimestamps { channel: i },
                        srcs.len() as int,
                    );
                }
                return Err(AnimationError::MissingTimestamps { channel: i });
            },
        };
        let kf: Keyframes = match c.keyframes {
            Some(kf) => kf,
            None => {
                proof {
                    lemma_extract_err_persists(
                        srcs,
                        i + 1,
                        AnimationError::MissingKeyframes { channel: i },
                        srcs.len() as int,
                    );
                }
                return Err(AnimationError::MissingKeyframes { channel: i });
            },
        };
        let ghost kfm = kf@;
        proof {
            assert(cm.keyframes == Some(kfm));
        }
        let ghost tsm = ts@;
        let found = find_entry(&map, c.bone_id);
        let ghost foundm = found;
        let idx: usize = match found {
            Some(j) => j,
            None => {
                map.push((c.bone_id, BoneAnimationChannel::new()));
                proof {
                    assert(models_of(map@) =~= pre.push((c.bone_id, ChannelModel::empty())));
                }
                map.len() - 1
            },
        };
        let ghost based = models_of(map@);
        let ghost entry0 = based[idx as int].1;
        proof {
            assert(entry0 == map@[idx as int].1@);
            if foundm is None {
                assert(entry0 =~= ChannelModel::empty());
            }
        }
        match kf {
            Keyframes::Translation(vals) => {
                let ghost valsm = vals@;
                proof {
                    assert(kfm == KeyframesModel::Translation(valsm));
                }
                if map[idx].1.translations.len() != 0 {
                    let e = AnimationError::DuplicateChannel {
                        node: c.bone_id,
                        kind: ComponentKind::Translation,
                    };
                    proof {
                        lemma_extract_err_persists(srcs, i + 1, e, srcs.len() as int);
                    }
                    return Err(e);
                }
                if vals.len() != ts.len() {
                    let e = AnimationError::LengthMismatch {
                        node: c.bone_id,
                        kind: ComponentKind::Translation,
                        values: vals.len(),
                        timestamps: ts.len(),
                    };
                    proof {
                        lemma_extract_err_persists(srcs, i + 1, e, srcs.len() as int);
                    }
                    return Err(e);
                }
                let e = &mut map[idx];
                e.1.translations = vals;
                e.1.translation_timestamps = ts;
                proof {
                    assert(map@[idx as int].1@ =~= ChannelModel {
                        translations: valsm,
                        translation_timestamps: tsm,
                        ..entry0
                    });
                }
            },
            Keyframes::Rotation(vals) => {
                let ghost valsm = vals@;
                proof {
                    assert(kfm == KeyframesModel::Rotation(valsm));
                }
                if map[idx].1.rotations.len() != 0 {
                    let e = AnimationError::DuplicateChannel {
                        node: c.bone_id,
                        kind: ComponentKind::Rotation,
                    };
                    proof {
                        lemma_extract_err_persists(srcs, i + 1, e, srcs.len() as int);
                    }
                    return Err(e);
                }
                if vals.len() != ts.len() {
                    let e = AnimationError::LengthMismatch {
                        node: c.bone_id,
                        kind: ComponentKind::Rotation,
                        values: vals.len(),
                        timestamps: ts.len(),
                    };
                    proof {
                        lemma_extract_err_persists(srcs, i + 1, e, srcs.len() as int);
                    }
                    return Err(e);
                }
                let e = &mut map[idx];
                e.1.rotations = vals;
                e.1.rotation_timestamps = ts;
                proof {
                    assert(map@[idx as int].1@ =~= ChannelModel {
                        rotations: valsm,
                        rotation_timestamps: tsm,
                        ..entry0
                    });
                }
            },
            Keyframes::Scale(vals) => {
                let ghost valsm = vals@;
                proof {
                    assert(kfm == KeyframesModel::Scale(valsm));
                }
                if map[idx].1.scales.len() != 0 {
                    let e = AnimationError::DuplicateChannel {
                        node: c.bone_id,
                        kind: ComponentKind::Scale,
                    };
                    proof {
                        lemma_extract_err_persists(srcs, i + 1, e, srcs.len() as int);
                    }
                    return Err(e);
                }
                if vals.len() != ts.len() {
                    let e = AnimationError::LengthMismatch {
                        node: c.bone_id,
                        kind: ComponentKind::Scale,
                        values: vals.len(),
                        timestamps: ts.len(),
                    };
                    proof {
                        lemma_extract_err_persists(srcs, i + 1, e, srcs.len() as int);
                    }
                    return Err(e);
                }
                let e = &mut map[idx];
                e.1.scales = vals;
                e.1.scale_timestamps = ts;
                proof {
                    assert(map@[idx as int].1@ =~= ChannelModel {
                        scales: valsm,
                        scale_timestamps: tsm,
                        ..entry0
                    });
                }
            },
            Keyframes::Weights(vals) => {
                let ghost valsm = vals@;
                proof {
                    assert(kfm == KeyframesModel::Weights(valsm));
                }
                if map[idx].1.weights.len() != 0 {
                    let e = AnimationError::DuplicateChannel {
                        node: c.bone_id,
                        kind: ComponentKind::Weight,
                    };
                    proof {
                        lemma_extract_err_persists(srcs, i + 1, e, srcs.len() as int);
                    }
                    return Err(e);
                }
                let e = &mut map[idx];
                e.1.weights = vals;
                e.1.weight_timestamps = ts;
                proof {
                    assert(map@[idx as int].1@ =~= ChannelModel {
                        weights: valsm,
                        weight_timestamps: tsm,
                        ..entry0
                    });
                }
            },
        }
        proof {
            let newent = map@[idx as int].1@;
            assert(route_payload(entry0, cm.bone_id, kfm, tsm) == Ok::<
                ChannelModel,
                AnimationError,
            >(newent));
            if foundm is Some {
                assert(models_of(map@) =~~= pre.update(idx as int, (cm.bone_id, newent)));
            } else {
                assert(models_of(map@) =~~= pre.push((cm.bone_id, newent)));
            }
            assert(route_channel(pre, i as int, cm) == Ok::<
                Seq<(i32, ChannelModel)>,
                AnimationError,
            >(models_of(map@)));
        }
        i = i + 1;
    }
    proof {
        assert(i == srcs.len());
    }
    Ok(map)
}

} // verus!
