//! How the content of a primary timeline is copied into a replica.

use super::replica::{addition_order, TrackElement};
use vstd::prelude::*;

verus! {

/// A clip of a primary timeline.
#[derive(Debug)]
pub struct Clip {
    pub id: u64,
    pub children: Vec<TrackElement>,
}

/// A layer of a primary timeline.
#[derive(Debug)]
pub struct Layer {
    pub id: u64,
    pub clips: Vec<Clip>,
}

/// What is in a primary timeline.
#[derive(Debug)]
pub struct TimelineContent {
    pub tracks: Vec<u64>,
    pub layers: Vec<Layer>,
}

/// One step of a copy. Every object is given by its number in the primary; the step is about its
/// replica.
#[derive(Debug, Clone, Copy, PartialEq, Eq, Structural)]
pub enum CopyStep {
    AddTrack { track: u64 },
    AddLayer { layer: u64 },
    AddClip { layer: u64, clip: u64 },
    AddElement { clip: u64, element: u64 },
}

/// The steps that add some track elements to a clip.
pub open spec fn element_steps(clip: u64, elements: Seq<u64>) -> Seq<CopyStep> {
    Seq::new(elements.len(), |i: int| CopyStep::AddElement { clip, element: elements[i] })
}

/// The steps that copy a clip into a layer: the clip, and its track elements, core ones first.
pub open spec fn clip_steps(layer: u64, clip: Clip) -> Seq<CopyStep> {
    seq![CopyStep::AddClip { layer, clip: clip.id }] + element_steps(
        clip.id,
        super::replica::core_first(clip.children@),
    )
}

pub open spec fn clips_steps(layer: u64, clips: Seq<Clip>) -> Seq<CopyStep>
    decreases clips.len(),
{
    if clips.len() == 0 {
        Seq::empty()
    } else {
        clips_steps(layer, clips.drop_last()) + clip_steps(layer, clips.last())
    }
}

/// The steps that copy a layer with its clips.
pub open spec fn layer_steps(layer: Layer) -> Seq<CopyStep> {
    seq![CopyStep::AddLayer { layer: layer.id }] + clips_steps(layer.id, layer.clips@)
}

pub open spec fn layers_steps(layers: Seq<Layer>) -> Seq<CopyStep>
    decreases layers.len(),
{
    if layers.len() == 0 {
        Seq::empty()
    } else {
        layers_steps(layers.drop_last()) + layer_steps(layers.last())
    }
}

pub open spec fn track_steps(tracks: Seq<u64>) -> Seq<CopyStep> {
    Seq::new(tracks.len(), |i: int| CopyStep::AddTrack { track: tracks[i] })
}

/// The steps that copy a timeline: its tracks, then its layers.
pub open spec fn timeline_steps(content: TimelineContent) -> Seq<CopyStep> {
    track_steps(content.tracks@) + layers_steps(content.layers@)
}

/// Plans the copy of a clip into a layer.
pub fn plan_clip(layer: u64, clip: &Clip, steps: &mut Vec<CopyStep>)
    ensures
        final(steps)@ == old(steps)@ + clip_steps(layer, *clip),
{
    let ghost before = steps@;
    let order = addition_order(&clip.children);
    steps.push(CopyStep::AddClip { layer, clip: clip.id });
    let mut i: usize = 0;
    while i < order.len()
        invariant
            i <= order.len(),
            steps@ == before.push(CopyStep::AddClip { layer, clip: clip.id }) + element_steps(
                clip.id,
                order@.take(i as int),
            ),
        decreases order.len() - i,
    {
        steps.push(CopyStep::AddElement { clip: clip.id, element: order[i] });
        i = i + 1;
        proof {
            assert(steps@ =~= before.push(CopyStep::AddClip { layer, clip: clip.id })
                + element_steps(clip.id, order@.take(i as int)));
        }
    }
    proof {
        assert(order@.take(order@.len() as int) =~= order@);
        assert(steps@ =~= before + clip_steps(layer, *clip));
    }
}

/// Plans the copy of a layer.
pub fn plan_layer(layer: &Layer, steps: &mut Vec<CopyStep>)
    ensures
        final(steps)@ == old(steps)@ + layer_steps(*layer),
{
    let ghost before = steps@;
    steps.push(CopyStep::AddLayer { layer: layer.id });
    let mut i: usize = 0;
    proof {
        assert(steps@ =~= before.push(CopyStep::AddLayer { layer: layer.id }) + clips_steps(
            layer.id,
            layer.clips@.take(0),
        ));
    }
    while i < layer.clips.len()
        invariant
            i <= layer.clips.len(),
            steps@ == before.push(CopyStep::AddLayer { layer: layer.id }) + clips_steps(
                layer.id,
                layer.clips@.take(i as int),
            ),
        decreases layer.clips.len() - i,
    {
        proof {
            let next = layer.clips@.take(i + 1);
            assert(next.drop_last() =~= layer.clips@.take(i as int));
            assert(next.last() == layer.clips@[i as int]);
        }
        plan_clip(layer.id, &layer.clips[i], steps);
        i = i + 1;
        proof {
            assert(steps@ =~= before.push(CopyStep::AddLayer { layer: layer.id }) + clips_steps(
                layer.id,
                layer.clips@.take(i as int),
            ));
        }
    }
    proof {
        assert(layer.clips@.take(layer.clips@.len() as int) =~= layer.clips@);
        assert(steps@ =~= before + layer_steps(*layer));
    }
}

/// Plans the copy of a timeline into an empty replica.
pub fn copy_timeline(content: &TimelineContent) -> (steps: Vec<CopyStep>)
    ensures
        steps@ == timeline_steps(*content),
{
    let mut steps: Vec<CopyStep> = Vec::new();
    let mut i: usize = 0;
    while i < content.tracks.len()
        invariant
            i <= content.tracks.len(),
            steps@ == track_steps(content.tracks@.take(i as int)),
        decreases content.tracks.len() - i,
    {
        steps.push(CopyStep::AddTrack { track: content.tracks[i] });
        i = i + 1;
        proof {
            assert(steps@ =~= track_steps(content.tracks@.take(i as int)));
        }
    }
    let ghost tracks = track_steps(content.tracks@);
    proof {
        assert(content.tracks@.take(content.tracks@.len() as int) =~= content.tracks@);
        assert(steps@ =~= tracks + layers_steps(content.layers@.take(0)));
    }
    let mut k: usize = 0;
    while k < content.layers.len()
        invariant
            k <= content.layers.len(),
            steps@ == tracks + layers_steps(content.layers@.take(k as int)),
        decreases content.layers.len() - k,
    {
        proof {
            let next = content.layers@.take(k + 1);
            assert(next.drop_last() =~= content.layers@.take(k as int));
            assert(next.last() == content.layers@[k as int]);
        }
        plan_layer(&content.layers[k], &mut steps);
        k = k + 1;
        proof {
            assert(steps@ =~= tracks + layers_steps(content.layers@.take(k as int)));
        }
    }
    proof {
        assert(content.layers@.take(content.layers@.len() as int) =~= content.layers@);
    }
    steps
}

/// What a copy builds: the tracks, the layers, the clips with their layers and the track elements
/// with their clips, in the order in which they come.
pub struct Built {
    pub tracks: Seq<u64>,
    pub layers: Seq<u64>,
    pub clips: Seq<(u64, u64)>,
    pub elements: Seq<(u64, u64)>,
}

pub open spec fn nothing_built() -> Built {
    Built {
        tracks: Seq::empty(),
        layers: Seq::empty(),
        clips: Seq::empty(),
        elements: Seq::empty(),
    }
}

/// What some steps build on top of what there is.
pub open spec fn built(start: Built, steps: Seq<CopyStep>) -> Built
    decreases steps.len(),
{
    if steps.len() == 0 {
        start
    } else {
        let before = built(start, steps.drop_last());
        match steps.last() {
            CopyStep::AddTrack { track } => Built { tracks: before.tracks.push(track), ..before },
            CopyStep::AddLayer { layer } => Built { layers: before.layers.push(layer), ..before },
            CopyStep::AddClip { layer, clip } => Built {
                clips: before.clips.push((layer, clip)),
                ..before
            },
            CopyStep::AddElement { clip, element } => Built {
                elements: before.elements.push((clip, element)),
                ..before
            },
        }
    }
}

/// The clips of some layers, each with its layer.
pub open spec fn clips_in(layers: Seq<Layer>) -> Seq<(u64, u64)>
    decreases layers.len(),
{
    if layers.len() == 0 {
        Seq::empty()
    } else {
        let layer = layers.last();
        clips_in(layers.drop_last()) + Seq::new(
            layer.clips@.len(),
            |i: int| (layer.id, layer.clips@[i].id),
        )
    }
}

pub open spec fn elements_of_clips(clips: Seq<Clip>) -> Seq<(u64, u64)>
    decreases clips.len(),
{
    if clips.len() == 0 {
        Seq::empty()
    } else {
        let clip = clips.last();
        let order = super::replica::core_first(clip.children@);
        elements_of_clips(clips.drop_last()) + Seq::new(
            order.len(),
            |i: int| (clip.id, order[i]),
        )
    }
}

/// The track elements in some layers, each with its clip, core ones first.
pub open spec fn elements_in(layers: Seq<Layer>) -> Seq<(u64, u64)>
    decreases layers.len(),
{
    if layers.len() == 0 {
        Seq::empty()
    } else {
        elements_in(layers.drop_last()) + elements_of_clips(layers.last().clips@)
    }
}

proof fn lemma_built_adds_up(start: Built, first: Seq<CopyStep>, second: Seq<CopyStep>)
    ensures
        built(start, first + second) == built(built(start, first), second),
    decreases second.len(),
{
    if second.len() == 0 {
        assert(first + second =~= first);
    } else {
        let all = first + second;
        assert(all.drop_last() =~= first + second.drop_last());
        assert(all.last() == second.last());
        lemma_built_adds_up(start, first, second.drop_last());
    }
}

proof fn lemma_tracks_built(start: Built, tracks: Seq<u64>)
    ensures
        built(start, track_steps(tracks)) == (Built { tracks: start.tracks + tracks, ..start }),
    decreases tracks.len(),
{
    if tracks.len() == 0 {
        assert(start.tracks + tracks =~= start.tracks);
    } else {
        let fewer = tracks.drop_last();
        lemma_tracks_built(start, fewer);
        assert(track_steps(tracks).drop_last() =~= track_steps(fewer));
        assert((start.tracks + fewer).push(tracks.last()) =~= start.tracks + tracks);
    }
}

proof fn lemma_elements_built(start: Built, clip: u64, elements: Seq<u64>)
    ensures
        built(start, element_steps(clip, elements)) == (Built {
            elements: start.elements + Seq::new(elements.len(), |i: int| (clip, elements[i])),
            ..start
        }),
    decreases elements.len(),
{
    let added = Seq::new(elements.len(), |i: int| (clip, elements[i]));
    if elements.len() == 0 {
        assert(start.elements + added =~= start.elements);
    } else {
        let fewer = elements.drop_last();
        lemma_elements_built(start, clip, fewer);
        assert(element_steps(clip, elements).drop_last() =~= element_steps(clip, fewer));
        let before = Seq::new(fewer.len(), |i: int| (clip, fewer[i]));
        assert((start.elements + before).push((clip, elements.last())) =~= start.elements + added);
    }
}

proof fn lemma_clips_built(start: Built, layer: u64, clips: Seq<Clip>)
    ensures
        built(start, clips_steps(layer, clips)) == (Built {
            clips: start.clips + Seq::new(clips.len(), |i: int| (layer, clips[i].id)),
            elements: start.elements + elements_of_clips(clips),
            ..start
        }),
    decreases clips.len(),
{
    let added = Seq::new(clips.len(), |i: int| (layer, clips[i].id));
    if clips.len() == 0 {
        assert(start.clips + added =~= start.clips);
        assert(start.elements + elements_of_clips(clips) =~= start.elements);
    } else {
        let fewer = clips.drop_last();
        let clip = clips.last();
        let order = super::replica::core_first(clip.children@);
        lemma_clips_built(start, layer, fewer);
        let before = Seq::new(fewer.len(), |i: int| (layer, fewer[i].id));
        let middle = Built {
            clips: start.clips + before,
            elements: start.elements + elements_of_clips(fewer),
            ..start
        };
        lemma_built_adds_up(start, clips_steps(layer, fewer), clip_steps(layer, clip));
        let one = seq![CopyStep::AddClip { layer, clip: clip.id }];
        lemma_built_adds_up(middle, one, element_steps(clip.id, order));
        assert(one.drop_last() =~= Seq::empty());
        assert(one.last() == CopyStep::AddClip { layer, clip: clip.id });
        let with_clip = built(middle, one);
        assert(built(middle, one.drop_last()) == middle);
        assert(with_clip == (Built { clips: middle.clips.push((layer, clip.id)), ..middle }));
        lemma_elements_built(with_clip, clip.id, order);
        assert(middle.clips.push((layer, clip.id)) =~= start.clips + added);
        let tail = Seq::new(order.len(), |i: int| (clip.id, order[i]));
        assert((start.elements + elements_of_clips(fewer)) + tail =~= start.elements
            + elements_of_clips(clips));
    }
}

proof fn lemma_layers_built(start: Built, layers: Seq<Layer>)
    ensures
        built(start, layers_steps(layers)) == (Built {
            layers: start.layers + Seq::new(layers.len(), |i: int| layers[i].id),
            clips: start.clips + clips_in(layers),
            elements: start.elements + elements_in(layers),
            ..start
        }),
    decreases layers.len(),
{
    let added = Seq::new(layers.len(), |i: int| layers[i].id);
    if layers.len() == 0 {
        assert(start.layers + added =~= start.layers);
        assert(start.clips + clips_in(layers) =~= start.clips);
        assert(start.elements + elements_in(layers) =~= start.elements);
    } else {
        let fewer = layers.drop_last();
        let layer = layers.last();
        lemma_layers_built(start, fewer);
        let before = Seq::new(fewer.len(), |i: int| fewer[i].id);
        let middle = Built {
            layers: start.layers + before,
            clips: start.clips + clips_in(fewer),
            elements: start.elements + elements_in(fewer),
            ..start
        };
        lemma_built_adds_up(start, layers_steps(fewer), layer_steps(layer));
        let one = seq![CopyStep::AddLayer { layer: layer.id }];
        lemma_built_adds_up(middle, one, clips_steps(layer.id, layer.clips@));
        assert(one.drop_last() =~= Seq::empty());
        assert(built(middle, one.drop_last()) == middle);
        let with_layer = built(middle, one);
        assert(with_layer == (Built { layers: middle.layers.push(layer.id), ..middle }));
        lemma_clips_built(with_layer, layer.id, layer.clips@);
        assert(middle.layers.push(layer.id) =~= start.layers + added);
        let tail = Seq::new(layer.clips@.len(), |i: int| (layer.id, layer.clips@[i].id));
        assert((start.clips + clips_in(fewer)) + tail =~= start.clips + clips_in(layers));
        assert((start.elements + elements_in(fewer)) + elements_of_clips(layer.clips@)
            =~= start.elements + elements_in(layers));
    }
}

/// A replica has what its primary has: the same tracks, the same layers, each clip in the replica
/// of its layer and each track element in the replica of its clip, in their order but for core
/// elements, which come first.
pub proof fn law_replica_has_the_content(content: TimelineContent)
    ensures
        built(nothing_built(), timeline_steps(content)) == (Built {
            tracks: content.tracks@,
            layers: Seq::new(content.layers@.len(), |i: int| content.layers@[i].id),
            clips: clips_in(content.layers@),
            elements: elements_in(content.layers@),
        }),
{
    let start = nothing_built();
    let layers = Seq::new(content.layers@.len(), |i: int| content.layers@[i].id);
    lemma_built_adds_up(start, track_steps(content.tracks@), layers_steps(content.layers@));
    lemma_tracks_built(start, content.tracks@);
    let with_tracks = Built { tracks: start.tracks + content.tracks@, ..start };
    lemma_layers_built(with_tracks, content.layers@);
    assert(start.tracks + content.tracks@ =~= content.tracks@);
    assert(start.layers + layers =~= layers);
    assert(start.clips + clips_in(content.layers@) =~= clips_in(content.layers@));
    assert(start.elements + elements_in(content.layers@) =~= elements_in(content.layers@));
}

/// Whether every step finds what it needs: a clip the layer that it goes to, and a track element its
/// clip, each of which an earlier step has added.
pub open spec fn parents_first(steps: Seq<CopyStep>) -> bool {
    forall|i: int|
        0 <= i < steps.len() ==> match #[trigger] steps[i] {
            CopyStep::AddClip { layer, .. } => exists|k: int|
                0 <= k < i && #[trigger] steps[k] == (CopyStep::AddLayer { layer }),
            CopyStep::AddElement { clip, .. } => exists|k: int|
                0 <= k < i && adds_clip(#[trigger] steps[k], clip),
            _ => true,
        }
}

/// Whether a step adds a clip.
pub open spec fn adds_clip(step: CopyStep, clip: u64) -> bool {
    step matches CopyStep::AddClip { clip: own, .. } && own == clip
}

proof fn lemma_layer_is_in_order(before: Seq<CopyStep>, layer: u64, clips: Seq<Clip>)
    requires
        parents_first(before),
        before.contains(CopyStep::AddLayer { layer }),
    ensures
        parents_first(before + clips_steps(layer, clips)),
    decreases clips.len(),
{
    if clips.len() == 0 {
        assert(before + clips_steps(layer, clips) =~= before);
    } else {
        lemma_layer_is_in_order(before, layer, clips.drop_last());
        let done = before + clips_steps(layer, clips.drop_last());
        let more = clip_steps(layer, clips.last());
        let all = before + clips_steps(layer, clips);
        assert(all =~= done + more);
        let l = choose|l: int|
            0 <= l < before.len() && before[l] == (CopyStep::AddLayer { layer });
        let n = done.len() as int;
        assert(all[l] == (CopyStep::AddLayer { layer }));
        assert(all[n] == more[0]);
        assert(adds_clip(all[n], clips.last().id));
        assert forall|i: int| 0 <= i < all.len() implies match #[trigger] all[i] {
            CopyStep::AddClip { layer, .. } => exists|k: int|
                0 <= k < i && #[trigger] all[k] == (CopyStep::AddLayer { layer }),
            CopyStep::AddElement { clip, .. } => exists|k: int|
                0 <= k < i && adds_clip(#[trigger] all[k], clip),
            _ => true,
        } by {
            if i < n {
                assert(all[i] == done[i]);
                match done[i] {
                    CopyStep::AddClip { layer, .. } => {
                        let k = choose|k: int|
                            0 <= k < i && #[trigger] done[k] == (CopyStep::AddLayer { layer });
                        assert(all[k] == done[k]);
                    },
                    CopyStep::AddElement { clip, .. } => {
                        let k = choose|k: int| 0 <= k < i && adds_clip(#[trigger] done[k], clip);
                        assert(all[k] == done[k]);
                    },
                    _ => {},
                }
            } else {
                assert(all[i] == more[i - n]);
            }
        }
    }
}

proof fn lemma_layers_are_in_order(before: Seq<CopyStep>, layers: Seq<Layer>)
    requires
        parents_first(before),
    ensures
        parents_first(before + layers_steps(layers)),
    decreases layers.len(),
{
    if layers.len() == 0 {
        assert(before + layers_steps(layers) =~= before);
    } else {
        let layer = layers.last();
        lemma_layers_are_in_order(before, layers.drop_last());
        let done = before + layers_steps(layers.drop_last());
        let step = CopyStep::AddLayer { layer: layer.id };
        let with_layer = done.push(step);
        let n = done.len() as int;
        assert forall|i: int| 0 <= i < with_layer.len() implies match #[trigger] with_layer[i] {
            CopyStep::AddClip { layer, .. } => exists|k: int|
                0 <= k < i && #[trigger] with_layer[k] == (CopyStep::AddLayer { layer }),
            CopyStep::AddElement { clip, .. } => exists|k: int|
                0 <= k < i && adds_clip(#[trigger] with_layer[k], clip),
            _ => true,
        } by {
            if i < n {
                assert(with_layer[i] == done[i]);
                match done[i] {
                    CopyStep::AddClip { layer, .. } => {
                        let k = choose|k: int|
                            0 <= k < i && #[trigger] done[k] == (CopyStep::AddLayer { layer });
                        assert(with_layer[k] == done[k]);
                    },
                    CopyStep::AddElement { clip, .. } => {
                        let k = choose|k: int| 0 <= k < i && adds_clip(#[trigger] done[k], clip);
                        assert(with_layer[k] == done[k]);
                    },
                    _ => {},
                }
            }
        }
        assert(with_layer[n] == step);
        lemma_layer_is_in_order(with_layer, layer.id, layer.clips@);
        assert(before + layers_steps(layers) =~= with_layer + clips_steps(
            layer.id,
            layer.clips@,
        ));
    }
}

/// A copy never reaches for what is not there yet: a clip comes after its layer, and a track element
/// after its clip; and the tracks come before all of them.
pub proof fn law_parents_are_added_first(content: TimelineContent, i: int)
    ensures
        parents_first(timeline_steps(content)),
        0 <= i < content.tracks@.len() ==> timeline_steps(content)[i] == (CopyStep::AddTrack {
            track: content.tracks@[i],
        }),
{
    let tracks = track_steps(content.tracks@);
    assert(parents_first(tracks));
    lemma_layers_are_in_order(tracks, content.layers@);
}

} // verus!
