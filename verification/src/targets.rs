//! Preparing a frame: the buffers of every camera and the textures of every
//! render target.
//!
//! Each camera that takes part in picking needs buffers that fit its size.
//! Each render target needs one identifier texture, and a multisampled one
//! beside it where the scene is multisampled; cameras that render to the same
//! target share them. The textures and buffers themselves are made by the
//! caller, from the plan that is worked out here.

use crate::layout::TextureSize;
use crate::readback::{Picking, Prepared};
use vstd::prelude::*;

verus! {

/// What the picking of a frame reads of one camera.
#[derive(Clone, Copy, Debug)]
pub struct PickingCamera {
    /// The render target of the camera: cameras with equal targets render to
    /// the same surface.
    pub target: u64,
    /// The size of the render target in physical pixels, where it is known.
    pub physical_target_size: Option<TextureSize>,
    /// The picking state of the camera.
    pub picking: Picking,
}

/// The textures a camera renders object identifiers to, each named by the
/// handle the caller keeps it under.
#[derive(Clone, Copy, Debug, PartialEq, Eq, Structural)]
pub struct PickingTextures {
    /// The identifier texture, which is copied to the buffer.
    pub main: u64,
    /// The multisampled texture that is resolved into it, where the scene is
    /// multisampled.
    pub sampled: Option<u64>,
}

/// Where a render pass writes, and what it resolves into.
#[derive(Clone, Copy, Debug, PartialEq, Eq, Structural)]
pub struct ColorAttachment {
    pub view: u64,
    pub resolve_target: Option<u64>,
}

/// The textures to make for one render target.
#[derive(Clone, Copy, Debug, PartialEq, Eq, Structural)]
pub struct TextureRequest {
    /// The render target the textures are for.
    pub target: u64,
    /// The size of both textures.
    pub size: TextureSize,
    /// The sample count of the multisampled texture, where one is needed. The
    /// identifier texture itself always has one sample.
    pub samples: Option<u32>,
}

/// What is to be done to prepare a frame.
#[derive(Debug)]
pub struct PreparePlan {
    /// For each camera, what became of its buffers.
    pub buffers: Vec<Prepared>,
    /// For each camera that renders, the place in `textures` of the request
    /// for its render target.
    pub slots: Vec<Option<usize>>,
    /// The textures to make, one request for each render target.
    pub textures: Vec<TextureRequest>,
}

impl PickingTextures {
    /// The attachment to render to: the multisampled texture, resolved into
    /// the identifier texture, where there is one, and the identifier texture
    /// itself where there is none.
    pub fn get_color_attachment(&self) -> (attachment: ColorAttachment)
        ensures
            attachment == match self.sampled {
                Some(sampled) => (ColorAttachment {
                    view: sampled,
                    resolve_target: Some(self.main),
                }),
                None => (ColorAttachment { view: self.main, resolve_target: None }),
            },
    {
        match self.sampled {
            Some(sampled) => ColorAttachment { view: sampled, resolve_target: Some(self.main) },
            None => ColorAttachment { view: self.main, resolve_target: None },
        }
    }

    /// The attachment to render to without multisampling: the identifier
    /// texture itself.
    pub fn get_unsampled_color_attachment(&self) -> (attachment: ColorAttachment)
        ensures
            attachment == (ColorAttachment { view: self.main, resolve_target: None }),
    {
        ColorAttachment { view: self.main, resolve_target: None }
    }
}

/// The sample count of the multisampled texture a scene needs, if it needs
/// one.
pub open spec fn multisampled(msaa_samples: u32) -> Option<u32> {
    if msaa_samples > 1 {
        Some(msaa_samples)
    } else {
        None
    }
}

impl PickingCamera {
    /// Whether the camera renders identifiers this frame: it has buffers once
    /// the frame is prepared.
    pub open spec fn renders(self) -> bool {
        let outcome = self.picking.prepared(self.physical_target_size);
        outcome is Kept || outcome is Allocated || outcome is Deferred
    }

    /// The camera once the frame is prepared.
    pub open spec fn after_prepare(self) -> PickingCamera {
        PickingCamera {
            target: self.target,
            physical_target_size: self.physical_target_size,
            picking: self.picking.after_ensure(self.physical_target_size),
        }
    }

    /// The textures to make for the render target of this camera.
    pub open spec fn request(self, msaa_samples: u32) -> TextureRequest {
        TextureRequest {
            target: self.target,
            size: self.physical_target_size->0,
            samples: multisampled(msaa_samples),
        }
    }
}

/// Whether there is a request for a render target.
pub open spec fn has_target(requests: Seq<TextureRequest>, target: u64) -> bool {
    exists|j: int| 0 <= j < requests.len() && (#[trigger] requests[j]).target == target
}

/// Whether a request is the one for the render target of a camera that
/// renders.
pub open spec fn asked_by(
    cameras: Seq<PickingCamera>,
    msaa_samples: u32,
    request: TextureRequest,
) -> bool {
    exists|i: int|
        0 <= i < cameras.len() && (#[trigger] cameras[i]).renders() && request
            == cameras[i].request(msaa_samples)
}

/// The textures to make for some cameras: one request for each render target
/// that a camera renders to, made for the first such camera, in the order in
/// which the targets first occur.
pub open spec fn requested(cameras: Seq<PickingCamera>, msaa_samples: u32) -> Seq<TextureRequest>
    decreases cameras.len(),
{
    if cameras.len() == 0 {
        Seq::empty()
    } else {
        let earlier = requested(cameras.drop_last(), msaa_samples);
        let camera = cameras.last();
        if camera.renders() && !has_target(earlier, camera.target) {
            earlier.push(camera.request(msaa_samples))
        } else {
            earlier
        }
    }
}

/// No two requests are for the same render target, and there is a request for
/// the target of every camera that renders.
pub proof fn lemma_requested(cameras: Seq<PickingCamera>, msaa_samples: u32)
    ensures
        requested(cameras, msaa_samples).len() <= cameras.len(),
        forall|j: int, k: int|
            #![trigger requested(cameras, msaa_samples)[j], requested(cameras, msaa_samples)[k]]
            0 <= j < k < requested(cameras, msaa_samples).len() ==> requested(
                cameras,
                msaa_samples,
            )[j].target != requested(cameras, msaa_samples)[k].target,
        forall|i: int|
            0 <= i < cameras.len() && (#[trigger] cameras[i]).renders() ==> has_target(
                requested(cameras, msaa_samples),
                cameras[i].target,
            ),
        forall|j: int|
            0 <= j < requested(cameras, msaa_samples).len() ==> asked_by(
                cameras,
                msaa_samples,
                #[trigger] requested(cameras, msaa_samples)[j],
            ),
    decreases cameras.len(),
{
    if cameras.len() > 0 {
        let front = cameras.drop_last();
        let earlier = requested(front, msaa_samples);
        let all = requested(cameras, msaa_samples);
        let camera = cameras.last();
        lemma_requested(front, msaa_samples);
        assert forall|i: int| 0 <= i < cameras.len() && (#[trigger] cameras[i]).renders() implies has_target(
            all,
            cameras[i].target,
        ) by {
            if i < front.len() {
                assert(front[i].renders());
                let j = choose|j: int|
                    0 <= j < earlier.len() && (#[trigger] earlier[j]).target == front[i].target;
                assert(all[j].target == cameras[i].target);
            } else if has_target(earlier, camera.target) {
                let j = choose|j: int|
                    0 <= j < earlier.len() && (#[trigger] earlier[j]).target == camera.target;
                assert(all[j].target == camera.target);
            } else {
                assert(all[earlier.len() as int].target == camera.target);
            }
        }
        assert forall|j: int| 0 <= j < all.len() implies asked_by(
            cameras,
            msaa_samples,
            #[trigger] all[j],
        ) by {
            if j < earlier.len() {
                assert(asked_by(front, msaa_samples, earlier[j]));
                let i = choose|i: int|
                    0 <= i < front.len() && (#[trigger] front[i]).renders() && earlier[j]
                        == front[i].request(msaa_samples);
                assert(cameras[i].renders() && all[j] == cameras[i].request(msaa_samples));
            } else {
                let i = cameras.len() - 1;
                assert(cameras[i].renders() && all[j] == cameras[i].request(msaa_samples));
            }
        }
    }
}

/// The places of the requests for the render targets seen so far in a frame,
/// held in a `bevy_utils::HashMap` from the target to its place.
#[verifier::external_body]
pub struct TargetSlots {
    slots: bevy_utils::HashMap<u64, usize>,
}

/// What a `TargetSlots` holds: the place recorded for each render target.
pub uninterp spec fn slots_of(table: TargetSlots) -> Map<u64, usize>;

impl TargetSlots {
    /// An empty table, made by `HashMap::default`: it holds no render target.
    #[verifier::external_body]
    fn new() -> (table: TargetSlots)
        ensures
            slots_of(table) =~= Map::empty(),
    {
        TargetSlots { slots: bevy_utils::HashMap::default() }
    }

    /// `HashMap::entry` followed by `Entry::or_insert`: the place recorded
    /// for `target` if there is one, and the table is then unchanged;
    /// otherwise `slot`, which is then recorded for `target`.
    #[verifier::external_body]
    fn slot_or_insert(&mut self, target: u64, slot: usize) -> (found: usize)
        ensures
            slots_of(*old(self)).contains_key(target) ==> found == slots_of(*old(self))[target]
                && slots_of(*final(self)) == slots_of(*old(self)),
            !slots_of(*old(self)).contains_key(target) ==> found == slot && slots_of(*final(self))
                == slots_of(*old(self)).insert(target, slot),
    {
        *self.slots.entry(target).or_insert(slot)
    }
}

/// Whether a table holds the place of each request, and nothing else.
spec fn records(table: Map<u64, usize>, requests: Seq<TextureRequest>) -> bool {
    &&& forall|target: u64| #[trigger]
        table.contains_key(target) <==> has_target(requests, target)
    &&& forall|target: u64| #[trigger]
        table.contains_key(target) ==> table[target] < requests.len() && requests[table[target] as int].target
            == target
}

/// Prepares the picking of a frame.
///
/// Every camera is given buffers that fit its size, as `Picking::ensure`
/// does. Every render target that a camera with buffers renders to gets one
/// request for textures, and each such camera the place of that request.
pub fn prepare_picking_targets(cameras: &mut Vec<PickingCamera>, msaa_samples: u32) -> (plan:
    PreparePlan)
    ensures
        final(cameras)@.len() == old(cameras)@.len(),
        plan.buffers@.len() == old(cameras)@.len(),
        plan.slots@.len() == old(cameras)@.len(),
        forall|i: int|
            0 <= i < old(cameras)@.len() ==> (#[trigger] final(cameras)@[i]) == old(
                cameras,
            )@[i].after_prepare(),
        forall|i: int|
            0 <= i < old(cameras)@.len() ==> (#[trigger] plan.buffers@[i]) == old(
                cameras,
            )@[i].picking.prepared(old(cameras)@[i].physical_target_size),
        plan.textures@ == requested(old(cameras)@, msaa_samples),
        forall|i: int|
            0 <= i < old(cameras)@.len() ==> ((#[trigger] plan.slots@[i]) is Some <==> old(
                cameras,
            )@[i].renders()),
        forall|i: int|
            0 <= i < old(cameras)@.len() ==> ((#[trigger] plan.slots@[i]) matches Some(slot)
                ==> slot < plan.textures@.len() && plan.textures@[slot as int].target == old(
                cameras,
            )@[i].target),
{
    let ghost before = cameras@;
    let count = cameras.len();
    let mut buffers: Vec<Prepared> = Vec::new();
    let mut slots: Vec<Option<usize>> = Vec::new();
    let mut textures: Vec<TextureRequest> = Vec::new();
    let mut table = TargetSlots::new();
    let mut i: usize = 0;
    while i < count
        invariant
            i <= count,
            count == before.len(),
            cameras@.len() == count,
            buffers@.len() == i,
            slots@.len() == i,
            textures@.len() <= i,
            forall|k: int| 0 <= k < i ==> (#[trigger] cameras@[k]) == before[k].after_prepare(),
            forall|k: int| i <= k < count ==> (#[trigger] cameras@[k]) == before[k],
            forall|k: int|
                0 <= k < i ==> (#[trigger] buffers@[k]) == before[k].picking.prepared(
                    before[k].physical_target_size,
                ),
            textures@ == requested(before.subrange(0, i as int), msaa_samples),
            records(slots_of(table), textures@),
            forall|k: int| 0 <= k < i ==> ((#[trigger] slots@[k]) is Some <==> before[k].renders()),
            forall|k: int|
                0 <= k < i ==> ((#[trigger] slots@[k]) matches Some(slot) ==> slot
                    < textures@.len() && textures@[slot as int].target == before[k].target),
        decreases count - i,
    {
        let camera = cameras[i];
        let mut picking = camera.picking;
        let outcome = picking.ensure(camera.physical_target_size);
        cameras[i] = PickingCamera {
            target: camera.target,
            physical_target_size: camera.physical_target_size,
            picking,
        };
        buffers.push(outcome);
        let ghost earlier = textures@;
        proof {
            assert(before.subrange(0, i + 1).drop_last() =~= before.subrange(0, i as int));
            assert(before.subrange(0, i + 1).last() == before[i as int]);
        }
        let renders = match outcome {
            Prepared::Kept | Prepared::Allocated { .. } | Prepared::Deferred => true,
            _ => false,
        };
        if renders {
            let size = match camera.physical_target_size {
                Some(size) => size,
                None => TextureSize { x: 0, y: 0 },
            };
            let next = textures.len();
            let slot = table.slot_or_insert(camera.target, next);
            if slot == next {
                textures.push(
                    TextureRequest {
                        target: camera.target,
                        size,
                        samples: if msaa_samples > 1 {
                            Some(msaa_samples)
                        } else {
                            None
                        },
                    },
                );
                proof {
                    assert(textures@[next as int].target == camera.target);
                    assert forall|target: u64| #[trigger]
                        slots_of(table).contains_key(target) <==> has_target(
                            textures@,
                            target,
                        ) by {
                        if has_target(textures@, target) {
                            let j = choose|j: int|
                                0 <= j < textures@.len() && (#[trigger] textures@[j]).target
                                    == target;
                            if j < earlier.len() {
                                assert(earlier[j].target == target);
                            }
                        }
                        if has_target(earlier, target) {
                            let j = choose|j: int|
                                0 <= j < earlier.len() && (#[trigger] earlier[j]).target == target;
                            assert(textures@[j].target == target);
                        }
                    }
                }
            }
            slots.push(Some(slot));
        } else {
            slots.push(None);
        }
        i = i + 1;
    }
    proof {
        assert(before.subrange(0, count as int) =~= before);
    }
    PreparePlan { buffers, slots, textures }
}

} // verus!
