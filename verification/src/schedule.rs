//! The readback steps of a frame: copy the textures into the buffers, map
//! the buffers for reading, and unmap them again before the next frame.
//!
//! The functions here work out what the caller has to ask of the GPU and
//! record the resulting map states. A frame runs them in this order: the
//! copies after the render pass, then the map requests, then the caller waits
//! until the device is idle and reports each completed mapping, and at the end
//! of the frame the buffers are unmapped.

use crate::layout::{row_stride, TextureSize, ROW_ALIGNMENT};
use crate::readback::{Picking, Unmapping};
use crate::targets::{PickingCamera, PickingTextures};
use vstd::prelude::*;

verus! {

/// One copy of a texture into a buffer: the layout of the image in the
/// buffer, which starts at offset zero, and the extent that is copied, which
/// is one layer deep.
#[derive(Clone, Copy, Debug, PartialEq, Eq, Structural)]
pub struct BufferCopy {
    /// The width of one row in the buffer, in bytes.
    pub bytes_per_row: u32,
    /// The width of the copied texture, in pixels.
    pub width: u32,
    /// The height of the copied texture, in pixels.
    pub height: u32,
}

/// The copies to enqueue for one camera after its render pass.
#[derive(Clone, Copy, Debug, PartialEq, Eq, Structural)]
pub struct CopyCommands {
    /// The handle of the identifier texture to copy from.
    pub source: u64,
    /// The copy of the identifier texture into the buffer of identifiers.
    pub pick: BufferCopy,
    /// The copy of the depth texture into the buffer of depth values, where
    /// the camera has a depth texture.
    pub depth: Option<BufferCopy>,
}

impl Picking {
    /// The copy of a texture into either buffer of these resources.
    pub open spec fn buffer_copy(self) -> BufferCopy {
        BufferCopy {
            bytes_per_row: row_stride(self.resources->0.size@.x as nat) as u32,
            width: self.resources->0.size@.x,
            height: self.resources->0.size@.y,
        }
    }

    /// The copies to enqueue for a camera of the given size, where there are
    /// any: none unless the camera has an area and resources with both
    /// buffers unmapped, and the device has not failed.
    pub open spec fn copies(
        self,
        extent: Option<TextureSize>,
        textures: PickingTextures,
        has_depth: bool,
    ) -> Option<CopyCommands> {
        if self.maps(extent) {
            Some(
                CopyCommands {
                    source: textures.main,
                    pick: self.buffer_copy(),
                    depth: if has_depth {
                        Some(self.buffer_copy())
                    } else {
                        None
                    },
                },
            )
        } else {
            None
        }
    }
}

/// Works out the copies to enqueue for a camera after its render pass: the
/// identifier texture into the buffer of identifiers and, where the camera
/// has a depth texture, that into the buffer of depth values.
///
/// Each row of a copy is as wide as the layout of the buffers says: a
/// non-zero multiple of the row alignment.
pub fn copy_to_buffer(
    picking: &Picking,
    camera_size: Option<TextureSize>,
    picking_textures: &PickingTextures,
    has_depth: bool,
) -> (commands: Option<CopyCommands>)
    ensures
        commands == picking.copies(camera_size, *picking_textures, has_depth),
        commands matches Some(c) ==> c.pick.bytes_per_row > 0 && c.pick.bytes_per_row
            % ROW_ALIGNMENT == 0,
{
    let sized = match camera_size {
        Some(size) => size.x != 0 && size.y != 0,
        None => false,
    };
    if !sized {
        return None;
    }
    if picking.fault.is_some() {
        return None;
    }
    match &picking.resources {
        Some(resources) => {
            if !resources.is_idle() {
                return None;
            }
            let size = resources.size.texture_size();
            let copy = BufferCopy {
                bytes_per_row: resources.size.padded_bytes_per_row(),
                width: size.x,
                height: size.y,
            };
            proof {
                crate::layout::lemma_row_stride(size.x as nat, size.y as nat);
            }
            Some(
                CopyCommands {
                    source: picking_textures.main,
                    pick: copy,
                    depth: if has_depth {
                        Some(copy)
                    } else {
                        None
                    },
                },
            )
        },
        None => None,
    }
}

impl PickingCamera {
    /// The camera once the mappings of a frame were requested.
    pub open spec fn after_map(self) -> PickingCamera {
        PickingCamera {
            target: self.target,
            physical_target_size: self.physical_target_size,
            picking: self.picking.after_request_map(self.physical_target_size),
        }
    }

    /// The camera once its buffers were unmapped.
    pub open spec fn after_unmap(self) -> PickingCamera {
        PickingCamera {
            target: self.target,
            physical_target_size: self.physical_target_size,
            picking: self.picking.after_unmap(self.physical_target_size),
        }
    }
}

/// Requests the mappings of a frame.
///
/// For each camera, says whether the caller has to request a mapping of both
/// of its buffers, and records the request. Once all are requested the caller
/// waits until the device is idle, and reports each mapping with
/// `Picking::map_finished`.
pub fn map_buffers(cameras: &mut Vec<PickingCamera>) -> (requests: Vec<bool>)
    ensures
        final(cameras)@.len() == old(cameras)@.len(),
        requests@.len() == old(cameras)@.len(),
        forall|i: int|
            0 <= i < old(cameras)@.len() ==> (#[trigger] final(cameras)@[i]) == old(
                cameras,
            )@[i].after_map(),
        forall|i: int|
            0 <= i < old(cameras)@.len() ==> (#[trigger] requests@[i]) == old(
                cameras,
            )@[i].picking.maps(old(cameras)@[i].physical_target_size),
{
    let ghost before = cameras@;
    let count = cameras.len();
    let mut requests: Vec<bool> = Vec::new();
    let mut i: usize = 0;
    while i < count
        invariant
            i <= count,
            count == before.len(),
            cameras@.len() == count,
            requests@.len() == i,
            forall|k: int| 0 <= k < i ==> (#[trigger] cameras@[k]) == before[k].after_map(),
            forall|k: int| i <= k < count ==> (#[trigger] cameras@[k]) == before[k],
            forall|k: int|
                0 <= k < i ==> (#[trigger] requests@[k]) == before[k].picking.maps(
                    before[k].physical_target_size,
                ),
        decreases count - i,
    {
        let camera = cameras[i];
        let mut picking = camera.picking;
        let requested = picking.request_map(camera.physical_target_size);
        cameras[i] = PickingCamera {
            target: camera.target,
            physical_target_size: camera.physical_target_size,
            picking,
        };
        requests.push(requested);
        i = i + 1;
    }
    requests
}

/// Unmaps the buffers of a frame.
///
/// For each camera, says which of its buffers the caller has to unmap, and
/// records that both are unmapped: they can then be copied into again.
pub fn unmap_buffers(cameras: &mut Vec<PickingCamera>) -> (unmappings: Vec<Unmapping>)
    ensures
        final(cameras)@.len() == old(cameras)@.len(),
        unmappings@.len() == old(cameras)@.len(),
        forall|i: int|
            0 <= i < old(cameras)@.len() ==> (#[trigger] final(cameras)@[i]) == old(
                cameras,
            )@[i].after_unmap(),
        forall|i: int|
            0 <= i < old(cameras)@.len() ==> (#[trigger] unmappings@[i]) == old(
                cameras,
            )@[i].picking.unmapping(old(cameras)@[i].physical_target_size),
{
    let ghost before = cameras@;
    let count = cameras.len();
    let mut unmappings: Vec<Unmapping> = Vec::new();
    let mut i: usize = 0;
    while i < count
        invariant
            i <= count,
            count == before.len(),
            cameras@.len() == count,
            unmappings@.len() == i,
            forall|k: int| 0 <= k < i ==> (#[trigger] cameras@[k]) == before[k].after_unmap(),
            forall|k: int| i <= k < count ==> (#[trigger] cameras@[k]) == before[k],
            forall|k: int|
                0 <= k < i ==> (#[trigger] unmappings@[k]) == before[k].picking.unmapping(
                    before[k].physical_target_size,
                ),
        decreases count - i,
    {
        let camera = cameras[i];
        let mut picking = camera.picking;
        let unmapping = picking.unmap(camera.physical_target_size);
        cameras[i] = PickingCamera {
            target: camera.target,
            physical_target_size: camera.physical_target_size,
            picking,
        };
        unmappings.push(unmapping);
        i = i + 1;
    }
    unmappings
}

} // verus!
