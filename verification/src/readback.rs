//! The picking state of one camera and the steps that move it through a frame.
//!
//! A camera that takes part in picking owns two buffers the GPU copies into
//! and the CPU later reads: one receives the identifier texture, the other the
//! depth texture. Each buffer is unmapped while the GPU may write it, then a
//! mapping is requested, then it is mapped and may be read, then it is
//! unmapped again. The GPU work itself is done by the caller; the functions
//! here decide what is to be done and record what happened.

use crate::layout::{
    lemma_max_width, row_stride, total_bytes, LayoutError, PickingBufferSize, TextureSize,
    MAX_WIDTH,
};
use vstd::prelude::*;

verus! {

/// Where a buffer stands between the GPU that writes it and the CPU that
/// reads it.
#[derive(Clone, Copy, Debug, PartialEq, Eq, Structural)]
pub enum MapState {
    /// The GPU may copy into the buffer; the CPU may not read it.
    Unmapped,
    /// A mapping was requested and has not completed.
    MapRequested,
    /// The buffer's bytes are visible to the CPU.
    Mapped,
}

/// A failure of the device, after which a camera's picking state is of no use.
#[derive(Clone, Copy, Debug, PartialEq, Eq, Structural)]
pub enum DeviceFault {
    /// The device could not map a buffer.
    MapFailed,
    /// The device could not allocate a buffer.
    OutOfMemory,
}

/// Why a query gave no answer.
#[derive(Clone, Copy, Debug, PartialEq, Eq, Structural)]
pub enum PickError {
    /// The bytes to answer from are not on hand yet.
    NotReady,
    /// The pixel lies outside the viewport, or outside the buffer.
    OutOfBounds,
    /// The device failed earlier.
    Device(DeviceFault),
}

/// One of the two buffers of a camera.
#[derive(Clone, Copy, Debug, PartialEq, Eq, Structural)]
pub enum BufferKind {
    /// The buffer that receives the identifier texture.
    Pick,
    /// The buffer that receives the depth texture.
    Depth,
}

/// What is known of one GPU buffer: its size in bytes and its map state.
#[derive(Clone, Copy, Debug, PartialEq, Eq, Structural)]
pub struct ReadbackBuffer {
    pub size: u64,
    pub state: MapState,
}

/// The buffers of one camera and the layout they were made for.
#[derive(Clone, Copy, Debug)]
pub struct PickingResources {
    /// Written by the GPU, read by the CPU: holds object identifiers.
    pub pick_buffer: ReadbackBuffer,
    /// Accompanies the above: holds depth values.
    pub depth_buffer: ReadbackBuffer,
    /// The layout of both buffers.
    pub size: PickingBufferSize,
}

/// The picking state of one camera: its resources, once prepared, and the
/// device fault that ended it, if any.
#[derive(Clone, Copy, Debug)]
pub struct Picking {
    pub resources: Option<PickingResources>,
    pub fault: Option<DeviceFault>,
}

/// What preparing a camera for a frame came to.
#[derive(Clone, Copy, Debug, PartialEq, Eq, Structural)]
pub enum Prepared {
    /// The camera has no size, or a zero one: nothing was done.
    Skipped,
    /// The camera is too wide to lay a buffer out for: nothing was done.
    TooWide,
    /// The resources on hand fit the camera: nothing was done.
    Kept,
    /// New resources were recorded: the caller drops the old buffers, if any,
    /// and makes two buffers of `bytes` bytes each.
    Allocated { bytes: u64 },
    /// The resources do not fit, but a readback is in flight: they stay until
    /// the buffers are unmapped.
    Deferred,
    /// The device failed earlier: nothing was done.
    Faulted,
}

/// Which buffers the caller has to unmap.
#[derive(Clone, Copy, Debug, PartialEq, Eq, Structural)]
pub struct Unmapping {
    pub pick: bool,
    pub depth: bool,
}

/// Whether a camera of this size takes part in a frame's picking.
pub open spec fn has_area(extent: Option<TextureSize>) -> bool {
    extent is Some && extent->0.x != 0 && extent->0.y != 0
}

impl ReadbackBuffer {
    /// The buffer in another map state.
    pub open spec fn with_state(self, state: MapState) -> ReadbackBuffer {
        ReadbackBuffer { size: self.size, state }
    }

    /// The buffer once a mapping completed: mapped if one was requested, as
    /// before if none was.
    pub open spec fn after_map(self) -> ReadbackBuffer {
        if self.state == MapState::MapRequested {
            self.with_state(MapState::Mapped)
        } else {
            self
        }
    }
}

impl PickingResources {
    /// Resources newly made for a layout: two unmapped buffers of the size
    /// the layout asks for.
    pub open spec fn fresh(size: PickingBufferSize) -> PickingResources {
        let bytes = total_bytes(size@.x as nat, size@.y as nat) as u64;
        PickingResources {
            pick_buffer: ReadbackBuffer { size: bytes, state: MapState::Unmapped },
            depth_buffer: ReadbackBuffer { size: bytes, state: MapState::Unmapped },
            size,
        }
    }

    /// Whether these resources are what a camera of the given extent needs.
    pub open spec fn fits(self, extent: TextureSize) -> bool {
        let needed = total_bytes(extent.x as nat, extent.y as nat);
        &&& self.pick_buffer.size == needed
        &&& self.depth_buffer.size == needed
        &&& self.size@ == extent
    }

    /// Whether both buffers are unmapped, so that the GPU may copy into them.
    pub open spec fn idle(self) -> bool {
        self.pick_buffer.state == MapState::Unmapped && self.depth_buffer.state
            == MapState::Unmapped
    }

    /// These resources with both buffers in the given map state.
    pub open spec fn with_states(self, state: MapState) -> PickingResources {
        PickingResources {
            pick_buffer: self.pick_buffer.with_state(state),
            depth_buffer: self.depth_buffer.with_state(state),
            size: self.size,
        }
    }

    /// These resources once the mapping of one buffer completed.
    pub open spec fn after_map(self, kind: BufferKind) -> PickingResources {
        match kind {
            BufferKind::Pick => PickingResources {
                pick_buffer: self.pick_buffer.after_map(),
                depth_buffer: self.depth_buffer,
                size: self.size,
            },
            BufferKind::Depth => PickingResources {
                pick_buffer: self.pick_buffer,
                depth_buffer: self.depth_buffer.after_map(),
                size: self.size,
            },
        }
    }

    /// Whether both buffers are unmapped.
    pub fn is_idle(&self) -> (idle: bool)
        ensures
            idle == self.idle(),
    {
        matches!(self.pick_buffer.state, MapState::Unmapped) && matches!(
            self.depth_buffer.state,
            MapState::Unmapped
        )
    }
}

impl Picking {
    /// The state of a camera nothing was prepared for yet.
    pub open spec fn unprepared() -> Picking {
        Picking { resources: None, fault: None }
    }

    /// What preparing this camera, at the given size, comes to.
    pub open spec fn prepared(self, extent: Option<TextureSize>) -> Prepared {
        if self.fault is Some {
            Prepared::Faulted
        } else if !has_area(extent) {
            Prepared::Skipped
        } else if extent->0.x > MAX_WIDTH {
            Prepared::TooWide
        } else if self.resources is Some && self.resources->0.fits(extent->0) {
            Prepared::Kept
        } else if self.resources is Some && !self.resources->0.idle() {
            Prepared::Deferred
        } else {
            Prepared::Allocated {
                bytes: total_bytes(extent->0.x as nat, extent->0.y as nat) as u64,
            }
        }
    }

    /// The state after preparing this camera at the given size: new resources
    /// where they were allocated, no change otherwise.
    pub open spec fn after_ensure(self, extent: Option<TextureSize>) -> Picking {
        if self.prepared(extent) is Allocated {
            Picking {
                resources: Some(
                    PickingResources::fresh(
                        PickingBufferSize::layout_for(extent->0.x, extent->0.y),
                    ),
                ),
                fault: self.fault,
            }
        } else {
            self
        }
    }

    /// Whether the GPU may copy into this camera's buffers and a mapping may
    /// be requested: it has resources, both buffers are unmapped, and the
    /// device has not failed.
    pub open spec fn ready_for_copy(self) -> bool {
        self.fault is None && self.resources is Some && self.resources->0.idle()
    }

    /// Whether a mapping is to be requested for this camera at the given size.
    pub open spec fn maps(self, extent: Option<TextureSize>) -> bool {
        has_area(extent) && self.ready_for_copy()
    }

    /// The state after the map step: a mapping is requested for both buffers
    /// where one is to be, no change otherwise.
    pub open spec fn after_request_map(self, extent: Option<TextureSize>) -> Picking {
        if self.maps(extent) {
            Picking {
                resources: Some(self.resources->0.with_states(MapState::MapRequested)),
                fault: self.fault,
            }
        } else {
            self
        }
    }

    /// The state after the device reported on the mapping of one buffer. A
    /// failure is recorded, unless one was before; a success maps the buffer
    /// if a mapping was requested for it.
    pub open spec fn after_map_finished(
        self,
        kind: BufferKind,
        outcome: Result<(), DeviceFault>,
    ) -> Picking {
        match outcome {
            Err(fault) => Picking {
                resources: self.resources,
                fault: if self.fault is Some {
                    self.fault
                } else {
                    Some(fault)
                },
            },
            Ok(_) => match self.resources {
                Some(r) => Picking { resources: Some(r.after_map(kind)), fault: self.fault },
                None => self,
            },
        }
    }

    /// The buffers to unmap at the end of a frame for a camera of the given
    /// size: those that are not unmapped.
    pub open spec fn unmapping(self, extent: Option<TextureSize>) -> Unmapping {
        if has_area(extent) && self.resources is Some {
            Unmapping {
                pick: self.resources->0.pick_buffer.state != MapState::Unmapped,
                depth: self.resources->0.depth_buffer.state != MapState::Unmapped,
            }
        } else {
            Unmapping { pick: false, depth: false }
        }
    }

    /// The state after the unmap step: both buffers unmapped for a camera
    /// with a size and resources, no change otherwise.
    pub open spec fn after_unmap(self, extent: Option<TextureSize>) -> Picking {
        if has_area(extent) && self.resources is Some {
            Picking {
                resources: Some(self.resources->0.with_states(MapState::Unmapped)),
                fault: self.fault,
            }
        } else {
            self
        }
    }

    /// The state of a camera nothing was prepared for yet.
    pub fn new() -> (picking: Picking)
        ensures
            picking == Picking::unprepared(),
    {
        Picking { resources: None, fault: None }
    }

    /// Makes sure this camera has resources that fit the given size.
    ///
    /// Resources that fit are kept. Others are replaced by new ones, unless a
    /// readback is in flight: then they stay until the buffers are unmapped,
    /// and a later call replaces them.
    pub fn ensure(&mut self, extent: Option<TextureSize>) -> (outcome: Prepared)
        ensures
            outcome == old(self).prepared(extent),
            *final(self) == old(self).after_ensure(extent),
            outcome is Allocated || outcome is Kept ==> final(self).resources is Some,
            outcome is Allocated || outcome is Kept ==> final(self).resources->0.fits(extent->0),
            outcome is Allocated ==> final(self).resources->0.idle(),
    {
        if self.fault.is_some() {
            return Prepared::Faulted;
        }
        let size = match extent {
            Some(size) => size,
            None => {
                return Prepared::Skipped;
            },
        };
        let layout = match PickingBufferSize::new(size.x, size.y) {
            Ok(layout) => layout,
            Err(LayoutError::ZeroSized) => {
                return Prepared::Skipped;
            },
            Err(LayoutError::TooWide) => {
                return Prepared::TooWide;
            },
        };
        let needed = layout.total_needed_bytes();
        proof {
            PickingBufferSize::lemma_layout_for(size.x, size.y);
        }
        if let Some(resources) = &self.resources {
            let held = resources.size.texture_size();
            if resources.pick_buffer.size == needed && resources.depth_buffer.size == needed
                && held.x == size.x && held.y == size.y {
                return Prepared::Kept;
            }
            if !resources.is_idle() {
                return Prepared::Deferred;
            }
        }
        self.resources = Some(
            PickingResources {
                pick_buffer: ReadbackBuffer { size: needed, state: MapState::Unmapped },
                depth_buffer: ReadbackBuffer { size: needed, state: MapState::Unmapped },
                size: layout,
            },
        );
        Prepared::Allocated { bytes: needed }
    }

    /// Records that a mapping is requested for both buffers, if one is to be.
    /// Returns whether the caller has to request it.
    pub fn request_map(&mut self, extent: Option<TextureSize>) -> (requested: bool)
        ensures
            requested == old(self).maps(extent),
            *final(self) == old(self).after_request_map(extent),
    {
        let sized = match extent {
            Some(size) => size.x != 0 && size.y != 0,
            None => false,
        };
        if !sized || self.fault.is_some() {
            return false;
        }
        match self.resources {
            Some(resources) => {
                if !resources.is_idle() {
                    return false;
                }
                self.resources = Some(
                    PickingResources {
                        pick_buffer: ReadbackBuffer {
                            size: resources.pick_buffer.size,
                            state: MapState::MapRequested,
                        },
                        depth_buffer: ReadbackBuffer {
                            size: resources.depth_buffer.size,
                            state: MapState::MapRequested,
                        },
                        size: resources.size,
                    },
                );
                true
            },
            None => false,
        }
    }

    /// Records what the device reported on the mapping of one buffer.
    ///
    /// A failure is fatal to this camera's picking: it is recorded and
    /// returned, and every later query reports the fault first recorded.
    pub fn map_finished(&mut self, kind: BufferKind, outcome: Result<(), DeviceFault>) -> (report:
        Result<(), PickError>)
        ensures
            *final(self) == old(self).after_map_finished(kind, outcome),
            report == match outcome {
                Ok(_) => Ok::<(), PickError>(()),
                Err(fault) => Err::<(), PickError>(PickError::Device(fault)),
            },
    {
        match outcome {
            Err(fault) => {
                if self.fault.is_none() {
                    self.fault = Some(fault);
                }
                Err(PickError::Device(fault))
            },
            Ok(_) => {
                if let Some(resources) = self.resources {
                    let mut pick_buffer = resources.pick_buffer;
                    let mut depth_buffer = resources.depth_buffer;
                    match kind {
                        BufferKind::Pick => {
                            if matches!(pick_buffer.state, MapState::MapRequested) {
                                pick_buffer = ReadbackBuffer {
                                    size: pick_buffer.size,
                                    state: MapState::Mapped,
                                };
                            }
                        },
                        BufferKind::Depth => {
                            if matches!(depth_buffer.state, MapState::MapRequested) {
                                depth_buffer = ReadbackBuffer {
                                    size: depth_buffer.size,
                                    state: MapState::Mapped,
                                };
                            }
                        },
                    }
                    self.resources = Some(
                        PickingResources { pick_buffer, depth_buffer, size: resources.size },
                    );
                }
                Ok(())
            },
        }
    }

    /// Records that the device could not allocate this camera's buffers.
    pub fn allocation_failed(&mut self) -> (report: PickError)
        ensures
            *final(self) == old(self).after_map_finished(
                BufferKind::Pick,
                Err(DeviceFault::OutOfMemory),
            ),
            report == PickError::Device(DeviceFault::OutOfMemory),
    {
        if self.fault.is_none() {
            self.fault = Some(DeviceFault::OutOfMemory);
        }
        PickError::Device(DeviceFault::OutOfMemory)
    }

    /// Records that both buffers are unmapped, and returns which of them the
    /// caller has to unmap.
    pub fn unmap(&mut self, extent: Option<TextureSize>) -> (unmapping: Unmapping)
        ensures
            unmapping == old(self).unmapping(extent),
            *final(self) == old(self).after_unmap(extent),
    {
        let sized = match extent {
            Some(size) => size.x != 0 && size.y != 0,
            None => false,
        };
        if !sized {
            return Unmapping { pick: false, depth: false };
        }
        match self.resources {
            Some(resources) => {
                let unmapping = Unmapping {
                    pick: !matches!(resources.pick_buffer.state, MapState::Unmapped),
                    depth: !matches!(resources.depth_buffer.state, MapState::Unmapped),
                };
                self.resources = Some(
                    PickingResources {
                        pick_buffer: ReadbackBuffer {
                            size: resources.pick_buffer.size,
                            state: MapState::Unmapped,
                        },
                        depth_buffer: ReadbackBuffer {
                            size: resources.depth_buffer.size,
                            state: MapState::Unmapped,
                        },
                        size: resources.size,
                    },
                );
                unmapping
            },
            None => Unmapping { pick: false, depth: false },
        }
    }
}

/// Preparing a camera twice at one size is preparing it once: the second
/// preparation finds resources that fit and keeps them.
pub proof fn lemma_ensure_idempotent(picking: Picking, extent: Option<TextureSize>)
    ensures
        picking.after_ensure(extent).after_ensure(extent) == picking.after_ensure(extent),
        picking.prepared(extent) is Allocated || picking.prepared(extent) is Kept
            ==> picking.after_ensure(extent).prepared(extent) == Prepared::Kept,
        !(picking.prepared(extent) is Allocated) ==> picking.after_ensure(extent) == picking,
{
    if picking.prepared(extent) is Allocated {
        let size = extent->0;
        PickingBufferSize::lemma_layout_for(size.x, size.y);
        lemma_max_width(size.x as nat);
        assert(size.y * row_stride(size.x as nat) <= u64::MAX) by (nonlinear_arith)
            requires
                size.y <= u32::MAX,
                row_stride(size.x as nat) <= u32::MAX,
        ;
    }
}

/// A frame takes the buffers of a camera once round: from unmapped to
/// requested, from there to mapped as each mapping completes, and back to
/// unmapped, with the buffers and their layout the same throughout.
pub proof fn lemma_readback_cycle(picking: Picking, extent: Option<TextureSize>)
    requires
        picking.maps(extent),
    ensures
        ({
            let requested = picking.after_request_map(extent);
            let half_way = requested.after_map_finished(BufferKind::Pick, Ok(()));
            let mapped = half_way.after_map_finished(BufferKind::Depth, Ok(()));
            let unmapped = mapped.after_unmap(extent);
            &&& requested.resources == Some(
                picking.resources->0.with_states(MapState::MapRequested),
            )
            &&& !requested.ready_for_copy()
            &&& half_way.resources->0.pick_buffer.state == MapState::Mapped
            &&& half_way.resources->0.depth_buffer.state == MapState::MapRequested
            &&& mapped.resources == Some(picking.resources->0.with_states(MapState::Mapped))
            &&& mapped.unmapping(extent) == (Unmapping { pick: true, depth: true })
            &&& unmapped == picking
        }),
{
}

impl Default for Picking {
    fn default() -> (picking: Picking)
        ensures
            picking == Picking::unprepared(),
    {
        Picking::new()
    }
}

} // verus!
