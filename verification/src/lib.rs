//! GPU object picking: which rendered object, at what depth, lies under a pixel.
//!
//! The renderer draws every object's identifier into an off-screen texture,
//! copies that texture and the depth texture into buffers, and maps the
//! buffers for reading. This crate holds the part of that which is pure
//! computation: how an identifier is written into a pixel and read back, how
//! the buffers are laid out, which state each buffer is in and what the
//! renderer has to do next, and where in a mapped buffer the bytes of a pixel
//! are found.

pub mod codec;
pub mod layout;
pub mod query;
pub mod readback;
pub mod schedule;
pub mod targets;
pub mod widget;

pub use codec::{decode_depth, decode_pixel, encode_pixel, ObjectId};
pub use layout::{LayoutError, PickingBufferSize, TextureSize};
pub use query::{pixel_offset, PixelCoord};
pub use readback::{
    BufferKind, DeviceFault, MapState, PickError, Picking, PickingResources, Prepared,
    ReadbackBuffer, Unmapping,
};
pub use schedule::{copy_to_buffer, map_buffers, unmap_buffers, BufferCopy, CopyCommands};
pub use targets::{
    prepare_picking_targets, ColorAttachment, PickingCamera, PickingTextures, PreparePlan,
    TextureRequest,
};
pub use widget::{ColorPickerPlugin, HueWheel, SaturationValueBox};
