//! The queries: which object, and which depth, lies under a pixel.
//!
//! A query names a pixel the way a cursor does, counted from the bottom left
//! of the viewport. The buffers hold the image from the top left, row after
//! padded row, so the vertical axis is flipped before the pixel's bytes are
//! looked up. Nothing is read unless the buffer is mapped and the bytes asked
//! for lie inside it.

use crate::codec::{
    decode, decode_depth, decode_pixel, depth_bits, ObjectId, DEPTH_BYTES, PIXEL_BYTES,
};
use crate::layout::{
    lemma_max_width, lemma_row_stride, row_stride, total_bytes, PickingBufferSize, TextureSize,
    MAX_WIDTH,
};
use crate::readback::{MapState, PickError, Picking, PickingResources, Prepared};
use vstd::prelude::*;
use vstd::slice::slice_index_get;

verus! {

/// A pixel of a viewport, counted from its bottom-left corner.
#[derive(Clone, Copy, Debug, PartialEq, Eq, Structural)]
pub struct PixelCoord {
    pub x: u32,
    pub y: u32,
}

/// The vertical flip: the distance from the top of a viewport `height` rows
/// high to a row `y` rows above its bottom, and zero for a row above the top.
pub open spec fn flipped_row(height: nat, y: nat) -> nat {
    if y <= height {
        (height - y) as nat
    } else {
        0
    }
}

/// Whether a pixel lies inside a viewport.
pub open spec fn in_viewport(viewport: TextureSize, pixel: PixelCoord) -> bool {
    pixel.x < viewport.x && pixel.y < viewport.y
}

/// The offset at which the bytes of a pixel start in a buffer laid out for
/// `extent`, before any check that they lie inside the buffer.
pub open spec fn unchecked_start(
    extent: TextureSize,
    viewport: TextureSize,
    pixel: PixelCoord,
    pixel_bytes: nat,
) -> nat {
    flipped_row(viewport.y as nat, pixel.y as nat) * row_stride(extent.x as nat) + (
    pixel.x as nat) * pixel_bytes
}

/// The offset at which the `pixel_bytes` bytes of a pixel start in a buffer
/// laid out for `extent`, of which `available` bytes are on hand. There is
/// none for a pixel outside the viewport, and none where the bytes would not
/// lie inside the buffer.
pub open spec fn pixel_start(
    extent: TextureSize,
    viewport: TextureSize,
    pixel: PixelCoord,
    pixel_bytes: nat,
    available: nat,
) -> Option<nat> {
    let start = unchecked_start(extent, viewport, pixel, pixel_bytes);
    if in_viewport(viewport, pixel) && start + pixel_bytes <= total_bytes(
        extent.x as nat,
        extent.y as nat,
    ) && start + pixel_bytes <= available {
        Some(start)
    } else {
        None
    }
}

/// The flip mirrors the vertical axis: a row and its flipped row add up to
/// the height, and a higher row flips to a lower one.
pub proof fn lemma_flipped_row_mirrors(height: nat, y: nat, above: nat)
    requires
        y <= above <= height,
    ensures
        flipped_row(height, y) + y == height,
        flipped_row(height, above) <= flipped_row(height, y),
        flipped_row(height, flipped_row(height, y)) == y,
{
}

/// Bytes are only ever looked up for a pixel inside the viewport, and they
/// lie inside the buffer; a pixel on or past the right or the top edge of the
/// viewport is turned away.
pub proof fn lemma_pixel_start_in_bounds(
    extent: TextureSize,
    viewport: TextureSize,
    pixel: PixelCoord,
    pixel_bytes: nat,
    available: nat,
)
    ensures
        pixel_start(extent, viewport, pixel, pixel_bytes, available) matches Some(start) ==> {
            &&& in_viewport(viewport, pixel)
            &&& start + pixel_bytes <= total_bytes(extent.x as nat, extent.y as nat)
            &&& start + pixel_bytes <= available
        },
        pixel.x >= viewport.x || pixel.y >= viewport.y ==> pixel_start(
            extent,
            viewport,
            pixel,
            pixel_bytes,
            available,
        ) is None,
{
}

/// In a buffer laid out for the viewport itself, the bytes of every pixel of
/// the viewport but those of its bottom row lie inside the buffer, at the
/// start of the pixel's place in its flipped row; the flipped row of the
/// bottom row is the height, which is past the last row of the buffer.
pub proof fn lemma_pixel_start_same_extent(viewport: TextureSize, pixel: PixelCoord)
    requires
        in_viewport(viewport, pixel),
    ensures
        pixel.y > 0 ==> pixel_start(
            viewport,
            viewport,
            pixel,
            PIXEL_BYTES as nat,
            total_bytes(viewport.x as nat, viewport.y as nat),
        ) == Some(
            ((viewport.y - pixel.y) * row_stride(viewport.x as nat) + pixel.x * 8) as nat,
        ),
        pixel.y == 0 ==> pixel_start(
            viewport,
            viewport,
            pixel,
            PIXEL_BYTES as nat,
            total_bytes(viewport.x as nat, viewport.y as nat),
        ) is None,
{
    let stride = row_stride(viewport.x as nat) as int;
    let row = flipped_row(viewport.y as nat, pixel.y as nat) as int;
    let height = viewport.y as int;
    lemma_row_stride(viewport.x as nat, viewport.y as nat);
    assert(pixel.x * 8 + 8 <= stride);
    if pixel.y > 0 {
        assert(row * stride + stride <= height * stride) by (nonlinear_arith)
            requires
                row + 1 <= height,
                stride >= 0,
        ;
    } else {
        assert(row == height);
    }
}

/// A camera whose size changed between two frames gets new resources, laid
/// out for the new size, the next time it is prepared; and until the new
/// buffers are mapped no query reads a byte, whatever buffer it is handed.
pub proof fn lemma_resize_replaces(
    picking: Picking,
    size: TextureSize,
    viewport: TextureSize,
    pixel: PixelCoord,
    mapped: Seq<u8>,
)
    requires
        picking.fault is None,
        picking.resources is Some,
        picking.resources->0.idle(),
        picking.resources->0.size@ != size,
        0 < size.x <= MAX_WIDTH,
        0 < size.y,
    ensures
        picking.prepared(Some(size)) == (Prepared::Allocated {
            bytes: total_bytes(size.x as nat, size.y as nat) as u64,
        }),
        total_bytes(size.x as nat, size.y as nat) <= u64::MAX,
        picking.after_ensure(Some(size)).resources == Some(
            PickingResources::fresh(PickingBufferSize::layout_for(size.x, size.y)),
        ),
        picking.after_ensure(Some(size)).resources->0.size@ == size,
        picking.after_ensure(Some(size)).resources->0.fits(size),
        picking.after_ensure(Some(size)).entity_at(viewport, pixel, mapped) == Ok::<
            Option<ObjectId>,
            PickError,
        >(None),
        picking.after_ensure(Some(size)).depth_at(viewport, pixel, mapped) == Err::<
            u32,
            PickError,
        >(PickError::NotReady),
{
    PickingBufferSize::lemma_layout_for(size.x, size.y);
    lemma_max_width(size.x as nat);
    assert(size.y * row_stride(size.x as nat) <= u64::MAX) by (nonlinear_arith)
        requires
            size.y <= u32::MAX,
            row_stride(size.x as nat) <= u32::MAX,
    ;
}

/// Resources that no longer fit stay while a readback is in flight, and are
/// replaced by the first preparation after the buffers are unmapped.
pub proof fn lemma_resize_waits(picking: Picking, size: TextureSize)
    requires
        picking.fault is None,
        picking.resources is Some,
        !picking.resources->0.idle(),
        !picking.resources->0.fits(size),
        0 < size.x <= MAX_WIDTH,
        0 < size.y,
    ensures
        picking.prepared(Some(size)) == Prepared::Deferred,
        picking.after_ensure(Some(size)) == picking,
        picking.after_unmap(Some(size)).prepared(Some(size)) is Allocated,
{
}

/// Two queries for the same pixel, of the same camera, against buffers that
/// hold the same bytes give the same answer.
pub proof fn lemma_query_repeats(
    picking: Picking,
    viewport: TextureSize,
    pixel: PixelCoord,
    first: Seq<u8>,
    second: Seq<u8>,
)
    requires
        first.len() == second.len(),
        forall|i: int| 0 <= i < first.len() ==> first[i] == second[i],
    ensures
        picking.entity_at(viewport, pixel, first) == picking.entity_at(viewport, pixel, second),
        picking.depth_at(viewport, pixel, first) == picking.depth_at(viewport, pixel, second),
{
    assert(first =~= second);
}

/// Finds the bytes of a pixel in a mapped buffer.
///
/// Returns the offset at which the `pixel_bytes` bytes of the pixel start in
/// `buffer_view`, or `PickError::OutOfBounds` where the pixel lies outside
/// the viewport or its bytes outside the buffer.
pub fn pixel_offset(
    coords: PixelCoord,
    viewport: TextureSize,
    picking_buffer_size: &PickingBufferSize,
    buffer_view: &[u8],
    pixel_bytes: u32,
) -> (found: Result<usize, PickError>)
    ensures
        match found {
            Ok(start) => pixel_start(
                picking_buffer_size@,
                viewport,
                coords,
                pixel_bytes as nat,
                buffer_view@.len(),
            ) == Some(start as nat) && start + pixel_bytes <= usize::MAX,
            Err(e) => e == PickError::OutOfBounds && pixel_start(
                picking_buffer_size@,
                viewport,
                coords,
                pixel_bytes as nat,
                buffer_view@.len(),
            ) is None,
        },
{
    if coords.x >= viewport.x || coords.y >= viewport.y {
        return Err(PickError::OutOfBounds);
    }
    // The image in the buffer has a top-left origin, the coordinates a
    // bottom-left one: flip the vertical axis.
    let row: u32 = viewport.y - coords.y;
    let stride = picking_buffer_size.padded_bytes_per_row();
    let total = picking_buffer_size.total_needed_bytes();
    proof {
        assert(row * stride <= 0xffff_ffff * 0xffff_ffff) by (nonlinear_arith)
            requires
                row <= 0xffff_ffff,
                stride <= 0xffff_ffff,
        ;
        assert(coords.x * pixel_bytes <= 0xffff_ffff * 0xffff_ffff) by (nonlinear_arith)
            requires
                coords.x <= 0xffff_ffff,
                pixel_bytes <= 0xffff_ffff,
        ;
    }
    let start: u128 = row as u128 * stride as u128 + coords.x as u128 * pixel_bytes as u128;
    let end: u128 = start + pixel_bytes as u128;
    if end <= total as u128 && end <= buffer_view.len() as u128 {
        Ok(start as usize)
    } else {
        Err(PickError::OutOfBounds)
    }
}

/// Copies the eight bytes of a pixel out of a buffer.
fn read_pixel(buffer_view: &[u8], start: usize) -> (pixel: [u8; 8])
    requires
        start + 8 <= buffer_view@.len(),
        start + 8 <= usize::MAX,
    ensures
        pixel@ == buffer_view@.subrange(start as int, start + 8),
{
    let pixel = [
        *slice_index_get(buffer_view, start),
        *slice_index_get(buffer_view, start + 1),
        *slice_index_get(buffer_view, start + 2),
        *slice_index_get(buffer_view, start + 3),
        *slice_index_get(buffer_view, start + 4),
        *slice_index_get(buffer_view, start + 5),
        *slice_index_get(buffer_view, start + 6),
        *slice_index_get(buffer_view, start + 7),
    ];
    assert(pixel@ =~= buffer_view@.subrange(start as int, start + 8));
    pixel
}

/// Copies the four bytes of a depth value out of a buffer.
fn read_depth(buffer_view: &[u8], start: usize) -> (bytes: [u8; 4])
    requires
        start + 4 <= buffer_view@.len(),
        start + 4 <= usize::MAX,
    ensures
        bytes@ == buffer_view@.subrange(start as int, start + 4),
{
    let bytes = [
        *slice_index_get(buffer_view, start),
        *slice_index_get(buffer_view, start + 1),
        *slice_index_get(buffer_view, start + 2),
        *slice_index_get(buffer_view, start + 3),
    ];
    assert(bytes@ =~= buffer_view@.subrange(start as int, start + 4));
    bytes
}

impl Picking {
    /// Whether the buffer of identifiers can be read.
    pub open spec fn entities_ready(self) -> bool {
        self.resources is Some && self.resources->0.pick_buffer.state == MapState::Mapped
    }

    /// Whether the buffer of depth values can be read.
    pub open spec fn depth_ready(self) -> bool {
        self.resources is Some && self.resources->0.depth_buffer.state == MapState::Mapped
    }

    /// The object under a pixel, given the bytes of the mapped buffer of
    /// identifiers.
    ///
    /// A device fault is reported first. While the buffer is not mapped there
    /// is no object to report. Then a pixel outside the viewport, or whose
    /// bytes are not in the buffer, is an error. Otherwise the pixel's bytes
    /// are decoded.
    pub open spec fn entity_at(
        self,
        viewport: TextureSize,
        pixel: PixelCoord,
        mapped: Seq<u8>,
    ) -> Result<Option<ObjectId>, PickError> {
        if self.fault is Some {
            Err(PickError::Device(self.fault->0))
        } else if !self.entities_ready() {
            Ok(None)
        } else {
            match pixel_start(
                self.resources->0.size@,
                viewport,
                pixel,
                PIXEL_BYTES as nat,
                mapped.len(),
            ) {
                Some(start) => Ok(decode(mapped.subrange(start as int, start as int + 8))),
                None => Err(PickError::OutOfBounds),
            }
        }
    }

    /// The bit pattern of the depth under a pixel, given the bytes of the
    /// mapped buffer of depth values.
    ///
    /// A device fault is reported first, then that the buffer is not mapped,
    /// then a pixel outside the viewport or whose bytes are not in the buffer.
    /// Otherwise the pixel's four bytes are put together.
    pub open spec fn depth_at(
        self,
        viewport: TextureSize,
        pixel: PixelCoord,
        mapped: Seq<u8>,
    ) -> Result<u32, PickError> {
        if self.fault is Some {
            Err(PickError::Device(self.fault->0))
        } else if !self.depth_ready() {
            Err(PickError::NotReady)
        } else {
            match pixel_start(
                self.resources->0.size@,
                viewport,
                pixel,
                DEPTH_BYTES as nat,
                mapped.len(),
            ) {
                Some(start) => Ok(depth_bits(mapped.subrange(start as int, start as int + 4)) as u32),
                None => Err(PickError::OutOfBounds),
            }
        }
    }

    /// Whether a query for an object reads the buffer of identifiers: the
    /// device has not failed and the buffer is mapped.
    pub fn reads_entities(&self) -> (reads: bool)
        ensures
            reads == (self.fault is None && self.entities_ready()),
    {
        self.fault.is_none() && match &self.resources {
            Some(resources) => matches!(resources.pick_buffer.state, MapState::Mapped),
            None => false,
        }
    }

    /// Whether a query for a depth reads the buffer of depth values: the
    /// device has not failed and the buffer is mapped.
    pub fn reads_depth(&self) -> (reads: bool)
        ensures
            reads == (self.fault is None && self.depth_ready()),
    {
        self.fault.is_none() && match &self.resources {
            Some(resources) => matches!(resources.depth_buffer.state, MapState::Mapped),
            None => false,
        }
    }

    /// Gets the object at the given coordinates of a camera's viewport.
    ///
    /// `mapped` holds the bytes of the buffer of identifiers; it is not read
    /// unless that buffer is mapped. Returns `Ok(None)` where there is no
    /// object, or none to report yet.
    pub fn get_entity(&self, viewport: TextureSize, coordinates: PixelCoord, mapped: &[u8]) -> (found:
        Result<Option<ObjectId>, PickError>)
        ensures
            found == self.entity_at(viewport, coordinates, mapped@),
    {
        if let Some(fault) = self.fault {
            return Err(PickError::Device(fault));
        }
        let resources = match &self.resources {
            Some(resources) => resources,
            None => {
                return Ok(None);
            },
        };
        if !matches!(resources.pick_buffer.state, MapState::Mapped) {
            return Ok(None);
        }
        match pixel_offset(coordinates, viewport, &resources.size, mapped, PIXEL_BYTES as u32) {
            Ok(start) => {
                let pixel = read_pixel(mapped, start);
                Ok(decode_pixel(&pixel))
            },
            Err(e) => Err(e),
        }
    }

    /// Gets the depth at the given coordinates of a camera's viewport, as the
    /// bit pattern of a 32-bit floating-point number.
    ///
    /// `mapped` holds the bytes of the buffer of depth values; it is not read
    /// unless that buffer is mapped.
    pub fn depth(&self, viewport: TextureSize, coordinates: PixelCoord, mapped: &[u8]) -> (found:
        Result<u32, PickError>)
        ensures
            found == self.depth_at(viewport, coordinates, mapped@),
    {
        if let Some(fault) = self.fault {
            return Err(PickError::Device(fault));
        }
        let resources = match &self.resources {
            Some(resources) => resources,
            None => {
                return Err(PickError::NotReady);
            },
        };
        if !matches!(resources.depth_buffer.state, MapState::Mapped) {
            return Err(PickError::NotReady);
        }
        match pixel_offset(coordinates, viewport, &resources.size, mapped, DEPTH_BYTES as u32) {
            Ok(start) => {
                let bytes = read_depth(mapped, start);
                Ok(decode_depth(&bytes))
            },
            Err(e) => Err(e),
        }
    }
}

} // verus!
