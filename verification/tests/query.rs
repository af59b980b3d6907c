use gpu_picking::codec::encode_pixel;
use gpu_picking::{
    pixel_offset, BufferKind, DeviceFault, ObjectId, PickError, Picking, PickingBufferSize,
    PixelCoord, Prepared, TextureSize,
};

fn size(x: u32, y: u32) -> TextureSize {
    TextureSize { x, y }
}

fn at(x: u32, y: u32) -> PixelCoord {
    PixelCoord { x, y }
}

/// A camera of the given size whose buffers are both mapped.
fn mapped(extent: TextureSize) -> Picking {
    let mut picking = Picking::new();
    assert!(matches!(
        picking.ensure(Some(extent)),
        Prepared::Allocated { .. }
    ));
    assert!(picking.request_map(Some(extent)));
    assert_eq!(picking.map_finished(BufferKind::Pick, Ok(())), Ok(()));
    assert_eq!(picking.map_finished(BufferKind::Depth, Ok(())), Ok(()));
    picking
}

/// A buffer of identifiers in which buffer row `row`, column `x` holds the
/// object `row * 1000 + x`.
fn pick_bytes(extent: TextureSize) -> Vec<u8> {
    let layout = PickingBufferSize::new(extent.x, extent.y).unwrap();
    let stride = layout.padded_bytes_per_row() as usize;
    let mut bytes = vec![0u8; layout.total_needed_bytes() as usize];
    for row in 0..extent.y as usize {
        for x in 0..extent.x as usize {
            let pixel = encode_pixel(ObjectId((row * 1000 + x) as u32));
            bytes[row * stride + x * 8..row * stride + x * 8 + 8].copy_from_slice(&pixel);
        }
    }
    bytes
}

/// A buffer of depth values in which buffer row `row`, column `x` holds the
/// bit pattern `row * 1000 + x`.
fn depth_bytes(extent: TextureSize) -> Vec<u8> {
    let layout = PickingBufferSize::new(extent.x, extent.y).unwrap();
    let stride = layout.padded_bytes_per_row() as usize;
    let mut bytes = vec![0u8; layout.total_needed_bytes() as usize];
    for row in 0..extent.y as usize {
        for x in 0..extent.x as usize {
            let value = (row * 1000 + x) as u32;
            bytes[row * stride + x * 4..row * stride + x * 4 + 4]
                .copy_from_slice(&value.to_le_bytes());
        }
    }
    bytes
}

#[test]
fn offset_flips_the_vertical_axis() {
    let layout = PickingBufferSize::new(301, 200).unwrap();
    let bytes = vec![0u8; 512000];
    let viewport = size(301, 200);
    // Row 200 - 199 = 1, row 200 - 1 = 199.
    assert_eq!(pixel_offset(at(0, 199), viewport, &layout, &bytes, 8), Ok(2560));
    assert_eq!(
        pixel_offset(at(0, 1), viewport, &layout, &bytes, 8),
        Ok(199 * 2560)
    );
    assert_eq!(
        pixel_offset(at(7, 100), viewport, &layout, &bytes, 8),
        Ok(100 * 2560 + 7 * 8)
    );
    assert_eq!(
        pixel_offset(at(300, 1), viewport, &layout, &bytes, 8),
        Ok(199 * 2560 + 300 * 8)
    );
    assert_eq!(
        pixel_offset(at(7, 100), viewport, &layout, &bytes, 4),
        Ok(100 * 2560 + 7 * 4)
    );
}

#[test]
fn last_bytes_of_the_buffer_are_in_reach() {
    let layout = PickingBufferSize::new(301, 200).unwrap();
    let bytes = vec![0u8; 512000];
    let found = pixel_offset(at(300, 1), size(301, 200), &layout, &bytes, 8).unwrap();
    assert!(found + 8 <= 512000);
    // A viewport wider than the texture can name the very last bytes.
    let found = pixel_offset(at(319, 1), size(320, 200), &layout, &bytes, 8);
    assert_eq!(found, Ok(512000 - 8));
    assert_eq!(
        pixel_offset(at(0, 199), size(301, 200), &layout, &bytes, 8),
        Ok(2560)
    );
}

#[test]
fn pixel_outside_the_viewport_is_rejected() {
    let layout = PickingBufferSize::new(301, 200).unwrap();
    let bytes = vec![0u8; 512000];
    let viewport = size(301, 200);
    for pixel in [
        at(301, 5),
        at(5, 200),
        at(301, 200),
        at(u32::MAX, 5),
        at(5, u32::MAX),
        at(u32::MAX, u32::MAX),
    ] {
        assert_eq!(
            pixel_offset(pixel, viewport, &layout, &bytes, 8),
            Err(PickError::OutOfBounds)
        );
    }
    assert_eq!(
        pixel_offset(at(0, 0), size(0, 0), &layout, &bytes, 8),
        Err(PickError::OutOfBounds)
    );
}

#[test]
fn bytes_outside_the_buffer_are_rejected() {
    let layout = PickingBufferSize::new(301, 200).unwrap();
    let bytes = vec![0u8; 512000];
    // The bottom row of the viewport flips to row 200, past the last row.
    assert_eq!(
        pixel_offset(at(0, 0), size(301, 200), &layout, &bytes, 8),
        Err(PickError::OutOfBounds)
    );
    assert_eq!(
        pixel_offset(at(300, 0), size(301, 200), &layout, &bytes, 8),
        Err(PickError::OutOfBounds)
    );
    // A viewport higher than the texture.
    assert_eq!(
        pixel_offset(at(0, 10), size(301, 400), &layout, &bytes, 8),
        Err(PickError::OutOfBounds)
    );
    // A buffer shorter than the layout.
    let short = vec![0u8; 2560 * 3];
    assert_eq!(
        pixel_offset(at(0, 198), size(301, 200), &layout, &short, 8),
        Ok(2 * 2560)
    );
    assert_eq!(
        pixel_offset(at(0, 197), size(301, 200), &layout, &short, 8),
        Err(PickError::OutOfBounds)
    );
    assert_eq!(
        pixel_offset(at(0, 199), size(301, 200), &layout, &[], 8),
        Err(PickError::OutOfBounds)
    );
    // Sizes at the end of the range do not overflow.
    assert_eq!(
        pixel_offset(
            at(u32::MAX - 1, 1),
            size(u32::MAX, u32::MAX),
            &layout,
            &bytes,
            u32::MAX
        ),
        Err(PickError::OutOfBounds)
    );
}

#[test]
fn entity_is_read_from_the_flipped_row() {
    let extent = size(40, 30);
    let picking = mapped(extent);
    let bytes = pick_bytes(extent);
    assert_eq!(
        picking.get_entity(extent, at(0, 29), &bytes),
        Ok(Some(ObjectId(1000)))
    );
    assert_eq!(
        picking.get_entity(extent, at(39, 1), &bytes),
        Ok(Some(ObjectId(29039)))
    );
    assert_eq!(
        picking.get_entity(extent, at(17, 10), &bytes),
        Ok(Some(ObjectId(20017)))
    );
}

#[test]
fn entity_of_an_empty_pixel_is_none() {
    let extent = size(40, 30);
    let picking = mapped(extent);
    let layout = PickingBufferSize::new(40, 30).unwrap();
    let bytes = vec![0u8; layout.total_needed_bytes() as usize];
    assert_eq!(picking.get_entity(extent, at(3, 4), &bytes), Ok(None));
}

#[test]
fn entity_outside_the_viewport_is_an_error() {
    let extent = size(40, 30);
    let picking = mapped(extent);
    let bytes = pick_bytes(extent);
    assert_eq!(
        picking.get_entity(extent, at(40, 3), &bytes),
        Err(PickError::OutOfBounds)
    );
    assert_eq!(
        picking.get_entity(extent, at(3, 30), &bytes),
        Err(PickError::OutOfBounds)
    );
    assert_eq!(
        picking.get_entity(extent, at(3, 0), &bytes),
        Err(PickError::OutOfBounds)
    );
    assert_eq!(
        picking.get_entity(extent, at(3, 4), &bytes[..100]),
        Err(PickError::OutOfBounds)
    );
}

#[test]
fn entity_is_none_until_the_buffer_is_mapped() {
    let extent = size(40, 30);
    let bytes = pick_bytes(extent);
    let mut picking = Picking::new();
    assert_eq!(picking.get_entity(extent, at(3, 4), &bytes), Ok(None));
    picking.ensure(Some(extent));
    assert_eq!(picking.get_entity(extent, at(3, 4), &bytes), Ok(None));
    picking.request_map(Some(extent));
    assert_eq!(picking.get_entity(extent, at(3, 4), &bytes), Ok(None));
    // Not ready comes before the check of the pixel.
    assert_eq!(picking.get_entity(extent, at(400, 4), &bytes), Ok(None));
    picking.map_finished(BufferKind::Depth, Ok(())).unwrap();
    assert_eq!(picking.get_entity(extent, at(3, 4), &bytes), Ok(None));
    picking.map_finished(BufferKind::Pick, Ok(())).unwrap();
    assert_eq!(
        picking.get_entity(extent, at(3, 4), &bytes),
        Ok(Some(ObjectId(26003)))
    );
    picking.unmap(Some(extent));
    assert_eq!(picking.get_entity(extent, at(3, 4), &bytes), Ok(None));
}

#[test]
fn depth_is_read_from_the_flipped_row() {
    let extent = size(40, 30);
    let picking = mapped(extent);
    let bytes = depth_bytes(extent);
    assert_eq!(picking.depth(extent, at(0, 29), &bytes), Ok(1000));
    assert_eq!(picking.depth(extent, at(39, 1), &bytes), Ok(29039));
    assert_eq!(picking.depth(extent, at(17, 10), &bytes), Ok(20017));
}

#[test]
fn depth_is_not_ready_until_the_buffer_is_mapped() {
    let extent = size(40, 30);
    let bytes = depth_bytes(extent);
    let mut picking = Picking::new();
    assert_eq!(picking.depth(extent, at(3, 4), &bytes), Err(PickError::NotReady));
    picking.ensure(Some(extent));
    assert_eq!(picking.depth(extent, at(3, 4), &bytes), Err(PickError::NotReady));
    picking.request_map(Some(extent));
    assert_eq!(picking.depth(extent, at(3, 4), &bytes), Err(PickError::NotReady));
    assert_eq!(
        picking.depth(extent, at(400, 4), &bytes),
        Err(PickError::NotReady)
    );
    picking.map_finished(BufferKind::Pick, Ok(())).unwrap();
    assert_eq!(picking.depth(extent, at(3, 4), &bytes), Err(PickError::NotReady));
    picking.map_finished(BufferKind::Depth, Ok(())).unwrap();
    assert_eq!(picking.depth(extent, at(3, 4), &bytes), Ok(26003));
}

#[test]
fn depth_outside_the_viewport_is_an_error() {
    let extent = size(40, 30);
    let picking = mapped(extent);
    let bytes = depth_bytes(extent);
    assert_eq!(
        picking.depth(extent, at(40, 3), &bytes),
        Err(PickError::OutOfBounds)
    );
    assert_eq!(
        picking.depth(extent, at(3, 30), &bytes),
        Err(PickError::OutOfBounds)
    );
    assert_eq!(
        picking.depth(extent, at(3, 0), &bytes),
        Err(PickError::OutOfBounds)
    );
}

#[test]
fn same_query_twice_gives_the_same_answer() {
    let extent = size(40, 30);
    let picking = mapped(extent);
    let bytes = pick_bytes(extent);
    let depths = depth_bytes(extent);
    for pixel in [at(0, 29), at(5, 5), at(39, 1), at(40, 1), at(5, 0)] {
        let first = picking.get_entity(extent, pixel, &bytes);
        let second = picking.get_entity(extent, pixel, &bytes);
        assert_eq!(first, second);
        assert_eq!(
            picking.depth(extent, pixel, &depths),
            picking.depth(extent, pixel, &depths)
        );
    }
}

#[test]
fn device_fault_is_reported_by_every_query() {
    let extent = size(40, 30);
    let bytes = pick_bytes(extent);
    let mut picking = Picking::new();
    picking.ensure(Some(extent));
    picking.request_map(Some(extent));
    assert_eq!(
        picking.map_finished(BufferKind::Pick, Err(DeviceFault::MapFailed)),
        Err(PickError::Device(DeviceFault::MapFailed))
    );
    assert_eq!(
        picking.get_entity(extent, at(3, 4), &bytes),
        Err(PickError::Device(DeviceFault::MapFailed))
    );
    assert_eq!(
        picking.depth(extent, at(3, 4), &bytes),
        Err(PickError::Device(DeviceFault::MapFailed))
    );
    // The fault first recorded stays.
    assert_eq!(
        picking.allocation_failed(),
        PickError::Device(DeviceFault::OutOfMemory)
    );
    assert_eq!(
        picking.get_entity(extent, at(3, 4), &bytes),
        Err(PickError::Device(DeviceFault::MapFailed))
    );
}

#[test]
fn allocation_failure_is_reported_by_every_query() {
    let extent = size(40, 30);
    let mut picking = Picking::new();
    picking.ensure(Some(extent));
    assert_eq!(
        picking.allocation_failed(),
        PickError::Device(DeviceFault::OutOfMemory)
    );
    assert_eq!(
        picking.get_entity(extent, at(3, 4), &[]),
        Err(PickError::Device(DeviceFault::OutOfMemory))
    );
    assert_eq!(picking.ensure(Some(extent)), Prepared::Faulted);
}

#[test]
fn resized_camera_is_not_read_until_mapped_again() {
    let old = size(40, 30);
    let new = size(80, 60);
    let mut picking = mapped(old);
    let stale = pick_bytes(old);
    assert!(picking.get_entity(old, at(3, 4), &stale).unwrap().is_some());
    picking.unmap(Some(old));
    let layout = PickingBufferSize::new(80, 60).unwrap();
    assert_eq!(
        picking.ensure(Some(new)),
        Prepared::Allocated {
            bytes: layout.total_needed_bytes()
        }
    );
    let resources = picking.resources.unwrap();
    assert!(resources.size.same_as(&layout));
    assert_eq!(resources.pick_buffer.size, 60 * 768);
    assert_eq!(resources.depth_buffer.size, 60 * 768);
    assert_eq!(picking.get_entity(new, at(3, 4), &stale), Ok(None));
    assert_eq!(picking.get_entity(old, at(3, 4), &stale), Ok(None));
    assert_eq!(picking.depth(new, at(3, 4), &stale), Err(PickError::NotReady));
    picking.request_map(Some(new));
    picking.map_finished(BufferKind::Pick, Ok(())).unwrap();
    // The stale buffer is too short for the rows of the new layout.
    assert_eq!(
        picking.get_entity(new, at(3, 4), &stale),
        Err(PickError::OutOfBounds)
    );
    let fresh = pick_bytes(new);
    assert_eq!(
        picking.get_entity(new, at(3, 4), &fresh),
        Ok(Some(ObjectId(56003)))
    );
}
