use gpu_picking::{
    copy_to_buffer, map_buffers, prepare_picking_targets, unmap_buffers, BufferCopy, BufferKind,
    ColorAttachment, ColorPickerPlugin, CopyCommands, DeviceFault, HueWheel, MapState, PickError,
    Picking, PickingCamera, PickingTextures, Prepared, SaturationValueBox, TextureRequest,
    TextureSize, Unmapping,
};

fn size(x: u32, y: u32) -> Option<TextureSize> {
    Some(TextureSize { x, y })
}

fn camera(target: u64, physical_target_size: Option<TextureSize>) -> PickingCamera {
    PickingCamera {
        target,
        physical_target_size,
        picking: Picking::new(),
    }
}

fn states(picking: &Picking) -> (MapState, MapState) {
    let resources = picking.resources.expect("prepared");
    (resources.pick_buffer.state, resources.depth_buffer.state)
}

#[test]
fn new_camera_has_nothing() {
    let picking = Picking::new();
    assert!(picking.resources.is_none());
    assert!(picking.fault.is_none());
    let picking = Picking::default();
    assert!(picking.resources.is_none());
    assert!(picking.fault.is_none());
}

#[test]
fn first_preparation_allocates() {
    let mut picking = Picking::new();
    assert_eq!(
        picking.ensure(size(301, 200)),
        Prepared::Allocated { bytes: 512000 }
    );
    let resources = picking.resources.unwrap();
    assert_eq!(resources.pick_buffer.size, 512000);
    assert_eq!(resources.depth_buffer.size, 512000);
    assert_eq!(resources.size.padded_bytes_per_row(), 2560);
    assert_eq!(
        states(&picking),
        (MapState::Unmapped, MapState::Unmapped)
    );
}

#[test]
fn preparation_at_the_same_size_keeps_the_resources() {
    let mut picking = Picking::new();
    picking.ensure(size(301, 200));
    assert_eq!(picking.ensure(size(301, 200)), Prepared::Kept);
    assert_eq!(picking.resources.unwrap().pick_buffer.size, 512000);
    picking.request_map(size(301, 200));
    assert_eq!(picking.ensure(size(301, 200)), Prepared::Kept);
    assert_eq!(
        states(&picking),
        (MapState::MapRequested, MapState::MapRequested)
    );
}

#[test]
fn preparation_without_a_size_is_skipped() {
    let mut picking = Picking::new();
    assert_eq!(picking.ensure(None), Prepared::Skipped);
    assert_eq!(picking.ensure(size(0, 200)), Prepared::Skipped);
    assert_eq!(picking.ensure(size(301, 0)), Prepared::Skipped);
    assert!(picking.resources.is_none());
    picking.ensure(size(301, 200));
    assert_eq!(picking.ensure(size(0, 0)), Prepared::Skipped);
    assert_eq!(picking.resources.unwrap().pick_buffer.size, 512000);
}

#[test]
fn preparation_of_a_camera_too_wide_is_refused() {
    let mut picking = Picking::new();
    assert_eq!(picking.ensure(size(536870881, 1)), Prepared::TooWide);
    assert!(picking.resources.is_none());
    assert_eq!(
        picking.ensure(size(536870880, 1)),
        Prepared::Allocated { bytes: 4294967040 }
    );
}

#[test]
fn resize_between_frames_allocates_anew() {
    let mut picking = Picking::new();
    picking.ensure(size(301, 200));
    assert_eq!(
        picking.ensure(size(302, 200)),
        Prepared::Allocated { bytes: 512000 }
    );
    assert_eq!(
        picking.resources.unwrap().size.texture_size(),
        TextureSize { x: 302, y: 200 }
    );
    assert_eq!(
        picking.ensure(size(640, 480)),
        Prepared::Allocated {
            bytes: 480 * 5120
        }
    );
    assert_eq!(picking.resources.unwrap().depth_buffer.size, 480 * 5120);
}

#[test]
fn resize_in_flight_is_deferred_until_unmapped() {
    let mut picking = Picking::new();
    picking.ensure(size(301, 200));
    assert!(picking.request_map(size(301, 200)));
    assert_eq!(picking.ensure(size(640, 480)), Prepared::Deferred);
    assert_eq!(picking.resources.unwrap().pick_buffer.size, 512000);
    picking.map_finished(BufferKind::Pick, Ok(())).unwrap();
    picking.map_finished(BufferKind::Depth, Ok(())).unwrap();
    assert_eq!(picking.ensure(size(640, 480)), Prepared::Deferred);
    assert_eq!(states(&picking), (MapState::Mapped, MapState::Mapped));
    assert_eq!(
        picking.unmap(size(640, 480)),
        Unmapping {
            pick: true,
            depth: true
        }
    );
    assert_eq!(
        picking.ensure(size(640, 480)),
        Prepared::Allocated {
            bytes: 480 * 5120
        }
    );
}

#[test]
fn buffer_goes_from_unmapped_to_requested_to_mapped_and_back() {
    let mut picking = Picking::new();
    let extent = size(16, 16);
    assert!(!picking.request_map(extent));
    picking.ensure(extent);
    assert!(!picking.request_map(None));
    assert!(!picking.request_map(size(0, 16)));
    assert!(picking.request_map(extent));
    assert_eq!(
        states(&picking),
        (MapState::MapRequested, MapState::MapRequested)
    );
    // A second request while one is pending is not made.
    assert!(!picking.request_map(extent));
    assert_eq!(picking.map_finished(BufferKind::Pick, Ok(())), Ok(()));
    assert_eq!(states(&picking), (MapState::Mapped, MapState::MapRequested));
    assert_eq!(picking.map_finished(BufferKind::Depth, Ok(())), Ok(()));
    assert_eq!(states(&picking), (MapState::Mapped, MapState::Mapped));
    assert!(!picking.request_map(extent));
    assert_eq!(
        picking.unmap(None),
        Unmapping {
            pick: false,
            depth: false
        }
    );
    assert_eq!(states(&picking), (MapState::Mapped, MapState::Mapped));
    assert_eq!(
        picking.unmap(extent),
        Unmapping {
            pick: true,
            depth: true
        }
    );
    assert_eq!(states(&picking), (MapState::Unmapped, MapState::Unmapped));
    assert_eq!(
        picking.unmap(extent),
        Unmapping {
            pick: false,
            depth: false
        }
    );
    assert!(picking.request_map(extent));
}

#[test]
fn completion_that_was_not_asked_for_changes_nothing() {
    let mut picking = Picking::new();
    assert_eq!(picking.map_finished(BufferKind::Pick, Ok(())), Ok(()));
    assert!(picking.resources.is_none());
    picking.ensure(size(16, 16));
    assert_eq!(picking.map_finished(BufferKind::Depth, Ok(())), Ok(()));
    assert_eq!(states(&picking), (MapState::Unmapped, MapState::Unmapped));
}

#[test]
fn map_failure_is_fatal() {
    let mut picking = Picking::new();
    let extent = size(16, 16);
    picking.ensure(extent);
    picking.request_map(extent);
    assert_eq!(
        picking.map_finished(BufferKind::Depth, Err(DeviceFault::MapFailed)),
        Err(PickError::Device(DeviceFault::MapFailed))
    );
    assert_eq!(picking.fault, Some(DeviceFault::MapFailed));
    assert_eq!(picking.ensure(extent), Prepared::Faulted);
    assert_eq!(picking.ensure(None), Prepared::Faulted);
    assert!(!picking.request_map(extent));
    let textures = PickingTextures {
        main: 1,
        sampled: None,
    };
    assert_eq!(copy_to_buffer(&picking, size(301, 200), &textures, true), None);
    // The buffers can still be unmapped.
    assert_eq!(
        picking.unmap(extent),
        Unmapping {
            pick: true,
            depth: true
        }
    );
}

#[test]
fn copies_use_the_padded_row() {
    let mut picking = Picking::new();
    picking.ensure(size(301, 200));
    let textures = PickingTextures {
        main: 7,
        sampled: Some(8),
    };
    let copy = BufferCopy {
        bytes_per_row: 2560,
        width: 301,
        height: 200,
    };
    assert_eq!(
        copy_to_buffer(&picking, size(301, 200), &textures, true),
        Some(CopyCommands {
            source: 7,
            pick: copy,
            depth: Some(copy)
        })
    );
    assert_eq!(
        copy_to_buffer(&picking, size(301, 200), &textures, false),
        Some(CopyCommands {
            source: 7,
            pick: copy,
            depth: None
        })
    );
}

#[test]
fn copies_wait_for_unmapped_buffers() {
    let mut picking = Picking::new();
    let textures = PickingTextures {
        main: 7,
        sampled: None,
    };
    assert_eq!(copy_to_buffer(&picking, size(301, 200), &textures, true), None);
    picking.ensure(size(301, 200));
    assert!(copy_to_buffer(&picking, size(301, 200), &textures, true).is_some());
    picking.request_map(size(301, 200));
    assert_eq!(copy_to_buffer(&picking, size(301, 200), &textures, true), None);
    picking.map_finished(BufferKind::Pick, Ok(())).unwrap();
    picking.map_finished(BufferKind::Depth, Ok(())).unwrap();
    assert_eq!(copy_to_buffer(&picking, size(301, 200), &textures, true), None);
    picking.unmap(size(301, 200));
    assert!(copy_to_buffer(&picking, size(301, 200), &textures, true).is_some());
    // A camera without an area gets no copy.
    assert_eq!(copy_to_buffer(&picking, None, &textures, true), None);
    assert_eq!(copy_to_buffer(&picking, size(0, 200), &textures, true), None);
    assert_eq!(copy_to_buffer(&picking, size(301, 0), &textures, true), None);
}

#[test]
fn attachment_resolves_the_multisampled_texture() {
    let textures = PickingTextures {
        main: 3,
        sampled: Some(4),
    };
    assert_eq!(
        textures.get_color_attachment(),
        ColorAttachment {
            view: 4,
            resolve_target: Some(3)
        }
    );
    assert_eq!(
        textures.get_unsampled_color_attachment(),
        ColorAttachment {
            view: 3,
            resolve_target: None
        }
    );
    let textures = PickingTextures {
        main: 3,
        sampled: None,
    };
    assert_eq!(
        textures.get_color_attachment(),
        ColorAttachment {
            view: 3,
            resolve_target: None
        }
    );
}

#[test]
fn cameras_of_one_target_share_its_textures() {
    let mut cameras = vec![
        camera(10, size(64, 64)),
        camera(20, size(32, 32)),
        camera(10, size(64, 64)),
        camera(30, None),
        camera(20, size(32, 32)),
        camera(40, size(0, 5)),
        camera(50, size(8, 8)),
    ];
    let plan = prepare_picking_targets(&mut cameras, 4);
    assert_eq!(
        plan.buffers,
        vec![
            Prepared::Allocated { bytes: 64 * 512 },
            Prepared::Allocated { bytes: 32 * 256 },
            Prepared::Allocated { bytes: 64 * 512 },
            Prepared::Skipped,
            Prepared::Allocated { bytes: 32 * 256 },
            Prepared::Skipped,
            Prepared::Allocated { bytes: 8 * 256 },
        ]
    );
    assert_eq!(
        plan.slots,
        vec![Some(0), Some(1), Some(0), None, Some(1), None, Some(2)]
    );
    assert_eq!(
        plan.textures,
        vec![
            TextureRequest {
                target: 10,
                size: TextureSize { x: 64, y: 64 },
                samples: Some(4)
            },
            TextureRequest {
                target: 20,
                size: TextureSize { x: 32, y: 32 },
                samples: Some(4)
            },
            TextureRequest {
                target: 50,
                size: TextureSize { x: 8, y: 8 },
                samples: Some(4)
            },
        ]
    );
    assert!(cameras[0].picking.resources.is_some());
    assert!(cameras[3].picking.resources.is_none());
    assert!(cameras[5].picking.resources.is_none());
    assert_eq!(cameras[6].picking.resources.unwrap().pick_buffer.size, 2048);
}

#[test]
fn scene_without_multisampling_asks_for_no_sampled_texture() {
    for samples in [0, 1] {
        let mut cameras = vec![camera(10, size(64, 64))];
        let plan = prepare_picking_targets(&mut cameras, samples);
        assert_eq!(
            plan.textures,
            vec![TextureRequest {
                target: 10,
                size: TextureSize { x: 64, y: 64 },
                samples: None
            }]
        );
    }
    let mut cameras = vec![camera(10, size(64, 64))];
    let plan = prepare_picking_targets(&mut cameras, 2);
    assert_eq!(plan.textures[0].samples, Some(2));
}

#[test]
fn second_frame_keeps_buffers_and_asks_for_textures_again() {
    let mut cameras = vec![camera(10, size(64, 64)), camera(10, size(64, 64))];
    prepare_picking_targets(&mut cameras, 1);
    let plan = prepare_picking_targets(&mut cameras, 1);
    assert_eq!(plan.buffers, vec![Prepared::Kept, Prepared::Kept]);
    assert_eq!(plan.slots, vec![Some(0), Some(0)]);
    assert_eq!(plan.textures.len(), 1);
}

#[test]
fn faulted_camera_gets_no_textures() {
    let mut cameras = vec![camera(10, size(64, 64)), camera(11, size(64, 64))];
    cameras[0].picking.allocation_failed();
    let plan = prepare_picking_targets(&mut cameras, 1);
    assert_eq!(
        plan.buffers,
        vec![Prepared::Faulted, Prepared::Allocated { bytes: 64 * 512 }]
    );
    assert_eq!(plan.slots, vec![None, Some(0)]);
    assert_eq!(plan.textures.len(), 1);
    assert_eq!(plan.textures[0].target, 11);
}

#[test]
fn no_cameras_no_plan() {
    let mut cameras: Vec<PickingCamera> = Vec::new();
    let plan = prepare_picking_targets(&mut cameras, 4);
    assert!(plan.buffers.is_empty());
    assert!(plan.slots.is_empty());
    assert!(plan.textures.is_empty());
    assert!(map_buffers(&mut cameras).is_empty());
    assert!(unmap_buffers(&mut cameras).is_empty());
}

#[test]
fn frame_maps_and_unmaps_the_cameras_with_buffers() {
    let mut cameras = vec![
        camera(10, size(64, 64)),
        camera(20, None),
        camera(30, size(0, 0)),
        camera(40, size(16, 16)),
    ];
    // Nothing is prepared yet.
    assert_eq!(map_buffers(&mut cameras), vec![false, false, false, false]);
    prepare_picking_targets(&mut cameras, 1);
    assert_eq!(map_buffers(&mut cameras), vec![true, false, false, true]);
    assert_eq!(
        states(&cameras[0].picking),
        (MapState::MapRequested, MapState::MapRequested)
    );
    assert_eq!(map_buffers(&mut cameras), vec![false, false, false, false]);
    cameras[0]
        .picking
        .map_finished(BufferKind::Pick, Ok(()))
        .unwrap();
    let none = Unmapping {
        pick: false,
        depth: false,
    };
    let both = Unmapping {
        pick: true,
        depth: true,
    };
    assert_eq!(unmap_buffers(&mut cameras), vec![both, none, none, both]);
    assert_eq!(
        states(&cameras[0].picking),
        (MapState::Unmapped, MapState::Unmapped)
    );
    assert_eq!(unmap_buffers(&mut cameras), vec![none, none, none, none]);
    assert_eq!(map_buffers(&mut cameras), vec![true, false, false, true]);
}

#[test]
fn markers_can_be_made() {
    let _plugin = ColorPickerPlugin::default();
    let _wheel = HueWheel::default();
    let _area = SaturationValueBox::default();
    let wheel = HueWheel;
    let _copy = wheel;
    let _again = wheel;
}
