use std::cell::Cell;
use std::sync::Arc;

use vulkano::device::{Device, MemoryType};
use vulkano::error::OomError;
use vulkano::image::{AccessRange, Dimensions, MemoryRequirements, Submission, Usage};
use vulkano::immutable::ImmutableImage;
use vulkano::layout::Layout;

fn device() -> Device {
    Device {
        handle: 1,
        max_color_attachments: 4,
        memory_types: vec![
            MemoryType { id: 0, device_local: false },
            MemoryType { id: 1, device_local: true },
            MemoryType { id: 2, device_local: false },
            MemoryType { id: 3, device_local: true },
        ],
    }
}

fn requirements(bits: u32) -> MemoryRequirements {
    MemoryRequirements { size: 4096, alignment: 256, memory_type_bits: bits }
}

fn image() -> Arc<ImmutableImage> {
    let dev = Arc::new(device());
    ImmutableImage::new(
        &dev,
        Dimensions::Dim2d { width: 16, height: 8 },
        37,
        |_: Usage, _: u32, _: Dimensions| Ok((10, requirements(0b1111))),
        |_: MemoryType, _: u64| Ok(20),
        |_: u64, _: u64, _: u64| Ok(()),
        |_: u64| Ok(30),
    )
    .unwrap()
}

fn access() -> AccessRange {
    AccessRange {
        block: (0, 0),
        write: false,
        initial_layout: Layout::ShaderReadOnlyOptimal,
        final_layout: Layout::ShaderReadOnlyOptimal,
    }
}

#[test]
fn memory_type_prefers_device_local() {
    let dev = device();
    assert_eq!(ImmutableImage::memory_type(&dev, &requirements(0b1111)).unwrap().id, 1);
    assert_eq!(ImmutableImage::memory_type(&dev, &requirements(0b1000)).unwrap().id, 3);
    assert_eq!(ImmutableImage::memory_type(&dev, &requirements(0b0101)).unwrap().id, 0);
    assert_eq!(ImmutableImage::memory_type(&dev, &requirements(0b0100)).unwrap().id, 2);
    assert!(ImmutableImage::memory_type(&dev, &requirements(0b10000)).is_none());
    assert!(ImmutableImage::memory_type(&dev, &requirements(0)).is_none());
}

#[test]
fn new_runs_the_engine_steps_in_order() {
    let dev = Arc::new(device());
    let usage_seen = Cell::new(None);
    let allocated = Cell::new(None);
    let bound = Cell::new(None);
    let img = ImmutableImage::new(
        &dev,
        Dimensions::Dim2d { width: 16, height: 8 },
        37,
        |u: Usage, f: u32, _: Dimensions| {
            usage_seen.set(Some((u, f)));
            Ok((10, requirements(0b0110)))
        },
        |t: MemoryType, size: u64| {
            allocated.set(Some((t.id, size)));
            Ok(20)
        },
        |i: u64, m: u64, size: u64| {
            bound.set(Some((i, m, size)));
            Ok(())
        },
        |i: u64| Ok(i + 20),
    )
    .unwrap();
    let (u, f) = usage_seen.get().unwrap();
    assert!(u.transfer_source && u.transfer_dest && u.sampled);
    assert!(!u.storage && !u.color_attachment && !u.input_attachment);
    assert_eq!(f, 37);
    assert_eq!(allocated.get(), Some((1, 4096)));
    assert_eq!(bound.get(), Some((10, 20, 4096)));
    assert_eq!(img.inner_image().handle, 10);
    assert_eq!(img.memory(), 20);
    assert_eq!(img.inner_view().handle, 30);
    assert_eq!(img.chosen_memory_type().id, 1);
    assert_eq!(img.format(), 37);
    assert_eq!(img.dimensions(), Dimensions::Dim2d { width: 16, height: 8 });
}

#[test]
fn new_stops_at_the_first_error() {
    let dev = Arc::new(device());
    let allocated = Cell::new(false);
    let r = ImmutableImage::new(
        &dev,
        Dimensions::Dim1d { width: 4 },
        37,
        |_: Usage, _: u32, _: Dimensions| Ok((10, requirements(0b10000))),
        |_: MemoryType, _: u64| {
            allocated.set(true);
            Ok(20)
        },
        |_: u64, _: u64, _: u64| Ok(()),
        |_: u64| Ok(30),
    );
    assert_eq!(r.err(), Some(OomError::OutOfDeviceMemory));
    assert!(!allocated.get());
    let r = ImmutableImage::new(
        &dev,
        Dimensions::Dim1d { width: 4 },
        37,
        |_: Usage, _: u32, _: Dimensions| Ok((10, requirements(1))),
        |_: MemoryType, _: u64| Err(OomError::OutOfHostMemory),
        |_: u64, _: u64, _: u64| Ok(()),
        |_: u64| Ok(30),
    );
    assert_eq!(r.err(), Some(OomError::OutOfHostMemory));
    let r = ImmutableImage::new(
        &dev,
        Dimensions::Dim1d { width: 4 },
        37,
        |_: Usage, _: u32, _: Dimensions| Err(OomError::OutOfDeviceMemory),
        |_: MemoryType, _: u64| Ok(20),
        |_: u64, _: u64, _: u64| Ok(()),
        |_: u64| Ok(30),
    );
    assert_eq!(r.err(), Some(OomError::OutOfDeviceMemory));
    let r = ImmutableImage::new(
        &dev,
        Dimensions::Dim1d { width: 4 },
        37,
        |_: Usage, _: u32, _: Dimensions| Ok((10, requirements(1))),
        |_: MemoryType, _: u64| Ok(20),
        |_: u64, _: u64, _: u64| Err(OomError::OutOfHostMemory),
        |_: u64| Ok(30),
    );
    assert_eq!(r.err(), Some(OomError::OutOfHostMemory));
    let r = ImmutableImage::new(
        &dev,
        Dimensions::Dim1d { width: 4 },
        37,
        |_: Usage, _: u32, _: Dimensions| Ok((10, requirements(1))),
        |_: MemoryType, _: u64| Ok(20),
        |_: u64, _: u64, _: u64| Ok(()),
        |_: u64| Err(OomError::OutOfDeviceMemory),
    );
    assert_eq!(r.err(), Some(OomError::OutOfDeviceMemory));
}

#[test]
fn layouts_of_the_read_only_image() {
    let img = image();
    assert_eq!(img.initial_layout((0, 0), Layout::TransferDstOptimal), (Layout::Undefined, false, false));
    for first in [
        Layout::Undefined,
        Layout::General,
        Layout::ShaderReadOnlyOptimal,
        Layout::TransferSrcOptimal,
        Layout::ColorAttachmentOptimal,
    ] {
        assert_eq!(img.initial_layout((0, 0), first), (Layout::ShaderReadOnlyOptimal, false, false));
    }
    for last in [Layout::TransferDstOptimal, Layout::General, Layout::Undefined] {
        assert_eq!(img.final_layout((0, 0), last), (Layout::ShaderReadOnlyOptimal, false, false));
    }
    assert_eq!(img.descriptor_set_storage_image_layout(access()), Layout::ShaderReadOnlyOptimal);
    assert_eq!(img.descriptor_set_combined_image_sampler_layout(access()), Layout::ShaderReadOnlyOptimal);
    assert_eq!(img.descriptor_set_sampled_image_layout(access()), Layout::ShaderReadOnlyOptimal);
    assert_eq!(img.descriptor_set_input_attachment_layout(access()), Layout::ShaderReadOnlyOptimal);
    assert!(img.identity_swizzle());
    assert!(img.matches_format());
}

#[test]
fn read_only_image_needs_no_synchronization() {
    let img = image();
    assert_eq!(img.needs_fence(&vec![]), Some(false));
    let mut write = access();
    write.write = true;
    assert_eq!(img.needs_fence(&vec![access(), write]), Some(false));
    let r = img.gpu_access(&vec![access(), write], &Arc::new(Submission { handle: 5 }));
    assert!(r.dependencies.is_empty());
    assert!(r.additional_wait_semaphore.is_none());
    assert!(r.additional_signal_semaphore.is_none());
    assert!(r.before_transitions.is_empty());
    assert!(r.after_transitions.is_empty());
}

#[test]
fn the_image_is_one_block() {
    let img = image();
    assert_eq!(img.blocks((0, 4), (0, 2)), vec![(0, 0)]);
    assert_eq!(img.block_mipmap_levels_range((0, 0)), (0, 1));
    assert_eq!(img.block_array_layers_range((0, 0)), (0, 1));
    let parent = ImmutableImage::parent_arc(&img);
    assert_eq!(parent.memory(), img.memory());
    assert_eq!(img.parent().format(), 37);
}
