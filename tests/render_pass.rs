use std::cell::Cell;
use std::sync::Arc;

use vulkano::device::Device;
use vulkano::error::{Error, OomError};
use vulkano::layout::{Layout, LoadOp, StoreOp};
use vulkano::description::{
    check_color_limit, check_description, LayoutAttachmentDescription, LayoutPassDependencyDescription, LayoutPassDescription,
};
use vulkano::descriptors::{
    AttachmentReference, RenderPassDescriptors, ACCESS_ALL, DEPENDENCY_BY_REGION,
    PIPELINE_STAGE_ALL_GRAPHICS,
};
use vulkano::render_pass::{RenderPassCreationError, UnsafeRenderPass};

fn device(max_color_attachments: u32) -> Device {
    Device { handle: 7, max_color_attachments, memory_types: Vec::new() }
}

fn attachment(format: u32, samples: u32) -> LayoutAttachmentDescription {
    LayoutAttachmentDescription {
        format,
        samples,
        load: LoadOp::Clear,
        store: StoreOp::Store,
        initial_layout: Layout::Undefined,
        final_layout: Layout::ColorAttachmentOptimal,
    }
}

fn pass(colors: Vec<(usize, Layout)>) -> LayoutPassDescription {
    LayoutPassDescription {
        color_attachments: colors,
        depth_stencil: None,
        input_attachments: Vec::new(),
        resolve_attachments: Vec::new(),
        preserve_attachments: Vec::new(),
    }
}

const COLOR: Layout = Layout::ColorAttachmentOptimal;

#[test]
fn single_color_attachment_pass() {
    let dev = Arc::new(device(8));
    let created = Cell::new(0);
    let r = UnsafeRenderPass::new(
        &dev,
        &vec![attachment(37, 1)],
        &vec![pass(vec![(0, COLOR)])],
        &vec![],
        |d: &RenderPassDescriptors| {
            created.set(created.get() + 1);
            assert_eq!(d.attachments.len(), 1);
            Ok(99)
        },
    );
    let rp = r.unwrap();
    assert_eq!(created.get(), 1);
    assert_eq!(rp.internal_object(), 99);
    assert_eq!(rp.num_subpasses(), 1);
    let s = rp.subpass(0).unwrap();
    assert_eq!(s.color_count, 1);
    assert_eq!(s.input_count, 0);
    assert_eq!(s.resolve_count, 0);
    assert_eq!(s.depth_stencil, None);
    let d = rp.descriptors();
    assert_eq!(d.references()[s.color_offset], AttachmentReference { attachment: 0, layout: 2 });
    assert!(rp.subpass(1).is_none());
    assert_eq!(rp.device().max_color_attachments, 8);
    let a = d.attachments[0];
    assert_eq!((a.format, a.samples, a.load_op, a.store_op), (37, 1, 1, 0));
    assert_eq!((a.stencil_load_op, a.stencil_store_op), (1, 0));
    assert_eq!((a.initial_layout, a.final_layout, a.flags), (0, 2, 0));
    assert!(d.dependencies.is_empty());
    assert!(d.preserve.is_empty());
}

#[test]
fn resolve_target_with_mismatched_format_is_rejected() {
    let dev = Arc::new(device(8));
    let created = Cell::new(false);
    let mut p = pass(vec![(0, COLOR)]);
    p.resolve_attachments = vec![(1, COLOR)];
    let r = UnsafeRenderPass::new(
        &dev,
        &vec![attachment(37, 4), attachment(44, 1)],
        &vec![p],
        &vec![],
        |_: &RenderPassDescriptors| {
            created.set(true);
            Ok(1)
        },
    );
    assert_eq!(r.err(), Some(RenderPassCreationError::InvalidDescription));
    assert!(!created.get());
}

#[test]
fn resolve_target_with_matching_format_is_accepted() {
    let mut p = pass(vec![(0, COLOR)]);
    p.resolve_attachments = vec![(1, COLOR)];
    let d = RenderPassDescriptors::compile(
        &device(8),
        &vec![attachment(37, 4), attachment(37, 1)],
        &vec![p],
        &vec![],
    )
    .unwrap();
    assert_eq!(d.subpasses[0].resolve_offset, 1);
    assert_eq!(d.subpasses[0].resolve_count, 1);
    assert_eq!(d.references()[1].attachment, 1);
}

#[test]
fn resolve_list_length_must_match_color_list() {
    let mut p = pass(vec![(0, COLOR), (1, COLOR)]);
    p.resolve_attachments = vec![(2, COLOR)];
    let r = RenderPassDescriptors::compile(
        &device(8),
        &vec![attachment(37, 4), attachment(37, 4), attachment(37, 1)],
        &vec![p],
        &vec![],
    );
    assert_eq!(r.err(), Some(RenderPassCreationError::InvalidDescription));
}

#[test]
fn resolve_target_must_be_single_sampled() {
    let mut p = pass(vec![(0, COLOR)]);
    p.resolve_attachments = vec![(1, COLOR)];
    let r = RenderPassDescriptors::compile(
        &device(8),
        &vec![attachment(37, 4), attachment(37, 2)],
        &vec![p],
        &vec![],
    );
    assert_eq!(r.err(), Some(RenderPassCreationError::InvalidDescription));
}

#[test]
fn resolved_color_must_be_multisampled() {
    let mut p = pass(vec![(0, COLOR)]);
    p.resolve_attachments = vec![(1, COLOR)];
    let r = RenderPassDescriptors::compile(
        &device(8),
        &vec![attachment(37, 1), attachment(37, 1)],
        &vec![p],
        &vec![],
    );
    assert_eq!(r.err(), Some(RenderPassCreationError::InvalidDescription));
}

#[test]
fn sample_count_must_be_a_power_of_two() {
    for samples in [0u32, 3, 5, 6, 12] {
        let r = RenderPassDescriptors::compile(
            &device(8),
            &vec![attachment(37, samples)],
            &vec![pass(vec![(0, COLOR)])],
            &vec![],
        );
        assert_eq!(r.err(), Some(RenderPassCreationError::InvalidDescription), "{}", samples);
    }
    for samples in [1u32, 2, 4, 8, 64, 1 << 31] {
        let r = RenderPassDescriptors::compile(
            &device(8),
            &vec![attachment(37, samples)],
            &vec![pass(vec![(0, COLOR)])],
            &vec![],
        );
        assert!(r.is_ok(), "{}", samples);
    }
}

#[test]
fn color_attachment_limit_is_enforced() {
    let dev = Arc::new(device(2));
    let created = Cell::new(false);
    let atts = vec![attachment(37, 1), attachment(37, 1), attachment(37, 1)];
    let r = UnsafeRenderPass::new(
        &dev,
        &atts,
        &vec![pass(vec![(0, COLOR)]), pass(vec![(0, COLOR), (1, COLOR), (2, COLOR)])],
        &vec![],
        |_: &RenderPassDescriptors| {
            created.set(true);
            Ok(1)
        },
    );
    assert_eq!(r.err(), Some(RenderPassCreationError::ColorAttachmentsLimitExceeded));
    assert!(!created.get());
    let r = RenderPassDescriptors::compile(
        &device(3),
        &atts,
        &vec![pass(vec![(0, COLOR), (1, COLOR), (2, COLOR)])],
        &vec![],
    );
    assert!(r.is_ok());
}

#[test]
fn structural_errors_come_before_the_limit() {
    let r = RenderPassDescriptors::compile(
        &device(0),
        &vec![attachment(37, 3)],
        &vec![pass(vec![(0, COLOR)])],
        &vec![],
    );
    assert_eq!(r.err(), Some(RenderPassCreationError::InvalidDescription));
}

#[test]
fn preserved_attachment_cannot_be_used() {
    let mut p = pass(vec![(0, COLOR)]);
    p.preserve_attachments = vec![0];
    let r = RenderPassDescriptors::compile(&device(8), &vec![attachment(37, 1)], &vec![p], &vec![]);
    assert_eq!(r.err(), Some(RenderPassCreationError::InvalidDescription));
    let mut p = pass(vec![]);
    p.input_attachments = vec![(0, Layout::ShaderReadOnlyOptimal)];
    p.preserve_attachments = vec![0];
    let r = RenderPassDescriptors::compile(&device(8), &vec![attachment(37, 1)], &vec![p], &vec![]);
    assert_eq!(r.err(), Some(RenderPassCreationError::InvalidDescription));
}

#[test]
fn input_and_color_use_share_a_layout() {
    let mut p = pass(vec![(0, Layout::General)]);
    p.input_attachments = vec![(0, Layout::ShaderReadOnlyOptimal)];
    let r = RenderPassDescriptors::compile(&device(8), &vec![attachment(37, 1)], &vec![p], &vec![]);
    assert_eq!(r.err(), Some(RenderPassCreationError::InvalidDescription));
    let mut p = pass(vec![(0, Layout::General)]);
    p.input_attachments = vec![(0, Layout::General)];
    let r = RenderPassDescriptors::compile(&device(8), &vec![attachment(37, 1)], &vec![p], &vec![]);
    assert!(r.is_ok());
    let mut p = pass(vec![]);
    p.depth_stencil = Some((0, Layout::DepthStencilAttachmentOptimal));
    p.input_attachments = vec![(0, Layout::DepthStencilReadOnlyOptimal)];
    let r = RenderPassDescriptors::compile(&device(8), &vec![attachment(37, 1)], &vec![p], &vec![]);
    assert_eq!(r.err(), Some(RenderPassCreationError::InvalidDescription));
}

#[test]
fn indices_must_name_existing_items() {
    let r = RenderPassDescriptors::compile(
        &device(8),
        &vec![attachment(37, 1)],
        &vec![pass(vec![(1, COLOR)])],
        &vec![],
    );
    assert_eq!(r.err(), Some(RenderPassCreationError::InvalidDescription));
    let dep = LayoutPassDependencyDescription {
        source_subpass: 0,
        destination_subpass: 1,
        by_region: false,
    };
    let r = RenderPassDescriptors::compile(
        &device(8),
        &vec![attachment(37, 1)],
        &vec![pass(vec![(0, COLOR)])],
        &vec![dep],
    );
    assert_eq!(r.err(), Some(RenderPassCreationError::InvalidDescription));
}

#[test]
fn zero_attachments_and_dependencies_are_legal() {
    let d = RenderPassDescriptors::compile(&device(8), &vec![], &vec![pass(vec![])], &vec![])
        .unwrap();
    assert!(d.attachments.is_empty());
    assert!(d.references().is_empty());
    assert!(d.dependencies.is_empty());
    assert_eq!(d.subpasses.len(), 1);
}

#[test]
fn references_are_flattened_in_order_without_overlap() {
    let atts = vec![attachment(37, 1), attachment(37, 1), attachment(37, 1), attachment(50, 1)];
    let mut first = pass(vec![(0, COLOR), (1, COLOR)]);
    first.depth_stencil = Some((3, Layout::DepthStencilAttachmentOptimal));
    first.preserve_attachments = vec![2];
    let mut second = pass(vec![(2, COLOR)]);
    second.input_attachments = vec![(0, Layout::ShaderReadOnlyOptimal), (1, Layout::General)];
    second.preserve_attachments = vec![3];
    let deps = vec![LayoutPassDependencyDescription {
        source_subpass: 0,
        destination_subpass: 1,
        by_region: true,
    }];
    let d = RenderPassDescriptors::compile(&device(8), &atts, &vec![first, second], &deps).unwrap();
    assert_eq!(d.references().len(), (2 + 0 + 0 + 1) + (1 + 2 + 0 + 0));
    let s0 = d.subpasses[0];
    let s1 = d.subpasses[1];
    assert_eq!((s0.color_offset, s0.color_count), (0, 2));
    assert_eq!((s0.input_offset, s0.input_count), (2, 0));
    assert_eq!((s0.resolve_offset, s0.resolve_count), (2, 0));
    assert_eq!(s0.depth_stencil, Some(2));
    assert_eq!((s1.color_offset, s1.color_count), (3, 1));
    assert_eq!((s1.input_offset, s1.input_count), (4, 2));
    assert_eq!((s1.resolve_offset, s1.resolve_count), (6, 0));
    assert_eq!(s1.depth_stencil, None);
    let attached: Vec<u32> = d.references().iter().map(|r| r.attachment).collect();
    assert_eq!(attached, vec![0, 1, 3, 2, 0, 1]);
    let layouts: Vec<u32> = d.references().iter().map(|r| r.layout).collect();
    assert_eq!(layouts, vec![2, 2, 3, 2, 5, 1]);
    assert_eq!(d.preserve, vec![2, 3]);
    assert_eq!((s0.preserve_offset, s0.preserve_count), (0, 1));
    assert_eq!((s1.preserve_offset, s1.preserve_count), (1, 1));
    let dep = d.dependencies[0];
    assert_eq!((dep.src_subpass, dep.dst_subpass), (0, 1));
    assert_eq!(dep.src_stage_mask, PIPELINE_STAGE_ALL_GRAPHICS);
    assert_eq!(dep.dst_stage_mask, PIPELINE_STAGE_ALL_GRAPHICS);
    assert_eq!((dep.src_access_mask, dep.dst_access_mask), (ACCESS_ALL, ACCESS_ALL));
    assert_eq!(dep.dependency_flags, DEPENDENCY_BY_REGION);
}

#[test]
fn engine_out_of_memory_is_returned() {
    let dev = Arc::new(device(8));
    let r = UnsafeRenderPass::new(
        &dev,
        &vec![attachment(37, 1)],
        &vec![pass(vec![(0, COLOR)])],
        &vec![],
        |_: &RenderPassDescriptors| Err(OomError::OutOfDeviceMemory),
    );
    assert_eq!(r.err(), Some(RenderPassCreationError::OomError(OomError::OutOfDeviceMemory)));
}

#[test]
fn error_conversions_and_descriptions() {
    assert_eq!(
        RenderPassCreationError::from_error(Error::OutOfHostMemory),
        RenderPassCreationError::OomError(OomError::OutOfHostMemory)
    );
    assert_eq!(
        RenderPassCreationError::from_error(Error::OutOfDeviceMemory),
        RenderPassCreationError::OomError(OomError::OutOfDeviceMemory)
    );
    assert_eq!(
        RenderPassCreationError::from(OomError::OutOfHostMemory),
        RenderPassCreationError::OomError(OomError::OutOfHostMemory)
    );
    assert_eq!(
        RenderPassCreationError::ColorAttachmentsLimitExceeded.description(),
        "the maximum number of color attachments has been exceeded"
    );
    assert_eq!(
        RenderPassCreationError::OomError(OomError::OutOfHostMemory).description(),
        "not enough memory available"
    );
    assert_eq!(
        RenderPassCreationError::OomError(OomError::OutOfHostMemory).cause(),
        Some(OomError::OutOfHostMemory)
    );
    assert_eq!(RenderPassCreationError::ColorAttachmentsLimitExceeded.cause(), None);
    assert_eq!(OomError::OutOfDeviceMemory.description(), "no memory available on the graphical device");
}

#[test]
fn destroy_releases_the_handle_once() {
    let dev = Arc::new(device(8));
    let rp = UnsafeRenderPass::new(
        &dev,
        &vec![attachment(37, 1)],
        &vec![pass(vec![(0, COLOR)])],
        &vec![],
        |_: &RenderPassDescriptors| Ok(41),
    )
    .unwrap();
    let calls = Cell::new(Vec::new());
    rp.destroy(|device: u64, pass: u64| {
        let mut seen = calls.take();
        seen.push((device, pass));
        calls.set(seen);
    });
    assert_eq!(calls.take(), vec![(7, 41)]);
}

#[test]
fn description_checks_on_their_own() {
    let atts = vec![attachment(37, 1), attachment(37, 1)];
    let passes = vec![pass(vec![(0, COLOR), (1, COLOR)])];
    assert!(check_description(&atts, &passes, &vec![]));
    assert!(check_color_limit(&passes, 1));
    assert!(!check_color_limit(&passes, 2));
    assert!(!check_description(&vec![attachment(37, 0)], &passes, &vec![]));
}
