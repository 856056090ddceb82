use vstd::prelude::*;

use std::sync::Arc;

use crate::description::{
    LayoutAttachmentDescription, LayoutPassDependencyDescription, LayoutPassDescription,
    description_valid, exceeds_color_limit,
};
use crate::descriptors::{
    RenderPassDescriptors, SubpassRecord, compiled_from, references_fit,
    total_reference_count,
};
use crate::device::Device;
use crate::error::{Error, OomError, oom_of};

verus! {

/// Error that can happen when creating a render pass.
#[derive(Clone, Copy, Debug, PartialEq, Eq, Structural)]
pub enum RenderPassCreationError {
    /// Not enough memory.
    OomError(OomError),
    /// The maximum number of color attachments has been exceeded.
    ColorAttachmentsLimitExceeded,
    /// The attachments, subpasses and dependencies break one of the rules of a render pass.
    InvalidDescription,
}

impl RenderPassCreationError {
    /// Converts an out-of-memory engine error code.
    pub fn from_error(err: Error) -> (r: RenderPassCreationError)
        requires
            err.is_oom(),
        ensures
            r == RenderPassCreationError::OomError(oom_of(err)),
    {
        RenderPassCreationError::OomError(OomError::from_error(err))
    }

    /// A short human-readable description of the error.
    pub fn description(&self) -> (r: &'static str)
        ensures
            r@ == (match *self {
                RenderPassCreationError::OomError(_) => "not enough memory available"@,
                RenderPassCreationError::ColorAttachmentsLimitExceeded =>
                    "the maximum number of color attachments has been exceeded"@,
                RenderPassCreationError::InvalidDescription =>
                    "the render pass description is not well formed"@,
            }),
    {
        match self {
            RenderPassCreationError::OomError(_) => "not enough memory available",
            RenderPassCreationError::ColorAttachmentsLimitExceeded => {
                "the maximum number of color attachments has been exceeded"
            },
            RenderPassCreationError::InvalidDescription => {
                "the render pass description is not well formed"
            },
        }
    }

    /// The lower-level error that caused this one, if any.
    pub fn cause(&self) -> (r: Option<OomError>)
        ensures
            r == (match *self {
                RenderPassCreationError::OomError(e) => Some(e),
                _ => None,
            }),
    {
        match self {
            RenderPassCreationError::OomError(e) => Some(*e),
            _ => None,
        }
    }
}

impl From<OomError> for RenderPassCreationError {
    fn from(err: OomError) -> (r: RenderPassCreationError) {
        RenderPassCreationError::OomError(err)
    }
}

impl vstd::std_specs::convert::FromSpecImpl<OomError> for RenderPassCreationError {
    open spec fn obeys_from_spec() -> bool {
        true
    }

    open spec fn from_spec(v: OomError) -> RenderPassCreationError {
        RenderPassCreationError::OomError(v)
    }
}

/// A render pass: the engine handle, the device that owns it, and the layout of its subpasses.
pub struct UnsafeRenderPass {
    renderpass: u64,
    device: Arc<Device>,
    descriptors: RenderPassDescriptors,
}

impl UnsafeRenderPass {
    /// The engine handle of the render pass.
    pub closed spec fn handle(&self) -> u64 {
        self.renderpass
    }

    /// The device that the render pass was created on.
    pub closed spec fn spec_device(&self) -> Device {
        *self.device
    }

    /// The compiled arrays that describe the render pass.
    pub closed spec fn spec_descriptors(&self) -> RenderPassDescriptors {
        self.descriptors
    }

    /// Builds a new render pass.
    ///
    /// The description is validated and compiled first; `create` is called only when that
    /// succeeds, with the compiled arrays, and hands back the engine handle or the engine's
    /// out-of-memory error.
    pub fn new<F>(
        device: &Arc<Device>,
        attachments: &Vec<LayoutAttachmentDescription>,
        passes: &Vec<LayoutPassDescription>,
        dependencies: &Vec<LayoutPassDependencyDescription>,
        create: F,
    ) -> (r: Result<UnsafeRenderPass, RenderPassCreationError>) where
        F: FnOnce(&RenderPassDescriptors) -> Result<u64, OomError>,

        requires
            passes@.len() > 0,
            attachments@.len() <= u32::MAX,
            passes@.len() <= u32::MAX,
            references_fit(total_reference_count(passes@)),
            forall|d: &RenderPassDescriptors| create.requires((d,)),
        ensures
            !description_valid(attachments@, passes@, dependencies@) ==> r == Err::<
                UnsafeRenderPass,
                RenderPassCreationError,
            >(RenderPassCreationError::InvalidDescription),
            description_valid(attachments@, passes@, dependencies@) && exceeds_color_limit(
                passes@,
                device.max_color_attachments,
            ) ==> r == Err::<UnsafeRenderPass, RenderPassCreationError>(
                RenderPassCreationError::ColorAttachmentsLimitExceeded,
            ),
            r matches Ok(rp) ==> {
                &&& description_valid(attachments@, passes@, dependencies@)
                &&& !exceeds_color_limit(passes@, device.max_color_attachments)
                &&& compiled_from(rp.spec_descriptors(), attachments@, passes@, dependencies@)
                &&& rp.spec_device() == **device
                &&& create.ensures((&rp.spec_descriptors(),), Ok::<u64, OomError>(rp.handle()))
            },
            r matches Err(RenderPassCreationError::OomError(e)) ==> exists|d: RenderPassDescriptors|
                {
                    &&& compiled_from(d, attachments@, passes@, dependencies@)
                    &&& create.ensures((&d,), Err::<u64, OomError>(e))
                },
            description_valid(attachments@, passes@, dependencies@) && !exceeds_color_limit(
                passes@,
                device.max_color_attachments,
            ) ==> r is Ok || r matches Err(RenderPassCreationError::OomError(_)),
    {
        let descriptors = match RenderPassDescriptors::compile(
            device,
            attachments,
            passes,
            dependencies,
        ) {
            Ok(d) => d,
            Err(e) => {
                return Err(e);
            },
        };
        match create(&descriptors) {
            Ok(handle) => Ok(
                UnsafeRenderPass { renderpass: handle, device: device.clone(), descriptors },
            ),
            Err(e) => Err(RenderPassCreationError::OomError(e)),
        }
    }

    /// Returns the device that was used to create this render pass.
    pub fn device(&self) -> (r: &Arc<Device>)
        ensures
            **r == self.spec_device(),
    {
        &self.device
    }

    /// Releases the engine render pass: `destroy` is called once, with the handle of the device,
    /// which this render pass keeps alive until then, and the handle of the render pass.
    pub fn destroy<D>(self, destroy: D) where D: FnOnce(u64, u64)
        requires
            destroy.requires((self.spec_device().handle, self.handle())),
        ensures
            destroy.ensures((self.spec_device().handle, self.handle()), ()),
    {
        destroy(self.device.handle, self.renderpass)
    }

    /// Returns the engine handle of this render pass.
    pub fn internal_object(&self) -> (r: u64)
        ensures
            r == self.handle(),
    {
        self.renderpass
    }

    /// Returns the compiled arrays that describe this render pass.
    pub fn descriptors(&self) -> (r: &RenderPassDescriptors)
        ensures
            *r == self.spec_descriptors(),
    {
        &self.descriptors
    }

    /// Returns the number of subpasses.
    pub fn num_subpasses(&self) -> (r: usize)
        ensures
            r == self.spec_descriptors().subpasses@.len(),
    {
        self.descriptors.subpasses.len()
    }

    /// Returns where subpass `index`'s references stand, if there is such a subpass.
    pub fn subpass(&self, index: usize) -> (r: Option<SubpassRecord>)
        ensures
            r == (if index < self.spec_descriptors().subpasses@.len() {
                Some(self.spec_descriptors().subpasses@[index as int])
            } else {
                None
            }),
    {
        if index < self.descriptors.subpasses.len() {
            Some(self.descriptors.subpasses[index])
        } else {
            None
        }
    }
}

} // verus!
