use vstd::prelude::*;

use std::sync::Arc;

use crate::device::{Device, MemoryType};
use crate::error::OomError;
use crate::image::{
    AccessRange, Dimensions, GpuAccessResult, LayoutTransition, MemoryRequirements, Submission,
    UnsafeImage, UnsafeImageView, Usage,
};
use crate::layout::Layout;

verus! {

/// Memory type `id` is one of those that the mask `bits` allows.
pub open spec fn type_allowed(bits: u32, id: u32) -> bool {
    id < 32 && bits & (1u32 << id) != 0
}

/// The first memory type in `types` that `bits` allows and, when `local_only`, that is
/// device-local.
pub open spec fn first_allowed(types: Seq<MemoryType>, bits: u32, local_only: bool) -> Option<
    MemoryType,
>
    decreases types.len(),
{
    if types.len() == 0 {
        None
    } else if type_allowed(bits, types[0].id) && (!local_only || types[0].device_local) {
        Some(types[0])
    } else {
        first_allowed(types.drop_first(), bits, local_only)
    }
}

/// The memory type to allocate from: the first allowed device-local type, else the first
/// allowed type of any kind.
pub open spec fn chosen_memory_type(types: Seq<MemoryType>, bits: u32) -> Option<MemoryType> {
    match first_allowed(types, bits, true) {
        Some(t) => Some(t),
        None => first_allowed(types, bits, false),
    }
}

/// The usage an immutable image is created with: a transfer source and destination that
/// shaders sample.
pub open spec fn immutable_usage() -> Usage {
    Usage {
        transfer_source: true,
        transfer_dest: true,
        sampled: true,
        storage: false,
        color_attachment: false,
        depth_stencil_attachment: false,
        transient_attachment: false,
        input_attachment: false,
    }
}

fn find_memory_type(types: &Vec<MemoryType>, bits: u32, local_only: bool) -> (r: Option<
    MemoryType,
>)
    ensures
        r == first_allowed(types@, bits, local_only),
{
    let mut k: usize = 0;
    assert(types@.subrange(0, types@.len() as int) =~= types@);
    while k < types.len()
        invariant
            k <= types@.len(),
            first_allowed(types@, bits, local_only) == first_allowed(
                types@.subrange(k as int, types@.len() as int),
                bits,
                local_only,
            ),
        decreases types@.len() - k,
    {
        let t = types[k];
        let allowed = t.id < 32 && bits & (1u32 << t.id) != 0;
        proof {
            let rest = types@.subrange(k as int, types@.len() as int);
            assert(rest[0] == t);
            assert(rest.drop_first() =~= types@.subrange(k as int + 1, types@.len() as int));
        }
        if allowed && (!local_only || t.device_local) {
            return Some(t);
        }
        k = k + 1;
    }
    None
}

/// Image whose purpose is to be read only. It may be written once, by a transfer, and after
/// that only read from.
pub struct ImmutableImage {
    image: UnsafeImage,
    view: UnsafeImageView,
    memory: u64,
    memory_type: MemoryType,
    requirements: MemoryRequirements,
    format: u32,
}

impl ImmutableImage {
    pub closed spec fn spec_image(&self) -> UnsafeImage {
        self.image
    }

    pub closed spec fn spec_view(&self) -> UnsafeImageView {
        self.view
    }

    pub closed spec fn spec_memory(&self) -> u64 {
        self.memory
    }

    pub closed spec fn spec_memory_type(&self) -> MemoryType {
        self.memory_type
    }

    pub closed spec fn spec_requirements(&self) -> MemoryRequirements {
        self.requirements
    }

    pub closed spec fn spec_format(&self) -> u32 {
        self.format
    }

    /// Returns the usage flags that an immutable image is created with.
    pub fn usage() -> (r: Usage)
        ensures
            r == immutable_usage(),
    {
        Usage { transfer_source: true, transfer_dest: true, sampled: true, ..Usage::none() }
    }

    /// Picks the memory type to back an image with the given requirements: a device-local type
    /// that the requirements allow if there is one, else any type that they allow.
    pub fn memory_type(device: &Device, requirements: &MemoryRequirements) -> (r: Option<
        MemoryType,
    >)
        ensures
            r == chosen_memory_type(device.memory_types@, requirements.memory_type_bits),
    {
        match find_memory_type(&device.memory_types, requirements.memory_type_bits, true) {
            Some(t) => Some(t),
            None => find_memory_type(&device.memory_types, requirements.memory_type_bits, false),
        }
    }
}

impl ImmutableImage {
    /// Builds a new immutable image.
    ///
    /// The engine work is done by the closures, in this order: `create_image` creates the image
    /// and reports its memory requirements; `allocate` allocates memory of the chosen type and
    /// size; `bind` binds that memory to the image at offset zero; `create_view` creates a view
    /// of the image. The first error stops the sequence and is returned. When the device offers
    /// no memory type that the requirements allow, no memory is allocated and the result is
    /// `OutOfDeviceMemory`.
    pub fn new<C, A, B, V>(
        device: &Arc<Device>,
        dimensions: Dimensions,
        format: u32,
        create_image: C,
        allocate: A,
        bind: B,
        create_view: V,
    ) -> (r: Result<Arc<ImmutableImage>, OomError>) where
        C: FnOnce(Usage, u32, Dimensions) -> Result<(u64, MemoryRequirements), OomError>,
        A: FnOnce(MemoryType, u64) -> Result<u64, OomError>,
        B: FnOnce(u64, u64, u64) -> Result<(), OomError>,
        V: FnOnce(u64) -> Result<u64, OomError>,

        requires
            create_image.requires((immutable_usage(), format, dimensions)),
            forall|t: MemoryType, size: u64| allocate.requires((t, size)),
            forall|image: u64, memory: u64, size: u64| bind.requires((image, memory, size)),
            forall|image: u64| create_view.requires((image,)),
        ensures
            r matches Ok(img) ==> {
                &&& img.spec_image().dimensions == dimensions
                &&& img.spec_format() == format
                &&& create_image.ensures(
                    (immutable_usage(), format, dimensions),
                    Ok::<(u64, MemoryRequirements), OomError>(
                        (img.spec_image().handle, img.spec_requirements()),
                    ),
                )
                &&& chosen_memory_type(
                    device.memory_types@,
                    img.spec_requirements().memory_type_bits,
                ) == Some(img.spec_memory_type())
                &&& allocate.ensures(
                    (img.spec_memory_type(), img.spec_requirements().size),
                    Ok::<u64, OomError>(img.spec_memory()),
                )
                &&& bind.ensures(
                    (img.spec_image().handle, img.spec_memory(), img.spec_requirements().size),
                    Ok::<(), OomError>(()),
                )
                &&& create_view.ensures(
                    (img.spec_image().handle,),
                    Ok::<u64, OomError>(img.spec_view().handle),
                )
            },
            r matches Err(e) ==> {
                ||| create_image.ensures(
                    (immutable_usage(), format, dimensions),
                    Err::<(u64, MemoryRequirements), OomError>(e),
                )
                ||| exists|image: u64, req: MemoryRequirements|
                    {
                        &&& create_image.ensures(
                            (immutable_usage(), format, dimensions),
                            Ok::<(u64, MemoryRequirements), OomError>((image, req)),
                        )
                        &&& {
                            ||| (chosen_memory_type(device.memory_types@, req.memory_type_bits)
                                is None && e == OomError::OutOfDeviceMemory)
                            ||| exists|t: MemoryType|
                                {
                                    &&& chosen_memory_type(
                                        device.memory_types@,
                                        req.memory_type_bits,
                                    ) == Some(t)
                                    &&& {
                                        ||| allocate.ensures(
                                            (t, req.size),
                                            Err::<u64, OomError>(e),
                                        )
                                        ||| exists|memory: u64|
                                            {
                                                &&& allocate.ensures(
                                                    (t, req.size),
                                                    Ok::<u64, OomError>(memory),
                                                )
                                                &&& {
                                                    ||| bind.ensures(
                                                        (image, memory, req.size),
                                                        Err::<(), OomError>(e),
                                                    )
                                                    ||| (bind.ensures(
                                                        (image, memory, req.size),
                                                        Ok::<(), OomError>(()),
                                                    ) && create_view.ensures(
                                                        (image,),
                                                        Err::<u64, OomError>(e),
                                                    ))
                                                }
                                            }
                                    }
                                }
                        }
                    }
            },
    {
        let usage = ImmutableImage::usage();
        let (image, requirements) = match create_image(usage, format, dimensions) {
            Ok(created) => created,
            Err(e) => {
                return Err(e);
            },
        };
        let memory_type = match ImmutableImage::memory_type(device, &requirements) {
            Some(t) => t,
            None => {
                return Err(OomError::OutOfDeviceMemory);
            },
        };
        let memory = match allocate(memory_type, requirements.size) {
            Ok(m) => m,
            Err(e) => {
                return Err(e);
            },
        };
        let bound = bind(image, memory, requirements.size);
        match bound {
            Ok(u) => {
                assert(bound == Ok::<(), OomError>(()));
            },
            Err(e) => {
                return Err(e);
            },
        }
        let view = match create_view(image) {
            Ok(v) => v,
            Err(e) => {
                assert(exists|m: u64|
                    {
                        &&& allocate.ensures((memory_type, requirements.size), Ok::<u64, OomError>(m))
                        &&& bind.ensures((image, m, requirements.size), Ok::<(), OomError>(()))
                        &&& create_view.ensures((image,), Err::<u64, OomError>(e))
                    });
                return Err(e);
            },
        };
        let img = ImmutableImage {
            image: UnsafeImage { handle: image, dimensions },
            view: UnsafeImageView { handle: view },
            memory,
            memory_type,
            requirements,
            format,
        };
        let shared = Arc::new(img);
        assert(*shared == img);
        Ok(shared)
    }

    /// Returns the extent of the image.
    pub fn dimensions(&self) -> (r: Dimensions)
        ensures
            r == self.spec_image().dimensions,
    {
        self.image.dimensions()
    }

    /// Returns the engine image.
    pub fn inner_image(&self) -> (r: &UnsafeImage)
        ensures
            *r == self.spec_image(),
    {
        &self.image
    }

    /// Returns the engine handle of the memory bound to the image.
    pub fn memory(&self) -> (r: u64)
        ensures
            r == self.spec_memory(),
    {
        self.memory
    }

    /// Returns the memory type that the image's memory was allocated from.
    pub fn chosen_memory_type(&self) -> (r: MemoryType)
        ensures
            r == self.spec_memory_type(),
    {
        self.memory_type
    }

    /// Returns the engine's code for the image's format.
    pub fn format(&self) -> (r: u32)
        ensures
            r == self.spec_format(),
    {
        self.format
    }

    /// The whole image is one block, whatever range is asked for.
    pub fn blocks(&self, mipmap_levels: (u32, u32), array_layers: (u32, u32)) -> (r: Vec<
        (u32, u32),
    >)
        ensures
            r@ == seq![(0u32, 0u32)],
    {
        let mut r: Vec<(u32, u32)> = Vec::new();
        r.push((0, 0));
        r
    }

    /// The mipmap levels that a block covers, as a half-open range.
    pub fn block_mipmap_levels_range(&self, block: (u32, u32)) -> (r: (u32, u32))
        ensures
            r == (0u32, 1u32),
    {
        (0, 1)
    }

    /// The array layers that a block covers, as a half-open range.
    pub fn block_array_layers_range(&self, block: (u32, u32)) -> (r: (u32, u32))
        ensures
            r == (0u32, 1u32),
    {
        (0, 1)
    }

    /// The layout a block must be in before its first use, and whether an extra wait or
    /// signal semaphore is needed. A first use that writes by transfer starts from
    /// `Undefined`; any other starts from `ShaderReadOnlyOptimal`.
    pub fn initial_layout(&self, block: (u32, u32), first_usage: Layout) -> (r: (
        Layout,
        bool,
        bool,
    ))
        ensures
            r == (if first_usage == Layout::TransferDstOptimal {
                Layout::Undefined
            } else {
                Layout::ShaderReadOnlyOptimal
            }, false, false),
    {
        let l = if first_usage == Layout::TransferDstOptimal {
            Layout::Undefined
        } else {
            Layout::ShaderReadOnlyOptimal
        };
        (l, false, false)
    }

    /// The layout a block is left in after its last use: always `ShaderReadOnlyOptimal`.
    pub fn final_layout(&self, block: (u32, u32), last_usage: Layout) -> (r: (
        Layout,
        bool,
        bool,
    ))
        ensures
            r == (Layout::ShaderReadOnlyOptimal, false, false),
    {
        (Layout::ShaderReadOnlyOptimal, false, false)
    }

    /// Whether the accesses need a fence: never, since after its upload the image is only read.
    pub fn needs_fence(&self, access: &Vec<AccessRange>) -> (r: Option<bool>)
        ensures
            r == Some(false),
    {
        Some(false)
    }

    /// What must surround the accesses within `submission`: nothing, since the image has no
    /// concurrent writer.
    pub fn gpu_access(&self, access: &Vec<AccessRange>, submission: &Arc<Submission>) -> (r:
        GpuAccessResult)
        ensures
            r.dependencies@.len() == 0,
            r.additional_wait_semaphore is None,
            r.additional_signal_semaphore is None,
            r.before_transitions@.len() == 0,
            r.after_transitions@.len() == 0,
    {
        GpuAccessResult {
            dependencies: Vec::new(),
            additional_wait_semaphore: None,
            additional_signal_semaphore: None,
            before_transitions: Vec::new(),
            after_transitions: Vec::new(),
        }
    }

    /// Whether the content matches the format.
    pub fn matches_format(&self) -> (r: bool)
        ensures
            r,
    {
        true
    }

    /// The image that this view belongs to: the image itself.
    pub fn parent(&self) -> (r: &ImmutableImage)
        ensures
            r == self,
    {
        self
    }

    /// The image that this view belongs to, as a shared handle.
    pub fn parent_arc(me: &Arc<ImmutableImage>) -> (r: Arc<ImmutableImage>)
        ensures
            *r == **me,
    {
        me.clone()
    }

    /// Returns the engine view.
    pub fn inner_view(&self) -> (r: &UnsafeImageView)
        ensures
            *r == self.spec_view(),
    {
        &self.view
    }

    /// The layout the image has when bound as a storage image.
    pub fn descriptor_set_storage_image_layout(&self, access: AccessRange) -> (r: Layout)
        ensures
            r == Layout::ShaderReadOnlyOptimal,
    {
        Layout::ShaderReadOnlyOptimal
    }

    /// The layout the image has when bound with a sampler.
    pub fn descriptor_set_combined_image_sampler_layout(&self, access: AccessRange) -> (r: Layout)
        ensures
            r == Layout::ShaderReadOnlyOptimal,
    {
        Layout::ShaderReadOnlyOptimal
    }

    /// The layout the image has when bound as a sampled image.
    pub fn descriptor_set_sampled_image_layout(&self, access: AccessRange) -> (r: Layout)
        ensures
            r == Layout::ShaderReadOnlyOptimal,
    {
        Layout::ShaderReadOnlyOptimal
    }

    /// The layout the image has when bound as an input attachment.
    pub fn descriptor_set_input_attachment_layout(&self, access: AccessRange) -> (r: Layout)
        ensures
            r == Layout::ShaderReadOnlyOptimal,
    {
        Layout::ShaderReadOnlyOptimal
    }

    /// Whether the view maps each component to itself: always.
    pub fn identity_swizzle(&self) -> (r: bool)
        ensures
            r,
    {
        true
    }
}

} // verus!
