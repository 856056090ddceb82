use vstd::prelude::*;

use crate::layout::Layout;

verus! {

/// The extent of an image, by kind.
#[derive(Clone, Copy, Debug, PartialEq, Eq, Structural)]
pub enum Dimensions {
    Dim1d { width: u32 },
    Dim1dArray { width: u32, array_layers: u32 },
    Dim2d { width: u32, height: u32 },
    Dim2dArray { width: u32, height: u32, array_layers: u32 },
    Dim3d { width: u32, height: u32, depth: u32 },
    Cubemap { size: u32 },
    CubemapArray { size: u32, array_layers: u32 },
}

/// The ways an image may be used.
#[derive(Clone, Copy, Debug, PartialEq, Eq, Structural)]
pub struct Usage {
    pub transfer_source: bool,
    pub transfer_dest: bool,
    pub sampled: bool,
    pub storage: bool,
    pub color_attachment: bool,
    pub depth_stencil_attachment: bool,
    pub transient_attachment: bool,
    pub input_attachment: bool,
}

impl Usage {
    /// A usage with no flag set.
    pub fn none() -> (r: Usage)
        ensures
            !r.transfer_source && !r.transfer_dest && !r.sampled && !r.storage
                && !r.color_attachment && !r.depth_stencil_attachment && !r.transient_attachment
                && !r.input_attachment,
    {
        Usage {
            transfer_source: false,
            transfer_dest: false,
            sampled: false,
            storage: false,
            color_attachment: false,
            depth_stencil_attachment: false,
            transient_attachment: false,
            input_attachment: false,
        }
    }
}

/// What the engine reports an image needs from the memory bound to it.
#[derive(Clone, Copy, Debug, PartialEq, Eq, Structural)]
pub struct MemoryRequirements {
    pub size: u64,
    pub alignment: u64,
    /// Bit `i` is set when memory type `i` can hold the image.
    pub memory_type_bits: u32,
}

/// An engine image handle with the extent it was created with.
#[derive(Clone, Copy, Debug, PartialEq, Eq, Structural)]
pub struct UnsafeImage {
    pub handle: u64,
    pub dimensions: Dimensions,
}

impl UnsafeImage {
    pub fn dimensions(&self) -> (r: Dimensions)
        ensures
            r == self.dimensions,
    {
        self.dimensions
    }
}

/// An engine image view handle.
#[derive(Clone, Copy, Debug, PartialEq, Eq, Structural)]
pub struct UnsafeImageView {
    pub handle: u64,
}

/// One access to a block of an image within a submission.
#[derive(Clone, Copy, Debug)]
pub struct AccessRange {
    pub block: (u32, u32),
    pub write: bool,
    pub initial_layout: Layout,
    pub final_layout: Layout,
}

/// A layout change of one block of an image.
#[derive(Clone, Copy, Debug)]
pub struct LayoutTransition {
    pub block: (u32, u32),
    pub from: Layout,
    pub to: Layout,
}

/// One batch of work handed to a queue.
#[derive(Clone, Copy, Debug, PartialEq, Eq, Structural)]
pub struct Submission {
    pub handle: u64,
}

/// What must happen around an access to an image within a submission.
#[derive(Clone, Debug)]
pub struct GpuAccessResult {
    /// Earlier submissions that must finish first.
    pub dependencies: Vec<Submission>,
    pub additional_wait_semaphore: Option<u64>,
    pub additional_signal_semaphore: Option<u64>,
    pub before_transitions: Vec<LayoutTransition>,
    pub after_transitions: Vec<LayoutTransition>,
}

} // verus!
