use vstd::prelude::*;

verus! {

/// The memory arrangement an image must be in for a given kind of use.
#[derive(Clone, Copy, Debug, PartialEq, Eq, Structural)]
pub enum Layout {
    Undefined,
    General,
    ColorAttachmentOptimal,
    DepthStencilAttachmentOptimal,
    DepthStencilReadOnlyOptimal,
    ShaderReadOnlyOptimal,
    TransferSrcOptimal,
    TransferDstOptimal,
    Preinitialized,
    PresentSrc,
}

/// The engine's numeric code for a layout.
pub open spec fn layout_code(l: Layout) -> u32 {
    match l {
        Layout::Undefined => 0,
        Layout::General => 1,
        Layout::ColorAttachmentOptimal => 2,
        Layout::DepthStencilAttachmentOptimal => 3,
        Layout::DepthStencilReadOnlyOptimal => 4,
        Layout::ShaderReadOnlyOptimal => 5,
        Layout::TransferSrcOptimal => 6,
        Layout::TransferDstOptimal => 7,
        Layout::Preinitialized => 8,
        Layout::PresentSrc => 1000001002,
    }
}

impl Layout {
    /// Returns the engine's numeric code for this layout.
    pub fn code(&self) -> (r: u32)
        ensures
            r == layout_code(*self),
    {
        match self {
            Layout::Undefined => 0,
            Layout::General => 1,
            Layout::ColorAttachmentOptimal => 2,
            Layout::DepthStencilAttachmentOptimal => 3,
            Layout::DepthStencilReadOnlyOptimal => 4,
            Layout::ShaderReadOnlyOptimal => 5,
            Layout::TransferSrcOptimal => 6,
            Layout::TransferDstOptimal => 7,
            Layout::Preinitialized => 8,
            Layout::PresentSrc => 1000001002,
        }
    }
}

/// What happens to an attachment's contents when a render pass begins.
#[derive(Clone, Copy, Debug, PartialEq, Eq, Structural)]
pub enum LoadOp {
    Load,
    Clear,
    DontCare,
}

/// The engine's numeric code for a load operation.
pub open spec fn load_code(op: LoadOp) -> u32 {
    match op {
        LoadOp::Load => 0,
        LoadOp::Clear => 1,
        LoadOp::DontCare => 2,
    }
}

impl LoadOp {
    /// Returns the engine's numeric code for this operation.
    pub fn code(&self) -> (r: u32)
        ensures
            r == load_code(*self),
    {
        match self {
            LoadOp::Load => 0,
            LoadOp::Clear => 1,
            LoadOp::DontCare => 2,
        }
    }
}

/// What happens to an attachment's contents when a render pass ends.
#[derive(Clone, Copy, Debug, PartialEq, Eq, Structural)]
pub enum StoreOp {
    Store,
    DontCare,
}

/// The engine's numeric code for a store operation.
pub open spec fn store_code(op: StoreOp) -> u32 {
    match op {
        StoreOp::Store => 0,
        StoreOp::DontCare => 1,
    }
}

impl StoreOp {
    /// Returns the engine's numeric code for this operation.
    pub fn code(&self) -> (r: u32)
        ensures
            r == store_code(*self),
    {
        match self {
            StoreOp::Store => 0,
            StoreOp::DontCare => 1,
        }
    }
}

} // verus!
