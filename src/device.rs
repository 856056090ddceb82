use vstd::prelude::*;

verus! {

/// One kind of memory that a device offers.
#[derive(Clone, Copy, Debug, PartialEq, Eq, Structural)]
pub struct MemoryType {
    /// Position of this type in the device's list; bit `id` of a type mask selects it.
    pub id: u32,
    /// Whether the memory lives on the device itself.
    pub device_local: bool,
}

/// What a device reports about itself and the engine handle that stands for it.
#[derive(Clone, Debug)]
pub struct Device {
    /// The engine handle of the logical device.
    pub handle: u64,
    /// The largest number of color attachments that one subpass may use.
    pub max_color_attachments: u32,
    /// The memory types of the physical device, in the order it reports them.
    pub memory_types: Vec<MemoryType>,
}

impl Device {
    /// Returns the device's limit on color attachments per subpass.
    pub fn max_color_attachments(&self) -> (r: u32)
        ensures
            r == self.max_color_attachments,
    {
        self.max_color_attachments
    }
}

} // verus!
