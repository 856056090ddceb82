//! Render pass description compilation and read-only image synchronization rules.

pub mod layout;
pub mod device;
pub mod error;
pub mod description;
pub mod descriptors;
pub mod render_pass;
pub mod image;
pub mod immutable;
