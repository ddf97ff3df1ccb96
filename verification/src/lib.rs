//! A verified frame-lifecycle and swap-chain resource lifetime manager.
//!
//! The crate models the per-frame engine of an explicit graphics API:
//! acquiring presentable images, coordinating CPU/GPU synchronization
//! across multiple frames in flight, and recreating swap-chain-dependent
//! resources on resize. All decision logic is verified; an embedding
//! application performs the native API calls the engine prescribes.

pub mod commands;
pub mod device;
pub mod frame;
pub mod handles;
pub mod physical_device;
pub mod surface;
pub mod swap_chain;
pub mod sync;
pub mod version;

use vstd::prelude::*;

verus! {

/// Global settings chosen at application start.
pub struct VulkanSettings {
    pub validation: bool,
}

impl VulkanSettings {
    pub fn new(validation: bool) -> (settings: Self)
        ensures
            settings.validation == validation,
    {
        Self { validation }
    }
}

} // verus!
