//! The swap-chain model: configuration and per-image resources.
//!
//! The native presentable chain is created by the embedding
//! application; this model fixes the configuration the engine chose for
//! it and keeps the per-image resources in lock step: one view, one
//! framebuffer and one command buffer per presentable image, created
//! and destroyed together.

use crate::surface::spec_chosen_extent;
use crate::surface::choose_swapchain_extent;
use crate::surface::VkExtent2D;
use crate::surface::VkSurfaceCapabilities;
use crate::surface::VkSurfaceFormat;
use vstd::prelude::*;

verus! {

/// One presentable image with its per-image resources.
///
/// `command_buffer` indexes the recording pool's buffer for this image:
/// command buffers are owned per image, not per frame slot.
#[derive(Clone, Copy, PartialEq, Eq, Structural, Debug)]
pub struct VkSwapChainImage {
    pub image: u64,
    pub view: u64,
    pub framebuffer: u64,
    pub command_buffer: usize,
}

/// The swap chain: its chosen configuration and its image list.
///
/// The image list length never changes without a full recreation.
pub struct VkSwapChain {
    pub format: VkSurfaceFormat,
    pub present_mode: u32,
    pub requested_image_count: u32,
    pub extent: VkExtent2D,
    pub images: Vec<VkSwapChainImage>,
}

impl VkSwapChain {
    /// Fix the configuration of a new chain: the extent is the
    /// surface's current extent when defined, else the window size
    /// clamped into the supported range. The image list starts empty
    /// until the native images are handed over.
    pub fn new(
        capabilities: &VkSurfaceCapabilities,
        format: VkSurfaceFormat,
        present_mode: u32,
        image_count: u32,
        dimensions: &[u32; 2],
    ) -> (chain: VkSwapChain)
        ensures
            chain.format == format,
            chain.present_mode == present_mode,
            chain.requested_image_count == image_count,
            chain.extent == spec_chosen_extent(*capabilities, dimensions@),
            chain.images@.len() == 0,
    {
        let extent = choose_swapchain_extent(capabilities, dimensions);
        VkSwapChain {
            format,
            present_mode,
            requested_image_count: image_count,
            extent,
            images: Vec::new(),
        }
    }

    /// The number of presentable images.
    pub fn image_count(&self) -> (count: usize)
        ensures
            count == self.images@.len(),
    {
        self.images.len()
    }

    /// Take over the native images of a fresh chain: entry `i` pairs
    /// image `i` with its view, its framebuffer and command buffer `i`.
    pub fn initialize_images(
        &mut self,
        image_handles: &Vec<u64>,
        view_handles: &Vec<u64>,
        framebuffer_handles: &Vec<u64>,
    )
        requires
            old(self).images@.len() == 0,
            view_handles@.len() == image_handles@.len(),
            framebuffer_handles@.len() == image_handles@.len(),
        ensures
            final(self).images@.len() == image_handles@.len(),
            forall|i: int|
                0 <= i < image_handles@.len() ==> final(self).images@[i] == (VkSwapChainImage {
                    image: image_handles@[i],
                    view: view_handles@[i],
                    framebuffer: framebuffer_handles@[i],
                    command_buffer: i as usize,
                }),
            final(self).format == old(self).format,
            final(self).present_mode == old(self).present_mode,
            final(self).requested_image_count == old(self).requested_image_count,
            final(self).extent == old(self).extent,
    {
        let mut k: usize = 0;
        while k < image_handles.len()
            invariant
                k <= image_handles@.len(),
                view_handles@.len() == image_handles@.len(),
                framebuffer_handles@.len() == image_handles@.len(),
                self.images@.len() == k,
                forall|i: int|
                    0 <= i < k ==> self.images@[i] == (VkSwapChainImage {
                        image: image_handles@[i],
                        view: view_handles@[i],
                        framebuffer: framebuffer_handles@[i],
                        command_buffer: i as usize,
                    }),
                self.format == old(self).format,
                self.present_mode == old(self).present_mode,
                self.requested_image_count == old(self).requested_image_count,
                self.extent == old(self).extent,
            decreases image_handles@.len() - k,
        {
            self.images.push(
                VkSwapChainImage {
                    image: image_handles[k],
                    view: view_handles[k],
                    framebuffer: framebuffer_handles[k],
                    command_buffer: k,
                },
            );
            k = k + 1;
        }
    }

    /// Release every per-image resource. The configuration stays, for
    /// the recreation that follows.
    pub fn cleanup_images(&mut self)
        ensures
            final(self).images@.len() == 0,
            final(self).format == old(self).format,
            final(self).present_mode == old(self).present_mode,
            final(self).requested_image_count == old(self).requested_image_count,
            final(self).extent == old(self).extent,
    {
        self.images.clear();
    }
}

} // verus!
