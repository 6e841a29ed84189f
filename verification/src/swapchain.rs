//! The live swapchain: the presentable image chain the driver actually
//! returned, one view per image, and the shared depth attachment.

use vstd::prelude::*;

use crate::error::RhiError;
use crate::surface::Extent2d;
use crate::surface::SurfaceFormat;

verus! {

/// The image chain and its derived views, held as opaque device handles,
/// together with the parameters it was built with.
#[derive(Debug, Clone)]
pub struct SwapchainState {
    pub swapchain: u64,
    pub format: SurfaceFormat,
    pub present_mode: u32,
    pub extent: Extent2d,
    /// The presentable images, as many as the driver granted.
    pub images: Vec<u64>,
    /// One view per presentable image.
    pub image_views: Vec<u64>,
    pub depth_image: u64,
    pub depth_image_memory: u64,
    pub depth_image_view: u64,
}

impl SwapchainState {
    /// `K`: how many presentable images the chain holds.
    pub open spec fn image_count(self) -> int {
        self.images@.len() as int
    }

    /// The chain is non-empty and carries exactly one view per image.
    pub open spec fn wf(self) -> bool {
        &&& self.images@.len() >= 1
        &&& self.image_views@.len() == self.images@.len()
    }

    /// Assembles the swapchain record from what the driver returned,
    /// failing exactly when the driver handed back no image or a view
    /// list that does not pair up with the images.
    pub fn assemble(
        swapchain: u64,
        format: SurfaceFormat,
        present_mode: u32,
        extent: Extent2d,
        images: Vec<u64>,
        image_views: Vec<u64>,
        depth_image: u64,
        depth_image_memory: u64,
        depth_image_view: u64,
    ) -> (r: Result<SwapchainState, RhiError>)
        ensures
            r is Err <==> (images@.len() == 0 || image_views@.len() != images@.len()),
            r is Err ==> r == Result::<SwapchainState, RhiError>::Err(RhiError::ResourceCreation),
            r matches Ok(s) ==> {
                &&& s.wf()
                &&& s == (SwapchainState {
                    swapchain,
                    format,
                    present_mode,
                    extent,
                    images,
                    image_views,
                    depth_image,
                    depth_image_memory,
                    depth_image_view,
                })
            },
    {
        if images.len() == 0 || image_views.len() != images.len() {
            return Err(RhiError::ResourceCreation);
        }
        Ok(
            SwapchainState {
                swapchain,
                format,
                present_mode,
                extent,
                images,
                image_views,
                depth_image,
                depth_image_memory,
                depth_image_view,
            },
        )
    }
}

} // verus!
