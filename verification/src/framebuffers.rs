//! Building the framebuffers of a swapchain.
//!
//! Whenever a swapchain is made or remade, the renderer gives each of its
//! images a framebuffer: the image's whole default view, bound as the one
//! attachment of the shared render pass. The loop that keeps framebuffers
//! and images one to one is verified here; only the two driver calls that
//! make a view and a framebuffer stand behind a trusted wrapper, since what
//! they return is a driver handle the library cannot look into.

use std::sync::Arc;
use vulkano::device::DeviceOwned;
use vstd::prelude::*;

verus! {

#[verifier::external_type_specification]
#[verifier::external_body]
pub struct ExWindow(winit::window::Window);

#[verifier::external_type_specification]
#[verifier::external_body]
#[verifier::reject_recursive_types(W)]
pub struct ExSwapchainImage<W>(vulkano::image::SwapchainImage<W>);

#[verifier::external_type_specification]
#[verifier::external_body]
pub struct ExRenderPass(vulkano::render_pass::RenderPass);

#[verifier::external_type_specification]
#[verifier::external_body]
pub struct ExFramebuffer(vulkano::render_pass::Framebuffer);

/// Relies on vulkano's `ImageView::new_default` and `Framebuffer::new`: the
/// returned framebuffer, if any, binds the image's whole default view as the
/// one attachment of the render pass. Whether the driver grants it depends
/// on the driver, so nothing is promised of the outcome. `None` also covers
/// an image and a render pass that belong to different logical devices:
/// `Framebuffer::new` asserts that the view's device is the render pass's,
/// so that pairing is turned away before the call.
#[verifier::external_body]
fn framebuffer_for(
    image: &Arc<vulkano::image::SwapchainImage<winit::window::Window>>,
    render_pass: &Arc<vulkano::render_pass::RenderPass>,
) -> (r: Option<Arc<vulkano::render_pass::Framebuffer>>) {
    let view = vulkano::image::view::ImageView::new_default(image.clone()).ok()?;
    if view.device() != render_pass.device() {
        return None;
    }
    vulkano::render_pass::Framebuffer::new(
        render_pass.clone(),
        vulkano::render_pass::FramebufferCreateInfo {
            attachments: vec![view],
            ..Default::default()
        },
    )
    .ok()
}

/// One framebuffer per swapchain image, in the images' order, each on the
/// shared render pass; a framebuffer is valid only with its parent image,
/// so the set is rebuilt whenever the swapchain is. `None` when the driver
/// refuses a view or a framebuffer.
pub fn build_framebuffers(
    images: &Vec<Arc<vulkano::image::SwapchainImage<winit::window::Window>>>,
    render_pass: &Arc<vulkano::render_pass::RenderPass>,
) -> (r: Option<Vec<Arc<vulkano::render_pass::Framebuffer>>>)
    ensures
        (match r {
            Some(fbs) => fbs@.len() == images@.len(),
            None => true,
        }),
        images@.len() == 0 ==> r is Some,
{
    let mut fbs: Vec<Arc<vulkano::render_pass::Framebuffer>> = Vec::new();
    let mut i: usize = 0;
    while i < images.len()
        invariant
            i <= images@.len(),
            fbs@.len() == i,
        decreases images@.len() - i,
    {
        match framebuffer_for(&images[i], render_pass) {
            Some(fb) => fbs.push(fb),
            None => {
                return None;
            },
        }
        i += 1;
    }
    Some(fbs)
}

} // verus!
