//! Control logic of a windowed renderer that draws one static triangle.
//!
//! The library holds the decisions such a renderer makes, stated and proved
//! as contracts: which physical device and queue family to run on
//! ([`device`]), which settings a new swapchain gets ([`swapchain`]), and how
//! the per-frame present loop reacts to window events and to the outcomes of
//! recreating, acquiring and presenting ([`frame`]), and that every image of
//! a swapchain gets its framebuffer ([`framebuffers`]). The graphics API
//! itself (instance, window, driver calls) lives outside the library and
//! hands these functions plain descriptions of what it found.

pub mod device;
pub mod frame;
pub mod framebuffers;
pub mod swapchain;
