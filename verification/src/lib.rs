//! Negotiation of swapchain parameters for a window-presenting renderer.
//!
//! The windowing layer and the graphics driver report what they support
//! (surface formats, presentation modes, image-count bounds, transforms,
//! the current extent); the functions here pick a presentable configuration
//! from those reports. The driver calls themselves live outside the
//! library: everything here works on plain values.

pub mod swapchain;
