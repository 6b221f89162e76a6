//! Color swatches as one-pixel-tall gradients, a texture cache keyed by
//! gradient, and the plain state of the application's windows and panels.

pub mod color;
pub mod gradient;
pub mod allocator;
pub mod texture;
pub mod error_display;
pub mod settings;
pub mod app_state;
