//! Driver library for the OTM8009A MIPI-DSI command-mode display controller.
//!
//! The controller driver is generic over three hardware capabilities: a
//! serial command channel (DSI), a compositing layer manager (LTDC) and a
//! pixel buffer. The driver owns the bring-up, orientation and power
//! command sequencing and a bounds-checked pixel-operation facade; every
//! command transaction it emits is specified byte for byte against the
//! panel's wire-level contract.

pub mod common;
pub mod defs;
pub mod driver;
pub mod mocks;
pub mod traits;

pub use common::rgb565_to_rgb888;
pub use common::rgb888_to_rgb565;
pub use defs::ColorFormat;
pub use defs::DisplayConfig;
pub use defs::Orientation;
pub use defs::Otm8009aError;
pub use defs::PowerMode;
pub use defs::LCD_HEIGHT;
pub use defs::LCD_WIDTH;
pub use driver::OTM8009ADriver;
pub use traits::DsiInterface;
pub use traits::FramebufferInterface;
pub use traits::LayerConfig;
pub use traits::LtdcInterface;
pub use traits::PixelFormat;
pub use traits::PlatformInterface;
