//! Constants and definitions for the OTM8009A display controller, and the
//! specification of every command sequence the driver emits.
//!
//! The event-sequence spec functions below are the wire-level contract:
//! the driver's `ensures` clauses state that, on success, exactly these
//! transactions and delays were put on the DSI channel, in this order.

use vstd::prelude::*;

use crate::traits::{delayed, sent, DsiEvent, PixelFormat};

verus! {

/// Native panel width, landscape.
pub const LCD_WIDTH: u16 = 800;

/// Native panel height, landscape.
pub const LCD_HEIGHT: u16 = 480;

/// Color format codes the controller understands.
pub const OTM8009A_FORMAT_RGB565: u32 = 0x55;

pub const OTM8009A_FORMAT_RGB666: u32 = 0x66;

pub const OTM8009A_FORMAT_RGB888: u32 = 0x77;

/// Orientation codes of the public driver interface.
pub const OTM8009A_ORIENTATION_PORTRAIT: u32 = 0;

pub const OTM8009A_ORIENTATION_LANDSCAPE: u32 = 1;

pub const OTM8009A_ORIENTATION_PORTRAIT_FLIPPED: u32 = 2;

pub const OTM8009A_ORIENTATION_LANDSCAPE_FLIPPED: u32 = 3;

/// Standard DCS command bytes.
pub const NOP: u8 = 0x00;

pub const SLEEP_IN: u8 = 0x10;

pub const SLEEP_OUT: u8 = 0x11;

pub const DISPLAY_OFF: u8 = 0x28;

pub const DISPLAY_ON: u8 = 0x29;

pub const SET_COLUMN_ADDRESS: u8 = 0x2A;

pub const SET_PAGE_ADDRESS: u8 = 0x2B;

pub const SET_MEMORY_ACCESS_CONTROL: u8 = 0x36;

pub const SET_PIXEL_FORMAT: u8 = 0x3A;

/// Backlight-control command bytes.
pub const WRITE_CTRL_DISPLAY: u8 = 0x53;

pub const WRITE_CABC: u8 = 0x55;

pub const WRITE_CABC_MIN_BRIGHTNESS: u8 = 0x5E;

/// Manufacturer-specific command bytes.
pub const ENTER_ORISE_CMD2: u8 = 0x80;

pub const SET_VCOM_CTRL1: u8 = 0xC5;

pub const SET_GAMMA_CTRL1: u8 = 0xE0;

pub const SET_GAMMA_CTRL2: u8 = 0xE1;

pub const SET_EXTC: u8 = 0xFF;

/// Panel-mandated settle times, in milliseconds.
pub const RESET_DELAY_MS: u32 = 10;

pub const SLEEP_OUT_DELAY_MS: u32 = 120;

pub const DISPLAY_ON_DELAY_MS: u32 = 40;

pub const CMD_DELAY_MS: u32 = 1;

/// Display orientations.
#[derive(Clone, Copy, Debug, PartialEq, Eq, Structural)]
pub enum Orientation {
    Portrait,
    Landscape,
    PortraitFlipped,
    LandscapeFlipped,
}

/// Color formats supported by the OTM8009A.
#[derive(Clone, Copy, Debug, PartialEq, Eq, Structural)]
pub enum ColorFormat {
    Rgb565,
    Rgb666,
    Rgb888,
}

/// Power modes.
#[derive(Clone, Copy, Debug, PartialEq, Eq, Structural)]
pub enum PowerMode {
    Normal,
    Sleep,
    PartialDisplay,
    IdleMode,
}

/// An immutable configuration snapshot used to select initialization
/// parameters.
#[derive(Clone, Copy, Debug, PartialEq, Eq, Structural)]
pub struct DisplayConfig {
    pub width: u16,
    pub height: u16,
    pub orientation: Orientation,
    pub color_format: ColorFormat,
    pub power_mode: PowerMode,
}

impl Default for DisplayConfig {
    /// The standard 800×480 landscape RGB565 configuration.
    fn default() -> (c: Self)
        ensures
            c.width == LCD_WIDTH,
            c.height == LCD_HEIGHT,
            c.orientation == Orientation::Landscape,
            c.color_format == ColorFormat::Rgb565,
            c.power_mode == PowerMode::Normal,
    {
        DisplayConfig {
            width: LCD_WIDTH,
            height: LCD_HEIGHT,
            orientation: Orientation::Landscape,
            color_format: ColorFormat::Rgb565,
            power_mode: PowerMode::Normal,
        }
    }
}

/// Errors of the driver's public operations.
#[derive(Clone, Copy, Debug, PartialEq, Eq, Structural)]
pub enum Otm8009aError {
    /// Operation attempted before a successful `init`, or after `reset`.
    NotReady,
    /// Unsupported color format, orientation, or CABC mode value.
    InvalidConfig,
    /// Serial command channel or layer manager transport failure.
    CommError,
    /// Reserved for backends implementing acknowledgement waits.
    Timeout,
    /// Pixel operation whose top-left falls outside the current
    /// dimensions.
    InvalidCoordinates,
    /// Unsupported operation.
    Unsupported,
}

/// Whether `cf` is one of the controller's color format codes.
pub open spec fn valid_format_code(cf: u32) -> bool {
    cf == OTM8009A_FORMAT_RGB565 || cf == OTM8009A_FORMAT_RGB666 || cf == OTM8009A_FORMAT_RGB888
}

/// Whether `o` is one of the four orientation codes.
pub open spec fn valid_orientation_code(o: u32) -> bool {
    o == OTM8009A_ORIENTATION_PORTRAIT || o == OTM8009A_ORIENTATION_LANDSCAPE || o
        == OTM8009A_ORIENTATION_PORTRAIT_FLIPPED || o == OTM8009A_ORIENTATION_LANDSCAPE_FLIPPED
}

/// Whether orientation code `o` keeps the native wide-by-short resolution.
pub open spec fn is_landscape_code(o: u32) -> bool {
    o == OTM8009A_ORIENTATION_LANDSCAPE || o == OTM8009A_ORIENTATION_LANDSCAPE_FLIPPED
}

/// Driver width after a successful orientation change to `o`.
pub open spec fn width_for(o: u32) -> u16 {
    if is_landscape_code(o) {
        LCD_WIDTH
    } else {
        LCD_HEIGHT
    }
}

/// Driver height after a successful orientation change to `o`.
pub open spec fn height_for(o: u32) -> u16 {
    if is_landscape_code(o) {
        LCD_HEIGHT
    } else {
        LCD_WIDTH
    }
}

/// The compositing pixel format selected for a color format code.
/// RGB666 deliberately shares the RGB888 byte layout in the layer
/// geometry.
pub open spec fn pixel_format_for(cf: u32) -> PixelFormat {
    if cf == OTM8009A_FORMAT_RGB565 {
        PixelFormat::Rgb565
    } else {
        PixelFormat::Rgb888
    }
}

/// The memory-access-control parameter for orientation code `o`.
pub open spec fn madctl_param(o: u32) -> u8 {
    if o == OTM8009A_ORIENTATION_PORTRAIT {
        0x00
    } else if o == OTM8009A_ORIENTATION_LANDSCAPE {
        0x60
    } else if o == OTM8009A_ORIENTATION_PORTRAIT_FLIPPED {
        0xC0
    } else {
        0xA0
    }
}

/// Column-address-range parameters for orientation code `o`:
/// columns 0..=799 in landscape, 0..=479 in portrait.
pub open spec fn caset_params(o: u32) -> Seq<u8> {
    if is_landscape_code(o) {
        seq![0x00u8, 0x00u8, 0x03u8, 0x1Fu8]
    } else {
        seq![0x00u8, 0x00u8, 0x01u8, 0xDFu8]
    }
}

/// Page-address-range parameters for orientation code `o`:
/// pages 0..=479 in landscape, 0..=799 in portrait.
pub open spec fn paset_params(o: u32) -> Seq<u8> {
    if is_landscape_code(o) {
        seq![0x00u8, 0x00u8, 0x01u8, 0xDFu8]
    } else {
        seq![0x00u8, 0x00u8, 0x03u8, 0x1Fu8]
    }
}

/// The gamma correction table, shared by the positive and negative gamma
/// commands.
pub open spec fn gamma_table() -> Seq<u8> {
    seq![
        0x00u8,
        0x09u8,
        0x0Fu8,
        0x0Eu8,
        0x07u8,
        0x10u8,
        0x0Bu8,
        0x0Au8,
        0x04u8,
        0x07u8,
        0x0Bu8,
        0x08u8,
        0x0Fu8,
        0x10u8,
        0x0Au8,
        0x01u8,
    ]
}

/// The fixed bring-up prefix: vendor-command unlock, vendor mode 2 entry,
/// GVDD/NGVDD trim, vendor mode 2 exit, a no-op, both gamma tables, and
/// sleep-out with its extended settle delay.
pub open spec fn bring_up_prefix_events() -> Seq<DsiEvent> {
    seq![
        sent(SET_EXTC, seq![0x80u8, 0x09u8, 0x01u8]),
        delayed(CMD_DELAY_MS),
        sent(ENTER_ORISE_CMD2, seq![0x09u8, 0x00u8]),
        delayed(CMD_DELAY_MS),
        sent(SET_VCOM_CTRL1, seq![0x17u8, 0x40u8]),
        delayed(CMD_DELAY_MS),
        sent(SET_EXTC, seq![0x00u8, 0x00u8, 0x00u8]),
        delayed(CMD_DELAY_MS),
        sent(NOP, seq![]),
        delayed(CMD_DELAY_MS),
        sent(SET_GAMMA_CTRL1, gamma_table()),
        sent(SET_GAMMA_CTRL2, gamma_table()),
        delayed(CMD_DELAY_MS),
        sent(SLEEP_OUT, seq![]),
        delayed(SLEEP_OUT_DELAY_MS),
    ]
}

/// The color-format select transaction: the format code is its own
/// parameter byte.
pub open spec fn format_events(cf: u32) -> Seq<DsiEvent> {
    seq![sent(SET_PIXEL_FORMAT, seq![cf as u8]), delayed(CMD_DELAY_MS)]
}

/// The orientation command triple: memory access control, column address
/// range, page address range, in this order.
pub open spec fn orientation_events(o: u32) -> Seq<DsiEvent> {
    seq![
        sent(SET_MEMORY_ACCESS_CONTROL, seq![madctl_param(o)]),
        sent(SET_COLUMN_ADDRESS, caset_params(o)),
        sent(SET_PAGE_ADDRESS, paset_params(o)),
    ]
}

/// The default backlight programming: brightness control, adaptive
/// backlight off, minimum brightness zero.
pub open spec fn backlight_events() -> Seq<DsiEvent> {
    seq![
        sent(WRITE_CTRL_DISPLAY, seq![0x24u8]),
        sent(WRITE_CABC, seq![0x00u8]),
        sent(WRITE_CABC_MIN_BRIGHTNESS, seq![0x00u8]),
        delayed(CMD_DELAY_MS),
    ]
}

/// The closing transactions: display-on with its settle delay, then the
/// two terminating no-ops the command protocol requires.
pub open spec fn finish_events() -> Seq<DsiEvent> {
    seq![
        sent(DISPLAY_ON, seq![]),
        delayed(DISPLAY_ON_DELAY_MS),
        sent(NOP, seq![]),
        sent(NOP, seq![]),
    ]
}

/// The complete bring-up trace of a successful `init` with color format
/// `cf` and orientation `o`.
pub open spec fn bring_up_events(cf: u32, o: u32) -> Seq<DsiEvent> {
    bring_up_prefix_events() + format_events(cf) + orientation_events(o) + backlight_events()
        + finish_events()
}

/// The trace of a successful `enter_sleep`: display-off, settle, sleep-in,
/// settle.
pub open spec fn sleep_events() -> Seq<DsiEvent> {
    seq![
        sent(DISPLAY_OFF, seq![]),
        delayed(DISPLAY_ON_DELAY_MS),
        sent(SLEEP_IN, seq![]),
        delayed(SLEEP_OUT_DELAY_MS),
    ]
}

/// The trace of a successful `exit_sleep`: sleep-out, settle, display-on,
/// settle.
pub open spec fn wake_events() -> Seq<DsiEvent> {
    seq![
        sent(SLEEP_OUT, seq![]),
        delayed(SLEEP_OUT_DELAY_MS),
        sent(DISPLAY_ON, seq![]),
        delayed(DISPLAY_ON_DELAY_MS),
    ]
}

} // verus!
