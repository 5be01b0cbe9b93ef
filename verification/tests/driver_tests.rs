//! Controller driver tests: the bring-up wire trace, orientation and
//! dimension handling, the strict pixel facade, sleep/wake and backlight
//! commands, reset, and the error paths.

use otm8009a::driver::OTM8009ADriver;
use otm8009a::mocks::{DcsCommand, DcsLogEntry, MockDsiInterface, MockFramebuffer, MockLtdcInterface};
use otm8009a::traits::{FramebufferInterface, PixelFormat};
use otm8009a::Otm8009aError;

type TestDriver = OTM8009ADriver<MockDsiInterface, MockLtdcInterface, MockFramebuffer>;

fn new_driver() -> TestDriver {
    OTM8009ADriver::new(
        MockDsiInterface::new(),
        MockLtdcInterface::new(),
        MockFramebuffer::new(800, 480),
    )
}

fn cmd(c: u8, p: &[u8]) -> DcsLogEntry {
    DcsLogEntry::Command(DcsCommand { cmd: c, params: p.to_vec() })
}

fn delay(ms: u32) -> DcsLogEntry {
    DcsLogEntry::Delay(ms)
}

const GAMMA: [u8; 16] = [
    0x00, 0x09, 0x0F, 0x0E, 0x07, 0x10, 0x0B, 0x0A, 0x04, 0x07, 0x0B, 0x08, 0x0F, 0x10, 0x0A, 0x01,
];

/// The full bring-up trace for RGB565 landscape, byte for byte.
fn expected_init_log() -> Vec<DcsLogEntry> {
    vec![
        cmd(0xFF, &[0x80, 0x09, 0x01]),
        delay(1),
        cmd(0x80, &[0x09, 0x00]),
        delay(1),
        cmd(0xC5, &[0x17, 0x40]),
        delay(1),
        cmd(0xFF, &[0x00, 0x00, 0x00]),
        delay(1),
        cmd(0x00, &[]),
        delay(1),
        cmd(0xE0, &GAMMA),
        cmd(0xE1, &GAMMA),
        delay(1),
        cmd(0x11, &[]),
        delay(120),
        cmd(0x3A, &[0x55]),
        delay(1),
        cmd(0x36, &[0x60]),
        cmd(0x2A, &[0x00, 0x00, 0x03, 0x1F]),
        cmd(0x2B, &[0x00, 0x00, 0x01, 0xDF]),
        cmd(0x53, &[0x24]),
        cmd(0x55, &[0x00]),
        cmd(0x5E, &[0x00]),
        delay(1),
        cmd(0x29, &[]),
        delay(40),
        cmd(0x00, &[]),
        cmd(0x00, &[]),
    ]
}

#[test]
fn test_init_emits_exact_bring_up_sequence() {
    let mut driver = new_driver();
    assert_eq!(driver.init(0x55, 1), Ok(()));
    assert!(driver.is_initialized());
    assert_eq!(driver.channel().log, expected_init_log());
}

#[test]
fn test_init_programs_layer_zero() {
    let mut driver = new_driver();
    assert_eq!(driver.init(0x55, 1), Ok(()));
    let config = driver.layer_manager().get_layer_config(0).expect("layer 0 configured");
    assert_eq!(config.layer, 0);
    assert_eq!(config.window_x0, 0);
    assert_eq!(config.window_x1, 800);
    assert_eq!(config.window_y0, 0);
    assert_eq!(config.window_y1, 480);
    assert_eq!(config.pixel_format, PixelFormat::Rgb565);
    assert_eq!(config.alpha, 255);
    assert!(!config.red_blue_swap);
    assert_eq!(config.framebuffer_address, 0);
    assert_eq!(config.framebuffer_pitch, 1600);
    assert_eq!(driver.layer_manager().get_framebuffer_address(0), Some(0));
    assert!(driver.layer_manager().is_enabled());
}

#[test]
fn test_init_rgb888_and_rgb666_share_layer_format() {
    let mut driver = new_driver();
    assert_eq!(driver.init(0x77, 1), Ok(()));
    let config = driver.layer_manager().get_layer_config(0).unwrap();
    assert_eq!(config.pixel_format, PixelFormat::Rgb888);

    let mut driver = new_driver();
    assert_eq!(driver.init(0x66, 1), Ok(()));
    let config = driver.layer_manager().get_layer_config(0).unwrap();
    assert_eq!(config.pixel_format, PixelFormat::Rgb888);
}

#[test]
fn test_init_unknown_color_format_is_invalid_config() {
    // An unrecognized color-format value yields InvalidConfig, leaves the
    // driver uninitialized, and sends nothing.
    let mut driver = new_driver();
    assert_eq!(driver.init(0x99, 1), Err(Otm8009aError::InvalidConfig));
    assert!(!driver.is_initialized());
    assert!(driver.channel().log.is_empty());
}

#[test]
fn test_init_unknown_orientation_is_invalid_config() {
    let mut driver = new_driver();
    assert_eq!(driver.init(0x55, 7), Err(Otm8009aError::InvalidConfig));
    assert!(!driver.is_initialized());
}

#[test]
fn test_init_channel_failure_is_comm_error() {
    let dsi = {
        let mut d = MockDsiInterface::new();
        d.set_should_fail(true);
        d
    };
    let mut driver =
        OTM8009ADriver::new(dsi, MockLtdcInterface::new(), MockFramebuffer::new(800, 480));
    assert_eq!(driver.init(0x55, 1), Err(Otm8009aError::CommError));
    assert!(!driver.is_initialized());
}

#[test]
fn test_orientation_dimensions() {
    // Portrait variants swap to 480x800; landscape variants keep 800x480.
    let cases: [(u32, (u16, u16)); 4] =
        [(0, (480, 800)), (1, (800, 480)), (2, (480, 800)), (3, (800, 480))];
    for (orientation, dims) in cases {
        let mut driver = new_driver();
        assert_eq!(driver.init(0x55, 1), Ok(()));
        assert_eq!(driver.set_orientation(orientation), Ok(()));
        assert_eq!(driver.get_dimensions(), dims, "orientation {}", orientation);
    }
}

#[test]
fn test_set_orientation_emits_command_triple() {
    let mut driver = new_driver();
    assert_eq!(driver.init(0x55, 1), Ok(()));
    let before = driver.channel().log.len();
    assert_eq!(driver.set_orientation(0), Ok(()));
    let log = &driver.channel().log;
    assert_eq!(
        &log[before..],
        &[
            cmd(0x36, &[0x00]),
            cmd(0x2A, &[0x00, 0x00, 0x01, 0xDF]),
            cmd(0x2B, &[0x00, 0x00, 0x03, 0x1F]),
        ]
    );
}

#[test]
fn test_set_orientation_requires_ready() {
    let mut driver = new_driver();
    assert_eq!(driver.set_orientation(1), Err(Otm8009aError::NotReady));
}

#[test]
fn test_set_orientation_invalid_code() {
    let mut driver = new_driver();
    assert_eq!(driver.init(0x55, 1), Ok(()));
    let before = driver.channel().log.len();
    assert_eq!(driver.set_orientation(4), Err(Otm8009aError::InvalidConfig));
    assert_eq!(driver.get_dimensions(), (800, 480));
    assert_eq!(driver.channel().log.len(), before);
}

#[test]
fn test_facade_rejects_out_of_range_top_left() {
    // The same out-of-buffer coordinate that the pixel buffer silently
    // ignores is a hard error through the driver facade.
    let mut driver = new_driver();
    assert_eq!(driver.init(0x55, 1), Ok(()));
    assert_eq!(driver.set_pixel(850, 10, 0x1234), Err(Otm8009aError::InvalidCoordinates));
    assert_eq!(driver.set_pixel(800, 0, 0x1234), Err(Otm8009aError::InvalidCoordinates));
    assert_eq!(driver.set_pixel(0, 480, 0x1234), Err(Otm8009aError::InvalidCoordinates));
    assert_eq!(driver.fill_rect(800, 0, 1, 1, 0x1234), Err(Otm8009aError::InvalidCoordinates));
    assert_eq!(driver.fill_rect(0, 480, 1, 1, 0x1234), Err(Otm8009aError::InvalidCoordinates));
    // The buffer itself is untouched
    for y in 0..480u16 {
        for x in 0..800u16 {
            assert_eq!(driver.framebuffer().get_pixel(x, y), Some(0x0000));
        }
    }
}

#[test]
fn test_facade_clips_extent_inside_buffer() {
    let mut driver = new_driver();
    assert_eq!(driver.init(0x55, 1), Ok(()));
    assert_eq!(driver.fill_rect(790, 470, 50, 50, 0xF800), Ok(()));
    for y in 0..480u16 {
        for x in 0..800u16 {
            let expected = if x >= 790 && y >= 470 { 0xF800 } else { 0x0000 };
            assert_eq!(driver.framebuffer().get_pixel(x, y), Some(expected));
        }
    }
}

#[test]
fn test_pixel_operations_require_ready() {
    let mut driver = new_driver();
    assert_eq!(driver.fill_rect(0, 0, 1, 1, 0), Err(Otm8009aError::NotReady));
    assert_eq!(driver.set_pixel(0, 0, 0), Err(Otm8009aError::NotReady));
    assert_eq!(driver.clear(0), Err(Otm8009aError::NotReady));
}

#[test]
fn test_reset_from_any_state_leaves_uninitialized() {
    // Fresh driver
    let mut driver = new_driver();
    assert_eq!(driver.reset(), Ok(()));
    assert!(!driver.is_initialized());
    assert_eq!(driver.set_pixel(0, 0, 0), Err(Otm8009aError::NotReady));

    // Initialized driver
    let mut driver = new_driver();
    assert_eq!(driver.init(0x55, 1), Ok(()));
    assert!(driver.is_initialized());
    assert_eq!(driver.reset(), Ok(()));
    assert!(!driver.is_initialized());
    assert_eq!(driver.fill_rect(0, 0, 1, 1, 0), Err(Otm8009aError::NotReady));
    // A successful reset starts a fresh trace: only the settle delay
    assert_eq!(driver.channel().log, vec![delay(10)]);
}

#[test]
fn test_reset_after_failed_init() {
    // Mid-failed init: make the channel fail partway, then reset.
    let mut driver = new_driver();
    assert_eq!(driver.init(0x55, 1), Ok(()));
    // Driver ready; now a failing re-init must leave it uninitialized.
    // (There is no public hook to fail mid-way without the channel flag,
    // so fail the whole channel: init fails at its first send.)
    let mut driver = {
        let mut d = MockDsiInterface::new();
        d.set_should_fail(true);
        OTM8009ADriver::new(d, MockLtdcInterface::new(), MockFramebuffer::new(800, 480))
    };
    assert_eq!(driver.init(0x55, 1), Err(Otm8009aError::CommError));
    assert!(!driver.is_initialized());
    assert_eq!(driver.reset(), Err(Otm8009aError::CommError));
    assert!(!driver.is_initialized());
    assert_eq!(driver.clear(0), Err(Otm8009aError::NotReady));
}

#[test]
fn test_end_to_end_red_fill() {
    // init(Rgb565, Landscape) -> clear(0x0000) -> full-screen red fill ->
    // the bound pixel buffer reads back pure red at the center.
    let mut driver = new_driver();
    assert_eq!(driver.init(0x55, 1), Ok(()));
    assert_eq!(driver.clear(0x0000), Ok(()));
    assert_eq!(driver.fill_rect(0, 0, 800, 480, 0xF800), Ok(()));
    assert_eq!(driver.framebuffer().get_pixel(400, 240), Some(0xF800));
}

#[test]
fn test_enter_and_exit_sleep_traces() {
    let mut driver = new_driver();
    assert_eq!(driver.init(0x55, 1), Ok(()));
    let before = driver.channel().log.len();
    assert_eq!(driver.enter_sleep(), Ok(()));
    assert!(driver.is_initialized()); // flag not altered by sleep
    assert_eq!(
        &driver.channel().log[before..],
        &[cmd(0x28, &[]), delay(40), cmd(0x10, &[]), delay(120)]
    );
    let before = driver.channel().log.len();
    assert_eq!(driver.exit_sleep(), Ok(()));
    assert!(driver.is_initialized());
    assert_eq!(
        &driver.channel().log[before..],
        &[cmd(0x11, &[]), delay(120), cmd(0x29, &[]), delay(40)]
    );
}

#[test]
fn test_sleep_requires_ready() {
    let mut driver = new_driver();
    assert_eq!(driver.enter_sleep(), Err(Otm8009aError::NotReady));
    assert_eq!(driver.exit_sleep(), Err(Otm8009aError::NotReady));
}

#[test]
fn test_set_brightness_trace() {
    let mut driver = new_driver();
    assert_eq!(driver.set_brightness(128), Err(Otm8009aError::NotReady));
    assert_eq!(driver.init(0x55, 1), Ok(()));
    let before = driver.channel().log.len();
    assert_eq!(driver.set_brightness(128), Ok(()));
    assert_eq!(&driver.channel().log[before..], &[cmd(0x53, &[128])]);
}

#[test]
fn test_cabc_modes() {
    let mut driver = new_driver();
    assert_eq!(driver.enable_cabc(1), Err(Otm8009aError::NotReady));
    assert_eq!(driver.init(0x55, 1), Ok(()));
    assert_eq!(driver.enable_cabc(4), Err(Otm8009aError::InvalidConfig));
    let before = driver.channel().log.len();
    assert_eq!(driver.enable_cabc(3), Ok(()));
    assert_eq!(driver.disable_cabc(), Ok(()));
    assert_eq!(&driver.channel().log[before..], &[cmd(0x55, &[3]), cmd(0x55, &[0])]);
}

#[test]
fn test_is_dsi_ready_reflects_channel() {
    let mut dsi = MockDsiInterface::new();
    dsi.set_ready(false);
    let driver = OTM8009ADriver::new(dsi, MockLtdcInterface::new(), MockFramebuffer::new(800, 480));
    assert!(!driver.is_dsi_ready());
    let driver = new_driver();
    assert!(driver.is_dsi_ready());
}

#[test]
fn test_framebuffer_mut_direct_access() {
    let mut driver = new_driver();
    driver.framebuffer_mut().set_pixel(3, 4, 0xABCD);
    assert_eq!(driver.framebuffer().get_pixel(3, 4), Some(0xABCD));
}

#[test]
fn test_new_driver_defaults() {
    let driver = new_driver();
    assert!(!driver.is_initialized());
    assert_eq!(driver.get_dimensions(), (800, 480));
    assert!(driver.channel().log.is_empty());
}

#[test]
fn test_init_portrait_rgb666_trace_entries() {
    // The color-format select carries the format code itself as its
    // parameter, and a portrait init uses the portrait command triple.
    let mut driver = new_driver();
    assert_eq!(driver.init(0x66, 0), Ok(()));
    assert_eq!(driver.get_dimensions(), (480, 800));
    let log = &driver.channel().log;
    assert!(log.contains(&cmd(0x3A, &[0x66])));
    assert!(log.contains(&cmd(0x36, &[0x00])));
    assert!(log.contains(&cmd(0x2A, &[0x00, 0x00, 0x01, 0xDF])));
    assert!(log.contains(&cmd(0x2B, &[0x00, 0x00, 0x03, 0x1F])));

    let mut driver = new_driver();
    assert_eq!(driver.init(0x77, 3), Ok(()));
    assert_eq!(driver.get_dimensions(), (800, 480));
    let log = &driver.channel().log;
    assert!(log.contains(&cmd(0x3A, &[0x77])));
    assert!(log.contains(&cmd(0x36, &[0xA0])));

    let mut driver = new_driver();
    assert_eq!(driver.init(0x55, 2), Ok(()));
    assert_eq!(driver.get_dimensions(), (480, 800));
    assert!(driver.channel().log.contains(&cmd(0x36, &[0xC0])));
}

/// A driver over a channel that lets exactly `limit` sends succeed before
/// every later one fails.
fn driver_with_send_limit(limit: usize) -> TestDriver {
    let mut dsi = MockDsiInterface::new();
    dsi.set_send_limit(Some(limit));
    OTM8009ADriver::new(dsi, MockLtdcInterface::new(), MockFramebuffer::new(800, 480))
}

#[test]
fn test_enter_sleep_halts_at_first_failure() {
    // A full init takes 18 sends; allow one more so display-off succeeds
    // and sleep-in fails. The sequence halts: nothing after the failed
    // transaction appears on the channel.
    let mut driver = driver_with_send_limit(19);
    assert_eq!(driver.init(0x55, 1), Ok(()));
    let before = driver.channel().log.len();
    assert_eq!(driver.enter_sleep(), Err(Otm8009aError::CommError));
    assert!(driver.is_initialized());
    assert_eq!(&driver.channel().log[before..], &[cmd(0x28, &[]), delay(40)]);
}

#[test]
fn test_exit_sleep_halts_at_first_failure() {
    // Sleep-out succeeds, display-on fails: the wake sequence stops there.
    let mut driver = driver_with_send_limit(19);
    assert_eq!(driver.init(0x55, 1), Ok(()));
    let before = driver.channel().log.len();
    assert_eq!(driver.exit_sleep(), Err(Otm8009aError::CommError));
    assert!(driver.is_initialized());
    assert_eq!(&driver.channel().log[before..], &[cmd(0x11, &[]), delay(120)]);
}

#[test]
fn test_set_orientation_halts_at_first_failure() {
    // The memory-access-control command succeeds, the column-address
    // command fails: the page-address command is never sent and the
    // dimensions stay what they were.
    let mut driver = driver_with_send_limit(19);
    assert_eq!(driver.init(0x55, 1), Ok(()));
    let before = driver.channel().log.len();
    assert_eq!(driver.set_orientation(0), Err(Otm8009aError::CommError));
    assert_eq!(&driver.channel().log[before..], &[cmd(0x36, &[0x00])]);
    assert_eq!(driver.get_dimensions(), (800, 480));
}

#[test]
fn test_init_halts_at_first_failure() {
    // Five sends succeed, the sixth (the positive gamma table) fails: the
    // emitted trace is exactly the bring-up prefix before it, the driver
    // stays uninitialized, and no layer programming took place.
    let mut driver = driver_with_send_limit(5);
    assert_eq!(driver.init(0x55, 1), Err(Otm8009aError::CommError));
    assert!(!driver.is_initialized());
    assert_eq!(
        driver.channel().log,
        vec![
            cmd(0xFF, &[0x80, 0x09, 0x01]),
            delay(1),
            cmd(0x80, &[0x09, 0x00]),
            delay(1),
            cmd(0xC5, &[0x17, 0x40]),
            delay(1),
            cmd(0xFF, &[0x00, 0x00, 0x00]),
            delay(1),
            cmd(0x00, &[]),
            delay(1),
        ]
    );
    assert!(driver.layer_manager().get_layer_config(0).is_none());
    assert!(driver.layer_manager().get_framebuffer_address(0).is_none());
    assert!(!driver.layer_manager().is_enabled());
}
