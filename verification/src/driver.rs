//! The OTM8009A controller driver.
//!
//! The driver is generic over the three hardware capabilities and owns the
//! bring-up, orientation and power state machine together with a
//! bounds-checked pixel-operation facade. Every successful operation's
//! contract pins the exact trace of command transactions and delays put on
//! the DSI channel. A failure halts the sequence at the failing step: the
//! contracts bound the emitted trace to a prefix of the intended sequence,
//! cut before the failed transaction, and `init` leaves the driver
//! uninitialized.

use vstd::prelude::*;

use crate::defs::{
    backlight_events, bring_up_events, bring_up_prefix_events, finish_events, format_events,
    height_for, madctl_param, orientation_events, pixel_format_for,
    sleep_events, valid_format_code, valid_orientation_code, wake_events, width_for,
    Otm8009aError, CMD_DELAY_MS, DISPLAY_OFF, DISPLAY_ON, DISPLAY_ON_DELAY_MS, ENTER_ORISE_CMD2,
    LCD_HEIGHT, LCD_WIDTH, NOP, OTM8009A_FORMAT_RGB565, OTM8009A_FORMAT_RGB666,
    OTM8009A_FORMAT_RGB888, OTM8009A_ORIENTATION_LANDSCAPE, OTM8009A_ORIENTATION_LANDSCAPE_FLIPPED,
    OTM8009A_ORIENTATION_PORTRAIT, OTM8009A_ORIENTATION_PORTRAIT_FLIPPED, RESET_DELAY_MS,
    SET_COLUMN_ADDRESS, SET_EXTC, SET_GAMMA_CTRL1, SET_GAMMA_CTRL2, SET_MEMORY_ACCESS_CONTROL,
    SET_PAGE_ADDRESS, SET_PIXEL_FORMAT, SET_VCOM_CTRL1, SLEEP_IN, SLEEP_OUT, SLEEP_OUT_DELAY_MS,
    WRITE_CABC, WRITE_CABC_MIN_BRIGHTNESS, WRITE_CTRL_DISPLAY,
};
use crate::traits::{
    delayed, extends_by_prefix_of, extends_by_strict_prefix_of, filled_rect, lemma_extends_chain,
    lemma_extends_complete, lemma_extends_widen, sent, DsiEvent, DsiInterface,
    FramebufferInterface, LayerConfig, LtdcInterface, PixelFormat,
};

verus! {

/// The layer configuration `init` derives and programs: a full-size window
/// at the current dimensions, the pixel format for the color format code,
/// opaque constant alpha, and the pixel buffer's address with a
/// two-bytes-per-pixel row pitch.
pub open spec fn initial_layer_config(cf: u32, width: u16, height: u16, addr: u32) -> LayerConfig {
    LayerConfig {
        layer: 0,
        window_x0: 0,
        window_x1: width,
        window_y0: 0,
        window_y1: height,
        pixel_format: pixel_format_for(cf),
        alpha: 255,
        red_blue_swap: false,
        framebuffer_address: addr,
        framebuffer_pitch: ((width as int) * 2) as u16,
    }
}

/// The driver's observable state: whether a full `init` has completed, and
/// the current dimensions.
pub struct DriverView {
    pub initialized: bool,
    pub width: u16,
    pub height: u16,
}

/// Driver for the OTM8009A display controller, generic over the DSI
/// channel, the LTDC layer manager and the pixel buffer it runs over.
pub struct OTM8009ADriver<D, L, F> where
    D: DsiInterface,
    L: LtdcInterface,
    F: FramebufferInterface,
 {
    dsi: D,
    ltdc: L,
    framebuffer: F,
    width: u16,
    height: u16,
    initialized: bool,
}

impl<D, L, F> View for OTM8009ADriver<D, L, F> where
    D: DsiInterface,
    L: LtdcInterface,
    F: FramebufferInterface,
 {
    type V = DriverView;

    closed spec fn view(&self) -> DriverView {
        DriverView { initialized: self.initialized, width: self.width, height: self.height }
    }
}

impl<D, L, F> OTM8009ADriver<D, L, F> where
    D: DsiInterface,
    L: LtdcInterface,
    F: FramebufferInterface,
 {
    /// The DSI channel capability.
    pub closed spec fn chan(&self) -> D {
        self.dsi
    }

    /// The layer manager capability.
    pub closed spec fn layer_mgr(&self) -> L {
        self.ltdc
    }

    /// The pixel buffer capability.
    pub closed spec fn fb(&self) -> F {
        self.framebuffer
    }

    /// The trace of transactions and delays on the DSI channel.
    pub open spec fn dsi_history(&self) -> Seq<DsiEvent> {
        self.chan().history()
    }

    /// The pixel contents of the bound buffer.
    pub open spec fn fb_pixels(&self) -> Seq<u16> {
        self.fb().pixels()
    }

    /// The bound buffer's width in pixels.
    pub open spec fn fb_width(&self) -> u16 {
        self.fb().width()
    }

    /// The bound buffer's height in pixels.
    pub open spec fn fb_height(&self) -> u16 {
        self.fb().height()
    }

    /// The current dimensions are one of the two permutations of the
    /// native resolution.
    pub open spec fn dims_ok(&self) -> bool {
        (self@.width == LCD_WIDTH && self@.height == LCD_HEIGHT) || (self@.width == LCD_HEIGHT
            && self@.height == LCD_WIDTH)
    }

    /// Driver well-formedness: valid dimensions and well-formed
    /// capabilities.
    pub open spec fn wf(&self) -> bool {
        self.dims_ok() && self.fb().inv() && self.layer_mgr().inv()
    }

    /// The layer-manager states a failed `init` can leave behind. The
    /// programming order is configure, set-framebuffer, enable, halting at
    /// the first failure, so either nothing took effect, or layer 0 holds
    /// `config`, or layer 0 holds `config` and its framebuffer address is
    /// `addr`; the enable step is last and never takes effect on failure.
    pub open spec fn ltdc_aborted_init(
        pre: Self,
        post: Self,
        config: LayerConfig,
        addr: u32,
    ) -> bool {
        &&& post.layer_mgr().enabled() == pre.layer_mgr().enabled()
        &&& {
            ||| (post.layer_mgr().layers() == pre.layer_mgr().layers()
                && post.layer_mgr().framebuffers() == pre.layer_mgr().framebuffers())
            ||| (post.layer_mgr().layers() == pre.layer_mgr().layers().insert(0, config)
                && post.layer_mgr().framebuffers() == pre.layer_mgr().framebuffers())
            ||| (post.layer_mgr().layers() == pre.layer_mgr().layers().insert(0, config)
                && post.layer_mgr().framebuffers() == pre.layer_mgr().framebuffers().insert(
                0,
                addr,
            ))
        }
    }

    /// Construct a driver over the three capabilities. The driver starts
    /// uninitialized at the native landscape resolution.
    pub fn new(dsi: D, ltdc: L, framebuffer: F) -> (d: Self)
        requires
            framebuffer.inv(),
            ltdc.inv(),
        ensures
            d.wf(),
            !d@.initialized,
            d@.width == LCD_WIDTH,
            d@.height == LCD_HEIGHT,
            d.chan() == dsi,
            d.layer_mgr() == ltdc,
            d.fb() == framebuffer,
    {
        OTM8009ADriver {
            dsi,
            ltdc,
            framebuffer,
            width: LCD_WIDTH,
            height: LCD_HEIGHT,
            initialized: false,
        }
    }

    /// Send one command transaction, mapping a channel failure to
    /// `CommError`.
    fn send(&mut self, cmd: u8, params: &[u8]) -> (r: Result<(), Otm8009aError>)
        ensures
            final(self)@ == old(self)@,
            final(self).fb() == old(self).fb(),
            final(self).layer_mgr() == old(self).layer_mgr(),
            r is Ok ==> final(self).dsi_history() == old(self).dsi_history().push(
                sent(cmd, params@),
            ),
            r is Err ==> r == Err::<(), Otm8009aError>(Otm8009aError::CommError) && final(self).dsi_history() == old(self).dsi_history(),
    {
        match self.dsi.send_dcs_command(cmd, params) {
            Ok(()) => Ok(()),
            Err(_) => Err(Otm8009aError::CommError),
        }
    }

    /// Whether a full `init` has completed since construction or the last
    /// `reset`.
    pub fn is_initialized(&self) -> (r: bool)
        ensures
            r == self@.initialized,
    {
        self.initialized
    }

    /// The current dimensions, as set by the last orientation change.
    pub fn get_dimensions(&self) -> (r: (u16, u16))
        ensures
            r == (self@.width, self@.height),
    {
        (self.width, self.height)
    }

    /// Whether the DSI channel reports itself ready.
    pub fn is_dsi_ready(&self) -> (r: bool)
        ensures
            r == self.chan().ready(),
    {
        self.dsi.is_ready()
    }

    /// Shared access to the bound pixel buffer.
    pub fn framebuffer(&self) -> (fb: &F)
        ensures
            *fb == self.fb(),
    {
        &self.framebuffer
    }

    /// Mutable access to the bound pixel buffer, for direct pixel
    /// operations that bypass the facade's coordinate validation.
    pub fn framebuffer_mut(&mut self) -> (fb: &mut F)
        ensures
            *fb == old(self).fb(),
            final(self).fb() == *final(fb),
            final(self)@ == old(self)@,
            final(self).chan() == old(self).chan(),
            final(self).layer_mgr() == old(self).layer_mgr(),
    {
        &mut self.framebuffer
    }

    /// Shared access to the DSI channel capability.
    pub fn channel(&self) -> (c: &D)
        ensures
            *c == self.chan(),
    {
        &self.dsi
    }

    /// Shared access to the layer manager capability.
    pub fn layer_manager(&self) -> (l: &L)
        ensures
            *l == self.layer_mgr(),
    {
        &self.ltdc
    }

    /// Send the orientation command triple and update the dimensions.
    /// Shared by `set_orientation` and `init`, which runs it before the
    /// driver is marked ready.
    fn apply_orientation(&mut self, orientation: u32) -> (r: Result<(), Otm8009aError>)
        requires
            old(self).wf(),
        ensures
            final(self).wf(),
            final(self)@.initialized == old(self)@.initialized,
            final(self).fb() == old(self).fb(),
            final(self).layer_mgr() == old(self).layer_mgr(),
            !valid_orientation_code(orientation) ==> r == Err::<(), Otm8009aError>(
                Otm8009aError::InvalidConfig,
            ) && final(self)@ == old(self)@ && final(self).dsi_history() == old(self).dsi_history(),
            r is Ok ==> valid_orientation_code(orientation) && final(self).dsi_history() == old(self).dsi_history() + orientation_events(orientation) && final(self)@.width == width_for(
                orientation,
            ) && final(self)@.height == height_for(orientation),
            r is Err ==> (r == Err::<(), Otm8009aError>(Otm8009aError::InvalidConfig) || r
                == Err::<(), Otm8009aError>(Otm8009aError::CommError)) && final(self)@ == old(self)@,
            valid_orientation_code(orientation) && r is Err ==> r == Err::<(), Otm8009aError>(
                Otm8009aError::CommError,
            ) && extends_by_strict_prefix_of(
                old(self).dsi_history(),
                final(self).dsi_history(),
                orientation_events(orientation),
            ),
    {
        if orientation > 3 {
            return Err(Otm8009aError::InvalidConfig);
        }
        let mac: u8 = if orientation == OTM8009A_ORIENTATION_PORTRAIT {
            0x00
        } else if orientation == OTM8009A_ORIENTATION_LANDSCAPE {
            0x60
        } else if orientation == OTM8009A_ORIENTATION_PORTRAIT_FLIPPED {
            0xC0
        } else {
            0xA0
        };
        assert(mac == madctl_param(orientation));
        let landscape = orientation == OTM8009A_ORIENTATION_LANDSCAPE || orientation
            == OTM8009A_ORIENTATION_LANDSCAPE_FLIPPED;
        let caset: [u8; 4] = if landscape {
            [0x00, 0x00, 0x03, 0x1F]
        } else {
            [0x00, 0x00, 0x01, 0xDF]
        };
        let paset: [u8; 4] = if landscape {
            [0x00, 0x00, 0x01, 0xDF]
        } else {
            [0x00, 0x00, 0x03, 0x1F]
        };
        match self.send(SET_MEMORY_ACCESS_CONTROL, &[mac]) {
            Ok(()) => {},
            Err(e) => {
                proof {
                    assert(self.dsi_history() =~~= old(self).dsi_history() + orientation_events(
                        orientation,
                    ).take(0));
                }
                return Err(e);
            },
        }
        match self.send(SET_COLUMN_ADDRESS, &caset) {
            Ok(()) => {},
            Err(e) => {
                proof {
                    assert(self.dsi_history() =~~= old(self).dsi_history() + orientation_events(
                        orientation,
                    ).take(1));
                }
                return Err(e);
            },
        }
        match self.send(SET_PAGE_ADDRESS, &paset) {
            Ok(()) => {},
            Err(e) => {
                proof {
                    assert(self.dsi_history() =~~= old(self).dsi_history() + orientation_events(
                        orientation,
                    ).take(2));
                }
                return Err(e);
            },
        }
        if landscape {
            self.width = LCD_WIDTH;
            self.height = LCD_HEIGHT;
        } else {
            self.width = LCD_HEIGHT;
            self.height = LCD_WIDTH;
        }
        proof {
            assert(self.dsi_history() =~~= old(self).dsi_history() + orientation_events(
                orientation,
            ));
        }
        Ok(())
    }

    /// Change the display orientation. Requires a ready driver; sends the
    /// memory-access-control, column-address and page-address commands in
    /// order, then updates the dimensions: the native wide-by-short
    /// resolution for the two landscape variants, the swapped resolution
    /// for the two portrait variants. An unknown orientation code yields
    /// `InvalidConfig` with no commands sent and no dimension change.
    pub fn set_orientation(&mut self, orientation: u32) -> (r: Result<(), Otm8009aError>)
        requires
            old(self).wf(),
        ensures
            final(self).wf(),
            final(self)@.initialized == old(self)@.initialized,
            final(self).fb() == old(self).fb(),
            final(self).layer_mgr() == old(self).layer_mgr(),
            !old(self)@.initialized ==> r == Err::<(), Otm8009aError>(Otm8009aError::NotReady)
                && final(self)@ == old(self)@ && final(self).dsi_history() == old(self).dsi_history(),
            old(self)@.initialized && !valid_orientation_code(orientation) ==> r == Err::<
                (),
                Otm8009aError,
            >(Otm8009aError::InvalidConfig) && final(self)@ == old(self)@ && final(self).dsi_history() == old(self).dsi_history(),
            r is Ok ==> old(self)@.initialized && valid_orientation_code(orientation) && final(self).dsi_history() == old(self).dsi_history() + orientation_events(orientation) && final(self)@.width == width_for(orientation) && final(self)@.height == height_for(orientation),
            r is Err ==> final(self)@ == old(self)@,
            old(self)@.initialized && valid_orientation_code(orientation) && r is Err ==> r
                == Err::<(), Otm8009aError>(Otm8009aError::CommError)
                && extends_by_strict_prefix_of(
                old(self).dsi_history(),
                final(self).dsi_history(),
                orientation_events(orientation),
            ),
    {
        if !self.initialized {
            return Err(Otm8009aError::NotReady);
        }
        self.apply_orientation(orientation)
    }

    /// Send the fixed vendor bring-up prefix: unlock, vendor mode 2
    /// entry, GVDD/NGVDD trim, vendor mode 2 exit, a no-op, both gamma
    /// tables, and sleep-out, with the mandated delays.
    fn send_bring_up_prefix(&mut self) -> (r: Result<(), Otm8009aError>)
        ensures
            final(self)@ == old(self)@,
            final(self).fb() == old(self).fb(),
            final(self).layer_mgr() == old(self).layer_mgr(),
            r is Ok ==> final(self).dsi_history() == old(self).dsi_history()
                + bring_up_prefix_events(),
            r is Err ==> r == Err::<(), Otm8009aError>(Otm8009aError::CommError)
                && extends_by_strict_prefix_of(
                old(self).dsi_history(),
                final(self).dsi_history(),
                bring_up_prefix_events(),
            ),
    {
        match self.send(SET_EXTC, &[0x80, 0x09, 0x01]) {
            Ok(()) => {},
            Err(e) => {
                proof {
                    assert(self.dsi_history() =~~= old(self).dsi_history() + bring_up_prefix_events().take(
                        0,
                    ));
                }
                return Err(e);
            },
        }
        self.dsi.delay_ms(CMD_DELAY_MS);
        match self.send(ENTER_ORISE_CMD2, &[0x09, 0x00]) {
            Ok(()) => {},
            Err(e) => {
                proof {
                    assert(self.dsi_history() =~~= old(self).dsi_history() + bring_up_prefix_events().take(
                        2,
                    ));
                }
                return Err(e);
            },
        }
        self.dsi.delay_ms(CMD_DELAY_MS);
        match self.send(SET_VCOM_CTRL1, &[0x17, 0x40]) {
            Ok(()) => {},
            Err(e) => {
                proof {
                    assert(self.dsi_history() =~~= old(self).dsi_history() + bring_up_prefix_events().take(
                        4,
                    ));
                }
                return Err(e);
            },
        }
        self.dsi.delay_ms(CMD_DELAY_MS);
        match self.send(SET_EXTC, &[0x00, 0x00, 0x00]) {
            Ok(()) => {},
            Err(e) => {
                proof {
                    assert(self.dsi_history() =~~= old(self).dsi_history() + bring_up_prefix_events().take(
                        6,
                    ));
                }
                return Err(e);
            },
        }
        self.dsi.delay_ms(CMD_DELAY_MS);
        match self.send(NOP, &[]) {
            Ok(()) => {},
            Err(e) => {
                proof {
                    assert(self.dsi_history() =~~= old(self).dsi_history() + bring_up_prefix_events().take(
                        8,
                    ));
                }
                return Err(e);
            },
        }
        self.dsi.delay_ms(CMD_DELAY_MS);
        let gamma: [u8; 16] = [
            0x00,
            0x09,
            0x0F,
            0x0E,
            0x07,
            0x10,
            0x0B,
            0x0A,
            0x04,
            0x07,
            0x0B,
            0x08,
            0x0F,
            0x10,
            0x0A,
            0x01,
        ];
        match self.send(SET_GAMMA_CTRL1, &gamma) {
            Ok(()) => {},
            Err(e) => {
                proof {
                    assert(self.dsi_history() =~~= old(self).dsi_history() + bring_up_prefix_events().take(
                        10,
                    ));
                }
                return Err(e);
            },
        }
        match self.send(SET_GAMMA_CTRL2, &gamma) {
            Ok(()) => {},
            Err(e) => {
                proof {
                    assert(self.dsi_history() =~~= old(self).dsi_history() + bring_up_prefix_events().take(
                        11,
                    ));
                }
                return Err(e);
            },
        }
        self.dsi.delay_ms(CMD_DELAY_MS);
        match self.send(SLEEP_OUT, &[]) {
            Ok(()) => {},
            Err(e) => {
                proof {
                    assert(self.dsi_history() =~~= old(self).dsi_history() + bring_up_prefix_events().take(
                        13,
                    ));
                }
                return Err(e);
            },
        }
        self.dsi.delay_ms(SLEEP_OUT_DELAY_MS);
        proof {
            assert(self.dsi_history() =~~= old(self).dsi_history() + bring_up_prefix_events());
        }
        Ok(())
    }

    /// Send the color-format select transaction with its delay.
    fn send_color_format(&mut self, color_format: u32) -> (r: Result<(), Otm8009aError>)
        requires
            valid_format_code(color_format),
        ensures
            final(self)@ == old(self)@,
            final(self).fb() == old(self).fb(),
            final(self).layer_mgr() == old(self).layer_mgr(),
            r is Ok ==> final(self).dsi_history() == old(self).dsi_history() + format_events(
                color_format,
            ),
            r is Err ==> r == Err::<(), Otm8009aError>(Otm8009aError::CommError) && final(self).dsi_history() == old(self).dsi_history(),
    {
        let format_code: u8 = if color_format == OTM8009A_FORMAT_RGB565 {
            0x55
        } else if color_format == OTM8009A_FORMAT_RGB666 {
            0x66
        } else {
            0x77
        };
        assert(format_code == color_format as u8);
        match self.send(SET_PIXEL_FORMAT, &[format_code]) {
            Ok(()) => {},
            Err(e) => {
                return Err(e);
            },
        }
        self.dsi.delay_ms(CMD_DELAY_MS);
        proof {
            assert(self.dsi_history() =~~= old(self).dsi_history() + format_events(color_format));
        }
        Ok(())
    }

    /// Program the default backlight-control, adaptive-backlight and
    /// minimum-brightness values.
    fn send_backlight_defaults(&mut self) -> (r: Result<(), Otm8009aError>)
        ensures
            final(self)@ == old(self)@,
            final(self).fb() == old(self).fb(),
            final(self).layer_mgr() == old(self).layer_mgr(),
            r is Ok ==> final(self).dsi_history() == old(self).dsi_history() + backlight_events(),
            r is Err ==> r == Err::<(), Otm8009aError>(Otm8009aError::CommError)
                && extends_by_strict_prefix_of(
                old(self).dsi_history(),
                final(self).dsi_history(),
                backlight_events(),
            ),
    {
        match self.send(WRITE_CTRL_DISPLAY, &[0x24]) {
            Ok(()) => {},
            Err(e) => {
                proof {
                    assert(self.dsi_history() =~~= old(self).dsi_history() + backlight_events().take(
                        0,
                    ));
                }
                return Err(e);
            },
        }
        match self.send(WRITE_CABC, &[0x00]) {
            Ok(()) => {},
            Err(e) => {
                proof {
                    assert(self.dsi_history() =~~= old(self).dsi_history() + backlight_events().take(
                        1,
                    ));
                }
                return Err(e);
            },
        }
        match self.send(WRITE_CABC_MIN_BRIGHTNESS, &[0x00]) {
            Ok(()) => {},
            Err(e) => {
                proof {
                    assert(self.dsi_history() =~~= old(self).dsi_history() + backlight_events().take(
                        2,
                    ));
                }
                return Err(e);
            },
        }
        self.dsi.delay_ms(CMD_DELAY_MS);
        proof {
            assert(self.dsi_history() =~~= old(self).dsi_history() + backlight_events());
        }
        Ok(())
    }

    /// Issue display-on with its settle delay, then the two terminating
    /// no-ops the command protocol requires.
    fn send_finish(&mut self) -> (r: Result<(), Otm8009aError>)
        ensures
            final(self)@ == old(self)@,
            final(self).fb() == old(self).fb(),
            final(self).layer_mgr() == old(self).layer_mgr(),
            r is Ok ==> final(self).dsi_history() == old(self).dsi_history() + finish_events(),
            r is Err ==> r == Err::<(), Otm8009aError>(Otm8009aError::CommError)
                && extends_by_strict_prefix_of(
                old(self).dsi_history(),
                final(self).dsi_history(),
                finish_events(),
            ),
    {
        match self.send(DISPLAY_ON, &[]) {
            Ok(()) => {},
            Err(e) => {
                proof {
                    assert(self.dsi_history() =~~= old(self).dsi_history() + finish_events().take(
                        0,
                    ));
                }
                return Err(e);
            },
        }
        self.dsi.delay_ms(DISPLAY_ON_DELAY_MS);
        match self.send(NOP, &[]) {
            Ok(()) => {},
            Err(e) => {
                proof {
                    assert(self.dsi_history() =~~= old(self).dsi_history() + finish_events().take(
                        2,
                    ));
                }
                return Err(e);
            },
        }
        match self.send(NOP, &[]) {
            Ok(()) => {},
            Err(e) => {
                proof {
                    assert(self.dsi_history() =~~= old(self).dsi_history() + finish_events().take(
                        3,
                    ));
                }
                return Err(e);
            },
        }
        proof {
            assert(self.dsi_history() =~~= old(self).dsi_history() + finish_events());
        }
        Ok(())
    }

    /// Run the fixed bring-up command sequence: the vendor prefix, the
    /// color-format select, the orientation triple (which also establishes
    /// the dimensions), the default backlight programming, and display-on
    /// with the terminating no-ops.
    /// Run the fixed bring-up command sequence: the vendor prefix, the
    /// color-format select, the orientation triple (which also establishes
    /// the dimensions), the default backlight programming, and display-on
    /// with the terminating no-ops. A failure halts the sequence at once:
    /// the trace then holds a strict prefix of the bring-up sequence.
    fn init_otm8009a(&mut self, color_format: u32, orientation: u32) -> (r: Result<
        (),
        Otm8009aError,
    >)
        requires
            old(self).wf(),
            valid_format_code(color_format),
        ensures
            final(self).wf(),
            final(self)@.initialized == old(self)@.initialized,
            final(self).fb() == old(self).fb(),
            final(self).layer_mgr() == old(self).layer_mgr(),
            r is Ok ==> valid_orientation_code(orientation) && final(self).dsi_history() == old(self).dsi_history() + bring_up_events(color_format, orientation) && final(self)@.width
                == width_for(orientation) && final(self)@.height == height_for(orientation),
            r is Err ==> (r == Err::<(), Otm8009aError>(Otm8009aError::InvalidConfig) || r
                == Err::<(), Otm8009aError>(Otm8009aError::CommError))
                && extends_by_strict_prefix_of(
                old(self).dsi_history(),
                final(self).dsi_history(),
                bring_up_events(color_format, orientation),
            ),
            valid_orientation_code(orientation) && r is Err ==> r == Err::<(), Otm8009aError>(
                Otm8009aError::CommError,
            ),
    {
        let ghost h0 = self.dsi_history();
        let ghost ev_prefix = bring_up_prefix_events();
        let ghost ev_format = format_events(color_format);
        let ghost ev_orient = orientation_events(orientation);
        let ghost ev_back = backlight_events();
        let ghost ev_fin = finish_events();
        let ghost ev_all = bring_up_events(color_format, orientation);
        match self.send_bring_up_prefix() {
            Ok(()) => {},
            Err(e) => {
                proof {
                    lemma_extends_widen(
                        h0,
                        self.dsi_history(),
                        ev_prefix,
                        ev_format + ev_orient + ev_back + ev_fin,
                    );
                    assert(ev_prefix + (ev_format + ev_orient + ev_back + ev_fin) =~~= ev_all);
                }
                return Err(e);
            },
        }
        match self.send_color_format(color_format) {
            Ok(()) => {},
            Err(e) => {
                proof {
                    lemma_extends_complete(
                        h0,
                        self.dsi_history(),
                        ev_prefix,
                        ev_format + ev_orient + ev_back + ev_fin,
                    );
                    assert(ev_prefix + (ev_format + ev_orient + ev_back + ev_fin) =~~= ev_all);
                }
                return Err(e);
            },
        }
        let ghost h2 = self.dsi_history();
        match self.apply_orientation(orientation) {
            Ok(()) => {},
            Err(e) => {
                proof {
                    assert(h2 =~~= h0 + (ev_prefix + ev_format));
                    if valid_orientation_code(orientation) {
                        lemma_extends_chain(
                            h0,
                            h2,
                            self.dsi_history(),
                            ev_prefix + ev_format,
                            ev_orient,
                        );
                        lemma_extends_widen(
                            h0,
                            self.dsi_history(),
                            (ev_prefix + ev_format) + ev_orient,
                            ev_back + ev_fin,
                        );
                        assert(((ev_prefix + ev_format) + ev_orient) + (ev_back + ev_fin)
                            =~~= ev_all);
                    } else {
                        lemma_extends_complete(
                            h0,
                            self.dsi_history(),
                            ev_prefix + ev_format,
                            ev_orient + ev_back + ev_fin,
                        );
                        assert((ev_prefix + ev_format) + (ev_orient + ev_back + ev_fin)
                            =~~= ev_all);
                    }
                }
                return Err(e);
            },
        }
        let ghost h3 = self.dsi_history();
        match self.send_backlight_defaults() {
            Ok(()) => {},
            Err(e) => {
                proof {
                    assert(h3 =~~= h0 + ((ev_prefix + ev_format) + ev_orient));
                    lemma_extends_chain(
                        h0,
                        h3,
                        self.dsi_history(),
                        (ev_prefix + ev_format) + ev_orient,
                        ev_back,
                    );
                    lemma_extends_widen(
                        h0,
                        self.dsi_history(),
                        ((ev_prefix + ev_format) + ev_orient) + ev_back,
                        ev_fin,
                    );
                    assert((((ev_prefix + ev_format) + ev_orient) + ev_back) + ev_fin =~~= ev_all);
                }
                return Err(e);
            },
        }
        let ghost h4 = self.dsi_history();
        match self.send_finish() {
            Ok(()) => {},
            Err(e) => {
                proof {
                    assert(h4 =~~= h0 + (((ev_prefix + ev_format) + ev_orient) + ev_back));
                    lemma_extends_chain(
                        h0,
                        h4,
                        self.dsi_history(),
                        ((ev_prefix + ev_format) + ev_orient) + ev_back,
                        ev_fin,
                    );
                    assert((((ev_prefix + ev_format) + ev_orient) + ev_back) + ev_fin =~~= ev_all);
                }
                return Err(e);
            },
        }
        proof {
            assert(self.dsi_history() =~~= h0 + ev_all);
        }
        Ok(())
    }

    /// Bring the panel up: validate the color format, run the bring-up
    /// sequence, derive and program the compositing layer from the current
    /// dimensions and the pixel buffer's address, enable the output
    /// pipeline, and mark the driver ready. Any failure at any step
    /// surfaces its error and leaves the driver uninitialized.
    pub fn init(&mut self, color_format: u32, orientation: u32) -> (r: Result<(), Otm8009aError>)
        requires
            old(self).wf(),
        ensures
            final(self).wf(),
            final(self).fb() == old(self).fb(),
            !valid_format_code(color_format) ==> r == Err::<(), Otm8009aError>(
                Otm8009aError::InvalidConfig,
            ) && final(self).dsi_history() == old(self).dsi_history() && final(self).layer_mgr()
                == old(self).layer_mgr() && final(self)@.width == old(self)@.width && final(self)@.height == old(self)@.height,
            r is Ok ==> valid_format_code(color_format) && valid_orientation_code(orientation)
                && final(self)@.initialized && final(self)@.width == width_for(orientation)
                && final(self)@.height == height_for(orientation) && final(self).dsi_history()
                == old(self).dsi_history() + bring_up_events(color_format, orientation) && final(self).layer_mgr().layers() == old(self).layer_mgr().layers().insert(
                0,
                initial_layer_config(
                    color_format,
                    width_for(orientation),
                    height_for(orientation),
                    old(self).fb().buffer_address(),
                ),
            ) && final(self).layer_mgr().framebuffers() == old(self).layer_mgr().framebuffers().insert(0, old(self).fb().buffer_address()) && final(self).layer_mgr().enabled(),
            r is Err ==> !final(self)@.initialized && (r == Err::<(), Otm8009aError>(
                Otm8009aError::InvalidConfig,
            ) || r == Err::<(), Otm8009aError>(Otm8009aError::CommError)),
            r is Err ==> extends_by_prefix_of(
                old(self).dsi_history(),
                final(self).dsi_history(),
                bring_up_events(color_format, orientation),
            ) && Self::ltdc_aborted_init(
                *old(self),
                *final(self),
                initial_layer_config(
                    color_format,
                    width_for(orientation),
                    height_for(orientation),
                    old(self).fb().buffer_address(),
                ),
                old(self).fb().buffer_address(),
            ),
            valid_format_code(color_format) && valid_orientation_code(orientation) && r is Err
                ==> r == Err::<(), Otm8009aError>(Otm8009aError::CommError),
    {
        self.initialized = false;
        if !(color_format == OTM8009A_FORMAT_RGB565 || color_format == OTM8009A_FORMAT_RGB666
            || color_format == OTM8009A_FORMAT_RGB888) {
            proof {
                assert(self.dsi_history() =~~= old(self).dsi_history() + bring_up_events(
                    color_format,
                    orientation,
                ).take(0));
            }
            return Err(Otm8009aError::InvalidConfig);
        }
        match self.init_otm8009a(color_format, orientation) {
            Ok(()) => {},
            Err(e) => {
                return Err(e);
            },
        }
        let addr = self.framebuffer.get_buffer_address();
        assert(self.dims_ok());
        let pitch: u16 = self.width * 2;
        let pixel_format = if color_format == OTM8009A_FORMAT_RGB565 {
            PixelFormat::Rgb565
        } else {
            PixelFormat::Rgb888
        };
        let config = LayerConfig {
            layer: 0,
            window_x0: 0,
            window_x1: self.width,
            window_y0: 0,
            window_y1: self.height,
            pixel_format,
            alpha: 255,
            red_blue_swap: false,
            framebuffer_address: addr,
            framebuffer_pitch: pitch,
        };
        assert(config == initial_layer_config(
            color_format,
            width_for(orientation),
            height_for(orientation),
            old(self).fb().buffer_address(),
        ));
        match self.ltdc.configure_layer(0, config) {
            Ok(()) => {},
            Err(_) => {
                return Err(Otm8009aError::CommError);
            },
        }
        match self.ltdc.set_framebuffer(0, addr) {
            Ok(()) => {},
            Err(_) => {
                return Err(Otm8009aError::CommError);
            },
        }
        match self.ltdc.enable() {
            Ok(()) => {},
            Err(_) => {
                return Err(Otm8009aError::CommError);
            },
        }
        self.initialized = true;
        Ok(())
    }

    /// Fill a rectangle through the facade. Requires a ready driver and a
    /// top-left coordinate strictly inside the current dimensions; the
    /// extent itself is then clipped by the buffer, not rejected.
    pub fn fill_rect(&mut self, x: u16, y: u16, width: u16, height: u16, color: u16) -> (r: Result<
        (),
        Otm8009aError,
    >)
        requires
            old(self).wf(),
        ensures
            final(self).wf(),
            final(self)@ == old(self)@,
            final(self).chan() == old(self).chan(),
            final(self).layer_mgr() == old(self).layer_mgr(),
            final(self).fb_width() == old(self).fb_width(),
            final(self).fb_height() == old(self).fb_height(),
            !old(self)@.initialized ==> r == Err::<(), Otm8009aError>(Otm8009aError::NotReady)
                && final(self).fb() == old(self).fb(),
            old(self)@.initialized && (x >= old(self)@.width || y >= old(self)@.height) ==> r
                == Err::<(), Otm8009aError>(Otm8009aError::InvalidCoordinates) && final(self).fb()
                == old(self).fb(),
            old(self)@.initialized && x < old(self)@.width && y < old(self)@.height ==> r
                is Ok && final(self).fb_pixels() == filled_rect(
                old(self).fb_pixels(),
                old(self).fb_width() as int,
                x as int,
                y as int,
                width as int,
                height as int,
                color,
            ),
    {
        if !self.initialized {
            return Err(Otm8009aError::NotReady);
        }
        if x >= self.width || y >= self.height {
            return Err(Otm8009aError::InvalidCoordinates);
        }
        self.framebuffer.fill_rect(x, y, width, height, color);
        Ok(())
    }

    /// Set one pixel through the facade. Requires a ready driver and a
    /// coordinate strictly inside the current dimensions; the buffer then
    /// applies its own silent-no-op policy for coordinates outside itself.
    pub fn set_pixel(&mut self, x: u16, y: u16, color: u16) -> (r: Result<(), Otm8009aError>)
        requires
            old(self).wf(),
        ensures
            final(self).wf(),
            final(self)@ == old(self)@,
            final(self).chan() == old(self).chan(),
            final(self).layer_mgr() == old(self).layer_mgr(),
            final(self).fb_width() == old(self).fb_width(),
            final(self).fb_height() == old(self).fb_height(),
            !old(self)@.initialized ==> r == Err::<(), Otm8009aError>(Otm8009aError::NotReady)
                && final(self).fb() == old(self).fb(),
            old(self)@.initialized && (x >= old(self)@.width || y >= old(self)@.height) ==> r
                == Err::<(), Otm8009aError>(Otm8009aError::InvalidCoordinates) && final(self).fb()
                == old(self).fb(),
            old(self)@.initialized && x < old(self)@.width && y < old(self)@.height ==> r is Ok && (
            x < old(self).fb_width() && y < old(self).fb_height() ==> final(self).fb_pixels()
                == old(self).fb_pixels().update(
                y as int * old(self).fb_width() as int + x as int,
                color,
            )) && (!(x < old(self).fb_width() && y < old(self).fb_height()) ==> final(self).fb_pixels() == old(self).fb_pixels()),
    {
        if !self.initialized {
            return Err(Otm8009aError::NotReady);
        }
        if x >= self.width || y >= self.height {
            return Err(Otm8009aError::InvalidCoordinates);
        }
        self.framebuffer.set_pixel(x, y, color);
        Ok(())
    }

    /// Clear the whole buffer through the facade. Requires a ready driver.
    pub fn clear(&mut self, color: u16) -> (r: Result<(), Otm8009aError>)
        requires
            old(self).wf(),
        ensures
            final(self).wf(),
            final(self)@ == old(self)@,
            final(self).chan() == old(self).chan(),
            final(self).layer_mgr() == old(self).layer_mgr(),
            final(self).fb_width() == old(self).fb_width(),
            final(self).fb_height() == old(self).fb_height(),
            !old(self)@.initialized ==> r == Err::<(), Otm8009aError>(Otm8009aError::NotReady)
                && final(self).fb() == old(self).fb(),
            old(self)@.initialized ==> r is Ok && final(self).fb_pixels().len() == old(self).fb_pixels().len() && (forall|i: int|
                0 <= i < final(self).fb_pixels().len() ==> final(self).fb_pixels()[i] == color),
    {
        if !self.initialized {
            return Err(Otm8009aError::NotReady);
        }
        self.framebuffer.clear(color);
        Ok(())
    }

    /// Put the panel to sleep: display-off, settle, sleep-in, settle. The
    /// initialized flag is not altered.
    pub fn enter_sleep(&mut self) -> (r: Result<(), Otm8009aError>)
        requires
            old(self).wf(),
        ensures
            final(self).wf(),
            final(self)@ == old(self)@,
            final(self).fb() == old(self).fb(),
            final(self).layer_mgr() == old(self).layer_mgr(),
            !old(self)@.initialized ==> r == Err::<(), Otm8009aError>(Otm8009aError::NotReady)
                && final(self).dsi_history() == old(self).dsi_history(),
            r is Ok ==> old(self)@.initialized && final(self).dsi_history() == old(self).dsi_history() + sleep_events(),
            old(self)@.initialized && r is Err ==> r == Err::<(), Otm8009aError>(
                Otm8009aError::CommError,
            ) && extends_by_strict_prefix_of(
                old(self).dsi_history(),
                final(self).dsi_history(),
                sleep_events(),
            ),
    {
        if !self.initialized {
            return Err(Otm8009aError::NotReady);
        }
        match self.send(DISPLAY_OFF, &[]) {
            Ok(()) => {},
            Err(e) => {
                proof {
                    assert(self.dsi_history() =~~= old(self).dsi_history() + sleep_events().take(
                        0,
                    ));
                }
                return Err(e);
            },
        }
        self.dsi.delay_ms(DISPLAY_ON_DELAY_MS);
        match self.send(SLEEP_IN, &[]) {
            Ok(()) => {},
            Err(e) => {
                proof {
                    assert(self.dsi_history() =~~= old(self).dsi_history() + sleep_events().take(
                        2,
                    ));
                }
                return Err(e);
            },
        }
        self.dsi.delay_ms(SLEEP_OUT_DELAY_MS);
        proof {
            assert(self.dsi_history() =~~= old(self).dsi_history() + sleep_events());
        }
        Ok(())
    }

    /// Wake the panel: sleep-out, settle, display-on, settle. The
    /// initialized flag is not altered.
    pub fn exit_sleep(&mut self) -> (r: Result<(), Otm8009aError>)
        requires
            old(self).wf(),
        ensures
            final(self).wf(),
            final(self)@ == old(self)@,
            final(self).fb() == old(self).fb(),
            final(self).layer_mgr() == old(self).layer_mgr(),
            !old(self)@.initialized ==> r == Err::<(), Otm8009aError>(Otm8009aError::NotReady)
                && final(self).dsi_history() == old(self).dsi_history(),
            r is Ok ==> old(self)@.initialized && final(self).dsi_history() == old(self).dsi_history() + wake_events(),
            old(self)@.initialized && r is Err ==> r == Err::<(), Otm8009aError>(
                Otm8009aError::CommError,
            ) && extends_by_strict_prefix_of(
                old(self).dsi_history(),
                final(self).dsi_history(),
                wake_events(),
            ),
    {
        if !self.initialized {
            return Err(Otm8009aError::NotReady);
        }
        match self.send(SLEEP_OUT, &[]) {
            Ok(()) => {},
            Err(e) => {
                proof {
                    assert(self.dsi_history() =~~= old(self).dsi_history() + wake_events().take(
                        0,
                    ));
                }
                return Err(e);
            },
        }
        self.dsi.delay_ms(SLEEP_OUT_DELAY_MS);
        match self.send(DISPLAY_ON, &[]) {
            Ok(()) => {},
            Err(e) => {
                proof {
                    assert(self.dsi_history() =~~= old(self).dsi_history() + wake_events().take(
                        2,
                    ));
                }
                return Err(e);
            },
        }
        self.dsi.delay_ms(DISPLAY_ON_DELAY_MS);
        proof {
            assert(self.dsi_history() =~~= old(self).dsi_history() + wake_events());
        }
        Ok(())
    }

    /// Program the backlight brightness control value. Requires a ready
    /// driver.
    pub fn set_brightness(&mut self, brightness: u8) -> (r: Result<(), Otm8009aError>)
        requires
            old(self).wf(),
        ensures
            final(self).wf(),
            final(self)@ == old(self)@,
            final(self).fb() == old(self).fb(),
            final(self).layer_mgr() == old(self).layer_mgr(),
            !old(self)@.initialized ==> r == Err::<(), Otm8009aError>(Otm8009aError::NotReady)
                && final(self).dsi_history() == old(self).dsi_history(),
            r is Ok ==> old(self)@.initialized && final(self).dsi_history() == old(self).dsi_history().push(sent(WRITE_CTRL_DISPLAY, seq![brightness])),
            old(self)@.initialized && r is Err ==> r == Err::<(), Otm8009aError>(
                Otm8009aError::CommError,
            ) && final(self).dsi_history() == old(self).dsi_history(),
    {
        if !self.initialized {
            return Err(Otm8009aError::NotReady);
        }
        let r = self.send(WRITE_CTRL_DISPLAY, &[brightness]);
        proof {
            if r is Ok {
                assert(self.dsi_history() =~~= old(self).dsi_history().push(
                    sent(WRITE_CTRL_DISPLAY, seq![brightness]),
                ));
            }
        }
        r
    }

    /// Select a content-adaptive-backlight mode, 0 through 3. Requires a
    /// ready driver; a mode above 3 yields `InvalidConfig` with nothing
    /// sent.
    pub fn enable_cabc(&mut self, mode: u8) -> (r: Result<(), Otm8009aError>)
        requires
            old(self).wf(),
        ensures
            final(self).wf(),
            final(self)@ == old(self)@,
            final(self).fb() == old(self).fb(),
            final(self).layer_mgr() == old(self).layer_mgr(),
            !old(self)@.initialized ==> r == Err::<(), Otm8009aError>(Otm8009aError::NotReady)
                && final(self).dsi_history() == old(self).dsi_history(),
            old(self)@.initialized && mode > 3 ==> r == Err::<(), Otm8009aError>(
                Otm8009aError::InvalidConfig,
            ) && final(self).dsi_history() == old(self).dsi_history(),
            r is Ok ==> old(self)@.initialized && mode <= 3 && final(self).dsi_history() == old(self).dsi_history().push(sent(WRITE_CABC, seq![mode])),
            old(self)@.initialized && mode <= 3 && r is Err ==> r == Err::<(), Otm8009aError>(
                Otm8009aError::CommError,
            ) && final(self).dsi_history() == old(self).dsi_history(),
    {
        if !self.initialized {
            return Err(Otm8009aError::NotReady);
        }
        if mode > 3 {
            return Err(Otm8009aError::InvalidConfig);
        }
        let r = self.send(WRITE_CABC, &[mode]);
        proof {
            if r is Ok {
                assert(self.dsi_history() =~~= old(self).dsi_history().push(
                    sent(WRITE_CABC, seq![mode]),
                ));
            }
        }
        r
    }

    /// Turn content-adaptive backlight off by selecting mode 0.
    pub fn disable_cabc(&mut self) -> (r: Result<(), Otm8009aError>)
        requires
            old(self).wf(),
        ensures
            final(self).wf(),
            final(self)@ == old(self)@,
            final(self).fb() == old(self).fb(),
            final(self).layer_mgr() == old(self).layer_mgr(),
            !old(self)@.initialized ==> r == Err::<(), Otm8009aError>(Otm8009aError::NotReady)
                && final(self).dsi_history() == old(self).dsi_history(),
            r is Ok ==> old(self)@.initialized && final(self).dsi_history() == old(self).dsi_history().push(sent(WRITE_CABC, seq![0u8])),
            old(self)@.initialized && r is Err ==> r == Err::<(), Otm8009aError>(
                Otm8009aError::CommError,
            ) && final(self).dsi_history() == old(self).dsi_history(),
    {
        self.enable_cabc(0)
    }

    /// Reset the display: unconditionally reset the channel, apply the
    /// reset settle delay, and force the driver to uninitialized whatever
    /// state it was in.
    pub fn reset(&mut self) -> (r: Result<(), Otm8009aError>)
        requires
            old(self).wf(),
        ensures
            final(self).wf(),
            !final(self)@.initialized,
            final(self)@.width == old(self)@.width,
            final(self)@.height == old(self)@.height,
            final(self).fb() == old(self).fb(),
            final(self).layer_mgr() == old(self).layer_mgr(),
            r is Ok ==> final(self).dsi_history() == seq![delayed(RESET_DELAY_MS)],
            r is Err ==> r == Err::<(), Otm8009aError>(Otm8009aError::CommError) && final(self).dsi_history() == old(self).dsi_history().push(delayed(RESET_DELAY_MS)),
    {
        let result: Result<(), Otm8009aError> = match self.dsi.reset() {
            Ok(()) => Ok(()),
            Err(_) => Err(Otm8009aError::CommError),
        };
        self.dsi.delay_ms(RESET_DELAY_MS);
        self.initialized = false;
        proof {
            if result is Ok {
                assert(self.dsi_history() =~~= seq![delayed(RESET_DELAY_MS)]);
            } else {
                assert(self.dsi_history() =~~= old(self).dsi_history().push(
                    delayed(RESET_DELAY_MS),
                ));
            }
        }
        result
    }
}

} // verus!
