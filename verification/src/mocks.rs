//! Verified in-memory implementations of the three hardware capabilities.
//!
//! `MockDsiInterface` records every transaction and delay, so a test can
//! hold the driver's emitted trace against the wire-level contract;
//! `MockLtdcInterface` records the layer programming; `MockFramebuffer` is
//! the reference pixel buffer with the clipping fill and silent-no-op
//! pixel store. Each implementation is verified against its capability
//! contract, so the driver's proofs apply to a driver running over them.

use vstd::prelude::*;
use vstd::slice::slice_to_vec;

use crate::traits::{
    rect_covers, DsiEvent, DsiInterface, FramebufferInterface, LayerConfig, LtdcInterface,
    PlatformInterface,
};
use crate::defs::{LCD_HEIGHT, LCD_WIDTH};

verus! {

/// One recorded DCS transaction: the command byte and its parameter bytes.
#[derive(Debug, PartialEq, Eq)]
pub struct DcsCommand {
    pub cmd: u8,
    pub params: Vec<u8>,
}

/// One recorded channel action: a transaction or a delay.
#[derive(Debug, PartialEq, Eq)]
pub enum DcsLogEntry {
    Command(DcsCommand),
    Delay(u32),
}

impl View for DcsLogEntry {
    type V = DsiEvent;

    open spec fn view(&self) -> DsiEvent {
        match self {
            DcsLogEntry::Command(c) => DsiEvent::Sent { cmd: c.cmd, params: c.params@ },
            DcsLogEntry::Delay(ms) => DsiEvent::Delayed { ms: *ms },
        }
    }
}

/// Errors of the recording DSI channel.
#[derive(Clone, Copy, Debug, PartialEq, Eq, Structural)]
pub enum MockDsiError {
    NotReady,
    SimulatedFailure,
}

/// A DSI channel that records every transaction and delay instead of
/// talking to hardware. For exercising the driver's error paths,
/// `should_fail` makes every send and reset fail, `ready` gates sends, and
/// `send_limit` lets that many further sends succeed before every later
/// one fails, which makes a sequence fail at a chosen step.
#[derive(Debug)]
pub struct MockDsiInterface {
    pub log: Vec<DcsLogEntry>,
    pub should_fail: bool,
    pub ready: bool,
    pub send_limit: Option<usize>,
}

impl MockDsiInterface {
    /// A fresh, ready channel with an empty trace.
    pub fn new() -> (m: Self)
        ensures
            m.history() == Seq::<DsiEvent>::empty(),
            m.ready(),
            !m.should_fail,
            m.send_limit is None,
    {
        let m = MockDsiInterface {
            log: Vec::new(),
            should_fail: false,
            ready: true,
            send_limit: None,
        };
        proof {
            assert(m.history() =~~= Seq::<DsiEvent>::empty());
        }
        m
    }

    /// Make every subsequent send and reset fail, or succeed again.
    pub fn set_should_fail(&mut self, fail: bool)
        ensures
            final(self).should_fail == fail,
            final(self).ready == old(self).ready,
            final(self).history() == old(self).history(),
    {
        self.should_fail = fail;
    }

    /// Let `limit` further sends succeed before every later one fails, or
    /// lift the limit with `None`.
    pub fn set_send_limit(&mut self, limit: Option<usize>)
        ensures
            final(self).send_limit == limit,
            final(self).ready == old(self).ready,
            final(self).should_fail == old(self).should_fail,
            final(self).history() == old(self).history(),
    {
        self.send_limit = limit;
    }

    /// Set the readiness the channel reports.
    pub fn set_ready(&mut self, ready: bool)
        ensures
            final(self).ready == ready,
            final(self).should_fail == old(self).should_fail,
            final(self).history() == old(self).history(),
    {
        self.ready = ready;
    }

    /// Forget the recorded trace.
    pub fn clear_history(&mut self)
        ensures
            final(self).history() == Seq::<DsiEvent>::empty(),
            final(self).ready == old(self).ready,
            final(self).should_fail == old(self).should_fail,
    {
        self.log.clear();
        proof {
            assert(self.history() =~~= Seq::<DsiEvent>::empty());
        }
    }
}

impl DsiInterface for MockDsiInterface {
    type Error = MockDsiError;

    closed spec fn history(&self) -> Seq<DsiEvent> {
        self.log@.map_values(|e: DcsLogEntry| e@)
    }

    closed spec fn ready(&self) -> bool {
        self.ready
    }

    fn send_dcs_command(&mut self, cmd: u8, params: &[u8]) -> (r: Result<(), MockDsiError>) {
        if self.should_fail {
            return Err(MockDsiError::SimulatedFailure);
        }
        if !self.ready {
            return Err(MockDsiError::NotReady);
        }
        match self.send_limit {
            Some(n) => {
                if n == 0 {
                    return Err(MockDsiError::SimulatedFailure);
                }
                self.send_limit = Some(n - 1);
            },
            None => {},
        }
        let recorded = DcsCommand { cmd, params: slice_to_vec(params) };
        self.log.push(DcsLogEntry::Command(recorded));
        proof {
            assert(self.history() =~~= old(self).history().push(
                DsiEvent::Sent { cmd, params: params@ },
            ));
        }
        Ok(())
    }

    fn delay_ms(&mut self, ms: u32) {
        self.log.push(DcsLogEntry::Delay(ms));
        proof {
            assert(self.history() =~~= old(self).history().push(DsiEvent::Delayed { ms }));
        }
    }

    fn is_ready(&self) -> (r: bool) {
        self.ready
    }

    fn reset(&mut self) -> (r: Result<(), MockDsiError>) {
        if self.should_fail {
            return Err(MockDsiError::SimulatedFailure);
        }
        self.log.clear();
        self.ready = true;
        proof {
            assert(self.history() =~~= Seq::<DsiEvent>::empty());
        }
        Ok(())
    }
}

/// Errors of the recording layer manager.
#[derive(Clone, Copy, Debug, PartialEq, Eq, Structural)]
pub enum MockLtdcError {
    InvalidLayer,
    SimulatedFailure,
}

/// Number of layers the recording layer manager accepts.
pub const MOCK_LTDC_LAYERS: u8 = 8;

/// A layer manager that records the configuration and framebuffer address
/// programmed for each of its eight layers, and the enable flag.
#[derive(Debug)]
pub struct MockLtdcInterface {
    pub configs: Vec<Option<LayerConfig>>,
    pub addresses: Vec<Option<u32>>,
    pub enabled: bool,
    pub should_fail: bool,
    pub dimensions: (u16, u16),
}

impl MockLtdcInterface {
    /// A fresh manager: no layer configured, pipeline disabled, native
    /// landscape dimensions.
    pub fn new() -> (m: Self)
        ensures
            m.inv(),
            m.layers() == Map::<u8, LayerConfig>::empty(),
            m.framebuffers() == Map::<u8, u32>::empty(),
            !m.enabled(),
            m.dims() == (LCD_WIDTH, LCD_HEIGHT),
            !m.should_fail,
    {
        let m = MockLtdcInterface {
            configs: vec![None;  8],
            addresses: vec![None;  8],
            enabled: false,
            should_fail: false,
            dimensions: (LCD_WIDTH, LCD_HEIGHT),
        };
        proof {
            assert(m.layers() =~~= Map::<u8, LayerConfig>::empty());
            assert(m.framebuffers() =~~= Map::<u8, u32>::empty());
        }
        m
    }

    /// Make every subsequent call fail, or succeed again.
    pub fn set_should_fail(&mut self, fail: bool)
        ensures
            final(self).inv() == old(self).inv(),
            final(self).should_fail == fail,
            final(self).layers() == old(self).layers(),
            final(self).framebuffers() == old(self).framebuffers(),
            final(self).enabled() == old(self).enabled(),
            final(self).dims() == old(self).dims(),
    {
        self.should_fail = fail;
    }

    /// The configuration last accepted for `layer`, if any.
    pub fn get_layer_config(&self, layer: u8) -> (r: Option<LayerConfig>)
        requires
            self.inv(),
        ensures
            self.layers().dom().contains(layer) ==> r == Some(self.layers()[layer]),
            !self.layers().dom().contains(layer) ==> r is None,
    {
        if layer >= MOCK_LTDC_LAYERS {
            return None;
        }
        self.configs[layer as usize]
    }

    /// The framebuffer address last accepted for `layer`, if any.
    pub fn get_framebuffer_address(&self, layer: u8) -> (r: Option<u32>)
        requires
            self.inv(),
        ensures
            self.framebuffers().dom().contains(layer) ==> r == Some(self.framebuffers()[layer]),
            !self.framebuffers().dom().contains(layer) ==> r is None,
    {
        if layer >= MOCK_LTDC_LAYERS {
            return None;
        }
        self.addresses[layer as usize]
    }

    /// Whether the output pipeline is enabled.
    pub fn is_enabled(&self) -> (r: bool)
        ensures
            r == self.enabled(),
    {
        self.enabled
    }
}

impl LtdcInterface for MockLtdcInterface {
    type Error = MockLtdcError;

    closed spec fn inv(&self) -> bool {
        self.configs@.len() == MOCK_LTDC_LAYERS && self.addresses@.len() == MOCK_LTDC_LAYERS
    }

    closed spec fn layers(&self) -> Map<u8, LayerConfig> {
        Map::new(
            |k: u8| k < MOCK_LTDC_LAYERS && self.configs@[k as int] is Some,
            |k: u8| self.configs@[k as int]->Some_0,
        )
    }

    closed spec fn framebuffers(&self) -> Map<u8, u32> {
        Map::new(
            |k: u8| k < MOCK_LTDC_LAYERS && self.addresses@[k as int] is Some,
            |k: u8| self.addresses@[k as int]->Some_0,
        )
    }

    closed spec fn enabled(&self) -> bool {
        self.enabled
    }

    closed spec fn dims(&self) -> (u16, u16) {
        self.dimensions
    }

    fn configure_layer(&mut self, layer: u8, config: LayerConfig) -> (r: Result<
        (),
        MockLtdcError,
    >) {
        if self.should_fail {
            return Err(MockLtdcError::SimulatedFailure);
        }
        if layer >= MOCK_LTDC_LAYERS {
            return Err(MockLtdcError::InvalidLayer);
        }
        self.configs.set(layer as usize, Some(config));
        proof {
            assert(self.layers() =~~= old(self).layers().insert(layer, config));
            assert(self.framebuffers() =~~= old(self).framebuffers());
        }
        Ok(())
    }

    fn enable(&mut self) -> (r: Result<(), MockLtdcError>) {
        if self.should_fail {
            return Err(MockLtdcError::SimulatedFailure);
        }
        self.enabled = true;
        Ok(())
    }

    fn disable(&mut self) -> (r: Result<(), MockLtdcError>) {
        if self.should_fail {
            return Err(MockLtdcError::SimulatedFailure);
        }
        self.enabled = false;
        Ok(())
    }

    fn set_framebuffer(&mut self, layer: u8, address: u32) -> (r: Result<(), MockLtdcError>) {
        if self.should_fail {
            return Err(MockLtdcError::SimulatedFailure);
        }
        if layer >= MOCK_LTDC_LAYERS {
            return Err(MockLtdcError::InvalidLayer);
        }
        self.addresses.set(layer as usize, Some(address));
        proof {
            assert(self.framebuffers() =~~= old(self).framebuffers().insert(layer, address));
            assert(self.layers() =~~= old(self).layers());
        }
        Ok(())
    }

    fn get_dimensions(&self) -> (r: (u16, u16)) {
        self.dimensions
    }
}

/// The reference pixel buffer: an in-memory row-major 16-bit store with
/// the capability's permissive clipping and silent-no-op policy. It has no
/// hardware address; it reports address zero.
#[derive(Debug)]
pub struct MockFramebuffer {
    buffer: Vec<u16>,
    width: u16,
    height: u16,
}

impl MockFramebuffer {
    /// A `width × height` buffer with every pixel zero (black).
    pub fn new(width: u16, height: u16) -> (fb: Self)
        requires
            width as int * height as int <= usize::MAX,
        ensures
            fb.inv(),
            fb.width() == width,
            fb.height() == height,
            fb.pixels().len() == width as int * height as int,
            forall|i: int| 0 <= i < fb.pixels().len() ==> fb.pixels()[i] == 0u16,
    {
        let size: usize = (width as usize) * (height as usize);
        MockFramebuffer { buffer: vec![0u16; size], width, height }
    }

    /// The pixel at `(x, y)`, or `None` outside the buffer.
    pub fn get_pixel(&self, x: u16, y: u16) -> (r: Option<u16>)
        requires
            self.inv(),
        ensures
            x < self.width() && y < self.height() ==> r == Some(
                self.pixels()[y as int * self.width() as int + x as int],
            ),
            !(x < self.width() && y < self.height()) ==> r is None,
    {
        if x >= self.width || y >= self.height {
            return None;
        }
        let len: usize = self.buffer.len();
        proof {
            assert((y as int) * (self.width() as int) + (x as int) < len as int)
                by (nonlinear_arith)
                requires
                    x < self.width(),
                    y < self.height(),
                    len as int == (self.width() as int) * (self.height() as int),
            ;
        }
        let idx: usize = (y as usize) * (self.width as usize) + (x as usize);
        Some(self.buffer[idx])
    }
}

impl FramebufferInterface for MockFramebuffer {
    closed spec fn inv(&self) -> bool {
        self.buffer@.len() == self.width as int * self.height as int
    }

    closed spec fn width(&self) -> u16 {
        self.width
    }

    closed spec fn height(&self) -> u16 {
        self.height
    }

    closed spec fn pixels(&self) -> Seq<u16> {
        self.buffer@
    }

    closed spec fn buffer_address(&self) -> u32 {
        0
    }

    fn fill_rect(&mut self, x: u16, y: u16, width: u16, height: u16, color: u16) {
        let fbw: usize = self.width as usize;
        let len: usize = self.buffer.len();
        let mut i: usize = 0;
        while i < len
            invariant
                len == self.buffer@.len(),
                self.inv(),
                fbw == self.width,
                self.width == old(self).width,
                self.height == old(self).height,
                i <= len,
                forall|j: int|
                    0 <= j < i ==> self.buffer@[j] == (if rect_covers(
                        fbw as int,
                        x as int,
                        y as int,
                        width as int,
                        height as int,
                        j,
                    ) {
                        color
                    } else {
                        old(self).buffer@[j]
                    }),
                forall|j: int| i <= j < len ==> self.buffer@[j] == old(self).buffer@[j],
            decreases len - i,
        {
            proof {
                assert(fbw > 0) by (nonlinear_arith)
                    requires
                        self.buffer@.len() == (self.width as int) * (self.height as int),
                        fbw == self.width,
                        self.buffer@.len() > 0,
                ;
            }
            let px: usize = i % fbw;
            let py: usize = i / fbw;
            let in_x = (x as usize) <= px && px < (x as usize) + (width as usize);
            let in_y = (y as usize) <= py && py < (y as usize) + (height as usize);
            if in_x && in_y {
                self.buffer.set(i, color);
            }
            i = i + 1;
        }
        proof {
            assert(final(self).pixels() =~~= crate::traits::filled_rect(
                old(self).pixels(),
                old(self).width() as int,
                x as int,
                y as int,
                width as int,
                height as int,
                color,
            ));
        }
    }

    fn set_pixel(&mut self, x: u16, y: u16, color: u16) {
        if x < self.width && y < self.height {
            let len: usize = self.buffer.len();
            proof {
                assert((y as int) * (self.width() as int) + (x as int) < len as int)
                    by (nonlinear_arith)
                    requires
                        x < self.width(),
                        y < self.height(),
                        len as int == (self.width() as int) * (self.height() as int),
                ;
            }
            let idx: usize = (y as usize) * (self.width as usize) + (x as usize);
            self.buffer.set(idx, color);
        }
    }

    fn clear(&mut self, color: u16) {
        let len: usize = self.buffer.len();
        self.buffer = vec![color; len];
    }

    fn get_dimensions(&self) -> (r: (u16, u16)) {
        (self.width, self.height)
    }

    fn get_buffer_address(&self) -> (r: u32) {
        0
    }

    fn get_buffer_size(&self) -> (r: usize) {
        self.buffer.len() * 2
    }
}

/// Errors of the mock platform.
#[derive(Clone, Copy, Debug, PartialEq, Eq, Structural)]
pub enum MockPlatformError {
    InitializationFailed,
    SimulatedFailure,
}

/// A platform capability that only tracks its own state.
#[derive(Debug)]
pub struct MockPlatformInterface {
    pub initialized: bool,
    pub should_fail: bool,
    pub low_power_mode: bool,
    pub platform_info: &'static str,
}

impl MockPlatformInterface {
    /// A fresh platform reporting `platform_info`.
    pub fn new(platform_info: &'static str) -> (m: Self)
        ensures
            !m.initialized,
            !m.should_fail,
            !m.low_power(),
    {
        MockPlatformInterface {
            initialized: false,
            should_fail: false,
            low_power_mode: false,
            platform_info,
        }
    }

    /// Make every subsequent call fail, or succeed again.
    pub fn set_should_fail(&mut self, fail: bool)
        ensures
            final(self).should_fail == fail,
            final(self).initialized == old(self).initialized,
            final(self).low_power() == old(self).low_power(),
    {
        self.should_fail = fail;
    }
}

impl PlatformInterface for MockPlatformInterface {
    type Error = MockPlatformError;

    closed spec fn low_power(&self) -> bool {
        self.low_power_mode
    }

    fn init_platform(&mut self) -> (r: Result<(), MockPlatformError>) {
        if self.should_fail {
            return Err(MockPlatformError::InitializationFailed);
        }
        self.initialized = true;
        Ok(())
    }

    fn get_platform_info(&self) -> &'static str {
        self.platform_info
    }

    fn enter_low_power(&mut self) -> (r: Result<(), MockPlatformError>) {
        if self.should_fail {
            return Err(MockPlatformError::SimulatedFailure);
        }
        self.low_power_mode = true;
        Ok(())
    }

    fn exit_low_power(&mut self) -> (r: Result<(), MockPlatformError>) {
        if self.should_fail {
            return Err(MockPlatformError::SimulatedFailure);
        }
        self.low_power_mode = false;
        Ok(())
    }
}

} // verus!
