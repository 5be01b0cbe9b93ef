//! Capability contracts for the hardware the display driver runs over.
//!
//! The driver is generic over three capabilities: a DSI serial command
//! channel, an LTDC compositing layer manager, and a pixel buffer. Each
//! trait carries a ghost model of the state an implementation maintains —
//! the ordered transaction trace for the channel, the per-layer
//! configuration for the layer manager, and the pixel contents for the
//! buffer — and every method's contract is stated over that model.

use vstd::prelude::*;

pub use crate::common::rgb565_to_rgb888;
pub use crate::common::rgb888_to_rgb565;

verus! {

/// One observable action on the DSI channel: a completed command
/// transaction (command byte plus ordered parameter bytes), or a blocking
/// delay of the given duration.
#[verifier::ext_equal]
pub enum DsiEvent {
    Sent { cmd: u8, params: Seq<u8> },
    Delayed { ms: u32 },
}

/// Abbreviation for a completed command transaction.
pub open spec fn sent(cmd: u8, params: Seq<u8>) -> DsiEvent {
    DsiEvent::Sent { cmd, params }
}

/// Abbreviation for a blocking delay.
pub open spec fn delayed(ms: u32) -> DsiEvent {
    DsiEvent::Delayed { ms }
}

/// DSI (Display Serial Interface) capability: transports DCS commands to
/// the panel and provides the panel-mandated blocking delays.
///
/// The ghost `history` is the ordered trace of completed transactions and
/// delays since the channel was last reset. A failed `send_dcs_command`
/// completes no transaction, so it leaves the trace unchanged; any
/// transport-level framing or chunking of long parameter lists is the
/// implementation's concern and is invisible in the trace.
pub trait DsiInterface: Sized {
    type Error;

    /// The ordered trace of transactions and delays so far.
    spec fn history(&self) -> Seq<DsiEvent>;

    /// Whether the channel is ready to accept commands.
    spec fn ready(&self) -> bool;

    /// Send one DCS command transaction: the command byte followed by the
    /// parameter bytes, in order, as a single atomic transaction.
    fn send_dcs_command(&mut self, cmd: u8, params: &[u8]) -> (r: Result<(), Self::Error>)
        ensures
            r is Ok ==> final(self).history() == old(self).history().push(sent(cmd, params@)),
            r is Err ==> final(self).history() == old(self).history(),
    ;

    /// Block for at least `ms` milliseconds. This is a hard settle-time
    /// requirement of the panel, not a scheduling hint.
    fn delay_ms(&mut self, ms: u32)
        ensures
            final(self).history() == old(self).history().push(delayed(ms)),
    ;

    /// Whether the channel is ready to accept commands.
    fn is_ready(&self) -> (r: bool)
        ensures
            r == self.ready(),
    ;

    /// Reset the channel. A successful reset starts a fresh session: the
    /// transaction trace starts over empty. A failed reset completes
    /// nothing, so it leaves the trace unchanged.
    fn reset(&mut self) -> (r: Result<(), Self::Error>)
        ensures
            r is Ok ==> final(self).history() == Seq::<DsiEvent>::empty(),
            r is Err ==> final(self).history() == old(self).history(),
    ;
}

/// The trace `post` extends `pre` by a strict prefix of `events`, cut at
/// an event boundary: everything a command sequence that halts at its
/// first failed transaction can have emitted, the failed transaction
/// itself never included.
pub open spec fn extends_by_strict_prefix_of(
    pre: Seq<DsiEvent>,
    post: Seq<DsiEvent>,
    events: Seq<DsiEvent>,
) -> bool {
    exists|k: int| 0 <= k < events.len() && post == pre + #[trigger] events.take(k)
}

/// The trace `post` extends `pre` by a prefix of `events`, possibly all of
/// them: what a sequence can have emitted when a step after the last
/// transaction may still fail.
pub open spec fn extends_by_prefix_of(
    pre: Seq<DsiEvent>,
    post: Seq<DsiEvent>,
    events: Seq<DsiEvent>,
) -> bool {
    extends_by_strict_prefix_of(pre, post, events) || post == pre + events
}

/// A strict prefix of a completed stage `a` followed by a failed stage `b`
/// is a strict prefix of `a + b`.
pub(crate) proof fn lemma_extends_chain(
    h0: Seq<DsiEvent>,
    h1: Seq<DsiEvent>,
    h2: Seq<DsiEvent>,
    a: Seq<DsiEvent>,
    b: Seq<DsiEvent>,
)
    requires
        h1 == h0 + a,
        extends_by_strict_prefix_of(h1, h2, b),
    ensures
        extends_by_strict_prefix_of(h0, h2, a + b),
{
    let k = choose|k: int| 0 <= k < b.len() && h2 == h1 + #[trigger] b.take(k);
    assert(h2 =~~= h0 + (a + b).take(a.len() + k));
}

/// A strict prefix of `a` is a strict prefix of `a + b`.
pub(crate) proof fn lemma_extends_widen(
    h0: Seq<DsiEvent>,
    h2: Seq<DsiEvent>,
    a: Seq<DsiEvent>,
    b: Seq<DsiEvent>,
)
    requires
        extends_by_strict_prefix_of(h0, h2, a),
    ensures
        extends_by_strict_prefix_of(h0, h2, a + b),
{
    let k = choose|k: int| 0 <= k < a.len() && h2 == h0 + #[trigger] a.take(k);
    assert(h2 =~~= h0 + (a + b).take(k));
}

/// A completed stage `a` with nothing of `b` emitted is a strict prefix of
/// `a + b`.
pub(crate) proof fn lemma_extends_complete(
    h0: Seq<DsiEvent>,
    h2: Seq<DsiEvent>,
    a: Seq<DsiEvent>,
    b: Seq<DsiEvent>,
)
    requires
        h2 == h0 + a,
        b.len() > 0,
    ensures
        extends_by_strict_prefix_of(h0, h2, a + b),
{
    assert(h2 =~~= h0 + (a + b).take(a.len() as int));
}

/// Supported pixel formats of the compositing pipeline.
#[derive(Clone, Copy, Debug, PartialEq, Eq, Structural)]
pub enum PixelFormat {
    Argb8888,
    Rgb888,
    Rgb565,
    Argb1555,
    Argb4444,
    L8,
    Al44,
    Al88,
}

/// Configuration of one compositing layer: geometry window, pixel format,
/// constant alpha, and framebuffer source address and row pitch.
#[derive(Clone, Copy, Debug, PartialEq, Eq, Structural)]
pub struct LayerConfig {
    pub layer: u8,
    pub window_x0: u16,
    pub window_x1: u16,
    pub window_y0: u16,
    pub window_y1: u16,
    pub pixel_format: PixelFormat,
    pub alpha: u8,
    pub red_blue_swap: bool,
    pub framebuffer_address: u32,
    pub framebuffer_pitch: u16,
}

/// LTDC (LCD-TFT Display Controller) capability: configures compositing
/// layers and enables or disables the output pipeline.
///
/// The ghost model is the map of configured layers, the map of programmed
/// framebuffer addresses, and the enable flag. A failed call commits no
/// change to any of the three.
pub trait LtdcInterface: Sized {
    type Error;

    /// The implementation's internal well-formedness condition,
    /// established by its constructor and preserved by every operation.
    spec fn inv(&self) -> bool;

    /// The configuration last accepted for each configured layer.
    spec fn layers(&self) -> Map<u8, LayerConfig>;

    /// The framebuffer address last accepted for each layer.
    spec fn framebuffers(&self) -> Map<u8, u32>;

    /// Whether the output pipeline is enabled.
    spec fn enabled(&self) -> bool;

    /// The output dimensions the controller is driving.
    spec fn dims(&self) -> (u16, u16);

    /// Configure one layer.
    fn configure_layer(&mut self, layer: u8, config: LayerConfig) -> (r: Result<(), Self::Error>)
        requires
            old(self).inv(),
        ensures
            final(self).inv(),
            r is Ok ==> final(self).layers() == old(self).layers().insert(layer, config),
            r is Err ==> final(self).layers() == old(self).layers(),
            final(self).framebuffers() == old(self).framebuffers(),
            final(self).enabled() == old(self).enabled(),
            final(self).dims() == old(self).dims(),
    ;

    /// Enable the output pipeline.
    fn enable(&mut self) -> (r: Result<(), Self::Error>)
        requires
            old(self).inv(),
        ensures
            final(self).inv(),
            r is Ok ==> final(self).enabled(),
            r is Err ==> final(self).enabled() == old(self).enabled(),
            final(self).layers() == old(self).layers(),
            final(self).framebuffers() == old(self).framebuffers(),
            final(self).dims() == old(self).dims(),
    ;

    /// Disable the output pipeline.
    fn disable(&mut self) -> (r: Result<(), Self::Error>)
        requires
            old(self).inv(),
        ensures
            final(self).inv(),
            r is Ok ==> !final(self).enabled(),
            r is Err ==> final(self).enabled() == old(self).enabled(),
            final(self).layers() == old(self).layers(),
            final(self).framebuffers() == old(self).framebuffers(),
            final(self).dims() == old(self).dims(),
    ;

    /// Program the framebuffer source address of one layer.
    fn set_framebuffer(&mut self, layer: u8, address: u32) -> (r: Result<(), Self::Error>)
        requires
            old(self).inv(),
        ensures
            final(self).inv(),
            r is Ok ==> final(self).framebuffers() == old(self).framebuffers().insert(
                layer,
                address,
            ),
            r is Err ==> final(self).framebuffers() == old(self).framebuffers(),
            final(self).layers() == old(self).layers(),
            final(self).enabled() == old(self).enabled(),
            final(self).dims() == old(self).dims(),
    ;

    /// The output dimensions the controller is driving.
    fn get_dimensions(&self) -> (r: (u16, u16))
        ensures
            r == self.dims(),
    ;
}

/// Whether row-major pixel index `i` of a buffer `fbw` pixels wide lies in
/// the rectangle with top-left `(x, y)` and extent `w × h`. An index is in
/// the buffer to begin with, so extents reaching past the buffer's edge
/// are clipped by construction.
pub open spec fn rect_covers(fbw: int, x: int, y: int, w: int, h: int, i: int) -> bool {
    &&& x <= i % fbw < x + w
    &&& y <= i / fbw < y + h
}

/// The pixel contents after a clipped rectangular fill: every index inside
/// the rectangle holds `color`, every other index is unchanged.
pub open spec fn filled_rect(
    pixels: Seq<u16>,
    fbw: int,
    x: int,
    y: int,
    w: int,
    h: int,
    color: u16,
) -> Seq<u16> {
    Seq::new(
        pixels.len(),
        |i: int|
            if rect_covers(fbw, x, y, w, h, i) {
                color
            } else {
                pixels[i]
            },
    )
}

/// Pixel buffer capability: an addressable 16-bit-per-pixel store in
/// row-major order.
///
/// The buffer is deliberately permissive: `fill_rect` silently clips
/// extents to the buffer and `set_pixel` outside the buffer is a silent
/// no-op. The stricter coordinate validation lives in the driver facade,
/// not here.
pub trait FramebufferInterface: Sized {
    /// The implementation's internal well-formedness condition,
    /// established by its constructor and preserved by every operation.
    spec fn inv(&self) -> bool;

    /// Buffer width in pixels.
    spec fn width(&self) -> u16;

    /// Buffer height in pixels.
    spec fn height(&self) -> u16;

    /// The pixel contents, row-major, of length `width() * height()`.
    spec fn pixels(&self) -> Seq<u16>;

    /// The address of the underlying storage, for layer binding.
    spec fn buffer_address(&self) -> u32;

    /// Fill the rectangle with top-left `(x, y)` and extent
    /// `width × height` with `color`, silently clipping the extent to the
    /// buffer.
    fn fill_rect(&mut self, x: u16, y: u16, width: u16, height: u16, color: u16)
        requires
            old(self).inv(),
        ensures
            final(self).inv(),
            final(self).width() == old(self).width(),
            final(self).height() == old(self).height(),
            final(self).buffer_address() == old(self).buffer_address(),
            final(self).pixels() == filled_rect(
                old(self).pixels(),
                old(self).width() as int,
                x as int,
                y as int,
                width as int,
                height as int,
                color,
            ),
    ;

    /// Set the pixel at `(x, y)` to `color`; a silent no-op if `(x, y)`
    /// lies outside the buffer.
    fn set_pixel(&mut self, x: u16, y: u16, color: u16)
        requires
            old(self).inv(),
        ensures
            final(self).inv(),
            final(self).width() == old(self).width(),
            final(self).height() == old(self).height(),
            final(self).buffer_address() == old(self).buffer_address(),
            x < old(self).width() && y < old(self).height() ==> final(self).pixels() == old(
                self,
            ).pixels().update(y as int * old(self).width() as int + x as int, color),
            !(x < old(self).width() && y < old(self).height()) ==> final(self).pixels() == old(
                self,
            ).pixels(),
    ;

    /// Set every pixel to `color`.
    fn clear(&mut self, color: u16)
        requires
            old(self).inv(),
        ensures
            final(self).inv(),
            final(self).width() == old(self).width(),
            final(self).height() == old(self).height(),
            final(self).buffer_address() == old(self).buffer_address(),
            final(self).pixels().len() == old(self).pixels().len(),
            forall|i: int|
                0 <= i < final(self).pixels().len() ==> final(self).pixels()[i] == color,
    ;

    /// Buffer dimensions, in pixels.
    fn get_dimensions(&self) -> (r: (u16, u16))
        ensures
            r == (self.width(), self.height()),
    ;

    /// The address of the underlying storage, for layer binding.
    fn get_buffer_address(&self) -> (r: u32)
        ensures
            r == self.buffer_address(),
    ;

    /// The size of the underlying storage in bytes (two bytes per pixel).
    fn get_buffer_size(&self) -> (r: usize)
        requires
            self.inv(),
            self.pixels().len() * 2 <= usize::MAX,
        ensures
            r == self.pixels().len() * 2,
    ;
}

/// Platform capability: target-specific bring-up and power management.
/// The controller driver itself never calls it; it is the hook a complete
/// board port implements alongside the other three capabilities.
pub trait PlatformInterface: Sized {
    type Error;

    /// Whether the platform is in its low-power mode.
    spec fn low_power(&self) -> bool;

    /// Initialize platform-specific hardware.
    fn init_platform(&mut self) -> (r: Result<(), Self::Error>);

    /// A short description of the platform.
    fn get_platform_info(&self) -> &'static str;

    /// Enter low-power mode.
    fn enter_low_power(&mut self) -> (r: Result<(), Self::Error>)
        ensures
            r is Ok ==> final(self).low_power(),
    ;

    /// Exit low-power mode.
    fn exit_low_power(&mut self) -> (r: Result<(), Self::Error>)
        ensures
            r is Ok ==> !final(self).low_power(),
    ;
}

} // verus!
