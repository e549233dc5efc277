//! Buffered display mode: a 1-bit-per-pixel frame buffer drawn into by pixel
//! and sent to the panel whole by `flush`.

use vstd::prelude::*;

use crate::command::{commands, Command};
use crate::display::{DisplayVariant, Geometry, MAX_FRAME_BYTES};
use crate::displayrotation::DisplayRotation;
use crate::mode::displaymode::DisplayModeTrait;
use crate::properties::{
    address_commands, draw_spec, law_one_address_set_per_row, rotated_dimensions,
    rotation_commands, Addressing, DisplayProperties,
};
use crate::transfer::{packets, Packet, Transfer};

verus! {

/// One step of the hardware reset sequence, performed by the caller on its
/// reset pin and delay source.
#[derive(Debug, Clone, Copy, PartialEq, Eq, Structural)]
pub enum ResetStep {
    /// Drive the reset pin high.
    PinHigh,
    /// Drive the reset pin low.
    PinLow,
    /// Wait this many milliseconds.
    DelayMs(u32),
}

/// The reset sequence: high, then low held for 1 ms, then high again and a
/// 10 ms wait before the controller is used.
pub open spec fn reset_steps() -> Seq<ResetStep> {
    seq![
        ResetStep::PinHigh,
        ResetStep::PinLow,
        ResetStep::DelayMs(1),
        ResetStep::PinHigh,
        ResetStep::DelayMs(10),
    ]
}

/// The draw area covering the whole panel, with the cursor at its start.
pub open spec fn frame_area(rotation: DisplayRotation, g: Geometry) -> Addressing {
    Addressing {
        rotation,
        start: (g.column_offset, 0),
        end: ((g.width + g.column_offset) as u8, (g.height / 8) as u8),
        column: g.column_offset,
        row: 0,
    }
}

/// (x, y) lies inside a panel of the given (width, height).
pub open spec fn in_bounds(dimensions: (u8, u8), x: u32, y: u32) -> bool {
    x < dimensions.0 && y < dimensions.1
}

/// Index of the buffer byte holding pixel (x, y) on a panel `width` pixels
/// wide (native): bytes are 8-row bands of `width` columns, and for 90 and 270
/// degrees x and y trade roles.
pub open spec fn pixel_byte(rotation: DisplayRotation, width: u8, x: u32, y: u32) -> int {
    if rotation.is_sideways() {
        (x / 8) as int * width as int + y as int
    } else {
        (y / 8) as int * width as int + x as int
    }
}

/// Position of pixel (x, y) within its byte.
pub open spec fn pixel_bit(rotation: DisplayRotation, x: u32, y: u32) -> u8 {
    if rotation.is_sideways() {
        (x % 8) as u8
    } else {
        (y % 8) as u8
    }
}

/// The buffer after pixel (x, y) is set (`value` non-zero) or cleared
/// (`value` zero); unchanged when (x, y) lies outside the rotated panel.
pub open spec fn with_pixel(
    buf: Seq<u8>,
    rotation: DisplayRotation,
    g: Geometry,
    x: u32,
    y: u32,
    value: u8,
) -> Seq<u8> {
    if in_bounds(rotated_dimensions(rotation, g), x, y) {
        let i = pixel_byte(rotation, g.width, x, y);
        let mask = 1u8 << pixel_bit(rotation, x, y);
        buf.update(
            i,
            if value == 0 {
                buf[i] & !mask
            } else {
                buf[i] | mask
            },
        )
    } else {
        buf
    }
}

/// Whether pixel (x, y) is on in `buf`.
pub open spec fn pixel_is_on(buf: Seq<u8>, rotation: DisplayRotation, g: Geometry, x: u32, y: u32) -> bool {
    (buf[pixel_byte(rotation, g.width, x, y)] >> pixel_bit(rotation, x, y)) & 1u8 == 1u8
}

/// The buffer after clearing each pixel of `points` in turn.
pub open spec fn with_pixels_off(
    buf: Seq<u8>,
    rotation: DisplayRotation,
    g: Geometry,
    points: Seq<(u32, u32)>,
) -> Seq<u8>
    decreases points.len(),
{
    if points.len() == 0 {
        buf
    } else {
        with_pixels_off(
            with_pixel(buf, rotation, g, points[0].0, points[0].1, 0),
            rotation,
            g,
            points.drop_first(),
        )
    }
}

/// A buffer of `n` zero bytes.
pub open spec fn blank(n: nat) -> Seq<u8> {
    Seq::new(n, |_i: int| 0u8)
}

/// Every pixel inside the rotated panel has its own byte inside the frame.
pub proof fn lemma_pixel_in_frame(rotation: DisplayRotation, g: Geometry, x: u32, y: u32)
    requires
        g.wf(),
        in_bounds(rotated_dimensions(rotation, g), x, y),
    ensures
        0 <= pixel_byte(rotation, g.width, x, y) < g.frame_len(),
        pixel_bit(rotation, x, y) < 8,
{
    let w = g.width as int;
    let h = g.height as int;
    let (band, col) = if rotation.is_sideways() {
        (x as int, y as int)
    } else {
        (y as int, x as int)
    };
    let p = h / 8;
    let q = band / 8;
    assert(h == 8 * p);
    assert(q < p);
    assert(q * w + col < p * w) by (nonlinear_arith)
        requires
            0 <= q < p,
            0 <= col < w,
    ;
    assert(w * h / 8 == p * w) by (nonlinear_arith)
        requires
            h == 8 * p,
    ;
}

proof fn lemma_mask_bits(b: u8, k: u8)
    requires
        k < 8,
    ensures
        ((b | (1u8 << k)) >> k) & 1u8 == 1u8,
        ((b & !(1u8 << k)) >> k) & 1u8 == 0u8,
        0u8 & !(1u8 << k) == 0u8,
{
    assert(((b | (1u8 << k)) >> k) & 1u8 == 1u8) by (bit_vector)
        requires
            k < 8,
    ;
    assert(((b & !(1u8 << k)) >> k) & 1u8 == 0u8) by (bit_vector)
        requires
            k < 8,
    ;
    assert(0u8 & !(1u8 << k) == 0u8) by (bit_vector);
}

/// Setting an in-bounds pixel makes it read as on, and clearing it again
/// makes it read as off, under every rotation.
pub proof fn law_pixel_round_trip(
    buf: Seq<u8>,
    rotation: DisplayRotation,
    g: Geometry,
    x: u32,
    y: u32,
    value: u8,
)
    requires
        g.wf(),
        buf.len() >= g.frame_len(),
        in_bounds(rotated_dimensions(rotation, g), x, y),
        value != 0,
    ensures
        pixel_is_on(with_pixel(buf, rotation, g, x, y, value), rotation, g, x, y),
        !pixel_is_on(
            with_pixel(with_pixel(buf, rotation, g, x, y, value), rotation, g, x, y, 0),
            rotation,
            g,
            x,
            y,
        ),
{
    lemma_pixel_in_frame(rotation, g, x, y);
    let i = pixel_byte(rotation, g.width, x, y);
    let set = with_pixel(buf, rotation, g, x, y, value);
    lemma_mask_bits(buf[i], pixel_bit(rotation, x, y));
    lemma_mask_bits(set[i], pixel_bit(rotation, x, y));
}

/// Clearing any sequence of pixels in a blank buffer leaves it blank.
pub proof fn law_blank_stays_blank(
    n: nat,
    rotation: DisplayRotation,
    g: Geometry,
    points: Seq<(u32, u32)>,
)
    requires
        g.wf(),
        n >= g.frame_len(),
    ensures
        with_pixels_off(blank(n), rotation, g, points) == blank(n),
    decreases points.len(),
{
    if points.len() > 0 {
        let (x, y) = points[0];
        if in_bounds(rotated_dimensions(rotation, g), x, y) {
            lemma_pixel_in_frame(rotation, g, x, y);
            lemma_mask_bits(0u8, pixel_bit(rotation, x, y));
            assert(with_pixel(blank(n), rotation, g, x, y, 0) =~= blank(n));
        }
        law_blank_stays_blank(n, rotation, g, points.drop_first());
    }
}

/// A flush sends, after the address-set sequence for the top left corner,
/// one data write per page holding that page's bytes, each followed by
/// exactly one address-set sequence (for the next page, wrapping to page 0).
pub proof fn law_flush_one_address_set_per_page(
    rotation: DisplayRotation,
    g: Geometry,
    frame: Seq<u8>,
)
    requires
        g.wf(),
        frame.len() == g.frame_len(),
    ensures
        draw_spec(frame_area(rotation, g), frame, g.large_page_address).0.len() == 4 * g.pages(),
        forall|i: int|
            0 <= i < g.pages() ==> #[trigger] draw_spec(
                frame_area(rotation, g),
                frame,
                g.large_page_address,
            ).0.subrange(4 * i, 4 * i + 4) == seq![
                Packet::Data(frame.subrange(i * g.width, (i + 1) * g.width)),
            ] + commands(
                address_commands(((i + 1) % g.pages()) as u8, g.column_offset, g.large_page_address),
            ),
{
    let s = frame_area(rotation, g);
    let p = g.pages();
    assert(g.height == 8 * p);
    assert(frame.len() == p * g.width) by (nonlinear_arith)
        requires
            frame.len() == g.width as int * g.height as int / 8,
            g.height == 8 * p,
    ;
    law_one_address_set_per_row(s, frame, p as nat, g.large_page_address);
}

/// The frame buffer's state: the addressing state of its properties and the
/// buffer's bytes.
pub struct GraphicsState {
    /// State of the addressing state machine
    pub addressing: Addressing,
    /// Bytes of the frame buffer
    pub buffer: Seq<u8>,
}

/// Graphics mode handler
pub struct GraphicsMode<DV: DisplayVariant, DI> {
    properties: DisplayProperties<DV, DI>,
    buffer: Vec<u8>,
}

impl<DV: DisplayVariant, DI> View for GraphicsMode<DV, DI> {
    type V = GraphicsState;

    open spec fn view(&self) -> GraphicsState {
        GraphicsState { addressing: self.properties()@, buffer: self.bytes() }
    }
}

impl<DV: DisplayVariant, DI> GraphicsMode<DV, DI> {
    /// The bytes of the frame buffer.
    pub closed spec fn bytes(&self) -> Seq<u8> {
        self.buffer@
    }
}

impl<DV: DisplayVariant, DI> DisplayModeTrait<DV, DI> for GraphicsMode<DV, DI> {
    closed spec fn properties(&self) -> DisplayProperties<DV, DI> {
        self.properties
    }

    open spec fn is_fresh(&self) -> bool {
        &&& self@.buffer == blank(MAX_FRAME_BYTES as nat)
        &&& DV::spec_geometry().wf()
    }

    /// Create new GraphicsMode instance, with a zeroed buffer large enough
    /// for every supported panel.
    fn new(properties: DisplayProperties<DV, DI>) -> (r: Self) {
        let _ = DV::geometry();
        let buffer = vec![0u8; MAX_FRAME_BYTES];
        assert(buffer@ =~= blank(MAX_FRAME_BYTES as nat));
        GraphicsMode { properties, buffer }
    }

    /// Release all resources used by GraphicsMode
    fn release(self) -> (r: DisplayProperties<DV, DI>) {
        self.properties
    }
}

impl<DV: DisplayVariant, DI> GraphicsMode<DV, DI> {
    /// The variant's geometry is sound and the buffer holds at least one
    /// whole frame of it.
    pub open spec fn wf(&self) -> bool {
        &&& DV::spec_geometry().wf()
        &&& DV::spec_geometry().frame_len() <= self@.buffer.len()
    }

    /// Graphics mode with a zeroed buffer of `size` bytes; when `size` is
    /// smaller than one frame of the variant, the properties are handed back.
    pub fn with_buffer_size(properties: DisplayProperties<DV, DI>, size: usize) -> (r: Result<
        Self,
        DisplayProperties<DV, DI>,
    >)
        ensures
            size >= DV::spec_geometry().frame_len() <==> r is Ok,
            r matches Ok(m) ==> m.properties() == properties && m@.buffer == blank(size as nat)
                && m.wf(),
            r matches Err(p) ==> p == properties,
    {
        let g = DV::geometry();
        if size < (g.width as usize) * (g.height as usize) / 8 {
            return Err(properties);
        }
        let buffer = vec![0u8; size];
        assert(buffer@ =~= blank(size as nat));
        Ok(GraphicsMode { properties, buffer })
    }

    /// Clear the display buffer. You need to call `display.flush()` for any effect on the screen
    pub fn clear(&mut self)
        requires
            old(self).wf(),
        ensures
            final(self).wf(),
            final(self)@.buffer == blank(old(self)@.buffer.len()),
            final(self).properties() == old(self).properties(),
    {
        let n = self.buffer.len();
        self.buffer = vec![0u8; n];
        assert(self.buffer@ =~= blank(n as nat));
    }

    /// Reset display: the steps to perform on the reset pin, in order.
    pub fn reset(&self) -> (r: Vec<ResetStep>)
        ensures
            r@ == reset_steps(),
    {
        let r = vec![
            ResetStep::PinHigh,
            ResetStep::PinLow,
            ResetStep::DelayMs(1),
            ResetStep::PinHigh,
            ResetStep::DelayMs(10),
        ];
        assert(r@ =~= reset_steps());
        r
    }

    /// Write out data to display: queues the address-set sequence for the
    /// whole panel, then one frame of the buffer through the addressing state
    /// machine.
    pub fn flush(&mut self, out: &mut Vec<Transfer>)
        requires
            old(self).wf(),
        ensures
            final(self).wf(),
            final(self)@.buffer == old(self)@.buffer,
            final(self).properties().same_parts(&old(self).properties()),
            final(self)@.addressing == draw_spec(
                frame_area(old(self)@.addressing.rotation, DV::spec_geometry()),
                old(self)@.buffer.subrange(0, DV::spec_geometry().frame_len()),
                DV::spec_geometry().large_page_address,
            ).1,
            packets(final(out)@) == packets(old(out)@) + commands(
                address_commands(
                    0,
                    DV::spec_geometry().column_offset,
                    DV::spec_geometry().large_page_address,
                ),
            ) + draw_spec(
                frame_area(old(self)@.addressing.rotation, DV::spec_geometry()),
                old(self)@.buffer.subrange(0, DV::spec_geometry().frame_len()),
                DV::spec_geometry().large_page_address,
            ).0,
    {
        // Ensure the display buffer is at the origin of the display before we send the full frame
        // to prevent accidental offsets
        let g = DV::geometry();
        let (display_width, display_height) = (g.width, g.height);
        let column_offset = g.column_offset;
        self.properties.set_draw_area(
            (column_offset, 0),
            (display_width + column_offset, display_height / 8),
            out,
        );

        let length = (display_width as usize) * (display_height as usize) / 8;
        let frame = &self.buffer.as_slice()[0..length];
        self.properties.draw(frame, out);
    }

    /// Turn a pixel on or off. A non-zero `value` is treated as on, `0` as off. If the X and Y
    /// coordinates are out of the bounds of the display, this method call is a noop.
    pub fn set_pixel(&mut self, x: u32, y: u32, value: u8)
        requires
            old(self).wf(),
        ensures
            final(self).wf(),
            final(self)@.buffer == with_pixel(
                old(self)@.buffer,
                old(self)@.addressing.rotation,
                DV::spec_geometry(),
                x,
                y,
                value,
            ),
            !in_bounds(rotated_dimensions(old(self)@.addressing.rotation, DV::spec_geometry()), x, y)
                ==> final(self)@.buffer == old(self)@.buffer,
            final(self).properties() == old(self).properties(),
    {
        let (display_width, _) = DV::dimensions();
        let (width, height) = self.properties.get_dimensions();
        let display_rotation = self.properties.get_rotation();
        if x >= width as u32 || y >= height as u32 {
            return;
        }
        proof {
            lemma_pixel_in_frame(display_rotation, DV::spec_geometry(), x, y);
        }
        let (idx, shift) = match display_rotation {
            DisplayRotation::Rotate0 | DisplayRotation::Rotate180 => {
                ((y as usize) / 8 * display_width as usize + (x as usize), (y % 8) as u8)
            },
            DisplayRotation::Rotate90 | DisplayRotation::Rotate270 => {
                ((x as usize) / 8 * display_width as usize + (y as usize), (x % 8) as u8)
            },
        };
        let bit: u8 = 1u8 << shift;
        let byte = self.buffer[idx];
        if value == 0 {
            self.buffer.set(idx, byte & !bit);
        } else {
            self.buffer.set(idx, byte | bit);
        }
    }

    /// Display is set up in column mode, i.e. a byte walks down a column of 8 pixels from
    /// column 0 on the left, to column _n_ on the right: queues the variant's power-up
    /// sequence followed by the commands of the configured rotation.
    pub fn init(&mut self, out: &mut Vec<Transfer>)
        requires
            old(self).wf(),
        ensures
            final(self).wf(),
            final(self)@ == old(self)@,
            final(self).properties().same_parts(&old(self).properties()),
            packets(final(out)@) == packets(old(out)@) + commands(
                DV::spec_init_commands() + rotation_commands(old(self)@.addressing.rotation),
            ),
    {
        self.properties.init_column_mode(out);
    }

    /// Get display dimensions, taking into account the current rotation of the display
    pub fn get_dimensions(&self) -> (r: (u8, u8))
        ensures
            r == rotated_dimensions(self@.addressing.rotation, DV::spec_geometry()),
    {
        self.properties.get_dimensions()
    }

    /// Get the display rotation
    pub fn get_rotation(&self) -> (r: DisplayRotation)
        ensures
            r == self@.addressing.rotation,
    {
        self.properties.get_rotation()
    }

    /// Set the display rotation: records it and queues the segment-remap and
    /// scan-direction commands that realise it.
    pub fn set_rotation(&mut self, rot: DisplayRotation, out: &mut Vec<Transfer>)
        requires
            old(self).wf(),
        ensures
            final(self).wf(),
            final(self)@ == (GraphicsState {
                addressing: Addressing { rotation: rot, ..old(self)@.addressing },
                ..old(self)@
            }),
            final(self).properties().same_parts(&old(self).properties()),
            packets(final(out)@) == packets(old(out)@) + commands(rotation_commands(rot)),
    {
        self.properties.set_rotation(rot, out);
    }

    /// Turn the display on or off. The display can be drawn to and retains all
    /// of its memory even while off.
    pub fn display_on(&self, on: bool, out: &mut Vec<Transfer>)
        ensures
            packets(final(out)@) == packets(old(out)@).push(
                Packet::Commands(Command::DisplayOn(on).bytes()),
            ),
    {
        self.properties.display_on(on, out);
    }

    /// Set the display contrast
    pub fn set_contrast(&self, contrast: u8, out: &mut Vec<Transfer>)
        ensures
            packets(final(out)@) == packets(old(out)@).push(
                Packet::Commands(Command::Contrast(contrast).bytes()),
            ),
    {
        self.properties.set_contrast(contrast, out);
    }

    /// Mutable access to the transport, to perform queued transfers on it.
    pub fn iface_mut(&mut self) -> (r: &mut DI)
        ensures
            *r == old(self).properties().interface(),
            final(self).properties().interface() == *final(r),
            final(self)@ == old(self)@,
            final(self).properties().variant() == old(self).properties().variant(),
    {
        self.properties.iface_mut()
    }
}

} // verus!
