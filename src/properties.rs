//! Container to store and set display properties: the addressing state
//! machine that owns the transport.

use vstd::prelude::*;
use vstd::arithmetic::div_mod::{lemma_add_mod_noop_right, lemma_mod_self_0, lemma_small_mod};
use vstd::slice::slice_to_vec;

use crate::command::{commands, Command};
use crate::display::{DisplayVariant, Geometry};
use crate::displayrotation::DisplayRotation;
use crate::transfer::{packets, push_transfer, Packet, Transfer};

verus! {

/// Mathematical state of [`DisplayProperties`]: the rotation, the draw area
/// (start inclusive, end exclusive, as (column, page row)) and the write
/// cursor.
pub struct Addressing {
    /// Configured rotation
    pub rotation: DisplayRotation,
    /// First column and page row of the draw area
    pub start: (u8, u8),
    /// Column and page row just past the draw area
    pub end: (u8, u8),
    /// Column of the write cursor
    pub column: u8,
    /// Page row of the write cursor
    pub row: u8,
}

impl Addressing {
    /// The draw area is non-empty and the cursor lies inside it.
    pub open spec fn cursor_in_area(self) -> bool {
        &&& self.start.0 <= self.column < self.end.0
        &&& self.start.1 <= self.row < self.end.1
    }

    /// The state after `n` more bytes have been written on the cursor's row:
    /// on reaching the end column the cursor goes back to the start column of
    /// the next row, and after the last row back to the first.
    pub open spec fn advance(self, n: nat) -> Addressing {
        if self.column + n >= self.end.0 {
            Addressing {
                column: self.start.0,
                row: if self.row + 1 >= self.end.1 { self.start.1 } else { (self.row + 1) as u8 },
                ..self
            }
        } else {
            Addressing { column: (self.column + n) as u8, ..self }
        }
    }
}

/// (width, height) as seen by callers: native for 0 and 180 degrees,
/// swapped for 90 and 270 degrees.
pub open spec fn rotated_dimensions(rotation: DisplayRotation, g: Geometry) -> (u8, u8) {
    if rotation.is_sideways() {
        (g.height, g.width)
    } else {
        (g.width, g.height)
    }
}

/// The two commands that realise a rotation.
pub open spec fn rotation_commands(rotation: DisplayRotation) -> Seq<Command> {
    seq![
        Command::SegmentRemap(rotation.segment_remap()),
        Command::ReverseComDir(rotation.reverse_com_dir()),
    ]
}

/// The address-set sequence that moves the controller's write pointer to
/// page `row`, column `column`.
pub open spec fn address_commands(row: u8, column: u8, large: bool) -> Seq<Command> {
    seq![
        if large {
            Command::LargePageAddress(row)
        } else {
            Command::PageAddress(row)
        },
        Command::ColumnAddressLow(0xFu8 & column),
        Command::ColumnAddressHigh(0xFu8 & (column >> 4u8)),
    ]
}

/// What drawing `buf` from state `s` sends, and the state it leaves: the
/// bytes go out in data writes that end at the area's end column; after
/// each such row the cursor wraps and one address-set sequence follows.
pub open spec fn draw_spec(s: Addressing, buf: Seq<u8>, large: bool) -> (Seq<Packet>, Addressing)
    decreases buf.len(),
{
    if buf.len() == 0 || !s.cursor_in_area() {
        (Seq::empty(), s)
    } else {
        let room = (s.end.0 - s.column) as nat;
        let n = if room <= buf.len() { room } else { buf.len() };
        let s1 = s.advance(n);
        let addr = if n == room {
            commands(address_commands(s1.row, s1.column, large))
        } else {
            Seq::empty()
        };
        let rest = draw_spec(s1, buf.subrange(n as int, buf.len() as int), large);
        (seq![Packet::Data(buf.subrange(0, n as int))] + addr + rest.0, rest.1)
    }
}

/// The page row the cursor is on after `k` whole rows have been written from
/// state `s`, counting the wrap from the area's last row to its first.
pub open spec fn row_after(s: Addressing, k: int) -> u8 {
    (s.start.1 + (s.row - s.start.1 + k) % (s.end.1 - s.start.1)) as u8
}

/// Drawing `rows` whole rows from the start of a row sends, for each row,
/// exactly one data write holding that row's bytes followed by exactly one
/// address-set sequence (for the row the cursor wraps to), and nothing else;
/// the cursor ends at the start of the row `rows` rows further on.
pub proof fn law_one_address_set_per_row(s: Addressing, buf: Seq<u8>, rows: nat, large: bool)
    requires
        s.cursor_in_area(),
        s.column == s.start.0,
        buf.len() == rows * (s.end.0 - s.start.0),
    ensures
        draw_spec(s, buf, large).0.len() == 4 * rows,
        forall|i: int|
            0 <= i < rows ==> #[trigger] draw_spec(s, buf, large).0.subrange(4 * i, 4 * i + 4) == seq![
                Packet::Data(buf.subrange(i * (s.end.0 - s.start.0), (i + 1) * (s.end.0 - s.start.0))),
            ] + commands(address_commands(row_after(s, i + 1), s.start.0, large)),
        draw_spec(s, buf, large).1 == (Addressing { row: row_after(s, rows as int), ..s }),
    decreases rows,
{
    let w = s.end.0 - s.start.0;
    let h = s.end.1 - s.start.1;
    let a = s.row - s.start.1;
    if rows == 0 {
        assert(buf.len() == 0) by (nonlinear_arith)
            requires
                buf.len() == rows * w,
                rows == 0,
        ;
        lemma_small_mod(a as nat, h as nat);
    } else {
        assert(buf.len() >= w) by (nonlinear_arith)
            requires
                buf.len() == rows * w,
                rows >= 1,
                w > 0,
        ;
        let s1 = s.advance(w as nat);
        if s.row + 1 >= s.end.1 {
            assert((a + 1) % h == 0) by {
                lemma_mod_self_0(h);
            }
        } else {
            lemma_small_mod((a + 1) as nat, h as nat);
        }
        assert(s1 == (Addressing { column: s.start.0, row: row_after(s, 1), ..s }));
        let rest = buf.subrange(w as int, buf.len() as int);
        assert(rest.len() == (rows - 1) * w) by (nonlinear_arith)
            requires
                rest.len() == buf.len() - w,
                buf.len() == rows * w,
        ;
        law_one_address_set_per_row(s1, rest, (rows - 1) as nat, large);
        let head = seq![Packet::Data(buf.subrange(0, w as int))] + commands(
            address_commands(s1.row, s1.column, large),
        );
        let ps = draw_spec(s, buf, large).0;
        let tail = draw_spec(s1, rest, large).0;
        assert(ps == head + tail);
        assert(head.len() == 4);
        assert forall|k: int| #![trigger row_after(s1, k)] 0 <= k ==> row_after(s1, k) == row_after(
            s,
            k + 1,
        ) by {
            if 0 <= k {
                lemma_add_mod_noop_right(k, a + 1, h);
            }
        }
        assert forall|i: int| 0 <= i < rows implies #[trigger] ps.subrange(4 * i, 4 * i + 4)
            == seq![Packet::Data(buf.subrange(i * w, (i + 1) * w))] + commands(
            address_commands(row_after(s, i + 1), s.start.0, large),
        ) by {
            if i == 0 {
                assert(ps.subrange(0, 4) =~= head);
            } else {
                let j = i - 1;
                assert(0 <= j * w && (j + 1) * w <= (rows - 1) * w) by (nonlinear_arith)
                    requires
                        0 <= j < rows - 1,
                        w > 0,
                ;
                assert(tail.subrange(4 * j, 4 * j + 4) == seq![
                    Packet::Data(rest.subrange(j * w, (j + 1) * w)),
                ] + commands(address_commands(row_after(s1, j + 1), s1.start.0, large)));
                assert(ps.subrange(4 * i, 4 * i + 4) =~= tail.subrange(4 * j, 4 * j + 4));
                assert(w + j * w == i * w && w + (j + 1) * w == (i + 1) * w) by (nonlinear_arith)
                    requires
                        j == i - 1,
                ;
                assert(rest.subrange(j * w, (j + 1) * w) =~= buf.subrange(i * w, (i + 1) * w));
            }
        }
    }
}

/// Display properties struct
pub struct DisplayProperties<DV, DI> {
    variant: DV,
    iface: DI,
    display_rotation: DisplayRotation,
    draw_area_start: (u8, u8),
    draw_area_end: (u8, u8),
    draw_column: u8,
    draw_row: u8,
}

impl<DV, DI> View for DisplayProperties<DV, DI> {
    type V = Addressing;

    closed spec fn view(&self) -> Addressing {
        Addressing {
            rotation: self.display_rotation,
            start: self.draw_area_start,
            end: self.draw_area_end,
            column: self.draw_column,
            row: self.draw_row,
        }
    }
}

impl<DV, DI> DisplayProperties<DV, DI> {
    /// The display variant value.
    pub closed spec fn variant(&self) -> DV {
        self.variant
    }

    /// The transport the display is reached through.
    pub closed spec fn interface(&self) -> DI {
        self.iface
    }

    /// `self` and `other` hold the same variant and transport.
    pub open spec fn same_parts(&self, other: &Self) -> bool {
        self.variant() == other.variant() && self.interface() == other.interface()
    }

    /// Mutable access to the transport, to perform queued transfers on it.
    pub fn iface_mut(&mut self) -> (r: &mut DI)
        ensures
            *r == old(self).interface(),
            final(self).interface() == *final(r),
            final(self)@ == old(self)@,
            final(self).variant() == old(self).variant(),
    {
        &mut self.iface
    }
}

impl<DV: DisplayVariant, DI> DisplayProperties<DV, DI> {
    /// Whether this variant addresses pages with the two-byte command.
    pub open spec fn large_pages() -> bool {
        DV::spec_geometry().large_page_address
    }

    /// Create new DisplayProperties instance
    pub fn new(variant: DV, iface: DI, display_rotation: DisplayRotation) -> (r: DisplayProperties<
        DV,
        DI,
    >)
        ensures
            r@ == (Addressing {
                rotation: display_rotation,
                start: (0, 0),
                end: (0, 0),
                column: 0,
                row: 0,
            }),
            r.variant() == variant,
            r.interface() == iface,
    {
        DisplayProperties {
            variant,
            iface,
            display_rotation,
            draw_area_start: (0, 0),
            draw_area_end: (0, 0),
            draw_column: 0,
            draw_row: 0,
        }
    }

    /// Initialise the display in column mode (i.e. a byte walks down a column of 8 pixels) with
    /// column 0 on the left and column _(display_width - 1)_ on the right: queues the variant's
    /// power-up sequence, then the commands of the configured rotation.
    pub fn init_column_mode(&mut self, out: &mut Vec<Transfer>)
        ensures
            final(self)@ == old(self)@,
            final(self).same_parts(old(self)),
            packets(final(out)@) == packets(old(out)@) + commands(
                DV::spec_init_commands() + rotation_commands(old(self)@.rotation),
            ),
    {
        let display_rotation = self.display_rotation;
        DV::init_column_mode(out);
        self.set_rotation(display_rotation, out);
        assert(commands(DV::spec_init_commands() + rotation_commands(display_rotation)) =~= commands(
            DV::spec_init_commands(),
        ) + commands(rotation_commands(display_rotation)));
    }

    /// Set the position in the framebuffer of the display where any sent data should be
    /// drawn. This method can be used for changing the affected area on the screen as well
    /// as (re-)setting the start point of the next `draw` call.
    pub fn set_draw_area(&mut self, start: (u8, u8), end: (u8, u8), out: &mut Vec<Transfer>)
        ensures
            final(self)@ == (Addressing {
                rotation: old(self)@.rotation,
                start,
                end,
                column: start.0,
                row: start.1,
            }),
            final(self).same_parts(old(self)),
            packets(final(out)@) == packets(old(out)@) + commands(
                address_commands(start.1, start.0, Self::large_pages()),
            ),
    {
        self.draw_area_start = start;
        self.draw_area_end = end;
        self.draw_column = start.0;
        self.draw_row = start.1;

        self.send_draw_address(out);
    }

    /// Send the data to the display for drawing at the current position in the framebuffer
    /// and advance the position accordingly. Cf. `set_draw_area` to modify the affected area by
    /// this method.
    pub fn draw(&mut self, buffer: &[u8], out: &mut Vec<Transfer>)
        requires
            buffer@.len() > 0 ==> old(self)@.cursor_in_area(),
        ensures
            final(self)@ == draw_spec(old(self)@, buffer@, Self::large_pages()).1,
            final(self).same_parts(old(self)),
            packets(final(out)@) == packets(old(out)@) + draw_spec(
                old(self)@,
                buffer@,
                Self::large_pages(),
            ).0,
    {
        let ghost large = Self::large_pages();
        let ghost full = draw_spec(self@, buffer@, large);
        let ghost sent = packets(out@);
        let mut pos: usize = 0;
        assert(buffer@.subrange(0, buffer@.len() as int) =~= buffer@);
        while pos < buffer.len()
            invariant
                pos <= buffer@.len(),
                buffer@.len() > 0 ==> self@.cursor_in_area(),
                self.same_parts(old(self)),
                large == Self::large_pages(),
                draw_spec(self@, buffer@.subrange(pos as int, buffer@.len() as int), large).1
                    == full.1,
                packets(out@) + draw_spec(
                    self@,
                    buffer@.subrange(pos as int, buffer@.len() as int),
                    large,
                ).0 == sent + full.0,
            decreases buffer@.len() - pos,
        {
            let ghost s = self@;
            let ghost rest = buffer@.subrange(pos as int, buffer@.len() as int);
            let ghost before = packets(out@);
            let count: u8 = self.draw_area_end.0 - self.draw_column;
            let left: usize = buffer.len() - pos;
            let n: usize = if (count as usize) <= left {
                count as usize
            } else {
                left
            };
            let chunk = slice_to_vec(&buffer[pos..pos + n]);
            push_transfer(out, Transfer::Data(chunk));
            self.draw_column = self.draw_column + n as u8;

            if self.draw_column >= self.draw_area_end.0 {
                self.draw_column = self.draw_area_start.0;

                self.draw_row = self.draw_row + 1;
                if self.draw_row >= self.draw_area_end.1 {
                    self.draw_row = self.draw_area_start.1;
                }

                self.send_draw_address(out);
            }
            pos = pos + n;
            proof {
                let s1 = s.advance(n as nat);
                assert(self@ == s1);
                assert(rest.subrange(0, n as int) =~= buffer@.subrange(pos - n, pos as int));
                assert(rest.subrange(n as int, rest.len() as int) =~= buffer@.subrange(
                    pos as int,
                    buffer@.len() as int,
                ));
                let tail = draw_spec(s1, buffer@.subrange(pos as int, buffer@.len() as int), large);
                let addr = if n as nat == (s.end.0 - s.column) as nat {
                    commands(address_commands(s1.row, s1.column, large))
                } else {
                    Seq::<Packet>::empty()
                };
                assert(packets(out@) =~= before + seq![
                    Packet::Data(buffer@.subrange(pos - n, pos as int)),
                ] + addr);
                assert(draw_spec(s, rest, large).0 =~= seq![
                    Packet::Data(buffer@.subrange(pos - n, pos as int)),
                ] + addr + tail.0);
                assert(packets(out@) + tail.0 =~= before + draw_spec(s, rest, large).0);
            }
        }
        assert(buffer@.subrange(pos as int, buffer@.len() as int) =~= Seq::<u8>::empty());
        assert(packets(out@) =~= packets(out@) + Seq::<Packet>::empty());
    }

    fn send_draw_address(&self, out: &mut Vec<Transfer>)
        ensures
            packets(final(out)@) == packets(old(out)@) + commands(
                address_commands(self@.row, self@.column, Self::large_pages()),
            ),
    {
        let g = DV::geometry();
        if g.large_page_address {
            Command::LargePageAddress(self.draw_row).send(out);
        } else {
            Command::PageAddress(self.draw_row).send(out);
        }
        Command::ColumnAddressLow(0xF & self.draw_column).send(out);
        Command::ColumnAddressHigh(0xF & (self.draw_column >> 4)).send(out);
    }

    /// Get display dimensions, taking into account the current rotation of the display
    pub fn get_dimensions(&self) -> (r: (u8, u8))
        ensures
            r == rotated_dimensions(self@.rotation, DV::spec_geometry()),
    {
        let (w, h) = DV::dimensions();

        match self.display_rotation {
            DisplayRotation::Rotate0 | DisplayRotation::Rotate180 => (w, h),
            DisplayRotation::Rotate90 | DisplayRotation::Rotate270 => (h, w),
        }
    }

    /// Get the display rotation
    pub fn get_rotation(&self) -> (r: DisplayRotation)
        ensures
            r == self@.rotation,
    {
        self.display_rotation
    }

    /// Set the display rotation: records it and queues the segment-remap and
    /// scan-direction commands that realise it.
    pub fn set_rotation(&mut self, display_rotation: DisplayRotation, out: &mut Vec<Transfer>)
        ensures
            final(self)@ == (Addressing { rotation: display_rotation, ..old(self)@ }),
            final(self).same_parts(old(self)),
            packets(final(out)@) == packets(old(out)@) + commands(rotation_commands(display_rotation)),
    {
        self.display_rotation = display_rotation;

        match display_rotation {
            DisplayRotation::Rotate0 => {
                Command::SegmentRemap(true).send(out);
                Command::ReverseComDir(true).send(out);
            },
            DisplayRotation::Rotate90 => {
                Command::SegmentRemap(false).send(out);
                Command::ReverseComDir(true).send(out);
            },
            DisplayRotation::Rotate180 => {
                Command::SegmentRemap(false).send(out);
                Command::ReverseComDir(false).send(out);
            },
            DisplayRotation::Rotate270 => {
                Command::SegmentRemap(true).send(out);
                Command::ReverseComDir(false).send(out);
            },
        }
    }

    /// Turn the display on or off. The display can be drawn to and retains all
    /// of its memory even while off.
    pub fn display_on(&self, on: bool, out: &mut Vec<Transfer>)
        ensures
            packets(final(out)@) == packets(old(out)@).push(
                Packet::Commands(Command::DisplayOn(on).bytes()),
            ),
    {
        Command::DisplayOn(on).send(out);
    }

    /// Set the display contrast
    pub fn set_contrast(&self, contrast: u8, out: &mut Vec<Transfer>)
        ensures
            packets(final(out)@) == packets(old(out)@).push(
                Packet::Commands(Command::Contrast(contrast).bytes()),
            ),
    {
        Command::Contrast(contrast).send(out);
    }
}

} // verus!
