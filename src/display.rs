//! Display variant: what distinguishes one panel/controller pairing from another.

use vstd::prelude::*;

use crate::command::{commands, Command};
use crate::transfer::{packets, Transfer};

verus! {

/// Largest frame, in bytes, that any supported panel needs (160 x 160 pixels).
pub const MAX_FRAME_BYTES: usize = 160 * 160 / 8;

/// Native (unrotated) geometry of a panel.
#[derive(Debug, Clone, Copy, PartialEq, Eq, Structural)]
pub struct Geometry {
    /// Width in pixels
    pub width: u8,
    /// Height in pixels
    pub height: u8,
    /// Controller column of the panel's first pixel column
    pub column_offset: u8,
    /// Whether page addresses use the two-byte command
    pub large_page_address: bool,
}

impl Geometry {
    /// The panel is made of whole 8-row pages, its frame fits the largest
    /// buffer, and its columns are addressable in one byte.
    pub open spec fn wf(self) -> bool {
        &&& 0 < self.width
        &&& 0 < self.height
        &&& self.height % 8 == 0
        &&& self.width as int * self.height as int / 8 <= MAX_FRAME_BYTES as int
        &&& self.width as int + self.column_offset as int <= 255
    }

    /// Number of pages (8-row bands).
    pub open spec fn pages(self) -> int {
        self.height as int / 8
    }

    /// Size in bytes of one frame.
    pub open spec fn frame_len(self) -> int {
        self.width as int * self.height as int / 8
    }
}

/// Trait to represent a specific display
pub trait DisplayVariant: Sized {
    /// The panel's native geometry.
    spec fn spec_geometry() -> Geometry;

    /// The commands that bring the controller up in column mode.
    spec fn spec_init_commands() -> Seq<Command>;

    /// The panel's native geometry.
    fn geometry() -> (g: Geometry)
        ensures
            g == Self::spec_geometry(),
            g.wf(),
    ;

    /// The panel's native (width, height) in pixels.
    fn dimensions() -> (r: (u8, u8))
        ensures
            r == (Self::spec_geometry().width, Self::spec_geometry().height),
            Self::spec_geometry().wf(),
    {
        let g = Self::geometry();
        (g.width, g.height)
    }

    /// Queues the commands that initialise the display in column mode.
    fn init_column_mode(out: &mut Vec<Transfer>)
        ensures
            packets(final(out)@) == packets(old(out)@) + commands(Self::spec_init_commands()),
    ;
}

} // verus!
