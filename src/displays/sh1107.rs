//! SH1107 display variants and specifics

use vstd::prelude::*;

use crate::command::{commands, send_all, Command, VcomhLevel};
use crate::display::{DisplayVariant, Geometry};
use crate::transfer::{packets, Transfer};

verus! {

/// The SH1107 power-up sequence for a panel `height` pixels high, with the
/// chip-specific steps placed right after the multiplex ratio.
pub open spec fn common_init_commands(height: u8, chip_steps: Seq<Command>) -> Seq<Command> {
    seq![
        Command::DisplayOn(false),
        Command::DisplayClockDiv(0x8, 0x0),
        Command::Multiplex((height - 1) as u8),
    ] + chip_steps + init_tail()
}

/// The part of the power-up sequence that follows the chip-specific steps.
pub open spec fn init_tail() -> Seq<Command> {
    seq![
        Command::StartLine(0),
        Command::ChargePump(true),
        Command::Contrast(0x80),
        Command::PreChargePeriod(0x1, 0xF),
        Command::VcomhDeselect(VcomhLevel::Auto),
        Command::AllOn(false),
        Command::Invert(false),
        Command::DisplayOn(true),
    ]
}

/// Generic 64x128 with SH1107 controller
#[derive(Debug, Clone, Copy)]
pub struct Sh1107_64_128 {}

impl DisplayVariant for Sh1107_64_128 {
    open spec fn spec_geometry() -> Geometry {
        Geometry { width: 64, height: 128, column_offset: 32, large_page_address: false }
    }

    open spec fn spec_init_commands() -> Seq<Command> {
        common_init_commands(128, seq![Command::ComPinConfig(true)])
    }

    fn geometry() -> (g: Geometry) {
        Geometry { width: 64, height: 128, column_offset: 32, large_page_address: false }
    }

    fn init_column_mode(out: &mut Vec<Transfer>) {
        let (_, height) = Self::dimensions();
        let chip_steps = vec![Command::ComPinConfig(true)];
        assert(chip_steps@ =~= seq![Command::ComPinConfig(true)]);
        init_column_mode_common(out, height, &chip_steps);
    }
}

/// Generic 128x128 with SH1107 controller
#[derive(Debug, Clone, Copy)]
pub struct Sh1107_128_128 {}

impl DisplayVariant for Sh1107_128_128 {
    open spec fn spec_geometry() -> Geometry {
        Geometry { width: 128, height: 128, column_offset: 0, large_page_address: false }
    }

    open spec fn spec_init_commands() -> Seq<Command> {
        common_init_commands(128, seq![Command::DisplayOffset(0), Command::ComPinConfig(true)])
    }

    fn geometry() -> (g: Geometry) {
        Geometry { width: 128, height: 128, column_offset: 0, large_page_address: false }
    }

    fn init_column_mode(out: &mut Vec<Transfer>) {
        let (_, height) = Self::dimensions();
        let chip_steps = vec![Command::DisplayOffset(0), Command::ComPinConfig(true)];
        assert(chip_steps@ =~= seq![Command::DisplayOffset(0), Command::ComPinConfig(true)]);
        init_column_mode_common(out, height, &chip_steps);
    }
}

/// Queues the SH1107 power-up sequence for a panel `display_height` pixels
/// high, with `chip_steps` after the multiplex ratio.
pub fn init_column_mode_common(
    out: &mut Vec<Transfer>,
    display_height: u8,
    chip_steps: &Vec<Command>,
)
    requires
        display_height > 0,
    ensures
        packets(final(out)@) == packets(old(out)@) + commands(
            common_init_commands(display_height, chip_steps@),
        ),
{
    let head = vec![
        Command::DisplayOn(false),
        Command::DisplayClockDiv(0x8, 0x0),
        Command::Multiplex(display_height - 1),
    ];
    let tail = vec![
        Command::StartLine(0),
        // Display must be off when performing this command
        Command::ChargePump(true),
        Command::Contrast(0x80),
        Command::PreChargePeriod(0x1, 0xF),
        Command::VcomhDeselect(VcomhLevel::Auto),
        Command::AllOn(false),
        Command::Invert(false),
        Command::DisplayOn(true),
    ];
    send_all(&head, out);
    send_all(chip_steps, out);
    send_all(&tail, out);
    let ghost whole = common_init_commands(display_height, chip_steps@);
    assert(head@ + chip_steps@ + tail@ =~= whole);
    assert(commands(head@ + chip_steps@ + tail@) =~= commands(head@) + commands(chip_steps@)
        + commands(tail@));
}

} // verus!
