//! Controller commands and their byte encoding.

use vstd::prelude::*;

use crate::transfer::{packets, push_transfer, Packet, Transfer};

verus! {

/// Commands
#[derive(Debug, Clone, Copy, PartialEq, Eq, Structural)]
pub enum Command {
    /// Set the addressing mode.
    /// `false` is page addressing mode.
    /// `true` is vertical addressing mode.
    AddressMode(bool),
    /// Set contrast. Higher number is higher contrast. Default = 0x7F
    Contrast(u8),
    /// Turn entire display on. If set, all pixels will
    /// be set to on, if not, the value in memory will be used.
    AllOn(bool),
    /// Invert display.
    Invert(bool),
    /// Set display resolution.
    DisplayResolution(u8),
    /// Turn display on or off.
    DisplayOn(bool),
    /// Set column address lower 4 bits
    ColumnAddressLow(u8),
    /// Set column address higher 4 bits
    ColumnAddressHigh(u8),
    /// Set page address
    PageAddress(u8),
    /// Set page address, two-byte form used by controllers with many pages
    LargePageAddress(u8),
    /// Set display start line from 0-63
    StartLine(u8),
    /// Reverse columns from 127-0
    SegmentRemap(bool),
    /// Set multiplex ratio from 15-63 (MUX-1)
    Multiplex(u8),
    /// Set the scan direction of the output.
    /// `false` scans from COM0 to COM[n-1].
    /// `true` scans from COM[n-1] to COM0.
    /// Also known as SetCommonScanDir
    ReverseComDir(bool),
    /// Set vertical shift
    DisplayOffset(u8),
    /// Setup com hardware configuration
    /// First value indicates sequential (false) or alternative (true)
    /// pin configuration.
    ComPinConfig(bool),
    /// Set up display clock.
    /// First value is oscillator frequency, increasing with higher value
    /// Second value is divide ratio - 1
    DisplayClockDiv(u8, u8),
    /// Set up phase 1 and 2 of precharge period. each value is from 0-63
    PreChargePeriod(u8, u8),
    /// Set Vcomh Deselect level
    VcomhDeselect(VcomhLevel),
    /// NOOP
    Noop,
    /// Enable charge pump
    ChargePump(bool),
}

/// Frame interval
#[derive(Debug, Clone, Copy, PartialEq, Eq, Structural)]
pub enum NFrames {
    /// 2 Frames
    F2,
    /// 3 Frames
    F3,
    /// 4 Frames
    F4,
    /// 5 Frames
    F5,
    /// 25 Frames
    F25,
    /// 64 Frames
    F64,
    /// 128 Frames
    F128,
    /// 256 Frames
    F256,
}

/// Vcomh Deselect level
#[derive(Debug, Clone, Copy, PartialEq, Eq, Structural)]
pub enum VcomhLevel {
    /// 0.65 * Vcc
    V065,
    /// 0.77 * Vcc
    V077,
    /// 0.83 * Vcc
    V083,
    /// Auto
    Auto,
}

/// The register field value of a flag.
pub open spec fn flag(b: bool) -> u8 {
    if b { 1 } else { 0 }
}

fn flag_bit(b: bool) -> (r: u8)
    ensures
        r == flag(b),
{
    if b { 1 } else { 0 }
}

impl NFrames {
    /// The 3-bit field value of this frame interval.
    pub open spec fn spec_bits(self) -> u8 {
        match self {
            NFrames::F2 => 0b111,
            NFrames::F3 => 0b100,
            NFrames::F4 => 0b101,
            NFrames::F5 => 0b000,
            NFrames::F25 => 0b110,
            NFrames::F64 => 0b001,
            NFrames::F128 => 0b010,
            NFrames::F256 => 0b011,
        }
    }

    /// The 3-bit field value of this frame interval.
    pub fn bits(self) -> (r: u8)
        ensures
            r == self.spec_bits(),
    {
        match self {
            NFrames::F2 => 0b111,
            NFrames::F3 => 0b100,
            NFrames::F4 => 0b101,
            NFrames::F5 => 0b000,
            NFrames::F25 => 0b110,
            NFrames::F64 => 0b001,
            NFrames::F128 => 0b010,
            NFrames::F256 => 0b011,
        }
    }
}

impl VcomhLevel {
    /// The 3-bit field value of this level.
    pub open spec fn spec_bits(self) -> u8 {
        match self {
            VcomhLevel::V065 => 0b001,
            VcomhLevel::V077 => 0b010,
            VcomhLevel::V083 => 0b011,
            VcomhLevel::Auto => 0b100,
        }
    }

    /// The 3-bit field value of this level.
    pub fn bits(self) -> (r: u8)
        ensures
            r == self.spec_bits(),
    {
        match self {
            VcomhLevel::V065 => 0b001,
            VcomhLevel::V077 => 0b010,
            VcomhLevel::V083 => 0b011,
            VcomhLevel::Auto => 0b100,
        }
    }
}

impl Command {
    /// The bytes the controller expects for this command.
    pub open spec fn bytes(self) -> Seq<u8> {
        match self {
            Command::AddressMode(mode) => seq![0x20u8 | flag(mode)],
            Command::Contrast(val) => seq![0x81u8, val],
            Command::AllOn(on) => seq![0xA4u8 | flag(on)],
            Command::Invert(inv) => seq![0xA6u8 | flag(inv)],
            Command::DisplayResolution(resolution) => seq![0xA9u8, resolution],
            Command::DisplayOn(on) => seq![0xAEu8 | flag(on)],
            Command::ColumnAddressLow(addr) => seq![0xFu8 & addr],
            Command::ColumnAddressHigh(addr) => seq![0x10u8 | (0xFu8 & addr)],
            Command::PageAddress(page) => seq![0xB0u8 | page],
            Command::LargePageAddress(page) => seq![0xB0u8, page],
            Command::StartLine(line) => seq![0x40u8 | (0x3Fu8 & line)],
            Command::SegmentRemap(remap) => seq![0xA0u8 | flag(remap)],
            Command::Multiplex(ratio) => seq![0xA8u8, ratio],
            Command::ReverseComDir(rev) => seq![0xC0u8 | (flag(rev) << 3u8)],
            Command::DisplayOffset(offset) => seq![0xD3u8, offset],
            Command::ComPinConfig(alt) => seq![0xDAu8, 0x02u8 | (flag(alt) << 4u8)],
            Command::DisplayClockDiv(fosc, div) => seq![0xD5u8, ((0xFu8 & fosc) << 4u8) | (0xFu8 & div)],
            Command::PreChargePeriod(phase1, phase2) => seq![0xD9u8, ((0xFu8 & phase2) << 4u8) | (0xFu8 & phase1)],
            Command::VcomhDeselect(level) => seq![0xDBu8, level.spec_bits() << 4u8],
            Command::Noop => seq![0xE3u8],
            Command::ChargePump(en) => seq![0xADu8, 0x8Au8 | flag(en)],
        }
    }

    /// Encodes this command into the bytes the controller expects.
    pub fn encode(&self) -> (r: Vec<u8>)
        ensures
            r@ == self.bytes(),
            1 <= r@.len() <= 2,
    {
        match *self {
            Command::AddressMode(mode) => vec![0x20u8 | flag_bit(mode)],
            Command::Contrast(val) => vec![0x81u8, val],
            Command::AllOn(on) => vec![0xA4u8 | flag_bit(on)],
            Command::Invert(inv) => vec![0xA6u8 | flag_bit(inv)],
            Command::DisplayResolution(resolution) => vec![0xA9u8, resolution],
            Command::DisplayOn(on) => vec![0xAEu8 | flag_bit(on)],
            Command::ColumnAddressLow(addr) => vec![0xFu8 & addr],
            Command::ColumnAddressHigh(addr) => vec![0x10u8 | (0xFu8 & addr)],
            Command::PageAddress(page) => vec![0xB0u8 | page],
            Command::LargePageAddress(page) => vec![0xB0u8, page],
            Command::StartLine(line) => vec![0x40u8 | (0x3Fu8 & line)],
            Command::SegmentRemap(remap) => vec![0xA0u8 | flag_bit(remap)],
            Command::Multiplex(ratio) => vec![0xA8u8, ratio],
            Command::ReverseComDir(rev) => vec![0xC0u8 | (flag_bit(rev) << 3u8)],
            Command::DisplayOffset(offset) => vec![0xD3u8, offset],
            Command::ComPinConfig(alt) => vec![0xDAu8, 0x02u8 | (flag_bit(alt) << 4u8)],
            Command::DisplayClockDiv(fosc, div) => vec![0xD5u8, ((0xFu8 & fosc) << 4u8) | (0xFu8 & div)],
            Command::PreChargePeriod(phase1, phase2) => vec![0xD9u8, ((0xFu8 & phase2) << 4u8) | (0xFu8 & phase1)],
            Command::VcomhDeselect(level) => vec![0xDBu8, level.bits() << 4u8],
            Command::Noop => vec![0xE3u8],
            Command::ChargePump(en) => vec![0xADu8, 0x8Au8 | flag_bit(en)],
        }
    }

    /// Queues this command for sending: appends one command transfer holding
    /// its encoding to `out`.
    pub fn send(self, out: &mut Vec<Transfer>)
        ensures
            packets(final(out)@) == packets(old(out)@).push(Packet::Commands(self.bytes())),
    {
        let bytes = self.encode();
        push_transfer(out, Transfer::Commands(bytes));
    }
}

/// The command packets of a list of commands, in order.
pub open spec fn commands(cs: Seq<Command>) -> Seq<Packet> {
    cs.map_values(|c: Command| Packet::Commands(c.bytes()))
}

/// Queues each command of `cs` in turn.
pub fn send_all(cs: &Vec<Command>, out: &mut Vec<Transfer>)
    ensures
        packets(final(out)@) == packets(old(out)@) + commands(cs@),
{
    let ghost start = packets(out@);
    let mut i: usize = 0;
    while i < cs.len()
        invariant
            i <= cs@.len(),
            packets(out@) == start + commands(cs@.subrange(0, i as int)),
        decreases cs@.len() - i,
    {
        cs[i].send(out);
        proof {
            assert(commands(cs@.subrange(0, i + 1)) =~= commands(cs@.subrange(0, i as int)).push(
                Packet::Commands(cs@[i as int].bytes()),
            ));
        }
        i = i + 1;
    }
    assert(cs@.subrange(0, cs@.len() as int) =~= cs@);
}

} // verus!
