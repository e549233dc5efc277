use oled_async::builder::{Builder, NoOutputPin};
use oled_async::command::{Command, NFrames, VcomhLevel};
use oled_async::display::DisplayVariant;
use oled_async::displayrotation::DisplayRotation;
use oled_async::displays::sh1107::{Sh1107_128_128, Sh1107_64_128};
use oled_async::displays::sh1108::{Sh1108_128_160, Sh1108_160_160, Sh1108_64_160, Sh1108_96_160};
use oled_async::displays::ssd1309::Ssd1309_128_64;
use oled_async::mode::displaymode::{DisplayMode, DisplayModeTrait};
use oled_async::mode::graphics::{GraphicsMode, ResetStep};
use oled_async::mode::raw::RawMode;
use oled_async::properties::DisplayProperties;
use oled_async::transfer::Transfer;

struct SomeDriver<P> {
    #[allow(dead_code)]
    p: P,
}

#[test]
fn test_output_pin() {
    let p = NoOutputPin::new();
    let _d = SomeDriver { p };

    assert!(true);
}

fn cmd(c: Command) -> Vec<u8> {
    c.encode()
}

fn graphics<DV: DisplayVariant>(variant: DV, rotation: DisplayRotation) -> GraphicsMode<DV, ()> {
    let raw = Builder::new(variant).with_rotation(rotation).connect(());
    raw.into()
}

fn command_bytes(ts: &[Transfer]) -> Vec<Vec<u8>> {
    ts.iter()
        .map(|t| match t {
            Transfer::Commands(b) => b.clone(),
            Transfer::Data(_) => panic!("unexpected data transfer"),
        })
        .collect()
}

fn frame_of(ts: &[Transfer]) -> Vec<u8> {
    let mut frame = Vec::new();
    for t in ts {
        if let Transfer::Data(b) = t {
            frame.extend_from_slice(b);
        }
    }
    frame
}

fn flushed<DV: DisplayVariant>(d: &mut GraphicsMode<DV, ()>) -> Vec<Transfer> {
    let mut out = Vec::new();
    d.flush(&mut out);
    out
}

#[test]
fn command_encodings_match_the_opcode_table() {
    assert_eq!(cmd(Command::AddressMode(false)), vec![0x20]);
    assert_eq!(cmd(Command::AddressMode(true)), vec![0x21]);
    assert_eq!(cmd(Command::Contrast(0x7F)), vec![0x81, 0x7F]);
    assert_eq!(cmd(Command::AllOn(false)), vec![0xA4]);
    assert_eq!(cmd(Command::AllOn(true)), vec![0xA5]);
    assert_eq!(cmd(Command::Invert(false)), vec![0xA6]);
    assert_eq!(cmd(Command::Invert(true)), vec![0xA7]);
    assert_eq!(cmd(Command::DisplayResolution(2)), vec![0xA9, 0x02]);
    assert_eq!(cmd(Command::DisplayOn(false)), vec![0xAE]);
    assert_eq!(cmd(Command::DisplayOn(true)), vec![0xAF]);
    assert_eq!(cmd(Command::ColumnAddressLow(0x3A)), vec![0x0A]);
    assert_eq!(cmd(Command::ColumnAddressHigh(0x3A)), vec![0x1A]);
    assert_eq!(cmd(Command::PageAddress(5)), vec![0xB5]);
    assert_eq!(cmd(Command::LargePageAddress(19)), vec![0xB0, 19]);
    assert_eq!(cmd(Command::StartLine(0x45)), vec![0x45]);
    assert_eq!(cmd(Command::StartLine(0)), vec![0x40]);
    assert_eq!(cmd(Command::SegmentRemap(false)), vec![0xA0]);
    assert_eq!(cmd(Command::SegmentRemap(true)), vec![0xA1]);
    assert_eq!(cmd(Command::Multiplex(63)), vec![0xA8, 0x3F]);
    assert_eq!(cmd(Command::ReverseComDir(false)), vec![0xC0]);
    assert_eq!(cmd(Command::ReverseComDir(true)), vec![0xC8]);
    assert_eq!(cmd(Command::DisplayOffset(7)), vec![0xD3, 0x07]);
    assert_eq!(cmd(Command::ComPinConfig(false)), vec![0xDA, 0x02]);
    assert_eq!(cmd(Command::ComPinConfig(true)), vec![0xDA, 0x12]);
    assert_eq!(cmd(Command::DisplayClockDiv(0x8, 0x0)), vec![0xD5, 0x80]);
    assert_eq!(cmd(Command::DisplayClockDiv(0x16, 0x23)), vec![0xD5, 0x63]);
    assert_eq!(cmd(Command::PreChargePeriod(0x1, 0xF)), vec![0xD9, 0xF1]);
    assert_eq!(cmd(Command::PreChargePeriod(0x8, 0x2)), vec![0xD9, 0x28]);
    assert_eq!(cmd(Command::VcomhDeselect(VcomhLevel::V065)), vec![0xDB, 0x10]);
    assert_eq!(cmd(Command::VcomhDeselect(VcomhLevel::V077)), vec![0xDB, 0x20]);
    assert_eq!(cmd(Command::VcomhDeselect(VcomhLevel::V083)), vec![0xDB, 0x30]);
    assert_eq!(cmd(Command::VcomhDeselect(VcomhLevel::Auto)), vec![0xDB, 0x40]);
    assert_eq!(cmd(Command::Noop), vec![0xE3]);
    assert_eq!(cmd(Command::ChargePump(false)), vec![0xAD, 0x8A]);
    assert_eq!(cmd(Command::ChargePump(true)), vec![0xAD, 0x8B]);
}

#[test]
fn encoding_is_deterministic() {
    let c = Command::PreChargePeriod(0x3, 0x4);
    assert_eq!(c.encode(), c.encode());
}

#[test]
fn send_queues_one_command_transfer() {
    let mut out = Vec::new();
    Command::Contrast(0x42).send(&mut out);
    Command::Noop.send(&mut out);
    assert_eq!(
        out,
        vec![Transfer::Commands(vec![0x81, 0x42]), Transfer::Commands(vec![0xE3])]
    );
}

#[test]
fn frame_interval_fields() {
    assert_eq!(NFrames::F2.bits(), 0b111);
    assert_eq!(NFrames::F5.bits(), 0b000);
    assert_eq!(NFrames::F256.bits(), 0b011);
}

#[test]
fn rotation_command_table() {
    let table = [
        (DisplayRotation::Rotate0, 0xA1, 0xC8),
        (DisplayRotation::Rotate90, 0xA0, 0xC8),
        (DisplayRotation::Rotate180, 0xA0, 0xC0),
        (DisplayRotation::Rotate270, 0xA1, 0xC0),
    ];
    for (rot, remap, scan) in table {
        let mut d = graphics(Ssd1309_128_64 {}, DisplayRotation::Rotate0);
        let mut out = Vec::new();
        d.set_rotation(rot, &mut out);
        assert_eq!(command_bytes(&out), vec![vec![remap], vec![scan]]);
        assert_eq!(d.get_rotation(), rot);
    }
}

#[test]
fn dimensions_follow_rotation() {
    let d = graphics(Sh1107_64_128 {}, DisplayRotation::Rotate0);
    assert_eq!(d.get_dimensions(), (64, 128));
    let d = graphics(Sh1107_64_128 {}, DisplayRotation::Rotate90);
    assert_eq!(d.get_dimensions(), (128, 64));
    let d = graphics(Sh1107_64_128 {}, DisplayRotation::Rotate180);
    assert_eq!(d.get_dimensions(), (64, 128));
    let d = graphics(Sh1107_64_128 {}, DisplayRotation::Rotate270);
    assert_eq!(d.get_dimensions(), (128, 64));
    let p = DisplayProperties::new(Sh1108_96_160 {}, (), DisplayRotation::Rotate90);
    assert_eq!(p.get_dimensions(), (160, 96));
    assert_eq!(p.get_rotation(), DisplayRotation::Rotate90);
}

#[test]
fn variant_dimensions() {
    assert_eq!(Sh1107_64_128::dimensions(), (64, 128));
    assert_eq!(Sh1107_128_128::dimensions(), (128, 128));
    assert_eq!(Sh1108_64_160::dimensions(), (64, 160));
    assert_eq!(Sh1108_96_160::dimensions(), (96, 160));
    assert_eq!(Sh1108_128_160::dimensions(), (128, 160));
    assert_eq!(Sh1108_160_160::dimensions(), (160, 160));
    assert_eq!(Ssd1309_128_64::dimensions(), (128, 64));
    assert_eq!(Sh1108_64_160::geometry().column_offset, 48);
    assert!(Sh1108_64_160::geometry().large_page_address);
    assert!(!Sh1107_64_128::geometry().large_page_address);
}

#[test]
fn flush_scenario_rotated_180() {
    let mut d = graphics(Ssd1309_128_64 {}, DisplayRotation::Rotate180);
    d.set_pixel(0, 0, 1);
    let out = flushed(&mut d);
    assert_eq!(out[0], Transfer::Commands(vec![0xB0]));
    assert_eq!(out[1], Transfer::Commands(vec![0x00]));
    assert_eq!(out[2], Transfer::Commands(vec![0x10]));
    match &out[3] {
        Transfer::Data(b) => {
            assert_eq!(b.len(), 128);
            assert_eq!(b[0] & 1, 1);
        }
        Transfer::Commands(_) => panic!("expected a data write"),
    }
}

#[test]
fn flush_sends_one_address_set_per_page() {
    let mut d = graphics(Ssd1309_128_64 {}, DisplayRotation::Rotate0);
    let out = flushed(&mut d);
    // initial address set, then per page one row write and one address set
    assert_eq!(out.len(), 3 + 8 * 4);
    let pages: Vec<u8> = out
        .iter()
        .filter_map(|t| match t {
            Transfer::Commands(b) if b[0] & 0xF0 == 0xB0 => Some(b[0] & 0x0F),
            _ => None,
        })
        .collect();
    assert_eq!(pages, vec![0, 1, 2, 3, 4, 5, 6, 7, 0]);
    for page in 0..8 {
        let base = 3 + page * 4;
        assert_eq!(out[base], Transfer::Data(vec![0; 128]));
        let next = ((page + 1) % 8) as u8;
        assert_eq!(out[base + 1], Transfer::Commands(vec![0xB0 | next]));
        assert_eq!(out[base + 2], Transfer::Commands(vec![0x00]));
        assert_eq!(out[base + 3], Transfer::Commands(vec![0x10]));
    }
}

#[test]
fn flush_large_page_variant_uses_offset_and_two_byte_pages() {
    let mut d = graphics(Sh1108_64_160 {}, DisplayRotation::Rotate0);
    let out = flushed(&mut d);
    // column offset 48 = 0x30
    assert_eq!(out[0], Transfer::Commands(vec![0xB0, 0]));
    assert_eq!(out[1], Transfer::Commands(vec![0x00]));
    assert_eq!(out[2], Transfer::Commands(vec![0x13]));
    assert_eq!(out.len(), 3 + 20 * 4);
    assert_eq!(out[3], Transfer::Data(vec![0; 64]));
    assert_eq!(out[4], Transfer::Commands(vec![0xB0, 1]));
    assert_eq!(frame_of(&out).len(), 64 * 160 / 8);
}

#[test]
fn clear_then_clearing_pixels_leaves_blank() {
    let mut d = graphics(Ssd1309_128_64 {}, DisplayRotation::Rotate0);
    d.set_pixel(5, 5, 1);
    d.set_pixel(127, 63, 1);
    d.clear();
    for (x, y) in [(0, 0), (5, 5), (127, 63), (300, 2), (64, 32)] {
        d.set_pixel(x, y, 0);
    }
    let out = flushed(&mut d);
    assert!(frame_of(&out).iter().all(|b| *b == 0));
}

#[test]
fn pixel_round_trip_each_rotation() {
    for rot in [
        DisplayRotation::Rotate0,
        DisplayRotation::Rotate90,
        DisplayRotation::Rotate180,
        DisplayRotation::Rotate270,
    ] {
        let mut d = graphics(Ssd1309_128_64 {}, rot);
        let (x, y) = (13u32, 42u32);
        d.set_pixel(x, y, 1);
        let frame = frame_of(&flushed(&mut d));
        let (idx, bit) = match rot {
            DisplayRotation::Rotate0 | DisplayRotation::Rotate180 => {
                ((y / 8) as usize * 128 + x as usize, y % 8)
            }
            DisplayRotation::Rotate90 | DisplayRotation::Rotate270 => {
                ((x / 8) as usize * 128 + y as usize, x % 8)
            }
        };
        assert_eq!(frame[idx], 1 << bit);
        assert_eq!(frame.iter().filter(|b| **b != 0).count(), 1);
        d.set_pixel(x, y, 0);
        let frame = frame_of(&flushed(&mut d));
        assert!(frame.iter().all(|b| *b == 0));
    }
}

#[test]
fn pixel_value_nonzero_means_on() {
    let mut d = graphics(Ssd1309_128_64 {}, DisplayRotation::Rotate0);
    d.set_pixel(2, 9, 200);
    d.set_pixel(2, 10, 1);
    let frame = frame_of(&flushed(&mut d));
    assert_eq!(frame[128 + 2], 0b0000_0110);
}

#[test]
fn out_of_bounds_pixels_are_ignored() {
    let mut d = graphics(Ssd1309_128_64 {}, DisplayRotation::Rotate0);
    d.set_pixel(128, 0, 1);
    d.set_pixel(0, 64, 1);
    d.set_pixel(u32::MAX, u32::MAX, 1);
    assert!(frame_of(&flushed(&mut d)).iter().all(|b| *b == 0));

    let mut d = graphics(Ssd1309_128_64 {}, DisplayRotation::Rotate90);
    d.set_pixel(64, 0, 1);
    d.set_pixel(0, 128, 1);
    assert!(frame_of(&flushed(&mut d)).iter().all(|b| *b == 0));
    // in bounds when sideways: x < 64, y < 128
    d.set_pixel(63, 127, 1);
    let frame = frame_of(&flushed(&mut d));
    assert_eq!(frame[7 * 128 + 127], 0x80);
}

#[test]
fn init_sequence_ssd1309() {
    let mut d = graphics(Ssd1309_128_64 {}, DisplayRotation::Rotate180);
    let mut out = Vec::new();
    d.init(&mut out);
    let expected: Vec<Vec<u8>> = vec![
        vec![0xAE],
        vec![0xD5, 0x80],
        vec![0xA8, 0x3F],
        vec![0xD3, 0x00],
        vec![0xDA, 0x12],
        vec![0x40],
        vec![0xAD, 0x8B],
        vec![0x81, 0x80],
        vec![0xD9, 0xF1],
        vec![0xDB, 0x40],
        vec![0xA4],
        vec![0xA6],
        vec![0xAF],
        vec![0xA0],
        vec![0xC0],
    ];
    assert_eq!(command_bytes(&out), expected);
}

#[test]
fn init_sequence_sh1108_selects_resolution() {
    let mut out = Vec::new();
    Sh1108_128_160::init_column_mode(&mut out);
    let expected: Vec<Vec<u8>> = vec![
        vec![0xAE],
        vec![0xD5, 0x60],
        vec![0xA8, 159],
        vec![0xA9, 0x02],
        vec![0xD9, 0x28],
        vec![0xD3, 0x00],
        vec![0xDA, 0x12],
        vec![0x40],
        vec![0xAD, 0x8B],
        vec![0x81, 0x80],
        vec![0xD9, 0xF1],
        vec![0xDB, 0x40],
        vec![0xA4],
        vec![0xA6],
        vec![0xAF],
    ];
    assert_eq!(command_bytes(&out), expected);

    let mut out = Vec::new();
    Sh1108_160_160::init_column_mode(&mut out);
    assert_eq!(command_bytes(&out)[3], vec![0xA9, 0x03]);
}

#[test]
fn init_sequence_sh1107() {
    let mut out = Vec::new();
    Sh1107_64_128::init_column_mode(&mut out);
    let bytes = command_bytes(&out);
    assert_eq!(bytes.len(), 12);
    assert_eq!(bytes[2], vec![0xA8, 127]);
    assert_eq!(bytes[3], vec![0xDA, 0x12]);
    assert_eq!(bytes[4], vec![0x40]);
    assert_eq!(bytes[11], vec![0xAF]);

    let mut out = Vec::new();
    Sh1107_128_128::init_column_mode(&mut out);
    let bytes = command_bytes(&out);
    assert_eq!(bytes.len(), 13);
    assert_eq!(bytes[3], vec![0xD3, 0x00]);
    assert_eq!(bytes[4], vec![0xDA, 0x12]);
    assert_eq!(bytes[5], vec![0x40]);
    assert_eq!(bytes[12], vec![0xAF]);
}

#[test]
fn draw_tolerates_partial_rows() {
    let mut p = DisplayProperties::new(Ssd1309_128_64 {}, (), DisplayRotation::Rotate0);
    let mut out = Vec::new();
    p.set_draw_area((2, 1), (5, 3), &mut out);
    assert_eq!(command_bytes(&out), vec![vec![0xB1], vec![0x02], vec![0x10]]);
    let mut out = Vec::new();
    p.draw(&[1, 2], &mut out);
    assert_eq!(out, vec![Transfer::Data(vec![1, 2])]);
    let mut out = Vec::new();
    p.draw(&[3, 4, 5, 6, 7, 8, 9], &mut out);
    assert_eq!(
        out,
        vec![
            Transfer::Data(vec![3]),
            Transfer::Commands(vec![0xB2]),
            Transfer::Commands(vec![0x02]),
            Transfer::Commands(vec![0x10]),
            Transfer::Data(vec![4, 5, 6]),
            Transfer::Commands(vec![0xB1]),
            Transfer::Commands(vec![0x02]),
            Transfer::Commands(vec![0x10]),
            Transfer::Data(vec![7, 8, 9]),
            Transfer::Commands(vec![0xB2]),
            Transfer::Commands(vec![0x02]),
            Transfer::Commands(vec![0x10]),
        ]
    );
}

#[test]
fn display_on_and_contrast() {
    let d = graphics(Ssd1309_128_64 {}, DisplayRotation::Rotate0);
    let mut out = Vec::new();
    d.display_on(true, &mut out);
    d.display_on(false, &mut out);
    d.set_contrast(0x33, &mut out);
    assert_eq!(command_bytes(&out), vec![vec![0xAF], vec![0xAE], vec![0x81, 0x33]]);
}

#[test]
fn reset_sequence() {
    let d = graphics(Ssd1309_128_64 {}, DisplayRotation::Rotate0);
    assert_eq!(
        d.reset(),
        vec![
            ResetStep::PinHigh,
            ResetStep::PinLow,
            ResetStep::DelayMs(1),
            ResetStep::PinHigh,
            ResetStep::DelayMs(10),
        ]
    );
}

#[test]
fn buffer_size_is_checked() {
    let p = DisplayProperties::new(Sh1108_160_160 {}, 7u8, DisplayRotation::Rotate0);
    let p = match GraphicsMode::with_buffer_size(p, 3199) {
        Ok(_) => panic!("buffer one byte short was accepted"),
        Err(p) => p,
    };
    let mut d = match GraphicsMode::with_buffer_size(p, 3200) {
        Ok(d) => d,
        Err(_) => panic!("exact buffer was refused"),
    };
    assert_eq!(*d.iface_mut(), 7);
    d.set_pixel(159, 159, 1);
    let mut out = Vec::new();
    d.flush(&mut out);
    assert_eq!(frame_of(&out)[3199], 0x80);
}

#[test]
fn mode_transfer_keeps_properties() {
    let raw: DisplayMode<RawMode<Sh1107_128_128, u8>> =
        Builder::new(Sh1107_128_128 {}).with_rotation(DisplayRotation::Rotate270).connect(9u8);
    let mut g: GraphicsMode<_, _> = raw.into();
    assert_eq!(g.get_rotation(), DisplayRotation::Rotate270);
    assert_eq!(*g.iface_mut(), 9);
    let props = g.release();
    assert_eq!(props.get_rotation(), DisplayRotation::Rotate270);
    let r = RawMode::new(props);
    let back = r.release();
    assert_eq!(back.get_dimensions(), (128, 128));
}

#[test]
fn draw_of_nothing_sends_nothing() {
    let mut p = DisplayProperties::new(Ssd1309_128_64 {}, (), DisplayRotation::Rotate0);
    let mut out = Vec::new();
    p.draw(&[], &mut out);
    assert!(out.is_empty());
}

#[test]
fn init_reapplies_configured_rotation() {
    let mut d = graphics(Sh1107_128_128 {}, DisplayRotation::Rotate0);
    let mut out = Vec::new();
    d.set_rotation(DisplayRotation::Rotate90, &mut out);
    let mut out = Vec::new();
    d.init(&mut out);
    let bytes = command_bytes(&out);
    assert_eq!(bytes[bytes.len() - 2], vec![0xA0]);
    assert_eq!(bytes[bytes.len() - 1], vec![0xC8]);
}
