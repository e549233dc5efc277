//! The supported display variants.

pub mod sh1107;
pub mod sh1108;
pub mod ssd1309;
