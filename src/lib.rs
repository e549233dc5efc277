//! Protocol and framebuffer engine for monochrome OLED controllers of the
//! SH1107 / SH1108 / SSD1309 family.
//!
//! The library never touches a bus itself: every operation that talks to the
//! controller appends the bus transfers it needs, in order, to a caller-owned
//! list of [`Transfer`]s. The caller hands them to its transport one by one and
//! stops at the first failure.

pub mod builder;
pub mod command;
pub mod display;
pub mod displayrotation;
pub mod displays;
pub mod mode;
pub mod properties;
pub mod transfer;

pub use builder::{Builder, NoOutputPin};
pub use command::{Command, NFrames, VcomhLevel};
pub use display::{DisplayVariant, Geometry};
pub use displayrotation::DisplayRotation;
pub use mode::displaymode::{DisplayMode, DisplayModeTrait};
pub use mode::graphics::{GraphicsMode, ResetStep};
pub use mode::raw::RawMode;
pub use properties::DisplayProperties;
pub use transfer::{Packet, Transfer};
