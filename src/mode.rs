//! Operating modes: what a display driver exposes depends on the mode it is in.

pub mod displaymode;
pub mod graphics;
pub mod raw;
