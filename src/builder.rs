//! Interface factory
//!
//! This is the easiest way to create a driver instance. You can set various parameters of the
//! driver and give it an interface to use. The builder will return a
//! [`RawMode`](crate::mode::raw::RawMode) object which you should coerce to a richer
//! display mode, like [`GraphicsMode`](crate::mode::graphics::GraphicsMode) for drawing
//! primitives and text.

use vstd::prelude::*;

use crate::display::DisplayVariant;
use crate::displayrotation::DisplayRotation;
use crate::mode::displaymode::{DisplayMode, DisplayModeTrait};
use crate::mode::raw::RawMode;
use crate::properties::{Addressing, DisplayProperties};

verus! {

/// Builder struct. Driver options and interface are set using its methods.
#[derive(Clone, Copy)]
pub struct Builder<DV> {
    variant: DV,
    rotation: DisplayRotation,
}

impl<DV> Builder<DV> {
    /// The display variant the driver will be built for.
    pub closed spec fn variant(&self) -> DV {
        self.variant
    }

    /// The rotation the driver will start with.
    pub closed spec fn rotation(&self) -> DisplayRotation {
        self.rotation
    }

    /// Create new builder for the given display variant, with no rotation.
    pub fn new(variant: DV) -> (r: Builder<DV>)
        ensures
            r.variant() == variant,
            r.rotation() == DisplayRotation::Rotate0,
    {
        Builder::<DV> { variant, rotation: DisplayRotation::Rotate0 }
    }

    /// Set the rotation of the display to one of four values. Defaults to no rotation.
    pub fn with_rotation(self, rotation: DisplayRotation) -> (r: Self)
        ensures
            r.variant() == self.variant(),
            r.rotation() == rotation,
    {
        Self { rotation, ..self }
    }

    /// Finish the builder and use the given interface to communicate with the display.
    pub fn connect<DI>(self, interface: DI) -> (r: DisplayMode<RawMode<DV, DI>>) where
        DV: DisplayVariant,

        ensures
            r.0.properties()@ == (Addressing {
                rotation: self.rotation(),
                start: (0, 0),
                end: (0, 0),
                column: 0,
                row: 0,
            }),
            r.0.properties().variant() == self.variant(),
            r.0.properties().interface() == interface,
    {
        let properties = DisplayProperties::new(self.variant, interface, self.rotation);
        DisplayMode::<RawMode<DV, DI>>::new(properties)
    }
}

/// Marker type for no reset pin.
#[derive(Debug, Clone, Copy, PartialEq, Eq, Structural)]
pub enum NoOutputPin {
    /// The reset line is not wired to the host.
    Unconnected,
}

impl NoOutputPin {
    /// The marker value.
    pub fn new() -> (r: NoOutputPin)
        ensures
            r == NoOutputPin::Unconnected,
    {
        NoOutputPin::Unconnected
    }
}

} // verus!
