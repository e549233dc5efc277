//! Raw mode for coercion into richer driver types
//!
//! A display driver instance without high level functionality used as a return type from the
//! builder. Used as a source to coerce the driver into richer modes like
//! [`GraphicsMode`](super::graphics::GraphicsMode).

use vstd::prelude::*;

use crate::display::DisplayVariant;
use crate::mode::displaymode::DisplayModeTrait;
use crate::properties::DisplayProperties;

verus! {

/// Raw display mode
pub struct RawMode<DV, DI> {
    properties: DisplayProperties<DV, DI>,
}

impl<DV, DI> DisplayModeTrait<DV, DI> for RawMode<DV, DI> {
    closed spec fn properties(&self) -> DisplayProperties<DV, DI> {
        self.properties
    }

    open spec fn is_fresh(&self) -> bool {
        true
    }

    /// Create new RawMode instance
    fn new(properties: DisplayProperties<DV, DI>) -> (r: Self) {
        RawMode { properties }
    }

    /// Release all resources used by RawMode
    fn release(self) -> (r: DisplayProperties<DV, DI>) {
        self.properties
    }
}

impl<DV: DisplayVariant, DI> RawMode<DV, DI> {
    /// Create a new raw display mode
    pub fn new(properties: DisplayProperties<DV, DI>) -> (r: Self)
        ensures
            r.properties() == properties,
    {
        RawMode { properties }
    }
}

} // verus!
