//! Abstraction of different operating modes

use vstd::prelude::*;

use crate::display::DisplayVariant;
use crate::properties::DisplayProperties;

verus! {

/// Display mode abstraction
pub struct DisplayMode<MODE>(pub MODE);

/// Trait with core functionality for display mode switching
pub trait DisplayModeTrait<DV, DI>: Sized {
    /// The display properties (variant, transport, addressing state) this
    /// mode owns.
    spec fn properties(&self) -> DisplayProperties<DV, DI>;

    /// The resources that belong to the mode itself are as a fresh
    /// construction leaves them.
    spec fn is_fresh(&self) -> bool;

    /// Allocate all required data and initialise display for mode
    fn new(properties: DisplayProperties<DV, DI>) -> (r: Self)
        ensures
            r.properties() == properties,
            r.is_fresh(),
    ;

    /// Release resources for reuse with different mode
    fn release(self) -> (r: DisplayProperties<DV, DI>)
        ensures
            r == self.properties(),
    ;
}

impl<MODE> DisplayMode<MODE> {
    /// Setup display to run in requested mode
    pub fn new<DV, DI>(properties: DisplayProperties<DV, DI>) -> (r: Self) where
        MODE: DisplayModeTrait<DV, DI>,

        ensures
            r.0.properties() == properties,
            r.0.is_fresh(),
    {
        DisplayMode(MODE::new(properties))
    }

    /// Change into any mode implementing DisplayModeTrait: the properties are
    /// released from the current mode and handed whole to the new one.
    pub fn into<DV, DI, NMODE: DisplayModeTrait<DV, DI>>(self) -> (r: NMODE) where
        DV: DisplayVariant,
        MODE: DisplayModeTrait<DV, DI>,

        ensures
            r.properties() == self.0.properties(),
            r.is_fresh(),
    {
        let properties = self.0.release();
        NMODE::new(properties)
    }
}

} // verus!
