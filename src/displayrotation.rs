//! Display rotation.

use vstd::prelude::*;

verus! {

/// One of the four orientations the panel can be driven in.
#[derive(Debug, Clone, Copy, PartialEq, Eq, Structural)]
pub enum DisplayRotation {
    /// No rotation, normal display
    Rotate0,
    /// Rotate by 90 degrees clockwise
    Rotate90,
    /// Rotate by 180 degrees clockwise
    Rotate180,
    /// Rotate 270 degrees clockwise
    Rotate270,
}

impl DisplayRotation {
    /// True for the two orientations in which width and height trade places.
    pub open spec fn is_sideways(self) -> bool {
        self == DisplayRotation::Rotate90 || self == DisplayRotation::Rotate270
    }

    /// Value of the segment-remap flag that realises this orientation.
    pub open spec fn segment_remap(self) -> bool {
        match self {
            DisplayRotation::Rotate0 => true,
            DisplayRotation::Rotate90 => false,
            DisplayRotation::Rotate180 => false,
            DisplayRotation::Rotate270 => true,
        }
    }

    /// Value of the reversed common-scan-direction flag that realises this
    /// orientation.
    pub open spec fn reverse_com_dir(self) -> bool {
        match self {
            DisplayRotation::Rotate0 => true,
            DisplayRotation::Rotate90 => true,
            DisplayRotation::Rotate180 => false,
            DisplayRotation::Rotate270 => false,
        }
    }
}

} // verus!
