//! The camera through which the stage is seen.

use vstd::prelude::*;
use crate::marshal::FloatBits;

verus! {

/// Where the camera looks and how much it magnifies, each as a pair of
/// 32-bit floats.
#[derive(Copy, Clone, Debug, PartialEq, Eq)]
pub struct Camera {
    pub center: (FloatBits, FloatBits),
    pub zoom: (FloatBits, FloatBits),
}

impl Camera {
    /// The camera as the uniform block that the shader reads: the center,
    /// then the zoom, with nothing applied to either.
    pub open spec fn buffer(self) -> Seq<FloatBits> {
        seq![self.center.0, self.center.1, self.zoom.0, self.zoom.1]
    }

    /// The camera as the four floats of its uniform block.
    pub fn to_buffer(&self) -> (buffer: [FloatBits; 4])
        ensures
            buffer@ == self.buffer(),
    {
        let buffer = [self.center.0, self.center.1, self.zoom.0, self.zoom.1];
        assert(buffer@ =~= self.buffer());
        buffer
    }
}

} // verus!
