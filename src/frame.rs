use vstd::prelude::*;

verus! {

/// The half of the screen that the beam has just finished, which is also
/// the interrupt that announces it. The two halves strictly alternate.
#[derive(Clone, Copy, Debug, PartialEq, Eq, Structural)]
pub enum FrameHalf {
    Top,
    Bottom,
}

impl FrameHalf {
    pub open spec fn toggled_spec(self) -> FrameHalf {
        match self {
            FrameHalf::Top => FrameHalf::Bottom,
            FrameHalf::Bottom => FrameHalf::Top,
        }
    }

    /// The restart vector the CPU is interrupted with: 1 for the top half,
    /// 2 for the bottom half.
    pub open spec fn vector_spec(self) -> u16 {
        match self {
            FrameHalf::Top => 1,
            FrameHalf::Bottom => 2,
        }
    }

    /// The other half.
    pub fn toggled(&self) -> (r: FrameHalf)
        ensures
            r == self.toggled_spec(),
            r != *self,
            r.toggled_spec() == *self,
    {
        match self {
            FrameHalf::Top => FrameHalf::Bottom,
            FrameHalf::Bottom => FrameHalf::Top,
        }
    }

    /// The interrupt vector that announces this half.
    pub fn vector(&self) -> (r: u16)
        ensures
            r == self.vector_spec(),
    {
        match self {
            FrameHalf::Top => 1,
            FrameHalf::Bottom => 2,
        }
    }
}

} // verus!
