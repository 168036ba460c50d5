//! The sensitivity of the level, and how the two buttons select it.
use vstd::prelude::*;

verus! {

/// How much tilt the matrix spans.
#[derive(Clone, Copy, Debug, PartialEq, Eq, Structural)]
pub enum LevelMode {
    /// The matrix spans [-500, 500] milli-g on each axis.
    Coarse,
    /// The matrix spans [-50, 50] milli-g on each axis.
    Fine,
}

impl Default for LevelMode {
    /// The mode at startup.
    fn default() -> (mode: LevelMode)
        ensures
            mode == LevelMode::Coarse,
    {
        LevelMode::Coarse
    }
}

impl LevelMode {
    /// The largest magnitude, in milli-g, that is told apart in this mode.
    pub open spec fn spec_half_range(self) -> int {
        match self {
            LevelMode::Coarse => 500,
            LevelMode::Fine => 50,
        }
    }

    /// The span of milli-g that one cell of the matrix covers in this mode.
    pub open spec fn spec_bucket_width(self) -> int {
        match self {
            LevelMode::Coarse => 200,
            LevelMode::Fine => 20,
        }
    }

    /// The mode that follows `self` when the buttons are in the given state:
    /// A alone selects `Coarse`, B alone selects `Fine`, and both or neither
    /// keep the mode.
    pub open spec fn spec_resolve(self, a_pressed: bool, b_pressed: bool) -> LevelMode {
        match (a_pressed, b_pressed) {
            (true, false) => LevelMode::Coarse,
            (false, true) => LevelMode::Fine,
            _ => self,
        }
    }

    /// The largest magnitude, in milli-g, that is told apart in this mode.
    pub fn half_range(self) -> (h: i32)
        ensures
            h == self.spec_half_range(),
    {
        match self {
            LevelMode::Coarse => 500,
            LevelMode::Fine => 50,
        }
    }

    /// The span of milli-g that one cell of the matrix covers in this mode.
    pub fn bucket_width(self) -> (w: i32)
        ensures
            w == self.spec_bucket_width(),
    {
        match self {
            LevelMode::Coarse => 200,
            LevelMode::Fine => 20,
        }
    }

    /// The mode for the next frame, from the mode of the last one and the
    /// two buttons.
    #[verifier::when_used_as_spec(spec_resolve)]
    pub fn resolve(self, a_pressed: bool, b_pressed: bool) -> (next: LevelMode)
        ensures
            next == self.spec_resolve(a_pressed, b_pressed),
            a_pressed && !b_pressed ==> next == LevelMode::Coarse,
            !a_pressed && b_pressed ==> next == LevelMode::Fine,
            a_pressed == b_pressed ==> next == self,
    {
        if a_pressed && !b_pressed {
            LevelMode::Coarse
        } else if b_pressed && !a_pressed {
            LevelMode::Fine
        } else {
            self
        }
    }
}

} // verus!
