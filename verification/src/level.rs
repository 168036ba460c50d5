//! The frame loop of the level, as a state machine that the caller drives.
//!
//! The caller polls the hardware, hands what it read to [`Level::step`],
//! carries out the action that comes back and, after a render, calls
//! [`Level::finish`]. A failed read of a button or of the sensor skips the
//! frame: it is never fatal.
use vstd::prelude::*;
use crate::frame::{in_grid, FrameBuffer};
use crate::mapper::{cell_of_sample, locate_sample, Pixel};
use crate::mode::LevelMode;

verus! {

/// How long each state of the display is held, in milliseconds: five frames
/// per second.
pub const FRAME_TIME: u32 = 200;

/// What one poll of the buttons and of the sensor gave.
#[derive(Clone, Copy, Debug, PartialEq, Eq, Structural)]
pub enum Poll {
    /// A read of a button or of the sensor failed.
    Failed,
    /// The buttons were read, and the sensor has no new sample.
    Stale { a_pressed: bool, b_pressed: bool },
    /// The buttons were read, and the sensor gave a new sample `(x, y, z)`,
    /// in milli-g along its own axes.
    Fresh { a_pressed: bool, b_pressed: bool, x: i32, y: i32, z: i32 },
}

/// What the caller does next.
#[derive(Clone, Copy, Debug, PartialEq, Eq, Structural)]
pub enum Action {
    /// Nothing to show: poll again at once.
    Repoll,
    /// Drive the display from the frame buffer for `hold_ms` milliseconds,
    /// then call [`Level::finish`].
    Render { hold_ms: u32 },
    /// The board does not face up: leave the display dark and wait
    /// `hold_ms` milliseconds, so that no pixel outlives its frame.
    Blank { hold_ms: u32 },
}

/// The state that the frame loop carries from one frame to the next: the
/// active mode and the frame buffer. Between frames the buffer is dark;
/// while a frame is rendered it shows one pixel.
#[derive(Debug)]
pub struct Level {
    mode: LevelMode,
    frame: FrameBuffer,
    pulsed: Option<Pixel>,
}

impl Poll {
    /// The buttons `(a_pressed, b_pressed)` as this poll read them: neither
    /// counts as pressed where the read failed.
    pub open spec fn buttons(self) -> (bool, bool) {
        match self {
            Poll::Failed => (false, false),
            Poll::Stale { a_pressed, b_pressed } => (a_pressed, b_pressed),
            Poll::Fresh { a_pressed, b_pressed, .. } => (a_pressed, b_pressed),
        }
    }

    /// The cell that this poll lights in `mode`, if any: that of its
    /// sample, where it has one.
    pub open spec fn cell(self, mode: LevelMode) -> Option<(int, int)> {
        match self {
            Poll::Fresh { x, y, z, .. } => cell_of_sample((x as int, y as int, z as int), mode),
            _ => None,
        }
    }
}

impl Level {
    /// The active mode.
    pub closed spec fn spec_mode(&self) -> LevelMode {
        self.mode
    }

    /// The frame buffer.
    pub closed spec fn spec_frame(&self) -> FrameBuffer {
        self.frame
    }

    /// The pixel of the frame that is being rendered, if one is.
    pub closed spec fn spec_pulsed(&self) -> Option<Pixel> {
        self.pulsed
    }

    /// At most one pixel is lit: none between frames, and during a render
    /// the pulsed pixel alone, which lies on the matrix.
    pub open spec fn wf(&self) -> bool {
        match self.spec_pulsed() {
            None => self.spec_frame().blank(),
            Some(px) => in_grid(px.column as int, px.row as int) && self.spec_frame().shows_only(
                px.column as int,
                px.row as int,
            ),
        }
    }

    #[verifier::type_invariant]
    spec fn inv(&self) -> bool {
        self.wf()
    }

    /// The state at startup: coarse mode, a dark frame buffer, no frame
    /// under way.
    pub fn new() -> (level: Level)
        ensures
            level.wf(),
            level.spec_mode() == LevelMode::Coarse,
            level.spec_pulsed() is None,
    {
        Level { mode: LevelMode::Coarse, frame: FrameBuffer::new(), pulsed: None }
    }

    /// The active mode.
    pub fn mode(&self) -> (mode: LevelMode)
        ensures
            mode == self.spec_mode(),
    {
        self.mode
    }

    /// The frame buffer, to draw the display from.
    pub fn frame(&self) -> (frame: &FrameBuffer)
        ensures
            *frame == self.spec_frame(),
            self.wf(),
    {
        proof {
            use_type_invariant(self);
        }
        &self.frame
    }

    /// The pixel of the frame that is being rendered, if one is.
    pub fn pulsed(&self) -> (pulsed: Option<Pixel>)
        ensures
            pulsed == self.spec_pulsed(),
    {
        self.pulsed
    }

    /// End the frame that is being rendered, if one is: the pulsed pixel
    /// goes out, and the frame buffer is dark again.
    pub fn finish(&mut self)
        ensures
            final(self).wf(),
            final(self).spec_pulsed() is None,
            final(self).spec_frame().blank(),
            final(self).spec_mode() == old(self).spec_mode(),
    {
        proof {
            use_type_invariant(&*self);
        }
        if let Some(px) = self.pulsed {
            let mut frame = self.frame;
            frame.clear(px);
            *self = Level { mode: self.mode, frame, pulsed: None };
        }
    }

    /// Take one poll of the hardware and decide what the frame does.
    ///
    /// A frame that is still being rendered is ended first. Where the
    /// buttons were read, the mode becomes what they select. A poll without
    /// a sample gives `Repoll`. A sample of a board that faces up lights
    /// its cell in the new mode, alone, and gives `Render`; any other
    /// sample leaves the frame buffer dark and gives `Blank`. Both hold the
    /// display for `FRAME_TIME`.
    pub fn step(&mut self, poll: Poll) -> (action: Action)
        ensures
            final(self).wf(),
            final(self).spec_mode() == old(self).spec_mode().spec_resolve(
                poll.buttons().0,
                poll.buttons().1,
            ),
            match poll.cell(final(self).spec_mode()) {
                Some((column, row)) => {
                    &&& action == (Action::Render { hold_ms: FRAME_TIME })
                    &&& final(self).spec_pulsed() == Some(
                        Pixel { column: column as usize, row: row as usize },
                    )
                    &&& final(self).spec_frame().shows_only(column, row)
                },
                None => {
                    &&& final(self).spec_pulsed() is None
                    &&& final(self).spec_frame().blank()
                    &&& action == if poll is Fresh {
                        Action::Blank { hold_ms: FRAME_TIME }
                    } else {
                        Action::Repoll
                    }
                },
            },
    {
        self.finish();
        match poll {
            Poll::Failed => Action::Repoll,
            Poll::Stale { a_pressed, b_pressed } => {
                self.mode = self.mode.resolve(a_pressed, b_pressed);
                Action::Repoll
            },
            Poll::Fresh { a_pressed, b_pressed, x, y, z } => {
                self.mode = self.mode.resolve(a_pressed, b_pressed);
                match locate_sample((x, y, z), self.mode) {
                    Some(px) => {
                        let mut frame = self.frame;
                        frame.light(px);
                        *self = Level { mode: self.mode, frame, pulsed: Some(px) };
                        Action::Render { hold_ms: FRAME_TIME }
                    },
                    None => Action::Blank { hold_ms: FRAME_TIME },
                }
            },
        }
    }
}

} // verus!
