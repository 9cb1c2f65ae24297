//! The board controller: owns the grid, the pseudo-random stream and the
//! two debounce instances, and decides everything that happens in one
//! display frame.
//!
//! Per frame, in order: button A randomizes the whole grid (bypassing
//! debounce by design); button B inverts the grid at most once per hold
//! window; an empty grid starts a countdown that ends in a fresh random
//! pattern; the grid as it stands then is handed back for rendering; and
//! finally the automaton advances one generation.

use vstd::prelude::*;
use crate::life::{
    Grid, grid_ok, grid_empty, stepped, inverted, in_bounds, life, invert_board, is_empty,
};
use crate::random::{pcg64_from_seed, randomize_board};
use crate::status::{Status, WAIT_TIME};

verus! {

/// Duration of one display frame, in milliseconds, handed to the display
/// sink together with the grid.
pub const FRAME: u32 = 100;

/// One cell of the 5-cell glider seed pattern.
pub open spec fn glider_cell(r: int, c: int) -> u8 {
    if (r == 1 && c == 2) || (r == 2 && c == 3) || (r == 3 && c == 1) || (r == 3 && c == 2) || (r
        == 3 && c == 3) {
        1
    } else {
        0
    }
}

/// The grid holds exactly the glider seed pattern.
pub open spec fn glider_grid(g: Grid) -> bool {
    forall|r: int, c: int| in_bounds(r, c) ==> g[r][c] == glider_cell(r, c)
}

/// Button B triggers an inversion exactly when it is pressed while the
/// debounce instance is ready.
pub open spec fn invert_fires(state: Status, pressed: bool) -> bool {
    pressed && state is Normal
}

/// One frame of the button-B debounce instance: a qualifying press starts
/// a hold of `WAIT_TIME` ticks; a hold counts down and releases on zero,
/// whatever the button level.
pub open spec fn debounce_next(state: Status, pressed: bool) -> Status {
    match state {
        Status::Normal => if pressed {
            Status::Wait(WAIT_TIME)
        } else {
            Status::Normal
        },
        Status::Wait(t) => if t == 0 {
            Status::Normal
        } else {
            Status::Wait((t - 1) as u16)
        },
    }
}

/// The empty-board recovery reseeds exactly when the grid is empty and the
/// countdown has reached zero.
pub open spec fn reseed_fires(state: Status, empty: bool) -> bool {
    empty && state == Status::Wait(0u16)
}

/// One frame of the empty-board recovery instance: it only moves while the
/// grid is empty — an empty grid starts the countdown, the countdown ticks
/// down, and zero releases back to ready.
pub open spec fn recovery_next(state: Status, empty: bool) -> Status {
    if !empty {
        state
    } else {
        match state {
            Status::Normal => Status::Wait(WAIT_TIME),
            Status::Wait(t) => if t == 0 {
                Status::Normal
            } else {
                Status::Wait((t - 1) as u16)
            },
        }
    }
}

/// Everything the board controller owns: the grid, the seeded
/// pseudo-random stream, the button-B debounce instance and the
/// empty-board recovery instance.
pub struct Controller {
    pub leds: Grid,
    pub rng: nanorand::pcg64::Pcg64,
    pub state: Status,
    pub board_state: Status,
}

/// What one frame does, spelled out over the two intermediate grids:
/// `g1` is the grid after the button-A randomize phase and `g2` after the
/// button-B invert phase. `shown` is the grid handed out for rendering and
/// `post.leds` is one generation past it.
pub open spec fn frame_rel_with(
    pre: Controller,
    post: Controller,
    shown: Grid,
    a_pressed: bool,
    b_pressed: bool,
    g1: Grid,
    g2: Grid,
) -> bool {
    &&& (if a_pressed {
        grid_ok(g1)
    } else {
        g1 == pre.leds
    })
    &&& (if invert_fires(pre.state, b_pressed) {
        inverted(g1, g2)
    } else {
        g2 == g1
    })
    &&& post.state == debounce_next(pre.state, b_pressed)
    &&& post.board_state == recovery_next(pre.board_state, grid_empty(g2))
    &&& (if reseed_fires(pre.board_state, grid_empty(g2)) {
        grid_ok(shown)
    } else {
        shown == g2
    })
    &&& stepped(shown, post.leds)
}

/// One frame relates the controller before and after: for some pair of
/// intermediate grids, the randomize, invert, recovery and advance phases
/// each did exactly their part. Only the randomly drawn grids are left
/// open, and even they are pinned down to hold single-bit cells.
pub open spec fn frame_rel(
    pre: Controller,
    post: Controller,
    shown: Grid,
    a_pressed: bool,
    b_pressed: bool,
) -> bool {
    exists|g1: Grid, g2: Grid| frame_rel_with(pre, post, shown, a_pressed, b_pressed, g1, g2)
}

impl Controller {
    /// Set up the controller: both debounce instances ready, the stream
    /// seeded, and the grid holding the glider seed or the all-dead grid.
    pub fn new(seed: u128, start_glider: bool) -> (ctl: Controller)
        ensures
            ctl.state == Status::Normal,
            ctl.board_state == Status::Normal,
            grid_ok(ctl.leds),
            start_glider ==> glider_grid(ctl.leds),
            !start_glider ==> grid_empty(ctl.leds),
    {
        let leds: Grid = if start_glider {
            [
                [0, 0, 0, 0, 0],
                [0, 0, 1, 0, 0],
                [0, 0, 0, 1, 0],
                [0, 1, 1, 1, 0],
                [0, 0, 0, 0, 0],
            ]
        } else {
            [[0;5];5]
        };
        Controller {
            leds,
            rng: pcg64_from_seed(seed),
            state: Status::Normal,
            board_state: Status::Normal,
        }
    }

    /// Run one display frame: randomize on button A, invert at most once
    /// per hold window on button B, drive the empty-board recovery, hand
    /// back the grid to render, and advance the automaton past it.
    pub fn frame(&mut self, a_pressed: bool, b_pressed: bool) -> (shown: Grid)
        ensures
            frame_rel(*old(self), *final(self), shown, a_pressed, b_pressed),
            final(self).state == debounce_next(old(self).state, b_pressed),
            grid_ok(final(self).leds),
    {
        let ghost pre = *self;
        if a_pressed {
            randomize_board(&mut self.rng, &mut self.leds);
        }
        let ghost g1 = self.leds;

        match (b_pressed, self.state) {
            (true, Status::Normal) => {
                invert_board(&mut self.leds);
                self.state = self.state.flip();
            },
            (_, Status::Wait(ticks)) => {
                if ticks == 0 {
                    self.state = self.state.flip();
                } else {
                    self.state = self.state.wait_one();
                }
            },
            (false, Status::Normal) => {},
        }
        let ghost g2 = self.leds;

        if is_empty(&self.leds) {
            match self.board_state {
                Status::Normal => {
                    self.board_state = self.board_state.flip();
                },
                Status::Wait(ticks) => {
                    if ticks == 0 {
                        self.board_state = self.board_state.flip();
                        randomize_board(&mut self.rng, &mut self.leds);
                    } else {
                        self.board_state = self.board_state.wait_one();
                    }
                },
            }
        }

        let shown: Grid = self.leds;
        life(&mut self.leds);
        proof {
            assert(frame_rel_with(pre, *self, shown, a_pressed, b_pressed, g1, g2));
        }
        shown
    }
}

} // verus!
