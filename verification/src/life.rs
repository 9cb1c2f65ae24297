//! The automaton engine: a 5x5 bounded two-state grid under the standard
//! neighbor-counting rule, with no wraparound.
//!
//! A cell is alive when it holds 1; every update writes only 0 or 1. The
//! next generation is computed from a snapshot of the whole grid, so no
//! cell ever reads a partially updated neighborhood.

use vstd::prelude::*;

verus! {

/// The grid: 5 rows of 5 single-bit cells.
pub type Grid = [[u8; 5]; 5];

/// Both coordinates lie on the grid.
pub open spec fn in_bounds(r: int, c: int) -> bool {
    0 <= r < 5 && 0 <= c < 5
}

/// The cell at (r, c) is alive.
pub open spec fn cell_alive(g: Grid, r: int, c: int) -> bool {
    in_bounds(r, c) && g[r][c] == 1
}

/// Every cell holds 0 or 1.
pub open spec fn grid_ok(g: Grid) -> bool {
    forall|r: int, c: int| in_bounds(r, c) ==> g[r][c] == 0 || g[r][c] == 1
}

/// No cell is alive.
pub open spec fn grid_empty(g: Grid) -> bool {
    forall|r: int, c: int| in_bounds(r, c) ==> g[r][c] == 0
}

/// 1 when (r, c) is an on-grid live cell, else 0. Off-grid positions count
/// as 0, which is what gives border cells their smaller neighborhoods.
pub open spec fn nbr(g: Grid, r: int, c: int) -> int {
    if cell_alive(g, r, c) {
        1
    } else {
        0
    }
}

/// Number of live cells among the up-to-8 in-bounds neighbors of (r, c).
pub open spec fn live_neighbors(g: Grid, r: int, c: int) -> int {
    nbr(g, r - 1, c - 1) + nbr(g, r - 1, c) + nbr(g, r - 1, c + 1) + nbr(g, r, c - 1) + nbr(
        g,
        r,
        c + 1,
    ) + nbr(g, r + 1, c - 1) + nbr(g, r + 1, c) + nbr(g, r + 1, c + 1)
}

/// The update rule for one cell: a live cell survives on 2 or 3 live
/// neighbors, a dead cell is born on exactly 3.
pub open spec fn step_cell(g: Grid, r: int, c: int) -> u8 {
    if cell_alive(g, r, c) {
        if live_neighbors(g, r, c) == 2 || live_neighbors(g, r, c) == 3 {
            1
        } else {
            0
        }
    } else {
        if live_neighbors(g, r, c) == 3 {
            1
        } else {
            0
        }
    }
}

/// `next` is exactly one generation after `prev`.
pub open spec fn stepped(prev: Grid, next: Grid) -> bool {
    forall|r: int, c: int| in_bounds(r, c) ==> next[r][c] == step_cell(prev, r, c)
}

/// `inv` is `orig` photo-negated: every 1 became 0 and everything else 1.
pub open spec fn inverted(orig: Grid, inv: Grid) -> bool {
    forall|r: int, c: int|
        in_bounds(r, c) ==> inv[r][c] == (if orig[r][c] == 1 {
            0u8
        } else {
            1u8
        })
}

/// Count the live cells among the in-bounds neighbors of (r, c).
pub fn count_neighbors(g: &Grid, r: usize, c: usize) -> (n: u8)
    requires
        r < 5,
        c < 5,
    ensures
        n as int == live_neighbors(*g, r as int, c as int),
{
    let mut n: u8 = 0;
    if r > 0 {
        if c > 0 && g[r - 1][c - 1] == 1 {
            n = n + 1;
        }
        if g[r - 1][c] == 1 {
            n = n + 1;
        }
        if c < 4 && g[r - 1][c + 1] == 1 {
            n = n + 1;
        }
    }
    if c > 0 && g[r][c - 1] == 1 {
        n = n + 1;
    }
    if c < 4 && g[r][c + 1] == 1 {
        n = n + 1;
    }
    if r < 4 {
        if c > 0 && g[r + 1][c - 1] == 1 {
            n = n + 1;
        }
        if g[r + 1][c] == 1 {
            n = n + 1;
        }
        if c < 4 && g[r + 1][c + 1] == 1 {
            n = n + 1;
        }
    }
    n
}

/// Advance the grid by one generation. The rule is applied to every cell
/// against a snapshot of the old grid, so the update is a pure function of
/// the previous generation.
pub fn life(board: &mut Grid)
    ensures
        stepped(*old(board), *final(board)),
        grid_ok(*final(board)),
{
    let snap: Grid = *board;
    let mut r: usize = 0;
    while r < 5
        invariant
            r <= 5,
            snap == *old(board),
            forall|i: int, j: int|
                0 <= i < r && 0 <= j < 5 ==> board[i][j] == step_cell(snap, i, j),
        decreases 5 - r,
    {
        let mut c: usize = 0;
        while c < 5
            invariant
                r < 5,
                c <= 5,
                snap == *old(board),
                forall|i: int, j: int|
                    0 <= i < r && 0 <= j < 5 ==> board[i][j] == step_cell(snap, i, j),
                forall|j: int| 0 <= j < c ==> board[r as int][j] == step_cell(snap, r as int, j),
            decreases 5 - c,
        {
            let n = count_neighbors(&snap, r, c);
            let here_alive = snap[r][c] == 1;
            let next: u8 = if here_alive {
                if n == 2 || n == 3 {
                    1
                } else {
                    0
                }
            } else {
                if n == 3 {
                    1
                } else {
                    0
                }
            };
            board[r][c] = next;
            c = c + 1;
        }
        r = r + 1;
    }
}

/// Overwrite every cell with its photo-negative: live becomes dead and
/// dead becomes live.
pub fn invert_board(board: &mut Grid)
    ensures
        inverted(*old(board), *final(board)),
        grid_ok(*final(board)),
{
    let mut r: usize = 0;
    while r < 5
        invariant
            r <= 5,
            forall|i: int, j: int|
                r <= i < 5 && 0 <= j < 5 ==> board[i][j] == old(board)[i][j],
            forall|i: int, j: int|
                0 <= i < r && 0 <= j < 5 ==> board[i][j] == (if old(board)[i][j] == 1 {
                    0u8
                } else {
                    1u8
                }),
        decreases 5 - r,
    {
        let mut c: usize = 0;
        while c < 5
            invariant
                r < 5,
                c <= 5,
                forall|i: int, j: int|
                    r < i < 5 && 0 <= j < 5 ==> board[i][j] == old(board)[i][j],
                forall|j: int| c <= j < 5 ==> board[r as int][j] == old(board)[r as int][j],
                forall|i: int, j: int|
                    0 <= i < r && 0 <= j < 5 ==> board[i][j] == (if old(board)[i][j] == 1 {
                        0u8
                    } else {
                        1u8
                    }),
                forall|j: int|
                    0 <= j < c ==> board[r as int][j] == (if old(board)[r as int][j] == 1 {
                        0u8
                    } else {
                        1u8
                    }),
            decreases 5 - c,
        {
            board[r][c] = if board[r][c] == 1 {
                0
            } else {
                1
            };
            c = c + 1;
        }
        r = r + 1;
    }
}

/// True exactly when no cell of the grid is alive.
pub fn is_empty(board: &Grid) -> (b: bool)
    ensures
        b == grid_empty(*board),
{
    let mut r: usize = 0;
    while r < 5
        invariant
            r <= 5,
            forall|i: int, j: int| 0 <= i < r && 0 <= j < 5 ==> board[i][j] == 0,
        decreases 5 - r,
    {
        let mut c: usize = 0;
        while c < 5
            invariant
                r < 5,
                c <= 5,
                forall|i: int, j: int| 0 <= i < r && 0 <= j < 5 ==> board[i][j] == 0,
                forall|j: int| 0 <= j < c ==> board[r as int][j] == 0,
            decreases 5 - c,
        {
            if board[r][c] != 0 {
                proof {
                    assert(in_bounds(r as int, c as int));
                    assert(board[r as int][c as int] != 0);
                    assert(!grid_empty(*board));
                }
                return false;
            }
            c = c + 1;
        }
        r = r + 1;
    }
    true
}

/// The all-dead grid is a fixed point of the update rule: one generation
/// after an empty grid, every cell is still dead.
pub proof fn lemma_empty_fixed_point(prev: Grid, next: Grid)
    requires
        grid_empty(prev),
        stepped(prev, next),
    ensures
        grid_empty(next),
{
    assert forall|r: int, c: int| in_bounds(r, c) implies next[r][c] == 0 by {
        assert(live_neighbors(prev, r, c) == 0);
        assert(!cell_alive(prev, r, c));
    }
}

/// The rule, cell by cell: a dead cell with exactly 3 live neighbors is
/// born, and a live cell with 0, 1, or 4-or-more live neighbors dies.
pub proof fn lemma_birth_and_death(g: Grid, r: int, c: int)
    requires
        in_bounds(r, c),
    ensures
        !cell_alive(g, r, c) && live_neighbors(g, r, c) == 3 ==> step_cell(g, r, c) == 1,
        cell_alive(g, r, c) && (live_neighbors(g, r, c) <= 1 || live_neighbors(g, r, c) >= 4)
            ==> step_cell(g, r, c) == 0,
{
}

/// Border cells only see what is in bounds: any cell has at most 8 live
/// neighbors, an edge cell at most 5, and a corner cell at most 3.
pub proof fn lemma_border_neighbors(g: Grid, r: int, c: int)
    requires
        in_bounds(r, c),
    ensures
        0 <= live_neighbors(g, r, c) <= 8,
        r == 0 || r == 4 || c == 0 || c == 4 ==> live_neighbors(g, r, c) <= 5,
        (r == 0 || r == 4) && (c == 0 || c == 4) ==> live_neighbors(g, r, c) <= 3,
{
}

} // verus!
