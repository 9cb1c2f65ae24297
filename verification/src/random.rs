//! The pseudo-random stream behind board randomization.
//!
//! The stream is nanorand's Pcg64 generator, seeded once at startup from
//! two hardware entropy draws composed into one 128-bit seed. Its internal
//! state is opaque here: nothing is assumed about the values it yields, so
//! everything downstream is proved for every possible outcome.

use vstd::prelude::*;
use crate::life::{Grid, grid_ok};
use nanorand::Rng;

verus! {

/// nanorand's Pcg64 generator, declared so it can sit in signatures and
/// fields; its state stays opaque to verification.
#[verifier::external_type_specification]
#[verifier::external_body]
pub struct ExPcg64(nanorand::pcg64::Pcg64);

/// Compose the two 64-bit hardware entropy draws into the single 128-bit
/// seed for the pseudo-random stream: the first draw fills the upper half,
/// the second the lower half.
pub fn compose_seed(hi: u64, lo: u64) -> (seed: u128)
    ensures
        seed == ((hi as u128) << 64) | (lo as u128),
{
    ((hi as u128) << 64) | (lo as u128)
}

/// Relies on nanorand's Pcg64::new_seed: builds a generator from the given
/// seed. The generator's state is opaque, so nothing is stated of it.
#[verifier::external_body]
pub(crate) fn pcg64_from_seed(seed: u128) -> nanorand::pcg64::Pcg64 {
    nanorand::pcg64::Pcg64::new_seed(seed)
}

/// Relies on nanorand's Rng::generate for bool: draws one 50/50 bit and
/// advances the generator. The value is pseudo-random, so nothing is
/// stated of it; callers are verified for either outcome.
#[verifier::external_body]
fn rng_bool(rng: &mut nanorand::pcg64::Pcg64) -> bool {
    rng.generate::<bool>()
}

/// Overwrite every cell with an independently drawn random bit.
pub fn randomize_board(rng: &mut nanorand::pcg64::Pcg64, board: &mut Grid)
    ensures
        grid_ok(*final(board)),
{
    let mut r: usize = 0;
    while r < 5
        invariant
            r <= 5,
            forall|i: int, j: int|
                0 <= i < r && 0 <= j < 5 ==> board[i][j] == 0 || board[i][j] == 1,
        decreases 5 - r,
    {
        let mut c: usize = 0;
        while c < 5
            invariant
                r < 5,
                c <= 5,
                forall|i: int, j: int|
                    0 <= i < r && 0 <= j < 5 ==> board[i][j] == 0 || board[i][j] == 1,
                forall|j: int|
                    0 <= j < c ==> board[r as int][j] == 0 || board[r as int][j] == 1,
            decreases 5 - c,
        {
            if rng_bool(rng) {
                board[r][c] = 1;
            } else {
                board[r][c] = 0;
            }
            c = c + 1;
        }
        r = r + 1;
    }
}

} // verus!
