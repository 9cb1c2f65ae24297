//! Debounce / cooldown state machine.
//!
//! `Status` converts a sustained input assertion into at most one logical
//! trigger per hold window, and doubles as a countdown before an automatic
//! action fires. Two independent instances are driven once per frame by the
//! board controller.

use vstd::prelude::*;

verus! {

/// Number of frames a debounce instance holds in `Wait` after a trigger.
pub const WAIT_TIME: u16 = 4;

/// Debounce state: `Normal` accepts a new trigger; `Wait(n)` holds for `n`
/// more frames, counting down one per frame.
#[derive(Clone, Copy, PartialEq, Eq, Structural, Debug)]
pub enum Status {
    Normal,
    Wait(u16),
}

/// What `Status::flip` returns: enter a fresh hold from `Normal`, release
/// a hold unconditionally.
pub open spec fn spec_flip(s: Status) -> Status {
    match s {
        Status::Normal => Status::Wait(WAIT_TIME),
        Status::Wait(_) => Status::Normal,
    }
}

/// What `Status::wait_one` returns: decrement a hold by one, saturating at
/// zero; `Normal` is unaffected.
pub open spec fn spec_wait_one(s: Status) -> Status {
    match s {
        Status::Normal => Status::Normal,
        Status::Wait(t) => Status::Wait(if t == 0 { 0u16 } else { (t - 1) as u16 }),
    }
}

/// `n` applications of `spec_wait_one` to `s`.
pub open spec fn wait_many(s: Status, n: nat) -> Status
    decreases n,
{
    if n == 0 {
        s
    } else {
        spec_wait_one(wait_many(s, (n - 1) as nat))
    }
}

impl Status {
    /// Toggle between the two variants: from `Normal`, start a hold of
    /// `WAIT_TIME` ticks; from any `Wait`, release immediately.
    pub fn flip(self) -> (s: Self)
        ensures
            s == spec_flip(self),
    {
        match self {
            Status::Normal => Status::Wait(WAIT_TIME),
            Status::Wait(_) => Status::Normal,
        }
    }

    /// Count a hold down by one tick, never below zero; leave `Normal` alone.
    pub fn wait_one(self) -> (s: Self)
        ensures
            s == spec_wait_one(self),
    {
        match self {
            Status::Normal => Status::Normal,
            Status::Wait(ticks) => Status::Wait(if ticks == 0 { 0 } else { ticks - 1 }),
        }
    }
}

/// Counting down from a hold of `t` ticks: after `n <= t` ticks, `t - n`
/// ticks remain.
pub proof fn lemma_wait_counts_down(t: u16, n: nat)
    requires
        n <= t,
    ensures
        wait_many(Status::Wait(t), n) == Status::Wait((t - n) as u16),
    decreases n,
{
    if n > 0 {
        lemma_wait_counts_down(t, (n - 1) as nat);
    }
}

/// The debounce cycle: `flip` from `Normal` starts a hold of `WAIT_TIME`
/// ticks; `WAIT_TIME` ticks of `wait_one` bring it to `Wait(0)`; a further
/// tick saturates at `Wait(0)`; and `flip` from any hold releases to
/// `Normal` at once, whatever remains.
pub proof fn lemma_debounce_cycle(t: u16)
    ensures
        spec_flip(Status::Normal) == Status::Wait(WAIT_TIME),
        wait_many(Status::Wait(WAIT_TIME), WAIT_TIME as nat) == Status::Wait(0),
        spec_wait_one(Status::Wait(0)) == Status::Wait(0),
        spec_flip(Status::Wait(t)) == Status::Normal,
{
    lemma_wait_counts_down(WAIT_TIME, WAIT_TIME as nat);
}

} // verus!
