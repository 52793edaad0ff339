//! How many times a macro is played.
use vstd::prelude::*;

verus! {

/// How often playback goes through the events of a macro.
#[derive(Clone, Copy, Debug, PartialEq, Eq, Structural)]
pub enum LoopMode {
    /// One pass.
    Once,
    /// The given number of passes; a count of 0 or 1 still plays one pass.
    Count(u32),
    /// Passes until playback is stopped.
    Infinite,
}

/// The number of passes a loop mode asks for, `None` when it never ends.
pub open spec fn total_passes(mode: LoopMode) -> Option<nat> {
    match mode {
        LoopMode::Once => Some(1),
        LoopMode::Count(n) => Some(if n <= 1 { 1 } else { n as nat }),
        LoopMode::Infinite => None,
    }
}

/// The passes still to come once the current one is over, `None` when they never end.
pub open spec fn passes_after_current(mode: LoopMode) -> Option<nat> {
    match mode {
        LoopMode::Once => Some(0),
        LoopMode::Count(n) => Some(if n <= 1 { 0 } else { (n - 1) as nat }),
        LoopMode::Infinite => None,
    }
}

/// What ending a pass does to a loop mode: whether another pass follows, and
/// the mode afterwards (a count goes down by one, and is left at 0 by its last pass).
pub open spec fn after_pass(mode: LoopMode) -> (bool, LoopMode) {
    match mode {
        LoopMode::Once => (false, LoopMode::Once),
        LoopMode::Infinite => (true, LoopMode::Infinite),
        LoopMode::Count(n) => if n > 1 {
            (true, LoopMode::Count((n - 1) as u32))
        } else {
            (false, LoopMode::Count(0))
        },
    }
}

/// Called when a pass ends: whether another pass follows.
pub fn next_loop(mode: &mut LoopMode) -> (again: bool)
    ensures
        (again, *final(mode)) == after_pass(*old(mode)),
{
    match mode {
        LoopMode::Once => false,
        LoopMode::Infinite => true,
        LoopMode::Count(count) => {
            if *count > 1 {
                *count = *count - 1;
                true
            } else {
                *count = 0;
                false
            }
        },
    }
}

/// Law: a pass is followed by another exactly while passes remain, and each
/// pass uses one up, so a count of `n` gives `n` passes in all.
pub proof fn lemma_next_loop_counts_down(mode: LoopMode)
    ensures
        after_pass(mode).0 <==> passes_after_current(mode) != Some(0nat),
        after_pass(mode).0 ==> match passes_after_current(mode) {
            Some(k) => passes_after_current(after_pass(mode).1) == Some((k - 1) as nat),
            None => passes_after_current(after_pass(mode).1) is None,
        },
        total_passes(mode) == match passes_after_current(mode) {
            Some(k) => Some(k + 1),
            None => None::<nat>,
        },
{
}

/// `mode` after `k` passes have ended.
pub open spec fn after_passes(mode: LoopMode, k: nat) -> LoopMode
    decreases k,
{
    if k == 0 {
        mode
    } else {
        after_pass(after_passes(mode, (k - 1) as nat)).1
    }
}

/// Law: with a count of `n >= 1`, the ends of the first `n - 1` passes each
/// ask for another pass, the end of pass `n` does not and leaves the count
/// at 0, and every later call does not either and keeps it at 0; so exactly
/// `n` passes are played.
pub proof fn lemma_count_gives_n_passes(n: u32, k: nat)
    requires
        n >= 1,
    ensures
        k < n - 1 ==> after_pass(after_passes(LoopMode::Count(n), k)).0,
        k == n - 1 ==> after_pass(after_passes(LoopMode::Count(n), k)) == (false, LoopMode::Count(0)),
        k >= n ==> after_passes(LoopMode::Count(n), k) == LoopMode::Count(0)
            && after_pass(after_passes(LoopMode::Count(n), k)) == (false, LoopMode::Count(0)),
    decreases k,
{
    if k > 0 {
        lemma_count_gives_n_passes(n, (k - 1) as nat);
    }
    if k < n {
        lemma_count_left(n, k);
    }
}

/// With a count of `n`, `k < n` passes leave a count of `n - k`.
proof fn lemma_count_left(n: u32, k: nat)
    requires
        k < n,
    ensures
        after_passes(LoopMode::Count(n), k) == LoopMode::Count((n - k) as u32),
    decreases k,
{
    if k > 0 {
        lemma_count_left(n, (k - 1) as nat);
    }
}

} // verus!
