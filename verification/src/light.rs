//! The spotlight presets: how many there are and how the L key cycles them.
//! The presets' positions and colours are floating point and live with the
//! renderer; here they are known by index.

use vstd::prelude::*;

verus! {

/// Number of spotlight presets (upper-right warm, left cool, overhead neutral).
pub const PRESET_COUNT: usize = 3;

/// The preset that follows preset `idx` in the cycle.
pub open spec fn next_preset_spec(idx: int) -> int {
    (idx + 1) % (PRESET_COUNT as int)
}

/// The preset reached from `idx` after `n` presses of the cycle key.
pub open spec fn preset_after(idx: int, n: nat) -> int
    decreases n,
{
    if n == 0 { idx } else { next_preset_spec(preset_after(idx, (n - 1) as nat)) }
}

/// The preset that follows preset `idx`, wrapping from the last to the first.
pub fn next_preset(idx: usize) -> (next: usize)
    requires
        idx < PRESET_COUNT,
    ensures
        next == next_preset_spec(idx as int),
        next == (idx + 1) % 3,
        next < PRESET_COUNT,
{
    (idx + 1) % PRESET_COUNT
}

/// Cycling moves through the presets in order: `n` presses from a valid
/// preset `idx` land on preset `(idx + n) % PRESET_COUNT`, so every preset
/// is reached and `PRESET_COUNT` presses come back to the start.
pub proof fn lemma_preset_cycle(idx: int, n: nat)
    requires
        0 <= idx < PRESET_COUNT,
    ensures
        preset_after(idx, n) == (idx + n) % (PRESET_COUNT as int),
        0 <= preset_after(idx, n) < PRESET_COUNT,
        preset_after(idx, PRESET_COUNT as nat) == idx,
    decreases n,
{
    reveal_with_fuel(preset_after, 4);
    if n > 0 {
        lemma_preset_cycle(idx, (n - 1) as nat);
        let k = idx + n - 1;
        assert(((k % 3) + 1) % 3 == (k + 1) % 3);
    }
}

} // verus!
