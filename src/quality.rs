//! The quality schedule of the size search: a geometric decay from a fixed
//! ceiling down to a floor.

use vstd::prelude::*;

verus! {

/// The JPEG quality below which the search never goes.
pub const QUALITY_FLOOR: u8 = 10;

/// The JPEG quality at which the size search always starts.
pub const QUALITY_CEILING: u8 = 95;

/// Number of decay steps that take the ceiling down to the floor.
pub const DECAY_STEPS: u8 = 18;

/// One decay step: nine tenths of `q`, rounded down, and never below the floor.
pub open spec fn decayed(q: u8) -> u8 {
    if (q as int * 9) / 10 < QUALITY_FLOOR as int {
        QUALITY_FLOOR
    } else {
        ((q as int * 9) / 10) as u8
    }
}

/// The quality tried in round `k` of the size search.
pub open spec fn quality_at(k: nat) -> u8
    decreases k,
{
    if k == 0 {
        QUALITY_CEILING
    } else {
        decayed(quality_at((k - 1) as nat))
    }
}

/// The quality that follows `q` in the size search.
pub fn next_quality(q: u8) -> (r: u8)
    ensures
        r == decayed(q),
{
    let d: u16 = (q as u16 * 9) / 10;
    if d < QUALITY_FLOOR as u16 {
        QUALITY_FLOOR
    } else {
        d as u8
    }
}

/// Above the floor every step strictly lowers the quality, and no step goes
/// below the floor.
pub proof fn lemma_decay_decreases(q: u8)
    ensures
        decayed(q) >= QUALITY_FLOOR,
        q > QUALITY_FLOOR ==> decayed(q) < q,
        q <= QUALITY_FLOOR ==> decayed(q) == QUALITY_FLOOR,
{
}

/// Starting at the ceiling, the schedule stays above the floor for exactly
/// `DECAY_STEPS` rounds and sits on the floor from then on, so the size search
/// ends after at most `DECAY_STEPS + 1` encodes.
pub proof fn lemma_schedule_reaches_floor(k: nat)
    ensures
        k < DECAY_STEPS ==> quality_at(k) > QUALITY_FLOOR,
        k >= DECAY_STEPS ==> quality_at(k) == QUALITY_FLOOR,
    decreases k,
{
    assert(quality_at(0) == 95);
    assert(quality_at(1) == 85);
    assert(quality_at(2) == 76);
    assert(quality_at(3) == 68);
    assert(quality_at(4) == 61);
    assert(quality_at(5) == 54);
    assert(quality_at(6) == 48);
    assert(quality_at(7) == 43);
    assert(quality_at(8) == 38);
    assert(quality_at(9) == 34);
    assert(quality_at(10) == 30);
    assert(quality_at(11) == 27);
    assert(quality_at(12) == 24);
    assert(quality_at(13) == 21);
    assert(quality_at(14) == 18);
    assert(quality_at(15) == 16);
    assert(quality_at(16) == 14);
    assert(quality_at(17) == 12);
    assert(quality_at(18) == 10);
    if k > DECAY_STEPS {
        lemma_schedule_reaches_floor((k - 1) as nat);
    }
}

} // verus!
