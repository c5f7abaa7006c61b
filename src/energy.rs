//! Energy sharing between the two ends of a joint.

use vstd::prelude::*;
use crate::genome::{friendly, lower_part, sat_u32, share_total_roughly, Ball};
use crate::tuning::PhysicsTuning;
use crate::vector::UNIT;

verus! {

/// Range of the fraction a poorer hostile parent keeps.
pub const POOR_PARENT_RATE_MIN: u32 = 100_000;
pub const POOR_PARENT_RATE_MAX: u32 = 500_000;

/// `|a - b|`.
pub open spec fn abs_diff(a: int, b: int) -> int {
    if a >= b {
        a - b
    } else {
        b - a
    }
}

/// The point of `[lo, hi)` that a uniform draw `u` in `[0, UNIT)` selects;
/// `lo` when the range is empty.
pub open spec fn rate_in(lo: u32, hi: u32, u: u32) -> int {
    if lo < hi {
        lo + (hi - lo) * u / (UNIT as int)
    } else {
        lo as int
    }
}

/// `r`, capped at one whole.
pub open spec fn capped(r: int) -> int {
    if r > UNIT {
        UNIT as int
    } else {
        r
    }
}

/// The fraction of the pooled life points that the parent keeps, or `None`
/// when nothing is transferred. `u` is a uniform draw used by the hostile case.
pub open spec fn sharing_rate(p: Ball, c: Ball, t: PhysicsTuning, u: u32) -> Option<int> {
    let diff = abs_diff(p.life_points as int, c.life_points as int);
    let pf = friendly(p, c);
    let cf = friendly(c, p);
    if !t.energy_transfer_enabled {
        None
    } else if pf && cf && diff < t.energy_share_diff_threshold {
        None
    } else if pf && cf {
        Some(t.energy_share_friendly_rate as int)
    } else if !pf && !cf {
        if p.life_points > c.life_points && diff > t.energy_share_diff_threshold {
            Some(rate_in(t.energy_share_hostile_rand_min, t.energy_share_hostile_rand_max, u))
        } else if p.life_points < c.life_points && diff > t.energy_share_diff_threshold {
            Some(rate_in(POOR_PARENT_RATE_MIN, POOR_PARENT_RATE_MAX, u))
        } else {
            Some(UNIT as int / 2)
        }
    } else if !pf {
        Some(t.energy_share_parent_not_friendly_child_friendly_rate as int)
    } else {
        Some(t.energy_share_parent_friendly_child_not_friendly_rate as int)
    }
}

/// Life points of (parent, child) after sharing across their joint. The rate
/// (capped at one whole) is the fraction of the pool the parent keeps. The end
/// the rate favours takes the remainder and the other end takes the floored
/// part: with a rate of at least one half the child receives
/// `floor(total * (1 - rate))` and the parent the rest; below one half the
/// parent keeps `floor(total * rate)` and the child receives the rest. Each
/// value saturates.
pub open spec fn shared(p: Ball, c: Ball, t: PhysicsTuning, u: u32) -> (u32, u32) {
    match sharing_rate(p, c, t, u) {
        None => (p.life_points, c.life_points),
        Some(rate) => {
            let total = p.life_points + c.life_points;
            let r = capped(rate);
            if r >= UNIT as int / 2 {
                let to_child = lower_part(total, UNIT as int - r);
                (sat_u32(total - to_child) as u32, sat_u32(to_child) as u32)
            } else {
                let to_parent = lower_part(total, r);
                (sat_u32(to_parent) as u32, sat_u32(total - to_parent) as u32)
            }
        },
    }
}

fn rate_in_exec(lo: u32, hi: u32, u: u32) -> (r: u64)
    ensures
        r == rate_in(lo, hi, u),
{
    if lo < hi {
        let span: u64 = (hi - lo) as u64;
        assert(span * u <= 0xffff_ffff * 0xffff_ffff) by (nonlinear_arith)
            requires
                span <= 0xffff_ffff,
                u <= 0xffff_ffff,
        ;
        assert(span * u / 1_000_000 <= 0xffff_ffff * 0xffff_ffff) by (nonlinear_arith)
            requires
                0 <= span * u <= 0xffff_ffff * 0xffff_ffff,
        ;
        lo as u64 + span * (u as u64) / (UNIT as u64)
    } else {
        lo as u64
    }
}

/// Life points of (parent, child) after sharing across their joint.
pub fn shared_life_points(parent: &Ball, child: &Ball, t: &PhysicsTuning, u: u32) -> (r: (u32, u32))
    ensures
        r == shared(*parent, *child, *t, u),
        // between hostile ends, the richer one keeps at least as much
        t.energy_transfer_enabled && !friendly(*parent, *child) && !friendly(*child, *parent)
            && parent.life_points > child.life_points + t.energy_share_diff_threshold
            && t.energy_share_hostile_rand_min >= UNIT / 2 ==> r.0 >= r.1,
        t.energy_transfer_enabled && !friendly(*parent, *child) && !friendly(*child, *parent)
            && parent.life_points + t.energy_share_diff_threshold < child.life_points && u < UNIT ==> r.1 >= r.0,
{
    let p = parent.life_points;
    let c = child.life_points;
    let diff: u32 = if p >= c { p - c } else { c - p };
    let pf = parent.is_friendly_with(*child);
    let cf = child.is_friendly_with(*parent);
    if !t.energy_transfer_enabled {
        return (p, c);
    }
    if pf && cf && diff < t.energy_share_diff_threshold {
        return (p, c);
    }
    let rate: u64 = if pf && cf {
        t.energy_share_friendly_rate as u64
    } else if !pf && !cf {
        if p > c && diff > t.energy_share_diff_threshold {
            rate_in_exec(t.energy_share_hostile_rand_min, t.energy_share_hostile_rand_max, u)
        } else if p < c && diff > t.energy_share_diff_threshold {
            let r = rate_in_exec(POOR_PARENT_RATE_MIN, POOR_PARENT_RATE_MAX, u);
            assert(u < UNIT ==> r < UNIT / 2) by (nonlinear_arith)
                requires
                    r == 100_000 + 400_000 * u / 1_000_000,
                    u >= 0,
            ;
            r
        } else {
            (UNIT / 2) as u64
        }
    } else if !pf {
        t.energy_share_parent_not_friendly_child_friendly_rate as u64
    } else {
        t.energy_share_parent_friendly_child_not_friendly_rate as u64
    };
    let rate: u32 = if rate > UNIT as u64 {
        UNIT
    } else {
        rate as u32
    };
    let ghost total = p as int + c as int;
    if rate >= UNIT / 2 {
        let (to_parent, to_child) = share_total_roughly(p, c, UNIT - rate);
        assert(lower_part(total, UNIT - rate) * 2 <= total) by (nonlinear_arith)
            requires
                rate >= 500_000,
                rate <= 1_000_000,
                total >= 0,
                lower_part(total, UNIT - rate) == total * (1_000_000 - rate) / 1_000_000,
        ;
        (to_parent, to_child)
    } else {
        let (to_child, to_parent) = share_total_roughly(c, p, rate);
        assert(lower_part(total, rate as int) * 2 <= total) by (nonlinear_arith)
            requires
                rate < 500_000,
                total >= 0,
                lower_part(total, rate as int) == total * rate / 1_000_000,
        ;
        (to_parent, to_child)
    }
}

} // verus!
