//! Random draws, through rand's standard generator.

use vstd::prelude::*;
use rand::rngs::StdRng;
use rand::Rng;
use crate::genome::{
    genome_within, Ball, Genome, MutationNoise, MAX_LIFE_POINTS, NOISE_BITE_SIZE, NOISE_ENERGY_SHARE,
    NOISE_FRIENDLY_DISTANCE, NOISE_MAX_AGE, NOISE_REPRODUCTION_RATE, NOISE_SAFE_POINTS, NOISE_SCENT,
};
use crate::tuning::PhysicsTuning;
use crate::vector::{Vector, UNIT};

verus! {

/// rand's seedable standard generator, carried as an opaque value: nothing is
/// assumed of it beyond what `draw_between` states of each draw.
#[verifier::external_type_specification]
#[verifier::external_body]
pub struct ExStdRng(StdRng);

/// Relies on rand's `Rng::gen_range` for integers: a uniform value in
/// `[low, high)`. It panics when `low >= high`, which `requires` excludes.
#[verifier::external_body]
fn draw_between(rng: &mut StdRng, low: i64, high: i64) -> (r: i64)
    requires
        low < high,
    ensures
        low <= r < high,
{
    rng.gen_range(low, high)
}

/// A uniform draw in `[0, UNIT)`, the fixed-point form of a draw in `[0, 1)`.
pub fn draw_unit(rng: &mut StdRng) -> (r: u32)
    ensures
        r < UNIT,
{
    draw_between(rng, 0, UNIT as i64) as u32
}

/// A uniform draw in `[low, high]`.
pub fn draw_inclusive(rng: &mut StdRng, low: i64, high: i64) -> (r: i64)
    requires
        low <= high,
        high < i64::MAX,
    ensures
        low <= r <= high,
{
    draw_between(rng, low, high + 1)
}

/// A uniform draw in `[-m, m]`.
fn draw_symmetric(rng: &mut StdRng, m: i32) -> (r: i32)
    requires
        m >= 0,
    ensures
        -m <= r <= m,
{
    draw_inclusive(rng, -(m as i64), m as i64) as i32
}

/// Independent uniform noise for each trait, within its documented magnitude.
pub fn draw_noise(rng: &mut StdRng) -> (r: MutationNoise)
    ensures
        r.in_bounds(),
{
    MutationNoise {
        max_age: draw_symmetric(rng, NOISE_MAX_AGE),
        relative_reproduction_rate: draw_symmetric(rng, NOISE_REPRODUCTION_RATE),
        bite_size: draw_symmetric(rng, NOISE_BITE_SIZE),
        life_points_safe_to_reproduce: draw_symmetric(rng, NOISE_SAFE_POINTS),
        energy_share_with_children: draw_symmetric(rng, NOISE_ENERGY_SHARE),
        friendly_scent_x: draw_symmetric(rng, NOISE_SCENT),
        friendly_scent_y: draw_symmetric(rng, NOISE_SCENT),
        friendly_distance: draw_symmetric(rng, NOISE_FRIENDLY_DISTANCE),
    }
}

/// A uniform draw in `[lo, hi]`.
fn draw_u32(rng: &mut StdRng, lo: u32, hi: u32) -> (r: u32)
    requires
        lo <= hi,
    ensures
        lo <= r <= hi,
{
    draw_inclusive(rng, lo as i64, hi as i64) as u32
}

/// A freshly spawned agent: age zero, full life points, each trait drawn
/// uniformly from its range in `t`. `None` when a range of `t` is empty.
pub fn random_ball(t: &PhysicsTuning, rng: &mut StdRng) -> (r: Option<Ball>)
    ensures
        r is Some <==> t.ranges_ok(),
        r matches Some(b) ==> b.age == 0 && b.life_points == MAX_LIFE_POINTS && genome_within(b.genome, *t),
{
    if !(t.genome_bite_size_min <= t.genome_bite_size_max
        && t.genome_energy_share_min <= t.genome_energy_share_max
        && t.genome_friendly_distance_min <= t.genome_friendly_distance_max
        && t.genome_max_age_min <= t.genome_max_age_max
        && t.genome_reproduction_rate_min <= t.genome_reproduction_rate_max
        && t.genome_safe_reproduction_points_min <= t.genome_safe_reproduction_points_max) {
        return None;
    }
    // Each axis lies in `[-range, range]`, and within an `i32`.
    let range: i64 = if t.genome_friendly_scent_range > i32::MAX as u32 {
        i32::MAX as i64
    } else {
        t.genome_friendly_scent_range as i64
    };
    let genome = Genome {
        max_age: draw_u32(rng, t.genome_max_age_min, t.genome_max_age_max),
        relative_reproduction_rate: draw_u32(rng, t.genome_reproduction_rate_min, t.genome_reproduction_rate_max),
        bite_size: draw_u32(rng, t.genome_bite_size_min, t.genome_bite_size_max),
        life_points_safe_to_reproduce: draw_u32(
            rng,
            t.genome_safe_reproduction_points_min,
            t.genome_safe_reproduction_points_max,
        ),
        energy_share_with_children: draw_u32(rng, t.genome_energy_share_min, t.genome_energy_share_max),
        friendly_scent: Vector {
            x: draw_inclusive(rng, -range, range) as i32,
            y: draw_inclusive(rng, -range, range) as i32,
        },
        friendly_distance: draw_u32(rng, t.genome_friendly_distance_min, t.genome_friendly_distance_max),
    };
    Some(Ball { age: 0, life_points: MAX_LIFE_POINTS, genome })
}

} // verus!
