//! Heritable traits, their configured ranges, friendliness, the mutation
//! operator, and the split of a pool of life points.

use vstd::prelude::*;
use crate::tuning::PhysicsTuning;
use crate::vector::{Vector, UNIT};

verus! {

/// Life points of a freshly spawned agent.
pub const MAX_LIFE_POINTS: u32 = 1023;

/// Heritable traits. Rates, shares, scent and distance are in millionths.
#[derive(Clone, Copy, Debug, PartialEq, Eq)]
pub struct Genome {
    pub max_age: u32,
    pub relative_reproduction_rate: u32,
    pub bite_size: u32,
    pub life_points_safe_to_reproduce: u32,
    /// Fraction of the parent's life points handed to a child.
    pub energy_share_with_children: u32,
    pub friendly_scent: Vector,
    pub friendly_distance: u32,
}

/// An agent.
#[derive(Clone, Copy, Debug, PartialEq, Eq)]
pub struct Ball {
    pub age: u32,
    pub life_points: u32,
    pub genome: Genome,
}

/// `v` moved into `[lo, hi]`.
pub open spec fn clamp(v: int, lo: int, hi: int) -> int {
    if v < lo {
        lo
    } else if v > hi {
        hi
    } else {
        v
    }
}

/// `x`, saturated at the largest `u32`.
pub open spec fn sat_u32(x: int) -> int {
    if x > u32::MAX {
        u32::MAX as int
    } else {
        x
    }
}

pub fn clamp_i64(v: i64, lo: i64, hi: i64) -> (r: i64)
    ensures
        r == clamp(v as int, lo as int, hi as int),
{
    if v < lo {
        lo
    } else if v > hi {
        hi
    } else {
        v
    }
}

/// Each trait of `g` lies in the range that `t` configures for it.
pub open spec fn genome_within(g: Genome, t: PhysicsTuning) -> bool {
    &&& t.genome_max_age_min <= g.max_age <= t.genome_max_age_max
    &&& t.genome_reproduction_rate_min <= g.relative_reproduction_rate <= t.genome_reproduction_rate_max
    &&& t.genome_bite_size_min <= g.bite_size <= t.genome_bite_size_max
    &&& t.genome_safe_reproduction_points_min <= g.life_points_safe_to_reproduce <= t.genome_safe_reproduction_points_max
    &&& t.genome_energy_share_min <= g.energy_share_with_children <= t.genome_energy_share_max
    &&& -t.genome_friendly_scent_range <= g.friendly_scent.x <= t.genome_friendly_scent_range
    &&& -t.genome_friendly_scent_range <= g.friendly_scent.y <= t.genome_friendly_scent_range
    &&& t.genome_friendly_distance_min <= g.friendly_distance <= t.genome_friendly_distance_max
}

/// `a` considers `b` friendly: the distance between their scents is below
/// `a`'s own friendly distance (compared squared, both sides being non-negative).
pub open spec fn friendly(a: Ball, b: Ball) -> bool {
    a.genome.friendly_scent.dist_sq(b.genome.friendly_scent)
        < a.genome.friendly_distance * a.genome.friendly_distance
}

impl Default for Ball {
    fn default() -> (r: Ball)
        ensures
            r.age == 0,
            r.life_points == MAX_LIFE_POINTS,
            r.genome == (Genome {
                max_age: 90,
                relative_reproduction_rate: 12_500,
                bite_size: 100,
                life_points_safe_to_reproduce: 20,
                energy_share_with_children: 500_000,
                friendly_scent: Vector { x: 0, y: 0 },
                friendly_distance: 100_000,
            }),
    {
        Ball {
            age: 0,
            life_points: MAX_LIFE_POINTS,
            genome: Genome {
                max_age: 90,
                relative_reproduction_rate: 12_500,
                bite_size: 100,
                life_points_safe_to_reproduce: 20,
                energy_share_with_children: 500_000,
                friendly_scent: Vector { x: 0, y: 0 },
                friendly_distance: 100_000,
            },
        }
    }
}

impl Ball {
    /// Whether this agent considers `other` friendly (one-sided).
    pub fn is_friendly_with(&self, other: Ball) -> (r: bool)
        ensures
            r == friendly(*self, other),
    {
        self.genome.friendly_scent.closer_than(
            &other.genome.friendly_scent,
            self.genome.friendly_distance as u64,
        )
    }
}

/// Display hue in millionths of a degree: the scent's x axis maps `-1..1` to
/// `0..120`, its y axis maps `-1..1` to `240..60`, and the two are averaged.
pub open spec fn hue_of(scent: Vector) -> int {
    30 * scent.x - 45 * scent.y + 105 * UNIT
}

/// Display saturation in millionths: ten times the share of full life points,
/// plus a tenth, held within `[0.1, 1]`.
pub open spec fn saturation_of(life_points: u32) -> int {
    clamp(
        life_points * 10 * (UNIT as int) / (MAX_LIFE_POINTS as int) + 100_000,
        100_000,
        UNIT as int,
    )
}

/// A display color: hue in millionths of a degree, the other channels in millionths.
#[derive(Clone, Copy, Debug, PartialEq, Eq)]
pub struct Hsla {
    pub hue: i64,
    pub saturation: u32,
    pub lightness: u32,
    pub alpha: u32,
}

impl Ball {
    /// The agent's color: hue from its scent, saturation from its life
    /// points, half lightness, opaque.
    pub fn get_color(&self) -> (r: Hsla)
        ensures
            r == (Hsla {
                hue: hue_of(self.genome.friendly_scent) as i64,
                saturation: saturation_of(self.life_points) as u32,
                lightness: UNIT / 2,
                alpha: UNIT,
            }),
    {
        Hsla { hue: self.get_hue(), saturation: self.get_saturation(), lightness: UNIT / 2, alpha: UNIT }
    }

    /// `color` with this agent's hue and saturation, keeping its lightness and alpha.
    pub fn transform_color(&self, color: Hsla) -> (r: Hsla)
        ensures
            r == (Hsla {
                hue: hue_of(self.genome.friendly_scent) as i64,
                saturation: saturation_of(self.life_points) as u32,
                ..color
            }),
    {
        Hsla { hue: self.get_hue(), saturation: self.get_saturation(), ..color }
    }

    pub fn get_hue(&self) -> (r: i64)
        ensures
            r == hue_of(self.genome.friendly_scent),
    {
        30 * (self.genome.friendly_scent.x as i64) - 45 * (self.genome.friendly_scent.y as i64) + 105 * (UNIT as i64)
    }

    pub fn get_saturation(&self) -> (r: u32)
        ensures
            r == saturation_of(self.life_points),
    {
        let lp = self.life_points as u64;
        assert(lp * 10 * 1_000_000 <= 0xffff_ffff * 10_000_000) by (nonlinear_arith)
            requires
                lp <= 0xffff_ffff,
        ;
        assert(lp * 10 * 1_000_000 / 1023 <= 0xffff_ffff * 10_000_000) by (nonlinear_arith)
            requires
                0 <= lp * 10 * 1_000_000 <= 0xffff_ffff * 10_000_000,
        ;
        let s: u64 = lp * 10 * (UNIT as u64) / (MAX_LIFE_POINTS as u64) + 100_000;
        if s < 100_000 {
            100_000
        } else if s > UNIT as u64 {
            UNIT
        } else {
            s as u32
        }
    }
}

/// The part of `total` that `share_total_roughly` hands its second argument.
pub open spec fn lower_part(total: int, rate: int) -> int {
    total * rate / (UNIT as int)
}

/// Pools `preferred_number + other_number` and splits it at `sharing_rate`:
/// the second value returned is `floor(total * rate)`, the first the rest.
/// Each value saturates at the largest `u32`.
pub fn share_total_roughly(preferred_number: u32, other_number: u32, sharing_rate: u32) -> (r: (
    u32,
    u32,
))
    requires
        sharing_rate <= UNIT,
    ensures
        ({
            let total = preferred_number + other_number;
            &&& r.1 == sat_u32(lower_part(total, sharing_rate as int))
            &&& r.0 == sat_u32(total - lower_part(total, sharing_rate as int))
        }),
{
    let total: u64 = preferred_number as u64 + other_number as u64;
    assert(total * sharing_rate <= 0x2_0000_0000 * 1_000_000) by (nonlinear_arith)
        requires
            total <= 0x2_0000_0000,
            sharing_rate <= 1_000_000,
    ;
    let lower: u64 = total * (sharing_rate as u64) / (UNIT as u64);
    assert(lower <= total) by (nonlinear_arith)
        requires
            lower == total * sharing_rate / 1_000_000,
            sharing_rate <= 1_000_000,
            total >= 0,
    ;
    let higher: u64 = total - lower;
    let hi: u32 = if higher > u32::MAX as u64 {
        u32::MAX
    } else {
        higher as u32
    };
    let lo: u32 = if lower > u32::MAX as u64 {
        u32::MAX
    } else {
        lower as u32
    };
    (hi, lo)
}

/// Noise added to each trait at birth. Values outside the documented
/// magnitudes are accepted; the result is clamped either way.
#[derive(Clone, Copy, Debug, PartialEq, Eq)]
pub struct MutationNoise {
    pub max_age: i32,
    pub relative_reproduction_rate: i32,
    pub bite_size: i32,
    pub life_points_safe_to_reproduce: i32,
    pub energy_share_with_children: i32,
    pub friendly_scent_x: i32,
    pub friendly_scent_y: i32,
    pub friendly_distance: i32,
}

/// Largest noise magnitude for each trait.
pub const NOISE_MAX_AGE: i32 = 3;
pub const NOISE_REPRODUCTION_RATE: i32 = 10_000;
pub const NOISE_BITE_SIZE: i32 = 10;
pub const NOISE_SAFE_POINTS: i32 = 1000;
pub const NOISE_ENERGY_SHARE: i32 = 100_000;
pub const NOISE_SCENT: i32 = 100_000;
pub const NOISE_FRIENDLY_DISTANCE: i32 = 100_000;

impl MutationNoise {
    /// Every component lies within its documented magnitude.
    pub open spec fn in_bounds(self) -> bool {
        &&& -NOISE_MAX_AGE <= self.max_age <= NOISE_MAX_AGE
        &&& -NOISE_REPRODUCTION_RATE <= self.relative_reproduction_rate <= NOISE_REPRODUCTION_RATE
        &&& -NOISE_BITE_SIZE <= self.bite_size <= NOISE_BITE_SIZE
        &&& -NOISE_SAFE_POINTS <= self.life_points_safe_to_reproduce <= NOISE_SAFE_POINTS
        &&& -NOISE_ENERGY_SHARE <= self.energy_share_with_children <= NOISE_ENERGY_SHARE
        &&& -NOISE_SCENT <= self.friendly_scent_x <= NOISE_SCENT
        &&& -NOISE_SCENT <= self.friendly_scent_y <= NOISE_SCENT
        &&& -NOISE_FRIENDLY_DISTANCE <= self.friendly_distance <= NOISE_FRIENDLY_DISTANCE
    }
}

/// The scent bound actually applied: the configured range, capped to an axis.
pub open spec fn scent_limit(t: PhysicsTuning) -> int {
    if t.genome_friendly_scent_range > i32::MAX {
        i32::MAX as int
    } else {
        t.genome_friendly_scent_range as int
    }
}

/// The child genome: each parent trait plus its noise, clamped to its range in `t`.
pub open spec fn mutated(p: Genome, t: PhysicsTuning, n: MutationNoise) -> Genome {
    Genome {
        max_age: clamp(p.max_age + n.max_age, t.genome_max_age_min as int, t.genome_max_age_max as int) as u32,
        relative_reproduction_rate: clamp(
            p.relative_reproduction_rate + n.relative_reproduction_rate,
            t.genome_reproduction_rate_min as int,
            t.genome_reproduction_rate_max as int,
        ) as u32,
        bite_size: clamp(p.bite_size + n.bite_size, t.genome_bite_size_min as int, t.genome_bite_size_max as int) as u32,
        life_points_safe_to_reproduce: clamp(
            p.life_points_safe_to_reproduce + n.life_points_safe_to_reproduce,
            t.genome_safe_reproduction_points_min as int,
            t.genome_safe_reproduction_points_max as int,
        ) as u32,
        energy_share_with_children: clamp(
            p.energy_share_with_children + n.energy_share_with_children,
            t.genome_energy_share_min as int,
            t.genome_energy_share_max as int,
        ) as u32,
        friendly_scent: Vector {
            x: clamp(p.friendly_scent.x + n.friendly_scent_x, -scent_limit(t), scent_limit(t)) as i32,
            y: clamp(p.friendly_scent.y + n.friendly_scent_y, -scent_limit(t), scent_limit(t)) as i32,
        },
        friendly_distance: clamp(
            p.friendly_distance + n.friendly_distance,
            t.genome_friendly_distance_min as int,
            t.genome_friendly_distance_max as int,
        ) as u32,
    }
}

/// A mutated genome lies in the ranges of `t` whenever they are non-empty.
pub proof fn lemma_mutated_within(p: Genome, t: PhysicsTuning, n: MutationNoise)
    requires
        t.ranges_ok(),
    ensures
        genome_within(mutated(p, t, n), t),
{
}

/// `parent + noise` clamped into `[lo, hi]`, for an unsigned trait.
fn mutate_u32(parent: u32, noise: i32, lo: u32, hi: u32) -> (r: u32)
    ensures
        r == clamp(parent + noise, lo as int, hi as int),
{
    clamp_i64(parent as i64 + noise as i64, lo as i64, hi as i64) as u32
}

/// Applies `noise` to `parent` and clamps each trait into the ranges of `tuning`.
pub fn mutate(parent: &Genome, tuning: &PhysicsTuning, noise: &MutationNoise) -> (r: Genome)
    ensures
        r == mutated(*parent, *tuning, *noise),
        tuning.ranges_ok() ==> genome_within(r, *tuning),
{
    let lim: i64 = if tuning.genome_friendly_scent_range > i32::MAX as u32 {
        i32::MAX as i64
    } else {
        tuning.genome_friendly_scent_range as i64
    };
    let sx = clamp_i64(parent.friendly_scent.x as i64 + noise.friendly_scent_x as i64, -lim, lim);
    let sy = clamp_i64(parent.friendly_scent.y as i64 + noise.friendly_scent_y as i64, -lim, lim);
    Genome {
        max_age: mutate_u32(parent.max_age, noise.max_age, tuning.genome_max_age_min, tuning.genome_max_age_max),
        relative_reproduction_rate: mutate_u32(
            parent.relative_reproduction_rate,
            noise.relative_reproduction_rate,
            tuning.genome_reproduction_rate_min,
            tuning.genome_reproduction_rate_max,
        ),
        bite_size: mutate_u32(parent.bite_size, noise.bite_size, tuning.genome_bite_size_min, tuning.genome_bite_size_max),
        life_points_safe_to_reproduce: mutate_u32(
            parent.life_points_safe_to_reproduce,
            noise.life_points_safe_to_reproduce,
            tuning.genome_safe_reproduction_points_min,
            tuning.genome_safe_reproduction_points_max,
        ),
        energy_share_with_children: mutate_u32(
            parent.energy_share_with_children,
            noise.energy_share_with_children,
            tuning.genome_energy_share_min,
            tuning.genome_energy_share_max,
        ),
        friendly_scent: Vector { x: sx as i32, y: sy as i32 },
        friendly_distance: mutate_u32(
            parent.friendly_distance,
            noise.friendly_distance,
            tuning.genome_friendly_distance_min,
            tuning.genome_friendly_distance_max,
        ),
    }
}

} // verus!
