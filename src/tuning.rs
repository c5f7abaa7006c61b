//! The tuning record that configures every rule, its hierarchical form served
//! to the control plane, partial updates, and the per-tick drain of snapshots.

use vstd::prelude::*;

verus! {

/// Every externally tunable threshold. Fixed-point fields are in millionths
/// (see `crate::vector::UNIT`).
#[derive(Clone, Copy, Debug, PartialEq, Eq)]
pub struct PhysicsTuning {
    pub rel_vel_min: u64,
    pub rel_vel_max: u64,
    /// Contact-force threshold for bites, and impulse threshold for breaking joints.
    pub break_force_threshold: u64,
    pub energy_transfer_enabled: bool,
    pub energy_share_diff_threshold: u32,
    /// Fraction of the pooled life points a parent keeps when both ends are friendly.
    pub energy_share_friendly_rate: u32,
    /// Fraction a non-friendly parent keeps from a friendly child.
    pub energy_share_parent_not_friendly_child_friendly_rate: u32,
    /// Fraction a friendly parent keeps from a non-friendly child.
    pub energy_share_parent_friendly_child_not_friendly_rate: u32,
    /// Range of the fraction a richer hostile parent keeps.
    pub energy_share_hostile_rand_min: u32,
    pub energy_share_hostile_rand_max: u32,
    pub bite_enabled: bool,
    pub bite_size_scale: u32,
    pub genome_bite_size_min: u32,
    pub genome_bite_size_max: u32,
    pub genome_energy_share_min: u32,
    pub genome_energy_share_max: u32,
    pub genome_friendly_distance_min: u32,
    pub genome_friendly_distance_max: u32,
    /// Each scent axis lies in `[-range, range]`.
    pub genome_friendly_scent_range: u32,
    pub genome_max_age_min: u32,
    pub genome_max_age_max: u32,
    pub genome_reproduction_rate_min: u32,
    pub genome_reproduction_rate_max: u32,
    pub genome_safe_reproduction_points_min: u32,
    pub genome_safe_reproduction_points_max: u32,
    pub survival_cost_per_tick: u32,
    pub show_collision_labels: bool,
    pub collision_label_force_min: u64,
    pub show_break_labels: bool,
    pub break_label_impulse_min: u64,
    pub show_age_labels: bool,
    pub age_label_min: u64,
    pub age_label_max: u64,
    pub show_energy_labels: bool,
    pub energy_label_min: u64,
    pub energy_label_max: u64,
}

impl PhysicsTuning {
    /// Every genome range is non-empty.
    pub open spec fn ranges_ok(self) -> bool {
        &&& self.genome_bite_size_min <= self.genome_bite_size_max
        &&& self.genome_energy_share_min <= self.genome_energy_share_max
        &&& self.genome_friendly_distance_min <= self.genome_friendly_distance_max
        &&& self.genome_max_age_min <= self.genome_max_age_max
        &&& self.genome_reproduction_rate_min <= self.genome_reproduction_rate_max
        &&& self.genome_safe_reproduction_points_min <= self.genome_safe_reproduction_points_max
    }

    /// The all-zero record, every flag off.
    pub open spec fn zero() -> PhysicsTuning {
        PhysicsTuning {
            rel_vel_min: 0,
            rel_vel_max: 0,
            break_force_threshold: 0,
            energy_transfer_enabled: false,
            energy_share_diff_threshold: 0,
            energy_share_friendly_rate: 0,
            energy_share_parent_not_friendly_child_friendly_rate: 0,
            energy_share_parent_friendly_child_not_friendly_rate: 0,
            energy_share_hostile_rand_min: 0,
            energy_share_hostile_rand_max: 0,
            bite_enabled: false,
            bite_size_scale: 0,
            genome_bite_size_min: 0,
            genome_bite_size_max: 0,
            genome_energy_share_min: 0,
            genome_energy_share_max: 0,
            genome_friendly_distance_min: 0,
            genome_friendly_distance_max: 0,
            genome_friendly_scent_range: 0,
            genome_max_age_min: 0,
            genome_max_age_max: 0,
            genome_reproduction_rate_min: 0,
            genome_reproduction_rate_max: 0,
            genome_safe_reproduction_points_min: 0,
            genome_safe_reproduction_points_max: 0,
            survival_cost_per_tick: 0,
            show_collision_labels: false,
            collision_label_force_min: 0,
            show_break_labels: false,
            break_label_impulse_min: 0,
            show_age_labels: false,
            age_label_min: 0,
            age_label_max: 0,
            show_energy_labels: false,
            energy_label_min: 0,
            energy_label_max: 0,
        }
    }
}

impl Default for PhysicsTuning {
    fn default() -> (r: PhysicsTuning)
        ensures
            r == PhysicsTuning::zero(),
    {
        PhysicsTuning {
            rel_vel_min: 0,
            rel_vel_max: 0,
            break_force_threshold: 0,
            energy_transfer_enabled: false,
            energy_share_diff_threshold: 0,
            energy_share_friendly_rate: 0,
            energy_share_parent_not_friendly_child_friendly_rate: 0,
            energy_share_parent_friendly_child_not_friendly_rate: 0,
            energy_share_hostile_rand_min: 0,
            energy_share_hostile_rand_max: 0,
            bite_enabled: false,
            bite_size_scale: 0,
            genome_bite_size_min: 0,
            genome_bite_size_max: 0,
            genome_energy_share_min: 0,
            genome_energy_share_max: 0,
            genome_friendly_distance_min: 0,
            genome_friendly_distance_max: 0,
            genome_friendly_scent_range: 0,
            genome_max_age_min: 0,
            genome_max_age_max: 0,
            genome_reproduction_rate_min: 0,
            genome_reproduction_rate_max: 0,
            genome_safe_reproduction_points_min: 0,
            genome_safe_reproduction_points_max: 0,
            survival_cost_per_tick: 0,
            show_collision_labels: false,
            collision_label_force_min: 0,
            show_break_labels: false,
            break_label_impulse_min: 0,
            show_age_labels: false,
            age_label_min: 0,
            age_label_max: 0,
            show_energy_labels: false,
            energy_label_min: 0,
            energy_label_max: 0,
        }
    }
}

/// The hierarchical form of `PhysicsTuning` served to the control plane.
#[derive(Clone, Copy, Debug, PartialEq, Eq)]
pub struct ApiTuning {
    pub stickiness: ApiStickiness,
    pub energy_share: ApiEnergyShare,
    pub bite: ApiBite,
    pub max_age: ApiMaxAge,
    pub reproduction: ApiReproduction,
    pub labels: ApiLabels,
}

/// Adhesion gates.
#[derive(Clone, Copy, Debug, PartialEq, Eq)]
pub struct ApiStickiness {
    pub stick_range: ApiStickRange,
    pub break_threshold: u64,
}

/// Relative-speed band in which contacts stick.
#[derive(Clone, Copy, Debug, PartialEq, Eq)]
pub struct ApiStickRange {
    pub rel_vel_min: u64,
    pub rel_vel_max: u64,
}

/// Energy sharing across joints and the scent genome ranges.
#[derive(Clone, Copy, Debug, PartialEq, Eq)]
pub struct ApiEnergyShare {
    pub energy_transfer_enabled: bool,
    pub energy_share_diff_threshold: u32,
    pub genome_friendly_scent_range: u32,
    pub genome_friendly_distance_range: ApiGenomeFriendlyDistanceRange,
    pub energy_share_friendly_rate: u32,
    pub energy_share_parent_not_friendly_child_friendly_rate: u32,
    pub energy_share_parent_friendly_child_not_friendly_rate: u32,
    pub energy_share_hostile_rand_range: ApiEnergyShareHostileRandRange,
    pub genome_energy_share_range: ApiGenomeEnergyShareRange,
}

#[derive(Clone, Copy, Debug, PartialEq, Eq)]
pub struct ApiGenomeFriendlyDistanceRange {
    pub genome_friendly_distance_min: u32,
    pub genome_friendly_distance_max: u32,
}

#[derive(Clone, Copy, Debug, PartialEq, Eq)]
pub struct ApiEnergyShareHostileRandRange {
    pub energy_share_hostile_rand_min: u32,
    pub energy_share_hostile_rand_max: u32,
}

#[derive(Clone, Copy, Debug, PartialEq, Eq)]
pub struct ApiGenomeEnergyShareRange {
    pub genome_energy_share_min: u32,
    pub genome_energy_share_max: u32,
}

/// Bites and the bite-size genome range.
#[derive(Clone, Copy, Debug, PartialEq, Eq)]
pub struct ApiBite {
    pub bite_enabled: bool,
    pub bite_size_scale: u32,
    pub genome_bite_size_range: ApiGenomeBiteSizeRange,
}

#[derive(Clone, Copy, Debug, PartialEq, Eq)]
pub struct ApiGenomeBiteSizeRange {
    pub genome_bite_size_min: u32,
    pub genome_bite_size_max: u32,
}

/// Aging.
#[derive(Clone, Copy, Debug, PartialEq, Eq)]
pub struct ApiMaxAge {
    pub genome_max_age_range: ApiGenomeMaxAgeRange,
    pub survival_cost_per_tick: u32,
}

#[derive(Clone, Copy, Debug, PartialEq, Eq)]
pub struct ApiGenomeMaxAgeRange {
    pub genome_max_age_min: u32,
    pub genome_max_age_max: u32,
}

/// Reproduction genome ranges.
#[derive(Clone, Copy, Debug, PartialEq, Eq)]
pub struct ApiReproduction {
    pub genome_reproduction_rate_range: ApiGenomeReproductionRateRange,
    pub genome_safe_reproduction_points_range: ApiGenomeSafeReproductionPointsRange,
}

#[derive(Clone, Copy, Debug, PartialEq, Eq)]
pub struct ApiGenomeReproductionRateRange {
    pub genome_reproduction_rate_min: u32,
    pub genome_reproduction_rate_max: u32,
}

#[derive(Clone, Copy, Debug, PartialEq, Eq)]
pub struct ApiGenomeSafeReproductionPointsRange {
    pub genome_safe_reproduction_points_min: u32,
    pub genome_safe_reproduction_points_max: u32,
}

/// Display labels.
#[derive(Clone, Copy, Debug, PartialEq, Eq)]
pub struct ApiLabels {
    pub collision: ApiCollisionLabels,
    pub break_labels: ApiBreakLabels,
    pub age: ApiAgeLabels,
    pub energy: ApiEnergyLabels,
}

#[derive(Clone, Copy, Debug, PartialEq, Eq)]
pub struct ApiCollisionLabels {
    pub show_collision_labels: bool,
    pub collision_label_force_min: u64,
}

#[derive(Clone, Copy, Debug, PartialEq, Eq)]
pub struct ApiBreakLabels {
    pub show_break_labels: bool,
    pub break_label_impulse_min: u64,
}

#[derive(Clone, Copy, Debug, PartialEq, Eq)]
pub struct ApiAgeLabels {
    pub show_age_labels: bool,
    pub age_label_range: ApiAgeLabelRange,
}

#[derive(Clone, Copy, Debug, PartialEq, Eq)]
pub struct ApiAgeLabelRange {
    pub age_label_min: u64,
    pub age_label_max: u64,
}

#[derive(Clone, Copy, Debug, PartialEq, Eq)]
pub struct ApiEnergyLabels {
    pub show_energy_labels: bool,
    pub energy_label_range: ApiEnergyLabelRange,
}

#[derive(Clone, Copy, Debug, PartialEq, Eq)]
pub struct ApiEnergyLabelRange {
    pub energy_label_min: u64,
    pub energy_label_max: u64,
}

/// A partial `ApiTuning`: every field is optional, `None` keeps the current value.
#[derive(Clone, Copy, Debug, PartialEq, Eq)]
pub struct ApiTuningUpdate {
    pub stickiness: Option<ApiStickinessUpdate>,
    pub energy_share: Option<ApiEnergyShareUpdate>,
    pub bite: Option<ApiBiteUpdate>,
    pub max_age: Option<ApiMaxAgeUpdate>,
    pub reproduction: Option<ApiReproductionUpdate>,
    pub labels: Option<ApiLabelsUpdate>,
}

/// A partial `ApiStickiness`: every field is optional, `None` keeps the current value.
#[derive(Clone, Copy, Debug, PartialEq, Eq)]
pub struct ApiStickinessUpdate {
    pub stick_range: Option<ApiStickRangeUpdate>,
    pub break_threshold: Option<u64>,
}

/// A partial `ApiStickRange`: every field is optional, `None` keeps the current value.
#[derive(Clone, Copy, Debug, PartialEq, Eq)]
pub struct ApiStickRangeUpdate {
    pub rel_vel_min: Option<u64>,
    pub rel_vel_max: Option<u64>,
}

/// A partial `ApiEnergyShare`: every field is optional, `None` keeps the current value.
#[derive(Clone, Copy, Debug, PartialEq, Eq)]
pub struct ApiEnergyShareUpdate {
    pub energy_transfer_enabled: Option<bool>,
    pub energy_share_diff_threshold: Option<u32>,
    pub genome_friendly_scent_range: Option<u32>,
    pub genome_friendly_distance_range: Option<ApiGenomeFriendlyDistanceRangeUpdate>,
    pub energy_share_friendly_rate: Option<u32>,
    pub energy_share_parent_not_friendly_child_friendly_rate: Option<u32>,
    pub energy_share_parent_friendly_child_not_friendly_rate: Option<u32>,
    pub energy_share_hostile_rand_range: Option<ApiEnergyShareHostileRandRangeUpdate>,
    pub genome_energy_share_range: Option<ApiGenomeEnergyShareRangeUpdate>,
}

/// A partial `ApiGenomeFriendlyDistanceRange`: every field is optional, `None` keeps the current value.
#[derive(Clone, Copy, Debug, PartialEq, Eq)]
pub struct ApiGenomeFriendlyDistanceRangeUpdate {
    pub genome_friendly_distance_min: Option<u32>,
    pub genome_friendly_distance_max: Option<u32>,
}

/// A partial `ApiEnergyShareHostileRandRange`: every field is optional, `None` keeps the current value.
#[derive(Clone, Copy, Debug, PartialEq, Eq)]
pub struct ApiEnergyShareHostileRandRangeUpdate {
    pub energy_share_hostile_rand_min: Option<u32>,
    pub energy_share_hostile_rand_max: Option<u32>,
}

/// A partial `ApiGenomeEnergyShareRange`: every field is optional, `None` keeps the current value.
#[derive(Clone, Copy, Debug, PartialEq, Eq)]
pub struct ApiGenomeEnergyShareRangeUpdate {
    pub genome_energy_share_min: Option<u32>,
    pub genome_energy_share_max: Option<u32>,
}

/// A partial `ApiBite`: every field is optional, `None` keeps the current value.
#[derive(Clone, Copy, Debug, PartialEq, Eq)]
pub struct ApiBiteUpdate {
    pub bite_enabled: Option<bool>,
    pub bite_size_scale: Option<u32>,
    pub genome_bite_size_range: Option<ApiGenomeBiteSizeRangeUpdate>,
}

/// A partial `ApiGenomeBiteSizeRange`: every field is optional, `None` keeps the current value.
#[derive(Clone, Copy, Debug, PartialEq, Eq)]
pub struct ApiGenomeBiteSizeRangeUpdate {
    pub genome_bite_size_min: Option<u32>,
    pub genome_bite_size_max: Option<u32>,
}

/// A partial `ApiMaxAge`: every field is optional, `None` keeps the current value.
#[derive(Clone, Copy, Debug, PartialEq, Eq)]
pub struct ApiMaxAgeUpdate {
    pub genome_max_age_range: Option<ApiGenomeMaxAgeRangeUpdate>,
    pub survival_cost_per_tick: Option<u32>,
}

/// A partial `ApiGenomeMaxAgeRange`: every field is optional, `None` keeps the current value.
#[derive(Clone, Copy, Debug, PartialEq, Eq)]
pub struct ApiGenomeMaxAgeRangeUpdate {
    pub genome_max_age_min: Option<u32>,
    pub genome_max_age_max: Option<u32>,
}

/// A partial `ApiReproduction`: every field is optional, `None` keeps the current value.
#[derive(Clone, Copy, Debug, PartialEq, Eq)]
pub struct ApiReproductionUpdate {
    pub genome_reproduction_rate_range: Option<ApiGenomeReproductionRateRangeUpdate>,
    pub genome_safe_reproduction_points_range: Option<ApiGenomeSafeReproductionPointsRangeUpdate>,
}

/// A partial `ApiGenomeReproductionRateRange`: every field is optional, `None` keeps the current value.
#[derive(Clone, Copy, Debug, PartialEq, Eq)]
pub struct ApiGenomeReproductionRateRangeUpdate {
    pub genome_reproduction_rate_min: Option<u32>,
    pub genome_reproduction_rate_max: Option<u32>,
}

/// A partial `ApiGenomeSafeReproductionPointsRange`: every field is optional, `None` keeps the current value.
#[derive(Clone, Copy, Debug, PartialEq, Eq)]
pub struct ApiGenomeSafeReproductionPointsRangeUpdate {
    pub genome_safe_reproduction_points_min: Option<u32>,
    pub genome_safe_reproduction_points_max: Option<u32>,
}

/// A partial `ApiLabels`: every field is optional, `None` keeps the current value.
#[derive(Clone, Copy, Debug, PartialEq, Eq)]
pub struct ApiLabelsUpdate {
    pub collision: Option<ApiCollisionLabelsUpdate>,
    pub break_labels: Option<ApiBreakLabelsUpdate>,
    pub age: Option<ApiAgeLabelsUpdate>,
    pub energy: Option<ApiEnergyLabelsUpdate>,
}

/// A partial `ApiCollisionLabels`: every field is optional, `None` keeps the current value.
#[derive(Clone, Copy, Debug, PartialEq, Eq)]
pub struct ApiCollisionLabelsUpdate {
    pub show_collision_labels: Option<bool>,
    pub collision_label_force_min: Option<u64>,
}

/// A partial `ApiBreakLabels`: every field is optional, `None` keeps the current value.
#[derive(Clone, Copy, Debug, PartialEq, Eq)]
pub struct ApiBreakLabelsUpdate {
    pub show_break_labels: Option<bool>,
    pub break_label_impulse_min: Option<u64>,
}

/// A partial `ApiAgeLabels`: every field is optional, `None` keeps the current value.
#[derive(Clone, Copy, Debug, PartialEq, Eq)]
pub struct ApiAgeLabelsUpdate {
    pub show_age_labels: Option<bool>,
    pub age_label_range: Option<ApiAgeLabelRangeUpdate>,
}

/// A partial `ApiAgeLabelRange`: every field is optional, `None` keeps the current value.
#[derive(Clone, Copy, Debug, PartialEq, Eq)]
pub struct ApiAgeLabelRangeUpdate {
    pub age_label_min: Option<u64>,
    pub age_label_max: Option<u64>,
}

/// A partial `ApiEnergyLabels`: every field is optional, `None` keeps the current value.
#[derive(Clone, Copy, Debug, PartialEq, Eq)]
pub struct ApiEnergyLabelsUpdate {
    pub show_energy_labels: Option<bool>,
    pub energy_label_range: Option<ApiEnergyLabelRangeUpdate>,
}

/// A partial `ApiEnergyLabelRange`: every field is optional, `None` keeps the current value.
#[derive(Clone, Copy, Debug, PartialEq, Eq)]
pub struct ApiEnergyLabelRangeUpdate {
    pub energy_label_min: Option<u64>,
    pub energy_label_max: Option<u64>,
}

impl Default for ApiTuningUpdate {
    fn default() -> (r: ApiTuningUpdate)
        ensures
            r.stickiness is None,
            r.energy_share is None,
            r.bite is None,
            r.max_age is None,
            r.reproduction is None,
            r.labels is None,
    {
        ApiTuningUpdate { stickiness: None, energy_share: None, bite: None, max_age: None, reproduction: None, labels: None }
    }
}

impl Default for ApiStickinessUpdate {
    fn default() -> (r: ApiStickinessUpdate)
        ensures
            r.stick_range is None,
            r.break_threshold is None,
    {
        ApiStickinessUpdate { stick_range: None, break_threshold: None }
    }
}

impl Default for ApiStickRangeUpdate {
    fn default() -> (r: ApiStickRangeUpdate)
        ensures
            r.rel_vel_min is None,
            r.rel_vel_max is None,
    {
        ApiStickRangeUpdate { rel_vel_min: None, rel_vel_max: None }
    }
}

impl Default for ApiEnergyShareUpdate {
    fn default() -> (r: ApiEnergyShareUpdate)
        ensures
            r.energy_transfer_enabled is None,
            r.energy_share_diff_threshold is None,
            r.genome_friendly_scent_range is None,
            r.genome_friendly_distance_range is None,
            r.energy_share_friendly_rate is None,
            r.energy_share_parent_not_friendly_child_friendly_rate is None,
            r.energy_share_parent_friendly_child_not_friendly_rate is None,
            r.energy_share_hostile_rand_range is None,
            r.genome_energy_share_range is None,
    {
        ApiEnergyShareUpdate { energy_transfer_enabled: None, energy_share_diff_threshold: None, genome_friendly_scent_range: None, genome_friendly_distance_range: None, energy_share_friendly_rate: None, energy_share_parent_not_friendly_child_friendly_rate: None, energy_share_parent_friendly_child_not_friendly_rate: None, energy_share_hostile_rand_range: None, genome_energy_share_range: None }
    }
}

impl Default for ApiGenomeFriendlyDistanceRangeUpdate {
    fn default() -> (r: ApiGenomeFriendlyDistanceRangeUpdate)
        ensures
            r.genome_friendly_distance_min is None,
            r.genome_friendly_distance_max is None,
    {
        ApiGenomeFriendlyDistanceRangeUpdate { genome_friendly_distance_min: None, genome_friendly_distance_max: None }
    }
}

impl Default for ApiEnergyShareHostileRandRangeUpdate {
    fn default() -> (r: ApiEnergyShareHostileRandRangeUpdate)
        ensures
            r.energy_share_hostile_rand_min is None,
            r.energy_share_hostile_rand_max is None,
    {
        ApiEnergyShareHostileRandRangeUpdate { energy_share_hostile_rand_min: None, energy_share_hostile_rand_max: None }
    }
}

impl Default for ApiGenomeEnergyShareRangeUpdate {
    fn default() -> (r: ApiGenomeEnergyShareRangeUpdate)
        ensures
            r.genome_energy_share_min is None,
            r.genome_energy_share_max is None,
    {
        ApiGenomeEnergyShareRangeUpdate { genome_energy_share_min: None, genome_energy_share_max: None }
    }
}

impl Default for ApiBiteUpdate {
    fn default() -> (r: ApiBiteUpdate)
        ensures
            r.bite_enabled is None,
            r.bite_size_scale is None,
            r.genome_bite_size_range is None,
    {
        ApiBiteUpdate { bite_enabled: None, bite_size_scale: None, genome_bite_size_range: None }
    }
}

impl Default for ApiGenomeBiteSizeRangeUpdate {
    fn default() -> (r: ApiGenomeBiteSizeRangeUpdate)
        ensures
            r.genome_bite_size_min is None,
            r.genome_bite_size_max is None,
    {
        ApiGenomeBiteSizeRangeUpdate { genome_bite_size_min: None, genome_bite_size_max: None }
    }
}

impl Default for ApiMaxAgeUpdate {
    fn default() -> (r: ApiMaxAgeUpdate)
        ensures
            r.genome_max_age_range is None,
            r.survival_cost_per_tick is None,
    {
        ApiMaxAgeUpdate { genome_max_age_range: None, survival_cost_per_tick: None }
    }
}

impl Default for ApiGenomeMaxAgeRangeUpdate {
    fn default() -> (r: ApiGenomeMaxAgeRangeUpdate)
        ensures
            r.genome_max_age_min is None,
            r.genome_max_age_max is None,
    {
        ApiGenomeMaxAgeRangeUpdate { genome_max_age_min: None, genome_max_age_max: None }
    }
}

impl Default for ApiReproductionUpdate {
    fn default() -> (r: ApiReproductionUpdate)
        ensures
            r.genome_reproduction_rate_range is None,
            r.genome_safe_reproduction_points_range is None,
    {
        ApiReproductionUpdate { genome_reproduction_rate_range: None, genome_safe_reproduction_points_range: None }
    }
}

impl Default for ApiGenomeReproductionRateRangeUpdate {
    fn default() -> (r: ApiGenomeReproductionRateRangeUpdate)
        ensures
            r.genome_reproduction_rate_min is None,
            r.genome_reproduction_rate_max is None,
    {
        ApiGenomeReproductionRateRangeUpdate { genome_reproduction_rate_min: None, genome_reproduction_rate_max: None }
    }
}

impl Default for ApiGenomeSafeReproductionPointsRangeUpdate {
    fn default() -> (r: ApiGenomeSafeReproductionPointsRangeUpdate)
        ensures
            r.genome_safe_reproduction_points_min is None,
            r.genome_safe_reproduction_points_max is None,
    {
        ApiGenomeSafeReproductionPointsRangeUpdate { genome_safe_reproduction_points_min: None, genome_safe_reproduction_points_max: None }
    }
}

impl Default for ApiLabelsUpdate {
    fn default() -> (r: ApiLabelsUpdate)
        ensures
            r.collision is None,
            r.break_labels is None,
            r.age is None,
            r.energy is None,
    {
        ApiLabelsUpdate { collision: None, break_labels: None, age: None, energy: None }
    }
}

impl Default for ApiCollisionLabelsUpdate {
    fn default() -> (r: ApiCollisionLabelsUpdate)
        ensures
            r.show_collision_labels is None,
            r.collision_label_force_min is None,
    {
        ApiCollisionLabelsUpdate { show_collision_labels: None, collision_label_force_min: None }
    }
}

impl Default for ApiBreakLabelsUpdate {
    fn default() -> (r: ApiBreakLabelsUpdate)
        ensures
            r.show_break_labels is None,
            r.break_label_impulse_min is None,
    {
        ApiBreakLabelsUpdate { show_break_labels: None, break_label_impulse_min: None }
    }
}

impl Default for ApiAgeLabelsUpdate {
    fn default() -> (r: ApiAgeLabelsUpdate)
        ensures
            r.show_age_labels is None,
            r.age_label_range is None,
    {
        ApiAgeLabelsUpdate { show_age_labels: None, age_label_range: None }
    }
}

impl Default for ApiAgeLabelRangeUpdate {
    fn default() -> (r: ApiAgeLabelRangeUpdate)
        ensures
            r.age_label_min is None,
            r.age_label_max is None,
    {
        ApiAgeLabelRangeUpdate { age_label_min: None, age_label_max: None }
    }
}

impl Default for ApiEnergyLabelsUpdate {
    fn default() -> (r: ApiEnergyLabelsUpdate)
        ensures
            r.show_energy_labels is None,
            r.energy_label_range is None,
    {
        ApiEnergyLabelsUpdate { show_energy_labels: None, energy_label_range: None }
    }
}

impl Default for ApiEnergyLabelRangeUpdate {
    fn default() -> (r: ApiEnergyLabelRangeUpdate)
        ensures
            r.energy_label_min is None,
            r.energy_label_max is None,
    {
        ApiEnergyLabelRangeUpdate { energy_label_min: None, energy_label_max: None }
    }
}

/// The hierarchical form of `t`: each leaf holds the field of the same meaning.
pub open spec fn api_of(t: PhysicsTuning) -> ApiTuning {
    ApiTuning {
        stickiness: ApiStickiness {
            stick_range: ApiStickRange {
                rel_vel_min: t.rel_vel_min,
                rel_vel_max: t.rel_vel_max,
            },
            break_threshold: t.break_force_threshold,
        },
        energy_share: ApiEnergyShare {
            energy_transfer_enabled: t.energy_transfer_enabled,
            energy_share_diff_threshold: t.energy_share_diff_threshold,
            genome_friendly_scent_range: t.genome_friendly_scent_range,
            genome_friendly_distance_range: ApiGenomeFriendlyDistanceRange {
                genome_friendly_distance_min: t.genome_friendly_distance_min,
                genome_friendly_distance_max: t.genome_friendly_distance_max,
            },
            energy_share_friendly_rate: t.energy_share_friendly_rate,
            energy_share_parent_not_friendly_child_friendly_rate: t.energy_share_parent_not_friendly_child_friendly_rate,
            energy_share_parent_friendly_child_not_friendly_rate: t.energy_share_parent_friendly_child_not_friendly_rate,
            energy_share_hostile_rand_range: ApiEnergyShareHostileRandRange {
                energy_share_hostile_rand_min: t.energy_share_hostile_rand_min,
                energy_share_hostile_rand_max: t.energy_share_hostile_rand_max,
            },
            genome_energy_share_range: ApiGenomeEnergyShareRange {
                genome_energy_share_min: t.genome_energy_share_min,
                genome_energy_share_max: t.genome_energy_share_max,
            },
        },
        bite: ApiBite {
            bite_enabled: t.bite_enabled,
            bite_size_scale: t.bite_size_scale,
            genome_bite_size_range: ApiGenomeBiteSizeRange {
                genome_bite_size_min: t.genome_bite_size_min,
                genome_bite_size_max: t.genome_bite_size_max,
            },
        },
        max_age: ApiMaxAge {
            genome_max_age_range: ApiGenomeMaxAgeRange {
                genome_max_age_min: t.genome_max_age_min,
                genome_max_age_max: t.genome_max_age_max,
            },
            survival_cost_per_tick: t.survival_cost_per_tick,
        },
        reproduction: ApiReproduction {
            genome_reproduction_rate_range: ApiGenomeReproductionRateRange {
                genome_reproduction_rate_min: t.genome_reproduction_rate_min,
                genome_reproduction_rate_max: t.genome_reproduction_rate_max,
            },
            genome_safe_reproduction_points_range: ApiGenomeSafeReproductionPointsRange {
                genome_safe_reproduction_points_min: t.genome_safe_reproduction_points_min,
                genome_safe_reproduction_points_max: t.genome_safe_reproduction_points_max,
            },
        },
        labels: ApiLabels {
            collision: ApiCollisionLabels {
                show_collision_labels: t.show_collision_labels,
                collision_label_force_min: t.collision_label_force_min,
            },
            break_labels: ApiBreakLabels {
                show_break_labels: t.show_break_labels,
                break_label_impulse_min: t.break_label_impulse_min,
            },
            age: ApiAgeLabels {
                show_age_labels: t.show_age_labels,
                age_label_range: ApiAgeLabelRange {
                    age_label_min: t.age_label_min,
                    age_label_max: t.age_label_max,
                },
            },
            energy: ApiEnergyLabels {
                show_energy_labels: t.show_energy_labels,
                energy_label_range: ApiEnergyLabelRange {
                    energy_label_min: t.energy_label_min,
                    energy_label_max: t.energy_label_max,
                },
            },
        },
    }
}

/// The flat record read from the leaves of `a`.
pub open spec fn physics_of(a: ApiTuning) -> PhysicsTuning {
    PhysicsTuning {
        rel_vel_min: a.stickiness.stick_range.rel_vel_min,
        rel_vel_max: a.stickiness.stick_range.rel_vel_max,
        break_force_threshold: a.stickiness.break_threshold,
        energy_transfer_enabled: a.energy_share.energy_transfer_enabled,
        energy_share_diff_threshold: a.energy_share.energy_share_diff_threshold,
        genome_friendly_scent_range: a.energy_share.genome_friendly_scent_range,
        genome_friendly_distance_min: a.energy_share.genome_friendly_distance_range.genome_friendly_distance_min,
        genome_friendly_distance_max: a.energy_share.genome_friendly_distance_range.genome_friendly_distance_max,
        energy_share_friendly_rate: a.energy_share.energy_share_friendly_rate,
        energy_share_parent_not_friendly_child_friendly_rate: a.energy_share.energy_share_parent_not_friendly_child_friendly_rate,
        energy_share_parent_friendly_child_not_friendly_rate: a.energy_share.energy_share_parent_friendly_child_not_friendly_rate,
        energy_share_hostile_rand_min: a.energy_share.energy_share_hostile_rand_range.energy_share_hostile_rand_min,
        energy_share_hostile_rand_max: a.energy_share.energy_share_hostile_rand_range.energy_share_hostile_rand_max,
        genome_energy_share_min: a.energy_share.genome_energy_share_range.genome_energy_share_min,
        genome_energy_share_max: a.energy_share.genome_energy_share_range.genome_energy_share_max,
        bite_enabled: a.bite.bite_enabled,
        bite_size_scale: a.bite.bite_size_scale,
        genome_bite_size_min: a.bite.genome_bite_size_range.genome_bite_size_min,
        genome_bite_size_max: a.bite.genome_bite_size_range.genome_bite_size_max,
        genome_max_age_min: a.max_age.genome_max_age_range.genome_max_age_min,
        genome_max_age_max: a.max_age.genome_max_age_range.genome_max_age_max,
        survival_cost_per_tick: a.max_age.survival_cost_per_tick,
        genome_reproduction_rate_min: a.reproduction.genome_reproduction_rate_range.genome_reproduction_rate_min,
        genome_reproduction_rate_max: a.reproduction.genome_reproduction_rate_range.genome_reproduction_rate_max,
        genome_safe_reproduction_points_min: a.reproduction.genome_safe_reproduction_points_range.genome_safe_reproduction_points_min,
        genome_safe_reproduction_points_max: a.reproduction.genome_safe_reproduction_points_range.genome_safe_reproduction_points_max,
        show_collision_labels: a.labels.collision.show_collision_labels,
        collision_label_force_min: a.labels.collision.collision_label_force_min,
        show_break_labels: a.labels.break_labels.show_break_labels,
        break_label_impulse_min: a.labels.break_labels.break_label_impulse_min,
        show_age_labels: a.labels.age.show_age_labels,
        age_label_min: a.labels.age.age_label_range.age_label_min,
        age_label_max: a.labels.age.age_label_range.age_label_max,
        show_energy_labels: a.labels.energy.show_energy_labels,
        energy_label_min: a.labels.energy.energy_label_range.energy_label_min,
        energy_label_max: a.labels.energy.energy_label_range.energy_label_max,
    }
}

/// `o`'s value when present, else `v`.
pub open spec fn or_keep<T>(o: Option<T>, v: T) -> T {
    match o {
        Some(x) => x,
        None => v,
    }
}

impl ApiTuningUpdate {
    /// `t` with every leaf present in this update written over it.
    pub open spec fn merged(self, t: PhysicsTuning) -> PhysicsTuning {
        let t0 = match self.stickiness {
            Some(u) => u.merged(t),
            None => t,
        };
        let t1 = match self.energy_share {
            Some(u) => u.merged(t0),
            None => t0,
        };
        let t2 = match self.bite {
            Some(u) => u.merged(t1),
            None => t1,
        };
        let t3 = match self.max_age {
            Some(u) => u.merged(t2),
            None => t2,
        };
        let t4 = match self.reproduction {
            Some(u) => u.merged(t3),
            None => t3,
        };
        let t5 = match self.labels {
            Some(u) => u.merged(t4),
            None => t4,
        };
        t5
    }

    /// Writes every leaf present in this update into `t`, leaving the others.
    pub fn apply_to(self, t: &mut PhysicsTuning)
        ensures
            *final(t) == self.merged(*old(t)),
    {
        if let Some(u) = self.stickiness {
            u.apply_to(t);
        }
        if let Some(u) = self.energy_share {
            u.apply_to(t);
        }
        if let Some(u) = self.bite {
            u.apply_to(t);
        }
        if let Some(u) = self.max_age {
            u.apply_to(t);
        }
        if let Some(u) = self.reproduction {
            u.apply_to(t);
        }
        if let Some(u) = self.labels {
            u.apply_to(t);
        }
    }
}

impl ApiStickinessUpdate {
    /// `t` with every leaf present in this update written over it.
    pub open spec fn merged(self, t: PhysicsTuning) -> PhysicsTuning {
        let t0 = match self.stick_range {
            Some(u) => u.merged(t),
            None => t,
        };
        let t1 = PhysicsTuning { break_force_threshold: or_keep(self.break_threshold, t0.break_force_threshold), ..t0 };
        t1
    }

    /// Writes every leaf present in this update into `t`, leaving the others.
    pub fn apply_to(self, t: &mut PhysicsTuning)
        ensures
            *final(t) == self.merged(*old(t)),
    {
        if let Some(u) = self.stick_range {
            u.apply_to(t);
        }
        if let Some(v) = self.break_threshold {
            t.break_force_threshold = v;
        }
    }
}

impl ApiStickRangeUpdate {
    /// `t` with every leaf present in this update written over it.
    pub open spec fn merged(self, t: PhysicsTuning) -> PhysicsTuning {
        let t0 = PhysicsTuning { rel_vel_min: or_keep(self.rel_vel_min, t.rel_vel_min), ..t };
        let t1 = PhysicsTuning { rel_vel_max: or_keep(self.rel_vel_max, t0.rel_vel_max), ..t0 };
        t1
    }

    /// Writes every leaf present in this update into `t`, leaving the others.
    pub fn apply_to(self, t: &mut PhysicsTuning)
        ensures
            *final(t) == self.merged(*old(t)),
    {
        if let Some(v) = self.rel_vel_min {
            t.rel_vel_min = v;
        }
        if let Some(v) = self.rel_vel_max {
            t.rel_vel_max = v;
        }
    }
}

impl ApiEnergyShareUpdate {
    /// `t` with every leaf present in this update written over it.
    pub open spec fn merged(self, t: PhysicsTuning) -> PhysicsTuning {
        let t0 = PhysicsTuning { energy_transfer_enabled: or_keep(self.energy_transfer_enabled, t.energy_transfer_enabled), ..t };
        let t1 = PhysicsTuning { energy_share_diff_threshold: or_keep(self.energy_share_diff_threshold, t0.energy_share_diff_threshold), ..t0 };
        let t2 = PhysicsTuning { genome_friendly_scent_range: or_keep(self.genome_friendly_scent_range, t1.genome_friendly_scent_range), ..t1 };
        let t3 = match self.genome_friendly_distance_range {
            Some(u) => u.merged(t2),
            None => t2,
        };
        let t4 = PhysicsTuning { energy_share_friendly_rate: or_keep(self.energy_share_friendly_rate, t3.energy_share_friendly_rate), ..t3 };
        let t5 = PhysicsTuning { energy_share_parent_not_friendly_child_friendly_rate: or_keep(self.energy_share_parent_not_friendly_child_friendly_rate, t4.energy_share_parent_not_friendly_child_friendly_rate), ..t4 };
        let t6 = PhysicsTuning { energy_share_parent_friendly_child_not_friendly_rate: or_keep(self.energy_share_parent_friendly_child_not_friendly_rate, t5.energy_share_parent_friendly_child_not_friendly_rate), ..t5 };
        let t7 = match self.energy_share_hostile_rand_range {
            Some(u) => u.merged(t6),
            None => t6,
        };
        let t8 = match self.genome_energy_share_range {
            Some(u) => u.merged(t7),
            None => t7,
        };
        t8
    }

    /// Writes every leaf present in this update into `t`, leaving the others.
    #[verifier::rlimit(60)]
    pub fn apply_to(self, t: &mut PhysicsTuning)
        ensures
            *final(t) == self.merged(*old(t)),
    {
        if let Some(v) = self.energy_transfer_enabled {
            t.energy_transfer_enabled = v;
        }
        if let Some(v) = self.energy_share_diff_threshold {
            t.energy_share_diff_threshold = v;
        }
        if let Some(v) = self.genome_friendly_scent_range {
            t.genome_friendly_scent_range = v;
        }
        if let Some(u) = self.genome_friendly_distance_range {
            u.apply_to(t);
        }
        if let Some(v) = self.energy_share_friendly_rate {
            t.energy_share_friendly_rate = v;
        }
        if let Some(v) = self.energy_share_parent_not_friendly_child_friendly_rate {
            t.energy_share_parent_not_friendly_child_friendly_rate = v;
        }
        if let Some(v) = self.energy_share_parent_friendly_child_not_friendly_rate {
            t.energy_share_parent_friendly_child_not_friendly_rate = v;
        }
        if let Some(u) = self.energy_share_hostile_rand_range {
            u.apply_to(t);
        }
        if let Some(u) = self.genome_energy_share_range {
            u.apply_to(t);
        }
    }
}

impl ApiGenomeFriendlyDistanceRangeUpdate {
    /// `t` with every leaf present in this update written over it.
    pub open spec fn merged(self, t: PhysicsTuning) -> PhysicsTuning {
        let t0 = PhysicsTuning { genome_friendly_distance_min: or_keep(self.genome_friendly_distance_min, t.genome_friendly_distance_min), ..t };
        let t1 = PhysicsTuning { genome_friendly_distance_max: or_keep(self.genome_friendly_distance_max, t0.genome_friendly_distance_max), ..t0 };
        t1
    }

    /// Writes every leaf present in this update into `t`, leaving the others.
    pub fn apply_to(self, t: &mut PhysicsTuning)
        ensures
            *final(t) == self.merged(*old(t)),
    {
        if let Some(v) = self.genome_friendly_distance_min {
            t.genome_friendly_distance_min = v;
        }
        if let Some(v) = self.genome_friendly_distance_max {
            t.genome_friendly_distance_max = v;
        }
    }
}

impl ApiEnergyShareHostileRandRangeUpdate {
    /// `t` with every leaf present in this update written over it.
    pub open spec fn merged(self, t: PhysicsTuning) -> PhysicsTuning {
        let t0 = PhysicsTuning { energy_share_hostile_rand_min: or_keep(self.energy_share_hostile_rand_min, t.energy_share_hostile_rand_min), ..t };
        let t1 = PhysicsTuning { energy_share_hostile_rand_max: or_keep(self.energy_share_hostile_rand_max, t0.energy_share_hostile_rand_max), ..t0 };
        t1
    }

    /// Writes every leaf present in this update into `t`, leaving the others.
    pub fn apply_to(self, t: &mut PhysicsTuning)
        ensures
            *final(t) == self.merged(*old(t)),
    {
        if let Some(v) = self.energy_share_hostile_rand_min {
            t.energy_share_hostile_rand_min = v;
        }
        if let Some(v) = self.energy_share_hostile_rand_max {
            t.energy_share_hostile_rand_max = v;
        }
    }
}

impl ApiGenomeEnergyShareRangeUpdate {
    /// `t` with every leaf present in this update written over it.
    pub open spec fn merged(self, t: PhysicsTuning) -> PhysicsTuning {
        let t0 = PhysicsTuning { genome_energy_share_min: or_keep(self.genome_energy_share_min, t.genome_energy_share_min), ..t };
        let t1 = PhysicsTuning { genome_energy_share_max: or_keep(self.genome_energy_share_max, t0.genome_energy_share_max), ..t0 };
        t1
    }

    /// Writes every leaf present in this update into `t`, leaving the others.
    pub fn apply_to(self, t: &mut PhysicsTuning)
        ensures
            *final(t) == self.merged(*old(t)),
    {
        if let Some(v) = self.genome_energy_share_min {
            t.genome_energy_share_min = v;
        }
        if let Some(v) = self.genome_energy_share_max {
            t.genome_energy_share_max = v;
        }
    }
}

impl ApiBiteUpdate {
    /// `t` with every leaf present in this update written over it.
    pub open spec fn merged(self, t: PhysicsTuning) -> PhysicsTuning {
        let t0 = PhysicsTuning { bite_enabled: or_keep(self.bite_enabled, t.bite_enabled), ..t };
        let t1 = PhysicsTuning { bite_size_scale: or_keep(self.bite_size_scale, t0.bite_size_scale), ..t0 };
        let t2 = match self.genome_bite_size_range {
            Some(u) => u.merged(t1),
            None => t1,
        };
        t2
    }

    /// Writes every leaf present in this update into `t`, leaving the others.
    pub fn apply_to(self, t: &mut PhysicsTuning)
        ensures
            *final(t) == self.merged(*old(t)),
    {
        if let Some(v) = self.bite_enabled {
            t.bite_enabled = v;
        }
        if let Some(v) = self.bite_size_scale {
            t.bite_size_scale = v;
        }
        if let Some(u) = self.genome_bite_size_range {
            u.apply_to(t);
        }
    }
}

impl ApiGenomeBiteSizeRangeUpdate {
    /// `t` with every leaf present in this update written over it.
    pub open spec fn merged(self, t: PhysicsTuning) -> PhysicsTuning {
        let t0 = PhysicsTuning { genome_bite_size_min: or_keep(self.genome_bite_size_min, t.genome_bite_size_min), ..t };
        let t1 = PhysicsTuning { genome_bite_size_max: or_keep(self.genome_bite_size_max, t0.genome_bite_size_max), ..t0 };
        t1
    }

    /// Writes every leaf present in this update into `t`, leaving the others.
    pub fn apply_to(self, t: &mut PhysicsTuning)
        ensures
            *final(t) == self.merged(*old(t)),
    {
        if let Some(v) = self.genome_bite_size_min {
            t.genome_bite_size_min = v;
        }
        if let Some(v) = self.genome_bite_size_max {
            t.genome_bite_size_max = v;
        }
    }
}

impl ApiMaxAgeUpdate {
    /// `t` with every leaf present in this update written over it.
    pub open spec fn merged(self, t: PhysicsTuning) -> PhysicsTuning {
        let t0 = match self.genome_max_age_range {
            Some(u) => u.merged(t),
            None => t,
        };
        let t1 = PhysicsTuning { survival_cost_per_tick: or_keep(self.survival_cost_per_tick, t0.survival_cost_per_tick), ..t0 };
        t1
    }

    /// Writes every leaf present in this update into `t`, leaving the others.
    pub fn apply_to(self, t: &mut PhysicsTuning)
        ensures
            *final(t) == self.merged(*old(t)),
    {
        if let Some(u) = self.genome_max_age_range {
            u.apply_to(t);
        }
        if let Some(v) = self.survival_cost_per_tick {
            t.survival_cost_per_tick = v;
        }
    }
}

impl ApiGenomeMaxAgeRangeUpdate {
    /// `t` with every leaf present in this update written over it.
    pub open spec fn merged(self, t: PhysicsTuning) -> PhysicsTuning {
        let t0 = PhysicsTuning { genome_max_age_min: or_keep(self.genome_max_age_min, t.genome_max_age_min), ..t };
        let t1 = PhysicsTuning { genome_max_age_max: or_keep(self.genome_max_age_max, t0.genome_max_age_max), ..t0 };
        t1
    }

    /// Writes every leaf present in this update into `t`, leaving the others.
    pub fn apply_to(self, t: &mut PhysicsTuning)
        ensures
            *final(t) == self.merged(*old(t)),
    {
        if let Some(v) = self.genome_max_age_min {
            t.genome_max_age_min = v;
        }
        if let Some(v) = self.genome_max_age_max {
            t.genome_max_age_max = v;
        }
    }
}

impl ApiReproductionUpdate {
    /// `t` with every leaf present in this update written over it.
    pub open spec fn merged(self, t: PhysicsTuning) -> PhysicsTuning {
        let t0 = match self.genome_reproduction_rate_range {
            Some(u) => u.merged(t),
            None => t,
        };
        let t1 = match self.genome_safe_reproduction_points_range {
            Some(u) => u.merged(t0),
            None => t0,
        };
        t1
    }

    /// Writes every leaf present in this update into `t`, leaving the others.
    pub fn apply_to(self, t: &mut PhysicsTuning)
        ensures
            *final(t) == self.merged(*old(t)),
    {
        if let Some(u) = self.genome_reproduction_rate_range {
            u.apply_to(t);
        }
        if let Some(u) = self.genome_safe_reproduction_points_range {
            u.apply_to(t);
        }
    }
}

impl ApiGenomeReproductionRateRangeUpdate {
    /// `t` with every leaf present in this update written over it.
    pub open spec fn merged(self, t: PhysicsTuning) -> PhysicsTuning {
        let t0 = PhysicsTuning { genome_reproduction_rate_min: or_keep(self.genome_reproduction_rate_min, t.genome_reproduction_rate_min), ..t };
        let t1 = PhysicsTuning { genome_reproduction_rate_max: or_keep(self.genome_reproduction_rate_max, t0.genome_reproduction_rate_max), ..t0 };
        t1
    }

    /// Writes every leaf present in this update into `t`, leaving the others.
    pub fn apply_to(self, t: &mut PhysicsTuning)
        ensures
            *final(t) == self.merged(*old(t)),
    {
        if let Some(v) = self.genome_reproduction_rate_min {
            t.genome_reproduction_rate_min = v;
        }
        if let Some(v) = self.genome_reproduction_rate_max {
            t.genome_reproduction_rate_max = v;
        }
    }
}

impl ApiGenomeSafeReproductionPointsRangeUpdate {
    /// `t` with every leaf present in this update written over it.
    pub open spec fn merged(self, t: PhysicsTuning) -> PhysicsTuning {
        let t0 = PhysicsTuning { genome_safe_reproduction_points_min: or_keep(self.genome_safe_reproduction_points_min, t.genome_safe_reproduction_points_min), ..t };
        let t1 = PhysicsTuning { genome_safe_reproduction_points_max: or_keep(self.genome_safe_reproduction_points_max, t0.genome_safe_reproduction_points_max), ..t0 };
        t1
    }

    /// Writes every leaf present in this update into `t`, leaving the others.
    pub fn apply_to(self, t: &mut PhysicsTuning)
        ensures
            *final(t) == self.merged(*old(t)),
    {
        if let Some(v) = self.genome_safe_reproduction_points_min {
            t.genome_safe_reproduction_points_min = v;
        }
        if let Some(v) = self.genome_safe_reproduction_points_max {
            t.genome_safe_reproduction_points_max = v;
        }
    }
}

impl ApiLabelsUpdate {
    /// `t` with every leaf present in this update written over it.
    pub open spec fn merged(self, t: PhysicsTuning) -> PhysicsTuning {
        let t0 = match self.collision {
            Some(u) => u.merged(t),
            None => t,
        };
        let t1 = match self.break_labels {
            Some(u) => u.merged(t0),
            None => t0,
        };
        let t2 = match self.age {
            Some(u) => u.merged(t1),
            None => t1,
        };
        let t3 = match self.energy {
            Some(u) => u.merged(t2),
            None => t2,
        };
        t3
    }

    /// Writes every leaf present in this update into `t`, leaving the others.
    pub fn apply_to(self, t: &mut PhysicsTuning)
        ensures
            *final(t) == self.merged(*old(t)),
    {
        if let Some(u) = self.collision {
            u.apply_to(t);
        }
        if let Some(u) = self.break_labels {
            u.apply_to(t);
        }
        if let Some(u) = self.age {
            u.apply_to(t);
        }
        if let Some(u) = self.energy {
            u.apply_to(t);
        }
    }
}

impl ApiCollisionLabelsUpdate {
    /// `t` with every leaf present in this update written over it.
    pub open spec fn merged(self, t: PhysicsTuning) -> PhysicsTuning {
        let t0 = PhysicsTuning { show_collision_labels: or_keep(self.show_collision_labels, t.show_collision_labels), ..t };
        let t1 = PhysicsTuning { collision_label_force_min: or_keep(self.collision_label_force_min, t0.collision_label_force_min), ..t0 };
        t1
    }

    /// Writes every leaf present in this update into `t`, leaving the others.
    pub fn apply_to(self, t: &mut PhysicsTuning)
        ensures
            *final(t) == self.merged(*old(t)),
    {
        if let Some(v) = self.show_collision_labels {
            t.show_collision_labels = v;
        }
        if let Some(v) = self.collision_label_force_min {
            t.collision_label_force_min = v;
        }
    }
}

impl ApiBreakLabelsUpdate {
    /// `t` with every leaf present in this update written over it.
    pub open spec fn merged(self, t: PhysicsTuning) -> PhysicsTuning {
        let t0 = PhysicsTuning { show_break_labels: or_keep(self.show_break_labels, t.show_break_labels), ..t };
        let t1 = PhysicsTuning { break_label_impulse_min: or_keep(self.break_label_impulse_min, t0.break_label_impulse_min), ..t0 };
        t1
    }

    /// Writes every leaf present in this update into `t`, leaving the others.
    pub fn apply_to(self, t: &mut PhysicsTuning)
        ensures
            *final(t) == self.merged(*old(t)),
    {
        if let Some(v) = self.show_break_labels {
            t.show_break_labels = v;
        }
        if let Some(v) = self.break_label_impulse_min {
            t.break_label_impulse_min = v;
        }
    }
}

impl ApiAgeLabelsUpdate {
    /// `t` with every leaf present in this update written over it.
    pub open spec fn merged(self, t: PhysicsTuning) -> PhysicsTuning {
        let t0 = PhysicsTuning { show_age_labels: or_keep(self.show_age_labels, t.show_age_labels), ..t };
        let t1 = match self.age_label_range {
            Some(u) => u.merged(t0),
            None => t0,
        };
        t1
    }

    /// Writes every leaf present in this update into `t`, leaving the others.
    pub fn apply_to(self, t: &mut PhysicsTuning)
        ensures
            *final(t) == self.merged(*old(t)),
    {
        if let Some(v) = self.show_age_labels {
            t.show_age_labels = v;
        }
        if let Some(u) = self.age_label_range {
            u.apply_to(t);
        }
    }
}

impl ApiAgeLabelRangeUpdate {
    /// `t` with every leaf present in this update written over it.
    pub open spec fn merged(self, t: PhysicsTuning) -> PhysicsTuning {
        let t0 = PhysicsTuning { age_label_min: or_keep(self.age_label_min, t.age_label_min), ..t };
        let t1 = PhysicsTuning { age_label_max: or_keep(self.age_label_max, t0.age_label_max), ..t0 };
        t1
    }

    /// Writes every leaf present in this update into `t`, leaving the others.
    pub fn apply_to(self, t: &mut PhysicsTuning)
        ensures
            *final(t) == self.merged(*old(t)),
    {
        if let Some(v) = self.age_label_min {
            t.age_label_min = v;
        }
        if let Some(v) = self.age_label_max {
            t.age_label_max = v;
        }
    }
}

impl ApiEnergyLabelsUpdate {
    /// `t` with every leaf present in this update written over it.
    pub open spec fn merged(self, t: PhysicsTuning) -> PhysicsTuning {
        let t0 = PhysicsTuning { show_energy_labels: or_keep(self.show_energy_labels, t.show_energy_labels), ..t };
        let t1 = match self.energy_label_range {
            Some(u) => u.merged(t0),
            None => t0,
        };
        t1
    }

    /// Writes every leaf present in this update into `t`, leaving the others.
    pub fn apply_to(self, t: &mut PhysicsTuning)
        ensures
            *final(t) == self.merged(*old(t)),
    {
        if let Some(v) = self.show_energy_labels {
            t.show_energy_labels = v;
        }
        if let Some(u) = self.energy_label_range {
            u.apply_to(t);
        }
    }
}

impl ApiEnergyLabelRangeUpdate {
    /// `t` with every leaf present in this update written over it.
    pub open spec fn merged(self, t: PhysicsTuning) -> PhysicsTuning {
        let t0 = PhysicsTuning { energy_label_min: or_keep(self.energy_label_min, t.energy_label_min), ..t };
        let t1 = PhysicsTuning { energy_label_max: or_keep(self.energy_label_max, t0.energy_label_max), ..t0 };
        t1
    }

    /// Writes every leaf present in this update into `t`, leaving the others.
    pub fn apply_to(self, t: &mut PhysicsTuning)
        ensures
            *final(t) == self.merged(*old(t)),
    {
        if let Some(v) = self.energy_label_min {
            t.energy_label_min = v;
        }
        if let Some(v) = self.energy_label_max {
            t.energy_label_max = v;
        }
    }
}

impl From<&PhysicsTuning> for ApiTuning {
    fn from(t: &PhysicsTuning) -> (r: ApiTuning) {
        ApiTuning {
            stickiness: ApiStickiness {
                stick_range: ApiStickRange {
                    rel_vel_min: t.rel_vel_min,
                    rel_vel_max: t.rel_vel_max,
                },
                break_threshold: t.break_force_threshold,
            },
            energy_share: ApiEnergyShare {
                energy_transfer_enabled: t.energy_transfer_enabled,
                energy_share_diff_threshold: t.energy_share_diff_threshold,
                genome_friendly_scent_range: t.genome_friendly_scent_range,
                genome_friendly_distance_range: ApiGenomeFriendlyDistanceRange {
                    genome_friendly_distance_min: t.genome_friendly_distance_min,
                    genome_friendly_distance_max: t.genome_friendly_distance_max,
                },
                energy_share_friendly_rate: t.energy_share_friendly_rate,
                energy_share_parent_not_friendly_child_friendly_rate: t.energy_share_parent_not_friendly_child_friendly_rate,
                energy_share_parent_friendly_child_not_friendly_rate: t.energy_share_parent_friendly_child_not_friendly_rate,
                energy_share_hostile_rand_range: ApiEnergyShareHostileRandRange {
                    energy_share_hostile_rand_min: t.energy_share_hostile_rand_min,
                    energy_share_hostile_rand_max: t.energy_share_hostile_rand_max,
                },
                genome_energy_share_range: ApiGenomeEnergyShareRange {
                    genome_energy_share_min: t.genome_energy_share_min,
                    genome_energy_share_max: t.genome_energy_share_max,
                },
            },
            bite: ApiBite {
                bite_enabled: t.bite_enabled,
                bite_size_scale: t.bite_size_scale,
                genome_bite_size_range: ApiGenomeBiteSizeRange {
                    genome_bite_size_min: t.genome_bite_size_min,
                    genome_bite_size_max: t.genome_bite_size_max,
                },
            },
            max_age: ApiMaxAge {
                genome_max_age_range: ApiGenomeMaxAgeRange {
                    genome_max_age_min: t.genome_max_age_min,
                    genome_max_age_max: t.genome_max_age_max,
                },
                survival_cost_per_tick: t.survival_cost_per_tick,
            },
            reproduction: ApiReproduction {
                genome_reproduction_rate_range: ApiGenomeReproductionRateRange {
                    genome_reproduction_rate_min: t.genome_reproduction_rate_min,
                    genome_reproduction_rate_max: t.genome_reproduction_rate_max,
                },
                genome_safe_reproduction_points_range: ApiGenomeSafeReproductionPointsRange {
                    genome_safe_reproduction_points_min: t.genome_safe_reproduction_points_min,
                    genome_safe_reproduction_points_max: t.genome_safe_reproduction_points_max,
                },
            },
            labels: ApiLabels {
                collision: ApiCollisionLabels {
                    show_collision_labels: t.show_collision_labels,
                    collision_label_force_min: t.collision_label_force_min,
                },
                break_labels: ApiBreakLabels {
                    show_break_labels: t.show_break_labels,
                    break_label_impulse_min: t.break_label_impulse_min,
                },
                age: ApiAgeLabels {
                    show_age_labels: t.show_age_labels,
                    age_label_range: ApiAgeLabelRange {
                        age_label_min: t.age_label_min,
                        age_label_max: t.age_label_max,
                    },
                },
                energy: ApiEnergyLabels {
                    show_energy_labels: t.show_energy_labels,
                    energy_label_range: ApiEnergyLabelRange {
                        energy_label_min: t.energy_label_min,
                        energy_label_max: t.energy_label_max,
                    },
                },
            },
        }
    }
}

impl vstd::std_specs::convert::FromSpecImpl<&PhysicsTuning> for ApiTuning {
    open spec fn obeys_from_spec() -> bool {
        true
    }

    open spec fn from_spec(t: &PhysicsTuning) -> ApiTuning {
        api_of(*t)
    }
}

impl From<ApiTuning> for PhysicsTuning {
    fn from(api: ApiTuning) -> (r: PhysicsTuning) {
        PhysicsTuning {
            rel_vel_min: api.stickiness.stick_range.rel_vel_min,
            rel_vel_max: api.stickiness.stick_range.rel_vel_max,
            break_force_threshold: api.stickiness.break_threshold,
            energy_transfer_enabled: api.energy_share.energy_transfer_enabled,
            energy_share_diff_threshold: api.energy_share.energy_share_diff_threshold,
            genome_friendly_scent_range: api.energy_share.genome_friendly_scent_range,
            genome_friendly_distance_min: api.energy_share.genome_friendly_distance_range.genome_friendly_distance_min,
            genome_friendly_distance_max: api.energy_share.genome_friendly_distance_range.genome_friendly_distance_max,
            energy_share_friendly_rate: api.energy_share.energy_share_friendly_rate,
            energy_share_parent_not_friendly_child_friendly_rate: api.energy_share.energy_share_parent_not_friendly_child_friendly_rate,
            energy_share_parent_friendly_child_not_friendly_rate: api.energy_share.energy_share_parent_friendly_child_not_friendly_rate,
            energy_share_hostile_rand_min: api.energy_share.energy_share_hostile_rand_range.energy_share_hostile_rand_min,
            energy_share_hostile_rand_max: api.energy_share.energy_share_hostile_rand_range.energy_share_hostile_rand_max,
            genome_energy_share_min: api.energy_share.genome_energy_share_range.genome_energy_share_min,
            genome_energy_share_max: api.energy_share.genome_energy_share_range.genome_energy_share_max,
            bite_enabled: api.bite.bite_enabled,
            bite_size_scale: api.bite.bite_size_scale,
            genome_bite_size_min: api.bite.genome_bite_size_range.genome_bite_size_min,
            genome_bite_size_max: api.bite.genome_bite_size_range.genome_bite_size_max,
            genome_max_age_min: api.max_age.genome_max_age_range.genome_max_age_min,
            genome_max_age_max: api.max_age.genome_max_age_range.genome_max_age_max,
            survival_cost_per_tick: api.max_age.survival_cost_per_tick,
            genome_reproduction_rate_min: api.reproduction.genome_reproduction_rate_range.genome_reproduction_rate_min,
            genome_reproduction_rate_max: api.reproduction.genome_reproduction_rate_range.genome_reproduction_rate_max,
            genome_safe_reproduction_points_min: api.reproduction.genome_safe_reproduction_points_range.genome_safe_reproduction_points_min,
            genome_safe_reproduction_points_max: api.reproduction.genome_safe_reproduction_points_range.genome_safe_reproduction_points_max,
            show_collision_labels: api.labels.collision.show_collision_labels,
            collision_label_force_min: api.labels.collision.collision_label_force_min,
            show_break_labels: api.labels.break_labels.show_break_labels,
            break_label_impulse_min: api.labels.break_labels.break_label_impulse_min,
            show_age_labels: api.labels.age.show_age_labels,
            age_label_min: api.labels.age.age_label_range.age_label_min,
            age_label_max: api.labels.age.age_label_range.age_label_max,
            show_energy_labels: api.labels.energy.show_energy_labels,
            energy_label_min: api.labels.energy.energy_label_range.energy_label_min,
            energy_label_max: api.labels.energy.energy_label_range.energy_label_max,
        }
    }
}

impl vstd::std_specs::convert::FromSpecImpl<ApiTuning> for PhysicsTuning {
    open spec fn obeys_from_spec() -> bool {
        true
    }

    open spec fn from_spec(api: ApiTuning) -> PhysicsTuning {
        physics_of(api)
    }
}

/// Merges a partial update into the control plane's snapshot and returns the
/// resulting full snapshot in hierarchical form.
pub fn patch_tuning(snapshot: &mut PhysicsTuning, update: ApiTuningUpdate) -> (r: ApiTuning)
    ensures
        *final(snapshot) == update.merged(*old(snapshot)),
        r == api_of(*final(snapshot)),
{
    update.apply_to(snapshot);
    ApiTuning::from(&*snapshot)
}

/// Drains the snapshots that arrived since the last tick into the
/// authoritative tuning: the last one wins, and with none nothing changes.
/// Returns whether the tuning was replaced.
pub fn apply_tuning_updates_system(tuning: &mut PhysicsTuning, pending: &Vec<PhysicsTuning>) -> (r: bool)
    ensures
        r == (pending@.len() > 0),
        pending@.len() == 0 ==> *final(tuning) == *old(tuning),
        pending@.len() > 0 ==> *final(tuning) == pending@.last(),
{
    let mut k: usize = 0;
    while k < pending.len()
        invariant
            0 <= k <= pending@.len(),
            k == 0 ==> *tuning == *old(tuning),
            k > 0 ==> *tuning == pending@[k - 1],
        decreases pending@.len() - k,
    {
        *tuning = pending[k];
        k += 1;
    }
    pending.len() > 0
}

impl ApiTuningUpdate {
    /// No leaf is present, at any depth.
    pub open spec fn is_noop(self) -> bool {
        (match self.stickiness { Some(x) => x.is_noop(), None => true })
        && (match self.energy_share { Some(x) => x.is_noop(), None => true })
        && (match self.bite { Some(x) => x.is_noop(), None => true })
        && (match self.max_age { Some(x) => x.is_noop(), None => true })
        && (match self.reproduction { Some(x) => x.is_noop(), None => true })
        && (match self.labels { Some(x) => x.is_noop(), None => true })
    }

    /// An update with no leaf present changes nothing.
    pub proof fn lemma_noop_merged(self, t: PhysicsTuning)
        requires
            self.is_noop(),
        ensures
            self.merged(t) == t,
    {
        if let Some(x) = self.stickiness {
            x.lemma_noop_merged(t);
        }
        if let Some(x) = self.energy_share {
            x.lemma_noop_merged(t);
        }
        if let Some(x) = self.bite {
            x.lemma_noop_merged(t);
        }
        if let Some(x) = self.max_age {
            x.lemma_noop_merged(t);
        }
        if let Some(x) = self.reproduction {
            x.lemma_noop_merged(t);
        }
        if let Some(x) = self.labels {
            x.lemma_noop_merged(t);
        }
    }
}

impl ApiStickinessUpdate {
    /// No leaf is present, at any depth.
    pub open spec fn is_noop(self) -> bool {
        (match self.stick_range { Some(x) => x.is_noop(), None => true })
        && self.break_threshold is None
    }

    /// An update with no leaf present changes nothing.
    pub proof fn lemma_noop_merged(self, t: PhysicsTuning)
        requires
            self.is_noop(),
        ensures
            self.merged(t) == t,
    {
        if let Some(x) = self.stick_range {
            x.lemma_noop_merged(t);
        }
    }
}

impl ApiStickRangeUpdate {
    /// No leaf is present, at any depth.
    pub open spec fn is_noop(self) -> bool {
        self.rel_vel_min is None
        && self.rel_vel_max is None
    }

    /// An update with no leaf present changes nothing.
    pub proof fn lemma_noop_merged(self, t: PhysicsTuning)
        requires
            self.is_noop(),
        ensures
            self.merged(t) == t,
    {
    }
}

impl ApiEnergyShareUpdate {
    /// No leaf is present, at any depth.
    pub open spec fn is_noop(self) -> bool {
        self.energy_transfer_enabled is None
        && self.energy_share_diff_threshold is None
        && self.genome_friendly_scent_range is None
        && (match self.genome_friendly_distance_range { Some(x) => x.is_noop(), None => true })
        && self.energy_share_friendly_rate is None
        && self.energy_share_parent_not_friendly_child_friendly_rate is None
        && self.energy_share_parent_friendly_child_not_friendly_rate is None
        && (match self.energy_share_hostile_rand_range { Some(x) => x.is_noop(), None => true })
        && (match self.genome_energy_share_range { Some(x) => x.is_noop(), None => true })
    }

    /// An update with no leaf present changes nothing.
    pub proof fn lemma_noop_merged(self, t: PhysicsTuning)
        requires
            self.is_noop(),
        ensures
            self.merged(t) == t,
    {
        if let Some(x) = self.genome_friendly_distance_range {
            x.lemma_noop_merged(t);
        }
        if let Some(x) = self.energy_share_hostile_rand_range {
            x.lemma_noop_merged(t);
        }
        if let Some(x) = self.genome_energy_share_range {
            x.lemma_noop_merged(t);
        }
    }
}

impl ApiGenomeFriendlyDistanceRangeUpdate {
    /// No leaf is present, at any depth.
    pub open spec fn is_noop(self) -> bool {
        self.genome_friendly_distance_min is None
        && self.genome_friendly_distance_max is None
    }

    /// An update with no leaf present changes nothing.
    pub proof fn lemma_noop_merged(self, t: PhysicsTuning)
        requires
            self.is_noop(),
        ensures
            self.merged(t) == t,
    {
    }
}

impl ApiEnergyShareHostileRandRangeUpdate {
    /// No leaf is present, at any depth.
    pub open spec fn is_noop(self) -> bool {
        self.energy_share_hostile_rand_min is None
        && self.energy_share_hostile_rand_max is None
    }

    /// An update with no leaf present changes nothing.
    pub proof fn lemma_noop_merged(self, t: PhysicsTuning)
        requires
            self.is_noop(),
        ensures
            self.merged(t) == t,
    {
    }
}

impl ApiGenomeEnergyShareRangeUpdate {
    /// No leaf is present, at any depth.
    pub open spec fn is_noop(self) -> bool {
        self.genome_energy_share_min is None
        && self.genome_energy_share_max is None
    }

    /// An update with no leaf present changes nothing.
    pub proof fn lemma_noop_merged(self, t: PhysicsTuning)
        requires
            self.is_noop(),
        ensures
            self.merged(t) == t,
    {
    }
}

impl ApiBiteUpdate {
    /// No leaf is present, at any depth.
    pub open spec fn is_noop(self) -> bool {
        self.bite_enabled is None
        && self.bite_size_scale is None
        && (match self.genome_bite_size_range { Some(x) => x.is_noop(), None => true })
    }

    /// An update with no leaf present changes nothing.
    pub proof fn lemma_noop_merged(self, t: PhysicsTuning)
        requires
            self.is_noop(),
        ensures
            self.merged(t) == t,
    {
        if let Some(x) = self.genome_bite_size_range {
            x.lemma_noop_merged(t);
        }
    }
}

impl ApiGenomeBiteSizeRangeUpdate {
    /// No leaf is present, at any depth.
    pub open spec fn is_noop(self) -> bool {
        self.genome_bite_size_min is None
        && self.genome_bite_size_max is None
    }

    /// An update with no leaf present changes nothing.
    pub proof fn lemma_noop_merged(self, t: PhysicsTuning)
        requires
            self.is_noop(),
        ensures
            self.merged(t) == t,
    {
    }
}

impl ApiMaxAgeUpdate {
    /// No leaf is present, at any depth.
    pub open spec fn is_noop(self) -> bool {
        (match self.genome_max_age_range { Some(x) => x.is_noop(), None => true })
        && self.survival_cost_per_tick is None
    }

    /// An update with no leaf present changes nothing.
    pub proof fn lemma_noop_merged(self, t: PhysicsTuning)
        requires
            self.is_noop(),
        ensures
            self.merged(t) == t,
    {
        if let Some(x) = self.genome_max_age_range {
            x.lemma_noop_merged(t);
        }
    }
}

impl ApiGenomeMaxAgeRangeUpdate {
    /// No leaf is present, at any depth.
    pub open spec fn is_noop(self) -> bool {
        self.genome_max_age_min is None
        && self.genome_max_age_max is None
    }

    /// An update with no leaf present changes nothing.
    pub proof fn lemma_noop_merged(self, t: PhysicsTuning)
        requires
            self.is_noop(),
        ensures
            self.merged(t) == t,
    {
    }
}

impl ApiReproductionUpdate {
    /// No leaf is present, at any depth.
    pub open spec fn is_noop(self) -> bool {
        (match self.genome_reproduction_rate_range { Some(x) => x.is_noop(), None => true })
        && (match self.genome_safe_reproduction_points_range { Some(x) => x.is_noop(), None => true })
    }

    /// An update with no leaf present changes nothing.
    pub proof fn lemma_noop_merged(self, t: PhysicsTuning)
        requires
            self.is_noop(),
        ensures
            self.merged(t) == t,
    {
        if let Some(x) = self.genome_reproduction_rate_range {
            x.lemma_noop_merged(t);
        }
        if let Some(x) = self.genome_safe_reproduction_points_range {
            x.lemma_noop_merged(t);
        }
    }
}

impl ApiGenomeReproductionRateRangeUpdate {
    /// No leaf is present, at any depth.
    pub open spec fn is_noop(self) -> bool {
        self.genome_reproduction_rate_min is None
        && self.genome_reproduction_rate_max is None
    }

    /// An update with no leaf present changes nothing.
    pub proof fn lemma_noop_merged(self, t: PhysicsTuning)
        requires
            self.is_noop(),
        ensures
            self.merged(t) == t,
    {
    }
}

impl ApiGenomeSafeReproductionPointsRangeUpdate {
    /// No leaf is present, at any depth.
    pub open spec fn is_noop(self) -> bool {
        self.genome_safe_reproduction_points_min is None
        && self.genome_safe_reproduction_points_max is None
    }

    /// An update with no leaf present changes nothing.
    pub proof fn lemma_noop_merged(self, t: PhysicsTuning)
        requires
            self.is_noop(),
        ensures
            self.merged(t) == t,
    {
    }
}

impl ApiLabelsUpdate {
    /// No leaf is present, at any depth.
    pub open spec fn is_noop(self) -> bool {
        (match self.collision { Some(x) => x.is_noop(), None => true })
        && (match self.break_labels { Some(x) => x.is_noop(), None => true })
        && (match self.age { Some(x) => x.is_noop(), None => true })
        && (match self.energy { Some(x) => x.is_noop(), None => true })
    }

    /// An update with no leaf present changes nothing.
    pub proof fn lemma_noop_merged(self, t: PhysicsTuning)
        requires
            self.is_noop(),
        ensures
            self.merged(t) == t,
    {
        if let Some(x) = self.collision {
            x.lemma_noop_merged(t);
        }
        if let Some(x) = self.break_labels {
            x.lemma_noop_merged(t);
        }
        if let Some(x) = self.age {
            x.lemma_noop_merged(t);
        }
        if let Some(x) = self.energy {
            x.lemma_noop_merged(t);
        }
    }
}

impl ApiCollisionLabelsUpdate {
    /// No leaf is present, at any depth.
    pub open spec fn is_noop(self) -> bool {
        self.show_collision_labels is None
        && self.collision_label_force_min is None
    }

    /// An update with no leaf present changes nothing.
    pub proof fn lemma_noop_merged(self, t: PhysicsTuning)
        requires
            self.is_noop(),
        ensures
            self.merged(t) == t,
    {
    }
}

impl ApiBreakLabelsUpdate {
    /// No leaf is present, at any depth.
    pub open spec fn is_noop(self) -> bool {
        self.show_break_labels is None
        && self.break_label_impulse_min is None
    }

    /// An update with no leaf present changes nothing.
    pub proof fn lemma_noop_merged(self, t: PhysicsTuning)
        requires
            self.is_noop(),
        ensures
            self.merged(t) == t,
    {
    }
}

impl ApiAgeLabelsUpdate {
    /// No leaf is present, at any depth.
    pub open spec fn is_noop(self) -> bool {
        self.show_age_labels is None
        && (match self.age_label_range { Some(x) => x.is_noop(), None => true })
    }

    /// An update with no leaf present changes nothing.
    pub proof fn lemma_noop_merged(self, t: PhysicsTuning)
        requires
            self.is_noop(),
        ensures
            self.merged(t) == t,
    {
        if let Some(x) = self.age_label_range {
            x.lemma_noop_merged(t);
        }
    }
}

impl ApiAgeLabelRangeUpdate {
    /// No leaf is present, at any depth.
    pub open spec fn is_noop(self) -> bool {
        self.age_label_min is None
        && self.age_label_max is None
    }

    /// An update with no leaf present changes nothing.
    pub proof fn lemma_noop_merged(self, t: PhysicsTuning)
        requires
            self.is_noop(),
        ensures
            self.merged(t) == t,
    {
    }
}

impl ApiEnergyLabelsUpdate {
    /// No leaf is present, at any depth.
    pub open spec fn is_noop(self) -> bool {
        self.show_energy_labels is None
        && (match self.energy_label_range { Some(x) => x.is_noop(), None => true })
    }

    /// An update with no leaf present changes nothing.
    pub proof fn lemma_noop_merged(self, t: PhysicsTuning)
        requires
            self.is_noop(),
        ensures
            self.merged(t) == t,
    {
        if let Some(x) = self.energy_label_range {
            x.lemma_noop_merged(t);
        }
    }
}

impl ApiEnergyLabelRangeUpdate {
    /// No leaf is present, at any depth.
    pub open spec fn is_noop(self) -> bool {
        self.energy_label_min is None
        && self.energy_label_max is None
    }

    /// An update with no leaf present changes nothing.
    pub proof fn lemma_noop_merged(self, t: PhysicsTuning)
        requires
            self.is_noop(),
        ensures
            self.merged(t) == t,
    {
    }
}

/// Applying an update with no leaf present, at any depth (every field `None`,
/// or groups that are themselves empty), leaves every field of the tuning
/// record unchanged.
pub proof fn lemma_empty_update_keeps_tuning(u: ApiTuningUpdate, t: PhysicsTuning)
    requires
        u.is_noop(),
    ensures
        u.merged(t) == t,
{
    u.lemma_noop_merged(t);
}

/// Converting a tuning record to its hierarchical form and back gives the
/// same record, field for field; and the other way round.
pub proof fn lemma_api_round_trip(t: PhysicsTuning, a: ApiTuning)
    ensures
        physics_of(api_of(t)) == t,
        api_of(physics_of(a)) == a,
{
}

} // verus!
