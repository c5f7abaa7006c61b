use live_whirl::tuning::{
    ApiAgeLabelRangeUpdate, ApiAgeLabelsUpdate, ApiCollisionLabelsUpdate, ApiEnergyLabelRangeUpdate,
    ApiEnergyLabelsUpdate, ApiLabelsUpdate, ApiStickRangeUpdate, ApiStickinessUpdate, ApiTuning,
    ApiTuningUpdate, PhysicsTuning,
};

// Fixed-point values are in millionths.
fn sample_physics() -> PhysicsTuning {
    PhysicsTuning {
        rel_vel_min: 150_000,
        rel_vel_max: 360_000_000,
        break_force_threshold: 360_000_000,
        energy_transfer_enabled: true,
        energy_share_diff_threshold: 100,
        energy_share_friendly_rate: 500_000,
        energy_share_parent_not_friendly_child_friendly_rate: 750_000,
        energy_share_parent_friendly_child_not_friendly_rate: 250_000,
        energy_share_hostile_rand_min: 500_000,
        energy_share_hostile_rand_max: 900_000,
        bite_enabled: true,
        bite_size_scale: 1_000_000,
        genome_bite_size_min: 0,
        genome_bite_size_max: 400,
        genome_energy_share_min: 250_000,
        genome_energy_share_max: 750_000,
        genome_friendly_distance_min: 150_000,
        genome_friendly_distance_max: 1_000_000,
        genome_friendly_scent_range: 1_000_000,
        genome_max_age_min: 90,
        genome_max_age_max: 120,
        genome_reproduction_rate_min: 11_875,
        genome_reproduction_rate_max: 12_500,
        genome_safe_reproduction_points_min: 0,
        genome_safe_reproduction_points_max: 1000,
        survival_cost_per_tick: 1,
        show_collision_labels: false,
        collision_label_force_min: 2_000_000,
        show_break_labels: false,
        break_label_impulse_min: 20_000_000,
        show_age_labels: false,
        age_label_min: 0,
        age_label_max: u64::MAX,
        show_energy_labels: false,
        energy_label_min: 0,
        energy_label_max: u64::MAX,
    }
}

#[test]
fn conversion_roundtrip() {
    let internal = sample_physics();
    let api: ApiTuning = (&internal).into();
    let back: PhysicsTuning = api.into();
    assert_eq!(internal.rel_vel_min, back.rel_vel_min);
    assert_eq!(internal.rel_vel_max, back.rel_vel_max);
    assert_eq!(internal.break_force_threshold, back.break_force_threshold);
    assert_eq!(internal.energy_transfer_enabled, back.energy_transfer_enabled);
    assert_eq!(internal.energy_share_diff_threshold, back.energy_share_diff_threshold);
    assert_eq!(internal.energy_share_friendly_rate, back.energy_share_friendly_rate);
    assert_eq!(internal.energy_share_parent_not_friendly_child_friendly_rate, back.energy_share_parent_not_friendly_child_friendly_rate);
    assert_eq!(internal.energy_share_parent_friendly_child_not_friendly_rate, back.energy_share_parent_friendly_child_not_friendly_rate);
    assert_eq!(internal.energy_share_hostile_rand_min, back.energy_share_hostile_rand_min);
    assert_eq!(internal.energy_share_hostile_rand_max, back.energy_share_hostile_rand_max);
    assert_eq!(internal.bite_enabled, back.bite_enabled);
    assert_eq!(internal.bite_size_scale, back.bite_size_scale);
    assert_eq!(internal.genome_bite_size_min, back.genome_bite_size_min);
    assert_eq!(internal.genome_bite_size_max, back.genome_bite_size_max);
}

#[test]
fn partial_update_apply() {
    let mut internal = PhysicsTuning { rel_vel_min: 100_000, rel_vel_max: 10_000_000, ..Default::default() };
    let upd = ApiTuningUpdate {
        stickiness: Some(ApiStickinessUpdate {
            stick_range: Some(ApiStickRangeUpdate { rel_vel_min: Some(1_230_000), rel_vel_max: None }),
            break_threshold: Some(42_000_000),
        }),
        labels: Some(ApiLabelsUpdate {
            collision: Some(ApiCollisionLabelsUpdate { show_collision_labels: Some(true), collision_label_force_min: Some(3_300_000) }),
            break_labels: None,
            age: Some(ApiAgeLabelsUpdate { show_age_labels: Some(true), age_label_range: Some(ApiAgeLabelRangeUpdate { age_label_min: Some(5_000_000), age_label_max: None }) }),
            energy: Some(ApiEnergyLabelsUpdate { show_energy_labels: Some(true), energy_label_range: Some(ApiEnergyLabelRangeUpdate { energy_label_min: None, energy_label_max: Some(900_000_000) }) }),
        }),
        ..Default::default()
    };
    upd.apply_to(&mut internal);
    assert_eq!(internal.rel_vel_min, 1_230_000);
    assert_eq!(internal.rel_vel_max, 10_000_000); // unchanged
    assert_eq!(internal.break_force_threshold, 42_000_000);
    assert!(internal.show_collision_labels);
    assert_eq!(internal.collision_label_force_min, 3_300_000);
    assert!(internal.show_age_labels);
    assert_eq!(internal.age_label_min, 5_000_000);
    assert_eq!(internal.energy_label_max, 900_000_000);
    assert!(internal.show_energy_labels);
}

#[test]
fn empty_update_leaves_tuning_unchanged() {
    let mut t = sample_physics();
    ApiTuningUpdate::default().apply_to(&mut t);
    assert_eq!(t, sample_physics());
}

#[test]
fn full_round_trip_keeps_every_field() {
    let t = sample_physics();
    let back = PhysicsTuning::from(ApiTuning::from(&t));
    assert_eq!(back, t);
    let api = ApiTuning::from(&t);
    assert_eq!(api.stickiness.stick_range.rel_vel_min, 150_000);
    assert_eq!(api.labels.energy.energy_label_range.energy_label_max, u64::MAX);
    assert_eq!(api.max_age.genome_max_age_range.genome_max_age_max, 120);
}

#[test]
fn patch_merges_into_snapshot_and_reports_it() {
    let mut snapshot = sample_physics();
    let upd = ApiTuningUpdate {
        stickiness: Some(ApiStickinessUpdate {
            stick_range: Some(ApiStickRangeUpdate { rel_vel_min: Some(1_110_000), rel_vel_max: None }),
            break_threshold: None,
        }),
        labels: Some(ApiLabelsUpdate {
            collision: None,
            break_labels: None,
            age: None,
            energy: Some(ApiEnergyLabelsUpdate { show_energy_labels: Some(true), energy_label_range: None }),
        }),
        ..Default::default()
    };
    let api = live_whirl::tuning::patch_tuning(&mut snapshot, upd);
    assert_eq!(snapshot.rel_vel_min, 1_110_000);
    assert!(snapshot.show_energy_labels);
    assert_eq!(snapshot.rel_vel_max, 360_000_000);
    assert_eq!(api.stickiness.stick_range.rel_vel_min, 1_110_000);
    assert!(api.labels.energy.show_energy_labels);
}

#[test]
fn drain_keeps_only_the_latest_snapshot() {
    let mut t = sample_physics();
    assert!(!live_whirl::tuning::apply_tuning_updates_system(&mut t, &vec![]));
    assert_eq!(t, sample_physics());
    let a = PhysicsTuning { survival_cost_per_tick: 5, ..sample_physics() };
    let b = PhysicsTuning { survival_cost_per_tick: 7, ..sample_physics() };
    assert!(live_whirl::tuning::apply_tuning_updates_system(&mut t, &vec![a, b]));
    assert_eq!(t.survival_cost_per_tick, 7);
}

#[test]
fn update_with_empty_groups_leaves_tuning_unchanged() {
    let mut t = sample_physics();
    let upd = ApiTuningUpdate {
        stickiness: Some(ApiStickinessUpdate { stick_range: Some(ApiStickRangeUpdate::default()), break_threshold: None }),
        labels: Some(ApiLabelsUpdate::default()),
        ..Default::default()
    };
    upd.apply_to(&mut t);
    assert_eq!(t, sample_physics());
}
