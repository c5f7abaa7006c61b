use live_whirl::chance::{draw_noise, random_ball};
use live_whirl::energy::shared_life_points;
use live_whirl::genome::{mutate, share_total_roughly, Ball, Genome, Hsla, MutationNoise, MAX_LIFE_POINTS};
use live_whirl::tuning::PhysicsTuning;
use live_whirl::vector::Vector;
use live_whirl::contact::{ContactEvent, Stick};
use live_whirl::reproduction::first_free_probe;
use live_whirl::world::{Joint, TickInput, World};
use rand::rngs::StdRng;
use rand::SeedableRng;

fn tuning() -> PhysicsTuning {
    PhysicsTuning {
        rel_vel_min: 150_000,
        rel_vel_max: 360_000_000,
        break_force_threshold: 360_000_000,
        energy_transfer_enabled: true,
        energy_share_diff_threshold: 100,
        energy_share_friendly_rate: 500_000,
        energy_share_parent_not_friendly_child_friendly_rate: 750_000,
        energy_share_parent_friendly_child_not_friendly_rate: 250_000,
        energy_share_hostile_rand_min: 500_000,
        energy_share_hostile_rand_max: 900_000,
        bite_enabled: true,
        bite_size_scale: 1_000_000,
        genome_bite_size_min: 0,
        genome_bite_size_max: 400,
        genome_energy_share_min: 250_000,
        genome_energy_share_max: 750_000,
        genome_friendly_distance_min: 150_000,
        genome_friendly_distance_max: 1_000_000,
        genome_friendly_scent_range: 1_000_000,
        genome_max_age_min: 90,
        genome_max_age_max: 120,
        genome_reproduction_rate_min: 11_875,
        genome_reproduction_rate_max: 12_500,
        genome_safe_reproduction_points_min: 0,
        genome_safe_reproduction_points_max: 1000,
        survival_cost_per_tick: 1,
        ..Default::default()
    }
}

fn ball(life_points: u32, scent_x: i32, friendly_distance: u32) -> Ball {
    Ball {
        age: 0,
        life_points,
        genome: Genome {
            max_age: 100,
            relative_reproduction_rate: 12_000,
            bite_size: 100,
            life_points_safe_to_reproduce: 20,
            energy_share_with_children: 500_000,
            friendly_scent: Vector::new(scent_x, 0),
            friendly_distance,
        },
    }
}

fn zero_noise() -> MutationNoise {
    MutationNoise {
        max_age: 0,
        relative_reproduction_rate: 0,
        bite_size: 0,
        life_points_safe_to_reproduce: 0,
        energy_share_with_children: 0,
        friendly_scent_x: 0,
        friendly_scent_y: 0,
        friendly_distance: 0,
    }
}

fn event(a: u64, b: u64, force: u64, va: i32, vb: i32) -> ContactEvent {
    ContactEvent {
        a,
        b,
        force,
        velocity_a: Vector::new(va, 0),
        velocity_b: Vector::new(vb, 0),
        touching: true,
    }
}

#[test]
fn share_splits_pool_at_rate() {
    assert_eq!(share_total_roughly(1000, 1100, 500_000), (1050, 1050));
    assert_eq!(share_total_roughly(15, 0, 500_000), (8, 7));
    assert_eq!(share_total_roughly(1000, 0, 250_000), (750, 250));
    assert_eq!(share_total_roughly(u32::MAX, u32::MAX, 0), (u32::MAX, 0));
}

#[test]
fn mutation_clamps_to_tuning_bounds() {
    let t = tuning();
    let parent = Genome { max_age: 120, ..ball(500, 0, 200_000).genome };
    let noise = MutationNoise { max_age: 3, ..zero_noise() };
    assert_eq!(mutate(&parent, &t, &noise).max_age, 120);
    let parent = Genome { max_age: 92, ..parent };
    let noise = MutationNoise { max_age: -3, bite_size: 10, friendly_scent_x: 100_000, ..zero_noise() };
    let child = mutate(&parent, &t, &noise);
    assert_eq!(child.max_age, 90);
    assert_eq!(child.bite_size, 110);
    assert_eq!(child.friendly_scent.x, 100_000);
    let near_edge = Genome { friendly_scent: Vector::new(950_000, -950_000), ..parent };
    let noise = MutationNoise { friendly_scent_x: 100_000, friendly_scent_y: -100_000, ..zero_noise() };
    let child = mutate(&near_edge, &t, &noise);
    assert_eq!(child.friendly_scent, Vector::new(1_000_000, -1_000_000));
}

#[test]
fn friendliness_is_one_sided() {
    let a = ball(100, 0, 200_000);
    let b = ball(100, 150_000, 100_000);
    assert!(a.is_friendly_with(b));
    assert!(!b.is_friendly_with(a));
    let c = ball(100, 200_000, 100_000);
    assert!(!a.is_friendly_with(c));
}

#[test]
fn aging_removes_at_the_floor() {
    let t = tuning();
    let mut w = World::new();
    let dying = w.spawn(ball(9, 0, 100_000)).unwrap();
    let living = w.spawn(ball(10, 0, 100_000)).unwrap();
    let dead = w.age_balls(&t);
    assert_eq!(dead, vec![dying]);
    assert_eq!(w.agents.len(), 1);
    assert_eq!(w.agents[0].id, living);
    assert_eq!(w.agents[0].ball.life_points, 10);
    assert_eq!(w.agents[0].ball.age, 1);
}

#[test]
fn aging_past_max_age_costs_life_points() {
    let t = PhysicsTuning { survival_cost_per_tick: 4, ..tuning() };
    let mut w = World::new();
    let old = Ball { age: 100, ..ball(20, 0, 100_000) };
    w.spawn(old).unwrap();
    w.age_balls(&t);
    assert_eq!(w.agents[0].ball.age, 101);
    assert_eq!(w.agents[0].ball.life_points, 16);
    let saturated = Ball { age: u32::MAX, ..ball(2000, 0, 100_000) };
    let mut w = World::new();
    w.spawn(saturated).unwrap();
    w.age_balls(&t);
    assert_eq!(w.agents[0].ball.age, u32::MAX);
    assert_eq!(w.agents[0].ball.life_points, 1996);
}

#[test]
fn removing_an_agent_removes_its_joints() {
    let t = tuning();
    let mut w = World::new();
    let a = w.spawn(ball(500, 0, 100_000)).unwrap();
    let b = w.spawn(ball(9, 500_000, 100_000)).unwrap();
    let c = w.spawn(ball(500, 900_000, 100_000)).unwrap();
    let o = w.resolve_contact(&event(a, b, 0, 1_000_000, 0), &t);
    assert_eq!(o.stick, Stick::Created);
    let o = w.resolve_contact(&event(a, c, 0, 1_000_000, 0), &t);
    assert_eq!(o.stick, Stick::Created);
    assert_eq!(w.joints.len(), 2);
    w.age_balls(&t);
    assert_eq!(w.joints.len(), 1);
    assert_eq!(w.joints[0], Joint { parent: a, child: c, born: 0 });
}

#[test]
fn faster_agent_bites_slower() {
    let t = tuning();
    let mut w = World::new();
    let a = w.spawn(ball(500, 0, 100_000)).unwrap();
    let b = w.spawn(ball(500, 800_000, 100_000)).unwrap();
    let o = w.resolve_contact(&event(a, b, 400_000_000, 5_000_000, 2_000_000), &t);
    assert_eq!(o.biter, Some(a));
    assert_eq!(w.agents[0].ball.life_points, 600);
    assert_eq!(w.agents[1].ball.life_points, 400);
    let o = w.resolve_contact(&event(a, b, 400_000_000, 2_000_000, 5_000_000), &t);
    assert_eq!(o.biter, Some(b));
    assert_eq!(w.agents[0].ball.life_points, 500);
    assert_eq!(w.agents[1].ball.life_points, 500);
}

#[test]
fn bite_floors_and_saturates() {
    let t = tuning();
    let mut w = World::new();
    let a = w.spawn(ball(u32::MAX - 10, 0, 100_000)).unwrap();
    let b = w.spawn(ball(50, 800_000, 100_000)).unwrap();
    w.resolve_contact(&event(a, b, 400_000_000, 5_000_000, 2_000_000), &t);
    assert_eq!(w.agents[0].ball.life_points, u32::MAX);
    assert_eq!(w.agents[1].ball.life_points, 0);
}

#[test]
fn no_bite_between_friends_or_below_threshold() {
    let t = tuning();
    let mut w = World::new();
    let a = w.spawn(ball(500, 0, 100_000)).unwrap();
    let b = w.spawn(ball(500, 50_000, 100_000)).unwrap();
    let o = w.resolve_contact(&event(a, b, 400_000_000, 5_000_000, 2_000_000), &t);
    assert_eq!(o.biter, None);
    let c = w.spawn(ball(500, 800_000, 100_000)).unwrap();
    let o = w.resolve_contact(&event(a, c, 360_000_000, 5_000_000, 2_000_000), &t);
    assert_eq!(o.biter, None);
    let o = w.resolve_contact(&event(a, c, 400_000_000, 3_000_000, -3_000_000), &t);
    assert_eq!(o.biter, None);
    assert_eq!(w.agents[0].ball.life_points, 500);
}

#[test]
fn contact_gates_and_caps() {
    let t = tuning();
    let mut w = World::new();
    let a = w.spawn(ball(500, 0, 100_000)).unwrap();
    let b = w.spawn(ball(500, 800_000, 100_000)).unwrap();
    let slow = w.resolve_contact(&event(a, b, 0, 100_000, 0), &t);
    assert_eq!(slow.stick, Stick::OutOfBand);
    let apart = ContactEvent { touching: false, ..event(a, b, 0, 1_000_000, 0) };
    assert_eq!(w.resolve_contact(&apart, &t).stick, Stick::Skipped);
    assert_eq!(w.resolve_contact(&event(a, 99, 0, 1_000_000, 0), &t).stick, Stick::Skipped);
    assert_eq!(w.resolve_contact(&event(a, b, 0, 1_000_000, 0), &t).stick, Stick::Created);
    assert_eq!(w.resolve_contact(&event(b, a, 0, 1_000_000, 0), &t).stick, Stick::Created);
    assert_eq!(w.resolve_contact(&event(a, b, 0, 1_000_000, 0), &t).stick, Stick::Capped);
    assert_eq!(w.count_pair_joints(a, b), 2);
    assert_eq!(w.stats.created, 2);
    let mut others = Vec::new();
    for k in 0..10 {
        others.push(w.spawn(ball(500, 100_000 * k, 100_000)).unwrap());
    }
    for k in 0..9 {
        assert_eq!(w.resolve_contact(&event(a, others[k], 0, 1_000_000, 0), &t).stick, Stick::Created);
    }
    assert_eq!(w.count_joints(a), 11);
    assert!(w.has_more_than_max_joints(a));
    assert_eq!(w.resolve_contact(&event(a, others[9], 0, 1_000_000, 0), &t).stick, Stick::Capped);
}

#[test]
fn reproduction_needs_enough_life_points() {
    let t = tuning();
    let mut w = World::new();
    let poor = Ball { genome: Genome { life_points_safe_to_reproduce: 20, ..ball(15, 0, 100_000).genome }, ..ball(15, 0, 100_000) };
    w.spawn(poor).unwrap();
    for u in [0u32, 1, 5_000, 999_999] {
        assert_eq!(w.reproduce_one(0, u, true, &zero_noise(), &t), None);
    }
    assert_eq!(w.agents.len(), 1);
    assert_eq!(w.agents[0].ball.life_points, 15);
}

#[test]
fn reproduction_splits_energy_and_mutates() {
    let t = tuning();
    let mut w = World::new();
    let p = w.spawn(ball(1001, 0, 200_000)).unwrap();
    assert_eq!(w.reproduce_one(0, 12_000, true, &zero_noise(), &t), None);
    assert_eq!(w.reproduce_one(0, 0, false, &zero_noise(), &t), None);
    let noise = MutationNoise { bite_size: -10, ..zero_noise() };
    let child = w.reproduce_one(0, 11_999, true, &noise, &t).unwrap();
    assert_eq!(child, p + 1);
    assert_eq!(w.agents[0].ball.life_points, 501);
    assert_eq!(w.agents[1].ball.life_points, 500);
    assert_eq!(w.agents[1].ball.age, 0);
    assert_eq!(w.agents[1].ball.genome.bite_size, 90);
    assert_eq!(w.agents[1].ball.genome.max_age, 100);
}

#[test]
fn congested_parent_does_not_reproduce() {
    let t = tuning();
    let mut w = World::new();
    let a = w.spawn(ball(1000, 0, 100_000)).unwrap();
    for k in 0..5 {
        let o = w.spawn(ball(500, 200_000 * (k + 1), 100_000)).unwrap();
        w.resolve_contact(&event(a, o, 0, 1_000_000, 0), &t);
    }
    assert!(w.has_too_many_adjacent_joints(a));
    assert_eq!(w.reproduce_one(0, 0, true, &zero_noise(), &t), None);
}

#[test]
fn probes_pick_the_first_free_angle() {
    assert_eq!(first_free_probe(&vec![true, true, false, false]), Some(2));
    assert_eq!(first_free_probe(&vec![false]), Some(0));
    assert_eq!(first_free_probe(&vec![true; 5]), None);
    assert_eq!(first_free_probe(&vec![true, true, true, true, true, false]), None);
    assert_eq!(first_free_probe(&vec![]), None);
}

#[test]
fn friendly_sharing_balances_pool() {
    let t = tuning();
    let p = ball(1000, 0, 200_000);
    let c = ball(1100, 100_000, 200_000);
    assert_eq!(shared_life_points(&p, &c, &t, 0), (1050, 1050));
    let near = ball(1050, 100_000, 200_000);
    assert_eq!(shared_life_points(&p, &near, &t, 0), (1000, 1050));
    let off = PhysicsTuning { energy_transfer_enabled: false, ..t };
    assert_eq!(shared_life_points(&p, &c, &off, 0), (1000, 1100));
}

#[test]
fn hostile_and_mixed_sharing_rates() {
    let t = tuning();
    let rich = ball(1800, 0, 100_000);
    let poor = ball(200, 900_000, 100_000);
    // richer hostile parent keeps a fraction in [0.5, 0.9): draw 0 gives 0.5
    assert_eq!(shared_life_points(&rich, &poor, &t, 0), (1000, 1000));
    assert_eq!(shared_life_points(&rich, &poor, &t, 500_000), (1400, 600));
    // poorer hostile parent keeps a fraction in [0.1, 0.5)
    assert_eq!(shared_life_points(&poor, &rich, &t, 0), (200, 1800));
    // even split when the difference does not exceed the threshold
    let close = ball(250, -900_000, 100_000);
    assert_eq!(shared_life_points(&poor, &close, &t, 0), (225, 225));
    // only the child is friendly: the non-friendly parent keeps 0.75
    let wide = ball(1000, 900_000, 2_000_000);
    let narrow = ball(1000, 0, 100_000);
    assert_eq!(shared_life_points(&narrow, &wide, &t, 0), (1500, 500));
    // only the parent is friendly: it keeps 0.25
    assert_eq!(shared_life_points(&wide, &narrow, &t, 0), (500, 1500));
}

#[test]
fn sharing_pass_runs_over_joints() {
    let t = tuning();
    let mut w = World::new();
    let a = w.spawn(ball(1000, 0, 200_000)).unwrap();
    let b = w.spawn(ball(1100, 100_000, 200_000)).unwrap();
    w.resolve_contact(&event(a, b, 0, 1_000_000, 0), &t);
    w.share_energy_with_draws(&t, &vec![]);
    assert_eq!(w.agents[0].ball.life_points, 1050);
    assert_eq!(w.agents[1].ball.life_points, 1050);
    let mut rng = StdRng::seed_from_u64(42);
    w.share_energy(&t, &mut rng);
    assert_eq!(w.agents[0].ball.life_points + w.agents[1].ball.life_points, 2100);
}

#[test]
fn overstressed_joints_break() {
    let t = tuning();
    let mut w = World::new();
    let a = w.spawn(ball(500, 0, 100_000)).unwrap();
    let b = w.spawn(ball(500, 800_000, 100_000)).unwrap();
    let c = w.spawn(ball(500, 900_000, 100_000)).unwrap();
    w.resolve_contact(&event(a, b, 0, 1_000_000, 0), &t);
    w.resolve_contact(&event(a, c, 0, 1_000_000, 0), &t);
    let imps = vec![Some(Vector::new(300_000_000, 300_000_000)), Some(Vector::new(0, 360_000_000))];
    assert_eq!(w.break_joints(&imps, &t), 1);
    assert_eq!(w.joints.len(), 1);
    assert_eq!(w.joints[0].child, c);
    assert_eq!(w.stats.broke_1, 1);
    assert_eq!(w.stats.broke_30, 1);
    assert_eq!(w.break_joints(&vec![None], &t), 0);
    assert_eq!(w.joints.len(), 1);
}

#[test]
fn random_draws_stay_in_range() {
    let t = tuning();
    let mut rng = StdRng::seed_from_u64(42);
    for _ in 0..50 {
        let b = random_ball(&t, &mut rng).unwrap();
        assert_eq!(b.life_points, MAX_LIFE_POINTS);
        assert!(b.genome.max_age >= 90 && b.genome.max_age <= 120);
        assert!(b.genome.friendly_scent.x.abs() <= 1_000_000);
        let n = draw_noise(&mut rng);
        assert!(n.max_age.abs() <= 3 && n.bite_size.abs() <= 10);
    }
    let ages: Vec<u32> = (0..50).map(|_| random_ball(&t, &mut rng).unwrap().genome.max_age).collect();
    assert!(ages.iter().any(|a| *a != ages[0]));
    let fixed = PhysicsTuning { genome_max_age_min: 100, genome_max_age_max: 100, ..t };
    assert_eq!(random_ball(&fixed, &mut rng).unwrap().genome.max_age, 100);
    let empty = PhysicsTuning { genome_max_age_min: 121, ..t };
    assert!(random_ball(&empty, &mut rng).is_none());
}

#[test]
fn reproduction_pass_with_rng() {
    let t = tuning();
    let mut w = World::new();
    let eager = Ball { genome: Genome { relative_reproduction_rate: 1_000_000, ..ball(1000, 0, 100_000).genome }, ..ball(1000, 0, 100_000) };
    w.spawn(eager).unwrap();
    w.spawn(ball(15, 0, 100_000)).unwrap();
    let mut rng = StdRng::seed_from_u64(7);
    let births = w.reproduce_balls(&vec![true, true], &t, &mut rng);
    assert_eq!(births.len(), 1);
    assert_eq!(births[0].parent, 0);
    assert_eq!(births[0].child, 2);
    assert_eq!(w.agents.len(), 3);
    assert_eq!(w.agents[0].ball.life_points + w.agents[2].ball.life_points, 1000);
}

#[test]
fn tick_runs_steps_in_order() {
    let mut t = tuning();
    let mut w = World::new();
    let a = w.spawn(ball(500, 0, 100_000)).unwrap();
    let b = w.spawn(ball(9, 800_000, 100_000)).unwrap();
    let mut rng = StdRng::seed_from_u64(1);
    let quiet = TickInput { events: vec![], impulses: vec![], aging_due: false, reproduction_due: false, placed: vec![] };
    let report = w.tick(&mut t, &vec![], &quiet, &mut rng);
    assert!(!report.tuning_replaced);
    assert_eq!(w.frame, 1);
    assert_eq!(w.agents.len(), 2);
    let cheaper = PhysicsTuning { survival_cost_per_tick: 3, ..tuning() };
    let input = TickInput {
        events: vec![event(a, b, 400_000_000, 5_000_000, 2_000_000)],
        impulses: vec![],
        aging_due: true,
        reproduction_due: false,
        placed: vec![],
    };
    let report = w.tick(&mut t, &vec![tuning(), cheaper], &input, &mut rng);
    assert!(report.tuning_replaced);
    assert_eq!(t.survival_cost_per_tick, 3);
    assert_eq!(report.contacts[0].biter, Some(a));
    assert_eq!(report.contacts[0].stick, Stick::Created);
    assert_eq!(report.dead, vec![b]);
    assert_eq!(w.joints.len(), 0);
    assert_eq!(w.agents.len(), 1);
    assert_eq!(w.agents[0].ball.life_points, 600);
    assert_eq!(w.frame, 2);
}

#[test]
fn display_color_follows_scent_and_energy() {
    let full = Ball::default();
    let c = full.get_color();
    // scent (0, 0): x maps to 60, y maps to 150, averaged to 105 degrees
    assert_eq!(c.hue, 105_000_000);
    assert_eq!(c.saturation, 1_000_000);
    assert_eq!(c.lightness, 500_000);
    let weak = Ball { life_points: 0, genome: Genome { friendly_scent: Vector::new(1_000_000, -1_000_000), ..full.genome }, ..full };
    let c = weak.get_color();
    assert_eq!(c.hue, 180_000_000);
    assert_eq!(c.saturation, 100_000);
    let mid = Ball { life_points: 51, ..full };
    assert_eq!(mid.get_color().saturation, 598_533);
    let base = Hsla { hue: 0, saturation: 0, lightness: 250_000, alpha: 400_000 };
    let t = weak.transform_color(base);
    assert_eq!(t, Hsla { hue: 180_000_000, saturation: 100_000, lightness: 250_000, alpha: 400_000 });
}

#[test]
fn reproduction_pass_skips_poor_parents_and_clamps_children() {
    let t = tuning();
    let mut w = World::new();
    let eager = |lp: u32| Ball {
        genome: Genome { relative_reproduction_rate: 1_000_000, max_age: 120, life_points_safe_to_reproduce: 20, ..ball(lp, 0, 200_000).genome },
        ..ball(lp, 0, 200_000)
    };
    let poor = w.spawn(eager(15)).unwrap();
    let rich = w.spawn(eager(1000)).unwrap();
    let mut rng = StdRng::seed_from_u64(3);
    for _ in 0..5 {
        let births = w.reproduce_balls(&vec![true, true], &t, &mut rng);
        assert!(births.iter().all(|b| b.parent != poor));
    }
    assert_eq!(w.agents[0].id, poor);
    assert_eq!(w.agents[0].ball.life_points, 15);
    assert_eq!(w.agents[1].id, rich);
    for a in &w.agents[2..] {
        assert!(a.ball.genome.max_age >= 90 && a.ball.genome.max_age <= 120);
    }
    assert!(w.agents.len() > 2);
}

#[test]
fn richer_hostile_end_keeps_more_on_small_pools() {
    let t = PhysicsTuning { energy_share_diff_threshold: 0, ..tuning() };
    let rich = ball(3, 0, 100_000);
    let poor = ball(0, 900_000, 100_000);
    // draw 0.25 of the way through [0.5, 0.9) gives a kept fraction of 0.6
    assert_eq!(shared_life_points(&rich, &poor, &t, 250_000), (2, 1));
    // a poorer parent keeps below one half; the richer child takes the remainder
    assert_eq!(shared_life_points(&poor, &rich, &t, 999_999), (1, 2));
}
