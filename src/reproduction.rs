//! Reproduction: the eligibility gate, placement, the energy handed to the
//! child, and the mutated genome.

use vstd::prelude::*;
use crate::chance::{draw_noise, draw_unit};
use crate::genome::{lemma_mutated_within, Ball, MutationNoise, genome_within, lower_part, mutate, mutated, share_total_roughly};
use crate::tuning::PhysicsTuning;
use crate::vector::UNIT;
use crate::world::{Agent, World, WorldView, at_or, genomes_within, has_id, joint_count};
use rand::rngs::StdRng;

verus! {

/// An agent holding this many joints does not reproduce.
pub const ADJACENT_JOINTS_LIMIT: u64 = 5;

/// Placement probes tried around a parent before reproduction gives up.
pub const PROBE_COUNT: usize = 5;

/// A child born in a reproduction pass.
#[derive(Clone, Copy, Debug, PartialEq, Eq)]
pub struct Birth {
    pub parent: u64,
    pub child: u64,
}

/// A parent may reproduce: it holds enough life points, the draw `u` falls
/// under its reproduction rate, and it is not congested with joints.
pub open spec fn may_reproduce(b: Ball, joints_held: nat, u: u32) -> bool {
    &&& b.life_points >= b.genome.life_points_safe_to_reproduce
    &&& u < b.genome.relative_reproduction_rate
    &&& joints_held < ADJACENT_JOINTS_LIMIT
}

/// The world and the new child's id after agent `i` tries to reproduce with
/// draw `u`, placement result `placed` and mutation `noise`. The parent keeps
/// the rest of its life points; the child receives `floor(lp * share)`.
pub open spec fn reproduce_step(v: WorldView, i: int, u: u32, placed: bool, noise: MutationNoise, t: PhysicsTuning) -> (WorldView, Option<u64>) {
    let a = v.agents[i];
    let b = a.ball;
    if !(placed && may_reproduce(b, joint_count(v.joints, a.id), u) && v.next_id < u64::MAX) {
        (v, None)
    } else {
        let lp = b.life_points as int;
        let give = lower_part(lp, crate::energy::capped(b.genome.energy_share_with_children as int));
        let parent = Agent { id: a.id, ball: Ball { life_points: (lp - give) as u32, ..b } };
        let child = Agent {
            id: v.next_id,
            ball: Ball { age: 0, life_points: give as u32, genome: mutated(b.genome, t, noise) },
        };
        (
            WorldView {
                agents: v.agents.update(i, parent).push(child),
                next_id: (v.next_id + 1) as u64,
                ..v
            },
            Some(v.next_id),
        )
    }
}

/// Noise of zero on every trait.
pub open spec fn no_noise() -> MutationNoise {
    MutationNoise {
        max_age: 0,
        relative_reproduction_rate: 0,
        bite_size: 0,
        life_points_safe_to_reproduce: 0,
        energy_share_with_children: 0,
        friendly_scent_x: 0,
        friendly_scent_y: 0,
        friendly_distance: 0,
    }
}

/// The world and births after agents `0 .. n` each try to reproduce in order,
/// agent `i` with the `i`-th draw, placement and noise (past the end of a
/// sequence: draw zero, no placement, no noise).
pub open spec fn reproduce_fold(
    v: WorldView,
    n: nat,
    draws: Seq<u32>,
    placed: Seq<bool>,
    noises: Seq<MutationNoise>,
    t: PhysicsTuning,
) -> (WorldView, Seq<Birth>)
    decreases n,
{
    if n == 0 {
        (v, Seq::empty())
    } else {
        let i = n - 1;
        let prev = reproduce_fold(v, (n - 1) as nat, draws, placed, noises, t);
        let step = reproduce_step(prev.0, i, at_or(draws, i, 0), at_or(placed, i, false), at_or(noises, i, no_noise()), t);
        match step.1 {
            Some(c) => (step.0, prev.1.push(Birth { parent: prev.0.agents[i].id, child: c })),
            None => (step.0, prev.1),
        }
    }
}

/// An agent holding fewer life points than its genome's safe threshold never
/// reproduces, whatever the draw, placement and noise.
pub proof fn lemma_reproduction_gate(v: WorldView, i: int, u: u32, placed: bool, noise: MutationNoise, t: PhysicsTuning)
    requires
        0 <= i < v.agents.len(),
        v.agents[i].ball.life_points < v.agents[i].ball.genome.life_points_safe_to_reproduce,
    ensures
        reproduce_step(v, i, u, placed, noise, t) == (v, None::<u64>),
{
}

/// Over a reproduction pass of agents `0 .. n`: the agents present at the
/// start keep their positions, ids and genomes, those not yet reached are
/// unchanged, and an agent below its safe threshold is unchanged. Each birth's
/// child follows them in order, aged zero, with its parent's genome mutated by
/// that parent's noise; the parent held at least its safe threshold.
pub proof fn lemma_reproduce_fold(
    v: WorldView,
    n: nat,
    draws: Seq<u32>,
    placed: Seq<bool>,
    noises: Seq<MutationNoise>,
    t: PhysicsTuning,
)
    requires
        n <= v.agents.len(),
    ensures
        ({
            let (w, births) = reproduce_fold(v, n, draws, placed, noises, t);
            &&& w.agents.len() == v.agents.len() + births.len()
            &&& forall|k: int| 0 <= k < v.agents.len() ==> (#[trigger] w.agents[k]).id == v.agents[k].id
                && w.agents[k].ball.genome == v.agents[k].ball.genome
            &&& forall|k: int| n <= k < v.agents.len() ==> #[trigger] w.agents[k] == v.agents[k]
            &&& forall|k: int|
                0 <= k < v.agents.len() && v.agents[k].ball.life_points
                    < v.agents[k].ball.genome.life_points_safe_to_reproduce ==> #[trigger] w.agents[k] == v.agents[k]
            &&& forall|j: int|
                0 <= j < births.len() ==> {
                    let c = #[trigger] w.agents[v.agents.len() + j];
                    &&& c.id == births[j].child
                    &&& c.ball.age == 0
                    &&& exists|k: int|
                        0 <= k < n && births[j].parent == v.agents[k].id && v.agents[k].ball.life_points
                            >= v.agents[k].ball.genome.life_points_safe_to_reproduce && c.ball.genome == mutated(
                            v.agents[k].ball.genome,
                            t,
                            at_or(noises, k, no_noise()),
                        )
                }
        }),
    decreases n,
{
    if n > 0 {
        let i = n - 1;
        lemma_reproduce_fold(v, (n - 1) as nat, draws, placed, noises, t);
        let prev = reproduce_fold(v, (n - 1) as nat, draws, placed, noises, t);
        let (w, births) = reproduce_fold(v, n, draws, placed, noises, t);
        let len = v.agents.len();
        assert(prev.0.agents[i as int] == v.agents[i as int]);
        assert forall|j: int| 0 <= j < births.len() implies {
            let c = #[trigger] w.agents[len + j];
            &&& c.id == births[j].child
            &&& c.ball.age == 0
            &&& exists|k: int|
                0 <= k < n && births[j].parent == v.agents[k].id && v.agents[k].ball.life_points
                    >= v.agents[k].ball.genome.life_points_safe_to_reproduce && c.ball.genome == mutated(
                    v.agents[k].ball.genome,
                    t,
                    at_or(noises, k, no_noise()),
                )
        } by {
            if j < prev.1.len() {
                assert(births[j] == prev.1[j]);
                assert(w.agents[len + j] == prev.0.agents[len + j]);
                let c = prev.0.agents[len + j];
                let k = choose|k: int|
                    0 <= k < n - 1 && prev.1[j].parent == v.agents[k].id && v.agents[k].ball.life_points
                        >= v.agents[k].ball.genome.life_points_safe_to_reproduce && c.ball.genome == mutated(
                        v.agents[k].ball.genome,
                        t,
                        at_or(noises, k, no_noise()),
                    );
                assert(0 <= k < n);
            } else {
                assert(w.agents[len + j] == w.agents[prev.0.agents.len() as int]);
                assert(0 <= i < n);
            }
        }
    }
}

/// The first of the first `PROBE_COUNT` placement probes that hit nothing.
pub fn first_free_probe(hits: &Vec<bool>) -> (r: Option<usize>)
    ensures
        match r {
            Some(k) => k < PROBE_COUNT && k < hits@.len() && !hits@[k as int] && forall|m: int|
                0 <= m < k ==> hits@[m],
            None => forall|m: int| 0 <= m < PROBE_COUNT && m < hits@.len() ==> hits@[m],
        },
{
    let mut k: usize = 0;
    while k < PROBE_COUNT && k < hits.len()
        invariant
            0 <= k <= PROBE_COUNT,
            k <= hits@.len(),
            forall|m: int| 0 <= m < k ==> hits@[m],
        decreases PROBE_COUNT - k,
    {
        if !hits[k] {
            return Some(k);
        }
        k += 1;
    }
    None
}

impl World {
    /// Whether the agent `id` is too congested to reproduce.
    pub fn has_too_many_adjacent_joints(&self, id: u64) -> (r: bool)
        ensures
            r == (joint_count(self.joints@, id) >= ADJACENT_JOINTS_LIMIT),
    {
        self.count_joints(id) >= ADJACENT_JOINTS_LIMIT
    }

    /// Agent `i` tries to reproduce with draw `u`, placement result `placed`
    /// and mutation `noise`; returns the child's id when one is born.
    pub fn reproduce_one(&mut self, i: usize, u: u32, placed: bool, noise: &MutationNoise, t: &PhysicsTuning) -> (r: Option<u64>)
        requires
            old(self)@.wf(),
            i < old(self)@.agents.len(),
        ensures
            final(self)@.wf(),
            (final(self)@, r) == reproduce_step(old(self)@, i as int, u, placed, *noise, *t),
            t.ranges_ok() && genomes_within(old(self)@.agents, *t) ==> genomes_within(final(self)@.agents, *t),
    {
        let ghost v = self@;
        let a = self.agents[i];
        let b = a.ball;
        let held = self.count_joints(a.id);
        if !(placed && b.life_points >= b.genome.life_points_safe_to_reproduce
            && u < b.genome.relative_reproduction_rate && held < ADJACENT_JOINTS_LIMIT
            && self.next_id < u64::MAX) {
            return None;
        }
        let rate: u32 = if b.genome.energy_share_with_children > UNIT {
            UNIT
        } else {
            b.genome.energy_share_with_children
        };
        let (keep, give) = share_total_roughly(b.life_points, 0, rate);
        assert(lower_part(b.life_points as int, rate as int) <= b.life_points) by (nonlinear_arith)
            requires
                rate <= 1_000_000,
                b.life_points >= 0,
        ;
        let genome = mutate(&b.genome, t, noise);
        let child_id = self.next_id;
        self.agents.set(i, Agent { id: a.id, ball: Ball { life_points: keep, ..b } });
        self.agents.push(Agent { id: child_id, ball: Ball { age: 0, life_points: give, genome } });
        self.next_id = child_id + 1;
        proof {
            let s = self.agents@;
            assert forall|x: int, y: int| 0 <= x < s.len() && 0 <= y < s.len() && x != y implies s[x].id != s[y].id by {
                if x < v.agents.len() {
                    assert(s[x].id == v.agents[x].id);
                }
                if y < v.agents.len() {
                    assert(s[y].id == v.agents[y].id);
                }
            }
            assert forall|x: int| 0 <= x < s.len() implies (#[trigger] s[x]).id < self.next_id by {
                if x < v.agents.len() {
                    assert(s[x].id == v.agents[x].id);
                }
            }
            assert forall|k: int| 0 <= k < v.joints.len() implies has_id(s, (#[trigger] v.joints[k]).parent) && has_id(s, v.joints[k].child) by {
                assert(has_id(v.agents, v.joints[k].parent) && has_id(v.agents, v.joints[k].child));
                let p = choose|x: int| 0 <= x < v.agents.len() && v.agents[x].id == v.joints[k].parent;
                let c = choose|x: int| 0 <= x < v.agents.len() && v.agents[x].id == v.joints[k].child;
                assert(s[p].id == v.joints[k].parent);
                assert(s[c].id == v.joints[k].child);
            }
            if t.ranges_ok() && genomes_within(v.agents, *t) {
                assert forall|x: int| 0 <= x < s.len() implies genome_within((#[trigger] s[x]).ball.genome, *t) by {
                    if x < v.agents.len() {
                        assert(s[x].ball.genome == v.agents[x].ball.genome);
                        assert(genome_within(v.agents[x].ball.genome, *t));
                    }
                }
            }
            assert(self@.agents =~= reproduce_step(v, i as int, u, placed, *noise, *t).0.agents);
        }
        Some(child_id)
    }

    /// Every agent present at the start tries to reproduce in order, agent `i`
    /// with the `i`-th draw, placement result and noise. Returns the births.
    pub fn reproduce_with(
        &mut self,
        draws: &Vec<u32>,
        placed: &Vec<bool>,
        noises: &Vec<MutationNoise>,
        t: &PhysicsTuning,
    ) -> (r: Vec<Birth>)
        requires
            old(self)@.wf(),
        ensures
            final(self)@.wf(),
            (final(self)@, r@) == reproduce_fold(old(self)@, old(self)@.agents.len(), draws@, placed@, noises@, *t),
            t.ranges_ok() && genomes_within(old(self)@.agents, *t) ==> genomes_within(final(self)@.agents, *t),
            final(self)@.frame == old(self)@.frame,
    {
        let ghost v = self@;
        let n = self.agents.len();
        let mut births: Vec<Birth> = Vec::new();
        let mut i: usize = 0;
        while i < n
            invariant
                0 <= i <= n,
                n == v.agents.len(),
                n <= self.agents@.len(),
                self@.wf(),
                (self@, births@) == reproduce_fold(v, i as nat, draws@, placed@, noises@, *t),
                t.ranges_ok() && genomes_within(v.agents, *t) ==> genomes_within(self@.agents, *t),
                self@.frame == v.frame,
            decreases n - i,
        {
            let u: u32 = if i < draws.len() {
                draws[i]
            } else {
                0
            };
            let p: bool = if i < placed.len() {
                placed[i]
            } else {
                false
            };
            let noise: MutationNoise = if i < noises.len() {
                noises[i]
            } else {
                MutationNoise {
                    max_age: 0,
                    relative_reproduction_rate: 0,
                    bite_size: 0,
                    life_points_safe_to_reproduce: 0,
                    energy_share_with_children: 0,
                    friendly_scent_x: 0,
                    friendly_scent_y: 0,
                    friendly_distance: 0,
                }
            };
            let parent = self.agents[i].id;
            let c = self.reproduce_one(i, u, p, &noise, t);
            if let Some(child) = c {
                births.push(Birth { parent, child });
            }
            i += 1;
        }
        births
    }

    /// Every agent present at the start tries to reproduce in order, with a
    /// uniform draw and uniform mutation noise per agent; `placed[i]` says
    /// whether a free position was found around agent `i`. Returns the births.
    pub fn reproduce_balls(&mut self, placed: &Vec<bool>, t: &PhysicsTuning, rng: &mut StdRng) -> (r: Vec<Birth>)
        requires
            old(self)@.wf(),
        ensures
            final(self)@.wf(),
            exists|draws: Seq<u32>, noises: Seq<MutationNoise>|
                (forall|k: int| 0 <= k < draws.len() ==> draws[k] < UNIT) && (forall|k: int|
                    0 <= k < noises.len() ==> (#[trigger] noises[k]).in_bounds()) && (final(self)@, r@)
                    == reproduce_fold(old(self)@, old(self)@.agents.len(), draws, placed@, noises, *t),
            t.ranges_ok() && genomes_within(old(self)@.agents, *t) ==> genomes_within(final(self)@.agents, *t),
            final(self)@.frame == old(self)@.frame,
            final(self)@.agents.len() == old(self)@.agents.len() + r@.len(),
            // an agent below its safe threshold is unchanged and parents no child
            forall|i: int|
                0 <= i < old(self)@.agents.len() && old(self)@.agents[i].ball.life_points
                    < old(self)@.agents[i].ball.genome.life_points_safe_to_reproduce ==> #[trigger] final(self)@.agents[i]
                    == old(self)@.agents[i] && forall|j: int| 0 <= j < r@.len() ==> r@[j].parent != old(self)@.agents[i].id,
            // each child carries its parent's genome mutated by in-bounds noise, clamped to the ranges
            forall|j: int|
                0 <= j < r@.len() ==> {
                    let c = #[trigger] final(self)@.agents[old(self)@.agents.len() + j];
                    &&& c.id == r@[j].child
                    &&& c.ball.age == 0
                    &&& (t.ranges_ok() ==> genome_within(c.ball.genome, *t))
                    &&& exists|k: int, n: MutationNoise|
                        0 <= k < old(self)@.agents.len() && r@[j].parent == old(self)@.agents[k].id && n.in_bounds()
                            && c.ball.genome == mutated(old(self)@.agents[k].ball.genome, *t, n)
                },
    {
        let ghost v = self@;
        let mut draws: Vec<u32> = Vec::new();
        let mut noises: Vec<MutationNoise> = Vec::new();
        let n = self.agents.len();
        let mut k: usize = 0;
        while k < n
            invariant
                0 <= k <= n,
                draws@.len() == k,
                noises@.len() == k,
                forall|i: int| 0 <= i < k ==> draws@[i] < UNIT,
                forall|i: int| 0 <= i < k ==> (#[trigger] noises@[i]).in_bounds(),
            decreases n - k,
        {
            draws.push(draw_unit(rng));
            noises.push(draw_noise(rng));
            k += 1;
        }
        let births = self.reproduce_with(&draws, placed, &noises, t);
        proof {
            lemma_reproduce_fold(v, v.agents.len(), draws@, placed@, noises@, *t);
            let w = self@;
            let len = v.agents.len();
            assert forall|i: int|
                0 <= i < len && v.agents[i].ball.life_points < v.agents[i].ball.genome.life_points_safe_to_reproduce
                implies #[trigger] w.agents[i] == v.agents[i] && forall|j: int| 0 <= j < births@.len() ==> births@[j].parent != v.agents[i].id by {
                assert(w.agents[i] == v.agents[i]);
                assert forall|j: int| 0 <= j < births@.len() implies births@[j].parent != v.agents[i].id by {
                    let c = w.agents[len + j];
                    let k = choose|k: int|
                        0 <= k < len && births@[j].parent == v.agents[k].id && v.agents[k].ball.life_points
                            >= v.agents[k].ball.genome.life_points_safe_to_reproduce && c.ball.genome == mutated(
                            v.agents[k].ball.genome,
                            *t,
                            at_or(noises@, k, no_noise()),
                        );
                    assert(k != i);
                }
            }
            assert forall|j: int| 0 <= j < births@.len() implies {
                let c = #[trigger] w.agents[len + j];
                &&& c.id == births@[j].child
                &&& c.ball.age == 0
                &&& (t.ranges_ok() ==> genome_within(c.ball.genome, *t))
                &&& exists|k: int, n: MutationNoise|
                    0 <= k < len && births@[j].parent == v.agents[k].id && n.in_bounds()
                        && c.ball.genome == mutated(v.agents[k].ball.genome, *t, n)
            } by {
                let c = w.agents[len + j];
                let k = choose|k: int|
                    0 <= k < len && births@[j].parent == v.agents[k].id && v.agents[k].ball.life_points
                        >= v.agents[k].ball.genome.life_points_safe_to_reproduce && c.ball.genome == mutated(
                        v.agents[k].ball.genome,
                        *t,
                        at_or(noises@, k, no_noise()),
                    );
                let n = at_or(noises@, k, no_noise());
                assert(n.in_bounds());
                if t.ranges_ok() {
                    lemma_mutated_within(v.agents[k].ball.genome, *t, n);
                }
            }
        }
        births
    }
}

} // verus!
