//! The periodic energy loop: aging, survival cost, death, and energy
//! sharing across every joint.

use vstd::prelude::*;
use crate::adhesion::{attached_joints, keep_attached, lemma_attached_joints};
use crate::chance::draw_unit;
use crate::contact::{MAX_JOINTS, PAIRWISE_JOINTS_ALLOWED};
use crate::energy::{shared, shared_life_points};
use crate::genome::{Ball, genome_within};
use crate::tuning::PhysicsTuning;
use crate::vector::UNIT;
use crate::world::{Agent, Joint, World, genomes_within, has_id, ids_unique, index_of, joint_count, lemma_index_of, pair_count};
use rand::rngs::StdRng;

verus! {

/// An agent whose life points fall to this floor or below dies.
pub const DEATH_FLOOR: u32 = 9;

/// `b` after one aging tick: its age grows by one (saturating); past its
/// genome's maximum age it pays the survival cost (floored at zero).
pub open spec fn aged(b: Ball, t: PhysicsTuning) -> Ball {
    let age: u32 = if b.age == u32::MAX { b.age } else { (b.age + 1) as u32 };
    let lp: u32 = if age > b.genome.max_age {
        if b.life_points >= t.survival_cost_per_tick {
            (b.life_points - t.survival_cost_per_tick) as u32
        } else {
            0
        }
    } else {
        b.life_points
    };
    Ball { age, life_points: lp, ..b }
}

/// An agent stays alive while its life points are above the death floor.
pub open spec fn alive(b: Ball) -> bool {
    b.life_points > DEATH_FLOOR
}

/// The agents left after one aging tick, in their order, each aged.
pub open spec fn survivors(agents: Seq<Agent>, t: PhysicsTuning) -> Seq<Agent>
    decreases agents.len(),
{
    if agents.len() == 0 {
        Seq::empty()
    } else {
        let rest = survivors(agents.drop_last(), t);
        let a = agents.last();
        if alive(aged(a.ball, t)) {
            rest.push(Agent { id: a.id, ball: aged(a.ball, t) })
        } else {
            rest
        }
    }
}

/// The ids of the agents that die in one aging tick, in their order.
pub open spec fn dead_ids(agents: Seq<Agent>, t: PhysicsTuning) -> Seq<u64>
    decreases agents.len(),
{
    if agents.len() == 0 {
        Seq::empty()
    } else {
        let rest = dead_ids(agents.drop_last(), t);
        if alive(aged(agents.last().ball, t)) {
            rest
        } else {
            rest.push(agents.last().id)
        }
    }
}

/// Every survivor is an aged agent of `agents`, under the same id.
pub proof fn lemma_survivors(agents: Seq<Agent>, t: PhysicsTuning)
    ensures
        forall|i: int| 0 <= i < survivors(agents, t).len() ==> exists|j: int| 0 <= j < agents.len() && agents[j].id == (#[trigger] survivors(agents, t)[i]).id && survivors(agents, t)[i].ball == aged(agents[j].ball, t),
        ids_unique(agents) ==> ids_unique(survivors(agents, t)),
    decreases agents.len(),
{
    if agents.len() > 0 {
        let d = agents.drop_last();
        lemma_survivors(d, t);
        let rest = survivors(d, t);
        let s = survivors(agents, t);
        assert forall|i: int| 0 <= i < s.len() implies exists|j: int| 0 <= j < agents.len() && agents[j].id == (#[trigger] s[i]).id && s[i].ball == aged(agents[j].ball, t) by {
            if i < rest.len() {
                assert(s[i] == rest[i]);
                let j = choose|j: int| 0 <= j < d.len() && d[j].id == rest[i].id && rest[i].ball == aged(d[j].ball, t);
                assert(agents[j] == d[j]);
            } else {
                assert(agents[agents.len() - 1] == agents.last());
            }
        }
        if ids_unique(agents) {
            assert(ids_unique(d));
            assert forall|i: int, k: int| 0 <= i < s.len() && 0 <= k < s.len() && i != k implies s[i].id != s[k].id by {
                if i < rest.len() && k < rest.len() {
                    assert(s[i] == rest[i] && s[k] == rest[k]);
                } else if i < rest.len() {
                    assert(s[i] == rest[i]);
                    let j = choose|j: int| 0 <= j < d.len() && d[j].id == rest[i].id && rest[i].ball == aged(d[j].ball, t);
                    assert(agents[j] == d[j]);
                    assert(agents[agents.len() - 1] == agents.last());
                } else if k < rest.len() {
                    assert(s[k] == rest[k]);
                    let j = choose|j: int| 0 <= j < d.len() && d[j].id == rest[k].id && rest[k].ball == aged(d[j].ball, t);
                    assert(agents[j] == d[j]);
                    assert(agents[agents.len() - 1] == agents.last());
                }
            }
        }
    }
}

/// An agent at or below the death floor dies on the next aging tick; one
/// above it survives that tick when it pays no survival cost.
pub proof fn lemma_death_floor(b: Ball, t: PhysicsTuning)
    ensures
        b.life_points <= DEATH_FLOOR ==> !alive(aged(b, t)),
        (aged(b, t).age <= b.genome.max_age || t.survival_cost_per_tick == 0) ==> (alive(aged(b, t))
            <==> b.life_points > DEATH_FLOOR),
{
}

/// One aging tick of a single agent.
pub fn age_ball(b: &Ball, t: &PhysicsTuning) -> (r: Ball)
    ensures
        r == aged(*b, *t),
{
    let age: u32 = if b.age == u32::MAX { b.age } else { b.age + 1 };
    let lp: u32 = if age > b.genome.max_age {
        b.life_points.saturating_sub(t.survival_cost_per_tick)
    } else {
        b.life_points
    };
    Ball { age, life_points: lp, ..*b }
}

/// The `k`-th draw, or zero past the end.
pub open spec fn draw_at(draws: Seq<u32>, k: int) -> u32 {
    if 0 <= k < draws.len() {
        draws[k]
    } else {
        0
    }
}

/// The agents after sharing energy across joint `j` with draw `u`.
pub open spec fn share_step(agents: Seq<Agent>, j: Joint, t: PhysicsTuning, u: u32) -> Seq<Agent> {
    if !has_id(agents, j.parent) || !has_id(agents, j.child) {
        agents
    } else {
        let ip = index_of(agents, j.parent);
        let ic = index_of(agents, j.child);
        let p = agents[ip].ball;
        let c = agents[ic].ball;
        let lp = shared(p, c, t, u);
        agents.update(ip, Agent { id: j.parent, ball: Ball { life_points: lp.0, ..p } }).update(
            ic,
            Agent { id: j.child, ball: Ball { life_points: lp.1, ..c } },
        )
    }
}

/// The agents after sharing across each joint of `js` in order, the `k`-th
/// joint using the `k`-th draw.
pub open spec fn share_fold(agents: Seq<Agent>, js: Seq<Joint>, t: PhysicsTuning, draws: Seq<u32>) -> Seq<Agent>
    decreases js.len(),
{
    if js.len() == 0 {
        agents
    } else {
        share_step(share_fold(agents, js.drop_last(), t, draws), js.last(), t, draw_at(draws, js.len() - 1))
    }
}

/// Sharing changes life points only: ids, ages and genomes stay at their positions.
pub proof fn lemma_share_step_keeps(agents: Seq<Agent>, j: Joint, t: PhysicsTuning, u: u32)
    ensures
        share_step(agents, j, t, u).len() == agents.len(),
        forall|i: int| 0 <= i < agents.len() ==> {
            let a = #[trigger] share_step(agents, j, t, u)[i];
            &&& a.id == agents[i].id
            &&& a.ball.age == agents[i].ball.age
            &&& a.ball.genome == agents[i].ball.genome
        },
{
    if has_id(agents, j.parent) && has_id(agents, j.child) {
        let ip = index_of(agents, j.parent);
        let ic = index_of(agents, j.child);
        assert(0 <= ip < agents.len() && agents[ip].id == j.parent);
        assert(0 <= ic < agents.len() && agents[ic].id == j.child);
    }
}

impl World {
    /// One aging tick: every agent ages, those past their maximum age pay the
    /// survival cost, those at or below the death floor are removed together
    /// with every joint attached to them. Returns the ids removed.
    pub fn age_balls(&mut self, t: &PhysicsTuning) -> (r: Vec<u64>)
        requires
            old(self)@.wf(),
        ensures
            final(self)@.wf(),
            final(self)@.agents == survivors(old(self)@.agents, *t),
            final(self)@.joints == attached_joints(old(self)@.joints, final(self)@.agents),
            final(self)@.next_id == old(self)@.next_id,
            final(self)@.frame == old(self)@.frame,
            final(self)@.stats == old(self)@.stats,
            r@ == dead_ids(old(self)@.agents, *t),
            genomes_within(old(self)@.agents, *t) ==> genomes_within(final(self)@.agents, *t),
    {
        let ghost v = self@;
        let mut alive_agents: Vec<Agent> = Vec::new();
        let mut dead: Vec<u64> = Vec::new();
        let mut i: usize = 0;
        while i < self.agents.len()
            invariant
                0 <= i <= self.agents@.len(),
                self@ == v,
                alive_agents@ == survivors(v.agents.subrange(0, i as int), *t),
                dead@ == dead_ids(v.agents.subrange(0, i as int), *t),
            decreases self.agents@.len() - i,
        {
            assert(v.agents.subrange(0, i + 1).drop_last() =~= v.agents.subrange(0, i as int));
            assert(v.agents.subrange(0, i + 1).last() == v.agents[i as int]);
            let a = self.agents[i];
            let b = age_ball(&a.ball, t);
            if b.life_points > DEATH_FLOOR {
                alive_agents.push(Agent { id: a.id, ball: b });
            } else {
                dead.push(a.id);
            }
            i += 1;
        }
        assert(v.agents.subrange(0, i as int) =~= v.agents);
        let kept = keep_attached(&self.joints, &alive_agents);
        proof {
            lemma_survivors(v.agents, *t);
            lemma_attached_joints(v.joints, alive_agents@);
            let s = alive_agents@;
            assert forall|i: int| 0 <= i < s.len() implies (#[trigger] s[i]).id < v.next_id by {
                let j = choose|j: int| 0 <= j < v.agents.len() && v.agents[j].id == s[i].id && s[i].ball == aged(v.agents[j].ball, *t);
                assert(v.agents[j].id < v.next_id);
            }
            if genomes_within(v.agents, *t) {
                assert forall|i: int| 0 <= i < s.len() implies genome_within((#[trigger] s[i]).ball.genome, *t) by {
                    let j = choose|j: int| 0 <= j < v.agents.len() && v.agents[j].id == s[i].id && s[i].ball == aged(v.agents[j].ball, *t);
                    assert(genome_within(v.agents[j].ball.genome, *t));
                }
            }
            assert forall|id: u64| #[trigger] joint_count(kept@, id) <= MAX_JOINTS as nat + 1 by {
                assert(joint_count(v.joints, id) <= MAX_JOINTS as nat + 1);
            }
            assert forall|a: u64, b: u64| #[trigger] pair_count(kept@, a, b) <= PAIRWISE_JOINTS_ALLOWED as nat by {
                assert(pair_count(v.joints, a, b) <= PAIRWISE_JOINTS_ALLOWED as nat);
            }
        }
        self.agents = alive_agents;
        self.joints = kept;
        dead
    }

    /// Shares energy across every joint in order, the `k`-th joint using the
    /// `k`-th draw (zero past the end of `draws`).
    pub fn share_energy_with_draws(&mut self, t: &PhysicsTuning, draws: &Vec<u32>)
        requires
            old(self)@.wf(),
        ensures
            final(self)@.wf(),
            final(self)@.agents == share_fold(old(self)@.agents, old(self)@.joints, *t, draws@),
            final(self)@.joints == old(self)@.joints,
            final(self)@.next_id == old(self)@.next_id,
            final(self)@.frame == old(self)@.frame,
            final(self)@.stats == old(self)@.stats,
            genomes_within(old(self)@.agents, *t) ==> genomes_within(final(self)@.agents, *t),
    {
        let ghost v = self@;
        let mut k: usize = 0;
        while k < self.joints.len()
            invariant
                0 <= k <= self.joints@.len(),
                v.wf(),
                self.joints@ == v.joints,
                self.next_id == v.next_id,
                self.frame == v.frame,
                self.stats == v.stats,
                self.agents@ == share_fold(v.agents, v.joints.subrange(0, k as int), *t, draws@),
                self.agents@.len() == v.agents.len(),
                forall|i: int| 0 <= i < v.agents.len() ==> {
                    let a = #[trigger] self.agents@[i];
                    &&& a.id == v.agents[i].id
                    &&& a.ball.age == v.agents[i].ball.age
                    &&& a.ball.genome == v.agents[i].ball.genome
                },
            decreases self.joints@.len() - k,
        {
            let ghost before = self.agents@;
            assert(v.joints.subrange(0, k + 1).drop_last() =~= v.joints.subrange(0, k as int));
            assert(v.joints.subrange(0, k + 1).last() == v.joints[k as int]);
            proof {
                lemma_share_step_keeps(before, v.joints[k as int], *t, draw_at(draws@, k as int));
                assert(ids_unique(before)) by {
                    assert forall|i: int, j: int| 0 <= i < before.len() && 0 <= j < before.len() && i != j implies before[i].id != before[j].id by {
                        assert(before[i].id == v.agents[i].id);
                        assert(before[j].id == v.agents[j].id);
                    }
                }
            }
            let j = self.joints[k];
            let u: u32 = if k < draws.len() {
                draws[k]
            } else {
                0
            };
            let ip = self.find_agent(j.parent);
            let ic = self.find_agent(j.child);
            if let (Some(ip), Some(ic)) = (ip, ic) {
                proof {
                    lemma_index_of(before, ip as int);
                    lemma_index_of(before, ic as int);
                }
                let p = self.agents[ip].ball;
                let c = self.agents[ic].ball;
                let (np, nc) = shared_life_points(&p, &c, t, u);
                self.agents.set(ip, Agent { id: j.parent, ball: Ball { life_points: np, ..p } });
                self.agents.set(ic, Agent { id: j.child, ball: Ball { life_points: nc, ..c } });
            }
            assert(self.agents@ =~= share_step(before, v.joints[k as int], *t, draw_at(draws@, k as int)));
            k += 1;
        }
        assert(v.joints.subrange(0, k as int) =~= v.joints);
        proof {
            let s = self.agents@;
            assert forall|i: int, j: int| 0 <= i < s.len() && 0 <= j < s.len() && i != j implies s[i].id != s[j].id by {
                assert(s[i].id == v.agents[i].id);
                assert(s[j].id == v.agents[j].id);
            }
            assert forall|i: int| 0 <= i < s.len() implies (#[trigger] s[i]).id < v.next_id by {
                assert(s[i].id == v.agents[i].id);
                assert(v.agents[i].id < v.next_id);
            }
            assert forall|k: int| 0 <= k < v.joints.len() implies has_id(s, (#[trigger] v.joints[k]).parent) && has_id(s, v.joints[k].child) by {
                assert(has_id(v.agents, v.joints[k].parent) && has_id(v.agents, v.joints[k].child));
                let p = choose|i: int| 0 <= i < v.agents.len() && v.agents[i].id == v.joints[k].parent;
                let c = choose|i: int| 0 <= i < v.agents.len() && v.agents[i].id == v.joints[k].child;
                assert(s[p].id == v.joints[k].parent);
                assert(s[c].id == v.joints[k].child);
            }
            if genomes_within(v.agents, *t) {
                assert forall|i: int| 0 <= i < s.len() implies genome_within((#[trigger] s[i]).ball.genome, *t) by {
                    assert(s[i].ball.genome == v.agents[i].ball.genome);
                    assert(genome_within(v.agents[i].ball.genome, *t));
                }
            }
        }
    }

    /// Shares energy across every joint in order, drawing the hostile-case
    /// fraction uniformly for each joint.
    pub fn share_energy(&mut self, t: &PhysicsTuning, rng: &mut StdRng)
        requires
            old(self)@.wf(),
        ensures
            final(self)@.wf(),
            exists|draws: Seq<u32>|
                draws.len() == old(self)@.joints.len() && (forall|k: int| 0 <= k < draws.len() ==> draws[k] < UNIT)
                    && final(self)@.agents == share_fold(old(self)@.agents, old(self)@.joints, *t, draws),
            final(self)@.joints == old(self)@.joints,
            final(self)@.next_id == old(self)@.next_id,
            final(self)@.frame == old(self)@.frame,
            final(self)@.stats == old(self)@.stats,
            genomes_within(old(self)@.agents, *t) ==> genomes_within(final(self)@.agents, *t),
    {
        let mut draws: Vec<u32> = Vec::new();
        let mut k: usize = 0;
        while k < self.joints.len()
            invariant
                0 <= k <= self.joints@.len(),
                draws@.len() == k,
                forall|i: int| 0 <= i < k ==> draws@[i] < UNIT,
            decreases self.joints@.len() - k,
        {
            let u = draw_unit(rng);
            draws.push(u);
            k += 1;
        }
        self.share_energy_with_draws(t, &draws);
    }
}

} // verus!
