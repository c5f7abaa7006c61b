//! Contact resolution: bites on high-force contacts between agents that are
//! not mutually friendly, and the creation gate for new joints.

use vstd::prelude::*;
use crate::genome::{Ball, friendly, genome_within, sat_u32};
use crate::tuning::PhysicsTuning;
use crate::vector::Vector;
use crate::world::{Agent, Joint, JointStats, World, WorldView, caps_hold, genomes_within, has_id, index_of, joint_count, lemma_counts_push, lemma_index_of, lemma_pair_count_symmetric, pair_count, sat_add_u64, sat_inc};

verus! {

/// A joint is refused while either endpoint holds more joints than this.
pub const MAX_JOINTS: u64 = 10;

/// A joint is refused once two agents share this many joints.
pub const PAIRWISE_JOINTS_ALLOWED: u64 = 2;

/// One contact-force report of the physics engine, with what was looked up
/// for it: both agents' linear velocities, and whether the pair has an active
/// contact point.
#[derive(Clone, Copy, Debug, PartialEq, Eq)]
pub struct ContactEvent {
    pub a: u64,
    pub b: u64,
    pub force: u64,
    pub velocity_a: Vector,
    pub velocity_b: Vector,
    pub touching: bool,
}

/// What became of a contact with respect to adhesion.
#[derive(Clone, Copy, Debug, PartialEq, Eq)]
pub enum Stick {
    /// An agent was missing, or the pair has no active contact point.
    Skipped,
    /// The relative speed lies outside the sticking band.
    OutOfBand,
    /// A per-agent or pairwise cap refused the joint.
    Capped,
    /// A joint from `a` (parent) to `b` (child) was added.
    Created,
}

/// What a contact did: who bit (if anyone) and what became of adhesion.
#[derive(Clone, Copy, Debug, PartialEq, Eq)]
pub struct ContactOutcome {
    pub biter: Option<u64>,
    pub stick: Stick,
}

/// `b` after losing `n` life points, floored at zero.
pub open spec fn bitten(b: Ball, n: u32) -> Ball {
    Ball { life_points: if b.life_points >= n { (b.life_points - n) as u32 } else { 0 }, ..b }
}

/// `b` after gaining `n` life points, saturating.
pub open spec fn fed(b: Ball, n: u32) -> Ball {
    Ball { life_points: sat_u32(b.life_points + n) as u32, ..b }
}

/// Who bites on a contact between `a` and `b`: 1 for `a`, 2 for `b`, 0 for no one.
/// A bite needs a force above the threshold and the pair not mutually
/// friendly; the strictly faster agent bites.
pub open spec fn biter_of(a: Ball, b: Ball, ev: ContactEvent, t: PhysicsTuning) -> int {
    if ev.force > t.break_force_threshold && !(friendly(a, b) && friendly(b, a)) {
        if ev.velocity_a.len_sq() > ev.velocity_b.len_sq() {
            1
        } else if ev.velocity_b.len_sq() > ev.velocity_a.len_sq() {
            2
        } else {
            0
        }
    } else {
        0
    }
}

/// The adhesion outcome of `ev` against the joints present.
pub open spec fn stick_of(js: Seq<Joint>, ev: ContactEvent, t: PhysicsTuning) -> Stick {
    let rel = ev.velocity_a.dist_sq(ev.velocity_b);
    if !ev.touching {
        Stick::Skipped
    } else if !(t.rel_vel_min * t.rel_vel_min <= rel && rel <= t.rel_vel_max * t.rel_vel_max) {
        Stick::OutOfBand
    } else if joint_count(js, ev.a) > MAX_JOINTS || joint_count(js, ev.b) > MAX_JOINTS || pair_count(
        js,
        ev.a,
        ev.b,
    ) >= PAIRWISE_JOINTS_ALLOWED {
        Stick::Capped
    } else {
        Stick::Created
    }
}

/// The world and outcome after resolving one contact event.
pub open spec fn contact_step(v: WorldView, ev: ContactEvent, t: PhysicsTuning) -> (WorldView, ContactOutcome) {
    if !has_id(v.agents, ev.a) || !has_id(v.agents, ev.b) || ev.a == ev.b {
        (v, ContactOutcome { biter: None, stick: Stick::Skipped })
    } else {
        let ia = index_of(v.agents, ev.a);
        let ib = index_of(v.agents, ev.b);
        let ba = v.agents[ia].ball;
        let bb = v.agents[ib].ball;
        let who = biter_of(ba, bb, ev, t);
        let agents = if who == 1 {
            v.agents.update(ia, Agent { id: ev.a, ball: fed(ba, ba.genome.bite_size) }).update(
                ib,
                Agent { id: ev.b, ball: bitten(bb, ba.genome.bite_size) },
            )
        } else if who == 2 {
            v.agents.update(ib, Agent { id: ev.b, ball: fed(bb, bb.genome.bite_size) }).update(
                ia,
                Agent { id: ev.a, ball: bitten(ba, bb.genome.bite_size) },
            )
        } else {
            v.agents
        };
        let stick = stick_of(v.joints, ev, t);
        let created = stick == Stick::Created;
        let joints = if created {
            v.joints.push(Joint { parent: ev.a, child: ev.b, born: v.frame })
        } else {
            v.joints
        };
        let stats = if created {
            JointStats { created: sat_add_u64(v.stats.created, 1), ..v.stats }
        } else {
            v.stats
        };
        let biter = if who == 1 {
            Some(ev.a)
        } else if who == 2 {
            Some(ev.b)
        } else {
            None
        };
        (
            WorldView { agents, joints, stats, ..v },
            ContactOutcome { biter, stick },
        )
    }
}

/// The world after resolving `evs` in order.
pub open spec fn contacts_fold(v: WorldView, evs: Seq<ContactEvent>, t: PhysicsTuning) -> WorldView
    decreases evs.len(),
{
    if evs.len() == 0 {
        v
    } else {
        contact_step(contacts_fold(v, evs.drop_last(), t), evs.last(), t).0
    }
}

/// Per-agent and pairwise caps survive a contact: with every agent at no more
/// than `MAX_JOINTS` joints and every pair at no more than
/// `PAIRWISE_JOINTS_ALLOWED`, the same is true after the contact, provided
/// neither endpoint sits exactly at `MAX_JOINTS` (the creation gate only
/// refuses endpoints above it).
pub proof fn lemma_contact_keeps_caps(v: WorldView, ev: ContactEvent, t: PhysicsTuning)
    requires
        v.wf(),
        caps_hold(v.joints, MAX_JOINTS as nat, PAIRWISE_JOINTS_ALLOWED as nat),
        joint_count(v.joints, ev.a) != MAX_JOINTS,
        joint_count(v.joints, ev.b) != MAX_JOINTS,
    ensures
        caps_hold(contact_step(v, ev, t).0.joints, MAX_JOINTS as nat, PAIRWISE_JOINTS_ALLOWED as nat),
{
    let w = contact_step(v, ev, t).0;
    if w.joints != v.joints {
        let j = Joint { parent: ev.a, child: ev.b, born: v.frame };
        lemma_counts_push(v.joints, j);
        lemma_pair_count_symmetric(v.joints, ev.a, ev.b);
        assert forall|id: u64| #[trigger] joint_count(w.joints, id) <= MAX_JOINTS as nat by {
            assert(joint_count(v.joints, id) <= MAX_JOINTS as nat);
        }
        assert forall|a: u64, b: u64| #[trigger] pair_count(w.joints, a, b) <= PAIRWISE_JOINTS_ALLOWED as nat by {
            assert(pair_count(v.joints, a, b) <= PAIRWISE_JOINTS_ALLOWED as nat);
        }
    }
}

impl World {
    /// Whether the agent `id` holds more joints than the per-agent cap.
    pub fn has_more_than_max_joints(&self, id: u64) -> (r: bool)
        ensures
            r == (joint_count(self.joints@, id) > MAX_JOINTS),
    {
        self.count_joints(id) > MAX_JOINTS
    }

    /// Whether `a` and `b` already share the pairwise cap of joints.
    pub fn already_has_max_pairwise_joints(&self, a: u64, b: u64) -> (r: bool)
        ensures
            r == (pair_count(self.joints@, a, b) >= PAIRWISE_JOINTS_ALLOWED),
    {
        self.count_pair_joints(a, b) >= PAIRWISE_JOINTS_ALLOWED
    }

    /// Resolves one contact event: a possible bite, then the adhesion gate.
    /// An event naming a missing agent changes nothing.
    pub fn resolve_contact(&mut self, ev: &ContactEvent, t: &PhysicsTuning) -> (r: ContactOutcome)
        requires
            old(self)@.wf(),
        ensures
            final(self)@.wf(),
            (final(self)@, r) == contact_step(old(self)@, *ev, *t),
            forall|g: PhysicsTuning| genomes_within(old(self)@.agents, g) ==> genomes_within(final(self)@.agents, g),
    {
        let ghost v = self@;
        let skip = ContactOutcome { biter: None, stick: Stick::Skipped };
        let ia = match self.find_agent(ev.a) {
            Some(i) => i,
            None => return skip,
        };
        let ib = match self.find_agent(ev.b) {
            Some(i) => i,
            None => return skip,
        };
        if ev.a == ev.b {
            return skip;
        }
        proof {
            lemma_index_of(v.agents, ia as int);
            lemma_index_of(v.agents, ib as int);
        }
        let ba = self.agents[ia].ball;
        let bb = self.agents[ib].ball;
        let mut biter: Option<u64> = None;
        if ev.force > t.break_force_threshold {
            let fa = ba.is_friendly_with(bb);
            let fb = bb.is_friendly_with(ba);
            if !(fa && fb) {
                if ev.velocity_a.faster_than(&ev.velocity_b) {
                    let n = ba.genome.bite_size;
                    self.agents.set(ia, Agent { id: ev.a, ball: Ball { life_points: ba.life_points.saturating_add(n), ..ba } });
                    self.agents.set(ib, Agent { id: ev.b, ball: Ball { life_points: bb.life_points.saturating_sub(n), ..bb } });
                    biter = Some(ev.a);
                } else if ev.velocity_b.faster_than(&ev.velocity_a) {
                    let n = bb.genome.bite_size;
                    self.agents.set(ib, Agent { id: ev.b, ball: Ball { life_points: bb.life_points.saturating_add(n), ..bb } });
                    self.agents.set(ia, Agent { id: ev.a, ball: Ball { life_points: ba.life_points.saturating_sub(n), ..ba } });
                    biter = Some(ev.b);
                }
            }
        }
        let ghost agents1 = self.agents@;
        proof {
            assert forall|i: int| 0 <= i < agents1.len() implies agents1[i].id == v.agents[i].id by {}
            assert forall|k: int| 0 <= k < v.joints.len() implies has_id(agents1, (#[trigger] v.joints[k]).parent) && has_id(agents1, v.joints[k].child) by {
                let p = choose|i: int| 0 <= i < v.agents.len() && v.agents[i].id == v.joints[k].parent;
                let c = choose|i: int| 0 <= i < v.agents.len() && v.agents[i].id == v.joints[k].child;
                assert(agents1[p].id == v.joints[k].parent);
                assert(agents1[c].id == v.joints[k].child);
            }
        }
        let stick = if !ev.touching {
            Stick::Skipped
        } else if !ev.velocity_a.distance_within(&ev.velocity_b, t.rel_vel_min, t.rel_vel_max) {
            Stick::OutOfBand
        } else if self.has_more_than_max_joints(ev.a) || self.has_more_than_max_joints(ev.b)
            || self.already_has_max_pairwise_joints(ev.a, ev.b) {
            Stick::Capped
        } else {
            let ghost js = self.joints@;
            let j = Joint { parent: ev.a, child: ev.b, born: self.frame };
            self.joints.push(j);
            self.stats.created = sat_inc(self.stats.created);
            proof {
                lemma_counts_push(js, j);
                assert forall|k: int| 0 <= k < self.joints@.len() implies has_id(self.agents@, (#[trigger] self.joints@[k]).parent) && has_id(self.agents@, self.joints@[k].child) by {
                    if k == js.len() {
                        assert(self.agents@[ia as int].id == ev.a);
                        assert(self.agents@[ib as int].id == ev.b);
                    } else {
                        assert(js == v.joints);
                        assert(0 <= k < v.joints.len());
                        assert(self.joints@[k] == v.joints[k]);
                        assert(has_id(agents1, v.joints[k].parent) && has_id(agents1, v.joints[k].child));
                    }
                }
                assert forall|id: u64| #[trigger] joint_count(self.joints@, id) <= MAX_JOINTS as nat + 1 by {
                    assert(joint_count(js, id) <= MAX_JOINTS as nat + 1);
                }
                assert forall|a: u64, b: u64| #[trigger] pair_count(self.joints@, a, b) <= PAIRWISE_JOINTS_ALLOWED as nat by {
                    assert(pair_count(js, a, b) <= PAIRWISE_JOINTS_ALLOWED as nat);
                    lemma_pair_count_symmetric(js, ev.a, ev.b);
                }
            }
            Stick::Created
        };
        proof {
            assert forall|g: PhysicsTuning| genomes_within(v.agents, g) implies genomes_within(self.agents@, g) by {
                assert forall|i: int| 0 <= i < self.agents@.len() implies genome_within((#[trigger] self.agents@[i]).ball.genome, g) by {
                    assert(self.agents@[i].ball.genome == v.agents[i].ball.genome);
                    assert(genome_within(v.agents[i].ball.genome, g));
                }
            }
        }
        ContactOutcome { biter, stick }
    }

    /// Resolves `events` in order, returning each event's outcome.
    pub fn resolve_contacts(&mut self, events: &Vec<ContactEvent>, t: &PhysicsTuning) -> (r: Vec<ContactOutcome>)
        requires
            old(self)@.wf(),
        ensures
            final(self)@.wf(),
            final(self)@ == contacts_fold(old(self)@, events@, *t),
            r@.len() == events@.len(),
            forall|k: int| 0 <= k < events@.len() ==> r@[k] == contact_step(contacts_fold(old(self)@, events@.subrange(0, k), *t), events@[k], *t).1,
            forall|g: PhysicsTuning| genomes_within(old(self)@.agents, g) ==> genomes_within(final(self)@.agents, g),
            final(self)@.frame == old(self)@.frame,
    {
        let ghost v0 = self@;
        let mut out: Vec<ContactOutcome> = Vec::new();
        let mut k: usize = 0;
        while k < events.len()
            invariant
                0 <= k <= events@.len(),
                self@.wf(),
                self@ == contacts_fold(v0, events@.subrange(0, k as int), *t),
                out@.len() == k,
                forall|i: int| 0 <= i < k ==> out@[i] == contact_step(contacts_fold(v0, events@.subrange(0, i), *t), events@[i], *t).1,
                forall|g: PhysicsTuning| genomes_within(v0.agents, g) ==> genomes_within(self@.agents, g),
                self@.frame == v0.frame,
            decreases events@.len() - k,
        {
            assert(events@.subrange(0, k + 1).drop_last() =~= events@.subrange(0, k as int));
            assert(events@.subrange(0, k + 1).last() == events@[k as int]);
            let o = self.resolve_contact(&events[k], t);
            out.push(o);
            k += 1;
        }
        assert(events@.subrange(0, k as int) =~= events@);
        out
    }
}

} // verus!
