//! The arena: agents keyed by id, joints as plain edges between two ids,
//! the invariant that ties them together, and the fixed order of a tick.

use vstd::prelude::*;
use crate::adhesion::{attached_joints, stats_after_breaks, unbroken};
use crate::aging::{dead_ids, share_fold, survivors};
use crate::contact::{contact_step, contacts_fold, ContactEvent, ContactOutcome, MAX_JOINTS, PAIRWISE_JOINTS_ALLOWED};
use crate::genome::{Ball, MutationNoise, genome_within};
use crate::reproduction::{reproduce_fold, Birth};
use crate::tuning::PhysicsTuning;
use crate::vector::{Vector, UNIT};
use rand::rngs::StdRng;

verus! {

/// An agent of the arena.
#[derive(Clone, Copy, Debug, PartialEq, Eq)]
pub struct Agent {
    pub id: u64,
    pub ball: Ball,
}

/// An adhesion edge: `child` bonds to `parent`, created at frame `born`.
#[derive(Clone, Copy, Debug, PartialEq, Eq)]
pub struct Joint {
    pub parent: u64,
    pub child: u64,
    pub born: u64,
}

/// Counters of created joints, and of joints that broke within 1, 5 and 30
/// frames of their creation. For observation only.
#[derive(Clone, Copy, Debug, PartialEq, Eq)]
pub struct JointStats {
    pub created: u64,
    pub broke_1: u64,
    pub broke_5: u64,
    pub broke_30: u64,
}

/// What a tick reads from the physics engine and the clock.
pub struct TickInput {
    /// Contact-force events of this tick.
    pub events: Vec<ContactEvent>,
    /// Joint impulse readbacks, the `k`-th for the `k`-th joint at the start of the break pass.
    pub impulses: Vec<Option<Vector>>,
    /// Whether the aging and sharing period has elapsed.
    pub aging_due: bool,
    /// Whether the reproduction period has elapsed.
    pub reproduction_due: bool,
    /// Whether a free position was found around each agent, by position.
    pub placed: Vec<bool>,
}

/// What a tick did.
pub struct TickReport {
    pub tuning_replaced: bool,
    pub contacts: Vec<ContactOutcome>,
    pub broken: usize,
    pub dead: Vec<u64>,
    pub births: Vec<Birth>,
}

/// The arena.
pub struct World {
    pub agents: Vec<Agent>,
    pub joints: Vec<Joint>,
    pub next_id: u64,
    pub frame: u64,
    pub stats: JointStats,
}

/// The mathematical value of a `World`.
pub struct WorldView {
    pub agents: Seq<Agent>,
    pub joints: Seq<Joint>,
    pub next_id: u64,
    pub frame: u64,
    pub stats: JointStats,
}

impl View for World {
    type V = WorldView;

    open spec fn view(&self) -> WorldView {
        WorldView {
            agents: self.agents@,
            joints: self.joints@,
            next_id: self.next_id,
            frame: self.frame,
            stats: self.stats,
        }
    }
}

pub open spec fn has_id(agents: Seq<Agent>, id: u64) -> bool {
    exists|i: int| 0 <= i < agents.len() && agents[i].id == id
}

/// The position of the agent with `id` (meaningful when there is one).
pub open spec fn index_of(agents: Seq<Agent>, id: u64) -> int {
    choose|i: int| 0 <= i < agents.len() && agents[i].id == id
}

pub open spec fn touches(j: Joint, id: u64) -> bool {
    j.parent == id || j.child == id
}

pub open spec fn links(j: Joint, a: u64, b: u64) -> bool {
    (j.parent == a && j.child == b) || (j.parent == b && j.child == a)
}

/// Number of joints with `id` at either end.
pub open spec fn joint_count(js: Seq<Joint>, id: u64) -> nat
    decreases js.len(),
{
    if js.len() == 0 {
        0
    } else {
        joint_count(js.drop_last(), id) + if touches(js.last(), id) {
            1nat
        } else {
            0nat
        }
    }
}

/// Number of joints between `a` and `b`, in either direction.
pub open spec fn pair_count(js: Seq<Joint>, a: u64, b: u64) -> nat
    decreases js.len(),
{
    if js.len() == 0 {
        0
    } else {
        pair_count(js.drop_last(), a, b) + if links(js.last(), a, b) {
            1nat
        } else {
            0nat
        }
    }
}

pub open spec fn ids_unique(agents: Seq<Agent>) -> bool {
    forall|i: int, j: int|
        0 <= i < agents.len() && 0 <= j < agents.len() && i != j ==> agents[i].id != agents[j].id
}

/// Every joint's two endpoints are agents of `agents`.
pub open spec fn joints_attached(agents: Seq<Agent>, joints: Seq<Joint>) -> bool {
    forall|k: int|
        0 <= k < joints.len() ==> has_id(agents, (#[trigger] joints[k]).parent) && has_id(
            agents,
            joints[k].child,
        )
}

/// No agent holds more joints than `per_agent`, and no two agents share more than `per_pair`.
pub open spec fn caps_hold(joints: Seq<Joint>, per_agent: nat, per_pair: nat) -> bool {
    &&& forall|id: u64| #[trigger] joint_count(joints, id) <= per_agent
    &&& forall|a: u64, b: u64| #[trigger] pair_count(joints, a, b) <= per_pair
}

/// Every agent's genome lies in the ranges of `t`.
pub open spec fn genomes_within(agents: Seq<Agent>, t: PhysicsTuning) -> bool {
    forall|i: int| 0 <= i < agents.len() ==> genome_within((#[trigger] agents[i]).ball.genome, t)
}

impl WorldView {
    pub open spec fn wf(self) -> bool {
        &&& ids_unique(self.agents)
        &&& forall|i: int| 0 <= i < self.agents.len() ==> (#[trigger] self.agents[i]).id < self.next_id
        &&& joints_attached(self.agents, self.joints)
        &&& caps_hold(self.joints, MAX_JOINTS as nat + 1, PAIRWISE_JOINTS_ALLOWED as nat)
    }
}

pub open spec fn sat_add_u64(a: u64, b: int) -> u64 {
    if a + b > u64::MAX {
        u64::MAX
    } else {
        (a + b) as u64
    }
}

pub open spec fn sat_sub_u64(a: u64, b: u64) -> u64 {
    if a >= b {
        (a - b) as u64
    } else {
        0
    }
}

/// The `k`-th element, or `d` past the end.
pub open spec fn at_or<T>(s: Seq<T>, k: int, d: T) -> T {
    if 0 <= k < s.len() {
        s[k]
    } else {
        d
    }
}

/// The world after the break pass: joints whose impulse readback exceeds the
/// threshold are gone, and their breaks are counted.
pub open spec fn after_breaks(v: WorldView, imps: Seq<Option<Vector>>, t: PhysicsTuning) -> WorldView {
    WorldView {
        joints: unbroken(v.joints, imps, t.break_force_threshold),
        stats: stats_after_breaks(v.stats, v.joints, imps, t.break_force_threshold, v.frame),
        ..v
    }
}

/// The world after the aging pass (aging, deaths, cascading joint removal)
/// and the sharing pass with `draws`.
pub open spec fn after_aging(v: WorldView, t: PhysicsTuning, draws: Seq<u32>) -> WorldView {
    let agents = survivors(v.agents, t);
    let joints = attached_joints(v.joints, agents);
    WorldView { agents: share_fold(agents, joints, t, draws), joints, ..v }
}

/// The world, the ids removed and the births of one tick run under tuning
/// `t`, in the fixed order: contacts, breaks, aging and sharing (when due),
/// reproduction (when due), then the frame advances. `share_draws`,
/// `repro_draws` and `noises` are the random draws the passes use.
pub open spec fn tick_result(
    v0: WorldView,
    events: Seq<ContactEvent>,
    imps: Seq<Option<Vector>>,
    aging_due: bool,
    reproduction_due: bool,
    placed: Seq<bool>,
    t: PhysicsTuning,
    share_draws: Seq<u32>,
    repro_draws: Seq<u32>,
    noises: Seq<MutationNoise>,
) -> (WorldView, Seq<u64>, Seq<Birth>) {
    let v1 = contacts_fold(v0, events, t);
    let v2 = after_breaks(v1, imps, t);
    let v3 = if aging_due { after_aging(v2, t, share_draws) } else { v2 };
    let dead = if aging_due { dead_ids(v2.agents, t) } else { Seq::empty() };
    let rep = reproduce_fold(v3, v3.agents.len(), repro_draws, placed, noises, t);
    let v4 = if reproduction_due { rep.0 } else { v3 };
    let births = if reproduction_due { rep.1 } else { Seq::empty() };
    (WorldView { frame: sat_add_u64(v4.frame, 1), ..v4 }, dead, births)
}


pub proof fn lemma_index_of(agents: Seq<Agent>, i: int)
    requires
        ids_unique(agents),
        0 <= i < agents.len(),
    ensures
        index_of(agents, agents[i].id) == i,
{
    let id = agents[i].id;
    assert(0 <= i < agents.len() && agents[i].id == id);
    let j = index_of(agents, id);
    assert(0 <= j < agents.len() && agents[j].id == id);
}

pub proof fn lemma_counts_push(js: Seq<Joint>, j: Joint)
    ensures
        forall|id: u64|
            #[trigger] joint_count(js.push(j), id) == joint_count(js, id) + if touches(j, id) {
                1nat
            } else {
                0nat
            },
        forall|a: u64, b: u64|
            #[trigger] pair_count(js.push(j), a, b) == pair_count(js, a, b) + if links(j, a, b) {
                1nat
            } else {
                0nat
            },
{
    assert(js.push(j).drop_last() =~= js);
}

pub proof fn lemma_pair_count_symmetric(js: Seq<Joint>, a: u64, b: u64)
    ensures
        pair_count(js, a, b) == pair_count(js, b, a),
    decreases js.len(),
{
    if js.len() > 0 {
        lemma_pair_count_symmetric(js.drop_last(), a, b);
    }
}

/// The position in `agents` of the agent with `id`.
pub fn find_in(agents: &Vec<Agent>, id: u64) -> (r: Option<usize>)
    ensures
        match r {
            Some(i) => i < agents@.len() && agents@[i as int].id == id,
            None => !has_id(agents@, id),
        },
{
    let mut i: usize = 0;
    while i < agents.len()
        invariant
            0 <= i <= agents@.len(),
            forall|k: int| 0 <= k < i ==> agents@[k].id != id,
        decreases agents@.len() - i,
    {
        if agents[i].id == id {
            return Some(i);
        }
        i += 1;
    }
    None
}

pub(crate) fn sat_inc(a: u64) -> (r: u64)
    ensures
        r == sat_add_u64(a, 1),
{
    if a == u64::MAX {
        a
    } else {
        a + 1
    }
}

impl World {
    /// An empty arena.
    pub fn new() -> (r: World)
        ensures
            r@.agents.len() == 0,
            r@.joints.len() == 0,
            r@.next_id == 0,
            r@.frame == 0,
            r@.stats == (JointStats { created: 0, broke_1: 0, broke_5: 0, broke_30: 0 }),
            r@.wf(),
    {
        World {
            agents: Vec::new(),
            joints: Vec::new(),
            next_id: 0,
            frame: 0,
            stats: JointStats { created: 0, broke_1: 0, broke_5: 0, broke_30: 0 },
        }
    }

    /// The position of the agent with `id`.
    pub fn find_agent(&self, id: u64) -> (r: Option<usize>)
        ensures
            match r {
                Some(i) => i < self.agents@.len() && self.agents@[i as int].id == id,
                None => !has_id(self.agents@, id),
            },
    {
        find_in(&self.agents, id)
    }

    /// Number of joints with `id` at either end.
    pub fn count_joints(&self, id: u64) -> (r: u64)
        ensures
            r == joint_count(self.joints@, id),
    {
        let mut n: u64 = 0;
        let mut k: usize = 0;
        while k < self.joints.len()
            invariant
                0 <= k <= self.joints@.len(),
                n == joint_count(self.joints@.subrange(0, k as int), id),
                n <= k,
            decreases self.joints@.len() - k,
        {
            assert(self.joints@.subrange(0, k + 1).drop_last() =~= self.joints@.subrange(0, k as int));
            let j = self.joints[k];
            if j.parent == id || j.child == id {
                n += 1;
            }
            k += 1;
        }
        assert(self.joints@.subrange(0, k as int) =~= self.joints@);
        n
    }

    /// Number of joints between `a` and `b`, in either direction.
    pub fn count_pair_joints(&self, a: u64, b: u64) -> (r: u64)
        ensures
            r == pair_count(self.joints@, a, b),
    {
        let mut n: u64 = 0;
        let mut k: usize = 0;
        while k < self.joints.len()
            invariant
                0 <= k <= self.joints@.len(),
                n == pair_count(self.joints@.subrange(0, k as int), a, b),
                n <= k,
            decreases self.joints@.len() - k,
        {
            assert(self.joints@.subrange(0, k + 1).drop_last() =~= self.joints@.subrange(0, k as int));
            let j = self.joints[k];
            if (j.parent == a && j.child == b) || (j.parent == b && j.child == a) {
                n += 1;
            }
            k += 1;
        }
        assert(self.joints@.subrange(0, k as int) =~= self.joints@);
        n
    }

    /// Adds `ball` under a fresh id, unless ids are exhausted.
    pub fn spawn(&mut self, ball: Ball) -> (r: Option<u64>)
        requires
            old(self)@.wf(),
        ensures
            final(self)@.wf(),
            old(self)@.next_id < u64::MAX ==> r == Some(old(self)@.next_id) && final(self)@ == (WorldView {
                agents: old(self)@.agents.push(Agent { id: old(self)@.next_id, ball }),
                next_id: (old(self)@.next_id + 1) as u64,
                ..old(self)@
            }),
            old(self)@.next_id == u64::MAX ==> r is None && final(self)@ == old(self)@,
    {
        let ghost v = self@;
        if self.next_id == u64::MAX {
            return None;
        }
        let id = self.next_id;
        self.agents.push(Agent { id, ball });
        self.next_id = id + 1;
        proof {
            let s = self.agents@;
            assert forall|x: int, y: int| 0 <= x < s.len() && 0 <= y < s.len() && x != y implies s[x].id != s[y].id by {
                if x < v.agents.len() {
                    assert(s[x].id == v.agents[x].id);
                }
                if y < v.agents.len() {
                    assert(s[y].id == v.agents[y].id);
                }
            }
            assert forall|x: int| 0 <= x < s.len() implies (#[trigger] s[x]).id < self.next_id by {
                if x < v.agents.len() {
                    assert(s[x].id == v.agents[x].id);
                }
            }
            assert forall|k: int| 0 <= k < v.joints.len() implies has_id(s, (#[trigger] v.joints[k]).parent) && has_id(s, v.joints[k].child) by {
                assert(has_id(v.agents, v.joints[k].parent) && has_id(v.agents, v.joints[k].child));
                let p = choose|x: int| 0 <= x < v.agents.len() && v.agents[x].id == v.joints[k].parent;
                let c = choose|x: int| 0 <= x < v.agents.len() && v.agents[x].id == v.joints[k].child;
                assert(s[p].id == v.joints[k].parent);
                assert(s[c].id == v.joints[k].child);
            }
        }
        Some(id)
    }

    /// One tick, in a fixed order: drain pending tuning snapshots (the last
    /// wins), resolve contacts, break overstressed joints, then, when due, age
    /// and share energy, and reproduce. Every step reads the same tuning.
    pub fn tick(&mut self, tuning: &mut PhysicsTuning, pending: &Vec<PhysicsTuning>, input: &TickInput, rng: &mut StdRng) -> (r: TickReport)
        requires
            old(self)@.wf(),
        ensures
            final(self)@.wf(),
            r.tuning_replaced == (pending@.len() > 0),
            pending@.len() == 0 ==> *final(tuning) == *old(tuning),
            pending@.len() > 0 ==> *final(tuning) == pending@.last(),
            exists|share_draws: Seq<u32>, repro_draws: Seq<u32>, noises: Seq<MutationNoise>|
                (forall|k: int| 0 <= k < share_draws.len() ==> share_draws[k] < UNIT) && (forall|k: int|
                    0 <= k < repro_draws.len() ==> repro_draws[k] < UNIT) && (forall|k: int|
                    0 <= k < noises.len() ==> (#[trigger] noises[k]).in_bounds()) && (final(self)@, r.dead@, r.births@)
                    == tick_result(
                    old(self)@,
                    input.events@,
                    input.impulses@,
                    input.aging_due,
                    input.reproduction_due,
                    input.placed@,
                    *final(tuning),
                    share_draws,
                    repro_draws,
                    noises,
                ),
            r.contacts@.len() == input.events@.len(),
            forall|k: int| 0 <= k < input.events@.len() ==> r.contacts@[k] == contact_step(contacts_fold(old(self)@, input.events@.subrange(0, k), *final(tuning)), input.events@[k], *final(tuning)).1,
            r.broken == contacts_fold(old(self)@, input.events@, *final(tuning)).joints.len() - after_breaks(
                contacts_fold(old(self)@, input.events@, *final(tuning)),
                input.impulses@,
                *final(tuning),
            ).joints.len(),
            final(tuning).ranges_ok() && genomes_within(old(self)@.agents, *final(tuning)) ==> genomes_within(final(self)@.agents, *final(tuning)),
    {
        let ghost v0 = self@;
        let replaced = crate::tuning::apply_tuning_updates_system(tuning, pending);
        let t: PhysicsTuning = *tuning;
        let contacts = self.resolve_contacts(&input.events, &t);
        let broken = self.break_joints(&input.impulses, &t);
        let ghost v2 = self@;
        let ghost mut share_draws: Seq<u32> = Seq::empty();
        let ghost mut repro_draws: Seq<u32> = Seq::empty();
        let ghost mut noises: Seq<MutationNoise> = Seq::empty();
        let mut dead: Vec<u64> = Vec::new();
        if input.aging_due {
            dead = self.age_balls(&t);
            let ghost va = self@;
            self.share_energy(&t, rng);
            proof {
                share_draws = choose|draws: Seq<u32>|
                    draws.len() == va.joints.len() && (forall|k: int| 0 <= k < draws.len() ==> draws[k] < UNIT)
                        && self@.agents == share_fold(va.agents, va.joints, t, draws);
            }
            assert(self@ == after_aging(v2, t, share_draws));
        }
        let ghost v3 = self@;
        let mut births: Vec<Birth> = Vec::new();
        if input.reproduction_due {
            births = self.reproduce_balls(&input.placed, &t, rng);
            proof {
                let pair = choose|d: Seq<u32>, n: Seq<MutationNoise>|
                    (forall|k: int| 0 <= k < d.len() ==> d[k] < UNIT) && (forall|k: int|
                        0 <= k < n.len() ==> (#[trigger] n[k]).in_bounds()) && (self@, births@)
                        == reproduce_fold(v3, v3.agents.len(), d, input.placed@, n, t);
                repro_draws = pair.0;
                noises = pair.1;
            }
        }
        self.frame = sat_inc(self.frame);
        assert((self@, dead@, births@) == tick_result(
            v0,
            input.events@,
            input.impulses@,
            input.aging_due,
            input.reproduction_due,
            input.placed@,
            t,
            share_draws,
            repro_draws,
            noises,
        ));
        TickReport { tuning_replaced: replaced, contacts, broken, dead, births }
    }
}

} // verus!
