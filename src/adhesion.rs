//! The adhesion network: joints break under excess impulse, and go with
//! either endpoint when it is removed.

use vstd::prelude::*;
use crate::contact::{MAX_JOINTS, PAIRWISE_JOINTS_ALLOWED};
use crate::tuning::PhysicsTuning;
use crate::vector::Vector;
use crate::world::{Agent, Joint, JointStats, World, find_in, has_id, joint_count, joints_attached, lemma_counts_push, pair_count, sat_add_u64, sat_inc, sat_sub_u64};

verus! {

/// The joints of `js` whose two endpoints are both among `agents`, in their order.
pub open spec fn attached_joints(js: Seq<Joint>, agents: Seq<Agent>) -> Seq<Joint>
    decreases js.len(),
{
    if js.len() == 0 {
        Seq::empty()
    } else {
        let rest = attached_joints(js.drop_last(), agents);
        if has_id(agents, js.last().parent) && has_id(agents, js.last().child) {
            rest.push(js.last())
        } else {
            rest
        }
    }
}

/// Keeping only the joints whose endpoints both remain leaves no joint
/// dangling, never raises a joint count, and keeps exactly the joints whose
/// two endpoints remain.
pub proof fn lemma_attached_joints(js: Seq<Joint>, agents: Seq<Agent>)
    ensures
        joints_attached(agents, attached_joints(js, agents)),
        forall|id: u64| #[trigger] joint_count(attached_joints(js, agents), id) <= joint_count(js, id),
        forall|a: u64, b: u64| #[trigger] pair_count(attached_joints(js, agents), a, b) <= pair_count(js, a, b),
        forall|j: Joint| attached_joints(js, agents).contains(j) <==> (js.contains(j) && has_id(agents, j.parent) && has_id(agents, j.child)),
    decreases js.len(),
{
    if js.len() > 0 {
        let rest = attached_joints(js.drop_last(), agents);
        lemma_attached_joints(js.drop_last(), agents);
        lemma_counts_push(rest, js.last());
        assert(js.drop_last().push(js.last()) =~= js);
        assert forall|j: Joint| attached_joints(js, agents).contains(j) <==> (js.contains(j) && has_id(agents, j.parent) && has_id(agents, j.child)) by {
            if js.contains(j) {
                let k = choose|k: int| 0 <= k < js.len() && js[k] == j;
                if k < js.len() - 1 {
                    assert(js.drop_last()[k] == j);
                }
            }
            if js.drop_last().contains(j) {
                let k = choose|k: int| 0 <= k < js.drop_last().len() && js.drop_last()[k] == j;
                assert(js[k] == j);
            }
            if attached_joints(js, agents) != rest {
                if rest.contains(j) {
                    let k = choose|k: int| 0 <= k < rest.len() && rest[k] == j;
                    assert(rest.push(js.last())[k] == j);
                }
                if rest.push(js.last()).contains(j) && j != js.last() {
                    let k = choose|k: int| 0 <= k < rest.len() + 1 && rest.push(js.last())[k] == j;
                    assert(rest[k] == j);
                }
                assert(rest.push(js.last())[rest.len() as int] == js.last());
            }
        }
        let r = attached_joints(js, agents);
        assert forall|k: int| 0 <= k < r.len() implies has_id(agents, (#[trigger] r[k]).parent) && has_id(agents, r[k].child) by {
            if k < rest.len() {
                assert(r[k] == rest[k]);
            }
        }
    }
}

/// A removal pass leaves no joint dangling: a joint stays exactly when both
/// of its endpoints stay.
pub proof fn lemma_no_dangling_joints(js: Seq<Joint>, agents: Seq<Agent>)
    ensures
        joints_attached(agents, attached_joints(js, agents)),
        forall|j: Joint| attached_joints(js, agents).contains(j) <==> (js.contains(j) && has_id(agents, j.parent) && has_id(agents, j.child)),
{
    lemma_attached_joints(js, agents);
}

/// The joints of `js` whose endpoints are both among `agents`.
pub(crate) fn keep_attached(js: &Vec<Joint>, agents: &Vec<Agent>) -> (r: Vec<Joint>)
    ensures
        r@ == attached_joints(js@, agents@),
{
    let mut out: Vec<Joint> = Vec::new();
    let mut k: usize = 0;
    while k < js.len()
        invariant
            0 <= k <= js@.len(),
            out@ == attached_joints(js@.subrange(0, k as int), agents@),
        decreases js@.len() - k,
    {
        assert(js@.subrange(0, k + 1).drop_last() =~= js@.subrange(0, k as int));
        assert(js@.subrange(0, k + 1).last() == js@[k as int]);
        let j = js[k];
        let p = find_in(agents, j.parent);
        let c = find_in(agents, j.child);
        if p.is_some() && c.is_some() {
            out.push(j);
        }
        k += 1;
    }
    assert(js@.subrange(0, k as int) =~= js@);
    out
}

/// A joint breaks when its readback impulse is longer than the threshold.
pub open spec fn breaks(imps: Seq<Option<Vector>>, k: int, thr: u64) -> bool {
    0 <= k < imps.len() && imps[k] is Some && imps[k]->0.len_sq() > thr * thr
}

/// The joints of `js` that do not break, in their order.
pub open spec fn unbroken(js: Seq<Joint>, imps: Seq<Option<Vector>>, thr: u64) -> Seq<Joint>
    decreases js.len(),
{
    if js.len() == 0 {
        Seq::empty()
    } else {
        let rest = unbroken(js.drop_last(), imps, thr);
        if breaks(imps, js.len() - 1, thr) {
            rest
        } else {
            rest.push(js.last())
        }
    }
}

/// `s` after recording one break of a joint of age `age`.
pub open spec fn record_break(s: JointStats, age: u64) -> JointStats {
    JointStats {
        created: s.created,
        broke_1: if age <= 1 { sat_add_u64(s.broke_1, 1) } else { s.broke_1 },
        broke_5: if age <= 5 { sat_add_u64(s.broke_5, 1) } else { s.broke_5 },
        broke_30: if age <= 30 { sat_add_u64(s.broke_30, 1) } else { s.broke_30 },
    }
}

/// `s` after recording every break among `js` at frame `frame`.
pub open spec fn stats_after_breaks(s: JointStats, js: Seq<Joint>, imps: Seq<Option<Vector>>, thr: u64, frame: u64) -> JointStats
    decreases js.len(),
{
    if js.len() == 0 {
        s
    } else {
        let rest = stats_after_breaks(s, js.drop_last(), imps, thr, frame);
        if breaks(imps, js.len() - 1, thr) {
            record_break(rest, sat_sub_u64(frame, js.last().born))
        } else {
            rest
        }
    }
}

/// Dropping broken joints keeps every remaining joint and never raises a count.
pub proof fn lemma_unbroken(js: Seq<Joint>, imps: Seq<Option<Vector>>, thr: u64)
    ensures
        forall|k: int| 0 <= k < unbroken(js, imps, thr).len() ==> js.contains(#[trigger] unbroken(js, imps, thr)[k]),
        forall|id: u64| #[trigger] joint_count(unbroken(js, imps, thr), id) <= joint_count(js, id),
        forall|a: u64, b: u64| #[trigger] pair_count(unbroken(js, imps, thr), a, b) <= pair_count(js, a, b),
    decreases js.len(),
{
    if js.len() > 0 {
        let rest = unbroken(js.drop_last(), imps, thr);
        lemma_unbroken(js.drop_last(), imps, thr);
        lemma_counts_push(rest, js.last());
        let r = unbroken(js, imps, thr);
        assert forall|k: int| 0 <= k < r.len() implies js.contains(#[trigger] r[k]) by {
            if k < rest.len() {
                assert(r[k] == rest[k]);
                let m = choose|m: int| 0 <= m < js.drop_last().len() && js.drop_last()[m] == rest[k];
                assert(js[m] == rest[k]);
            } else {
                assert(js[js.len() - 1] == js.last());
            }
        }
    }
}

impl World {
    /// Breaks every joint whose readback impulse (the `k`-th entry for the
    /// `k`-th joint; `None` or a missing entry means no readback) is longer
    /// than the break threshold, and records each break by the joint's age.
    pub fn break_joints(&mut self, impulses: &Vec<Option<Vector>>, t: &PhysicsTuning) -> (r: usize)
        requires
            old(self)@.wf(),
        ensures
            final(self)@.wf(),
            final(self)@.joints == unbroken(old(self)@.joints, impulses@, t.break_force_threshold),
            final(self)@.stats == stats_after_breaks(old(self)@.stats, old(self)@.joints, impulses@, t.break_force_threshold, old(self)@.frame),
            final(self)@.agents == old(self)@.agents,
            final(self)@.next_id == old(self)@.next_id,
            final(self)@.frame == old(self)@.frame,
            r == old(self)@.joints.len() - final(self)@.joints.len(),
    {
        let ghost v = self@;
        let thr = t.break_force_threshold;
        let mut kept: Vec<Joint> = Vec::new();
        let mut stats = self.stats;
        let mut k: usize = 0;
        while k < self.joints.len()
            invariant
                0 <= k <= self.joints@.len(),
                self@ == v,
                kept@ == unbroken(v.joints.subrange(0, k as int), impulses@, thr),
                stats == stats_after_breaks(v.stats, v.joints.subrange(0, k as int), impulses@, thr, v.frame),
                kept@.len() <= k,
            decreases self.joints@.len() - k,
        {
            assert(v.joints.subrange(0, k + 1).drop_last() =~= v.joints.subrange(0, k as int));
            assert(v.joints.subrange(0, k + 1).last() == v.joints[k as int]);
            let j = self.joints[k];
            let broke = if k < impulses.len() {
                match impulses[k] {
                    Some(imp) => imp.longer_than(thr),
                    None => false,
                }
            } else {
                false
            };
            if broke {
                let age: u64 = if self.frame >= j.born {
                    self.frame - j.born
                } else {
                    0
                };
                if age <= 1 {
                    stats.broke_1 = sat_inc(stats.broke_1);
                }
                if age <= 5 {
                    stats.broke_5 = sat_inc(stats.broke_5);
                }
                if age <= 30 {
                    stats.broke_30 = sat_inc(stats.broke_30);
                }
            } else {
                kept.push(j);
            }
            k += 1;
        }
        assert(v.joints.subrange(0, k as int) =~= v.joints);
        proof {
            lemma_unbroken(v.joints, impulses@, thr);
            let r = kept@;
            assert forall|k: int| 0 <= k < r.len() implies has_id(v.agents, (#[trigger] r[k]).parent) && has_id(v.agents, r[k].child) by {
                assert(v.joints.contains(r[k]));
                let m = choose|m: int| 0 <= m < v.joints.len() && v.joints[m] == r[k];
                assert(has_id(v.agents, v.joints[m].parent) && has_id(v.agents, v.joints[m].child));
            }
            assert forall|id: u64| #[trigger] joint_count(r, id) <= MAX_JOINTS as nat + 1 by {
                assert(joint_count(v.joints, id) <= MAX_JOINTS as nat + 1);
            }
            assert forall|a: u64, b: u64| #[trigger] pair_count(r, a, b) <= PAIRWISE_JOINTS_ALLOWED as nat by {
                assert(pair_count(v.joints, a, b) <= PAIRWISE_JOINTS_ALLOWED as nat);
            }
        }
        let n = self.joints.len() - kept.len();
        self.joints = kept;
        self.stats = stats;
        n
    }
}

} // verus!
