//! Planned deliveries of one broadcast and the accounting of their outcomes.
//!
//! A broadcast is executed in two steps: the registry produces one planned
//! delivery per currently connected subscriber (see
//! `registry::Registry::plan_broadcast`), and the transport layer attempts
//! each delivery independently, reporting one outcome per delivery. One failed
//! delivery never suppresses another subscriber's delivery.

use vstd::prelude::*;

use crate::messages::SerialMessage;

verus! {

/// One planned delivery of a broadcast: the target subscriber id and its own
/// copy of the payload bytes.
#[derive(Debug, PartialEq, Eq)]
pub struct Delivery {
    pub id: usize,
    pub message: SerialMessage,
}

/// The ids of the deliveries that succeeded, given one outcome per delivery,
/// in plan order.
pub open spec fn delivered_ids_spec(plan: Seq<Delivery>, ok: Seq<bool>) -> Seq<usize>
    decreases plan.len(),
{
    if plan.len() == 0 || ok.len() == 0 {
        Seq::empty()
    } else if ok.first() {
        seq![plan.first().id] + delivered_ids_spec(plan.drop_first(), ok.drop_first())
    } else {
        delivered_ids_spec(plan.drop_first(), ok.drop_first())
    }
}

/// The ids of the deliveries that failed, given one outcome per delivery, in
/// plan order.
pub open spec fn failed_ids_spec(plan: Seq<Delivery>, ok: Seq<bool>) -> Seq<usize>
    decreases plan.len(),
{
    if plan.len() == 0 || ok.len() == 0 {
        Seq::empty()
    } else if ok.first() {
        failed_ids_spec(plan.drop_first(), ok.drop_first())
    } else {
        seq![plan.first().id] + failed_ids_spec(plan.drop_first(), ok.drop_first())
    }
}

proof fn lemma_outcome_ids_push(plan: Seq<Delivery>, ok: Seq<bool>, d: Delivery, b: bool)
    requires
        plan.len() == ok.len(),
    ensures
        delivered_ids_spec(plan.push(d), ok.push(b)) == delivered_ids_spec(plan, ok)
            + (if b { seq![d.id] } else { Seq::<usize>::empty() }),
        failed_ids_spec(plan.push(d), ok.push(b)) == failed_ids_spec(plan, ok)
            + (if !b { seq![d.id] } else { Seq::<usize>::empty() }),
    decreases plan.len(),
{
    if plan.len() == 0 {
        assert(plan.push(d).drop_first() =~= plan);
        assert(ok.push(b).drop_first() =~= ok);
        if b {
            assert(delivered_ids_spec(plan.push(d), ok.push(b))
                =~= delivered_ids_spec(plan, ok) + seq![d.id]);
            assert(failed_ids_spec(plan.push(d), ok.push(b))
                =~= failed_ids_spec(plan, ok) + Seq::<usize>::empty());
        } else {
            assert(delivered_ids_spec(plan.push(d), ok.push(b))
                =~= delivered_ids_spec(plan, ok) + Seq::<usize>::empty());
            assert(failed_ids_spec(plan.push(d), ok.push(b))
                =~= failed_ids_spec(plan, ok) + seq![d.id]);
        }
    } else {
        assert(plan.push(d).drop_first() =~= plan.drop_first().push(d));
        assert(ok.push(b).drop_first() =~= ok.drop_first().push(b));
        lemma_outcome_ids_push(plan.drop_first(), ok.drop_first(), d, b);
        if ok.first() {
            assert(delivered_ids_spec(plan.push(d), ok.push(b))
                =~= delivered_ids_spec(plan, ok)
                    + (if b { seq![d.id] } else { Seq::<usize>::empty() }));
            assert(failed_ids_spec(plan.push(d), ok.push(b))
                =~= failed_ids_spec(plan, ok)
                    + (if !b { seq![d.id] } else { Seq::<usize>::empty() }));
        } else {
            assert(delivered_ids_spec(plan.push(d), ok.push(b))
                =~= delivered_ids_spec(plan, ok)
                    + (if b { seq![d.id] } else { Seq::<usize>::empty() }));
            assert(failed_ids_spec(plan.push(d), ok.push(b))
                =~= failed_ids_spec(plan, ok)
                    + (if !b { seq![d.id] } else { Seq::<usize>::empty() }));
        }
    }
}

/// The ids of the deliveries that succeeded, in plan order.
pub fn delivered_ids(plan: &Vec<Delivery>, ok: &Vec<bool>) -> (r: Vec<usize>)
    requires
        plan@.len() == ok@.len(),
    ensures
        r@ == delivered_ids_spec(plan@, ok@),
{
    let mut r: Vec<usize> = Vec::new();
    let mut i: usize = 0;
    while i < plan.len()
        invariant
            i <= plan@.len(),
            plan@.len() == ok@.len(),
            r@ == delivered_ids_spec(plan@.take(i as int), ok@.take(i as int)),
        decreases plan@.len() - i,
    {
        proof {
            assert(plan@.take(i + 1) =~= plan@.take(i as int).push(plan@[i as int]));
            assert(ok@.take(i + 1) =~= ok@.take(i as int).push(ok@[i as int]));
            lemma_outcome_ids_push(plan@.take(i as int), ok@.take(i as int), plan@[i as int],
                ok@[i as int]);
        }
        if ok[i] {
            r.push(plan[i].id);
        }
        proof {
            if ok@[i as int] {
                assert(r@ =~= delivered_ids_spec(plan@.take(i as int), ok@.take(i as int))
                    + seq![plan@[i as int].id]);
            } else {
                assert(r@ =~= delivered_ids_spec(plan@.take(i as int), ok@.take(i as int))
                    + Seq::<usize>::empty());
            }
        }
        i = i + 1;
    }
    proof {
        assert(plan@.take(plan@.len() as int) =~= plan@);
        assert(ok@.take(ok@.len() as int) =~= ok@);
    }
    r
}

/// The ids of the deliveries that failed, in plan order; the caller logs them
/// and leaves cleanup to the affected sessions.
pub fn failed_ids(plan: &Vec<Delivery>, ok: &Vec<bool>) -> (r: Vec<usize>)
    requires
        plan@.len() == ok@.len(),
    ensures
        r@ == failed_ids_spec(plan@, ok@),
{
    let mut r: Vec<usize> = Vec::new();
    let mut i: usize = 0;
    while i < plan.len()
        invariant
            i <= plan@.len(),
            plan@.len() == ok@.len(),
            r@ == failed_ids_spec(plan@.take(i as int), ok@.take(i as int)),
        decreases plan@.len() - i,
    {
        proof {
            assert(plan@.take(i + 1) =~= plan@.take(i as int).push(plan@[i as int]));
            assert(ok@.take(i + 1) =~= ok@.take(i as int).push(ok@[i as int]));
            lemma_outcome_ids_push(plan@.take(i as int), ok@.take(i as int), plan@[i as int],
                ok@[i as int]);
        }
        if !ok[i] {
            r.push(plan[i].id);
        }
        proof {
            if !ok@[i as int] {
                assert(r@ =~= failed_ids_spec(plan@.take(i as int), ok@.take(i as int))
                    + seq![plan@[i as int].id]);
            } else {
                assert(r@ =~= failed_ids_spec(plan@.take(i as int), ok@.take(i as int))
                    + Seq::<usize>::empty());
            }
        }
        i = i + 1;
    }
    proof {
        assert(plan@.take(plan@.len() as int) =~= plan@);
        assert(ok@.take(ok@.len() as int) =~= ok@);
    }
    r
}

/// A delivery whose own outcome is success is among the delivered ids,
/// whatever the other outcomes were.
pub proof fn lemma_delivered_when_ok(plan: Seq<Delivery>, ok: Seq<bool>, i: int)
    requires
        plan.len() == ok.len(),
        0 <= i < plan.len(),
        ok[i],
    ensures
        delivered_ids_spec(plan, ok).contains(plan[i].id),
    decreases plan.len(),
{
    if i == 0 {
        assert(delivered_ids_spec(plan, ok)[0] == plan[0].id);
    } else {
        lemma_delivered_when_ok(plan.drop_first(), ok.drop_first(), i - 1);
        let rest = delivered_ids_spec(plan.drop_first(), ok.drop_first());
        let k = choose|k: int| 0 <= k < rest.len() && rest[k] == plan.drop_first()[i - 1].id;
        if ok.first() {
            assert(delivered_ids_spec(plan, ok)[k + 1] == plan[i].id);
        } else {
            assert(delivered_ids_spec(plan, ok)[k] == plan[i].id);
        }
    }
}

/// Fault isolation: if one subscriber's delivery fails, every other delivery
/// whose own outcome is success still reaches its subscriber.
pub proof fn lemma_fault_isolation(plan: Seq<Delivery>, ok: Seq<bool>, i: int, j: int)
    requires
        plan.len() == ok.len(),
        0 <= i < plan.len(),
        0 <= j < plan.len(),
        i != j,
        ok[i],
        !ok[j],
    ensures
        delivered_ids_spec(plan, ok).contains(plan[i].id),
{
    lemma_delivered_when_ok(plan, ok, i);
}

} // verus!
