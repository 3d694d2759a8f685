//! The lifecycle laws of the engine, proved over the store's view.
//!
//! The state-changing operations act on the ledger as three view-level
//! steps: a sweep, a stop, and an append of freshly created records (the
//! owner-transfer operation does not touch the ledger). The laws here hold
//! over every sequence of such steps, so they hold over every history of
//! the engine.

use vstd::prelude::*;

use crate::contract::{spec_after_sweep, spec_payable, spec_stop_store, spec_sweep_msgs, spec_sweep_store};
use crate::msg::{Env, TransferMsg};
use crate::state::PaymentState;

verus! {

/// One view-level step of the ledger: what a sweep at a reference point, a
/// stop of an id, or an append of new records leaves of the record
/// sequence.
pub enum LedgerOp {
    Sweep(Env),
    Stop(u64),
    Append(Seq<PaymentState>),
}

/// The record sequence after one step.
pub open spec fn spec_apply_op(s: Seq<PaymentState>, op: LedgerOp) -> Seq<PaymentState> {
    match op {
        LedgerOp::Sweep(env) => spec_sweep_store(s, env),
        LedgerOp::Stop(id) => spec_stop_store(s, id),
        LedgerOp::Append(t) => s + t,
    }
}

/// The record sequence after a whole history of steps, applied in order.
pub open spec fn spec_apply_ops(s: Seq<PaymentState>, ops: Seq<LedgerOp>) -> Seq<PaymentState>
    decreases ops.len(),
{
    if ops.len() == 0 {
        s
    } else {
        spec_apply_op(spec_apply_ops(s, ops.drop_last()), ops.last())
    }
}

/// Law (idempotence): once a sweep has selected an obligation and marked it
/// paid, no later sweep, at any reference point, selects it again, and a
/// later sweep leaves it exactly as it stands.
pub proof fn lemma_sweep_idempotent(s: Seq<PaymentState>, env1: Env, env2: Env)
    ensures
        forall|i: int|
            0 <= i < s.len() && #[trigger] spec_payable(s[i], env1) ==> {
                let s1 = spec_sweep_store(s, env1);
                !spec_payable(s1[i], env2) && spec_after_sweep(s1[i], env2) == s1[i]
            },
{
}

/// Law (re-sweep is a no-op): running a second sweep at the same reference
/// point emits no instruction at all and changes no record.
pub proof fn lemma_resweep_noop(s: Seq<PaymentState>, env: Env)
    ensures
        spec_sweep_msgs(spec_sweep_store(s, env), env) == Seq::<TransferMsg>::empty(),
        spec_sweep_store(spec_sweep_store(s, env), env) == spec_sweep_store(s, env),
    decreases s.len(),
{
    let s1 = spec_sweep_store(s, env);
    assert(spec_sweep_store(s1, env) =~= s1);
    if s.len() == 0 {
        assert(s1 =~= Seq::<PaymentState>::empty());
    } else {
        lemma_resweep_noop(s.drop_last(), env);
        assert(s1.drop_last() =~= spec_sweep_store(s.drop_last(), env));
        assert(!spec_payable(s1.last(), env));
        assert(spec_sweep_msgs(s1, env) == spec_sweep_msgs(s1.drop_last(), env));
    }
}

/// One step never clears the paid latch of an existing record, and never
/// shortens the ledger.
pub proof fn lemma_op_keeps_paid(s: Seq<PaymentState>, op: LedgerOp, i: int)
    requires
        0 <= i < s.len(),
    ensures
        spec_apply_op(s, op).len() >= s.len(),
        s[i].paid ==> spec_apply_op(s, op)[i].paid,
{
}

/// No history of steps ever clears the paid latch of an existing record,
/// and none shortens the ledger.
pub proof fn lemma_ops_keep_paid(s: Seq<PaymentState>, ops: Seq<LedgerOp>, i: int)
    requires
        0 <= i < s.len(),
    ensures
        spec_apply_ops(s, ops).len() >= s.len(),
        s[i].paid ==> spec_apply_ops(s, ops)[i].paid,
    decreases ops.len(),
{
    if ops.len() > 0 {
        lemma_ops_keep_paid(s, ops.drop_last(), i);
        lemma_op_keeps_paid(spec_apply_ops(s, ops.drop_last()), ops.last(), i);
    }
}

/// Applying a history in two parts is applying it whole.
pub proof fn lemma_apply_ops_concat(s: Seq<PaymentState>, a: Seq<LedgerOp>, b: Seq<LedgerOp>)
    ensures
        spec_apply_ops(s, a + b) == spec_apply_ops(spec_apply_ops(s, a), b),
    decreases b.len(),
{
    if b.len() == 0 {
        assert(a + b =~= a);
    } else {
        lemma_apply_ops_concat(s, a, b.drop_last());
        assert((a + b).drop_last() =~= a + b.drop_last());
        assert((a + b).last() == b.last());
    }
}

/// Law (exactly-once selection): across any history of engine steps, at
/// most one sweep ever selects a given obligation. Since a sweep emits
/// exactly one instruction per record it selects, the whole lifetime of an
/// obligation produces at most one transfer instruction for it.
pub proof fn lemma_sweep_exactly_once(
    s: Seq<PaymentState>,
    ops: Seq<LedgerOp>,
    k1: int,
    k2: int,
    env1: Env,
    env2: Env,
    i: int,
)
    requires
        0 <= k1 < k2 <= ops.len(),
        ops[k1] == LedgerOp::Sweep(env1),
        0 <= i < s.len(),
    ensures
        !(spec_payable(spec_apply_ops(s, ops.take(k1))[i], env1) && spec_payable(
            spec_apply_ops(s, ops.take(k2))[i],
            env2,
        )),
{
    lemma_ops_keep_paid(s, ops.take(k1), i);
    let s1 = spec_apply_ops(s, ops.take(k1));
    if spec_payable(s1[i], env1) {
        assert(ops.take(k1 + 1).drop_last() =~= ops.take(k1));
        assert(ops.take(k1 + 1).last() == ops[k1]);
        let s2 = spec_apply_ops(s, ops.take(k1 + 1));
        assert(s2 == spec_sweep_store(s1, env1));
        assert(s2[i].paid);
        assert(ops.take(k1 + 1) + ops.subrange(k1 + 1, k2) =~= ops.take(k2));
        lemma_apply_ops_concat(s, ops.take(k1 + 1), ops.subrange(k1 + 1, k2));
        lemma_ops_keep_paid(s2, ops.subrange(k1 + 1, k2), i);
        assert(spec_apply_ops(s, ops.take(k2))[i].paid);
    }
}

} // verus!
