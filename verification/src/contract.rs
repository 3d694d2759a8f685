//! The disbursement engine: the operations over the obligation store and the
//! authorization and eligibility rules that govern them.
//!
//! Every operation is a single synchronous step: read the needed records,
//! decide the outcome, write the new state, and return zero or more transfer
//! instructions for the external asset-transfer executor. A rejected
//! operation writes nothing.

use vstd::prelude::*;

use crate::error::ContractError;
use crate::msg::{
    Asset, ConfigResponse, Env, ExecuteMsg, InstantiateMsg, Payment, PaymentsResponse, QueryMsg,
    QueryResponse, TransferMsg, spec_is_expired,
};
use crate::state::{
    Config, PaymentState, Store, contains_id, find_slot, lemma_find_slot_of_member,
    lemma_put_fresh, record_of,
};

verus! {

/// Payable at `env`: not yet paid, not stopped, and the trigger expired.
pub open spec fn spec_payable(p: PaymentState, env: Env) -> bool {
    !p.paid && !p.stopped && spec_is_expired(p.payment.time, env)
}

/// The one transfer instruction a payment gives rise to, addressed to `to`:
/// a native transfer for a native asset, a call of the token contract's
/// transfer entry point for a token asset.
pub open spec fn spec_transfer_msg(to: String, asset: Asset) -> TransferMsg {
    match asset {
        Asset::Native { denom, amount } => TransferMsg::Native { to_address: to, denom, amount },
        Asset::Token { address, amount } => TransferMsg::Token {
            contract_addr: address,
            recipient: to,
            amount,
        },
    }
}

/// What a sweep leaves of one record: marked paid when payable, untouched
/// otherwise.
pub open spec fn spec_after_sweep(p: PaymentState, env: Env) -> PaymentState {
    if spec_payable(p, env) {
        PaymentState { paid: true, ..p }
    } else {
        p
    }
}

/// The whole store after a sweep at `env`.
pub open spec fn spec_sweep_store(s: Seq<PaymentState>, env: Env) -> Seq<PaymentState> {
    Seq::new(s.len(), |i: int| spec_after_sweep(s[i], env))
}

/// The instructions a sweep of `s` at `env` emits: exactly one per payable
/// record, in ascending id order (store order), each addressed to the
/// record's own recipient.
pub open spec fn spec_sweep_msgs(s: Seq<PaymentState>, env: Env) -> Seq<TransferMsg>
    decreases s.len(),
{
    if s.len() == 0 {
        Seq::empty()
    } else {
        let rest = spec_sweep_msgs(s.drop_last(), env);
        if spec_payable(s.last(), env) {
            rest.push(spec_transfer_msg(s.last().payment.recipient, s.last().payment.asset))
        } else {
            rest
        }
    }
}

/// A freshly created obligation record: unpaid, unstopped, stamped `id`.
pub open spec fn spec_new_record(p: Payment, id: u64) -> PaymentState {
    PaymentState { payment: p, paid: false, stopped: false, id }
}

/// Ids are dense: the store holds exactly the records with ids
/// `1 ..= payment_count`, in order. Initialization establishes this and
/// every operation preserves it: ids are allocated consecutively, never
/// skipped and never reused.
pub open spec fn spec_ids_dense(store: Store) -> bool {
    &&& store.payments@.len() == store.payment_count
    &&& forall|i: int|
        0 <= i < store.payments@.len() ==> (#[trigger] store.payments@[i]).id == i + 1
}

/// Appends one obligation per schedule entry, each with a freshly allocated
/// id — the creation path that initialization and the add-obligations
/// operation share. Existing records are untouched; the new records are
/// unpaid, unstopped, and take the consecutive ids that continue the
/// allocator's sequence.
pub fn append_schedule(store: &mut Store, schedule: &Vec<Payment>)
    requires
        old(store).wf(),
        old(store).payment_count + schedule@.len() <= u64::MAX,
    ensures
        final(store).wf(),
        final(store).payment_count == old(store).payment_count + schedule@.len(),
        final(store).payments@.len() == old(store).payments@.len() + schedule@.len(),
        forall|j: int|
            0 <= j < old(store).payments@.len() ==> #[trigger] final(store).payments@[j] == old(
                store,
            ).payments@[j],
        forall|k: int|
            0 <= k < schedule@.len() ==> #[trigger] final(store).payments@[old(
                store,
            ).payments@.len() + k] == spec_new_record(
                schedule@[k],
                (old(store).payment_count + k + 1) as u64,
            ),
{
    let n = schedule.len();
    let mut k: usize = 0;
    while k < n
        invariant
            0 <= k <= n,
            n == schedule@.len(),
            store.wf(),
            old(store).wf(),
            old(store).payment_count + n <= u64::MAX,
            store.payment_count == old(store).payment_count + k,
            store.payments@.len() == old(store).payments@.len() + k,
            forall|j: int|
                0 <= j < old(store).payments@.len() ==> #[trigger] store.payments@[j] == old(
                    store,
                ).payments@[j],
            forall|j: int|
                0 <= j < k ==> #[trigger] store.payments@[old(store).payments@.len() + j]
                    == spec_new_record(
                    schedule@[j],
                    (old(store).payment_count + j + 1) as u64,
                ),
        decreases n - k,
    {
        let ghost pre = *store;
        let id = store.next_id();
        let rec = PaymentState {
            payment: schedule[k].clone(),
            paid: false,
            stopped: false,
            id,
        };
        proof {
            assert forall|j: int| 0 <= j < store.payments@.len() implies (
            #[trigger] store.payments@[j]).id < rec.id by {
                assert(store.payments@[j] == pre.payments@[j]);
                assert(pre.payments@[j].id <= pre.payment_count);
            }
            lemma_put_fresh(store.payments@, rec);
        }
        store.put(rec);
        k = k + 1;
    }
}

/// Sets the owner and stores the initial schedule: one obligation per
/// entry, unpaid and unstopped, with ids 1, 2, ... in schedule order. No
/// transfer instructions are emitted — obligations are only disbursed once
/// their trigger has expired.
pub fn instantiate(msg: InstantiateMsg) -> (r: (Config, Store))
    requires
        msg.schedule@.len() <= u64::MAX,
    ensures
        r.0.owner == msg.owner,
        r.1.wf(),
        spec_ids_dense(r.1),
        r.1.payment_count == msg.schedule@.len(),
        r.1.payments@.len() == msg.schedule@.len(),
        forall|k: int|
            0 <= k < msg.schedule@.len() ==> #[trigger] r.1.payments@[k] == spec_new_record(
                msg.schedule@[k],
                (k + 1) as u64,
            ),
{
    let config = Config { owner: msg.owner };
    let mut store = Store::new();
    append_schedule(&mut store, &msg.schedule);
    proof {
        assert forall|k: int|
            0 <= k < msg.schedule@.len() implies #[trigger] store.payments@[k] == spec_new_record(
            msg.schedule@[k],
            (k + 1) as u64,
        ) by {
            assert(store.payments@[0 + k] == spec_new_record(
                msg.schedule@[k],
                (0 + k + 1) as u64,
            ));
        }
        assert(spec_ids_dense(store));
    }
    (config, store)
}

/// Adds obligations to the schedule. Owner-only; a rejected call changes
/// nothing. On success this is exactly the incremental half of
/// initialization: fresh consecutive ids, existing obligations untouched,
/// no transfer instructions.
pub fn execute_add_payments(
    sender: &String,
    config: &Config,
    store: &mut Store,
    schedule: Vec<Payment>,
) -> (r: Result<Vec<TransferMsg>, ContractError>)
    requires
        old(store).wf(),
        old(store).payment_count + schedule@.len() <= u64::MAX,
    ensures
        final(store).wf(),
        sender@ != config.owner@ ==> r == Err::<Vec<TransferMsg>, ContractError>(
            ContractError::Unauthorized,
        ) && *final(store) == *old(store),
        sender@ == config.owner@ ==> {
            &&& r matches Ok(msgs) && msgs@ == Seq::<TransferMsg>::empty()
            &&& final(store).payment_count == old(store).payment_count + schedule@.len()
            &&& final(store).payments@.len() == old(store).payments@.len() + schedule@.len()
            &&& forall|j: int|
                0 <= j < old(store).payments@.len() ==> #[trigger] final(store).payments@[j]
                    == old(store).payments@[j]
            &&& forall|k: int|
                0 <= k < schedule@.len() ==> #[trigger] final(store).payments@[old(
                    store,
                ).payments@.len() + k] == spec_new_record(
                    schedule@[k],
                    (old(store).payment_count + k + 1) as u64,
                )
            &&& spec_ids_dense(*old(store)) ==> spec_ids_dense(*final(store))
        },
{
    if !(*sender == config.owner) {
        return Err(ContractError::Unauthorized);
    }
    append_schedule(store, &schedule);
    let msgs: Vec<TransferMsg> = Vec::new();
    proof {
        assert(msgs@ =~= Seq::<TransferMsg>::empty());
        if spec_ids_dense(*old(store)) {
            let olen = old(store).payments@.len() as int;
            assert forall|i: int|
                0 <= i < store.payments@.len() implies (#[trigger] store.payments@[i]).id == i
                + 1 by {
                if i < olen {
                    assert(store.payments@[i] == old(store).payments@[i]);
                } else {
                    let k = i - olen;
                    assert(store.payments@[olen + k] == spec_new_record(
                        schedule@[k],
                        (old(store).payment_count + k + 1) as u64,
                    ));
                }
            }
            assert(spec_ids_dense(*store));
        }
    }
    Ok(msgs)
}

/// Sweeps the store: selects every obligation payable at `env` — unpaid,
/// unstopped, trigger expired — in ascending id order, emits exactly one
/// transfer instruction per selected obligation, and marks each selected
/// obligation paid. The selection and the marking read the same record, so
/// the two agree; a record once paid is never selected again. Callable by
/// anyone: it only ever moves funds to their already-designated recipients.
/// A sweep that selects nothing is a valid no-op.
pub fn execute_pay(config: &Config, store: &mut Store, env: &Env) -> (msgs: Vec<TransferMsg>)
    requires
        old(store).wf(),
    ensures
        final(store).wf(),
        final(store).payment_count == old(store).payment_count,
        final(store).payments@ == spec_sweep_store(old(store).payments@, *env),
        msgs@ == spec_sweep_msgs(old(store).payments@, *env),
        spec_ids_dense(*old(store)) ==> spec_ids_dense(*final(store)),
{
    let ghost s = old(store).payments@;
    let n = store.payments.len();
    let mut msgs: Vec<TransferMsg> = Vec::new();
    proof {
        assert(msgs@ =~= spec_sweep_msgs(s.take(0), *env));
    }
    let mut i: usize = 0;
    while i < n
        invariant
            0 <= i <= n,
            n == store.payments@.len(),
            n == s.len(),
            store.payment_count == old(store).payment_count,
            forall|j: int| 0 <= j < i ==> store.payments@[j] == spec_after_sweep(s[j], *env),
            forall|j: int| i <= j < n ==> store.payments@[j] == s[j],
            msgs@ == spec_sweep_msgs(s.take(i as int), *env),
        decreases n - i,
    {
        let rec = store.payments[i].clone();
        let payable = !rec.paid && !rec.stopped && rec.payment.time.is_expired(env);
        proof {
            assert(rec == s[i as int]);
            assert(payable == spec_payable(s[i as int], *env));
        }
        if payable {
            let m = get_send_tokens_message(config, &rec.payment, false);
            msgs.push(m);
            let paid_rec = PaymentState {
                payment: rec.payment,
                paid: true,
                stopped: rec.stopped,
                id: rec.id,
            };
            store.payments[i] = paid_rec;
        }
        proof {
            assert(s.take(i + 1).drop_last() =~= s.take(i as int));
            assert(s.take(i + 1).last() == s[i as int]);
            assert(msgs@ == spec_sweep_msgs(s.take(i + 1), *env));
        }
        i = i + 1;
    }
    proof {
        assert(s.take(n as int) =~= s);
        assert(store.payments@ =~= spec_sweep_store(s, *env));
        assert forall|a: int, b: int|
            0 <= a < b < store.payments@.len() implies store.payments@[a].id
            < store.payments@[b].id by {
            assert(s[a].id < s[b].id);
        }
        assert forall|a: int|
            0 <= a < store.payments@.len() implies 1 <= (#[trigger] store.payments@[a]).id
            <= store.payment_count by {
            assert(1 <= s[a].id <= old(store).payment_count);
        }
        if spec_ids_dense(*old(store)) {
            assert(spec_ids_dense(*store));
        }
    }
    msgs
}

/// What a stop leaves of the whole store: the record carrying `id` gains
/// the stopped latch when it exists and is still stoppable (neither paid
/// nor stopped); every other record, and the record in every error case, is
/// untouched.
pub open spec fn spec_stop_store(s: Seq<PaymentState>, id: u64) -> Seq<PaymentState> {
    Seq::new(
        s.len(),
        |i: int|
            if s[i].id == id && !s[i].paid && !s[i].stopped {
                PaymentState { stopped: true, ..s[i] }
            } else {
                s[i]
            },
    )
}

/// The error a stop request is rejected with, if any: the authorization
/// check, then existence, then the two one-way latches — an already-paid or
/// already-stopped obligation is a terminal state, and stopping it is an
/// error, not a no-op.
pub open spec fn spec_stop_error(
    s: Seq<PaymentState>,
    authorized: bool,
    id: u64,
) -> Option<ContractError> {
    if !authorized {
        Some(ContractError::Unauthorized)
    } else if !contains_id(s, id) {
        Some(ContractError::NotFound)
    } else if record_of(s, id).paid {
        Some(ContractError::AlreadyPaid)
    } else if record_of(s, id).stopped {
        Some(ContractError::AlreadyStopped)
    } else {
        None
    }
}

/// Cancels a pending obligation. Owner-only. On success the record gains
/// the stopped latch — never to be paid — and exactly one transfer
/// instruction refunds the full asset to the owner (not the original
/// recipient): cancellation returns the escrowed value to the
/// administrator. Every rejected call leaves the store unchanged.
pub fn execute_stop_payment(
    sender: &String,
    config: &Config,
    store: &mut Store,
    id: u64,
) -> (r: Result<Vec<TransferMsg>, ContractError>)
    requires
        old(store).wf(),
    ensures
        final(store).wf(),
        final(store).payment_count == old(store).payment_count,
        match r {
            Err(e) => spec_stop_error(old(store).payments@, sender@ == config.owner@, id) == Some(
                e,
            ) && final(store).payments@ == old(store).payments@,
            Ok(msgs) => {
                &&& spec_stop_error(old(store).payments@, sender@ == config.owner@, id) is None
                &&& final(store).payments@ == spec_stop_store(old(store).payments@, id)
                &&& msgs@ == seq![
                    spec_transfer_msg(config.owner, record_of(old(store).payments@, id).payment.asset),
                ]
            },
        },
        spec_ids_dense(*old(store)) ==> spec_ids_dense(*final(store)),
{
    if !(*sender == config.owner) {
        return Err(ContractError::Unauthorized);
    }
    let found = store.get(id);
    match found {
        None => Err(ContractError::NotFound),
        Some(payment) => {
            if payment.paid {
                return Err(ContractError::AlreadyPaid);
            }
            if payment.stopped {
                return Err(ContractError::AlreadyStopped);
            }
            let refund = get_send_tokens_message(config, &payment.payment, true);
            let stopped_rec = PaymentState {
                payment: payment.payment,
                paid: payment.paid,
                stopped: true,
                id: payment.id,
            };
            proof {
                lemma_find_slot_of_member(old(store).payments@, id);
                assert(record_of(old(store).payments@, id).id == id);
                assert(stopped_rec.id == id);
            }
            store.put(stopped_rec);
            proof {
                let s = old(store).payments@;
                let slot = find_slot(s, id);
                assert(store.payments@ == s.update(slot, stopped_rec));
                assert(store.payments@ =~= spec_stop_store(s, id)) by {
                    assert forall|i: int|
                        0 <= i < s.len() && i != slot implies s[i].id != id by {
                        if i < slot {
                            assert(s[i].id < s[slot].id);
                        } else {
                            assert(s[slot].id < s[i].id);
                        }
                    }
                }
            }
            let mut msgs: Vec<TransferMsg> = Vec::new();
            msgs.push(refund);
            proof {
                assert(msgs@ =~= seq![
                    spec_transfer_msg(
                        config.owner,
                        record_of(old(store).payments@, id).payment.asset,
                    ),
                ]);
            }
            Ok(msgs)
        },
    }
}

/// Builds the transfer instruction for one payment: the full asset and
/// amount, addressed to the payment's recipient — or, for a refund, to the
/// owner, since cancellation returns the escrowed value to the
/// administrator.
pub fn get_send_tokens_message(config: &Config, p: &Payment, refund: bool) -> (r: TransferMsg)
    ensures
        r == spec_transfer_msg(
            if refund {
                config.owner
            } else {
                p.recipient
            },
            p.asset,
        ),
{
    let recipient = if refund {
        config.owner.clone()
    } else {
        p.recipient.clone()
    };
    match &p.asset {
        Asset::Native { denom, amount } => TransferMsg::Native {
            to_address: recipient,
            denom: denom.clone(),
            amount: *amount,
        },
        Asset::Token { address, amount } => TransferMsg::Token {
            contract_addr: address.clone(),
            recipient,
            amount: *amount,
        },
    }
}

/// Replaces the owner. Owner-only; a rejected call changes nothing. The
/// previous owner's authority ends the instant this returns.
pub fn execute_update_config(sender: &String, config: &mut Config, owner: String) -> (r: Result<
    Vec<TransferMsg>,
    ContractError,
>)
    ensures
        sender@ != old(config).owner@ ==> r == Err::<Vec<TransferMsg>, ContractError>(
            ContractError::Unauthorized,
        ) && *final(config) == *old(config),
        sender@ == old(config).owner@ ==> (r matches Ok(msgs) && msgs@ == Seq::<
            TransferMsg,
        >::empty()) && final(config).owner == owner,
{
    if !(*sender == config.owner) {
        return Err(ContractError::Unauthorized);
    }
    config.owner = owner;
    Ok(Vec::new())
}

/// Carries out one state-changing request: the dispatch point of the
/// engine. `sender` is the already-authenticated caller; `env` is the
/// reference height and time a sweep is evaluated against.
pub fn execute(
    config: &mut Config,
    store: &mut Store,
    env: &Env,
    sender: &String,
    msg: ExecuteMsg,
) -> (r: Result<Vec<TransferMsg>, ContractError>)
    requires
        old(store).wf(),
        msg matches ExecuteMsg::AddPayments { schedule } ==> old(store).payment_count
            + schedule@.len() <= u64::MAX,
    ensures
        final(store).wf(),
        spec_ids_dense(*old(store)) ==> spec_ids_dense(*final(store)),
        match msg {
            ExecuteMsg::Pay {  } => {
                &&& *final(config) == *old(config)
                &&& final(store).payment_count == old(store).payment_count
                &&& final(store).payments@ == spec_sweep_store(old(store).payments@, *env)
                &&& r matches Ok(msgs) && msgs@ == spec_sweep_msgs(old(store).payments@, *env)
            },
            ExecuteMsg::UpdateConfig { owner } => {
                &&& *final(store) == *old(store)
                &&& sender@ != old(config).owner@ ==> r == Err::<Vec<TransferMsg>, ContractError>(
                    ContractError::Unauthorized,
                ) && *final(config) == *old(config)
                &&& sender@ == old(config).owner@ ==> (r matches Ok(msgs) && msgs@ == Seq::<
                    TransferMsg,
                >::empty()) && final(config).owner == owner
            },
            ExecuteMsg::StopPayment { id } => {
                &&& *final(config) == *old(config)
                &&& final(store).payment_count == old(store).payment_count
                &&& match r {
                    Err(e) => spec_stop_error(
                        old(store).payments@,
                        sender@ == old(config).owner@,
                        id,
                    ) == Some(e) && final(store).payments@ == old(store).payments@,
                    Ok(msgs) => {
                        &&& spec_stop_error(
                            old(store).payments@,
                            sender@ == old(config).owner@,
                            id,
                        ) is None
                        &&& final(store).payments@ == spec_stop_store(old(store).payments@, id)
                        &&& msgs@ == seq![
                            spec_transfer_msg(
                                old(config).owner,
                                record_of(old(store).payments@, id).payment.asset,
                            ),
                        ]
                    },
                }
            },
            ExecuteMsg::AddPayments { schedule } => {
                &&& *final(config) == *old(config)
                &&& sender@ != old(config).owner@ ==> r == Err::<Vec<TransferMsg>, ContractError>(
                    ContractError::Unauthorized,
                ) && *final(store) == *old(store)
                &&& sender@ == old(config).owner@ ==> {
                    &&& r matches Ok(msgs) && msgs@ == Seq::<TransferMsg>::empty()
                    &&& final(store).payment_count == old(store).payment_count + schedule@.len()
                    &&& final(store).payments@.len() == old(store).payments@.len()
                        + schedule@.len()
                    &&& forall|j: int|
                        0 <= j < old(store).payments@.len()
                            ==> #[trigger] final(store).payments@[j] == old(store).payments@[j]
                    &&& forall|k: int|
                        0 <= k < schedule@.len() ==> #[trigger] final(store).payments@[old(
                            store,
                        ).payments@.len() + k] == spec_new_record(
                            schedule@[k],
                            (old(store).payment_count + k + 1) as u64,
                        )
                }
            },
        },
{
    match msg {
        ExecuteMsg::Pay {} => Ok(execute_pay(&*config, store, env)),
        ExecuteMsg::UpdateConfig { owner } => execute_update_config(sender, config, owner),
        ExecuteMsg::StopPayment { id } => execute_stop_payment(sender, &*config, store, id),
        ExecuteMsg::AddPayments { schedule } => execute_add_payments(
            sender,
            &*config,
            store,
            schedule,
        ),
    }
}

/// The full audit view: every obligation — pending, paid and stopped alike —
/// in ascending id order.
pub fn query_payments(store: &Store) -> (r: PaymentsResponse)
    ensures
        r.payments@ == store.payments@,
{
    PaymentsResponse { payments: store.scan() }
}

/// The current owner.
pub fn query_config(config: &Config) -> (r: ConfigResponse)
    ensures
        r.owner == config.owner,
{
    ConfigResponse { owner: config.owner.clone() }
}

/// Answers a read-only request.
pub fn query(config: &Config, store: &Store, msg: QueryMsg) -> (r: QueryResponse)
    ensures
        match msg {
            QueryMsg::GetPayments {  } => r matches QueryResponse::Payments(pr) && pr.payments@
                == store.payments@,
            QueryMsg::GetConfig {  } => r matches QueryResponse::Config(cr) && cr.owner
                == config.owner,
        },
{
    match msg {
        QueryMsg::GetPayments {} => QueryResponse::Payments(query_payments(store)),
        QueryMsg::GetConfig {} => QueryResponse::Config(query_config(config)),
    }
}

} // verus!
