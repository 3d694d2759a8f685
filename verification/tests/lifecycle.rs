//! The lifecycle rules on concrete values: trigger edges, the one-way
//! latches, the refund path, authorization, id allocation, and the store's
//! own contract.

use cw_payments::contract::{
    execute, execute_add_payments, execute_pay, execute_stop_payment, execute_update_config,
    get_send_tokens_message, instantiate, query_config, query_payments,
};
use cw_payments::error::ContractError;
use cw_payments::msg::{
    Asset, Env, ExecuteMsg, Expiration, InstantiateMsg, Payment, TransferMsg,
};
use cw_payments::state::{Config, PaymentState, Store};

fn at(height: u64) -> Env {
    Env { height, time: 0 }
}

fn native(recipient: &str, amount: u128, denom: &str, time: Expiration) -> Payment {
    Payment {
        recipient: recipient.to_string(),
        asset: Asset::Native { denom: denom.to_string(), amount },
        time,
    }
}

fn init(owner: &str, schedule: Vec<Payment>) -> (Config, Store) {
    instantiate(InstantiateMsg { owner: owner.to_string(), schedule })
}

#[test]
fn height_trigger_fires_exactly_at_its_height() {
    let schedule = vec![native("R", 1, "u", Expiration::AtHeight(5))];
    let (config, mut store) = init("O", schedule);

    // at height 4 the sweep emits nothing and the obligation stays unpaid
    let msgs = execute_pay(&config, &mut store, &at(4));
    assert_eq!(msgs.len(), 0);
    assert!(!query_payments(&store).payments[0].paid);

    // at height 5 the sweep emits one native transfer of 1 "u" to R
    let msgs = execute_pay(&config, &mut store, &at(5));
    assert_eq!(msgs.len(), 1);
    assert_eq!(
        msgs[0],
        TransferMsg::Native {
            to_address: "R".to_string(),
            denom: "u".to_string(),
            amount: 1,
        }
    );
    assert!(query_payments(&store).payments[0].paid);

    // a second sweep at height 6 emits nothing
    let msgs = execute_pay(&config, &mut store, &at(6));
    assert_eq!(msgs.len(), 0);
}

#[test]
fn same_trigger_emits_two_unmerged_instructions_in_id_order() {
    let h = 20;
    let schedule = vec![
        native("R", 2, "u", Expiration::AtHeight(h)),
        native("R", 5, "u", Expiration::AtHeight(h)),
    ];
    let (config, mut store) = init("O", schedule);

    let msgs = execute_pay(&config, &mut store, &at(h));
    assert_eq!(msgs.len(), 2);
    assert_eq!(
        msgs[0],
        TransferMsg::Native { to_address: "R".to_string(), denom: "u".to_string(), amount: 2 }
    );
    assert_eq!(
        msgs[1],
        TransferMsg::Native { to_address: "R".to_string(), denom: "u".to_string(), amount: 5 }
    );
}

#[test]
fn stop_refunds_the_owner_and_bars_later_sweeps() {
    let schedule = vec![native("R", 3, "u", Expiration::AtHeight(10))];
    let (config, mut store) = init("O", schedule);

    // the refund goes to the owner, not the original recipient
    let sender = "O".to_string();
    let msgs = execute_stop_payment(&sender, &config, &mut store, 1).unwrap();
    assert_eq!(msgs.len(), 1);
    assert_eq!(
        msgs[0],
        TransferMsg::Native { to_address: "O".to_string(), denom: "u".to_string(), amount: 3 }
    );

    // a later sweep never selects the stopped obligation, even expired
    let msgs = execute_pay(&config, &mut store, &at(100));
    assert_eq!(msgs.len(), 0);
    let view = query_payments(&store).payments;
    assert!(view[0].stopped);
    assert!(!view[0].paid);
}

#[test]
fn add_payments_by_non_owner_is_rejected_and_writes_nothing() {
    let schedule = vec![native("R", 1, "u", Expiration::AtHeight(5))];
    let (config, mut store) = init("O", schedule);

    let sender = "intruder".to_string();
    let extra = vec![native("R", 9, "u", Expiration::AtHeight(5))];
    let err = execute_add_payments(&sender, &config, &mut store, extra).unwrap_err();
    assert_eq!(err, ContractError::Unauthorized);
    assert_eq!(query_payments(&store).payments.len(), 1);
}

#[test]
fn stop_by_non_owner_is_rejected_and_writes_nothing() {
    let schedule = vec![native("R", 1, "u", Expiration::AtHeight(5))];
    let (config, mut store) = init("O", schedule);

    let sender = "intruder".to_string();
    let err = execute_stop_payment(&sender, &config, &mut store, 1).unwrap_err();
    assert_eq!(err, ContractError::Unauthorized);
    let view = query_payments(&store).payments;
    assert!(!view[0].stopped);
}

#[test]
fn update_owner_by_non_owner_is_rejected_and_writes_nothing() {
    let (mut config, _store) = init("O", vec![]);

    let sender = "intruder".to_string();
    let err = execute_update_config(&sender, &mut config, "intruder".to_string()).unwrap_err();
    assert_eq!(err, ContractError::Unauthorized);
    assert_eq!(query_config(&config).owner, "O".to_string());
}

#[test]
fn stop_of_unknown_id_is_not_found() {
    let (config, mut store) = init("O", vec![native("R", 1, "u", Expiration::AtHeight(5))]);

    let sender = "O".to_string();
    let err = execute_stop_payment(&sender, &config, &mut store, 99).unwrap_err();
    assert_eq!(err, ContractError::NotFound);
}

#[test]
fn stop_of_paid_obligation_is_already_paid() {
    let (config, mut store) = init("O", vec![native("R", 1, "u", Expiration::AtHeight(5))]);

    let msgs = execute_pay(&config, &mut store, &at(5));
    assert_eq!(msgs.len(), 1);

    let sender = "O".to_string();
    let err = execute_stop_payment(&sender, &config, &mut store, 1).unwrap_err();
    assert_eq!(err, ContractError::AlreadyPaid);
    assert!(!query_payments(&store).payments[0].stopped);
}

#[test]
fn stop_of_stopped_obligation_is_already_stopped() {
    let (config, mut store) = init("O", vec![native("R", 1, "u", Expiration::AtHeight(5))]);

    let sender = "O".to_string();
    execute_stop_payment(&sender, &config, &mut store, 1).unwrap();
    let err = execute_stop_payment(&sender, &config, &mut store, 1).unwrap_err();
    assert_eq!(err, ContractError::AlreadyStopped);
}

#[test]
fn time_trigger_compares_timestamps() {
    let schedule = vec![Payment {
        recipient: "R".to_string(),
        asset: Asset::Native { denom: "u".to_string(), amount: 7 },
        time: Expiration::AtTime(1_000),
    }];
    let (config, mut store) = init("O", schedule);

    let msgs = execute_pay(&config, &mut store, &Env { height: 0, time: 999 });
    assert_eq!(msgs.len(), 0);
    let msgs = execute_pay(&config, &mut store, &Env { height: 0, time: 1_000 });
    assert_eq!(msgs.len(), 1);
}

#[test]
fn never_trigger_never_fires() {
    let schedule = vec![native("R", 1, "u", Expiration::Never)];
    let (config, mut store) = init("O", schedule);

    let msgs = execute_pay(&config, &mut store, &Env { height: u64::MAX, time: u64::MAX });
    assert_eq!(msgs.len(), 0);
    assert!(!query_payments(&store).payments[0].paid);
}

#[test]
fn ids_are_consecutive_across_creations() {
    let (mut config, mut store) = init(
        "O",
        vec![
            native("R", 1, "u", Expiration::AtHeight(5)),
            native("R", 2, "u", Expiration::AtHeight(5)),
        ],
    );

    let sender = "O".to_string();
    execute(
        &mut config,
        &mut store,
        &at(1),
        &sender,
        ExecuteMsg::AddPayments { schedule: vec![native("S", 3, "u", Expiration::AtHeight(9))] },
    )
    .unwrap();

    let view = query_payments(&store).payments;
    let ids: Vec<u64> = view.iter().map(|p| p.id).collect();
    assert_eq!(ids, vec![1, 2, 3]);
}

#[test]
fn refund_message_uses_owner_and_payment_message_uses_recipient() {
    let config = Config { owner: "O".to_string() };
    let p = native("R", 4, "u", Expiration::AtHeight(5));
    assert_eq!(
        get_send_tokens_message(&config, &p, true),
        TransferMsg::Native { to_address: "O".to_string(), denom: "u".to_string(), amount: 4 }
    );
    assert_eq!(
        get_send_tokens_message(&config, &p, false),
        TransferMsg::Native { to_address: "R".to_string(), denom: "u".to_string(), amount: 4 }
    );
}

#[test]
fn token_payment_message_calls_the_token_contract() {
    let config = Config { owner: "O".to_string() };
    let p = Payment {
        recipient: "R".to_string(),
        asset: Asset::Token { address: "cw20token".to_string(), amount: 6 },
        time: Expiration::AtHeight(5),
    };
    assert_eq!(
        get_send_tokens_message(&config, &p, false),
        TransferMsg::Token {
            contract_addr: "cw20token".to_string(),
            recipient: "R".to_string(),
            amount: 6,
        }
    );
}

#[test]
fn store_allocates_fetches_and_overwrites() {
    let mut store = Store::new();
    let id1 = store.next_id();
    let id2 = store.next_id();
    assert_eq!(id1, 1);
    assert_eq!(id2, 2);

    let rec = |id: u64, paid: bool| PaymentState {
        payment: native("R", 1, "u", Expiration::AtHeight(5)),
        paid,
        stopped: false,
        id,
    };
    store.put(rec(2, false));
    store.put(rec(1, false));
    assert_eq!(store.get(1).unwrap().id, 1);
    assert_eq!(store.get(3), None);

    // scan returns ascending id order even when puts came out of order
    let all = store.scan();
    assert_eq!(all[0].id, 1);
    assert_eq!(all[1].id, 2);

    // put is a total replacement at an existing id
    store.put(rec(1, true));
    assert!(store.get(1).unwrap().paid);
    assert_eq!(store.scan().len(), 2);
}

#[test]
fn sweep_is_idempotent_across_interleaved_operations() {
    let (mut config, mut store) = init(
        "O",
        vec![
            native("A", 1, "u", Expiration::AtHeight(5)),
            native("B", 2, "u", Expiration::AtHeight(7)),
        ],
    );
    let sender = "O".to_string();

    // first sweep pays obligation 1 only
    let msgs = execute_pay(&config, &mut store, &at(5));
    assert_eq!(msgs.len(), 1);

    // interleave a creation and an ownership transfer
    execute_add_payments(
        &sender,
        &config,
        &mut store,
        vec![native("C", 4, "u", Expiration::AtHeight(6))],
    )
    .unwrap();
    execute_update_config(&sender, &mut config, "O2".to_string()).unwrap();

    // the next sweep pays obligations 2 and 3, and never obligation 1 again
    let msgs = execute_pay(&config, &mut store, &at(8));
    assert_eq!(msgs.len(), 2);
    assert_eq!(
        msgs[0],
        TransferMsg::Native { to_address: "B".to_string(), denom: "u".to_string(), amount: 2 }
    );
    assert_eq!(
        msgs[1],
        TransferMsg::Native { to_address: "C".to_string(), denom: "u".to_string(), amount: 4 }
    );

    // and a third sweep at the same reference emits nothing at all
    let msgs = execute_pay(&config, &mut store, &at(8));
    assert_eq!(msgs.len(), 0);
}
