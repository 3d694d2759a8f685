//! The request and response shapes of the engine, and the payment data model.
//!
//! A principal (an account address) is carried as a plain `String` that the
//! caller's identity layer has already validated. An asset is a genuine
//! tagged union: exactly one of native currency or a fungible-token contract
//! reference, each with its positive amount.

use vstd::prelude::*;

verus! {

/// The trigger that arms an obligation: expired at a block height, at a
/// timestamp (nanoseconds), or never (inert until explicitly resolved).
#[derive(Clone, Copy, Debug, PartialEq, Eq, Structural)]
pub enum Expiration {
    AtHeight(u64),
    AtTime(u64),
    Never,
}

/// The reference point a sweep is evaluated against: the current block
/// height and the current timestamp (nanoseconds).
#[derive(Clone, Copy, Debug, PartialEq, Eq, Structural)]
pub struct Env {
    pub height: u64,
    pub time: u64,
}

/// Whether a trigger has expired at the reference point `env`.
pub open spec fn spec_is_expired(e: Expiration, env: Env) -> bool {
    match e {
        Expiration::AtHeight(h) => env.height >= h,
        Expiration::AtTime(t) => env.time >= t,
        Expiration::Never => false,
    }
}

impl Expiration {
    pub fn is_expired(&self, env: &Env) -> (r: bool)
        ensures
            r == spec_is_expired(*self, *env),
    {
        match *self {
            Expiration::AtHeight(h) => env.height >= h,
            Expiration::AtTime(t) => env.time >= t,
            Expiration::Never => false,
        }
    }
}

impl Default for Expiration {
    /// An obligation whose trigger is left unset never fires.
    fn default() -> (r: Self)
        ensures
            r == Expiration::Never,
    {
        Expiration::Never
    }
}

/// What an obligation pays out: native currency named by a denomination, or
/// units of a fungible token named by its contract address.
#[derive(Debug, PartialEq, Eq)]
pub enum Asset {
    Native { denom: String, amount: u128 },
    Token { address: String, amount: u128 },
}

impl Clone for Asset {
    fn clone(&self) -> (res: Self)
        ensures
            res == *self,
    {
        match self {
            Asset::Native { denom, amount } => Asset::Native {
                denom: denom.clone(),
                amount: *amount,
            },
            Asset::Token { address, amount } => Asset::Token {
                address: address.clone(),
                amount: *amount,
            },
        }
    }
}

/// One scheduled payment, as handed in by the owner: who is paid, what is
/// paid, and when the payment becomes due.
#[derive(Debug, PartialEq, Eq)]
pub struct Payment {
    pub recipient: String,
    pub asset: Asset,
    pub time: Expiration,
}

impl Clone for Payment {
    fn clone(&self) -> (res: Self)
        ensures
            res == *self,
    {
        Payment {
            recipient: self.recipient.clone(),
            asset: self.asset.clone(),
            time: self.time,
        }
    }
}

/// An outbound transfer instruction, handed to the external asset-transfer
/// executor: either a native-currency transfer to an account, or a call of a
/// fungible-token contract's transfer entry point.
#[derive(Debug, PartialEq, Eq)]
pub enum TransferMsg {
    Native { to_address: String, denom: String, amount: u128 },
    Token { contract_addr: String, recipient: String, amount: u128 },
}

impl Clone for TransferMsg {
    fn clone(&self) -> (res: Self)
        ensures
            res == *self,
    {
        match self {
            TransferMsg::Native { to_address, denom, amount } => TransferMsg::Native {
                to_address: to_address.clone(),
                denom: denom.clone(),
                amount: *amount,
            },
            TransferMsg::Token { contract_addr, recipient, amount } => TransferMsg::Token {
                contract_addr: contract_addr.clone(),
                recipient: recipient.clone(),
                amount: *amount,
            },
        }
    }
}

/// The initialization request: the administrative owner and the initial
/// schedule of obligations.
#[derive(Debug, PartialEq, Eq)]
pub struct InstantiateMsg {
    pub owner: String,
    pub schedule: Vec<Payment>,
}

/// A state-changing request.
#[derive(Debug, PartialEq, Eq)]
pub enum ExecuteMsg {
    Pay {},
    UpdateConfig { owner: String },
    StopPayment { id: u64 },
    AddPayments { schedule: Vec<Payment> },
}

/// A read-only request.
#[derive(Clone, Copy, Debug, PartialEq, Eq, Structural)]
pub enum QueryMsg {
    GetPayments {},
    GetConfig {},
}

/// The answer to `QueryMsg::GetConfig`: the current owner.
#[derive(Debug, PartialEq, Eq)]
pub struct ConfigResponse {
    pub owner: String,
}

/// The answer to `QueryMsg::GetPayments`: every obligation — pending, paid
/// and stopped alike — in ascending id order.
#[derive(Debug, PartialEq, Eq)]
pub struct PaymentsResponse {
    pub payments: Vec<crate::state::PaymentState>,
}

/// The answer to a `QueryMsg`.
#[derive(Debug, PartialEq, Eq)]
pub enum QueryResponse {
    Payments(PaymentsResponse),
    Config(ConfigResponse),
}

} // verus!
