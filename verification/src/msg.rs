//! The messages that callers send to the factory, and what it answers.

use vstd::prelude::*;
use crate::registry::Extension;
use crate::state::ConfigView;

verus! {

/// Initializes the factory.
#[derive(Clone, Debug, PartialEq, Eq)]
pub struct FactoryInstantiateMsg {
    /// The account named as owner by the caller. The recorded owner is the
    /// account that sends this message.
    pub owner: String,
    /// The supply cap; must be positive.
    pub max_tokens: u32,
    /// The exact amount that buys one token; must be positive.
    pub unit_price: u128,
    pub name: String,
    pub symbol: String,
    /// The stored code from which the registry is created.
    pub token_code_id: u64,
    /// The payment contract whose notifications will be accepted.
    pub cw20_address: String,
    pub token_uri: String,
    pub extension: Extension,
}

/// A payment notification, as the payment contract delivers it.
#[derive(Clone, Debug, PartialEq, Eq)]
pub struct Cw20ReceiveMsg {
    /// Who paid; the new token goes to this account.
    pub sender: String,
    /// How much was paid.
    pub amount: u128,
    /// Opaque data that came with the payment; not read.
    pub msg: Vec<u8>,
}

/// What the factory can be asked to do once it is initialized.
#[derive(Clone, Debug, PartialEq, Eq)]
pub enum FactoryExecuteMsg {
    /// Accept a payment and issue one token for it.
    Receive(Cw20ReceiveMsg),
}

/// Migration requests. There are none: the one variant cannot be built,
/// because nothing has the type of its field.
#[derive(Clone, Copy, Debug, PartialEq, Eq)]
pub enum MigrateMsg {
    Never(core::convert::Infallible),
}

/// What the factory can be asked about.
#[derive(Clone, Copy, Debug, PartialEq, Eq)]
pub enum QueryMsg {
    /// The whole configuration record.
    GetConfig {},
}

/// The configuration record as callers see it.
#[derive(Clone, Debug, PartialEq, Eq)]
pub struct ConfigResponse {
    pub owner: String,
    pub cw20_address: String,
    pub cw721_address: Option<String>,
    pub max_tokens: u32,
    pub unit_price: u128,
    pub name: String,
    pub symbol: String,
    pub token_uri: String,
    pub extension: Extension,
    pub unused_token_id: u32,
}

impl View for ConfigResponse {
    type V = ConfigView;

    open spec fn view(&self) -> ConfigView {
        ConfigView {
            owner: self.owner@,
            cw20_address: self.cw20_address@,
            cw721_address: match self.cw721_address {
                Some(a) => Some(a@),
                None => None,
            },
            max_tokens: self.max_tokens as nat,
            unit_price: self.unit_price as nat,
            name: self.name@,
            symbol: self.symbol@,
            token_uri: self.token_uri@,
            extension: self.extension,
            unused_token_id: self.unused_token_id as nat,
        }
    }
}

} // verus!
