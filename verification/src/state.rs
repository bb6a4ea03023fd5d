//! The factory's single durable record and the store that keeps it.

use vstd::prelude::*;
use crate::error::ContractError;
use crate::registry::Extension;

verus! {

/// The factory's configuration and issuance counters.
#[derive(Clone, Debug, PartialEq, Eq)]
pub struct Config {
    /// The privileged account; fixed at initialization.
    pub owner: String,
    /// The payment contract whose notifications are accepted; fixed at initialization.
    pub cw20_address: String,
    /// The linked registry; absent until the registry's creation is confirmed.
    pub cw721_address: Option<String>,
    /// The supply cap; fixed at initialization.
    pub max_tokens: u32,
    /// The exact amount that buys one token; fixed at initialization.
    pub unit_price: u128,
    pub name: String,
    pub symbol: String,
    /// Copied into every token.
    pub token_uri: String,
    /// Copied into every token.
    pub extension: Extension,
    /// The number of tokens issued so far, which is also the next token's number.
    pub unused_token_id: u32,
}

/// What a [`Config`] holds, as mathematical values.
pub struct ConfigView {
    pub owner: Seq<char>,
    pub cw20_address: Seq<char>,
    pub cw721_address: Option<Seq<char>>,
    pub max_tokens: nat,
    pub unit_price: nat,
    pub name: Seq<char>,
    pub symbol: Seq<char>,
    pub token_uri: Seq<char>,
    pub extension: Extension,
    pub unused_token_id: nat,
}

impl ConfigView {
    /// What initialization establishes and every operation keeps: a positive
    /// price, a positive cap, and a counter that has not passed the cap.
    pub open spec fn wf(self) -> bool {
        &&& self.unit_price > 0
        &&& self.max_tokens > 0
        &&& self.unused_token_id <= self.max_tokens
    }

    /// Whether a registry has been linked.
    pub open spec fn linked(self) -> bool {
        self.cw721_address is Some
    }
}

impl View for Config {
    type V = ConfigView;

    open spec fn view(&self) -> ConfigView {
        ConfigView {
            owner: self.owner@,
            cw20_address: self.cw20_address@,
            cw721_address: match self.cw721_address {
                Some(a) => Some(a@),
                None => None,
            },
            max_tokens: self.max_tokens as nat,
            unit_price: self.unit_price as nat,
            name: self.name@,
            symbol: self.symbol@,
            token_uri: self.token_uri@,
            extension: self.extension,
            unused_token_id: self.unused_token_id as nat,
        }
    }
}

impl Config {
    /// A copy that holds the same values.
    pub fn duplicate(&self) -> (copy: Config)
        ensures
            copy@ == self@,
    {
        Config {
            owner: self.owner.clone(),
            cw20_address: self.cw20_address.clone(),
            cw721_address: match &self.cw721_address {
                Some(a) => Some(a.clone()),
                None => None,
            },
            max_tokens: self.max_tokens,
            unit_price: self.unit_price,
            name: self.name.clone(),
            symbol: self.symbol.clone(),
            token_uri: self.token_uri.clone(),
            extension: self.extension,
            unused_token_id: self.unused_token_id,
        }
    }
}

/// The store of the single configuration record. The record is read and
/// written as a whole.
#[derive(Debug)]
pub struct ConfigStore {
    record: Option<Config>,
}

impl View for ConfigStore {
    type V = Option<ConfigView>;

    closed spec fn view(&self) -> Option<ConfigView> {
        match self.record {
            Some(config) => Some(config@),
            None => None,
        }
    }
}

impl ConfigStore {
    /// A store in which nothing has been saved.
    pub fn new() -> (store: ConfigStore)
        ensures
            store@ is None,
    {
        ConfigStore { record: None }
    }

    /// The stored record, or `NotInitialized` where none has been saved.
    pub fn load(&self) -> (loaded: Result<Config, ContractError>)
        ensures
            match self@ {
                Some(config) => loaded matches Ok(c) && c@ == config,
                None => loaded == Err::<Config, ContractError>(ContractError::NotInitialized),
            },
    {
        match &self.record {
            Some(config) => Ok(config.duplicate()),
            None => Err(ContractError::NotInitialized),
        }
    }

    /// Replaces the stored record by `config`.
    pub fn save(&mut self, config: &Config)
        ensures
            final(self)@ == Some(config@),
    {
        self.record = Some(config.duplicate());
    }
}

} // verus!
