//! The payment gate: decides whether a payment notification buys a token.

use vstd::prelude::*;
use crate::chain::MessageInfo;
use crate::error::ContractError;
use crate::msg::Cw20ReceiveMsg;
use crate::state::{Config, ConfigView};

verus! {

/// The verdict on a payment of `amount` that arrives through `medium`.
///
/// Four conditions are tried in this order, and the first that fails names
/// the refusal: the payment came through the accepted payment contract; a
/// registry is linked; the supply cap is not reached; the amount is exactly
/// the unit price.
pub open spec fn gate(config: ConfigView, medium: Seq<char>, amount: nat) -> Result<
    (),
    ContractError,
> {
    if medium != config.cw20_address {
        Err(ContractError::UnauthorizedPaymentMedium)
    } else if config.cw721_address is None {
        Err(ContractError::RegistryNotLinked)
    } else if config.unused_token_id >= config.max_tokens {
        Err(ContractError::SupplyExhausted)
    } else if amount != config.unit_price {
        Err(ContractError::WrongPaymentAmount)
    } else {
        Ok(())
    }
}

/// Checks a payment notification against the configuration. `info` names the
/// contract that delivered the notification, `payment` says how much was paid.
/// Nothing is changed.
pub fn authorize(info: &MessageInfo, payment: &Cw20ReceiveMsg, config: &Config) -> (verdict: Result<
    (),
    ContractError,
>)
    ensures
        verdict == gate(config@, info.sender@, payment.amount as nat),
{
    if !(config.cw20_address == info.sender) {
        return Err(ContractError::UnauthorizedPaymentMedium);
    }
    if config.cw721_address.is_none() {
        return Err(ContractError::RegistryNotLinked);
    }
    if config.unused_token_id >= config.max_tokens {
        return Err(ContractError::SupplyExhausted);
    }
    if payment.amount != config.unit_price {
        return Err(ContractError::WrongPaymentAmount);
    }
    Ok(())
}

} // verus!
