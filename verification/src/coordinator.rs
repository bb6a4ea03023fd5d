//! The deferred creation of the registry.
//!
//! The factory cannot create its registry directly. It asks the chain to do
//! so and marks the request with a reserved token; the chain later reports
//! back with the same token and the new registry's address. The factory is
//! unlinked until that report arrives, and linked for good afterwards.

use vstd::prelude::*;
use crate::chain::{Coin, Env, ReplyOn, SubMsg, SubMsgView, WasmMsg, WasmMsgView};
use crate::error::ContractError;
use crate::msg::FactoryInstantiateMsg;
use crate::registry::InstantiateMsg;
use crate::state::{Config, ConfigView};

verus! {

/// The token reserved for the one creation request that a factory ever makes.
pub const INSTANTIATE_TOKEN_REPLY_ID: u64 = 1;

/// The label under which the chain files the new registry.
pub open spec fn creation_label() -> Seq<char> {
    "Instantiate fixed price NFT contract"@
}

/// The request to create a registry from the code `code_id` with the encoded
/// setup message `payload`: no administrator, no funds, marked with the
/// reserved token, to be reported on success only.
pub open spec fn creation_request(code_id: u64, payload: Seq<u8>) -> SubMsgView {
    SubMsgView {
        id: INSTANTIATE_TOKEN_REPLY_ID,
        msg: WasmMsgView::Instantiate {
            admin: None,
            code_id,
            msg: payload,
            funds: Seq::<Coin>::empty(),
            label: creation_label(),
        },
        gas_limit: None,
        reply_on: ReplyOn::Success,
    }
}

/// The setup message for the registry: the collection's name and symbol, and
/// the factory itself as the only minter.
pub fn registry_setup(env: &Env, msg: &FactoryInstantiateMsg) -> (setup: InstantiateMsg)
    ensures
        setup.name@ == msg.name@,
        setup.symbol@ == msg.symbol@,
        setup.minter@ == env.contract_address@,
{
    InstantiateMsg {
        name: msg.name.clone(),
        symbol: msg.symbol.clone(),
        minter: env.contract_address.clone(),
    }
}

/// Builds the creation request around the encoded setup message, where the
/// encoding succeeded; passes an encoding failure on as `EncodeFailure`.
pub fn request_creation(
    code_id: u64,
    encoded: Result<Vec<u8>, cosmwasm_std::StdError>,
) -> (request: Result<SubMsg, ContractError>)
    ensures
        match encoded {
            Ok(payload) => request matches Ok(sub) && sub@ == creation_request(code_id, payload@),
            Err(_) => request == Err::<SubMsg, ContractError>(ContractError::EncodeFailure),
        },
{
    let payload = match encoded {
        Ok(payload) => payload,
        Err(_) => {
            return Err(ContractError::EncodeFailure);
        },
    };
    let request = SubMsg {
        msg: WasmMsg::Instantiate {
            code_id,
            msg: payload,
            funds: Vec::new(),
            admin: None,
            label: "Instantiate fixed price NFT contract".to_owned(),
        },
        id: INSTANTIATE_TOKEN_REPLY_ID,
        gas_limit: None,
        reply_on: ReplyOn::Success,
    };
    assert(request@.msg->Instantiate_funds =~= Seq::<Coin>::empty());
    Ok(request)
}

/// The configuration linked to the registry at `address`.
pub open spec fn linked_to(config: ConfigView, address: Seq<char>) -> ConfigView {
    ConfigView { cw721_address: Some(address), ..config }
}

/// What a completion report does to the configuration. `token` is the token
/// it carries and `address` the registry address read from it, if one could
/// be read.
///
/// A factory that is already linked refuses every report. Otherwise the token
/// must be the reserved one and the address must have been readable; then the
/// factory is linked to that address.
pub open spec fn link_outcome(config: ConfigView, token: u64, address: Option<Seq<char>>) -> Result<
    ConfigView,
    ContractError,
> {
    if config.cw721_address is Some {
        Err(ContractError::AlreadyLinked)
    } else if token != INSTANTIATE_TOKEN_REPLY_ID {
        Err(ContractError::UnexpectedCorrelationToken)
    } else {
        match address {
            Some(a) => Ok(linked_to(config, a)),
            None => Err(ContractError::DecodeFailure),
        }
    }
}

/// The address in the outcome of parsing a report, if the parse succeeded.
pub open spec fn parsed_address(parsed: Result<String, cw_utils::ParseReplyError>) -> Option<
    Seq<char>,
> {
    match parsed {
        Ok(address) => Some(address@),
        Err(_) => None,
    }
}

/// Completes the deferred creation: links `config` to the address that was
/// parsed out of the report carrying `token`, or says why not.
pub fn complete_creation(
    config: Config,
    token: u64,
    parsed: Result<String, cw_utils::ParseReplyError>,
) -> (linked: Result<Config, ContractError>)
    ensures
        match link_outcome(config@, token, parsed_address(parsed)) {
            Ok(next) => linked matches Ok(c) && c@ == next,
            Err(e) => linked == Err::<Config, ContractError>(e),
        },
{
    if config.cw721_address.is_some() {
        return Err(ContractError::AlreadyLinked);
    }
    if token != INSTANTIATE_TOKEN_REPLY_ID {
        return Err(ContractError::UnexpectedCorrelationToken);
    }
    match parsed {
        Ok(address) => {
            let mut next = config;
            next.cw721_address = Some(address);
            Ok(next)
        },
        Err(_) => Err(ContractError::DecodeFailure),
    }
}

} // verus!
