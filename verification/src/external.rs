//! What this library takes on trust from the crates it calls.
//!
//! Three calls leave the verified code: two encode a registry message as JSON,
//! one reads the new registry's address out of the chain's report. What each
//! returns is decided by its arguments (for the parser, together with the
//! machine's pointer width) and is too long to restate here. So each result
//! gets a name, and the contracts of the library speak of that name.

use vstd::prelude::*;
use crate::chain::Reply;
use crate::registry::{InstantiateMsg, MintMsg};

verus! {

/// `cosmwasm_std::StdError`, carried through and never looked into.
#[verifier::external_type_specification]
#[verifier::external_body]
pub struct ExStdError(cosmwasm_std::StdError);

/// `cw_utils::ParseReplyError`, carried through and never looked into.
#[verifier::external_type_specification]
#[verifier::external_body]
pub struct ExParseReplyError(cw_utils::ParseReplyError);

/// The JSON bytes that `cosmwasm_std::to_binary` gives for a
/// `cw721_base::InstantiateMsg` with these fields; `None` where it reports an
/// error.
pub uninterp spec fn instantiate_msg_json(
    name: Seq<char>,
    symbol: Seq<char>,
    minter: Seq<char>,
) -> Option<Seq<u8>>;

/// The JSON bytes that `cosmwasm_std::to_binary` gives for the `Mint` variant
/// of `cw721_base::ExecuteMsg` around a `MintMsg` with these fields; `None`
/// where it reports an error.
pub uninterp spec fn mint_msg_json(
    token_id: Seq<char>,
    owner: Seq<char>,
    token_uri: Option<Seq<char>>,
    has_extension: bool,
) -> Option<Seq<u8>>;

/// The contract address that `cw_utils::parse_reply_instantiate_data` reads
/// from the data of a successful report; `None` where it reports an error.
/// The parser narrows a 64-bit length to `usize`, so the pointer width of the
/// machine is part of what decides the outcome.
pub uninterp spec fn instantiated_address(data: Seq<u8>, pointer_bits: nat) -> Option<Seq<char>>;

/// Calls `cosmwasm_std::to_binary` on the `cw721_base::InstantiateMsg` that
/// holds the fields of `msg`. Claimed: the outcome is the one named
/// [`instantiate_msg_json`], the bytes unchanged where there are any.
#[allow(deprecated)]
#[verifier::external_body]
pub(crate) fn encode_instantiate_msg(msg: &InstantiateMsg) -> (encoded: Result<
    Vec<u8>,
    cosmwasm_std::StdError,
>)
    ensures
        encoded is Ok <==> instantiate_msg_json(msg.name@, msg.symbol@, msg.minter@) is Some,
        encoded matches Ok(bytes) ==> instantiate_msg_json(msg.name@, msg.symbol@, msg.minter@)
            == Some(bytes@),
{
    let outside = cw721_base::InstantiateMsg {
        name: msg.name.clone(),
        symbol: msg.symbol.clone(),
        minter: msg.minter.clone(),
    };
    cosmwasm_std::to_binary(&outside).map(|binary| binary.0)
}

/// Calls `cosmwasm_std::to_binary` on `cw721_base::ExecuteMsg::Mint` around
/// the `cw721_base::MintMsg` that holds the fields of `msg`. Claimed: the
/// outcome is the one named [`mint_msg_json`], the bytes unchanged where there
/// are any.
#[allow(deprecated)]
#[verifier::external_body]
pub(crate) fn encode_mint_msg(msg: &MintMsg) -> (encoded: Result<Vec<u8>, cosmwasm_std::StdError>)
    ensures
        encoded is Ok <==> mint_msg_json(
            msg@.token_id,
            msg@.owner,
            msg@.token_uri,
            msg@.extension is Some,
        ) is Some,
        encoded matches Ok(bytes) ==> mint_msg_json(
            msg@.token_id,
            msg@.owner,
            msg@.token_uri,
            msg@.extension is Some,
        ) == Some(bytes@),
{
    let outside = cw721_base::MintMsg::<cw721_base::Extension> {
        token_id: msg.token_id.clone(),
        owner: msg.owner.clone(),
        token_uri: msg.token_uri.clone(),
        extension: match msg.extension {
            Some(_) => Some(cosmwasm_std::Empty {}),
            None => None,
        },
    };
    let wrapped = cw721_base::ExecuteMsg::<cw721_base::Extension, cosmwasm_std::Empty>::Mint(
        outside,
    );
    cosmwasm_std::to_binary(&wrapped).map(|binary| binary.0)
}

/// Calls `cw_utils::parse_reply_instantiate_data` on the chain's report and
/// keeps the contract address. Claimed, as the parser's source has it: a
/// report of failure and a report without data are errors; for a report with
/// data the outcome is the one named [`instantiated_address`].
#[verifier::external_body]
pub(crate) fn parse_reply_instantiate_data(msg: &Reply) -> (parsed: Result<
    String,
    cw_utils::ParseReplyError,
>)
    ensures
        match msg.payload() {
            Some(data) => {
                &&& parsed is Ok <==> instantiated_address(data, usize::BITS as nat) is Some
                &&& parsed matches Ok(address) ==> instantiated_address(data, usize::BITS as nat)
                    == Some(address@)
            },
            None => parsed is Err,
        },
{
    let result = match &msg.result {
        Ok(done) => cosmwasm_std::SubMsgResult::Ok(
            cosmwasm_std::SubMsgResponse {
                events: Vec::new(),
                data: done.data.clone().map(cosmwasm_std::Binary),
            },
        ),
        Err(cause) => cosmwasm_std::SubMsgResult::Err(cause.clone()),
    };
    cw_utils::parse_reply_instantiate_data(cosmwasm_std::Reply { id: msg.id, result }).map(
        |response| response.contract_address,
    )
}

} // verus!
