//! The factory's entry points.
//!
//! Each entry point is one unit of work on the stored record: it either
//! stores its change and answers with the messages to dispatch, or refuses
//! and leaves the record as it was. What each one does is stated by a spec
//! function from the record before the call to an [`Outcome`].

use vstd::prelude::*;
use crate::chain::{
    Coin,
    Env,
    MessageInfo,
    Reply,
    ReplyOn,
    Response,
    SubMsgView,
    WasmMsg,
    WasmMsgView,
    UNUSED_MSG_ID,
};
use crate::coordinator::{
    complete_creation,
    creation_request,
    link_outcome,
    registry_setup,
    request_creation,
};
use crate::counter::{issue, issued, mint_order};
use crate::error::ContractError;
use crate::external::{
    encode_instantiate_msg,
    encode_mint_msg,
    instantiate_msg_json,
    instantiated_address,
    mint_msg_json,
    parse_reply_instantiate_data,
};
use crate::gate::{authorize, gate};
use crate::msg::{
    ConfigResponse,
    Cw20ReceiveMsg,
    FactoryExecuteMsg,
    FactoryInstantiateMsg,
    MigrateMsg,
    QueryMsg,
};
use crate::registry::MintMsgView;
use crate::state::{Config, ConfigStore, ConfigView};

verus! {

/// What an operation comes to: the record to store and the messages to
/// dispatch, or a refusal.
pub type Outcome = Result<(ConfigView, Seq<SubMsgView>), ContractError>;

/// The outcome that refuses with `e`.
pub open spec fn refused(e: ContractError) -> Outcome {
    Err(e)
}

/// An operation with the given outcome was carried out as one unit: on
/// success the new record is stored and `answer` holds the messages; on
/// refusal the store is as before and `answer` is the refusal.
pub open spec fn committed(
    before: Option<ConfigView>,
    outcome: Outcome,
    after: Option<ConfigView>,
    answer: Result<Response, ContractError>,
) -> bool {
    match outcome {
        Ok((next, messages)) => {
            &&& after == Some(next)
            &&& answer matches Ok(response) && response@ == messages
        },
        Err(e) => {
            &&& after == before
            &&& answer == Err::<Response, ContractError>(e)
        },
    }
}

/// The record of a factory that `sender` has just initialized with `msg`:
/// unlinked, nothing issued.
pub open spec fn initial_config(sender: Seq<char>, msg: FactoryInstantiateMsg) -> ConfigView {
    ConfigView {
        owner: sender,
        cw20_address: msg.cw20_address@,
        cw721_address: None,
        max_tokens: msg.max_tokens as nat,
        unit_price: msg.unit_price as nat,
        name: msg.name@,
        symbol: msg.symbol@,
        token_uri: msg.token_uri@,
        extension: msg.extension,
        unused_token_id: 0,
    }
}

/// What initialization comes to, for a factory that runs at the address
/// `contract` and is initialized by `sender`.
///
/// A zero price is refused, then a zero cap. Otherwise the initial record is
/// stored and one request is dispatched: the creation of the registry, with
/// the factory as its minter.
pub open spec fn instantiate_outcome(
    contract: Seq<char>,
    sender: Seq<char>,
    msg: FactoryInstantiateMsg,
) -> Outcome {
    if msg.unit_price == 0 {
        Err(ContractError::InvalidUnitPrice)
    } else if msg.max_tokens == 0 {
        Err(ContractError::InvalidMaxTokens)
    } else {
        match instantiate_msg_json(msg.name@, msg.symbol@, contract) {
            Some(payload) => Ok(
                (initial_config(sender, msg), seq![creation_request(msg.token_code_id, payload)]),
            ),
            None => Err(ContractError::EncodeFailure),
        }
    }
}

/// The command that makes the registry at `registry` create a token: the
/// encoded mint message `payload`, no funds, no report asked for.
pub open spec fn mint_command(registry: Seq<char>, payload: Seq<u8>) -> SubMsgView {
    SubMsgView {
        id: UNUSED_MSG_ID,
        msg: WasmMsgView::Execute {
            contract_addr: registry,
            msg: payload,
            funds: Seq::<Coin>::empty(),
        },
        gas_limit: None,
        reply_on: ReplyOn::Never,
    }
}

/// The encoding of the mint message `order`, where it has one.
pub open spec fn encoded_mint(order: MintMsgView) -> Option<Seq<u8>> {
    mint_msg_json(order.token_id, order.owner, order.token_uri, order.extension is Some)
}

/// The encoded mint message for the next token of `config`, made out to
/// `payer`.
pub open spec fn mint_payload(config: ConfigView, payer: Seq<char>) -> Option<Seq<u8>> {
    encoded_mint(mint_order(config, payer))
}

/// What a payment notification comes to: `medium` delivered it, `payer` paid
/// `amount`.
///
/// The payment gate decides. If it lets the payment pass, the counter
/// advances by one and the registry is told to create the token with the
/// number that the counter had, for the payer.
pub open spec fn receive_outcome(
    config: ConfigView,
    medium: Seq<char>,
    payer: Seq<char>,
    amount: nat,
) -> Outcome {
    match gate(config, medium, amount) {
        Err(e) => Err(e),
        Ok(_) => match mint_payload(config, payer) {
            Some(payload) => Ok(
                (issued(config), seq![mint_command(config.cw721_address->0, payload)]),
            ),
            None => Err(ContractError::EncodeFailure),
        },
    }
}

/// The registry address that the chain's report carries, if one can be read
/// from it.
pub open spec fn reported_address(msg: Reply) -> Option<Seq<char>> {
    match msg.payload() {
        Some(data) => instantiated_address(data, usize::BITS as nat),
        None => None,
    }
}

/// What the chain's report on the creation request comes to: on success the
/// factory is linked to the reported address and nothing is dispatched.
pub open spec fn reply_outcome(config: ConfigView, msg: Reply) -> Outcome {
    match link_outcome(config, msg.id, reported_address(msg)) {
        Ok(next) => Ok((next, Seq::<SubMsgView>::empty())),
        Err(e) => Err(e),
    }
}

/// The outcome of an operation that needs a stored record: `NotInitialized`
/// where there is none.
pub open spec fn on_record(
    before: Option<ConfigView>,
    outcome: spec_fn(ConfigView) -> Outcome,
) -> Outcome {
    match before {
        Some(config) => outcome(config),
        None => Err(ContractError::NotInitialized),
    }
}

/// Initializes the factory: stores the initial record and asks the chain to
/// create the registry. A factory that was initialized before starts over.
pub fn instantiate(
    deps: &mut ConfigStore,
    env: Env,
    info: MessageInfo,
    msg: FactoryInstantiateMsg,
) -> (answer: Result<Response, ContractError>)
    ensures
        committed(
            old(deps)@,
            instantiate_outcome(env.contract_address@, info.sender@, msg),
            final(deps)@,
            answer,
        ),
{
    if msg.unit_price == 0 {
        return Err(ContractError::InvalidUnitPrice);
    }
    if msg.max_tokens == 0 {
        return Err(ContractError::InvalidMaxTokens);
    }
    let setup = registry_setup(&env, &msg);
    let request = match request_creation(msg.token_code_id, encode_instantiate_msg(&setup)) {
        Ok(request) => request,
        Err(e) => {
            return Err(e);
        },
    };
    let config = Config {
        cw721_address: None,
        cw20_address: msg.cw20_address,
        unit_price: msg.unit_price,
        max_tokens: msg.max_tokens,
        owner: info.sender,
        name: msg.name,
        symbol: msg.symbol,
        token_uri: msg.token_uri,
        extension: msg.extension,
        unused_token_id: 0,
    };
    deps.save(&config);
    let response = Response::new().add_submessage(request);
    assert(response@ =~= seq![request@]);
    Ok(response)
}

/// Handles a migration request. The factory defines no migration, so every
/// request is refused as `UnsupportedMigration`: nothing is changed and
/// nothing is dispatched. No migration request can be built, so nothing ever
/// reaches this.
pub fn migrate(deps: &mut ConfigStore, env: Env, msg: MigrateMsg) -> (answer: Result<
    Response,
    ContractError,
>)
    ensures
        final(deps)@ == old(deps)@,
        answer == Err::<Response, ContractError>(ContractError::UnsupportedMigration),
{
    Err(ContractError::UnsupportedMigration)
}

/// Carries out what `msg` asks for.
pub fn execute(
    deps: &mut ConfigStore,
    env: Env,
    info: MessageInfo,
    msg: FactoryExecuteMsg,
) -> (answer: Result<Response, ContractError>)
    ensures
        match msg {
            FactoryExecuteMsg::Receive(payment) => committed(
                old(deps)@,
                on_record(
                    old(deps)@,
                    |config: ConfigView|
                        receive_outcome(
                            config,
                            info.sender@,
                            payment.sender@,
                            payment.amount as nat,
                        ),
                ),
                final(deps)@,
                answer,
            ),
        },
{
    match msg {
        FactoryExecuteMsg::Receive(Cw20ReceiveMsg { sender, amount, msg }) => execute_receive(
            deps,
            info,
            sender,
            amount,
            msg,
        ),
    }
}

/// The message that has the registry at `registry` create a token, around
/// the encoded mint message where the encoding succeeded; an encoding failure
/// is passed on as `EncodeFailure`.
pub fn registry_call(
    registry: String,
    encoded: Result<Vec<u8>, cosmwasm_std::StdError>,
) -> (call: Result<WasmMsg, ContractError>)
    ensures
        match encoded {
            Ok(payload) => call matches Ok(message) && message@ == (WasmMsgView::Execute {
                contract_addr: registry@,
                msg: payload@,
                funds: Seq::<Coin>::empty(),
            }),
            Err(_) => call == Err::<WasmMsg, ContractError>(ContractError::EncodeFailure),
        },
{
    let payload = match encoded {
        Ok(payload) => payload,
        Err(_) => {
            return Err(ContractError::EncodeFailure);
        },
    };
    let message = WasmMsg::Execute { contract_addr: registry, msg: payload, funds: Vec::new() };
    assert(message@->Execute_funds =~= Seq::<Coin>::empty());
    Ok(message)
}

/// Accepts a payment notification: `info` names the contract that delivered
/// it, `sender` paid `amount`. Where the payment gate lets it pass, one token
/// is issued to `sender`.
pub fn execute_receive(
    deps: &mut ConfigStore,
    info: MessageInfo,
    sender: String,
    amount: u128,
    msg: Vec<u8>,
) -> (answer: Result<Response, ContractError>)
    ensures
        committed(
            old(deps)@,
            on_record(
                old(deps)@,
                |config: ConfigView| receive_outcome(config, info.sender@, sender@, amount as nat),
            ),
            final(deps)@,
            answer,
        ),
{
    let config = match deps.load() {
        Ok(config) => config,
        Err(e) => {
            return Err(e);
        },
    };
    let payment = Cw20ReceiveMsg { sender, amount, msg };
    match authorize(&info, &payment, &config) {
        Ok(_) => {},
        Err(e) => {
            return Err(e);
        },
    }
    let registry = match &config.cw721_address {
        Some(address) => address.clone(),
        None => {
            return Err(ContractError::RegistryNotLinked);
        },
    };
    let ghost before = config@;
    let (mint_msg, next) = issue(config, payment.sender);
    let callback = match registry_call(registry, encode_mint_msg(&mint_msg)) {
        Ok(callback) => callback,
        Err(e) => {
            return Err(e);
        },
    };
    deps.save(&next);
    let response = Response::new().add_message(callback);
    assert(response@ =~= seq![
        mint_command(before.cw721_address->0, mint_payload(before, sender@)->0),
    ]);
    Ok(response)
}

/// Answers a question about the factory.
pub fn query(deps: &ConfigStore, env: Env, msg: QueryMsg) -> (answer: Result<
    ConfigResponse,
    ContractError,
>)
    ensures
        match deps@ {
            Some(config) => answer matches Ok(response) && response@ == config,
            None => answer == Err::<ConfigResponse, ContractError>(ContractError::NotInitialized),
        },
{
    match msg {
        QueryMsg::GetConfig {} => query_config(deps),
    }
}

/// The stored record, field for field.
pub fn query_config(deps: &ConfigStore) -> (answer: Result<ConfigResponse, ContractError>)
    ensures
        match deps@ {
            Some(config) => answer matches Ok(response) && response@ == config,
            None => answer == Err::<ConfigResponse, ContractError>(ContractError::NotInitialized),
        },
{
    let config = match deps.load() {
        Ok(config) => config,
        Err(e) => {
            return Err(e);
        },
    };
    Ok(
        ConfigResponse {
            owner: config.owner,
            cw20_address: config.cw20_address,
            cw721_address: config.cw721_address,
            max_tokens: config.max_tokens,
            unit_price: config.unit_price,
            name: config.name,
            symbol: config.symbol,
            token_uri: config.token_uri,
            extension: config.extension,
            unused_token_id: config.unused_token_id,
        },
    )
}

/// Handles the chain's report on the creation request: links the factory to
/// the registry that the report names.
pub fn reply(deps: &mut ConfigStore, env: Env, msg: Reply) -> (answer: Result<
    Response,
    ContractError,
>)
    ensures
        committed(
            old(deps)@,
            on_record(old(deps)@, |config: ConfigView| reply_outcome(config, msg)),
            final(deps)@,
            answer,
        ),
{
    let config = match deps.load() {
        Ok(config) => config,
        Err(e) => {
            return Err(e);
        },
    };
    let parsed = parse_reply_instantiate_data(&msg);
    let linked = match complete_creation(config, msg.id, parsed) {
        Ok(linked) => linked,
        Err(e) => {
            return Err(e);
        },
    };
    deps.save(&linked);
    Ok(Response::new())
}

} // verus!
