use cw721_factory::chain::{Env, MessageInfo, ReplyOn, Response, SubMsg, WasmMsg};
use cw721_factory::coordinator::{complete_creation, registry_setup};
use cw721_factory::counter::{issue, next_id};
use cw721_factory::decimal::render_decimal;
use cw721_factory::error::ContractError;
use cw721_factory::gate::authorize;
use cw721_factory::msg::{Cw20ReceiveMsg, FactoryInstantiateMsg};
use cw721_factory::registry::{Empty, InstantiateMsg, MintMsg};
use cw721_factory::state::{Config, ConfigStore};

fn config(linked: bool, issued: u32, cap: u32, price: u128) -> Config {
    Config {
        owner: "owner".to_string(),
        cw20_address: "cw20".to_string(),
        cw721_address: if linked { Some("registry".to_string()) } else { None },
        max_tokens: cap,
        unit_price: price,
        name: "Name".to_string(),
        symbol: "SYM".to_string(),
        token_uri: "uri".to_string(),
        extension: Some(Empty {}),
        unused_token_id: issued,
    }
}

fn payment(amount: u128) -> Cw20ReceiveMsg {
    Cw20ReceiveMsg { sender: "payer".to_string(), amount, msg: vec![] }
}

fn from(medium: &str) -> MessageInfo {
    MessageInfo { sender: medium.to_string() }
}

#[test]
fn decimal_notation_of_small_and_large_numbers() {
    assert_eq!(render_decimal(0), "0");
    assert_eq!(render_decimal(7), "7");
    assert_eq!(render_decimal(9), "9");
    assert_eq!(render_decimal(10), "10");
    assert_eq!(render_decimal(42), "42");
    assert_eq!(render_decimal(100), "100");
    assert_eq!(render_decimal(1234567890), "1234567890");
    assert_eq!(render_decimal(u32::MAX), "4294967295");
}

#[test]
fn decimal_notation_agrees_with_the_standard_one() {
    for n in 0u32..2000 {
        assert_eq!(render_decimal(n), n.to_string());
    }
    for n in (0u32..=u32::MAX).step_by(9_999_991) {
        assert_eq!(render_decimal(n), n.to_string());
    }
}

#[test]
fn store_returns_what_was_saved_last() {
    let mut store = ConfigStore::new();
    assert_eq!(store.load(), Err(ContractError::NotInitialized));
    let first = config(false, 0, 5, 1);
    store.save(&first);
    assert_eq!(store.load(), Ok(first.clone()));
    let second = config(true, 3, 5, 1);
    store.save(&second);
    assert_eq!(store.load(), Ok(second.clone()));
    assert_eq!(store.load(), Ok(second));
}

#[test]
fn duplicate_holds_the_same_values() {
    let original = config(true, 3, 5, 8);
    assert_eq!(original.duplicate(), original);
    let unlinked = config(false, 0, 1, 1);
    assert_eq!(unlinked.duplicate(), unlinked);
}

#[test]
fn gate_accepts_an_exact_payment() {
    assert_eq!(authorize(&from("cw20"), &payment(8), &config(true, 3, 5, 8)), Ok(()));
    assert_eq!(authorize(&from("cw20"), &payment(8), &config(true, 4, 5, 8)), Ok(()));
}

#[test]
fn gate_names_each_violation() {
    assert_eq!(
        authorize(&from("other"), &payment(8), &config(true, 3, 5, 8)),
        Err(ContractError::UnauthorizedPaymentMedium)
    );
    assert_eq!(
        authorize(&from("cw20"), &payment(8), &config(false, 3, 5, 8)),
        Err(ContractError::RegistryNotLinked)
    );
    assert_eq!(
        authorize(&from("cw20"), &payment(8), &config(true, 5, 5, 8)),
        Err(ContractError::SupplyExhausted)
    );
    assert_eq!(
        authorize(&from("cw20"), &payment(8), &config(true, 6, 5, 8)),
        Err(ContractError::SupplyExhausted)
    );
    assert_eq!(
        authorize(&from("cw20"), &payment(7), &config(true, 3, 5, 8)),
        Err(ContractError::WrongPaymentAmount)
    );
    assert_eq!(
        authorize(&from("cw20"), &payment(9), &config(true, 3, 5, 8)),
        Err(ContractError::WrongPaymentAmount)
    );
}

#[test]
fn gate_tries_its_conditions_in_order() {
    // everything wrong at once
    assert_eq!(
        authorize(&from("other"), &payment(1), &config(false, 5, 5, 8)),
        Err(ContractError::UnauthorizedPaymentMedium)
    );
    // all but the medium
    assert_eq!(
        authorize(&from("cw20"), &payment(1), &config(false, 5, 5, 8)),
        Err(ContractError::RegistryNotLinked)
    );
    // exhausted and wrong amount
    assert_eq!(
        authorize(&from("cw20"), &payment(1), &config(true, 5, 5, 8)),
        Err(ContractError::SupplyExhausted)
    );
}

#[test]
fn counter_hands_out_the_current_number_and_advances_by_one() {
    let (id, next) = next_id(config(true, 0, 5, 8));
    assert_eq!(id, "0");
    assert_eq!(next, config(true, 1, 5, 8));

    let (id, next) = next_id(config(true, 41, 50, 8));
    assert_eq!(id, "41");
    assert_eq!(next, config(true, 42, 50, 8));

    let (id, next) = next_id(config(false, u32::MAX - 1, u32::MAX, 8));
    assert_eq!(id, "4294967294");
    assert_eq!(next.unused_token_id, u32::MAX);
}

#[test]
fn issue_makes_the_mint_message_out_to_the_payer() {
    let (order, next) = issue(config(true, 0, 5, 8), "payer".to_string());
    assert_eq!(
        order,
        MintMsg {
            token_id: "0".to_string(),
            owner: "payer".to_string(),
            token_uri: Some("uri".to_string()),
            extension: Some(Empty {}),
        }
    );
    assert_eq!(next, config(true, 1, 5, 8));

    let mut plain = config(true, 122, 123, 8);
    plain.extension = None;
    plain.token_uri = "ipfs://item".to_string();
    let (order, next) = issue(plain.clone(), "someone else".to_string());
    assert_eq!(
        order,
        MintMsg {
            token_id: "122".to_string(),
            owner: "someone else".to_string(),
            token_uri: Some("ipfs://item".to_string()),
            extension: None,
        }
    );
    plain.unused_token_id = 123;
    assert_eq!(next, plain);
}

#[test]
fn registry_is_set_up_with_the_factory_as_minter() {
    let env = Env { contract_address: "factory".to_string() };
    let msg = FactoryInstantiateMsg {
        owner: "owner".to_string(),
        max_tokens: 1,
        unit_price: 1,
        name: "Name".to_string(),
        symbol: "SYM".to_string(),
        token_code_id: 3,
        cw20_address: "cw20".to_string(),
        token_uri: "uri".to_string(),
        extension: None,
    };
    assert_eq!(
        registry_setup(&env, &msg),
        InstantiateMsg {
            name: "Name".to_string(),
            symbol: "SYM".to_string(),
            minter: "factory".to_string(),
        }
    );
}

#[test]
fn completion_links_an_unlinked_factory() {
    let linked = complete_creation(config(false, 0, 5, 8), 1, Ok("registry".to_string()));
    assert_eq!(linked, Ok(config(true, 0, 5, 8)));
}

#[test]
fn completion_names_each_refusal() {
    let parse_failure =
        || cw_utils::ParseReplyError::ParseFailure("Missing reply data".to_string());
    assert_eq!(
        complete_creation(config(true, 0, 5, 8), 1, Ok("other".to_string())),
        Err(ContractError::AlreadyLinked)
    );
    assert_eq!(
        complete_creation(config(false, 0, 5, 8), 2, Ok("registry".to_string())),
        Err(ContractError::UnexpectedCorrelationToken)
    );
    assert_eq!(
        complete_creation(config(false, 0, 5, 8), 1, Err(parse_failure())),
        Err(ContractError::DecodeFailure)
    );
    // A linked factory refuses as linked, whatever else is wrong.
    assert_eq!(
        complete_creation(config(true, 0, 5, 8), 2, Err(parse_failure())),
        Err(ContractError::AlreadyLinked)
    );
    // A wrong token is reported before an unreadable address.
    assert_eq!(
        complete_creation(config(false, 0, 5, 8), 2, Err(parse_failure())),
        Err(ContractError::UnexpectedCorrelationToken)
    );
}

#[test]
fn responses_collect_messages_in_order() {
    let first = WasmMsg::Execute { contract_addr: "a".to_string(), msg: vec![1], funds: vec![] };
    let second = SubMsg {
        id: 9,
        msg: WasmMsg::Execute { contract_addr: "b".to_string(), msg: vec![2], funds: vec![] },
        gas_limit: Some(5),
        reply_on: ReplyOn::Always,
    };
    assert_eq!(Response::new(), Response { messages: vec![] });
    let response = Response::new().add_message(first.clone()).add_submessage(second.clone());
    assert_eq!(
        response.messages,
        vec![
            SubMsg { id: 0, msg: first.clone(), gas_limit: None, reply_on: ReplyOn::Never },
            second
        ]
    );
    assert_eq!(
        SubMsg::new(first.clone()),
        SubMsg { id: 0, msg: first, gas_limit: None, reply_on: ReplyOn::Never }
    );
}
