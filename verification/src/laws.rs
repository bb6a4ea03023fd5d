//! What holds of every factory, whatever reaches it.
//!
//! The entry points state what one call does. The laws here are about
//! histories: any sequence of payment notifications and completion reports
//! that reach a factory after its initialization.

use vstd::prelude::*;
use crate::chain::{Reply, Response};
use crate::contract::{
    committed,
    instantiate_outcome,
    mint_command,
    mint_payload,
    receive_outcome,
    refused,
    reply_outcome,
    Outcome,
};
use crate::counter::{issued, next_token_id};
use crate::decimal::{decimal, lemma_decimal_injective};
use crate::error::ContractError;
use crate::gate::gate;
use crate::msg::FactoryInstantiateMsg;
use crate::state::ConfigView;

verus! {

/// One call that reaches an initialized factory.
pub enum Call {
    /// A payment notification: `medium` delivered it, `payer` paid `amount`.
    Receive { medium: Seq<char>, payer: Seq<char>, amount: nat },
    /// The chain's report on a dispatched message.
    Reply { msg: Reply },
}

/// What `call` comes to on the record `config`.
pub open spec fn call_outcome(config: ConfigView, call: Call) -> Outcome {
    match call {
        Call::Receive { medium, payer, amount } => receive_outcome(config, medium, payer, amount),
        Call::Reply { msg } => reply_outcome(config, msg),
    }
}

/// The record after `call`: the new one where the call succeeds, the old one
/// where it is refused.
pub open spec fn after_call(config: ConfigView, call: Call) -> ConfigView {
    match call_outcome(config, call) {
        Ok((next, _)) => next,
        Err(_) => config,
    }
}

/// The record after `calls`, made in order.
pub open spec fn after_calls(config: ConfigView, calls: Seq<Call>) -> ConfigView
    decreases calls.len(),
{
    if calls.len() == 0 {
        config
    } else {
        after_call(after_calls(config, calls.drop_last()), calls.last())
    }
}

/// The identifiers of the tokens issued by `calls`, in the order of issue.
pub open spec fn issued_ids(config: ConfigView, calls: Seq<Call>) -> Seq<Seq<char>>
    decreases calls.len(),
{
    if calls.len() == 0 {
        Seq::empty()
    } else {
        let earlier = issued_ids(config, calls.drop_last());
        let reached = after_calls(config, calls.drop_last());
        if calls.last() is Receive && call_outcome(reached, calls.last()) is Ok {
            earlier.push(next_token_id(reached))
        } else {
            earlier
        }
    }
}

/// How many of `calls` link the factory to a registry.
pub open spec fn link_count(config: ConfigView, calls: Seq<Call>) -> nat
    decreases calls.len(),
{
    if calls.len() == 0 {
        0
    } else {
        let earlier = link_count(config, calls.drop_last());
        let reached = after_calls(config, calls.drop_last());
        if calls.last() is Reply && call_outcome(reached, calls.last()) is Ok {
            earlier + 1
        } else {
            earlier
        }
    }
}

/// A call that was carried out as one unit leaves in the store the record
/// that [`after_call`] names.
pub proof fn law_store_follows_calls(
    config: ConfigView,
    call: Call,
    after: Option<ConfigView>,
    answer: Result<Response, ContractError>,
)
    requires
        committed(Some(config), call_outcome(config, call), after, answer),
    ensures
        after == Some(after_call(config, call)),
        answer is Ok <==> call_outcome(config, call) is Ok,
{
}

/// Initialization, where it succeeds, leaves a well-formed record that is
/// unlinked and has issued nothing, and dispatches exactly one request.
pub proof fn law_initial_record(contract: Seq<char>, sender: Seq<char>, msg: FactoryInstantiateMsg)
    ensures
        instantiate_outcome(contract, sender, msg) matches Ok((config, messages)) ==> {
            &&& config.wf()
            &&& !config.linked()
            &&& config.unused_token_id == 0
            &&& messages.len() == 1
        },
        msg.unit_price == 0 ==> instantiate_outcome(contract, sender, msg) == refused(
            ContractError::InvalidUnitPrice,
        ),
{
}

/// No call changes the price, the cap, the accepted payment contract or the
/// token metadata; the counter never goes down, and it moves by one exactly
/// when a payment is accepted. An accepted payment dispatches one message, an
/// accepted report none.
pub proof fn law_one_call(config: ConfigView, call: Call)
    ensures
        after_call(config, call).unit_price == config.unit_price,
        after_call(config, call).max_tokens == config.max_tokens,
        after_call(config, call).cw20_address == config.cw20_address,
        after_call(config, call).owner == config.owner,
        after_call(config, call).token_uri == config.token_uri,
        after_call(config, call).extension == config.extension,
        call is Receive && call_outcome(config, call) is Ok ==> {
            &&& config.unused_token_id < config.max_tokens
            &&& after_call(config, call).unused_token_id == config.unused_token_id + 1
            &&& after_call(config, call).cw721_address == config.cw721_address
        },
        !(call is Receive && call_outcome(config, call) is Ok) ==> after_call(
            config,
            call,
        ).unused_token_id == config.unused_token_id,
        config.wf() ==> after_call(config, call).wf(),
        call is Receive ==> (call_outcome(config, call) matches Ok((_, messages))
            ==> messages.len() == 1),
        call is Reply ==> (call_outcome(config, call) matches Ok((_, messages))
            ==> messages.len() == 0),
{
}

/// Supply cap: on a well-formed record, after any calls whatever, the record
/// is still well-formed. In particular the number of tokens issued never
/// exceeds the cap.
pub proof fn law_supply_cap(config: ConfigView, calls: Seq<Call>)
    requires
        config.wf(),
    ensures
        after_calls(config, calls).wf(),
        after_calls(config, calls).unused_token_id <= config.max_tokens,
        after_calls(config, calls).max_tokens == config.max_tokens,
        after_calls(config, calls).unit_price == config.unit_price,
        config.unused_token_id <= after_calls(config, calls).unused_token_id,
    decreases calls.len(),
{
    if calls.len() > 0 {
        law_supply_cap(config, calls.drop_last());
        law_one_call(after_calls(config, calls.drop_last()), calls.last());
    }
}

/// Once the cap is reached, a payment that is otherwise in order is refused
/// as `SupplyExhausted`, and the record stays as it is.
pub proof fn law_exhausted_supply(
    config: ConfigView,
    medium: Seq<char>,
    payer: Seq<char>,
    amount: nat,
)
    requires
        medium == config.cw20_address,
        config.linked(),
        config.unused_token_id >= config.max_tokens,
    ensures
        receive_outcome(config, medium, payer, amount) == refused(ContractError::SupplyExhausted),
        after_call(config, Call::Receive { medium, payer, amount }) == config,
{
}

/// A linked factory refuses every completion report as `AlreadyLinked`, and
/// its registry address stays as it is.
pub proof fn law_linked_refuses(config: ConfigView, msg: Reply)
    requires
        config.linked(),
    ensures
        reply_outcome(config, msg) == refused(ContractError::AlreadyLinked),
        after_call(config, Call::Reply { msg }) == config,
{
}

/// Once linked, always linked to the same registry: no sequence of calls
/// changes the address.
pub proof fn law_link_is_kept(config: ConfigView, calls: Seq<Call>)
    requires
        config.linked(),
    ensures
        after_calls(config, calls).cw721_address == config.cw721_address,
        link_count(config, calls) == 0,
    decreases calls.len(),
{
    if calls.len() > 0 {
        law_link_is_kept(config, calls.drop_last());
    }
}

/// Single linking: among any calls, at most one links the factory, and the
/// factory is linked afterwards exactly if it was linked before or one did.
pub proof fn law_single_linking(config: ConfigView, calls: Seq<Call>)
    ensures
        link_count(config, calls) <= 1,
        after_calls(config, calls).linked() <==> config.linked() || link_count(config, calls) == 1,
    decreases calls.len(),
{
    if calls.len() > 0 {
        let earlier = calls.drop_last();
        law_single_linking(config, earlier);
        let reached = after_calls(config, earlier);
        if calls.last() is Reply {
            if reached.linked() {
                law_linked_refuses(reached, calls.last()->msg);
            }
        }
    }
}

/// Payment exactness: where the payment contract is the accepted one, a
/// registry is linked and the cap is not reached, a payment of any amount
/// but the unit price, higher or lower, is refused as `WrongPaymentAmount`.
/// A payment of the unit price is let through: it issues one token and
/// dispatches one mint command, provided the mint message can be encoded,
/// and is refused as `EncodeFailure` otherwise.
pub proof fn law_payment_exactness(
    config: ConfigView,
    medium: Seq<char>,
    payer: Seq<char>,
    amount: nat,
)
    requires
        medium == config.cw20_address,
        config.linked(),
        config.unused_token_id < config.max_tokens,
    ensures
        amount != config.unit_price ==> receive_outcome(config, medium, payer, amount) == refused(
            ContractError::WrongPaymentAmount,
        ),
        amount == config.unit_price ==> gate(config, medium, amount) is Ok,
        amount == config.unit_price ==> receive_outcome(config, medium, payer, amount) == (
        match mint_payload(config, payer) {
            Some(payload) => Ok(
                (issued(config), seq![mint_command(config.cw721_address->0, payload)]),
            ),
            None => refused(ContractError::EncodeFailure),
        }),
{
}

/// Gate ordering: a payment that comes through another contract than the
/// accepted one is refused as `UnauthorizedPaymentMedium`, whatever its
/// amount and whatever the state of the factory.
pub proof fn law_gate_ordering(config: ConfigView, medium: Seq<char>, payer: Seq<char>, amount: nat)
    requires
        medium != config.cw20_address,
    ensures
        receive_outcome(config, medium, payer, amount) == refused(
            ContractError::UnauthorizedPaymentMedium,
        ),
{
}

/// Identifier monotonicity: the tokens issued by any calls carry, in order,
/// the decimal notations of consecutive numbers, starting at the counter
/// before the calls and ending just below the counter after them.
pub proof fn law_ids_count_up(config: ConfigView, calls: Seq<Call>)
    ensures
        config.unused_token_id + issued_ids(config, calls).len() == after_calls(
            config,
            calls,
        ).unused_token_id,
        forall|i: int|
            0 <= i < issued_ids(config, calls).len() ==> #[trigger] issued_ids(config, calls)[i]
                == decimal((config.unused_token_id + i) as nat),
    decreases calls.len(),
{
    if calls.len() > 0 {
        let earlier = calls.drop_last();
        law_ids_count_up(config, earlier);
        law_one_call(after_calls(config, earlier), calls.last());
    }
}

/// No identifier is issued twice.
pub proof fn law_ids_never_repeat(config: ConfigView, calls: Seq<Call>, i: int, j: int)
    requires
        0 <= i < j < issued_ids(config, calls).len(),
    ensures
        issued_ids(config, calls)[i] != issued_ids(config, calls)[j],
{
    law_ids_count_up(config, calls);
    if issued_ids(config, calls)[i] == issued_ids(config, calls)[j] {
        lemma_decimal_injective(
            (config.unused_token_id + i) as nat,
            (config.unused_token_id + j) as nat,
        );
    }
}

} // verus!
