//! The issuance counter: numbers the tokens and counts them against the cap.

use vstd::prelude::*;
use crate::decimal::{decimal, render_decimal};
use crate::registry::{MintMsg, MintMsgView};
use crate::state::{Config, ConfigView};

verus! {

/// The configuration after one more token has been issued: the counter is one
/// higher, everything else is as before.
pub open spec fn issued(config: ConfigView) -> ConfigView {
    ConfigView { unused_token_id: config.unused_token_id + 1, ..config }
}

/// The identifier of the next token: the counter in decimal notation.
pub open spec fn next_token_id(config: ConfigView) -> Seq<char> {
    decimal(config.unused_token_id)
}

/// Takes the next token number. Returns its identifier and the configuration
/// with the counter advanced by one; the caller stores that configuration.
pub fn next_id(config: Config) -> (taken: (String, Config))
    requires
        config.unused_token_id < config.max_tokens,
    ensures
        taken.0@ == next_token_id(config@),
        taken.1@ == issued(config@),
{
    let token_id: String = render_decimal(config.unused_token_id);
    let mut advanced = config;
    advanced.unused_token_id = advanced.unused_token_id + 1;
    (token_id, advanced)
}

/// The mint message for the next token of `config`, made out to `payer`: it
/// carries the next token's identifier, and the location and the extension
/// that the configuration prescribes for every token.
pub open spec fn mint_order(config: ConfigView, payer: Seq<char>) -> MintMsgView {
    MintMsgView {
        token_id: next_token_id(config),
        owner: payer,
        token_uri: Some(config.token_uri),
        extension: config.extension,
    }
}

/// Issues the next token to `payer`. Returns the mint message for it and the
/// configuration with the counter advanced by one; the caller stores that
/// configuration and sends the message to the registry.
pub fn issue(config: Config, payer: String) -> (made: (MintMsg, Config))
    requires
        config.unused_token_id < config.max_tokens,
    ensures
        made.0@ == mint_order(config@, payer@),
        made.1@ == issued(config@),
{
    let (token_id, next) = next_id(config);
    let order = MintMsg {
        token_id,
        owner: payer,
        token_uri: Some(next.token_uri.clone()),
        extension: next.extension,
    };
    (order, next)
}

} // verus!
