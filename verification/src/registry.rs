//! The two messages that the factory sends to a token registry: the one that
//! sets a new registry up, and the one that creates a token in it.

use vstd::prelude::*;

verus! {

/// The extension that carries nothing.
#[derive(Clone, Copy, Debug, PartialEq, Eq, Structural)]
pub struct Empty {}

/// Extra data attached to every token: absent, or present and empty.
pub type Extension = Option<Empty>;

/// Sets up a new registry.
#[derive(Clone, Debug, PartialEq, Eq)]
pub struct InstantiateMsg {
    /// Name of the collection.
    pub name: String,
    /// Symbol of the collection.
    pub symbol: String,
    /// The only address allowed to create tokens in the registry.
    pub minter: String,
}

/// Creates one token in a registry.
#[derive(Clone, Debug, PartialEq, Eq)]
pub struct MintMsg {
    /// Identifier of the new token, unique within the registry.
    pub token_id: String,
    /// Who receives the new token.
    pub owner: String,
    /// Where the token's description is found.
    pub token_uri: Option<String>,
    pub extension: Extension,
}

/// What a [`MintMsg`] holds, as mathematical values.
pub struct MintMsgView {
    pub token_id: Seq<char>,
    pub owner: Seq<char>,
    pub token_uri: Option<Seq<char>>,
    pub extension: Extension,
}

impl View for MintMsg {
    type V = MintMsgView;

    open spec fn view(&self) -> MintMsgView {
        MintMsgView {
            token_id: self.token_id@,
            owner: self.owner@,
            token_uri: match self.token_uri {
                Some(uri) => Some(uri@),
                None => None,
            },
            extension: self.extension,
        }
    }
}

} // verus!
