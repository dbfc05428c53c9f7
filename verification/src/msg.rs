use vstd::prelude::*;
use crate::error::RegistryError;

verus! {

/// An amount of one fungible asset, in the asset's smallest unit.
#[derive(Debug, Clone, PartialEq, Eq)]
pub struct Coin {
    pub denom: String,
    pub amount: u128,
}

/// Extended on-chain metadata carried by each token. The piggy-bank
/// collection keeps all of its dynamic state in the balance ledger, so this
/// is empty.
#[derive(Debug, Clone, Default, PartialEq, Eq, Structural)]
pub struct MetadataExt {}

/// The parameters of a new collection.
#[derive(Debug, Clone, PartialEq, Eq)]
pub struct InstantiateMsg {
    /// Name of the NFT collection, registered with the token registry.
    pub name: String,
    /// Symbol of the NFT collection, registered with the token registry.
    pub symbol: String,
    /// The registry's minter / admin address.
    pub minter: String,
    /// The denomination accepted for deposits.
    pub deposit_denom: String,
    /// The base of the URI for token metadata; `<base>/<id>/<stage>.json`
    /// names the metadata of one token at one growth stage.
    pub base_url: String,
    /// The price of minting a new token.
    pub mint_price: Coin,
    /// The largest number of tokens that may ever be minted; `None` leaves
    /// the supply unlimited.
    pub max_nft_supply: Option<u64>,
    /// The recipient of the proceeds from minting.
    pub sale_funds_recipient: String,
}

/// The piggy-bank-specific execute requests, layered over the registry's own
/// request set.
#[derive(Debug, Clone, PartialEq, Eq)]
pub enum ExecuteExt {
    /// Deposit the attached funds into a particular token.
    Deposit { token_id: String },
    /// Overwrite a token's metadata URI, bypassing threshold derivation.
    /// Only the registry's minter may do this.
    UpdateTokenUri { token_id: String, token_uri: String },
}

/// The piggy-bank-specific query requests.
#[derive(Debug, Clone, PartialEq, Eq)]
pub enum QueryExt {
    /// The accumulated deposit balance of one token.
    Balance { token_id: String },
}

/// The state-mutating requests this core handles. Requests outside this set
/// are forwarded unchanged to the token registry's own handler.
#[derive(Debug, Clone, PartialEq, Eq)]
pub enum ExecuteMsg {
    /// Purchase a new token. The id, owner and URI supplied by the caller
    /// are ignored: the flow assigns the id from the counter, sets the
    /// caller as owner, and derives the URI itself.
    Mint { token_id: String, owner: String, token_uri: Option<String>, extension: MetadataExt },
    /// Destroy a token and pay its accumulated balance out to the caller.
    Burn { token_id: String },
    /// One of the piggy-bank extension requests.
    Extension { msg: ExecuteExt },
}

/// An outbound transfer instruction for the host ledger: send `amount` to
/// `to_address` once the transition has committed.
#[derive(Debug, Clone, PartialEq, Eq)]
pub struct BankSend {
    pub to_address: String,
    pub amount: Vec<Coin>,
}

/// A write the token registry must perform on behalf of a handler.
#[derive(Debug, Clone, PartialEq, Eq)]
pub enum RegistryOp {
    /// Create a token with this id, owner and metadata URI.
    Create { token_id: String, owner: String, token_uri: String },
    /// Overwrite the metadata URI of an existing token.
    SetUri { token_id: String, token_uri: String },
}

/// What a successful handler asks the host to do: zero or more outbound
/// transfers, and at most one registry write.
#[derive(Debug, Clone, PartialEq, Eq)]
pub struct Response {
    pub messages: Vec<BankSend>,
    pub registry_op: Option<RegistryOp>,
}

/// What the token registry reported about the current request before the
/// handler runs: whether the named token exists, who the configured minter
/// is, and — for a burn — the outcome of the registry's burn primitive.
#[derive(Debug, PartialEq, Eq)]
pub struct RegistryView {
    /// Whether the token named in the request exists in the registry.
    pub token_exists: bool,
    /// The registry's configured minter, if one is configured.
    pub minter: Option<String>,
    /// The outcome of the registry's burn primitive, which checks ownership
    /// and removes the token.
    pub burn_result: Result<(), RegistryError>,
}

} // verus!
