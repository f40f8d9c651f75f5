//! Plain data carried through the marketplace: identities, listings,
//! collection registrations, errors, events, and the in-flight records of a
//! purchase or a deployment.

use crate::store::{CollectionStore, ListingStore};
use vstd::prelude::*;

verus! {

/// Identity of an account (a caller, a seller, a payee), as an opaque handle.
pub type AccountId = u128;

/// An amount of currency attached to a call or paid out by the engine.
pub type Balance = u128;

/// Identifier of one token inside a collection.
pub type TokenId = u128;

/// Opaque handle of the uploaded contract template that the factory
/// instantiates new collections from.
pub type CodeHash = u128;

/// One active fixed-price offer: who listed the token and for how much.
#[derive(Clone, Copy, Debug, PartialEq, Eq)]
pub struct Item {
    pub owner: AccountId,
    pub price: Balance,
}

/// Marketplace-level registration of one collection: who receives the
/// creator royalty, its size in basis points, and a descriptive URI.
#[derive(Clone, Debug, PartialEq, Eq)]
pub struct RegisteredCollection {
    pub royalty_receiver: AccountId,
    pub marketplace_ipfs: String,
    pub royalty: u16,
}

/// Failure of an owner-gated administrative call.
#[derive(Clone, Copy, Debug, PartialEq, Eq)]
pub enum OwnableError {
    CallerIsNotOwner,
}

/// Failure of the reentrancy guard around `buy`.
#[derive(Clone, Copy, Debug, PartialEq, Eq)]
pub enum ReentrancyGuardError {
    ReentrantCall,
}

/// Every way a marketplace operation can fail.
#[derive(Clone, Copy, Debug, PartialEq, Eq)]
pub enum MarketplaceError {
    /// Caller is not the marketplace owner.
    OwnableError(OwnableError),
    /// A nested call arrived while a guarded call was still executing.
    ReentrancyError(ReentrancyGuardError),
    /// Caller is not the owner of the token or collection.
    NotOwner,
    /// A token was not found in a contract.
    ItemNotFound,
    /// The token is not listed for sale.
    ItemNotListedForSale,
    /// The collection is not registered to the marketplace.
    NotRegisteredContract,
    /// The value sent with a buy call is below the listing price.
    BadBuyValue,
    /// The fee payment to the marketplace failed.
    TransferToMarketplaceFailed,
    /// The payment to the previous owner failed.
    TransferToOwnerFailed,
    /// The royalty payment to the creator failed.
    TransferToAuthorFailed,
    /// The collection is already registered to the marketplace.
    ContractAlreadyRegistered,
    /// The requested fee or royalty exceeds the configured cap.
    FeeTooHigh,
    /// The token could not be transferred to the buyer.
    UnableToTransferToken,
    /// No contract template is configured for the factory.
    NftContractHashNotSet,
    /// The deployer could not instantiate a new collection.
    PSP34InstantiationFailed,
    /// The buyer already owns the token.
    AlreadyOwner,
    /// The token does not exist in the collection.
    TokenDoesNotExist,
    /// The token is already listed for sale.
    ItemAlreadyListedForSale,
}

impl From<OwnableError> for MarketplaceError {
    fn from(error: OwnableError) -> (r: Self)
        ensures
            r == MarketplaceError::OwnableError(error),
    {
        MarketplaceError::OwnableError(error)
    }
}

impl vstd::std_specs::convert::FromSpecImpl<OwnableError> for MarketplaceError {
    open spec fn obeys_from_spec() -> bool {
        true
    }

    open spec fn from_spec(error: OwnableError) -> Self {
        MarketplaceError::OwnableError(error)
    }
}

impl From<ReentrancyGuardError> for MarketplaceError {
    fn from(error: ReentrancyGuardError) -> (r: Self)
        ensures
            r == MarketplaceError::ReentrancyError(error),
    {
        MarketplaceError::ReentrancyError(error)
    }
}

impl vstd::std_specs::convert::FromSpecImpl<ReentrancyGuardError> for MarketplaceError {
    open spec fn obeys_from_spec() -> bool {
        true
    }

    open spec fn from_spec(error: ReentrancyGuardError) -> Self {
        MarketplaceError::ReentrancyError(error)
    }
}

/// Notification that a token was listed (`price` carries the asked amount)
/// or unlisted (`price` is `None`).
#[derive(Clone, Copy, Debug, PartialEq, Eq)]
pub struct TokenListed {
    pub contract: AccountId,
    pub id: TokenId,
    pub price: Option<Balance>,
}

/// Notification that a token was bought at the given price.
#[derive(Clone, Copy, Debug, PartialEq, Eq)]
pub struct TokenBought {
    pub contract: AccountId,
    pub id: TokenId,
    pub price: Balance,
}

/// Notification that a collection was registered to the marketplace.
#[derive(Clone, Copy, Debug, PartialEq, Eq)]
pub struct CollectionRegistered {
    pub contract: AccountId,
}

/// The settlement plan of one purchase, fixed by `buy` once every check has
/// passed: the token to move and the three payment legs. It is kept by the
/// engine while the external transfer and payments are carried out, and it
/// doubles as the reentrancy guard: a nested `buy` fails while one is here.
#[derive(Clone, Copy, Debug, PartialEq, Eq)]
pub struct Sale {
    pub contract_address: AccountId,
    pub token_id: TokenId,
    /// Current owner of the token, who receives the seller's share.
    pub token_owner: AccountId,
    pub buyer: AccountId,
    /// Share of the payment owed to the previous owner.
    pub seller_fee: Balance,
    /// Share of the payment owed to the marketplace.
    pub marketplace_fee: Balance,
    /// Account that receives the marketplace's share.
    pub fee_recipient: AccountId,
    /// Account that receives the creator royalty.
    pub royalty_receiver: AccountId,
    /// Share of the payment owed to the creator.
    pub author_royalty: Balance,
    /// The full amount the buyer attached to the call.
    pub token_price: Balance,
}

/// What the factory hands out for the deployer to act on: the template to
/// instantiate, the constructor arguments, and unique salt material derived
/// from the caller and a fresh nonce.
#[derive(Clone, Debug, PartialEq, Eq)]
pub struct DeploymentRequest {
    pub code_hash: CodeHash,
    pub salt_caller: AccountId,
    pub salt_nonce: u64,
    pub nft_name: String,
    pub nft_symbol: String,
    pub nft_base_uri: String,
    pub nft_max_supply: u64,
    pub nft_price_per_mint: Balance,
}

/// Registration details kept by the engine while a deployment request is
/// with the deployer, applied once the new collection's identity is known.
#[derive(Clone, Debug, PartialEq, Eq)]
pub struct PendingDeployment {
    pub royalty_receiver: AccountId,
    pub royalty: u16,
    pub marketplace_ipfs: String,
    pub salt_nonce: u64,
}

/// Storage of the settlement engine: the two registries and the
/// marketplace-wide configuration.
pub struct Data {
    /// Collections registered to the marketplace, by collection identity.
    pub registered_collections: CollectionStore,
    /// Active listings, by collection and token identity.
    pub items: ListingStore,
    /// Marketplace cut of each sale, in basis points.
    pub fee: u16,
    /// Upper bound on `fee` and on every collection's royalty.
    pub max_fee: u16,
    /// Account receiving the marketplace cut; absent until first set.
    pub market_fee_recipient: Option<AccountId>,
    /// Template instantiated by the factory; absent until configured.
    pub nft_contract_hash: Option<CodeHash>,
    /// Counter used to derive a unique deployment salt per factory call.
    pub nonce: u64,
}

} // verus!
