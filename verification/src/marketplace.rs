//! The settlement engine: lists and unlists tokens, registers collections,
//! decides purchases and computes their payment split, and administers the
//! marketplace configuration.
//!
//! Every operation takes the caller's identity, the payment attached to the
//! call, and any externally resolved fact (the current owner of a token, the
//! identity a deployer produced) as explicit arguments. A purchase runs in
//! two steps: `buy` validates the request and fixes the settlement plan, and
//! `settle_buy` commits or abandons it once the outcomes of the external
//! transfer and payment legs are known. While a plan is pending, every
//! nested `buy` fails with a reentrancy error. The full behaviour of each
//! mutating operation is captured by its `*_outcome` predicate.

use crate::fees::{bps_share, seller_share, split_payment};
use crate::store::{CollectionStore, ListingStore};
use crate::types::{
    AccountId, Balance, CodeHash, CollectionRegistered, Data, DeploymentRequest, Item,
    MarketplaceError, OwnableError, PendingDeployment, ReentrancyGuardError, RegisteredCollection,
    Sale, TokenBought, TokenId, TokenListed,
};
use vstd::prelude::*;

verus! {

/// Every registered royalty respects the cap.
pub open spec fn royalties_bounded(m: Map<AccountId, RegisteredCollection>, cap: u16) -> bool {
    forall|c: AccountId| #[trigger] m.contains_key(c) ==> m[c].royalty <= cap
}

/// Registering one more collection whose royalty respects the cap keeps
/// every registered royalty within it.
proof fn lemma_royalties_bounded_insert(
    m: Map<AccountId, RegisteredCollection>,
    cap: u16,
    c: AccountId,
    col: RegisteredCollection,
)
    requires
        royalties_bounded(m, cap),
        col.royalty <= cap,
    ensures
        royalties_bounded(m.insert(c, col), cap),
{
    assert forall|c2: AccountId| #[trigger] m.insert(c, col).contains_key(c2) implies m.insert(
        c,
        col,
    )[c2].royalty <= cap by {
        if c2 != c {
            assert(m.contains_key(c2));
        }
    }
}

/// The marketplace settlement engine.
pub struct MarketplaceContract {
    /// The marketplace owner, fixed at construction.
    pub owner: AccountId,
    /// The purchase whose external transfer and payment legs are in flight.
    /// It doubles as the reentrancy guard: `buy` fails while one is pending.
    pub pending_sale: Option<Sale>,
    /// The deployment whose instantiation is with the external deployer.
    pub pending_deploy: Option<PendingDeployment>,
    /// Registries and marketplace configuration.
    pub data: Data,
}

impl MarketplaceContract {
    /// Registered collections, as a map from collection identity.
    pub open spec fn collections(self) -> Map<AccountId, RegisteredCollection> {
        self.data.registered_collections@
    }

    /// Active listings, as a map from collection and token identity.
    pub open spec fn listings(self) -> Map<(AccountId, TokenId), Item> {
        self.data.items@
    }

    /// A token is for sale exactly when a listing for it exists.
    pub open spec fn spec_is_listed(self, c: AccountId, t: TokenId) -> bool {
        self.listings().contains_key((c, t))
    }

    /// The price a listed token is offered at, if any.
    pub open spec fn spec_get_price(self, c: AccountId, t: TokenId) -> Option<Balance> {
        if self.spec_is_listed(c, t) {
            Some(self.listings()[(c, t)].price)
        } else {
            None
        }
    }

    /// Well-formedness: the stores hold distinct keys, the fee respects the
    /// cap, and so does every registered or pending royalty.
    pub open spec fn wf(self) -> bool {
        &&& self.data.registered_collections.wf()
        &&& self.data.items.wf()
        &&& self.data.fee <= self.data.max_fee
        &&& self.data.max_fee <= 10000
        &&& royalties_bounded(self.collections(), self.data.max_fee)
        &&& (self.pending_deploy matches Some(pd) ==> pd.royalty <= self.data.max_fee)
    }

    /// The owner, fee configuration, template and nonce are unchanged.
    pub open spec fn same_config(pre: Self, post: Self) -> bool {
        &&& post.owner == pre.owner
        &&& post.data.fee == pre.data.fee
        &&& post.data.max_fee == pre.data.max_fee
        &&& post.data.market_fee_recipient == pre.data.market_fee_recipient
        &&& post.data.nft_contract_hash == pre.data.nft_contract_hash
        &&& post.data.nonce == pre.data.nonce
    }

    /// No purchase or deployment was begun or resolved.
    pub open spec fn same_pending(pre: Self, post: Self) -> bool {
        &&& post.pending_sale == pre.pending_sale
        &&& post.pending_deploy == pre.pending_deploy
    }

    /// Builds an engine owned by `caller`, with a 1% marketplace fee, a 10%
    /// fee and royalty cap, the given fee recipient, and empty registries.
    pub fn new(market_fee_recipient: AccountId, caller: AccountId) -> (r: Self)
        ensures
            r.wf(),
            r.owner == caller,
            r.data.fee == 100,
            r.data.max_fee == 1000,
            r.data.market_fee_recipient == Some(market_fee_recipient),
            r.data.nft_contract_hash is None,
            r.data.nonce == 0,
            r.pending_sale is None,
            r.pending_deploy is None,
            r.collections() == Map::<AccountId, RegisteredCollection>::empty(),
            r.listings() == Map::<(AccountId, TokenId), Item>::empty(),
    {
        MarketplaceContract {
            owner: caller,
            pending_sale: None,
            pending_deploy: None,
            data: Data {
                registered_collections: CollectionStore::new(),
                items: ListingStore::new(),
                fee: 100,  // 1%
                max_fee: 1000,  // 10%
                market_fee_recipient: Some(market_fee_recipient),
                nft_contract_hash: None,
                nonce: 0,
            },
        }
    }

    // ------------------------------------------------------------------
    // Policy checks
    // ------------------------------------------------------------------

    /// Who may list, unlist or register against collection `c`: the
    /// collection must be registered, the token must resolve to an owner,
    /// and that owner must be the caller.
    pub open spec fn spec_check_token_owner(
        self,
        c: AccountId,
        caller: AccountId,
        current_owner: Option<AccountId>,
    ) -> Result<(), MarketplaceError> {
        if !self.collections().contains_key(c) {
            Err(MarketplaceError::NotRegisteredContract)
        } else if current_owner is None {
            Err(MarketplaceError::TokenDoesNotExist)
        } else if current_owner != Some(caller) {
            Err(MarketplaceError::NotOwner)
        } else {
            Ok(())
        }
    }

    /// Checks that the caller is the current owner of a token of collection
    /// `contract_address`, given the owner the token registry reported.
    pub fn check_token_owner(
        &self,
        contract_address: AccountId,
        caller: AccountId,
        current_owner: Option<AccountId>,
    ) -> (r: Result<(), MarketplaceError>)
        ensures
            r == self.spec_check_token_owner(contract_address, caller, current_owner),
    {
        if !self.data.registered_collections.contains(contract_address) {
            return Err(MarketplaceError::NotRegisteredContract);
        }
        match current_owner {
            Some(token_owner) => {
                if caller == token_owner {
                    Ok(())
                } else {
                    Err(MarketplaceError::NotOwner)
                }
            },
            None => Err(MarketplaceError::TokenDoesNotExist),
        }
    }

    /// Checks that an attached payment covers a price.
    pub fn check_price(&self, transferred_value: Balance, price: Balance) -> (r: Result<
        (),
        MarketplaceError,
    >)
        ensures
            r == if transferred_value >= price {
                Ok::<(), MarketplaceError>(())
            } else {
                Err::<(), MarketplaceError>(MarketplaceError::BadBuyValue)
            },
    {
        if transferred_value >= price {
            Ok(())
        } else {
            Err(MarketplaceError::BadBuyValue)
        }
    }

    /// Checks a fee or royalty against the configured cap.
    pub fn check_fee(&self, fee: u16, max_fee: u16) -> (r: Result<(), MarketplaceError>)
        ensures
            r == if fee <= max_fee {
                Ok::<(), MarketplaceError>(())
            } else {
                Err::<(), MarketplaceError>(MarketplaceError::FeeTooHigh)
            },
    {
        if fee <= max_fee {
            Ok(())
        } else {
            Err(MarketplaceError::FeeTooHigh)
        }
    }

    /// Whether the token is listed for sale.
    pub fn is_token_listed(&self, contract_address: AccountId, token_id: TokenId) -> (r: bool)
        ensures
            r == self.spec_is_listed(contract_address, token_id),
    {
        self.data.items.contains(contract_address, token_id)
    }

    // ------------------------------------------------------------------
    // Listing
    // ------------------------------------------------------------------

    /// Everything `list` does: already-listed and ownership failures leave
    /// the engine unchanged; otherwise the listing is created under the
    /// caller at the asked price and announced.
    pub open spec fn list_outcome(
        pre: Self,
        post: Self,
        c: AccountId,
        t: TokenId,
        price: Balance,
        caller: AccountId,
        current_owner: Option<AccountId>,
        r: Result<TokenListed, MarketplaceError>,
    ) -> bool {
        if pre.spec_is_listed(c, t) {
            r == Err::<TokenListed, MarketplaceError>(MarketplaceError::ItemAlreadyListedForSale)
                && post == pre
        } else if pre.spec_check_token_owner(c, caller, current_owner) is Err {
            r == Err::<TokenListed, MarketplaceError>(
                pre.spec_check_token_owner(c, caller, current_owner)->Err_0,
            ) && post == pre
        } else {
            &&& r == Ok::<TokenListed, MarketplaceError>(
                TokenListed { contract: c, id: t, price: Some(price) },
            )
            &&& post.listings() == pre.listings().insert((c, t), Item { owner: caller, price })
            &&& post.collections() == pre.collections()
            &&& Self::same_config(pre, post)
            &&& Self::same_pending(pre, post)
        }
    }

    /// Creates a fixed-price sale for a token the caller owns, and returns
    /// the notification to publish. A price of zero is accepted and makes a
    /// valid "free" listing.
    pub fn list(
        &mut self,
        contract_address: AccountId,
        token_id: TokenId,
        price: Balance,
        caller: AccountId,
        current_owner: Option<AccountId>,
    ) -> (r: Result<TokenListed, MarketplaceError>)
        requires
            old(self).wf(),
        ensures
            final(self).wf(),
            Self::list_outcome(
                *old(self),
                *final(self),
                contract_address,
                token_id,
                price,
                caller,
                current_owner,
                r,
            ),
    {
        if self.is_token_listed(contract_address, token_id) {
            return Err(MarketplaceError::ItemAlreadyListedForSale);
        }
        match self.check_token_owner(contract_address, caller, current_owner) {
            Err(e) => Err(e),
            Ok(()) => {
                self.data.items.put(contract_address, token_id, Item { owner: caller, price });
                Ok(TokenListed { contract: contract_address, id: token_id, price: Some(price) })
            },
        }
    }

    /// Everything `unlist` does: not-listed and ownership failures leave the
    /// engine unchanged; otherwise the listing is removed and the delisting
    /// announced.
    pub open spec fn unlist_outcome(
        pre: Self,
        post: Self,
        c: AccountId,
        t: TokenId,
        caller: AccountId,
        current_owner: Option<AccountId>,
        r: Result<TokenListed, MarketplaceError>,
    ) -> bool {
        if !pre.spec_is_listed(c, t) {
            r == Err::<TokenListed, MarketplaceError>(MarketplaceError::ItemNotListedForSale)
                && post == pre
        } else if pre.spec_check_token_owner(c, caller, current_owner) is Err {
            r == Err::<TokenListed, MarketplaceError>(
                pre.spec_check_token_owner(c, caller, current_owner)->Err_0,
            ) && post == pre
        } else {
            &&& r == Ok::<TokenListed, MarketplaceError>(
                TokenListed { contract: c, id: t, price: None },
            )
            &&& post.listings() == pre.listings().remove((c, t))
            &&& post.collections() == pre.collections()
            &&& Self::same_config(pre, post)
            &&& Self::same_pending(pre, post)
        }
    }

    /// Removes a listing. Only the token's current owner may do so, which
    /// permits delisting after an out-of-band transfer.
    pub fn unlist(
        &mut self,
        contract_address: AccountId,
        token_id: TokenId,
        caller: AccountId,
        current_owner: Option<AccountId>,
    ) -> (r: Result<TokenListed, MarketplaceError>)
        requires
            old(self).wf(),
        ensures
            final(self).wf(),
            Self::unlist_outcome(
                *old(self),
                *final(self),
                contract_address,
                token_id,
                caller,
                current_owner,
                r,
            ),
    {
        if !self.is_token_listed(contract_address, token_id) {
            return Err(MarketplaceError::ItemNotListedForSale);
        }
        match self.check_token_owner(contract_address, caller, current_owner) {
            Err(e) => Err(e),
            Ok(()) => {
                self.data.items.remove(contract_address, token_id);
                Ok(TokenListed { contract: contract_address, id: token_id, price: None })
            },
        }
    }

    // ------------------------------------------------------------------
    // Buying
    // ------------------------------------------------------------------

    /// All checks a purchase request must pass before settlement begins.
    pub open spec fn buy_checks_pass(
        pre: Self,
        c: AccountId,
        t: TokenId,
        caller: AccountId,
        value: Balance,
        current_owner: Option<AccountId>,
    ) -> bool {
        &&& pre.pending_sale is None
        &&& pre.spec_is_listed(c, t)
        &&& current_owner is Some
        &&& current_owner != Some(caller)
        &&& value >= pre.listings()[(c, t)].price
        &&& pre.collections().contains_key(c)
    }

    /// The settlement plan a passing purchase request fixes: the token goes
    /// to the caller, and the payment splits into the marketplace share, the
    /// collection's royalty, and the remainder for the current owner.
    pub open spec fn spec_sale(
        pre: Self,
        c: AccountId,
        t: TokenId,
        caller: AccountId,
        value: Balance,
        current_owner: Option<AccountId>,
    ) -> Sale
        recommends
            Self::buy_checks_pass(pre, c, t, caller, value, current_owner),
            pre.data.market_fee_recipient is Some,
    {
        let col = pre.collections()[c];
        let marketplace_fee = bps_share(value, pre.data.fee);
        let author_royalty = bps_share(value, col.royalty);
        Sale {
            contract_address: c,
            token_id: t,
            token_owner: current_owner->0,
            buyer: caller,
            seller_fee: seller_share(value, marketplace_fee, author_royalty),
            marketplace_fee,
            fee_recipient: pre.data.market_fee_recipient->0,
            royalty_receiver: col.royalty_receiver,
            author_royalty,
            token_price: value,
        }
    }

    /// Everything `buy` does: while a sale is pending every call fails with
    /// the reentrancy error; each failed check leaves the engine unchanged
    /// and reports its own error; a passing request fixes the settlement
    /// plan and changes nothing else.
    pub open spec fn buy_outcome(
        pre: Self,
        post: Self,
        c: AccountId,
        t: TokenId,
        caller: AccountId,
        value: Balance,
        current_owner: Option<AccountId>,
        r: Result<Sale, MarketplaceError>,
    ) -> bool {
        if pre.pending_sale is Some {
            r == Err::<Sale, MarketplaceError>(
                MarketplaceError::ReentrancyError(ReentrancyGuardError::ReentrantCall),
            ) && post == pre
        } else if !pre.spec_is_listed(c, t) {
            r == Err::<Sale, MarketplaceError>(MarketplaceError::ItemNotListedForSale) && post
                == pre
        } else if current_owner is None {
            r == Err::<Sale, MarketplaceError>(MarketplaceError::TokenDoesNotExist) && post == pre
        } else if current_owner == Some(caller) {
            r == Err::<Sale, MarketplaceError>(MarketplaceError::AlreadyOwner) && post == pre
        } else if value < pre.listings()[(c, t)].price {
            r == Err::<Sale, MarketplaceError>(MarketplaceError::BadBuyValue) && post == pre
        } else if !pre.collections().contains_key(c) {
            r == Err::<Sale, MarketplaceError>(MarketplaceError::NotRegisteredContract) && post
                == pre
        } else {
            let sale = Self::spec_sale(pre, c, t, caller, value, current_owner);
            &&& r == Ok::<Sale, MarketplaceError>(sale)
            &&& post == MarketplaceContract { pending_sale: Some(sale), ..pre }
        }
    }

    /// Validates a purchase of a listed token against the attached payment
    /// and fixes the settlement plan. The plan's external legs — moving the
    /// token, then paying seller, marketplace and royalty receiver — are
    /// performed by the caller's runtime and reported to `settle_buy`;
    /// until then the engine refuses any nested `buy`. A request that
    /// passes every check needs a configured fee recipient to pay the
    /// marketplace share to; the constructor always sets one.
    pub fn buy(
        &mut self,
        contract_address: AccountId,
        token_id: TokenId,
        caller: AccountId,
        transferred_value: Balance,
        current_owner: Option<AccountId>,
    ) -> (r: Result<Sale, MarketplaceError>)
        requires
            old(self).wf(),
            Self::buy_checks_pass(
                *old(self),
                contract_address,
                token_id,
                caller,
                transferred_value,
                current_owner,
            ) ==> old(self).data.market_fee_recipient is Some,
        ensures
            final(self).wf(),
            Self::buy_outcome(
                *old(self),
                *final(self),
                contract_address,
                token_id,
                caller,
                transferred_value,
                current_owner,
                r,
            ),
    {
        if self.pending_sale.is_some() {
            return Err(MarketplaceError::ReentrancyError(ReentrancyGuardError::ReentrantCall));
        }
        let item = match self.data.items.get(contract_address, token_id) {
            Some(item) => item,
            None => { return Err(MarketplaceError::ItemNotListedForSale) },
        };
        let token_owner = match current_owner {
            Some(owner) => owner,
            None => { return Err(MarketplaceError::TokenDoesNotExist) },
        };
        if token_owner == caller {
            return Err(MarketplaceError::AlreadyOwner);
        }
        if let Err(e) = self.check_price(transferred_value, item.price) {
            return Err(e);
        }
        let (royalty_receiver, royalty): (AccountId, u16) = match self
            .data
            .registered_collections
            .get(contract_address) {
            Some(collection) => (collection.royalty_receiver, collection.royalty),
            None => { return Err(MarketplaceError::NotRegisteredContract) },
        };
        let shares: (Balance, Balance, Balance) = split_payment(
            transferred_value,
            self.data.fee,
            royalty,
        );
        let sale = Sale {
            contract_address,
            token_id,
            token_owner,
            buyer: caller,
            seller_fee: shares.2,
            marketplace_fee: shares.0,
            fee_recipient: self.data.market_fee_recipient.unwrap(),
            royalty_receiver,
            author_royalty: shares.1,
            token_price: transferred_value,
        };
        self.pending_sale = Some(sale);
        Ok(sale)
    }

    /// Everything `settle_buy` does: the pending plan is always cleared; a
    /// failed transfer or payment leg reports which leg failed and leaves
    /// the registries unchanged; full success removes the listing and
    /// announces the purchase.
    pub open spec fn settle_outcome(
        pre: Self,
        post: Self,
        token_transferred: bool,
        seller_paid: bool,
        marketplace_paid: bool,
        royalty_paid: bool,
        r: Result<TokenBought, MarketplaceError>,
    ) -> bool
        recommends
            pre.pending_sale is Some,
    {
        let sale = pre.pending_sale->0;
        if !token_transferred {
            r == Err::<TokenBought, MarketplaceError>(MarketplaceError::UnableToTransferToken)
                && post == MarketplaceContract { pending_sale: None, ..pre }
        } else if !seller_paid {
            r == Err::<TokenBought, MarketplaceError>(MarketplaceError::TransferToOwnerFailed)
                && post == MarketplaceContract { pending_sale: None, ..pre }
        } else if !marketplace_paid {
            r == Err::<TokenBought, MarketplaceError>(
                MarketplaceError::TransferToMarketplaceFailed,
            ) && post == MarketplaceContract { pending_sale: None, ..pre }
        } else if !royalty_paid {
            r == Err::<TokenBought, MarketplaceError>(MarketplaceError::TransferToAuthorFailed)
                && post == MarketplaceContract { pending_sale: None, ..pre }
        } else {
            &&& r == Ok::<TokenBought, MarketplaceError>(
                TokenBought {
                    contract: sale.contract_address,
                    id: sale.token_id,
                    price: sale.token_price,
                },
            )
            &&& post.listings() == pre.listings().remove(
                (sale.contract_address, sale.token_id),
            )
            &&& post.collections() == pre.collections()
            &&& Self::same_config(pre, post)
            &&& post.pending_sale is None
            &&& post.pending_deploy == pre.pending_deploy
        }
    }

    /// Commits or abandons the pending purchase, given how its external
    /// legs went. Settlement is atomic: unless the token moved and all
    /// three payments succeeded, the listing is kept as it was and the
    /// failing leg is reported, on the understanding that the runtime
    /// undoes the partial external effects of a failed operation.
    pub fn settle_buy(
        &mut self,
        token_transferred: bool,
        seller_paid: bool,
        marketplace_paid: bool,
        royalty_paid: bool,
    ) -> (r: Result<TokenBought, MarketplaceError>)
        requires
            old(self).wf(),
            old(self).pending_sale is Some,
        ensures
            final(self).wf(),
            Self::settle_outcome(
                *old(self),
                *final(self),
                token_transferred,
                seller_paid,
                marketplace_paid,
                royalty_paid,
                r,
            ),
    {
        let sale = self.pending_sale.unwrap();
        self.pending_sale = None;
        if !token_transferred {
            return Err(MarketplaceError::UnableToTransferToken);
        }
        if !seller_paid {
            return Err(MarketplaceError::TransferToOwnerFailed);
        }
        if !marketplace_paid {
            return Err(MarketplaceError::TransferToMarketplaceFailed);
        }
        if !royalty_paid {
            return Err(MarketplaceError::TransferToAuthorFailed);
        }
        self.data.items.remove(sale.contract_address, sale.token_id);
        Ok(TokenBought { contract: sale.contract_address, id: sale.token_id, price: sale.token_price })
    }

    // ------------------------------------------------------------------
    // Registration
    // ------------------------------------------------------------------

    /// Everything `register` does: an over-cap royalty, a caller who is
    /// neither marketplace owner nor collection owner, or a repeated
    /// registration leave the engine unchanged; otherwise the collection is
    /// recorded and announced.
    pub open spec fn register_outcome(
        pre: Self,
        post: Self,
        c: AccountId,
        royalty_receiver: AccountId,
        royalty: u16,
        marketplace_ipfs: String,
        caller: AccountId,
        collection_owner: Option<AccountId>,
        r: Result<CollectionRegistered, MarketplaceError>,
    ) -> bool {
        if royalty > pre.data.max_fee {
            r == Err::<CollectionRegistered, MarketplaceError>(MarketplaceError::FeeTooHigh)
                && post == pre
        } else if caller != pre.owner && collection_owner != Some(caller) {
            r == Err::<CollectionRegistered, MarketplaceError>(MarketplaceError::NotOwner) && post
                == pre
        } else if pre.collections().contains_key(c) {
            r == Err::<CollectionRegistered, MarketplaceError>(
                MarketplaceError::ContractAlreadyRegistered,
            ) && post == pre
        } else {
            &&& r == Ok::<CollectionRegistered, MarketplaceError>(
                CollectionRegistered { contract: c },
            )
            &&& post.collections() == pre.collections().insert(
                c,
                RegisteredCollection { royalty_receiver, marketplace_ipfs, royalty },
            )
            &&& post.listings() == pre.listings()
            &&& Self::same_config(pre, post)
            &&& Self::same_pending(pre, post)
        }
    }

    /// Registers a collection to the marketplace. The caller must be the
    /// marketplace owner or the collection's own owner, as reported by the
    /// caller's runtime in `collection_owner`.
    pub fn register(
        &mut self,
        contract_address: AccountId,
        royalty_receiver: AccountId,
        royalty: u16,
        marketplace_ipfs: String,
        caller: AccountId,
        collection_owner: Option<AccountId>,
    ) -> (r: Result<CollectionRegistered, MarketplaceError>)
        requires
            old(self).wf(),
        ensures
            final(self).wf(),
            Self::register_outcome(
                *old(self),
                *final(self),
                contract_address,
                royalty_receiver,
                royalty,
                marketplace_ipfs,
                caller,
                collection_owner,
                r,
            ),
    {
        let max_fee: u16 = self.data.max_fee;
        if let Err(e) = self.check_fee(royalty, max_fee) {
            return Err(e);
        }
        let is_collection_owner: bool = match collection_owner {
            Some(owner) => owner == caller,
            None => false,
        };
        if self.owner != caller && !is_collection_owner {
            return Err(MarketplaceError::NotOwner);
        }
        if self.data.registered_collections.contains(contract_address) {
            Err(MarketplaceError::ContractAlreadyRegistered)
        } else {
            self.data.registered_collections.put(
                contract_address,
                RegisteredCollection { royalty_receiver, royalty, marketplace_ipfs },
            );
            proof {
                lemma_royalties_bounded_insert(
                    old(self).collections(),
                    old(self).data.max_fee,
                    contract_address,
                    RegisteredCollection { royalty_receiver, royalty, marketplace_ipfs },
                );
            }
            Ok(CollectionRegistered { contract: contract_address })
        }
    }

    /// The registered collection under `contract_address`, if any.
    pub fn get_registered_collection(&self, contract_address: AccountId) -> (r: Option<
        RegisteredCollection,
    >)
        requires
            self.wf(),
        ensures
            r == if self.collections().contains_key(contract_address) {
                Some(self.collections()[contract_address])
            } else {
                None::<RegisteredCollection>
            },
    {
        match self.data.registered_collections.get(contract_address) {
            Some(collection) => Some(
                RegisteredCollection {
                    royalty_receiver: collection.royalty_receiver,
                    marketplace_ipfs: collection.marketplace_ipfs.clone(),
                    royalty: collection.royalty,
                },
            ),
            None => None,
        }
    }

    // ------------------------------------------------------------------
    // Administration and read access
    // ------------------------------------------------------------------

    /// Everything `set_marketplace_fee` does: only the owner may set it,
    /// only up to the cap; a failure leaves the fee as it was.
    pub open spec fn set_fee_outcome(
        pre: Self,
        post: Self,
        fee: u16,
        caller: AccountId,
        r: Result<(), MarketplaceError>,
    ) -> bool {
        if caller != pre.owner {
            r == Err::<(), MarketplaceError>(
                MarketplaceError::OwnableError(OwnableError::CallerIsNotOwner),
            ) && post == pre
        } else if fee > pre.data.max_fee {
            r == Err::<(), MarketplaceError>(MarketplaceError::FeeTooHigh) && post == pre
        } else {
            r == Ok::<(), MarketplaceError>(()) && post == MarketplaceContract {
                data: Data { fee, ..pre.data },
                ..pre
            }
        }
    }

    /// Sets the marketplace fee, owner-only and capped by `max_fee`.
    pub fn set_marketplace_fee(&mut self, fee: u16, caller: AccountId) -> (r: Result<
        (),
        MarketplaceError,
    >)
        requires
            old(self).wf(),
        ensures
            final(self).wf(),
            Self::set_fee_outcome(*old(self), *final(self), fee, caller, r),
    {
        if caller != self.owner {
            return Err(MarketplaceError::OwnableError(OwnableError::CallerIsNotOwner));
        }
        let max_fee: u16 = self.data.max_fee;
        if let Err(e) = self.check_fee(fee, max_fee) {
            return Err(e);
        }
        self.data.fee = fee;
        Ok(())
    }

    /// The marketplace cut of each sale, in basis points.
    pub fn get_marketplace_fee(&self) -> (r: u16)
        ensures
            r == self.data.fee,
    {
        self.data.fee
    }

    /// The cap on the marketplace fee and on every collection royalty.
    pub fn get_max_fee(&self) -> (r: u16)
        ensures
            r == self.data.max_fee,
    {
        self.data.max_fee
    }

    /// The price a listed token is offered at, if it is listed.
    pub fn get_price(&self, contract_address: AccountId, token_id: TokenId) -> (r: Option<Balance>)
        requires
            self.wf(),
        ensures
            r == self.spec_get_price(contract_address, token_id),
    {
        match self.data.items.get(contract_address, token_id) {
            Some(item) => Some(item.price),
            None => None,
        }
    }

    /// Everything `set_contract_metadata` does: owner-only, on a registered
    /// collection; on success only the descriptive URI changes.
    pub open spec fn set_metadata_outcome(
        pre: Self,
        post: Self,
        c: AccountId,
        ipfs: String,
        caller: AccountId,
        r: Result<(), MarketplaceError>,
    ) -> bool {
        if caller != pre.owner {
            r == Err::<(), MarketplaceError>(
                MarketplaceError::OwnableError(OwnableError::CallerIsNotOwner),
            ) && post == pre
        } else if !pre.collections().contains_key(c) {
            r == Err::<(), MarketplaceError>(MarketplaceError::NotRegisteredContract) && post
                == pre
        } else {
            &&& r == Ok::<(), MarketplaceError>(())
            &&& post.collections() == pre.collections().insert(
                c,
                RegisteredCollection {
                    royalty_receiver: pre.collections()[c].royalty_receiver,
                    marketplace_ipfs: ipfs,
                    royalty: pre.collections()[c].royalty,
                },
            )
            &&& post.listings() == pre.listings()
            &&& Self::same_config(pre, post)
            &&& Self::same_pending(pre, post)
        }
    }

    /// Replaces the descriptive URI of a registered collection, owner-only.
    pub fn set_contract_metadata(
        &mut self,
        contract_address: AccountId,
        ipfs: String,
        caller: AccountId,
    ) -> (r: Result<(), MarketplaceError>)
        requires
            old(self).wf(),
        ensures
            final(self).wf(),
            Self::set_metadata_outcome(*old(self), *final(self), contract_address, ipfs, caller, r),
    {
        if caller != self.owner {
            return Err(MarketplaceError::OwnableError(OwnableError::CallerIsNotOwner));
        }
        let (royalty_receiver, royalty): (AccountId, u16) = match self
            .data
            .registered_collections
            .get(contract_address) {
            Some(collection) => (collection.royalty_receiver, collection.royalty),
            None => { return Err(MarketplaceError::NotRegisteredContract) },
        };
        self.data.registered_collections.put(
            contract_address,
            RegisteredCollection { royalty_receiver, marketplace_ipfs: ipfs, royalty },
        );
        proof {
            lemma_royalties_bounded_insert(
                old(self).collections(),
                old(self).data.max_fee,
                contract_address,
                RegisteredCollection { royalty_receiver, marketplace_ipfs: ipfs, royalty },
            );
        }
        Ok(())
    }

    /// The account receiving the marketplace cut. It must have been set;
    /// the constructor always sets one.
    pub fn get_fee_recipient(&self) -> (r: AccountId)
        requires
            self.data.market_fee_recipient is Some,
        ensures
            Some(r) == self.data.market_fee_recipient,
    {
        self.data.market_fee_recipient.unwrap()
    }

    /// Everything `set_fee_recipient` does: owner-only; on success only the
    /// recipient changes.
    pub open spec fn set_fee_recipient_outcome(
        pre: Self,
        post: Self,
        fee_recipient: AccountId,
        caller: AccountId,
        r: Result<(), MarketplaceError>,
    ) -> bool {
        if caller != pre.owner {
            r == Err::<(), MarketplaceError>(
                MarketplaceError::OwnableError(OwnableError::CallerIsNotOwner),
            ) && post == pre
        } else {
            r == Ok::<(), MarketplaceError>(()) && post == MarketplaceContract {
                data: Data { market_fee_recipient: Some(fee_recipient), ..pre.data },
                ..pre
            }
        }
    }

    /// Sets the account receiving the marketplace cut, owner-only.
    pub fn set_fee_recipient(&mut self, fee_recipient: AccountId, caller: AccountId) -> (r: Result<
        (),
        MarketplaceError,
    >)
        requires
            old(self).wf(),
        ensures
            final(self).wf(),
            Self::set_fee_recipient_outcome(*old(self), *final(self), fee_recipient, caller, r),
    {
        if caller != self.owner {
            return Err(MarketplaceError::OwnableError(OwnableError::CallerIsNotOwner));
        }
        self.data.market_fee_recipient = Some(fee_recipient);
        Ok(())
    }

    // ------------------------------------------------------------------
    // Factory
    // ------------------------------------------------------------------

    /// Everything `set_nft_contract_hash` does: owner-only; on success only
    /// the template handle changes.
    pub open spec fn set_hash_outcome(
        pre: Self,
        post: Self,
        contract_hash: CodeHash,
        caller: AccountId,
        r: Result<(), MarketplaceError>,
    ) -> bool {
        if caller != pre.owner {
            r == Err::<(), MarketplaceError>(
                MarketplaceError::OwnableError(OwnableError::CallerIsNotOwner),
            ) && post == pre
        } else {
            r == Ok::<(), MarketplaceError>(()) && post == MarketplaceContract {
                data: Data { nft_contract_hash: Some(contract_hash), ..pre.data },
                ..pre
            }
        }
    }

    /// Sets the template the factory instantiates, owner-only.
    pub fn set_nft_contract_hash(&mut self, contract_hash: CodeHash, caller: AccountId) -> (r:
        Result<(), MarketplaceError>)
        requires
            old(self).wf(),
        ensures
            final(self).wf(),
            Self::set_hash_outcome(*old(self), *final(self), contract_hash, caller, r),
    {
        if caller != self.owner {
            return Err(MarketplaceError::OwnableError(OwnableError::CallerIsNotOwner));
        }
        self.data.nft_contract_hash = Some(contract_hash);
        Ok(())
    }

    /// The configured template handle, if any.
    pub fn nft_contract_hash(&self) -> (r: Option<CodeHash>)
        ensures
            r == self.data.nft_contract_hash,
    {
        self.data.nft_contract_hash
    }

    /// The nonce a new factory call will stamp into its salt.
    pub open spec fn spec_next_nonce(nonce: u64) -> u64 {
        if nonce == u64::MAX {
            u64::MAX
        } else {
            (nonce + 1) as u64
        }
    }

    /// Everything `factory` does: without a configured template or with an
    /// over-cap royalty the engine is unchanged; otherwise a deployment
    /// request with fresh salt material goes out and its registration
    /// details are parked until `finish_factory`.
    pub open spec fn factory_outcome(
        pre: Self,
        post: Self,
        marketplace_ipfs: String,
        royalty_receiver: AccountId,
        royalty: u16,
        nft_name: String,
        nft_symbol: String,
        nft_base_uri: String,
        nft_max_supply: u64,
        nft_price_per_mint: Balance,
        caller: AccountId,
        r: Result<DeploymentRequest, MarketplaceError>,
    ) -> bool {
        if pre.data.nft_contract_hash is None {
            r == Err::<DeploymentRequest, MarketplaceError>(MarketplaceError::NftContractHashNotSet)
                && post == pre
        } else if royalty > pre.data.max_fee {
            r == Err::<DeploymentRequest, MarketplaceError>(MarketplaceError::FeeTooHigh) && post
                == pre
        } else {
            let salt_nonce = Self::spec_next_nonce(pre.data.nonce);
            &&& r == Ok::<DeploymentRequest, MarketplaceError>(
                DeploymentRequest {
                    code_hash: pre.data.nft_contract_hash->0,
                    salt_caller: caller,
                    salt_nonce,
                    nft_name,
                    nft_symbol,
                    nft_base_uri,
                    nft_max_supply,
                    nft_price_per_mint,
                },
            )
            &&& post == MarketplaceContract {
                pending_deploy: Some(
                    PendingDeployment { royalty_receiver, royalty, marketplace_ipfs, salt_nonce },
                ),
                ..pre
            }
        }
    }

    /// Starts deploying a new collection from the configured template: hands
    /// out the constructor arguments with unique salt material derived from
    /// the caller and a fresh nonce, and parks the registration details
    /// until the deployer's answer reaches `finish_factory`.
    pub fn factory(
        &mut self,
        marketplace_ipfs: String,
        royalty_receiver: AccountId,
        royalty: u16,
        nft_name: String,
        nft_symbol: String,
        nft_base_uri: String,
        nft_max_supply: u64,
        nft_price_per_mint: Balance,
        caller: AccountId,
    ) -> (r: Result<DeploymentRequest, MarketplaceError>)
        requires
            old(self).wf(),
            old(self).pending_deploy is None,
        ensures
            final(self).wf(),
            Self::factory_outcome(
                *old(self),
                *final(self),
                marketplace_ipfs,
                royalty_receiver,
                royalty,
                nft_name,
                nft_symbol,
                nft_base_uri,
                nft_max_supply,
                nft_price_per_mint,
                caller,
                r,
            ),
    {
        let contract_hash = match self.data.nft_contract_hash {
            Some(hash) => hash,
            None => { return Err(MarketplaceError::NftContractHashNotSet) },
        };
        let max_fee: u16 = self.data.max_fee;
        if let Err(e) = self.check_fee(royalty, max_fee) {
            return Err(e);
        }
        let salt_nonce: u64 = if self.data.nonce == u64::MAX {
            u64::MAX
        } else {
            self.data.nonce + 1
        };
        self.pending_deploy = Some(
            PendingDeployment { royalty_receiver, royalty, marketplace_ipfs, salt_nonce },
        );
        Ok(
            DeploymentRequest {
                code_hash: contract_hash,
                salt_caller: caller,
                salt_nonce,
                nft_name,
                nft_symbol,
                nft_base_uri,
                nft_max_supply,
                nft_price_per_mint,
            },
        )
    }

    /// Everything `finish_factory` does: the parked details are always
    /// cleared; a failed instantiation reports it and changes nothing else;
    /// on success the new collection is registered exactly as `register`
    /// would, and the nonce advances to the one stamped into the salt.
    pub open spec fn finish_factory_outcome(
        pre: Self,
        post: Self,
        instantiated: Option<AccountId>,
        r: Result<AccountId, MarketplaceError>,
    ) -> bool
        recommends
            pre.pending_deploy is Some,
    {
        let pd = pre.pending_deploy->0;
        if instantiated is None {
            r == Err::<AccountId, MarketplaceError>(MarketplaceError::PSP34InstantiationFailed)
                && post == MarketplaceContract { pending_deploy: None, ..pre }
        } else if pre.collections().contains_key(instantiated->0) {
            r == Err::<AccountId, MarketplaceError>(MarketplaceError::ContractAlreadyRegistered)
                && post == MarketplaceContract { pending_deploy: None, ..pre }
        } else {
            &&& r == Ok::<AccountId, MarketplaceError>(instantiated->0)
            &&& post.collections() == pre.collections().insert(
                instantiated->0,
                RegisteredCollection {
                    royalty_receiver: pd.royalty_receiver,
                    marketplace_ipfs: pd.marketplace_ipfs,
                    royalty: pd.royalty,
                },
            )
            &&& post.listings() == pre.listings()
            &&& post.owner == pre.owner
            &&& post.data.fee == pre.data.fee
            &&& post.data.max_fee == pre.data.max_fee
            &&& post.data.market_fee_recipient == pre.data.market_fee_recipient
            &&& post.data.nft_contract_hash == pre.data.nft_contract_hash
            &&& post.data.nonce == pd.salt_nonce
            &&& post.pending_sale == pre.pending_sale
            &&& post.pending_deploy is None
        }
    }

    /// Registers the collection the deployer instantiated for the pending
    /// factory call, or reports that instantiation failed.
    pub fn finish_factory(&mut self, instantiated: Option<AccountId>) -> (r: Result<
        AccountId,
        MarketplaceError,
    >)
        requires
            old(self).wf(),
            old(self).pending_deploy is Some,
        ensures
            final(self).wf(),
            Self::finish_factory_outcome(*old(self), *final(self), instantiated, r),
    {
        let pd = self.pending_deploy.take().unwrap();
        let contract_address = match instantiated {
            Some(address) => address,
            None => { return Err(MarketplaceError::PSP34InstantiationFailed) },
        };
        if self.data.registered_collections.contains(contract_address) {
            return Err(MarketplaceError::ContractAlreadyRegistered);
        }
        self.data.registered_collections.put(
            contract_address,
            RegisteredCollection {
                royalty_receiver: pd.royalty_receiver,
                marketplace_ipfs: pd.marketplace_ipfs,
                royalty: pd.royalty,
            },
        );
        proof {
            lemma_royalties_bounded_insert(
                old(self).collections(),
                old(self).data.max_fee,
                contract_address,
                RegisteredCollection {
                    royalty_receiver: pd.royalty_receiver,
                    marketplace_ipfs: pd.marketplace_ipfs,
                    royalty: pd.royalty,
                },
            );
        }
        self.data.nonce = pd.salt_nonce;
        Ok(contract_address)
    }
}

} // verus!
