//! Laws of the settlement engine, proved from the operation outcomes: how a
//! listing comes into being and goes away, what a failed call may touch, and
//! what the fee setter and the purchase checks guarantee.

use crate::fees::{bps_share, seller_share};
use crate::marketplace::MarketplaceContract;
use crate::types::{
    AccountId, Balance, CodeHash, CollectionRegistered, DeploymentRequest, MarketplaceError,
    ReentrancyGuardError, Sale, TokenBought, TokenId, TokenListed,
};
use vstd::prelude::*;

verus! {

/// One invocation of a mutating engine operation: its inputs and its result.
pub enum Operation {
    List {
        contract_address: AccountId,
        token_id: TokenId,
        price: Balance,
        caller: AccountId,
        current_owner: Option<AccountId>,
        r: Result<TokenListed, MarketplaceError>,
    },
    Unlist {
        contract_address: AccountId,
        token_id: TokenId,
        caller: AccountId,
        current_owner: Option<AccountId>,
        r: Result<TokenListed, MarketplaceError>,
    },
    Buy {
        contract_address: AccountId,
        token_id: TokenId,
        caller: AccountId,
        transferred_value: Balance,
        current_owner: Option<AccountId>,
        r: Result<Sale, MarketplaceError>,
    },
    SettleBuy {
        token_transferred: bool,
        seller_paid: bool,
        marketplace_paid: bool,
        royalty_paid: bool,
        r: Result<TokenBought, MarketplaceError>,
    },
    Register {
        contract_address: AccountId,
        royalty_receiver: AccountId,
        royalty: u16,
        marketplace_ipfs: String,
        caller: AccountId,
        collection_owner: Option<AccountId>,
        r: Result<CollectionRegistered, MarketplaceError>,
    },
    SetMarketplaceFee { fee: u16, caller: AccountId, r: Result<(), MarketplaceError> },
    SetContractMetadata {
        contract_address: AccountId,
        ipfs: String,
        caller: AccountId,
        r: Result<(), MarketplaceError>,
    },
    SetFeeRecipient {
        fee_recipient: AccountId,
        caller: AccountId,
        r: Result<(), MarketplaceError>,
    },
    SetNftContractHash {
        contract_hash: CodeHash,
        caller: AccountId,
        r: Result<(), MarketplaceError>,
    },
    Factory {
        marketplace_ipfs: String,
        royalty_receiver: AccountId,
        royalty: u16,
        nft_name: String,
        nft_symbol: String,
        nft_base_uri: String,
        nft_max_supply: u64,
        nft_price_per_mint: Balance,
        caller: AccountId,
        r: Result<DeploymentRequest, MarketplaceError>,
    },
    FinishFactory {
        instantiated: Option<AccountId>,
        r: Result<AccountId, MarketplaceError>,
    },
}

/// The engine stepped from `pre` to `post` by the given operation, with the
/// behaviour its outcome predicate prescribes.
pub open spec fn step_outcome(
    pre: MarketplaceContract,
    post: MarketplaceContract,
    op: Operation,
) -> bool {
    match op {
        Operation::List { contract_address, token_id, price, caller, current_owner, r } =>
            MarketplaceContract::list_outcome(
            pre,
            post,
            contract_address,
            token_id,
            price,
            caller,
            current_owner,
            r,
        ),
        Operation::Unlist { contract_address, token_id, caller, current_owner, r } =>
            MarketplaceContract::unlist_outcome(
            pre,
            post,
            contract_address,
            token_id,
            caller,
            current_owner,
            r,
        ),
        Operation::Buy { contract_address, token_id, caller, transferred_value, current_owner, r } =>
            MarketplaceContract::buy_outcome(
            pre,
            post,
            contract_address,
            token_id,
            caller,
            transferred_value,
            current_owner,
            r,
        ),
        Operation::SettleBuy { token_transferred, seller_paid, marketplace_paid, royalty_paid, r } =>
            pre.pending_sale is Some && MarketplaceContract::settle_outcome(
            pre,
            post,
            token_transferred,
            seller_paid,
            marketplace_paid,
            royalty_paid,
            r,
        ),
        Operation::Register {
            contract_address,
            royalty_receiver,
            royalty,
            marketplace_ipfs,
            caller,
            collection_owner,
            r,
        } => MarketplaceContract::register_outcome(
            pre,
            post,
            contract_address,
            royalty_receiver,
            royalty,
            marketplace_ipfs,
            caller,
            collection_owner,
            r,
        ),
        Operation::SetMarketplaceFee { fee, caller, r } => MarketplaceContract::set_fee_outcome(
            pre,
            post,
            fee,
            caller,
            r,
        ),
        Operation::SetContractMetadata { contract_address, ipfs, caller, r } =>
            MarketplaceContract::set_metadata_outcome(
            pre,
            post,
            contract_address,
            ipfs,
            caller,
            r,
        ),
        Operation::SetFeeRecipient { fee_recipient, caller, r } =>
            MarketplaceContract::set_fee_recipient_outcome(
            pre,
            post,
            fee_recipient,
            caller,
            r,
        ),
        Operation::SetNftContractHash { contract_hash, caller, r } =>
            MarketplaceContract::set_hash_outcome(
            pre,
            post,
            contract_hash,
            caller,
            r,
        ),
        Operation::Factory {
            marketplace_ipfs,
            royalty_receiver,
            royalty,
            nft_name,
            nft_symbol,
            nft_base_uri,
            nft_max_supply,
            nft_price_per_mint,
            caller,
            r,
        } => MarketplaceContract::factory_outcome(
            pre,
            post,
            marketplace_ipfs,
            royalty_receiver,
            royalty,
            nft_name,
            nft_symbol,
            nft_base_uri,
            nft_max_supply,
            nft_price_per_mint,
            caller,
            r,
        ),
        Operation::FinishFactory { instantiated, r } => pre.pending_deploy is Some
            && MarketplaceContract::finish_factory_outcome(pre, post, instantiated, r),
    }
}

/// A token becomes listed only through its own successful `list` call: if
/// `(c, t)` was not listed before a step and is listed after it, the step
/// was `list(c, t, ..)` and it returned `Ok`.
pub proof fn lemma_listing_created_only_by_list(
    pre: MarketplaceContract,
    post: MarketplaceContract,
    op: Operation,
    c: AccountId,
    t: TokenId,
)
    requires
        step_outcome(pre, post, op),
        !pre.spec_is_listed(c, t),
        post.spec_is_listed(c, t),
    ensures
        op matches Operation::List { contract_address, token_id, r, .. } && contract_address == c
            && token_id == t && r is Ok,
{
}

/// A token stops being listed only through its own successful `unlist` call
/// or through the successful settlement of its own pending sale.
pub proof fn lemma_listing_removed_only_by_unlist_or_settle(
    pre: MarketplaceContract,
    post: MarketplaceContract,
    op: Operation,
    c: AccountId,
    t: TokenId,
)
    requires
        step_outcome(pre, post, op),
        pre.spec_is_listed(c, t),
        !post.spec_is_listed(c, t),
    ensures
        ({
            ||| (op matches Operation::Unlist { contract_address, token_id, r, .. }
                && contract_address == c && token_id == t && r is Ok)
            ||| (op matches Operation::SettleBuy { r, .. } && r is Ok && pre.pending_sale is Some
                && pre.pending_sale->0.contract_address == c && pre.pending_sale->0.token_id == t)
        }),
{
}

/// A successful `list(c, t, price)` leaves `(c, t)` listed at exactly
/// `price`, and the price of every other token as it was.
pub proof fn lemma_list_sets_price(
    pre: MarketplaceContract,
    post: MarketplaceContract,
    c: AccountId,
    t: TokenId,
    price: Balance,
    caller: AccountId,
    current_owner: Option<AccountId>,
    r: Result<TokenListed, MarketplaceError>,
)
    requires
        MarketplaceContract::list_outcome(pre, post, c, t, price, caller, current_owner, r),
        r is Ok,
    ensures
        post.spec_is_listed(c, t),
        post.spec_get_price(c, t) == Some(price),
        forall|c2: AccountId, t2: TokenId|
            (c2, t2) != (c, t) ==> #[trigger] post.spec_get_price(c2, t2) == pre.spec_get_price(
                c2,
                t2,
            ),
{
}

/// A successful `unlist(c, t)` leaves `(c, t)` unlisted with no price, and
/// the price of every other token as it was.
pub proof fn lemma_unlist_clears_price(
    pre: MarketplaceContract,
    post: MarketplaceContract,
    c: AccountId,
    t: TokenId,
    caller: AccountId,
    current_owner: Option<AccountId>,
    r: Result<TokenListed, MarketplaceError>,
)
    requires
        MarketplaceContract::unlist_outcome(pre, post, c, t, caller, current_owner, r),
        r is Ok,
    ensures
        !post.spec_is_listed(c, t),
        post.spec_get_price(c, t) is None,
        forall|c2: AccountId, t2: TokenId|
            (c2, t2) != (c, t) ==> #[trigger] post.spec_get_price(c2, t2) == pre.spec_get_price(
                c2,
                t2,
            ),
{
}

/// A failed `register` is a no-op: the whole engine state is exactly what
/// it was before the call.
pub proof fn lemma_register_failure_is_no_op(
    pre: MarketplaceContract,
    post: MarketplaceContract,
    c: AccountId,
    royalty_receiver: AccountId,
    royalty: u16,
    marketplace_ipfs: String,
    caller: AccountId,
    collection_owner: Option<AccountId>,
    r: Result<CollectionRegistered, MarketplaceError>,
)
    requires
        MarketplaceContract::register_outcome(
            pre,
            post,
            c,
            royalty_receiver,
            royalty,
            marketplace_ipfs,
            caller,
            collection_owner,
            r,
        ),
        r is Err,
    ensures
        post == pre,
{
}

/// Registering the same collection twice fails: after a successful
/// `register(c, ..)`, a second `register(c, ..)` by an authorized caller
/// with an in-cap royalty reports the collection as already registered and
/// leaves the state exactly as it was between the two calls.
pub proof fn lemma_register_twice_rejected(
    pre: MarketplaceContract,
    mid: MarketplaceContract,
    post: MarketplaceContract,
    c: AccountId,
    royalty_receiver1: AccountId,
    royalty1: u16,
    marketplace_ipfs1: String,
    caller1: AccountId,
    collection_owner1: Option<AccountId>,
    r1: Result<CollectionRegistered, MarketplaceError>,
    royalty_receiver2: AccountId,
    royalty2: u16,
    marketplace_ipfs2: String,
    caller2: AccountId,
    collection_owner2: Option<AccountId>,
    r2: Result<CollectionRegistered, MarketplaceError>,
)
    requires
        MarketplaceContract::register_outcome(
            pre,
            mid,
            c,
            royalty_receiver1,
            royalty1,
            marketplace_ipfs1,
            caller1,
            collection_owner1,
            r1,
        ),
        r1 is Ok,
        MarketplaceContract::register_outcome(
            mid,
            post,
            c,
            royalty_receiver2,
            royalty2,
            marketplace_ipfs2,
            caller2,
            collection_owner2,
            r2,
        ),
        royalty2 <= mid.data.max_fee,
        caller2 == mid.owner || collection_owner2 == Some(caller2),
    ensures
        r2 == Err::<CollectionRegistered, MarketplaceError>(
            MarketplaceError::ContractAlreadyRegistered,
        ),
        post == mid,
{
}

/// What `set_marketplace_fee` guarantees the owner: a fee over the cap is
/// rejected and the configured fee does not move; a fee within the cap is
/// accepted and becomes the configured fee.
pub proof fn lemma_set_marketplace_fee(
    pre: MarketplaceContract,
    post: MarketplaceContract,
    fee: u16,
    caller: AccountId,
    r: Result<(), MarketplaceError>,
)
    requires
        MarketplaceContract::set_fee_outcome(pre, post, fee, caller, r),
        caller == pre.owner,
    ensures
        fee > pre.data.max_fee ==> r == Err::<(), MarketplaceError>(MarketplaceError::FeeTooHigh)
            && post == pre,
        fee <= pre.data.max_fee ==> r == Ok::<(), MarketplaceError>(()) && post.data.fee == fee
            && post.data.max_fee == pre.data.max_fee && post.collections() == pre.collections()
            && post.listings() == pre.listings(),
{
}

/// A purchase of an unlisted token is rejected as not listed and changes
/// nothing, whoever calls and whatever payment is attached.
pub proof fn lemma_buy_unlisted_rejected(
    pre: MarketplaceContract,
    post: MarketplaceContract,
    c: AccountId,
    t: TokenId,
    caller: AccountId,
    transferred_value: Balance,
    current_owner: Option<AccountId>,
    r: Result<Sale, MarketplaceError>,
)
    requires
        MarketplaceContract::buy_outcome(
            pre,
            post,
            c,
            t,
            caller,
            transferred_value,
            current_owner,
            r,
        ),
        pre.pending_sale is None,
        !pre.spec_is_listed(c, t),
    ensures
        r == Err::<Sale, MarketplaceError>(MarketplaceError::ItemNotListedForSale),
        post == pre,
{
}

/// A purchase whose payment is below the listed price is rejected for bad
/// value and the listing stays exactly as it was, same price included.
pub proof fn lemma_buy_underpayment_rejected(
    pre: MarketplaceContract,
    post: MarketplaceContract,
    c: AccountId,
    t: TokenId,
    caller: AccountId,
    transferred_value: Balance,
    current_owner: Option<AccountId>,
    r: Result<Sale, MarketplaceError>,
)
    requires
        MarketplaceContract::buy_outcome(
            pre,
            post,
            c,
            t,
            caller,
            transferred_value,
            current_owner,
            r,
        ),
        pre.pending_sale is None,
        pre.spec_is_listed(c, t),
        current_owner is Some,
        current_owner != Some(caller),
        transferred_value < pre.listings()[(c, t)].price,
    ensures
        r == Err::<Sale, MarketplaceError>(MarketplaceError::BadBuyValue),
        post == pre,
        post.spec_get_price(c, t) == pre.spec_get_price(c, t),
{
}

/// A `buy` that arrives while a sale is pending — in particular a reentrant
/// call from within the external token transfer — fails with the reentrancy
/// error and leaves the engine exactly as it stood.
pub proof fn lemma_reentrant_buy_rejected(
    pre: MarketplaceContract,
    post: MarketplaceContract,
    c: AccountId,
    t: TokenId,
    caller: AccountId,
    transferred_value: Balance,
    current_owner: Option<AccountId>,
    r: Result<Sale, MarketplaceError>,
)
    requires
        MarketplaceContract::buy_outcome(
            pre,
            post,
            c,
            t,
            caller,
            transferred_value,
            current_owner,
            r,
        ),
        pre.pending_sale is Some,
    ensures
        r == Err::<Sale, MarketplaceError>(
            MarketplaceError::ReentrancyError(ReentrancyGuardError::ReentrantCall),
        ),
        post == pre,
{
}

/// `buy` never touches the registries or the configuration: whatever its
/// result, it changes at most the pending sale. The state during the
/// external transfer step is therefore the pre-call state plus the plan.
pub proof fn lemma_buy_changes_only_pending_sale(
    pre: MarketplaceContract,
    post: MarketplaceContract,
    c: AccountId,
    t: TokenId,
    caller: AccountId,
    transferred_value: Balance,
    current_owner: Option<AccountId>,
    r: Result<Sale, MarketplaceError>,
)
    requires
        MarketplaceContract::buy_outcome(
            pre,
            post,
            c,
            t,
            caller,
            transferred_value,
            current_owner,
            r,
        ),
    ensures
        post.listings() == pre.listings(),
        post.collections() == pre.collections(),
        MarketplaceContract::same_config(pre, post),
        post.pending_deploy == pre.pending_deploy,
{
}

/// A successful `buy` fixes the three-way split of the attached payment:
/// the marketplace share and the royalty are floor basis-point shares of
/// the payment, and the seller receives the rest.
pub proof fn lemma_buy_fixes_split(
    pre: MarketplaceContract,
    post: MarketplaceContract,
    c: AccountId,
    t: TokenId,
    caller: AccountId,
    transferred_value: Balance,
    current_owner: Option<AccountId>,
    r: Result<Sale, MarketplaceError>,
)
    requires
        MarketplaceContract::buy_outcome(
            pre,
            post,
            c,
            t,
            caller,
            transferred_value,
            current_owner,
            r,
        ),
        r is Ok,
    ensures
        r->Ok_0.marketplace_fee == bps_share(transferred_value, pre.data.fee),
        r->Ok_0.author_royalty == bps_share(transferred_value, pre.collections()[c].royalty),
        r->Ok_0.seller_fee == seller_share(
            transferred_value,
            r->Ok_0.marketplace_fee,
            r->Ok_0.author_royalty,
        ),
        r->Ok_0.token_price == transferred_value,
        r->Ok_0.token_owner == current_owner->0,
        r->Ok_0.buyer == caller,
        post.pending_sale == Some(r->Ok_0),
{
}

/// A fully successful settlement removes exactly the sold listing and
/// touches nothing else; any failed leg leaves every listing in place.
pub proof fn lemma_settle_removes_sold_listing(
    pre: MarketplaceContract,
    post: MarketplaceContract,
    token_transferred: bool,
    seller_paid: bool,
    marketplace_paid: bool,
    royalty_paid: bool,
    r: Result<TokenBought, MarketplaceError>,
)
    requires
        MarketplaceContract::settle_outcome(
            pre,
            post,
            token_transferred,
            seller_paid,
            marketplace_paid,
            royalty_paid,
            r,
        ),
        pre.pending_sale is Some,
    ensures
        r is Ok ==> !post.spec_is_listed(
            pre.pending_sale->0.contract_address,
            pre.pending_sale->0.token_id,
        ),
        r is Ok ==> forall|c2: AccountId, t2: TokenId|
            (c2, t2) != (pre.pending_sale->0.contract_address, pre.pending_sale->0.token_id)
                ==> #[trigger] post.spec_is_listed(c2, t2) == pre.spec_is_listed(c2, t2),
        r is Err ==> post.listings() == pre.listings(),
        post.collections() == pre.collections(),
        MarketplaceContract::same_config(pre, post),
{
}

} // verus!
