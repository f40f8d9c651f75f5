//! The settlement path end to end: listing lifecycle, the payment split,
//! the reentrancy guard, failed settlement legs, and the factory flow.

use marketplace::fees::split_payment;
use marketplace::marketplace::MarketplaceContract;
use marketplace::types::{MarketplaceError, ReentrancyGuardError};

const OWNER: u128 = 100;
const SELLER: u128 = 10;
const BUYER: u128 = 20;
const RECIPIENT: u128 = 1;
const AUTHOR: u128 = 3;
const COLLECTION: u128 = 2;
const TOKEN: u128 = 7;
const PRICE: u128 = 1_000_000;

/// An engine with one registered collection (5% royalty to AUTHOR) and one
/// listing of TOKEN by SELLER at PRICE.
fn engine_with_listing() -> MarketplaceContract {
    let mut m = MarketplaceContract::new(RECIPIENT, OWNER);
    assert!(m
        .register(COLLECTION, AUTHOR, 500, String::from("uri"), OWNER, None)
        .is_ok());
    assert!(m
        .list(COLLECTION, TOKEN, PRICE, SELLER, Some(SELLER))
        .is_ok());
    m
}

#[test]
fn split_payment_exact_values() {
    // 1% marketplace fee and 5% royalty on a payment of 1_000_000.
    assert_eq!(split_payment(1_000_000, 100, 500), (10_000, 50_000, 940_000));
    // Rounding is floor division.
    assert_eq!(split_payment(999, 100, 500), (9, 49, 941));
    // A product too large for the balance type makes that share zero.
    assert_eq!(split_payment(u128::MAX, 100, 500), (0, 0, u128::MAX));
}

#[test]
fn buy_splits_payment_three_ways() {
    let mut m = engine_with_listing();
    let sale = m
        .buy(COLLECTION, TOKEN, BUYER, PRICE, Some(SELLER))
        .unwrap();
    assert_eq!(sale.marketplace_fee, 10_000);
    assert_eq!(sale.author_royalty, 50_000);
    assert_eq!(sale.seller_fee, 940_000);
    assert_eq!(sale.fee_recipient, RECIPIENT);
    assert_eq!(sale.royalty_receiver, AUTHOR);
    assert_eq!(sale.token_owner, SELLER);
    assert_eq!(sale.buyer, BUYER);
    assert_eq!(sale.token_price, PRICE);

    let bought = m.settle_buy(true, true, true, true).unwrap();
    assert_eq!(bought.contract, COLLECTION);
    assert_eq!(bought.id, TOKEN);
    assert_eq!(bought.price, PRICE);
    assert!(!m.is_token_listed(COLLECTION, TOKEN));
    assert_eq!(m.get_price(COLLECTION, TOKEN), None);
}

#[test]
fn buy_one_below_price_fails_and_keeps_listing() {
    let mut m = engine_with_listing();
    assert_eq!(
        m.buy(COLLECTION, TOKEN, BUYER, PRICE - 1, Some(SELLER)),
        Err(MarketplaceError::BadBuyValue)
    );
    assert!(m.is_token_listed(COLLECTION, TOKEN));
    assert_eq!(m.get_price(COLLECTION, TOKEN), Some(PRICE));
}

#[test]
fn buy_unlisted_fails_for_any_caller_and_payment() {
    let mut m = MarketplaceContract::new(RECIPIENT, OWNER);
    assert_eq!(
        m.buy(COLLECTION, TOKEN, BUYER, u128::MAX, Some(SELLER)),
        Err(MarketplaceError::ItemNotListedForSale)
    );
    assert_eq!(
        m.buy(COLLECTION, TOKEN, OWNER, 0, None),
        Err(MarketplaceError::ItemNotListedForSale)
    );
}

#[test]
fn buy_by_current_owner_fails() {
    let mut m = engine_with_listing();
    assert_eq!(
        m.buy(COLLECTION, TOKEN, SELLER, PRICE, Some(SELLER)),
        Err(MarketplaceError::AlreadyOwner)
    );
}

#[test]
fn buy_without_resolvable_owner_fails() {
    let mut m = engine_with_listing();
    assert_eq!(
        m.buy(COLLECTION, TOKEN, BUYER, PRICE, None),
        Err(MarketplaceError::TokenDoesNotExist)
    );
}

#[test]
fn reentrant_buy_fails_and_leaves_state_unchanged() {
    let mut m = engine_with_listing();
    assert!(m.buy(COLLECTION, TOKEN, BUYER, PRICE, Some(SELLER)).is_ok());

    // A nested call from within the external transfer, on the same token
    // and on another, must fail with the reentrancy error.
    assert_eq!(
        m.buy(COLLECTION, TOKEN, OWNER, 2 * PRICE, Some(SELLER)),
        Err(MarketplaceError::ReentrancyError(
            ReentrancyGuardError::ReentrantCall
        ))
    );
    assert_eq!(
        m.buy(COLLECTION, 8, OWNER, 2 * PRICE, Some(SELLER)),
        Err(MarketplaceError::ReentrancyError(
            ReentrancyGuardError::ReentrantCall
        ))
    );
    // The listing stands exactly as before the transfer step.
    assert_eq!(m.get_price(COLLECTION, TOKEN), Some(PRICE));

    // The outer purchase still settles.
    assert!(m.settle_buy(true, true, true, true).is_ok());
    assert!(!m.is_token_listed(COLLECTION, TOKEN));

    // Once settled, the guard is released.
    assert_eq!(
        m.buy(COLLECTION, TOKEN, BUYER, PRICE, Some(BUYER)),
        Err(MarketplaceError::ItemNotListedForSale)
    );
}

#[test]
fn failed_token_transfer_aborts_sale() {
    let mut m = engine_with_listing();
    assert!(m.buy(COLLECTION, TOKEN, BUYER, PRICE, Some(SELLER)).is_ok());
    assert_eq!(
        m.settle_buy(false, false, false, false),
        Err(MarketplaceError::UnableToTransferToken)
    );
    assert_eq!(m.get_price(COLLECTION, TOKEN), Some(PRICE));
}

#[test]
fn failed_seller_payment_aborts_sale() {
    let mut m = engine_with_listing();
    assert!(m.buy(COLLECTION, TOKEN, BUYER, PRICE, Some(SELLER)).is_ok());
    assert_eq!(
        m.settle_buy(true, false, true, true),
        Err(MarketplaceError::TransferToOwnerFailed)
    );
    assert_eq!(m.get_price(COLLECTION, TOKEN), Some(PRICE));
}

#[test]
fn failed_marketplace_payment_aborts_sale() {
    let mut m = engine_with_listing();
    assert!(m.buy(COLLECTION, TOKEN, BUYER, PRICE, Some(SELLER)).is_ok());
    assert_eq!(
        m.settle_buy(true, true, false, true),
        Err(MarketplaceError::TransferToMarketplaceFailed)
    );
    assert!(m.is_token_listed(COLLECTION, TOKEN));
}

#[test]
fn failed_royalty_payment_aborts_sale() {
    let mut m = engine_with_listing();
    assert!(m.buy(COLLECTION, TOKEN, BUYER, PRICE, Some(SELLER)).is_ok());
    assert_eq!(
        m.settle_buy(true, true, true, false),
        Err(MarketplaceError::TransferToAuthorFailed)
    );
    assert!(m.is_token_listed(COLLECTION, TOKEN));
}

#[test]
fn list_then_get_price_returns_listed_price() {
    let m = engine_with_listing();
    assert_eq!(m.get_price(COLLECTION, TOKEN), Some(PRICE));
    assert!(m.is_token_listed(COLLECTION, TOKEN));
}

#[test]
fn unlist_then_get_price_returns_none() {
    let mut m = engine_with_listing();
    let delisted = m.unlist(COLLECTION, TOKEN, SELLER, Some(SELLER)).unwrap();
    assert_eq!(delisted.price, None);
    assert_eq!(m.get_price(COLLECTION, TOKEN), None);
    assert!(!m.is_token_listed(COLLECTION, TOKEN));
}

#[test]
fn list_twice_fails() {
    let mut m = engine_with_listing();
    assert_eq!(
        m.list(COLLECTION, TOKEN, PRICE, SELLER, Some(SELLER)),
        Err(MarketplaceError::ItemAlreadyListedForSale)
    );
}

#[test]
fn list_on_unregistered_collection_fails() {
    let mut m = MarketplaceContract::new(RECIPIENT, OWNER);
    assert_eq!(
        m.list(COLLECTION, TOKEN, PRICE, SELLER, Some(SELLER)),
        Err(MarketplaceError::NotRegisteredContract)
    );
}

#[test]
fn list_by_non_owner_fails() {
    let mut m = engine_with_listing();
    assert_eq!(
        m.list(COLLECTION, 8, PRICE, BUYER, Some(SELLER)),
        Err(MarketplaceError::NotOwner)
    );
}

#[test]
fn list_nonexistent_token_fails() {
    let mut m = engine_with_listing();
    assert_eq!(
        m.list(COLLECTION, 8, PRICE, SELLER, None),
        Err(MarketplaceError::TokenDoesNotExist)
    );
}

#[test]
fn list_accepts_zero_price() {
    // A zero price is a valid "free" listing; the split is then all zero.
    let mut m = MarketplaceContract::new(RECIPIENT, OWNER);
    assert!(m
        .register(COLLECTION, AUTHOR, 500, String::from("uri"), OWNER, None)
        .is_ok());
    assert!(m.list(COLLECTION, TOKEN, 0, SELLER, Some(SELLER)).is_ok());
    assert_eq!(m.get_price(COLLECTION, TOKEN), Some(0));
    let sale = m.buy(COLLECTION, TOKEN, BUYER, 0, Some(SELLER)).unwrap();
    assert_eq!(
        (sale.marketplace_fee, sale.author_royalty, sale.seller_fee),
        (0, 0, 0)
    );
}

#[test]
fn unlist_not_listed_fails() {
    let mut m = MarketplaceContract::new(RECIPIENT, OWNER);
    assert_eq!(
        m.unlist(COLLECTION, TOKEN, SELLER, Some(SELLER)),
        Err(MarketplaceError::ItemNotListedForSale)
    );
}

#[test]
fn unlist_by_new_owner_after_outside_transfer() {
    // The token moved hands outside the marketplace: the new owner, not the
    // original lister, may unlist it.
    let mut m = engine_with_listing();
    assert_eq!(
        m.unlist(COLLECTION, TOKEN, SELLER, Some(BUYER)),
        Err(MarketplaceError::NotOwner)
    );
    assert!(m.unlist(COLLECTION, TOKEN, BUYER, Some(BUYER)).is_ok());
}

#[test]
fn register_by_collection_owner_works() {
    let mut m = MarketplaceContract::new(RECIPIENT, OWNER);
    assert!(m
        .register(
            COLLECTION,
            AUTHOR,
            250,
            String::from("uri"),
            SELLER,
            Some(SELLER)
        )
        .is_ok());
}

#[test]
fn register_by_stranger_fails() {
    let mut m = MarketplaceContract::new(RECIPIENT, OWNER);
    assert_eq!(
        m.register(
            COLLECTION,
            AUTHOR,
            250,
            String::from("uri"),
            SELLER,
            Some(BUYER)
        ),
        Err(MarketplaceError::NotOwner)
    );
}

#[test]
fn set_contract_metadata_updates_uri_only() {
    let mut m = engine_with_listing();
    assert!(m
        .set_contract_metadata(COLLECTION, String::from("new uri"), OWNER)
        .is_ok());
    let col = m.get_registered_collection(COLLECTION).unwrap();
    assert_eq!(col.marketplace_ipfs, String::from("new uri"));
    assert_eq!(col.royalty, 500);
    assert_eq!(col.royalty_receiver, AUTHOR);
}

#[test]
fn set_contract_metadata_unknown_collection_fails() {
    let mut m = MarketplaceContract::new(RECIPIENT, OWNER);
    assert_eq!(
        m.set_contract_metadata(COLLECTION, String::from("uri"), OWNER),
        Err(MarketplaceError::NotRegisteredContract)
    );
}

#[test]
fn factory_deploys_and_registers() {
    let mut m = MarketplaceContract::new(RECIPIENT, OWNER);
    assert!(m.set_nft_contract_hash(42, OWNER).is_ok());

    let request = m
        .factory(
            String::from("uri"),
            AUTHOR,
            250,
            String::from("name"),
            String::from("symbol"),
            String::from("base"),
            1000,
            5,
            SELLER,
        )
        .unwrap();
    assert_eq!(request.code_hash, 42);
    assert_eq!(request.salt_caller, SELLER);
    assert_eq!(request.salt_nonce, 1);
    assert_eq!(request.nft_max_supply, 1000);
    assert_eq!(request.nft_price_per_mint, 5);

    let deployed: u128 = 77;
    assert_eq!(m.finish_factory(Some(deployed)), Ok(deployed));
    let col = m.get_registered_collection(deployed).unwrap();
    assert_eq!(col.royalty, 250);
    assert_eq!(col.royalty_receiver, AUTHOR);
    assert_eq!(col.marketplace_ipfs, String::from("uri"));
}

#[test]
fn factory_over_cap_royalty_fails() {
    let mut m = MarketplaceContract::new(RECIPIENT, OWNER);
    assert!(m.set_nft_contract_hash(42, OWNER).is_ok());
    assert_eq!(
        m.factory(
            String::from("uri"),
            AUTHOR,
            1001,
            String::from("name"),
            String::from("symbol"),
            String::from("base"),
            0,
            0,
            SELLER
        ),
        Err(MarketplaceError::FeeTooHigh)
    );
}

#[test]
fn failed_instantiation_keeps_nonce() {
    let mut m = MarketplaceContract::new(RECIPIENT, OWNER);
    assert!(m.set_nft_contract_hash(42, OWNER).is_ok());

    // A failed deployment does not advance the nonce...
    let first = m
        .factory(
            String::from("uri"),
            AUTHOR,
            250,
            String::from("n"),
            String::from("s"),
            String::from("b"),
            0,
            0,
            SELLER,
        )
        .unwrap();
    assert_eq!(first.salt_nonce, 1);
    assert_eq!(
        m.finish_factory(None),
        Err(MarketplaceError::PSP34InstantiationFailed)
    );

    // ...so the next request derives the same salt material again.
    let second = m
        .factory(
            String::from("uri"),
            AUTHOR,
            250,
            String::from("n"),
            String::from("s"),
            String::from("b"),
            0,
            0,
            SELLER,
        )
        .unwrap();
    assert_eq!(second.salt_nonce, 1);

    // A successful deployment advances it.
    assert_eq!(m.finish_factory(Some(77)), Ok(77));
    let third = m
        .factory(
            String::from("uri"),
            AUTHOR,
            250,
            String::from("n"),
            String::from("s"),
            String::from("b"),
            0,
            0,
            SELLER,
        )
        .unwrap();
    assert_eq!(third.salt_nonce, 2);
    assert!(m.finish_factory(Some(78)).is_ok());
}
