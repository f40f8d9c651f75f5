//! Behaviour of the marketplace engine seen through its public operations:
//! construction, administration, registration, and the buy guard.

use marketplace::marketplace::MarketplaceContract;
use marketplace::types::{MarketplaceError, OwnableError};

const ALICE: u128 = 10;
const BOB: u128 = 5;

fn fee_recipient() -> u128 {
    1
}

fn contract_address() -> u128 {
    2
}

fn init_contract() -> MarketplaceContract {
    MarketplaceContract::new(fee_recipient(), ALICE)
}

#[test]
fn new_works() {
    let marketplace = init_contract();
    assert_eq!(marketplace.get_marketplace_fee(), 100);
    assert_eq!(marketplace.get_max_fee(), 1000);
    assert_eq!(marketplace.get_fee_recipient(), fee_recipient());
}

#[test]
fn set_marketplace_fee_works() {
    let mut marketplace = init_contract();

    assert!(marketplace.set_marketplace_fee(120, ALICE).is_ok());
    assert_eq!(marketplace.get_marketplace_fee(), 120);
}

#[test]
fn set_marketplace_fee_fails_if_not_owner() {
    let mut marketplace = init_contract();

    assert_eq!(
        marketplace.set_marketplace_fee(120, BOB),
        Err(MarketplaceError::OwnableError(
            OwnableError::CallerIsNotOwner
        ))
    );
}

#[test]
fn set_marketplace_fee_fails_if_fee_too_high() {
    let mut marketplace = init_contract();

    assert_eq!(
        marketplace.set_marketplace_fee(1001, ALICE),
        Err(MarketplaceError::FeeTooHigh)
    );
    assert!(marketplace.set_marketplace_fee(1000, ALICE).is_ok());
}

#[test]
fn set_fee_recipient_works() {
    let mut marketplace = init_contract();

    assert!(marketplace.set_fee_recipient(BOB, ALICE).is_ok());
    assert_eq!(marketplace.get_fee_recipient(), BOB);
}

#[test]
fn set_fee_recipient_fails_if_not_owner() {
    let mut marketplace = init_contract();

    assert_eq!(
        marketplace.set_fee_recipient(BOB, BOB),
        Err(MarketplaceError::OwnableError(
            OwnableError::CallerIsNotOwner
        ))
    );
}

#[test]
fn buy_fails_if_unlisted_token() {
    let mut marketplace = init_contract();

    assert_eq!(
        marketplace.buy(contract_address(), 1, ALICE, 0, None),
        Err(MarketplaceError::ItemNotListedForSale)
    );
}

#[test]
fn register_contract_works() {
    let mut marketplace = init_contract();
    let ipfs = String::from("ipfs");

    let registered = marketplace.register(
        contract_address(),
        fee_recipient(),
        999,
        ipfs.clone(),
        ALICE,
        None,
    );
    assert!(registered.is_ok());
    let contract = marketplace
        .get_registered_collection(contract_address())
        .unwrap();
    assert_eq!(contract.royalty_receiver, fee_recipient());
    assert_eq!(contract.royalty, 999);
    assert_eq!(contract.marketplace_ipfs, ipfs);
    assert_eq!(registered.unwrap().contract, contract_address());
}

#[test]
fn register_fails_if_fee_too_high() {
    let mut marketplace = init_contract();
    let ipfs = String::from("ipfs");

    assert_eq!(
        marketplace.register(
            contract_address(),
            fee_recipient(),
            1001,
            ipfs.clone(),
            ALICE,
            None
        ),
        Err(MarketplaceError::FeeTooHigh)
    );
    assert!(marketplace
        .register(contract_address(), fee_recipient(), 999, ipfs, ALICE, None)
        .is_ok());
}

#[test]
fn register_fails_if_contract_already_registered() {
    let mut marketplace = init_contract();
    let ipfs = String::from("ipfs");

    assert!(marketplace
        .register(
            contract_address(),
            fee_recipient(),
            999,
            ipfs.clone(),
            ALICE,
            None
        )
        .is_ok());
    assert_eq!(
        marketplace.register(contract_address(), fee_recipient(), 999, ipfs, ALICE, None),
        Err(MarketplaceError::ContractAlreadyRegistered)
    );
}

#[test]
fn set_nft_contract_hash_works() {
    let mut marketplace = init_contract();
    let hash: u128 = 1;
    let hash2: u128 = 2;

    assert!(marketplace.set_nft_contract_hash(hash, ALICE).is_ok());
    assert_eq!(marketplace.nft_contract_hash(), Some(hash));

    // Check also if owner is able to update hash.
    assert!(marketplace.set_nft_contract_hash(hash2, ALICE).is_ok());
    assert_eq!(marketplace.nft_contract_hash(), Some(hash2));
}

#[test]
fn set_nft_contract_fails_if_not_owner() {
    let mut marketplace = init_contract();
    let hash: u128 = 1;

    assert_eq!(
        marketplace.set_nft_contract_hash(hash, BOB),
        Err(MarketplaceError::OwnableError(
            OwnableError::CallerIsNotOwner
        ))
    );
}

#[test]
fn factory_fails_if_no_hash() {
    let mut marketplace = init_contract();

    assert_eq!(
        marketplace.factory(
            String::from("ipfs"),
            ALICE,
            100,
            String::from("name"),
            String::from("symbol"),
            String::from("base_uri"),
            0,
            0,
            ALICE
        ),
        Err(MarketplaceError::NftContractHashNotSet)
    );
}

#[test]
fn error_conversions_wrap_the_inner_error() {
    assert_eq!(
        MarketplaceError::from(OwnableError::CallerIsNotOwner),
        MarketplaceError::OwnableError(OwnableError::CallerIsNotOwner)
    );
    assert_eq!(
        MarketplaceError::from(marketplace::types::ReentrancyGuardError::ReentrantCall),
        MarketplaceError::ReentrancyError(marketplace::types::ReentrancyGuardError::ReentrantCall)
    );
}

#[test]
fn register_twice_preserves_first_registration() {
    let mut marketplace = init_contract();

    assert!(marketplace
        .register(
            contract_address(),
            fee_recipient(),
            999,
            String::from("ipfs"),
            ALICE,
            None
        )
        .is_ok());
    assert_eq!(
        marketplace.register(
            contract_address(),
            BOB,
            250,
            String::from("other"),
            ALICE,
            None
        ),
        Err(MarketplaceError::ContractAlreadyRegistered)
    );
    let contract = marketplace
        .get_registered_collection(contract_address())
        .unwrap();
    assert_eq!(contract.royalty_receiver, fee_recipient());
    assert_eq!(contract.royalty, 999);
    assert_eq!(contract.marketplace_ipfs, String::from("ipfs"));
}

#[test]
fn lib_init_works() {
    let marketplace = MarketplaceContract::new(fee_recipient(), ALICE);
    assert!(matches!(marketplace.get_marketplace_fee(), 100));
}
