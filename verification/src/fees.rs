//! The three-way split of a buyer's payment: marketplace share, creator
//! royalty, and what is left for the seller.

use crate::types::Balance;
use vstd::prelude::*;

verus! {

/// Floor share of `value` measured in basis points (1/10000). A product too
/// large for the balance type yields a zero share rather than a fault.
pub open spec fn bps_share(value: Balance, bps: u16) -> Balance {
    if value * bps > u128::MAX {
        0u128
    } else {
        ((value * bps) / 10000) as u128
    }
}

/// What is left of `value` for the seller once the marketplace share and the
/// royalty are taken out, each subtraction stopping at zero.
pub open spec fn seller_share(value: Balance, marketplace_fee: Balance, royalty: Balance) -> Balance {
    let rest = if value >= marketplace_fee {
        (value - marketplace_fee) as u128
    } else {
        0u128
    };
    if rest >= royalty {
        (rest - royalty) as u128
    } else {
        0u128
    }
}

/// Splits a buyer's payment into the marketplace share, the creator royalty,
/// and the seller's proceeds, in that order.
pub fn split_payment(value: Balance, fee_bps: u16, royalty_bps: u16) -> (r: (
    Balance,
    Balance,
    Balance,
))
    ensures
        r.0 == bps_share(value, fee_bps),
        r.1 == bps_share(value, royalty_bps),
        r.2 == seller_share(value, r.0, r.1),
{
    let marketplace_fee: Balance = value.checked_mul(fee_bps as u128).unwrap_or(0) / 10_000;
    let author_royalty: Balance = value.checked_mul(royalty_bps as u128).unwrap_or(0) / 10_000;
    let seller_fee: Balance = value.checked_sub(marketplace_fee).unwrap_or(0).checked_sub(
        author_royalty,
    ).unwrap_or(0);
    (marketplace_fee, author_royalty, seller_fee)
}

} // verus!
