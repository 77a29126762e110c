//! Basis-point fee computation and the two-case attribution policy.
//!
//! A fee of `bps` basis points on `amount` is `floor(amount * bps / 10000)`.
//! Per execution, at most one of two attribution cases fires:
//! - Case 1 (pre-swap): the global offer asset is fee-eligible; the fee is
//!   deducted from each route's offer amount before its hops run.
//! - Case 2 (post-swap): the offer asset is not eligible and the rate is
//!   nonzero; the fee is taken from the total realized return at settlement.

use vstd::prelude::*;

use crate::error::ContractError;

verus! {

/// The mathematical fee: `floor(amount * bps / 10000)`.
pub open spec fn fee_of(amount: u128, fee_bps: u16) -> int {
    (amount * fee_bps) / 10000
}

/// The pre-swap case: a nonzero rate and a fee-eligible offer asset.
pub open spec fn case1_fires(fee_bps: u16, fee_asset_ids: Seq<Seq<char>>, offer_id: Seq<char>) -> bool {
    fee_bps > 0 && fee_asset_ids.contains(offer_id)
}

/// The post-swap case: a nonzero rate and an offer asset that is not
/// fee-eligible.
pub open spec fn case2_fires(fee_bps: u16, fee_asset_ids: Seq<Seq<char>>, offer_id: Seq<char>) -> bool {
    fee_bps > 0 && !fee_asset_ids.contains(offer_id)
}

/// Returns the basis points value of `amount`, or an arithmetic fault when
/// `amount * fee_bps` overflows the 128-bit range.
pub fn calc_fee(amount: u128, fee_bps: u16) -> (r: Result<u128, ContractError>)
    ensures
        r is Ok <==> amount * fee_bps <= u128::MAX,
        r matches Ok(f) ==> f == fee_of(amount, fee_bps),
        r matches Err(e) ==> e == (ContractError::ArithmeticFault {}),
{
    match amount.checked_mul(fee_bps as u128) {
        Some(product) => Ok(product / 10000u128),
        None => Err(ContractError::ArithmeticFault {}),
    }
}

/// The fee never exceeds the amount it is taken from, for any rate of at
/// most 10000 basis points, and a zero rate yields a zero fee.
pub proof fn lemma_fee_bounds(amount: u128, fee_bps: u16)
    requires
        fee_bps <= 10000,
    ensures
        0 <= fee_of(amount, fee_bps) <= amount,
        fee_bps == 0 ==> fee_of(amount, fee_bps) == 0,
{
    assert(0 <= fee_of(amount, fee_bps) <= amount) by (nonlinear_arith)
        requires fee_bps <= 10000;
}

/// When the rate is nonzero, exactly one of the two attribution cases
/// fires; when it is zero, neither does.
pub proof fn lemma_fee_case_selection(fee_bps: u16, fee_asset_ids: Seq<Seq<char>>, offer_id: Seq<char>)
    ensures
        fee_bps > 0 ==> (case1_fires(fee_bps, fee_asset_ids, offer_id)
            <==> !case2_fires(fee_bps, fee_asset_ids, offer_id)),
        fee_bps == 0 ==> !case1_fires(fee_bps, fee_asset_ids, offer_id)
            && !case2_fires(fee_bps, fee_asset_ids, offer_id),
{
}

} // verus!
