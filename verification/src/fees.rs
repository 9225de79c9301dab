//! Pure fee-split computation.
//!
//! The fee owed per issuance is `minimum_payment * rate / 10000`
//! (basis points), split between the treasury and the anti-scam
//! treasury by their percentages. Every multiplication is checked
//! against the native unsigned range; any overflow aborts the whole
//! computation.

use vstd::prelude::*;
use crate::config::{Config, MAX_FEE_BASIS_POINTS};
use crate::error::{CustomError, ProgramError};

verus! {

/// Basis points in a whole.
pub const BASIS_POINT_DENOMINATOR: u64 = 10_000;

/// Percentage points in a whole.
pub const PERCENT_DENOMINATOR: u64 = 100;

/// The total fee owed for one issuance under a configuration.
pub open spec fn fee_amount_spec(c: Config) -> int {
    (c.minimum_payment * c.mint_fee_basis_points) / (BASIS_POINT_DENOMINATOR as int)
}

/// The treasury's leg of the fee.
pub open spec fn treasury_amount_spec(c: Config) -> int {
    (fee_amount_spec(c) * c.treasury_fee_percent) / (PERCENT_DENOMINATOR as int)
}

/// The anti-scam treasury's leg of the fee.
pub open spec fn antiscam_amount_spec(c: Config) -> int {
    (fee_amount_spec(c) * c.antiscam_fee_percent) / (PERCENT_DENOMINATOR as int)
}

/// Whether the whole fee computation stays within the native unsigned
/// range; when it does not, the computation fails closed.
pub open spec fn fees_computable(c: Config) -> bool {
    &&& c.minimum_payment * c.mint_fee_basis_points <= u64::MAX
    &&& fee_amount_spec(c) * c.treasury_fee_percent <= u64::MAX
    &&& fee_amount_spec(c) * c.antiscam_fee_percent <= u64::MAX
}

/// Computes the fee split for one issuance: the amounts owed to the
/// treasury and to the anti-scam treasury, in that order.
///
/// Fails `ArithmeticOverflow` exactly when some multiplication leaves
/// the native unsigned range; nothing is saturated or wrapped.
pub fn calculate_mint_fees(config: &Config) -> (r: Result<(u64, u64), ProgramError>)
    ensures
        r is Ok <==> fees_computable(*config),
        r matches Ok(p) ==> p.0 == treasury_amount_spec(*config)
            && p.1 == antiscam_amount_spec(*config),
        r matches Err(e) ==> e == ProgramError::Custom(CustomError::ArithmeticOverflow),
{
    let minimum_payment = config.minimum_payment;
    let fee_rate = config.mint_fee_basis_points as u64;
    let fee_amount = match minimum_payment.checked_mul(fee_rate) {
        Some(product) => product / BASIS_POINT_DENOMINATOR,
        None => {
            return Err(ProgramError::Custom(CustomError::ArithmeticOverflow));
        },
    };
    let treasury_amount = match fee_amount.checked_mul(config.treasury_fee_percent as u64) {
        Some(product) => product / PERCENT_DENOMINATOR,
        None => {
            return Err(ProgramError::Custom(CustomError::ArithmeticOverflow));
        },
    };

    let antiscam_amount = match fee_amount.checked_mul(config.antiscam_fee_percent as u64) {
        Some(product) => product / PERCENT_DENOMINATOR,
        None => {
            return Err(ProgramError::Custom(CustomError::ArithmeticOverflow));
        },
    };

    Ok((treasury_amount, antiscam_amount))
}

/// For every configuration whose split sums to 100 and whose rate is in
/// range, the two legs together never exceed the total fee, and the
/// rounding loss of the whole split is at most one unit per leg.
pub proof fn lemma_fee_split_bounded(c: Config)
    requires
        c.mint_fee_basis_points <= MAX_FEE_BASIS_POINTS,
        c.treasury_fee_percent + c.antiscam_fee_percent == 100,
    ensures
        treasury_amount_spec(c) + antiscam_amount_spec(c) <= fee_amount_spec(c),
        fee_amount_spec(c) >= treasury_amount_spec(c) + antiscam_amount_spec(c)
            && fee_amount_spec(c) - (treasury_amount_spec(c) + antiscam_amount_spec(c)) <= 2,
{
    let f = fee_amount_spec(c);
    let tp = c.treasury_fee_percent as int;
    let ap = c.antiscam_fee_percent as int;
    assert(c.minimum_payment * c.mint_fee_basis_points >= 0) by (nonlinear_arith);
    vstd::arithmetic::div_mod::lemma_div_pos_is_pos(
        c.minimum_payment * c.mint_fee_basis_points,
        BASIS_POINT_DENOMINATOR as int,
    );
    assert(f >= 0);
    assert(f * tp >= 0 && f * ap >= 0) by (nonlinear_arith)
        requires f >= 0 && tp >= 0 && ap >= 0;
    vstd::arithmetic::div_mod::lemma_fundamental_div_mod(f * tp, 100);
    vstd::arithmetic::div_mod::lemma_fundamental_div_mod(f * ap, 100);
    vstd::arithmetic::div_mod::lemma_mod_bound(f * tp, 100);
    vstd::arithmetic::div_mod::lemma_mod_bound(f * ap, 100);
    assert(f * tp + f * ap == 100 * f) by (nonlinear_arith)
        requires tp + ap == 100;
    assert(treasury_amount_spec(c) == (f * tp) / 100);
    assert(antiscam_amount_spec(c) == (f * ap) / 100);
}

} // verus!
