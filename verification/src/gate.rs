//! The fee and rent gate: whether the payer sub-account's balance calls for a
//! randomness request.

use crate::error::HookError;
use solana_program::rent::Rent;
use vstd::bytes::*;
use vstd::prelude::*;
use vstd::slice::slice_subrange;

verus! {

/// Size in bytes of the single-use sub-account of a request.
pub const EPHEMERAL_ACCOUNT_SIZE: usize = 50;

/// Size in bytes of the payer sub-account.
pub const PAYER_ACCOUNT_SIZE: usize = 8;

/// The largest data size that the host admits for an account.
pub const MAX_ACCOUNT_DATA_SIZE: usize = 10_485_760;

/// The balance that exempts an account of `data_len` bytes from rent, at the
/// host's default rate: two years of 3480 units per byte, over the data and
/// 128 bytes of overhead.
pub open spec fn rent_exempt_minimum(data_len: nat) -> nat {
    (128 + data_len) * 3480 * 2
}

/// Calls `Rent::default().minimum_balance`. Trusted: for a size that the host
/// admits, it is the product that `rent_exempt_minimum` states.
#[verifier::external_body]
fn rent_minimum_balance(data_len: usize) -> (r: u64)
    requires
        data_len <= MAX_ACCOUNT_DATA_SIZE,
    ensures
        r == rent_exempt_minimum(data_len as nat),
{
    Rent::default().minimum_balance(data_len)
}

/// The fee published in a validation account: bytes 1 to 8 of its data, as a
/// little-endian integer. `None` where the data is shorter than that.
pub open spec fn published_fee(list_data: Seq<u8>) -> Option<u64> {
    if list_data.len() >= 9 {
        Some(spec_u64_from_le_bytes(list_data.subrange(1, 9)))
    } else {
        None
    }
}

/// What a request costs: both rent minimums and the fee. `None` where the sum
/// does not fit in 64 bits.
pub open spec fn required_balance(ephemeral_rent: u64, payer_rent: u64, fee: u64) -> Option<u64> {
    if ephemeral_rent + payer_rent + fee <= u64::MAX {
        Some((ephemeral_rent + payer_rent + fee) as u64)
    } else {
        None
    }
}

/// Whether a request is issued. An unfunded payer (balance zero) issues none;
/// a funded one issues a request exactly when the cost exceeds its balance.
pub open spec fn gate(balance: u64, ephemeral_rent: u64, payer_rent: u64, fee: u64) -> Result<
    bool,
    HookError,
> {
    if balance == 0 {
        Ok(false)
    } else {
        match required_balance(ephemeral_rent, payer_rent, fee) {
            Some(required) => Ok(required > balance),
            None => Err(HookError::ArithmeticOverflow),
        }
    }
}

/// The rent-exempt minimum of the single-use sub-account.
pub fn ephemeral_rent() -> (r: u64)
    ensures
        r == rent_exempt_minimum(EPHEMERAL_ACCOUNT_SIZE as nat),
        r == 1_238_880,
{
    rent_minimum_balance(EPHEMERAL_ACCOUNT_SIZE)
}

/// The rent-exempt minimum of the payer sub-account.
pub fn payer_rent() -> (r: u64)
    ensures
        r == rent_exempt_minimum(PAYER_ACCOUNT_SIZE as nat),
        r == 946_560,
{
    rent_minimum_balance(PAYER_ACCOUNT_SIZE)
}

/// Reads the published fee from the data of a validation account.
pub fn read_published_fee(list_data: &[u8]) -> (r: Option<u64>)
    ensures
        r == published_fee(list_data@),
{
    if list_data.len() >= 9 {
        Some(u64_from_le_bytes(slice_subrange(list_data, 1, 9)))
    } else {
        None
    }
}

/// Adds up what a request costs, refusing a sum that overflows.
pub fn total_required_balance(ephemeral_rent: u64, payer_rent: u64, fee: u64) -> (r: Result<
    u64,
    HookError,
>)
    ensures
        r == match required_balance(ephemeral_rent, payer_rent, fee) {
            Some(required) => Ok::<u64, HookError>(required),
            None => Err(HookError::ArithmeticOverflow),
        },
{
    match ephemeral_rent.checked_add(payer_rent) {
        None => Err(HookError::ArithmeticOverflow),
        Some(rents) => match rents.checked_add(fee) {
            None => Err(HookError::ArithmeticOverflow),
            Some(required) => Ok(required),
        },
    }
}

/// Decides whether a request is issued for a payer with this balance.
pub fn fee_rent_gate(balance: u64, ephemeral_rent: u64, payer_rent: u64, fee: u64) -> (r: Result<
    bool,
    HookError,
>)
    ensures
        r == gate(balance, ephemeral_rent, payer_rent, fee),
{
    if balance == 0 {
        Ok(false)
    } else {
        match total_required_balance(ephemeral_rent, payer_rent, fee) {
            Ok(required) => Ok(required > balance),
            Err(error) => Err(error),
        }
    }
}

/// An unfunded payer issues no request, whatever a request costs.
pub proof fn unfunded_payer_issues_no_request(ephemeral_rent: u64, payer_rent: u64, fee: u64)
    ensures
        gate(0, ephemeral_rent, payer_rent, fee) == Ok::<bool, HookError>(false),
{
}

/// A funded payer whose balance covers the cost issues no request; a balance
/// equal to the cost covers it.
pub proof fn covered_cost_issues_no_request(
    balance: u64,
    ephemeral_rent: u64,
    payer_rent: u64,
    fee: u64,
)
    requires
        balance != 0,
        balance >= ephemeral_rent + payer_rent + fee,
    ensures
        gate(balance, ephemeral_rent, payer_rent, fee) == Ok::<bool, HookError>(false),
{
}

/// A funded payer whose balance is below the cost issues a request.
pub proof fn uncovered_cost_issues_request(
    balance: u64,
    ephemeral_rent: u64,
    payer_rent: u64,
    fee: u64,
)
    requires
        balance != 0,
        balance < ephemeral_rent + payer_rent + fee,
        ephemeral_rent + payer_rent + fee <= u64::MAX,
    ensures
        gate(balance, ephemeral_rent, payer_rent, fee) == Ok::<bool, HookError>(true),
{
}

} // verus!
