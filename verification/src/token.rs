//! What Execute and the administrative handlers read from token accounts and
//! mints: the mid-transfer flag and the registered authority.

use crate::address::{same_address, Address};
use crate::error::HookError;
use solana_program::program_error::ProgramError;
use solana_program::pubkey::Pubkey;
use spl_token_2022::extension::transfer_hook::TransferHookAccount;
use spl_token_2022::extension::{BaseStateWithExtensions, StateWithExtensions};
use spl_token_2022::state::{Account, Mint};
use vstd::prelude::*;

verus! {

/// The mid-transfer flag that the token program reads from the data of a
/// token account, or the error with which it refuses the data.
pub uninterp spec fn spec_transfer_flag(data: Seq<u8>) -> Result<bool, ProgramError>;

/// The authority that the token program reads from the data of a mint, or the
/// error with which it refuses the data.
pub uninterp spec fn spec_mint_authority(data: Seq<u8>) -> Result<Option<Address>, ProgramError>;

/// Calls `StateWithExtensions::<Account>::unpack` and, on the state it gives,
/// `get_extension::<TransferHookAccount>`. Trusted: the flag read, or the
/// error, is a function of the account data alone, which the contract names.
#[verifier::external_body]
fn transfer_flag(data: &[u8]) -> (r: Result<bool, ProgramError>)
    ensures
        r == spec_transfer_flag(data@),
{
    let state = StateWithExtensions::<Account>::unpack(data)?;
    let extension = state.get_extension::<TransferHookAccount>()?;
    Ok(bool::from(extension.transferring))
}

/// Calls `StateWithExtensions::<Mint>::unpack` and hands out the authority of
/// the mint it gives. Trusted: the authority, or the error, is a function of
/// the mint data alone, which the contract names.
#[verifier::external_body]
fn mint_authority(data: &[u8]) -> (r: Result<Option<Address>, ProgramError>)
    ensures
        r == spec_mint_authority(data@),
{
    let mint = StateWithExtensions::<Mint>::unpack(data)?;
    Ok(Option::<Pubkey>::from(mint.base.mint_authority).map(|key| key.to_bytes()))
}

/// The verdict on a mid-transfer flag as read.
pub open spec fn transferring_verdict(flag: Result<bool, ProgramError>) -> Result<(), HookError> {
    match flag {
        Ok(true) => Ok(()),
        Ok(false) => Err(HookError::ProgramCalledOutsideOfTransfer),
        Err(error) => Err(HookError::Outside(error)),
    }
}

/// The verdict on an authority account, given the authority registered with the mint.
pub open spec fn authority_verdict(
    registered: Result<Option<Address>, ProgramError>,
    authority: Address,
    is_signer: bool,
) -> Result<(), HookError> {
    match registered {
        Err(error) => Err(HookError::Outside(error)),
        Ok(None) => Err(HookError::MintHasNoMintAuthority),
        Ok(Some(expected)) => if !is_signer {
            Err(HookError::MissingRequiredSignature)
        } else if authority != expected {
            Err(HookError::IncorrectMintAuthority)
        } else {
            Ok(())
        },
    }
}

/// Accepts a flag that was read and is set; rejects one that is clear, and
/// passes on the error of one that could not be read.
pub fn require_transferring(flag: Result<bool, ProgramError>) -> (r: Result<(), HookError>)
    ensures
        r == transferring_verdict(flag),
{
    match flag {
        Ok(true) => Ok(()),
        Ok(false) => Err(HookError::ProgramCalledOutsideOfTransfer),
        Err(error) => Err(HookError::Outside(error)),
    }
}

/// Accepts a token account that is in the middle of a transfer.
pub fn check_token_account_is_transferring(data: &[u8]) -> (r: Result<(), HookError>)
    ensures
        r == transferring_verdict(spec_transfer_flag(data@)),
{
    require_transferring(transfer_flag(data))
}

/// Accepts an authority account that signed and is the one registered.
///
/// The checks come in this order: the mint is readable, it has an authority,
/// the account signed, the account is that authority.
pub fn require_authority(
    registered: Result<Option<Address>, ProgramError>,
    authority: &Address,
    is_signer: bool,
) -> (r: Result<(), HookError>)
    ensures
        r == authority_verdict(registered, *authority, is_signer),
{
    match registered {
        Err(error) => Err(HookError::Outside(error)),
        Ok(None) => Err(HookError::MintHasNoMintAuthority),
        Ok(Some(expected)) => {
            if !is_signer {
                Err(HookError::MissingRequiredSignature)
            } else if !same_address(authority, &expected) {
                Err(HookError::IncorrectMintAuthority)
            } else {
                Ok(())
            }
        },
    }
}

/// Accepts the authority account of a mint, read from the mint's data.
pub fn check_mint_authority(mint_data: &[u8], authority: &Address, is_signer: bool) -> (r: Result<
    (),
    HookError,
>)
    ensures
        r == authority_verdict(spec_mint_authority(mint_data@), *authority, is_signer),
{
    require_authority(mint_authority(mint_data), authority, is_signer)
}

} // verus!
