//! Error classification.

use solana_program::program_error::ProgramError;
use vstd::prelude::*;

verus! {

/// `solana_program`'s `ProgramError`: the error of a collaborator, carried
/// through unread.
#[verifier::external_type_specification]
#[verifier::external_body]
pub struct ExProgramError(ProgramError);

/// `std::io::Error`: what borsh fails with; only its presence is read.
#[verifier::external_type_specification]
#[verifier::external_body]
pub struct ExIoError(std::io::Error);

/// How eight-byte data failed to be read or written.
#[derive(Clone, Copy, Debug, PartialEq, Eq)]
pub enum BorshFault {
    /// The data ends before the value does.
    UnexpectedLength,
    /// The data goes on after the value.
    NotAllBytesRead,
    /// The target is too short to take the value.
    WriteZero,
}

/// Why a call is rejected.
///
/// Every variant but the last is a rejection that this library decides on.
/// `Outside` carries, unread, the error that a collaborator returned.
#[derive(Debug, PartialEq, Eq)]
pub enum HookError {
    /// Fewer accounts were supplied than the operation reads.
    NotEnoughAccountKeys,
    /// A token account of the transfer is not marked as mid-transfer.
    ProgramCalledOutsideOfTransfer,
    /// The validation account is not the one derived for the mint.
    InvalidSeeds,
    /// The rent minimums and the published fee do not fit in 64 bits.
    ArithmeticOverflow,
    /// The counter or the random number is not eight bytes long, or the
    /// counter does not fit where it is to be written.
    BorshIoError(BorshFault),
    /// The counter is at its maximum and cannot be incremented.
    IncorrectAccount,
    /// The mint has no registered authority.
    MintHasNoMintAuthority,
    /// The authority account did not sign.
    MissingRequiredSignature,
    /// The signing account is not the mint's authority.
    IncorrectMintAuthority,
    /// The validation account has not been initialized by this program.
    UninitializedAccount,
    /// A collaborator failed; its error is passed on as it came.
    Outside(ProgramError),
}

} // verus!
