//! The administrative handlers: creating the validation list of a mint and
//! replacing it, both reserved to the mint's authority.

use crate::address::{
    collect_extra_account_metas_seeds, get_extra_account_metas_address_and_bump_seed,
    same_address, signer_seeds, spec_find_program_address, validation_seeds, with_bump, Address,
};
use crate::error::HookError;
use crate::execute::signing;
use crate::host::{
    action_models, closing, rejecting, AccountRef, AccountSnapshot, ExtraMeta, HookState,
    HookStateModel, HostAction, HostActionModel, Invocation, InvocationModel, SignedInvocation,
    SignedInvocationModel, Transition, TransitionModel,
};
use crate::token::{authority_verdict, check_mint_authority, spec_mint_authority};
use solana_program::program_error::ProgramError;
use solana_program::pubkey::Pubkey;
use solana_program::system_instruction;
use spl_tlv_account_resolution::state::ExtraAccountMetaList;
use vstd::bytes::*;
use vstd::prelude::*;

verus! {

/// Positions of the accounts that the administrative handlers read.
pub const LIST_INDEX: usize = 0;

pub const LIST_MINT_INDEX: usize = 1;

pub const LIST_AUTHORITY_INDEX: usize = 2;

/// How many accounts Initialize takes: the three above and the system component.
pub const INITIALIZE_ACCOUNTS: usize = 4;

/// How many accounts Update takes.
pub const UPDATE_ACCOUNTS: usize = 3;

/// The bytes that a validation list of `num_items` entries occupies: a
/// 12-byte header, a 4-byte count and 35 bytes an entry.
pub open spec fn list_size(num_items: nat) -> nat {
    12 + (4 + 35 * num_items)
}

/// The size of the account that holds a list of `num_items` entries: `None`
/// where the entries and their count overflow, and else `list_size`, capped
/// at the largest size.
pub open spec fn list_account_size(num_items: nat) -> Option<usize> {
    if 4 + 35 * num_items > usize::MAX {
        None
    } else if list_size(num_items) > usize::MAX {
        Some(usize::MAX)
    } else {
        Some(list_size(num_items) as usize)
    }
}

/// The size that the list format computes for `num_items` entries, or the
/// error with which it refuses the count.
pub uninterp spec fn spec_list_account_size(num_items: usize) -> Result<usize, ProgramError>;

/// The error with which the list format refuses a count that overflows.
pub open spec fn list_size_error(num_items: usize) -> ProgramError {
    match spec_list_account_size(num_items) {
        Err(error) => error,
        Ok(_) => arbitrary(),
    }
}

/// The size of an account that holds an empty list.
pub const EMPTY_LIST_SIZE: usize = 16;

/// The address of the host's system component.
pub const SYSTEM_PROGRAM_ID: Address = [
    0, 0, 0, 0, 0, 0, 0, 0, 0, 0, 0, 0, 0, 0, 0, 0, 0, 0, 0, 0, 0, 0, 0, 0, 0, 0, 0, 0, 0, 0, 0, 0,
];

/// The system component's request to allocate `space` bytes to `account`.
pub open spec fn allocate_call(account: Address, space: u64) -> InvocationModel {
    InvocationModel {
        program_id: SYSTEM_PROGRAM_ID,
        accounts: seq![signing(account)],
        data: seq![8u8, 0u8, 0u8, 0u8] + spec_u64_to_le_bytes(space),
    }
}

/// The system component's request to hand `account` over to `owner`.
pub open spec fn assign_call(account: Address, owner: Address) -> InvocationModel {
    InvocationModel {
        program_id: SYSTEM_PROGRAM_ID,
        accounts: seq![signing(account)],
        data: seq![1u8, 0u8, 0u8, 0u8] + owner@,
    }
}

/// Calls `ExtraAccountMetaList::size_of`. Trusted: it fails exactly where the
/// entries and their count overflow, and else gives `list_size`, capped at the
/// largest size; the contract names the error.
#[verifier::external_body]
fn size_of_list(num_items: usize) -> (r: Result<usize, ProgramError>)
    ensures
        r == spec_list_account_size(num_items),
        match list_account_size(num_items as nat) {
            Some(size) => r == Ok::<usize, ProgramError>(size),
            None => r is Err,
        },
{
    ExtraAccountMetaList::size_of(num_items)
}

/// Calls `system_instruction::allocate`. Trusted: the instruction names the
/// system component and the account as a writable signer, and carries opcode
/// 8 and the space, both little-endian.
#[verifier::external_body]
fn system_allocate(account: &Address, space: u64) -> (r: Invocation)
    ensures
        r@ == allocate_call(*account, space),
{
    let ix = system_instruction::allocate(&Pubkey::new_from_array(*account), space);
    let accounts = ix.accounts.iter().map(
        |m| AccountRef { pubkey: m.pubkey.to_bytes(), is_signer: m.is_signer, is_writable: m.is_writable },
    ).collect();
    Invocation { program_id: ix.program_id.to_bytes(), accounts, data: ix.data }
}

/// Calls `system_instruction::assign`. Trusted: the instruction names the
/// system component and the account as a writable signer, and carries opcode
/// 1, little-endian, and the new owner.
#[verifier::external_body]
fn system_assign(account: &Address, owner: &Address) -> (r: Invocation)
    ensures
        r@ == assign_call(*account, *owner),
{
    let ix = system_instruction::assign(&Pubkey::new_from_array(*account), &Pubkey::new_from_array(*owner));
    let accounts = ix.accounts.iter().map(
        |m| AccountRef { pubkey: m.pubkey.to_bytes(), is_signer: m.is_signer, is_writable: m.is_writable },
    ).collect();
    Invocation { program_id: ix.program_id.to_bytes(), accounts, data: ix.data }
}

/// An invocation on the validation account, signed with its own seeds.
pub open spec fn signed_by_list(call: InvocationModel, mint: Address, bump: u8) -> SignedInvocationModel {
    SignedInvocationModel {
        call,
        account_indices: seq![LIST_INDEX],
        signers: seq![signer_seeds(validation_seeds(mint), bump)],
    }
}

/// The steps that create a validation list of `size` bytes: allocate the
/// account, hand it to this program, write the list.
pub open spec fn initialize_steps(
    program_id: Address,
    list: Address,
    mint: Address,
    bump: u8,
    size: usize,
    metas: Seq<ExtraMeta>,
) -> TransitionModel {
    TransitionModel {
        state: HookStateModel::Scripted {
            remaining: seq![
                HostActionModel::Invoke(signed_by_list(assign_call(list, program_id), mint, bump)),
                HostActionModel::InitializeList { metas },
            ],
        },
        action: HostActionModel::Invoke(
            signed_by_list(allocate_call(list, size as u64), mint, bump),
        ),
    }
}

/// The steps that replace a validation list: the account is resized before
/// the list is written if it does not shrink, and after if it does, so that
/// the list is never written into too small an account.
pub open spec fn update_steps(current: usize, size: usize, metas: Seq<ExtraMeta>) -> TransitionModel {
    if size >= current {
        TransitionModel {
            state: HookStateModel::Scripted {
                remaining: seq![HostActionModel::UpdateList { metas }],
            },
            action: HostActionModel::ResizeList { len: size },
        }
    } else {
        TransitionModel {
            state: HookStateModel::Scripted {
                remaining: seq![HostActionModel::ResizeList { len: size }],
            },
            action: HostActionModel::UpdateList { metas },
        }
    }
}

/// The size of the account for a list of `num_items` entries, as the list
/// format hands it out: the number, or its error for a count that overflows.
pub open spec fn sized(num_items: nat) -> Result<usize, ProgramError> {
    match list_account_size(num_items) {
        Some(size) => Ok(size),
        None => Err(list_size_error(num_items as usize)),
    }
}

/// The first step of Initialize, given the verdict on the authority account,
/// what was derived for the mint and the size of the list.
///
/// In this order: four accounts are present; the authority account passes
/// for the mint; an address was derived, without which the call is
/// abandoned; the validation account is that address; the list has a size.
pub open spec fn initialize_start_with(
    program_id: Address,
    accounts: Seq<AccountSnapshot>,
    authority: Result<(), HookError>,
    expected: Option<(Address, u8)>,
    size: Result<usize, ProgramError>,
    metas: Seq<ExtraMeta>,
) -> TransitionModel {
    if accounts.len() < INITIALIZE_ACCOUNTS {
        rejecting(HookError::NotEnoughAccountKeys)
    } else {
        let list = accounts[LIST_INDEX as int];
        let mint = accounts[LIST_MINT_INDEX as int];
        match authority {
            Err(error) => rejecting(error),
            Ok(_) => match expected {
                None => closing(HostActionModel::Abort),
                Some(found) => if found.0 != list.key {
                    rejecting(HookError::InvalidSeeds)
                } else {
                    match size {
                        Err(error) => rejecting(HookError::Outside(error)),
                        Ok(size) => initialize_steps(
                            program_id,
                            list.key,
                            mint.key,
                            found.1,
                            size,
                            metas,
                        ),
                    }
                },
            },
        }
    }
}

/// The first step of Update, given the verdict on the authority account, what
/// was derived for the mint, the size of an empty list and that of the new.
///
/// In this order: three accounts are present; the authority account passes
/// for the mint; an address was derived, without which the call is
/// abandoned; the validation account is that address; an empty list has a
/// size; the account is owned by this program and holds at least an empty
/// list; the new list has a size.
pub open spec fn update_start_with(
    program_id: Address,
    accounts: Seq<AccountSnapshot>,
    authority: Result<(), HookError>,
    expected: Option<(Address, u8)>,
    minimum: Result<usize, ProgramError>,
    size: Result<usize, ProgramError>,
    metas: Seq<ExtraMeta>,
) -> TransitionModel {
    if accounts.len() < UPDATE_ACCOUNTS {
        rejecting(HookError::NotEnoughAccountKeys)
    } else {
        let list = accounts[LIST_INDEX as int];
        match authority {
            Err(error) => rejecting(error),
            Ok(_) => match expected {
                None => closing(HostActionModel::Abort),
                Some(found) => if found.0 != list.key {
                    rejecting(HookError::InvalidSeeds)
                } else {
                    match minimum {
                        Err(error) => rejecting(HookError::Outside(error)),
                        Ok(minimum) => if program_id != list.owner || list.data@.len() < minimum {
                            rejecting(HookError::UninitializedAccount)
                        } else {
                            match size {
                                Err(error) => rejecting(HookError::Outside(error)),
                                Ok(size) => update_steps(list.data@.len() as usize, size, metas),
                            }
                        },
                    }
                },
            },
        }
    }
}

/// The verdict on the authority account of an administrative call.
pub open spec fn list_authority_verdict(accounts: Seq<AccountSnapshot>) -> Result<(), HookError>
    recommends
        accounts.len() >= UPDATE_ACCOUNTS,
{
    authority_verdict(
        spec_mint_authority(accounts[LIST_MINT_INDEX as int].data@),
        accounts[LIST_AUTHORITY_INDEX as int].key,
        accounts[LIST_AUTHORITY_INDEX as int].is_signer,
    )
}

/// The first step of Initialize: that of `initialize_start_with` on the
/// verdict on the authority account, the address derived for the mint, and
/// the size of a list of as many entries, which is 16 bytes and 35 an entry.
pub open spec fn initialize_start(
    program_id: Address,
    accounts: Seq<AccountSnapshot>,
    metas: Seq<ExtraMeta>,
) -> TransitionModel {
    initialize_start_with(
        program_id,
        accounts,
        list_authority_verdict(accounts),
        spec_find_program_address(
            validation_seeds(accounts[LIST_MINT_INDEX as int].key),
            program_id@,
        ),
        sized(metas.len()),
        metas,
    )
}

/// The first step of Update: that of `update_start_with` on the verdict on
/// the authority account, the address derived for the mint, the 16 bytes of
/// an empty list, and the size of a list of as many entries.
pub open spec fn update_start(
    program_id: Address,
    accounts: Seq<AccountSnapshot>,
    metas: Seq<ExtraMeta>,
) -> TransitionModel {
    update_start_with(
        program_id,
        accounts,
        list_authority_verdict(accounts),
        spec_find_program_address(
            validation_seeds(accounts[LIST_MINT_INDEX as int].key),
            program_id@,
        ),
        Ok(EMPTY_LIST_SIZE),
        sized(metas.len()),
        metas,
    )
}

/// A validation list is never written into an account smaller than the list:
/// where the write comes first the account is at least as large as the list,
/// and where the resize comes first it is to the size of the list, with the
/// write as the only step after it.
pub proof fn list_is_never_written_undersized(current: usize, size: usize, metas: Seq<ExtraMeta>)
    ensures
        update_steps(current, size, metas).action is UpdateList ==> current > size
            && update_steps(current, size, metas).state == (HookStateModel::Scripted {
            remaining: seq![HostActionModel::ResizeList { len: size }],
        }),
        update_steps(current, size, metas).action is ResizeList ==> size >= current
            && update_steps(current, size, metas).action == (HostActionModel::ResizeList {
            len: size,
        }) && update_steps(current, size, metas).state == (HookStateModel::Scripted {
            remaining: seq![HostActionModel::UpdateList { metas }],
        }),
        update_steps(current, size, metas).action is UpdateList || update_steps(
            current,
            size,
            metas,
        ).action is ResizeList,
{
}

/// Neither administrative operation touches an account other than the
/// validation account derived for the mint, nor acts for anyone but the
/// mint's authority, who must have signed.
pub proof fn list_operations_are_reserved(
    program_id: Address,
    accounts: Seq<AccountSnapshot>,
    metas: Seq<ExtraMeta>,
)
    ensures
        initialize_start(program_id, accounts, metas).state is Scripted ==> {
            &&& accounts.len() >= INITIALIZE_ACCOUNTS
            &&& accounts[LIST_AUTHORITY_INDEX as int].is_signer
            &&& spec_mint_authority(accounts[LIST_MINT_INDEX as int].data@) == Ok::<
                Option<Address>,
                ProgramError,
            >(Some(accounts[LIST_AUTHORITY_INDEX as int].key))
            &&& spec_find_program_address(
                validation_seeds(accounts[LIST_MINT_INDEX as int].key),
                program_id@,
            ) matches Some(found) && found.0 == accounts[LIST_INDEX as int].key
        },
        update_start(program_id, accounts, metas).state is Scripted ==> {
            &&& accounts.len() >= UPDATE_ACCOUNTS
            &&& accounts[LIST_AUTHORITY_INDEX as int].is_signer
            &&& spec_mint_authority(accounts[LIST_MINT_INDEX as int].data@) == Ok::<
                Option<Address>,
                ProgramError,
            >(Some(accounts[LIST_AUTHORITY_INDEX as int].key))
            &&& spec_find_program_address(
                validation_seeds(accounts[LIST_MINT_INDEX as int].key),
                program_id@,
            ) matches Some(found) && found.0 == accounts[LIST_INDEX as int].key
            &&& accounts[LIST_INDEX as int].owner == program_id
        },
{
}

fn copy_metas(metas: &[ExtraMeta]) -> (r: Vec<ExtraMeta>)
    ensures
        r@ == metas@,
{
    let mut out: Vec<ExtraMeta> = Vec::new();
    let mut i: usize = 0;
    while i < metas.len()
        invariant
            i <= metas.len(),
            out@ == metas@.take(i as int),
        decreases metas.len() - i,
    {
        out.push(metas[i]);
        assert(metas@.take(i + 1) =~= metas@.take(i as int).push(metas@[i as int]));
        i += 1;
    }
    assert(metas@.take(metas.len() as int) =~= metas@);
    out
}

fn sign_by_list(call: Invocation, mint: &Address, bump: u8) -> (r: SignedInvocation)
    ensures
        r@ == signed_by_list(call@, *mint, bump),
{
    let mut account_indices: Vec<usize> = Vec::new();
    account_indices.push(LIST_INDEX);
    let mut signers: Vec<Vec<Vec<u8>>> = Vec::new();
    signers.push(with_bump(collect_extra_account_metas_seeds(mint), bump));
    let r = SignedInvocation { call, account_indices, signers };
    proof {
        assert(r.account_indices@ =~= seq![LIST_INDEX]);
        assert(r.signers.deep_view() =~= seq![signer_seeds(validation_seeds(*mint), bump)]);
    }
    r
}

/// Lays out the steps that create a validation list of `size` bytes.
pub fn plan_initialize(
    program_id: &Address,
    list: &Address,
    mint: &Address,
    bump: u8,
    size: usize,
    metas: &[ExtraMeta],
) -> (r: Transition)
    ensures
        r@ == initialize_steps(*program_id, *list, *mint, bump, size, metas@),
{
    let allocate = sign_by_list(system_allocate(list, size as u64), mint, bump);
    let assign = sign_by_list(system_assign(list, program_id), mint, bump);
    let mut remaining: Vec<HostAction> = Vec::new();
    remaining.push(HostAction::Invoke(assign));
    remaining.push(HostAction::InitializeList { metas: copy_metas(metas) });
    proof {
        assert(action_models(remaining@) =~= initialize_steps(
            *program_id,
            *list,
            *mint,
            bump,
            size,
            metas@,
        ).state->remaining);
    }
    Transition { state: HookState::Scripted { remaining }, action: HostAction::Invoke(allocate) }
}

/// Lays out the steps that replace a validation list in an account of
/// `current` bytes by one of `size` bytes.
pub fn plan_update(current: usize, size: usize, metas: &[ExtraMeta]) -> (r: Transition)
    ensures
        r@ == update_steps(current, size, metas@),
{
    let mut remaining: Vec<HostAction> = Vec::new();
    if size >= current {
        remaining.push(HostAction::UpdateList { metas: copy_metas(metas) });
        proof {
            assert(action_models(remaining@) =~= seq![HostActionModel::UpdateList { metas: metas@ }]);
        }
        Transition {
            state: HookState::Scripted { remaining },
            action: HostAction::ResizeList { len: size },
        }
    } else {
        remaining.push(HostAction::ResizeList { len: size });
        proof {
            assert(action_models(remaining@) =~= seq![HostActionModel::ResizeList { len: size }]);
        }
        Transition {
            state: HookState::Scripted { remaining },
            action: HostAction::UpdateList { metas: copy_metas(metas) },
        }
    }
}

/// Takes the first step of Initialize from what was read, derived and sized.
pub fn start_initialize(
    program_id: &Address,
    accounts: &[AccountSnapshot],
    authority: Result<(), HookError>,
    expected: Option<(Address, u8)>,
    size: Result<usize, ProgramError>,
    extra_account_metas: &[ExtraMeta],
) -> (r: Transition)
    ensures
        r@ == initialize_start_with(
            *program_id,
            accounts@,
            authority,
            expected,
            size,
            extra_account_metas@,
        ),
{
    if accounts.len() < INITIALIZE_ACCOUNTS {
        return Transition::reject(HookError::NotEnoughAccountKeys);
    }
    let list = &accounts[LIST_INDEX];
    let mint = &accounts[LIST_MINT_INDEX];
    match authority {
        Err(error) => { return Transition::reject(error); },
        Ok(_) => {},
    }
    let found = match expected {
        None => { return Transition::abort(); },
        Some(found) => found,
    };
    if !same_address(&found.0, &list.key) {
        return Transition::reject(HookError::InvalidSeeds);
    }
    match size {
        Err(error) => Transition::reject(HookError::Outside(error)),
        Ok(size) => plan_initialize(
            program_id,
            &list.key,
            &mint.key,
            found.1,
            size,
            extra_account_metas,
        ),
    }
}

/// Takes the first step of Update from what was read, derived and sized.
pub fn start_update(
    program_id: &Address,
    accounts: &[AccountSnapshot],
    authority: Result<(), HookError>,
    expected: Option<(Address, u8)>,
    minimum: Result<usize, ProgramError>,
    size: Result<usize, ProgramError>,
    extra_account_metas: &[ExtraMeta],
) -> (r: Transition)
    ensures
        r@ == update_start_with(
            *program_id,
            accounts@,
            authority,
            expected,
            minimum,
            size,
            extra_account_metas@,
        ),
{
    if accounts.len() < UPDATE_ACCOUNTS {
        return Transition::reject(HookError::NotEnoughAccountKeys);
    }
    let list = &accounts[LIST_INDEX];
    match authority {
        Err(error) => { return Transition::reject(error); },
        Ok(_) => {},
    }
    let found = match expected {
        None => { return Transition::abort(); },
        Some(found) => found,
    };
    if !same_address(&found.0, &list.key) {
        return Transition::reject(HookError::InvalidSeeds);
    }
    let minimum = match minimum {
        Err(error) => { return Transition::reject(HookError::Outside(error)); },
        Ok(minimum) => minimum,
    };
    let current = list.data.len();
    if !same_address(program_id, &list.owner) || current < minimum {
        return Transition::reject(HookError::UninitializedAccount);
    }
    match size {
        Err(error) => Transition::reject(HookError::Outside(error)),
        Ok(size) => plan_update(current, size, extra_account_metas),
    }
}

fn check_list_authority(accounts: &[AccountSnapshot]) -> (r: Result<(), HookError>)
    requires
        accounts@.len() >= UPDATE_ACCOUNTS,
    ensures
        r == list_authority_verdict(accounts@),
{
    let mint = &accounts[LIST_MINT_INDEX];
    let authority = &accounts[LIST_AUTHORITY_INDEX];
    check_mint_authority(mint.data.as_slice(), &authority.key, authority.is_signer)
}

/// Processes an InitializeExtraAccountMetaList instruction up to its first
/// host action.
pub fn process_initialize_extra_account_meta_list(
    program_id: &Address,
    accounts: &[AccountSnapshot],
    extra_account_metas: &[ExtraMeta],
) -> (r: Transition)
    ensures
        r@ == initialize_start(*program_id, accounts@, extra_account_metas@),
{
    if accounts.len() < INITIALIZE_ACCOUNTS {
        return Transition::reject(HookError::NotEnoughAccountKeys);
    }
    let authority = check_list_authority(accounts);
    let expected = get_extra_account_metas_address_and_bump_seed(
        &accounts[LIST_MINT_INDEX].key,
        program_id,
    );
    let size = size_of_list(extra_account_metas.len());
    start_initialize(program_id, accounts, authority, expected, size, extra_account_metas)
}

/// Processes an UpdateExtraAccountMetaList instruction up to its first host
/// action.
pub fn process_update_extra_account_meta_list(
    program_id: &Address,
    accounts: &[AccountSnapshot],
    extra_account_metas: &[ExtraMeta],
) -> (r: Transition)
    ensures
        r@ == update_start(*program_id, accounts@, extra_account_metas@),
{
    if accounts.len() < UPDATE_ACCOUNTS {
        return Transition::reject(HookError::NotEnoughAccountKeys);
    }
    let authority = check_list_authority(accounts);
    let expected = get_extra_account_metas_address_and_bump_seed(
        &accounts[LIST_MINT_INDEX].key,
        program_id,
    );
    let minimum = size_of_list(0);
    let size = size_of_list(extra_account_metas.len());
    start_update(program_id, accounts, authority, expected, minimum, size, extra_account_metas)
}

} // verus!
