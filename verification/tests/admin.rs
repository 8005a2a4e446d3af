use solana_program::program_error::ProgramError;
use solana_program::program_option::COption;
use solana_program::program_pack::Pack;
use solana_program::pubkey::Pubkey;
use solana_program::system_instruction;
use solana_program::system_program;
use spl_tlv_account_resolution::state::ExtraAccountMetaList;
use spl_token_2022::state::Mint;
use transfer_hook_rng::address::Address;
use transfer_hook_rng::admin::{
    plan_initialize, plan_update, process_initialize_extra_account_meta_list,
    process_update_extra_account_meta_list, start_initialize, start_update, SYSTEM_PROGRAM_ID,
};
use transfer_hook_rng::error::HookError;
use transfer_hook_rng::host::{
    AccountRef, AccountSnapshot, ExtraMeta, HookState, HostAction, HostEvent, SignedInvocation,
    Transition,
};
use transfer_hook_rng::processor::advance;

const PROGRAM: Address = [42u8; 32];
const MINT: Address = [1u8; 32];
const AUTHORITY: Address = [3u8; 32];

fn mint_data(authority: Option<Address>) -> Vec<u8> {
    let mint = Mint {
        mint_authority: match authority {
            Some(key) => COption::Some(Pubkey::new_from_array(key)),
            None => COption::None,
        },
        supply: 1_000,
        decimals: 2,
        is_initialized: true,
        freeze_authority: COption::None,
    };
    let mut data = vec![0u8; Mint::LEN];
    Mint::pack(mint, &mut data).unwrap();
    data
}

fn list_address() -> (Address, u8) {
    let (key, bump) = spl_transfer_hook_interface::get_extra_account_metas_address_and_bump_seed(
        &Pubkey::new_from_array(MINT),
        &Pubkey::new_from_array(PROGRAM),
    );
    (key.to_bytes(), bump)
}

fn accounts(list_len: usize) -> Vec<AccountSnapshot> {
    vec![
        AccountSnapshot {
            key: list_address().0,
            owner: PROGRAM,
            lamports: 1,
            data: vec![0u8; list_len],
            is_signer: false,
            is_writable: true,
        },
        AccountSnapshot {
            key: MINT,
            owner: [6u8; 32],
            lamports: 1,
            data: mint_data(Some(AUTHORITY)),
            is_signer: false,
            is_writable: false,
        },
        AccountSnapshot {
            key: AUTHORITY,
            owner: [0u8; 32],
            lamports: 1,
            data: vec![],
            is_signer: true,
            is_writable: false,
        },
        AccountSnapshot {
            key: [0u8; 32],
            owner: [0u8; 32],
            lamports: 1,
            data: vec![],
            is_signer: false,
            is_writable: false,
        },
    ]
}

fn metas(count: u8) -> Vec<ExtraMeta> {
    (0..count)
        .map(|i| ExtraMeta {
            discriminator: 0,
            address_config: [i + 10; 32],
            is_signer: 0,
            is_writable: 1,
        })
        .collect()
}

fn rejected(error: HookError) -> Transition {
    Transition { state: HookState::Closed, action: HostAction::Reject(error) }
}

fn signer() -> Vec<Vec<Vec<u8>>> {
    vec![vec![b"extra-account-metas".to_vec(), MINT.to_vec(), vec![list_address().1]]]
}

fn signed(call: &SignedInvocation) -> (Address, Vec<AccountRef>, Vec<u8>) {
    (call.call.program_id, call.call.accounts.clone(), call.call.data.clone())
}

#[test]
fn system_address_is_the_hosts() {
    assert_eq!(SYSTEM_PROGRAM_ID, system_program::id().to_bytes());
}

#[test]
fn initialize_allocates_assigns_and_writes_in_order() {
    let list = list_address().0;
    let step = process_initialize_extra_account_meta_list(&PROGRAM, &accounts(0), &metas(2));
    let size = ExtraAccountMetaList::size_of(2).unwrap();
    assert_eq!(size, 86);
    let allocate = system_instruction::allocate(&Pubkey::new_from_array(list), size as u64);
    let assign =
        system_instruction::assign(&Pubkey::new_from_array(list), &Pubkey::new_from_array(PROGRAM));
    let writable_signer =
        vec![AccountRef { pubkey: list, is_signer: true, is_writable: true }];
    match &step.action {
        HostAction::Invoke(call) => {
            assert_eq!(
                signed(call),
                (allocate.program_id.to_bytes(), writable_signer.clone(), allocate.data.clone())
            );
            assert_eq!(call.call.data, vec![8, 0, 0, 0, 86, 0, 0, 0, 0, 0, 0, 0]);
            assert_eq!(call.call.program_id, [0u8; 32]);
            assert_eq!(call.account_indices, vec![0]);
            assert_eq!(call.signers, signer());
        }
        other => panic!("unexpected action {:?}", other),
    }
    let second = advance(step.state, HostEvent::Succeeded);
    match &second.action {
        HostAction::Invoke(call) => {
            assert_eq!(
                signed(call),
                (assign.program_id.to_bytes(), writable_signer, assign.data.clone())
            );
            let mut data = vec![1u8, 0, 0, 0];
            data.extend_from_slice(&PROGRAM);
            assert_eq!(call.call.data, data);
            assert_eq!(call.account_indices, vec![0]);
            assert_eq!(call.signers, signer());
        }
        other => panic!("unexpected action {:?}", other),
    }
    let third = advance(second.state, HostEvent::Succeeded);
    assert_eq!(third.action, HostAction::InitializeList { metas: metas(2) });
    let last = advance(third.state, HostEvent::Succeeded);
    assert_eq!(last, Transition { state: HookState::Closed, action: HostAction::Finish });
}

#[test]
fn initialize_stops_at_the_first_failed_step() {
    let step = process_initialize_extra_account_meta_list(&PROGRAM, &accounts(0), &metas(1));
    let next = advance(step.state, HostEvent::Failed(ProgramError::AccountAlreadyInitialized));
    assert_eq!(next, rejected(HookError::Outside(ProgramError::AccountAlreadyInitialized)));
}

#[test]
fn initialize_needs_four_accounts() {
    let mut all = accounts(0);
    all.pop();
    assert_eq!(
        process_initialize_extra_account_meta_list(&PROGRAM, &all, &metas(1)),
        rejected(HookError::NotEnoughAccountKeys)
    );
}

#[test]
fn initialize_rejects_a_mint_without_authority() {
    let mut all = accounts(0);
    all[1].data = mint_data(None);
    assert_eq!(
        process_initialize_extra_account_meta_list(&PROGRAM, &all, &metas(1)),
        rejected(HookError::MintHasNoMintAuthority)
    );
}

#[test]
fn initialize_rejects_an_authority_that_did_not_sign() {
    let mut all = accounts(0);
    all[2].is_signer = false;
    assert_eq!(
        process_initialize_extra_account_meta_list(&PROGRAM, &all, &metas(1)),
        rejected(HookError::MissingRequiredSignature)
    );
}

#[test]
fn initialize_rejects_a_signer_that_is_not_the_authority() {
    let mut all = accounts(0);
    all[2].key = [9u8; 32];
    assert_eq!(
        process_initialize_extra_account_meta_list(&PROGRAM, &all, &metas(1)),
        rejected(HookError::IncorrectMintAuthority)
    );
}

#[test]
fn initialize_rejects_a_foreign_validation_account() {
    let mut all = accounts(0);
    all[0].key = [9u8; 32];
    assert_eq!(
        process_initialize_extra_account_meta_list(&PROGRAM, &all, &metas(1)),
        rejected(HookError::InvalidSeeds)
    );
}

#[test]
fn initialize_passes_on_the_error_of_an_unreadable_mint() {
    let mut all = accounts(0);
    all[1].data = vec![0u8; 5];
    assert_eq!(
        process_initialize_extra_account_meta_list(&PROGRAM, &all, &metas(1)),
        rejected(HookError::Outside(ProgramError::InvalidAccountData))
    );
}

#[test]
fn plan_initialize_sizes_the_allocation() {
    let step = plan_initialize(&PROGRAM, &[7u8; 32], &MINT, 250, 16, &[]);
    match &step.action {
        HostAction::Invoke(call) => {
            assert_eq!(call.call.data, vec![8, 0, 0, 0, 16, 0, 0, 0, 0, 0, 0, 0]);
            assert_eq!(
                call.signers,
                vec![vec![b"extra-account-metas".to_vec(), MINT.to_vec(), vec![250]]]
            );
        }
        other => panic!("unexpected action {:?}", other),
    }
}

#[test]
fn update_resizes_before_writing_when_growing() {
    let step = process_update_extra_account_meta_list(&PROGRAM, &accounts(51), &metas(2));
    assert_eq!(step.action, HostAction::ResizeList { len: 86 });
    let second = advance(step.state, HostEvent::Succeeded);
    assert_eq!(second.action, HostAction::UpdateList { metas: metas(2) });
    let last = advance(second.state, HostEvent::Succeeded);
    assert_eq!(last, Transition { state: HookState::Closed, action: HostAction::Finish });
}

#[test]
fn update_resizes_first_when_the_size_is_unchanged() {
    let step = process_update_extra_account_meta_list(&PROGRAM, &accounts(86), &metas(2));
    assert_eq!(step.action, HostAction::ResizeList { len: 86 });
    assert_eq!(
        step.state,
        HookState::Scripted { remaining: vec![HostAction::UpdateList { metas: metas(2) }] }
    );
}

#[test]
fn update_writes_before_resizing_when_shrinking() {
    let step = process_update_extra_account_meta_list(&PROGRAM, &accounts(121), &metas(1));
    assert_eq!(step.action, HostAction::UpdateList { metas: metas(1) });
    let second = advance(step.state, HostEvent::Succeeded);
    assert_eq!(second.action, HostAction::ResizeList { len: 51 });
    let last = advance(second.state, HostEvent::Succeeded);
    assert_eq!(last, Transition { state: HookState::Closed, action: HostAction::Finish });
}

#[test]
fn plan_update_orders_the_two_steps_by_size() {
    assert_eq!(plan_update(16, 51, &metas(1)).action, HostAction::ResizeList { len: 51 });
    assert_eq!(plan_update(51, 16, &[]).action, HostAction::UpdateList { metas: vec![] });
}

#[test]
fn update_needs_three_accounts() {
    let mut all = accounts(16);
    all.truncate(2);
    assert_eq!(
        process_update_extra_account_meta_list(&PROGRAM, &all, &metas(1)),
        rejected(HookError::NotEnoughAccountKeys)
    );
    all = accounts(16);
    all.truncate(3);
    assert_eq!(
        process_update_extra_account_meta_list(&PROGRAM, &all, &metas(1)).action,
        HostAction::ResizeList { len: 51 }
    );
}

#[test]
fn update_rejects_an_account_of_another_owner() {
    let mut all = accounts(16);
    all[0].owner = [0u8; 32];
    assert_eq!(
        process_update_extra_account_meta_list(&PROGRAM, &all, &metas(1)),
        rejected(HookError::UninitializedAccount)
    );
}

#[test]
fn update_rejects_an_account_smaller_than_an_empty_list() {
    assert_eq!(
        process_update_extra_account_meta_list(&PROGRAM, &accounts(15), &metas(1)),
        rejected(HookError::UninitializedAccount)
    );
    assert_eq!(ExtraAccountMetaList::size_of(0).unwrap(), 16);
}

#[test]
fn update_checks_authority_and_address_first() {
    let mut all = accounts(0);
    all[2].is_signer = false;
    assert_eq!(
        process_update_extra_account_meta_list(&PROGRAM, &all, &metas(1)),
        rejected(HookError::MissingRequiredSignature)
    );
    let mut all = accounts(0);
    all[2].key = [9u8; 32];
    assert_eq!(
        process_update_extra_account_meta_list(&PROGRAM, &all, &metas(1)),
        rejected(HookError::IncorrectMintAuthority)
    );
    let mut all = accounts(0);
    all[1].data = mint_data(None);
    assert_eq!(
        process_update_extra_account_meta_list(&PROGRAM, &all, &metas(1)),
        rejected(HookError::MintHasNoMintAuthority)
    );
    let mut all = accounts(0);
    all[0].key = [9u8; 32];
    assert_eq!(
        process_update_extra_account_meta_list(&PROGRAM, &all, &metas(1)),
        rejected(HookError::InvalidSeeds)
    );
}

fn aborted() -> Transition {
    Transition { state: HookState::Closed, action: HostAction::Abort }
}

#[test]
fn start_initialize_checks_in_order() {
    let all = accounts(0);
    let found = Some(list_address());
    let overflow = || Err(ProgramError::Custom(5));
    let unsigned = || Err(HookError::MissingRequiredSignature);
    assert_eq!(
        start_initialize(&PROGRAM, &all[..3], unsigned(), None, overflow(), &metas(1)),
        rejected(HookError::NotEnoughAccountKeys)
    );
    assert_eq!(
        start_initialize(&PROGRAM, &all, unsigned(), None, overflow(), &metas(1)),
        rejected(HookError::MissingRequiredSignature)
    );
    assert_eq!(start_initialize(&PROGRAM, &all, Ok(()), None, overflow(), &metas(1)), aborted());
    assert_eq!(
        start_initialize(&PROGRAM, &all, Ok(()), Some(([9u8; 32], 1)), overflow(), &metas(1)),
        rejected(HookError::InvalidSeeds)
    );
    assert_eq!(
        start_initialize(&PROGRAM, &all, Ok(()), found, overflow(), &metas(1)),
        rejected(HookError::Outside(ProgramError::Custom(5)))
    );
    assert_eq!(
        start_initialize(&PROGRAM, &all, Ok(()), found, Ok(51), &metas(1)),
        process_initialize_extra_account_meta_list(&PROGRAM, &all, &metas(1))
    );
    assert_eq!(
        start_initialize(&PROGRAM, &all, Ok(()), found, Ok(51), &metas(1)),
        plan_initialize(&PROGRAM, &list_address().0, &MINT, list_address().1, 51, &metas(1))
    );
}

#[test]
fn start_update_checks_in_order() {
    let all = accounts(40);
    let found = Some(list_address());
    let overflow = || Err(ProgramError::Custom(5));
    let unsigned = || Err(HookError::IncorrectMintAuthority);
    assert_eq!(
        start_update(&PROGRAM, &all[..2], unsigned(), None, overflow(), overflow(), &metas(1)),
        rejected(HookError::NotEnoughAccountKeys)
    );
    assert_eq!(
        start_update(&PROGRAM, &all, unsigned(), None, overflow(), overflow(), &metas(1)),
        rejected(HookError::IncorrectMintAuthority)
    );
    assert_eq!(
        start_update(&PROGRAM, &all, Ok(()), None, overflow(), overflow(), &metas(1)),
        aborted()
    );
    assert_eq!(
        start_update(&PROGRAM, &all, Ok(()), Some(([9u8; 32], 1)), overflow(), overflow(), &[]),
        rejected(HookError::InvalidSeeds)
    );
    assert_eq!(
        start_update(&PROGRAM, &all, Ok(()), found, Err(ProgramError::Custom(6)), overflow(), &[]),
        rejected(HookError::Outside(ProgramError::Custom(6)))
    );
    assert_eq!(
        start_update(&PROGRAM, &all, Ok(()), found, Ok(41), overflow(), &metas(1)),
        rejected(HookError::UninitializedAccount)
    );
    assert_eq!(
        start_update(&PROGRAM, &all, Ok(()), found, Ok(40), overflow(), &metas(1)),
        rejected(HookError::Outside(ProgramError::Custom(5)))
    );
    let mut foreign = accounts(40);
    foreign[0].owner = [0u8; 32];
    assert_eq!(
        start_update(&PROGRAM, &foreign, Ok(()), found, Ok(16), Ok(51), &metas(1)),
        rejected(HookError::UninitializedAccount)
    );
    assert_eq!(
        start_update(&PROGRAM, &all, Ok(()), found, Ok(16), Ok(51), &metas(1)),
        plan_update(40, 51, &metas(1))
    );
    assert_eq!(
        start_update(&PROGRAM, &all, Ok(()), found, Ok(16), Ok(16), &[]),
        plan_update(40, 16, &[])
    );
    assert_eq!(
        start_update(&PROGRAM, &all, Ok(()), found, Ok(16), Ok(51), &metas(1)),
        process_update_extra_account_meta_list(&PROGRAM, &all, &metas(1))
    );
}
