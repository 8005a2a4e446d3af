use solana_program::program_error::ProgramError;
use solana_program::pubkey::Pubkey;
use spl_tlv_account_resolution::account::ExtraAccountMeta;
use spl_transfer_hook_interface::instruction::TransferHookInstruction;
use transfer_hook_rng::address::Address;
use transfer_hook_rng::admin::{
    process_initialize_extra_account_meta_list, process_update_extra_account_meta_list,
};
use transfer_hook_rng::error::HookError;
use transfer_hook_rng::execute::process_execute;
use transfer_hook_rng::host::{
    AccountSnapshot, ExtraMeta, HookState, HostAction, HostEvent, Transition,
};
use transfer_hook_rng::instruction::{has_list_tag, list_is_whole, shares_tag, HookInstruction};
use transfer_hook_rng::processor::{advance, dispatch, process, route};

const PROGRAM: Address = [42u8; 32];

fn blank_accounts(count: u8) -> Vec<AccountSnapshot> {
    (0..count)
        .map(|i| AccountSnapshot {
            key: [i; 32],
            owner: PROGRAM,
            lamports: 1,
            data: vec![],
            is_signer: false,
            is_writable: false,
        })
        .collect()
}

fn rejected(error: HookError) -> Transition {
    Transition { state: HookState::Closed, action: HostAction::Reject(error) }
}

fn aborted() -> Transition {
    Transition { state: HookState::Closed, action: HostAction::Abort }
}

fn outside_metas() -> Vec<ExtraAccountMeta> {
    vec![
        ExtraAccountMeta::new_with_pubkey(&Pubkey::new_from_array([7u8; 32]), false, true).unwrap(),
        ExtraAccountMeta::new_with_pubkey(&Pubkey::new_from_array([8u8; 32]), true, false).unwrap(),
    ]
}

fn plain_metas() -> Vec<ExtraMeta> {
    vec![
        ExtraMeta { discriminator: 0, address_config: [7u8; 32], is_signer: 0, is_writable: 1 },
        ExtraMeta { discriminator: 0, address_config: [8u8; 32], is_signer: 1, is_writable: 0 },
    ]
}

#[test]
fn unknown_tag_is_a_decode_error() {
    let input = [9u8; 16];
    assert_eq!(
        process(&PROGRAM, &blank_accounts(16), &input),
        rejected(HookError::Outside(ProgramError::InvalidInstructionData))
    );
}

#[test]
fn short_payload_is_a_decode_error() {
    assert_eq!(
        process(&PROGRAM, &blank_accounts(16), &[105, 37, 101]),
        rejected(HookError::Outside(ProgramError::InvalidInstructionData))
    );
    assert_eq!(
        process(&PROGRAM, &blank_accounts(16), &[]),
        rejected(HookError::Outside(ProgramError::InvalidInstructionData))
    );
}

#[test]
fn execute_without_an_amount_is_a_decode_error() {
    let input = [105u8, 37, 101, 197, 75, 251, 102, 26, 1, 2, 3];
    assert_eq!(
        process(&PROGRAM, &blank_accounts(16), &input),
        rejected(HookError::Outside(ProgramError::InvalidInstructionData))
    );
}

#[test]
fn execute_payload_routes_to_execute() {
    let input = TransferHookInstruction::Execute { amount: 77 }.pack();
    let all = blank_accounts(16);
    assert_eq!(process(&PROGRAM, &all, &input), process_execute(&PROGRAM, &all, 77));
    assert_eq!(
        process(&PROGRAM, &blank_accounts(15), &input),
        rejected(HookError::NotEnoughAccountKeys)
    );
    assert_eq!(
        process(&PROGRAM, &all, &input),
        rejected(HookError::Outside(ProgramError::InvalidAccountData))
    );
}

#[test]
fn initialize_payload_routes_to_initialize() {
    let input = TransferHookInstruction::InitializeExtraAccountMetaList {
        extra_account_metas: outside_metas(),
    }
    .pack();
    let all = blank_accounts(4);
    assert_eq!(
        process(&PROGRAM, &all, &input),
        process_initialize_extra_account_meta_list(&PROGRAM, &all, &plain_metas())
    );
    assert_eq!(
        process(&PROGRAM, &blank_accounts(3), &input),
        rejected(HookError::NotEnoughAccountKeys)
    );
}

#[test]
fn update_payload_routes_to_update() {
    let input = TransferHookInstruction::UpdateExtraAccountMetaList {
        extra_account_metas: outside_metas(),
    }
    .pack();
    let all = blank_accounts(3);
    assert_eq!(
        process(&PROGRAM, &all, &input),
        process_update_extra_account_meta_list(&PROGRAM, &all, &plain_metas())
    );
    assert_eq!(
        process(&PROGRAM, &blank_accounts(2), &input),
        rejected(HookError::NotEnoughAccountKeys)
    );
}

#[test]
fn a_closed_call_takes_no_event() {
    assert_eq!(advance(HookState::Closed, HostEvent::Succeeded), aborted());
    assert_eq!(advance(HookState::Closed, HostEvent::NoResponse), aborted());
}

#[test]
fn scripted_steps_come_out_in_order() {
    let state = HookState::Scripted {
        remaining: vec![HostAction::ResizeList { len: 1 }, HostAction::ResizeList { len: 2 }],
    };
    let first = advance(state, HostEvent::Succeeded);
    assert_eq!(first.action, HostAction::ResizeList { len: 1 });
    assert_eq!(
        first.state,
        HookState::Scripted { remaining: vec![HostAction::ResizeList { len: 2 }] }
    );
    let second = advance(first.state, HostEvent::Succeeded);
    assert_eq!(second.action, HostAction::ResizeList { len: 2 });
    assert_eq!(second.state, HookState::Scripted { remaining: vec![] });
    let last = advance(second.state, HostEvent::Succeeded);
    assert_eq!(last, Transition { state: HookState::Closed, action: HostAction::Finish });
}

#[test]
fn a_response_where_a_result_is_due_abandons_the_call() {
    let state = HookState::Scripted { remaining: vec![HostAction::ResizeList { len: 1 }] };
    assert_eq!(advance(state, HostEvent::NoResponse), aborted());
    let state = HookState::Scripted { remaining: vec![] };
    assert_eq!(
        advance(state, HostEvent::Response { producer: [0u8; 32], data: vec![] }),
        aborted()
    );
}

fn list_payload(update: bool, declared: u32, entries: usize) -> Vec<u8> {
    let empty = if update {
        TransferHookInstruction::UpdateExtraAccountMetaList { extra_account_metas: vec![] }
    } else {
        TransferHookInstruction::InitializeExtraAccountMetaList { extra_account_metas: vec![] }
    };
    let mut input = empty.pack()[..8].to_vec();
    input.extend_from_slice(&declared.to_le_bytes());
    input.extend_from_slice(&vec![0u8; 35 * entries]);
    input
}

#[test]
fn list_that_declares_more_entries_than_it_holds_abandons_the_call() {
    assert_eq!(process(&PROGRAM, &blank_accounts(4), &list_payload(false, 1, 0)), aborted());
    assert_eq!(process(&PROGRAM, &blank_accounts(3), &list_payload(true, 1, 0)), aborted());
    assert_eq!(process(&PROGRAM, &blank_accounts(4), &list_payload(false, 3, 2)), aborted());
    assert_eq!(process(&PROGRAM, &blank_accounts(4), &list_payload(true, u32::MAX, 1)), aborted());
    assert_eq!(HookInstruction::unpack(&list_payload(false, 1, 0)), None);
    assert_eq!(HookInstruction::unpack(&list_payload(true, 2, 1)), None);
}

#[test]
fn list_that_declares_no_more_entries_than_it_holds_is_decoded() {
    assert_eq!(
        HookInstruction::unpack(&list_payload(false, 0, 0)),
        Some(Ok(HookInstruction::InitializeExtraAccountMetaList { extra_account_metas: vec![] }))
    );
    let blank = ExtraMeta { discriminator: 0, address_config: [0u8; 32], is_signer: 0, is_writable: 0 };
    assert_eq!(
        HookInstruction::unpack(&list_payload(true, 1, 2)),
        Some(Ok(HookInstruction::UpdateExtraAccountMetaList { extra_account_metas: vec![blank] }))
    );
    assert_eq!(
        HookInstruction::unpack(&list_payload(true, 2, 2)),
        Some(Ok(HookInstruction::UpdateExtraAccountMetaList {
            extra_account_metas: vec![blank, blank],
        }))
    );
}

#[test]
fn list_with_a_broken_entry_is_a_decode_error() {
    let mut input = list_payload(false, 5, 1);
    input.pop();
    assert!(matches!(HookInstruction::unpack(&input), Some(Err(_))));
    let next = process(&PROGRAM, &blank_accounts(4), &input);
    assert_eq!(next.state, HookState::Closed);
    assert!(matches!(next.action, HostAction::Reject(HookError::Outside(_))));
}

#[test]
fn execute_payload_is_decoded_whatever_follows_the_tag() {
    let mut input = TransferHookInstruction::Execute { amount: 9 }.pack();
    assert_eq!(HookInstruction::unpack(&input), Some(Ok(HookInstruction::Execute { amount: 9 })));
    input[8..12].copy_from_slice(&u32::MAX.to_le_bytes());
    input.extend_from_slice(&[0u8; 31]);
    assert_eq!(input.len(), 47);
    assert!(!list_is_whole(&input));
    assert!(!has_list_tag(&input));
    assert_eq!(
        HookInstruction::unpack(&input),
        Some(Ok(HookInstruction::Execute { amount: u32::MAX as u64 }))
    );
}

#[test]
fn list_is_whole_reads_the_declared_count() {
    assert!(list_is_whole(&[]));
    assert!(list_is_whole(&[0u8; 11]));
    assert!(list_is_whole(&list_payload(false, 0, 0)));
    assert!(list_is_whole(&list_payload(false, 2, 2)));
    assert!(list_is_whole(&list_payload(false, 1, 2)));
    assert!(!list_is_whole(&list_payload(false, 3, 2)));
    assert!(!list_is_whole(&list_payload(false, 1, 0)));
    let mut broken = list_payload(false, 9, 1);
    broken.push(0);
    assert!(list_is_whole(&broken));
}

#[test]
fn shares_tag_compares_eight_bytes() {
    let execute = TransferHookInstruction::Execute { amount: 1 }.pack();
    assert!(shares_tag(&[105, 37, 101, 197, 75, 251, 102, 26], &execute));
    assert!(shares_tag(&TransferHookInstruction::Execute { amount: 2 }.pack(), &execute));
    assert!(!shares_tag(&[105, 37, 101, 197, 75, 251, 102], &execute));
    assert!(!shares_tag(&[105, 37, 101, 197, 75, 251, 102, 27, 0], &execute));
    assert!(!shares_tag(&list_payload(true, 0, 0), &execute));
    assert!(!shares_tag(&[], &execute));
    assert!(!shares_tag(&execute, &execute[..7]));
    assert!(!shares_tag(&[], &[]));
}

#[test]
fn has_list_tag_knows_the_two_list_operations() {
    assert!(has_list_tag(&list_payload(false, 0, 0)));
    assert!(has_list_tag(&list_payload(true, 7, 0)));
    assert!(has_list_tag(&list_payload(true, 0, 0)[..8]));
    assert!(!has_list_tag(&list_payload(true, 0, 0)[..7]));
    assert!(!has_list_tag(&TransferHookInstruction::Execute { amount: 1 }.pack()));
    assert!(!has_list_tag(&[9u8; 12]));
    assert!(!has_list_tag(&[]));
    let packed = TransferHookInstruction::InitializeExtraAccountMetaList {
        extra_account_metas: outside_metas(),
    }
    .pack();
    assert!(has_list_tag(&packed));
}

#[test]
fn unknown_tag_with_a_count_above_its_entries_is_a_decode_error() {
    let input = [9u8, 9, 9, 9, 9, 9, 9, 9, 1, 0, 0, 0];
    assert!(!list_is_whole(&input));
    assert_eq!(
        HookInstruction::unpack(&input),
        Some(Err(ProgramError::InvalidInstructionData))
    );
    assert_eq!(
        process(&PROGRAM, &blank_accounts(16), &input),
        rejected(HookError::Outside(ProgramError::InvalidInstructionData))
    );
    let mut longer = vec![0u8; 12 + 35];
    longer[8] = 200;
    assert!(!list_is_whole(&longer));
    assert_eq!(
        process(&PROGRAM, &blank_accounts(16), &longer),
        rejected(HookError::Outside(ProgramError::InvalidInstructionData))
    );
}

#[test]
fn route_takes_each_decoding_its_way() {
    let all = blank_accounts(16);
    assert_eq!(route(&PROGRAM, &all, None), aborted());
    assert_eq!(
        route(&PROGRAM, &all, Some(Err(ProgramError::InvalidInstructionData))),
        rejected(HookError::Outside(ProgramError::InvalidInstructionData))
    );
    assert_eq!(
        route(&PROGRAM, &all, Some(Err(ProgramError::Custom(3)))),
        rejected(HookError::Outside(ProgramError::Custom(3)))
    );
    assert_eq!(
        route(&PROGRAM, &all, Some(Ok(HookInstruction::Execute { amount: 4 }))),
        process_execute(&PROGRAM, &all, 4)
    );
    assert_eq!(
        route(
            &PROGRAM,
            &blank_accounts(2),
            Some(Ok(HookInstruction::UpdateExtraAccountMetaList { extra_account_metas: vec![] }))
        ),
        rejected(HookError::NotEnoughAccountKeys)
    );
}

#[test]
fn dispatch_runs_the_handler_of_the_operation() {
    let all = blank_accounts(16);
    assert_eq!(
        dispatch(&PROGRAM, &all, HookInstruction::Execute { amount: 5 }),
        process_execute(&PROGRAM, &all, 5)
    );
    assert_eq!(
        dispatch(
            &PROGRAM,
            &all,
            HookInstruction::UpdateExtraAccountMetaList { extra_account_metas: plain_metas() }
        ),
        process_update_extra_account_meta_list(&PROGRAM, &all, &plain_metas())
    );
}
