//! The Execute handler: what it checks before the validation list is
//! consulted, how it gates the randomness request, and the two invocations
//! that a request consists of.

use crate::address::{
    collect_ephemeral_seeds, collect_payer_seeds, ephemeral_seeds, find_program_address,
    get_extra_account_metas_address_and_bump_seed, payer_seeds, same_address, signer_seeds,
    spec_find_program_address, validation_seeds, with_bump, Address,
};
use crate::counter::{
    decode_counter, decode_random_number, encode_counter, increment_counter, read_u64, Counter,
    RandomNumber,
};
use crate::error::HookError;
use crate::gate::{
    ephemeral_rent, fee_rent_gate, gate, payer_rent, published_fee, read_published_fee,
    rent_exempt_minimum, EPHEMERAL_ACCOUNT_SIZE, PAYER_ACCOUNT_SIZE,
};
use crate::host::{
    closing, rejecting, AccountRef, AccountSnapshot, ExecuteContext, HookState, HookStateModel,
    HostAction, HostActionModel, HostEvent, Invocation, InvocationModel, RandomRequest,
    SignedInvocation, SignedInvocationModel, Transition, TransitionModel,
};
use crate::instruction::{execute_payload, pack_execute};
use crate::token::{
    check_token_account_is_transferring, spec_transfer_flag, transferring_verdict,
};
use vstd::prelude::*;

verus! {

/// Positions of the accounts that Execute reads.
pub const SOURCE_INDEX: usize = 0;

pub const MINT_INDEX: usize = 1;

pub const DESTINATION_INDEX: usize = 2;

pub const AUTHORITY_INDEX: usize = 3;

pub const VALIDATION_INDEX: usize = 4;

pub const COUNTER_INDEX: usize = 5;

pub const PAYER_INDEX: usize = 6;

pub const PRICE_FEED_1_INDEX: usize = 7;

pub const PRICE_FEED_2_INDEX: usize = 8;

pub const PRICE_FEED_3_INDEX: usize = 9;

pub const FALLBACK_INDEX: usize = 10;

pub const CURRENT_FEED_INDEX: usize = 11;

pub const EPHEMERAL_INDEX: usize = 12;

pub const RNG_PROGRAM_INDEX: usize = 13;

pub const SYSTEM_PROGRAM_INDEX: usize = 14;

pub const COMPUTE_BUDGET_PROGRAM_INDEX: usize = 15;

/// How many accounts Execute takes.
pub const EXECUTE_ACCOUNTS: usize = 16;

/// The ceiling of compute units that a request raises the call to.
pub const COMPUTE_UNIT_LIMIT: u32 = 500_000;

/// An account that an invocation reads and that does not sign.
pub open spec fn readonly(pubkey: Address) -> AccountRef {
    AccountRef { pubkey, is_signer: false, is_writable: false }
}

/// An account that an invocation may write and that signs by delegation.
pub open spec fn signing(pubkey: Address) -> AccountRef {
    AccountRef { pubkey, is_signer: true, is_writable: true }
}

/// The seeds that sign for the payer sub-account of a request.
pub open spec fn payer_signer(request: RandomRequest) -> Seq<Seq<u8>> {
    signer_seeds(payer_seeds(request.mint, request.authority), request.payer_bump)
}

/// The seeds that sign for the single-use sub-account of a request.
pub open spec fn ephemeral_signer(request: RandomRequest) -> Seq<Seq<u8>> {
    signer_seeds(
        ephemeral_seeds(request.mint, request.authority, request.counter.total_calls),
        request.ephemeral_bump,
    )
}

/// The payload of the resource-limit invocation: the opcode that sets the
/// ceiling, then the ceiling.
pub open spec fn budget_payload() -> Seq<u8> {
    seq![2u8, 32u8, 161u8, 7u8, 0u8]
}

/// The resource-limit invocation of a request: the payer alone, signing by
/// delegation.
pub open spec fn budget_call(request: RandomRequest) -> SignedInvocationModel {
    SignedInvocationModel {
        call: InvocationModel {
            program_id: request.compute_budget_program,
            accounts: seq![signing(request.payer_address)],
            data: budget_payload(),
        },
        account_indices: seq![PAYER_INDEX],
        signers: seq![payer_signer(request)],
    }
}

/// The randomness invocation of a request: eight accounts and the one-byte
/// opcode 0, signed for the payer and for the single-use sub-account.
pub open spec fn randomness_call(request: RandomRequest) -> SignedInvocationModel {
    SignedInvocationModel {
        call: InvocationModel {
            program_id: request.rng_program,
            accounts: seq![
                signing(request.payer_address),
                readonly(request.price_feed_1),
                readonly(request.price_feed_2),
                readonly(request.price_feed_3),
                readonly(request.fallback),
                AccountRef { pubkey: request.current_feed, is_signer: false, is_writable: true },
                signing(request.ephemeral_address),
                readonly(request.system_program),
            ],
            data: seq![0u8],
        },
        account_indices: seq![
            PAYER_INDEX,
            EPHEMERAL_INDEX,
            PRICE_FEED_1_INDEX,
            PRICE_FEED_2_INDEX,
            PRICE_FEED_3_INDEX,
            FALLBACK_INDEX,
            CURRENT_FEED_INDEX,
            EPHEMERAL_INDEX,
            SYSTEM_PROGRAM_INDEX,
        ],
        signers: seq![payer_signer(request), ephemeral_signer(request)],
    }
}

/// The request that Execute makes under `counter`, once both sub-accounts
/// have been derived.
pub open spec fn random_request(
    context: ExecuteContext,
    counter: Counter,
    payer: (Address, u8),
    ephemeral: (Address, u8),
) -> RandomRequest {
    RandomRequest {
        mint: context.mint,
        authority: context.authority,
        payer_address: payer.0,
        payer_bump: payer.1,
        ephemeral_address: ephemeral.0,
        ephemeral_bump: ephemeral.1,
        price_feed_1: context.price_feed_1,
        price_feed_2: context.price_feed_2,
        price_feed_3: context.price_feed_3,
        fallback: context.fallback,
        current_feed: context.current_feed,
        rng_program: context.rng_program,
        system_program: context.system_program,
        compute_budget_program: context.compute_budget_program,
        counter,
    }
}

/// The first step of a request: the resource-limit invocation.
pub open spec fn request_step(request: RandomRequest) -> TransitionModel {
    TransitionModel {
        state: HookStateModel::BudgetPending(request),
        action: HostActionModel::Invoke(budget_call(request)),
    }
}

/// What Execute does once a request is due under `counter`: it derives the
/// payer from the mint and the authority, the single-use sub-account from
/// those and the counter, and starts the request. Without a derived address
/// the call is abandoned.
pub open spec fn random_number_step(context: ExecuteContext, counter: Counter) -> TransitionModel {
    match spec_find_program_address(
        payer_seeds(context.mint, context.authority),
        context.program_id@,
    ) {
        None => closing(HostActionModel::Abort),
        Some(payer) => match spec_find_program_address(
            ephemeral_seeds(context.mint, context.authority, counter.total_calls),
            context.program_id@,
        ) {
            None => closing(HostActionModel::Abort),
            Some(ephemeral) => request_step(random_request(context, counter, payer, ephemeral)),
        },
    }
}

/// What Execute does once the validation list has accepted the accounts.
///
/// An unfunded payer ends the call at once. A funded one needs the published
/// fee, without which the call is abandoned. Balance and cost then decide,
/// and a request needs the stored counter.
pub open spec fn gated_step(context: ExecuteContext) -> TransitionModel {
    if context.payer_balance == 0 {
        closing(HostActionModel::Finish)
    } else {
        match context.fee {
            None => closing(HostActionModel::Abort),
            Some(fee) => match gate(
                context.payer_balance,
                context.ephemeral_rent,
                context.payer_rent,
                fee,
            ) {
                Err(error) => rejecting(error),
                Ok(false) => closing(HostActionModel::Finish),
                Ok(true) => match context.counter {
                    Err(fault) => rejecting(HookError::BorshIoError(fault)),
                    Ok(counter) => random_number_step(context, counter),
                },
            },
        }
    }
}

/// What Execute does with the response buffer of a request.
///
/// A buffer that is missing, or that another component set, abandons the
/// call. Otherwise the buffer must hold a random number and the counter must
/// have room; the incremented counter is then committed.
pub open spec fn response_step(request: RandomRequest, event: HostEvent) -> TransitionModel {
    match event {
        HostEvent::Response { producer, data } => if producer != request.rng_program {
            closing(HostActionModel::Abort)
        } else {
            match decode_random_number(data@) {
                Err(fault) => rejecting(HookError::BorshIoError(fault)),
                Ok(number) => match increment_counter(request.counter) {
                    None => rejecting(HookError::IncorrectAccount),
                    Some(next) => closing(
                        HostActionModel::Commit {
                            counter_data: encode_counter(next),
                            random_number: number.random_number,
                        },
                    ),
                },
            }
        },
        _ => closing(HostActionModel::Abort),
    }
}

/// What Execute has read from accounts that passed its checks.
pub open spec fn execute_context(program_id: Address, accounts: Seq<AccountSnapshot>) -> ExecuteContext
    recommends
        accounts.len() >= EXECUTE_ACCOUNTS,
{
    ExecuteContext {
        program_id,
        mint: accounts[MINT_INDEX as int].key,
        authority: accounts[AUTHORITY_INDEX as int].key,
        payer_balance: accounts[PAYER_INDEX as int].lamports,
        fee: published_fee(accounts[VALIDATION_INDEX as int].data@),
        counter: decode_counter(accounts[COUNTER_INDEX as int].data@),
        ephemeral_rent: rent_exempt_minimum(EPHEMERAL_ACCOUNT_SIZE as nat) as u64,
        payer_rent: rent_exempt_minimum(PAYER_ACCOUNT_SIZE as nat) as u64,
        price_feed_1: accounts[PRICE_FEED_1_INDEX as int].key,
        price_feed_2: accounts[PRICE_FEED_2_INDEX as int].key,
        price_feed_3: accounts[PRICE_FEED_3_INDEX as int].key,
        fallback: accounts[FALLBACK_INDEX as int].key,
        current_feed: accounts[CURRENT_FEED_INDEX as int].key,
        rng_program: accounts[RNG_PROGRAM_INDEX as int].key,
        system_program: accounts[SYSTEM_PROGRAM_INDEX as int].key,
        compute_budget_program: accounts[COMPUTE_BUDGET_PROGRAM_INDEX as int].key,
    }
}

/// The first step of Execute, given what was read of the two token accounts
/// and what was derived for the mint.
///
/// In this order: sixteen accounts are present; the source account is
/// mid-transfer; the destination account is mid-transfer; an address was
/// derived, without which the call is abandoned; the validation account is
/// that address. Only then is the host asked to check the accounts against the
/// validation list, for the instruction with this payload.
pub open spec fn execute_start_with(
    program_id: Address,
    accounts: Seq<AccountSnapshot>,
    source: Result<(), HookError>,
    destination: Result<(), HookError>,
    expected: Option<(Address, u8)>,
    payload: Seq<u8>,
) -> TransitionModel {
    if accounts.len() < EXECUTE_ACCOUNTS {
        rejecting(HookError::NotEnoughAccountKeys)
    } else {
        match source {
            Err(error) => rejecting(error),
            Ok(_) => match destination {
                Err(error) => rejecting(error),
                Ok(_) => match expected {
                    None => closing(HostActionModel::Abort),
                    Some(found) => if found.0 != accounts[VALIDATION_INDEX as int].key {
                        rejecting(HookError::InvalidSeeds)
                    } else {
                        TransitionModel {
                            state: HookStateModel::ListCheckPending(
                                execute_context(program_id, accounts),
                            ),
                            action: HostActionModel::CheckAccountList { instruction_data: payload },
                        }
                    },
                },
            },
        }
    }
}

/// The first step of Execute: that of `execute_start_with` on the verdicts on
/// the source and the destination account, the address derived for the mint,
/// and the payload of Execute with `amount`.
pub open spec fn execute_start(
    program_id: Address,
    accounts: Seq<AccountSnapshot>,
    amount: u64,
) -> TransitionModel {
    execute_start_with(
        program_id,
        accounts,
        transferring_verdict(spec_transfer_flag(accounts[SOURCE_INDEX as int].data@)),
        transferring_verdict(spec_transfer_flag(accounts[DESTINATION_INDEX as int].data@)),
        spec_find_program_address(validation_seeds(accounts[MINT_INDEX as int].key), program_id@),
        execute_payload(amount),
    )
}

fn readonly_ref(pubkey: &Address) -> (r: AccountRef)
    ensures
        r == readonly(*pubkey),
{
    AccountRef { pubkey: *pubkey, is_signer: false, is_writable: false }
}

fn signing_ref(pubkey: &Address) -> (r: AccountRef)
    ensures
        r == signing(*pubkey),
{
    AccountRef { pubkey: *pubkey, is_signer: true, is_writable: true }
}

fn payer_signer_seeds(request: &RandomRequest) -> (r: Vec<Vec<u8>>)
    ensures
        r.deep_view() == payer_signer(*request),
{
    with_bump(collect_payer_seeds(&request.mint, &request.authority), request.payer_bump)
}

fn ephemeral_signer_seeds(request: &RandomRequest) -> (r: Vec<Vec<u8>>)
    ensures
        r.deep_view() == ephemeral_signer(*request),
{
    with_bump(
        collect_ephemeral_seeds(&request.mint, &request.authority, request.counter.total_calls),
        request.ephemeral_bump,
    )
}

/// Builds the resource-limit invocation of a request.
pub fn budget_invocation(request: &RandomRequest) -> (r: SignedInvocation)
    ensures
        r@ == budget_call(*request),
{
    let mut accounts: Vec<AccountRef> = Vec::new();
    accounts.push(signing_ref(&request.payer_address));
    let data: Vec<u8> = vec![2u8, 32u8, 161u8, 7u8, 0u8];
    let mut account_indices: Vec<usize> = Vec::new();
    account_indices.push(PAYER_INDEX);
    let mut signers: Vec<Vec<Vec<u8>>> = Vec::new();
    signers.push(payer_signer_seeds(request));
    let r = SignedInvocation {
        call: Invocation { program_id: request.compute_budget_program, accounts, data },
        account_indices,
        signers,
    };
    proof {
        assert(r.call.accounts@ =~= budget_call(*request).call.accounts);
        assert(r.call.data@ =~= budget_payload());
        assert(r.account_indices@ =~= budget_call(*request).account_indices);
        assert(r.signers.deep_view() =~= budget_call(*request).signers);
    }
    r
}

/// Builds the randomness invocation of a request.
pub fn randomness_invocation(request: &RandomRequest) -> (r: SignedInvocation)
    ensures
        r@ == randomness_call(*request),
{
    let mut accounts: Vec<AccountRef> = Vec::new();
    accounts.push(signing_ref(&request.payer_address));
    accounts.push(readonly_ref(&request.price_feed_1));
    accounts.push(readonly_ref(&request.price_feed_2));
    accounts.push(readonly_ref(&request.price_feed_3));
    accounts.push(readonly_ref(&request.fallback));
    accounts.push(
        AccountRef { pubkey: request.current_feed, is_signer: false, is_writable: true },
    );
    accounts.push(signing_ref(&request.ephemeral_address));
    accounts.push(readonly_ref(&request.system_program));
    let data: Vec<u8> = vec![0u8];
    let account_indices: Vec<usize> = vec![
        PAYER_INDEX,
        EPHEMERAL_INDEX,
        PRICE_FEED_1_INDEX,
        PRICE_FEED_2_INDEX,
        PRICE_FEED_3_INDEX,
        FALLBACK_INDEX,
        CURRENT_FEED_INDEX,
        EPHEMERAL_INDEX,
        SYSTEM_PROGRAM_INDEX,
    ];
    let mut signers: Vec<Vec<Vec<u8>>> = Vec::new();
    signers.push(payer_signer_seeds(request));
    signers.push(ephemeral_signer_seeds(request));
    let r = SignedInvocation {
        call: Invocation { program_id: request.rng_program, accounts, data },
        account_indices,
        signers,
    };
    proof {
        assert(r.call.accounts@ =~= randomness_call(*request).call.accounts);
        assert(r.call.data@ =~= seq![0u8]);
        assert(r.account_indices@ =~= randomness_call(*request).account_indices);
        assert(r.signers.deep_view() =~= randomness_call(*request).signers);
    }
    r
}

/// Puts a request together from the context of the call, the counter it is
/// made under and the two derived sub-accounts.
pub fn build_random_request(
    context: &ExecuteContext,
    counter: Counter,
    payer: (Address, u8),
    ephemeral: (Address, u8),
) -> (r: RandomRequest)
    ensures
        r == random_request(*context, counter, payer, ephemeral),
{
    RandomRequest {
        mint: context.mint,
        authority: context.authority,
        payer_address: payer.0,
        payer_bump: payer.1,
        ephemeral_address: ephemeral.0,
        ephemeral_bump: ephemeral.1,
        price_feed_1: context.price_feed_1,
        price_feed_2: context.price_feed_2,
        price_feed_3: context.price_feed_3,
        fallback: context.fallback,
        current_feed: context.current_feed,
        rng_program: context.rng_program,
        system_program: context.system_program,
        compute_budget_program: context.compute_budget_program,
        counter,
    }
}

/// Starts a request: asks the host for its resource-limit invocation.
pub fn start_request(request: RandomRequest) -> (r: Transition)
    ensures
        r@ == request_step(request),
{
    let call = budget_invocation(&request);
    Transition { state: HookState::BudgetPending(request), action: HostAction::Invoke(call) }
}

/// Requests a random number under `counter`: derives both sub-accounts and
/// starts the request, whose steps are the resource-limit invocation, the
/// randomness invocation, the reading of the response and the commit of the
/// incremented counter.
pub fn get_random_number(context: &ExecuteContext, counter: Counter) -> (r: Transition)
    ensures
        r@ == random_number_step(*context, counter),
{
    let seeds = collect_payer_seeds(&context.mint, &context.authority);
    match find_program_address(&seeds, &context.program_id) {
        None => Transition::abort(),
        Some(payer) => {
            let seeds = collect_ephemeral_seeds(
                &context.mint,
                &context.authority,
                counter.total_calls,
            );
            match find_program_address(&seeds, &context.program_id) {
                None => Transition::abort(),
                Some(ephemeral) => start_request(
                    build_random_request(context, counter, payer, ephemeral),
                ),
            }
        },
    }
}

/// Continues Execute once the validation list has accepted the accounts.
pub fn continue_after_list_check(context: &ExecuteContext) -> (r: Transition)
    ensures
        r@ == gated_step(*context),
{
    if context.payer_balance == 0 {
        return Transition::finish();
    }
    match context.fee {
        None => Transition::abort(),
        Some(fee) => match fee_rent_gate(
            context.payer_balance,
            context.ephemeral_rent,
            context.payer_rent,
            fee,
        ) {
            Err(error) => Transition::reject(error),
            Ok(false) => Transition::finish(),
            Ok(true) => match context.counter {
                Err(fault) => Transition::reject(HookError::BorshIoError(fault)),
                Ok(counter) => get_random_number(context, counter),
            },
        },
    }
}

/// Finishes a request with what the host read from the response buffer.
pub fn complete_request(request: &RandomRequest, event: HostEvent) -> (r: Transition)
    ensures
        r@ == response_step(*request, event),
{
    match event {
        HostEvent::Response { producer, data } => {
            if !same_address(&producer, &request.rng_program) {
                return Transition::abort();
            }
            match RandomNumber::try_from_slice(data.as_slice()) {
                Err(error) => Transition::reject(error),
                Ok(number) => match request.counter.checked_increment() {
                    Err(error) => Transition::reject(error),
                    Ok(next) => Transition {
                        state: HookState::Closed,
                        action: HostAction::Commit {
                            counter_data: next.to_bytes(),
                            random_number: number.random_number,
                        },
                    },
                },
            }
        },
        _ => Transition::abort(),
    }
}

/// Takes the first step of Execute from what was read and derived.
pub fn start_execute(
    program_id: &Address,
    accounts: &[AccountSnapshot],
    source: Result<(), HookError>,
    destination: Result<(), HookError>,
    expected: Option<(Address, u8)>,
    payload: Vec<u8>,
) -> (r: Transition)
    ensures
        r@ == execute_start_with(*program_id, accounts@, source, destination, expected, payload@),
{
    if accounts.len() < EXECUTE_ACCOUNTS {
        return Transition::reject(HookError::NotEnoughAccountKeys);
    }
    match source {
        Err(error) => { return Transition::reject(error); },
        Ok(_) => {},
    }
    match destination {
        Err(error) => { return Transition::reject(error); },
        Ok(_) => {},
    }
    let found = match expected {
        None => { return Transition::abort(); },
        Some(found) => found.0,
    };
    if !same_address(&found, &accounts[VALIDATION_INDEX].key) {
        return Transition::reject(HookError::InvalidSeeds);
    }
    let context = ExecuteContext {
        program_id: *program_id,
        mint: accounts[MINT_INDEX].key,
        authority: accounts[AUTHORITY_INDEX].key,
        payer_balance: accounts[PAYER_INDEX].lamports,
        fee: read_published_fee(accounts[VALIDATION_INDEX].data.as_slice()),
        counter: match read_u64(accounts[COUNTER_INDEX].data.as_slice()) {
            Ok(total_calls) => Ok(Counter { total_calls }),
            Err(fault) => Err(fault),
        },
        ephemeral_rent: ephemeral_rent(),
        payer_rent: payer_rent(),
        price_feed_1: accounts[PRICE_FEED_1_INDEX].key,
        price_feed_2: accounts[PRICE_FEED_2_INDEX].key,
        price_feed_3: accounts[PRICE_FEED_3_INDEX].key,
        fallback: accounts[FALLBACK_INDEX].key,
        current_feed: accounts[CURRENT_FEED_INDEX].key,
        rng_program: accounts[RNG_PROGRAM_INDEX].key,
        system_program: accounts[SYSTEM_PROGRAM_INDEX].key,
        compute_budget_program: accounts[COMPUTE_BUDGET_PROGRAM_INDEX].key,
    };
    Transition {
        state: HookState::ListCheckPending(context),
        action: HostAction::CheckAccountList { instruction_data: payload },
    }
}

/// Processes an Execute instruction up to its first host action.
pub fn process_execute(program_id: &Address, accounts: &[AccountSnapshot], amount: u64) -> (r:
    Transition)
    ensures
        r@ == execute_start(*program_id, accounts@, amount),
{
    if accounts.len() < EXECUTE_ACCOUNTS {
        return Transition::reject(HookError::NotEnoughAccountKeys);
    }
    let source = check_token_account_is_transferring(accounts[SOURCE_INDEX].data.as_slice());
    let destination = check_token_account_is_transferring(
        accounts[DESTINATION_INDEX].data.as_slice(),
    );
    let expected = get_extra_account_metas_address_and_bump_seed(
        &accounts[MINT_INDEX].key,
        program_id,
    );
    start_execute(program_id, accounts, source, destination, expected, pack_execute(amount))
}

} // verus!
