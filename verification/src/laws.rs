//! What holds of every Execute call, stated over the steps of a call.

use crate::address::{ephemeral_seeds, payer_seeds, spec_find_program_address, Address};
use crate::counter::{decode_counter, encode_counter, Counter};
use crate::error::{BorshFault, HookError};
use crate::execute::{
    budget_call, budget_payload, execute_context, execute_start, random_request, randomness_call,
    COMPUTE_UNIT_LIMIT, COUNTER_INDEX, PAYER_INDEX, VALIDATION_INDEX,
};
use crate::gate::{published_fee, rent_exempt_minimum, EPHEMERAL_ACCOUNT_SIZE, PAYER_ACCOUNT_SIZE};
use crate::host::{
    closing, rejecting, AccountSnapshot, HookStateModel, HostActionModel, HostEvent,
    RandomRequest, TransitionModel,
};
use crate::processor::advance_spec;
use vstd::bytes::*;
use vstd::prelude::*;

verus! {

/// Whether Execute accepts the call as far as it checks it itself, so that
/// its first step consults the validation list.
pub open spec fn admitted(program_id: Address, accounts: Seq<AccountSnapshot>, amount: u64) -> bool {
    execute_start(program_id, accounts, amount).state is ListCheckPending
}

/// The step of an admitted call once the validation list has accepted its
/// accounts.
pub open spec fn after_list_check(
    program_id: Address,
    accounts: Seq<AccountSnapshot>,
    amount: u64,
) -> TransitionModel {
    advance_spec(execute_start(program_id, accounts, amount).state, HostEvent::Succeeded)
}

/// What a request costs at the host's default rent: both rent minimums and
/// the fee.
pub open spec fn default_cost(fee: u64) -> int {
    rent_exempt_minimum(EPHEMERAL_ACCOUNT_SIZE as nat) + rent_exempt_minimum(
        PAYER_ACCOUNT_SIZE as nat,
    ) + fee
}

/// The four bytes of a 32-bit integer, least significant first.
pub open spec fn le_bytes_u32(value: u32) -> Seq<u8> {
    seq![
        (value & 0xff) as u8,
        ((value >> 8) & 0xff) as u8,
        ((value >> 16) & 0xff) as u8,
        ((value >> 24) & 0xff) as u8,
    ]
}

/// The payload of the resource-limit invocation is opcode 2 followed by the
/// ceiling of 500,000 units in little-endian order.
pub proof fn budget_payload_sets_the_limit()
    ensures
        COMPUTE_UNIT_LIMIT == 500_000,
        budget_payload() == seq![2u8] + le_bytes_u32(COMPUTE_UNIT_LIMIT),
{
    assert(500_000u32 & 0xff == 32 && (500_000u32 >> 8) & 0xff == 161 && (500_000u32 >> 16) & 0xff
        == 7 && (500_000u32 >> 24) & 0xff == 0) by (bit_vector);
    assert(budget_payload() =~= seq![2u8] + le_bytes_u32(COMPUTE_UNIT_LIMIT));
}

/// An admitted call whose payer holds no balance ends without any invocation
/// and without storing a counter.
pub proof fn unfunded_call_requests_nothing(
    program_id: Address,
    accounts: Seq<AccountSnapshot>,
    amount: u64,
)
    requires
        admitted(program_id, accounts, amount),
        accounts[PAYER_INDEX as int].lamports == 0,
    ensures
        after_list_check(program_id, accounts, amount) == closing(HostActionModel::Finish),
{
}

/// An admitted call whose payer holds a balance that covers the cost of a
/// request ends without any invocation and without storing a counter; a
/// balance equal to the cost covers it.
pub proof fn covered_call_requests_nothing(
    program_id: Address,
    accounts: Seq<AccountSnapshot>,
    amount: u64,
    fee: u64,
)
    requires
        admitted(program_id, accounts, amount),
        accounts[PAYER_INDEX as int].lamports != 0,
        published_fee(accounts[VALIDATION_INDEX as int].data@) == Some(fee),
        accounts[PAYER_INDEX as int].lamports >= default_cost(fee),
    ensures
        after_list_check(program_id, accounts, amount) == closing(HostActionModel::Finish),
{
}

/// An admitted call whose payer holds a balance below the cost of a request
/// makes exactly one resource-limit invocation, then exactly one randomness
/// invocation, then reads the response, and commits the counter incremented
/// by one, provided that the host carries out each step and the randomness
/// component sets an eight-byte response.
pub proof fn uncovered_call_requests_once(
    program_id: Address,
    accounts: Seq<AccountSnapshot>,
    amount: u64,
    fee: u64,
    counter: Counter,
    payer: (Address, u8),
    ephemeral: (Address, u8),
    response: HostEvent,
)
    requires
        admitted(program_id, accounts, amount),
        accounts[PAYER_INDEX as int].lamports != 0,
        published_fee(accounts[VALIDATION_INDEX as int].data@) == Some(fee),
        accounts[PAYER_INDEX as int].lamports < default_cost(fee),
        default_cost(fee) <= u64::MAX,
        decode_counter(accounts[COUNTER_INDEX as int].data@) == Ok::<Counter, BorshFault>(counter),
        counter.total_calls < u64::MAX,
        spec_find_program_address(
            payer_seeds(
                execute_context(program_id, accounts).mint,
                execute_context(program_id, accounts).authority,
            ),
            program_id@,
        ) == Some(payer),
        spec_find_program_address(
            ephemeral_seeds(
                execute_context(program_id, accounts).mint,
                execute_context(program_id, accounts).authority,
                counter.total_calls,
            ),
            program_id@,
        ) == Some(ephemeral),
        response matches HostEvent::Response { producer, data } && producer == execute_context(
            program_id,
            accounts,
        ).rng_program && data@.len() == 8,
    ensures
        ({
            let request = random_request(
                execute_context(program_id, accounts),
                counter,
                payer,
                ephemeral,
            );
            let first = after_list_check(program_id, accounts, amount);
            let second = advance_spec(first.state, HostEvent::Succeeded);
            let third = advance_spec(second.state, HostEvent::Succeeded);
            let last = advance_spec(third.state, response);
            &&& first.action == HostActionModel::Invoke(budget_call(request))
            &&& second.action == HostActionModel::Invoke(randomness_call(request))
            &&& third.action == HostActionModel::ReadResponse
            &&& last.state == HookStateModel::Closed
            &&& last.action matches HostActionModel::Commit { counter_data, random_number }
            &&& counter_data == encode_counter(
                Counter { total_calls: (counter.total_calls + 1) as u64 },
            )
            &&& decode_counter(counter_data) == Ok::<Counter, BorshFault>(
                Counter { total_calls: (counter.total_calls + 1) as u64 },
            )
        }),
{
    lemma_auto_spec_u64_to_from_le_bytes();
}

/// Within a request, an invocation that fails rejects the call with the
/// host's error: no later step is taken and no counter is stored.
pub proof fn failed_invocation_stores_nothing(
    request: RandomRequest,
    error: solana_program::program_error::ProgramError,
)
    ensures
        advance_spec(HookStateModel::BudgetPending(request), HostEvent::Failed(error))
            == rejecting(HookError::Outside(error)),
        advance_spec(HookStateModel::RandomnessPending(request), HostEvent::Failed(error))
            == rejecting(HookError::Outside(error)),
{
}

/// A response that another component set, or no response at all, abandons
/// the call: no counter is stored.
pub proof fn foreign_response_stores_nothing(request: RandomRequest, response: HostEvent)
    requires
        response matches HostEvent::Response { producer, .. } ==> producer != request.rng_program,
        !(response is Succeeded),
        !(response is Failed),
    ensures
        advance_spec(HookStateModel::ResponsePending(request), response) == closing(
            HostActionModel::Abort,
        ),
{
}

} // verus!
