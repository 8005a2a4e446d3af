//! The dispatcher, and the step that resumes a call with the host's report.

use crate::address::Address;
use crate::admin::{
    initialize_start, process_initialize_extra_account_meta_list,
    process_update_extra_account_meta_list, update_start,
};
use crate::error::HookError;
use crate::execute::{
    complete_request, continue_after_list_check, execute_start, gated_step, process_execute,
    randomness_call, randomness_invocation, response_step,
};
use crate::host::{
    action_models, closing, rejecting, AccountSnapshot, HookState, HookStateModel, HostAction,
    HostActionModel, HostEvent, Transition, TransitionModel,
};
use crate::instruction::{decoded_model, unpack_spec, HookInstruction, HookInstructionModel};
use solana_program::program_error::ProgramError;
use vstd::prelude::*;

verus! {

/// What follows a step that the host reports as carried out or failed: on
/// failure the call is rejected with the host's error, and any other report
/// abandons the call.
pub open spec fn after_step(event: HostEvent, next: TransitionModel) -> TransitionModel {
    match event {
        HostEvent::Succeeded => next,
        HostEvent::Failed(error) => rejecting(HookError::Outside(error)),
        _ => closing(HostActionModel::Abort),
    }
}

/// The step after the current one of an administrative operation: the first
/// of the remaining steps, or the end of the call.
pub open spec fn next_scripted(remaining: Seq<HostActionModel>) -> TransitionModel {
    if remaining.len() == 0 {
        closing(HostActionModel::Finish)
    } else {
        TransitionModel {
            state: HookStateModel::Scripted { remaining: remaining.drop_first() },
            action: remaining[0],
        }
    }
}

/// How a call resumes from `state` when the host reports `event`.
///
/// A call that is over abandons on any report. Within a request the
/// resource-limit invocation is followed by the randomness invocation and
/// that by the reading of the response; a failure of either invocation
/// rejects the call before anything is stored.
pub open spec fn advance_spec(state: HookStateModel, event: HostEvent) -> TransitionModel {
    match state {
        HookStateModel::Closed => closing(HostActionModel::Abort),
        HookStateModel::ListCheckPending(context) => after_step(event, gated_step(context)),
        HookStateModel::BudgetPending(request) => after_step(
            event,
            TransitionModel {
                state: HookStateModel::RandomnessPending(request),
                action: HostActionModel::Invoke(randomness_call(request)),
            },
        ),
        HookStateModel::RandomnessPending(request) => after_step(
            event,
            TransitionModel {
                state: HookStateModel::ResponsePending(request),
                action: HostActionModel::ReadResponse,
            },
        ),
        HookStateModel::ResponsePending(request) => response_step(request, event),
        HookStateModel::Scripted { remaining } => after_step(event, next_scripted(remaining)),
    }
}

/// The first step of a decoded operation: that of its handler.
pub open spec fn dispatch_spec(
    program_id: Address,
    accounts: Seq<AccountSnapshot>,
    instruction: HookInstructionModel,
) -> TransitionModel {
    match instruction {
        HookInstructionModel::Execute { amount } => execute_start(program_id, accounts, amount),
        HookInstructionModel::InitializeExtraAccountMetaList {
            extra_account_metas,
        } => initialize_start(program_id, accounts, extra_account_metas),
        HookInstructionModel::UpdateExtraAccountMetaList { extra_account_metas } => update_start(
            program_id,
            accounts,
            extra_account_metas,
        ),
    }
}

/// The first step of a call, given what its payload decoded to. A payload
/// that could not be decoded at all abandons the call; one that the decoder
/// refused rejects it with the decoder's error; any other is dispatched.
pub open spec fn route_spec(
    program_id: Address,
    accounts: Seq<AccountSnapshot>,
    decoded: Option<Result<HookInstructionModel, ProgramError>>,
) -> TransitionModel {
    match decoded {
        None => closing(HostActionModel::Abort),
        Some(Err(error)) => rejecting(HookError::Outside(error)),
        Some(Ok(instruction)) => dispatch_spec(program_id, accounts, instruction),
    }
}

/// The first step of a call with payload `input`.
pub open spec fn process_spec(
    program_id: Address,
    accounts: Seq<AccountSnapshot>,
    input: Seq<u8>,
) -> TransitionModel {
    route_spec(program_id, accounts, unpack_spec(input))
}

fn take_next_scripted(remaining: Vec<HostAction>) -> (r: Transition)
    ensures
        r@ == next_scripted(action_models(remaining@)),
{
    let mut remaining = remaining;
    if remaining.len() == 0 {
        Transition::finish()
    } else {
        let ghost before = remaining@;
        let action = remaining.remove(0);
        proof {
            assert(action_models(remaining@) =~= action_models(before).drop_first());
        }
        Transition { state: HookState::Scripted { remaining }, action }
    }
}

/// Resumes a call from `state` with the host's report on the action it was
/// last asked for.
pub fn advance(state: HookState, event: HostEvent) -> (r: Transition)
    ensures
        r@ == advance_spec(state@, event),
{
    match state {
        HookState::Closed => Transition::abort(),
        HookState::ResponsePending(request) => complete_request(&request, event),
        HookState::ListCheckPending(context) => match event {
            HostEvent::Succeeded => continue_after_list_check(&context),
            HostEvent::Failed(error) => Transition::reject(HookError::Outside(error)),
            _ => Transition::abort(),
        },
        HookState::BudgetPending(request) => match event {
            HostEvent::Succeeded => {
                let call = randomness_invocation(&request);
                Transition {
                    state: HookState::RandomnessPending(request),
                    action: HostAction::Invoke(call),
                }
            },
            HostEvent::Failed(error) => Transition::reject(HookError::Outside(error)),
            _ => Transition::abort(),
        },
        HookState::RandomnessPending(request) => match event {
            HostEvent::Succeeded => Transition {
                state: HookState::ResponsePending(request),
                action: HostAction::ReadResponse,
            },
            HostEvent::Failed(error) => Transition::reject(HookError::Outside(error)),
            _ => Transition::abort(),
        },
        HookState::Scripted { remaining } => match event {
            HostEvent::Succeeded => take_next_scripted(remaining),
            HostEvent::Failed(error) => Transition::reject(HookError::Outside(error)),
            _ => Transition::abort(),
        },
    }
}

/// Runs the handler of a decoded operation up to its first host action.
pub fn dispatch(program_id: &Address, accounts: &[AccountSnapshot], instruction: HookInstruction) -> (r:
    Transition)
    ensures
        r@ == dispatch_spec(*program_id, accounts@, instruction@),
{
    match instruction {
        HookInstruction::Execute { amount } => process_execute(program_id, accounts, amount),
        HookInstruction::InitializeExtraAccountMetaList {
            extra_account_metas,
        } => process_initialize_extra_account_meta_list(
            program_id,
            accounts,
            extra_account_metas.as_slice(),
        ),
        HookInstruction::UpdateExtraAccountMetaList {
            extra_account_metas,
        } => process_update_extra_account_meta_list(
            program_id,
            accounts,
            extra_account_metas.as_slice(),
        ),
    }
}

/// Takes the first step of a call from what its payload decoded to.
pub fn route(
    program_id: &Address,
    accounts: &[AccountSnapshot],
    decoded: Option<Result<HookInstruction, ProgramError>>,
) -> (r: Transition)
    ensures
        r@ == route_spec(*program_id, accounts@, decoded_model(decoded)),
{
    match decoded {
        None => Transition::abort(),
        Some(Err(error)) => Transition::reject(HookError::Outside(error)),
        Some(Ok(instruction)) => dispatch(program_id, accounts, instruction),
    }
}

/// Decodes the operation of a call and runs its handler up to the first host
/// action. An unknown tag, or any other payload that the decoder refuses,
/// rejects the call with the decoder's error; a list that declares more
/// entries than the payload holds abandons it.
pub fn process(program_id: &Address, accounts: &[AccountSnapshot], input: &[u8]) -> (r: Transition)
    ensures
        r@ == process_spec(*program_id, accounts@, input@),
{
    route(program_id, accounts, HookInstruction::unpack(input))
}

} // verus!
