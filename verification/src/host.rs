//! What passes between the library and its host: the accounts of a call as
//! plain values, the actions that the library asks for, and the events that
//! the host reports back.

use crate::address::Address;
use crate::counter::Counter;
use crate::error::{BorshFault, HookError};
use solana_program::program_error::ProgramError;
use vstd::prelude::*;

verus! {

/// One account of a call, as the host sees it when the call starts.
#[derive(Debug, PartialEq, Eq)]
pub struct AccountSnapshot {
    pub key: Address,
    pub owner: Address,
    pub lamports: u64,
    pub data: Vec<u8>,
    pub is_signer: bool,
    pub is_writable: bool,
}

/// An account as an invocation names it.
#[derive(Clone, Copy, Debug, PartialEq, Eq)]
pub struct AccountRef {
    pub pubkey: Address,
    pub is_signer: bool,
    pub is_writable: bool,
}

/// One entry of a validation list, in its stored form of 35 bytes.
#[derive(Clone, Copy, Debug, PartialEq, Eq)]
pub struct ExtraMeta {
    pub discriminator: u8,
    pub address_config: [u8; 32],
    pub is_signer: u8,
    pub is_writable: u8,
}

/// A call into another component.
#[derive(Debug, PartialEq, Eq)]
pub struct Invocation {
    pub program_id: Address,
    pub accounts: Vec<AccountRef>,
    pub data: Vec<u8>,
}

/// A [`Invocation`] as a value: what contracts speak of.
pub struct InvocationModel {
    pub program_id: Address,
    pub accounts: Seq<AccountRef>,
    pub data: Seq<u8>,
}

impl View for Invocation {
    type V = InvocationModel;

    open spec fn view(&self) -> InvocationModel {
        InvocationModel { program_id: self.program_id, accounts: self.accounts@, data: self.data@ }
    }
}

/// An invocation with the delegated signatures that authorize it.
///
/// `account_indices` are the positions, in the accounts of the call, of the
/// accounts handed to the callee. Each signer is the seed sequence of a derived
/// address, bump last.
#[derive(Debug, PartialEq, Eq)]
pub struct SignedInvocation {
    pub call: Invocation,
    pub account_indices: Vec<usize>,
    pub signers: Vec<Vec<Vec<u8>>>,
}

/// A [`SignedInvocation`] as a value: what contracts speak of.
pub struct SignedInvocationModel {
    pub call: InvocationModel,
    pub account_indices: Seq<usize>,
    pub signers: Seq<Seq<Seq<u8>>>,
}

impl View for SignedInvocation {
    type V = SignedInvocationModel;

    open spec fn view(&self) -> SignedInvocationModel {
        SignedInvocationModel {
            call: self.call@,
            account_indices: self.account_indices@,
            signers: self.signers.deep_view(),
        }
    }
}

/// What the library asks of the host.
#[derive(Debug, PartialEq, Eq)]
pub enum HostAction {
    /// Check the accounts of the call against the validation list, for an
    /// Execute instruction with this payload.
    CheckAccountList { instruction_data: Vec<u8> },
    /// Dispatch a signed invocation.
    Invoke(SignedInvocation),
    /// Read the response buffer that the last callee left.
    ReadResponse,
    /// Resize the validation account to `len` bytes, without zeroing.
    ResizeList { len: usize },
    /// Write a fresh validation list into the validation account.
    InitializeList { metas: Vec<ExtraMeta> },
    /// Overwrite the validation list in the validation account.
    UpdateList { metas: Vec<ExtraMeta> },
    /// Store `counter_data` in the counter account; the call then succeeds.
    Commit { counter_data: Vec<u8>, random_number: u64 },
    /// The call succeeds and nothing is stored.
    Finish,
    /// The call fails with this error.
    Reject(HookError),
    /// The call is abandoned: something that must hold does not.
    Abort,
}

/// A [`HostAction`] as a value: what contracts speak of.
pub enum HostActionModel {
    CheckAccountList { instruction_data: Seq<u8> },
    Invoke(SignedInvocationModel),
    ReadResponse,
    ResizeList { len: usize },
    InitializeList { metas: Seq<ExtraMeta> },
    UpdateList { metas: Seq<ExtraMeta> },
    Commit { counter_data: Seq<u8>, random_number: u64 },
    Finish,
    Reject(HookError),
    Abort,
}

impl View for HostAction {
    type V = HostActionModel;

    open spec fn view(&self) -> HostActionModel {
        match *self {
            HostAction::CheckAccountList { instruction_data } => HostActionModel::CheckAccountList {
                instruction_data: instruction_data@,
            },
            HostAction::Invoke(call) => HostActionModel::Invoke(call@),
            HostAction::ReadResponse => HostActionModel::ReadResponse,
            HostAction::ResizeList { len } => HostActionModel::ResizeList { len },
            HostAction::InitializeList { metas } => HostActionModel::InitializeList {
                metas: metas@,
            },
            HostAction::UpdateList { metas } => HostActionModel::UpdateList { metas: metas@ },
            HostAction::Commit { counter_data, random_number } => HostActionModel::Commit {
                counter_data: counter_data@,
                random_number,
            },
            HostAction::Finish => HostActionModel::Finish,
            HostAction::Reject(error) => HostActionModel::Reject(error),
            HostAction::Abort => HostActionModel::Abort,
        }
    }
}

/// The models of a sequence of actions, in order.
pub open spec fn action_models(actions: Seq<HostAction>) -> Seq<HostActionModel> {
    Seq::new(actions.len(), |i: int| actions[i]@)
}

/// What the host reports of the action it was asked for.
#[derive(Debug, PartialEq, Eq)]
pub enum HostEvent {
    /// The action was carried out.
    Succeeded,
    /// The action failed with this error.
    Failed(ProgramError),
    /// The response buffer, with the address of the component that set it.
    Response { producer: Address, data: Vec<u8> },
    /// No response buffer was set.
    NoResponse,
}

/// What Execute has read from its accounts once they passed its own checks.
#[derive(Clone, Copy, Debug, PartialEq, Eq)]
pub struct ExecuteContext {
    pub program_id: Address,
    pub mint: Address,
    pub authority: Address,
    /// Native balance of the payer sub-account.
    pub payer_balance: u64,
    /// The fee published in the validation account, if it is long enough to hold one.
    pub fee: Option<u64>,
    /// The counter stored in the counter account, or how its data fails to
    /// store one.
    pub counter: Result<Counter, BorshFault>,
    /// Rent-exempt minimum of the single-use sub-account.
    pub ephemeral_rent: u64,
    /// Rent-exempt minimum of the payer sub-account.
    pub payer_rent: u64,
    pub price_feed_1: Address,
    pub price_feed_2: Address,
    pub price_feed_3: Address,
    pub fallback: Address,
    pub current_feed: Address,
    pub rng_program: Address,
    pub system_program: Address,
    pub compute_budget_program: Address,
}

/// A randomness request that has been decided on: the derived sub-accounts,
/// the accounts it names, and the counter value it is made under.
#[derive(Clone, Copy, Debug, PartialEq, Eq)]
pub struct RandomRequest {
    pub mint: Address,
    pub authority: Address,
    pub payer_address: Address,
    pub payer_bump: u8,
    pub ephemeral_address: Address,
    pub ephemeral_bump: u8,
    pub price_feed_1: Address,
    pub price_feed_2: Address,
    pub price_feed_3: Address,
    pub fallback: Address,
    pub current_feed: Address,
    pub rng_program: Address,
    pub system_program: Address,
    pub compute_budget_program: Address,
    pub counter: Counter,
}

/// Where a call stands between two host actions.
#[derive(Debug, PartialEq, Eq)]
pub enum HookState {
    /// The call is over; no event is expected.
    Closed,
    /// Execute waits for the verdict on the validation list.
    ListCheckPending(ExecuteContext),
    /// Execute waits for the resource-limit invocation.
    BudgetPending(RandomRequest),
    /// Execute waits for the randomness invocation.
    RandomnessPending(RandomRequest),
    /// Execute waits for the response buffer.
    ResponsePending(RandomRequest),
    /// An administrative operation waits for its current step; `remaining`
    /// are the steps after it, in order.
    Scripted { remaining: Vec<HostAction> },
}

/// A [`HookState`] as a value: what contracts speak of.
pub enum HookStateModel {
    Closed,
    ListCheckPending(ExecuteContext),
    BudgetPending(RandomRequest),
    RandomnessPending(RandomRequest),
    ResponsePending(RandomRequest),
    Scripted { remaining: Seq<HostActionModel> },
}

impl View for HookState {
    type V = HookStateModel;

    open spec fn view(&self) -> HookStateModel {
        match *self {
            HookState::Closed => HookStateModel::Closed,
            HookState::ListCheckPending(context) => HookStateModel::ListCheckPending(context),
            HookState::BudgetPending(request) => HookStateModel::BudgetPending(request),
            HookState::RandomnessPending(request) => HookStateModel::RandomnessPending(request),
            HookState::ResponsePending(request) => HookStateModel::ResponsePending(request),
            HookState::Scripted { remaining } => HookStateModel::Scripted {
                remaining: action_models(remaining@),
            },
        }
    }
}

/// One step of a call: the action to carry out now and the state to resume from.
#[derive(Debug, PartialEq, Eq)]
pub struct Transition {
    pub state: HookState,
    pub action: HostAction,
}

/// A [`Transition`] as a value: what contracts speak of.
pub struct TransitionModel {
    pub state: HookStateModel,
    pub action: HostActionModel,
}

impl View for Transition {
    type V = TransitionModel;

    open spec fn view(&self) -> TransitionModel {
        TransitionModel { state: self.state@, action: self.action@ }
    }
}

/// The step that ends a call with `action`.
pub open spec fn closing(action: HostActionModel) -> TransitionModel {
    TransitionModel { state: HookStateModel::Closed, action }
}

/// The step that fails a call with `error`.
pub open spec fn rejecting(error: HookError) -> TransitionModel {
    closing(HostActionModel::Reject(error))
}

impl Transition {
    /// Ends the call successfully, with nothing stored.
    pub fn finish() -> (r: Transition)
        ensures
            r@ == closing(HostActionModel::Finish),
    {
        Transition { state: HookState::Closed, action: HostAction::Finish }
    }

    /// Fails the call with `error`.
    pub fn reject(error: HookError) -> (r: Transition)
        ensures
            r@ == rejecting(error),
    {
        Transition { state: HookState::Closed, action: HostAction::Reject(error) }
    }

    /// Abandons the call.
    pub fn abort() -> (r: Transition)
        ensures
            r@ == closing(HostActionModel::Abort),
    {
        Transition { state: HookState::Closed, action: HostAction::Abort }
    }
}

} // verus!
