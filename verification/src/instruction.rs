//! The operations of the hook and their encoding in a call's payload.

use crate::host::ExtraMeta;
use solana_program::program_error::ProgramError;
use spl_tlv_account_resolution::account::ExtraAccountMeta;
use spl_transfer_hook_interface::instruction::TransferHookInstruction;
use vstd::bytes::*;
use vstd::prelude::*;
use vstd::slice::slice_subrange;

verus! {

/// A decoded operation.
#[derive(Debug, PartialEq, Eq)]
pub enum HookInstruction {
    /// Runs the hook on a transfer of `amount`.
    Execute { amount: u64 },
    /// Creates the validation list of a mint.
    InitializeExtraAccountMetaList { extra_account_metas: Vec<ExtraMeta> },
    /// Replaces the validation list of a mint.
    UpdateExtraAccountMetaList { extra_account_metas: Vec<ExtraMeta> },
}

/// A [`HookInstruction`] as a value: what contracts speak of.
pub enum HookInstructionModel {
    Execute { amount: u64 },
    InitializeExtraAccountMetaList { extra_account_metas: Seq<ExtraMeta> },
    UpdateExtraAccountMetaList { extra_account_metas: Seq<ExtraMeta> },
}

impl View for HookInstruction {
    type V = HookInstructionModel;

    open spec fn view(&self) -> HookInstructionModel {
        match *self {
            HookInstruction::Execute { amount } => HookInstructionModel::Execute { amount },
            HookInstruction::InitializeExtraAccountMetaList {
                extra_account_metas,
            } => HookInstructionModel::InitializeExtraAccountMetaList {
                extra_account_metas: extra_account_metas@,
            },
            HookInstruction::UpdateExtraAccountMetaList {
                extra_account_metas,
            } => HookInstructionModel::UpdateExtraAccountMetaList {
                extra_account_metas: extra_account_metas@,
            },
        }
    }
}

/// The operation that the interface decodes from a payload, or the error with
/// which it refuses the payload.
pub uninterp spec fn spec_unpack_instruction(input: Seq<u8>) -> Result<
    HookInstructionModel,
    ProgramError,
>;

/// The payload that the interface encodes for Execute with `amount`.
pub uninterp spec fn spec_execute_payload(amount: u64) -> Seq<u8>;

/// The payload that the interface encodes for Initialize with these entries.
pub uninterp spec fn spec_initialize_payload(extra_account_metas: Seq<ExtraMeta>) -> Seq<u8>;

/// The payload that the interface encodes for Update with these entries.
pub uninterp spec fn spec_update_payload(extra_account_metas: Seq<ExtraMeta>) -> Seq<u8>;

/// Length of the tag that opens every payload.
pub const TAG_LENGTH: usize = 8;

/// Length of a payload that holds a tag and the count of a list.
pub const LIST_HEADER_LENGTH: usize = 12;

/// Length of one entry of a list in a payload.
pub const ENTRY_LENGTH: usize = 35;

/// Length of an Execute payload: a tag and an amount.
pub const EXECUTE_LENGTH: usize = 16;

/// The tag of an Execute payload.
pub open spec fn execute_tag() -> Seq<u8> {
    spec_execute_payload(0).subrange(0, TAG_LENGTH as int)
}

/// The tag of an Initialize payload.
pub open spec fn initialize_tag() -> Seq<u8> {
    spec_initialize_payload(Seq::empty()).subrange(0, TAG_LENGTH as int)
}

/// The tag of an Update payload.
pub open spec fn update_tag() -> Seq<u8> {
    spec_update_payload(Seq::empty()).subrange(0, TAG_LENGTH as int)
}

/// An Execute payload: its tag, then the amount in little-endian order.
pub open spec fn execute_payload(amount: u64) -> Seq<u8> {
    execute_tag() + spec_u64_to_le_bytes(amount)
}

/// Whether a payload opens with `tag`.
pub open spec fn opens_with(input: Seq<u8>, tag: Seq<u8>) -> bool {
    input.len() >= TAG_LENGTH && input.subrange(0, TAG_LENGTH as int) == tag
}

/// Whether a payload opens with the tag of Execute.
pub open spec fn opens_with_execute_tag(input: Seq<u8>) -> bool {
    opens_with(input, execute_tag())
}

/// Whether a payload opens with the tag of Initialize or of Update, the two
/// operations that carry a list.
pub open spec fn opens_with_list_tag(input: Seq<u8>) -> bool {
    opens_with(input, initialize_tag()) || opens_with(input, update_tag())
}

/// How many entries a payload with a list declares: bytes 8 to 11, as a
/// little-endian integer.
pub open spec fn declared_entries(input: Seq<u8>) -> nat
    recommends
        input.len() >= LIST_HEADER_LENGTH,
{
    spec_u32_from_le_bytes(input.subrange(TAG_LENGTH as int, LIST_HEADER_LENGTH as int)) as nat
}

/// Whether the list that a payload would carry is all there: behind the count
/// lie whole entries, and no fewer than the count declares. A payload too
/// short for a count, or with a broken entry, carries no list at all.
pub open spec fn list_fits(input: Seq<u8>) -> bool {
    ||| input.len() < LIST_HEADER_LENGTH
    ||| (input.len() - LIST_HEADER_LENGTH) % (ENTRY_LENGTH as int) != 0
    ||| ENTRY_LENGTH * declared_entries(input) <= input.len() - LIST_HEADER_LENGTH
}

/// Whether the interface can decode a payload at all. It cannot where the
/// payload opens with the tag of Initialize or of Update and declares more
/// entries than it holds: there, and only there, the decoder does not return.
pub open spec fn decodable(input: Seq<u8>) -> bool {
    list_fits(input) || !opens_with_list_tag(input)
}

/// The error with which the interface refuses a payload.
pub open spec fn decode_error(input: Seq<u8>) -> ProgramError {
    match spec_unpack_instruction(input) {
        Err(error) => error,
        Ok(_) => arbitrary(),
    }
}

/// Whether a payload holds an Execute instruction: its tag and eight more
/// bytes.
pub open spec fn holds_execute(input: Seq<u8>) -> bool {
    opens_with_execute_tag(input) && input.len() >= EXECUTE_LENGTH
}

/// Execute with the amount that a payload holds behind its tag: bytes 8 to
/// 15, as a little-endian integer.
pub open spec fn decoded_execute(input: Seq<u8>) -> HookInstructionModel
    recommends
        input.len() >= EXECUTE_LENGTH,
{
    HookInstructionModel::Execute {
        amount: spec_u64_from_le_bytes(input.subrange(TAG_LENGTH as int, EXECUTE_LENGTH as int)),
    }
}

/// The operation that a payload decodes to.
///
/// Under a list tag the payload cannot be decoded at all where its list is
/// not all there, and is else decoded as the interface decodes it. Under the
/// Execute tag it needs eight more bytes, which are the amount; what follows
/// them is ignored. Any other payload, an unknown tag or less than a tag, is
/// refused with the interface's error.
pub open spec fn unpack_spec(input: Seq<u8>) -> Option<Result<HookInstructionModel, ProgramError>> {
    if opens_with_list_tag(input) {
        if list_fits(input) {
            Some(spec_unpack_instruction(input))
        } else {
            None
        }
    } else if holds_execute(input) {
        Some(Ok(decoded_execute(input)))
    } else {
        Some(Err(decode_error(input)))
    }
}

/// Calls `TransferHookInstruction::unpack`. Trusted: on a payload that does
/// not open with a list tag, or whose list is all there, it returns, and the
/// operation decoded, or the error, is a function of the payload alone, which
/// the contract names. Without a list tag it decodes Execute exactly where
/// the Execute tag and eight more bytes are there, and else fails.
#[verifier::external_body]
pub(crate) fn unpack_instruction(input: &[u8]) -> (r: Result<HookInstruction, ProgramError>)
    requires
        decodable(input@),
    ensures
        match r {
            Ok(instruction) => spec_unpack_instruction(input@) == Ok::<
                HookInstructionModel,
                ProgramError,
            >(instruction@),
            Err(error) => spec_unpack_instruction(input@) == Err::<
                HookInstructionModel,
                ProgramError,
            >(error),
        },
        match r {
            Ok(instruction) => opens_with_list_tag(input@) || (holds_execute(input@)
                && instruction@ == decoded_execute(input@)),
            Err(_) => opens_with_list_tag(input@) || !holds_execute(input@),
        },
{
    let plain = |m: &ExtraAccountMeta| ExtraMeta {
        discriminator: m.discriminator,
        address_config: m.address_config,
        is_signer: m.is_signer.0,
        is_writable: m.is_writable.0,
    };
    Ok(match TransferHookInstruction::unpack(input)? {
        TransferHookInstruction::Execute { amount } => HookInstruction::Execute { amount },
        TransferHookInstruction::InitializeExtraAccountMetaList { extra_account_metas: m } =>
            HookInstruction::InitializeExtraAccountMetaList { extra_account_metas: m.iter().map(plain).collect() },
        TransferHookInstruction::UpdateExtraAccountMetaList { extra_account_metas: m } =>
            HookInstruction::UpdateExtraAccountMetaList { extra_account_metas: m.iter().map(plain).collect() },
    })
}

/// Calls `TransferHookInstruction::pack` on Execute. Trusted: the payload is a
/// function of the amount alone, which the contract names; it is the same
/// 8-byte tag for every amount, followed by the amount in little-endian order.
#[verifier::external_body]
pub(crate) fn pack_execute(amount: u64) -> (r: Vec<u8>)
    ensures
        r@ == spec_execute_payload(amount),
        r@ == execute_payload(amount),
{
    TransferHookInstruction::Execute { amount }.pack()
}

/// Calls `TransferHookInstruction::pack` on Initialize. Trusted: the payload
/// is a function of the entries alone, which the contract names; it opens with
/// the same 8-byte tag for every list.
#[verifier::external_body]
pub(crate) fn pack_initialize(extra_account_metas: &[ExtraMeta]) -> (r: Vec<u8>)
    ensures
        r@ == spec_initialize_payload(extra_account_metas@),
        opens_with(r@, initialize_tag()),
{
    let outside = |m: &ExtraMeta| {
        let mut meta = ExtraAccountMeta::default();
        (meta.discriminator, meta.address_config) = (m.discriminator, m.address_config);
        (meta.is_signer.0, meta.is_writable.0) = (m.is_signer, m.is_writable);
        meta
    };
    let extra_account_metas = extra_account_metas.iter().map(outside).collect();
    TransferHookInstruction::InitializeExtraAccountMetaList { extra_account_metas }.pack()
}

/// Calls `TransferHookInstruction::pack` on Update. Trusted: the payload is a
/// function of the entries alone, which the contract names; it opens with the
/// same 8-byte tag for every list.
#[verifier::external_body]
pub(crate) fn pack_update(extra_account_metas: &[ExtraMeta]) -> (r: Vec<u8>)
    ensures
        r@ == spec_update_payload(extra_account_metas@),
        opens_with(r@, update_tag()),
{
    let outside = |m: &ExtraMeta| {
        let mut meta = ExtraAccountMeta::default();
        (meta.discriminator, meta.address_config) = (m.discriminator, m.address_config);
        (meta.is_signer.0, meta.is_writable.0) = (m.is_signer, m.is_writable);
        meta
    };
    let extra_account_metas = extra_account_metas.iter().map(outside).collect();
    TransferHookInstruction::UpdateExtraAccountMetaList { extra_account_metas }.pack()
}

/// Whether the list that a payload would carry is all there.
pub fn list_is_whole(input: &[u8]) -> (r: bool)
    ensures
        r == list_fits(input@),
{
    if input.len() < LIST_HEADER_LENGTH {
        return true;
    }
    let room: usize = input.len() - LIST_HEADER_LENGTH;
    if room % ENTRY_LENGTH != 0 {
        return true;
    }
    let declared: u32 = u32_from_le_bytes(slice_subrange(input, TAG_LENGTH, LIST_HEADER_LENGTH));
    (declared as u64) * (ENTRY_LENGTH as u64) <= room as u64
}

/// Whether `input` opens with the tag that `payload` opens with. A payload
/// too short for a tag shares none.
pub fn shares_tag(input: &[u8], payload: &[u8]) -> (r: bool)
    ensures
        r == (payload@.len() >= TAG_LENGTH && opens_with(
            input@,
            payload@.subrange(0, TAG_LENGTH as int),
        )),
{
    if input.len() < TAG_LENGTH || payload.len() < TAG_LENGTH {
        return false;
    }
    let mut i: usize = 0;
    while i < TAG_LENGTH
        invariant
            i <= TAG_LENGTH,
            input@.len() >= TAG_LENGTH,
            payload@.len() >= TAG_LENGTH,
            forall|j: int| 0 <= j < i ==> input@[j] == payload@[j],
        decreases TAG_LENGTH - i,
    {
        if input[i] != payload[i] {
            assert(input@.subrange(0, TAG_LENGTH as int)[i as int] != payload@.subrange(
                0,
                TAG_LENGTH as int,
            )[i as int]);
            return false;
        }
        i += 1;
    }
    assert(input@.subrange(0, TAG_LENGTH as int) =~= payload@.subrange(0, TAG_LENGTH as int));
    true
}

/// Whether a payload opens with the tag of Initialize or of Update.
pub fn has_list_tag(input: &[u8]) -> (r: bool)
    ensures
        r == opens_with_list_tag(input@),
{
    let none: Vec<ExtraMeta> = Vec::new();
    assert(none@ =~= Seq::<ExtraMeta>::empty());
    let initialize = pack_initialize(none.as_slice());
    let update = pack_update(none.as_slice());
    shares_tag(input, initialize.as_slice()) || shares_tag(input, update.as_slice())
}

/// What was decoded, as a value.
pub open spec fn decoded_model(decoded: Option<Result<HookInstruction, ProgramError>>) -> Option<
    Result<HookInstructionModel, ProgramError>,
> {
    match decoded {
        None => None,
        Some(Ok(instruction)) => Some(Ok(instruction@)),
        Some(Err(error)) => Some(Err(error)),
    }
}

impl HookInstruction {
    /// Decodes the operation of a payload. `None` where the payload cannot be
    /// decoded at all: it opens with a list tag and declares more list
    /// entries than it holds.
    pub fn unpack(input: &[u8]) -> (r: Option<Result<HookInstruction, ProgramError>>)
        ensures
            decoded_model(r) == unpack_spec(input@),
    {
        if has_list_tag(input) && !list_is_whole(input) {
            None
        } else {
            Some(unpack_instruction(input))
        }
    }
}

} // verus!
