//! The compute-unit limit instruction of the compute budget program.
use vstd::prelude::*;

use crate::message::{compiled_against, instruction_views, prepend_instruction, Address, Message};

verus! {

/// The data of a "set compute unit limit" instruction: the instruction's
/// tag, 2, followed by the limit in little-endian byte order.
pub open spec fn limit_instruction_data(limit: u32) -> Seq<u8> {
    seq![
        2u8,
        (limit % 0x100) as u8,
        ((limit / 0x100) % 0x100) as u8,
        ((limit / 0x10000) % 0x100) as u8,
        (limit / 0x1000000) as u8,
    ]
}

/// Relies on `solana_sdk::compute_budget::id`: the address of the compute
/// budget program.
#[verifier::external_body]
pub(crate) fn compute_budget_program_id() -> (r: Address) {
    solana_sdk::compute_budget::id().to_bytes()
}

/// Relies on `ComputeBudgetInstruction::set_compute_unit_limit`, which
/// builds the instruction's data as the tag 2 and `limit.to_le_bytes()`.
#[verifier::external_body]
pub(crate) fn compute_unit_limit_data(limit: u32) -> (r: Vec<u8>)
    ensures
        r@ == limit_instruction_data(limit),
{
    solana_sdk::compute_budget::ComputeBudgetInstruction::set_compute_unit_limit(limit).data
}

/// `after` is `before` with the compute budget program's address appended
/// to its account keys and, at the front of its instructions, one that
/// sets the compute-unit limit to `limit`.
pub open spec fn limit_prepended(before: Message, after: Message, limit: u32) -> bool {
    &&& after.header == before.header
    &&& after.recent_blockhash == before.recent_blockhash
    &&& after.account_keys@.len() == before.account_keys@.len() + 1
    &&& after.account_keys@.drop_last() == before.account_keys@
    &&& after.instructions@.len() == before.instructions@.len() + 1
    &&& compiled_against(
        after.account_keys@,
        after.account_keys@.last(),
        limit_instruction_data(limit),
        after.instructions@[0]@,
    )
    &&& instruction_views(after.instructions@).drop_first() == instruction_views(
        before.instructions@,
    )
}

/// Places a "set compute unit limit" instruction for `limit` at the front of
/// the message's instructions, appending the compute budget program's
/// address to its account keys.
pub fn add_compute_unit_limit(message: &mut Message, limit: u32)
    ensures
        limit_prepended(*old(message), *final(message), limit),
{
    let program_id = compute_budget_program_id();
    let data = compute_unit_limit_data(limit);
    prepend_instruction(message, program_id, data);
    assert(message.account_keys@.drop_last() =~= old(message).account_keys@);
}

} // verus!
