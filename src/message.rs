//! A legacy ledger message and transaction, as the budget logic reads them,
//! and the placing of a compute-unit limit instruction at their front.
use vstd::prelude::*;

verus! {

/// A 32-byte account address.
pub type Address = [u8; 32];

/// An instruction whose program and accounts are indexes into the
/// message's account keys.
pub struct CompiledInstruction {
    pub program_id_index: u8,
    pub accounts: Vec<u8>,
    pub data: Vec<u8>,
}

pub struct InstructionView {
    pub program_id_index: u8,
    pub accounts: Seq<u8>,
    pub data: Seq<u8>,
}

impl View for CompiledInstruction {
    type V = InstructionView;

    open spec fn view(&self) -> InstructionView {
        InstructionView {
            program_id_index: self.program_id_index,
            accounts: self.accounts@,
            data: self.data@,
        }
    }
}

/// How many of the account keys sign, and how many are read-only.
#[derive(Clone, Copy)]
pub struct MessageHeader {
    pub num_required_signatures: u8,
    pub num_readonly_signed_accounts: u8,
    pub num_readonly_unsigned_accounts: u8,
}

/// A legacy message: a header, the account keys that its instructions
/// index, a recent block hash and the instructions in execution order.
pub struct Message {
    pub header: MessageHeader,
    pub account_keys: Vec<Address>,
    pub recent_blockhash: [u8; 32],
    pub instructions: Vec<CompiledInstruction>,
}

/// A message with the signatures made over it.
pub struct Transaction {
    pub signatures: Vec<[u8; 64]>,
    pub message: Message,
}

pub open spec fn instruction_views(ixs: Seq<CompiledInstruction>) -> Seq<InstructionView> {
    ixs.map_values(|c: CompiledInstruction| c@)
}

/// `j` is the first position of `key` among `keys`.
pub open spec fn is_first_index(keys: Seq<Address>, key: Address, j: int) -> bool {
    &&& 0 <= j < keys.len()
    &&& keys[j]@ == key@
    &&& forall|k: int| 0 <= k < j ==> keys[k]@ != key@
}

/// The instruction that runs program `program_id`, on no accounts, with
/// `data`, compiled against `keys`: the program stands at the first
/// position of its key, which is written as a byte.
pub open spec fn compiled_against(keys: Seq<Address>, program_id: Address, data: Seq<u8>, ix: InstructionView) -> bool {
    &&& exists|j: int| is_first_index(keys, program_id, j) && ix.program_id_index == j as u8
    &&& ix.accounts.len() == 0
    &&& ix.data == data
}

/// Whether two addresses hold the same bytes.
pub fn same_address(a: &Address, b: &Address) -> (r: bool)
    ensures
        r == (a@ == b@),
{
    let mut i: usize = 0;
    while i < 32
        invariant
            i <= 32,
            forall|k: int| 0 <= k < i ==> a@[k] == b@[k],
        decreases 32 - i,
    {
        if a[i] != b[i] {
            return false;
        }
        i = i + 1;
    }
    assert(a@ =~= b@);
    true
}

/// The first position of `key` among `keys`, as a byte.
pub fn key_position(keys: &Vec<Address>, key: &Address) -> (r: u8)
    requires
        exists|j: int| 0 <= j < keys@.len() && keys@[j]@ == key@,
    ensures
        exists|j: int| is_first_index(keys@, *key, j) && r == j as u8,
{
    let mut i: usize = 0;
    while i < keys.len()
        invariant
            i <= keys@.len(),
            forall|k: int| 0 <= k < i ==> keys@[k]@ != key@,
            exists|j: int| 0 <= j < keys@.len() && keys@[j]@ == key@,
        decreases keys.len() - i,
    {
        if same_address(&keys[i], key) {
            assert(is_first_index(keys@, *key, i as int));
            return i as u8;
        }
        i = i + 1;
    }
    assert(false);
    0
}

/// Appends `program_id` to the account keys and places at the front of the
/// instructions the one that runs it with `data` and no accounts.
pub fn prepend_instruction(message: &mut Message, program_id: Address, data: Vec<u8>)
    ensures
        final(message).header == old(message).header,
        final(message).recent_blockhash == old(message).recent_blockhash,
        final(message).account_keys@ == old(message).account_keys@.push(program_id),
        final(message).instructions@.len() == old(message).instructions@.len() + 1,
        compiled_against(
            final(message).account_keys@,
            program_id,
            data@,
            final(message).instructions@[0]@,
        ),
        instruction_views(final(message).instructions@).drop_first() == instruction_views(
            old(message).instructions@,
        ),
{
    message.account_keys.push(program_id);
    assert(message.account_keys@[message.account_keys@.len() - 1]@ == program_id@);
    let program_id_index = key_position(&message.account_keys, &program_id);
    let compiled = CompiledInstruction { program_id_index, accounts: Vec::new(), data };
    message.instructions.insert(0, compiled);
    assert(instruction_views(message.instructions@).drop_first() =~= instruction_views(
        old(message).instructions@,
    ));
}

} // verus!
