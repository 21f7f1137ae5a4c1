use solana_client_ext::compute_budget::add_compute_unit_limit;
use solana_client_ext::estimate::{
    compute_units_from_records, compute_units_from_simulation, estimate_unsigned_tx,
    optimize_message, optimize_transaction, optimize_unsigned_tx, SolanaClientExtError,
};
use solana_client_ext::message::{
    key_position, same_address, CompiledInstruction, Message, MessageHeader, Transaction,
};
use solana_client_ext::return_struct::ReturnStruct;
use solana_client_ext::rollup_channel::ExecutionOutcome;

fn sample_message() -> Message {
    Message {
        header: MessageHeader {
            num_required_signatures: 1,
            num_readonly_signed_accounts: 0,
            num_readonly_unsigned_accounts: 1,
        },
        account_keys: vec![[1u8; 32], [2u8; 32], [0u8; 32]],
        recent_blockhash: [9u8; 32],
        instructions: vec![CompiledInstruction {
            program_id_index: 2,
            accounts: vec![0, 1],
            data: vec![2, 0, 0, 0, 16, 39, 0, 0, 0, 0, 0, 0],
        }],
    }
}

fn budget_id() -> [u8; 32] {
    solana_sdk::compute_budget::id().to_bytes()
}

fn limit_of(ix: &CompiledInstruction) -> u32 {
    assert_eq!(ix.data.len(), 5);
    assert_eq!(ix.data[0], 2);
    u32::from_le_bytes([ix.data[1], ix.data[2], ix.data[3], ix.data[4]])
}

#[test]
fn estimate_returns_units_of_every_record() {
    let records = vec![ReturnStruct::success(1000), ReturnStruct::success(0)];
    match compute_units_from_records(&records) {
        Ok(units) => assert_eq!(units, vec![1000, 0]),
        Err(_) => panic!("expected units"),
    }
}

#[test]
fn estimate_fails_on_any_failed_record() {
    let records = vec![
        ReturnStruct::failure("first".to_string()),
        ReturnStruct::success(7),
        ReturnStruct::failure("second".to_string()),
    ];
    match compute_units_from_records(&records) {
        Err(SolanaClientExtError::ComputeUnitsError(m)) => {
            assert_eq!(m, "Transaction simulation failed:\nfirst\nsecond")
        }
        _ => panic!("expected an estimation error"),
    }
}

#[test]
fn simulation_without_units_fails() {
    match compute_units_from_simulation(None) {
        Err(SolanaClientExtError::ComputeUnitsError(m)) => {
            assert_eq!(m, "Missing Compute Units from transaction simulation.")
        }
        _ => panic!("expected an error"),
    }
}

#[test]
fn simulation_with_zero_units_fails() {
    match compute_units_from_simulation(Some(0)) {
        Err(SolanaClientExtError::RpcError(m)) => assert_eq!(m, "Transaction simulation failed."),
        _ => panic!("expected an error"),
    }
}

#[test]
fn simulation_with_units_succeeds() {
    assert!(matches!(compute_units_from_simulation(Some(1000)), Ok(1000)));
}

#[test]
fn limit_instruction_is_compiled_against_budget_program() {
    let mut m = sample_message();
    add_compute_unit_limit(&mut m, 2000);
    assert_eq!(m.account_keys.len(), 4);
    assert_eq!(m.account_keys[3], budget_id());
    assert_eq!(m.instructions.len(), 2);
    assert_eq!(m.instructions[0].program_id_index, 3);
    assert!(m.instructions[0].accounts.is_empty());
    assert_eq!(m.instructions[0].data, vec![2, 0xD0, 0x07, 0, 0]);
    assert_eq!(m.instructions[1].program_id_index, 2);
    assert_eq!(m.instructions[1].accounts, vec![0, 1]);
}

#[test]
fn optimize_transaction_doubles_estimate() {
    let mut tx = Transaction { signatures: vec![], message: sample_message() };
    let r = optimize_transaction(&mut tx, &vec![ReturnStruct::success(1000)]);
    assert!(matches!(r, Ok(1000)));
    assert_eq!(limit_of(&tx.message.instructions[0]), 2000);
    assert_eq!(tx.message.account_keys.len(), 4);
    assert_eq!(tx.message.instructions.len(), 2);
}

#[test]
fn optimize_transaction_twice_appends_address_twice() {
    let mut tx = Transaction { signatures: vec![], message: sample_message() };
    let records = vec![ReturnStruct::success(1000)];
    assert!(matches!(optimize_transaction(&mut tx, &records), Ok(1000)));
    assert!(matches!(optimize_transaction(&mut tx, &records), Ok(1000)));
    assert_eq!(tx.message.account_keys.len(), 5);
    assert_eq!(tx.message.account_keys[3], budget_id());
    assert_eq!(tx.message.account_keys[4], budget_id());
    assert_eq!(tx.message.instructions.len(), 3);
    assert_eq!(tx.message.instructions[0].program_id_index, 3);
    assert_eq!(limit_of(&tx.message.instructions[0]), 2000);
}

#[test]
fn optimize_transaction_saturates_limit() {
    let mut tx = Transaction { signatures: vec![], message: sample_message() };
    let r = optimize_transaction(&mut tx, &vec![ReturnStruct::success(3_000_000_000)]);
    assert!(matches!(r, Ok(3_000_000_000)));
    assert_eq!(limit_of(&tx.message.instructions[0]), u32::MAX);
}

#[test]
fn optimize_transaction_refuses_wide_estimate() {
    let mut tx = Transaction { signatures: vec![], message: sample_message() };
    let wide = u32::MAX as u64 + 1;
    let r = optimize_transaction(&mut tx, &vec![ReturnStruct::success(wide)]);
    assert!(matches!(r, Err(SolanaClientExtError::RangeError(n)) if n == wide));
    assert_eq!(tx.message.account_keys.len(), 3);
    assert_eq!(tx.message.instructions.len(), 1);
}

#[test]
fn optimize_transaction_propagates_failure() {
    let mut tx = Transaction { signatures: vec![], message: sample_message() };
    let r = optimize_transaction(&mut tx, &vec![ReturnStruct::no_results()]);
    match r {
        Err(SolanaClientExtError::ComputeUnitsError(m)) => assert_eq!(
            m,
            "Transaction simulation failed:\nNo transaction results returned"
        ),
        _ => panic!("expected an estimation error"),
    }
    assert_eq!(tx.message.instructions.len(), 1);
}

#[test]
fn optimize_message_adds_fixed_margin() {
    let mut m = sample_message();
    let r = optimize_message(&mut m, Some(1000));
    assert!(matches!(r, Ok(1000)));
    assert_eq!(limit_of(&m.instructions[0]), 1150);
    assert_eq!(m.account_keys.len(), 4);
    assert_eq!(m.account_keys[3], budget_id());
}

#[test]
fn optimize_message_refuses_zero_units() {
    let mut m = sample_message();
    let r = optimize_message(&mut m, Some(0));
    assert!(matches!(r, Err(SolanaClientExtError::RpcError(_))));
    assert_eq!(m.account_keys.len(), 3);
    assert_eq!(m.instructions.len(), 1);
}

#[test]
fn optimize_message_refuses_wide_estimate() {
    let mut m = sample_message();
    let r = optimize_message(&mut m, Some(u64::MAX));
    assert!(matches!(r, Err(SolanaClientExtError::RangeError(u64::MAX))));
}

#[test]
fn key_lookup_finds_first_position() {
    let keys = vec![[5u8; 32], [7u8; 32], [5u8; 32]];
    assert_eq!(key_position(&keys, &[5u8; 32]), 0);
    assert_eq!(key_position(&keys, &[7u8; 32]), 1);
    assert!(same_address(&[3u8; 32], &[3u8; 32]));
    let mut other = [3u8; 32];
    other[31] = 4;
    assert!(!same_address(&[3u8; 32], &other));
}

#[test]
fn local_estimate_from_engine_outcomes() {
    let ok = vec![ExecutionOutcome::Executed { units: 1000, error: None, logs: None }];
    match estimate_unsigned_tx(&ok) {
        Ok(units) => assert_eq!(units, vec![1000]),
        Err(_) => panic!("expected units"),
    }
    let failed = vec![ExecutionOutcome::Rejected { reason: "AccountNotFound".to_string() }];
    match estimate_unsigned_tx(&failed) {
        Err(SolanaClientExtError::ComputeUnitsError(m)) => assert_eq!(
            m,
            "Transaction simulation failed:\nTransaction 0 failed: AccountNotFound"
        ),
        _ => panic!("expected an estimation error"),
    }
    match estimate_unsigned_tx(&Vec::new()) {
        Err(SolanaClientExtError::ComputeUnitsError(m)) => assert_eq!(
            m,
            "Transaction simulation failed:\nNo transaction results returned"
        ),
        _ => panic!("expected an estimation error"),
    }
}

#[test]
fn optimize_unsigned_tx_encodes_twice_prior_estimate() {
    let mut tx = Transaction { signatures: vec![[4u8; 64]], message: sample_message() };
    let outcomes = vec![ExecutionOutcome::Executed { units: 1000, error: None, logs: None }];
    assert!(matches!(optimize_unsigned_tx(&mut tx, &outcomes), Ok(1000)));
    assert_eq!(tx.message.instructions[0].data, vec![2, 0xD0, 0x07, 0, 0]);
    assert_eq!(tx.signatures, vec![[4u8; 64]]);
    assert_eq!(tx.message.account_keys.len(), 4);
}
