//! Turning the execution engine's per-transaction outcomes into records.
use vstd::prelude::*;
use vstd::string::StringExecFns;

use crate::return_struct::{
    failure_record, no_results_record, success_record, RecordView, ReturnStruct,
};
use crate::text::{decimal, join, push_decimal, push_joined};

verus! {

/// What the execution engine reports for one transaction of a batch.
pub enum ExecutionOutcome {
    /// The transaction ran. `error` is `None` when it succeeded, else the
    /// engine's error text; `logs` are the program log lines, if recorded.
    Executed { units: u64, error: Option<String>, logs: Option<Vec<String>> },
    /// Loading failed before execution started; only fees were charged.
    FeesOnly { load_error: String },
    /// The engine refused the transaction before scheduling it.
    Rejected { reason: String },
}

/// The log lines of an execution, none when they were not recorded.
pub open spec fn log_lines(logs: Option<Vec<String>>) -> Seq<Seq<char>> {
    match logs {
        Some(v) => v@.map_values(|l: String| l@),
        None => Seq::empty(),
    }
}

/// The message of the transaction at `index` whose execution failed.
pub open spec fn executed_failure_detail(index: nat, error: Seq<char>, logs: Seq<Seq<char>>) -> Seq<char> {
    "Transaction "@ + decimal(index) + " failed with error: "@ + error + "\nLogs:\n"@
        + join(logs, "\n"@)
}

/// The message of the transaction at `index` whose accounts could not be loaded.
pub open spec fn fees_only_detail(index: nat, load_error: Seq<char>) -> Seq<char> {
    "Transaction "@ + decimal(index) + " failed with error: "@ + load_error
        + ". Only fees were charged."@
}

/// The message of the transaction at `index` that the engine refused.
pub open spec fn rejected_detail(index: nat, error: Seq<char>) -> Seq<char> {
    "Transaction "@ + decimal(index) + " failed: "@ + error
}

/// The record for the outcome of the transaction at `index`.
pub open spec fn outcome_record(index: nat, outcome: ExecutionOutcome) -> RecordView {
    match outcome {
        ExecutionOutcome::Executed { units, error, logs } => match error {
            None => success_record(units),
            Some(e) => RecordView {
                success: false,
                cu: units,
                detail: executed_failure_detail(index, e@, log_lines(logs)),
            },
        },
        ExecutionOutcome::FeesOnly { load_error } => failure_record(
            fees_only_detail(index, load_error@),
        ),
        ExecutionOutcome::Rejected { reason } => failure_record(rejected_detail(index, reason@)),
    }
}

/// The records of a batch of `count` transactions whose execution gave
/// `outcomes`: one per outcome, in order, or a single sentinel when a
/// non-empty batch gave none.
pub open spec fn batch_records(count: nat, outcomes: Seq<ExecutionOutcome>) -> Seq<RecordView> {
    if outcomes.len() == 0 && count > 0 {
        seq![no_results_record()]
    } else {
        Seq::new(outcomes.len(), |i: int| outcome_record(i as nat, outcomes[i]))
    }
}

/// The record for the outcome of the transaction at `index`.
pub fn record_for_outcome(index: usize, outcome: &ExecutionOutcome) -> (r: ReturnStruct)
    ensures
        r@ == outcome_record(index as nat, *outcome),
{
    match outcome {
        ExecutionOutcome::Executed { units, error, logs } => match error {
            None => ReturnStruct::success(*units),
            Some(e) => {
                let mut result = String::from_str("Transaction ");
                push_decimal(&mut result, index as u64);
                result.append(" failed with error: ");
                result.append(e.as_str());
                result.append("\nLogs:\n");
                match logs {
                    Some(lines) => push_joined(&mut result, lines, "\n"),
                    None => {
                        let no_lines: Vec<String> = Vec::new();
                        push_joined(&mut result, &no_lines, "\n");
                        assert(no_lines@.map_values(|l: String| l@) =~= Seq::<Seq<char>>::empty());
                    },
                }
                ReturnStruct { success: false, cu: *units, result }
            },
        },
        ExecutionOutcome::FeesOnly { load_error } => {
            let mut result = String::from_str("Transaction ");
            push_decimal(&mut result, index as u64);
            result.append(" failed with error: ");
            result.append(load_error.as_str());
            result.append(". Only fees were charged.");
            ReturnStruct::failure(result)
        },
        ExecutionOutcome::Rejected { reason } => {
            let mut result = String::from_str("Transaction ");
            push_decimal(&mut result, index as u64);
            result.append(" failed: ");
            result.append(reason.as_str());
            ReturnStruct::failure(result)
        },
    }
}

/// The records of a batch of `transaction_count` transactions whose
/// execution gave `outcomes`, in the engine's order.
pub fn process_outcomes(transaction_count: usize, outcomes: &Vec<ExecutionOutcome>) -> (r: Vec<
    ReturnStruct,
>)
    ensures
        r@.map_values(|x: ReturnStruct| x@) == batch_records(transaction_count as nat, outcomes@),
        r@.len() == batch_records(transaction_count as nat, outcomes@).len(),
        forall|i: int|
            #![trigger r@[i]]
            0 <= i < r@.len() ==> r@[i]@ == batch_records(
                transaction_count as nat,
                outcomes@,
            )[i],
{
    let mut records: Vec<ReturnStruct> = Vec::new();
    let mut i: usize = 0;
    while i < outcomes.len()
        invariant
            i <= outcomes.len(),
            records@.len() == i,
            forall|j: int| 0 <= j < i ==> #[trigger] records@[j]@ == outcome_record(j as nat, outcomes@[j]),
        decreases outcomes.len() - i,
    {
        let record = record_for_outcome(i, &outcomes[i]);
        records.push(record);
        i = i + 1;
    }
    if records.len() == 0 && transaction_count > 0 {
        records.push(ReturnStruct::no_results());
    }
    assert(records@.map_values(|x: ReturnStruct| x@) =~= batch_records(transaction_count as nat, outcomes@));
    assert(records@.len() == records@.map_values(|x: ReturnStruct| x@).len());
    records
}

/// A non-empty batch whose engine reports one outcome per transaction gives
/// one record per transaction; one whose engine reports none gives exactly
/// the sentinel record.
pub proof fn lemma_record_count(count: nat, outcomes: Seq<ExecutionOutcome>)
    requires
        count > 0,
        outcomes.len() == count || outcomes.len() == 0,
    ensures
        outcomes.len() == count ==> batch_records(count, outcomes).len() == count,
        outcomes.len() == 0 ==> batch_records(count, outcomes) == seq![no_results_record()],
{
}

/// An empty batch gives no records, and no sentinel.
pub proof fn lemma_empty_batch(outcomes: Seq<ExecutionOutcome>)
    requires
        outcomes.len() == 0,
    ensures
        batch_records(0, outcomes).len() == 0,
{
}

/// Every failed record carries a message, and every successful record holds
/// exactly the units that the engine reported for its execution.
pub proof fn lemma_record_fields(count: nat, outcomes: Seq<ExecutionOutcome>, i: int)
    requires
        0 <= i < batch_records(count, outcomes).len(),
    ensures
        !batch_records(count, outcomes)[i].success ==> batch_records(count, outcomes)[i].detail.len()
            > 0,
        batch_records(count, outcomes)[i].success ==> match outcomes[i] {
            ExecutionOutcome::Executed { units, error, logs } => error is None
                && batch_records(count, outcomes)[i].cu == units,
            _ => false,
        },
{
    reveal_strlit("Transaction ");
    reveal_strlit("No transaction results returned");
}

} // verus!
