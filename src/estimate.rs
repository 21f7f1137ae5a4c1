//! Estimates from local records and from remote simulation, and the budgets
//! placed on transactions and messages from them.
use vstd::prelude::*;
use vstd::string::StringExecFns;

use crate::compute_budget::{add_compute_unit_limit, limit_prepended};
use crate::message::{Message, Transaction};
use crate::return_struct::{RecordView, ReturnStruct};
use crate::rollup_channel::{batch_records, process_outcomes, ExecutionOutcome};
use crate::text::{join, push_joined};

verus! {

/// The margin added to a simulated estimate to form a message's limit.
pub const MESSAGE_LIMIT_MARGIN: u32 = 150;

/// The errors of estimation and optimization.
pub enum SolanaClientExtError {
    /// A local execution failed, or a simulation reported no unit count.
    ComputeUnitsError(String),
    /// A simulation reported that no units were consumed.
    RpcError(String),
    /// A unit count does not fit the 32 bits of a compute-unit limit.
    RangeError(u64),
}

pub open spec fn record_views(records: Seq<ReturnStruct>) -> Seq<RecordView> {
    records.map_values(|r: ReturnStruct| r@)
}

/// Whether every record is a success.
pub open spec fn all_succeeded(records: Seq<RecordView>) -> bool {
    forall|i: int| 0 <= i < records.len() ==> #[trigger] records[i].success
}

/// The messages of the failed records, in order.
pub open spec fn failure_details(records: Seq<RecordView>) -> Seq<Seq<char>>
    decreases records.len(),
{
    if records.len() == 0 {
        Seq::empty()
    } else if records.last().success {
        failure_details(records.drop_last())
    } else {
        failure_details(records.drop_last()).push(records.last().detail)
    }
}

/// The message of an estimate that failed on the records `records`.
pub open spec fn estimate_failure_message(records: Seq<RecordView>) -> Seq<char> {
    "Transaction simulation failed:\n"@ + join(failure_details(records), "\n"@)
}

/// The unit counts of the records, in order.
pub open spec fn record_units(records: Seq<RecordView>) -> Seq<u64> {
    records.map_values(|r: RecordView| r.cu)
}

/// Whether `r` is the estimate that the records `records` give: all their
/// unit counts when every one succeeded, else an error that joins the
/// messages of the failed ones.
pub open spec fn estimate_outcome(records: Seq<RecordView>, r: Result<Vec<u64>, SolanaClientExtError>) -> bool {
    if all_succeeded(records) {
        r matches Ok(units) && units@ == record_units(records)
    } else {
        r matches Err(SolanaClientExtError::ComputeUnitsError(m)) && m@ == estimate_failure_message(
            records,
        )
    }
}

/// The units of a batch's records, or an error naming every failed one.
pub fn compute_units_from_records(records: &Vec<ReturnStruct>) -> (r: Result<
    Vec<u64>,
    SolanaClientExtError,
>)
    ensures
        estimate_outcome(record_views(records@), r),
{
    let ghost views = record_views(records@);
    let mut units: Vec<u64> = Vec::new();
    let mut failures: Vec<String> = Vec::new();
    let mut i: usize = 0;
    while i < records.len()
        invariant
            i <= records@.len(),
            views == record_views(records@),
            units@ == record_units(views.subrange(0, i as int)),
            failures@.map_values(|s: String| s@) == failure_details(views.subrange(0, i as int)),
            (failures@.len() == 0) == all_succeeded(views.subrange(0, i as int)),
        decreases records.len() - i,
    {
        let record = &records[i];
        proof {
            let pre = views.subrange(0, i as int);
            let post = views.subrange(0, i + 1);
            assert(post.drop_last() =~= pre);
            assert(post.last() == record@);
            if !all_succeeded(pre) {
                let k = choose|k: int| 0 <= k < pre.len() && !#[trigger] pre[k].success;
                assert(!post[k].success);
            }
            if all_succeeded(pre) && record.success {
                assert forall|k: int| 0 <= k < post.len() implies #[trigger] post[k].success by {
                    if k < pre.len() {
                        assert(post[k] == pre[k]);
                    }
                }
            }
        }
        units.push(record.cu);
        if !record.success {
            failures.push(record.result.clone());
        }
        proof {
            let post = views.subrange(0, i + 1);
            assert(units@ =~= record_units(post));
            if !record.success {
                assert(failures@.map_values(|s: String| s@) =~= failure_details(post));
                assert(!post[i as int].success);
            }
        }
        i = i + 1;
    }
    assert(views.subrange(0, records@.len() as int) =~= views);
    if failures.len() > 0 {
        let mut message = String::from_str("Transaction simulation failed:\n");
        push_joined(&mut message, &failures, "\n");
        Err(SolanaClientExtError::ComputeUnitsError(message))
    } else {
        Ok(units)
    }
}

/// A local estimate fails exactly when some record of the batch failed.
pub proof fn lemma_estimate_fails_iff_some_failure(
    records: Seq<RecordView>,
    r: Result<Vec<u64>, SolanaClientExtError>,
)
    requires
        estimate_outcome(records, r),
    ensures
        r is Err <==> exists|i: int| 0 <= i < records.len() && !#[trigger] records[i].success,
{
}

/// Whether `r` is what a simulation that reported `units_consumed` gives:
/// the count when it is positive, else an error.
pub open spec fn simulation_outcome(units_consumed: Option<u64>, r: Result<u64, SolanaClientExtError>) -> bool {
    match units_consumed {
        None => r matches Err(SolanaClientExtError::ComputeUnitsError(m))
            && m@ == "Missing Compute Units from transaction simulation."@,
        Some(n) => if n == 0 {
            r matches Err(SolanaClientExtError::RpcError(m)) && m@ == "Transaction simulation failed."@
        } else {
            r == Ok::<u64, SolanaClientExtError>(n)
        },
    }
}

/// The units that a simulation consumed, refusing a missing or zero count.
pub fn compute_units_from_simulation(units_consumed: Option<u64>) -> (r: Result<
    u64,
    SolanaClientExtError,
>)
    ensures
        simulation_outcome(units_consumed, r),
{
    match units_consumed {
        None => Err(
            SolanaClientExtError::ComputeUnitsError(
                String::from_str("Missing Compute Units from transaction simulation."),
            ),
        ),
        Some(n) => if n == 0 {
            Err(SolanaClientExtError::RpcError(String::from_str("Transaction simulation failed.")))
        } else {
            Ok(n)
        },
    }
}

/// `a + b`, or `u32::MAX` where the sum does not fit.
pub open spec fn saturating_sum(a: u32, b: u32) -> u32 {
    if a + b > u32::MAX {
        u32::MAX
    } else {
        (a + b) as u32
    }
}

/// Whether optimizing `before` on the records `records` of its local
/// execution gave `after` and `r`: on success the estimate is the first
/// record's units and a limit of twice it, saturating, stands at the front
/// of the message; on failure the transaction is unchanged.
pub open spec fn transaction_optimized(
    records: Seq<RecordView>,
    before: Transaction,
    after: Transaction,
    r: Result<u32, SolanaClientExtError>,
) -> bool {
    &&& !all_succeeded(records) ==> (r matches Err(SolanaClientExtError::ComputeUnitsError(m))
        && m@ == estimate_failure_message(records))
    &&& all_succeeded(records) && records[0].cu > u32::MAX ==> r == Err::<u32, SolanaClientExtError>(
        SolanaClientExtError::RangeError(records[0].cu),
    )
    &&& all_succeeded(records) && records[0].cu <= u32::MAX ==> r == Ok::<u32, SolanaClientExtError>(
        records[0].cu as u32,
    )
    &&& match r {
        Ok(e) => limit_prepended(before.message, after.message, saturating_sum(e, e))
            && after.signatures == before.signatures,
        Err(_) => after == before,
    }
}

/// Estimates a transaction from the records of its local execution and
/// places a limit of twice the estimate at the front of its message.
/// Returns the estimate.
pub fn optimize_transaction(transaction: &mut Transaction, records: &Vec<ReturnStruct>) -> (r: Result<
    u32,
    SolanaClientExtError,
>)
    requires
        records@.len() > 0,
    ensures
        transaction_optimized(record_views(records@), *old(transaction), *final(transaction), r),
{
    let units = match compute_units_from_records(records) {
        Ok(units) => units,
        Err(e) => {
            return Err(e);
        },
    };
    assert(units@[0] == records@[0].cu);
    let first = units[0];
    if first > u32::MAX as u64 {
        return Err(SolanaClientExtError::RangeError(first));
    }
    let estimate = first as u32;
    add_compute_unit_limit(&mut transaction.message, estimate.saturating_add(estimate));
    Ok(estimate)
}

/// Checks the units that a simulation of a message consumed and places a
/// limit of that estimate plus a fixed margin at the front of the message.
/// Returns the estimate.
pub fn optimize_message(message: &mut Message, units_consumed: Option<u64>) -> (r: Result<
    u32,
    SolanaClientExtError,
>)
    ensures
        units_consumed is None ==> (r matches Err(SolanaClientExtError::ComputeUnitsError(m))
            && m@ == "Missing Compute Units from transaction simulation."@),
        units_consumed == Some(0u64) ==> (r matches Err(SolanaClientExtError::RpcError(m)) && m@
            == "Transaction simulation failed."@),
        match units_consumed {
            Some(n) => 0 < n ==> r == if n > u32::MAX {
                Err::<u32, SolanaClientExtError>(SolanaClientExtError::RangeError(n))
            } else {
                Ok::<u32, SolanaClientExtError>(n as u32)
            },
            None => true,
        },
        match r {
            Ok(e) => limit_prepended(*old(message), *final(message), saturating_sum(e, MESSAGE_LIMIT_MARGIN)),
            Err(_) => *final(message) == *old(message),
        },
{
    let consumed = match compute_units_from_simulation(units_consumed) {
        Ok(n) => n,
        Err(e) => {
            return Err(e);
        },
    };
    if consumed > u32::MAX as u64 {
        return Err(SolanaClientExtError::RangeError(consumed));
    }
    let estimate = consumed as u32;
    add_compute_unit_limit(message, estimate.saturating_add(MESSAGE_LIMIT_MARGIN));
    Ok(estimate)
}

/// The estimate of a transaction whose local execution, as a batch of one,
/// gave `outcomes`.
pub fn estimate_unsigned_tx(outcomes: &Vec<ExecutionOutcome>) -> (r: Result<
    Vec<u64>,
    SolanaClientExtError,
>)
    ensures
        estimate_outcome(batch_records(1, outcomes@), r),
{
    let records = process_outcomes(1, outcomes);
    assert(record_views(records@) == batch_records(1, outcomes@));
    compute_units_from_records(&records)
}

/// Optimizes a transaction whose local execution, as a batch of one, gave
/// `outcomes`. Returns the estimate.
pub fn optimize_unsigned_tx(transaction: &mut Transaction, outcomes: &Vec<ExecutionOutcome>) -> (r: Result<
    u32,
    SolanaClientExtError,
>)
    ensures
        transaction_optimized(batch_records(1, outcomes@), *old(transaction), *final(transaction), r),
{
    let records = process_outcomes(1, outcomes);
    assert(record_views(records@) == batch_records(1, outcomes@));
    assert(records@.len() == record_views(records@).len());
    optimize_transaction(transaction, &records)
}

} // verus!
