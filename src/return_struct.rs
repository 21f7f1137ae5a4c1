//! The uniform record of one transaction's outcome.
use vstd::prelude::*;
use vstd::string::StringExecFns;

use crate::text::{decimal, push_decimal};

verus! {

/// Whether a transaction succeeded, the compute units it used, and a
/// descriptive message with the result or the error.
pub struct ReturnStruct {
    /// Whether the transaction completed successfully
    pub success: bool,
    /// The number of compute units used by the transaction
    pub cu: u64,
    /// A descriptive result or error message
    pub result: String,
}

/// What a `ReturnStruct` holds, with its message as characters.
pub struct RecordView {
    pub success: bool,
    pub cu: u64,
    pub detail: Seq<char>,
}

impl View for ReturnStruct {
    type V = RecordView;

    open spec fn view(&self) -> RecordView {
        RecordView { success: self.success, cu: self.cu, detail: self.result@ }
    }
}

/// The message of a successful execution that used `cu` units.
pub open spec fn success_detail(cu: u64) -> Seq<char> {
    "Transaction executed successfully with "@ + decimal(cu as nat) + " compute units"@
}

/// The message of the record that stands for a batch with no outcomes.
pub open spec fn no_results_detail() -> Seq<char> {
    "No transaction results returned"@
}

pub open spec fn success_record(cu: u64) -> RecordView {
    RecordView { success: true, cu, detail: success_detail(cu) }
}

pub open spec fn failure_record(detail: Seq<char>) -> RecordView {
    RecordView { success: false, cu: 0, detail }
}

pub open spec fn no_results_record() -> RecordView {
    failure_record(no_results_detail())
}

impl ReturnStruct {
    /// Create a success result with compute units used
    pub fn success(cu: u64) -> (r: Self)
        ensures
            r@ == success_record(cu),
    {
        let mut result = String::from_str("Transaction executed successfully with ");
        push_decimal(&mut result, cu);
        result.append(" compute units");
        Self { success: true, cu, result }
    }

    /// Create a failure result with an error message
    pub fn failure(error: String) -> (r: Self)
        ensures
            r@ == failure_record(error@),
    {
        Self { success: false, cu: 0, result: error }
    }

    /// Create a result indicating no transaction results were returned
    pub fn no_results() -> (r: Self)
        ensures
            r@ == no_results_record(),
    {
        Self { success: false, cu: 0, result: String::from_str("No transaction results returned") }
    }
}

} // verus!
