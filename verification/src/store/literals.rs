//! The words that may stand in the columns of the store.

use vstd::prelude::*;
use vstd::string::*;

use crate::errors::{failed_precondition, precondition_error, ErrorView, KernelError};
use crate::text::same_text;

verus! {

/// The error of a word that may not stand in a column.
pub open spec fn unknown_literal(column: Seq<char>, value: Seq<char>) -> ErrorView {
    failed_precondition(column + " has an unknown literal: "@ + value)
}

/// The error of a word that may not stand in a column.
pub fn unknown_literal_error(column: &str, value: &str) -> (r: KernelError)
    ensures
        r@ == unknown_literal(column@, value@),
{
    let mut message = column.to_owned();
    message.append(" has an unknown literal: ");
    message.append(value);
    precondition_error(message.as_str())
}

pub open spec fn is_turn_state(v: Seq<char>) -> bool {
    v == "issued"@ || v == "accepted"@ || v == "stale"@
}

pub fn turn_state(v: &str) -> (r: bool)
    ensures
        r == is_turn_state(v@),
{
    same_text(v, "issued") || same_text(v, "accepted") || same_text(v, "stale")
}

pub open spec fn is_decision_type(v: Seq<char>) -> bool {
    v == "Complete"@ || v == "Fail"@ || v == "Wait"@ || v == "SpawnAgent"@ || v == "InvokeEffect"@ || v
        == "RequestApproval"@
}

pub fn decision_type(v: &str) -> (r: bool)
    ensures
        r == is_decision_type(v@),
{
    same_text(v, "Complete") || same_text(v, "Fail") || same_text(v, "Wait") || same_text(
        v,
        "SpawnAgent",
    ) || same_text(v, "InvokeEffect") || same_text(v, "RequestApproval")
}

pub open spec fn is_instance_state(v: Seq<char>) -> bool {
    v == "starting"@ || v == "ready"@ || v == "exited"@ || v == "failed"@
}

pub fn instance_state(v: &str) -> (r: bool)
    ensures
        r == is_instance_state(v@),
{
    same_text(v, "starting") || same_text(v, "ready") || same_text(v, "exited") || same_text(
        v,
        "failed",
    )
}

pub open spec fn is_validation_state(v: Seq<char>) -> bool {
    v == "proposed"@ || v == "validated"@ || v == "rejected"@
}

pub fn validation_state(v: &str) -> (r: bool)
    ensures
        r == is_validation_state(v@),
{
    same_text(v, "proposed") || same_text(v, "validated") || same_text(v, "rejected")
}

pub open spec fn is_test_state(v: Seq<char>) -> bool {
    v == "untested"@ || v == "passed"@ || v == "failed"@
}

pub fn test_state(v: &str) -> (r: bool)
    ensures
        r == is_test_state(v@),
{
    same_text(v, "untested") || same_text(v, "passed") || same_text(v, "failed")
}

pub open spec fn is_report_result(v: Seq<char>) -> bool {
    v == "pass"@ || v == "fail"@
}

pub fn report_result(v: &str) -> (r: bool)
    ensures
        r == is_report_result(v@),
{
    same_text(v, "pass") || same_text(v, "fail")
}

pub open spec fn is_approval_decision(v: Seq<char>) -> bool {
    v == "approve"@ || v == "deny"@
}

pub fn approval_decision(v: &str) -> (r: bool)
    ensures
        r == is_approval_decision(v@),
{
    same_text(v, "approve") || same_text(v, "deny")
}

} // verus!
