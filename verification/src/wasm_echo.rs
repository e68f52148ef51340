//! An effect adapter that returns its payload in upper case, once per operation.

use vstd::prelude::*;
use vstd::utf8::encode_utf8;

use crate::base64::{base64_encode, encoded};
use crate::effects::{
    operation_of, responds, states, succeed, success, ExecutionRequest, ExecutionResponse,
    Operation, OpView, StatusResponse,
};
use crate::ordered::TextMap;
use crate::text::{from_lossy, join, lossy_text, to_uppercase, uppercase};

verus! {

/// The answers that were given, by their operations.
pub type AnswerStore = TextMap<ExecutionResponse>;

/// The result for a payload, `upper` being its text in upper case.
pub open spec fn result_uri(upper: Seq<char>) -> Seq<char> {
    "data:text/plain;base64,"@ + encoded(encode_utf8(upper))
}

/// A copy of an answer.
fn copy_answer(a: &ExecutionResponse) -> (r: ExecutionResponse)
    ensures
        r == *a,
{
    ExecutionResponse {
        effect_id: a.effect_id.clone(),
        status: a.status.clone(),
        result_ref: a.result_ref.clone(),
        provider_operation_ref: a.provider_operation_ref.clone(),
        error_code: a.error_code.clone(),
    }
}

/// Answers a request with its payload's text in upper case, which is `upper`. An
/// operation that was answered before has its first answer again.
pub fn execute_with(store: &mut AnswerStore, req: &ExecutionRequest, upper: &str) -> (r: ExecutionResponse)
    ensures
        old(store)@.contains_key(req.operation_id@) ==> r == old(store)@[req.operation_id@]
            && final(store)@ == old(store)@,
        !old(store)@.contains_key(req.operation_id@) ==> responds(r, *req, success(result_uri(upper@)))
            && final(store)@ == old(store)@.insert(req.operation_id@, r),
{
    if let Some(known) = store.get(req.operation_id.as_str()) {
        return copy_answer(known);
    }
    let body = base64_encode(upper.as_bytes());
    let answer = succeed(req, join("data:text/plain;base64,", body.as_str()).as_str());
    let kept = copy_answer(&answer);
    store.insert(req.operation_id.clone(), kept);
    answer
}

/// What is known of an operation: what it was answered with, if it was.
pub open spec fn known(store: Map<Seq<char>, ExecutionResponse>, operation_id: Seq<char>) -> OpView {
    if store.contains_key(operation_id) {
        let a = store[operation_id];
        OpView { status: a.status@, result_ref: a.result_ref@, error_code: a.error_code@ }
    } else {
        OpView { status: "not_found"@, result_ref: Seq::empty(), error_code: Seq::empty() }
    }
}

/// Tells what is known of an operation.
pub fn status(store: &AnswerStore, operation_id: &str) -> (r: StatusResponse)
    ensures
        states(r, known(store@, operation_id@)),
{
    match store.get(operation_id) {
        Some(a) => StatusResponse {
            status: a.status.clone(),
            result_ref: a.result_ref.clone(),
            error_code: a.error_code.clone(),
        },
        None => StatusResponse {
            status: "not_found".to_owned(),
            result_ref: String::new(),
            error_code: String::new(),
        },
    }
}

/// The answer to a call.
#[derive(Debug)]
pub enum GuestAnswer {
    Executed(ExecutionResponse),
    Told(StatusResponse),
}

/// Answers a call with the given operation, or tells the code of the error. `req` is
/// what its payload asks to execute and `asked` the operation whose status it asks for,
/// each absent where the payload could not be read so.
pub fn handle(
    store: &mut AnswerStore,
    operation: &str,
    req: Option<&ExecutionRequest>,
    asked: Option<&str>,
) -> (r: Result<GuestAnswer, String>)
    ensures
        match crate::effects::operation(operation@) {
            Operation::Execute => match req {
                Some(q) => r matches Ok(GuestAnswer::Executed(a)) && (if old(store)@.contains_key(
                    q.operation_id@,
                ) {
                    a == old(store)@[q.operation_id@] && final(store)@ == old(store)@
                } else {
                    responds(a, *q, success(result_uri(uppercase(lossy_text(q.payload@)))))
                        && final(store)@ == old(store)@.insert(q.operation_id@, a)
                }),
                None => r matches Err(e) && e@ == "invalid_argument"@ && final(store)@ == old(store)@,
            },
            Operation::Status => final(store)@ == old(store)@ && match asked {
                Some(id) => r matches Ok(GuestAnswer::Told(s)) && states(s, known(old(store)@, id@)),
                None => r matches Err(e) && e@ == "invalid_argument"@,
            },
            Operation::Unknown => r matches Err(e) && e@ == "unknown_operation"@ && final(store)@
                == old(store)@,
        },
{
    match operation_of(operation) {
        Operation::Execute => match req {
            Some(q) => {
                let text = from_lossy(q.payload.as_slice());
                let upper = to_uppercase(text.as_str());
                Ok(GuestAnswer::Executed(execute_with(store, q, upper.as_str())))
            },
            None => Err("invalid_argument".to_owned()),
        },
        Operation::Status => match asked {
            Some(id) => Ok(GuestAnswer::Told(status(store, id))),
            None => Err("invalid_argument".to_owned()),
        },
        Operation::Unknown => Err("unknown_operation".to_owned()),
    }
}

/// An operation that was answered is known by its answer.
pub proof fn answers_are_known(
    store: Map<Seq<char>, ExecutionResponse>,
    req: ExecutionRequest,
    answer: ExecutionResponse,
    result_ref: Seq<char>,
)
    requires
        responds(answer, req, success(result_ref)),
    ensures
        known(store.insert(req.operation_id@, answer), req.operation_id@) == success(result_ref),
{
}

/// The result of a payload carries its text, and what is not known has no result.
pub proof fn results_carry_their_text(upper: Seq<char>, store: Map<Seq<char>, ExecutionResponse>, id: Seq<char>)
    ensures
        crate::base64::uri_text(result_uri(upper)) == Some(upper),
        crate::text::begins_with(result_uri(upper), "data:text/plain;base64,"@),
        !store.contains_key(id) ==> known(store, id).status == "not_found"@ && known(store, id).result_ref.len()
            == 0 && known(store, id).error_code.len() == 0,
        store.contains_key(id) ==> known(store, id).status == store[id].status@ && known(
            store,
            id,
        ).result_ref == store[id].result_ref@ && known(store, id).error_code == store[id].error_code@,
{
    let n = encode_utf8(upper).len();
    crate::base64::uri_carries_its_text(upper, n);
    crate::text::laws::beginnings_and_ends("data:text/plain;base64,"@, encoded(encode_utf8(upper)), upper);
}

} // verus!
