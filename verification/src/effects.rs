//! Messages of effect adapters, and the record of finished operations.

use vstd::prelude::*;

use crate::ordered::TextMap;
use crate::text::same_text;

verus! {

/// A request to execute an effect.
#[derive(Debug)]
pub struct ExecutionRequest {
    pub effect_id: String,
    pub operation_id: String,
    pub request_hash: String,
    pub fencing_token: u64,
    pub payload: Vec<u8>,
}

/// The answer to a request to execute an effect.
#[derive(Debug)]
pub struct ExecutionResponse {
    pub effect_id: String,
    pub status: String,
    pub result_ref: String,
    pub provider_operation_ref: String,
    pub error_code: String,
}

/// The answer to a question about an operation.
#[derive(Debug)]
pub struct StatusResponse {
    pub status: String,
    pub result_ref: String,
    pub error_code: String,
}

/// What is kept of a finished operation.
#[derive(Debug)]
pub struct OpRecord {
    pub status: String,
    pub result_ref: String,
    pub error_code: String,
}

/// The value of an [`OpRecord`].
#[verifier::ext_equal]
pub struct OpView {
    pub status: Seq<char>,
    pub result_ref: Seq<char>,
    pub error_code: Seq<char>,
}

impl View for OpRecord {
    type V = OpView;

    open spec fn view(&self) -> OpView {
        OpView {
            status: self.status@,
            result_ref: self.result_ref@,
            error_code: self.error_code@,
        }
    }
}

/// The finished operations by their ids.
pub type OpStore = TextMap<OpRecord>;

/// The records of a store by their values.
pub open spec fn op_views(store: Map<Seq<char>, OpRecord>) -> Map<Seq<char>, OpView> {
    store.map_values(|r: OpRecord| r@)
}

/// The record of an operation that succeeded with a result.
pub open spec fn success(result_ref: Seq<char>) -> OpView {
    OpView { status: "succeeded"@, result_ref, error_code: Seq::empty() }
}

/// The outcome of an operation that failed with a code.
pub open spec fn failed(code: Seq<char>) -> OpView {
    OpView { status: "failed"@, result_ref: Seq::empty(), error_code: code }
}

/// Whether `r` answers `req` with the outcome `v`.
pub open spec fn responds(r: ExecutionResponse, req: ExecutionRequest, v: OpView) -> bool {
    &&& r.effect_id == req.effect_id
    &&& r.provider_operation_ref == req.operation_id
    &&& r.status@ == v.status
    &&& r.result_ref@ == v.result_ref
    &&& r.error_code@ == v.error_code
}

/// The answer to `req` with the given outcome.
pub fn respond(req: &ExecutionRequest, status: &str, result_ref: &str, error_code: &str) -> (r: ExecutionResponse)
    ensures
        responds(
            r,
            *req,
            OpView { status: status@, result_ref: result_ref@, error_code: error_code@ },
        ),
{
    ExecutionResponse {
        effect_id: req.effect_id.clone(),
        status: status.to_owned(),
        result_ref: result_ref.to_owned(),
        provider_operation_ref: req.operation_id.clone(),
        error_code: error_code.to_owned(),
    }
}

/// The answer that tells `req` that it failed with `code`.
pub fn failure(req: &ExecutionRequest, code: &str) -> (r: ExecutionResponse)
    ensures
        responds(r, *req, failed(code@)),
{
    ExecutionResponse {
        effect_id: req.effect_id.clone(),
        status: "failed".to_owned(),
        result_ref: String::new(),
        provider_operation_ref: req.operation_id.clone(),
        error_code: code.to_owned(),
    }
}

/// The answer that tells `req` that it succeeded with `result_ref`.
pub fn succeed(req: &ExecutionRequest, result_ref: &str) -> (r: ExecutionResponse)
    ensures
        responds(r, *req, success(result_ref@)),
{
    ExecutionResponse {
        effect_id: req.effect_id.clone(),
        status: "succeeded".to_owned(),
        result_ref: result_ref.to_owned(),
        provider_operation_ref: req.operation_id.clone(),
        error_code: String::new(),
    }
}

/// The answer to `req` with what is kept of its operation.
pub fn replay(req: &ExecutionRequest, rec: &OpRecord) -> (r: ExecutionResponse)
    ensures
        responds(r, *req, rec@),
{
    respond(req, rec.status.as_str(), rec.result_ref.as_str(), rec.error_code.as_str())
}

/// The record of an operation that succeeded with a result.
pub fn success_record(result_ref: &str) -> (r: OpRecord)
    ensures
        r@ == success(result_ref@),
{
    OpRecord {
        status: "succeeded".to_owned(),
        result_ref: result_ref.to_owned(),
        error_code: String::new(),
    }
}

/// What a store says of an operation: what it keeps of it, or that it does not
/// know it.
pub open spec fn report(store: Map<Seq<char>, OpView>, operation_id: Seq<char>) -> OpView {
    if store.contains_key(operation_id) {
        store[operation_id]
    } else {
        OpView { status: "not_found"@, result_ref: Seq::empty(), error_code: Seq::empty() }
    }
}

/// Whether `r` has the value `v`.
pub open spec fn states(r: StatusResponse, v: OpView) -> bool {
    r.status@ == v.status && r.result_ref@ == v.result_ref && r.error_code@ == v.error_code
}

/// What a store says of an operation.
pub fn status(store: &OpStore, operation_id: &str) -> (r: StatusResponse)
    ensures
        states(r, report(op_views(store@), operation_id@)),
{
    match store.get(operation_id) {
        Some(rec) => StatusResponse {
            status: rec.status.clone(),
            result_ref: rec.result_ref.clone(),
            error_code: rec.error_code.clone(),
        },
        None => StatusResponse {
            status: "not_found".to_owned(),
            result_ref: String::new(),
            error_code: String::new(),
        },
    }
}

/// What an effect adapter is asked to do.
#[derive(Clone, Copy, Debug, PartialEq, Eq, Structural)]
pub enum Operation {
    Execute,
    Status,
    Unknown,
}

/// What the operation named `name` asks for.
pub open spec fn operation(name: Seq<char>) -> Operation {
    if name == "execute"@ {
        Operation::Execute
    } else if name == "status"@ {
        Operation::Status
    } else {
        Operation::Unknown
    }
}

/// What the operation named `name` asks for.
pub fn operation_of(name: &str) -> (r: Operation)
    ensures
        r == operation(name@),
{
    if same_text(name, "execute") {
        Operation::Execute
    } else if same_text(name, "status") {
        Operation::Status
    } else {
        Operation::Unknown
    }
}

/// The error of a call that is not carried out: its operation is unknown, or its
/// payload could not be read.
pub fn refusal(op: Operation) -> (r: String)
    ensures
        r@ == (if op == Operation::Unknown {
            "unknown_operation"@
        } else {
            "invalid_argument"@
        }),
{
    if op == Operation::Unknown {
        "unknown_operation".to_owned()
    } else {
        "invalid_argument".to_owned()
    }
}

/// What is kept of an operation is what is reported, and one that is not known is reported so.
pub proof fn reports_tell_what_is_kept(store: Map<Seq<char>, OpView>, id: Seq<char>, v: OpView)
    ensures
        report(store.insert(id, v), id) == v,
        !store.contains_key(id) ==> report(store, id).status == "not_found"@ && report(store, id).result_ref.len()
            == 0 && report(store, id).error_code.len() == 0,
{
}

/// An outcome has a result or a code, by its status, and an answer carries all of it to the one
/// who asked.
pub proof fn answers_carry_the_outcome(
    r: ExecutionResponse,
    req: ExecutionRequest,
    result_ref: Seq<char>,
    code: Seq<char>,
)
    ensures
        responds(r, req, success(result_ref)) <==> r.effect_id == req.effect_id
            && r.provider_operation_ref == req.operation_id && r.status@ == "succeeded"@ && r.result_ref@
            == result_ref && r.error_code@ == Seq::<char>::empty(),
        responds(r, req, failed(code)) <==> r.effect_id == req.effect_id && r.provider_operation_ref
            == req.operation_id && r.status@ == "failed"@ && r.result_ref@ == Seq::<char>::empty()
            && r.error_code@ == code,
{
}

} // verus!
