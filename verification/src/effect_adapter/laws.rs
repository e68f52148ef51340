//! What the counting adapter does with its operations.

use vstd::prelude::*;

use crate::effect_adapter::{counted_in, executed, report, store_document, CountedView};
use crate::effects::{operation, Operation};
use crate::json::JsonView;
use crate::text::decimal;

verus! {

/// A new operation gets the number behind those that there are, and its result names the number;
/// every other operation stays as it was.
pub proof fn operations_are_counted(
    store: Map<Seq<char>, CountedView>,
    id: Seq<char>,
    token: u64,
    min_fence: u64,
    other: Seq<char>,
)
    requires
        token >= min_fence,
        !store.contains_key(id),
        store.dom().finite(),
        store.len() < u64::MAX,
    ensures
        ({
            let (after, outcome) = executed(store, id, token, min_fence);
            &&& after.contains_key(id)
            &&& after[id].count == store.len() + 1
            &&& after[id].result_ref == "fixture://counter/"@ + decimal(store.len() + 1)
            &&& after.len() == store.len() + 1
            &&& outcome.status == "succeeded"@
            &&& outcome.result_ref == "fixture://counter/"@ + decimal(store.len() + 1)
            &&& outcome.error_code.len() == 0
            &&& other != id ==> after.contains_key(other) == store.contains_key(other)
            &&& other != id && store.contains_key(other) ==> after[other] == store[other]
        }),
{
}

/// An operation that is there is answered with its result, one with a stale token is refused, and
/// neither changes anything.
pub proof fn known_and_stale_change_nothing(
    store: Map<Seq<char>, CountedView>,
    id: Seq<char>,
    token: u64,
    min_fence: u64,
)
    ensures
        ({
            let (after, outcome) = executed(store, id, token, min_fence);
            &&& token < min_fence ==> after == store && outcome.status == "failed"@ && outcome.error_code
                == "fencing_rejected"@ && outcome.result_ref.len() == 0
            &&& token >= min_fence && store.contains_key(id) ==> after == store && outcome.status
                == "succeeded"@ && outcome.result_ref == store[id].result_ref && outcome.error_code.len() == 0
        }),
{
}

/// The status of an operation is its result where it is there, and nothing otherwise.
pub proof fn status_tells_what_is_there(store: Map<Seq<char>, CountedView>, id: Seq<char>)
    ensures
        store.contains_key(id) ==> report(store, id).status == "succeeded"@ && report(store, id).result_ref
            == store[id].result_ref,
        !store.contains_key(id) ==> report(store, id).status == "not_found"@
            && report(store, id).result_ref.len()
            == 0,
        report(store, id).error_code.len() == 0,
{
}

/// The adapter has two operations, by their names.
pub proof fn operations_have_their_names(name: Seq<char>)
    ensures
        operation("execute"@) == Operation::Execute,
        operation("status"@) == Operation::Status,
        name != "execute"@ && name != "status"@ ==> operation(name) == Operation::Unknown,
{
    reveal_strlit("execute");
    reveal_strlit("status");
    assert("execute"@.len() == 7 && "status"@.len() == 6);
}

/// A store is written down as an object with a member for each operation, which tells its number
/// and its result; and a member without either is no operation.
pub proof fn stores_are_written_down(store: Map<Seq<char>, CountedView>, id: Seq<char>, v: JsonView,
    n: u64, result_ref: Seq<char>)
    ensures
        store_document(store).get(id) is Some <==> store.contains_key(id),
        store.contains_key(id) ==> store_document(store).get(id)->0.get("count"@) == Some(
            JsonView::Uint(store[id].count),
        ) && store_document(store).get(id)->0.text_at("result_ref"@) == Some(store[id].result_ref),
        v.get("count"@) == Some(JsonView::Uint(n)) && v.text_at("result_ref"@) == Some(result_ref)
            ==> counted_in(v) == Some(CountedView { count: n, result_ref }),
        v.get("count"@) is None || v.text_at("result_ref"@) is None ==> counted_in(v) is None,
{
    reveal_strlit("count");
    reveal_strlit("result_ref");
    assert("count"@.len() == 5 && "result_ref"@.len() == 10);
}

} // verus!
