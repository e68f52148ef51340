//! An effect adapter that counts: each operation gets the next number, once.

use vstd::prelude::*;
use vstd::string::*;

use crate::effects::{
    failed, failure, responds, states, succeed, success, ExecutionRequest, ExecutionResponse,
    OpView, StatusResponse,
};
use crate::json::{
    members, pair_views, sorted_members, Json, JsonView,
};
use crate::ordered::{in_order, lists, TextMap};
use crate::text::{decimal, decimal_text, join};

pub mod laws;

verus! {

/// The number that an operation got, and its result.
#[derive(Debug)]
pub struct Counted {
    pub count: u64,
    pub result_ref: String,
}

/// The value of a [`Counted`].
#[verifier::ext_equal]
pub struct CountedView {
    pub count: u64,
    pub result_ref: Seq<char>,
}

impl View for Counted {
    type V = CountedView;

    open spec fn view(&self) -> CountedView {
        CountedView { count: self.count, result_ref: self.result_ref@ }
    }
}

/// The counted operations by their ids.
pub type CounterStore = TextMap<Counted>;

/// The counted operations by their values.
pub open spec fn counted_views(m: Map<Seq<char>, Counted>) -> Map<Seq<char>, CountedView> {
    m.map_values(|c: Counted| c@)
}

/// The result of the operation that got the number `count`.
pub open spec fn counter_uri(count: u64) -> Seq<char> {
    "fixture://counter/"@ + decimal(count as nat)
}

/// The store after a request, and the outcome that it is answered with.
pub open spec fn executed(
    store: Map<Seq<char>, CountedView>,
    operation_id: Seq<char>,
    fencing_token: u64,
    min_fence: u64,
) -> (Map<Seq<char>, CountedView>, OpView) {
    if fencing_token < min_fence {
        (store, failed("fencing_rejected"@))
    } else if store.contains_key(operation_id) {
        (store, success(store[operation_id].result_ref))
    } else {
        let count = (store.len() + 1) as u64;
        (
            store.insert(operation_id, CountedView { count, result_ref: counter_uri(count) }),
            success(counter_uri(count)),
        )
    }
}

/// Carries out a request: a request with a stale fencing token is refused, a known
/// operation has its first result, and a new one gets the next number.
pub fn execute(store: &mut CounterStore, req: &ExecutionRequest, min_fence: u64) -> (r: ExecutionResponse)
    requires
        req.fencing_token >= min_fence && !old(store)@.contains_key(req.operation_id@)
            ==> old(store)@.len() < u64::MAX,
    ensures
        ({
            let v = executed(
                counted_views(old(store)@),
                req.operation_id@,
                req.fencing_token,
                min_fence,
            );
            counted_views(final(store)@) == v.0 && responds(r, *req, v.1)
        }),
{
    if req.fencing_token < min_fence {
        return failure(req, "fencing_rejected");
    }
    if let Some(known) = store.get(req.operation_id.as_str()) {
        return succeed(req, known.result_ref.as_str());
    }
    let size: usize = store.len();
    assert(counted_views(store@).dom() =~= store@.dom());
    let count: u64 = size as u64 + 1;
    let result_ref = join("fixture://counter/", decimal_text(count).as_str());
    let entry = Counted { count, result_ref: result_ref.clone() };
    assert(counted_views(store@.insert(req.operation_id@, entry)) =~= counted_views(store@).insert(
        req.operation_id@,
        entry@,
    ));
    store.insert(req.operation_id.clone(), entry);
    succeed(req, result_ref.as_str())
}

/// What the store says of an operation.
pub open spec fn report(store: Map<Seq<char>, CountedView>, operation_id: Seq<char>) -> OpView {
    if store.contains_key(operation_id) {
        success(store[operation_id].result_ref)
    } else {
        OpView { status: "not_found"@, result_ref: Seq::empty(), error_code: Seq::empty() }
    }
}

/// What the store says of an operation.
pub fn status(store: &CounterStore, operation_id: &str) -> (r: StatusResponse)
    ensures
        states(r, report(counted_views(store@), operation_id@)),
{
    match store.get(operation_id) {
        Some(known) => StatusResponse {
            status: "succeeded".to_owned(),
            result_ref: known.result_ref.clone(),
            error_code: String::new(),
        },
        None => StatusResponse {
            status: "not_found".to_owned(),
            result_ref: String::new(),
            error_code: String::new(),
        },
    }
}

// ---------------------------------------------------------------------------
// The store as a document
// ---------------------------------------------------------------------------

/// The operation that a member of the store's document stands for, if it has a
/// count and a result.
pub open spec fn counted_in(v: JsonView) -> Option<CountedView> {
    match (v.get("count"@), v.text_at("result_ref"@)) {
        (Some(n), Some(result_ref)) => match n.as_u64() {
            Some(count) => Some(CountedView { count, result_ref }),
            None => None,
        },
        _ => None,
    }
}

/// The document of a counted operation.
pub open spec fn counted_document(c: CountedView) -> JsonView {
    JsonView::Object(
        map!["count"@ => JsonView::Uint(c.count), "result_ref"@ => JsonView::Text(c.result_ref)],
    )
}

/// Whether `store` holds the operations of the document `doc`: one for each member
/// with a count and a result. Anything but an object holds none.
pub open spec fn holds_document(store: Map<Seq<char>, CountedView>, doc: Option<JsonView>) -> bool {
    forall|k: Seq<char>|
        match (match doc {
            Some(v) => v.get(k),
            None => None,
        }) {
            Some(v) => match counted_in(v) {
                Some(c) => #[trigger] store.contains_key(k) && store[k] == c,
                None => !store.contains_key(k),
            },
            None => !store.contains_key(k),
        }
}

fn counted_of(v: &Json) -> (r: Option<Counted>)
    ensures
        match r {
            Some(c) => counted_in(v@) == Some(c@),
            None => counted_in(v@) is None,
        },
{
    match (v.get("count"), v.text_at("result_ref")) {
        (Some(n), Some(result_ref)) => match n.as_u64() {
            Some(count) => Some(Counted { count, result_ref: result_ref.to_owned() }),
            None => None,
        },
        _ => None,
    }
}

/// The store that a document holds.
pub fn load_document(doc: &Option<Json>) -> (r: CounterStore)
    ensures
        holds_document(
            counted_views(r@),
            match doc {
                Some(v) => Some(v@),
                None => None,
            },
        ),
{
    let mut out: CounterStore = TextMap::new();
    let v = match doc {
        Some(v) => v,
        None => return out,
    };
    let list = v.members();
    let n: usize = list.len();
    let ghost kept = in_order(list@);
    let ghost listed = sorted_members(v@);
    assert(listed.len() == n);
    let mut i: usize = 0;
    while i < n
        invariant
            i <= n,
            n == kept.len(),
            kept == in_order(list@),
            listed == pair_views(kept),
            crate::ordered::ascending(listed),
            forall|a: int| 0 <= a < i ==> (match counted_in(#[trigger] listed[a].1) {
                Some(c) => out@.contains_key(listed[a].0) && out@[listed[a].0]@ == c,
                None => !out@.contains_key(listed[a].0),
            }),
            forall|k: Seq<char>| #[trigger] out@.contains_key(k) ==> exists|a: int|
                0 <= a < i && #[trigger] listed[a].0 == k,
        decreases n - i,
    {
        let (key, value) = list.at(i);
        assert(listed[i as int] == (key@, value@));
        let ghost before = out@;
        proof {
            assert forall|a: int| 0 <= a < i implies #[trigger] listed[a].0 != key@ by {
                assert(crate::text::text_less(listed[a].0, listed[i as int].0));
                crate::text::text_less_irreflexive(key@);
            }
        }
        assert(!before.contains_key(key@));
        if let Some(c) = counted_of(value) {
            out.insert(key.clone(), c);
        }
        i += 1;
        assert forall|k: Seq<char>| #[trigger] out@.contains_key(k) implies exists|a: int|
            0 <= a < i && #[trigger] listed[a].0 == k by {
            if k == key@ {
                assert(listed[i - 1].0 == k);
            } else {
                let a = choose|a: int| 0 <= a < i - 1 && #[trigger] listed[a].0 == k;
                assert(listed[a].0 == k);
            }
        }
    }
    proof {
        let store = counted_views(out@);
        assert forall|k: Seq<char>|
            match v@.get(k) {
                Some(x) => match counted_in(x) {
                    Some(c) => #[trigger] store.contains_key(k) && store[k] == c,
                    None => !store.contains_key(k),
                },
                None => !store.contains_key(k),
            } by {
            if out@.contains_key(k) {
                let a = choose|a: int| 0 <= a < n && #[trigger] listed[a].0 == k;
                assert(counted_in(listed[a].1) is Some);
            }
            if v@.get(k) is Some {
                let m = v@->Object_0;
                assert(m.contains_key(k));
                let a = choose|a: int| 0 <= a < listed.len() && #[trigger] listed[a].0 == k;
                assert(listed[a].1 == m[k]);
            }
        }
    }
    out
}

/// The document of a store.
pub open spec fn store_document(store: Map<Seq<char>, CountedView>) -> JsonView {
    JsonView::Object(store.map_values(|c: CountedView| counted_document(c)))
}

/// The document of a store.
pub fn save_document(store: &CounterStore) -> (r: Json)
    ensures
        r@ == store_document(counted_views(store@)),
{
    let n: usize = store.len();
    let ghost kept = in_order(store@);
    let mut out = members();
    let mut i: usize = 0;
    while i < n
        invariant
            i <= n,
            n == kept.len(),
            kept == in_order(store@),
            lists(kept, store@),
            forall|k: Seq<char>|
                out@.contains_key(k) <==> exists|a: int| 0 <= a < i && #[trigger] kept[a].0 == k,
            forall|k: Seq<char>| #[trigger]
                out@.contains_key(k) ==> store@.contains_key(k) && out@[k] == counted_document(
                    store@[k]@,
                ),
        decreases n - i,
    {
        let (key, c) = store.at(i);
        assert(kept[i as int] == (key@, *c));
        assert(store@.contains_key(kept[i as int].0));
        let value = members().put("count", Json::Uint(c.count)).put_text(
            "result_ref",
            c.result_ref.as_str(),
        ).object();
        let ghost before = out@;
        out = out.put(key.as_str(), value);
        i += 1;
        assert forall|k: Seq<char>| out@.contains_key(k) <==> exists|a: int|
            0 <= a < i && #[trigger] kept[a].0 == k by {
            if k == key@ {
                assert(kept[i - 1].0 == k);
            }
            if before.contains_key(k) {
                let a = choose|a: int| 0 <= a < i - 1 && #[trigger] kept[a].0 == k;
                assert(kept[a].0 == k);
            }
            if exists|a: int| 0 <= a < i && #[trigger] kept[a].0 == k {
                let a = choose|a: int| 0 <= a < i && #[trigger] kept[a].0 == k;
                if a < i - 1 {
                    assert(before.contains_key(k));
                }
            }
        }
    }
    proof {
        let target = store_document(counted_views(store@))->Object_0;
        assert forall|k: Seq<char>| target.contains_key(k) <==> out@.contains_key(k) by {
            if store@.contains_key(k) {
                let a = choose|a: int| 0 <= a < kept.len() && #[trigger] kept[a].0 == k;
                assert(kept[a].0 == k);
            }
        }
        assert(out@ =~= target);
    }
    out.object()
}

// ---------------------------------------------------------------------------
// What holds of every execution
// ---------------------------------------------------------------------------

/// The document of a store holds the store, and no other.
pub proof fn saved_is_loaded(store: Map<Seq<char>, CountedView>, loaded: Map<Seq<char>, CountedView>)
    ensures
        holds_document(loaded, Some(store_document(store))) <==> loaded == store,
{
    reveal_strlit("count");
    reveal_strlit("result_ref");
    assert("count"@.len() != "result_ref"@.len());
    let doc = store_document(store);
    assert forall|k: Seq<char>| #[trigger] store.contains_key(k) implies doc.get(k) is Some && counted_in(
        doc.get(k)->0,
    ) == Some(store[k]) by {
        let c = store[k];
        let v = counted_document(c);
        assert(doc.get(k) == Some(v));
        assert(v.get("count"@) == Some(JsonView::Uint(c.count)));
        assert(v.text_at("result_ref"@) == Some(c.result_ref));
    }
    assert forall|k: Seq<char>| !store.contains_key(k) implies (#[trigger] doc.get(k)) is None by {}
    if holds_document(loaded, Some(doc)) {
        assert forall|k: Seq<char>| loaded.contains_key(k) == store.contains_key(k) && (
        store.contains_key(k) ==> loaded[k] == store[k]) by {
            if store.contains_key(k) {
                assert(doc.get(k) is Some);
            } else {
                assert(doc.get(k) is None);
            }
        }
        assert(loaded =~= store);
    }
}

/// A repeated operation counts once: the second request changes nothing and has
/// the first result.
pub proof fn counted_once(
    store: Map<Seq<char>, CountedView>,
    operation_id: Seq<char>,
    token: u64,
    again_token: u64,
    min_fence: u64,
)
    requires
        token >= min_fence,
        again_token >= min_fence,
    ensures
        ({
            let (after, outcome) = executed(store, operation_id, token, min_fence);
            executed(after, operation_id, again_token, min_fence) == (after, outcome)
        }),
{
}

/// A request with a stale fencing token changes nothing.
pub proof fn stale_tokens_change_nothing(
    store: Map<Seq<char>, CountedView>,
    operation_id: Seq<char>,
    token: u64,
    min_fence: u64,
)
    requires
        token < min_fence,
    ensures
        executed(store, operation_id, token, min_fence) == (store, failed("fencing_rejected"@)),
{
}

/// Whether the operations of a store have the numbers from one on, each once.
pub open spec fn is_numbered(store: Map<Seq<char>, CountedView>) -> bool {
    &&& store.dom().finite()
    &&& forall|k: Seq<char>| #[trigger] store.contains_key(k) ==> 1 <= store[k].count <= store.len()
    &&& forall|a: Seq<char>, b: Seq<char>|
        #![trigger store[a], store[b]]
        store.contains_key(a) && store.contains_key(b) && store[a].count == store[b].count ==> a == b
}

/// Every request leaves the operations numbered from one on, each once.
pub proof fn numbering_is_kept(
    store: Map<Seq<char>, CountedView>,
    operation_id: Seq<char>,
    token: u64,
    min_fence: u64,
)
    requires
        is_numbered(store),
        store.len() < u64::MAX,
    ensures
        is_numbered(executed(store, operation_id, token, min_fence).0),
{
    let after = executed(store, operation_id, token, min_fence).0;
    if after != store {
        assert(after.len() == store.len() + 1);
        assert forall|a: Seq<char>, b: Seq<char>|
            #![trigger after[a], after[b]]
            after.contains_key(a) && after.contains_key(b) && after[a].count == after[b].count implies a
            == b by {
            if a != operation_id {
                assert(store.contains_key(a));
            }
            if b != operation_id {
                assert(store.contains_key(b));
            }
            if a != operation_id && b != operation_id {
                assert(store[a] == after[a] && store[b] == after[b]);
            }
        }
    }
}

/// An effect whose answer was lost is recovered by asking for its status.
pub proof fn status_recovers_the_effect(
    store: Map<Seq<char>, CountedView>,
    operation_id: Seq<char>,
    token: u64,
    min_fence: u64,
)
    requires
        token >= min_fence,
    ensures
        ({
            let (after, outcome) = executed(store, operation_id, token, min_fence);
            &&& outcome.status == "succeeded"@
            &&& report(after, operation_id) == outcome
        }),
{
}

} // verus!
