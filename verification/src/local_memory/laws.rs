//! What the memory does with each request, record by record.

use vstd::prelude::*;
use vstd::utf8::encode_utf8;

use crate::base64::encoded;
use crate::effects::ExecutionRequest;
use crate::json::{printed, JsonView};
use crate::local_memory::{
    entry, every, executed, holding, is_space_name, listing, rank_of, MemoryView,
};
use crate::ordered::{in_order, lists};
use crate::text::{find, find_is_first, lowercase, occurs_at, text_less};

verus! {

/// Whether a record stands under an id of a space.
pub open spec fn has_record(store: MemoryView, space: Seq<char>, id: Seq<char>) -> bool {
    store.memory.contains_key(space) && store.memory[space].contains_key(id)
}

/// The id that a request names: its own, where it names none.
pub open spec fn id_named(payload: JsonView, req: ExecutionRequest) -> Seq<char> {
    if let Some(id) = payload.text_at("memory_id"@) {
        id
    } else {
        req.operation_id@
    }
}

/// A name of a space has one to sixty-four characters, each a small letter, a digit, or
/// behind the first one a dot, an underscore or a hyphen; and every such name is one.
pub proof fn space_names_are_plain(name: Seq<char>)
    ensures
        is_space_name(name) <==> 1 <= name.len() <= 64 && forall|i: int|
            0 <= i < name.len() ==> ('a' <= #[trigger] name[i] <= 'z' || '0' <= name[i] <= '9' || i > 0
                && (name[i] == '.' || name[i] == '_' || name[i] == '-')),
{
}

/// A request changes at most the record under the id that it names: every other record of
/// the same space, and every record of another one, is there afterwards exactly where it was
/// before, and as it was.
pub proof fn other_records_are_kept(
    store: MemoryView,
    req: ExecutionRequest,
    payload: Option<JsonView>,
    now_ms: i64,
    space: Seq<char>,
    id: Seq<char>,
)
    requires
        payload matches Some(p) ==> p.text_at("namespace"@) != Some(space) || id_named(p, req) != id,
    ensures
        ({
            let after = executed(store, req, payload, now_ms).0;
            &&& has_record(after, space, id) == has_record(store, space, id)
            &&& has_record(store, space, id) ==> after.memory[space][id] == store.memory[space][id]
        }),
{
}

/// Reading, listing and searching change no record at all.
pub proof fn reading_changes_no_record(
    store: MemoryView,
    req: ExecutionRequest,
    payload: JsonView,
    now_ms: i64,
    space: Seq<char>,
    id: Seq<char>,
)
    requires
        payload.text_at("op"@) == Some("memory.get"@) || payload.text_at("op"@) == Some("memory.list"@)
            || payload.text_at("op"@) == Some("memory.search"@),
    ensures
        ({
            let after = executed(store, req, Some(payload), now_ms).0;
            &&& has_record(after, space, id) == has_record(store, space, id)
            &&& has_record(store, space, id) ==> after.memory[space][id] == store.memory[space][id]
        }),
{
    reveal_strlit("memory.put");
    reveal_strlit("memory.get");
    reveal_strlit("memory.delete");
    reveal_strlit("memory.list");
    reveal_strlit("memory.search");
    assert("memory.put"@.len() == 10 && "memory.get"@.len() == 10 && "memory.delete"@.len() == 13
        && "memory.list"@.len() == 11 && "memory.search"@.len() == 13);
    assert("memory.put"@[7] != "memory.get"@[7]);
    assert("memory.delete"@[7] != "memory.search"@[7]);
}

/// A put of a record with a known class under an id that is free keeps the record itself,
/// with its class, which is internal where none is named, and with its provenance: the effect,
/// the operation and the token of the request, and the time.
pub proof fn puts_keep_the_record(
    store: MemoryView,
    req: ExecutionRequest,
    payload: JsonView,
    now_ms: i64,
    space: Seq<char>,
    record: JsonView,
    class: Seq<char>,
)
    requires
        !store.ops.contains_key(req.operation_id@),
        payload.text_at("op"@) == Some("memory.put"@),
        payload.text_at("namespace"@) == Some(space),
        is_space_name(space),
        payload.get("record"@) == Some(record),
        payload.text_at("sensitivity"@) == Some(class) || payload.text_at("sensitivity"@) is None && class
            == "internal"@,
        class == "public"@ || class == "internal"@ || class == "confidential"@ || class == "secret"@,
        !has_record(store, space, id_named(payload, req)),
    ensures
        ({
            let (after, outcome) = executed(store, req, Some(payload), now_ms);
            let id = id_named(payload, req);
            let kept = after.memory[space][id];
            let source = kept.get("provenance"@)->0;
            &&& outcome.status == "succeeded"@
            &&& outcome.error_code.len() == 0
            &&& outcome.result_ref == "memory://"@ + space + "/"@ + id
            &&& has_record(after, space, id)
            &&& kept.get("record"@) == Some(record)
            &&& kept.text_at("sensitivity"@) == Some(class)
            &&& kept.get("provenance"@) is Some
            &&& source.text_at("effect_id"@) == Some(req.effect_id@)
            &&& source.text_at("operation_id"@) == Some(req.operation_id@)
            &&& source.get("fencing_token"@) == Some(JsonView::Uint(req.fencing_token))
            &&& source.get("written_at_ms"@) matches Some(t) && t.as_i64() == Some(now_ms)
        }),
{
    reveal_strlit("memory.");
    reveal_strlit("memory.put");
    reveal_strlit("memory.get");
    assert("memory."@.len() == 7 && "memory.put"@.len() == 10 && "memory.get"@.len() == 10);
    assert("memory.put"@[7] != "memory.get"@[7]);
    assert("memory.put"@.subrange(0, 7) =~= "memory."@);
    reveal_strlit("record");
    reveal_strlit("sensitivity");
    reveal_strlit("provenance");
    assert("record"@.len() == 6 && "sensitivity"@.len() == 11 && "provenance"@.len() == 10);
    reveal_strlit("effect_id");
    reveal_strlit("operation_id");
    reveal_strlit("fencing_token");
    reveal_strlit("written_at_ms");
    assert("effect_id"@.len() == 9 && "operation_id"@.len() == 12 && "fencing_token"@.len() == 13
        && "written_at_ms"@.len() == 13);
    assert("fencing_token"@[0] != "written_at_ms"@[0]);
    reveal_strlit("public");
    reveal_strlit("internal");
    reveal_strlit("confidential");
    reveal_strlit("secret");
    assert("public"@.len() == 6 && "internal"@.len() == 8 && "confidential"@.len() == 12
        && "secret"@.len() == 6);
    assert("public"@[0] != "secret"@[0]);
}

/// The classes of records, the least sensitive first.
pub open spec fn classes() -> Seq<Seq<char>> {
    seq!["public"@, "internal"@, "confidential"@, "secret"@]
}

/// A put over a record of a known class is refused exactly where its own class comes before
/// that one.
pub proof fn puts_never_lower_the_class(
    store: MemoryView,
    req: ExecutionRequest,
    payload: JsonView,
    now_ms: i64,
    space: Seq<char>,
    kept: int,
    asked: int,
)
    requires
        !store.ops.contains_key(req.operation_id@),
        payload.text_at("op"@) == Some("memory.put"@),
        payload.text_at("namespace"@) == Some(space),
        is_space_name(space),
        payload.get("record"@) is Some,
        0 <= kept < 4,
        0 <= asked < 4,
        payload.text_at("sensitivity"@) == Some(classes()[asked]),
        has_record(store, space, id_named(payload, req)),
        store.memory[space][id_named(payload, req)].text_at("sensitivity"@) == Some(classes()[kept]),
    ensures
        ({
            let (after, outcome) = executed(store, req, Some(payload), now_ms);
            &&& asked < kept ==> after == store && outcome.status == "failed"@ && outcome.error_code
                == "sensitivity_downgrade"@
            &&& asked >= kept ==> outcome.status == "succeeded"@
                && after.memory[space][id_named(payload, req)].get("record"@) == payload.get("record"@)
                && after.memory[space][id_named(payload, req)].text_at("sensitivity"@) == Some(
                classes()[asked],
            )
        }),
{
    reveal_strlit("memory.");
    reveal_strlit("memory.put");
    reveal_strlit("memory.get");
    assert("memory."@.len() == 7 && "memory.put"@.len() == 10 && "memory.get"@.len() == 10);
    assert("memory.put"@[7] != "memory.get"@[7]);
    assert("memory.put"@.subrange(0, 7) =~= "memory."@);
    reveal_strlit("record");
    reveal_strlit("sensitivity");
    reveal_strlit("provenance");
    assert("record"@.len() == 6 && "sensitivity"@.len() == 11 && "provenance"@.len() == 10);
    reveal_strlit("public");
    reveal_strlit("internal");
    reveal_strlit("confidential");
    reveal_strlit("secret");
    assert("public"@.len() == 6 && "internal"@.len() == 8 && "confidential"@.len() == 12
        && "secret"@.len() == 6);
    assert("public"@[0] != "secret"@[0]);
}

/// A get gives the record that stands under the id, as a document, and fails as not found
/// where there is none.
pub proof fn gets_give_the_record(
    store: MemoryView,
    req: ExecutionRequest,
    payload: JsonView,
    now_ms: i64,
    space: Seq<char>,
    id: Seq<char>,
)
    requires
        !store.ops.contains_key(req.operation_id@),
        payload.text_at("op"@) == Some("memory.get"@),
        payload.text_at("namespace"@) == Some(space),
        is_space_name(space),
        payload.text_at("memory_id"@) == Some(id),
    ensures
        ({
            let outcome = executed(store, req, Some(payload), now_ms).1;
            &&& has_record(store, space, id) ==> outcome.status == "succeeded"@ && outcome.result_ref
                == "data:application/json;base64,"@ + encoded(
                encode_utf8(printed(store.memory[space][id])),
            )
            &&& !has_record(store, space, id) ==> outcome.status == "failed"@ && outcome.error_code
                == "not_found"@ && outcome.result_ref.len() == 0
        }),
{
    reveal_strlit("memory.");
    reveal_strlit("memory.put");
    reveal_strlit("memory.get");
    assert("memory."@.len() == 7 && "memory.put"@.len() == 10 && "memory.get"@.len() == 10);
    assert("memory.put"@[7] != "memory.get"@[7]);
    assert("memory.get"@.subrange(0, 7) =~= "memory."@);
}

/// A delete takes the record under the id away, and succeeds also where there is none.
pub proof fn deletes_take_the_record_away(
    store: MemoryView,
    req: ExecutionRequest,
    payload: JsonView,
    now_ms: i64,
    space: Seq<char>,
    id: Seq<char>,
)
    requires
        !store.ops.contains_key(req.operation_id@),
        payload.text_at("op"@) == Some("memory.delete"@),
        payload.text_at("namespace"@) == Some(space),
        is_space_name(space),
        payload.text_at("memory_id"@) == Some(id),
    ensures
        ({
            let (after, outcome) = executed(store, req, Some(payload), now_ms);
            &&& outcome.status == "succeeded"@
            &&& outcome.result_ref == "memory://"@ + space + "/"@ + id
            &&& !has_record(after, space, id)
        }),
{
    reveal_strlit("memory.");
    reveal_strlit("memory.put");
    reveal_strlit("memory.get");
    reveal_strlit("memory.delete");
    assert("memory."@.len() == 7 && "memory.put"@.len() == 10 && "memory.get"@.len() == 10
        && "memory.delete"@.len() == 13);
    assert("memory.put"@[7] != "memory.get"@[7]);
    assert("memory.delete"@.subrange(0, 7) =~= "memory."@);
}

/// A request is refused for its form alone: a payload that is no JSON, an operation that is
/// not one of the five, a name that is no space's, and a record, a class or an id that is
/// missing or unknown. A refused request leaves everything as it was.
pub proof fn malformed_requests_are_refused(
    store: MemoryView,
    req: ExecutionRequest,
    payload: JsonView,
    now_ms: i64,
    op: Seq<char>,
    space: Seq<char>,
)
    requires
        !store.ops.contains_key(req.operation_id@),
        payload.text_at("op"@) == Some(op),
        payload.text_at("namespace"@) == Some(space),
    ensures
        executed(store, req, None, now_ms).0 == store,
        executed(store, req, None, now_ms).1.status == "failed"@,
        executed(store, req, None, now_ms).1.error_code == "invalid_argument"@,
        ({
            let (after, outcome) = executed(store, req, Some(payload), now_ms);
            let known = op == "memory.put"@ || op == "memory.get"@ || op == "memory.delete"@ || op
                == "memory.list"@ || op == "memory.search"@;
            &&& !known || !is_space_name(space) ==> after == store && outcome.status == "failed"@
                && outcome.error_code == "unsupported_operation"@
            &&& known && is_space_name(space) && op == "memory.put"@ && payload.get("record"@) is None
                ==> after == store && outcome.status == "failed"@ && outcome.error_code
                == "invalid_argument"@
            &&& known && is_space_name(space) && (op == "memory.get"@ || op == "memory.delete"@)
                && payload.text_at("memory_id"@) is None ==> after == store && outcome.status
                == "failed"@ && outcome.error_code == "invalid_argument"@
            &&& is_space_name(space) && op == "memory.put"@ && payload.get("record"@) is Some && (
            payload.text_at("sensitivity"@) matches Some(c) && !classes().contains(c)) ==> after == store
                && outcome.status == "failed"@ && outcome.error_code == "invalid_sensitivity"@
            &&& is_space_name(space) && (op == "memory.list"@ || op == "memory.search"@) ==> outcome.status
                == "succeeded"@
        }),
{
    reveal_strlit("memory.");
    reveal_strlit("memory.put");
    reveal_strlit("memory.get");
    reveal_strlit("memory.delete");
    reveal_strlit("memory.list");
    reveal_strlit("memory.search");
    assert("memory."@.len() == 7 && "memory.put"@.len() == 10 && "memory.get"@.len() == 10
        && "memory.delete"@.len() == 13 && "memory.list"@.len() == 11 && "memory.search"@.len() == 13);
    assert("memory.put"@[7] != "memory.get"@[7]);
    assert("memory.delete"@[7] != "memory.search"@[7]);
    assert("memory.put"@.subrange(0, 7) =~= "memory."@);
    assert("memory.get"@.subrange(0, 7) =~= "memory."@);
    assert("memory.delete"@.subrange(0, 7) =~= "memory."@);
    assert("memory.list"@.subrange(0, 7) =~= "memory."@);
    assert("memory.search"@.subrange(0, 7) =~= "memory."@);
    if let Some(c) = payload.text_at("sensitivity"@) {
        if rank_of(c) is Some {
            let at = rank_of(c)->0;
            assert(classes()[at as int] == c);
        }
    }
}

proof fn listed_entries(
    records: Seq<(Seq<char>, JsonView)>,
    keep: spec_fn(Seq<char>, JsonView) -> bool,
)
    requires
        forall|i: int, j: int|
            #![trigger records[i], records[j]]
            0 <= i < j < records.len() ==> text_less(records[i].0, records[j].0),
    ensures
        forall|i: int|
            0 <= i < listing(records, keep).len() ==> exists|n: int|
                0 <= n < records.len() && keep((#[trigger] records[n]).0, records[n].1) && #[trigger] listing(
                    records,
                    keep,
                )[i] == entry(records[n].0, records[n].1),
        forall|n: int|
            0 <= n < records.len() && keep((#[trigger] records[n]).0, records[n].1) ==> listing(
                records,
                keep,
            ).contains(entry(records[n].0, records[n].1)),
        (forall|n: int| 0 <= n < records.len() ==> keep((#[trigger] records[n]).0, records[n].1))
            ==> listing(records, keep).len() == records.len(),
    decreases records.len(),
{
    let all = listing(records, keep);
    if records.len() > 0 {
        let front = records.drop_last();
        let some = listing(front, keep);
        assert forall|i: int, j: int|
            #![trigger front[i], front[j]]
            0 <= i < j < front.len() implies text_less(front[i].0, front[j].0) by {
            assert(text_less(records[i].0, records[j].0));
        }
        listed_entries(front, keep);
        assert forall|i: int| 0 <= i < all.len() implies exists|n: int|
            0 <= n < records.len() && keep((#[trigger] records[n]).0, records[n].1) && #[trigger] all[i]
                == entry(records[n].0, records[n].1) by {
            if i < some.len() {
                assert(all[i] == some[i]);
                let n = choose|n: int|
                    0 <= n < front.len() && keep((#[trigger] front[n]).0, front[n].1) && some[i] == entry(
                        front[n].0,
                        front[n].1,
                    );
                assert(records[n] == front[n]);
            } else {
                let n = records.len() - 1;
                assert(keep(records[n].0, records[n].1));
            }
        }
        assert forall|n: int|
            0 <= n < records.len() && keep((#[trigger] records[n]).0, records[n].1) implies all.contains(
            entry(records[n].0, records[n].1),
        ) by {
            if n < front.len() {
                assert(front[n] == records[n]);
                assert(some.contains(entry(front[n].0, front[n].1)));
                let i = choose|i: int| 0 <= i < some.len() && some[i] == entry(front[n].0, front[n].1);
                assert(all[i] == some[i]);
            } else {
                assert(all[all.len() - 1] == entry(records[n].0, records[n].1));
            }
        }
        if forall|n: int| 0 <= n < records.len() ==> keep((#[trigger] records[n]).0, records[n].1) {
            assert forall|n: int| 0 <= n < front.len() implies keep((#[trigger] front[n]).0, front[n].1) by {
                assert(records[n] == front[n]);
            }
            assert(keep(records[records.len() - 1].0, records[records.len() - 1].1));
        }
    }
}

/// An entry of a listing tells the id of a record and its class, which is internal where the
/// record has none.
pub proof fn entries_tell_id_and_class(id: Seq<char>, kept: JsonView)
    ensures
        entry(id, kept).text_at("id"@) == Some(id),
        entry(id, kept).text_at("sensitivity"@) == (if kept.text_at("sensitivity"@) is Some {
            kept.text_at("sensitivity"@)
        } else {
            Some("internal"@)
        }),
        entry(id, kept) matches JsonView::Object(m) && m.dom() == set!["id"@, "sensitivity"@],
{
    reveal_strlit("id");
    reveal_strlit("sensitivity");
    assert("id"@.len() == 2 && "sensitivity"@.len() == 11);
    assert(entry(id, kept)->Object_0.dom() =~= set!["id"@, "sensitivity"@]);
}

/// A listing of a space has one entry for every record and no other ones, and a search has
/// one for every record whose id or text holds what is asked for, in whatever case.
pub proof fn listings_are_whole(space: Map<Seq<char>, JsonView>, needle: Seq<char>, id: Seq<char>)
    requires
        exists|s: Seq<(Seq<char>, JsonView)>| lists(s, space),
    ensures
        listing(in_order(space), every()).len() == space.dom().len(),
        space.contains_key(id) ==> listing(in_order(space), every()).contains(entry(id, space[id])),
        forall|i: int|
            0 <= i < listing(in_order(space), every()).len() ==> exists|k: Seq<char>| #[trigger]
                space.contains_key(k) && #[trigger] listing(in_order(space), every())[i] == entry(
                    k,
                    space[k],
                ),
        space.contains_key(id) && ((exists|at: int| occurs_at(lowercase(id), needle, at)) || exists|at: int|
            occurs_at(lowercase(printed(space[id])), needle, at)) ==> listing(
            in_order(space),
            holding(needle),
        ).contains(entry(id, space[id])),
        forall|i: int|
            0 <= i < listing(in_order(space), holding(needle)).len() ==> exists|k: Seq<char>| #[trigger]
                space.contains_key(k) && #[trigger] listing(in_order(space), holding(needle))[i] == entry(
                    k,
                    space[k],
                ) && ((exists|at: int| occurs_at(lowercase(k), needle, at)) || exists|at: int|
                    occurs_at(lowercase(printed(space[k])), needle, at)),
{
    let records = in_order(space);
    assert(lists(records, space));
    crate::ordered::listing_length(records, space);
    assert forall|i: int, j: int|
        #![trigger records[i], records[j]]
        0 <= i < j < records.len() implies text_less(records[i].0, records[j].0) by {}
    listed_entries(records, every());
    listed_entries(records, holding(needle));
    if space.contains_key(id) {
        let n = choose|n: int| 0 <= n < records.len() && #[trigger] records[n].0 == id;
        assert(records[n].1 == space[id]);
        assert(every()(records[n].0, records[n].1));
        find_is_first(lowercase(id), needle, 0);
        find_is_first(lowercase(printed(space[id])), needle, 0);
        if (exists|at: int| occurs_at(lowercase(id), needle, at)) || exists|at: int|
            occurs_at(lowercase(printed(space[id])), needle, at) {
            assert(holding(needle)(records[n].0, records[n].1));
        }
    }
    assert forall|i: int| 0 <= i < listing(records, every()).len() implies exists|k: Seq<char>| #[trigger]
        space.contains_key(k) && #[trigger] listing(records, every())[i] == entry(k, space[k]) by {
        let n = choose|n: int|
            0 <= n < records.len() && every()((#[trigger] records[n]).0, records[n].1) && listing(
                records,
                every(),
            )[i] == entry(records[n].0, records[n].1);
        assert(space.contains_key(records[n].0));
    }
    let found = listing(records, holding(needle));
    assert forall|i: int| 0 <= i < found.len() implies exists|k: Seq<char>| #[trigger]
        space.contains_key(k) && #[trigger] found[i] == entry(k, space[k]) && ((exists|at: int|
            occurs_at(lowercase(k), needle, at)) || exists|at: int|
            occurs_at(lowercase(printed(space[k])), needle, at)) by {
        let n = choose|n: int|
            0 <= n < records.len() && holding(needle)((#[trigger] records[n]).0, records[n].1) && found[i]
                == entry(records[n].0, records[n].1);
        let k = records[n].0;
        assert(space.contains_key(k));
        find_is_first(lowercase(k), needle, 0);
        find_is_first(lowercase(printed(space[k])), needle, 0);
        if find(lowercase(k), needle) is Some {
            assert(occurs_at(lowercase(k), needle, find(lowercase(k), needle)->0));
        } else {
            assert(occurs_at(
                lowercase(printed(space[k])),
                needle,
                find(lowercase(printed(space[k])), needle)->0,
            ));
        }
    }
}

/// A list and a search of a space are answered with its listing, as a document.
pub proof fn listings_are_answered(
    store: MemoryView,
    req: ExecutionRequest,
    payload: JsonView,
    now_ms: i64,
    space: Seq<char>,
)
    requires
        !store.ops.contains_key(req.operation_id@),
        payload.text_at("namespace"@) == Some(space),
        is_space_name(space),
        store.memory.contains_key(space),
    ensures
        ({
            let outcome = executed(store, req, Some(payload), now_ms).1;
            let asked = if let Some(q) = payload.get("query"@) {
                if let Some(t) = q.text_at("text"@) {
                    t
                } else {
                    Seq::empty()
                }
            } else {
                Seq::empty()
            };
            let records = in_order(store.memory[space]);
            &&& payload.text_at("op"@) == Some("memory.list"@) ==> outcome.status == "succeeded"@
                && outcome.result_ref == "data:application/json;base64,"@ + encoded(
                encode_utf8(printed(JsonView::Array(listing(records, every())))),
            )
            &&& payload.text_at("op"@) == Some("memory.search"@) ==> outcome.status == "succeeded"@
                && outcome.result_ref == "data:application/json;base64,"@ + encoded(
                encode_utf8(printed(JsonView::Array(listing(records, holding(lowercase(asked)))))),
            )
        }),
{
    reveal_strlit("memory.");
    reveal_strlit("memory.put");
    reveal_strlit("memory.get");
    reveal_strlit("memory.delete");
    reveal_strlit("memory.list");
    reveal_strlit("memory.search");
    assert("memory."@.len() == 7 && "memory.put"@.len() == 10 && "memory.get"@.len() == 10
        && "memory.delete"@.len() == 13 && "memory.list"@.len() == 11 && "memory.search"@.len() == 13);
    assert("memory.put"@[7] != "memory.get"@[7]);
    assert("memory.delete"@[7] != "memory.search"@[7]);
    assert("memory.list"@.subrange(0, 7) =~= "memory."@);
    assert("memory.search"@.subrange(0, 7) =~= "memory."@);
}

/// A put that succeeds keeps the record with its class and where it comes from, whatever was kept
/// under the id before.
pub proof fn puts_replace_the_record(
    store: MemoryView,
    req: ExecutionRequest,
    payload: JsonView,
    now_ms: i64,
    space: Seq<char>,
)
    requires
        !store.ops.contains_key(req.operation_id@),
        payload.text_at("op"@) == Some("memory.put"@),
        payload.text_at("namespace"@) == Some(space),
        executed(store, req, Some(payload), now_ms).1.status == "succeeded"@,
    ensures
        ({
            let (after, outcome) = executed(store, req, Some(payload), now_ms);
            let id = id_named(payload, req);
            let kept = after.memory[space][id];
            let source = kept.get("provenance"@)->0;
            &&& outcome.result_ref == "memory://"@ + space + "/"@ + id
            &&& has_record(after, space, id)
            &&& kept.get("record"@) == payload.get("record"@)
            &&& kept.text_at("sensitivity"@) == (if payload.text_at("sensitivity"@) is Some {
                payload.text_at("sensitivity"@)
            } else {
                Some("internal"@)
            })
            &&& kept.get("provenance"@) is Some
            &&& source.text_at("effect_id"@) == Some(req.effect_id@)
            &&& source.text_at("operation_id"@) == Some(req.operation_id@)
            &&& source.get("fencing_token"@) == Some(JsonView::Uint(req.fencing_token))
            &&& source.get("written_at_ms"@) matches Some(t) && t.as_i64() == Some(now_ms)
        }),
{
    reveal_strlit("succeeded");
    reveal_strlit("failed");
    assert("succeeded"@.len() == 9 && "failed"@.len() == 6);
    reveal_strlit("record");
    reveal_strlit("sensitivity");
    reveal_strlit("provenance");
    assert("record"@.len() == 6 && "sensitivity"@.len() == 11 && "provenance"@.len() == 10);
    reveal_strlit("effect_id");
    reveal_strlit("operation_id");
    reveal_strlit("fencing_token");
    reveal_strlit("written_at_ms");
    assert("effect_id"@.len() == 9 && "operation_id"@.len() == 12 && "fencing_token"@.len() == 13
        && "written_at_ms"@.len() == 13);
    assert("fencing_token"@[0] != "written_at_ms"@[0]);
}

/// A record that was kept without a class, or with one that is not known, counts as an internal
/// one.
pub proof fn records_are_internal_at_least(
    store: MemoryView,
    req: ExecutionRequest,
    payload: JsonView,
    now_ms: i64,
    space: Seq<char>,
)
    requires
        !store.ops.contains_key(req.operation_id@),
        payload.text_at("op"@) == Some("memory.put"@),
        payload.text_at("namespace"@) == Some(space),
        is_space_name(space),
        payload.get("record"@) is Some,
        has_record(store, space, id_named(payload, req)),
        store.memory[space][id_named(payload, req)].text_at("sensitivity"@) matches Some(c) ==> c
            != "public"@ && c != "confidential"@ && c != "secret"@,
    ensures
        payload.text_at("sensitivity"@) == Some("public"@)
            ==> executed(store, req, Some(payload), now_ms).1.error_code
            == "sensitivity_downgrade"@,
        payload.text_at("sensitivity"@) == Some("internal"@) ==> executed(
            store,
            req,
            Some(payload),
            now_ms,
        ).1.status == "succeeded"@,
{
    reveal_strlit("public");
    reveal_strlit("internal");
    reveal_strlit("confidential");
    reveal_strlit("secret");
    assert("public"@.len() == 6 && "internal"@.len() == 8 && "confidential"@.len() == 12
        && "secret"@.len() == 6);
    assert("public"@[0] != "secret"@[0]);
    reveal_strlit("memory.put");
    reveal_strlit("memory.");
    assert("memory.put"@.subrange(0, 7) =~= "memory."@);
}

/// A listing tells of the records in their order, of each that it keeps once and of no other.
pub proof fn listings_go_record_by_record(
    records: Seq<(Seq<char>, JsonView)>,
    id: Seq<char>,
    kept: JsonView,
    keep: spec_fn(Seq<char>, JsonView) -> bool,
)
    ensures
        listing(Seq::empty(), keep).len() == 0,
        keep(id, kept) ==> listing(records.push((id, kept)), keep) == listing(records, keep).push(
            entry(id, kept),
        ),
        !keep(id, kept) ==> listing(records.push((id, kept)), keep) == listing(records, keep),
{
    assert(records.push((id, kept)).drop_last() =~= records);
}

/// A request leaves what is known of every other operation.
pub proof fn other_operations_are_kept(
    store: MemoryView,
    req: ExecutionRequest,
    payload: Option<JsonView>,
    now_ms: i64,
    other: Seq<char>,
)
    requires
        other != req.operation_id@,
    ensures
        ({
            let after = executed(store, req, payload, now_ms).0.ops;
            &&& after.contains_key(other) == store.ops.contains_key(other)
            &&& store.ops.contains_key(other) ==> after[other] == store.ops[other]
        }),
{
}

} // verus!
