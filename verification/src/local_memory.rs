//! An effect adapter that keeps records in named spaces of memory.
//!
//! The operations `memory.put`, `memory.get`, `memory.delete`, `memory.list` and
//! `memory.search` work on one space. A record is kept in an envelope with its
//! sensitivity and its provenance, and a put never lowers the sensitivity. An
//! operation that succeeded is answered from the store when it is asked again.

use vstd::prelude::*;
use vstd::string::*;
use vstd::utf8::encode_utf8;

use crate::base64::{base64_encode, encoded};
use crate::effects::{
    failed, failure, op_views, replay, report, responds, succeed, success, success_record, ExecutionRequest,
    ExecutionResponse, OpStore, OpView,
};
use crate::json::{
    doc_views, items, listing_of_views, members, number, number_json, pair_views, parsed_bytes, printed, Json, JsonView,
};
use crate::ordered::{in_order, TextMap};
use crate::text::{
    begins_with, chars_of, contains, holds, join, lowercase, same_text, starts_with, to_lowercase,
};

pub mod laws;

verus! {

/// The finished operations, and the records of each space by their ids.
#[derive(Debug)]
pub struct MemoryStore {
    pub ops: OpStore,
    pub memory: TextMap<TextMap<Json>>,
}

/// The records of each space by their values.
pub open spec fn space_views(m: Map<Seq<char>, TextMap<Json>>) -> Map<
    Seq<char>,
    Map<Seq<char>, JsonView>,
> {
    m.map_values(|t: TextMap<Json>| doc_views(t@))
}

/// The value of a [`MemoryStore`].
#[verifier::ext_equal]
pub struct MemoryView {
    pub ops: Map<Seq<char>, OpView>,
    pub memory: Map<Seq<char>, Map<Seq<char>, JsonView>>,
}

impl View for MemoryStore {
    type V = MemoryView;

    open spec fn view(&self) -> MemoryView {
        MemoryView { ops: op_views(self.ops@), memory: space_views(self.memory@) }
    }
}

impl MemoryStore {
    /// A store without operations and records.
    pub fn new() -> (r: Self)
        ensures
            r@ == (MemoryView { ops: Map::empty(), memory: Map::empty() }),
    {
        let r = MemoryStore { ops: TextMap::new(), memory: TextMap::new() };
        assert(r@ =~= MemoryView { ops: Map::empty(), memory: Map::empty() });
        r
    }
}

// ---------------------------------------------------------------------------
// Names and classes
// ---------------------------------------------------------------------------

/// Whether `c` may stand in the name of a space; a space does not begin with
/// punctuation.
pub open spec fn is_space_name_char(c: char, first: bool) -> bool {
    ||| 'a' <= c <= 'z'
    ||| '0' <= c <= '9'
    ||| !first && (c == '.' || c == '_' || c == '-')
}

/// Whether `name` names a space: one to 64 lower-case letters, digits, dots,
/// underscores and hyphens, the first a letter or a digit.
pub open spec fn is_space_name(name: Seq<char>) -> bool {
    &&& 1 <= name.len() <= 64
    &&& forall|i: int| 0 <= i < name.len() ==> is_space_name_char(#[trigger] name[i], i == 0)
}

/// Whether `ns` names a space.
pub fn valid_namespace(ns: &str) -> (r: bool)
    ensures
        r == is_space_name(ns@),
{
    let cs = chars_of(ns);
    if cs.len() == 0 || cs.len() > 64 {
        return false;
    }
    let mut i: usize = 0;
    while i < cs.len()
        invariant
            i <= cs.len(),
            cs@ == ns@,
            forall|k: int| 0 <= k < i ==> is_space_name_char(#[trigger] cs@[k], k == 0),
        decreases cs.len() - i,
    {
        let c: char = cs[i];
        let ok = ('a' <= c && c <= 'z') || ('0' <= c && c <= '9') || (i > 0 && (c == '.' || c == '_'
            || c == '-'));
        if !ok {
            assert(!is_space_name_char(ns@[i as int], i == 0));
            return false;
        }
        i += 1;
    }
    true
}

/// The rank of a sensitivity class, the least sensitive first.
pub open spec fn rank_of(class: Seq<char>) -> Option<u8> {
    if class == "public"@ {
        Some(0)
    } else if class == "internal"@ {
        Some(1)
    } else if class == "confidential"@ {
        Some(2)
    } else if class == "secret"@ {
        Some(3)
    } else {
        None
    }
}

/// The rank of a sensitivity class, the least sensitive first.
pub fn sensitivity_rank(class: &str) -> (r: Option<u8>)
    ensures
        r == rank_of(class@),
{
    if same_text(class, "public") {
        Some(0)
    } else if same_text(class, "internal") {
        Some(1)
    } else if same_text(class, "confidential") {
        Some(2)
    } else if same_text(class, "secret") {
        Some(3)
    } else {
        None
    }
}

/// The rank of a kept record; one without a known class counts as internal.
pub open spec fn kept_rank(envelope: JsonView) -> u8 {
    match envelope.text_at("sensitivity"@) {
        Some(class) => match rank_of(class) {
            Some(rank) => rank,
            None => 1,
        },
        None => 1,
    }
}

fn rank_of_kept(envelope: &Json) -> (r: u8)
    ensures
        r == kept_rank(envelope@),
{
    match envelope.text_at("sensitivity") {
        Some(class) => match sensitivity_rank(class) {
            Some(rank) => rank,
            None => 1,
        },
        None => 1,
    }
}

// ---------------------------------------------------------------------------
// Envelopes and listings
// ---------------------------------------------------------------------------

/// A record with its sensitivity and its provenance.
pub open spec fn envelope(record: JsonView, class: Seq<char>, req: ExecutionRequest, now_ms: i64) -> JsonView {
    JsonView::Object(
        map![
            "record"@ => record,
            "sensitivity"@ => JsonView::Text(class),
            "provenance"@ => JsonView::Object(
                map![
                    "effect_id"@ => JsonView::Text(req.effect_id@),
                    "operation_id"@ => JsonView::Text(req.operation_id@),
                    "fencing_token"@ => JsonView::Uint(req.fencing_token),
                    "written_at_ms"@ => number(now_ms as int),
                ],
            ),
        ],
    )
}

fn make_envelope(record: Json, class: &str, req: &ExecutionRequest, now_ms: i64) -> (r: Json)
    ensures
        r@ == envelope(record@, class@, *req, now_ms),
{
    let provenance = members().put_text("effect_id", req.effect_id.as_str()).put_text(
        "operation_id",
        req.operation_id.as_str(),
    ).put("fencing_token", Json::Uint(req.fencing_token)).put("written_at_ms", number_json(now_ms)).object();
    members().put("record", record).put_text("sensitivity", class).put(
        "provenance",
        provenance,
    ).object()
}

/// The entry of a record in a listing.
pub open spec fn entry(id: Seq<char>, kept: JsonView) -> JsonView {
    JsonView::Object(
        map![
            "id"@ => JsonView::Text(id),
            "sensitivity"@ => JsonView::Text(match kept.text_at("sensitivity"@) {
                Some(class) => class,
                None => "internal"@,
            }),
        ],
    )
}

/// The entries of the records for which `keep` holds, in the order of their ids.
pub open spec fn listing(
    records: Seq<(Seq<char>, JsonView)>,
    keep: spec_fn(Seq<char>, JsonView) -> bool,
) -> Seq<JsonView>
    decreases records.len(),
{
    if records.len() == 0 {
        Seq::empty()
    } else if keep(records.last().0, records.last().1) {
        listing(records.drop_last(), keep).push(entry(records.last().0, records.last().1))
    } else {
        listing(records.drop_last(), keep)
    }
}

/// The records that a listing of a whole space keeps.
pub open spec fn every() -> spec_fn(Seq<char>, JsonView) -> bool {
    |id: Seq<char>, kept: JsonView| true
}

/// The records that hold `needle` in their id or their text, whatever the case.
pub open spec fn holding(needle: Seq<char>) -> spec_fn(Seq<char>, JsonView) -> bool {
    |id: Seq<char>, kept: JsonView|
        holds(lowercase(id), needle) || holds(lowercase(printed(kept)), needle)
}

/// The `data:` URI of a document.
pub open spec fn document_uri(v: JsonView) -> Seq<char> {
    "data:application/json;base64,"@ + encoded(encode_utf8(printed(v)))
}

fn uri_of(v: &Json) -> (r: String)
    ensures
        r@ == document_uri(v@),
{
    let bytes = v.to_bytes();
    let body = base64_encode(bytes.as_slice());
    join("data:application/json;base64,", body.as_str())
}

fn make_entry(id: &str, kept: &Json) -> (r: Json)
    ensures
        r@ == entry(id@, kept@),
{
    let class = match kept.text_at("sensitivity") {
        Some(class) => class,
        None => "internal",
    };
    members().put_text("id", id).put_text("sensitivity", class).object()
}

/// The entries of a space, or of those of its records that hold `needle`.
pub fn list_space(space: &TextMap<Json>, needle: Option<&str>) -> (r: Json)
    ensures
        r@ == JsonView::Array(
            listing(
                in_order(doc_views(space@)),
                match needle {
                    Some(n) => holding(n@),
                    None => every(),
                },
            ),
        ),
{
    let ghost keep = match needle {
        Some(n) => holding(n@),
        None => every(),
    };
    let n: usize = space.len();
    let ghost kept = in_order(space@);
    let ghost views = in_order(doc_views(space@));
    proof {
        listing_of_views(space@, doc_views(space@));
    }
    let mut out = items();
    let mut i: usize = 0;
    assert(views.take(0) =~= Seq::empty());
    while i < n
        invariant
            i <= n,
            n == kept.len(),
            kept == in_order(space@),
            views == pair_views(kept),
            keep == (match needle {
                Some(n) => holding(n@),
                None => every(),
            }),
            out@ == listing(views.take(i as int), keep),
        decreases n - i,
    {
        let (id, record) = space.at(i);
        assert(views[i as int] == (id@, record@));
        assert(views.take(i + 1).drop_last() =~= views.take(i as int));
        assert(views.take(i + 1).last() == views[i as int]);
        let wanted = match needle {
            Some(needle) => {
                let name = to_lowercase(id.as_str());
                let text = to_lowercase(record.to_text().as_str());
                contains(name.as_str(), needle) || contains(text.as_str(), needle)
            },
            None => true,
        };
        if wanted {
            out = out.push(make_entry(id.as_str(), record));
        }
        i += 1;
    }
    assert(views.take(n as int) =~= views);
    out.array()
}

// ---------------------------------------------------------------------------
// Operations on one space
// ---------------------------------------------------------------------------

/// What an operation makes of a space: the space after it and its result, or the
/// code of its failure.
pub open spec fn space_step(
    space: Map<Seq<char>, JsonView>,
    name: Seq<char>,
    op: Seq<char>,
    payload: JsonView,
    req: ExecutionRequest,
    now_ms: i64,
) -> Result<(Map<Seq<char>, JsonView>, Seq<char>), Seq<char>> {
    if op == "memory.put"@ {
        let id = match payload.text_at("memory_id"@) {
            Some(id) => id,
            None => req.operation_id@,
        };
        let class = match payload.text_at("sensitivity"@) {
            Some(class) => class,
            None => "internal"@,
        };
        match payload.get("record"@) {
            None => Err("invalid_argument"@),
            Some(record) => match rank_of(class) {
                None => Err("invalid_sensitivity"@),
                Some(rank) => if space.contains_key(id) && rank < kept_rank(space[id]) {
                    Err("sensitivity_downgrade"@)
                } else {
                    Ok(
                        (
                            space.insert(id, envelope(record, class, req, now_ms)),
                            "memory://"@ + name + "/"@ + id,
                        ),
                    )
                },
            },
        }
    } else if op == "memory.get"@ {
        match payload.text_at("memory_id"@) {
            None => Err("invalid_argument"@),
            Some(id) => if space.contains_key(id) {
                Ok((space, document_uri(space[id])))
            } else {
                Err("not_found"@)
            },
        }
    } else if op == "memory.delete"@ {
        match payload.text_at("memory_id"@) {
            None => Err("invalid_argument"@),
            Some(id) => Ok((space.remove(id), "memory://"@ + name + "/"@ + id)),
        }
    } else if op == "memory.list"@ {
        Ok((space, document_uri(JsonView::Array(listing(in_order(space), every())))))
    } else if op == "memory.search"@ {
        let asked = match payload.get("query"@) {
            Some(q) => match q.text_at("text"@) {
                Some(t) => t,
                None => Seq::empty(),
            },
            None => Seq::empty(),
        };
        Ok(
            (
                space,
                document_uri(JsonView::Array(listing(in_order(space), holding(lowercase(asked))))),
            ),
        )
    } else {
        Err("unsupported_operation"@)
    }
}

fn memory_uri(name: &str, id: &str) -> (r: String)
    ensures
        r@ == "memory://"@ + name@ + "/"@ + id@,
{
    let mut out = "memory://".to_owned();
    out.append(name);
    out.append("/");
    out.append(id);
    out
}

/// Whether a step on a space is the one that `v` says.
pub open spec fn is_space_step(
    r: Result<String, String>,
    after: Map<Seq<char>, JsonView>,
    v: Result<(Map<Seq<char>, JsonView>, Seq<char>), Seq<char>>,
) -> bool {
    match (r, v) {
        (Ok(result_ref), Ok((space, s))) => result_ref@ == s && after == space,
        (Err(code), Err(c)) => code@ == c,
        _ => false,
    }
}

/// Carries an operation out on a space.
fn step_space(
    space: &mut TextMap<Json>,
    name: &str,
    op: &str,
    payload: &Json,
    req: &ExecutionRequest,
    now_ms: i64,
) -> (r: Result<String, String>)
    ensures
        is_space_step(
            r,
            doc_views(final(space)@),
            space_step(doc_views(old(space)@), name@, op@, payload@, *req, now_ms),
        ),
        r is Err ==> final(space)@ == old(space)@,
{
    if same_text(op, "memory.put") {
        let id = match payload.text_at("memory_id") {
            Some(id) => id.to_owned(),
            None => req.operation_id.clone(),
        };
        let record = match payload.get("record") {
            Some(r) => r.copy(),
            None => return Err("invalid_argument".to_owned()),
        };
        let class = match payload.text_at("sensitivity") {
            Some(c) => c,
            None => "internal",
        };
        let rank: u8 = match sensitivity_rank(class) {
            Some(r) => r,
            None => return Err("invalid_sensitivity".to_owned()),
        };
        if let Some(existing) = space.get(id.as_str()) {
            if rank < rank_of_kept(existing) {
                return Err("sensitivity_downgrade".to_owned());
            }
        }
        let uri = memory_uri(name, id.as_str());
        let kept = make_envelope(record, class, req, now_ms);
        assert(doc_views(space@.insert(id@, kept)) =~= doc_views(space@).insert(id@, kept@));
        space.insert(id, kept);
        Ok(uri)
    } else if same_text(op, "memory.get") {
        let id = match payload.text_at("memory_id") {
            Some(id) => id,
            None => return Err("invalid_argument".to_owned()),
        };
        match space.get(id) {
            Some(kept) => Ok(uri_of(kept)),
            None => Err("not_found".to_owned()),
        }
    } else if same_text(op, "memory.delete") {
        let id = match payload.text_at("memory_id") {
            Some(id) => id,
            None => return Err("invalid_argument".to_owned()),
        };
        assert(doc_views(space@.remove(id@)) =~= doc_views(space@).remove(id@));
        let _ = space.remove(id);
        Ok(memory_uri(name, id))
    } else if same_text(op, "memory.list") {
        Ok(uri_of(&list_space(space, None)))
    } else if same_text(op, "memory.search") {
        let asked = match payload.get("query") {
            Some(q) => match q.text_at("text") {
                Some(t) => t.to_owned(),
                None => String::new(),
            },
            None => String::new(),
        };
        let needle = to_lowercase(asked.as_str());
        Ok(uri_of(&list_space(space, Some(needle.as_str()))))
    } else {
        Err("unsupported_operation".to_owned())
    }
}

// ---------------------------------------------------------------------------
// Execution
// ---------------------------------------------------------------------------

/// The text of the member `key`, empty without one.
pub open spec fn named(payload: JsonView, key: Seq<char>) -> Seq<char> {
    match payload.text_at(key) {
        Some(t) => t,
        None => Seq::empty(),
    }
}

/// The space `name`, empty where nothing was kept in it.
pub open spec fn space_named(memory: Map<Seq<char>, Map<Seq<char>, JsonView>>, name: Seq<char>) -> Map<
    Seq<char>,
    JsonView,
> {
    if memory.contains_key(name) {
        memory[name]
    } else {
        Map::empty()
    }
}

/// The store after a request and the outcome that it is answered with. `payload`
/// is the request's parsed payload, if it is JSON.
pub open spec fn executed(
    store: MemoryView,
    req: ExecutionRequest,
    payload: Option<JsonView>,
    now_ms: i64,
) -> (MemoryView, OpView) {
    if store.ops.contains_key(req.operation_id@) {
        (store, store.ops[req.operation_id@])
    } else {
        match payload {
            None => (store, failed("invalid_argument"@)),
            Some(p) => {
                let op = named(p, "op"@);
                let name = named(p, "namespace"@);
                if !begins_with(op, "memory."@) || !is_space_name(name) {
                    (store, failed("unsupported_operation"@))
                } else {
                    match space_step(space_named(store.memory, name), name, op, p, req, now_ms) {
                        Err(code) => (store, failed(code)),
                        Ok((space, result_ref)) => (
                            MemoryView {
                                ops: store.ops.insert(req.operation_id@, success(result_ref)),
                                memory: store.memory.insert(name, space),
                            },
                            success(result_ref),
                        ),
                    }
                }
            },
        }
    }
}

/// Carries out a request with the parsed payload `payload`.
pub fn execute_parsed(
    store: &mut MemoryStore,
    req: &ExecutionRequest,
    payload: Option<Json>,
    now_ms: i64,
) -> (r: ExecutionResponse)
    ensures
        ({
            let v = executed(
                old(store)@,
                *req,
                match payload {
                    Some(p) => Some(p@),
                    None => None,
                },
                now_ms,
            );
            final(store)@ == v.0 && responds(r, *req, v.1)
        }),
{
    if let Some(rec) = store.ops.get(req.operation_id.as_str()) {
        return replay(req, rec);
    }
    let payload = match payload {
        Some(p) => p,
        None => return failure(req, "invalid_argument"),
    };
    let op = match payload.text_at("op") {
        Some(t) => t.to_owned(),
        None => String::new(),
    };
    let name = match payload.text_at("namespace") {
        Some(t) => t.to_owned(),
        None => String::new(),
    };
    if !starts_with(op.as_str(), "memory.") || !valid_namespace(name.as_str()) {
        return failure(req, "unsupported_operation");
    }
    let ghost before = store.memory@;
    let taken = store.memory.remove(name.as_str());
    let was_there = taken.is_some();
    let mut space = match taken {
        Some(s) => s,
        None => TextMap::new(),
    };
    let ghost first = space;
    assert(doc_views(space@) =~= space_named(space_views(before), name@));
    let outcome = step_space(
        &mut space,
        name.as_str(),
        op.as_str(),
        &payload,
        req,
        now_ms,
    );
    match outcome {
        Err(code) => {
            if was_there {
                store.memory.insert(name.clone(), space);
                assert(space_views(store.memory@) =~= space_views(before));
            } else {
                assert(store.memory@ =~= before);
            }
            failure(req, code.as_str())
        },
        Ok(result_ref) => {
            let rec = success_record(result_ref.as_str());
            assert(space_views(before.remove(name@).insert(name@, space)) =~= space_views(
                before,
            ).insert(name@, doc_views(space@)));
            assert(op_views(store.ops@.insert(req.operation_id@, rec)) =~= op_views(
                store.ops@,
            ).insert(req.operation_id@, rec@));
            store.memory.insert(name, space);
            store.ops.insert(req.operation_id.clone(), rec);
            succeed(req, result_ref.as_str())
        },
    }
}

/// Carries out a request; `now_ms` is the time at which a record is written.
pub fn execute(store: &mut MemoryStore, req: &ExecutionRequest, now_ms: i64) -> (r: ExecutionResponse)
    ensures
        ({
            let v = executed(old(store)@, *req, parsed_bytes(req.payload@), now_ms);
            final(store)@ == v.0 && responds(r, *req, v.1)
        }),
{
    let payload = Json::from_bytes(req.payload.as_slice());
    execute_parsed(store, req, payload, now_ms)
}

// ---------------------------------------------------------------------------
// What holds of every execution
// ---------------------------------------------------------------------------

/// A repeated operation changes nothing and has the first outcome, once that was
/// a success.
pub proof fn success_is_replayed(
    store: MemoryView,
    req: ExecutionRequest,
    payload: Option<JsonView>,
    now_ms: i64,
    again: ExecutionRequest,
    again_payload: Option<JsonView>,
    later_ms: i64,
)
    requires
        again.operation_id@ == req.operation_id@,
        executed(store, req, payload, now_ms).1.status == "succeeded"@,
    ensures
        ({
            let (after, outcome) = executed(store, req, payload, now_ms);
            executed(after, again, again_payload, later_ms) == (after, outcome)
        }),
{
    reveal_strlit("failed");
    reveal_strlit("succeeded");
    assert("failed"@.len() != "succeeded"@.len());
}

/// A request that fails leaves the store as it was.
pub proof fn failure_changes_nothing(store: MemoryView, req: ExecutionRequest, payload: Option<JsonView>, now_ms: i64)
    requires
        executed(store, req, payload, now_ms).1.status != "succeeded"@,
    ensures
        executed(store, req, payload, now_ms).0 == store,
{
}

/// A request works on the space that it names and on no other.
pub proof fn spaces_are_separate(
    store: MemoryView,
    req: ExecutionRequest,
    payload: JsonView,
    now_ms: i64,
    other: Seq<char>,
)
    requires
        other != named(payload, "namespace"@),
    ensures
        ({
            let after = executed(store, req, Some(payload), now_ms).0.memory;
            &&& after.contains_key(other) == store.memory.contains_key(other)
            &&& after.contains_key(other) ==> after[other] == store.memory[other]
        }),
{
}

/// No request lowers the sensitivity of a record that it leaves in the store.
pub proof fn sensitivity_never_falls(
    store: MemoryView,
    req: ExecutionRequest,
    payload: Option<JsonView>,
    now_ms: i64,
    name: Seq<char>,
    id: Seq<char>,
)
    requires
        store.memory.contains_key(name),
        store.memory[name].contains_key(id),
        ({
            let after = executed(store, req, payload, now_ms).0.memory;
            after.contains_key(name) && after[name].contains_key(id)
        }),
    ensures
        kept_rank(executed(store, req, payload, now_ms).0.memory[name][id]) >= kept_rank(
            store.memory[name][id],
        ),
{
    reveal_strlit("record");
    reveal_strlit("sensitivity");
    reveal_strlit("provenance");
    assert("sensitivity"@.len() == 11);
    assert("provenance"@.len() == 10);
    assert("record"@.len() == 6);
    if let Some(p) = payload {
        if p.get("record"@) is Some {
            let class = match p.text_at("sensitivity"@) {
                Some(class) => class,
                None => "internal"@,
            };
            let e = envelope(p.get("record"@)->0, class, req, now_ms);
            assert(e.text_at("sensitivity"@) == Some(class));
        }
    }
}

/// What a put has kept, a get of the same id gives back: the record with its
/// sensitivity and its provenance.
pub proof fn get_returns_what_was_put(
    store: MemoryView,
    put: ExecutionRequest,
    put_payload: JsonView,
    now_ms: i64,
    get: ExecutionRequest,
    get_payload: JsonView,
    later_ms: i64,
)
    requires
        named(put_payload, "op"@) == "memory.put"@,
        !store.ops.contains_key(put.operation_id@),
        executed(store, put, Some(put_payload), now_ms).1.status == "succeeded"@,
        named(get_payload, "op"@) == "memory.get"@,
        named(get_payload, "namespace"@) == named(put_payload, "namespace"@),
        get_payload.text_at("memory_id"@) == Some(match put_payload.text_at("memory_id"@) {
            Some(id) => id,
            None => put.operation_id@,
        }),
        !store.ops.contains_key(get.operation_id@),
        get.operation_id@ != put.operation_id@,
    ensures
        ({
            let after = executed(store, put, Some(put_payload), now_ms).0;
            let class = match put_payload.text_at("sensitivity"@) {
                Some(class) => class,
                None => "internal"@,
            };
            let kept = envelope(put_payload.get("record"@)->0, class, put, now_ms);
            &&& put_payload.get("record"@) is Some
            &&& executed(after, get, Some(get_payload), later_ms).1 == success(document_uri(kept))
        }),
{
    reveal_strlit("failed");
    reveal_strlit("succeeded");
    reveal_strlit("memory.");
    reveal_strlit("memory.get");
    reveal_strlit("memory.put");
    assert("failed"@.len() != "succeeded"@.len());
    assert("memory.get"@[7] != "memory.put"@[7]);
    assert("memory.get"@.subrange(0, 7) =~= "memory."@);
    assert("memory.put"@.subrange(0, 7) =~= "memory."@);
}

/// A record that was deleted is not found again.
pub proof fn deleted_records_are_gone(
    store: MemoryView,
    delete: ExecutionRequest,
    delete_payload: JsonView,
    now_ms: i64,
    get: ExecutionRequest,
    get_payload: JsonView,
    later_ms: i64,
)
    requires
        named(delete_payload, "op"@) == "memory.delete"@,
        !store.ops.contains_key(delete.operation_id@),
        executed(store, delete, Some(delete_payload), now_ms).1.status == "succeeded"@,
        named(get_payload, "op"@) == "memory.get"@,
        named(get_payload, "namespace"@) == named(delete_payload, "namespace"@),
        get_payload.text_at("memory_id"@) is Some,
        get_payload.text_at("memory_id"@) == delete_payload.text_at("memory_id"@),
        !store.ops.contains_key(get.operation_id@),
        get.operation_id@ != delete.operation_id@,
    ensures
        ({
            let after = executed(store, delete, Some(delete_payload), now_ms).0;
            executed(after, get, Some(get_payload), later_ms) == (after, failed("not_found"@))
        }),
{
    reveal_strlit("failed");
    reveal_strlit("succeeded");
    reveal_strlit("memory.");
    reveal_strlit("memory.get");
    reveal_strlit("memory.put");
    reveal_strlit("memory.delete");
    assert("failed"@.len() != "succeeded"@.len());
    assert("memory.get"@[7] != "memory.put"@[7]);
    assert("memory.delete"@.len() != "memory.put"@.len());
    assert("memory.delete"@.len() != "memory.get"@.len());
    assert("memory.get"@.subrange(0, 7) =~= "memory."@);
    assert("memory.delete"@.subrange(0, 7) =~= "memory."@);
}

/// An operation that succeeded is reported with its result.
pub proof fn success_is_reported(store: MemoryView, req: ExecutionRequest, payload: Option<JsonView>, now_ms: i64)
    requires
        executed(store, req, payload, now_ms).1.status == "succeeded"@,
    ensures
        ({
            let (after, outcome) = executed(store, req, payload, now_ms);
            report(after.ops, req.operation_id@) == outcome
        }),
{
    reveal_strlit("failed");
    reveal_strlit("succeeded");
    assert("failed"@.len() != "succeeded"@.len());
}

} // verus!
