//! The feed of settled effects that comes with each input.
//!
//! A feed is an array of effect objects, one of which may carry counts over the
//! whole run, or an object `{"settled": [..], "op_counts": {..}}`.

use vstd::prelude::*;
use vstd::string::*;

use crate::json::{item_views, pair_views, parsed_bytes, sorted_members, Json, JsonView};
use crate::ordered::in_order;
use crate::text::{begins_with, same_text, starts_with};

verus! {

/// The operation of the feed's element that carries counts over the whole run.
pub const OP_COUNTS_MARKER: &'static str = "kernel.op_counts";

/// Whether `e` is the element that carries the counts and no effect.
pub open spec fn is_marker(e: JsonView) -> bool {
    e.text_at("operation"@) == Some(OP_COUNTS_MARKER@)
}

/// The elements of `batch` that are effects.
pub open spec fn effects_in(batch: Seq<JsonView>) -> Seq<JsonView>
    decreases batch.len(),
{
    if batch.len() == 0 {
        Seq::empty()
    } else if is_marker(batch.last()) {
        effects_in(batch.drop_last())
    } else {
        effects_in(batch.drop_last()).push(batch.last())
    }
}

/// The elements of a feed.
pub open spec fn batch_of(doc: JsonView) -> Seq<JsonView> {
    match doc {
        JsonView::Array(items) => items,
        _ => match doc.array_at("settled"@) {
            Some(items) => items,
            None => Seq::empty(),
        },
    }
}

/// The settled effects of a feed, oldest first.
pub open spec fn settled(doc: JsonView) -> Seq<JsonView> {
    effects_in(batch_of(doc))
}

/// Whether the operation of `e` begins with `prefix`.
pub open spec fn op_begins(e: JsonView, prefix: Seq<char>) -> bool {
    match e.text_at("operation"@) {
        Some(op) => begins_with(op, prefix),
        None => false,
    }
}

/// The member `key` of the first of `items` that has one.
pub open spec fn first_with(items: Seq<JsonView>, key: Seq<char>) -> Option<JsonView>
    decreases items.len(),
{
    if items.len() == 0 {
        None
    } else if items[0].get(key) is Some {
        items[0].get(key)
    } else {
        first_with(items.skip(1), key)
    }
}

/// The member `key` that a feed carries beside its effects: in an array that of
/// the first element that has one, else that of the feed itself.
pub open spec fn feed_member(doc: JsonView, key: Seq<char>) -> Option<JsonView> {
    match doc {
        JsonView::Array(items) => first_with(items, key),
        _ => doc.get(key),
    }
}

/// The sum of the counts whose operation begins with `prefix`.
pub open spec fn count_sum(counts: Seq<(Seq<char>, JsonView)>, prefix: Seq<char>) -> nat
    decreases counts.len(),
{
    if counts.len() == 0 {
        0
    } else {
        let rest = count_sum(counts.drop_last(), prefix);
        if begins_with(counts.last().0, prefix) {
            rest + (match counts.last().1.as_u64() {
                Some(n) => n as nat,
                None => 0,
            })
        } else {
            rest
        }
    }
}

/// The number of effects whose operation begins with `prefix`.
pub open spec fn effect_count(effects: Seq<JsonView>, prefix: Seq<char>) -> nat
    decreases effects.len(),
{
    if effects.len() == 0 {
        0
    } else {
        effect_count(effects.drop_last(), prefix) + (if op_begins(effects.last(), prefix) {
            1nat
        } else {
            0
        })
    }
}

/// The number of settled effects over the whole run whose operation begins with
/// `prefix`, in 32 bits. A feed without counts tells it of its own effects only.
pub open spec fn op_total(doc: JsonView, prefix: Seq<char>) -> u32 {
    match feed_member(doc, "op_counts"@) {
        Some(JsonView::Object(m)) => (count_sum(in_order(m), prefix) % 0x1_0000_0000) as u32,
        _ => (effect_count(settled(doc), prefix) % 0x1_0000_0000) as u32,
    }
}

/// The newest effect with the operation `op`.
pub open spec fn newest(effects: Seq<JsonView>, op: Seq<char>) -> Option<JsonView>
    decreases effects.len(),
{
    if effects.len() == 0 {
        None
    } else if effects.last().text_at("operation"@) == Some(op) {
        Some(effects.last())
    } else {
        newest(effects.drop_last(), op)
    }
}

/// The hash of the newest completed tool request that the feed carries.
pub open spec fn newest_hash(doc: JsonView) -> Option<Seq<char>> {
    match feed_member(doc, "latest_mcp_request_hash"@) {
        Some(v) => match v.as_text() {
            Some(h) => if h.len() == 0 {
                None
            } else {
                Some(h)
            },
            None => None,
        },
        None => None,
    }
}

/// The feed that bytes hold; bytes that are no JSON hold `Null`.
pub open spec fn feed_of(events: Seq<u8>) -> JsonView {
    match parsed_bytes(events) {
        Some(v) => v,
        None => JsonView::Null,
    }
}

/// The feed that bytes hold; bytes that are no JSON hold `Null`.
pub fn events_doc(events: &[u8]) -> (r: Json)
    ensures
        r@ == feed_of(events@),
{
    match Json::from_bytes(events) {
        Some(v) => v,
        None => Json::Null,
    }
}

fn marks_counts(e: &Json) -> (r: bool)
    ensures
        r == is_marker(e@),
{
    match e.text_at("operation") {
        Some(op) => same_text(op, OP_COUNTS_MARKER),
        None => false,
    }
}

/// The settled effects of a feed, oldest first.
pub fn settled_effects(doc: &Json) -> (r: Vec<Json>)
    ensures
        item_views(r@) == settled(doc@),
{
    let empty: Vec<Json> = Vec::new();
    let batch: &Vec<Json> = match doc.as_array() {
        Some(items) => items,
        None => match doc.array_at("settled") {
            Some(items) => items,
            None => {
                assert(item_views(empty@) =~= Seq::empty());
                &empty
            },
        },
    };
    let mut out: Vec<Json> = Vec::new();
    let mut i: usize = 0;
    assert(item_views(out@) =~= Seq::empty());
    while i < batch.len()
        invariant
            i <= batch.len(),
            item_views(batch@) == batch_of(doc@),
            item_views(out@) == effects_in(item_views(batch@).take(i as int)),
        decreases batch.len() - i,
    {
        assert(item_views(batch@).take(i + 1).drop_last() =~= item_views(batch@).take(i as int));
        if !marks_counts(&batch[i]) {
            let e = batch[i].copy();
            assert(item_views(out@.push(e)) =~= item_views(out@).push(e@));
            out.push(e);
        }
        i += 1;
    }
    assert(item_views(batch@).take(batch.len() as int) =~= item_views(batch@));
    out
}

/// Whether the operation of `e` begins with `prefix`.
pub fn op_starts_with(e: &Json, prefix: &str) -> (r: bool)
    ensures
        r == op_begins(e@, prefix@),
{
    match e.text_at("operation") {
        Some(op) => starts_with(op, prefix),
        None => false,
    }
}

fn carried<'a>(doc: &'a Json, key: &str) -> (r: Option<&'a Json>)
    ensures
        match r {
            Some(j) => feed_member(doc@, key@) == Some(j@),
            None => feed_member(doc@, key@) is None,
        },
{
    match doc.as_array() {
        Some(items) => {
            let ghost views = item_views(items@);
            let mut i: usize = 0;
            assert(views.skip(0) =~= views);
            while i < items.len()
                invariant
                    i <= items.len(),
                    views == item_views(items@),
                    doc@ == JsonView::Array(views),
                    first_with(views, key@) == first_with(views.skip(i as int), key@),
                decreases items.len() - i,
            {
                assert(views.skip(i as int)[0] == items@[i as int]@);
                if let Some(v) = items[i].get(key) {
                    return Some(v);
                }
                assert(views.skip(i as int).skip(1) =~= views.skip(i + 1));
                i += 1;
            }
            None
        },
        None => doc.get(key),
    }
}

/// The number of settled effects over the whole run whose operation begins with
/// `prefix`, in 32 bits. A feed without counts tells it of its own effects only.
pub fn op_count(doc: &Json, prefix: &str) -> (r: u32)
    ensures
        r == op_total(doc@, prefix@),
{
    if let Some(counts) = carried(doc, "op_counts") {
        if counts.is_object() {
            let members = counts.members();
            let ghost listed = sorted_members(counts@);
            let ghost exec_listed = in_order(members@);
            let n: usize = members.len();
            let mut total: u32 = 0;
            let mut i: usize = 0;
            assert(listed.take(0) =~= Seq::empty());
            while i < n
                invariant
                    i <= n,
                    exec_listed == in_order(members@),
                    n == exec_listed.len(),
                    listed == pair_views(exec_listed),
                    total == count_sum(listed.take(i as int), prefix@) % 0x1_0000_0000,
                decreases n - i,
            {
                let (op, count) = members.at(i);
                assert(listed[i as int] == (op@, count@));
                assert(listed.take(i + 1).drop_last() =~= listed.take(i as int));
                assert(listed.take(i + 1).last() == listed[i as int]);
                if starts_with(op.as_str(), prefix) {
                    if let Some(c) = count.as_u64() {
                        let low: u32 = (c % 0x1_0000_0000) as u32;
                        let sum: u64 = total as u64 + low as u64;
                        total = (sum % 0x1_0000_0000) as u32;
                    }
                }
                i += 1;
            }
            assert(listed.take(n as int) =~= listed);
            return total;
        }
    }
    let effects = settled_effects(doc);
    let ghost views = settled(doc@);
    let mut total: u32 = 0;
    let mut i: usize = 0;
    assert(views.take(0) =~= Seq::empty());
    while i < effects.len()
        invariant
            i <= effects.len(),
            views == item_views(effects@),
            total == effect_count(views.take(i as int), prefix@) % 0x1_0000_0000,
        decreases effects.len() - i,
    {
        assert(views.take(i + 1).drop_last() =~= views.take(i as int));
        assert(views.take(i + 1).last() == effects@[i as int]@);
        if op_starts_with(&effects[i], prefix) {
            total = if total == u32::MAX {
                0
            } else {
                total + 1
            };
        }
        i += 1;
    }
    assert(views.take(effects.len() as int) =~= views);
    total
}

/// The newest effect with the operation `op`.
pub fn latest_effect<'a>(effects: &'a Vec<Json>, op: &str) -> (r: Option<&'a Json>)
    ensures
        match r {
            Some(e) => newest(item_views(effects@), op@) == Some(e@),
            None => newest(item_views(effects@), op@) is None,
        },
{
    let ghost views = item_views(effects@);
    let mut i: usize = effects.len();
    assert(views.take(i as int) =~= views);
    while i > 0
        invariant
            i <= effects.len(),
            views == item_views(effects@),
            newest(views, op@) == newest(views.take(i as int), op@),
        decreases i,
    {
        assert(views.take(i as int).drop_last() =~= views.take(i - 1));
        i -= 1;
        if let Some(o) = effects[i].text_at("operation") {
            if same_text(o, op) {
                return Some(&effects[i]);
            }
        }
    }
    None
}

/// The hash of the newest completed tool request that the feed carries.
pub fn latest_mcp_request_hash(doc: &Json) -> (r: Option<String>)
    ensures
        match r {
            Some(h) => newest_hash(doc@) == Some(h@),
            None => newest_hash(doc@) is None,
        },
{
    match carried(doc, "latest_mcp_request_hash") {
        Some(v) => match v.as_text() {
            Some(h) => if h.unicode_len() == 0 {
                None
            } else {
                Some(h.to_owned())
            },
            None => None,
        },
        None => None,
    }
}

} // verus!
