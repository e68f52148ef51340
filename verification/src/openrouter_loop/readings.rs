//! What the loop reads in a feed, a reply and a task.

use vstd::prelude::*;
use vstd::utf8::encode_utf8;

use crate::base64::laws::texts_are_clipped_to_fit;
use crate::base64::{text_uri, uri_carries_its_text, uri_text};
use crate::json::{parsed, JsonView};
use crate::openrouter_loop::events::{
    batch_of, count_sum, effect_count, feed_member, newest_hash, op_total, settled,
};
use crate::openrouter_loop::plan::{
    exact_answer, is_quoting, line_end_class, quoting_class, unfenced,
};
use crate::openrouter_loop::prompt::{
    chat, follow_up, follow_up_text, message, summary, FOLLOW_UP, PLAN_CLAUSE, SYSTEM_PROMPT,
    TOOLS_CLAUSE,
};
use crate::openrouter_loop::laws::model_replied;
use crate::openrouter_loop::{
    ask_model, result_text, text_or, to_provider, turn, SettingsView, StepView, BUDGET_NOTE,
    CLOSED_REST, PLAN_REMINDER, REPEAT_LEAD, REPEAT_REST,
};
use crate::ordered::{ascending, in_order, listing_is_unique, lists};
use crate::text::laws::{copies_are_taken_away, lacks, last_places_are_found, spaces_are_trimmed};
use crate::text::{
    begins_with, decimal, finishes_with, is_space, lowered, occurs_at, take_until, trim_left,
    trim_right,
};

verus! {

// ---------------------------------------------------------------------------
// Counts
// ---------------------------------------------------------------------------

proof fn sums_leave_one_out(s: Seq<(Seq<char>, JsonView)>, prefix: Seq<char>, i: int)
    requires
        0 <= i < s.len(),
    ensures
        count_sum(s, prefix) == count_sum(s.remove(i), prefix) + (if begins_with(s[i].0, prefix) {
            match s[i].1.as_u64() {
                Some(n) => n as nat,
                None => 0,
            }
        } else {
            0
        }),
    decreases s.len(),
{
    let front = s.drop_last();
    if i == s.len() - 1 {
        assert(s.remove(i) =~= front);
    } else {
        sums_leave_one_out(front, prefix, i);
        assert(s.remove(i).drop_last() =~= front.remove(i));
        assert(s.remove(i).last() == s.last());
    }
}

proof fn listings_leave_one_out(
    s: Seq<(Seq<char>, JsonView)>,
    m: Map<Seq<char>, JsonView>,
    key: Seq<char>,
    i: int,
)
    requires
        lists(s, m),
        0 <= i < s.len(),
        s[i].0 == key,
    ensures
        lists(s.remove(i), m.remove(key)),
{
    let t = s.remove(i);
    assert forall|a: int| 0 <= a < t.len() implies t[a] == s[if a < i { a } else { a + 1 }] by {}
    assert(ascending(t));
    assert forall|a: int| 0 <= a < t.len() implies m.remove(key).contains_key(#[trigger] t[a].0)
        && m.remove(key)[t[a].0] == t[a].1 by {
        let b = if a < i { a } else { a + 1 };
        assert(t[a] == s[b]);
        assert(m.contains_key(s[b].0));
        if s[b].0 == key {
            if b < i {
                assert(crate::text::text_less(s[b].0, s[i].0));
            } else {
                assert(crate::text::text_less(s[i].0, s[b].0));
            }
            crate::text::text_less_irreflexive(key);
        }
    }
    assert forall|k: Seq<char>| #[trigger] m.remove(key).contains_key(k) implies exists|a: int|
        0 <= a < t.len() && #[trigger] t[a].0 == k by {
        assert(m.contains_key(k));
        let b = choose|b: int| 0 <= b < s.len() && #[trigger] s[b].0 == k;
        let a = if b < i { b } else { b - 1 };
        assert(t[a] == s[b]);
    }
}

/// The counts of a feed add up: an operation counts exactly where it begins with the prefix, with
/// its own number, and an empty set of counts counts nothing.
pub proof fn counts_add_up(
    doc: JsonView,
    counts: Map<Seq<char>, JsonView>,
    less: JsonView,
    op: Seq<char>,
    n: u64,
    prefix: Seq<char>,
)
    requires
        !(doc is Array) && !(less is Array),
        doc.get("op_counts"@) == Some(JsonView::Object(counts)),
        less.get("op_counts"@) == Some(JsonView::Object(counts.remove(op))),
        exists|s: Seq<(Seq<char>, JsonView)>| lists(s, counts),
        counts.contains_key(op),
        counts[op] == JsonView::Uint(n),
    ensures
        op_total(doc, prefix) as int == (op_total(less, prefix) + (if begins_with(op, prefix) {
            n as int
        } else {
            0
        })) % 0x1_0000_0000,
{
    let s = in_order(counts);
    assert(lists(s, counts));
    let i = choose|i: int| 0 <= i < s.len() && #[trigger] s[i].0 == op;
    listings_leave_one_out(s, counts, op, i);
    listing_is_unique(s.remove(i), counts.remove(op));
    sums_leave_one_out(s, prefix, i);
    assert(s[i].1 == JsonView::Uint(n));
    let rest = count_sum(s.remove(i), prefix) as int;
    let more = if begins_with(op, prefix) {
        n as int
    } else {
        0
    };
    assert((rest + more) % 0x1_0000_0000 == (rest % 0x1_0000_0000 + more) % 0x1_0000_0000);
}

/// A feed that counts nothing has no operations.
pub proof fn no_counts_are_nought(doc: JsonView, prefix: Seq<char>)
    requires
        !(doc is Array),
        doc.get("op_counts"@) == Some(JsonView::Object(Map::empty())),
    ensures
        op_total(doc, prefix) == 0,
{
    let s = Seq::<(Seq<char>, JsonView)>::empty();
    assert(lists(s, Map::<Seq<char>, JsonView>::empty()));
    listing_is_unique(s, Map::<Seq<char>, JsonView>::empty());
}

/// A feed without counts is counted itself: one for each of its effects whose operation begins
/// with the prefix.
pub proof fn effects_are_counted(effects: Seq<JsonView>, e: JsonView, prefix: Seq<char>, doc: JsonView)
    ensures
        effect_count(Seq::empty(), prefix) == 0,
        effect_count(effects.push(e), prefix) == effect_count(effects, prefix) + (if e.text_at(
            "operation"@,
        ) is Some && begins_with(e.text_at("operation"@)->0, prefix) {
            1nat
        } else {
            0
        }),
        feed_member(doc, "op_counts"@) is None && settled(doc).len() < 0x1_0000_0000 ==> op_total(
            doc,
            prefix,
        ) == effect_count(settled(doc), prefix),
{
    assert(effects.push(e).drop_last() =~= effects);
    counts_are_small(settled(doc), prefix);
}

proof fn counts_are_small(effects: Seq<JsonView>, prefix: Seq<char>)
    ensures
        effect_count(effects, prefix) <= effects.len(),
    decreases effects.len(),
{
    if effects.len() > 0 {
        counts_are_small(effects.drop_last(), prefix);
    }
}

/// What a feed carries beside its effects is its own member, or in a list that of the first
/// element that has one.
pub proof fn feeds_carry_their_members(doc: JsonView, first: JsonView, rest: Seq<JsonView>, key: Seq<char>)
    ensures
        !(doc is Array) ==> feed_member(doc, key) == doc.get(key),
        first.get(key) is Some ==> feed_member(JsonView::Array(seq![first] + rest), key) == first.get(key),
        first.get(key) is None ==> feed_member(JsonView::Array(seq![first] + rest), key) == feed_member(
            JsonView::Array(rest),
            key,
        ),
        feed_member(JsonView::Array(Seq::empty()), key) is None,
{
    assert((seq![first] + rest).skip(1) =~= rest);
}

/// The effects of a feed stand in the list itself, or under "settled" in an object.
pub proof fn feeds_hold_their_effects(doc: JsonView, items: Seq<JsonView>)
    ensures
        batch_of(JsonView::Array(items)) == items,
        !(doc is Array) && doc.get("settled"@) == Some(JsonView::Array(items)) ==> batch_of(doc) == items,
        !(doc is Array) && doc.get("settled"@) is None ==> batch_of(doc).len() == 0,
{
}

/// The newest hash is the text that the feed carries, unless it is empty.
pub proof fn hashes_are_texts(doc: JsonView, hash: Seq<char>)
    requires
        !(doc is Array),
    ensures
        doc.get("latest_mcp_request_hash"@) == Some(JsonView::Text(hash)) && hash.len() > 0 ==> newest_hash(
            doc,
        ) == Some(hash),
        doc.get("latest_mcp_request_hash"@) == Some(JsonView::Text(Seq::empty()))
            ==> newest_hash(doc) is None,
        doc.get("latest_mcp_request_hash"@) is None ==> newest_hash(doc) is None,
{
}

// ---------------------------------------------------------------------------
// Replies and tasks
// ---------------------------------------------------------------------------

/// A reply is read without the fences around it: what stands between them is what counts, and a
/// reply without fences stands as it is.
pub proof fn fences_are_taken_off(body: Seq<char>)
    requires
        body.len() > 0,
        !is_space(body[0]) && !is_space(body.last()),
        body[0] != '`' && body.last() != '`',
    ensures
        unfenced(body) == body,
        unfenced("```json"@ + body + "```"@) == body,
        unfenced("```"@ + body + "```"@) == body || begins_with(body, "json"@),
        unfenced("```json"@ + seq!['\n'] + body + seq!['\n'] + "```"@) == body,
{
    reveal_strlit("```json");
    reveal_strlit("```");
    reveal_strlit("json");
    let none = Seq::<char>::empty();
    let long = "```json"@;
    let short = "```"@;
    let line = seq!['\n'];
    assert(!is_space('`'));
    assert(is_space('\n'));
    bare_texts_stay(body);
    spaces_are_trimmed(none, body, none);
    // between long fences
    let a = long + body + short;
    assert(a[0] == '`' && a.last() == '`');
    spaces_are_trimmed(none, a, none);
    assert(a =~= long + (body + short));
    fronts_are_bare(body + short);
    copies_are_taken_away(long, body + short);
    copies_are_taken_away(short, body + short);
    copies_are_taken_away(short, body);
    // between short fences
    let b = short + body + short;
    assert(b[0] == '`' && b.last() == '`');
    spaces_are_trimmed(none, b, none);
    assert(b =~= short + (body + short));
    if !begins_with(body, "json"@) {
        if begins_with(b, long) {
            let head = b.subrange(0, 7);
            assert(body.len() >= 4) by {
                if body.len() < 4 {
                    let at = body.len() as int + 3;
                    assert(b[at] == '`');
                    assert(head[at] == b[at]);
                    assert(long[3] == 'j' && long[4] == 's' && long[5] == 'o' && long[6] == 'n');
                }
            }
            assert forall|i: int| 0 <= i < 4 implies body[i] == "json"@[i] by {
                assert(head[i + 3] == b[i + 3]);
                assert(b[i + 3] == body[i]);
                assert(long[i + 3] == "json"@[i]);
            }
            assert(body.subrange(0, 4) =~= "json"@);
        }
        copies_are_taken_away(long, b);
        copies_are_taken_away(short, body + short);
    }
    // with lines of their own
    let inner = line + body + line;
    let c = long + line + body + line + short;
    assert(c[0] == '`' && c.last() == '`');
    spaces_are_trimmed(none, c, none);
    assert(c =~= long + (inner + short));
    assert(inner[0] == '\n');
    assert((inner + short)[0] == '\n');
    fronts_are_bare(inner + short);
    copies_are_taken_away(long, inner + short);
    copies_are_taken_away(short, inner + short);
    copies_are_taken_away(short, inner);
    assert(inner.last() == '\n');
    ends_are_bare(inner);
    ends_are_bare(body);
    spaces_are_trimmed(line, body, line);
    assert(none + body + none =~= body);
    assert(none + a + none =~= a);
    assert(none + b + none =~= b);
    assert(none + c + none =~= c);
}

proof fn fronts_are_bare(s: Seq<char>)
    requires
        s.len() > 0,
        s[0] != '`',
    ensures
        !begins_with(s, "```json"@),
        !begins_with(s, "```"@),
{
    reveal_strlit("```json");
    reveal_strlit("```");
    if begins_with(s, "```json"@) {
        assert(s.subrange(0, 7)[0] == s[0]);
    }
    if begins_with(s, "```"@) {
        assert(s.subrange(0, 3)[0] == s[0]);
    }
}

proof fn ends_are_bare(s: Seq<char>)
    requires
        s.len() > 0,
        s.last() != '`',
    ensures
        !finishes_with(s, "```"@),
{
    reveal_strlit("```");
    if finishes_with(s, "```"@) {
        let n = s.len() - 3;
        assert(s.subrange(n, n + 3)[2] == s[n + 2]);
    }
}

proof fn bare_texts_stay(s: Seq<char>)
    requires
        s.len() > 0,
        s[0] != '`' && s.last() != '`',
        !is_space(s[0]) && !is_space(s.last()),
    ensures
        unfenced(s) == s,
{
    reveal_strlit("```json");
    reveal_strlit("```");
    spaces_are_trimmed(Seq::empty(), s, Seq::empty());
    fronts_are_bare(s);
    ends_are_bare(s);
    copies_are_taken_away("```json"@, s);
    copies_are_taken_away("```"@, s);
}

/// A task that ends with a word behind "exactly", in small letters or capitals, asks for that
/// word; the quotes and the signs around it do not count.
pub proof fn tasks_ask_for_their_word(front: Seq<char>, key: Seq<char>, word: Seq<char>, q: char)
    requires
        lowered(key) == "exactly "@,
        word.len() > 0,
        forall|i: int| 0 <= i < word.len() ==> !is_space(#[trigger] word[i]),
        !is_quoting(word[0]) && !is_quoting(word.last()),
        q == '"' || q == '\'' || q == '`',
    ensures
        exact_answer(front + key + word) == word,
        exact_answer(front + key + (seq![q] + word + seq![q])) == word,
{
    reveal_strlit("exactly ");
    let none = Seq::<char>::empty();
    last_word_is_read(front, key, word);
    let quoted = seq![q] + word + seq![q];
    assert forall|i: int| 0 <= i < quoted.len() implies !is_space(#[trigger] quoted[i]) by {
        if 1 <= i <= word.len() {
            assert(quoted[i] == word[i - 1]);
        }
    }
    last_word_is_read(front, key, quoted);
    quotes_are_taken_off(none, word, none);
    assert(none + word + none =~= word);
    assert forall|i: int| 0 <= i < seq![q].len() implies is_quoting(#[trigger] seq![q][i]) by {}
    quotes_are_taken_off(seq![q], word, seq![q]);
}

proof fn quotes_are_taken_off(a: Seq<char>, s: Seq<char>, b: Seq<char>)
    requires
        a.len() <= 1 && b.len() <= 1,
        forall|i: int| 0 <= i < a.len() ==> is_quoting(#[trigger] a[i]),
        forall|i: int| 0 <= i < b.len() ==> is_quoting(#[trigger] b[i]),
        s.len() > 0,
        !is_quoting(s[0]) && !is_quoting(s.last()),
    ensures
        trim_right(trim_left(a + s + b, quoting_class()), quoting_class()) == s,
{
    let class = quoting_class();
    let whole = a + s + b;
    let rest = s + b;
    assert(rest[0] == s[0]);
    assert(!class(rest[0]));
    assert(trim_left(rest, class) == rest);
    if a.len() == 1 {
        assert(whole[0] == a[0]);
        assert(class(whole[0]));
        assert(whole.skip(1) =~= rest);
    } else {
        assert(whole =~= rest);
    }
    assert(trim_left(whole, class) == rest);
    assert(!class(s.last()));
    assert(trim_right(s, class) == s);
    if b.len() == 1 {
        assert(rest.last() == b[0]);
        assert(class(rest.last()));
        assert(rest.drop_last() =~= s);
    } else {
        assert(rest =~= s);
    }
}

proof fn whole_lines_are_taken(s: Seq<char>)
    requires
        lacks(s, '\n'),
    ensures
        take_until(s, line_end_class()) == s,
    decreases s.len(),
{
    if s.len() > 0 {
        assert(!line_end_class()(s[0]));
        let rest = s.skip(1);
        assert forall|i: int| 0 <= i < rest.len() implies #[trigger] rest[i] != '\n' by {
            assert(rest[i] == s[i + 1]);
        }
        whole_lines_are_taken(rest);
        assert(seq![s[0]] + rest =~= s);
    } else {
        assert(take_until(s, line_end_class()) =~= s);
    }
}

proof fn last_word_is_read(front: Seq<char>, key: Seq<char>, word: Seq<char>)
    requires
        lowered(key) == "exactly "@,
        word.len() > 0,
        forall|i: int| 0 <= i < word.len() ==> !is_space(#[trigger] word[i]),
    ensures
        exact_answer(front + key + word) == ({
            let w = trim_right(trim_left(word, quoting_class()), quoting_class());
            if exists|i: int| 0 <= i < w.len() && is_space(#[trigger] w[i]) {
                Seq::empty()
            } else {
                w
            }
        }),
{
    reveal_strlit("exactly ");
    let p = "exactly "@;
    let task = front + key + word;
    let low = lowered(task);
    let n = front.len() as int;
    assert(key.len() == lowered(key).len());
    assert(low.subrange(n, n + p.len()) =~= p) by {
        assert forall|i: int| 0 <= i < p.len() implies low.subrange(n, n + p.len())[i] == p[i] by {
            assert(task[n + i] == key[i]);
            assert(lowered(key)[i] == p[i]);
        }
    }
    assert(occurs_at(low, p, n));
    assert forall|j: int| n < j <= low.len() - p.len() implies !occurs_at(low, p, j) by {
        if occurs_at(low, p, j) {
            let at = j + 7;
            assert(low.subrange(j, j + p.len())[7] == low[at]);
            assert(p[7] == ' ');
            assert(task[at] == word[at - n - 8]);
            assert(!is_space(task[at]));
            assert(low[at] == crate::text::lower(task[at]));
        }
    }
    last_places_are_found(low, p, low.len() - p.len(), n);
    assert(task.skip(n + p.len()) =~= word);
    assert(lacks(word, '\n')) by {
        assert forall|i: int| 0 <= i < word.len() implies #[trigger] word[i] != '\n' by {
            assert(!is_space(word[i]));
        }
    }
    whole_lines_are_taken(word);
    assert(!is_space(word[0]));
    assert(!is_space(word[word.len() - 1]));
    spaces_are_trimmed(Seq::empty(), word, Seq::empty());
}

/// The system's message tells of the tools exactly where they are on, and asks for a plan exactly
/// where one is required; the task follows it as it is.
pub proof fn conversations_begin_with_the_rules(
    model: Seq<char>,
    task: Seq<char>,
    tools: bool,
    plan: bool,
    extra: Seq<JsonView>,
)
    ensures
        ({
            let told = chat(model, task, tools, plan, extra).array_at("messages"@)->0;
            let rules = told[0].text_at("content"@)->0;
            &&& told[0].text_at("role"@) == Some("system"@)
            &&& told[0].text_at("content"@) is Some
            &&& !tools && !plan ==> rules == SYSTEM_PROMPT@
            &&& tools && !plan ==> rules == SYSTEM_PROMPT@ + TOOLS_CLAUSE@
            &&& !tools && plan ==> rules == SYSTEM_PROMPT@ + PLAN_CLAUSE@
            &&& tools && plan ==> rules == SYSTEM_PROMPT@ + TOOLS_CLAUSE@ + PLAN_CLAUSE@
            &&& told[1].text_at("role"@) == Some("user"@)
            &&& told[1].text_at("content"@) == Some("task: "@ + task)
            &&& told.skip(2) == extra
        }),
{
    reveal_strlit("model");
    reveal_strlit("messages");
    reveal_strlit("temperature");
    reveal_strlit("response_format");
    assert("model"@.len() == 5 && "messages"@.len() == 8 && "temperature"@.len() == 11
        && "response_format"@.len() == 15);
    reveal_strlit("role");
    reveal_strlit("content");
    assert("role"@.len() == 4 && "content"@.len() == 7);
    let told = chat(model, task, tools, plan, extra).array_at("messages"@)->0;
    assert(told.skip(2) =~= extra);
    let none = Seq::<char>::empty();
    assert(SYSTEM_PROMPT@ + none + none =~= SYSTEM_PROMPT@);
    assert(SYSTEM_PROMPT@ + TOOLS_CLAUSE@ + none =~= SYSTEM_PROMPT@ + TOOLS_CLAUSE@);
    assert(SYSTEM_PROMPT@ + none + PLAN_CLAUSE@ =~= SYSTEM_PROMPT@ + PLAN_CLAUSE@);
}

/// A follow-up names the number of the call and repeats the note.
pub proof fn follow_ups_name_the_call(note: Seq<char>, hops: u32)
    ensures
        follow_up_text(note, hops) == "MCP tool call #"@ + decimal(hops as nat) + " has finished. "@ + note
            + FOLLOW_UP@,
{
}

// ---------------------------------------------------------------------------
// Rules
// ---------------------------------------------------------------------------

/// The rules that the system's message of a request tells.
pub open spec fn rules_of(payload: JsonView) -> Option<Seq<char>> {
    match payload.array_at("messages"@) {
        Some(told) => told[0].text_at("content"@),
        None => None,
    }
}

/// The last message of a request.
pub open spec fn last_of(payload: JsonView) -> Option<Seq<char>> {
    match payload.array_at("messages"@) {
        Some(told) => told.last().text_at("content"@),
        None => None,
    }
}

proof fn requests_tell_their_rules(s: SettingsView, tools: bool, plan: bool, extra: Seq<JsonView>)
    ensures
        ({
            let payload = to_provider(chat(s.model, s.task, tools, plan, extra), s);
            &&& rules_of(payload) == Some(
                SYSTEM_PROMPT@ + (if tools {
                    TOOLS_CLAUSE@
                } else {
                    Seq::empty()
                }) + (if plan {
                    PLAN_CLAUSE@
                } else {
                    Seq::empty()
                }),
            )
            &&& extra.len() > 0 ==> last_of(payload) == extra.last().text_at("content"@)
        }),
{
    reveal_strlit("model");
    reveal_strlit("messages");
    reveal_strlit("temperature");
    reveal_strlit("response_format");
    reveal_strlit("base_url");
    reveal_strlit("api_key_env");
    assert("model"@.len() == 5 && "messages"@.len() == 8 && "temperature"@.len() == 11
        && "response_format"@.len() == 15 && "base_url"@.len() == 8 && "api_key_env"@.len() == 11);
    assert("messages"@[0] != "base_url"@[0]);
    assert("temperature"@[0] != "api_key_env"@[0]);
    reveal_strlit("role");
    reveal_strlit("content");
    assert("role"@.len() == 4 && "content"@.len() == 7);
}

/// The first request of a run tells of the tools where they are on, and of the plan where one is
/// required.
pub proof fn first_requests_tell_all_rules(s: SettingsView, doc: JsonView)
    requires
        settled(doc).len() == 0,
    ensures
        turn(s, doc) is Invoke,
        turn(s, doc)->Invoke_operation == "model.chat"@,
        s.tools_required ==> rules_of(turn(s, doc)->payload) == Some(
            SYSTEM_PROMPT@ + (if s.tools_enabled {
                TOOLS_CLAUSE@
            } else {
                Seq::empty()
            }) + PLAN_CLAUSE@,
        ),
        !s.tools_required && s.tools_enabled ==> rules_of(turn(s, doc)->payload) == Some(
            SYSTEM_PROMPT@ + TOOLS_CLAUSE@,
        ),
        !s.tools_required && !s.tools_enabled ==> rules_of(turn(s, doc)->payload) == Some(SYSTEM_PROMPT@),
{
    requests_tell_their_rules(s, s.tools_enabled, s.tools_required, Seq::empty());
    let none = Seq::<char>::empty();
    assert(SYSTEM_PROMPT@ + none + none =~= SYSTEM_PROMPT@);
    assert(SYSTEM_PROMPT@ + TOOLS_CLAUSE@ + none =~= SYSTEM_PROMPT@ + TOOLS_CLAUSE@);
}

/// After a tool call the model may call another only where tools are on and fewer than four calls
/// were made; behind the fourth it is told that there is none left. No plan is asked for again.
pub proof fn later_requests_tell_what_is_left(s: SettingsView, doc: JsonView)
    requires
        settled(doc).len() > 0,
        settled(doc).last().text_at("operation"@) matches Some(op) && begins_with(op, "mcp."@),
        turn(s, doc) is Invoke,
        turn(s, doc)->Invoke_operation == "model.chat"@,
    ensures
        s.tools_enabled && op_total(doc, "mcp."@) < 4 ==> rules_of(turn(s, doc)->payload) == Some(
            SYSTEM_PROMPT@ + TOOLS_CLAUSE@,
        ),
        !s.tools_enabled || op_total(doc, "mcp."@) >= 4 ==> rules_of(turn(s, doc)->payload) == Some(
            SYSTEM_PROMPT@,
        ),
        op_total(doc, "mcp."@) >= 4 ==> last_of(turn(s, doc)->payload) == Some(BUDGET_NOTE@),
{
    reveal_strlit("mcp.call_tool");
    reveal_strlit("model.chat");
    assert("mcp.call_tool"@.len() == 13 && "model.chat"@.len() == 10);
    reveal_strlit("role");
    reveal_strlit("content");
    assert("role"@.len() == 4 && "content"@.len() == 7);
    let e = settled(doc).last();
    let calls = op_total(doc, "mcp."@);
    let last = calls >= 4;
    let text = match result_text(e) {
        Some(t) => t,
        None => Seq::empty(),
    };
    let none = Seq::<char>::empty();
    assert(SYSTEM_PROMPT@ + none + none =~= SYSTEM_PROMPT@);
    assert(SYSTEM_PROMPT@ + TOOLS_CLAUSE@ + none =~= SYSTEM_PROMPT@ + TOOLS_CLAUSE@);
    let state = text_or(e, "state"@, Seq::empty());
    let note = if state == "committed"@ {
        "The MCP tool call succeeded with result:\n"@ + summary(text)
    } else {
        "The MCP tool call failed: "@ + (match e.text_at("error_code"@) {
            Some(c) => c,
            None => "tool call failed"@,
        })
    };
    let told = message("user"@, follow_up(note, parsed(text), calls));
    let extra = if last {
        seq![told, message("user"@, JsonView::Text(BUDGET_NOTE@))]
    } else {
        seq![told]
    };
    requests_tell_their_rules(s, s.tools_enabled && !last, false, extra);
    assert(turn(s, doc) == ask_model(s, s.tools_enabled && !last, false, extra));
}

/// A tool call that neither committed nor failed ends the run with its state.
pub proof fn other_states_end_the_run(s: SettingsView, doc: JsonView, state: Seq<char>)
    requires
        settled(doc).len() > 0,
        settled(doc).last().text_at("operation"@) matches Some(op) && begins_with(op, "mcp."@),
        settled(doc).last().text_at("state"@) == Some(state),
        state != "committed"@,
        state != "failed"@,
    ensures
        turn(s, doc) == (StepView::Fail { reason_code: "mcp_effect_"@ + state }),
{
}

/// A model that does not give the required plan is told so, with all rules; and one that repeats
/// its call is told which call has finished, once with its tools behind the first call, and
/// without them otherwise.
pub proof fn reminders_tell_what_is_wrong(
    s: SettingsView,
    doc: JsonView,
    content: Seq<char>,
    reply: Option<JsonView>,
)
    requires
        model_replied(doc, content, reply),
        turn(s, doc) is Invoke,
        turn(s, doc)->Invoke_operation == "model.chat"@,
    ensures
        ({
            let calls = op_total(doc, "mcp."@);
            let replies = op_total(doc, "model.chat"@);
            let asked = turn(s, doc)->payload;
            &&& s.tools_required && calls == 0 ==> rules_of(asked) == Some(
                SYSTEM_PROMPT@ + TOOLS_CLAUSE@ + PLAN_CLAUSE@,
            ) && last_of(asked) == Some(PLAN_REMINDER@)
            &&& !(s.tools_required && calls == 0) && calls == 1 && replies <= 2 ==> rules_of(asked) == Some(
                SYSTEM_PROMPT@ + TOOLS_CLAUSE@,
            ) && last_of(asked) == Some(REPEAT_LEAD@ + decimal(calls as nat) + REPEAT_REST@)
            &&& !(s.tools_required && calls == 0) && !(calls == 1
                && replies <= 2) ==> rules_of(asked) == Some(
                SYSTEM_PROMPT@,
            ) && last_of(asked) == Some(decimal(calls as nat) + CLOSED_REST@)
        }),
{
    reveal_strlit("mcp.call_tool");
    reveal_strlit("model.chat");
    assert("mcp.call_tool"@.len() == 13 && "model.chat"@.len() == 10);
    reveal_strlit("role");
    reveal_strlit("content");
    assert("role"@.len() == 4 && "content"@.len() == 7);
    reveal_strlit("committed");
    reveal_strlit("failed");
    assert("committed"@.len() == 9 && "failed"@.len() == 6);
    reveal_strlit("mcp.");
    assert("mcp."@.len() == 4);
    assert("model.chat"@.subrange(0, 4)[1] != "mcp."@[1]);
    let calls = op_total(doc, "mcp."@);
    let replies = op_total(doc, "model.chat"@);
    let none = Seq::<char>::empty();
    assert(SYSTEM_PROMPT@ + none + none =~= SYSTEM_PROMPT@);
    assert(SYSTEM_PROMPT@ + TOOLS_CLAUSE@ + none =~= SYSTEM_PROMPT@ + TOOLS_CLAUSE@);
    let said = message("assistant"@, JsonView::Text(content));
    let reminder = seq![said, message("user"@, JsonView::Text(PLAN_REMINDER@))];
    let repeat = seq![
        said,
        message("user"@, JsonView::Text(REPEAT_LEAD@ + decimal(calls as nat) + REPEAT_REST@)),
    ];
    let closed = seq![said, message("user"@, JsonView::Text(decimal(calls as nat) + CLOSED_REST@))];
    requests_tell_their_rules(s, true, true, reminder);
    requests_tell_their_rules(s, true, false, repeat);
    requests_tell_their_rules(s, false, false, closed);
    if s.tools_required && calls == 0 {
        assert(turn(s, doc) == ask_model(s, true, true, reminder));
    } else if calls == 1 && replies <= 2 {
        assert(turn(s, doc) == ask_model(s, true, false, repeat));
    } else {
        assert(turn(s, doc) == ask_model(s, false, false, closed));
    }
}

/// Whatever completes a run, its output is a text of at most so many bytes as are kept.
pub proof fn outputs_are_limited(s: SettingsView, doc: JsonView)
    requires
        turn(s, doc) is Complete,
    ensures
        uri_text(turn(s, doc)->output_ref) is Some,
        encode_utf8(uri_text(turn(s, doc)->output_ref)->0).len() <= 24576,
{
    assert forall|text: Seq<char>| uri_text(#[trigger] text_uri(text, 24576)) is Some && encode_utf8(
        uri_text(text_uri(text, 24576))->0,
    ).len() <= 24576 by {
        uri_carries_its_text(text, 24576);
        texts_are_clipped_to_fit(text, 24576);
        let kept = uri_text(text_uri(text, 24576))->0;
        if kept.len() == 0 {
            assert(kept =~= Seq::empty());
            assert(encode_utf8(kept).len() == 0);
        }
    }
}

} // verus!
