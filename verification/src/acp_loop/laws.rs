//! What a turn that is driven by another agent asks of it, allows it, and makes of its answer.

use vstd::prelude::*;
use vstd::utf8::encode_utf8;

use crate::acp_loop::{
    answered, arguments, decided, said, shortened, task_in, turn_step, AcpActionView, AcpEvent,
};
use crate::base64::{uri_carries_its_text, uri_text};
use crate::base64::laws::texts_are_clipped_to_fit;
use crate::contract::DecisionView;
use crate::json::JsonView;
use crate::openrouter_effect::mcp::text_items;
use crate::rpc::ReplyView;
use crate::text::{begins_with, is_space, trimmed, words_of};

verus! {

/// The task is the member "task" of the state, where it has a text there that is not empty, and
/// else the whole state.
pub proof fn tasks_are_those_of_the_state(raw: Seq<char>, value: JsonView, task: Seq<char>)
    ensures
        value.get("task"@) == Some(JsonView::Text(task)) && task.len() > 0 ==> task_in(raw, Some(value))
            == task,
        value.get("task"@) == Some(JsonView::Text(Seq::empty())) ==> task_in(raw, Some(value)) == raw,
        value.get("task"@) is None ==> task_in(raw, Some(value)) == raw,
        task_in(raw, None) == raw,
{
}

/// A setting without JSON holds its words as arguments; an empty one holds none.
pub proof fn settings_hold_their_words(raw: Seq<char>, value: Option<JsonView>)
    ensures
        trimmed(raw).len() == 0 ==> arguments(raw, value).len() == 0,
        trimmed(raw).len() > 0 && !(value is Some && value->0 is Array) ==> arguments(raw, value)
            == words_of(trimmed(raw)),
{
}

/// A word that follows a space becomes the last of the arguments, whole.
pub proof fn words_are_kept_whole(front: Seq<char>, space: char, word: Seq<char>)
    requires
        is_space(space),
        word.len() > 0,
        forall|i: int| 0 <= i < word.len() ==> !is_space(#[trigger] word[i]),
    ensures
        words_of(front.push(space)) == words_of(front),
        words_of(front.push(space) + word) == words_of(front).push(word),
        words_of(Seq::empty()).len() == 0,
    decreases word.len(),
{
    assert(front.push(space).drop_last() =~= front);
    let whole = front.push(space) + word;
    let less = word.drop_last();
    assert(whole.drop_last() =~= front.push(space) + less);
    assert(whole.last() == word[word.len() - 1]);
    if word.len() == 1 {
        assert(front.push(space) + less =~= front.push(space));
        assert(whole[whole.len() - 2] == space);
        assert(seq![whole.last()] =~= word);
    } else {
        assert forall|i: int| 0 <= i < less.len() implies !is_space(#[trigger] less[i]) by {
            assert(less[i] == word[i]);
        }
        words_are_kept_whole(front, space, less);
        assert(whole[whole.len() - 2] == word[word.len() - 2]);
        let r = words_of(front).push(less);
        assert(r.drop_last() =~= words_of(front));
        assert(less.push(whole.last()) =~= word);
    }
}

/// The agent is first greeted, offering it neither files nor a terminal; then it is asked for a
/// session in the directory; then it is given the task in the session that it opened; and what it
/// has said ends the turn.
pub proof fn turns_ask_in_order(result: crate::json::Json, cwd: Seq<char>, task: Seq<char>, text: Seq<char>)
    ensures
        ({
            let greeted = turn_step(AcpEvent::Spawned(Ok(())), cwd, task, text);
            &&& greeted is Request
            &&& greeted->method == "initialize"@
            &&& greeted->params.get("protocolVersion"@) == Some(JsonView::Uint(1))
            &&& greeted->params.get("clientCapabilities"@) is Some
            &&& ({
                let offers = greeted->params.get("clientCapabilities"@)->0;
                &&& offers.get("terminal"@) == Some(JsonView::Bool(false))
                &&& offers.get("fs"@) is Some
                &&& offers.get("fs"@)->0.get("readTextFile"@) == Some(JsonView::Bool(false))
                &&& offers.get("fs"@)->0.get("writeTextFile"@) == Some(JsonView::Bool(false))
            })
        }),
        ({
            let opened = turn_step(AcpEvent::Initialized(Ok(())), cwd, task, text);
            &&& opened is Request
            &&& opened->method == "session/new"@
            &&& opened->params.text_at("cwd"@) == Some(cwd)
            &&& opened->params.array_at("mcpServers"@) == Some(Seq::<JsonView>::empty())
        }),
        ({
            let asked = turn_step(AcpEvent::Opened(Ok(result)), cwd, task, text);
            &&& asked is Request
            &&& asked->method == "session/prompt"@
            &&& result@.text_at("sessionId"@) is Some ==> asked->params.text_at("sessionId"@)
                == result@.text_at("sessionId"@)
            &&& asked->params.array_at("prompt"@) is Some
            &&& asked->params.array_at("prompt"@)->0.len() == 1
            &&& asked->params.array_at("prompt"@)->0[0].text_at("type"@) == Some("text"@)
            &&& asked->params.array_at("prompt"@)->0[0].text_at("text"@) == Some(task)
        }),
        turn_step(AcpEvent::Prompted(Ok(())), cwd, task, text) == AcpActionView::Done(Ok(text)),
{
    reveal_strlit("protocolVersion");
    reveal_strlit("clientCapabilities");
    reveal_strlit("clientInfo");
    assert("protocolVersion"@.len() == 15 && "clientCapabilities"@.len() == 18 && "clientInfo"@.len() == 10);
    reveal_strlit("fs");
    reveal_strlit("terminal");
    assert("fs"@.len() == 2 && "terminal"@.len() == 8);
    reveal_strlit("readTextFile");
    reveal_strlit("writeTextFile");
    assert("readTextFile"@.len() == 12 && "writeTextFile"@.len() == 13);
    reveal_strlit("cwd");
    reveal_strlit("mcpServers");
    assert("cwd"@.len() == 3 && "mcpServers"@.len() == 10);
    reveal_strlit("sessionId");
    reveal_strlit("prompt");
    assert("sessionId"@.len() == 9 && "prompt"@.len() == 6);
    reveal_strlit("type");
    reveal_strlit("text");
    assert("type"@.len() == 4 && "text"@.len() == 4);
    assert("type"@[1] != "text"@[1]);
}

/// A turn that fails says at which request, with up to eighty characters of the reason.
pub proof fn failures_say_where(e: String, cwd: Seq<char>, task: Seq<char>, text: Seq<char>)
    ensures
        turn_step(AcpEvent::Spawned(Err(e)), cwd, task, text) == AcpActionView::Done(
            Err("acp_spawn_"@ + shortened(e@)),
        ),
        turn_step(AcpEvent::Initialized(Err(e)), cwd, task, text) == AcpActionView::Done(
            Err("acp_initialize_"@ + shortened(e@)),
        ),
        turn_step(AcpEvent::Opened(Err(e)), cwd, task, text) == AcpActionView::Done(
            Err("acp_session_"@ + shortened(e@)),
        ),
        turn_step(AcpEvent::Prompted(Err(e)), cwd, task, text) == AcpActionView::Done(
            Err("acp_prompt_"@ + shortened(e@)),
        ),
        e@.len() <= 80 ==> shortened(e@) == e@,
        e@.len() > 80 ==> shortened(e@).len() == 80 && begins_with(e@, shortened(e@)),
{
    if e@.len() > 80 {
        assert(e@.subrange(0, 80) =~= e@.take(80));
    }
}

/// Only a message of the agent adds to what it has said, and it adds its text.
pub proof fn messages_are_what_is_said(method: Seq<char>, params: JsonView, update: JsonView)
    requires
        params.get("update"@) == Some(update),
    ensures
        ({
            let kind = update.text_at("sessionUpdate"@);
            let told = method == "session/update"@ && (kind == Some("agent_message_chunk"@) || kind
                == Some("agent_message"@)) && update.get("content"@) is Some
                    && update.get("content"@)->0.text_at(
                "text"@,
            ) is Some;
            &&& told ==> said(method, params) == update.get("content"@)->0.text_at("text"@)->0
            &&& !told ==> said(method, params).len() == 0
        }),
{
}

/// The agent is given leave only where tools are allowed, and then by the first of the options
/// whose kind begins with "allow"; every other request of it is refused.
pub proof fn leave_is_given_by_the_first_option(
    method: Seq<char>,
    params: JsonView,
    options: Seq<JsonView>,
    i: int,
    id: Seq<char>,
    kind: Seq<char>,
    allow_tools: bool,
)
    requires
        params.array_at("options"@) == Some(options),
        0 <= i < options.len(),
        options[i].text_at("kind"@) == Some(kind) && begins_with(kind, "allow"@),
        options[i].text_at("optionId"@) == Some(id),
        forall|j: int|
            0 <= j < i ==> !(#[trigger] options[j].text_at("kind"@) is Some && begins_with(
                options[j].text_at("kind"@)->0,
                "allow"@,
            )),
    ensures
        ({
            let r = answered("session/request_permission"@, params, allow_tools);
            &&& r is Result
            &&& r->Result_0.get("outcome"@) is Some
            &&& ({
                let outcome = r->Result_0.get("outcome"@)->0;
                &&& outcome.text_at("outcome"@) == Some(
                    if allow_tools { "selected"@ } else { "cancelled"@ },
                )
                &&& allow_tools ==> outcome.text_at("optionId"@) == Some(id)
                &&& !allow_tools ==> outcome.get("optionId"@) is None
            })
        }),
        method != "session/request_permission"@ ==> answered(method, params, allow_tools) == (
        ReplyView::Error { code: -32601, message: "unsupported client capability"@ }),
{
    reveal_strlit("outcome");
    reveal_strlit("optionId");
    assert("outcome"@.len() == 7 && "optionId"@.len() == 8);
    first_allowing_at(options, i);
}

/// Where no option allows anything, the first one is chosen.
pub proof fn refusals_take_the_first_option(params: JsonView, options: Seq<JsonView>, id: Seq<char>)
    requires
        params.array_at("options"@) == Some(options),
        options.len() > 0,
        options[0].text_at("optionId"@) == Some(id),
        forall|j: int|
            0 <= j < options.len() ==> !(#[trigger] options[j].text_at("kind"@) is Some && begins_with(
                options[j].text_at("kind"@)->0,
                "allow"@,
            )),
    ensures
        answered("session/request_permission"@, params, true) is Result,
        answered("session/request_permission"@, params, true)->Result_0.get("outcome"@) is Some,
        answered("session/request_permission"@, params, true)->Result_0.get("outcome"@)->0.text_at(
            "optionId"@,
        ) == Some(id),
{
    reveal_strlit("outcome");
    reveal_strlit("optionId");
    assert("outcome"@.len() == 7 && "optionId"@.len() == 8);
    none_allowing(options);
}

proof fn none_allowing(options: Seq<JsonView>)
    requires
        forall|j: int|
            0 <= j < options.len() ==> !(#[trigger] options[j].text_at("kind"@) is Some && begins_with(
                options[j].text_at("kind"@)->0,
                "allow"@,
            )),
    ensures
        crate::acp_loop::first_allowing(options) is None,
    decreases options.len(),
{
    if options.len() > 0 {
        assert(!crate::acp_loop::allows(options[0])) by {
            assert(!(options[0].text_at("kind"@) is Some && begins_with(
                options[0].text_at("kind"@)->0,
                "allow"@,
            )));
        }
        assert forall|j: int| 0 <= j < options.skip(1).len() implies !(
        #[trigger] options.skip(1)[j].text_at("kind"@) is Some && begins_with(
            options.skip(1)[j].text_at("kind"@)->0,
            "allow"@,
        )) by {
            assert(options.skip(1)[j] == options[j + 1]);
            assert(!(options[j + 1].text_at("kind"@) is Some && begins_with(
                options[j + 1].text_at("kind"@)->0,
                "allow"@,
            )));
        }
        none_allowing(options.skip(1));
    }
}

proof fn first_allowing_at(options: Seq<JsonView>, i: int)
    requires
        0 <= i < options.len(),
        options[i].text_at("kind"@) is Some && begins_with(options[i].text_at("kind"@)->0, "allow"@),
        forall|j: int|
            0 <= j < i ==> !(#[trigger] options[j].text_at("kind"@) is Some && begins_with(
                options[j].text_at("kind"@)->0,
                "allow"@,
            )),
    ensures
        crate::acp_loop::first_allowing(options) == Some(options[i]),
    decreases i,
{
    if i > 0 {
        assert(!(options[0].text_at("kind"@) is Some && begins_with(
            options[0].text_at("kind"@)->0,
            "allow"@,
        )));
        assert forall|j: int| 0 <= j < i - 1 implies !(#[trigger] options.skip(1)[j].text_at("kind"@) is Some
            && begins_with(options.skip(1)[j].text_at("kind"@)->0, "allow"@)) by {
            assert(options.skip(1)[j] == options[j + 1]);
            assert(!(options[j + 1].text_at("kind"@) is Some && begins_with(
                options[j + 1].text_at("kind"@)->0,
                "allow"@,
            )));
        }
        first_allowing_at(options.skip(1), i - 1);
    }
}

/// A run is completed with what the agent has said, whole up to the most bytes that are kept, or
/// failed with the code.
pub proof fn answers_complete_the_run(text: String, code: String)
    ensures
        decided(Ok(text)) is Complete,
        encode_utf8(text@).len() <= 24576 ==> uri_text(decided(Ok(text))->output_ref) == Some(text@),
        decided(Err(code)) == (DecisionView::Fail { reason_code: code@ }),
{
    if encode_utf8(text@).len() <= 24576 {
        uri_carries_its_text(text@, 24576);
    }
}

/// What is kept of an answer of any length is the beginning of it that fits.
pub proof fn answers_are_limited(text: String)
    ensures
        uri_text(decided(Ok(text))->output_ref) is Some,
        begins_with(text@, uri_text(decided(Ok(text))->output_ref)->0),
        encode_utf8(uri_text(decided(Ok(text))->output_ref)->0).len() <= 24576,
{
    uri_carries_its_text(text@, 24576);
    texts_are_clipped_to_fit(text@, 24576);
    let kept = uri_text(decided(Ok(text))->output_ref)->0;
    assert(text@.subrange(0, kept.len() as int) =~= text@.take(kept.len() as int));
    if kept.len() == 0 {
        assert(kept =~= Seq::empty());
        assert(encode_utf8(kept).len() == 0);
    }
}

/// A setting that is a JSON array holds its texts as arguments.
pub proof fn settings_hold_their_texts(raw: Seq<char>, items: Seq<JsonView>)
    requires
        trimmed(raw).len() > 0,
    ensures
        arguments(raw, Some(JsonView::Array(items))) == text_items(items),
{
}

} // verus!
