//! The requests that go to the chat model.

use vstd::prelude::*;
use vstd::string::*;

use crate::json::{item_views, items, members, parsed, printed, Json, JsonView};
use crate::text::{decimal, decimal_text, same_text};

verus! {

/// What the model is told in every request.
pub const SYSTEM_PROMPT: &'static str = "You are the decision loop of an agent operating system. \
        You receive the task (what the user asked the agent to do). \
        Reply with EXACTLY ONE JSON object and nothing else — no prose, \
        no markdown fences. Choose one:\n\
        {\"complete\": {\"output\": \"<the final answer/result text>\"}}\n\
        {\"fail\": {\"reason_code\": \"<snake_case>\"}}\n\
        {\"wait\": {\"reason\": \"<what you are waiting for>\"}}\n\
        {\"request_approval\": {\"operation\": \"<op>\", \"reason\": \"<why a human must approve>\"}}\n\n\
        Use \"complete\" with the best answer you can produce when no more \
        actions are needed. Use \"request_approval\" only for genuinely risky/irreversible \
        intent. Use \"wait\" only if the task explicitly says to pause.";

/// What the model is told where it may call tools.
pub const TOOLS_CLAUSE: &'static str = "\n\nYou may also call an MCP tool by replying \
        {\"mcp_call\": {\"server\": \"<server name>\", \"tool\": \"<tool>\", \
        \"arguments\": {...}}} — the kernel executes it and hands you the \
        result on the next turn. The built-in `computer` server provides \
        screenshot {}, click {x,y,button}, type {text}, key {key}, and \
        wait {milliseconds}. If the task asks you to inspect, operate, type \
        into, click, press keys in, or wait on the computer, you MUST call \
        the appropriate tool instead of narrating or claiming the action. \
        Use screenshot before and after visual actions.";

/// What the model is told where it must answer with a plan of tool calls.
pub const PLAN_CLAUSE: &'static str = "\n\nComputer mode is active. Reply with exactly one plan object:\n\
        {\"mcp_plan\":{\"calls\":[{\"server\":\"computer\",\"tool\":\"<tool>\",\
        \"arguments\":{}}],\"final_output\":\"<exact literal response only when requested>\"}}\n\
        Include every requested computer action in order, with no more than \
        four calls. Use `final_output` only when the task gives exact final \
        response text; visual answers are produced after inspecting the result. Do \
        not return `complete`, `mcp_call`, prose, or markdown.";

/// The system message of a request.
pub open spec fn system_text(tools_enabled: bool, tools_required: bool) -> Seq<char> {
    SYSTEM_PROMPT@ + (if tools_enabled {
        TOOLS_CLAUSE@
    } else {
        Seq::empty()
    }) + (if tools_required {
        PLAN_CLAUSE@
    } else {
        Seq::empty()
    })
}

/// One message of a conversation.
pub open spec fn message(role: Seq<char>, content: JsonView) -> JsonView {
    JsonView::Object(map!["role"@ => JsonView::Text(role), "content"@ => content])
}

/// A chat-completions request whose conversation goes on with `extra`.
pub open spec fn chat(
    model: Seq<char>,
    task: Seq<char>,
    tools_enabled: bool,
    tools_required: bool,
    extra: Seq<JsonView>,
) -> JsonView {
    JsonView::Object(
        map![
            "model"@ => JsonView::Text(model),
            "messages"@ => JsonView::Array(
                seq![
                    message("system"@, JsonView::Text(system_text(tools_enabled, tools_required))),
                    message("user"@, JsonView::Text("task: "@ + task)),
                ] + extra,
            ),
            "temperature"@ => JsonView::Real("0.2"@),
            "response_format"@ => JsonView::Object(map!["type"@ => JsonView::Text("json_object"@)]),
        ],
    )
}

/// One message of a conversation.
pub fn chat_message(role: &str, content: Json) -> (r: Json)
    ensures
        r@ == message(role@, content@),
{
    members().put_text("role", role).put("content", content).object()
}

/// A chat-completions request whose conversation goes on with `extra`.
pub fn chat_request_with(
    model: &str,
    task: &str,
    tools_enabled: bool,
    tools_required: bool,
    extra: Vec<Json>,
) -> (r: Json)
    ensures
        r@ == chat(model@, task@, tools_enabled, tools_required, item_views(extra@)),
{
    let mut system = SYSTEM_PROMPT.to_owned();
    if tools_enabled {
        system.append(TOOLS_CLAUSE);
    } else {
        assert(system@ =~= SYSTEM_PROMPT@ + Seq::empty());
    }
    if tools_required {
        system.append(PLAN_CLAUSE);
    } else {
        assert(system@ =~= system@ + Seq::empty());
    }
    let mut user = "task: ".to_owned();
    user.append(task);
    let mut messages = items().push(chat_message("system", Json::Text(system))).push(
        chat_message("user", Json::Text(user)),
    );
    let ghost head = messages@;
    let ghost views = item_views(extra@);
    assert(head =~= seq![
        message("system"@, JsonView::Text(system_text(tools_enabled, tools_required))),
        message("user"@, JsonView::Text("task: "@ + task@)),
    ]);
    let mut i: usize = 0;
    assert(head + views.take(0) =~= head);
    while i < extra.len()
        invariant
            i <= extra.len(),
            views == item_views(extra@),
            messages@ == head + views.take(i as int),
        decreases extra.len() - i,
    {
        assert((head + views.take(i as int)).push(views[i as int]) =~= head + views.take(i + 1));
        messages = messages.push(extra[i].copy());
        i += 1;
    }
    assert(views.take(extra.len() as int) =~= views);
    members().put_text("model", model).put("messages", messages.array()).put(
        "temperature",
        Json::Real("0.2".to_owned()),
    ).put("response_format", members().put_text("type", "json_object").object()).object()
}

/// The first chat-completions request for a task.
pub fn chat_request(model: &str, task: &str, tools_enabled: bool, tools_required: bool) -> (r: Json)
    ensures
        r@ == chat(model@, task@, tools_enabled, tools_required, Seq::empty()),
{
    let none: Vec<Json> = Vec::new();
    assert(item_views(none@) =~= Seq::empty());
    chat_request_with(model, task, tools_enabled, tools_required, none)
}

// ---------------------------------------------------------------------------
// Tool results
// ---------------------------------------------------------------------------

/// What stands in the place of an image in the text of a tool result.
pub const IMAGE_NOTE: &'static str = "[image attached]";

/// Whether a content item is an image.
pub open spec fn is_image(item: JsonView) -> bool {
    item.text_at("type"@) == Some("image"@)
}

/// A content item without the data of an image.
pub open spec fn without_data(item: JsonView) -> JsonView {
    if is_image(item) {
        item.with("data"@, JsonView::Text(IMAGE_NOTE@))
    } else {
        item
    }
}

/// A parsed tool result without the data of its images.
pub open spec fn abridged(result: JsonView) -> JsonView {
    match result.array_at("content"@) {
        Some(content) => result.with(
            "content"@,
            JsonView::Array(content.map_values(|item: JsonView| without_data(item))),
        ),
        None => result,
    }
}

fn is_image_item(item: &Json) -> (r: bool)
    ensures
        r == is_image(item@),
{
    match item.text_at("type") {
        Some(t) => same_text(t, "image"),
        None => false,
    }
}

/// A parsed tool result without the data of its images.
pub fn abridge(result: &Json) -> (r: Json)
    ensures
        r@ == abridged(result@),
{
    let mut out = result.copy();
    if let Some(content) = result.array_at("content") {
        let ghost views = item_views(content@);
        let ghost target = views.map_values(|item: JsonView| without_data(item));
        let mut list = items();
        let mut i: usize = 0;
        assert(target.take(0) =~= Seq::empty());
        while i < content.len()
            invariant
                i <= content.len(),
                views == item_views(content@),
                target == views.map_values(|item: JsonView| without_data(item)),
                list@ == target.take(i as int),
            decreases content.len() - i,
        {
            let mut item = content[i].copy();
            if is_image_item(&item) {
                item.set("data", Json::text(IMAGE_NOTE));
            }
            assert(target.take(i + 1) =~= target.take(i as int).push(target[i as int]));
            list = list.push(item);
            i += 1;
        }
        assert(target.take(content.len() as int) =~= target);
        out.set("content", list.array());
    }
    out
}

/// The text of a tool result without the data of its images; a result that is no
/// JSON stands as it is.
pub open spec fn summary(result: Seq<char>) -> Seq<char> {
    match parsed(result) {
        Some(v) => printed(abridged(v)),
        None => result,
    }
}

/// The text of a tool result without the data of its images.
pub fn summarize_mcp_result(result: &str) -> (r: String)
    ensures
        r@ == summary(result@),
{
    match Json::from_text(result) {
        Some(v) => abridge(&v).to_text(),
        None => result.to_owned(),
    }
}

/// The image that a content item shows the model.
pub open spec fn image_of(item: JsonView) -> Option<JsonView> {
    if !is_image(item) {
        None
    } else {
        match (item.text_at("mimeType"@), item.text_at("data"@)) {
            (Some(mime), Some(data)) => if data == IMAGE_NOTE@ {
                None
            } else {
                Some(
                    JsonView::Object(
                        map![
                            "type"@ => JsonView::Text("image_url"@),
                            "image_url"@ => JsonView::Object(map![
                                "url"@ => JsonView::Text("data:"@ + mime + ";base64,"@ + data),
                            ]),
                        ],
                    ),
                )
            },
            _ => None,
        }
    }
}

/// The images that content items show the model.
pub open spec fn images_in(content: Seq<JsonView>) -> Seq<JsonView>
    decreases content.len(),
{
    if content.len() == 0 {
        Seq::empty()
    } else {
        match image_of(content.last()) {
            Some(image) => images_in(content.drop_last()).push(image),
            None => images_in(content.drop_last()),
        }
    }
}

/// What the model is told about the tool call that has finished.
pub open spec fn follow_up_text(note: Seq<char>, hops: u32) -> Seq<char> {
    "MCP tool call #"@ + decimal(hops as nat) + " has finished. "@ + note + FOLLOW_UP@
}

/// What follows the note on a finished tool call.
pub const FOLLOW_UP: &'static str = "\n\
         The `request` field identifies the completed call. Do not immediately \
         repeat that same call. Continue with the next pending action from the \
         task, or return `complete` when all requested actions are finished.";

/// The content of the message on a finished tool call: a text, or a text and the
/// images of the parsed result.
pub open spec fn follow_up(note: Seq<char>, result: Option<JsonView>, hops: u32) -> JsonView {
    let text = follow_up_text(note, hops);
    let images = match result {
        Some(v) => match v.array_at("content"@) {
            Some(content) => images_in(content),
            None => Seq::empty(),
        },
        None => Seq::empty(),
    };
    if images.len() == 0 {
        JsonView::Text(text)
    } else {
        JsonView::Array(
            seq![
                JsonView::Object(
                    map!["type"@ => JsonView::Text("text"@), "text"@ => JsonView::Text(text)],
                ),
            ] + images,
        )
    }
}

fn image_item(item: &Json) -> (r: Option<Json>)
    ensures
        crate::json::same_opt_json(r, image_of(item@)),
{
    if !is_image_item(item) {
        return None;
    }
    match (item.text_at("mimeType"), item.text_at("data")) {
        (Some(mime), Some(data)) => {
            if same_text(data, IMAGE_NOTE) {
                return None;
            }
            let mut url = "data:".to_owned();
            url.append(mime);
            url.append(";base64,");
            url.append(data);
            Some(
                members().put_text("type", "image_url").put(
                    "image_url",
                    members().put_text("url", url.as_str()).object(),
                ).object(),
            )
        },
        _ => None,
    }
}

/// The content of the message on a finished tool call.
pub fn follow_up_content(note: &str, result: &Option<Json>, mcp_hops: u32) -> (r: Json)
    ensures
        r@ == follow_up(
            note@,
            match result {
                Some(v) => Some(v@),
                None => None,
            },
            mcp_hops,
        ),
{
    let mut text = "MCP tool call #".to_owned();
    text.append(decimal_text(mcp_hops as u64).as_str());
    text.append(" has finished. ");
    text.append(note);
    text.append(FOLLOW_UP);
    let content = match result {
        Some(v) => v.array_at("content"),
        None => None,
    };
    let content = match content {
        Some(c) => c,
        None => return Json::Text(text),
    };
    let ghost views = item_views(content@);
    let ghost lead = JsonView::Object(
        map!["type"@ => JsonView::Text("text"@), "text"@ => JsonView::Text(text@)],
    );
    let mut list = items().push(
        members().put_text("type", "text").put_text("text", text.as_str()).object(),
    );
    let mut found: bool = false;
    let mut i: usize = 0;
    assert(views.take(0) =~= Seq::empty());
    assert(list@ =~= seq![lead] + images_in(views.take(0)));
    while i < content.len()
        invariant
            i <= content.len(),
            views == item_views(content@),
            list@ == seq![lead] + images_in(views.take(i as int)),
            found == (images_in(views.take(i as int)).len() > 0),
        decreases content.len() - i,
    {
        assert(views.take(i + 1).drop_last() =~= views.take(i as int));
        assert(views.take(i + 1).last() == content@[i as int]@);
        if let Some(image) = image_item(&content[i]) {
            assert((seq![lead] + images_in(views.take(i as int))).push(image@) =~= seq![lead]
                + images_in(views.take(i as int)).push(image@));
            list = list.push(image);
            found = true;
        }
        i += 1;
    }
    assert(views.take(content.len() as int) =~= views);
    if found {
        list.array()
    } else {
        Json::Text(text)
    }
}

/// The content of the message on a finished tool call.
pub fn mcp_follow_up_content(note: &str, result: &str, mcp_hops: u32) -> (r: Json)
    ensures
        r@ == follow_up(note@, parsed(result@), mcp_hops),
{
    let doc = Json::from_text(result);
    follow_up_content(note, &doc, mcp_hops)
}

} // verus!
