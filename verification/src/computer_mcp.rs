//! A tool server for the desktop: what each message asks for, which program does
//! it on which platform, and what the answer is.

use vstd::prelude::*;
use vstd::string::*;
use vstd::utf8::encode_utf8;

use crate::base64::{base64_encode, encoded};
use crate::json::{items, members, parsed, Json, JsonView};
use crate::rpc::{Reply, ReplyView};
use crate::text::{
    decimal, decimal_text, from_lossy, join, join_all, joined, lossy_text, pieces, raised, replace,
    replaced, same_text, signed_decimal, signed_text, split_on, texts, to_upper, trim, trimmed,
};

pub mod laws;

verus! {

// ---------------------------------------------------------------------------
// Tools
// ---------------------------------------------------------------------------

/// The schema of one value.
pub open spec fn of_type(name: Seq<char>) -> JsonView {
    JsonView::Object(map!["type"@ => JsonView::Text(name)])
}

/// The schema of an object with the given properties, of which some are required.
pub open spec fn object_schema(properties: Map<Seq<char>, JsonView>, required: Seq<JsonView>) -> JsonView {
    JsonView::Object(
        map![
            "type"@ => JsonView::Text("object"@),
            "properties"@ => JsonView::Object(properties),
            "required"@ => JsonView::Array(required),
        ],
    )
}

/// The schema of an object with the given properties, none of them required.
pub open spec fn open_schema(properties: Map<Seq<char>, JsonView>) -> JsonView {
    JsonView::Object(
        map![
            "type"@ => JsonView::Text("object"@),
            "properties"@ => JsonView::Object(properties),
        ],
    )
}

/// The description of a tool.
pub open spec fn tool(name: Seq<char>, description: Seq<char>, schema: JsonView) -> JsonView {
    JsonView::Object(
        map![
            "name"@ => JsonView::Text(name),
            "description"@ => JsonView::Text(description),
            "inputSchema"@ => schema,
        ],
    )
}

/// The tools of the server.
pub open spec fn tools() -> Seq<JsonView> {
    seq![
        tool(
            "screenshot"@,
            "Capture the current desktop as a JPEG image."@,
            open_schema(Map::empty()),
        ),
        tool(
            "click"@,
            "Move the pointer to screen coordinates and click."@,
            object_schema(
                map![
                    "x"@ => of_type("integer"@),
                    "y"@ => of_type("integer"@),
                    "button"@ => JsonView::Object(
                        map![
                            "type"@ => JsonView::Text("string"@),
                            "enum"@ => JsonView::Array(seq![
                                JsonView::Text("left"@),
                                JsonView::Text("middle"@),
                                JsonView::Text("right"@),
                            ]),
                        ],
                    ),
                ],
                seq![JsonView::Text("x"@), JsonView::Text("y"@)],
            ),
        ),
        tool(
            "type"@,
            "Type text into the focused application."@,
            object_schema(map!["text"@ => of_type("string"@)], seq![JsonView::Text("text"@)]),
        ),
        tool(
            "key"@,
            "Press a key or shortcut such as ENTER, ESC, CTRL+L, or CMD+K."@,
            object_schema(map!["key"@ => of_type("string"@)], seq![JsonView::Text("key"@)]),
        ),
        tool(
            "wait"@,
            "Wait for the desktop to update."@,
            open_schema(
                map![
                    "milliseconds"@ => JsonView::Object(
                        map![
                            "type"@ => JsonView::Text("integer"@),
                            "minimum"@ => JsonView::Uint(0),
                            "maximum"@ => JsonView::Uint(10000),
                        ],
                    ),
                ],
            ),
        ),
    ]
}

fn type_schema(name: &str) -> (r: Json)
    ensures
        r@ == of_type(name@),
{
    members().put_text("type", name).object()
}

fn tool_entry(name: &str, description: &str, schema: Json) -> (r: Json)
    ensures
        r@ == tool(name@, description@, schema@),
{
    members().put_text("name", name).put_text("description", description).put(
        "inputSchema",
        schema,
    ).object()
}

/// The tools of the server.
pub fn tool_definitions() -> (r: Json)
    ensures
        r@ == JsonView::Array(tools()),
{
    let buttons = items().push(Json::text("left")).push(Json::text("middle")).push(
        Json::text("right"),
    );
    assert(buttons@ =~= seq![
        JsonView::Text("left"@),
        JsonView::Text("middle"@),
        JsonView::Text("right"@),
    ]);
    let click = members().put("x", type_schema("integer")).put("y", type_schema("integer")).put(
        "button",
        members().put_text("type", "string").put("enum", buttons.array()).object(),
    ).object();
    let place = items().push(Json::text("x")).push(Json::text("y"));
    assert(place@ =~= seq![JsonView::Text("x"@), JsonView::Text("y"@)]);
    let pause = members().put_text("type", "integer").put("minimum", Json::Uint(0)).put(
        "maximum",
        Json::Uint(10000),
    ).object();
    let list = items().push(
        tool_entry(
            "screenshot",
            "Capture the current desktop as a JPEG image.",
            members().put_text("type", "object").put("properties", members().object()).object(),
        ),
    ).push(
        tool_entry(
            "click",
            "Move the pointer to screen coordinates and click.",
            members().put_text("type", "object").put("properties", click).put(
                "required",
                place.array(),
            ).object(),
        ),
    ).push(
        tool_entry(
            "type",
            "Type text into the focused application.",
            members().put_text("type", "object").put(
                "properties",
                members().put("text", type_schema("string")).object(),
            ).put("required", items().push(Json::text("text")).array()).object(),
        ),
    ).push(
        tool_entry(
            "key",
            "Press a key or shortcut such as ENTER, ESC, CTRL+L, or CMD+K.",
            members().put_text("type", "object").put(
                "properties",
                members().put("key", type_schema("string")).object(),
            ).put("required", items().push(Json::text("key")).array()).object(),
        ),
    ).push(
        tool_entry(
            "wait",
            "Wait for the desktop to update.",
            members().put_text("type", "object").put(
                "properties",
                members().put("milliseconds", pause).object(),
            ).object(),
        ),
    );
    assert(list@ =~= tools());
    list.array()
}

// ---------------------------------------------------------------------------
// Messages
// ---------------------------------------------------------------------------

/// What a tool call does on the desktop.
#[derive(Debug)]
pub enum DesktopAction {
    Screenshot,
    Click { x: i64, y: i64, button: String },
    Type { text: String },
    Key { key: String },
    Wait { milliseconds: u64 },
}

/// The value of a [`DesktopAction`].
#[verifier::ext_equal]
pub enum ActionView {
    Screenshot,
    Click { x: int, y: int, button: Seq<char> },
    Type { text: Seq<char> },
    Key { key: Seq<char> },
    Wait { milliseconds: u64 },
}

impl View for DesktopAction {
    type V = ActionView;

    open spec fn view(&self) -> ActionView {
        match self {
            DesktopAction::Screenshot => ActionView::Screenshot,
            DesktopAction::Click { x, y, button } => ActionView::Click {
                x: *x as int,
                y: *y as int,
                button: button@,
            },
            DesktopAction::Type { text } => ActionView::Type { text: text@ },
            DesktopAction::Key { key } => ActionView::Key { key: key@ },
            DesktopAction::Wait { milliseconds } => ActionView::Wait { milliseconds: *milliseconds },
        }
    }
}

/// What a message leads to.
#[derive(Debug)]
pub enum Step {
    Answer(Json),
    Refuse(String),
    Act(DesktopAction),
}

/// The value of a [`Step`].
#[verifier::ext_equal]
pub enum StepView {
    Answer(JsonView),
    Refuse(Seq<char>),
    Act(ActionView),
}

impl View for Step {
    type V = StepView;

    open spec fn view(&self) -> StepView {
        match self {
            Step::Answer(j) => StepView::Answer(j@),
            Step::Refuse(e) => StepView::Refuse(e@),
            Step::Act(a) => StepView::Act(a@),
        }
    }
}

/// The answer to the request "initialize".
pub open spec fn hello() -> JsonView {
    JsonView::Object(
        map![
            "protocolVersion"@ => JsonView::Text("2025-03-26"@),
            "capabilities"@ => JsonView::Object(map!["tools"@ => JsonView::Object(Map::empty())]),
            "serverInfo"@ => JsonView::Object(
                map![
                    "name"@ => JsonView::Text("computer-mcp"@),
                    "version"@ => JsonView::Text("0.1.0"@),
                ],
            ),
        ],
    )
}

/// The whole number at `key`.
pub open spec fn integer_at(args: JsonView, key: Seq<char>) -> Option<i64> {
    match args.get(key) {
        Some(v) => v.as_i64(),
        None => None,
    }
}

/// What the tool call with the parameters `params` leads to.
pub open spec fn tool_step(params: JsonView) -> StepView {
    let args = match params.get("arguments"@) {
        Some(a) => a,
        None => JsonView::Object(Map::empty()),
    };
    match params.text_at("name"@) {
        None => StepView::Refuse("missing tool name"@),
        Some(name) => if name == "screenshot"@ {
            StepView::Act(ActionView::Screenshot)
        } else if name == "click"@ {
            match (integer_at(args, "x"@), integer_at(args, "y"@)) {
                (None, _) => StepView::Refuse("missing integer `"@ + "x"@ + "`"@),
                (_, None) => StepView::Refuse("missing integer `"@ + "y"@ + "`"@),
                (Some(x), Some(y)) => StepView::Act(
                    ActionView::Click {
                        x: x as int,
                        y: y as int,
                        button: match args.text_at("button"@) {
                            Some(b) => b,
                            None => "left"@,
                        },
                    },
                ),
            }
        } else if name == "type"@ {
            match args.text_at("text"@) {
                Some(text) => StepView::Act(ActionView::Type { text }),
                None => StepView::Refuse("missing string `"@ + "text"@ + "`"@),
            }
        } else if name == "key"@ {
            match args.text_at("key"@) {
                Some(key) => StepView::Act(ActionView::Key { key }),
                None => StepView::Refuse("missing string `"@ + "key"@ + "`"@),
            }
        } else if name == "wait"@ {
            let asked = match args.get("milliseconds"@) {
                Some(v) => v.as_u64(),
                None => None,
            };
            let ms = match asked {
                Some(n) => n,
                None => 750,
            };
            StepView::Act(
                ActionView::Wait {
                    milliseconds: if ms > 10000 {
                        10000
                    } else {
                        ms
                    },
                },
            )
        } else {
            StepView::Refuse("unknown tool: "@ + name)
        },
    }
}

/// What a message leads to.
pub open spec fn message_step(method: Seq<char>, params: JsonView) -> StepView {
    if method == "initialize"@ {
        StepView::Answer(hello())
    } else if method == "ping"@ {
        StepView::Answer(JsonView::Object(Map::empty()))
    } else if method == "tools/list"@ {
        StepView::Answer(JsonView::Object(map!["tools"@ => JsonView::Array(tools())]))
    } else if method == "tools/call"@ {
        tool_step(params)
    } else {
        StepView::Refuse("method not found: "@ + method)
    }
}

fn quoted(lead: &str, key: &str) -> (r: String)
    ensures
        r@ == lead@ + key@ + "`"@,
{
    let mut out = lead.to_owned();
    out.append(key);
    out.append("`");
    out
}

fn integer(args: &Json, key: &str) -> (r: Option<i64>)
    ensures
        r == integer_at(args@, key@),
{
    match args.get(key) {
        Some(v) => v.as_i64(),
        None => None,
    }
}

/// What the tool call with the parameters `params` leads to.
pub fn call_tool(params: &Json) -> (r: Step)
    ensures
        r@ == tool_step(params@),
{
    let name = match params.text_at("name") {
        Some(n) => n,
        None => return Step::Refuse("missing tool name".to_owned()),
    };
    let args = match params.get("arguments") {
        Some(a) => a.copy(),
        None => members().object(),
    };
    if same_text(name, "screenshot") {
        Step::Act(DesktopAction::Screenshot)
    } else if same_text(name, "click") {
        let x: i64 = match integer(&args, "x") {
            Some(x) => x,
            None => return Step::Refuse(quoted("missing integer `", "x")),
        };
        let y: i64 = match integer(&args, "y") {
            Some(y) => y,
            None => return Step::Refuse(quoted("missing integer `", "y")),
        };
        let button = match args.text_at("button") {
            Some(b) => b.to_owned(),
            None => "left".to_owned(),
        };
        Step::Act(DesktopAction::Click { x, y, button })
    } else if same_text(name, "type") {
        match args.text_at("text") {
            Some(text) => Step::Act(DesktopAction::Type { text: text.to_owned() }),
            None => Step::Refuse(quoted("missing string `", "text")),
        }
    } else if same_text(name, "key") {
        match args.text_at("key") {
            Some(key) => Step::Act(DesktopAction::Key { key: key.to_owned() }),
            None => Step::Refuse(quoted("missing string `", "key")),
        }
    } else if same_text(name, "wait") {
        let asked = match args.get("milliseconds") {
            Some(v) => v.as_u64(),
            None => None,
        };
        let ms: u64 = match asked {
            Some(n) => n,
            None => 750,
        };
        Step::Act(
            DesktopAction::Wait {
                milliseconds: if ms > 10000 {
                    10000
                } else {
                    ms
                },
            },
        )
    } else {
        Step::Refuse(join("unknown tool: ", name))
    }
}

/// What a message leads to.
pub fn handle(method: &str, params: &Json) -> (r: Step)
    ensures
        r@ == message_step(method@, params@),
{
    if same_text(method, "initialize") {
        let info = members().put_text("name", "computer-mcp").put_text("version", "0.1.0").object();
        Step::Answer(
            members().put_text("protocolVersion", "2025-03-26").put(
                "capabilities",
                members().put("tools", members().object()).object(),
            ).put("serverInfo", info).object(),
        )
    } else if same_text(method, "ping") {
        Step::Answer(members().object())
    } else if same_text(method, "tools/list") {
        Step::Answer(members().put("tools", tool_definitions()).object())
    } else if same_text(method, "tools/call") {
        call_tool(params)
    } else {
        Step::Refuse(join("method not found: ", method))
    }
}

/// A text item.
pub open spec fn text_item(text: Seq<char>) -> JsonView {
    JsonView::Object(map!["type"@ => JsonView::Text("text"@), "text"@ => JsonView::Text(text)])
}

/// The result of a tool call with the given content.
pub open spec fn tool_result(content: Seq<JsonView>) -> JsonView {
    JsonView::Object(
        map!["content"@ => JsonView::Array(content), "isError"@ => JsonView::Bool(false)],
    )
}

/// The result of an action that was carried out; a screenshot has taken `image`.
pub open spec fn action_result(action: ActionView, image: Seq<u8>) -> JsonView {
    match action {
        ActionView::Screenshot => tool_result(
            seq![
                text_item("Captured the current desktop."@),
                JsonView::Object(
                    map![
                        "type"@ => JsonView::Text("image"@),
                        "mimeType"@ => JsonView::Text("image/jpeg"@),
                        "data"@ => JsonView::Text(encoded(image)),
                    ],
                ),
            ],
        ),
        ActionView::Click { x, y, button } => tool_result(
            seq![
                text_item(
                    "Clicked "@ + button + " at "@ + signed_decimal(x) + ", "@ + signed_decimal(y)
                        + "."@,
                ),
            ],
        ),
        ActionView::Type { text } => tool_result(
            seq![text_item("Typed "@ + decimal(text.len()) + " characters."@)],
        ),
        ActionView::Key { key } => tool_result(seq![text_item("Pressed "@ + key + "."@)]),
        ActionView::Wait { milliseconds } => tool_result(
            seq![text_item("Waited "@ + decimal(milliseconds as nat) + " ms."@)],
        ),
    }
}

fn text_content(text: &str) -> (r: Json)
    ensures
        r@ == text_item(text@),
{
    members().put_text("type", "text").put_text("text", text).object()
}

fn text_result(text: &str) -> (r: Json)
    ensures
        r@ == tool_result(seq![text_item(text@)]),
{
    members().put("content", items().push(text_content(text)).array()).put(
        "isError",
        Json::Bool(false),
    ).object()
}

/// The result of an action that was carried out; a screenshot has taken `image`.
pub fn result_of(action: &DesktopAction, image: &[u8]) -> (r: Json)
    ensures
        r@ == action_result(action@, image@),
{
    match action {
        DesktopAction::Screenshot => {
            let data = base64_encode(image);
            let picture = members().put_text("type", "image").put_text(
                "mimeType",
                "image/jpeg",
            ).put_text("data", data.as_str()).object();
            let content = items().push(text_content("Captured the current desktop.")).push(picture);
            assert(content@ =~= seq![
                text_item("Captured the current desktop."@),
                JsonView::Object(
                    map![
                        "type"@ => JsonView::Text("image"@),
                        "mimeType"@ => JsonView::Text("image/jpeg"@),
                        "data"@ => JsonView::Text(encoded(image@)),
                    ],
                ),
            ]);
            members().put("content", content.array()).put("isError", Json::Bool(false)).object()
        },
        DesktopAction::Click { x, y, button } => {
            let mut text = "Clicked ".to_owned();
            text.append(button.as_str());
            text.append(" at ");
            text.append(signed_text(*x).as_str());
            text.append(", ");
            text.append(signed_text(*y).as_str());
            text.append(".");
            text_result(text.as_str())
        },
        DesktopAction::Type { text } => {
            let n: usize = text.as_str().unicode_len();
            let mut told = "Typed ".to_owned();
            told.append(decimal_text(n as u64).as_str());
            told.append(" characters.");
            text_result(told.as_str())
        },
        DesktopAction::Key { key } => {
            let mut text = "Pressed ".to_owned();
            text.append(key.as_str());
            text.append(".");
            text_result(text.as_str())
        },
        DesktopAction::Wait { milliseconds } => {
            let mut text = "Waited ".to_owned();
            text.append(decimal_text(*milliseconds).as_str());
            text.append(" ms.");
            text_result(text.as_str())
        },
    }
}

/// The error with which a message is refused or an action has failed.
pub fn refuse(error: &str) -> (r: Reply)
    ensures
        r@ == (ReplyView::Error { code: -32000, message: error@ }),
{
    crate::rpc::error_reply(-32000, error)
}

/// A request that a line holds.
#[derive(Debug)]
pub struct Request {
    pub id: Json,
    pub method: String,
    pub params: Json,
}

/// The request that a parsed line holds: it has an id.
pub open spec fn request_in(v: JsonView) -> Option<(JsonView, Seq<char>, JsonView)> {
    match v.get("id"@) {
        None => None,
        Some(id) => Some(
            (
                id,
                match v.text_at("method"@) {
                    Some(m) => m,
                    None => Seq::empty(),
                },
                match v.get("params"@) {
                    Some(p) => p,
                    None => JsonView::Null,
                },
            ),
        ),
    }
}

/// The request that a parsed line holds.
pub fn request_of(v: &Json) -> (r: Option<Request>)
    ensures
        match r {
            Some(q) => request_in(v@) == Some((q.id@, q.method@, q.params@)),
            None => request_in(v@) is None,
        },
{
    let id = match v.get("id") {
        Some(id) => id.copy(),
        None => return None,
    };
    let method = match v.text_at("method") {
        Some(m) => m.to_owned(),
        None => String::new(),
    };
    let params = match v.get("params") {
        Some(p) => p.copy(),
        None => Json::Null,
    };
    Some(Request { id, method, params })
}

/// The request that a line holds.
pub fn read_request(line: &str) -> (r: Option<Request>)
    ensures
        match r {
            Some(q) => parsed(trimmed(line@)) is Some && request_in(parsed(trimmed(line@))->0) == Some(
                (q.id@, q.method@, q.params@),
            ),
            None => parsed(trimmed(line@)) matches Some(v) ==> request_in(v) is None,
        },
{
    match Json::from_text(trim(line).as_str()) {
        Some(v) => request_of(&v),
        None => None,
    }
}

// ---------------------------------------------------------------------------
// Keys
// ---------------------------------------------------------------------------

/// The code of a key on macOS.
pub open spec fn mac_code(key: Seq<char>) -> Option<u8> {
    if key == "A"@ {
        Some(0)
    } else if key == "S"@ {
        Some(1)
    } else if key == "D"@ {
        Some(2)
    } else if key == "F"@ {
        Some(3)
    } else if key == "H"@ {
        Some(4)
    } else if key == "G"@ {
        Some(5)
    } else if key == "Z"@ {
        Some(6)
    } else if key == "X"@ {
        Some(7)
    } else if key == "C"@ {
        Some(8)
    } else if key == "V"@ {
        Some(9)
    } else if key == "B"@ {
        Some(11)
    } else if key == "Q"@ {
        Some(12)
    } else if key == "W"@ {
        Some(13)
    } else if key == "E"@ {
        Some(14)
    } else if key == "R"@ {
        Some(15)
    } else if key == "Y"@ {
        Some(16)
    } else if key == "T"@ {
        Some(17)
    } else if key == "1"@ {
        Some(18)
    } else if key == "2"@ {
        Some(19)
    } else if key == "3"@ {
        Some(20)
    } else if key == "4"@ {
        Some(21)
    } else if key == "6"@ {
        Some(22)
    } else if key == "5"@ {
        Some(23)
    } else if key == "9"@ {
        Some(25)
    } else if key == "7"@ {
        Some(26)
    } else if key == "8"@ {
        Some(28)
    } else if key == "0"@ {
        Some(29)
    } else if key == "O"@ {
        Some(31)
    } else if key == "U"@ {
        Some(32)
    } else if key == "I"@ {
        Some(34)
    } else if key == "P"@ {
        Some(35)
    } else if key == "L"@ {
        Some(37)
    } else if key == "J"@ {
        Some(38)
    } else if key == "K"@ {
        Some(40)
    } else if key == "N"@ {
        Some(45)
    } else if key == "M"@ {
        Some(46)
    } else if key == "ENTER"@ {
        Some(36)
    } else if key == "TAB"@ {
        Some(48)
    } else if key == "SPACE"@ {
        Some(49)
    } else if key == "BACKSPACE"@ {
        Some(51)
    } else if key == "ESC"@ {
        Some(53)
    } else if key == "ESCAPE"@ {
        Some(53)
    } else if key == "ARROWLEFT"@ {
        Some(123)
    } else if key == "ARROWRIGHT"@ {
        Some(124)
    } else if key == "ARROWDOWN"@ {
        Some(125)
    } else if key == "ARROWUP"@ {
        Some(126)
    } else if key == "F1"@ {
        Some(122)
    } else if key == "F2"@ {
        Some(120)
    } else if key == "F3"@ {
        Some(99)
    } else if key == "F4"@ {
        Some(118)
    } else if key == "F5"@ {
        Some(96)
    } else if key == "F6"@ {
        Some(97)
    } else if key == "F7"@ {
        Some(98)
    } else if key == "F8"@ {
        Some(100)
    } else if key == "F9"@ {
        Some(101)
    } else if key == "F10"@ {
        Some(109)
    } else if key == "F11"@ {
        Some(103)
    } else if key == "F12"@ {
        Some(111)
    } else {
        None
    }
}

/// The code of a key on macOS.
#[verifier::spinoff_prover]
pub fn mac_key_code(key: &str) -> (r: Result<u8, String>)
    ensures
        match r {
            Ok(code) => mac_code(key@) == Some(code),
            Err(e) => mac_code(key@) is None && e@ == "unsupported macOS key: "@ + key@,
        },
{
    if same_text(key, "A") {
        Ok(0)
    } else if same_text(key, "S") {
        Ok(1)
    } else if same_text(key, "D") {
        Ok(2)
    } else if same_text(key, "F") {
        Ok(3)
    } else if same_text(key, "H") {
        Ok(4)
    } else if same_text(key, "G") {
        Ok(5)
    } else if same_text(key, "Z") {
        Ok(6)
    } else if same_text(key, "X") {
        Ok(7)
    } else if same_text(key, "C") {
        Ok(8)
    } else if same_text(key, "V") {
        Ok(9)
    } else if same_text(key, "B") {
        Ok(11)
    } else if same_text(key, "Q") {
        Ok(12)
    } else if same_text(key, "W") {
        Ok(13)
    } else if same_text(key, "E") {
        Ok(14)
    } else if same_text(key, "R") {
        Ok(15)
    } else if same_text(key, "Y") {
        Ok(16)
    } else if same_text(key, "T") {
        Ok(17)
    } else if same_text(key, "1") {
        Ok(18)
    } else if same_text(key, "2") {
        Ok(19)
    } else if same_text(key, "3") {
        Ok(20)
    } else if same_text(key, "4") {
        Ok(21)
    } else if same_text(key, "6") {
        Ok(22)
    } else if same_text(key, "5") {
        Ok(23)
    } else if same_text(key, "9") {
        Ok(25)
    } else if same_text(key, "7") {
        Ok(26)
    } else if same_text(key, "8") {
        Ok(28)
    } else if same_text(key, "0") {
        Ok(29)
    } else if same_text(key, "O") {
        Ok(31)
    } else if same_text(key, "U") {
        Ok(32)
    } else if same_text(key, "I") {
        Ok(34)
    } else if same_text(key, "P") {
        Ok(35)
    } else if same_text(key, "L") {
        Ok(37)
    } else if same_text(key, "J") {
        Ok(38)
    } else if same_text(key, "K") {
        Ok(40)
    } else if same_text(key, "N") {
        Ok(45)
    } else if same_text(key, "M") {
        Ok(46)
    } else if same_text(key, "ENTER") {
        Ok(36)
    } else if same_text(key, "TAB") {
        Ok(48)
    } else if same_text(key, "SPACE") {
        Ok(49)
    } else if same_text(key, "BACKSPACE") {
        Ok(51)
    } else if same_text(key, "ESC") {
        Ok(53)
    } else if same_text(key, "ESCAPE") {
        Ok(53)
    } else if same_text(key, "ARROWLEFT") {
        Ok(123)
    } else if same_text(key, "ARROWRIGHT") {
        Ok(124)
    } else if same_text(key, "ARROWDOWN") {
        Ok(125)
    } else if same_text(key, "ARROWUP") {
        Ok(126)
    } else if same_text(key, "F1") {
        Ok(122)
    } else if same_text(key, "F2") {
        Ok(120)
    } else if same_text(key, "F3") {
        Ok(99)
    } else if same_text(key, "F4") {
        Ok(118)
    } else if same_text(key, "F5") {
        Ok(96)
    } else if same_text(key, "F6") {
        Ok(97)
    } else if same_text(key, "F7") {
        Ok(98)
    } else if same_text(key, "F8") {
        Ok(100)
    } else if same_text(key, "F9") {
        Ok(101)
    } else if same_text(key, "F10") {
        Ok(109)
    } else if same_text(key, "F11") {
        Ok(103)
    } else if same_text(key, "F12") {
        Ok(111)
    } else {
        Err(join("unsupported macOS key: ", key))
    }
}

/// The name of a modifier on macOS.
pub open spec fn mac_modifier_name(key: Seq<char>) -> Option<Seq<char>> {
    if key == "CMD"@ || key == "COMMAND"@ {
        Some("command"@)
    } else if key == "ALT"@ || key == "OPTION"@ {
        Some("option"@)
    } else if key == "SHIFT"@ {
        Some("shift"@)
    } else if key == "CTRL"@ || key == "CONTROL"@ {
        Some("control"@)
    } else {
        None
    }
}

/// The name of a modifier on macOS.
pub fn mac_modifier(key: &str) -> (r: Result<&'static str, String>)
    ensures
        match r {
            Ok(name) => mac_modifier_name(key@) == Some(name@),
            Err(e) => mac_modifier_name(key@) is None && e@ == "unsupported macOS modifier: "@
                + key@,
        },
{
    if same_text(key, "CMD") || same_text(key, "COMMAND") {
        Ok("command")
    } else if same_text(key, "ALT") || same_text(key, "OPTION") {
        Ok("option")
    } else if same_text(key, "SHIFT") {
        Ok("shift")
    } else if same_text(key, "CTRL") || same_text(key, "CONTROL") {
        Ok("control")
    } else {
        Err(join("unsupported macOS modifier: ", key))
    }
}

/// The modifiers as they stand in a script, or the error of the first unknown one.
pub open spec fn mac_modifiers(keys: Seq<Seq<char>>) -> Result<Seq<Seq<char>>, Seq<char>>
    decreases keys.len(),
{
    if keys.len() == 0 {
        Ok(Seq::empty())
    } else {
        match mac_modifiers(keys.drop_last()) {
            Err(e) => Err(e),
            Ok(names) => match mac_modifier_name(keys.last()) {
                Some(name) => Ok(names.push(name + " down"@)),
                None => Err("unsupported macOS modifier: "@ + keys.last()),
            },
        }
    }
}

/// The script that presses a shortcut such as CMD+K on macOS.
pub open spec fn mac_key_script(key: Seq<char>) -> Result<Seq<char>, Seq<char>> {
    let parts = pieces(raised(key), '+');
    match mac_code(parts.last()) {
        None => Err("unsupported macOS key: "@ + parts.last()),
        Some(code) => match mac_modifiers(parts.drop_last()) {
            Err(e) => Err(e),
            Ok(names) => Ok(
                "tell application \"System Events\" to key code "@ + decimal(code as nat) + (
                if names.len() == 0 {
                    Seq::empty()
                } else {
                    " using {"@ + joined(names, ", "@) + "}"@
                }),
            ),
        },
    }
}

proof fn mac_modifiers_of_prefix(keys: Seq<Seq<char>>, n: int)
    requires
        0 <= n <= keys.len(),
        mac_modifiers(keys.take(n)) is Err,
    ensures
        mac_modifiers(keys) == mac_modifiers(keys.take(n)),
    decreases keys.len() - n,
{
    if n == keys.len() {
        assert(keys.take(n) =~= keys);
    } else {
        assert(keys.take(n + 1).drop_last() =~= keys.take(n));
        mac_modifiers_of_prefix(keys, n + 1);
    }
}

/// The script that presses a shortcut such as CMD+K on macOS.
pub fn mac_press_script(key: &str) -> (r: Result<String, String>)
    ensures
        crate::openrouter_effect::mcp::same_result_text(r, mac_key_script(key@)),
{
    let parts = split_on(to_upper(key).as_str(), '+');
    let ghost views = pieces(raised(key@), '+');
    let n: usize = parts.len() - 1;
    assert(views.last() == parts@[n as int]@);
    let code: u8 = match mac_key_code(parts[n].as_str()) {
        Ok(c) => c,
        Err(e) => return Err(e),
    };
    let ghost keys = views.drop_last();
    let mut names: Vec<String> = Vec::new();
    let mut i: usize = 0;
    assert(texts(names@) =~= Seq::empty());
    assert(keys.take(0) =~= Seq::empty());
    #[verifier::loop_isolation(false)]
    while i < n
        invariant
            i <= n,
            mac_modifiers(keys.take(i as int)) == Ok::<Seq<Seq<char>>, Seq<char>>(texts(names@)),
        decreases n - i,
    {
        assert(keys[i as int] == parts@[i as int]@);
        assert(keys.take(i + 1).drop_last() =~= keys.take(i as int));
        assert(keys.take(i + 1).last() == keys[i as int]);
        match mac_modifier(parts[i].as_str()) {
            Ok(name) => {
                let held = join(name, " down");
                assert(texts(names@.push(held)) =~= texts(names@).push(held@));
                names.push(held);
            },
            Err(e) => {
                proof {
                    mac_modifiers_of_prefix(keys, i + 1);
                }
                return Err(e);
            },
        }
        i += 1;
    }
    assert(keys.take(n as int) =~= keys);
    let mut script = "tell application \"System Events\" to key code ".to_owned();
    script.append(decimal_text(code as u64).as_str());
    assert(texts(names@).len() == names.len());
    if names.len() > 0 {
        let mut using = " using {".to_owned();
        using.append(join_all(&names, ", ").as_str());
        using.append("}");
        script.append(using.as_str());
    } else {
        assert(script@ + Seq::<char>::empty() =~= script@);
    }
    Ok(script)
}

/// The keys that a shortcut such as CTRL+L stands for on Windows.
pub open spec fn windows_keys(key: Seq<char>) -> Seq<char> {
    if key == "ENTER"@ {
        "{ENTER}"@
    } else if key == "ESC"@ {
        "{ESC}"@
    } else if key == "ESCAPE"@ {
        "{ESC}"@
    } else if key == "TAB"@ {
        "{TAB}"@
    } else if key == "BACKSPACE"@ {
        "{BACKSPACE}"@
    } else if key == "DELETE"@ {
        "{DELETE}"@
    } else if key == "ARROWLEFT"@ {
        "{LEFT}"@
    } else if key == "ARROWRIGHT"@ {
        "{RIGHT}"@
    } else if key == "ARROWUP"@ {
        "{UP}"@
    } else if key == "ARROWDOWN"@ {
        "{DOWN}"@
    } else {
        replaced(replaced(replaced(key, "CTRL+"@, "^"@), "ALT+"@, "%"@), "SHIFT+"@, "+"@)
    }
}

/// The keys that a shortcut such as CTRL+L stands for on Windows.
pub fn windows_key_text(key: &str) -> (r: String)
    ensures
        r@ == windows_keys(raised(key@)),
{
    let name = to_upper(key);
    proof {
        reveal_strlit("CTRL+");
        reveal_strlit("ALT+");
        reveal_strlit("SHIFT+");
    }
    if same_text(name.as_str(), "ENTER") {
        "{ENTER}".to_owned()
    } else if same_text(name.as_str(), "ESC") {
        "{ESC}".to_owned()
    } else if same_text(name.as_str(), "ESCAPE") {
        "{ESC}".to_owned()
    } else if same_text(name.as_str(), "TAB") {
        "{TAB}".to_owned()
    } else if same_text(name.as_str(), "BACKSPACE") {
        "{BACKSPACE}".to_owned()
    } else if same_text(name.as_str(), "DELETE") {
        "{DELETE}".to_owned()
    } else if same_text(name.as_str(), "ARROWLEFT") {
        "{LEFT}".to_owned()
    } else if same_text(name.as_str(), "ARROWRIGHT") {
        "{RIGHT}".to_owned()
    } else if same_text(name.as_str(), "ARROWUP") {
        "{UP}".to_owned()
    } else if same_text(name.as_str(), "ARROWDOWN") {
        "{DOWN}".to_owned()
    } else {
        let a = replace(name.as_str(), "CTRL+", "^");
        let b = replace(a.as_str(), "ALT+", "%");
        replace(b.as_str(), "SHIFT+", "+")
    }
}

/// A text as it stands between the quotes of a script on Windows.
pub fn ps_quote(value: &str) -> (r: String)
    ensures
        r@ == replaced(value@, "'"@, "''"@),
{
    proof {
        reveal_strlit("'");
    }
    replace(value, "'", "''")
}

// ---------------------------------------------------------------------------
// Programs
// ---------------------------------------------------------------------------

/// The platform of the desktop.
#[derive(Clone, Copy, Debug, PartialEq, Eq, Structural)]
pub enum Platform {
    Linux,
    MacOs,
    Windows,
}

/// A program to run.
#[derive(Debug)]
pub struct Program {
    pub name: String,
    pub args: Vec<String>,
}

/// The value of a [`Program`].
#[verifier::ext_equal]
pub struct ProgramView {
    pub name: Seq<char>,
    pub args: Seq<Seq<char>>,
}

impl View for Program {
    type V = ProgramView;

    open spec fn view(&self) -> ProgramView {
        ProgramView { name: self.name@, args: texts(self.args@) }
    }
}

fn program(name: &str) -> (r: Program)
    ensures
        r@ == (ProgramView { name: name@, args: Seq::empty() }),
{
    let r = Program { name: name.to_owned(), args: Vec::new() };
    assert(texts(r.args@) =~= Seq::empty());
    r
}

impl Program {
    fn arg(self, arg: &str) -> (r: Program)
        ensures
            r@ == (ProgramView { name: self@.name, args: self@.args.push(arg@) }),
    {
        let mut args = self.args;
        let arg = arg.to_owned();
        assert(texts(args@.push(arg)) =~= texts(args@).push(arg@));
        args.push(arg);
        Program { name: self.name, args }
    }
}

/// The script on Windows that stores the screen in the file `path`.
pub open spec fn capture_script(path: Seq<char>) -> Seq<char> {
    CAPTURE_LEAD@ + replaced(path, "'"@, "''"@) + CAPTURE_REST@
}

pub const CAPTURE_LEAD: &'static str = "Add-Type -AssemblyName System.Windows.Forms; Add-Type -AssemblyName System.Drawing; \
         $b=[System.Windows.Forms.Screen]::PrimaryScreen.Bounds; \
         $i=New-Object System.Drawing.Bitmap $b.Width,$b.Height; \
         $g=[System.Drawing.Graphics]::FromImage($i); \
         $g.CopyFromScreen($b.Location,[System.Drawing.Point]::Empty,$b.Size); \
         $i.Save('";

pub const CAPTURE_REST: &'static str = "',[System.Drawing.Imaging.ImageFormat]::Jpeg); \
         $g.Dispose(); $i.Dispose()";

/// The number of a button on Linux.
pub open spec fn button_number(button: Seq<char>) -> Seq<char> {
    if button == "middle"@ {
        "2"@
    } else if button == "right"@ {
        "3"@
    } else {
        "1"@
    }
}

/// The codes with which a button goes down and up on Windows.
pub open spec fn button_codes(button: Seq<char>) -> (Seq<char>, Seq<char>) {
    if button == "right"@ {
        ("0x0008"@, "0x0010"@)
    } else if button == "middle"@ {
        ("0x0020"@, "0x0040"@)
    } else {
        ("0x0002"@, "0x0004"@)
    }
}

pub const MOUSE_LEAD: &'static str = "Add-Type @'\nusing System.Runtime.InteropServices; public class M { \
         [DllImport(\"user32.dll\")] public static extern bool SetCursorPos(int x,int y); \
         [DllImport(\"user32.dll\")] public static extern void mouse_event(uint f,uint x,uint y,uint d,System.UIntPtr e); }\n'@; \
         [M]::SetCursorPos(";

pub const MOUSE_DOWN: &'static str = "); [M]::mouse_event(";

pub const MOUSE_UP: &'static str = ",0,0,0,[UIntPtr]::Zero); \
         [M]::mouse_event(";

pub const MOUSE_REST: &'static str = ",0,0,0,[UIntPtr]::Zero)";

/// The script on Windows that clicks.
pub open spec fn click_script(x: int, y: int, button: Seq<char>) -> Seq<char> {
    MOUSE_LEAD@ + signed_decimal(x) + ","@ + signed_decimal(y) + MOUSE_DOWN@ + button_codes(
        button,
    ).0 + MOUSE_UP@ + button_codes(button).1 + MOUSE_REST@
}

pub const PASTE_LEAD: &'static str = "$t=[Text.Encoding]::UTF8.GetString([Convert]::FromBase64String('";

pub const PASTE_REST: &'static str = "')); \
         Set-Clipboard -Value $t; Add-Type -AssemblyName System.Windows.Forms; \
         [System.Windows.Forms.SendKeys]::SendWait('^v')";

pub const KEYS_LEAD: &'static str = "Add-Type -AssemblyName System.Windows.Forms; \
         [System.Windows.Forms.SendKeys]::SendWait('";

pub const KEYS_REST: &'static str = "')";

/// A script that PowerShell runs.
pub open spec fn power_shell(script: Seq<char>) -> ProgramView {
    ProgramView { name: "powershell"@, args: seq!["-NoProfile"@, "-Command"@, script] }
}

/// The program that carries out an action; `path` is where a screenshot is kept
/// on macOS and Windows. Waiting takes no program.
pub open spec fn program_for(platform: Platform, action: ActionView, path: Seq<char>) -> Result<Option<ProgramView>, Seq<char>> {
    match (platform, action) {
        (_, ActionView::Wait { .. }) => Ok(None),
        (Platform::Linux, ActionView::Screenshot) => Ok(
            Some(
                ProgramView {
                    name: "import"@,
                    args: seq![
                        "-window"@,
                        "root"@,
                        "-resize"@,
                        "1280x1280>"@,
                        "-quality"@,
                        "70"@,
                        "jpg:-"@,
                    ],
                },
            ),
        ),
        (Platform::Linux, ActionView::Click { x, y, button }) => Ok(
            Some(
                ProgramView {
                    name: "xdotool"@,
                    args: seq![
                        "mousemove"@,
                        "--sync"@,
                        signed_decimal(x),
                        signed_decimal(y),
                        "click"@,
                        button_number(button),
                    ],
                },
            ),
        ),
        (Platform::Linux, ActionView::Type { text }) => Ok(
            Some(
                ProgramView {
                    name: "xdotool"@,
                    args: seq!["type"@, "--clearmodifiers"@, "--delay"@, "1"@, "--"@, text],
                },
            ),
        ),
        (Platform::Linux, ActionView::Key { key }) => Ok(
            Some(
                ProgramView { name: "xdotool"@, args: seq!["key"@, "--clearmodifiers"@, key] },
            ),
        ),
        (Platform::MacOs, ActionView::Screenshot) => Ok(
            Some(
                ProgramView { name: "screencapture"@, args: seq!["-x"@, "-t"@, "jpg"@, path] },
            ),
        ),
        (Platform::MacOs, ActionView::Click { x, y, .. }) => Ok(
            Some(
                ProgramView {
                    name: "osascript"@,
                    args: seq![
                        "-e"@,
                        "tell application \"System Events\" to click at {"@ + signed_decimal(x)
                            + ", "@ + signed_decimal(y) + "}"@,
                    ],
                },
            ),
        ),
        (Platform::MacOs, ActionView::Type { text }) => Ok(
            Some(
                ProgramView {
                    name: "osascript"@,
                    args: seq![
                        "-e"@,
                        "on run argv"@,
                        "-e"@,
                        "tell application \"System Events\" to keystroke (item 1 of argv)"@,
                        "-e"@,
                        "end run"@,
                        "--"@,
                        text,
                    ],
                },
            ),
        ),
        (Platform::MacOs, ActionView::Key { key }) => match mac_key_script(key) {
            Ok(script) => Ok(
                Some(ProgramView { name: "osascript"@, args: seq!["-e"@, script] }),
            ),
            Err(e) => Err(e),
        },
        (Platform::Windows, ActionView::Screenshot) => Ok(Some(power_shell(capture_script(path)))),
        (Platform::Windows, ActionView::Click { x, y, button }) => Ok(
            Some(power_shell(click_script(x, y, button))),
        ),
        (Platform::Windows, ActionView::Type { text }) => Ok(
            Some(
                ProgramView {
                    name: "powershell"@,
                    args: seq![
                        "-NoProfile"@,
                        "-STA"@,
                        "-Command"@,
                        PASTE_LEAD@ + encoded(encode_utf8(text)) + PASTE_REST@,
                    ],
                },
            ),
        ),
        (Platform::Windows, ActionView::Key { key }) => Ok(
            Some(
                power_shell(
                    KEYS_LEAD@ + replaced(windows_keys(raised(key)), "'"@, "''"@) + KEYS_REST@,
                ),
            ),
        ),
    }
}

fn shell(script: &str) -> (r: Program)
    ensures
        r@ == power_shell(script@),
{
    let r = program("powershell").arg("-NoProfile").arg("-Command").arg(script);
    assert(r@.args =~= power_shell(script@).args);
    r
}

fn linux_program(action: &DesktopAction) -> (r: Option<Program>)
    ensures
        ({
            let v = program_for(Platform::Linux, action@, Seq::empty());
            v is Ok && match r {
                Some(p) => v->Ok_0 == Some(p@),
                None => v->Ok_0 is None,
            }
        }),
        forall|path: Seq<char>| #[trigger] program_for(Platform::Linux, action@, path) == program_for(
            Platform::Linux,
            action@,
            Seq::empty(),
        ),
{
    match action {
        DesktopAction::Screenshot => {
            let p = program("import").arg("-window").arg("root").arg("-resize").arg(
                "1280x1280>",
            ).arg("-quality").arg("70").arg("jpg:-");
            assert(p@.args =~= seq![
                "-window"@,
                "root"@,
                "-resize"@,
                "1280x1280>"@,
                "-quality"@,
                "70"@,
                "jpg:-"@,
            ]);
            Some(p)
        },
        DesktopAction::Click { x, y, button } => {
            let number = if same_text(button.as_str(), "middle") {
                "2"
            } else if same_text(button.as_str(), "right") {
                "3"
            } else {
                "1"
            };
            let p = program("xdotool").arg("mousemove").arg("--sync").arg(
                signed_text(*x).as_str(),
            ).arg(signed_text(*y).as_str()).arg("click").arg(number);
            assert(p@.args =~= seq![
                "mousemove"@,
                "--sync"@,
                signed_decimal(*x as int),
                signed_decimal(*y as int),
                "click"@,
                button_number(button@),
            ]);
            Some(p)
        },
        DesktopAction::Type { text } => {
            let p = program("xdotool").arg("type").arg("--clearmodifiers").arg("--delay").arg(
                "1",
            ).arg("--").arg(text.as_str());
            assert(p@.args =~= seq![
                "type"@,
                "--clearmodifiers"@,
                "--delay"@,
                "1"@,
                "--"@,
                text@,
            ]);
            Some(p)
        },
        DesktopAction::Key { key } => {
            let p = program("xdotool").arg("key").arg("--clearmodifiers").arg(key.as_str());
            assert(p@.args =~= seq!["key"@, "--clearmodifiers"@, key@]);
            Some(p)
        },
        DesktopAction::Wait { .. } => None,
    }
}

/// Whether `r` is the program that `v` says, an error by its characters.
pub open spec fn same_program(r: Result<Option<Program>, String>, v: Result<Option<ProgramView>, Seq<char>>) -> bool {
    match r {
        Ok(Some(p)) => v == Ok::<Option<ProgramView>, Seq<char>>(Some(p@)),
        Ok(None) => v == Ok::<Option<ProgramView>, Seq<char>>(None),
        Err(e) => v == Err::<Option<ProgramView>, Seq<char>>(e@),
    }
}

fn mac_program(action: &DesktopAction, path: &str) -> (r: Result<Option<Program>, String>)
    ensures
        same_program(r, program_for(Platform::MacOs, action@, path@)),
{
    match action {
        DesktopAction::Screenshot => {
            let p = program("screencapture").arg("-x").arg("-t").arg("jpg").arg(path);
            assert(p@.args =~= seq!["-x"@, "-t"@, "jpg"@, path@]);
            Ok(Some(p))
        },
        DesktopAction::Click { x, y, .. } => {
            let mut script = "tell application \"System Events\" to click at {".to_owned();
            script.append(signed_text(*x).as_str());
            script.append(", ");
            script.append(signed_text(*y).as_str());
            script.append("}");
            let p = program("osascript").arg("-e").arg(script.as_str());
            assert(p@.args =~= seq!["-e"@, script@]);
            Ok(Some(p))
        },
        DesktopAction::Type { text } => {
            let p = program("osascript").arg("-e").arg("on run argv").arg("-e").arg(
                "tell application \"System Events\" to keystroke (item 1 of argv)",
            ).arg("-e").arg("end run").arg("--").arg(text.as_str());
            assert(p@.args =~= seq![
                "-e"@,
                "on run argv"@,
                "-e"@,
                "tell application \"System Events\" to keystroke (item 1 of argv)"@,
                "-e"@,
                "end run"@,
                "--"@,
                text@,
            ]);
            Ok(Some(p))
        },
        DesktopAction::Key { key } => match mac_press_script(key.as_str()) {
            Ok(script) => {
                let p = program("osascript").arg("-e").arg(script.as_str());
                assert(p@.args =~= seq!["-e"@, script@]);
                Ok(Some(p))
            },
            Err(e) => Err(e),
        },
        DesktopAction::Wait { .. } => Ok(None),
    }
}

fn windows_program(action: &DesktopAction, path: &str) -> (r: Result<Option<Program>, String>)
    ensures
        same_program(r, program_for(Platform::Windows, action@, path@)),
{
    match action {
        DesktopAction::Screenshot => {
            let mut script = CAPTURE_LEAD.to_owned();
            script.append(ps_quote(path).as_str());
            script.append(CAPTURE_REST);
            Ok(Some(shell(script.as_str())))
        },
        DesktopAction::Click { x, y, button } => {
            let codes = if same_text(button.as_str(), "right") {
                ("0x0008", "0x0010")
            } else if same_text(button.as_str(), "middle") {
                ("0x0020", "0x0040")
            } else {
                ("0x0002", "0x0004")
            };
            let mut script = MOUSE_LEAD.to_owned();
            script.append(signed_text(*x).as_str());
            script.append(",");
            script.append(signed_text(*y).as_str());
            script.append(MOUSE_DOWN);
            script.append(codes.0);
            script.append(MOUSE_UP);
            script.append(codes.1);
            script.append(MOUSE_REST);
            Ok(Some(shell(script.as_str())))
        },
        DesktopAction::Type { text } => {
            let mut script = PASTE_LEAD.to_owned();
            script.append(base64_encode(text.as_str().as_bytes()).as_str());
            script.append(PASTE_REST);
            let p = program("powershell").arg("-NoProfile").arg("-STA").arg("-Command").arg(
                script.as_str(),
            );
            assert(p@.args =~= seq!["-NoProfile"@, "-STA"@, "-Command"@, script@]);
            Ok(Some(p))
        },
        DesktopAction::Key { key } => {
            let mut script = KEYS_LEAD.to_owned();
            script.append(ps_quote(windows_key_text(key.as_str()).as_str()).as_str());
            script.append(KEYS_REST);
            Ok(Some(shell(script.as_str())))
        },
        DesktopAction::Wait { .. } => Ok(None),
    }
}

/// The program that carries out an action; `path` is where a screenshot is kept
/// on macOS and Windows.
pub fn find_program(platform: Platform, action: &DesktopAction, path: &str) -> (r: Result<Option<Program>, String>)
    ensures
        same_program(r, program_for(platform, action@, path@)),
{
    match platform {
        Platform::Linux => {
            let p = linux_program(action);
            proof {
                assert(program_for(Platform::Linux, action@, path@) == program_for(
                    Platform::Linux,
                    action@,
                    Seq::empty(),
                ));
            }
            Ok(p)
        },
        Platform::MacOs => mac_program(action, path),
        Platform::Windows => windows_program(action, path),
    }
}

/// Whether what an action's program has made is read from the file that it was given,
/// and not from what it prints.
pub fn reads_file(platform: Platform, action: &DesktopAction) -> (r: bool)
    ensures
        r == (action@ is Screenshot && platform != Platform::Linux),
{
    match action {
        DesktopAction::Screenshot => platform != Platform::Linux,
        _ => false,
    }
}

/// What is told of a program that has failed, `stderr` being its error output.
pub fn program_failure(name: &str, stderr: &[u8]) -> (r: String)
    ensures
        r@ == name@ + ": "@ + trimmed(lossy_text(stderr@)),
{
    let told = trim(from_lossy(stderr).as_str());
    join(join(name, ": ").as_str(), told.as_str())
}

/// A waiting tool never waits longer than ten seconds.
pub proof fn waits_are_short(params: JsonView)
    ensures
        tool_step(params) matches StepView::Act(ActionView::Wait { milliseconds }) ==> milliseconds
            <= 10000,
{
}

/// Every tool that is listed is known, and no other one is.
pub proof fn listed_tools_are_known(params: JsonView, name: Seq<char>)
    requires
        params.text_at("name"@) == Some(name),
    ensures
        tool_step(params) == StepView::Refuse("unknown tool: "@ + name) <==> !exists|i: int|
            0 <= i < tools().len() && #[trigger] tools()[i].text_at("name"@) == Some(name),
{
    reveal_strlit("name");
    reveal_strlit("description");
    reveal_strlit("inputSchema");
    assert("name"@.len() != "description"@.len() && "name"@.len() != "inputSchema"@.len());
    assert(tools()[0].text_at("name"@) == Some("screenshot"@));
    assert(tools()[1].text_at("name"@) == Some("click"@));
    assert(tools()[2].text_at("name"@) == Some("type"@));
    assert(tools()[3].text_at("name"@) == Some("key"@));
    assert(tools()[4].text_at("name"@) == Some("wait"@));
    reveal_strlit("unknown tool: ");
    reveal_strlit("missing integer `");
    reveal_strlit("missing string `");
    assert("unknown tool: "@[0] == 'u' && "missing integer `"@[0] == 'm' && "missing string `"@[0]
        == 'm');
    assert(("unknown tool: "@ + name)[0] == 'u');
    assert(("missing integer `"@ + "x"@ + "`"@)[0] == 'm');
    assert(("missing integer `"@ + "y"@ + "`"@)[0] == 'm');
    assert(("missing string `"@ + "text"@ + "`"@)[0] == 'm');
    assert(("missing string `"@ + "key"@ + "`"@)[0] == 'm');
}

} // verus!
