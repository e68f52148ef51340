//! What the desktop's tools do: which action a call asks for, with which program each platform
//! carries it out, and what is answered.

use vstd::prelude::*;
use vstd::utf8::encode_utf8;

use crate::base64::{decode_encode, decoded, encoded};
use crate::computer_mcp::{
    action_result, mac_code, mac_modifiers, message_step, program_for, request_in, tool_step,
    tools, windows_keys, ActionView, Platform, ProgramView, StepView, CAPTURE_LEAD, CAPTURE_REST,
    KEYS_LEAD, KEYS_REST, MOUSE_DOWN, MOUSE_LEAD, MOUSE_REST, MOUSE_UP, PASTE_LEAD, PASTE_REST,
};
use crate::json::JsonView;
use crate::text::{
    decimal, find, find_is_first, joined, occurs_at, pieces, raised, replaced, signed_decimal,
};
use crate::text::laws::{
    lacks, last_pieces_follow_the_sign, signs_are_replaced, whole_texts_are_one_piece,
};

verus! {

// ---------------------------------------------------------------------------
// Calls
// ---------------------------------------------------------------------------

/// A call of a tool that has its arguments does what the arguments say: it clicks at the place
/// that they give with the button that they name, and with the left one where they name none; it
/// types their text, presses their key, and waits as long as they say, up to ten seconds, and
/// three quarters of a second where they do not say.
pub proof fn calls_do_what_their_arguments_say(params: JsonView, args: JsonView, x: i64, y: i64)
    requires
        params.get("arguments"@) == Some(args),
    ensures
        params.text_at("name"@) == Some("screenshot"@) ==> tool_step(params) == StepView::Act(
            ActionView::Screenshot,
        ),
        params.text_at("name"@) == Some("click"@) && args.get("x"@) is Some && args.get("x"@)->0.as_i64()
            == Some(x) && args.get("y"@) is Some && args.get("y"@)->0.as_i64() == Some(y) ==> tool_step(
            params,
        ) == StepView::Act(
            ActionView::Click {
                x: x as int,
                y: y as int,
                button: if args.text_at("button"@) is Some {
                    args.text_at("button"@)->0
                } else {
                    "left"@
                },
            },
        ),
        params.text_at("name"@) == Some("click"@) && args.get("x"@) is None ==> tool_step(params)
            == StepView::Refuse("missing integer `x`"@),
        params.text_at("name"@) == Some("click"@) && args.get("x"@) is Some && args.get("x"@)->0.as_i64()
            == Some(x) && args.get("y"@) is None ==> tool_step(params) == StepView::Refuse(
            "missing integer `y`"@,
        ),
        params.text_at("name"@) == Some("type"@) ==> tool_step(params) == (if args.text_at("text"@) is Some {
            StepView::Act(ActionView::Type { text: args.text_at("text"@)->0 })
        } else {
            StepView::Refuse("missing string `text`"@)
        }),
        params.text_at("name"@) == Some("key"@) ==> tool_step(params) == (if args.text_at("key"@) is Some {
            StepView::Act(ActionView::Key { key: args.text_at("key"@)->0 })
        } else {
            StepView::Refuse("missing string `key`"@)
        }),
        params.text_at("name"@) == Some("wait"@) && args.get("milliseconds"@) is None ==> tool_step(params)
            == StepView::Act(ActionView::Wait { milliseconds: 750 }),
        params.text_at("name"@) == Some("wait"@) && args.get("milliseconds"@) is Some && args.get(
            "milliseconds"@,
        )->0.as_u64() is Some ==> tool_step(params) == StepView::Act(
            ActionView::Wait {
                milliseconds: if args.get("milliseconds"@)->0.as_u64()->0 <= 10000 {
                    args.get("milliseconds"@)->0.as_u64()->0
                } else {
                    10000
                },
            },
        ),
{
    reveal_strlit("screenshot");
    reveal_strlit("click");
    reveal_strlit("type");
    reveal_strlit("key");
    reveal_strlit("wait");
    assert("screenshot"@.len() == 10 && "click"@.len() == 5 && "type"@.len() == 4
        && "key"@.len() == 3 && "wait"@.len() == 4);
    assert("type"@[0] != "wait"@[0]);
    reveal_strlit("missing integer `");
    reveal_strlit("missing string `");
    reveal_strlit("`");
    reveal_strlit("x");
    reveal_strlit("y");
    reveal_strlit("text");
    reveal_strlit("missing integer `x`");
    reveal_strlit("missing integer `y`");
    reveal_strlit("missing string `text`");
    reveal_strlit("missing string `key`");
    assert("missing integer `"@ + "x"@ + "`"@ =~= "missing integer `x`"@);
    assert("missing integer `"@ + "y"@ + "`"@ =~= "missing integer `y`"@);
    assert("missing string `"@ + "text"@ + "`"@ =~= "missing string `text`"@);
    assert("missing string `"@ + "key"@ + "`"@ =~= "missing string `key`"@);
}

/// A message is answered by its method: it greets, answers a ping with nothing, lists the five
/// tools, calls one, or is refused by its method's name.
pub proof fn messages_go_by_their_method(params: JsonView, method: Seq<char>)
    ensures
        message_step("tools/call"@, params) == tool_step(params),
        message_step("ping"@, params) == StepView::Answer(JsonView::Object(Map::empty())),
        message_step("initialize"@, params) is Answer && ({
            let hello = message_step("initialize"@, params)->Answer_0;
            &&& hello.text_at("protocolVersion"@) == Some("2025-03-26"@)
            &&& hello.get("serverInfo"@) is Some
            &&& hello.get("serverInfo"@)->0.text_at("name"@) == Some("computer-mcp"@)
            &&& hello.get("capabilities"@) is Some
            &&& hello.get("capabilities"@)->0.get("tools"@) is Some
        }),
        message_step("tools/list"@, params) is Answer
            && message_step("tools/list"@, params)->Answer_0.array_at(
            "tools"@,
        ) == Some(tools()),
        tools().len() == 5,
        method != "initialize"@ && method != "ping"@ && method != "tools/list"@ && method != "tools/call"@
            ==> message_step(method, params) == StepView::Refuse("method not found: "@ + method),
{
    reveal_strlit("initialize");
    reveal_strlit("ping");
    reveal_strlit("tools/list");
    reveal_strlit("tools/call");
    assert("initialize"@.len() == 10 && "ping"@.len() == 4 && "tools/list"@.len() == 10
        && "tools/call"@.len() == 10);
    assert("initialize"@[0] != "tools/list"@[0]);
    assert("initialize"@[0] != "tools/call"@[0]);
    assert("tools/list"@[6] != "tools/call"@[6]);
    reveal_strlit("protocolVersion");
    reveal_strlit("capabilities");
    reveal_strlit("serverInfo");
    assert("protocolVersion"@.len() == 15 && "capabilities"@.len() == 12 && "serverInfo"@.len() == 10);
    reveal_strlit("name");
    reveal_strlit("version");
    assert("name"@.len() == 4 && "version"@.len() == 7);
}

/// A message with an id is a request with its method and its parameters; one without is none.
pub proof fn requests_have_an_id(v: JsonView)
    ensures
        request_in(v) is Some <==> v.get("id"@) is Some,
        request_in(v) is Some ==> ({
            let (id, method, params) = request_in(v)->0;
            &&& v.get("id"@) == Some(id)
            &&& v.text_at("method"@) is Some ==> method == v.text_at("method"@)->0
            &&& v.get("params"@) is Some ==> params == v.get("params"@)->0
            &&& v.text_at("method"@) is None ==> method.len() == 0
            &&& v.get("params"@) is None ==> params == JsonView::Null
        }),
{
}

/// What was done is told: one text that names the action with what it was asked for, and of a
/// screenshot the image too, from which its bytes can be had again.
pub proof fn actions_are_told(action: ActionView, image: Seq<u8>)
    ensures
        ({
            let told = action_result(action, image);
            let first = told.array_at("content"@)->0[0];
            &&& told.get("isError"@) == Some(JsonView::Bool(false))
            &&& told.array_at("content"@) is Some
            &&& told.array_at("content"@)->0.len() == (if action is Screenshot {
                2nat
            } else {
                1
            })
            &&& first.text_at("type"@) == Some("text"@)
            &&& action is Screenshot ==> first.text_at("text"@) == Some("Captured the current desktop."@)
            &&& action is Screenshot ==> ({
                let picture = told.array_at("content"@)->0[1];
                &&& picture.text_at("type"@) == Some("image"@)
                &&& picture.text_at("mimeType"@) == Some("image/jpeg"@)
                &&& picture.text_at("data"@) is Some
                &&& decoded(picture.text_at("data"@)->0) == Some(image)
            })
            &&& action is Click ==> first.text_at("text"@) == Some(
                "Clicked "@ + action->button + " at "@ + signed_decimal(action->x) + ", "@ + signed_decimal(
                    action->y,
                ) + "."@,
            )
            &&& action is Type ==> first.text_at("text"@) == Some(
                "Typed "@ + decimal(action->text.len()) + " characters."@,
            )
            &&& action is Key ==> first.text_at("text"@) == Some("Pressed "@ + action->key + "."@)
            &&& action is Wait ==> first.text_at("text"@) == Some(
                "Waited "@ + decimal(action->milliseconds as nat) + " ms."@,
            )
        }),
{
    reveal_strlit("content");
    reveal_strlit("isError");
    assert("content"@.len() == 7 && "isError"@.len() == 7);
    assert("content"@[0] != "isError"@[0]);
    reveal_strlit("type");
    reveal_strlit("text");
    reveal_strlit("mimeType");
    reveal_strlit("data");
    assert("type"@.len() == 4 && "text"@.len() == 4 && "mimeType"@.len() == 8 && "data"@.len() == 4);
    assert("type"@[1] != "text"@[1]);
    assert("type"@[0] != "data"@[0]);
    assert("text"@[0] != "data"@[0]);
    decode_encode(image);
}

// ---------------------------------------------------------------------------
// Programs
// ---------------------------------------------------------------------------

/// Whether the program is `name` with exactly the arguments `args`.
pub open spec fn runs(r: Result<Option<ProgramView>, Seq<char>>, name: Seq<char>,
    args: Seq<Seq<char>>) -> bool {
    &&& r is Ok
    &&& r->Ok_0 is Some
    &&& r->Ok_0->0.name == name
    &&& r->Ok_0->0.args == args
}

/// On Linux a click goes to its place and presses the button 1 for the left one, 2 for the middle
/// one and 3 for the right one; any other name is the left one.
pub proof fn linux_clicks_press_the_button(x: int, y: int, button: Seq<char>, path: Seq<char>)
    ensures
        button == "left"@ ==> runs(
            program_for(Platform::Linux, ActionView::Click { x, y, button }, path),
            "xdotool"@,
            seq!["mousemove"@, "--sync"@, signed_decimal(x), signed_decimal(y), "click"@, "1"@],
        ),
        button == "middle"@ ==> runs(
            program_for(Platform::Linux, ActionView::Click { x, y, button }, path),
            "xdotool"@,
            seq!["mousemove"@, "--sync"@, signed_decimal(x), signed_decimal(y), "click"@, "2"@],
        ),
        button == "right"@ ==> runs(
            program_for(Platform::Linux, ActionView::Click { x, y, button }, path),
            "xdotool"@,
            seq!["mousemove"@, "--sync"@, signed_decimal(x), signed_decimal(y), "click"@, "3"@],
        ),
        button != "middle"@ && button != "right"@ ==> program_for(
            Platform::Linux,
            ActionView::Click { x, y, button },
            path,
        ) == program_for(Platform::Linux, ActionView::Click { x, y, button: "left"@ }, path),
{
    reveal_strlit("left");
    reveal_strlit("middle");
    reveal_strlit("right");
    assert("left"@.len() == 4 && "middle"@.len() == 6 && "right"@.len() == 5);
}

/// On Linux a call that clicks without naming a button presses the button 1.
pub proof fn linux_clicks_are_left_ones(params: JsonView, args: JsonView, x: i64, y: i64, path: Seq<char>)
    requires
        params.text_at("name"@) == Some("click"@),
        params.get("arguments"@) == Some(args),
        args.get("x"@) is Some && args.get("x"@)->0.as_i64() == Some(x),
        args.get("y"@) is Some && args.get("y"@)->0.as_i64() == Some(y),
        args.get("button"@) is None,
    ensures
        tool_step(params) is Act,
        runs(
            program_for(Platform::Linux, tool_step(params)->Act_0, path),
            "xdotool"@,
            seq![
                "mousemove"@,
                "--sync"@,
                signed_decimal(x as int),
                signed_decimal(y as int),
                "click"@,
                "1"@,
            ],
        ),
{
    calls_do_what_their_arguments_say(params, args, x, y);
    linux_clicks_press_the_button(x as int, y as int, "left"@, path);
}

/// On Linux the screen is captured, a text typed and a key pressed by programs that take the text
/// and the key as they are. Waiting takes no program anywhere.
pub proof fn linux_programs_take_what_is_asked(
    platform: Platform,
    text: Seq<char>,
    milliseconds: u64,
    path: Seq<char>,
)
    ensures
        runs(
            program_for(Platform::Linux, ActionView::Screenshot, path),
            "import"@,
            seq!["-window"@, "root"@, "-resize"@, "1280x1280>"@, "-quality"@, "70"@, "jpg:-"@],
        ),
        runs(
            program_for(Platform::Linux, ActionView::Type { text }, path),
            "xdotool"@,
            seq!["type"@, "--clearmodifiers"@, "--delay"@, "1"@, "--"@, text],
        ),
        runs(
            program_for(Platform::Linux, ActionView::Key { key: text }, path),
            "xdotool"@,
            seq!["key"@, "--clearmodifiers"@, text],
        ),
        program_for(platform, ActionView::Wait { milliseconds }, path) == Ok::<
            Option<ProgramView>,
            Seq<char>,
        >(None),
{
}

/// On macOS the screen is captured to the path, a click goes to its place, and a text is handed to
/// the script behind a double dash.
pub proof fn mac_programs_take_what_is_asked(
    x: int,
    y: int,
    button: Seq<char>,
    text: Seq<char>,
    path: Seq<char>,
)
    ensures
        runs(
            program_for(Platform::MacOs, ActionView::Screenshot, path),
            "screencapture"@,
            seq!["-x"@, "-t"@, "jpg"@, path],
        ),
        runs(
            program_for(Platform::MacOs, ActionView::Click { x, y, button }, path),
            "osascript"@,
            seq![
                "-e"@,
                "tell application \"System Events\" to click at {"@ + signed_decimal(x) + ", "@
                    + signed_decimal(y) + "}"@,
            ],
        ),
        runs(
            program_for(Platform::MacOs, ActionView::Type { text }, path),
            "osascript"@,
            seq![
                "-e"@,
                "on run argv"@,
                "-e"@,
                "tell application \"System Events\" to keystroke (item 1 of argv)"@,
                "-e"@,
                "end run"@,
                "--"@,
                text,
            ],
        ),
{
}

/// On macOS the code of a letter or a digit is its place in the keyboard's row of codes, where
/// dots stand for codes of other keys.
#[verifier::spinoff_prover]
#[verifier::rlimit(60)]
pub proof fn mac_codes_follow_the_row(row: Seq<char>, i: int)
    requires
        row == "ASDFHGZXCV.BQWERYT123465.97.80.OU.IP.LJ.K....NM"@,
        0 <= i < row.len(),
        row[i] != '.',
    ensures
        mac_code(seq![row[i]]) == Some(i as u8),
{
    reveal_strlit("ASDFHGZXCV.BQWERYT123465.97.80.OU.IP.LJ.K....NM");
    assert(row[0] == 'A');
    assert(row[1] == 'S');
    assert(row[2] == 'D');
    assert(row[3] == 'F');
    assert(row[4] == 'H');
    assert(row[5] == 'G');
    assert(row[6] == 'Z');
    assert(row[7] == 'X');
    assert(row[8] == 'C');
    assert(row[9] == 'V');
    assert(row[10] == '.');
    assert(row[11] == 'B');
    assert(row[12] == 'Q');
    assert(row[13] == 'W');
    assert(row[14] == 'E');
    assert(row[15] == 'R');
    assert(row[16] == 'Y');
    assert(row[17] == 'T');
    assert(row[18] == '1');
    assert(row[19] == '2');
    assert(row[20] == '3');
    assert(row[21] == '4');
    assert(row[22] == '6');
    assert(row[23] == '5');
    assert(row[24] == '.');
    assert(row[25] == '9');
    assert(row[26] == '7');
    assert(row[27] == '.');
    assert(row[28] == '8');
    assert(row[29] == '0');
    assert(row[30] == '.');
    assert(row[31] == 'O');
    assert(row[32] == 'U');
    assert(row[33] == '.');
    assert(row[34] == 'I');
    assert(row[35] == 'P');
    assert(row[36] == '.');
    assert(row[37] == 'L');
    assert(row[38] == 'J');
    assert(row[39] == '.');
    assert(row[40] == 'K');
    assert(row[41] == '.');
    assert(row[42] == '.');
    assert(row[43] == '.');
    assert(row[44] == '.');
    assert(row[45] == 'N');
    assert(row[46] == 'M');
    reveal_strlit("A");
    reveal_strlit("S");
    reveal_strlit("D");
    reveal_strlit("F");
    reveal_strlit("H");
    reveal_strlit("G");
    reveal_strlit("Z");
    reveal_strlit("X");
    reveal_strlit("C");
    reveal_strlit("V");
    reveal_strlit("B");
    reveal_strlit("Q");
    reveal_strlit("W");
    reveal_strlit("E");
    reveal_strlit("R");
    reveal_strlit("Y");
    reveal_strlit("T");
    reveal_strlit("1");
    reveal_strlit("2");
    reveal_strlit("3");
    reveal_strlit("4");
    reveal_strlit("6");
    reveal_strlit("5");
    reveal_strlit("9");
    reveal_strlit("7");
    reveal_strlit("8");
    reveal_strlit("0");
    reveal_strlit("O");
    reveal_strlit("U");
    reveal_strlit("I");
    reveal_strlit("P");
    reveal_strlit("L");
    reveal_strlit("J");
    reveal_strlit("K");
    reveal_strlit("N");
    reveal_strlit("M");
    reveal_strlit("ENTER");
    reveal_strlit("TAB");
    reveal_strlit("SPACE");
    reveal_strlit("BACKSPACE");
    reveal_strlit("ESC");
    reveal_strlit("ESCAPE");
    reveal_strlit("ARROWLEFT");
    reveal_strlit("ARROWRIGHT");
    reveal_strlit("ARROWDOWN");
    reveal_strlit("ARROWUP");
    reveal_strlit("F1");
    reveal_strlit("F2");
    reveal_strlit("F3");
    reveal_strlit("F4");
    reveal_strlit("F5");
    reveal_strlit("F6");
    reveal_strlit("F7");
    reveal_strlit("F8");
    reveal_strlit("F9");
    reveal_strlit("F10");
    reveal_strlit("F11");
    reveal_strlit("F12");
    assert("A"@.len() == 1 && "A"@[0] == 'A');
    assert("S"@.len() == 1 && "S"@[0] == 'S');
    assert("D"@.len() == 1 && "D"@[0] == 'D');
    assert("F"@.len() == 1 && "F"@[0] == 'F');
    assert("H"@.len() == 1 && "H"@[0] == 'H');
    assert("G"@.len() == 1 && "G"@[0] == 'G');
    assert("Z"@.len() == 1 && "Z"@[0] == 'Z');
    assert("X"@.len() == 1 && "X"@[0] == 'X');
    assert("C"@.len() == 1 && "C"@[0] == 'C');
    assert("V"@.len() == 1 && "V"@[0] == 'V');
    assert("B"@.len() == 1 && "B"@[0] == 'B');
    assert("Q"@.len() == 1 && "Q"@[0] == 'Q');
    assert("W"@.len() == 1 && "W"@[0] == 'W');
    assert("E"@.len() == 1 && "E"@[0] == 'E');
    assert("R"@.len() == 1 && "R"@[0] == 'R');
    assert("Y"@.len() == 1 && "Y"@[0] == 'Y');
    assert("T"@.len() == 1 && "T"@[0] == 'T');
    assert("1"@.len() == 1 && "1"@[0] == '1');
    assert("2"@.len() == 1 && "2"@[0] == '2');
    assert("3"@.len() == 1 && "3"@[0] == '3');
    assert("4"@.len() == 1 && "4"@[0] == '4');
    assert("6"@.len() == 1 && "6"@[0] == '6');
    assert("5"@.len() == 1 && "5"@[0] == '5');
    assert("9"@.len() == 1 && "9"@[0] == '9');
    assert("7"@.len() == 1 && "7"@[0] == '7');
    assert("8"@.len() == 1 && "8"@[0] == '8');
    assert("0"@.len() == 1 && "0"@[0] == '0');
    assert("O"@.len() == 1 && "O"@[0] == 'O');
    assert("U"@.len() == 1 && "U"@[0] == 'U');
    assert("I"@.len() == 1 && "I"@[0] == 'I');
    assert("P"@.len() == 1 && "P"@[0] == 'P');
    assert("L"@.len() == 1 && "L"@[0] == 'L');
    assert("J"@.len() == 1 && "J"@[0] == 'J');
    assert("K"@.len() == 1 && "K"@[0] == 'K');
    assert("N"@.len() == 1 && "N"@[0] == 'N');
    assert("M"@.len() == 1 && "M"@[0] == 'M');
    assert("ENTER"@.len() == 5 && "ENTER"@[0] == 'E' && "ENTER"@[4] == 'R');
    assert("TAB"@.len() == 3 && "TAB"@[0] == 'T' && "TAB"@[1] == 'A' && "TAB"@[2] == 'B');
    assert("SPACE"@.len() == 5 && "SPACE"@[0] == 'S' && "SPACE"@[4] == 'E');
    assert("BACKSPACE"@.len() == 9 && "BACKSPACE"@[0] == 'B' && "BACKSPACE"@[5] == 'P'
        && "BACKSPACE"@[8] == 'E');
    assert("ESC"@.len() == 3 && "ESC"@[0] == 'E' && "ESC"@[1] == 'S' && "ESC"@[2] == 'C');
    assert("ESCAPE"@.len() == 6 && "ESCAPE"@[0] == 'E' && "ESCAPE"@[5] == 'E');
    assert("ARROWLEFT"@.len() == 9 && "ARROWLEFT"@[0] == 'A' && "ARROWLEFT"@[5] == 'L'
        && "ARROWLEFT"@[8] == 'T');
    assert("ARROWRIGHT"@.len() == 10 && "ARROWRIGHT"@[0] == 'A' && "ARROWRIGHT"@[9] == 'T');
    assert("ARROWDOWN"@.len() == 9 && "ARROWDOWN"@[0] == 'A' && "ARROWDOWN"@[5] == 'D'
        && "ARROWDOWN"@[8] == 'N');
    assert("ARROWUP"@.len() == 7 && "ARROWUP"@[0] == 'A' && "ARROWUP"@[6] == 'P');
    assert("F1"@.len() == 2 && "F1"@[0] == 'F' && "F1"@[1] == '1');
    assert("F2"@.len() == 2 && "F2"@[0] == 'F' && "F2"@[1] == '2');
    assert("F3"@.len() == 2 && "F3"@[0] == 'F' && "F3"@[1] == '3');
    assert("F4"@.len() == 2 && "F4"@[0] == 'F' && "F4"@[1] == '4');
    assert("F5"@.len() == 2 && "F5"@[0] == 'F' && "F5"@[1] == '5');
    assert("F6"@.len() == 2 && "F6"@[0] == 'F' && "F6"@[1] == '6');
    assert("F7"@.len() == 2 && "F7"@[0] == 'F' && "F7"@[1] == '7');
    assert("F8"@.len() == 2 && "F8"@[0] == 'F' && "F8"@[1] == '8');
    assert("F9"@.len() == 2 && "F9"@[0] == 'F' && "F9"@[1] == '9');
    assert("F10"@.len() == 3 && "F10"@[0] == 'F' && "F10"@[1] == '1' && "F10"@[2] == '0');
    assert("F11"@.len() == 3 && "F11"@[0] == 'F' && "F11"@[1] == '1' && "F11"@[2] == '1');
    assert("F12"@.len() == 3 && "F12"@[0] == 'F' && "F12"@[1] == '1' && "F12"@[2] == '2');
    assert(seq!['A'] =~= "A"@);
    assert(mac_code("A"@) == Some(0u8));
    assert(seq!['S'] =~= "S"@);
    assert(mac_code("S"@) == Some(1u8));
    assert(seq!['D'] =~= "D"@);
    assert(mac_code("D"@) == Some(2u8));
    assert(seq!['F'] =~= "F"@);
    assert(mac_code("F"@) == Some(3u8));
    assert(seq!['H'] =~= "H"@);
    assert(mac_code("H"@) == Some(4u8));
    assert(seq!['G'] =~= "G"@);
    assert(mac_code("G"@) == Some(5u8));
    assert(seq!['Z'] =~= "Z"@);
    assert(mac_code("Z"@) == Some(6u8));
    assert(seq!['X'] =~= "X"@);
    assert(mac_code("X"@) == Some(7u8));
    assert(seq!['C'] =~= "C"@);
    assert(mac_code("C"@) == Some(8u8));
    assert(seq!['V'] =~= "V"@);
    assert(mac_code("V"@) == Some(9u8));
    assert(seq!['B'] =~= "B"@);
    assert(mac_code("B"@) == Some(11u8));
    assert(seq!['Q'] =~= "Q"@);
    assert(mac_code("Q"@) == Some(12u8));
    assert(seq!['W'] =~= "W"@);
    assert(mac_code("W"@) == Some(13u8));
    assert(seq!['E'] =~= "E"@);
    assert(mac_code("E"@) == Some(14u8));
    assert(seq!['R'] =~= "R"@);
    assert(mac_code("R"@) == Some(15u8));
    assert(seq!['Y'] =~= "Y"@);
    assert(mac_code("Y"@) == Some(16u8));
    assert(seq!['T'] =~= "T"@);
    assert(mac_code("T"@) == Some(17u8));
    assert(seq!['1'] =~= "1"@);
    assert(mac_code("1"@) == Some(18u8));
    assert(seq!['2'] =~= "2"@);
    assert(mac_code("2"@) == Some(19u8));
    assert(seq!['3'] =~= "3"@);
    assert(mac_code("3"@) == Some(20u8));
    assert(seq!['4'] =~= "4"@);
    assert(mac_code("4"@) == Some(21u8));
    assert(seq!['6'] =~= "6"@);
    assert(mac_code("6"@) == Some(22u8));
    assert(seq!['5'] =~= "5"@);
    assert(mac_code("5"@) == Some(23u8));
    assert(seq!['9'] =~= "9"@);
    assert(mac_code("9"@) == Some(25u8));
    assert(seq!['7'] =~= "7"@);
    assert(mac_code("7"@) == Some(26u8));
    assert(seq!['8'] =~= "8"@);
    assert(mac_code("8"@) == Some(28u8));
    assert(seq!['0'] =~= "0"@);
    assert(mac_code("0"@) == Some(29u8));
    assert(seq!['O'] =~= "O"@);
    assert(mac_code("O"@) == Some(31u8));
    assert(seq!['U'] =~= "U"@);
    assert(mac_code("U"@) == Some(32u8));
    assert(seq!['I'] =~= "I"@);
    assert(mac_code("I"@) == Some(34u8));
    assert(seq!['P'] =~= "P"@);
    assert(mac_code("P"@) == Some(35u8));
    assert(seq!['L'] =~= "L"@);
    assert(mac_code("L"@) == Some(37u8));
    assert(seq!['J'] =~= "J"@);
    assert(mac_code("J"@) == Some(38u8));
    assert(seq!['K'] =~= "K"@);
    assert(mac_code("K"@) == Some(40u8));
    assert(seq!['N'] =~= "N"@);
    assert(mac_code("N"@) == Some(45u8));
    assert(seq!['M'] =~= "M"@);
    assert(mac_code("M"@) == Some(46u8));
}

/// On macOS the keys with names have their codes.
#[verifier::spinoff_prover]
#[verifier::rlimit(60)]
pub proof fn mac_names_have_their_codes()
    ensures
        mac_code("ENTER"@) == Some(36u8),
        mac_code("TAB"@) == Some(48u8),
        mac_code("SPACE"@) == Some(49u8),
        mac_code("BACKSPACE"@) == Some(51u8),
        mac_code("ESC"@) == Some(53u8),
        mac_code("ESCAPE"@) == Some(53u8),
        mac_code("ARROWLEFT"@) == Some(123u8),
        mac_code("ARROWRIGHT"@) == Some(124u8),
        mac_code("ARROWDOWN"@) == Some(125u8),
        mac_code("ARROWUP"@) == Some(126u8),
        mac_code("F1"@) == Some(122u8),
        mac_code("F2"@) == Some(120u8),
        mac_code("F3"@) == Some(99u8),
        mac_code("F4"@) == Some(118u8),
        mac_code("F5"@) == Some(96u8),
        mac_code("F6"@) == Some(97u8),
        mac_code("F7"@) == Some(98u8),
        mac_code("F8"@) == Some(100u8),
        mac_code("F9"@) == Some(101u8),
        mac_code("F10"@) == Some(109u8),
        mac_code("F11"@) == Some(103u8),
        mac_code("F12"@) == Some(111u8),
{
    reveal_strlit("A");
    reveal_strlit("S");
    reveal_strlit("D");
    reveal_strlit("F");
    reveal_strlit("H");
    reveal_strlit("G");
    reveal_strlit("Z");
    reveal_strlit("X");
    reveal_strlit("C");
    reveal_strlit("V");
    reveal_strlit("B");
    reveal_strlit("Q");
    reveal_strlit("W");
    reveal_strlit("E");
    reveal_strlit("R");
    reveal_strlit("Y");
    reveal_strlit("T");
    reveal_strlit("1");
    reveal_strlit("2");
    reveal_strlit("3");
    reveal_strlit("4");
    reveal_strlit("6");
    reveal_strlit("5");
    reveal_strlit("9");
    reveal_strlit("7");
    reveal_strlit("8");
    reveal_strlit("0");
    reveal_strlit("O");
    reveal_strlit("U");
    reveal_strlit("I");
    reveal_strlit("P");
    reveal_strlit("L");
    reveal_strlit("J");
    reveal_strlit("K");
    reveal_strlit("N");
    reveal_strlit("M");
    reveal_strlit("ENTER");
    reveal_strlit("TAB");
    reveal_strlit("SPACE");
    reveal_strlit("BACKSPACE");
    reveal_strlit("ESC");
    reveal_strlit("ESCAPE");
    reveal_strlit("ARROWLEFT");
    reveal_strlit("ARROWRIGHT");
    reveal_strlit("ARROWDOWN");
    reveal_strlit("ARROWUP");
    reveal_strlit("F1");
    reveal_strlit("F2");
    reveal_strlit("F3");
    reveal_strlit("F4");
    reveal_strlit("F5");
    reveal_strlit("F6");
    reveal_strlit("F7");
    reveal_strlit("F8");
    reveal_strlit("F9");
    reveal_strlit("F10");
    reveal_strlit("F11");
    reveal_strlit("F12");
    assert("A"@.len() == 1 && "A"@[0] == 'A');
    assert("S"@.len() == 1 && "S"@[0] == 'S');
    assert("D"@.len() == 1 && "D"@[0] == 'D');
    assert("F"@.len() == 1 && "F"@[0] == 'F');
    assert("H"@.len() == 1 && "H"@[0] == 'H');
    assert("G"@.len() == 1 && "G"@[0] == 'G');
    assert("Z"@.len() == 1 && "Z"@[0] == 'Z');
    assert("X"@.len() == 1 && "X"@[0] == 'X');
    assert("C"@.len() == 1 && "C"@[0] == 'C');
    assert("V"@.len() == 1 && "V"@[0] == 'V');
    assert("B"@.len() == 1 && "B"@[0] == 'B');
    assert("Q"@.len() == 1 && "Q"@[0] == 'Q');
    assert("W"@.len() == 1 && "W"@[0] == 'W');
    assert("E"@.len() == 1 && "E"@[0] == 'E');
    assert("R"@.len() == 1 && "R"@[0] == 'R');
    assert("Y"@.len() == 1 && "Y"@[0] == 'Y');
    assert("T"@.len() == 1 && "T"@[0] == 'T');
    assert("1"@.len() == 1 && "1"@[0] == '1');
    assert("2"@.len() == 1 && "2"@[0] == '2');
    assert("3"@.len() == 1 && "3"@[0] == '3');
    assert("4"@.len() == 1 && "4"@[0] == '4');
    assert("6"@.len() == 1 && "6"@[0] == '6');
    assert("5"@.len() == 1 && "5"@[0] == '5');
    assert("9"@.len() == 1 && "9"@[0] == '9');
    assert("7"@.len() == 1 && "7"@[0] == '7');
    assert("8"@.len() == 1 && "8"@[0] == '8');
    assert("0"@.len() == 1 && "0"@[0] == '0');
    assert("O"@.len() == 1 && "O"@[0] == 'O');
    assert("U"@.len() == 1 && "U"@[0] == 'U');
    assert("I"@.len() == 1 && "I"@[0] == 'I');
    assert("P"@.len() == 1 && "P"@[0] == 'P');
    assert("L"@.len() == 1 && "L"@[0] == 'L');
    assert("J"@.len() == 1 && "J"@[0] == 'J');
    assert("K"@.len() == 1 && "K"@[0] == 'K');
    assert("N"@.len() == 1 && "N"@[0] == 'N');
    assert("M"@.len() == 1 && "M"@[0] == 'M');
    assert("ENTER"@.len() == 5 && "ENTER"@[0] == 'E' && "ENTER"@[4] == 'R');
    assert("TAB"@.len() == 3 && "TAB"@[0] == 'T' && "TAB"@[1] == 'A' && "TAB"@[2] == 'B');
    assert("SPACE"@.len() == 5 && "SPACE"@[0] == 'S' && "SPACE"@[4] == 'E');
    assert("BACKSPACE"@.len() == 9 && "BACKSPACE"@[0] == 'B' && "BACKSPACE"@[5] == 'P'
        && "BACKSPACE"@[8] == 'E');
    assert("ESC"@.len() == 3 && "ESC"@[0] == 'E' && "ESC"@[1] == 'S' && "ESC"@[2] == 'C');
    assert("ESCAPE"@.len() == 6 && "ESCAPE"@[0] == 'E' && "ESCAPE"@[5] == 'E');
    assert("ARROWLEFT"@.len() == 9 && "ARROWLEFT"@[0] == 'A' && "ARROWLEFT"@[5] == 'L'
        && "ARROWLEFT"@[8] == 'T');
    assert("ARROWRIGHT"@.len() == 10 && "ARROWRIGHT"@[0] == 'A' && "ARROWRIGHT"@[9] == 'T');
    assert("ARROWDOWN"@.len() == 9 && "ARROWDOWN"@[0] == 'A' && "ARROWDOWN"@[5] == 'D'
        && "ARROWDOWN"@[8] == 'N');
    assert("ARROWUP"@.len() == 7 && "ARROWUP"@[0] == 'A' && "ARROWUP"@[6] == 'P');
    assert("F1"@.len() == 2 && "F1"@[0] == 'F' && "F1"@[1] == '1');
    assert("F2"@.len() == 2 && "F2"@[0] == 'F' && "F2"@[1] == '2');
    assert("F3"@.len() == 2 && "F3"@[0] == 'F' && "F3"@[1] == '3');
    assert("F4"@.len() == 2 && "F4"@[0] == 'F' && "F4"@[1] == '4');
    assert("F5"@.len() == 2 && "F5"@[0] == 'F' && "F5"@[1] == '5');
    assert("F6"@.len() == 2 && "F6"@[0] == 'F' && "F6"@[1] == '6');
    assert("F7"@.len() == 2 && "F7"@[0] == 'F' && "F7"@[1] == '7');
    assert("F8"@.len() == 2 && "F8"@[0] == 'F' && "F8"@[1] == '8');
    assert("F9"@.len() == 2 && "F9"@[0] == 'F' && "F9"@[1] == '9');
    assert("F10"@.len() == 3 && "F10"@[0] == 'F' && "F10"@[1] == '1' && "F10"@[2] == '0');
    assert("F11"@.len() == 3 && "F11"@[0] == 'F' && "F11"@[1] == '1' && "F11"@[2] == '1');
    assert("F12"@.len() == 3 && "F12"@[0] == 'F' && "F12"@[1] == '1' && "F12"@[2] == '2');
}

/// On macOS a shortcut holds its modifier down, by its own name, while the key's code is sent; a
/// key alone is sent with nothing held; and a key without a code is refused by its name. Small
/// letters stand for capitals.
pub proof fn mac_shortcuts_hold_their_modifier(
    typed: Seq<char>,
    modifier: Seq<char>,
    held: Seq<char>,
    key: Seq<char>,
    code: u8,
    path: Seq<char>,
)
    requires
        forall|i: int| 0 <= i < key.len() ==> #[trigger] key[i] != '+',
        modifier == "CMD"@ && held == "command"@ || modifier == "COMMAND"@ && held == "command"@
            || modifier == "ALT"@ && held == "option"@ || modifier == "OPTION"@ && held == "option"@
            || modifier == "SHIFT"@ && held == "shift"@ || modifier == "CTRL"@ && held == "control"@
            || modifier == "CONTROL"@ && held == "control"@,
    ensures
        raised(typed) == modifier + "+"@ + key && mac_code(key) == Some(code) ==> runs(
            program_for(Platform::MacOs, ActionView::Key { key: typed }, path),
            "osascript"@,
            seq![
                "-e"@,
                "tell application \"System Events\" to key code "@ + decimal(code as nat) + " using {"@
                    + held + " down}"@,
            ],
        ),
        raised(typed) == key && mac_code(key) == Some(code) ==> runs(
            program_for(Platform::MacOs, ActionView::Key { key: typed }, path),
            "osascript"@,
            seq!["-e"@, "tell application \"System Events\" to key code "@ + decimal(code as nat)],
        ),
        raised(typed) == key && mac_code(key) is None ==> program_for(
            Platform::MacOs,
            ActionView::Key { key: typed },
            path,
        ) == Err::<Option<ProgramView>, Seq<char>>("unsupported macOS key: "@ + key),
{
    reveal_strlit("CMD");
    reveal_strlit("COMMAND");
    reveal_strlit("ALT");
    reveal_strlit("OPTION");
    reveal_strlit("SHIFT");
    reveal_strlit("CTRL");
    reveal_strlit("CONTROL");
    assert("CMD"@.len() == 3 && "COMMAND"@.len() == 7 && "ALT"@.len() == 3 && "OPTION"@.len() == 6
        && "SHIFT"@.len() == 5 && "CTRL"@.len() == 4 && "CONTROL"@.len() == 7);
    assert("CMD"@[0] != "ALT"@[0]);
    assert("COMMAND"@[2] != "CONTROL"@[2]);
    reveal_strlit("+");
    reveal_strlit(" down");
    reveal_strlit("}");
    reveal_strlit(" down}");
    assert forall|i: int| 0 <= i < modifier.len() implies #[trigger] modifier[i] != '+' by {}
    whole_texts_are_one_piece(key, '+');
    whole_texts_are_one_piece(modifier, '+');
    last_pieces_follow_the_sign(modifier, '+', key);
    assert(modifier + "+"@ + key =~= modifier.push('+') + key);
    let one = seq![modifier, key];
    assert(seq![modifier].push(key) =~= one);
    assert(one.drop_last() =~= seq![modifier]);
    assert(seq![key].drop_last() =~= Seq::empty());
    assert(seq![modifier].drop_last() =~= Seq::empty());
    assert(mac_modifiers(Seq::empty()) == Ok::<Seq<Seq<char>>, Seq<char>>(Seq::empty()));
    let lead = "tell application \"System Events\" to key code "@ + decimal(code as nat);
    if raised(typed) == modifier + "+"@ + key && mac_code(key) == Some(code) {
        assert(pieces(raised(typed), '+') == one);
        assert(mac_modifiers(seq![modifier]) == Ok::<Seq<Seq<char>>, Seq<char>>(seq![held + " down"@])) by {
            assert(Seq::<Seq<char>>::empty().push(held + " down"@) =~= seq![held + " down"@]);
            assert(seq![modifier].last() == modifier);
        }
        assert(joined(seq![held + " down"@], ", "@) == held + " down"@);
        assert(lead + (" using {"@ + (held + " down"@) + "}"@) =~= lead + " using {"@ + held + " down}"@);
    }
    if raised(typed) == key {
        assert(pieces(raised(typed), '+') == seq![key]);
        assert(lead + Seq::<char>::empty() =~= lead);
    }
}

/// On Windows a click goes to its place and the named button goes down and up again there; any
/// other name is the left one.
pub proof fn windows_clicks_press_the_button(x: int, y: int, button: Seq<char>, path: Seq<char>)
    ensures
        ({
            let r = program_for(Platform::Windows, ActionView::Click { x, y, button }, path);
            let place = MOUSE_LEAD@ + signed_decimal(x) + ","@ + signed_decimal(y) + MOUSE_DOWN@;
            &&& button == "left"@ ==> runs(
                r,
                "powershell"@,
                seq![
                    "-NoProfile"@,
                    "-Command"@,
                    place + "0x0002"@ + MOUSE_UP@ + "0x0004"@ + MOUSE_REST@,
                ],
            )
            &&& button == "right"@ ==> runs(
                r,
                "powershell"@,
                seq![
                    "-NoProfile"@,
                    "-Command"@,
                    place + "0x0008"@ + MOUSE_UP@ + "0x0010"@ + MOUSE_REST@,
                ],
            )
            &&& button == "middle"@ ==> runs(
                r,
                "powershell"@,
                seq![
                    "-NoProfile"@,
                    "-Command"@,
                    place + "0x0020"@ + MOUSE_UP@ + "0x0040"@ + MOUSE_REST@,
                ],
            )
            &&& button != "middle"@ && button != "right"@ ==> r == program_for(
                Platform::Windows,
                ActionView::Click { x, y, button: "left"@ },
                path,
            )
        }),
{
    reveal_strlit("left");
    reveal_strlit("middle");
    reveal_strlit("right");
    assert("left"@.len() == 4 && "middle"@.len() == 6 && "right"@.len() == 5);
}

/// On Windows a text is carried whole: the script holds what it decodes to the text's bytes. A path
/// and a key without a quote stand in the script as they are.
pub proof fn windows_programs_take_what_is_asked(text: Seq<char>, key: Seq<char>, path: Seq<char>)
    ensures
        runs(
            program_for(Platform::Windows, ActionView::Type { text }, path),
            "powershell"@,
            seq![
                "-NoProfile"@,
                "-STA"@,
                "-Command"@,
                PASTE_LEAD@ + encoded(encode_utf8(text)) + PASTE_REST@,
            ],
        ),
        decoded(encoded(encode_utf8(text))) == Some(encode_utf8(text)),
        find(path, "'"@) is None ==> runs(
            program_for(Platform::Windows, ActionView::Screenshot, path),
            "powershell"@,
            seq!["-NoProfile"@, "-Command"@, CAPTURE_LEAD@ + path + CAPTURE_REST@],
        ),
        find(windows_keys(raised(key)), "'"@) is None ==> runs(
            program_for(Platform::Windows, ActionView::Key { key }, path),
            "powershell"@,
            seq!["-NoProfile"@, "-Command"@, KEYS_LEAD@ + windows_keys(raised(key)) + KEYS_REST@],
        ),
{
    decode_encode(encode_utf8(text));
}

proof fn not_found(s: Seq<char>, p: Seq<char>, at: int)
    requires
        p.len() > 0,
        p.last() == '+',
        at < s.len(),
        forall|i: int| 0 <= i < s.len() && i != at ==> #[trigger] s[i] != '+',
        !occurs_at(s, p, at - p.len() + 1),
    ensures
        find(s, p) is None,
        replaced(s, p, "^"@) == s,
        replaced(s, p, "%"@) == s,
        replaced(s, p, "+"@) == s,
{
    find_is_first(s, p, 0);
    if find(s, p) is Some {
        let i = find(s, p)->0;
        assert(s.subrange(i, i + p.len())[p.len() - 1] == s[i + p.len() - 1]);
    }
}

proof fn found_first(p: Seq<char>, rest: Seq<char>, q: Seq<char>)
    requires
        p.len() > 0,
        find(rest, p) is None,
    ensures
        replaced(p + rest, p, q) == q + rest,
{
    let s = p + rest;
    find_is_first(s, p, 0);
    assert(s.subrange(0, p.len() as int) =~= p);
    assert(occurs_at(s, p, 0));
    assert(find(s, p) == Some(0int));
    assert(replaced(rest, p, q) == rest);
    assert(s.skip(0int + p.len()) =~= rest);
    assert(replaced(s, p, q) == s.take(0) + q + replaced(s.skip(0int + p.len()), p, q));
    assert(s.take(0) + q + rest =~= q + rest);
}

/// On Windows the keys with names are sent by the names that the system has for them, and a
/// shortcut is sent with the sign of its modifier before the key.
pub proof fn windows_keys_have_their_names(key: Seq<char>)
    requires
        forall|i: int| 0 <= i < key.len() ==> #[trigger] key[i] != '+',
    ensures
        windows_keys("ENTER"@) == "{ENTER}"@,
        windows_keys("ESC"@) == "{ESC}"@,
        windows_keys("ESCAPE"@) == "{ESC}"@,
        windows_keys("TAB"@) == "{TAB}"@,
        windows_keys("BACKSPACE"@) == "{BACKSPACE}"@,
        windows_keys("DELETE"@) == "{DELETE}"@,
        windows_keys("ARROWLEFT"@) == "{LEFT}"@,
        windows_keys("ARROWRIGHT"@) == "{RIGHT}"@,
        windows_keys("ARROWUP"@) == "{UP}"@,
        windows_keys("ARROWDOWN"@) == "{DOWN}"@,
        windows_keys("CTRL+"@ + key) == "^"@ + key,
        windows_keys("ALT+"@ + key) == "%"@ + key,
        windows_keys("SHIFT+"@ + key) == "+"@ + key,
{
    reveal_strlit("ENTER");
    reveal_strlit("ESC");
    reveal_strlit("ESCAPE");
    reveal_strlit("TAB");
    reveal_strlit("BACKSPACE");
    reveal_strlit("DELETE");
    reveal_strlit("ARROWLEFT");
    reveal_strlit("ARROWRIGHT");
    reveal_strlit("ARROWUP");
    reveal_strlit("ARROWDOWN");
    assert("ENTER"@.len() == 5 && "ESC"@.len() == 3 && "ESCAPE"@.len() == 6 && "TAB"@.len() == 3
        && "BACKSPACE"@.len() == 9 && "DELETE"@.len() == 6 && "ARROWLEFT"@.len() == 9
            && "ARROWRIGHT"@.len() == 10 && "ARROWUP"@.len() == 7 && "ARROWDOWN"@.len() == 9);
    assert("ESC"@[0] != "TAB"@[0]);
    assert("ESCAPE"@[0] != "DELETE"@[0]);
    assert("BACKSPACE"@[0] != "ARROWLEFT"@[0]);
    assert("BACKSPACE"@[0] != "ARROWDOWN"@[0]);
    assert("ARROWLEFT"@[5] != "ARROWDOWN"@[5]);
    reveal_strlit("CTRL+");
    reveal_strlit("ALT+");
    reveal_strlit("SHIFT+");
    reveal_strlit("^");
    reveal_strlit("%");
    reveal_strlit("+");
    let ctrl = "CTRL+"@ + key;
    let alt = "ALT+"@ + key;
    let shift = "SHIFT+"@ + key;
    assert(ctrl[4] == '+');
    assert(alt[3] == '+');
    assert(shift[5] == '+');
    not_found(key, "CTRL+"@, -1);
    not_found(key, "ALT+"@, -1);
    not_found(key, "SHIFT+"@, -1);
    found_first("CTRL+"@, key, "^"@);
    found_first("ALT+"@, key, "%"@);
    found_first("SHIFT+"@, key, "+"@);
    let held = "^"@ + key;
    not_found(held, "ALT+"@, -1);
    not_found(held, "SHIFT+"@, -1);
    not_found(alt, "CTRL+"@, 3);
    let other = "%"@ + key;
    not_found(other, "SHIFT+"@, -1);
    assert(shift.subrange(1, 6)[0] == 'H');
    not_found(shift, "CTRL+"@, 5);
    assert(shift.subrange(2, 6)[0] == 'I');
    not_found(shift, "ALT+"@, 5);
}

/// Each tool tells its name and what it takes: which members, of which type, and which of them it
/// cannot do without.
pub proof fn tools_tell_what_they_take()
    ensures
        tools()[0].text_at("name"@) == Some("screenshot"@),
        tools()[1].text_at("name"@) == Some("click"@),
        tools()[2].text_at("name"@) == Some("type"@),
        tools()[3].text_at("name"@) == Some("key"@),
        tools()[4].text_at("name"@) == Some("wait"@),
        takes(tools()[1], "x"@, "integer"@) && takes(tools()[1], "y"@, "integer"@),
        takes(tools()[1], "button"@, "string"@),
        takes(tools()[2], "text"@, "string"@),
        takes(tools()[3], "key"@, "string"@),
        takes(tools()[4], "milliseconds"@, "integer"@),
        needs(tools()[1]) == Some(seq![JsonView::Text("x"@), JsonView::Text("y"@)]),
        needs(tools()[2]) == Some(seq![JsonView::Text("text"@)]),
        needs(tools()[3]) == Some(seq![JsonView::Text("key"@)]),
        needs(tools()[0]) is None && needs(tools()[4]) is None,
        member_of(tools()[1], "button"@)->0.array_at("enum"@) == Some(
            seq![JsonView::Text("left"@), JsonView::Text("middle"@), JsonView::Text("right"@)],
        ),
        member_of(tools()[4], "milliseconds"@)->0.get("maximum"@) == Some(JsonView::Uint(10000)),
{
    reveal_strlit("name");
    reveal_strlit("description");
    reveal_strlit("inputSchema");
    assert("name"@.len() == 4 && "description"@.len() == 11 && "inputSchema"@.len() == 11);
    assert("description"@[0] != "inputSchema"@[0]);
    reveal_strlit("type");
    reveal_strlit("properties");
    reveal_strlit("required");
    reveal_strlit("enum");
    reveal_strlit("minimum");
    reveal_strlit("maximum");
    assert("type"@.len() == 4 && "properties"@.len() == 10 && "required"@.len() == 8
        && "enum"@.len() == 4 && "minimum"@.len() == 7 && "maximum"@.len() == 7);
    assert("type"@[0] != "enum"@[0]);
    assert("minimum"@[1] != "maximum"@[1]);
    reveal_strlit("x");
    reveal_strlit("y");
    reveal_strlit("button");
    assert("x"@.len() == 1 && "y"@.len() == 1 && "button"@.len() == 6);
    assert("x"@[0] != "y"@[0]);
}

/// The schema of the member `key` of what a tool takes.
pub open spec fn member_of(tool: JsonView, key: Seq<char>) -> Option<JsonView> {
    match tool.get("inputSchema"@) {
        Some(schema) => match schema.get("properties"@) {
            Some(properties) => properties.get(key),
            None => None,
        },
        None => None,
    }
}

/// Whether a tool takes the member `key`, of the type `kind`.
pub open spec fn takes(tool: JsonView, key: Seq<char>, kind: Seq<char>) -> bool {
    member_of(tool, key) matches Some(schema) && schema.text_at("type"@) == Some(kind)
}

/// The members that a tool cannot do without.
pub open spec fn needs(tool: JsonView) -> Option<Seq<JsonView>> {
    match tool.get("inputSchema"@) {
        Some(schema) => schema.array_at("required"@),
        None => None,
    }
}

/// Modifiers are held in their order, and the first that is unknown is the one that is refused.
pub proof fn mac_modifiers_are_held_in_order(keys: Seq<Seq<char>>, key: Seq<char>)
    ensures
        mac_modifiers(Seq::empty()) == Ok::<Seq<Seq<char>>, Seq<char>>(Seq::empty()),
        mac_modifiers(keys) is Err ==> mac_modifiers(keys.push(key)) == mac_modifiers(keys),
        mac_modifiers(keys) is Ok && (key == "CMD"@ || key == "COMMAND"@) ==> mac_modifiers(keys.push(key))
            == Ok::<Seq<Seq<char>>, Seq<char>>(mac_modifiers(keys)->Ok_0.push("command"@ + " down"@)),
        mac_modifiers(keys) is Ok && (key == "ALT"@ || key == "OPTION"@) ==> mac_modifiers(keys.push(key))
            == Ok::<Seq<Seq<char>>, Seq<char>>(mac_modifiers(keys)->Ok_0.push("option"@ + " down"@)),
        mac_modifiers(keys) is Ok && key == "SHIFT"@ ==> mac_modifiers(keys.push(key)) == Ok::<
            Seq<Seq<char>>,
            Seq<char>,
        >(mac_modifiers(keys)->Ok_0.push("shift"@ + " down"@)),
        mac_modifiers(keys) is Ok && (key == "CTRL"@ || key == "CONTROL"@) ==> mac_modifiers(keys.push(key))
            == Ok::<Seq<Seq<char>>, Seq<char>>(mac_modifiers(keys)->Ok_0.push("control"@ + " down"@)),
        mac_modifiers(keys) is Ok && key != "CMD"@ && key != "COMMAND"@ && key != "ALT"@ && key != "OPTION"@
            && key != "SHIFT"@ && key != "CTRL"@ && key != "CONTROL"@ ==> mac_modifiers(keys.push(key))
            == Err::<Seq<Seq<char>>, Seq<char>>("unsupported macOS modifier: "@ + key),
{
    reveal_strlit("CMD");
    reveal_strlit("COMMAND");
    reveal_strlit("ALT");
    reveal_strlit("OPTION");
    reveal_strlit("SHIFT");
    reveal_strlit("CTRL");
    reveal_strlit("CONTROL");
    assert("CMD"@.len() == 3 && "COMMAND"@.len() == 7 && "ALT"@.len() == 3 && "OPTION"@.len() == 6
        && "SHIFT"@.len() == 5 && "CTRL"@.len() == 4 && "CONTROL"@.len() == 7);
    assert("CMD"@[0] != "ALT"@[0]);
    assert("COMMAND"@[2] != "CONTROL"@[2]);
    assert(keys.push(key).drop_last() =~= keys);
}

/// On Windows a quote in a path is doubled in the script, so that the text in the script stays one.
pub proof fn windows_quotes_are_doubled(front: Seq<char>, rest: Seq<char>)
    requires
        lacks(front, '\''),
        lacks(rest, '\''),
    ensures
        runs(
            program_for(Platform::Windows, ActionView::Screenshot, front + seq!['\''] + rest),
            "powershell"@,
            seq![
                "-NoProfile"@,
                "-Command"@,
                CAPTURE_LEAD@ + (front + seq!['\'', '\''] + rest) + CAPTURE_REST@,
            ],
        ),
{
    reveal_strlit("'");
    reveal_strlit("''");
    assert("'"@ =~= seq!['\'']);
    assert("''"@ =~= seq!['\'', '\'']);
    signs_are_replaced(front, '\'', rest, seq!['\'', '\'']);
    signs_are_replaced(rest, '\'', Seq::empty(), seq!['\'', '\'']);
}

/// On macOS no key has a code but the letters, the digits and the keys with names.
pub proof fn no_other_key_has_a_code(key: Seq<char>)
    requires
        mac_code(key) is Some,
    ensures
        key.len() == 1 && ('A' <= key[0] <= 'Z' || '0' <= key[0] <= '9') || key == "ENTER"@
            || key == "TAB"@ || key == "SPACE"@ || key == "BACKSPACE"@ || key == "ESC"@
                || key == "ESCAPE"@ || key == "ARROWLEFT"@ || key == "ARROWRIGHT"@
                    || key == "ARROWDOWN"@ || key == "ARROWUP"@ || key == "F1"@ || key == "F2"@
                        || key == "F3"@ || key == "F4"@ || key == "F5"@ || key == "F6"@
                            || key == "F7"@ || key == "F8"@ || key == "F9"@ || key == "F10"@
                                || key == "F11"@ || key == "F12"@,
{
    reveal_strlit("A");
    reveal_strlit("S");
    reveal_strlit("D");
    reveal_strlit("F");
    reveal_strlit("H");
    reveal_strlit("G");
    reveal_strlit("Z");
    reveal_strlit("X");
    reveal_strlit("C");
    reveal_strlit("V");
    reveal_strlit("B");
    reveal_strlit("Q");
    reveal_strlit("W");
    reveal_strlit("E");
    reveal_strlit("R");
    reveal_strlit("Y");
    reveal_strlit("T");
    reveal_strlit("1");
    reveal_strlit("2");
    reveal_strlit("3");
    reveal_strlit("4");
    reveal_strlit("6");
    reveal_strlit("5");
    reveal_strlit("9");
    reveal_strlit("7");
    reveal_strlit("8");
    reveal_strlit("0");
    reveal_strlit("O");
    reveal_strlit("U");
    reveal_strlit("I");
    reveal_strlit("P");
    reveal_strlit("L");
    reveal_strlit("J");
    reveal_strlit("K");
    reveal_strlit("N");
    reveal_strlit("M");
    reveal_strlit("ENTER");
    reveal_strlit("TAB");
    reveal_strlit("SPACE");
    reveal_strlit("BACKSPACE");
    reveal_strlit("ESC");
    reveal_strlit("ESCAPE");
    reveal_strlit("ARROWLEFT");
    reveal_strlit("ARROWRIGHT");
    reveal_strlit("ARROWDOWN");
    reveal_strlit("ARROWUP");
    reveal_strlit("F1");
    reveal_strlit("F2");
    reveal_strlit("F3");
    reveal_strlit("F4");
    reveal_strlit("F5");
    reveal_strlit("F6");
    reveal_strlit("F7");
    reveal_strlit("F8");
    reveal_strlit("F9");
    reveal_strlit("F10");
    reveal_strlit("F11");
    reveal_strlit("F12");
    assert("A"@.len() == 1 && "A"@[0] == 'A');
    assert("S"@.len() == 1 && "S"@[0] == 'S');
    assert("D"@.len() == 1 && "D"@[0] == 'D');
    assert("F"@.len() == 1 && "F"@[0] == 'F');
    assert("H"@.len() == 1 && "H"@[0] == 'H');
    assert("G"@.len() == 1 && "G"@[0] == 'G');
    assert("Z"@.len() == 1 && "Z"@[0] == 'Z');
    assert("X"@.len() == 1 && "X"@[0] == 'X');
    assert("C"@.len() == 1 && "C"@[0] == 'C');
    assert("V"@.len() == 1 && "V"@[0] == 'V');
    assert("B"@.len() == 1 && "B"@[0] == 'B');
    assert("Q"@.len() == 1 && "Q"@[0] == 'Q');
    assert("W"@.len() == 1 && "W"@[0] == 'W');
    assert("E"@.len() == 1 && "E"@[0] == 'E');
    assert("R"@.len() == 1 && "R"@[0] == 'R');
    assert("Y"@.len() == 1 && "Y"@[0] == 'Y');
    assert("T"@.len() == 1 && "T"@[0] == 'T');
    assert("1"@.len() == 1 && "1"@[0] == '1');
    assert("2"@.len() == 1 && "2"@[0] == '2');
    assert("3"@.len() == 1 && "3"@[0] == '3');
    assert("4"@.len() == 1 && "4"@[0] == '4');
    assert("6"@.len() == 1 && "6"@[0] == '6');
    assert("5"@.len() == 1 && "5"@[0] == '5');
    assert("9"@.len() == 1 && "9"@[0] == '9');
    assert("7"@.len() == 1 && "7"@[0] == '7');
    assert("8"@.len() == 1 && "8"@[0] == '8');
    assert("0"@.len() == 1 && "0"@[0] == '0');
    assert("O"@.len() == 1 && "O"@[0] == 'O');
    assert("U"@.len() == 1 && "U"@[0] == 'U');
    assert("I"@.len() == 1 && "I"@[0] == 'I');
    assert("P"@.len() == 1 && "P"@[0] == 'P');
    assert("L"@.len() == 1 && "L"@[0] == 'L');
    assert("J"@.len() == 1 && "J"@[0] == 'J');
    assert("K"@.len() == 1 && "K"@[0] == 'K');
    assert("N"@.len() == 1 && "N"@[0] == 'N');
    assert("M"@.len() == 1 && "M"@[0] == 'M');
    assert("ENTER"@.len() == 5 && "ENTER"@[0] == 'E' && "ENTER"@[4] == 'R');
    assert("TAB"@.len() == 3 && "TAB"@[0] == 'T' && "TAB"@[1] == 'A' && "TAB"@[2] == 'B');
    assert("SPACE"@.len() == 5 && "SPACE"@[0] == 'S' && "SPACE"@[4] == 'E');
    assert("BACKSPACE"@.len() == 9 && "BACKSPACE"@[0] == 'B' && "BACKSPACE"@[5] == 'P'
        && "BACKSPACE"@[8] == 'E');
    assert("ESC"@.len() == 3 && "ESC"@[0] == 'E' && "ESC"@[1] == 'S' && "ESC"@[2] == 'C');
    assert("ESCAPE"@.len() == 6 && "ESCAPE"@[0] == 'E' && "ESCAPE"@[5] == 'E');
    assert("ARROWLEFT"@.len() == 9 && "ARROWLEFT"@[0] == 'A' && "ARROWLEFT"@[5] == 'L'
        && "ARROWLEFT"@[8] == 'T');
    assert("ARROWRIGHT"@.len() == 10 && "ARROWRIGHT"@[0] == 'A' && "ARROWRIGHT"@[9] == 'T');
    assert("ARROWDOWN"@.len() == 9 && "ARROWDOWN"@[0] == 'A' && "ARROWDOWN"@[5] == 'D'
        && "ARROWDOWN"@[8] == 'N');
    assert("ARROWUP"@.len() == 7 && "ARROWUP"@[0] == 'A' && "ARROWUP"@[6] == 'P');
    assert("F1"@.len() == 2 && "F1"@[0] == 'F' && "F1"@[1] == '1');
    assert("F2"@.len() == 2 && "F2"@[0] == 'F' && "F2"@[1] == '2');
    assert("F3"@.len() == 2 && "F3"@[0] == 'F' && "F3"@[1] == '3');
    assert("F4"@.len() == 2 && "F4"@[0] == 'F' && "F4"@[1] == '4');
    assert("F5"@.len() == 2 && "F5"@[0] == 'F' && "F5"@[1] == '5');
    assert("F6"@.len() == 2 && "F6"@[0] == 'F' && "F6"@[1] == '6');
    assert("F7"@.len() == 2 && "F7"@[0] == 'F' && "F7"@[1] == '7');
    assert("F8"@.len() == 2 && "F8"@[0] == 'F' && "F8"@[1] == '8');
    assert("F9"@.len() == 2 && "F9"@[0] == 'F' && "F9"@[1] == '9');
    assert("F10"@.len() == 3 && "F10"@[0] == 'F' && "F10"@[1] == '1' && "F10"@[2] == '0');
    assert("F11"@.len() == 3 && "F11"@[0] == 'F' && "F11"@[1] == '1' && "F11"@[2] == '1');
    assert("F12"@.len() == 3 && "F12"@[0] == 'F' && "F12"@[1] == '1' && "F12"@[2] == '2');
}

/// On Windows a key without a name and without a modifier is sent as it is.
pub proof fn windows_keys_are_sent_as_they_are(key: Seq<char>)
    requires
        forall|i: int| 0 <= i < key.len() ==> #[trigger] key[i] != '+',
        key != "ENTER"@ && key != "ESC"@ && key != "ESCAPE"@ && key != "TAB"@ && key != "BACKSPACE"@,
        key != "DELETE"@ && key != "ARROWLEFT"@ && key != "ARROWRIGHT"@ && key != "ARROWUP"@,
        key != "ARROWDOWN"@,
    ensures
        windows_keys(key) == key,
{
    reveal_strlit("CTRL+");
    reveal_strlit("ALT+");
    reveal_strlit("SHIFT+");
    not_found(key, "CTRL+"@, -1);
    not_found(key, "ALT+"@, -1);
    not_found(key, "SHIFT+"@, -1);
}

} // verus!
