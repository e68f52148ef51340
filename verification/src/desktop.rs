//! Decisions of the desktop shell: which services are started and how, what is
//! waited for, and what the window shows.

use vstd::prelude::*;
use vstd::string::*;
use vstd::utf8::encode_utf8;

use crate::text::{
    after_prefix, begins_with, chars_of, decimal, decimal_text, ends_with, find, find_in,
    finishes_with, is_space_char, join, same_text, space_class, starts_with, text_of, texts, trim,
    trim_left, trimmed,
};

pub mod laws;

verus! {

/// The gateway that is shown where no services come with the shell.
pub const DEFAULT_GATEWAY: &'static str = "http://127.0.0.1:7740";

/// The port that the gateway gets where it is free.
pub const PREFERRED_PORT: u16 = 7740;

/// How long the shell waits for a service, in seconds.
pub const BOOT_TIMEOUT_SECS: u64 = 30;

/// How long a service gets to stop by itself, in seconds.
pub const STOP_GRACE_SECS: u64 = 10;

pub const STARTUP_CANCELLED: &'static str = "startup cancelled";

pub const SERVICES_MISSING: &'static str = "embedded services missing from the app bundle — reinstall the app";

pub const DAEMON_EXITED: &'static str = "agentd exited during startup — see logs/agentd.log in the app data dir";

// ---------------------------------------------------------------------------
// Texts for URLs
// ---------------------------------------------------------------------------

/// Whether a byte stands for itself in a URL.
pub open spec fn is_unreserved(b: u8) -> bool {
    ||| 65 <= b <= 90
    ||| 97 <= b <= 122
    ||| 48 <= b <= 57
    ||| b == 45
    ||| b == 95
    ||| b == 46
    ||| b == 126
}

/// The upper-case hexadecimal digit `d`.
pub open spec fn hex_upper(d: u8) -> char {
    if d < 10 {
        (48 + d) as u8 as char
    } else {
        (55 + d) as u8 as char
    }
}

/// A byte as it stands in a URL.
pub open spec fn escaped_byte(b: u8) -> Seq<char> {
    if is_unreserved(b) {
        seq![b as char]
    } else {
        seq!['%', hex_upper(b / 16), hex_upper(b % 16)]
    }
}

/// Bytes as they stand in a URL.
pub open spec fn escaped(bytes: Seq<u8>) -> Seq<char>
    decreases bytes.len(),
{
    if bytes.len() == 0 {
        Seq::empty()
    } else {
        escaped(bytes.drop_last()) + escaped_byte(bytes.last())
    }
}

fn hex_upper_char(d: u8) -> (r: char)
    requires
        d < 16,
    ensures
        r == hex_upper(d),
{
    if d < 10 {
        (48 + d) as char
    } else {
        (55 + d) as char
    }
}

/// A text as it stands in a URL, by its UTF-8 bytes.
pub fn urlencode(s: &str) -> (r: String)
    ensures
        r@ == escaped(encode_utf8(s@)),
{
    let bytes = s.as_bytes();
    let mut out = String::new();
    let mut i: usize = 0;
    assert(bytes@.take(0) =~= Seq::empty());
    while i < bytes.len()
        invariant
            i <= bytes.len(),
            out@ == escaped(bytes@.take(i as int)),
        decreases bytes.len() - i,
    {
        let b: u8 = bytes[i];
        assert(bytes@.take(i + 1).drop_last() =~= bytes@.take(i as int));
        let ghost before = out@;
        if (65 <= b && b <= 90) || (97 <= b && b <= 122) || (48 <= b && b <= 57) || b == 45 || b == 95
            || b == 46 || b == 126 {
            out.push(b as char);
        } else {
            out.push('%');
            out.push(hex_upper_char(b / 16));
            out.push(hex_upper_char(b % 16));
        }
        assert(out@ =~= before + escaped_byte(b));
        i += 1;
    }
    assert(bytes@.take(bytes.len() as int) =~= bytes@);
    out
}

/// Whether a character may stand in an escaped text.
pub open spec fn is_url_char(c: char) -> bool {
    c == '%' || (c as u32) < 128 && is_unreserved(c as u8)
}

/// An escaped text holds no character that has a meaning of its own in a URL.
pub proof fn escaped_texts_are_plain(bytes: Seq<u8>, i: int)
    requires
        0 <= i < escaped(bytes).len(),
    ensures
        is_url_char(escaped(bytes)[i]),
    decreases bytes.len(),
{
    let front = escaped(bytes.drop_last());
    if i < front.len() {
        escaped_texts_are_plain(bytes.drop_last(), i);
    } else {
        let tail = escaped_byte(bytes.last());
        assert(escaped(bytes)[i] == tail[i - front.len()]);
    }
}

/// The page that tells of a failure.
pub fn error_page(origin: &str, message: &str) -> (r: String)
    ensures
        r@ == origin@ + "/error.html?msg="@ + escaped(encode_utf8(message@)),
{
    let mut out = origin.to_owned();
    out.append("/error.html?msg=");
    out.append(urlencode(message).as_str());
    out
}

// ---------------------------------------------------------------------------
// Settings and files
// ---------------------------------------------------------------------------

/// A setting, unless it is blank.
pub open spec fn set_value(value: Option<&str>) -> Option<Seq<char>> {
    match value {
        Some(v) => if trimmed(v@).len() == 0 {
            None
        } else {
            Some(v@)
        },
        None => None,
    }
}

/// A setting, unless it is blank.
pub fn setting(value: Option<&str>) -> (r: Option<String>)
    ensures
        match r {
            Some(v) => set_value(value) == Some(v@),
            None => set_value(value) is None,
        },
{
    match value {
        Some(v) => if trim(v).as_str().unicode_len() == 0 {
            None
        } else {
            Some(v.to_owned())
        },
        None => None,
    }
}

/// The name of the configuration: the one that is set, or the one for a real model
/// where there is a key for it, or else the default.
pub fn config_name(config: Option<&str>, api_key: Option<&str>) -> (r: String)
    ensures
        r@ == (match set_value(config) {
            Some(name) => name,
            None => if set_value(api_key) is Some {
                "openrouter.yaml"@
            } else {
                "default.yaml"@
            },
        }),
{
    match setting(config) {
        Some(name) => name,
        None => if setting(api_key).is_some() {
            "openrouter.yaml".to_owned()
        } else {
            "default.yaml".to_owned()
        },
    }
}

/// The name of a file without the suffix ".exe".
pub open spec fn stem(file: Seq<char>) -> Seq<char> {
    if finishes_with(file, ".exe"@) {
        file.take(file.len() - ".exe"@.len())
    } else {
        file
    }
}

/// Whether a file next to the shell is the service `name`, alone or for a platform.
pub open spec fn is_service(file: Seq<char>, name: Seq<char>) -> bool {
    stem(file) == name || begins_with(stem(file), name + "-"@)
}

/// Whether a file next to the shell is the service `name`.
pub fn is_sidecar(file: &str, name: &str) -> (r: bool)
    ensures
        r == is_service(file@, name@),
{
    let cs = chars_of(file);
    let base = if ends_with(file, ".exe") {
        let n: usize = ".exe".unicode_len();
        assert(cs@.subrange(0, cs.len() - n) =~= file@.take(file@.len() - n));
        text_of(&cs, 0, cs.len() - n)
    } else {
        file.to_owned()
    };
    same_text(base.as_str(), name) || starts_with(base.as_str(), join(name, "-").as_str())
}

/// The file that a manifest names as its entry point: the text between quotes
/// behind the first "entrypoint" and the colon that follows it.
pub open spec fn entrypoint(manifest: Seq<char>) -> Option<Seq<char>> {
    let key = "\"entrypoint\""@;
    match find(manifest, key) {
        None => None,
        Some(at) => {
            let after = manifest.skip(at + key.len());
            match find(after, ":"@) {
                None => None,
                Some(colon) => {
                    let rest = trim_left(after.skip(colon + 1), space_class());
                    match after_prefix(rest, "\""@) {
                        None => None,
                        Some(value) => match find(value, "\""@) {
                            None => None,
                            Some(end) => Some(value.take(end)),
                        },
                    }
                },
            }
        },
    }
}

fn skip_spaces(cs: &Vec<char>, from: usize) -> (r: usize)
    requires
        from <= cs.len(),
    ensures
        from <= r <= cs.len(),
        trim_left(cs@.skip(from as int), space_class()) == cs@.skip(r as int),
{
    let mut i: usize = from;
    while i < cs.len() && is_space_char(cs[i])
        invariant
            from <= i <= cs.len(),
            trim_left(cs@.skip(from as int), space_class()) == trim_left(
                cs@.skip(i as int),
                space_class(),
            ),
        ensures
            from <= i <= cs.len(),
            trim_left(cs@.skip(from as int), space_class()) == cs@.skip(i as int),
        decreases cs.len() - i,
    {
        assert(cs@.skip(i as int).skip(1) =~= cs@.skip(i + 1));
        i += 1;
    }
    i
}

fn find_rest(cs: &Vec<char>, p: &str, from: usize) -> (r: Option<usize>)
    requires
        from <= cs.len(),
    ensures
        match r {
            Some(i) => from <= i && i + p@.len() <= cs.len() && find(cs@.skip(from as int), p@)
                == Some(i - from),
            None => find(cs@.skip(from as int), p@) is None,
        },
{
    let rest = text_of(cs, from, cs.len());
    let rs = chars_of(rest.as_str());
    assert(rs@ =~= cs@.skip(from as int));
    match find_in(&rs, &chars_of(p), 0) {
        Some(i) => Some(from + i),
        None => None,
    }
}

/// The file that a manifest names as its entry point.
pub fn entrypoint_of(manifest: &str) -> (r: Option<String>)
    ensures
        match r {
            Some(name) => entrypoint(manifest@) == Some(name@),
            None => entrypoint(manifest@) is None,
        },
{
    let cs = chars_of(manifest);
    proof {
        reveal_strlit(":");
        reveal_strlit("\"");
        assert(cs@.skip(0) =~= manifest@);
    }
    let key: usize = "\"entrypoint\"".unicode_len();
    let after: usize = match find_rest(&cs, "\"entrypoint\"", 0) {
        Some(at) => at + key,
        None => return None,
    };
    let colon: usize = match find_rest(&cs, ":", after) {
        Some(i) => i,
        None => return None,
    };
    assert(cs@.skip(after as int).skip(colon - after + 1) =~= cs@.skip(colon + 1));
    let open: usize = skip_spaces(&cs, colon + 1);
    if open == cs.len() || cs[open] != '"' {
        proof {
            let rest = cs@.skip(open as int);
            if begins_with(rest, "\""@) {
                assert(rest.subrange(0, 1)[0] == '"');
            }
        }
        return None;
    }
    assert(cs@.skip(open as int).subrange(0, 1) =~= "\""@);
    assert(cs@.skip(open as int).skip(1) =~= cs@.skip(open + 1));
    let end: usize = match find_rest(&cs, "\"", open + 1) {
        Some(i) => i,
        None => return None,
    };
    assert(cs@.subrange(open + 1, end as int) =~= cs@.skip(open + 1).take(end - open - 1));
    Some(text_of(&cs, open + 1, end))
}

// ---------------------------------------------------------------------------
// Starting the services
// ---------------------------------------------------------------------------

/// How the shell starts.
#[derive(Debug)]
pub enum Boot {
    /// The services are started.
    Start,
    /// A gateway elsewhere is shown.
    Remote { url: String },
    /// The start fails.
    Fail { message: String },
}

/// The value of a [`Boot`].
#[verifier::ext_equal]
pub enum BootView {
    Start,
    Remote { url: Seq<char> },
    Fail { message: Seq<char> },
}

impl View for Boot {
    type V = BootView;

    open spec fn view(&self) -> BootView {
        match self {
            Boot::Start => BootView::Start,
            Boot::Remote { url } => BootView::Remote { url: url@ },
            Boot::Fail { message } => BootView::Fail { message: message@ },
        }
    }
}

/// How the shell starts: with both services and their runtime it starts them, and
/// without services and runtime it shows a gateway elsewhere.
pub open spec fn boot(services: bool, packaged: bool, staged: Seq<char>) -> BootView {
    if services && packaged {
        BootView::Start
    } else if packaged {
        BootView::Fail { message: SERVICES_MISSING@ }
    } else if services {
        BootView::Fail { message: "embedded runtime not staged (missing "@ + staged + ")"@ }
    } else {
        BootView::Remote { url: DEFAULT_GATEWAY@ }
    }
}

/// How the shell starts, `staged` being where the runtime would be.
pub fn choose_boot(has_agentd: bool, has_agentgw: bool, packaged: bool, staged: &str) -> (r: Boot)
    ensures
        r@ == boot(has_agentd && has_agentgw, packaged, staged@),
{
    if !(has_agentd && has_agentgw) {
        if packaged {
            return Boot::Fail { message: SERVICES_MISSING.to_owned() };
        }
        return Boot::Remote { url: DEFAULT_GATEWAY.to_owned() };
    }
    if !packaged {
        let mut message = "embedded runtime not staged (missing ".to_owned();
        message.append(staged);
        message.append(")");
        return Boot::Fail { message };
    }
    Boot::Start
}

/// The arguments that name the bundles of adapters.
pub open spec fn bundle_args(bundles: Seq<Seq<char>>) -> Seq<Seq<char>>
    decreases bundles.len(),
{
    if bundles.len() == 0 {
        Seq::empty()
    } else {
        bundle_args(bundles.drop_last()).push("--adapter-bundle"@).push(bundles.last())
    }
}

/// The arguments of the daemon.
pub open spec fn daemon_arguments(runtime_dir: Seq<char>, config: Seq<char>, bundles: Seq<Seq<char>>) -> Seq<Seq<char>> {
    seq!["--runtime-dir"@, runtime_dir, "--config"@, config] + bundle_args(bundles)
}

fn push_arg(args: &mut Vec<String>, arg: &str)
    ensures
        texts(final(args)@) == texts(old(args)@).push(arg@),
{
    let arg = arg.to_owned();
    assert(texts(args@.push(arg)) =~= texts(args@).push(arg@));
    args.push(arg);
}

/// The arguments of the daemon.
pub fn agentd_args(runtime_dir: &str, config: &str, bundles: &Vec<String>) -> (r: Vec<String>)
    ensures
        texts(r@) == daemon_arguments(runtime_dir@, config@, texts(bundles@)),
{
    let mut args: Vec<String> = Vec::new();
    push_arg(&mut args, "--runtime-dir");
    push_arg(&mut args, runtime_dir);
    push_arg(&mut args, "--config");
    push_arg(&mut args, config);
    let ghost head = seq!["--runtime-dir"@, runtime_dir@, "--config"@, config@];
    let ghost views = texts(bundles@);
    assert(texts(args@) =~= head + bundle_args(views.take(0)));
    let mut i: usize = 0;
    while i < bundles.len()
        invariant
            i <= bundles.len(),
            views == texts(bundles@),
            texts(args@) == head + bundle_args(views.take(i as int)),
        decreases bundles.len() - i,
    {
        assert(views.take(i + 1).drop_last() =~= views.take(i as int));
        assert(views.take(i + 1).last() == bundles@[i as int]@);
        assert((head + bundle_args(views.take(i as int))).push("--adapter-bundle"@).push(
            bundles@[i as int]@,
        ) =~= head + bundle_args(views.take(i + 1)));
        push_arg(&mut args, "--adapter-bundle");
        push_arg(&mut args, bundles[i].as_str());
        i += 1;
    }
    assert(views.take(bundles.len() as int) =~= views);
    args
}

/// The address of a port of this machine.
pub open spec fn local_address(port: u16) -> Seq<char> {
    "127.0.0.1:"@ + decimal(port as nat)
}

/// The arguments of the gateway.
pub fn agentgw_args(socket: &str, port: u16) -> (r: Vec<String>)
    ensures
        texts(r@) == seq!["--socket"@, socket@, "--listen"@, local_address(port)],
{
    let address = join("127.0.0.1:", decimal_text(port as u64).as_str());
    let mut args: Vec<String> = Vec::new();
    push_arg(&mut args, "--socket");
    push_arg(&mut args, socket);
    push_arg(&mut args, "--listen");
    push_arg(&mut args, address.as_str());
    assert(texts(args@) =~= seq!["--socket"@, socket@, "--listen"@, local_address(port)]);
    args
}

/// The URL of the gateway.
pub fn gateway_url(port: u16) -> (r: String)
    ensures
        r@ == "http://"@ + local_address(port) + "/"@,
{
    let address = join("127.0.0.1:", decimal_text(port as u64).as_str());
    join(join("http://", address.as_str()).as_str(), "/")
}

/// The port of the gateway: the preferred one where it could be had, or else the
/// one that the system gave, if it gave one.
pub fn choose_port(preferred: Option<u16>, given: Option<u16>) -> (r: u16)
    ensures
        r == (match (preferred, given) {
            (Some(p), _) => p,
            (None, Some(p)) => p,
            (None, None) => PREFERRED_PORT,
        }),
{
    match preferred {
        Some(p) => p,
        None => match given {
            Some(p) => p,
            None => PREFERRED_PORT,
        },
    }
}

// ---------------------------------------------------------------------------
// Waiting
// ---------------------------------------------------------------------------

/// What a poll leads to.
#[derive(Debug)]
pub enum Poll {
    Ready,
    Again,
    Fail { message: String },
}

/// The value of a [`Poll`].
#[verifier::ext_equal]
pub enum PollView {
    Ready,
    Again,
    Fail { message: Seq<char> },
}

impl View for Poll {
    type V = PollView;

    open spec fn view(&self) -> PollView {
        match self {
            Poll::Ready => PollView::Ready,
            Poll::Again => PollView::Again,
            Poll::Fail { message } => PollView::Fail { message: message@ },
        }
    }
}

/// What a poll for the daemon leads to.
pub open spec fn daemon_poll_result(late: bool, cancelled: bool, exited: bool, ready: bool, socket: Seq<char>) -> PollView {
    if late {
        PollView::Fail { message: "daemon did not create "@ + socket + DAEMON_LATE@ }
    } else if cancelled {
        PollView::Fail { message: STARTUP_CANCELLED@ }
    } else if exited {
        PollView::Fail { message: DAEMON_EXITED@ }
    } else if ready {
        PollView::Ready
    } else {
        PollView::Again
    }
}

pub const DAEMON_LATE: &'static str = " within 30s — see logs/agentd.log in the app data dir";

pub const GATEWAY_LATE: &'static str = " within 30s — see logs/agentgw.log in the app data dir";

/// What a poll for the daemon leads to.
pub fn daemon_poll(late: bool, cancelled: bool, exited: bool, ready: bool, socket: &str) -> (r: Poll)
    ensures
        r@ == daemon_poll_result(late, cancelled, exited, ready, socket@),
{
    if late {
        let mut message = "daemon did not create ".to_owned();
        message.append(socket);
        message.append(DAEMON_LATE);
        Poll::Fail { message }
    } else if cancelled {
        Poll::Fail { message: STARTUP_CANCELLED.to_owned() }
    } else if exited {
        Poll::Fail { message: DAEMON_EXITED.to_owned() }
    } else if ready {
        Poll::Ready
    } else {
        Poll::Again
    }
}

/// What a poll for the gateway leads to.
pub open spec fn gateway_poll_result(late: bool, cancelled: bool, connected: bool, port: u16) -> PollView {
    if late {
        PollView::Fail {
            message: "gateway did not open port "@ + decimal(port as nat) + GATEWAY_LATE@,
        }
    } else if cancelled {
        PollView::Fail { message: STARTUP_CANCELLED@ }
    } else if connected {
        PollView::Ready
    } else {
        PollView::Again
    }
}

/// What a poll for the gateway leads to.
pub fn gateway_poll(late: bool, cancelled: bool, connected: bool, port: u16) -> (r: Poll)
    ensures
        r@ == gateway_poll_result(late, cancelled, connected, port),
{
    if late {
        let mut message = "gateway did not open port ".to_owned();
        message.append(decimal_text(port as u64).as_str());
        message.append(GATEWAY_LATE);
        Poll::Fail { message }
    } else if cancelled {
        Poll::Fail { message: STARTUP_CANCELLED.to_owned() }
    } else if connected {
        Poll::Ready
    } else {
        Poll::Again
    }
}

/// What is done next with a service that is to stop.
#[derive(Clone, Copy, Debug, PartialEq, Eq, Structural)]
pub enum StopStep {
    /// It has ended.
    Done,
    /// It is asked to stop.
    Ask,
    /// It is given time.
    Wait,
    /// It is killed.
    Kill,
}

/// What is done next with a service that is to stop: it is asked once, given time,
/// and killed when the time is over.
pub fn stop_step(running: bool, asked: bool, late: bool) -> (r: StopStep)
    ensures
        r == (if !running {
            StopStep::Done
        } else if !asked {
            StopStep::Ask
        } else if late {
            StopStep::Kill
        } else {
            StopStep::Wait
        }),
{
    if !running {
        StopStep::Done
    } else if !asked {
        StopStep::Ask
    } else if late {
        StopStep::Kill
    } else {
        StopStep::Wait
    }
}

// ---------------------------------------------------------------------------
// The course of a start
// ---------------------------------------------------------------------------

/// What has happened in the course of a start.
#[derive(Debug)]
pub enum BootEvent {
    /// It is known which services and whether the runtime come with the shell, `staged`
    /// being where the runtime would be.
    Located { has_agentd: bool, has_agentgw: bool, packaged: bool, staged: String },
    /// The runtime was copied to where the services run.
    Staged(Result<(), String>),
    /// It is known whether a daemon answers already.
    Probed { ready: bool },
    /// The daemon was launched.
    DaemonLaunched(Result<(), String>),
    /// The daemon that was launched was looked at.
    DaemonSeen { late: bool, cancelled: bool, exited: bool, ready: bool, socket: String },
    /// It is known whether the start was called off.
    Checked { cancelled: bool },
    /// The gateway was launched on a port.
    GatewayLaunched(Result<u16, String>),
    /// The gateway that was launched was looked at.
    GatewaySeen { late: bool, cancelled: bool, connected: bool, port: u16 },
}

/// The value of a [`BootEvent`].
pub enum BootEventView {
    Located { has_agentd: bool, has_agentgw: bool, packaged: bool, staged: Seq<char> },
    Staged(Result<(), Seq<char>>),
    Probed { ready: bool },
    DaemonLaunched(Result<(), Seq<char>>),
    DaemonSeen { late: bool, cancelled: bool, exited: bool, ready: bool, socket: Seq<char> },
    Checked { cancelled: bool },
    GatewayLaunched(Result<u16, Seq<char>>),
    GatewaySeen { late: bool, cancelled: bool, connected: bool, port: u16 },
}

impl View for BootEvent {
    type V = BootEventView;

    open spec fn view(&self) -> BootEventView {
        match self {
            BootEvent::Located { has_agentd, has_agentgw, packaged, staged } => BootEventView::Located {
                has_agentd: *has_agentd,
                has_agentgw: *has_agentgw,
                packaged: *packaged,
                staged: staged@,
            },
            BootEvent::Staged(Ok(())) => BootEventView::Staged(Ok(())),
            BootEvent::Staged(Err(e)) => BootEventView::Staged(Err(e@)),
            BootEvent::Probed { ready } => BootEventView::Probed { ready: *ready },
            BootEvent::DaemonLaunched(Ok(())) => BootEventView::DaemonLaunched(Ok(())),
            BootEvent::DaemonLaunched(Err(e)) => BootEventView::DaemonLaunched(Err(e@)),
            BootEvent::DaemonSeen { late, cancelled, exited, ready, socket } => BootEventView::DaemonSeen {
                late: *late,
                cancelled: *cancelled,
                exited: *exited,
                ready: *ready,
                socket: socket@,
            },
            BootEvent::Checked { cancelled } => BootEventView::Checked { cancelled: *cancelled },
            BootEvent::GatewayLaunched(Ok(port)) => BootEventView::GatewayLaunched(Ok(*port)),
            BootEvent::GatewayLaunched(Err(e)) => BootEventView::GatewayLaunched(Err(e@)),
            BootEvent::GatewaySeen { late, cancelled, connected, port } => BootEventView::GatewaySeen {
                late: *late,
                cancelled: *cancelled,
                connected: *connected,
                port: *port,
            },
        }
    }
}

/// What a start does next.
#[derive(Debug)]
pub enum BootAction {
    /// The runtime is copied to where the services run.
    Stage,
    /// It is found out whether a daemon answers already.
    Probe,
    /// The daemon is launched.
    LaunchDaemon,
    /// The daemon is looked at, after a pause where this is not the first time.
    WatchDaemon,
    /// It is found out whether the start was called off.
    Check,
    /// The gateway is launched.
    LaunchGateway,
    /// The gateway is looked at, after a pause where this is not the first time.
    WatchGateway { port: u16 },
    /// The window shows a gateway, or tells what went wrong.
    Done(Result<String, String>),
}

/// The value of a [`BootAction`].
pub enum BootActionView {
    Stage,
    Probe,
    LaunchDaemon,
    WatchDaemon,
    Check,
    LaunchGateway,
    WatchGateway { port: u16 },
    Done(Result<Seq<char>, Seq<char>>),
}

impl View for BootAction {
    type V = BootActionView;

    open spec fn view(&self) -> BootActionView {
        match self {
            BootAction::Stage => BootActionView::Stage,
            BootAction::Probe => BootActionView::Probe,
            BootAction::LaunchDaemon => BootActionView::LaunchDaemon,
            BootAction::WatchDaemon => BootActionView::WatchDaemon,
            BootAction::Check => BootActionView::Check,
            BootAction::LaunchGateway => BootActionView::LaunchGateway,
            BootAction::WatchGateway { port } => BootActionView::WatchGateway { port: *port },
            BootAction::Done(Ok(url)) => BootActionView::Done(Ok(url@)),
            BootAction::Done(Err(e)) => BootActionView::Done(Err(e@)),
        }
    }
}

/// What a start does next. A daemon that answers already is not launched again, and the
/// gateway is launched when a daemon answers.
pub open spec fn boot_step(event: BootEventView) -> BootActionView {
    match event {
        BootEventView::Located { has_agentd, has_agentgw, packaged, staged } => match boot(
            has_agentd && has_agentgw,
            packaged,
            staged,
        ) {
            BootView::Start => BootActionView::Stage,
            BootView::Remote { url } => BootActionView::Done(Ok(url)),
            BootView::Fail { message } => BootActionView::Done(Err(message)),
        },
        BootEventView::Staged(Ok(())) => BootActionView::Probe,
        BootEventView::Staged(Err(e)) => BootActionView::Done(Err(e)),
        BootEventView::Probed { ready } => if ready {
            BootActionView::Check
        } else {
            BootActionView::LaunchDaemon
        },
        BootEventView::DaemonLaunched(Ok(())) => BootActionView::WatchDaemon,
        BootEventView::DaemonLaunched(Err(e)) => BootActionView::Done(Err(e)),
        BootEventView::DaemonSeen { late, cancelled, exited, ready, socket } => match daemon_poll_result(
            late,
            cancelled,
            exited,
            ready,
            socket,
        ) {
            PollView::Ready => BootActionView::Check,
            PollView::Again => BootActionView::WatchDaemon,
            PollView::Fail { message } => BootActionView::Done(Err(message)),
        },
        BootEventView::Checked { cancelled } => if cancelled {
            BootActionView::Done(Err(STARTUP_CANCELLED@))
        } else {
            BootActionView::LaunchGateway
        },
        BootEventView::GatewayLaunched(Ok(port)) => BootActionView::WatchGateway { port },
        BootEventView::GatewayLaunched(Err(e)) => BootActionView::Done(Err(e)),
        BootEventView::GatewaySeen { late, cancelled, connected, port } => match gateway_poll_result(
            late,
            cancelled,
            connected,
            port,
        ) {
            PollView::Ready => BootActionView::Done(Ok("http://"@ + local_address(port) + "/"@)),
            PollView::Again => BootActionView::WatchGateway { port },
            PollView::Fail { message } => BootActionView::Done(Err(message)),
        },
    }
}

/// What a start does next.
pub fn bootstrap(event: BootEvent) -> (r: BootAction)
    ensures
        r@ == boot_step(event@),
{
    match event {
        BootEvent::Located { has_agentd, has_agentgw, packaged, staged } => match choose_boot(
            has_agentd,
            has_agentgw,
            packaged,
            staged.as_str(),
        ) {
            Boot::Start => BootAction::Stage,
            Boot::Remote { url } => BootAction::Done(Ok(url)),
            Boot::Fail { message } => BootAction::Done(Err(message)),
        },
        BootEvent::Staged(Ok(())) => BootAction::Probe,
        BootEvent::Staged(Err(e)) => BootAction::Done(Err(e)),
        BootEvent::Probed { ready } => if ready {
            BootAction::Check
        } else {
            BootAction::LaunchDaemon
        },
        BootEvent::DaemonLaunched(Ok(())) => BootAction::WatchDaemon,
        BootEvent::DaemonLaunched(Err(e)) => BootAction::Done(Err(e)),
        BootEvent::DaemonSeen { late, cancelled, exited, ready, socket } => match daemon_poll(
            late,
            cancelled,
            exited,
            ready,
            socket.as_str(),
        ) {
            Poll::Ready => BootAction::Check,
            Poll::Again => BootAction::WatchDaemon,
            Poll::Fail { message } => BootAction::Done(Err(message)),
        },
        BootEvent::Checked { cancelled } => if cancelled {
            BootAction::Done(Err(STARTUP_CANCELLED.to_owned()))
        } else {
            BootAction::LaunchGateway
        },
        BootEvent::GatewayLaunched(Ok(port)) => BootAction::WatchGateway { port },
        BootEvent::GatewayLaunched(Err(e)) => BootAction::Done(Err(e)),
        BootEvent::GatewaySeen { late, cancelled, connected, port } => match gateway_poll(
            late,
            cancelled,
            connected,
            port,
        ) {
            Poll::Ready => BootAction::Done(Ok(gateway_url(port))),
            Poll::Again => BootAction::WatchGateway { port },
            Poll::Fail { message } => BootAction::Done(Err(message)),
        },
    }
}

/// The window shows a gateway only where it answered in time, or where nothing comes with
/// the shell and the default one is shown.
pub proof fn shown_gateways_answer(event: BootEventView, url: Seq<char>)
    requires
        boot_step(event) == BootActionView::Done(Ok(url)),
    ensures
        (event matches BootEventView::GatewaySeen { late, cancelled, connected, port } && !late
            && !cancelled && connected && url == "http://"@ + local_address(port) + "/"@) || (
        event matches BootEventView::Located { has_agentd, has_agentgw, packaged, staged } && !(
        has_agentd && has_agentgw) && !packaged && url == DEFAULT_GATEWAY@),
{
}

/// A start that was called off launches nothing more.
pub proof fn cancelled_starts_launch_nothing(event: BootEventView)
    requires
        event matches BootEventView::DaemonSeen { cancelled: true, .. } || event
            matches BootEventView::Checked { cancelled: true } || event
            matches BootEventView::GatewaySeen { cancelled: true, .. },
    ensures
        boot_step(event) is Done,
        boot_step(event)->Done_0 is Err,
{
}

} // verus!
