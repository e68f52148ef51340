//! What the desktop shell does from its start to the window that it shows.

use vstd::prelude::*;

use crate::desktop::{
    boot_step, bundle_args, daemon_arguments, entrypoint, escaped, is_service, set_value, stem,
    BootActionView, BootEventView, DAEMON_EXITED, DAEMON_LATE, GATEWAY_LATE, SERVICES_MISSING,
    STARTUP_CANCELLED,
};
use crate::text::{decimal, find, find_is_first, finishes_with, is_space, occurs_at, trimmed};
use crate::text::laws::first_places_are_found;

verus! {

/// The shell starts its services where both are there with their runtime, shows the gateway of
/// this machine where nothing is there, and else tells what is missing.
pub proof fn starts_need_all_parts(
    has_agentd: bool,
    has_agentgw: bool,
    packaged: bool,
    staged: Seq<char>,
)
    ensures
        ({
            let next = boot_step(BootEventView::Located { has_agentd, has_agentgw, packaged, staged });
            let both = has_agentd && has_agentgw;
            &&& both && packaged <==> next == BootActionView::Stage
            &&& !both && !packaged ==> next == BootActionView::Done(Ok("http://127.0.0.1:7740"@))
            &&& !both && packaged ==> next == BootActionView::Done(Err(SERVICES_MISSING@))
            &&& both && !packaged ==> next == BootActionView::Done(
                Err("embedded runtime not staged (missing "@ + staged + ")"@),
            )
        }),
{
}

/// A start goes on step by step: what is staged is probed, a daemon that answers is not launched
/// again, one that does not is launched and watched, and the gateway is launched behind it unless
/// the start was called off, and then watched at its port.
pub proof fn starts_go_step_by_step(e: Seq<char>, port: u16)
    ensures
        boot_step(BootEventView::Staged(Ok(()))) == BootActionView::Probe,
        boot_step(BootEventView::Staged(Err(e))) == BootActionView::Done(Err(e)),
        boot_step(BootEventView::Probed { ready: true }) == BootActionView::Check,
        boot_step(BootEventView::Probed { ready: false }) == BootActionView::LaunchDaemon,
        boot_step(BootEventView::DaemonLaunched(Ok(()))) == BootActionView::WatchDaemon,
        boot_step(BootEventView::DaemonLaunched(Err(e))) == BootActionView::Done(Err(e)),
        boot_step(BootEventView::Checked { cancelled: false }) == BootActionView::LaunchGateway,
        boot_step(BootEventView::Checked { cancelled: true }) == BootActionView::Done(
            Err(STARTUP_CANCELLED@),
        ),
        boot_step(BootEventView::GatewayLaunched(Ok(port))) == (BootActionView::WatchGateway { port }),
        boot_step(BootEventView::GatewayLaunched(Err(e))) == BootActionView::Done(Err(e)),
{
}

/// A daemon that is watched is waited for until it answers, and given up where its time is over,
/// the start was called off, or it has ended, in this order.
pub proof fn daemons_are_waited_for(
    late: bool,
    cancelled: bool,
    exited: bool,
    ready: bool,
    socket: Seq<char>,
)
    ensures
        ({
            let next = boot_step(BootEventView::DaemonSeen { late, cancelled, exited, ready, socket });
            &&& late ==> next == BootActionView::Done(Err("daemon did not create "@ + socket + DAEMON_LATE@))
            &&& !late && cancelled ==> next == BootActionView::Done(Err(STARTUP_CANCELLED@))
            &&& !late && !cancelled && exited ==> next == BootActionView::Done(Err(DAEMON_EXITED@))
            &&& !late && !cancelled && !exited && ready ==> next == BootActionView::Check
            &&& !late && !cancelled && !exited && !ready ==> next == BootActionView::WatchDaemon
        }),
{
}

/// A gateway that is watched is waited for until it can be reached, and then its own address is
/// shown; it is given up where its time is over or the start was called off.
pub proof fn gateways_are_waited_for(late: bool, cancelled: bool, connected: bool, port: u16)
    ensures
        ({
            let next = boot_step(BootEventView::GatewaySeen { late, cancelled, connected, port });
            &&& late ==> next == BootActionView::Done(
                Err("gateway did not open port "@ + decimal(port as nat) + GATEWAY_LATE@),
            )
            &&& !late && cancelled ==> next == BootActionView::Done(Err(STARTUP_CANCELLED@))
            &&& !late && !cancelled && connected ==> next == BootActionView::Done(
                Ok("http://127.0.0.1:"@ + decimal(port as nat) + "/"@),
            )
            &&& !late && !cancelled && !connected ==> next == (BootActionView::WatchGateway { port })
        }),
{
    reveal_strlit("http://127.0.0.1:");
    reveal_strlit("http://");
    reveal_strlit("127.0.0.1:");
    assert("http://"@ + ("127.0.0.1:"@ + decimal(port as nat)) + "/"@ =~= "http://127.0.0.1:"@ + decimal(
        port as nat,
    ) + "/"@);
}

/// The daemon is told its runtime directory and its configuration, and then every bundle, in their
/// order, each behind its own option.
pub proof fn daemons_are_told_every_bundle(dir: Seq<char>, config: Seq<char>, bundles: Seq<Seq<char>>, i: int)
    requires
        0 <= i < bundles.len(),
    ensures
        daemon_arguments(dir, config, bundles).len() == 4 + 2 * bundles.len(),
        daemon_arguments(dir, config, bundles)[0] == "--runtime-dir"@,
        daemon_arguments(dir, config, bundles)[1] == dir,
        daemon_arguments(dir, config, bundles)[2] == "--config"@,
        daemon_arguments(dir, config, bundles)[3] == config,
        daemon_arguments(dir, config, bundles)[4 + 2 * i] == "--adapter-bundle"@,
        daemon_arguments(dir, config, bundles)[5 + 2 * i] == bundles[i],
{
    bundles_at(bundles, i);
}

proof fn bundles_at(bundles: Seq<Seq<char>>, i: int)
    requires
        0 <= i < bundles.len(),
    ensures
        bundle_args(bundles).len() == 2 * bundles.len(),
        bundle_args(bundles)[2 * i] == "--adapter-bundle"@,
        bundle_args(bundles)[2 * i + 1] == bundles[i],
    decreases bundles.len(),
{
    let front = bundles.drop_last();
    if front.len() > 0 {
        bundles_at(front, if i < front.len() { i } else { 0 });
    } else {
        assert(bundle_args(front) =~= Seq::empty());
    }
    assert(bundle_args(bundles) == bundle_args(front).push("--adapter-bundle"@).push(bundles.last()));
}

/// A file is a service where it has the service's name, alone or with a dash behind it, whether it
/// ends in ".exe" or not.
pub proof fn services_are_known_by_name(name: Seq<char>, rest: Seq<char>)
    requires
        !finishes_with(name, ".exe"@),
        !finishes_with(name + "-"@ + rest, ".exe"@),
    ensures
        is_service(name, name),
        is_service(name + ".exe"@, name),
        is_service(name + "-"@ + rest, name),
        is_service(name + "-"@ + rest + ".exe"@, name),
        stem(name + ".exe"@) == name,
        stem(name) == name,
{
    let long = name + "-"@ + rest;
    let suffixed = name + ".exe"@;
    let both = long + ".exe"@;
    assert(suffixed.skip(suffixed.len() - ".exe"@.len()) =~= ".exe"@);
    assert(suffixed.subrange(suffixed.len() - ".exe"@.len(), suffixed.len() as int) =~= ".exe"@);
    assert(both.subrange(both.len() - ".exe"@.len(), both.len() as int) =~= ".exe"@);
    assert(suffixed.take(suffixed.len() - ".exe"@.len()) =~= name);
    assert(both.take(both.len() - ".exe"@.len()) =~= long);
    assert(long.subrange(0, (name + "-"@).len() as int) =~= name + "-"@);
}

/// The entry point of a manifest is the text between the quotes behind its key and a colon,
/// whatever stands before and behind them.
pub proof fn entry_points_are_found(front: Seq<char>, file: Seq<char>, rest: Seq<char>)
    requires
        forall|i: int| 0 <= i < front.len() ==> #[trigger] front[i] != '"',
        forall|i: int| 0 <= i < file.len() ==> #[trigger] file[i] != '"',
    ensures
        entrypoint(front + "\"entrypoint\""@ + ":"@ + "\""@ + file + "\""@ + rest) == Some(file),
        entrypoint(front + "\"entrypoint\""@ + ":"@ + " "@ + "\""@ + file + "\""@ + rest) == Some(file),
        entrypoint(front) is None,
{
    reveal_strlit("\"entrypoint\"");
    reveal_strlit(":");
    reveal_strlit("\"");
    reveal_strlit(" ");
    let key = "\"entrypoint\""@;
    let tail = "\""@ + file + "\""@ + rest;
    let one = front + key + ":"@ + "\""@ + file + "\""@ + rest;
    let two = front + key + ":"@ + " "@ + "\""@ + file + "\""@ + rest;
    assert(one =~= front + key + (":"@ + tail));
    assert(two =~= front + key + (":"@ + (" "@ + tail)));
    key_is_found(front, key, ":"@ + tail);
    key_is_found(front, key, ":"@ + (" "@ + tail));
    colon_is_found(tail);
    colon_is_found(" "@ + tail);
    assert(tail[0] == '"');
    assert(!is_space('"'));
    assert(is_space(' '));
    assert((" "@ + tail)[0] == ' ');
    assert((" "@ + tail).skip(1) =~= tail);
    let class = crate::text::space_class();
    assert(class('"') == is_space('"'));
    assert(class(' ') == is_space(' '));
    assert(crate::text::trim_left(tail, class) == tail);
    assert(crate::text::trim_left(" "@ + tail, class) == crate::text::trim_left(tail, class));
    assert(tail.subrange(0, 1) =~= "\""@);
    let value = file + "\""@ + rest;
    assert(tail.skip(1) =~= value);
    find_is_first(value, "\""@, 0);
    assert(value.subrange(file.len() as int, (file.len() + 1) as int) =~= "\""@);
    assert(occurs_at(value, "\""@, file.len() as int));
    let at = find(value, "\""@)->0;
    assert(value.subrange(at, at + 1)[0] == value[at]);
    assert(at == file.len()) by {
        if at < file.len() {
            assert(value[at] == file[at]);
        }
    }
    assert(value.take(at) =~= file);
    find_is_first(front, key, 0);
    if find(front, key) is Some {
        let i = find(front, key)->0;
        assert(front.subrange(i, i + key.len())[0] == front[i]);
    }
}

proof fn key_is_found(front: Seq<char>, key: Seq<char>, rest: Seq<char>)
    requires
        key.len() > 0,
        key[0] == '"',
        forall|i: int| 0 <= i < front.len() ==> #[trigger] front[i] != '"',
    ensures
        find(front + key + rest, key) == Some(front.len() as int),
        (front + key + rest).skip((front.len() + key.len()) as int) == rest,
{
    let s = front + key + rest;
    let n = front.len() as int;
    assert(s.subrange(n, n + key.len()) =~= key);
    assert(s.skip(n + key.len()) =~= rest);
    assert(occurs_at(s, key, n));
    assert forall|j: int| 0 <= j < n implies !occurs_at(s, key, j) by {
        assert(s[j] == front[j]);
        if occurs_at(s, key, j) {
            assert(s.subrange(j, j + key.len())[0] == s[j]);
        }
    }
    first_places_are_found(s, key, 0, n);
}

proof fn colon_is_found(rest: Seq<char>)
    ensures
        find(":"@ + rest, ":"@) == Some(0int),
        (":"@ + rest).skip(1) == rest,
{
    reveal_strlit(":");
    let s = ":"@ + rest;
    assert(s.subrange(0, 1) =~= ":"@);
    assert(occurs_at(s, ":"@, 0));
    assert(s.skip(1) =~= rest);
}

/// A letter, a digit and the signs - . _ ~ stand for themselves in a URL; every other byte stands
/// there as a percent sign and two hexadecimal digits.
pub proof fn bytes_are_escaped(bytes: Seq<u8>, b: u8)
    ensures
        escaped(Seq::empty()).len() == 0,
        ({
            let plain = 'A' <= b as char <= 'Z' || 'a' <= b as char <= 'z'
                || '0' <= b as char <= '9' || b as char == '-'
                || b as char == '.' || b as char == '_' || b as char == '~';
            &&& plain ==> escaped(bytes.push(b)) == escaped(bytes) + seq![b as char]
            &&& !plain ==> escaped(bytes.push(b)) == escaped(bytes) + seq![
                '%',
                "0123456789ABCDEF"@[b as int / 16],
                "0123456789ABCDEF"@[b as int % 16],
            ]
        }),
{
    assert(bytes.push(b).drop_last() =~= bytes);
    reveal_strlit("0123456789ABCDEF");
    digits_are_hex((b / 16) as u8);
    digits_are_hex((b % 16) as u8);
}

proof fn digits_are_hex(d: u8)
    requires
        d < 16,
    ensures
        crate::desktop::hex_upper(d) == "0123456789ABCDEF"@[d as int],
{
    reveal_strlit("0123456789ABCDEF");
}

/// A setting counts as it is unless it is blank.
pub proof fn blank_settings_do_not_count(value: &str)
    ensures
        trimmed(value@).len() == 0 ==> set_value(Some(value)) is None,
        trimmed(value@).len() > 0 ==> set_value(Some(value)) == Some(value@),
        set_value(None) is None,
{
}

} // verus!
