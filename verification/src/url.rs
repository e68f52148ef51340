//! The parts of a URL that tell where a request goes.

use vstd::prelude::*;

use crate::text::{
    after_last, chars_of, end_of_part, part_after, part_before, take_until, text_of,
};

verus! {

/// The characters that end the authority of a URL.
pub open spec fn path_class() -> spec_fn(char) -> bool {
    |c: char| c == '/' || c == '?' || c == '#'
}

pub open spec fn user_class() -> spec_fn(char) -> bool {
    |c: char| c == '@'
}

pub open spec fn port_class() -> spec_fn(char) -> bool {
    |c: char| c == ':'
}

pub open spec fn close_class() -> spec_fn(char) -> bool {
    |c: char| c == ']'
}

/// The host and the port in what follows the scheme of a URL: the authority, without
/// the user that may stand before it.
pub open spec fn host_and_port(rest: Seq<char>) -> Seq<char> {
    after_last(take_until(rest, path_class()), user_class())
}

/// Whether the host is an address in brackets.
pub open spec fn is_bracketed(host_and_port: Seq<char>) -> bool {
    host_and_port.len() > 0 && host_and_port[0] == '['
}

/// The host before a port, if there is one: an address is what stands between brackets
/// that nothing but a port follows, and a name ends at the first colon.
pub open spec fn host_before_port(host_and_port: Seq<char>) -> Seq<char> {
    if is_bracketed(host_and_port) {
        let inside = take_until(host_and_port.skip(1), close_class());
        let behind = host_and_port.skip(1 + inside.len() as int);
        if behind.len() == 1 || behind.len() > 1 && behind[1] == ':' {
            inside
        } else {
            Seq::empty()
        }
    } else {
        take_until(host_and_port, port_class())
    }
}

/// The host in what follows the scheme of a URL.
pub open spec fn host(rest: Seq<char>) -> Seq<char> {
    host_before_port(host_and_port(rest))
}

/// The host and the port in what follows the scheme of a URL.
pub fn find_host_and_port(rest: &str) -> (r: String)
    ensures
        r@ == host_and_port(rest@),
{
    let path = |c: char| -> (b: bool)
        ensures
            b == (c == '/' || c == '?' || c == '#'),
        { c == '/' || c == '?' || c == '#' };
    let user = |c: char| -> (b: bool)
        ensures
            b == (c == '@'),
        { c == '@' };
    let authority = part_before(rest, path, Ghost(path_class()));
    part_after(authority.as_str(), user, Ghost(user_class()))
}

proof fn part_is_within(s: Seq<char>, stop: spec_fn(char) -> bool)
    ensures
        take_until(s, stop).len() <= s.len(),
    decreases s.len(),
{
    if s.len() > 0 && !stop(s[0]) {
        part_is_within(s.skip(1), stop);
    }
}

/// The host before a port, if there is one.
pub fn find_host(host_and_port: &str) -> (r: String)
    ensures
        r@ == host_before_port(host_and_port@),
{
    let cs = chars_of(host_and_port);
    if cs.len() > 0 && cs[0] == '[' {
        let close = |c: char| -> (b: bool)
            ensures
                b == (c == ']'),
            { c == ']' };
        let end: usize = end_of_part(&cs, 1, close, Ghost(close_class()));
        proof {
            part_is_within(cs@.skip(1), close_class());
            assert(cs@.subrange(1, end as int).len() == end - 1);
            assert(cs@.skip(1 + (end - 1)) =~= cs@.skip(end as int));
        }
        if end < cs.len() && (end + 1 == cs.len() || cs[end + 1] == ':') {
            text_of(&cs, 1, end)
        } else {
            String::new()
        }
    } else {
        let port = |c: char| -> (b: bool)
            ensures
                b == (c == ':'),
            { c == ':' };
        part_before(host_and_port, port, Ghost(port_class()))
    }
}

// ---------------------------------------------------------------------------
// What holds of every URL
// ---------------------------------------------------------------------------

/// Whether no character of `s` satisfies `stop`.
pub open spec fn is_free_of(s: Seq<char>, stop: spec_fn(char) -> bool) -> bool {
    forall|i: int| 0 <= i < s.len() ==> !stop(#[trigger] s[i])
}

proof fn taken_up_to(front: Seq<char>, tail: Seq<char>, stop: spec_fn(char) -> bool)
    requires
        is_free_of(front, stop),
        tail.len() > 0 ==> stop(tail[0]),
    ensures
        take_until(front + tail, stop) == front,
    decreases front.len(),
{
    if front.len() > 0 {
        assert((front + tail).skip(1) =~= front.skip(1) + tail);
        taken_up_to(front.skip(1), tail, stop);
        assert(seq![front[0]] + front.skip(1) =~= front);
    } else {
        assert(front + tail =~= tail);
    }
}

proof fn left_behind(front: Seq<char>, tail: Seq<char>, stop: spec_fn(char) -> bool)
    requires
        is_free_of(tail, stop),
        front.len() > 0 ==> stop(front.last()),
    ensures
        after_last(front + tail, stop) == tail,
    decreases tail.len(),
{
    if tail.len() > 0 {
        assert((front + tail).drop_last() =~= front + tail.drop_last());
        left_behind(front, tail.drop_last(), stop);
        assert(tail.drop_last().push(tail.last()) =~= tail);
    } else {
        assert(front + tail =~= front);
    }
}

/// The name that a URL goes to is found wherever it stands between a user, a port and a
/// path, whatever these are made of.
pub proof fn names_are_found(user: Seq<char>, name: Seq<char>, port: Seq<char>, path: Seq<char>)
    requires
        is_free_of(user, path_class()),
        user.len() > 0 ==> user.last() == '@',
        is_free_of(name, path_class()) && is_free_of(name, user_class()) && is_free_of(
            name,
            port_class(),
        ),
        !is_bracketed(name),
        is_free_of(port, path_class()) && is_free_of(port, user_class()),
        port.len() > 0 ==> port[0] == ':',
        path.len() > 0 ==> path_class()(path[0]),
    ensures
        host(user + name + port + path) == name,
{
    let authority = user + name + port;
    assert(is_free_of(authority, path_class()));
    taken_up_to(authority, path, path_class());
    let hp = name + port;
    assert(authority =~= user + hp);
    assert(is_free_of(hp, user_class()));
    left_behind(user, hp, user_class());
    if hp.len() > 0 {
        assert(!is_bracketed(hp));
    }
    taken_up_to(name, port, port_class());
}

/// A URL that goes to a name does not go to an address in brackets.
pub proof fn names_are_not_addresses(user: Seq<char>, name: Seq<char>, port: Seq<char>, path: Seq<char>)
    requires
        is_free_of(user, path_class()),
        user.len() > 0 ==> user.last() == '@',
        is_free_of(name, path_class()) && is_free_of(name, user_class()),
        !is_bracketed(name),
        is_free_of(port, path_class()) && is_free_of(port, user_class()),
        port.len() > 0 ==> port[0] == ':',
        path.len() > 0 ==> path_class()(path[0]),
    ensures
        host_and_port(user + name + port + path) == name + port,
        !is_bracketed(host_and_port(user + name + port + path)),
{
    let authority = user + name + port;
    assert(is_free_of(authority, path_class()));
    taken_up_to(authority, path, path_class());
    let hp = name + port;
    assert(authority =~= user + hp);
    assert(is_free_of(hp, user_class()));
    left_behind(user, hp, user_class());
}

/// The address that a URL goes to is found in its brackets.
pub proof fn addresses_are_found(user: Seq<char>, address: Seq<char>, port: Seq<char>, path: Seq<char>)
    requires
        is_free_of(user, path_class()),
        user.len() > 0 ==> user.last() == '@',
        is_free_of(address, path_class()) && is_free_of(address, user_class()) && is_free_of(
            address,
            close_class(),
        ),
        is_free_of(port, path_class()) && is_free_of(port, user_class()),
        port.len() > 0 ==> port[0] == ':',
        path.len() > 0 ==> path_class()(path[0]),
    ensures
        host(user + seq!['['] + address + seq![']'] + port + path) == address,
{
    let hp = seq!['['] + address + seq![']'] + port;
    let authority = user + hp;
    assert(is_free_of(authority, path_class()));
    assert(user + seq!['['] + address + seq![']'] + port + path =~= authority + path);
    taken_up_to(authority, path, path_class());
    assert(is_free_of(hp, user_class()));
    left_behind(user, hp, user_class());
    let tail = seq![']'] + port;
    assert(hp.skip(1) =~= address + tail);
    taken_up_to(address, tail, close_class());
    assert(hp.skip(1 + address.len() as int) =~= tail);
}

/// What is put behind a URL from its path on does not change where it goes.
pub proof fn paths_do_not_move_the_host(rest: Seq<char>, path: Seq<char>)
    requires
        path.len() > 0,
        path_class()(path[0]),
    ensures
        host_and_port(rest + path) == host_and_port(rest),
{
    same_authority(rest, path);
}

proof fn same_authority(rest: Seq<char>, path: Seq<char>)
    requires
        path.len() > 0,
        path_class()(path[0]),
    ensures
        take_until(rest + path, path_class()) == take_until(rest, path_class()),
    decreases rest.len(),
{
    if rest.len() == 0 {
        assert(rest + path =~= path);
    } else if !path_class()(rest[0]) {
        assert((rest + path).skip(1) =~= rest.skip(1) + path);
        same_authority(rest.skip(1), path);
    }
}

} // verus!
