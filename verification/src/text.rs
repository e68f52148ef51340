//! Text as sequences of characters: comparison, search, trimming and numerals.

use vstd::prelude::*;
use vstd::string::*;
use vstd::utf8::{decode_utf8, valid_utf8};

pub mod laws;

verus! {

/// `String::push` appends one character at the end.
pub assume_specification[ String::push ](s: &mut String, c: char)
    ensures
        final(s)@ == old(s)@.push(c),
;

// ---------------------------------------------------------------------------
// Characters
// ---------------------------------------------------------------------------

/// The characters with the Unicode property `White_Space`.
pub open spec fn is_space(c: char) -> bool {
    let n = c as u32;
    ||| 0x09 <= n <= 0x0d
    ||| n == 0x20
    ||| n == 0x85
    ||| n == 0xa0
    ||| n == 0x1680
    ||| 0x2000 <= n <= 0x200a
    ||| n == 0x2028
    ||| n == 0x2029
    ||| n == 0x202f
    ||| n == 0x205f
    ||| n == 0x3000
}

/// Whether `c` is white space.
pub fn is_space_char(c: char) -> (r: bool)
    ensures
        r == is_space(c),
{
    let n: u32 = c as u32;
    (0x09 <= n && n <= 0x0d) || n == 0x20 || n == 0x85 || n == 0xa0 || n == 0x1680 || (0x2000 <= n
        && n <= 0x200a) || n == 0x2028 || n == 0x2029 || n == 0x202f || n == 0x205f || n == 0x3000
}

/// The lower-case form of an ASCII letter; every other character as it is.
pub open spec fn lower(c: char) -> char {
    if 'A' <= c <= 'Z' {
        ((c as u8) + 32) as char
    } else {
        c
    }
}

/// The lower-case form of an ASCII letter; every other character as it is.
pub fn lower_char(c: char) -> (r: char)
    ensures
        r == lower(c),
{
    if 'A' <= c && c <= 'Z' {
        ((c as u8) + 32) as char
    } else {
        c
    }
}

// ---------------------------------------------------------------------------
// Strings and character vectors
// ---------------------------------------------------------------------------

/// The characters of `s`, in order.
pub fn chars_of(s: &str) -> (r: Vec<char>)
    ensures
        r@ == s@,
{
    let mut out: Vec<char> = Vec::new();
    for c in it: s.chars()
        invariant
            out@ == it.seq().take(it.index()),
    {
        out.push(c);
    }
    out
}

/// The string of the characters `cs[from..to]`.
pub fn text_of(cs: &Vec<char>, from: usize, to: usize) -> (r: String)
    requires
        from <= to <= cs.len(),
    ensures
        r@ == cs@.subrange(from as int, to as int),
{
    let mut out = String::new();
    let mut i: usize = from;
    while i < to
        invariant
            from <= i <= to <= cs.len(),
            out@ == cs@.subrange(from as int, i as int),
        decreases to - i,
    {
        out.push(cs[i]);
        i += 1;
    }
    out
}

/// Whether two strings hold the same characters.
pub fn same_text(a: &str, b: &str) -> (r: bool)
    ensures
        r == (a@ == b@),
{
    a.to_owned() == b.to_owned()
}

/// `a` followed by `b`.
pub fn join(a: &str, b: &str) -> (r: String)
    ensures
        r@ == a@ + b@,
{
    let mut out = a.to_owned();
    out.append(b);
    out
}

/// The text that `String::from_utf8_lossy` reads from bytes.
pub uninterp spec fn lossy_text(bytes: Seq<u8>) -> Seq<char>;

/// `String::from_utf8_lossy`: the text of bytes, a function of the bytes alone. Of
/// bytes that are UTF-8 it is their text; how others are replaced is left open.
#[verifier::external_body]
pub(crate) fn from_lossy(bytes: &[u8]) -> (r: String)
    ensures
        r@ == lossy_text(bytes@),
        valid_utf8(bytes@) ==> r@ == decode_utf8(bytes@),
{
    String::from_utf8_lossy(bytes).into_owned()
}

// ---------------------------------------------------------------------------
// Search
// ---------------------------------------------------------------------------

/// Whether `p` stands in `s` at position `i`.
pub open spec fn occurs_at(s: Seq<char>, p: Seq<char>, i: int) -> bool {
    0 <= i && i + p.len() <= s.len() && s.subrange(i, i + p.len()) == p
}

/// Whether `s` begins with `p`.
pub open spec fn begins_with(s: Seq<char>, p: Seq<char>) -> bool {
    occurs_at(s, p, 0)
}

/// Whether `s` ends with `p`.
pub open spec fn finishes_with(s: Seq<char>, p: Seq<char>) -> bool {
    occurs_at(s, p, s.len() - p.len())
}

/// The first position at or after `i` where `p` stands in `s`.
pub open spec fn find_from(s: Seq<char>, p: Seq<char>, i: int) -> Option<int>
    decreases s.len() - i + 1,
{
    if i < 0 || i + p.len() > s.len() {
        None
    } else if occurs_at(s, p, i) {
        Some(i)
    } else {
        find_from(s, p, i + 1)
    }
}

/// The first position where `p` stands in `s`.
pub open spec fn find(s: Seq<char>, p: Seq<char>) -> Option<int> {
    find_from(s, p, 0)
}

/// The last position at or before `i` where `p` stands in `s`.
pub open spec fn rfind_from(s: Seq<char>, p: Seq<char>, i: int) -> Option<int>
    decreases i + 1,
{
    if i < 0 {
        None
    } else if occurs_at(s, p, i) {
        Some(i)
    } else {
        rfind_from(s, p, i - 1)
    }
}

/// The last position where `p` stands in `s`.
pub open spec fn rfind(s: Seq<char>, p: Seq<char>) -> Option<int> {
    rfind_from(s, p, s.len() - p.len())
}

/// Whether `p` stands somewhere in `s`.
pub open spec fn holds(s: Seq<char>, p: Seq<char>) -> bool {
    find(s, p) is Some
}

/// [`find`] gives a position of `p`, and `p` stands nowhere before it; without a
/// result `p` stands nowhere in `s`.
pub proof fn find_is_first(s: Seq<char>, p: Seq<char>, from: int)
    requires
        0 <= from,
    ensures
        match find_from(s, p, from) {
            Some(i) => from <= i && occurs_at(s, p, i) && forall|j: int|
                from <= j < i ==> !occurs_at(s, p, j),
            None => forall|j: int| from <= j ==> !occurs_at(s, p, j),
        },
    decreases s.len() - from + 1,
{
    if from + p.len() <= s.len() && !occurs_at(s, p, from) {
        find_is_first(s, p, from + 1);
    }
}

/// Whether `p` stands in `s` at position `i`.
pub fn matches_at(s: &Vec<char>, p: &Vec<char>, i: usize) -> (r: bool)
    ensures
        r == occurs_at(s@, p@, i as int),
{
    if s.len() < p.len() || i > s.len() - p.len() {
        return false;
    }
    let mut k: usize = 0;
    while k < p.len()
        invariant
            k <= p.len(),
            i + p.len() <= s.len(),
            s@.subrange(i as int, i + k) == p@.take(k as int),
        decreases p.len() - k,
    {
        if s[i + k] != p[k] {
            assert(s@.subrange(i as int, i + p.len())[k as int] != p@[k as int]);
            return false;
        }
        assert(s@.subrange(i as int, i + k + 1) =~= s@.subrange(i as int, i + k).push(s@[i + k]));
        assert(p@.take(k + 1) =~= p@.take(k as int).push(p@[k as int]));
        k += 1;
    }
    assert(p@.take(p@.len() as int) =~= p@);
    true
}

/// Whether `s` begins with `p`.
pub fn starts_with(s: &str, p: &str) -> (r: bool)
    ensures
        r == begins_with(s@, p@),
{
    matches_at(&chars_of(s), &chars_of(p), 0)
}

/// Whether `s` ends with `p`.
pub fn ends_with(s: &str, p: &str) -> (r: bool)
    ensures
        r == finishes_with(s@, p@),
{
    let cs = chars_of(s);
    let cp = chars_of(p);
    if cs.len() < cp.len() {
        return false;
    }
    matches_at(&cs, &cp, cs.len() - cp.len())
}

/// The first position at or after `from` where `p` stands in `s`.
pub fn find_in(s: &Vec<char>, p: &Vec<char>, from: usize) -> (r: Option<usize>)
    ensures
        match r {
            Some(i) => find_from(s@, p@, from as int) == Some(i as int),
            None => find_from(s@, p@, from as int) is None,
        },
        r matches Some(i) ==> from <= i && i + p.len() <= s.len(),
{
    if s.len() < p.len() {
        return None;
    }
    let last: usize = s.len() - p.len();
    let mut i: usize = from;
    while i <= last
        invariant
            from <= i,
            last == s.len() - p.len(),
            find_from(s@, p@, from as int) == find_from(s@, p@, i as int),
        decreases s.len() - i,
    {
        if matches_at(s, p, i) {
            return Some(i);
        }
        if i == last {
            assert(find_from(s@, p@, i + 1) is None);
            return None;
        }
        i += 1;
    }
    None
}

/// The last position where `p` stands in `s`.
pub fn rfind_in(s: &Vec<char>, p: &Vec<char>) -> (r: Option<usize>)
    ensures
        match r {
            Some(i) => rfind(s@, p@) == Some(i as int),
            None => rfind(s@, p@) is None,
        },
        r matches Some(i) ==> i + p.len() <= s.len(),
{
    if s.len() < p.len() {
        return None;
    }
    let mut i: usize = s.len() - p.len();
    loop
        invariant
            i + p.len() <= s.len(),
            rfind(s@, p@) == rfind_from(s@, p@, i as int),
        decreases i,
    {
        if matches_at(s, p, i) {
            return Some(i);
        }
        if i == 0 {
            assert(rfind_from(s@, p@, -1) is None);
            return None;
        }
        i -= 1;
    }
}

/// Whether `p` stands somewhere in `s`.
pub fn contains(s: &str, p: &str) -> (r: bool)
    ensures
        r == holds(s@, p@),
{
    find_in(&chars_of(s), &chars_of(p), 0).is_some()
}

/// The text before and after the first `p` in `s`.
pub open spec fn split_at_first(s: Seq<char>, p: Seq<char>) -> Option<(Seq<char>, Seq<char>)> {
    match find(s, p) {
        Some(i) => Some((s.take(i), s.skip(i + p.len()))),
        None => None,
    }
}

/// The text before and after the first `p` in `s`.
pub fn split_once(s: &str, p: &str) -> (r: Option<(String, String)>)
    ensures
        match r {
            Some(v) => split_at_first(s@, p@) == Some((v.0@, v.1@)),
            None => split_at_first(s@, p@) is None,
        },
{
    let cs = chars_of(s);
    let cp = chars_of(p);
    match find_in(&cs, &cp, 0) {
        Some(i) => {
            proof {
                find_is_first(s@, p@, 0);
                assert(cs@.subrange(0, i as int) =~= s@.take(i as int));
                assert(cs@.subrange(i + cp.len(), cs.len() as int) =~= s@.skip(i + p@.len()));
            }
            Some((text_of(&cs, 0, i), text_of(&cs, i + cp.len(), cs.len())))
        },
        None => None,
    }
}

/// The text after the prefix `p` of `s`.
pub open spec fn after_prefix(s: Seq<char>, p: Seq<char>) -> Option<Seq<char>> {
    if begins_with(s, p) {
        Some(s.skip(p.len() as int))
    } else {
        None
    }
}

/// The text after the prefix `p` of `s`.
pub fn strip_prefix(s: &str, p: &str) -> (r: Option<String>)
    ensures
        match r {
            Some(v) => after_prefix(s@, p@) == Some(v@),
            None => after_prefix(s@, p@) is None,
        },
{
    let cs = chars_of(s);
    let cp = chars_of(p);
    if matches_at(&cs, &cp, 0) {
        assert(cs@.subrange(cp.len() as int, cs.len() as int) =~= s@.skip(p@.len() as int));
        Some(text_of(&cs, cp.len(), cs.len()))
    } else {
        None
    }
}

// ---------------------------------------------------------------------------
// Trimming
// ---------------------------------------------------------------------------

/// `s` without the leading characters that satisfy `drop`.
pub open spec fn trim_left(s: Seq<char>, drop: spec_fn(char) -> bool) -> Seq<char>
    decreases s.len(),
{
    if s.len() > 0 && drop(s[0]) {
        trim_left(s.skip(1), drop)
    } else {
        s
    }
}

/// `s` without the trailing characters that satisfy `drop`.
pub open spec fn trim_right(s: Seq<char>, drop: spec_fn(char) -> bool) -> Seq<char>
    decreases s.len(),
{
    if s.len() > 0 && drop(s.last()) {
        trim_right(s.drop_last(), drop)
    } else {
        s
    }
}

/// The characters that [`trimmed`] removes.
pub open spec fn space_class() -> spec_fn(char) -> bool {
    |c: char| is_space(c)
}

/// `s` without leading and trailing white space.
pub open spec fn trimmed(s: Seq<char>) -> Seq<char> {
    trim_right(trim_left(s, space_class()), space_class())
}

/// `s` without every leading copy of `p`.
pub open spec fn without_leading(s: Seq<char>, p: Seq<char>) -> Seq<char>
    decreases s.len(),
{
    if p.len() > 0 && begins_with(s, p) {
        without_leading(s.skip(p.len() as int), p)
    } else {
        s
    }
}

/// `s` without every trailing copy of `p`.
pub open spec fn without_trailing(s: Seq<char>, p: Seq<char>) -> Seq<char>
    decreases s.len(),
{
    if p.len() > 0 && finishes_with(s, p) {
        without_trailing(s.take(s.len() - p.len()), p)
    } else {
        s
    }
}

/// `s` without leading and trailing characters for which `class` answers true.
pub fn trim_class<F: Fn(char) -> bool>(s: &str, class: F, Ghost(drop): Ghost<spec_fn(char) -> bool>) -> (r: String)
    requires
        forall|c: char| class.requires((c,)),
        forall|c: char, b: bool| class.ensures((c,), b) ==> b == drop(c),
    ensures
        r@ == trim_right(trim_left(s@, drop), drop),
{
    let cs = chars_of(s);
    let n: usize = cs.len();
    let mut from: usize = 0;
    assert(cs@.skip(0) =~= cs@);
    while from < n && class(cs[from])
        invariant
            n == cs.len(),
            from <= n,
            cs@ == s@,
            trim_left(s@, drop) == trim_left(cs@.skip(from as int), drop),
            forall|c: char| class.requires((c,)),
            forall|c: char, b: bool| class.ensures((c,), b) ==> b == drop(c),
        ensures
            from <= n,
            trim_left(s@, drop) == cs@.skip(from as int),
        decreases n - from,
    {
        assert(cs@.skip(from as int).skip(1) =~= cs@.skip(from + 1));
        from += 1;
    }
    let mut to: usize = n;
    assert(cs@.subrange(from as int, to as int) =~= cs@.skip(from as int));
    while to > from && class(cs[to - 1])
        invariant
            n == cs.len(),
            from <= to <= n,
            trim_right(cs@.skip(from as int), drop) == trim_right(cs@.subrange(from as int, to as int), drop),
            forall|c: char| class.requires((c,)),
            forall|c: char, b: bool| class.ensures((c,), b) ==> b == drop(c),
        ensures
            from <= to <= n,
            trim_right(cs@.skip(from as int), drop) == cs@.subrange(from as int, to as int),
        decreases to,
    {
        assert(cs@.subrange(from as int, to as int).drop_last() =~= cs@.subrange(from as int, to - 1));
        to -= 1;
    }
    text_of(&cs, from, to)
}

/// `s` without leading and trailing white space.
pub fn trim(s: &str) -> (r: String)
    ensures
        r@ == trimmed(s@),
{
    let class = |c: char| -> (b: bool)
        ensures
            b == is_space(c),
        { is_space_char(c) };
    trim_class(s, class, Ghost(space_class()))
}

proof fn occurs_in_rest(s: Seq<char>, p: Seq<char>)
    ensures
        forall|i: int|
            0 <= i <= s.len() ==> begins_with(#[trigger] s.skip(i), p) == occurs_at(s, p, i),
{
    assert forall|i: int| 0 <= i <= s.len() implies begins_with(#[trigger] s.skip(i), p)
        == occurs_at(s, p, i) by {
        if i + p.len() <= s.len() {
            assert(s.skip(i).subrange(0, p.len() as int) =~= s.subrange(i, i + p.len()));
        }
    }
}

proof fn occurs_in_front(s: Seq<char>, p: Seq<char>)
    ensures
        forall|i: int|
            0 <= i <= s.len() ==> finishes_with(#[trigger] s.take(i), p) == occurs_at(s, p, i - p.len()),
{
    assert forall|i: int| 0 <= i <= s.len() implies finishes_with(#[trigger] s.take(i), p)
        == occurs_at(s, p, i - p.len()) by {
        if p.len() <= i {
            assert(s.take(i).subrange(i - p.len(), i as int) =~= s.subrange(i - p.len(), i));
        }
    }
}

/// `s` without every leading copy of `p`.
pub fn trim_start_matches(s: &str, p: &str) -> (r: String)
    ensures
        r@ == without_leading(s@, p@),
{
    let cs = chars_of(s);
    let cp = chars_of(p);
    let n: usize = cs.len();
    let mut from: usize = 0;
    assert(cs@.skip(0) =~= cs@);
    proof {
        occurs_in_rest(cs@, cp@);
    }
    while cp.len() > 0 && matches_at(&cs, &cp, from)
        invariant
            n == cs.len(),
            from <= n,
            without_leading(cs@, cp@) == without_leading(cs@.skip(from as int), cp@),
            forall|i: int| 0 <= i <= n ==> begins_with(#[trigger] cs@.skip(i), cp@) == occurs_at(cs@, cp@, i),
        ensures
            from <= n,
            without_leading(cs@, cp@) == cs@.skip(from as int),
        decreases n - from,
    {
        assert(cs@.skip(from as int).skip(cp@.len() as int) =~= cs@.skip(from + cp@.len()));
        from += cp.len();
    }
    assert(cs@.subrange(from as int, n as int) =~= cs@.skip(from as int));
    text_of(&cs, from, n)
}

/// `s` without every trailing copy of `p`.
pub fn trim_end_matches(s: &str, p: &str) -> (r: String)
    ensures
        r@ == without_trailing(s@, p@),
{
    let cs = chars_of(s);
    let cp = chars_of(p);
    let mut to: usize = cs.len();
    assert(cs@.take(to as int) =~= cs@);
    proof {
        occurs_in_front(cs@, cp@);
    }
    while cp.len() > 0 && cp.len() <= to && matches_at(&cs, &cp, to - cp.len())
        invariant
            to <= cs.len(),
            without_trailing(cs@, cp@) == without_trailing(cs@.take(to as int), cp@),
            forall|i: int|
                0 <= i <= cs.len() ==> finishes_with(#[trigger] cs@.take(i), cp@) == occurs_at(
                    cs@,
                    cp@,
                    i - cp@.len(),
                ),
        ensures
            to <= cs.len(),
            without_trailing(cs@, cp@) == cs@.take(to as int),
        decreases to,
    {
        assert(cs@.take(to as int).take(to - cp@.len()) =~= cs@.take(to - cp@.len()));
        to -= cp.len();
    }
    assert(cs@.subrange(0, to as int) =~= cs@.take(to as int));
    text_of(&cs, 0, to)
}

// ---------------------------------------------------------------------------
// Pieces
// ---------------------------------------------------------------------------

/// The part of `s` before its first character that satisfies `stop`.
pub open spec fn take_until(s: Seq<char>, stop: spec_fn(char) -> bool) -> Seq<char>
    decreases s.len(),
{
    if s.len() == 0 || stop(s[0]) {
        Seq::empty()
    } else {
        seq![s[0]] + take_until(s.skip(1), stop)
    }
}

/// The part of `s` after its last character that satisfies `stop`.
pub open spec fn after_last(s: Seq<char>, stop: spec_fn(char) -> bool) -> Seq<char>
    decreases s.len(),
{
    if s.len() == 0 || stop(s.last()) {
        Seq::empty()
    } else {
        after_last(s.drop_last(), stop).push(s.last())
    }
}

/// The end of the part of `cs` from `from` on before its first character for
/// which `class` answers true.
pub fn end_of_part<F: Fn(char) -> bool>(
    cs: &Vec<char>,
    from: usize,
    class: F,
    Ghost(stop): Ghost<spec_fn(char) -> bool>,
) -> (r: usize)
    requires
        from <= cs.len(),
        forall|c: char| class.requires((c,)),
        forall|c: char, b: bool| class.ensures((c,), b) ==> b == stop(c),
    ensures
        from <= r <= cs.len(),
        cs@.subrange(from as int, r as int) == take_until(cs@.skip(from as int), stop),
{
    let ghost rest = cs@.skip(from as int);
    let mut end: usize = from;
    assert(rest.skip(0) =~= rest);
    assert(rest.take(0) + take_until(rest, stop) =~= take_until(rest, stop));
    while end < cs.len() && !class(cs[end])
        invariant
            from <= end <= cs.len(),
            rest == cs@.skip(from as int),
            take_until(rest, stop) == rest.take(end - from) + take_until(rest.skip(end - from), stop),
            forall|c: char| class.requires((c,)),
            forall|c: char, b: bool| class.ensures((c,), b) ==> b == stop(c),
        ensures
            from <= end <= cs.len(),
            take_until(rest, stop) == rest.take(end - from) + take_until(rest.skip(end - from), stop),
            end < cs.len() ==> stop(cs@[end as int]),
        decreases cs.len() - end,
    {
        proof {
            let n = end - from;
            assert(rest.skip(n).skip(1) =~= rest.skip(n + 1));
            assert(rest.take(n) + (seq![rest[n]] + take_until(rest.skip(n + 1), stop)) =~= rest.take(
                n + 1,
            ) + take_until(rest.skip(n + 1), stop));
        }
        end += 1;
    }
    assert(rest.take(end - from) + take_until(rest.skip(end - from), stop) =~= rest.take(end - from));
    assert(cs@.subrange(from as int, end as int) =~= rest.take(end - from));
    end
}

/// The part of `s` before the first character for which `class` answers true.
pub fn part_before<F: Fn(char) -> bool>(s: &str, class: F, Ghost(stop): Ghost<spec_fn(char) -> bool>) -> (r: String)
    requires
        forall|c: char| class.requires((c,)),
        forall|c: char, b: bool| class.ensures((c,), b) ==> b == stop(c),
    ensures
        r@ == take_until(s@, stop),
{
    let cs = chars_of(s);
    let end: usize = end_of_part(&cs, 0, class, Ghost(stop));
    assert(cs@.skip(0) =~= cs@);
    text_of(&cs, 0, end)
}

/// The part of `s` after the last character for which `class` answers true.
pub fn part_after<F: Fn(char) -> bool>(s: &str, class: F, Ghost(stop): Ghost<spec_fn(char) -> bool>) -> (r: String)
    requires
        forall|c: char| class.requires((c,)),
        forall|c: char, b: bool| class.ensures((c,), b) ==> b == stop(c),
    ensures
        r@ == after_last(s@, stop),
{
    let cs = chars_of(s);
    let n: usize = cs.len();
    let mut from: usize = n;
    assert(cs@.take(n as int) =~= cs@);
    assert(after_last(cs@, stop) + cs@.skip(n as int) =~= after_last(cs@, stop));
    while from > 0 && !class(cs[from - 1])
        invariant
            from <= n,
            n == cs.len(),
            after_last(cs@, stop) == after_last(cs@.take(from as int), stop) + cs@.skip(from as int),
            forall|c: char| class.requires((c,)),
            forall|c: char, b: bool| class.ensures((c,), b) ==> b == stop(c),
        ensures
            from <= n,
            after_last(cs@, stop) == after_last(cs@.take(from as int), stop) + cs@.skip(from as int),
            from > 0 ==> stop(cs@[from - 1]),
        decreases from,
    {
        proof {
            let front = cs@.take(from as int);
            assert(front.drop_last() =~= cs@.take(from - 1));
            assert(after_last(front.drop_last(), stop).push(front.last()) + cs@.skip(from as int)
                =~= after_last(cs@.take(from - 1), stop) + cs@.skip(from - 1));
        }
        from -= 1;
    }
    assert(after_last(cs@.take(from as int), stop) =~= Seq::empty());
    assert(Seq::<char>::empty() + cs@.skip(from as int) =~= cs@.subrange(from as int, n as int));
    text_of(&cs, from, n)
}

/// The pieces of `s` between the characters `sep`.
pub open spec fn pieces(s: Seq<char>, sep: char) -> Seq<Seq<char>>
    decreases s.len(),
{
    if s.len() == 0 {
        seq![Seq::empty()]
    } else {
        let r = pieces(s.drop_last(), sep);
        if s.last() == sep {
            r.push(Seq::empty())
        } else {
            r.drop_last().push(r.last().push(s.last()))
        }
    }
}

/// The characters of each string of `v`.
pub open spec fn texts(v: Seq<String>) -> Seq<Seq<char>> {
    v.map_values(|s: String| s@)
}

/// There is at least one piece.
pub proof fn pieces_not_empty(s: Seq<char>, sep: char)
    ensures
        pieces(s, sep).len() > 0,
    decreases s.len(),
{
    if s.len() > 0 {
        pieces_not_empty(s.drop_last(), sep);
    }
}

/// The pieces of `s` between the characters `sep`.
pub fn split_on(s: &str, sep: char) -> (r: Vec<String>)
    ensures
        texts(r@) == pieces(s@, sep),
        r@.len() > 0,
{
    let cs = chars_of(s);
    let mut done: Vec<String> = Vec::new();
    let mut piece = String::new();
    let mut i: usize = 0;
    assert(texts(done@).push(piece@) =~= pieces(cs@.take(0), sep));
    while i < cs.len()
        invariant
            i <= cs.len(),
            texts(done@).push(piece@) == pieces(cs@.take(i as int), sep),
        decreases cs.len() - i,
    {
        let ghost before = texts(done@).push(piece@);
        assert(cs@.take(i + 1).drop_last() =~= cs@.take(i as int));
        assert(before.drop_last() =~= texts(done@));
        if cs[i] == sep {
            assert(texts(done@.push(piece)) =~= texts(done@).push(piece@));
            done.push(piece);
            piece = String::new();
        } else {
            piece.push(cs[i]);
        }
        i += 1;
    }
    assert(cs@.take(cs.len() as int) =~= cs@);
    assert(texts(done@.push(piece)) =~= texts(done@).push(piece@));
    done.push(piece);
    done
}

/// `parts` one after the other with `sep` between them.
pub open spec fn joined(parts: Seq<Seq<char>>, sep: Seq<char>) -> Seq<char>
    decreases parts.len(),
{
    if parts.len() == 0 {
        Seq::empty()
    } else if parts.len() == 1 {
        parts[0]
    } else {
        joined(parts.drop_last(), sep) + sep + parts.last()
    }
}

/// The strings of `parts` one after the other with `sep` between them.
pub fn join_all(parts: &Vec<String>, sep: &str) -> (r: String)
    ensures
        r@ == joined(texts(parts@), sep@),
{
    let ghost views = texts(parts@);
    let mut out = String::new();
    let mut i: usize = 0;
    assert(views.take(0) =~= Seq::empty());
    while i < parts.len()
        invariant
            i <= parts.len(),
            views == texts(parts@),
            out@ == joined(views.take(i as int), sep@),
        decreases parts.len() - i,
    {
        assert(views.take(i + 1).drop_last() =~= views.take(i as int));
        assert(views.take(i + 1).last() == parts@[i as int]@);
        if i > 0 {
            out.append(sep);
        } else {
            assert(out@ + parts@[0]@ =~= parts@[0]@);
        }
        out.append(parts[i].as_str());
        i += 1;
    }
    assert(views.take(parts.len() as int) =~= views);
    out
}

/// `s` with every `p` in it, from the left, replaced by `q`.
pub open spec fn replaced(s: Seq<char>, p: Seq<char>, q: Seq<char>) -> Seq<char>
    decreases s.len(),
{
    match find(s, p) {
        Some(i) => if p.len() > 0 && 0 <= i && i + p.len() <= s.len() {
            s.take(i) + q + replaced(s.skip(i + p.len()), p, q)
        } else {
            s
        },
        None => s,
    }
}

proof fn find_in_rest(s: Seq<char>, p: Seq<char>, from: int, at: int)
    requires
        0 <= from <= s.len(),
        0 <= at,
    ensures
        find_from(s, p, from + at) == (match find_from(s.skip(from), p, at) {
            Some(i) => Some(from + i),
            None => None,
        }),
    decreases s.len() - from - at + 1,
{
    let rest = s.skip(from);
    if from + at + p.len() <= s.len() {
        assert(rest.subrange(at, at + p.len()) =~= s.subrange(from + at, from + at + p.len()));
        if !occurs_at(rest, p, at) {
            find_in_rest(s, p, from, at + 1);
        }
    }
}

/// `s` with every `p` in it, from the left, replaced by `q`.
pub fn replace(s: &str, p: &str, q: &str) -> (r: String)
    requires
        p@.len() > 0,
    ensures
        r@ == replaced(s@, p@, q@),
{
    let cs = chars_of(s);
    let cp = chars_of(p);
    let mut out = String::new();
    let mut from: usize = 0;
    assert(cs@.skip(0) =~= cs@);
    assert(out@ + replaced(cs@, p@, q@) =~= replaced(cs@, p@, q@));
    loop
        invariant
            from <= cs.len(),
            cs@ == s@,
            cp@ == p@,
            p@.len() > 0,
            replaced(s@, p@, q@) == out@ + replaced(cs@.skip(from as int), p@, q@),
        decreases cs.len() - from,
    {
        let ghost rest = cs@.skip(from as int);
        proof {
            find_in_rest(cs@, p@, from as int, 0);
            find_is_first(cs@, p@, from as int);
        }
        match find_in(&cs, &cp, from) {
            Some(at) => {
                let ghost before = out@;
                assert(find(rest, p@) == Some(at - from));
                let part = text_of(&cs, from, at);
                out.append(part.as_str());
                out.append(q);
                proof {
                    let i = at - from;
                    assert(part@ =~= rest.take(i));
                    assert(rest.skip(i + p@.len()) =~= cs@.skip(at + p@.len()));
                    assert(before + (rest.take(i) + q@ + replaced(rest.skip(i + p@.len()), p@, q@))
                        =~= out@ + replaced(cs@.skip(at + p@.len()), p@, q@));
                }
                from = at + cp.len();
            },
            None => {
                let part = text_of(&cs, from, cs.len());
                assert(part@ =~= rest);
                out.append(part.as_str());
                return out;
            },
        }
    }
}

/// The words of `s`: its longest runs of characters that are not white space.
pub open spec fn words_of(s: Seq<char>) -> Seq<Seq<char>>
    decreases s.len(),
{
    if s.len() == 0 {
        Seq::empty()
    } else {
        let r = words_of(s.drop_last());
        if is_space(s.last()) {
            r
        } else if s.len() >= 2 && !is_space(s[s.len() - 2]) {
            r.drop_last().push(r.last().push(s.last()))
        } else {
            r.push(seq![s.last()])
        }
    }
}

/// The words of `s`.
pub fn words(s: &str) -> (r: Vec<String>)
    ensures
        texts(r@) == words_of(s@),
{
    let cs = chars_of(s);
    let mut done: Vec<String> = Vec::new();
    let mut word = String::new();
    let mut inside: bool = false;
    let mut i: usize = 0;
    assert(texts(done@) =~= words_of(cs@.take(0)));
    while i < cs.len()
        invariant
            i <= cs.len(),
            inside == (i > 0 && !is_space(cs@[i - 1])),
            inside ==> texts(done@).push(word@) == words_of(cs@.take(i as int)),
            !inside ==> texts(done@) == words_of(cs@.take(i as int)) && word@ == Seq::<char>::empty(),
        decreases cs.len() - i,
    {
        let ghost now = cs@.take(i + 1);
        assert(now.drop_last() =~= cs@.take(i as int));
        if is_space_char(cs[i]) {
            if inside {
                assert(texts(done@.push(word)) =~= texts(done@).push(word@));
                done.push(word);
                word = String::new();
            }
            inside = false;
        } else {
            assert(texts(done@).push(word@).drop_last() =~= texts(done@));
            assert(Seq::<char>::empty().push(cs@[i as int]) =~= seq![cs@[i as int]]);
            word.push(cs[i]);
            inside = true;
        }
        i += 1;
    }
    assert(cs@.take(cs.len() as int) =~= cs@);
    if inside {
        assert(texts(done@.push(word)) =~= texts(done@).push(word@));
        done.push(word);
    }
    done
}

/// The first `n` characters of `s`.
pub fn first_chars(s: &str, n: usize) -> (r: String)
    ensures
        r@ == (if s@.len() <= n {
            s@
        } else {
            s@.take(n as int)
        }),
{
    let cs = chars_of(s);
    let end: usize = if cs.len() <= n {
        cs.len()
    } else {
        n
    };
    assert(cs@.subrange(0, end as int) =~= cs@.take(end as int));
    assert(cs@.take(cs.len() as int) =~= cs@);
    text_of(&cs, 0, end)
}

/// `s` without one trailing `c`.
pub open spec fn without_end(s: Seq<char>, c: char) -> Seq<char> {
    if s.len() > 0 && s.last() == c {
        s.drop_last()
    } else {
        s
    }
}

/// The lines of `s`: what stands before each line feed, without a carriage return
/// in front of it, and what follows the last one, if anything does.
pub open spec fn lines_of(s: Seq<char>) -> Seq<Seq<char>> {
    let p = pieces(s, '\n');
    let full = p.drop_last().map_values(|l: Seq<char>| without_end(l, '\r'));
    if p.last().len() == 0 {
        full
    } else {
        full.push(p.last())
    }
}

/// The lines of `s`.
pub fn lines(s: &str) -> (r: Vec<String>)
    ensures
        texts(r@) == lines_of(s@),
{
    let parts = split_on(s, '\n');
    let ghost all = pieces(s@, '\n');
    let n: usize = parts.len();
    let ghost full = all.drop_last().map_values(|l: Seq<char>| without_end(l, '\r'));
    let mut out: Vec<String> = Vec::new();
    let mut i: usize = 0;
    assert(texts(out@) =~= full.take(0));
    while i + 1 < n
        invariant
            i < n,
            n == parts.len(),
            texts(parts@) == all,
            full == all.drop_last().map_values(|l: Seq<char>| without_end(l, '\r')),
            texts(out@) == full.take(i as int),
        decreases n - i,
    {
        let cs = chars_of(parts[i].as_str());
        let end: usize = if cs.len() > 0 && cs[cs.len() - 1] == '\r' {
            cs.len() - 1
        } else {
            cs.len()
        };
        let line = text_of(&cs, 0, end);
        assert(all[i as int] == parts@[i as int]@);
        assert(line@ =~= without_end(all[i as int], '\r'));
        assert(full[i as int] == without_end(all.drop_last()[i as int], '\r'));
        assert(full.take(i + 1) =~= full.take(i as int).push(full[i as int]));
        assert(texts(out@.push(line)) =~= texts(out@).push(line@));
        out.push(line);
        i += 1;
    }
    assert(full.take(n - 1) =~= full);
    let last = parts[n - 1].clone();
    assert(all.last() == last@);
    if last.as_str().unicode_len() > 0 {
        assert(texts(out@.push(last)) =~= full.push(last@));
        out.push(last);
    }
    out
}

// ---------------------------------------------------------------------------
// Order
// ---------------------------------------------------------------------------

/// Whether `a` stands before `b` in the order of strings: by the first character
/// in which they differ, and a proper prefix first.
pub open spec fn text_less(a: Seq<char>, b: Seq<char>) -> bool
    decreases a.len(),
{
    if b.len() == 0 {
        false
    } else if a.len() == 0 {
        true
    } else if a[0] == b[0] {
        text_less(a.skip(1), b.skip(1))
    } else {
        a[0] < b[0]
    }
}

/// No string stands before itself.
pub proof fn text_less_irreflexive(a: Seq<char>)
    ensures
        !text_less(a, a),
    decreases a.len(),
{
    if a.len() > 0 {
        text_less_irreflexive(a.skip(1));
    }
}

/// The order of strings is transitive.
pub proof fn text_less_transitive(a: Seq<char>, b: Seq<char>, c: Seq<char>)
    requires
        text_less(a, b),
        text_less(b, c),
    ensures
        text_less(a, c),
    decreases a.len(),
{
    if a.len() > 0 && b.len() > 0 && c.len() > 0 && a[0] == b[0] && b[0] == c[0] {
        text_less_transitive(a.skip(1), b.skip(1), c.skip(1));
    }
}

/// Of two different strings one stands before the other.
pub proof fn text_less_total(a: Seq<char>, b: Seq<char>)
    requires
        a != b,
    ensures
        text_less(a, b) || text_less(b, a),
    decreases a.len(),
{
    if a.len() == 0 || b.len() == 0 {
        assert(a.len() == 0 && b.len() == 0 ==> a =~= b);
    } else if a[0] == b[0] {
        if a.skip(1) == b.skip(1) {
            assert(a =~= seq![a[0]] + a.skip(1));
            assert(b =~= seq![b[0]] + b.skip(1));
        }
        text_less_total(a.skip(1), b.skip(1));
    }
}

/// Whether `a` stands before `b` in the order of strings.
pub fn less(a: &str, b: &str) -> (r: bool)
    ensures
        r == text_less(a@, b@),
{
    let ca = chars_of(a);
    let cb = chars_of(b);
    let mut i: usize = 0;
    assert(ca@.skip(0) =~= ca@ && cb@.skip(0) =~= cb@);
    while i < ca.len() && i < cb.len()
        invariant
            i <= ca.len(),
            i <= cb.len(),
            ca@ == a@,
            cb@ == b@,
            text_less(a@, b@) == text_less(ca@.skip(i as int), cb@.skip(i as int)),
        decreases ca.len() - i,
    {
        if ca[i] != cb[i] {
            return ca[i] < cb[i];
        }
        assert(ca@.skip(i as int).skip(1) =~= ca@.skip(i + 1));
        assert(cb@.skip(i as int).skip(1) =~= cb@.skip(i + 1));
        i += 1;
    }
    i < cb.len()
}

// ---------------------------------------------------------------------------
// Letter case
// ---------------------------------------------------------------------------

/// The upper-case form of an ASCII letter; every other character as it is.
pub open spec fn upper(c: char) -> char {
    if 'a' <= c <= 'z' {
        ((c as u8) - 32) as u8 as char
    } else {
        c
    }
}

/// `s` with its ASCII letters in upper case.
pub open spec fn raised(s: Seq<char>) -> Seq<char> {
    Seq::new(s.len(), |i: int| upper(s[i]))
}

/// `s` with its ASCII letters in upper case.
pub fn to_upper(s: &str) -> (r: String)
    ensures
        r@ == raised(s@),
{
    let cs = chars_of(s);
    let mut out = String::new();
    let mut i: usize = 0;
    while i < cs.len()
        invariant
            i <= cs.len(),
            cs@ == s@,
            out@ == raised(s@).take(i as int),
        decreases cs.len() - i,
    {
        let c: char = cs[i];
        let u: char = if 'a' <= c && c <= 'z' {
            (c as u8 - 32) as char
        } else {
            c
        };
        assert(raised(s@).take(i + 1) =~= raised(s@).take(i as int).push(u));
        out.push(u);
        i += 1;
    }
    assert(raised(s@).take(cs.len() as int) =~= raised(s@));
    out
}

/// `s` with its ASCII letters in lower case.
pub open spec fn lowered(s: Seq<char>) -> Seq<char> {
    Seq::new(s.len(), |i: int| lower(s[i]))
}

/// The characters of `s` with the ASCII letters in lower case.
pub fn lower_chars(s: &Vec<char>) -> (r: Vec<char>)
    ensures
        r@ == lowered(s@),
{
    let mut out: Vec<char> = Vec::new();
    let mut i: usize = 0;
    while i < s.len()
        invariant
            i <= s.len(),
            out@ == lowered(s@).take(i as int),
        decreases s.len() - i,
    {
        out.push(lower_char(s[i]));
        i += 1;
    }
    out
}

/// The text that `format!("{:?}")` makes of a string.
pub uninterp spec fn debug_text(s: Seq<char>) -> Seq<char>;

/// The `Debug` form of a string: the string between quotes, some characters
/// escaped; a function of the string alone.
#[verifier::external_body]
pub(crate) fn debug_of(s: &str) -> (r: String)
    ensures
        r@ == debug_text(s@),
{
    format!("{s:?}")
}

/// The lower-case form that `str::to_lowercase` gives of a text.
pub uninterp spec fn lowercase(text: Seq<char>) -> Seq<char>;

/// `str::to_lowercase`: the lower-case form of a text by the Unicode rules, a
/// function of the text alone.
#[verifier::external_body]
pub(crate) fn to_lowercase(text: &str) -> (r: String)
    ensures
        r@ == lowercase(text@),
{
    text.to_lowercase()
}

/// The upper-case form that `str::to_uppercase` gives of a text.
pub uninterp spec fn uppercase(text: Seq<char>) -> Seq<char>;

/// `str::to_uppercase`: the upper-case form of a text by the Unicode rules, a
/// function of the text alone.
#[verifier::external_body]
pub(crate) fn to_uppercase(text: &str) -> (r: String)
    ensures
        r@ == uppercase(text@),
{
    text.to_uppercase()
}

// ---------------------------------------------------------------------------
// Numerals
// ---------------------------------------------------------------------------

/// The decimal digit `d`.
pub open spec fn digit(d: int) -> char {
    (48 + d) as u8 as char
}

/// The decimal numeral of `n`, without leading zeros.
pub open spec fn decimal(n: nat) -> Seq<char>
    decreases n,
{
    if n < 10 {
        seq![digit(n as int)]
    } else {
        decimal(n / 10).push(digit((n % 10) as int))
    }
}

/// The decimal numeral of `n`.
pub fn decimal_text(n: u64) -> (r: String)
    ensures
        r@ == decimal(n as nat),
    decreases n,
{
    if n < 10 {
        let mut out = String::new();
        out.push((48 + n as u8) as char);
        out
    } else {
        let mut out = decimal_text(n / 10);
        out.push((48 + (n % 10) as u8) as char);
        out
    }
}

/// The decimal numeral of a whole number, with a minus sign below zero.
pub open spec fn signed_decimal(n: int) -> Seq<char> {
    if n < 0 {
        seq!['-'] + decimal((-n) as nat)
    } else {
        decimal(n as nat)
    }
}

/// The decimal numeral of `n`, with a minus sign below zero.
pub fn signed_text(n: i64) -> (r: String)
    ensures
        r@ == signed_decimal(n as int),
{
    if n < 0 {
        let size: u64 = (-(n + 1)) as u64 + 1;
        let mut out = String::new();
        out.push('-');
        out.append(decimal_text(size).as_str());
        assert(Seq::<char>::empty().push('-') =~= seq!['-']);
        out
    } else {
        decimal_text(n as u64)
    }
}

/// Whether `s` consists of decimal digits.
pub open spec fn all_digits(s: Seq<char>) -> bool {
    forall|i: int| 0 <= i < s.len() ==> '0' <= #[trigger] s[i] <= '9'
}

/// The value of a sequence of decimal digits.
pub open spec fn digits_value(s: Seq<char>) -> nat
    decreases s.len(),
{
    if s.len() == 0 {
        0
    } else {
        digits_value(s.drop_last()) * 10 + (s.last() as nat - '0' as nat) as nat
    }
}

/// The number that a numeral stands for, if it fits `u64`: decimal digits, which a
/// plus sign may precede.
pub open spec fn numeral(s: Seq<char>) -> Option<u64> {
    let digits = if s.len() > 0 && s[0] == '+' {
        s.skip(1)
    } else {
        s
    };
    if digits.len() > 0 && all_digits(digits) && digits_value(digits) <= u64::MAX {
        Some(digits_value(digits) as u64)
    } else {
        None
    }
}

proof fn digits_value_grows(s: Seq<char>, n: int)
    requires
        0 <= n <= s.len(),
    ensures
        digits_value(s.take(n)) <= digits_value(s),
    decreases s.len() - n,
{
    if n < s.len() {
        digits_value_grows(s, n + 1);
        assert(s.take(n + 1).drop_last() =~= s.take(n));
    } else {
        assert(s.take(n) =~= s);
    }
}

/// The number that a numeral stands for, if it fits `u64`.
pub fn parse_u64(s: &str) -> (r: Option<u64>)
    ensures
        r == numeral(s@),
{
    let cs = chars_of(s);
    let from: usize = if cs.len() > 0 && cs[0] == '+' {
        1
    } else {
        0
    };
    let ghost digits = if s@.len() > 0 && s@[0] == '+' {
        s@.skip(1)
    } else {
        s@
    };
    assert(digits =~= cs@.skip(from as int));
    if from == cs.len() {
        return None;
    }
    let mut value: u64 = 0;
    let mut i: usize = from;
    #[verifier::loop_isolation(false)]
    while i < cs.len()
        invariant
            from <= i <= cs.len(),
            cs@ == s@,
            digits == cs@.skip(from as int),
            value == digits_value(digits.take(i - from)),
            forall|k: int| 0 <= k < i - from ==> '0' <= #[trigger] digits[k] <= '9',
        decreases cs.len() - i,
    {
        let c: char = cs[i];
        assert(c == digits[i - from]);
        if c < '0' || '9' < c {
            return None;
        }
        let d: u64 = (c as u8 - 48) as u64;
        proof {
            assert(digits.take(i - from + 1).drop_last() =~= digits.take(i - from));
            digits_value_grows(digits, i - from + 1);
        }
        if value > (u64::MAX - d) / 10 {
            assert(value * 10 + d > u64::MAX);
            return None;
        }
        value = value * 10 + d;
        i += 1;
    }
    assert(digits.take(cs.len() - from) =~= digits);
    Some(value)
}

/// The number that `raw` holds, or `default` where it holds none.
pub fn number_or(raw: Option<&str>, default: u64) -> (r: u64)
    ensures
        r == (match raw {
            Some(s) => match numeral(s@) {
                Some(n) => n,
                None => default,
            },
            None => default,
        }),
{
    match raw {
        Some(s) => match parse_u64(s) {
            Some(n) => n,
            None => default,
        },
        None => default,
    }
}

} // verus!
