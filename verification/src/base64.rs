//! Base64 with the standard alphabet, and `data:` URIs that carry it.

use vstd::prelude::*;
use vstd::utf8::{decode_utf8, encode_utf8, valid_utf8};
use vstd::string::*;

use crate::text::{chars_of, find, find_is_first, occurs_at, split_at_first, split_once, text_of};

pub mod laws;

verus! {

// ---------------------------------------------------------------------------
// Alphabet
// ---------------------------------------------------------------------------

/// The character that stands for the six-bit value `v`.
pub open spec fn symbol(v: u8) -> char {
    if v < 26 {
        (65 + v) as u8 as char
    } else if v < 52 {
        (71 + v) as u8 as char
    } else if v < 62 {
        (v - 4) as u8 as char
    } else if v == 62 {
        '+'
    } else {
        '/'
    }
}

/// The six-bit value that a character stands for.
pub open spec fn sextet(c: char) -> Option<u8> {
    if 'A' <= c <= 'Z' {
        Some((c as u8 - 65) as u8)
    } else if 'a' <= c <= 'z' {
        Some((c as u8 - 71) as u8)
    } else if '0' <= c <= '9' {
        Some((c as u8 + 4) as u8)
    } else if c == '+' {
        Some(62)
    } else if c == '/' {
        Some(63)
    } else {
        None
    }
}

/// The character that stands for the six-bit value `v`.
fn symbol_of(v: u8) -> (r: char)
    requires
        v < 64,
    ensures
        r == symbol(v),
{
    if v < 26 {
        (65 + v) as char
    } else if v < 52 {
        (71 + v) as char
    } else if v < 62 {
        (v - 4) as char
    } else if v == 62 {
        '+'
    } else {
        '/'
    }
}

/// The six-bit value that a character stands for.
fn sextet_of(c: char) -> (r: Option<u8>)
    ensures
        r == sextet(c),
        r matches Some(v) ==> v < 64,
{
    if 'A' <= c && c <= 'Z' {
        Some(c as u8 - 65)
    } else if 'a' <= c && c <= 'z' {
        Some(c as u8 - 71)
    } else if '0' <= c && c <= '9' {
        Some(c as u8 + 4)
    } else if c == '+' {
        Some(62)
    } else if c == '/' {
        Some(63)
    } else {
        None
    }
}

// ---------------------------------------------------------------------------
// Sextets and octets
// ---------------------------------------------------------------------------

pub open spec fn sextet0(a: u8) -> u8 {
    a / 4
}

pub open spec fn sextet1(a: u8, b: u8) -> u8 {
    ((a % 4) * 16 + b / 16) as u8
}

pub open spec fn sextet2(b: u8, c: u8) -> u8 {
    ((b % 16) * 4 + c / 64) as u8
}

pub open spec fn sextet3(c: u8) -> u8 {
    c % 64
}

pub open spec fn octet0(p: u8, q: u8) -> u8 {
    (p * 4 + q / 16) as u8
}

pub open spec fn octet1(q: u8, r: u8) -> u8 {
    ((q % 16) * 16 + r / 4) as u8
}

pub open spec fn octet2(r: u8, s: u8) -> u8 {
    ((r % 4) * 64 + s) as u8
}

/// The bits of `bytes` in groups of six, the last one filled up with zeros.
pub open spec fn sextets(bytes: Seq<u8>) -> Seq<u8>
    decreases bytes.len(),
{
    if bytes.len() == 0 {
        Seq::empty()
    } else if bytes.len() == 1 {
        seq![sextet0(bytes[0]), sextet1(bytes[0], 0)]
    } else if bytes.len() == 2 {
        seq![sextet0(bytes[0]), sextet1(bytes[0], bytes[1]), sextet2(bytes[1], 0)]
    } else {
        seq![
            sextet0(bytes[0]),
            sextet1(bytes[0], bytes[1]),
            sextet2(bytes[1], bytes[2]),
            sextet3(bytes[2]),
        ] + sextets(bytes.skip(3))
    }
}

/// The whole octets in the bits of the six-bit values `v`.
pub open spec fn octets(v: Seq<u8>) -> Seq<u8>
    decreases v.len(),
{
    if v.len() < 2 {
        Seq::empty()
    } else if v.len() == 2 {
        seq![octet0(v[0], v[1])]
    } else if v.len() == 3 {
        seq![octet0(v[0], v[1]), octet1(v[1], v[2])]
    } else {
        seq![octet0(v[0], v[1]), octet1(v[1], v[2]), octet2(v[2], v[3])] + octets(v.skip(4))
    }
}

/// The octets of the sextets of `bytes` are `bytes`.
pub proof fn octets_of_sextets(bytes: Seq<u8>)
    ensures
        octets(sextets(bytes)) == bytes,
    decreases bytes.len(),
{
    if bytes.len() == 1 {
        assert(octets(sextets(bytes)) =~= bytes);
    } else if bytes.len() == 2 {
        assert(octets(sextets(bytes)) =~= bytes);
    } else if bytes.len() >= 3 {
        octets_of_sextets(bytes.skip(3));
        let rest = sextets(bytes.skip(3));
        assert(sextets(bytes).skip(4) =~= rest);
        assert(octets(sextets(bytes)) =~= seq![bytes[0], bytes[1], bytes[2]] + octets(rest));
        assert(bytes =~= seq![bytes[0], bytes[1], bytes[2]] + bytes.skip(3));
    } else {
        assert(bytes =~= Seq::<u8>::empty());
    }
}

proof fn sextets_in_range(bytes: Seq<u8>)
    ensures
        forall|i: int| 0 <= i < sextets(bytes).len() ==> #[trigger] sextets(bytes)[i] < 64,
    decreases bytes.len(),
{
    if bytes.len() >= 3 {
        sextets_in_range(bytes.skip(3));
        let rest = sextets(bytes.skip(3));
        assert forall|i: int| 0 <= i < sextets(bytes).len() implies #[trigger] sextets(bytes)[i]
            < 64 by {
            if i >= 4 {
                assert(sextets(bytes)[i] == rest[i - 4]);
            }
        }
    }
}

/// The whole octets in the bits of the six-bit values `v`.
fn octets_of(v: &Vec<u8>) -> (out: Vec<u8>)
    requires
        forall|i: int| 0 <= i < v.len() ==> v@[i] < 64,
    ensures
        out@ == octets(v@),
{
    let mut out: Vec<u8> = Vec::new();
    let mut i: usize = 0;
    assert(v@.skip(0) =~= v@);
    while v.len() - i >= 4
        invariant
            i <= v.len(),
            forall|k: int| 0 <= k < v.len() ==> v@[k] < 64,
            octets(v@) == out@ + octets(v@.skip(i as int)),
        decreases v.len() - i,
    {
        let ghost rest = v@.skip(i as int);
        assert(rest[0] == v@[i as int] && rest[1] == v@[i + 1] && rest[2] == v@[i + 2] && rest[3]
            == v@[i + 3]);
        let ghost before = out@;
        out.push(v[i] * 4 + v[i + 1] / 16);
        out.push((v[i + 1] % 16) * 16 + v[i + 2] / 4);
        out.push((v[i + 2] % 4) * 64 + v[i + 3]);
        assert(rest.skip(4) =~= v@.skip(i + 4));
        assert(out@ =~= before + seq![
            octet0(rest[0], rest[1]),
            octet1(rest[1], rest[2]),
            octet2(rest[2], rest[3]),
        ]);
        assert(before + (seq![
            octet0(rest[0], rest[1]),
            octet1(rest[1], rest[2]),
            octet2(rest[2], rest[3]),
        ] + octets(rest.skip(4))) =~= out@ + octets(rest.skip(4)));
        i += 4;
    }
    let ghost before = out@;
    if v.len() - i >= 2 {
        out.push(v[i] * 4 + v[i + 1] / 16);
    }
    if v.len() - i >= 3 {
        out.push((v[i + 1] % 16) * 16 + v[i + 2] / 4);
    }
    assert(out@ =~= before + octets(v@.skip(i as int)));
    out
}

// ---------------------------------------------------------------------------
// Encoding
// ---------------------------------------------------------------------------

/// The padded Base64 text of `bytes`.
pub open spec fn encoded(bytes: Seq<u8>) -> Seq<char>
    decreases bytes.len(),
{
    if bytes.len() == 0 {
        Seq::empty()
    } else if bytes.len() == 1 {
        seq![symbol(sextet0(bytes[0])), symbol(sextet1(bytes[0], 0)), '=', '=']
    } else if bytes.len() == 2 {
        seq![
            symbol(sextet0(bytes[0])),
            symbol(sextet1(bytes[0], bytes[1])),
            symbol(sextet2(bytes[1], 0)),
            '=',
        ]
    } else {
        seq![
            symbol(sextet0(bytes[0])),
            symbol(sextet1(bytes[0], bytes[1])),
            symbol(sextet2(bytes[1], bytes[2])),
            symbol(sextet3(bytes[2])),
        ] + encoded(bytes.skip(3))
    }
}

/// The padded Base64 text of `input`.
pub fn base64_encode(input: &[u8]) -> (out: String)
    ensures
        out@ == encoded(input@),
{
    let mut out = String::new();
    let mut i: usize = 0;
    assert(input@.skip(0) =~= input@);
    while input.len() - i >= 3
        invariant
            i <= input.len(),
            encoded(input@) == out@ + encoded(input@.skip(i as int)),
        decreases input.len() - i,
    {
        let ghost rest = input@.skip(i as int);
        let ghost before = out@;
        let a: u8 = input[i];
        let b: u8 = input[i + 1];
        let c: u8 = input[i + 2];
        assert(rest[0] == a && rest[1] == b && rest[2] == c);
        out.push(symbol_of(a / 4));
        out.push(symbol_of((a % 4) * 16 + b / 16));
        out.push(symbol_of((b % 16) * 4 + c / 64));
        out.push(symbol_of(c % 64));
        assert(rest.skip(3) =~= input@.skip(i + 3));
        let ghost group = seq![
            symbol(sextet0(a)),
            symbol(sextet1(a, b)),
            symbol(sextet2(b, c)),
            symbol(sextet3(c)),
        ];
        assert(out@ =~= before + group);
        assert(before + (group + encoded(rest.skip(3))) =~= out@ + encoded(rest.skip(3)));
        i += 3;
    }
    let ghost before = out@;
    let ghost rest = input@.skip(i as int);
    if input.len() - i == 1 {
        let a: u8 = input[i];
        out.push(symbol_of(a / 4));
        out.push(symbol_of((a % 4) * 16));
        out.push('=');
        out.push('=');
    } else if input.len() - i == 2 {
        let a: u8 = input[i];
        let b: u8 = input[i + 1];
        out.push(symbol_of(a / 4));
        out.push(symbol_of((a % 4) * 16 + b / 16));
        out.push(symbol_of((b % 16) * 4));
        out.push('=');
    }
    assert(out@ =~= before + encoded(rest));
    out
}

// ---------------------------------------------------------------------------
// Decoding
// ---------------------------------------------------------------------------

/// The characters of `s` that are not padding.
pub open spec fn unpadded(s: Seq<char>) -> Seq<char>
    decreases s.len(),
{
    if s.len() == 0 {
        Seq::empty()
    } else if s.last() == '=' {
        unpadded(s.drop_last())
    } else {
        unpadded(s.drop_last()).push(s.last())
    }
}

/// The six-bit values of the characters of `s` that stand for one.
pub open spec fn sextets_in(s: Seq<char>) -> Seq<u8>
    decreases s.len(),
{
    if s.len() == 0 {
        Seq::empty()
    } else {
        match sextet(s.last()) {
            Some(v) => sextets_in(s.drop_last()).push(v),
            None => sextets_in(s.drop_last()),
        }
    }
}

/// The bytes of a Base64 text, padding ignored wherever it stands. A text with
/// another character, or with a lone last character, has none.
pub open spec fn decoded(s: Seq<char>) -> Option<Seq<u8>> {
    let symbols = unpadded(s);
    if symbols.len() % 4 == 1 || exists|i: int|
        0 <= i < symbols.len() && #[trigger] sextet(symbols[i]) is None {
        None
    } else {
        Some(octets(sextets_in(symbols)))
    }
}

/// The part of `s` before the first padding character.
pub open spec fn before_padding(s: Seq<char>) -> Seq<char>
    decreases s.len(),
{
    if s.len() == 0 || s[0] == '=' {
        Seq::empty()
    } else {
        seq![s[0]] + before_padding(s.skip(1))
    }
}

/// The bytes of the Base64 characters before the first padding; every other
/// character is skipped, and so is a lone last one.
pub open spec fn leniently_decoded(s: Seq<char>) -> Seq<u8> {
    octets(sextets_in(before_padding(s)))
}

/// The bytes of a Base64 text, padding ignored wherever it stands. A text with
/// another character, or with a lone last character, has none.
pub fn base64_decode(input: &str) -> (r: Option<Vec<u8>>)
    ensures
        match r {
            Some(bytes) => decoded(input@) == Some(bytes@),
            None => decoded(input@) is None,
        },
{
    let cs = chars_of(input);
    let mut symbols: Ghost<Seq<char>> = Ghost(Seq::empty());
    let mut values: Vec<u8> = Vec::new();
    let mut i: usize = 0;
    let mut foreign = false;
    while i < cs.len()
        invariant
            i <= cs.len(),
            cs@ == input@,
            symbols@ == unpadded(cs@.take(i as int)),
            foreign <==> exists|k: int| 0 <= k < symbols@.len() && #[trigger] sextet(symbols@[k]) is None,
            values@ == sextets_in(symbols@),
            !foreign ==> values.len() == symbols@.len(),
            forall|k: int| 0 <= k < values.len() ==> values@[k] < 64,
        decreases cs.len() - i,
    {
        let c: char = cs[i];
        assert(cs@.take(i + 1).drop_last() =~= cs@.take(i as int));
        if c != '=' {
            let ghost before = symbols@;
            proof {
                symbols@ = before.push(c);
                assert(symbols@.drop_last() =~= before);
                assert(forall|k: int| 0 <= k < before.len() ==> symbols@[k] == before[k]);
                assert(symbols@[before.len() as int] == c);
            }
            match sextet_of(c) {
                Some(v) => values.push(v),
                None => {
                    foreign = true;
                },
            }
            proof {
                if exists|k: int| 0 <= k < before.len() && #[trigger] sextet(before[k]) is None {
                    let k = choose|k: int| 0 <= k < before.len() && #[trigger] sextet(before[k]) is None;
                    assert(sextet(symbols@[k]) is None);
                }
            }
        }
        i += 1;
    }
    assert(cs@.take(cs.len() as int) =~= cs@);
    if foreign || values.len() % 4 == 1 {
        return None;
    }
    Some(octets_of(&values))
}

/// The bytes of the Base64 characters before the first padding; every other
/// character is skipped, and so is a lone last one.
pub fn base64_decode_lenient(input: &str) -> (r: Vec<u8>)
    ensures
        r@ == leniently_decoded(input@),
{
    let cs = chars_of(input);
    let mut values: Vec<u8> = Vec::new();
    let mut i: usize = 0;
    assert(cs@.skip(0) =~= cs@);
    assert(cs@.take(0) + before_padding(cs@) =~= before_padding(cs@));
    while i < cs.len() && cs[i] != '='
        invariant
            i <= cs.len(),
            cs@ == input@,
            before_padding(cs@) == cs@.take(i as int) + before_padding(cs@.skip(i as int)),
            values@ == sextets_in(cs@.take(i as int)),
            forall|k: int| 0 <= k < values.len() ==> values@[k] < 64,
        ensures
            i <= cs.len(),
            before_padding(cs@) == cs@.take(i as int),
            values@ == sextets_in(cs@.take(i as int)),
            forall|k: int| 0 <= k < values.len() ==> values@[k] < 64,
        decreases cs.len() - i,
    {
        let c: char = cs[i];
        proof {
            let rest = cs@.skip(i as int);
            assert(rest.skip(1) =~= cs@.skip(i + 1));
            assert(cs@.take(i as int) + (seq![c] + before_padding(rest.skip(1))) =~= cs@.take(i + 1)
                + before_padding(cs@.skip(i + 1)));
            assert(cs@.take(i + 1).drop_last() =~= cs@.take(i as int));
        }
        if let Some(v) = sextet_of(c) {
            values.push(v);
        }
        i += 1;
        proof {
            if i == cs.len() || cs@[i as int] == '=' {
                assert(cs@.take(i as int) + before_padding(cs@.skip(i as int)) =~= cs@.take(i as int));
            }
        }
    }
    octets_of(&values)
}

// ---------------------------------------------------------------------------
// Round trip
// ---------------------------------------------------------------------------

proof fn unpadded_append(a: Seq<char>, b: Seq<char>)
    ensures
        unpadded(a + b) == unpadded(a) + unpadded(b),
    decreases b.len(),
{
    if b.len() == 0 {
        assert(a + b =~= a);
        assert(unpadded(a) + unpadded(b) =~= unpadded(a));
    } else {
        unpadded_append(a, b.drop_last());
        assert((a + b).drop_last() =~= a + b.drop_last());
        assert(unpadded(a + b) =~= unpadded(a) + unpadded(b));
    }
}

/// The characters of the six-bit values `v`.
pub open spec fn symbols_of(v: Seq<u8>) -> Seq<char> {
    v.map_values(|x: u8| symbol(x))
}

proof fn symbols_have_their_values(v: Seq<u8>)
    requires
        forall|i: int| 0 <= i < v.len() ==> v[i] < 64,
    ensures
        sextets_in(symbols_of(v)) == v,
        forall|i: int|
            0 <= i < symbols_of(v).len() ==> #[trigger] sextet(symbols_of(v)[i]) is Some
                && symbols_of(v)[i] != '=',
    decreases v.len(),
{
    if v.len() > 0 {
        symbols_have_their_values(v.drop_last());
        assert(symbols_of(v).drop_last() =~= symbols_of(v.drop_last()));
        assert(symbols_of(v).last() == symbol(v.last()));
        assert(v =~= v.drop_last().push(v.last()));
    }
}

proof fn unpadded_group(g: Seq<char>)
    requires
        g.len() == 4,
        g[0] != '=',
        g[1] != '=',
        g[2] == '=' ==> g[3] == '=',
    ensures
        unpadded(g) == (if g[2] == '=' {
            g.take(2)
        } else if g[3] == '=' {
            g.take(3)
        } else {
            g
        }),
{
    reveal_with_fuel(unpadded, 5);
    let g3 = g.drop_last();
    let g2 = g3.drop_last();
    let g1 = g2.drop_last();
    let g0 = g1.drop_last();
    assert(g0 =~= Seq::empty());
    assert(unpadded(g1) =~= seq![g[0]]);
    assert(unpadded(g2) =~= g.take(2));
    if g[2] != '=' {
        assert(unpadded(g3) =~= g.take(3));
        if g[3] != '=' {
            assert(unpadded(g) =~= g);
        }
    }
}

proof fn unpadded_encoded(bytes: Seq<u8>)
    ensures
        unpadded(encoded(bytes)) == symbols_of(sextets(bytes)),
    decreases bytes.len(),
{
    if bytes.len() == 0 {
        assert(symbols_of(sextets(bytes)) =~= Seq::empty());
    } else if bytes.len() <= 2 {
        unpadded_group(encoded(bytes));
        assert(unpadded(encoded(bytes)) =~= symbols_of(sextets(bytes)));
    } else {
        let rest = bytes.skip(3);
        unpadded_encoded(rest);
        let group = encoded(bytes).take(4);
        assert(encoded(bytes) =~= group + encoded(rest));
        unpadded_group(group);
        unpadded_append(group, encoded(rest));
        assert(symbols_of(sextets(bytes)) =~= group + symbols_of(sextets(rest)));
    }
}

proof fn sextet_count(bytes: Seq<u8>)
    ensures
        sextets(bytes).len() % 4 != 1,
    decreases bytes.len(),
{
    if bytes.len() >= 3 {
        sextet_count(bytes.skip(3));
    }
}

/// Decoding the Base64 text of bytes gives the bytes back.
pub proof fn decode_encode(bytes: Seq<u8>)
    ensures
        decoded(encoded(bytes)) == Some(bytes),
{
    unpadded_encoded(bytes);
    sextets_in_range(bytes);
    symbols_have_their_values(sextets(bytes));
    sextet_count(bytes);
    octets_of_sextets(bytes);
}

proof fn before_padding_prefix(a: Seq<char>, b: Seq<char>)
    requires
        forall|i: int| 0 <= i < a.len() ==> a[i] != '=',
        b.len() > 0 ==> b[0] == '=',
    ensures
        before_padding(a + b) == a,
    decreases a.len(),
{
    if a.len() == 0 {
        assert(a + b =~= b);
        assert(a =~= Seq::empty());
    } else {
        before_padding_prefix(a.skip(1), b);
        assert((a + b).skip(1) =~= a.skip(1) + b);
        assert(seq![a[0]] + a.skip(1) =~= a);
    }
}

proof fn encoded_is_symbols_then_padding(bytes: Seq<u8>)
    ensures
        exists|pad: Seq<char>|
            #[trigger] (symbols_of(sextets(bytes)) + pad) == encoded(bytes) && (pad.len() > 0 ==> pad[0]
                == '='),
    decreases bytes.len(),
{
    let v = symbols_of(sextets(bytes));
    if bytes.len() == 0 {
        assert(v + Seq::<char>::empty() =~= encoded(bytes));
    } else if bytes.len() == 1 {
        assert(v + seq!['=', '='] =~= encoded(bytes));
    } else if bytes.len() == 2 {
        assert(v + seq!['='] =~= encoded(bytes));
    } else {
        let rest = bytes.skip(3);
        encoded_is_symbols_then_padding(rest);
        let pad = choose|pad: Seq<char>|
            #[trigger] (symbols_of(sextets(rest)) + pad) == encoded(rest) && (pad.len() > 0 ==> pad[0]
                == '=');
        let group = encoded(bytes).take(4);
        assert(encoded(bytes) =~= group + encoded(rest));
        assert(v =~= group + symbols_of(sextets(rest)));
        assert(v + pad =~= encoded(bytes));
    }
}

/// The lenient decoder gives bytes back from their Base64 text, too.
pub proof fn lenient_decode_encode(bytes: Seq<u8>)
    ensures
        leniently_decoded(encoded(bytes)) == bytes,
{
    let v = symbols_of(sextets(bytes));
    encoded_is_symbols_then_padding(bytes);
    let pad = choose|pad: Seq<char>|
        #[trigger] (v + pad) == encoded(bytes) && (pad.len() > 0 ==> pad[0] == '=');
    sextets_in_range(bytes);
    symbols_have_their_values(sextets(bytes));
    before_padding_prefix(v, pad);
    octets_of_sextets(bytes);
}

// ---------------------------------------------------------------------------
// Data URIs
// ---------------------------------------------------------------------------

/// `String::from_utf8`: the text of bytes that are UTF-8, and `None` for others.
#[verifier::external_body]
pub(crate) fn utf8_text(bytes: Vec<u8>) -> (r: Option<String>)
    ensures
        match r {
            Some(s) => valid_utf8(bytes@) && s@ == decode_utf8(bytes@),
            None => !valid_utf8(bytes@),
        },
{
    String::from_utf8(bytes).ok()
}

/// The longest prefix of `text` whose UTF-8 form has at most `max` bytes.
pub open spec fn clipped(text: Seq<char>, max: nat) -> Seq<char>
    decreases text.len(),
{
    if text.len() == 0 || encode_utf8(text).len() <= max {
        text
    } else {
        clipped(text.drop_last(), max)
    }
}

proof fn encode_append(a: Seq<char>, b: Seq<char>)
    ensures
        encode_utf8(a + b) == encode_utf8(a) + encode_utf8(b),
    decreases a.len(),
{
    if a.len() == 0 {
        assert(a + b =~= b);
        assert(encode_utf8(a) + encode_utf8(b) =~= encode_utf8(b));
    } else {
        encode_append(a.drop_first(), b);
        assert((a + b).drop_first() =~= a.drop_first() + b);
        assert(encode_utf8(a + b) =~= encode_utf8(a) + encode_utf8(b));
    }
}

proof fn clipped_at(text: Seq<char>, n: int, max: nat)
    requires
        0 <= n <= text.len(),
        encode_utf8(text.take(n)).len() <= max,
        n < text.len() ==> encode_utf8(text.take(n + 1)).len() > max,
    ensures
        clipped(text, max) == text.take(n),
    decreases text.len(),
{
    if n == text.len() {
        assert(text.take(n) =~= text);
    } else {
        assert(text =~= text.take(n + 1) + text.skip(n + 1));
        encode_append(text.take(n + 1), text.skip(n + 1));
        let shorter = text.drop_last();
        assert(shorter.take(n) =~= text.take(n));
        if n + 1 <= shorter.len() {
            assert(shorter.take(n + 1) =~= text.take(n + 1));
        }
        clipped_at(shorter, n, max);
    }
}

/// The number of bytes in the UTF-8 form of `c`.
fn utf8_width(c: char) -> (r: usize)
    ensures
        r == encode_utf8(seq![c]).len(),
        1 <= r <= 4,
{
    let n: u32 = c as u32;
    proof {
        reveal_with_fuel(encode_utf8, 2);
        assert(seq![c].drop_first() =~= Seq::empty());
    }
    if n <= 0x7f {
        1
    } else if n <= 0x7ff {
        2
    } else if n <= 0xffff {
        3
    } else {
        4
    }
}

/// The longest prefix of `text` whose UTF-8 form has at most `max` bytes.
pub fn clip(text: &str, max: usize) -> (r: String)
    ensures
        r@ == clipped(text@, max as nat),
{
    let cs = chars_of(text);
    let mut n: usize = 0;
    let mut used: usize = 0;
    assert(cs@.take(0) =~= Seq::empty());
    while n < cs.len()
        invariant
            n <= cs.len(),
            cs@ == text@,
            used <= max,
            used == encode_utf8(cs@.take(n as int)).len(),
        decreases cs.len() - n,
    {
        let w: usize = utf8_width(cs[n]);
        proof {
            assert(cs@.take(n + 1) =~= cs@.take(n as int) + seq![cs@[n as int]]);
            encode_append(cs@.take(n as int), seq![cs@[n as int]]);
        }
        if w > max - used {
            proof {
                clipped_at(text@, n as int, max as nat);
                assert(cs@.subrange(0, n as int) =~= cs@.take(n as int));
            }
            return text_of(&cs, 0, n);
        }
        used += w;
        n += 1;
    }
    proof {
        clipped_at(text@, n as int, max as nat);
        assert(cs@.subrange(0, n as int) =~= cs@.take(n as int));
    }
    text_of(&cs, 0, n)
}

/// The `data:` URI of plain text, clipped to `max` bytes.
pub open spec fn text_uri(text: Seq<char>, max: nat) -> Seq<char> {
    "data:text/plain;base64,"@ + encoded(encode_utf8(clipped(text, max)))
}

/// The `data:` URI of plain text, clipped to `max` bytes.
pub fn data_uri(text: &str, max: usize) -> (r: String)
    ensures
        r@ == text_uri(text@, max as nat),
{
    let short = clip(text, max);
    let mut out = "data:text/plain;base64,".to_owned();
    out.append(base64_encode(short.as_str().as_bytes()).as_str());
    out
}

/// The text that a `data:<mime>;base64,<body>` URI carries.
pub open spec fn uri_text(uri: Seq<char>) -> Option<Seq<char>> {
    match split_at_first(uri, ";base64,"@) {
        Some((_, body)) => match decoded(body) {
            Some(bytes) => if valid_utf8(bytes) {
                Some(decode_utf8(bytes))
            } else {
                None
            },
            None => None,
        },
        None => None,
    }
}

/// The text that a `data:<mime>;base64,<body>` URI carries.
pub fn decode_data_uri(uri: &str) -> (r: Option<String>)
    ensures
        match r {
            Some(t) => uri_text(uri@) == Some(t@),
            None => uri_text(uri@) is None,
        },
{
    match split_once(uri, ";base64,") {
        Some(parts) => match base64_decode(parts.1.as_str()) {
            Some(bytes) => utf8_text(bytes),
            None => None,
        },
        None => None,
    }
}

/// A `data:` URI of plain text carries that text, up to the clipping.
pub proof fn uri_carries_its_text(text: Seq<char>, max: nat)
    ensures
        uri_text(text_uri(text, max)) == Some(clipped(text, max)),
{
    let short = clipped(text, max);
    let body = encoded(encode_utf8(short));
    let head = "data:text/plain"@;
    let mark = ";base64,"@;
    let uri = text_uri(text, max);
    reveal_strlit("data:text/plain;base64,");
    reveal_strlit("data:text/plain");
    reveal_strlit(";base64,");
    assert("data:text/plain;base64,"@ =~= head + mark);
    assert forall|i: int| 0 <= i < 15 implies !occurs_at(uri, mark, i) by {
        if occurs_at(uri, mark, i) {
            assert(uri.subrange(i, i + mark.len())[0] == uri[i]);
            assert(uri[i] == head[i]);
        }
    }
    assert(uri.subrange(15, 23) =~= mark);
    assert(occurs_at(uri, mark, 15));
    find_is_first(uri, mark, 0);
    assert(find(uri, mark) is Some);
    let at = find(uri, mark).unwrap();
    assert(at == 15) by {
        if at < 15 {
            assert(!occurs_at(uri, mark, at));
        }
    }
    assert(uri.skip(23) =~= body);
    decode_encode(encode_utf8(short));
    vstd::utf8::encode_utf8_valid_utf8(short);
    vstd::utf8::encode_utf8_decode_utf8(short);
}

} // verus!
