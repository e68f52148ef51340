//! What Base64 texts and the URIs that carry them look like.

use vstd::prelude::*;
use vstd::utf8::encode_utf8;

use crate::base64::{
    before_padding, clipped, decoded, encoded, leniently_decoded, sextet, symbol, text_uri,
    unpadded,
};

verus! {

/// The value of each of the 64 characters is its place in the alphabet.
pub proof fn characters_stand_in_the_alphabet(v: u8)
    requires
        v < 64,
    ensures
        symbol(v) == "ABCDEFGHIJKLMNOPQRSTUVWXYZabcdefghijklmnopqrstuvwxyz0123456789+/"@[v as int],
{
    reveal_strlit("ABCDEFGHIJKLMNOPQRSTUVWXYZabcdefghijklmnopqrstuvwxyz0123456789+/");
    let a = "ABCDEFGHIJKLMNOPQRSTUVWXYZabcdefghijklmnopqrstuvwxyz0123456789+/"@;
    assert(a[0] == 'A');
    assert(a[1] == 'B');
    assert(a[2] == 'C');
    assert(a[3] == 'D');
    assert(a[4] == 'E');
    assert(a[5] == 'F');
    assert(a[6] == 'G');
    assert(a[7] == 'H');
    assert(a[8] == 'I');
    assert(a[9] == 'J');
    assert(a[10] == 'K');
    assert(a[11] == 'L');
    assert(a[12] == 'M');
    assert(a[13] == 'N');
    assert(a[14] == 'O');
    assert(a[15] == 'P');
    assert(a[16] == 'Q');
    assert(a[17] == 'R');
    assert(a[18] == 'S');
    assert(a[19] == 'T');
    assert(a[20] == 'U');
    assert(a[21] == 'V');
    assert(a[22] == 'W');
    assert(a[23] == 'X');
    assert(a[24] == 'Y');
    assert(a[25] == 'Z');
    assert(a[26] == 'a');
    assert(a[27] == 'b');
    assert(a[28] == 'c');
    assert(a[29] == 'd');
    assert(a[30] == 'e');
    assert(a[31] == 'f');
    assert(a[32] == 'g');
    assert(a[33] == 'h');
    assert(a[34] == 'i');
    assert(a[35] == 'j');
    assert(a[36] == 'k');
    assert(a[37] == 'l');
    assert(a[38] == 'm');
    assert(a[39] == 'n');
    assert(a[40] == 'o');
    assert(a[41] == 'p');
    assert(a[42] == 'q');
    assert(a[43] == 'r');
    assert(a[44] == 's');
    assert(a[45] == 't');
    assert(a[46] == 'u');
    assert(a[47] == 'v');
    assert(a[48] == 'w');
    assert(a[49] == 'x');
    assert(a[50] == 'y');
    assert(a[51] == 'z');
    assert(a[52] == '0');
    assert(a[53] == '1');
    assert(a[54] == '2');
    assert(a[55] == '3');
    assert(a[56] == '4');
    assert(a[57] == '5');
    assert(a[58] == '6');
    assert(a[59] == '7');
    assert(a[60] == '8');
    assert(a[61] == '9');
    assert(a[62] == '+');
    assert(a[63] == '/');
}

/// Three bytes stand in four characters with the same bits, and what follows stands behind them. A
/// last byte stands in two characters and two signs of padding, the last two bytes in three
/// characters and one.
pub proof fn bytes_stand_in_characters(a: u8, b: u8, c: u8, rest: Seq<u8>)
    ensures
        encoded(Seq::empty()).len() == 0,
        ({
            let s = encoded(seq![a, b, c] + rest);
            exists|p: u8, q: u8, r: u8, t: u8|
                #![trigger symbol(p), symbol(q), symbol(r), symbol(t)]
                p < 64 && q < 64 && r < 64 && t < 64 && p * 262144 + q * 4096 + r * 64 + t == a * 65536 + b
                    * 256 + c && s == seq![symbol(p), symbol(q), symbol(r), symbol(t)] + encoded(rest)
        }),
        ({
            let s = encoded(seq![a, b]);
            exists|p: u8, q: u8, r: u8|
                #![trigger symbol(p), symbol(q), symbol(r)]
                p < 64 && q < 64 && r < 64 && p * 4096 + q * 64 + r == (a * 256 + b) * 4 && s == seq![
                    symbol(p),
                    symbol(q),
                    symbol(r),
                    '=',
                ]
        }),
        ({
            let s = encoded(seq![a]);
            exists|p: u8, q: u8|
                #![trigger symbol(p), symbol(q)]
                p < 64 && q < 64 && p * 64 + q == a * 16 && s == seq![symbol(p), symbol(q), '=', '=']
        }),
{
    assert((seq![a, b, c] + rest).skip(3) =~= rest);
    let p = (a / 4) as u8;
    let q = ((a % 4) * 16 + b / 16) as u8;
    let r = ((b % 16) * 4 + c / 64) as u8;
    let t = (c % 64) as u8;
    let s = encoded(seq![a, b, c] + rest);
    assert(s =~= seq![symbol(p), symbol(q), symbol(r), symbol(t)] + encoded(rest));
    let q1 = ((a % 4) * 16) as u8;
    let r1 = ((b % 16) * 4) as u8;
    assert(encoded(seq![a, b]) =~= seq![symbol(p), symbol(q), symbol(r1), '=']);
    assert(encoded(seq![a]) =~= seq![symbol(p), symbol(q1), '=', '=']);
}

/// A text that fits is not clipped; one that does not is cut to the longest beginning that fits.
pub proof fn texts_are_clipped_to_fit(text: Seq<char>, max: nat)
    ensures
        encode_utf8(text).len() <= max ==> clipped(text, max) == text,
        clipped(text, max).len() <= text.len(),
        clipped(text, max) == text.take(clipped(text, max).len() as int),
        clipped(text, max).len() > 0 ==> encode_utf8(clipped(text, max)).len() <= max,
        clipped(text, max).len() < text.len() ==> encode_utf8(
            text.take(clipped(text, max).len() as int + 1),
        ).len() > max,
        text_uri(text, max) == "data:text/plain;base64,"@ + encoded(encode_utf8(clipped(text, max))),
    decreases text.len(),
{
    assert(text.take(text.len() as int) =~= text);
    if text.len() > 0 && encode_utf8(text).len() > max {
        let less = text.drop_last();
        texts_are_clipped_to_fit(less, max);
        let n = clipped(less, max).len() as int;
        assert(less.take(n) =~= text.take(n));
        if n < less.len() {
            assert(less.take(n + 1) =~= text.take(n + 1));
        } else {
            assert(text.take(n + 1) =~= text);
        }
    }
}

/// Whether `c` is one of the 64 characters.
pub open spec fn is_symbol(c: char) -> bool {
    'A' <= c <= 'Z' || 'a' <= c <= 'z' || '0' <= c <= '9' || c == '+' || c == '/'
}

proof fn symbols_stay(s: Seq<char>, i: int)
    requires
        0 <= i < s.len(),
        s[i] != '=',
    ensures
        unpadded(s).contains(s[i]),
    decreases s.len(),
{
    let front = s.drop_last();
    if i < front.len() {
        symbols_stay(front, i);
        let n = choose|n: int| 0 <= n < unpadded(front).len() && unpadded(front)[n] == s[i];
        assert(unpadded(s)[n] == s[i]);
    } else {
        assert(unpadded(s).last() == s[i]);
    }
}

/// A text with a character that is neither one of the 64 nor padding has no bytes.
pub proof fn strange_texts_have_no_bytes(s: Seq<char>, i: int)
    requires
        0 <= i < s.len(),
        !is_symbol(s[i]),
        s[i] != '=',
    ensures
        decoded(s) is None,
{
    symbols_stay(s, i);
    let all = unpadded(s);
    let n = choose|n: int| 0 <= n < all.len() && all[n] == s[i];
    assert(sextet(all[n]) is None);
}

/// Padding does not count wherever it stands, and a lone last character has no bytes.
pub proof fn padding_does_not_count(s: Seq<char>)
    ensures
        decoded(s.push('=')) == decoded(s),
        unpadded(s).len() % 4 == 1 ==> decoded(s) is None,
{
    assert(s.push('=').drop_last() =~= s);
}

proof fn padding_ends(s: Seq<char>, rest: Seq<char>)
    requires
        forall|i: int| 0 <= i < s.len() ==> #[trigger] s[i] != '=',
    ensures
        before_padding(s) == s,
        before_padding(s + seq!['='] + rest) == s,
    decreases s.len(),
{
    let whole = s + seq!['='] + rest;
    if s.len() == 0 {
        assert(whole[0] == '=');
        assert(before_padding(s) =~= s);
        assert(before_padding(whole) =~= s);
    } else {
        let less = s.skip(1);
        assert forall|i: int| 0 <= i < less.len() implies #[trigger] less[i] != '=' by {
            assert(less[i] == s[i + 1]);
        }
        padding_ends(less, rest);
        assert(whole[0] == s[0]);
        assert(whole.skip(1) =~= less + seq!['='] + rest);
        assert(seq![s[0]] + less =~= s);
    }
}

/// The lenient decoder stops at the first padding and passes over every character that is none of
/// the 64.
pub proof fn lenient_decoding_passes_over(s: Seq<char>, c: char, rest: Seq<char>)
    requires
        forall|i: int| 0 <= i < s.len() ==> #[trigger] s[i] != '=',
        !is_symbol(c),
        c != '=',
    ensures
        leniently_decoded(s + seq!['='] + rest) == leniently_decoded(s),
        leniently_decoded(s.push(c)) == leniently_decoded(s),
{
    padding_ends(s, rest);
    let more = s.push(c);
    assert forall|i: int| 0 <= i < more.len() implies #[trigger] more[i] != '=' by {
        if i < s.len() {
            assert(more[i] == s[i]);
        }
    }
    padding_ends(more, rest);
    assert(more.drop_last() =~= s);
}

} // verus!
