//! What the operations on texts give, by what they leave out and put together.

use vstd::prelude::*;

use crate::text::{
    after_prefix, all_digits, begins_with, decimal, digit, digits_value, find, find_from,
    finishes_with, is_space, joined, lines_of, lowered, numeral, occurs_at, pieces, raised,
    replaced, rfind_from, signed_decimal, space_class, split_at_first, text_less, trim_left,
    trim_right, trimmed, without_leading, without_trailing,
};

verus! {

/// Whether `c` stands nowhere in `s`.
pub open spec fn lacks(s: Seq<char>, c: char) -> bool {
    forall|i: int| 0 <= i < s.len() ==> #[trigger] s[i] != c
}

// ---------------------------------------------------------------------------
// Places
// ---------------------------------------------------------------------------

/// The first place of `p` from `i` on is the one before which it stands nowhere.
pub proof fn first_places_are_found(s: Seq<char>, p: Seq<char>, i: int, n: int)
    requires
        0 <= i <= n,
        occurs_at(s, p, n),
        forall|j: int| i <= j < n ==> !occurs_at(s, p, j),
    ensures
        find_from(s, p, i) == Some(n),
    decreases n - i,
{
    if i < n {
        assert(!occurs_at(s, p, i));
        first_places_are_found(s, p, i + 1, n);
    }
}

/// The last place of `p` up to `i` is the one behind which it stands nowhere.
pub proof fn last_places_are_found(s: Seq<char>, p: Seq<char>, i: int, n: int)
    requires
        0 <= n <= i,
        occurs_at(s, p, n),
        forall|j: int| n < j <= i ==> !occurs_at(s, p, j),
    ensures
        rfind_from(s, p, i) == Some(n),
    decreases i - n,
{
    if n < i {
        assert(!occurs_at(s, p, i));
        last_places_are_found(s, p, i - 1, n);
    }
}

/// A text begins with `p` exactly where it is `p` and something behind it, and ends with `p` where
/// it is something and `p`.
pub proof fn beginnings_and_ends(p: Seq<char>, rest: Seq<char>, s: Seq<char>)
    ensures
        begins_with(p + rest, p),
        after_prefix(p + rest, p) == Some(rest),
        finishes_with(rest + p, p),
        begins_with(s, p) ==> s == p + s.skip(p.len() as int),
        finishes_with(s, p) ==> s == s.take(s.len() - p.len()) + p,
        !begins_with(s, p) ==> after_prefix(s, p) is None,
{
    assert((p + rest).subrange(0, p.len() as int) =~= p);
    assert((p + rest).skip(p.len() as int) =~= rest);
    let e = rest + p;
    assert(e.subrange(e.len() - p.len(), e.len() as int) =~= p);
    if begins_with(s, p) {
        assert(s =~= s.subrange(0, p.len() as int) + s.skip(p.len() as int));
    }
    if finishes_with(s, p) {
        let n = s.len() - p.len();
        assert(n + p.len() == s.len());
        assert(s =~= s.take(n) + s.subrange(n, n + p.len()));
    }
}

/// A text is parted at the first place of a sign into what stands before and behind it.
pub proof fn texts_are_parted(front: Seq<char>, c: char, rest: Seq<char>)
    requires
        lacks(front, c),
    ensures
        split_at_first(front + seq![c] + rest, seq![c]) == Some((front, rest)),
        split_at_first(front, seq![c]) is None,
{
    let s = front + seq![c] + rest;
    let n = front.len() as int;
    assert(s.subrange(n, n + 1) =~= seq![c]);
    assert(occurs_at(s, seq![c], n));
    assert forall|j: int| 0 <= j < n implies !occurs_at(s, seq![c], j) by {
        assert(s[j] == front[j]);
        if occurs_at(s, seq![c], j) {
            assert(s.subrange(j, j + 1)[0] == s[j]);
        }
    }
    first_places_are_found(s, seq![c], 0, n);
    assert(s.take(n) =~= front);
    assert(s.skip(n + 1) =~= rest);
    crate::text::find_is_first(front, seq![c], 0);
    if find(front, seq![c]) is Some {
        let i = find(front, seq![c])->0;
        assert(front.subrange(i, i + 1)[0] == front[i]);
    }
}

// ---------------------------------------------------------------------------
// Spaces and ends
// ---------------------------------------------------------------------------

/// Whether every character of `s` is a space.
pub open spec fn is_blank(s: Seq<char>) -> bool {
    forall|i: int| 0 <= i < s.len() ==> is_space(#[trigger] s[i])
}

proof fn left_is_trimmed(a: Seq<char>, s: Seq<char>)
    requires
        is_blank(a),
        s.len() == 0 || !is_space(s[0]),
    ensures
        trim_left(a + s, space_class()) == s,
    decreases a.len(),
{
    let class = space_class();
    if a.len() == 0 {
        assert(a + s =~= s);
        assert(s.len() > 0 ==> class(s[0]) == is_space(s[0]));
    } else {
        assert((a + s)[0] == a[0]);
        assert(class(a[0]) == is_space(a[0]));
        assert((a + s).skip(1) =~= a.skip(1) + s);
        assert forall|i: int| 0 <= i < a.skip(1).len() implies is_space(#[trigger] a.skip(1)[i]) by {
            assert(a.skip(1)[i] == a[i + 1]);
        }
        left_is_trimmed(a.skip(1), s);
    }
}

proof fn right_is_trimmed(s: Seq<char>, b: Seq<char>)
    requires
        is_blank(b),
        s.len() == 0 || !is_space(s.last()),
    ensures
        trim_right(s + b, space_class()) == s,
    decreases b.len(),
{
    let class = space_class();
    if b.len() == 0 {
        assert(s + b =~= s);
        assert(s.len() > 0 ==> class(s.last()) == is_space(s.last()));
    } else {
        assert((s + b).last() == b[b.len() - 1]);
        assert(class(b.last()) == is_space(b.last()));
        assert((s + b).drop_last() =~= s + b.drop_last());
        assert forall|i: int| 0 <= i < b.drop_last().len() implies is_space(
            #[trigger] b.drop_last()[i],
        ) by {
            assert(b.drop_last()[i] == b[i]);
        }
        right_is_trimmed(s, b.drop_last());
    }
}

/// A trimmed text has lost the spaces before and behind it, and nothing else.
pub proof fn spaces_are_trimmed(a: Seq<char>, s: Seq<char>, b: Seq<char>)
    requires
        is_blank(a),
        is_blank(b),
        s.len() > 0 ==> !is_space(s[0]) && !is_space(s.last()),
    ensures
        trimmed(a + s + b) == s,
        trimmed(s) == s,
{
    if s.len() == 0 {
        let all = a + s + b;
        assert forall|i: int| 0 <= i < all.len() implies is_space(#[trigger] all[i]) by {
            if i < a.len() {
                assert(all[i] == a[i]);
            } else {
                assert(all[i] == b[i - a.len()]);
            }
        }
        assert(all + Seq::<char>::empty() =~= all);
        left_is_trimmed(all, Seq::empty());
        assert(Seq::<char>::empty() + Seq::<char>::empty() =~= Seq::<char>::empty());
        right_is_trimmed(Seq::empty(), Seq::empty());
        left_is_trimmed(Seq::empty(), Seq::empty());
        assert(s =~= Seq::empty());
    } else {
        assert(a + s + b =~= a + (s + b));
        assert((s + b)[0] == s[0]);
        left_is_trimmed(a, s + b);
        right_is_trimmed(s, b);
        assert(Seq::<char>::empty() + s =~= s);
        assert(s + Seq::<char>::empty() =~= s);
        left_is_trimmed(Seq::empty(), s);
        right_is_trimmed(s, Seq::empty());
    }
}

/// The space, the tabulator and the ends of lines are spaces; no visible ASCII character is one.
pub proof fn spaces_are_known(c: char)
    ensures
        is_space(' ') && is_space('\t') && is_space('\n') && is_space('\r'),
        '!' <= c <= '~' ==> !is_space(c),
{
}

/// Every copy of `p` before or behind a text is taken away, one after the other, and a text
/// without one stays as it is.
pub proof fn copies_are_taken_away(p: Seq<char>, s: Seq<char>)
    requires
        p.len() > 0,
    ensures
        without_leading(p + s, p) == without_leading(s, p),
        without_trailing(s + p, p) == without_trailing(s, p),
        !begins_with(s, p) ==> without_leading(s, p) == s,
        !finishes_with(s, p) ==> without_trailing(s, p) == s,
{
    beginnings_and_ends(p, s, s);
    assert((p + s).skip(p.len() as int) =~= s);
    assert((s + p).take((s + p).len() - p.len()) =~= s);
}

// ---------------------------------------------------------------------------
// Pieces
// ---------------------------------------------------------------------------

/// A text without the sign is one piece.
pub proof fn whole_texts_are_one_piece(s: Seq<char>, sep: char)
    requires
        lacks(s, sep),
    ensures
        pieces(s, sep) == seq![s],
    decreases s.len(),
{
    if s.len() > 0 {
        let front = s.drop_last();
        assert forall|i: int| 0 <= i < front.len() implies #[trigger] front[i] != sep by {
            assert(front[i] == s[i]);
        }
        whole_texts_are_one_piece(front, sep);
        assert(s.last() == s[s.len() - 1]);
        assert(front.push(s.last()) =~= s);
        assert(pieces(s, sep) =~= seq![s]);
    } else {
        assert(s =~= Seq::empty());
    }
}

/// What stands behind the last sign is the last piece.
pub proof fn last_pieces_follow_the_sign(front: Seq<char>, sep: char, s: Seq<char>)
    requires
        lacks(s, sep),
    ensures
        pieces(front.push(sep) + s, sep) == pieces(front, sep).push(s),
    decreases s.len(),
{
    let whole = front.push(sep) + s;
    if s.len() == 0 {
        assert(whole =~= front.push(sep));
        assert(whole.drop_last() =~= front);
        assert(s =~= Seq::empty());
    } else {
        let less = s.drop_last();
        assert forall|i: int| 0 <= i < less.len() implies #[trigger] less[i] != sep by {
            assert(less[i] == s[i]);
        }
        last_pieces_follow_the_sign(front, sep, less);
        assert(whole.drop_last() =~= front.push(sep) + less);
        assert(whole.last() == s.last());
        assert(s.last() == s[s.len() - 1]);
        assert(less.push(s.last()) =~= s);
        assert(pieces(whole, sep) =~= pieces(front, sep).push(s));
    }
}

/// Texts without the sign that were joined by it are its pieces again.
pub proof fn joined_texts_are_pieces(parts: Seq<Seq<char>>, sep: char)
    requires
        parts.len() > 0,
        forall|i: int| 0 <= i < parts.len() ==> lacks(#[trigger] parts[i], sep),
    ensures
        pieces(joined(parts, seq![sep]), sep) == parts,
    decreases parts.len(),
{
    if parts.len() == 1 {
        assert(lacks(parts[0], sep));
        whole_texts_are_one_piece(parts[0], sep);
        assert(seq![parts[0]] =~= parts);
    } else {
        let front = parts.drop_last();
        assert forall|i: int| 0 <= i < front.len() implies lacks(#[trigger] front[i], sep) by {
            assert(lacks(parts[i], sep));
        }
        joined_texts_are_pieces(front, sep);
        let last = parts[parts.len() - 1];
        assert(lacks(last, sep));
        last_pieces_follow_the_sign(joined(front, seq![sep]), sep, last);
        assert(joined(front, seq![sep]) + seq![sep] + last =~= joined(front, seq![sep]).push(sep) + last);
        assert(front.push(last) =~= parts);
    }
}

/// The lines of a text are what stands between the ends of lines, without a carriage return at
/// their ends; a last line need not be ended.
pub proof fn lines_end_with_their_ends(front: Seq<char>, line: Seq<char>)
    requires
        lacks(line, '\n'),
        line.len() > 0,
        line.last() != '\r',
    ensures
        lines_of(Seq::empty()).len() == 0,
        lines_of(line) == seq![line],
        lines_of(line.push('\n')) == seq![line],
        lines_of(line.push('\r').push('\n')) == seq![line],
        lines_of(front.push('\n') + line) == lines_of(front.push('\n')).push(line),
{
    let empty = Seq::<char>::empty();
    let strip = |l: Seq<char>| crate::text::without_end(l, '\r');
    whole_texts_are_one_piece(empty, '\n');
    assert(seq![empty].drop_last() =~= Seq::empty());
    assert(lines_of(empty) =~= Seq::empty());
    whole_texts_are_one_piece(line, '\n');
    assert(seq![line].drop_last() =~= Seq::empty());
    assert(lines_of(line) =~= seq![line]);
    last_pieces_follow_the_sign(line, '\n', empty);
    assert(line.push('\n') + empty =~= line.push('\n'));
    assert(seq![line].push(empty).drop_last() =~= seq![line]);
    assert(lines_of(line.push('\n')) =~= seq![line]);
    let returned = line.push('\r');
    assert forall|i: int| 0 <= i < returned.len() implies #[trigger] returned[i] != '\n' by {
        if i < line.len() {
            assert(returned[i] == line[i]);
        }
    }
    whole_texts_are_one_piece(returned, '\n');
    last_pieces_follow_the_sign(returned, '\n', empty);
    assert(returned.push('\n') + empty =~= returned.push('\n'));
    assert(seq![returned].push(empty).drop_last() =~= seq![returned]);
    assert(returned.drop_last() =~= line);
    assert(crate::text::without_end(returned, '\r') == line);
    assert(lines_of(returned.push('\n')) =~= seq![line]);
    last_pieces_follow_the_sign(front, '\n', line);
    last_pieces_follow_the_sign(front, '\n', empty);
    assert(front.push('\n') + empty =~= front.push('\n'));
    let p = pieces(front, '\n');
    assert(p.push(line).drop_last() =~= p);
    assert(p.push(empty).drop_last() =~= p);
    assert(lines_of(front.push('\n') + line) =~= lines_of(front.push('\n')).push(line));
}

/// Texts that are joined stand in their order with the sign between each two.
pub proof fn joined_texts_stand_in_order(parts: Seq<Seq<char>>, last: Seq<char>, sep: Seq<char>)
    ensures
        joined(Seq::empty(), sep).len() == 0,
        joined(seq![last], sep) == last,
        parts.len() > 0 ==> joined(parts.push(last), sep) == joined(parts, sep) + sep + last,
{
    assert(parts.push(last).drop_last() =~= parts);
}

/// A text without a sign stays where the sign is replaced, and a text with one gets the other in
/// its place.
pub proof fn signs_are_replaced(front: Seq<char>, c: char, rest: Seq<char>, q: Seq<char>)
    requires
        lacks(front, c),
    ensures
        replaced(front, seq![c], q) == front,
        replaced(front + seq![c] + rest, seq![c], q) == front + q + replaced(rest, seq![c], q),
{
    let s = front + seq![c] + rest;
    let n = front.len() as int;
    texts_are_parted(front, c, rest);
    assert(s.subrange(n, n + 1) =~= seq![c]);
    assert(occurs_at(s, seq![c], n));
    assert forall|j: int| 0 <= j < n implies !occurs_at(s, seq![c], j) by {
        assert(s[j] == front[j]);
        if occurs_at(s, seq![c], j) {
            assert(s.subrange(j, j + 1)[0] == s[j]);
        }
    }
    first_places_are_found(s, seq![c], 0, n);
    assert(s.take(n) =~= front);
    assert(s.skip(n + seq![c].len()) =~= rest);
    assert(find(front, seq![c]) is None);
}

// ---------------------------------------------------------------------------
// Letters and numerals
// ---------------------------------------------------------------------------

/// Raising a text makes capitals of its small letters, lowering it the other way round, and both
/// leave every other character.
pub proof fn letters_change_their_case(s: Seq<char>, i: int)
    requires
        0 <= i < s.len(),
    ensures
        raised(s).len() == s.len(),
        lowered(s).len() == s.len(),
        'a' <= s[i] <= 'z' ==> raised(s)[i] as u32 == s[i] as u32 - 'a' as u32 + 'A' as u32,
        !('a' <= s[i] <= 'z') ==> raised(s)[i] == s[i],
        'A' <= s[i] <= 'Z' ==> lowered(s)[i] as u32 == s[i] as u32 - 'A' as u32 + 'a' as u32,
        !('A' <= s[i] <= 'Z') ==> lowered(s)[i] == s[i],
{
}

proof fn numerals_hold_digits(n: nat)
    ensures
        decimal(n).len() > 0,
        all_digits(decimal(n)),
        digits_value(decimal(n)) == n,
        decimal(n)[0] != '+' && decimal(n)[0] != '-',
    decreases n,
{
    if n < 10 {
        let s = seq![digit(n as int)];
        assert(s.drop_last() =~= Seq::empty());
        assert(digits_value(Seq::empty()) == 0);
        assert(s.last() == digit(n as int));
    } else {
        numerals_hold_digits(n / 10);
        let front = decimal(n / 10);
        let s = front.push(digit((n % 10) as int));
        assert(s.drop_last() =~= front);
        assert(s[0] == front[0]);
        assert forall|i: int| 0 <= i < s.len() implies '0' <= #[trigger] s[i] <= '9' by {
            if i < front.len() {
                assert(s[i] == front[i]);
            }
        }
    }
}

/// A numeral is read back as its number, and a negative one has its sign before it.
pub proof fn numerals_are_read_back(n: u64, m: int)
    ensures
        numeral(decimal(n as nat)) == Some(n),
        m >= 0 ==> signed_decimal(m) == decimal(m as nat),
        m < 0 ==> signed_decimal(m) == seq!['-'] + decimal((-m) as nat),
{
    numerals_hold_digits(n as nat);
}

/// Texts are ordered by their first characters that differ, and a text stands before every longer
/// one that begins with it.
pub proof fn texts_are_ordered(common: Seq<char>, a: char, b: char, x: Seq<char>, y: Seq<char>)
    ensures
        a < b ==> text_less(common + seq![a] + x, common + seq![b] + y),
        text_less(common, common + seq![b] + y),
    decreases common.len(),
{
    if common.len() > 0 {
        let c = common.skip(1);
        texts_are_ordered(c, a, b, x, y);
        assert((common + seq![a] + x).skip(1) =~= c + seq![a] + x);
        assert((common + seq![b] + y).skip(1) =~= c + seq![b] + y);
    } else {
        assert((common + seq![a] + x)[0] == a);
        assert((common + seq![b] + y)[0] == b);
    }
}

} // verus!
