//! Splitting text into lines and into delimited fields.

use vstd::prelude::*;
use crate::json::{join_spec, views};
use crate::text::{chars_of, string_from_chars};

verus! {

broadcast use vstd::seq_lib::group_seq_properties;

/// The pieces of `s` between occurrences of `c` (as `str::split` with a
/// single-character pattern): always at least one piece, and one more
/// than the number of occurrences of `c`.
pub open spec fn split_spec(s: Seq<char>, c: char) -> Seq<Seq<char>>
    decreases s.len(),
{
    if s.len() == 0 {
        seq![seq![]]
    } else if s[0] == c {
        seq![seq![]] + split_spec(s.skip(1), c)
    } else {
        let r = split_spec(s.skip(1), c);
        r.update(0, seq![s[0]] + r[0])
    }
}

/// `piece` without one trailing carriage return, if it has one.
pub open spec fn strip_cr(piece: Seq<char>) -> Seq<char> {
    if piece.len() > 0 && piece.last() == '\r' {
        piece.drop_last()
    } else {
        piece
    }
}

/// The lines of `s` as `str::lines` yields them: split at each newline,
/// a carriage return just before a newline dropped, and no final empty
/// line after a trailing newline (so the empty text has no lines).
pub open spec fn lines_spec(s: Seq<char>) -> Seq<Seq<char>> {
    let p = split_spec(s, '\n');
    let n = p.len() as int;
    p.take(n - 1).map_values(|l: Seq<char>| strip_cr(l)) + if p[n - 1].len() == 0 {
        Seq::<Seq<char>>::empty()
    } else {
        seq![p[n - 1]]
    }
}

/// `r` with `prefix` put in front of its first piece.
pub open spec fn prepend_first(prefix: Seq<char>, r: Seq<Seq<char>>) -> Seq<Seq<char>> {
    r.update(0, prefix + r[0])
}

pub proof fn lemma_split_nonempty(s: Seq<char>, c: char)
    ensures
        split_spec(s, c).len() >= 1,
    decreases s.len(),
{
    if s.len() > 0 {
        lemma_split_nonempty(s.skip(1), c);
    }
}

/// The pieces of `chars` split at `c`.
pub fn split_chars(chars: &Vec<char>, c: char) -> (parts: Vec<String>)
    ensures
        views(parts@) == split_spec(chars@, c),
        parts@.len() >= 1,
{
    let mut parts: Vec<String> = Vec::new();
    let mut start: usize = 0;
    let mut i: usize = 0;
    proof {
        lemma_split_nonempty(chars@, c);
        assert(chars@.skip(0) =~= chars@);
        assert(prepend_first(seq![], split_spec(chars@, c)) =~= split_spec(chars@, c));
    }
    while i < chars.len()
        invariant
            start <= i <= chars@.len(),
            split_spec(chars@, c) == views(parts@) + prepend_first(
                chars@.subrange(start as int, i as int),
                split_spec(chars@.skip(i as int), c),
            ),
        decreases chars@.len() - i,
    {
        let ghost cur = chars@.subrange(start as int, i as int);
        let ghost rest = chars@.skip(i as int);
        proof {
            lemma_split_nonempty(rest.skip(1), c);
            assert(rest.skip(1) =~= chars@.skip(i + 1));
        }
        if chars[i] == c {
            let piece = string_from_chars(chars, start, i);
            let ghost before = parts@;
            parts.push(piece);
            proof {
                let r = split_spec(rest.skip(1), c);
                assert(split_spec(rest, c) == seq![seq![]] + r);
                assert(prepend_first(cur, seq![seq![]] + r) =~= seq![cur] + r);
                assert(prepend_first(seq![], r) =~= r);
                assert(views(parts@) =~= views(before).push(cur));
                assert(chars@.subrange(i + 1, i + 1) =~= Seq::<char>::empty());
                assert(views(before) + (seq![cur] + r) =~= views(parts@) + prepend_first(
                    chars@.subrange(i + 1, i + 1),
                    r,
                ));
            }
            i += 1;
            start = i;
        } else {
            proof {
                let r = split_spec(rest.skip(1), c);
                assert(split_spec(rest, c) == r.update(0, seq![rest[0]] + r[0]));
                assert(chars@.subrange(start as int, i + 1) =~= cur + seq![rest[0]]);
                assert(cur + (seq![rest[0]] + r[0]) =~= (cur + seq![rest[0]]) + r[0]);
                assert(prepend_first(cur, r.update(0, seq![rest[0]] + r[0])) =~= prepend_first(
                    cur + seq![rest[0]],
                    r,
                ));
            }
            i += 1;
        }
    }
    let last = string_from_chars(chars, start, i);
    let ghost before = parts@;
    parts.push(last);
    proof {
        assert(chars@.skip(i as int) =~= Seq::<char>::empty());
        let cur = chars@.subrange(start as int, i as int);
        assert(prepend_first(cur, seq![seq![]]) =~= seq![cur]);
        assert(views(parts@) =~= views(before).push(cur));
    }
    parts
}

/// The lines of `text`.
pub fn split_lines(text: &str) -> (lines: Vec<String>)
    ensures
        views(lines@) == lines_spec(text@),
{
    let chars = chars_of(text);
    let pieces = split_chars(&chars, '\n');
    let ghost p = split_spec(text@, '\n');
    let n = pieces.len();
    let mut lines: Vec<String> = Vec::new();
    let mut i: usize = 0;
    while i + 1 < n
        invariant
            n == pieces@.len() >= 1,
            views(pieces@) == p,
            i + 1 <= n,
            views(lines@) =~= p.take(i as int).map_values(|l: Seq<char>| strip_cr(l)),
        decreases n - i,
    {
        let piece_chars = chars_of(pieces[i].as_str());
        let len = piece_chars.len();
        let line = if len > 0 && piece_chars[len - 1] == '\r' {
            string_from_chars(&piece_chars, 0, len - 1)
        } else {
            string_from_chars(&piece_chars, 0, len)
        };
        proof {
            assert(piece_chars@.subrange(0, len as int) =~= piece_chars@);
            assert(piece_chars@.subrange(0, len - 1) =~= piece_chars@.drop_last());
            assert(line@ == strip_cr(p[i as int]));
        }
        let ghost before = lines@;
        lines.push(line);
        proof {
            assert(views(lines@) =~= views(before).push(line@));
            assert(p.take(i + 1) =~= p.take(i as int).push(p[i as int]));
        }
        i += 1;
    }
    let last_chars = chars_of(pieces[n - 1].as_str());
    if last_chars.len() > 0 {
        let last = string_from_chars(&last_chars, 0, last_chars.len());
        let ghost before = lines@;
        lines.push(last);
        proof {
            assert(last_chars@.subrange(0, last_chars@.len() as int) =~= last_chars@);
            assert(views(lines@) =~= views(before).push(last@));
        }
    }
    lines
}

// ---------------------------------------------------------------------
// Splitting undoes joining
// ---------------------------------------------------------------------

/// `c` does not occur in `s`.
pub open spec fn lacks(s: Seq<char>, c: char) -> bool {
    forall|i: int| 0 <= i < s.len() ==> #[trigger] s[i] != c
}

pub proof fn lemma_split_plain(s: Seq<char>, c: char)
    requires
        lacks(s, c),
    ensures
        split_spec(s, c) == seq![s],
    decreases s.len(),
{
    if s.len() > 0 {
        lemma_split_plain(s.skip(1), c);
        assert(seq![s[0]] + s.skip(1) =~= s);
    } else {
        assert(s =~= Seq::<char>::empty());
    }
}

proof fn lemma_split_concat(a: Seq<char>, c: char, b: Seq<char>)
    requires
        lacks(a, c),
    ensures
        split_spec(a + seq![c] + b, c) == seq![a] + split_spec(b, c),
    decreases a.len(),
{
    let s = a + seq![c] + b;
    if a.len() == 0 {
        assert(s.skip(1) =~= b);
        assert(a =~= Seq::<char>::empty());
    } else {
        lemma_split_concat(a.skip(1), c, b);
        assert(s.skip(1) =~= a.skip(1) + seq![c] + b);
        assert(seq![a[0]] + a.skip(1) =~= a);
        let r = split_spec(s.skip(1), c);
        assert(r.update(0, seq![s[0]] + r[0]) =~= seq![a] + split_spec(b, c));
    }
}

/// Splitting at an occurrence of the separator: the pieces of what comes
/// before it, then the pieces of what comes after it.
pub proof fn lemma_split_around(a: Seq<char>, c: char, b: Seq<char>)
    ensures
        split_spec(a + seq![c] + b, c) == split_spec(a, c) + split_spec(b, c),
    decreases a.len(),
{
    let s = a + seq![c] + b;
    lemma_split_nonempty(b, c);
    if a.len() == 0 {
        assert(s.skip(1) =~= b);
        assert(seq![seq![]] + split_spec(b, c) =~= split_spec(a, c) + split_spec(b, c));
    } else {
        lemma_split_around(a.skip(1), c, b);
        lemma_split_nonempty(a.skip(1), c);
        assert(s.skip(1) =~= a.skip(1) + seq![c] + b);
        assert(s[0] == a[0]);
        let ra = split_spec(a.skip(1), c);
        let rb = split_spec(b, c);
        if a[0] == c {
            assert(seq![seq![]] + (ra + rb) =~= (seq![seq![]] + ra) + rb);
        } else {
            assert((ra + rb).update(0, seq![a[0]] + (ra + rb)[0]) =~= ra.update(
                0,
                seq![a[0]] + ra[0],
            ) + rb);
        }
    }
}

/// Dropping a last character that is not the separator shortens only
/// the last piece: the number of pieces and every other piece stay.
pub proof fn lemma_split_drop_last(s: Seq<char>, c: char)
    requires
        s.len() > 0,
        s.last() != c,
    ensures
        split_spec(s.drop_last(), c).len() == split_spec(s, c).len(),
        forall|k: int|
            0 <= k < split_spec(s, c).len() - 1 ==> split_spec(s.drop_last(), c)[k]
                == #[trigger] split_spec(s, c)[k],
        split_spec(s.drop_last(), c).last() + seq![s.last()] == split_spec(s, c).last(),
    decreases s.len(),
{
    let t = s.drop_last();
    lemma_split_nonempty(s, c);
    lemma_split_nonempty(t, c);
    if s.len() == 1 {
        assert(t =~= Seq::<char>::empty());
        assert(s.skip(1) =~= Seq::<char>::empty());
        assert(seq![s[0]] + Seq::<char>::empty() =~= seq![s[0]]);
        assert(Seq::<char>::empty() + seq![s.last()] =~= seq![s[0]]);
    } else {
        lemma_split_drop_last(s.skip(1), c);
        assert(t.skip(1) =~= s.skip(1).drop_last());
        assert(t[0] == s[0]);
        assert(s.skip(1).last() == s.last());
        lemma_split_nonempty(s.skip(1), c);
        lemma_split_nonempty(t.skip(1), c);
        let r = split_spec(s.skip(1), c);
        let r2 = split_spec(t.skip(1), c);
        if s[0] != c && r.len() == 1 {
            assert(r.last() == r[0]);
            assert(r2.last() == r2[0]);
            assert((seq![s[0]] + r2[0]) + seq![s.last()] =~= seq![s[0]] + (r2[0] + seq![
                s.last(),
            ]));
        }
    }
}

/// The lines of a text with a newline in it: the pieces before that
/// newline, each without a trailing carriage return, then the lines of
/// what follows it.
pub proof fn lemma_lines_around(a: Seq<char>, b: Seq<char>)
    ensures
        lines_spec(a + seq!['\n'] + b) == split_spec(a, '\n').map_values(
            |l: Seq<char>| strip_cr(l),
        ) + lines_spec(b),
{
    lemma_split_around(a, '\n', b);
    lemma_split_nonempty(b, '\n');
    let pa = split_spec(a, '\n');
    let pb = split_spec(b, '\n');
    let p = pa + pb;
    let n = p.len() as int;
    let m = pb.len() as int;
    assert(p.take(n - 1) =~= pa + pb.take(m - 1));
    assert(p[n - 1] == pb[m - 1]);
    assert((pa + pb.take(m - 1)).map_values(|l: Seq<char>| strip_cr(l)) =~= pa.map_values(
        |l: Seq<char>| strip_cr(l),
    ) + pb.take(m - 1).map_values(|l: Seq<char>| strip_cr(l)));
}

/// Splitting a join at its separator gives back the joined pieces,
/// provided no piece contains the separator.
pub proof fn lemma_split_join(items: Seq<Seq<char>>, c: char)
    requires
        items.len() >= 1,
        forall|k: int| 0 <= k < items.len() ==> lacks(#[trigger] items[k], c),
    ensures
        split_spec(join_spec(items, seq![c]), c) == items,
    decreases items.len(),
{
    if items.len() == 1 {
        lemma_split_plain(items[0], c);
        assert(seq![items[0]] =~= items);
    } else {
        lemma_split_join_prefix(items, c);
    }
}

/// The same as `lemma_split_join`, proved from the front of the join.
proof fn lemma_split_join_prefix(items: Seq<Seq<char>>, c: char)
    requires
        items.len() >= 1,
        forall|k: int| 0 <= k < items.len() ==> lacks(#[trigger] items[k], c),
    ensures
        split_spec(join_spec(items, seq![c]), c) == items,
    decreases items.len(),
{
    if items.len() == 1 {
        lemma_split_plain(items[0], c);
        assert(seq![items[0]] =~= items);
    } else {
        let rest = items.skip(1);
        lemma_join_front(items, seq![c]);
        lemma_split_join_prefix(rest, c);
        lemma_split_concat(items[0], c, join_spec(rest, seq![c]));
        assert(seq![items[0]] + rest =~= items);
    }
}

/// A join of two or more items is the first item, the separator and the
/// join of the rest.
pub proof fn lemma_join_front(items: Seq<Seq<char>>, sep: Seq<char>)
    requires
        items.len() >= 2,
    ensures
        join_spec(items, sep) == items[0] + sep + join_spec(items.skip(1), sep),
    decreases items.len(),
{
    if items.len() == 2 {
        assert(items.drop_last() =~= seq![items[0]]);
        assert(items.skip(1) =~= seq![items[1]]);
        assert(join_spec(items.drop_last(), sep) == items[0]);
        assert(join_spec(items.skip(1), sep) == items[1]);
    } else {
        assert(items.drop_last()[0] == items[0]);
        lemma_join_front(items.drop_last(), sep);
        assert(items.drop_last().skip(1) =~= items.skip(1).drop_last());
        assert(items.skip(1).last() == items.last());
        assert(join_spec(items.skip(1), sep) == join_spec(items.skip(1).drop_last(), sep) + sep
            + items.last());
        let j = join_spec(items.skip(1).drop_last(), sep);
        assert(items[0] + sep + j + sep + items.last() =~= items[0] + sep + (j + sep
            + items.last()));
    }
}

/// A line as the record files write it: non-empty, with no newline and
/// no carriage return.
pub open spec fn is_record_line(l: Seq<char>) -> bool {
    l.len() > 0 && lacks(l, '\n') && lacks(l, '\r')
}

/// Reading the lines of joined record lines gives back those lines.
pub proof fn lemma_lines_join(items: Seq<Seq<char>>)
    requires
        items.len() >= 1,
        forall|k: int| 0 <= k < items.len() ==> is_record_line(#[trigger] items[k]),
    ensures
        lines_spec(join_spec(items, seq!['\n'])) == items,
{
    assert forall|k: int| 0 <= k < items.len() implies lacks(#[trigger] items[k], '\n') by {
        assert(is_record_line(items[k]));
    }
    lemma_split_join(items, '\n');
    let n = items.len() as int;
    assert forall|k: int| 0 <= k < n - 1 implies strip_cr(#[trigger] items[k]) == items[k] by {
        assert(is_record_line(items[k]));
        assert(items[k][items[k].len() - 1] != '\r');
    }
    assert(is_record_line(items[n - 1]));
    assert(items.take(n - 1).map_values(|l: Seq<char>| strip_cr(l)) + seq![items[n - 1]] =~= items);
}


/// A join lacks `c` when every item and the separator lack it.
pub proof fn lemma_join_lacks(items: Seq<Seq<char>>, sep: Seq<char>, c: char)
    requires
        forall|k: int| 0 <= k < items.len() ==> lacks(#[trigger] items[k], c),
        lacks(sep, c),
    ensures
        lacks(join_spec(items, sep), c),
    decreases items.len(),
{
    if items.len() >= 2 {
        let init = items.drop_last();
        assert forall|k: int| 0 <= k < init.len() implies lacks(#[trigger] init[k], c) by {
            assert(init[k] == items[k]);
        }
        lemma_join_lacks(init, sep, c);
        let j = join_spec(init, sep);
        let l = items.last();
        assert(lacks(l, c));
        assert forall|i: int| 0 <= i < (j + sep + l).len() implies #[trigger] (j + sep + l)[i]
            != c by {
            if i < j.len() {
                assert((j + sep + l)[i] == j[i]);
            } else if i < j.len() + sep.len() {
                assert((j + sep + l)[i] == sep[i - j.len()]);
            } else {
                assert((j + sep + l)[i] == l[i - j.len() - sep.len()]);
            }
        }
    } else if items.len() == 1 {
        assert(lacks(items[0], c));
    }
}

/// A join is at least as long as its first item.
pub proof fn lemma_join_first_len(items: Seq<Seq<char>>, sep: Seq<char>)
    requires
        items.len() >= 1,
    ensures
        join_spec(items, sep).len() >= items[0].len(),
    decreases items.len(),
{
    if items.len() >= 2 {
        lemma_join_first_len(items.drop_last(), sep);
    }
}

/// A record line made of plain-token fields splits back into those
/// fields at its tabs.
pub proof fn lemma_field_line(fields: Seq<Seq<char>>)
    requires
        fields.len() >= 1,
        fields[0].len() > 0,
        forall|k: int| 0 <= k < fields.len() ==> crate::model::is_plain_token(#[trigger] fields[k]),
    ensures
        split_spec(join_spec(fields, seq!['\t']), '\t') == fields,
        is_record_line(join_spec(fields, seq!['\t'])),
{
    assert forall|k: int| 0 <= k < fields.len() implies lacks(#[trigger] fields[k], '\t') && lacks(
        fields[k],
        '\n',
    ) && lacks(fields[k], '\r') by {
        assert(crate::model::is_plain_token(fields[k]));
    }
    lemma_split_join(fields, '\t');
    lemma_join_lacks(fields, seq!['\t'], '\n');
    lemma_join_lacks(fields, seq!['\t'], '\r');
    lemma_join_first_len(fields, seq!['\t']);
}

}
