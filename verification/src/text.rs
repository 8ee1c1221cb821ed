//! Text as a sequence of lines.
//!
//! An editor buffer holds rows of characters; the outside world sees one
//! string. This module states how the two relate (`split_lines`,
//! `join_lines`) and provides verified conversions in both directions.

use vstd::prelude::*;

verus! {

/// `String::push` appends one character to the end of the string.
pub assume_specification[ String::push ](s: &mut String, ch: char)
    ensures
        final(s)@ == old(s)@.push(ch),
;

/// The rows of a buffer, each taken by its view.
pub open spec fn rows_view(rows: Seq<Vec<char>>) -> Seq<Seq<char>> {
    Seq::new(rows.len(), |i: int| rows[i]@)
}

/// The rows joined into one text, with a line feed between neighbours and
/// none after the last row.
pub open spec fn join_lines(rows: Seq<Seq<char>>) -> Seq<char>
    decreases rows.len(),
{
    if rows.len() == 0 {
        Seq::empty()
    } else if rows.len() == 1 {
        rows[0]
    } else {
        join_lines(rows.drop_last()) + seq!['\n'] + rows.last()
    }
}

/// Position of the first line feed in `text`, or `text.len()` if it has none.
pub open spec fn first_newline(text: Seq<char>) -> int
    decreases text.len(),
{
    if text.len() == 0 || text[0] == '\n' {
        0
    } else {
        1 + first_newline(text.drop_first())
    }
}

/// The lines of `text`. A line ends at a line feed, which is not part of
/// the line; every other character is, a carriage return too. The last line
/// needs no line feed, so a text that ends in a line feed has the same lines
/// as the text without it.
pub open spec fn split_lines(text: Seq<char>) -> Seq<Seq<char>>
    decreases text.len(),
{
    if text.len() == 0 {
        Seq::empty()
    } else {
        let n = first_newline(text);
        if n >= text.len() {
            seq![text]
        } else {
            proof {
                lemma_first_newline(text);
            }
            seq![text.take(n)] + split_lines(text.skip(n + 1))
        }
    }
}

/// `text` without its last character, if that is a line feed.
pub open spec fn strip_final_newline(text: Seq<char>) -> Seq<char> {
    if text.len() > 0 && text.last() == '\n' {
        text.drop_last()
    } else {
        text
    }
}

/// What is left of a text after a round trip through lines: the text
/// without one line feed at its very end.
pub open spec fn normalized(text: Seq<char>) -> Seq<char> {
    strip_final_newline(text)
}

pub proof fn lemma_first_newline(text: Seq<char>)
    ensures
        0 <= first_newline(text) <= text.len(),
        forall|k: int| 0 <= k < first_newline(text) ==> text[k] != '\n',
        first_newline(text) < text.len() ==> text[first_newline(text)] == '\n',
    decreases text.len(),
{
    if text.len() == 0 || text[0] == '\n' {
    } else {
        let rest = text.drop_first();
        lemma_first_newline(rest);
        assert forall|k: int| 0 <= k < first_newline(text) implies text[k] != '\n' by {
            if k > 0 {
                assert(text[k] == rest[k - 1]);
            }
        }
        if first_newline(text) < text.len() {
            assert(text[first_newline(text)] == rest[first_newline(rest)]);
        }
    }
}

/// The first line feed is where the characters before it hold none and the
/// character there is one (or the text ends).
pub proof fn lemma_first_newline_at(text: Seq<char>, n: int)
    requires
        0 <= n <= text.len(),
        forall|k: int| 0 <= k < n ==> text[k] != '\n',
        n < text.len() ==> text[n] == '\n',
    ensures
        first_newline(text) == n,
{
    lemma_first_newline(text);
    let m = first_newline(text);
    if m < n {
        assert(text[m] == '\n');
    } else if n < m {
        assert(text[n] != '\n');
    }
}

proof fn lemma_join_take(rows: Seq<Seq<char>>, r: int)
    requires
        0 <= r < rows.len(),
    ensures
        join_lines(rows.take(r + 1)) == if r == 0 {
            rows[0]
        } else {
            join_lines(rows.take(r)) + seq!['\n'] + rows[r]
        },
{
    let t = rows.take(r + 1);
    assert(t.last() == rows[r]);
    assert(t.drop_last() =~= rows.take(r));
    if r == 0 {
        assert(t[0] == rows[0]);
    }
}

/// Joining with a row put in front: the row, then a line feed and the rest,
/// where there is a rest.
pub proof fn lemma_join_front(first: Seq<char>, rest: Seq<Seq<char>>)
    ensures
        join_lines(seq![first] + rest) == if rest.len() == 0 {
            first
        } else {
            first + seq!['\n'] + join_lines(rest)
        },
    decreases rest.len(),
{
    let all = seq![first] + rest;
    if rest.len() == 0 {
        assert(all =~= seq![first]);
    } else if rest.len() == 1 {
        assert(all.drop_last() =~= seq![first]);
        assert(all.last() == rest[0]);
        assert(join_lines(all.drop_last()) == first);
    } else {
        lemma_join_front(first, rest.drop_last());
        assert(all.drop_last() =~= seq![first] + rest.drop_last());
        assert(all.last() == rest.last());
        assert(join_lines(all) =~= first + seq!['\n'] + join_lines(rest));
    }
}

/// A text that is not empty has at least one line.
pub proof fn lemma_split_nonempty(text: Seq<char>)
    requires
        text.len() > 0,
    ensures
        split_lines(text).len() > 0,
{
    lemma_first_newline(text);
}

/// Law: splitting a text into lines and joining them again gives the text
/// back, but for one line feed at its very end. Everything else comes back
/// as it was.
pub proof fn lemma_split_join_round_trip(text: Seq<char>)
    ensures
        join_lines(split_lines(text)) == normalized(text),
    decreases text.len(),
{
    if text.len() == 0 {
    } else {
        lemma_first_newline(text);
        let n = first_newline(text);
        if n >= text.len() {
            assert(text.last() != '\n');
        } else {
            let head = text.take(n);
            let rest = text.skip(n + 1);
            lemma_split_join_round_trip(rest);
            lemma_join_front(head, split_lines(rest));
            if rest.len() == 0 {
                assert(text.last() == '\n');
                assert(text.drop_last() =~= head);
            } else {
                lemma_split_nonempty(rest);
                assert(text.last() == rest.last());
                assert(text =~= head + seq!['\n'] + rest);
                if rest.last() == '\n' {
                    assert(text.drop_last() =~= head + seq!['\n'] + rest.drop_last());
                }
            }
        }
    }
}

/// Rows that can be told apart again after they were joined: no row holds a
/// line feed, and the last row is not empty.
pub open spec fn separable(rows: Seq<Seq<char>>) -> bool {
    &&& forall|i: int, k: int|
        0 <= i < rows.len() && 0 <= k < rows[i].len() ==> #[trigger] rows[i][k] != '\n'
    &&& rows.len() > 0 ==> rows.last().len() > 0
}

/// Law: joining separable rows and splitting the text again gives the rows
/// back.
pub proof fn lemma_join_split_round_trip(rows: Seq<Seq<char>>)
    requires
        separable(rows),
    ensures
        split_lines(join_lines(rows)) == rows,
    decreases rows.len(),
{
    if rows.len() == 0 {
    } else {
        let first = rows[0];
        let rest = rows.skip(1);
        assert(rows =~= seq![first] + rest);
        lemma_join_front(first, rest);
        let text = join_lines(rows);
        assert forall|k: int| 0 <= k < first.len() implies first[k] != '\n' by {
            assert(rows[0][k] != '\n');
        }
        if rest.len() == 0 {
            assert(rows.last() == first);
            lemma_first_newline_at(text, text.len() as int);
            assert(split_lines(text) =~= rows);
        } else {
            assert(separable(rest)) by {
                assert forall|i: int, k: int|
                    0 <= i < rest.len() && 0 <= k < rest[i].len() implies #[trigger] rest[i][k]
                    != '\n' by {
                    assert(rest[i] == rows[i + 1]);
                    assert(rows[i + 1][k] != '\n');
                }
                assert(rest.last() == rows.last());
            }
            lemma_join_split_round_trip(rest);
            let tail = join_lines(rest);
            assert(text == first + seq!['\n'] + tail);
            let n = first.len() as int;
            assert forall|k: int| 0 <= k < n implies text[k] != '\n' by {
                assert(text[k] == first[k]);
            }
            assert(text[n] == '\n');
            lemma_first_newline_at(text, n);
            assert(text.take(n) =~= first);
            assert(text.skip(n + 1) =~= tail);
            assert(split_lines(text) =~= seq![first] + rest);
        }
    }
}

/// The characters of `text`, in order.
pub fn chars_of(text: &str) -> (out: Vec<char>)
    ensures
        out@ == text@,
{
    let mut out: Vec<char> = Vec::new();
    for c in it: text.chars()
        invariant
            out@ == it.seq().take(it.index() as int),
            it.seq() == text@,
    {
        out.push(c);
    }
    out
}

/// Splits `text` into its lines.
pub fn split_text(text: &str) -> (rows: Vec<Vec<char>>)
    ensures
        rows_view(rows@) == split_lines(text@),
{
    let chars = chars_of(text);
    let mut rows: Vec<Vec<char>> = Vec::new();
    let mut cur: Vec<char> = Vec::new();
    let mut i: usize = 0;
    assert(chars@.skip(0) =~= chars@);
    assert(rows_view(rows@) + split_lines(chars@) =~= split_lines(chars@));
    while i < chars.len()
        invariant
            chars@ == text@,
            0 <= i <= chars.len(),
            cur@.len() <= i,
            cur@ == chars@.subrange(i - cur@.len(), i as int),
            forall|k: int| 0 <= k < cur@.len() ==> cur@[k] != '\n',
            split_lines(chars@) == rows_view(rows@) + split_lines(chars@.skip(i - cur@.len())),
        decreases chars.len() - i,
    {
        let c = chars[i];
        let ghost start = i - cur@.len();
        let ghost tail = chars@.skip(start);
        if c == '\n' {
            proof {
                assert forall|k: int| 0 <= k < cur@.len() implies tail[k] != '\n' by {
                    assert(tail[k] == cur@[k]);
                }
                lemma_first_newline_at(tail, cur@.len() as int);
                assert(tail.take(cur@.len() as int) =~= cur@);
                assert(tail.skip(cur@.len() as int + 1) =~= chars@.skip(i + 1));
            }
            let ghost line = cur@;
            let ghost before = rows_view(rows@);
            rows.push(cur);
            assert(rows_view(rows@) =~= before + seq![line]);
            cur = Vec::new();
            i = i + 1;
            assert(cur@ =~= chars@.subrange(i - cur@.len(), i as int));
        } else {
            cur.push(c);
            i = i + 1;
            assert(cur@ =~= chars@.subrange(i - cur@.len(), i as int));
        }
    }
    proof {
        let tail = chars@.skip(i - cur@.len());
        assert(tail =~= cur@);
        if cur@.len() > 0 {
            lemma_first_newline_at(tail, cur@.len() as int);
        }
    }
    if cur.len() > 0 {
        let ghost before = rows_view(rows@);
        let ghost line = cur@;
        rows.push(cur);
        assert(rows_view(rows@) =~= before + seq![line]);
    }
    rows
}

/// Joins the rows into one text, a line feed between neighbours.
pub fn join_rows(rows: &Vec<Vec<char>>) -> (text: String)
    ensures
        text@ == join_lines(rows_view(rows@)),
{
    let mut text = String::new();
    let mut r: usize = 0;
    while r < rows.len()
        invariant
            0 <= r <= rows.len(),
            text@ == join_lines(rows_view(rows@).take(r as int)),
        decreases rows.len() - r,
    {
        proof {
            lemma_join_take(rows_view(rows@), r as int);
        }
        if r > 0 {
            text.push('\n');
        }
        let row = &rows[r];
        let ghost base = text@;
        let mut j: usize = 0;
        while j < row.len()
            invariant
                0 <= j <= row.len(),
                text@ == base + row@.take(j as int),
            decreases row.len() - j,
        {
            text.push(row[j]);
            j = j + 1;
            assert(row@.take(j as int) =~= row@.take(j - 1).push(row@[j - 1]));
        }
        assert(row@.take(j as int) =~= row@);
        r = r + 1;
    }
    assert(rows_view(rows@).take(r as int) =~= rows_view(rows@));
    text
}

} // verus!
