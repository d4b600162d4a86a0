//! Rows of text as sequences of characters.
//!
//! A row is a `String`; its model is the `Seq<char>` that `@` gives. Columns
//! count characters, not bytes.

use vstd::prelude::*;

verus! {

/// No row and no buffer may grow to this many characters or rows, so that
/// every column and line number fits a signed cursor coordinate.
pub open spec fn limit() -> int {
    isize::MAX as int
}

/// `row` with `text` spliced in before column `at`.
pub open spec fn splice(row: Seq<char>, at: int, text: Seq<char>) -> Seq<char> {
    row.subrange(0, at) + text + row.subrange(at, row.len() as int)
}

/// Whether `query` stands in `row` at column `at`.
pub open spec fn occurs_at(row: Seq<char>, query: Seq<char>, at: int) -> bool {
    &&& 0 <= at
    &&& at + query.len() <= row.len()
    &&& row.subrange(at, at + query.len()) == query
}

/// The first column at or after `from` at which `query` stands in `row`.
pub open spec fn find_from(row: Seq<char>, query: Seq<char>, from: int) -> Option<int>
    decreases row.len() + 1 - from,
{
    if from < 0 || from + query.len() > row.len() {
        None
    } else if occurs_at(row, query, from) {
        Some(from)
    } else {
        find_from(row, query, from + 1)
    }
}

/// The column of the first occurrence of `query` in `row`.
pub open spec fn find(row: Seq<char>, query: Seq<char>) -> Option<int> {
    find_from(row, query, 0)
}

/// `find_from` gives the least column at or after `from` where `query`
/// stands, and `None` exactly when there is none.
pub proof fn lemma_find_from_least(row: Seq<char>, query: Seq<char>, from: int)
    requires
        0 <= from,
    ensures
        match find_from(row, query, from) {
            Some(at) => {
                &&& from <= at
                &&& occurs_at(row, query, at)
                &&& forall|j: int| from <= j < at ==> !occurs_at(row, query, j)
            },
            None => forall|j: int| from <= j ==> !occurs_at(row, query, j),
        },
    decreases row.len() + 1 - from,
{
    if from + query.len() <= row.len() && !occurs_at(row, query, from) {
        lemma_find_from_least(row, query, from + 1);
    }
}

/// The pieces between the line feeds of `text`: one more than it has line
/// feeds, the last being what follows the last line feed.
pub open spec fn pieces(text: Seq<char>) -> Seq<Seq<char>>
    decreases text.len(),
{
    if text.len() == 0 {
        seq![Seq::<char>::empty()]
    } else {
        let init = pieces(text.drop_last());
        if text.last() == '\n' {
            init.push(Seq::<char>::empty())
        } else {
            init.drop_last().push(init.last().push(text.last()))
        }
    }
}

/// The lines of `text`: its pieces, without the last one where that is empty.
/// A line feed ends a line; it does not begin an empty one at the end.
pub open spec fn split_lines(text: Seq<char>) -> Seq<Seq<char>> {
    let all = pieces(text);
    if all.last().len() == 0 {
        all.drop_last()
    } else {
        all
    }
}

/// The rows, with a line feed between each two and none at the end.
pub open spec fn join_lines(lines: Seq<Seq<char>>) -> Seq<char>
    decreases lines.len(),
{
    if lines.len() == 0 {
        Seq::<char>::empty()
    } else if lines.len() == 1 {
        lines[0]
    } else {
        join_lines(lines.drop_last()).push('\n') + lines.last()
    }
}

/// The models of a vector of rows.
pub open spec fn rows(lines: Seq<String>) -> Seq<Seq<char>> {
    Seq::new(lines.len(), |i: int| lines[i]@)
}

/// Whether there are fewer rows than the limit, and each is shorter than it.
pub open spec fn fits(lines: Seq<Seq<char>>) -> bool {
    &&& lines.len() < limit()
    &&& forall|i: int| 0 <= i < lines.len() ==> #[trigger] lines[i].len() < limit()
}

/// There is at least one piece, and the pieces together with the line feeds
/// between them are no longer than the text.
pub proof fn lemma_pieces_len(text: Seq<char>)
    ensures
        1 <= pieces(text).len(),
        pieces(text).len() + pieces(text).last().len() <= text.len() + 1,
        forall|i: int| 0 <= i < pieces(text).len() ==> #[trigger] pieces(text)[i].len() <= text.len(),
    decreases text.len(),
{
    if text.len() > 0 {
        lemma_pieces_len(text.drop_last());
    }
}

/// A text has no more lines than characters, and none is longer than the text.
pub proof fn lemma_split_lines_len(text: Seq<char>)
    ensures
        split_lines(text).len() <= text.len(),
        forall|i: int| 0 <= i < split_lines(text).len() ==> #[trigger] split_lines(text)[i].len() <= text.len(),
{
    lemma_pieces_len(text);
}

/// Whether no row holds a line feed.
pub open spec fn plain(lines: Seq<Seq<char>>) -> bool {
    forall|i: int, j: int|
        0 <= i < lines.len() && 0 <= j < lines[i].len() ==> (#[trigger] lines[i][j]) != '\n'
}

/// Text without a line feed, put behind `text`, lengthens its last piece.
pub proof fn lemma_pieces_append(text: Seq<char>, more: Seq<char>)
    requires
        forall|j: int| 0 <= j < more.len() ==> more[j] != '\n',
    ensures
        pieces(text + more) == pieces(text).drop_last().push(pieces(text).last() + more),
    decreases more.len(),
{
    lemma_pieces_len(text);
    if more.len() == 0 {
        assert(text + more =~= text);
        assert(pieces(text).last() + more =~= pieces(text).last());
        assert(pieces(text).drop_last().push(pieces(text).last()) =~= pieces(text));
    } else {
        let init = more.drop_last();
        lemma_pieces_append(text, init);
        lemma_pieces_len(text + init);
        assert((text + more).drop_last() =~= text + init);
        assert((text + more).last() == more.last());
        assert((pieces(text).last() + init).push(more.last()) =~= pieces(text).last() + more);
        assert(pieces(text + more) =~= pieces(text).drop_last().push(pieces(text).last() + more));
    }
}

/// The pieces of rows joined are the rows, where no row holds a line feed.
pub proof fn lemma_pieces_of_joined(lines: Seq<Seq<char>>)
    requires
        lines.len() >= 1,
        plain(lines),
    ensures
        pieces(join_lines(lines)) == lines,
    decreases lines.len(),
{
    let last = lines.last();
    assert forall|j: int| 0 <= j < last.len() implies last[j] != '\n' by {
        assert(lines[lines.len() - 1][j] != '\n');
    }
    if lines.len() == 1 {
        lemma_pieces_append(Seq::empty(), last);
        assert(Seq::<char>::empty() + last =~= last);
        assert(pieces(Seq::<char>::empty()) =~= seq![Seq::<char>::empty()]);
        assert(seq![Seq::<char>::empty()].drop_last().push(Seq::<char>::empty() + last) =~= lines);
    } else {
        let init = lines.drop_last();
        assert(plain(init)) by {
            assert forall|i: int, j: int| 0 <= i < init.len() && 0 <= j < init[i].len() implies (
            #[trigger] init[i][j]) != '\n' by {
                assert(lines[i][j] != '\n');
            }
        }
        lemma_pieces_of_joined(init);
        let head = join_lines(init).push('\n');
        assert(head.drop_last() =~= join_lines(init));
        assert(pieces(head) == init.push(Seq::<char>::empty()));
        lemma_pieces_append(head, last);
        assert(init.push(Seq::<char>::empty()).drop_last() =~= init);
        assert(Seq::<char>::empty() + last =~= last);
        assert(init.push(last) =~= lines);
    }
}

/// Rows that are saved and loaded again come back as they were, where no row
/// holds a line feed and the last row is not empty. (An empty last row is
/// saved as a line feed at the end, which on loading only ends the row
/// before.)
pub proof fn lemma_split_of_joined(lines: Seq<Seq<char>>)
    requires
        lines.len() >= 1,
        plain(lines),
        lines.last().len() > 0,
    ensures
        split_lines(join_lines(lines)) == lines,
{
    lemma_pieces_of_joined(lines);
}

pub proof fn lemma_rows_insert(lines: Seq<String>, at: int, row: String)
    requires
        0 <= at <= lines.len(),
    ensures
        rows(lines.insert(at, row)) == rows(lines).insert(at, row@),
{
    assert(rows(lines.insert(at, row)) =~= rows(lines).insert(at, row@));
}

pub proof fn lemma_rows_update(lines: Seq<String>, at: int, row: String)
    requires
        0 <= at < lines.len(),
    ensures
        rows(lines.update(at, row)) == rows(lines).update(at, row@),
{
    assert(rows(lines.update(at, row)) =~= rows(lines).update(at, row@));
}

pub proof fn lemma_rows_remove(lines: Seq<String>, at: int)
    requires
        0 <= at < lines.len(),
    ensures
        rows(lines.remove(at)) == rows(lines).remove(at),
{
    assert(rows(lines.remove(at)) =~= rows(lines).remove(at));
}

pub proof fn lemma_rows_push(lines: Seq<String>, row: String)
    ensures
        rows(lines.push(row)) == rows(lines).push(row@),
{
    assert(rows(lines.push(row)) =~= rows(lines).push(row@));
}

/// `String::push`: the character is appended, the rest is kept.
#[verifier::external_body]
fn push_char(s: &mut String, c: char)
    ensures
        final(s)@ == old(s)@.push(c),
{
    s.push(c)
}

/// The characters of `s`, for indexing in constant time.
pub fn to_chars(s: &str) -> (r: Vec<char>)
    ensures
        r@ == s@,
{
    let mut out: Vec<char> = Vec::new();
    for c in it: s.chars()
        invariant
            it.seq() == s@,
            out@ == s@.subrange(0, it.index() as int),
    {
        out.push(c);
        assert(out@ =~= s@.subrange(0, it.index() + 1));
    }
    assert(s@.subrange(0, s@.len() as int) =~= s@);
    out
}

/// A row of its own with `text` spliced into `row` before column `at`.
pub fn splice_row(row: &str, at: usize, text: &str) -> (r: String)
    requires
        at <= row@.len(),
    ensures
        r@ == splice(row@, at as int, text@),
{
    let n = row.unicode_len();
    let mut out = String::from_str(row.substring_char(0, at));
    out.append(text);
    out.append(row.substring_char(at, n));
    out
}

/// A row of its own with the one character `c` put into `row` before column `at`.
pub fn splice_char(row: &str, at: usize, c: char) -> (r: String)
    requires
        at <= row@.len(),
    ensures
        r@ == splice(row@, at as int, seq![c]),
{
    let n = row.unicode_len();
    let mut out = String::from_str(row.substring_char(0, at));
    push_char(&mut out, c);
    out.append(row.substring_char(at, n));
    assert(out@ =~= splice(row@, at as int, seq![c]));
    out
}

/// A row of its own without the character of `row` at column `at`.
pub fn remove_char(row: &str, at: usize) -> (r: String)
    requires
        at < row@.len(),
    ensures
        r@ == row@.remove(at as int),
{
    let n = row.unicode_len();
    let mut out = String::from_str(row.substring_char(0, at));
    out.append(row.substring_char(at + 1, n));
    assert(out@ =~= row@.remove(at as int));
    out
}

/// The two halves of `row` before and from column `at`.
pub fn split_row(row: &str, at: usize) -> (r: (String, String))
    requires
        at <= row@.len(),
    ensures
        r.0@ == row@.subrange(0, at as int),
        r.1@ == row@.subrange(at as int, row@.len() as int),
{
    let n = row.unicode_len();
    (String::from_str(row.substring_char(0, at)), String::from_str(row.substring_char(at, n)))
}

/// Whether `query` stands in `row` at column `at`.
fn matches_at(row: &Vec<char>, query: &Vec<char>, at: usize) -> (r: bool)
    requires
        at + query.len() <= row.len(),
    ensures
        r == occurs_at(row@, query@, at as int),
{
    let mut k: usize = 0;
    while k < query.len()
        invariant
            k <= query.len(),
            at + query.len() <= row.len(),
            forall|j: int| 0 <= j < k ==> row@[at + j] == query@[j],
        decreases query.len() - k,
    {
        if row[at + k] != query[k] {
            assert(row@.subrange(at as int, at + query.len())[k as int] != query@[k as int]);
            return false;
        }
        k += 1;
    }
    assert(row@.subrange(at as int, at + query.len()) =~= query@);
    true
}

/// The column of the first occurrence of `query` in `row`, if there is one.
pub fn find_in_row(row: &str, query: &str) -> (r: Option<usize>)
    ensures
        match r {
            Some(at) => find(row@, query@) == Some(at as int),
            None => find(row@, query@).is_none(),
        },
{
    let hay = to_chars(row);
    let needle = to_chars(query);
    if needle.len() > hay.len() {
        return None;
    }
    let last: usize = hay.len() - needle.len();
    let mut at: usize = 0;
    loop
        invariant
            hay@ == row@,
            needle@ == query@,
            last == hay.len() - needle.len(),
            at <= last,
            find(row@, query@) == find_from(row@, query@, at as int),
        decreases last - at,
    {
        if matches_at(&hay, &needle, at) {
            return Some(at);
        }
        if at == last {
            return None;
        }
        at += 1;
    }
}

/// The lines of `text`, each a row of its own.
pub fn split_text(text: &str) -> (r: Vec<String>)
    ensures
        rows(r@) == split_lines(text@),
{
    let mut lines: Vec<String> = Vec::new();
    let mut cur = String::new();
    for c in it: text.chars()
        invariant
            it.seq() == text@,
            rows(lines@).push(cur@) == pieces(text@.subrange(0, it.index() as int)),
    {
        proof {
            let k = it.index() as int;
            assert(text@.subrange(0, k + 1).drop_last() =~= text@.subrange(0, k));
            assert(text@.subrange(0, k + 1).last() == c);
            assert(rows(lines@).push(cur@).drop_last() =~= rows(lines@));
        }
        if c == '\n' {
            proof {
                assert(rows(lines@.push(cur)).push(Seq::<char>::empty()) =~= rows(lines@).push(
                    cur@,
                ).push(Seq::<char>::empty()));
            }
            lines.push(cur);
            cur = String::new();
        } else {
            push_char(&mut cur, c);
        }
    }
    proof {
        assert(text@.subrange(0, text@.len() as int) =~= text@);
        assert(rows(lines@).push(cur@).drop_last() =~= rows(lines@));
    }
    if cur.unicode_len() != 0 {
        proof {
            assert(rows(lines@.push(cur)) =~= rows(lines@).push(cur@));
        }
        lines.push(cur);
    }
    lines
}

/// The rows joined into one text, a line feed between each two.
pub fn join_rows(lines: &Vec<String>) -> (r: String)
    ensures
        r@ == join_lines(rows(lines@)),
{
    let mut out = String::new();
    let mut i: usize = 0;
    while i < lines.len()
        invariant
            i <= lines.len(),
            out@ == join_lines(rows(lines@).subrange(0, i as int)),
        decreases lines.len() - i,
    {
        proof {
            let upto = rows(lines@).subrange(0, i + 1);
            assert(upto.drop_last() =~= rows(lines@).subrange(0, i as int));
            assert(upto.last() == lines@[i as int]@);
        }
        if i > 0 {
            push_char(&mut out, '\n');
        }
        out.append(lines[i].as_str());
        i += 1;
    }
    assert(rows(lines@).subrange(0, lines@.len() as int) =~= rows(lines@));
    out
}

/// Whether the rows are within the limit: fewer than `isize::MAX` of them,
/// each shorter than `isize::MAX` characters.
pub fn rows_fit(lines: &[String]) -> (r: bool)
    ensures
        r == fits(rows(lines@)),
{
    if lines.len() >= isize::MAX as usize {
        return false;
    }
    let mut i: usize = 0;
    while i < lines.len()
        invariant
            i <= lines.len(),
            lines.len() < limit(),
            forall|j: int| 0 <= j < i ==> (#[trigger] rows(lines@)[j]).len() < limit(),
        decreases lines.len() - i,
    {
        if lines[i].as_str().unicode_len() >= isize::MAX as usize {
            assert(rows(lines@)[i as int].len() >= limit());
            return false;
        }
        i += 1;
    }
    true
}

/// A copy of each row.
pub fn copy_rows(lines: &Vec<String>) -> (r: Vec<String>)
    ensures
        rows(r@) == rows(lines@),
{
    let mut out: Vec<String> = Vec::new();
    let mut i: usize = 0;
    while i < lines.len()
        invariant
            i <= lines.len(),
            rows(out@) == rows(lines@).subrange(0, i as int),
        decreases lines.len() - i,
    {
        let row = lines[i].clone();
        proof {
            lemma_rows_push(out@, row);
        }
        out.push(row);
        assert(rows(out@) =~= rows(lines@).subrange(0, i + 1));
        i += 1;
    }
    assert(rows(lines@).subrange(0, lines@.len() as int) =~= rows(lines@));
    out
}

} // verus!
