//! Content search: the lines of a text that hold the query.
//!
//! The caller reads the file and prints the lines; what a line is and which
//! lines match is decided here.

use vstd::prelude::*;

verus! {

/// The character that ends a line.
pub const LINE_FEED: char = '\n';

/// The character that, directly before a line feed, belongs to the line
/// ending.
pub const CARRIAGE_RETURN: char = '\r';

/// The number of characters before the first line feed of `text`, or the
/// length of `text` where it holds none.
pub open spec fn first_line_length(text: Seq<char>) -> nat
    decreases text.len(),
{
    if text.len() == 0 || text[0] == LINE_FEED {
        0
    } else {
        1 + first_line_length(text.drop_first())
    }
}

/// A line without the carriage return that stood before its line feed.
pub open spec fn without_carriage_return(line: Seq<char>) -> Seq<char> {
    if line.len() > 0 && line.last() == CARRIAGE_RETURN {
        line.drop_last()
    } else {
        line
    }
}

/// The lines of a text. A line ends with a line feed, or with a carriage
/// return and a line feed; neither belongs to the line. What follows the
/// last line feed is a line of its own unless it is empty, and it is kept
/// as it is. An empty text has no lines.
pub open spec fn lines_of(text: Seq<char>) -> Seq<Seq<char>>
    decreases text.len(),
{
    let length = first_line_length(text) as int;
    if text.len() == 0 {
        Seq::empty()
    } else if length >= text.len() {
        seq![text]
    } else {
        seq![without_carriage_return(text.take(length))] + lines_of(text.skip(length + 1))
    }
}

/// Whether `query` stands in `line` from position `at` on.
pub open spec fn occurs_at(line: Seq<char>, query: Seq<char>, at: int) -> bool {
    0 <= at && at + query.len() <= line.len() && line.subrange(at, at + query.len()) == query
}

/// Whether `query` stands somewhere in `line`. The empty query stands in
/// every line.
pub open spec fn has_substring(line: Seq<char>, query: Seq<char>) -> bool {
    exists|at: int| occurs_at(line, query, at)
}

/// The predicate that keeps the lines that hold `query`.
pub open spec fn holding(query: Seq<char>) -> spec_fn(Seq<char>) -> bool {
    |line: Seq<char>| has_substring(line, query)
}

/// The lines of `text` that hold `query`, in their order.
pub open spec fn matching_lines(query: Seq<char>, text: Seq<char>) -> Seq<Seq<char>> {
    lines_of(text).filter(holding(query))
}

/// Where no line feed stands before position `length` of `text`, and one
/// stands there or the text ends there, the first line has that length.
proof fn first_line_ends_at(text: Seq<char>, length: int)
    requires
        0 <= length <= text.len(),
        forall|k: int| 0 <= k < length ==> text[k] != LINE_FEED,
        length == text.len() || text[length] == LINE_FEED,
    ensures
        first_line_length(text) == length,
    decreases length,
{
    if length > 0 {
        first_line_ends_at(text.drop_first(), length - 1);
    }
}

/// The characters of a string, one by one.
fn characters(text: &String) -> (list: Vec<char>)
    ensures
        list@ == text@,
{
    let mut list: Vec<char> = Vec::new();
    for character in walk: text.as_str().chars()
        invariant
            list@ == walk.seq().take(walk.index() as int),
    {
        list.push(character);
    }
    list
}

/// Whether `query` stands in the stretch of `text` from `start` up to
/// `end`, beginning at position `at` of `text`.
fn matches_at(text: &Vec<char>, start: usize, end: usize, query: &Vec<char>, at: usize) -> (found:
    bool)
    requires
        start <= at,
        at + query.len() <= end <= text.len(),
    ensures
        found == occurs_at(text@.subrange(start as int, end as int), query@, at - start),
{
    let ghost line = text@.subrange(start as int, end as int);
    let ghost piece = line.subrange(at - start, at - start + query.len());
    let mut k: usize = 0;
    while k < query.len()
        invariant
            k <= query.len(),
            start <= at,
            at + query.len() <= end <= text.len(),
            line == text@.subrange(start as int, end as int),
            piece == line.subrange(at - start, at - start + query.len()),
            forall|j: int| 0 <= j < k ==> text@[at + j] == query@[j],
        decreases query.len() - k,
    {
        if text[at + k] != query[k] {
            assert(piece[k as int] == text@[at + k]);
            return false;
        }
        k += 1;
    }
    assert(piece =~= query@);
    true
}

/// Whether `query` stands somewhere in the stretch of `text` from `start`
/// up to `end`.
fn line_holds(text: &Vec<char>, start: usize, end: usize, query: &Vec<char>) -> (found: bool)
    requires
        start <= end <= text.len(),
    ensures
        found == has_substring(text@.subrange(start as int, end as int), query@),
{
    let ghost line = text@.subrange(start as int, end as int);
    if query.len() > end - start {
        return false;
    }
    let last = end - query.len();
    let mut at = start;
    while at < last
        invariant
            start <= at <= last,
            last == end - query.len(),
            start <= end <= text.len(),
            line == text@.subrange(start as int, end as int),
            forall|k: int| 0 <= k < at - start ==> !occurs_at(line, query@, k),
        decreases last - at,
    {
        if matches_at(text, start, end, query, at) {
            assert(occurs_at(line, query@, at - start));
            return true;
        }
        at += 1;
    }
    let found = matches_at(text, start, end, query, last);
    assert(found ==> occurs_at(line, query@, last - start));
    found
}

/// Content search. The lines of `file_contents` that hold `query_item`,
/// in the order in which they stand in the text.
pub fn simple_grep(query_item: &String, file_contents: &String) -> (found: Vec<String>)
    ensures
        found.deep_view() == matching_lines(query_item@, file_contents@),
{
    let text = characters(file_contents);
    let query = characters(query_item);
    let ghost all = text@;
    let ghost keep = holding(query@);
    let ghost mut done: Seq<Seq<char>> = Seq::empty();
    let mut found: Vec<String> = Vec::new();
    let mut start: usize = 0;
    let mut i: usize = 0;
    proof {
        assert(all.skip(0) =~= all);
        assert(done + lines_of(all) =~= lines_of(all));
        reveal(Seq::filter);
        assert(done.filter(keep) =~= Seq::<Seq<char>>::empty());
    }
    while i < text.len()
        invariant
            start <= i <= text.len(),
            all == text@,
            all == file_contents@,
            query@ == query_item@,
            keep == holding(query@),
            forall|k: int| start <= k < i ==> all[k] != LINE_FEED,
            lines_of(all) == done + lines_of(all.skip(start as int)),
            found.deep_view() == done.filter(keep),
        decreases text.len() - i,
    {
        if text[i] == LINE_FEED {
            let end = if i > start && text[i - 1] == CARRIAGE_RETURN {
                i - 1
            } else {
                i
            };
            let ghost rest = all.skip(start as int);
            let ghost line = all.subrange(start as int, end as int);
            proof {
                first_line_ends_at(rest, i - start);
                assert(rest.take(i - start) =~= all.subrange(start as int, i as int));
                assert(without_carriage_return(all.subrange(start as int, i as int)) =~= line);
                assert(rest.skip(i - start + 1) =~= all.skip(i + 1));
                assert(lines_of(rest) == seq![line] + lines_of(all.skip(i + 1)));
                assert(done + (seq![line] + lines_of(all.skip(i + 1))) =~= done.push(line)
                    + lines_of(all.skip(i + 1)));
                done.lemma_filter_push(line, keep);
            }
            let ghost before = found.deep_view();
            if line_holds(&text, start, end, &query) {
                let piece = file_contents.as_str().substring_char(start, end);
                found.push(piece.to_string());
                assert(found.deep_view() =~= before.push(line));
            }
            proof {
                done = done.push(line);
            }
            start = i + 1;
        }
        i += 1;
    }
    let ghost rest = all.skip(start as int);
    if start < text.len() {
        let ghost line = all.subrange(start as int, text.len() as int);
        proof {
            first_line_ends_at(rest, text.len() - start);
            assert(rest =~= line);
            assert(lines_of(rest) == seq![line]);
            assert(done + seq![line] =~= done.push(line));
            done.lemma_filter_push(line, keep);
        }
        let ghost before = found.deep_view();
        if line_holds(&text, start, text.len(), &query) {
            let piece = file_contents.as_str().substring_char(start, text.len());
            found.push(piece.to_string());
            assert(found.deep_view() =~= before.push(line));
        }
    } else {
        assert(lines_of(rest) =~= Seq::<Seq<char>>::empty());
        assert(done + lines_of(rest) =~= done);
    }
    found
}

} // verus!
