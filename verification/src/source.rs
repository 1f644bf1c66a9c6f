//! Work items, and the delimited-text form of a work list: one item per
//! line, its name and its URL separated by a comma.

use crate::text::{chars_of, find, first_index, string_of, trim, trim_bounds};
use vstd::prelude::*;

verus! {

/// The mathematical form of a work item.
pub struct WorkItemView {
    pub name: Seq<char>,
    pub url: Seq<char>,
}

/// One file to fetch: the name it is stored under, and where it comes from.
#[derive(Clone, Debug, PartialEq, Eq)]
pub struct WorkItem {
    pub name: String,
    pub url: String,
}

impl View for WorkItem {
    type V = WorkItemView;

    open spec fn view(&self) -> WorkItemView {
        WorkItemView { name: self.name@, url: self.url@ }
    }
}

/// The mathematical form of a work list: its items, in order.
pub open spec fn items_view(list: Seq<WorkItem>) -> Seq<WorkItemView> {
    Seq::new(list.len(), |i: int| list[i]@)
}

/// `line` without the carriage return that it may end with.
pub open spec fn strip_carriage_return(line: Seq<char>) -> Seq<char> {
    if line.len() > 0 && line.last() == '\r' {
        line.drop_last()
    } else {
        line
    }
}

/// The lines of `text`. A line ends at a line feed; the line feed, and a
/// carriage return directly before it, are not part of the line. What
/// follows the last line feed is a line of its own unless it is empty.
pub open spec fn lines(text: Seq<char>) -> Seq<Seq<char>>
    decreases text.len(),
{
    if text.len() == 0 {
        Seq::empty()
    } else {
        let n = first_index(text, '\n');
        if 0 <= n < text.len() {
            seq![strip_carriage_return(text.take(n))] + lines(text.skip(n + 1))
        } else {
            seq![text]
        }
    }
}

/// The fields of `line`: the pieces between its commas. A line with `k`
/// commas has `k + 1` fields.
pub open spec fn fields(line: Seq<char>) -> Seq<Seq<char>>
    decreases line.len(),
{
    let c = first_index(line, ',');
    if 0 <= c < line.len() {
        seq![line.take(c)] + fields(line.skip(c + 1))
    } else {
        seq![line]
    }
}

/// The item that `line` stands for: its first field is the name, its second
/// field, without the whitespace around it, the URL. A line with fewer than
/// two fields stands for nothing.
pub open spec fn parsed_line(line: Seq<char>) -> Option<WorkItemView> {
    let f = fields(line);
    if f.len() >= 2 {
        Some(WorkItemView { name: f[0], url: trim(f[1]) })
    } else {
        None
    }
}

/// The items that `lines` stand for, in order.
pub open spec fn parsed_lines(lines: Seq<Seq<char>>) -> Seq<WorkItemView>
    decreases lines.len(),
{
    if lines.len() == 0 {
        Seq::empty()
    } else {
        let before = parsed_lines(lines.drop_last());
        match parsed_line(lines.last()) {
            Some(item) => before.push(item),
            None => before,
        }
    }
}

/// The work list that `text` stands for.
pub open spec fn parsed_text(text: Seq<char>) -> Seq<WorkItemView> {
    parsed_lines(lines(text))
}

/// Reads the line that spans `from..to` in `chars`.
fn parse_line_at(chars: &Vec<char>, from: usize, to: usize) -> (item: Option<WorkItem>)
    requires
        from <= to <= chars@.len(),
    ensures
        (match item {
            Some(w) => parsed_line(chars@.subrange(from as int, to as int)) == Some(w@),
            None => parsed_line(chars@.subrange(from as int, to as int)) is None,
        }),
{
    let ghost line = chars@.subrange(from as int, to as int);
    let comma = find(chars, from, to, ',');
    if comma == to {
        return None;
    }
    let second = find(chars, comma + 1, to, ',');
    let (a, b) = trim_bounds(chars, comma + 1, second);
    let name = string_of(chars, from, comma);
    let url = string_of(chars, a, b);
    proof {
        let rest = line.skip(comma - from + 1);
        assert(rest == chars@.subrange(comma + 1, to as int));
        assert(line.take(comma - from) == chars@.subrange(from as int, comma as int));
        assert(rest.take(second - comma - 1) == chars@.subrange(comma + 1, second as int));
        assert(fields(rest)[0] == rest.take(second - comma - 1));
    }
    Some(WorkItem { name, url })
}

/// Reads a work list from delimited text.
pub fn text_parser(text: &str) -> (files: Vec<WorkItem>)
    ensures
        items_view(files@) == parsed_text(text@),
{
    let chars = chars_of(text);
    let n = chars.len();
    let mut files: Vec<WorkItem> = Vec::new();
    let mut pos: usize = 0;
    let ghost mut done: Seq<Seq<char>> = Seq::empty();
    assert(chars@.skip(0) == chars@);
    while pos < n
        invariant
            pos <= n,
            n == chars@.len(),
            lines(chars@) == done + lines(chars@.skip(pos as int)),
            items_view(files@) == parsed_lines(done),
        decreases n - pos,
    {
        let ghost tail = chars@.skip(pos as int);
        let feed = find(&chars, pos, n, '\n');
        let terminated = feed < n;
        let end: usize = if terminated && pos < feed && chars[feed - 1] == '\r' {
            feed - 1
        } else {
            feed
        };
        let next: usize = if terminated {
            feed + 1
        } else {
            n
        };
        let ghost line = chars@.subrange(pos as int, end as int);
        proof {
            if terminated {
                assert(strip_carriage_return(tail.take(feed - pos)) == line);
                assert(tail.skip(feed - pos + 1) == chars@.skip(next as int));
            }
            assert(done.push(line).drop_last() == done);
        }
        match parse_line_at(&chars, pos, end) {
            Some(item) => {
                files.push(item);
            },
            None => {},
        }
        proof {
            done = done.push(line);
        }
        pos = next;
    }
    files
}

} // verus!
