//! The end of the log, as the status page shows it.

use crate::text::{chars_of, find_first, first_index_of, push_char};
use vstd::prelude::*;

verus! {

/// Number of lines of the log that the status page shows.
pub const LOG_TAIL_LINES: usize = 200;

/// `line` without a carriage return at its end.
pub open spec fn without_return(line: Seq<char>) -> Seq<char> {
    if line.len() > 0 && line.last() == '\r' {
        line.drop_last()
    } else {
        line
    }
}

/// The lines of a text. A line ends at a line feed; the line feed, and a
/// carriage return just before it, are not part of the line. What follows the
/// last line feed is a line too, unless it is empty.
pub open spec fn lines_of(text: Seq<char>) -> Seq<Seq<char>>
    decreases text.len(),
{
    if text.len() == 0 {
        Seq::empty()
    } else {
        let stop = first_index_of(text, '\n');
        if 0 <= stop < text.len() {
            seq![without_return(text.take(stop))] + lines_of(text.skip(stop + 1))
        } else {
            seq![text]
        }
    }
}

/// The last `count` of `lines`, or all of them where they are fewer.
pub open spec fn last_lines(lines: Seq<Seq<char>>, count: int) -> Seq<Seq<char>> {
    if lines.len() > count {
        lines.skip(lines.len() - count)
    } else {
        lines
    }
}

/// `lines` written one after the other with a line feed between them.
pub open spec fn joined(lines: Seq<Seq<char>>) -> Seq<char>
    decreases lines.len(),
{
    if lines.len() == 0 {
        Seq::empty()
    } else if lines.len() == 1 {
        lines[0]
    } else {
        joined(lines.drop_last()) + seq!['\n'] + lines.last()
    }
}

/// The last `count` lines of `content`, with a line feed between them.
pub open spec fn log_tail_of(content: Seq<char>, count: int) -> Seq<char> {
    joined(last_lines(lines_of(content), count))
}

/// The texts that the ranges `ranges` cut out of `chars`.
pub open spec fn cut_out(chars: Seq<char>, ranges: Seq<(usize, usize)>) -> Seq<Seq<char>> {
    Seq::new(ranges.len(), |k: int| chars.subrange(ranges[k].0 as int, ranges[k].1 as int))
}

/// Finds the lines of `chars` as ranges of indices.
fn line_ranges(chars: &Vec<char>) -> (ranges: Vec<(usize, usize)>)
    ensures
        cut_out(chars@, ranges@) == lines_of(chars@),
        forall|k: int|
            0 <= k < ranges@.len() ==> (#[trigger] ranges@[k]).0 <= ranges@[k].1 <= chars@.len(),
{
    let mut ranges: Vec<(usize, usize)> = Vec::new();
    let mut position: usize = 0;
    assert(chars@.skip(0) == chars@);
    while position < chars.len()
        invariant
            position <= chars.len(),
            lines_of(chars@) == cut_out(chars@, ranges@) + lines_of(chars@.skip(position as int)),
            forall|k: int|
                0 <= k < ranges@.len() ==> (#[trigger] ranges@[k]).0 <= ranges@[k].1
                    <= chars@.len(),
        decreases chars.len() - position,
    {
        let ghost rest = chars@.skip(position as int);
        let stop = find_first(chars, position, chars.len(), '\n');
        if stop < chars.len() {
            let end: usize = if stop > position && chars[stop - 1] == '\r' {
                stop - 1
            } else {
                stop
            };
            proof {
                let line = rest.take(stop - position);
                assert(without_return(line) == chars@.subrange(position as int, end as int));
                assert(rest.skip(stop - position + 1) == chars@.skip(stop + 1));
            }
            ranges.push((position, end));
            position = stop + 1;
        } else {
            ranges.push((position, chars.len()));
            position = chars.len();
        }
    }
    ranges
}

/// The last `count` lines of `content`, with a line feed between them.
pub fn tail_lines(content: &str, count: usize) -> (tail: String)
    ensures
        tail@ == log_tail_of(content@, count as int),
{
    let chars = chars_of(content);
    let ranges = line_ranges(&chars);
    let first: usize = if ranges.len() > count {
        ranges.len() - count
    } else {
        0
    };
    let ghost lines = lines_of(chars@);
    let ghost kept = last_lines(lines, count as int);
    let mut tail = String::new();
    let mut k: usize = first;
    while k < ranges.len()
        invariant
            first <= k <= ranges.len(),
            lines == cut_out(chars@, ranges@),
            kept == lines.skip(first as int),
            tail@ == joined(kept.take(k - first)),
            forall|j: int|
                0 <= j < ranges@.len() ==> (#[trigger] ranges@[j]).0 <= ranges@[j].1
                    <= chars@.len(),
        decreases ranges.len() - k,
    {
        let ghost before = tail@;
        if k > first {
            push_char(&mut tail, '\n');
        }
        let range = ranges[k];
        let mut i: usize = range.0;
        while i < range.1
            invariant
                range.0 <= i <= range.1 <= chars.len(),
                tail@ == (if k > first {
                    before + seq!['\n']
                } else {
                    before
                }) + chars@.subrange(range.0 as int, i as int),
            decreases range.1 - i,
        {
            push_char(&mut tail, chars[i]);
            i += 1;
        }
        assert(kept.take(k - first + 1).drop_last() == kept.take(k - first));
        k += 1;
    }
    assert(kept.take(k - first) == kept);
    tail
}

} // verus!
