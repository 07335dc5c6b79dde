//! The layout/scroll engine: splitting content into lines and computing
//! the visible viewport.
//!
//! Content text is split on `'\n'` alone (the page texts carry no
//! carriage returns); a trailing newline produces no final empty line.
//! The viewport keeps three rows under the content free for the footer,
//! and a scroll offset past the end of the content simply yields an
//! empty visible window.

use vstd::prelude::*;

verus! {

/// One step of splitting on `'\n'`: `cur` is the line being read,
/// `done` the finished lines. A non-empty final line is kept; a text
/// ending in `'\n'` adds no empty line after it.
pub open spec fn lines_acc(s: Seq<char>, cur: Seq<char>, done: Seq<Seq<char>>) -> Seq<Seq<char>>
    decreases s.len(),
{
    if s.len() == 0 {
        if cur.len() == 0 {
            done
        } else {
            done.push(cur)
        }
    } else if s[0] == '\n' {
        lines_acc(s.skip(1), Seq::empty(), done.push(cur))
    } else {
        lines_acc(s.skip(1), cur.push(s[0]), done)
    }
}

/// The lines of a text, split on `'\n'`.
pub open spec fn spec_lines(s: Seq<char>) -> Seq<Seq<char>> {
    lines_acc(s, Seq::empty(), Seq::empty())
}

/// The views of a vector of lines, in order.
pub open spec fn line_models(lines: Seq<String>) -> Seq<Seq<char>> {
    lines.map_values(|l: String| l@)
}

/// Splits a content text into its lines, exactly as `spec_lines` says.
pub fn split_lines(text: &str) -> (lines: Vec<String>)
    ensures
        line_models(lines@) == spec_lines(text@),
{
    let n = text.unicode_len();
    let mut done: Vec<String> = Vec::new();
    let mut start: usize = 0;
    let mut i: usize = 0;
    proof {
        assert(text@.skip(0) =~= text@);
        assert(text@.subrange(0, 0) =~= Seq::<char>::empty());
        assert(line_models(done@) =~= Seq::<Seq<char>>::empty());
    }
    while i < n
        invariant
            n == text@.len(),
            start <= i <= n,
            lines_acc(text@.skip(i as int), text@.subrange(start as int, i as int), line_models(done@))
                == spec_lines(text@),
        decreases n - i,
    {
        let ghost rest = text@.skip(i as int);
        let ghost cur = text@.subrange(start as int, i as int);
        let ghost d = line_models(done@);
        let c = text.get_char(i);
        proof {
            assert(rest[0] == text@[i as int]);
            assert(rest.skip(1) =~= text@.skip(i as int + 1));
        }
        if c == '\n' {
            proof {
                assert(lines_acc(rest, cur, d) == lines_acc(rest.skip(1), Seq::empty(), d.push(cur)));
            }
            let line = text.substring_char(start, i).to_owned();
            done.push(line);
            proof {
                assert(line_models(done@) =~= d.push(cur));
                assert(text@.subrange(i as int + 1, i as int + 1) =~= Seq::<char>::empty());
            }
            start = i + 1;
        } else {
            proof {
                assert(lines_acc(rest, cur, d) == lines_acc(rest.skip(1), cur.push(rest[0]), d));
                assert(cur.push(text@[i as int]) =~= text@.subrange(start as int, i as int + 1));
            }
        }
        i += 1;
    }
    proof {
        assert(text@.skip(n as int) =~= Seq::<char>::empty());
    }
    if start < n {
        let line = text.substring_char(start, n).to_owned();
        done.push(line);
        proof {
            assert(line_models(done@) =~= line_models(done@.drop_last()).push(
                text@.subrange(start as int, n as int),
            ));
        }
    } else {
        proof {
            assert(text@.subrange(start as int, n as int).len() == 0);
        }
    }
    done
}

/// The number of content rows the viewport offers: the terminal height
/// minus the rows above the content and three footer rows, never
/// negative.
pub open spec fn spec_visible_height(terminal_height: u16, start_y: u16) -> int {
    if terminal_height >= start_y + 3 {
        terminal_height - start_y - 3
    } else {
        0
    }
}

/// Computes the viewport height for the content area.
pub fn visible_height(terminal_height: u16, start_y: u16) -> (h: u16)
    ensures
        h == spec_visible_height(terminal_height, start_y),
{
    if terminal_height >= 3 && terminal_height - 3 >= start_y {
        terminal_height - 3 - start_y
    } else {
        0
    }
}

/// How many lines are visible: the lines left past the scroll offset,
/// capped by the viewport height; none when the offset is at or past the
/// end of the content.
pub open spec fn spec_visible_count(len: int, scroll: int, height: int) -> int {
    if scroll >= len {
        0
    } else if len - scroll <= height {
        len - scroll
    } else {
        height
    }
}

/// Pairs each visible line with its destination screen row: the lines
/// `[scroll_offset, scroll_offset + height)` of `lines`, the `k`-th on
/// row `start_y + k`. A scroll offset at or past the end of the content
/// yields an empty window; so does a zero-height viewport.
pub fn visible_lines(
    lines: &Vec<String>,
    scroll_offset: usize,
    start_y: u16,
    terminal_height: u16,
) -> (vis: Vec<(u16, String)>)
    ensures
        vis@.len() == spec_visible_count(
            lines@.len() as int,
            scroll_offset as int,
            spec_visible_height(terminal_height, start_y),
        ),
        forall|k: int|
            0 <= k < vis@.len() ==> vis@[k].0 == start_y + k && vis@[k].1@ == lines@[
                scroll_offset + k
            ]@,
        scroll_offset >= lines@.len() ==> vis@.len() == 0,
{
    let height = visible_height(terminal_height, start_y);
    let mut vis: Vec<(u16, String)> = Vec::new();
    if scroll_offset >= lines.len() {
        return vis;
    }
    let remaining = lines.len() - scroll_offset;
    let count: usize = if remaining <= height as usize {
        remaining
    } else {
        height as usize
    };
    let mut k: usize = 0;
    while k < count
        invariant
            count == spec_visible_count(
                lines@.len() as int,
                scroll_offset as int,
                spec_visible_height(terminal_height, start_y),
            ),
            scroll_offset + count <= lines@.len(),
            scroll_offset + count <= usize::MAX,
            count <= spec_visible_height(terminal_height, start_y),
            start_y + 3 + spec_visible_height(terminal_height, start_y) <= u16::MAX + 3,
            k <= count,
            vis@.len() == k,
            forall|j: int|
                0 <= j < k ==> vis@[j].0 == start_y + j && vis@[j].1@ == lines@[
                    scroll_offset + j
                ]@,
        decreases count - k,
    {
        let row: u16 = start_y + (k as u16);
        let line = lines[scroll_offset + k].clone();
        vis.push((row, line));
        k += 1;
    }
    vis
}

} // verus!
