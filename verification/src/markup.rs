//! Prefix-based markup classification and styled-line rendering.
//!
//! Each content line is classified by its literal prefix, highest
//! specificity first, and rendered as an ordered sequence of styled
//! segments. Lines are never wrapped here: anything wider than the
//! terminal is left to the terminal's own clipping.

use vstd::prelude::*;

verus! {

/// The classification of one content line, decided by its prefix.
#[derive(Debug, Clone, Copy, PartialEq, Eq, Structural)]
pub enum LineKind {
    Heading1,
    Heading2,
    Bullet,
    CodeFence,
    Plain,
}

/// A foreground color the renderer can ask the terminal for.
#[derive(Debug, Clone, Copy, PartialEq, Eq, Structural)]
pub enum Color {
    Cyan,
    Green,
    Yellow,
    White,
    Magenta,
    Grey,
    DarkGrey,
    Blue,
    Red,
}

/// The atomic output unit: a run of text with one color and emphasis.
#[derive(Debug, Clone)]
pub struct StyledSegment {
    pub text: String,
    pub color: Color,
    pub bold: bool,
    pub dim: bool,
}

/// The mathematical model of a styled segment.
#[verifier::ext_equal]
pub struct SegModel {
    pub text: Seq<char>,
    pub color: Color,
    pub bold: bool,
    pub dim: bool,
}

impl View for StyledSegment {
    type V = SegModel;

    open spec fn view(&self) -> SegModel {
        SegModel { text: self.text@, color: self.color, bold: self.bold, dim: self.dim }
    }
}

/// `p` is a literal prefix of `s`.
pub open spec fn spec_starts_with(s: Seq<char>, p: Seq<char>) -> bool {
    p.len() <= s.len() && s.subrange(0, p.len() as int) == p
}

/// Classifies one line by its prefix, highest specificity first:
/// `"## "` before `"# "`, then `"- "`, then a three-backtick fence,
/// then plain text.
pub open spec fn spec_classify(line: Seq<char>) -> LineKind {
    if spec_starts_with(line, seq!['#', '#', ' ']) {
        LineKind::Heading2
    } else if spec_starts_with(line, seq!['#', ' ']) {
        LineKind::Heading1
    } else if spec_starts_with(line, seq!['-', ' ']) {
        LineKind::Bullet
    } else if spec_starts_with(line, seq!['`', '`', '`']) {
        LineKind::CodeFence
    } else {
        LineKind::Plain
    }
}

/// The styled segments for one line: headings are stripped of their
/// marker and rendered bold (green for level 2, cyan for level 1);
/// bullets get a yellow glyph before a white body; code fences keep the
/// whole line in dim magenta; anything else is the whole line in white.
pub open spec fn spec_render_line(line: Seq<char>) -> Seq<SegModel> {
    match spec_classify(line) {
        LineKind::Heading2 => seq![
            SegModel { text: line.skip(3), color: Color::Green, bold: true, dim: false },
        ],
        LineKind::Heading1 => seq![
            SegModel { text: line.skip(2), color: Color::Cyan, bold: true, dim: false },
        ],
        LineKind::Bullet => seq![
            SegModel { text: "● "@, color: Color::Yellow, bold: false, dim: false },
            SegModel { text: line.skip(2), color: Color::White, bold: false, dim: false },
        ],
        LineKind::CodeFence => seq![
            SegModel { text: line, color: Color::Magenta, bold: false, dim: true },
        ],
        LineKind::Plain => seq![
            SegModel { text: line, color: Color::White, bold: false, dim: false },
        ],
    }
}

/// The models of a vector of segments, in order.
pub open spec fn seg_models(segs: Seq<StyledSegment>) -> Seq<SegModel> {
    segs.map_values(|s: StyledSegment| s@)
}

/// Law: classification is prefix-priority-deterministic. Whatever
/// follows the marker, a line beginning `"## "` is a level-2 heading
/// and never a level-1 one; `"# "` gives a level-1 heading; `"- "` a
/// bullet; three backticks a code fence.
pub proof fn lemma_classify_prefixes(rest: Seq<char>)
    ensures
        spec_classify(seq!['#', '#', ' '] + rest) == LineKind::Heading2,
        spec_classify(seq!['#', ' '] + rest) == LineKind::Heading1,
        spec_classify(seq!['-', ' '] + rest) == LineKind::Bullet,
        spec_classify(seq!['`', '`', '`'] + rest) == LineKind::CodeFence,
{
    let h2 = seq!['#', '#', ' '] + rest;
    assert(h2.subrange(0, 3) =~= seq!['#', '#', ' ']);
    let h1 = seq!['#', ' '] + rest;
    assert(h1.subrange(0, 2) =~= seq!['#', ' ']);
    if spec_starts_with(h1, seq!['#', '#', ' ']) {
        assert(h1.subrange(0, 3)[1] == h1[1]);
    }
    let b = seq!['-', ' '] + rest;
    assert(b.subrange(0, 2) =~= seq!['-', ' ']);
    if spec_starts_with(b, seq!['#', '#', ' ']) {
        assert(b.subrange(0, 3)[0] == b[0]);
    }
    if spec_starts_with(b, seq!['#', ' ']) {
        assert(b.subrange(0, 2)[0] == b[0]);
    }
    let f = seq!['`', '`', '`'] + rest;
    assert(f.subrange(0, 3) =~= seq!['`', '`', '`']);
    if spec_starts_with(f, seq!['#', '#', ' ']) {
        assert(f.subrange(0, 3)[0] == f[0]);
    }
    if spec_starts_with(f, seq!['#', ' ']) {
        assert(f.subrange(0, 2)[0] == f[0]);
    }
    if spec_starts_with(f, seq!['-', ' ']) {
        assert(f.subrange(0, 2)[0] == f[0]);
    }
}

/// Law: a line with none of the four markup prefixes is plain.
pub proof fn lemma_classify_plain(line: Seq<char>)
    requires
        !spec_starts_with(line, seq!['#', '#', ' ']),
        !spec_starts_with(line, seq!['#', ' ']),
        !spec_starts_with(line, seq!['-', ' ']),
        !spec_starts_with(line, seq!['`', '`', '`']),
    ensures
        spec_classify(line) == LineKind::Plain,
{
}

/// Classifies one line of content text by its prefix.
pub fn classify_line(line: &str) -> (kind: LineKind)
    ensures
        kind == spec_classify(line@),
{
    let n = line.unicode_len();
    if n >= 3 && line.get_char(0) == '#' && line.get_char(1) == '#' && line.get_char(2) == ' ' {
        proof {
            assert(line@.subrange(0, 3) =~= seq!['#', '#', ' ']);
        }
        LineKind::Heading2
    } else if n >= 2 && line.get_char(0) == '#' && line.get_char(1) == ' ' {
        proof {
            assert(line@.subrange(0, 2) =~= seq!['#', ' ']);
        }
        LineKind::Heading1
    } else if n >= 2 && line.get_char(0) == '-' && line.get_char(1) == ' ' {
        proof {
            assert(line@.subrange(0, 2) =~= seq!['-', ' ']);
        }
        LineKind::Bullet
    } else if n >= 3 && line.get_char(0) == '`' && line.get_char(1) == '`' && line.get_char(2)
        == '`' {
        proof {
            assert(line@.subrange(0, 3) =~= seq!['`', '`', '`']);
        }
        LineKind::CodeFence
    } else {
        proof {
            if spec_starts_with(line@, seq!['#', '#', ' ']) {
                assert(line@.subrange(0, 3)[0] == line@[0]);
                assert(line@.subrange(0, 3)[1] == line@[1]);
                assert(line@.subrange(0, 3)[2] == line@[2]);
            }
            if spec_starts_with(line@, seq!['#', ' ']) {
                assert(line@.subrange(0, 2)[0] == line@[0]);
                assert(line@.subrange(0, 2)[1] == line@[1]);
            }
            if spec_starts_with(line@, seq!['-', ' ']) {
                assert(line@.subrange(0, 2)[0] == line@[0]);
                assert(line@.subrange(0, 2)[1] == line@[1]);
            }
            if spec_starts_with(line@, seq!['`', '`', '`']) {
                assert(line@.subrange(0, 3)[0] == line@[0]);
                assert(line@.subrange(0, 3)[1] == line@[1]);
                assert(line@.subrange(0, 3)[2] == line@[2]);
            }
        }
        LineKind::Plain
    }
}

/// Renders one line into its styled segments, exactly as
/// `spec_render_line` says.
pub fn render_line(line: &str) -> (segs: Vec<StyledSegment>)
    ensures
        seg_models(segs@) == spec_render_line(line@),
{
    let kind = classify_line(line);
    let n = line.unicode_len();
    let mut segs: Vec<StyledSegment> = Vec::new();
    match kind {
        LineKind::Heading2 => {
            let body = line.substring_char(3, n);
            segs.push(
                StyledSegment { text: body.to_owned(), color: Color::Green, bold: true, dim: false },
            );
            proof {
                assert(line@.subrange(3, line@.len() as int) =~= line@.skip(3));
                assert(seg_models(segs@) =~= spec_render_line(line@));
            }
        }
        LineKind::Heading1 => {
            let body = line.substring_char(2, n);
            segs.push(
                StyledSegment { text: body.to_owned(), color: Color::Cyan, bold: true, dim: false },
            );
            proof {
                assert(line@.subrange(2, line@.len() as int) =~= line@.skip(2));
                assert(seg_models(segs@) =~= spec_render_line(line@));
            }
        }
        LineKind::Bullet => {
            let body = line.substring_char(2, n);
            segs.push(
                StyledSegment {
                    text: String::from_str("● "),
                    color: Color::Yellow,
                    bold: false,
                    dim: false,
                },
            );
            segs.push(
                StyledSegment { text: body.to_owned(), color: Color::White, bold: false, dim: false },
            );
            proof {
                assert(line@.subrange(2, line@.len() as int) =~= line@.skip(2));
                assert(seg_models(segs@) =~= spec_render_line(line@));
            }
        }
        LineKind::CodeFence => {
            segs.push(
                StyledSegment { text: line.to_owned(), color: Color::Magenta, bold: false, dim: true },
            );
            proof {
                assert(seg_models(segs@) =~= spec_render_line(line@));
            }
        }
        LineKind::Plain => {
            segs.push(
                StyledSegment { text: line.to_owned(), color: Color::White, bold: false, dim: false },
            );
            proof {
                assert(seg_models(segs@) =~= spec_render_line(line@));
            }
        }
    }
    segs
}

} // verus!
