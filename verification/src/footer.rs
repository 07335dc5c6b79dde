//! The footer: a horizontal rule and the static key legend.

use vstd::prelude::*;
use crate::header::{dashes, spec_dashes};
use crate::markup::{Color, SegModel, StyledSegment, seg_models};

verus! {

/// A legend segment: plain text in one color.
pub open spec fn spec_legend_seg(text: Seq<char>, color: Color) -> SegModel {
    SegModel { text: text, color: color, bold: false, dim: false }
}

/// The static key legend: each shortcut in cyan between grey labels.
pub open spec fn spec_footer_legend() -> Seq<SegModel> {
    seq![
        spec_legend_seg("Navigation: "@, Color::Grey),
        spec_legend_seg("a"@, Color::Cyan),
        spec_legend_seg(" Projects | "@, Color::Grey),
        spec_legend_seg("s"@, Color::Cyan),
        spec_legend_seg(" About | "@, Color::Grey),
        spec_legend_seg("d"@, Color::Cyan),
        spec_legend_seg(" Contact | "@, Color::Grey),
        spec_legend_seg("h"@, Color::Cyan),
        spec_legend_seg(" Home | "@, Color::Grey),
        spec_legend_seg("q"@, Color::Cyan),
        spec_legend_seg(" Quit | "@, Color::Grey),
        spec_legend_seg("↑↓"@, Color::Cyan),
        spec_legend_seg(" Scroll"@, Color::Grey),
    ]
}

/// The screen row of the footer rule: two rows above the bottom of the
/// terminal (the legend sits on the row below the rule).
pub fn footer_y(terminal_height: u16) -> (y: u16)
    requires
        terminal_height >= 2,
    ensures
        y == terminal_height - 2,
{
    terminal_height - 2
}

/// Builds the footer's horizontal rule, one stroke per terminal column.
pub fn footer_rule(terminal_width: usize) -> (r: String)
    ensures
        r@ == spec_dashes(terminal_width as nat),
{
    dashes(terminal_width)
}

/// Builds the key legend as styled segments.
pub fn footer_legend() -> (segs: Vec<StyledSegment>)
    ensures
        seg_models(segs@) == spec_footer_legend(),
{
    let mut segs: Vec<StyledSegment> = Vec::new();
    segs.push(legend_seg("Navigation: ", Color::Grey));
    segs.push(legend_seg("a", Color::Cyan));
    segs.push(legend_seg(" Projects | ", Color::Grey));
    segs.push(legend_seg("s", Color::Cyan));
    segs.push(legend_seg(" About | ", Color::Grey));
    segs.push(legend_seg("d", Color::Cyan));
    segs.push(legend_seg(" Contact | ", Color::Grey));
    segs.push(legend_seg("h", Color::Cyan));
    segs.push(legend_seg(" Home | ", Color::Grey));
    segs.push(legend_seg("q", Color::Cyan));
    segs.push(legend_seg(" Quit | ", Color::Grey));
    segs.push(legend_seg("↑↓", Color::Cyan));
    segs.push(legend_seg(" Scroll", Color::Grey));
    proof {
        assert(seg_models(segs@) =~= spec_footer_legend());
    }
    segs
}

/// One legend segment.
fn legend_seg(text: &str, color: Color) -> (seg: StyledSegment)
    ensures
        seg@ == spec_legend_seg(text@, color),
{
    StyledSegment { text: text.to_owned(), color: color, bold: false, dim: false }
}

} // verus!
