//! The header component: the banner with its cyclic palette, and the
//! navigation bar with its box-drawing border.

use vstd::prelude::*;
use crate::handler::Page;
use crate::layout::line_models;
use crate::markup::{Color, SegModel, StyledSegment, seg_models};

verus! {

/// Width in characters of one navigation cell.
pub const NAV_ITEM_WIDTH: usize = 12;

/// Rows between the top of the header and the navigation bar's top
/// border. The bar itself takes three rows: border, labels, border.
pub const NAV_BAR_OFFSET: u16 = 5;

/// `n` spaces.
pub open spec fn spec_spaces(n: nat) -> Seq<char> {
    Seq::new(n, |i: int| ' ')
}

/// `n` horizontal box-drawing strokes.
pub open spec fn spec_dashes(n: nat) -> Seq<char> {
    Seq::new(n, |i: int| '─')
}

/// `text` with `(width - len) / 2` spaces on each side (and none when it
/// is already wider than `width`); one column short of `width` when the
/// leftover is odd.
pub open spec fn spec_center_text(text: Seq<char>, width: int) -> Seq<char> {
    let padding = if width >= text.len() {
        (width - text.len()) / 2
    } else {
        0
    };
    spec_spaces(padding as nat) + text + spec_spaces(padding as nat)
}

/// A navigation label in its cell: a filled circle before the current
/// page's label, a hollow one otherwise, centered in the cell width.
pub open spec fn spec_nav_item(label: Seq<char>, highlighted: bool) -> Seq<char> {
    if highlighted {
        spec_center_text("● "@ + label, NAV_ITEM_WIDTH as int)
    } else {
        spec_center_text("○ "@ + label, NAV_ITEM_WIDTH as int)
    }
}

/// The position of a page in the navigation bar's enumeration order.
pub open spec fn spec_page_index(page: Page) -> int {
    match page {
        Page::Home => 0,
        Page::Store => 1,
        Page::About => 2,
        Page::FAQ => 3,
    }
}

/// The four navigation cells, in page order, with the current page's
/// cell highlighted.
pub open spec fn spec_nav_components(current: Page) -> Seq<Seq<char>> {
    seq![
        spec_nav_item("HOME"@, current == Page::Home),
        spec_nav_item("PROJECTS"@, current == Page::Store),
        spec_nav_item("ABOUT"@, current == Page::About),
        spec_nav_item("CONTACT"@, current == Page::FAQ),
    ]
}

/// The horizontal run of a border: one stroke per character of each
/// cell, with a junction glyph between adjacent cells.
pub open spec fn spec_border_cells(components: Seq<Seq<char>>, junction: char) -> Seq<char>
    decreases components.len(),
{
    if components.len() == 0 {
        Seq::empty()
    } else if components.len() == 1 {
        spec_dashes(components[0].len())
    } else {
        spec_border_cells(components.drop_last(), junction).push(junction) + spec_dashes(
            components.last().len(),
        )
    }
}

/// The top border of the navigation bar: corners at the ends, `┬`
/// junctions between cells.
pub open spec fn spec_nav_top_border(current: Page) -> Seq<char> {
    seq!['╭'] + spec_border_cells(spec_nav_components(current), '┬') + seq!['╮']
}

/// The bottom border of the navigation bar: corners at the ends, `┴`
/// junctions between cells.
pub open spec fn spec_nav_bottom_border(current: Page) -> Seq<char> {
    seq!['╰'] + spec_border_cells(spec_nav_components(current), '┴') + seq!['╯']
}

/// The label row of the navigation bar: the four cells in page order,
/// the current page's cell in bold cyan and the rest in grey, separated
/// and flanked by vertical bars in dark grey.
pub open spec fn spec_nav_row(current: Page) -> Seq<SegModel> {
    let comps = spec_nav_components(current);
    seq![
        SegModel { text: "│"@, color: Color::DarkGrey, bold: false, dim: false },
        spec_nav_cell(comps[0], current == Page::Home),
        SegModel { text: "│"@, color: Color::DarkGrey, bold: false, dim: false },
        spec_nav_cell(comps[1], current == Page::Store),
        SegModel { text: "│"@, color: Color::DarkGrey, bold: false, dim: false },
        spec_nav_cell(comps[2], current == Page::About),
        SegModel { text: "│"@, color: Color::DarkGrey, bold: false, dim: false },
        spec_nav_cell(comps[3], current == Page::FAQ),
        SegModel { text: "│"@, color: Color::DarkGrey, bold: false, dim: false },
    ]
}

/// One cell of the label row, styled by whether it is the current page.
pub open spec fn spec_nav_cell(text: Seq<char>, highlighted: bool) -> SegModel {
    SegModel {
        text: text,
        color: if highlighted {
            Color::Cyan
        } else {
            Color::Grey
        },
        bold: highlighted,
        dim: false,
    }
}

/// Builds a string of `n` spaces.
pub fn spaces(n: usize) -> (r: String)
    ensures
        r@ == spec_spaces(n as nat),
{
    let mut r = String::new();
    let mut j: usize = 0;
    while j < n
        invariant
            j <= n,
            r@ == spec_spaces(j as nat),
        decreases n - j,
    {
        r.append(" ");
        proof {
            reveal_strlit(" ");
            assert(r@ =~= spec_spaces((j + 1) as nat));
        }
        j += 1;
    }
    r
}

/// Builds a string of `n` horizontal box-drawing strokes.
pub fn dashes(n: usize) -> (r: String)
    ensures
        r@ == spec_dashes(n as nat),
{
    let mut r = String::new();
    let mut j: usize = 0;
    while j < n
        invariant
            j <= n,
            r@ == spec_dashes(j as nat),
        decreases n - j,
    {
        r.append("─");
        proof {
            reveal_strlit("─");
            assert(r@ =~= spec_dashes((j + 1) as nat));
        }
        j += 1;
    }
    r
}

/// Centers a text within `width` columns, counting characters.
pub fn center_text(text: &str, width: usize) -> (r: String)
    ensures
        r@ == spec_center_text(text@, width as int),
{
    let len = text.unicode_len();
    let padding = if width >= len {
        (width - len) / 2
    } else {
        0
    };
    let pad = spaces(padding);
    let mut r = pad.clone();
    r.append(text);
    r.append(pad.as_str());
    r
}

/// Builds one navigation cell for `label`, marked as the current page
/// when `highlighted`.
pub fn nav_item(label: &str, highlighted: bool) -> (r: String)
    ensures
        r@ == spec_nav_item(label@, highlighted),
{
    let mut t = String::from_str(if highlighted {
        "● "
    } else {
        "○ "
    });
    t.append(label);
    center_text(t.as_str(), NAV_ITEM_WIDTH)
}

/// Builds the four navigation cells for the current page.
pub fn nav_components(current: &Page) -> (comps: Vec<String>)
    ensures
        line_models(comps@) == spec_nav_components(*current),
{
    let mut comps: Vec<String> = Vec::new();
    comps.push(nav_item("HOME", *current == Page::Home));
    comps.push(nav_item("PROJECTS", *current == Page::Store));
    comps.push(nav_item("ABOUT", *current == Page::About));
    comps.push(nav_item("CONTACT", *current == Page::FAQ));
    proof {
        assert(line_models(comps@) =~= spec_nav_components(*current));
    }
    comps
}

/// Builds the top border of the navigation bar.
pub fn nav_top_border(current: &Page) -> (r: String)
    ensures
        r@ == spec_nav_top_border(*current),
{
    let comps = nav_components(current);
    proof {
        reveal_strlit("╭");
        reveal_strlit("┬");
        reveal_strlit("╮");
    }
    border_line(&comps, "╭", "┬", "╮")
}

/// Builds the bottom border of the navigation bar.
pub fn nav_bottom_border(current: &Page) -> (r: String)
    ensures
        r@ == spec_nav_bottom_border(*current),
{
    let comps = nav_components(current);
    proof {
        reveal_strlit("╰");
        reveal_strlit("┴");
        reveal_strlit("╯");
    }
    border_line(&comps, "╰", "┴", "╯")
}

/// Builds one border row over the given cells: `open_g`, a stroke run
/// per cell joined by `junction`, then `close_g`. The glyph arguments
/// must each be a single character.
fn border_line(comps: &Vec<String>, open_g: &str, junction: &str, close_g: &str) -> (r: String)
    requires
        open_g@.len() == 1,
        junction@.len() == 1,
        close_g@.len() == 1,
    ensures
        r@ == seq![open_g@[0]] + spec_border_cells(line_models(comps@), junction@[0]) + seq![
            close_g@[0]
        ],
{
    let mut r = String::from_str(open_g);
    let mut i: usize = 0;
    proof {
        assert(r@ =~= seq![open_g@[0]]);
        assert(line_models(comps@).take(0) =~= Seq::<Seq<char>>::empty());
    }
    while i < comps.len()
        invariant
            i <= comps@.len(),
            open_g@.len() == 1,
            junction@.len() == 1,
            r@ == seq![open_g@[0]] + spec_border_cells(
                line_models(comps@).take(i as int),
                junction@[0],
            ) + if 0 < i < comps@.len() {
                seq![junction@[0]]
            } else {
                Seq::<char>::empty()
            },
        decreases comps@.len() - i,
    {
        let ghost before = line_models(comps@).take(i as int);
        let ghost after = line_models(comps@).take(i as int + 1);
        let cell = dashes(comps[i].unicode_len());
        r.append(cell.as_str());
        if i + 1 < comps.len() {
            r.append(junction);
        }
        proof {
            assert(after.drop_last() =~= before);
            assert(after.last() == comps@[i as int]@);
            if i == 0 {
                assert(spec_border_cells(after, junction@[0]) =~= spec_dashes(
                    comps@[0]@.len(),
                ));
            }
            assert(r@ =~= seq![open_g@[0]] + spec_border_cells(after, junction@[0]) + if 0 < i + 1
                < comps@.len() {
                seq![junction@[0]]
            } else {
                Seq::<char>::empty()
            });
        }
        i += 1;
    }
    r.append(close_g);
    proof {
        assert(line_models(comps@).take(comps@.len() as int) =~= line_models(comps@));
        assert(r@ =~= seq![open_g@[0]] + spec_border_cells(line_models(comps@), junction@[0])
            + seq![close_g@[0]]);
    }
    r
}

/// Builds the label row of the navigation bar as styled segments.
pub fn nav_row_segments(current: &Page) -> (segs: Vec<StyledSegment>)
    ensures
        seg_models(segs@) == spec_nav_row(*current),
{
    let comps = nav_components(current);
    proof {
        assert(line_models(comps@).len() == 4);
        assert(comps@.len() == 4);
    }
    let mut segs: Vec<StyledSegment> = Vec::new();
    segs.push(nav_separator());
    segs.push(nav_cell(&comps[0], *current == Page::Home));
    segs.push(nav_separator());
    segs.push(nav_cell(&comps[1], *current == Page::Store));
    segs.push(nav_separator());
    segs.push(nav_cell(&comps[2], *current == Page::About));
    segs.push(nav_separator());
    segs.push(nav_cell(&comps[3], *current == Page::FAQ));
    segs.push(nav_separator());
    proof {
        assert(seg_models(segs@) =~= spec_nav_row(*current));
    }
    segs
}

/// A dark-grey vertical separator for the navigation label row.
fn nav_separator() -> (seg: StyledSegment)
    ensures
        seg@ == (SegModel { text: "│"@, color: Color::DarkGrey, bold: false, dim: false }),
{
    StyledSegment { text: String::from_str("│"), color: Color::DarkGrey, bold: false, dim: false }
}

/// One styled cell of the navigation label row.
fn nav_cell(text: &String, highlighted: bool) -> (seg: StyledSegment)
    ensures
        seg@ == spec_nav_cell(text@, highlighted),
{
    StyledSegment {
        text: text.clone(),
        color: if highlighted {
            Color::Cyan
        } else {
            Color::Grey
        },
        bold: highlighted,
        dim: false,
    }
}

/// The six banner lines.
pub open spec fn spec_banner_lines() -> Seq<Seq<char>> {
    seq![
        "  ██████╗  ██████╗ ██████╗ ████████╗███████╗ ██████╗ ██╗     ██╗ ██████╗ "@,
        "  ██╔══██╗██╔═══██╗██╔══██╗╚══██╔══╝██╔════╝██╔═══██╗██║     ██║██╔═══██╗"@,
        "  ██████╔╝██║   ██║██████╔╝   ██║   █████╗  ██║   ██║██║     ██║██║   ██║"@,
        "  ██╔═══╝ ██║   ██║██╔══██╗   ██║   ██╔══╝  ██║   ██║██║     ██║██║   ██║"@,
        "  ██║     ╚██████╔╝██║  ██║   ██║   ██║     ╚██████╔╝███████╗██║╚██████╔╝"@,
        "  ╚═╝      ╚═════╝ ╚═╝  ╚═╝   ╚═╝   ╚═╝      ╚═════╝ ╚══════╝╚═╝ ╚═════╝ "@,
    ]
}

/// The fixed six-color palette the banner cycles through.
pub open spec fn spec_palette() -> Seq<Color> {
    seq![Color::Magenta, Color::Blue, Color::Cyan, Color::Green, Color::Yellow, Color::Red]
}

/// The banner color of line `i`: the palette entry at `i` modulo the
/// palette length.
pub open spec fn spec_banner_color(i: int) -> Color {
    spec_palette()[i % 6]
}

/// Builds the banner lines, in order. Each is drawn bold in
/// `banner_color` of its index.
pub fn banner_lines() -> (r: Vec<String>)
    ensures
        line_models(r@) == spec_banner_lines(),
{
    let mut r: Vec<String> = Vec::new();
    r.push(
        String::from_str(
            "  ██████╗  ██████╗ ██████╗ ████████╗███████╗ ██████╗ ██╗     ██╗ ██████╗ ",
        ),
    );
    r.push(
        String::from_str(
            "  ██╔══██╗██╔═══██╗██╔══██╗╚══██╔══╝██╔════╝██╔═══██╗██║     ██║██╔═══██╗",
        ),
    );
    r.push(
        String::from_str(
            "  ██████╔╝██║   ██║██████╔╝   ██║   █████╗  ██║   ██║██║     ██║██║   ██║",
        ),
    );
    r.push(
        String::from_str(
            "  ██╔═══╝ ██║   ██║██╔══██╗   ██║   ██╔══╝  ██║   ██║██║     ██║██║   ██║",
        ),
    );
    r.push(
        String::from_str(
            "  ██║     ╚██████╔╝██║  ██║   ██║   ██║     ╚██████╔╝███████╗██║╚██████╔╝",
        ),
    );
    r.push(
        String::from_str(
            "  ╚═╝      ╚═════╝ ╚═╝  ╚═╝   ╚═╝   ╚═╝      ╚═════╝ ╚══════╝╚═╝ ╚═════╝ ",
        ),
    );
    proof {
        assert(line_models(r@) =~= spec_banner_lines());
    }
    r
}

/// The banner color of line `i`.
pub fn banner_color(i: usize) -> (c: Color)
    ensures
        c == spec_banner_color(i as int),
{
    let k = i % 6;
    match k {
        0 => Color::Magenta,
        1 => Color::Blue,
        2 => Color::Cyan,
        3 => Color::Green,
        4 => Color::Yellow,
        _ => Color::Red,
    }
}

/// The total height of the header: the banner plus the three rows of the
/// navigation bar, a fixed 8 whatever the current page is.
pub fn header_height(current_page: &Page) -> (h: u16)
    ensures
        h == 8,
{
    match current_page {
        _ => 8,
    }
}

} // verus!
