//! Screen areas, the splits of the screen that ratatui's layout solver
//! computes (the sidebar beside the page, and the results block of the
//! search page), and an area centred in another.

use vstd::prelude::*;
use ratatui::layout::{Constraint, Direction, Layout, Rect};

verus! {

/// A rectangle of terminal cells.
#[derive(Debug, PartialEq, Eq, Structural, Clone, Copy)]
pub struct Area {
    pub x: u16,
    pub y: u16,
    pub width: u16,
    pub height: u16,
}

/// The height of `area` once cut at the last row of the screen, as
/// `Rect::new` cuts it.
pub open spec fn fitted_height(area: Area) -> int {
    if area.y + area.height > u16::MAX { u16::MAX - area.y } else { area.height as int }
}

/// The width of `area` once cut at the last column of the screen, as
/// `Rect::new` cuts it.
pub open spec fn fitted_width(area: Area) -> int {
    if area.x + area.width > u16::MAX { u16::MAX - area.x } else { area.width as int }
}

/// The page column of `area` laid out as a 16-cell sidebar followed by a
/// page of at least 40 cells: the page keeps its 40 cells before the
/// sidebar keeps its 16, and takes every cell beyond both. It spans the
/// area's rows.
pub open spec fn sidebar_page_column(area: Area) -> Area {
    let w = fitted_width(area);
    let h = fitted_height(area) as u16;
    if w >= 56 {
        Area { x: (area.x + 16) as u16, y: area.y, width: (w - 16) as u16, height: h }
    } else if w >= 40 {
        Area { x: (area.x + w - 40) as u16, y: area.y, width: 40, height: h }
    } else {
        Area { x: area.x, y: area.y, width: w as u16, height: h }
    }
}

/// The page column of `area` next to the sidebar: `ratatui::layout::Layout`
/// split horizontally with `Constraint::Length(16)` and
/// `Constraint::Min(40)`, second part. The solver's strengths put the
/// minimum of the page before the length of the sidebar, so the column is
/// the one `sidebar_page_column` gives.
#[verifier::external_body]
pub(crate) fn split_off_sidebar(area: Area) -> (r: Area)
    ensures
        r == sidebar_page_column(area),
{
    let chunks = Layout::default()
        .direction(Direction::Horizontal)
        .constraints([Constraint::Length(16), Constraint::Min(40)])
        .split(Rect::new(area.x, area.y, area.width, area.height));
    let c = chunks[1];
    Area { x: c.x, y: c.y, width: c.width, height: c.height }
}

/// `block` is the results block of the search page in `area`, with three
/// lines of query input above it and two lines of help below, as
/// ratatui's vertical layout solver places it. It spans the area's width.
/// With fifteen rows or more both fixed parts keep their lines and the
/// block takes the rest; with fewer than ten rows the block takes them
/// all. In between the block is ten lines high and the solver shares the
/// shortfall of the fixed parts between them, so its top lies anywhere
/// from the area's first row to three rows below it.
pub open spec fn search_results_block(area: Area, block: Area) -> bool {
    let h = fitted_height(area);
    &&& block.x == area.x
    &&& block.width == fitted_width(area)
    &&& if h >= 15 {
        block.y == area.y + 3 && block.height == h - 5
    } else if h < 10 {
        block.y == area.y && block.height == h
    } else {
        block.height == 10 && area.y <= block.y <= area.y + 3 && block.y + 10 <= area.y + h
    }
}

/// The results part of the search page: `ratatui::layout::Layout` split
/// vertically with `Constraint::Length(3)`, `Constraint::Min(10)` and
/// `Constraint::Length(2)`, second part. The minimum of the middle part
/// outweighs the two lengths, which outweigh its wish to stay at ten
/// lines; only for ten to fourteen rows do the two lengths tie, and the
/// contract leaves open how their shortfall is shared.
#[verifier::external_body]
pub(crate) fn split_search_page(area: Area) -> (r: Area)
    ensures
        search_results_block(area, r),
{
    let chunks = Layout::default()
        .direction(Direction::Vertical)
        .constraints([Constraint::Length(3), Constraint::Min(10), Constraint::Length(2)])
        .split(Rect::new(area.x, area.y, area.width, area.height));
    let c = chunks[1];
    Area { x: c.x, y: c.y, width: c.width, height: c.height }
}

/// Whether the cell at column `col`, row `row` lies in `area` (an area
/// reaching past the last cell is cut at it).
pub open spec fn area_contains(area: Area, col: u16, row: u16) -> bool {
    let right: int = if area.x + area.width > u16::MAX { u16::MAX as int } else { area.x + area.width };
    let bottom: int = if area.y + area.height > u16::MAX { u16::MAX as int } else { area.y + area.height };
    area.x <= col < right && area.y <= row < bottom
}

impl Area {
    /// Whether the cell at column `col`, row `row` lies in this area.
    pub fn contains(&self, col: u16, row: u16) -> (r: bool)
        ensures
            r == area_contains(*self, col, row),
    {
        let right = self.x.saturating_add(self.width);
        let bottom = self.y.saturating_add(self.height);
        self.x <= col && col < right && self.y <= row && row < bottom
    }
}

/// An area of `width` by `height` cells centred in `outer`: the room left
/// over is split in halves (the odd cell goes after it), and the area is
/// cut to the size of `outer`.
pub open spec fn centered_spec(outer: Area, width: u16, height: u16) -> Area {
    let spare_w: int = if outer.width > width { outer.width - width } else { 0 };
    let spare_h: int = if outer.height > height { outer.height - height } else { 0 };
    Area {
        x: (outer.x + spare_w / 2) as u16,
        y: (outer.y + spare_h / 2) as u16,
        width: if width < outer.width { width } else { outer.width },
        height: if height < outer.height { height } else { outer.height },
    }
}

/// Centres an area of `width` by `height` cells in `outer`, which lies
/// within the screen.
pub fn centered(outer: Area, width: u16, height: u16) -> (r: Area)
    requires
        outer.x + outer.width <= u16::MAX,
        outer.y + outer.height <= u16::MAX,
    ensures
        r == centered_spec(outer, width, height),
        r.x + r.width <= outer.x + outer.width,
        r.y + r.height <= outer.y + outer.height,
{
    let x = outer.x + outer.width.saturating_sub(width) / 2;
    let y = outer.y + outer.height.saturating_sub(height) / 2;
    Area {
        x,
        y,
        width: if width < outer.width { width } else { outer.width },
        height: if height < outer.height { height } else { outer.height },
    }
}

} // verus!
