//! Navigation in a grid of cards laid out row by row, `columns` cards to a
//! row, with a window of rows scrolled into view.

use vstd::prelude::*;

verus! {

/// The number of rows `len` cards take.
pub open spec fn rows_for(len: nat, columns: nat) -> nat
    recommends
        columns > 0,
{
    len / columns + if len % columns != 0 { 1nat } else { 0nat }
}

/// The first row shown after making sure that row `row` is within the
/// `visible` rows shown from `scroll`.
pub open spec fn scrolled(row: int, scroll: int, visible: int) -> int {
    if row < scroll {
        row
    } else if row >= scroll + visible {
        row - visible + 1
    } else {
        scroll
    }
}

/// The selection after moving one row down: the card below, if there is one.
pub open spec fn moved_down(sel: nat, len: nat, columns: nat) -> nat {
    if len > 0 && sel + columns < len { sel + columns } else { sel }
}

/// The selection after moving one row up: the card above, if there is one.
pub open spec fn moved_up(sel: nat, len: nat, columns: nat) -> nat {
    if len > 0 && sel >= columns { (sel - columns) as nat } else { sel }
}

/// The selection after moving right: the next card, if there is one.
pub open spec fn moved_right(sel: nat, len: nat) -> nat {
    if len > 0 && sel + 1 < len { sel + 1 } else { sel }
}

/// The selection after moving left: the previous card, if there is one.
pub open spec fn moved_left(sel: nat, len: nat) -> nat {
    if len > 0 && sel > 0 { (sel - 1) as nat } else { sel }
}

/// Whether the selection is within two rows of the last row of a grid
/// that does not fit in `visible` rows, which is when the next page is
/// fetched.
pub open spec fn near_bottom(sel: nat, len: nat, columns: nat, visible: nat) -> bool {
    let total = rows_for(len, columns);
    let last: int = if total >= 1 { total - 1 } else { 0 };
    &&& len > 0
    &&& sel / columns + 2 >= last
    &&& total > visible
}

/// The number of rows a grid has.
pub fn total_rows(len: usize, columns: usize) -> (r: usize)
    requires
        columns > 0,
    ensures
        r == rows_for(len as nat, columns as nat),
{
    let full = len / columns;
    if len % columns != 0 {
        proof {
            assert(full * columns + len % columns == len) by (nonlinear_arith)
                requires
                    full == len / columns,
                    columns > 0,
            ;
            assert(full < len) by (nonlinear_arith)
                requires
                    full * columns + len % columns == len,
                    len % columns != 0,
                    columns > 0,
                    full >= 0,
            ;
        }
        full + 1
    } else {
        full
    }
}

/// The first row to show so that row `row` is visible in a window of
/// `visible` rows that currently starts at `scroll`.
pub fn scroll_to_show(row: usize, scroll: usize, visible: usize) -> (r: usize)
    requires
        visible >= 1,
    ensures
        r == scrolled(row as int, scroll as int, visible as int),
{
    if row < scroll {
        row
    } else if row - scroll >= visible {
        row - visible + 1
    } else {
        scroll
    }
}

/// Whether the selection is close enough to the end of the grid for the
/// next page to be fetched.
pub fn is_near_bottom(sel: usize, len: usize, columns: usize, visible: usize) -> (r: bool)
    requires
        columns > 0,
    ensures
        r == near_bottom(sel as nat, len as nat, columns as nat, visible as nat),
{
    if len == 0 {
        return false;
    }
    let row = sel / columns;
    let total = total_rows(len, columns);
    let last = if total >= 1 { total - 1 } else { 0 };
    (row as u128) + 2 >= (last as u128) && total > visible
}

/// The number of rows of cards that fit in `height` lines, leaving five
/// lines for the frame, at least one.
pub open spec fn visible_rows_for(height: nat, card_height: nat) -> nat {
    let available: nat = if height >= 5 { (height - 5) as nat } else { 0 };
    let rows = available / card_height;
    if rows >= 1 { rows } else { 1 }
}

/// The number of rows of cards that fit in `height` lines.
pub fn visible_rows(height: u16, card_height: u16) -> (r: usize)
    requires
        card_height > 0,
    ensures
        r == visible_rows_for(height as nat, card_height as nat),
{
    let available = height.saturating_sub(5);
    let rows = available / card_height;
    if rows >= 1 { rows as usize } else { 1 }
}

/// After scrolling for row `row`, the row is among the `visible` rows
/// shown, and a row that was already shown leaves the scroll position as
/// it was.
pub proof fn lemma_scrolled_shows_row(row: int, scroll: int, visible: int)
    requires
        visible >= 1,
        row >= 0,
        scroll >= 0,
    ensures
        0 <= scrolled(row, scroll, visible) <= row < scrolled(row, scroll, visible) + visible,
        scroll <= row < scroll + visible ==> scrolled(row, scroll, visible) == scroll,
{
}

/// Every move keeps a selection that is on a card on a card; a move down
/// that happened is undone by a move up, and a move right that happened by
/// a move left.
pub proof fn lemma_moves_stay_on_cards(sel: nat, len: nat, columns: nat)
    requires
        sel < len,
        columns > 0,
    ensures
        moved_down(sel, len, columns) < len,
        moved_up(sel, len, columns) < len,
        moved_right(sel, len) < len,
        moved_left(sel, len) < len,
        moved_down(sel, len, columns) != sel ==> moved_up(moved_down(sel, len, columns), len, columns) == sel,
        moved_up(sel, len, columns) != sel ==> moved_down(moved_up(sel, len, columns), len, columns) == sel,
        moved_right(sel, len) != sel ==> moved_left(moved_right(sel, len), len) == sel,
        moved_left(sel, len) != sel ==> moved_right(moved_left(sel, len), len) == sel,
{
}

} // verus!
