//! Search page with video card grid display

use vstd::prelude::*;
use crate::api::models::{SearchData, SearchVideoItem};
use crate::app::AppAction;
use crate::text::{pop_char, push_char};
use crate::layout::{area_contains, search_results_block, split_search_page, Area};
use crate::ui::{page_after_answer, Key, Mouse, MouseKind};
use crate::ui::grid::{moved_down, moved_left, moved_right, moved_up, near_bottom, scrolled};
use crate::ui::video_card::{VideoCard, VideoCardGrid};

verus! {

pub struct SearchPage {
    pub query: String,
    pub grid: VideoCardGrid,
    pub loading: bool,
    pub error_message: Option<String>,
    pub input_mode: bool,
    pub page: i32,
    pub total_results: i32,
    pub loading_more: bool,
    pub last_click_time: Option<u64>,
    pub last_click_index: Option<usize>,
}

/// The card of a search result: the result's video id, the uploader id as
/// the card's id, its display texts and cover, the duration if known (else
/// empty), no cover image yet.
pub open spec fn is_search_card(card: VideoCard, item: SearchVideoItem) -> bool {
    &&& card.bvid == item.bvid
    &&& card.aid == item.mid
    &&& card.title == item.title
    &&& card.author == item.author
    &&& card.views == item.play
    &&& card.duration@ == match item.duration {
        Some(d) => d@,
        None => Seq::<char>::empty(),
    }
    &&& card.cover_url == item.cover
    &&& !card.has_cover
}

/// `cards` are the cards of `items`, one each, in order.
pub open spec fn search_cards(cards: Seq<VideoCard>, items: Seq<SearchVideoItem>) -> bool {
    cards.len() == items.len() && forall|i: int| 0 <= i < items.len() ==> is_search_card(#[trigger] cards[i], items[i])
}

fn add_search_cards(grid: &mut VideoCardGrid, results: Vec<SearchVideoItem>)
    ensures
        final(grid).cards@.len() == old(grid).cards@.len() + results@.len(),
        final(grid).cards@.take(old(grid).cards@.len() as int) == old(grid).cards@,
        search_cards(final(grid).cards@.skip(old(grid).cards@.len() as int), results@),
        final(grid).selected_index == old(grid).selected_index,
        final(grid).scroll_row == old(grid).scroll_row,
        final(grid).columns == old(grid).columns,
        final(grid).card_height == old(grid).card_height,
        final(grid).cached_visible_rows == old(grid).cached_visible_rows,
        final(grid).pending_downloads@ == old(grid).pending_downloads@,
{
    let ghost start = grid.cards@;
    let ghost items = results@;
    for item in it: results
        invariant
            items == it.seq(),
            grid.cards@.len() == start.len() + it.index(),
            grid.cards@.take(start.len() as int) == start,
            search_cards(grid.cards@.skip(start.len() as int), items.take(it.index() as int)),
            grid.selected_index == old(grid).selected_index,
            grid.scroll_row == old(grid).scroll_row,
            grid.columns == old(grid).columns,
            grid.card_height == old(grid).card_height,
            grid.cached_visible_rows == old(grid).cached_visible_rows,
            grid.pending_downloads@ == old(grid).pending_downloads@,
    {
        let ghost prev = grid.cards@;
        let duration = match item.duration {
            Some(d) => d,
            None => String::new(),
        };
        let card = VideoCard::new(item.bvid, item.mid, item.title, item.author, item.play, duration, item.cover);
        grid.add_card(card);
        proof {
            assert(grid.cards@.take(start.len() as int) =~= prev.take(start.len() as int));
            assert(grid.cards@.skip(start.len() as int) =~= prev.skip(start.len() as int).push(card));
            assert(items.take(it.index() + 1) =~= items.take(it.index() as int).push(items[it.index() as int]));
        }
    }
    proof {
        assert(items.take(items.len() as int) =~= items);
    }
}

impl SearchPage {
    pub open spec fn wf(&self) -> bool {
        self.grid.wf()
    }

    /// The state of a search just opened: no query, no results, waiting for
    /// the query to be typed, at page one.
    pub open spec fn is_fresh(&self) -> bool {
        &&& self.query@.len() == 0
        &&& self.grid.cards@.len() == 0
        &&& self.grid.selected_index == 0
        &&& self.grid.scroll_row == 0
        &&& self.grid.columns == 3
        &&& self.grid.pending_downloads@ == Set::<usize>::empty()
        &&& !self.loading
        &&& self.error_message is None
        &&& self.input_mode
        &&& self.page == 1
        &&& self.total_results == 0
        &&& !self.loading_more
        &&& self.last_click_time is None
        &&& self.last_click_index is None
    }

    /// An empty search, waiting for the query to be typed.
    pub fn new() -> (r: Self)
        ensures
            r.wf(),
            r.is_fresh(),
    {
        SearchPage {
            query: String::new(),
            grid: VideoCardGrid::new(),
            loading: false,
            error_message: None,
            input_mode: true,
            page: 1,
            total_results: 0,
            loading_more: false,
            last_click_time: None,
            last_click_index: None,
        }
    }

    /// Shows the first page of results of a search that found `total`
    /// videos, and leaves the query input.
    pub fn set_results(&mut self, results: Vec<SearchVideoItem>, total: i32)
        requires
            old(self).wf(),
        ensures
            final(self).wf(),
            search_cards(final(self).grid.cards@, results@),
            final(self).grid.selected_index == 0,
            final(self).grid.scroll_row == 0,
            final(self).grid.pending_downloads@ == Set::<usize>::empty(),
            final(self).total_results == total,
            !final(self).loading,
            !final(self).input_mode,
            final(self).query == old(self).query,
            final(self).page == old(self).page,
            final(self).error_message == old(self).error_message,
            final(self).loading_more == old(self).loading_more,
    {
        self.grid.clear();
        add_search_cards(&mut self.grid, results);
        proof {
            assert(self.grid.cards@.skip(0) =~= self.grid.cards@);
        }
        self.total_results = total;
        self.loading = false;
        self.input_mode = false;
    }

    /// Adds a further page of results after those shown.
    pub fn append_results(&mut self, results: Vec<SearchVideoItem>)
        requires
            old(self).wf(),
        ensures
            final(self).wf(),
            final(self).grid.cards@.len() == old(self).grid.cards@.len() + results@.len(),
            final(self).grid.cards@.take(old(self).grid.cards@.len() as int) == old(self).grid.cards@,
            search_cards(final(self).grid.cards@.skip(old(self).grid.cards@.len() as int), results@),
            final(self).grid.selected_index == old(self).grid.selected_index,
            final(self).grid.scroll_row == old(self).grid.scroll_row,
            final(self).grid.pending_downloads@ == old(self).grid.pending_downloads@,
            !final(self).loading_more,
            final(self).query == old(self).query,
            final(self).page == old(self).page,
            final(self).total_results == old(self).total_results,
            final(self).loading == old(self).loading,
            final(self).input_mode == old(self).input_mode,
            final(self).error_message == old(self).error_message,
    {
        add_search_cards(&mut self.grid, results);
        self.loading_more = false;
    }

    /// Shows an error; nothing is loading any more.
    pub fn set_error(&mut self, msg: String)
        ensures
            final(self).error_message == Some(msg),
            !final(self).loading,
            !final(self).loading_more,
            final(self).query == old(self).query,
            final(self).grid == old(self).grid,
            final(self).page == old(self).page,
            final(self).total_results == old(self).total_results,
            final(self).input_mode == old(self).input_mode,
    {
        self.error_message = Some(msg);
        self.loading = false;
        self.loading_more = false;
    }

    /// Whether another result page should be fetched: nothing is loading,
    /// there is a query, and fewer results are shown than the search found
    /// (a negative total never stops the paging).
    pub open spec fn may_load_more(&self) -> bool {
        &&& !self.loading_more
        &&& self.query@.len() > 0
        &&& !(self.total_results >= 0 && self.grid.cards@.len() >= self.total_results)
    }

    /// The state change and result of `begin_load_more`.
    pub open spec fn load_more_started(a: Self, b: Self, r: Option<(String, i32)>) -> bool {
        &&& (!a.may_load_more() ==> r is None && b == a)
        &&& (a.may_load_more() ==> {
            &&& r == Some((a.query, (a.page + 1) as i32))
            &&& b.page == a.page + 1
            &&& b.loading_more
            &&& b.query == a.query
            &&& b.grid == a.grid
            &&& b.total_results == a.total_results
            &&& b.loading == a.loading
            &&& b.input_mode == a.input_mode
            &&& b.error_message == a.error_message
        })
    }

    /// A request for the next result page that fails, or finds nothing,
    /// leaves the page number where it was before the request, so that the
    /// next request asks for the same page; one that brings results keeps
    /// the new number.
    pub proof fn lemma_failed_page_asked_again(a: Self, b: Self, r: Option<(String, i32)>)
        requires
            Self::load_more_started(a, b, r),
            r is Some,
        ensures
            page_after_answer(b.page as int, false) == a.page,
            page_after_answer(b.page as int, true) == a.page + 1,
    {
    }

    /// Starts loading the next result page, if one should be fetched.
    /// Returns the query and the page to request.
    pub fn begin_load_more(&mut self) -> (r: Option<(String, i32)>)
        requires
            old(self).may_load_more() ==> old(self).page < i32::MAX,
        ensures
            Self::load_more_started(*old(self), *final(self), r),
    {
        if self.loading_more || self.query.as_str().is_empty() {
            return None;
        }
        if self.total_results >= 0 && self.grid.cards.len() as u64 >= self.total_results as u64 {
            return None;
        }
        self.loading_more = true;
        self.page = self.page + 1;
        Some((self.query.clone(), self.page))
    }

    /// Takes in the next result page. Its results are added; when it
    /// failed or came back empty the page number goes back, so that the same
    /// page is asked for again. Either way loading stops.
    pub fn finish_load_more(&mut self, result: Option<Vec<SearchVideoItem>>)
        requires
            old(self).wf(),
            old(self).page > i32::MIN,
        ensures
            final(self).wf(),
            !final(self).loading_more,
            final(self).page == page_after_answer(
                old(self).page as int,
                result matches Some(results) && results@.len() > 0,
            ),
            match result {
                Some(results) => {
                    &&& final(self).grid.cards@.len() == old(self).grid.cards@.len() + results@.len()
                    &&& final(self).grid.cards@.take(old(self).grid.cards@.len() as int) == old(self).grid.cards@
                    &&& search_cards(final(self).grid.cards@.skip(old(self).grid.cards@.len() as int), results@)
                    &&& final(self).grid.selected_index == old(self).grid.selected_index
                    &&& final(self).grid.scroll_row == old(self).grid.scroll_row
                },
                None => final(self).grid == old(self).grid,
            },
            final(self).query == old(self).query,
            final(self).total_results == old(self).total_results,
            final(self).loading == old(self).loading,
            final(self).input_mode == old(self).input_mode,
            final(self).error_message == old(self).error_message,
    {
        match result {
            Some(results) => {
                if results.len() == 0 {
                    self.page = self.page - 1;
                }
                self.append_results(results);
            },
            None => {
                self.page = self.page - 1;
                self.loading_more = false;
            },
        }
    }
}


/// The action of Enter on the results: open the selected card's video when
/// it has both ids.
pub open spec fn open_selected(grid: VideoCardGrid) -> AppAction {
    let sel = grid.selected_index as int;
    if sel < grid.cards@.len() && grid.cards@[sel].bvid is Some && grid.cards@[sel].aid is Some {
        AppAction::OpenVideoDetail(grid.cards@[sel].bvid->0, grid.cards@[sel].aid->0)
    } else {
        AppAction::NoOp
    }
}

impl SearchPage {
    /// The error shown, the paging state and the last click, which typing
    /// the query leaves alone.
    pub open spec fn keeps_paging_of(&self, other: &Self) -> bool {
        &&& self.error_message == other.error_message
        &&& self.total_results == other.total_results
        &&& self.loading_more == other.loading_more
        &&& self.last_click_time == other.last_click_time
        &&& self.last_click_index == other.last_click_index
    }

    /// Everything of the page but its grid.
    pub open spec fn same_except_grid(&self, other: &Self) -> bool {
        &&& self.query == other.query
        &&& self.loading == other.loading
        &&& self.error_message == other.error_message
        &&& self.input_mode == other.input_mode
        &&& self.page == other.page
        &&& self.total_results == other.total_results
        &&& self.loading_more == other.loading_more
        &&& self.last_click_time == other.last_click_time
        &&& self.last_click_index == other.last_click_index
    }

    /// What a key does to the page: the page after it, and the action asked for.
    pub open spec fn key_outcome(a: Self, key: Key, b: Self, r: Option<AppAction>) -> bool {
        &&& (a.input_mode ==> b.grid == a.grid)
        &&& (a.input_mode ==> b.keeps_paging_of(&a))
        &&& (a.input_mode ==> match key {
            Key::Char(c) => {
                &&& b.query@ == a.query@.push(c)
                &&& r == Some(AppAction::NoOp)
                &&& b.input_mode
                &&& b.loading == a.loading
                &&& b.page == a.page
            },
            Key::Backspace => {
                &&& b.query@ == if a.query@.len() > 0 {
                    a.query@.drop_last()
                } else {
                    a.query@
                }
                &&& r == Some(AppAction::NoOp)
                &&& b.input_mode
                &&& b.loading == a.loading
                &&& b.page == a.page
            },
            Key::Enter => {
                &&& b.query == a.query
                &&& b.input_mode
                &&& if a.query@.len() > 0 {
                    &&& b.loading
                    &&& b.page == 1
                    &&& r matches Some(AppAction::Search(q)) && q@ == a.query@
                } else {
                    &&& b.loading == a.loading
                    &&& b.page == a.page
                    &&& r == Some(AppAction::NoOp)
                }
            },
            Key::Esc => {
                &&& !b.input_mode
                &&& b.query == a.query
                &&& b.loading == a.loading
                &&& b.page == a.page
                &&& r == Some(AppAction::NoOp)
            },
            Key::Tab => b.same_except_grid(&a) && r == Some(AppAction::NavNext),
            _ => b.same_except_grid(&a) && r == Some(AppAction::NoOp),
        })
        &&& (!a.input_mode ==> match key {
            Key::Char('j') | Key::Down => {
                &&& b.same_except_grid(&a)
                &&& b.grid.same_cards(&a.grid)
                &&& b.grid.selected_index == moved_down(
                    a.grid.selected_index as nat,
                    a.grid.cards@.len(),
                    a.grid.columns as nat,
                )
                &&& r == Some(
                    if near_bottom(
                        b.grid.selected_index as nat,
                        a.grid.cards@.len(),
                        a.grid.columns as nat,
                        3,
                    ) && !a.loading_more {
                        AppAction::LoadMoreSearch
                    } else {
                        AppAction::NoOp
                    },
                )
            },
            Key::Char('k') | Key::Up => {
                &&& b.same_except_grid(&a)
                &&& b.grid.same_cards(&a.grid)
                &&& b.grid.selected_index == moved_up(
                    a.grid.selected_index as nat,
                    a.grid.cards@.len(),
                    a.grid.columns as nat,
                )
                &&& r == Some(AppAction::NoOp)
            },
            Key::Char('l') | Key::Right => {
                &&& b.same_except_grid(&a)
                &&& b.grid.same_cards(&a.grid)
                &&& b.grid.selected_index == moved_right(
                    a.grid.selected_index as nat,
                    a.grid.cards@.len(),
                )
                &&& r == Some(AppAction::NoOp)
            },
            Key::Char('h') | Key::Left => {
                &&& b.same_except_grid(&a)
                &&& b.grid.same_cards(&a.grid)
                &&& b.grid.selected_index == moved_left(
                    a.grid.selected_index as nat,
                    a.grid.cards@.len(),
                )
                &&& r == Some(AppAction::NoOp)
            },
            Key::Enter => {
                &&& b.same_except_grid(&a)
                &&& b.grid == a.grid
                &&& r == Some(open_selected(a.grid))
            },
            Key::Char('/') | Key::Char('i') => {
                &&& b.input_mode
                &&& b.grid == a.grid
                &&& b.query == a.query
                &&& b.page == a.page
                &&& b.loading == a.loading
                &&& r == Some(AppAction::NoOp)
            },
            Key::Tab => b.same_except_grid(&a) && b.grid == a.grid
                && r == Some(AppAction::NavNext),
            Key::Char('q') => b.same_except_grid(&a) && b.grid == a.grid
                && r == Some(AppAction::Quit),
            _ => b.same_except_grid(&a) && b.grid == a.grid
                && r == Some(AppAction::NoOp),
        })
    }

    /// Reacts to a key. While the query is typed, characters are added,
    /// Backspace removes the last one, Enter starts the search of a
    /// non-empty query from page one, Esc leaves the input and Tab moves to
    /// the next sidebar entry. Otherwise the arrows and `hjkl` move in the
    /// results (moving down near the end asks for more unless some are
    /// loading), Enter opens the selected video, `/` and `i` go back to the
    /// input, Tab moves on and `q` quits. Every key yields an action.
    pub fn handle_input(&mut self, key: Key) -> (r: Option<AppAction>)
        requires
            old(self).wf(),
        ensures
            final(self).wf(),
            Self::key_outcome(*old(self), key, *final(self), r),
    {
        if self.input_mode {
            match key {
                Key::Char(c) => {
                    push_char(&mut self.query, c);
                    Some(AppAction::NoOp)
                },
                Key::Backspace => {
                    let _ = pop_char(&mut self.query);
                    Some(AppAction::NoOp)
                },
                Key::Enter => {
                    if !self.query.as_str().is_empty() {
                        self.loading = true;
                        self.page = 1;
                        Some(AppAction::Search(self.query.clone()))
                    } else {
                        Some(AppAction::NoOp)
                    }
                },
                Key::Esc => {
                    self.input_mode = false;
                    Some(AppAction::NoOp)
                },
                Key::Tab => Some(AppAction::NavNext),
                _ => Some(AppAction::NoOp),
            }
        } else {
            match key {
                Key::Char('j') | Key::Down => {
                    self.grid.move_down();
                    if self.grid.is_near_bottom(3) && !self.loading_more {
                        return Some(AppAction::LoadMoreSearch);
                    }
                    Some(AppAction::NoOp)
                },
                Key::Char('k') | Key::Up => {
                    self.grid.move_up();
                    Some(AppAction::NoOp)
                },
                Key::Char('l') | Key::Right => {
                    self.grid.move_right();
                    Some(AppAction::NoOp)
                },
                Key::Char('h') | Key::Left => {
                    self.grid.move_left();
                    Some(AppAction::NoOp)
                },
                Key::Enter => {
                    match self.grid.selected_card() {
                        Some(card) => {
                            match (&card.bvid, card.aid) {
                                (Some(bvid), Some(aid)) => {
                                    return Some(AppAction::OpenVideoDetail(bvid.clone(), aid));
                                },
                                _ => {},
                            }
                        },
                        None => {},
                    }
                    Some(AppAction::NoOp)
                },
                Key::Char('/') | Key::Char('i') => {
                    self.input_mode = true;
                    Some(AppAction::NoOp)
                },
                Key::Tab => Some(AppAction::NavNext),
                Key::Char('q') => Some(AppAction::Quit),
                _ => Some(AppAction::NoOp),
            }
        }
    }
}


impl SearchPage {
    /// Takes in the outcome of a new search: its results and reported total
    /// (none and zero when missing) are shown; a failure is shown as an
    /// error.
    pub fn finish_search(&mut self, result: Result<SearchData, String>)
        requires
            old(self).wf(),
        ensures
            final(self).wf(),
            final(self).query == old(self).query,
            final(self).page == old(self).page,
            match result {
                Ok(data) => {
                    &&& search_cards(final(self).grid.cards@, match data.result {
                        Some(v) => v@,
                        None => Seq::<SearchVideoItem>::empty(),
                    })
                    &&& final(self).grid.selected_index == 0
                    &&& final(self).grid.scroll_row == 0
                    &&& final(self).total_results == match data.num_results { Some(n) => n, None => 0 }
                    &&& !final(self).loading
                    &&& !final(self).input_mode
                    &&& final(self).error_message == old(self).error_message
                },
                Err(e) => {
                    &&& final(self).error_message matches Some(m) && m@ == "搜索失败: "@ + e@
                    &&& !final(self).loading
                    &&& !final(self).loading_more
                    &&& final(self).grid == old(self).grid
                    &&& final(self).total_results == old(self).total_results
                },
            },
    {
        match result {
            Ok(data) => {
                let results = match data.result {
                    Some(v) => v,
                    None => Vec::new(),
                };
                let total = match data.num_results {
                    Some(n) => n,
                    None => 0,
                };
                self.set_results(results, total);
            },
            Err(e) => {
                let mut m = String::from_str("搜索失败: ");
                m.append(e.as_str());
                self.set_error(m);
            },
        }
    }
}

/// Two clicks on one card closer together than this (in nanoseconds) are a
/// double click.
pub const DOUBLE_CLICK_NANOS: u64 = 500_000_000;

/// Lines of the results block above the first row of cards.
pub const RESULTS_HEADER_LINES: u16 = 2;

/// The card under the cell (`col`, `row`) of the search page, whose results
/// block is `results`: the cards start two lines below the block's top, in
/// rows `card_height` lines high, in columns of the block's width divided
/// by the number of columns, counted from the first row shown. No card is
/// hit outside the cards' area, where the columns are less than one cell
/// wide, or past the last card.
pub open spec fn clicked_index(grid: VideoCardGrid, results: Area, col: u16, row: u16) -> Option<int> {
    let top: int = results.y + RESULTS_HEADER_LINES;
    let height: int = if results.height >= RESULTS_HEADER_LINES { results.height - RESULTS_HEADER_LINES } else { 0 };
    let card_width: int = results.width as int / grid.columns as int;
    if top > u16::MAX {
        None
    } else {
        let cells = Area { x: results.x, y: top as u16, width: results.width, height: height as u16 };
        if !area_contains(cells, col, row) || card_width == 0 {
            None
        } else {
            let click_row: int = (row - top) / grid.card_height as int;
            let click_col: int = (col - results.x) / card_width;
            let idx: int = (grid.scroll_row + click_row) * grid.columns + click_col;
            if idx < grid.cards@.len() { Some(idx) } else { None }
        }
    }
}

/// Card `i` of `grid` is drawn under the cell (`col`, `row`) of the search
/// page whose results block is `results`: it is a card of a row shown, and
/// the cell lies in the band of that row (counted from the first row shown,
/// two lines below the block's top) and in the band of its column.
pub open spec fn card_under_pointer(grid: VideoCardGrid, results: Area, col: u16, row: u16, i: int) -> bool {
    let cols: int = grid.columns as int;
    let card_width: int = results.width as int / cols;
    let height: int = grid.card_height as int;
    let top: int = results.y + RESULTS_HEADER_LINES;
    let shown_row: int = i / cols - grid.scroll_row;
    let column: int = i % cols;
    &&& 0 <= i < grid.cards@.len()
    &&& shown_row >= 0
    &&& top + shown_row * height <= row < top + (shown_row + 1) * height
    &&& results.x + column * card_width <= col < results.x + (column + 1) * card_width
}

/// A click hits the card drawn under the pointer, and only that card: where
/// the pointer is over the cells of the columns, inside the cards' area of
/// the results block, a card lies under it exactly when the click hits that
/// card, whatever row the grid is scrolled to.
pub proof fn lemma_click_hits_card_under_pointer(grid: VideoCardGrid, results: Area, col: u16, row: u16, i: int)
    requires
        grid.wf(),
        col < results.x + (results.width as int / grid.columns as int) * grid.columns,
        results.x + results.width <= u16::MAX,
        results.y + results.height <= u16::MAX,
        row < results.y + results.height,
    ensures
        clicked_index(grid, results, col, row) == Some(i) <==> card_under_pointer(grid, results, col, row, i),
{
    let cols: int = grid.columns as int;
    let card_width: int = results.width as int / cols;
    let height: int = grid.card_height as int;
    let top: int = results.y + RESULTS_HEADER_LINES;
    let sr: int = grid.scroll_row as int;
    assert(card_width * cols <= results.width) by {
        vstd::arithmetic::div_mod::lemma_fundamental_div_mod(results.width as int, cols);
        vstd::arithmetic::div_mod::lemma_mod_pos_bound(results.width as int, cols);
        assert(card_width * cols <= results.width) by (nonlinear_arith)
            requires
                results.width as int == cols * card_width + results.width as int % cols,
                results.width as int % cols >= 0,
        ;
    }
    if card_under_pointer(grid, results, col, row, i) {
        let srow: int = i / cols - sr;
        let scol: int = i % cols;
        vstd::arithmetic::div_mod::lemma_mod_pos_bound(i, cols);
        assert(srow * height >= 0 && scol * card_width >= 0) by (nonlinear_arith)
            requires
                srow >= 0,
                height > 0,
                scol >= 0,
                card_width >= 0,
        ;
        assert(card_width > 0) by (nonlinear_arith)
            requires
                scol * card_width <= col - results.x < (scol + 1) * card_width,
                card_width >= 0,
        ;
    }
    if card_width > 0 && top <= row && results.x <= col {
        let dy: int = row - top;
        let dx: int = col - results.x;
        let cr: int = dy / height;
        let cc: int = dx / card_width;
        vstd::arithmetic::div_mod::lemma_fundamental_div_mod(dy, height);
        vstd::arithmetic::div_mod::lemma_mod_pos_bound(dy, height);
        vstd::arithmetic::div_mod::lemma_fundamental_div_mod(dx, card_width);
        vstd::arithmetic::div_mod::lemma_mod_pos_bound(dx, card_width);
        vstd::arithmetic::div_mod::lemma_div_pos_is_pos(dy, height);
        vstd::arithmetic::div_mod::lemma_div_pos_is_pos(dx, card_width);
        assert(cc < cols) by (nonlinear_arith)
            requires
                dx == card_width * cc + dx % card_width,
                0 <= dx % card_width,
                dx < card_width * cols,
                card_width > 0,
        ;
        let idx: int = (sr + cr) * cols + cc;
        vstd::arithmetic::div_mod::lemma_fundamental_div_mod_converse(idx, cols, sr + cr, cc);
        assert(height * cr <= dy < height * (cr + 1)) by (nonlinear_arith)
            requires
                dy == height * cr + dy % height,
                0 <= dy % height < height,
        ;
        assert(card_width * cc <= dx < card_width * (cc + 1)) by (nonlinear_arith)
            requires
                dx == card_width * cc + dx % card_width,
                0 <= dx % card_width < card_width,
        ;
        assert(cr * height == height * cr && (cr + 1) * height == height * (cr + 1)) by (nonlinear_arith);
        assert(cc * card_width == card_width * cc && (cc + 1) * card_width == card_width * (cc + 1))
            by (nonlinear_arith);
        let cells = Area {
            x: results.x,
            y: top as u16,
            width: results.width,
            height: (results.height - RESULTS_HEADER_LINES) as u16,
        };
        assert(area_contains(cells, col, row));
        assert(clicked_index(grid, results, col, row) == if idx < grid.cards@.len() {
            Some(idx)
        } else {
            None::<int>
        });
        if card_under_pointer(grid, results, col, row, i) {
            let srow: int = i / cols - sr;
            let scol: int = i % cols;
            vstd::arithmetic::div_mod::lemma_fundamental_div_mod(i, cols);
            vstd::arithmetic::div_mod::lemma_mod_pos_bound(i, cols);
            assert(srow == cr) by (nonlinear_arith)
                requires
                    srow * height <= dy < (srow + 1) * height,
                    height * cr <= dy < height * (cr + 1),
                    height > 0,
            ;
            assert(scol == cc) by (nonlinear_arith)
                requires
                    scol * card_width <= dx < (scol + 1) * card_width,
                    card_width * cc <= dx < card_width * (cc + 1),
                    card_width > 0,
            ;
            assert(i == idx) by (nonlinear_arith)
                requires
                    i == cols * (i / cols) + i % cols,
                    i / cols == sr + cr,
                    i % cols == cc,
                    idx == (sr + cr) * cols + cc,
            ;
        }
    }
}

/// The action of opening a card: its video, when it has both ids.
pub open spec fn card_opened(card: VideoCard) -> Option<AppAction> {
    if card.bvid is Some && card.aid is Some {
        Some(AppAction::OpenVideoDetail(card.bvid->0, card.aid->0))
    } else {
        None
    }
}

fn open_card(card: &VideoCard) -> (r: Option<AppAction>)
    ensures
        r == card_opened(*card),
{
    match &card.bvid {
        Some(bvid) => match card.aid {
            Some(aid) => Some(AppAction::OpenVideoDetail(bvid.clone(), aid)),
            None => None,
        },
        None => None,
    }
}

impl SearchPage {
    /// Whether a click on card `i` at time `now` completes a double click.
    pub open spec fn is_double_click(&self, i: int, now: u64) -> bool {
        &&& self.last_click_index == Some(i as usize)
        &&& self.last_click_time matches Some(t) && (if now >= t { now - t } else { 0 }) < DOUBLE_CLICK_NANOS
    }

    fn click_target(&self, results: Area, col: u16, row: u16) -> (r: Option<usize>)
        requires
            self.wf(),
            self.grid.columns <= u16::MAX,
        ensures
            match clicked_index(self.grid, results, col, row) {
                Some(i) => r is Some && r->0 as int == i,
                None => r is None,
            },
    {
        let top = match results.y.checked_add(RESULTS_HEADER_LINES) {
            Some(t) => t,
            None => return None,
        };
        let cells = Area {
            x: results.x,
            y: top,
            width: results.width,
            height: results.height.saturating_sub(RESULTS_HEADER_LINES),
        };
        if !cells.contains(col, row) {
            return None;
        }
        let columns = self.grid.columns as u16;
        let card_width = results.width / columns;
        if card_width == 0 {
            return None;
        }
        let click_row = ((row - top) / self.grid.card_height) as usize;
        let click_col = ((col - results.x) / card_width) as usize;
        let ghost columns_i: int = self.grid.columns as int;
        let n = self.grid.cards.len();
        let ghost spec_idx: int = (self.grid.scroll_row + click_row) * columns_i + click_col;
        let actual_row = match self.grid.scroll_row.checked_add(click_row) {
            Some(v) => v,
            None => {
                proof {
                    let a: int = self.grid.scroll_row + click_row;
                    assert(a * columns_i >= a) by (nonlinear_arith)
                        requires columns_i >= 1, a >= 0;
                    assert(spec_idx >= n);
                }
                return None;
            },
        };
        let first = match actual_row.checked_mul(self.grid.columns) {
            Some(v) => v,
            None => {
                assert(spec_idx >= n);
                return None;
            },
        };
        let idx = match first.checked_add(click_col) {
            Some(v) => v,
            None => {
                assert(spec_idx >= n);
                return None;
            },
        };
        if idx < self.grid.cards.len() {
            Some(idx)
        } else {
            None
        }
    }

    /// What a mouse event at time `now` does to the page whose results
    /// block lies at `results`: the page after it, and the action asked for.
    pub open spec fn mouse_outcome(a: Self, event: Mouse, results: Area, now: u64, b: Self, r: Option<AppAction>) -> bool {
        &&& (a.input_mode ==> r is None && b == a)
        &&& (!a.input_mode ==> match event.kind {
            MouseKind::ScrollDown => {
                let moved = b.grid.selected_index != a.grid.selected_index;
                &&& b.same_except_grid(&a)
                &&& b.grid.same_cards(&a.grid)
                &&& b.grid.selected_index == moved_down(
                    a.grid.selected_index as nat,
                    a.grid.cards@.len(),
                    a.grid.columns as nat,
                )
                &&& b.grid.scroll_row == if moved {
                    a.grid.rescrolled(b.grid.selected_index as nat)
                } else {
                    a.grid.scroll_row
                }
                &&& r == if moved && near_bottom(
                    b.grid.selected_index as nat,
                    a.grid.cards@.len(),
                    a.grid.columns as nat,
                    3,
                ) && !a.loading_more {
                    Some(AppAction::LoadMoreSearch)
                } else {
                    None
                }
            },
            MouseKind::ScrollUp => {
                let moved = b.grid.selected_index != a.grid.selected_index;
                &&& b.same_except_grid(&a)
                &&& b.grid.same_cards(&a.grid)
                &&& b.grid.selected_index == moved_up(
                    a.grid.selected_index as nat,
                    a.grid.cards@.len(),
                    a.grid.columns as nat,
                )
                &&& b.grid.scroll_row == if moved {
                    a.grid.rescrolled(b.grid.selected_index as nat)
                } else {
                    a.grid.scroll_row
                }
                &&& r is None
            },
            MouseKind::LeftDown => match clicked_index(a.grid, results, event.column, event.row) {
                None => r is None && b == a,
                Some(i) => if a.is_double_click(i, now) {
                    &&& b.last_click_time is None
                    &&& b.last_click_index is None
                    &&& b.grid == a.grid
                    &&& r == card_opened(a.grid.cards@[i])
                    &&& b.query == a.query
                    &&& b.page == a.page
                    &&& b.loading == a.loading
                    &&& b.loading_more == a.loading_more
                    &&& b.input_mode == a.input_mode
                    &&& b.total_results == a.total_results
                    &&& b.error_message == a.error_message
                } else {
                    &&& b.grid.same_cards(&a.grid)
                    &&& b.grid.selected_index == i
                    &&& b.grid.scroll_row == scrolled(
                        i / a.grid.columns as int,
                        a.grid.scroll_row as int,
                        a.grid.cached_visible_rows as int,
                    )
                    &&& b.last_click_time == Some(now)
                    &&& b.last_click_index == Some(i as usize)
                    &&& r is None
                    &&& b.query == a.query
                    &&& b.page == a.page
                    &&& b.loading == a.loading
                    &&& b.loading_more == a.loading_more
                    &&& b.input_mode == a.input_mode
                    &&& b.total_results == a.total_results
                    &&& b.error_message == a.error_message
                },
            },
            MouseKind::Other => r is None && b == a,
        })
    }

    /// A left click acts on the card drawn under the pointer: that card is
    /// selected (and remembered for a double click), or, on the second
    /// click of a double click, opened. Where no card is under the pointer
    /// the click does nothing.
    pub proof fn lemma_click_acts_on_card_under_pointer(
        a: Self,
        event: Mouse,
        results: Area,
        now: u64,
        b: Self,
        r: Option<AppAction>,
    )
        requires
            a.wf(),
            !a.input_mode,
            event.kind == MouseKind::LeftDown,
            event.column < results.x + (results.width as int / a.grid.columns as int) * a.grid.columns,
            results.x + results.width <= u16::MAX,
            results.y + results.height <= u16::MAX,
            event.row < results.y + results.height,
            Self::mouse_outcome(a, event, results, now, b, r),
        ensures
            forall|i: int|
                #[trigger] card_under_pointer(a.grid, results, event.column, event.row, i) ==> {
                    ||| (b.grid.selected_index == i && b.last_click_index == Some(i as usize) && r is None)
                    ||| (r == card_opened(a.grid.cards@[i]) && b.last_click_index is None
                        && b.grid.selected_index == a.grid.selected_index)
                },
            (forall|i: int| !card_under_pointer(a.grid, results, event.column, event.row, i)) ==> (b == a && r is None),
    {
        assert forall|i: int| #[trigger] card_under_pointer(a.grid, results, event.column, event.row, i) implies
            clicked_index(a.grid, results, event.column, event.row) == Some(i) by {
            lemma_click_hits_card_under_pointer(a.grid, results, event.column, event.row, i);
        }
        match clicked_index(a.grid, results, event.column, event.row) {
            Some(j) => {
                lemma_click_hits_card_under_pointer(a.grid, results, event.column, event.row, j);
            },
            None => {},
        }
    }

    /// Reacts to the mouse over the page laid out in `area`, at time `now`
    /// (nanoseconds), as `handle_mouse_at` says for the results block that
    /// the layout gives the page in `area`. That block is fixed by the
    /// area, except for ten to fourteen rows, where the layout solver may
    /// put its top anywhere from the area's first row to three rows below
    /// it: there the contract leaves open which of those placements a click
    /// is measured against.
    pub fn handle_mouse(&mut self, event: Mouse, area: Area, now: u64) -> (r: Option<AppAction>)
        requires
            old(self).wf(),
            old(self).grid.columns <= u16::MAX,
        ensures
            final(self).wf(),
            exists|results: Area|
                #[trigger] search_results_block(area, results) && Self::mouse_outcome(
                    *old(self),
                    event,
                    results,
                    now,
                    *final(self),
                    r,
                ),
    {
        let results = split_search_page(area);
        self.handle_mouse_at(event, results, now)
    }

    /// Reacts to the mouse at time `now` (nanoseconds), the results being
    /// shown in `results`. Nothing happens while the query is typed. The
    /// wheel moves the selection a row down or up; moving down near the end
    /// asks for more results unless some are loading. A left click on a
    /// card selects it and scrolls it into view; a second click on the same
    /// card within half a second opens its video instead.
    pub fn handle_mouse_at(&mut self, event: Mouse, results: Area, now: u64) -> (r: Option<AppAction>)
        requires
            old(self).wf(),
            old(self).grid.columns <= u16::MAX,
        ensures
            final(self).wf(),
            Self::mouse_outcome(*old(self), event, results, now, *final(self), r),
    {
        if self.input_mode {
            return None;
        }
        match event.kind {
            MouseKind::ScrollDown => {
                if self.grid.move_down() {
                    if self.grid.is_near_bottom(3) && !self.loading_more {
                        return Some(AppAction::LoadMoreSearch);
                    }
                }
                None
            },
            MouseKind::ScrollUp => {
                let _ = self.grid.move_up();
                None
            },
            MouseKind::LeftDown => {
                let idx = match self.click_target(results, event.column, event.row) {
                    Some(i) => i,
                    None => return None,
                };
                let is_double = match (self.last_click_index, self.last_click_time) {
                    (Some(last), Some(t)) => last == idx && now.saturating_sub(t) < DOUBLE_CLICK_NANOS,
                    _ => false,
                };
                if is_double {
                    self.last_click_time = None;
                    self.last_click_index = None;
                    open_card(&self.grid.cards[idx])
                } else {
                    self.grid.selected_index = idx;
                    self.grid.update_scroll(self.grid.cached_visible_rows);
                    self.last_click_time = Some(now);
                    self.last_click_index = Some(idx);
                    None
                }
            },
            MouseKind::Other => None,
        }
    }
}

impl Default for SearchPage {
    fn default() -> (r: Self)
        ensures
            r.wf(),
            r.is_fresh(),
    {
        Self::new()
    }
}

} // verus!
