//! Dynamic feed page with video card grid display

use vstd::prelude::*;
use crate::api::models::{DynamicFeedData, DynamicItem};
use crate::app::AppAction;
use crate::ui::Key;
use crate::ui::grid::{moved_down, moved_left, moved_right, moved_up, near_bottom};
use crate::ui::video_card::{VideoCard, VideoCardGrid};

verus! {

pub struct DynamicPage {
    pub grid: VideoCardGrid,
    pub loading: bool,
    pub error_message: Option<String>,
    pub offset: Option<String>,
    pub has_more: bool,
    pub loading_more: bool,
}

/// The feed entries shown as cards: the videos with a BV id, in order.
pub open spec fn video_entries(items: Seq<DynamicItem>) -> Seq<DynamicItem>
    decreases items.len(),
{
    if items.len() == 0 {
        Seq::empty()
    } else if items.last().is_video && items.last().bvid is Some {
        video_entries(items.drop_last()).push(items.last())
    } else {
        video_entries(items.drop_last())
    }
}

/// The card of a feed video: its BV id, no numeric id, its title (or
/// "无标题" when it has none), author, play count after "▶ ", duration and
/// cover, no cover image yet.
pub open spec fn is_feed_card(card: VideoCard, item: DynamicItem) -> bool {
    &&& card.bvid == item.bvid
    &&& card.aid is None
    &&& card.title@ == match item.title {
        Some(t) => t@,
        None => "无标题"@,
    }
    &&& card.author == item.author
    &&& card.views@ == "▶ "@ + item.play@
    &&& card.duration == item.duration
    &&& card.cover_url == item.cover
    &&& !card.has_cover
}

/// `cards` are the cards of the feed videos among `items`, in order.
pub open spec fn feed_cards(cards: Seq<VideoCard>, items: Seq<DynamicItem>) -> bool {
    let entries = video_entries(items);
    cards.len() == entries.len() && forall|i: int| 0 <= i < entries.len() ==> is_feed_card(#[trigger] cards[i], entries[i])
}

fn feed_card(item: DynamicItem) -> (r: VideoCard)
    ensures
        is_feed_card(r, item),
{
    let title = match item.title {
        Some(t) => t,
        None => String::from_str("无标题"),
    };
    let mut views = String::from_str("▶ ");
    views.append(item.play.as_str());
    VideoCard::new(item.bvid, None, title, item.author, views, item.duration, item.cover)
}

fn add_feed_cards(grid: &mut VideoCardGrid, items: Vec<DynamicItem>)
    ensures
        final(grid).cards@.take(old(grid).cards@.len() as int) == old(grid).cards@,
        final(grid).cards@.len() >= old(grid).cards@.len(),
        feed_cards(final(grid).cards@.skip(old(grid).cards@.len() as int), items@),
        final(grid).selected_index == old(grid).selected_index,
        final(grid).scroll_row == old(grid).scroll_row,
        final(grid).columns == old(grid).columns,
        final(grid).card_height == old(grid).card_height,
        final(grid).cached_visible_rows == old(grid).cached_visible_rows,
        final(grid).pending_downloads@ == old(grid).pending_downloads@,
{
    let ghost start = grid.cards@;
    let ghost all = items@;
    for item in it: items
        invariant
            all == it.seq(),
            grid.cards@.len() >= start.len(),
            grid.cards@.take(start.len() as int) == start,
            feed_cards(grid.cards@.skip(start.len() as int), all.take(it.index() as int)),
            grid.selected_index == old(grid).selected_index,
            grid.scroll_row == old(grid).scroll_row,
            grid.columns == old(grid).columns,
            grid.card_height == old(grid).card_height,
            grid.cached_visible_rows == old(grid).cached_visible_rows,
            grid.pending_downloads@ == old(grid).pending_downloads@,
    {
        let ghost prev = grid.cards@;
        proof {
            assert(all.take(it.index() + 1).drop_last() =~= all.take(it.index() as int));
            assert(all.take(it.index() + 1).last() == item);
        }
        if item.is_video && item.bvid.is_some() {
            let card = feed_card(item);
            grid.add_card(card);
            proof {
                assert(grid.cards@.take(start.len() as int) =~= prev.take(start.len() as int));
                assert(grid.cards@.skip(start.len() as int) =~= prev.skip(start.len() as int).push(card));
            }
        }
    }
    proof {
        assert(all.take(all.len() as int) =~= all);
    }
}

impl DynamicPage {
    pub open spec fn wf(&self) -> bool {
        self.grid.wf()
    }

    /// The state of a feed just opened: empty and about to load.
    pub open spec fn is_fresh(&self) -> bool {
        &&& self.grid.cards@.len() == 0
        &&& self.grid.selected_index == 0
        &&& self.grid.scroll_row == 0
        &&& self.grid.pending_downloads@ == Set::<usize>::empty()
        &&& self.loading
        &&& self.error_message is None
        &&& self.offset is None
        &&& !self.has_more
        &&& !self.loading_more
    }

    /// An empty feed, about to load.
    pub fn new() -> (r: Self)
        ensures
            r.wf(),
            r.is_fresh(),
    {
        DynamicPage {
            grid: VideoCardGrid::new(),
            loading: true,
            error_message: None,
            offset: None,
            has_more: false,
            loading_more: false,
        }
    }

    /// Shows a fresh feed: the cards of its videos replace those shown; the
    /// continuation point and whether more exists are kept; loading stops.
    pub fn set_feed(&mut self, items: Vec<DynamicItem>, offset: Option<String>, has_more: bool)
        requires
            old(self).wf(),
        ensures
            final(self).wf(),
            feed_cards(final(self).grid.cards@, items@),
            final(self).grid.selected_index == 0,
            final(self).grid.scroll_row == 0,
            final(self).offset == offset,
            final(self).has_more == has_more,
            !final(self).loading,
            final(self).error_message == old(self).error_message,
            final(self).loading_more == old(self).loading_more,
    {
        self.grid.clear();
        add_feed_cards(&mut self.grid, items);
        proof {
            assert(self.grid.cards@.skip(0) =~= self.grid.cards@);
        }
        self.offset = offset;
        self.has_more = has_more;
        self.loading = false;
    }

    /// Adds the cards of a further feed page after those shown.
    pub fn append_feed(&mut self, items: Vec<DynamicItem>, offset: Option<String>, has_more: bool)
        requires
            old(self).wf(),
        ensures
            final(self).wf(),
            final(self).grid.cards@.take(old(self).grid.cards@.len() as int) == old(self).grid.cards@,
            final(self).grid.cards@.len() >= old(self).grid.cards@.len(),
            feed_cards(final(self).grid.cards@.skip(old(self).grid.cards@.len() as int), items@),
            final(self).grid.selected_index == old(self).grid.selected_index,
            final(self).grid.scroll_row == old(self).grid.scroll_row,
            final(self).offset == offset,
            final(self).has_more == has_more,
            !final(self).loading_more,
            final(self).loading == old(self).loading,
            final(self).error_message == old(self).error_message,
    {
        add_feed_cards(&mut self.grid, items);
        self.offset = offset;
        self.has_more = has_more;
        self.loading_more = false;
    }

    /// Shows an error; nothing is loading any more.
    pub fn set_error(&mut self, msg: String)
        ensures
            final(self).error_message == Some(msg),
            !final(self).loading,
            !final(self).loading_more,
            final(self).grid == old(self).grid,
            final(self).offset == old(self).offset,
            final(self).has_more == old(self).has_more,
    {
        self.error_message = Some(msg);
        self.loading = false;
        self.loading_more = false;
    }

    /// The state change and result of `begin_load_more`.
    pub open spec fn load_more_started(a: Self, b: Self, r: Option<Option<String>>) -> bool {
        &&& ((a.loading_more || !a.has_more) ==> r is None && b == a)
        &&& (!(a.loading_more || !a.has_more) ==> {
            &&& r == Some(a.offset)
            &&& b.loading_more
            &&& b.grid == a.grid
            &&& b.offset == a.offset
            &&& b.has_more == a.has_more
            &&& b.loading == a.loading
            &&& b.error_message == a.error_message
        })
    }

    /// Starts loading the next feed page, unless one is loading or the feed
    /// has no more. Returns the continuation point to request from.
    pub fn begin_load_more(&mut self) -> (r: Option<Option<String>>)
        ensures
            Self::load_more_started(*old(self), *final(self), r),
    {
        if self.loading_more || !self.has_more {
            return None;
        }
        self.loading_more = true;
        Some(self.offset.clone())
    }

    /// Takes in the next feed page: its videos are added and the
    /// continuation point moves on (a page without items adds nothing, one
    /// without a more-flag ends the feed); a failure just stops loading.
    pub fn finish_load_more(&mut self, result: Option<DynamicFeedData>)
        requires
            old(self).wf(),
        ensures
            final(self).wf(),
            !final(self).loading_more,
            final(self).loading == old(self).loading,
            final(self).error_message == old(self).error_message,
            match result {
                Some(data) => {
                    &&& final(self).grid.cards@.take(old(self).grid.cards@.len() as int) == old(self).grid.cards@
                    &&& final(self).grid.cards@.len() >= old(self).grid.cards@.len()
                    &&& feed_cards(
                        final(self).grid.cards@.skip(old(self).grid.cards@.len() as int),
                        match data.items {
                            Some(items) => items@,
                            None => Seq::<DynamicItem>::empty(),
                        },
                    )
                    &&& final(self).offset == data.offset
                    &&& final(self).has_more == match data.has_more {
                        Some(b) => b,
                        None => false,
                    }
                },
                None => {
                    &&& final(self).grid == old(self).grid
                    &&& final(self).offset == old(self).offset
                    &&& final(self).has_more == old(self).has_more
                },
            },
    {
        match result {
            Some(data) => {
                let items = match data.items {
                    Some(items) => items,
                    None => Vec::new(),
                };
                let has_more = match data.has_more {
                    Some(b) => b,
                    None => false,
                };
                self.append_feed(items, data.offset, has_more);
            },
            None => {
                self.loading_more = false;
            },
        }
    }
}


impl DynamicPage {
    /// Everything of the page but its grid.
    pub open spec fn same_except_grid(&self, other: &Self) -> bool {
        &&& self.loading == other.loading
        &&& self.error_message == other.error_message
        &&& self.offset == other.offset
        &&& self.has_more == other.has_more
        &&& self.loading_more == other.loading_more
    }

    /// What a key does to the page: the page after it, and the action asked for.
    pub open spec fn key_outcome(a: Self, key: Key, b: Self, r: Option<AppAction>) -> bool {
        &&& (key != Key::Char('r') ==> b.same_except_grid(&a))
        &&& (match key {
            Key::Char('j') | Key::Down => {
                &&& b.grid.same_cards(&a.grid)
                &&& b.grid.selected_index == moved_down(
                    a.grid.selected_index as nat,
                    a.grid.cards@.len(),
                    a.grid.columns as nat,
                )
                &&& r == Some(
                    if near_bottom(
                        b.grid.selected_index as nat,
                        a.grid.cards@.len(),
                        a.grid.columns as nat,
                        3,
                    ) && !a.loading_more && a.has_more {
                        AppAction::LoadMoreDynamic
                    } else {
                        AppAction::NoOp
                    },
                )
            },
            Key::Char('k') | Key::Up => {
                &&& b.grid.same_cards(&a.grid)
                &&& b.grid.selected_index == moved_up(
                    a.grid.selected_index as nat,
                    a.grid.cards@.len(),
                    a.grid.columns as nat,
                )
                &&& r == Some(AppAction::NoOp)
            },
            Key::Char('l') | Key::Right => {
                &&& b.grid.same_cards(&a.grid)
                &&& b.grid.selected_index == moved_right(
                    a.grid.selected_index as nat,
                    a.grid.cards@.len(),
                )
                &&& r == Some(AppAction::NoOp)
            },
            Key::Char('h') | Key::Left => {
                &&& b.grid.same_cards(&a.grid)
                &&& b.grid.selected_index == moved_left(
                    a.grid.selected_index as nat,
                    a.grid.cards@.len(),
                )
                &&& r == Some(AppAction::NoOp)
            },
            Key::Enter => {
                let g = a.grid;
                let sel = g.selected_index as int;
                &&& b.grid == g
                &&& r == Some(
                    if sel < g.cards@.len() && g.cards@[sel].bvid is Some {
                        AppAction::OpenVideoDetail(g.cards@[sel].bvid->0, 0)
                    } else {
                        AppAction::NoOp
                    },
                )
            },
            Key::Char('r') => {
                &&& b.loading
                &&& b.grid.cards@.len() == 0
                &&& b.grid.selected_index == 0
                &&& b.grid.scroll_row == 0
                &&& b.grid.pending_downloads@ == Set::<usize>::empty()
                &&& b.grid.columns == a.grid.columns
                &&& b.grid.card_height == a.grid.card_height
                &&& b.grid.cached_visible_rows == a.grid.cached_visible_rows
                &&& b.error_message == a.error_message
                &&& b.offset == a.offset
                &&& b.has_more == a.has_more
                &&& b.loading_more == a.loading_more
                &&& r == Some(AppAction::RefreshDynamic)
            },
            Key::Tab => b.grid == a.grid && r == Some(AppAction::NavNext),
            Key::Char('q') => b.grid == a.grid && r == Some(AppAction::Quit),
            _ => b.grid == a.grid && r == Some(AppAction::NoOp),
        })
    }

    /// Reacts to a key: the arrows and `hjkl` move in the grid (moving down
    /// near the end asks for more when the feed has more and none is
    /// loading); Enter opens the selected video, whose numeric id is not
    /// known here; `r` empties the page and asks for a fresh feed; Tab moves
    /// to the next sidebar entry; `q` quits. Every key yields an action.
    pub fn handle_input(&mut self, key: Key) -> (r: Option<AppAction>)
        requires
            old(self).wf(),
        ensures
            final(self).wf(),
            Self::key_outcome(*old(self), key, *final(self), r),
    {
        match key {
            Key::Char('j') | Key::Down => {
                self.grid.move_down();
                if self.grid.is_near_bottom(3) && !self.loading_more && self.has_more {
                    return Some(AppAction::LoadMoreDynamic);
                }
                Some(AppAction::NoOp)
            },
            Key::Char('k') | Key::Up => {
                self.grid.move_up();
                Some(AppAction::NoOp)
            },
            Key::Char('l') | Key::Right => {
                self.grid.move_right();
                Some(AppAction::NoOp)
            },
            Key::Char('h') | Key::Left => {
                self.grid.move_left();
                Some(AppAction::NoOp)
            },
            Key::Enter => {
                match self.grid.selected_card() {
                    Some(card) => {
                        match &card.bvid {
                            Some(bvid) => {
                                return Some(AppAction::OpenVideoDetail(bvid.clone(), 0));
                            },
                            None => {},
                        }
                    },
                    None => {},
                }
                Some(AppAction::NoOp)
            },
            Key::Char('r') => {
                self.loading = true;
                self.grid.clear();
                Some(AppAction::RefreshDynamic)
            },
            Key::Tab => Some(AppAction::NavNext),
            Key::Char('q') => Some(AppAction::Quit),
            _ => Some(AppAction::NoOp),
        }
    }
}


impl DynamicPage {
    /// Takes in a freshly loaded feed: its videos replace the cards (a
    /// page without items shows none, one without a more-flag ends the
    /// feed); a failure is shown as an error.
    pub fn finish_refresh(&mut self, result: Result<DynamicFeedData, String>)
        requires
            old(self).wf(),
        ensures
            final(self).wf(),
            match result {
                Ok(data) => {
                    &&& feed_cards(final(self).grid.cards@, match data.items {
                        Some(items) => items@,
                        None => Seq::<DynamicItem>::empty(),
                    })
                    &&& final(self).grid.selected_index == 0
                    &&& final(self).grid.scroll_row == 0
                    &&& final(self).offset == data.offset
                    &&& final(self).has_more == match data.has_more { Some(b) => b, None => false }
                    &&& !final(self).loading
                    &&& final(self).error_message == old(self).error_message
                    &&& final(self).loading_more == old(self).loading_more
                },
                Err(e) => {
                    &&& final(self).error_message matches Some(m) && m@ == "加载动态失败: "@ + e@
                    &&& !final(self).loading
                    &&& !final(self).loading_more
                    &&& final(self).grid == old(self).grid
                    &&& final(self).offset == old(self).offset
                    &&& final(self).has_more == old(self).has_more
                },
            },
    {
        match result {
            Ok(data) => {
                let items = match data.items {
                    Some(items) => items,
                    None => Vec::new(),
                };
                let has_more = match data.has_more {
                    Some(b) => b,
                    None => false,
                };
                self.set_feed(items, data.offset, has_more);
            },
            Err(e) => {
                let mut m = String::from_str("加载动态失败: ");
                m.append(e.as_str());
                self.set_error(m);
            },
        }
    }
}

impl Default for DynamicPage {
    fn default() -> (r: Self)
        ensures
            r.wf(),
            r.is_fresh(),
    {
        Self::new()
    }
}

} // verus!
