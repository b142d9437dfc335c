//! Homepage with video recommendations in a grid layout with cover images

use vstd::prelude::*;
use std::collections::HashSet;
use crate::api::models::VideoItem;
use crate::app::AppAction;
use crate::ui::{page_after_answer, Key};
use crate::ui::grid::{
    is_near_bottom, moved_down, moved_left, moved_right, moved_up, near_bottom, rows_for,
    scroll_to_show, scrolled, total_rows, visible_rows, visible_rows_for,
};

verus! {

broadcast use vstd::std_specs::hash::group_hash_axioms;

/// Video card; `has_cover` tells whether its cover image has arrived.
pub struct VideoCard {
    pub video: VideoItem,
    pub has_cover: bool,
}

/// Message for completed cover download
pub struct CoverResult {
    pub index: usize,
}

/// The number of rows the home page keeps in view when moving.
pub const NAV_VISIBLE_ROWS: usize = 3;

/// The number of rows whose covers are fetched, from the first row shown.
pub const PREFETCH_ROWS: usize = 4;

pub struct HomePage {
    pub videos: Vec<VideoCard>,
    pub selected_index: usize,
    pub loading: bool,
    pub error_message: Option<String>,
    pub scroll_row: usize,
    pub columns: usize,
    pub card_height: u16,
    pub pending_downloads: HashSet<usize>,
    pub fresh_idx: i32,
    pub loading_more: bool,
}

/// Cards for freshly fetched videos, without covers yet.
pub open spec fn cards_of(videos: Seq<VideoItem>) -> Seq<VideoCard> {
    videos.map_values(|v: VideoItem| VideoCard { video: v, has_cover: false })
}

/// Whether the cover of card `i` still has to be fetched: it has none, no
/// download is under way, and the video has a cover address.
pub open spec fn wants_cover(cards: Seq<VideoCard>, pending: Set<usize>, i: int) -> bool {
    &&& !cards[i].has_cover
    &&& !pending.contains(i as usize)
    &&& cards[i].video.pic is Some
}

/// The first card whose cover is fetched: the first card of the first row
/// shown.
pub open spec fn window_start(scroll: nat, columns: nat) -> int {
    (scroll * columns) as int
}

/// The end of the cards whose covers are fetched: four rows past the first
/// row shown, at most the number of cards.
pub open spec fn window_end(scroll: nat, columns: nat, len: nat) -> int {
    let e = scroll * columns + columns * PREFETCH_ROWS;
    if e < len { e } else { len as int }
}

impl HomePage {
    /// The shape every page keeps: at least one column, cards at least one
    /// line high.
    pub open spec fn wf(&self) -> bool {
        self.columns > 0 && self.card_height > 0
    }

    /// Everything but the selection and the scroll position.
    pub open spec fn same_content(&self, other: &Self) -> bool {
        &&& self.videos == other.videos
        &&& self.loading == other.loading
        &&& self.error_message == other.error_message
        &&& self.columns == other.columns
        &&& self.card_height == other.card_height
        &&& self.pending_downloads@ == other.pending_downloads@
        &&& self.fresh_idx == other.fresh_idx
        &&& self.loading_more == other.loading_more
    }

    /// The state of a page just opened: empty, about to load, three cards
    /// of twelve lines to a row, at the first feed page.
    pub open spec fn is_fresh(&self) -> bool {
        &&& self.videos@.len() == 0
        &&& self.selected_index == 0
        &&& self.loading
        &&& self.error_message is None
        &&& self.scroll_row == 0
        &&& self.columns == 3
        &&& self.card_height == 12
        &&& self.pending_downloads@ == Set::<usize>::empty()
        &&& self.fresh_idx == 1
        &&& !self.loading_more
    }

    /// An empty page, about to load, three cards to a row.
    pub fn new() -> (r: Self)
        ensures
            r.wf(),
            r.is_fresh(),
    {
        HomePage {
            videos: Vec::new(),
            selected_index: 0,
            loading: true,
            error_message: None,
            scroll_row: 0,
            columns: 3,
            card_height: 12,
            pending_downloads: HashSet::new(),
            fresh_idx: 1,
            loading_more: false,
        }
    }

    /// The row of the selected card.
    pub fn selected_row(&self) -> (r: usize)
        requires
            self.wf(),
        ensures
            r == self.selected_index / self.columns,
    {
        self.selected_index / self.columns
    }

    /// The number of rows of the grid.
    pub fn total_rows(&self) -> (r: usize)
        requires
            self.wf(),
        ensures
            r == rows_for(self.videos@.len(), self.columns as nat),
    {
        total_rows(self.videos.len(), self.columns)
    }

    /// The number of rows of cards that fit in `height` lines.
    pub fn visible_rows(&self, height: u16) -> (r: usize)
        requires
            self.wf(),
        ensures
            r == visible_rows_for(height as nat, self.card_height as nat),
    {
        visible_rows(height, self.card_height)
    }

    /// Whether the selection is close enough to the end for the next page
    /// to be fetched.
    pub fn is_near_bottom(&self, visible_rows: usize) -> (r: bool)
        requires
            self.wf(),
        ensures
            r == near_bottom(self.selected_index as nat, self.videos@.len(), self.columns as nat, visible_rows as nat),
    {
        is_near_bottom(self.selected_index, self.videos.len(), self.columns, visible_rows)
    }

    /// Scrolls so that the selected row is among the `visible_rows` shown.
    pub fn update_scroll(&mut self, visible_rows: usize)
        requires
            old(self).wf(),
            visible_rows >= 1,
        ensures
            final(self).same_content(old(self)),
            final(self).selected_index == old(self).selected_index,
            final(self).scroll_row == scrolled(
                (old(self).selected_index / old(self).columns) as int,
                old(self).scroll_row as int,
                visible_rows as int,
            ),
    {
        let row = self.selected_index / self.columns;
        self.scroll_row = scroll_to_show(row, self.scroll_row, visible_rows);
    }
}


/// The selection and first row shown after a navigation key: the selection
/// moves as `moved_*` says, and the view scrolls to keep a window of three
/// rows around it. Moving down rescrolls whenever there are cards; the other
/// moves rescroll only when the selection changed.
pub open spec fn home_navigation(page: HomePage, key: Key) -> (usize, usize) {
    let len = page.videos@.len();
    let sel = page.selected_index as nat;
    let cols = page.columns as nat;
    let rescroll = |s: nat| scrolled((s / cols) as int, page.scroll_row as int, NAV_VISIBLE_ROWS as int) as usize;
    match key {
        Key::Char('j') | Key::Down => {
            let s = moved_down(sel, len, cols);
            if len > 0 { (s as usize, rescroll(s)) } else { (page.selected_index, page.scroll_row) }
        },
        Key::Char('k') | Key::Up => {
            let s = moved_up(sel, len, cols);
            if s != sel { (s as usize, rescroll(s)) } else { (page.selected_index, page.scroll_row) }
        },
        Key::Char('l') | Key::Right => {
            let s = moved_right(sel, len);
            if s != sel { (s as usize, rescroll(s)) } else { (page.selected_index, page.scroll_row) }
        },
        Key::Char('h') | Key::Left => {
            let s = moved_left(sel, len);
            if s != sel { (s as usize, rescroll(s)) } else { (page.selected_index, page.scroll_row) }
        },
        _ => (page.selected_index, page.scroll_row),
    }
}

impl HomePage {
    /// What a key does to the page: the page after it, and the action asked for.
    pub open spec fn key_outcome(a: Self, key: Key, b: Self, r: Option<AppAction>) -> bool {
        &&& (key != Key::Char('r') ==> b.same_content(&a))
        &&& (key != Key::Char('r') ==> (b.selected_index, b.scroll_row) == home_navigation(a, key))
        &&& (match key {
            Key::Char('q') => r == Some(AppAction::Quit),
            Key::Char('j') | Key::Down => r == Some(
                if a.videos@.len() > 0 && near_bottom(
                    b.selected_index as nat,
                    a.videos@.len(),
                    a.columns as nat,
                    NAV_VISIBLE_ROWS as nat,
                ) && !a.loading_more {
                    AppAction::LoadMoreRecommendations
                } else {
                    AppAction::NoOp
                },
            ),
            Key::Enter => {
                let sel = a.selected_index as int;
                if sel < a.videos@.len() && a.videos@[sel].video.bvid is Some {
                    r == Some(AppAction::OpenVideoDetail(
                        a.videos@[sel].video.bvid->0,
                        a.videos@[sel].video.id,
                    ))
                } else {
                    r == Some(AppAction::NoOp)
                }
            },
            Key::Char('p') => {
                let sel = a.selected_index as int;
                if sel < a.videos@.len() && a.videos@[sel].video.bvid is Some {
                    r == Some(AppAction::PlayVideo(a.videos@[sel].video.bvid->0))
                } else {
                    r == Some(AppAction::NoOp)
                }
            },
            Key::Char('r') => {
                &&& r == Some(AppAction::SwitchToHome)
                &&& b.loading
                &&& b.videos@.len() == 0
                &&& b.pending_downloads@ == Set::<usize>::empty()
                &&& b.selected_index == a.selected_index
                &&& b.scroll_row == a.scroll_row
                &&& b.error_message == a.error_message
                &&& b.columns == a.columns
                &&& b.card_height == a.card_height
                &&& b.fresh_idx == a.fresh_idx
                &&& b.loading_more == a.loading_more
            },
            Key::Tab => r == Some(AppAction::NavNext),
            _ => r == Some(AppAction::NoOp),
        })
    }

    /// The up arrow and `k` move the selection one row up, to the card
    /// `columns` places before it, when there is such a card, and leave it
    /// where it is on the first row. Neither touches what the page shows
    /// nor asks for anything.
    pub proof fn lemma_up_moves_one_row_up(a: Self, key: Key, b: Self, r: Option<AppAction>)
        requires
            key == Key::Up || key == Key::Char('k'),
            Self::key_outcome(a, key, b, r),
        ensures
            b.selected_index == if a.videos@.len() > 0 && a.selected_index >= a.columns {
                a.selected_index - a.columns
            } else {
                a.selected_index as int
            },
            b.same_content(&a),
            r == Some(AppAction::NoOp),
    {
    }

    /// The left and right arrows, and `h` and `l`, move the selection to
    /// the card just before or after it, when there is one, and ask for
    /// nothing.
    pub proof fn lemma_sideways_moves_one_card(a: Self, key: Key, b: Self, r: Option<AppAction>)
        requires
            key == Key::Left || key == Key::Char('h') || key == Key::Right || key == Key::Char('l'),
            a.videos@.len() <= usize::MAX,
            Self::key_outcome(a, key, b, r),
        ensures
            (key == Key::Left || key == Key::Char('h')) ==> b.selected_index == if a.videos@.len() > 0
                && a.selected_index > 0 {
                a.selected_index - 1
            } else {
                a.selected_index as int
            },
            (key == Key::Right || key == Key::Char('l')) ==> b.selected_index == if a.selected_index + 1
                < a.videos@.len() {
                a.selected_index + 1
            } else {
                a.selected_index as int
            },
            b.same_content(&a),
            r == Some(AppAction::NoOp),
    {
    }

    /// Enter opens, and `p` plays, the video of the card selected, when it
    /// has a BV id.
    pub proof fn lemma_open_and_play_the_selected_video(a: Self, key: Key, b: Self, r: Option<AppAction>)
        requires
            key == Key::Enter || key == Key::Char('p'),
            a.selected_index < a.videos@.len(),
            a.videos@[a.selected_index as int].video.bvid is Some,
            Self::key_outcome(a, key, b, r),
        ensures
            key == Key::Enter ==> r == Some(AppAction::OpenVideoDetail(
                a.videos@[a.selected_index as int].video.bvid->0,
                a.videos@[a.selected_index as int].video.id,
            )),
            key == Key::Char('p') ==> r == Some(AppAction::PlayVideo(a.videos@[a.selected_index as int].video.bvid->0)),
            b.same_content(&a),
            b.selected_index == a.selected_index,
    {
    }

    /// Moving down a row and then up a row, with the arrows or `j` and `k`,
    /// comes back to the card one started from whenever there was a card
    /// below it.
    pub proof fn lemma_down_then_up(
        a: Self,
        down: Key,
        b: Self,
        r1: Option<AppAction>,
        up: Key,
        c: Self,
        r2: Option<AppAction>,
    )
        requires
            down == Key::Down || down == Key::Char('j'),
            up == Key::Up || up == Key::Char('k'),
            a.videos@.len() <= usize::MAX,
            a.selected_index + a.columns < a.videos@.len(),
            Self::key_outcome(a, down, b, r1),
            Self::key_outcome(b, up, c, r2),
        ensures
            b.selected_index == a.selected_index + a.columns,
            c.selected_index == a.selected_index,
            c.same_content(&a),
    {
        let len = a.videos@.len();
        assert(moved_down(a.selected_index as nat, len, a.columns as nat) == a.selected_index + a.columns);
        assert(home_navigation(a, down).0 == a.selected_index + a.columns);
    }

    /// Reacts to a key. `q` quits; the arrows and `hjkl` move the selection
    /// (moving down near the end of the grid asks for the next page unless
    /// one is loading); Enter opens the selected video and `p` plays it,
    /// when it has a BV id; `r` empties the page and asks for a fresh one;
    /// Tab moves to the next sidebar entry. Every key yields an action.
    pub fn handle_input(&mut self, key: Key) -> (r: Option<AppAction>)
        requires
            old(self).wf(),
        ensures
            final(self).wf(),
            Self::key_outcome(*old(self), key, *final(self), r),
    {
        let len = self.videos.len();
        match key {
            Key::Char('q') => Some(AppAction::Quit),
            Key::Char('j') | Key::Down => {
                if len > 0 {
                    if self.columns < len && self.selected_index < len - self.columns {
                        self.selected_index = self.selected_index + self.columns;
                    }
                    self.update_scroll(NAV_VISIBLE_ROWS);
                    if self.is_near_bottom(NAV_VISIBLE_ROWS) && !self.loading_more {
                        return Some(AppAction::LoadMoreRecommendations);
                    }
                }
                Some(AppAction::NoOp)
            },
            Key::Char('k') | Key::Up => {
                if len > 0 && self.selected_index >= self.columns {
                    self.selected_index = self.selected_index - self.columns;
                    self.update_scroll(NAV_VISIBLE_ROWS);
                }
                Some(AppAction::NoOp)
            },
            Key::Char('l') | Key::Right => {
                if len > 0 && self.selected_index < len - 1 {
                    self.selected_index = self.selected_index + 1;
                    self.update_scroll(NAV_VISIBLE_ROWS);
                }
                Some(AppAction::NoOp)
            },
            Key::Char('h') | Key::Left => {
                if len > 0 && self.selected_index > 0 {
                    self.selected_index = self.selected_index - 1;
                    self.update_scroll(NAV_VISIBLE_ROWS);
                }
                Some(AppAction::NoOp)
            },
            Key::Enter => {
                if self.selected_index < len {
                    match &self.videos[self.selected_index].video.bvid {
                        Some(bvid) => {
                            return Some(
                                AppAction::OpenVideoDetail(
                                    bvid.clone(),
                                    self.videos[self.selected_index].video.id,
                                ),
                            );
                        },
                        None => {},
                    }
                }
                Some(AppAction::NoOp)
            },
            Key::Char('p') => {
                if self.selected_index < len {
                    match &self.videos[self.selected_index].video.bvid {
                        Some(bvid) => {
                            return Some(AppAction::PlayVideo(bvid.clone()));
                        },
                        None => {},
                    }
                }
                Some(AppAction::NoOp)
            },
            Key::Char('r') => {
                self.loading = true;
                self.videos.clear();
                self.pending_downloads.clear();
                Some(AppAction::SwitchToHome)
            },
            Key::Tab => Some(AppAction::NavNext),
            _ => Some(AppAction::NoOp),
        }
    }
}


/// The message shown when the recommendations could not be loaded.
pub open spec fn load_error_message(err: Seq<char>) -> Seq<char> {
    "加载推荐视频失败: "@ + err
}

fn append_cards(cards: &mut Vec<VideoCard>, videos: Vec<VideoItem>)
    ensures
        final(cards)@ == old(cards)@ + cards_of(videos@),
{
    let ghost start = cards@;
    let ghost items = videos@;
    for v in it: videos
        invariant
            items == it.seq(),
            cards@ == start + cards_of(items.take(it.index() as int)),
    {
        proof {
            assert(cards_of(items.take(it.index() + 1)) =~= cards_of(items.take(it.index() as int)).push(
                VideoCard { video: items[it.index() as int], has_cover: false },
            ));
        }
        cards.push(VideoCard { video: v, has_cover: false });
        proof {
            assert(cards@ =~= start + cards_of(items.take(it.index() + 1)));
        }
    }
    proof {
        assert(items.take(items.len() as int) =~= items);
    }
}

impl HomePage {
    /// Starts a fresh load of the recommendations: the page shows it is
    /// loading, forgets its error and its pending downloads, and goes back to
    /// the first feed page.
    pub fn begin_load_recommendations(&mut self)
        ensures
            final(self).loading,
            final(self).error_message is None,
            final(self).pending_downloads@ == Set::<usize>::empty(),
            final(self).fresh_idx == 1,
            final(self).videos == old(self).videos,
            final(self).selected_index == old(self).selected_index,
            final(self).scroll_row == old(self).scroll_row,
            final(self).columns == old(self).columns,
            final(self).card_height == old(self).card_height,
            final(self).loading_more == old(self).loading_more,
    {
        self.loading = true;
        self.error_message = None;
        self.pending_downloads.clear();
        self.fresh_idx = 1;
    }

    /// Takes in the outcome of loading the recommendations. The videos
    /// replace the page's cards, selected and scrolled to the top; an error
    /// is kept to be shown with the cards left as they were. Either way the
    /// page stops loading.
    pub fn finish_load_recommendations(&mut self, result: Result<Vec<VideoItem>, String>)
        ensures
            !final(self).loading,
            final(self).columns == old(self).columns,
            final(self).card_height == old(self).card_height,
            final(self).pending_downloads@ == old(self).pending_downloads@,
            final(self).fresh_idx == old(self).fresh_idx,
            final(self).loading_more == old(self).loading_more,
            match result {
                Ok(videos) => {
                    &&& final(self).videos@ == cards_of(videos@)
                    &&& final(self).selected_index == 0
                    &&& final(self).scroll_row == 0
                    &&& final(self).error_message == old(self).error_message
                },
                Err(e) => {
                    &&& final(self).videos == old(self).videos
                    &&& final(self).selected_index == old(self).selected_index
                    &&& final(self).scroll_row == old(self).scroll_row
                    &&& final(self).error_message matches Some(m) && m@ == load_error_message(e@)
                },
            },
    {
        match result {
            Ok(videos) => {
                let mut cards: Vec<VideoCard> = Vec::new();
                append_cards(&mut cards, videos);
                self.videos = cards;
                self.loading = false;
                self.selected_index = 0;
                self.scroll_row = 0;
            },
            Err(e) => {
                let mut m = String::from_str("加载推荐视频失败: ");
                m.append(e.as_str());
                self.error_message = Some(m);
                self.loading = false;
            },
        }
    }

    /// The state change and result of `begin_load_more`.
    pub open spec fn load_more_started(a: Self, b: Self, r: Option<i32>) -> bool {
        &&& (a.loading_more ==> r is None && b == a)
        &&& (!a.loading_more ==> {
            &&& r == Some((a.fresh_idx + 1) as i32)
            &&& b.fresh_idx == a.fresh_idx + 1
            &&& b.loading_more
            &&& b.videos == a.videos
            &&& b.selected_index == a.selected_index
            &&& b.scroll_row == a.scroll_row
            &&& b.loading == a.loading
            &&& b.error_message == a.error_message
            &&& b.columns == a.columns
            &&& b.card_height == a.card_height
            &&& b.pending_downloads == a.pending_downloads
        })
    }

    /// Starts loading the next feed page, unless one is already loading.
    /// Returns the feed page to request.
    pub fn begin_load_more(&mut self) -> (r: Option<i32>)
        requires
            !old(self).loading_more ==> old(self).fresh_idx < i32::MAX,
        ensures
            Self::load_more_started(*old(self), *final(self), r),
    {
        if self.loading_more {
            return None;
        }
        self.loading_more = true;
        self.fresh_idx = self.fresh_idx + 1;
        Some(self.fresh_idx)
    }

    /// A request for the next feed page that fails leaves the page number
    /// where it was before the request, so that the next request asks for
    /// the same page; one that succeeds keeps the new number.
    pub proof fn lemma_failed_page_asked_again(a: Self, b: Self, r: Option<i32>)
        requires
            Self::load_more_started(a, b, r),
            r is Some,
        ensures
            page_after_answer(b.fresh_idx as int, false) == a.fresh_idx,
            page_after_answer(b.fresh_idx as int, true) == a.fresh_idx + 1,
    {
    }

    /// Takes in the next feed page: its videos are added after the cards
    /// shown; when it failed, the page number goes back so that the same
    /// page is asked for again. Either way loading stops.
    pub fn finish_load_more(&mut self, result: Option<Vec<VideoItem>>)
        requires
            result is None ==> old(self).fresh_idx > i32::MIN,
        ensures
            !final(self).loading_more,
            final(self).selected_index == old(self).selected_index,
            final(self).scroll_row == old(self).scroll_row,
            final(self).loading == old(self).loading,
            final(self).error_message == old(self).error_message,
            final(self).columns == old(self).columns,
            final(self).card_height == old(self).card_height,
            final(self).pending_downloads@ == old(self).pending_downloads@,
            final(self).fresh_idx == page_after_answer(old(self).fresh_idx as int, result is Some),
            match result {
                Some(videos) => final(self).videos@ == old(self).videos@ + cards_of(videos@),
                None => final(self).videos == old(self).videos,
            },
    {
        match result {
            Some(videos) => {
                append_cards(&mut self.videos, videos);
                self.loading_more = false;
            },
            None => {
                self.fresh_idx = self.fresh_idx - 1;
                self.loading_more = false;
            },
        }
    }
}


/// The covers to fetch: for each card of the window, in order, that still
/// wants its cover, its index and cover address.
pub open spec fn cover_requests(
    cards: Seq<VideoCard>,
    pending: Set<usize>,
    start: int,
    end: int,
) -> Seq<(usize, Seq<char>)>
    decreases end - start,
{
    if end <= start {
        Seq::empty()
    } else {
        let rest = cover_requests(cards, pending, start, end - 1);
        if wants_cover(cards, pending, end - 1) {
            rest.push(((end - 1) as usize, cards[end - 1].video.pic->0@))
        } else {
            rest
        }
    }
}

/// The indices of the window's cards that want their covers.
pub open spec fn wanted_indices(cards: Seq<VideoCard>, pending: Set<usize>, start: int, end: int) -> Set<usize> {
    Set::new(|i: usize| start <= i < end && wants_cover(cards, pending, i as int))
}

proof fn lemma_nothing_wanted(cards: Seq<VideoCard>, pending: Set<usize>, start: int, end: int)
    requires
        forall|i: int| start <= i < end ==> !#[trigger] wants_cover(cards, pending, i),
    ensures
        cover_requests(cards, pending, start, end) == Seq::<(usize, Seq<char>)>::empty(),
    decreases end - start,
{
    if end > start {
        lemma_nothing_wanted(cards, pending, start, end - 1);
        assert(!wants_cover(cards, pending, end - 1));
    }
}

/// A cover is asked for once: right after the covers of a window were
/// chosen and marked pending, choosing again for the same window asks for
/// none, and a card whose cover arrived never wants it again.
pub proof fn lemma_covers_asked_once(cards: Seq<VideoCard>, pending: Set<usize>, start: int, end: int, i: int)
    requires
        0 <= start,
        end <= cards.len(),
        cards.len() <= usize::MAX,
    ensures
        cover_requests(cards, pending.union(wanted_indices(cards, pending, start, end)), start, end)
            == Seq::<(usize, Seq<char>)>::empty(),
        0 <= i < cards.len() ==> !wants_cover(
            cards.update(i, VideoCard { video: cards[i].video, has_cover: true }),
            pending,
            i,
        ),
{
    let p2 = pending.union(wanted_indices(cards, pending, start, end));
    assert forall|k: int| start <= k < end implies !#[trigger] wants_cover(cards, p2, k) by {
        if wants_cover(cards, pending, k) {
            assert(wanted_indices(cards, pending, start, end).contains(k as usize));
        }
    }
    lemma_nothing_wanted(cards, p2, start, end);
}

impl HomePage {
    /// Chooses the covers to download now: those of the cards from the
    /// first row shown through the next four rows that have no cover, no
    /// download under way and a cover address. They are marked as pending
    /// and returned with their addresses, in card order. An empty page
    /// downloads nothing.
    pub fn covers_to_download(&mut self) -> (r: Vec<(usize, String)>)
        requires
            old(self).wf(),
        ensures
            final(self).videos == old(self).videos,
            final(self).selected_index == old(self).selected_index,
            final(self).scroll_row == old(self).scroll_row,
            final(self).loading == old(self).loading,
            final(self).error_message == old(self).error_message,
            final(self).columns == old(self).columns,
            final(self).card_height == old(self).card_height,
            final(self).fresh_idx == old(self).fresh_idx,
            final(self).loading_more == old(self).loading_more,
            ({
                let cards = old(self).videos@;
                let start = window_start(old(self).scroll_row as nat, old(self).columns as nat);
                let end = window_end(old(self).scroll_row as nat, old(self).columns as nat, cards.len());
                &&& r@.map_values(|p: (usize, String)| (p.0, p.1@)) == cover_requests(
                    cards,
                    old(self).pending_downloads@,
                    start,
                    end,
                )
                &&& final(self).pending_downloads@ == old(self).pending_downloads@.union(
                    wanted_indices(cards, old(self).pending_downloads@, start, end),
                )
            }),
    {
        let mut out: Vec<(usize, String)> = Vec::new();
        let len = self.videos.len();
        let ghost cards = self.videos@;
        let ghost pending0 = self.pending_downloads@;
        let ghost start_i = window_start(self.scroll_row as nat, self.columns as nat);
        let ghost end_i = window_end(self.scroll_row as nat, self.columns as nat, cards.len());
        let ghost s0 = *self;
        if len == 0 {
            proof {
                assert(wanted_indices(cards, pending0, start_i, end_i) =~= Set::<usize>::empty());
                assert(end_i <= start_i) by (nonlinear_arith)
                    requires
                        end_i == window_end(self.scroll_row as nat, self.columns as nat, 0),
                        start_i == window_start(self.scroll_row as nat, self.columns as nat),
                ;
                assert(self.pending_downloads@ =~= pending0.union(Set::<usize>::empty()));
            }
            return out;
        }
        let a: u128 = self.scroll_row as u128;
        let b: u128 = self.columns as u128;
        assert(a * b <= 0xffff_ffff_ffff_ffffu128 * 0xffff_ffff_ffff_ffffu128) by (nonlinear_arith)
            requires
                a <= 0xffff_ffff_ffff_ffffu128,
                b <= 0xffff_ffff_ffff_ffffu128,
        ;
        let start128: u128 = a * b;
        proof {
            assert(start128 == start_i);
        }
        if start128 >= len as u128 {
            proof {
                assert(end_i <= start_i);
                assert(wanted_indices(cards, pending0, start_i, end_i) =~= Set::<usize>::empty());
                assert(self.pending_downloads@ =~= pending0.union(Set::<usize>::empty()));
            }
            return out;
        }
        let start = start128 as usize;
        let lim: u128 = start128 + (self.columns as u128) * (PREFETCH_ROWS as u128);
        let end: usize = if lim < len as u128 { lim as usize } else { len };
        assert(end == end_i);
        let mut idx = start;
        while idx < end
            invariant
                start <= idx <= end <= len,
                len == cards.len(),
                start == start_i,
                end == end_i,
                self.videos@ == cards,
                self.videos == s0.videos,
                self.selected_index == s0.selected_index,
                self.scroll_row == s0.scroll_row,
                self.loading == s0.loading,
                self.error_message == s0.error_message,
                self.columns == s0.columns,
                self.card_height == s0.card_height,
                self.fresh_idx == s0.fresh_idx,
                self.loading_more == s0.loading_more,
                out@.map_values(|p: (usize, String)| (p.0, p.1@)) == cover_requests(cards, pending0, start as int, idx as int),
                self.pending_downloads@ == pending0.union(wanted_indices(cards, pending0, start as int, idx as int)),
                forall|j: usize| idx <= j ==> (self.pending_downloads@.contains(j) <==> pending0.contains(j)),
            decreases end - idx,
        {
            let ghost before = out@;
            let wanted = !self.videos[idx].has_cover && !self.pending_downloads.contains(&idx)
                && self.videos[idx].video.pic.is_some();
            if wanted {
                let pic = match &self.videos[idx].video.pic {
                    Some(p) => p.clone(),
                    None => String::new(),
                };
                self.pending_downloads.insert(idx);
                out.push((idx, pic));
            }
            proof {
                assert(wanted == wants_cover(cards, pending0, idx as int));
                assert(out@.map_values(|p: (usize, String)| (p.0, p.1@)) =~= cover_requests(
                    cards,
                    pending0,
                    start as int,
                    idx + 1,
                ));
                assert(self.pending_downloads@ =~= pending0.union(
                    wanted_indices(cards, pending0, start as int, idx + 1),
                ));
            }
            idx = idx + 1;
        }
        out
    }

    /// Takes in a downloaded cover for card `index`: the card now has its
    /// cover and no download is pending for it. A cover for a card that is
    /// no longer there is dropped; the result tells whether it was taken.
    pub fn apply_cover(&mut self, index: usize) -> (r: bool)
        ensures
            r == (index < old(self).videos@.len()),
            r ==> final(self).videos@ == old(self).videos@.update(
                index as int,
                VideoCard { video: old(self).videos@[index as int].video, has_cover: true },
            ),
            r ==> final(self).pending_downloads@ == old(self).pending_downloads@.remove(index),
            !r ==> final(self).videos == old(self).videos,
            !r ==> final(self).pending_downloads@ == old(self).pending_downloads@,
            final(self).selected_index == old(self).selected_index,
            final(self).scroll_row == old(self).scroll_row,
            final(self).loading == old(self).loading,
            final(self).error_message == old(self).error_message,
            final(self).columns == old(self).columns,
            final(self).card_height == old(self).card_height,
            final(self).fresh_idx == old(self).fresh_idx,
            final(self).loading_more == old(self).loading_more,
    {
        if index < self.videos.len() {
            let card = self.videos.remove(index);
            self.videos.insert(index, VideoCard { video: card.video, has_cover: true });
            self.pending_downloads.remove(&index);
            proof {
                assert(self.videos@ =~= old(self).videos@.update(
                    index as int,
                    VideoCard { video: old(self).videos@[index as int].video, has_cover: true },
                ));
            }
            true
        } else {
            false
        }
    }
}

impl Default for HomePage {
    fn default() -> (r: Self)
        ensures
            r.wf(),
            r.is_fresh(),
    {
        Self::new()
    }
}

} // verus!
