//! Video detail page showing video info, comments, and related videos

use vstd::prelude::*;
use std::collections::HashSet;
use crate::api::models::{CommentData, CommentItem, RelatedVideoItem, VideoInfo, VideoStat};
use crate::app::AppAction;
use crate::storage::opt_view;
use crate::text::{clip_text, clipped, decimal, i64_to_decimal, pop_char, push_char};
use crate::ui::{page_after_answer, Key};
use crate::ui::grid::{moved_down, moved_left, moved_right, moved_up};
use crate::ui::video_card::{VideoCard, VideoCardGrid};

verus! {

broadcast use vstd::std_specs::hash::group_hash_axioms;

#[derive(Debug, Clone, Copy, PartialEq, Eq, Structural)]
pub enum DetailFocus {
    Comments,
    Related,
}

/// How many characters of a video's description the details show.
pub const DESCRIPTION_PREVIEW_CHARS: usize = 100;

/// The part of a video's description shown with its details: its first
/// hundred characters, with "..." when there are more.
pub fn description_preview(desc: &str) -> (r: String)
    ensures
        r@ == clipped(desc@, DESCRIPTION_PREVIEW_CHARS as nat),
{
    clip_text(desc, DESCRIPTION_PREVIEW_CHARS)
}

/// The line of counts under a video's title.
pub open spec fn stats_line_spec(stat: VideoStat) -> Seq<char> {
    "▶ "@ + decimal(stat.view as int) + " · 💬 "@ + decimal(stat.danmaku as int) + " · 👍 "@ + decimal(
        stat.like as int,
    ) + " · 💰 "@ + decimal(stat.coin as int) + " · ⭐ "@ + decimal(stat.favorite as int)
}

/// Renders the counts of a video in one line.
pub fn stats_line(stat: &VideoStat) -> (r: String)
    ensures
        r@ == stats_line_spec(*stat),
{
    let mut r = String::from_str("▶ ");
    r.append(i64_to_decimal(stat.view).as_str());
    r.append(" · 💬 ");
    r.append(i64_to_decimal(stat.danmaku).as_str());
    r.append(" · 👍 ");
    r.append(i64_to_decimal(stat.like).as_str());
    r.append(" · 💰 ");
    r.append(i64_to_decimal(stat.coin).as_str());
    r.append(" · ⭐ ");
    r.append(i64_to_decimal(stat.favorite).as_str());
    r
}

pub struct VideoDetailPage {
    pub bvid: String,
    pub aid: i64,
    pub video_info: Option<VideoInfo>,
    pub comments: Vec<CommentItem>,
    pub related_videos: Vec<RelatedVideoItem>,
    pub related_card_grid: VideoCardGrid,
    pub loading: bool,
    pub error_message: Option<String>,
    pub comment_page: i32,
    pub comment_scroll: usize,
    pub related_scroll: usize,
    pub focus: DetailFocus,
    pub has_more_comments: bool,
    pub loading_more_comments: bool,
    /// rpid of expanded comment
    pub expanded_comment: Option<i64>,
    /// replies for expanded comment
    pub comment_replies: Vec<CommentItem>,
    pub loading_replies: bool,
    /// rpids of liked comments
    pub liked_comments: HashSet<i64>,
    /// comment input mode
    pub input_mode: bool,
    /// comment input buffer
    pub input_buffer: String,
}

/// The card of a related video: its ids, its title (or "无标题" when it has
/// none), author, view count, duration and cover, no cover image yet.
pub open spec fn is_related_card(card: VideoCard, item: RelatedVideoItem) -> bool {
    &&& card.bvid == item.bvid
    &&& card.aid == item.aid
    &&& card.title@ == match item.title {
        Some(t) => t@,
        None => "无标题"@,
    }
    &&& card.author == item.author
    &&& card.views == item.views
    &&& card.duration == item.duration
    &&& card.cover_url == item.cover
    &&& !card.has_cover
}

/// `cards` are the cards of `items`, one each, in order.
pub open spec fn related_cards(cards: Seq<VideoCard>, items: Seq<RelatedVideoItem>) -> bool {
    cards.len() == items.len() && forall|i: int| 0 <= i < items.len() ==> is_related_card(#[trigger] cards[i], items[i])
}

fn related_card(item: &RelatedVideoItem) -> (r: VideoCard)
    ensures
        is_related_card(r, *item),
{
    let title = match &item.title {
        Some(t) => t.clone(),
        None => String::from_str("无标题"),
    };
    VideoCard::new(
        item.bvid.clone(),
        item.aid,
        title,
        item.author.clone(),
        item.views.clone(),
        item.duration.clone(),
        item.cover.clone(),
    )
}

/// Whether the selected comment is within two of the last comments, given
/// `visible` comments shown, which is when more are fetched.
pub open spec fn comments_near_bottom(scroll: nat, len: nat, visible: nat) -> bool {
    let last: int = if len >= 2 { len - 2 } else { 0 };
    len > 0 && scroll + visible >= last
}

/// The message shown after loading the page: that of the first part that
/// failed, if any.
pub open spec fn first_load_error<A, B, C>(
    info: Result<A, String>,
    comments: Result<B, String>,
    related: Result<C, String>,
) -> Option<Seq<char>> {
    match info {
        Err(e) => Some("加载视频信息失败: "@ + e@),
        Ok(_) => match comments {
            Err(e) => Some("加载评论失败: "@ + e@),
            Ok(_) => match related {
                Err(e) => Some("加载相关视频失败: "@ + e@),
                Ok(_) => None,
            },
        },
    }
}

fn with_prefix(prefix: &str, err: &String) -> (r: String)
    ensures
        r@ == prefix@ + err@,
{
    let mut m = String::from_str(prefix);
    m.append(err.as_str());
    m
}

fn fill_related(grid: &mut VideoCardGrid, videos: &Vec<RelatedVideoItem>)
    requires
        old(grid).wf(),
    ensures
        final(grid).wf(),
        related_cards(final(grid).cards@, videos@),
        final(grid).selected_index == 0,
        final(grid).scroll_row == 0,
        final(grid).columns == old(grid).columns,
        final(grid).card_height == old(grid).card_height,
        final(grid).cached_visible_rows == old(grid).cached_visible_rows,
        final(grid).pending_downloads@ == Set::<usize>::empty(),
{
    grid.clear();
    let mut i: usize = 0;
    while i < videos.len()
        invariant
            i <= videos@.len(),
            related_cards(grid.cards@, videos@.take(i as int)),
            grid.wf(),
            grid.selected_index == 0,
            grid.scroll_row == 0,
            grid.columns == old(grid).columns,
            grid.card_height == old(grid).card_height,
            grid.cached_visible_rows == old(grid).cached_visible_rows,
            grid.pending_downloads@ == Set::<usize>::empty(),
        decreases videos@.len() - i,
    {
        let card = related_card(&videos[i]);
        grid.add_card(card);
        proof {
            assert(videos@.take(i + 1) =~= videos@.take(i as int).push(videos@[i as int]));
        }
        i = i + 1;
    }
    proof {
        assert(videos@.take(videos@.len() as int) =~= videos@);
    }
}

impl VideoDetailPage {
    pub open spec fn wf(&self) -> bool {
        self.related_card_grid.wf()
    }

    /// The state of the page of video `bvid` (numeric id `aid`) just
    /// opened: nothing loaded, comments focused from page one, related
    /// videos two to a row in compact cards.
    pub open spec fn is_fresh(&self, bvid: String, aid: i64) -> bool {
        &&& self.bvid == bvid
        &&& self.aid == aid
        &&& self.video_info is None
        &&& self.comments@.len() == 0
        &&& self.related_videos@.len() == 0
        &&& self.related_card_grid.cards@.len() == 0
        &&& self.related_card_grid.selected_index == 0
        &&& self.related_card_grid.scroll_row == 0
        &&& self.related_card_grid.columns == 2
        &&& self.related_card_grid.card_height == 8
        &&& self.loading
        &&& self.error_message is None
        &&& self.comment_page == 1
        &&& self.comment_scroll == 0
        &&& self.related_scroll == 0
        &&& self.focus == DetailFocus::Comments
        &&& self.has_more_comments
        &&& !self.loading_more_comments
        &&& self.expanded_comment is None
        &&& self.comment_replies@.len() == 0
        &&& !self.loading_replies
        &&& self.liked_comments@ == Set::<i64>::empty()
        &&& !self.input_mode
        &&& self.input_buffer@.len() == 0
    }

    /// The page of video `bvid` (numeric id `aid`), about to load: comments
    /// focused from page one, related videos two to a row in compact cards.
    pub fn new(bvid: String, aid: i64) -> (r: Self)
        ensures
            r.wf(),
            r.is_fresh(bvid, aid),
    {
        let mut related_card_grid = VideoCardGrid::new();
        related_card_grid.columns = 2;
        related_card_grid.card_height = 8;
        VideoDetailPage {
            bvid,
            aid,
            video_info: None,
            comments: Vec::new(),
            related_videos: Vec::new(),
            related_card_grid,
            loading: true,
            error_message: None,
            comment_page: 1,
            comment_scroll: 0,
            related_scroll: 0,
            focus: DetailFocus::Comments,
            has_more_comments: true,
            loading_more_comments: false,
            expanded_comment: None,
            comment_replies: Vec::new(),
            loading_replies: false,
            liked_comments: HashSet::new(),
            input_mode: false,
            input_buffer: String::new(),
        }
    }

    /// Takes in the three parts of the page, fetched in this order: the
    /// video's details, the first comment page and the related videos. Each
    /// part that arrived replaces what was shown; the first part that failed
    /// gives the error shown (an earlier error is forgotten). The comment
    /// page restarts at one and more comments exist when the reported total
    /// exceeds those received. Loading stops.
    pub fn finish_load_data(
        &mut self,
        info: Result<VideoInfo, String>,
        comments: Result<CommentData, String>,
        related: Result<Vec<RelatedVideoItem>, String>,
    )
        requires
            old(self).wf(),
        ensures
            final(self).wf(),
            !final(self).loading,
            final(self).video_info == match info {
                Ok(i) => Some(i),
                Err(_) => old(self).video_info,
            },
            match comments {
                Ok(data) => {
                    &&& final(self).comments@ == match data.replies {
                        Some(v) => v@,
                        None => Seq::<CommentItem>::empty(),
                    }
                    &&& final(self).comment_page == 1
                    &&& match data.page {
                        Some(p) => {
                            let count: int = match p.count { Some(c) => c as int, None => 0 };
                            final(self).comments@.len() <= i32::MAX ==> final(self).has_more_comments == (count > final(self).comments@.len())
                        },
                        None => final(self).has_more_comments == old(self).has_more_comments,
                    }
                },
                Err(_) => {
                    &&& final(self).comments == old(self).comments
                    &&& final(self).comment_page == old(self).comment_page
                    &&& final(self).has_more_comments == old(self).has_more_comments
                },
            },
            match related {
                Ok(videos) => {
                    &&& final(self).related_videos == videos
                    &&& related_cards(final(self).related_card_grid.cards@, videos@)
                    &&& final(self).related_card_grid.selected_index == 0
                    &&& final(self).related_card_grid.scroll_row == 0
                },
                Err(_) => {
                    &&& final(self).related_videos == old(self).related_videos
                    &&& final(self).related_card_grid == old(self).related_card_grid
                },
            },
            opt_view(final(self).error_message) == first_load_error(info, comments, related),
            final(self).bvid == old(self).bvid,
            final(self).aid == old(self).aid,
            final(self).comment_scroll == old(self).comment_scroll,
            final(self).related_scroll == old(self).related_scroll,
            final(self).focus == old(self).focus,
            final(self).loading_more_comments == old(self).loading_more_comments,
            final(self).expanded_comment == old(self).expanded_comment,
            final(self).comment_replies == old(self).comment_replies,
            final(self).loading_replies == old(self).loading_replies,
            final(self).liked_comments@ == old(self).liked_comments@,
            final(self).input_mode == old(self).input_mode,
            final(self).input_buffer == old(self).input_buffer,
    {
        self.loading = true;
        self.error_message = None;
        match info {
            Ok(i) => {
                self.video_info = Some(i);
            },
            Err(e) => {
                self.error_message = Some(with_prefix("加载视频信息失败: ", &e));
            },
        }
        match comments {
            Ok(data) => {
                self.comments = match data.replies {
                    Some(v) => v,
                    None => Vec::new(),
                };
                self.comment_page = 1;
                match data.page {
                    Some(p) => {
                        let count: i32 = match p.count {
                            Some(c) => c,
                            None => 0,
                        };
                        let got = self.comments.len();
                        self.has_more_comments = if got <= i32::MAX as usize {
                            count > got as i32
                        } else {
                            count > (#[verifier::truncate] (got as i32))
                        };
                    },
                    None => {},
                }
            },
            Err(e) => {
                if self.error_message.is_none() {
                    self.error_message = Some(with_prefix("加载评论失败: ", &e));
                }
            },
        }
        match related {
            Ok(videos) => {
                fill_related(&mut self.related_card_grid, &videos);
                self.related_videos = videos;
            },
            Err(e) => {
                if self.error_message.is_none() {
                    self.error_message = Some(with_prefix("加载相关视频失败: ", &e));
                }
            },
        }
        self.loading = false;
    }
}


impl VideoDetailPage {
    /// Whether the selected comment is close enough to the end of those
    /// loaded for more to be fetched.
    pub fn is_near_comments_bottom(&self, visible_count: usize) -> (r: bool)
        ensures
            r == comments_near_bottom(self.comment_scroll as nat, self.comments@.len(), visible_count as nat),
    {
        let len = self.comments.len();
        if len == 0 {
            return false;
        }
        let last = if len >= 2 { len - 2 } else { 0 };
        (self.comment_scroll as u128) + (visible_count as u128) >= last as u128
    }

    /// The state change and result of `begin_load_more_comments`.
    pub open spec fn comments_more_started(a: Self, b: Self, r: Option<i32>) -> bool {
        &&& (!(a.has_more_comments && !a.loading_more_comments) ==> r is None && b == a)
        &&& ((a.has_more_comments && !a.loading_more_comments) ==> {
            &&& r == Some((a.comment_page + 1) as i32)
            &&& b.comment_page == a.comment_page + 1
            &&& b.loading_more_comments
            &&& b.comments == a.comments
            &&& b.has_more_comments
        })
        &&& (b.aid == a.aid)
        &&& (b.related_card_grid == a.related_card_grid)
        &&& (b.comment_scroll == a.comment_scroll)
        &&& (b.focus == a.focus)
    }

    /// Starts loading the next comment page, unless there are no more or a
    /// page is loading. Returns the page to request.
    pub fn begin_load_more_comments(&mut self) -> (r: Option<i32>)
        requires
            old(self).has_more_comments && !old(self).loading_more_comments ==> old(self).comment_page < i32::MAX,
        ensures
            Self::comments_more_started(*old(self), *final(self), r),
    {
        if !self.has_more_comments || self.loading_more_comments {
            return None;
        }
        self.loading_more_comments = true;
        self.comment_page = self.comment_page + 1;
        Some(self.comment_page)
    }

    /// A request for the next comment page that fails leaves the page
    /// number where it was before the request, so that the next request
    /// asks for the same page; one that is answered keeps the new number.
    pub proof fn lemma_failed_page_asked_again(a: Self, b: Self, r: Option<i32>)
        requires
            Self::comments_more_started(a, b, r),
            r is Some,
        ensures
            page_after_answer(b.comment_page as int, false) == a.comment_page,
            page_after_answer(b.comment_page as int, true) == a.comment_page + 1,
    {
    }

    /// Takes in the next comment page: its comments are added after those
    /// loaded; a page without comments means there are no more; a failed
    /// request moves the page number back so that the page is asked for
    /// again. Loading stops.
    pub fn finish_load_more_comments(&mut self, result: Option<CommentData>)
        requires
            result is None ==> old(self).comment_page > i32::MIN,
        ensures
            !final(self).loading_more_comments,
            final(self).comment_page == page_after_answer(old(self).comment_page as int, result is Some),
            match result {
                Some(data) => {
                    &&& match data.replies {
                        Some(replies) => if replies@.len() == 0 {
                            !final(self).has_more_comments && final(self).comments == old(self).comments
                        } else {
                            final(self).has_more_comments == old(self).has_more_comments
                                && final(self).comments@ == old(self).comments@ + replies@
                        },
                        None => !final(self).has_more_comments && final(self).comments == old(self).comments,
                    }
                },
                None => final(self).comments == old(self).comments
                    && final(self).has_more_comments == old(self).has_more_comments,
            },
            final(self).aid == old(self).aid,
            final(self).related_card_grid == old(self).related_card_grid,
            final(self).comment_scroll == old(self).comment_scroll,
            final(self).focus == old(self).focus,
    {
        match result {
            Some(data) => {
                match data.replies {
                    Some(mut replies) => {
                        if replies.len() == 0 {
                            self.has_more_comments = false;
                        } else {
                            self.comments.append(&mut replies);
                        }
                    },
                    None => {
                        self.has_more_comments = false;
                    },
                }
            },
            None => {
                self.comment_page = self.comment_page - 1;
            },
        }
        self.loading_more_comments = false;
    }

    /// The state change and result of `begin_toggle_replies`.
    pub open spec fn replies_toggled(a: Self, b: Self, r: Option<i64>) -> bool {
        &&& (b.comments == a.comments)
        &&& (b.comment_scroll == a.comment_scroll)
        &&& (b.aid == a.aid)
        &&& (b.related_card_grid == a.related_card_grid)
        &&& (({
            let i = a.comment_scroll as int;
            let cs = a.comments@;
            if i >= cs.len() {
                r is None && b == a
            } else if a.expanded_comment == Some(cs[i].rpid) {
                &&& r is None
                &&& b.expanded_comment is None
                &&& b.comment_replies@.len() == 0
                &&& b.loading_replies == a.loading_replies
            } else if cs[i].reply_count == 0 {
                r is None && b == a
            } else {
                &&& r == Some(cs[i].rpid)
                &&& b.expanded_comment == Some(cs[i].rpid)
                &&& b.loading_replies
                &&& b.comment_replies == a.comment_replies
            }
        }))
    }

    /// The comment whose replies showing or hiding the replies fetches: the
    /// selected comment, when it is not expanded and has replies.
    pub open spec fn reply_target(&self) -> Option<i64> {
        let i = self.comment_scroll as int;
        let cs = self.comments@;
        if i >= cs.len() || self.expanded_comment == Some(cs[i].rpid) || cs[i].reply_count == 0 {
            None
        } else {
            Some(cs[i].rpid)
        }
    }

    /// Shows or hides the replies of the selected comment. Returns the
    /// comment whose replies must be fetched: the selected one, when it was
    /// not expanded and has replies; it is then expanded and its replies are
    /// loading. An expanded comment is collapsed and its replies dropped.
    pub fn begin_toggle_replies(&mut self) -> (r: Option<i64>)
        ensures
            Self::replies_toggled(*old(self), *final(self), r),
    {
        if self.comment_scroll >= self.comments.len() {
            return None;
        }
        let rpid = self.comments[self.comment_scroll].rpid;
        if self.expanded_comment == Some(rpid) {
            self.expanded_comment = None;
            self.comment_replies.clear();
            return None;
        }
        if self.comments[self.comment_scroll].reply_count == 0 {
            return None;
        }
        self.expanded_comment = Some(rpid);
        self.loading_replies = true;
        Some(rpid)
    }

    /// Everything but the replies shown and the comments liked.
    pub open spec fn same_apart_from_reactions(&self, other: &Self) -> bool {
        &&& self.bvid == other.bvid
        &&& self.aid == other.aid
        &&& self.video_info == other.video_info
        &&& self.comments == other.comments
        &&& self.related_videos == other.related_videos
        &&& self.related_card_grid == other.related_card_grid
        &&& self.loading == other.loading
        &&& self.error_message == other.error_message
        &&& self.comment_page == other.comment_page
        &&& self.comment_scroll == other.comment_scroll
        &&& self.related_scroll == other.related_scroll
        &&& self.focus == other.focus
        &&& self.has_more_comments == other.has_more_comments
        &&& self.loading_more_comments == other.loading_more_comments
        &&& self.input_mode == other.input_mode
        &&& self.input_buffer == other.input_buffer
    }

    /// Takes in the replies of the expanded comment; a failed request shows
    /// none. They are no longer loading.
    pub fn finish_toggle_replies(&mut self, result: Option<CommentData>)
        ensures
            !final(self).loading_replies,
            final(self).comment_replies@ == match result {
                Some(data) => match data.replies {
                    Some(v) => v@,
                    None => Seq::<CommentItem>::empty(),
                },
                None => Seq::<CommentItem>::empty(),
            },
            final(self).expanded_comment == old(self).expanded_comment,
            final(self).liked_comments@ == old(self).liked_comments@,
            final(self).same_apart_from_reactions(old(self)),
    {
        match result {
            Some(data) => {
                self.comment_replies = match data.replies {
                    Some(v) => v,
                    None => Vec::new(),
                };
            },
            None => {
                self.comment_replies.clear();
            },
        }
        self.loading_replies = false;
    }
}


/// The number of comments kept in view when deciding to load more.
pub const COMMENTS_VISIBLE: usize = 10;

/// The action of `p`: play the video, with its episode id and length when
/// the details are known (else zero).
pub open spec fn play_action(page: VideoDetailPage) -> AppAction {
    match page.video_info {
        Some(info) => AppAction::PlayEpisode {
            bvid: page.bvid,
            aid: page.aid,
            cid: info.cid,
            duration: match info.duration { Some(d) => d, None => 0 },
        },
        None => AppAction::PlayEpisode { bvid: page.bvid, aid: page.aid, cid: 0, duration: 0 },
    }
}

/// The action of Enter: like the selected comment, or open the selected
/// related video (with id zero when its id is unknown).
pub open spec fn enter_action(page: VideoDetailPage) -> AppAction {
    match page.focus {
        DetailFocus::Comments => {
            let i = page.comment_scroll as int;
            if i < page.comments@.len() {
                AppAction::LikeComment { oid: page.aid, rpid: page.comments@[i].rpid, comment_type: 1 }
            } else {
                AppAction::NoOp
            }
        },
        DetailFocus::Related => {
            let g = page.related_card_grid;
            let sel = g.selected_index as int;
            if sel < g.cards@.len() && g.cards@[sel].bvid is Some {
                AppAction::OpenVideoDetail(
                    g.cards@[sel].bvid->0,
                    match g.cards@[sel].aid { Some(a) => a, None => 0 },
                )
            } else {
                AppAction::NoOp
            }
        },
    }
}

impl VideoDetailPage {
    /// Everything but the comment selection, the related grid and its
    /// mirror, the focus and the comment input.
    pub open spec fn same_data(&self, other: &Self) -> bool {
        &&& self.bvid == other.bvid
        &&& self.aid == other.aid
        &&& self.video_info == other.video_info
        &&& self.comments == other.comments
        &&& self.related_videos == other.related_videos
        &&& self.loading == other.loading
        &&& self.error_message == other.error_message
        &&& self.comment_page == other.comment_page
        &&& self.has_more_comments == other.has_more_comments
        &&& self.loading_more_comments == other.loading_more_comments
        &&& self.expanded_comment == other.expanded_comment
        &&& self.comment_replies == other.comment_replies
        &&& self.loading_replies == other.loading_replies
        &&& self.liked_comments@ == other.liked_comments@
    }

    /// Tab moves the focus between the comments and the related videos and
    /// changes nothing else: a second Tab gives the page back as it was.
    pub proof fn lemma_tab_twice(a: Self, b: Self, r1: Option<AppAction>, c: Self, r2: Option<AppAction>)
        requires
            !a.input_mode,
            Self::key_outcome(a, Key::Tab, b, r1),
            Self::key_outcome(b, Key::Tab, c, r2),
        ensures
            b.focus != a.focus,
            c.same_data(&a),
            c.focus == a.focus,
            c.comment_scroll == a.comment_scroll,
            c.related_card_grid == a.related_card_grid,
            c.related_scroll == a.related_scroll,
            c.input_mode == a.input_mode,
            c.input_buffer == a.input_buffer,
            r1 == Some(AppAction::NoOp) && r2 == Some(AppAction::NoOp),
    {
    }

    /// With the comments focused, Enter likes the comment selected (the
    /// one at the comment scroll position) under this video, as a video
    /// comment, and leaves the page as it was.
    pub proof fn lemma_enter_likes_selected_comment(a: Self, b: Self, r: Option<AppAction>)
        requires
            !a.input_mode,
            a.focus == DetailFocus::Comments,
            a.comment_scroll < a.comments@.len(),
            Self::key_outcome(a, Key::Enter, b, r),
        ensures
            r == Some(AppAction::LikeComment {
                oid: a.aid,
                rpid: a.comments@[a.comment_scroll as int].rpid,
                comment_type: 1,
            }),
            b == a,
    {
    }

    /// With the related videos focused, Enter opens the related video
    /// selected, when it has a BV id, and leaves the page as it was.
    pub proof fn lemma_enter_opens_selected_related(a: Self, b: Self, r: Option<AppAction>)
        requires
            !a.input_mode,
            a.focus == DetailFocus::Related,
            a.related_card_grid.selected_index < a.related_card_grid.cards@.len(),
            a.related_card_grid.cards@[a.related_card_grid.selected_index as int].bvid is Some,
            Self::key_outcome(a, Key::Enter, b, r),
        ensures
            ({
                let card = a.related_card_grid.cards@[a.related_card_grid.selected_index as int];
                r == Some(AppAction::OpenVideoDetail(card.bvid->0, match card.aid { Some(x) => x, None => 0 }))
            }),
            b == a,
    {
    }

    /// Moving down the comments and pressing Enter likes the comment after
    /// the one selected before, whenever there is one.
    pub proof fn lemma_down_then_enter_likes_next(
        a: Self,
        down: Key,
        b: Self,
        r1: Option<AppAction>,
        c: Self,
        r2: Option<AppAction>,
    )
        requires
            !a.input_mode,
            a.focus == DetailFocus::Comments,
            down == Key::Down || down == Key::Char('j'),
            a.comment_scroll + 1 < a.comments@.len(),
            Self::key_outcome(a, down, b, r1),
            Self::key_outcome(b, Key::Enter, c, r2),
        ensures
            r2 == Some(AppAction::LikeComment {
                oid: a.aid,
                rpid: a.comments@[a.comment_scroll + 1].rpid,
                comment_type: 1,
            }),
    {
    }

    /// What a key does to the page: the page after it, and the action asked for.
    pub open spec fn key_outcome(a: Self, key: Key, b: Self, r: Option<AppAction>) -> bool {
        &&& (b.same_data(&a))
        &&& (a.input_mode ==> {
            &&& b.comment_scroll == a.comment_scroll
            &&& b.related_card_grid == a.related_card_grid
            &&& b.related_scroll == a.related_scroll
            &&& b.focus == a.focus
            &&& match key {
                Key::Esc => !b.input_mode && b.input_buffer@.len() == 0
                    && r == Some(AppAction::NoOp),
                Key::Enter => if a.input_buffer@.len() > 0 {
                    &&& !b.input_mode
                    &&& b.input_buffer@.len() == 0
                    &&& r matches Some(AppAction::AddComment { oid, comment_type, message, root })
                    &&& oid == a.aid && comment_type == 1 && message@ == a.input_buffer@ && root is None
                } else {
                    b.input_mode && b.input_buffer == a.input_buffer
                        && r == Some(AppAction::NoOp)
                },
                Key::Backspace => {
                    &&& b.input_mode
                    &&& b.input_buffer@ == if a.input_buffer@.len() > 0 {
                        a.input_buffer@.drop_last()
                    } else {
                        a.input_buffer@
                    }
                    &&& r == Some(AppAction::NoOp)
                },
                Key::Char(c) => b.input_mode && b.input_buffer@ == a.input_buffer@.push(c)
                    && r == Some(AppAction::NoOp),
                _ => b.input_mode && b.input_buffer == a.input_buffer
                    && r == Some(AppAction::NoOp),
            }
        })
        &&& (!a.input_mode ==> {
            let focus = a.focus;
            let len = a.comments@.len();
            let g = a.related_card_grid;
            match key {
                Key::Char('q') | Key::Esc => b == a && r == Some(AppAction::BackToList),
                Key::Char('p') => b == a && r == Some(play_action(a)),
                Key::Char('c') => {
                    &&& b.input_mode
                    &&& b.input_buffer@.len() == 0
                    &&& b.comment_scroll == a.comment_scroll
                    &&& b.related_card_grid == g
                    &&& b.related_scroll == a.related_scroll
                    &&& b.focus == focus
                    &&& r == Some(AppAction::NoOp)
                },
                Key::Char('r') => b == a && r == Some(
                    if focus == DetailFocus::Comments { AppAction::ToggleCommentReplies } else { AppAction::NoOp },
                ),
                Key::Tab => {
                    &&& b.focus == if focus == DetailFocus::Comments {
                        DetailFocus::Related
                    } else {
                        DetailFocus::Comments
                    }
                    &&& b.comment_scroll == a.comment_scroll
                    &&& b.related_card_grid == g
                    &&& b.related_scroll == a.related_scroll
                    &&& !b.input_mode
                    &&& b.input_buffer == a.input_buffer
                    &&& r == Some(AppAction::NoOp)
                },
                Key::Char('j') | Key::Down => {
                    &&& b.focus == focus
                    &&& b.input_buffer == a.input_buffer
                    &&& !b.input_mode
                    &&& if focus == DetailFocus::Comments {
                        let s = if a.comment_scroll + 1 < len {
                            a.comment_scroll + 1
                        } else {
                            a.comment_scroll as int
                        };
                        &&& b.comment_scroll == s
                        &&& b.related_card_grid == g
                        &&& b.related_scroll == a.related_scroll
                        &&& r == Some(
                            if comments_near_bottom(s as nat, len, COMMENTS_VISIBLE as nat)
                                && a.has_more_comments && !a.loading_more_comments {
                                AppAction::LoadMoreComments
                            } else {
                                AppAction::NoOp
                            },
                        )
                    } else {
                        &&& b.comment_scroll == a.comment_scroll
                        &&& b.related_card_grid.same_cards(&g)
                        &&& b.related_card_grid.selected_index == moved_down(
                            g.selected_index as nat,
                            g.cards@.len(),
                            g.columns as nat,
                        )
                        &&& b.related_scroll == if b.related_card_grid.selected_index
                            != g.selected_index {
                            b.related_card_grid.selected_index
                        } else {
                            a.related_scroll
                        }
                        &&& r == Some(AppAction::NoOp)
                    }
                },
                Key::Char('k') | Key::Up => {
                    &&& b.focus == focus
                    &&& b.input_buffer == a.input_buffer
                    &&& !b.input_mode
                    &&& r == Some(AppAction::NoOp)
                    &&& if focus == DetailFocus::Comments {
                        &&& b.comment_scroll == if a.comment_scroll > 0 {
                            a.comment_scroll - 1
                        } else {
                            0
                        }
                        &&& b.related_card_grid == g
                        &&& b.related_scroll == a.related_scroll
                    } else {
                        &&& b.comment_scroll == a.comment_scroll
                        &&& b.related_card_grid.same_cards(&g)
                        &&& b.related_card_grid.selected_index == moved_up(
                            g.selected_index as nat,
                            g.cards@.len(),
                            g.columns as nat,
                        )
                        &&& b.related_scroll == if b.related_card_grid.selected_index
                            != g.selected_index {
                            b.related_card_grid.selected_index
                        } else {
                            a.related_scroll
                        }
                    }
                },
                Key::Char('h') | Key::Left => {
                    &&& b.focus == focus
                    &&& b.comment_scroll == a.comment_scroll
                    &&& b.input_buffer == a.input_buffer
                    &&& !b.input_mode
                    &&& r == Some(AppAction::NoOp)
                    &&& if focus == DetailFocus::Related {
                        &&& b.related_card_grid.same_cards(&g)
                        &&& b.related_card_grid.selected_index == moved_left(
                            g.selected_index as nat,
                            g.cards@.len(),
                        )
                        &&& b.related_scroll == if b.related_card_grid.selected_index
                            != g.selected_index {
                            b.related_card_grid.selected_index
                        } else {
                            a.related_scroll
                        }
                    } else {
                        b.related_card_grid == g && b.related_scroll == a.related_scroll
                    }
                },
                Key::Char('l') | Key::Right => {
                    &&& b.focus == focus
                    &&& b.comment_scroll == a.comment_scroll
                    &&& b.input_buffer == a.input_buffer
                    &&& !b.input_mode
                    &&& r == Some(AppAction::NoOp)
                    &&& if focus == DetailFocus::Related {
                        &&& b.related_card_grid.same_cards(&g)
                        &&& b.related_card_grid.selected_index == moved_right(
                            g.selected_index as nat,
                            g.cards@.len(),
                        )
                        &&& b.related_scroll == if b.related_card_grid.selected_index
                            != g.selected_index {
                            b.related_card_grid.selected_index
                        } else {
                            a.related_scroll
                        }
                    } else {
                        b.related_card_grid == g && b.related_scroll == a.related_scroll
                    }
                },
                Key::Enter => b == a && r == Some(enter_action(a)),
                _ => b == a && r == Some(AppAction::NoOp),
            }
        })
    }

    /// Reacts to a key.
    ///
    /// While a comment is typed: Esc drops it and leaves the input, Enter
    /// sends a non-empty comment on the video, Backspace removes the last
    /// character and other characters are added.
    ///
    /// Otherwise: `q` and Esc go back; `p` plays the video; `c` starts a
    /// comment; `r` shows or hides the replies of the selected comment when
    /// the comments are focused; Tab switches the focus; the arrows and
    /// `hjkl` move in the focused list (comments move one at a time and,
    /// moving down near the end, ask for more when there are more and none
    /// are loading; the related grid follows its own rules, the page
    /// remembering its selection after a move); Enter likes the selected
    /// comment or opens the selected related video. Every key yields an
    /// action.
    pub fn handle_input(&mut self, key: Key) -> (r: Option<AppAction>)
        requires
            old(self).wf(),
        ensures
            final(self).wf(),
            Self::key_outcome(*old(self), key, *final(self), r),
    {
        if self.input_mode {
            match key {
                Key::Esc => {
                    self.input_mode = false;
                    self.input_buffer = String::new();
                    return Some(AppAction::NoOp);
                },
                Key::Enter => {
                    if !self.input_buffer.as_str().is_empty() {
                        let message = self.input_buffer.clone();
                        self.input_buffer = String::new();
                        self.input_mode = false;
                        return Some(AppAction::AddComment { oid: self.aid, comment_type: 1, message, root: None });
                    }
                    return Some(AppAction::NoOp);
                },
                Key::Backspace => {
                    let _ = pop_char(&mut self.input_buffer);
                    return Some(AppAction::NoOp);
                },
                Key::Char(c) => {
                    push_char(&mut self.input_buffer, c);
                    return Some(AppAction::NoOp);
                },
                _ => return Some(AppAction::NoOp),
            }
        }
        match key {
            Key::Char('q') | Key::Esc => Some(AppAction::BackToList),
            Key::Char('p') => {
                let (cid, duration) = match &self.video_info {
                    Some(info) => (info.cid, match info.duration {
                        Some(d) => d,
                        None => 0,
                    }),
                    None => (0, 0),
                };
                Some(AppAction::PlayEpisode { bvid: self.bvid.clone(), aid: self.aid, cid, duration })
            },
            Key::Char('c') => {
                self.input_mode = true;
                self.input_buffer = String::new();
                Some(AppAction::NoOp)
            },
            Key::Char('r') => {
                if self.focus == DetailFocus::Comments {
                    Some(AppAction::ToggleCommentReplies)
                } else {
                    Some(AppAction::NoOp)
                }
            },
            Key::Tab => {
                self.focus = match self.focus {
                    DetailFocus::Comments => DetailFocus::Related,
                    DetailFocus::Related => DetailFocus::Comments,
                };
                Some(AppAction::NoOp)
            },
            Key::Char('j') | Key::Down => {
                match self.focus {
                    DetailFocus::Comments => {
                        if self.comment_scroll < self.comments.len() && self.comments.len() - self.comment_scroll > 1 {
                            self.comment_scroll = self.comment_scroll + 1;
                        }
                        if self.is_near_comments_bottom(COMMENTS_VISIBLE) && self.has_more_comments
                            && !self.loading_more_comments {
                            return Some(AppAction::LoadMoreComments);
                        }
                    },
                    DetailFocus::Related => {
                        if self.related_card_grid.move_down() {
                            self.related_scroll = self.related_card_grid.selected_index;
                        }
                    },
                }
                Some(AppAction::NoOp)
            },
            Key::Char('k') | Key::Up => {
                match self.focus {
                    DetailFocus::Comments => {
                        if self.comment_scroll > 0 {
                            self.comment_scroll = self.comment_scroll - 1;
                        }
                    },
                    DetailFocus::Related => {
                        if self.related_card_grid.move_up() {
                            self.related_scroll = self.related_card_grid.selected_index;
                        }
                    },
                }
                Some(AppAction::NoOp)
            },
            Key::Char('h') | Key::Left => {
                if self.focus == DetailFocus::Related && self.related_card_grid.move_left() {
                    self.related_scroll = self.related_card_grid.selected_index;
                }
                Some(AppAction::NoOp)
            },
            Key::Char('l') | Key::Right => {
                if self.focus == DetailFocus::Related && self.related_card_grid.move_right() {
                    self.related_scroll = self.related_card_grid.selected_index;
                }
                Some(AppAction::NoOp)
            },
            Key::Enter => {
                match self.focus {
                    DetailFocus::Comments => {
                        if self.comment_scroll < self.comments.len() {
                            return Some(
                                AppAction::LikeComment {
                                    oid: self.aid,
                                    rpid: self.comments[self.comment_scroll].rpid,
                                    comment_type: 1,
                                },
                            );
                        }
                        Some(AppAction::NoOp)
                    },
                    DetailFocus::Related => {
                        match self.related_card_grid.selected_card() {
                            Some(card) => {
                                match &card.bvid {
                                    Some(bvid) => {
                                        let aid = match card.aid {
                                            Some(a) => a,
                                            None => 0,
                                        };
                                        return Some(AppAction::OpenVideoDetail(bvid.clone(), aid));
                                    },
                                    None => {},
                                }
                            },
                            None => {},
                        }
                        Some(AppAction::NoOp)
                    },
                }
            },
            _ => Some(AppAction::NoOp),
        }
    }
}


impl VideoDetailPage {
    /// Records the outcome of liking (`like`) or unliking comment `rpid`:
    /// when the request succeeded, the comment is now liked, or no longer.
    pub fn finish_like(&mut self, rpid: i64, like: bool, succeeded: bool)
        ensures
            final(self).liked_comments@ == if !succeeded {
                old(self).liked_comments@
            } else if like {
                old(self).liked_comments@.insert(rpid)
            } else {
                old(self).liked_comments@.remove(rpid)
            },
            final(self).expanded_comment == old(self).expanded_comment,
            final(self).comment_replies == old(self).comment_replies,
            final(self).loading_replies == old(self).loading_replies,
            final(self).same_apart_from_reactions(old(self)),
    {
        if succeeded {
            if like {
                self.liked_comments.insert(rpid);
            } else {
                self.liked_comments.remove(&rpid);
            }
        }
    }
}

} // verus!
