//! A grid of video cards shared by the search, feed and detail pages: the
//! cards, the selection, the scroll position and the cover downloads.
//! Selection and scrolling follow the same rules as the home page's grid.

use vstd::prelude::*;
use std::collections::HashSet;
use crate::ui::grid::{is_near_bottom, moved_down, moved_left, moved_right, moved_up, near_bottom, scroll_to_show, scrolled};

verus! {

broadcast use vstd::std_specs::hash::group_hash_axioms;

/// A video as a card of the grid: what it shows, and whether its cover has
/// arrived.
pub struct VideoCard {
    pub bvid: Option<String>,
    pub aid: Option<i64>,
    pub title: String,
    pub author: String,
    pub views: String,
    pub duration: String,
    pub cover_url: Option<String>,
    pub has_cover: bool,
}

impl VideoCard {
    /// A card without its cover yet.
    pub fn new(
        bvid: Option<String>,
        aid: Option<i64>,
        title: String,
        author: String,
        views: String,
        duration: String,
        cover_url: Option<String>,
    ) -> (r: Self)
        ensures
            r == (VideoCard { bvid, aid, title, author, views, duration, cover_url, has_cover: false }),
    {
        VideoCard { bvid, aid, title, author, views, duration, cover_url, has_cover: false }
    }
}

pub struct VideoCardGrid {
    pub cards: Vec<VideoCard>,
    pub selected_index: usize,
    pub scroll_row: usize,
    pub columns: usize,
    pub card_height: u16,
    pub cached_visible_rows: usize,
    pub pending_downloads: HashSet<usize>,
}

/// Whether the cover of card `i` still has to be fetched.
pub open spec fn card_wants_cover(cards: Seq<VideoCard>, pending: Set<usize>, i: int) -> bool {
    &&& !cards[i].has_cover
    &&& !pending.contains(i as usize)
    &&& cards[i].cover_url is Some
}

/// The covers to fetch among cards `start..end`, in order.
pub open spec fn card_cover_requests(
    cards: Seq<VideoCard>,
    pending: Set<usize>,
    start: int,
    end: int,
) -> Seq<(usize, Seq<char>)>
    decreases end - start,
{
    if end <= start {
        Seq::empty()
    } else {
        let rest = card_cover_requests(cards, pending, start, end - 1);
        if card_wants_cover(cards, pending, end - 1) {
            rest.push(((end - 1) as usize, cards[end - 1].cover_url->0@))
        } else {
            rest
        }
    }
}

/// The indices among cards `start..end` that want their covers.
pub open spec fn card_wanted_indices(cards: Seq<VideoCard>, pending: Set<usize>, start: int, end: int) -> Set<usize> {
    Set::new(|i: usize| start <= i < end && card_wants_cover(cards, pending, i as int))
}

proof fn lemma_no_card_wanted(cards: Seq<VideoCard>, pending: Set<usize>, start: int, end: int)
    requires
        forall|i: int| start <= i < end ==> !#[trigger] card_wants_cover(cards, pending, i),
    ensures
        card_cover_requests(cards, pending, start, end) == Seq::<(usize, Seq<char>)>::empty(),
    decreases end - start,
{
    if end > start {
        lemma_no_card_wanted(cards, pending, start, end - 1);
        assert(!card_wants_cover(cards, pending, end - 1));
    }
}

/// A cover is asked for once: right after the covers of a window of the
/// grid were chosen and marked pending, choosing again for the same window
/// asks for none, and a card whose cover arrived never wants it again.
pub proof fn lemma_card_covers_asked_once(
    cards: Seq<VideoCard>,
    pending: Set<usize>,
    start: int,
    end: int,
    i: int,
)
    requires
        0 <= start,
        end <= cards.len(),
        cards.len() <= usize::MAX,
    ensures
        card_cover_requests(cards, pending.union(card_wanted_indices(cards, pending, start, end)), start, end)
            == Seq::<(usize, Seq<char>)>::empty(),
        0 <= i < cards.len() ==> !card_wants_cover(
            cards.update(i, VideoCard { has_cover: true, ..cards[i] }),
            pending,
            i,
        ),
{
    let p2 = pending.union(card_wanted_indices(cards, pending, start, end));
    assert forall|k: int| start <= k < end implies !#[trigger] card_wants_cover(cards, p2, k) by {
        if card_wants_cover(cards, pending, k) {
            assert(card_wanted_indices(cards, pending, start, end).contains(k as usize));
        }
    }
    lemma_no_card_wanted(cards, p2, start, end);
}

/// The end of the cards whose covers are fetched: four rows past the first
/// row shown, at most the number of cards.
pub open spec fn prefetch_end(scroll: nat, columns: nat, len: nat) -> int {
    let e = scroll * columns + columns * 4;
    if e < len { e as int } else { len as int }
}

impl VideoCardGrid {
    pub open spec fn wf(&self) -> bool {
        self.columns > 0 && self.card_height > 0 && self.cached_visible_rows >= 1
    }

    /// Everything but the selection and the scroll position.
    pub open spec fn same_cards(&self, other: &Self) -> bool {
        &&& self.cards == other.cards
        &&& self.columns == other.columns
        &&& self.card_height == other.card_height
        &&& self.cached_visible_rows == other.cached_visible_rows
        &&& self.pending_downloads@ == other.pending_downloads@
    }

    /// An empty grid of three columns of cards twelve lines high.
    pub fn new() -> (r: Self)
        ensures
            r.wf(),
            r.cards@.len() == 0,
            r.selected_index == 0,
            r.scroll_row == 0,
            r.columns == 3,
            r.card_height == 12,
            r.cached_visible_rows == 3,
            r.pending_downloads@ == Set::<usize>::empty(),
    {
        VideoCardGrid {
            cards: Vec::new(),
            selected_index: 0,
            scroll_row: 0,
            columns: 3,
            card_height: 12,
            cached_visible_rows: 3,
            pending_downloads: HashSet::new(),
        }
    }

    /// Removes every card, back to the top.
    pub fn clear(&mut self)
        ensures
            final(self).cards@.len() == 0,
            final(self).selected_index == 0,
            final(self).scroll_row == 0,
            final(self).pending_downloads@ == Set::<usize>::empty(),
            final(self).columns == old(self).columns,
            final(self).card_height == old(self).card_height,
            final(self).cached_visible_rows == old(self).cached_visible_rows,
    {
        self.cards.clear();
        self.selected_index = 0;
        self.scroll_row = 0;
        self.pending_downloads.clear();
    }

    /// Adds a card at the end.
    pub fn add_card(&mut self, card: VideoCard)
        ensures
            final(self).cards@ == old(self).cards@.push(card),
            final(self).selected_index == old(self).selected_index,
            final(self).scroll_row == old(self).scroll_row,
            final(self).columns == old(self).columns,
            final(self).card_height == old(self).card_height,
            final(self).cached_visible_rows == old(self).cached_visible_rows,
            final(self).pending_downloads@ == old(self).pending_downloads@,
    {
        self.cards.push(card);
    }

    /// The selected card, if the selection is on a card.
    pub fn selected_card(&self) -> (r: Option<&VideoCard>)
        ensures
            match r {
                Some(c) => self.selected_index < self.cards@.len() && *c == self.cards@[self.selected_index as int],
                None => self.selected_index >= self.cards@.len(),
            },
    {
        if self.selected_index < self.cards.len() {
            Some(&self.cards[self.selected_index])
        } else {
            None
        }
    }

    /// Scrolls so that the selected row is among the `visible_rows` shown.
    pub fn update_scroll(&mut self, visible_rows: usize)
        requires
            old(self).wf(),
            visible_rows >= 1,
        ensures
            final(self).same_cards(old(self)),
            final(self).selected_index == old(self).selected_index,
            final(self).scroll_row == scrolled(
                (old(self).selected_index / old(self).columns) as int,
                old(self).scroll_row as int,
                visible_rows as int,
            ),
    {
        let row = self.selected_index / self.columns;
        self.scroll_row = scroll_to_show(row, self.scroll_row, visible_rows);
    }

    /// The scroll position after the selection moved to a new card.
    pub open spec fn rescrolled(&self, sel: nat) -> usize {
        scrolled((sel / self.columns as nat) as int, self.scroll_row as int, self.cached_visible_rows as int) as usize
    }

    /// Moves the selection one row down, if there is a card below; tells
    /// whether it moved.
    pub fn move_down(&mut self) -> (r: bool)
        requires
            old(self).wf(),
        ensures
            final(self).wf(),
            final(self).same_cards(old(self)),
            final(self).selected_index == moved_down(old(self).selected_index as nat, old(self).cards@.len(), old(self).columns as nat),
            r == (final(self).selected_index != old(self).selected_index),
            final(self).scroll_row == if r { old(self).rescrolled(final(self).selected_index as nat) } else { old(self).scroll_row },
    {
        let len = self.cards.len();
        if len > 0 && self.columns < len && self.selected_index < len - self.columns {
            self.selected_index = self.selected_index + self.columns;
            self.update_scroll(self.cached_visible_rows);
            true
        } else {
            false
        }
    }

    /// Moves the selection one row up, if there is a card above; tells
    /// whether it moved.
    pub fn move_up(&mut self) -> (r: bool)
        requires
            old(self).wf(),
        ensures
            final(self).wf(),
            final(self).same_cards(old(self)),
            final(self).selected_index == moved_up(old(self).selected_index as nat, old(self).cards@.len(), old(self).columns as nat),
            r == (final(self).selected_index != old(self).selected_index),
            final(self).scroll_row == if r { old(self).rescrolled(final(self).selected_index as nat) } else { old(self).scroll_row },
    {
        if self.cards.len() > 0 && self.selected_index >= self.columns {
            self.selected_index = self.selected_index - self.columns;
            self.update_scroll(self.cached_visible_rows);
            true
        } else {
            false
        }
    }

    /// Moves the selection to the next card, if there is one; tells whether
    /// it moved.
    pub fn move_right(&mut self) -> (r: bool)
        requires
            old(self).wf(),
        ensures
            final(self).wf(),
            final(self).same_cards(old(self)),
            final(self).selected_index == moved_right(old(self).selected_index as nat, old(self).cards@.len()),
            r == (final(self).selected_index != old(self).selected_index),
            final(self).scroll_row == if r { old(self).rescrolled(final(self).selected_index as nat) } else { old(self).scroll_row },
    {
        let len = self.cards.len();
        if len > 0 && self.selected_index < len - 1 {
            self.selected_index = self.selected_index + 1;
            self.update_scroll(self.cached_visible_rows);
            true
        } else {
            false
        }
    }

    /// Moves the selection to the previous card, if there is one; tells
    /// whether it moved.
    pub fn move_left(&mut self) -> (r: bool)
        requires
            old(self).wf(),
        ensures
            final(self).wf(),
            final(self).same_cards(old(self)),
            final(self).selected_index == moved_left(old(self).selected_index as nat, old(self).cards@.len()),
            r == (final(self).selected_index != old(self).selected_index),
            final(self).scroll_row == if r { old(self).rescrolled(final(self).selected_index as nat) } else { old(self).scroll_row },
    {
        if self.cards.len() > 0 && self.selected_index > 0 {
            self.selected_index = self.selected_index - 1;
            self.update_scroll(self.cached_visible_rows);
            true
        } else {
            false
        }
    }

    /// Whether the selection is close enough to the end for the next page
    /// to be fetched.
    pub fn is_near_bottom(&self, visible_rows: usize) -> (r: bool)
        requires
            self.wf(),
        ensures
            r == near_bottom(self.selected_index as nat, self.cards@.len(), self.columns as nat, visible_rows as nat),
    {
        is_near_bottom(self.selected_index, self.cards.len(), self.columns, visible_rows)
    }

    /// Chooses the covers to download now, as the home page does: the cards
    /// from the first row shown through the next four rows that have no
    /// cover, no download under way and a cover address, marked as pending
    /// and returned with their addresses in card order.
    pub fn covers_to_download(&mut self) -> (r: Vec<(usize, String)>)
        requires
            old(self).wf(),
        ensures
            final(self).cards == old(self).cards,
            final(self).selected_index == old(self).selected_index,
            final(self).scroll_row == old(self).scroll_row,
            final(self).columns == old(self).columns,
            final(self).card_height == old(self).card_height,
            final(self).cached_visible_rows == old(self).cached_visible_rows,
            ({
                let cards = old(self).cards@;
                let start = (old(self).scroll_row * old(self).columns) as int;
                let end = prefetch_end(old(self).scroll_row as nat, old(self).columns as nat, cards.len());
                &&& r@.map_values(|p: (usize, String)| (p.0, p.1@)) == card_cover_requests(
                    cards,
                    old(self).pending_downloads@,
                    start,
                    end,
                )
                &&& final(self).pending_downloads@ == old(self).pending_downloads@.union(
                    card_wanted_indices(cards, old(self).pending_downloads@, start, end),
                )
            }),
    {
        let mut out: Vec<(usize, String)> = Vec::new();
        let len = self.cards.len();
        let ghost cards = self.cards@;
        let ghost pending0 = self.pending_downloads@;
        let ghost start_i = (self.scroll_row * self.columns) as int;
        let ghost end_i = prefetch_end(self.scroll_row as nat, self.columns as nat, cards.len());
        let ghost s0 = *self;
        if len == 0 {
            proof {
                assert(card_wanted_indices(cards, pending0, start_i, end_i) =~= Set::<usize>::empty());
                assert(end_i <= start_i) by (nonlinear_arith)
                    requires
                        end_i == prefetch_end(self.scroll_row as nat, self.columns as nat, 0),
                        start_i == (self.scroll_row * self.columns) as int,
                ;
                assert(self.pending_downloads@ =~= pending0.union(Set::<usize>::empty()));
            }
            return out;
        }
        let a: u128 = self.scroll_row as u128;
        let b: u128 = self.columns as u128;
        assert(a * b <= 0xffff_ffff_ffff_ffffu128 * 0xffff_ffff_ffff_ffffu128) by (nonlinear_arith)
            requires
                a <= 0xffff_ffff_ffff_ffffu128,
                b <= 0xffff_ffff_ffff_ffffu128,
        ;
        let start128: u128 = a * b;
        if start128 >= len as u128 {
            proof {
                assert(end_i <= start_i);
                assert(card_wanted_indices(cards, pending0, start_i, end_i) =~= Set::<usize>::empty());
                assert(self.pending_downloads@ =~= pending0.union(Set::<usize>::empty()));
            }
            return out;
        }
        let start = start128 as usize;
        let lim: u128 = start128 + (self.columns as u128) * 4;
        let end: usize = if lim < len as u128 { lim as usize } else { len };
        assert(end == end_i);
        let mut idx = start;
        while idx < end
            invariant
                start <= idx <= end <= len,
                len == cards.len(),
                start == start_i,
                end == end_i,
                self.cards@ == cards,
                self.cards == s0.cards,
                self.selected_index == s0.selected_index,
                self.scroll_row == s0.scroll_row,
                self.columns == s0.columns,
                self.card_height == s0.card_height,
                self.cached_visible_rows == s0.cached_visible_rows,
                out@.map_values(|p: (usize, String)| (p.0, p.1@)) == card_cover_requests(cards, pending0, start as int, idx as int),
                self.pending_downloads@ == pending0.union(card_wanted_indices(cards, pending0, start as int, idx as int)),
                forall|j: usize| idx <= j ==> (self.pending_downloads@.contains(j) <==> pending0.contains(j)),
            decreases end - idx,
        {
            let wanted = !self.cards[idx].has_cover && !self.pending_downloads.contains(&idx)
                && self.cards[idx].cover_url.is_some();
            if wanted {
                let url = match &self.cards[idx].cover_url {
                    Some(u) => u.clone(),
                    None => String::new(),
                };
                self.pending_downloads.insert(idx);
                out.push((idx, url));
            }
            proof {
                assert(wanted == card_wants_cover(cards, pending0, idx as int));
                assert(out@.map_values(|p: (usize, String)| (p.0, p.1@)) =~= card_cover_requests(
                    cards,
                    pending0,
                    start as int,
                    idx + 1,
                ));
                assert(self.pending_downloads@ =~= pending0.union(
                    card_wanted_indices(cards, pending0, start as int, idx + 1),
                ));
            }
            idx = idx + 1;
        }
        out
    }

    /// Takes in a downloaded cover for card `index`; a cover for a card
    /// that is no longer there is dropped. Tells whether it was taken.
    pub fn apply_cover(&mut self, index: usize) -> (r: bool)
        ensures
            r == (index < old(self).cards@.len()),
            r ==> final(self).cards@ == old(self).cards@.update(
                index as int,
                VideoCard { has_cover: true, ..old(self).cards@[index as int] },
            ),
            r ==> final(self).pending_downloads@ == old(self).pending_downloads@.remove(index),
            !r ==> final(self).cards == old(self).cards,
            !r ==> final(self).pending_downloads@ == old(self).pending_downloads@,
            final(self).selected_index == old(self).selected_index,
            final(self).scroll_row == old(self).scroll_row,
            final(self).columns == old(self).columns,
            final(self).card_height == old(self).card_height,
            final(self).cached_visible_rows == old(self).cached_visible_rows,
    {
        if index < self.cards.len() {
            let card = self.cards.remove(index);
            self.cards.insert(index, VideoCard { has_cover: true, ..card });
            self.pending_downloads.remove(&index);
            proof {
                assert(self.cards@ =~= old(self).cards@.update(
                    index as int,
                    VideoCard { has_cover: true, ..old(self).cards@[index as int] },
                ));
            }
            true
        } else {
            false
        }
    }
}

} // verus!
