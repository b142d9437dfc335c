//! The parts of the API's reply payloads that the client reads. Display
//! fields (titles, author names, formatted counts) hold the text the pages
//! show for an item.

use vstd::prelude::*;
use crate::storage::opt_view;
use crate::text::{decimal, i64_to_decimal};

verus! {

/// The QR code that a login starts from.
pub struct QrcodeData {
    pub url: String,
    pub qrcode_key: String,
}

/// The payload of one poll of the QR code login.
pub struct QrcodePollData {
    pub code: i32,
    pub refresh_token: String,
}

/// One poll of the QR code login: its payload and the cookies the reply set.
pub struct QrcodePollResult {
    pub data: Option<QrcodePollData>,
    pub cookies: Vec<(String, String)>,
}

/// Where a QR code login stands.
#[derive(Debug, PartialEq, Eq, Structural, Clone, Copy)]
pub enum QrcodePollStatus {
    Waiting,
    Scanned,
    Success,
    Expired,
    Unknown(i32),
}

/// The status that a poll reply's code stands for.
pub open spec fn poll_status_of(code: i32) -> QrcodePollStatus {
    if code == 0 {
        QrcodePollStatus::Success
    } else if code == 86038 {
        QrcodePollStatus::Expired
    } else if code == 86090 {
        QrcodePollStatus::Scanned
    } else if code == 86101 {
        QrcodePollStatus::Waiting
    } else {
        QrcodePollStatus::Unknown(code)
    }
}

impl QrcodePollStatus {
    /// The status that a poll reply's code stands for.
    pub fn from_code(code: i32) -> (r: Self)
        ensures
            r == poll_status_of(code),
    {
        if code == 0 {
            QrcodePollStatus::Success
        } else if code == 86038 {
            QrcodePollStatus::Expired
        } else if code == 86090 {
            QrcodePollStatus::Scanned
        } else if code == 86101 {
            QrcodePollStatus::Waiting
        } else {
            QrcodePollStatus::Unknown(code)
        }
    }
}

/// A recommended video.
pub struct VideoItem {
    pub id: i64,
    pub bvid: Option<String>,
    pub title: Option<String>,
    pub pic: Option<String>,
    pub owner_name: Option<String>,
    pub view_count: Option<i64>,
    pub duration: Option<i64>,
}

/// The recommendation feed.
pub struct RecommendData {
    pub item: Vec<VideoItem>,
}

/// A video found by a search.
pub struct SearchVideoItem {
    pub bvid: Option<String>,
    pub mid: Option<i64>,
    pub title: String,
    pub author: String,
    pub play: String,
    pub duration: Option<String>,
    pub cover: Option<String>,
}

/// One page of search results.
pub struct SearchData {
    pub result: Option<Vec<SearchVideoItem>>,
    pub num_results: Option<i32>,
    pub page: Option<i32>,
    pub pagesize: Option<i32>,
}

/// An entry of the followed-uploaders feed.
pub struct DynamicItem {
    pub is_video: bool,
    pub bvid: Option<String>,
    pub title: Option<String>,
    pub author: String,
    pub play: String,
    pub duration: String,
    pub cover: Option<String>,
}

/// One page of the followed-uploaders feed.
pub struct DynamicFeedData {
    pub items: Option<Vec<DynamicItem>>,
    pub offset: Option<String>,
    pub has_more: Option<bool>,
    pub update_num: Option<i32>,
}

/// A comment.
pub struct CommentItem {
    pub rpid: i64,
    pub reply_count: i64,
    pub author: String,
    pub message: String,
    pub like: i64,
    pub ctime: i64,
}

/// Paging information of a comment list.
pub struct CommentPage {
    pub count: Option<i32>,
}

/// One page of comments.
pub struct CommentData {
    pub page: Option<CommentPage>,
    pub replies: Option<Vec<CommentItem>>,
    pub hots: Option<Vec<CommentItem>>,
}

/// The counts shown under a video's title: views, bullet comments, likes,
/// coins and favourites.
pub struct VideoStat {
    pub view: i64,
    pub danmaku: i64,
    pub like: i64,
    pub coin: i64,
    pub favorite: i64,
}

/// The details of a video.
pub struct VideoInfo {
    pub aid: i64,
    pub cid: i64,
    pub title: String,
    pub owner_name: String,
    pub desc: Option<String>,
    pub duration: Option<i64>,
    pub stat: VideoStat,
}

/// A video related to the one shown.
pub struct RelatedVideoItem {
    pub aid: Option<i64>,
    pub bvid: Option<String>,
    pub title: Option<String>,
    pub author: String,
    pub views: String,
    pub duration: String,
    pub cover: Option<String>,
}

/// A BV id as the client keeps it: an empty one counts as none.
pub open spec fn present_bvid_spec(bvid: Option<Seq<char>>) -> Option<Seq<char>> {
    match bvid {
        Some(b) if b.len() == 0 => None,
        _ => bvid,
    }
}

/// The BV id of a reply item, none when the reply gave an empty one.
pub fn present_bvid(bvid: Option<String>) -> (r: Option<String>)
    ensures
        opt_view(r) == present_bvid_spec(opt_view(bvid)),
{
    match bvid {
        Some(b) => if b.as_str().unicode_len() == 0 {
            None
        } else {
            Some(b)
        },
        None => None,
    }
}

/// A cover address as it can be fetched: one without a scheme (starting
/// with `//`) is taken as `https:`.
pub open spec fn absolute_cover_spec(url: Seq<char>) -> Seq<char> {
    if url.len() >= 2 && url[0] == '/' && url[1] == '/' {
        "https:"@ + url
    } else {
        url
    }
}

/// The cover address `url`, with `https:` put before one without a scheme.
pub fn absolute_cover(url: String) -> (r: String)
    ensures
        r@ == absolute_cover_spec(url@),
{
    let s = url.as_str();
    if s.unicode_len() >= 2 && s.get_char(0) == '/' && s.get_char(1) == '/' {
        let mut r = String::from_str("https:");
        r.append(s);
        r
    } else {
        url
    }
}

/// A length in seconds as minutes and two-digit seconds (`m:ss`); a
/// negative length shows as `0:00`.
pub open spec fn clock_spec(secs: int) -> Seq<char> {
    let t: int = if secs < 0 { 0 } else { secs };
    let s: int = t % 60;
    decimal(t / 60) + ":"@ + if s < 10 { "0"@ + decimal(s) } else { decimal(s) }
}

/// Renders a length of `secs` seconds as `m:ss`.
pub fn clock_text(secs: i64) -> (r: String)
    ensures
        r@ == clock_spec(secs as int),
{
    let t: i64 = if secs < 0 { 0 } else { secs };
    let s: i64 = t % 60;
    let mut r = i64_to_decimal(t / 60);
    r.append(":");
    if s < 10 {
        r.append("0");
    }
    r.append(i64_to_decimal(s).as_str());
    r
}

} // verus!
