//! Bilibili Live Streaming API types and utilities

use vstd::prelude::*;

verus! {

/// Live room recommendation item from getMoreRecList API
pub struct LiveRoom {
    pub roomid: i64,
    pub uid: i64,
    pub title: String,
    pub uname: String,
    pub face: String,
    pub cover: String,
    pub keyframe: String,
    pub online: i64,
    pub area_v2_name: String,
    pub area_v2_parent_name: String,
    pub watched_show: Option<WatchedShow>,
}

/// Watched count display info
pub struct WatchedShow {
    pub num: i64,
    pub text_small: String,
}

/// Live recommendations response data
pub struct LiveRecommendData {
    pub recommend_room_list: Vec<LiveRoom>,
}

/// Live room detailed info from get_info API
pub struct LiveRoomInfo {
    pub uid: i64,
    pub room_id: i64,
    pub short_id: i64,
    pub title: String,
    pub description: String,
    /// 0=未开播, 1=直播中, 2=轮播中
    pub live_status: i32,
    pub area_id: i64,
    pub area_name: String,
    pub parent_area_name: String,
    /// 关注数
    pub attention: i64,
    /// 在线人数
    pub online: i64,
    pub user_cover: String,
    pub keyframe: String,
    pub live_time: String,
    pub tags: String,
}

/// The cover shown for a room: the streamer's own cover if set, else the
/// latest key frame, else nothing.
pub open spec fn room_cover(user_cover: Seq<char>, keyframe: Seq<char>) -> Seq<char> {
    if user_cover.len() > 0 {
        user_cover
    } else if keyframe.len() > 0 {
        keyframe
    } else {
        Seq::empty()
    }
}

/// The label of a live status code.
pub open spec fn live_status_label(status: int) -> Seq<char> {
    if status == 0 {
        "未开播"@
    } else if status == 1 {
        "直播中"@
    } else if status == 2 {
        "轮播中"@
    } else {
        "未知"@
    }
}

impl LiveRoomInfo {
    /// Get display cover URL
    pub fn cover_url(&self) -> (r: &str)
        ensures
            r@ == room_cover(self.user_cover@, self.keyframe@),
    {
        if !self.user_cover.as_str().is_empty() {
            self.user_cover.as_str()
        } else if !self.keyframe.as_str().is_empty() {
            self.keyframe.as_str()
        } else {
            proof {
                reveal_strlit("");
            }
            ""
        }
    }

    /// Get live status text
    pub fn status_text(&self) -> (r: &'static str)
        ensures
            r@ == live_status_label(self.live_status as int),
    {
        match self.live_status {
            0 => "未开播",
            1 => "直播中",
            2 => "轮播中",
            _ => "未知",
        }
    }
}

} // verus!
