use bilibili_tui::api::client::{
    comments_or_empty, data_or, dynamic_feed_or_empty, qrcode_from_reply, recommended_videos, related_or_empty,
    search_data_or_empty, video_info_from_reply, wbi_key_from_url, ApiClient, ApiError, ApiResponse, BilibiliApiDomain,
};
use bilibili_tui::api::live::LiveRoomInfo;
use bilibili_tui::api::models::{
    CommentData, DynamicFeedData, QrcodeData, QrcodePollStatus, RecommendData, SearchData, VideoInfo, VideoItem, VideoStat,
};
use bilibili_tui::storage::Credentials;

fn reply<T>(data: Option<T>) -> ApiResponse<T> {
    ApiResponse { code: 0, message: "0".to_string(), ttl: Some(1), data }
}

fn creds(s: &str, j: &str, u: &str) -> Credentials {
    Credentials {
        sessdata: s.to_string(),
        bili_jct: j.to_string(),
        dede_user_id: u.to_string(),
        dede_user_id_ckmd5: None,
        refresh_token: None,
    }
}

fn video(id: i64, bvid: Option<&str>) -> VideoItem {
    VideoItem {
        id,
        bvid: bvid.map(|b| b.to_string()),
        title: Some(format!("video {}", id)),
        pic: None,
        owner_name: None,
        view_count: None,
        duration: None,
    }
}

fn room(user_cover: &str, keyframe: &str, status: i32) -> LiveRoomInfo {
    LiveRoomInfo {
        uid: 1,
        room_id: 2,
        short_id: 0,
        title: "t".to_string(),
        description: String::new(),
        live_status: status,
        area_id: 0,
        area_name: String::new(),
        parent_area_name: String::new(),
        attention: 0,
        online: 0,
        user_cover: user_cover.to_string(),
        keyframe: keyframe.to_string(),
        live_time: String::new(),
        tags: String::new(),
    }
}

#[test]
fn domains() {
    assert_eq!(BilibiliApiDomain::Main.as_str(), "https://api.bilibili.com");
    assert_eq!(BilibiliApiDomain::Passport.as_str(), "https://passport.bilibili.com");
}

#[test]
fn cookie_header_follows_credentials() {
    let client = ApiClient::new();
    assert_eq!(client.cookie_header(), None);
    let client = ApiClient::with_cookies(&creds("S", "J", "U"));
    assert_eq!(client.cookie_header(), Some("SESSDATA=S; bili_jct=J; DedeUserID=U".to_string()));
    let mut client = client;
    client.set_credentials(&creds("S2", "J2", "U2"));
    assert_eq!(client.cookie_header(), Some("SESSDATA=S2; bili_jct=J2; DedeUserID=U2".to_string()));
}

#[test]
fn default_headers_identify_a_browser() {
    let h = ApiClient::default_headers();
    assert_eq!(h.len(), 2);
    assert_eq!(h[0].0, "user-agent");
    assert!(h[0].1.starts_with("Mozilla/5.0"));
    assert_eq!(h[1], ("referer".to_string(), "https://www.bilibili.com/".to_string()));
}

#[test]
fn endpoints() {
    let client = ApiClient::new();
    assert_eq!(client.build_url(BilibiliApiDomain::Main, "/x/a"), "https://api.bilibili.com/x/a");
    assert_eq!(client.nav_url(), "https://api.bilibili.com/x/web-interface/nav");
    assert_eq!(
        client.qrcode_generate_url(),
        "https://passport.bilibili.com/x/passport-login/web/qrcode/generate"
    );
    assert_eq!(
        ApiClient::qrcode_poll_url("abc"),
        "https://passport.bilibili.com/x/passport-login/web/qrcode/poll?qrcode_key=abc"
    );
    assert_eq!(client.recommend_url(), "https://api.bilibili.com/x/web-interface/wbi/index/top/feed/rcmd");
    assert_eq!(ApiClient::video_info_url("BV1xx"), "https://api.bilibili.com/x/web-interface/view?bvid=BV1xx");
    assert_eq!(client.search_url(), "https://api.bilibili.com/x/web-interface/wbi/search/type");
    assert_eq!(
        ApiClient::dynamic_feed_url(None),
        "https://api.bilibili.com/x/polymer/web-dynamic/v1/feed/all?type=video"
    );
    assert_eq!(
        ApiClient::dynamic_feed_url(Some("123")),
        "https://api.bilibili.com/x/polymer/web-dynamic/v1/feed/all?type=video&offset=123"
    );
    assert_eq!(
        ApiClient::comments_url(170001, 2),
        "https://api.bilibili.com/x/v2/reply?type=1&oid=170001&sort=1&ps=20&pn=2"
    );
    assert_eq!(
        ApiClient::related_videos_url("BV1xx"),
        "https://api.bilibili.com/x/web-interface/archive/related?bvid=BV1xx"
    );
    assert_eq!(ApiClient::url_with_query("https://x/y", "a=1&w_rid=z"), "https://x/y?a=1&w_rid=z");
}

#[test]
fn request_parameters() {
    let p = ApiClient::recommendation_params(3);
    let p: Vec<(&str, &str)> = p.iter().map(|(k, v)| (*k, v.as_str())).collect();
    assert_eq!(p, vec![("fresh_type", "4"), ("ps", "20"), ("fresh_idx", "3"), ("fresh_idx_1h", "3")]);
    let s = ApiClient::search_params("原神", 2);
    let s: Vec<(&str, &str)> = s.iter().map(|(k, v)| (*k, v.as_str())).collect();
    assert_eq!(s, vec![("search_type", "video"), ("keyword", "原神"), ("page", "2"), ("order", "totalrank")]);
}

#[test]
fn signing_keys_are_kept_once_read() {
    let mut client = ApiClient::new();
    assert!(client.needs_wbi_keys());
    assert!(client.signing_keys().is_none());
    assert_eq!(client.accept_nav_keys(None), Err(ApiError::NoNavData));
    assert!(client.needs_wbi_keys());
    assert_eq!(client.accept_nav_keys(Some((None, Some("sub".to_string())))), Err(ApiError::ImgKeyMissing));
    assert!(client.needs_wbi_keys());
    assert_eq!(client.accept_nav_keys(Some((Some("img".to_string()), None))), Err(ApiError::SubKeyMissing));
    assert!(client.needs_wbi_keys());
    assert_eq!(client.accept_nav_keys(Some((Some("img".to_string()), Some("sub".to_string())))), Ok(()));
    assert!(!client.needs_wbi_keys());
    let keys = client.signing_keys().unwrap();
    assert_eq!((keys.img_key.as_str(), keys.sub_key.as_str()), ("img", "sub"));
}

#[test]
fn error_messages() {
    assert_eq!(ApiError::ImgKeyMissing.message(), "Failed to extract img_key");
    assert_eq!(ApiError::SubKeyMissing.message(), "Failed to extract sub_key");
    assert_eq!(ApiError::NoQrcodeData.message(), "No data in QR code response");
    assert_eq!(ApiError::NoVideoInfoData.message(), "No data in video info response");
    assert_eq!(ApiError::NoNavData.message(), "No data in nav response");
}

#[test]
fn replies_without_data() {
    assert_eq!(data_or(reply::<i32>(None), ApiError::NoQrcodeData), Err(ApiError::NoQrcodeData));
    assert_eq!(data_or(reply(Some(5)), ApiError::NoQrcodeData), Ok(5));
    assert!(matches!(qrcode_from_reply(reply(None)), Err(ApiError::NoQrcodeData)));
    let q = qrcode_from_reply(reply(Some(QrcodeData { url: "u".to_string(), qrcode_key: "k".to_string() })));
    assert_eq!(q.ok().map(|d| d.qrcode_key), Some("k".to_string()));
    assert!(matches!(video_info_from_reply(reply(None)), Err(ApiError::NoVideoInfoData)));
    let info = VideoInfo {
        aid: 1,
        cid: 2,
        title: "t".to_string(),
        owner_name: "o".to_string(),
        desc: None,
        duration: Some(60),
        stat: VideoStat { view: 1, danmaku: 2, like: 3, coin: 4, favorite: 5 },
    };
    assert_eq!(video_info_from_reply(reply(Some(info))).ok().map(|i| i.cid), Some(2));
}

#[test]
fn recommended_videos_keep_those_with_bv_ids() {
    assert!(recommended_videos(reply(None)).is_empty());
    let data = RecommendData { item: vec![video(1, Some("BV1")), video(2, None), video(3, Some("BV3"))] };
    let v = recommended_videos(reply(Some(data)));
    let ids: Vec<i64> = v.iter().map(|x| x.id).collect();
    assert_eq!(ids, vec![1, 3]);
}

#[test]
fn empty_pages_for_missing_data() {
    let s: SearchData = search_data_or_empty(reply(None), 4);
    assert!(s.result.is_none());
    assert_eq!((s.num_results, s.page, s.pagesize), (Some(0), Some(4), Some(20)));
    let d: DynamicFeedData = dynamic_feed_or_empty(reply(None));
    assert!(d.items.is_none() && d.offset.is_none());
    assert_eq!((d.has_more, d.update_num), (Some(false), Some(0)));
    let c: CommentData = comments_or_empty(reply(None));
    assert!(c.page.is_none() && c.replies.is_none() && c.hots.is_none());
    assert!(related_or_empty(reply(None)).is_empty());
}

#[test]
fn poll_status_codes() {
    assert_eq!(QrcodePollStatus::from_code(0), QrcodePollStatus::Success);
    assert_eq!(QrcodePollStatus::from_code(86038), QrcodePollStatus::Expired);
    assert_eq!(QrcodePollStatus::from_code(86090), QrcodePollStatus::Scanned);
    assert_eq!(QrcodePollStatus::from_code(86101), QrcodePollStatus::Waiting);
    assert_eq!(QrcodePollStatus::from_code(-1), QrcodePollStatus::Unknown(-1));
}

#[test]
fn live_room_cover_and_status() {
    assert_eq!(room("c", "k", 1).cover_url(), "c");
    assert_eq!(room("", "k", 1).cover_url(), "k");
    assert_eq!(room("", "", 1).cover_url(), "");
    assert_eq!(room("", "", 0).status_text(), "未开播");
    assert_eq!(room("", "", 1).status_text(), "直播中");
    assert_eq!(room("", "", 2).status_text(), "轮播中");
    assert_eq!(room("", "", 7).status_text(), "未知");
}

#[test]
fn signing_keys_come_from_image_names() {
    assert_eq!(
        wbi_key_from_url("https://i0.hdslb.com/bfs/wbi/7cd084941338484aae1ad9425b84077c.png"),
        Some("7cd084941338484aae1ad9425b84077c".to_string())
    );
    assert_eq!(wbi_key_from_url("https://i0.hdslb.com/bfs/wbi/4932caff0ff746eab6f01bf08b70ac45"), Some("4932caff0ff746eab6f01bf08b70ac45".to_string()));
    assert_eq!(wbi_key_from_url("https://i0.hdslb.com/bfs/wbi/"), None);
    assert_eq!(wbi_key_from_url("https://i0.hdslb.com/bfs/wbi/.png"), None);
    assert_eq!(wbi_key_from_url("abc.def.png"), Some("abc".to_string()));
    assert_eq!(wbi_key_from_url(""), None);
}
