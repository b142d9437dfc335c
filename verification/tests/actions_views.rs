use bilibili_tui::api::actions::{
    add_comment_form, comment_add_url, comment_like_url, heartbeat_form, heartbeat_url, like_comment_form,
    replies_url, watch_start_form,
};
use bilibili_tui::api::client::ApiClient;
use bilibili_tui::api::models::{absolute_cover, clock_text, present_bvid, VideoStat};
use bilibili_tui::layout::{centered, Area};
use bilibili_tui::player::{Heartbeat, WatchStart};
use bilibili_tui::text::clip_text;
use bilibili_tui::ui::video_detail::{description_preview, stats_line};

fn pairs(form: Vec<(&'static str, String)>) -> Vec<(String, String)> {
    form.into_iter().map(|(k, v)| (k.to_string(), v)).collect()
}

fn expected(items: &[(&str, &str)]) -> Vec<(String, String)> {
    items.iter().map(|(k, v)| (k.to_string(), v.to_string())).collect()
}

#[test]
fn comment_endpoints() {
    assert_eq!(replies_url(170001, 42), "https://api.bilibili.com/x/v2/reply/reply?type=1&oid=170001&root=42&ps=20&pn=1");
    assert_eq!(comment_like_url(), "https://api.bilibili.com/x/v2/reply/action");
    assert_eq!(comment_add_url(), "https://api.bilibili.com/x/v2/reply/add");
    assert_eq!(heartbeat_url(), "https://api.bilibili.com/x/click-interface/web/heartbeat");
}

#[test]
fn like_form_fields() {
    assert_eq!(
        pairs(like_comment_form(7, 99, 1, true, "tok")),
        expected(&[("oid", "7"), ("type", "1"), ("rpid", "99"), ("action", "1"), ("csrf", "tok")])
    );
    assert_eq!(pairs(like_comment_form(7, 99, 1, false, "tok"))[3], ("action".to_string(), "0".to_string()));
}

#[test]
fn comment_form_fields() {
    assert_eq!(
        pairs(add_comment_form(7, 1, "hi", None, "tok")),
        expected(&[("oid", "7"), ("type", "1"), ("message", "hi"), ("csrf", "tok")])
    );
    assert_eq!(
        pairs(add_comment_form(7, 1, "hi", Some(-5), "tok")),
        expected(&[
            ("oid", "7"),
            ("type", "1"),
            ("message", "hi"),
            ("csrf", "tok"),
            ("root", "-5"),
            ("parent", "-5"),
        ])
    );
}

#[test]
fn report_form_fields() {
    let hb = Heartbeat {
        aid: 1,
        cid: 2,
        played_time: 30,
        real_played_time: 31,
        real_time: 32,
        start_ts: 1_700_000_000,
        play_type: 4,
    };
    assert_eq!(
        pairs(heartbeat_form(&hb, "BV1", "tok")),
        expected(&[
            ("aid", "1"),
            ("bvid", "BV1"),
            ("cid", "2"),
            ("played_time", "30"),
            ("real_played_time", "31"),
            ("realtime", "32"),
            ("start_ts", "1700000000"),
            ("type", "3"),
            ("dt", "2"),
            ("play_type", "4"),
            ("csrf", "tok"),
        ])
    );
    let ws = WatchStart { aid: 1, cid: 2, bvid: "BV1".to_string(), duration: 300 };
    assert_eq!(
        pairs(watch_start_form(&ws, "tok")),
        expected(&[
            ("aid", "1"),
            ("bvid", "BV1"),
            ("cid", "2"),
            ("duration", "300"),
            ("played_time", "0"),
            ("type", "3"),
            ("dt", "2"),
            ("play_type", "1"),
            ("csrf", "tok"),
        ])
    );
}

#[test]
fn signed_request_url_needs_keys_and_encodes() {
    let mut api = ApiClient::new();
    let base = "https://api.bilibili.com/x/web-interface/wbi/search/type";
    let params = ApiClient::search_params("rust lang&co", 2);
    assert_eq!(api.wbi_request_url(base, &params), None);
    api.accept_nav_keys(Some((Some("img".to_string()), Some("sub".to_string())))).unwrap();
    assert_eq!(
        api.wbi_request_url(base, &params),
        Some(format!("{}?search_type=video&keyword=rust+lang%26co&page=2&order=totalrank", base))
    );
    assert_eq!(api.wbi_request_url("not a url", &params), None);
}

#[test]
fn reply_values_normalised() {
    assert_eq!(present_bvid(Some(String::new())), None);
    assert_eq!(present_bvid(Some("BV1".to_string())), Some("BV1".to_string()));
    assert_eq!(present_bvid(None), None);
    assert_eq!(absolute_cover("//i0.hdslb.com/a.jpg".to_string()), "https://i0.hdslb.com/a.jpg");
    assert_eq!(absolute_cover("http://x/a.jpg".to_string()), "http://x/a.jpg");
    assert_eq!(absolute_cover("/".to_string()), "/");
}

#[test]
fn clock_texts() {
    assert_eq!(clock_text(65), "1:05");
    assert_eq!(clock_text(600), "10:00");
    assert_eq!(clock_text(59), "0:59");
    assert_eq!(clock_text(3725), "62:05");
    assert_eq!(clock_text(-3), "0:00");
}

#[test]
fn centring_an_area() {
    let outer = Area { x: 10, y: 5, width: 40, height: 20 };
    assert_eq!(centered(outer, 20, 10), Area { x: 20, y: 10, width: 20, height: 10 });
    assert_eq!(centered(outer, 21, 11), Area { x: 19, y: 9, width: 21, height: 11 });
    assert_eq!(centered(outer, 50, 30), outer);
}

#[test]
fn description_and_stats_texts() {
    assert_eq!(clip_text("abcdef", 3), "abc...");
    assert_eq!(clip_text("abc", 3), "abc");
    let long: String = "视".repeat(150);
    let shown = description_preview(&long);
    assert_eq!(shown.chars().count(), 103);
    assert!(shown.ends_with("..."));
    assert_eq!(description_preview("短"), "短");
    let stat = VideoStat { view: 1200, danmaku: 3, like: 45, coin: 6, favorite: 7 };
    assert_eq!(stats_line(&stat), "▶ 1200 · 💬 3 · 👍 45 · 💰 6 · ⭐ 7");
}
