//! Requests that act on the site: replies under a comment, liking and
//! posting comments, and the reports of what was watched. Each is an
//! endpoint and the form fields posted to it.

use vstd::prelude::*;
use crate::api::client::BilibiliApiDomain;
use crate::player::{Heartbeat, WatchStart, PLAY_TYPE_START};
use crate::text::{decimal, i32_to_decimal, i64_to_decimal};

verus! {

/// Request parameters seen as pairs of character sequences.
pub open spec fn params_view(p: Seq<(&'static str, String)>) -> Seq<(Seq<char>, Seq<char>)> {
    p.map_values(|x: (&'static str, String)| (x.0@, x.1@))
}

/// The first twenty replies under comment `root` of video `oid`.
pub fn replies_url(oid: i64, root: i64) -> (r: String)
    ensures
        r@ == "https://api.bilibili.com"@ + "/x/v2/reply/reply?type=1&oid="@ + decimal(oid as int) + "&root="@
            + decimal(root as int) + "&ps=20&pn=1"@,
{
    let mut r = String::from_str(BilibiliApiDomain::Main.as_str());
    r.append("/x/v2/reply/reply?type=1&oid=");
    r.append(i64_to_decimal(oid).as_str());
    r.append("&root=");
    r.append(i64_to_decimal(root).as_str());
    r.append("&ps=20&pn=1");
    r
}

/// The endpoint that likes a comment or takes the like back.
pub fn comment_like_url() -> (r: String)
    ensures
        r@ == "https://api.bilibili.com"@ + "/x/v2/reply/action"@,
{
    let mut r = String::from_str(BilibiliApiDomain::Main.as_str());
    r.append("/x/v2/reply/action");
    r
}

/// The endpoint that posts a comment or a reply.
pub fn comment_add_url() -> (r: String)
    ensures
        r@ == "https://api.bilibili.com"@ + "/x/v2/reply/add"@,
{
    let mut r = String::from_str(BilibiliApiDomain::Main.as_str());
    r.append("/x/v2/reply/add");
    r
}

/// The endpoint that takes the watch reports.
pub fn heartbeat_url() -> (r: String)
    ensures
        r@ == "https://api.bilibili.com"@ + "/x/click-interface/web/heartbeat"@,
{
    let mut r = String::from_str(BilibiliApiDomain::Main.as_str());
    r.append("/x/click-interface/web/heartbeat");
    r
}

/// The form that likes (`like`) or unlikes comment `rpid` of kind `kind`
/// under `oid`, with the CSRF token `csrf`.
pub fn like_comment_form(oid: i64, rpid: i64, kind: i32, like: bool, csrf: &str) -> (r: Vec<(&'static str, String)>)
    ensures
        params_view(r@) == seq![
            ("oid"@, decimal(oid as int)),
            ("type"@, decimal(kind as int)),
            ("rpid"@, decimal(rpid as int)),
            ("action"@, if like { "1"@ } else { "0"@ }),
            ("csrf"@, csrf@),
        ],
{
    let mut r: Vec<(&'static str, String)> = Vec::new();
    r.push(("oid", i64_to_decimal(oid)));
    r.push(("type", i32_to_decimal(kind)));
    r.push(("rpid", i64_to_decimal(rpid)));
    r.push(("action", if like { String::from_str("1") } else { String::from_str("0") }));
    r.push(("csrf", String::from_str(csrf)));
    assert(params_view(r@) =~= seq![
        ("oid"@, decimal(oid as int)),
        ("type"@, decimal(kind as int)),
        ("rpid"@, decimal(rpid as int)),
        ("action"@, if like { "1"@ } else { "0"@ }),
        ("csrf"@, csrf@),
    ]);
    r
}

/// The reply fields of a comment form: a reply to `root` names it both as
/// its root and as its parent; a top-level comment has none.
pub open spec fn reply_fields(root: Option<i64>) -> Seq<(Seq<char>, Seq<char>)> {
    match root {
        Some(x) => seq![("root"@, decimal(x as int)), ("parent"@, decimal(x as int))],
        None => Seq::empty(),
    }
}

/// The form that posts `message` under `oid` (of kind `kind`), as a reply
/// to comment `root` when one is given, with the CSRF token `csrf`.
pub fn add_comment_form(oid: i64, kind: i32, message: &str, root: Option<i64>, csrf: &str) -> (r: Vec<
    (&'static str, String),
>)
    ensures
        params_view(r@) == seq![
            ("oid"@, decimal(oid as int)),
            ("type"@, decimal(kind as int)),
            ("message"@, message@),
            ("csrf"@, csrf@),
        ] + reply_fields(root),
{
    let mut r: Vec<(&'static str, String)> = Vec::new();
    r.push(("oid", i64_to_decimal(oid)));
    r.push(("type", i32_to_decimal(kind)));
    r.push(("message", String::from_str(message)));
    r.push(("csrf", String::from_str(csrf)));
    match root {
        Some(x) => {
            r.push(("root", i64_to_decimal(x)));
            r.push(("parent", i64_to_decimal(x)));
        },
        None => {},
    }
    assert(params_view(r@) =~= seq![
        ("oid"@, decimal(oid as int)),
        ("type"@, decimal(kind as int)),
        ("message"@, message@),
        ("csrf"@, csrf@),
    ] + reply_fields(root));
    r
}

/// The form of heartbeat `hb` for video `bvid`, with the CSRF token
/// `csrf`: the progress figures of the heartbeat, reported from the web
/// player (`type` 3, `dt` 2).
pub fn heartbeat_form(hb: &Heartbeat, bvid: &str, csrf: &str) -> (r: Vec<(&'static str, String)>)
    ensures
        params_view(r@) == seq![
            ("aid"@, decimal(hb.aid as int)),
            ("bvid"@, bvid@),
            ("cid"@, decimal(hb.cid as int)),
            ("played_time"@, decimal(hb.played_time as int)),
            ("real_played_time"@, decimal(hb.real_played_time as int)),
            ("realtime"@, decimal(hb.real_time as int)),
            ("start_ts"@, decimal(hb.start_ts as int)),
            ("type"@, "3"@),
            ("dt"@, "2"@),
            ("play_type"@, decimal(hb.play_type as int)),
            ("csrf"@, csrf@),
        ],
{
    let mut r: Vec<(&'static str, String)> = Vec::new();
    r.push(("aid", i64_to_decimal(hb.aid)));
    r.push(("bvid", String::from_str(bvid)));
    r.push(("cid", i64_to_decimal(hb.cid)));
    r.push(("played_time", i64_to_decimal(hb.played_time)));
    r.push(("real_played_time", i64_to_decimal(hb.real_played_time)));
    r.push(("realtime", i64_to_decimal(hb.real_time)));
    r.push(("start_ts", i64_to_decimal(hb.start_ts)));
    r.push(("type", String::from_str("3")));
    r.push(("dt", String::from_str("2")));
    r.push(("play_type", i32_to_decimal(hb.play_type)));
    r.push(("csrf", String::from_str(csrf)));
    assert(params_view(r@) =~= seq![
        ("aid"@, decimal(hb.aid as int)),
        ("bvid"@, bvid@),
        ("cid"@, decimal(hb.cid as int)),
        ("played_time"@, decimal(hb.played_time as int)),
        ("real_played_time"@, decimal(hb.real_played_time as int)),
        ("realtime"@, decimal(hb.real_time as int)),
        ("start_ts"@, decimal(hb.start_ts as int)),
        ("type"@, "3"@),
        ("dt"@, "2"@),
        ("play_type"@, decimal(hb.play_type as int)),
        ("csrf"@, csrf@),
    ]);
    r
}

/// The form of the report that `ws` starts to play, with the CSRF token
/// `csrf`: nothing played yet, the length of the video, and the start play
/// type, reported from the web player.
pub fn watch_start_form(ws: &WatchStart, csrf: &str) -> (r: Vec<(&'static str, String)>)
    ensures
        params_view(r@) == seq![
            ("aid"@, decimal(ws.aid as int)),
            ("bvid"@, ws.bvid@),
            ("cid"@, decimal(ws.cid as int)),
            ("duration"@, decimal(ws.duration as int)),
            ("played_time"@, "0"@),
            ("type"@, "3"@),
            ("dt"@, "2"@),
            ("play_type"@, decimal(PLAY_TYPE_START as int)),
            ("csrf"@, csrf@),
        ],
{
    let mut r: Vec<(&'static str, String)> = Vec::new();
    r.push(("aid", i64_to_decimal(ws.aid)));
    r.push(("bvid", ws.bvid.clone()));
    r.push(("cid", i64_to_decimal(ws.cid)));
    r.push(("duration", i64_to_decimal(ws.duration)));
    r.push(("played_time", String::from_str("0")));
    r.push(("type", String::from_str("3")));
    r.push(("dt", String::from_str("2")));
    r.push(("play_type", i32_to_decimal(PLAY_TYPE_START)));
    r.push(("csrf", String::from_str(csrf)));
    assert(params_view(r@) =~= seq![
        ("aid"@, decimal(ws.aid as int)),
        ("bvid"@, ws.bvid@),
        ("cid"@, decimal(ws.cid as int)),
        ("duration"@, decimal(ws.duration as int)),
        ("played_time"@, "0"@),
        ("type"@, "3"@),
        ("dt"@, "2"@),
        ("play_type"@, decimal(PLAY_TYPE_START as int)),
        ("csrf"@, csrf@),
    ]);
    r
}

} // verus!
