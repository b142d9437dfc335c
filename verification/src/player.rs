//! Playing a video in mpv and reporting the watch progress.
//!
//! The player process and the timers are driven by the caller; this module
//! says which address and arguments the player gets and, event by event,
//! which progress report goes out.

use vstd::prelude::*;
use crate::text::{decimal, i32_to_decimal, lemma_decimal_injective};

verus! {

/// The page of a video on the website; episodes after the first are
/// addressed with `?p=`.
pub open spec fn video_page_url_spec(bvid: Seq<char>, page_num: Option<i32>) -> Seq<char> {
    match page_num {
        Some(p) if p > 1 => "https://www.bilibili.com/video/"@ + bvid + "?p="@ + decimal(p as int),
        _ => "https://www.bilibili.com/video/"@ + bvid,
    }
}

/// The episode asked for is the one addressed: the video's own page
/// serves no episode or the first, and every later episode `p` is that
/// page followed by `?p=` and the number `p`; so two later episodes never
/// share an address, nor does a later episode share one with the first.
pub proof fn lemma_episode_addressed(bvid: Seq<char>, p: i32, q: i32)
    ensures
        video_page_url_spec(bvid, None) == "https://www.bilibili.com/video/"@ + bvid,
        p <= 1 ==> video_page_url_spec(bvid, Some(p)) == video_page_url_spec(bvid, None),
        p > 1 ==> video_page_url_spec(bvid, Some(p)) == video_page_url_spec(bvid, None) + "?p="@ + decimal(
            p as int,
        ),
        p > 1 ==> video_page_url_spec(bvid, Some(p)) != video_page_url_spec(bvid, None),
        p > 1 && q > 1 && p != q ==> video_page_url_spec(bvid, Some(p)) != video_page_url_spec(bvid, Some(q)),
{
    let home = "https://www.bilibili.com/video/"@ + bvid;
    if p > 1 {
        let a = video_page_url_spec(bvid, Some(p));
        assert(a.len() > home.len());
        if q > 1 && p != q {
            let b = video_page_url_spec(bvid, Some(q));
            let pre = home + "?p="@;
            let start: int = pre.len() as int;
            assert(a == pre + decimal(p as int));
            assert(b == pre + decimal(q as int));
            if a == b {
                assert(decimal(p as int) =~= a.subrange(start, a.len() as int));
                assert(decimal(q as int) =~= b.subrange(start, b.len() as int));
                lemma_decimal_injective(p as int, q as int);
            }
        }
    }
}

/// The page of video `bvid`, episode `page_num`, that the player opens.
pub fn video_page_url(bvid: &str, page_num: Option<i32>) -> (r: String)
    ensures
        r@ == video_page_url_spec(bvid@, page_num),
{
    let mut r = String::from_str("https://www.bilibili.com/video/");
    r.append(bvid);
    match page_num {
        Some(p) if p > 1 => {
            r.append("?p=");
            r.append(i32_to_decimal(p).as_str());
            r
        },
        _ => r,
    }
}

/// The mpv arguments: the cookie file for yt-dlp when the user is logged in,
/// a window opened at once, and the video page.
pub open spec fn mpv_args_spec(cookie_path: Option<Seq<char>>, video_url: Seq<char>) -> Seq<Seq<char>> {
    match cookie_path {
        Some(p) => seq!["--ytdl-raw-options=cookies="@ + p, "--force-window=immediate"@, video_url],
        None => seq!["--force-window=immediate"@, video_url],
    }
}

/// The player always opens the address it is given, as its last
/// argument, in a window opened at once; being logged in adds exactly one
/// argument in front, which hands yt-dlp the cookie file.
pub proof fn lemma_mpv_opens_the_address(cookie_path: Option<Seq<char>>, video_url: Seq<char>)
    ensures
        mpv_args_spec(cookie_path, video_url).last() == video_url,
        mpv_args_spec(cookie_path, video_url).drop_last().last() == "--force-window=immediate"@,
        mpv_args_spec(cookie_path, video_url).len() == mpv_args_spec(None, video_url).len() + if cookie_path is Some {
            1int
        } else {
            0
        },
        cookie_path matches Some(p) ==> mpv_args_spec(cookie_path, video_url)[0] == "--ytdl-raw-options=cookies="@ + p
            && mpv_args_spec(cookie_path, video_url).drop_first() == mpv_args_spec(None, video_url),
{
    if cookie_path is Some {
        assert(mpv_args_spec(cookie_path, video_url).drop_first() =~= mpv_args_spec(None, video_url));
    }
}

/// The command line arguments mpv is started with.
pub fn mpv_args(cookie_path: Option<&str>, video_url: &str) -> (r: Vec<String>)
    ensures
        r@.map_values(|a: String| a@) == mpv_args_spec(
            match cookie_path {
                Some(p) => Some(p@),
                None => None,
            },
            video_url@,
        ),
{
    let mut args: Vec<String> = Vec::new();
    match cookie_path {
        Some(p) => {
            let mut a = String::from_str("--ytdl-raw-options=cookies=");
            a.append(p);
            args.push(a);
        },
        None => {},
    }
    args.push(String::from_str("--force-window=immediate"));
    args.push(String::from_str(video_url));
    proof {
        let m = args@.map_values(|a: String| a@);
        let spec_args = mpv_args_spec(
            match cookie_path {
                Some(p) => Some(p@),
                None => None,
            },
            video_url@,
        );
        assert(m.len() == spec_args.len());
        assert(m =~= spec_args);
    }
    args
}

/// Seconds of playback credited for each heartbeat period.
pub const HEARTBEAT_SECONDS: i64 = 15;

/// The play type of the report sent before the player starts.
pub const PLAY_TYPE_START: i32 = 1;

/// The play type of a heartbeat sent while the video plays.
pub const PLAY_TYPE_PLAYING: i32 = 0;

/// The play type of the heartbeat sent when the player exits.
pub const PLAY_TYPE_END: i32 = 4;

/// A watch progress report.
#[derive(Debug, PartialEq, Eq, Structural, Clone, Copy)]
pub struct Heartbeat {
    pub aid: i64,
    pub cid: i64,
    pub played_time: i64,
    pub real_played_time: i64,
    pub real_time: i64,
    pub start_ts: i64,
    pub play_type: i32,
}

/// The report that a video is about to play: the episode, its video and
/// its length in seconds.
pub struct WatchStart {
    pub aid: i64,
    pub cid: i64,
    pub bvid: String,
    pub duration: i64,
}

/// What happened while the player runs.
pub enum PlaybackEvent {
    /// A heartbeat period began; `elapsed_secs` seconds have passed since
    /// the player started.
    Tick { elapsed_secs: i64 },
    /// The player exited after `elapsed_secs` seconds.
    Exited { elapsed_secs: i64 },
}

/// The progress of one playback: the video, its length, when it started,
/// whether its start was reported, and the playing time credited so far.
pub struct PlaybackSession {
    pub aid: i64,
    pub cid: i64,
    pub bvid: String,
    pub duration: i64,
    pub start_ts: i64,
    pub start_reported: bool,
    pub played_time: i64,
    pub finished: bool,
}

/// The session after `e`: a heartbeat period credits fifteen more seconds,
/// the exit finishes the session.
pub open spec fn stepped(s: PlaybackSession, e: PlaybackEvent) -> PlaybackSession {
    match e {
        PlaybackEvent::Tick { .. } => PlaybackSession { played_time: (s.played_time + HEARTBEAT_SECONDS) as i64, ..s },
        PlaybackEvent::Exited { .. } => PlaybackSession { finished: true, ..s },
    }
}

/// The session after the events `events`, in order.
pub open spec fn replayed(s: PlaybackSession, events: Seq<PlaybackEvent>) -> PlaybackSession
    decreases events.len(),
{
    if events.len() == 0 {
        s
    } else {
        stepped(replayed(s, events.drop_last()), events.last())
    }
}

/// The number of heartbeat periods among `events`.
pub open spec fn tick_count(events: Seq<PlaybackEvent>) -> nat
    decreases events.len(),
{
    if events.len() == 0 {
        0
    } else {
        tick_count(events.drop_last()) + if events.last() is Tick { 1nat } else { 0nat }
    }
}

/// The playing time credited over a run of events is fifteen seconds per
/// heartbeat period, whatever else happens; the video and the start time
/// stay those the session began with, and the session is finished exactly
/// when it was or an exit came.
pub proof fn lemma_credited_time(s: PlaybackSession, events: Seq<PlaybackEvent>)
    requires
        s.played_time >= 0,
        s.played_time + HEARTBEAT_SECONDS * events.len() <= i64::MAX,
    ensures
        replayed(s, events).played_time == s.played_time + HEARTBEAT_SECONDS * tick_count(events),
        replayed(s, events).aid == s.aid,
        replayed(s, events).cid == s.cid,
        replayed(s, events).start_ts == s.start_ts,
        replayed(s, events).start_reported == s.start_reported,
        replayed(s, events).finished == (s.finished || exists|i: int| 0 <= i < events.len() && #[trigger] events[i] is Exited),
    decreases events.len(),
{
    if events.len() > 0 {
        let init = events.drop_last();
        lemma_credited_time(s, init);
        assert(tick_count(init) <= init.len()) by {
            lemma_tick_count_bounded(init);
        }
        assert(HEARTBEAT_SECONDS * tick_count(init) <= HEARTBEAT_SECONDS * init.len()) by (nonlinear_arith)
            requires
                tick_count(init) <= init.len(),
        ;
        assert(HEARTBEAT_SECONDS * events.len() == HEARTBEAT_SECONDS * init.len() + HEARTBEAT_SECONDS);
        if replayed(s, events).finished && !s.finished {
            if !(events.last() is Exited) {
                let i = choose|i: int| 0 <= i < init.len() && #[trigger] init[i] is Exited;
                assert(events[i] is Exited);
            } else {
                assert(events[events.len() - 1] is Exited);
            }
        }
        if exists|i: int| 0 <= i < events.len() && #[trigger] events[i] is Exited {
            let i = choose|i: int| 0 <= i < events.len() && #[trigger] events[i] is Exited;
            if i < init.len() {
                assert(init[i] is Exited);
            }
        }
    }
}

proof fn lemma_tick_count_bounded(events: Seq<PlaybackEvent>)
    ensures
        tick_count(events) <= events.len(),
    decreases events.len(),
{
    if events.len() > 0 {
        lemma_tick_count_bounded(events.drop_last());
    }
}

impl PlaybackSession {
    /// A playback of episode `cid` of video `aid` (BV id `bvid`, `duration`
    /// seconds long) that started at the Unix time `start_ts`, with its
    /// start not reported yet and nothing credited.
    pub fn new(aid: i64, cid: i64, bvid: &str, duration: i64, start_ts: i64) -> (r: Self)
        ensures
            r.aid == aid && r.cid == cid && r.start_ts == start_ts,
            r.bvid@ == bvid@ && r.duration == duration,
            !r.start_reported,
            r.played_time == 0,
            !r.finished,
    {
        PlaybackSession {
            aid,
            cid,
            bvid: String::from_str(bvid),
            duration,
            start_ts,
            start_reported: false,
            played_time: 0,
            finished: false,
        }
    }

    /// The report that the video starts, given once, before the player
    /// runs: the first call gives it and marks the start reported, later
    /// calls give nothing. Nothing else changes.
    pub fn report_start(&mut self) -> (r: Option<WatchStart>)
        ensures
            final(self).start_reported,
            final(self).aid == old(self).aid,
            final(self).cid == old(self).cid,
            final(self).bvid@ == old(self).bvid@,
            final(self).duration == old(self).duration,
            final(self).start_ts == old(self).start_ts,
            final(self).played_time == old(self).played_time,
            final(self).finished == old(self).finished,
            match r {
                Some(w) => {
                    &&& !old(self).start_reported
                    &&& w.aid == old(self).aid
                    &&& w.cid == old(self).cid
                    &&& w.bvid@ == old(self).bvid@
                    &&& w.duration == old(self).duration
                },
                None => old(self).start_reported,
            },
    {
        if self.start_reported {
            return None;
        }
        self.start_reported = true;
        Some(WatchStart { aid: self.aid, cid: self.cid, bvid: self.bvid.clone(), duration: self.duration })
    }

    /// Takes in an event and gives the heartbeat to send, once the start
    /// was reported. Each heartbeat
    /// period credits fifteen seconds of playing time and reports it as
    /// still playing; the exit reports the credited time as ended and
    /// finishes the session. Both report the real time elapsed.
    pub fn step(&mut self, event: PlaybackEvent) -> (r: Heartbeat)
        requires
            old(self).start_reported,
            !old(self).finished,
            event is Tick ==> old(self).played_time + HEARTBEAT_SECONDS <= i64::MAX,
        ensures
            *final(self) == stepped(*old(self), event),
            r.aid == old(self).aid,
            r.cid == old(self).cid,
            r.start_ts == old(self).start_ts,
            match event {
                PlaybackEvent::Tick { elapsed_secs } => {
                    &&& r.played_time == final(self).played_time
                    &&& r.real_played_time == elapsed_secs
                    &&& r.real_time == elapsed_secs
                    &&& r.play_type == PLAY_TYPE_PLAYING
                },
                PlaybackEvent::Exited { elapsed_secs } => {
                    &&& r.played_time == old(self).played_time
                    &&& r.real_played_time == elapsed_secs
                    &&& r.real_time == elapsed_secs
                    &&& r.play_type == PLAY_TYPE_END
                },
            },
    {
        match event {
            PlaybackEvent::Tick { elapsed_secs } => {
                self.played_time = self.played_time + HEARTBEAT_SECONDS;
                Heartbeat {
                    aid: self.aid,
                    cid: self.cid,
                    played_time: self.played_time,
                    real_played_time: elapsed_secs,
                    real_time: elapsed_secs,
                    start_ts: self.start_ts,
                    play_type: PLAY_TYPE_PLAYING,
                }
            },
            PlaybackEvent::Exited { elapsed_secs } => {
                self.finished = true;
                Heartbeat {
                    aid: self.aid,
                    cid: self.cid,
                    played_time: self.played_time,
                    real_played_time: elapsed_secs,
                    real_time: elapsed_secs,
                    start_ts: self.start_ts,
                    play_type: PLAY_TYPE_END,
                }
            },
        }
    }
}

} // verus!
