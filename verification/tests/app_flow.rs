use bilibili_tui::api::models::VideoItem;
use bilibili_tui::app::{App, AppAction, NavItem, Page, Persist, PreviousPage, Request, ScrollAccumulator};
use bilibili_tui::layout::Area;
use bilibili_tui::player::{
    mpv_args, video_page_url, PlaybackEvent, PlaybackSession, HEARTBEAT_SECONDS, PLAY_TYPE_END, PLAY_TYPE_PLAYING,
};
use bilibili_tui::storage::{AppConfig, Credentials, Keybindings};
use bilibili_tui::ui::{Key, Mouse, MouseKind};

fn creds() -> Credentials {
    Credentials {
        sessdata: "S".to_string(),
        bili_jct: "J".to_string(),
        dede_user_id: "U".to_string(),
        dede_user_id_ckmd5: None,
        refresh_token: None,
    }
}

fn video(id: i64) -> VideoItem {
    VideoItem {
        id,
        bvid: Some(format!("BV{}", id)),
        title: None,
        pic: None,
        owner_name: None,
        view_count: None,
        duration: None,
    }
}

#[test]
fn starts_on_login_without_credentials() {
    let app = App::new(None, None);
    assert!(matches!(app.current_page, Page::Login(_)));
    assert_eq!(app.theme_index, 0);
    assert_eq!(app.api_client.cookie_header(), None);
    assert_eq!(app.config.theme, "CatppuccinMocha");
    assert_eq!(app.keybindings.quit, "q");
    assert_eq!(app.selected_nav, NavItem::Home);
    assert!(app.show_sidebar && !app.should_quit);
}

#[test]
fn starts_home_with_credentials() {
    let mut config = AppConfig::default();
    config.keybindings.quit = "x".to_string();
    config.theme = "Nord".to_string();
    let app = App::new(Some(creds()), Some(config));
    assert!(matches!(app.current_page, Page::Home(_)));
    assert_eq!(app.api_client.cookie_header(), Some("SESSDATA=S; bili_jct=J; DedeUserID=U".to_string()));
    assert_eq!(app.keybindings.quit, "x");
    assert_eq!(app.theme_index, 2);
    let mut odd = AppConfig::default();
    odd.theme = "NoSuchTheme".to_string();
    assert_eq!(App::new(None, Some(odd)).theme_index, 0);
}

#[test]
fn sidebar_gives_way_to_the_page_minimum() {
    let app = App::new(Some(creds()), None);
    let wide = Area { x: 0, y: 2, width: 100, height: 30 };
    assert_eq!(app.get_content_area(wide), Area { x: 16, y: 2, width: 84, height: 30 });
    let middle = Area { x: 4, y: 0, width: 50, height: 20 };
    assert_eq!(app.get_content_area(middle), Area { x: 14, y: 0, width: 40, height: 20 });
    let narrow = Area { x: 0, y: 0, width: 30, height: 20 };
    assert_eq!(app.get_content_area(narrow), Area { x: 0, y: 0, width: 30, height: 20 });
}

#[test]
fn watch_start_is_reported_once_before_heartbeats() {
    let mut s = PlaybackSession::new(10, 20, "BV1xx", 300, 1_700_000_000);
    assert!(!s.start_reported);
    let start = s.report_start().expect("first report");
    assert_eq!((start.aid, start.cid, start.bvid.as_str(), start.duration), (10, 20, "BV1xx", 300));
    assert!(s.start_reported);
    assert!(s.report_start().is_none());
    assert_eq!(s.played_time, 0);
    let hb = s.step(PlaybackEvent::Tick { elapsed_secs: 15 });
    assert_eq!(hb.played_time, 15);
    assert!(s.report_start().is_none());
}

#[test]
fn content_area_leaves_room_for_the_sidebar() {
    let mut app = App::new(Some(creds()), None);
    let screen = Area { x: 0, y: 0, width: 100, height: 30 };
    assert_eq!(app.get_content_area(screen), Area { x: 16, y: 0, width: 84, height: 30 });
    app.show_sidebar = false;
    assert_eq!(app.get_content_area(screen), screen);
    let login = App::new(None, None);
    assert_eq!(login.get_content_area(screen), screen);
}

#[test]
fn sidebar_cycles_through_pages() {
    let mut app = App::new(Some(creds()), None);
    let mut seen = vec![];
    for _ in 0..6 {
        let (persist, _) = app.handle_action(AppAction::NavNext);
        assert_eq!(persist, Persist::Nothing);
        seen.push(app.selected_nav);
    }
    assert_eq!(
        seen,
        vec![NavItem::Search, NavItem::Dynamic, NavItem::History, NavItem::Settings, NavItem::Live, NavItem::Home]
    );
    assert!(matches!(app.current_page, Page::Home(_)));
    app.handle_action(AppAction::NavPrev);
    assert_eq!(app.selected_nav, NavItem::Live);
    assert!(matches!(app.current_page, Page::Live));
    assert_eq!(NavItem::Home.next().prev(), NavItem::Home);
}

#[test]
fn home_page_survives_a_visit_to_a_video() {
    let mut app = App::new(Some(creds()), None);
    if let Page::Home(home) = &mut app.current_page {
        home.finish_load_recommendations(Ok(vec![video(1), video(2), video(3), video(4)]));
        home.handle_input(Key::Right);
    }
    let (_, req) = app.handle_action(AppAction::OpenVideoDetail("BV2".to_string(), 2));
    assert!(matches!(req, Request::LoadVideoDetail));
    assert_eq!(app.previous_page, Some(PreviousPage::Home));
    assert!(matches!(&app.current_page, Page::VideoDetail(p) if p.bvid == "BV2" && p.aid == 2));
    let (_, req) = app.handle_action(AppAction::BackToList);
    assert!(matches!(req, Request::Nothing));
    match &app.current_page {
        Page::Home(home) => {
            assert_eq!(home.videos.len(), 4);
            assert_eq!(home.selected_index, 1);
        },
        _ => panic!("expected the home page"),
    }
    assert!(app.cached_home.is_none());
    assert_eq!(app.previous_page, None);
}

#[test]
fn back_from_a_search_opens_a_fresh_search() {
    let mut app = App::new(Some(creds()), None);
    app.handle_action(AppAction::NavNext);
    assert!(matches!(app.current_page, Page::Search(_)));
    app.handle_action(AppAction::OpenVideoDetail("BV9".to_string(), 9));
    let (_, req) = app.handle_action(AppAction::BackToList);
    assert!(matches!(req, Request::InitPage));
    assert!(matches!(app.current_page, Page::Search(_)));
    assert_eq!(app.selected_nav, NavItem::Search);
}

#[test]
fn login_logout_and_quit() {
    let mut app = App::new(None, None);
    let (persist, req) = app.handle_action(AppAction::LoginSuccess(creds()));
    assert_eq!(persist, Persist::SaveCredentials);
    assert!(matches!(req, Request::InitPage));
    assert!(matches!(app.current_page, Page::Home(_)));
    assert_eq!(app.api_client.cookie_header(), Some("SESSDATA=S; bili_jct=J; DedeUserID=U".to_string()));
    let (persist, _) = app.handle_action(AppAction::Logout);
    assert_eq!(persist, Persist::DeleteCredentials);
    assert!(app.credentials.is_none());
    assert!(matches!(app.current_page, Page::Login(_)));
    assert!(!app.should_quit);
    app.handle_action(AppAction::Quit);
    assert!(app.should_quit);
}

#[test]
fn settings_changes_go_to_storage() {
    let mut config = AppConfig::default();
    config.theme = "CatppuccinLatte".to_string();
    let mut app = App::new(Some(creds()), Some(config));
    assert_eq!(app.theme_index, 1);
    app.handle_action(AppAction::SwitchToSettings);
    assert_eq!(app.selected_nav, NavItem::Settings);
    assert!(matches!(&app.current_page, Page::Settings(p) if p.selected_theme_index == 1 && p.current_theme_index == 1));
    let mut k = Keybindings::default();
    k.play = "o".to_string();
    let (persist, _) = app.handle_action(AppAction::SaveKeybindings(k));
    assert_eq!(persist, Persist::SaveConfig);
    assert_eq!(app.keybindings.play, "o");
    assert_eq!(app.config.keybindings.play, "o");
    let (persist, req) = app.handle_action(AppAction::SetTheme(3));
    assert_eq!(persist, Persist::SaveConfig);
    assert!(matches!(req, Request::Nothing));
    assert_eq!(app.theme_index, 3);
    assert_eq!(app.config.theme, "BilibiliPink");
    assert_eq!(app.config.keybindings.play, "o");
    let (persist, _) = app.handle_action(AppAction::NextTheme);
    assert_eq!(persist, Persist::SaveConfig);
    assert_eq!(app.theme_index, 0);
    assert_eq!(app.config.theme, "CatppuccinMocha");
    app.handle_action(AppAction::NextTheme);
    assert_eq!((app.theme_index, app.config.theme.as_str()), (1, "CatppuccinLatte"));
    let (persist, req) = app.handle_action(AppAction::SetTheme(4));
    assert_eq!(persist, Persist::Nothing);
    assert!(matches!(req, Request::Nothing));
    assert_eq!(app.theme_index, 1);
}

#[test]
fn keys_reach_the_page_shown() {
    let mut app = App::new(Some(creds()), None);
    let (_, req) = app.handle_input(Key::Tab);
    assert!(matches!(req, Request::InitPage));
    assert!(matches!(app.current_page, Page::Search(_)));
    app.handle_input(Key::Char('a'));
    let (_, req) = app.handle_input(Key::Enter);
    assert!(matches!(req, Request::Search { keyword } if keyword == "a"));
    let (_, req) = app.handle_input(Key::Esc);
    assert!(matches!(req, Request::Nothing));
    app.handle_input(Key::Char('q'));
    assert!(app.should_quit);
}

#[test]
fn paging_requests_carry_the_next_page() {
    let mut app = App::new(Some(creds()), None);
    let (_, req) = app.handle_action(AppAction::LoadMoreRecommendations);
    assert!(matches!(req, Request::MoreRecommendations { fresh_idx: 2 }));
    let (_, req) = app.handle_action(AppAction::LoadMoreRecommendations);
    assert!(matches!(req, Request::Nothing));
}

#[test]
fn wheel_steps_every_fifteen_events() {
    let mut acc = ScrollAccumulator::new();
    for _ in 0..14 {
        assert!(!acc.scroll_down());
    }
    assert!(acc.scroll_down());
    assert_eq!(acc.count, 0);
    acc.scroll_down();
    for _ in 0..15 {
        assert!(!acc.scroll_up());
    }
    assert!(acc.scroll_up());
}

#[test]
fn player_addresses_and_arguments() {
    assert_eq!(video_page_url("BV1", None), "https://www.bilibili.com/video/BV1");
    assert_eq!(video_page_url("BV1", Some(1)), "https://www.bilibili.com/video/BV1");
    assert_eq!(video_page_url("BV1", Some(3)), "https://www.bilibili.com/video/BV1?p=3");
    assert_eq!(
        mpv_args(Some("/c/cookies.txt"), "https://v"),
        vec!["--ytdl-raw-options=cookies=/c/cookies.txt", "--force-window=immediate", "https://v"]
    );
    assert_eq!(mpv_args(None, "https://v"), vec!["--force-window=immediate", "https://v"]);
}

#[test]
fn playback_credits_fifteen_seconds_per_period() {
    let mut s = PlaybackSession::new(10, 20, "BV1", 300, 1_700_000_000);
    assert!(s.report_start().is_some());
    let hb = s.step(PlaybackEvent::Tick { elapsed_secs: 15 });
    assert_eq!(hb.played_time, HEARTBEAT_SECONDS);
    assert_eq!(hb.play_type, PLAY_TYPE_PLAYING);
    assert_eq!((hb.aid, hb.cid, hb.start_ts), (10, 20, 1_700_000_000));
    let hb = s.step(PlaybackEvent::Tick { elapsed_secs: 31 });
    assert_eq!(hb.played_time, 30);
    assert_eq!(hb.real_played_time, 31);
    let hb = s.step(PlaybackEvent::Exited { elapsed_secs: 40 });
    assert_eq!(hb.played_time, 30);
    assert_eq!(hb.real_time, 40);
    assert_eq!(hb.play_type, PLAY_TYPE_END);
    assert!(s.finished);
}

#[test]
fn mouse_reaches_the_search_results() {
    let mut app = App::new(Some(creds()), None);
    app.handle_input(Key::Tab);
    let wheel = Mouse { kind: MouseKind::ScrollDown, column: 10, row: 10 };
    let area = Area { x: 16, y: 0, width: 84, height: 40 };
    assert!(app.paging_is_in_range());
    let (persist, req) = app.handle_mouse(wheel, area, 0);
    assert_eq!(persist, Persist::Nothing);
    assert!(matches!(req, Request::Nothing));
    app.handle_input(Key::Tab);
    assert!(matches!(app.current_page, Page::Dynamic(_)));
    let (_, req) = app.handle_mouse(wheel, area, 0);
    assert!(matches!(req, Request::Nothing));
}
