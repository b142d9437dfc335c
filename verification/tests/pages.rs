use bilibili_tui::api::models::{
    CommentData, CommentItem, CommentPage, DynamicFeedData, DynamicItem, QrcodeData, QrcodePollData,
    QrcodePollResult, QrcodePollStatus, RelatedVideoItem, SearchData, SearchVideoItem, VideoInfo, VideoItem, VideoStat,
};
use bilibili_tui::app::AppAction;
use bilibili_tui::layout::Area;
use bilibili_tui::storage::Keybindings;
use bilibili_tui::ui::dynamic::DynamicPage;
use bilibili_tui::ui::grid::{is_near_bottom, scroll_to_show, total_rows, visible_rows};
use bilibili_tui::ui::home::HomePage;
use bilibili_tui::ui::login::{LoginPage, StatusTone};
use bilibili_tui::ui::search::SearchPage;
use bilibili_tui::ui::settings::{SettingsPage, SettingsSection};
use bilibili_tui::ui::video_card::{VideoCard, VideoCardGrid};
use bilibili_tui::ui::video_detail::{DetailFocus, VideoDetailPage};
use bilibili_tui::ui::{App as Shell, Key, Mouse, MouseKind, ShellPage};

fn video(id: i64, bvid: Option<&str>, pic: Option<&str>) -> VideoItem {
    VideoItem {
        id,
        bvid: bvid.map(|b| b.to_string()),
        title: Some(format!("video {}", id)),
        pic: pic.map(|p| p.to_string()),
        owner_name: Some("up".to_string()),
        view_count: Some(10),
        duration: Some(61),
    }
}

fn search_item(n: i64) -> SearchVideoItem {
    SearchVideoItem {
        bvid: Some(format!("BV{}", n)),
        mid: Some(n),
        title: format!("result {}", n),
        author: "a".to_string(),
        play: "1".to_string(),
        duration: Some("1:00".to_string()),
        cover: Some(format!("https://i/{}.jpg", n)),
    }
}

fn feed_item(n: i64, is_video: bool) -> DynamicItem {
    DynamicItem {
        is_video,
        bvid: Some(format!("BV{}", n)),
        title: if n % 2 == 0 { Some(format!("dyn {}", n)) } else { None },
        author: "up".to_string(),
        play: "12".to_string(),
        duration: "2:00".to_string(),
        cover: None,
    }
}

fn comment(rpid: i64) -> CommentItem {
    CommentItem {
        rpid,
        reply_count: 1,
        author: "c".to_string(),
        message: "m".to_string(),
        like: 0,
        ctime: 0,
    }
}

fn loaded_search(n: i64) -> SearchPage {
    let mut page = SearchPage::new();
    for c in "rust".chars() {
        page.handle_input(Key::Char(c));
    }
    page.handle_input(Key::Enter);
    page.set_results((0..n).map(search_item).collect(), 100);
    page
}

#[test]
fn grid_helpers() {
    assert_eq!(total_rows(0, 3), 0);
    assert_eq!(total_rows(7, 3), 3);
    assert_eq!(total_rows(9, 3), 3);
    assert_eq!(scroll_to_show(5, 0, 3), 3);
    assert_eq!(scroll_to_show(1, 2, 3), 1);
    assert_eq!(scroll_to_show(3, 2, 3), 2);
    assert!(is_near_bottom(9, 12, 3, 1));
    assert!(!is_near_bottom(0, 30, 3, 3));
    assert!(!is_near_bottom(0, 3, 3, 3));
    assert_eq!(visible_rows(41, 12), 3);
    assert_eq!(visible_rows(3, 12), 1);
}

#[test]
fn home_page_moves_and_pages() {
    let mut home = HomePage::new();
    assert!(home.loading);
    home.finish_load_recommendations(Ok((0..30).map(|i| video(i, Some("BV"), Some("pic"))).collect()));
    assert!(!home.loading);
    assert_eq!(home.videos.len(), 30);
    assert!(matches!(home.handle_input(Key::Char('j')), Some(AppAction::NoOp)));
    assert_eq!(home.selected_index, 3);
    home.handle_input(Key::Char('k'));
    assert_eq!(home.selected_index, 0);
    home.handle_input(Key::Char('l'));
    assert_eq!(home.selected_index, 1);
    home.handle_input(Key::Char('h'));
    assert_eq!(home.selected_index, 0);
    // rows 0..=9; moving down asks for more once within two rows of the last
    let mut asked = false;
    while home.selected_index < 21 {
        asked = matches!(home.handle_input(Key::Down), Some(AppAction::LoadMoreRecommendations));
    }
    assert_eq!(home.selected_index, 21);
    assert!(asked);
    assert!(matches!(home.handle_input(Key::Enter), Some(AppAction::OpenVideoDetail(b, 21)) if b == "BV"));
    assert!(matches!(home.handle_input(Key::Char('p')), Some(AppAction::PlayVideo(b)) if b == "BV"));
    assert!(matches!(home.handle_input(Key::Tab), Some(AppAction::NavNext)));
    assert!(matches!(home.handle_input(Key::Char('q')), Some(AppAction::Quit)));
}

#[test]
fn home_page_failed_page_is_asked_again() {
    let mut home = HomePage::new();
    home.finish_load_recommendations(Ok(vec![video(1, Some("BV1"), None)]));
    assert_eq!(home.begin_load_more(), Some(2));
    assert_eq!(home.begin_load_more(), None);
    home.finish_load_more(None);
    assert_eq!(home.fresh_idx, 1);
    assert!(!home.loading_more);
    assert_eq!(home.begin_load_more(), Some(2));
    home.finish_load_more(Some(vec![video(2, Some("BV2"), None)]));
    assert_eq!(home.fresh_idx, 2);
    assert_eq!(home.videos.len(), 2);
}

#[test]
fn home_page_load_error_and_refresh() {
    let mut home = HomePage::new();
    home.finish_load_recommendations(Err("timeout".to_string()));
    assert_eq!(home.error_message, Some("加载推荐视频失败: timeout".to_string()));
    assert!(matches!(home.handle_input(Key::Char('r')), Some(AppAction::SwitchToHome)));
    assert!(home.loading);
    assert!(home.videos.is_empty());
}

#[test]
fn home_covers_are_asked_once() {
    let mut home = HomePage::new();
    home.finish_load_recommendations(Ok((0..20).map(|i| video(i, Some("BV"), Some("c"))).collect()));
    let first = home.covers_to_download();
    let idx: Vec<usize> = first.iter().map(|(i, _)| *i).collect();
    assert_eq!(idx, (0..12).collect::<Vec<usize>>());
    assert!(home.covers_to_download().is_empty());
    assert!(home.apply_cover(0));
    assert!(home.videos[0].has_cover);
    assert!(!home.apply_cover(99));
    assert!(home.covers_to_download().is_empty());
}

#[test]
fn search_typing_and_results() {
    let mut page = SearchPage::new();
    assert!(page.input_mode);
    assert!(matches!(page.handle_input(Key::Enter), Some(AppAction::NoOp)));
    page.handle_input(Key::Char('a'));
    page.handle_input(Key::Char('b'));
    page.handle_input(Key::Backspace);
    assert_eq!(page.query, "a");
    assert!(matches!(page.handle_input(Key::Enter), Some(AppAction::Search(q)) if q == "a"));
    assert!(page.loading);
    page.finish_search(Ok(SearchData {
        result: Some(vec![search_item(1), search_item(2)]),
        num_results: Some(2),
        page: Some(1),
        pagesize: Some(20),
    }));
    assert!(!page.input_mode);
    assert_eq!(page.grid.cards.len(), 2);
    assert_eq!(page.grid.cards[0].aid, Some(1));
    assert_eq!(page.grid.cards[1].duration, "1:00");
    assert!(matches!(page.handle_input(Key::Enter), Some(AppAction::OpenVideoDetail(b, 1)) if b == "BV1"));
    assert!(matches!(page.handle_input(Key::Char('/')), Some(AppAction::NoOp)));
    assert!(page.input_mode);
}

#[test]
fn search_failure_is_shown() {
    let mut page = SearchPage::new();
    page.finish_search(Err("boom".to_string()));
    assert_eq!(page.error_message, Some("搜索失败: boom".to_string()));
}

#[test]
fn search_paging_goes_back_on_empty_page() {
    let mut page = loaded_search(20);
    assert_eq!(page.page, 1);
    let req = page.begin_load_more();
    assert_eq!(req, Some(("rust".to_string(), 2)));
    page.finish_load_more(Some(vec![]));
    assert_eq!(page.page, 1);
    assert_eq!(page.begin_load_more(), Some(("rust".to_string(), 2)));
    page.finish_load_more(None);
    assert_eq!(page.page, 1);
    page.begin_load_more();
    page.finish_load_more(Some(vec![search_item(50)]));
    assert_eq!(page.page, 2);
    assert_eq!(page.grid.cards.len(), 21);
}

#[test]
fn search_click_selects_then_opens() {
    let mut page = loaded_search(9);
    let area = Area { x: 0, y: 0, width: 90, height: 45 };
    // the results block starts three lines down, the cards two lines below it
    let click = Mouse { kind: MouseKind::LeftDown, column: 35, row: 5 };
    assert!(page.handle_mouse(click, area, 1_000_000_000).is_none());
    assert_eq!(page.grid.selected_index, 1);
    assert_eq!(page.last_click_index, Some(1));
    let second = page.handle_mouse(click, area, 1_200_000_000);
    assert!(matches!(second, Some(AppAction::OpenVideoDetail(b, 1)) if b == "BV1"));
    assert_eq!(page.last_click_index, None);
    // a slow second click selects again instead of opening
    page.handle_mouse(click, area, 2_000_000_000);
    assert!(page.handle_mouse(click, area, 2_600_000_000).is_none());
    // above the cards nothing is hit
    let header = Mouse { kind: MouseKind::LeftDown, column: 35, row: 3 };
    assert!(page.handle_mouse(header, area, 9_000_000_000).is_none());
}

#[test]
fn search_click_follows_the_results_block() {
    // fifteen rows or more: the block starts under the three input lines
    let mut page = loaded_search(9);
    let tall = Area { x: 0, y: 0, width: 90, height: 20 };
    let above = Mouse { kind: MouseKind::LeftDown, column: 35, row: 4 };
    assert!(page.handle_mouse(above, tall, 0).is_none());
    assert_eq!(page.last_click_index, None);
    let first_row = Mouse { kind: MouseKind::LeftDown, column: 35, row: 5 };
    page.handle_mouse(first_row, tall, 0);
    assert_eq!(page.last_click_index, Some(1));
    // under ten rows the block takes them all
    let mut page = loaded_search(9);
    let short = Area { x: 0, y: 0, width: 90, height: 8 };
    let header = Mouse { kind: MouseKind::LeftDown, column: 65, row: 1 };
    assert!(page.handle_mouse(header, short, 0).is_none());
    assert_eq!(page.last_click_index, None);
    let top = Mouse { kind: MouseKind::LeftDown, column: 65, row: 2 };
    page.handle_mouse(top, short, 0);
    assert_eq!(page.last_click_index, Some(2));
}

#[test]
fn search_wheel_moves_rows() {
    let mut page = loaded_search(30);
    let area = Area { x: 0, y: 0, width: 90, height: 45 };
    let down = Mouse { kind: MouseKind::ScrollDown, column: 1, row: 10 };
    let up = Mouse { kind: MouseKind::ScrollUp, column: 1, row: 10 };
    assert!(page.handle_mouse(down, area, 0).is_none());
    assert_eq!(page.grid.selected_index, 3);
    page.handle_mouse(up, area, 0);
    assert_eq!(page.grid.selected_index, 0);
    page.input_mode = true;
    page.handle_mouse(down, area, 0);
    assert_eq!(page.grid.selected_index, 0);
}

#[test]
fn dynamic_feed_shows_videos() {
    let mut page = DynamicPage::new();
    page.finish_refresh(Ok(DynamicFeedData {
        items: Some(vec![feed_item(1, true), feed_item(2, false), feed_item(4, true)]),
        offset: Some("off1".to_string()),
        has_more: Some(true),
        update_num: None,
    }));
    assert_eq!(page.grid.cards.len(), 2);
    assert_eq!(page.grid.cards[0].title, "无标题");
    assert_eq!(page.grid.cards[0].views, "▶ 12");
    assert_eq!(page.grid.cards[1].title, "dyn 4");
    assert_eq!(page.begin_load_more(), Some(Some("off1".to_string())));
    page.finish_load_more(None);
    assert!(!page.loading_more);
    assert!(matches!(page.handle_input(Key::Enter), Some(AppAction::OpenVideoDetail(b, 0)) if b == "BV1"));
}

#[test]
fn dynamic_feed_error() {
    let mut page = DynamicPage::new();
    page.finish_refresh(Err("net".to_string()));
    assert_eq!(page.error_message, Some("加载动态失败: net".to_string()));
}

#[test]
fn video_detail_loads_and_pages_comments() {
    let mut page = VideoDetailPage::new("BV1".to_string(), 42);
    let info = VideoInfo {
        aid: 42,
        cid: 7,
        title: "t".to_string(),
        owner_name: "o".to_string(),
        desc: None,
        duration: Some(300),
        stat: VideoStat { view: 0, danmaku: 0, like: 0, coin: 0, favorite: 0 },
    };
    let comments = CommentData {
        page: Some(CommentPage { count: Some(40) }),
        replies: Some(vec![comment(1), comment(2)]),
        hots: None,
    };
    let related = vec![RelatedVideoItem {
        aid: Some(9),
        bvid: Some("BV9".to_string()),
        title: None,
        author: "r".to_string(),
        views: "5".to_string(),
        duration: "1:00".to_string(),
        cover: None,
    }];
    page.finish_load_data(Ok(info), Ok(comments), Ok(related));
    assert!(!page.loading);
    assert_eq!(page.comments.len(), 2);
    assert!(page.has_more_comments);
    assert_eq!(page.related_card_grid.cards[0].title, "无标题");
    assert!(matches!(page.handle_input(Key::Char('p')),
        Some(AppAction::PlayEpisode { bvid, aid: 42, cid: 7, duration: 300 }) if bvid == "BV1"));
    assert_eq!(page.begin_load_more_comments(), Some(2));
    page.finish_load_more_comments(None);
    assert_eq!(page.comment_page, 1);
    assert_eq!(page.begin_load_more_comments(), Some(2));
    page.finish_load_more_comments(Some(CommentData { page: None, replies: Some(vec![]), hots: None }));
    assert!(!page.has_more_comments);
    assert_eq!(page.begin_load_more_comments(), None);
    assert!(matches!(page.handle_input(Key::Tab), Some(AppAction::NoOp)));
    assert_eq!(page.focus, DetailFocus::Related);
    assert!(matches!(page.handle_input(Key::Enter), Some(AppAction::OpenVideoDetail(b, 9)) if b == "BV9"));
    assert!(matches!(page.handle_input(Key::Esc), Some(AppAction::BackToList)));
}

#[test]
fn video_detail_comment_input() {
    let mut page = VideoDetailPage::new("BV1".to_string(), 42);
    page.handle_input(Key::Char('c'));
    assert!(page.input_mode);
    page.handle_input(Key::Char('h'));
    page.handle_input(Key::Char('i'));
    let sent = page.handle_input(Key::Enter);
    assert!(matches!(sent, Some(AppAction::AddComment { oid: 42, comment_type: 1, message, root: None }) if message == "hi"));
    assert!(!page.input_mode);
}

#[test]
fn login_polls_every_two_seconds() {
    let mut page = LoginPage::new();
    assert_eq!(page.poll_due(0), None);
    page.finish_load_qrcode(Ok(QrcodeData { url: "u".to_string(), qrcode_key: "key".to_string() }));
    assert_eq!(page.poll_due(10), Some("key".to_string()));
    assert_eq!(page.poll_due(10 + 2_000_000_000), None);
    assert_eq!(page.poll_due(11 + 2_000_000_000), Some("key".to_string()));
}

#[test]
fn login_success_hands_over_credentials() {
    let mut page = LoginPage::new();
    page.finish_load_qrcode(Ok(QrcodeData { url: "u".to_string(), qrcode_key: "key".to_string() }));
    let scanned = QrcodePollResult {
        data: Some(QrcodePollData { code: 86090, refresh_token: String::new() }),
        cookies: vec![],
    };
    assert!(page.on_poll_result(Ok(scanned)).is_none());
    assert_eq!(page.poll_status, QrcodePollStatus::Scanned);
    assert_eq!(page.status_text(), ("📱 已扫描，请在手机上确认登录", StatusTone::Info));
    let done = QrcodePollResult {
        data: Some(QrcodePollData { code: 0, refresh_token: "rt".to_string() }),
        cookies: vec![
            ("SESSDATA".to_string(), "s".to_string()),
            ("bili_jct".to_string(), "j".to_string()),
            ("DedeUserID".to_string(), "u".to_string()),
        ],
    };
    match page.on_poll_result(Ok(done)) {
        Some(AppAction::LoginSuccess(c)) => {
            assert_eq!(c.sessdata, "s");
            assert_eq!(c.refresh_token, Some("rt".to_string()));
        },
        _ => panic!("expected a login"),
    }
    assert!(page.on_poll_result(Err("x".to_string())).is_none());
    assert_eq!(page.error_message, Some("轮询失败: x".to_string()));
}

#[test]
fn login_keys() {
    let keys = Keybindings::default();
    let mut page = LoginPage::new();
    assert!(matches!(page.handle_input(Key::Char('q'), &keys), Some(AppAction::Quit)));
    assert!(matches!(page.handle_input(Key::Char('r'), &keys), Some(AppAction::SwitchToLogin)));
    assert!(matches!(page.handle_input(Key::Char('x'), &keys), Some(AppAction::NoOp)));
}

#[test]
fn settings_sections_cycle() {
    let keys = Keybindings::default();
    let mut page = SettingsPage::new(Keybindings::default(), 1);
    assert_eq!(page.current_section, SettingsSection::Theme);
    assert_eq!(page.selected_theme_index, 1);
    page.handle_input(Key::Char('l'), &keys);
    assert_eq!(page.current_section, SettingsSection::Keybindings);
    page.handle_input(Key::Char('l'), &keys);
    page.handle_input(Key::Char('l'), &keys);
    assert_eq!(page.current_section, SettingsSection::Theme);
    page.handle_input(Key::Char('h'), &keys);
    assert_eq!(page.current_section, SettingsSection::Account);
    assert!(matches!(page.handle_input(Key::Enter, &keys), Some(AppAction::Logout)));
    let labels: Vec<&str> = SettingsSection::all().iter().map(|s| s.label()).collect();
    assert_eq!(labels, vec!["🎨 主题", "⌨️ 快捷键", "👤 账户"]);
}

#[test]
fn settings_theme_choice() {
    let keys = Keybindings::default();
    let mut page = SettingsPage::new(Keybindings::default(), 9);
    assert_eq!(page.selected_theme_index, 0);
    for _ in 0..5 {
        page.handle_input(Key::Char('j'), &keys);
    }
    assert_eq!(page.selected_theme_index, 3);
    assert!(matches!(page.handle_input(Key::Enter, &keys), Some(AppAction::SetTheme(3))));
    assert_eq!(page.current_theme_index, 3);
    assert!(matches!(page.handle_input(Key::Tab, &keys), Some(AppAction::NavNext)));
    assert!(matches!(page.handle_input(Key::BackTab, &keys), Some(AppAction::NavPrev)));
    assert!(matches!(page.handle_input(Key::Esc, &keys), Some(AppAction::BackToList)));
    assert!(matches!(page.handle_input(Key::Char('q'), &keys), Some(AppAction::Quit)));
}

#[test]
fn settings_rebinds_a_key() {
    let keys = Keybindings::default();
    let mut page = SettingsPage::new(Keybindings::default(), 0);
    page.handle_input(Key::Char('l'), &keys);
    page.handle_input(Key::Char('j'), &keys);
    assert_eq!(page.selected_keybind_index, 1);
    assert!(matches!(page.handle_input(Key::Enter, &keys), Some(AppAction::NoOp)));
    assert!(page.editing_keybind);
    match page.handle_input(Key::Char('y'), &keys) {
        Some(AppAction::SaveKeybindings(k)) => assert_eq!(k.confirm, "y"),
        _ => panic!("expected new bindings"),
    }
    assert!(!page.editing_keybind);
    assert_eq!(page.keybindings.confirm, "y");
    let labels = page.keybind_labels();
    assert_eq!(labels.len(), 11);
    assert_eq!(labels[1], ("确认", "y".to_string()));
    assert_eq!(labels[0], ("退出", "q".to_string()));
}

#[test]
fn card_grid_moves() {
    let mut grid = VideoCardGrid::new();
    for i in 0..7 {
        grid.add_card(VideoCard::new(
            Some(format!("BV{}", i)),
            Some(i),
            "t".to_string(),
            "a".to_string(),
            "v".to_string(),
            "d".to_string(),
            Some("c".to_string()),
        ));
    }
    assert!(grid.move_down());
    assert!(grid.move_down());
    assert!(!grid.move_down());
    assert_eq!(grid.selected_index, 6);
    assert!(grid.move_up());
    assert!(grid.move_left());
    assert!(grid.move_right());
    assert_eq!(grid.selected_index, 3);
    assert_eq!(grid.selected_card().map(|c| c.aid), Some(Some(3)));
    let wanted = grid.covers_to_download();
    assert_eq!(wanted.len(), 7);
    assert!(grid.covers_to_download().is_empty());
    assert!(grid.apply_cover(2));
    assert!(grid.cards[2].has_cover);
    grid.clear();
    assert!(grid.cards.is_empty());
    assert_eq!(grid.selected_index, 0);
}

#[test]
fn shell_counts_and_switches() {
    let mut shell = Shell::new();
    shell.handle_input(Key::Char('j'));
    shell.handle_input(Key::Char('j'));
    assert_eq!(shell.current_page, ShellPage::Counter(bilibili_tui::ui::CounterPage { counter: 2 }));
    shell.handle_input(Key::Tab);
    shell.handle_input(Key::Char(' '));
    assert_eq!(shell.current_page, ShellPage::Switch(bilibili_tui::ui::SwitchPage { is_active: true }));
    shell.handle_input(Key::Tab);
    assert_eq!(shell.current_page, ShellPage::Counter(bilibili_tui::ui::CounterPage { counter: 0 }));
    assert!(!shell.should_quit);
    shell.handle_input(Key::Char('q'));
    assert!(shell.should_quit);
    shell.handle_input(Key::Char('x'));
    assert!(shell.should_quit);
}

#[test]
fn pages_start_empty_by_default() {
    let home = HomePage::default();
    assert!(home.loading && home.videos.is_empty());
    let search = SearchPage::default();
    assert!(search.input_mode && search.query.is_empty());
    let feed = DynamicPage::default();
    assert!(feed.loading && feed.grid.cards.is_empty());
    let login = LoginPage::default();
    assert_eq!(login.poll_status, QrcodePollStatus::Waiting);
    assert!(bilibili_tui::api::client::ApiClient::default().cookie_header().is_none());
}

#[test]
fn video_detail_tab_twice_restores_the_page() {
    let mut page = VideoDetailPage::new("BV1".to_string(), 42);
    page.related_scroll = 3;
    page.comment_scroll = 0;
    assert!(matches!(page.handle_input(Key::Tab), Some(AppAction::NoOp)));
    assert_eq!(page.focus, DetailFocus::Related);
    assert_eq!(page.related_scroll, 3);
    assert!(matches!(page.handle_input(Key::Tab), Some(AppAction::NoOp)));
    assert_eq!(page.focus, DetailFocus::Comments);
    assert_eq!(page.related_scroll, 3);
    page.handle_input(Key::Down);
    assert_eq!(page.related_scroll, 3);
}

#[test]
fn search_results_block_is_taken_as_given() {
    let mut page = loaded_search(9);
    let results = Area { x: 10, y: 20, width: 60, height: 30 };
    let click = Mouse { kind: MouseKind::LeftDown, column: 10 + 45, row: 22 };
    assert!(page.handle_mouse_at(click, results, 0).is_none());
    assert_eq!(page.grid.selected_index, 2);
}
