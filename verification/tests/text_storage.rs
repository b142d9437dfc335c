use bilibili_tui::storage::{
    get_config_dir, get_config_path, get_cookies_path, get_credentials_path, ytdlp_cookie_file_content, AppConfig,
    Credentials, Keybindings, KEYBINDING_COUNT,
};
use bilibili_tui::text::{i32_to_decimal, i64_to_decimal, join_path, str_eq, truncate_str, u64_to_decimal};
use bilibili_tui::theme::{theme_name, theme_position, THEME_COUNT};
use bilibili_tui::ui::Key;

fn pairs(list: &[(&str, &str)]) -> Vec<(String, String)> {
    list.iter().map(|(n, v)| (n.to_string(), v.to_string())).collect()
}

#[test]
fn truncate_keeps_short_text() {
    assert_eq!(truncate_str("hello", 10), "hello");
    assert_eq!(truncate_str("hello", 5), "hello");
    assert_eq!(truncate_str("", 0), "");
}

#[test]
fn truncate_cuts_long_text_with_dots() {
    assert_eq!(truncate_str("hello world", 8), "hello...");
    assert_eq!(truncate_str("abcdef", 3), "...");
    assert_eq!(truncate_str("abcdef", 1), "...");
    // counted in characters, not bytes
    assert_eq!(truncate_str("哔哩哔哩弹幕网站", 6), "哔哩哔...");
}

#[test]
fn truncated_length_fits_when_room_for_dots() {
    let text = "the quick brown fox jumps over the lazy dog";
    for max in 3..50 {
        let t = truncate_str(text, max);
        assert!(t.chars().count() <= max);
    }
}

#[test]
fn decimals_render_like_to_string() {
    assert_eq!(u64_to_decimal(0), "0");
    assert_eq!(u64_to_decimal(1234567890), "1234567890");
    assert_eq!(u64_to_decimal(u64::MAX), u64::MAX.to_string());
    assert_eq!(i64_to_decimal(-42), "-42");
    assert_eq!(i64_to_decimal(i64::MIN), i64::MIN.to_string());
    assert_eq!(i32_to_decimal(i32::MAX), i32::MAX.to_string());
    assert_eq!(i32_to_decimal(-7), "-7");
}

#[test]
fn paths_join_with_one_separator() {
    assert_eq!(join_path("/home/u/.config", "bilibili-tui"), "/home/u/.config/bilibili-tui");
    assert_eq!(join_path("/home/u/.config/", "bilibili-tui"), "/home/u/.config/bilibili-tui");
    assert_eq!(join_path("", "x"), "x");
}

#[test]
fn strings_compare_by_characters() {
    assert!(str_eq("SESSDATA", "SESSDATA"));
    assert!(!str_eq("SESSDATA", "SESSDATa"));
    assert!(!str_eq("a", "ab"));
}

#[test]
fn application_files_live_in_its_directory() {
    let dir = get_config_dir("/home/u/.config");
    assert_eq!(dir, "/home/u/.config/bilibili-tui");
    assert_eq!(get_credentials_path(&dir), "/home/u/.config/bilibili-tui/credentials.json");
    assert_eq!(get_config_path(&dir), "/home/u/.config/bilibili-tui/config.json");
    assert_eq!(get_cookies_path(&dir), "/home/u/.config/bilibili-tui/cookies.txt");
}

#[test]
fn credentials_from_complete_cookies() {
    let cookies = pairs(&[
        ("buvid3", "xyz"),
        ("SESSDATA", "sess%2C1"),
        ("bili_jct", "csrf"),
        ("DedeUserID", "12345"),
        ("DedeUserID__ckMd5", "md5v"),
    ]);
    let c = Credentials::from_cookies(&cookies, Some("refresh".to_string())).expect("complete cookies");
    assert_eq!(c.sessdata, "sess%2C1");
    assert_eq!(c.bili_jct, "csrf");
    assert_eq!(c.dede_user_id, "12345");
    assert_eq!(c.dede_user_id_ckmd5, Some("md5v".to_string()));
    assert_eq!(c.refresh_token, Some("refresh".to_string()));
}

#[test]
fn credentials_need_the_three_cookies() {
    let missing_jct = pairs(&[("SESSDATA", "s"), ("DedeUserID", "1")]);
    assert!(Credentials::from_cookies(&missing_jct, None).is_none());
    let missing_sess = pairs(&[("bili_jct", "j"), ("DedeUserID", "1")]);
    assert!(Credentials::from_cookies(&missing_sess, None).is_none());
    let missing_uid = pairs(&[("SESSDATA", "s"), ("bili_jct", "j")]);
    assert!(Credentials::from_cookies(&missing_uid, None).is_none());
    assert!(Credentials::from_cookies(&[], None).is_none());
    let without_md5 = pairs(&[("SESSDATA", "s"), ("bili_jct", "j"), ("DedeUserID", "1")]);
    let c = Credentials::from_cookies(&without_md5, None).unwrap();
    assert_eq!(c.dede_user_id_ckmd5, None);
    assert_eq!(c.refresh_token, None);
}

#[test]
fn credentials_take_the_last_cookie_of_a_name() {
    let cookies = pairs(&[
        ("SESSDATA", "old"),
        ("bili_jct", "j"),
        ("DedeUserID", "1"),
        ("SESSDATA", "new"),
    ]);
    let c = Credentials::from_cookies(&cookies, None).unwrap();
    assert_eq!(c.sessdata, "new");
}

#[test]
fn credential_cookies_read_back() {
    let cookies = pairs(&[("other", "x"), ("SESSDATA", "s1"), ("bili_jct", "j1"), ("DedeUserID", "u1")]);
    let c = Credentials::from_cookies(&cookies, None).unwrap();
    assert_eq!((c.sessdata.as_str(), c.bili_jct.as_str(), c.dede_user_id.as_str()), ("s1", "j1", "u1"));
}

#[test]
fn default_keybindings() {
    let k = Keybindings::default();
    assert_eq!(k.quit, "q");
    assert_eq!(k.nav_up, "k");
    assert_eq!(k.nav_down, "j");
    assert_eq!(k.nav_left, "h");
    assert_eq!(k.nav_right, "l");
    assert_eq!(k.confirm, "Enter");
    assert_eq!(k.back, "Esc");
    assert_eq!(k.next_theme, "t");
    assert_eq!(k.play, "p");
    assert_eq!(k.refresh, "r");
    assert_eq!(k.open_settings, "s");
    let all = [
        &k.quit, &k.nav_up, &k.nav_down, &k.nav_left, &k.nav_right, &k.confirm, &k.back, &k.next_theme, &k.play,
        &k.refresh, &k.open_settings,
    ];
    for i in 0..all.len() {
        for j in 0..i {
            assert_ne!(all[i], all[j]);
        }
    }
}

#[test]
fn default_config() {
    let c = AppConfig::default();
    assert_eq!(c.theme, "CatppuccinMocha");
    assert_eq!(c.keybindings.quit, "q");
}

#[test]
fn keybindings_copy_is_equal() {
    let mut k = Keybindings::default();
    k.play = "x".to_string();
    let d = k.duplicate();
    assert_eq!(d.play, "x");
    assert_eq!(d.confirm, "Enter");
}

#[test]
fn key_names_are_binding_strings() {
    assert_eq!(Keybindings::keycode_to_string(Key::Char('x')), "x");
    assert_eq!(Keybindings::keycode_to_string(Key::Enter), "Enter");
    assert_eq!(Keybindings::keycode_to_string(Key::Esc), "Esc");
    assert_eq!(Keybindings::keycode_to_string(Key::BackTab), "BackTab");
    assert_eq!(Keybindings::keycode_to_string(Key::Other), "");
    assert!(Key::Char('q').matches("q"));
    assert!(Key::Esc.matches("Esc"));
    assert!(!Key::Other.matches(""));
    assert!(!Key::Char('q').matches("Q"));
}

#[test]
fn rebinding_by_position() {
    let mut k = Keybindings::default();
    k.update_by_index(0, "x".to_string());
    assert_eq!(k.quit, "x");
    k.update_by_index(4, "w".to_string());
    assert_eq!(k.nav_up, "w");
    k.update_by_index(10, "o".to_string());
    assert_eq!(k.open_settings, "o");
    k.update_by_index(KEYBINDING_COUNT, "z".to_string());
    assert_eq!(k.quit, "x");
    assert_eq!(k.confirm, "Enter");
    assert_eq!(k.open_settings, "o");
}

#[test]
fn cookie_file_for_ytdlp() {
    let c = Credentials {
        sessdata: "S".to_string(),
        bili_jct: "J".to_string(),
        dede_user_id: "U".to_string(),
        dede_user_id_ckmd5: None,
        refresh_token: None,
    };
    assert_eq!(
        ytdlp_cookie_file_content(&c),
        "# Netscape HTTP Cookie File\n\
         .bilibili.com\tTRUE\t/\tTRUE\t0\tSESSDATA\tS\n\
         .bilibili.com\tTRUE\t/\tFALSE\t0\tbili_jct\tJ\n\
         .bilibili.com\tTRUE\t/\tFALSE\t0\tDedeUserID\tU\n"
    );
}

#[test]
fn rebound_keys_match_their_binding() {
    let keys = [Key::Char('x'), Key::Enter, Key::Esc, Key::Tab, Key::BackTab, Key::Backspace, Key::Up, Key::Down, Key::Left, Key::Right];
    for k in keys {
        let binding = Keybindings::keycode_to_string(k);
        for other in keys {
            assert_eq!(other.matches(&binding), other == k);
        }
    }
    let none = Keybindings::keycode_to_string(Key::Other);
    for other in keys {
        assert!(!other.matches(&none));
    }
    assert!(!Key::Other.matches(&none));
}

#[test]
fn unrelated_cookies_and_order_do_not_matter() {
    let base = pairs(&[("SESSDATA", "s"), ("bili_jct", "j"), ("DedeUserID", "u"), ("DedeUserID__ckMd5", "m")]);
    let extra = pairs(&[("buvid3", "b"), ("sid", "x")]);
    let fields = |c: Option<Credentials>| {
        c.map(|c| (c.sessdata, c.bili_jct, c.dede_user_id, c.dede_user_id_ckmd5))
    };
    let expected = fields(Credentials::from_cookies(&base, None));
    let mut after = base.clone();
    after.extend(extra.clone());
    let mut before = extra.clone();
    before.extend(base.clone());
    let mut reversed = base.clone();
    reversed.reverse();
    assert_eq!(fields(Credentials::from_cookies(&after, None)), expected);
    assert_eq!(fields(Credentials::from_cookies(&before, None)), expected);
    assert_eq!(fields(Credentials::from_cookies(&reversed, None)), expected);
}

#[test]
fn themes_by_name_and_position() {
    for i in 0..THEME_COUNT {
        assert_eq!(theme_position(theme_name(i)), i);
    }
    assert_eq!(theme_name(0), "CatppuccinMocha");
    assert_eq!(theme_position("NoSuchTheme"), 0);
}
