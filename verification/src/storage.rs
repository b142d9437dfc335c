//! Credentials taken from the login cookies, keybindings, the application
//! configuration, and the file contents and locations under which the
//! application keeps them.

use vstd::prelude::*;
use crate::text::{join_path, joined_path, push_char, str_eq};
use crate::ui::{key_name, Key};

verus! {

/// User credentials from Bilibili login
pub struct Credentials {
    pub sessdata: String,
    pub bili_jct: String,
    pub dede_user_id: String,
    pub dede_user_id_ckmd5: Option<String>,
    pub refresh_token: Option<String>,
}

/// The view of an optional string.
pub open spec fn opt_view(o: Option<String>) -> Option<Seq<char>> {
    match o {
        Some(s) => Some(s@),
        None => None,
    }
}

/// A cookie list seen as pairs of character sequences.
pub open spec fn cookie_views(cookies: Seq<(String, String)>) -> Seq<(Seq<char>, Seq<char>)> {
    cookies.map_values(|p: (String, String)| (p.0@, p.1@))
}

/// The value of the last cookie named `name`, if any cookie has that name.
pub open spec fn last_cookie(cookies: Seq<(Seq<char>, Seq<char>)>, name: Seq<char>) -> Option<Seq<char>>
    decreases cookies.len(),
{
    if cookies.len() == 0 {
        None
    } else if cookies.last().0 == name {
        Some(cookies.last().1)
    } else {
        last_cookie(cookies.drop_last(), name)
    }
}

/// The names of the cookies the credentials are read from.
pub open spec fn credential_cookie_names() -> Seq<Seq<char>> {
    seq!["SESSDATA"@, "bili_jct"@, "DedeUserID"@, "DedeUserID__ckMd5"@]
}

/// No two cookies of the list are named `name`.
pub open spec fn named_at_most_once(cookies: Seq<(Seq<char>, Seq<char>)>, name: Seq<char>) -> bool {
    forall|i: int, j: int| 0 <= i < j < cookies.len() ==> !(#[trigger] cookies[i].0 == name && #[trigger] cookies[j].0 == name)
}

proof fn lemma_no_name_no_cookie(cookies: Seq<(Seq<char>, Seq<char>)>, name: Seq<char>)
    requires
        forall|i: int| 0 <= i < cookies.len() ==> #[trigger] cookies[i].0 != name,
    ensures
        last_cookie(cookies, name) is None,
    decreases cookies.len(),
{
    if cookies.len() > 0 {
        let init = cookies.drop_last();
        assert(forall|i: int| 0 <= i < init.len() ==> init[i] == cookies[i]);
        lemma_no_name_no_cookie(init, name);
    }
}

proof fn lemma_append_unnamed(cookies: Seq<(Seq<char>, Seq<char>)>, extra: Seq<(Seq<char>, Seq<char>)>, name: Seq<char>)
    requires
        forall|i: int| 0 <= i < extra.len() ==> #[trigger] extra[i].0 != name,
    ensures
        last_cookie(cookies + extra, name) == last_cookie(cookies, name),
    decreases extra.len(),
{
    if extra.len() == 0 {
        assert(cookies + extra =~= cookies);
    } else {
        let init = extra.drop_last();
        assert((cookies + extra).drop_last() =~= cookies + init);
        assert((cookies + extra).last() == extra[extra.len() - 1]);
        assert(forall|i: int| 0 <= i < init.len() ==> init[i] == extra[i]);
        lemma_append_unnamed(cookies, init, name);
    }
}

proof fn lemma_prepend_unnamed(extra: Seq<(Seq<char>, Seq<char>)>, cookies: Seq<(Seq<char>, Seq<char>)>, name: Seq<char>)
    requires
        forall|i: int| 0 <= i < extra.len() ==> #[trigger] extra[i].0 != name,
    ensures
        last_cookie(extra + cookies, name) == last_cookie(cookies, name),
    decreases cookies.len(),
{
    if cookies.len() == 0 {
        assert(extra + cookies =~= extra);
        lemma_no_name_no_cookie(extra, name);
    } else {
        let init = cookies.drop_last();
        assert((extra + cookies).drop_last() =~= extra + init);
        assert((extra + cookies).last() == cookies.last());
        lemma_prepend_unnamed(extra, init, name);
    }
}

/// For a name no two cookies share, the lookup gives the value of the one
/// cookie of that name, whatever the order: it depends only on which
/// cookies there are.
proof fn lemma_lookup_by_content(cookies: Seq<(Seq<char>, Seq<char>)>, name: Seq<char>)
    requires
        forall|v1: Seq<char>, v2: Seq<char>|
            cookies.to_multiset().count((name, v1)) + (if v1 != v2 { cookies.to_multiset().count((name, v2)) } else { 0 })
                <= 1,
    ensures
        forall|v: Seq<char>| (last_cookie(cookies, name) == Some(v)) <==> #[trigger] cookies.to_multiset().count((name, v)) > 0,
        last_cookie(cookies, name) is None ==> forall|v: Seq<char>| #[trigger] cookies.to_multiset().count((name, v)) == 0,
    decreases cookies.len(),
{
    broadcast use vstd::seq_lib::group_to_multiset_ensures;
    if cookies.len() > 0 {
        let init = cookies.drop_last();
        let x = cookies.last();
        assert(cookies =~= init.push(x));
        assert(cookies.to_multiset() =~= init.to_multiset().insert(x));
        assert forall|v1: Seq<char>, v2: Seq<char>|
            init.to_multiset().count((name, v1)) + (if v1 != v2 { init.to_multiset().count((name, v2)) } else { 0 }) <= 1 by {
            assert(cookies.to_multiset().count((name, v1)) + (if v1 != v2 { cookies.to_multiset().count((name, v2)) } else { 0 }) <= 1);
        }
        lemma_lookup_by_content(init, name);
        if x.0 == name {
            assert forall|v: Seq<char>| (last_cookie(cookies, name) == Some(v)) <==> #[trigger] cookies.to_multiset().count((name, v)) > 0 by {
                if v != x.1 {
                    assert(cookies.to_multiset().count((name, v)) + cookies.to_multiset().count((name, x.1)) <= 1);
                }
            }
        }
    }
}

/// Read as cookies for the credentials, the cookies give the same values
/// when cookies of other names come before or after them, and, where none
/// of the credential names occurs twice, in any order.
pub proof fn lemma_credential_lookup_ignores_others_and_order(
    cookies: Seq<(Seq<char>, Seq<char>)>,
    extra: Seq<(Seq<char>, Seq<char>)>,
    reordered: Seq<(Seq<char>, Seq<char>)>,
)
    requires
        forall|i: int, k: int|
            0 <= i < extra.len() && 0 <= k < 4 ==> #[trigger] extra[i].0 != #[trigger] credential_cookie_names()[k],
    ensures
        forall|k: int| 0 <= k < 4 ==> {
            let name = #[trigger] credential_cookie_names()[k];
            &&& last_cookie(cookies + extra, name) == last_cookie(cookies, name)
            &&& last_cookie(extra + cookies, name) == last_cookie(cookies, name)
        },
        reordered.to_multiset() == cookies.to_multiset() && (forall|k: int|
            0 <= k < 4 ==> named_at_most_once(cookies, #[trigger] credential_cookie_names()[k])) ==> forall|k: int|
            0 <= k < 4 ==> last_cookie(reordered, #[trigger] credential_cookie_names()[k]) == last_cookie(
                cookies,
                credential_cookie_names()[k],
            ),
{
    assert forall|k: int| 0 <= k < 4 implies {
        let name = #[trigger] credential_cookie_names()[k];
        &&& last_cookie(cookies + extra, name) == last_cookie(cookies, name)
        &&& last_cookie(extra + cookies, name) == last_cookie(cookies, name)
    } by {
        let name = credential_cookie_names()[k];
        assert(forall|i: int| 0 <= i < extra.len() ==> #[trigger] extra[i].0 != name);
        lemma_append_unnamed(cookies, extra, name);
        lemma_prepend_unnamed(extra, cookies, name);
    }
    if reordered.to_multiset() == cookies.to_multiset() && (forall|k: int|
        0 <= k < 4 ==> named_at_most_once(cookies, #[trigger] credential_cookie_names()[k])) {
        assert forall|k: int| 0 <= k < 4 implies last_cookie(reordered, #[trigger] credential_cookie_names()[k])
            == last_cookie(cookies, credential_cookie_names()[k]) by {
            let name = credential_cookie_names()[k];
            lemma_once_counts(cookies, name);
            lemma_lookup_by_content(cookies, name);
            lemma_lookup_by_content(reordered, name);
            match last_cookie(cookies, name) {
                Some(v) => {
                    assert(cookies.to_multiset().count((name, v)) > 0);
                },
                None => {
                    match last_cookie(reordered, name) {
                        Some(w) => {
                            assert(reordered.to_multiset().count((name, w)) > 0);
                        },
                        None => {},
                    }
                },
            }
        }
    }
}

/// A name no two cookies share is carried by at most one cookie of the
/// list's content.
proof fn lemma_once_counts(cookies: Seq<(Seq<char>, Seq<char>)>, name: Seq<char>)
    requires
        named_at_most_once(cookies, name),
    ensures
        forall|v1: Seq<char>, v2: Seq<char>|
            cookies.to_multiset().count((name, v1)) + (if v1 != v2 { cookies.to_multiset().count((name, v2)) } else { 0 })
                <= 1,
    decreases cookies.len(),
{
    broadcast use vstd::seq_lib::group_to_multiset_ensures;
    if cookies.len() > 0 {
        let init = cookies.drop_last();
        let x = cookies.last();
        assert(cookies =~= init.push(x));
        assert(cookies.to_multiset() =~= init.to_multiset().insert(x));
        assert(forall|i: int| 0 <= i < init.len() ==> init[i] == cookies[i]);
        lemma_once_counts(init, name);
        if x.0 == name {
            assert forall|v: Seq<char>| init.to_multiset().count((name, v)) == 0 by {
                if init.to_multiset().count((name, v)) > 0 {
                    assert(init.contains((name, v)));
                    let i = choose|i: int| 0 <= i < init.len() && init[i] == (name, v);
                    assert(cookies[i].0 == name && cookies[cookies.len() - 1].0 == name);
                }
            }
        }
    }
}

/// The cookies that carry a set of credentials, in the order the `Cookie`
/// header and the exported cookie file list them.
pub open spec fn credential_cookies(sessdata: Seq<char>, bili_jct: Seq<char>, uid: Seq<char>) -> Seq<(Seq<char>, Seq<char>)> {
    seq![("SESSDATA"@, sessdata), ("bili_jct"@, bili_jct), ("DedeUserID"@, uid)]
}

/// Reading the cookies that carry a set of credentials gives back those
/// credentials, also when other cookies came before them.
pub proof fn lemma_credential_cookies_read_back(
    earlier: Seq<(Seq<char>, Seq<char>)>,
    sessdata: Seq<char>,
    bili_jct: Seq<char>,
    uid: Seq<char>,
)
    ensures
        ({
            let cs = earlier + credential_cookies(sessdata, bili_jct, uid);
            &&& last_cookie(cs, "SESSDATA"@) == Some(sessdata)
            &&& last_cookie(cs, "bili_jct"@) == Some(bili_jct)
            &&& last_cookie(cs, "DedeUserID"@) == Some(uid)
        }),
{
    reveal_strlit("SESSDATA");
    reveal_strlit("bili_jct");
    reveal_strlit("DedeUserID");
    let cs = earlier + credential_cookies(sessdata, bili_jct, uid);
    assert("SESSDATA"@ != "bili_jct"@) by {
        assert("SESSDATA"@[0] != "bili_jct"@[0]);
    }
    assert("SESSDATA"@ != "DedeUserID"@) by {
        assert("SESSDATA"@.len() != "DedeUserID"@.len());
    }
    assert("bili_jct"@ != "DedeUserID"@) by {
        assert("bili_jct"@.len() != "DedeUserID"@.len());
    }
    let c2 = cs.drop_last();
    let c1 = c2.drop_last();
    assert(c2 =~= earlier + seq![("SESSDATA"@, sessdata), ("bili_jct"@, bili_jct)]);
    assert(c1 =~= earlier + seq![("SESSDATA"@, sessdata)]);
    assert(cs.last() == ("DedeUserID"@, uid));
    assert(c2.last() == ("bili_jct"@, bili_jct));
    assert(c1.last() == ("SESSDATA"@, sessdata));
    assert(last_cookie(cs, "DedeUserID"@) == Some(uid));
    assert(last_cookie(c2, "bili_jct"@) == Some(bili_jct));
    assert(last_cookie(cs, "bili_jct"@) == last_cookie(c2, "bili_jct"@));
    assert(last_cookie(c1, "SESSDATA"@) == Some(sessdata));
    assert(last_cookie(c2, "SESSDATA"@) == last_cookie(c1, "SESSDATA"@));
    assert(last_cookie(cs, "SESSDATA"@) == last_cookie(c2, "SESSDATA"@));
}


impl Credentials {
    /// Builds the credentials from the cookies set at login. A cookie that
    /// occurs more than once counts with its last value. The result is
    /// `None` exactly when one of `SESSDATA`, `bili_jct` and `DedeUserID` is
    /// missing; `DedeUserID__ckMd5` is optional.
    pub fn from_cookies(cookies: &[(String, String)], refresh_token: Option<String>) -> (r: Option<Self>)
        ensures
            ({
                let cs = cookie_views(cookies@);
                let sess = last_cookie(cs, "SESSDATA"@);
                let jct = last_cookie(cs, "bili_jct"@);
                let uid = last_cookie(cs, "DedeUserID"@);
                let md5 = last_cookie(cs, "DedeUserID__ckMd5"@);
                &&& (r is Some <==> (sess is Some && jct is Some && uid is Some))
                &&& (r matches Some(c) ==> {
                    &&& Some(c.sessdata@) == sess
                    &&& Some(c.bili_jct@) == jct
                    &&& Some(c.dede_user_id@) == uid
                    &&& opt_view(c.dede_user_id_ckmd5) == md5
                    &&& c.refresh_token == refresh_token
                })
            }),
    {
        let mut sessdata: Option<String> = None;
        let mut bili_jct: Option<String> = None;
        let mut dede_user_id: Option<String> = None;
        let mut dede_user_id_ckmd5: Option<String> = None;
        let ghost cs = cookie_views(cookies@);
        let mut i: usize = 0;
        while i < cookies.len()
            invariant
                i <= cookies@.len(),
                cs == cookie_views(cookies@),
                opt_view(sessdata) == last_cookie(cs.take(i as int), "SESSDATA"@),
                opt_view(bili_jct) == last_cookie(cs.take(i as int), "bili_jct"@),
                opt_view(dede_user_id) == last_cookie(cs.take(i as int), "DedeUserID"@),
                opt_view(dede_user_id_ckmd5) == last_cookie(cs.take(i as int), "DedeUserID__ckMd5"@),
            decreases cookies@.len() - i,
        {
            proof {
                reveal_strlit("SESSDATA");
                reveal_strlit("bili_jct");
                reveal_strlit("DedeUserID");
                reveal_strlit("DedeUserID__ckMd5");
            }
            assert("SESSDATA"@[0] != "bili_jct"@[0]);
            assert("SESSDATA"@.len() != "DedeUserID"@.len());
            assert("SESSDATA"@.len() != "DedeUserID__ckMd5"@.len());
            assert("bili_jct"@.len() != "DedeUserID"@.len());
            assert("bili_jct"@.len() != "DedeUserID__ckMd5"@.len());
            assert("DedeUserID"@.len() != "DedeUserID__ckMd5"@.len());
            let name = &cookies[i].0;
            let value = &cookies[i].1;
            assert(cs.take(i + 1).drop_last() =~= cs.take(i as int));
            assert(cs.take(i + 1).last() == (name@, value@));
            if str_eq(name.as_str(), "SESSDATA") {
                sessdata = Some(value.clone());
            } else if str_eq(name.as_str(), "bili_jct") {
                bili_jct = Some(value.clone());
            } else if str_eq(name.as_str(), "DedeUserID") {
                dede_user_id = Some(value.clone());
            } else if str_eq(name.as_str(), "DedeUserID__ckMd5") {
                dede_user_id_ckmd5 = Some(value.clone());
            }
            i = i + 1;
        }
        assert(cs.take(cookies@.len() as int) =~= cs);
        match (sessdata, bili_jct, dede_user_id) {
            (Some(sessdata), Some(bili_jct), Some(dede_user_id)) => Some(
                Credentials { sessdata, bili_jct, dede_user_id, dede_user_id_ckmd5, refresh_token },
            ),
            _ => None,
        }
    }
}


/// Keybindings configuration
pub struct Keybindings {
    pub quit: String,
    pub nav_up: String,
    pub nav_down: String,
    pub nav_left: String,
    pub nav_right: String,
    pub confirm: String,
    pub back: String,
    pub next_theme: String,
    pub play: String,
    pub refresh: String,
    pub open_settings: String,
}

/// The bindings a fresh configuration starts with.
pub open spec fn is_default_keybindings(k: Keybindings) -> bool {
    &&& k.quit@ == "q"@
    &&& k.nav_up@ == "k"@
    &&& k.nav_down@ == "j"@
    &&& k.nav_left@ == "h"@
    &&& k.nav_right@ == "l"@
    &&& k.confirm@ == "Enter"@
    &&& k.back@ == "Esc"@
    &&& k.next_theme@ == "t"@
    &&& k.play@ == "p"@
    &&& k.refresh@ == "r"@
    &&& k.open_settings@ == "s"@
}

impl Default for Keybindings {
    fn default() -> (r: Self)
        ensures
            is_default_keybindings(r),
    {
        Keybindings {
            quit: String::from_str("q"),
            nav_up: String::from_str("k"),
            nav_down: String::from_str("j"),
            nav_left: String::from_str("h"),
            nav_right: String::from_str("l"),
            confirm: String::from_str("Enter"),
            back: String::from_str("Esc"),
            next_theme: String::from_str("t"),
            play: String::from_str("p"),
            refresh: String::from_str("r"),
            open_settings: String::from_str("s"),
        }
    }
}

/// Whether two sets of bindings bind the same keys.
pub open spec fn same_bindings(a: Keybindings, b: Keybindings) -> bool {
    &&& a.quit@ == b.quit@
    &&& a.nav_up@ == b.nav_up@
    &&& a.nav_down@ == b.nav_down@
    &&& a.nav_left@ == b.nav_left@
    &&& a.nav_right@ == b.nav_right@
    &&& a.confirm@ == b.confirm@
    &&& a.back@ == b.back@
    &&& a.next_theme@ == b.next_theme@
    &&& a.play@ == b.play@
    &&& a.refresh@ == b.refresh@
    &&& a.open_settings@ == b.open_settings@
}

/// The number of bindings.
pub const KEYBINDING_COUNT: usize = 11;

/// The bindings in the order the settings page lists them: quit, confirm,
/// back, refresh, up, down, left, right, next theme, play, settings.
pub open spec fn binding_views(k: Keybindings) -> Seq<Seq<char>> {
    seq![
        k.quit@, k.confirm@, k.back@, k.refresh@, k.nav_up@, k.nav_down@, k.nav_left@, k.nav_right@,
        k.next_theme@, k.play@, k.open_settings@,
    ]
}

impl Keybindings {
    /// The binding to a key as the configuration writes it: the key's name.
    pub fn keycode_to_string(key: Key) -> (r: String)
        ensures
            r@ == key_name(key),
    {
        match key {
            Key::Char(c) => {
                let mut s = String::new();
                push_char(&mut s, c);
                s
            },
            Key::Enter => String::from_str("Enter"),
            Key::Esc => String::from_str("Esc"),
            Key::Tab => String::from_str("Tab"),
            Key::BackTab => String::from_str("BackTab"),
            Key::Backspace => String::from_str("Backspace"),
            Key::Up => String::from_str("Up"),
            Key::Down => String::from_str("Down"),
            Key::Left => String::from_str("Left"),
            Key::Right => String::from_str("Right"),
            Key::Other => String::new(),
        }
    }

    /// Rebinds the binding at position `index` of the settings page's list
    /// to `value`; a position past the list changes nothing.
    pub fn update_by_index(&mut self, index: usize, value: String)
        ensures
            binding_views(*final(self)) == if index < KEYBINDING_COUNT {
                binding_views(*old(self)).update(index as int, value@)
            } else {
                binding_views(*old(self))
            },
    {
        match index {
            0 => self.quit = value,
            1 => self.confirm = value,
            2 => self.back = value,
            3 => self.refresh = value,
            4 => self.nav_up = value,
            5 => self.nav_down = value,
            6 => self.nav_left = value,
            7 => self.nav_right = value,
            8 => self.next_theme = value,
            9 => self.play = value,
            10 => self.open_settings = value,
            _ => {},
        }
        assert(binding_views(*self) =~= if index < KEYBINDING_COUNT {
            binding_views(*old(self)).update(index as int, value@)
        } else {
            binding_views(*old(self))
        });
    }

    /// A copy of these bindings.
    pub fn duplicate(&self) -> (r: Self)
        ensures
            same_bindings(r, *self),
    {
        Keybindings {
            quit: self.quit.clone(),
            nav_up: self.nav_up.clone(),
            nav_down: self.nav_down.clone(),
            nav_left: self.nav_left.clone(),
            nav_right: self.nav_right.clone(),
            confirm: self.confirm.clone(),
            back: self.back.clone(),
            next_theme: self.next_theme.clone(),
            play: self.play.clone(),
            refresh: self.refresh.clone(),
            open_settings: self.open_settings.clone(),
        }
    }
}

/// Application configuration
pub struct AppConfig {
    pub theme: String,
    pub keybindings: Keybindings,
}

impl Default for AppConfig {
    fn default() -> (r: Self)
        ensures
            r.theme@ == "CatppuccinMocha"@,
            is_default_keybindings(r.keybindings),
    {
        AppConfig { theme: String::from_str("CatppuccinMocha"), keybindings: Keybindings::default() }
    }
}

/// The directory, under the user's configuration directory `base`, in
/// which the application keeps its files.
pub fn get_config_dir(base: &str) -> (r: String)
    ensures
        r@ == joined_path(base@, "bilibili-tui"@),
{
    join_path(base, "bilibili-tui")
}

/// The credentials file inside the application's directory `config_dir`.
pub fn get_credentials_path(config_dir: &str) -> (r: String)
    ensures
        r@ == joined_path(config_dir@, "credentials.json"@),
{
    join_path(config_dir, "credentials.json")
}

/// The configuration file inside the application's directory `config_dir`.
pub fn get_config_path(config_dir: &str) -> (r: String)
    ensures
        r@ == joined_path(config_dir@, "config.json"@),
{
    join_path(config_dir, "config.json")
}

/// The cookie file handed to yt-dlp, inside the application's directory.
pub fn get_cookies_path(config_dir: &str) -> (r: String)
    ensures
        r@ == joined_path(config_dir@, "cookies.txt"@),
{
    join_path(config_dir, "cookies.txt")
}

/// The Netscape cookie file that lets yt-dlp act as the logged-in user.
pub open spec fn netscape_cookies(sessdata: Seq<char>, bili_jct: Seq<char>, uid: Seq<char>) -> Seq<char> {
    "# Netscape HTTP Cookie File\n.bilibili.com\tTRUE\t/\tTRUE\t0\tSESSDATA\t"@ + sessdata
        + "\n.bilibili.com\tTRUE\t/\tFALSE\t0\tbili_jct\t"@ + bili_jct
        + "\n.bilibili.com\tTRUE\t/\tFALSE\t0\tDedeUserID\t"@ + uid + "\n"@
}

/// The contents of the cookie file exported for yt-dlp.
pub fn ytdlp_cookie_file_content(credentials: &Credentials) -> (r: String)
    ensures
        r@ == netscape_cookies(credentials.sessdata@, credentials.bili_jct@, credentials.dede_user_id@),
{
    let mut r = String::from_str("# Netscape HTTP Cookie File\n.bilibili.com\tTRUE\t/\tTRUE\t0\tSESSDATA\t");
    r.append(credentials.sessdata.as_str());
    r.append("\n.bilibili.com\tTRUE\t/\tFALSE\t0\tbili_jct\t");
    r.append(credentials.bili_jct.as_str());
    r.append("\n.bilibili.com\tTRUE\t/\tFALSE\t0\tDedeUserID\t");
    r.append(credentials.dede_user_id.as_str());
    r.append("\n");
    r
}

} // verus!
