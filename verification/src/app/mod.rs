//! Application-level navigation: which page is shown, where "back" leads,
//! which page the sidebar opens, and what each action asks the application
//! to fetch, store or play.

mod action;

pub use action::AppAction;

use vstd::prelude::*;
use crate::api::client::{ApiClient, cookie_header_for};
use crate::layout::{search_results_block, sidebar_page_column, split_off_sidebar, Area};
use crate::theme::{next_theme_index, theme_name, theme_names, theme_position, theme_position_of, THEME_COUNT};
use crate::ui::{Key, Mouse};
use crate::storage::{binding_views, AppConfig, Credentials, Keybindings, same_bindings};
use crate::ui::dynamic::DynamicPage;
use crate::ui::home::HomePage;
use crate::ui::login::LoginPage;
use crate::ui::search::SearchPage;
use crate::ui::settings::SettingsPage;
use crate::ui::video_detail::VideoDetailPage;

verus! {

/// The page shown.
pub enum Page {
    Login(LoginPage),
    Home(HomePage),
    Search(SearchPage),
    Dynamic(DynamicPage),
    DynamicDetail,
    VideoDetail(VideoDetailPage),
    History,
    Live,
    LiveDetail,
    Settings(SettingsPage),
}

/// Previous page for back navigation
#[derive(Debug, Clone, Copy, PartialEq, Eq, Structural)]
pub enum PreviousPage {
    Home,
    Search,
    Dynamic,
    History,
    Live,
}

/// The entries of the sidebar, in the order the sidebar cycles through
/// them.
#[derive(Debug, Clone, Copy, PartialEq, Eq, Structural)]
pub enum NavItem {
    Home,
    Search,
    Dynamic,
    History,
    Settings,
    Live,
}

/// The entry after `n` in the sidebar, from the last back to the first.
pub open spec fn nav_after(n: NavItem) -> NavItem {
    match n {
        NavItem::Home => NavItem::Search,
        NavItem::Search => NavItem::Dynamic,
        NavItem::Dynamic => NavItem::History,
        NavItem::History => NavItem::Settings,
        NavItem::Settings => NavItem::Live,
        NavItem::Live => NavItem::Home,
    }
}

/// The entry before `n` in the sidebar, from the first back to the last.
pub open spec fn nav_before(n: NavItem) -> NavItem {
    match n {
        NavItem::Home => NavItem::Live,
        NavItem::Search => NavItem::Home,
        NavItem::Dynamic => NavItem::Search,
        NavItem::History => NavItem::Dynamic,
        NavItem::Settings => NavItem::History,
        NavItem::Live => NavItem::Settings,
    }
}

/// Moving to the next sidebar entry and back, or back and on, returns to
/// the same entry; moving on six times goes round the sidebar once.
pub proof fn lemma_nav_cycle(n: NavItem)
    ensures
        nav_before(nav_after(n)) == n,
        nav_after(nav_before(n)) == n,
        nav_after(nav_after(nav_after(nav_after(nav_after(nav_after(n)))))) == n,
        nav_after(n) != n,
{
}

impl NavItem {
    /// The entry after this one, from the last back to the first.
    pub fn next(&self) -> (r: NavItem)
        ensures
            r == nav_after(*self),
    {
        match self {
            NavItem::Home => NavItem::Search,
            NavItem::Search => NavItem::Dynamic,
            NavItem::Dynamic => NavItem::History,
            NavItem::History => NavItem::Settings,
            NavItem::Settings => NavItem::Live,
            NavItem::Live => NavItem::Home,
        }
    }

    /// The entry before this one, from the first back to the last.
    pub fn prev(&self) -> (r: NavItem)
        ensures
            r == nav_before(*self),
    {
        match self {
            NavItem::Home => NavItem::Live,
            NavItem::Search => NavItem::Home,
            NavItem::Dynamic => NavItem::Search,
            NavItem::History => NavItem::Dynamic,
            NavItem::Settings => NavItem::History,
            NavItem::Live => NavItem::Settings,
        }
    }
}

/// The page "back" returns to from page `p`, for the pages that are lists.
pub open spec fn previous_of(p: Page) -> Option<PreviousPage> {
    match p {
        Page::Home(_) => Some(PreviousPage::Home),
        Page::Search(_) => Some(PreviousPage::Search),
        Page::Dynamic(_) => Some(PreviousPage::Dynamic),
        Page::History => Some(PreviousPage::History),
        Page::Live => Some(PreviousPage::Live),
        _ => None,
    }
}

/// Whether a page takes the whole screen, without the sidebar.
pub open spec fn is_full_screen(p: Page) -> bool {
    p is Login || p is VideoDetail || p is DynamicDetail
}

/// Scroll wheel events that make one step: many wheels send several events
/// per notch.
pub const SCROLL_THRESHOLD: i32 = 15;

/// Counts scroll wheel events, in both directions, until a step is made.
pub struct ScrollAccumulator {
    pub count: i32,
}

impl ScrollAccumulator {
    pub open spec fn wf(&self) -> bool {
        -SCROLL_THRESHOLD < self.count < SCROLL_THRESHOLD
    }

    /// A counter with no event counted.
    pub fn new() -> (r: Self)
        ensures
            r.wf(),
            r.count == 0,
    {
        ScrollAccumulator { count: 0 }
    }

    /// Counts a downward event; tells whether it completes a step, in which
    /// case the count starts over.
    pub fn scroll_down(&mut self) -> (r: bool)
        requires
            old(self).wf(),
        ensures
            final(self).wf(),
            r == (old(self).count + 1 >= SCROLL_THRESHOLD),
            final(self).count == if r { 0 } else { old(self).count + 1 },
    {
        self.count = self.count + 1;
        if self.count >= SCROLL_THRESHOLD {
            self.count = 0;
            true
        } else {
            false
        }
    }

    /// Counts an upward event; tells whether it completes a step, in which
    /// case the count starts over.
    pub fn scroll_up(&mut self) -> (r: bool)
        requires
            old(self).wf(),
        ensures
            final(self).wf(),
            r == (old(self).count - 1 <= -SCROLL_THRESHOLD),
            final(self).count == if r { 0 } else { old(self).count - 1 },
    {
        self.count = self.count - 1;
        if self.count <= -SCROLL_THRESHOLD {
            self.count = 0;
            true
        } else {
            false
        }
    }
}

/// What an action asks the application to store.
#[derive(Debug, Clone, Copy, PartialEq, Eq, Structural)]
pub enum Persist {
    Nothing,
    /// Write the application's credentials to disk.
    SaveCredentials,
    /// Remove the stored credentials.
    DeleteCredentials,
    /// Write the application's configuration to disk.
    SaveConfig,
}

/// What an action asks the application to fetch, send or play.
pub enum Request {
    Nothing,
    /// The first load of the page now shown.
    InitPage,
    /// The first result page of a search.
    Search { keyword: String },
    /// A fresh followed-uploaders feed.
    RefreshDynamic,
    /// The details, comments and related videos of the video page shown.
    LoadVideoDetail,
    /// A further recommendation page.
    MoreRecommendations { fresh_idx: i32 },
    /// A further search result page.
    MoreSearchResults { keyword: String, page: i32 },
    /// A further feed page.
    MoreDynamic { offset: Option<String> },
    /// A further comment page.
    MoreComments { oid: i64, page: i32 },
    /// The replies of a comment.
    Replies { oid: i64, rpid: i64 },
    /// Like (or unlike) a comment.
    LikeComment { oid: i64, rpid: i64, comment_type: i32, like: bool },
    /// Post a comment.
    AddComment { oid: i64, comment_type: i32, message: String, root: Option<i64> },
    /// Play a video known by its BV id only.
    PlayVideo { bvid: String },
    /// Play an episode and report the progress.
    PlayEpisode { bvid: String, aid: i64, cid: i64, duration: i64 },
}

/// Main application state
pub struct App {
    pub current_page: Page,
    pub should_quit: bool,
    pub api_client: ApiClient,
    pub credentials: Option<Credentials>,
    pub selected_nav: NavItem,
    pub show_sidebar: bool,
    pub previous_page: Option<PreviousPage>,
    pub theme_index: usize,
    pub config: AppConfig,
    pub keybindings: Keybindings,
    /// Cached home page to avoid refresh when switching tabs
    pub cached_home: Option<HomePage>,
}

/// The shape each kind of page keeps.
pub open spec fn page_wf(p: Page) -> bool {
    match p {
        Page::Home(h) => h.wf(),
        Page::Search(s) => s.wf(),
        Page::Dynamic(d) => d.wf(),
        Page::VideoDetail(v) => v.wf(),
        Page::Settings(s) => s.wf(),
        _ => true,
    }
}

impl App {
    /// The page shown, and the home page kept aside, have their shape.
    pub open spec fn wf(&self) -> bool {
        &&& page_wf(self.current_page)
        &&& (self.cached_home matches Some(h) ==> h.wf())
    }
}

impl App {
    /// The application started with the stored credentials and
    /// configuration, if they could be read. With credentials the requests
    /// carry them and the home page opens; without, the login page opens. A
    /// missing configuration is the default one; the theme in use is the
    /// configured one, the first theme when its name is unknown.
    pub fn new(credentials: Option<Credentials>, config: Option<AppConfig>) -> (r: Self)
        ensures
            match credentials {
                Some(c) => {
                    &&& r.current_page is Home
                    &&& r.api_client@.cookies == Some(cookie_header_for(c.sessdata@, c.bili_jct@, c.dede_user_id@))
                },
                None => r.current_page is Login && r.api_client@.cookies is None,
            },
            r.api_client@.wbi_keys is None,
            r.credentials == credentials,
            !r.should_quit,
            r.selected_nav == NavItem::Home,
            r.show_sidebar,
            r.previous_page is None,
            r.theme_index == theme_position_of(r.config.theme@),
            r.cached_home is None,
            match config {
                Some(c) => r.config == c,
                None => r.config.theme@ == "CatppuccinMocha"@,
            },
            same_bindings(r.keybindings, r.config.keybindings),
            cookies_match_credentials(r),
            r.wf(),
    {
        let api_client = match &credentials {
            Some(creds) => ApiClient::with_cookies(creds),
            None => ApiClient::new(),
        };
        let config = match config {
            Some(c) => c,
            None => AppConfig::default(),
        };
        let keybindings = config.keybindings.duplicate();
        let theme_index = theme_position(config.theme.as_str());
        let current_page = match &credentials {
            Some(_) => Page::Home(HomePage::new()),
            None => Page::Login(LoginPage::new()),
        };
        App {
            current_page,
            should_quit: false,
            api_client,
            credentials,
            selected_nav: NavItem::Home,
            show_sidebar: true,
            previous_page: None,
            theme_index,
            config,
            keybindings,
            cached_home: None,
        }
    }

    /// Remembers the page shown, when it is a list, as the page "back"
    /// returns to; any other page leaves nothing to return to.
    pub fn save_previous_page(&mut self)
        ensures
            final(self).previous_page == previous_of(old(self).current_page),
            same_frame(*old(self), *final(self)),
            final(self).current_page == old(self).current_page,
            final(self).selected_nav == old(self).selected_nav,
            final(self).cached_home == old(self).cached_home,
    {
        self.previous_page = match &self.current_page {
            Page::Home(_) => Some(PreviousPage::Home),
            Page::Search(_) => Some(PreviousPage::Search),
            Page::Dynamic(_) => Some(PreviousPage::Dynamic),
            Page::History => Some(PreviousPage::History),
            Page::Live => Some(PreviousPage::Live),
            _ => None,
        };
    }

    /// The area of the screen the page gets: all of it for full-screen
    /// pages or without the sidebar, else the column next to the sidebar.
    pub fn get_content_area(&self, area: Area) -> (r: Area)
        ensures
            r == if is_full_screen(self.current_page) || !self.show_sidebar {
                area
            } else {
                sidebar_page_column(area)
            },
    {
        match &self.current_page {
            Page::Login(_) | Page::VideoDetail(_) | Page::DynamicDetail => {
                return area;
            },
            _ => {},
        }
        if self.show_sidebar {
            split_off_sidebar(area)
        } else {
            area
        }
    }
}


/// The parts of the application that navigation leaves alone.
pub open spec fn same_frame(a: App, b: App) -> bool {
    &&& b.should_quit == a.should_quit
    &&& b.api_client == a.api_client
    &&& b.credentials == a.credentials
    &&& b.show_sidebar == a.show_sidebar
    &&& b.theme_index == a.theme_index
    &&& b.config == a.config
    &&& b.keybindings == a.keybindings
}

/// `b` shows the home page again after navigation from a state whose
/// cached home page is `cached`: the cached page, which is no longer
/// cached, or, without one, a fresh page that must load.
pub open spec fn home_reopened(cached: Option<HomePage>, b: App, r: Request) -> bool {
    &&& b.cached_home is None
    &&& match cached {
        Some(h) => b.current_page == Page::Home(h) && r is Nothing,
        None => (b.current_page matches Page::Home(p) && p.is_fresh()) && r is InitPage,
    }
}

/// The home page cached when leaving the home page `p` for a page other
/// than home.
pub open spec fn cache_when_leaving(p: Page, cached: Option<HomePage>) -> Option<HomePage> {
    match p {
        Page::Home(h) => Some(h),
        _ => cached,
    }
}

/// `b` shows what sidebar entry `nav` opens, coming from page `cur` with
/// `cached` as the cached home page: a page already of that kind stays;
/// home comes back as `home_reopened` says; settings open on the
/// application's bindings and theme; the other entries open a fresh page
/// that must load.
pub open spec fn nav_opened(a: App, nav: NavItem, cur: Page, cached: Option<HomePage>, b: App, r: Request) -> bool {
    match nav {
        NavItem::Home => if cur is Home {
            b.current_page == cur && b.cached_home == cached && r is Nothing
        } else {
            home_reopened(cached, b, r)
        },
        NavItem::Search => b.cached_home == cached && if cur is Search {
            b.current_page == cur && r is Nothing
        } else {
            (b.current_page matches Page::Search(p) && p.is_fresh()) && r is InitPage
        },
        NavItem::Dynamic => b.cached_home == cached && if cur is Dynamic {
            b.current_page == cur && r is Nothing
        } else {
            (b.current_page matches Page::Dynamic(p) && p.is_fresh()) && r is InitPage
        },
        NavItem::History => b.cached_home == cached && if cur is History {
            b.current_page == cur && r is Nothing
        } else {
            b.current_page is History && r is InitPage
        },
        NavItem::Live => b.cached_home == cached && if cur is Live {
            b.current_page == cur && r is Nothing
        } else {
            b.current_page is Live && r is InitPage
        },
        NavItem::Settings => b.cached_home == cached && r is Nothing && if cur is Settings {
            b.current_page == cur
        } else {
            b.current_page matches Page::Settings(p) && settings_opened(a, p)
        },
    }
}

/// A settings page opened on the application's bindings and theme.
pub open spec fn settings_opened(a: App, p: SettingsPage) -> bool {
    &&& p.wf()
    &&& p.current_section == crate::ui::settings::SettingsSection::Theme
    &&& p.section_index == 0
    &&& p.selected_theme_index == if a.theme_index < THEME_COUNT { a.theme_index } else { 0 }
    &&& p.current_theme_index == a.theme_index
    &&& p.selected_keybind_index == 0
    &&& same_bindings(p.keybindings, a.keybindings)
    &&& !p.editing_keybind
}

impl App {
    /// Shows the home page: the cached one if any, else a fresh one that
    /// must load.
    fn open_home(&mut self) -> (r: Request)
        requires
            old(self).wf(),
        ensures
            final(self).wf(),
            same_frame(*old(self), *final(self)),
            final(self).selected_nav == old(self).selected_nav,
            final(self).previous_page == old(self).previous_page,
            home_reopened(old(self).cached_home, *final(self), r),
    {
        match self.cached_home.take() {
            Some(cached) => {
                self.current_page = Page::Home(cached);
                Request::Nothing
            },
            None => {
                self.current_page = Page::Home(HomePage::new());
                Request::InitPage
            },
        }
    }

    fn open_settings(&mut self)
        requires
            old(self).cached_home matches Some(h) ==> h.wf(),
        ensures
            final(self).wf(),
            same_frame(*old(self), *final(self)),
            final(self).selected_nav == old(self).selected_nav,
            final(self).previous_page == old(self).previous_page,
            final(self).cached_home == old(self).cached_home,
            final(self).current_page matches Page::Settings(p) && settings_opened(*old(self), p),
    {
        let page = SettingsPage::new(self.keybindings.duplicate(), self.theme_index);
        self.current_page = Page::Settings(page);
    }

    /// Shows the page of the sidebar entry selected. Leaving the home page
    /// for another entry caches it. Returns whether the new page must load.
    pub fn switch_to_nav_page(&mut self) -> (r: Request)
        requires
            old(self).wf(),
        ensures
            final(self).wf(),
            same_frame(*old(self), *final(self)),
            final(self).selected_nav == old(self).selected_nav,
            final(self).previous_page == old(self).previous_page,
            nav_opened(
                *old(self),
                old(self).selected_nav,
                old(self).current_page,
                if old(self).selected_nav != NavItem::Home {
                    cache_when_leaving(old(self).current_page, old(self).cached_home)
                } else {
                    old(self).cached_home
                },
                *final(self),
                r,
            ),
    {
        let leaving_home = match &self.current_page {
            Page::Home(_) => true,
            _ => false,
        };
        if leaving_home && self.selected_nav != NavItem::Home {
            let mut page = Page::Home(HomePage::new());
            std::mem::swap(&mut self.current_page, &mut page);
            match page {
                Page::Home(home_page) => {
                    self.cached_home = Some(home_page);
                },
                _ => {},
            }
            // the page shown is now a placeholder home page: whatever entry
            // is selected replaces it below
            match self.selected_nav {
                NavItem::Search => {
                    self.current_page = Page::Search(SearchPage::new());
                    return Request::InitPage;
                },
                NavItem::Dynamic => {
                    self.current_page = Page::Dynamic(DynamicPage::new());
                    return Request::InitPage;
                },
                NavItem::History => {
                    self.current_page = Page::History;
                    return Request::InitPage;
                },
                NavItem::Settings => {
                    self.open_settings();
                    return Request::Nothing;
                },
                NavItem::Live => {
                    self.current_page = Page::Live;
                    return Request::InitPage;
                },
                NavItem::Home => {
                    return Request::Nothing;
                },
            }
        }
        match self.selected_nav {
            NavItem::Home => {
                if leaving_home {
                    Request::Nothing
                } else {
                    self.open_home()
                }
            },
            NavItem::Search => match &self.current_page {
                Page::Search(_) => Request::Nothing,
                _ => {
                    self.current_page = Page::Search(SearchPage::new());
                    Request::InitPage
                },
            },
            NavItem::Dynamic => match &self.current_page {
                Page::Dynamic(_) => Request::Nothing,
                _ => {
                    self.current_page = Page::Dynamic(DynamicPage::new());
                    Request::InitPage
                },
            },
            NavItem::History => match &self.current_page {
                Page::History => Request::Nothing,
                _ => {
                    self.current_page = Page::History;
                    Request::InitPage
                },
            },
            NavItem::Settings => match &self.current_page {
                Page::Settings(_) => Request::Nothing,
                _ => {
                    self.open_settings();
                    Request::Nothing
                },
            },
            NavItem::Live => match &self.current_page {
                Page::Live => Request::Nothing,
                _ => {
                    self.current_page = Page::Live;
                    Request::InitPage
                },
            },
        }
    }
}


/// `b` uses the theme at position `index`, whose name the configuration
/// now holds, and the configuration is to be stored; nothing else changed.
pub open spec fn theme_switched(a: App, index: int, b: App, r: (Persist, Request)) -> bool {
    &&& b.theme_index == index
    &&& b.config.theme@ == theme_names()[index]
    &&& b.config.keybindings == a.config.keybindings
    &&& b == (App { theme_index: b.theme_index, config: b.config, ..a })
    &&& r == (Persist::SaveConfig, Request::Nothing)
}

impl App {
    /// Uses the theme at position `index` and writes its name into the
    /// configuration, which is then to be stored.
    fn switch_theme(&mut self, index: usize) -> (r: (Persist, Request))
        requires
            index < THEME_COUNT,
        ensures
            theme_switched(*old(self), index as int, *final(self), r),
    {
        self.theme_index = index;
        self.config.theme = String::from_str(theme_name(index));
        (Persist::SaveConfig, Request::Nothing)
    }
}

/// What handling `action` in state `a` leads to: the state `b` and what
/// the application must store and fetch, `r`.
pub open spec fn action_outcome(a: App, action: AppAction, b: App, r: (Persist, Request)) -> bool {
    let same_nav = b.selected_nav == a.selected_nav && b.previous_page == a.previous_page;
    match action {
        AppAction::Quit => b == (App { should_quit: true, ..a }) && r == (Persist::Nothing, Request::Nothing),
        AppAction::SwitchToHome => {
            &&& same_frame(a, b)
            &&& b.selected_nav == NavItem::Home
            &&& b.previous_page == a.previous_page
            &&& home_reopened(a.cached_home, b, r.1)
            &&& r.0 == Persist::Nothing
        },
        AppAction::SwitchToLogin => {
            &&& same_frame(a, b)
            &&& same_nav
            &&& b.cached_home == a.cached_home
            &&& b.current_page matches Page::Login(p) && p.is_fresh()
            &&& r == (Persist::Nothing, Request::InitPage)
        },
        AppAction::SwitchToSettings => {
            &&& same_frame(a, b)
            &&& b.selected_nav == NavItem::Settings
            &&& b.previous_page == a.previous_page
            &&& b.cached_home == a.cached_home
            &&& b.current_page matches Page::Settings(p) && settings_opened(a, p)
            &&& r == (Persist::Nothing, Request::Nothing)
        },
        AppAction::LoginSuccess(c) => {
            &&& b.credentials == Some(c)
            &&& b.api_client@.cookies == Some(cookie_header_for(c.sessdata@, c.bili_jct@, c.dede_user_id@))
            &&& b.api_client@.wbi_keys == a.api_client@.wbi_keys
            &&& b.current_page matches Page::Home(p) && p.is_fresh()
            &&& same_nav
            &&& b.cached_home == a.cached_home
            &&& b.should_quit == a.should_quit
            &&& b.show_sidebar == a.show_sidebar
            &&& b.theme_index == a.theme_index
            &&& b.config == a.config
            &&& b.keybindings == a.keybindings
            &&& r == (Persist::SaveCredentials, Request::InitPage)
        },
        AppAction::PlayVideo(bvid) => b == a && r == (Persist::Nothing, Request::PlayVideo { bvid }),
        AppAction::PlayEpisode { bvid, aid, cid, duration } => b == a && r == (
            Persist::Nothing,
            Request::PlayEpisode { bvid, aid, cid, duration },
        ),
        AppAction::NavNext | AppAction::NavPrev => if a.current_page is VideoDetail {
            b == a && r == (Persist::Nothing, Request::Nothing)
        } else {
            let nav = if action is NavNext { nav_after(a.selected_nav) } else { nav_before(a.selected_nav) };
            &&& same_frame(a, b)
            &&& b.selected_nav == nav
            &&& b.previous_page == a.previous_page
            &&& nav_opened(
                a,
                nav,
                a.current_page,
                if nav != NavItem::Home { cache_when_leaving(a.current_page, a.cached_home) } else { a.cached_home },
                b,
                r.1,
            )
            &&& r.0 == Persist::Nothing
        },
        AppAction::Search(keyword) => b == a && r == (
            Persist::Nothing,
            if a.current_page is Search { Request::Search { keyword } } else { Request::Nothing },
        ),
        AppAction::RefreshDynamic | AppAction::SelectUpMaster(_) => b == a && r == (
            Persist::Nothing,
            if a.current_page is Dynamic { Request::RefreshDynamic } else { Request::Nothing },
        ),
        AppAction::OpenVideoDetail(bvid, aid) => {
            &&& same_frame(a, b)
            &&& b.selected_nav == a.selected_nav
            &&& b.previous_page == previous_of(a.current_page)
            &&& b.cached_home == cache_when_leaving(a.current_page, a.cached_home)
            &&& b.current_page matches Page::VideoDetail(p) && p.wf() && p.is_fresh(bvid, aid)
            &&& r == (Persist::Nothing, Request::LoadVideoDetail)
        },
        AppAction::BackToList => {
            &&& same_frame(a, b)
            &&& b.previous_page is None
            &&& r.0 == Persist::Nothing
            &&& match a.previous_page {
                Some(PreviousPage::Search) => b.selected_nav == NavItem::Search && b.cached_home == a.cached_home
                    && (b.current_page matches Page::Search(p) && p.is_fresh()) && r.1 is InitPage,
                Some(PreviousPage::Dynamic) => b.selected_nav == NavItem::Dynamic && b.cached_home == a.cached_home
                    && (b.current_page matches Page::Dynamic(p) && p.is_fresh()) && r.1 is InitPage,
                Some(PreviousPage::History) => b.selected_nav == NavItem::History && b.cached_home == a.cached_home
                    && b.current_page is History && r.1 is InitPage,
                Some(PreviousPage::Live) => b.selected_nav == NavItem::Live && b.cached_home == a.cached_home
                    && b.current_page is Live && r.1 is InitPage,
                _ => b.selected_nav == NavItem::Home && home_reopened(a.cached_home, b, r.1),
            }
        },
        AppAction::LoadMoreRecommendations => match a.current_page {
            Page::Home(p) => {
                let started = if !p.loading_more { Some((p.fresh_idx + 1) as i32) } else { None };
                &&& b == (App { current_page: b.current_page, ..a })
                &&& b.current_page matches Page::Home(q) && HomePage::load_more_started(p, q, started)
                &&& r == (Persist::Nothing, match started {
                    Some(i) => Request::MoreRecommendations { fresh_idx: i },
                    None => Request::Nothing,
                })
            },
            _ => b == a && r == (Persist::Nothing, Request::Nothing),
        },
        AppAction::LoadMoreSearch => match a.current_page {
            Page::Search(p) => {
                let started = if p.may_load_more() { Some((p.query, (p.page + 1) as i32)) } else { None };
                &&& b == (App { current_page: b.current_page, ..a })
                &&& b.current_page matches Page::Search(q) && SearchPage::load_more_started(p, q, started)
                &&& r == (Persist::Nothing, match started {
                    Some((k, pg)) => Request::MoreSearchResults { keyword: k, page: pg },
                    None => Request::Nothing,
                })
            },
            _ => b == a && r == (Persist::Nothing, Request::Nothing),
        },
        AppAction::LoadMoreDynamic => match a.current_page {
            Page::Dynamic(p) => {
                let started = if !(p.loading_more || !p.has_more) { Some(p.offset) } else { None };
                &&& b == (App { current_page: b.current_page, ..a })
                &&& b.current_page matches Page::Dynamic(q) && DynamicPage::load_more_started(p, q, started)
                &&& r == (Persist::Nothing, match started {
                    Some(off) => Request::MoreDynamic { offset: off },
                    None => Request::Nothing,
                })
            },
            _ => b == a && r == (Persist::Nothing, Request::Nothing),
        },
        AppAction::LoadMoreComments => match a.current_page {
            Page::VideoDetail(p) => {
                let started = if p.has_more_comments && !p.loading_more_comments {
                    Some((p.comment_page + 1) as i32)
                } else {
                    None
                };
                &&& b == (App { current_page: b.current_page, ..a })
                &&& b.current_page matches Page::VideoDetail(q) && q.wf()
                    && VideoDetailPage::comments_more_started(p, q, started)
                &&& r == (Persist::Nothing, match started {
                    Some(pg) => Request::MoreComments { oid: p.aid, page: pg },
                    None => Request::Nothing,
                })
            },
            _ => b == a && r == (Persist::Nothing, Request::Nothing),
        },
        AppAction::ToggleCommentReplies => match a.current_page {
            Page::VideoDetail(p) => {
                &&& b == (App { current_page: b.current_page, ..a })
                &&& b.current_page matches Page::VideoDetail(q) && q.wf()
                    && VideoDetailPage::replies_toggled(p, q, p.reply_target())
                &&& r == (Persist::Nothing, match p.reply_target() {
                    Some(rpid) => Request::Replies { oid: p.aid, rpid },
                    None => Request::Nothing,
                })
            },
            _ => b == a && r == (Persist::Nothing, Request::Nothing),
        },
        AppAction::LikeComment { oid, rpid, comment_type } => b == a && r == (
            Persist::Nothing,
            match a.current_page {
                Page::VideoDetail(p) => Request::LikeComment {
                    oid,
                    rpid,
                    comment_type,
                    like: !p.liked_comments@.contains(rpid),
                },
                _ => Request::Nothing,
            },
        ),
        AppAction::AddComment { oid, comment_type, message, root } => b == a && r == (
            Persist::Nothing,
            Request::AddComment { oid, comment_type, message, root },
        ),
        AppAction::NextTheme => theme_switched(a, next_theme_index(a.theme_index as int), b, r),
        AppAction::SetTheme(index) => if index < THEME_COUNT {
            theme_switched(a, index as int, b, r)
        } else {
            b == a && r == (Persist::Nothing, Request::Nothing)
        },
        AppAction::SaveKeybindings(k) => {
            &&& same_bindings(b.keybindings, k)
            &&& b.config.keybindings == k
            &&& b.config.theme == a.config.theme
            &&& b == (App { keybindings: b.keybindings, config: b.config, ..a })
            &&& r == (Persist::SaveConfig, Request::Nothing)
        },
        AppAction::Logout => {
            &&& b.credentials is None
            &&& b.current_page matches Page::Login(p) && p.is_fresh()
            &&& same_nav
            &&& b.cached_home == a.cached_home
            &&& b.api_client == a.api_client
            &&& b.should_quit == a.should_quit
            &&& b.show_sidebar == a.show_sidebar
            &&& b.theme_index == a.theme_index
            &&& b.config == a.config
            &&& b.keybindings == a.keybindings
            &&& r == (Persist::DeleteCredentials, Request::InitPage)
        },
        AppAction::NoOp => b == a && r == (Persist::Nothing, Request::Nothing),
    }
}

/// The pages' own limits on paging, which the page numbers never reach in
/// use: a page about to fetch its next page can still count it.
pub open spec fn paging_in_range(p: Page) -> bool {
    match p {
        Page::Home(h) => !h.loading_more ==> h.fresh_idx < i32::MAX,
        Page::Search(s) => s.may_load_more() ==> s.page < i32::MAX,
        Page::VideoDetail(d) => d.wf() && (d.has_more_comments && !d.loading_more_comments ==> d.comment_page < i32::MAX),
        _ => true,
    }
}

impl App {
    /// Handles an action of a page: updates what the application shows and
    /// says what must be stored and fetched, as `action_outcome` describes.
    pub fn handle_action(&mut self, action: AppAction) -> (r: (Persist, Request))
        requires
            old(self).wf(),
            paging_in_range(old(self).current_page),
        ensures
            final(self).wf(),
            action_outcome(*old(self), action, *final(self), r),
    {
        match action {
            AppAction::Quit => {
                self.should_quit = true;
                (Persist::Nothing, Request::Nothing)
            },
            AppAction::SwitchToHome => {
                self.selected_nav = NavItem::Home;
                (Persist::Nothing, self.open_home())
            },
            AppAction::SwitchToLogin => {
                self.current_page = Page::Login(LoginPage::new());
                (Persist::Nothing, Request::InitPage)
            },
            AppAction::SwitchToSettings => {
                self.selected_nav = NavItem::Settings;
                self.open_settings();
                (Persist::Nothing, Request::Nothing)
            },
            AppAction::LoginSuccess(creds) => {
                self.api_client.set_credentials(&creds);
                self.credentials = Some(creds);
                self.current_page = Page::Home(HomePage::new());
                (Persist::SaveCredentials, Request::InitPage)
            },
            AppAction::PlayVideo(bvid) => (Persist::Nothing, Request::PlayVideo { bvid }),
            AppAction::PlayEpisode { bvid, aid, cid, duration } => (
                Persist::Nothing,
                Request::PlayEpisode { bvid, aid, cid, duration },
            ),
            AppAction::NavNext => {
                match &self.current_page {
                    Page::VideoDetail(_) => (Persist::Nothing, Request::Nothing),
                    _ => {
                        self.selected_nav = self.selected_nav.next();
                        (Persist::Nothing, self.switch_to_nav_page())
                    },
                }
            },
            AppAction::NavPrev => {
                match &self.current_page {
                    Page::VideoDetail(_) => (Persist::Nothing, Request::Nothing),
                    _ => {
                        self.selected_nav = self.selected_nav.prev();
                        (Persist::Nothing, self.switch_to_nav_page())
                    },
                }
            },
            AppAction::Search(keyword) => match &self.current_page {
                Page::Search(_) => (Persist::Nothing, Request::Search { keyword }),
                _ => (Persist::Nothing, Request::Nothing),
            },
            AppAction::RefreshDynamic | AppAction::SelectUpMaster(_) => match &self.current_page {
                Page::Dynamic(_) => (Persist::Nothing, Request::RefreshDynamic),
                _ => (Persist::Nothing, Request::Nothing),
            },
            AppAction::OpenVideoDetail(bvid, aid) => {
                self.save_previous_page();
                let mut page = Page::VideoDetail(VideoDetailPage::new(bvid, aid));
                std::mem::swap(&mut self.current_page, &mut page);
                match page {
                    Page::Home(home_page) => {
                        self.cached_home = Some(home_page);
                    },
                    _ => {},
                }
                (Persist::Nothing, Request::LoadVideoDetail)
            },
            AppAction::BackToList => {
                let previous = self.previous_page.take();
                match previous {
                    Some(PreviousPage::Search) => {
                        self.selected_nav = NavItem::Search;
                        self.current_page = Page::Search(SearchPage::new());
                        (Persist::Nothing, Request::InitPage)
                    },
                    Some(PreviousPage::Dynamic) => {
                        self.selected_nav = NavItem::Dynamic;
                        self.current_page = Page::Dynamic(DynamicPage::new());
                        (Persist::Nothing, Request::InitPage)
                    },
                    Some(PreviousPage::History) => {
                        self.selected_nav = NavItem::History;
                        self.current_page = Page::History;
                        (Persist::Nothing, Request::InitPage)
                    },
                    Some(PreviousPage::Live) => {
                        self.selected_nav = NavItem::Live;
                        self.current_page = Page::Live;
                        (Persist::Nothing, Request::InitPage)
                    },
                    _ => {
                        self.selected_nav = NavItem::Home;
                        (Persist::Nothing, self.open_home())
                    },
                }
            },
            AppAction::LoadMoreRecommendations => match &mut self.current_page {
                Page::Home(page) => match page.begin_load_more() {
                    Some(fresh_idx) => (Persist::Nothing, Request::MoreRecommendations { fresh_idx }),
                    None => (Persist::Nothing, Request::Nothing),
                },
                _ => (Persist::Nothing, Request::Nothing),
            },
            AppAction::LoadMoreSearch => match &mut self.current_page {
                Page::Search(page) => match page.begin_load_more() {
                    Some((keyword, page)) => (Persist::Nothing, Request::MoreSearchResults { keyword, page }),
                    None => (Persist::Nothing, Request::Nothing),
                },
                _ => (Persist::Nothing, Request::Nothing),
            },
            AppAction::LoadMoreDynamic => match &mut self.current_page {
                Page::Dynamic(page) => match page.begin_load_more() {
                    Some(offset) => (Persist::Nothing, Request::MoreDynamic { offset }),
                    None => (Persist::Nothing, Request::Nothing),
                },
                _ => (Persist::Nothing, Request::Nothing),
            },
            AppAction::LoadMoreComments => match &mut self.current_page {
                Page::VideoDetail(page) => {
                    let oid = page.aid;
                    match page.begin_load_more_comments() {
                        Some(pg) => (Persist::Nothing, Request::MoreComments { oid, page: pg }),
                        None => (Persist::Nothing, Request::Nothing),
                    }
                },
                _ => (Persist::Nothing, Request::Nothing),
            },
            AppAction::ToggleCommentReplies => match &mut self.current_page {
                Page::VideoDetail(page) => {
                    let oid = page.aid;
                    match page.begin_toggle_replies() {
                        Some(rpid) => (Persist::Nothing, Request::Replies { oid, rpid }),
                        None => (Persist::Nothing, Request::Nothing),
                    }
                },
                _ => (Persist::Nothing, Request::Nothing),
            },
            AppAction::LikeComment { oid, rpid, comment_type } => match &self.current_page {
                Page::VideoDetail(page) => {
                    let is_liked = page.liked_comments.contains(&rpid);
                    (Persist::Nothing, Request::LikeComment { oid, rpid, comment_type, like: !is_liked })
                },
                _ => (Persist::Nothing, Request::Nothing),
            },
            AppAction::AddComment { oid, comment_type, message, root } => (
                Persist::Nothing,
                Request::AddComment { oid, comment_type, message, root },
            ),
            AppAction::NextTheme => {
                let index = (self.theme_index % THEME_COUNT + 1) % THEME_COUNT;
                self.switch_theme(index)
            },
            AppAction::SetTheme(index) => {
                if index < THEME_COUNT {
                    self.switch_theme(index)
                } else {
                    (Persist::Nothing, Request::Nothing)
                }
            },
            AppAction::SaveKeybindings(k) => {
                self.keybindings = k.duplicate();
                self.config.keybindings = k;
                (Persist::SaveConfig, Request::Nothing)
            },
            AppAction::Logout => {
                self.credentials = None;
                self.current_page = Page::Login(LoginPage::new());
                (Persist::DeleteCredentials, Request::InitPage)
            },
            AppAction::NoOp => (Persist::Nothing, Request::Nothing),
        }
    }
}

/// `q` is a page of the same kind as `p`.
pub open spec fn same_kind(p: Page, q: Page) -> bool {
    match p {
        Page::Login(_) => q is Login,
        Page::Home(_) => q is Home,
        Page::Search(_) => q is Search,
        Page::Dynamic(_) => q is Dynamic,
        Page::DynamicDetail => q is DynamicDetail,
        Page::VideoDetail(_) => q is VideoDetail,
        Page::History => q is History,
        Page::Live => q is Live,
        Page::LiveDetail => q is LiveDetail,
        Page::Settings(_) => q is Settings,
    }
}

/// An event went to the page shown in `a`, which became the page of `mid`
/// (nothing else changed) and asked for `act`; then the application
/// handled that action, which led to `b` and `r`. An action is handled
/// only while the page's paging is in range; otherwise, as when the page
/// asked for nothing, nothing more happens.
pub open spec fn event_outcome(a: App, mid: App, act: Option<AppAction>, b: App, r: (Persist, Request)) -> bool {
    &&& mid == (App { current_page: mid.current_page, ..a })
    &&& same_kind(a.current_page, mid.current_page)
    &&& page_wf(mid.current_page)
    &&& match act {
        Some(action) => if paging_in_range(mid.current_page) {
            action_outcome(mid, action, b, r)
        } else {
            b == mid && r == (Persist::Nothing, Request::Nothing)
        },
        None => b == mid && r == (Persist::Nothing, Request::Nothing),
    }
}

/// Whether the paging of page `p` is in range.
fn paging_ok(p: &Page) -> (r: bool)
    requires
        page_wf(*p),
    ensures
        r == paging_in_range(*p),
{
    match p {
        Page::Home(h) => h.loading_more || h.fresh_idx < i32::MAX,
        Page::Search(s) => {
            let more = !s.loading_more && !s.query.as_str().is_empty() && !(s.total_results >= 0
                && s.grid.cards.len() as u64 >= s.total_results as u64);
            !more || s.page < i32::MAX
        },
        Page::VideoDetail(d) => !(d.has_more_comments && !d.loading_more_comments) || d.comment_page < i32::MAX,
        _ => true,
    }
}

/// The page shown in `a` reacted to `key` as its own `key_outcome` says
/// (with the application's bindings where it uses them), becoming the page
/// of `mid` and asking for `act`; the other pages do nothing.
pub open spec fn key_reaction(a: App, key: Key, mid: App, act: Option<AppAction>) -> bool {
    match a.current_page {
        Page::Login(p) => mid.current_page matches Page::Login(q) && LoginPage::key_outcome(
            p,
            a.keybindings,
            key,
            q,
            act,
        ),
        Page::Home(p) => mid.current_page matches Page::Home(q) && HomePage::key_outcome(p, key, q, act),
        Page::Search(p) => mid.current_page matches Page::Search(q) && SearchPage::key_outcome(p, key, q, act),
        Page::Dynamic(p) => mid.current_page matches Page::Dynamic(q) && DynamicPage::key_outcome(p, key, q, act),
        Page::VideoDetail(p) => mid.current_page matches Page::VideoDetail(q) && VideoDetailPage::key_outcome(
            p,
            key,
            q,
            act,
        ),
        Page::Settings(p) => mid.current_page matches Page::Settings(q) && SettingsPage::key_outcome(
            p,
            a.keybindings,
            key,
            q,
            act,
        ),
        _ => mid.current_page == a.current_page && act is None,
    }
}

/// The page shown in `a` reacted to the mouse event as its own
/// `mouse_outcome` says, becoming the page of `mid` and asking for `act`;
/// only the search results react to the mouse.
pub open spec fn mouse_reaction(a: App, event: Mouse, area: Area, now: u64, mid: App, act: Option<AppAction>) -> bool {
    match a.current_page {
        Page::Search(p) => if p.grid.columns <= u16::MAX {
            mid.current_page matches Page::Search(q) && exists|results: Area|
                #[trigger] search_results_block(area, results) && SearchPage::mouse_outcome(
                    p,
                    event,
                    results,
                    now,
                    q,
                    act,
                )
        } else {
            mid.current_page == a.current_page && act is None
        },
        _ => mid.current_page == a.current_page && act is None,
    }
}

impl App {
    /// Whether the paging of the page shown is in range, which handling an
    /// action asks for.
    pub fn paging_is_in_range(&self) -> (r: bool)
        requires
            self.wf(),
        ensures
            r == paging_in_range(self.current_page),
    {
        paging_ok(&self.current_page)
    }

    /// Hands a key to the page shown, with the application's bindings where
    /// the page uses them, then handles what the page asked for.
    pub fn handle_input(&mut self, key: Key) -> (r: (Persist, Request))
        requires
            old(self).wf(),
        ensures
            final(self).wf(),
            exists|mid: App, act: Option<AppAction>|
                #![trigger event_outcome(*old(self), mid, act, *final(self), r)]
                key_reaction(*old(self), key, mid, act) && event_outcome(*old(self), mid, act, *final(self), r),
    {
        let ghost a = *self;
        let action = match &mut self.current_page {
            Page::Login(page) => page.handle_input(key, &self.keybindings),
            Page::Home(page) => page.handle_input(key),
            Page::Search(page) => page.handle_input(key),
            Page::Dynamic(page) => page.handle_input(key),
            Page::VideoDetail(page) => page.handle_input(key),
            Page::Settings(page) => page.handle_input(key, &self.keybindings),
            _ => None,
        };
        let ghost mid = *self;
        let ghost act = action;
        let r = self.finish_event(Ghost(a), action);
        assert(event_outcome(a, mid, act, *self, r));
        r
    }

    /// Hands a mouse event over the page area `area`, at time `now`
    /// (nanoseconds), to the page shown, then handles what the page asked
    /// for. Only the search results react to the mouse.
    pub fn handle_mouse(&mut self, event: Mouse, area: Area, now: u64) -> (r: (Persist, Request))
        requires
            old(self).wf(),
        ensures
            final(self).wf(),
            exists|mid: App, act: Option<AppAction>|
                #![trigger event_outcome(*old(self), mid, act, *final(self), r)]
                mouse_reaction(*old(self), event, area, now, mid, act) && event_outcome(
                    *old(self),
                    mid,
                    act,
                    *final(self),
                    r,
                ),
    {
        let ghost a = *self;
        let action = match &mut self.current_page {
            Page::Search(page) => {
                if page.grid.columns <= 65535 {
                    page.handle_mouse(event, area, now)
                } else {
                    None
                }
            },
            _ => None,
        };
        let ghost mid = *self;
        let ghost act = action;
        let r = self.finish_event(Ghost(a), action);
        assert(event_outcome(a, mid, act, *self, r));
        r
    }

    fn finish_event(&mut self, Ghost(a): Ghost<App>, action: Option<AppAction>) -> (r: (Persist, Request))
        requires
            *old(self) == (App { current_page: old(self).current_page, ..a }),
            same_kind(a.current_page, old(self).current_page),
            a.wf(),
            page_wf(old(self).current_page),
        ensures
            final(self).wf(),
            event_outcome(a, *old(self), action, *final(self), r),
    {
        let ghost mid = *self;
        let r = match action {
            Some(act) => {
                if paging_ok(&self.current_page) {
                    self.handle_action(act)
                } else {
                    (Persist::Nothing, Request::Nothing)
                }
            },
            None => (Persist::Nothing, Request::Nothing),
        };
        assert(event_outcome(a, mid, action, *self, r));
        r
    }
}

/// The requests carry the cookies of the credentials the application
/// holds.
pub open spec fn cookies_match_credentials(a: App) -> bool {
    match a.credentials {
        Some(c) => a.api_client@.cookies == Some(cookie_header_for(c.sessdata@, c.bili_jct@, c.dede_user_id@)),
        None => true,
    }
}

/// Whatever action is handled, the requests keep carrying the cookies of
/// the credentials held, and only `Quit` stops the application.
pub proof fn lemma_action_keeps_session(a: App, action: AppAction, b: App, r: (Persist, Request))
    requires
        action_outcome(a, action, b, r),
    ensures
        cookies_match_credentials(a) ==> cookies_match_credentials(b),
        !(action is Quit) ==> b.should_quit == a.should_quit,
        action is Quit ==> b.should_quit,
{
}

/// Opening a video from a list and going back shows that list again: the
/// home page exactly as it was left, without loading it again; a search,
/// the feed, the history or the live page as a fresh page of that kind
/// that loads. The sidebar entry is that of the list, and what navigation
/// leaves alone stays as it was.
pub proof fn lemma_back_returns_to_list(
    a: App,
    bvid: String,
    aid: i64,
    b: App,
    r1: (Persist, Request),
    c: App,
    r2: (Persist, Request),
)
    requires
        action_outcome(a, AppAction::OpenVideoDetail(bvid, aid), b, r1),
        action_outcome(b, AppAction::BackToList, c, r2),
    ensures
        same_frame(a, c),
        c.previous_page is None,
        a.current_page matches Page::Home(h) ==> c.current_page == Page::Home(h) && r2.1 is Nothing
            && c.selected_nav == NavItem::Home && c.cached_home is None,
        a.current_page is Search ==> c.current_page is Search && c.selected_nav == NavItem::Search
            && r2.1 is InitPage,
        a.current_page is Dynamic ==> c.current_page is Dynamic && c.selected_nav == NavItem::Dynamic
            && r2.1 is InitPage,
        a.current_page is History ==> c.current_page is History && c.selected_nav == NavItem::History
            && r2.1 is InitPage,
        a.current_page is Live ==> c.current_page is Live && c.selected_nav == NavItem::Live
            && r2.1 is InitPage,
{
}

/// Once new bindings are handed over, the application uses them and its
/// configuration holds them: both give back the bindings handed over.
pub proof fn lemma_saved_bindings_in_use(a: App, k: Keybindings, b: App, r: (Persist, Request))
    requires
        action_outcome(a, AppAction::SaveKeybindings(k), b, r),
    ensures
        binding_views(b.keybindings) == binding_views(k),
        binding_views(b.config.keybindings) == binding_views(k),
        r.0 == Persist::SaveConfig,
{
    assert(binding_views(b.keybindings) =~= binding_views(k));
}

} // verus!
