//! Settings page: its sections, the theme list, the keybindings list and
//! how the page reacts to keys.

use vstd::prelude::*;
use crate::app::AppAction;
use crate::storage::{binding_views, Keybindings, KEYBINDING_COUNT};
use crate::theme::THEME_COUNT;
use crate::ui::{key_matches, key_name, Key};

verus! {

/// Settings sections
#[derive(Debug, Clone, Copy, PartialEq, Eq, Structural)]
pub enum SettingsSection {
    Theme,
    Keybindings,
    Account,
}

/// The sections in the order the page lists them.
pub open spec fn section_order() -> Seq<SettingsSection> {
    seq![SettingsSection::Theme, SettingsSection::Keybindings, SettingsSection::Account]
}

/// The label of a section.
pub open spec fn section_label(s: SettingsSection) -> Seq<char> {
    match s {
        SettingsSection::Theme => "🎨 主题"@,
        SettingsSection::Keybindings => "⌨️ 快捷键"@,
        SettingsSection::Account => "👤 账户"@,
    }
}

impl SettingsSection {
    /// Every section, in the order the page lists them.
    pub fn all() -> (r: Vec<SettingsSection>)
        ensures
            r@ == section_order(),
    {
        let mut v: Vec<SettingsSection> = Vec::new();
        v.push(SettingsSection::Theme);
        v.push(SettingsSection::Keybindings);
        v.push(SettingsSection::Account);
        assert(v@ =~= section_order());
        v
    }

    /// The label the page shows for this section.
    pub fn label(&self) -> (r: &'static str)
        ensures
            r@ == section_label(*self),
    {
        match self {
            SettingsSection::Theme => "🎨 主题",
            SettingsSection::Keybindings => "⌨️ 快捷键",
            SettingsSection::Account => "👤 账户",
        }
    }
}

/// The position of the section after the one at `i`, from the last back to
/// the first.
pub open spec fn next_section_index(i: int) -> int {
    (i + 1) % 3
}

/// The position of the section before the one at `i`, from the first back
/// to the last.
pub open spec fn prev_section_index(i: int) -> int {
    if i == 0 { 2 } else { i - 1 }
}

/// Moving to the next section and then to the previous one, or the other
/// way round, comes back to the same section; moving on three times goes
/// round the sections once.
pub proof fn lemma_section_cycle(i: int)
    requires
        0 <= i < 3,
    ensures
        prev_section_index(next_section_index(i)) == i,
        next_section_index(prev_section_index(i)) == i,
        next_section_index(next_section_index(next_section_index(i))) == i,
        0 <= next_section_index(i) < 3,
        0 <= prev_section_index(i) < 3,
{
}

/// The labels of the bindings, in the order of `binding_views`.
pub open spec fn keybind_label_texts() -> Seq<Seq<char>> {
    seq![
        "退出"@, "确认"@, "返回"@, "刷新"@, "向上"@, "向下"@, "向左"@, "向右"@, "切换主题"@, "播放"@,
        "设置"@,
    ]
}

/// The settings page. Themes are known by their position in the list of
/// the theme list.
pub struct SettingsPage {
    pub current_section: SettingsSection,
    pub selected_theme_index: usize,
    pub selected_keybind_index: usize,
    pub keybindings: Keybindings,
    pub current_theme_index: usize,
    pub section_index: usize,
    pub editing_keybind: bool,
}

/// The page with the section at position `i` shown.
pub open spec fn at_section(p: SettingsPage, i: int) -> SettingsPage {
    SettingsPage { section_index: i as usize, current_section: section_order()[i], ..p }
}

/// What a key does on the settings page while no binding is being edited,
/// with the application's bindings `keys`: the page after it and the
/// action asked for. Back returns to the list, Tab and Shift-Tab move in
/// the sidebar, left and right change the section, up and down move in the
/// section (among the themes, or the bindings), confirm picks the theme
/// selected, starts rebinding the binding selected, or logs out, and quit
/// quits.
pub open spec fn settings_step(p: SettingsPage, keys: Keybindings, key: Key) -> (SettingsPage, AppAction) {
    if key_matches(keys.back@, key) {
        (p, AppAction::BackToList)
    } else if key == Key::Tab {
        (p, AppAction::NavNext)
    } else if key == Key::BackTab {
        (p, AppAction::NavPrev)
    } else if key_matches(keys.nav_left@, key) {
        (at_section(p, prev_section_index(p.section_index as int)), AppAction::NoOp)
    } else if key_matches(keys.nav_right@, key) {
        (at_section(p, next_section_index(p.section_index as int)), AppAction::NoOp)
    } else if key_matches(keys.nav_up@, key) {
        (match p.current_section {
            SettingsSection::Theme => if p.selected_theme_index > 0 {
                SettingsPage { selected_theme_index: (p.selected_theme_index - 1) as usize, ..p }
            } else {
                p
            },
            SettingsSection::Keybindings => if p.selected_keybind_index > 0 {
                SettingsPage { selected_keybind_index: (p.selected_keybind_index - 1) as usize, ..p }
            } else {
                p
            },
            SettingsSection::Account => p,
        }, AppAction::NoOp)
    } else if key_matches(keys.nav_down@, key) {
        (match p.current_section {
            SettingsSection::Theme => if p.selected_theme_index + 1 < THEME_COUNT {
                SettingsPage { selected_theme_index: (p.selected_theme_index + 1) as usize, ..p }
            } else {
                p
            },
            SettingsSection::Keybindings => if p.selected_keybind_index + 1 < KEYBINDING_COUNT {
                SettingsPage { selected_keybind_index: (p.selected_keybind_index + 1) as usize, ..p }
            } else {
                p
            },
            SettingsSection::Account => p,
        }, AppAction::NoOp)
    } else if key_matches(keys.confirm@, key) {
        match p.current_section {
            SettingsSection::Theme => if p.selected_theme_index < THEME_COUNT {
                (
                    SettingsPage { current_theme_index: p.selected_theme_index, ..p },
                    AppAction::SetTheme(p.selected_theme_index),
                )
            } else {
                (p, AppAction::NoOp)
            },
            SettingsSection::Account => (p, AppAction::Logout),
            SettingsSection::Keybindings => (SettingsPage { editing_keybind: true, ..p }, AppAction::NoOp),
        }
    } else if key_matches(keys.quit@, key) {
        (p, AppAction::Quit)
    } else {
        (p, AppAction::NoOp)
    }
}

/// `key` is read as up on the page: it matches the up binding, and none
/// of the keys or bindings looked at before it (back, Tab, Shift-Tab, left
/// and right).
pub open spec fn read_as_up(keys: Keybindings, key: Key) -> bool {
    &&& key_matches(keys.nav_up@, key)
    &&& !key_matches(keys.back@, key)
    &&& key != Key::Tab
    &&& key != Key::BackTab
    &&& !key_matches(keys.nav_left@, key)
    &&& !key_matches(keys.nav_right@, key)
}

/// `key` is read as down on the page: it matches the down binding, and
/// none of the keys or bindings looked at before it (back, Tab, Shift-Tab,
/// left, right and up).
pub open spec fn read_as_down(keys: Keybindings, key: Key) -> bool {
    &&& key_matches(keys.nav_down@, key)
    &&& !key_matches(keys.back@, key)
    &&& key != Key::Tab
    &&& key != Key::BackTab
    &&& !key_matches(keys.nav_left@, key)
    &&& !key_matches(keys.nav_right@, key)
    &&& !key_matches(keys.nav_up@, key)
}

/// `key` is read as confirm on the page: it matches the confirm binding,
/// and none of the keys or bindings looked at before it (back, Tab,
/// Shift-Tab, left, right, up and down).
pub open spec fn read_as_confirm(keys: Keybindings, key: Key) -> bool {
    &&& key_matches(keys.confirm@, key)
    &&& !key_matches(keys.back@, key)
    &&& key != Key::Tab
    &&& key != Key::BackTab
    &&& !key_matches(keys.nav_left@, key)
    &&& !key_matches(keys.nav_right@, key)
    &&& !key_matches(keys.nav_up@, key)
    &&& !key_matches(keys.nav_down@, key)
}

impl SettingsPage {
    /// The section shown is the one at the page's section index.
    pub open spec fn wf(&self) -> bool {
        self.section_index < 3 && self.current_section == section_order()[self.section_index as int]
    }

    /// The state of the page just opened with `keybindings` while the theme
    /// at position `theme_index` is in use: that theme is selected, or the
    /// first when there is no such theme.
    pub open spec fn is_fresh(&self, keybindings: Keybindings, theme_index: usize) -> bool {
        &&& self.current_section == SettingsSection::Theme
        &&& self.section_index == 0
        &&& self.selected_theme_index == if theme_index < THEME_COUNT { theme_index } else { 0 }
        &&& self.current_theme_index == theme_index
        &&& self.selected_keybind_index == 0
        &&& self.keybindings == keybindings
        &&& !self.editing_keybind
    }

    /// The page opened on the theme section, with the theme in use selected.
    pub fn new(keybindings: Keybindings, theme_index: usize) -> (r: Self)
        ensures
            r.wf(),
            r.is_fresh(keybindings, theme_index),
    {
        let selected = if theme_index < THEME_COUNT { theme_index } else { 0 };
        SettingsPage {
            current_section: SettingsSection::Theme,
            selected_theme_index: selected,
            selected_keybind_index: 0,
            keybindings,
            current_theme_index: theme_index,
            section_index: 0,
            editing_keybind: false,
        }
    }

    /// The bindings with their labels, in the order the page lists them.
    pub fn keybind_labels(&self) -> (r: Vec<(&'static str, String)>)
        ensures
            r@.len() == KEYBINDING_COUNT,
            forall|i: int| 0 <= i < KEYBINDING_COUNT ==> {
                &&& (#[trigger] r@[i]).0@ == keybind_label_texts()[i]
                &&& r@[i].1@ == binding_views(self.keybindings)[i]
            },
    {
        let k = &self.keybindings;
        let mut v: Vec<(&'static str, String)> = Vec::new();
        v.push(("退出", k.quit.clone()));
        v.push(("确认", k.confirm.clone()));
        v.push(("返回", k.back.clone()));
        v.push(("刷新", k.refresh.clone()));
        v.push(("向上", k.nav_up.clone()));
        v.push(("向下", k.nav_down.clone()));
        v.push(("向左", k.nav_left.clone()));
        v.push(("向右", k.nav_right.clone()));
        v.push(("切换主题", k.next_theme.clone()));
        v.push(("播放", k.play.clone()));
        v.push(("设置", k.open_settings.clone()));
        v
    }

    /// Moves to the next section, from the last back to the first.
    fn next_section(&mut self)
        requires
            old(self).wf(),
        ensures
            *final(self) == at_section(*old(self), next_section_index(old(self).section_index as int)),
            final(self).wf(),
    {
        let sections = SettingsSection::all();
        self.section_index = (self.section_index + 1) % sections.len();
        self.current_section = sections[self.section_index];
    }

    /// Moves to the previous section, from the first back to the last.
    fn prev_section(&mut self)
        requires
            old(self).wf(),
        ensures
            *final(self) == at_section(*old(self), prev_section_index(old(self).section_index as int)),
            final(self).wf(),
    {
        let sections = SettingsSection::all();
        self.section_index = if self.section_index == 0 { sections.len() - 1 } else { self.section_index - 1 };
        self.current_section = sections[self.section_index];
    }

    /// What a key does to the page with the application's bindings `keys`: the page after it, and the action asked for.
    pub open spec fn key_outcome(a: Self, keys: Keybindings, key: Key, b: Self, r: Option<AppAction>) -> bool {
        &&& (a.editing_keybind ==> {
            &&& !b.editing_keybind
            &&& binding_views(b.keybindings) == if a.selected_keybind_index < KEYBINDING_COUNT {
                binding_views(a.keybindings).update(
                    a.selected_keybind_index as int,
                    key_name(key),
                )
            } else {
                binding_views(a.keybindings)
            }
            &&& r matches Some(AppAction::SaveKeybindings(k)) && binding_views(k) == binding_views(
                b.keybindings,
            )
            &&& b.current_section == a.current_section
            &&& b.section_index == a.section_index
            &&& b.selected_theme_index == a.selected_theme_index
            &&& b.selected_keybind_index == a.selected_keybind_index
            &&& b.current_theme_index == a.current_theme_index
        })
        &&& (!a.editing_keybind ==> ({
            let (p, act) = settings_step(a, keys, key);
            b == p && r == Some(act)
        }))
    }

    /// On the theme list, a key read as up (it matches the up binding and
    /// no binding looked at before it) selects the theme just above, when
    /// there is one, and changes nothing else.
    pub proof fn lemma_theme_up(a: Self, keys: Keybindings, up: Key, b: Self, r: Option<AppAction>)
        requires
            !a.editing_keybind,
            a.current_section == SettingsSection::Theme,
            read_as_up(keys, up),
            Self::key_outcome(a, keys, up, b, r),
        ensures
            b.selected_theme_index == if a.selected_theme_index > 0 {
                a.selected_theme_index - 1
            } else {
                a.selected_theme_index as int
            },
            b.current_section == a.current_section,
            b.section_index == a.section_index,
            b.current_theme_index == a.current_theme_index,
            b.selected_keybind_index == a.selected_keybind_index,
            b.keybindings == a.keybindings,
            !b.editing_keybind,
            r == Some(AppAction::NoOp),
    {
    }

    /// On the theme list, a key read as confirm puts the theme selected in
    /// use and asks for it to be applied.
    pub proof fn lemma_confirm_applies_selected_theme(a: Self, keys: Keybindings, key: Key, b: Self, r: Option<AppAction>)
        requires
            !a.editing_keybind,
            a.current_section == SettingsSection::Theme,
            a.selected_theme_index < THEME_COUNT,
            read_as_confirm(keys, key),
            Self::key_outcome(a, keys, key, b, r),
        ensures
            b.current_theme_index == a.selected_theme_index,
            b.selected_theme_index == a.selected_theme_index,
            r == Some(AppAction::SetTheme(a.selected_theme_index)),
    {
    }

    /// On the theme list, moving down and then up comes back to the page
    /// one started from, whenever there was a theme below.
    pub proof fn lemma_theme_up_undoes_down(
        a: Self,
        keys: Keybindings,
        down: Key,
        b: Self,
        r1: Option<AppAction>,
        up: Key,
        c: Self,
        r2: Option<AppAction>,
    )
        requires
            !a.editing_keybind,
            a.current_section == SettingsSection::Theme,
            a.selected_theme_index + 1 < THEME_COUNT,
            read_as_down(keys, down),
            read_as_up(keys, up),
            Self::key_outcome(a, keys, down, b, r1),
            Self::key_outcome(b, keys, up, c, r2),
        ensures
            b.selected_theme_index == a.selected_theme_index + 1,
            c == a,
            r1 == Some(AppAction::NoOp),
            r2 == Some(AppAction::NoOp),
    {
    }

    /// Reacts to a key, with the application's bindings `keys`. While a
    /// binding is being edited, the key pressed becomes that binding, and
    /// the new bindings are handed over to be stored. Otherwise the key
    /// acts as `settings_step` says. Every key yields an action.
    pub fn handle_input(&mut self, key: Key, keys: &Keybindings) -> (r: Option<AppAction>)
        requires
            old(self).wf(),
        ensures
            final(self).wf(),
            Self::key_outcome(*old(self), *keys, key, *final(self), r),
    {
        if self.editing_keybind {
            let new_key = Keybindings::keycode_to_string(key);
            self.keybindings.update_by_index(self.selected_keybind_index, new_key);
            self.editing_keybind = false;
            return Some(AppAction::SaveKeybindings(self.keybindings.duplicate()));
        }
        if key.matches(keys.back.as_str()) {
            return Some(AppAction::BackToList);
        }
        if key == Key::Tab {
            return Some(AppAction::NavNext);
        }
        if key == Key::BackTab {
            return Some(AppAction::NavPrev);
        }
        if key.matches(keys.nav_left.as_str()) {
            self.prev_section();
            return Some(AppAction::NoOp);
        }
        if key.matches(keys.nav_right.as_str()) {
            self.next_section();
            return Some(AppAction::NoOp);
        }
        if key.matches(keys.nav_up.as_str()) {
            match self.current_section {
                SettingsSection::Theme => {
                    if self.selected_theme_index > 0 {
                        self.selected_theme_index = self.selected_theme_index - 1;
                    }
                },
                SettingsSection::Keybindings => {
                    if self.selected_keybind_index > 0 {
                        self.selected_keybind_index = self.selected_keybind_index - 1;
                    }
                },
                SettingsSection::Account => {},
            }
            return Some(AppAction::NoOp);
        }
        if key.matches(keys.nav_down.as_str()) {
            match self.current_section {
                SettingsSection::Theme => {
                    let max = THEME_COUNT - 1;
                    if self.selected_theme_index < max {
                        self.selected_theme_index = self.selected_theme_index + 1;
                    }
                },
                SettingsSection::Keybindings => {
                    let max = KEYBINDING_COUNT - 1;
                    if self.selected_keybind_index < max {
                        self.selected_keybind_index = self.selected_keybind_index + 1;
                    }
                },
                SettingsSection::Account => {},
            }
            return Some(AppAction::NoOp);
        }
        if key.matches(keys.confirm.as_str()) {
            match self.current_section {
                SettingsSection::Theme => {
                    if self.selected_theme_index < THEME_COUNT {
                        let selected = self.selected_theme_index;
                        self.current_theme_index = selected;
                        return Some(AppAction::SetTheme(selected));
                    }
                },
                SettingsSection::Account => {
                    return Some(AppAction::Logout);
                },
                SettingsSection::Keybindings => {
                    self.editing_keybind = true;
                },
            }
            return Some(AppAction::NoOp);
        }
        if key.matches(keys.quit.as_str()) {
            return Some(AppAction::Quit);
        }
        Some(AppAction::NoOp)
    }
}


} // verus!
