//! The pages of the interface: their state and how they react to input.

pub mod grid;
pub mod dynamic;
pub mod home;
pub mod login;
pub mod search;
pub mod settings;
pub mod video_card;
pub mod video_detail;


use vstd::prelude::*;
use crate::text::str_eq;

verus! {

/// A key press, as the pages see it.
#[derive(Debug, PartialEq, Eq, Structural, Clone, Copy)]
pub enum Key {
    Char(char),
    Enter,
    Esc,
    Tab,
    BackTab,
    Backspace,
    Up,
    Down,
    Left,
    Right,
    Other,
}


/// What a mouse event was, as the pages see it.
#[derive(Debug, PartialEq, Eq, Structural, Clone, Copy)]
pub enum MouseKind {
    ScrollDown,
    ScrollUp,
    LeftDown,
    Other,
}

/// A mouse event at the cell in column `column`, row `row`.
#[derive(Debug, PartialEq, Eq, Structural, Clone, Copy)]
pub struct Mouse {
    pub kind: MouseKind,
    pub column: u16,
    pub row: u16,
}

/// The number of the last page asked for, once the answer to the request
/// for page `page` came: it stays when the page is `kept`, and otherwise
/// goes back by one, so that the same page is asked for again.
pub open spec fn page_after_answer(page: int, kept: bool) -> int {
    if kept { page } else { page - 1 }
}

/// The name of a key as keybindings write it: the character itself, or
/// the key's name; other keys have no name.
pub open spec fn key_name(key: Key) -> Seq<char> {
    match key {
        Key::Char(c) => seq![c],
        Key::Enter => "Enter"@,
        Key::Esc => "Esc"@,
        Key::Tab => "Tab"@,
        Key::BackTab => "BackTab"@,
        Key::Backspace => "Backspace"@,
        Key::Up => "Up"@,
        Key::Down => "Down"@,
        Key::Left => "Left"@,
        Key::Right => "Right"@,
        Key::Other => Seq::empty(),
    }
}

/// Whether `key` is the key a binding names.
pub open spec fn key_matches(binding: Seq<char>, key: Key) -> bool {
    key != Key::Other && key_name(key) == binding
}

/// A binding set to the name of a key (as rebinding does) is matched by
/// that key, and by no other key; a key without a name cannot be bound.
pub proof fn lemma_rebound_key_matches(key: Key, other: Key)
    ensures
        key != Key::Other ==> key_matches(key_name(key), key),
        key_matches(key_name(key), other) ==> other == key,
        !key_matches(key_name(Key::Other), other),
{
    reveal_strlit("Enter");
    reveal_strlit("Esc");
    reveal_strlit("Tab");
    reveal_strlit("BackTab");
    reveal_strlit("Backspace");
    reveal_strlit("Up");
    reveal_strlit("Down");
    reveal_strlit("Left");
    reveal_strlit("Right");
    if other != Key::Other {
        assert(key_name(other).len() > 0);
    }
    // the names of two different keys differ in length or in one of their
    // first three characters
    if key_matches(key_name(key), other) {
        if key_name(key).len() != key_name(other).len() {
        } else if key_name(key)[0] != key_name(other)[0] {
        } else if key_name(key).len() > 1 && key_name(key)[1] != key_name(other)[1] {
        } else if key_name(key).len() > 2 && key_name(key)[2] != key_name(other)[2] {
        }
    }
}

impl Key {
    /// Whether this key is the one `binding` names.
    pub fn matches(&self, binding: &str) -> (r: bool)
        ensures
            r == key_matches(binding@, *self),
    {
        match self {
            Key::Char(c) => {
                if binding.unicode_len() == 1 && binding.get_char(0) == *c {
                    assert(binding@ =~= seq![*c]);
                    true
                } else {
                    false
                }
            },
            Key::Enter => str_eq(binding, "Enter"),
            Key::Esc => str_eq(binding, "Esc"),
            Key::Tab => str_eq(binding, "Tab"),
            Key::BackTab => str_eq(binding, "BackTab"),
            Key::Backspace => str_eq(binding, "Backspace"),
            Key::Up => str_eq(binding, "Up"),
            Key::Down => str_eq(binding, "Down"),
            Key::Left => str_eq(binding, "Left"),
            Key::Right => str_eq(binding, "Right"),
            Key::Other => false,
        }
    }
}

/// What a page of the two-page shell asks of it after a key.
#[derive(Debug, PartialEq, Eq, Structural, Clone, Copy)]
pub enum ShellAction {
    Quit,
    ShowSwitch,
    ShowCounter,
    NoOp,
}

/// The shell's first page: a counter.
#[derive(Debug, PartialEq, Eq, Structural, Clone, Copy)]
pub struct CounterPage {
    pub counter: i32,
}

impl CounterPage {
    /// The counter at zero.
    pub fn new() -> (r: Self)
        ensures
            r.counter == 0,
    {
        CounterPage { counter: 0 }
    }

    /// `j` counts one up, Tab asks for the switch page, `q` quits.
    pub fn handle_input(&mut self, key: Key) -> (r: Option<ShellAction>)
        requires
            key == Key::Char('j') ==> old(self).counter < i32::MAX,
        ensures
            final(self).counter == if key == Key::Char('j') { old(self).counter + 1 } else { old(self).counter as int },
            r == Some(match key {
                Key::Tab => ShellAction::ShowSwitch,
                Key::Char('q') => ShellAction::Quit,
                _ => ShellAction::NoOp,
            }),
    {
        match key {
            Key::Char('j') => {
                self.counter = self.counter + 1;
                Some(ShellAction::NoOp)
            },
            Key::Tab => Some(ShellAction::ShowSwitch),
            Key::Char('q') => Some(ShellAction::Quit),
            _ => Some(ShellAction::NoOp),
        }
    }
}

/// The shell's second page: one switch.
#[derive(Debug, PartialEq, Eq, Structural, Clone, Copy)]
pub struct SwitchPage {
    pub is_active: bool,
}

impl SwitchPage {
    /// The switch off.
    pub fn new() -> (r: Self)
        ensures
            !r.is_active,
    {
        SwitchPage { is_active: false }
    }

    /// Space flips the switch, Tab asks for the counter page, `q` quits.
    pub fn handle_input(&mut self, key: Key) -> (r: Option<ShellAction>)
        ensures
            final(self).is_active == (old(self).is_active != (key == Key::Char(' '))),
            r == Some(match key {
                Key::Tab => ShellAction::ShowCounter,
                Key::Char('q') => ShellAction::Quit,
                _ => ShellAction::NoOp,
            }),
    {
        match key {
            Key::Char(' ') => {
                self.is_active = !self.is_active;
                Some(ShellAction::NoOp)
            },
            Key::Tab => Some(ShellAction::ShowCounter),
            Key::Char('q') => Some(ShellAction::Quit),
            _ => Some(ShellAction::NoOp),
        }
    }
}

#[derive(Debug, PartialEq, Eq, Structural, Clone, Copy)]
pub enum ShellPage {
    Counter(CounterPage),
    Switch(SwitchPage),
}

/// A two-page shell: the page shown and whether to stop.
#[derive(Debug, PartialEq, Eq, Structural, Clone, Copy)]
pub struct App {
    pub current_page: ShellPage,
    pub should_quit: bool,
}

/// The shell after `key` was pressed in state `a`: the page reacts, then
/// its request is carried out. Switching to a page opens it afresh.
pub open spec fn shell_step(a: App, key: Key) -> App {
    match a.current_page {
        ShellPage::Counter(p) => match key {
            Key::Char('j') => App { current_page: ShellPage::Counter(CounterPage { counter: (p.counter + 1) as i32 }), ..a },
            Key::Tab => App { current_page: ShellPage::Switch(SwitchPage { is_active: false }), ..a },
            Key::Char('q') => App { should_quit: true, ..a },
            _ => a,
        },
        ShellPage::Switch(p) => match key {
            Key::Char(' ') => App { current_page: ShellPage::Switch(SwitchPage { is_active: !p.is_active }), ..a },
            Key::Tab => App { current_page: ShellPage::Counter(CounterPage { counter: 0 }), ..a },
            Key::Char('q') => App { should_quit: true, ..a },
            _ => a,
        },
    }
}

/// Once the shell is stopping it stays so, whatever key follows; Tab on
/// the counter page and Tab again on the switch page comes back to a fresh
/// counter page.
pub proof fn lemma_shell_steps(a: App, key: Key)
    ensures
        a.should_quit ==> shell_step(a, key).should_quit,
        a.current_page is Counter ==> shell_step(shell_step(a, Key::Tab), Key::Tab) == (App {
            current_page: ShellPage::Counter(CounterPage { counter: 0 }),
            should_quit: a.should_quit,
        }),
{
}

impl App {
    /// The shell on its counter page, with the counter at zero.
    pub fn new() -> (r: Self)
        ensures
            r == (App { current_page: ShellPage::Counter(CounterPage { counter: 0 }), should_quit: false }),
    {
        App { current_page: ShellPage::Counter(CounterPage::new()), should_quit: false }
    }

    /// Hands `key` to the page shown and carries out what it asks.
    pub fn handle_input(&mut self, key: Key)
        requires
            old(self).current_page matches ShellPage::Counter(p) ==> (key == Key::Char('j') ==> p.counter < i32::MAX),
        ensures
            *final(self) == shell_step(*old(self), key),
    {
        let action = match &mut self.current_page {
            ShellPage::Counter(page) => page.handle_input(key),
            ShellPage::Switch(page) => page.handle_input(key),
        };
        match action {
            Some(ShellAction::Quit) => self.should_quit = true,
            Some(ShellAction::ShowSwitch) => self.current_page = ShellPage::Switch(SwitchPage::new()),
            Some(ShellAction::ShowCounter) => self.current_page = ShellPage::Counter(CounterPage::new()),
            Some(ShellAction::NoOp) => {},
            None => {},
        }
    }
}

} // verus!
