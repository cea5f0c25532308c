//! What a key press does on each screen.
use vstd::prelude::*;

use crate::app::{App, Screen};

verus! {

/// A key, as the screens tell keys apart.
#[derive(Debug, Clone, Copy, PartialEq, Eq, Structural)]
pub enum Key {
    Char(char),
    Tab,
    BackTab,
    Enter,
    Backspace,
    Esc,
    Up,
    Down,
    Left,
    Right,
    Other,
}

/// A key press with the modifiers the screens look at.
#[derive(Debug, Clone, Copy, PartialEq, Eq, Structural)]
pub struct KeyPress {
    pub key: Key,
    pub ctrl: bool,
    pub shift: bool,
}

/// What a key does on the login screen.
#[derive(Debug, Clone, Copy, PartialEq, Eq, Structural)]
pub enum LoginAction {
    Quit,
    NextField,
    PrevField,
    Submit,
    DeleteChar,
    InsertChar(char),
    Ignore,
}

/// The login screen's key map: Ctrl+Q, Ctrl+C and Esc quit; Tab moves to the
/// next field and Shift+Tab (or BackTab) to the previous one; Enter logs in;
/// Backspace deletes the last character; any other character is typed.
pub open spec fn login_action_of(k: KeyPress) -> LoginAction {
    match k.key {
        Key::Char(c) => if (c == 'q' || c == 'c') && k.ctrl {
            LoginAction::Quit
        } else {
            LoginAction::InsertChar(c)
        },
        Key::Tab => if k.shift {
            LoginAction::PrevField
        } else {
            LoginAction::NextField
        },
        Key::BackTab => LoginAction::PrevField,
        Key::Enter => LoginAction::Submit,
        Key::Backspace => LoginAction::DeleteChar,
        Key::Esc => LoginAction::Quit,
        _ => LoginAction::Ignore,
    }
}

/// What a key does on the login screen.
pub fn login_action(k: KeyPress) -> (res: LoginAction)
    ensures
        res == login_action_of(k),
{
    match k.key {
        Key::Char(c) => {
            if (c == 'q' || c == 'c') && k.ctrl {
                LoginAction::Quit
            } else {
                LoginAction::InsertChar(c)
            }
        },
        Key::Tab => {
            if k.shift {
                LoginAction::PrevField
            } else {
                LoginAction::NextField
            }
        },
        Key::BackTab => LoginAction::PrevField,
        Key::Enter => LoginAction::Submit,
        Key::Backspace => LoginAction::DeleteChar,
        Key::Esc => LoginAction::Quit,
        _ => LoginAction::Ignore,
    }
}

/// What a key does on the home and library screens.
#[derive(Debug, Clone, Copy, PartialEq, Eq, Structural)]
pub enum BrowserAction {
    Quit,
    MoveUp,
    MoveDown,
    MoveLeft,
    MoveRight,
    Select,
    Back,
    Refresh,
    OpenSearch,
    ToggleDownloads,
    QueueDownload,
    Ignore,
}

/// The browser's key map: q and Ctrl+C quit; arrows or h/j/k/l move; Enter
/// opens or plays; Esc and Backspace go back; r refreshes; '/' and s open the
/// search; d shows the downloads; D queues a download.
pub open spec fn browser_action_of(k: KeyPress) -> BrowserAction {
    match k.key {
        Key::Char(c) => if c == 'q' {
            BrowserAction::Quit
        } else if c == 'c' && k.ctrl {
            BrowserAction::Quit
        } else if c == 'k' {
            BrowserAction::MoveUp
        } else if c == 'j' {
            BrowserAction::MoveDown
        } else if c == 'h' {
            BrowserAction::MoveLeft
        } else if c == 'l' {
            BrowserAction::MoveRight
        } else if c == 'r' {
            BrowserAction::Refresh
        } else if c == '/' || c == 's' {
            BrowserAction::OpenSearch
        } else if c == 'd' {
            BrowserAction::ToggleDownloads
        } else if c == 'D' {
            BrowserAction::QueueDownload
        } else {
            BrowserAction::Ignore
        },
        Key::Up => BrowserAction::MoveUp,
        Key::Down => BrowserAction::MoveDown,
        Key::Left => BrowserAction::MoveLeft,
        Key::Right => BrowserAction::MoveRight,
        Key::Enter => BrowserAction::Select,
        Key::Esc | Key::Backspace => BrowserAction::Back,
        _ => BrowserAction::Ignore,
    }
}

/// What a key does on the home and library screens.
pub fn browser_action(k: KeyPress) -> (res: BrowserAction)
    ensures
        res == browser_action_of(k),
{
    match k.key {
        Key::Char(c) => {
            if c == 'q' {
                BrowserAction::Quit
            } else if c == 'c' && k.ctrl {
                BrowserAction::Quit
            } else if c == 'k' {
                BrowserAction::MoveUp
            } else if c == 'j' {
                BrowserAction::MoveDown
            } else if c == 'h' {
                BrowserAction::MoveLeft
            } else if c == 'l' {
                BrowserAction::MoveRight
            } else if c == 'r' {
                BrowserAction::Refresh
            } else if c == '/' || c == 's' {
                BrowserAction::OpenSearch
            } else if c == 'd' {
                BrowserAction::ToggleDownloads
            } else if c == 'D' {
                BrowserAction::QueueDownload
            } else {
                BrowserAction::Ignore
            }
        },
        Key::Up => BrowserAction::MoveUp,
        Key::Down => BrowserAction::MoveDown,
        Key::Left => BrowserAction::MoveLeft,
        Key::Right => BrowserAction::MoveRight,
        Key::Enter => BrowserAction::Select,
        Key::Esc | Key::Backspace => BrowserAction::Back,
        _ => BrowserAction::Ignore,
    }
}

/// What a key does on the search screen.
#[derive(Debug, Clone, Copy, PartialEq, Eq, Structural)]
pub enum SearchAction {
    Close,
    Quit,
    MoveUp,
    MoveDown,
    MoveLeft,
    MoveRight,
    Select,
    DeleteChar,
    QueueDownload,
    InsertChar(char),
    Ignore,
}

/// The search screen's key map: Esc closes the search; Ctrl+C quits; arrows
/// move; Enter opens or plays; Backspace deletes the last character and
/// searches again; Shift+D queues a download; other characters are typed and
/// searched for.
pub open spec fn search_action_of(k: KeyPress) -> SearchAction {
    match k.key {
        Key::Esc => SearchAction::Close,
        Key::Char(c) => if c == 'c' && k.ctrl {
            SearchAction::Quit
        } else if c == 'D' && k.shift {
            SearchAction::QueueDownload
        } else {
            SearchAction::InsertChar(c)
        },
        Key::Up => SearchAction::MoveUp,
        Key::Down => SearchAction::MoveDown,
        Key::Left => SearchAction::MoveLeft,
        Key::Right => SearchAction::MoveRight,
        Key::Enter => SearchAction::Select,
        Key::Backspace => SearchAction::DeleteChar,
        _ => SearchAction::Ignore,
    }
}

/// What a key does on the search screen.
pub fn search_action(k: KeyPress) -> (res: SearchAction)
    ensures
        res == search_action_of(k),
{
    match k.key {
        Key::Esc => SearchAction::Close,
        Key::Char(c) => {
            if c == 'c' && k.ctrl {
                SearchAction::Quit
            } else if c == 'D' && k.shift {
                SearchAction::QueueDownload
            } else {
                SearchAction::InsertChar(c)
            }
        },
        Key::Up => SearchAction::MoveUp,
        Key::Down => SearchAction::MoveDown,
        Key::Left => SearchAction::MoveLeft,
        Key::Right => SearchAction::MoveRight,
        Key::Enter => SearchAction::Select,
        Key::Backspace => SearchAction::DeleteChar,
        _ => SearchAction::Ignore,
    }
}

/// The focused login field's text after an edit.
pub open spec fn edited(text: Seq<char>, action: LoginAction) -> Seq<char> {
    match action {
        LoginAction::DeleteChar => if text.len() > 0 {
            text.drop_last()
        } else {
            text
        },
        LoginAction::InsertChar(c) => text.push(c),
        _ => text,
    }
}

/// The state after a login-screen action other than submitting.
pub open spec fn after_login_action(a: App, action: LoginAction) -> App {
    match action {
        LoginAction::Quit => App { running: false, ..a },
        LoginAction::NextField => App { login_field: a.login_field.spec_next(), ..a },
        LoginAction::PrevField => App { login_field: a.login_field.spec_prev(), ..a },
        _ => a,
    }
}

impl App {
    /// Carries out a login-screen action: quitting, moving the focus, or
    /// editing the focused field. Answers true for `Submit`: the caller then
    /// attempts the log-in.
    pub fn apply_login_action(&mut self, action: LoginAction) -> (res: bool)
        ensures
            res == (action == LoginAction::Submit),
            (action is DeleteChar || action is InsertChar) ==> {
                &&& final(self).focused_input()@ == edited(old(self).focused_input()@, action)
                &&& *final(self) == (match old(self).login_field {
                    crate::app::LoginField::ServerUrl => App {
                        server_url_input: final(self).server_url_input,
                        ..*old(self)
                    },
                    crate::app::LoginField::Username => App {
                        username_input: final(self).username_input,
                        ..*old(self)
                    },
                    crate::app::LoginField::Password => App {
                        password_input: final(self).password_input,
                        ..*old(self)
                    },
                })
            },
            !(action is DeleteChar || action is InsertChar) ==> *final(self) == after_login_action(
                *old(self),
                action,
            ),
    {
        match action {
            LoginAction::Quit => {
                self.quit();
                false
            },
            LoginAction::NextField => {
                self.login_field = self.login_field.next();
                false
            },
            LoginAction::PrevField => {
                self.login_field = self.login_field.prev();
                false
            },
            LoginAction::Submit => true,
            LoginAction::DeleteChar => {
                let input = self.current_input_mut();
                let _ = input.pop();
                false
            },
            LoginAction::InsertChar(c) => {
                let input = self.current_input_mut();
                input.push(c);
                false
            },
            LoginAction::Ignore => false,
        }
    }

    /// Carries out a search-screen edit: Backspace deletes the query's last
    /// character, a character is appended. Answers true when the query was
    /// edited, after which the caller searches again; other actions change
    /// nothing.
    pub fn edit_search_query(&mut self, action: SearchAction) -> (res: bool)
        ensures
            res == (action is DeleteChar || action is InsertChar),
            action is DeleteChar ==> final(self).search_query@ == (if old(self).search_query@.len() > 0 {
                old(self).search_query@.drop_last()
            } else {
                old(self).search_query@
            }),
            action matches SearchAction::InsertChar(c) ==> final(self).search_query@ == old(
                self,
            ).search_query@.push(c),
            *final(self) == (App { search_query: final(self).search_query, ..*old(self) }),
            !res ==> *final(self) == *old(self),
    {
        match action {
            SearchAction::DeleteChar => {
                let _ = self.search_query.pop();
                true
            },
            SearchAction::InsertChar(c) => {
                self.search_query.push(c);
                true
            },
            _ => false,
        }
    }
}

/// What the refresh key reloads.
#[derive(Debug)]
pub enum RefreshTarget {
    Home,
    Folder { parent_id: String },
    Nothing,
}

impl App {
    /// What the refresh key reloads: the home screen, or in the library the
    /// opened folder (nothing when none is open); nothing elsewhere.
    pub fn refresh_target(&self) -> (res: RefreshTarget)
        ensures
            self.screen == Screen::Home ==> res is Home,
            self.screen == Screen::Library && self.nav_stack@.len() > 0 ==> res == (RefreshTarget::Folder {
                parent_id: self.nav_stack@.last().parent_id,
            }),
            (self.screen == Screen::Library && self.nav_stack@.len() == 0) || self.screen
                == Screen::Login || self.screen == Screen::Search ==> res is Nothing,
    {
        match self.screen {
            Screen::Home => RefreshTarget::Home,
            Screen::Library => {
                let n = self.nav_stack.len();
                if n > 0 {
                    RefreshTarget::Folder { parent_id: self.nav_stack[n - 1].parent_id.clone() }
                } else {
                    RefreshTarget::Nothing
                }
            },
            _ => RefreshTarget::Nothing,
        }
    }
}

} // verus!
