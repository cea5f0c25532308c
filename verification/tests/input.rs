use jellytui::app::{App, LoginField, Screen};
use jellytui::config::Config;
use jellytui::input::{
    browser_action, login_action, search_action, BrowserAction, Key, KeyPress, LoginAction, RefreshTarget, SearchAction,
};

fn k(key: Key) -> KeyPress {
    KeyPress { key, ctrl: false, shift: false }
}

#[test]
fn login_keys() {
    assert_eq!(login_action(KeyPress { key: Key::Char('q'), ctrl: true, shift: false }), LoginAction::Quit);
    assert_eq!(login_action(k(Key::Char('q'))), LoginAction::InsertChar('q'));
    assert_eq!(login_action(k(Key::Tab)), LoginAction::NextField);
    assert_eq!(login_action(KeyPress { key: Key::Tab, ctrl: false, shift: true }), LoginAction::PrevField);
    assert_eq!(login_action(k(Key::BackTab)), LoginAction::PrevField);
    assert_eq!(login_action(k(Key::Enter)), LoginAction::Submit);
    assert_eq!(login_action(k(Key::Esc)), LoginAction::Quit);
    assert_eq!(login_action(k(Key::Up)), LoginAction::Ignore);
}

#[test]
fn login_editing() {
    let mut a = App::new(Config::empty(), None);
    a.apply_login_action(LoginAction::InsertChar('h'));
    a.apply_login_action(LoginAction::InsertChar('i'));
    assert_eq!(a.server_url_input, "hi");
    a.apply_login_action(LoginAction::NextField);
    assert_eq!(a.login_field, LoginField::Username);
    a.apply_login_action(LoginAction::InsertChar('u'));
    a.apply_login_action(LoginAction::DeleteChar);
    a.apply_login_action(LoginAction::DeleteChar);
    assert_eq!(a.username_input, "");
    assert!(a.apply_login_action(LoginAction::Submit));
    a.apply_login_action(LoginAction::Quit);
    assert!(!a.running);
}

#[test]
fn browser_keys() {
    assert_eq!(browser_action(k(Key::Char('q'))), BrowserAction::Quit);
    assert_eq!(browser_action(KeyPress { key: Key::Char('c'), ctrl: true, shift: false }), BrowserAction::Quit);
    assert_eq!(browser_action(k(Key::Char('c'))), BrowserAction::Ignore);
    assert_eq!(browser_action(k(Key::Char('k'))), BrowserAction::MoveUp);
    assert_eq!(browser_action(k(Key::Down)), BrowserAction::MoveDown);
    assert_eq!(browser_action(k(Key::Char('/'))), BrowserAction::OpenSearch);
    assert_eq!(browser_action(k(Key::Char('s'))), BrowserAction::OpenSearch);
    assert_eq!(browser_action(k(Key::Char('d'))), BrowserAction::ToggleDownloads);
    assert_eq!(browser_action(k(Key::Char('D'))), BrowserAction::QueueDownload);
    assert_eq!(browser_action(k(Key::Backspace)), BrowserAction::Back);
    assert_eq!(browser_action(k(Key::Char('r'))), BrowserAction::Refresh);
}

#[test]
fn search_keys_and_editing() {
    assert_eq!(search_action(k(Key::Esc)), SearchAction::Close);
    assert_eq!(search_action(k(Key::Char('D'))), SearchAction::InsertChar('D'));
    assert_eq!(search_action(KeyPress { key: Key::Char('D'), ctrl: false, shift: true }), SearchAction::QueueDownload);
    assert_eq!(search_action(KeyPress { key: Key::Char('c'), ctrl: true, shift: false }), SearchAction::Quit);
    let mut a = App::new(Config::empty(), None);
    assert!(a.edit_search_query(SearchAction::InsertChar('x')));
    assert!(a.edit_search_query(SearchAction::InsertChar('y')));
    assert!(a.edit_search_query(SearchAction::DeleteChar));
    assert_eq!(a.search_query, "x");
    assert!(!a.edit_search_query(SearchAction::MoveUp));
}

#[test]
fn refresh_targets() {
    let mut a = App::new(Config::empty(), None);
    a.screen = Screen::Home;
    assert!(matches!(a.refresh_target(), RefreshTarget::Home));
    a.screen = Screen::Library;
    assert!(matches!(a.refresh_target(), RefreshTarget::Nothing));
    a.nav_stack.push(jellytui::app::NavEntry { parent_id: "p".into(), title: "t".into() });
    assert!(matches!(a.refresh_target(), RefreshTarget::Folder { ref parent_id } if parent_id == "p"));
}
