use jellytui::app::{App, HomeRow, HomeSection, HomeSectionKind, LoginField, NavEntry, Screen, Selection};
use jellytui::client::{Error, JellyfinClient};
use jellytui::config::Config;
use jellytui::download::{DownloadManager, DownloadStatus};
use jellytui::model::{ItemsResponse, MediaItem, UserData};
use std::path::PathBuf;

fn item(id: &str, folder: bool) -> MediaItem {
    MediaItem {
        id: id.to_string(),
        name: format!("Name {id}"),
        item_type: if folder { "Folder".to_string() } else { "Movie".to_string() },
        collection_type: None,
        series_name: None,
        production_year: Some(2001),
        index_number: None,
        parent_index_number: None,
        is_folder: folder,
        run_time_ticks: Some(1000),
        user_data: None,
    }
}

fn stored() -> Config {
    Config {
        server_url: Some("http://srv/".to_string()),
        access_token: Some("tok".to_string()),
        user_id: Some("u".to_string()),
    }
}

fn home_app() -> App {
    App::new(stored(), Some(DownloadManager { download_dir: PathBuf::from("/tmp/dl") }))
}

#[test]
fn login_field_cycles() {
    assert_eq!(LoginField::ServerUrl.next(), LoginField::Username);
    assert_eq!(LoginField::Username.next(), LoginField::Password);
    assert_eq!(LoginField::Password.next(), LoginField::ServerUrl);
    assert_eq!(LoginField::ServerUrl.prev(), LoginField::Password);
    for f in [LoginField::ServerUrl, LoginField::Username, LoginField::Password] {
        assert_eq!(f.next().prev(), f);
        assert_eq!(f.next().next().next(), f);
    }
}

#[test]
fn new_with_and_without_session() {
    let a = home_app();
    assert_eq!(a.screen, Screen::Home);
    let c = a.client.as_ref().unwrap();
    assert_eq!(c.server_url(), "http://srv");
    assert_eq!(c.access_token(), Some("tok"));
    assert_eq!(c.info().name, "jellytui");
    assert_eq!(c.info().device_id, "jellytui-rust");
    assert_eq!(a.server_url_input, "http://srv/");
    let partial = Config { server_url: Some("http://x".to_string()), access_token: None, user_id: Some("u".to_string()) };
    let b = App::new(partial, None);
    assert_eq!(b.screen, Screen::Login);
    assert!(b.client.is_none());
    assert_eq!(b.server_url_input, "http://x");
    let e = App::new(Config::empty(), None);
    assert_eq!(e.server_url_input, "");
}

#[test]
fn unauthorized_logs_out() {
    let mut a = home_app();
    a.items = vec![item("a", false)];
    a.password_input = "pw".to_string();
    a.nav_stack.push(NavEntry { parent_id: "p".to_string(), title: "T".to_string() });
    assert!(!a.handle_unauthorized(&Error::Unauthenticated));
    assert_eq!(a.screen, Screen::Home);
    assert!(a.handle_unauthorized(&Error::Unauthorized));
    assert_eq!(a.screen, Screen::Login);
    assert!(a.client.is_none());
    assert!(a.items.is_empty());
    assert!(a.nav_stack.is_empty());
    assert_eq!(a.password_input, "");
    assert_eq!(a.login_error.as_deref(), Some("Session expired. Please log in again."));
    assert!(a.config.access_token.is_none());
    assert!(a.config.user_id.is_none());
    assert_eq!(a.config.server_url.as_deref(), Some("http://srv/"));
}

#[test]
fn home_loading_sections() {
    let mut a = home_app();
    assert!(a.begin_home_load());
    assert!(a.loading);
    assert!(!a.apply_home_row(HomeRow::Libraries, Ok(vec![item("lib", true)])));
    assert!(!a.apply_home_row(HomeRow::ContinueWatching, Ok(vec![])));
    assert!(!a.apply_home_row(HomeRow::NextUp, Err(Error::Transport("x".to_string()))));
    assert!(!a.apply_home_row(HomeRow::RecentMovies, Err(Error::Transport("y".to_string()))));
    assert!(!a.apply_home_row(HomeRow::RecentShows, Ok(vec![item("s", false), item("t", false)])));
    a.finish_home_load();
    assert!(!a.loading);
    assert_eq!(a.home_sections.len(), 2);
    assert_eq!(a.home_sections[0].title, "Libraries");
    assert_eq!(a.home_sections[0].kind, HomeSectionKind::Libraries);
    assert_eq!(a.home_sections[1].title, "Recently in TV Shows");
    assert_eq!(a.error_message.as_deref(), Some("x"));
    assert_eq!(HomeRow::Libraries.next(), Some(HomeRow::ContinueWatching));
    assert_eq!(HomeRow::RecentShows.next(), None);
}

#[test]
fn home_loading_stops_on_refused_session() {
    let mut a = home_app();
    a.begin_home_load();
    assert!(a.apply_home_row(HomeRow::Libraries, Err(Error::Unauthorized)));
    assert_eq!(a.screen, Screen::Login);
    assert!(!a.loading);
    let mut b = App::new(Config::empty(), None);
    assert!(!b.begin_home_load());
    assert!(b.loading);
}

#[test]
fn home_row_requests() {
    let c = JellyfinClient::with_token("http://s", jellytui::app::client_info(), "t", "u");
    let r = HomeRow::RecentMovies.request(&c).unwrap();
    assert_eq!(r.query[0], ("IncludeItemTypes".to_string(), "Movie".to_string()));
    assert_eq!(r.query[4], ("Limit".to_string(), "10".to_string()));
    let v = HomeRow::Libraries.request(&c).unwrap();
    assert_eq!(v.url, "http://s/Users/u/Views");
}

fn sections_app() -> App {
    let mut a = home_app();
    a.home_sections = vec![
        HomeSection { title: "A".to_string(), kind: HomeSectionKind::Libraries, items: vec![item("l1", true), item("l2", true), item("l3", true)] },
        HomeSection { title: "B".to_string(), kind: HomeSectionKind::Items, items: vec![item("m1", false)] },
    ];
    a
}

#[test]
fn home_navigation() {
    let mut a = sections_app();
    a.move_right();
    a.move_right();
    assert_eq!(a.home_col, 2);
    a.move_right();
    assert_eq!(a.home_col, 2);
    a.move_down();
    assert_eq!((a.home_row, a.home_col), (1, 0));
    a.move_down();
    assert_eq!(a.home_row, 1);
    a.move_up();
    assert_eq!((a.home_row, a.home_col), (0, 0));
    a.move_left();
    assert_eq!(a.home_col, 0);
    assert_eq!(a.current_home_item().unwrap().id, "l1");
}

#[test]
fn grid_navigation() {
    let mut a = home_app();
    a.screen = Screen::Library;
    a.items = (0..7).map(|i| item(&i.to_string(), false)).collect();
    a.grid_columns = 3;
    a.move_down();
    assert_eq!(a.selected_index, 3);
    a.move_down();
    assert_eq!(a.selected_index, 6);
    a.move_down();
    assert_eq!(a.selected_index, 6);
    a.selected_index = 5;
    a.move_down();
    assert_eq!(a.selected_index, 6);
    a.move_up();
    assert_eq!(a.selected_index, 3);
    a.move_left();
    a.move_right();
    assert_eq!(a.selected_index, 3);
    a.grid_columns = 0;
    a.move_up();
    assert_eq!(a.selected_index, 2);
}

#[test]
fn select_opens_library_and_goes_back() {
    let mut a = sections_app();
    match a.select_item() {
        Selection::OpenFolder { parent_id } => assert_eq!(parent_id, "l1"),
        _ => panic!("folder expected"),
    }
    assert_eq!(a.screen, Screen::Library);
    assert_eq!(a.current_title(), "Name l1");
    assert!(a.begin_items_load());
    assert!(!a.apply_items_result(Ok(ItemsResponse { items: vec![item("f", true), item("m", false)], total_record_count: 2 })));
    assert_eq!(a.total_items, 2);
    match a.select_item() {
        Selection::OpenFolder { parent_id } => assert_eq!(parent_id, "f"),
        _ => panic!("folder expected"),
    }
    assert_eq!(a.nav_stack.len(), 2);
    assert_eq!(a.go_back(), Some("l1".to_string()));
    assert_eq!(a.go_back(), None);
    assert_eq!(a.screen, Screen::Home);
    assert_eq!(a.selected_index, 0);
    assert_eq!(a.current_title(), "Home");
}

#[test]
fn select_plays_with_resume_position() {
    let mut a = home_app();
    a.screen = Screen::Library;
    a.items = vec![item("m", false)];
    let Selection::Play { item: chosen, honor_unauthorized } = a.select_item() else { panic!("play expected") };
    assert!(honor_unauthorized);
    let mut full = chosen.clone();
    full.user_data = Some(UserData { playback_position_ticks: 42, played: false });
    let p = a.resolve_playback(chosen.clone(), Some(Ok(full)), true).unwrap();
    assert_eq!(p.start_position_ticks, 42);
    let q = a.resolve_playback(chosen.clone(), Some(Err(Error::Transport("x".into()))), true).unwrap();
    assert_eq!(q.item.id, "m");
    assert_eq!(q.start_position_ticks, 0);
    assert!(a.resolve_playback(chosen, Some(Err(Error::Unauthorized)), true).is_none());
    assert_eq!(a.screen, Screen::Login);
}

#[test]
fn search_flow() {
    let mut a = sections_app();
    a.open_search();
    assert_eq!(a.screen, Screen::Search);
    assert!(!a.begin_search());
    a.search_query = "x".to_string();
    assert!(a.begin_search());
    assert!(!a.apply_search_result(Ok(ItemsResponse { items: vec![item("s1", true)], total_record_count: 1 })));
    match a.select_item() {
        Selection::OpenFolder { parent_id } => assert_eq!(parent_id, "s1"),
        _ => panic!(),
    }
    assert_eq!(a.nav_stack.len(), 1);
    assert_eq!(a.screen, Screen::Library);
    let mut b = sections_app();
    b.open_search();
    b.close_search();
    assert_eq!(b.screen, Screen::Home);
    assert!(b.previous_screen.is_none());
}

#[test]
fn downloads_queue_and_status() {
    let mut a = home_app();
    a.screen = Screen::Library;
    a.items = vec![item("m", false), item("f", true)];
    let t = a.queue_download().unwrap();
    assert_eq!(t.item_id, "m");
    assert_eq!(t.url, "http://srv/Items/m/Download?api_key=tok");
    assert_eq!(t.status, DownloadStatus::Pending);
    assert_eq!(t.download_dir, PathBuf::from("/tmp/dl"));
    assert_eq!(t.file_name, "Name m.mkv");
    assert_eq!(t.download_dir.join(&t.file_name), PathBuf::from("/tmp/dl/Name m.mkv"));
    assert!(a.queue_download().is_none());
    a.selected_index = 1;
    assert!(a.queue_download().is_none());
    assert_eq!(a.downloads.len(), 1);
    a.mark_download_started("m");
    assert_eq!(a.downloads[0].status, DownloadStatus::Downloading);
    a.update_download_progress("m", 40);
    assert_eq!(a.downloads[0].progress, 40);
    a.mark_download_completed("m");
    assert_eq!((a.downloads[0].progress, a.downloads[0].status), (100, DownloadStatus::Completed));
    a.mark_download_failed("m", "disk".to_string());
    assert_eq!(a.downloads[0].error.as_deref(), Some("disk"));
    a.mark_download_failed("zzz", "x".to_string());
    assert_eq!(a.downloads.len(), 1);
    a.toggle_downloads();
    assert!(a.show_downloads);
    a.toggle_downloads();
    assert!(!a.show_downloads);
}

#[test]
fn playback_sessions() {
    let mut a = home_app();
    let s = a.next_playback_session();
    assert_eq!(s, 1);
    let p = jellytui::app::PlayingItem { item: item("m", false), start_position_ticks: 3 };
    let info = jellytui::app::playback_start_info(&p);
    assert_eq!(info.play_method, "DirectStream");
    assert_eq!(info.volume_level, 100);
    a.begin_playback(p);
    assert!(!a.record_progress(0, 10, true));
    assert!(a.record_progress(1, 950, true));
    assert_eq!(a.last_position_ticks, 950);
    assert_eq!(a.progress_report(950, true, None).unwrap().position_ticks, 950);
    assert!(a.progress_report(950, true, Some(4)).is_none());
    let due = a.progress_report(960, false, Some(5)).unwrap();
    assert_eq!((due.item_id.as_str(), due.position_ticks, due.is_paused), ("m", 960, false));
    assert_eq!((due.is_muted, due.volume_level), (false, 100));
    assert_eq!(a.unmarked_runtime_ticks(), Some(1000));
    assert_eq!(a.mark_as_played().as_deref(), Some("m"));
    assert_eq!(a.unmarked_runtime_ticks(), None);
    let stop = a.finish_playback().unwrap();
    assert_eq!((stop.item_id.as_str(), stop.position_ticks), ("m", 950));
    assert_eq!(a.playback_session_id, 2);
    assert!(a.now_playing.is_none());
    assert!(!a.record_progress(1, 5, false));
    a.playback_session_id = u64::MAX;
    assert_eq!(a.next_playback_session(), 0);
}

#[test]
fn login_flow() {
    let mut a = App::new(Config::empty(), None);
    a.server_url_input = "http://host/".to_string();
    let mut c = a.begin_login();
    assert!(a.login_loading);
    assert_eq!(c.server_url(), "http://host");
    a.login_failed(&Error::Unauthorized);
    assert!(!a.login_loading);
    assert!(a.login_error.is_some());
    c.complete_authentication(&jellytui::model::AuthResponse {
        access_token: "T".into(),
        user: jellytui::model::User { id: "U".into(), name: "n".into() },
    });
    a.record_login(&c);
    assert_eq!(a.config.server_url.as_deref(), Some("http://host/"));
    assert_eq!(a.config.access_token.as_deref(), Some("T"));
    a.enter_home(c);
    assert_eq!(a.screen, Screen::Home);
    assert!(a.client.is_some());
    a.quit();
    assert!(!a.running);
}

#[test]
fn stale_and_current_session_events() {
    let mut a = home_app();
    let s = a.next_playback_session();
    a.begin_playback(jellytui::app::PlayingItem { item: item("m", false), start_position_ticks: 0 });
    assert!(a.record_progress(s, 70, false));
    assert!(a.is_current_session(s));
    assert!(!a.is_current_session(s + 1));
    assert!(a.finish_session(s + 1).is_none());
    assert!(a.now_playing.is_some());
    assert!(a.fail_session(s + 1, false, "boom", "/tmp/mpv.log").is_none());
    assert!(a.fail_session(s, true, "boom", "/tmp/mpv.log").is_none());
    assert!(a.error_message.is_none());
    assert!(a.now_playing.is_some());
    let stop = a.fail_session(s, false, "boom", "/tmp/mpv.log").unwrap().unwrap();
    assert_eq!((stop.item_id.as_str(), stop.position_ticks), ("m", 70));
    assert_eq!(a.error_message.as_deref(), Some("Player error: boom. MPV log: /tmp/mpv.log"));
    assert!(a.now_playing.is_none());
    assert_eq!(a.playback_session_id, s + 1);
    assert!(a.finish_session(s).is_none());
    assert!(a.finish_session(s + 1).unwrap().is_none());
    assert_eq!(a.playback_session_id, s + 2);
}

#[test]
fn finished_session_sends_stop_report() {
    let mut a = home_app();
    let s = a.next_playback_session();
    a.begin_playback(jellytui::app::PlayingItem { item: item("k", false), start_position_ticks: 0 });
    assert!(a.record_progress(s, 12, true));
    let stop = a.finish_session(s).unwrap().unwrap();
    assert_eq!((stop.item_id.as_str(), stop.position_ticks), ("k", 12));
    assert_eq!(a.last_position_ticks, 0);
    assert!(!a.record_progress(s, 13, true));
}

#[test]
fn start_error_and_grid_columns() {
    let mut a = home_app();
    a.show_start_error("no mpv", "/tmp/mpv.log");
    assert_eq!(a.error_message.as_deref(), Some("Failed to start player: no mpv. MPV log: /tmp/mpv.log"));
    a.set_grid_columns(7);
    assert_eq!(a.grid_columns, 7);
}
