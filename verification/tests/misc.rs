use jellytui::download::{download_file_name, DownloadManager, DownloadStatus, DownloadTask};
use jellytui::images::ImageTracker;
use jellytui::model::MediaItem;
use jellytui::player::{
    connect_failed_text, monitor_step, mpv_args, player_error_text, socket_timeout_text, start_error_text, MonitorStep,
    PositionRead,
};
use jellytui::ui::{
    cells_across, download_percent_label, download_title, first_visible, format_duration_secs, home_first_visible,
    home_help_text, library_help_text, poster_label, search_help_text, type_icon,
};
use std::path::PathBuf;

fn media(kind: &str) -> MediaItem {
    MediaItem {
        id: "id".into(),
        name: "The Name".into(),
        item_type: kind.into(),
        collection_type: None,
        series_name: Some("Show".into()),
        production_year: None,
        index_number: Some(3),
        parent_index_number: Some(1),
        is_folder: false,
        run_time_ticks: None,
        user_data: None,
    }
}

#[test]
fn download_names() {
    assert_eq!(download_file_name("Star Wars: Episode IV/1977"), "Star Wars_ Episode IV_1977.mkv");
    assert_eq!(download_file_name("Amélie (2001)"), "Amélie _2001_.mkv");
    assert_eq!(download_file_name(""), ".mkv");
    let m = DownloadManager { download_dir: PathBuf::from("/d") };
    let t = m.create_task("i".into(), "a/b".into(), "u".into());
    assert_eq!(t.download_dir, PathBuf::from("/d"));
    assert_eq!(t.file_name, "a_b.mkv");
    assert_eq!(t.download_dir.join(&t.file_name), PathBuf::from("/d/a_b.mkv"));
    let tj = m.create_task("7".into(), "Tom & Jerry: 2/3".into(), "http://h/d".into());
    assert_eq!(tj.download_dir.join(&tj.file_name), PathBuf::from("/d/Tom _ Jerry_ 2_3.mkv"));
    assert_eq!(tj.item_name, "Tom & Jerry: 2/3");
    assert_eq!(tj.item_id, "7");
    assert_eq!(tj.url, "http://h/d");
    assert_eq!(tj.progress, 0);
    assert_eq!(t.status, DownloadStatus::Pending);
    let n = DownloadTask::new("i".into(), "n".into(), "u".into(), PathBuf::from("/x"), "n.mkv".into());
    assert_eq!(n.progress, 0);
    assert!(n.error.is_none());
}

#[test]
fn image_tracker() {
    let mut t = ImageTracker::new();
    assert!(t.ensure("a"));
    assert!(!t.ensure("a"));
    assert!(t.ensure("b"));
    t.handle_fetched("a", false);
    assert!(t.is_failed("a"));
    assert!(!t.ensure("a"));
    t.handle_fetched("b", true);
    assert!(t.is_loaded("b"));
    assert!(!t.is_failed("b"));
    assert!(!t.is_failed("c"));
    t.handle_fetched("a", true);
    assert!(t.is_loaded("a"));
}

#[test]
fn fetched_posters_are_decoded() {
    let mut t = ImageTracker::new();
    assert!(t.ensure("good"));
    assert!(t.ensure("junk"));
    assert!(t.ensure("gone"));
    let img = t.take_fetched("good", Some(b"P1\n2 1\n0 1\n".to_vec())).unwrap();
    assert_eq!((img.width(), img.height()), (2, 1));
    assert!(t.is_loaded("good"));
    assert!(!t.ensure("good"));
    assert!(t.take_fetched("junk", Some(b"not an image".to_vec())).is_none());
    assert!(t.is_failed("junk"));
    assert!(t.take_fetched("gone", None).is_none());
    assert!(t.is_failed("gone"));
    assert!(!t.ensure("gone"));
}

#[test]
fn labels() {
    assert_eq!(poster_label(&media("Episode")), "Show S01E03");
    let mut e = media("Episode");
    e.index_number = None;
    assert_eq!(poster_label(&e), "Show");
    e.series_name = None;
    assert_eq!(poster_label(&e), "The Name");
    assert_eq!(poster_label(&media("Movie")), "The Name");
    assert_eq!(type_icon(&media("MusicAlbum")), "Album");
    assert_eq!(type_icon(&media("CollectionFolder")), "Folder");
    assert_eq!(type_icon(&media("Thing")), "?");
    assert!(home_help_text().starts_with("h/j/k/l"));
    assert!(library_help_text().contains("D: download"));
    assert!(search_help_text().starts_with("Type to search"));
}

#[test]
fn durations() {
    assert_eq!(format_duration_secs(0), "00:00");
    assert_eq!(format_duration_secs(65), "01:05");
    assert_eq!(format_duration_secs(3600), "1:00:00");
    assert_eq!(format_duration_secs(36061), "10:01:01");
}

#[test]
fn download_labels() {
    let mut t = DownloadTask::new("i".into(), "Film".into(), "u".into(), PathBuf::from("/x"), "Film.mkv".into());
    t.progress = 42;
    t.status = DownloadStatus::Downloading;
    assert_eq!(download_title(&t), "Film [Downloading]");
    assert_eq!(download_percent_label(&t), "42%");
}

#[test]
fn scrolling() {
    assert_eq!(cells_across(40, 19), 2);
    assert_eq!(cells_across(5, 19), 1);
    assert_eq!(first_visible(0, 3), 0);
    assert_eq!(first_visible(5, 3), 3);
    assert_eq!(home_first_visible(4, 2, 5), 3);
    assert_eq!(home_first_visible(1, 10, 5), 0);
}

#[test]
fn player_texts() {
    assert_eq!(
        mpv_args("/tmp/s.sock", false, "http://u", None),
        vec!["--input-ipc-server=/tmp/s.sock", "--force-window=yes", "--terminal=no", "http://u"]
    );
    assert_eq!(
        mpv_args("/s", true, "u", Some("12.5")),
        vec!["--input-ipc-server=/s", "--force-window=yes", "--terminal=no", "--gpu-context=waylandvk", "u", "--start=12.5"]
    );
    assert_eq!(monitor_step(PositionRead::Read), MonitorStep::Report);
    assert_eq!(monitor_step(PositionRead::Failed), MonitorStep::Finish);
    assert_eq!(monitor_step(PositionRead::TimedOut), MonitorStep::Fail);
    assert_eq!(connect_failed_text("refused"), "Failed to connect to MPV: refused");
    assert_eq!(socket_timeout_text("/t.sock"), "Timed out waiting for MPV IPC socket at /t.sock");
    assert_eq!(player_error_text("boom", "/l"), "Player error: boom. MPV log: /l");
    assert_eq!(start_error_text("nf", "/l"), "Failed to start player: nf. MPV log: /l");
}
