use jellytui::client::{check_status, ClientInfo, Error, JellyfinClient, Method, RequestBody};
use jellytui::model::{
    AuthResponse, MediaSource, MediaStream, PlaybackInfoResponse, PlaybackStartInfo, User,
};

fn info() -> ClientInfo {
    ClientInfo::new("my-app", "0.1.0").with_device_id("host-abc123")
}

fn logged_in() -> JellyfinClient {
    JellyfinClient::with_token("https://jf.example.com/", info(), "tok", "u1")
}

fn pairs(q: &[(String, String)]) -> Vec<(&str, &str)> {
    q.iter().map(|(k, v)| (k.as_str(), v.as_str())).collect()
}

#[test]
fn client_info_defaults() {
    let i = ClientInfo::new("my-app", "0.1.0");
    assert_eq!(i.name, "my-app");
    assert_eq!(i.device, "PC");
    assert_eq!(i.device_id, "my-app");
    assert_eq!(i.version, "0.1.0");
    let j = i.with_device("Laptop").with_device_id("host-1");
    assert_eq!(j.device, "Laptop");
    assert_eq!(j.device_id, "host-1");
    assert_eq!(j.name, "my-app");
}

#[test]
fn new_trims_trailing_slashes() {
    let c = JellyfinClient::new("http://a.b:8096///", info());
    assert_eq!(c.server_url(), "http://a.b:8096");
    assert_eq!(c.access_token(), None);
    assert_eq!(c.user_id(), None);
    let d = JellyfinClient::new("///", info());
    assert_eq!(d.server_url(), "");
}

#[test]
fn with_token_restores_session() {
    let c = logged_in();
    assert_eq!(c.server_url(), "https://jf.example.com");
    assert_eq!(c.access_token(), Some("tok"));
    assert_eq!(c.user_id(), Some("u1"));
}

#[test]
fn auth_header_with_and_without_token() {
    let c = JellyfinClient::new("http://s", info());
    assert_eq!(
        c.auth_header(),
        "MediaBrowser Client=\"my-app\", Device=\"PC\", DeviceId=\"host-abc123\", Version=\"0.1.0\""
    );
    assert_eq!(
        logged_in().auth_header(),
        "MediaBrowser Client=\"my-app\", Device=\"PC\", DeviceId=\"host-abc123\", Version=\"0.1.0\", Token=\"tok\""
    );
}

#[test]
fn user_requests_without_user_are_unauthenticated() {
    let c = JellyfinClient::new("http://s", info());
    assert!(matches!(c.user_views_request(), Err(Error::Unauthenticated)));
    assert!(matches!(c.items_request("p", 0, 100), Err(Error::Unauthenticated)));
    assert!(matches!(c.resume_items_request(10), Err(Error::Unauthenticated)));
    assert!(matches!(c.next_up_items_request(10), Err(Error::Unauthenticated)));
    assert!(matches!(c.latest_items_request(&["Movie"], 10), Err(Error::Unauthenticated)));
    assert!(matches!(c.item_request("i"), Err(Error::Unauthenticated)));
    assert!(matches!(c.search_request("q", 50), Err(Error::Unauthenticated)));
    assert!(matches!(c.mark_played_request("i"), Err(Error::Unauthenticated)));
    assert!(matches!(c.playback_info_request("i"), Err(Error::Unauthenticated)));
    assert!(matches!(c.get_stream_url("i"), Err(Error::Unauthenticated)));
    assert!(matches!(c.get_download_url("i"), Err(Error::Unauthenticated)));
}

#[test]
fn views_request() {
    let r = logged_in().user_views_request().unwrap();
    assert_eq!(r.method, Method::Get);
    assert_eq!(r.url, "https://jf.example.com/Users/u1/Views");
    assert!(r.query.is_empty());
    assert!(matches!(r.body, RequestBody::Empty));
    assert_eq!(r.operation, "get_user_views");
    assert!(r.authorization.ends_with(", Token=\"tok\""));
}

#[test]
fn items_request_query() {
    let r = logged_in().items_request("lib9", 20, 100).unwrap();
    assert_eq!(r.url, "https://jf.example.com/Users/u1/Items");
    assert_eq!(
        pairs(&r.query),
        vec![
            ("ParentId", "lib9"),
            ("StartIndex", "20"),
            ("Limit", "100"),
            ("SortBy", "SortName"),
            ("SortOrder", "Ascending"),
        ]
    );
    assert_eq!(r.operation, "get_items");
}

#[test]
fn resume_and_next_up_requests() {
    let c = logged_in();
    let r = c.resume_items_request(10).unwrap();
    assert_eq!(r.url, "https://jf.example.com/Users/u1/Items/Resume");
    assert_eq!(
        pairs(&r.query),
        vec![
            ("Limit", "10"),
            ("Recursive", "true"),
            ("Fields", "PrimaryImageAspectRatio,BasicSyncInfo,ProductionYear,Status,EndDate"),
            ("ImageTypeLimit", "1"),
            ("EnableImageTypes", "Primary,Backdrop,Banner,Thumb"),
        ]
    );
    let n = c.next_up_items_request(7).unwrap();
    assert_eq!(n.url, "https://jf.example.com/Shows/NextUp");
    assert_eq!(pairs(&n.query)[0], ("UserId", "u1"));
    assert_eq!(pairs(&n.query)[1], ("Limit", "7"));
    assert_eq!(n.operation, "get_next_up_items");
}

#[test]
fn latest_items_joins_types() {
    let r = logged_in().latest_items_request(&["Movie", "Series"], 10).unwrap();
    assert_eq!(pairs(&r.query)[0], ("IncludeItemTypes", "Movie,Series"));
    assert_eq!(pairs(&r.query)[2], ("SortBy", "DateCreated"));
    assert_eq!(pairs(&r.query)[3], ("SortOrder", "Descending"));
    assert_eq!(pairs(&r.query)[4], ("Limit", "10"));
    let e = logged_in().latest_items_request(&[], 3).unwrap();
    assert_eq!(pairs(&e.query)[0], ("IncludeItemTypes", ""));
}

#[test]
fn item_search_and_played_requests() {
    let c = logged_in();
    assert_eq!(c.item_request("it").unwrap().url, "https://jf.example.com/Users/u1/Items/it");
    let s = c.search_request("star wars", 50).unwrap();
    assert_eq!(
        pairs(&s.query),
        vec![("searchTerm", "star wars"), ("Recursive", "true"), ("Limit", "50")]
    );
    let m = c.mark_played_request("it").unwrap();
    assert_eq!(m.method, Method::Post);
    assert_eq!(m.url, "https://jf.example.com/Users/u1/PlayedItems/it");
}

#[test]
fn authenticate_request_and_login() {
    let mut c = JellyfinClient::new("http://s/", info());
    let r = c.authenticate_request("alice", "hunter2");
    assert_eq!(r.method, Method::Post);
    assert_eq!(r.url, "http://s/Users/AuthenticateByName");
    match &r.body {
        RequestBody::Credentials { username, password } => {
            assert_eq!(username, "alice");
            assert_eq!(password, "hunter2");
        }
        _ => panic!("credentials expected"),
    }
    c.complete_authentication(&AuthResponse {
        access_token: "T".to_string(),
        user: User { id: "U".to_string(), name: "alice".to_string() },
    });
    assert_eq!(c.access_token(), Some("T"));
    assert_eq!(c.user_id(), Some("U"));
    assert_eq!(c.get_stream_url("x").unwrap(), "http://s/Videos/x/stream?Static=true&api_key=T");
    assert!(c.user_views_request().is_ok());
}

#[test]
fn urls_with_api_key() {
    let c = logged_in();
    assert_eq!(
        c.get_stream_url("abc").unwrap(),
        "https://jf.example.com/Videos/abc/stream?Static=true&api_key=tok"
    );
    assert_eq!(c.get_download_url("abc").unwrap(), "https://jf.example.com/Items/abc/Download?api_key=tok");
    assert_eq!(
        c.get_primary_image_url("abc", 240),
        "https://jf.example.com/Items/abc/Images/Primary?maxHeight=240&quality=90&api_key=tok"
    );
    let anon = JellyfinClient::new("http://s", info());
    assert_eq!(anon.get_primary_image_url("x", 0), "http://s/Items/x/Images/Primary?maxHeight=0&quality=90");
}

#[test]
fn playback_reports() {
    let c = logged_in();
    let start = PlaybackStartInfo {
        item_id: "i".to_string(),
        position_ticks: 5,
        is_paused: false,
        is_muted: false,
        volume_level: 100,
        play_method: "DirectStream".to_string(),
    };
    let r = c.playback_start_request(&start);
    assert_eq!(r.url, "https://jf.example.com/Sessions/Playing");
    assert_eq!(r.operation, "report_playback_start");
    assert!(matches!(r.body, RequestBody::PlaybackStart(ref s) if s.position_ticks == 5));
}

fn stream(kind: &str, codec: Option<&str>, external: bool, text: bool, index: i32) -> MediaStream {
    MediaStream {
        stream_type: kind.to_string(),
        codec: codec.map(str::to_string),
        language: Some("eng".to_string()),
        display_title: Some("English".to_string()),
        is_external: external,
        is_text_subtitle_stream: text,
        index,
    }
}

#[test]
fn external_subtitles_filtering() {
    let c = logged_in();
    let info = PlaybackInfoResponse {
        media_sources: vec![
            MediaSource {
                id: "src1".to_string(),
                media_streams: vec![
                    stream("Video", Some("h264"), false, false, 0),
                    stream("Subtitle", Some("srt"), true, true, 2),
                    stream("Subtitle", Some("pgs"), true, false, 3),
                    stream("Subtitle", Some("ass"), false, true, 4),
                    stream("Subtitle", Some(""), true, true, 5),
                    stream("Subtitle", None, true, true, 6),
                ],
            },
            MediaSource { id: "src2".to_string(), media_streams: vec![stream("Subtitle", Some("vtt"), true, true, -1)] },
        ],
    };
    let subs = c.external_subtitles("item", &info).unwrap();
    assert_eq!(subs.len(), 2);
    assert_eq!(subs[0].url, "https://jf.example.com/Videos/item/src1/Subtitles/2/0/Stream.srt?api_key=tok");
    assert_eq!(subs[0].language.as_deref(), Some("eng"));
    assert_eq!(subs[0].title.as_deref(), Some("English"));
    assert_eq!(subs[1].url, "https://jf.example.com/Videos/item/src2/Subtitles/-1/0/Stream.vtt?api_key=tok");
    let anon = JellyfinClient::new("http://s", info_for_anon());
    assert!(matches!(anon.external_subtitles("item", &info), Err(Error::Unauthenticated)));
}

fn info_for_anon() -> ClientInfo {
    ClientInfo::new("a", "1")
}

#[test]
fn playback_info_request_shape() {
    let r = logged_in().playback_info_request("it").unwrap();
    assert_eq!(r.method, Method::Post);
    assert_eq!(r.url, "https://jf.example.com/Items/it/PlaybackInfo");
    assert_eq!(pairs(&r.query), vec![("UserId", "u1")]);
    assert!(matches!(r.body, RequestBody::EmptyJsonObject));
}

#[test]
fn status_classification() {
    assert!(check_status(200, String::new(), "op").is_ok());
    assert!(check_status(204, String::new(), "op").is_ok());
    assert!(matches!(check_status(401, "nope".to_string(), "op"), Err(Error::Unauthorized)));
    match check_status(500, "boom".to_string(), "get_items") {
        Err(Error::Server { operation, status, body }) => {
            assert_eq!(operation, "get_items");
            assert_eq!(status, 500);
            assert_eq!(body, "boom");
        }
        _ => panic!("server error expected"),
    }
    assert!(matches!(check_status(302, String::new(), "op"), Err(Error::Server { .. })));
    assert!(matches!(check_status(199, String::new(), "op"), Err(Error::Server { .. })));
    assert!(matches!(check_status(300, String::new(), "op"), Err(Error::Server { .. })));
}

#[test]
fn error_messages() {
    assert_eq!(Error::Unauthenticated.message(), "Not authenticated");
    assert_eq!(
        Error::Server { operation: "search", status: 503, body: "down".to_string() }.message(),
        "search failed: 503 - down"
    );
    assert_eq!(Error::Transport("refused".to_string()).message(), "refused");
}

#[test]
fn restored_session_matches_login() {
    let restored = JellyfinClient::with_token("http://s//", info(), "T", "U");
    let mut fresh = JellyfinClient::new("http://s//", info());
    fresh.complete_authentication(&AuthResponse {
        access_token: "T".to_string(),
        user: User { id: "U".to_string(), name: "x".to_string() },
    });
    assert_eq!(restored.server_url(), fresh.server_url());
    assert_eq!(restored.access_token(), fresh.access_token());
    assert_eq!(restored.user_id(), fresh.user_id());
    assert_eq!(restored.auth_header(), fresh.auth_header());
    assert_eq!(restored.item_request("i").unwrap().url, fresh.item_request("i").unwrap().url);
}
