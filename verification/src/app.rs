//! Application state: the screens, the selection on them, navigation, the
//! session's lifecycle, downloads and playback bookkeeping.
use vstd::prelude::*;

use crate::client::{
    latest_items_request_spec, next_up_items_request_spec, request_result_view,
    resume_items_request_spec, user_views_request_spec, ApiRequest, ApiRequestView, ClientInfo, Error,
    JellyfinClient, JellyfinClientView, Method, download_url_spec, restored_client_view, trim_trailing_slashes,
};
use crate::config::Config;
use crate::download::{safe_file_name, DownloadManager, DownloadStatus, DownloadTask};
use crate::model::{ItemsResponse, MediaItem, PlaybackProgressInfo, PlaybackStartInfo, PlaybackStopInfo};
use crate::text::owned;

verus! {

/// The application's identity towards the server.
pub fn client_info() -> (res: ClientInfo)
    ensures
        is_app_client_info(res),
{
    ClientInfo::new("jellytui", "0.1.0").with_device_id("jellytui-rust")
}

/// The identity `client_info` gives.
pub open spec fn is_app_client_info(i: ClientInfo) -> bool {
    &&& i.name@ == "jellytui"@
    &&& i.device@ == "PC"@
    &&& i.device_id@ == "jellytui-rust"@
    &&& i.version@ == "0.1.0"@
}

/// The screen the application shows.
#[derive(Debug, Clone, Copy, PartialEq, Eq, Structural)]
pub enum Screen {
    Login,
    Home,
    Library,
    Search,
}

/// What the items of a home section are.
#[derive(Debug, Clone, Copy, PartialEq, Eq, Structural)]
pub enum HomeSectionKind {
    Libraries,
    Items,
}

/// One titled row of the home screen.
#[derive(Debug)]
pub struct HomeSection {
    pub title: String,
    pub kind: HomeSectionKind,
    pub items: Vec<MediaItem>,
}

/// The item being played and where its playback began.
#[derive(Debug)]
pub struct PlayingItem {
    pub item: MediaItem,
    pub start_position_ticks: u64,
}

impl Clone for PlayingItem {
    fn clone(&self) -> (res: Self)
        ensures
            res == *self,
    {
        PlayingItem { item: self.item.clone(), start_position_ticks: self.start_position_ticks }
    }
}

/// The input field of the login screen that has the focus.
#[derive(Debug, Clone, Copy, PartialEq, Eq, Structural)]
pub enum LoginField {
    ServerUrl,
    Username,
    Password,
}

impl LoginField {
    /// The field after this one, cyclically: server URL, user name, password.
    pub fn next(self) -> (res: Self)
        ensures
            res == self.spec_next(),
    {
        match self {
            LoginField::ServerUrl => LoginField::Username,
            LoginField::Username => LoginField::Password,
            LoginField::Password => LoginField::ServerUrl,
        }
    }

    /// The field before this one, cyclically.
    pub fn prev(self) -> (res: Self)
        ensures
            res == self.spec_prev(),
    {
        match self {
            LoginField::ServerUrl => LoginField::Password,
            LoginField::Username => LoginField::ServerUrl,
            LoginField::Password => LoginField::Username,
        }
    }

    pub open spec fn spec_next(self) -> Self {
        match self {
            LoginField::ServerUrl => LoginField::Username,
            LoginField::Username => LoginField::Password,
            LoginField::Password => LoginField::ServerUrl,
        }
    }

    pub open spec fn spec_prev(self) -> Self {
        match self {
            LoginField::ServerUrl => LoginField::Password,
            LoginField::Username => LoginField::ServerUrl,
            LoginField::Password => LoginField::Username,
        }
    }
}

/// A folder opened in the library browser.
#[derive(Debug)]
pub struct NavEntry {
    pub parent_id: String,
    pub title: String,
}

/// The application's state.
pub struct App {
    pub running: bool,
    pub screen: Screen,
    pub config: Config,
    pub client: Option<JellyfinClient>,
    pub login_field: LoginField,
    pub server_url_input: String,
    pub username_input: String,
    pub password_input: String,
    pub login_error: Option<String>,
    pub login_loading: bool,
    pub home_sections: Vec<HomeSection>,
    pub home_row: usize,
    pub home_col: usize,
    pub items: Vec<MediaItem>,
    pub selected_index: usize,
    pub grid_columns: usize,
    pub nav_stack: Vec<NavEntry>,
    pub loading: bool,
    pub error_message: Option<String>,
    pub total_items: u32,
    pub playback_session_id: u64,
    pub now_playing: Option<PlayingItem>,
    pub last_position_ticks: u64,
    pub playback_paused: bool,
    pub marked_as_played: bool,
    pub search_query: String,
    pub search_results: Vec<MediaItem>,
    pub search_selected: usize,
    pub previous_screen: Option<Screen>,
    pub downloads: Vec<DownloadTask>,
    pub show_downloads: bool,
    pub download_manager: Option<DownloadManager>,
}

/// The client a stored session resumes, identified by `info`.
pub open spec fn resumed_client(config: Config, info: ClientInfo) -> JellyfinClientView {
    restored_client_view(config.server_url->0@, info, config.access_token->0@, config.user_id->0@)
}

impl App {
    /// The state at start-up: the home screen with a resumed session when the
    /// configuration stores one, the login screen otherwise.
    pub fn new(config: Config, download_manager: Option<DownloadManager>) -> (res: Self)
        ensures
            res.running,
            selection_in_bounds(res),
            res.config == config,
            res.download_manager == download_manager,
            config.authenticated() ==> res.screen == Screen::Home && res.client is Some
                && res.client->0@ == resumed_client(config, res.client->0@.info)
                && is_app_client_info(res.client->0@.info),
            !config.authenticated() ==> res.screen == Screen::Login && res.client is None,
            res.server_url_input@ == (match config.server_url {
                Some(u) => u@,
                None => Seq::<char>::empty(),
            }),
            res.login_field == LoginField::ServerUrl,
            res.username_input@.len() == 0,
            res.password_input@.len() == 0,
            res.login_error is None,
            !res.login_loading,
            res.home_sections@.len() == 0,
            res.home_row == 0,
            res.home_col == 0,
            res.items@.len() == 0,
            res.selected_index == 0,
            res.grid_columns == 1,
            res.nav_stack@.len() == 0,
            !res.loading,
            res.error_message is None,
            res.total_items == 0,
            res.playback_session_id == 0,
            res.now_playing is None,
            res.last_position_ticks == 0,
            !res.playback_paused,
            !res.marked_as_played,
            res.search_query@.len() == 0,
            res.search_results@.len() == 0,
            res.search_selected == 0,
            res.previous_screen is None,
            res.downloads@.len() == 0,
            !res.show_downloads,
    {
        let authenticated = config.is_authenticated();
        let (screen, client) = if authenticated {
            let c = JellyfinClient::with_token(
                config.server_url.as_ref().unwrap().as_str(),
                client_info(),
                config.access_token.as_ref().unwrap().as_str(),
                config.user_id.as_ref().unwrap().as_str(),
            );
            (Screen::Home, Some(c))
        } else {
            (Screen::Login, None)
        };
        let server_url_input = match &config.server_url {
            Some(u) => u.clone(),
            None => String::new(),
        };
        App {
            running: true,
            screen,
            config,
            client,
            login_field: LoginField::ServerUrl,
            server_url_input,
            username_input: String::new(),
            password_input: String::new(),
            login_error: None,
            login_loading: false,
            home_sections: Vec::new(),
            home_row: 0,
            home_col: 0,
            items: Vec::new(),
            selected_index: 0,
            grid_columns: 1,
            nav_stack: Vec::new(),
            loading: false,
            error_message: None,
            total_items: 0,
            playback_session_id: 0,
            now_playing: None,
            last_position_ticks: 0,
            playback_paused: false,
            marked_as_played: false,
            search_query: String::new(),
            search_results: Vec::new(),
            search_selected: 0,
            previous_screen: None,
            downloads: Vec::new(),
            show_downloads: false,
            download_manager,
        }
    }

    /// Stops the main loop.
    pub fn quit(&mut self)
        ensures
            *final(self) == (App { running: false, ..*old(self) }),
    {
        self.running = false;
    }

    /// The text of the login field that has the focus.
    pub open spec fn focused_input(self) -> String {
        match self.login_field {
            LoginField::ServerUrl => self.server_url_input,
            LoginField::Username => self.username_input,
            LoginField::Password => self.password_input,
        }
    }

    /// The login field that has the focus, for editing.
    pub fn current_input_mut(&mut self) -> (res: &mut String)
        ensures
            *res == old(self).focused_input(),
            *final(self) == (match old(self).login_field {
                LoginField::ServerUrl => App { server_url_input: *final(res), ..*old(self) },
                LoginField::Username => App { username_input: *final(res), ..*old(self) },
                LoginField::Password => App { password_input: *final(res), ..*old(self) },
            }),
    {
        match self.login_field {
            LoginField::ServerUrl => &mut self.server_url_input,
            LoginField::Username => &mut self.username_input,
            LoginField::Password => &mut self.password_input,
        }
    }
}

/// The message shown when the server refuses the session.
pub open spec fn session_expired_text() -> Seq<char> {
    "Session expired. Please log in again."@
}

/// `new` is `old` after a log-out with `message`: back on the login screen
/// without a client, the stored session forgotten, the password, browsing,
/// search and playback state cleared; the server URL, user name, focused
/// field and downloads kept.
pub open spec fn logged_out(old: App, new: App, message: Seq<char>) -> bool {
    &&& new.screen == Screen::Login
    &&& new.client is None
    &&& !new.login_loading
    &&& new.login_error is Some && new.login_error->0@ == message
    &&& new.password_input@.len() == 0
    &&& new.error_message is None
    &&& new.nav_stack@.len() == 0
    &&& new.home_sections@.len() == 0
    &&& new.home_row == 0
    &&& new.home_col == 0
    &&& new.items@.len() == 0
    &&& new.selected_index == 0
    &&& new.search_query@.len() == 0
    &&& new.search_results@.len() == 0
    &&& new.search_selected == 0
    &&& !new.show_downloads
    &&& new.playback_session_id == 0
    &&& new.now_playing is None
    &&& new.last_position_ticks == 0
    &&& !new.playback_paused
    &&& !new.marked_as_played
    &&& new.config.server_url == old.config.server_url
    &&& new.config.access_token is None
    &&& new.config.user_id is None
    &&& new.running == old.running
    &&& new.login_field == old.login_field
    &&& new.server_url_input == old.server_url_input
    &&& new.username_input == old.username_input
    &&& new.grid_columns == old.grid_columns
    &&& new.total_items == old.total_items
    &&& new.previous_screen == old.previous_screen
    &&& new.downloads == old.downloads
    &&& new.download_manager == old.download_manager
}

impl App {
    fn reset_to_login(&mut self, message: &str)
        ensures
            logged_out(*old(self), *final(self), message@),
            final(self).loading == old(self).loading,
    {
        self.screen = Screen::Login;
        self.client = None;
        self.login_loading = false;
        self.login_error = Some(owned(message));
        self.password_input = String::new();
        self.error_message = None;
        self.nav_stack.clear();
        self.home_sections.clear();
        self.home_row = 0;
        self.home_col = 0;
        self.items.clear();
        self.selected_index = 0;
        self.search_query = String::new();
        self.search_results.clear();
        self.search_selected = 0;
        self.show_downloads = false;
        self.playback_session_id = 0;
        self.now_playing = None;
        self.last_position_ticks = 0;
        self.playback_paused = false;
        self.marked_as_played = false;
        self.config.access_token = None;
        self.config.user_id = None;
    }

    /// When the server refused the session, logs out with the message
    /// "Session expired. Please log in again." and answers true; any other
    /// error changes nothing and answers false. The caller stops the player
    /// and saves the configuration after a log-out.
    pub fn handle_unauthorized(&mut self, error: &Error) -> (res: bool)
        ensures
            keeps_selection_in_bounds(*old(self), *final(self)),
            res == (*error is Unauthorized),
            res ==> logged_out(*old(self), *final(self), session_expired_text()),
            res ==> final(self).loading == old(self).loading,
            !res ==> *final(self) == *old(self),
    {
        match error {
            Error::Unauthorized => {
                self.reset_to_login("Session expired. Please log in again.");
                true
            },
            _ => false,
        }
    }

    /// Starts a log-in: clears the login error, shows the loading indicator,
    /// and gives the client of the entered server URL that will authenticate.
    pub fn begin_login(&mut self) -> (res: JellyfinClient)
        ensures
            *final(self) == (App { login_error: None, login_loading: true, ..*old(self) }),
            res@.server_url == trim_trailing_slashes(old(self).server_url_input@),
            res@.access_token is None,
            res@.user_id is None,
            is_app_client_info(res@.info),
    {
        self.login_error = None;
        self.login_loading = true;
        JellyfinClient::new(self.server_url_input.as_str(), client_info())
    }

    /// Stores the session of an authenticated client in the configuration:
    /// the entered server URL, the token and the user.
    pub fn record_login(&mut self, client: &JellyfinClient)
        ensures
            final(self).config.server_url is Some,
            final(self).config.server_url->0 == old(self).server_url_input,
            opt_text(final(self).config.access_token) == client@.access_token,
            opt_text(final(self).config.user_id) == client@.user_id,
            *final(self) == (App { config: final(self).config, ..*old(self) }),
    {
        self.config.server_url = Some(self.server_url_input.clone());
        self.config.access_token = match client.access_token() {
            Some(t) => Some(owned(t)),
            None => None,
        };
        self.config.user_id = match client.user_id() {
            Some(u) => Some(owned(u)),
            None => None,
        };
    }

    /// Finishes a successful log-in: keeps the client and shows the home screen.
    pub fn enter_home(&mut self, client: JellyfinClient)
        ensures
            *final(self) == (App {
                client: Some(client),
                screen: Screen::Home,
                login_loading: false,
                ..*old(self)
            }),
    {
        self.client = Some(client);
        self.screen = Screen::Home;
        self.login_loading = false;
    }

    /// Finishes a failed log-in: shows the error and hides the loading indicator.
    pub fn login_failed(&mut self, error: &Error)
        ensures
            final(self).login_error is Some,
            final(self).login_error->0@ == crate::client::error_message(*error),
            *final(self) == (App {
                login_error: final(self).login_error,
                login_loading: false,
                ..*old(self)
            }),
    {
        self.login_error = Some(error.message());
        self.login_loading = false;
    }
}

/// The text of an optional string.
pub open spec fn opt_text(o: Option<String>) -> Option<Seq<char>> {
    crate::model::opt_view(o)
}

/// The rows of the home screen, in the order they are loaded and shown.
#[derive(Debug, Clone, Copy, PartialEq, Eq, Structural)]
pub enum HomeRow {
    Libraries,
    ContinueWatching,
    NextUp,
    RecentMovies,
    RecentShows,
}

/// How many items each home row asks for.
pub const HOME_ROW_LIMIT: u32 = 10;

impl HomeRow {
    /// The first row loaded.
    pub fn first() -> (res: Self)
        ensures
            res == HomeRow::Libraries,
    {
        HomeRow::Libraries
    }

    /// The row loaded after this one, if any.
    pub fn next(self) -> (res: Option<Self>)
        ensures
            res == self.spec_next(),
    {
        match self {
            HomeRow::Libraries => Some(HomeRow::ContinueWatching),
            HomeRow::ContinueWatching => Some(HomeRow::NextUp),
            HomeRow::NextUp => Some(HomeRow::RecentMovies),
            HomeRow::RecentMovies => Some(HomeRow::RecentShows),
            HomeRow::RecentShows => None,
        }
    }

    pub open spec fn spec_next(self) -> Option<Self> {
        match self {
            HomeRow::Libraries => Some(HomeRow::ContinueWatching),
            HomeRow::ContinueWatching => Some(HomeRow::NextUp),
            HomeRow::NextUp => Some(HomeRow::RecentMovies),
            HomeRow::RecentMovies => Some(HomeRow::RecentShows),
            HomeRow::RecentShows => None,
        }
    }

    /// The title of the row's section.
    pub open spec fn spec_title(self) -> Seq<char> {
        match self {
            HomeRow::Libraries => "Libraries"@,
            HomeRow::ContinueWatching => "Continue Watching"@,
            HomeRow::NextUp => "Next Up"@,
            HomeRow::RecentMovies => "Recently in Movies"@,
            HomeRow::RecentShows => "Recently in TV Shows"@,
        }
    }

    /// The title of the row's section.
    pub fn title(self) -> (res: String)
        ensures
            res@ == self.spec_title(),
    {
        match self {
            HomeRow::Libraries => owned("Libraries"),
            HomeRow::ContinueWatching => owned("Continue Watching"),
            HomeRow::NextUp => owned("Next Up"),
            HomeRow::RecentMovies => owned("Recently in Movies"),
            HomeRow::RecentShows => owned("Recently in TV Shows"),
        }
    }

    /// What the row's items are: the user's libraries, or media items.
    pub open spec fn spec_kind(self) -> HomeSectionKind {
        match self {
            HomeRow::Libraries => HomeSectionKind::Libraries,
            _ => HomeSectionKind::Items,
        }
    }

    pub fn kind(self) -> (res: HomeSectionKind)
        ensures
            res == self.spec_kind(),
    {
        match self {
            HomeRow::Libraries => HomeSectionKind::Libraries,
            _ => HomeSectionKind::Items,
        }
    }

    /// The request that loads the row: the user's views, resumable items,
    /// next-up episodes, or the ten latest movies or series.
    pub open spec fn spec_request(self, c: JellyfinClientView) -> Result<ApiRequestView, Error> {
        match self {
            HomeRow::Libraries => user_views_request_spec(c),
            HomeRow::ContinueWatching => resume_items_request_spec(c, 10),
            HomeRow::NextUp => next_up_items_request_spec(c, 10),
            HomeRow::RecentMovies => latest_items_request_spec(c, seq!["Movie"@], 10),
            HomeRow::RecentShows => latest_items_request_spec(c, seq!["Series"@], 10),
        }
    }

    /// The request that loads the row.
    pub fn request(self, client: &JellyfinClient) -> (res: Result<ApiRequest, Error>)
        ensures
            request_result_view(res) == self.spec_request(client@),
    {
        match self {
            HomeRow::Libraries => client.user_views_request(),
            HomeRow::ContinueWatching => client.resume_items_request(HOME_ROW_LIMIT),
            HomeRow::NextUp => client.next_up_items_request(HOME_ROW_LIMIT),
            HomeRow::RecentMovies => {
                let types: [&str; 1] = ["Movie"];
                let r = client.latest_items_request(types.as_slice(), HOME_ROW_LIMIT);
                assert(crate::client::strs_view(types@) =~= seq!["Movie"@]);
                r
            },
            HomeRow::RecentShows => {
                let types: [&str; 1] = ["Series"];
                let r = client.latest_items_request(types.as_slice(), HOME_ROW_LIMIT);
                assert(crate::client::strs_view(types@) =~= seq!["Series"@]);
                r
            },
        }
    }
}

impl App {
    /// Starts loading the home screen: shows the loading indicator, clears the
    /// sections, the selection and the error. Answers whether there is a
    /// client to load with; without one the screen stays in its loading state.
    pub fn begin_home_load(&mut self) -> (res: bool)
        ensures
            keeps_selection_in_bounds(*old(self), *final(self)),
            res == old(self).client is Some,
            final(self).home_sections@.len() == 0,
            *final(self) == (App {
                loading: true,
                error_message: None,
                home_sections: final(self).home_sections,
                home_row: 0,
                home_col: 0,
                ..*old(self)
            }),
    {
        self.loading = true;
        self.error_message = None;
        self.home_sections.clear();
        self.home_row = 0;
        self.home_col = 0;
        self.client.is_some()
    }

    /// Takes in the outcome of loading one home row. A non-empty list becomes
    /// a section at the end; an empty one is skipped. A refused session logs
    /// out, ends the loading and answers true: loading stops there. Any other
    /// error is shown, unless an earlier row's error is shown already (the
    /// libraries row shows its error in any case).
    pub fn apply_home_row(&mut self, row: HomeRow, result: Result<Vec<MediaItem>, Error>) -> (res: bool)
        ensures
            keeps_selection_in_bounds(*old(self), *final(self)),
            res == (result matches Err(Error::Unauthorized)),
            res ==> logged_out(*old(self), *final(self), session_expired_text())
                && !final(self).loading,
            result matches Ok(items) ==> items@.len() == 0 ==> *final(self) == *old(self),
            result matches Ok(items) ==> items@.len() > 0 ==> {
                &&& final(self).home_sections@.len() == old(self).home_sections@.len() + 1
                &&& final(self).home_sections@.drop_last() == old(self).home_sections@
                &&& final(self).home_sections@.last().title@ == row.spec_title()
                &&& final(self).home_sections@.last().kind == row.spec_kind()
                &&& final(self).home_sections@.last().items == items
                &&& *final(self) == (App { home_sections: final(self).home_sections, ..*old(self) })
            },
            result matches Err(e) ==> !(e is Unauthorized) ==> {
                &&& (row == HomeRow::Libraries || old(self).error_message is None) ==> (
                    final(self).error_message is Some
                    && final(self).error_message->0@ == crate::client::error_message(e))
                &&& !(row == HomeRow::Libraries || old(self).error_message is None) ==>
                    final(self).error_message == old(self).error_message
                &&& *final(self) == (App { error_message: final(self).error_message, ..*old(self) })
            },
    {
        match result {
            Ok(items) => {
                if items.len() > 0 {
                    let section = HomeSection { title: row.title(), kind: row.kind(), items };
                    self.home_sections.push(section);
                }
                false
            },
            Err(e) => {
                if self.handle_unauthorized(&e) {
                    self.loading = false;
                    return true;
                }
                let first_row = match row {
                    HomeRow::Libraries => true,
                    _ => false,
                };
                if first_row || self.error_message.is_none() {
                    self.error_message = Some(e.message());
                }
                false
            },
        }
    }

    /// Ends loading the home screen.
    pub fn finish_home_load(&mut self)
        ensures
            *final(self) == (App { loading: false, ..*old(self) }),
    {
        self.loading = false;
    }

    /// Starts loading a folder's items: shows the loading indicator and clears
    /// the error. Answers whether there is a client to load with; without one
    /// the screen stays in its loading state.
    pub fn begin_items_load(&mut self) -> (res: bool)
        ensures
            res == old(self).client is Some,
            *final(self) == (App { loading: true, error_message: None, ..*old(self) }),
    {
        self.loading = true;
        self.error_message = None;
        self.client.is_some()
    }

    /// Takes in the outcome of loading a folder's items (the first hundred,
    /// sorted by name): they replace the items, with the first selected. A
    /// refused session logs out and answers true; another error is shown.
    /// Loading ends in every case.
    pub fn apply_items_result(&mut self, result: Result<ItemsResponse, Error>) -> (res: bool)
        ensures
            keeps_selection_in_bounds(*old(self), *final(self)),
            res == (result matches Err(Error::Unauthorized)),
            res ==> logged_out(*old(self), *final(self), session_expired_text())
                && !final(self).loading,
            result matches Ok(r) ==> *final(self) == (App {
                items: r.items,
                total_items: r.total_record_count,
                selected_index: 0,
                loading: false,
                ..*old(self)
            }),
            result matches Err(e) ==> !(e is Unauthorized) ==> {
                &&& final(self).error_message is Some
                &&& final(self).error_message->0@ == crate::client::error_message(e)
                &&& *final(self) == (App {
                    error_message: final(self).error_message,
                    loading: false,
                    ..*old(self)
                })
            },
    {
        match result {
            Ok(r) => {
                self.items = r.items;
                self.total_items = r.total_record_count;
                self.selected_index = 0;
                self.loading = false;
                false
            },
            Err(e) => {
                if self.handle_unauthorized(&e) {
                    self.loading = false;
                    return true;
                }
                self.error_message = Some(e.message());
                self.loading = false;
                false
            },
        }
    }

    /// Starts a search. With an empty query the results are cleared and no
    /// request is made (answers false). Otherwise shows the loading indicator,
    /// clears the error, and answers true.
    pub fn begin_search(&mut self) -> (res: bool)
        ensures
            keeps_selection_in_bounds(*old(self), *final(self)),
            res == (old(self).search_query@.len() > 0),
            !res ==> final(self).search_results@.len() == 0 && *final(self) == (App {
                search_results: final(self).search_results,
                ..*old(self)
            }),
            res ==> *final(self) == (App { loading: true, error_message: None, ..*old(self) }),
    {
        if self.search_query.as_str().is_empty() {
            self.search_results.clear();
            return false;
        }
        self.loading = true;
        self.error_message = None;
        true
    }

    /// Takes in the outcome of a search: its items become the results, with
    /// the first selected. A refused session logs out and answers true; another
    /// error is shown. Loading ends in every case.
    pub fn apply_search_result(&mut self, result: Result<ItemsResponse, Error>) -> (res: bool)
        ensures
            keeps_selection_in_bounds(*old(self), *final(self)),
            res == (result matches Err(Error::Unauthorized)),
            res ==> logged_out(*old(self), *final(self), session_expired_text())
                && !final(self).loading,
            result matches Ok(r) ==> *final(self) == (App {
                search_results: r.items,
                search_selected: 0,
                loading: false,
                ..*old(self)
            }),
            result matches Err(e) ==> !(e is Unauthorized) ==> {
                &&& final(self).error_message is Some
                &&& final(self).error_message->0@ == crate::client::error_message(e)
                &&& *final(self) == (App {
                    error_message: final(self).error_message,
                    loading: false,
                    ..*old(self)
                })
            },
    {
        match result {
            Ok(r) => {
                self.search_results = r.items;
                self.search_selected = 0;
                self.loading = false;
                false
            },
            Err(e) => {
                if self.handle_unauthorized(&e) {
                    self.loading = false;
                    return true;
                }
                self.error_message = Some(e.message());
                self.loading = false;
                false
            },
        }
    }
}

/// The number of items in home section `row`, or 0 when there is no such section.
pub open spec fn section_len(sections: Seq<HomeSection>, row: int) -> int {
    if 0 <= row < sections.len() {
        sections[row].items@.len() as int
    } else {
        0
    }
}

/// The grid's number of columns, at least one.
pub open spec fn columns(a: App) -> int {
    if a.grid_columns == 0 {
        1
    } else {
        a.grid_columns as int
    }
}

/// The home column after moving to a row with `len` items: kept when it is
/// within the row, or the row's last item otherwise.
pub open spec fn clamp_col(col: usize, len: int) -> usize {
    if len > 0 && col >= len {
        (len - 1) as usize
    } else {
        col
    }
}

/// The state after "up": the previous home row, or one grid row up.
pub open spec fn moved_up(a: App) -> App {
    match a.screen {
        Screen::Home => if a.home_row > 0 {
            let row = (a.home_row - 1) as usize;
            App { home_row: row, home_col: clamp_col(a.home_col, section_len(a.home_sections@, row as int)), ..a }
        } else {
            a
        },
        Screen::Library => if a.selected_index >= columns(a) {
            App { selected_index: (a.selected_index - columns(a)) as usize, ..a }
        } else {
            a
        },
        Screen::Search => if a.search_selected >= columns(a) {
            App { search_selected: (a.search_selected - columns(a)) as usize, ..a }
        } else {
            a
        },
        Screen::Login => a,
    }
}

/// The index one grid row down from `index` in a grid of `len` items with
/// `cols` columns: the same column a row down, or the last item when that
/// row has no such column.
pub open spec fn index_down(index: int, cols: int, len: int) -> int {
    if index + cols < len {
        index + cols
    } else if len > 0 {
        len - 1
    } else {
        index
    }
}

/// The state after "down": the next home row, or one grid row down.
pub open spec fn moved_down(a: App) -> App {
    match a.screen {
        Screen::Home => if a.home_row + 1 < a.home_sections@.len() {
            let row = (a.home_row + 1) as usize;
            App { home_row: row, home_col: clamp_col(a.home_col, section_len(a.home_sections@, row as int)), ..a }
        } else {
            a
        },
        Screen::Library => App {
            selected_index: index_down(a.selected_index as int, columns(a), a.items@.len() as int) as usize,
            ..a
        },
        Screen::Search => App {
            search_selected: index_down(a.search_selected as int, columns(a), a.search_results@.len() as int) as usize,
            ..a
        },
        Screen::Login => a,
    }
}

/// The state after "left": one item to the left, when there is one.
pub open spec fn moved_left(a: App) -> App {
    match a.screen {
        Screen::Home => if a.home_col > 0 {
            App { home_col: (a.home_col - 1) as usize, ..a }
        } else {
            a
        },
        Screen::Library => if a.selected_index > 0 {
            App { selected_index: (a.selected_index - 1) as usize, ..a }
        } else {
            a
        },
        Screen::Search => if a.search_selected > 0 {
            App { search_selected: (a.search_selected - 1) as usize, ..a }
        } else {
            a
        },
        Screen::Login => a,
    }
}

/// The state after "right": one item to the right, when there is one.
pub open spec fn moved_right(a: App) -> App {
    match a.screen {
        Screen::Home => if a.home_col + 1 < section_len(a.home_sections@, a.home_row as int) {
            App { home_col: (a.home_col + 1) as usize, ..a }
        } else {
            a
        },
        Screen::Library => if a.selected_index + 1 < a.items@.len() {
            App { selected_index: (a.selected_index + 1) as usize, ..a }
        } else {
            a
        },
        Screen::Search => if a.search_selected + 1 < a.search_results@.len() {
            App { search_selected: (a.search_selected + 1) as usize, ..a }
        } else {
            a
        },
        Screen::Login => a,
    }
}

impl App {
    fn section_len_at(&self, row: usize) -> (res: usize)
        ensures
            res == section_len(self.home_sections@, row as int),
    {
        if row < self.home_sections.len() {
            self.home_sections[row].items.len()
        } else {
            0
        }
    }

    fn grid_cols(&self) -> (res: usize)
        ensures
            res == columns(*self),
    {
        if self.grid_columns == 0 {
            1
        } else {
            self.grid_columns
        }
    }

    /// The item selected on the home screen, if the selection is on one.
    pub fn current_home_item(&self) -> (res: Option<&MediaItem>)
        ensures
            (0 <= self.home_row < self.home_sections@.len() && self.home_col < section_len(
                self.home_sections@,
                self.home_row as int,
            )) ==> res == Some(&self.home_sections@[self.home_row as int].items@[self.home_col as int]),
            !(0 <= self.home_row < self.home_sections@.len() && self.home_col < section_len(
                self.home_sections@,
                self.home_row as int,
            )) ==> res is None,
    {
        if self.home_row < self.home_sections.len() {
            let section = &self.home_sections[self.home_row];
            if self.home_col < section.items.len() {
                return Some(&section.items[self.home_col]);
            }
        }
        None
    }

    /// Moves the selection up.
    pub fn move_up(&mut self)
        ensures
            keeps_selection_in_bounds(*old(self), *final(self)),
            *final(self) == moved_up(*old(self)),
    {
        match self.screen {
            Screen::Home => {
                if self.home_row > 0 {
                    self.home_row = self.home_row - 1;
                    let len = self.section_len_at(self.home_row);
                    if len > 0 && self.home_col >= len {
                        self.home_col = len - 1;
                    }
                }
            },
            Screen::Library => {
                let cols = self.grid_cols();
                if self.selected_index >= cols {
                    self.selected_index = self.selected_index - cols;
                }
            },
            Screen::Search => {
                let cols = self.grid_cols();
                if self.search_selected >= cols {
                    self.search_selected = self.search_selected - cols;
                }
            },
            Screen::Login => {},
        }
    }

    /// Moves the selection down.
    pub fn move_down(&mut self)
        ensures
            keeps_selection_in_bounds(*old(self), *final(self)),
            *final(self) == moved_down(*old(self)),
    {
        match self.screen {
            Screen::Home => {
                if self.home_row < self.home_sections.len() && self.home_row + 1 < self.home_sections.len() {
                    self.home_row = self.home_row + 1;
                    let len = self.section_len_at(self.home_row);
                    if len > 0 && self.home_col >= len {
                        self.home_col = len - 1;
                    }
                }
            },
            Screen::Library => {
                let cols = self.grid_cols();
                let len = self.items.len();
                if self.selected_index < len && cols < len - self.selected_index {
                    self.selected_index = self.selected_index + cols;
                } else if len > 0 {
                    self.selected_index = len - 1;
                }
            },
            Screen::Search => {
                let cols = self.grid_cols();
                let len = self.search_results.len();
                if self.search_selected < len && cols < len - self.search_selected {
                    self.search_selected = self.search_selected + cols;
                } else if len > 0 {
                    self.search_selected = len - 1;
                }
            },
            Screen::Login => {},
        }
    }

    /// Moves the selection left.
    pub fn move_left(&mut self)
        ensures
            keeps_selection_in_bounds(*old(self), *final(self)),
            *final(self) == moved_left(*old(self)),
    {
        match self.screen {
            Screen::Home => {
                if self.home_col > 0 {
                    self.home_col = self.home_col - 1;
                }
            },
            Screen::Library => {
                if self.selected_index > 0 {
                    self.selected_index = self.selected_index - 1;
                }
            },
            Screen::Search => {
                if self.search_selected > 0 {
                    self.search_selected = self.search_selected - 1;
                }
            },
            Screen::Login => {},
        }
    }

    /// Moves the selection right.
    pub fn move_right(&mut self)
        ensures
            keeps_selection_in_bounds(*old(self), *final(self)),
            *final(self) == moved_right(*old(self)),
    {
        match self.screen {
            Screen::Home => {
                let len = self.section_len_at(self.home_row);
                if len > 0 && self.home_col < len - 1 {
                    self.home_col = self.home_col + 1;
                }
            },
            Screen::Library => {
                if self.selected_index < self.items.len() && self.selected_index + 1 < self.items.len() {
                    self.selected_index = self.selected_index + 1;
                }
            },
            Screen::Search => {
                if self.search_selected < self.search_results.len() && self.search_selected + 1
                    < self.search_results.len() {
                    self.search_selected = self.search_selected + 1;
                }
            },
            Screen::Login => {},
        }
    }
}

/// What choosing the selected entry leads to.
#[derive(Debug)]
pub enum Selection {
    /// Nothing is selected.
    Nothing,
    /// A folder or library was opened; its items are to be loaded.
    OpenFolder { parent_id: String },
    /// A playable item was chosen. Its full record is to be fetched; when that
    /// fails, the listed item is played, except that a refused session ends
    /// the session if `honor_unauthorized`.
    Play { item: MediaItem, honor_unauthorized: bool },
}

/// `a` with `item` pushed as a folder opened in the browser.
pub open spec fn with_nav_entry(nav: Seq<NavEntry>, item: MediaItem) -> Seq<NavEntry> {
    nav.push(NavEntry { parent_id: item.id, title: item.name })
}

/// The entry `select_item` acts on: the selected home item with its
/// section's kind, the selected library item, or the selected search result.
pub open spec fn selected_entry(a: App) -> Option<(HomeSectionKind, MediaItem)> {
    match a.screen {
        Screen::Home => if 0 <= a.home_row < a.home_sections@.len() && a.home_col < section_len(
            a.home_sections@,
            a.home_row as int,
        ) {
            Some(
                (
                    a.home_sections@[a.home_row as int].kind,
                    a.home_sections@[a.home_row as int].items@[a.home_col as int],
                ),
            )
        } else {
            None
        },
        Screen::Library => if a.selected_index < a.items@.len() {
            Some((HomeSectionKind::Items, a.items@[a.selected_index as int]))
        } else {
            None
        },
        Screen::Search => if a.search_selected < a.search_results@.len() {
            Some((HomeSectionKind::Items, a.search_results@[a.search_selected as int]))
        } else {
            None
        },
        Screen::Login => None,
    }
}

/// `new` and `res` are what choosing the selected entry in `old` gives:
/// nothing without an entry; a library or folder is opened (pushed on the
/// navigation stack, which restarts from search, and the library screen
/// shown); any other item is to be played and nothing changes.
pub open spec fn item_selected(old: App, new: App, res: Selection) -> bool {
    &&& selected_entry(old) is None ==> res is Nothing && new == old
    &&& selected_entry(old) matches Some((kind, item)) ==> {
        if kind == HomeSectionKind::Libraries || item.is_folder {
            &&& res == Selection::OpenFolder { parent_id: item.id }
            &&& new == (App { nav_stack: new.nav_stack, screen: Screen::Library, ..old })
            &&& old.screen == Screen::Search ==> new.nav_stack@ == seq![
                NavEntry { parent_id: item.id, title: item.name },
            ]
            &&& old.screen != Screen::Search ==> new.nav_stack@ == with_nav_entry(old.nav_stack@, item)
        } else {
            &&& res == Selection::Play { item, honor_unauthorized: old.screen != Screen::Home }
            &&& new == old
        }
    }
}

/// Where playback of an item starts: its saved position, or the beginning.
pub open spec fn resume_ticks(item: MediaItem) -> u64 {
    match item.user_data {
        Some(d) => d.playback_position_ticks,
        None => 0,
    }
}

impl App {
    /// Chooses the selected entry. A library, or a folder, is opened: pushed
    /// on the navigation stack (from search, the stack restarts with it) and
    /// the library screen shown; its items are then to be loaded. Another item
    /// is to be played.
    pub fn select_item(&mut self) -> (res: Selection)
        ensures
            keeps_selection_in_bounds(*old(self), *final(self)),
            item_selected(*old(self), *final(self), res),
    {
        let (kind, item) = match self.screen {
            Screen::Home => {
                if self.home_row < self.home_sections.len() {
                    let section = &self.home_sections[self.home_row];
                    if self.home_col < section.items.len() {
                        (section.kind, section.items[self.home_col].clone())
                    } else {
                        return Selection::Nothing;
                    }
                } else {
                    return Selection::Nothing;
                }
            },
            Screen::Library => {
                if self.selected_index < self.items.len() {
                    (HomeSectionKind::Items, self.items[self.selected_index].clone())
                } else {
                    return Selection::Nothing;
                }
            },
            Screen::Search => {
                if self.search_selected < self.search_results.len() {
                    (HomeSectionKind::Items, self.search_results[self.search_selected].clone())
                } else {
                    return Selection::Nothing;
                }
            },
            Screen::Login => {
                return Selection::Nothing;
            },
        };
        let is_library = match kind {
            HomeSectionKind::Libraries => true,
            HomeSectionKind::Items => false,
        };
        if is_library || item.is_folder {
            let from_search = match self.screen {
                Screen::Search => true,
                _ => false,
            };
            if from_search {
                self.nav_stack.clear();
            }
            self.nav_stack.push(NavEntry { parent_id: item.id.clone(), title: item.name.clone() });
            self.screen = Screen::Library;
            Selection::OpenFolder { parent_id: item.id }
        } else {
            let honor_unauthorized = match self.screen {
                Screen::Home => false,
                _ => true,
            };
            Selection::Play { item, honor_unauthorized }
        }
    }

    /// Decides what to play after the chosen item's full record was fetched
    /// (`fetched` is `None` when there was no client to fetch with): the full
    /// record, or the listed item when fetching failed. A refused session,
    /// when honored, logs out instead and nothing is played. Playback starts
    /// at the item's saved position.
    pub fn resolve_playback(
        &mut self,
        item: MediaItem,
        fetched: Option<Result<MediaItem, Error>>,
        honor_unauthorized: bool,
    ) -> (res: Option<PlayingItem>)
        ensures
            keeps_selection_in_bounds(*old(self), *final(self)),
            (honor_unauthorized && fetched matches Some(Err(Error::Unauthorized))) ==> res is None
                && logged_out(*old(self), *final(self), session_expired_text())
                && final(self).loading == old(self).loading,
            !(honor_unauthorized && fetched matches Some(Err(Error::Unauthorized))) ==> {
                let played = match fetched {
                    Some(Ok(full)) => full,
                    _ => item,
                };
                &&& res == Some(PlayingItem { item: played, start_position_ticks: resume_ticks(played) })
                &&& *final(self) == *old(self)
            },
    {
        let played = match fetched {
            None => item,
            Some(Ok(full)) => full,
            Some(Err(e)) => {
                if honor_unauthorized && self.handle_unauthorized(&e) {
                    return None;
                }
                item
            },
        };
        let start_position_ticks = match &played.user_data {
            Some(d) => d.playback_position_ticks,
            None => 0,
        };
        Some(PlayingItem { item: played, start_position_ticks })
    }

    /// Leaves the opened folder. In the library the folder is popped off the
    /// navigation stack; when another folder is below it, its id is given back
    /// to reload it, otherwise the home screen is shown with the first item
    /// selected. On other screens nothing happens.
    pub fn go_back(&mut self) -> (res: Option<String>)
        ensures
            keeps_selection_in_bounds(*old(self), *final(self)),
            old(self).screen != Screen::Library ==> res is None && *final(self) == *old(self),
            old(self).screen == Screen::Library ==> {
                let popped = if old(self).nav_stack@.len() > 0 {
                    old(self).nav_stack@.drop_last()
                } else {
                    old(self).nav_stack@
                };
                &&& final(self).nav_stack@ == popped
                &&& popped.len() > 0 ==> res == Some(popped.last().parent_id) && *final(self) == (App {
                    nav_stack: final(self).nav_stack,
                    ..*old(self)
                })
                &&& popped.len() == 0 ==> res is None && *final(self) == (App {
                    nav_stack: final(self).nav_stack,
                    screen: Screen::Home,
                    selected_index: 0,
                    ..*old(self)
                })
            },
    {
        match self.screen {
            Screen::Library => {
                let _ = self.nav_stack.pop();
                let n = self.nav_stack.len();
                if n > 0 {
                    Some(self.nav_stack[n - 1].parent_id.clone())
                } else {
                    self.screen = Screen::Home;
                    self.selected_index = 0;
                    None
                }
            },
            _ => None,
        }
    }

    /// Opens the search screen with an empty query, remembering the screen it
    /// was opened from.
    pub fn open_search(&mut self)
        ensures
            keeps_selection_in_bounds(*old(self), *final(self)),
            search_opened(*old(self), *final(self)),
    {
        self.previous_screen = Some(self.screen);
        self.screen = Screen::Search;
        self.search_query = String::new();
        self.search_results.clear();
        self.search_selected = 0;
    }

    /// Closes the search screen, back to the screen it was opened from (home
    /// when none is remembered).
    pub fn close_search(&mut self)
        ensures
            keeps_selection_in_bounds(*old(self), *final(self)),
            *final(self) == search_closed(*old(self)),
    {
        match self.previous_screen.take() {
            Some(prev) => {
                self.screen = prev;
            },
            None => {
                self.screen = Screen::Home;
            },
        }
    }

    /// Shows or hides the downloads pop-up.
    pub fn toggle_downloads(&mut self)
        ensures
            *final(self) == (App { show_downloads: !old(self).show_downloads, ..*old(self) }),
    {
        self.show_downloads = !self.show_downloads;
    }

    /// The title of the current screen: "Login", "Home", "Search", or in the
    /// library the opened folder's title ("Library" when none is open).
    pub fn current_title(&self) -> (res: String)
        ensures
            res@ == title_text(*self),
    {
        match self.screen {
            Screen::Login => owned("Login"),
            Screen::Home => owned("Home"),
            Screen::Library => {
                let n = self.nav_stack.len();
                if n > 0 {
                    self.nav_stack[n - 1].title.clone()
                } else {
                    owned("Library")
                }
            },
            Screen::Search => owned("Search"),
        }
    }
}

/// `new` is `old` with the search screen opened: an empty query and no
/// results, and `old`'s screen remembered.
pub open spec fn search_opened(old: App, new: App) -> bool {
    &&& new.search_query@.len() == 0
    &&& new.search_results@.len() == 0
    &&& new == (App {
        previous_screen: Some(old.screen),
        screen: Screen::Search,
        search_query: new.search_query,
        search_results: new.search_results,
        search_selected: 0,
        ..old
    })
}

/// `a` with the search screen closed: back to the remembered screen, or home.
pub open spec fn search_closed(a: App) -> App {
    App {
        screen: match a.previous_screen {
            Some(p) => p,
            None => Screen::Home,
        },
        previous_screen: None,
        ..a
    }
}

/// The title of the current screen.
pub open spec fn title_text(a: App) -> Seq<char> {
    match a.screen {
        Screen::Login => "Login"@,
        Screen::Home => "Home"@,
        Screen::Library => if a.nav_stack@.len() > 0 {
            a.nav_stack@.last().title@
        } else {
            "Library"@
        },
        Screen::Search => "Search"@,
    }
}

/// The item a download would be queued for: the selected item of the
/// library, search or home screen.
pub open spec fn download_candidate(a: App) -> Option<MediaItem> {
    match a.screen {
        Screen::Library => if a.selected_index < a.items@.len() {
            Some(a.items@[a.selected_index as int])
        } else {
            None
        },
        Screen::Search => if a.search_selected < a.search_results@.len() {
            Some(a.search_results@[a.search_selected as int])
        } else {
            None
        },
        Screen::Home => if 0 <= a.home_row < a.home_sections@.len() && a.home_col < section_len(
            a.home_sections@,
            a.home_row as int,
        ) {
            Some(a.home_sections@[a.home_row as int].items@[a.home_col as int])
        } else {
            None
        },
        Screen::Login => None,
    }
}

/// Whether a download of the item with this id is listed.
pub open spec fn has_download(tasks: Seq<DownloadTask>, item_id: Seq<char>) -> bool {
    exists|i: int| 0 <= i < tasks.len() && #[trigger] tasks[i].item_id@ == item_id
}

/// Whether `k` is the first listed download of the item with this id.
pub open spec fn is_first_download(tasks: Seq<DownloadTask>, item_id: Seq<char>, k: int) -> bool {
    &&& 0 <= k < tasks.len()
    &&& tasks[k].item_id@ == item_id
    &&& forall|j: int| 0 <= j < k ==> #[trigger] tasks[j].item_id@ != item_id
}

/// Whether a download for `item` can be queued: it is no folder, it is not
/// listed yet, there is a client with a token, and a download manager.
pub open spec fn can_queue(a: App, item: MediaItem) -> bool {
    &&& !item.is_folder
    &&& !has_download(a.downloads@, item.id@)
    &&& a.client is Some
    &&& a.client->0@.access_token is Some
    &&& a.download_manager is Some
}

/// `new` and `res` are what queuing a download in `old` gives: a task for
/// the candidate item exactly when it can be queued, added at the end of the
/// list, pending, without progress, downloading the item's download URL to
/// the file named after the item in the manager's directory; otherwise
/// nothing changes.
pub open spec fn queued(old: App, new: App, res: Option<DownloadTask>) -> bool {
    &&& res is Some <==> (download_candidate(old) matches Some(item) && can_queue(old, item))
    &&& res is None ==> new == old
    &&& res matches Some(task) ==> {
        let item = download_candidate(old)->0;
        &&& task.item_id == item.id
        &&& task.item_name == item.name
        &&& download_url_spec(old.client->0@, item.id@) == Ok::<Seq<char>, Error>(task.url@)
        &&& task.download_dir == old.download_manager->0.download_dir
        &&& task.file_name@ == safe_file_name(item.name@)
        &&& task.progress == 0
        &&& task.status == DownloadStatus::Pending
        &&& task.error is None
        &&& new.downloads@ == old.downloads@.push(task)
        &&& new == (App { downloads: new.downloads, ..old })
    }
}

impl App {
    fn find_download(&self, item_id: &str) -> (res: Option<usize>)
        ensures
            res matches Some(k) ==> is_first_download(self.downloads@, item_id@, k as int),
            res is None ==> !has_download(self.downloads@, item_id@),
    {
        let mut i: usize = 0;
        while i < self.downloads.len()
            invariant
                i <= self.downloads@.len(),
                forall|j: int| 0 <= j < i ==> #[trigger] self.downloads@[j].item_id@ != item_id@,
            decreases self.downloads@.len() - i,
        {
            if crate::text::same_text(self.downloads[i].item_id.as_str(), item_id) {
                return Some(i);
            }
            i = i + 1;
        }
        None
    }

    /// Queues a download of the selected item and answers its task, unless
    /// the item is a folder, is already listed, or there is no client with a
    /// token or no download manager. The task downloads the item's download
    /// URL and is added at the end of the list.
    pub fn queue_download(&mut self) -> (res: Option<DownloadTask>)
        ensures
            queued(*old(self), *final(self), res),
    {
        let item = match self.screen {
            Screen::Library => {
                if self.selected_index < self.items.len() {
                    self.items[self.selected_index].clone()
                } else {
                    return None;
                }
            },
            Screen::Search => {
                if self.search_selected < self.search_results.len() {
                    self.search_results[self.search_selected].clone()
                } else {
                    return None;
                }
            },
            Screen::Home => match self.current_home_item() {
                Some(i) => i.clone(),
                None => {
                    return None;
                },
            },
            Screen::Login => {
                return None;
            },
        };
        if item.is_folder {
            return None;
        }
        if self.find_download(item.id.as_str()).is_some() {
            return None;
        }
        let url = match &self.client {
            Some(client) => match client.get_download_url(item.id.as_str()) {
                Ok(u) => u,
                Err(_) => {
                    return None;
                },
            },
            None => {
                return None;
            },
        };
        let task = match &self.download_manager {
            Some(manager) => manager.create_task(item.id, item.name, url),
            None => {
                return None;
            },
        };
        self.downloads.push(task.clone());
        Some(task)
    }
}

/// `t` with new progress and status `Downloading`.
pub open spec fn progressed(t: DownloadTask, progress: u8) -> DownloadTask {
    DownloadTask { progress, status: DownloadStatus::Downloading, ..t }
}

/// `t` completed: full progress, status `Completed`.
pub open spec fn completed(t: DownloadTask) -> DownloadTask {
    DownloadTask { progress: 100, status: DownloadStatus::Completed, ..t }
}

/// `t` started: status `Downloading`.
pub open spec fn started(t: DownloadTask) -> DownloadTask {
    DownloadTask { status: DownloadStatus::Downloading, ..t }
}

/// `new` is `old` with the first download of `item_id` changed by `change`, or
/// unchanged when no download of that item is listed.
pub open spec fn first_download_changed(
    old: App,
    new: App,
    item_id: Seq<char>,
    change: spec_fn(DownloadTask) -> DownloadTask,
) -> bool {
    &&& forall|k: int| #[trigger]
        is_first_download(old.downloads@, item_id, k) ==> new.downloads@ == old.downloads@.update(
            k,
            change(old.downloads@[k]),
        )
    &&& !has_download(old.downloads@, item_id) ==> new.downloads == old.downloads
    &&& new == (App { downloads: new.downloads, ..old })
}

impl App {
    fn replace_download(&mut self, k: usize, task: DownloadTask)
        requires
            k < old(self).downloads@.len(),
        ensures
            final(self).downloads@ == old(self).downloads@.update(k as int, task),
            *final(self) == (App { downloads: final(self).downloads, ..*old(self) }),
    {
        self.downloads.set(k, task);
    }

    /// Records progress of the item's download: the percentage, and status
    /// `Downloading`.
    pub fn update_download_progress(&mut self, item_id: &str, progress: u8)
        ensures
            first_download_changed(*old(self), *final(self), item_id@, |t: DownloadTask| progressed(t, progress)),
    {
        match self.find_download(item_id) {
            Some(k) => {
                let mut task = self.downloads[k].clone();
                task.progress = progress;
                task.status = DownloadStatus::Downloading;
                self.replace_download(k, task);
                assert forall|j: int| #[trigger] is_first_download(old(self).downloads@, item_id@, j) implies j == k by {
                    if j < k {
                        assert(old(self).downloads@[j].item_id@ != item_id@);
                    } else if j > k {
                        assert(old(self).downloads@[k as int].item_id@ != item_id@);
                    }
                }
            },
            None => {},
        }
    }

    /// Records that the item's download finished: 100 percent, `Completed`.
    pub fn mark_download_completed(&mut self, item_id: &str)
        ensures
            first_download_changed(*old(self), *final(self), item_id@, |t: DownloadTask| completed(t)),
    {
        match self.find_download(item_id) {
            Some(k) => {
                let mut task = self.downloads[k].clone();
                task.progress = 100;
                task.status = DownloadStatus::Completed;
                self.replace_download(k, task);
                assert forall|j: int| #[trigger] is_first_download(old(self).downloads@, item_id@, j) implies j == k by {
                    if j < k {
                        assert(old(self).downloads@[j].item_id@ != item_id@);
                    } else if j > k {
                        assert(old(self).downloads@[k as int].item_id@ != item_id@);
                    }
                }
            },
            None => {},
        }
    }

    /// Records that the item's download failed, with the error.
    pub fn mark_download_failed(&mut self, item_id: &str, error: String)
        ensures
            first_download_changed(
                *old(self),
                *final(self),
                item_id@,
                |t: DownloadTask| DownloadTask { status: DownloadStatus::Failed, error: Some(error), ..t },
            ),
    {
        match self.find_download(item_id) {
            Some(k) => {
                let mut task = self.downloads[k].clone();
                task.status = DownloadStatus::Failed;
                task.error = Some(error);
                self.replace_download(k, task);
                assert forall|j: int| #[trigger] is_first_download(old(self).downloads@, item_id@, j) implies j == k by {
                    if j < k {
                        assert(old(self).downloads@[j].item_id@ != item_id@);
                    } else if j > k {
                        assert(old(self).downloads@[k as int].item_id@ != item_id@);
                    }
                }
            },
            None => {},
        }
    }

    /// Records that the item's download began: status `Downloading`.
    pub fn mark_download_started(&mut self, item_id: &str)
        ensures
            first_download_changed(*old(self), *final(self), item_id@, |t: DownloadTask| started(t)),
    {
        match self.find_download(item_id) {
            Some(k) => {
                let mut task = self.downloads[k].clone();
                task.status = DownloadStatus::Downloading;
                self.replace_download(k, task);
                assert forall|j: int| #[trigger] is_first_download(old(self).downloads@, item_id@, j) implies j == k by {
                    if j < k {
                        assert(old(self).downloads@[j].item_id@ != item_id@);
                    } else if j > k {
                        assert(old(self).downloads@[k as int].item_id@ != item_id@);
                    }
                }
            },
            None => {},
        }
    }
}

/// Progress reports are sent at most once per this many seconds.
pub const PROGRESS_REPORT_INTERVAL_SECS: u64 = 5;

/// Whether a progress report is due, given the whole seconds since the last
/// one was sent (`None` when none was sent yet).
pub open spec fn report_due(secs_since_last_report: Option<u64>) -> bool {
    match secs_since_last_report {
        Some(secs) => secs >= PROGRESS_REPORT_INTERVAL_SECS,
        None => true,
    }
}

/// `new` and `res` are what ending playback in `old` gives: a new session
/// (so that late events of the ended one are ignored), no playing item,
/// position, pause or played mark, and the stop report, at the last recorded
/// position, when an item was playing and there is a client.
pub open spec fn playback_finished(old: App, new: App, res: Option<PlaybackStopInfo>) -> bool {
    &&& res is Some <==> (old.now_playing is Some && old.client is Some)
    &&& res matches Some(info) ==> info == (PlaybackStopInfo {
        item_id: old.now_playing->0.item.id,
        position_ticks: old.last_position_ticks,
    })
    &&& new == (App {
        playback_session_id: next_session(old.playback_session_id),
        now_playing: None,
        last_position_ticks: 0,
        playback_paused: false,
        marked_as_played: false,
        ..old
    })
}

/// The session id after `id`, wrapping around at `u64::MAX`.
pub open spec fn next_session(id: u64) -> u64 {
    if id == u64::MAX {
        0
    } else {
        (id + 1) as u64
    }
}

/// The report that playback of an item began: at its start position, not
/// paused, not muted, at volume 100, with play method "DirectStream".
pub fn playback_start_info(playing: &PlayingItem) -> (res: PlaybackStartInfo)
    ensures
        res.item_id == playing.item.id,
        res.position_ticks == playing.start_position_ticks,
        !res.is_paused,
        !res.is_muted,
        res.volume_level == 100,
        res.play_method@ == "DirectStream"@,
{
    PlaybackStartInfo {
        item_id: playing.item.id.clone(),
        position_ticks: playing.start_position_ticks,
        is_paused: false,
        is_muted: false,
        volume_level: 100,
        play_method: owned("DirectStream"),
    }
}

impl App {
    /// Opens a new playback session and answers its id; events of earlier
    /// sessions are ignored from now on.
    pub fn next_playback_session(&mut self) -> (res: u64)
        ensures
            res == next_session(old(self).playback_session_id),
            *final(self) == (App { playback_session_id: res, ..*old(self) }),
    {
        self.playback_session_id = self.playback_session_id.wrapping_add(1);
        self.playback_session_id
    }

    /// Records that `playing` is now being played: not paused, not yet marked played.
    pub fn begin_playback(&mut self, playing: PlayingItem)
        ensures
            *final(self) == (App {
                now_playing: Some(playing),
                playback_paused: false,
                marked_as_played: false,
                ..*old(self)
            }),
    {
        self.playback_paused = false;
        self.marked_as_played = false;
        self.now_playing = Some(playing);
    }

    /// Takes in a position report of session `session_id`: ignored (answers
    /// false) when it belongs to an earlier session; otherwise the position
    /// and pause state are recorded.
    pub fn record_progress(&mut self, session_id: u64, position_ticks: u64, paused: bool) -> (res: bool)
        ensures
            res == (session_id == old(self).playback_session_id),
            !res ==> *final(self) == *old(self),
            res ==> *final(self) == (App {
                last_position_ticks: position_ticks,
                playback_paused: paused,
                ..*old(self)
            }),
    {
        if session_id != self.playback_session_id {
            return false;
        }
        self.last_position_ticks = position_ticks;
        self.playback_paused = paused;
        true
    }

    /// The progress report to send after a position report, given the whole
    /// seconds since the last report was sent (`None` when none was sent in
    /// this playback): when an item is playing, there is a client, and either
    /// no report was sent yet or at least `PROGRESS_REPORT_INTERVAL_SECS`
    /// passed. It names the item, the position, the pause state, not muted,
    /// volume 100.
    pub fn progress_report(&self, position_ticks: u64, paused: bool, secs_since_last_report: Option<u64>) -> (res:
        Option<PlaybackProgressInfo>)
        ensures
            res is Some <==> (report_due(secs_since_last_report) && self.now_playing is Some
                && self.client is Some),
            res matches Some(info) ==> info == (PlaybackProgressInfo {
                item_id: self.now_playing->0.item.id,
                position_ticks,
                is_paused: paused,
                is_muted: false,
                volume_level: 100,
            }),
    {
        let due = match secs_since_last_report {
            Some(secs) => secs >= PROGRESS_REPORT_INTERVAL_SECS,
            None => true,
        };
        if !due {
            return None;
        }
        match (&self.now_playing, &self.client) {
            (Some(playing), Some(_)) => Some(PlaybackProgressInfo {
                item_id: playing.item.id.clone(),
                position_ticks,
                is_paused: paused,
                is_muted: false,
                volume_level: 100,
            }),
            _ => None,
        }
    }

    /// Ends playback: opens a new session (so that late events are ignored),
    /// forgets the playing item, position, pause and played marks, and answers
    /// the stop report to send, at the last recorded position, when an item was
    /// playing and there is a client.
    pub fn finish_playback(&mut self) -> (res: Option<PlaybackStopInfo>)
        ensures
            playback_finished(*old(self), *final(self), res),
    {
        self.playback_session_id = self.playback_session_id.wrapping_add(1);
        let playing = self.now_playing.take();
        let report = match (&playing, &self.client) {
            (Some(p), Some(_)) => Some(PlaybackStopInfo {
                item_id: p.item.id.clone(),
                position_ticks: self.last_position_ticks,
            }),
            _ => None,
        };
        self.last_position_ticks = 0;
        self.playback_paused = false;
        self.marked_as_played = false;
        report
    }
}

impl App {
    /// Whether an event of session `session_id` belongs to the current
    /// playback session (events of earlier sessions are ignored).
    pub fn is_current_session(&self, session_id: u64) -> (res: bool)
        ensures
            res == (session_id == self.playback_session_id),
    {
        session_id == self.playback_session_id
    }

    /// Takes in the player's report that playback of session `session_id`
    /// finished: ignored (`None`, nothing changes) when it belongs to an
    /// earlier session; otherwise playback ends, and the answer holds the stop
    /// report to send, if any.
    pub fn finish_session(&mut self, session_id: u64) -> (res: Option<Option<PlaybackStopInfo>>)
        ensures
            res is Some <==> session_id == old(self).playback_session_id,
            res is None ==> *final(self) == *old(self),
            res matches Some(report) ==> playback_finished(*old(self), *final(self), report),
    {
        if !self.is_current_session(session_id) {
            return None;
        }
        Some(self.finish_playback())
    }

    /// Takes in the player's report of an error in session `session_id`,
    /// given whether the player still runs: ignored (`None`, nothing changes)
    /// when it belongs to an earlier session or the player still runs;
    /// otherwise the error is shown, naming the player's log, and playback
    /// ends, and the answer holds the stop report to send, if any.
    pub fn fail_session(&mut self, session_id: u64, player_running: bool, message: &str, log_path: &str) -> (res:
        Option<Option<PlaybackStopInfo>>)
        ensures
            res is Some <==> (session_id == old(self).playback_session_id && !player_running),
            res is None ==> *final(self) == *old(self),
            res matches Some(report) ==> {
                &&& final(self).error_message matches Some(m) && m@ == "Player error: "@ + message@
                    + ". MPV log: "@ + log_path@
                &&& playback_finished(
                    App { error_message: final(self).error_message, ..*old(self) },
                    *final(self),
                    report,
                )
            },
    {
        if !self.is_current_session(session_id) || player_running {
            return None;
        }
        self.error_message = Some(crate::player::player_error_text(message, log_path));
        Some(self.finish_playback())
    }

    /// Shows that the player could not be started, naming the reason and
    /// the player's log; nothing else changes.
    pub fn show_start_error(&mut self, reason: &str, log_path: &str)
        ensures
            final(self).error_message matches Some(m) && m@ == "Failed to start player: "@ + reason@
                + ". MPV log: "@ + log_path@,
            *final(self) == (App { error_message: final(self).error_message, ..*old(self) }),
    {
        self.error_message = Some(crate::player::start_error_text(reason, log_path));
    }

    /// Sets the number of grid columns the screen has room for; nothing
    /// else changes.
    pub fn set_grid_columns(&mut self, columns: usize)
        ensures
            *final(self) == (App { grid_columns: columns, ..*old(self) }),
            keeps_selection_in_bounds(*old(self), *final(self)),
    {
        self.grid_columns = columns;
    }
}

impl App {
    /// The runtime, in ticks, of the playing item while it is not yet marked
    /// played: the measure its progress is compared with.
    pub fn unmarked_runtime_ticks(&self) -> (res: Option<u64>)
        ensures
            res == (if !self.marked_as_played && self.now_playing is Some {
                self.now_playing->0.item.run_time_ticks
            } else {
                None
            }),
    {
        if self.marked_as_played {
            return None;
        }
        match &self.now_playing {
            Some(playing) => playing.item.run_time_ticks,
            None => None,
        }
    }

    /// Marks the playing item played, once; answers its id when the server
    /// is to be told (there is a client).
    pub fn mark_as_played(&mut self) -> (res: Option<String>)
        ensures
            *final(self) == (App { marked_as_played: true, ..*old(self) }),
            res is Some <==> (old(self).now_playing is Some && old(self).client is Some),
            res matches Some(id) ==> id == old(self).now_playing->0.item.id,
    {
        self.marked_as_played = true;
        match (&self.now_playing, &self.client) {
            (Some(playing), Some(_)) => Some(playing.item.id.clone()),
            _ => None,
        }
    }
}

/// Moving the login focus forward and back, or back and forward, returns to
/// the same field, and three steps forward go round once.
pub proof fn lemma_login_focus_cycles(f: LoginField)
    ensures
        f.spec_next().spec_prev() == f,
        f.spec_prev().spec_next() == f,
        f.spec_next().spec_next().spec_next() == f,
{
}

/// The selection points at an existing entry of every list it belongs to,
/// whenever that list has entries: the home row at a section, the home
/// column at an item of the selected section (sections are never empty), the
/// library and search selections at an item.
pub open spec fn selection_in_bounds(a: App) -> bool {
    &&& forall|i: int| 0 <= i < a.home_sections@.len() ==> #[trigger] a.home_sections@[i].items@.len() > 0
    &&& a.home_row < a.home_sections@.len() || a.home_row == 0
    &&& a.home_col < section_len(a.home_sections@, a.home_row as int) || a.home_col == 0
    &&& a.selected_index < a.items@.len() || a.items@.len() == 0
    &&& a.search_selected < a.search_results@.len() || a.search_results@.len() == 0
}

/// `b` keeps the selection on existing entries if `a` did.
pub open spec fn keeps_selection_in_bounds(a: App, b: App) -> bool {
    selection_in_bounds(a) ==> selection_in_bounds(b)
}

/// Moving left and then right returns to the same entry whenever the
/// selection is on an entry with one to its left.
pub proof fn lemma_left_then_right_returns(a: App)
    requires
        a.screen == Screen::Home ==> 0 < a.home_col < section_len(a.home_sections@, a.home_row as int),
        a.screen == Screen::Library ==> 0 < a.selected_index < a.items@.len(),
        a.screen == Screen::Search ==> 0 < a.search_selected < a.search_results@.len(),
    ensures
        moved_right(moved_left(a)) == a,
{
}

/// Opening the search and closing it again returns to the screen it was
/// opened from.
pub proof fn lemma_search_round_trip(a: App, b: App)
    requires
        search_opened(a, b),
    ensures
        search_closed(b).screen == a.screen,
        search_closed(b).previous_screen is None,
{
}

/// Showing the downloads twice leaves them as they were.
pub proof fn lemma_toggle_twice(a: App)
    ensures
        (App { show_downloads: !(App { show_downloads: !a.show_downloads, ..a }).show_downloads, ..a }) == a,
{
}

/// No two listed downloads are of the same item.
pub open spec fn distinct_downloads(tasks: Seq<DownloadTask>) -> bool {
    forall|i: int, j: int|
        0 <= i < tasks.len() && 0 <= j < tasks.len() && i != j ==> #[trigger] tasks[i].item_id@
            != #[trigger] tasks[j].item_id@
}

/// Queuing downloads never lists an item twice.
pub proof fn lemma_queue_keeps_downloads_distinct(a: App, b: App, res: Option<DownloadTask>)
    requires
        distinct_downloads(a.downloads@),
        queued(a, b, res),
    ensures
        distinct_downloads(b.downloads@),
{
    if res is Some {
        let t = res->0;
        let n = a.downloads@.len() as int;
        assert forall|i: int, j: int|
            0 <= i < b.downloads@.len() && 0 <= j < b.downloads@.len() && i != j implies #[trigger] b.downloads@[i].item_id@
                != #[trigger] b.downloads@[j].item_id@ by {
            if i == n {
                assert(b.downloads@[j] == a.downloads@[j]);
                assert(!has_download(a.downloads@, t.item_id@));
                assert(a.downloads@[j].item_id@ != t.item_id@);
            } else if j == n {
                assert(b.downloads@[i] == a.downloads@[i]);
                assert(a.downloads@[i].item_id@ != t.item_id@);
            } else {
                assert(b.downloads@[i] == a.downloads@[i]);
                assert(b.downloads@[j] == a.downloads@[j]);
            }
        }
    }
}

/// Updating a download's progress or status keeps the downloads distinct.
pub proof fn lemma_updates_keep_downloads_distinct(
    a: App,
    b: App,
    item_id: Seq<char>,
    change: spec_fn(DownloadTask) -> DownloadTask,
)
    requires
        distinct_downloads(a.downloads@),
        first_download_changed(a, b, item_id, change),
        forall|t: DownloadTask| #[trigger] change(t).item_id == t.item_id,
    ensures
        distinct_downloads(b.downloads@),
{
    if has_download(a.downloads@, item_id) {
        let i0 = choose|i: int| 0 <= i < a.downloads@.len() && #[trigger] a.downloads@[i].item_id@ == item_id;
        assert(is_first_download(a.downloads@, item_id, i0)) by {
            assert forall|j: int| 0 <= j < i0 implies #[trigger] a.downloads@[j].item_id@ != item_id by {
                assert(a.downloads@[j].item_id@ != a.downloads@[i0].item_id@);
            }
        }
        assert(b.downloads@ == a.downloads@.update(i0, change(a.downloads@[i0])));
        assert(change(a.downloads@[i0]).item_id == a.downloads@[i0].item_id);
        assert forall|i: int, j: int|
            0 <= i < b.downloads@.len() && 0 <= j < b.downloads@.len() && i != j implies #[trigger] b.downloads@[i].item_id@
                != #[trigger] b.downloads@[j].item_id@ by {
            assert(b.downloads@[i].item_id == a.downloads@[i].item_id);
            assert(b.downloads@[j].item_id == a.downloads@[j].item_id);
        }
    }
}

/// Ending playback always moves to another session, so the events of the
/// ended session (position reports, its end, its errors) are ignored
/// afterwards.
pub proof fn lemma_ended_session_is_ignored(a: App, b: App, report: Option<PlaybackStopInfo>)
    requires
        playback_finished(a, b, report),
    ensures
        b.playback_session_id != a.playback_session_id,
{
}

/// The two "recently added" rows ask for different things: the movies row
/// for the user's latest items of type "Movie", the TV shows row for those
/// of type "Series"; without a user neither can be asked.
pub proof fn lemma_recent_rows_ask_for_their_types(c: JellyfinClientView)
    ensures
        c.user_id is None ==> HomeRow::RecentMovies.spec_request(c) == Err::<ApiRequestView, Error>(
            Error::Unauthenticated,
        ) && HomeRow::RecentShows.spec_request(c) == Err::<ApiRequestView, Error>(Error::Unauthenticated),
        c.user_id matches Some(u) ==> {
            &&& HomeRow::RecentMovies.spec_request(c) matches Ok(r) && r.method == Method::Get && r.url
                == c.server_url + "/Users/"@ + u + "/Items"@ && r.query[0] == ("IncludeItemTypes"@, "Movie"@)
            &&& HomeRow::RecentShows.spec_request(c) matches Ok(r) && r.method == Method::Get && r.url
                == c.server_url + "/Users/"@ + u + "/Items"@ && r.query[0] == ("IncludeItemTypes"@, "Series"@)
            &&& HomeRow::RecentMovies.spec_request(c) != HomeRow::RecentShows.spec_request(c)
        },
{
    reveal_strlit("Movie");
    reveal_strlit("Series");
    assert(crate::client::comma_join(seq!["Movie"@]) == "Movie"@);
    assert(crate::client::comma_join(seq!["Series"@]) == "Series"@);
    if c.user_id is Some {
        assert("Movie"@[0] != "Series"@[0]);
    }
}

/// On the search screen the highlighted result is the one chosen, whatever
/// the library's selection: a folder among the results is opened as the
/// only entry of the navigation stack, on the library screen; any other
/// result is played, a refused session then ending it. Without a
/// highlighted result nothing happens.
pub proof fn lemma_search_selects_highlighted_result(a: App, b: App, res: Selection)
    requires
        a.screen == Screen::Search,
        item_selected(a, b, res),
    ensures
        a.search_selected < a.search_results@.len() ==> {
            let item = a.search_results@[a.search_selected as int];
            &&& item.is_folder ==> res == Selection::OpenFolder { parent_id: item.id } && b.screen
                == Screen::Library && b.nav_stack@ == seq![NavEntry { parent_id: item.id, title: item.name }]
            &&& !item.is_folder ==> res == Selection::Play { item, honor_unauthorized: true } && b == a
        },
        a.search_selected >= a.search_results@.len() ==> res is Nothing && b == a,
{
}

/// On the library screen the item at `selected_index` is the one chosen: a
/// folder is opened on top of the navigation stack, any other item played.
pub proof fn lemma_library_selects_highlighted_item(a: App, b: App, res: Selection)
    requires
        a.screen == Screen::Library,
        item_selected(a, b, res),
    ensures
        a.selected_index < a.items@.len() ==> {
            let item = a.items@[a.selected_index as int];
            &&& item.is_folder ==> res == Selection::OpenFolder { parent_id: item.id } && b.screen
                == Screen::Library && b.nav_stack@ == a.nav_stack@.push(
                NavEntry { parent_id: item.id, title: item.name },
            )
            &&& !item.is_folder ==> res == Selection::Play { item, honor_unauthorized: true } && b == a
        },
        a.selected_index >= a.items@.len() ==> res is Nothing && b == a,
{
}

/// On the search screen the highlighted result is the one downloaded,
/// whatever the library's selection: a task for it is queued exactly when it
/// can be, named after it and downloading its download URL, and it is added
/// at the end of the list. Without a highlighted result nothing is queued.
pub proof fn lemma_search_downloads_highlighted_result(a: App, b: App, res: Option<DownloadTask>)
    requires
        a.screen == Screen::Search,
        queued(a, b, res),
    ensures
        a.search_selected < a.search_results@.len() ==> {
            let item = a.search_results@[a.search_selected as int];
            &&& res is Some <==> can_queue(a, item)
            &&& res matches Some(t) ==> t.item_id == item.id && t.item_name == item.name
                && download_url_spec(a.client->0@, item.id@) == Ok::<Seq<char>, Error>(t.url@)
                && b.downloads@ == a.downloads@.push(t)
        },
        a.search_selected >= a.search_results@.len() ==> res is None && b == a,
{
}

/// On the library screen the item at `selected_index` is the one
/// downloaded.
pub proof fn lemma_library_downloads_highlighted_item(a: App, b: App, res: Option<DownloadTask>)
    requires
        a.screen == Screen::Library,
        queued(a, b, res),
    ensures
        a.selected_index < a.items@.len() ==> {
            let item = a.items@[a.selected_index as int];
            &&& res is Some <==> can_queue(a, item)
            &&& res matches Some(t) ==> t.item_id == item.id && t.item_name == item.name
                && b.downloads@ == a.downloads@.push(t)
        },
        a.selected_index >= a.items@.len() ==> res is None && b == a,
{
}

/// In the search grid, "up" goes one grid row up: it subtracts the number of
/// columns (one when none is set) when the selection is below the first row,
/// and leaves it in the first row; nothing else changes. Going down and then
/// up within full rows, or up and then down, returns to the same result.
pub proof fn lemma_search_grid_up(a: App)
    requires
        a.screen == Screen::Search,
    ensures
        ({
            let cols: int = if a.grid_columns == 0 { 1 } else { a.grid_columns as int };
            &&& a.search_selected >= cols ==> moved_up(a) == (App {
                search_selected: (a.search_selected - cols) as usize,
                ..a
            })
            &&& a.search_selected < cols ==> moved_up(a) == a
            &&& a.search_selected + cols < a.search_results@.len() ==> moved_up(moved_down(a)) == a
            &&& cols <= a.search_selected < a.search_results@.len() ==> moved_down(moved_up(a)) == a
        }),
{
    let cols: int = if a.grid_columns == 0 { 1 } else { a.grid_columns as int };
    assert(columns(a) == cols);
    assert(a.search_results.len() == a.search_results@.len());
    if a.search_selected + cols < a.search_results@.len() {
        let d = moved_down(a);
        assert(d.search_selected == a.search_selected + cols);
        assert(columns(d) == cols);
        assert(moved_up(d) == a);
    }
    if cols <= a.search_selected < a.search_results@.len() {
        let u = moved_up(a);
        assert(columns(u) == cols);
        assert(u.search_selected == a.search_selected - cols);
        assert(moved_down(u) == a);
    }
}

/// In the library grid, "up" goes one grid row up in the same way, and
/// going down and then up within full rows returns to the same item.
pub proof fn lemma_library_grid_up(a: App)
    requires
        a.screen == Screen::Library,
    ensures
        ({
            let cols: int = if a.grid_columns == 0 { 1 } else { a.grid_columns as int };
            &&& a.selected_index >= cols ==> moved_up(a) == (App {
                selected_index: (a.selected_index - cols) as usize,
                ..a
            })
            &&& a.selected_index < cols ==> moved_up(a) == a
            &&& a.selected_index + cols < a.items@.len() ==> moved_up(moved_down(a)) == a
            &&& cols <= a.selected_index < a.items@.len() ==> moved_down(moved_up(a)) == a
        }),
{
    let cols: int = if a.grid_columns == 0 { 1 } else { a.grid_columns as int };
    assert(columns(a) == cols);
    assert(a.items.len() == a.items@.len());
    if a.selected_index + cols < a.items@.len() {
        let d = moved_down(a);
        assert(d.selected_index == a.selected_index + cols);
        assert(columns(d) == cols);
        assert(moved_up(d) == a);
    }
    if cols <= a.selected_index < a.items@.len() {
        let u = moved_up(a);
        assert(columns(u) == cols);
        assert(u.selected_index == a.selected_index - cols);
        assert(moved_down(u) == a);
    }
}

/// Each home row asks for its own listing under the session's user: the
/// libraries row the user's views, "continue watching" the user's resumable
/// items, "next up" the next episodes for the user, and the two "recently
/// added" rows the user's items (of the types above); all are GET requests.
pub proof fn lemma_home_rows_ask_for_their_listings(c: JellyfinClientView)
    requires
        c.user_id is Some,
    ensures
        ({
            let u = c.user_id->0;
            &&& HomeRow::Libraries.spec_request(c) matches Ok(r) && r.method == Method::Get && r.url
                == c.server_url + "/Users/"@ + u + "/Views"@ && r.query.len() == 0
            &&& HomeRow::ContinueWatching.spec_request(c) matches Ok(r) && r.method == Method::Get
                && r.url == c.server_url + "/Users/"@ + u + "/Items/Resume"@
            &&& HomeRow::NextUp.spec_request(c) matches Ok(r) && r.method == Method::Get && r.url
                == c.server_url + "/Shows/NextUp"@ && r.query[0] == ("UserId"@, u)
            &&& HomeRow::RecentMovies.spec_request(c) matches Ok(r) && r.url == c.server_url
                + "/Users/"@ + u + "/Items"@
            &&& HomeRow::RecentShows.spec_request(c) matches Ok(r) && r.url == c.server_url + "/Users/"@
                + u + "/Items"@
        }),
{
}

/// On the home screen the item at the selected column of the selected row
/// is the one chosen: an entry of the libraries row, or a folder, is opened
/// on top of the navigation stack; any other item is played, a refused
/// session then falling back to the listed item.
pub proof fn lemma_home_selects_highlighted_item(a: App, b: App, res: Selection)
    requires
        a.screen == Screen::Home,
        item_selected(a, b, res),
    ensures
        a.home_row < a.home_sections@.len() && a.home_col < a.home_sections@[a.home_row as int].items@.len()
            ==> {
            let section = a.home_sections@[a.home_row as int];
            let item = section.items@[a.home_col as int];
            &&& (section.kind == HomeSectionKind::Libraries || item.is_folder) ==> res
                == Selection::OpenFolder { parent_id: item.id } && b.screen == Screen::Library
                && b.nav_stack@ == a.nav_stack@.push(NavEntry { parent_id: item.id, title: item.name })
            &&& !(section.kind == HomeSectionKind::Libraries || item.is_folder) ==> res == Selection::Play {
                item,
                honor_unauthorized: false,
            } && b == a
        },
        !(a.home_row < a.home_sections@.len() && a.home_col < a.home_sections@[a.home_row as int].items@.len())
            ==> res is Nothing && b == a,
{
}

/// On the home screen the selected item of the selected row is the one
/// downloaded.
pub proof fn lemma_home_downloads_highlighted_item(a: App, b: App, res: Option<DownloadTask>)
    requires
        a.screen == Screen::Home,
        queued(a, b, res),
    ensures
        a.home_row < a.home_sections@.len() && a.home_col < a.home_sections@[a.home_row as int].items@.len()
            ==> {
            let item = a.home_sections@[a.home_row as int].items@[a.home_col as int];
            &&& res is Some <==> can_queue(a, item)
            &&& res matches Some(t) ==> t.item_id == item.id && b.downloads@ == a.downloads@.push(t)
        },
        !(a.home_row < a.home_sections@.len() && a.home_col < a.home_sections@[a.home_row as int].items@.len())
            ==> res is None && b == a,
{
}

/// In the search grid, "down" goes one grid row down when that row has an
/// item in the same column, and otherwise to the last result; "left" and
/// "right" go one result back or forward while there is one. Nothing else
/// changes.
pub proof fn lemma_search_grid_moves(a: App)
    requires
        a.screen == Screen::Search,
    ensures
        ({
            let cols: int = if a.grid_columns == 0 { 1 } else { a.grid_columns as int };
            let len = a.search_results@.len() as int;
            &&& a.search_selected + cols < len ==> moved_down(a) == (App {
                search_selected: (a.search_selected + cols) as usize,
                ..a
            })
            &&& a.search_selected + cols >= len && len > 0 ==> moved_down(a) == (App {
                search_selected: (len - 1) as usize,
                ..a
            })
            &&& a.search_selected > 0 ==> moved_left(a) == (App {
                search_selected: (a.search_selected - 1) as usize,
                ..a
            })
            &&& a.search_selected == 0 ==> moved_left(a) == a
            &&& a.search_selected + 1 < len ==> moved_right(a) == (App {
                search_selected: (a.search_selected + 1) as usize,
                ..a
            })
            &&& a.search_selected + 1 >= len ==> moved_right(a) == a
        }),
{
    assert(a.search_results.len() == a.search_results@.len());
}

/// In the library grid, the moves go as in the search grid, over the
/// library's items.
pub proof fn lemma_library_grid_moves(a: App)
    requires
        a.screen == Screen::Library,
    ensures
        ({
            let cols: int = if a.grid_columns == 0 { 1 } else { a.grid_columns as int };
            let len = a.items@.len() as int;
            &&& a.selected_index + cols < len ==> moved_down(a) == (App {
                selected_index: (a.selected_index + cols) as usize,
                ..a
            })
            &&& a.selected_index + cols >= len && len > 0 ==> moved_down(a) == (App {
                selected_index: (len - 1) as usize,
                ..a
            })
            &&& a.selected_index > 0 ==> moved_left(a) == (App {
                selected_index: (a.selected_index - 1) as usize,
                ..a
            })
            &&& a.selected_index == 0 ==> moved_left(a) == a
            &&& a.selected_index + 1 < len ==> moved_right(a) == (App {
                selected_index: (a.selected_index + 1) as usize,
                ..a
            })
            &&& a.selected_index + 1 >= len ==> moved_right(a) == a
        }),
{
    assert(a.items.len() == a.items@.len());
}

} // verus!
