//! Session state of a Jellyfin server connection, and the requests and URLs
//! that the session makes.
use vstd::prelude::*;

use crate::model::{clone_opt_string, opt_view, AuthResponse, ExternalSubtitle, ExternalSubtitleView, MediaSource, MediaStream, PlaybackInfoResponse, PlaybackProgressInfo, PlaybackStartInfo, PlaybackStopInfo};
use crate::text::{chars_of, decimal, decimal_string, owned, same_text, signed_decimal, signed_decimal_string, string_from_prefix};

verus! {

/// Identifies the client application to the Jellyfin server.
pub struct ClientInfo {
    pub name: String,
    pub device: String,
    pub device_id: String,
    pub version: String,
}

impl Clone for ClientInfo {
    fn clone(&self) -> (res: Self)
        ensures
            res == *self,
    {
        ClientInfo {
            name: self.name.clone(),
            device: self.device.clone(),
            device_id: self.device_id.clone(),
            version: self.version.clone(),
        }
    }
}

impl ClientInfo {
    /// A `ClientInfo` whose device is "PC" and whose device id is the application name.
    pub fn new(name: &str, version: &str) -> (res: Self)
        ensures
            res.name@ == name@,
            res.device@ == "PC"@,
            res.device_id@ == name@,
            res.version@ == version@,
    {
        let mut device = String::new();
        device.append("PC");
        let mut n = String::new();
        n.append(name);
        let mut id = String::new();
        id.append(name);
        let mut v = String::new();
        v.append(version);
        ClientInfo { device_id: id, name: n, device, version: v }
    }

    /// The same info with another device name.
    pub fn with_device(self, device: &str) -> (res: Self)
        ensures
            res.device@ == device@,
            res.name == self.name,
            res.device_id == self.device_id,
            res.version == self.version,
    {
        let mut d = String::new();
        d.append(device);
        ClientInfo { device: d, ..self }
    }

    /// The same info with another device id.
    pub fn with_device_id(self, device_id: &str) -> (res: Self)
        ensures
            res.device_id@ == device_id@,
            res.name == self.name,
            res.device == self.device,
            res.version == self.version,
    {
        let mut d = String::new();
        d.append(device_id);
        ClientInfo { device_id: d, ..self }
    }
}

/// Why a request to the server was not made or did not succeed.
#[derive(Debug)]
pub enum Error {
    /// The request needs a logged-in user, and the session has none.
    Unauthenticated,
    /// The server refused the session's token (HTTP 401).
    Unauthorized,
    /// The server answered with another unsuccessful status.
    Server { operation: &'static str, status: u16, body: String },
    /// The request could not be sent, or its answer could not be read.
    Transport(String),
}

impl Error {
    /// Human-readable description of the error.
    pub fn message(&self) -> (res: String)
        ensures
            res@ == error_message(*self),
    {
        match self {
            Error::Unauthenticated => {
                let mut s = String::new();
                s.append("Not authenticated");
                s
            },
            Error::Unauthorized => {
                let mut s = String::new();
                s.append("Unauthorized: the session has expired");
                s
            },
            Error::Server { operation, status, body } => {
                let mut s = String::new();
                s.append(operation);
                s.append(" failed: ");
                let code = decimal_string(*status as u64);
                s.append(code.as_str());
                s.append(" - ");
                s.append(body.as_str());
                s
            },
            Error::Transport(m) => m.clone(),
        }
    }
}

/// The text of an error's description.
pub open spec fn error_message(e: Error) -> Seq<char> {
    match e {
        Error::Unauthenticated => "Not authenticated"@,
        Error::Unauthorized => "Unauthorized: the session has expired"@,
        Error::Server { operation, status, body } => operation@ + " failed: "@ + decimal(
            status as nat,
        ) + " - "@ + body@,
        Error::Transport(m) => m@,
    }
}


/// `s` without the '/' characters at its end.
pub open spec fn trim_trailing_slashes(s: Seq<char>) -> Seq<char>
    decreases s.len(),
{
    if s.len() > 0 && s.last() == '/' {
        trim_trailing_slashes(s.drop_last())
    } else {
        s
    }
}

/// `s` without its trailing '/' characters, as `s.trim_end_matches('/')` gives it.
pub fn trim_end_slashes(s: &str) -> (res: String)
    ensures
        res@ == trim_trailing_slashes(s@),
{
    let cs = chars_of(s);
    let mut end = cs.len();
    assert(cs@.take(end as int) == cs@);
    while end > 0 && cs[end - 1] == '/'
        invariant
            end <= cs@.len(),
            cs@ == s@,
            trim_trailing_slashes(s@) == trim_trailing_slashes(cs@.take(end as int)),
        decreases end,
    {
        assert(cs@.take(end as int).drop_last() == cs@.take(end - 1));
        end = end - 1;
    }
    string_from_prefix(cs.as_slice(), end)
}

/// Async client for a single Jellyfin server: its address, the application's
/// identity and, once logged in, the session's token and user.
pub struct JellyfinClient {
    info: ClientInfo,
    server_url: String,
    access_token: Option<String>,
    user_id: Option<String>,
}

/// What a client holds, as text.
pub struct JellyfinClientView {
    pub info: ClientInfo,
    pub server_url: Seq<char>,
    pub access_token: Option<Seq<char>>,
    pub user_id: Option<Seq<char>>,
}

impl View for JellyfinClient {
    type V = JellyfinClientView;

    closed spec fn view(&self) -> JellyfinClientView {
        JellyfinClientView {
            info: self.info,
            server_url: self.server_url@,
            access_token: opt_view(self.access_token),
            user_id: opt_view(self.user_id),
        }
    }
}

impl Clone for JellyfinClient {
    fn clone(&self) -> (res: Self)
        ensures
            res@ == self@,
    {
        JellyfinClient {
            info: self.info.clone(),
            server_url: self.server_url.clone(),
            access_token: clone_opt_string(&self.access_token),
            user_id: clone_opt_string(&self.user_id),
        }
    }
}

/// The `X-Emby-Authorization` header that identifies the application and,
/// when there is one, the session's token.
pub open spec fn auth_header_text(c: JellyfinClientView) -> Seq<char> {
    let base = "MediaBrowser Client=\""@ + c.info.name@ + "\", Device=\""@ + c.info.device@
        + "\", DeviceId=\""@ + c.info.device_id@ + "\", Version=\""@ + c.info.version@ + "\""@;
    match c.access_token {
        Some(t) => base + ", Token=\""@ + t + "\""@,
        None => base,
    }
}

/// A client of the server at `server_url`, without a session.
pub open spec fn new_client_view(server_url: Seq<char>, info: ClientInfo) -> JellyfinClientView {
    JellyfinClientView { info, server_url: trim_trailing_slashes(server_url), access_token: None, user_id: None }
}

/// A client of the server at `server_url` resuming the session of `user_id` with `access_token`.
pub open spec fn restored_client_view(
    server_url: Seq<char>,
    info: ClientInfo,
    access_token: Seq<char>,
    user_id: Seq<char>,
) -> JellyfinClientView {
    JellyfinClientView {
        info,
        server_url: trim_trailing_slashes(server_url),
        access_token: Some(access_token),
        user_id: Some(user_id),
    }
}

/// `c` once logged in as `user_id` with `access_token`.
pub open spec fn authenticated_view(c: JellyfinClientView, access_token: Seq<char>, user_id: Seq<char>) -> JellyfinClientView {
    JellyfinClientView { access_token: Some(access_token), user_id: Some(user_id), ..c }
}

impl JellyfinClient {
    /// A client of the server at `server_url` (trailing '/' removed), without a session.
    pub fn new(server_url: &str, info: ClientInfo) -> (res: Self)
        ensures
            res@ == new_client_view(server_url@, info),
    {
        JellyfinClient {
            info,
            server_url: trim_end_slashes(server_url),
            access_token: None,
            user_id: None,
        }
    }

    /// A client that resumes a session from an earlier log-in.
    pub fn with_token(server_url: &str, info: ClientInfo, access_token: &str, user_id: &str) -> (res: Self)
        ensures
            res@ == restored_client_view(server_url@, info, access_token@, user_id@),
    {
        JellyfinClient {
            info,
            server_url: trim_end_slashes(server_url),
            access_token: Some(owned(access_token)),
            user_id: Some(owned(user_id)),
        }
    }

    pub fn server_url(&self) -> (res: &str)
        ensures
            res@ == self@.server_url,
    {
        self.server_url.as_str()
    }

    pub fn access_token(&self) -> (res: Option<&str>)
        ensures
            res is Some <==> self@.access_token is Some,
            res is Some ==> res->0@ == self@.access_token->0,
    {
        match &self.access_token {
            Some(t) => Some(t.as_str()),
            None => None,
        }
    }

    pub fn user_id(&self) -> (res: Option<&str>)
        ensures
            res is Some <==> self@.user_id is Some,
            res is Some ==> res->0@ == self@.user_id->0,
    {
        match &self.user_id {
            Some(u) => Some(u.as_str()),
            None => None,
        }
    }

    /// The application info the client identifies itself with.
    pub fn info(&self) -> (res: &ClientInfo)
        ensures
            *res == self@.info,
    {
        &self.info
    }

    /// The `X-Emby-Authorization` header of the client's requests.
    pub fn auth_header(&self) -> (res: String)
        ensures
            res@ == auth_header_text(self@),
    {
        let mut h = String::new();
        h.append("MediaBrowser Client=\"");
        h.append(self.info.name.as_str());
        h.append("\", Device=\"");
        h.append(self.info.device.as_str());
        h.append("\", DeviceId=\"");
        h.append(self.info.device_id.as_str());
        h.append("\", Version=\"");
        h.append(self.info.version.as_str());
        h.append("\"");
        match &self.access_token {
            Some(t) => {
                h.append(", Token=\"");
                h.append(t.as_str());
                h.append("\"");
            },
            None => {},
        }
        h
    }
}

/// HTTP method of a request.
#[derive(Debug, Clone, Copy, PartialEq, Eq, Structural)]
pub enum Method {
    Get,
    Post,
}

/// What a request carries as its body.
#[derive(Debug)]
pub enum RequestBody {
    /// No body.
    Empty,
    /// The JSON text `{}`, sent as `application/json`.
    EmptyJsonObject,
    /// The JSON object `{"Username": .., "Pw": ..}`.
    Credentials { username: String, password: String },
    /// A playback-start report as JSON.
    PlaybackStart(PlaybackStartInfo),
    /// A playback-progress report as JSON.
    PlaybackProgress(PlaybackProgressInfo),
    /// A playback-stop report as JSON.
    PlaybackStop(PlaybackStopInfo),
}

/// The body of a request, with its texts as character sequences.
pub enum RequestBodyView {
    Empty,
    EmptyJsonObject,
    Credentials { username: Seq<char>, password: Seq<char> },
    PlaybackStart(PlaybackStartInfo),
    PlaybackProgress(PlaybackProgressInfo),
    PlaybackStop(PlaybackStopInfo),
}

impl View for RequestBody {
    type V = RequestBodyView;

    open spec fn view(&self) -> RequestBodyView {
        match self {
            RequestBody::Empty => RequestBodyView::Empty,
            RequestBody::EmptyJsonObject => RequestBodyView::EmptyJsonObject,
            RequestBody::Credentials { username, password } => RequestBodyView::Credentials {
                username: username@,
                password: password@,
            },
            RequestBody::PlaybackStart(i) => RequestBodyView::PlaybackStart(*i),
            RequestBody::PlaybackProgress(i) => RequestBodyView::PlaybackProgress(*i),
            RequestBody::PlaybackStop(i) => RequestBodyView::PlaybackStop(*i),
        }
    }
}

/// A request to the server: method, URL without query, query parameters in
/// order, the authorization header, the body, and the operation's name for
/// error reports.
#[derive(Debug)]
pub struct ApiRequest {
    pub method: Method,
    pub url: String,
    pub query: Vec<(String, String)>,
    pub authorization: String,
    pub body: RequestBody,
    pub operation: &'static str,
}

/// A request with its texts as character sequences.
pub struct ApiRequestView {
    pub method: Method,
    pub url: Seq<char>,
    pub query: Seq<(Seq<char>, Seq<char>)>,
    pub authorization: Seq<char>,
    pub body: RequestBodyView,
    pub operation: Seq<char>,
}

/// Query parameters as text pairs.
pub open spec fn query_view(q: Seq<(String, String)>) -> Seq<(Seq<char>, Seq<char>)> {
    q.map_values(|p: (String, String)| (p.0@, p.1@))
}

impl View for ApiRequest {
    type V = ApiRequestView;

    open spec fn view(&self) -> ApiRequestView {
        ApiRequestView {
            method: self.method,
            url: self.url@,
            query: query_view(self.query@),
            authorization: self.authorization@,
            body: self.body@,
            operation: self.operation@,
        }
    }
}

/// A request builder's result, with its texts as character sequences.
pub open spec fn request_result_view(r: Result<ApiRequest, Error>) -> Result<ApiRequestView, Error> {
    match r {
        Ok(req) => Ok(req@),
        Err(e) => Err(e),
    }
}

/// The request a client sends with the given method, URL, query, body and operation name.
pub open spec fn api_request(
    c: JellyfinClientView,
    method: Method,
    url: Seq<char>,
    query: Seq<(Seq<char>, Seq<char>)>,
    body: RequestBodyView,
    operation: Seq<char>,
) -> ApiRequestView {
    ApiRequestView { method, url, query, authorization: auth_header_text(c), body, operation }
}

/// Appends one query parameter.
fn push_param(q: &mut Vec<(String, String)>, key: &str, value: &str)
    ensures
        query_view(final(q)@) == query_view(old(q)@).push((key@, value@)),
{
    q.push((owned(key), owned(value)));
    assert(query_view(q@) =~= query_view(old(q)@).push((key@, value@)));
}

/// The image types that list requests ask thumbnails for.
pub open spec fn image_types_text() -> Seq<char> {
    "Primary,Backdrop,Banner,Thumb"@
}

/// The query of a paginated listing of a folder's children.
pub open spec fn items_query(parent_id: Seq<char>, start_index: u32, limit: u32) -> Seq<(Seq<char>, Seq<char>)> {
    seq![
        ("ParentId"@, parent_id),
        ("StartIndex"@, decimal(start_index as nat)),
        ("Limit"@, decimal(limit as nat)),
        ("SortBy"@, "SortName"@),
        ("SortOrder"@, "Ascending"@),
    ]
}

/// The query of the "continue watching" listing.
pub open spec fn resume_query(limit: u32) -> Seq<(Seq<char>, Seq<char>)> {
    seq![
        ("Limit"@, decimal(limit as nat)),
        ("Recursive"@, "true"@),
        ("Fields"@, "PrimaryImageAspectRatio,BasicSyncInfo,ProductionYear,Status,EndDate"@),
        ("ImageTypeLimit"@, "1"@),
        ("EnableImageTypes"@, image_types_text()),
    ]
}

/// The query of the "next up" listing.
pub open spec fn next_up_query(user_id: Seq<char>, limit: u32) -> Seq<(Seq<char>, Seq<char>)> {
    seq![
        ("UserId"@, user_id),
        ("Limit"@, decimal(limit as nat)),
        ("Fields"@, "PrimaryImageAspectRatio,SeriesInfo,DateCreated,BasicSyncInfo,MediaSourceCount"@),
        ("ImageTypeLimit"@, "1"@),
        ("EnableImageTypes"@, image_types_text()),
    ]
}

/// `parts` joined by commas.
pub open spec fn comma_join(parts: Seq<Seq<char>>) -> Seq<char>
    decreases parts.len(),
{
    if parts.len() == 0 {
        seq![]
    } else if parts.len() == 1 {
        parts[0]
    } else {
        comma_join(parts.drop_last()) + ","@ + parts.last()
    }
}

/// The query of the "recently added" listing of the given item types.
pub open spec fn latest_query(types: Seq<char>, limit: u32) -> Seq<(Seq<char>, Seq<char>)> {
    seq![
        ("IncludeItemTypes"@, types),
        ("Recursive"@, "true"@),
        ("SortBy"@, "DateCreated"@),
        ("SortOrder"@, "Descending"@),
        ("Limit"@, decimal(limit as nat)),
        ("Fields"@, "PrimaryImageAspectRatio,ProductionYear,Status,EndDate"@),
        ("ImageTypeLimit"@, "1"@),
        ("EnableImageTypes"@, image_types_text()),
    ]
}

/// The query of a free-text search.
pub open spec fn search_query(query: Seq<char>, limit: u32) -> Seq<(Seq<char>, Seq<char>)> {
    seq![("searchTerm"@, query), ("Recursive"@, "true"@), ("Limit"@, decimal(limit as nat))]
}

/// The texts of a slice of strings.
pub open spec fn strs_view(parts: Seq<&str>) -> Seq<Seq<char>> {
    parts.map_values(|p: &str| p@)
}

/// `parts` joined by commas, as `parts.join(",")` gives it.
pub fn join_commas(parts: &[&str]) -> (res: String)
    ensures
        res@ == comma_join(strs_view(parts@)),
{
    let mut res = String::new();
    let ghost all = strs_view(parts@);
    let mut i: usize = 0;
    while i < parts.len()
        invariant
            i <= parts@.len(),
            all == strs_view(parts@),
            res@ == comma_join(all.take(i as int)),
        decreases parts@.len() - i,
    {
        assert(all.take(i + 1).drop_last() == all.take(i as int));
        if i > 0 {
            res.append(",");
        } else {
            assert(all.take(0) =~= Seq::<Seq<char>>::empty());
        }
        res.append(parts[i]);
        i = i + 1;
    }
    assert(all.take(parts@.len() as int) == all);
    res
}

impl JellyfinClient {
    fn request(
        &self,
        method: Method,
        url: String,
        query: Vec<(String, String)>,
        body: RequestBody,
        operation: &'static str,
    ) -> (res: ApiRequest)
        ensures
            res@ == api_request(self@, method, url@, query_view(query@), body@, operation@),
    {
        ApiRequest { method, url, query, authorization: self.auth_header(), body, operation }
    }

    /// The log-in request for `username` and `password`.
    pub fn authenticate_request(&self, username: &str, password: &str) -> (res: ApiRequest)
        ensures
            res@ == api_request(
                self@,
                Method::Post,
                self@.server_url + "/Users/AuthenticateByName"@,
                seq![],
                RequestBodyView::Credentials { username: username@, password: password@ },
                "authenticate"@,
            ),
    {
        let mut url = self.server_url.clone();
        url.append("/Users/AuthenticateByName");
        let q: Vec<(String, String)> = Vec::new();
        assert(query_view(q@) =~= seq![]);
        self.request(
            Method::Post,
            url,
            q,
            RequestBody::Credentials { username: owned(username), password: owned(password) },
            "authenticate",
        )
    }
}

/// A GET request of the client to `url` with `query`.
pub open spec fn get_request(
    c: JellyfinClientView,
    url: Seq<char>,
    query: Seq<(Seq<char>, Seq<char>)>,
    operation: Seq<char>,
) -> ApiRequestView {
    api_request(c, Method::Get, url, query, RequestBodyView::Empty, operation)
}

/// The request listing the user's libraries, or `Unauthenticated` without a user.
pub open spec fn user_views_request_spec(c: JellyfinClientView) -> Result<ApiRequestView, Error> {
    match c.user_id {
        None => Err(Error::Unauthenticated),
        Some(u) => Ok(
            get_request(c, c.server_url + "/Users/"@ + u + "/Views"@, seq![], "get_user_views"@),
        ),
    }
}

/// The request listing a folder's children, or `Unauthenticated` without a user.
pub open spec fn items_request_spec(
    c: JellyfinClientView,
    parent_id: Seq<char>,
    start_index: u32,
    limit: u32,
) -> Result<ApiRequestView, Error> {
    match c.user_id {
        None => Err(Error::Unauthenticated),
        Some(u) => Ok(
            get_request(
                c,
                c.server_url + "/Users/"@ + u + "/Items"@,
                items_query(parent_id, start_index, limit),
                "get_items"@,
            ),
        ),
    }
}

/// The request listing resumable items, or `Unauthenticated` without a user.
pub open spec fn resume_items_request_spec(c: JellyfinClientView, limit: u32) -> Result<ApiRequestView, Error> {
    match c.user_id {
        None => Err(Error::Unauthenticated),
        Some(u) => Ok(
            get_request(
                c,
                c.server_url + "/Users/"@ + u + "/Items/Resume"@,
                resume_query(limit),
                "get_resume_items"@,
            ),
        ),
    }
}

/// The request listing "next up" episodes, or `Unauthenticated` without a user.
pub open spec fn next_up_items_request_spec(c: JellyfinClientView, limit: u32) -> Result<ApiRequestView, Error> {
    match c.user_id {
        None => Err(Error::Unauthenticated),
        Some(u) => Ok(
            get_request(
                c,
                c.server_url + "/Shows/NextUp"@,
                next_up_query(u, limit),
                "get_next_up_items"@,
            ),
        ),
    }
}

/// The request listing recently added items of some types, or `Unauthenticated` without a user.
pub open spec fn latest_items_request_spec(
    c: JellyfinClientView,
    item_types: Seq<Seq<char>>,
    limit: u32,
) -> Result<ApiRequestView, Error> {
    match c.user_id {
        None => Err(Error::Unauthenticated),
        Some(u) => Ok(
            get_request(
                c,
                c.server_url + "/Users/"@ + u + "/Items"@,
                latest_query(comma_join(item_types), limit),
                "get_latest_items"@,
            ),
        ),
    }
}

/// The request fetching one item, or `Unauthenticated` without a user.
pub open spec fn item_request_spec(c: JellyfinClientView, item_id: Seq<char>) -> Result<ApiRequestView, Error> {
    match c.user_id {
        None => Err(Error::Unauthenticated),
        Some(u) => Ok(
            get_request(c, c.server_url + "/Users/"@ + u + "/Items/"@ + item_id, seq![], "get_item"@),
        ),
    }
}

/// The search request, or `Unauthenticated` without a user.
pub open spec fn search_request_spec(c: JellyfinClientView, query: Seq<char>, limit: u32) -> Result<ApiRequestView, Error> {
    match c.user_id {
        None => Err(Error::Unauthenticated),
        Some(u) => Ok(
            get_request(
                c,
                c.server_url + "/Users/"@ + u + "/Items"@,
                search_query(query, limit),
                "search"@,
            ),
        ),
    }
}

/// The request marking an item played, or `Unauthenticated` without a user.
pub open spec fn mark_played_request_spec(c: JellyfinClientView, item_id: Seq<char>) -> Result<ApiRequestView, Error> {
    match c.user_id {
        None => Err(Error::Unauthenticated),
        Some(u) => Ok(
            api_request(
                c,
                Method::Post,
                c.server_url + "/Users/"@ + u + "/PlayedItems/"@ + item_id,
                seq![],
                RequestBodyView::Empty,
                "mark_played"@,
            ),
        ),
    }
}

/// The request for an item's playback sources, or `Unauthenticated` without a user and a token.
pub open spec fn playback_info_request_spec(c: JellyfinClientView, item_id: Seq<char>) -> Result<ApiRequestView, Error> {
    match (c.user_id, c.access_token) {
        (Some(u), Some(_)) => Ok(
            api_request(
                c,
                Method::Post,
                c.server_url + "/Items/"@ + item_id + "/PlaybackInfo"@,
                seq![("UserId"@, u)],
                RequestBodyView::EmptyJsonObject,
                "get_external_subtitles"@,
            ),
        ),
        _ => Err(Error::Unauthenticated),
    }
}

impl JellyfinClient {
    fn user_url(&self, user_id: &String, tail: &str) -> (res: String)
        ensures
            res@ == self@.server_url + "/Users/"@ + user_id@ + tail@,
    {
        let mut url = self.server_url.clone();
        url.append("/Users/");
        url.append(user_id.as_str());
        url.append(tail);
        url
    }

    /// The request listing the user's libraries.
    pub fn user_views_request(&self) -> (res: Result<ApiRequest, Error>)
        ensures
            request_result_view(res) == user_views_request_spec(self@),
    {
        match &self.user_id {
            None => Err(Error::Unauthenticated),
            Some(u) => {
                let url = self.user_url(u, "/Views");
                let q: Vec<(String, String)> = Vec::new();
                assert(query_view(q@) =~= seq![]);
                Ok(self.request(Method::Get, url, q, RequestBody::Empty, "get_user_views"))
            },
        }
    }

    /// The request listing the children of `parent_id`, sorted by name.
    pub fn items_request(&self, parent_id: &str, start_index: u32, limit: u32) -> (res: Result<ApiRequest, Error>)
        ensures
            request_result_view(res) == items_request_spec(self@, parent_id@, start_index, limit),
    {
        match &self.user_id {
            None => Err(Error::Unauthenticated),
            Some(u) => {
                let url = self.user_url(u, "/Items");
                let mut q: Vec<(String, String)> = Vec::new();
                assert(query_view(q@) =~= seq![]);
                push_param(&mut q, "ParentId", parent_id);
                let start = decimal_string(start_index as u64);
                push_param(&mut q, "StartIndex", start.as_str());
                let lim = decimal_string(limit as u64);
                push_param(&mut q, "Limit", lim.as_str());
                push_param(&mut q, "SortBy", "SortName");
                push_param(&mut q, "SortOrder", "Ascending");
                assert(query_view(q@) =~= items_query(parent_id@, start_index, limit));
                Ok(self.request(Method::Get, url, q, RequestBody::Empty, "get_items"))
            },
        }
    }

    /// The request listing items the user can resume.
    pub fn resume_items_request(&self, limit: u32) -> (res: Result<ApiRequest, Error>)
        ensures
            request_result_view(res) == resume_items_request_spec(self@, limit),
    {
        match &self.user_id {
            None => Err(Error::Unauthenticated),
            Some(u) => {
                let url = self.user_url(u, "/Items/Resume");
                let mut q: Vec<(String, String)> = Vec::new();
                assert(query_view(q@) =~= seq![]);
                let lim = decimal_string(limit as u64);
                push_param(&mut q, "Limit", lim.as_str());
                push_param(&mut q, "Recursive", "true");
                push_param(&mut q, "Fields", "PrimaryImageAspectRatio,BasicSyncInfo,ProductionYear,Status,EndDate");
                push_param(&mut q, "ImageTypeLimit", "1");
                push_param(&mut q, "EnableImageTypes", "Primary,Backdrop,Banner,Thumb");
                assert(query_view(q@) =~= resume_query(limit));
                Ok(self.request(Method::Get, url, q, RequestBody::Empty, "get_resume_items"))
            },
        }
    }

    /// The request listing "next up" episodes across the user's series.
    pub fn next_up_items_request(&self, limit: u32) -> (res: Result<ApiRequest, Error>)
        ensures
            request_result_view(res) == next_up_items_request_spec(self@, limit),
    {
        match &self.user_id {
            None => Err(Error::Unauthenticated),
            Some(u) => {
                let mut url = self.server_url.clone();
                url.append("/Shows/NextUp");
                let mut q: Vec<(String, String)> = Vec::new();
                assert(query_view(q@) =~= seq![]);
                push_param(&mut q, "UserId", u.as_str());
                let lim = decimal_string(limit as u64);
                push_param(&mut q, "Limit", lim.as_str());
                push_param(&mut q, "Fields", "PrimaryImageAspectRatio,SeriesInfo,DateCreated,BasicSyncInfo,MediaSourceCount");
                push_param(&mut q, "ImageTypeLimit", "1");
                push_param(&mut q, "EnableImageTypes", "Primary,Backdrop,Banner,Thumb");
                assert(query_view(q@) =~= next_up_query(u@, limit));
                Ok(self.request(Method::Get, url, q, RequestBody::Empty, "get_next_up_items"))
            },
        }
    }

    /// The request listing the most recently added items of the given types.
    pub fn latest_items_request(&self, item_types: &[&str], limit: u32) -> (res: Result<ApiRequest, Error>)
        ensures
            request_result_view(res) == latest_items_request_spec(self@, strs_view(item_types@), limit),
    {
        match &self.user_id {
            None => Err(Error::Unauthenticated),
            Some(u) => {
                let url = self.user_url(u, "/Items");
                let types = join_commas(item_types);
                let mut q: Vec<(String, String)> = Vec::new();
                assert(query_view(q@) =~= seq![]);
                push_param(&mut q, "IncludeItemTypes", types.as_str());
                push_param(&mut q, "Recursive", "true");
                push_param(&mut q, "SortBy", "DateCreated");
                push_param(&mut q, "SortOrder", "Descending");
                let lim = decimal_string(limit as u64);
                push_param(&mut q, "Limit", lim.as_str());
                push_param(&mut q, "Fields", "PrimaryImageAspectRatio,ProductionYear,Status,EndDate");
                push_param(&mut q, "ImageTypeLimit", "1");
                push_param(&mut q, "EnableImageTypes", "Primary,Backdrop,Banner,Thumb");
                assert(query_view(q@) =~= latest_query(types@, limit));
                Ok(self.request(Method::Get, url, q, RequestBody::Empty, "get_latest_items"))
            },
        }
    }

    /// The request fetching one item with its user data.
    pub fn item_request(&self, item_id: &str) -> (res: Result<ApiRequest, Error>)
        ensures
            request_result_view(res) == item_request_spec(self@, item_id@),
    {
        match &self.user_id {
            None => Err(Error::Unauthenticated),
            Some(u) => {
                let mut url = self.user_url(u, "/Items/");
                url.append(item_id);
                let q: Vec<(String, String)> = Vec::new();
                assert(query_view(q@) =~= seq![]);
                Ok(self.request(Method::Get, url, q, RequestBody::Empty, "get_item"))
            },
        }
    }

    /// The free-text search request.
    pub fn search_request(&self, query: &str, limit: u32) -> (res: Result<ApiRequest, Error>)
        ensures
            request_result_view(res) == search_request_spec(self@, query@, limit),
    {
        match &self.user_id {
            None => Err(Error::Unauthenticated),
            Some(u) => {
                let url = self.user_url(u, "/Items");
                let mut q: Vec<(String, String)> = Vec::new();
                assert(query_view(q@) =~= seq![]);
                push_param(&mut q, "searchTerm", query);
                push_param(&mut q, "Recursive", "true");
                let lim = decimal_string(limit as u64);
                push_param(&mut q, "Limit", lim.as_str());
                assert(query_view(q@) =~= search_query(query@, limit));
                Ok(self.request(Method::Get, url, q, RequestBody::Empty, "search"))
            },
        }
    }

    /// The request marking an item as played for the user.
    pub fn mark_played_request(&self, item_id: &str) -> (res: Result<ApiRequest, Error>)
        ensures
            request_result_view(res) == mark_played_request_spec(self@, item_id@),
    {
        match &self.user_id {
            None => Err(Error::Unauthenticated),
            Some(u) => {
                let mut url = self.user_url(u, "/PlayedItems/");
                url.append(item_id);
                let q: Vec<(String, String)> = Vec::new();
                assert(query_view(q@) =~= seq![]);
                Ok(self.request(Method::Post, url, q, RequestBody::Empty, "mark_played"))
            },
        }
    }

    /// The request for an item's playback sources, from which its external
    /// subtitles are read.
    pub fn playback_info_request(&self, item_id: &str) -> (res: Result<ApiRequest, Error>)
        ensures
            request_result_view(res) == playback_info_request_spec(self@, item_id@),
    {
        match (&self.user_id, &self.access_token) {
            (Some(u), Some(_)) => {
                let mut url = self.server_url.clone();
                url.append("/Items/");
                url.append(item_id);
                url.append("/PlaybackInfo");
                let mut q: Vec<(String, String)> = Vec::new();
                assert(query_view(q@) =~= seq![]);
                push_param(&mut q, "UserId", u.as_str());
                Ok(self.request(Method::Post, url, q, RequestBody::EmptyJsonObject, "get_external_subtitles"))
            },
            _ => Err(Error::Unauthenticated),
        }
    }

    /// The report that playback of an item started.
    pub fn playback_start_request(&self, info: &PlaybackStartInfo) -> (res: ApiRequest)
        ensures
            res@ == api_request(
                self@,
                Method::Post,
                self@.server_url + "/Sessions/Playing"@,
                seq![],
                RequestBodyView::PlaybackStart(*info),
                "report_playback_start"@,
            ),
    {
        let mut url = self.server_url.clone();
        url.append("/Sessions/Playing");
        let q: Vec<(String, String)> = Vec::new();
        assert(query_view(q@) =~= seq![]);
        self.request(Method::Post, url, q, RequestBody::PlaybackStart(info.clone()), "report_playback_start")
    }

    /// The periodic report of the playback position.
    pub fn playback_progress_request(&self, info: &PlaybackProgressInfo) -> (res: ApiRequest)
        ensures
            res@ == api_request(
                self@,
                Method::Post,
                self@.server_url + "/Sessions/Playing/Progress"@,
                seq![],
                RequestBodyView::PlaybackProgress(*info),
                "report_playback_progress"@,
            ),
    {
        let mut url = self.server_url.clone();
        url.append("/Sessions/Playing/Progress");
        let q: Vec<(String, String)> = Vec::new();
        assert(query_view(q@) =~= seq![]);
        self.request(Method::Post, url, q, RequestBody::PlaybackProgress(info.clone()), "report_playback_progress")
    }

    /// The report that playback of an item stopped.
    pub fn playback_stop_request(&self, info: &PlaybackStopInfo) -> (res: ApiRequest)
        ensures
            res@ == api_request(
                self@,
                Method::Post,
                self@.server_url + "/Sessions/Playing/Stopped"@,
                seq![],
                RequestBodyView::PlaybackStop(*info),
                "report_playback_stop"@,
            ),
    {
        let mut url = self.server_url.clone();
        url.append("/Sessions/Playing/Stopped");
        let q: Vec<(String, String)> = Vec::new();
        assert(query_view(q@) =~= seq![]);
        self.request(Method::Post, url, q, RequestBody::PlaybackStop(info.clone()), "report_playback_stop")
    }
}

/// URL of an item's primary image, resized by the server to at most
/// `max_height` pixels, with the session's token when there is one.
pub open spec fn primary_image_url_text(c: JellyfinClientView, item_id: Seq<char>, max_height: u32) -> Seq<char> {
    let base = c.server_url + "/Items/"@ + item_id + "/Images/Primary?maxHeight="@ + decimal(max_height as nat)
        + "&quality=90"@;
    match c.access_token {
        Some(t) => base + "&api_key="@ + t,
        None => base,
    }
}

/// Direct-stream URL of an item, or `Unauthenticated` without a token.
pub open spec fn stream_url_spec(c: JellyfinClientView, item_id: Seq<char>) -> Result<Seq<char>, Error> {
    match c.access_token {
        Some(t) => Ok(c.server_url + "/Videos/"@ + item_id + "/stream?Static=true&api_key="@ + t),
        None => Err(Error::Unauthenticated),
    }
}

/// Download URL of an item, or `Unauthenticated` without a token.
pub open spec fn download_url_spec(c: JellyfinClientView, item_id: Seq<char>) -> Result<Seq<char>, Error> {
    match c.access_token {
        Some(t) => Ok(c.server_url + "/Items/"@ + item_id + "/Download?api_key="@ + t),
        None => Err(Error::Unauthenticated),
    }
}

/// A URL builder's result, with the URL as text.
pub open spec fn url_result_view(r: Result<String, Error>) -> Result<Seq<char>, Error> {
    match r {
        Ok(u) => Ok(u@),
        Err(e) => Err(e),
    }
}

impl JellyfinClient {
    /// URL of an item's primary image (poster), capped at `max_height` pixels.
    pub fn get_primary_image_url(&self, item_id: &str, max_height: u32) -> (res: String)
        ensures
            res@ == primary_image_url_text(self@, item_id@, max_height),
    {
        let mut url = self.server_url.clone();
        url.append("/Items/");
        url.append(item_id);
        url.append("/Images/Primary?maxHeight=");
        let h = decimal_string(max_height as u64);
        url.append(h.as_str());
        url.append("&quality=90");
        match &self.access_token {
            Some(t) => {
                url.append("&api_key=");
                url.append(t.as_str());
            },
            None => {},
        }
        url
    }

    /// Direct-stream URL for an item, suitable for an external player. It holds the API key.
    pub fn get_stream_url(&self, item_id: &str) -> (res: Result<String, Error>)
        ensures
            url_result_view(res) == stream_url_spec(self@, item_id@),
    {
        match &self.access_token {
            None => Err(Error::Unauthenticated),
            Some(t) => {
                let mut url = self.server_url.clone();
                url.append("/Videos/");
                url.append(item_id);
                url.append("/stream?Static=true&api_key=");
                url.append(t.as_str());
                Ok(url)
            },
        }
    }

    /// Direct download URL for an item. It holds the API key.
    pub fn get_download_url(&self, item_id: &str) -> (res: Result<String, Error>)
        ensures
            url_result_view(res) == download_url_spec(self@, item_id@),
    {
        match &self.access_token {
            None => Err(Error::Unauthenticated),
            Some(t) => {
                let mut url = self.server_url.clone();
                url.append("/Items/");
                url.append(item_id);
                url.append("/Download?api_key=");
                url.append(t.as_str());
                Ok(url)
            },
        }
    }

    /// Stores the token and user of a successful log-in.
    pub fn complete_authentication(&mut self, response: &AuthResponse)
        ensures
            final(self)@ == authenticated_view(old(self)@, response.access_token@, response.user.id@),
    {
        self.access_token = Some(response.access_token.clone());
        self.user_id = Some(response.user.id.clone());
    }
}

/// Whether an HTTP status is a success (2xx), as `reqwest::StatusCode::is_success`
/// says. Codes that `StatusCode::from_u16` refuses (below 100, above 999) count as
/// no success.
#[verifier::external_body]
fn status_is_success(status: u16) -> (res: bool)
    ensures
        res == (200 <= status && status < 300),
{
    match reqwest::StatusCode::from_u16(status) {
        Ok(code) => code.is_success(),
        Err(_) => false,
    }
}

/// Whether an HTTP status is `reqwest::StatusCode::UNAUTHORIZED` (401), by
/// `StatusCode`'s comparison with a `u16`.
#[verifier::external_body]
fn status_is_unauthorized(status: u16) -> (res: bool)
    ensures
        res == (status == 401),
{
    reqwest::StatusCode::UNAUTHORIZED == status
}

/// Classifies the server's answer: a 2xx status is a success, 401 means the
/// token was refused, and any other status is a server error that carries the
/// operation, the status and the answer's body.
pub fn check_status(status: u16, body: String, operation: &'static str) -> (res: Result<(), Error>)
    ensures
        200 <= status < 300 <==> res is Ok,
        status == 401 <==> res matches Err(Error::Unauthorized),
        !(200 <= status < 300) && status != 401 <==> res matches Err(Error::Server { .. }),
        res matches Err(Error::Server { operation: op, status: st, body: b }) ==> op == operation
            && st == status && b == body,
{
    if status_is_success(status) {
        return Ok(());
    }
    if status_is_unauthorized(status) {
        return Err(Error::Unauthorized);
    }
    Err(Error::Server { operation, status, body })
}

/// The external text subtitle that a stream of source `source_id` offers,
/// if it is one: a subtitle stream, served as a file of its own, in a text
/// format, with a known codec, which names the file's extension in the URL.
pub open spec fn stream_subtitle(
    server_url: Seq<char>,
    item_id: Seq<char>,
    token: Seq<char>,
    source_id: Seq<char>,
    stream: MediaStream,
) -> Option<ExternalSubtitleView> {
    if stream.stream_type@ != "Subtitle"@ || !stream.is_external || !stream.is_text_subtitle_stream {
        None
    } else {
        match stream.codec {
            Some(codec) if codec@.len() > 0 => Some(
                ExternalSubtitleView {
                    url: server_url + "/Videos/"@ + item_id + "/"@ + source_id + "/Subtitles/"@
                        + signed_decimal(stream.index as int) + "/0/Stream."@ + codec@ + "?api_key="@
                        + token,
                    language: opt_view(stream.language),
                    title: opt_view(stream.display_title),
                },
            ),
            _ => None,
        }
    }
}

/// The external subtitles of a source's streams, in stream order.
pub open spec fn source_subtitles(
    server_url: Seq<char>,
    item_id: Seq<char>,
    token: Seq<char>,
    source_id: Seq<char>,
    streams: Seq<MediaStream>,
) -> Seq<ExternalSubtitleView>
    decreases streams.len(),
{
    if streams.len() == 0 {
        seq![]
    } else {
        let before = source_subtitles(server_url, item_id, token, source_id, streams.drop_last());
        match stream_subtitle(server_url, item_id, token, source_id, streams.last()) {
            Some(sub) => before.push(sub),
            None => before,
        }
    }
}

/// The external subtitles of all sources, source by source.
pub open spec fn all_subtitles(
    server_url: Seq<char>,
    item_id: Seq<char>,
    token: Seq<char>,
    sources: Seq<MediaSource>,
) -> Seq<ExternalSubtitleView>
    decreases sources.len(),
{
    if sources.len() == 0 {
        seq![]
    } else {
        all_subtitles(server_url, item_id, token, sources.drop_last()) + source_subtitles(
            server_url,
            item_id,
            token,
            sources.last().id@,
            sources.last().media_streams@,
        )
    }
}

/// The texts of a list of external subtitles.
pub open spec fn subtitles_view(subs: Seq<ExternalSubtitle>) -> Seq<ExternalSubtitleView> {
    subs.map_values(|s: ExternalSubtitle| s@)
}

/// The external subtitles of an item whose playback sources the server sent,
/// or `Unauthenticated` without a token.
pub open spec fn external_subtitles_spec(
    c: JellyfinClientView,
    item_id: Seq<char>,
    info: PlaybackInfoResponse,
) -> Result<Seq<ExternalSubtitleView>, Error> {
    match c.access_token {
        Some(t) => Ok(all_subtitles(c.server_url, item_id, t, info.media_sources@)),
        None => Err(Error::Unauthenticated),
    }
}

/// A subtitle extraction's result, with its texts as character sequences.
pub open spec fn subtitles_result_view(r: Result<Vec<ExternalSubtitle>, Error>) -> Result<Seq<ExternalSubtitleView>, Error> {
    match r {
        Ok(v) => Ok(subtitles_view(v@)),
        Err(e) => Err(e),
    }
}

impl JellyfinClient {
    fn stream_subtitle_of(&self, item_id: &str, token: &String, source_id: &String, stream: &MediaStream) -> (res: Option<ExternalSubtitle>)
        ensures
            match res {
                Some(sub) => stream_subtitle(self@.server_url, item_id@, token@, source_id@, *stream) == Some(sub@),
                None => stream_subtitle(self@.server_url, item_id@, token@, source_id@, *stream) is None,
            },
    {
        if !same_text(stream.stream_type.as_str(), "Subtitle") || !stream.is_external || !stream.is_text_subtitle_stream {
            return None;
        }
        match &stream.codec {
            Some(codec) => {
                if codec.as_str().is_empty() {
                    return None;
                }
                let mut url = self.server_url.clone();
                url.append("/Videos/");
                url.append(item_id);
                url.append("/");
                url.append(source_id.as_str());
                url.append("/Subtitles/");
                let index = signed_decimal_string(stream.index);
                url.append(index.as_str());
                url.append("/0/Stream.");
                url.append(codec.as_str());
                url.append("?api_key=");
                url.append(token.as_str());
                Some(ExternalSubtitle {
                    url,
                    language: clone_opt_string(&stream.language),
                    title: clone_opt_string(&stream.display_title),
                })
            },
            None => None,
        }
    }

    /// The external text subtitles of an item (those served as separate
    /// files), from the playback sources the server sent for it. The URLs hold
    /// the API key.
    pub fn external_subtitles(&self, item_id: &str, info: &PlaybackInfoResponse) -> (res: Result<Vec<ExternalSubtitle>, Error>)
        ensures
            subtitles_result_view(res) == external_subtitles_spec(self@, item_id@, *info),
    {
        let token = match &self.access_token {
            Some(t) => t,
            None => {
                return Err(Error::Unauthenticated);
            },
        };
        let ghost server = self@.server_url;
        let ghost sources = info.media_sources@;
        let mut subs: Vec<ExternalSubtitle> = Vec::new();
        let mut i: usize = 0;
        while i < info.media_sources.len()
            invariant
                server == self@.server_url,
                sources == info.media_sources@,
                i <= sources.len(),
                subtitles_view(subs@) == all_subtitles(server, item_id@, token@, sources.take(i as int)),
            decreases sources.len() - i,
        {
            let source = &info.media_sources[i];
            let ghost before = subtitles_view(subs@);
            let ghost streams = source.media_streams@;
            let mut j: usize = 0;
            assert(streams.take(0) =~= Seq::<MediaStream>::empty());
            while j < source.media_streams.len()
                invariant
                    server == self@.server_url,
                    streams == source.media_streams@,
                    j <= streams.len(),
                    subtitles_view(subs@) == before + source_subtitles(server, item_id@, token@, source.id@, streams.take(j as int)),
                decreases streams.len() - j,
            {
                let found = self.stream_subtitle_of(item_id, token, &source.id, &source.media_streams[j]);
                assert(streams.take(j + 1).drop_last() == streams.take(j as int));
                let ghost prev = subtitles_view(subs@);
                match found {
                    Some(sub) => {
                        subs.push(sub);
                        assert(subtitles_view(subs@) =~= prev.push(sub@));
                    },
                    None => {},
                }
                j = j + 1;
            }
            assert(streams.take(streams.len() as int) == streams);
            assert(sources.take(i + 1).drop_last() == sources.take(i as int));
            i = i + 1;
        }
        assert(sources.take(sources.len() as int) == sources);
        Ok(subs)
    }
}

/// Requests to user-scoped endpoints, made without a logged-in user, are
/// refused with `Unauthenticated` before anything is sent.
pub proof fn lemma_user_requests_need_a_user(
    c: JellyfinClientView,
    parent_id: Seq<char>,
    start_index: u32,
    limit: u32,
    item_types: Seq<Seq<char>>,
    item_id: Seq<char>,
    query: Seq<char>,
)
    requires
        c.user_id is None,
    ensures
        user_views_request_spec(c) == Err::<ApiRequestView, Error>(Error::Unauthenticated),
        items_request_spec(c, parent_id, start_index, limit) == Err::<ApiRequestView, Error>(Error::Unauthenticated),
        resume_items_request_spec(c, limit) == Err::<ApiRequestView, Error>(Error::Unauthenticated),
        next_up_items_request_spec(c, limit) == Err::<ApiRequestView, Error>(Error::Unauthenticated),
        latest_items_request_spec(c, item_types, limit) == Err::<ApiRequestView, Error>(Error::Unauthenticated),
        item_request_spec(c, item_id) == Err::<ApiRequestView, Error>(Error::Unauthenticated),
        search_request_spec(c, query, limit) == Err::<ApiRequestView, Error>(Error::Unauthenticated),
        mark_played_request_spec(c, item_id) == Err::<ApiRequestView, Error>(Error::Unauthenticated),
        playback_info_request_spec(c, item_id) == Err::<ApiRequestView, Error>(Error::Unauthenticated),
{
}

/// The URLs that carry the API key, and the subtitle lookup, are refused with
/// `Unauthenticated` when the client holds no token.
pub proof fn lemma_keyed_urls_need_a_token(c: JellyfinClientView, item_id: Seq<char>, info: PlaybackInfoResponse)
    requires
        c.access_token is None,
    ensures
        stream_url_spec(c, item_id) == Err::<Seq<char>, Error>(Error::Unauthenticated),
        download_url_spec(c, item_id) == Err::<Seq<char>, Error>(Error::Unauthenticated),
        playback_info_request_spec(c, item_id) == Err::<ApiRequestView, Error>(Error::Unauthenticated),
        external_subtitles_spec(c, item_id, info) == Err::<Seq<ExternalSubtitleView>, Error>(Error::Unauthenticated),
{
}

/// After a log-in every user-scoped request is made, on the server's address,
/// with a header that carries the new token; the stream and download URLs
/// carry the token as API key.
pub proof fn lemma_login_opens_the_session(
    c: JellyfinClientView,
    access_token: Seq<char>,
    user_id: Seq<char>,
    item_id: Seq<char>,
    limit: u32,
)
    ensures
        ({
            let s = authenticated_view(c, access_token, user_id);
            &&& user_views_request_spec(s) matches Ok(r) && r.url == c.server_url + "/Users/"@ + user_id
                + "/Views"@
            &&& item_request_spec(s, item_id) matches Ok(r) && r.authorization == auth_header_text(s)
            &&& resume_items_request_spec(s, limit) is Ok
            &&& next_up_items_request_spec(s, limit) is Ok
            &&& auth_header_text(s).len() > access_token.len()
            &&& auth_header_text(s).subrange(
                auth_header_text(s).len() - access_token.len() - 1,
                auth_header_text(s).len() - 1,
            ) == access_token
            &&& stream_url_spec(s, item_id) == Ok::<Seq<char>, Error>(
                c.server_url + "/Videos/"@ + item_id + "/stream?Static=true&api_key="@ + access_token,
            )
            &&& download_url_spec(s, item_id) == Ok::<Seq<char>, Error>(
                c.server_url + "/Items/"@ + item_id + "/Download?api_key="@ + access_token,
            )
        }),
{
    let s = authenticated_view(c, access_token, user_id);
    let h = auth_header_text(s);
    reveal_strlit("\"");
    let base = "MediaBrowser Client=\""@ + c.info.name@ + "\", Device=\""@ + c.info.device@
        + "\", DeviceId=\""@ + c.info.device_id@ + "\", Version=\""@ + c.info.version@ + "\""@;
    assert(h == base + ", Token=\""@ + access_token + "\""@);
    assert(h.subrange(h.len() - access_token.len() - 1, h.len() - 1) =~= access_token);
}

/// A session resumed from a stored token is the session a log-in with that
/// token and user gives.
pub proof fn lemma_restored_session_is_logged_in(
    server_url: Seq<char>,
    info: ClientInfo,
    access_token: Seq<char>,
    user_id: Seq<char>,
)
    ensures
        restored_client_view(server_url, info, access_token, user_id) == authenticated_view(
            new_client_view(server_url, info),
            access_token,
            user_id,
        ),
{
}

/// The stored server address is the given one without its trailing '/'
/// characters: a prefix of it, followed in it only by '/', and never ending
/// in '/', so the paths appended to it never start with a doubled '/'. Trimming
/// twice changes nothing.
pub proof fn lemma_trimmed_server_url(s: Seq<char>)
    ensures
        trim_trailing_slashes(s).len() <= s.len(),
        trim_trailing_slashes(s) == s.take(trim_trailing_slashes(s).len() as int),
        forall|i: int| trim_trailing_slashes(s).len() <= i < s.len() ==> s[i] == '/',
        trim_trailing_slashes(s).len() > 0 ==> trim_trailing_slashes(s).last() != '/',
        trim_trailing_slashes(trim_trailing_slashes(s)) == trim_trailing_slashes(s),
    decreases s.len(),
{
    if s.len() > 0 && s.last() == '/' {
        lemma_trimmed_server_url(s.drop_last());
        let t = trim_trailing_slashes(s.drop_last());
        assert(s.drop_last().take(t.len() as int) =~= s.take(t.len() as int));
        assert forall|i: int| t.len() <= i < s.len() implies s[i] == '/' by {
            if i < s.len() - 1 {
                assert(s.drop_last()[i] == s[i]);
            }
        }
    } else {
        assert(s.take(s.len() as int) =~= s);
    }
}

/// Whether a stream is an external text subtitle stream with a non-empty
/// codec: the streams that are handed to the player as subtitle files.
pub open spec fn is_external_text_subtitle(s: MediaStream) -> bool {
    &&& s.stream_type@ == "Subtitle"@
    &&& s.is_external
    &&& s.is_text_subtitle_stream
    &&& s.codec matches Some(c) && c@.len() > 0
}

/// The external text subtitle streams among `streams`, in order.
pub open spec fn subtitle_streams(streams: Seq<MediaStream>) -> Seq<MediaStream> {
    streams.filter(|s: MediaStream| is_external_text_subtitle(s))
}

/// Every external text subtitle stream of a source yields exactly one
/// subtitle, in stream order, and no other stream yields one: the subtitles
/// are as many as those streams, and the stream at position `i` that is the
/// `k`-th of them yields the `k`-th subtitle, the file
/// `{server}/Videos/{item}/{source}/Subtitles/{index}/0/Stream.{codec}?api_key={token}`
/// with the stream's language and title.
pub proof fn lemma_each_subtitle_stream_yields_one_file(
    server_url: Seq<char>,
    item_id: Seq<char>,
    token: Seq<char>,
    source_id: Seq<char>,
    streams: Seq<MediaStream>,
)
    ensures
        source_subtitles(server_url, item_id, token, source_id, streams).len() == subtitle_streams(
            streams,
        ).len(),
        forall|i: int|
            0 <= i < streams.len() && #[trigger] is_external_text_subtitle(streams[i]) ==> {
                let k = subtitle_streams(streams.take(i)).len() as int;
                let subs = source_subtitles(server_url, item_id, token, source_id, streams);
                &&& k < subs.len()
                &&& subs[k] == ExternalSubtitleView {
                    url: server_url + "/Videos/"@ + item_id + "/"@ + source_id + "/Subtitles/"@
                        + signed_decimal(streams[i].index as int) + "/0/Stream."@
                        + streams[i].codec->0@ + "?api_key="@ + token,
                    language: opt_view(streams[i].language),
                    title: opt_view(streams[i].display_title),
                }
            },
    decreases streams.len(),
{
    reveal(Seq::filter);
    if streams.len() > 0 {
        let init = streams.drop_last();
        lemma_each_subtitle_stream_yields_one_file(server_url, item_id, token, source_id, init);
        let subs = source_subtitles(server_url, item_id, token, source_id, streams);
        let before = source_subtitles(server_url, item_id, token, source_id, init);
        assert forall|i: int|
            0 <= i < streams.len() && #[trigger] is_external_text_subtitle(streams[i]) implies {
                let k = subtitle_streams(streams.take(i)).len() as int;
                &&& k < subs.len()
                &&& subs[k] == ExternalSubtitleView {
                    url: server_url + "/Videos/"@ + item_id + "/"@ + source_id + "/Subtitles/"@
                        + signed_decimal(streams[i].index as int) + "/0/Stream."@
                        + streams[i].codec->0@ + "?api_key="@ + token,
                    language: opt_view(streams[i].language),
                    title: opt_view(streams[i].display_title),
                }
            } by {
            if i == streams.len() - 1 {
                assert(streams.take(i) =~= init);
            } else {
                assert(init.take(i) =~= streams.take(i));
                assert(init[i] == streams[i]);
            }
        }
    }
}

/// All sources' subtitles: as many as the external text subtitle streams
/// of all sources together, so none is dropped or added.
pub proof fn lemma_subtitles_of_all_sources(
    server_url: Seq<char>,
    item_id: Seq<char>,
    token: Seq<char>,
    sources: Seq<MediaSource>,
)
    ensures
        all_subtitles(server_url, item_id, token, sources).len() == subtitle_streams(
            sources.map_values(|s: MediaSource| s.media_streams@).flatten(),
        ).len(),
    decreases sources.len(),
{
    let lists = sources.map_values(|s: MediaSource| s.media_streams@);
    lists.lemma_flatten_and_flatten_alt_are_equivalent();
    if sources.len() > 0 {
        let init = sources.drop_last();
        let init_lists = init.map_values(|s: MediaSource| s.media_streams@);
        lemma_subtitles_of_all_sources(server_url, item_id, token, init);
        init_lists.lemma_flatten_and_flatten_alt_are_equivalent();
        assert(lists.drop_last() =~= init_lists);
        lemma_each_subtitle_stream_yields_one_file(
            server_url,
            item_id,
            token,
            sources.last().id@,
            sources.last().media_streams@,
        );
        Seq::filter_distributes_over_add(
            init_lists.flatten(),
            sources.last().media_streams@,
            |s: MediaStream| is_external_text_subtitle(s),
        );
    }
}

/// The subtitles handed to the player for an item: with a token, one for
/// each external text subtitle stream of all its sources; without one, the
/// request is refused as unauthenticated.
pub proof fn lemma_external_subtitles_count(c: JellyfinClientView, item_id: Seq<char>, info: PlaybackInfoResponse)
    ensures
        c.access_token is None ==> external_subtitles_spec(c, item_id, info) == Err::<
            Seq<ExternalSubtitleView>,
            Error,
        >(Error::Unauthenticated),
        c.access_token is Some ==> (external_subtitles_spec(c, item_id, info) matches Ok(subs) && subs.len()
            == subtitle_streams(info.media_sources@.map_values(|s: MediaSource| s.media_streams@).flatten()).len()),
{
    if let Some(t) = c.access_token {
        lemma_subtitles_of_all_sources(c.server_url, item_id, t, info.media_sources@);
    }
}

} // verus!
