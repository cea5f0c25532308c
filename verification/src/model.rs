//! Plain data exchanged with a Jellyfin server.
use vstd::prelude::*;

verus! {

/// The text of an optional string, if any.
pub open spec fn opt_view(o: Option<String>) -> Option<Seq<char>> {
    match o {
        Some(s) => Some(s@),
        None => None,
    }
}

/// A copy of an optional string.
pub fn clone_opt_string(o: &Option<String>) -> (res: Option<String>)
    ensures
        res == *o,
{
    match o {
        Some(s) => Some(s.clone()),
        None => None,
    }
}

/// The user an authentication answer belongs to.
#[derive(Debug)]
pub struct User {
    pub id: String,
    pub name: String,
}

/// The server's answer to a successful log-in.
#[derive(Debug)]
pub struct AuthResponse {
    pub access_token: String,
    pub user: User,
}

/// Per-user state of an item: how far it was watched and whether it was finished.
#[derive(Debug)]
pub struct UserData {
    pub playback_position_ticks: u64,
    pub played: bool,
}

impl Clone for UserData {
    fn clone(&self) -> (res: Self)
        ensures
            res == *self,
    {
        UserData { playback_position_ticks: self.playback_position_ticks, played: self.played }
    }
}

/// A library, folder, series, episode, movie or other entry of a server.
#[derive(Debug)]
pub struct MediaItem {
    pub id: String,
    pub name: String,
    /// The server's kind of item ("Movie", "Episode", "CollectionFolder", ...).
    pub item_type: String,
    pub collection_type: Option<String>,
    pub series_name: Option<String>,
    pub production_year: Option<u32>,
    pub index_number: Option<u32>,
    pub parent_index_number: Option<u32>,
    pub is_folder: bool,
    pub run_time_ticks: Option<u64>,
    pub user_data: Option<UserData>,
}

impl Clone for MediaItem {
    fn clone(&self) -> (res: Self)
        ensures
            res == *self,
    {
        MediaItem {
            id: self.id.clone(),
            name: self.name.clone(),
            item_type: self.item_type.clone(),
            collection_type: clone_opt_string(&self.collection_type),
            series_name: clone_opt_string(&self.series_name),
            production_year: self.production_year,
            index_number: self.index_number,
            parent_index_number: self.parent_index_number,
            is_folder: self.is_folder,
            run_time_ticks: self.run_time_ticks,
            user_data: match &self.user_data {
                Some(d) => Some(d.clone()),
                None => None,
            },
        }
    }
}

/// One page of items, with the number of items the whole listing holds.
#[derive(Debug)]
pub struct ItemsResponse {
    pub items: Vec<MediaItem>,
    pub total_record_count: u32,
}

/// The user's libraries.
#[derive(Debug)]
pub struct ViewsResponse {
    pub items: Vec<MediaItem>,
}

/// The playable sources of an item.
#[derive(Debug)]
pub struct PlaybackInfoResponse {
    pub media_sources: Vec<MediaSource>,
}

/// One playable source (file) of an item and its streams.
#[derive(Debug)]
pub struct MediaSource {
    pub id: String,
    pub media_streams: Vec<MediaStream>,
}

/// One stream (video, audio, subtitle) of a media source.
#[derive(Debug)]
pub struct MediaStream {
    /// The kind of stream ("Video", "Audio", "Subtitle").
    pub stream_type: String,
    pub codec: Option<String>,
    pub language: Option<String>,
    pub display_title: Option<String>,
    pub is_external: bool,
    pub is_text_subtitle_stream: bool,
    pub index: i32,
}

/// A subtitle served as a file of its own, with the URL that fetches it.
#[derive(Debug)]
pub struct ExternalSubtitle {
    pub url: String,
    pub language: Option<String>,
    pub title: Option<String>,
}

/// The text content of an external subtitle.
pub struct ExternalSubtitleView {
    pub url: Seq<char>,
    pub language: Option<Seq<char>>,
    pub title: Option<Seq<char>>,
}

impl View for ExternalSubtitle {
    type V = ExternalSubtitleView;

    open spec fn view(&self) -> ExternalSubtitleView {
        ExternalSubtitleView {
            url: self.url@,
            language: opt_view(self.language),
            title: opt_view(self.title),
        }
    }
}

impl Clone for ExternalSubtitle {
    fn clone(&self) -> (res: Self)
        ensures
            res == *self,
    {
        ExternalSubtitle {
            url: self.url.clone(),
            language: clone_opt_string(&self.language),
            title: clone_opt_string(&self.title),
        }
    }
}

/// Report that playback of an item began.
#[derive(Debug)]
pub struct PlaybackStartInfo {
    pub item_id: String,
    pub position_ticks: u64,
    pub is_paused: bool,
    pub is_muted: bool,
    pub volume_level: u32,
    pub play_method: String,
}

impl Clone for PlaybackStartInfo {
    fn clone(&self) -> (res: Self)
        ensures
            res == *self,
    {
        PlaybackStartInfo {
            item_id: self.item_id.clone(),
            position_ticks: self.position_ticks,
            is_paused: self.is_paused,
            is_muted: self.is_muted,
            volume_level: self.volume_level,
            play_method: self.play_method.clone(),
        }
    }
}

/// Periodic report of the playback position.
#[derive(Debug)]
pub struct PlaybackProgressInfo {
    pub item_id: String,
    pub position_ticks: u64,
    pub is_paused: bool,
    pub is_muted: bool,
    pub volume_level: u32,
}

impl Clone for PlaybackProgressInfo {
    fn clone(&self) -> (res: Self)
        ensures
            res == *self,
    {
        PlaybackProgressInfo {
            item_id: self.item_id.clone(),
            position_ticks: self.position_ticks,
            is_paused: self.is_paused,
            is_muted: self.is_muted,
            volume_level: self.volume_level,
        }
    }
}

/// Report that playback of an item ended, at a position.
#[derive(Debug)]
pub struct PlaybackStopInfo {
    pub item_id: String,
    pub position_ticks: u64,
}

impl Clone for PlaybackStopInfo {
    fn clone(&self) -> (res: Self)
        ensures
            res == *self,
    {
        PlaybackStopInfo { item_id: self.item_id.clone(), position_ticks: self.position_ticks }
    }
}

} // verus!
