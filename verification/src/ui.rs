//! Texts and layout arithmetic of the screens.
use vstd::prelude::*;

use crate::download::{DownloadStatus, DownloadTask};
use crate::model::MediaItem;
use crate::text::{decimal, decimal_pad2, decimal_pad2_string, decimal_string, same_text};

verus! {

/// The label under a poster: for an episode with a series, season and
/// episode number "Series S01E02" (numbers padded to two digits), for an
/// episode with only a series the series name, and the item's name otherwise.
pub open spec fn poster_label_text(item: MediaItem) -> Seq<char> {
    if item.item_type@ == "Episode"@ {
        match (item.series_name, item.parent_index_number, item.index_number) {
            (Some(series), Some(s), Some(e)) => series@ + " S"@ + decimal_pad2(s as nat) + "E"@
                + decimal_pad2(e as nat),
            (Some(series), _, _) => series@,
            _ => item.name@,
        }
    } else {
        item.name@
    }
}

/// The label under an item's poster.
pub fn poster_label(item: &MediaItem) -> (res: String)
    ensures
        res@ == poster_label_text(*item),
{
    if same_text(item.item_type.as_str(), "Episode") {
        match (&item.series_name, &item.parent_index_number, &item.index_number) {
            (Some(series), Some(s), Some(e)) => {
                let mut label = series.clone();
                label.append(" S");
                let season = decimal_pad2_string(*s);
                label.append(season.as_str());
                label.append("E");
                let episode = decimal_pad2_string(*e);
                label.append(episode.as_str());
                label
            },
            (Some(series), _, _) => series.clone(),
            _ => item.name.clone(),
        }
    } else {
        item.name.clone()
    }
}

/// The word shown in place of a poster that could not be loaded.
pub open spec fn type_icon_text(item_type: Seq<char>) -> Seq<char> {
    if item_type == "Movie"@ {
        "Movie"@
    } else if item_type == "Series"@ {
        "Series"@
    } else if item_type == "Season"@ {
        "Season"@
    } else if item_type == "Episode"@ {
        "Episode"@
    } else if item_type == "Audio"@ {
        "Audio"@
    } else if item_type == "MusicAlbum"@ {
        "Album"@
    } else if item_type == "MusicArtist"@ {
        "Artist"@
    } else if item_type == "Folder"@ || item_type == "CollectionFolder"@ {
        "Folder"@
    } else {
        "?"@
    }
}

/// The word shown in place of an item's poster when it could not be loaded.
pub fn type_icon(item: &MediaItem) -> (res: &'static str)
    ensures
        res@ == type_icon_text(item.item_type@),
{
    let t = item.item_type.as_str();
    if same_text(t, "Movie") {
        "Movie"
    } else if same_text(t, "Series") {
        "Series"
    } else if same_text(t, "Season") {
        "Season"
    } else if same_text(t, "Episode") {
        "Episode"
    } else if same_text(t, "Audio") {
        "Audio"
    } else if same_text(t, "MusicAlbum") {
        "Album"
    } else if same_text(t, "MusicArtist") {
        "Artist"
    } else if same_text(t, "Folder") || same_text(t, "CollectionFolder") {
        "Folder"
    } else {
        "?"
    }
}

/// The key help of the home screen.
pub fn home_help_text() -> (res: &'static str)
    ensures
        res@ == "h/j/k/l: navigate | Enter: open | /: search | d: downloads | r: refresh | q: quit"@,
{
    "h/j/k/l: navigate | Enter: open | /: search | d: downloads | r: refresh | q: quit"
}

/// The key help of the library screen.
pub fn library_help_text() -> (res: &'static str)
    ensures
        res@ == "h/j/k/l: navigate | Enter: open/play | D: download | d: downloads | Esc: back | q: quit"@,
{
    "h/j/k/l: navigate | Enter: open/play | D: download | d: downloads | Esc: back | q: quit"
}

/// The key help of the search screen.
pub fn search_help_text() -> (res: &'static str)
    ensures
        res@ == "Type to search | h/j/k/l or arrows: navigate | Enter: open/play | Esc: close"@,
{
    "Type to search | h/j/k/l or arrows: navigate | Enter: open/play | Esc: close"
}

/// A duration of whole seconds as "H:MM:SS", or "MM:SS" under an hour.
pub open spec fn duration_text(total_seconds: nat) -> Seq<char> {
    let hours = total_seconds / 3600;
    let minutes = (total_seconds % 3600) / 60;
    let secs = total_seconds % 60;
    if hours > 0 {
        decimal(hours) + ":"@ + decimal_pad2(minutes) + ":"@ + decimal_pad2(secs)
    } else {
        decimal_pad2(minutes) + ":"@ + decimal_pad2(secs)
    }
}

/// A duration of whole seconds as "H:MM:SS", or "MM:SS" under an hour.
pub fn format_duration_secs(total_seconds: u64) -> (res: String)
    ensures
        res@ == duration_text(total_seconds as nat),
{
    let hours = total_seconds / 3600;
    let minutes = ((total_seconds % 3600) / 60) as u32;
    let secs = (total_seconds % 60) as u32;
    let mm = decimal_pad2_string(minutes);
    let ss = decimal_pad2_string(secs);
    if hours > 0 {
        let mut s = decimal_string(hours);
        s.append(":");
        s.append(mm.as_str());
        s.append(":");
        s.append(ss.as_str());
        s
    } else {
        let mut s = mm;
        s.append(":");
        s.append(ss.as_str());
        s
    }
}

/// The word for a download's status.
pub open spec fn status_text(status: DownloadStatus) -> Seq<char> {
    match status {
        DownloadStatus::Pending => "Pending"@,
        DownloadStatus::Downloading => "Downloading"@,
        DownloadStatus::Completed => "Completed"@,
        DownloadStatus::Failed => "Failed"@,
    }
}

/// The word for a download's status.
pub fn download_status_text(status: DownloadStatus) -> (res: &'static str)
    ensures
        res@ == status_text(status),
{
    match status {
        DownloadStatus::Pending => "Pending",
        DownloadStatus::Downloading => "Downloading",
        DownloadStatus::Completed => "Completed",
        DownloadStatus::Failed => "Failed",
    }
}

/// The title of a download's line: "Name [Status]".
pub fn download_title(task: &DownloadTask) -> (res: String)
    ensures
        res@ == task.item_name@ + " ["@ + status_text(task.status) + "]"@,
{
    let mut s = task.item_name.clone();
    s.append(" [");
    s.append(download_status_text(task.status));
    s.append("]");
    s
}

/// The label of a download's gauge: "NN%".
pub fn download_percent_label(task: &DownloadTask) -> (res: String)
    ensures
        res@ == decimal(task.progress as nat) + "%"@,
{
    let mut s = decimal_string(task.progress as u64);
    s.append("%");
    s
}

/// How many cells of size `cell` fit in `extent`, at least one.
pub open spec fn cells_fitting(extent: u16, cell: u16) -> usize {
    if extent / cell == 0 {
        1
    } else {
        (extent / cell) as usize
    }
}

/// How many cells of size `cell` fit in `extent`, at least one.
pub fn cells_across(extent: u16, cell: u16) -> (res: usize)
    requires
        cell > 0,
    ensures
        res == cells_fitting(extent, cell),
        res >= 1,
{
    let n = extent / cell;
    if n == 0 {
        1
    } else {
        n as usize
    }
}

/// The first visible position of a list scrolled just enough to show
/// `selected` in a window of `visible` positions.
pub open spec fn scroll_for(selected: int, visible: int) -> int {
    if selected + 1 > visible {
        selected + 1 - visible
    } else {
        0
    }
}

/// The first visible position of a list scrolled just enough to show
/// `selected` in a window of `visible` positions.
pub fn first_visible(selected: usize, visible: usize) -> (res: usize)
    requires
        visible >= 1,
    ensures
        res == scroll_for(selected as int, visible as int),
{
    if selected >= visible {
        selected - (visible - 1)
    } else {
        0
    }
}

/// The first visible home section: scrolled to show the selected row, but no
/// further than needed to fill the window.
pub open spec fn home_scroll_for(row: int, visible: int, total: int) -> int {
    let s = scroll_for(row, visible);
    let max = if total > visible {
        total - visible
    } else {
        0
    };
    if s < max {
        s
    } else {
        max
    }
}

/// The first visible home section.
pub fn home_first_visible(row: usize, visible: usize, total: usize) -> (res: usize)
    requires
        visible >= 1,
    ensures
        res == home_scroll_for(row as int, visible as int, total as int),
{
    let s = first_visible(row, visible);
    let max = if total > visible {
        total - visible
    } else {
        0
    };
    if s < max {
        s
    } else {
        max
    }
}

/// Scrolling a list to `scroll_for` keeps the selected position in the
/// window, and the list is not scrolled while the selection fits.
pub proof fn lemma_selection_stays_visible(selected: int, visible: int)
    requires
        0 <= selected,
        visible >= 1,
    ensures
        0 <= scroll_for(selected, visible) <= selected < scroll_for(selected, visible) + visible,
        selected < visible ==> scroll_for(selected, visible) == 0,
{
}

/// The home screen shows the selected section, and never scrolls past the
/// point where the last section is at the bottom.
pub proof fn lemma_home_row_stays_visible(row: int, visible: int, total: int)
    requires
        0 <= row < total,
        visible >= 1,
    ensures
        0 <= home_scroll_for(row, visible, total) <= row < home_scroll_for(row, visible, total) + visible,
        home_scroll_for(row, visible, total) + visible <= total || home_scroll_for(row, visible, total) == 0,
{
}

} // verus!
