//! Download bookkeeping: tasks, their status, and the file they are written to.
use std::path::PathBuf;

use vstd::prelude::*;

use crate::text::{chars_of, string_from_chars};

verus! {

#[verifier::external_type_specification]
#[verifier::external_body]
pub struct ExPathBuf(PathBuf);

/// `PathBuf::clone` gives an equal copy of the path.
pub assume_specification[ <PathBuf as Clone>::clone ](p: &PathBuf) -> (res: PathBuf)
    ensures
        res == *p,
;

/// Whether `c` is alphanumeric, as `char::is_alphanumeric` decides it.
pub uninterp spec fn is_alphanumeric(c: char) -> bool;

/// An ASCII letter or digit.
pub open spec fn is_ascii_alphanumeric(c: char) -> bool {
    ('a' <= c && c <= 'z') || ('A' <= c && c <= 'Z') || ('0' <= c && c <= '9')
}

/// `char::is_alphanumeric`: alphabetic or numeric in Unicode's sense; on
/// ASCII characters exactly the letters and the digits.
#[verifier::external_body]
fn char_is_alphanumeric(c: char) -> (res: bool)
    ensures
        res == is_alphanumeric(c),
        c as u32 <= 0x7f ==> (res <==> is_ascii_alphanumeric(c)),
{
    c.is_alphanumeric()
}

/// Whether `c` is alphanumeric: on ASCII the letters and digits, beyond it
/// as `char::is_alphanumeric` decides.
pub open spec fn alphanumeric(c: char) -> bool {
    if c as u32 <= 0x7f {
        is_ascii_alphanumeric(c)
    } else {
        is_alphanumeric(c)
    }
}

/// The character a file name keeps for `c`: `c` itself when it is
/// alphanumeric, a space, '-', '_' or '.', and '_' otherwise.
pub open spec fn safe_char(c: char) -> char {
    if alphanumeric(c) || c == ' ' || c == '-' || c == '_' || c == '.' {
        c
    } else {
        '_'
    }
}

/// The name of the file an item is downloaded to: its name with every other
/// character replaced by '_', and the extension ".mkv".
pub open spec fn safe_file_name(item_name: Seq<char>) -> Seq<char> {
    item_name.map_values(|c: char| safe_char(c)) + ".mkv"@
}

/// The file name an item called `item_name` is downloaded to.
pub fn download_file_name(item_name: &str) -> (res: String)
    ensures
        res@ == safe_file_name(item_name@),
        res@.len() == item_name@.len() + 4,
        forall|i: int| 0 <= i < res@.len() ==> #[trigger] res@[i] != '/' && res@[i] != '\\',
{
    let cs = chars_of(item_name);
    let mut out: Vec<char> = Vec::new();
    let mut i: usize = 0;
    while i < cs.len()
        invariant
            cs@ == item_name@,
            i <= cs@.len(),
            out@ == cs@.take(i as int).map_values(|c: char| safe_char(c)),
            forall|j: int| 0 <= j < out@.len() ==> #[trigger] out@[j] != '/' && out@[j] != '\\',
        decreases cs@.len() - i,
    {
        let c = cs[i];
        let keep = char_is_alphanumeric(c) || c == ' ' || c == '-' || c == '_' || c == '.';
        if keep {
            out.push(c);
        } else {
            out.push('_');
        }
        assert(cs@.take(i + 1) == cs@.take(i as int).push(c));
        assert(out@ =~= cs@.take(i + 1).map_values(|c: char| safe_char(c)));
        i = i + 1;
    }
    assert(cs@.take(cs@.len() as int) == cs@);
    let mut name = string_from_chars(out.as_slice());
    name.append(".mkv");
    proof {
        reveal_strlit(".mkv");
        assert forall|i: int| 0 <= i < name@.len() implies #[trigger] name@[i] != '/' && name@[i] != '\\' by {
            if i < out@.len() {
                assert(name@[i] == out@[i]);
            } else {
                assert(name@[i] == ".mkv"@[i - out@.len()]);
            }
        }
    }
    name
}

/// Where a download stands.
#[derive(Debug, Clone, Copy, PartialEq, Eq, Structural)]
pub enum DownloadStatus {
    Pending,
    Downloading,
    Completed,
    Failed,
}

/// A queued or running download of one item. The file it is written to is
/// called `file_name` and lies in `download_dir`.
#[derive(Debug)]
pub struct DownloadTask {
    pub item_id: String,
    pub item_name: String,
    pub url: String,
    pub download_dir: PathBuf,
    pub file_name: String,
    /// Percent done, 0 to 100.
    pub progress: u8,
    pub status: DownloadStatus,
    pub error: Option<String>,
}

impl Clone for DownloadTask {
    fn clone(&self) -> (res: Self)
        ensures
            res == *self,
    {
        DownloadTask {
            item_id: self.item_id.clone(),
            item_name: self.item_name.clone(),
            url: self.url.clone(),
            download_dir: self.download_dir.clone(),
            file_name: self.file_name.clone(),
            progress: self.progress,
            status: self.status,
            error: crate::model::clone_opt_string(&self.error),
        }
    }
}

impl DownloadTask {
    /// A pending task that has made no progress.
    pub fn new(
        item_id: String,
        item_name: String,
        url: String,
        download_dir: PathBuf,
        file_name: String,
    ) -> (res: Self)
        ensures
            res.item_id == item_id,
            res.item_name == item_name,
            res.url == url,
            res.download_dir == download_dir,
            res.file_name == file_name,
            res.progress == 0,
            res.status == DownloadStatus::Pending,
            res.error is None,
    {
        DownloadTask {
            item_id,
            item_name,
            url,
            download_dir,
            file_name,
            progress: 0,
            status: DownloadStatus::Pending,
            error: None,
        }
    }
}

/// What a running download reports.
#[derive(Debug)]
pub enum DownloadEvent {
    Started { item_id: String },
    Progress { item_id: String, progress: u8 },
    Completed { item_id: String },
    Failed { item_id: String, error: String },
}

/// Creates download tasks for files in one directory.
pub struct DownloadManager {
    pub download_dir: PathBuf,
}

impl DownloadManager {
    /// A pending task that downloads `url` to the sanitized item name, with
    /// the extension ".mkv", in the download directory. The file name holds
    /// no path separator, so the file lies directly in that directory.
    pub fn create_task(&self, item_id: String, item_name: String, url: String) -> (res: DownloadTask)
        ensures
            res.item_id == item_id,
            res.item_name == item_name,
            res.url == url,
            res.download_dir == self.download_dir,
            res.file_name@ == safe_file_name(item_name@),
            forall|i: int|
                0 <= i < res.file_name@.len() ==> #[trigger] res.file_name@[i] != '/'
                    && res.file_name@[i] != '\\',
            res.progress == 0,
            res.status == DownloadStatus::Pending,
            res.error is None,
    {
        let file_name = download_file_name(item_name.as_str());
        DownloadTask::new(item_id, item_name, url, self.download_dir.clone(), file_name)
    }
}

} // verus!
