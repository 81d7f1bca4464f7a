use vstd::prelude::*;
use vstd::string::StringExecFns;
use crate::text::{dec_rep, u64_to_string};

verus! {

/// One song entry returned by the search API.
#[derive(Debug, Clone, PartialEq, Eq)]
pub struct SongData {
    pub song_name: String,
    pub state: String,
    pub level_name: String,
    pub download_link: String,
    pub song_id: String,
}

/// The mathematical value of a `SongData`: its five fields as
/// character sequences.
pub struct SongDataView {
    pub song_name: Seq<char>,
    pub state: Seq<char>,
    pub level_name: Seq<char>,
    pub download_link: Seq<char>,
    pub song_id: Seq<char>,
}

impl View for SongData {
    type V = SongDataView;

    open spec fn view(&self) -> SongDataView {
        SongDataView {
            song_name: self.song_name@,
            state: self.state@,
            level_name: self.level_name@,
            download_link: self.download_link@,
            song_id: self.song_id@,
        }
    }
}

/// What the interface is doing or last did.
#[derive(Debug, Clone, Copy, PartialEq, Eq, Structural)]
pub enum Status {
    Waiting,
    Downloading,
    Finished,
    NoResults,
    ResultsFound,
}

/// The status a search leaves behind: no results for an empty result
/// list, otherwise results found.
pub open spec fn status_after_search_spec(count: nat) -> Status {
    if count == 0 {
        Status::NoResults
    } else {
        Status::ResultsFound
    }
}

/// Picks the status that a finished search leaves behind.
pub fn status_after_search(count: usize) -> (s: Status)
    ensures
        s == status_after_search_spec(count as nat),
{
    if count == 0 {
        Status::NoResults
    } else {
        Status::ResultsFound
    }
}

/// The text shown beside the search bar for each status; for found
/// results it includes the number of matches in decimal.
pub open spec fn status_label_spec(s: Status, count: nat) -> Seq<char> {
    match s {
        Status::Waiting => "Waiting"@,
        Status::Downloading => "Downloading..."@,
        Status::Finished => "Finished"@,
        Status::NoResults => "Nothing found"@,
        Status::ResultsFound => "Found "@ + dec_rep(count) + " NoNG(s) with matching song ID"@,
    }
}

/// Renders the status line, counting the current result list.
pub fn status_label(s: &Status, count: usize) -> (r: String)
    ensures
        r@ == status_label_spec(*s, count as nat),
{
    match s {
        Status::Waiting => "Waiting".to_owned(),
        Status::Downloading => "Downloading...".to_owned(),
        Status::Finished => "Finished".to_owned(),
        Status::NoResults => "Nothing found".to_owned(),
        Status::ResultsFound => {
            let mut r = "Found ".to_owned();
            let num = u64_to_string(count as u64);
            r.append(num.as_str());
            r.append(" NoNG(s) with matching song ID");
            r
        },
    }
}

} // verus!
