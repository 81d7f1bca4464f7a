use vstd::prelude::*;
use crate::paths::{default_song_path_spec, initial_song_path};
use crate::records::{status_after_search_spec, SongData, Status};

verus! {

/// The one state object behind the interface: the text in the search
/// box, the current result list, whether the settings window is open,
/// the configured download directory, and the status line's subject.
pub struct AppState {
    pub search_query: String,
    pub songs: Vec<SongData>,
    pub settings: bool,
    pub song_path: String,
    pub status: Status,
}

impl AppState {
    /// The state the program starts in: empty query, no results,
    /// settings closed, waiting, and the download directory defaulted
    /// for the machine's user name.
    pub fn initial() -> (s: Self)
        ensures
            s.search_query@ == Seq::<char>::empty(),
            s.songs@ == Seq::<SongData>::empty(),
            !s.settings,
            s.status == Status::Waiting,
            exists|u: Seq<char>| s.song_path@ == default_song_path_spec(u),
    {
        AppState {
            search_query: String::new(),
            songs: Vec::new(),
            settings: false,
            song_path: initial_song_path(),
            status: Status::Waiting,
        }
    }

    /// Replaces the result list with a fresh search's outcome and sets
    /// the status it leaves behind; nothing else moves.
    pub fn apply_search_results(&mut self, songs: Vec<SongData>)
        ensures
            final(self).songs == songs,
            final(self).status == status_after_search_spec(songs@.len()),
            final(self).search_query == old(self).search_query,
            final(self).settings == old(self).settings,
            final(self).song_path == old(self).song_path,
    {
        let empty = songs.len() == 0;
        self.songs = songs;
        self.status = if empty {
            Status::NoResults
        } else {
            Status::ResultsFound
        };
    }

    /// Marks a download as running; nothing else moves.
    pub fn begin_download(&mut self)
        ensures
            final(self).status == Status::Downloading,
            final(self).search_query == old(self).search_query,
            final(self).songs == old(self).songs,
            final(self).settings == old(self).settings,
            final(self).song_path == old(self).song_path,
    {
        self.status = Status::Downloading;
    }

    /// Marks a download as done; nothing else moves.
    pub fn finish_download(&mut self)
        ensures
            final(self).status == Status::Finished,
            final(self).search_query == old(self).search_query,
            final(self).songs == old(self).songs,
            final(self).settings == old(self).settings,
            final(self).song_path == old(self).song_path,
    {
        self.status = Status::Finished;
    }

    /// Opens the settings window; nothing else moves.
    pub fn open_settings(&mut self)
        ensures
            final(self).settings,
            final(self).search_query == old(self).search_query,
            final(self).songs == old(self).songs,
            final(self).song_path == old(self).song_path,
            final(self).status == old(self).status,
    {
        self.settings = true;
    }

    /// Closes the settings window; nothing else moves.
    pub fn close_settings(&mut self)
        ensures
            !final(self).settings,
            final(self).search_query == old(self).search_query,
            final(self).songs == old(self).songs,
            final(self).song_path == old(self).song_path,
            final(self).status == old(self).status,
    {
        self.settings = false;
    }

    /// Takes the folder picker's outcome: a picked folder replaces the
    /// download directory, a cancelled dialog leaves it unchanged;
    /// nothing else moves.
    pub fn apply_picked_folder(&mut self, picked: Option<String>)
        ensures
            picked matches Some(p) ==> final(self).song_path == p,
            picked is None ==> final(self).song_path == old(self).song_path,
            final(self).search_query == old(self).search_query,
            final(self).songs == old(self).songs,
            final(self).settings == old(self).settings,
            final(self).status == old(self).status,
    {
        match picked {
            Some(p) => {
                self.song_path = p;
            },
            None => {},
        }
    }
}

} // verus!
