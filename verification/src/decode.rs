use vstd::prelude::*;
use crate::records::{SongData, SongDataView};

verus! {

// ---------------------------------------------------------------------------
// Trusted view of serde_json
// ---------------------------------------------------------------------------

#[verifier::external_type_specification]
#[verifier::external_body]
pub struct ExValue(serde_json::Value);

/// Whether `serde_json::from_str` accepts a text as JSON. Parsing is a
/// function of the text alone, so the outcome can be given a name.
pub uninterp spec fn json_ok(s: Seq<char>) -> bool;

/// The value that `serde_json::from_str` parses an accepted text into,
/// a function of the text alone.
pub uninterp spec fn json_value_of(s: Seq<char>) -> serde_json::Value;

/// The member that `serde_json::Value::get` finds under a key, a
/// function of the value and the key alone.
pub uninterp spec fn json_member_of(v: serde_json::Value, key: Seq<char>) -> Option<
    serde_json::Value,
>;

/// The text that `serde_json::Value::as_str` reads out of a JSON
/// string, a function of the value alone.
pub uninterp spec fn json_str_of(v: serde_json::Value) -> Option<Seq<char>>;

/// The elements that `serde_json::Value::as_array` reads out of a JSON
/// array, a function of the value alone.
pub uninterp spec fn json_elems_of(v: serde_json::Value) -> Option<Seq<serde_json::Value>>;

/// Relies on serde_json::from_str: it parses the text into a value, and
/// succeeds or fails as a function of the text alone.
#[verifier::external_body]
fn parse_json(body: &str) -> (r: Option<serde_json::Value>)
    ensures
        r is Some <==> json_ok(body@),
        r matches Some(v) ==> v == json_value_of(body@),
{
    serde_json::from_str::<serde_json::Value>(body).ok()
}

/// Relies on serde_json::Value::get: the member of an object under a
/// key, or nothing when the value is no object or has no such member;
/// a function of the value and the key alone.
#[verifier::external_body]
fn json_get<'a>(v: &'a serde_json::Value, key: &str) -> (r: Option<&'a serde_json::Value>)
    ensures
        match r {
            Some(m) => json_member_of(*v, key@) == Some(*m),
            None => json_member_of(*v, key@) is None,
        },
{
    v.get(key)
}

/// Relies on serde_json::Value::as_str: the text of a JSON string, or
/// nothing when the value is none; a function of the value alone.
#[verifier::external_body]
fn json_as_string(v: &serde_json::Value) -> (r: Option<String>)
    ensures
        match r {
            Some(s) => json_str_of(*v) == Some(s@),
            None => json_str_of(*v) is None,
        },
{
    v.as_str().map(|s| s.to_string())
}

/// Relies on serde_json::Value::as_array: the elements of a JSON array,
/// or nothing when the value is none; a function of the value alone.
#[verifier::external_body]
fn json_as_array(v: &serde_json::Value) -> (r: Option<Vec<serde_json::Value>>)
    ensures
        match r {
            Some(a) => json_elems_of(*v) == Some(a@),
            None => json_elems_of(*v) is None,
        },
{
    v.as_array().cloned()
}

// ---------------------------------------------------------------------------
// Verified decoding
// ---------------------------------------------------------------------------

/// The five fields of a record in a JSON response.
#[derive(Debug, Clone, Copy, PartialEq, Eq, Structural)]
pub enum Field {
    SongName,
    State,
    LevelName,
    DownloadUrl,
    SongId,
}

/// Why a response yields no record list.
#[derive(Debug, Clone, Copy, PartialEq, Eq, Structural)]
pub enum DecodeError {
    /// The body is not well-formed JSON.
    NotJson,
    /// The body has no array under the member that holds the songs.
    NoSongs,
    /// An element of the array lacks a string under one of the five
    /// fields; no partial record is produced.
    MissingField { index: usize, field: Field },
}

/// One element of the songs array, as found: each of the five fields is
/// present as a string or absent.
pub struct RawSong {
    pub song_name: Option<String>,
    pub state: Option<String>,
    pub level_name: Option<String>,
    pub download_link: Option<String>,
    pub song_id: Option<String>,
}

/// The mathematical value of a `RawSong`.
pub struct RawSongView {
    pub song_name: Option<Seq<char>>,
    pub state: Option<Seq<char>>,
    pub level_name: Option<Seq<char>>,
    pub download_link: Option<Seq<char>>,
    pub song_id: Option<Seq<char>>,
}

impl View for RawSong {
    type V = RawSongView;

    open spec fn view(&self) -> RawSongView {
        RawSongView {
            song_name: match self.song_name {
                Some(s) => Some(s@),
                None => None,
            },
            state: match self.state {
                Some(s) => Some(s@),
                None => None,
            },
            level_name: match self.level_name {
                Some(s) => Some(s@),
                None => None,
            },
            download_link: match self.download_link {
                Some(s) => Some(s@),
                None => None,
            },
            song_id: match self.song_id {
                Some(s) => Some(s@),
                None => None,
            },
        }
    }
}

/// An element is complete when all five fields were found.
pub open spec fn complete(r: RawSongView) -> bool {
    &&& r.song_name is Some
    &&& r.state is Some
    &&& r.level_name is Some
    &&& r.download_link is Some
    &&& r.song_id is Some
}

/// The first absent field of an incomplete element, in the order the
/// fields are read.
pub open spec fn missing_field(r: RawSongView) -> Field {
    if r.song_name is None {
        Field::SongName
    } else if r.state is None {
        Field::State
    } else if r.level_name is None {
        Field::LevelName
    } else if r.download_link is None {
        Field::DownloadUrl
    } else {
        Field::SongId
    }
}

/// The record a complete element yields: the five fields, verbatim.
pub open spec fn record_of(r: RawSongView) -> SongDataView {
    SongDataView {
        song_name: r.song_name->0,
        state: r.state->0,
        level_name: r.level_name->0,
        download_link: r.download_link->0,
        song_id: r.song_id->0,
    }
}

/// Turns the found elements into records, all or nothing: a list with
/// every field copied verbatim when every element is complete, else the
/// error naming the first absent field of the first incomplete element.
pub fn decode_songs(raw: &Vec<RawSong>) -> (r: Result<Vec<SongData>, DecodeError>)
    ensures
        r is Ok <==> (forall|i: int| 0 <= i < raw@.len() ==> complete(#[trigger] raw@[i]@)),
        r matches Ok(songs) ==> {
            &&& songs@.len() == raw@.len()
            &&& forall|i: int| 0 <= i < raw@.len() ==> #[trigger] songs@[i]@ == record_of(raw@[i]@)
        },
        r matches Err(e) ==> exists|j: int|
            {
                &&& 0 <= j < raw@.len()
                &&& !complete(#[trigger] raw@[j]@)
                &&& forall|k: int| 0 <= k < j ==> complete(#[trigger] raw@[k]@)
                &&& e == (DecodeError::MissingField {
                    index: j as usize,
                    field: missing_field(raw@[j]@),
                })
            },
{
    let mut songs: Vec<SongData> = Vec::new();
    let mut i: usize = 0;
    while i < raw.len()
        invariant
            i <= raw@.len(),
            songs@.len() == i,
            forall|k: int| 0 <= k < i ==> complete(#[trigger] raw@[k]@),
            forall|k: int| 0 <= k < i ==> #[trigger] songs@[k]@ == record_of(raw@[k]@),
        decreases raw@.len() - i,
    {
        let elem = &raw[i];
        let song = match (
            &elem.song_name,
            &elem.state,
            &elem.level_name,
            &elem.download_link,
            &elem.song_id,
        ) {
            (Some(song_name), Some(state), Some(level_name), Some(download_link), Some(song_id)) => SongData {
                song_name: song_name.clone(),
                state: state.clone(),
                level_name: level_name.clone(),
                download_link: download_link.clone(),
                song_id: song_id.clone(),
            },
            _ => {
                return Err(DecodeError::MissingField { index: i, field: first_absent(elem) });
            },
        };
        songs.push(song);
        i = i + 1;
    }
    Ok(songs)
}

fn first_absent(r: &RawSong) -> (f: Field)
    requires
        !complete(r@),
    ensures
        f == missing_field(r@),
{
    if r.song_name.is_none() {
        Field::SongName
    } else if r.state.is_none() {
        Field::State
    } else if r.level_name.is_none() {
        Field::LevelName
    } else if r.download_link.is_none() {
        Field::DownloadUrl
    } else {
        Field::SongId
    }
}

/// The text found under a key of a value: the member, read as a JSON
/// string; nothing when the member is absent or no string.
pub open spec fn member_str(v: serde_json::Value, key: Seq<char>) -> Option<Seq<char>> {
    match json_member_of(v, key) {
        Some(m) => json_str_of(m),
        None => None,
    }
}

/// The five fields found in one element of the songs array.
pub open spec fn raw_of_elem(v: serde_json::Value) -> RawSongView {
    RawSongView {
        song_name: member_str(v, "songName"@),
        state: member_str(v, "state"@),
        level_name: member_str(v, "name"@),
        download_link: member_str(v, "downloadUrl"@),
        song_id: member_str(v, "songID"@),
    }
}

/// The songs array of a response body that parses: the elements of the
/// array under "songs", or nothing when that member is absent or no
/// array.
pub open spec fn songs_of(body: Seq<char>) -> Option<Seq<serde_json::Value>> {
    match json_member_of(json_value_of(body), "songs"@) {
        Some(m) => json_elems_of(m),
        None => None,
    }
}

fn string_member(v: &serde_json::Value, key: &str) -> (r: Option<String>)
    ensures
        match r {
            Some(s) => member_str(*v, key@) == Some(s@),
            None => member_str(*v, key@) is None,
        },
{
    match json_get(v, key) {
        Some(member) => json_as_string(member),
        None => None,
    }
}

/// Reads the five fields of one element of the songs array.
fn extract_raw(v: &serde_json::Value) -> (r: RawSong)
    ensures
        r@ == raw_of_elem(*v),
{
    RawSong {
        song_name: string_member(v, "songName"),
        state: string_member(v, "state"),
        level_name: string_member(v, "name"),
        download_link: string_member(v, "downloadUrl"),
        song_id: string_member(v, "songID"),
    }
}

/// Decodes a search response body. The not-JSON error comes exactly
/// when the body does not parse. For a body that parses, a missing
/// songs array yields exactly its error; else the elements yield
/// records, all or nothing: every field of every element verbatim, or
/// the error naming the first absent field of the first incomplete
/// element.
pub fn decode_response(body: &str) -> (r: Result<Vec<SongData>, DecodeError>)
    ensures
        r == Err::<Vec<SongData>, DecodeError>(DecodeError::NotJson) <==> !json_ok(body@),
        json_ok(body@) ==> match songs_of(body@) {
            None => r == Err::<Vec<SongData>, DecodeError>(DecodeError::NoSongs),
            Some(elems) => {
                &&& (r is Ok <==> (forall|i: int|
                    0 <= i < elems.len() ==> complete(raw_of_elem(#[trigger] elems[i]))))
                &&& (r matches Ok(songs) ==> {
                    &&& songs@.len() == elems.len()
                    &&& forall|i: int|
                        0 <= i < elems.len() ==> #[trigger] songs@[i]@ == record_of(
                            raw_of_elem(elems[i]),
                        )
                })
                &&& (r matches Err(e) ==> exists|j: int|
                    {
                        &&& 0 <= j < elems.len()
                        &&& !complete(raw_of_elem(#[trigger] elems[j]))
                        &&& (forall|k: int| 0 <= k < j ==> complete(raw_of_elem(#[trigger] elems[k])))
                        &&& e == (DecodeError::MissingField {
                            index: j as usize,
                            field: missing_field(raw_of_elem(elems[j])),
                        })
                    })
            },
        },
{
    let parsed = match parse_json(body) {
        Some(v) => v,
        None => {
            return Err(DecodeError::NotJson);
        },
    };
    let songs_member = match json_get(&parsed, "songs") {
        Some(m) => m,
        None => {
            return Err(DecodeError::NoSongs);
        },
    };
    let elems = match json_as_array(songs_member) {
        Some(a) => a,
        None => {
            return Err(DecodeError::NoSongs);
        },
    };
    let ghost all_elems: Seq<serde_json::Value> = elems@;
    let mut raw: Vec<RawSong> = Vec::new();
    let mut i: usize = 0;
    while i < elems.len()
        invariant
            i <= elems@.len(),
            elems@ == all_elems,
            raw@.len() == i,
            forall|k: int| 0 <= k < i ==> #[trigger] raw@[k]@ == raw_of_elem(elems@[k]),
        decreases elems@.len() - i,
    {
        raw.push(extract_raw(&elems[i]));
        i = i + 1;
    }
    let result = decode_songs(&raw);
    proof {
        assert(songs_of(body@) == Some(elems@));
        assert forall|k: int| 0 <= k < elems@.len() implies (complete(
            raw_of_elem(#[trigger] elems@[k]),
        ) == complete(raw@[k]@) && record_of(raw_of_elem(elems@[k])) == record_of(
            raw@[k]@,
        ) && missing_field(raw_of_elem(elems@[k])) == missing_field(raw@[k]@)) by {
            assert(raw@[k]@ == raw_of_elem(elems@[k]));
        }
    }
    result
}

} // verus!
