use vstd::prelude::*;
use vstd::string::StringExecFns;

verus! {

/// The full path of a downloaded song file: the configured directory,
/// a backslash, the song identifier, and the ".mp3" suffix.
pub open spec fn download_file_path_spec(dir: Seq<char>, id: Seq<char>) -> Seq<char> {
    dir + "\\"@ + id + ".mp3"@
}

/// Builds the path that a downloaded song is written to.
pub fn download_file_path(dir: &str, id: &str) -> (r: String)
    ensures
        r@ == download_file_path_spec(dir@, id@),
{
    let mut r = dir.to_owned();
    r.append("\\");
    r.append(id);
    r.append(".mp3");
    r
}

/// The search endpoint with the user's query appended as the id
/// parameter.
pub open spec fn search_url_spec(query: Seq<char>) -> Seq<char> {
    "https://songfilehub.com/api/v1/nongs?id="@ + query
}

/// Builds the URL that a search queries.
pub fn search_url(query: &str) -> (r: String)
    ensures
        r@ == search_url_spec(query@),
{
    let mut r = "https://songfilehub.com/api/v1/nongs?id=".to_owned();
    r.append(query);
    r
}

/// The download directory offered at start: the local game data
/// directory under the user's home.
pub open spec fn default_song_path_spec(username: Seq<char>) -> Seq<char> {
    "C:\\Users\\"@ + username + "\\AppData\\Local\\GeometryDash"@
}

/// Builds the download directory offered at start for a given user name.
pub fn default_song_path(username: &str) -> (r: String)
    ensures
        r@ == default_song_path_spec(username@),
{
    let mut r = "C:\\Users\\".to_owned();
    r.append(username);
    r.append("\\AppData\\Local\\GeometryDash");
    r
}

/// Relies on whoami::username: the name of the user running the
/// process. It depends on the machine, so nothing is promised of it; a
/// failed lookup yields the empty string.
#[verifier::external_body]
pub(crate) fn os_username() -> (r: String) {
    whoami::username().unwrap_or_default()
}

/// Builds the download directory offered at start, for whatever user
/// name the machine reports.
pub fn initial_song_path() -> (r: String)
    ensures
        exists|u: Seq<char>| r@ == default_song_path_spec(u),
{
    let username = os_username();
    default_song_path(username.as_str())
}

} // verus!
