use nong_manager::decode::{decode_response, decode_songs, DecodeError, Field, RawSong};

fn raw(
    song_name: Option<&str>,
    state: Option<&str>,
    level_name: Option<&str>,
    download_link: Option<&str>,
    song_id: Option<&str>,
) -> RawSong {
    RawSong {
        song_name: song_name.map(|s| s.to_string()),
        state: state.map(|s| s.to_string()),
        level_name: level_name.map(|s| s.to_string()),
        download_link: download_link.map(|s| s.to_string()),
        song_id: song_id.map(|s| s.to_string()),
    }
}

#[test]
fn well_formed_response_yields_all_records_verbatim() {
    let body = r#"{
        "songs": [
            {"songName": "Tria", "state": "accepted", "name": "Acu",
             "downloadUrl": "https://example.com/a.mp3", "songID": "101"},
            {"songName": "Nock", "state": "pending", "name": "Bloodbath",
             "downloadUrl": "https://example.com/b.mp3", "songID": "202"}
        ]
    }"#;
    let songs = decode_response(body).unwrap();
    assert_eq!(songs.len(), 2);
    assert_eq!(songs[0].song_name, "Tria");
    assert_eq!(songs[0].state, "accepted");
    assert_eq!(songs[0].level_name, "Acu");
    assert_eq!(songs[0].download_link, "https://example.com/a.mp3");
    assert_eq!(songs[0].song_id, "101");
    assert_eq!(songs[1].song_name, "Nock");
    assert_eq!(songs[1].state, "pending");
    assert_eq!(songs[1].level_name, "Bloodbath");
    assert_eq!(songs[1].download_link, "https://example.com/b.mp3");
    assert_eq!(songs[1].song_id, "202");
}

#[test]
fn empty_array_yields_no_records() {
    let songs = decode_response(r#"{"songs": []}"#).unwrap();
    assert_eq!(songs.len(), 0);
}

#[test]
fn malformed_text_is_not_json() {
    assert_eq!(decode_response("not json at all"), Err(DecodeError::NotJson));
    assert_eq!(decode_response(""), Err(DecodeError::NotJson));
}

#[test]
fn missing_songs_array_is_an_error() {
    assert_eq!(decode_response(r#"{"other": 1}"#), Err(DecodeError::NoSongs));
    assert_eq!(decode_response(r#"{"songs": 5}"#), Err(DecodeError::NoSongs));
    assert_eq!(decode_response("[1, 2]"), Err(DecodeError::NoSongs));
}

#[test]
fn missing_field_fails_without_partial_record() {
    let body = r#"{
        "songs": [
            {"songName": "Tria", "state": "accepted", "name": "Acu",
             "downloadUrl": "https://example.com/a.mp3", "songID": "101"},
            {"songName": "Nock", "name": "Bloodbath",
             "downloadUrl": "https://example.com/b.mp3", "songID": "202"}
        ]
    }"#;
    assert_eq!(
        decode_response(body),
        Err(DecodeError::MissingField { index: 1, field: Field::State })
    );
}

#[test]
fn field_with_wrong_type_counts_as_absent() {
    let body = r#"{"songs": [{"songName": 7, "state": "accepted", "name": "Acu",
        "downloadUrl": "u", "songID": "1"}]}"#;
    assert_eq!(
        decode_response(body),
        Err(DecodeError::MissingField { index: 0, field: Field::SongName })
    );
}

#[test]
fn decode_songs_copies_every_field() {
    let input = vec![raw(Some("n"), Some("s"), Some("l"), Some("d"), Some("i"))];
    let songs = decode_songs(&input).unwrap();
    assert_eq!(songs.len(), 1);
    assert_eq!(songs[0].song_name, "n");
    assert_eq!(songs[0].state, "s");
    assert_eq!(songs[0].level_name, "l");
    assert_eq!(songs[0].download_link, "d");
    assert_eq!(songs[0].song_id, "i");
}

#[test]
fn decode_songs_reports_first_absent_field_of_first_incomplete_element() {
    let input = vec![
        raw(Some("n"), Some("s"), Some("l"), Some("d"), Some("i")),
        raw(Some("n"), Some("s"), None, None, Some("i")),
        raw(None, None, None, None, None),
    ];
    assert_eq!(
        decode_songs(&input),
        Err(DecodeError::MissingField { index: 1, field: Field::LevelName })
    );
}

#[test]
fn decode_songs_on_empty_input_is_empty() {
    let input: Vec<RawSong> = vec![];
    assert_eq!(decode_songs(&input).unwrap().len(), 0);
}
