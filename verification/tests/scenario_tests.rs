use playlist_query::details::TagDetails;
use playlist_query::filter_songs;
use playlist_query::playlist::Playlist;
use playlist_query::processor::process;

fn scenario_records() -> Vec<TagDetails> {
    let a = TagDetails {
        path: "a.mp3".to_string(),
        album: Some("Black".to_string()),
        track: Some("1".to_string()),
        ..Default::default()
    };
    let b = TagDetails {
        path: "b.mp3".to_string(),
        album: Some("Also Black".to_string()),
        ..Default::default()
    };
    let c = TagDetails {
        path: "c.mp3".to_string(),
        album: Some("Blue".to_string()),
        album_artist: Some("Surf".to_string()),
        ..Default::default()
    };
    vec![a, b, c]
}

#[test]
fn disjunction_selects_either_match() {
    let records = scenario_records();

    let output = process(
        records.as_slice(),
        &[],
        r#"Play(Album("Black") | AlbumArtist("Surf"))"#,
    )
    .unwrap();

    let paths: Vec<&str> = output.iter().map(|t| t.path.as_str()).collect();
    assert_eq!(paths, vec!["a.mp3", "c.mp3"]);
}

#[test]
fn conjunction_with_group_narrows() {
    let records = scenario_records();

    let output = process(
        records.as_slice(),
        &[],
        r#"Play(C_Album("Black") & (AlbumArtist("Surf") | Track("1")))"#,
    )
    .unwrap();

    let paths: Vec<&str> = output.iter().map(|t| t.path.as_str()).collect();
    assert_eq!(paths, vec!["a.mp3"]);
}

#[test]
fn negated_playlist_reference_keeps_the_rest() {
    let records = scenario_records();
    let playlists = vec![Playlist {
        name: "def".to_string(),
        songs: vec!["a.mp3".to_string()],
    }];

    let output = process(
        records.as_slice(),
        playlists.as_slice(),
        r#"Play(!InPlaylist("def"))"#,
    )
    .unwrap();

    let paths: Vec<&str> = output.iter().map(|t| t.path.as_str()).collect();
    assert_eq!(paths, vec!["b.mp3", "c.mp3"]);
}

#[test]
fn undefined_playlist_yields_empty_result_without_error() {
    let records = scenario_records();

    // Every partition fails its lookup, so the driver returns an empty
    // list rather than an error.
    let output = filter_songs(
        r#"Play(InPlaylist("missing"))"#.to_string(),
        vec![],
        records,
        2,
    );

    assert!(output.is_empty());
}

#[test]
fn duplicate_from_overlapping_disjunction_is_kept() {
    let records = scenario_records();

    // "Black" is a substring of both album values, and the regex matches
    // record b as well, so b appears twice.
    let output = process(
        records.as_slice(),
        &[],
        r#"Play(C_Album("Black") | R_Album("Also.*"))"#,
    )
    .unwrap();

    let paths: Vec<&str> = output.iter().map(|t| t.path.as_str()).collect();
    assert_eq!(paths, vec!["a.mp3", "b.mp3", "b.mp3"]);
}

#[test]
fn main_ensure_fn_process_works_as_expected_1() {
    let info1 = TagDetails {
        path: "test-data/songs/1.mp3".to_string(),
        album: Some("Black".to_string()),
        track: Some("1".to_string()),
        ..Default::default()
    };
    let info2 = TagDetails {
        path: "test-data/songs/2.mp3".to_string(),
        album: Some("Also Black".to_string()),
        track: Some("3".to_string()),
        ..Default::default()
    };
    let songs = vec![info1, info2];
    let playlists = vec![];

    let selected = filter_songs(r#"Play(Album("Black"))"#.to_string(), playlists, songs, 3);

    assert_eq!(selected.len(), 1);
    assert!(selected
        .iter()
        .find(|s| s.path.eq("test-data/songs/1.mp3"))
        .is_some());
}

#[test]
fn year_bounds_filter_by_threshold() {
    let older = TagDetails {
        path: "old.mp3".to_string(),
        year: Some("1979".to_string()),
        ..Default::default()
    };
    let exact = TagDetails {
        path: "exact.mp3".to_string(),
        year: Some("1980".to_string()),
        ..Default::default()
    };
    let newer = TagDetails {
        path: "new.mp3".to_string(),
        year: Some("1981".to_string()),
        ..Default::default()
    };
    let records = vec![older, exact, newer];

    let before = process(records.as_slice(), &[], r#"Play(BeforeYear("1980"))"#).unwrap();
    let before_paths: Vec<&str> = before.iter().map(|t| t.path.as_str()).collect();
    assert_eq!(before_paths, vec!["old.mp3", "exact.mp3"]);

    let after = process(records.as_slice(), &[], r#"Play(AfterYear("1980"))"#).unwrap();
    let after_paths: Vec<&str> = after.iter().map(|t| t.path.as_str()).collect();
    assert_eq!(after_paths, vec!["new.mp3"]);
}

#[test]
fn date_pseudo_tags_fail_outside_literal_search() {
    let records = scenario_records();

    assert!(process(records.as_slice(), &[], r#"Play(C_BeforeYear("1980"))"#).is_none());
    assert!(process(records.as_slice(), &[], r#"Play(R_AfterDate("1980"))"#).is_none());
}
