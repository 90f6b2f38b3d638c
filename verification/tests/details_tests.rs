use playlist_query::details::TagDetails;

#[test]
fn tag_details_prints_headers_correctly() {
    assert_eq!(
        "\"path\";\"track\";\"title\";\"artist\";\"album\";\"album_artist\";\"year\";\"genre\";\"disc\"",
        TagDetails::headers()
    );
}

#[test]
fn tag_details_prints_info_correctly_when_present() {
    let info = TagDetails {
        path: "test-data/songs/1.mp3".to_string(),
        title: Some(String::from("Passionfruit")),
        artist: Some(String::from("Drake")),
        album: Some(String::from("More Life")),
        album_artist: Some(String::from("Drake")),
        year: Some(String::from("2017")),
        genre: Some(String::from("Rap")),
        disc: Some(String::from("1")),
        track: Some(String::from("6")),
    };
    assert_eq!(
        r#""test-data/songs/1.mp3";"6";"Passionfruit";"Drake";"More Life";"Drake";"2017";"Rap";"1""#,
        info.details()
    );
    assert_eq!(info.path, "test-data/songs/1.mp3");
    assert_eq!(info.title.unwrap(), "Passionfruit");
    assert_eq!(info.artist.unwrap(), "Drake");
    assert_eq!(info.album.unwrap(), "More Life");
    assert_eq!(info.album_artist.unwrap(), "Drake");
    assert_eq!(info.year.unwrap(), "2017");
    assert_eq!(info.genre.unwrap(), "Rap");
    assert_eq!(info.disc.unwrap(), "1");
    assert_eq!(info.track.unwrap(), "6");
}

#[test]
fn tag_details_prints_info_correctly_when_missing() {
    let info = TagDetails {
        path: "test-data/songs/1.mp3".to_string(),
        ..Default::default()
    };
    assert_eq!(
        r#""test-data/songs/1.mp3";"0";"";"";"";"";"0";"";"0""#,
        info.details()
    )
}

#[test]
fn tag_details_equality_is_structural() {
    let a = TagDetails {
        path: "p".to_string(),
        album: Some("x".to_string()),
        ..Default::default()
    };
    let b = TagDetails {
        path: "p".to_string(),
        album: Some("x".to_string()),
        ..Default::default()
    };
    let c = TagDetails {
        path: "p".to_string(),
        album: Some("y".to_string()),
        ..Default::default()
    };
    assert!(a == b);
    assert!(a != c);
    assert!(a == a.clone());
}
