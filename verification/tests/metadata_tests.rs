use playlist_query::operator::{Operator, OperatorType};
use playlist_query::song_metadata::IndexDetails;

#[test]
fn index_details_prints_headers_correctly() {
    assert_eq!(
        "\"path\";\"title\";\"artist\";\"album\";\"album_artist\";\"year\";\"genre\";\"disc\"",
        IndexDetails::headers()
    );
}

#[test]
fn index_details_prints_rows_with_defaults() {
    let full = IndexDetails {
        path: "a.mp3".to_string(),
        title: Some("Passionfruit".to_string()),
        artist: Some("Drake".to_string()),
        album: Some("More Life".to_string()),
        album_artist: Some("Drake".to_string()),
        year: Some(2017),
        genre: Some("Rap".to_string()),
        disc: Some(1),
    };
    assert_eq!(
        r#""a.mp3";"Passionfruit";"Drake";"More Life";"Drake";"2017";"Rap";"1""#,
        full.details()
    );

    let sparse = IndexDetails {
        path: "b.mp3".to_string(),
        title: None,
        artist: None,
        album: None,
        album_artist: None,
        year: None,
        genre: None,
        disc: None,
    };
    assert_eq!(r#""b.mp3";"";"";"";"";"0";"";"0""#, sparse.details());
    assert_eq!(sparse.year(), None);
    assert_eq!(sparse.disc(), None);
    assert_eq!(sparse.title(), None);
}

#[test]
fn index_details_getters_hand_fields_back() {
    let d = IndexDetails {
        path: "a.mp3".to_string(),
        title: Some("t".to_string()),
        artist: Some("ar".to_string()),
        album: Some("al".to_string()),
        album_artist: Some("aa".to_string()),
        year: Some(-44),
        genre: Some("g".to_string()),
        disc: Some(2),
    };
    assert_eq!(d.title(), Some("t"));
    assert_eq!(d.artist(), Some("ar"));
    assert_eq!(d.album(), Some("al"));
    assert_eq!(d.album_artist(), Some("aa"));
    assert_eq!(d.year(), Some(-44));
    assert_eq!(d.genre(), Some("g"));
    assert_eq!(d.disc(), Some(2));
}

#[test]
fn operator_or_concatenates_and_and_intersects() {
    let first = vec!["a".to_string(), "b".to_string()];
    let second = vec!["b".to_string(), "c".to_string()];

    let or = Operator {
        operator_type: OperatorType::OR,
    }
    .filter(&first, &second);
    assert_eq!(or, vec!["a", "b", "b", "c"]);

    let and = Operator {
        operator_type: OperatorType::AND,
    }
    .filter(&first, &second);
    assert_eq!(and, vec!["b"]);
}
