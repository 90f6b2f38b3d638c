use playlist_query::ast::QueryType;
use playlist_query::details::TagDetails;
use playlist_query::printer::{Output, Printer};

#[test]
fn ensure_fn_format_works_as_expected_1() {
    let printer = Printer {
        print_type: QueryType::Play,
        ..Default::default()
    };
    let output = printer.format(default_songs().as_slice());

    assert_eq!(
        "test-data/songs/1.mp3\ntest-data/songs/2.mp3\ntest-data/songs/3.mp3",
        output
    )
}

#[test]
fn ensure_fn_format_works_as_expected_2() {
    let printer = Printer {
        print_type: QueryType::Index,
        ..Default::default()
    };
    let output = printer.format(default_songs().as_slice());

    assert_eq!(
        r#""path","track","title","artist","album","album_artist","year","genre","disc"
"test-data/songs/1.mp3","1","","","Black","","","",""
"test-data/songs/2.mp3","","","","Blue","Surf","","",""
"test-data/songs/3.mp3","","","Cap","","","","","""#,
        output
    )
}

#[test]
fn format_of_no_records_is_bare() {
    let play = Printer {
        print_type: QueryType::Play,
        ..Default::default()
    };
    assert_eq!("", play.format(&[]));

    let index = Printer {
        print_type: QueryType::Index,
        ..Default::default()
    };
    assert_eq!(
        "\"path\",\"track\",\"title\",\"artist\",\"album\",\"album_artist\",\"year\",\"genre\",\"disc\"\n",
        index.format(&[])
    );
}

#[test]
fn printer_default_prints_paths_to_terminal() {
    let printer = Printer::default();
    assert_eq!(printer.output, Output::Terminal);
    assert_eq!(printer.print_type, QueryType::Play);
}

fn default_songs() -> Vec<TagDetails> {
    let info1 = TagDetails {
        path: "test-data/songs/1.mp3".to_string(),
        album: Some("Black".to_string()),
        track: Some("1".to_string()),
        ..Default::default()
    };
    let info2 = TagDetails {
        path: "test-data/songs/2.mp3".to_string(),
        album: Some("Blue".to_string()),
        album_artist: Some("Surf".to_string()),
        ..Default::default()
    };
    let info3 = TagDetails {
        path: "test-data/songs/3.mp3".to_string(),
        artist: Some("Cap".to_string()),
        ..Default::default()
    };
    vec![info1, info2, info3]
}
