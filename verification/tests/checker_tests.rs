use playlist_query::checker::{SearchType, TagChecker};

#[test]
fn search_type_can_be_compared() {
    assert!(SearchType::Literal == SearchType::Literal);
    assert!(SearchType::Regex == SearchType::Regex);
    assert!(SearchType::Contains == SearchType::Contains);

    assert!(SearchType::Regex != SearchType::Literal);
    assert!(SearchType::Literal != SearchType::Contains);
    assert!(SearchType::Contains != SearchType::Regex);
}

#[test]
fn song_tag_checker_is_valid_1() {
    let checker = TagChecker::try_from(
        String::from("drake"),
        String::from("artist"),
        SearchType::Literal,
    );
    assert!(checker.is_some());
}

#[test]
fn song_tag_checker_is_valid_2() {
    let checker = TagChecker::try_from(
        String::from("drake"),
        String::from("albumartist"),
        SearchType::Literal,
    );
    assert!(checker.is_some());
}

#[test]
fn song_tag_checker_is_valid_3() {
    let checker = TagChecker::try_from(
        String::from("Damage"),
        String::from("album"),
        SearchType::Contains,
    );
    assert!(checker.is_some());
}

#[test]
fn song_tag_checker_is_valid_4() {
    let checker = TagChecker::try_from(
        String::from("1980"),
        String::from("year"),
        SearchType::Literal,
    );
    assert!(checker.is_some());
}

#[test]
fn song_tag_checker_is_valid_5() {
    let checker = TagChecker::try_from(
        String::from("1980"),
        String::from("afterdate"),
        SearchType::Literal,
    );
    assert!(checker.is_some());
}

#[test]
fn song_tag_checker_is_valid_6() {
    let checker = TagChecker::try_from(
        String::from("1980"),
        String::from("beforeyear"),
        SearchType::Literal,
    );
    assert!(checker.is_some());
}

#[test]
fn song_tag_checker_is_valid_7() {
    let checker = TagChecker::try_from(
        String::from("a.*"),
        String::from("album"),
        SearchType::Regex,
    );
    assert!(checker.is_some());
}

#[test]
fn song_tag_checker_is_not_valid_1() {
    let checker = TagChecker::try_from(
        String::from("1980"),
        String::from("afterdate"),
        SearchType::Contains,
    );
    assert!(checker.is_none());
}

#[test]
fn song_tag_checker_is_not_valid_2() {
    let checker = TagChecker::try_from(
        String::from("1980"),
        String::from("afterdate"),
        SearchType::Regex,
    );
    assert!(checker.is_none());
}

#[test]
fn song_tag_checker_is_not_valid_3() {
    let checker = TagChecker::try_from(
        String::from("1980"),
        String::from("beforedate"),
        SearchType::Regex,
    );
    assert!(checker.is_none());
}

#[test]
fn song_tag_checker_is_not_valid_4() {
    let checker = TagChecker::try_from(
        String::from("a|*"),
        String::from("album"),
        SearchType::Regex,
    );
    assert!(checker.is_none());
}

#[test]
fn song_tag_checker_is_not_valid_5() {
    let checker = TagChecker::try_from(
        String::from("aa"),
        String::from("beforedate"),
        SearchType::Literal,
    );
    assert!(checker.is_none());
}

#[test]
fn song_tag_checker_is_not_valid_6() {
    let checker = TagChecker::try_from(
        String::from("aa"),
        String::from("afterdate"),
        SearchType::Literal,
    );
    assert!(checker.is_none());
}

#[test]
fn song_tag_checker_lowercases_mixed_case_names() {
    let checker = TagChecker::try_from(
        String::from("drake"),
        String::from("AlbumArtist"),
        SearchType::Literal,
    );
    assert!(checker.is_some());

    let unknown = TagChecker::try_from(
        String::from("drake"),
        String::from("NoSuchTag"),
        SearchType::Literal,
    );
    assert!(unknown.is_none());
}
