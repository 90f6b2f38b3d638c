use playlist_query::checker::SearchType;
use playlist_query::tag_type::TagType;

#[test]
fn tag_type_can_be_built_as_expected_1() {
    let tag_opt = TagType::try_from("genre", &SearchType::Literal);
    assert!(tag_opt.is_some());
    let tag = tag_opt.unwrap();

    assert_eq!(tag, TagType::Genre)
}

#[test]
fn tag_type_can_be_built_as_expected_2() {
    let tag_opt = TagType::try_from("albumartist", &SearchType::Regex);
    assert!(tag_opt.is_some());
    let tag = tag_opt.unwrap();

    assert_eq!(tag, TagType::AlbumArtist)
}

#[test]
fn tag_type_can_be_built_as_expected_3() {
    let tag_opt = TagType::try_from("album", &SearchType::Contains);
    assert!(tag_opt.is_some());
    let tag = tag_opt.unwrap();

    assert_eq!(tag, TagType::Album)
}

#[test]
fn tag_type_can_be_built_as_expected_4() {
    let tag_opt = TagType::try_from("disc", &SearchType::Contains);
    assert!(tag_opt.is_some());
    let tag = tag_opt.unwrap();

    assert_eq!(tag, TagType::Disc)
}

#[test]
fn tag_type_can_be_built_as_expected_5() {
    let tag_opt = TagType::try_from("discnumber", &SearchType::Contains);
    assert!(tag_opt.is_some());
    let tag = tag_opt.unwrap();

    assert_eq!(tag, TagType::Disc)
}

#[test]
fn tag_type_can_be_built_as_expected_6() {
    let tag_opt = TagType::try_from("title", &SearchType::Contains);
    assert!(tag_opt.is_some());
    let tag = tag_opt.unwrap();

    assert_eq!(tag, TagType::Title)
}

#[test]
fn tag_type_can_be_built_as_expected_7() {
    let tag_opt = TagType::try_from("track", &SearchType::Literal);
    assert!(tag_opt.is_some());
    let tag = tag_opt.unwrap();

    assert_eq!(tag, TagType::Track)
}

#[test]
fn tag_type_can_be_built_as_expected_8() {
    let tag_opt = TagType::try_from("tracknumber", &SearchType::Regex);
    assert!(tag_opt.is_some());
    let tag = tag_opt.unwrap();

    assert_eq!(tag, TagType::Track)
}

#[test]
fn tag_type_can_be_built_as_expected_9() {
    let tag_opt = TagType::try_from("path", &SearchType::Regex);
    assert!(tag_opt.is_some());
    let tag = tag_opt.unwrap();

    assert_eq!(tag, TagType::Path)
}

#[test]
fn tag_type_rejects_date_bounds_outside_literal_search() {
    assert!(TagType::try_from("beforedate", &SearchType::Contains).is_none());
    assert!(TagType::try_from("beforeyear", &SearchType::Regex).is_none());
    assert!(TagType::try_from("afterdate", &SearchType::Regex).is_none());
    assert!(TagType::try_from("afteryear", &SearchType::Contains).is_none());
    assert_eq!(
        TagType::try_from("afteryear", &SearchType::Literal),
        Some(TagType::Date)
    );
}

#[test]
fn tag_type_rejects_unknown_names() {
    assert!(TagType::try_from("none", &SearchType::Literal).is_none());
    assert!(TagType::try_from("", &SearchType::Literal).is_none());
}
