use playlist_query::matcher::TagMatcher;

#[test]
fn tag_matcher_works_as_expected_1() {
    let matcher = TagMatcher::Literal(String::from("aa"));

    assert!(matcher.matches("aa"));
}

#[test]
fn tag_matcher_works_as_expected_2() {
    let matcher = TagMatcher::Literal(String::from("a"));

    assert!(!matcher.matches("aa"));
}

#[test]
fn tag_matcher_works_as_expected_3() {
    let matcher = TagMatcher::Contains(String::from("a"));

    assert!(matcher.matches("ad"));
}

#[test]
fn tag_matcher_works_as_expected_4() {
    let matcher = TagMatcher::Contains(String::from("ad"));

    assert!(!matcher.matches("a"));
}

#[test]
fn tag_matcher_works_as_expected_5() {
    let matcher = TagMatcher::Contains(String::from("ad"));

    assert!(matcher.matches("ad"));
}

#[test]
fn tag_matcher_works_as_expected_6() {
    let matcher = TagMatcher::AfterDate(50);

    assert!(matcher.matches("75"));
}

#[test]
fn tag_matcher_works_as_expected_7() {
    let matcher = TagMatcher::AfterDate(50);

    assert!(!matcher.matches("25"));
}

#[test]
fn tag_matcher_works_as_expected_8() {
    let matcher = TagMatcher::AfterDate(50);

    assert!(!matcher.matches("50"));
}

#[test]
fn tag_matcher_works_as_expected_9() {
    let matcher = TagMatcher::BeforeDate(50);

    assert!(!matcher.matches("75"));
}

#[test]
fn tag_matcher_works_as_expected_10() {
    let matcher = TagMatcher::BeforeDate(50);

    assert!(matcher.matches("25"));
}

#[test]
fn tag_matcher_works_as_expected_11() {
    let matcher = TagMatcher::BeforeDate(50);

    assert!(matcher.matches("50"));
}

#[test]
fn tag_matcher_works_as_expected_12() {
    let matcher = TagMatcher::Regex(String::from("^a.*"));

    assert!(!matcher.matches("basa"));
}

#[test]
fn tag_matcher_works_as_expected_13() {
    let matcher = TagMatcher::Regex(String::from("a.*"));

    assert!(matcher.matches("ades"));
}

#[test]
fn tag_matcher_date_ignores_malformed_values() {
    assert!(!TagMatcher::AfterDate(50).matches("abc"));
    assert!(!TagMatcher::BeforeDate(50).matches(""));
    assert!(!TagMatcher::BeforeDate(50).matches("12a"));
}

#[test]
fn tag_matcher_invalid_regex_never_matches() {
    let matcher = TagMatcher::Regex(String::from("a|*"));

    assert!(!matcher.matches("anything"));
}
