use regex_with::annotation::{get_re, AnnotationError};
use regex_with::capturable::Capturable;
use regex_with::de::Error;
use regex_with::record::{field, optional_str, optional_u64, required_str, required_u64};
use regex_with::{Deserializer, RegexCapture};

#[derive(Debug, PartialEq)]
struct Id {
    id: u64,
}

fn parse_id(pattern: &str, s: &str) -> Result<Id, Error> {
    let cap = RegexCapture::new(pattern).unwrap();
    let de = Deserializer::new(s, &cap);
    let entries = de.deserialize_map()?;
    Ok(Id { id: required_u64(&entries, "id")? })
}

#[derive(Debug, PartialEq)]
struct Person {
    name: String,
    age: Option<u64>,
}

fn parse_person(s: &str) -> Result<Person, Error> {
    let cap = RegexCapture::new(r"^(?P<name>\w+)-(?P<age>\d+)?$").unwrap();
    let de = Deserializer::new(s, cap);
    let entries = de.deserialize_struct()?;
    Ok(Person { name: required_str(&entries, "name")?, age: optional_u64(&entries, "age")? })
}

fn pairs(v: &[(&str, &str)]) -> Vec<(String, String)> {
    v.iter().map(|(a, b)| (a.to_string(), b.to_string())).collect()
}

fn entries_of(pattern: &str, s: &str) -> Result<Vec<(String, String)>, Error> {
    let cap = RegexCapture::new(pattern).unwrap();
    Deserializer::new(s, &cap).deserialize_map()
}

#[test]
fn unsigned_id_parses() {
    assert_eq!(parse_id(r"^(?P<id>\d+)$", "123").unwrap(), Id { id: 123 });
}

#[test]
fn unsigned_id_rejects_trailing_letter() {
    assert!(matches!(parse_id(r"^(?P<id>\d+)$", "12a"), Err(Error::NoMatch)));
}

#[test]
fn optional_age_absent() {
    assert_eq!(parse_person("bob-").unwrap(), Person { name: "bob".to_string(), age: None });
}

#[test]
fn optional_age_present() {
    assert_eq!(parse_person("bob-30").unwrap(), Person { name: "bob".to_string(), age: Some(30) });
}

#[test]
fn person_without_dash_is_no_match() {
    assert!(matches!(parse_person("bob"), Err(Error::NoMatch)));
}

#[test]
fn unconvertible_value_is_plain_error() {
    assert!(matches!(parse_id(r"^(?P<id>\w+)$", "abc"), Err(Error::Plain(_))));
}

#[test]
fn overflowing_value_is_plain_error() {
    assert!(matches!(parse_id(r"^(?P<id>\d+)$", "18446744073709551616"), Err(Error::Plain(_))));
}

#[test]
fn largest_value_parses() {
    assert_eq!(parse_id(r"^(?P<id>\d+)$", "18446744073709551615").unwrap(), Id { id: u64::MAX });
}

#[test]
fn leading_plus_parses() {
    assert_eq!(parse_id(r"^(?P<id>\+?\d+)$", "+7").unwrap(), Id { id: 7 });
}

#[test]
fn missing_required_field_is_custom_error() {
    match parse_id(r"^(?P<name>\w+)$", "abc") {
        Err(Error::Custom(m)) => assert_eq!(m, "missing field `id`"),
        other => panic!("unexpected {:?}", other),
    }
}

#[test]
fn unnamed_groups_are_not_keys() {
    assert_eq!(entries_of(r"(\d+)-(?P<x>\w+)", "12-ab").unwrap(), pairs(&[("x", "ab")]));
}

#[test]
fn non_participating_groups_are_absent() {
    assert_eq!(entries_of(r"^(?P<a>a)?(?P<b>b)$", "b").unwrap(), pairs(&[("b", "b")]));
}

#[test]
fn keys_follow_declaration_order() {
    assert_eq!(entries_of(r"(?P<b>\d)(?P<a>\d)", "12").unwrap(), pairs(&[("b", "1"), ("a", "2")]));
}

#[test]
fn unanchored_pattern_takes_leftmost_match() {
    assert_eq!(entries_of(r"(?P<n>\d+)", "ab12cd34").unwrap(), pairs(&[("n", "12")]));
}

#[test]
fn empty_input_without_match() {
    assert!(matches!(entries_of(r"(?P<n>\d+)", ""), Err(Error::NoMatch)));
}

#[test]
fn repeated_parses_are_equal() {
    let first = parse_person("ann-41").unwrap();
    let second = parse_person("ann-41").unwrap();
    assert_eq!(first, second);
    let cap = RegexCapture::new(r"(?P<n>\d+)").unwrap();
    let de = Deserializer::new("x9", &cap);
    assert_eq!(de.deserialize_map().unwrap(), de.deserialize_map().unwrap());
}

#[test]
fn every_shape_presents_the_same_mapping() {
    let cap = RegexCapture::new(r"(?P<k>[a-z]+)=(?P<v>\d+)").unwrap();
    let de = Deserializer::new("k=1 ab=22", &cap);
    let expected = pairs(&[("k", "k"), ("v", "1")]);
    assert_eq!(de.deserialize_map().unwrap(), expected);
    assert_eq!(de.deserialize_any().unwrap(), expected);
    assert_eq!(de.deserialize_struct().unwrap(), expected);
    assert_eq!(de.deserialize_enum().unwrap(), expected);
}

#[test]
fn invalid_pattern_is_refused() {
    assert!(RegexCapture::new(r"(?P<id>\d+").is_err());
}

#[test]
fn provider_reports_all_declared_names() {
    let cap = RegexCapture::new(r"^(?P<a>a)?(b)(?P<c>c)$").unwrap();
    let (names, groups) = cap.captures("bc").unwrap();
    assert_eq!(names, vec![None, Some("a".to_string()), None, Some("c".to_string())]);
    assert_eq!(groups, vec![Some("bc".to_string()), None, Some("b".to_string()), Some("c".to_string())]);
    assert!(cap.captures("xyz").is_none());
}

#[test]
fn field_lookup_by_name() {
    let e = pairs(&[("a", "1"), ("b", "")]);
    assert_eq!(field(&e, "a"), Some("1".to_string()));
    assert_eq!(field(&e, "z"), None);
    assert_eq!(optional_str(&e, "a"), Some("1".to_string()));
    assert_eq!(optional_str(&e, "b"), None);
    assert_eq!(optional_str(&e, "z"), None);
    assert_eq!(optional_u64(&e, "b").unwrap(), None);
    assert_eq!(optional_u64(&e, "z").unwrap(), None);
    assert!(matches!(optional_u64(&pairs(&[("a", "x")]), "a"), Err(Error::Plain(_))));
    assert_eq!(required_str(&e, "b").unwrap(), "");
}

#[test]
fn custom_error_keeps_message() {
    match Error::custom("bad record") {
        Error::Custom(m) => assert_eq!(m, "bad record"),
        other => panic!("unexpected {:?}", other),
    }
}

#[test]
fn plain_error_converts() {
    let e = serde_plain::from_str::<u64>("q").unwrap_err();
    assert!(matches!(Error::from(e), Error::Plain(_)));
}

#[test]
fn annotation_gives_pattern() {
    let e = pairs(&[("re", "^\\d+")]);
    assert_eq!(get_re(&e).ok(), Some("^\\d+".to_string()));
}

#[test]
fn annotation_last_pattern_counts() {
    let e = pairs(&[("re", "a"), ("re", "b")]);
    assert_eq!(get_re(&e).ok(), Some("b".to_string()));
}

#[test]
fn empty_annotation_gives_empty_pattern() {
    assert_eq!(get_re(&Vec::new()).ok(), Some(String::new()));
}

#[test]
fn annotation_refuses_other_key() {
    let e = pairs(&[("re", "a"), ("pattern", "b"), ("other", "c")]);
    match get_re(&e) {
        Err(AnnotationError::Unrecognized(k)) => assert_eq!(k, "pattern"),
        Ok(p) => panic!("unexpected pattern {}", p),
    }
}
