use cedilla::markdown::references::{Reference, References};

#[test]
fn definitions_are_looked_up_by_their_label() {
    let mut references = References::new();
    assert_eq!(references.destination("a"), None);
    assert!(!references.contains("a"));
    references.insert(String::from("a"), String::from("1"));
    references.insert(String::from("b"), String::from("2"));
    assert_eq!(references.destination("a"), Some(String::from("1")));
    assert_eq!(references.destination("b"), Some(String::from("2")));
    assert_eq!(references.destination("A"), None);
    assert!(references.contains("b"));
}

#[test]
fn later_definition_replaces_an_earlier_one() {
    let mut references = References::new();
    references.insert(String::from("a"), String::from("1"));
    references.insert(String::from("b"), String::from("2"));
    references.insert(String::from("a"), String::from("3"));
    assert_eq!(references.destination("a"), Some(String::from("3")));
    assert_eq!(references.destination("b"), Some(String::from("2")));
    let mut once = References::new();
    once.insert(String::from("a"), String::from("3"));
    once.insert(String::from("b"), String::from("2"));
    assert_eq!(references.duplicate().destination("a"), once.destination("a"));
}

#[test]
fn extending_adds_in_order() {
    let mut references = References::new();
    references.insert(String::from("a"), String::from("old"));
    references.extend(&vec![
        Reference { label: String::from("b"), destination: String::from("1") },
        Reference { label: String::from("a"), destination: String::from("2") },
        Reference { label: String::from("b"), destination: String::from("3") },
    ]);
    assert_eq!(references.destination("a"), Some(String::from("2")));
    assert_eq!(references.destination("b"), Some(String::from("3")));
}
