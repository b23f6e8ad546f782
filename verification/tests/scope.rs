use enseada::oauth::error::ErrorKind;
use enseada::oauth::scope::Scope;

#[test]
fn it_matches_a_similar_scope() {
    let a = Scope::from("test profile email");
    let b = Scope::from("email test something");

    let i = a.matches(&b).unwrap();
    assert_eq!(i.to_string(), "email test");
}

#[test]
fn it_does_not_match_a_different_scope() {
    let a = Scope::from("profile email");
    let b = Scope::from("test something");

    let i = a.matches(&b).unwrap_err();
    assert_eq!(i.kind(), &ErrorKind::InvalidScope);
    assert_eq!(i.to_string(), "\"invalid_scope\": invalid scopes");
}

#[test]
fn it_checks_a_subset() {
    let a = Scope::from("profile email");
    let b = Scope::from("profile");

    assert!(a.is_superset(&b))
}

#[test]
fn it_does_not_check_an_invalid_subset() {
    let a = Scope::from("profile email");
    let b = Scope::from("test");

    assert!(!a.is_superset(&b))
}

#[test]
fn scope_keeps_each_word_once() {
    let s = Scope::from("a b a c b");
    assert_eq!(s.to_string(), "a b c");
    assert_eq!(s.words(), vec!["a".to_string(), "b".to_string(), "c".to_string()]);
}

#[test]
fn scope_text_reads_back() {
    let s = Scope::from(vec!["profile", "email"]);
    assert_eq!(Scope::from(s.to_string()).to_string(), "profile email");
}

#[test]
fn scope_intersection_is_symmetric_as_a_set() {
    let a = Scope::from("x y z");
    let b = Scope::from("z w x");
    let ab = a.matches(&b).unwrap();
    let ba = b.matches(&a).unwrap();
    assert_eq!(ab.to_string(), "z x");
    assert_eq!(ba.to_string(), "x z");
    assert!(ab.is_superset(&ba) && ba.is_superset(&ab));
}

#[test]
fn scope_covers_itself_and_chains() {
    let a = Scope::from("a b c");
    let b = Scope::from("a b");
    let c = Scope::from("b");
    assert!(a.is_superset(&a));
    assert!(a.is_superset(&b) && b.is_superset(&c) && a.is_superset(&c));
    assert!(a.is_superset(&Scope::empty()));
    assert!(!Scope::empty().is_superset(&c));
}

#[test]
fn scope_contains_words() {
    let s = Scope::from("users:read profile");
    assert!(s.contains("profile"));
    assert!(!s.contains("users"));
    assert_eq!(Scope::default().to_string(), "");
}

#[test]
fn scope_from_owned_words() {
    let s = Scope::from(vec!["b".to_string(), "a".to_string(), "b".to_string()]);
    assert_eq!(s.to_string(), "b a");
}
