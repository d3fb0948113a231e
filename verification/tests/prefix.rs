use horned_owl::prefix::ExpandError;
use horned_owl::prefix::InvalidPrefix;
use horned_owl::prefix::PrefixMap;

#[test]
fn a_new_map_holds_nothing() {
    let m = PrefixMap::new();
    assert_eq!(m.mappings(), vec![]);
    assert_eq!(m.default_iri(), None);
    assert_eq!(m.expand(None, "x"), Err(ExpandError::MissingDefault));
    assert_eq!(m.expand(Some("ex"), "x"), Err(ExpandError::UndefinedPrefix));
}

#[test]
fn expansion_puts_the_local_part_after_the_bound_iri() {
    let mut m = PrefixMap::new();
    m.add_prefix("ex", "http://example.com/").unwrap();
    m.add_prefix("owl", "http://www.w3.org/2002/07/owl#").unwrap();
    assert_eq!(m.expand(Some("ex"), "a/b"), Ok("http://example.com/a/b".to_string()));
    assert_eq!(
        m.expand(Some("owl"), "Thing"),
        Ok("http://www.w3.org/2002/07/owl#Thing".to_string())
    );
    // The local part is taken as it is written.
    assert_eq!(m.expand(Some("ex"), "a%20b"), Ok("http://example.com/a%20b".to_string()));
    assert_eq!(m.expand(Some("ex"), ""), Ok("http://example.com/".to_string()));
}

#[test]
fn the_default_serves_names_without_prefix_only() {
    let mut m = PrefixMap::new();
    m.set_default("http://default.com/");
    assert_eq!(m.default_iri(), Some("http://default.com/".to_string()));
    assert_eq!(m.expand(None, "x"), Ok("http://default.com/x".to_string()));
    assert_eq!(m.expand(Some(""), "x"), Err(ExpandError::UndefinedPrefix));
    assert_eq!(m.mappings(), vec![]);
    m.set_default("http://other.com/");
    assert_eq!(m.expand(None, "x"), Ok("http://other.com/x".to_string()));
}

#[test]
fn the_empty_name_can_be_bound_beside_the_default() {
    let mut m = PrefixMap::new();
    m.set_default("http://default.com/");
    m.add_prefix("", "http://empty.com/").unwrap();
    assert_eq!(m.expand(Some(""), "x"), Ok("http://empty.com/x".to_string()));
    assert_eq!(m.expand(None, "x"), Ok("http://default.com/x".to_string()));
}

#[test]
fn the_reserved_name_is_refused() {
    let mut m = PrefixMap::new();
    m.add_prefix("a", "http://a.com/").unwrap();
    assert_eq!(m.add_prefix("_", "http://blank.com/"), Err(InvalidPrefix::ReservedPrefix));
    assert_eq!(m.mappings(), vec![("a".to_string(), "http://a.com/".to_string())]);
    assert_eq!(m.expand(Some("_"), "x"), Err(ExpandError::UndefinedPrefix));
    m.add_prefix("__", "http://two.com/").unwrap();
}

#[test]
fn binding_a_name_again_keeps_its_place() {
    let mut m = PrefixMap::new();
    m.add_prefix("a", "http://a.com/").unwrap();
    m.add_prefix("b", "http://b.com/").unwrap();
    m.add_prefix("c", "http://c.com/").unwrap();
    m.add_prefix("a", "http://again.com/").unwrap();
    assert_eq!(
        m.mappings(),
        vec![
            ("a".to_string(), "http://again.com/".to_string()),
            ("b".to_string(), "http://b.com/".to_string()),
            ("c".to_string(), "http://c.com/".to_string()),
        ]
    );
    assert_eq!(m.expand(Some("a"), "x"), Ok("http://again.com/x".to_string()));
    assert_eq!(m.expand(Some("b"), "x"), Ok("http://b.com/x".to_string()));
}
