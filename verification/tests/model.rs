use horned_owl::model::AxiomKind;
use horned_owl::model::Class;
use horned_owl::model::ClassExpression;
use horned_owl::model::IRIBuild;
use horned_owl::model::NamedEntity;
use horned_owl::model::NamedEntityKind;
use horned_owl::model::ObjectProperty;
use horned_owl::ontology::Ontology;

#[test]
fn test_iri_from_string() {
    let mut iri_build = IRIBuild::new();
    let iri = iri_build.iri("http://www.example.com");

    assert_eq!(String::from(iri), "http://www.example.com");
}

#[test]
fn test_iri_creation() {
    let mut iri_build = IRIBuild::new();

    let iri1 = iri_build.iri(&"http://example.com".to_string());

    let iri2 = iri_build.iri(&"http://example.com".to_string());

    // these are equal to each other
    assert_eq!(iri1, iri2);

    // these are the same object in memory
    assert!(iri1.shares_storage(&iri2));

    // iri1, iri2 and one in the cache == 3
    assert_eq!(iri1.holders(), 3);
}

#[test]
fn test_iri_string_creation() {
    let mut iri_build = IRIBuild::new();

    let iri_string = iri_build.iri(&"http://www.example.com".to_string());
    let iri_static = iri_build.iri("http://www.example.com");
    let iri_from_iri = iri_build.iri(&String::from(iri_static.clone()));

    let s = "http://www.example.com";
    let iri_str = iri_build.iri(&s[..]);

    assert_eq!(iri_string, iri_static);
    assert_eq!(iri_string, iri_str);
    assert_eq!(iri_static, iri_str);
    assert_eq!(iri_from_iri, iri_str);
}

#[test]
fn test_ontology_cons() {
    let _ = Ontology::new();
    assert!(true);
}

#[test]
fn test_iri() {
    let mut o = Ontology::new();
    let iri = o.iri(&"http://www.example.com".to_string());
    assert_eq!(iri.as_str().to_string(), "http://www.example.com".to_string());
}

#[test]
fn test_class() {
    let mut o = Ontology::new();
    let iri = o.iri(&"http://www.example.com".to_string());

    let a = o.class("http://www.example.com");
    let b = o.class(iri.as_str());
    assert_eq!(a, b);
}

#[test]
fn test_class_iri() {
    let mut o = Ontology::new();

    let iri = o.iri(&"http://www.example.com".to_string());
    let a = o.class(iri.clone().as_str());
    let b = o.class_from_iri(iri);

    assert_eq!(a, b);
}

#[test]
fn test_object_property() {
    let mut o = Ontology::new();
    let iri = o.iri(&"http://www.example.com".to_string());

    let a = o.object_property(iri.clone().as_str());
    let b = o.object_property(iri.as_str());
    assert_eq!(a, b);
}

#[test]
fn iris_of_different_stores_compare_by_string() {
    let mut one = IRIBuild::new();
    let mut other = IRIBuild::new();
    let a = one.iri("http://www.example.com/a");
    let b = other.iri("http://www.example.com/a");
    let c = other.iri("http://www.example.com/c");
    assert_eq!(a, b);
    assert!(a.same(&b));
    assert!(!a.shares_storage(&b));
    assert_ne!(b, c);
    assert!(!b.same(&c));
}

#[test]
fn a_class_is_declared_once() {
    let mut o = Ontology::new();
    let c = o.class("http://www.example.com/c");
    assert_eq!(o.len(), 1);
    let again = o.class("http://www.example.com/c");
    assert_eq!(c, again);
    assert_eq!(o.len(), 1);
    let p = o.object_property("http://www.example.com/c");
    assert_eq!(p, ObjectProperty(o.iri("http://www.example.com/c")));
    assert_eq!(o.len(), 2);
    assert_eq!(c, Class(o.iri("http://www.example.com/c")));
}

#[test]
fn subclass_statements_are_kept_once_and_found() {
    let mut o = Ontology::new();
    let sup = o.class("http://www.example.com/super");
    let sub = o.class("http://www.example.com/sub");
    let subsub = o.class("http://www.example.com/subsub");

    let made = o.subclass(sup.clone(), sub.clone());
    assert_eq!(made.superclass, ClassExpression::Class(sup.clone()));
    assert_eq!(made.subclass, ClassExpression::Class(sub.clone()));
    o.subclass(sub.clone(), subsub.clone());
    assert_eq!(o.len(), 5);
    o.subclass(sup.clone(), sub.clone());
    assert_eq!(o.len(), 5);

    let subs = o.direct_subclass(&sup);
    assert_eq!(vec![&ClassExpression::Class(sub.clone())], subs);
    assert_eq!(o.direct_subclass(&subsub), Vec::<&ClassExpression>::new());

    assert!(o.is_subclass(&sup, &sub));
    assert!(!o.is_subclass(&sub, &sup));
    assert!(!o.is_subclass(&sup, &subsub));
}

#[test]
fn subclasses_come_in_the_order_of_the_statements() {
    let mut o = Ontology::new();
    let class = |o: &mut Ontology, s: &str| ClassExpression::Class(Class(o.iri(s)));
    let sup = class(&mut o, "http://www.example.com/super");
    let a = ClassExpression::ObjectComplementOf(Box::new(class(&mut o, "http://www.example.com/a")));
    let b = class(&mut o, "http://www.example.com/b");
    let c = ClassExpression::ObjectUnionOf(vec![a.clone(), b.clone()]);
    o.subclass_exp(sup.clone(), b.clone());
    o.subclass_exp(c.clone(), sup.clone());
    o.subclass_exp(sup.clone(), a.clone());
    o.subclass_exp(sup.clone(), c.clone());
    assert_eq!(o.direct_subclass_exp(&sup), vec![&b, &a, &c]);
    assert_eq!(o.direct_subclass_exp(&c), vec![&sup]);
    assert!(o.is_subclass_exp(&c, &sup));
    assert!(o.is_subclass_exp(&sup, &c));
    assert!(!o.is_subclass_exp(&a, &b));
}

#[test]
fn named_entities_are_declared_once() {
    let mut o = Ontology::new();
    let i = o.iri("http://www.example.com/e");
    o.named_entity(NamedEntity::Class(Class(i.clone())));
    o.named_entity(NamedEntity::ObjectProperty(ObjectProperty(i.clone())));
    o.named_entity(NamedEntity::Class(Class(i.clone())));
    assert_eq!(o.count(AxiomKind::DeclareClass), 1);
    assert_eq!(o.count(AxiomKind::DeclareObjectProperty), 1);
    assert_eq!(o.len(), 2);
    assert_eq!(NamedEntity::Class(Class(i.clone())).kind(), NamedEntityKind::Class);
    assert_eq!(
        NamedEntity::ObjectProperty(ObjectProperty(i)).kind(),
        NamedEntityKind::ObjectProperty
    );
}
