use horned_owl::error::HornedError;
use horned_owl::error::Span;
use horned_owl::model::AnnotatedComponent;
use horned_owl::model::Class;
use horned_owl::model::ClassExpression;
use horned_owl::model::Component;
use horned_owl::model::DataProperty;
use horned_owl::model::IRIBuild;
use horned_owl::model::PropertyExpression;
use horned_owl::model::IRI;
use horned_owl::parse_tree::ParseNode;
use horned_owl::parse_tree::Rule;
use horned_owl::prefix::PrefixMap;
use horned_owl::reader::document::document_from_pair;
use horned_owl::reader::Context;

/// The node of `rule` that matched `piece`, which stands once in `doc`.
fn node(rule: Rule, doc: &str, piece: &str, children: Vec<ParseNode>) -> ParseNode {
    let start = doc.find(piece).unwrap();
    ParseNode {
        rule,
        text: piece.to_string(),
        span: Span { start, end: start + piece.len() },
        children,
    }
}

/// The tree of the full IRI `<body>`.
fn full_iri(doc: &str, body: &str) -> ParseNode {
    let bracketed = format!("<{}>", body);
    node(
        Rule::IRI,
        doc,
        &bracketed,
        vec![node(Rule::FullIRI, doc, &bracketed, vec![node(Rule::Other, doc, body, vec![])])],
    )
}

/// The tree of the abbreviated IRI `prefix:local`.
fn abbreviated_iri(doc: &str, prefix: &str, local: &str) -> ParseNode {
    let whole = format!("{}:{}", prefix, local);
    let namespace = format!("{}:", prefix);
    let below = if prefix.is_empty() { vec![] } else { vec![node(Rule::Other, doc, prefix, vec![])] };
    node(
        Rule::IRI,
        doc,
        &whole,
        vec![node(
            Rule::AbbreviatedIRI,
            doc,
            &whole,
            vec![node(
                Rule::Other,
                doc,
                &whole,
                vec![
                    node(Rule::Other, doc, &namespace, below),
                    node(Rule::Other, doc, local, vec![]),
                ],
            )],
        )],
    )
}

fn context(bindings: &[(&str, &str)]) -> Context {
    let mut prefixes = PrefixMap::new();
    for (name, iri) in bindings {
        prefixes.add_prefix(name, iri).unwrap();
    }
    Context::new(IRIBuild::new(), prefixes)
}

#[test]
fn has_key_from_a_tree() {
    let mut build = IRIBuild::new();
    let mut ctx = context(&[("owl", "http://www.w3.org/2002/07/owl#")]);

    let doc = "HasKey( owl:Thing () (<http://www.example.com/issn>) )";
    let thing = abbreviated_iri(doc, "owl", "Thing");
    let issn = full_iri(doc, "http://www.example.com/issn");
    let tree = node(
        Rule::Axiom,
        doc,
        doc,
        vec![node(
            Rule::HasKey,
            doc,
            doc,
            vec![
                node(Rule::Annotations, doc, "", vec![]),
                node(
                    Rule::ClassExpression,
                    doc,
                    "owl:Thing",
                    vec![node(Rule::Class, doc, "owl:Thing", vec![thing])],
                ),
                node(Rule::DataProperty, doc, "<http://www.example.com/issn>", vec![issn]),
            ],
        )],
    );

    let res = AnnotatedComponent::from_pair(&tree, &mut ctx);
    assert_eq!(
        res.unwrap(),
        AnnotatedComponent::from(Component::HasKey {
            ce: ClassExpression::Class(Class(build.iri("http://www.w3.org/2002/07/owl#Thing"))),
            vpe: vec![PropertyExpression::DataProperty(DataProperty(
                build.iri("http://www.example.com/issn")
            ))],
        })
    );
}

#[test]
fn declare_class_from_a_tree() {
    let mut build = IRIBuild::new();
    let mut ctx = context(&[("owl", "http://www.w3.org/2002/07/owl#")]);

    let doc = "Class( owl:Thing )";
    let tree = node(
        Rule::ClassDeclaration,
        doc,
        doc,
        vec![node(Rule::Class, doc, "owl:Thing", vec![abbreviated_iri(doc, "owl", "Thing")])],
    );
    let res = Component::declaration_from_pair(&tree, &mut ctx);
    assert_eq!(
        res.unwrap(),
        Component::DeclareClass(Class(build.iri("http://www.w3.org/2002/07/owl#Thing")))
    );

    let doc = "Declaration(Class(owl:Thing))";
    let tree = || {
        node(
            Rule::Axiom,
            doc,
            doc,
            vec![node(
                Rule::Declaration,
                doc,
                doc,
                vec![
                    node(Rule::Annotations, doc, "", vec![]),
                    node(
                        Rule::Other,
                        doc,
                        "Class(owl:Thing)",
                        vec![node(
                            Rule::ClassDeclaration,
                            doc,
                            "Class(owl:Thing)",
                            vec![node(
                                Rule::Class,
                                doc,
                                "owl:Thing",
                                vec![abbreviated_iri(doc, "owl", "Thing")],
                            )],
                        )],
                    ),
                ],
            )],
        )
    };
    let res = Component::from_pair(&tree(), &mut ctx);
    assert_eq!(
        res.unwrap(),
        Component::DeclareClass(Class(build.iri("http://www.w3.org/2002/07/owl#Thing")))
    );

    let res = AnnotatedComponent::from_pair(&tree(), &mut ctx);
    assert_eq!(
        res.unwrap(),
        AnnotatedComponent::from(Component::DeclareClass(Class(
            build.iri("http://www.w3.org/2002/07/owl#Thing")
        )))
    );
}

#[test]
fn iri_from_a_tree() {
    let mut build = IRIBuild::new();
    let mut ctx = context(&[("ex", "http://example.com/path#")]);

    let doc = "<http://example.com/path#ref>";
    let res = IRI::from_pair(&full_iri(doc, "http://example.com/path#ref"), &mut ctx);
    assert_eq!(res.unwrap(), build.iri("http://example.com/path#ref"));

    let doc = "ex:ref";
    let res = IRI::from_pair(&abbreviated_iri(doc, "ex", "ref"), &mut ctx);
    assert_eq!(res.unwrap(), build.iri("http://example.com/path#ref"));
}

/// The tree of the prefix declaration `Prefix(name:=<iri>)`.
fn prefix_declaration(doc: &str, name: &str, iri: &str) -> ParseNode {
    let whole = format!("Prefix({}:=<{}>)", name, iri);
    let namespace = format!("{}:", name);
    let bracketed = format!("<{}>", iri);
    let below = if name.is_empty() { vec![] } else { vec![node(Rule::Other, doc, name, vec![])] };
    node(
        Rule::PrefixDeclaration,
        doc,
        &whole,
        vec![
            node(Rule::Other, doc, &namespace, vec![node(Rule::Other, doc, &namespace, below)]),
            node(Rule::FullIRI, doc, &bracketed, vec![node(Rule::Other, doc, iri, vec![])]),
        ],
    )
}

#[test]
fn ontology_document_from_a_tree() {
    let mut ctx = context(&[]);
    let txt = "Prefix(ex:=<http://example.com/>) Prefix(:=<http://default.com/>) Ontology()";

    let mut expected = PrefixMap::new();
    expected.set_default("http://default.com/");
    expected.add_prefix("ex", "http://example.com/").unwrap();

    let pair = node(
        Rule::OntologyDocument,
        txt,
        txt,
        vec![
            prefix_declaration(txt, "ex", "http://example.com/"),
            prefix_declaration(txt, "", "http://default.com/"),
            node(
                Rule::Ontology,
                txt,
                "Ontology()",
                vec![
                    node(Rule::Other, txt, "", vec![]),
                    node(Rule::Other, txt, "", vec![]),
                    node(Rule::Other, txt, "", vec![]),
                ],
            ),
            node(Rule::Other, txt, "", vec![]),
        ],
    );

    let doc = document_from_pair(&pair, &mut ctx).unwrap();
    assert_eq!(
        doc.1.mappings().into_iter().collect::<std::collections::HashSet<_>>(),
        expected.mappings().into_iter().collect::<std::collections::HashSet<_>>()
    );
    assert_eq!(doc.1.mappings(), vec![("ex".to_string(), "http://example.com/".to_string())]);
    assert_eq!(doc.1.default_iri(), Some("http://default.com/".to_string()));
    // An empty ontology holds its identifier and nothing else.
    assert_eq!(doc.0.len(), 1);
}

#[test]
fn a_rule_that_is_not_wanted_is_reported_with_both_rules() {
    let mut ctx = context(&[]);
    let doc = "<http://example.com/a>";
    let mut tree = full_iri(doc, "http://example.com/a");
    tree.rule = Rule::Class;
    assert_eq!(
        IRI::from_pair(&tree, &mut ctx),
        Err(HornedError::ParseError {
            positives: Some(Rule::Class),
            negatives: Some(Rule::IRI),
            span: Span { start: 0, end: 22 },
        })
    );
}
