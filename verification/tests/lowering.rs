use horned_owl::error::HornedError;
use horned_owl::error::Span;
use horned_owl::model::AnnotatedComponent;
use horned_owl::model::Annotation;
use horned_owl::model::AnnotationProperty;
use horned_owl::model::AnnotationSet;
use horned_owl::model::AnnotationSubject;
use horned_owl::model::AnnotationValue;
use horned_owl::model::AnonymousIndividual;
use horned_owl::model::AxiomKind;
use horned_owl::model::Class;
use horned_owl::model::ClassExpression;
use horned_owl::model::Component;
use horned_owl::model::DataProperty;
use horned_owl::model::DataRange;
use horned_owl::model::Datatype;
use horned_owl::model::Facet;
use horned_owl::model::FacetRestriction;
use horned_owl::model::IRIBuild;
use horned_owl::model::Individual;
use horned_owl::model::Literal;
use horned_owl::model::NamedIndividual;
use horned_owl::model::ObjectProperty;
use horned_owl::model::ObjectPropertyExpression;
use horned_owl::model::OntologyID;
use horned_owl::model::PropertyExpression;
use horned_owl::model::SubClass;
use horned_owl::model::SubObjectPropertyExpression;
use horned_owl::model::IRI;
use horned_owl::ontology::Ontology;
use horned_owl::parse_tree::ParseNode;
use horned_owl::parse_tree::Rule;
use horned_owl::prefix::PrefixMap;
use horned_owl::reader::basic::non_negative_integer_from_pair;
use horned_owl::reader::basic::quoted_string_from_pair;
use horned_owl::reader::document::document_from_pair;
use horned_owl::reader::Context;

const EX: &str = "http://www.example.com/";
const OWL_THING: &str = "http://www.w3.org/2002/07/owl#Thing";
const RDFS_LITERAL: &str = "http://www.w3.org/2000/01/rdf-schema#Literal";
const XSD: &str = "http://www.w3.org/2001/XMLSchema#";

// Trees. Spans are told apart by their start, which a test sets where it
// reads an error's span.

fn tree(rule: Rule, children: Vec<ParseNode>) -> ParseNode {
    ParseNode { rule, text: String::new(), span: Span { start: 0, end: 0 }, children }
}

fn token(rule: Rule, text: &str) -> ParseNode {
    ParseNode { rule, text: text.to_string(), span: Span { start: 0, end: text.len() }, children: vec![] }
}

fn at(start: usize, mut n: ParseNode) -> ParseNode {
    let len = n.span.end - n.span.start;
    n.span = Span { start, end: start + len };
    n
}

fn full(body: &str) -> ParseNode {
    tree(Rule::IRI, vec![tree(Rule::FullIRI, vec![token(Rule::Other, body)])])
}

fn curie(prefix: Option<&str>, local: &str) -> ParseNode {
    let below = match prefix {
        Some(p) => vec![token(Rule::Other, p)],
        None => vec![],
    };
    tree(
        Rule::IRI,
        vec![tree(
            Rule::AbbreviatedIRI,
            vec![tree(Rule::Other, vec![tree(Rule::Other, below), token(Rule::Other, local)])],
        )],
    )
}

fn ex(local: &str) -> ParseNode {
    curie(Some("ex"), local)
}

fn entity(rule: Rule, iri: ParseNode) -> ParseNode {
    tree(rule, vec![iri])
}

fn class_expression(inner: ParseNode) -> ParseNode {
    tree(Rule::ClassExpression, vec![inner])
}

fn named_class(local: &str) -> ParseNode {
    class_expression(entity(Rule::Class, ex(local)))
}

fn object_property_expression(local: &str) -> ParseNode {
    tree(Rule::ObjectPropertyExpression, vec![entity(Rule::ObjectProperty, ex(local))])
}

fn inverse(local: &str) -> ParseNode {
    tree(
        Rule::ObjectPropertyExpression,
        vec![tree(Rule::InverseObjectProperty, vec![entity(Rule::ObjectProperty, ex(local))])],
    )
}

fn data_property(local: &str) -> ParseNode {
    entity(Rule::DataProperty, ex(local))
}

fn data_range(inner: ParseNode) -> ParseNode {
    tree(Rule::DataRange, vec![inner])
}

fn named_datatype(iri: &str) -> ParseNode {
    data_range(entity(Rule::Datatype, full(iri)))
}

fn individual(local: &str) -> ParseNode {
    tree(Rule::Individual, vec![entity(Rule::NamedIndividual, ex(local))])
}

fn anonymous(label: &str) -> ParseNode {
    tree(
        Rule::AnonymousIndividual,
        vec![ParseNode {
            rule: Rule::Other,
            text: format!("_:{}", label),
            span: Span { start: 0, end: 0 },
            children: vec![token(Rule::Other, label)],
        }],
    )
}

fn literal(inner: ParseNode) -> ParseNode {
    tree(Rule::Literal, vec![inner])
}

fn plain(quoted: &str) -> ParseNode {
    literal(tree(Rule::StringLiteralNoLanguage, vec![token(Rule::QuotedString, quoted)]))
}

fn number(digits: &str) -> ParseNode {
    token(Rule::NonNegativeInteger, digits)
}

fn annotations(items: Vec<ParseNode>) -> ParseNode {
    tree(Rule::Annotations, items)
}

fn annotation(nested: Vec<ParseNode>, property: &str, value: ParseNode) -> ParseNode {
    tree(
        Rule::Annotation,
        vec![
            annotations(nested),
            entity(Rule::AnnotationProperty, ex(property)),
            tree(Rule::AnnotationValue, vec![value]),
        ],
    )
}

fn form(rule: Rule, operands: Vec<ParseNode>) -> ParseNode {
    annotated_form(rule, vec![], operands)
}

fn annotated_form(rule: Rule, anns: Vec<ParseNode>, operands: Vec<ParseNode>) -> ParseNode {
    let mut children = vec![annotations(anns)];
    children.extend(operands);
    tree(Rule::Axiom, vec![tree(rule, children)])
}

fn member(inner: ParseNode) -> ParseNode {
    tree(Rule::Other, vec![inner])
}

fn ontology(header: Vec<ParseNode>, imports: Vec<ParseNode>, anns: Vec<ParseNode>, members: Vec<ParseNode>) -> ParseNode {
    let mut children = header;
    children.push(tree(Rule::Other, imports));
    children.push(tree(Rule::Other, anns));
    children.push(tree(Rule::Other, members));
    tree(Rule::Ontology, children)
}

fn prefix_declaration(name: Option<&str>, iri: &str) -> ParseNode {
    let below = match name {
        Some(p) => vec![at(7, token(Rule::Other, p))],
        None => vec![],
    };
    tree(
        Rule::PrefixDeclaration,
        vec![
            tree(Rule::Other, vec![tree(Rule::Other, below)]),
            tree(Rule::FullIRI, vec![token(Rule::Other, iri)]),
        ],
    )
}

fn document(declarations: Vec<ParseNode>, body: ParseNode) -> ParseNode {
    let mut children = declarations;
    children.push(body);
    children.push(token(Rule::Other, ""));
    tree(Rule::OntologyDocument, children)
}

// Values.

fn context() -> Context {
    let mut prefixes = PrefixMap::new();
    prefixes.add_prefix("ex", EX).unwrap();
    prefixes.add_prefix("xsd", XSD).unwrap();
    Context::new(IRIBuild::new(), prefixes)
}

fn iri(s: &str) -> IRI {
    IRIBuild::new().iri(s)
}

fn exi(local: &str) -> IRI {
    IRIBuild::new().iri(&format!("{}{}", EX, local))
}

fn class(local: &str) -> ClassExpression {
    ClassExpression::Class(Class(exi(local)))
}

fn ope(local: &str) -> ObjectPropertyExpression {
    ObjectPropertyExpression::ObjectProperty(ObjectProperty(exi(local)))
}

fn named(local: &str) -> Individual {
    Individual::Named(NamedIndividual(exi(local)))
}

fn simple(s: &str) -> Literal {
    Literal::Simple { literal: s.to_string() }
}

fn bare(c: Component) -> AnnotatedComponent {
    AnnotatedComponent::from(c)
}

fn lower_ce(n: &ParseNode) -> Result<ClassExpression, HornedError> {
    ClassExpression::from_pair(n, &mut context())
}

fn lower_form(n: &ParseNode) -> Result<AnnotatedComponent, HornedError> {
    AnnotatedComponent::from_pair(n, &mut context())
}

// Class expressions.

#[test]
fn an_object_cardinality_without_class_counts_thing() {
    let n = class_expression(tree(
        Rule::ObjectMinCardinality,
        vec![number("2"), object_property_expression("p")],
    ));
    assert_eq!(
        lower_ce(&n),
        Ok(ClassExpression::ObjectMinCardinality {
            n: 2,
            ope: ope("p"),
            bce: Box::new(ClassExpression::Class(Class(iri(OWL_THING)))),
        })
    );
    let n = class_expression(tree(
        Rule::ObjectMaxCardinality,
        vec![number("0"), inverse("p")],
    ));
    assert_eq!(
        lower_ce(&n),
        Ok(ClassExpression::ObjectMaxCardinality {
            n: 0,
            ope: ObjectPropertyExpression::InverseObjectProperty(ObjectProperty(exi("p"))),
            bce: Box::new(ClassExpression::Class(Class(iri(OWL_THING)))),
        })
    );
    let n = class_expression(tree(
        Rule::ObjectExactCardinality,
        vec![number("4294967295"), object_property_expression("p")],
    ));
    assert_eq!(
        lower_ce(&n),
        Ok(ClassExpression::ObjectExactCardinality {
            n: 4294967295,
            ope: ope("p"),
            bce: Box::new(ClassExpression::Class(Class(iri(OWL_THING)))),
        })
    );
}

#[test]
fn an_object_cardinality_with_class_counts_that_class() {
    let n = class_expression(tree(
        Rule::ObjectMinCardinality,
        vec![number("1"), object_property_expression("p"), named_class("C")],
    ));
    assert_eq!(
        lower_ce(&n),
        Ok(ClassExpression::ObjectMinCardinality { n: 1, ope: ope("p"), bce: Box::new(class("C")) })
    );
}

#[test]
fn a_data_cardinality_without_range_counts_literal() {
    for (rule, n) in [
        (Rule::DataMinCardinality, 1u32),
        (Rule::DataMaxCardinality, 2),
        (Rule::DataExactCardinality, 3),
    ] {
        let node = class_expression(tree(rule, vec![number(&n.to_string()), data_property("d")]));
        let dp = DataProperty(exi("d"));
        let dr = DataRange::Datatype(Datatype(iri(RDFS_LITERAL)));
        let expected = match rule {
            Rule::DataMinCardinality => ClassExpression::DataMinCardinality { n, dp, dr },
            Rule::DataMaxCardinality => ClassExpression::DataMaxCardinality { n, dp, dr },
            _ => ClassExpression::DataExactCardinality { n, dp, dr },
        };
        assert_eq!(lower_ce(&node), Ok(expected));
    }
}

#[test]
fn a_data_cardinality_with_range_counts_that_range() {
    let integer = format!("{}integer", XSD);
    let node = class_expression(tree(
        Rule::DataMaxCardinality,
        vec![number("5"), data_property("d"), named_datatype(&integer)],
    ));
    assert_eq!(
        lower_ce(&node),
        Ok(ClassExpression::DataMaxCardinality {
            n: 5,
            dp: DataProperty(exi("d")),
            dr: DataRange::Datatype(Datatype(iri(&integer))),
        })
    );
}

#[test]
fn a_cardinality_that_does_not_fit_is_an_error() {
    let node = class_expression(tree(
        Rule::ObjectMinCardinality,
        vec![at(20, number("4294967296")), object_property_expression("p")],
    ));
    assert_eq!(
        lower_ce(&node),
        Err(HornedError::ParseError { positives: None, negatives: None, span: Span { start: 20, end: 30 } })
    );
}

#[test]
fn boolean_class_expressions_keep_their_operands_in_order() {
    let n = class_expression(tree(
        Rule::ObjectIntersectionOf,
        vec![named_class("A"), named_class("B"), named_class("C")],
    ));
    assert_eq!(
        lower_ce(&n),
        Ok(ClassExpression::ObjectIntersectionOf(vec![class("A"), class("B"), class("C")]))
    );
    let n = class_expression(tree(
        Rule::ObjectUnionOf,
        vec![
            named_class("A"),
            class_expression(tree(Rule::ObjectComplementOf, vec![named_class("B")])),
        ],
    ));
    assert_eq!(
        lower_ce(&n),
        Ok(ClassExpression::ObjectUnionOf(vec![
            class("A"),
            ClassExpression::ObjectComplementOf(Box::new(class("B"))),
        ]))
    );
}

#[test]
fn object_restrictions_are_lowered() {
    let n = class_expression(tree(
        Rule::ObjectSomeValuesFrom,
        vec![object_property_expression("p"), named_class("C")],
    ));
    assert_eq!(
        lower_ce(&n),
        Ok(ClassExpression::ObjectSomeValuesFrom { ope: ope("p"), bce: Box::new(class("C")) })
    );
    let n = class_expression(tree(Rule::ObjectAllValuesFrom, vec![inverse("p"), named_class("C")]));
    assert_eq!(
        lower_ce(&n),
        Ok(ClassExpression::ObjectAllValuesFrom {
            ope: ObjectPropertyExpression::InverseObjectProperty(ObjectProperty(exi("p"))),
            bce: Box::new(class("C")),
        })
    );
    let n = class_expression(tree(
        Rule::ObjectHasValue,
        vec![object_property_expression("p"), individual("i")],
    ));
    assert_eq!(lower_ce(&n), Ok(ClassExpression::ObjectHasValue { ope: ope("p"), i: named("i") }));
    let n = class_expression(tree(Rule::ObjectHasSelf, vec![object_property_expression("p")]));
    assert_eq!(lower_ce(&n), Ok(ClassExpression::ObjectHasSelf(ope("p"))));
    let n = class_expression(tree(
        Rule::ObjectOneOf,
        vec![individual("i"), tree(Rule::Individual, vec![anonymous("b1")])],
    ));
    assert_eq!(
        lower_ce(&n),
        Ok(ClassExpression::ObjectOneOf(vec![
            named("i"),
            Individual::Anonymous(AnonymousIndividual("b1".to_string())),
        ]))
    );
}

#[test]
fn data_restrictions_are_lowered() {
    let string = format!("{}string", XSD);
    let n = class_expression(tree(
        Rule::DataSomeValuesFrom,
        vec![data_property("d"), named_datatype(&string)],
    ));
    assert_eq!(
        lower_ce(&n),
        Ok(ClassExpression::DataSomeValuesFrom {
            dp: DataProperty(exi("d")),
            dr: DataRange::Datatype(Datatype(iri(&string))),
        })
    );
    let n = class_expression(tree(
        Rule::DataAllValuesFrom,
        vec![
            data_property("d"),
            data_range(tree(Rule::DataOneOf, vec![plain("\"a\""), plain("\"b\"")])),
        ],
    ));
    assert_eq!(
        lower_ce(&n),
        Ok(ClassExpression::DataAllValuesFrom {
            dp: DataProperty(exi("d")),
            dr: DataRange::DataOneOf(vec![simple("a"), simple("b")]),
        })
    );
    let n = class_expression(tree(Rule::DataHasValue, vec![data_property("d"), plain("\"v\"")]));
    assert_eq!(
        lower_ce(&n),
        Ok(ClassExpression::DataHasValue { dp: DataProperty(exi("d")), l: simple("v") })
    );
}

#[test]
fn a_chain_of_data_properties_is_not_supported() {
    for rule in [Rule::DataSomeValuesFrom, Rule::DataAllValuesFrom] {
        let n = class_expression(tree(
            rule,
            vec![data_property("d"), at(33, data_property("e")), named_datatype(RDFS_LITERAL)],
        ));
        assert_eq!(
            lower_ce(&n),
            Err(HornedError::UnsupportedConstruct(Span { start: 33, end: 33 }))
        );
    }
}

// Data ranges.

#[test]
fn data_ranges_are_lowered() {
    let integer = format!("{}integer", XSD);
    let mut ctx = context();
    let n = data_range(tree(
        Rule::DataIntersectionOf,
        vec![
            named_datatype(&integer),
            data_range(tree(Rule::DataComplementOf, vec![named_datatype(RDFS_LITERAL)])),
        ],
    ));
    assert_eq!(
        DataRange::from_pair(&n, &mut ctx),
        Ok(DataRange::DataIntersectionOf(vec![
            DataRange::Datatype(Datatype(iri(&integer))),
            DataRange::DataComplementOf(Box::new(DataRange::Datatype(Datatype(iri(RDFS_LITERAL))))),
        ]))
    );
    let n = data_range(tree(Rule::DataUnionOf, vec![named_datatype(&integer), named_datatype(&integer)]));
    assert_eq!(
        DataRange::from_pair(&n, &mut ctx),
        Ok(DataRange::DataUnionOf(vec![
            DataRange::Datatype(Datatype(iri(&integer))),
            DataRange::Datatype(Datatype(iri(&integer))),
        ]))
    );
}

fn facet_restriction(facet: ParseNode, value: &str) -> ParseNode {
    tree(
        Rule::FacetRestriction,
        vec![tree(Rule::ConstrainingFacet, vec![facet]), plain(value)],
    )
}

#[test]
fn a_datatype_restriction_names_its_facets() {
    let integer = format!("{}integer", XSD);
    let n = data_range(tree(
        Rule::DatatypeRestriction,
        vec![
            entity(Rule::Datatype, full(&integer)),
            facet_restriction(curie(Some("xsd"), "minInclusive"), "\"5\""),
            facet_restriction(full("http://www.w3.org/2001/XMLSchema#maxExclusive"), "\"10\""),
        ],
    ));
    assert_eq!(
        DataRange::from_pair(&n, &mut context()),
        Ok(DataRange::DatatypeRestriction(
            Datatype(iri(&integer)),
            vec![
                FacetRestriction { f: Facet::MinInclusive, l: simple("5") },
                FacetRestriction { f: Facet::MaxExclusive, l: simple("10") },
            ],
        ))
    );
}

#[test]
fn every_facet_has_its_iri() {
    let table = [
        ("http://www.w3.org/2001/XMLSchema#length", Facet::Length),
        ("http://www.w3.org/2001/XMLSchema#minLength", Facet::MinLength),
        ("http://www.w3.org/2001/XMLSchema#maxLength", Facet::MaxLength),
        ("http://www.w3.org/2001/XMLSchema#pattern", Facet::Pattern),
        ("http://www.w3.org/2001/XMLSchema#minInclusive", Facet::MinInclusive),
        ("http://www.w3.org/2001/XMLSchema#minExclusive", Facet::MinExclusive),
        ("http://www.w3.org/2001/XMLSchema#maxInclusive", Facet::MaxInclusive),
        ("http://www.w3.org/2001/XMLSchema#maxExclusive", Facet::MaxExclusive),
        ("http://www.w3.org/2001/XMLSchema#totalDigits", Facet::TotalDigits),
        ("http://www.w3.org/2001/XMLSchema#fractionDigits", Facet::FractionDigits),
        ("http://www.w3.org/1999/02/22-rdf-syntax-ns#langRange", Facet::LangRange),
    ];
    for (s, f) in table {
        let n = tree(Rule::ConstrainingFacet, vec![full(s)]);
        assert_eq!(Facet::from_pair(&n, &mut context()), Ok(f));
        assert_eq!(horned_owl::vocab::facet_iri_str(f), s);
        assert_eq!(horned_owl::vocab::find_facet(s), Some(f));
    }
}

#[test]
fn an_iri_that_names_no_facet_is_an_error() {
    let n = tree(Rule::ConstrainingFacet, vec![at(12, curie(Some("xsd"), "maximum"))]);
    assert_eq!(
        Facet::from_pair(&n, &mut context()),
        Err(HornedError::InvalidFacet(Span { start: 12, end: 12 }))
    );
    let n = tree(Rule::ConstrainingFacet, vec![full("http://www.w3.org/2001/XMLSchema#langRange")]);
    assert!(Facet::from_pair(&n, &mut context()).is_err());
}

// Literals and tokens.

#[test]
fn literals_are_told_apart_by_their_inner_rule() {
    let mut ctx = context();
    assert_eq!(Literal::from_pair(&plain("\"hello\""), &mut ctx), Ok(simple("hello")));
    let n = literal(tree(
        Rule::StringLiteralWithLanguage,
        vec![token(Rule::QuotedString, "\"bonjour\""), token(Rule::Other, "@fr ")],
    ));
    assert_eq!(
        Literal::from_pair(&n, &mut ctx),
        Ok(Literal::Language { literal: "bonjour".to_string(), lang: "fr".to_string() })
    );
    let n = literal(tree(
        Rule::TypedLiteral,
        vec![
            token(Rule::QuotedString, "\"42\""),
            entity(Rule::Datatype, curie(Some("xsd"), "integer")),
        ],
    ));
    assert_eq!(
        Literal::from_pair(&n, &mut ctx),
        Ok(Literal::Datatype {
            literal: "42".to_string(),
            datatype_iri: iri("http://www.w3.org/2001/XMLSchema#integer"),
        })
    );
}

#[test]
fn a_literal_nested_in_a_literal_is_read_through() {
    let n = literal(literal(plain("\"deep\"")));
    assert_eq!(Literal::from_pair(&n, &mut context()), Ok(simple("deep")));
}

#[test]
fn a_quoted_string_node_is_unescaped() {
    assert_eq!(
        quoted_string_from_pair(&token(Rule::QuotedString, r#""a \"b\" \\ c""#)),
        Ok(r#"a "b" \ c"#.to_string())
    );
    assert_eq!(
        quoted_string_from_pair(&at(3, token(Rule::QuotedString, "\""))),
        Err(HornedError::ParseError { positives: None, negatives: None, span: Span { start: 3, end: 4 } })
    );
    assert_eq!(
        quoted_string_from_pair(&token(Rule::Literal, "\"x\"")),
        Err(HornedError::ParseError {
            positives: Some(Rule::Literal),
            negatives: Some(Rule::QuotedString),
            span: Span { start: 0, end: 3 },
        })
    );
}

#[test]
fn an_integer_node_is_read() {
    assert_eq!(non_negative_integer_from_pair(&number("17")), Ok(17));
    assert!(non_negative_integer_from_pair(&number("")).is_err());
    assert!(non_negative_integer_from_pair(&token(Rule::QuotedString, "17")).is_err());
}

// IRIs.

#[test]
fn a_prefix_without_binding_is_an_error() {
    let mut n = curie(Some("nope"), "x");
    n.children[0] = at(5, tree(Rule::AbbreviatedIRI, n.children[0].children.drain(..).collect()));
    assert_eq!(
        IRI::from_pair(&n, &mut context()),
        Err(HornedError::UndefinedPrefix(Span { start: 5, end: 5 }))
    );
}

#[test]
fn a_name_without_prefix_needs_the_default() {
    let mut n = curie(None, "x");
    n.children[0] = at(9, tree(Rule::AbbreviatedIRI, n.children[0].children.drain(..).collect()));
    assert_eq!(
        IRI::from_pair(&n, &mut context()),
        Err(HornedError::MissingDefault(Span { start: 9, end: 9 }))
    );
    let mut prefixes = PrefixMap::new();
    prefixes.set_default("http://default.com/");
    let mut ctx = Context::new(IRIBuild::new(), prefixes);
    assert_eq!(IRI::from_pair(&curie(None, "x"), &mut ctx), Ok(iri("http://default.com/x")));
}

#[test]
fn lowered_iris_are_interned_in_the_store_of_the_context() {
    let mut ctx = context();
    let a = IRI::from_pair(&ex("a"), &mut ctx).unwrap();
    let b = IRI::from_pair(&full("http://www.example.com/a"), &mut ctx).unwrap();
    assert_eq!(a, b);
    assert!(a.shares_storage(&b));
    let c = ctx.build.iri("http://www.example.com/a");
    assert!(a.shares_storage(&c));
}

#[test]
fn an_iri_of_an_unknown_form_is_an_error() {
    let n = tree(Rule::IRI, vec![at(2, token(Rule::Literal, "x"))]);
    assert_eq!(
        IRI::from_pair(&n, &mut context()),
        Err(HornedError::ParseError {
            positives: Some(Rule::Literal),
            negatives: None,
            span: Span { start: 2, end: 3 },
        })
    );
    let n = at(4, tree(Rule::IRI, vec![]));
    assert_eq!(
        IRI::from_pair(&n, &mut context()),
        Err(HornedError::ParseError { positives: None, negatives: None, span: Span { start: 4, end: 4 } })
    );
}

// Axioms.

#[test]
fn sub_class_of_holds_the_superclass_first() {
    let n = form(Rule::SubClassOf, vec![named_class("Sub"), named_class("Sup")]);
    assert_eq!(
        lower_form(&n),
        Ok(bare(Component::SubClassOf(SubClass {
            superclass: class("Sup"),
            subclass: class("Sub"),
        })))
    );
}

#[test]
fn has_key_tells_object_from_data_properties() {
    let n = form(
        Rule::HasKey,
        vec![
            named_class("C"),
            object_property_expression("p"),
            inverse("q"),
            data_property("d"),
        ],
    );
    assert_eq!(
        lower_form(&n),
        Ok(bare(Component::HasKey {
            ce: class("C"),
            vpe: vec![
                PropertyExpression::ObjectPropertyExpression(ope("p")),
                PropertyExpression::ObjectPropertyExpression(
                    ObjectPropertyExpression::InverseObjectProperty(ObjectProperty(exi("q")))
                ),
                PropertyExpression::DataProperty(DataProperty(exi("d"))),
            ],
        }))
    );
    let n = form(Rule::HasKey, vec![named_class("C"), at(8, individual("i"))]);
    assert_eq!(
        lower_form(&n),
        Err(HornedError::ParseError {
            positives: Some(Rule::Individual),
            negatives: None,
            span: Span { start: 8, end: 8 },
        })
    );
}

#[test]
fn a_sub_property_may_be_a_chain() {
    let chain = tree(
        Rule::SubObjectPropertyExpression,
        vec![tree(
            Rule::PropertyExpressionChain,
            vec![object_property_expression("p"), inverse("q")],
        )],
    );
    let sup = tree(Rule::Other, vec![object_property_expression("r")]);
    let n = form(Rule::SubObjectPropertyOf, vec![chain, sup]);
    assert_eq!(
        lower_form(&n),
        Ok(bare(Component::SubObjectPropertyOf {
            sup: ope("r"),
            sub: SubObjectPropertyExpression::ObjectPropertyChain(vec![
                ope("p"),
                ObjectPropertyExpression::InverseObjectProperty(ObjectProperty(exi("q"))),
            ]),
        }))
    );
    let single = tree(Rule::SubObjectPropertyExpression, vec![object_property_expression("p")]);
    let sup = tree(Rule::Other, vec![object_property_expression("r")]);
    let n = form(Rule::SubObjectPropertyOf, vec![single, sup]);
    assert_eq!(
        lower_form(&n),
        Ok(bare(Component::SubObjectPropertyOf {
            sup: ope("r"),
            sub: SubObjectPropertyExpression::ObjectPropertyExpression(ope("p")),
        }))
    );
}

#[test]
fn class_axioms_are_lowered() {
    let n = form(Rule::EquivalentClasses, vec![named_class("A"), named_class("B")]);
    assert_eq!(lower_form(&n), Ok(bare(Component::EquivalentClasses(vec![class("A"), class("B")]))));
    let n = form(Rule::DisjointClasses, vec![named_class("A"), named_class("B")]);
    assert_eq!(lower_form(&n), Ok(bare(Component::DisjointClasses(vec![class("A"), class("B")]))));
    let n = form(
        Rule::DisjointUnion,
        vec![entity(Rule::Class, ex("U")), named_class("A"), named_class("B")],
    );
    assert_eq!(
        lower_form(&n),
        Ok(bare(Component::DisjointUnion(Class(exi("U")), vec![class("A"), class("B")])))
    );
}

#[test]
fn object_property_axioms_are_lowered() {
    let unary: [(Rule, fn(ObjectPropertyExpression) -> Component); 7] = [
        (Rule::FunctionalObjectProperty, Component::FunctionalObjectProperty),
        (Rule::InverseFunctionalObjectProperty, Component::InverseFunctionalObjectProperty),
        (Rule::ReflexiveObjectProperty, Component::ReflexiveObjectProperty),
        (Rule::IrreflexiveObjectProperty, Component::IrreflexiveObjectProperty),
        (Rule::SymmetricObjectProperty, Component::SymmetricObjectProperty),
        (Rule::AsymmetricObjectProperty, Component::AsymmetricObjectProperty),
        (Rule::TransitiveObjectProperty, Component::TransitiveObjectProperty),
    ];
    for (rule, make) in unary {
        let n = form(rule, vec![object_property_expression("p")]);
        assert_eq!(lower_form(&n), Ok(bare(make(ope("p")))));
    }
    let n = form(
        Rule::EquivalentObjectProperties,
        vec![object_property_expression("p"), object_property_expression("q")],
    );
    assert_eq!(
        lower_form(&n),
        Ok(bare(Component::EquivalentObjectProperties(vec![ope("p"), ope("q")])))
    );
    let n = form(
        Rule::DisjointObjectProperties,
        vec![object_property_expression("p"), object_property_expression("q")],
    );
    assert_eq!(
        lower_form(&n),
        Ok(bare(Component::DisjointObjectProperties(vec![ope("p"), ope("q")])))
    );
    let n = form(Rule::ObjectPropertyDomain, vec![object_property_expression("p"), named_class("C")]);
    assert_eq!(
        lower_form(&n),
        Ok(bare(Component::ObjectPropertyDomain { ope: ope("p"), ce: class("C") }))
    );
    let n = form(Rule::ObjectPropertyRange, vec![object_property_expression("p"), named_class("C")]);
    assert_eq!(
        lower_form(&n),
        Ok(bare(Component::ObjectPropertyRange { ope: ope("p"), ce: class("C") }))
    );
    let n = form(
        Rule::InverseObjectProperties,
        vec![entity(Rule::ObjectProperty, ex("p")), entity(Rule::ObjectProperty, ex("q"))],
    );
    assert_eq!(
        lower_form(&n),
        Ok(bare(Component::InverseObjectProperties(ObjectProperty(exi("p")), ObjectProperty(exi("q")))))
    );
}

#[test]
fn data_property_axioms_are_lowered() {
    let d = || DataProperty(exi("d"));
    let e = || DataProperty(exi("e"));
    let n = form(Rule::SubDataPropertyOf, vec![data_property("d"), data_property("e")]);
    assert_eq!(lower_form(&n), Ok(bare(Component::SubDataPropertyOf { sup: e(), sub: d() })));
    let n = form(Rule::EquivalentDataProperties, vec![data_property("d"), data_property("e")]);
    assert_eq!(lower_form(&n), Ok(bare(Component::EquivalentDataProperties(vec![d(), e()]))));
    let n = form(Rule::DisjointDataProperties, vec![data_property("d"), data_property("e")]);
    assert_eq!(lower_form(&n), Ok(bare(Component::DisjointDataProperties(vec![d(), e()]))));
    let n = form(Rule::DataPropertyDomain, vec![data_property("d"), named_class("C")]);
    assert_eq!(lower_form(&n), Ok(bare(Component::DataPropertyDomain { dp: d(), ce: class("C") })));
    let n = form(Rule::DataPropertyRange, vec![data_property("d"), named_datatype(RDFS_LITERAL)]);
    assert_eq!(
        lower_form(&n),
        Ok(bare(Component::DataPropertyRange {
            dp: d(),
            dr: DataRange::Datatype(Datatype(iri(RDFS_LITERAL))),
        }))
    );
    let n = form(Rule::FunctionalDataProperty, vec![data_property("d")]);
    assert_eq!(lower_form(&n), Ok(bare(Component::FunctionalDataProperty(d()))));
    let n = form(
        Rule::DatatypeDefinition,
        vec![entity(Rule::Datatype, ex("T")), named_datatype(RDFS_LITERAL)],
    );
    assert_eq!(
        lower_form(&n),
        Ok(bare(Component::DatatypeDefinition {
            kind: Datatype(exi("T")),
            range: DataRange::Datatype(Datatype(iri(RDFS_LITERAL))),
        }))
    );
}

#[test]
fn assertions_are_lowered() {
    let n = form(Rule::SameIndividual, vec![individual("a"), individual("b")]);
    assert_eq!(lower_form(&n), Ok(bare(Component::SameIndividual(vec![named("a"), named("b")]))));
    let n = form(Rule::DifferentIndividuals, vec![individual("a"), individual("b")]);
    assert_eq!(
        lower_form(&n),
        Ok(bare(Component::DifferentIndividuals(vec![named("a"), named("b")])))
    );
    let n = form(Rule::ClassAssertion, vec![named_class("C"), individual("a")]);
    assert_eq!(lower_form(&n), Ok(bare(Component::ClassAssertion { ce: class("C"), i: named("a") })));
    let operands = || vec![object_property_expression("p"), individual("a"), individual("b")];
    assert_eq!(
        lower_form(&form(Rule::ObjectPropertyAssertion, operands())),
        Ok(bare(Component::ObjectPropertyAssertion { ope: ope("p"), from: named("a"), to: named("b") }))
    );
    assert_eq!(
        lower_form(&form(Rule::NegativeObjectPropertyAssertion, operands())),
        Ok(bare(Component::NegativeObjectPropertyAssertion {
            ope: ope("p"),
            from: named("a"),
            to: named("b"),
        }))
    );
    let operands = || vec![data_property("d"), individual("a"), plain("\"v\"")];
    assert_eq!(
        lower_form(&form(Rule::DataPropertyAssertion, operands())),
        Ok(bare(Component::DataPropertyAssertion {
            dp: DataProperty(exi("d")),
            from: named("a"),
            to: simple("v"),
        }))
    );
    assert_eq!(
        lower_form(&form(Rule::NegativeDataPropertyAssertion, operands())),
        Ok(bare(Component::NegativeDataPropertyAssertion {
            dp: DataProperty(exi("d")),
            from: named("a"),
            to: simple("v"),
        }))
    );
}

#[test]
fn annotation_axioms_are_lowered() {
    let ap = |s: &str| AnnotationProperty(exi(s));
    let n = form(
        Rule::AnnotationAssertion,
        vec![
            entity(Rule::AnnotationProperty, ex("label")),
            tree(Rule::AnnotationSubject, vec![ex("thing")]),
            tree(Rule::AnnotationValue, vec![plain("\"a thing\"")]),
        ],
    );
    assert_eq!(
        lower_form(&n),
        Ok(bare(Component::AnnotationAssertion {
            subject: AnnotationSubject::IRI(exi("thing")),
            ann: Annotation { ap: ap("label"), av: AnnotationValue::Literal(simple("a thing")) },
        }))
    );
    let n = form(
        Rule::AnnotationAssertion,
        vec![
            entity(Rule::AnnotationProperty, ex("seeAlso")),
            tree(Rule::AnnotationSubject, vec![anonymous("b0")]),
            tree(Rule::AnnotationValue, vec![anonymous("b1")]),
        ],
    );
    assert_eq!(
        lower_form(&n),
        Ok(bare(Component::AnnotationAssertion {
            subject: AnnotationSubject::AnonymousIndividual(AnonymousIndividual("b0".to_string())),
            ann: Annotation {
                ap: ap("seeAlso"),
                av: AnnotationValue::AnonymousIndividual(AnonymousIndividual("b1".to_string())),
            },
        }))
    );
    let n = form(
        Rule::SubAnnotationPropertyOf,
        vec![
            tree(Rule::Other, vec![entity(Rule::AnnotationProperty, ex("narrow"))]),
            tree(Rule::Other, vec![entity(Rule::AnnotationProperty, ex("wide"))]),
        ],
    );
    assert_eq!(
        lower_form(&n),
        Ok(bare(Component::SubAnnotationPropertyOf { sub: ap("narrow"), sup: ap("wide") }))
    );
    let n = form(
        Rule::AnnotationPropertyDomain,
        vec![entity(Rule::AnnotationProperty, ex("label")), ex("C")],
    );
    assert_eq!(
        lower_form(&n),
        Ok(bare(Component::AnnotationPropertyDomain { ap: ap("label"), iri: exi("C") }))
    );
    let n = form(
        Rule::AnnotationPropertyRange,
        vec![entity(Rule::AnnotationProperty, ex("label")), ex("C")],
    );
    assert_eq!(
        lower_form(&n),
        Ok(bare(Component::AnnotationPropertyRange { ap: ap("label"), iri: exi("C") }))
    );
}

#[test]
fn every_kind_of_entity_can_be_declared() {
    let table: [(Rule, Rule, fn(IRI) -> Component); 6] = [
        (Rule::ClassDeclaration, Rule::Class, |i| Component::DeclareClass(Class(i))),
        (Rule::DatatypeDeclaration, Rule::Datatype, |i| Component::DeclareDatatype(Datatype(i))),
        (Rule::ObjectPropertyDeclaration, Rule::ObjectProperty, |i| {
            Component::DeclareObjectProperty(ObjectProperty(i))
        }),
        (Rule::DataPropertyDeclaration, Rule::DataProperty, |i| {
            Component::DeclareDataProperty(DataProperty(i))
        }),
        (Rule::AnnotationPropertyDeclaration, Rule::AnnotationProperty, |i| {
            Component::DeclareAnnotationProperty(AnnotationProperty(i))
        }),
        (Rule::NamedIndividualDeclaration, Rule::NamedIndividual, |i| {
            Component::DeclareNamedIndividual(NamedIndividual(i))
        }),
    ];
    for (declaration, rule, make) in table {
        let n = form(
            Rule::Declaration,
            vec![tree(Rule::Other, vec![tree(declaration, vec![entity(rule, ex("e"))])])],
        );
        assert_eq!(lower_form(&n), Ok(bare(make(exi("e")))));
    }
}

#[test]
fn the_annotations_of_an_axiom_are_kept_and_those_of_an_annotation_are_not() {
    let n = annotated_form(
        Rule::SubClassOf,
        vec![
            annotation(vec![], "comment", plain("\"first\"")),
            annotation(
                vec![annotation(vec![], "source", plain("\"inner\""))],
                "comment",
                plain("\"second\""),
            ),
            annotation(vec![], "comment", plain("\"first\"")),
        ],
        vec![named_class("Sub"), named_class("Sup")],
    );
    let got = lower_form(&n).unwrap();
    let comment = |s: &str| Annotation {
        ap: AnnotationProperty(exi("comment")),
        av: AnnotationValue::Literal(simple(s)),
    };
    let mut expected = AnnotationSet::new();
    assert!(expected.insert(comment("first")));
    assert!(expected.insert(comment("second")));
    assert!(!expected.insert(comment("first")));
    assert_eq!(got.ann, expected);
    assert_eq!(got.ann.len(), 2);
    assert_eq!(*got.ann.get(0), comment("first"));
    assert_eq!(*got.ann.get(1), comment("second"));
    assert_eq!(
        got.component,
        Component::SubClassOf(SubClass { superclass: class("Sup"), subclass: class("Sub") })
    );
}

#[test]
fn an_error_in_an_annotation_of_an_annotation_is_found() {
    let n = annotated_form(
        Rule::SubClassOf,
        vec![annotation(
            vec![annotation(vec![], "source", at(40, curie(Some("nope"), "x")))],
            "comment",
            plain("\"text\""),
        )],
        vec![named_class("Sub"), named_class("Sup")],
    );
    assert_eq!(lower_form(&n), Err(HornedError::UndefinedPrefix(Span { start: 0, end: 0 })));
}

#[test]
fn the_first_error_in_document_order_is_the_one_reported() {
    let n = form(
        Rule::EquivalentClasses,
        vec![
            named_class("A"),
            class_expression(at(11, token(Rule::Literal, "x"))),
            class_expression(at(22, token(Rule::Individual, "y"))),
        ],
    );
    assert_eq!(
        lower_form(&n),
        Err(HornedError::ParseError {
            positives: Some(Rule::Literal),
            negatives: None,
            span: Span { start: 11, end: 12 },
        })
    );
}

#[test]
fn a_missing_operand_is_an_error_at_the_form() {
    let n = tree(
        Rule::Axiom,
        vec![at(6, tree(Rule::SubClassOf, vec![annotations(vec![]), named_class("Sub")]))],
    );
    assert_eq!(
        lower_form(&n),
        Err(HornedError::ParseError { positives: None, negatives: None, span: Span { start: 6, end: 6 } })
    );
    let n = tree(Rule::Axiom, vec![at(1, token(Rule::ClassExpression, "C"))]);
    assert_eq!(
        lower_form(&n),
        Err(HornedError::ParseError {
            positives: Some(Rule::ClassExpression),
            negatives: None,
            span: Span { start: 1, end: 2 },
        })
    );
}

// Ontologies and documents.

fn components(o: &Ontology) -> Vec<AnnotatedComponent> {
    o.iter().into_iter().cloned().collect()
}

#[test]
fn rules_and_description_graph_axioms_are_passed_over() {
    let first = || member(form(Rule::SubClassOf, vec![named_class("A"), named_class("B")]));
    let second = || member(form(Rule::FunctionalDataProperty, vec![data_property("d")]));
    let with = ontology(
        vec![],
        vec![],
        vec![],
        vec![
            member(token(Rule::Rule, "Rule(...)")),
            first(),
            member(token(Rule::DGAxiom, "DGAxiom(...)")),
            member(token(Rule::Rule, "Rule(...)")),
            second(),
            member(token(Rule::DGAxiom, "DGAxiom(...)")),
        ],
    );
    let without = ontology(vec![], vec![], vec![], vec![first(), second()]);
    let a = Ontology::from_pair(&with, &mut context()).ok().unwrap();
    let b = Ontology::from_pair(&without, &mut context()).ok().unwrap();
    assert_eq!(components(&a), components(&b));
    assert_eq!(a.len(), 3);
    assert_eq!(
        components(&a),
        vec![
            bare(Component::OntologyID(OntologyID { iri: None, viri: None })),
            bare(Component::SubClassOf(SubClass { superclass: class("B"), subclass: class("A") })),
            bare(Component::FunctionalDataProperty(DataProperty(exi("d")))),
        ]
    );
}

#[test]
fn a_member_of_an_unknown_rule_is_an_error() {
    let o = ontology(vec![], vec![], vec![], vec![member(at(3, token(Rule::Import, "x")))]);
    assert_eq!(
        Ontology::from_pair(&o, &mut context()).err(),
        Some(HornedError::ParseError {
            positives: Some(Rule::Import),
            negatives: None,
            span: Span { start: 3, end: 4 },
        })
    );
}

#[test]
fn the_header_of_an_ontology_is_lowered() {
    let o = ontology(
        vec![
            tree(Rule::OntologyIRI, vec![full("http://www.example.com/onto")]),
            tree(Rule::VersionIRI, vec![full("http://www.example.com/onto/1.0")]),
        ],
        vec![
            tree(Rule::Import, vec![full("http://www.example.com/other")]),
            tree(Rule::Import, vec![ex("third")]),
        ],
        vec![annotation(vec![], "comment", plain("\"an ontology\""))],
        vec![member(form(
            Rule::Declaration,
            vec![tree(Rule::Other, vec![tree(Rule::ClassDeclaration, vec![entity(Rule::Class, ex("C"))])])],
        ))],
    );
    let got = Ontology::from_pair(&o, &mut context()).ok().unwrap();
    assert_eq!(
        components(&got),
        vec![
            bare(Component::OntologyID(OntologyID {
                iri: Some(iri("http://www.example.com/onto")),
                viri: Some(iri("http://www.example.com/onto/1.0")),
            })),
            bare(Component::Import(iri("http://www.example.com/other"))),
            bare(Component::Import(exi("third"))),
            bare(Component::OntologyAnnotation(Annotation {
                ap: AnnotationProperty(exi("comment")),
                av: AnnotationValue::Literal(simple("an ontology")),
            })),
            bare(Component::DeclareClass(Class(exi("C")))),
        ]
    );
    assert_eq!(got.count(AxiomKind::Import), 2);
}

#[test]
fn an_ontology_may_have_an_iri_without_a_version() {
    let o = ontology(
        vec![tree(Rule::OntologyIRI, vec![full("http://www.example.com/onto")])],
        vec![],
        vec![],
        vec![],
    );
    let got = Ontology::from_pair(&o, &mut context()).ok().unwrap();
    assert_eq!(
        components(&got),
        vec![bare(Component::OntologyID(OntologyID {
            iri: Some(iri("http://www.example.com/onto")),
            viri: None,
        }))]
    );
}

#[test]
fn an_ontology_without_its_blocks_is_an_error() {
    let o = at(2, tree(Rule::Ontology, vec![tree(Rule::Other, vec![]), tree(Rule::Other, vec![])]));
    assert_eq!(
        Ontology::from_pair(&o, &mut context()).err(),
        Some(HornedError::ParseError { positives: None, negatives: None, span: Span { start: 2, end: 2 } })
    );
}

#[test]
fn a_document_declares_its_own_prefixes() {
    let body = ontology(
        vec![],
        vec![],
        vec![],
        vec![member(form(
            Rule::Declaration,
            vec![tree(
                Rule::Other,
                vec![tree(Rule::ClassDeclaration, vec![entity(Rule::Class, curie(Some("owl"), "Thing"))])],
            )],
        ))],
    );
    let doc = document(
        vec![prefix_declaration(Some("owl"), "http://www.w3.org/2002/07/owl#")],
        body,
    );
    // The prefix map of the context does not know `owl`; the document does.
    let mut ctx = context();
    let (o, prefixes) = document_from_pair(&doc, &mut ctx).ok().unwrap();
    assert_eq!(
        components(&o),
        vec![
            bare(Component::OntologyID(OntologyID { iri: None, viri: None })),
            bare(Component::DeclareClass(Class(iri(OWL_THING)))),
        ]
    );
    assert_eq!(
        prefixes.mappings(),
        vec![("owl".to_string(), "http://www.w3.org/2002/07/owl#".to_string())]
    );
    assert_eq!(prefixes.default_iri(), None);
    // The context has its own prefix map back.
    assert_eq!(ctx.mapping.mappings().len(), 2);
    assert_eq!(ctx.mapping.expand(Some("ex"), "a"), Ok("http://www.example.com/a".to_string()));
}

#[test]
fn a_document_does_not_see_the_prefixes_of_the_context() {
    let body = ontology(
        vec![],
        vec![tree(Rule::Import, vec![ex("other")])],
        vec![],
        vec![],
    );
    let doc = document(vec![], body);
    assert_eq!(
        document_from_pair(&doc, &mut context()).err(),
        Some(HornedError::UndefinedPrefix(Span { start: 0, end: 0 }))
    );
}

#[test]
fn the_default_prefix_is_declared_with_an_empty_name() {
    let body = ontology(
        vec![],
        vec![tree(Rule::Import, vec![curie(None, "other")])],
        vec![],
        vec![],
    );
    let doc = document(
        vec![
            prefix_declaration(None, "http://default.com/"),
            prefix_declaration(Some("ex"), "http://example.com/"),
        ],
        body,
    );
    let (o, prefixes) = document_from_pair(&doc, &mut context()).ok().unwrap();
    assert_eq!(prefixes.default_iri(), Some("http://default.com/".to_string()));
    assert_eq!(
        prefixes.mappings(),
        vec![("ex".to_string(), "http://example.com/".to_string())]
    );
    assert_eq!(
        components(&o)[1],
        bare(Component::Import(iri("http://default.com/other")))
    );
}

#[test]
fn the_reserved_prefix_cannot_be_declared() {
    let doc = document(
        vec![prefix_declaration(Some("_"), "http://blank.com/")],
        ontology(vec![], vec![], vec![], vec![]),
    );
    assert_eq!(
        document_from_pair(&doc, &mut context()).err(),
        Some(HornedError::ParseError { positives: None, negatives: None, span: Span { start: 7, end: 8 } })
    );
}

#[test]
fn a_document_without_ontology_is_an_error() {
    let doc = at(
        1,
        tree(Rule::OntologyDocument, vec![prefix_declaration(Some("ex"), "http://example.com/")]),
    );
    assert_eq!(
        document_from_pair(&doc, &mut context()).err(),
        Some(HornedError::ParseError { positives: None, negatives: None, span: Span { start: 1, end: 1 } })
    );
    let doc = tree(Rule::Ontology, vec![]);
    assert_eq!(
        document_from_pair(&doc, &mut context()).err(),
        Some(HornedError::ParseError {
            positives: Some(Rule::Ontology),
            negatives: Some(Rule::OntologyDocument),
            span: Span { start: 0, end: 0 },
        })
    );
}

#[test]
fn errors_tell_their_span_and_kind() {
    let e = HornedError::InvalidFacet(Span { start: 3, end: 9 });
    assert_eq!(e.span(), Span { start: 3, end: 9 });
    assert_eq!(e.message(), "invalid facet");
    assert_eq!(HornedError::UndefinedPrefix(Span { start: 0, end: 1 }).message(), "undefined prefix");
    assert_eq!(
        HornedError::MissingDefault(Span { start: 0, end: 1 }).message(),
        "missing default prefix"
    );
    assert_eq!(
        HornedError::UnsupportedConstruct(Span { start: 0, end: 1 }).message(),
        "unsupported construct"
    );
    let e = HornedError::ParseError {
        positives: Some(Rule::Class),
        negatives: None,
        span: Span { start: 5, end: 6 },
    };
    assert_eq!(e.span(), Span { start: 5, end: 6 });
    assert_eq!(e.message(), "unexpected parse tree");
}

// The lowering as a trait.

fn lower<T: horned_owl::reader::FromPair>(n: &ParseNode) -> Result<T, HornedError> {
    T::from_pair(n, &mut context())
}

#[test]
fn any_type_with_a_production_lowers_through_the_trait() {
    assert_eq!(lower::<ClassExpression>(&named_class("C")), Ok(class("C")));
    assert_eq!(lower::<Class>(&entity(Rule::Class, ex("C"))), Ok(Class(exi("C"))));
    assert_eq!(lower::<Individual>(&individual("i")), Ok(named("i")));
    assert_eq!(lower::<Literal>(&plain("\"x\"")), Ok(simple("x")));
    assert_eq!(lower::<String>(&token(Rule::QuotedString, "\"x\"")), Ok("x".to_string()));
    assert_eq!(lower::<u32>(&number("12")), Ok(12));
    assert_eq!(lower::<IRI>(&ex("C")), Ok(exi("C")));
    assert_eq!(
        lower::<Component>(&form(Rule::FunctionalDataProperty, vec![data_property("d")])),
        Ok(Component::FunctionalDataProperty(DataProperty(exi("d"))))
    );
    assert_eq!(
        lower::<AnnotationSet>(&annotations(vec![annotation(vec![], "p", plain("\"v\""))])).map(|s| s.len()),
        Ok(1)
    );
    let o = lower::<Ontology>(&ontology(vec![], vec![], vec![], vec![])).ok().unwrap();
    assert_eq!(o.len(), 1);
}

#[test]
fn the_trait_checks_the_rule_of_the_node() {
    assert_eq!(
        lower::<Class>(&at(5, entity(Rule::Datatype, ex("C")))),
        Err(HornedError::ParseError {
            positives: Some(Rule::Datatype),
            negatives: Some(Rule::Class),
            span: Span { start: 5, end: 5 },
        })
    );
    assert_eq!(
        lower::<u32>(&token(Rule::QuotedString, "12")),
        Err(HornedError::ParseError {
            positives: Some(Rule::QuotedString),
            negatives: Some(Rule::NonNegativeInteger),
            span: Span { start: 0, end: 2 },
        })
    );
    let mut ctx = context();
    let n = entity(Rule::Datatype, ex("C"));
    assert_eq!(
        <Class as horned_owl::reader::FromPair>::from_pair_unchecked(&n, &mut ctx),
        Ok(Class(exi("C")))
    );
}
