use horned_owl::error::HornedError;
use horned_owl::error::Span;
use horned_owl::model::AnnotatedComponent;
use horned_owl::model::Annotation;
use horned_owl::model::AnnotationProperty;
use horned_owl::model::AnnotationSet;
use horned_owl::model::AnnotationSubject;
use horned_owl::model::AnnotationValue;
use horned_owl::model::AnonymousIndividual;
use horned_owl::model::AxiomKind;
use horned_owl::model::Class;
use horned_owl::model::ClassExpression;
use horned_owl::model::Component;
use horned_owl::model::DataProperty;
use horned_owl::model::DataRange;
use horned_owl::model::Datatype;
use horned_owl::model::Facet;
use horned_owl::model::FacetRestriction;
use horned_owl::model::IRIBuild;
use horned_owl::model::Individual;
use horned_owl::model::Literal;
use horned_owl::model::NamedIndividual;
use horned_owl::model::ObjectProperty;
use horned_owl::model::ObjectPropertyExpression;
use horned_owl::model::OntologyID;
use horned_owl::model::PropertyExpression;
use horned_owl::model::SubClass;
use horned_owl::model::SubObjectPropertyExpression;
use horned_owl::model::IRI;
use horned_owl::ontology::Ontology;
use horned_owl::parse_tree::ParseNode;
use horned_owl::parse_tree::Rule;
use horned_owl::prefix::PrefixMap;
use horned_owl::reader::document::document_from_pair;
use horned_owl::reader::Context;
use pest::iterators::Pair;
use pest_vm::Vm;

/// The grammar of the functional-style syntax.
const GRAMMAR: &str = r##"
WHITESPACE = _{ " " | "\t" | "\r" | "\n" }
COMMENT    = _{ "#" ~ (!("\r" | "\n") ~ ANY)* }

// Tokens

NonNegativeInteger = @{ ASCII_DIGIT+ }
QuotedString       = @{ "\"" ~ (("\\" ~ ("\\" | "\"")) | (!("\"" | "\\") ~ ANY))* ~ "\"" }
LanguageTag        = @{ "@" ~ ASCII_ALPHA+ ~ ("-" ~ ASCII_ALPHANUMERIC+)* }
NodeID             = ${ "_:" ~ BlankNodeLabel }
BlankNodeLabel     = @{ (PN_CHARS_U | ASCII_DIGIT) ~ (PN_CHARS | ("."+ ~ PN_CHARS))* }

PN_CHARS_BASE = _{
    ASCII_ALPHA
  | '\u{00C0}'..'\u{00D6}' | '\u{00D8}'..'\u{00F6}' | '\u{00F8}'..'\u{02FF}'
  | '\u{0370}'..'\u{037D}' | '\u{037F}'..'\u{1FFF}' | '\u{200C}'..'\u{200D}'
  | '\u{2070}'..'\u{218F}' | '\u{2C00}'..'\u{2FEF}' | '\u{3001}'..'\u{D7FF}'
  | '\u{F900}'..'\u{FDCF}' | '\u{FDF0}'..'\u{FFFD}' | '\u{10000}'..'\u{EFFFF}'
}
PN_CHARS_U    = _{ PN_CHARS_BASE | "_" }
PN_CHARS      = _{ PN_CHARS_U | "-" | ASCII_DIGIT | "\u{00B7}" | '\u{0300}'..'\u{036F}' | '\u{203F}'..'\u{2040}' }
PERCENT       = _{ "%" ~ ASCII_HEX_DIGIT ~ ASCII_HEX_DIGIT }
PN_LOCAL_ESC  = _{ "\\" ~ ("_" | "~" | "." | "-" | "!" | "$" | "&" | "'" | "(" | ")" | "*" | "+" | "," | ";" | "=" | "/" | "?" | "#" | "@" | "%") }
PLX           = _{ PERCENT | PN_LOCAL_ESC }
PN_PREFIX     = @{ PN_CHARS_BASE ~ (PN_CHARS | ("."+ ~ PN_CHARS))* }
PN_LOCAL      = @{ (PN_CHARS_U | ":" | ASCII_DIGIT | PLX) ~ (PN_CHARS | ":" | PLX | ("."+ ~ (PN_CHARS | ":" | PLX)))* }
PNAME_NS      = ${ PN_PREFIX? ~ ":" }
PNAME_LN      = ${ PNAME_NS ~ PN_LOCAL }

// IRIs

IriBody        = @{ (!("<" | ">" | "\"" | "{" | "}" | "|" | "^" | "`" | "\\" | '\u{0000}'..'\u{0020}') ~ ANY)* }
FullIRI        = ${ "<" ~ IriBody ~ ">" }
PrefixName     = ${ PNAME_NS }
AbbreviatedIRI = ${ PNAME_LN }
IRI            = ${ FullIRI | AbbreviatedIRI }

// Documents

OntologyDocument         = { SOI ~ PrefixDeclaration* ~ Ontology ~ EOI }
PrefixDeclaration        = { "Prefix" ~ "(" ~ PrefixName ~ "=" ~ FullIRI ~ ")" }
Ontology                 = { "Ontology" ~ "(" ~ (OntologyIRI ~ VersionIRI?)? ~ DirectlyImportsDocuments ~ OntologyAnnotations ~ Axioms ~ ")" }
OntologyIRI              = { IRI }
VersionIRI               = { IRI }
DirectlyImportsDocuments = { Import* }
Import                   = { "Import" ~ "(" ~ IRI ~ ")" }
OntologyAnnotations      = { Annotation* }
Axioms                   = { Member* }
Member                   = { Axiom | Rule | DGAxiom }

// What is passed over

Balanced = _{ "(" ~ (QuotedString | Balanced | (!("(" | ")" | "\"") ~ ANY))* ~ ")" }
Rule     = { ("DLSafeRule" | "DGRule") ~ Balanced }
DGAxiom  = { "DescriptionGraph" ~ Balanced }

// Entities, individuals and literals

Class              = { IRI }
Datatype           = { IRI }
ObjectProperty     = { IRI }
DataProperty       = { IRI }
AnnotationProperty = { IRI }
NamedIndividual    = { IRI }
AnonymousIndividual = { NodeID }
Individual         = { AnonymousIndividual | NamedIndividual }

Literal                   = { TypedLiteral | StringLiteralWithLanguage | StringLiteralNoLanguage }
TypedLiteral              = ${ QuotedString ~ "^^" ~ Datatype }
StringLiteralWithLanguage = ${ QuotedString ~ LanguageTag }
StringLiteralNoLanguage   = ${ QuotedString }

// Annotations

Annotations       = { Annotation* }
Annotation        = { "Annotation" ~ "(" ~ Annotations ~ AnnotationProperty ~ AnnotationValue ~ ")" }
AnnotationSubject = { AnonymousIndividual | IRI }
AnnotationValue   = { AnonymousIndividual | IRI | Literal }

// Property expressions

ObjectPropertyExpression      = { InverseObjectProperty | ObjectProperty }
InverseObjectProperty         = { "ObjectInverseOf" ~ "(" ~ ObjectProperty ~ ")" }
SubObjectPropertyExpression   = { PropertyExpressionChain | ObjectPropertyExpression }
PropertyExpressionChain       = { "ObjectPropertyChain" ~ "(" ~ ObjectPropertyExpression ~ ObjectPropertyExpression+ ~ ")" }
SuperObjectPropertyExpression = { ObjectPropertyExpression }

// Data ranges

DataRange           = { DataIntersectionOf | DataUnionOf | DataComplementOf | DataOneOf | DatatypeRestriction | Datatype }
DataIntersectionOf  = { "DataIntersectionOf" ~ "(" ~ DataRange ~ DataRange+ ~ ")" }
DataUnionOf         = { "DataUnionOf" ~ "(" ~ DataRange ~ DataRange+ ~ ")" }
DataComplementOf    = { "DataComplementOf" ~ "(" ~ DataRange ~ ")" }
DataOneOf           = { "DataOneOf" ~ "(" ~ Literal+ ~ ")" }
DatatypeRestriction = { "DatatypeRestriction" ~ "(" ~ Datatype ~ FacetRestriction+ ~ ")" }
FacetRestriction    = { ConstrainingFacet ~ Literal }
ConstrainingFacet   = { IRI }

// Class expressions

ClassExpression = {
    ObjectIntersectionOf | ObjectUnionOf | ObjectComplementOf | ObjectOneOf
  | ObjectSomeValuesFrom | ObjectAllValuesFrom | ObjectHasValue | ObjectHasSelf
  | ObjectMinCardinality | ObjectMaxCardinality | ObjectExactCardinality
  | DataSomeValuesFrom | DataAllValuesFrom | DataHasValue
  | DataMinCardinality | DataMaxCardinality | DataExactCardinality
  | Class
}
ObjectIntersectionOf   = { "ObjectIntersectionOf" ~ "(" ~ ClassExpression ~ ClassExpression+ ~ ")" }
ObjectUnionOf          = { "ObjectUnionOf" ~ "(" ~ ClassExpression ~ ClassExpression+ ~ ")" }
ObjectComplementOf     = { "ObjectComplementOf" ~ "(" ~ ClassExpression ~ ")" }
ObjectOneOf            = { "ObjectOneOf" ~ "(" ~ Individual+ ~ ")" }
ObjectSomeValuesFrom   = { "ObjectSomeValuesFrom" ~ "(" ~ ObjectPropertyExpression ~ ClassExpression ~ ")" }
ObjectAllValuesFrom    = { "ObjectAllValuesFrom" ~ "(" ~ ObjectPropertyExpression ~ ClassExpression ~ ")" }
ObjectHasValue         = { "ObjectHasValue" ~ "(" ~ ObjectPropertyExpression ~ Individual ~ ")" }
ObjectHasSelf          = { "ObjectHasSelf" ~ "(" ~ ObjectPropertyExpression ~ ")" }
ObjectMinCardinality   = { "ObjectMinCardinality" ~ "(" ~ NonNegativeInteger ~ ObjectPropertyExpression ~ ClassExpression? ~ ")" }
ObjectMaxCardinality   = { "ObjectMaxCardinality" ~ "(" ~ NonNegativeInteger ~ ObjectPropertyExpression ~ ClassExpression? ~ ")" }
ObjectExactCardinality = { "ObjectExactCardinality" ~ "(" ~ NonNegativeInteger ~ ObjectPropertyExpression ~ ClassExpression? ~ ")" }
DataSomeValuesFrom     = { "DataSomeValuesFrom" ~ "(" ~ DataProperty ~ (!(DataRange ~ ")") ~ DataProperty)* ~ DataRange ~ ")" }
DataAllValuesFrom      = { "DataAllValuesFrom" ~ "(" ~ DataProperty ~ (!(DataRange ~ ")") ~ DataProperty)* ~ DataRange ~ ")" }
DataHasValue           = { "DataHasValue" ~ "(" ~ DataProperty ~ Literal ~ ")" }
DataMinCardinality     = { "DataMinCardinality" ~ "(" ~ NonNegativeInteger ~ DataProperty ~ DataRange? ~ ")" }
DataMaxCardinality     = { "DataMaxCardinality" ~ "(" ~ NonNegativeInteger ~ DataProperty ~ DataRange? ~ ")" }
DataExactCardinality   = { "DataExactCardinality" ~ "(" ~ NonNegativeInteger ~ DataProperty ~ DataRange? ~ ")" }

// Axioms

Axiom = {
    Declaration
  | SubClassOf | EquivalentClasses | DisjointClasses | DisjointUnion
  | SubObjectPropertyOf | EquivalentObjectProperties | DisjointObjectProperties
  | InverseObjectProperties | ObjectPropertyDomain | ObjectPropertyRange
  | FunctionalObjectProperty | InverseFunctionalObjectProperty | ReflexiveObjectProperty
  | IrreflexiveObjectProperty | SymmetricObjectProperty | AsymmetricObjectProperty
  | TransitiveObjectProperty
  | SubDataPropertyOf | EquivalentDataProperties | DisjointDataProperties
  | DataPropertyDomain | DataPropertyRange | FunctionalDataProperty
  | DatatypeDefinition | HasKey
  | SameIndividual | DifferentIndividuals | ClassAssertion
  | ObjectPropertyAssertion | NegativeObjectPropertyAssertion
  | DataPropertyAssertion | NegativeDataPropertyAssertion
  | AnnotationAssertion | SubAnnotationPropertyOf
  | AnnotationPropertyDomain | AnnotationPropertyRange
}

Declaration = { "Declaration" ~ "(" ~ Annotations ~ Entity ~ ")" }
Entity      = {
    ClassDeclaration | DatatypeDeclaration | ObjectPropertyDeclaration
  | DataPropertyDeclaration | AnnotationPropertyDeclaration | NamedIndividualDeclaration
}
ClassDeclaration              = { "Class" ~ "(" ~ Class ~ ")" }
DatatypeDeclaration           = { "Datatype" ~ "(" ~ Datatype ~ ")" }
ObjectPropertyDeclaration     = { "ObjectProperty" ~ "(" ~ ObjectProperty ~ ")" }
DataPropertyDeclaration       = { "DataProperty" ~ "(" ~ DataProperty ~ ")" }
AnnotationPropertyDeclaration = { "AnnotationProperty" ~ "(" ~ AnnotationProperty ~ ")" }
NamedIndividualDeclaration    = { "NamedIndividual" ~ "(" ~ NamedIndividual ~ ")" }

SubClassOf        = { "SubClassOf" ~ "(" ~ Annotations ~ ClassExpression ~ ClassExpression ~ ")" }
EquivalentClasses = { "EquivalentClasses" ~ "(" ~ Annotations ~ ClassExpression ~ ClassExpression+ ~ ")" }
DisjointClasses   = { "DisjointClasses" ~ "(" ~ Annotations ~ ClassExpression ~ ClassExpression+ ~ ")" }
DisjointUnion     = { "DisjointUnion" ~ "(" ~ Annotations ~ Class ~ ClassExpression ~ ClassExpression+ ~ ")" }

SubObjectPropertyOf             = { "SubObjectPropertyOf" ~ "(" ~ Annotations ~ SubObjectPropertyExpression ~ SuperObjectPropertyExpression ~ ")" }
EquivalentObjectProperties      = { "EquivalentObjectProperties" ~ "(" ~ Annotations ~ ObjectPropertyExpression ~ ObjectPropertyExpression+ ~ ")" }
DisjointObjectProperties        = { "DisjointObjectProperties" ~ "(" ~ Annotations ~ ObjectPropertyExpression ~ ObjectPropertyExpression+ ~ ")" }
InverseObjectProperties         = { "InverseObjectProperties" ~ "(" ~ Annotations ~ ObjectProperty ~ ObjectProperty ~ ")" }
ObjectPropertyDomain            = { "ObjectPropertyDomain" ~ "(" ~ Annotations ~ ObjectPropertyExpression ~ ClassExpression ~ ")" }
ObjectPropertyRange             = { "ObjectPropertyRange" ~ "(" ~ Annotations ~ ObjectPropertyExpression ~ ClassExpression ~ ")" }
FunctionalObjectProperty        = { "FunctionalObjectProperty" ~ "(" ~ Annotations ~ ObjectPropertyExpression ~ ")" }
InverseFunctionalObjectProperty = { "InverseFunctionalObjectProperty" ~ "(" ~ Annotations ~ ObjectPropertyExpression ~ ")" }
ReflexiveObjectProperty         = { "ReflexiveObjectProperty" ~ "(" ~ Annotations ~ ObjectPropertyExpression ~ ")" }
IrreflexiveObjectProperty       = { "IrreflexiveObjectProperty" ~ "(" ~ Annotations ~ ObjectPropertyExpression ~ ")" }
SymmetricObjectProperty         = { "SymmetricObjectProperty" ~ "(" ~ Annotations ~ ObjectPropertyExpression ~ ")" }
AsymmetricObjectProperty        = { "AsymmetricObjectProperty" ~ "(" ~ Annotations ~ ObjectPropertyExpression ~ ")" }
TransitiveObjectProperty        = { "TransitiveObjectProperty" ~ "(" ~ Annotations ~ ObjectPropertyExpression ~ ")" }

SubDataPropertyOf        = { "SubDataPropertyOf" ~ "(" ~ Annotations ~ DataProperty ~ DataProperty ~ ")" }
EquivalentDataProperties = { "EquivalentDataProperties" ~ "(" ~ Annotations ~ DataProperty ~ DataProperty+ ~ ")" }
DisjointDataProperties   = { "DisjointDataProperties" ~ "(" ~ Annotations ~ DataProperty ~ DataProperty+ ~ ")" }
DataPropertyDomain       = { "DataPropertyDomain" ~ "(" ~ Annotations ~ DataProperty ~ ClassExpression ~ ")" }
DataPropertyRange        = { "DataPropertyRange" ~ "(" ~ Annotations ~ DataProperty ~ DataRange ~ ")" }
FunctionalDataProperty   = { "FunctionalDataProperty" ~ "(" ~ Annotations ~ DataProperty ~ ")" }
DatatypeDefinition       = { "DatatypeDefinition" ~ "(" ~ Annotations ~ Datatype ~ DataRange ~ ")" }

HasKey = { "HasKey" ~ "(" ~ Annotations ~ ClassExpression ~ "(" ~ ObjectPropertyExpression* ~ ")" ~ "(" ~ DataProperty* ~ ")" ~ ")" }

SameIndividual                  = { "SameIndividual" ~ "(" ~ Annotations ~ Individual ~ Individual+ ~ ")" }
DifferentIndividuals            = { "DifferentIndividuals" ~ "(" ~ Annotations ~ Individual ~ Individual+ ~ ")" }
ClassAssertion                  = { "ClassAssertion" ~ "(" ~ Annotations ~ ClassExpression ~ Individual ~ ")" }
ObjectPropertyAssertion         = { "ObjectPropertyAssertion" ~ "(" ~ Annotations ~ ObjectPropertyExpression ~ Individual ~ Individual ~ ")" }
NegativeObjectPropertyAssertion = { "NegativeObjectPropertyAssertion" ~ "(" ~ Annotations ~ ObjectPropertyExpression ~ Individual ~ Individual ~ ")" }
DataPropertyAssertion           = { "DataPropertyAssertion" ~ "(" ~ Annotations ~ DataProperty ~ Individual ~ Literal ~ ")" }
NegativeDataPropertyAssertion   = { "NegativeDataPropertyAssertion" ~ "(" ~ Annotations ~ DataProperty ~ Individual ~ Literal ~ ")" }

AnnotationAssertion      = { "AnnotationAssertion" ~ "(" ~ Annotations ~ AnnotationProperty ~ AnnotationSubject ~ AnnotationValue ~ ")" }
SubAnnotationPropertyOf  = { "SubAnnotationPropertyOf" ~ "(" ~ Annotations ~ SubAnnotationProperty ~ SuperAnnotationProperty ~ ")" }
SubAnnotationProperty    = { AnnotationProperty }
SuperAnnotationProperty  = { AnnotationProperty }
AnnotationPropertyDomain = { "AnnotationPropertyDomain" ~ "(" ~ Annotations ~ AnnotationProperty ~ IRI ~ ")" }
AnnotationPropertyRange  = { "AnnotationPropertyRange" ~ "(" ~ Annotations ~ AnnotationProperty ~ IRI ~ ")" }
"##;

fn kind(name: &str) -> Rule {
    match name {
        "OntologyDocument" => Rule::OntologyDocument,
        "PrefixDeclaration" => Rule::PrefixDeclaration,
        "Ontology" => Rule::Ontology,
        "OntologyIRI" => Rule::OntologyIRI,
        "VersionIRI" => Rule::VersionIRI,
        "Import" => Rule::Import,
        "Annotations" => Rule::Annotations,
        "Annotation" => Rule::Annotation,
        "AnnotationSubject" => Rule::AnnotationSubject,
        "AnnotationValue" => Rule::AnnotationValue,
        "Axiom" => Rule::Axiom,
        "Rule" => Rule::Rule,
        "DGAxiom" => Rule::DGAxiom,
        "Declaration" => Rule::Declaration,
        "ClassDeclaration" => Rule::ClassDeclaration,
        "DatatypeDeclaration" => Rule::DatatypeDeclaration,
        "ObjectPropertyDeclaration" => Rule::ObjectPropertyDeclaration,
        "DataPropertyDeclaration" => Rule::DataPropertyDeclaration,
        "AnnotationPropertyDeclaration" => Rule::AnnotationPropertyDeclaration,
        "NamedIndividualDeclaration" => Rule::NamedIndividualDeclaration,
        "Class" => Rule::Class,
        "Datatype" => Rule::Datatype,
        "ObjectProperty" => Rule::ObjectProperty,
        "DataProperty" => Rule::DataProperty,
        "AnnotationProperty" => Rule::AnnotationProperty,
        "NamedIndividual" => Rule::NamedIndividual,
        "AnonymousIndividual" => Rule::AnonymousIndividual,
        "Individual" => Rule::Individual,
        "IRI" => Rule::IRI,
        "AbbreviatedIRI" => Rule::AbbreviatedIRI,
        "FullIRI" => Rule::FullIRI,
        "Literal" => Rule::Literal,
        "TypedLiteral" => Rule::TypedLiteral,
        "StringLiteralWithLanguage" => Rule::StringLiteralWithLanguage,
        "StringLiteralNoLanguage" => Rule::StringLiteralNoLanguage,
        "QuotedString" => Rule::QuotedString,
        "NonNegativeInteger" => Rule::NonNegativeInteger,
        "ClassExpression" => Rule::ClassExpression,
        "ObjectIntersectionOf" => Rule::ObjectIntersectionOf,
        "ObjectUnionOf" => Rule::ObjectUnionOf,
        "ObjectComplementOf" => Rule::ObjectComplementOf,
        "ObjectOneOf" => Rule::ObjectOneOf,
        "ObjectSomeValuesFrom" => Rule::ObjectSomeValuesFrom,
        "ObjectAllValuesFrom" => Rule::ObjectAllValuesFrom,
        "ObjectHasValue" => Rule::ObjectHasValue,
        "ObjectHasSelf" => Rule::ObjectHasSelf,
        "ObjectMinCardinality" => Rule::ObjectMinCardinality,
        "ObjectMaxCardinality" => Rule::ObjectMaxCardinality,
        "ObjectExactCardinality" => Rule::ObjectExactCardinality,
        "DataSomeValuesFrom" => Rule::DataSomeValuesFrom,
        "DataAllValuesFrom" => Rule::DataAllValuesFrom,
        "DataHasValue" => Rule::DataHasValue,
        "DataMinCardinality" => Rule::DataMinCardinality,
        "DataMaxCardinality" => Rule::DataMaxCardinality,
        "DataExactCardinality" => Rule::DataExactCardinality,
        "DataRange" => Rule::DataRange,
        "DataIntersectionOf" => Rule::DataIntersectionOf,
        "DataUnionOf" => Rule::DataUnionOf,
        "DataComplementOf" => Rule::DataComplementOf,
        "DataOneOf" => Rule::DataOneOf,
        "DatatypeRestriction" => Rule::DatatypeRestriction,
        "FacetRestriction" => Rule::FacetRestriction,
        "ConstrainingFacet" => Rule::ConstrainingFacet,
        "ObjectPropertyExpression" => Rule::ObjectPropertyExpression,
        "InverseObjectProperty" => Rule::InverseObjectProperty,
        "SubObjectPropertyExpression" => Rule::SubObjectPropertyExpression,
        "PropertyExpressionChain" => Rule::PropertyExpressionChain,
        "SubClassOf" => Rule::SubClassOf,
        "EquivalentClasses" => Rule::EquivalentClasses,
        "DisjointClasses" => Rule::DisjointClasses,
        "DisjointUnion" => Rule::DisjointUnion,
        "SubObjectPropertyOf" => Rule::SubObjectPropertyOf,
        "EquivalentObjectProperties" => Rule::EquivalentObjectProperties,
        "DisjointObjectProperties" => Rule::DisjointObjectProperties,
        "ObjectPropertyDomain" => Rule::ObjectPropertyDomain,
        "ObjectPropertyRange" => Rule::ObjectPropertyRange,
        "InverseObjectProperties" => Rule::InverseObjectProperties,
        "FunctionalObjectProperty" => Rule::FunctionalObjectProperty,
        "InverseFunctionalObjectProperty" => Rule::InverseFunctionalObjectProperty,
        "ReflexiveObjectProperty" => Rule::ReflexiveObjectProperty,
        "IrreflexiveObjectProperty" => Rule::IrreflexiveObjectProperty,
        "SymmetricObjectProperty" => Rule::SymmetricObjectProperty,
        "AsymmetricObjectProperty" => Rule::AsymmetricObjectProperty,
        "TransitiveObjectProperty" => Rule::TransitiveObjectProperty,
        "SubDataPropertyOf" => Rule::SubDataPropertyOf,
        "EquivalentDataProperties" => Rule::EquivalentDataProperties,
        "DisjointDataProperties" => Rule::DisjointDataProperties,
        "DataPropertyDomain" => Rule::DataPropertyDomain,
        "DataPropertyRange" => Rule::DataPropertyRange,
        "FunctionalDataProperty" => Rule::FunctionalDataProperty,
        "DatatypeDefinition" => Rule::DatatypeDefinition,
        "HasKey" => Rule::HasKey,
        "SameIndividual" => Rule::SameIndividual,
        "DifferentIndividuals" => Rule::DifferentIndividuals,
        "ClassAssertion" => Rule::ClassAssertion,
        "ObjectPropertyAssertion" => Rule::ObjectPropertyAssertion,
        "NegativeObjectPropertyAssertion" => Rule::NegativeObjectPropertyAssertion,
        "DataPropertyAssertion" => Rule::DataPropertyAssertion,
        "NegativeDataPropertyAssertion" => Rule::NegativeDataPropertyAssertion,
        "AnnotationAssertion" => Rule::AnnotationAssertion,
        "SubAnnotationPropertyOf" => Rule::SubAnnotationPropertyOf,
        "AnnotationPropertyDomain" => Rule::AnnotationPropertyDomain,
        "AnnotationPropertyRange" => Rule::AnnotationPropertyRange,
        _ => Rule::Other,
    }
}

fn to_node(pair: Pair<'_, &str>) -> ParseNode {
    let rule = kind(pair.as_rule());
    let text = pair.as_str().to_string();
    let span = pair.as_span();
    let span = Span { start: span.start(), end: span.end() };
    let children = pair.into_inner().map(to_node).collect();
    ParseNode { rule, text, span, children }
}

/// The parse tree of `text` read as one match of `rule`.
fn lex(rule: &str, text: &str) -> ParseNode {
    let (_, rules) = pest_meta::parse_and_optimize(GRAMMAR).expect("the grammar is well-formed");
    let vm = Vm::new(rules);
    let doc = text.trim();
    let found = match vm.parse(rule, doc) {
        Ok(mut pairs) => to_node(pairs.next().unwrap()),
        Err(e) => panic!("parsing using {:?}:\n{}\nfailed with: {}", rule, doc, e),
    };
    found
}

fn context(bindings: &[(&str, &str)]) -> Context {
    let mut prefixes = PrefixMap::new();
    for (name, iri) in bindings {
        prefixes.add_prefix(name, iri).unwrap();
    }
    Context::new(IRIBuild::new(), prefixes)
}

#[test]
fn has_key() {
    let mut build = IRIBuild::new();
    let mut ctx = context(&[("owl", "http://www.w3.org/2002/07/owl#")]);

    let tree = lex("Axiom", "HasKey( owl:Thing () (<http://www.example.com/issn>) )");
    let res = AnnotatedComponent::from_pair(&tree, &mut ctx);
    assert_eq!(
        res.unwrap(),
        AnnotatedComponent::from(Component::HasKey {
            ce: ClassExpression::Class(Class(build.iri("http://www.w3.org/2002/07/owl#Thing"))),
            vpe: vec![PropertyExpression::DataProperty(DataProperty(
                build.iri("http://www.example.com/issn")
            ))],
        })
    );
}

#[test]
fn declare_class() {
    let mut build = IRIBuild::new();
    let mut ctx = context(&[("owl", "http://www.w3.org/2002/07/owl#")]);

    let tree = lex("ClassDeclaration", "Class( owl:Thing )");
    let res = Component::declaration_from_pair(&tree, &mut ctx);
    assert_eq!(
        res.unwrap(),
        Component::DeclareClass(Class(build.iri("http://www.w3.org/2002/07/owl#Thing")))
    );

    let tree = lex("Axiom", "Declaration(Class(owl:Thing))");
    let res = Component::from_pair(&tree, &mut ctx);
    assert_eq!(
        res.unwrap(),
        Component::DeclareClass(Class(build.iri("http://www.w3.org/2002/07/owl#Thing")))
    );

    let tree = lex("Axiom", "Declaration(Class(owl:Thing))");
    let res = AnnotatedComponent::from_pair(&tree, &mut ctx);
    assert_eq!(
        res.unwrap(),
        AnnotatedComponent::from(Component::DeclareClass(Class(
            build.iri("http://www.w3.org/2002/07/owl#Thing")
        )))
    );
}

#[test]
fn iri() {
    let mut build = IRIBuild::new();
    let mut ctx = context(&[("ex", "http://example.com/path#")]);

    let res = IRI::from_pair(&lex("IRI", "<http://example.com/path#ref>"), &mut ctx);
    assert_eq!(res.unwrap(), build.iri("http://example.com/path#ref"));

    let res = IRI::from_pair(&lex("IRI", "ex:ref"), &mut ctx);
    assert_eq!(res.unwrap(), build.iri("http://example.com/path#ref"));
}

#[test]
fn ontology_document() {
    let mut ctx = context(&[]);
    let txt = "Prefix(ex:=<http://example.com/>) Prefix(:=<http://default.com/>) Ontology()";

    let mut expected = PrefixMap::new();
    expected.set_default("http://default.com/");
    expected.add_prefix("ex", "http://example.com/").unwrap();

    let pair = lex("OntologyDocument", txt);

    let doc = document_from_pair(&pair, &mut ctx).unwrap();
    assert_eq!(
        doc.1.mappings().into_iter().collect::<std::collections::HashSet<_>>(),
        expected.mappings().into_iter().collect::<std::collections::HashSet<_>>()
    );
    assert_eq!(doc.1.default_iri(), expected.default_iri());
}

fn read(text: &str) -> Result<(Ontology, PrefixMap), HornedError> {
    document_from_pair(&lex("OntologyDocument", text), &mut context(&[]))
}

fn components(o: &Ontology) -> Vec<AnnotatedComponent> {
    o.iter().into_iter().cloned().collect()
}

fn iri_of(s: &str) -> IRI {
    IRIBuild::new().iri(s)
}

fn bare(c: Component) -> AnnotatedComponent {
    AnnotatedComponent::from(c)
}

const EMPTY_ID: OntologyID = OntologyID { iri: None, viri: None };

#[test]
fn default_prefix_resolution() {
    let (o, prefixes) =
        read("Prefix(:=<http://default.com/>) Prefix(ex:=<http://example.com/>) Ontology()").unwrap();
    assert_eq!(components(&o), vec![bare(Component::OntologyID(EMPTY_ID))]);
    assert_eq!(prefixes.default_iri(), Some("http://default.com/".to_string()));
    assert_eq!(prefixes.mappings(), vec![("ex".to_string(), "http://example.com/".to_string())]);
}

#[test]
fn class_declaration_via_curie() {
    let (o, _) = read(
        "Prefix(owl:=<http://www.w3.org/2002/07/owl#>) Ontology( Declaration(Class(owl:Thing)) )",
    )
    .unwrap();
    assert_eq!(
        components(&o),
        vec![
            bare(Component::OntologyID(EMPTY_ID)),
            bare(Component::DeclareClass(Class(iri_of("http://www.w3.org/2002/07/owl#Thing")))),
        ]
    );
    assert!(o.get(AxiomKind::DeclareClass, 0).ann.is_empty());
}

#[test]
fn object_cardinality_defaulting() {
    let mut ctx = context(&[("ex", "http://www.example.com/")]);
    let tree = lex("ClassExpression", "ObjectMinCardinality( 2 ex:p )");
    assert_eq!(
        ClassExpression::from_pair(&tree, &mut ctx),
        Ok(ClassExpression::ObjectMinCardinality {
            n: 2,
            ope: ObjectPropertyExpression::ObjectProperty(ObjectProperty(iri_of(
                "http://www.example.com/p"
            ))),
            bce: Box::new(ClassExpression::Class(Class(iri_of(
                "http://www.w3.org/2002/07/owl#Thing"
            )))),
        })
    );
    let tree = lex("ClassExpression", "DataExactCardinality( 1 ex:d )");
    assert_eq!(
        ClassExpression::from_pair(&tree, &mut ctx),
        Ok(ClassExpression::DataExactCardinality {
            n: 1,
            dp: DataProperty(iri_of("http://www.example.com/d")),
            dr: DataRange::Datatype(Datatype(iri_of(
                "http://www.w3.org/2000/01/rdf-schema#Literal"
            ))),
        })
    );
}

const FAMILY: &str = r#"
Prefix(:=<http://example.com/family#>)
Prefix(xsd:=<http://www.w3.org/2001/XMLSchema#>)
Prefix(rdfs:=<http://www.w3.org/2000/01/rdf-schema#>)

# A small ontology about families.
Ontology(<http://example.com/family> <http://example.com/family/1.0>
Import(<http://example.com/people>)
Annotation(rdfs:comment "A \"small\" ontology"@en)

Declaration(Class(:Person))
Declaration(Annotation(rdfs:label "parent") Annotation(Annotation(rdfs:comment "inner") rdfs:label "Elter"@de) Class(:Parent))
Declaration(ObjectProperty(:hasChild))
Declaration(DataProperty(:hasAge))
Declaration(NamedIndividual(:mary))
SubClassOf(:Parent ObjectSomeValuesFrom(:hasChild :Person))
SubClassOf(:Parent :Person)
EquivalentClasses(:Parent ObjectIntersectionOf(:Person ObjectMinCardinality(1 :hasChild)))
SubObjectPropertyOf(ObjectPropertyChain(:hasChild ObjectInverseOf(:hasChild)) :hasSibling)
DataPropertyRange(:hasAge DatatypeRestriction(xsd:integer xsd:minInclusive "0"^^xsd:integer xsd:maxExclusive "150"^^xsd:integer))
DLSafeRule(Body(ClassAtom(:Person Variable(:x))) Head(ClassAtom(:Parent Variable(:x))))
HasKey(:Person (:hasChild) (:hasAge))
ClassAssertion(:Parent :mary)
DataPropertyAssertion(:hasAge :mary "42"^^xsd:integer)
ObjectPropertyAssertion(:hasChild :mary _:b1)
AnnotationAssertion(rdfs:label :mary "Mary")
DescriptionGraph(Nodes(NodeAssertion(:Person :n1)) Edges())
)
"#;

fn family(local: &str) -> IRI {
    iri_of(&format!("http://example.com/family#{}", local))
}

fn person(local: &str) -> ClassExpression {
    ClassExpression::Class(Class(family(local)))
}

fn has_child() -> ObjectPropertyExpression {
    ObjectPropertyExpression::ObjectProperty(ObjectProperty(family("hasChild")))
}

fn rdfs(local: &str) -> AnnotationProperty {
    AnnotationProperty(iri_of(&format!("http://www.w3.org/2000/01/rdf-schema#{}", local)))
}

fn integer(s: &str) -> Literal {
    Literal::Datatype {
        literal: s.to_string(),
        datatype_iri: iri_of("http://www.w3.org/2001/XMLSchema#integer"),
    }
}

#[test]
fn a_whole_document_is_lowered() {
    let (o, prefixes) = read(FAMILY).unwrap();
    assert_eq!(prefixes.default_iri(), Some("http://example.com/family#".to_string()));
    assert_eq!(prefixes.mappings().len(), 2);

    let mut labels = AnnotationSet::new();
    labels.insert(Annotation {
        ap: rdfs("label"),
        av: AnnotationValue::Literal(Literal::Simple { literal: "parent".to_string() }),
    });
    labels.insert(Annotation {
        ap: rdfs("label"),
        av: AnnotationValue::Literal(Literal::Language {
            literal: "Elter".to_string(),
            lang: "de".to_string(),
        }),
    });
    let mary = || Individual::Named(NamedIndividual(family("mary")));

    let expected = vec![
        bare(Component::OntologyID(OntologyID {
            iri: Some(iri_of("http://example.com/family")),
            viri: Some(iri_of("http://example.com/family/1.0")),
        })),
        bare(Component::Import(iri_of("http://example.com/people"))),
        bare(Component::OntologyAnnotation(Annotation {
            ap: rdfs("comment"),
            av: AnnotationValue::Literal(Literal::Language {
                literal: "A \"small\" ontology".to_string(),
                lang: "en".to_string(),
            }),
        })),
        bare(Component::DeclareClass(Class(family("Person")))),
        AnnotatedComponent::new(Component::DeclareClass(Class(family("Parent"))), labels),
        bare(Component::DeclareObjectProperty(ObjectProperty(family("hasChild")))),
        bare(Component::DeclareDataProperty(DataProperty(family("hasAge")))),
        bare(Component::DeclareNamedIndividual(NamedIndividual(family("mary")))),
        bare(Component::SubClassOf(SubClass {
            superclass: ClassExpression::ObjectSomeValuesFrom {
                ope: has_child(),
                bce: Box::new(person("Person")),
            },
            subclass: person("Parent"),
        })),
        bare(Component::SubClassOf(SubClass {
            superclass: person("Person"),
            subclass: person("Parent"),
        })),
        bare(Component::EquivalentClasses(vec![
            person("Parent"),
            ClassExpression::ObjectIntersectionOf(vec![
                person("Person"),
                ClassExpression::ObjectMinCardinality {
                    n: 1,
                    ope: has_child(),
                    bce: Box::new(ClassExpression::Class(Class(iri_of(
                        "http://www.w3.org/2002/07/owl#Thing",
                    )))),
                },
            ]),
        ])),
        bare(Component::SubObjectPropertyOf {
            sup: ObjectPropertyExpression::ObjectProperty(ObjectProperty(family("hasSibling"))),
            sub: SubObjectPropertyExpression::ObjectPropertyChain(vec![
                has_child(),
                ObjectPropertyExpression::InverseObjectProperty(ObjectProperty(family("hasChild"))),
            ]),
        }),
        bare(Component::DataPropertyRange {
            dp: DataProperty(family("hasAge")),
            dr: DataRange::DatatypeRestriction(
                Datatype(iri_of("http://www.w3.org/2001/XMLSchema#integer")),
                vec![
                    FacetRestriction { f: Facet::MinInclusive, l: integer("0") },
                    FacetRestriction { f: Facet::MaxExclusive, l: integer("150") },
                ],
            ),
        }),
        bare(Component::HasKey {
            ce: person("Person"),
            vpe: vec![
                PropertyExpression::ObjectPropertyExpression(has_child()),
                PropertyExpression::DataProperty(DataProperty(family("hasAge"))),
            ],
        }),
        bare(Component::ClassAssertion { ce: person("Parent"), i: mary() }),
        bare(Component::ObjectPropertyAssertion {
            ope: has_child(),
            from: mary(),
            to: Individual::Anonymous(AnonymousIndividual("b1".to_string())),
        }),
        bare(Component::DataPropertyAssertion {
            dp: DataProperty(family("hasAge")),
            from: mary(),
            to: integer("42"),
        }),
        bare(Component::AnnotationAssertion {
            subject: AnnotationSubject::IRI(family("mary")),
            ann: Annotation {
                ap: rdfs("label"),
                av: AnnotationValue::Literal(Literal::Simple { literal: "Mary".to_string() }),
            },
        }),
    ];
    let got = components(&o);
    assert_eq!(got.len(), expected.len());
    for (g, e) in got.iter().zip(expected.iter()) {
        assert_eq!(g, e);
    }
}

#[test]
fn a_document_without_its_rules_gives_the_same_ontology() {
    let without: String = FAMILY
        .lines()
        .filter(|l| !l.starts_with("DLSafeRule") && !l.starts_with("DescriptionGraph"))
        .collect::<Vec<_>>()
        .join("\n");
    assert_ne!(without.trim(), FAMILY.trim());
    let (a, _) = read(FAMILY).unwrap();
    let (b, _) = read(&without).unwrap();
    assert_eq!(components(&a), components(&b));
}

#[test]
fn an_undefined_prefix_is_reported_where_it_stands() {
    let text = "Prefix(ex:=<http://example.com/>) Ontology( Declaration(Class(owl:Thing)) )";
    let start = text.find("owl:Thing").unwrap();
    assert_eq!(
        read(text).err(),
        Some(HornedError::UndefinedPrefix(Span { start, end: start + "owl:Thing".len() }))
    );
}

#[test]
fn a_missing_default_is_reported_where_it_stands() {
    let text = "Prefix(ex:=<http://example.com/>) Ontology( Declaration(Class(:Thing)) )";
    let start = text.find(":Thing").unwrap();
    assert_eq!(
        read(text).err(),
        Some(HornedError::MissingDefault(Span { start, end: start + ":Thing".len() }))
    );
}

#[test]
fn an_invalid_facet_is_reported_where_it_stands() {
    let text = "Prefix(xsd:=<http://www.w3.org/2001/XMLSchema#>) Prefix(:=<http://e.com/>) Ontology( DataPropertyRange(:d DatatypeRestriction(xsd:integer xsd:minimum \"0\")) )";
    let start = text.find("xsd:minimum").unwrap();
    assert_eq!(
        read(text).err(),
        Some(HornedError::InvalidFacet(Span { start, end: start + "xsd:minimum".len() }))
    );
}

#[test]
fn a_chain_of_data_properties_is_reported_where_it_stands() {
    let text = "Prefix(:=<http://e.com/>) Ontology( SubClassOf(:C DataSomeValuesFrom(:d :e :f :T)) )";
    let start = text.find(":e").unwrap();
    assert_eq!(
        read(text).err(),
        Some(HornedError::UnsupportedConstruct(Span { start, end: start + 2 }))
    );
}
