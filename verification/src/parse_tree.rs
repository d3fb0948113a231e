//! The parse tree that the lowering consumes.
//!
//! A parser for the functional-style syntax produces a tree of nodes, each
//! tagged with the grammar rule that matched, the text it matched and where
//! that text stands in the input. The lowering reads nothing else.

use vstd::prelude::*;
use crate::error::HornedError;
use crate::error::Span;

verus! {

/// The grammar rules that the lowering tells apart.
#[derive(Clone, Copy, Debug, PartialEq, Eq, Hash, Structural)]
pub enum Rule {
    OntologyDocument,
    PrefixDeclaration,
    Ontology,
    OntologyIRI,
    VersionIRI,
    Import,
    Annotations,
    Annotation,
    AnnotationSubject,
    AnnotationValue,
    Axiom,
    Rule,
    DGAxiom,
    Declaration,
    ClassDeclaration,
    DatatypeDeclaration,
    ObjectPropertyDeclaration,
    DataPropertyDeclaration,
    AnnotationPropertyDeclaration,
    NamedIndividualDeclaration,
    Class,
    Datatype,
    ObjectProperty,
    DataProperty,
    AnnotationProperty,
    NamedIndividual,
    AnonymousIndividual,
    Individual,
    IRI,
    AbbreviatedIRI,
    FullIRI,
    Literal,
    TypedLiteral,
    StringLiteralWithLanguage,
    StringLiteralNoLanguage,
    QuotedString,
    NonNegativeInteger,
    ClassExpression,
    ObjectIntersectionOf,
    ObjectUnionOf,
    ObjectComplementOf,
    ObjectOneOf,
    ObjectSomeValuesFrom,
    ObjectAllValuesFrom,
    ObjectHasValue,
    ObjectHasSelf,
    ObjectMinCardinality,
    ObjectMaxCardinality,
    ObjectExactCardinality,
    DataSomeValuesFrom,
    DataAllValuesFrom,
    DataHasValue,
    DataMinCardinality,
    DataMaxCardinality,
    DataExactCardinality,
    DataRange,
    DataIntersectionOf,
    DataUnionOf,
    DataComplementOf,
    DataOneOf,
    DatatypeRestriction,
    FacetRestriction,
    ConstrainingFacet,
    ObjectPropertyExpression,
    InverseObjectProperty,
    SubObjectPropertyExpression,
    PropertyExpressionChain,
    SubClassOf,
    EquivalentClasses,
    DisjointClasses,
    DisjointUnion,
    SubObjectPropertyOf,
    EquivalentObjectProperties,
    DisjointObjectProperties,
    ObjectPropertyDomain,
    ObjectPropertyRange,
    InverseObjectProperties,
    FunctionalObjectProperty,
    InverseFunctionalObjectProperty,
    ReflexiveObjectProperty,
    IrreflexiveObjectProperty,
    SymmetricObjectProperty,
    AsymmetricObjectProperty,
    TransitiveObjectProperty,
    SubDataPropertyOf,
    EquivalentDataProperties,
    DisjointDataProperties,
    DataPropertyDomain,
    DataPropertyRange,
    FunctionalDataProperty,
    DatatypeDefinition,
    HasKey,
    SameIndividual,
    DifferentIndividuals,
    ClassAssertion,
    ObjectPropertyAssertion,
    NegativeObjectPropertyAssertion,
    DataPropertyAssertion,
    NegativeDataPropertyAssertion,
    AnnotationAssertion,
    SubAnnotationPropertyOf,
    AnnotationPropertyDomain,
    AnnotationPropertyRange,
    /// Any other production: grouping nodes whose position alone matters, and
    /// the lexical rules below IRIs, prefixed names, node identifiers and
    /// language tags, of which only the text is read.
    Other,
}

/// One node of the parse tree.
#[derive(Debug, PartialEq, Eq, Hash)]
pub struct ParseNode {
    /// The rule that matched.
    pub rule: Rule,
    /// The text that the rule matched.
    pub text: String,
    /// Where that text stands in the input.
    pub span: Span,
    /// The nodes of the rules that matched inside this one, in input order.
    pub children: Vec<ParseNode>,
}

/// The number of children that `node` has from position `from` on.
pub open spec fn remaining(node: ParseNode, from: int) -> nat {
    if 0 <= from <= node.children@.len() {
        (node.children@.len() - from) as nat
    } else {
        0
    }
}

impl ParseNode {
    /// The child at position `i`, or the error that reports its absence.
    pub open spec fn spec_child(self, i: int) -> Result<ParseNode, HornedError> {
        if 0 <= i < self.children@.len() {
            Ok(self.children@[i])
        } else {
            Err(HornedError::malformed(self.span))
        }
    }

    /// Whether the node carries `rule`; the error names both rules otherwise.
    pub open spec fn spec_expect(self, rule: Rule) -> Result<(), HornedError> {
        if self.rule == rule {
            Ok(())
        } else {
            Err(HornedError::mismatch(self.rule, rule, self.span))
        }
    }

    /// The child at position `i`.
    pub fn child(&self, i: usize) -> (r: Result<&ParseNode, HornedError>)
        ensures
            match r {
                Ok(c) => self.spec_child(i as int) == Ok::<ParseNode, HornedError>(*c),
                Err(e) => self.spec_child(i as int) == Err::<ParseNode, HornedError>(e),
            },
    {
        if i < self.children.len() {
            Ok(&self.children[i])
        } else {
            Err(HornedError::ParseError { positives: None, negatives: None, span: self.span })
        }
    }

    /// Checks that the node carries `rule`.
    pub fn expect(&self, rule: Rule) -> (r: Result<(), HornedError>)
        ensures
            r == self.spec_expect(rule),
    {
        if self.rule == rule {
            Ok(())
        } else {
            Err(
                HornedError::ParseError {
                    positives: Some(self.rule),
                    negatives: Some(rule),
                    span: self.span,
                },
            )
        }
    }
}

} // verus!
