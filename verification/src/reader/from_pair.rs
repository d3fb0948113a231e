//! The lowering as a trait, for code that is generic in what it lowers.

use vstd::prelude::*;
use crate::error::outcome;
use crate::error::HornedError;
use crate::model::annotation::Annotation;
use crate::model::annotation::AnnotationSet;
use crate::model::annotation::AnnotationSubject;
use crate::model::annotation::AnnotationSubjectView;
use crate::model::annotation::AnnotationValue;
use crate::model::annotation::AnnotationValueView;
use crate::model::annotation::AnnotationView;
use crate::model::component::AnnotatedComponent;
use crate::model::component::AnnotatedComponentView;
use crate::model::component::Component;
use crate::model::component::ComponentView;
use crate::model::entity::AnnotationProperty;
use crate::model::entity::AnonymousIndividual;
use crate::model::entity::Class;
use crate::model::entity::DataProperty;
use crate::model::entity::Datatype;
use crate::model::entity::Individual;
use crate::model::entity::IndividualView;
use crate::model::entity::NamedIndividual;
use crate::model::entity::ObjectProperty;
use crate::model::expression::ClassExpression;
use crate::model::expression::ClassExpressionView;
use crate::model::expression::DataRange;
use crate::model::expression::DataRangeView;
use crate::model::expression::Facet;
use crate::model::expression::FacetRestriction;
use crate::model::expression::FacetRestrictionView;
use crate::model::expression::Literal;
use crate::model::expression::LiteralView;
use crate::model::expression::ObjectPropertyExpression;
use crate::model::expression::ObjectPropertyExpressionView;
use crate::model::expression::SubObjectPropertyExpression;
use crate::model::expression::SubObjectPropertyExpressionView;
use crate::model::iri::IRI;
use crate::ontology::Ontology;
use crate::ontology::OntologyView;
use crate::parse_tree::ParseNode;
use crate::parse_tree::Rule;
use crate::prefix::PrefixMapView;
use crate::reader::basic::lowered_non_negative_integer_unchecked;
use crate::reader::basic::lowered_quoted_string_unchecked;
use crate::reader::basic::non_negative_integer_from_pair_unchecked;
use crate::reader::basic::quoted_string_from_pair_unchecked;
use crate::reader::context::Context;

verus! {

/// A type whose values are lowered from the nodes of one rule.
///
/// Every type of the data model that has a production of its own lowers
/// through this trait, by the functions of the same names that the type
/// itself has; strings lower from quoted strings and 32-bit numbers from
/// non-negative integers.
pub trait FromPair: Sized + View {
    /// The rule of the nodes that stand for values of the type.
    spec fn rule() -> Rule;

    /// What a node stands for, its rule taken for granted.
    spec fn lowered_unchecked(node: ParseNode, m: PrefixMapView) -> Result<Self::V, HornedError>;

    /// The rule of the nodes that stand for values of the type.
    fn expected_rule() -> (r: Rule)
        ensures
            r == Self::rule(),
    ;

    /// Lowers a node without looking at its rule.
    fn from_pair_unchecked(node: &ParseNode, ctx: &mut Context) -> (r: Result<Self, HornedError>)
        ensures
            outcome(r) == Self::lowered_unchecked(*node, old(ctx).mapping@),
            old(ctx).grows_to(*final(ctx)),
    ;

    /// Lowers a node, after checking that it carries the rule of the type: a
    /// node of another rule is an error that names both rules.
    fn from_pair(node: &ParseNode, ctx: &mut Context) -> (r: Result<Self, HornedError>)
        ensures
            outcome(r) == (match node.spec_expect(Self::rule()) {
                Err(e) => Err(e),
                Ok(_) => Self::lowered_unchecked(*node, old(ctx).mapping@),
            }),
            old(ctx).grows_to(*final(ctx)),
    {
        node.expect(Self::expected_rule())?;
        Self::from_pair_unchecked(node, ctx)
    }
}

impl FromPair for IRI {
    open spec fn rule() -> Rule {
        Rule::IRI
    }

    open spec fn lowered_unchecked(node: ParseNode, m: PrefixMapView) -> Result<
        Seq<char>,
        HornedError,
    > {
        IRI::lowered_unchecked(node, m)
    }

    fn expected_rule() -> (r: Rule) {
        Rule::IRI
    }

    fn from_pair_unchecked(node: &ParseNode, ctx: &mut Context) -> (r: Result<Self, HornedError>) {
        IRI::from_pair_unchecked(node, ctx)
    }
}

impl FromPair for Class {
    open spec fn rule() -> Rule {
        Rule::Class
    }

    open spec fn lowered_unchecked(node: ParseNode, m: PrefixMapView) -> Result<
        Seq<char>,
        HornedError,
    > {
        Class::lowered_unchecked(node, m)
    }

    fn expected_rule() -> (r: Rule) {
        Rule::Class
    }

    fn from_pair_unchecked(node: &ParseNode, ctx: &mut Context) -> (r: Result<Self, HornedError>) {
        Class::from_pair_unchecked(node, ctx)
    }
}

impl FromPair for Datatype {
    open spec fn rule() -> Rule {
        Rule::Datatype
    }

    open spec fn lowered_unchecked(node: ParseNode, m: PrefixMapView) -> Result<
        Seq<char>,
        HornedError,
    > {
        Datatype::lowered_unchecked(node, m)
    }

    fn expected_rule() -> (r: Rule) {
        Rule::Datatype
    }

    fn from_pair_unchecked(node: &ParseNode, ctx: &mut Context) -> (r: Result<Self, HornedError>) {
        Datatype::from_pair_unchecked(node, ctx)
    }
}

impl FromPair for ObjectProperty {
    open spec fn rule() -> Rule {
        Rule::ObjectProperty
    }

    open spec fn lowered_unchecked(node: ParseNode, m: PrefixMapView) -> Result<
        Seq<char>,
        HornedError,
    > {
        ObjectProperty::lowered_unchecked(node, m)
    }

    fn expected_rule() -> (r: Rule) {
        Rule::ObjectProperty
    }

    fn from_pair_unchecked(node: &ParseNode, ctx: &mut Context) -> (r: Result<Self, HornedError>) {
        ObjectProperty::from_pair_unchecked(node, ctx)
    }
}

impl FromPair for DataProperty {
    open spec fn rule() -> Rule {
        Rule::DataProperty
    }

    open spec fn lowered_unchecked(node: ParseNode, m: PrefixMapView) -> Result<
        Seq<char>,
        HornedError,
    > {
        DataProperty::lowered_unchecked(node, m)
    }

    fn expected_rule() -> (r: Rule) {
        Rule::DataProperty
    }

    fn from_pair_unchecked(node: &ParseNode, ctx: &mut Context) -> (r: Result<Self, HornedError>) {
        DataProperty::from_pair_unchecked(node, ctx)
    }
}

impl FromPair for AnnotationProperty {
    open spec fn rule() -> Rule {
        Rule::AnnotationProperty
    }

    open spec fn lowered_unchecked(node: ParseNode, m: PrefixMapView) -> Result<
        Seq<char>,
        HornedError,
    > {
        AnnotationProperty::lowered_unchecked(node, m)
    }

    fn expected_rule() -> (r: Rule) {
        Rule::AnnotationProperty
    }

    fn from_pair_unchecked(node: &ParseNode, ctx: &mut Context) -> (r: Result<Self, HornedError>) {
        AnnotationProperty::from_pair_unchecked(node, ctx)
    }
}

impl FromPair for NamedIndividual {
    open spec fn rule() -> Rule {
        Rule::NamedIndividual
    }

    open spec fn lowered_unchecked(node: ParseNode, m: PrefixMapView) -> Result<
        Seq<char>,
        HornedError,
    > {
        NamedIndividual::lowered_unchecked(node, m)
    }

    fn expected_rule() -> (r: Rule) {
        Rule::NamedIndividual
    }

    fn from_pair_unchecked(node: &ParseNode, ctx: &mut Context) -> (r: Result<Self, HornedError>) {
        NamedIndividual::from_pair_unchecked(node, ctx)
    }
}

impl FromPair for AnonymousIndividual {
    open spec fn rule() -> Rule {
        Rule::AnonymousIndividual
    }

    open spec fn lowered_unchecked(node: ParseNode, m: PrefixMapView) -> Result<
        Seq<char>,
        HornedError,
    > {
        AnonymousIndividual::lowered_unchecked(node, m)
    }

    fn expected_rule() -> (r: Rule) {
        Rule::AnonymousIndividual
    }

    fn from_pair_unchecked(node: &ParseNode, ctx: &mut Context) -> (r: Result<Self, HornedError>) {
        AnonymousIndividual::from_pair_unchecked(node, ctx)
    }
}

impl FromPair for Individual {
    open spec fn rule() -> Rule {
        Rule::Individual
    }

    open spec fn lowered_unchecked(node: ParseNode, m: PrefixMapView) -> Result<
        IndividualView,
        HornedError,
    > {
        Individual::lowered_unchecked(node, m)
    }

    fn expected_rule() -> (r: Rule) {
        Rule::Individual
    }

    fn from_pair_unchecked(node: &ParseNode, ctx: &mut Context) -> (r: Result<Self, HornedError>) {
        Individual::from_pair_unchecked(node, ctx)
    }
}

impl FromPair for Literal {
    open spec fn rule() -> Rule {
        Rule::Literal
    }

    open spec fn lowered_unchecked(node: ParseNode, m: PrefixMapView) -> Result<
        LiteralView,
        HornedError,
    > {
        Literal::lowered_unchecked(node, m)
    }

    fn expected_rule() -> (r: Rule) {
        Rule::Literal
    }

    fn from_pair_unchecked(node: &ParseNode, ctx: &mut Context) -> (r: Result<Self, HornedError>) {
        Literal::from_pair_unchecked(node, ctx)
    }
}

impl FromPair for ObjectPropertyExpression {
    open spec fn rule() -> Rule {
        Rule::ObjectPropertyExpression
    }

    open spec fn lowered_unchecked(node: ParseNode, m: PrefixMapView) -> Result<
        ObjectPropertyExpressionView,
        HornedError,
    > {
        ObjectPropertyExpression::lowered_unchecked(node, m)
    }

    fn expected_rule() -> (r: Rule) {
        Rule::ObjectPropertyExpression
    }

    fn from_pair_unchecked(node: &ParseNode, ctx: &mut Context) -> (r: Result<Self, HornedError>) {
        ObjectPropertyExpression::from_pair_unchecked(node, ctx)
    }
}

impl FromPair for SubObjectPropertyExpression {
    open spec fn rule() -> Rule {
        Rule::SubObjectPropertyExpression
    }

    open spec fn lowered_unchecked(node: ParseNode, m: PrefixMapView) -> Result<
        SubObjectPropertyExpressionView,
        HornedError,
    > {
        SubObjectPropertyExpression::lowered_unchecked(node, m)
    }

    fn expected_rule() -> (r: Rule) {
        Rule::SubObjectPropertyExpression
    }

    fn from_pair_unchecked(node: &ParseNode, ctx: &mut Context) -> (r: Result<Self, HornedError>) {
        SubObjectPropertyExpression::from_pair_unchecked(node, ctx)
    }
}

impl FromPair for Facet {
    open spec fn rule() -> Rule {
        Rule::ConstrainingFacet
    }

    open spec fn lowered_unchecked(node: ParseNode, m: PrefixMapView) -> Result<
        Facet,
        HornedError,
    > {
        Facet::lowered_unchecked(node, m)
    }

    fn expected_rule() -> (r: Rule) {
        Rule::ConstrainingFacet
    }

    fn from_pair_unchecked(node: &ParseNode, ctx: &mut Context) -> (r: Result<Self, HornedError>) {
        Facet::from_pair_unchecked(node, ctx)
    }
}

impl FromPair for FacetRestriction {
    open spec fn rule() -> Rule {
        Rule::FacetRestriction
    }

    open spec fn lowered_unchecked(node: ParseNode, m: PrefixMapView) -> Result<
        FacetRestrictionView,
        HornedError,
    > {
        FacetRestriction::lowered_unchecked(node, m)
    }

    fn expected_rule() -> (r: Rule) {
        Rule::FacetRestriction
    }

    fn from_pair_unchecked(node: &ParseNode, ctx: &mut Context) -> (r: Result<Self, HornedError>) {
        FacetRestriction::from_pair_unchecked(node, ctx)
    }
}

impl FromPair for DataRange {
    open spec fn rule() -> Rule {
        Rule::DataRange
    }

    open spec fn lowered_unchecked(node: ParseNode, m: PrefixMapView) -> Result<
        DataRangeView,
        HornedError,
    > {
        DataRange::lowered_unchecked(node, m)
    }

    fn expected_rule() -> (r: Rule) {
        Rule::DataRange
    }

    fn from_pair_unchecked(node: &ParseNode, ctx: &mut Context) -> (r: Result<Self, HornedError>) {
        DataRange::from_pair_unchecked(node, ctx)
    }
}

impl FromPair for ClassExpression {
    open spec fn rule() -> Rule {
        Rule::ClassExpression
    }

    open spec fn lowered_unchecked(node: ParseNode, m: PrefixMapView) -> Result<
        ClassExpressionView,
        HornedError,
    > {
        ClassExpression::lowered_unchecked(node, m)
    }

    fn expected_rule() -> (r: Rule) {
        Rule::ClassExpression
    }

    fn from_pair_unchecked(node: &ParseNode, ctx: &mut Context) -> (r: Result<Self, HornedError>) {
        ClassExpression::from_pair_unchecked(node, ctx)
    }
}

impl FromPair for AnnotationValue {
    open spec fn rule() -> Rule {
        Rule::AnnotationValue
    }

    open spec fn lowered_unchecked(node: ParseNode, m: PrefixMapView) -> Result<
        AnnotationValueView,
        HornedError,
    > {
        AnnotationValue::lowered_unchecked(node, m)
    }

    fn expected_rule() -> (r: Rule) {
        Rule::AnnotationValue
    }

    fn from_pair_unchecked(node: &ParseNode, ctx: &mut Context) -> (r: Result<Self, HornedError>) {
        AnnotationValue::from_pair_unchecked(node, ctx)
    }
}

impl FromPair for AnnotationSubject {
    open spec fn rule() -> Rule {
        Rule::AnnotationSubject
    }

    open spec fn lowered_unchecked(node: ParseNode, m: PrefixMapView) -> Result<
        AnnotationSubjectView,
        HornedError,
    > {
        AnnotationSubject::lowered_unchecked(node, m)
    }

    fn expected_rule() -> (r: Rule) {
        Rule::AnnotationSubject
    }

    fn from_pair_unchecked(node: &ParseNode, ctx: &mut Context) -> (r: Result<Self, HornedError>) {
        AnnotationSubject::from_pair_unchecked(node, ctx)
    }
}

impl FromPair for Annotation {
    open spec fn rule() -> Rule {
        Rule::Annotation
    }

    open spec fn lowered_unchecked(node: ParseNode, m: PrefixMapView) -> Result<
        AnnotationView,
        HornedError,
    > {
        Annotation::lowered_unchecked(node, m)
    }

    fn expected_rule() -> (r: Rule) {
        Rule::Annotation
    }

    fn from_pair_unchecked(node: &ParseNode, ctx: &mut Context) -> (r: Result<Self, HornedError>) {
        Annotation::from_pair_unchecked(node, ctx)
    }
}

impl FromPair for AnnotationSet {
    open spec fn rule() -> Rule {
        Rule::Annotations
    }

    open spec fn lowered_unchecked(node: ParseNode, m: PrefixMapView) -> Result<
        Set<AnnotationView>,
        HornedError,
    > {
        AnnotationSet::lowered_unchecked(node, m)
    }

    fn expected_rule() -> (r: Rule) {
        Rule::Annotations
    }

    fn from_pair_unchecked(node: &ParseNode, ctx: &mut Context) -> (r: Result<Self, HornedError>) {
        AnnotationSet::from_pair_unchecked(node, ctx)
    }
}

impl FromPair for Component {
    open spec fn rule() -> Rule {
        Rule::Axiom
    }

    open spec fn lowered_unchecked(node: ParseNode, m: PrefixMapView) -> Result<
        ComponentView,
        HornedError,
    > {
        Component::lowered_unchecked(node, m)
    }

    fn expected_rule() -> (r: Rule) {
        Rule::Axiom
    }

    fn from_pair_unchecked(node: &ParseNode, ctx: &mut Context) -> (r: Result<Self, HornedError>) {
        Component::from_pair_unchecked(node, ctx)
    }
}

impl FromPair for AnnotatedComponent {
    open spec fn rule() -> Rule {
        Rule::Axiom
    }

    open spec fn lowered_unchecked(node: ParseNode, m: PrefixMapView) -> Result<
        AnnotatedComponentView,
        HornedError,
    > {
        AnnotatedComponent::lowered_unchecked(node, m)
    }

    fn expected_rule() -> (r: Rule) {
        Rule::Axiom
    }

    fn from_pair_unchecked(node: &ParseNode, ctx: &mut Context) -> (r: Result<Self, HornedError>) {
        AnnotatedComponent::from_pair_unchecked(node, ctx)
    }
}

impl FromPair for Ontology {
    open spec fn rule() -> Rule {
        Rule::Ontology
    }

    open spec fn lowered_unchecked(node: ParseNode, m: PrefixMapView) -> Result<
        OntologyView,
        HornedError,
    > {
        Ontology::lowered_unchecked(node, m)
    }

    fn expected_rule() -> (r: Rule) {
        Rule::Ontology
    }

    fn from_pair_unchecked(node: &ParseNode, ctx: &mut Context) -> (r: Result<Self, HornedError>) {
        Ontology::from_pair_unchecked(node, ctx)
    }
}

impl FromPair for String {
    open spec fn rule() -> Rule {
        Rule::QuotedString
    }

    open spec fn lowered_unchecked(node: ParseNode, m: PrefixMapView) -> Result<
        Seq<char>,
        HornedError,
    > {
        lowered_quoted_string_unchecked(node)
    }

    fn expected_rule() -> (r: Rule) {
        Rule::QuotedString
    }

    fn from_pair_unchecked(node: &ParseNode, ctx: &mut Context) -> (r: Result<Self, HornedError>) {
        quoted_string_from_pair_unchecked(node)
    }
}

impl FromPair for u32 {
    open spec fn rule() -> Rule {
        Rule::NonNegativeInteger
    }

    open spec fn lowered_unchecked(node: ParseNode, m: PrefixMapView) -> Result<u32, HornedError> {
        lowered_non_negative_integer_unchecked(node)
    }

    fn expected_rule() -> (r: Rule) {
        Rule::NonNegativeInteger
    }

    fn from_pair_unchecked(node: &ParseNode, ctx: &mut Context) -> (r: Result<Self, HornedError>) {
        non_negative_integer_from_pair_unchecked(node)
    }
}

} // verus!
