//! Lowering of property expressions, data ranges and class expressions.

use vstd::prelude::*;
use crate::error::outcome;
use crate::error::HornedError;
use crate::parse_tree::remaining;
use crate::parse_tree::ParseNode;
use crate::parse_tree::Rule;
use crate::prefix::PrefixMapView;
use crate::reader::collect::collect;
use crate::reader::collect::lemma_collect_all;
use crate::reader::collect::lemma_collect_error;
use crate::reader::collect::lemma_collect_value;
use crate::reader::context::Context;
use crate::model::entity::Class;
use crate::model::entity::DataProperty;
use crate::model::entity::Datatype;
use crate::model::entity::Individual;
use crate::model::entity::ObjectProperty;
use crate::model::expression::ClassExpression;
use crate::model::expression::ClassExpressionView;
use crate::model::expression::DataRange;
use crate::model::expression::DataRangeView;
use crate::model::expression::Facet;
use crate::model::expression::FacetRestriction;
use crate::model::expression::FacetRestrictionView;
use crate::model::expression::Literal;
use crate::model::expression::ObjectPropertyExpression;
use crate::model::expression::ObjectPropertyExpressionView;
use crate::model::expression::PropertyExpression;
use crate::model::expression::PropertyExpressionView;
use crate::model::expression::SubObjectPropertyExpression;
use crate::model::expression::SubObjectPropertyExpressionView;
use crate::model::iri::IRI;
use crate::reader::basic::lowered_non_negative_integer;
use crate::reader::basic::non_negative_integer_from_pair;
use crate::vocab::facet_of;
use crate::vocab::find_facet;
use crate::vocab::owl_thing;
use crate::vocab::rdfs_literal;
use crate::vocab::OWL_THING;
use crate::vocab::RDFS_LITERAL;

verus! {

impl ObjectPropertyExpression {
    /// What an object-property-expression node stands for, its rule taken for
    /// granted: the object property that its only child is, or the inverse of the
    /// object property below it.
    pub open spec fn lowered_unchecked(
        node: ParseNode,
        m: PrefixMapView,
    ) -> Result<ObjectPropertyExpressionView, HornedError> {
        match node.spec_child(0) {
            Err(e) => Err(e),
            Ok(inner) => match inner.rule {
                Rule::ObjectProperty => {
                    match ObjectProperty::lowered(inner, m) {
                        Err(e) => Err(e),
                        Ok(p) => Ok(ObjectPropertyExpressionView::ObjectProperty(p)),
                    }
                },
                Rule::InverseObjectProperty => {
                    match inner.spec_child(0) {
                        Err(e) => Err(e),
                        Ok(named) => match ObjectProperty::lowered(named, m) {
                            Err(e) => Err(e),
                            Ok(p) => Ok(ObjectPropertyExpressionView::InverseObjectProperty(p)),
                        },
                    }
                },
                _ => Err(HornedError::unexpected(inner.rule, inner.span)),
            },
        }
    }

    /// Lowers an object-property-expression node without looking at its rule.
    pub fn from_pair_unchecked(
        node: &ParseNode,
        ctx: &mut Context,
    ) -> (r: Result<ObjectPropertyExpression, HornedError>)
        ensures
            outcome(r) == ObjectPropertyExpression::lowered_unchecked(*node, old(ctx).mapping@),
            old(ctx).grows_to(*final(ctx)),
    {
        let inner = node.child(0)?;
        match inner.rule {
            Rule::ObjectProperty => {
                let p = ObjectProperty::from_pair(inner, ctx)?;
                Ok(ObjectPropertyExpression::ObjectProperty(p))
            },
            Rule::InverseObjectProperty => {
                let named = inner.child(0)?;
                let p = ObjectProperty::from_pair(named, ctx)?;
                Ok(ObjectPropertyExpression::InverseObjectProperty(p))
            },
            _ => Err(
                HornedError::ParseError {
                    positives: Some(inner.rule),
                    negatives: None,
                    span: inner.span,
                },
            ),
        }
    }

    /// What an object-property-expression node stands for.
    pub open spec fn lowered(
        node: ParseNode,
        m: PrefixMapView,
    ) -> Result<ObjectPropertyExpressionView, HornedError> {
        match node.spec_expect(Rule::ObjectPropertyExpression) {
            Err(e) => Err(e),
            Ok(_) => ObjectPropertyExpression::lowered_unchecked(node, m),
        }
    }

    /// Lowers an object-property-expression node.
    pub fn from_pair(
        node: &ParseNode,
        ctx: &mut Context,
    ) -> (r: Result<ObjectPropertyExpression, HornedError>)
        ensures
            outcome(r) == ObjectPropertyExpression::lowered(*node, old(ctx).mapping@),
            old(ctx).grows_to(*final(ctx)),
    {
        node.expect(Rule::ObjectPropertyExpression)?;
        ObjectPropertyExpression::from_pair_unchecked(node, ctx)
    }

    /// What each child of `node` from position `from` on stands for, taken as
    /// an object-property-expression node.
    pub open spec fn outcomes(node: ParseNode, from: int, m: PrefixMapView) -> Seq<
        Result<ObjectPropertyExpressionView, HornedError>,
    >
    {
        Seq::new(
            remaining(node, from),
            |i: int|
                if 0 <= i < remaining(node, from) {
                    ObjectPropertyExpression::lowered(node.children@[from + i], m)
                } else {
                    arbitrary()
                },
        )
    }

    /// What the children of `node` from position `from` on stand for, each of
    /// them an object-property-expression node: the values of all of them in order, or the first
    /// error among them.
    pub open spec fn lowered_all(node: ParseNode, from: int, m: PrefixMapView) -> Result<
        Seq<ObjectPropertyExpressionView>,
        HornedError,
    >
    {
        collect(ObjectPropertyExpression::outcomes(node, from, m))
    }

    /// Lowers the children of `node` from position `from` on, each of them
    /// an object-property-expression node.
    pub fn from_pairs(node: &ParseNode, from: usize, ctx: &mut Context) -> (r: Result<
        Vec<ObjectPropertyExpression>,
        HornedError,
    >)
        ensures
            match r {
                Ok(v) => ObjectPropertyExpression::lowered_all(*node, from as int, old(ctx).mapping@) == Ok::<
                    Seq<ObjectPropertyExpressionView>,
                    HornedError,
                >(ObjectPropertyExpression::seq_view(v)),
                Err(e) => ObjectPropertyExpression::lowered_all(*node, from as int, old(ctx).mapping@) == Err::<
                    Seq<ObjectPropertyExpressionView>,
                    HornedError,
                >(e),
            },
            old(ctx).grows_to(*final(ctx)),
    {
        let mut out: Vec<ObjectPropertyExpression> = Vec::new();
        let ghost m = old(ctx).mapping@;
        let ghost outcomes = ObjectPropertyExpression::outcomes(*node, from as int, m);
        if from >= node.children.len() {
            assert(
                ObjectPropertyExpression::seq_view(out) =~= Seq::<ObjectPropertyExpressionView>::empty()
            );
            return Ok(out);
        }
        let mut i: usize = from;
        proof {
            assert(
                outcomes.take(0) =~= Seq::<Result<ObjectPropertyExpressionView, HornedError>>::empty()
            );
            assert(
                ObjectPropertyExpression::seq_view(out) =~= Seq::<ObjectPropertyExpressionView>::empty()
            );
        }
        while i < node.children.len()
            invariant
                from <= i <= node.children.len(),
                m == old(ctx).mapping@,
                old(ctx).grows_to(*ctx),
                outcomes == ObjectPropertyExpression::outcomes(*node, from as int, m),
                outcomes.len() == node.children.len() - from,
                forall|k: int|
                    0 <= k < outcomes.len() ==> #[trigger] outcomes[k] == ObjectPropertyExpression::lowered(
                        node.children@[from + k],
                        m,
                    ),
                collect(outcomes.take(i - from)) == Ok::<Seq<ObjectPropertyExpressionView>, HornedError>(
                    ObjectPropertyExpression::seq_view(out),
                ),
            decreases node.children.len() - i,
        {
            let ghost before = ObjectPropertyExpression::seq_view(out);
            match ObjectPropertyExpression::from_pair(&node.children[i], ctx) {
                Ok(v) => {
                    proof {
                        lemma_collect_value(outcomes, i - from, before, v@);
                    }
                    out.push(v);
                    assert(ObjectPropertyExpression::seq_view(out) =~= before.push(v@));
                },
                Err(e) => {
                    proof {
                        lemma_collect_error(outcomes, i - from, e);
                                            }
                    return Err(e);
                },
            }
            i += 1;
        }
        proof {
            lemma_collect_all(outcomes);
        }
        Ok(out)
    }
}

impl SubObjectPropertyExpression {
    /// What a sub-object-property-expression node stands for, its rule taken for
    /// granted: the object property expression that its only child is, or the
    /// chain of all the object property expressions below it.
    pub open spec fn lowered_unchecked(
        node: ParseNode,
        m: PrefixMapView,
    ) -> Result<SubObjectPropertyExpressionView, HornedError> {
        match node.spec_child(0) {
            Err(e) => Err(e),
            Ok(inner) => match inner.rule {
                Rule::ObjectPropertyExpression => {
                    match ObjectPropertyExpression::lowered(inner, m) {
                        Err(e) => Err(e),
                        Ok(p) => Ok(SubObjectPropertyExpressionView::ObjectPropertyExpression(p)),
                    }
                },
                Rule::PropertyExpressionChain => {
                    match ObjectPropertyExpression::lowered_all(inner, 0, m) {
                        Err(e) => Err(e),
                        Ok(chain) => {
                            Ok(SubObjectPropertyExpressionView::ObjectPropertyChain(chain))
                        },
                    }
                },
                _ => Err(HornedError::unexpected(inner.rule, inner.span)),
            },
        }
    }

    /// Lowers a sub-object-property-expression node without looking at its rule.
    pub fn from_pair_unchecked(
        node: &ParseNode,
        ctx: &mut Context,
    ) -> (r: Result<SubObjectPropertyExpression, HornedError>)
        ensures
            outcome(r) == SubObjectPropertyExpression::lowered_unchecked(*node, old(ctx).mapping@),
            old(ctx).grows_to(*final(ctx)),
    {
        let inner = node.child(0)?;
        match inner.rule {
            Rule::ObjectPropertyExpression => {
                let p = ObjectPropertyExpression::from_pair(inner, ctx)?;
                Ok(SubObjectPropertyExpression::ObjectPropertyExpression(p))
            },
            Rule::PropertyExpressionChain => {
                let chain = ObjectPropertyExpression::from_pairs(inner, 0, ctx)?;
                Ok(SubObjectPropertyExpression::ObjectPropertyChain(chain))
            },
            _ => Err(
                HornedError::ParseError {
                    positives: Some(inner.rule),
                    negatives: None,
                    span: inner.span,
                },
            ),
        }
    }

    /// What a sub-object-property-expression node stands for.
    pub open spec fn lowered(
        node: ParseNode,
        m: PrefixMapView,
    ) -> Result<SubObjectPropertyExpressionView, HornedError> {
        match node.spec_expect(Rule::SubObjectPropertyExpression) {
            Err(e) => Err(e),
            Ok(_) => SubObjectPropertyExpression::lowered_unchecked(node, m),
        }
    }

    /// Lowers a sub-object-property-expression node.
    pub fn from_pair(
        node: &ParseNode,
        ctx: &mut Context,
    ) -> (r: Result<SubObjectPropertyExpression, HornedError>)
        ensures
            outcome(r) == SubObjectPropertyExpression::lowered(*node, old(ctx).mapping@),
            old(ctx).grows_to(*final(ctx)),
    {
        node.expect(Rule::SubObjectPropertyExpression)?;
        SubObjectPropertyExpression::from_pair_unchecked(node, ctx)
    }
}

impl PropertyExpression {
    /// What a node in a list of key properties stands for: by its rule, an
    /// object property expression or a data property.
    pub open spec fn lowered(
        node: ParseNode,
        m: PrefixMapView,
    ) -> Result<PropertyExpressionView, HornedError> {
        match node.rule {
            Rule::ObjectPropertyExpression => {
                match ObjectPropertyExpression::lowered(node, m) {
                    Err(e) => Err(e),
                    Ok(p) => Ok(PropertyExpressionView::ObjectPropertyExpression(p)),
                }
            },
            Rule::DataProperty => {
                match DataProperty::lowered(node, m) {
                    Err(e) => Err(e),
                    Ok(p) => Ok(PropertyExpressionView::DataProperty(p)),
                }
            },
            _ => Err(HornedError::unexpected(node.rule, node.span)),
        }
    }

    /// Lowers a node in a list of key properties.
    pub fn from_pair(
        node: &ParseNode,
        ctx: &mut Context,
    ) -> (r: Result<PropertyExpression, HornedError>)
        ensures
            outcome(r) == PropertyExpression::lowered(*node, old(ctx).mapping@),
            old(ctx).grows_to(*final(ctx)),
    {
        match node.rule {
            Rule::ObjectPropertyExpression => {
                let p = ObjectPropertyExpression::from_pair(node, ctx)?;
                Ok(PropertyExpression::ObjectPropertyExpression(p))
            },
            Rule::DataProperty => {
                let p = DataProperty::from_pair(node, ctx)?;
                Ok(PropertyExpression::DataProperty(p))
            },
            _ => Err(
                HornedError::ParseError {
                    positives: Some(node.rule),
                    negatives: None,
                    span: node.span,
                },
            ),
        }
    }

    /// What each child of `node` from position `from` on stands for, taken as
    /// a key-property node.
    pub open spec fn outcomes(node: ParseNode, from: int, m: PrefixMapView) -> Seq<
        Result<PropertyExpressionView, HornedError>,
    >
    {
        Seq::new(
            remaining(node, from),
            |i: int|
                if 0 <= i < remaining(node, from) {
                    PropertyExpression::lowered(node.children@[from + i], m)
                } else {
                    arbitrary()
                },
        )
    }

    /// What the children of `node` from position `from` on stand for, each of
    /// them a key-property node: the values of all of them in order, or the first
    /// error among them.
    pub open spec fn lowered_all(node: ParseNode, from: int, m: PrefixMapView) -> Result<
        Seq<PropertyExpressionView>,
        HornedError,
    >
    {
        collect(PropertyExpression::outcomes(node, from, m))
    }

    /// Lowers the children of `node` from position `from` on, each of them
    /// a key-property node.
    pub fn from_pairs(node: &ParseNode, from: usize, ctx: &mut Context) -> (r: Result<
        Vec<PropertyExpression>,
        HornedError,
    >)
        ensures
            match r {
                Ok(v) => PropertyExpression::lowered_all(*node, from as int, old(ctx).mapping@) == Ok::<
                    Seq<PropertyExpressionView>,
                    HornedError,
                >(PropertyExpression::seq_view(v)),
                Err(e) => PropertyExpression::lowered_all(*node, from as int, old(ctx).mapping@) == Err::<
                    Seq<PropertyExpressionView>,
                    HornedError,
                >(e),
            },
            old(ctx).grows_to(*final(ctx)),
    {
        let mut out: Vec<PropertyExpression> = Vec::new();
        let ghost m = old(ctx).mapping@;
        let ghost outcomes = PropertyExpression::outcomes(*node, from as int, m);
        if from >= node.children.len() {
            assert(PropertyExpression::seq_view(out) =~= Seq::<PropertyExpressionView>::empty());
            return Ok(out);
        }
        let mut i: usize = from;
        proof {
            assert(
                outcomes.take(0) =~= Seq::<Result<PropertyExpressionView, HornedError>>::empty()
            );
            assert(PropertyExpression::seq_view(out) =~= Seq::<PropertyExpressionView>::empty());
        }
        while i < node.children.len()
            invariant
                from <= i <= node.children.len(),
                m == old(ctx).mapping@,
                old(ctx).grows_to(*ctx),
                outcomes == PropertyExpression::outcomes(*node, from as int, m),
                outcomes.len() == node.children.len() - from,
                forall|k: int|
                    0 <= k < outcomes.len() ==> #[trigger] outcomes[k] == PropertyExpression::lowered(
                        node.children@[from + k],
                        m,
                    ),
                collect(outcomes.take(i - from)) == Ok::<Seq<PropertyExpressionView>, HornedError>(
                    PropertyExpression::seq_view(out),
                ),
            decreases node.children.len() - i,
        {
            let ghost before = PropertyExpression::seq_view(out);
            match PropertyExpression::from_pair(&node.children[i], ctx) {
                Ok(v) => {
                    proof {
                        lemma_collect_value(outcomes, i - from, before, v@);
                    }
                    out.push(v);
                    assert(PropertyExpression::seq_view(out) =~= before.push(v@));
                },
                Err(e) => {
                    proof {
                        lemma_collect_error(outcomes, i - from, e);
                                            }
                    return Err(e);
                },
            }
            i += 1;
        }
        proof {
            lemma_collect_all(outcomes);
        }
        Ok(out)
    }
}

impl Facet {
    /// What a constraining-facet node stands for, its rule taken for granted:
    /// the facet that the IRI below it names. An IRI that names no facet is an
    /// error at the place of that IRI.
    pub open spec fn lowered_unchecked(
        node: ParseNode,
        m: PrefixMapView,
    ) -> Result<Facet, HornedError> {
        match node.spec_child(0) {
            Err(e) => Err(e),
            Ok(inner) => match IRI::lowered(inner, m) {
                Err(e) => Err(e),
                Ok(iri) => match facet_of(iri) {
                    Some(f) => Ok(f),
                    None => Err(HornedError::InvalidFacet(inner.span)),
                },
            },
        }
    }

    /// Lowers a constraining-facet node without looking at its rule.
    pub fn from_pair_unchecked(
        node: &ParseNode,
        ctx: &mut Context,
    ) -> (r: Result<Facet, HornedError>)
        ensures
            r == Facet::lowered_unchecked(*node, old(ctx).mapping@),
            old(ctx).grows_to(*final(ctx)),
    {
        let inner = node.child(0)?;
        let iri = IRI::from_pair(inner, ctx)?;
        match find_facet(iri.as_str()) {
            Some(f) => Ok(f),
            None => Err(HornedError::InvalidFacet(inner.span)),
        }
    }

    /// What a constraining-facet node stands for.
    pub open spec fn lowered(node: ParseNode, m: PrefixMapView) -> Result<Facet, HornedError> {
        match node.spec_expect(Rule::ConstrainingFacet) {
            Err(e) => Err(e),
            Ok(_) => Facet::lowered_unchecked(node, m),
        }
    }

    /// Lowers a constraining-facet node.
    pub fn from_pair(node: &ParseNode, ctx: &mut Context) -> (r: Result<Facet, HornedError>)
        ensures
            r == Facet::lowered(*node, old(ctx).mapping@),
            old(ctx).grows_to(*final(ctx)),
    {
        node.expect(Rule::ConstrainingFacet)?;
        Facet::from_pair_unchecked(node, ctx)
    }
}

impl FacetRestriction {
    /// What a facet-restriction node stands for, its rule taken for granted: the
    /// facet of its first child with the literal of its second.
    pub open spec fn lowered_unchecked(
        node: ParseNode,
        m: PrefixMapView,
    ) -> Result<FacetRestrictionView, HornedError> {
        match node.spec_child(0) {
            Err(e) => Err(e),
            Ok(first) => match Facet::lowered(first, m) {
                Err(e) => Err(e),
                Ok(f) => match node.spec_child(1) {
                    Err(e) => Err(e),
                    Ok(second) => match Literal::lowered(second, m) {
                        Err(e) => Err(e),
                        Ok(l) => Ok(FacetRestrictionView { f, l }),
                    },
                },
            },
        }
    }

    /// Lowers a facet-restriction node without looking at its rule.
    pub fn from_pair_unchecked(
        node: &ParseNode,
        ctx: &mut Context,
    ) -> (r: Result<FacetRestriction, HornedError>)
        ensures
            outcome(r) == FacetRestriction::lowered_unchecked(*node, old(ctx).mapping@),
            old(ctx).grows_to(*final(ctx)),
    {
        let first = node.child(0)?;
        let f = Facet::from_pair(first, ctx)?;
        let second = node.child(1)?;
        let l = Literal::from_pair(second, ctx)?;
        Ok(FacetRestriction { f, l })
    }

    /// What a facet-restriction node stands for.
    pub open spec fn lowered(
        node: ParseNode,
        m: PrefixMapView,
    ) -> Result<FacetRestrictionView, HornedError> {
        match node.spec_expect(Rule::FacetRestriction) {
            Err(e) => Err(e),
            Ok(_) => FacetRestriction::lowered_unchecked(node, m),
        }
    }

    /// Lowers a facet-restriction node.
    pub fn from_pair(
        node: &ParseNode,
        ctx: &mut Context,
    ) -> (r: Result<FacetRestriction, HornedError>)
        ensures
            outcome(r) == FacetRestriction::lowered(*node, old(ctx).mapping@),
            old(ctx).grows_to(*final(ctx)),
    {
        node.expect(Rule::FacetRestriction)?;
        FacetRestriction::from_pair_unchecked(node, ctx)
    }

    /// What each child of `node` from position `from` on stands for, taken as
    /// a facet-restriction node.
    pub open spec fn outcomes(node: ParseNode, from: int, m: PrefixMapView) -> Seq<
        Result<FacetRestrictionView, HornedError>,
    >
    {
        Seq::new(
            remaining(node, from),
            |i: int|
                if 0 <= i < remaining(node, from) {
                    FacetRestriction::lowered(node.children@[from + i], m)
                } else {
                    arbitrary()
                },
        )
    }

    /// What the children of `node` from position `from` on stand for, each of
    /// them a facet-restriction node: the values of all of them in order, or the first
    /// error among them.
    pub open spec fn lowered_all(node: ParseNode, from: int, m: PrefixMapView) -> Result<
        Seq<FacetRestrictionView>,
        HornedError,
    >
    {
        collect(FacetRestriction::outcomes(node, from, m))
    }

    /// Lowers the children of `node` from position `from` on, each of them
    /// a facet-restriction node.
    pub fn from_pairs(node: &ParseNode, from: usize, ctx: &mut Context) -> (r: Result<
        Vec<FacetRestriction>,
        HornedError,
    >)
        ensures
            match r {
                Ok(v) => FacetRestriction::lowered_all(*node, from as int, old(ctx).mapping@) == Ok::<
                    Seq<FacetRestrictionView>,
                    HornedError,
                >(FacetRestriction::seq_view(v)),
                Err(e) => FacetRestriction::lowered_all(*node, from as int, old(ctx).mapping@) == Err::<
                    Seq<FacetRestrictionView>,
                    HornedError,
                >(e),
            },
            old(ctx).grows_to(*final(ctx)),
    {
        let mut out: Vec<FacetRestriction> = Vec::new();
        let ghost m = old(ctx).mapping@;
        let ghost outcomes = FacetRestriction::outcomes(*node, from as int, m);
        if from >= node.children.len() {
            assert(FacetRestriction::seq_view(out) =~= Seq::<FacetRestrictionView>::empty());
            return Ok(out);
        }
        let mut i: usize = from;
        proof {
            assert(outcomes.take(0) =~= Seq::<Result<FacetRestrictionView, HornedError>>::empty());
            assert(FacetRestriction::seq_view(out) =~= Seq::<FacetRestrictionView>::empty());
        }
        while i < node.children.len()
            invariant
                from <= i <= node.children.len(),
                m == old(ctx).mapping@,
                old(ctx).grows_to(*ctx),
                outcomes == FacetRestriction::outcomes(*node, from as int, m),
                outcomes.len() == node.children.len() - from,
                forall|k: int|
                    0 <= k < outcomes.len() ==> #[trigger] outcomes[k] == FacetRestriction::lowered(
                        node.children@[from + k],
                        m,
                    ),
                collect(outcomes.take(i - from)) == Ok::<Seq<FacetRestrictionView>, HornedError>(
                    FacetRestriction::seq_view(out),
                ),
            decreases node.children.len() - i,
        {
            let ghost before = FacetRestriction::seq_view(out);
            match FacetRestriction::from_pair(&node.children[i], ctx) {
                Ok(v) => {
                    proof {
                        lemma_collect_value(outcomes, i - from, before, v@);
                    }
                    out.push(v);
                    assert(FacetRestriction::seq_view(out) =~= before.push(v@));
                },
                Err(e) => {
                    proof {
                        lemma_collect_error(outcomes, i - from, e);
                                            }
                    return Err(e);
                },
            }
            i += 1;
        }
        proof {
            lemma_collect_all(outcomes);
        }
        Ok(out)
    }
}

impl DataRange {
    /// What a data-range node stands for, its rule taken for granted. Its only
    /// child decides the form; the operands are the children of that child.
    pub open spec fn lowered_unchecked(
        node: ParseNode,
        m: PrefixMapView,
    ) -> Result<DataRangeView, HornedError>
        decreases node, 0int,
    {
        match node.spec_child(0) {
            Err(e) => Err(e),
            Ok(inner) => match inner.rule {
                Rule::Datatype => {
                    match Datatype::lowered(inner, m) {
                        Err(e) => Err(e),
                        Ok(d) => Ok(DataRangeView::Datatype(d)),
                    }
                },
                Rule::DataIntersectionOf => {
                    match DataRange::lowered_all(inner, 0, m) {
                        Err(e) => Err(e),
                        Ok(operands) => Ok(DataRangeView::DataIntersectionOf(operands)),
                    }
                },
                Rule::DataUnionOf => {
                    match DataRange::lowered_all(inner, 0, m) {
                        Err(e) => Err(e),
                        Ok(operands) => Ok(DataRangeView::DataUnionOf(operands)),
                    }
                },
                Rule::DataComplementOf => {
                    match inner.spec_child(0) {
                        Err(e) => Err(e),
                        Ok(operand) => match DataRange::lowered(operand, m) {
                            Err(e) => Err(e),
                            Ok(dr) => Ok(DataRangeView::DataComplementOf(Box::new(dr))),
                        },
                    }
                },
                Rule::DataOneOf => {
                    match Literal::lowered_all(inner, 0, m) {
                        Err(e) => Err(e),
                        Ok(literals) => Ok(DataRangeView::DataOneOf(literals)),
                    }
                },
                Rule::DatatypeRestriction => {
                    match inner.spec_child(0) {
                        Err(e) => Err(e),
                        Ok(base) => match Datatype::lowered(base, m) {
                            Err(e) => Err(e),
                            Ok(d) => match FacetRestriction::lowered_all(inner, 1, m) {
                                Err(e) => Err(e),
                                Ok(restrictions) => {
                                    Ok(DataRangeView::DatatypeRestriction(d, restrictions))
                                },
                            },
                        },
                    }
                },
                _ => Err(HornedError::unexpected(inner.rule, inner.span)),
            },
        }
    }

    /// Lowers a data-range node without looking at its rule.
    pub fn from_pair_unchecked(
        node: &ParseNode,
        ctx: &mut Context,
    ) -> (r: Result<DataRange, HornedError>)
        ensures
            outcome(r) == DataRange::lowered_unchecked(*node, old(ctx).mapping@),
            old(ctx).grows_to(*final(ctx)),
        decreases node, 0int,
    {
        let inner = node.child(0)?;
        match inner.rule {
            Rule::Datatype => {
                let d = Datatype::from_pair(inner, ctx)?;
                Ok(DataRange::Datatype(d))
            },
            Rule::DataIntersectionOf => {
                let operands = DataRange::from_pairs(inner, 0, ctx)?;
                Ok(DataRange::DataIntersectionOf(operands))
            },
            Rule::DataUnionOf => {
                let operands = DataRange::from_pairs(inner, 0, ctx)?;
                Ok(DataRange::DataUnionOf(operands))
            },
            Rule::DataComplementOf => {
                let operand = inner.child(0)?;
                let dr = DataRange::from_pair(operand, ctx)?;
                Ok(DataRange::DataComplementOf(Box::new(dr)))
            },
            Rule::DataOneOf => {
                let literals = Literal::from_pairs(inner, 0, ctx)?;
                Ok(DataRange::DataOneOf(literals))
            },
            Rule::DatatypeRestriction => {
                let base = inner.child(0)?;
                let d = Datatype::from_pair(base, ctx)?;
                let restrictions = FacetRestriction::from_pairs(inner, 1, ctx)?;
                Ok(DataRange::DatatypeRestriction(d, restrictions))
            },
            _ => Err(
                HornedError::ParseError {
                    positives: Some(inner.rule),
                    negatives: None,
                    span: inner.span,
                },
            ),
        }
    }

    /// What a data-range node stands for.
    pub open spec fn lowered(
        node: ParseNode,
        m: PrefixMapView,
    ) -> Result<DataRangeView, HornedError>
        decreases node, 1int,
    {
        match node.spec_expect(Rule::DataRange) {
            Err(e) => Err(e),
            Ok(_) => DataRange::lowered_unchecked(node, m),
        }
    }

    /// Lowers a data-range node.
    pub fn from_pair(node: &ParseNode, ctx: &mut Context) -> (r: Result<DataRange, HornedError>)
        ensures
            outcome(r) == DataRange::lowered(*node, old(ctx).mapping@),
            old(ctx).grows_to(*final(ctx)),
        decreases node, 1int,
    {
        node.expect(Rule::DataRange)?;
        DataRange::from_pair_unchecked(node, ctx)
    }

    /// What each child of `node` from position `from` on stands for, taken as
    /// a data-range node.
    pub open spec fn outcomes(node: ParseNode, from: int, m: PrefixMapView) -> Seq<
        Result<DataRangeView, HornedError>,
    >
        decreases node, 0int,
    {
        Seq::new(
            remaining(node, from),
            |i: int|
                if 0 <= i < remaining(node, from) {
                    DataRange::lowered(node.children@[from + i], m)
                } else {
                    arbitrary()
                },
        )
    }

    /// What the children of `node` from position `from` on stand for, each of
    /// them a data-range node: the values of all of them in order, or the first
    /// error among them.
    pub open spec fn lowered_all(node: ParseNode, from: int, m: PrefixMapView) -> Result<
        Seq<DataRangeView>,
        HornedError,
    >
        decreases node, 1int,
    {
        collect(DataRange::outcomes(node, from, m))
    }

    /// Lowers the children of `node` from position `from` on, each of them
    /// a data-range node.
    pub fn from_pairs(node: &ParseNode, from: usize, ctx: &mut Context) -> (r: Result<
        Vec<DataRange>,
        HornedError,
    >)
        ensures
            match r {
                Ok(v) => DataRange::lowered_all(*node, from as int, old(ctx).mapping@) == Ok::<
                    Seq<DataRangeView>,
                    HornedError,
                >(DataRange::seq_view(v)),
                Err(e) => DataRange::lowered_all(*node, from as int, old(ctx).mapping@) == Err::<
                    Seq<DataRangeView>,
                    HornedError,
                >(e),
            },
            old(ctx).grows_to(*final(ctx)),
        decreases node, 0int,
    {
        let mut out: Vec<DataRange> = Vec::new();
        let ghost m = old(ctx).mapping@;
        let ghost outcomes = DataRange::outcomes(*node, from as int, m);
        if from >= node.children.len() {
            assert(DataRange::seq_view(out) =~= Seq::<DataRangeView>::empty());
            return Ok(out);
        }
        let mut i: usize = from;
        proof {
            assert(outcomes.take(0) =~= Seq::<Result<DataRangeView, HornedError>>::empty());
            assert(DataRange::seq_view(out) =~= Seq::<DataRangeView>::empty());
        }
        while i < node.children.len()
            invariant
                from <= i <= node.children.len(),
                m == old(ctx).mapping@,
                old(ctx).grows_to(*ctx),
                outcomes == DataRange::outcomes(*node, from as int, m),
                outcomes.len() == node.children.len() - from,
                forall|k: int|
                    0 <= k < outcomes.len() ==> #[trigger] outcomes[k] == DataRange::lowered(
                        node.children@[from + k],
                        m,
                    ),
                collect(outcomes.take(i - from)) == Ok::<Seq<DataRangeView>, HornedError>(
                    DataRange::seq_view(out),
                ),
            decreases node.children.len() - i,
        {
            let ghost before = DataRange::seq_view(out);
            match DataRange::from_pair(&node.children[i], ctx) {
                Ok(v) => {
                    proof {
                        lemma_collect_value(outcomes, i - from, before, v@);
                    }
                    out.push(v);
                    assert(DataRange::seq_view(out) =~= before.push(v@));
                },
                Err(e) => {
                    proof {
                        lemma_collect_error(outcomes, i - from, e);
                                            }
                    return Err(e);
                },
            }
            i += 1;
        }
        proof {
            lemma_collect_all(outcomes);
        }
        Ok(out)
    }
}

impl ClassExpression {
    /// What an object cardinality restriction counts: the class expression of
    /// its third child or, where it has none, the class `owl:Thing`.
    pub open spec fn lowered_filler(restriction: ParseNode, m: PrefixMapView) -> Result<
        ClassExpressionView,
        HornedError,
    >
        decreases restriction, 2int,
    {
        if restriction.children@.len() > 2 {
            ClassExpression::lowered(restriction.children@[2], m)
        } else {
            Ok(ClassExpressionView::Class(owl_thing()))
        }
    }

    /// Lowers what an object cardinality restriction counts.
    pub fn filler_from_pair(restriction: &ParseNode, ctx: &mut Context) -> (r: Result<
        ClassExpression,
        HornedError,
    >)
        ensures
            outcome(r) == ClassExpression::lowered_filler(*restriction, old(ctx).mapping@),
            old(ctx).grows_to(*final(ctx)),
        decreases restriction, 2int,
    {
        if restriction.children.len() > 2 {
            ClassExpression::from_pair(&restriction.children[2], ctx)
        } else {
            Ok(ClassExpression::Class(Class(ctx.build.iri(OWL_THING))))
        }
    }

    /// What the node of the `ObjectComplementOf` form stands for.
    pub open spec fn lowered_object_complement_of(
        inner: ParseNode,
        m: PrefixMapView,
    ) -> Result<ClassExpressionView, HornedError>
        decreases inner, 3int,
    {
        match inner.spec_child(0) {
            Err(e) => Err(e),
            Ok(operand) => match ClassExpression::lowered(operand, m) {
                Err(e) => Err(e),
                Ok(ce) => Ok(ClassExpressionView::ObjectComplementOf(Box::new(ce))),
            },
        }
    }

    /// Lowers the node of the `ObjectComplementOf` form.
    pub fn object_complement_of_from_pair(
        inner: &ParseNode,
        ctx: &mut Context,
    ) -> (r: Result<ClassExpression, HornedError>)
        ensures
            outcome(r) == ClassExpression::lowered_object_complement_of(*inner, old(ctx).mapping@),
            old(ctx).grows_to(*final(ctx)),
        decreases inner, 3int,
    {
        let operand = inner.child(0)?;
        let ce = ClassExpression::from_pair(operand, ctx)?;
        Ok(ClassExpression::ObjectComplementOf(Box::new(ce)))
    }

    /// What the node of the `ObjectSomeValuesFrom` form stands for.
    pub open spec fn lowered_object_some_values_from(
        inner: ParseNode,
        m: PrefixMapView,
    ) -> Result<ClassExpressionView, HornedError>
        decreases inner, 3int,
    {
        match inner.spec_child(0) {
            Err(e) => Err(e),
            Ok(first) => match ObjectPropertyExpression::lowered(first, m) {
                Err(e) => Err(e),
                Ok(ope) => match inner.spec_child(1) {
                    Err(e) => Err(e),
                    Ok(second) => match ClassExpression::lowered(second, m) {
                        Err(e) => Err(e),
                        Ok(bce) => {
                            Ok(
                                ClassExpressionView::ObjectSomeValuesFrom {
                                    ope,
                                    bce: Box::new(bce),
                                },
                            )
                        },
                    },
                },
            },
        }
    }

    /// Lowers the node of the `ObjectSomeValuesFrom` form.
    pub fn object_some_values_from_from_pair(
        inner: &ParseNode,
        ctx: &mut Context,
    ) -> (r: Result<ClassExpression, HornedError>)
        ensures
            outcome(r) == ClassExpression::lowered_object_some_values_from(
                *inner,
                old(ctx).mapping@,
            ),
            old(ctx).grows_to(*final(ctx)),
        decreases inner, 3int,
    {
        let first = inner.child(0)?;
        let ope = ObjectPropertyExpression::from_pair(first, ctx)?;
        let second = inner.child(1)?;
        let bce = ClassExpression::from_pair(second, ctx)?;
        Ok(ClassExpression::ObjectSomeValuesFrom { ope, bce: Box::new(bce) })
    }

    /// What the node of the `ObjectAllValuesFrom` form stands for.
    pub open spec fn lowered_object_all_values_from(
        inner: ParseNode,
        m: PrefixMapView,
    ) -> Result<ClassExpressionView, HornedError>
        decreases inner, 3int,
    {
        match inner.spec_child(0) {
            Err(e) => Err(e),
            Ok(first) => match ObjectPropertyExpression::lowered(first, m) {
                Err(e) => Err(e),
                Ok(ope) => match inner.spec_child(1) {
                    Err(e) => Err(e),
                    Ok(second) => match ClassExpression::lowered(second, m) {
                        Err(e) => Err(e),
                        Ok(bce) => {
                            Ok(ClassExpressionView::ObjectAllValuesFrom { ope, bce: Box::new(bce) })
                        },
                    },
                },
            },
        }
    }

    /// Lowers the node of the `ObjectAllValuesFrom` form.
    pub fn object_all_values_from_from_pair(
        inner: &ParseNode,
        ctx: &mut Context,
    ) -> (r: Result<ClassExpression, HornedError>)
        ensures
            outcome(r) == ClassExpression::lowered_object_all_values_from(
                *inner,
                old(ctx).mapping@,
            ),
            old(ctx).grows_to(*final(ctx)),
        decreases inner, 3int,
    {
        let first = inner.child(0)?;
        let ope = ObjectPropertyExpression::from_pair(first, ctx)?;
        let second = inner.child(1)?;
        let bce = ClassExpression::from_pair(second, ctx)?;
        Ok(ClassExpression::ObjectAllValuesFrom { ope, bce: Box::new(bce) })
    }

    /// What the node of the `ObjectHasValue` form stands for.
    pub open spec fn lowered_object_has_value(
        inner: ParseNode,
        m: PrefixMapView,
    ) -> Result<ClassExpressionView, HornedError>
        decreases inner, 3int,
    {
        match inner.spec_child(0) {
            Err(e) => Err(e),
            Ok(first) => match ObjectPropertyExpression::lowered(first, m) {
                Err(e) => Err(e),
                Ok(ope) => match inner.spec_child(1) {
                    Err(e) => Err(e),
                    Ok(second) => match Individual::lowered(second, m) {
                        Err(e) => Err(e),
                        Ok(i) => Ok(ClassExpressionView::ObjectHasValue { ope, i }),
                    },
                },
            },
        }
    }

    /// Lowers the node of the `ObjectHasValue` form.
    pub fn object_has_value_from_pair(
        inner: &ParseNode,
        ctx: &mut Context,
    ) -> (r: Result<ClassExpression, HornedError>)
        ensures
            outcome(r) == ClassExpression::lowered_object_has_value(*inner, old(ctx).mapping@),
            old(ctx).grows_to(*final(ctx)),
        decreases inner, 3int,
    {
        let first = inner.child(0)?;
        let ope = ObjectPropertyExpression::from_pair(first, ctx)?;
        let second = inner.child(1)?;
        let i = Individual::from_pair(second, ctx)?;
        Ok(ClassExpression::ObjectHasValue { ope, i })
    }

    /// What the node of the `ObjectHasSelf` form stands for.
    pub open spec fn lowered_object_has_self(
        inner: ParseNode,
        m: PrefixMapView,
    ) -> Result<ClassExpressionView, HornedError>
        decreases inner, 3int,
    {
        match inner.spec_child(0) {
            Err(e) => Err(e),
            Ok(first) => match ObjectPropertyExpression::lowered(first, m) {
                Err(e) => Err(e),
                Ok(ope) => Ok(ClassExpressionView::ObjectHasSelf(ope)),
            },
        }
    }

    /// Lowers the node of the `ObjectHasSelf` form.
    pub fn object_has_self_from_pair(
        inner: &ParseNode,
        ctx: &mut Context,
    ) -> (r: Result<ClassExpression, HornedError>)
        ensures
            outcome(r) == ClassExpression::lowered_object_has_self(*inner, old(ctx).mapping@),
            old(ctx).grows_to(*final(ctx)),
        decreases inner, 3int,
    {
        let first = inner.child(0)?;
        let ope = ObjectPropertyExpression::from_pair(first, ctx)?;
        Ok(ClassExpression::ObjectHasSelf(ope))
    }

    /// What the node of the `ObjectMinCardinality` form stands for.
    pub open spec fn lowered_object_min_cardinality(
        inner: ParseNode,
        m: PrefixMapView,
    ) -> Result<ClassExpressionView, HornedError>
        decreases inner, 3int,
    {
        match inner.spec_child(0) {
            Err(e) => Err(e),
            Ok(first) => match lowered_non_negative_integer(first) {
                Err(e) => Err(e),
                Ok(n) => match inner.spec_child(1) {
                    Err(e) => Err(e),
                    Ok(second) => match ObjectPropertyExpression::lowered(second, m) {
                        Err(e) => Err(e),
                        Ok(ope) => match ClassExpression::lowered_filler(inner, m) {
                            Err(e) => Err(e),
                            Ok(bce) => Ok(
                                ClassExpressionView::ObjectMinCardinality {
                                    n,
                                    ope,
                                    bce: Box::new(bce),
                                },
                            ),
                        },
                    },
                },
            },
        }
    }

    /// Lowers the node of the `ObjectMinCardinality` form.
    pub fn object_min_cardinality_from_pair(
        inner: &ParseNode,
        ctx: &mut Context,
    ) -> (r: Result<ClassExpression, HornedError>)
        ensures
            outcome(r) == ClassExpression::lowered_object_min_cardinality(
                *inner,
                old(ctx).mapping@,
            ),
            old(ctx).grows_to(*final(ctx)),
        decreases inner, 3int,
    {
        let first = inner.child(0)?;
        let n = non_negative_integer_from_pair(first)?;
        let second = inner.child(1)?;
        let ope = ObjectPropertyExpression::from_pair(second, ctx)?;
        let bce = ClassExpression::filler_from_pair(inner, ctx)?;
        Ok(ClassExpression::ObjectMinCardinality { n, ope, bce: Box::new(bce) })
    }

    /// What the node of the `ObjectMaxCardinality` form stands for.
    pub open spec fn lowered_object_max_cardinality(
        inner: ParseNode,
        m: PrefixMapView,
    ) -> Result<ClassExpressionView, HornedError>
        decreases inner, 3int,
    {
        match inner.spec_child(0) {
            Err(e) => Err(e),
            Ok(first) => match lowered_non_negative_integer(first) {
                Err(e) => Err(e),
                Ok(n) => match inner.spec_child(1) {
                    Err(e) => Err(e),
                    Ok(second) => match ObjectPropertyExpression::lowered(second, m) {
                        Err(e) => Err(e),
                        Ok(ope) => match ClassExpression::lowered_filler(inner, m) {
                            Err(e) => Err(e),
                            Ok(bce) => Ok(
                                ClassExpressionView::ObjectMaxCardinality {
                                    n,
                                    ope,
                                    bce: Box::new(bce),
                                },
                            ),
                        },
                    },
                },
            },
        }
    }

    /// Lowers the node of the `ObjectMaxCardinality` form.
    pub fn object_max_cardinality_from_pair(
        inner: &ParseNode,
        ctx: &mut Context,
    ) -> (r: Result<ClassExpression, HornedError>)
        ensures
            outcome(r) == ClassExpression::lowered_object_max_cardinality(
                *inner,
                old(ctx).mapping@,
            ),
            old(ctx).grows_to(*final(ctx)),
        decreases inner, 3int,
    {
        let first = inner.child(0)?;
        let n = non_negative_integer_from_pair(first)?;
        let second = inner.child(1)?;
        let ope = ObjectPropertyExpression::from_pair(second, ctx)?;
        let bce = ClassExpression::filler_from_pair(inner, ctx)?;
        Ok(ClassExpression::ObjectMaxCardinality { n, ope, bce: Box::new(bce) })
    }

    /// What the node of the `ObjectExactCardinality` form stands for.
    pub open spec fn lowered_object_exact_cardinality(
        inner: ParseNode,
        m: PrefixMapView,
    ) -> Result<ClassExpressionView, HornedError>
        decreases inner, 3int,
    {
        match inner.spec_child(0) {
            Err(e) => Err(e),
            Ok(first) => match lowered_non_negative_integer(first) {
                Err(e) => Err(e),
                Ok(n) => match inner.spec_child(1) {
                    Err(e) => Err(e),
                    Ok(second) => match ObjectPropertyExpression::lowered(second, m) {
                        Err(e) => Err(e),
                        Ok(ope) => match ClassExpression::lowered_filler(inner, m) {
                            Err(e) => Err(e),
                            Ok(bce) => Ok(
                                ClassExpressionView::ObjectExactCardinality {
                                    n,
                                    ope,
                                    bce: Box::new(bce),
                                },
                            ),
                        },
                    },
                },
            },
        }
    }

    /// Lowers the node of the `ObjectExactCardinality` form.
    pub fn object_exact_cardinality_from_pair(
        inner: &ParseNode,
        ctx: &mut Context,
    ) -> (r: Result<ClassExpression, HornedError>)
        ensures
            outcome(r) == ClassExpression::lowered_object_exact_cardinality(
                *inner,
                old(ctx).mapping@,
            ),
            old(ctx).grows_to(*final(ctx)),
        decreases inner, 3int,
    {
        let first = inner.child(0)?;
        let n = non_negative_integer_from_pair(first)?;
        let second = inner.child(1)?;
        let ope = ObjectPropertyExpression::from_pair(second, ctx)?;
        let bce = ClassExpression::filler_from_pair(inner, ctx)?;
        Ok(ClassExpression::ObjectExactCardinality { n, ope, bce: Box::new(bce) })
    }

    /// What the node of the `DataSomeValuesFrom` form stands for.
    pub open spec fn lowered_data_some_values_from(
        inner: ParseNode,
        m: PrefixMapView,
    ) -> Result<ClassExpressionView, HornedError>
        decreases inner, 3int,
    {
        match inner.spec_child(0) {
            Err(e) => Err(e),
            Ok(first) => match DataProperty::lowered(first, m) {
                Err(e) => Err(e),
                Ok(dp) => match inner.spec_child(1) {
                    Err(e) => Err(e),
                    Ok(second) => match DataRange::lowered_unchained(second, m) {
                        Err(e) => Err(e),
                        Ok(dr) => Ok(ClassExpressionView::DataSomeValuesFrom { dp, dr }),
                    },
                },
            },
        }
    }

    /// Lowers the node of the `DataSomeValuesFrom` form.
    pub fn data_some_values_from_from_pair(
        inner: &ParseNode,
        ctx: &mut Context,
    ) -> (r: Result<ClassExpression, HornedError>)
        ensures
            outcome(r) == ClassExpression::lowered_data_some_values_from(*inner, old(ctx).mapping@),
            old(ctx).grows_to(*final(ctx)),
        decreases inner, 3int,
    {
        let first = inner.child(0)?;
        let dp = DataProperty::from_pair(first, ctx)?;
        let second = inner.child(1)?;
        let dr = DataRange::from_pair_unchained(second, ctx)?;
        Ok(ClassExpression::DataSomeValuesFrom { dp, dr })
    }

    /// What the node of the `DataAllValuesFrom` form stands for.
    pub open spec fn lowered_data_all_values_from(
        inner: ParseNode,
        m: PrefixMapView,
    ) -> Result<ClassExpressionView, HornedError>
        decreases inner, 3int,
    {
        match inner.spec_child(0) {
            Err(e) => Err(e),
            Ok(first) => match DataProperty::lowered(first, m) {
                Err(e) => Err(e),
                Ok(dp) => match inner.spec_child(1) {
                    Err(e) => Err(e),
                    Ok(second) => match DataRange::lowered_unchained(second, m) {
                        Err(e) => Err(e),
                        Ok(dr) => Ok(ClassExpressionView::DataAllValuesFrom { dp, dr }),
                    },
                },
            },
        }
    }

    /// Lowers the node of the `DataAllValuesFrom` form.
    pub fn data_all_values_from_from_pair(
        inner: &ParseNode,
        ctx: &mut Context,
    ) -> (r: Result<ClassExpression, HornedError>)
        ensures
            outcome(r) == ClassExpression::lowered_data_all_values_from(*inner, old(ctx).mapping@),
            old(ctx).grows_to(*final(ctx)),
        decreases inner, 3int,
    {
        let first = inner.child(0)?;
        let dp = DataProperty::from_pair(first, ctx)?;
        let second = inner.child(1)?;
        let dr = DataRange::from_pair_unchained(second, ctx)?;
        Ok(ClassExpression::DataAllValuesFrom { dp, dr })
    }

    /// What the node of the `DataHasValue` form stands for.
    pub open spec fn lowered_data_has_value(
        inner: ParseNode,
        m: PrefixMapView,
    ) -> Result<ClassExpressionView, HornedError>
        decreases inner, 3int,
    {
        match inner.spec_child(0) {
            Err(e) => Err(e),
            Ok(first) => match DataProperty::lowered(first, m) {
                Err(e) => Err(e),
                Ok(dp) => match inner.spec_child(1) {
                    Err(e) => Err(e),
                    Ok(second) => match Literal::lowered(second, m) {
                        Err(e) => Err(e),
                        Ok(l) => Ok(ClassExpressionView::DataHasValue { dp, l }),
                    },
                },
            },
        }
    }

    /// Lowers the node of the `DataHasValue` form.
    pub fn data_has_value_from_pair(
        inner: &ParseNode,
        ctx: &mut Context,
    ) -> (r: Result<ClassExpression, HornedError>)
        ensures
            outcome(r) == ClassExpression::lowered_data_has_value(*inner, old(ctx).mapping@),
            old(ctx).grows_to(*final(ctx)),
        decreases inner, 3int,
    {
        let first = inner.child(0)?;
        let dp = DataProperty::from_pair(first, ctx)?;
        let second = inner.child(1)?;
        let l = Literal::from_pair(second, ctx)?;
        Ok(ClassExpression::DataHasValue { dp, l })
    }

    /// What the node of the `DataMinCardinality` form stands for.
    pub open spec fn lowered_data_min_cardinality(
        inner: ParseNode,
        m: PrefixMapView,
    ) -> Result<ClassExpressionView, HornedError>
        decreases inner, 3int,
    {
        match inner.spec_child(0) {
            Err(e) => Err(e),
            Ok(first) => match lowered_non_negative_integer(first) {
                Err(e) => Err(e),
                Ok(n) => match inner.spec_child(1) {
                    Err(e) => Err(e),
                    Ok(second) => match DataProperty::lowered(second, m) {
                        Err(e) => Err(e),
                        Ok(dp) => match DataRange::lowered_filler(inner, m) {
                            Err(e) => Err(e),
                            Ok(dr) => Ok(ClassExpressionView::DataMinCardinality { n, dp, dr }),
                        },
                    },
                },
            },
        }
    }

    /// Lowers the node of the `DataMinCardinality` form.
    pub fn data_min_cardinality_from_pair(
        inner: &ParseNode,
        ctx: &mut Context,
    ) -> (r: Result<ClassExpression, HornedError>)
        ensures
            outcome(r) == ClassExpression::lowered_data_min_cardinality(*inner, old(ctx).mapping@),
            old(ctx).grows_to(*final(ctx)),
        decreases inner, 3int,
    {
        let first = inner.child(0)?;
        let n = non_negative_integer_from_pair(first)?;
        let second = inner.child(1)?;
        let dp = DataProperty::from_pair(second, ctx)?;
        let dr = DataRange::filler_from_pair(inner, ctx)?;
        Ok(ClassExpression::DataMinCardinality { n, dp, dr })
    }

    /// What the node of the `DataMaxCardinality` form stands for.
    pub open spec fn lowered_data_max_cardinality(
        inner: ParseNode,
        m: PrefixMapView,
    ) -> Result<ClassExpressionView, HornedError>
        decreases inner, 3int,
    {
        match inner.spec_child(0) {
            Err(e) => Err(e),
            Ok(first) => match lowered_non_negative_integer(first) {
                Err(e) => Err(e),
                Ok(n) => match inner.spec_child(1) {
                    Err(e) => Err(e),
                    Ok(second) => match DataProperty::lowered(second, m) {
                        Err(e) => Err(e),
                        Ok(dp) => match DataRange::lowered_filler(inner, m) {
                            Err(e) => Err(e),
                            Ok(dr) => Ok(ClassExpressionView::DataMaxCardinality { n, dp, dr }),
                        },
                    },
                },
            },
        }
    }

    /// Lowers the node of the `DataMaxCardinality` form.
    pub fn data_max_cardinality_from_pair(
        inner: &ParseNode,
        ctx: &mut Context,
    ) -> (r: Result<ClassExpression, HornedError>)
        ensures
            outcome(r) == ClassExpression::lowered_data_max_cardinality(*inner, old(ctx).mapping@),
            old(ctx).grows_to(*final(ctx)),
        decreases inner, 3int,
    {
        let first = inner.child(0)?;
        let n = non_negative_integer_from_pair(first)?;
        let second = inner.child(1)?;
        let dp = DataProperty::from_pair(second, ctx)?;
        let dr = DataRange::filler_from_pair(inner, ctx)?;
        Ok(ClassExpression::DataMaxCardinality { n, dp, dr })
    }

    /// What the node of the `DataExactCardinality` form stands for.
    pub open spec fn lowered_data_exact_cardinality(
        inner: ParseNode,
        m: PrefixMapView,
    ) -> Result<ClassExpressionView, HornedError>
        decreases inner, 3int,
    {
        match inner.spec_child(0) {
            Err(e) => Err(e),
            Ok(first) => match lowered_non_negative_integer(first) {
                Err(e) => Err(e),
                Ok(n) => match inner.spec_child(1) {
                    Err(e) => Err(e),
                    Ok(second) => match DataProperty::lowered(second, m) {
                        Err(e) => Err(e),
                        Ok(dp) => match DataRange::lowered_filler(inner, m) {
                            Err(e) => Err(e),
                            Ok(dr) => Ok(ClassExpressionView::DataExactCardinality { n, dp, dr }),
                        },
                    },
                },
            },
        }
    }

    /// Lowers the node of the `DataExactCardinality` form.
    pub fn data_exact_cardinality_from_pair(
        inner: &ParseNode,
        ctx: &mut Context,
    ) -> (r: Result<ClassExpression, HornedError>)
        ensures
            outcome(r) == ClassExpression::lowered_data_exact_cardinality(
                *inner,
                old(ctx).mapping@,
            ),
            old(ctx).grows_to(*final(ctx)),
        decreases inner, 3int,
    {
        let first = inner.child(0)?;
        let n = non_negative_integer_from_pair(first)?;
        let second = inner.child(1)?;
        let dp = DataProperty::from_pair(second, ctx)?;
        let dr = DataRange::filler_from_pair(inner, ctx)?;
        Ok(ClassExpression::DataExactCardinality { n, dp, dr })
    }

    /// What a class-expression node stands for, its rule taken for granted. Its
    /// only child decides the form; the operands are the children of that child.
    /// A cardinality restriction without a third operand counts `owl:Thing` or
    /// `rdfs:Literal`. A data property in the place of the data range of a
    /// quantified data restriction, which would start a chain of data properties,
    /// is not supported.
    pub open spec fn lowered_unchecked(
        node: ParseNode,
        m: PrefixMapView,
    ) -> Result<ClassExpressionView, HornedError>
        decreases node, 0int,
    {
        match node.spec_child(0) {
            Err(e) => Err(e),
            Ok(inner) => match inner.rule {
                Rule::Class => {
                    match Class::lowered(inner, m) {
                        Err(e) => Err(e),
                        Ok(c) => Ok(ClassExpressionView::Class(c)),
                    }
                },
                Rule::ObjectIntersectionOf => {
                    match ClassExpression::lowered_all(inner, 0, m) {
                        Err(e) => Err(e),
                        Ok(operands) => Ok(ClassExpressionView::ObjectIntersectionOf(operands)),
                    }
                },
                Rule::ObjectUnionOf => {
                    match ClassExpression::lowered_all(inner, 0, m) {
                        Err(e) => Err(e),
                        Ok(operands) => Ok(ClassExpressionView::ObjectUnionOf(operands)),
                    }
                },
                Rule::ObjectComplementOf => ClassExpression::lowered_object_complement_of(inner, m),
                Rule::ObjectOneOf => {
                    match Individual::lowered_all(inner, 0, m) {
                        Err(e) => Err(e),
                        Ok(individuals) => Ok(ClassExpressionView::ObjectOneOf(individuals)),
                    }
                },
                Rule::ObjectSomeValuesFrom => {
                    ClassExpression::lowered_object_some_values_from(inner, m)
                },
                Rule::ObjectAllValuesFrom => {
                    ClassExpression::lowered_object_all_values_from(inner, m)
                },
                Rule::ObjectHasValue => ClassExpression::lowered_object_has_value(inner, m),
                Rule::ObjectHasSelf => ClassExpression::lowered_object_has_self(inner, m),
                Rule::ObjectMinCardinality => {
                    ClassExpression::lowered_object_min_cardinality(inner, m)
                },
                Rule::ObjectMaxCardinality => {
                    ClassExpression::lowered_object_max_cardinality(inner, m)
                },
                Rule::ObjectExactCardinality => {
                    ClassExpression::lowered_object_exact_cardinality(inner, m)
                },
                Rule::DataSomeValuesFrom => {
                    ClassExpression::lowered_data_some_values_from(inner, m)
                },
                Rule::DataAllValuesFrom => ClassExpression::lowered_data_all_values_from(inner, m),
                Rule::DataHasValue => ClassExpression::lowered_data_has_value(inner, m),
                Rule::DataMinCardinality => ClassExpression::lowered_data_min_cardinality(inner, m),
                Rule::DataMaxCardinality => ClassExpression::lowered_data_max_cardinality(inner, m),
                Rule::DataExactCardinality => {
                    ClassExpression::lowered_data_exact_cardinality(inner, m)
                },
                _ => Err(HornedError::unexpected(inner.rule, inner.span)),
            },
        }
    }

    /// Lowers a class-expression node without looking at its rule.
    pub fn from_pair_unchecked(
        node: &ParseNode,
        ctx: &mut Context,
    ) -> (r: Result<ClassExpression, HornedError>)
        ensures
            outcome(r) == ClassExpression::lowered_unchecked(*node, old(ctx).mapping@),
            old(ctx).grows_to(*final(ctx)),
        decreases node, 0int,
    {
        let inner = node.child(0)?;
        match inner.rule {
            Rule::Class => {
                let c = Class::from_pair(inner, ctx)?;
                Ok(ClassExpression::Class(c))
            },
            Rule::ObjectIntersectionOf => {
                let operands = ClassExpression::from_pairs(inner, 0, ctx)?;
                Ok(ClassExpression::ObjectIntersectionOf(operands))
            },
            Rule::ObjectUnionOf => {
                let operands = ClassExpression::from_pairs(inner, 0, ctx)?;
                Ok(ClassExpression::ObjectUnionOf(operands))
            },
            Rule::ObjectComplementOf => ClassExpression::object_complement_of_from_pair(inner, ctx),
            Rule::ObjectOneOf => {
                let individuals = Individual::from_pairs(inner, 0, ctx)?;
                Ok(ClassExpression::ObjectOneOf(individuals))
            },
            Rule::ObjectSomeValuesFrom => {
                ClassExpression::object_some_values_from_from_pair(inner, ctx)
            },
            Rule::ObjectAllValuesFrom => {
                ClassExpression::object_all_values_from_from_pair(inner, ctx)
            },
            Rule::ObjectHasValue => ClassExpression::object_has_value_from_pair(inner, ctx),
            Rule::ObjectHasSelf => ClassExpression::object_has_self_from_pair(inner, ctx),
            Rule::ObjectMinCardinality => {
                ClassExpression::object_min_cardinality_from_pair(inner, ctx)
            },
            Rule::ObjectMaxCardinality => {
                ClassExpression::object_max_cardinality_from_pair(inner, ctx)
            },
            Rule::ObjectExactCardinality => {
                ClassExpression::object_exact_cardinality_from_pair(inner, ctx)
            },
            Rule::DataSomeValuesFrom => {
                ClassExpression::data_some_values_from_from_pair(inner, ctx)
            },
            Rule::DataAllValuesFrom => ClassExpression::data_all_values_from_from_pair(inner, ctx),
            Rule::DataHasValue => ClassExpression::data_has_value_from_pair(inner, ctx),
            Rule::DataMinCardinality => ClassExpression::data_min_cardinality_from_pair(inner, ctx),
            Rule::DataMaxCardinality => ClassExpression::data_max_cardinality_from_pair(inner, ctx),
            Rule::DataExactCardinality => {
                ClassExpression::data_exact_cardinality_from_pair(inner, ctx)
            },
            _ => Err(
                HornedError::ParseError {
                    positives: Some(inner.rule),
                    negatives: None,
                    span: inner.span,
                },
            ),
        }
    }

    /// What a class-expression node stands for.
    pub open spec fn lowered(
        node: ParseNode,
        m: PrefixMapView,
    ) -> Result<ClassExpressionView, HornedError>
        decreases node, 1int,
    {
        match node.spec_expect(Rule::ClassExpression) {
            Err(e) => Err(e),
            Ok(_) => ClassExpression::lowered_unchecked(node, m),
        }
    }

    /// Lowers a class-expression node.
    pub fn from_pair(
        node: &ParseNode,
        ctx: &mut Context,
    ) -> (r: Result<ClassExpression, HornedError>)
        ensures
            outcome(r) == ClassExpression::lowered(*node, old(ctx).mapping@),
            old(ctx).grows_to(*final(ctx)),
        decreases node, 1int,
    {
        node.expect(Rule::ClassExpression)?;
        ClassExpression::from_pair_unchecked(node, ctx)
    }

    /// What each child of `node` from position `from` on stands for, taken as
    /// a class-expression node.
    pub open spec fn outcomes(node: ParseNode, from: int, m: PrefixMapView) -> Seq<
        Result<ClassExpressionView, HornedError>,
    >
        decreases node, 0int,
    {
        Seq::new(
            remaining(node, from),
            |i: int|
                if 0 <= i < remaining(node, from) {
                    ClassExpression::lowered(node.children@[from + i], m)
                } else {
                    arbitrary()
                },
        )
    }

    /// What the children of `node` from position `from` on stand for, each of
    /// them a class-expression node: the values of all of them in order, or the first
    /// error among them.
    pub open spec fn lowered_all(node: ParseNode, from: int, m: PrefixMapView) -> Result<
        Seq<ClassExpressionView>,
        HornedError,
    >
        decreases node, 1int,
    {
        collect(ClassExpression::outcomes(node, from, m))
    }

    /// Lowers the children of `node` from position `from` on, each of them
    /// a class-expression node.
    pub fn from_pairs(node: &ParseNode, from: usize, ctx: &mut Context) -> (r: Result<
        Vec<ClassExpression>,
        HornedError,
    >)
        ensures
            match r {
                Ok(v) => ClassExpression::lowered_all(*node, from as int, old(ctx).mapping@) == Ok::<
                    Seq<ClassExpressionView>,
                    HornedError,
                >(ClassExpression::seq_view(v)),
                Err(e) => ClassExpression::lowered_all(*node, from as int, old(ctx).mapping@) == Err::<
                    Seq<ClassExpressionView>,
                    HornedError,
                >(e),
            },
            old(ctx).grows_to(*final(ctx)),
        decreases node, 0int,
    {
        let mut out: Vec<ClassExpression> = Vec::new();
        let ghost m = old(ctx).mapping@;
        let ghost outcomes = ClassExpression::outcomes(*node, from as int, m);
        if from >= node.children.len() {
            assert(ClassExpression::seq_view(out) =~= Seq::<ClassExpressionView>::empty());
            return Ok(out);
        }
        let mut i: usize = from;
        proof {
            assert(outcomes.take(0) =~= Seq::<Result<ClassExpressionView, HornedError>>::empty());
            assert(ClassExpression::seq_view(out) =~= Seq::<ClassExpressionView>::empty());
        }
        while i < node.children.len()
            invariant
                from <= i <= node.children.len(),
                m == old(ctx).mapping@,
                old(ctx).grows_to(*ctx),
                outcomes == ClassExpression::outcomes(*node, from as int, m),
                outcomes.len() == node.children.len() - from,
                forall|k: int|
                    0 <= k < outcomes.len() ==> #[trigger] outcomes[k] == ClassExpression::lowered(
                        node.children@[from + k],
                        m,
                    ),
                collect(outcomes.take(i - from)) == Ok::<Seq<ClassExpressionView>, HornedError>(
                    ClassExpression::seq_view(out),
                ),
            decreases node.children.len() - i,
        {
            let ghost before = ClassExpression::seq_view(out);
            match ClassExpression::from_pair(&node.children[i], ctx) {
                Ok(v) => {
                    proof {
                        lemma_collect_value(outcomes, i - from, before, v@);
                    }
                    out.push(v);
                    assert(ClassExpression::seq_view(out) =~= before.push(v@));
                },
                Err(e) => {
                    proof {
                        lemma_collect_error(outcomes, i - from, e);
                                            }
                    return Err(e);
                },
            }
            i += 1;
        }
        proof {
            lemma_collect_all(outcomes);
        }
        Ok(out)
    }
}

impl DataRange {
    /// What a data cardinality restriction counts: the data range of its
    /// third child or, where it has none, the datatype `rdfs:Literal`.
    pub open spec fn lowered_filler(restriction: ParseNode, m: PrefixMapView) -> Result<
        DataRangeView,
        HornedError,
    > {
        if restriction.children@.len() > 2 {
            DataRange::lowered(restriction.children@[2], m)
        } else {
            Ok(DataRangeView::Datatype(rdfs_literal()))
        }
    }

    /// Lowers what a data cardinality restriction counts.
    pub fn filler_from_pair(restriction: &ParseNode, ctx: &mut Context) -> (r: Result<
        DataRange,
        HornedError,
    >)
        ensures
            outcome(r) == DataRange::lowered_filler(*restriction, old(ctx).mapping@),
            old(ctx).grows_to(*final(ctx)),
    {
        if restriction.children.len() > 2 {
            DataRange::from_pair(&restriction.children[2], ctx)
        } else {
            Ok(DataRange::Datatype(Datatype(ctx.build.iri(RDFS_LITERAL))))
        }
    }

    /// What the second operand of a quantified data restriction stands for: a
    /// data range. A data property there would start a chain of data
    /// properties, which is not supported.
    pub open spec fn lowered_unchained(node: ParseNode, m: PrefixMapView) -> Result<
        DataRangeView,
        HornedError,
    > {
        if node.rule == Rule::DataProperty {
            Err(HornedError::UnsupportedConstruct(node.span))
        } else {
            DataRange::lowered(node, m)
        }
    }

    /// Lowers the second operand of a quantified data restriction.
    pub fn from_pair_unchained(node: &ParseNode, ctx: &mut Context) -> (r: Result<
        DataRange,
        HornedError,
    >)
        ensures
            outcome(r) == DataRange::lowered_unchained(*node, old(ctx).mapping@),
            old(ctx).grows_to(*final(ctx)),
    {
        if node.rule == Rule::DataProperty {
            Err(HornedError::UnsupportedConstruct(node.span))
        } else {
            DataRange::from_pair(node, ctx)
        }
    }
}

/// Whether `rule` is one of the three object cardinality forms.
pub open spec fn is_object_cardinality(rule: Rule) -> bool {
    rule == Rule::ObjectMinCardinality || rule == Rule::ObjectMaxCardinality || rule
        == Rule::ObjectExactCardinality
}

/// Whether `rule` is one of the three data cardinality forms.
pub open spec fn is_data_cardinality(rule: Rule) -> bool {
    rule == Rule::DataMinCardinality || rule == Rule::DataMaxCardinality || rule
        == Rule::DataExactCardinality
}

/// An object cardinality restriction that is written without the class that
/// it counts is lowered, if it is lowered at all, to the restriction of its
/// form that counts `owl:Thing`.
pub proof fn lemma_object_cardinality_default(node: ParseNode, m: PrefixMapView)
    requires
        node.rule == Rule::ClassExpression,
        node.children@.len() > 0,
        is_object_cardinality(node.children@[0].rule),
        node.children@[0].children@.len() == 2,
        ClassExpression::lowered(node, m) is Ok,
    ensures
        match ClassExpression::lowered(node, m)->Ok_0 {
            ClassExpressionView::ObjectMinCardinality { bce, .. } => node.children@[0].rule
                == Rule::ObjectMinCardinality && *bce == ClassExpressionView::Class(owl_thing()),
            ClassExpressionView::ObjectMaxCardinality { bce, .. } => node.children@[0].rule
                == Rule::ObjectMaxCardinality && *bce == ClassExpressionView::Class(owl_thing()),
            ClassExpressionView::ObjectExactCardinality { bce, .. } => node.children@[0].rule
                == Rule::ObjectExactCardinality && *bce == ClassExpressionView::Class(owl_thing()),
            _ => false,
        },
{
    reveal_with_fuel(ClassExpression::lowered, 4);
    reveal_with_fuel(ClassExpression::lowered_unchecked, 4);
    reveal_with_fuel(ClassExpression::lowered_object_min_cardinality, 4);
    reveal_with_fuel(ClassExpression::lowered_object_max_cardinality, 4);
    reveal_with_fuel(ClassExpression::lowered_object_exact_cardinality, 4);
    reveal_with_fuel(ClassExpression::lowered_filler, 4);
}

/// A data cardinality restriction that is written without the data range
/// that it counts is lowered, if it is lowered at all, to the restriction of
/// its form that counts `rdfs:Literal`.
pub proof fn lemma_data_cardinality_default(node: ParseNode, m: PrefixMapView)
    requires
        node.rule == Rule::ClassExpression,
        node.children@.len() > 0,
        is_data_cardinality(node.children@[0].rule),
        node.children@[0].children@.len() == 2,
        ClassExpression::lowered(node, m) is Ok,
    ensures
        match ClassExpression::lowered(node, m)->Ok_0 {
            ClassExpressionView::DataMinCardinality { dr, .. } => node.children@[0].rule
                == Rule::DataMinCardinality && dr == DataRangeView::Datatype(rdfs_literal()),
            ClassExpressionView::DataMaxCardinality { dr, .. } => node.children@[0].rule
                == Rule::DataMaxCardinality && dr == DataRangeView::Datatype(rdfs_literal()),
            ClassExpressionView::DataExactCardinality { dr, .. } => node.children@[0].rule
                == Rule::DataExactCardinality && dr == DataRangeView::Datatype(rdfs_literal()),
            _ => false,
        },
{
    reveal_with_fuel(ClassExpression::lowered, 4);
    reveal_with_fuel(ClassExpression::lowered_unchecked, 4);
}

} // verus!
