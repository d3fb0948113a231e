//! Lowering of annotations.

use vstd::prelude::*;
use crate::error::outcome;
use crate::error::HornedError;
use crate::parse_tree::remaining;
use crate::parse_tree::ParseNode;
use crate::parse_tree::Rule;
use crate::prefix::PrefixMapView;
use crate::reader::collect::collect;
use crate::reader::collect::lemma_collect_all;
use crate::reader::collect::lemma_collect_error;
use crate::reader::collect::lemma_collect_value;
use crate::reader::context::Context;
use crate::model::annotation::Annotation;
use crate::model::annotation::AnnotationSet;
use crate::model::annotation::AnnotationSubject;
use crate::model::annotation::AnnotationSubjectView;
use crate::model::annotation::AnnotationValue;
use crate::model::annotation::AnnotationValueView;
use crate::model::annotation::AnnotationView;
use crate::model::entity::AnnotationProperty;
use crate::model::entity::AnonymousIndividual;
use crate::model::expression::Literal;
use crate::model::iri::IRI;

verus! {

impl AnnotationValue {
    /// What an annotation-value node stands for, its rule taken for granted: the
    /// IRI, literal or anonymous individual that its only child is.
    pub open spec fn lowered_unchecked(
        node: ParseNode,
        m: PrefixMapView,
    ) -> Result<AnnotationValueView, HornedError> {
        match node.spec_child(0) {
            Err(e) => Err(e),
            Ok(inner) => match inner.rule {
                Rule::IRI => {
                    match IRI::lowered(inner, m) {
                        Err(e) => Err(e),
                        Ok(i) => Ok(AnnotationValueView::IRI(i)),
                    }
                },
                Rule::Literal => {
                    match Literal::lowered(inner, m) {
                        Err(e) => Err(e),
                        Ok(l) => Ok(AnnotationValueView::Literal(l)),
                    }
                },
                Rule::AnonymousIndividual => {
                    match AnonymousIndividual::lowered(inner, m) {
                        Err(e) => Err(e),
                        Ok(a) => Ok(AnnotationValueView::AnonymousIndividual(a)),
                    }
                },
                _ => Err(HornedError::unexpected(inner.rule, inner.span)),
            },
        }
    }

    /// Lowers an annotation-value node without looking at its rule.
    pub fn from_pair_unchecked(
        node: &ParseNode,
        ctx: &mut Context,
    ) -> (r: Result<AnnotationValue, HornedError>)
        ensures
            outcome(r) == AnnotationValue::lowered_unchecked(*node, old(ctx).mapping@),
            old(ctx).grows_to(*final(ctx)),
    {
        let inner = node.child(0)?;
        match inner.rule {
            Rule::IRI => {
                let i = IRI::from_pair(inner, ctx)?;
                Ok(AnnotationValue::IRI(i))
            },
            Rule::Literal => {
                let l = Literal::from_pair(inner, ctx)?;
                Ok(AnnotationValue::Literal(l))
            },
            Rule::AnonymousIndividual => {
                let a = AnonymousIndividual::from_pair(inner, ctx)?;
                Ok(AnnotationValue::AnonymousIndividual(a))
            },
            _ => Err(
                HornedError::ParseError {
                    positives: Some(inner.rule),
                    negatives: None,
                    span: inner.span,
                },
            ),
        }
    }

    /// What an annotation-value node stands for.
    pub open spec fn lowered(
        node: ParseNode,
        m: PrefixMapView,
    ) -> Result<AnnotationValueView, HornedError> {
        match node.spec_expect(Rule::AnnotationValue) {
            Err(e) => Err(e),
            Ok(_) => AnnotationValue::lowered_unchecked(node, m),
        }
    }

    /// Lowers an annotation-value node.
    pub fn from_pair(
        node: &ParseNode,
        ctx: &mut Context,
    ) -> (r: Result<AnnotationValue, HornedError>)
        ensures
            outcome(r) == AnnotationValue::lowered(*node, old(ctx).mapping@),
            old(ctx).grows_to(*final(ctx)),
    {
        node.expect(Rule::AnnotationValue)?;
        AnnotationValue::from_pair_unchecked(node, ctx)
    }
}

impl AnnotationSubject {
    /// What an annotation-subject node stands for, its rule taken for granted:
    /// the IRI or anonymous individual that its only child is.
    pub open spec fn lowered_unchecked(
        node: ParseNode,
        m: PrefixMapView,
    ) -> Result<AnnotationSubjectView, HornedError> {
        match node.spec_child(0) {
            Err(e) => Err(e),
            Ok(inner) => match inner.rule {
                Rule::IRI => {
                    match IRI::lowered(inner, m) {
                        Err(e) => Err(e),
                        Ok(i) => Ok(AnnotationSubjectView::IRI(i)),
                    }
                },
                Rule::AnonymousIndividual => {
                    match AnonymousIndividual::lowered(inner, m) {
                        Err(e) => Err(e),
                        Ok(a) => Ok(AnnotationSubjectView::AnonymousIndividual(a)),
                    }
                },
                _ => Err(HornedError::unexpected(inner.rule, inner.span)),
            },
        }
    }

    /// Lowers an annotation-subject node without looking at its rule.
    pub fn from_pair_unchecked(
        node: &ParseNode,
        ctx: &mut Context,
    ) -> (r: Result<AnnotationSubject, HornedError>)
        ensures
            outcome(r) == AnnotationSubject::lowered_unchecked(*node, old(ctx).mapping@),
            old(ctx).grows_to(*final(ctx)),
    {
        let inner = node.child(0)?;
        match inner.rule {
            Rule::IRI => {
                let i = IRI::from_pair(inner, ctx)?;
                Ok(AnnotationSubject::IRI(i))
            },
            Rule::AnonymousIndividual => {
                let a = AnonymousIndividual::from_pair(inner, ctx)?;
                Ok(AnnotationSubject::AnonymousIndividual(a))
            },
            _ => Err(
                HornedError::ParseError {
                    positives: Some(inner.rule),
                    negatives: None,
                    span: inner.span,
                },
            ),
        }
    }

    /// What an annotation-subject node stands for.
    pub open spec fn lowered(
        node: ParseNode,
        m: PrefixMapView,
    ) -> Result<AnnotationSubjectView, HornedError> {
        match node.spec_expect(Rule::AnnotationSubject) {
            Err(e) => Err(e),
            Ok(_) => AnnotationSubject::lowered_unchecked(node, m),
        }
    }

    /// Lowers an annotation-subject node.
    pub fn from_pair(
        node: &ParseNode,
        ctx: &mut Context,
    ) -> (r: Result<AnnotationSubject, HornedError>)
        ensures
            outcome(r) == AnnotationSubject::lowered(*node, old(ctx).mapping@),
            old(ctx).grows_to(*final(ctx)),
    {
        node.expect(Rule::AnnotationSubject)?;
        AnnotationSubject::from_pair_unchecked(node, ctx)
    }
}

impl Annotation {
    /// What an annotation node stands for, its rule taken for granted: the
    /// property of its second child with the value of its third. Its first child
    /// holds the annotations made on this annotation: they are lowered, so that
    /// an error in them is found, and then left out.
    pub open spec fn lowered_unchecked(
        node: ParseNode,
        m: PrefixMapView,
    ) -> Result<AnnotationView, HornedError>
        decreases node, 0int,
    {
        match node.spec_child(0) {
            Err(e) => Err(e),
            Ok(first) => match AnnotationSet::lowered(first, m) {
                Err(e) => Err(e),
                Ok(_nested) => match node.spec_child(1) {
                    Err(e) => Err(e),
                    Ok(second) => match AnnotationProperty::lowered(second, m) {
                        Err(e) => Err(e),
                        Ok(ap) => match node.spec_child(2) {
                            Err(e) => Err(e),
                            Ok(third) => match AnnotationValue::lowered(third, m) {
                                Err(e) => Err(e),
                                Ok(av) => Ok(AnnotationView { ap, av }),
                            },
                        },
                    },
                },
            },
        }
    }

    /// Lowers an annotation node without looking at its rule.
    pub fn from_pair_unchecked(
        node: &ParseNode,
        ctx: &mut Context,
    ) -> (r: Result<Annotation, HornedError>)
        ensures
            outcome(r) == Annotation::lowered_unchecked(*node, old(ctx).mapping@),
            old(ctx).grows_to(*final(ctx)),
        decreases node, 0int,
    {
        let first = node.child(0)?;
        let _nested = AnnotationSet::from_pair(first, ctx)?;
        let second = node.child(1)?;
        let ap = AnnotationProperty::from_pair(second, ctx)?;
        let third = node.child(2)?;
        let av = AnnotationValue::from_pair(third, ctx)?;
        Ok(Annotation { ap, av })
    }

    /// What an annotation node stands for.
    pub open spec fn lowered(
        node: ParseNode,
        m: PrefixMapView,
    ) -> Result<AnnotationView, HornedError>
        decreases node, 1int,
    {
        match node.spec_expect(Rule::Annotation) {
            Err(e) => Err(e),
            Ok(_) => Annotation::lowered_unchecked(node, m),
        }
    }

    /// Lowers an annotation node.
    pub fn from_pair(node: &ParseNode, ctx: &mut Context) -> (r: Result<Annotation, HornedError>)
        ensures
            outcome(r) == Annotation::lowered(*node, old(ctx).mapping@),
            old(ctx).grows_to(*final(ctx)),
        decreases node, 1int,
    {
        node.expect(Rule::Annotation)?;
        Annotation::from_pair_unchecked(node, ctx)
    }

    /// What each child of `node` from position `from` on stands for, taken as
    /// an annotation node.
    pub open spec fn outcomes(node: ParseNode, from: int, m: PrefixMapView) -> Seq<
        Result<AnnotationView, HornedError>,
    >
        decreases node, 0int,
    {
        Seq::new(
            remaining(node, from),
            |i: int|
                if 0 <= i < remaining(node, from) {
                    Annotation::lowered(node.children@[from + i], m)
                } else {
                    arbitrary()
                },
        )
    }

    /// What the children of `node` from position `from` on stand for, each of
    /// them an annotation node: the values of all of them in order, or the first
    /// error among them.
    pub open spec fn lowered_all(node: ParseNode, from: int, m: PrefixMapView) -> Result<
        Seq<AnnotationView>,
        HornedError,
    >
        decreases node, 1int,
    {
        collect(Annotation::outcomes(node, from, m))
    }

    /// Lowers the children of `node` from position `from` on, each of them
    /// an annotation node.
    pub fn from_pairs(node: &ParseNode, from: usize, ctx: &mut Context) -> (r: Result<
        Vec<Annotation>,
        HornedError,
    >)
        ensures
            match r {
                Ok(v) => Annotation::lowered_all(*node, from as int, old(ctx).mapping@) == Ok::<
                    Seq<AnnotationView>,
                    HornedError,
                >(Annotation::seq_view(v)),
                Err(e) => Annotation::lowered_all(*node, from as int, old(ctx).mapping@) == Err::<
                    Seq<AnnotationView>,
                    HornedError,
                >(e),
            },
            old(ctx).grows_to(*final(ctx)),
        decreases node, 0int,
    {
        let mut out: Vec<Annotation> = Vec::new();
        let ghost m = old(ctx).mapping@;
        let ghost outcomes = Annotation::outcomes(*node, from as int, m);
        if from >= node.children.len() {
            assert(Annotation::seq_view(out) =~= Seq::<AnnotationView>::empty());
            return Ok(out);
        }
        let mut i: usize = from;
        proof {
            assert(outcomes.take(0) =~= Seq::<Result<AnnotationView, HornedError>>::empty());
            assert(Annotation::seq_view(out) =~= Seq::<AnnotationView>::empty());
        }
        while i < node.children.len()
            invariant
                from <= i <= node.children.len(),
                m == old(ctx).mapping@,
                old(ctx).grows_to(*ctx),
                outcomes == Annotation::outcomes(*node, from as int, m),
                outcomes.len() == node.children.len() - from,
                forall|k: int|
                    0 <= k < outcomes.len() ==> #[trigger] outcomes[k] == Annotation::lowered(
                        node.children@[from + k],
                        m,
                    ),
                collect(outcomes.take(i - from)) == Ok::<Seq<AnnotationView>, HornedError>(
                    Annotation::seq_view(out),
                ),
            decreases node.children.len() - i,
        {
            let ghost before = Annotation::seq_view(out);
            match Annotation::from_pair(&node.children[i], ctx) {
                Ok(v) => {
                    proof {
                        lemma_collect_value(outcomes, i - from, before, v@);
                    }
                    out.push(v);
                    assert(Annotation::seq_view(out) =~= before.push(v@));
                },
                Err(e) => {
                    proof {
                        lemma_collect_error(outcomes, i - from, e);
                                            }
                    return Err(e);
                },
            }
            i += 1;
        }
        proof {
            lemma_collect_all(outcomes);
        }
        Ok(out)
    }
}

impl AnnotationSet {
    /// What an annotations node stands for, its rule taken for granted: the
    /// set of the annotations that its children stand for.
    pub open spec fn lowered_unchecked(node: ParseNode, m: PrefixMapView) -> Result<
        Set<AnnotationView>,
        HornedError,
    >
        decreases node, 2int,
    {
        match Annotation::lowered_all(node, 0, m) {
            Err(e) => Err(e),
            Ok(items) => Ok(items.to_set()),
        }
    }

    /// What an annotations node stands for.
    pub open spec fn lowered(node: ParseNode, m: PrefixMapView) -> Result<
        Set<AnnotationView>,
        HornedError,
    >
        decreases node, 3int,
    {
        match node.spec_expect(Rule::Annotations) {
            Err(e) => Err(e),
            Ok(_) => AnnotationSet::lowered_unchecked(node, m),
        }
    }

    /// Lowers an annotations node without looking at its rule.
    pub fn from_pair_unchecked(node: &ParseNode, ctx: &mut Context) -> (r: Result<
        AnnotationSet,
        HornedError,
    >)
        ensures
            outcome(r) == AnnotationSet::lowered_unchecked(*node, old(ctx).mapping@),
            old(ctx).grows_to(*final(ctx)),
        decreases node, 2int,
    {
        let items = Annotation::from_pairs(node, 0, ctx)?;
        Ok(AnnotationSet::from_vec(items))
    }

    /// Lowers an annotations node.
    pub fn from_pair(node: &ParseNode, ctx: &mut Context) -> (r: Result<AnnotationSet, HornedError>)
        ensures
            outcome(r) == AnnotationSet::lowered(*node, old(ctx).mapping@),
            old(ctx).grows_to(*final(ctx)),
        decreases node, 3int,
    {
        node.expect(Rule::Annotations)?;
        AnnotationSet::from_pair_unchecked(node, ctx)
    }
}

} // verus!
