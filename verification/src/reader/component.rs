//! Lowering of declarations and axioms.

use vstd::prelude::*;
use crate::error::outcome;
use crate::error::HornedError;
use crate::parse_tree::ParseNode;
use crate::parse_tree::Rule;
use crate::prefix::PrefixMapView;
use crate::reader::context::Context;
use crate::model::annotation::Annotation;
use crate::model::annotation::AnnotationSet;
use crate::model::annotation::AnnotationSubject;
use crate::model::annotation::AnnotationValue;
use crate::model::annotation::AnnotationView;
use crate::model::component::AnnotatedComponent;
use crate::model::component::AnnotatedComponentView;
use crate::model::component::Component;
use crate::model::component::ComponentView;
use crate::model::component::SubClass;
use crate::model::component::SubClassView;
use crate::model::entity::AnnotationProperty;
use crate::model::entity::Class;
use crate::model::entity::DataProperty;
use crate::model::entity::Datatype;
use crate::model::entity::Individual;
use crate::model::entity::NamedIndividual;
use crate::model::entity::ObjectProperty;
use crate::model::expression::ClassExpression;
use crate::model::expression::DataRange;
use crate::model::expression::Literal;
use crate::model::expression::ObjectPropertyExpression;
use crate::model::expression::PropertyExpression;
use crate::model::expression::SubObjectPropertyExpression;
use crate::model::iri::IRI;

verus! {

impl Component {
    /// What the node of one of the six declaration forms stands for: the
    /// declaration, of the kind that its rule tells, of the entity that its only
    /// child stands for.
    pub open spec fn lowered_declaration(
        node: ParseNode,
        m: PrefixMapView,
    ) -> Result<ComponentView, HornedError> {
        match node.rule {
            Rule::ClassDeclaration => {
                match node.spec_child(0) {
                    Err(e) => Err(e),
                    Ok(entity) => match Class::lowered(entity, m) {
                        Err(e) => Err(e),
                        Ok(e) => Ok(ComponentView::DeclareClass(e)),
                    },
                }
            },
            Rule::DatatypeDeclaration => {
                match node.spec_child(0) {
                    Err(e) => Err(e),
                    Ok(entity) => match Datatype::lowered(entity, m) {
                        Err(e) => Err(e),
                        Ok(e) => Ok(ComponentView::DeclareDatatype(e)),
                    },
                }
            },
            Rule::ObjectPropertyDeclaration => {
                match node.spec_child(0) {
                    Err(e) => Err(e),
                    Ok(entity) => match ObjectProperty::lowered(entity, m) {
                        Err(e) => Err(e),
                        Ok(e) => Ok(ComponentView::DeclareObjectProperty(e)),
                    },
                }
            },
            Rule::DataPropertyDeclaration => {
                match node.spec_child(0) {
                    Err(e) => Err(e),
                    Ok(entity) => match DataProperty::lowered(entity, m) {
                        Err(e) => Err(e),
                        Ok(e) => Ok(ComponentView::DeclareDataProperty(e)),
                    },
                }
            },
            Rule::AnnotationPropertyDeclaration => {
                match node.spec_child(0) {
                    Err(e) => Err(e),
                    Ok(entity) => match AnnotationProperty::lowered(entity, m) {
                        Err(e) => Err(e),
                        Ok(e) => Ok(ComponentView::DeclareAnnotationProperty(e)),
                    },
                }
            },
            Rule::NamedIndividualDeclaration => {
                match node.spec_child(0) {
                    Err(e) => Err(e),
                    Ok(entity) => match NamedIndividual::lowered(entity, m) {
                        Err(e) => Err(e),
                        Ok(e) => Ok(ComponentView::DeclareNamedIndividual(e)),
                    },
                }
            },
            _ => Err(HornedError::unexpected(node.rule, node.span)),
        }
    }

    /// Lowers the node of one of the six declaration forms.
    pub fn declaration_from_pair(
        node: &ParseNode,
        ctx: &mut Context,
    ) -> (r: Result<Component, HornedError>)
        ensures
            outcome(r) == Component::lowered_declaration(*node, old(ctx).mapping@),
            old(ctx).grows_to(*final(ctx)),
    {
        match node.rule {
            Rule::ClassDeclaration => {
                let entity = node.child(0)?;
                let e = Class::from_pair(entity, ctx)?;
                Ok(Component::DeclareClass(e))
            },
            Rule::DatatypeDeclaration => {
                let entity = node.child(0)?;
                let e = Datatype::from_pair(entity, ctx)?;
                Ok(Component::DeclareDatatype(e))
            },
            Rule::ObjectPropertyDeclaration => {
                let entity = node.child(0)?;
                let e = ObjectProperty::from_pair(entity, ctx)?;
                Ok(Component::DeclareObjectProperty(e))
            },
            Rule::DataPropertyDeclaration => {
                let entity = node.child(0)?;
                let e = DataProperty::from_pair(entity, ctx)?;
                Ok(Component::DeclareDataProperty(e))
            },
            Rule::AnnotationPropertyDeclaration => {
                let entity = node.child(0)?;
                let e = AnnotationProperty::from_pair(entity, ctx)?;
                Ok(Component::DeclareAnnotationProperty(e))
            },
            Rule::NamedIndividualDeclaration => {
                let entity = node.child(0)?;
                let e = NamedIndividual::from_pair(entity, ctx)?;
                Ok(Component::DeclareNamedIndividual(e))
            },
            _ => Err(
                HornedError::ParseError {
                    positives: Some(node.rule),
                    negatives: None,
                    span: node.span,
                },
            ),
        }
    }

    /// What an axiom node stands for when its annotations are left out, its
    /// rule taken for granted.
    pub open spec fn lowered_unchecked(
        node: ParseNode,
        m: PrefixMapView,
    ) -> Result<ComponentView, HornedError> {
        match AnnotatedComponent::lowered_unchecked(node, m) {
            Err(e) => Err(e),
            Ok(annotated) => Ok(annotated.component),
        }
    }

    /// Lowers an axiom node without looking at its rule, and leaves its
    /// annotations out.
    pub fn from_pair_unchecked(
        node: &ParseNode,
        ctx: &mut Context,
    ) -> (r: Result<Component, HornedError>)
        ensures
            outcome(r) == Component::lowered_unchecked(*node, old(ctx).mapping@),
            old(ctx).grows_to(*final(ctx)),
    {
        let annotated = AnnotatedComponent::from_pair_unchecked(node, ctx)?;
        Ok(annotated.component)
    }

    /// What an axiom node stands for when its annotations are left out.
    pub open spec fn lowered(
        node: ParseNode,
        m: PrefixMapView,
    ) -> Result<ComponentView, HornedError> {
        match node.spec_expect(Rule::Axiom) {
            Err(e) => Err(e),
            Ok(_) => Component::lowered_unchecked(node, m),
        }
    }

    /// Lowers an axiom node and leaves its annotations out.
    pub fn from_pair(node: &ParseNode, ctx: &mut Context) -> (r: Result<Component, HornedError>)
        ensures
            outcome(r) == Component::lowered(*node, old(ctx).mapping@),
            old(ctx).grows_to(*final(ctx)),
    {
        node.expect(Rule::Axiom)?;
        Component::from_pair_unchecked(node, ctx)
    }
}

impl AnnotatedComponent {
    /// What a declaration node stands for: the declaration that the node below
    /// its second child stands for, with the annotations of its first child.
    pub open spec fn lowered_declaration(
        inner: ParseNode,
        m: PrefixMapView,
    ) -> Result<AnnotatedComponentView, HornedError> {
        match inner.spec_child(0) {
            Err(e) => Err(e),
            Ok(first) => match AnnotationSet::lowered(first, m) {
                Err(e) => Err(e),
                Ok(ann) => match inner.spec_child(1) {
                    Err(e) => Err(e),
                    Ok(holder) => match holder.spec_child(0) {
                        Err(e) => Err(e),
                        Ok(decl) => match Component::lowered_declaration(decl, m) {
                            Err(e) => Err(e),
                            Ok(component) => Ok(AnnotatedComponentView { component, ann }),
                        },
                    },
                },
            },
        }
    }

    /// Lowers the node of the `Declaration` form.
    pub fn declaration_from_pair(
        inner: &ParseNode,
        ctx: &mut Context,
    ) -> (r: Result<AnnotatedComponent, HornedError>)
        ensures
            outcome(r) == AnnotatedComponent::lowered_declaration(*inner, old(ctx).mapping@),
            old(ctx).grows_to(*final(ctx)),
    {
        let first = inner.child(0)?;
        let ann = AnnotationSet::from_pair(first, ctx)?;
        let holder = inner.child(1)?;
        let decl = holder.child(0)?;
        let component = Component::declaration_from_pair(decl, ctx)?;
        Ok(AnnotatedComponent { component, ann })
    }

    /// What the node of the `SubClassOf` form stands for. The document writes the
    /// subclass first and the superclass second; the axiom holds them the other
    /// way round.
    pub open spec fn lowered_sub_class_of(
        inner: ParseNode,
        m: PrefixMapView,
    ) -> Result<AnnotatedComponentView, HornedError> {
        match inner.spec_child(0) {
            Err(e) => Err(e),
            Ok(first) => match AnnotationSet::lowered(first, m) {
                Err(e) => Err(e),
                Ok(ann) => match inner.spec_child(1) {
                    Err(e) => Err(e),
                    Ok(sub_node) => match ClassExpression::lowered(sub_node, m) {
                        Err(e) => Err(e),
                        Ok(sub) => match inner.spec_child(2) {
                            Err(e) => Err(e),
                            Ok(sup_node) => match ClassExpression::lowered(sup_node, m) {
                                Err(e) => Err(e),
                                Ok(sup) => Ok(
                                    AnnotatedComponentView {
                                        component: ComponentView::SubClassOf(
                                            SubClassView { superclass: sup, subclass: sub },
                                        ),
                                        ann,
                                    },
                                ),
                            },
                        },
                    },
                },
            },
        }
    }

    /// Lowers the node of the `SubClassOf` form.
    pub fn sub_class_of_from_pair(
        inner: &ParseNode,
        ctx: &mut Context,
    ) -> (r: Result<AnnotatedComponent, HornedError>)
        ensures
            outcome(r) == AnnotatedComponent::lowered_sub_class_of(*inner, old(ctx).mapping@),
            old(ctx).grows_to(*final(ctx)),
    {
        let first = inner.child(0)?;
        let ann = AnnotationSet::from_pair(first, ctx)?;
        let sub_node = inner.child(1)?;
        let sub = ClassExpression::from_pair(sub_node, ctx)?;
        let sup_node = inner.child(2)?;
        let sup = ClassExpression::from_pair(sup_node, ctx)?;
        Ok(
            AnnotatedComponent {
                component: Component::SubClassOf(SubClass { superclass: sup, subclass: sub }),
                ann,
            },
        )
    }

    /// What the node of the `EquivalentClasses` form stands for: the axiom on what
    /// all its children after the first stand for, with the annotations of the
    /// first.
    pub open spec fn lowered_equivalent_classes(
        inner: ParseNode,
        m: PrefixMapView,
    ) -> Result<AnnotatedComponentView, HornedError> {
        match inner.spec_child(0) {
            Err(e) => Err(e),
            Ok(first) => match AnnotationSet::lowered(first, m) {
                Err(e) => Err(e),
                Ok(ann) => match ClassExpression::lowered_all(inner, 1, m) {
                    Err(e) => Err(e),
                    Ok(operands) => Ok(
                        AnnotatedComponentView {
                            component: ComponentView::EquivalentClasses(operands),
                            ann,
                        },
                    ),
                },
            },
        }
    }

    /// Lowers the node of the `EquivalentClasses` form.
    pub fn equivalent_classes_from_pair(
        inner: &ParseNode,
        ctx: &mut Context,
    ) -> (r: Result<AnnotatedComponent, HornedError>)
        ensures
            outcome(r) == AnnotatedComponent::lowered_equivalent_classes(*inner, old(ctx).mapping@),
            old(ctx).grows_to(*final(ctx)),
    {
        let first = inner.child(0)?;
        let ann = AnnotationSet::from_pair(first, ctx)?;
        let operands = ClassExpression::from_pairs(inner, 1, ctx)?;
        Ok(AnnotatedComponent { component: Component::EquivalentClasses(operands), ann })
    }

    /// What the node of the `DisjointClasses` form stands for: the axiom on what
    /// all its children after the first stand for, with the annotations of the
    /// first.
    pub open spec fn lowered_disjoint_classes(
        inner: ParseNode,
        m: PrefixMapView,
    ) -> Result<AnnotatedComponentView, HornedError> {
        match inner.spec_child(0) {
            Err(e) => Err(e),
            Ok(first) => match AnnotationSet::lowered(first, m) {
                Err(e) => Err(e),
                Ok(ann) => match ClassExpression::lowered_all(inner, 1, m) {
                    Err(e) => Err(e),
                    Ok(operands) => Ok(
                        AnnotatedComponentView {
                            component: ComponentView::DisjointClasses(operands),
                            ann,
                        },
                    ),
                },
            },
        }
    }

    /// Lowers the node of the `DisjointClasses` form.
    pub fn disjoint_classes_from_pair(
        inner: &ParseNode,
        ctx: &mut Context,
    ) -> (r: Result<AnnotatedComponent, HornedError>)
        ensures
            outcome(r) == AnnotatedComponent::lowered_disjoint_classes(*inner, old(ctx).mapping@),
            old(ctx).grows_to(*final(ctx)),
    {
        let first = inner.child(0)?;
        let ann = AnnotationSet::from_pair(first, ctx)?;
        let operands = ClassExpression::from_pairs(inner, 1, ctx)?;
        Ok(AnnotatedComponent { component: Component::DisjointClasses(operands), ann })
    }

    /// What the node of the `DisjointUnion` form stands for: the class of its
    /// second child as the disjoint union of all that follow, with the
    /// annotations of its first child.
    pub open spec fn lowered_disjoint_union(
        inner: ParseNode,
        m: PrefixMapView,
    ) -> Result<AnnotatedComponentView, HornedError> {
        match inner.spec_child(0) {
            Err(e) => Err(e),
            Ok(first) => match AnnotationSet::lowered(first, m) {
                Err(e) => Err(e),
                Ok(ann) => match inner.spec_child(1) {
                    Err(e) => Err(e),
                    Ok(c_node) => match Class::lowered(c_node, m) {
                        Err(e) => Err(e),
                        Ok(c) => match ClassExpression::lowered_all(inner, 2, m) {
                            Err(e) => Err(e),
                            Ok(operands) => Ok(
                                AnnotatedComponentView {
                                    component: ComponentView::DisjointUnion(c, operands),
                                    ann,
                                },
                            ),
                        },
                    },
                },
            },
        }
    }

    /// Lowers the node of the `DisjointUnion` form.
    pub fn disjoint_union_from_pair(
        inner: &ParseNode,
        ctx: &mut Context,
    ) -> (r: Result<AnnotatedComponent, HornedError>)
        ensures
            outcome(r) == AnnotatedComponent::lowered_disjoint_union(*inner, old(ctx).mapping@),
            old(ctx).grows_to(*final(ctx)),
    {
        let first = inner.child(0)?;
        let ann = AnnotationSet::from_pair(first, ctx)?;
        let c_node = inner.child(1)?;
        let c = Class::from_pair(c_node, ctx)?;
        let operands = ClassExpression::from_pairs(inner, 2, ctx)?;
        Ok(AnnotatedComponent { component: Component::DisjointUnion(c, operands), ann })
    }

    /// What the node of the `SubObjectPropertyOf` form stands for. The sub side is
    /// its second child and may be a chain; the super side is the single object
    /// property expression below its third child.
    pub open spec fn lowered_sub_object_property_of(
        inner: ParseNode,
        m: PrefixMapView,
    ) -> Result<AnnotatedComponentView, HornedError> {
        match inner.spec_child(0) {
            Err(e) => Err(e),
            Ok(first) => match AnnotationSet::lowered(first, m) {
                Err(e) => Err(e),
                Ok(ann) => match inner.spec_child(1) {
                    Err(e) => Err(e),
                    Ok(sub_node) => match SubObjectPropertyExpression::lowered(sub_node, m) {
                        Err(e) => Err(e),
                        Ok(sub) => match inner.spec_child(2) {
                            Err(e) => Err(e),
                            Ok(holder) => match holder.spec_child(0) {
                                Err(e) => Err(e),
                                Ok(sup_node) => match ObjectPropertyExpression::lowered(sup_node, m) {
                                    Err(e) => Err(e),
                                    Ok(sup) => Ok(
                                        AnnotatedComponentView {
                                            component: ComponentView::SubObjectPropertyOf {
                                                sup,
                                                sub,
                                            },
                                            ann,
                                        },
                                    ),
                                },
                            },
                        },
                    },
                },
            },
        }
    }

    /// Lowers the node of the `SubObjectPropertyOf` form.
    pub fn sub_object_property_of_from_pair(
        inner: &ParseNode,
        ctx: &mut Context,
    ) -> (r: Result<AnnotatedComponent, HornedError>)
        ensures
            outcome(r) == AnnotatedComponent::lowered_sub_object_property_of(
                *inner,
                old(ctx).mapping@,
            ),
            old(ctx).grows_to(*final(ctx)),
    {
        let first = inner.child(0)?;
        let ann = AnnotationSet::from_pair(first, ctx)?;
        let sub_node = inner.child(1)?;
        let sub = SubObjectPropertyExpression::from_pair(sub_node, ctx)?;
        let holder = inner.child(2)?;
        let sup_node = holder.child(0)?;
        let sup = ObjectPropertyExpression::from_pair(sup_node, ctx)?;
        Ok(AnnotatedComponent { component: Component::SubObjectPropertyOf { sup, sub }, ann })
    }

    /// What the node of the `EquivalentObjectProperties` form stands for: the axiom on what
    /// all its children after the first stand for, with the annotations of the
    /// first.
    pub open spec fn lowered_equivalent_object_properties(
        inner: ParseNode,
        m: PrefixMapView,
    ) -> Result<AnnotatedComponentView, HornedError> {
        match inner.spec_child(0) {
            Err(e) => Err(e),
            Ok(first) => match AnnotationSet::lowered(first, m) {
                Err(e) => Err(e),
                Ok(ann) => match ObjectPropertyExpression::lowered_all(inner, 1, m) {
                    Err(e) => Err(e),
                    Ok(operands) => Ok(
                        AnnotatedComponentView {
                            component: ComponentView::EquivalentObjectProperties(operands),
                            ann,
                        },
                    ),
                },
            },
        }
    }

    /// Lowers the node of the `EquivalentObjectProperties` form.
    pub fn equivalent_object_properties_from_pair(
        inner: &ParseNode,
        ctx: &mut Context,
    ) -> (r: Result<AnnotatedComponent, HornedError>)
        ensures
            outcome(r) == AnnotatedComponent::lowered_equivalent_object_properties(
                *inner,
                old(ctx).mapping@,
            ),
            old(ctx).grows_to(*final(ctx)),
    {
        let first = inner.child(0)?;
        let ann = AnnotationSet::from_pair(first, ctx)?;
        let operands = ObjectPropertyExpression::from_pairs(inner, 1, ctx)?;
        Ok(AnnotatedComponent { component: Component::EquivalentObjectProperties(operands), ann })
    }

    /// What the node of the `DisjointObjectProperties` form stands for: the axiom on what
    /// all its children after the first stand for, with the annotations of the
    /// first.
    pub open spec fn lowered_disjoint_object_properties(
        inner: ParseNode,
        m: PrefixMapView,
    ) -> Result<AnnotatedComponentView, HornedError> {
        match inner.spec_child(0) {
            Err(e) => Err(e),
            Ok(first) => match AnnotationSet::lowered(first, m) {
                Err(e) => Err(e),
                Ok(ann) => match ObjectPropertyExpression::lowered_all(inner, 1, m) {
                    Err(e) => Err(e),
                    Ok(operands) => Ok(
                        AnnotatedComponentView {
                            component: ComponentView::DisjointObjectProperties(operands),
                            ann,
                        },
                    ),
                },
            },
        }
    }

    /// Lowers the node of the `DisjointObjectProperties` form.
    pub fn disjoint_object_properties_from_pair(
        inner: &ParseNode,
        ctx: &mut Context,
    ) -> (r: Result<AnnotatedComponent, HornedError>)
        ensures
            outcome(r) == AnnotatedComponent::lowered_disjoint_object_properties(
                *inner,
                old(ctx).mapping@,
            ),
            old(ctx).grows_to(*final(ctx)),
    {
        let first = inner.child(0)?;
        let ann = AnnotationSet::from_pair(first, ctx)?;
        let operands = ObjectPropertyExpression::from_pairs(inner, 1, ctx)?;
        Ok(AnnotatedComponent { component: Component::DisjointObjectProperties(operands), ann })
    }

    /// What the node of the `ObjectPropertyDomain` form stands for: the
    /// property of its second child with the class expression of its third,
    /// with the annotations of its first child.
    pub open spec fn lowered_object_property_domain(
        inner: ParseNode,
        m: PrefixMapView,
    ) -> Result<AnnotatedComponentView, HornedError> {
        match inner.spec_child(0) {
            Err(e) => Err(e),
            Ok(first) => match AnnotationSet::lowered(first, m) {
                Err(e) => Err(e),
                Ok(ann) => match inner.spec_child(1) {
                    Err(e) => Err(e),
                    Ok(ope_node) => match ObjectPropertyExpression::lowered(ope_node, m) {
                        Err(e) => Err(e),
                        Ok(ope) => match inner.spec_child(2) {
                            Err(e) => Err(e),
                            Ok(ce_node) => match ClassExpression::lowered(ce_node, m) {
                                Err(e) => Err(e),
                                Ok(ce) => Ok(
                                    AnnotatedComponentView {
                                        component: ComponentView::ObjectPropertyDomain { ope, ce },
                                        ann,
                                    },
                                ),
                            },
                        },
                    },
                },
            },
        }
    }

    /// Lowers the node of the `ObjectPropertyDomain` form.
    pub fn object_property_domain_from_pair(
        inner: &ParseNode,
        ctx: &mut Context,
    ) -> (r: Result<AnnotatedComponent, HornedError>)
        ensures
            outcome(r) == AnnotatedComponent::lowered_object_property_domain(
                *inner,
                old(ctx).mapping@,
            ),
            old(ctx).grows_to(*final(ctx)),
    {
        let first = inner.child(0)?;
        let ann = AnnotationSet::from_pair(first, ctx)?;
        let ope_node = inner.child(1)?;
        let ope = ObjectPropertyExpression::from_pair(ope_node, ctx)?;
        let ce_node = inner.child(2)?;
        let ce = ClassExpression::from_pair(ce_node, ctx)?;
        Ok(AnnotatedComponent { component: Component::ObjectPropertyDomain { ope, ce }, ann })
    }

    /// What the node of the `ObjectPropertyRange` form stands for: the
    /// property of its second child with the class expression of its third,
    /// with the annotations of its first child.
    pub open spec fn lowered_object_property_range(
        inner: ParseNode,
        m: PrefixMapView,
    ) -> Result<AnnotatedComponentView, HornedError> {
        match inner.spec_child(0) {
            Err(e) => Err(e),
            Ok(first) => match AnnotationSet::lowered(first, m) {
                Err(e) => Err(e),
                Ok(ann) => match inner.spec_child(1) {
                    Err(e) => Err(e),
                    Ok(ope_node) => match ObjectPropertyExpression::lowered(ope_node, m) {
                        Err(e) => Err(e),
                        Ok(ope) => match inner.spec_child(2) {
                            Err(e) => Err(e),
                            Ok(ce_node) => match ClassExpression::lowered(ce_node, m) {
                                Err(e) => Err(e),
                                Ok(ce) => Ok(
                                    AnnotatedComponentView {
                                        component: ComponentView::ObjectPropertyRange { ope, ce },
                                        ann,
                                    },
                                ),
                            },
                        },
                    },
                },
            },
        }
    }

    /// Lowers the node of the `ObjectPropertyRange` form.
    pub fn object_property_range_from_pair(
        inner: &ParseNode,
        ctx: &mut Context,
    ) -> (r: Result<AnnotatedComponent, HornedError>)
        ensures
            outcome(r) == AnnotatedComponent::lowered_object_property_range(
                *inner,
                old(ctx).mapping@,
            ),
            old(ctx).grows_to(*final(ctx)),
    {
        let first = inner.child(0)?;
        let ann = AnnotationSet::from_pair(first, ctx)?;
        let ope_node = inner.child(1)?;
        let ope = ObjectPropertyExpression::from_pair(ope_node, ctx)?;
        let ce_node = inner.child(2)?;
        let ce = ClassExpression::from_pair(ce_node, ctx)?;
        Ok(AnnotatedComponent { component: Component::ObjectPropertyRange { ope, ce }, ann })
    }

    /// What the node of the `InverseObjectProperties` form stands for: the
    /// object properties of its second and third child, in that order, with
    /// the annotations of its first child.
    pub open spec fn lowered_inverse_object_properties(
        inner: ParseNode,
        m: PrefixMapView,
    ) -> Result<AnnotatedComponentView, HornedError> {
        match inner.spec_child(0) {
            Err(e) => Err(e),
            Ok(first) => match AnnotationSet::lowered(first, m) {
                Err(e) => Err(e),
                Ok(ann) => match inner.spec_child(1) {
                    Err(e) => Err(e),
                    Ok(p_node) => match ObjectProperty::lowered(p_node, m) {
                        Err(e) => Err(e),
                        Ok(p) => match inner.spec_child(2) {
                            Err(e) => Err(e),
                            Ok(q_node) => match ObjectProperty::lowered(q_node, m) {
                                Err(e) => Err(e),
                                Ok(q) => Ok(
                                    AnnotatedComponentView {
                                        component: ComponentView::InverseObjectProperties(p, q),
                                        ann,
                                    },
                                ),
                            },
                        },
                    },
                },
            },
        }
    }

    /// Lowers the node of the `InverseObjectProperties` form.
    pub fn inverse_object_properties_from_pair(
        inner: &ParseNode,
        ctx: &mut Context,
    ) -> (r: Result<AnnotatedComponent, HornedError>)
        ensures
            outcome(r) == AnnotatedComponent::lowered_inverse_object_properties(
                *inner,
                old(ctx).mapping@,
            ),
            old(ctx).grows_to(*final(ctx)),
    {
        let first = inner.child(0)?;
        let ann = AnnotationSet::from_pair(first, ctx)?;
        let p_node = inner.child(1)?;
        let p = ObjectProperty::from_pair(p_node, ctx)?;
        let q_node = inner.child(2)?;
        let q = ObjectProperty::from_pair(q_node, ctx)?;
        Ok(AnnotatedComponent { component: Component::InverseObjectProperties(p, q), ann })
    }

    /// What the node of the `FunctionalObjectProperty` form stands for: the axiom on what its
    /// second child stands for, with the annotations of its first child.
    pub open spec fn lowered_functional_object_property(
        inner: ParseNode,
        m: PrefixMapView,
    ) -> Result<AnnotatedComponentView, HornedError> {
        match inner.spec_child(0) {
            Err(e) => Err(e),
            Ok(first) => match AnnotationSet::lowered(first, m) {
                Err(e) => Err(e),
                Ok(ann) => match inner.spec_child(1) {
                    Err(e) => Err(e),
                    Ok(x_node) => match ObjectPropertyExpression::lowered(x_node, m) {
                        Err(e) => Err(e),
                        Ok(x) => Ok(
                            AnnotatedComponentView {
                                component: ComponentView::FunctionalObjectProperty(x),
                                ann,
                            },
                        ),
                    },
                },
            },
        }
    }

    /// Lowers the node of the `FunctionalObjectProperty` form.
    pub fn functional_object_property_from_pair(
        inner: &ParseNode,
        ctx: &mut Context,
    ) -> (r: Result<AnnotatedComponent, HornedError>)
        ensures
            outcome(r) == AnnotatedComponent::lowered_functional_object_property(
                *inner,
                old(ctx).mapping@,
            ),
            old(ctx).grows_to(*final(ctx)),
    {
        let first = inner.child(0)?;
        let ann = AnnotationSet::from_pair(first, ctx)?;
        let x_node = inner.child(1)?;
        let x = ObjectPropertyExpression::from_pair(x_node, ctx)?;
        Ok(AnnotatedComponent { component: Component::FunctionalObjectProperty(x), ann })
    }

    /// What the node of the `InverseFunctionalObjectProperty` form stands for:
    /// the axiom on what its second child stands for, with the annotations of
    /// its first child.
    pub open spec fn lowered_inverse_functional_object_property(
        inner: ParseNode,
        m: PrefixMapView,
    ) -> Result<AnnotatedComponentView, HornedError> {
        match inner.spec_child(0) {
            Err(e) => Err(e),
            Ok(first) => match AnnotationSet::lowered(first, m) {
                Err(e) => Err(e),
                Ok(ann) => match inner.spec_child(1) {
                    Err(e) => Err(e),
                    Ok(x_node) => match ObjectPropertyExpression::lowered(x_node, m) {
                        Err(e) => Err(e),
                        Ok(x) => Ok(
                            AnnotatedComponentView {
                                component: ComponentView::InverseFunctionalObjectProperty(x),
                                ann,
                            },
                        ),
                    },
                },
            },
        }
    }

    /// Lowers the node of the `InverseFunctionalObjectProperty` form.
    pub fn inverse_functional_object_property_from_pair(
        inner: &ParseNode,
        ctx: &mut Context,
    ) -> (r: Result<AnnotatedComponent, HornedError>)
        ensures
            outcome(r) == AnnotatedComponent::lowered_inverse_functional_object_property(
                *inner,
                old(ctx).mapping@,
            ),
            old(ctx).grows_to(*final(ctx)),
    {
        let first = inner.child(0)?;
        let ann = AnnotationSet::from_pair(first, ctx)?;
        let x_node = inner.child(1)?;
        let x = ObjectPropertyExpression::from_pair(x_node, ctx)?;
        Ok(AnnotatedComponent { component: Component::InverseFunctionalObjectProperty(x), ann })
    }

    /// What the node of the `ReflexiveObjectProperty` form stands for: the axiom on what its
    /// second child stands for, with the annotations of its first child.
    pub open spec fn lowered_reflexive_object_property(
        inner: ParseNode,
        m: PrefixMapView,
    ) -> Result<AnnotatedComponentView, HornedError> {
        match inner.spec_child(0) {
            Err(e) => Err(e),
            Ok(first) => match AnnotationSet::lowered(first, m) {
                Err(e) => Err(e),
                Ok(ann) => match inner.spec_child(1) {
                    Err(e) => Err(e),
                    Ok(x_node) => match ObjectPropertyExpression::lowered(x_node, m) {
                        Err(e) => Err(e),
                        Ok(x) => Ok(
                            AnnotatedComponentView {
                                component: ComponentView::ReflexiveObjectProperty(x),
                                ann,
                            },
                        ),
                    },
                },
            },
        }
    }

    /// Lowers the node of the `ReflexiveObjectProperty` form.
    pub fn reflexive_object_property_from_pair(
        inner: &ParseNode,
        ctx: &mut Context,
    ) -> (r: Result<AnnotatedComponent, HornedError>)
        ensures
            outcome(r) == AnnotatedComponent::lowered_reflexive_object_property(
                *inner,
                old(ctx).mapping@,
            ),
            old(ctx).grows_to(*final(ctx)),
    {
        let first = inner.child(0)?;
        let ann = AnnotationSet::from_pair(first, ctx)?;
        let x_node = inner.child(1)?;
        let x = ObjectPropertyExpression::from_pair(x_node, ctx)?;
        Ok(AnnotatedComponent { component: Component::ReflexiveObjectProperty(x), ann })
    }

    /// What the node of the `IrreflexiveObjectProperty` form stands for: the axiom on what its
    /// second child stands for, with the annotations of its first child.
    pub open spec fn lowered_irreflexive_object_property(
        inner: ParseNode,
        m: PrefixMapView,
    ) -> Result<AnnotatedComponentView, HornedError> {
        match inner.spec_child(0) {
            Err(e) => Err(e),
            Ok(first) => match AnnotationSet::lowered(first, m) {
                Err(e) => Err(e),
                Ok(ann) => match inner.spec_child(1) {
                    Err(e) => Err(e),
                    Ok(x_node) => match ObjectPropertyExpression::lowered(x_node, m) {
                        Err(e) => Err(e),
                        Ok(x) => Ok(
                            AnnotatedComponentView {
                                component: ComponentView::IrreflexiveObjectProperty(x),
                                ann,
                            },
                        ),
                    },
                },
            },
        }
    }

    /// Lowers the node of the `IrreflexiveObjectProperty` form.
    pub fn irreflexive_object_property_from_pair(
        inner: &ParseNode,
        ctx: &mut Context,
    ) -> (r: Result<AnnotatedComponent, HornedError>)
        ensures
            outcome(r) == AnnotatedComponent::lowered_irreflexive_object_property(
                *inner,
                old(ctx).mapping@,
            ),
            old(ctx).grows_to(*final(ctx)),
    {
        let first = inner.child(0)?;
        let ann = AnnotationSet::from_pair(first, ctx)?;
        let x_node = inner.child(1)?;
        let x = ObjectPropertyExpression::from_pair(x_node, ctx)?;
        Ok(AnnotatedComponent { component: Component::IrreflexiveObjectProperty(x), ann })
    }

    /// What the node of the `SymmetricObjectProperty` form stands for: the axiom on what its
    /// second child stands for, with the annotations of its first child.
    pub open spec fn lowered_symmetric_object_property(
        inner: ParseNode,
        m: PrefixMapView,
    ) -> Result<AnnotatedComponentView, HornedError> {
        match inner.spec_child(0) {
            Err(e) => Err(e),
            Ok(first) => match AnnotationSet::lowered(first, m) {
                Err(e) => Err(e),
                Ok(ann) => match inner.spec_child(1) {
                    Err(e) => Err(e),
                    Ok(x_node) => match ObjectPropertyExpression::lowered(x_node, m) {
                        Err(e) => Err(e),
                        Ok(x) => Ok(
                            AnnotatedComponentView {
                                component: ComponentView::SymmetricObjectProperty(x),
                                ann,
                            },
                        ),
                    },
                },
            },
        }
    }

    /// Lowers the node of the `SymmetricObjectProperty` form.
    pub fn symmetric_object_property_from_pair(
        inner: &ParseNode,
        ctx: &mut Context,
    ) -> (r: Result<AnnotatedComponent, HornedError>)
        ensures
            outcome(r) == AnnotatedComponent::lowered_symmetric_object_property(
                *inner,
                old(ctx).mapping@,
            ),
            old(ctx).grows_to(*final(ctx)),
    {
        let first = inner.child(0)?;
        let ann = AnnotationSet::from_pair(first, ctx)?;
        let x_node = inner.child(1)?;
        let x = ObjectPropertyExpression::from_pair(x_node, ctx)?;
        Ok(AnnotatedComponent { component: Component::SymmetricObjectProperty(x), ann })
    }

    /// What the node of the `AsymmetricObjectProperty` form stands for: the axiom on what its
    /// second child stands for, with the annotations of its first child.
    pub open spec fn lowered_asymmetric_object_property(
        inner: ParseNode,
        m: PrefixMapView,
    ) -> Result<AnnotatedComponentView, HornedError> {
        match inner.spec_child(0) {
            Err(e) => Err(e),
            Ok(first) => match AnnotationSet::lowered(first, m) {
                Err(e) => Err(e),
                Ok(ann) => match inner.spec_child(1) {
                    Err(e) => Err(e),
                    Ok(x_node) => match ObjectPropertyExpression::lowered(x_node, m) {
                        Err(e) => Err(e),
                        Ok(x) => Ok(
                            AnnotatedComponentView {
                                component: ComponentView::AsymmetricObjectProperty(x),
                                ann,
                            },
                        ),
                    },
                },
            },
        }
    }

    /// Lowers the node of the `AsymmetricObjectProperty` form.
    pub fn asymmetric_object_property_from_pair(
        inner: &ParseNode,
        ctx: &mut Context,
    ) -> (r: Result<AnnotatedComponent, HornedError>)
        ensures
            outcome(r) == AnnotatedComponent::lowered_asymmetric_object_property(
                *inner,
                old(ctx).mapping@,
            ),
            old(ctx).grows_to(*final(ctx)),
    {
        let first = inner.child(0)?;
        let ann = AnnotationSet::from_pair(first, ctx)?;
        let x_node = inner.child(1)?;
        let x = ObjectPropertyExpression::from_pair(x_node, ctx)?;
        Ok(AnnotatedComponent { component: Component::AsymmetricObjectProperty(x), ann })
    }

    /// What the node of the `TransitiveObjectProperty` form stands for: the axiom on what its
    /// second child stands for, with the annotations of its first child.
    pub open spec fn lowered_transitive_object_property(
        inner: ParseNode,
        m: PrefixMapView,
    ) -> Result<AnnotatedComponentView, HornedError> {
        match inner.spec_child(0) {
            Err(e) => Err(e),
            Ok(first) => match AnnotationSet::lowered(first, m) {
                Err(e) => Err(e),
                Ok(ann) => match inner.spec_child(1) {
                    Err(e) => Err(e),
                    Ok(x_node) => match ObjectPropertyExpression::lowered(x_node, m) {
                        Err(e) => Err(e),
                        Ok(x) => Ok(
                            AnnotatedComponentView {
                                component: ComponentView::TransitiveObjectProperty(x),
                                ann,
                            },
                        ),
                    },
                },
            },
        }
    }

    /// Lowers the node of the `TransitiveObjectProperty` form.
    pub fn transitive_object_property_from_pair(
        inner: &ParseNode,
        ctx: &mut Context,
    ) -> (r: Result<AnnotatedComponent, HornedError>)
        ensures
            outcome(r) == AnnotatedComponent::lowered_transitive_object_property(
                *inner,
                old(ctx).mapping@,
            ),
            old(ctx).grows_to(*final(ctx)),
    {
        let first = inner.child(0)?;
        let ann = AnnotationSet::from_pair(first, ctx)?;
        let x_node = inner.child(1)?;
        let x = ObjectPropertyExpression::from_pair(x_node, ctx)?;
        Ok(AnnotatedComponent { component: Component::TransitiveObjectProperty(x), ann })
    }

    /// What the node of the `SubDataPropertyOf` form stands for: the sub
    /// property of its second child under the super property of its third,
    /// with the annotations of its first child.
    pub open spec fn lowered_sub_data_property_of(
        inner: ParseNode,
        m: PrefixMapView,
    ) -> Result<AnnotatedComponentView, HornedError> {
        match inner.spec_child(0) {
            Err(e) => Err(e),
            Ok(first) => match AnnotationSet::lowered(first, m) {
                Err(e) => Err(e),
                Ok(ann) => match inner.spec_child(1) {
                    Err(e) => Err(e),
                    Ok(sub_node) => match DataProperty::lowered(sub_node, m) {
                        Err(e) => Err(e),
                        Ok(sub) => match inner.spec_child(2) {
                            Err(e) => Err(e),
                            Ok(sup_node) => match DataProperty::lowered(sup_node, m) {
                                Err(e) => Err(e),
                                Ok(sup) => Ok(
                                    AnnotatedComponentView {
                                        component: ComponentView::SubDataPropertyOf { sup, sub },
                                        ann,
                                    },
                                ),
                            },
                        },
                    },
                },
            },
        }
    }

    /// Lowers the node of the `SubDataPropertyOf` form.
    pub fn sub_data_property_of_from_pair(
        inner: &ParseNode,
        ctx: &mut Context,
    ) -> (r: Result<AnnotatedComponent, HornedError>)
        ensures
            outcome(r) == AnnotatedComponent::lowered_sub_data_property_of(
                *inner,
                old(ctx).mapping@,
            ),
            old(ctx).grows_to(*final(ctx)),
    {
        let first = inner.child(0)?;
        let ann = AnnotationSet::from_pair(first, ctx)?;
        let sub_node = inner.child(1)?;
        let sub = DataProperty::from_pair(sub_node, ctx)?;
        let sup_node = inner.child(2)?;
        let sup = DataProperty::from_pair(sup_node, ctx)?;
        Ok(AnnotatedComponent { component: Component::SubDataPropertyOf { sup, sub }, ann })
    }

    /// What the node of the `EquivalentDataProperties` form stands for: the axiom on what
    /// all its children after the first stand for, with the annotations of the
    /// first.
    pub open spec fn lowered_equivalent_data_properties(
        inner: ParseNode,
        m: PrefixMapView,
    ) -> Result<AnnotatedComponentView, HornedError> {
        match inner.spec_child(0) {
            Err(e) => Err(e),
            Ok(first) => match AnnotationSet::lowered(first, m) {
                Err(e) => Err(e),
                Ok(ann) => match DataProperty::lowered_all(inner, 1, m) {
                    Err(e) => Err(e),
                    Ok(operands) => Ok(
                        AnnotatedComponentView {
                            component: ComponentView::EquivalentDataProperties(operands),
                            ann,
                        },
                    ),
                },
            },
        }
    }

    /// Lowers the node of the `EquivalentDataProperties` form.
    pub fn equivalent_data_properties_from_pair(
        inner: &ParseNode,
        ctx: &mut Context,
    ) -> (r: Result<AnnotatedComponent, HornedError>)
        ensures
            outcome(r) == AnnotatedComponent::lowered_equivalent_data_properties(
                *inner,
                old(ctx).mapping@,
            ),
            old(ctx).grows_to(*final(ctx)),
    {
        let first = inner.child(0)?;
        let ann = AnnotationSet::from_pair(first, ctx)?;
        let operands = DataProperty::from_pairs(inner, 1, ctx)?;
        Ok(AnnotatedComponent { component: Component::EquivalentDataProperties(operands), ann })
    }

    /// What the node of the `DisjointDataProperties` form stands for: the axiom on what
    /// all its children after the first stand for, with the annotations of the
    /// first.
    pub open spec fn lowered_disjoint_data_properties(
        inner: ParseNode,
        m: PrefixMapView,
    ) -> Result<AnnotatedComponentView, HornedError> {
        match inner.spec_child(0) {
            Err(e) => Err(e),
            Ok(first) => match AnnotationSet::lowered(first, m) {
                Err(e) => Err(e),
                Ok(ann) => match DataProperty::lowered_all(inner, 1, m) {
                    Err(e) => Err(e),
                    Ok(operands) => Ok(
                        AnnotatedComponentView {
                            component: ComponentView::DisjointDataProperties(operands),
                            ann,
                        },
                    ),
                },
            },
        }
    }

    /// Lowers the node of the `DisjointDataProperties` form.
    pub fn disjoint_data_properties_from_pair(
        inner: &ParseNode,
        ctx: &mut Context,
    ) -> (r: Result<AnnotatedComponent, HornedError>)
        ensures
            outcome(r) == AnnotatedComponent::lowered_disjoint_data_properties(
                *inner,
                old(ctx).mapping@,
            ),
            old(ctx).grows_to(*final(ctx)),
    {
        let first = inner.child(0)?;
        let ann = AnnotationSet::from_pair(first, ctx)?;
        let operands = DataProperty::from_pairs(inner, 1, ctx)?;
        Ok(AnnotatedComponent { component: Component::DisjointDataProperties(operands), ann })
    }

    /// What the node of the `DataPropertyDomain` form stands for: the property
    /// of its second child with the class expression of its third, with the
    /// annotations of its first child.
    pub open spec fn lowered_data_property_domain(
        inner: ParseNode,
        m: PrefixMapView,
    ) -> Result<AnnotatedComponentView, HornedError> {
        match inner.spec_child(0) {
            Err(e) => Err(e),
            Ok(first) => match AnnotationSet::lowered(first, m) {
                Err(e) => Err(e),
                Ok(ann) => match inner.spec_child(1) {
                    Err(e) => Err(e),
                    Ok(dp_node) => match DataProperty::lowered(dp_node, m) {
                        Err(e) => Err(e),
                        Ok(dp) => match inner.spec_child(2) {
                            Err(e) => Err(e),
                            Ok(ce_node) => match ClassExpression::lowered(ce_node, m) {
                                Err(e) => Err(e),
                                Ok(ce) => Ok(
                                    AnnotatedComponentView {
                                        component: ComponentView::DataPropertyDomain { dp, ce },
                                        ann,
                                    },
                                ),
                            },
                        },
                    },
                },
            },
        }
    }

    /// Lowers the node of the `DataPropertyDomain` form.
    pub fn data_property_domain_from_pair(
        inner: &ParseNode,
        ctx: &mut Context,
    ) -> (r: Result<AnnotatedComponent, HornedError>)
        ensures
            outcome(r) == AnnotatedComponent::lowered_data_property_domain(
                *inner,
                old(ctx).mapping@,
            ),
            old(ctx).grows_to(*final(ctx)),
    {
        let first = inner.child(0)?;
        let ann = AnnotationSet::from_pair(first, ctx)?;
        let dp_node = inner.child(1)?;
        let dp = DataProperty::from_pair(dp_node, ctx)?;
        let ce_node = inner.child(2)?;
        let ce = ClassExpression::from_pair(ce_node, ctx)?;
        Ok(AnnotatedComponent { component: Component::DataPropertyDomain { dp, ce }, ann })
    }

    /// What the node of the `DataPropertyRange` form stands for: the property
    /// of its second child with the data range of its third, with the
    /// annotations of its first child.
    pub open spec fn lowered_data_property_range(
        inner: ParseNode,
        m: PrefixMapView,
    ) -> Result<AnnotatedComponentView, HornedError> {
        match inner.spec_child(0) {
            Err(e) => Err(e),
            Ok(first) => match AnnotationSet::lowered(first, m) {
                Err(e) => Err(e),
                Ok(ann) => match inner.spec_child(1) {
                    Err(e) => Err(e),
                    Ok(dp_node) => match DataProperty::lowered(dp_node, m) {
                        Err(e) => Err(e),
                        Ok(dp) => match inner.spec_child(2) {
                            Err(e) => Err(e),
                            Ok(dr_node) => match DataRange::lowered(dr_node, m) {
                                Err(e) => Err(e),
                                Ok(dr) => Ok(
                                    AnnotatedComponentView {
                                        component: ComponentView::DataPropertyRange { dp, dr },
                                        ann,
                                    },
                                ),
                            },
                        },
                    },
                },
            },
        }
    }

    /// Lowers the node of the `DataPropertyRange` form.
    pub fn data_property_range_from_pair(
        inner: &ParseNode,
        ctx: &mut Context,
    ) -> (r: Result<AnnotatedComponent, HornedError>)
        ensures
            outcome(r) == AnnotatedComponent::lowered_data_property_range(
                *inner,
                old(ctx).mapping@,
            ),
            old(ctx).grows_to(*final(ctx)),
    {
        let first = inner.child(0)?;
        let ann = AnnotationSet::from_pair(first, ctx)?;
        let dp_node = inner.child(1)?;
        let dp = DataProperty::from_pair(dp_node, ctx)?;
        let dr_node = inner.child(2)?;
        let dr = DataRange::from_pair(dr_node, ctx)?;
        Ok(AnnotatedComponent { component: Component::DataPropertyRange { dp, dr }, ann })
    }

    /// What the node of the `FunctionalDataProperty` form stands for: the axiom on what its
    /// second child stands for, with the annotations of its first child.
    pub open spec fn lowered_functional_data_property(
        inner: ParseNode,
        m: PrefixMapView,
    ) -> Result<AnnotatedComponentView, HornedError> {
        match inner.spec_child(0) {
            Err(e) => Err(e),
            Ok(first) => match AnnotationSet::lowered(first, m) {
                Err(e) => Err(e),
                Ok(ann) => match inner.spec_child(1) {
                    Err(e) => Err(e),
                    Ok(x_node) => match DataProperty::lowered(x_node, m) {
                        Err(e) => Err(e),
                        Ok(x) => Ok(
                            AnnotatedComponentView {
                                component: ComponentView::FunctionalDataProperty(x),
                                ann,
                            },
                        ),
                    },
                },
            },
        }
    }

    /// Lowers the node of the `FunctionalDataProperty` form.
    pub fn functional_data_property_from_pair(
        inner: &ParseNode,
        ctx: &mut Context,
    ) -> (r: Result<AnnotatedComponent, HornedError>)
        ensures
            outcome(r) == AnnotatedComponent::lowered_functional_data_property(
                *inner,
                old(ctx).mapping@,
            ),
            old(ctx).grows_to(*final(ctx)),
    {
        let first = inner.child(0)?;
        let ann = AnnotationSet::from_pair(first, ctx)?;
        let x_node = inner.child(1)?;
        let x = DataProperty::from_pair(x_node, ctx)?;
        Ok(AnnotatedComponent { component: Component::FunctionalDataProperty(x), ann })
    }

    /// What the node of the `DatatypeDefinition` form stands for: the datatype
    /// of its second child defined as the data range of its third, with the
    /// annotations of its first child.
    pub open spec fn lowered_datatype_definition(
        inner: ParseNode,
        m: PrefixMapView,
    ) -> Result<AnnotatedComponentView, HornedError> {
        match inner.spec_child(0) {
            Err(e) => Err(e),
            Ok(first) => match AnnotationSet::lowered(first, m) {
                Err(e) => Err(e),
                Ok(ann) => match inner.spec_child(1) {
                    Err(e) => Err(e),
                    Ok(kind_node) => match Datatype::lowered(kind_node, m) {
                        Err(e) => Err(e),
                        Ok(kind) => match inner.spec_child(2) {
                            Err(e) => Err(e),
                            Ok(range_node) => match DataRange::lowered(range_node, m) {
                                Err(e) => Err(e),
                                Ok(range) => Ok(
                                    AnnotatedComponentView {
                                        component: ComponentView::DatatypeDefinition {
                                            kind,
                                            range,
                                        },
                                        ann,
                                    },
                                ),
                            },
                        },
                    },
                },
            },
        }
    }

    /// Lowers the node of the `DatatypeDefinition` form.
    pub fn datatype_definition_from_pair(
        inner: &ParseNode,
        ctx: &mut Context,
    ) -> (r: Result<AnnotatedComponent, HornedError>)
        ensures
            outcome(r) == AnnotatedComponent::lowered_datatype_definition(
                *inner,
                old(ctx).mapping@,
            ),
            old(ctx).grows_to(*final(ctx)),
    {
        let first = inner.child(0)?;
        let ann = AnnotationSet::from_pair(first, ctx)?;
        let kind_node = inner.child(1)?;
        let kind = Datatype::from_pair(kind_node, ctx)?;
        let range_node = inner.child(2)?;
        let range = DataRange::from_pair(range_node, ctx)?;
        Ok(AnnotatedComponent { component: Component::DatatypeDefinition { kind, range }, ann })
    }

    /// What the node of the `HasKey` form stands for: the class expression of its
    /// second child with the key properties that follow, each told by its rule to
    /// be an object property expression or a data property.
    pub open spec fn lowered_has_key(
        inner: ParseNode,
        m: PrefixMapView,
    ) -> Result<AnnotatedComponentView, HornedError> {
        match inner.spec_child(0) {
            Err(e) => Err(e),
            Ok(first) => match AnnotationSet::lowered(first, m) {
                Err(e) => Err(e),
                Ok(ann) => match inner.spec_child(1) {
                    Err(e) => Err(e),
                    Ok(ce_node) => match ClassExpression::lowered(ce_node, m) {
                        Err(e) => Err(e),
                        Ok(ce) => match PropertyExpression::lowered_all(inner, 2, m) {
                            Err(e) => Err(e),
                            Ok(vpe) => Ok(
                                AnnotatedComponentView {
                                    component: ComponentView::HasKey { ce, vpe },
                                    ann,
                                },
                            ),
                        },
                    },
                },
            },
        }
    }

    /// Lowers the node of the `HasKey` form.
    pub fn has_key_from_pair(
        inner: &ParseNode,
        ctx: &mut Context,
    ) -> (r: Result<AnnotatedComponent, HornedError>)
        ensures
            outcome(r) == AnnotatedComponent::lowered_has_key(*inner, old(ctx).mapping@),
            old(ctx).grows_to(*final(ctx)),
    {
        let first = inner.child(0)?;
        let ann = AnnotationSet::from_pair(first, ctx)?;
        let ce_node = inner.child(1)?;
        let ce = ClassExpression::from_pair(ce_node, ctx)?;
        let vpe = PropertyExpression::from_pairs(inner, 2, ctx)?;
        Ok(AnnotatedComponent { component: Component::HasKey { ce, vpe }, ann })
    }

    /// What the node of the `SameIndividual` form stands for: the axiom on what
    /// all its children after the first stand for, with the annotations of the
    /// first.
    pub open spec fn lowered_same_individual(
        inner: ParseNode,
        m: PrefixMapView,
    ) -> Result<AnnotatedComponentView, HornedError> {
        match inner.spec_child(0) {
            Err(e) => Err(e),
            Ok(first) => match AnnotationSet::lowered(first, m) {
                Err(e) => Err(e),
                Ok(ann) => match Individual::lowered_all(inner, 1, m) {
                    Err(e) => Err(e),
                    Ok(operands) => Ok(
                        AnnotatedComponentView {
                            component: ComponentView::SameIndividual(operands),
                            ann,
                        },
                    ),
                },
            },
        }
    }

    /// Lowers the node of the `SameIndividual` form.
    pub fn same_individual_from_pair(
        inner: &ParseNode,
        ctx: &mut Context,
    ) -> (r: Result<AnnotatedComponent, HornedError>)
        ensures
            outcome(r) == AnnotatedComponent::lowered_same_individual(*inner, old(ctx).mapping@),
            old(ctx).grows_to(*final(ctx)),
    {
        let first = inner.child(0)?;
        let ann = AnnotationSet::from_pair(first, ctx)?;
        let operands = Individual::from_pairs(inner, 1, ctx)?;
        Ok(AnnotatedComponent { component: Component::SameIndividual(operands), ann })
    }

    /// What the node of the `DifferentIndividuals` form stands for: the axiom on what
    /// all its children after the first stand for, with the annotations of the
    /// first.
    pub open spec fn lowered_different_individuals(
        inner: ParseNode,
        m: PrefixMapView,
    ) -> Result<AnnotatedComponentView, HornedError> {
        match inner.spec_child(0) {
            Err(e) => Err(e),
            Ok(first) => match AnnotationSet::lowered(first, m) {
                Err(e) => Err(e),
                Ok(ann) => match Individual::lowered_all(inner, 1, m) {
                    Err(e) => Err(e),
                    Ok(operands) => Ok(
                        AnnotatedComponentView {
                            component: ComponentView::DifferentIndividuals(operands),
                            ann,
                        },
                    ),
                },
            },
        }
    }

    /// Lowers the node of the `DifferentIndividuals` form.
    pub fn different_individuals_from_pair(
        inner: &ParseNode,
        ctx: &mut Context,
    ) -> (r: Result<AnnotatedComponent, HornedError>)
        ensures
            outcome(r) == AnnotatedComponent::lowered_different_individuals(
                *inner,
                old(ctx).mapping@,
            ),
            old(ctx).grows_to(*final(ctx)),
    {
        let first = inner.child(0)?;
        let ann = AnnotationSet::from_pair(first, ctx)?;
        let operands = Individual::from_pairs(inner, 1, ctx)?;
        Ok(AnnotatedComponent { component: Component::DifferentIndividuals(operands), ann })
    }

    /// What the node of the `ClassAssertion` form stands for: the class
    /// expression of its second child asserted of the individual of its third,
    /// with the annotations of its first child.
    pub open spec fn lowered_class_assertion(
        inner: ParseNode,
        m: PrefixMapView,
    ) -> Result<AnnotatedComponentView, HornedError> {
        match inner.spec_child(0) {
            Err(e) => Err(e),
            Ok(first) => match AnnotationSet::lowered(first, m) {
                Err(e) => Err(e),
                Ok(ann) => match inner.spec_child(1) {
                    Err(e) => Err(e),
                    Ok(ce_node) => match ClassExpression::lowered(ce_node, m) {
                        Err(e) => Err(e),
                        Ok(ce) => match inner.spec_child(2) {
                            Err(e) => Err(e),
                            Ok(i_node) => match Individual::lowered(i_node, m) {
                                Err(e) => Err(e),
                                Ok(i) => Ok(
                                    AnnotatedComponentView {
                                        component: ComponentView::ClassAssertion { ce, i },
                                        ann,
                                    },
                                ),
                            },
                        },
                    },
                },
            },
        }
    }

    /// Lowers the node of the `ClassAssertion` form.
    pub fn class_assertion_from_pair(
        inner: &ParseNode,
        ctx: &mut Context,
    ) -> (r: Result<AnnotatedComponent, HornedError>)
        ensures
            outcome(r) == AnnotatedComponent::lowered_class_assertion(*inner, old(ctx).mapping@),
            old(ctx).grows_to(*final(ctx)),
    {
        let first = inner.child(0)?;
        let ann = AnnotationSet::from_pair(first, ctx)?;
        let ce_node = inner.child(1)?;
        let ce = ClassExpression::from_pair(ce_node, ctx)?;
        let i_node = inner.child(2)?;
        let i = Individual::from_pair(i_node, ctx)?;
        Ok(AnnotatedComponent { component: Component::ClassAssertion { ce, i }, ann })
    }

    /// What the node of the `ObjectPropertyAssertion` form stands for: the assertion
    /// made of what its second, third and fourth child stand for, in that order,
    /// with the annotations of its first child.
    pub open spec fn lowered_object_property_assertion(
        inner: ParseNode,
        m: PrefixMapView,
    ) -> Result<AnnotatedComponentView, HornedError> {
        match inner.spec_child(0) {
            Err(e) => Err(e),
            Ok(first) => match AnnotationSet::lowered(first, m) {
                Err(e) => Err(e),
                Ok(ann) => match inner.spec_child(1) {
                    Err(e) => Err(e),
                    Ok(ope_node) => match ObjectPropertyExpression::lowered(ope_node, m) {
                        Err(e) => Err(e),
                        Ok(ope) => match inner.spec_child(2) {
                            Err(e) => Err(e),
                            Ok(from_node) => match Individual::lowered(from_node, m) {
                                Err(e) => Err(e),
                                Ok(from) => match inner.spec_child(3) {
                                    Err(e) => Err(e),
                                    Ok(to_node) => match Individual::lowered(to_node, m) {
                                        Err(e) => Err(e),
                                        Ok(to) => Ok(
                                            AnnotatedComponentView {
                                                component: ComponentView::ObjectPropertyAssertion {
                                                    ope,
                                                    from,
                                                    to,
                                                },
                                                ann,
                                            },
                                        ),
                                    },
                                },
                            },
                        },
                    },
                },
            },
        }
    }

    /// Lowers the node of the `ObjectPropertyAssertion` form.
    pub fn object_property_assertion_from_pair(
        inner: &ParseNode,
        ctx: &mut Context,
    ) -> (r: Result<AnnotatedComponent, HornedError>)
        ensures
            outcome(r) == AnnotatedComponent::lowered_object_property_assertion(
                *inner,
                old(ctx).mapping@,
            ),
            old(ctx).grows_to(*final(ctx)),
    {
        let first = inner.child(0)?;
        let ann = AnnotationSet::from_pair(first, ctx)?;
        let ope_node = inner.child(1)?;
        let ope = ObjectPropertyExpression::from_pair(ope_node, ctx)?;
        let from_node = inner.child(2)?;
        let from = Individual::from_pair(from_node, ctx)?;
        let to_node = inner.child(3)?;
        let to = Individual::from_pair(to_node, ctx)?;
        Ok(
            AnnotatedComponent {
                component: Component::ObjectPropertyAssertion { ope, from, to },
                ann,
            },
        )
    }

    /// What the node of the `NegativeObjectPropertyAssertion` form stands for: the assertion
    /// made of what its second, third and fourth child stand for, in that order,
    /// with the annotations of its first child.
    pub open spec fn lowered_negative_object_property_assertion(
        inner: ParseNode,
        m: PrefixMapView,
    ) -> Result<AnnotatedComponentView, HornedError> {
        match inner.spec_child(0) {
            Err(e) => Err(e),
            Ok(first) => match AnnotationSet::lowered(first, m) {
                Err(e) => Err(e),
                Ok(ann) => match inner.spec_child(1) {
                    Err(e) => Err(e),
                    Ok(ope_node) => match ObjectPropertyExpression::lowered(ope_node, m) {
                        Err(e) => Err(e),
                        Ok(ope) => match inner.spec_child(2) {
                            Err(e) => Err(e),
                            Ok(from_node) => match Individual::lowered(from_node, m) {
                                Err(e) => Err(e),
                                Ok(from) => match inner.spec_child(3) {
                                    Err(e) => Err(e),
                                    Ok(to_node) => match Individual::lowered(to_node, m) {
                                        Err(e) => Err(e),
                                        Ok(to) => Ok(
                                            AnnotatedComponentView {
                                                component: ComponentView::NegativeObjectPropertyAssertion {
                                                    ope,
                                                    from,
                                                    to,
                                                },
                                                ann,
                                            },
                                        ),
                                    },
                                },
                            },
                        },
                    },
                },
            },
        }
    }

    /// Lowers the node of the `NegativeObjectPropertyAssertion` form.
    pub fn negative_object_property_assertion_from_pair(
        inner: &ParseNode,
        ctx: &mut Context,
    ) -> (r: Result<AnnotatedComponent, HornedError>)
        ensures
            outcome(r) == AnnotatedComponent::lowered_negative_object_property_assertion(
                *inner,
                old(ctx).mapping@,
            ),
            old(ctx).grows_to(*final(ctx)),
    {
        let first = inner.child(0)?;
        let ann = AnnotationSet::from_pair(first, ctx)?;
        let ope_node = inner.child(1)?;
        let ope = ObjectPropertyExpression::from_pair(ope_node, ctx)?;
        let from_node = inner.child(2)?;
        let from = Individual::from_pair(from_node, ctx)?;
        let to_node = inner.child(3)?;
        let to = Individual::from_pair(to_node, ctx)?;
        Ok(
            AnnotatedComponent {
                component: Component::NegativeObjectPropertyAssertion { ope, from, to },
                ann,
            },
        )
    }

    /// What the node of the `DataPropertyAssertion` form stands for: the assertion
    /// made of what its second, third and fourth child stand for, in that order,
    /// with the annotations of its first child.
    pub open spec fn lowered_data_property_assertion(
        inner: ParseNode,
        m: PrefixMapView,
    ) -> Result<AnnotatedComponentView, HornedError> {
        match inner.spec_child(0) {
            Err(e) => Err(e),
            Ok(first) => match AnnotationSet::lowered(first, m) {
                Err(e) => Err(e),
                Ok(ann) => match inner.spec_child(1) {
                    Err(e) => Err(e),
                    Ok(dp_node) => match DataProperty::lowered(dp_node, m) {
                        Err(e) => Err(e),
                        Ok(dp) => match inner.spec_child(2) {
                            Err(e) => Err(e),
                            Ok(from_node) => match Individual::lowered(from_node, m) {
                                Err(e) => Err(e),
                                Ok(from) => match inner.spec_child(3) {
                                    Err(e) => Err(e),
                                    Ok(to_node) => match Literal::lowered(to_node, m) {
                                        Err(e) => Err(e),
                                        Ok(to) => Ok(
                                            AnnotatedComponentView {
                                                component: ComponentView::DataPropertyAssertion {
                                                    dp,
                                                    from,
                                                    to,
                                                },
                                                ann,
                                            },
                                        ),
                                    },
                                },
                            },
                        },
                    },
                },
            },
        }
    }

    /// Lowers the node of the `DataPropertyAssertion` form.
    pub fn data_property_assertion_from_pair(
        inner: &ParseNode,
        ctx: &mut Context,
    ) -> (r: Result<AnnotatedComponent, HornedError>)
        ensures
            outcome(r) == AnnotatedComponent::lowered_data_property_assertion(
                *inner,
                old(ctx).mapping@,
            ),
            old(ctx).grows_to(*final(ctx)),
    {
        let first = inner.child(0)?;
        let ann = AnnotationSet::from_pair(first, ctx)?;
        let dp_node = inner.child(1)?;
        let dp = DataProperty::from_pair(dp_node, ctx)?;
        let from_node = inner.child(2)?;
        let from = Individual::from_pair(from_node, ctx)?;
        let to_node = inner.child(3)?;
        let to = Literal::from_pair(to_node, ctx)?;
        Ok(AnnotatedComponent { component: Component::DataPropertyAssertion { dp, from, to }, ann })
    }

    /// What the node of the `NegativeDataPropertyAssertion` form stands for: the assertion
    /// made of what its second, third and fourth child stand for, in that order,
    /// with the annotations of its first child.
    pub open spec fn lowered_negative_data_property_assertion(
        inner: ParseNode,
        m: PrefixMapView,
    ) -> Result<AnnotatedComponentView, HornedError> {
        match inner.spec_child(0) {
            Err(e) => Err(e),
            Ok(first) => match AnnotationSet::lowered(first, m) {
                Err(e) => Err(e),
                Ok(ann) => match inner.spec_child(1) {
                    Err(e) => Err(e),
                    Ok(dp_node) => match DataProperty::lowered(dp_node, m) {
                        Err(e) => Err(e),
                        Ok(dp) => match inner.spec_child(2) {
                            Err(e) => Err(e),
                            Ok(from_node) => match Individual::lowered(from_node, m) {
                                Err(e) => Err(e),
                                Ok(from) => match inner.spec_child(3) {
                                    Err(e) => Err(e),
                                    Ok(to_node) => match Literal::lowered(to_node, m) {
                                        Err(e) => Err(e),
                                        Ok(to) => Ok(
                                            AnnotatedComponentView {
                                                component: ComponentView::NegativeDataPropertyAssertion {
                                                    dp,
                                                    from,
                                                    to,
                                                },
                                                ann,
                                            },
                                        ),
                                    },
                                },
                            },
                        },
                    },
                },
            },
        }
    }

    /// Lowers the node of the `NegativeDataPropertyAssertion` form.
    pub fn negative_data_property_assertion_from_pair(
        inner: &ParseNode,
        ctx: &mut Context,
    ) -> (r: Result<AnnotatedComponent, HornedError>)
        ensures
            outcome(r) == AnnotatedComponent::lowered_negative_data_property_assertion(
                *inner,
                old(ctx).mapping@,
            ),
            old(ctx).grows_to(*final(ctx)),
    {
        let first = inner.child(0)?;
        let ann = AnnotationSet::from_pair(first, ctx)?;
        let dp_node = inner.child(1)?;
        let dp = DataProperty::from_pair(dp_node, ctx)?;
        let from_node = inner.child(2)?;
        let from = Individual::from_pair(from_node, ctx)?;
        let to_node = inner.child(3)?;
        let to = Literal::from_pair(to_node, ctx)?;
        Ok(
            AnnotatedComponent {
                component: Component::NegativeDataPropertyAssertion { dp, from, to },
                ann,
            },
        )
    }

    /// What the node of the `AnnotationAssertion` form stands for: the property of
    /// its second child giving the value of its fourth child to the subject of
    /// its third.
    pub open spec fn lowered_annotation_assertion(
        inner: ParseNode,
        m: PrefixMapView,
    ) -> Result<AnnotatedComponentView, HornedError> {
        match inner.spec_child(0) {
            Err(e) => Err(e),
            Ok(first) => match AnnotationSet::lowered(first, m) {
                Err(e) => Err(e),
                Ok(ann) => match inner.spec_child(1) {
                    Err(e) => Err(e),
                    Ok(ap_node) => match AnnotationProperty::lowered(ap_node, m) {
                        Err(e) => Err(e),
                        Ok(ap) => match inner.spec_child(2) {
                            Err(e) => Err(e),
                            Ok(subject_node) => match AnnotationSubject::lowered(subject_node, m) {
                                Err(e) => Err(e),
                                Ok(subject) => match inner.spec_child(3) {
                                    Err(e) => Err(e),
                                    Ok(av_node) => match AnnotationValue::lowered(av_node, m) {
                                        Err(e) => Err(e),
                                        Ok(av) => Ok(
                                            AnnotatedComponentView {
                                                component: ComponentView::AnnotationAssertion {
                                                    subject,
                                                    ann: AnnotationView { ap, av },
                                                },
                                                ann,
                                            },
                                        ),
                                    },
                                },
                            },
                        },
                    },
                },
            },
        }
    }

    /// Lowers the node of the `AnnotationAssertion` form.
    pub fn annotation_assertion_from_pair(
        inner: &ParseNode,
        ctx: &mut Context,
    ) -> (r: Result<AnnotatedComponent, HornedError>)
        ensures
            outcome(r) == AnnotatedComponent::lowered_annotation_assertion(
                *inner,
                old(ctx).mapping@,
            ),
            old(ctx).grows_to(*final(ctx)),
    {
        let first = inner.child(0)?;
        let ann = AnnotationSet::from_pair(first, ctx)?;
        let ap_node = inner.child(1)?;
        let ap = AnnotationProperty::from_pair(ap_node, ctx)?;
        let subject_node = inner.child(2)?;
        let subject = AnnotationSubject::from_pair(subject_node, ctx)?;
        let av_node = inner.child(3)?;
        let av = AnnotationValue::from_pair(av_node, ctx)?;
        Ok(
            AnnotatedComponent {
                component: Component::AnnotationAssertion { subject, ann: Annotation { ap, av } },
                ann,
            },
        )
    }

    /// What the node of the `SubAnnotationPropertyOf` form stands for: the
    /// annotation property below its second child under the one below its third.
    pub open spec fn lowered_sub_annotation_property_of(
        inner: ParseNode,
        m: PrefixMapView,
    ) -> Result<AnnotatedComponentView, HornedError> {
        match inner.spec_child(0) {
            Err(e) => Err(e),
            Ok(first) => match AnnotationSet::lowered(first, m) {
                Err(e) => Err(e),
                Ok(ann) => match inner.spec_child(1) {
                    Err(e) => Err(e),
                    Ok(sub_holder) => match sub_holder.spec_child(0) {
                        Err(e) => Err(e),
                        Ok(sub_node) => match AnnotationProperty::lowered(sub_node, m) {
                            Err(e) => Err(e),
                            Ok(sub) => match inner.spec_child(2) {
                                Err(e) => Err(e),
                                Ok(sup_holder) => match sup_holder.spec_child(0) {
                                    Err(e) => Err(e),
                                    Ok(sup_node) => match AnnotationProperty::lowered(sup_node, m) {
                                        Err(e) => Err(e),
                                        Ok(sup) => Ok(
                                            AnnotatedComponentView {
                                                component: ComponentView::SubAnnotationPropertyOf {
                                                    sub,
                                                    sup,
                                                },
                                                ann,
                                            },
                                        ),
                                    },
                                },
                            },
                        },
                    },
                },
            },
        }
    }

    /// Lowers the node of the `SubAnnotationPropertyOf` form.
    pub fn sub_annotation_property_of_from_pair(
        inner: &ParseNode,
        ctx: &mut Context,
    ) -> (r: Result<AnnotatedComponent, HornedError>)
        ensures
            outcome(r) == AnnotatedComponent::lowered_sub_annotation_property_of(
                *inner,
                old(ctx).mapping@,
            ),
            old(ctx).grows_to(*final(ctx)),
    {
        let first = inner.child(0)?;
        let ann = AnnotationSet::from_pair(first, ctx)?;
        let sub_holder = inner.child(1)?;
        let sub_node = sub_holder.child(0)?;
        let sub = AnnotationProperty::from_pair(sub_node, ctx)?;
        let sup_holder = inner.child(2)?;
        let sup_node = sup_holder.child(0)?;
        let sup = AnnotationProperty::from_pair(sup_node, ctx)?;
        Ok(AnnotatedComponent { component: Component::SubAnnotationPropertyOf { sub, sup }, ann })
    }

    /// What the node of the `AnnotationPropertyDomain` form stands for: the
    /// property of its second child with the IRI of its third, with the
    /// annotations of its first child.
    pub open spec fn lowered_annotation_property_domain(
        inner: ParseNode,
        m: PrefixMapView,
    ) -> Result<AnnotatedComponentView, HornedError> {
        match inner.spec_child(0) {
            Err(e) => Err(e),
            Ok(first) => match AnnotationSet::lowered(first, m) {
                Err(e) => Err(e),
                Ok(ann) => match inner.spec_child(1) {
                    Err(e) => Err(e),
                    Ok(ap_node) => match AnnotationProperty::lowered(ap_node, m) {
                        Err(e) => Err(e),
                        Ok(ap) => match inner.spec_child(2) {
                            Err(e) => Err(e),
                            Ok(iri_node) => match IRI::lowered(iri_node, m) {
                                Err(e) => Err(e),
                                Ok(iri) => Ok(
                                    AnnotatedComponentView {
                                        component: ComponentView::AnnotationPropertyDomain {
                                            ap,
                                            iri,
                                        },
                                        ann,
                                    },
                                ),
                            },
                        },
                    },
                },
            },
        }
    }

    /// Lowers the node of the `AnnotationPropertyDomain` form.
    pub fn annotation_property_domain_from_pair(
        inner: &ParseNode,
        ctx: &mut Context,
    ) -> (r: Result<AnnotatedComponent, HornedError>)
        ensures
            outcome(r) == AnnotatedComponent::lowered_annotation_property_domain(
                *inner,
                old(ctx).mapping@,
            ),
            old(ctx).grows_to(*final(ctx)),
    {
        let first = inner.child(0)?;
        let ann = AnnotationSet::from_pair(first, ctx)?;
        let ap_node = inner.child(1)?;
        let ap = AnnotationProperty::from_pair(ap_node, ctx)?;
        let iri_node = inner.child(2)?;
        let iri = IRI::from_pair(iri_node, ctx)?;
        Ok(AnnotatedComponent { component: Component::AnnotationPropertyDomain { ap, iri }, ann })
    }

    /// What the node of the `AnnotationPropertyRange` form stands for: the
    /// property of its second child with the IRI of its third, with the
    /// annotations of its first child.
    pub open spec fn lowered_annotation_property_range(
        inner: ParseNode,
        m: PrefixMapView,
    ) -> Result<AnnotatedComponentView, HornedError> {
        match inner.spec_child(0) {
            Err(e) => Err(e),
            Ok(first) => match AnnotationSet::lowered(first, m) {
                Err(e) => Err(e),
                Ok(ann) => match inner.spec_child(1) {
                    Err(e) => Err(e),
                    Ok(ap_node) => match AnnotationProperty::lowered(ap_node, m) {
                        Err(e) => Err(e),
                        Ok(ap) => match inner.spec_child(2) {
                            Err(e) => Err(e),
                            Ok(iri_node) => match IRI::lowered(iri_node, m) {
                                Err(e) => Err(e),
                                Ok(iri) => Ok(
                                    AnnotatedComponentView {
                                        component: ComponentView::AnnotationPropertyRange {
                                            ap,
                                            iri,
                                        },
                                        ann,
                                    },
                                ),
                            },
                        },
                    },
                },
            },
        }
    }

    /// Lowers the node of the `AnnotationPropertyRange` form.
    pub fn annotation_property_range_from_pair(
        inner: &ParseNode,
        ctx: &mut Context,
    ) -> (r: Result<AnnotatedComponent, HornedError>)
        ensures
            outcome(r) == AnnotatedComponent::lowered_annotation_property_range(
                *inner,
                old(ctx).mapping@,
            ),
            old(ctx).grows_to(*final(ctx)),
    {
        let first = inner.child(0)?;
        let ann = AnnotationSet::from_pair(first, ctx)?;
        let ap_node = inner.child(1)?;
        let ap = AnnotationProperty::from_pair(ap_node, ctx)?;
        let iri_node = inner.child(2)?;
        let iri = IRI::from_pair(iri_node, ctx)?;
        Ok(AnnotatedComponent { component: Component::AnnotationPropertyRange { ap, iri }, ann })
    }

    /// What an axiom node stands for, its rule taken for granted: the component
    /// that its only child stands for, by the form that the rule of that child
    /// tells, with the annotations that the first child of that child holds.
    pub open spec fn lowered_unchecked(
        node: ParseNode,
        m: PrefixMapView,
    ) -> Result<AnnotatedComponentView, HornedError> {
        match node.spec_child(0) {
            Err(e) => Err(e),
            Ok(inner) => match inner.rule {
                Rule::Declaration => AnnotatedComponent::lowered_declaration(inner, m),
                Rule::SubClassOf => AnnotatedComponent::lowered_sub_class_of(inner, m),
                Rule::EquivalentClasses => AnnotatedComponent::lowered_equivalent_classes(inner, m),
                Rule::DisjointClasses => AnnotatedComponent::lowered_disjoint_classes(inner, m),
                Rule::DisjointUnion => AnnotatedComponent::lowered_disjoint_union(inner, m),
                Rule::SubObjectPropertyOf => {
                    AnnotatedComponent::lowered_sub_object_property_of(inner, m)
                },
                Rule::EquivalentObjectProperties => {
                    AnnotatedComponent::lowered_equivalent_object_properties(inner, m)
                },
                Rule::DisjointObjectProperties => {
                    AnnotatedComponent::lowered_disjoint_object_properties(inner, m)
                },
                Rule::ObjectPropertyDomain => {
                    AnnotatedComponent::lowered_object_property_domain(inner, m)
                },
                Rule::ObjectPropertyRange => {
                    AnnotatedComponent::lowered_object_property_range(inner, m)
                },
                Rule::InverseObjectProperties => {
                    AnnotatedComponent::lowered_inverse_object_properties(inner, m)
                },
                Rule::FunctionalObjectProperty => {
                    AnnotatedComponent::lowered_functional_object_property(inner, m)
                },
                Rule::InverseFunctionalObjectProperty => {
                    AnnotatedComponent::lowered_inverse_functional_object_property(inner, m)
                },
                Rule::ReflexiveObjectProperty => {
                    AnnotatedComponent::lowered_reflexive_object_property(inner, m)
                },
                Rule::IrreflexiveObjectProperty => {
                    AnnotatedComponent::lowered_irreflexive_object_property(inner, m)
                },
                Rule::SymmetricObjectProperty => {
                    AnnotatedComponent::lowered_symmetric_object_property(inner, m)
                },
                Rule::AsymmetricObjectProperty => {
                    AnnotatedComponent::lowered_asymmetric_object_property(inner, m)
                },
                Rule::TransitiveObjectProperty => {
                    AnnotatedComponent::lowered_transitive_object_property(inner, m)
                },
                Rule::SubDataPropertyOf => {
                    AnnotatedComponent::lowered_sub_data_property_of(inner, m)
                },
                Rule::EquivalentDataProperties => {
                    AnnotatedComponent::lowered_equivalent_data_properties(inner, m)
                },
                Rule::DisjointDataProperties => {
                    AnnotatedComponent::lowered_disjoint_data_properties(inner, m)
                },
                Rule::DataPropertyDomain => {
                    AnnotatedComponent::lowered_data_property_domain(inner, m)
                },
                Rule::DataPropertyRange => {
                    AnnotatedComponent::lowered_data_property_range(inner, m)
                },
                Rule::FunctionalDataProperty => {
                    AnnotatedComponent::lowered_functional_data_property(inner, m)
                },
                Rule::DatatypeDefinition => {
                    AnnotatedComponent::lowered_datatype_definition(inner, m)
                },
                Rule::HasKey => AnnotatedComponent::lowered_has_key(inner, m),
                Rule::SameIndividual => AnnotatedComponent::lowered_same_individual(inner, m),
                Rule::DifferentIndividuals => {
                    AnnotatedComponent::lowered_different_individuals(inner, m)
                },
                Rule::ClassAssertion => AnnotatedComponent::lowered_class_assertion(inner, m),
                Rule::ObjectPropertyAssertion => {
                    AnnotatedComponent::lowered_object_property_assertion(inner, m)
                },
                Rule::NegativeObjectPropertyAssertion => {
                    AnnotatedComponent::lowered_negative_object_property_assertion(inner, m)
                },
                Rule::DataPropertyAssertion => {
                    AnnotatedComponent::lowered_data_property_assertion(inner, m)
                },
                Rule::NegativeDataPropertyAssertion => {
                    AnnotatedComponent::lowered_negative_data_property_assertion(inner, m)
                },
                Rule::AnnotationAssertion => {
                    AnnotatedComponent::lowered_annotation_assertion(inner, m)
                },
                Rule::SubAnnotationPropertyOf => {
                    AnnotatedComponent::lowered_sub_annotation_property_of(inner, m)
                },
                Rule::AnnotationPropertyDomain => {
                    AnnotatedComponent::lowered_annotation_property_domain(inner, m)
                },
                Rule::AnnotationPropertyRange => {
                    AnnotatedComponent::lowered_annotation_property_range(inner, m)
                },
                _ => Err(HornedError::unexpected(inner.rule, inner.span)),
            },
        }
    }

    /// Lowers an axiom node without looking at its rule.
    pub fn from_pair_unchecked(
        node: &ParseNode,
        ctx: &mut Context,
    ) -> (r: Result<AnnotatedComponent, HornedError>)
        ensures
            outcome(r) == AnnotatedComponent::lowered_unchecked(*node, old(ctx).mapping@),
            old(ctx).grows_to(*final(ctx)),
    {
        let inner = node.child(0)?;
        match inner.rule {
            Rule::Declaration => AnnotatedComponent::declaration_from_pair(inner, ctx),
            Rule::SubClassOf => AnnotatedComponent::sub_class_of_from_pair(inner, ctx),
            Rule::EquivalentClasses => AnnotatedComponent::equivalent_classes_from_pair(inner, ctx),
            Rule::DisjointClasses => AnnotatedComponent::disjoint_classes_from_pair(inner, ctx),
            Rule::DisjointUnion => AnnotatedComponent::disjoint_union_from_pair(inner, ctx),
            Rule::SubObjectPropertyOf => {
                AnnotatedComponent::sub_object_property_of_from_pair(inner, ctx)
            },
            Rule::EquivalentObjectProperties => {
                AnnotatedComponent::equivalent_object_properties_from_pair(inner, ctx)
            },
            Rule::DisjointObjectProperties => {
                AnnotatedComponent::disjoint_object_properties_from_pair(inner, ctx)
            },
            Rule::ObjectPropertyDomain => {
                AnnotatedComponent::object_property_domain_from_pair(inner, ctx)
            },
            Rule::ObjectPropertyRange => {
                AnnotatedComponent::object_property_range_from_pair(inner, ctx)
            },
            Rule::InverseObjectProperties => {
                AnnotatedComponent::inverse_object_properties_from_pair(inner, ctx)
            },
            Rule::FunctionalObjectProperty => {
                AnnotatedComponent::functional_object_property_from_pair(inner, ctx)
            },
            Rule::InverseFunctionalObjectProperty => {
                AnnotatedComponent::inverse_functional_object_property_from_pair(inner, ctx)
            },
            Rule::ReflexiveObjectProperty => {
                AnnotatedComponent::reflexive_object_property_from_pair(inner, ctx)
            },
            Rule::IrreflexiveObjectProperty => {
                AnnotatedComponent::irreflexive_object_property_from_pair(inner, ctx)
            },
            Rule::SymmetricObjectProperty => {
                AnnotatedComponent::symmetric_object_property_from_pair(inner, ctx)
            },
            Rule::AsymmetricObjectProperty => {
                AnnotatedComponent::asymmetric_object_property_from_pair(inner, ctx)
            },
            Rule::TransitiveObjectProperty => {
                AnnotatedComponent::transitive_object_property_from_pair(inner, ctx)
            },
            Rule::SubDataPropertyOf => {
                AnnotatedComponent::sub_data_property_of_from_pair(inner, ctx)
            },
            Rule::EquivalentDataProperties => {
                AnnotatedComponent::equivalent_data_properties_from_pair(inner, ctx)
            },
            Rule::DisjointDataProperties => {
                AnnotatedComponent::disjoint_data_properties_from_pair(inner, ctx)
            },
            Rule::DataPropertyDomain => {
                AnnotatedComponent::data_property_domain_from_pair(inner, ctx)
            },
            Rule::DataPropertyRange => {
                AnnotatedComponent::data_property_range_from_pair(inner, ctx)
            },
            Rule::FunctionalDataProperty => {
                AnnotatedComponent::functional_data_property_from_pair(inner, ctx)
            },
            Rule::DatatypeDefinition => {
                AnnotatedComponent::datatype_definition_from_pair(inner, ctx)
            },
            Rule::HasKey => AnnotatedComponent::has_key_from_pair(inner, ctx),
            Rule::SameIndividual => AnnotatedComponent::same_individual_from_pair(inner, ctx),
            Rule::DifferentIndividuals => {
                AnnotatedComponent::different_individuals_from_pair(inner, ctx)
            },
            Rule::ClassAssertion => AnnotatedComponent::class_assertion_from_pair(inner, ctx),
            Rule::ObjectPropertyAssertion => {
                AnnotatedComponent::object_property_assertion_from_pair(inner, ctx)
            },
            Rule::NegativeObjectPropertyAssertion => {
                AnnotatedComponent::negative_object_property_assertion_from_pair(inner, ctx)
            },
            Rule::DataPropertyAssertion => {
                AnnotatedComponent::data_property_assertion_from_pair(inner, ctx)
            },
            Rule::NegativeDataPropertyAssertion => {
                AnnotatedComponent::negative_data_property_assertion_from_pair(inner, ctx)
            },
            Rule::AnnotationAssertion => {
                AnnotatedComponent::annotation_assertion_from_pair(inner, ctx)
            },
            Rule::SubAnnotationPropertyOf => {
                AnnotatedComponent::sub_annotation_property_of_from_pair(inner, ctx)
            },
            Rule::AnnotationPropertyDomain => {
                AnnotatedComponent::annotation_property_domain_from_pair(inner, ctx)
            },
            Rule::AnnotationPropertyRange => {
                AnnotatedComponent::annotation_property_range_from_pair(inner, ctx)
            },
            _ => Err(
                HornedError::ParseError {
                    positives: Some(inner.rule),
                    negatives: None,
                    span: inner.span,
                },
            ),
        }
    }

    /// What an axiom node stands for.
    pub open spec fn lowered(
        node: ParseNode,
        m: PrefixMapView,
    ) -> Result<AnnotatedComponentView, HornedError> {
        match node.spec_expect(Rule::Axiom) {
            Err(e) => Err(e),
            Ok(_) => AnnotatedComponent::lowered_unchecked(node, m),
        }
    }

    /// Lowers an axiom node.
    pub fn from_pair(
        node: &ParseNode,
        ctx: &mut Context,
    ) -> (r: Result<AnnotatedComponent, HornedError>)
        ensures
            outcome(r) == AnnotatedComponent::lowered(*node, old(ctx).mapping@),
            old(ctx).grows_to(*final(ctx)),
    {
        node.expect(Rule::Axiom)?;
        AnnotatedComponent::from_pair_unchecked(node, ctx)
    }
}

/// A subclass statement holds its operands the other way round than the
/// document writes them: where a `SubClassOf` form is lowered, the superclass
/// of the statement is what the third child of the form stands for, its
/// second operand, and the subclass is what the second child stands for.
pub proof fn lemma_sub_class_of_order(node: ParseNode, m: PrefixMapView)
    requires
        node.rule == Rule::Axiom,
        node.children@.len() > 0,
        node.children@[0].rule == Rule::SubClassOf,
        AnnotatedComponent::lowered(node, m) is Ok,
    ensures
        node.children@[0].children@.len() >= 3,
        ClassExpression::lowered(node.children@[0].children@[1], m) is Ok,
        ClassExpression::lowered(node.children@[0].children@[2], m) is Ok,
        AnnotatedComponent::lowered(node, m)->Ok_0.component == ComponentView::SubClassOf(
            SubClassView {
                superclass: ClassExpression::lowered(node.children@[0].children@[2], m)->Ok_0,
                subclass: ClassExpression::lowered(node.children@[0].children@[1], m)->Ok_0,
            },
        ),
{
}

} // verus!
