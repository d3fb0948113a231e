//! The components of an ontology: its header, declarations and axioms.

use vstd::prelude::*;
use vstd::std_specs::convert::FromSpecImpl;
use crate::model::annotation::Annotation;
use crate::model::annotation::AnnotationSet;
use crate::model::annotation::AnnotationSubject;
use crate::model::annotation::AnnotationSubjectView;
use crate::model::annotation::AnnotationView;
use crate::model::entity::clone_optional_iri;
use crate::model::entity::optional_iri_view;
use crate::model::entity::same_optional_iri;
use crate::model::entity::AnnotationProperty;
use crate::model::entity::Class;
use crate::model::entity::DataProperty;
use crate::model::entity::Datatype;
use crate::model::entity::Individual;
use crate::model::entity::IndividualView;
use crate::model::entity::NamedEntity;
use crate::model::entity::NamedIndividual;
use crate::model::entity::ObjectProperty;
use crate::model::expression::ClassExpression;
use crate::model::expression::ClassExpressionView;
use crate::model::expression::DataRange;
use crate::model::expression::DataRangeView;
use crate::model::expression::Literal;
use crate::model::expression::LiteralView;
use crate::model::expression::ObjectPropertyExpression;
use crate::model::expression::ObjectPropertyExpressionView;
use crate::model::expression::PropertyExpression;
use crate::model::expression::PropertyExpressionView;
use crate::model::expression::SubObjectPropertyExpression;
use crate::model::expression::SubObjectPropertyExpressionView;
use crate::model::iri::IRI;

verus! {

/// The IRI of an ontology and the IRI of its version, either of which may be
/// absent.
#[derive(Debug, PartialEq, Eq, Hash)]
pub struct OntologyID {
    pub iri: Option<IRI>,
    pub viri: Option<IRI>,
}

/// The value that an `OntologyID` stands for.
pub struct OntologyIDView {
    pub iri: Option<Seq<char>>,
    pub viri: Option<Seq<char>>,
}

impl View for OntologyID {
    type V = OntologyIDView;

    open spec fn view(&self) -> OntologyIDView {
        match *self {
            OntologyID { iri: x0, viri: x1 } => {
                OntologyIDView { iri: optional_iri_view(x0), viri: optional_iri_view(x1) }
            },
        }
    }
}

impl OntologyID {
    /// Whether the two stand for the same value.
    pub fn same(&self, other: &OntologyID) -> (r: bool)
        ensures
            r == (self@ == other@),
    {
        same_optional_iri(&self.iri, &other.iri) && same_optional_iri(&self.viri, &other.viri)
    }
}

impl Clone for OntologyID {
    fn clone(&self) -> (r: Self)
        ensures
            r@ == self@,
    {
        OntologyID { iri: clone_optional_iri(&self.iri), viri: clone_optional_iri(&self.viri) }
    }
}

/// The statement that every member of `subclass` is a member of `superclass`.
///
/// The superclass stands first here, although documents write the subclass
/// first.
#[derive(Debug, PartialEq, Eq, Hash)]
pub struct SubClass {
    pub superclass: ClassExpression,
    pub subclass: ClassExpression,
}

/// The value that a `SubClass` stands for.
pub struct SubClassView {
    pub superclass: ClassExpressionView,
    pub subclass: ClassExpressionView,
}

impl View for SubClass {
    type V = SubClassView;

    open spec fn view(&self) -> SubClassView {
        match *self {
            SubClass { superclass: x0, subclass: x1 } => {
                SubClassView { superclass: x0@, subclass: x1@ }
            },
        }
    }
}

impl SubClass {
    /// Whether the two stand for the same value.
    pub fn same(&self, other: &SubClass) -> (r: bool)
        ensures
            r == (self@ == other@),
    {
        self.superclass.same(&other.superclass) && self.subclass.same(&other.subclass)
    }
}

impl Clone for SubClass {
    fn clone(&self) -> (r: Self)
        ensures
            r@ == self@,
    {
        SubClass { superclass: self.superclass.clone(), subclass: self.subclass.clone() }
    }
}

/// The kinds of component, one for each form that a component can take.
#[derive(Clone, Copy, Debug, PartialEq, Eq, Hash, Structural)]
pub enum AxiomKind {
    OntologyID,
    Import,
    OntologyAnnotation,
    DeclareClass,
    DeclareObjectProperty,
    DeclareAnnotationProperty,
    DeclareDataProperty,
    DeclareNamedIndividual,
    DeclareDatatype,
    SubClassOf,
    EquivalentClasses,
    DisjointClasses,
    DisjointUnion,
    SubObjectPropertyOf,
    EquivalentObjectProperties,
    DisjointObjectProperties,
    InverseObjectProperties,
    ObjectPropertyDomain,
    ObjectPropertyRange,
    FunctionalObjectProperty,
    InverseFunctionalObjectProperty,
    ReflexiveObjectProperty,
    IrreflexiveObjectProperty,
    SymmetricObjectProperty,
    AsymmetricObjectProperty,
    TransitiveObjectProperty,
    SubDataPropertyOf,
    EquivalentDataProperties,
    DisjointDataProperties,
    DataPropertyDomain,
    DataPropertyRange,
    FunctionalDataProperty,
    DatatypeDefinition,
    HasKey,
    SameIndividual,
    DifferentIndividuals,
    ClassAssertion,
    ObjectPropertyAssertion,
    NegativeObjectPropertyAssertion,
    DataPropertyAssertion,
    NegativeDataPropertyAssertion,
    AnnotationAssertion,
    SubAnnotationPropertyOf,
    AnnotationPropertyDomain,
    AnnotationPropertyRange,
}

/// The number of kinds of component.
pub const KIND_COUNT: usize = 45;

impl AxiomKind {
    /// The position of the kind in the fixed order of kinds.
    #[verifier::opaque]
    pub open spec fn spec_index(self) -> int {
        match self {
            AxiomKind::OntologyID => 0,
            AxiomKind::Import => 1,
            AxiomKind::OntologyAnnotation => 2,
            AxiomKind::DeclareClass => 3,
            AxiomKind::DeclareObjectProperty => 4,
            AxiomKind::DeclareAnnotationProperty => 5,
            AxiomKind::DeclareDataProperty => 6,
            AxiomKind::DeclareNamedIndividual => 7,
            AxiomKind::DeclareDatatype => 8,
            AxiomKind::SubClassOf => 9,
            AxiomKind::EquivalentClasses => 10,
            AxiomKind::DisjointClasses => 11,
            AxiomKind::DisjointUnion => 12,
            AxiomKind::SubObjectPropertyOf => 13,
            AxiomKind::EquivalentObjectProperties => 14,
            AxiomKind::DisjointObjectProperties => 15,
            AxiomKind::InverseObjectProperties => 16,
            AxiomKind::ObjectPropertyDomain => 17,
            AxiomKind::ObjectPropertyRange => 18,
            AxiomKind::FunctionalObjectProperty => 19,
            AxiomKind::InverseFunctionalObjectProperty => 20,
            AxiomKind::ReflexiveObjectProperty => 21,
            AxiomKind::IrreflexiveObjectProperty => 22,
            AxiomKind::SymmetricObjectProperty => 23,
            AxiomKind::AsymmetricObjectProperty => 24,
            AxiomKind::TransitiveObjectProperty => 25,
            AxiomKind::SubDataPropertyOf => 26,
            AxiomKind::EquivalentDataProperties => 27,
            AxiomKind::DisjointDataProperties => 28,
            AxiomKind::DataPropertyDomain => 29,
            AxiomKind::DataPropertyRange => 30,
            AxiomKind::FunctionalDataProperty => 31,
            AxiomKind::DatatypeDefinition => 32,
            AxiomKind::HasKey => 33,
            AxiomKind::SameIndividual => 34,
            AxiomKind::DifferentIndividuals => 35,
            AxiomKind::ClassAssertion => 36,
            AxiomKind::ObjectPropertyAssertion => 37,
            AxiomKind::NegativeObjectPropertyAssertion => 38,
            AxiomKind::DataPropertyAssertion => 39,
            AxiomKind::NegativeDataPropertyAssertion => 40,
            AxiomKind::AnnotationAssertion => 41,
            AxiomKind::SubAnnotationPropertyOf => 42,
            AxiomKind::AnnotationPropertyDomain => 43,
            AxiomKind::AnnotationPropertyRange => 44,
        }
    }

    /// The kind at position `i` of the fixed order of kinds.
    #[verifier::opaque]
    pub open spec fn at(i: int) -> AxiomKind {
        if i == 0 {
            AxiomKind::OntologyID
        } else if i == 1 {
            AxiomKind::Import
        } else if i == 2 {
            AxiomKind::OntologyAnnotation
        } else if i == 3 {
            AxiomKind::DeclareClass
        } else if i == 4 {
            AxiomKind::DeclareObjectProperty
        } else if i == 5 {
            AxiomKind::DeclareAnnotationProperty
        } else if i == 6 {
            AxiomKind::DeclareDataProperty
        } else if i == 7 {
            AxiomKind::DeclareNamedIndividual
        } else if i == 8 {
            AxiomKind::DeclareDatatype
        } else if i == 9 {
            AxiomKind::SubClassOf
        } else if i == 10 {
            AxiomKind::EquivalentClasses
        } else if i == 11 {
            AxiomKind::DisjointClasses
        } else if i == 12 {
            AxiomKind::DisjointUnion
        } else if i == 13 {
            AxiomKind::SubObjectPropertyOf
        } else if i == 14 {
            AxiomKind::EquivalentObjectProperties
        } else if i == 15 {
            AxiomKind::DisjointObjectProperties
        } else if i == 16 {
            AxiomKind::InverseObjectProperties
        } else if i == 17 {
            AxiomKind::ObjectPropertyDomain
        } else if i == 18 {
            AxiomKind::ObjectPropertyRange
        } else if i == 19 {
            AxiomKind::FunctionalObjectProperty
        } else if i == 20 {
            AxiomKind::InverseFunctionalObjectProperty
        } else if i == 21 {
            AxiomKind::ReflexiveObjectProperty
        } else if i == 22 {
            AxiomKind::IrreflexiveObjectProperty
        } else if i == 23 {
            AxiomKind::SymmetricObjectProperty
        } else if i == 24 {
            AxiomKind::AsymmetricObjectProperty
        } else if i == 25 {
            AxiomKind::TransitiveObjectProperty
        } else if i == 26 {
            AxiomKind::SubDataPropertyOf
        } else if i == 27 {
            AxiomKind::EquivalentDataProperties
        } else if i == 28 {
            AxiomKind::DisjointDataProperties
        } else if i == 29 {
            AxiomKind::DataPropertyDomain
        } else if i == 30 {
            AxiomKind::DataPropertyRange
        } else if i == 31 {
            AxiomKind::FunctionalDataProperty
        } else if i == 32 {
            AxiomKind::DatatypeDefinition
        } else if i == 33 {
            AxiomKind::HasKey
        } else if i == 34 {
            AxiomKind::SameIndividual
        } else if i == 35 {
            AxiomKind::DifferentIndividuals
        } else if i == 36 {
            AxiomKind::ClassAssertion
        } else if i == 37 {
            AxiomKind::ObjectPropertyAssertion
        } else if i == 38 {
            AxiomKind::NegativeObjectPropertyAssertion
        } else if i == 39 {
            AxiomKind::DataPropertyAssertion
        } else if i == 40 {
            AxiomKind::NegativeDataPropertyAssertion
        } else if i == 41 {
            AxiomKind::AnnotationAssertion
        } else if i == 42 {
            AxiomKind::SubAnnotationPropertyOf
        } else if i == 43 {
            AxiomKind::AnnotationPropertyDomain
        } else {
            AxiomKind::AnnotationPropertyRange
        }
    }

    /// The position of the kind in the fixed order of kinds.
    pub fn index(&self) -> (r: usize)
        ensures
            r == self.spec_index(),
            r < KIND_COUNT,
            AxiomKind::at(r as int) == *self,
    {
        reveal(AxiomKind::spec_index);
        reveal(AxiomKind::at);
        match self {
            AxiomKind::OntologyID => 0,
            AxiomKind::Import => 1,
            AxiomKind::OntologyAnnotation => 2,
            AxiomKind::DeclareClass => 3,
            AxiomKind::DeclareObjectProperty => 4,
            AxiomKind::DeclareAnnotationProperty => 5,
            AxiomKind::DeclareDataProperty => 6,
            AxiomKind::DeclareNamedIndividual => 7,
            AxiomKind::DeclareDatatype => 8,
            AxiomKind::SubClassOf => 9,
            AxiomKind::EquivalentClasses => 10,
            AxiomKind::DisjointClasses => 11,
            AxiomKind::DisjointUnion => 12,
            AxiomKind::SubObjectPropertyOf => 13,
            AxiomKind::EquivalentObjectProperties => 14,
            AxiomKind::DisjointObjectProperties => 15,
            AxiomKind::InverseObjectProperties => 16,
            AxiomKind::ObjectPropertyDomain => 17,
            AxiomKind::ObjectPropertyRange => 18,
            AxiomKind::FunctionalObjectProperty => 19,
            AxiomKind::InverseFunctionalObjectProperty => 20,
            AxiomKind::ReflexiveObjectProperty => 21,
            AxiomKind::IrreflexiveObjectProperty => 22,
            AxiomKind::SymmetricObjectProperty => 23,
            AxiomKind::AsymmetricObjectProperty => 24,
            AxiomKind::TransitiveObjectProperty => 25,
            AxiomKind::SubDataPropertyOf => 26,
            AxiomKind::EquivalentDataProperties => 27,
            AxiomKind::DisjointDataProperties => 28,
            AxiomKind::DataPropertyDomain => 29,
            AxiomKind::DataPropertyRange => 30,
            AxiomKind::FunctionalDataProperty => 31,
            AxiomKind::DatatypeDefinition => 32,
            AxiomKind::HasKey => 33,
            AxiomKind::SameIndividual => 34,
            AxiomKind::DifferentIndividuals => 35,
            AxiomKind::ClassAssertion => 36,
            AxiomKind::ObjectPropertyAssertion => 37,
            AxiomKind::NegativeObjectPropertyAssertion => 38,
            AxiomKind::DataPropertyAssertion => 39,
            AxiomKind::NegativeDataPropertyAssertion => 40,
            AxiomKind::AnnotationAssertion => 41,
            AxiomKind::SubAnnotationPropertyOf => 42,
            AxiomKind::AnnotationPropertyDomain => 43,
            AxiomKind::AnnotationPropertyRange => 44,
        }
    }

    /// Every position below the number of kinds is the position of the kind
    /// at that position.
    pub proof fn lemma_positions(i: int)
        requires
            0 <= i < KIND_COUNT,
        ensures
            AxiomKind::at(i).spec_index() == i,
    {
        reveal(AxiomKind::spec_index);
        reveal(AxiomKind::at);
    }

    /// Every kind has a position below the number of kinds, and is the kind
    /// at that position: no two kinds share a position.
    pub proof fn lemma_index(self)
        ensures
            0 <= self.spec_index() < KIND_COUNT,
            AxiomKind::at(self.spec_index()) == self,
    {
        reveal(AxiomKind::spec_index);
        reveal(AxiomKind::at);
    }
}

/// A component of an ontology: part of its header, a declaration or an axiom.
#[derive(Debug, PartialEq, Eq, Hash)]
pub enum Component {
    /// The IRI and the version IRI of the ontology.
    OntologyID(OntologyID),
    /// The IRI of an ontology that this one imports. Nothing is fetched.
    Import(IRI),
    /// An annotation on the ontology itself.
    OntologyAnnotation(Annotation),
    /// The entity is a class.
    DeclareClass(Class),
    /// The entity is an object property.
    DeclareObjectProperty(ObjectProperty),
    /// The entity is an annotation property.
    DeclareAnnotationProperty(AnnotationProperty),
    /// The entity is a data property.
    DeclareDataProperty(DataProperty),
    /// The entity is an individual.
    DeclareNamedIndividual(NamedIndividual),
    /// The entity is a datatype.
    DeclareDatatype(Datatype),
    /// One class expression is a subclass of another.
    SubClassOf(SubClass),
    /// The class expressions have the same members.
    EquivalentClasses(Vec<ClassExpression>),
    /// No two of the class expressions share a member.
    DisjointClasses(Vec<ClassExpression>),
    /// The class is the union of the class expressions, no two of which share a member.
    DisjointUnion(Class, Vec<ClassExpression>),
    /// Whatever `sub` relates, `sup` relates.
    SubObjectPropertyOf { sup: ObjectPropertyExpression, sub: SubObjectPropertyExpression },
    /// The properties relate the same individuals.
    EquivalentObjectProperties(Vec<ObjectPropertyExpression>),
    /// No two of the properties relate the same two individuals.
    DisjointObjectProperties(Vec<ObjectPropertyExpression>),
    /// Each property relates what the other relates, the other way round.
    InverseObjectProperties(ObjectProperty, ObjectProperty),
    /// What `ope` relates to anything belongs to `ce`.
    ObjectPropertyDomain { ope: ObjectPropertyExpression, ce: ClassExpression },
    /// What `ope` relates anything to belongs to `ce`.
    ObjectPropertyRange { ope: ObjectPropertyExpression, ce: ClassExpression },
    /// The property relates an individual to one individual at most.
    FunctionalObjectProperty(ObjectPropertyExpression),
    /// The property relates one individual at most to an individual.
    InverseFunctionalObjectProperty(ObjectPropertyExpression),
    /// The property relates every individual to itself.
    ReflexiveObjectProperty(ObjectPropertyExpression),
    /// The property relates no individual to itself.
    IrreflexiveObjectProperty(ObjectPropertyExpression),
    /// The property relates two individuals both ways or not at all.
    SymmetricObjectProperty(ObjectPropertyExpression),
    /// The property never relates two individuals both ways.
    AsymmetricObjectProperty(ObjectPropertyExpression),
    /// The property relates what a chain of it relates.
    TransitiveObjectProperty(ObjectPropertyExpression),
    /// Whatever `sub` relates, `sup` relates.
    SubDataPropertyOf { sup: DataProperty, sub: DataProperty },
    /// The properties relate the same individuals to the same literals.
    EquivalentDataProperties(Vec<DataProperty>),
    /// No two of the properties relate the same individual to the same literal.
    DisjointDataProperties(Vec<DataProperty>),
    /// What `dp` relates to anything belongs to `ce`.
    DataPropertyDomain { dp: DataProperty, ce: ClassExpression },
    /// What `dp` relates anything to belongs to `dr`.
    DataPropertyRange { dp: DataProperty, dr: DataRange },
    /// The property relates an individual to one literal at most.
    FunctionalDataProperty(DataProperty),
    /// The datatype `kind` holds the literals of `range`.
    DatatypeDefinition { kind: Datatype, range: DataRange },
    /// The members of `ce` are told apart by what the properties of `vpe` relate them to.
    HasKey { ce: ClassExpression, vpe: Vec<PropertyExpression> },
    /// The individuals are one.
    SameIndividual(Vec<Individual>),
    /// No two of the individuals are one.
    DifferentIndividuals(Vec<Individual>),
    /// The individual `i` belongs to `ce`.
    ClassAssertion { ce: ClassExpression, i: Individual },
    /// The property relates `from` to `to`.
    ObjectPropertyAssertion { ope: ObjectPropertyExpression, from: Individual, to: Individual },
    /// The property does not relate `from` to `to`.
    NegativeObjectPropertyAssertion {
        ope: ObjectPropertyExpression,
        from: Individual,
        to: Individual,
    },
    /// The property relates `from` to the literal `to`.
    DataPropertyAssertion { dp: DataProperty, from: Individual, to: Literal },
    /// The property does not relate `from` to the literal `to`.
    NegativeDataPropertyAssertion { dp: DataProperty, from: Individual, to: Literal },
    /// The annotation `ann` is made on `subject`.
    AnnotationAssertion { subject: AnnotationSubject, ann: Annotation },
    /// What `sub` annotates, `sup` annotates.
    SubAnnotationPropertyOf { sub: AnnotationProperty, sup: AnnotationProperty },
    /// What `ap` annotates is of the kind that `iri` names.
    AnnotationPropertyDomain { ap: AnnotationProperty, iri: IRI },
    /// What `ap` gives as a value is of the kind that `iri` names.
    AnnotationPropertyRange { ap: AnnotationProperty, iri: IRI },
}

/// The value that a `Component` stands for.
pub enum ComponentView {
    OntologyID(OntologyIDView),
    Import(Seq<char>),
    OntologyAnnotation(AnnotationView),
    DeclareClass(Seq<char>),
    DeclareObjectProperty(Seq<char>),
    DeclareAnnotationProperty(Seq<char>),
    DeclareDataProperty(Seq<char>),
    DeclareNamedIndividual(Seq<char>),
    DeclareDatatype(Seq<char>),
    SubClassOf(SubClassView),
    EquivalentClasses(Seq<ClassExpressionView>),
    DisjointClasses(Seq<ClassExpressionView>),
    DisjointUnion(Seq<char>, Seq<ClassExpressionView>),
    SubObjectPropertyOf { sup: ObjectPropertyExpressionView, sub: SubObjectPropertyExpressionView },
    EquivalentObjectProperties(Seq<ObjectPropertyExpressionView>),
    DisjointObjectProperties(Seq<ObjectPropertyExpressionView>),
    InverseObjectProperties(Seq<char>, Seq<char>),
    ObjectPropertyDomain { ope: ObjectPropertyExpressionView, ce: ClassExpressionView },
    ObjectPropertyRange { ope: ObjectPropertyExpressionView, ce: ClassExpressionView },
    FunctionalObjectProperty(ObjectPropertyExpressionView),
    InverseFunctionalObjectProperty(ObjectPropertyExpressionView),
    ReflexiveObjectProperty(ObjectPropertyExpressionView),
    IrreflexiveObjectProperty(ObjectPropertyExpressionView),
    SymmetricObjectProperty(ObjectPropertyExpressionView),
    AsymmetricObjectProperty(ObjectPropertyExpressionView),
    TransitiveObjectProperty(ObjectPropertyExpressionView),
    SubDataPropertyOf { sup: Seq<char>, sub: Seq<char> },
    EquivalentDataProperties(Seq<Seq<char>>),
    DisjointDataProperties(Seq<Seq<char>>),
    DataPropertyDomain { dp: Seq<char>, ce: ClassExpressionView },
    DataPropertyRange { dp: Seq<char>, dr: DataRangeView },
    FunctionalDataProperty(Seq<char>),
    DatatypeDefinition { kind: Seq<char>, range: DataRangeView },
    HasKey { ce: ClassExpressionView, vpe: Seq<PropertyExpressionView> },
    SameIndividual(Seq<IndividualView>),
    DifferentIndividuals(Seq<IndividualView>),
    ClassAssertion { ce: ClassExpressionView, i: IndividualView },
    ObjectPropertyAssertion {
        ope: ObjectPropertyExpressionView,
        from: IndividualView,
        to: IndividualView,
    },
    NegativeObjectPropertyAssertion {
        ope: ObjectPropertyExpressionView,
        from: IndividualView,
        to: IndividualView,
    },
    DataPropertyAssertion { dp: Seq<char>, from: IndividualView, to: LiteralView },
    NegativeDataPropertyAssertion { dp: Seq<char>, from: IndividualView, to: LiteralView },
    AnnotationAssertion { subject: AnnotationSubjectView, ann: AnnotationView },
    SubAnnotationPropertyOf { sub: Seq<char>, sup: Seq<char> },
    AnnotationPropertyDomain { ap: Seq<char>, iri: Seq<char> },
    AnnotationPropertyRange { ap: Seq<char>, iri: Seq<char> },
}

impl View for Component {
    type V = ComponentView;

    open spec fn view(&self) -> ComponentView {
        match *self {
            Component::OntologyID(x0) => ComponentView::OntologyID(x0@),
            Component::Import(x0) => ComponentView::Import(x0@),
            Component::OntologyAnnotation(x0) => ComponentView::OntologyAnnotation(x0@),
            Component::DeclareClass(x0) => ComponentView::DeclareClass(x0@),
            Component::DeclareObjectProperty(x0) => ComponentView::DeclareObjectProperty(x0@),
            Component::DeclareAnnotationProperty(x0) => {
                ComponentView::DeclareAnnotationProperty(x0@)
            },
            Component::DeclareDataProperty(x0) => ComponentView::DeclareDataProperty(x0@),
            Component::DeclareNamedIndividual(x0) => ComponentView::DeclareNamedIndividual(x0@),
            Component::DeclareDatatype(x0) => ComponentView::DeclareDatatype(x0@),
            Component::SubClassOf(x0) => ComponentView::SubClassOf(x0@),
            Component::EquivalentClasses(x0) => {
                ComponentView::EquivalentClasses(ClassExpression::seq_view(x0))
            },
            Component::DisjointClasses(x0) => {
                ComponentView::DisjointClasses(ClassExpression::seq_view(x0))
            },
            Component::DisjointUnion(x0, x1) => {
                ComponentView::DisjointUnion(x0@, ClassExpression::seq_view(x1))
            },
            Component::SubObjectPropertyOf { sup: x0, sub: x1 } => {
                ComponentView::SubObjectPropertyOf { sup: x0@, sub: x1@ }
            },
            Component::EquivalentObjectProperties(x0) => {
                ComponentView::EquivalentObjectProperties(ObjectPropertyExpression::seq_view(x0))
            },
            Component::DisjointObjectProperties(x0) => {
                ComponentView::DisjointObjectProperties(ObjectPropertyExpression::seq_view(x0))
            },
            Component::InverseObjectProperties(x0, x1) => {
                ComponentView::InverseObjectProperties(x0@, x1@)
            },
            Component::ObjectPropertyDomain { ope: x0, ce: x1 } => {
                ComponentView::ObjectPropertyDomain { ope: x0@, ce: x1@ }
            },
            Component::ObjectPropertyRange { ope: x0, ce: x1 } => {
                ComponentView::ObjectPropertyRange { ope: x0@, ce: x1@ }
            },
            Component::FunctionalObjectProperty(x0) => ComponentView::FunctionalObjectProperty(x0@),
            Component::InverseFunctionalObjectProperty(x0) => {
                ComponentView::InverseFunctionalObjectProperty(x0@)
            },
            Component::ReflexiveObjectProperty(x0) => ComponentView::ReflexiveObjectProperty(x0@),
            Component::IrreflexiveObjectProperty(x0) => {
                ComponentView::IrreflexiveObjectProperty(x0@)
            },
            Component::SymmetricObjectProperty(x0) => ComponentView::SymmetricObjectProperty(x0@),
            Component::AsymmetricObjectProperty(x0) => ComponentView::AsymmetricObjectProperty(x0@),
            Component::TransitiveObjectProperty(x0) => ComponentView::TransitiveObjectProperty(x0@),
            Component::SubDataPropertyOf { sup: x0, sub: x1 } => {
                ComponentView::SubDataPropertyOf { sup: x0@, sub: x1@ }
            },
            Component::EquivalentDataProperties(x0) => {
                ComponentView::EquivalentDataProperties(DataProperty::seq_view(x0))
            },
            Component::DisjointDataProperties(x0) => {
                ComponentView::DisjointDataProperties(DataProperty::seq_view(x0))
            },
            Component::DataPropertyDomain { dp: x0, ce: x1 } => {
                ComponentView::DataPropertyDomain { dp: x0@, ce: x1@ }
            },
            Component::DataPropertyRange { dp: x0, dr: x1 } => {
                ComponentView::DataPropertyRange { dp: x0@, dr: x1@ }
            },
            Component::FunctionalDataProperty(x0) => ComponentView::FunctionalDataProperty(x0@),
            Component::DatatypeDefinition { kind: x0, range: x1 } => {
                ComponentView::DatatypeDefinition { kind: x0@, range: x1@ }
            },
            Component::HasKey { ce: x0, vpe: x1 } => {
                ComponentView::HasKey { ce: x0@, vpe: PropertyExpression::seq_view(x1) }
            },
            Component::SameIndividual(x0) => {
                ComponentView::SameIndividual(Individual::seq_view(x0))
            },
            Component::DifferentIndividuals(x0) => {
                ComponentView::DifferentIndividuals(Individual::seq_view(x0))
            },
            Component::ClassAssertion { ce: x0, i: x1 } => {
                ComponentView::ClassAssertion { ce: x0@, i: x1@ }
            },
            Component::ObjectPropertyAssertion { ope: x0, from: x1, to: x2 } => {
                ComponentView::ObjectPropertyAssertion { ope: x0@, from: x1@, to: x2@ }
            },
            Component::NegativeObjectPropertyAssertion { ope: x0, from: x1, to: x2 } => {
                ComponentView::NegativeObjectPropertyAssertion { ope: x0@, from: x1@, to: x2@ }
            },
            Component::DataPropertyAssertion { dp: x0, from: x1, to: x2 } => {
                ComponentView::DataPropertyAssertion { dp: x0@, from: x1@, to: x2@ }
            },
            Component::NegativeDataPropertyAssertion { dp: x0, from: x1, to: x2 } => {
                ComponentView::NegativeDataPropertyAssertion { dp: x0@, from: x1@, to: x2@ }
            },
            Component::AnnotationAssertion { subject: x0, ann: x1 } => {
                ComponentView::AnnotationAssertion { subject: x0@, ann: x1@ }
            },
            Component::SubAnnotationPropertyOf { sub: x0, sup: x1 } => {
                ComponentView::SubAnnotationPropertyOf { sub: x0@, sup: x1@ }
            },
            Component::AnnotationPropertyDomain { ap: x0, iri: x1 } => {
                ComponentView::AnnotationPropertyDomain { ap: x0@, iri: x1@ }
            },
            Component::AnnotationPropertyRange { ap: x0, iri: x1 } => {
                ComponentView::AnnotationPropertyRange { ap: x0@, iri: x1@ }
            },
        }
    }
}

impl Component {
    /// Whether the two stand for the same value.
    pub fn same(&self, other: &Component) -> (r: bool)
        ensures
            r == (self@ == other@),
    {
        match (self, other) {
            (Component::OntologyID(a0), Component::OntologyID(b0)) => a0.same(b0),
            (Component::Import(a0), Component::Import(b0)) => a0.same(b0),
            (Component::OntologyAnnotation(a0), Component::OntologyAnnotation(b0)) => a0.same(b0),
            (Component::DeclareClass(a0), Component::DeclareClass(b0)) => a0.same(b0),
            (
                Component::DeclareObjectProperty(a0),
                Component::DeclareObjectProperty(b0),
            ) => a0.same(b0),
            (
                Component::DeclareAnnotationProperty(a0),
                Component::DeclareAnnotationProperty(b0),
            ) => a0.same(b0),
            (Component::DeclareDataProperty(a0), Component::DeclareDataProperty(b0)) => a0.same(b0),
            (
                Component::DeclareNamedIndividual(a0),
                Component::DeclareNamedIndividual(b0),
            ) => a0.same(b0),
            (Component::DeclareDatatype(a0), Component::DeclareDatatype(b0)) => a0.same(b0),
            (Component::SubClassOf(a0), Component::SubClassOf(b0)) => a0.same(b0),
            (
                Component::EquivalentClasses(a0),
                Component::EquivalentClasses(b0),
            ) => ClassExpression::same_seq(a0, b0),
            (
                Component::DisjointClasses(a0),
                Component::DisjointClasses(b0),
            ) => ClassExpression::same_seq(a0, b0),
            (
                Component::DisjointUnion(a0, a1),
                Component::DisjointUnion(b0, b1),
            ) => a0.same(b0) && ClassExpression::same_seq(a1, b1),
            (
                Component::SubObjectPropertyOf { sup: a0, sub: a1 },
                Component::SubObjectPropertyOf { sup: b0, sub: b1 },
            ) => a0.same(b0) && a1.same(b1),
            (
                Component::EquivalentObjectProperties(a0),
                Component::EquivalentObjectProperties(b0),
            ) => ObjectPropertyExpression::same_seq(a0, b0),
            (
                Component::DisjointObjectProperties(a0),
                Component::DisjointObjectProperties(b0),
            ) => ObjectPropertyExpression::same_seq(a0, b0),
            (
                Component::InverseObjectProperties(a0, a1),
                Component::InverseObjectProperties(b0, b1),
            ) => a0.same(b0) && a1.same(b1),
            (
                Component::ObjectPropertyDomain { ope: a0, ce: a1 },
                Component::ObjectPropertyDomain { ope: b0, ce: b1 },
            ) => a0.same(b0) && a1.same(b1),
            (
                Component::ObjectPropertyRange { ope: a0, ce: a1 },
                Component::ObjectPropertyRange { ope: b0, ce: b1 },
            ) => a0.same(b0) && a1.same(b1),
            (
                Component::FunctionalObjectProperty(a0),
                Component::FunctionalObjectProperty(b0),
            ) => a0.same(b0),
            (
                Component::InverseFunctionalObjectProperty(a0),
                Component::InverseFunctionalObjectProperty(b0),
            ) => a0.same(b0),
            (
                Component::ReflexiveObjectProperty(a0),
                Component::ReflexiveObjectProperty(b0),
            ) => a0.same(b0),
            (
                Component::IrreflexiveObjectProperty(a0),
                Component::IrreflexiveObjectProperty(b0),
            ) => a0.same(b0),
            (
                Component::SymmetricObjectProperty(a0),
                Component::SymmetricObjectProperty(b0),
            ) => a0.same(b0),
            (
                Component::AsymmetricObjectProperty(a0),
                Component::AsymmetricObjectProperty(b0),
            ) => a0.same(b0),
            (
                Component::TransitiveObjectProperty(a0),
                Component::TransitiveObjectProperty(b0),
            ) => a0.same(b0),
            (
                Component::SubDataPropertyOf { sup: a0, sub: a1 },
                Component::SubDataPropertyOf { sup: b0, sub: b1 },
            ) => a0.same(b0) && a1.same(b1),
            (
                Component::EquivalentDataProperties(a0),
                Component::EquivalentDataProperties(b0),
            ) => DataProperty::same_seq(a0, b0),
            (
                Component::DisjointDataProperties(a0),
                Component::DisjointDataProperties(b0),
            ) => DataProperty::same_seq(a0, b0),
            (
                Component::DataPropertyDomain { dp: a0, ce: a1 },
                Component::DataPropertyDomain { dp: b0, ce: b1 },
            ) => a0.same(b0) && a1.same(b1),
            (
                Component::DataPropertyRange { dp: a0, dr: a1 },
                Component::DataPropertyRange { dp: b0, dr: b1 },
            ) => a0.same(b0) && a1.same(b1),
            (
                Component::FunctionalDataProperty(a0),
                Component::FunctionalDataProperty(b0),
            ) => a0.same(b0),
            (
                Component::DatatypeDefinition { kind: a0, range: a1 },
                Component::DatatypeDefinition { kind: b0, range: b1 },
            ) => a0.same(b0) && a1.same(b1),
            (
                Component::HasKey { ce: a0, vpe: a1 },
                Component::HasKey { ce: b0, vpe: b1 },
            ) => a0.same(b0) && PropertyExpression::same_seq(a1, b1),
            (
                Component::SameIndividual(a0),
                Component::SameIndividual(b0),
            ) => Individual::same_seq(a0, b0),
            (
                Component::DifferentIndividuals(a0),
                Component::DifferentIndividuals(b0),
            ) => Individual::same_seq(a0, b0),
            (
                Component::ClassAssertion { ce: a0, i: a1 },
                Component::ClassAssertion { ce: b0, i: b1 },
            ) => a0.same(b0) && a1.same(b1),
            (
                Component::ObjectPropertyAssertion { ope: a0, from: a1, to: a2 },
                Component::ObjectPropertyAssertion { ope: b0, from: b1, to: b2 },
            ) => a0.same(b0) && a1.same(b1) && a2.same(b2),
            (
                Component::NegativeObjectPropertyAssertion { ope: a0, from: a1, to: a2 },
                Component::NegativeObjectPropertyAssertion { ope: b0, from: b1, to: b2 },
            ) => a0.same(b0) && a1.same(b1) && a2.same(b2),
            (
                Component::DataPropertyAssertion { dp: a0, from: a1, to: a2 },
                Component::DataPropertyAssertion { dp: b0, from: b1, to: b2 },
            ) => a0.same(b0) && a1.same(b1) && a2.same(b2),
            (
                Component::NegativeDataPropertyAssertion { dp: a0, from: a1, to: a2 },
                Component::NegativeDataPropertyAssertion { dp: b0, from: b1, to: b2 },
            ) => a0.same(b0) && a1.same(b1) && a2.same(b2),
            (
                Component::AnnotationAssertion { subject: a0, ann: a1 },
                Component::AnnotationAssertion { subject: b0, ann: b1 },
            ) => a0.same(b0) && a1.same(b1),
            (
                Component::SubAnnotationPropertyOf { sub: a0, sup: a1 },
                Component::SubAnnotationPropertyOf { sub: b0, sup: b1 },
            ) => a0.same(b0) && a1.same(b1),
            (
                Component::AnnotationPropertyDomain { ap: a0, iri: a1 },
                Component::AnnotationPropertyDomain { ap: b0, iri: b1 },
            ) => a0.same(b0) && a1.same(b1),
            (
                Component::AnnotationPropertyRange { ap: a0, iri: a1 },
                Component::AnnotationPropertyRange { ap: b0, iri: b1 },
            ) => a0.same(b0) && a1.same(b1),
            _ => false,
        }
    }
}

impl Clone for Component {
    fn clone(&self) -> (r: Self)
        ensures
            r@ == self@,
    {
        match self {
            Component::OntologyID(a0) => Component::OntologyID(a0.clone()),
            Component::Import(a0) => Component::Import(a0.clone()),
            Component::OntologyAnnotation(a0) => Component::OntologyAnnotation(a0.clone()),
            Component::DeclareClass(a0) => Component::DeclareClass(a0.clone()),
            Component::DeclareObjectProperty(a0) => Component::DeclareObjectProperty(a0.clone()),
            Component::DeclareAnnotationProperty(a0) => {
                Component::DeclareAnnotationProperty(a0.clone())
            },
            Component::DeclareDataProperty(a0) => Component::DeclareDataProperty(a0.clone()),
            Component::DeclareNamedIndividual(a0) => Component::DeclareNamedIndividual(a0.clone()),
            Component::DeclareDatatype(a0) => Component::DeclareDatatype(a0.clone()),
            Component::SubClassOf(a0) => Component::SubClassOf(a0.clone()),
            Component::EquivalentClasses(a0) => {
                Component::EquivalentClasses(ClassExpression::clone_seq(a0))
            },
            Component::DisjointClasses(a0) => {
                Component::DisjointClasses(ClassExpression::clone_seq(a0))
            },
            Component::DisjointUnion(a0, a1) => {
                Component::DisjointUnion(a0.clone(), ClassExpression::clone_seq(a1))
            },
            Component::SubObjectPropertyOf { sup: a0, sub: a1 } => {
                Component::SubObjectPropertyOf { sup: a0.clone(), sub: a1.clone() }
            },
            Component::EquivalentObjectProperties(a0) => {
                Component::EquivalentObjectProperties(ObjectPropertyExpression::clone_seq(a0))
            },
            Component::DisjointObjectProperties(a0) => {
                Component::DisjointObjectProperties(ObjectPropertyExpression::clone_seq(a0))
            },
            Component::InverseObjectProperties(a0, a1) => {
                Component::InverseObjectProperties(a0.clone(), a1.clone())
            },
            Component::ObjectPropertyDomain { ope: a0, ce: a1 } => {
                Component::ObjectPropertyDomain { ope: a0.clone(), ce: a1.clone() }
            },
            Component::ObjectPropertyRange { ope: a0, ce: a1 } => {
                Component::ObjectPropertyRange { ope: a0.clone(), ce: a1.clone() }
            },
            Component::FunctionalObjectProperty(a0) => {
                Component::FunctionalObjectProperty(a0.clone())
            },
            Component::InverseFunctionalObjectProperty(a0) => {
                Component::InverseFunctionalObjectProperty(a0.clone())
            },
            Component::ReflexiveObjectProperty(a0) => {
                Component::ReflexiveObjectProperty(a0.clone())
            },
            Component::IrreflexiveObjectProperty(a0) => {
                Component::IrreflexiveObjectProperty(a0.clone())
            },
            Component::SymmetricObjectProperty(a0) => {
                Component::SymmetricObjectProperty(a0.clone())
            },
            Component::AsymmetricObjectProperty(a0) => {
                Component::AsymmetricObjectProperty(a0.clone())
            },
            Component::TransitiveObjectProperty(a0) => {
                Component::TransitiveObjectProperty(a0.clone())
            },
            Component::SubDataPropertyOf { sup: a0, sub: a1 } => {
                Component::SubDataPropertyOf { sup: a0.clone(), sub: a1.clone() }
            },
            Component::EquivalentDataProperties(a0) => {
                Component::EquivalentDataProperties(DataProperty::clone_seq(a0))
            },
            Component::DisjointDataProperties(a0) => {
                Component::DisjointDataProperties(DataProperty::clone_seq(a0))
            },
            Component::DataPropertyDomain { dp: a0, ce: a1 } => {
                Component::DataPropertyDomain { dp: a0.clone(), ce: a1.clone() }
            },
            Component::DataPropertyRange { dp: a0, dr: a1 } => {
                Component::DataPropertyRange { dp: a0.clone(), dr: a1.clone() }
            },
            Component::FunctionalDataProperty(a0) => Component::FunctionalDataProperty(a0.clone()),
            Component::DatatypeDefinition { kind: a0, range: a1 } => {
                Component::DatatypeDefinition { kind: a0.clone(), range: a1.clone() }
            },
            Component::HasKey { ce: a0, vpe: a1 } => {
                Component::HasKey { ce: a0.clone(), vpe: PropertyExpression::clone_seq(a1) }
            },
            Component::SameIndividual(a0) => Component::SameIndividual(Individual::clone_seq(a0)),
            Component::DifferentIndividuals(a0) => {
                Component::DifferentIndividuals(Individual::clone_seq(a0))
            },
            Component::ClassAssertion { ce: a0, i: a1 } => {
                Component::ClassAssertion { ce: a0.clone(), i: a1.clone() }
            },
            Component::ObjectPropertyAssertion { ope: a0, from: a1, to: a2 } => {
                Component::ObjectPropertyAssertion {
                    ope: a0.clone(),
                    from: a1.clone(),
                    to: a2.clone(),
                }
            },
            Component::NegativeObjectPropertyAssertion { ope: a0, from: a1, to: a2 } => {
                Component::NegativeObjectPropertyAssertion {
                    ope: a0.clone(),
                    from: a1.clone(),
                    to: a2.clone(),
                }
            },
            Component::DataPropertyAssertion { dp: a0, from: a1, to: a2 } => {
                Component::DataPropertyAssertion {
                    dp: a0.clone(),
                    from: a1.clone(),
                    to: a2.clone(),
                }
            },
            Component::NegativeDataPropertyAssertion { dp: a0, from: a1, to: a2 } => {
                Component::NegativeDataPropertyAssertion {
                    dp: a0.clone(),
                    from: a1.clone(),
                    to: a2.clone(),
                }
            },
            Component::AnnotationAssertion { subject: a0, ann: a1 } => {
                Component::AnnotationAssertion { subject: a0.clone(), ann: a1.clone() }
            },
            Component::SubAnnotationPropertyOf { sub: a0, sup: a1 } => {
                Component::SubAnnotationPropertyOf { sub: a0.clone(), sup: a1.clone() }
            },
            Component::AnnotationPropertyDomain { ap: a0, iri: a1 } => {
                Component::AnnotationPropertyDomain { ap: a0.clone(), iri: a1.clone() }
            },
            Component::AnnotationPropertyRange { ap: a0, iri: a1 } => {
                Component::AnnotationPropertyRange { ap: a0.clone(), iri: a1.clone() }
            },
        }
    }
}

impl ComponentView {
    /// The kind of the component.
    #[verifier::opaque]
    pub open spec fn kind(self) -> AxiomKind {
        match self {
            ComponentView::OntologyID(..) => AxiomKind::OntologyID,
            ComponentView::Import(..) => AxiomKind::Import,
            ComponentView::OntologyAnnotation(..) => AxiomKind::OntologyAnnotation,
            ComponentView::DeclareClass(..) => AxiomKind::DeclareClass,
            ComponentView::DeclareObjectProperty(..) => AxiomKind::DeclareObjectProperty,
            ComponentView::DeclareAnnotationProperty(..) => AxiomKind::DeclareAnnotationProperty,
            ComponentView::DeclareDataProperty(..) => AxiomKind::DeclareDataProperty,
            ComponentView::DeclareNamedIndividual(..) => AxiomKind::DeclareNamedIndividual,
            ComponentView::DeclareDatatype(..) => AxiomKind::DeclareDatatype,
            ComponentView::SubClassOf(..) => AxiomKind::SubClassOf,
            ComponentView::EquivalentClasses(..) => AxiomKind::EquivalentClasses,
            ComponentView::DisjointClasses(..) => AxiomKind::DisjointClasses,
            ComponentView::DisjointUnion(..) => AxiomKind::DisjointUnion,
            ComponentView::SubObjectPropertyOf { .. } => AxiomKind::SubObjectPropertyOf,
            ComponentView::EquivalentObjectProperties(..) => AxiomKind::EquivalentObjectProperties,
            ComponentView::DisjointObjectProperties(..) => AxiomKind::DisjointObjectProperties,
            ComponentView::InverseObjectProperties(..) => AxiomKind::InverseObjectProperties,
            ComponentView::ObjectPropertyDomain { .. } => AxiomKind::ObjectPropertyDomain,
            ComponentView::ObjectPropertyRange { .. } => AxiomKind::ObjectPropertyRange,
            ComponentView::FunctionalObjectProperty(..) => AxiomKind::FunctionalObjectProperty,
            ComponentView::InverseFunctionalObjectProperty(..) => {
                AxiomKind::InverseFunctionalObjectProperty
            },
            ComponentView::ReflexiveObjectProperty(..) => AxiomKind::ReflexiveObjectProperty,
            ComponentView::IrreflexiveObjectProperty(..) => AxiomKind::IrreflexiveObjectProperty,
            ComponentView::SymmetricObjectProperty(..) => AxiomKind::SymmetricObjectProperty,
            ComponentView::AsymmetricObjectProperty(..) => AxiomKind::AsymmetricObjectProperty,
            ComponentView::TransitiveObjectProperty(..) => AxiomKind::TransitiveObjectProperty,
            ComponentView::SubDataPropertyOf { .. } => AxiomKind::SubDataPropertyOf,
            ComponentView::EquivalentDataProperties(..) => AxiomKind::EquivalentDataProperties,
            ComponentView::DisjointDataProperties(..) => AxiomKind::DisjointDataProperties,
            ComponentView::DataPropertyDomain { .. } => AxiomKind::DataPropertyDomain,
            ComponentView::DataPropertyRange { .. } => AxiomKind::DataPropertyRange,
            ComponentView::FunctionalDataProperty(..) => AxiomKind::FunctionalDataProperty,
            ComponentView::DatatypeDefinition { .. } => AxiomKind::DatatypeDefinition,
            ComponentView::HasKey { .. } => AxiomKind::HasKey,
            ComponentView::SameIndividual(..) => AxiomKind::SameIndividual,
            ComponentView::DifferentIndividuals(..) => AxiomKind::DifferentIndividuals,
            ComponentView::ClassAssertion { .. } => AxiomKind::ClassAssertion,
            ComponentView::ObjectPropertyAssertion { .. } => AxiomKind::ObjectPropertyAssertion,
            ComponentView::NegativeObjectPropertyAssertion { .. } => {
                AxiomKind::NegativeObjectPropertyAssertion
            },
            ComponentView::DataPropertyAssertion { .. } => AxiomKind::DataPropertyAssertion,
            ComponentView::NegativeDataPropertyAssertion { .. } => {
                AxiomKind::NegativeDataPropertyAssertion
            },
            ComponentView::AnnotationAssertion { .. } => AxiomKind::AnnotationAssertion,
            ComponentView::SubAnnotationPropertyOf { .. } => AxiomKind::SubAnnotationPropertyOf,
            ComponentView::AnnotationPropertyDomain { .. } => AxiomKind::AnnotationPropertyDomain,
            ComponentView::AnnotationPropertyRange { .. } => AxiomKind::AnnotationPropertyRange,
        }
    }
}

impl Component {
    /// The kind of the component.
    pub fn kind(&self) -> (r: AxiomKind)
        ensures
            r == self@.kind(),
    {
        reveal(ComponentView::kind);
        match self {
            Component::OntologyID(..) => AxiomKind::OntologyID,
            Component::Import(..) => AxiomKind::Import,
            Component::OntologyAnnotation(..) => AxiomKind::OntologyAnnotation,
            Component::DeclareClass(..) => AxiomKind::DeclareClass,
            Component::DeclareObjectProperty(..) => AxiomKind::DeclareObjectProperty,
            Component::DeclareAnnotationProperty(..) => AxiomKind::DeclareAnnotationProperty,
            Component::DeclareDataProperty(..) => AxiomKind::DeclareDataProperty,
            Component::DeclareNamedIndividual(..) => AxiomKind::DeclareNamedIndividual,
            Component::DeclareDatatype(..) => AxiomKind::DeclareDatatype,
            Component::SubClassOf(..) => AxiomKind::SubClassOf,
            Component::EquivalentClasses(..) => AxiomKind::EquivalentClasses,
            Component::DisjointClasses(..) => AxiomKind::DisjointClasses,
            Component::DisjointUnion(..) => AxiomKind::DisjointUnion,
            Component::SubObjectPropertyOf { .. } => AxiomKind::SubObjectPropertyOf,
            Component::EquivalentObjectProperties(..) => AxiomKind::EquivalentObjectProperties,
            Component::DisjointObjectProperties(..) => AxiomKind::DisjointObjectProperties,
            Component::InverseObjectProperties(..) => AxiomKind::InverseObjectProperties,
            Component::ObjectPropertyDomain { .. } => AxiomKind::ObjectPropertyDomain,
            Component::ObjectPropertyRange { .. } => AxiomKind::ObjectPropertyRange,
            Component::FunctionalObjectProperty(..) => AxiomKind::FunctionalObjectProperty,
            Component::InverseFunctionalObjectProperty(..) => {
                AxiomKind::InverseFunctionalObjectProperty
            },
            Component::ReflexiveObjectProperty(..) => AxiomKind::ReflexiveObjectProperty,
            Component::IrreflexiveObjectProperty(..) => AxiomKind::IrreflexiveObjectProperty,
            Component::SymmetricObjectProperty(..) => AxiomKind::SymmetricObjectProperty,
            Component::AsymmetricObjectProperty(..) => AxiomKind::AsymmetricObjectProperty,
            Component::TransitiveObjectProperty(..) => AxiomKind::TransitiveObjectProperty,
            Component::SubDataPropertyOf { .. } => AxiomKind::SubDataPropertyOf,
            Component::EquivalentDataProperties(..) => AxiomKind::EquivalentDataProperties,
            Component::DisjointDataProperties(..) => AxiomKind::DisjointDataProperties,
            Component::DataPropertyDomain { .. } => AxiomKind::DataPropertyDomain,
            Component::DataPropertyRange { .. } => AxiomKind::DataPropertyRange,
            Component::FunctionalDataProperty(..) => AxiomKind::FunctionalDataProperty,
            Component::DatatypeDefinition { .. } => AxiomKind::DatatypeDefinition,
            Component::HasKey { .. } => AxiomKind::HasKey,
            Component::SameIndividual(..) => AxiomKind::SameIndividual,
            Component::DifferentIndividuals(..) => AxiomKind::DifferentIndividuals,
            Component::ClassAssertion { .. } => AxiomKind::ClassAssertion,
            Component::ObjectPropertyAssertion { .. } => AxiomKind::ObjectPropertyAssertion,
            Component::NegativeObjectPropertyAssertion { .. } => {
                AxiomKind::NegativeObjectPropertyAssertion
            },
            Component::DataPropertyAssertion { .. } => AxiomKind::DataPropertyAssertion,
            Component::NegativeDataPropertyAssertion { .. } => {
                AxiomKind::NegativeDataPropertyAssertion
            },
            Component::AnnotationAssertion { .. } => AxiomKind::AnnotationAssertion,
            Component::SubAnnotationPropertyOf { .. } => AxiomKind::SubAnnotationPropertyOf,
            Component::AnnotationPropertyDomain { .. } => AxiomKind::AnnotationPropertyDomain,
            Component::AnnotationPropertyRange { .. } => AxiomKind::AnnotationPropertyRange,
        }
    }

    /// The declaration of a named entity.
    pub open spec fn spec_declaration(e: NamedEntity) -> Component {
        match e {
            NamedEntity::Class(c) => Component::DeclareClass(c),
            NamedEntity::Datatype(c) => Component::DeclareDatatype(c),
            NamedEntity::ObjectProperty(c) => Component::DeclareObjectProperty(c),
            NamedEntity::DataProperty(c) => Component::DeclareDataProperty(c),
            NamedEntity::AnnotationProperty(c) => Component::DeclareAnnotationProperty(c),
            NamedEntity::NamedIndividual(c) => Component::DeclareNamedIndividual(c),
        }
    }

    /// The declaration of a named entity.
    pub fn declaration(e: NamedEntity) -> (r: Component)
        ensures
            r == Component::spec_declaration(e),
    {
        match e {
            NamedEntity::Class(c) => Component::DeclareClass(c),
            NamedEntity::Datatype(c) => Component::DeclareDatatype(c),
            NamedEntity::ObjectProperty(c) => Component::DeclareObjectProperty(c),
            NamedEntity::DataProperty(c) => Component::DeclareDataProperty(c),
            NamedEntity::AnnotationProperty(c) => Component::DeclareAnnotationProperty(c),
            NamedEntity::NamedIndividual(c) => Component::DeclareNamedIndividual(c),
        }
    }
}

impl From<NamedEntity> for Component {
    fn from(e: NamedEntity) -> (r: Component)
        ensures
            r == Component::spec_declaration(e),
    {
        Component::declaration(e)
    }
}

impl FromSpecImpl<NamedEntity> for Component {
    open spec fn obeys_from_spec() -> bool {
        true
    }

    open spec fn from_spec(e: NamedEntity) -> Component {
        Component::spec_declaration(e)
    }
}

/// A component together with the annotations made on it.
#[derive(Debug, PartialEq, Eq)]
pub struct AnnotatedComponent {
    pub component: Component,
    pub ann: AnnotationSet,
}

/// The value that an `AnnotatedComponent` stands for.
pub struct AnnotatedComponentView {
    pub component: ComponentView,
    pub ann: Set<AnnotationView>,
}

impl View for AnnotatedComponent {
    type V = AnnotatedComponentView;

    open spec fn view(&self) -> AnnotatedComponentView {
        AnnotatedComponentView { component: self.component@, ann: self.ann@ }
    }
}

impl AnnotatedComponentView {
    /// The kind of the component.
    pub open spec fn kind(self) -> AxiomKind {
        self.component.kind()
    }

    /// Whether the two say the same thing, whatever their annotations.
    pub open spec fn logical_eq(self, other: AnnotatedComponentView) -> bool {
        self.component == other.component
    }
}

impl AnnotatedComponent {
    /// The values that the items of `v` stand for, in order.
    pub open spec fn seq_view(v: Vec<AnnotatedComponent>) -> Seq<AnnotatedComponentView> {
        Seq::new(v@.len(), |i: int| v@[i]@)
    }

    /// `component` with the annotations `ann`.
    pub fn new(component: Component, ann: AnnotationSet) -> (r: AnnotatedComponent)
        ensures
            r == (AnnotatedComponent { component, ann }),
    {
        AnnotatedComponent { component, ann }
    }

    /// The kind of the component.
    pub fn kind(&self) -> (r: AxiomKind)
        ensures
            r == self@.kind(),
    {
        self.component.kind()
    }

    /// Whether the two say the same thing, whatever their annotations.
    pub fn logical_eq(&self, other: &AnnotatedComponent) -> (r: bool)
        ensures
            r == self@.logical_eq(other@),
    {
        self.component.same(&other.component)
    }

    /// Whether the two say the same thing and carry the same annotations.
    pub fn same(&self, other: &AnnotatedComponent) -> (r: bool)
        ensures
            r == (self@ == other@),
    {
        self.component.same(&other.component) && self.ann.same(&other.ann)
    }
}

impl Clone for AnnotatedComponent {
    fn clone(&self) -> (r: Self)
        ensures
            r@ == self@,
    {
        AnnotatedComponent { component: self.component.clone(), ann: self.ann.clone() }
    }
}

impl From<Component> for AnnotatedComponent {
    fn from(component: Component) -> (r: AnnotatedComponent)
        ensures
            r.component == component,
            r.ann@ == Set::<AnnotationView>::empty(),
    {
        AnnotatedComponent { component, ann: AnnotationSet::new() }
    }
}

impl FromSpecImpl<Component> for AnnotatedComponent {
    open spec fn obeys_from_spec() -> bool {
        false
    }

    open spec fn from_spec(component: Component) -> AnnotatedComponent {
        arbitrary()
    }
}

} // verus!
