//! The data model: identifiers, entities, expressions, annotations and the
//! components of an ontology, each with the mathematical value it stands for.

pub mod annotation;
pub mod component;
pub mod entity;
pub mod expression;
pub mod iri;

pub use annotation::Annotation;
pub use annotation::AnnotationSet;
pub use annotation::AnnotationSubject;
pub use annotation::AnnotationSubjectView;
pub use annotation::AnnotationValue;
pub use annotation::AnnotationValueView;
pub use annotation::AnnotationView;
pub use component::AnnotatedComponent;
pub use component::AnnotatedComponentView;
pub use component::AxiomKind;
pub use component::Component;
pub use component::ComponentView;
pub use component::OntologyID;
pub use component::OntologyIDView;
pub use component::SubClass;
pub use component::SubClassView;
pub use component::KIND_COUNT;
pub use entity::AnnotationProperty;
pub use entity::AnonymousIndividual;
pub use entity::Class;
pub use entity::DataProperty;
pub use entity::Datatype;
pub use entity::Individual;
pub use entity::IndividualView;
pub use entity::NamedEntity;
pub use entity::NamedEntityKind;
pub use entity::NamedEntityView;
pub use entity::NamedIndividual;
pub use entity::ObjectProperty;
pub use expression::ClassExpression;
pub use expression::ClassExpressionView;
pub use expression::DataRange;
pub use expression::DataRangeView;
pub use expression::Facet;
pub use expression::FacetRestriction;
pub use expression::FacetRestrictionView;
pub use expression::Literal;
pub use expression::LiteralView;
pub use expression::ObjectPropertyExpression;
pub use expression::ObjectPropertyExpressionView;
pub use expression::PropertyExpression;
pub use expression::PropertyExpressionView;
pub use expression::SubObjectPropertyExpression;
pub use expression::SubObjectPropertyExpressionView;
pub use iri::IRIBuild;
pub use iri::IRI;
