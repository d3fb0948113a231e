//! Queries on an ontology: finding a component whatever its annotations,
//! merging annotations into it, and finding how an IRI is declared.

use vstd::prelude::*;
use crate::model::annotation::AnnotationSet;
use crate::model::component::AnnotatedComponent;
use crate::model::component::AnnotatedComponentView;
use crate::model::component::Component;
use crate::model::component::ComponentView;
use crate::model::entity::AnnotationProperty;
use crate::model::entity::Class;
use crate::model::entity::DataProperty;
use crate::model::entity::Datatype;
use crate::model::entity::NamedEntityKind;
use crate::model::entity::NamedIndividual;
use crate::model::entity::ObjectProperty;
use crate::model::iri::IRI;
use crate::ontology::first_logical;
use crate::ontology::holds;
use crate::ontology::inserted;
use crate::ontology::Ontology;
use crate::ontology::OntologyView;
use crate::vocab::built_in_kind;
use crate::vocab::to_built_in_entity;

verus! {

/// The first component of `o` that says what `a` says, whatever the
/// annotations of either.
pub open spec fn logically_equal_in(o: OntologyView, a: AnnotatedComponentView) -> Option<
    AnnotatedComponentView,
> {
    let s = o[a.kind()];
    let i = first_logical(s, a.component);
    if i < s.len() {
        Some(s[i])
    } else {
        None
    }
}

/// The ontology `o` after `a` is merged into it. Where `o` holds a component
/// that says what `a` says, the first such component leaves and `a` comes
/// last in its kind, with the annotations of both. Where `o` holds none, `a`
/// comes last in its kind as it is.
pub open spec fn updated(o: OntologyView, a: AnnotatedComponentView) -> OntologyView {
    let s = o[a.kind()];
    let i = first_logical(s, a.component);
    if i < s.len() {
        inserted(
            o.insert(a.kind(), s.remove(i)),
            AnnotatedComponentView { component: a.component, ann: a.ann.union(s[i].ann) },
        )
    } else {
        inserted(o, a)
    }
}

/// The kind under which `o` declares the entity with the IRI `iri`. The kinds
/// are tried in a fixed order and the first that `o` declares is the answer;
/// where `o` declares none, the built-in vocabulary answers.
pub open spec fn declaration_kind(o: OntologyView, iri: Seq<char>) -> Option<NamedEntityKind> {
    if holds(o, ComponentView::DeclareClass(iri)) {
        Some(NamedEntityKind::Class)
    } else if holds(o, ComponentView::DeclareObjectProperty(iri)) {
        Some(NamedEntityKind::ObjectProperty)
    } else if holds(o, ComponentView::DeclareAnnotationProperty(iri)) {
        Some(NamedEntityKind::AnnotationProperty)
    } else if holds(o, ComponentView::DeclareDataProperty(iri)) {
        Some(NamedEntityKind::DataProperty)
    } else if holds(o, ComponentView::DeclareNamedIndividual(iri)) {
        Some(NamedEntityKind::NamedIndividual)
    } else if holds(o, ComponentView::DeclareDatatype(iri)) {
        Some(NamedEntityKind::Datatype)
    } else {
        built_in_kind(iri)
    }
}

/// The declaration of the entity with the IRI `iri` under the given kind.
pub open spec fn declaration_of(kind: NamedEntityKind, iri: Seq<char>) -> ComponentView {
    match kind {
        NamedEntityKind::Class => ComponentView::DeclareClass(iri),
        NamedEntityKind::ObjectProperty => ComponentView::DeclareObjectProperty(iri),
        NamedEntityKind::AnnotationProperty => ComponentView::DeclareAnnotationProperty(iri),
        NamedEntityKind::DataProperty => ComponentView::DeclareDataProperty(iri),
        NamedEntityKind::NamedIndividual => ComponentView::DeclareNamedIndividual(iri),
        NamedEntityKind::Datatype => ComponentView::DeclareDatatype(iri),
    }
}

/// The place of a kind in the order in which declarations are sought.
pub open spec fn search_rank(kind: NamedEntityKind) -> int {
    match kind {
        NamedEntityKind::Class => 0,
        NamedEntityKind::ObjectProperty => 1,
        NamedEntityKind::AnnotationProperty => 2,
        NamedEntityKind::DataProperty => 3,
        NamedEntityKind::NamedIndividual => 4,
        NamedEntityKind::Datatype => 5,
    }
}

/// An entity that an ontology declares is found, under the first kind in the
/// search order under which the ontology declares it. So an entity declared
/// under one kind only is found under that kind.
pub proof fn lemma_declared_kind_is_found(o: OntologyView, iri: Seq<char>, kind: NamedEntityKind)
    requires
        holds(o, declaration_of(kind, iri)),
    ensures
        declaration_kind(o, iri) is Some,
        holds(o, declaration_of(declaration_kind(o, iri)->0, iri)),
        search_rank(declaration_kind(o, iri)->0) <= search_rank(kind),
        forall|other: NamedEntityKind|
            search_rank(other) < search_rank(declaration_kind(o, iri)->0) ==> !holds(
                o,
                #[trigger] declaration_of(other, iri),
            ),
        (forall|other: NamedEntityKind|
            other != kind ==> !holds(o, #[trigger] declaration_of(other, iri)))
            ==> declaration_kind(o, iri) == Some(kind),
{
    assert(declaration_of(NamedEntityKind::Class, iri) == ComponentView::DeclareClass(iri));
    assert(declaration_of(NamedEntityKind::ObjectProperty, iri)
        == ComponentView::DeclareObjectProperty(iri));
    assert(declaration_of(NamedEntityKind::AnnotationProperty, iri)
        == ComponentView::DeclareAnnotationProperty(iri));
    assert(declaration_of(NamedEntityKind::DataProperty, iri)
        == ComponentView::DeclareDataProperty(iri));
    assert(declaration_of(NamedEntityKind::NamedIndividual, iri)
        == ComponentView::DeclareNamedIndividual(iri));
    assert(declaration_of(NamedEntityKind::Datatype, iri) == ComponentView::DeclareDatatype(iri));
}

/// Inserting a component and then merging one that says the same leaves one
/// component that says it, with the annotations of both, provided that the
/// ontology held none that says it before. That component is the last of its
/// kind; the other components of the kind, and the other kinds, are as they
/// were.
pub proof fn lemma_insert_then_update(
    o: OntologyView,
    a: AnnotatedComponentView,
    b: AnnotatedComponentView,
)
    requires
        a.logical_eq(b),
        !holds(o, a.component),
    ensures
        updated(inserted(o, a), b) == inserted(
            o,
            AnnotatedComponentView { component: b.component, ann: b.ann.union(a.ann) },
        ),
        updated(inserted(o, a), b)[a.kind()].len() == o[a.kind()].len() + 1,
        forall|j: int|
            0 <= j < o[a.kind()].len() ==> (#[trigger] updated(inserted(o, a), b)[a.kind()][j])
                == o[a.kind()][j] && o[a.kind()][j].component != a.component,
{
    let k = a.kind();
    let s = o[k];
    let mid = inserted(o, a);
    crate::ontology::lemma_first_logical(s, a.component);
    crate::ontology::lemma_first_logical_is(s.push(a), b.component, s.len() as int);
    assert(mid[k] == s.push(a));
    assert(s.push(a).remove(s.len() as int) =~= s);
    let merged = AnnotatedComponentView { component: b.component, ann: b.ann.union(a.ann) };
    assert(updated(mid, b) =~= inserted(o, merged));
}

/// Finds the first component of `o` that says what `ax` says, whatever
/// the annotations of either.
pub fn find_logically_equal_axiom<'a>(o: &'a Ontology, ax: &AnnotatedComponent) -> (r: Option<
    &'a AnnotatedComponent,
>)
    ensures
        match r {
            Some(c) => logically_equal_in(o@, ax@) == Some(c@),
            None => logically_equal_in(o@, ax@) is None,
        },
{
    let i = o.position_of(&ax.component);
    if i < o.count(ax.kind()) {
        Some(o.get(ax.kind(), i))
    } else {
        None
    }
}

/// Merges `ax` into `o`: the first component that says the same leaves
/// `o` and gives its annotations to `ax`, which is then added.
pub fn update_logically_equal_axiom(o: &mut Ontology, ax: AnnotatedComponent)
    ensures
        final(o)@ == updated(old(o)@, ax@),
        final(o).store() == old(o).store(),
{
    let mut ax = ax;
    let kind = ax.kind();
    let i = o.position_of(&ax.component);
    if i < o.count(kind) {
        let found = o.remove_at(kind, i);
        ax.ann.absorb(&found.ann);
    }
    o.insert(ax);
}

/// Whether `o` holds a component that says what `c` says.
fn declares(o: &Ontology, c: Component) -> (r: bool)
    ensures
        r == holds(o@, c@),
{
    let a = AnnotatedComponent { component: c, ann: AnnotationSet::new() };
    find_logically_equal_axiom(o, &a).is_some()
}

/// Finds the kind under which `o` declares the entity with the IRI `iri`.
pub fn find_declaration_kind(o: &Ontology, iri: &IRI) -> (r: Option<NamedEntityKind>)
    ensures
        r == declaration_kind(o@, iri@),
{
    if declares(o, Component::DeclareClass(Class(iri.clone()))) {
        Some(NamedEntityKind::Class)
    } else if declares(o, Component::DeclareObjectProperty(ObjectProperty(iri.clone()))) {
        Some(NamedEntityKind::ObjectProperty)
    } else if declares(o, Component::DeclareAnnotationProperty(AnnotationProperty(iri.clone()))) {
        Some(NamedEntityKind::AnnotationProperty)
    } else if declares(o, Component::DeclareDataProperty(DataProperty(iri.clone()))) {
        Some(NamedEntityKind::DataProperty)
    } else if declares(o, Component::DeclareNamedIndividual(NamedIndividual(iri.clone()))) {
        Some(NamedEntityKind::NamedIndividual)
    } else if declares(o, Component::DeclareDatatype(Datatype(iri.clone()))) {
        Some(NamedEntityKind::Datatype)
    } else {
        to_built_in_entity(iri.as_str())
    }
}

/// Whether `o` declares the entity with the IRI `iri` as an annotation
/// property, or the built-in vocabulary says that it is one.
pub fn is_annotation_property(o: &Ontology, iri: &IRI) -> (r: bool)
    ensures
        r == (declaration_kind(o@, iri@) == Some(NamedEntityKind::AnnotationProperty)),
{
    match find_declaration_kind(o, iri) {
        Some(NamedEntityKind::AnnotationProperty) => true,
        _ => false,
    }
}

} // verus!
