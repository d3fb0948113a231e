//! The built-in vocabulary: the IRIs that OWL 2 itself gives a meaning.

use vstd::prelude::*;
use crate::model::entity::NamedEntityKind;
use crate::model::expression::Facet;
use crate::text::str_eq;

verus! {

/// The IRI of the class of all individuals.
pub const OWL_THING: &'static str = "http://www.w3.org/2002/07/owl#Thing";

/// The IRI of the class without individuals.
pub const OWL_NOTHING: &'static str = "http://www.w3.org/2002/07/owl#Nothing";

/// The IRI of the object property that relates every two individuals.
pub const OWL_TOP_OBJECT_PROPERTY: &'static str = "http://www.w3.org/2002/07/owl#topObjectProperty";

/// The IRI of the data property that relates every individual to every literal.
pub const OWL_TOP_DATA_PROPERTY: &'static str = "http://www.w3.org/2002/07/owl#topDataProperty";

/// The IRI of the datatype of all literals.
pub const RDFS_LITERAL: &'static str = "http://www.w3.org/2000/01/rdf-schema#Literal";

/// The IRI of `owl:Thing`, as characters.
pub open spec fn owl_thing() -> Seq<char> {
    OWL_THING@
}

/// The IRI of `rdfs:Literal`, as characters.
pub open spec fn rdfs_literal() -> Seq<char> {
    RDFS_LITERAL@
}

/// The IRI that names a constraining facet.
pub open spec fn facet_iri(f: Facet) -> Seq<char> {
    match f {
        Facet::Length => "http://www.w3.org/2001/XMLSchema#length"@,
        Facet::MinLength => "http://www.w3.org/2001/XMLSchema#minLength"@,
        Facet::MaxLength => "http://www.w3.org/2001/XMLSchema#maxLength"@,
        Facet::Pattern => "http://www.w3.org/2001/XMLSchema#pattern"@,
        Facet::MinInclusive => "http://www.w3.org/2001/XMLSchema#minInclusive"@,
        Facet::MinExclusive => "http://www.w3.org/2001/XMLSchema#minExclusive"@,
        Facet::MaxInclusive => "http://www.w3.org/2001/XMLSchema#maxInclusive"@,
        Facet::MaxExclusive => "http://www.w3.org/2001/XMLSchema#maxExclusive"@,
        Facet::TotalDigits => "http://www.w3.org/2001/XMLSchema#totalDigits"@,
        Facet::FractionDigits => "http://www.w3.org/2001/XMLSchema#fractionDigits"@,
        Facet::LangRange => "http://www.w3.org/1999/02/22-rdf-syntax-ns#langRange"@,
    }
}

/// The facet that an IRI names, if it names one.
pub open spec fn facet_of(iri: Seq<char>) -> Option<Facet> {
    if iri == facet_iri(Facet::Length) {
        Some(Facet::Length)
    } else if iri == facet_iri(Facet::MinLength) {
        Some(Facet::MinLength)
    } else if iri == facet_iri(Facet::MaxLength) {
        Some(Facet::MaxLength)
    } else if iri == facet_iri(Facet::Pattern) {
        Some(Facet::Pattern)
    } else if iri == facet_iri(Facet::MinInclusive) {
        Some(Facet::MinInclusive)
    } else if iri == facet_iri(Facet::MinExclusive) {
        Some(Facet::MinExclusive)
    } else if iri == facet_iri(Facet::MaxInclusive) {
        Some(Facet::MaxInclusive)
    } else if iri == facet_iri(Facet::MaxExclusive) {
        Some(Facet::MaxExclusive)
    } else if iri == facet_iri(Facet::TotalDigits) {
        Some(Facet::TotalDigits)
    } else if iri == facet_iri(Facet::FractionDigits) {
        Some(Facet::FractionDigits)
    } else if iri == facet_iri(Facet::LangRange) {
        Some(Facet::LangRange)
    } else {
        None
    }
}

/// The kind of the built-in entity that an IRI names, if it names one: the
/// top data property, the top object property, and the classes `owl:Thing`
/// and `owl:Nothing`.
pub open spec fn built_in_kind(iri: Seq<char>) -> Option<NamedEntityKind> {
    if iri == OWL_TOP_DATA_PROPERTY@ {
        Some(NamedEntityKind::DataProperty)
    } else if iri == OWL_TOP_OBJECT_PROPERTY@ {
        Some(NamedEntityKind::ObjectProperty)
    } else if iri == OWL_THING@ {
        Some(NamedEntityKind::Class)
    } else if iri == OWL_NOTHING@ {
        Some(NamedEntityKind::Class)
    } else {
        None
    }
}

/// The IRI that names a constraining facet.
pub fn facet_iri_str(f: Facet) -> (r: &'static str)
    ensures
        r@ == facet_iri(f),
{
    match f {
        Facet::Length => "http://www.w3.org/2001/XMLSchema#length",
        Facet::MinLength => "http://www.w3.org/2001/XMLSchema#minLength",
        Facet::MaxLength => "http://www.w3.org/2001/XMLSchema#maxLength",
        Facet::Pattern => "http://www.w3.org/2001/XMLSchema#pattern",
        Facet::MinInclusive => "http://www.w3.org/2001/XMLSchema#minInclusive",
        Facet::MinExclusive => "http://www.w3.org/2001/XMLSchema#minExclusive",
        Facet::MaxInclusive => "http://www.w3.org/2001/XMLSchema#maxInclusive",
        Facet::MaxExclusive => "http://www.w3.org/2001/XMLSchema#maxExclusive",
        Facet::TotalDigits => "http://www.w3.org/2001/XMLSchema#totalDigits",
        Facet::FractionDigits => "http://www.w3.org/2001/XMLSchema#fractionDigits",
        Facet::LangRange => "http://www.w3.org/1999/02/22-rdf-syntax-ns#langRange",
    }
}

/// The facet that `iri` names, if it names one.
pub fn find_facet(iri: &str) -> (r: Option<Facet>)
    ensures
        r == facet_of(iri@),
{
    if str_eq(iri, facet_iri_str(Facet::Length)) {
        Some(Facet::Length)
    } else if str_eq(iri, facet_iri_str(Facet::MinLength)) {
        Some(Facet::MinLength)
    } else if str_eq(iri, facet_iri_str(Facet::MaxLength)) {
        Some(Facet::MaxLength)
    } else if str_eq(iri, facet_iri_str(Facet::Pattern)) {
        Some(Facet::Pattern)
    } else if str_eq(iri, facet_iri_str(Facet::MinInclusive)) {
        Some(Facet::MinInclusive)
    } else if str_eq(iri, facet_iri_str(Facet::MinExclusive)) {
        Some(Facet::MinExclusive)
    } else if str_eq(iri, facet_iri_str(Facet::MaxInclusive)) {
        Some(Facet::MaxInclusive)
    } else if str_eq(iri, facet_iri_str(Facet::MaxExclusive)) {
        Some(Facet::MaxExclusive)
    } else if str_eq(iri, facet_iri_str(Facet::TotalDigits)) {
        Some(Facet::TotalDigits)
    } else if str_eq(iri, facet_iri_str(Facet::FractionDigits)) {
        Some(Facet::FractionDigits)
    } else if str_eq(iri, facet_iri_str(Facet::LangRange)) {
        Some(Facet::LangRange)
    } else {
        None
    }
}

/// The kind of the built-in entity that `iri` names, if it names one.
pub fn to_built_in_entity(iri: &str) -> (r: Option<NamedEntityKind>)
    ensures
        r == built_in_kind(iri@),
{
    if str_eq(iri, OWL_TOP_DATA_PROPERTY) {
        Some(NamedEntityKind::DataProperty)
    } else if str_eq(iri, OWL_TOP_OBJECT_PROPERTY) {
        Some(NamedEntityKind::ObjectProperty)
    } else if str_eq(iri, OWL_THING) {
        Some(NamedEntityKind::Class)
    } else if str_eq(iri, OWL_NOTHING) {
        Some(NamedEntityKind::Class)
    } else {
        None
    }
}

} // verus!
