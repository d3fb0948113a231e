//! The prefix map: bindings from prefix names to IRIs, with an optional
//! default, against which abbreviated IRIs are expanded.
//!
//! The bindings are kept by the `curie` crate. What this module proves, it
//! proves from the contracts stated here of that crate's functions.

use curie::ExpansionError;
use curie::InvalidPrefixError;
use curie::PrefixMapping;
use vstd::prelude::*;

verus! {

/// The prefix mapping of the `curie` crate.
#[verifier::external_type_specification]
#[verifier::external_body]
pub struct ExPrefixMapping(PrefixMapping);

/// The error of `curie` for a prefix that may not be bound.
#[verifier::external_type_specification]
pub struct ExInvalidPrefixError(InvalidPrefixError);

/// The error of `curie` for an abbreviated IRI that cannot be expanded.
#[verifier::external_type_specification]
pub struct ExExpansionError(ExpansionError);

/// The bindings that a prefix mapping holds, as pairs of prefix name and IRI:
/// one pair for every bound name, in the order in which the names were first
/// bound.
pub uninterp spec fn bindings_of(m: PrefixMapping) -> Seq<(Seq<char>, Seq<char>)>;

/// The default IRI that a prefix mapping holds, if one was set.
pub uninterp spec fn default_of(m: PrefixMapping) -> Option<Seq<char>>;

/// The IRI that the first binding of `name` in `bindings` gives.
pub open spec fn lookup(bindings: Seq<(Seq<char>, Seq<char>)>, name: Seq<char>) -> Option<
    Seq<char>,
>
    decreases bindings.len(),
{
    if bindings.len() == 0 {
        None
    } else if bindings[0].0 == name {
        Some(bindings[0].1)
    } else {
        lookup(bindings.drop_first(), name)
    }
}

/// `bindings` after `name` is bound to `iri`: a name that is bound already
/// keeps its place and gets the new IRI, a new name goes to the end.
pub open spec fn bind(bindings: Seq<(Seq<char>, Seq<char>)>, name: Seq<char>, iri: Seq<char>) -> Seq<
    (Seq<char>, Seq<char>),
>
    decreases bindings.len(),
{
    if bindings.len() == 0 {
        seq![(name, iri)]
    } else if bindings[0].0 == name {
        seq![(name, iri)] + bindings.drop_first()
    } else {
        seq![bindings[0]] + bind(bindings.drop_first(), name, iri)
    }
}

/// A name has an IRI exactly when some binding carries it, and then the IRI
/// is that of the first binding that does.
pub proof fn lemma_lookup(bindings: Seq<(Seq<char>, Seq<char>)>, name: Seq<char>)
    ensures
        lookup(bindings, name) is None <==> (forall|i: int|
            0 <= i < bindings.len() ==> (#[trigger] bindings[i]).0 != name),
        lookup(bindings, name) is Some ==> (exists|i: int|
            0 <= i < bindings.len() && #[trigger] bindings[i] == (name, lookup(bindings, name)->0)
                && (forall|j: int| 0 <= j < i ==> (#[trigger] bindings[j]).0 != name)),
    decreases bindings.len(),
{
    if bindings.len() > 0 {
        let rest = bindings.drop_first();
        lemma_lookup(rest, name);
        if bindings[0].0 == name {
            assert(bindings[0] == (name, lookup(bindings, name)->0));
        } else {
            assert forall|i: int| 0 < i < bindings.len() implies bindings[i] == rest[i - 1] by {}
            if lookup(rest, name) is None {
                assert forall|i: int| 0 <= i < bindings.len() implies (#[trigger] bindings[i]).0
                    != name by {
                    if i > 0 {
                        assert(rest[i - 1].0 != name);
                    }
                }
            } else {
                let k = choose|k: int|
                    0 <= k < rest.len() && #[trigger] rest[k] == (name, lookup(rest, name)->0) && (
                    forall|j: int| 0 <= j < k ==> (#[trigger] rest[j]).0 != name);
                assert(bindings[k + 1] == (name, lookup(bindings, name)->0));
                assert forall|j: int| 0 <= j < k + 1 implies (#[trigger] bindings[j]).0 != name by {
                    if j > 0 {
                        assert(rest[j - 1].0 != name);
                    }
                }
                assert(bindings[k + 1].0 == name);
            }
        }
    }
}

/// After a name is bound to an IRI, the name has that IRI, and every other
/// name has what it had.
pub proof fn lemma_bind(
    bindings: Seq<(Seq<char>, Seq<char>)>,
    name: Seq<char>,
    iri: Seq<char>,
    other: Seq<char>,
)
    ensures
        lookup(bind(bindings, name, iri), name) == Some(iri),
        other != name ==> lookup(bind(bindings, name, iri), other) == lookup(bindings, other),
    decreases bindings.len(),
{
    if bindings.len() == 0 {
        let one = bind(bindings, name, iri);
        assert(one.drop_first() =~= Seq::<(Seq<char>, Seq<char>)>::empty());
        assert(one[0].0 == name);
        assert(lookup(one.drop_first(), other) is None);
    } else if bindings[0].0 == name {
        assert(bind(bindings, name, iri).drop_first() =~= bindings.drop_first());
    } else {
        lemma_bind(bindings.drop_first(), name, iri, other);
        assert(bind(bindings, name, iri).drop_first() =~= bind(bindings.drop_first(), name, iri));
    }
}

/// The one prefix name that may not be bound.
pub open spec fn reserved_name() -> Seq<char> {
    seq!['_']
}

/// What a prefix map stands for.
pub struct PrefixMapView {
    /// The IRI against which an abbreviated IRI without a prefix name is
    /// expanded.
    pub default: Option<Seq<char>>,
    /// The bound names with their IRIs, in the order in which the names were
    /// first bound.
    pub bindings: Seq<(Seq<char>, Seq<char>)>,
}

/// Why a prefix name could not be bound.
#[derive(Clone, Copy, Debug, PartialEq, Eq, Hash, Structural)]
pub enum InvalidPrefix {
    /// The name is `_`, which is kept for the identifiers of anonymous
    /// individuals.
    ReservedPrefix,
}

/// Why an abbreviated IRI could not be expanded.
#[derive(Clone, Copy, Debug, PartialEq, Eq, Hash, Structural)]
pub enum ExpandError {
    /// The prefix name has no binding.
    UndefinedPrefix,
    /// There is no prefix name, and no default is set.
    MissingDefault,
}

impl PrefixMapView {
    /// The expansion of the abbreviated IRI with the given prefix name, if it
    /// has one, and local part: the IRI bound to the name, or the default
    /// where there is no name, followed by the local part.
    pub open spec fn expansion(self, prefix: Option<Seq<char>>, local: Seq<char>) -> Result<
        Seq<char>,
        ExpandError,
    > {
        match prefix {
            Some(name) => match lookup(self.bindings, name) {
                Some(iri) => Ok(iri + local),
                None => Err(ExpandError::UndefinedPrefix),
            },
            None => match self.default {
                Some(iri) => Ok(iri + local),
                None => Err(ExpandError::MissingDefault),
            },
        }
    }
}

/// Expansion never fails but for a prefix name without binding or a missing
/// default. With a prefix name, the result is the IRI of the first binding
/// of that name followed by the local part, or `UndefinedPrefix` where no
/// binding has the name. Without one, it is the default followed by the
/// local part, or `MissingDefault` where no default is set.
pub proof fn lemma_expansion(pm: PrefixMapView, prefix: Option<Seq<char>>, local: Seq<char>)
    ensures
        match pm.expansion(prefix, local) {
            Ok(s) => match prefix {
                Some(name) => exists|i: int|
                    0 <= i < pm.bindings.len() && (#[trigger] pm.bindings[i]).0 == name && s
                        == pm.bindings[i].1 + local && (forall|j: int|
                        0 <= j < i ==> (#[trigger] pm.bindings[j]).0 != name),
                None => pm.default is Some && s == pm.default->0 + local,
            },
            Err(ExpandError::UndefinedPrefix) => prefix is Some && (forall|i: int|
                0 <= i < pm.bindings.len() ==> (#[trigger] pm.bindings[i]).0 != prefix->0),
            Err(ExpandError::MissingDefault) => prefix is None && pm.default is None,
        },
{
    if prefix is Some {
        lemma_lookup(pm.bindings, prefix->0);
        if lookup(pm.bindings, prefix->0) is Some {
            let name = prefix->0;
            let i = choose|i: int|
                0 <= i < pm.bindings.len() && #[trigger] pm.bindings[i] == (
                    name,
                    lookup(pm.bindings, name)->0,
                ) && (forall|j: int| 0 <= j < i ==> (#[trigger] pm.bindings[j]).0 != name);
            assert(pm.bindings[i].0 == name);
        }
    }
}

/// A map from prefix names to IRIs, with an optional default.
#[derive(Debug)]
pub struct PrefixMap {
    inner: PrefixMapping,
}

impl View for PrefixMap {
    type V = PrefixMapView;

    closed spec fn view(&self) -> PrefixMapView {
        PrefixMapView { default: default_of(self.inner), bindings: bindings_of(self.inner) }
    }
}

/// The view of an optional string.
pub open spec fn optional_str_view(s: Option<&str>) -> Option<Seq<char>> {
    match s {
        Some(x) => Some(x@),
        None => None,
    }
}

/// Makes an empty mapping, as `PrefixMapping::default` does: it holds no
/// binding and no default.
#[verifier::external_body]
fn empty_mapping() -> (r: PrefixMapping)
    ensures
        bindings_of(r) == Seq::<(Seq<char>, Seq<char>)>::empty(),
        default_of(r) is None,
{
    PrefixMapping::default()
}

/// Calls `PrefixMapping::set_default`: afterwards the default is `iri`, and
/// the bindings are what they were.
#[verifier::external_body]
fn set_mapping_default(m: &mut PrefixMapping, iri: &str)
    ensures
        default_of(*final(m)) == Some(iri@),
        bindings_of(*final(m)) == bindings_of(*old(m)),
{
    m.set_default(iri)
}

/// Calls `PrefixMapping::add_prefix`: the reserved name `_` is refused and
/// leaves the mapping as it was; any other name is bound to `iri`, in its old
/// place if it was bound before and at the end otherwise. The default stays.
#[verifier::external_body]
fn add_mapping_prefix(m: &mut PrefixMapping, name: &str, iri: &str) -> (r: Result<
    (),
    InvalidPrefixError,
>)
    ensures
        default_of(*final(m)) == default_of(*old(m)),
        name@ == reserved_name() ==> r is Err && bindings_of(*final(m)) == bindings_of(*old(m)),
        name@ != reserved_name() ==> r is Ok && bindings_of(*final(m)) == bind(
            bindings_of(*old(m)),
            name@,
            iri@,
        ),
{
    m.add_prefix(name, iri)
}

/// Calls `PrefixMapping::expand_curie` on the abbreviated IRI made of `prefix`
/// and `local`. With a prefix name, the result is the IRI bound to it
/// followed by `local`, or `Invalid` where the name is not bound. Without
/// one, it is the default followed by `local`, or `MissingDefault` where no
/// default is set.
#[verifier::external_body]
fn expand_in_mapping(m: &PrefixMapping, prefix: Option<&str>, local: &str) -> (r: Result<
    String,
    ExpansionError,
>)
    ensures
        match optional_str_view(prefix) {
            Some(name) => match lookup(bindings_of(*m), name) {
                Some(iri) => r matches Ok(s) && s@ == iri + local@,
                None => r matches Err(ExpansionError::Invalid),
            },
            None => match default_of(*m) {
                Some(iri) => r matches Ok(s) && s@ == iri + local@,
                None => r matches Err(ExpansionError::MissingDefault),
            },
        },
{
    m.expand_curie(&curie::Curie::new(prefix, local))
}

/// Lists what `PrefixMapping::mappings` yields: every binding, in the order
/// in which the names were first bound.
#[verifier::external_body]
fn mapping_pairs(m: &PrefixMapping) -> (r: Vec<(String, String)>)
    ensures
        r@.len() == bindings_of(*m).len(),
        forall|i: int|
            0 <= i < r@.len() ==> (#[trigger] r@[i]).0@ == bindings_of(*m)[i].0 && r@[i].1@
                == bindings_of(*m)[i].1,
{
    m.mappings().map(|(k, v)| (k.clone(), v.clone())).collect()
}

impl PrefixMap {
    /// A map without bindings and without default.
    pub fn new() -> (r: PrefixMap)
        ensures
            r@.default is None,
            r@.bindings == Seq::<(Seq<char>, Seq<char>)>::empty(),
    {
        PrefixMap { inner: empty_mapping() }
    }

    /// Sets the default.
    pub fn set_default(&mut self, iri: &str)
        ensures
            final(self)@ == (PrefixMapView { default: Some(iri@), bindings: old(self)@.bindings }),
    {
        set_mapping_default(&mut self.inner, iri);
    }

    /// Binds `name` to `iri`, unless `name` is the reserved name `_`: then the
    /// map stays as it is.
    pub fn add_prefix(&mut self, name: &str, iri: &str) -> (r: Result<(), InvalidPrefix>)
        ensures
            r is Ok <==> name@ != reserved_name(),
            final(self)@ == if r is Ok {
                PrefixMapView {
                    default: old(self)@.default,
                    bindings: bind(old(self)@.bindings, name@, iri@),
                }
            } else {
                old(self)@
            },
    {
        match add_mapping_prefix(&mut self.inner, name, iri) {
            Ok(_) => Ok(()),
            Err(InvalidPrefixError::ReservedPrefix) => Err(InvalidPrefix::ReservedPrefix),
        }
    }

    /// Expands the abbreviated IRI made of `prefix` and `local`.
    pub fn expand(&self, prefix: Option<&str>, local: &str) -> (r: Result<String, ExpandError>)
        ensures
            match r {
                Ok(s) => self@.expansion(optional_str_view(prefix), local@) == Ok::<
                    Seq<char>,
                    ExpandError,
                >(s@),
                Err(e) => self@.expansion(optional_str_view(prefix), local@) == Err::<
                    Seq<char>,
                    ExpandError,
                >(e),
            },
    {
        match expand_in_mapping(&self.inner, prefix, local) {
            Ok(s) => Ok(s),
            Err(ExpansionError::Invalid) => Err(ExpandError::UndefinedPrefix),
            Err(ExpansionError::MissingDefault) => Err(ExpandError::MissingDefault),
        }
    }

    /// The bindings, in the order in which the names were first bound.
    pub fn mappings(&self) -> (r: Vec<(String, String)>)
        ensures
            r@.len() == self@.bindings.len(),
            forall|i: int|
                0 <= i < r@.len() ==> (#[trigger] r@[i]).0@ == self@.bindings[i].0 && r@[i].1@
                    == self@.bindings[i].1,
    {
        mapping_pairs(&self.inner)
    }

    /// The default, if one is set.
    pub fn default_iri(&self) -> (r: Option<String>)
        ensures
            match r {
                Some(s) => self@.default == Some(s@),
                None => self@.default is None,
            },
    {
        proof {
            reveal_strlit("");
        }
        match self.expand(None, "") {
            Ok(s) => {
                assert(self@.default->0 + ""@ =~= self@.default->0);
                Some(s)
            },
            Err(_) => None,
        }
    }
}

} // verus!
