//! Named entities and individuals.

use vstd::prelude::*;
use vstd::std_specs::convert::FromSpecImpl;
use crate::model::iri::IRI;

verus! {

/// A named class.
#[derive(Debug, PartialEq, Eq, Hash, PartialOrd, Ord)]
pub struct Class(pub IRI);

impl View for Class {
    type V = Seq<char>;

    /// The string of the entity's IRI.
    open spec fn view(&self) -> Seq<char> {
        self.0@
    }
}

impl Clone for Class {
    fn clone(&self) -> (r: Self)
        ensures
            r@ == self@,
    {
        Class(self.0.clone())
    }
}

impl Class {
    /// Whether the two have the same IRI.
    pub fn same(&self, other: &Class) -> (r: bool)
        ensures
            r == (self@ == other@),
    {
        self.0.same(&other.0)
    }
}

impl From<Class> for IRI {
    fn from(e: Class) -> (r: IRI)
        ensures
            r@ == e@,
    {
        e.0
    }
}

impl FromSpecImpl<Class> for IRI {
    open spec fn obeys_from_spec() -> bool {
        true
    }

    open spec fn from_spec(e: Class) -> IRI {
        e.0
    }
}

/// A named datatype.
#[derive(Debug, PartialEq, Eq, Hash, PartialOrd, Ord)]
pub struct Datatype(pub IRI);

impl View for Datatype {
    type V = Seq<char>;

    /// The string of the entity's IRI.
    open spec fn view(&self) -> Seq<char> {
        self.0@
    }
}

impl Clone for Datatype {
    fn clone(&self) -> (r: Self)
        ensures
            r@ == self@,
    {
        Datatype(self.0.clone())
    }
}

impl Datatype {
    /// Whether the two have the same IRI.
    pub fn same(&self, other: &Datatype) -> (r: bool)
        ensures
            r == (self@ == other@),
    {
        self.0.same(&other.0)
    }
}

impl From<Datatype> for IRI {
    fn from(e: Datatype) -> (r: IRI)
        ensures
            r@ == e@,
    {
        e.0
    }
}

impl FromSpecImpl<Datatype> for IRI {
    open spec fn obeys_from_spec() -> bool {
        true
    }

    open spec fn from_spec(e: Datatype) -> IRI {
        e.0
    }
}

/// A property that relates individuals to individuals.
#[derive(Debug, PartialEq, Eq, Hash, PartialOrd, Ord)]
pub struct ObjectProperty(pub IRI);

impl View for ObjectProperty {
    type V = Seq<char>;

    /// The string of the entity's IRI.
    open spec fn view(&self) -> Seq<char> {
        self.0@
    }
}

impl Clone for ObjectProperty {
    fn clone(&self) -> (r: Self)
        ensures
            r@ == self@,
    {
        ObjectProperty(self.0.clone())
    }
}

impl ObjectProperty {
    /// Whether the two have the same IRI.
    pub fn same(&self, other: &ObjectProperty) -> (r: bool)
        ensures
            r == (self@ == other@),
    {
        self.0.same(&other.0)
    }
}

impl From<ObjectProperty> for IRI {
    fn from(e: ObjectProperty) -> (r: IRI)
        ensures
            r@ == e@,
    {
        e.0
    }
}

impl FromSpecImpl<ObjectProperty> for IRI {
    open spec fn obeys_from_spec() -> bool {
        true
    }

    open spec fn from_spec(e: ObjectProperty) -> IRI {
        e.0
    }
}

/// A property that relates individuals to literals.
#[derive(Debug, PartialEq, Eq, Hash, PartialOrd, Ord)]
pub struct DataProperty(pub IRI);

impl View for DataProperty {
    type V = Seq<char>;

    /// The string of the entity's IRI.
    open spec fn view(&self) -> Seq<char> {
        self.0@
    }
}

impl Clone for DataProperty {
    fn clone(&self) -> (r: Self)
        ensures
            r@ == self@,
    {
        DataProperty(self.0.clone())
    }
}

impl DataProperty {
    /// Whether the two have the same IRI.
    pub fn same(&self, other: &DataProperty) -> (r: bool)
        ensures
            r == (self@ == other@),
    {
        self.0.same(&other.0)
    }

    /// The strings of the IRIs of the items of `v`, in order.
    pub open spec fn seq_view(v: Vec<DataProperty>) -> Seq<Seq<char>> {
        Seq::new(v@.len(), |i: int| v@[i]@)
    }

    /// Whether the two lists stand for the same values in the same order.
    pub fn same_seq(a: &Vec<DataProperty>, b: &Vec<DataProperty>) -> (r: bool)
        ensures
            r == (DataProperty::seq_view(*a) == DataProperty::seq_view(*b)),
    {
        if a.len() != b.len() {
            assert(DataProperty::seq_view(*a).len() != DataProperty::seq_view(*b).len());
            return false;
        }
        let mut i: usize = 0;
        while i < a.len()
            invariant
                0 <= i <= a.len(),
                a.len() == b.len(),
                forall|j: int| 0 <= j < i ==> a@[j]@ == b@[j]@,
            decreases a.len() - i,
        {
            if !a[i].same(&b[i]) {
                assert(DataProperty::seq_view(*a)[i as int] == a@[i as int]@);
                assert(DataProperty::seq_view(*b)[i as int] == b@[i as int]@);
                return false;
            }
            i += 1;
        }
        assert(DataProperty::seq_view(*a) =~= DataProperty::seq_view(*b));
        true
    }

    /// A copy of the list that stands for the same values.
    pub fn clone_seq(a: &Vec<DataProperty>) -> (r: Vec<DataProperty>)
        ensures
            DataProperty::seq_view(r) == DataProperty::seq_view(*a),
    {
        let mut out: Vec<DataProperty> = Vec::new();
        let mut i: usize = 0;
        while i < a.len()
            invariant
                0 <= i <= a.len(),
                out.len() == i,
                forall|j: int| 0 <= j < i ==> out@[j]@ == a@[j]@,
            decreases a.len() - i,
        {
            out.push(a[i].clone());
            i += 1;
        }
        assert(DataProperty::seq_view(out) =~= DataProperty::seq_view(*a));
        out
    }
}

impl From<DataProperty> for IRI {
    fn from(e: DataProperty) -> (r: IRI)
        ensures
            r@ == e@,
    {
        e.0
    }
}

impl FromSpecImpl<DataProperty> for IRI {
    open spec fn obeys_from_spec() -> bool {
        true
    }

    open spec fn from_spec(e: DataProperty) -> IRI {
        e.0
    }
}

/// A property used to annotate.
#[derive(Debug, PartialEq, Eq, Hash, PartialOrd, Ord)]
pub struct AnnotationProperty(pub IRI);

impl View for AnnotationProperty {
    type V = Seq<char>;

    /// The string of the entity's IRI.
    open spec fn view(&self) -> Seq<char> {
        self.0@
    }
}

impl Clone for AnnotationProperty {
    fn clone(&self) -> (r: Self)
        ensures
            r@ == self@,
    {
        AnnotationProperty(self.0.clone())
    }
}

impl AnnotationProperty {
    /// Whether the two have the same IRI.
    pub fn same(&self, other: &AnnotationProperty) -> (r: bool)
        ensures
            r == (self@ == other@),
    {
        self.0.same(&other.0)
    }
}

impl From<AnnotationProperty> for IRI {
    fn from(e: AnnotationProperty) -> (r: IRI)
        ensures
            r@ == e@,
    {
        e.0
    }
}

impl FromSpecImpl<AnnotationProperty> for IRI {
    open spec fn obeys_from_spec() -> bool {
        true
    }

    open spec fn from_spec(e: AnnotationProperty) -> IRI {
        e.0
    }
}

/// An individual with an IRI.
#[derive(Debug, PartialEq, Eq, Hash, PartialOrd, Ord)]
pub struct NamedIndividual(pub IRI);

impl View for NamedIndividual {
    type V = Seq<char>;

    /// The string of the entity's IRI.
    open spec fn view(&self) -> Seq<char> {
        self.0@
    }
}

impl Clone for NamedIndividual {
    fn clone(&self) -> (r: Self)
        ensures
            r@ == self@,
    {
        NamedIndividual(self.0.clone())
    }
}

impl NamedIndividual {
    /// Whether the two have the same IRI.
    pub fn same(&self, other: &NamedIndividual) -> (r: bool)
        ensures
            r == (self@ == other@),
    {
        self.0.same(&other.0)
    }
}

impl From<NamedIndividual> for IRI {
    fn from(e: NamedIndividual) -> (r: IRI)
        ensures
            r@ == e@,
    {
        e.0
    }
}

impl FromSpecImpl<NamedIndividual> for IRI {
    open spec fn obeys_from_spec() -> bool {
        true
    }

    open spec fn from_spec(e: NamedIndividual) -> IRI {
        e.0
    }
}

/// An individual without an IRI, known by a node identifier that means
/// something only inside its document.
#[derive(Debug, PartialEq, Eq, Hash, PartialOrd, Ord)]
pub struct AnonymousIndividual(pub String);

impl View for AnonymousIndividual {
    type V = Seq<char>;

    /// The node identifier.
    open spec fn view(&self) -> Seq<char> {
        self.0@
    }
}

impl Clone for AnonymousIndividual {
    fn clone(&self) -> (r: Self)
        ensures
            r@ == self@,
    {
        AnonymousIndividual(self.0.clone())
    }
}

impl AnonymousIndividual {
    /// Whether the two have the same node identifier.
    pub fn same(&self, other: &AnonymousIndividual) -> (r: bool)
        ensures
            r == (self@ == other@),
    {
        self.0 == other.0
    }
}

/// Whether the two optional IRIs are both absent or have the same string.
pub fn same_optional_iri(a: &Option<IRI>, b: &Option<IRI>) -> (r: bool)
    ensures
        r == (optional_iri_view(*a) == optional_iri_view(*b)),
{
    match (a, b) {
        (Some(x), Some(y)) => x.same(y),
        (None, None) => true,
        _ => false,
    }
}

/// A copy of an optional IRI.
pub fn clone_optional_iri(a: &Option<IRI>) -> (r: Option<IRI>)
    ensures
        optional_iri_view(r) == optional_iri_view(*a),
{
    match a {
        Some(x) => Some(x.clone()),
        None => None,
    }
}

/// The string of an optional IRI.
pub open spec fn optional_iri_view(a: Option<IRI>) -> Option<Seq<char>> {
    match a {
        Some(i) => Some(i@),
        None => None,
    }
}

/// The six kinds of named entity.
#[derive(Clone, Copy, Debug, PartialEq, Eq, Hash, Structural)]
pub enum NamedEntityKind {
    Class,
    Datatype,
    ObjectProperty,
    DataProperty,
    AnnotationProperty,
    NamedIndividual,
}

/// A named entity of any of the six kinds.
#[derive(Debug, PartialEq, Eq, Hash)]
pub enum NamedEntity {
    Class(Class),
    Datatype(Datatype),
    ObjectProperty(ObjectProperty),
    DataProperty(DataProperty),
    AnnotationProperty(AnnotationProperty),
    NamedIndividual(NamedIndividual),
}

/// The value that a `NamedEntity` stands for.
pub enum NamedEntityView {
    Class(Seq<char>),
    Datatype(Seq<char>),
    ObjectProperty(Seq<char>),
    DataProperty(Seq<char>),
    AnnotationProperty(Seq<char>),
    NamedIndividual(Seq<char>),
}

impl View for NamedEntity {
    type V = NamedEntityView;

    open spec fn view(&self) -> NamedEntityView {
        match *self {
            NamedEntity::Class(x0) => NamedEntityView::Class(x0@),
            NamedEntity::Datatype(x0) => NamedEntityView::Datatype(x0@),
            NamedEntity::ObjectProperty(x0) => NamedEntityView::ObjectProperty(x0@),
            NamedEntity::DataProperty(x0) => NamedEntityView::DataProperty(x0@),
            NamedEntity::AnnotationProperty(x0) => NamedEntityView::AnnotationProperty(x0@),
            NamedEntity::NamedIndividual(x0) => NamedEntityView::NamedIndividual(x0@),
        }
    }
}

impl NamedEntity {
    /// Whether the two stand for the same value.
    pub fn same(&self, other: &NamedEntity) -> (r: bool)
        ensures
            r == (self@ == other@),
    {
        match (self, other) {
            (NamedEntity::Class(a0), NamedEntity::Class(b0)) => a0.same(b0),
            (NamedEntity::Datatype(a0), NamedEntity::Datatype(b0)) => a0.same(b0),
            (NamedEntity::ObjectProperty(a0), NamedEntity::ObjectProperty(b0)) => a0.same(b0),
            (NamedEntity::DataProperty(a0), NamedEntity::DataProperty(b0)) => a0.same(b0),
            (
                NamedEntity::AnnotationProperty(a0),
                NamedEntity::AnnotationProperty(b0),
            ) => a0.same(b0),
            (NamedEntity::NamedIndividual(a0), NamedEntity::NamedIndividual(b0)) => a0.same(b0),
            _ => false,
        }
    }
}

impl Clone for NamedEntity {
    fn clone(&self) -> (r: Self)
        ensures
            r@ == self@,
    {
        match self {
            NamedEntity::Class(a0) => NamedEntity::Class(a0.clone()),
            NamedEntity::Datatype(a0) => NamedEntity::Datatype(a0.clone()),
            NamedEntity::ObjectProperty(a0) => NamedEntity::ObjectProperty(a0.clone()),
            NamedEntity::DataProperty(a0) => NamedEntity::DataProperty(a0.clone()),
            NamedEntity::AnnotationProperty(a0) => NamedEntity::AnnotationProperty(a0.clone()),
            NamedEntity::NamedIndividual(a0) => NamedEntity::NamedIndividual(a0.clone()),
        }
    }
}

impl NamedEntity {
    /// The kind of the entity.
    pub open spec fn spec_kind(self) -> NamedEntityKind {
        match self {
            NamedEntity::Class(_) => NamedEntityKind::Class,
            NamedEntity::Datatype(_) => NamedEntityKind::Datatype,
            NamedEntity::ObjectProperty(_) => NamedEntityKind::ObjectProperty,
            NamedEntity::DataProperty(_) => NamedEntityKind::DataProperty,
            NamedEntity::AnnotationProperty(_) => NamedEntityKind::AnnotationProperty,
            NamedEntity::NamedIndividual(_) => NamedEntityKind::NamedIndividual,
        }
    }

    /// The kind of the entity.
    pub fn kind(&self) -> (r: NamedEntityKind)
        ensures
            r == self.spec_kind(),
    {
        match self {
            NamedEntity::Class(_) => NamedEntityKind::Class,
            NamedEntity::Datatype(_) => NamedEntityKind::Datatype,
            NamedEntity::ObjectProperty(_) => NamedEntityKind::ObjectProperty,
            NamedEntity::DataProperty(_) => NamedEntityKind::DataProperty,
            NamedEntity::AnnotationProperty(_) => NamedEntityKind::AnnotationProperty,
            NamedEntity::NamedIndividual(_) => NamedEntityKind::NamedIndividual,
        }
    }
}

impl From<Class> for NamedEntity {
    fn from(e: Class) -> (r: NamedEntity)
        ensures
            r == NamedEntity::Class(e),
    {
        NamedEntity::Class(e)
    }
}

impl FromSpecImpl<Class> for NamedEntity {
    open spec fn obeys_from_spec() -> bool {
        true
    }

    open spec fn from_spec(e: Class) -> NamedEntity {
        NamedEntity::Class(e)
    }
}

impl From<Datatype> for NamedEntity {
    fn from(e: Datatype) -> (r: NamedEntity)
        ensures
            r == NamedEntity::Datatype(e),
    {
        NamedEntity::Datatype(e)
    }
}

impl FromSpecImpl<Datatype> for NamedEntity {
    open spec fn obeys_from_spec() -> bool {
        true
    }

    open spec fn from_spec(e: Datatype) -> NamedEntity {
        NamedEntity::Datatype(e)
    }
}

impl From<ObjectProperty> for NamedEntity {
    fn from(e: ObjectProperty) -> (r: NamedEntity)
        ensures
            r == NamedEntity::ObjectProperty(e),
    {
        NamedEntity::ObjectProperty(e)
    }
}

impl FromSpecImpl<ObjectProperty> for NamedEntity {
    open spec fn obeys_from_spec() -> bool {
        true
    }

    open spec fn from_spec(e: ObjectProperty) -> NamedEntity {
        NamedEntity::ObjectProperty(e)
    }
}

impl From<DataProperty> for NamedEntity {
    fn from(e: DataProperty) -> (r: NamedEntity)
        ensures
            r == NamedEntity::DataProperty(e),
    {
        NamedEntity::DataProperty(e)
    }
}

impl FromSpecImpl<DataProperty> for NamedEntity {
    open spec fn obeys_from_spec() -> bool {
        true
    }

    open spec fn from_spec(e: DataProperty) -> NamedEntity {
        NamedEntity::DataProperty(e)
    }
}

impl From<AnnotationProperty> for NamedEntity {
    fn from(e: AnnotationProperty) -> (r: NamedEntity)
        ensures
            r == NamedEntity::AnnotationProperty(e),
    {
        NamedEntity::AnnotationProperty(e)
    }
}

impl FromSpecImpl<AnnotationProperty> for NamedEntity {
    open spec fn obeys_from_spec() -> bool {
        true
    }

    open spec fn from_spec(e: AnnotationProperty) -> NamedEntity {
        NamedEntity::AnnotationProperty(e)
    }
}

impl From<NamedIndividual> for NamedEntity {
    fn from(e: NamedIndividual) -> (r: NamedEntity)
        ensures
            r == NamedEntity::NamedIndividual(e),
    {
        NamedEntity::NamedIndividual(e)
    }
}

impl FromSpecImpl<NamedIndividual> for NamedEntity {
    open spec fn obeys_from_spec() -> bool {
        true
    }

    open spec fn from_spec(e: NamedIndividual) -> NamedEntity {
        NamedEntity::NamedIndividual(e)
    }
}

/// An individual, named or anonymous.
#[derive(Debug, PartialEq, Eq, Hash)]
pub enum Individual {
    Anonymous(AnonymousIndividual),
    Named(NamedIndividual),
}

/// The value that an `Individual` stands for.
pub enum IndividualView {
    Anonymous(Seq<char>),
    Named(Seq<char>),
}

impl View for Individual {
    type V = IndividualView;

    open spec fn view(&self) -> IndividualView {
        match *self {
            Individual::Anonymous(x0) => IndividualView::Anonymous(x0@),
            Individual::Named(x0) => IndividualView::Named(x0@),
        }
    }
}

impl Individual {
    /// The values that the items of `v` stand for, in order.
    pub open spec fn seq_view(v: Vec<Individual>) -> Seq<IndividualView> {
        Seq::new(v@.len(), |i: int| v@[i]@)
    }

    /// Whether the two stand for the same value.
    pub fn same(&self, other: &Individual) -> (r: bool)
        ensures
            r == (self@ == other@),
    {
        match (self, other) {
            (Individual::Anonymous(a0), Individual::Anonymous(b0)) => a0.same(b0),
            (Individual::Named(a0), Individual::Named(b0)) => a0.same(b0),
            _ => false,
        }
    }

    /// Whether the two lists stand for the same values in the same order.
    pub fn same_seq(a: &Vec<Individual>, b: &Vec<Individual>) -> (r: bool)
        ensures
            r == (Individual::seq_view(*a) == Individual::seq_view(*b)),
    {
        if a.len() != b.len() {
            assert(Individual::seq_view(*a).len() != Individual::seq_view(*b).len());
            return false;
        }
        let mut i: usize = 0;
        while i < a.len()
            invariant
                0 <= i <= a.len(),
                a.len() == b.len(),
                forall|j: int| 0 <= j < i ==> a@[j]@ == b@[j]@,
            decreases a.len() - i,
        {
            if !a[i].same(&b[i]) {
                assert(Individual::seq_view(*a)[i as int] == a@[i as int]@);
                assert(Individual::seq_view(*b)[i as int] == b@[i as int]@);
                return false;
            }
            i += 1;
        }
        assert(Individual::seq_view(*a) =~= Individual::seq_view(*b));
        true
    }

    /// A copy of the list that stands for the same values.
    pub fn clone_seq(a: &Vec<Individual>) -> (r: Vec<Individual>)
        ensures
            Individual::seq_view(r) == Individual::seq_view(*a),
    {
        let mut out: Vec<Individual> = Vec::new();
        let mut i: usize = 0;
        while i < a.len()
            invariant
                0 <= i <= a.len(),
                out.len() == i,
                forall|j: int| 0 <= j < i ==> out@[j]@ == a@[j]@,
            decreases a.len() - i,
        {
            out.push(a[i].clone());
            i += 1;
        }
        assert(Individual::seq_view(out) =~= Individual::seq_view(*a));
        out
    }
}

impl Clone for Individual {
    fn clone(&self) -> (r: Self)
        ensures
            r@ == self@,
    {
        match self {
            Individual::Anonymous(a0) => Individual::Anonymous(a0.clone()),
            Individual::Named(a0) => Individual::Named(a0.clone()),
        }
    }
}

} // verus!
