//! Literals, property expressions, data ranges and class expressions.

use vstd::prelude::*;
use crate::model::entity::Class;
use crate::model::entity::DataProperty;
use crate::model::entity::Datatype;
use crate::model::entity::Individual;
use crate::model::entity::IndividualView;
use crate::model::entity::ObjectProperty;
use crate::model::iri::IRI;

verus! {

/// A literal value.
#[derive(Debug, PartialEq, Eq, Hash)]
pub enum Literal {
    /// A plain string.
    Simple { literal: String },
    /// A string with a language tag; the tag has no leading `@`.
    Language { literal: String, lang: String },
    /// A lexical form read as a value of the given datatype.
    Datatype { literal: String, datatype_iri: IRI },
}

/// The value that a `Literal` stands for.
pub enum LiteralView {
    Simple { literal: Seq<char> },
    Language { literal: Seq<char>, lang: Seq<char> },
    Datatype { literal: Seq<char>, datatype_iri: Seq<char> },
}

impl View for Literal {
    type V = LiteralView;

    open spec fn view(&self) -> LiteralView {
        match *self {
            Literal::Simple { literal: x0 } => LiteralView::Simple { literal: x0@ },
            Literal::Language { literal: x0, lang: x1 } => {
                LiteralView::Language { literal: x0@, lang: x1@ }
            },
            Literal::Datatype { literal: x0, datatype_iri: x1 } => {
                LiteralView::Datatype { literal: x0@, datatype_iri: x1@ }
            },
        }
    }
}

impl Literal {
    /// The values that the items of `v` stand for, in order.
    pub open spec fn seq_view(v: Vec<Literal>) -> Seq<LiteralView> {
        Seq::new(v@.len(), |i: int| v@[i]@)
    }

    /// Whether the two stand for the same value.
    pub fn same(&self, other: &Literal) -> (r: bool)
        ensures
            r == (self@ == other@),
    {
        match (self, other) {
            (Literal::Simple { literal: a0 }, Literal::Simple { literal: b0 }) => *a0 == *b0,
            (
                Literal::Language { literal: a0, lang: a1 },
                Literal::Language { literal: b0, lang: b1 },
            ) => *a0 == *b0 && *a1 == *b1,
            (
                Literal::Datatype { literal: a0, datatype_iri: a1 },
                Literal::Datatype { literal: b0, datatype_iri: b1 },
            ) => *a0 == *b0 && a1.same(b1),
            _ => false,
        }
    }

    /// Whether the two lists stand for the same values in the same order.
    pub fn same_seq(a: &Vec<Literal>, b: &Vec<Literal>) -> (r: bool)
        ensures
            r == (Literal::seq_view(*a) == Literal::seq_view(*b)),
    {
        if a.len() != b.len() {
            assert(Literal::seq_view(*a).len() != Literal::seq_view(*b).len());
            return false;
        }
        let mut i: usize = 0;
        while i < a.len()
            invariant
                0 <= i <= a.len(),
                a.len() == b.len(),
                forall|j: int| 0 <= j < i ==> a@[j]@ == b@[j]@,
            decreases a.len() - i,
        {
            if !a[i].same(&b[i]) {
                assert(Literal::seq_view(*a)[i as int] == a@[i as int]@);
                assert(Literal::seq_view(*b)[i as int] == b@[i as int]@);
                return false;
            }
            i += 1;
        }
        assert(Literal::seq_view(*a) =~= Literal::seq_view(*b));
        true
    }

    /// A copy of the list that stands for the same values.
    pub fn clone_seq(a: &Vec<Literal>) -> (r: Vec<Literal>)
        ensures
            Literal::seq_view(r) == Literal::seq_view(*a),
    {
        let mut out: Vec<Literal> = Vec::new();
        let mut i: usize = 0;
        while i < a.len()
            invariant
                0 <= i <= a.len(),
                out.len() == i,
                forall|j: int| 0 <= j < i ==> out@[j]@ == a@[j]@,
            decreases a.len() - i,
        {
            out.push(a[i].clone());
            i += 1;
        }
        assert(Literal::seq_view(out) =~= Literal::seq_view(*a));
        out
    }
}

impl Clone for Literal {
    fn clone(&self) -> (r: Self)
        ensures
            r@ == self@,
    {
        match self {
            Literal::Simple { literal: a0 } => Literal::Simple { literal: a0.clone() },
            Literal::Language { literal: a0, lang: a1 } => {
                Literal::Language { literal: a0.clone(), lang: a1.clone() }
            },
            Literal::Datatype { literal: a0, datatype_iri: a1 } => {
                Literal::Datatype { literal: a0.clone(), datatype_iri: a1.clone() }
            },
        }
    }
}

/// An object property, or the inverse of one.
#[derive(Debug, PartialEq, Eq, Hash)]
pub enum ObjectPropertyExpression {
    ObjectProperty(ObjectProperty),
    InverseObjectProperty(ObjectProperty),
}

/// The value that an `ObjectPropertyExpression` stands for.
pub enum ObjectPropertyExpressionView {
    ObjectProperty(Seq<char>),
    InverseObjectProperty(Seq<char>),
}

impl View for ObjectPropertyExpression {
    type V = ObjectPropertyExpressionView;

    open spec fn view(&self) -> ObjectPropertyExpressionView {
        match *self {
            ObjectPropertyExpression::ObjectProperty(x0) => {
                ObjectPropertyExpressionView::ObjectProperty(x0@)
            },
            ObjectPropertyExpression::InverseObjectProperty(x0) => {
                ObjectPropertyExpressionView::InverseObjectProperty(x0@)
            },
        }
    }
}

impl ObjectPropertyExpression {
    /// The values that the items of `v` stand for, in order.
    pub open spec fn seq_view(
        v: Vec<ObjectPropertyExpression>,
    ) -> Seq<ObjectPropertyExpressionView> {
        Seq::new(v@.len(), |i: int| v@[i]@)
    }

    /// Whether the two stand for the same value.
    pub fn same(&self, other: &ObjectPropertyExpression) -> (r: bool)
        ensures
            r == (self@ == other@),
    {
        match (self, other) {
            (
                ObjectPropertyExpression::ObjectProperty(a0),
                ObjectPropertyExpression::ObjectProperty(b0),
            ) => a0.same(b0),
            (
                ObjectPropertyExpression::InverseObjectProperty(a0),
                ObjectPropertyExpression::InverseObjectProperty(b0),
            ) => a0.same(b0),
            _ => false,
        }
    }

    /// Whether the two lists stand for the same values in the same order.
    pub fn same_seq(
        a: &Vec<ObjectPropertyExpression>,
        b: &Vec<ObjectPropertyExpression>,
    ) -> (r: bool)
        ensures
            r == (ObjectPropertyExpression::seq_view(*a) == ObjectPropertyExpression::seq_view(*b)),
    {
        if a.len() != b.len() {
            assert(
                ObjectPropertyExpression::seq_view(*a).len() != ObjectPropertyExpression::seq_view(*b).len()
            );
            return false;
        }
        let mut i: usize = 0;
        while i < a.len()
            invariant
                0 <= i <= a.len(),
                a.len() == b.len(),
                forall|j: int| 0 <= j < i ==> a@[j]@ == b@[j]@,
            decreases a.len() - i,
        {
            if !a[i].same(&b[i]) {
                assert(ObjectPropertyExpression::seq_view(*a)[i as int] == a@[i as int]@);
                assert(ObjectPropertyExpression::seq_view(*b)[i as int] == b@[i as int]@);
                return false;
            }
            i += 1;
        }
        assert(ObjectPropertyExpression::seq_view(*a) =~= ObjectPropertyExpression::seq_view(*b));
        true
    }

    /// A copy of the list that stands for the same values.
    pub fn clone_seq(a: &Vec<ObjectPropertyExpression>) -> (r: Vec<ObjectPropertyExpression>)
        ensures
            ObjectPropertyExpression::seq_view(r) == ObjectPropertyExpression::seq_view(*a),
    {
        let mut out: Vec<ObjectPropertyExpression> = Vec::new();
        let mut i: usize = 0;
        while i < a.len()
            invariant
                0 <= i <= a.len(),
                out.len() == i,
                forall|j: int| 0 <= j < i ==> out@[j]@ == a@[j]@,
            decreases a.len() - i,
        {
            out.push(a[i].clone());
            i += 1;
        }
        assert(ObjectPropertyExpression::seq_view(out) =~= ObjectPropertyExpression::seq_view(*a));
        out
    }
}

impl Clone for ObjectPropertyExpression {
    fn clone(&self) -> (r: Self)
        ensures
            r@ == self@,
    {
        match self {
            ObjectPropertyExpression::ObjectProperty(a0) => {
                ObjectPropertyExpression::ObjectProperty(a0.clone())
            },
            ObjectPropertyExpression::InverseObjectProperty(a0) => {
                ObjectPropertyExpression::InverseObjectProperty(a0.clone())
            },
        }
    }
}

/// What may stand on the sub side of a sub-property axiom: one object property
/// expression, or a chain of them.
#[derive(Debug, PartialEq, Eq, Hash)]
pub enum SubObjectPropertyExpression {
    ObjectPropertyChain(Vec<ObjectPropertyExpression>),
    ObjectPropertyExpression(ObjectPropertyExpression),
}

/// The value that a `SubObjectPropertyExpression` stands for.
pub enum SubObjectPropertyExpressionView {
    ObjectPropertyChain(Seq<ObjectPropertyExpressionView>),
    ObjectPropertyExpression(ObjectPropertyExpressionView),
}

impl View for SubObjectPropertyExpression {
    type V = SubObjectPropertyExpressionView;

    open spec fn view(&self) -> SubObjectPropertyExpressionView {
        match *self {
            SubObjectPropertyExpression::ObjectPropertyChain(x0) => {
                SubObjectPropertyExpressionView::ObjectPropertyChain(
                    ObjectPropertyExpression::seq_view(x0),
                )
            },
            SubObjectPropertyExpression::ObjectPropertyExpression(x0) => {
                SubObjectPropertyExpressionView::ObjectPropertyExpression(x0@)
            },
        }
    }
}

impl SubObjectPropertyExpression {
    /// Whether the two stand for the same value.
    pub fn same(&self, other: &SubObjectPropertyExpression) -> (r: bool)
        ensures
            r == (self@ == other@),
    {
        match (self, other) {
            (
                SubObjectPropertyExpression::ObjectPropertyChain(a0),
                SubObjectPropertyExpression::ObjectPropertyChain(b0),
            ) => ObjectPropertyExpression::same_seq(a0, b0),
            (
                SubObjectPropertyExpression::ObjectPropertyExpression(a0),
                SubObjectPropertyExpression::ObjectPropertyExpression(b0),
            ) => a0.same(b0),
            _ => false,
        }
    }
}

impl Clone for SubObjectPropertyExpression {
    fn clone(&self) -> (r: Self)
        ensures
            r@ == self@,
    {
        match self {
            SubObjectPropertyExpression::ObjectPropertyChain(a0) => {
                SubObjectPropertyExpression::ObjectPropertyChain(
                    ObjectPropertyExpression::clone_seq(a0),
                )
            },
            SubObjectPropertyExpression::ObjectPropertyExpression(a0) => {
                SubObjectPropertyExpression::ObjectPropertyExpression(a0.clone())
            },
        }
    }
}

/// A property of either sort, as a key lists them.
#[derive(Debug, PartialEq, Eq, Hash)]
pub enum PropertyExpression {
    ObjectPropertyExpression(ObjectPropertyExpression),
    DataProperty(DataProperty),
}

/// The value that a `PropertyExpression` stands for.
pub enum PropertyExpressionView {
    ObjectPropertyExpression(ObjectPropertyExpressionView),
    DataProperty(Seq<char>),
}

impl View for PropertyExpression {
    type V = PropertyExpressionView;

    open spec fn view(&self) -> PropertyExpressionView {
        match *self {
            PropertyExpression::ObjectPropertyExpression(x0) => {
                PropertyExpressionView::ObjectPropertyExpression(x0@)
            },
            PropertyExpression::DataProperty(x0) => PropertyExpressionView::DataProperty(x0@),
        }
    }
}

impl PropertyExpression {
    /// The values that the items of `v` stand for, in order.
    pub open spec fn seq_view(v: Vec<PropertyExpression>) -> Seq<PropertyExpressionView> {
        Seq::new(v@.len(), |i: int| v@[i]@)
    }

    /// Whether the two stand for the same value.
    pub fn same(&self, other: &PropertyExpression) -> (r: bool)
        ensures
            r == (self@ == other@),
    {
        match (self, other) {
            (
                PropertyExpression::ObjectPropertyExpression(a0),
                PropertyExpression::ObjectPropertyExpression(b0),
            ) => a0.same(b0),
            (
                PropertyExpression::DataProperty(a0),
                PropertyExpression::DataProperty(b0),
            ) => a0.same(b0),
            _ => false,
        }
    }

    /// Whether the two lists stand for the same values in the same order.
    pub fn same_seq(a: &Vec<PropertyExpression>, b: &Vec<PropertyExpression>) -> (r: bool)
        ensures
            r == (PropertyExpression::seq_view(*a) == PropertyExpression::seq_view(*b)),
    {
        if a.len() != b.len() {
            assert(
                PropertyExpression::seq_view(*a).len() != PropertyExpression::seq_view(*b).len()
            );
            return false;
        }
        let mut i: usize = 0;
        while i < a.len()
            invariant
                0 <= i <= a.len(),
                a.len() == b.len(),
                forall|j: int| 0 <= j < i ==> a@[j]@ == b@[j]@,
            decreases a.len() - i,
        {
            if !a[i].same(&b[i]) {
                assert(PropertyExpression::seq_view(*a)[i as int] == a@[i as int]@);
                assert(PropertyExpression::seq_view(*b)[i as int] == b@[i as int]@);
                return false;
            }
            i += 1;
        }
        assert(PropertyExpression::seq_view(*a) =~= PropertyExpression::seq_view(*b));
        true
    }

    /// A copy of the list that stands for the same values.
    pub fn clone_seq(a: &Vec<PropertyExpression>) -> (r: Vec<PropertyExpression>)
        ensures
            PropertyExpression::seq_view(r) == PropertyExpression::seq_view(*a),
    {
        let mut out: Vec<PropertyExpression> = Vec::new();
        let mut i: usize = 0;
        while i < a.len()
            invariant
                0 <= i <= a.len(),
                out.len() == i,
                forall|j: int| 0 <= j < i ==> out@[j]@ == a@[j]@,
            decreases a.len() - i,
        {
            out.push(a[i].clone());
            i += 1;
        }
        assert(PropertyExpression::seq_view(out) =~= PropertyExpression::seq_view(*a));
        out
    }
}

impl Clone for PropertyExpression {
    fn clone(&self) -> (r: Self)
        ensures
            r@ == self@,
    {
        match self {
            PropertyExpression::ObjectPropertyExpression(a0) => {
                PropertyExpression::ObjectPropertyExpression(a0.clone())
            },
            PropertyExpression::DataProperty(a0) => PropertyExpression::DataProperty(a0.clone()),
        }
    }
}

/// The constraining facets of datatype restrictions.
#[derive(Clone, Copy, Debug, PartialEq, Eq, Hash, Structural)]
pub enum Facet {
    Length,
    MinLength,
    MaxLength,
    Pattern,
    MinInclusive,
    MinExclusive,
    MaxInclusive,
    MaxExclusive,
    TotalDigits,
    FractionDigits,
    LangRange,
}

impl View for Facet {
    type V = Facet;

    /// A facet stands for itself.
    open spec fn view(&self) -> Facet {
        *self
    }
}

/// A facet together with the literal that bounds it.
#[derive(Debug, PartialEq, Eq, Hash)]
pub struct FacetRestriction {
    pub f: Facet,
    pub l: Literal,
}

/// The value that a `FacetRestriction` stands for.
pub struct FacetRestrictionView {
    pub f: Facet,
    pub l: LiteralView,
}

impl View for FacetRestriction {
    type V = FacetRestrictionView;

    open spec fn view(&self) -> FacetRestrictionView {
        match *self {
            FacetRestriction { f: x0, l: x1 } => FacetRestrictionView { f: x0, l: x1@ },
        }
    }
}

impl FacetRestriction {
    /// The values that the items of `v` stand for, in order.
    pub open spec fn seq_view(v: Vec<FacetRestriction>) -> Seq<FacetRestrictionView> {
        Seq::new(v@.len(), |i: int| v@[i]@)
    }

    /// Whether the two stand for the same value.
    pub fn same(&self, other: &FacetRestriction) -> (r: bool)
        ensures
            r == (self@ == other@),
    {
        self.f == other.f && self.l.same(&other.l)
    }

    /// Whether the two lists stand for the same values in the same order.
    pub fn same_seq(a: &Vec<FacetRestriction>, b: &Vec<FacetRestriction>) -> (r: bool)
        ensures
            r == (FacetRestriction::seq_view(*a) == FacetRestriction::seq_view(*b)),
    {
        if a.len() != b.len() {
            assert(FacetRestriction::seq_view(*a).len() != FacetRestriction::seq_view(*b).len());
            return false;
        }
        let mut i: usize = 0;
        while i < a.len()
            invariant
                0 <= i <= a.len(),
                a.len() == b.len(),
                forall|j: int| 0 <= j < i ==> a@[j]@ == b@[j]@,
            decreases a.len() - i,
        {
            if !a[i].same(&b[i]) {
                assert(FacetRestriction::seq_view(*a)[i as int] == a@[i as int]@);
                assert(FacetRestriction::seq_view(*b)[i as int] == b@[i as int]@);
                return false;
            }
            i += 1;
        }
        assert(FacetRestriction::seq_view(*a) =~= FacetRestriction::seq_view(*b));
        true
    }

    /// A copy of the list that stands for the same values.
    pub fn clone_seq(a: &Vec<FacetRestriction>) -> (r: Vec<FacetRestriction>)
        ensures
            FacetRestriction::seq_view(r) == FacetRestriction::seq_view(*a),
    {
        let mut out: Vec<FacetRestriction> = Vec::new();
        let mut i: usize = 0;
        while i < a.len()
            invariant
                0 <= i <= a.len(),
                out.len() == i,
                forall|j: int| 0 <= j < i ==> out@[j]@ == a@[j]@,
            decreases a.len() - i,
        {
            out.push(a[i].clone());
            i += 1;
        }
        assert(FacetRestriction::seq_view(out) =~= FacetRestriction::seq_view(*a));
        out
    }
}

impl Clone for FacetRestriction {
    fn clone(&self) -> (r: Self)
        ensures
            r@ == self@,
    {
        FacetRestriction { f: self.f, l: self.l.clone() }
    }
}

/// A set of literals.
#[derive(Debug, PartialEq, Eq, Hash)]
pub enum DataRange {
    /// The literals of a datatype.
    Datatype(Datatype),
    /// The literals that belong to all the operands.
    DataIntersectionOf(Vec<DataRange>),
    /// The literals that belong to some operand.
    DataUnionOf(Vec<DataRange>),
    /// The literals that do not belong to the operand.
    DataComplementOf(Box<DataRange>),
    /// The literals listed.
    DataOneOf(Vec<Literal>),
    /// The literals of a datatype that meet every facet restriction.
    DatatypeRestriction(Datatype, Vec<FacetRestriction>),
}

/// The value that a `DataRange` stands for.
pub enum DataRangeView {
    Datatype(Seq<char>),
    DataIntersectionOf(Seq<DataRangeView>),
    DataUnionOf(Seq<DataRangeView>),
    DataComplementOf(Box<DataRangeView>),
    DataOneOf(Seq<LiteralView>),
    DatatypeRestriction(Seq<char>, Seq<FacetRestrictionView>),
}

impl View for DataRange {
    type V = DataRangeView;

    open spec fn view(&self) -> DataRangeView {
        self.model()
    }
}

impl DataRange {
    /// The value that the expression stands for.
    pub open spec fn model(self) -> DataRangeView
        decreases self,
    {
        match self {
            DataRange::Datatype(x0) => DataRangeView::Datatype(x0@),
            DataRange::DataIntersectionOf(x0) => {
                DataRangeView::DataIntersectionOf(DataRange::seq_view(x0))
            },
            DataRange::DataUnionOf(x0) => DataRangeView::DataUnionOf(DataRange::seq_view(x0)),
            DataRange::DataComplementOf(x0) => {
                DataRangeView::DataComplementOf(Box::new((*x0).model()))
            },
            DataRange::DataOneOf(x0) => DataRangeView::DataOneOf(Literal::seq_view(x0)),
            DataRange::DatatypeRestriction(x0, x1) => {
                DataRangeView::DatatypeRestriction(x0@, FacetRestriction::seq_view(x1))
            },
        }
    }

    /// The values that the items of `v` stand for, in order.
    pub open spec fn seq_view(v: Vec<DataRange>) -> Seq<DataRangeView>
        decreases v,
    {
        Seq::new(v@.len(), |i: int| if 0 <= i < v@.len() { v@[i].model() } else { arbitrary() })
    }

    /// Whether the two stand for the same value.
    pub fn same(&self, other: &DataRange) -> (r: bool)
        ensures
            r == (self@ == other@),
        decreases self,
    {
        match (self, other) {
            (DataRange::Datatype(a0), DataRange::Datatype(b0)) => a0.same(b0),
            (
                DataRange::DataIntersectionOf(a0),
                DataRange::DataIntersectionOf(b0),
            ) => DataRange::same_seq(a0, b0),
            (DataRange::DataUnionOf(a0), DataRange::DataUnionOf(b0)) => DataRange::same_seq(a0, b0),
            (DataRange::DataComplementOf(a0), DataRange::DataComplementOf(b0)) => a0.same(b0),
            (DataRange::DataOneOf(a0), DataRange::DataOneOf(b0)) => Literal::same_seq(a0, b0),
            (
                DataRange::DatatypeRestriction(a0, a1),
                DataRange::DatatypeRestriction(b0, b1),
            ) => a0.same(b0) && FacetRestriction::same_seq(a1, b1),
            _ => false,
        }
    }

    /// A copy that stands for the same value.
    pub fn duplicate(&self) -> (r: DataRange)
        ensures
            r@ == self@,
        decreases self,
    {
        match self {
            DataRange::Datatype(a0) => DataRange::Datatype(a0.clone()),
            DataRange::DataIntersectionOf(a0) => {
                DataRange::DataIntersectionOf(DataRange::clone_seq(a0))
            },
            DataRange::DataUnionOf(a0) => DataRange::DataUnionOf(DataRange::clone_seq(a0)),
            DataRange::DataComplementOf(a0) => {
                DataRange::DataComplementOf(Box::new(a0.duplicate()))
            },
            DataRange::DataOneOf(a0) => DataRange::DataOneOf(Literal::clone_seq(a0)),
            DataRange::DatatypeRestriction(a0, a1) => {
                DataRange::DatatypeRestriction(a0.clone(), FacetRestriction::clone_seq(a1))
            },
        }
    }

    /// Whether the two lists stand for the same values in the same order.
    pub fn same_seq(a: &Vec<DataRange>, b: &Vec<DataRange>) -> (r: bool)
        ensures
            r == (DataRange::seq_view(*a) == DataRange::seq_view(*b)),
        decreases a,
    {
        if a.len() != b.len() {
            assert(DataRange::seq_view(*a).len() != DataRange::seq_view(*b).len());
            return false;
        }
        let mut i: usize = 0;
        while i < a.len()
            invariant
                0 <= i <= a.len(),
                a.len() == b.len(),
                forall|j: int| 0 <= j < i ==> a@[j]@ == b@[j]@,
            decreases a.len() - i,
        {
            if !a[i].same(&b[i]) {
                assert(DataRange::seq_view(*a)[i as int] == a@[i as int]@);
                assert(DataRange::seq_view(*b)[i as int] == b@[i as int]@);
                return false;
            }
            i += 1;
        }
        assert(DataRange::seq_view(*a) =~= DataRange::seq_view(*b));
        true
    }

    /// A copy of the list that stands for the same values.
    pub fn clone_seq(a: &Vec<DataRange>) -> (r: Vec<DataRange>)
        ensures
            DataRange::seq_view(r) == DataRange::seq_view(*a),
        decreases a,
    {
        let mut out: Vec<DataRange> = Vec::new();
        let mut i: usize = 0;
        while i < a.len()
            invariant
                0 <= i <= a.len(),
                out.len() == i,
                forall|j: int| 0 <= j < i ==> out@[j]@ == a@[j]@,
            decreases a.len() - i,
        {
            out.push(a[i].duplicate());
            i += 1;
        }
        assert(DataRange::seq_view(out) =~= DataRange::seq_view(*a));
        out
    }
}

impl Clone for DataRange {
    fn clone(&self) -> (r: Self)
        ensures
            r@ == self@,
    {
        self.duplicate()
    }
}

/// A set of individuals.
///
/// A cardinality restriction always holds the class or data range that it
/// counts: where a document leaves it out, the lowering stores the default.
#[derive(Debug, PartialEq, Eq, Hash)]
pub enum ClassExpression {
    /// The members of a named class.
    Class(Class),
    /// The individuals that belong to all the operands.
    ObjectIntersectionOf(Vec<ClassExpression>),
    /// The individuals that belong to some operand.
    ObjectUnionOf(Vec<ClassExpression>),
    /// The individuals that do not belong to the operand.
    ObjectComplementOf(Box<ClassExpression>),
    /// The individuals listed.
    ObjectOneOf(Vec<Individual>),
    /// The individuals that `ope` relates to some member of `bce`.
    ObjectSomeValuesFrom { ope: ObjectPropertyExpression, bce: Box<ClassExpression> },
    /// The individuals that `ope` relates to members of `bce` only.
    ObjectAllValuesFrom { ope: ObjectPropertyExpression, bce: Box<ClassExpression> },
    /// The individuals that `ope` relates to `i`.
    ObjectHasValue { ope: ObjectPropertyExpression, i: Individual },
    /// The individuals that the property relates to themselves.
    ObjectHasSelf(ObjectPropertyExpression),
    /// The individuals that `ope` relates to at least `n` members of `bce`.
    ObjectMinCardinality { n: u32, ope: ObjectPropertyExpression, bce: Box<ClassExpression> },
    /// The individuals that `ope` relates to at most `n` members of `bce`.
    ObjectMaxCardinality { n: u32, ope: ObjectPropertyExpression, bce: Box<ClassExpression> },
    /// The individuals that `ope` relates to exactly `n` members of `bce`.
    ObjectExactCardinality { n: u32, ope: ObjectPropertyExpression, bce: Box<ClassExpression> },
    /// The individuals that `dp` relates to some literal of `dr`.
    DataSomeValuesFrom { dp: DataProperty, dr: DataRange },
    /// The individuals that `dp` relates to literals of `dr` only.
    DataAllValuesFrom { dp: DataProperty, dr: DataRange },
    /// The individuals that `dp` relates to `l`.
    DataHasValue { dp: DataProperty, l: Literal },
    /// The individuals that `dp` relates to at least `n` literals of `dr`.
    DataMinCardinality { n: u32, dp: DataProperty, dr: DataRange },
    /// The individuals that `dp` relates to at most `n` literals of `dr`.
    DataMaxCardinality { n: u32, dp: DataProperty, dr: DataRange },
    /// The individuals that `dp` relates to exactly `n` literals of `dr`.
    DataExactCardinality { n: u32, dp: DataProperty, dr: DataRange },
}

/// The value that a `ClassExpression` stands for.
pub enum ClassExpressionView {
    Class(Seq<char>),
    ObjectIntersectionOf(Seq<ClassExpressionView>),
    ObjectUnionOf(Seq<ClassExpressionView>),
    ObjectComplementOf(Box<ClassExpressionView>),
    ObjectOneOf(Seq<IndividualView>),
    ObjectSomeValuesFrom { ope: ObjectPropertyExpressionView, bce: Box<ClassExpressionView> },
    ObjectAllValuesFrom { ope: ObjectPropertyExpressionView, bce: Box<ClassExpressionView> },
    ObjectHasValue { ope: ObjectPropertyExpressionView, i: IndividualView },
    ObjectHasSelf(ObjectPropertyExpressionView),
    ObjectMinCardinality {
        n: u32,
        ope: ObjectPropertyExpressionView,
        bce: Box<ClassExpressionView>,
    },
    ObjectMaxCardinality {
        n: u32,
        ope: ObjectPropertyExpressionView,
        bce: Box<ClassExpressionView>,
    },
    ObjectExactCardinality {
        n: u32,
        ope: ObjectPropertyExpressionView,
        bce: Box<ClassExpressionView>,
    },
    DataSomeValuesFrom { dp: Seq<char>, dr: DataRangeView },
    DataAllValuesFrom { dp: Seq<char>, dr: DataRangeView },
    DataHasValue { dp: Seq<char>, l: LiteralView },
    DataMinCardinality { n: u32, dp: Seq<char>, dr: DataRangeView },
    DataMaxCardinality { n: u32, dp: Seq<char>, dr: DataRangeView },
    DataExactCardinality { n: u32, dp: Seq<char>, dr: DataRangeView },
}

impl View for ClassExpression {
    type V = ClassExpressionView;

    open spec fn view(&self) -> ClassExpressionView {
        self.model()
    }
}

impl ClassExpression {
    /// The value that the expression stands for.
    pub open spec fn model(self) -> ClassExpressionView
        decreases self,
    {
        match self {
            ClassExpression::Class(x0) => ClassExpressionView::Class(x0@),
            ClassExpression::ObjectIntersectionOf(x0) => {
                ClassExpressionView::ObjectIntersectionOf(ClassExpression::seq_view(x0))
            },
            ClassExpression::ObjectUnionOf(x0) => {
                ClassExpressionView::ObjectUnionOf(ClassExpression::seq_view(x0))
            },
            ClassExpression::ObjectComplementOf(x0) => {
                ClassExpressionView::ObjectComplementOf(Box::new((*x0).model()))
            },
            ClassExpression::ObjectOneOf(x0) => {
                ClassExpressionView::ObjectOneOf(Individual::seq_view(x0))
            },
            ClassExpression::ObjectSomeValuesFrom { ope: x0, bce: x1 } => {
                ClassExpressionView::ObjectSomeValuesFrom { ope: x0@, bce: Box::new((*x1).model()) }
            },
            ClassExpression::ObjectAllValuesFrom { ope: x0, bce: x1 } => {
                ClassExpressionView::ObjectAllValuesFrom { ope: x0@, bce: Box::new((*x1).model()) }
            },
            ClassExpression::ObjectHasValue { ope: x0, i: x1 } => {
                ClassExpressionView::ObjectHasValue { ope: x0@, i: x1@ }
            },
            ClassExpression::ObjectHasSelf(x0) => ClassExpressionView::ObjectHasSelf(x0@),
            ClassExpression::ObjectMinCardinality { n: x0, ope: x1, bce: x2 } => {
                ClassExpressionView::ObjectMinCardinality {
                    n: x0,
                    ope: x1@,
                    bce: Box::new((*x2).model()),
                }
            },
            ClassExpression::ObjectMaxCardinality { n: x0, ope: x1, bce: x2 } => {
                ClassExpressionView::ObjectMaxCardinality {
                    n: x0,
                    ope: x1@,
                    bce: Box::new((*x2).model()),
                }
            },
            ClassExpression::ObjectExactCardinality { n: x0, ope: x1, bce: x2 } => {
                ClassExpressionView::ObjectExactCardinality {
                    n: x0,
                    ope: x1@,
                    bce: Box::new((*x2).model()),
                }
            },
            ClassExpression::DataSomeValuesFrom { dp: x0, dr: x1 } => {
                ClassExpressionView::DataSomeValuesFrom { dp: x0@, dr: x1@ }
            },
            ClassExpression::DataAllValuesFrom { dp: x0, dr: x1 } => {
                ClassExpressionView::DataAllValuesFrom { dp: x0@, dr: x1@ }
            },
            ClassExpression::DataHasValue { dp: x0, l: x1 } => {
                ClassExpressionView::DataHasValue { dp: x0@, l: x1@ }
            },
            ClassExpression::DataMinCardinality { n: x0, dp: x1, dr: x2 } => {
                ClassExpressionView::DataMinCardinality { n: x0, dp: x1@, dr: x2@ }
            },
            ClassExpression::DataMaxCardinality { n: x0, dp: x1, dr: x2 } => {
                ClassExpressionView::DataMaxCardinality { n: x0, dp: x1@, dr: x2@ }
            },
            ClassExpression::DataExactCardinality { n: x0, dp: x1, dr: x2 } => {
                ClassExpressionView::DataExactCardinality { n: x0, dp: x1@, dr: x2@ }
            },
        }
    }

    /// The values that the items of `v` stand for, in order.
    pub open spec fn seq_view(v: Vec<ClassExpression>) -> Seq<ClassExpressionView>
        decreases v,
    {
        Seq::new(v@.len(), |i: int| if 0 <= i < v@.len() { v@[i].model() } else { arbitrary() })
    }

    /// Whether the two stand for the same value.
    pub fn same(&self, other: &ClassExpression) -> (r: bool)
        ensures
            r == (self@ == other@),
        decreases self,
    {
        match (self, other) {
            (ClassExpression::Class(a0), ClassExpression::Class(b0)) => a0.same(b0),
            (
                ClassExpression::ObjectIntersectionOf(a0),
                ClassExpression::ObjectIntersectionOf(b0),
            ) => ClassExpression::same_seq(a0, b0),
            (
                ClassExpression::ObjectUnionOf(a0),
                ClassExpression::ObjectUnionOf(b0),
            ) => ClassExpression::same_seq(a0, b0),
            (
                ClassExpression::ObjectComplementOf(a0),
                ClassExpression::ObjectComplementOf(b0),
            ) => a0.same(b0),
            (
                ClassExpression::ObjectOneOf(a0),
                ClassExpression::ObjectOneOf(b0),
            ) => Individual::same_seq(a0, b0),
            (
                ClassExpression::ObjectSomeValuesFrom { ope: a0, bce: a1 },
                ClassExpression::ObjectSomeValuesFrom { ope: b0, bce: b1 },
            ) => a0.same(b0) && a1.same(b1),
            (
                ClassExpression::ObjectAllValuesFrom { ope: a0, bce: a1 },
                ClassExpression::ObjectAllValuesFrom { ope: b0, bce: b1 },
            ) => a0.same(b0) && a1.same(b1),
            (
                ClassExpression::ObjectHasValue { ope: a0, i: a1 },
                ClassExpression::ObjectHasValue { ope: b0, i: b1 },
            ) => a0.same(b0) && a1.same(b1),
            (ClassExpression::ObjectHasSelf(a0), ClassExpression::ObjectHasSelf(b0)) => a0.same(b0),
            (
                ClassExpression::ObjectMinCardinality { n: a0, ope: a1, bce: a2 },
                ClassExpression::ObjectMinCardinality { n: b0, ope: b1, bce: b2 },
            ) => *a0 == *b0 && a1.same(b1) && a2.same(b2),
            (
                ClassExpression::ObjectMaxCardinality { n: a0, ope: a1, bce: a2 },
                ClassExpression::ObjectMaxCardinality { n: b0, ope: b1, bce: b2 },
            ) => *a0 == *b0 && a1.same(b1) && a2.same(b2),
            (
                ClassExpression::ObjectExactCardinality { n: a0, ope: a1, bce: a2 },
                ClassExpression::ObjectExactCardinality { n: b0, ope: b1, bce: b2 },
            ) => *a0 == *b0 && a1.same(b1) && a2.same(b2),
            (
                ClassExpression::DataSomeValuesFrom { dp: a0, dr: a1 },
                ClassExpression::DataSomeValuesFrom { dp: b0, dr: b1 },
            ) => a0.same(b0) && a1.same(b1),
            (
                ClassExpression::DataAllValuesFrom { dp: a0, dr: a1 },
                ClassExpression::DataAllValuesFrom { dp: b0, dr: b1 },
            ) => a0.same(b0) && a1.same(b1),
            (
                ClassExpression::DataHasValue { dp: a0, l: a1 },
                ClassExpression::DataHasValue { dp: b0, l: b1 },
            ) => a0.same(b0) && a1.same(b1),
            (
                ClassExpression::DataMinCardinality { n: a0, dp: a1, dr: a2 },
                ClassExpression::DataMinCardinality { n: b0, dp: b1, dr: b2 },
            ) => *a0 == *b0 && a1.same(b1) && a2.same(b2),
            (
                ClassExpression::DataMaxCardinality { n: a0, dp: a1, dr: a2 },
                ClassExpression::DataMaxCardinality { n: b0, dp: b1, dr: b2 },
            ) => *a0 == *b0 && a1.same(b1) && a2.same(b2),
            (
                ClassExpression::DataExactCardinality { n: a0, dp: a1, dr: a2 },
                ClassExpression::DataExactCardinality { n: b0, dp: b1, dr: b2 },
            ) => *a0 == *b0 && a1.same(b1) && a2.same(b2),
            _ => false,
        }
    }

    /// A copy that stands for the same value.
    pub fn duplicate(&self) -> (r: ClassExpression)
        ensures
            r@ == self@,
        decreases self,
    {
        match self {
            ClassExpression::Class(a0) => ClassExpression::Class(a0.clone()),
            ClassExpression::ObjectIntersectionOf(a0) => {
                ClassExpression::ObjectIntersectionOf(ClassExpression::clone_seq(a0))
            },
            ClassExpression::ObjectUnionOf(a0) => {
                ClassExpression::ObjectUnionOf(ClassExpression::clone_seq(a0))
            },
            ClassExpression::ObjectComplementOf(a0) => {
                ClassExpression::ObjectComplementOf(Box::new(a0.duplicate()))
            },
            ClassExpression::ObjectOneOf(a0) => {
                ClassExpression::ObjectOneOf(Individual::clone_seq(a0))
            },
            ClassExpression::ObjectSomeValuesFrom { ope: a0, bce: a1 } => {
                ClassExpression::ObjectSomeValuesFrom {
                    ope: a0.clone(),
                    bce: Box::new(a1.duplicate()),
                }
            },
            ClassExpression::ObjectAllValuesFrom { ope: a0, bce: a1 } => {
                ClassExpression::ObjectAllValuesFrom {
                    ope: a0.clone(),
                    bce: Box::new(a1.duplicate()),
                }
            },
            ClassExpression::ObjectHasValue { ope: a0, i: a1 } => {
                ClassExpression::ObjectHasValue { ope: a0.clone(), i: a1.clone() }
            },
            ClassExpression::ObjectHasSelf(a0) => ClassExpression::ObjectHasSelf(a0.clone()),
            ClassExpression::ObjectMinCardinality { n: a0, ope: a1, bce: a2 } => {
                ClassExpression::ObjectMinCardinality {
                    n: *a0,
                    ope: a1.clone(),
                    bce: Box::new(a2.duplicate()),
                }
            },
            ClassExpression::ObjectMaxCardinality { n: a0, ope: a1, bce: a2 } => {
                ClassExpression::ObjectMaxCardinality {
                    n: *a0,
                    ope: a1.clone(),
                    bce: Box::new(a2.duplicate()),
                }
            },
            ClassExpression::ObjectExactCardinality { n: a0, ope: a1, bce: a2 } => {
                ClassExpression::ObjectExactCardinality {
                    n: *a0,
                    ope: a1.clone(),
                    bce: Box::new(a2.duplicate()),
                }
            },
            ClassExpression::DataSomeValuesFrom { dp: a0, dr: a1 } => {
                ClassExpression::DataSomeValuesFrom { dp: a0.clone(), dr: a1.clone() }
            },
            ClassExpression::DataAllValuesFrom { dp: a0, dr: a1 } => {
                ClassExpression::DataAllValuesFrom { dp: a0.clone(), dr: a1.clone() }
            },
            ClassExpression::DataHasValue { dp: a0, l: a1 } => {
                ClassExpression::DataHasValue { dp: a0.clone(), l: a1.clone() }
            },
            ClassExpression::DataMinCardinality { n: a0, dp: a1, dr: a2 } => {
                ClassExpression::DataMinCardinality { n: *a0, dp: a1.clone(), dr: a2.clone() }
            },
            ClassExpression::DataMaxCardinality { n: a0, dp: a1, dr: a2 } => {
                ClassExpression::DataMaxCardinality { n: *a0, dp: a1.clone(), dr: a2.clone() }
            },
            ClassExpression::DataExactCardinality { n: a0, dp: a1, dr: a2 } => {
                ClassExpression::DataExactCardinality { n: *a0, dp: a1.clone(), dr: a2.clone() }
            },
        }
    }

    /// Whether the two lists stand for the same values in the same order.
    pub fn same_seq(a: &Vec<ClassExpression>, b: &Vec<ClassExpression>) -> (r: bool)
        ensures
            r == (ClassExpression::seq_view(*a) == ClassExpression::seq_view(*b)),
        decreases a,
    {
        if a.len() != b.len() {
            assert(ClassExpression::seq_view(*a).len() != ClassExpression::seq_view(*b).len());
            return false;
        }
        let mut i: usize = 0;
        while i < a.len()
            invariant
                0 <= i <= a.len(),
                a.len() == b.len(),
                forall|j: int| 0 <= j < i ==> a@[j]@ == b@[j]@,
            decreases a.len() - i,
        {
            if !a[i].same(&b[i]) {
                assert(ClassExpression::seq_view(*a)[i as int] == a@[i as int]@);
                assert(ClassExpression::seq_view(*b)[i as int] == b@[i as int]@);
                return false;
            }
            i += 1;
        }
        assert(ClassExpression::seq_view(*a) =~= ClassExpression::seq_view(*b));
        true
    }

    /// A copy of the list that stands for the same values.
    pub fn clone_seq(a: &Vec<ClassExpression>) -> (r: Vec<ClassExpression>)
        ensures
            ClassExpression::seq_view(r) == ClassExpression::seq_view(*a),
        decreases a,
    {
        let mut out: Vec<ClassExpression> = Vec::new();
        let mut i: usize = 0;
        while i < a.len()
            invariant
                0 <= i <= a.len(),
                out.len() == i,
                forall|j: int| 0 <= j < i ==> out@[j]@ == a@[j]@,
            decreases a.len() - i,
        {
            out.push(a[i].duplicate());
            i += 1;
        }
        assert(ClassExpression::seq_view(out) =~= ClassExpression::seq_view(*a));
        out
    }
}

impl Clone for ClassExpression {
    fn clone(&self) -> (r: Self)
        ensures
            r@ == self@,
    {
        self.duplicate()
    }
}

} // verus!
