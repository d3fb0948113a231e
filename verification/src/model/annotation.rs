//! Annotations and sets of them.

use vstd::prelude::*;
use vstd::std_specs::cmp::PartialEqSpecImpl;
use crate::model::entity::AnnotationProperty;
use crate::model::entity::AnonymousIndividual;
use crate::model::expression::Literal;
use crate::model::expression::LiteralView;
use crate::model::iri::IRI;

verus! {

/// What an annotation says of its subject.
#[derive(Debug, PartialEq, Eq, Hash)]
pub enum AnnotationValue {
    Literal(Literal),
    IRI(IRI),
    AnonymousIndividual(AnonymousIndividual),
}

/// The value that an `AnnotationValue` stands for.
pub enum AnnotationValueView {
    Literal(LiteralView),
    IRI(Seq<char>),
    AnonymousIndividual(Seq<char>),
}

impl View for AnnotationValue {
    type V = AnnotationValueView;

    open spec fn view(&self) -> AnnotationValueView {
        match *self {
            AnnotationValue::Literal(x0) => AnnotationValueView::Literal(x0@),
            AnnotationValue::IRI(x0) => AnnotationValueView::IRI(x0@),
            AnnotationValue::AnonymousIndividual(x0) => {
                AnnotationValueView::AnonymousIndividual(x0@)
            },
        }
    }
}

impl AnnotationValue {
    /// Whether the two stand for the same value.
    pub fn same(&self, other: &AnnotationValue) -> (r: bool)
        ensures
            r == (self@ == other@),
    {
        match (self, other) {
            (AnnotationValue::Literal(a0), AnnotationValue::Literal(b0)) => a0.same(b0),
            (AnnotationValue::IRI(a0), AnnotationValue::IRI(b0)) => a0.same(b0),
            (
                AnnotationValue::AnonymousIndividual(a0),
                AnnotationValue::AnonymousIndividual(b0),
            ) => a0.same(b0),
            _ => false,
        }
    }
}

impl Clone for AnnotationValue {
    fn clone(&self) -> (r: Self)
        ensures
            r@ == self@,
    {
        match self {
            AnnotationValue::Literal(a0) => AnnotationValue::Literal(a0.clone()),
            AnnotationValue::IRI(a0) => AnnotationValue::IRI(a0.clone()),
            AnnotationValue::AnonymousIndividual(a0) => {
                AnnotationValue::AnonymousIndividual(a0.clone())
            },
        }
    }
}

/// What an annotation assertion is about.
#[derive(Debug, PartialEq, Eq, Hash)]
pub enum AnnotationSubject {
    IRI(IRI),
    AnonymousIndividual(AnonymousIndividual),
}

/// The value that an `AnnotationSubject` stands for.
pub enum AnnotationSubjectView {
    IRI(Seq<char>),
    AnonymousIndividual(Seq<char>),
}

impl View for AnnotationSubject {
    type V = AnnotationSubjectView;

    open spec fn view(&self) -> AnnotationSubjectView {
        match *self {
            AnnotationSubject::IRI(x0) => AnnotationSubjectView::IRI(x0@),
            AnnotationSubject::AnonymousIndividual(x0) => {
                AnnotationSubjectView::AnonymousIndividual(x0@)
            },
        }
    }
}

impl AnnotationSubject {
    /// Whether the two stand for the same value.
    pub fn same(&self, other: &AnnotationSubject) -> (r: bool)
        ensures
            r == (self@ == other@),
    {
        match (self, other) {
            (AnnotationSubject::IRI(a0), AnnotationSubject::IRI(b0)) => a0.same(b0),
            (
                AnnotationSubject::AnonymousIndividual(a0),
                AnnotationSubject::AnonymousIndividual(b0),
            ) => a0.same(b0),
            _ => false,
        }
    }
}

impl Clone for AnnotationSubject {
    fn clone(&self) -> (r: Self)
        ensures
            r@ == self@,
    {
        match self {
            AnnotationSubject::IRI(a0) => AnnotationSubject::IRI(a0.clone()),
            AnnotationSubject::AnonymousIndividual(a0) => {
                AnnotationSubject::AnonymousIndividual(a0.clone())
            },
        }
    }
}

/// A property and the value it gives. Annotations carry no logical meaning.
#[derive(Debug, PartialEq, Eq, Hash)]
pub struct Annotation {
    pub ap: AnnotationProperty,
    pub av: AnnotationValue,
}

/// The value that an `Annotation` stands for.
pub struct AnnotationView {
    pub ap: Seq<char>,
    pub av: AnnotationValueView,
}

impl View for Annotation {
    type V = AnnotationView;

    open spec fn view(&self) -> AnnotationView {
        match *self {
            Annotation { ap: x0, av: x1 } => AnnotationView { ap: x0@, av: x1@ },
        }
    }
}

impl Annotation {
    /// The values that the items of `v` stand for, in order.
    pub open spec fn seq_view(v: Vec<Annotation>) -> Seq<AnnotationView> {
        Seq::new(v@.len(), |i: int| v@[i]@)
    }

    /// Whether the two stand for the same value.
    pub fn same(&self, other: &Annotation) -> (r: bool)
        ensures
            r == (self@ == other@),
    {
        self.ap.same(&other.ap) && self.av.same(&other.av)
    }

    /// Whether the two lists stand for the same values in the same order.
    pub fn same_seq(a: &Vec<Annotation>, b: &Vec<Annotation>) -> (r: bool)
        ensures
            r == (Annotation::seq_view(*a) == Annotation::seq_view(*b)),
    {
        if a.len() != b.len() {
            assert(Annotation::seq_view(*a).len() != Annotation::seq_view(*b).len());
            return false;
        }
        let mut i: usize = 0;
        while i < a.len()
            invariant
                0 <= i <= a.len(),
                a.len() == b.len(),
                forall|j: int| 0 <= j < i ==> a@[j]@ == b@[j]@,
            decreases a.len() - i,
        {
            if !a[i].same(&b[i]) {
                assert(Annotation::seq_view(*a)[i as int] == a@[i as int]@);
                assert(Annotation::seq_view(*b)[i as int] == b@[i as int]@);
                return false;
            }
            i += 1;
        }
        assert(Annotation::seq_view(*a) =~= Annotation::seq_view(*b));
        true
    }

    /// A copy of the list that stands for the same values.
    pub fn clone_seq(a: &Vec<Annotation>) -> (r: Vec<Annotation>)
        ensures
            Annotation::seq_view(r) == Annotation::seq_view(*a),
    {
        let mut out: Vec<Annotation> = Vec::new();
        let mut i: usize = 0;
        while i < a.len()
            invariant
                0 <= i <= a.len(),
                out.len() == i,
                forall|j: int| 0 <= j < i ==> out@[j]@ == a@[j]@,
            decreases a.len() - i,
        {
            out.push(a[i].clone());
            i += 1;
        }
        assert(Annotation::seq_view(out) =~= Annotation::seq_view(*a));
        out
    }
}

impl Clone for Annotation {
    fn clone(&self) -> (r: Self)
        ensures
            r@ == self@,
    {
        Annotation { ap: self.ap.clone(), av: self.av.clone() }
    }
}

/// A set of annotations that remembers the order in which they came.
///
/// No two items stand for the same annotation.
#[derive(Debug)]
pub struct AnnotationSet {
    items: Vec<Annotation>,
}

impl View for AnnotationSet {
    type V = Set<AnnotationView>;

    /// The annotations in the set.
    closed spec fn view(&self) -> Set<AnnotationView> {
        Annotation::seq_view(self.items).to_set()
    }
}

/// `base` followed by the items of `more` that it does not hold yet, each
/// once, in the order of `more`.
pub open spec fn joined(base: Seq<AnnotationView>, more: Seq<AnnotationView>) -> Seq<
    AnnotationView,
>
    decreases more.len(),
{
    if more.len() == 0 {
        base
    } else {
        let before = joined(base, more.drop_last());
        if before.contains(more.last()) {
            before
        } else {
            before.push(more.last())
        }
    }
}

/// What a sequence lists is in the set of its items.
proof fn lemma_listed(s: Seq<AnnotationView>, i: int)
    requires
        0 <= i < s.len(),
    ensures
        s.to_set().contains(s[i]),
{
    assert(s.contains(s[i]));
}

/// What a sequence does not list is not in the set of its items.
proof fn lemma_unlisted(s: Seq<AnnotationView>, v: AnnotationView)
    requires
        forall|j: int| 0 <= j < s.len() ==> s[j] != v,
    ensures
        !s.to_set().contains(v),
{
    if s.contains(v) {
        let j = choose|j: int| 0 <= j < s.len() && s[j] == v;
        assert(s[j] == v);
    }
}

impl AnnotationSet {
    #[verifier::type_invariant]
    spec fn distinct(&self) -> bool {
        Annotation::seq_view(self.items).no_duplicates()
    }

    /// The annotations in the set, in the order in which they came.
    pub closed spec fn order(&self) -> Seq<AnnotationView> {
        Annotation::seq_view(self.items)
    }

    /// The set holds what its order lists, and is finite.
    pub proof fn lemma_order(&self)
        ensures
            self@ == self.order().to_set(),
            self@.finite(),
            self@.len() <= self.order().len(),
    {
        self.order().lemma_cardinality_of_set();
    }

    /// The empty set.
    pub fn new() -> (r: AnnotationSet)
        ensures
            r@ == Set::<AnnotationView>::empty(),
            r.order() == Seq::<AnnotationView>::empty(),
    {
        let r = AnnotationSet { items: Vec::new() };
        assert(r.order() =~= Seq::<AnnotationView>::empty());
        assert(r@ =~= Set::<AnnotationView>::empty());
        r
    }

    /// The set of the annotations that `items` lists, in their order; what
    /// comes a second time is left out.
    pub fn from_vec(items: Vec<Annotation>) -> (r: AnnotationSet)
        ensures
            r@ == Annotation::seq_view(items).to_set(),
            r.order() == joined(Seq::empty(), Annotation::seq_view(items)),
    {
        let mut r = AnnotationSet::new();
        let ghost all = Annotation::seq_view(items);
        let mut i: usize = 0;
        proof {
            assert(all.take(0).to_set() =~= Set::<AnnotationView>::empty());
            assert(all.take(0) =~= Seq::<AnnotationView>::empty());
        }
        while i < items.len()
            invariant
                0 <= i <= items.len(),
                all == Annotation::seq_view(items),
                r@ == all.take(i as int).to_set(),
                r.order() == joined(Seq::empty(), all.take(i as int)),
            decreases items.len() - i,
        {
            let a = items[i].clone();
            proof {
                assert(all.take(i + 1) =~= all.take(i as int).push(a@));
                assert(all.take(i + 1).drop_last() =~= all.take(i as int));
                all.take(i as int).lemma_push_to_set_commute(a@);
            }
            r.insert(a);
            i += 1;
        }
        assert(all.take(all.len() as int) =~= all);
        r
    }

    /// The number of annotations in the set.
    pub fn len(&self) -> (r: usize)
        ensures
            r == self@.len(),
            r == self.order().len(),
    {
        proof {
            use_type_invariant(self);
            self.order().unique_seq_to_set();
        }
        self.items.len()
    }

    /// Whether the set is empty.
    pub fn is_empty(&self) -> (r: bool)
        ensures
            r == (self@ == Set::<AnnotationView>::empty()),
    {
        proof {
            if self.order().len() == 0 {
                assert(self@ =~= Set::<AnnotationView>::empty());
            } else {
                lemma_listed(self.order(), 0);
            }
        }
        self.items.len() == 0
    }

    /// The annotation at position `i` of the order.
    pub fn get(&self, i: usize) -> (r: &Annotation)
        requires
            i < self.order().len(),
        ensures
            r@ == self.order()[i as int],
            self@.contains(r@),
    {
        proof {
            lemma_listed(self.order(), i as int);
        }
        &self.items[i]
    }

    /// Whether the set holds an annotation that stands for what `a` stands for.
    pub fn contains(&self, a: &Annotation) -> (r: bool)
        ensures
            r == self@.contains(a@),
    {
        let mut i: usize = 0;
        while i < self.items.len()
            invariant
                0 <= i <= self.items.len(),
                forall|j: int| 0 <= j < i ==> self.order()[j] != a@,
            decreases self.items.len() - i,
        {
            if self.items[i].same(a) {
                proof {
                    lemma_listed(self.order(), i as int);
                }
                return true;
            }
            i += 1;
        }
        proof {
            lemma_unlisted(self.order(), a@);
        }
        false
    }

    /// Adds `a` unless the set holds it already; tells whether it was added.
    pub fn insert(&mut self, a: Annotation) -> (added: bool)
        ensures
            final(self)@ == old(self)@.insert(a@),
            added == !old(self)@.contains(a@),
            final(self).order() == if added {
                old(self).order().push(a@)
            } else {
                old(self).order()
            },
    {
        if self.contains(&a) {
            assert(self@ =~= old(self)@.insert(a@));
            false
        } else {
            proof {
                use_type_invariant(&*self);
            }
            let mut items: Vec<Annotation> = Vec::new();
            std::mem::swap(&mut self.items, &mut items);
            items.push(a);
            proof {
                assert(Annotation::seq_view(items) =~= old(self).order().push(a@));
                old(self).order().lemma_push_to_set_commute(a@);
                assert forall|i: int, j: int|
                    0 <= i < j < old(self).order().len() + 1 implies old(self).order().push(a@)[i]
                    != old(self).order().push(a@)[j] by {
                    if j == old(self).order().len() {
                        lemma_listed(old(self).order(), i);
                    }
                }
            }
            std::mem::swap(&mut self.items, &mut items);
            true
        }
    }

    /// Adds every annotation of `other` that the set does not hold yet, in
    /// the order of `other`.
    pub fn absorb(&mut self, other: &AnnotationSet)
        ensures
            final(self)@ == old(self)@.union(other@),
            final(self).order() == joined(old(self).order(), other.order()),
    {
        let mut i: usize = 0;
        proof {
            assert(other.order().take(0).to_set() =~= Set::<AnnotationView>::empty());
            assert(other.order().take(0) =~= Seq::<AnnotationView>::empty());
            assert(self@ =~= old(self)@.union(other.order().take(0).to_set()));
        }
        while i < other.items.len()
            invariant
                0 <= i <= other.items.len(),
                self@ == old(self)@.union(other.order().take(i as int).to_set()),
                self.order() == joined(old(self).order(), other.order().take(i as int)),
            decreases other.items.len() - i,
        {
            let a = other.items[i].clone();
            proof {
                assert(other.order().take(i + 1) =~= other.order().take(i as int).push(a@));
                assert(other.order().take(i + 1).drop_last() =~= other.order().take(i as int));
                other.order().take(i as int).lemma_push_to_set_commute(a@);
                assert(old(self)@.union(other.order().take(i as int).to_set()).insert(a@)
                    =~= old(self)@.union(other.order().take(i as int).to_set().insert(a@)));
            }
            self.insert(a);
            i += 1;
        }
        assert(other.order().take(other.order().len() as int) =~= other.order());
    }

    /// Whether the two sets hold the same annotations, in whatever order.
    pub fn same(&self, other: &AnnotationSet) -> (r: bool)
        ensures
            r == (self@ == other@),
    {
        if self.len() != other.len() {
            return false;
        }
        let mut i: usize = 0;
        while i < self.items.len()
            invariant
                0 <= i <= self.items.len(),
                self@.len() == other@.len(),
                forall|j: int| 0 <= j < i ==> other@.contains(self.order()[j]),
            decreases self.items.len() - i,
        {
            if !other.contains(&self.items[i]) {
                proof {
                    lemma_listed(self.order(), i as int);
                }
                return false;
            }
            i += 1;
        }
        proof {
            self.lemma_order();
            other.lemma_order();
            assert(self@.subset_of(other@)) by {
                assert forall|v: AnnotationView| self@.contains(v) implies other@.contains(v) by {
                    assert(self.order().contains(v));
                    let j = choose|j: int| 0 <= j < self.order().len() && self.order()[j] == v;
                    assert(other@.contains(self.order()[j]));
                }
            }
            vstd::set_lib::lemma_subset_equality(self@, other@);
        }
        true
    }

    /// A copy of the set, in the same order.
    pub fn duplicate(&self) -> (r: AnnotationSet)
        ensures
            r@ == self@,
            r.order() == self.order(),
    {
        proof {
            use_type_invariant(self);
        }
        let items = Annotation::clone_seq(&self.items);
        AnnotationSet { items }
    }
}

impl Clone for AnnotationSet {
    fn clone(&self) -> (r: Self)
        ensures
            r@ == self@,
    {
        self.duplicate()
    }
}

impl PartialEq for AnnotationSet {
    fn eq(&self, other: &Self) -> (r: bool) {
        self.same(other)
    }
}

impl PartialEqSpecImpl for AnnotationSet {
    open spec fn obeys_eq_spec() -> bool {
        true
    }

    open spec fn eq_spec(&self, other: &Self) -> bool {
        self@ == other@
    }
}

impl Eq for AnnotationSet {

}

} // verus!
