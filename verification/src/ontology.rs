//! The ontology: its components, kept by kind and, within a kind, in the
//! order in which they came.

use vstd::multiset::Multiset;
use vstd::prelude::*;
use vstd::std_specs::cmp::PartialEqSpecImpl;
use crate::model::annotation::AnnotationSet;
use crate::model::component::AnnotatedComponent;
use crate::model::component::AnnotatedComponentView;
use crate::model::component::AxiomKind;
use crate::model::component::Component;
use crate::model::component::ComponentView;
use crate::model::component::SubClass;
use crate::model::component::SubClassView;
use crate::model::component::KIND_COUNT;
use crate::model::entity::Class;
use crate::model::entity::NamedEntity;
use crate::model::entity::ObjectProperty;
use crate::model::expression::ClassExpression;
use crate::model::expression::ClassExpressionView;
use crate::model::iri::IRIBuild;
use crate::model::iri::IRI;

verus! {

/// What an ontology stands for: for every kind, the components of that kind
/// in the order in which they came.
pub type OntologyView = Map<AxiomKind, Seq<AnnotatedComponentView>>;

/// The ontology without components.
pub open spec fn empty_ontology() -> OntologyView {
    Map::new(|k: AxiomKind| true, |k: AxiomKind| Seq::<AnnotatedComponentView>::empty())
}

/// The ontology `o` with `a` added after the components of its kind.
pub open spec fn inserted(o: OntologyView, a: AnnotatedComponentView) -> OntologyView {
    o.insert(a.kind(), o[a.kind()].push(a))
}

/// The ontology that holds the components of `s`, added in that order.
pub open spec fn collected(s: Seq<AnnotatedComponentView>) -> OntologyView
    decreases s.len(),
{
    if s.len() == 0 {
        empty_ontology()
    } else {
        inserted(collected(s.drop_last()), s.last())
    }
}

/// The position of the first item of `s` that is `a`, annotations included;
/// the length of `s` where there is none.
pub open spec fn first_exact(s: Seq<AnnotatedComponentView>, a: AnnotatedComponentView) -> int
    decreases s.len(),
{
    if s.len() == 0 {
        0
    } else if s[0] == a {
        0
    } else {
        1 + first_exact(s.drop_first(), a)
    }
}

/// The position of the first item of `s` whose component is `c`, whatever
/// its annotations; the length of `s` where there is none.
pub open spec fn first_logical(s: Seq<AnnotatedComponentView>, c: ComponentView) -> int
    decreases s.len(),
{
    if s.len() == 0 {
        0
    } else if s[0].component == c {
        0
    } else {
        1 + first_logical(s.drop_first(), c)
    }
}

/// The first exact match is a position of `s` or its length; it holds `a`,
/// and nothing before it does.
pub proof fn lemma_first_exact(s: Seq<AnnotatedComponentView>, a: AnnotatedComponentView)
    ensures
        0 <= first_exact(s, a) <= s.len(),
        first_exact(s, a) < s.len() ==> s[first_exact(s, a)] == a,
        forall|j: int| 0 <= j < first_exact(s, a) ==> s[j] != a,
    decreases s.len(),
{
    if s.len() > 0 && s[0] != a {
        lemma_first_exact(s.drop_first(), a);
        assert forall|j: int| 0 <= j < first_exact(s, a) implies s[j] != a by {
            if j > 0 {
                assert(s.drop_first()[j - 1] == s[j]);
            }
        }
    }
}

/// The first logical match is a position of `s` or its length; the component
/// there is `c`, and no component before it is.
pub proof fn lemma_first_logical(s: Seq<AnnotatedComponentView>, c: ComponentView)
    ensures
        0 <= first_logical(s, c) <= s.len(),
        first_logical(s, c) < s.len() ==> s[first_logical(s, c)].component == c,
        forall|j: int| 0 <= j < first_logical(s, c) ==> s[j].component != c,
    decreases s.len(),
{
    if s.len() > 0 && s[0].component != c {
        lemma_first_logical(s.drop_first(), c);
        assert forall|j: int| 0 <= j < first_logical(s, c) implies s[j].component != c by {
            if j > 0 {
                assert(s.drop_first()[j - 1] == s[j]);
            }
        }
    }
}

/// A position that holds `a` with nothing before it holding `a` is the first
/// exact match.
pub proof fn lemma_first_exact_is(s: Seq<AnnotatedComponentView>, a: AnnotatedComponentView, i: int)
    requires
        0 <= i <= s.len(),
        i < s.len() ==> s[i] == a,
        forall|j: int| 0 <= j < i ==> s[j] != a,
    ensures
        first_exact(s, a) == i,
{
    lemma_first_exact(s, a);
}

/// A position whose component is `c` with no component before it being `c`
/// is the first logical match.
pub proof fn lemma_first_logical_is(s: Seq<AnnotatedComponentView>, c: ComponentView, i: int)
    requires
        0 <= i <= s.len(),
        i < s.len() ==> s[i].component == c,
        forall|j: int| 0 <= j < i ==> s[j].component != c,
    ensures
        first_logical(s, c) == i,
{
    lemma_first_logical(s, c);
}

/// Whether `o` holds the component `c`, whatever its annotations.
pub open spec fn holds(o: OntologyView, c: ComponentView) -> bool {
    first_logical(o[c.kind()], c) < o[c.kind()].len()
}

/// The ontology `o` if it holds `c`, whatever its annotations; else `o` with
/// `c` added without annotations.
pub open spec fn ensured(o: OntologyView, c: ComponentView) -> OntologyView {
    if holds(o, c) {
        o
    } else {
        inserted(o, AnnotatedComponentView { component: c, ann: Set::empty() })
    }
}

/// The subclasses that the subclass statements of `s` give to `sup`, in the
/// order of `s`.
pub open spec fn direct_subclasses(
    s: Seq<AnnotatedComponentView>,
    sup: ClassExpressionView,
) -> Seq<ClassExpressionView>
    decreases s.len(),
{
    if s.len() == 0 {
        Seq::empty()
    } else {
        let before = direct_subclasses(s.drop_last(), sup);
        match s.last().component {
            ComponentView::SubClassOf(sc) => if sc.superclass == sup {
                before.push(sc.subclass)
            } else {
                before
            },
            _ => before,
        }
    }
}

/// The ontology `o` without the first component that is `a`, annotations
/// included; `o` itself where it holds none.
pub open spec fn taken(o: OntologyView, a: AnnotatedComponentView) -> OntologyView {
    let s = o[a.kind()];
    let i = first_exact(s, a);
    if i < s.len() {
        o.insert(a.kind(), s.remove(i))
    } else {
        o
    }
}

/// The components of the first `n` kinds of `o`, kind after kind.
pub open spec fn flattened(o: OntologyView, n: int) -> Seq<AnnotatedComponentView>
    decreases n,
{
    if n <= 0 {
        Seq::empty()
    } else {
        flattened(o, n - 1) + o[AxiomKind::at(n - 1)]
    }
}

/// The components of `o`, kind after kind in the fixed order of kinds and,
/// within a kind, in the order in which they came.
pub open spec fn all_components(o: OntologyView) -> Seq<AnnotatedComponentView> {
    flattened(o, KIND_COUNT as int)
}

/// The components at position `k` of a list of lists, none where the list
/// ends before `k`.
pub open spec fn bucket_view(buckets: Seq<Vec<AnnotatedComponent>>, k: int) -> Seq<
    AnnotatedComponentView,
> {
    if 0 <= k < buckets.len() {
        AnnotatedComponent::seq_view(buckets[k])
    } else {
        Seq::empty()
    }
}

/// Whether every component of a list of lists stands in the list at the
/// position of its kind.
pub open spec fn sorted_by_kind(buckets: Seq<Vec<AnnotatedComponent>>) -> bool {
    &&& buckets.len() <= KIND_COUNT
    &&& forall|k: int, j: int|
        0 <= k < buckets.len() && 0 <= j < buckets[k]@.len() ==> (#[trigger] buckets[k]@[j])@.kind(
        ).spec_index() == k
}

/// Adds `a` to the list at position `k`, which is made if it is not there.
fn push_into(buckets: &mut Vec<Vec<AnnotatedComponent>>, k: usize, a: AnnotatedComponent)
    requires
        sorted_by_kind(old(buckets)@),
        k < KIND_COUNT,
        a@.kind().spec_index() == k,
    ensures
        sorted_by_kind(final(buckets)@),
        bucket_view(final(buckets)@, k as int) == bucket_view(old(buckets)@, k as int).push(a@),
        forall|p: int| p != k ==> bucket_view(final(buckets)@, p) == bucket_view(old(buckets)@, p),
{
    while buckets.len() <= k
        invariant
            sorted_by_kind(buckets@),
            k < KIND_COUNT,
            forall|p: int| #[trigger] bucket_view(buckets@, p) == bucket_view(old(buckets)@, p),
        decreases k + 1 - buckets.len(),
    {
        let ghost before = buckets@;
        buckets.push(Vec::new());
        proof {
            assert forall|p: int| #[trigger] bucket_view(buckets@, p) == bucket_view(before, p) by {
                if 0 <= p < before.len() {
                    assert(buckets@[p] == before[p]);
                } else if p == before.len() {
                    assert(AnnotatedComponent::seq_view(buckets@[p]) =~= Seq::<
                        AnnotatedComponentView,
                    >::empty());
                }
            }
            assert forall|p: int, j: int|
                0 <= p < buckets@.len() && 0 <= j < buckets@[p]@.len() implies (
                #[trigger] buckets@[p]@[j])@.kind().spec_index() == p by {
                assert(buckets@[p] == before[p]);
            }
        }
    }
    let ghost start = buckets@;
    let mut bucket = buckets.remove(k);
    let ghost items = bucket@;
    bucket.push(a);
    buckets.insert(k, bucket);
    proof {
        assert(buckets@.len() == start.len());
        assert(bucket_view(buckets@, k as int) =~= bucket_view(start, k as int).push(a@));
        assert forall|p: int| p != k implies bucket_view(buckets@, p) == bucket_view(
            old(buckets)@,
            p,
        ) by {
            if 0 <= p < start.len() {
                assert(buckets@[p] == start[p]);
            }
            assert(bucket_view(start, p) == bucket_view(old(buckets)@, p));
        }
        assert forall|p: int, j: int|
            0 <= p < buckets@.len() && 0 <= j < buckets@[p]@.len() implies (
            #[trigger] buckets@[p]@[j])@.kind().spec_index() == p by {
            if p == k {
                if j < items.len() {
                    assert(buckets@[p]@[j] == start[p]@[j]);
                }
            } else {
                assert(buckets@[p] == start[p]);
            }
        }
    }
}

/// Removes the component at position `i` of the list at position `k`.
fn remove_from(buckets: &mut Vec<Vec<AnnotatedComponent>>, k: usize, i: usize) -> (r:
    AnnotatedComponent)
    requires
        sorted_by_kind(old(buckets)@),
        i < bucket_view(old(buckets)@, k as int).len(),
    ensures
        sorted_by_kind(final(buckets)@),
        r@ == bucket_view(old(buckets)@, k as int)[i as int],
        bucket_view(final(buckets)@, k as int) == bucket_view(old(buckets)@, k as int).remove(
            i as int,
        ),
        forall|p: int| p != k ==> bucket_view(final(buckets)@, p) == bucket_view(old(buckets)@, p),
{
    let ghost start = buckets@;
    let mut bucket = buckets.remove(k);
    let ghost items = bucket@;
    let r = bucket.remove(i);
    buckets.insert(k, bucket);
    proof {
        assert(buckets@.len() == start.len());
        assert(bucket_view(buckets@, k as int) =~= bucket_view(start, k as int).remove(i as int));
        assert forall|p: int| p != k implies bucket_view(buckets@, p) == bucket_view(start, p) by {
            if 0 <= p < start.len() {
                assert(buckets@[p] == start[p]);
            }
        }
        assert forall|p: int, j: int|
            0 <= p < buckets@.len() && 0 <= j < buckets@[p]@.len() implies (
            #[trigger] buckets@[p]@[j])@.kind().spec_index() == p by {
            if p == k {
                if j < i {
                    assert(buckets@[p]@[j] == items[j]);
                } else {
                    assert(buckets@[p]@[j] == items[j + 1]);
                }
                assert(start[p]@ == items);
            } else {
                assert(buckets@[p] == start[p]);
            }
        }
    }
    r
}

/// Whether two ontologies hold the same components with the same
/// annotations, each as often as the other, in whatever order.
pub open spec fn same_components(a: OntologyView, b: OntologyView) -> bool {
    forall|k: AxiomKind| (#[trigger] a[k]).to_multiset() == b[k].to_multiset()
}

/// Two bags of one size, of which the first holds nothing more often than
/// the second, are one bag.
pub proof fn lemma_bags_of_one_size<V>(a: Multiset<V>, b: Multiset<V>)
    requires
        a.len() == b.len(),
        forall|v: V| a.count(v) <= b.count(v),
    ensures
        a == b,
{
    broadcast use vstd::multiset::group_multiset_axioms;

    let d = b.sub(a);
    assert(d.len() == 0);
    assert(d =~= Multiset::<V>::empty());
    assert forall|v: V| a.count(v) == b.count(v) by {
        assert(d.count(v) == 0);
    }
    assert(a =~= b);
}

/// The number of items of `s` that stand for what `v` stands for.
fn occurrences(s: &Vec<AnnotatedComponent>, v: &AnnotatedComponent) -> (r: usize)
    ensures
        r == AnnotatedComponent::seq_view(*s).to_multiset().count(v@),
{
    broadcast use vstd::seq_lib::group_to_multiset_ensures;
    broadcast use vstd::multiset::group_multiset_axioms;

    let ghost all = AnnotatedComponent::seq_view(*s);
    let mut n: usize = 0;
    let mut i: usize = 0;
    proof {
        assert(all.take(0) =~= Seq::<AnnotatedComponentView>::empty());
    }
    while i < s.len()
        invariant
            0 <= i <= s.len(),
            all == AnnotatedComponent::seq_view(*s),
            n == all.take(i as int).to_multiset().count(v@),
            n <= i,
        decreases s.len() - i,
    {
        proof {
            let before = all.take(i as int);
            let x = all[i as int];
            assert(all.take(i + 1) =~= before.push(x));
            assert(x == s@[i as int]@);
            vstd::seq_lib::to_multiset_build(before, x);
            vstd::multiset::lemma_insert_increases_count_by_1(before.to_multiset(), x);
            if x != v@ {
                vstd::multiset::lemma_insert_other_elements_unchanged(before.to_multiset(), x, v@);
            }
        }
        if s[i].same(v) {
            n += 1;
        }
        i += 1;
    }
    assert(all.take(s@.len() as int) =~= all);
    n
}

/// Whether the two lists hold the same items, each as often as the other.
fn same_bag(a: &Vec<AnnotatedComponent>, b: &Vec<AnnotatedComponent>) -> (r: bool)
    ensures
        r == (AnnotatedComponent::seq_view(*a).to_multiset() == AnnotatedComponent::seq_view(
            *b,
        ).to_multiset()),
{
    broadcast use vstd::seq_lib::group_to_multiset_ensures;

    let ghost ma = AnnotatedComponent::seq_view(*a).to_multiset();
    let ghost mb = AnnotatedComponent::seq_view(*b).to_multiset();
    if a.len() != b.len() {
        assert(ma.len() != mb.len());
        return false;
    }
    let mut i: usize = 0;
    while i < a.len()
        invariant
            0 <= i <= a.len(),
            ma == AnnotatedComponent::seq_view(*a).to_multiset(),
            mb == AnnotatedComponent::seq_view(*b).to_multiset(),
            forall|j: int| 0 <= j < i ==> ma.count(a@[j]@) == mb.count(a@[j]@),
        decreases a.len() - i,
    {
        if occurrences(a, &a[i]) != occurrences(b, &a[i]) {
            return false;
        }
        i += 1;
    }
    proof {
        let sa = AnnotatedComponent::seq_view(*a);
        assert forall|v: AnnotatedComponentView| ma.count(v) <= mb.count(v) by {
            if ma.count(v) > 0 {
                assert(sa.contains(v));
                let j = choose|j: int| 0 <= j < sa.len() && sa[j] == v;
                assert(sa[j] == a@[j]@);
            }
        }
        lemma_bags_of_one_size(ma, mb);
    }
    true
}

/// An ontology, with the store for the IRIs that its users make through it.
pub struct Ontology {
    iri_build: IRIBuild,
    by_kind: Vec<Vec<AnnotatedComponent>>,
}

impl View for Ontology {
    type V = OntologyView;

    closed spec fn view(&self) -> OntologyView {
        Map::new(|k: AxiomKind| true, |k: AxiomKind| bucket_view(self.by_kind@, k.spec_index()))
    }
}

impl Ontology {
    #[verifier::type_invariant]
    spec fn well_sorted(&self) -> bool {
        sorted_by_kind(self.by_kind@)
    }

    /// An ontology without components, with `iri_build` as its store.
    pub fn new_with_build(iri_build: IRIBuild) -> (r: Ontology)
        ensures
            r@ == empty_ontology(),
            r.store() == iri_build@,
    {
        let r = Ontology { iri_build, by_kind: Vec::new() };
        assert(r@ =~= empty_ontology());
        r
    }

    /// An ontology without components, with a store of its own.
    pub fn new() -> (r: Ontology)
        ensures
            r@ == empty_ontology(),
            r.store() == Set::<Seq<char>>::empty(),
    {
        Ontology::new_with_build(IRIBuild::new())
    }

    /// The strings that the store of the ontology has interned.
    pub closed spec fn store(&self) -> Set<Seq<char>> {
        self.iri_build@
    }

    /// The IRI whose string is `s`, interned in the store of the ontology.
    pub fn iri(&mut self, s: &str) -> (r: IRI)
        ensures
            r@ == s@,
            final(self)@ == old(self)@,
            final(self).store() == old(self).store().insert(s@),
    {
        proof {
            use_type_invariant(&*self);
        }
        let mut build = IRIBuild::new();
        std::mem::swap(&mut self.iri_build, &mut build);
        let r = build.iri(s);
        std::mem::swap(&mut self.iri_build, &mut build);
        assert(self@ =~= old(self)@);
        r
    }

    /// Adds `a` after the components of its kind.
    pub fn insert(&mut self, a: AnnotatedComponent)
        ensures
            final(self)@ == inserted(old(self)@, a@),
            final(self).store() == old(self).store(),
    {
        proof {
            use_type_invariant(&*self);
        }
        let kind = a.kind();
        let k = kind.index();
        let mut by_kind: Vec<Vec<AnnotatedComponent>> = Vec::new();
        std::mem::swap(&mut self.by_kind, &mut by_kind);
        push_into(&mut by_kind, k, a);
        std::mem::swap(&mut self.by_kind, &mut by_kind);
        proof {
            assert(self@ =~= inserted(old(self)@, a@)) by {
                assert forall|q: AxiomKind| #[trigger] self@[q] == inserted(old(self)@, a@)[q] by {
                    q.lemma_index();
                    kind.lemma_index();
                }
            }
        }
    }

    /// The number of components of the given kind.
    pub fn count(&self, kind: AxiomKind) -> (r: usize)
        ensures
            r == self@[kind].len(),
    {
        let k = kind.index();
        if k < self.by_kind.len() {
            self.by_kind[k].len()
        } else {
            0
        }
    }

    /// The component at position `i` of the given kind.
    pub fn get(&self, kind: AxiomKind, i: usize) -> (r: &AnnotatedComponent)
        requires
            i < self@[kind].len(),
        ensures
            r@ == self@[kind][i as int],
    {
        let k = kind.index();
        &self.by_kind[k][i]
    }

    /// The components of the given kind, in the order in which they came.
    pub fn annotated_axiom(&self, kind: AxiomKind) -> (r: Vec<&AnnotatedComponent>)
        ensures
            r@.len() == self@[kind].len(),
            forall|j: int| 0 <= j < r@.len() ==> (#[trigger] r@[j])@ == self@[kind][j],
    {
        let mut out: Vec<&AnnotatedComponent> = Vec::new();
        let n = self.count(kind);
        let mut i: usize = 0;
        while i < n
            invariant
                0 <= i <= n,
                n == self@[kind].len(),
                out@.len() == i,
                forall|j: int| 0 <= j < i ==> (#[trigger] out@[j])@ == self@[kind][j],
            decreases n - i,
        {
            out.push(self.get(kind, i));
            i += 1;
        }
        out
    }

    /// Removes the first component that stands for what `a` stands for,
    /// annotations included, and hands it out.
    pub fn take(&mut self, a: &AnnotatedComponent) -> (r: Option<AnnotatedComponent>)
        ensures
            final(self)@ == taken(old(self)@, a@),
            final(self).store() == old(self).store(),
            match r {
                Some(t) => t@ == a@ && first_exact(old(self)@[a@.kind()], a@) < old(self)@[a@.kind(
                )].len(),
                None => first_exact(old(self)@[a@.kind()], a@) == old(self)@[a@.kind()].len(),
            },
    {
        let kind = a.kind();
        let ghost s = self@[kind];
        let mut i: usize = 0;
        let n = self.count(kind);
        while i < n && !self.get(kind, i).same(a)
            invariant
                0 <= i <= n,
                n == s.len(),
                s == self@[kind],
                forall|j: int| 0 <= j < i ==> s[j] != a@,
            decreases n - i,
        {
            i += 1;
        }
        proof {
            lemma_first_exact_is(s, a@, i as int);
        }
        if i < n {
            Some(self.remove_at(kind, i))
        } else {
            None
        }
    }

    /// Removes the component at position `i` of the given kind and hands it out.
    pub fn remove_at(&mut self, kind: AxiomKind, i: usize) -> (r: AnnotatedComponent)
        requires
            i < old(self)@[kind].len(),
        ensures
            r@ == old(self)@[kind][i as int],
            final(self)@ == old(self)@.insert(kind, old(self)@[kind].remove(i as int)),
            final(self).store() == old(self).store(),
    {
        proof {
            use_type_invariant(&*self);
        }
        let k = kind.index();
        let mut by_kind: Vec<Vec<AnnotatedComponent>> = Vec::new();
        std::mem::swap(&mut self.by_kind, &mut by_kind);
        let r = remove_from(&mut by_kind, k, i);
        std::mem::swap(&mut self.by_kind, &mut by_kind);
        proof {
            let target = old(self)@.insert(kind, old(self)@[kind].remove(i as int));
            assert(self@ =~= target) by {
                assert forall|q: AxiomKind| #[trigger] self@[q] == target[q] by {
                    q.lemma_index();
                    kind.lemma_index();
                }
            }
        }
        r
    }

    /// All the components, kind after kind in the fixed order of kinds and,
    /// within a kind, in the order in which they came.
    pub fn iter(&self) -> (r: Vec<&AnnotatedComponent>)
        ensures
            r@.len() == all_components(self@).len(),
            forall|j: int| 0 <= j < r@.len() ==> (#[trigger] r@[j])@ == all_components(self@)[j],
    {
        let mut out: Vec<&AnnotatedComponent> = Vec::new();
        let mut k: usize = 0;
        while k < self.by_kind.len()
            invariant
                0 <= k <= self.by_kind@.len(),
                out@.len() == flattened(self@, k as int).len(),
                forall|j: int| 0 <= j < out@.len() ==> (#[trigger] out@[j])@ == flattened(
                    self@,
                    k as int,
                )[j],
            decreases self.by_kind@.len() - k,
        {
            let bucket = &self.by_kind[k];
            let ghost done = flattened(self@, k as int);
            let ghost part = self@[AxiomKind::at(k as int)];
            proof {
                use_type_invariant(self);
                AxiomKind::lemma_positions(k as int);
                assert(part == AnnotatedComponent::seq_view(*bucket));
            }
            let mut j: usize = 0;
            while j < bucket.len()
                invariant
                    0 <= j <= bucket.len(),
                    part == AnnotatedComponent::seq_view(*bucket),
                    out@.len() == done.len() + j,
                    forall|p: int| 0 <= p < out@.len() ==> (#[trigger] out@[p])@ == (done + part)[p],
                decreases bucket.len() - j,
            {
                out.push(&bucket[j]);
                j += 1;
            }
            k += 1;
        }
        proof {
            use_type_invariant(self);
            assert forall|q: int| self.by_kind@.len() <= q < KIND_COUNT implies (
            #[trigger] self@[AxiomKind::at(q)]).len() == 0 by {
                AxiomKind::lemma_positions(q);
            }
            lemma_flattened_rest(self@, self.by_kind@.len() as int, KIND_COUNT as int);
        }
        out
    }

    /// The number of components.
    pub fn len(&self) -> (r: usize)
        ensures
            r == all_components(self@).len(),
    {
        self.iter().len()
    }

    /// Whether the two ontologies hold the same components with the same
    /// annotations, each as often as the other. Neither the order of the
    /// components nor the stores play a part.
    pub fn same(&self, other: &Ontology) -> (r: bool)
        ensures
            r == same_components(self@, other@),
    {
        let none: Vec<AnnotatedComponent> = Vec::new();
        let mut k: usize = 0;
        proof {
            assert(AnnotatedComponent::seq_view(none) =~= Seq::<AnnotatedComponentView>::empty());
        }
        while k < KIND_COUNT
            invariant
                0 <= k <= KIND_COUNT,
                AnnotatedComponent::seq_view(none) == Seq::<AnnotatedComponentView>::empty(),
                forall|p: int|
                    0 <= p < k ==> (#[trigger] bucket_view(self.by_kind@, p)).to_multiset()
                        == bucket_view(other.by_kind@, p).to_multiset(),
            decreases KIND_COUNT - k,
        {
            let a = if k < self.by_kind.len() {
                &self.by_kind[k]
            } else {
                &none
            };
            let b = if k < other.by_kind.len() {
                &other.by_kind[k]
            } else {
                &none
            };
            if !same_bag(a, b) {
                proof {
                    AxiomKind::lemma_positions(k as int);
                    let q = AxiomKind::at(k as int);
                    assert(self@[q] == bucket_view(self.by_kind@, k as int));
                    assert(other@[q] == bucket_view(other.by_kind@, k as int));
                }
                return false;
            }
            k += 1;
        }
        proof {
            assert forall|q: AxiomKind|
                (#[trigger] self@[q]).to_multiset() == other@[q].to_multiset() by {
                q.lemma_index();
                assert(self@[q] == bucket_view(self.by_kind@, q.spec_index()));
            }
        }
        true
    }

    /// The position, among the components of its kind, of the first component
    /// that says what `c` says; their number where there is none.
    pub fn position_of(&self, c: &Component) -> (r: usize)
        ensures
            r == first_logical(self@[c@.kind()], c@),
            r <= self@[c@.kind()].len(),
    {
        let kind = c.kind();
        let ghost s = self@[kind];
        let n = self.count(kind);
        let mut i: usize = 0;
        while i < n && !self.get(kind, i).component.same(c)
            invariant
                0 <= i <= n,
                n == s.len(),
                s == self@[kind],
                forall|j: int| 0 <= j < i ==> s[j].component != c@,
            decreases n - i,
        {
            i += 1;
        }
        proof {
            lemma_first_logical_is(s, c@, i as int);
        }
        i
    }

    /// Adds `c` without annotations unless the ontology holds a component
    /// that says what `c` says.
    pub fn ensure(&mut self, c: Component)
        ensures
            final(self)@ == ensured(old(self)@, c@),
            final(self).store() == old(self).store(),
    {
        let i = self.position_of(&c);
        if i >= self.count(c.kind()) {
            self.insert(AnnotatedComponent { component: c, ann: AnnotationSet::new() });
        }
    }

    /// The class with the IRI `i`, which the ontology declares from now on.
    pub fn class_from_iri(&mut self, i: IRI) -> (r: Class)
        ensures
            r@ == i@,
            final(self)@ == ensured(old(self)@, ComponentView::DeclareClass(i@)),
            final(self).store() == old(self).store(),
    {
        let c = Class(i);
        self.ensure(Component::DeclareClass(c.clone()));
        c
    }

    /// The class with the IRI `s`, which the ontology declares from now on.
    pub fn class(&mut self, s: &str) -> (r: Class)
        ensures
            r@ == s@,
            final(self)@ == ensured(old(self)@, ComponentView::DeclareClass(s@)),
            final(self).store() == old(self).store().insert(s@),
    {
        let i = self.iri(s);
        self.class_from_iri(i)
    }

    /// The object property with the IRI `i`, which the ontology declares from
    /// now on.
    pub fn object_property_from_iri(&mut self, i: IRI) -> (r: ObjectProperty)
        ensures
            r@ == i@,
            final(self)@ == ensured(old(self)@, ComponentView::DeclareObjectProperty(i@)),
            final(self).store() == old(self).store(),
    {
        let p = ObjectProperty(i);
        self.ensure(Component::DeclareObjectProperty(p.clone()));
        p
    }

    /// The object property with the IRI `s`, which the ontology declares from
    /// now on.
    pub fn object_property(&mut self, s: &str) -> (r: ObjectProperty)
        ensures
            r@ == s@,
            final(self)@ == ensured(old(self)@, ComponentView::DeclareObjectProperty(s@)),
            final(self).store() == old(self).store().insert(s@),
    {
        let i = self.iri(s);
        self.object_property_from_iri(i)
    }

    /// Declares the entity `ne`, unless the ontology declares it already.
    pub fn named_entity(&mut self, ne: NamedEntity)
        ensures
            final(self)@ == ensured(old(self)@, Component::spec_declaration(ne)@),
            final(self).store() == old(self).store(),
    {
        self.ensure(Component::declaration(ne));
    }

    /// States that `subclass` is a subclass of `superclass`, unless the
    /// ontology states it already, and hands the statement out.
    pub fn subclass_exp(&mut self, superclass: ClassExpression, subclass: ClassExpression) -> (r:
        SubClass)
        ensures
            r@ == (SubClassView { superclass: superclass@, subclass: subclass@ }),
            final(self)@ == ensured(old(self)@, ComponentView::SubClassOf(r@)),
            final(self).store() == old(self).store(),
    {
        let sc = SubClass { superclass, subclass };
        self.ensure(Component::SubClassOf(sc.clone()));
        sc
    }

    /// States that the class `subclass` is a subclass of the class
    /// `superclass`, unless the ontology states it already, and hands the
    /// statement out.
    pub fn subclass(&mut self, superclass: Class, subclass: Class) -> (r: SubClass)
        ensures
            r@ == (SubClassView {
                superclass: ClassExpressionView::Class(superclass@),
                subclass: ClassExpressionView::Class(subclass@),
            }),
            final(self)@ == ensured(old(self)@, ComponentView::SubClassOf(r@)),
            final(self).store() == old(self).store(),
    {
        self.subclass_exp(ClassExpression::Class(superclass), ClassExpression::Class(subclass))
    }

    /// The subclasses that the ontology states of `c`, in the order of the
    /// statements.
    pub fn direct_subclass_exp(&self, c: &ClassExpression) -> (r: Vec<&ClassExpression>)
        ensures
            r@.len() == direct_subclasses(self@[AxiomKind::SubClassOf], c@).len(),
            forall|j: int|
                0 <= j < r@.len() ==> (#[trigger] r@[j])@ == direct_subclasses(
                    self@[AxiomKind::SubClassOf],
                    c@,
                )[j],
    {
        let mut out: Vec<&ClassExpression> = Vec::new();
        let ghost s = self@[AxiomKind::SubClassOf];
        let n = self.count(AxiomKind::SubClassOf);
        let mut i: usize = 0;
        proof {
            assert(s.take(0) =~= Seq::<AnnotatedComponentView>::empty());
        }
        while i < n
            invariant
                0 <= i <= n,
                n == s.len(),
                s == self@[AxiomKind::SubClassOf],
                out@.len() == direct_subclasses(s.take(i as int), c@).len(),
                forall|j: int|
                    0 <= j < out@.len() ==> (#[trigger] out@[j])@ == direct_subclasses(
                        s.take(i as int),
                        c@,
                    )[j],
            decreases n - i,
        {
            let item = self.get(AxiomKind::SubClassOf, i);
            proof {
                assert(s.take(i + 1).drop_last() =~= s.take(i as int));
                assert(s.take(i + 1).last() == s[i as int]);
            }
            match &item.component {
                Component::SubClassOf(sc) => {
                    if sc.superclass.same(c) {
                        out.push(&sc.subclass);
                    }
                },
                _ => {},
            }
            i += 1;
        }
        assert(s.take(n as int) =~= s);
        out
    }

    /// The subclasses that the ontology states of the class `c`, in the order
    /// of the statements.
    pub fn direct_subclass(&self, c: &Class) -> (r: Vec<&ClassExpression>)
        ensures
            r@.len() == direct_subclasses(
                self@[AxiomKind::SubClassOf],
                ClassExpressionView::Class(c@),
            ).len(),
            forall|j: int|
                0 <= j < r@.len() ==> (#[trigger] r@[j])@ == direct_subclasses(
                    self@[AxiomKind::SubClassOf],
                    ClassExpressionView::Class(c@),
                )[j],
    {
        let ce = ClassExpression::Class(c.clone());
        self.direct_subclass_exp(&ce)
    }

    /// Whether the ontology states that `subclass` is a subclass of
    /// `superclass`.
    pub fn is_subclass_exp(&self, superclass: &ClassExpression, subclass: &ClassExpression) -> (r:
        bool)
        ensures
            r == holds(
                self@,
                ComponentView::SubClassOf(
                    SubClassView { superclass: superclass@, subclass: subclass@ },
                ),
            ),
    {
        let c = Component::SubClassOf(
            SubClass { superclass: superclass.clone(), subclass: subclass.clone() },
        );
        self.position_of(&c) < self.count(c.kind())
    }

    /// Whether the ontology states that the class `subclass` is a subclass of
    /// the class `superclass`.
    pub fn is_subclass(&self, superclass: &Class, subclass: &Class) -> (r: bool)
        ensures
            r == holds(
                self@,
                ComponentView::SubClassOf(
                    SubClassView {
                        superclass: ClassExpressionView::Class(superclass@),
                        subclass: ClassExpressionView::Class(subclass@),
                    },
                ),
            ),
    {
        self.is_subclass_exp(
            &ClassExpression::Class(superclass.clone()),
            &ClassExpression::Class(subclass.clone()),
        )
    }
}

impl PartialEq for Ontology {
    fn eq(&self, other: &Ontology) -> (r: bool) {
        self.same(other)
    }
}

impl PartialEqSpecImpl for Ontology {
    open spec fn obeys_eq_spec() -> bool {
        true
    }

    open spec fn eq_spec(&self, other: &Ontology) -> bool {
        same_components(self@, other@)
    }
}

impl Eq for Ontology {

}

/// Kinds without components add nothing to the components of an ontology.
pub proof fn lemma_flattened_rest(o: OntologyView, lo: int, hi: int)
    requires
        0 <= lo <= hi,
        forall|k: int| lo <= k < hi ==> (#[trigger] o[AxiomKind::at(k)]).len() == 0,
    ensures
        flattened(o, hi) == flattened(o, lo),
    decreases hi - lo,
{
    if lo < hi {
        lemma_flattened_rest(o, lo, hi - 1);
        assert(flattened(o, hi - 1) + o[AxiomKind::at(hi - 1)] =~= flattened(o, hi - 1));
    }
}

} // verus!
