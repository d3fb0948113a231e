//! IRIs and the store that interns them.

use std::rc::Rc;
use vstd::prelude::*;
use vstd::hash_map::StringHashMap;
use vstd::std_specs::convert::FromSpecImpl;

verus! {

/// An absolute IRI.
///
/// Two IRIs are equal exactly when their strings are equal, whichever store
/// made them; IRIs made by one store from equal strings also share storage.
#[derive(Debug, PartialEq, Eq, Hash, PartialOrd, Ord)]
pub struct IRI(Rc<String>);

impl View for IRI {
    type V = Seq<char>;

    /// The string of the IRI.
    closed spec fn view(&self) -> Seq<char> {
        self.0@
    }
}

/// Hands out a second handle to the string behind `rc`, as `Rc::clone` does:
/// the new handle points to the same allocation, so it holds the same value.
#[verifier::external_body]
fn share(rc: &Rc<String>) -> (r: Rc<String>)
    ensures
        r == *rc,
{
    Rc::clone(rc)
}

/// Whether two handles point to the same allocation, as `Rc::ptr_eq` tells.
/// Handles to one allocation hold one value; of handles that hold equal
/// values nothing is claimed, since the answer depends on where the values
/// live.
#[verifier::external_body]
fn same_allocation(a: &Rc<String>, b: &Rc<String>) -> (r: bool)
    ensures
        r ==> *a == *b,
{
    Rc::ptr_eq(a, b)
}

/// The number of handles to the allocation behind `rc`, as `Rc::strong_count`
/// tells. The handle that is asked about is one of them; more is not
/// claimed, since the number depends on what else the program holds.
#[verifier::external_body]
fn handle_count(rc: &Rc<String>) -> (r: usize)
    ensures
        r >= 1,
{
    Rc::strong_count(rc)
}

impl Clone for IRI {
    fn clone(&self) -> (r: Self)
        ensures
            r@ == self@,
    {
        IRI(share(&self.0))
    }
}

impl IRI {
    /// The string of the IRI.
    pub fn as_str(&self) -> (r: &str)
        ensures
            r@ == self@,
    {
        self.0.as_str()
    }

    /// Whether the two IRIs have the same string.
    pub fn same(&self, other: &IRI) -> (r: bool)
        ensures
            r == (self@ == other@),
    {
        *self.0 == *other.0
    }

    /// Whether the two IRIs share storage. IRIs that do have the same string.
    pub fn shares_storage(&self, other: &IRI) -> (r: bool)
        ensures
            r ==> self@ == other@,
    {
        same_allocation(&self.0, &other.0)
    }

    /// The number of IRIs, this one included, that share this one's storage.
    pub fn holders(&self) -> (r: usize)
        ensures
            r >= 1,
    {
        handle_count(&self.0)
    }
}

impl From<IRI> for String {
    fn from(i: IRI) -> (r: String)
        ensures
            r@ == i@,
    {
        i.as_str().to_owned()
    }
}

impl FromSpecImpl<IRI> for String {
    open spec fn obeys_from_spec() -> bool {
        false
    }

    open spec fn from_spec(i: IRI) -> String {
        arbitrary()
    }
}

/// The interning table for IRIs.
///
/// The store remembers every string it was asked for, together with the IRI
/// it made of it, and answers a repeated request with a handle to that IRI.
pub struct IRIBuild {
    cache: StringHashMap<IRI>,
}

impl View for IRIBuild {
    type V = Set<Seq<char>>;

    /// The strings interned so far.
    closed spec fn view(&self) -> Set<Seq<char>> {
        self.cache@.dom()
    }
}

impl IRIBuild {
    #[verifier::type_invariant]
    spec fn faithful(&self) -> bool {
        forall|k: Seq<char>| #[trigger] self.cache@.contains_key(k) ==> self.cache@[k]@ == k
    }

    /// An empty store.
    pub fn new() -> (r: IRIBuild)
        ensures
            r@ == Set::<Seq<char>>::empty(),
    {
        let r = IRIBuild { cache: StringHashMap::new() };
        assert(r@ =~= Set::<Seq<char>>::empty());
        r
    }

    /// The IRI whose string is `s`.
    ///
    /// Equal strings give equal IRIs, whatever the store held before; the
    /// store then holds `s` besides what it held.
    pub fn iri(&mut self, s: &str) -> (r: IRI)
        ensures
            r@ == s@,
            final(self)@ == old(self)@.insert(s@),
    {
        proof {
            use_type_invariant(&*self);
        }
        let found = match self.cache.get(s) {
            Some(i) => Some(i.clone()),
            None => None,
        };
        match found {
            Some(i) => {
                assert(self@ =~= old(self)@.insert(s@));
                i
            },
            None => {
                let iri = IRI(Rc::new(s.to_owned()));
                let mut cache: StringHashMap<IRI> = StringHashMap::new();
                std::mem::swap(&mut self.cache, &mut cache);
                cache.insert(s.to_owned(), iri.clone());
                std::mem::swap(&mut self.cache, &mut cache);
                assert(self@ =~= old(self)@.insert(s@));
                iri
            },
        }
    }
}

} // verus!
