//! Lowering a run of nodes: the values of all of them, or the first error.

use vstd::prelude::*;
use crate::error::HornedError;

verus! {

/// The values of all the outcomes in `s`, in order, or the first error among
/// them.
pub open spec fn collect<V>(s: Seq<Result<V, HornedError>>) -> Result<Seq<V>, HornedError>
    decreases s.len(),
{
    if s.len() == 0 {
        Ok(Seq::empty())
    } else {
        match collect(s.drop_last()) {
            Err(e) => Err(e),
            Ok(vs) => match s.last() {
                Err(e) => Err(e),
                Ok(v) => Ok(vs.push(v)),
            },
        }
    }
}

/// One more value after a run of values extends the run.
pub proof fn lemma_collect_value<V>(s: Seq<Result<V, HornedError>>, k: int, vs: Seq<V>, v: V)
    requires
        0 <= k < s.len(),
        collect(s.take(k)) == Ok::<Seq<V>, HornedError>(vs),
        s[k] == Ok::<V, HornedError>(v),
    ensures
        collect(s.take(k + 1)) == Ok::<Seq<V>, HornedError>(vs.push(v)),
{
    assert(s.take(k + 1).drop_last() =~= s.take(k));
}

/// An error stays: once a prefix of `s` has given it, all of `s` gives it.
pub proof fn lemma_collect_error_stays<V>(s: Seq<Result<V, HornedError>>, k: int, e: HornedError)
    requires
        0 <= k <= s.len(),
        collect(s.take(k)) == Err::<Seq<V>, HornedError>(e),
    ensures
        collect(s) == Err::<Seq<V>, HornedError>(e),
    decreases s.len() - k,
{
    if k == s.len() {
        assert(s.take(k) =~= s);
    } else {
        assert(s.take(k + 1).drop_last() =~= s.take(k));
        lemma_collect_error_stays(s, k + 1, e);
    }
}

/// The first error after a run of values is the outcome of the whole.
pub proof fn lemma_collect_error<V>(s: Seq<Result<V, HornedError>>, k: int, e: HornedError)
    requires
        0 <= k < s.len(),
        collect(s.take(k)) is Ok,
        s[k] == Err::<V, HornedError>(e),
    ensures
        collect(s) == Err::<Seq<V>, HornedError>(e),
{
    assert(s.take(k + 1).drop_last() =~= s.take(k));
    lemma_collect_error_stays(s, k + 1, e);
}

/// A run taken to its full length is the run.
pub proof fn lemma_collect_all<V>(s: Seq<Result<V, HornedError>>)
    ensures
        collect(s.take(s.len() as int)) == collect(s),
{
    assert(s.take(s.len() as int) =~= s);
}

} // verus!
