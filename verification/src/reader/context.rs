//! What the lowering of one document works with.

use vstd::prelude::*;
use crate::model::iri::IRIBuild;
use crate::prefix::PrefixMap;

verus! {

/// The IRI store that interns the IRIs of a document and the prefix map that
/// expands its abbreviated IRIs.
pub struct Context {
    pub build: IRIBuild,
    pub mapping: PrefixMap,
}

impl Context {
    /// A context made of the given store and prefix map.
    pub fn new(build: IRIBuild, mapping: PrefixMap) -> (r: Context)
        ensures
            r.build == build,
            r.mapping == mapping,
    {
        Context { build, mapping }
    }

    /// What a lowering step may do to the context: the prefix map stays as
    /// it is, and the store keeps what it held.
    pub open spec fn grows_to(self, later: Context) -> bool {
        &&& later.mapping == self.mapping
        &&& self.build@.subset_of(later.build@)
    }
}

} // verus!
