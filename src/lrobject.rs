use vstd::prelude::*;

verus! {

/// Local id of a catalog object. Unique within an entity type.
pub type LrId = i64;

/// An object of the catalog.
pub trait LrObject {
    /// The local id, in specifications.
    spec fn spec_id(&self) -> LrId;

    /// The global id, in specifications.
    spec fn spec_uuid(&self) -> Seq<char>;

    /// The local id.
    fn id(&self) -> (r: LrId)
        ensures
            r == self.spec_id(),
    ;

    /// The global id, a UUID.
    fn uuid(&self) -> (r: &str)
        ensures
            r@ == self.spec_uuid(),
    ;
}

} // verus!
