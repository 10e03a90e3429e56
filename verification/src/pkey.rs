use vstd::prelude::*;

verus! {

/// Marker for key containers that hold a private part. It is only used as a
/// type argument and carries no data.
pub struct Private;

/// Marker for key containers that hold only a public key. It is only used as
/// a type argument and carries no data.
pub struct Public;

} // verus!
