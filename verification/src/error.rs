use vstd::prelude::*;

verus! {

/// Why an operation on a key was refused.
#[derive(Clone, Copy, Debug, PartialEq, Eq, Structural)]
pub enum ErrorStack {
    /// An input buffer (seed or encoded key) has the wrong length.
    InvalidLength,
    /// The parameter set or the operation is not offered by this backend.
    Unsupported,
    /// The key holds no private part (no seed, no expanded private key).
    MissingPrivateKey,
    /// The C primitive reported failure.
    Library,
}

/// Maps the status code of a C primitive to a `Result`: a positive code is
/// success, anything else is a library failure.
pub fn cvt(r: i32) -> (res: Result<i32, ErrorStack>)
    ensures
        r > 0 ==> res == Ok::<i32, ErrorStack>(r),
        r <= 0 ==> res == Err::<i32, ErrorStack>(ErrorStack::Library),
{
    if r <= 0 {
        Err(ErrorStack::Library)
    } else {
        Ok(r)
    }
}

} // verus!
