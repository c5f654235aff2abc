//! The random source of the system.
use vstd::prelude::*;

verus! {

/// The most bytes that are drawn at once.
pub const MAX_DRAW: usize = 64;

/// Bytes from `getrandom::getrandom`, the random source of the system: as many
/// as were asked for. They differ from call to call; nothing is said of their
/// values, nor of whether the source is available. One that fails gives its
/// reason.
#[verifier::external_body]
pub(crate) fn random_bytes(n: usize) -> (r: Result<Vec<u8>, String>)
    requires
        n <= MAX_DRAW,
    ensures
        r is Ok ==> r->Ok_0@.len() == n,
{
    let mut bytes = vec![0u8; n];
    getrandom::getrandom(&mut bytes).map_err(|e| e.to_string()).map(|_| bytes)
}

} // verus!
