//! Random bytes from the operating system, read by the crate `getrandom`.

use vstd::prelude::*;

verus! {

/// `getrandom::Error`: why the random number source gave no bytes. It is
/// carried through unread.
#[verifier::external_type_specification]
#[verifier::external_body]
pub struct ExEntropyError(getrandom::Error);

/// `getrandom::getrandom`: fills a buffer of `N` bytes from the system's
/// random number source, or reports why it could not. Nothing is promised
/// of the bytes: two calls may give any two buffers.
#[verifier::external_body]
pub(crate) fn os_random<const N: usize>() -> (bytes: Result<[u8; N], getrandom::Error>) {
    let mut buffer = [0u8; N];
    match getrandom::getrandom(&mut buffer) {
        Ok(()) => Ok(buffer),
        Err(error) => Err(error),
    }
}

} // verus!
