//! Safe, verified marshaling layer over an algorithm-agnostic collection of
//! post-quantum KEM and signature backends.
//!
//! The hard part of such a wrapper is not the cryptography, which the linked
//! backends supply, but the bookkeeping around it: a closed registry of
//! algorithm tags, capability metadata per algorithm, owned and borrowed
//! byte buffers whose lengths are validated against that metadata before any
//! backend call, and a typed error model for backend failures. All of that
//! bookkeeping lives here and carries contracts; the backend calls themselves
//! stand behind small trusted wrappers.

use vstd::prelude::*;

pub mod kem;
pub mod sig;

verus! {

use vstd::string::StrSliceExecFns;

/// Possible errors.
#[derive(Clone, Copy, Debug, PartialEq, Eq, Structural)]
pub enum Error {
    /// Indicates an algorithm has been disabled in the linked engine build.
    AlgorithmDisabled,
    /// A display-name lookup did not match any registered algorithm.
    AlgorithmNotSupportedOrKnown,
    /// Generic engine error.
    Error,
    /// Error occurred in a secondary library external to the engine itself.
    ErrorExternalOpenSSL,
    /// Invalid length of a public object.
    InvalidLength,
}

/// Result type for operations that may fail.
pub type Result<T> = core::result::Result<T, Error>;

/// Status code reported by an engine operation.
#[derive(Clone, Copy, Debug, PartialEq, Eq, Structural)]
pub enum Status {
    /// The operation succeeded.
    Success,
    /// The operation failed inside the engine.
    Error,
    /// The operation failed inside a secondary library the engine depends on.
    ExternalLibErrorOpenSSL,
}

/// Translate an engine status code into the typed result.
///
/// The translation is total: success maps to `Ok`, each failure code to its
/// own error variant.
pub fn status_to_result(status: Status) -> (r: Result<()>)
    ensures
        r is Ok <==> status is Success,
        status is Success ==> r == Result::<()>::Ok(()),
        status is Error ==> (r matches Err(e) && e == Error::Error),
        status is ExternalLibErrorOpenSSL ==> (r matches Err(e) && e == Error::ErrorExternalOpenSSL),
{
    match status {
        Status::Success => Ok(()),
        Status::Error => Err(Error::Error),
        Status::ExternalLibErrorOpenSSL => Err(Error::ErrorExternalOpenSSL),
    }
}

/// Initialize the engine.
///
/// The backends linked into this build keep no process-wide state, so there
/// is nothing to set up: the call is idempotent and any number of callers,
/// concurrent or not, observe the same (absent) effect.
pub fn init() {
}

/// Content equality of two byte slices.
pub(crate) fn bytes_eq(a: &[u8], b: &[u8]) -> (r: bool)
    ensures
        r <==> a@ == b@,
{
    if a.len() != b.len() {
        return false;
    }
    let n = a.len();
    let mut i: usize = 0;
    while i < n
        invariant
            0 <= i <= n,
            n == a@.len(),
            n == b@.len(),
            forall|j: int| 0 <= j < i ==> a@[j] == b@[j],
        decreases n - i,
    {
        if a[i] != b[i] {
            return false;
        }
        i += 1;
    }
    proof {
        assert(a@ =~= b@);
    }
    true
}

/// Content equality of two strings.
pub(crate) fn str_eq(a: &str, b: &str) -> (r: bool)
    ensures
        r <==> a@ == b@,
{
    let alen = a.unicode_len();
    let blen = b.unicode_len();
    if alen != blen {
        return false;
    }
    let mut i: usize = 0;
    while i < alen
        invariant
            0 <= i <= alen,
            alen == a@.len(),
            alen == b@.len(),
            forall|j: int| 0 <= j < i ==> a@[j] == b@[j],
        decreases alen - i,
    {
        let ca = a.get_char(i);
        let cb = b.get_char(i);
        if ca != cb {
            return false;
        }
        i += 1;
    }
    proof {
        assert(a@ =~= b@);
    }
    true
}

} // verus!
