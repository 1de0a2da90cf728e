//! Signature API.
//!
//! See [`Sig`] for the main functionality and [`Algorithm`]
//! for the list of supported algorithms.

use vstd::prelude::*;

use fips204::traits::{SerDes, Signer, Verifier};

use crate::Error;
use crate::Result;

verus! {

use vstd::slice::slice_to_vec;

/// Supported signature algorithms.
///
/// Every tag maps to a fixed identifier string, but a tag being listed here
/// does not mean the algorithm is enabled in the linked engine build: see
/// [`Algorithm::is_enabled`].
#[derive(Clone, Copy, Debug, Eq, PartialEq, Hash, Structural)]
#[allow(missing_docs)]
pub enum Algorithm {
    CrossRsdp128Balanced,
    CrossRsdp128Fast,
    CrossRsdp128Small,
    CrossRsdp192Balanced,
    CrossRsdp192Fast,
    CrossRsdp192Small,
    CrossRsdp256Balanced,
    CrossRsdp256Fast,
    CrossRsdp256Small,
    CrossRsdpg128Balanced,
    CrossRsdpg128Fast,
    CrossRsdpg128Small,
    CrossRsdpg192Balanced,
    CrossRsdpg192Fast,
    CrossRsdpg192Small,
    CrossRsdpg256Balanced,
    CrossRsdpg256Fast,
    CrossRsdpg256Small,
    Dilithium2,
    Dilithium3,
    Dilithium5,
    Falcon512,
    Falcon1024,
    Mayo1,
    Mayo2,
    Mayo3,
    Mayo5,
    MlDsa44,
    MlDsa65,
    MlDsa87,
    SphincsSha2128fSimple,
    SphincsSha2128sSimple,
    SphincsSha2192fSimple,
    SphincsSha2192sSimple,
    SphincsSha2256fSimple,
    SphincsSha2256sSimple,
    SphincsShake128fSimple,
    SphincsShake128sSimple,
    SphincsShake192fSimple,
    SphincsShake192sSimple,
    SphincsShake256fSimple,
    SphincsShake256sSimple,
}

/// Which algorithms the linked engine build enables: the three ML-DSA and
/// the three Dilithium parameter sets supplied by the backends; every other
/// registered tag is compiled out.
pub open spec fn spec_enabled(a: Algorithm) -> bool {
    ||| a is Dilithium2 || a is Dilithium3 || a is Dilithium5
    ||| a is MlDsa44 || a is MlDsa65 || a is MlDsa87
}

/// The identifier string of each registered algorithm.
pub open spec fn spec_id(a: Algorithm) -> Seq<char> {
    match a {
        Algorithm::CrossRsdp128Balanced => "cross-rsdp-128-balanced"@,
        Algorithm::CrossRsdp128Fast => "cross-rsdp-128-fast"@,
        Algorithm::CrossRsdp128Small => "cross-rsdp-128-small"@,
        Algorithm::CrossRsdp192Balanced => "cross-rsdp-192-balanced"@,
        Algorithm::CrossRsdp192Fast => "cross-rsdp-192-fast"@,
        Algorithm::CrossRsdp192Small => "cross-rsdp-192-small"@,
        Algorithm::CrossRsdp256Balanced => "cross-rsdp-256-balanced"@,
        Algorithm::CrossRsdp256Fast => "cross-rsdp-256-fast"@,
        Algorithm::CrossRsdp256Small => "cross-rsdp-256-small"@,
        Algorithm::CrossRsdpg128Balanced => "cross-rsdpg-128-balanced"@,
        Algorithm::CrossRsdpg128Fast => "cross-rsdpg-128-fast"@,
        Algorithm::CrossRsdpg128Small => "cross-rsdpg-128-small"@,
        Algorithm::CrossRsdpg192Balanced => "cross-rsdpg-192-balanced"@,
        Algorithm::CrossRsdpg192Fast => "cross-rsdpg-192-fast"@,
        Algorithm::CrossRsdpg192Small => "cross-rsdpg-192-small"@,
        Algorithm::CrossRsdpg256Balanced => "cross-rsdpg-256-balanced"@,
        Algorithm::CrossRsdpg256Fast => "cross-rsdpg-256-fast"@,
        Algorithm::CrossRsdpg256Small => "cross-rsdpg-256-small"@,
        Algorithm::Dilithium2 => "Dilithium2"@,
        Algorithm::Dilithium3 => "Dilithium3"@,
        Algorithm::Dilithium5 => "Dilithium5"@,
        Algorithm::Falcon512 => "Falcon-512"@,
        Algorithm::Falcon1024 => "Falcon-1024"@,
        Algorithm::Mayo1 => "MAYO-1"@,
        Algorithm::Mayo2 => "MAYO-2"@,
        Algorithm::Mayo3 => "MAYO-3"@,
        Algorithm::Mayo5 => "MAYO-5"@,
        Algorithm::MlDsa44 => "ML-DSA-44"@,
        Algorithm::MlDsa65 => "ML-DSA-65"@,
        Algorithm::MlDsa87 => "ML-DSA-87"@,
        Algorithm::SphincsSha2128fSimple => "SPHINCS+-SHA2-128f-simple"@,
        Algorithm::SphincsSha2128sSimple => "SPHINCS+-SHA2-128s-simple"@,
        Algorithm::SphincsSha2192fSimple => "SPHINCS+-SHA2-192f-simple"@,
        Algorithm::SphincsSha2192sSimple => "SPHINCS+-SHA2-192s-simple"@,
        Algorithm::SphincsSha2256fSimple => "SPHINCS+-SHA2-256f-simple"@,
        Algorithm::SphincsSha2256sSimple => "SPHINCS+-SHA2-256s-simple"@,
        Algorithm::SphincsShake128fSimple => "SPHINCS+-SHAKE-128f-simple"@,
        Algorithm::SphincsShake128sSimple => "SPHINCS+-SHAKE-128s-simple"@,
        Algorithm::SphincsShake192fSimple => "SPHINCS+-SHAKE-192f-simple"@,
        Algorithm::SphincsShake192sSimple => "SPHINCS+-SHAKE-192s-simple"@,
        Algorithm::SphincsShake256fSimple => "SPHINCS+-SHAKE-256f-simple"@,
        Algorithm::SphincsShake256sSimple => "SPHINCS+-SHAKE-256s-simple"@,
    }
}

/// Version string of the implementation behind each enabled algorithm.
pub open spec fn spec_version(a: Algorithm) -> Seq<char> {
    match a {
        Algorithm::Dilithium2 | Algorithm::Dilithium3 | Algorithm::Dilithium5 => "3.1"@,
        Algorithm::MlDsa44 | Algorithm::MlDsa65 | Algorithm::MlDsa87 => "FIPS 204"@,
        _ => Seq::<char>::empty(),
    }
}

/// Claimed NIST security level of each enabled algorithm.
pub open spec fn spec_nist_level(a: Algorithm) -> u8 {
    match a {
        Algorithm::Dilithium2 => 2,
        Algorithm::Dilithium3 => 3,
        Algorithm::Dilithium5 => 5,
        Algorithm::MlDsa44 => 2,
        Algorithm::MlDsa65 => 3,
        Algorithm::MlDsa87 => 5,
        _ => 0,
    }
}

/// EUF-CMA security flag of each enabled algorithm.
pub open spec fn spec_euf_cma(a: Algorithm) -> bool {
    spec_enabled(a)
}

/// Whether the enabled algorithm signs with a caller-supplied context string.
pub open spec fn spec_ctx_support(a: Algorithm) -> bool {
    a is MlDsa44 || a is MlDsa65 || a is MlDsa87
}

/// Public-key length of each enabled algorithm.
pub open spec fn spec_length_public_key(a: Algorithm) -> usize {
    match a {
        Algorithm::Dilithium2 => 1312,
        Algorithm::Dilithium3 => 1952,
        Algorithm::Dilithium5 => 2592,
        Algorithm::MlDsa44 => 1312,
        Algorithm::MlDsa65 => 1952,
        Algorithm::MlDsa87 => 2592,
        _ => 0,
    }
}

/// Secret-key length of each enabled algorithm.
pub open spec fn spec_length_secret_key(a: Algorithm) -> usize {
    match a {
        Algorithm::Dilithium2 => 2528,
        Algorithm::Dilithium3 => 4000,
        Algorithm::Dilithium5 => 4864,
        Algorithm::MlDsa44 => 2560,
        Algorithm::MlDsa65 => 4032,
        Algorithm::MlDsa87 => 4896,
        _ => 0,
    }
}

/// Maximal signature length of each enabled algorithm. The schemes this
/// build links produce signatures of exactly this length.
pub open spec fn spec_length_signature(a: Algorithm) -> usize {
    match a {
        Algorithm::Dilithium2 => 2420,
        Algorithm::Dilithium3 => 3293,
        Algorithm::Dilithium5 => 4595,
        Algorithm::MlDsa44 => 2420,
        Algorithm::MlDsa65 => 3309,
        Algorithm::MlDsa87 => 4627,
        _ => 0,
    }
}

/// Exact-match lookup of an algorithm tag by its identifier string.
pub open spec fn spec_from_name(s: Seq<char>) -> Option<Algorithm> {
    if s == "cross-rsdp-128-balanced"@ {
        Some(Algorithm::CrossRsdp128Balanced)
    } else if s == "cross-rsdp-128-fast"@ {
        Some(Algorithm::CrossRsdp128Fast)
    } else if s == "cross-rsdp-128-small"@ {
        Some(Algorithm::CrossRsdp128Small)
    } else if s == "cross-rsdp-192-balanced"@ {
        Some(Algorithm::CrossRsdp192Balanced)
    } else if s == "cross-rsdp-192-fast"@ {
        Some(Algorithm::CrossRsdp192Fast)
    } else if s == "cross-rsdp-192-small"@ {
        Some(Algorithm::CrossRsdp192Small)
    } else if s == "cross-rsdp-256-balanced"@ {
        Some(Algorithm::CrossRsdp256Balanced)
    } else if s == "cross-rsdp-256-fast"@ {
        Some(Algorithm::CrossRsdp256Fast)
    } else if s == "cross-rsdp-256-small"@ {
        Some(Algorithm::CrossRsdp256Small)
    } else if s == "cross-rsdpg-128-balanced"@ {
        Some(Algorithm::CrossRsdpg128Balanced)
    } else if s == "cross-rsdpg-128-fast"@ {
        Some(Algorithm::CrossRsdpg128Fast)
    } else if s == "cross-rsdpg-128-small"@ {
        Some(Algorithm::CrossRsdpg128Small)
    } else if s == "cross-rsdpg-192-balanced"@ {
        Some(Algorithm::CrossRsdpg192Balanced)
    } else if s == "cross-rsdpg-192-fast"@ {
        Some(Algorithm::CrossRsdpg192Fast)
    } else if s == "cross-rsdpg-192-small"@ {
        Some(Algorithm::CrossRsdpg192Small)
    } else if s == "cross-rsdpg-256-balanced"@ {
        Some(Algorithm::CrossRsdpg256Balanced)
    } else if s == "cross-rsdpg-256-fast"@ {
        Some(Algorithm::CrossRsdpg256Fast)
    } else if s == "cross-rsdpg-256-small"@ {
        Some(Algorithm::CrossRsdpg256Small)
    } else if s == "Dilithium2"@ {
        Some(Algorithm::Dilithium2)
    } else if s == "Dilithium3"@ {
        Some(Algorithm::Dilithium3)
    } else if s == "Dilithium5"@ {
        Some(Algorithm::Dilithium5)
    } else if s == "Falcon-512"@ {
        Some(Algorithm::Falcon512)
    } else if s == "Falcon-1024"@ {
        Some(Algorithm::Falcon1024)
    } else if s == "MAYO-1"@ {
        Some(Algorithm::Mayo1)
    } else if s == "MAYO-2"@ {
        Some(Algorithm::Mayo2)
    } else if s == "MAYO-3"@ {
        Some(Algorithm::Mayo3)
    } else if s == "MAYO-5"@ {
        Some(Algorithm::Mayo5)
    } else if s == "ML-DSA-44"@ {
        Some(Algorithm::MlDsa44)
    } else if s == "ML-DSA-65"@ {
        Some(Algorithm::MlDsa65)
    } else if s == "ML-DSA-87"@ {
        Some(Algorithm::MlDsa87)
    } else if s == "SPHINCS+-SHA2-128f-simple"@ {
        Some(Algorithm::SphincsSha2128fSimple)
    } else if s == "SPHINCS+-SHA2-128s-simple"@ {
        Some(Algorithm::SphincsSha2128sSimple)
    } else if s == "SPHINCS+-SHA2-192f-simple"@ {
        Some(Algorithm::SphincsSha2192fSimple)
    } else if s == "SPHINCS+-SHA2-192s-simple"@ {
        Some(Algorithm::SphincsSha2192sSimple)
    } else if s == "SPHINCS+-SHA2-256f-simple"@ {
        Some(Algorithm::SphincsSha2256fSimple)
    } else if s == "SPHINCS+-SHA2-256s-simple"@ {
        Some(Algorithm::SphincsSha2256sSimple)
    } else if s == "SPHINCS+-SHAKE-128f-simple"@ {
        Some(Algorithm::SphincsShake128fSimple)
    } else if s == "SPHINCS+-SHAKE-128s-simple"@ {
        Some(Algorithm::SphincsShake128sSimple)
    } else if s == "SPHINCS+-SHAKE-192f-simple"@ {
        Some(Algorithm::SphincsShake192fSimple)
    } else if s == "SPHINCS+-SHAKE-192s-simple"@ {
        Some(Algorithm::SphincsShake192sSimple)
    } else if s == "SPHINCS+-SHAKE-256f-simple"@ {
        Some(Algorithm::SphincsShake256fSimple)
    } else if s == "SPHINCS+-SHAKE-256s-simple"@ {
        Some(Algorithm::SphincsShake256sSimple)
    } else {
        None
    }
}

impl Algorithm {
    /// Returns true if this algorithm is enabled in the linked engine build.
    pub fn is_enabled(self) -> (r: bool)
        ensures
            r == spec_enabled(self),
    {
        match self {
            Algorithm::Dilithium2 | Algorithm::Dilithium3 | Algorithm::Dilithium5 => true,
            Algorithm::MlDsa44 | Algorithm::MlDsa65 | Algorithm::MlDsa87 => true,
            _ => false,
        }
    }

    /// The identifier of the algorithm, as the engine registry knows it.
    pub fn to_id(self) -> (r: &'static str)
        ensures
            r@ == spec_id(self),
    {
        match self {
            Algorithm::CrossRsdp128Balanced => "cross-rsdp-128-balanced",
            Algorithm::CrossRsdp128Fast => "cross-rsdp-128-fast",
            Algorithm::CrossRsdp128Small => "cross-rsdp-128-small",
            Algorithm::CrossRsdp192Balanced => "cross-rsdp-192-balanced",
            Algorithm::CrossRsdp192Fast => "cross-rsdp-192-fast",
            Algorithm::CrossRsdp192Small => "cross-rsdp-192-small",
            Algorithm::CrossRsdp256Balanced => "cross-rsdp-256-balanced",
            Algorithm::CrossRsdp256Fast => "cross-rsdp-256-fast",
            Algorithm::CrossRsdp256Small => "cross-rsdp-256-small",
            Algorithm::CrossRsdpg128Balanced => "cross-rsdpg-128-balanced",
            Algorithm::CrossRsdpg128Fast => "cross-rsdpg-128-fast",
            Algorithm::CrossRsdpg128Small => "cross-rsdpg-128-small",
            Algorithm::CrossRsdpg192Balanced => "cross-rsdpg-192-balanced",
            Algorithm::CrossRsdpg192Fast => "cross-rsdpg-192-fast",
            Algorithm::CrossRsdpg192Small => "cross-rsdpg-192-small",
            Algorithm::CrossRsdpg256Balanced => "cross-rsdpg-256-balanced",
            Algorithm::CrossRsdpg256Fast => "cross-rsdpg-256-fast",
            Algorithm::CrossRsdpg256Small => "cross-rsdpg-256-small",
            Algorithm::Dilithium2 => "Dilithium2",
            Algorithm::Dilithium3 => "Dilithium3",
            Algorithm::Dilithium5 => "Dilithium5",
            Algorithm::Falcon512 => "Falcon-512",
            Algorithm::Falcon1024 => "Falcon-1024",
            Algorithm::Mayo1 => "MAYO-1",
            Algorithm::Mayo2 => "MAYO-2",
            Algorithm::Mayo3 => "MAYO-3",
            Algorithm::Mayo5 => "MAYO-5",
            Algorithm::MlDsa44 => "ML-DSA-44",
            Algorithm::MlDsa65 => "ML-DSA-65",
            Algorithm::MlDsa87 => "ML-DSA-87",
            Algorithm::SphincsSha2128fSimple => "SPHINCS+-SHA2-128f-simple",
            Algorithm::SphincsSha2128sSimple => "SPHINCS+-SHA2-128s-simple",
            Algorithm::SphincsSha2192fSimple => "SPHINCS+-SHA2-192f-simple",
            Algorithm::SphincsSha2192sSimple => "SPHINCS+-SHA2-192s-simple",
            Algorithm::SphincsSha2256fSimple => "SPHINCS+-SHA2-256f-simple",
            Algorithm::SphincsSha2256sSimple => "SPHINCS+-SHA2-256s-simple",
            Algorithm::SphincsShake128fSimple => "SPHINCS+-SHAKE-128f-simple",
            Algorithm::SphincsShake128sSimple => "SPHINCS+-SHAKE-128s-simple",
            Algorithm::SphincsShake192fSimple => "SPHINCS+-SHAKE-192f-simple",
            Algorithm::SphincsShake192sSimple => "SPHINCS+-SHAKE-192s-simple",
            Algorithm::SphincsShake256fSimple => "SPHINCS+-SHAKE-256f-simple",
            Algorithm::SphincsShake256sSimple => "SPHINCS+-SHAKE-256s-simple",
        }
    }

    /// Returns the algorithm's name, the same string as [`Algorithm::to_id`].
    pub fn name(&self) -> (r: &'static str)
        ensures
            r@ == spec_id(*self),
    {
        (*self).to_id()
    }

    /// Exact-match lookup of an algorithm tag by its identifier string.
    ///
    /// Fails with [`Error::AlgorithmNotSupportedOrKnown`] exactly when no
    /// registered algorithm carries the given name.
    pub fn from_name(s: &str) -> (r: Result<Algorithm>)
        ensures
            r == match spec_from_name(s@) {
                Some(a) => Result::<Algorithm>::Ok(a),
                None => Result::<Algorithm>::Err(Error::AlgorithmNotSupportedOrKnown),
            },
    {
        if crate::str_eq(s, "cross-rsdp-128-balanced") {
            return Ok(Algorithm::CrossRsdp128Balanced);
        }
        if crate::str_eq(s, "cross-rsdp-128-fast") {
            return Ok(Algorithm::CrossRsdp128Fast);
        }
        if crate::str_eq(s, "cross-rsdp-128-small") {
            return Ok(Algorithm::CrossRsdp128Small);
        }
        if crate::str_eq(s, "cross-rsdp-192-balanced") {
            return Ok(Algorithm::CrossRsdp192Balanced);
        }
        if crate::str_eq(s, "cross-rsdp-192-fast") {
            return Ok(Algorithm::CrossRsdp192Fast);
        }
        if crate::str_eq(s, "cross-rsdp-192-small") {
            return Ok(Algorithm::CrossRsdp192Small);
        }
        if crate::str_eq(s, "cross-rsdp-256-balanced") {
            return Ok(Algorithm::CrossRsdp256Balanced);
        }
        if crate::str_eq(s, "cross-rsdp-256-fast") {
            return Ok(Algorithm::CrossRsdp256Fast);
        }
        if crate::str_eq(s, "cross-rsdp-256-small") {
            return Ok(Algorithm::CrossRsdp256Small);
        }
        if crate::str_eq(s, "cross-rsdpg-128-balanced") {
            return Ok(Algorithm::CrossRsdpg128Balanced);
        }
        if crate::str_eq(s, "cross-rsdpg-128-fast") {
            return Ok(Algorithm::CrossRsdpg128Fast);
        }
        if crate::str_eq(s, "cross-rsdpg-128-small") {
            return Ok(Algorithm::CrossRsdpg128Small);
        }
        if crate::str_eq(s, "cross-rsdpg-192-balanced") {
            return Ok(Algorithm::CrossRsdpg192Balanced);
        }
        if crate::str_eq(s, "cross-rsdpg-192-fast") {
            return Ok(Algorithm::CrossRsdpg192Fast);
        }
        if crate::str_eq(s, "cross-rsdpg-192-small") {
            return Ok(Algorithm::CrossRsdpg192Small);
        }
        if crate::str_eq(s, "cross-rsdpg-256-balanced") {
            return Ok(Algorithm::CrossRsdpg256Balanced);
        }
        if crate::str_eq(s, "cross-rsdpg-256-fast") {
            return Ok(Algorithm::CrossRsdpg256Fast);
        }
        if crate::str_eq(s, "cross-rsdpg-256-small") {
            return Ok(Algorithm::CrossRsdpg256Small);
        }
        if crate::str_eq(s, "Dilithium2") {
            return Ok(Algorithm::Dilithium2);
        }
        if crate::str_eq(s, "Dilithium3") {
            return Ok(Algorithm::Dilithium3);
        }
        if crate::str_eq(s, "Dilithium5") {
            return Ok(Algorithm::Dilithium5);
        }
        if crate::str_eq(s, "Falcon-512") {
            return Ok(Algorithm::Falcon512);
        }
        if crate::str_eq(s, "Falcon-1024") {
            return Ok(Algorithm::Falcon1024);
        }
        if crate::str_eq(s, "MAYO-1") {
            return Ok(Algorithm::Mayo1);
        }
        if crate::str_eq(s, "MAYO-2") {
            return Ok(Algorithm::Mayo2);
        }
        if crate::str_eq(s, "MAYO-3") {
            return Ok(Algorithm::Mayo3);
        }
        if crate::str_eq(s, "MAYO-5") {
            return Ok(Algorithm::Mayo5);
        }
        if crate::str_eq(s, "ML-DSA-44") {
            return Ok(Algorithm::MlDsa44);
        }
        if crate::str_eq(s, "ML-DSA-65") {
            return Ok(Algorithm::MlDsa65);
        }
        if crate::str_eq(s, "ML-DSA-87") {
            return Ok(Algorithm::MlDsa87);
        }
        if crate::str_eq(s, "SPHINCS+-SHA2-128f-simple") {
            return Ok(Algorithm::SphincsSha2128fSimple);
        }
        if crate::str_eq(s, "SPHINCS+-SHA2-128s-simple") {
            return Ok(Algorithm::SphincsSha2128sSimple);
        }
        if crate::str_eq(s, "SPHINCS+-SHA2-192f-simple") {
            return Ok(Algorithm::SphincsSha2192fSimple);
        }
        if crate::str_eq(s, "SPHINCS+-SHA2-192s-simple") {
            return Ok(Algorithm::SphincsSha2192sSimple);
        }
        if crate::str_eq(s, "SPHINCS+-SHA2-256f-simple") {
            return Ok(Algorithm::SphincsSha2256fSimple);
        }
        if crate::str_eq(s, "SPHINCS+-SHA2-256s-simple") {
            return Ok(Algorithm::SphincsSha2256sSimple);
        }
        if crate::str_eq(s, "SPHINCS+-SHAKE-128f-simple") {
            return Ok(Algorithm::SphincsShake128fSimple);
        }
        if crate::str_eq(s, "SPHINCS+-SHAKE-128s-simple") {
            return Ok(Algorithm::SphincsShake128sSimple);
        }
        if crate::str_eq(s, "SPHINCS+-SHAKE-192f-simple") {
            return Ok(Algorithm::SphincsShake192fSimple);
        }
        if crate::str_eq(s, "SPHINCS+-SHAKE-192s-simple") {
            return Ok(Algorithm::SphincsShake192sSimple);
        }
        if crate::str_eq(s, "SPHINCS+-SHAKE-256f-simple") {
            return Ok(Algorithm::SphincsShake256fSimple);
        }
        if crate::str_eq(s, "SPHINCS+-SHAKE-256s-simple") {
            return Ok(Algorithm::SphincsShake256sSimple);
        }
        Err(Error::AlgorithmNotSupportedOrKnown)
    }
}

/// Owned public-key buffer.
///
/// Produced by engine operations, or wrapped around raw bytes; whether the
/// contents fit a given algorithm is checked where the buffer meets a handle.
#[derive(Clone, Debug)]
pub struct PublicKey {
    bytes: Vec<u8>,
}

impl View for PublicKey {
    type V = Seq<u8>;

    closed spec fn view(&self) -> Seq<u8> {
        self.bytes@
    }
}

impl PublicKey {
    /// Wrap an owned byte vector.
    pub fn from_vec(bytes: Vec<u8>) -> (r: PublicKey)
        ensures
            r@ == bytes@,
    {
        PublicKey { bytes }
    }

    /// Obtain the contained vector.
    pub fn into_vec(self) -> (r: Vec<u8>)
        ensures
            r@ == self@,
    {
        self.bytes
    }

    /// Borrow the contained bytes.
    pub fn as_bytes(&self) -> (r: &[u8])
        ensures
            r@ == self@,
    {
        self.bytes.as_slice()
    }

    /// Borrowed view of this buffer.
    pub fn as_borrowed<'a>(&'a self) -> (r: PublicKeyRef<'a>)
        ensures
            r@ == self@,
    {
        PublicKeyRef { bytes: self.bytes.as_slice() }
    }

    /// Length in bytes.
    pub fn len(&self) -> (r: usize)
        ensures
            r == self@.len(),
    {
        self.bytes.len()
    }

    /// True if the buffer is empty.
    pub fn is_empty(&self) -> (r: bool)
        ensures
            r <==> self@.len() == 0,
    {
        self.bytes.len() == 0
    }
}

impl PartialEq for PublicKey {
    fn eq(&self, other: &Self) -> bool {
        crate::bytes_eq(self.bytes.as_slice(), other.bytes.as_slice())
    }
}

impl vstd::std_specs::cmp::PartialEqSpecImpl for PublicKey {
    open spec fn obeys_eq_spec() -> bool {
        true
    }

    open spec fn eq_spec(&self, other: &Self) -> bool {
        self@ == other@
    }
}

/// Borrowed public-key view: a non-owning reference whose length was checked
/// against a handle where it came out of [`Sig`]'s validating constructors.
#[derive(Clone, Copy, Debug)]
pub struct PublicKeyRef<'a> {
    bytes: &'a [u8],
}

impl<'a> View for PublicKeyRef<'a> {
    type V = Seq<u8>;

    closed spec fn view(&self) -> Seq<u8> {
        self.bytes@
    }
}

impl<'a> PublicKeyRef<'a> {
    /// Clone this into the owned variant.
    pub fn to_owned(self) -> (r: PublicKey)
        ensures
            r@ == self@,
    {
        PublicKey { bytes: slice_to_vec(self.bytes) }
    }

    /// Borrow the underlying bytes.
    pub fn as_bytes(&self) -> (r: &'a [u8])
        ensures
            r@ == self@,
    {
        self.bytes
    }

    /// Length in bytes.
    pub fn len(&self) -> (r: usize)
        ensures
            r == self@.len(),
    {
        self.bytes.len()
    }

    /// True if the view is empty.
    pub fn is_empty(&self) -> (r: bool)
        ensures
            r <==> self@.len() == 0,
    {
        self.bytes.len() == 0
    }
}

/// Owned secret-key buffer.
///
/// Produced by engine operations, or wrapped around raw bytes; whether the
/// contents fit a given algorithm is checked where the buffer meets a handle.
#[derive(Clone, Debug)]
pub struct SecretKey {
    bytes: Vec<u8>,
}

impl View for SecretKey {
    type V = Seq<u8>;

    closed spec fn view(&self) -> Seq<u8> {
        self.bytes@
    }
}

impl SecretKey {
    /// Wrap an owned byte vector.
    pub fn from_vec(bytes: Vec<u8>) -> (r: SecretKey)
        ensures
            r@ == bytes@,
    {
        SecretKey { bytes }
    }

    /// Obtain the contained vector.
    pub fn into_vec(self) -> (r: Vec<u8>)
        ensures
            r@ == self@,
    {
        self.bytes
    }

    /// Borrow the contained bytes.
    pub fn as_bytes(&self) -> (r: &[u8])
        ensures
            r@ == self@,
    {
        self.bytes.as_slice()
    }

    /// Borrowed view of this buffer.
    pub fn as_borrowed<'a>(&'a self) -> (r: SecretKeyRef<'a>)
        ensures
            r@ == self@,
    {
        SecretKeyRef { bytes: self.bytes.as_slice() }
    }

    /// Length in bytes.
    pub fn len(&self) -> (r: usize)
        ensures
            r == self@.len(),
    {
        self.bytes.len()
    }

    /// True if the buffer is empty.
    pub fn is_empty(&self) -> (r: bool)
        ensures
            r <==> self@.len() == 0,
    {
        self.bytes.len() == 0
    }
}

impl PartialEq for SecretKey {
    fn eq(&self, other: &Self) -> bool {
        crate::bytes_eq(self.bytes.as_slice(), other.bytes.as_slice())
    }
}

impl vstd::std_specs::cmp::PartialEqSpecImpl for SecretKey {
    open spec fn obeys_eq_spec() -> bool {
        true
    }

    open spec fn eq_spec(&self, other: &Self) -> bool {
        self@ == other@
    }
}

/// Borrowed secret-key view: a non-owning reference whose length was checked
/// against a handle where it came out of [`Sig`]'s validating constructors.
#[derive(Clone, Copy, Debug)]
pub struct SecretKeyRef<'a> {
    bytes: &'a [u8],
}

impl<'a> View for SecretKeyRef<'a> {
    type V = Seq<u8>;

    closed spec fn view(&self) -> Seq<u8> {
        self.bytes@
    }
}

impl<'a> SecretKeyRef<'a> {
    /// Clone this into the owned variant.
    pub fn to_owned(self) -> (r: SecretKey)
        ensures
            r@ == self@,
    {
        SecretKey { bytes: slice_to_vec(self.bytes) }
    }

    /// Borrow the underlying bytes.
    pub fn as_bytes(&self) -> (r: &'a [u8])
        ensures
            r@ == self@,
    {
        self.bytes
    }

    /// Length in bytes.
    pub fn len(&self) -> (r: usize)
        ensures
            r == self@.len(),
    {
        self.bytes.len()
    }

    /// True if the view is empty.
    pub fn is_empty(&self) -> (r: bool)
        ensures
            r <==> self@.len() == 0,
    {
        self.bytes.len() == 0
    }
}

/// Owned signature buffer.
///
/// Produced by engine operations, or wrapped around raw bytes; whether the
/// contents fit a given algorithm is checked where the buffer meets a handle.
#[derive(Clone, Debug)]
pub struct Signature {
    bytes: Vec<u8>,
}

impl View for Signature {
    type V = Seq<u8>;

    closed spec fn view(&self) -> Seq<u8> {
        self.bytes@
    }
}

impl Signature {
    /// Wrap an owned byte vector.
    pub fn from_vec(bytes: Vec<u8>) -> (r: Signature)
        ensures
            r@ == bytes@,
    {
        Signature { bytes }
    }

    /// Obtain the contained vector.
    pub fn into_vec(self) -> (r: Vec<u8>)
        ensures
            r@ == self@,
    {
        self.bytes
    }

    /// Borrow the contained bytes.
    pub fn as_bytes(&self) -> (r: &[u8])
        ensures
            r@ == self@,
    {
        self.bytes.as_slice()
    }

    /// Borrowed view of this buffer.
    pub fn as_borrowed<'a>(&'a self) -> (r: SignatureRef<'a>)
        ensures
            r@ == self@,
    {
        SignatureRef { bytes: self.bytes.as_slice() }
    }

    /// Length in bytes.
    pub fn len(&self) -> (r: usize)
        ensures
            r == self@.len(),
    {
        self.bytes.len()
    }

    /// True if the buffer is empty.
    pub fn is_empty(&self) -> (r: bool)
        ensures
            r <==> self@.len() == 0,
    {
        self.bytes.len() == 0
    }
}

impl PartialEq for Signature {
    fn eq(&self, other: &Self) -> bool {
        crate::bytes_eq(self.bytes.as_slice(), other.bytes.as_slice())
    }
}

impl vstd::std_specs::cmp::PartialEqSpecImpl for Signature {
    open spec fn obeys_eq_spec() -> bool {
        true
    }

    open spec fn eq_spec(&self, other: &Self) -> bool {
        self@ == other@
    }
}

/// Borrowed signature view: a non-owning reference whose length was checked
/// against a handle where it came out of [`Sig`]'s validating constructors.
#[derive(Clone, Copy, Debug)]
pub struct SignatureRef<'a> {
    bytes: &'a [u8],
}

impl<'a> View for SignatureRef<'a> {
    type V = Seq<u8>;

    closed spec fn view(&self) -> Seq<u8> {
        self.bytes@
    }
}

impl<'a> SignatureRef<'a> {
    /// Clone this into the owned variant.
    pub fn to_owned(self) -> (r: Signature)
        ensures
            r@ == self@,
    {
        Signature { bytes: slice_to_vec(self.bytes) }
    }

    /// Borrow the underlying bytes.
    pub fn as_bytes(&self) -> (r: &'a [u8])
        ensures
            r@ == self@,
    {
        self.bytes
    }

    /// Length in bytes.
    pub fn len(&self) -> (r: usize)
        ensures
            r == self@.len(),
    {
        self.bytes.len()
    }

    /// True if the view is empty.
    pub fn is_empty(&self) -> (r: bool)
        ensures
            r <==> self@.len() == 0,
    {
        self.bytes.len() == 0
    }
}

/// Signature engine handle.
///
/// Wraps the capability metadata of one enabled algorithm and exposes the
/// signing operations. A handle exists only for an enabled algorithm; it is
/// immutable after construction and safe to share for concurrent reads.
pub struct Sig {
    algorithm: Algorithm,
    version: &'static str,
    claimed_nist_level: u8,
    euf_cma: bool,
    sig_with_ctx_support: bool,
    length_public_key: usize,
    length_secret_key: usize,
    length_signature: usize,
}

impl View for Sig {
    type V = Algorithm;

    closed spec fn view(&self) -> Algorithm {
        self.algorithm
    }
}

impl Sig {
    /// A handle's metadata agrees with the registry of its (enabled) algorithm.
    #[verifier::type_invariant]
    spec fn wf(self) -> bool {
        &&& spec_enabled(self.algorithm)
        &&& self.version@ == spec_version(self.algorithm)
        &&& self.claimed_nist_level == spec_nist_level(self.algorithm)
        &&& self.euf_cma == spec_euf_cma(self.algorithm)
        &&& self.sig_with_ctx_support == spec_ctx_support(self.algorithm)
        &&& self.length_public_key == spec_length_public_key(self.algorithm)
        &&& self.length_secret_key == spec_length_secret_key(self.algorithm)
        &&& self.length_signature == spec_length_signature(self.algorithm)
    }

    /// Construct a handle for an algorithm.
    ///
    /// Succeeds exactly when the algorithm is enabled in the linked engine
    /// build; otherwise fails with [`Error::AlgorithmDisabled`] and no handle
    /// exists.
    pub fn new(algorithm: Algorithm) -> (r: Result<Sig>)
        ensures
            r is Ok <==> spec_enabled(algorithm),
            r matches Ok(k) ==> k@ == algorithm,
            r matches Err(e) ==> e == Error::AlgorithmDisabled,
    {
        match algorithm {
            Algorithm::Dilithium2 => Ok(Sig {
                algorithm,
                version: "3.1",
                claimed_nist_level: 2,
                euf_cma: true,
                sig_with_ctx_support: false,
                length_public_key: 1312,
                length_secret_key: 2528,
                length_signature: 2420,
            }),
            Algorithm::Dilithium3 => Ok(Sig {
                algorithm,
                version: "3.1",
                claimed_nist_level: 3,
                euf_cma: true,
                sig_with_ctx_support: false,
                length_public_key: 1952,
                length_secret_key: 4000,
                length_signature: 3293,
            }),
            Algorithm::Dilithium5 => Ok(Sig {
                algorithm,
                version: "3.1",
                claimed_nist_level: 5,
                euf_cma: true,
                sig_with_ctx_support: false,
                length_public_key: 2592,
                length_secret_key: 4864,
                length_signature: 4595,
            }),
            Algorithm::MlDsa44 => Ok(Sig {
                algorithm,
                version: "FIPS 204",
                claimed_nist_level: 2,
                euf_cma: true,
                sig_with_ctx_support: true,
                length_public_key: 1312,
                length_secret_key: 2560,
                length_signature: 2420,
            }),
            Algorithm::MlDsa65 => Ok(Sig {
                algorithm,
                version: "FIPS 204",
                claimed_nist_level: 3,
                euf_cma: true,
                sig_with_ctx_support: true,
                length_public_key: 1952,
                length_secret_key: 4032,
                length_signature: 3309,
            }),
            Algorithm::MlDsa87 => Ok(Sig {
                algorithm,
                version: "FIPS 204",
                claimed_nist_level: 5,
                euf_cma: true,
                sig_with_ctx_support: true,
                length_public_key: 2592,
                length_secret_key: 4896,
                length_signature: 4627,
            }),
            _ => Err(Error::AlgorithmDisabled),
        }
    }

    /// Get the algorithm used by this `Sig`.
    pub fn algorithm(&self) -> (r: Algorithm)
        ensures
            r == self@,
    {
        self.algorithm
    }

    /// Get the version of the implementation.
    pub fn version(&self) -> (r: &'static str)
        ensures
            r@ == spec_version(self@),
    {
        proof { use_type_invariant(&*self); }
        self.version
    }

    /// Obtain the claimed NIST level.
    pub fn claimed_nist_level(&self) -> (r: u8)
        ensures
            r == spec_nist_level(self@),
    {
        proof { use_type_invariant(&*self); }
        self.claimed_nist_level
    }

    /// Is this algorithm EUF-CMA?
    pub fn is_euf_cma(&self) -> (r: bool)
        ensures
            r == spec_euf_cma(self@),
    {
        proof { use_type_invariant(&*self); }
        self.euf_cma
    }

    /// Does this algorithm support signing with a context string?
    pub fn has_ctx_str_support(&self) -> (r: bool)
        ensures
            r == spec_ctx_support(self@),
    {
        proof { use_type_invariant(&*self); }
        self.sig_with_ctx_support
    }

    /// Length of the public key.
    pub fn length_public_key(&self) -> (r: usize)
        ensures
            r == spec_length_public_key(self@),
    {
        proof { use_type_invariant(&*self); }
        self.length_public_key
    }

    /// Length of the secret key.
    pub fn length_secret_key(&self) -> (r: usize)
        ensures
            r == spec_length_secret_key(self@),
    {
        proof { use_type_invariant(&*self); }
        self.length_secret_key
    }

    /// Maximum length of a signature.
    pub fn length_signature(&self) -> (r: usize)
        ensures
            r == spec_length_signature(self@),
    {
        proof { use_type_invariant(&*self); }
        self.length_signature
    }

    /// Construct a secret-key view from bytes.
    ///
    /// Returns `None` exactly when the slice does not have the secret-key
    /// length this algorithm declares.
    pub fn secret_key_from_bytes<'a>(&self, buf: &'a [u8]) -> (r: Option<SecretKeyRef<'a>>)
        ensures
            r is Some <==> buf@.len() == spec_length_secret_key(self@),
            r matches Some(v) ==> v@ == buf@,
    {
        if buf.len() != self.length_secret_key() {
            None
        } else {
            Some(SecretKeyRef { bytes: buf })
        }
    }

    /// Construct a public-key view from bytes.
    ///
    /// Returns `None` exactly when the slice does not have the public-key
    /// length this algorithm declares.
    pub fn public_key_from_bytes<'a>(&self, buf: &'a [u8]) -> (r: Option<PublicKeyRef<'a>>)
        ensures
            r is Some <==> buf@.len() == spec_length_public_key(self@),
            r matches Some(v) ==> v@ == buf@,
    {
        if buf.len() != self.length_public_key() {
            None
        } else {
            Some(PublicKeyRef { bytes: buf })
        }
    }

    /// Construct a signature view from bytes.
    ///
    /// Signatures are variable-length up to the declared maximum, so the
    /// view exists exactly when the slice is no longer than that maximum.
    pub fn signature_from_bytes<'a>(&self, buf: &'a [u8]) -> (r: Option<SignatureRef<'a>>)
        ensures
            r is Some <==> buf@.len() <= spec_length_signature(self@),
            r matches Some(v) ==> v@ == buf@,
    {
        if buf.len() > self.length_signature() {
            None
        } else {
            Some(SignatureRef { bytes: buf })
        }
    }

    /// Generate a new keypair.
    ///
    /// On success both buffers have exactly the lengths this algorithm
    /// declares and form one matched pair; a backend failure is reported as
    /// [`Error::Error`]. The Dilithium backend's generation cannot fail, so
    /// there success is owed.
    pub fn keypair(&self) -> (r: Result<(PublicKey, SecretKey)>)
        ensures
            r matches Ok(p) ==> p.0@.len() == spec_length_public_key(self@)
                && p.1@.len() == spec_length_secret_key(self@),
            r matches Ok(p) ==> spec_keypair_linked(self@, p.0@, p.1@),
            r matches Err(e) ==> e == Error::Error,
            !spec_ctx_support(self@) ==> r is Ok,
    {
        proof { use_type_invariant(&*self); }
        match self.algorithm {
            Algorithm::Dilithium2 => match dilithium2_keygen() {
                Some(p) => Ok((PublicKey { bytes: p.0 }, SecretKey { bytes: p.1 })),
                None => Err(Error::Error),
            },
            Algorithm::Dilithium3 => match dilithium3_keygen() {
                Some(p) => Ok((PublicKey { bytes: p.0 }, SecretKey { bytes: p.1 })),
                None => Err(Error::Error),
            },
            Algorithm::Dilithium5 => match dilithium5_keygen() {
                Some(p) => Ok((PublicKey { bytes: p.0 }, SecretKey { bytes: p.1 })),
                None => Err(Error::Error),
            },
            Algorithm::MlDsa44 => match mldsa44_keygen() {
                Some(p) => Ok((PublicKey { bytes: p.0 }, SecretKey { bytes: p.1 })),
                None => Err(Error::Error),
            },
            Algorithm::MlDsa65 => match mldsa65_keygen() {
                Some(p) => Ok((PublicKey { bytes: p.0 }, SecretKey { bytes: p.1 })),
                None => Err(Error::Error),
            },
            Algorithm::MlDsa87 => match mldsa87_keygen() {
                Some(p) => Ok((PublicKey { bytes: p.0 }, SecretKey { bytes: p.1 })),
                None => Err(Error::Error),
            },
            _ => vstd::pervasive::unreached(),
        }
    }

    /// Sign a message.
    ///
    /// A secret key of the wrong length is rejected locally with
    /// [`Error::InvalidLength`], before any engine call. On success the
    /// signature is no longer than the declared maximum and verifies (with
    /// an empty context) under any public key matched with this secret key:
    /// the scheme's round trip. For the deterministic Dilithium schemes the
    /// result is owed and is exactly the signature named by
    /// [`spec_deterministic_signature`].
    pub fn sign<'a>(&self, message: &[u8], sk: SecretKeyRef<'a>) -> (r: Result<Signature>)
        ensures
            sk@.len() != spec_length_secret_key(self@)
                ==> (r matches Err(e) && e == Error::InvalidLength),
            sk@.len() == spec_length_secret_key(self@)
                ==> (r matches Err(e) ==> e == Error::Error),
            r matches Ok(s) ==> sk@.len() == spec_length_secret_key(self@)
                && s@.len() == spec_length_signature(self@),
            sk@.len() == spec_length_secret_key(self@) && !spec_ctx_support(self@)
                ==> (r matches Ok(s) && s@ == spec_deterministic_signature(self@, sk@, message@)),
            r matches Ok(s) ==> forall|pk: Seq<u8>|
                #[trigger] spec_keypair_linked(self@, pk, sk@)
                    ==> spec_accepts(self@, pk, message@, s@, Seq::<u8>::empty()),
    {
        proof { use_type_invariant(&*self); }
        if sk.len() != self.length_secret_key() {
            return Err(Error::InvalidLength);
        }
        let empty: [u8; 0] = [];
        let empty_slice = empty.as_slice();
        proof {
            assert(empty_slice@ =~= Seq::<u8>::empty());
        }
        match self.algorithm {
            Algorithm::Dilithium2 => Ok(Signature { bytes: dilithium2_sign(sk.bytes, message) }),
            Algorithm::Dilithium3 => Ok(Signature { bytes: dilithium3_sign(sk.bytes, message) }),
            Algorithm::Dilithium5 => Ok(Signature { bytes: dilithium5_sign(sk.bytes, message) }),
            Algorithm::MlDsa44 => match mldsa44_sign(message, empty_slice, sk.bytes) {
                Some(v) => Ok(Signature { bytes: v }),
                None => Err(Error::Error),
            },
            Algorithm::MlDsa65 => match mldsa65_sign(message, empty_slice, sk.bytes) {
                Some(v) => Ok(Signature { bytes: v }),
                None => Err(Error::Error),
            },
            Algorithm::MlDsa87 => match mldsa87_sign(message, empty_slice, sk.bytes) {
                Some(v) => Ok(Signature { bytes: v }),
                None => Err(Error::Error),
            },
            _ => vstd::pervasive::unreached(),
        }
    }

    /// Sign a message with a context string.
    ///
    /// A secret key of the wrong length is rejected locally with
    /// [`Error::InvalidLength`]. On an algorithm without context-string
    /// support a non-empty context fails with the generic [`Error::Error`]
    /// (the engine has no such entry point), while an empty context signs as
    /// [`Sig::sign`] does. On an algorithm with support, a context longer
    /// than 255 bytes is rejected by the engine itself. A produced signature
    /// verifies under this context and any public key matched with this
    /// secret key: the scheme's round trip.
    pub fn sign_with_ctx_str<'a>(
        &self,
        message: &[u8],
        ctx_str: &[u8],
        sk: SecretKeyRef<'a>,
    ) -> (r: Result<Signature>)
        ensures
            sk@.len() != spec_length_secret_key(self@)
                ==> (r matches Err(e) && e == Error::InvalidLength),
            sk@.len() == spec_length_secret_key(self@)
                ==> (r matches Err(e) ==> e == Error::Error),
            r matches Ok(s) ==> sk@.len() == spec_length_secret_key(self@)
                && s@.len() == spec_length_signature(self@),
            sk@.len() == spec_length_secret_key(self@) && !spec_ctx_support(self@)
                && ctx_str@.len() > 0 ==> (r matches Err(e) && e == Error::Error),
            sk@.len() == spec_length_secret_key(self@) && !spec_ctx_support(self@)
                && ctx_str@.len() == 0
                ==> (r matches Ok(s) && s@ == spec_deterministic_signature(self@, sk@, message@)),
            sk@.len() == spec_length_secret_key(self@) && spec_ctx_support(self@)
                && ctx_str@.len() > 255 ==> r is Err,
            r matches Ok(s) ==> forall|pk: Seq<u8>|
                #[trigger] spec_keypair_linked(self@, pk, sk@)
                    ==> spec_accepts(self@, pk, message@, s@, ctx_str@),
    {
        proof { use_type_invariant(&*self); }
        if sk.len() != self.length_secret_key() {
            return Err(Error::InvalidLength);
        }
        match self.algorithm {
            Algorithm::Dilithium2 => {
                if ctx_str.len() > 0 {
                    Err(Error::Error)
                } else {
                    Ok(Signature { bytes: dilithium2_sign(sk.bytes, message) })
                }
            },
            Algorithm::Dilithium3 => {
                if ctx_str.len() > 0 {
                    Err(Error::Error)
                } else {
                    Ok(Signature { bytes: dilithium3_sign(sk.bytes, message) })
                }
            },
            Algorithm::Dilithium5 => {
                if ctx_str.len() > 0 {
                    Err(Error::Error)
                } else {
                    Ok(Signature { bytes: dilithium5_sign(sk.bytes, message) })
                }
            },
            Algorithm::MlDsa44 => match mldsa44_sign(message, ctx_str, sk.bytes) {
                Some(v) => Ok(Signature { bytes: v }),
                None => Err(Error::Error),
            },
            Algorithm::MlDsa65 => match mldsa65_sign(message, ctx_str, sk.bytes) {
                Some(v) => Ok(Signature { bytes: v }),
                None => Err(Error::Error),
            },
            Algorithm::MlDsa87 => match mldsa87_sign(message, ctx_str, sk.bytes) {
                Some(v) => Ok(Signature { bytes: v }),
                None => Err(Error::Error),
            },
            _ => vstd::pervasive::unreached(),
        }
    }

    /// Verify a message.
    ///
    /// Wrong-length buffers are rejected locally with
    /// [`Error::InvalidLength`], before any engine call. With valid lengths
    /// the call succeeds exactly when the engine accepts the signature, as
    /// named by [`spec_accepts`] with an empty context.
    pub fn verify<'a, 'b>(
        &self,
        message: &[u8],
        signature: SignatureRef<'a>,
        pk: PublicKeyRef<'b>,
    ) -> (r: Result<()>)
        ensures
            (signature@.len() > spec_length_signature(self@)
                || pk@.len() != spec_length_public_key(self@))
                ==> (r matches Err(e) && e == Error::InvalidLength),
            signature@.len() <= spec_length_signature(self@)
                && pk@.len() == spec_length_public_key(self@)
                ==> (r is Ok <==> spec_accepts(self@, pk@, message@, signature@, Seq::<u8>::empty())),
            signature@.len() <= spec_length_signature(self@)
                && pk@.len() == spec_length_public_key(self@)
                ==> (r matches Err(e) ==> e == Error::Error),
    {
        proof { use_type_invariant(&*self); }
        if signature.len() > self.length_signature() || pk.len() != self.length_public_key() {
            return Err(Error::InvalidLength);
        }
        let empty: [u8; 0] = [];
        let empty_slice = empty.as_slice();
        proof {
            assert(empty_slice@ =~= Seq::<u8>::empty());
        }
        match self.algorithm {
            Algorithm::Dilithium2 => {
                if dilithium2_verify(pk.bytes, message, signature.bytes) {
                    Ok(())
                } else {
                    Err(Error::Error)
                }
            },
            Algorithm::Dilithium3 => {
                if dilithium3_verify(pk.bytes, message, signature.bytes) {
                    Ok(())
                } else {
                    Err(Error::Error)
                }
            },
            Algorithm::Dilithium5 => {
                if dilithium5_verify(pk.bytes, message, signature.bytes) {
                    Ok(())
                } else {
                    Err(Error::Error)
                }
            },
            Algorithm::MlDsa44 => {
                if signature.len() != 2420 {
                    Err(Error::Error)
                } else if mldsa44_verify(pk.bytes, message, signature.bytes, empty_slice) {
                    Ok(())
                } else {
                    Err(Error::Error)
                }
            },
            Algorithm::MlDsa65 => {
                if signature.len() != 3309 {
                    Err(Error::Error)
                } else if mldsa65_verify(pk.bytes, message, signature.bytes, empty_slice) {
                    Ok(())
                } else {
                    Err(Error::Error)
                }
            },
            Algorithm::MlDsa87 => {
                if signature.len() != 4627 {
                    Err(Error::Error)
                } else if mldsa87_verify(pk.bytes, message, signature.bytes, empty_slice) {
                    Ok(())
                } else {
                    Err(Error::Error)
                }
            },
            _ => vstd::pervasive::unreached(),
        }
    }

    /// Verify a message with a context string.
    ///
    /// Wrong-length buffers are rejected locally with
    /// [`Error::InvalidLength`]. With valid lengths the call succeeds exactly
    /// when the engine accepts the signature under this context, as named by
    /// [`spec_accepts`]; on an algorithm without context-string support a
    /// non-empty context therefore fails with the generic [`Error::Error`].
    pub fn verify_with_ctx_str<'a, 'b>(
        &self,
        message: &[u8],
        signature: SignatureRef<'a>,
        ctx_str: &[u8],
        pk: PublicKeyRef<'b>,
    ) -> (r: Result<()>)
        ensures
            (signature@.len() > spec_length_signature(self@)
                || pk@.len() != spec_length_public_key(self@))
                ==> (r matches Err(e) && e == Error::InvalidLength),
            signature@.len() <= spec_length_signature(self@)
                && pk@.len() == spec_length_public_key(self@)
                ==> (r is Ok <==> spec_accepts(self@, pk@, message@, signature@, ctx_str@)),
            signature@.len() <= spec_length_signature(self@)
                && pk@.len() == spec_length_public_key(self@)
                ==> (r matches Err(e) ==> e == Error::Error),
            signature@.len() <= spec_length_signature(self@)
                && pk@.len() == spec_length_public_key(self@)
                && !spec_ctx_support(self@) && ctx_str@.len() > 0
                ==> (r matches Err(e) && e == Error::Error),
    {
        proof { use_type_invariant(&*self); }
        if signature.len() > self.length_signature() || pk.len() != self.length_public_key() {
            return Err(Error::InvalidLength);
        }
        match self.algorithm {
            Algorithm::Dilithium2 => {
                if ctx_str.len() > 0 {
                    Err(Error::Error)
                } else if dilithium2_verify(pk.bytes, message, signature.bytes) {
                    Ok(())
                } else {
                    Err(Error::Error)
                }
            },
            Algorithm::Dilithium3 => {
                if ctx_str.len() > 0 {
                    Err(Error::Error)
                } else if dilithium3_verify(pk.bytes, message, signature.bytes) {
                    Ok(())
                } else {
                    Err(Error::Error)
                }
            },
            Algorithm::Dilithium5 => {
                if ctx_str.len() > 0 {
                    Err(Error::Error)
                } else if dilithium5_verify(pk.bytes, message, signature.bytes) {
                    Ok(())
                } else {
                    Err(Error::Error)
                }
            },
            Algorithm::MlDsa44 => {
                if signature.len() != 2420 {
                    Err(Error::Error)
                } else if mldsa44_verify(pk.bytes, message, signature.bytes, ctx_str) {
                    Ok(())
                } else {
                    Err(Error::Error)
                }
            },
            Algorithm::MlDsa65 => {
                if signature.len() != 3309 {
                    Err(Error::Error)
                } else if mldsa65_verify(pk.bytes, message, signature.bytes, ctx_str) {
                    Ok(())
                } else {
                    Err(Error::Error)
                }
            },
            Algorithm::MlDsa87 => {
                if signature.len() != 4627 {
                    Err(Error::Error)
                } else if mldsa87_verify(pk.bytes, message, signature.bytes, ctx_str) {
                    Ok(())
                } else {
                    Err(Error::Error)
                }
            },
            _ => vstd::pervasive::unreached(),
        }
    }
}

/// Whether a public/secret key pair can come out of Dilithium2 generation
/// together; such pairs satisfy the scheme's correctness property.
pub uninterp spec fn dilithium2_keypair_linked(pk: Seq<u8>, sk: Seq<u8>) -> bool;

/// Whether a public/secret key pair can come out of Dilithium3 generation
/// together; such pairs satisfy the scheme's correctness property.
pub uninterp spec fn dilithium3_keypair_linked(pk: Seq<u8>, sk: Seq<u8>) -> bool;

/// Whether a public/secret key pair can come out of Dilithium5 generation
/// together; such pairs satisfy the scheme's correctness property.
pub uninterp spec fn dilithium5_keypair_linked(pk: Seq<u8>, sk: Seq<u8>) -> bool;

/// Whether a public/secret key pair can come out of ML-DSA-44 generation
/// together; such pairs satisfy the scheme's correctness property.
pub uninterp spec fn mldsa44_keypair_linked(pk: Seq<u8>, sk: Seq<u8>) -> bool;

/// Whether a public/secret key pair can come out of ML-DSA-65 generation
/// together; such pairs satisfy the scheme's correctness property.
pub uninterp spec fn mldsa65_keypair_linked(pk: Seq<u8>, sk: Seq<u8>) -> bool;

/// Whether a public/secret key pair can come out of ML-DSA-87 generation
/// together; such pairs satisfy the scheme's correctness property.
pub uninterp spec fn mldsa87_keypair_linked(pk: Seq<u8>, sk: Seq<u8>) -> bool;

/// Whether a public/secret key pair belongs to one generation run of the
/// enabled algorithm.
pub open spec fn spec_keypair_linked(a: Algorithm, pk: Seq<u8>, sk: Seq<u8>) -> bool {
    match a {
        Algorithm::Dilithium2 => dilithium2_keypair_linked(pk, sk),
        Algorithm::Dilithium3 => dilithium3_keypair_linked(pk, sk),
        Algorithm::Dilithium5 => dilithium5_keypair_linked(pk, sk),
        Algorithm::MlDsa44 => mldsa44_keypair_linked(pk, sk),
        Algorithm::MlDsa65 => mldsa65_keypair_linked(pk, sk),
        Algorithm::MlDsa87 => mldsa87_keypair_linked(pk, sk),
        _ => false,
    }
}

/// What the deterministic Dilithium2 signing returns for key and message bytes.
pub uninterp spec fn dilithium2_sign_result(sk: Seq<u8>, msg: Seq<u8>) -> Seq<u8>;

/// What Dilithium2 verification returns for key, message and signature bytes.
pub uninterp spec fn dilithium2_verify_result(pk: Seq<u8>, msg: Seq<u8>, sig: Seq<u8>) -> bool;

/// What the deterministic Dilithium3 signing returns for key and message bytes.
pub uninterp spec fn dilithium3_sign_result(sk: Seq<u8>, msg: Seq<u8>) -> Seq<u8>;

/// What Dilithium3 verification returns for key, message and signature bytes.
pub uninterp spec fn dilithium3_verify_result(pk: Seq<u8>, msg: Seq<u8>, sig: Seq<u8>) -> bool;

/// What the deterministic Dilithium5 signing returns for key and message bytes.
pub uninterp spec fn dilithium5_sign_result(sk: Seq<u8>, msg: Seq<u8>) -> Seq<u8>;

/// What Dilithium5 verification returns for key, message and signature bytes.
pub uninterp spec fn dilithium5_verify_result(pk: Seq<u8>, msg: Seq<u8>, sig: Seq<u8>) -> bool;

/// What ML-DSA-44 verification returns for key, message, signature and context bytes.
pub uninterp spec fn mldsa44_verify_result(pk: Seq<u8>, msg: Seq<u8>, sig: Seq<u8>, ctx: Seq<u8>) -> bool;

/// What ML-DSA-65 verification returns for key, message, signature and context bytes.
pub uninterp spec fn mldsa65_verify_result(pk: Seq<u8>, msg: Seq<u8>, sig: Seq<u8>, ctx: Seq<u8>) -> bool;

/// What ML-DSA-87 verification returns for key, message, signature and context bytes.
pub uninterp spec fn mldsa87_verify_result(pk: Seq<u8>, msg: Seq<u8>, sig: Seq<u8>, ctx: Seq<u8>) -> bool;

/// The deterministic signature an enabled algorithm without context-string
/// support produces for given key and message bytes.
pub open spec fn spec_deterministic_signature(a: Algorithm, sk: Seq<u8>, msg: Seq<u8>) -> Seq<u8> {
    match a {
        Algorithm::Dilithium2 => dilithium2_sign_result(sk, msg),
        Algorithm::Dilithium3 => dilithium3_sign_result(sk, msg),
        Algorithm::Dilithium5 => dilithium5_sign_result(sk, msg),
        _ => Seq::<u8>::empty(),
    }
}

/// Whether the engine accepts a signature over a message under a public key
/// and context, per enabled algorithm.
///
/// Verification is deterministic in its byte inputs, so the outcome has a
/// name even though only the engine can compute it. The linked schemes
/// produce signatures of one exact length, and an algorithm without
/// context-string support accepts no non-empty context.
pub open spec fn spec_accepts(
    a: Algorithm,
    pk: Seq<u8>,
    msg: Seq<u8>,
    sig: Seq<u8>,
    ctx: Seq<u8>,
) -> bool {
    match a {
        Algorithm::Dilithium2 => ctx.len() == 0 && dilithium2_verify_result(pk, msg, sig),
        Algorithm::Dilithium3 => ctx.len() == 0 && dilithium3_verify_result(pk, msg, sig),
        Algorithm::Dilithium5 => ctx.len() == 0 && dilithium5_verify_result(pk, msg, sig),
        Algorithm::MlDsa44 => sig.len() == 2420 && mldsa44_verify_result(pk, msg, sig, ctx),
        Algorithm::MlDsa65 => sig.len() == 3309 && mldsa65_verify_result(pk, msg, sig, ctx),
        Algorithm::MlDsa87 => sig.len() == 4627 && mldsa87_verify_result(pk, msg, sig, ctx),
        _ => false,
    }
}

/// Relies on crystals_dilithium `dilithium2::Keypair::generate`: with no
/// caller-supplied entropy it cannot fail, the keys serialize to 1312 and
/// 2528 bytes, and the pair comes out of one generation run, which the
/// correctness property of the scheme holds of.
#[verifier::external_body]
fn dilithium2_keygen() -> (r: Option<(Vec<u8>, Vec<u8>)>)
    ensures
        r is Some,
        r matches Some(p) ==> p.0@.len() == 1312 && p.1@.len() == 2528,
        r matches Some(p) ==> dilithium2_keypair_linked(p.0@, p.1@),
{
    match crystals_dilithium::dilithium2::Keypair::generate(None) {
        Ok(kp) => Some((kp.public.to_bytes().to_vec(), kp.secret.to_bytes().to_vec())),
        Err(_) => None,
    }
}

/// Relies on crystals_dilithium `dilithium2::SecretKey::{from_bytes, sign}`:
/// signing is deterministic in the key and message bytes and returns a
/// 2420-byte signature. Per the scheme's correctness property, the signature
/// verifies under any public key generated with this secret key.
#[verifier::external_body]
fn dilithium2_sign(sk: &[u8], msg: &[u8]) -> (r: Vec<u8>)
    requires
        sk@.len() == 2528,
    ensures
        r@.len() == 2420,
        r@ == dilithium2_sign_result(sk@, msg@),
        forall|pk: Seq<u8>| #[trigger] dilithium2_keypair_linked(pk, sk@)
            ==> dilithium2_verify_result(pk, msg@, r@),
{
    let key = crystals_dilithium::dilithium2::SecretKey::from_bytes(sk).unwrap();
    key.sign(msg).to_vec()
}

/// Relies on crystals_dilithium `dilithium2::PublicKey::{from_bytes, verify}`:
/// verification is deterministic in the key, message and signature bytes,
/// and a signature that is not exactly 2420 bytes long is rejected.
#[verifier::external_body]
fn dilithium2_verify(pk: &[u8], msg: &[u8], sig: &[u8]) -> (r: bool)
    requires
        pk@.len() == 1312,
    ensures
        r == dilithium2_verify_result(pk@, msg@, sig@),
        sig@.len() != 2420 ==> !r,
{
    let key = crystals_dilithium::dilithium2::PublicKey::from_bytes(pk).unwrap();
    key.verify(msg, sig)
}

/// Relies on crystals_dilithium `dilithium3::Keypair::generate`: with no
/// caller-supplied entropy it cannot fail, the keys serialize to 1952 and
/// 4000 bytes, and the pair comes out of one generation run, which the
/// correctness property of the scheme holds of.
#[verifier::external_body]
fn dilithium3_keygen() -> (r: Option<(Vec<u8>, Vec<u8>)>)
    ensures
        r is Some,
        r matches Some(p) ==> p.0@.len() == 1952 && p.1@.len() == 4000,
        r matches Some(p) ==> dilithium3_keypair_linked(p.0@, p.1@),
{
    match crystals_dilithium::dilithium3::Keypair::generate(None) {
        Ok(kp) => Some((kp.public.to_bytes().to_vec(), kp.secret.to_bytes().to_vec())),
        Err(_) => None,
    }
}

/// Relies on crystals_dilithium `dilithium3::SecretKey::{from_bytes, sign}`:
/// signing is deterministic in the key and message bytes and returns a
/// 3293-byte signature. Per the scheme's correctness property, the signature
/// verifies under any public key generated with this secret key.
#[verifier::external_body]
fn dilithium3_sign(sk: &[u8], msg: &[u8]) -> (r: Vec<u8>)
    requires
        sk@.len() == 4000,
    ensures
        r@.len() == 3293,
        r@ == dilithium3_sign_result(sk@, msg@),
        forall|pk: Seq<u8>| #[trigger] dilithium3_keypair_linked(pk, sk@)
            ==> dilithium3_verify_result(pk, msg@, r@),
{
    let key = crystals_dilithium::dilithium3::SecretKey::from_bytes(sk).unwrap();
    key.sign(msg).to_vec()
}

/// Relies on crystals_dilithium `dilithium3::PublicKey::{from_bytes, verify}`:
/// verification is deterministic in the key, message and signature bytes,
/// and a signature that is not exactly 3293 bytes long is rejected.
#[verifier::external_body]
fn dilithium3_verify(pk: &[u8], msg: &[u8], sig: &[u8]) -> (r: bool)
    requires
        pk@.len() == 1952,
    ensures
        r == dilithium3_verify_result(pk@, msg@, sig@),
        sig@.len() != 3293 ==> !r,
{
    let key = crystals_dilithium::dilithium3::PublicKey::from_bytes(pk).unwrap();
    key.verify(msg, sig)
}

/// Relies on crystals_dilithium `dilithium5::Keypair::generate`: with no
/// caller-supplied entropy it cannot fail, the keys serialize to 2592 and
/// 4864 bytes, and the pair comes out of one generation run, which the
/// correctness property of the scheme holds of.
#[verifier::external_body]
fn dilithium5_keygen() -> (r: Option<(Vec<u8>, Vec<u8>)>)
    ensures
        r is Some,
        r matches Some(p) ==> p.0@.len() == 2592 && p.1@.len() == 4864,
        r matches Some(p) ==> dilithium5_keypair_linked(p.0@, p.1@),
{
    match crystals_dilithium::dilithium5::Keypair::generate(None) {
        Ok(kp) => Some((kp.public.to_bytes().to_vec(), kp.secret.to_bytes().to_vec())),
        Err(_) => None,
    }
}

/// Relies on crystals_dilithium `dilithium5::SecretKey::{from_bytes, sign}`:
/// signing is deterministic in the key and message bytes and returns a
/// 4595-byte signature. Per the scheme's correctness property, the signature
/// verifies under any public key generated with this secret key.
#[verifier::external_body]
fn dilithium5_sign(sk: &[u8], msg: &[u8]) -> (r: Vec<u8>)
    requires
        sk@.len() == 4864,
    ensures
        r@.len() == 4595,
        r@ == dilithium5_sign_result(sk@, msg@),
        forall|pk: Seq<u8>| #[trigger] dilithium5_keypair_linked(pk, sk@)
            ==> dilithium5_verify_result(pk, msg@, r@),
{
    let key = crystals_dilithium::dilithium5::SecretKey::from_bytes(sk).unwrap();
    key.sign(msg).to_vec()
}

/// Relies on crystals_dilithium `dilithium5::PublicKey::{from_bytes, verify}`:
/// verification is deterministic in the key, message and signature bytes,
/// and a signature that is not exactly 4595 bytes long is rejected.
#[verifier::external_body]
fn dilithium5_verify(pk: &[u8], msg: &[u8], sig: &[u8]) -> (r: bool)
    requires
        pk@.len() == 2592,
    ensures
        r == dilithium5_verify_result(pk@, msg@, sig@),
        sig@.len() != 4595 ==> !r,
{
    let key = crystals_dilithium::dilithium5::PublicKey::from_bytes(pk).unwrap();
    key.verify(msg, sig)
}

/// Relies on fips204 `ml_dsa_44::try_keygen`: on success the pair serializes to
/// a 1312-byte public key and a 2560-byte private key, and the pair comes
/// out of one generation run, which the correctness property of the scheme
/// holds of. The result also depends on the OS random number generator.
#[verifier::external_body]
fn mldsa44_keygen() -> (r: Option<(Vec<u8>, Vec<u8>)>)
    ensures
        r matches Some(p) ==> p.0@.len() == 1312 && p.1@.len() == 2560,
        r matches Some(p) ==> mldsa44_keypair_linked(p.0@, p.1@),
{
    match fips204::ml_dsa_44::try_keygen() {
        Ok((pk, sk)) => Some((pk.into_bytes().to_vec(), sk.into_bytes().to_vec())),
        Err(_) => None,
    }
}

/// Relies on fips204 `ml_dsa_44::PrivateKey::{try_from_bytes, try_sign}`: on
/// success the signature is 2420 bytes; a context longer than 255 bytes is
/// an error. The result also depends on the OS random number generator. Per
/// the scheme's correctness property, the signature verifies under this
/// context and any public key generated with this secret key.
#[verifier::external_body]
fn mldsa44_sign(msg: &[u8], ctx: &[u8], sk: &[u8]) -> (r: Option<Vec<u8>>)
    requires
        sk@.len() == 2560,
    ensures
        r matches Some(s) ==> s@.len() == 2420,
        ctx@.len() > 255 ==> r is None,
        r matches Some(s) ==> forall|pk: Seq<u8>| #[trigger] mldsa44_keypair_linked(pk, sk@)
            ==> mldsa44_verify_result(pk, msg@, s@, ctx@),
{
    let arr: [u8; 2560] = sk.try_into().unwrap();
    let key = match fips204::ml_dsa_44::PrivateKey::try_from_bytes(arr) { Ok(k) => k, Err(_) => return None };
    match key.try_sign(msg, ctx) {
        Ok(sig) => Some(sig.to_vec()),
        Err(_) => None,
    }
}

/// Relies on fips204 `ml_dsa_44::PublicKey::{try_from_bytes, verify}`:
/// verification is deterministic in the key, message, signature and context
/// bytes, and a context longer than 255 bytes is rejected.
#[verifier::external_body]
fn mldsa44_verify(pk: &[u8], msg: &[u8], sig: &[u8], ctx: &[u8]) -> (r: bool)
    requires
        pk@.len() == 1312,
        sig@.len() == 2420,
    ensures
        r == mldsa44_verify_result(pk@, msg@, sig@, ctx@),
        ctx@.len() > 255 ==> !r,
{
    let pk_arr: [u8; 1312] = pk.try_into().unwrap();
    let sig_arr: [u8; 2420] = sig.try_into().unwrap();
    match fips204::ml_dsa_44::PublicKey::try_from_bytes(pk_arr) {
        Ok(key) => key.verify(msg, &sig_arr, ctx),
        Err(_) => false,
    }
}

/// Relies on fips204 `ml_dsa_65::try_keygen`: on success the pair serializes to
/// a 1952-byte public key and a 4032-byte private key, and the pair comes
/// out of one generation run, which the correctness property of the scheme
/// holds of. The result also depends on the OS random number generator.
#[verifier::external_body]
fn mldsa65_keygen() -> (r: Option<(Vec<u8>, Vec<u8>)>)
    ensures
        r matches Some(p) ==> p.0@.len() == 1952 && p.1@.len() == 4032,
        r matches Some(p) ==> mldsa65_keypair_linked(p.0@, p.1@),
{
    match fips204::ml_dsa_65::try_keygen() {
        Ok((pk, sk)) => Some((pk.into_bytes().to_vec(), sk.into_bytes().to_vec())),
        Err(_) => None,
    }
}

/// Relies on fips204 `ml_dsa_65::PrivateKey::{try_from_bytes, try_sign}`: on
/// success the signature is 3309 bytes; a context longer than 255 bytes is
/// an error. The result also depends on the OS random number generator. Per
/// the scheme's correctness property, the signature verifies under this
/// context and any public key generated with this secret key.
#[verifier::external_body]
fn mldsa65_sign(msg: &[u8], ctx: &[u8], sk: &[u8]) -> (r: Option<Vec<u8>>)
    requires
        sk@.len() == 4032,
    ensures
        r matches Some(s) ==> s@.len() == 3309,
        ctx@.len() > 255 ==> r is None,
        r matches Some(s) ==> forall|pk: Seq<u8>| #[trigger] mldsa65_keypair_linked(pk, sk@)
            ==> mldsa65_verify_result(pk, msg@, s@, ctx@),
{
    let arr: [u8; 4032] = sk.try_into().unwrap();
    let key = match fips204::ml_dsa_65::PrivateKey::try_from_bytes(arr) { Ok(k) => k, Err(_) => return None };
    match key.try_sign(msg, ctx) {
        Ok(sig) => Some(sig.to_vec()),
        Err(_) => None,
    }
}

/// Relies on fips204 `ml_dsa_65::PublicKey::{try_from_bytes, verify}`:
/// verification is deterministic in the key, message, signature and context
/// bytes, and a context longer than 255 bytes is rejected.
#[verifier::external_body]
fn mldsa65_verify(pk: &[u8], msg: &[u8], sig: &[u8], ctx: &[u8]) -> (r: bool)
    requires
        pk@.len() == 1952,
        sig@.len() == 3309,
    ensures
        r == mldsa65_verify_result(pk@, msg@, sig@, ctx@),
        ctx@.len() > 255 ==> !r,
{
    let pk_arr: [u8; 1952] = pk.try_into().unwrap();
    let sig_arr: [u8; 3309] = sig.try_into().unwrap();
    match fips204::ml_dsa_65::PublicKey::try_from_bytes(pk_arr) {
        Ok(key) => key.verify(msg, &sig_arr, ctx),
        Err(_) => false,
    }
}

/// Relies on fips204 `ml_dsa_87::try_keygen`: on success the pair serializes to
/// a 2592-byte public key and a 4896-byte private key, and the pair comes
/// out of one generation run, which the correctness property of the scheme
/// holds of. The result also depends on the OS random number generator.
#[verifier::external_body]
fn mldsa87_keygen() -> (r: Option<(Vec<u8>, Vec<u8>)>)
    ensures
        r matches Some(p) ==> p.0@.len() == 2592 && p.1@.len() == 4896,
        r matches Some(p) ==> mldsa87_keypair_linked(p.0@, p.1@),
{
    match fips204::ml_dsa_87::try_keygen() {
        Ok((pk, sk)) => Some((pk.into_bytes().to_vec(), sk.into_bytes().to_vec())),
        Err(_) => None,
    }
}

/// Relies on fips204 `ml_dsa_87::PrivateKey::{try_from_bytes, try_sign}`: on
/// success the signature is 4627 bytes; a context longer than 255 bytes is
/// an error. The result also depends on the OS random number generator. Per
/// the scheme's correctness property, the signature verifies under this
/// context and any public key generated with this secret key.
#[verifier::external_body]
fn mldsa87_sign(msg: &[u8], ctx: &[u8], sk: &[u8]) -> (r: Option<Vec<u8>>)
    requires
        sk@.len() == 4896,
    ensures
        r matches Some(s) ==> s@.len() == 4627,
        ctx@.len() > 255 ==> r is None,
        r matches Some(s) ==> forall|pk: Seq<u8>| #[trigger] mldsa87_keypair_linked(pk, sk@)
            ==> mldsa87_verify_result(pk, msg@, s@, ctx@),
{
    let arr: [u8; 4896] = sk.try_into().unwrap();
    let key = match fips204::ml_dsa_87::PrivateKey::try_from_bytes(arr) { Ok(k) => k, Err(_) => return None };
    match key.try_sign(msg, ctx) {
        Ok(sig) => Some(sig.to_vec()),
        Err(_) => None,
    }
}

/// Relies on fips204 `ml_dsa_87::PublicKey::{try_from_bytes, verify}`:
/// verification is deterministic in the key, message, signature and context
/// bytes, and a context longer than 255 bytes is rejected.
#[verifier::external_body]
fn mldsa87_verify(pk: &[u8], msg: &[u8], sig: &[u8], ctx: &[u8]) -> (r: bool)
    requires
        pk@.len() == 2592,
        sig@.len() == 4627,
    ensures
        r == mldsa87_verify_result(pk@, msg@, sig@, ctx@),
        ctx@.len() > 255 ==> !r,
{
    let pk_arr: [u8; 2592] = pk.try_into().unwrap();
    let sig_arr: [u8; 4627] = sig.try_into().unwrap();
    match fips204::ml_dsa_87::PublicKey::try_from_bytes(pk_arr) {
        Ok(key) => key.verify(msg, &sig_arr, ctx),
        Err(_) => false,
    }
}

} // verus!
