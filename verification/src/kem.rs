//! KEM API.
//!
//! See [`Kem`] for the main functionality.
//! [`Algorithm`] lists the available algorithms.

use vstd::prelude::*;

use fips203::traits::{Decaps, Encaps, KeyGen, SerDes};

use crate::Error;
use crate::Result;

verus! {

use vstd::slice::slice_to_vec;

/// Supported KEM algorithms.
///
/// Every tag maps to a fixed identifier string, but a tag being listed here
/// does not mean the algorithm is enabled in the linked engine build: see
/// [`Algorithm::is_enabled`].
#[derive(Clone, Copy, Debug, Eq, PartialEq, Hash, Structural)]
#[allow(missing_docs)]
pub enum Algorithm {
    BikeL1,
    BikeL3,
    BikeL5,
    ClassicMcEliece348864,
    ClassicMcEliece348864f,
    ClassicMcEliece460896,
    ClassicMcEliece460896f,
    ClassicMcEliece6688128,
    ClassicMcEliece6688128f,
    ClassicMcEliece6960119,
    ClassicMcEliece6960119f,
    ClassicMcEliece8192128,
    ClassicMcEliece8192128f,
    Hqc128,
    Hqc192,
    Hqc256,
    Kyber512,
    Kyber768,
    Kyber1024,
    NtruPrimeSntrup761,
    FrodoKem640Aes,
    FrodoKem640Shake,
    FrodoKem976Aes,
    FrodoKem976Shake,
    FrodoKem1344Aes,
    FrodoKem1344Shake,
    MlKem512,
    MlKem768,
    MlKem1024,
}

/// Which algorithms the linked engine build enables: the three ML-KEM
/// parameter sets supplied by the backend; every other registered tag is
/// compiled out.
pub open spec fn spec_enabled(a: Algorithm) -> bool {
    a is MlKem512 || a is MlKem768 || a is MlKem1024
}

/// The identifier string of each registered algorithm.
pub open spec fn spec_id(a: Algorithm) -> Seq<char> {
    match a {
        Algorithm::BikeL1 => "BIKE-L1"@,
        Algorithm::BikeL3 => "BIKE-L3"@,
        Algorithm::BikeL5 => "BIKE-L5"@,
        Algorithm::ClassicMcEliece348864 => "Classic-McEliece-348864"@,
        Algorithm::ClassicMcEliece348864f => "Classic-McEliece-348864f"@,
        Algorithm::ClassicMcEliece460896 => "Classic-McEliece-460896"@,
        Algorithm::ClassicMcEliece460896f => "Classic-McEliece-460896f"@,
        Algorithm::ClassicMcEliece6688128 => "Classic-McEliece-6688128"@,
        Algorithm::ClassicMcEliece6688128f => "Classic-McEliece-6688128f"@,
        Algorithm::ClassicMcEliece6960119 => "Classic-McEliece-6960119"@,
        Algorithm::ClassicMcEliece6960119f => "Classic-McEliece-6960119f"@,
        Algorithm::ClassicMcEliece8192128 => "Classic-McEliece-8192128"@,
        Algorithm::ClassicMcEliece8192128f => "Classic-McEliece-8192128f"@,
        Algorithm::Hqc128 => "HQC-128"@,
        Algorithm::Hqc192 => "HQC-192"@,
        Algorithm::Hqc256 => "HQC-256"@,
        Algorithm::Kyber512 => "Kyber512"@,
        Algorithm::Kyber768 => "Kyber768"@,
        Algorithm::Kyber1024 => "Kyber1024"@,
        Algorithm::NtruPrimeSntrup761 => "sntrup761"@,
        Algorithm::FrodoKem640Aes => "FrodoKEM-640-AES"@,
        Algorithm::FrodoKem640Shake => "FrodoKEM-640-SHAKE"@,
        Algorithm::FrodoKem976Aes => "FrodoKEM-976-AES"@,
        Algorithm::FrodoKem976Shake => "FrodoKEM-976-SHAKE"@,
        Algorithm::FrodoKem1344Aes => "FrodoKEM-1344-AES"@,
        Algorithm::FrodoKem1344Shake => "FrodoKEM-1344-SHAKE"@,
        Algorithm::MlKem512 => "ML-KEM-512"@,
        Algorithm::MlKem768 => "ML-KEM-768"@,
        Algorithm::MlKem1024 => "ML-KEM-1024"@,
    }
}

/// Version string of the implementation behind each enabled algorithm.
pub open spec fn spec_version(a: Algorithm) -> Seq<char> {
    match a {
        Algorithm::MlKem512 | Algorithm::MlKem768 | Algorithm::MlKem1024 => "FIPS 203"@,
        _ => Seq::<char>::empty(),
    }
}

/// Claimed NIST security level of each enabled algorithm.
pub open spec fn spec_nist_level(a: Algorithm) -> u8 {
    match a {
        Algorithm::MlKem512 => 1,
        Algorithm::MlKem768 => 3,
        Algorithm::MlKem1024 => 5,
        _ => 0,
    }
}

/// IND-CCA security flag of each enabled algorithm.
pub open spec fn spec_ind_cca(a: Algorithm) -> bool {
    spec_enabled(a)
}

/// Public-key length of each enabled algorithm.
pub open spec fn spec_length_public_key(a: Algorithm) -> usize {
    match a {
        Algorithm::MlKem512 => 800,
        Algorithm::MlKem768 => 1184,
        Algorithm::MlKem1024 => 1568,
        _ => 0,
    }
}

/// Secret-key length of each enabled algorithm.
pub open spec fn spec_length_secret_key(a: Algorithm) -> usize {
    match a {
        Algorithm::MlKem512 => 1632,
        Algorithm::MlKem768 => 2400,
        Algorithm::MlKem1024 => 3168,
        _ => 0,
    }
}

/// Ciphertext length of each enabled algorithm.
pub open spec fn spec_length_ciphertext(a: Algorithm) -> usize {
    match a {
        Algorithm::MlKem512 => 768,
        Algorithm::MlKem768 => 1088,
        Algorithm::MlKem1024 => 1568,
        _ => 0,
    }
}

/// Shared-secret length of each enabled algorithm.
pub open spec fn spec_length_shared_secret(a: Algorithm) -> usize {
    match a {
        Algorithm::MlKem512 => 32,
        Algorithm::MlKem768 => 32,
        Algorithm::MlKem1024 => 32,
        _ => 0,
    }
}

/// Exact-match lookup of an algorithm tag by its identifier string.
pub open spec fn spec_from_name(s: Seq<char>) -> Option<Algorithm> {
    if s == "BIKE-L1"@ {
        Some(Algorithm::BikeL1)
    } else if s == "BIKE-L3"@ {
        Some(Algorithm::BikeL3)
    } else if s == "BIKE-L5"@ {
        Some(Algorithm::BikeL5)
    } else if s == "Classic-McEliece-348864"@ {
        Some(Algorithm::ClassicMcEliece348864)
    } else if s == "Classic-McEliece-348864f"@ {
        Some(Algorithm::ClassicMcEliece348864f)
    } else if s == "Classic-McEliece-460896"@ {
        Some(Algorithm::ClassicMcEliece460896)
    } else if s == "Classic-McEliece-460896f"@ {
        Some(Algorithm::ClassicMcEliece460896f)
    } else if s == "Classic-McEliece-6688128"@ {
        Some(Algorithm::ClassicMcEliece6688128)
    } else if s == "Classic-McEliece-6688128f"@ {
        Some(Algorithm::ClassicMcEliece6688128f)
    } else if s == "Classic-McEliece-6960119"@ {
        Some(Algorithm::ClassicMcEliece6960119)
    } else if s == "Classic-McEliece-6960119f"@ {
        Some(Algorithm::ClassicMcEliece6960119f)
    } else if s == "Classic-McEliece-8192128"@ {
        Some(Algorithm::ClassicMcEliece8192128)
    } else if s == "Classic-McEliece-8192128f"@ {
        Some(Algorithm::ClassicMcEliece8192128f)
    } else if s == "HQC-128"@ {
        Some(Algorithm::Hqc128)
    } else if s == "HQC-192"@ {
        Some(Algorithm::Hqc192)
    } else if s == "HQC-256"@ {
        Some(Algorithm::Hqc256)
    } else if s == "Kyber512"@ {
        Some(Algorithm::Kyber512)
    } else if s == "Kyber768"@ {
        Some(Algorithm::Kyber768)
    } else if s == "Kyber1024"@ {
        Some(Algorithm::Kyber1024)
    } else if s == "sntrup761"@ {
        Some(Algorithm::NtruPrimeSntrup761)
    } else if s == "FrodoKEM-640-AES"@ {
        Some(Algorithm::FrodoKem640Aes)
    } else if s == "FrodoKEM-640-SHAKE"@ {
        Some(Algorithm::FrodoKem640Shake)
    } else if s == "FrodoKEM-976-AES"@ {
        Some(Algorithm::FrodoKem976Aes)
    } else if s == "FrodoKEM-976-SHAKE"@ {
        Some(Algorithm::FrodoKem976Shake)
    } else if s == "FrodoKEM-1344-AES"@ {
        Some(Algorithm::FrodoKem1344Aes)
    } else if s == "FrodoKEM-1344-SHAKE"@ {
        Some(Algorithm::FrodoKem1344Shake)
    } else if s == "ML-KEM-512"@ {
        Some(Algorithm::MlKem512)
    } else if s == "ML-KEM-768"@ {
        Some(Algorithm::MlKem768)
    } else if s == "ML-KEM-1024"@ {
        Some(Algorithm::MlKem1024)
    } else {
        None
    }
}

impl Algorithm {
    /// Returns true if this algorithm is enabled in the linked engine build.
    pub fn is_enabled(self) -> (r: bool)
        ensures
            r == spec_enabled(self),
    {
        match self {
            Algorithm::MlKem512 | Algorithm::MlKem768 | Algorithm::MlKem1024 => true,
            _ => false,
        }
    }

    /// The identifier of the algorithm, as the engine registry knows it.
    pub fn to_id(self) -> (r: &'static str)
        ensures
            r@ == spec_id(self),
    {
        match self {
            Algorithm::BikeL1 => "BIKE-L1",
            Algorithm::BikeL3 => "BIKE-L3",
            Algorithm::BikeL5 => "BIKE-L5",
            Algorithm::ClassicMcEliece348864 => "Classic-McEliece-348864",
            Algorithm::ClassicMcEliece348864f => "Classic-McEliece-348864f",
            Algorithm::ClassicMcEliece460896 => "Classic-McEliece-460896",
            Algorithm::ClassicMcEliece460896f => "Classic-McEliece-460896f",
            Algorithm::ClassicMcEliece6688128 => "Classic-McEliece-6688128",
            Algorithm::ClassicMcEliece6688128f => "Classic-McEliece-6688128f",
            Algorithm::ClassicMcEliece6960119 => "Classic-McEliece-6960119",
            Algorithm::ClassicMcEliece6960119f => "Classic-McEliece-6960119f",
            Algorithm::ClassicMcEliece8192128 => "Classic-McEliece-8192128",
            Algorithm::ClassicMcEliece8192128f => "Classic-McEliece-8192128f",
            Algorithm::Hqc128 => "HQC-128",
            Algorithm::Hqc192 => "HQC-192",
            Algorithm::Hqc256 => "HQC-256",
            Algorithm::Kyber512 => "Kyber512",
            Algorithm::Kyber768 => "Kyber768",
            Algorithm::Kyber1024 => "Kyber1024",
            Algorithm::NtruPrimeSntrup761 => "sntrup761",
            Algorithm::FrodoKem640Aes => "FrodoKEM-640-AES",
            Algorithm::FrodoKem640Shake => "FrodoKEM-640-SHAKE",
            Algorithm::FrodoKem976Aes => "FrodoKEM-976-AES",
            Algorithm::FrodoKem976Shake => "FrodoKEM-976-SHAKE",
            Algorithm::FrodoKem1344Aes => "FrodoKEM-1344-AES",
            Algorithm::FrodoKem1344Shake => "FrodoKEM-1344-SHAKE",
            Algorithm::MlKem512 => "ML-KEM-512",
            Algorithm::MlKem768 => "ML-KEM-768",
            Algorithm::MlKem1024 => "ML-KEM-1024",
        }
    }

    /// Returns the algorithm's name, the same string as [`Algorithm::to_id`].
    pub fn name(&self) -> (r: &'static str)
        ensures
            r@ == spec_id(*self),
    {
        (*self).to_id()
    }

    /// Exact-match lookup of an algorithm tag by its identifier string.
    ///
    /// Fails with [`Error::AlgorithmNotSupportedOrKnown`] exactly when no
    /// registered algorithm carries the given name.
    pub fn from_name(s: &str) -> (r: Result<Algorithm>)
        ensures
            r == match spec_from_name(s@) {
                Some(a) => Result::<Algorithm>::Ok(a),
                None => Result::<Algorithm>::Err(Error::AlgorithmNotSupportedOrKnown),
            },
    {
        if crate::str_eq(s, "BIKE-L1") {
            return Ok(Algorithm::BikeL1);
        }
        if crate::str_eq(s, "BIKE-L3") {
            return Ok(Algorithm::BikeL3);
        }
        if crate::str_eq(s, "BIKE-L5") {
            return Ok(Algorithm::BikeL5);
        }
        if crate::str_eq(s, "Classic-McEliece-348864") {
            return Ok(Algorithm::ClassicMcEliece348864);
        }
        if crate::str_eq(s, "Classic-McEliece-348864f") {
            return Ok(Algorithm::ClassicMcEliece348864f);
        }
        if crate::str_eq(s, "Classic-McEliece-460896") {
            return Ok(Algorithm::ClassicMcEliece460896);
        }
        if crate::str_eq(s, "Classic-McEliece-460896f") {
            return Ok(Algorithm::ClassicMcEliece460896f);
        }
        if crate::str_eq(s, "Classic-McEliece-6688128") {
            return Ok(Algorithm::ClassicMcEliece6688128);
        }
        if crate::str_eq(s, "Classic-McEliece-6688128f") {
            return Ok(Algorithm::ClassicMcEliece6688128f);
        }
        if crate::str_eq(s, "Classic-McEliece-6960119") {
            return Ok(Algorithm::ClassicMcEliece6960119);
        }
        if crate::str_eq(s, "Classic-McEliece-6960119f") {
            return Ok(Algorithm::ClassicMcEliece6960119f);
        }
        if crate::str_eq(s, "Classic-McEliece-8192128") {
            return Ok(Algorithm::ClassicMcEliece8192128);
        }
        if crate::str_eq(s, "Classic-McEliece-8192128f") {
            return Ok(Algorithm::ClassicMcEliece8192128f);
        }
        if crate::str_eq(s, "HQC-128") {
            return Ok(Algorithm::Hqc128);
        }
        if crate::str_eq(s, "HQC-192") {
            return Ok(Algorithm::Hqc192);
        }
        if crate::str_eq(s, "HQC-256") {
            return Ok(Algorithm::Hqc256);
        }
        if crate::str_eq(s, "Kyber512") {
            return Ok(Algorithm::Kyber512);
        }
        if crate::str_eq(s, "Kyber768") {
            return Ok(Algorithm::Kyber768);
        }
        if crate::str_eq(s, "Kyber1024") {
            return Ok(Algorithm::Kyber1024);
        }
        if crate::str_eq(s, "sntrup761") {
            return Ok(Algorithm::NtruPrimeSntrup761);
        }
        if crate::str_eq(s, "FrodoKEM-640-AES") {
            return Ok(Algorithm::FrodoKem640Aes);
        }
        if crate::str_eq(s, "FrodoKEM-640-SHAKE") {
            return Ok(Algorithm::FrodoKem640Shake);
        }
        if crate::str_eq(s, "FrodoKEM-976-AES") {
            return Ok(Algorithm::FrodoKem976Aes);
        }
        if crate::str_eq(s, "FrodoKEM-976-SHAKE") {
            return Ok(Algorithm::FrodoKem976Shake);
        }
        if crate::str_eq(s, "FrodoKEM-1344-AES") {
            return Ok(Algorithm::FrodoKem1344Aes);
        }
        if crate::str_eq(s, "FrodoKEM-1344-SHAKE") {
            return Ok(Algorithm::FrodoKem1344Shake);
        }
        if crate::str_eq(s, "ML-KEM-512") {
            return Ok(Algorithm::MlKem512);
        }
        if crate::str_eq(s, "ML-KEM-768") {
            return Ok(Algorithm::MlKem768);
        }
        if crate::str_eq(s, "ML-KEM-1024") {
            return Ok(Algorithm::MlKem1024);
        }
        Err(Error::AlgorithmNotSupportedOrKnown)
    }
}

/// Owned public-key buffer.
///
/// Produced by engine operations, or wrapped around raw bytes; whether the
/// contents fit a given algorithm is checked where the buffer meets a handle.
#[derive(Clone, Debug)]
pub struct PublicKey {
    bytes: Vec<u8>,
}

impl View for PublicKey {
    type V = Seq<u8>;

    closed spec fn view(&self) -> Seq<u8> {
        self.bytes@
    }
}

impl PublicKey {
    /// Wrap an owned byte vector.
    pub fn from_vec(bytes: Vec<u8>) -> (r: PublicKey)
        ensures
            r@ == bytes@,
    {
        PublicKey { bytes }
    }

    /// Obtain the contained vector.
    pub fn into_vec(self) -> (r: Vec<u8>)
        ensures
            r@ == self@,
    {
        self.bytes
    }

    /// Borrow the contained bytes.
    pub fn as_bytes(&self) -> (r: &[u8])
        ensures
            r@ == self@,
    {
        self.bytes.as_slice()
    }

    /// Borrowed view of this buffer.
    pub fn as_borrowed<'a>(&'a self) -> (r: PublicKeyRef<'a>)
        ensures
            r@ == self@,
    {
        PublicKeyRef { bytes: self.bytes.as_slice() }
    }

    /// Length in bytes.
    pub fn len(&self) -> (r: usize)
        ensures
            r == self@.len(),
    {
        self.bytes.len()
    }

    /// True if the buffer is empty.
    pub fn is_empty(&self) -> (r: bool)
        ensures
            r <==> self@.len() == 0,
    {
        self.bytes.len() == 0
    }
}

impl PartialEq for PublicKey {
    fn eq(&self, other: &Self) -> bool {
        crate::bytes_eq(self.bytes.as_slice(), other.bytes.as_slice())
    }
}

impl vstd::std_specs::cmp::PartialEqSpecImpl for PublicKey {
    open spec fn obeys_eq_spec() -> bool {
        true
    }

    open spec fn eq_spec(&self, other: &Self) -> bool {
        self@ == other@
    }
}

/// Borrowed public-key view: a non-owning reference whose length was checked
/// against a handle where it came out of [`Kem`]'s validating constructors.
#[derive(Clone, Copy, Debug)]
pub struct PublicKeyRef<'a> {
    bytes: &'a [u8],
}

impl<'a> View for PublicKeyRef<'a> {
    type V = Seq<u8>;

    closed spec fn view(&self) -> Seq<u8> {
        self.bytes@
    }
}

impl<'a> PublicKeyRef<'a> {
    /// Clone this into the owned variant.
    pub fn to_owned(self) -> (r: PublicKey)
        ensures
            r@ == self@,
    {
        PublicKey { bytes: slice_to_vec(self.bytes) }
    }

    /// Borrow the underlying bytes.
    pub fn as_bytes(&self) -> (r: &'a [u8])
        ensures
            r@ == self@,
    {
        self.bytes
    }

    /// Length in bytes.
    pub fn len(&self) -> (r: usize)
        ensures
            r == self@.len(),
    {
        self.bytes.len()
    }

    /// True if the view is empty.
    pub fn is_empty(&self) -> (r: bool)
        ensures
            r <==> self@.len() == 0,
    {
        self.bytes.len() == 0
    }
}

/// Owned secret-key buffer.
///
/// Produced by engine operations, or wrapped around raw bytes; whether the
/// contents fit a given algorithm is checked where the buffer meets a handle.
#[derive(Clone, Debug)]
pub struct SecretKey {
    bytes: Vec<u8>,
}

impl View for SecretKey {
    type V = Seq<u8>;

    closed spec fn view(&self) -> Seq<u8> {
        self.bytes@
    }
}

impl SecretKey {
    /// Wrap an owned byte vector.
    pub fn from_vec(bytes: Vec<u8>) -> (r: SecretKey)
        ensures
            r@ == bytes@,
    {
        SecretKey { bytes }
    }

    /// Obtain the contained vector.
    pub fn into_vec(self) -> (r: Vec<u8>)
        ensures
            r@ == self@,
    {
        self.bytes
    }

    /// Borrow the contained bytes.
    pub fn as_bytes(&self) -> (r: &[u8])
        ensures
            r@ == self@,
    {
        self.bytes.as_slice()
    }

    /// Borrowed view of this buffer.
    pub fn as_borrowed<'a>(&'a self) -> (r: SecretKeyRef<'a>)
        ensures
            r@ == self@,
    {
        SecretKeyRef { bytes: self.bytes.as_slice() }
    }

    /// Length in bytes.
    pub fn len(&self) -> (r: usize)
        ensures
            r == self@.len(),
    {
        self.bytes.len()
    }

    /// True if the buffer is empty.
    pub fn is_empty(&self) -> (r: bool)
        ensures
            r <==> self@.len() == 0,
    {
        self.bytes.len() == 0
    }
}

impl PartialEq for SecretKey {
    fn eq(&self, other: &Self) -> bool {
        crate::bytes_eq(self.bytes.as_slice(), other.bytes.as_slice())
    }
}

impl vstd::std_specs::cmp::PartialEqSpecImpl for SecretKey {
    open spec fn obeys_eq_spec() -> bool {
        true
    }

    open spec fn eq_spec(&self, other: &Self) -> bool {
        self@ == other@
    }
}

/// Borrowed secret-key view: a non-owning reference whose length was checked
/// against a handle where it came out of [`Kem`]'s validating constructors.
#[derive(Clone, Copy, Debug)]
pub struct SecretKeyRef<'a> {
    bytes: &'a [u8],
}

impl<'a> View for SecretKeyRef<'a> {
    type V = Seq<u8>;

    closed spec fn view(&self) -> Seq<u8> {
        self.bytes@
    }
}

impl<'a> SecretKeyRef<'a> {
    /// Clone this into the owned variant.
    pub fn to_owned(self) -> (r: SecretKey)
        ensures
            r@ == self@,
    {
        SecretKey { bytes: slice_to_vec(self.bytes) }
    }

    /// Borrow the underlying bytes.
    pub fn as_bytes(&self) -> (r: &'a [u8])
        ensures
            r@ == self@,
    {
        self.bytes
    }

    /// Length in bytes.
    pub fn len(&self) -> (r: usize)
        ensures
            r == self@.len(),
    {
        self.bytes.len()
    }

    /// True if the view is empty.
    pub fn is_empty(&self) -> (r: bool)
        ensures
            r <==> self@.len() == 0,
    {
        self.bytes.len() == 0
    }
}

/// Owned ciphertext buffer.
///
/// Produced by engine operations, or wrapped around raw bytes; whether the
/// contents fit a given algorithm is checked where the buffer meets a handle.
#[derive(Clone, Debug)]
pub struct Ciphertext {
    bytes: Vec<u8>,
}

impl View for Ciphertext {
    type V = Seq<u8>;

    closed spec fn view(&self) -> Seq<u8> {
        self.bytes@
    }
}

impl Ciphertext {
    /// Wrap an owned byte vector.
    pub fn from_vec(bytes: Vec<u8>) -> (r: Ciphertext)
        ensures
            r@ == bytes@,
    {
        Ciphertext { bytes }
    }

    /// Obtain the contained vector.
    pub fn into_vec(self) -> (r: Vec<u8>)
        ensures
            r@ == self@,
    {
        self.bytes
    }

    /// Borrow the contained bytes.
    pub fn as_bytes(&self) -> (r: &[u8])
        ensures
            r@ == self@,
    {
        self.bytes.as_slice()
    }

    /// Borrowed view of this buffer.
    pub fn as_borrowed<'a>(&'a self) -> (r: CiphertextRef<'a>)
        ensures
            r@ == self@,
    {
        CiphertextRef { bytes: self.bytes.as_slice() }
    }

    /// Length in bytes.
    pub fn len(&self) -> (r: usize)
        ensures
            r == self@.len(),
    {
        self.bytes.len()
    }

    /// True if the buffer is empty.
    pub fn is_empty(&self) -> (r: bool)
        ensures
            r <==> self@.len() == 0,
    {
        self.bytes.len() == 0
    }
}

impl PartialEq for Ciphertext {
    fn eq(&self, other: &Self) -> bool {
        crate::bytes_eq(self.bytes.as_slice(), other.bytes.as_slice())
    }
}

impl vstd::std_specs::cmp::PartialEqSpecImpl for Ciphertext {
    open spec fn obeys_eq_spec() -> bool {
        true
    }

    open spec fn eq_spec(&self, other: &Self) -> bool {
        self@ == other@
    }
}

/// Borrowed ciphertext view: a non-owning reference whose length was checked
/// against a handle where it came out of [`Kem`]'s validating constructors.
#[derive(Clone, Copy, Debug)]
pub struct CiphertextRef<'a> {
    bytes: &'a [u8],
}

impl<'a> View for CiphertextRef<'a> {
    type V = Seq<u8>;

    closed spec fn view(&self) -> Seq<u8> {
        self.bytes@
    }
}

impl<'a> CiphertextRef<'a> {
    /// Clone this into the owned variant.
    pub fn to_owned(self) -> (r: Ciphertext)
        ensures
            r@ == self@,
    {
        Ciphertext { bytes: slice_to_vec(self.bytes) }
    }

    /// Borrow the underlying bytes.
    pub fn as_bytes(&self) -> (r: &'a [u8])
        ensures
            r@ == self@,
    {
        self.bytes
    }

    /// Length in bytes.
    pub fn len(&self) -> (r: usize)
        ensures
            r == self@.len(),
    {
        self.bytes.len()
    }

    /// True if the view is empty.
    pub fn is_empty(&self) -> (r: bool)
        ensures
            r <==> self@.len() == 0,
    {
        self.bytes.len() == 0
    }
}

/// Owned shared-secret buffer.
///
/// Produced by engine operations, or wrapped around raw bytes; whether the
/// contents fit a given algorithm is checked where the buffer meets a handle.
#[derive(Clone, Debug)]
pub struct SharedSecret {
    bytes: Vec<u8>,
}

impl View for SharedSecret {
    type V = Seq<u8>;

    closed spec fn view(&self) -> Seq<u8> {
        self.bytes@
    }
}

impl SharedSecret {
    /// Wrap an owned byte vector.
    pub fn from_vec(bytes: Vec<u8>) -> (r: SharedSecret)
        ensures
            r@ == bytes@,
    {
        SharedSecret { bytes }
    }

    /// Obtain the contained vector.
    pub fn into_vec(self) -> (r: Vec<u8>)
        ensures
            r@ == self@,
    {
        self.bytes
    }

    /// Borrow the contained bytes.
    pub fn as_bytes(&self) -> (r: &[u8])
        ensures
            r@ == self@,
    {
        self.bytes.as_slice()
    }

    /// Borrowed view of this buffer.
    pub fn as_borrowed<'a>(&'a self) -> (r: SharedSecretRef<'a>)
        ensures
            r@ == self@,
    {
        SharedSecretRef { bytes: self.bytes.as_slice() }
    }

    /// Length in bytes.
    pub fn len(&self) -> (r: usize)
        ensures
            r == self@.len(),
    {
        self.bytes.len()
    }

    /// True if the buffer is empty.
    pub fn is_empty(&self) -> (r: bool)
        ensures
            r <==> self@.len() == 0,
    {
        self.bytes.len() == 0
    }
}

impl PartialEq for SharedSecret {
    fn eq(&self, other: &Self) -> bool {
        crate::bytes_eq(self.bytes.as_slice(), other.bytes.as_slice())
    }
}

impl vstd::std_specs::cmp::PartialEqSpecImpl for SharedSecret {
    open spec fn obeys_eq_spec() -> bool {
        true
    }

    open spec fn eq_spec(&self, other: &Self) -> bool {
        self@ == other@
    }
}

/// Borrowed shared-secret view: a non-owning reference whose length was checked
/// against a handle where it came out of [`Kem`]'s validating constructors.
#[derive(Clone, Copy, Debug)]
pub struct SharedSecretRef<'a> {
    bytes: &'a [u8],
}

impl<'a> View for SharedSecretRef<'a> {
    type V = Seq<u8>;

    closed spec fn view(&self) -> Seq<u8> {
        self.bytes@
    }
}

impl<'a> SharedSecretRef<'a> {
    /// Clone this into the owned variant.
    pub fn to_owned(self) -> (r: SharedSecret)
        ensures
            r@ == self@,
    {
        SharedSecret { bytes: slice_to_vec(self.bytes) }
    }

    /// Borrow the underlying bytes.
    pub fn as_bytes(&self) -> (r: &'a [u8])
        ensures
            r@ == self@,
    {
        self.bytes
    }

    /// Length in bytes.
    pub fn len(&self) -> (r: usize)
        ensures
            r == self@.len(),
    {
        self.bytes.len()
    }

    /// True if the view is empty.
    pub fn is_empty(&self) -> (r: bool)
        ensures
            r <==> self@.len() == 0,
    {
        self.bytes.len() == 0
    }
}

/// KEM engine handle.
///
/// Wraps the capability metadata of one enabled algorithm and exposes the
/// three operations. A handle exists only for an enabled algorithm; it is
/// immutable after construction and safe to share for concurrent reads.
#[derive(Debug)]
pub struct Kem {
    algorithm: Algorithm,
    version: &'static str,
    claimed_nist_level: u8,
    ind_cca: bool,
    length_public_key: usize,
    length_secret_key: usize,
    length_ciphertext: usize,
    length_shared_secret: usize,
}

impl View for Kem {
    type V = Algorithm;

    closed spec fn view(&self) -> Algorithm {
        self.algorithm
    }
}

impl Kem {
    /// A handle's metadata agrees with the registry of its (enabled) algorithm.
    #[verifier::type_invariant]
    spec fn wf(self) -> bool {
        &&& spec_enabled(self.algorithm)
        &&& self.version@ == spec_version(self.algorithm)
        &&& self.claimed_nist_level == spec_nist_level(self.algorithm)
        &&& self.ind_cca == spec_ind_cca(self.algorithm)
        &&& self.length_public_key == spec_length_public_key(self.algorithm)
        &&& self.length_secret_key == spec_length_secret_key(self.algorithm)
        &&& self.length_ciphertext == spec_length_ciphertext(self.algorithm)
        &&& self.length_shared_secret == spec_length_shared_secret(self.algorithm)
    }

    /// Construct a handle for an algorithm.
    ///
    /// Succeeds exactly when the algorithm is enabled in the linked engine
    /// build; otherwise fails with [`Error::AlgorithmDisabled`] and no handle
    /// exists.
    pub fn new(algorithm: Algorithm) -> (r: Result<Kem>)
        ensures
            r is Ok <==> spec_enabled(algorithm),
            r matches Ok(k) ==> k@ == algorithm,
            r matches Err(e) ==> e == Error::AlgorithmDisabled,
    {
        match algorithm {
            Algorithm::MlKem512 => Ok(Kem {
                algorithm,
                version: "FIPS 203",
                claimed_nist_level: 1,
                ind_cca: true,
                length_public_key: 800,
                length_secret_key: 1632,
                length_ciphertext: 768,
                length_shared_secret: 32,
            }),
            Algorithm::MlKem768 => Ok(Kem {
                algorithm,
                version: "FIPS 203",
                claimed_nist_level: 3,
                ind_cca: true,
                length_public_key: 1184,
                length_secret_key: 2400,
                length_ciphertext: 1088,
                length_shared_secret: 32,
            }),
            Algorithm::MlKem1024 => Ok(Kem {
                algorithm,
                version: "FIPS 203",
                claimed_nist_level: 5,
                ind_cca: true,
                length_public_key: 1568,
                length_secret_key: 3168,
                length_ciphertext: 1568,
                length_shared_secret: 32,
            }),
            _ => Err(Error::AlgorithmDisabled),
        }
    }

    /// Get the algorithm used by this `Kem`.
    pub fn algorithm(&self) -> (r: Algorithm)
        ensures
            r == self@,
    {
        self.algorithm
    }

    /// Get the version of the implementation.
    pub fn version(&self) -> (r: &'static str)
        ensures
            r@ == spec_version(self@),
    {
        proof { use_type_invariant(&*self); }
        self.version
    }

    /// Get the claimed NIST level.
    pub fn claimed_nist_level(&self) -> (r: u8)
        ensures
            r == spec_nist_level(self@),
    {
        proof { use_type_invariant(&*self); }
        self.claimed_nist_level
    }

    /// Is the algorithm IND-CCA secure?
    pub fn is_ind_cca(&self) -> (r: bool)
        ensures
            r == spec_ind_cca(self@),
    {
        proof { use_type_invariant(&*self); }
        self.ind_cca
    }

    /// Get the length of the public key.
    pub fn length_public_key(&self) -> (r: usize)
        ensures
            r == spec_length_public_key(self@),
    {
        proof { use_type_invariant(&*self); }
        self.length_public_key
    }

    /// Get the length of the secret key.
    pub fn length_secret_key(&self) -> (r: usize)
        ensures
            r == spec_length_secret_key(self@),
    {
        proof { use_type_invariant(&*self); }
        self.length_secret_key
    }

    /// Get the length of the ciphertext.
    pub fn length_ciphertext(&self) -> (r: usize)
        ensures
            r == spec_length_ciphertext(self@),
    {
        proof { use_type_invariant(&*self); }
        self.length_ciphertext
    }

    /// Get the length of a shared secret.
    pub fn length_shared_secret(&self) -> (r: usize)
        ensures
            r == spec_length_shared_secret(self@),
    {
        proof { use_type_invariant(&*self); }
        self.length_shared_secret
    }

    /// Obtain a secret-key view from bytes.
    ///
    /// Returns `None` exactly when the slice does not have the secret-key
    /// length this algorithm declares.
    pub fn secret_key_from_bytes<'a>(&self, buf: &'a [u8]) -> (r: Option<SecretKeyRef<'a>>)
        ensures
            r is Some <==> buf@.len() == spec_length_secret_key(self@),
            r matches Some(v) ==> v@ == buf@,
    {
        if self.length_secret_key() != buf.len() {
            None
        } else {
            Some(SecretKeyRef { bytes: buf })
        }
    }

    /// Obtain a public-key view from bytes.
    ///
    /// Returns `None` exactly when the slice does not have the public-key
    /// length this algorithm declares.
    pub fn public_key_from_bytes<'a>(&self, buf: &'a [u8]) -> (r: Option<PublicKeyRef<'a>>)
        ensures
            r is Some <==> buf@.len() == spec_length_public_key(self@),
            r matches Some(v) ==> v@ == buf@,
    {
        if self.length_public_key() != buf.len() {
            None
        } else {
            Some(PublicKeyRef { bytes: buf })
        }
    }

    /// Obtain a ciphertext view from bytes.
    ///
    /// Returns `None` exactly when the slice does not have the ciphertext
    /// length this algorithm declares.
    pub fn ciphertext_from_bytes<'a>(&self, buf: &'a [u8]) -> (r: Option<CiphertextRef<'a>>)
        ensures
            r is Some <==> buf@.len() == spec_length_ciphertext(self@),
            r matches Some(v) ==> v@ == buf@,
    {
        if self.length_ciphertext() != buf.len() {
            None
        } else {
            Some(CiphertextRef { bytes: buf })
        }
    }

    /// Obtain a shared-secret view from bytes.
    ///
    /// Returns `None` exactly when the slice does not have the shared-secret
    /// length this algorithm declares.
    pub fn shared_secret_from_bytes<'a>(&self, buf: &'a [u8]) -> (r: Option<SharedSecretRef<'a>>)
        ensures
            r is Some <==> buf@.len() == spec_length_shared_secret(self@),
            r matches Some(v) ==> v@ == buf@,
    {
        if self.length_shared_secret() != buf.len() {
            None
        } else {
            Some(SharedSecretRef { bytes: buf })
        }
    }

    /// Generate a new keypair.
    ///
    /// On success both buffers have exactly the lengths this algorithm
    /// declares and form one matched pair; a backend failure is reported as
    /// [`Error::Error`].
    pub fn keypair(&self) -> (r: Result<(PublicKey, SecretKey)>)
        ensures
            r matches Ok(p) ==> p.0@.len() == spec_length_public_key(self@)
                && p.1@.len() == spec_length_secret_key(self@),
            r matches Ok(p) ==> spec_keypair_linked(self@, p.0@, p.1@),
            r matches Err(e) ==> e == Error::Error,
    {
        proof { use_type_invariant(&*self); }
        match self.algorithm {
            Algorithm::MlKem512 => match mlkem512_keygen() {
                Some(p) => Ok((PublicKey { bytes: p.0 }, SecretKey { bytes: p.1 })),
                None => Err(Error::Error),
            },
            Algorithm::MlKem768 => match mlkem768_keygen() {
                Some(p) => Ok((PublicKey { bytes: p.0 }, SecretKey { bytes: p.1 })),
                None => Err(Error::Error),
            },
            Algorithm::MlKem1024 => match mlkem1024_keygen() {
                Some(p) => Ok((PublicKey { bytes: p.0 }, SecretKey { bytes: p.1 })),
                None => Err(Error::Error),
            },
            _ => vstd::pervasive::unreached(),
        }
    }

    /// Encapsulate to the provided public key.
    ///
    /// A public key of the wrong length is rejected locally with
    /// [`Error::InvalidLength`], before any engine call. On success the
    /// ciphertext and shared secret have exactly the declared lengths, and
    /// decapsulating the ciphertext under any secret key matched with this
    /// public key recovers the shared secret: the scheme's round trip.
    pub fn encapsulate<'a>(&self, pk: PublicKeyRef<'a>) -> (r: Result<(Ciphertext, SharedSecret)>)
        ensures
            pk@.len() != spec_length_public_key(self@)
                ==> (r matches Err(e) && e == Error::InvalidLength),
            pk@.len() == spec_length_public_key(self@)
                ==> (r matches Err(e) ==> e == Error::Error),
            r matches Ok(p) ==> pk@.len() == spec_length_public_key(self@)
                && p.0@.len() == spec_length_ciphertext(self@)
                && p.1@.len() == spec_length_shared_secret(self@),
            r matches Ok(p) ==> forall|sk: Seq<u8>|
                #[trigger] spec_keypair_linked(self@, pk@, sk)
                    ==> spec_decapsulation(self@, sk, p.0@) == Some(p.1@),
    {
        proof { use_type_invariant(&*self); }
        if pk.len() != self.length_public_key() {
            return Err(Error::InvalidLength);
        }
        match self.algorithm {
            Algorithm::MlKem512 => match mlkem512_encaps(pk.bytes) {
                Some(p) => Ok((Ciphertext { bytes: p.0 }, SharedSecret { bytes: p.1 })),
                None => Err(Error::Error),
            },
            Algorithm::MlKem768 => match mlkem768_encaps(pk.bytes) {
                Some(p) => Ok((Ciphertext { bytes: p.0 }, SharedSecret { bytes: p.1 })),
                None => Err(Error::Error),
            },
            Algorithm::MlKem1024 => match mlkem1024_encaps(pk.bytes) {
                Some(p) => Ok((Ciphertext { bytes: p.0 }, SharedSecret { bytes: p.1 })),
                None => Err(Error::Error),
            },
            _ => vstd::pervasive::unreached(),
        }
    }

    /// Decapsulate the provided ciphertext.
    ///
    /// Wrong-length buffers are rejected locally with
    /// [`Error::InvalidLength`], before any engine call. With valid lengths
    /// the outcome is exactly the engine's decapsulation of these bytes,
    /// named by [`spec_decapsulation`].
    pub fn decapsulate<'a, 'b>(
        &self,
        sk: SecretKeyRef<'a>,
        ct: CiphertextRef<'b>,
    ) -> (r: Result<SharedSecret>)
        ensures
            !(sk@.len() == spec_length_secret_key(self@)
                && ct@.len() == spec_length_ciphertext(self@))
                ==> (r matches Err(e) && e == Error::InvalidLength),
            sk@.len() == spec_length_secret_key(self@)
                && ct@.len() == spec_length_ciphertext(self@)
                ==> match spec_decapsulation(self@, sk@, ct@) {
                    Some(ss) => (r matches Ok(v) && v@ == ss),
                    None => (r matches Err(e) && e == Error::Error),
                },
    {
        proof { use_type_invariant(&*self); }
        if sk.len() != self.length_secret_key() || ct.len() != self.length_ciphertext() {
            return Err(Error::InvalidLength);
        }
        match self.algorithm {
            Algorithm::MlKem512 => match mlkem512_decaps(sk.bytes, ct.bytes) {
                Some(v) => Ok(SharedSecret { bytes: v }),
                None => Err(Error::Error),
            },
            Algorithm::MlKem768 => match mlkem768_decaps(sk.bytes, ct.bytes) {
                Some(v) => Ok(SharedSecret { bytes: v }),
                None => Err(Error::Error),
            },
            Algorithm::MlKem1024 => match mlkem1024_decaps(sk.bytes, ct.bytes) {
                Some(v) => Ok(SharedSecret { bytes: v }),
                None => Err(Error::Error),
            },
            _ => vstd::pervasive::unreached(),
        }
    }
}

/// Whether a public/secret key pair can come out of ML-KEM-512 generation
/// together; such pairs satisfy the scheme's correctness property.
pub uninterp spec fn mlkem512_keypair_linked(ek: Seq<u8>, dk: Seq<u8>) -> bool;

/// Whether a public/secret key pair can come out of ML-KEM-768 generation
/// together; such pairs satisfy the scheme's correctness property.
pub uninterp spec fn mlkem768_keypair_linked(ek: Seq<u8>, dk: Seq<u8>) -> bool;

/// Whether a public/secret key pair can come out of ML-KEM-1024 generation
/// together; such pairs satisfy the scheme's correctness property.
pub uninterp spec fn mlkem1024_keypair_linked(ek: Seq<u8>, dk: Seq<u8>) -> bool;

/// Whether a public/secret key pair belongs to one generation run of the
/// enabled algorithm.
pub open spec fn spec_keypair_linked(a: Algorithm, pk: Seq<u8>, sk: Seq<u8>) -> bool {
    match a {
        Algorithm::MlKem512 => mlkem512_keypair_linked(pk, sk),
        Algorithm::MlKem768 => mlkem768_keypair_linked(pk, sk),
        Algorithm::MlKem1024 => mlkem1024_keypair_linked(pk, sk),
        _ => false,
    }
}

/// What decapsulation returns for ML-KEM-512 key and ciphertext bytes.
pub uninterp spec fn mlkem512_decaps_result(dk: Seq<u8>, ct: Seq<u8>) -> Option<Seq<u8>>;

/// What decapsulation returns for ML-KEM-768 key and ciphertext bytes.
pub uninterp spec fn mlkem768_decaps_result(dk: Seq<u8>, ct: Seq<u8>) -> Option<Seq<u8>>;

/// What decapsulation returns for ML-KEM-1024 key and ciphertext bytes.
pub uninterp spec fn mlkem1024_decaps_result(dk: Seq<u8>, ct: Seq<u8>) -> Option<Seq<u8>>;

/// The engine's decapsulation outcome, per enabled algorithm.
///
/// Decapsulation is deterministic in the secret-key and ciphertext bytes, so
/// the outcome has a name even though only the engine can compute it.
pub open spec fn spec_decapsulation(a: Algorithm, dk: Seq<u8>, ct: Seq<u8>) -> Option<Seq<u8>> {
    match a {
        Algorithm::MlKem512 => mlkem512_decaps_result(dk, ct),
        Algorithm::MlKem768 => mlkem768_decaps_result(dk, ct),
        Algorithm::MlKem1024 => mlkem1024_decaps_result(dk, ct),
        _ => None,
    }
}

/// Relies on fips203 `ml_kem_512::KG::try_keygen`: on success the pair
/// serializes to an 800-byte encapsulation key and a 1632-byte decapsulation
/// key, and the pair comes out of one generation run, which the correctness
/// property of the scheme holds of. The result also depends on the OS random
/// number generator.
#[verifier::external_body]
fn mlkem512_keygen() -> (r: Option<(Vec<u8>, Vec<u8>)>)
    ensures
        r matches Some(p) ==> p.0@.len() == 800 && p.1@.len() == 1632,
        r matches Some(p) ==> mlkem512_keypair_linked(p.0@, p.1@),
{
    match fips203::ml_kem_512::KG::try_keygen() {
        Ok((ek, dk)) => Some((ek.into_bytes().to_vec(), dk.into_bytes().to_vec())),
        Err(_) => None,
    }
}

/// Relies on fips203 `ml_kem_768::KG::try_keygen`: on success the pair
/// serializes to a 1184-byte encapsulation key and a 2400-byte decapsulation
/// key, and the pair comes out of one generation run, which the correctness
/// property of the scheme holds of. The result also depends on the OS random
/// number generator.
#[verifier::external_body]
fn mlkem768_keygen() -> (r: Option<(Vec<u8>, Vec<u8>)>)
    ensures
        r matches Some(p) ==> p.0@.len() == 1184 && p.1@.len() == 2400,
        r matches Some(p) ==> mlkem768_keypair_linked(p.0@, p.1@),
{
    match fips203::ml_kem_768::KG::try_keygen() {
        Ok((ek, dk)) => Some((ek.into_bytes().to_vec(), dk.into_bytes().to_vec())),
        Err(_) => None,
    }
}

/// Relies on fips203 `ml_kem_1024::KG::try_keygen`: on success the pair
/// serializes to a 1568-byte encapsulation key and a 3168-byte decapsulation
/// key, and the pair comes out of one generation run, which the correctness
/// property of the scheme holds of. The result also depends on the OS random
/// number generator.
#[verifier::external_body]
fn mlkem1024_keygen() -> (r: Option<(Vec<u8>, Vec<u8>)>)
    ensures
        r matches Some(p) ==> p.0@.len() == 1568 && p.1@.len() == 3168,
        r matches Some(p) ==> mlkem1024_keypair_linked(p.0@, p.1@),
{
    match fips203::ml_kem_1024::KG::try_keygen() {
        Ok((ek, dk)) => Some((ek.into_bytes().to_vec(), dk.into_bytes().to_vec())),
        Err(_) => None,
    }
}

/// Relies on fips203 `ml_kem_512::EncapsKey::{try_from_bytes, try_encaps}`:
/// on success the ciphertext is 768 bytes and the shared secret 32 bytes.
/// The result also depends on the OS random number generator. Per the
/// scheme's correctness property, decapsulating the produced ciphertext
/// under any secret key generated with this public key recovers exactly the
/// produced shared secret.
#[verifier::external_body]
fn mlkem512_encaps(ek: &[u8]) -> (r: Option<(Vec<u8>, Vec<u8>)>)
    requires
        ek@.len() == 800,
    ensures
        r matches Some(p) ==> p.0@.len() == 768 && p.1@.len() == 32,
        r matches Some(p) ==> forall|dk: Seq<u8>|
            #[trigger] mlkem512_keypair_linked(ek@, dk)
                ==> mlkem512_decaps_result(dk, p.0@) == Some(p.1@),
{
    let arr: [u8; 800] = match ek.try_into() { Ok(a) => a, Err(_) => return None };
    let key = match fips203::ml_kem_512::EncapsKey::try_from_bytes(arr) { Ok(k) => k, Err(_) => return None };
    match key.try_encaps() {
        Ok((ssk, ct)) => Some((ct.into_bytes().to_vec(), ssk.into_bytes().to_vec())),
        Err(_) => None,
    }
}

/// Relies on fips203 `ml_kem_768::EncapsKey::{try_from_bytes, try_encaps}`:
/// on success the ciphertext is 1088 bytes and the shared secret 32 bytes.
/// The result also depends on the OS random number generator. Per the
/// scheme's correctness property, decapsulating the produced ciphertext
/// under any secret key generated with this public key recovers exactly the
/// produced shared secret.
#[verifier::external_body]
fn mlkem768_encaps(ek: &[u8]) -> (r: Option<(Vec<u8>, Vec<u8>)>)
    requires
        ek@.len() == 1184,
    ensures
        r matches Some(p) ==> p.0@.len() == 1088 && p.1@.len() == 32,
        r matches Some(p) ==> forall|dk: Seq<u8>|
            #[trigger] mlkem768_keypair_linked(ek@, dk)
                ==> mlkem768_decaps_result(dk, p.0@) == Some(p.1@),
{
    let arr: [u8; 1184] = match ek.try_into() { Ok(a) => a, Err(_) => return None };
    let key = match fips203::ml_kem_768::EncapsKey::try_from_bytes(arr) { Ok(k) => k, Err(_) => return None };
    match key.try_encaps() {
        Ok((ssk, ct)) => Some((ct.into_bytes().to_vec(), ssk.into_bytes().to_vec())),
        Err(_) => None,
    }
}

/// Relies on fips203 `ml_kem_1024::EncapsKey::{try_from_bytes, try_encaps}`:
/// on success the ciphertext is 1568 bytes and the shared secret 32 bytes.
/// The result also depends on the OS random number generator. Per the
/// scheme's correctness property, decapsulating the produced ciphertext
/// under any secret key generated with this public key recovers exactly the
/// produced shared secret.
#[verifier::external_body]
fn mlkem1024_encaps(ek: &[u8]) -> (r: Option<(Vec<u8>, Vec<u8>)>)
    requires
        ek@.len() == 1568,
    ensures
        r matches Some(p) ==> p.0@.len() == 1568 && p.1@.len() == 32,
        r matches Some(p) ==> forall|dk: Seq<u8>|
            #[trigger] mlkem1024_keypair_linked(ek@, dk)
                ==> mlkem1024_decaps_result(dk, p.0@) == Some(p.1@),
{
    let arr: [u8; 1568] = match ek.try_into() { Ok(a) => a, Err(_) => return None };
    let key = match fips203::ml_kem_1024::EncapsKey::try_from_bytes(arr) { Ok(k) => k, Err(_) => return None };
    match key.try_encaps() {
        Ok((ssk, ct)) => Some((ct.into_bytes().to_vec(), ssk.into_bytes().to_vec())),
        Err(_) => None,
    }
}

/// Relies on fips203 `ml_kem_512::DecapsKey::{try_from_bytes, try_decaps}`:
/// key deserialization validates the bytes, and decapsulation is a function
/// of the key and ciphertext bytes alone; a shared secret is 32 bytes.
#[verifier::external_body]
fn mlkem512_decaps(dk: &[u8], ct: &[u8]) -> (r: Option<Vec<u8>>)
    requires
        dk@.len() == 1632,
        ct@.len() == 768,
    ensures
        r matches Some(ss) ==> ss@.len() == 32 && mlkem512_decaps_result(dk@, ct@) == Some(ss@),
        r is None ==> mlkem512_decaps_result(dk@, ct@) is None,
{
    let dk_arr: [u8; 1632] = match dk.try_into() { Ok(a) => a, Err(_) => return None };
    let ct_arr: [u8; 768] = match ct.try_into() { Ok(a) => a, Err(_) => return None };
    let key = match fips203::ml_kem_512::DecapsKey::try_from_bytes(dk_arr) { Ok(k) => k, Err(_) => return None };
    let ct_obj = match fips203::ml_kem_512::CipherText::try_from_bytes(ct_arr) { Ok(c) => c, Err(_) => return None };
    match key.try_decaps(&ct_obj) {
        Ok(ssk) => Some(ssk.into_bytes().to_vec()),
        Err(_) => None,
    }
}

/// Relies on fips203 `ml_kem_768::DecapsKey::{try_from_bytes, try_decaps}`:
/// key deserialization validates the bytes, and decapsulation is a function
/// of the key and ciphertext bytes alone; a shared secret is 32 bytes.
#[verifier::external_body]
fn mlkem768_decaps(dk: &[u8], ct: &[u8]) -> (r: Option<Vec<u8>>)
    requires
        dk@.len() == 2400,
        ct@.len() == 1088,
    ensures
        r matches Some(ss) ==> ss@.len() == 32 && mlkem768_decaps_result(dk@, ct@) == Some(ss@),
        r is None ==> mlkem768_decaps_result(dk@, ct@) is None,
{
    let dk_arr: [u8; 2400] = match dk.try_into() { Ok(a) => a, Err(_) => return None };
    let ct_arr: [u8; 1088] = match ct.try_into() { Ok(a) => a, Err(_) => return None };
    let key = match fips203::ml_kem_768::DecapsKey::try_from_bytes(dk_arr) { Ok(k) => k, Err(_) => return None };
    let ct_obj = match fips203::ml_kem_768::CipherText::try_from_bytes(ct_arr) { Ok(c) => c, Err(_) => return None };
    match key.try_decaps(&ct_obj) {
        Ok(ssk) => Some(ssk.into_bytes().to_vec()),
        Err(_) => None,
    }
}

/// Relies on fips203 `ml_kem_1024::DecapsKey::{try_from_bytes, try_decaps}`:
/// key deserialization validates the bytes, and decapsulation is a function
/// of the key and ciphertext bytes alone; a shared secret is 32 bytes.
#[verifier::external_body]
fn mlkem1024_decaps(dk: &[u8], ct: &[u8]) -> (r: Option<Vec<u8>>)
    requires
        dk@.len() == 3168,
        ct@.len() == 1568,
    ensures
        r matches Some(ss) ==> ss@.len() == 32 && mlkem1024_decaps_result(dk@, ct@) == Some(ss@),
        r is None ==> mlkem1024_decaps_result(dk@, ct@) is None,
{
    let dk_arr: [u8; 3168] = match dk.try_into() { Ok(a) => a, Err(_) => return None };
    let ct_arr: [u8; 1568] = match ct.try_into() { Ok(a) => a, Err(_) => return None };
    let key = match fips203::ml_kem_1024::DecapsKey::try_from_bytes(dk_arr) { Ok(k) => k, Err(_) => return None };
    let ct_obj = match fips203::ml_kem_1024::CipherText::try_from_bytes(ct_arr) { Ok(c) => c, Err(_) => return None };
    match key.try_decaps(&ct_obj) {
        Ok(ssk) => Some(ssk.into_bytes().to_vec()),
        Err(_) => None,
    }
}

} // verus!
