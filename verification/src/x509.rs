//! Certificate descriptors: borrowed views over DER bytes or over
//! NUL-terminated PEM text.

use crate::error::ConfigurationError;
use crate::nul::{
    bytes_eq, find_nul, first_nul, has_nul, is_first_nul, is_nul_terminated, lemma_first_nul,
    lemma_terminated_is_whole, lemma_through_first_nul_terminated, through_first_nul,
};
use vstd::prelude::*;
use vstd::std_specs::cmp::PartialEqSpecImpl;

verus! {

/// A certificate, as a borrowed region of bytes.
///
/// The region is either DER (any bytes) or PEM text that ends with its one
/// NUL byte. Which of the two it is follows from the constructor used; the
/// descriptor itself stores the region only, never copies it and never
/// changes it.
#[derive(Clone, Copy)]
pub struct X509<'a>(&'a [u8]);

impl<'a> View for X509<'a> {
    type V = Seq<u8>;

    /// The bytes of the region, which are the bytes that `data` hands out.
    closed spec fn view(&self) -> Seq<u8> {
        self.0@
    }
}

impl<'a> X509<'a> {
    /// What [`X509::pem`] returns.
    pub closed spec fn spec_pem(bytes: &'a [u8]) -> Self {
        X509(bytes)
    }

    /// What [`X509::der`] returns.
    pub closed spec fn spec_der(bytes: &'a [u8]) -> Self {
        X509(bytes)
    }

    /// What [`X509::data`] returns.
    pub closed spec fn spec_data(&self) -> &[u8] {
        self.0
    }

    /// A descriptor over PEM text that already ends with its NUL byte, the
    /// terminator being part of the region.
    ///
    /// Nothing is checked here. The consumer reads the region as a C
    /// string, so a region that does not end with its only NUL byte would
    /// be misread there; the precondition keeps such a region out. For a
    /// buffer that may hold more after the terminator, or none, use
    /// [`X509::pem_until_nul`].
    #[verifier::when_used_as_spec(spec_pem)]
    pub fn pem(bytes: &'a [u8]) -> (r: Self)
        requires
            is_nul_terminated(bytes@),
        ensures
            r == Self::spec_pem(bytes),
            r@ == bytes@,
            is_nul_terminated(r@),
    {
        X509(bytes)
    }

    /// A descriptor over the PEM text at the start of `bytes`: the region
    /// from the first byte up to the first NUL byte, that byte being its
    /// last. What follows the terminator in `bytes` is left out.
    ///
    /// A buffer without any NUL byte is refused with
    /// [`ConfigurationError::MissingNulTerminator`]: such a buffer means
    /// that the certificate was embedded wrongly when the program was
    /// built.
    pub fn pem_until_nul(bytes: &'a [u8]) -> (r: Result<Self, ConfigurationError>)
        ensures
            r is Ok <==> has_nul(bytes@),
            r matches Ok(x) ==> {
                &&& x@ == through_first_nul(bytes@)
                &&& x@.len() == first_nul(bytes@) + 1
                &&& is_first_nul(bytes@, first_nul(bytes@))
                &&& is_nul_terminated(x@)
            },
            r matches Err(e) ==> e == ConfigurationError::MissingNulTerminator,
    {
        match find_nul(bytes) {
            Some(nul_pos) => {
                proof {
                    lemma_first_nul(bytes@);
                    lemma_through_first_nul_terminated(bytes@);
                }
                assert(nul_pos < bytes.len());
                Ok(X509(&bytes[0..nul_pos + 1]))
            },
            None => Err(ConfigurationError::MissingNulTerminator),
        }
    }

    /// A descriptor over DER bytes, taken as they are.
    #[verifier::when_used_as_spec(spec_der)]
    pub fn der(bytes: &'a [u8]) -> (r: Self)
        ensures
            r == Self::spec_der(bytes),
            r@ == bytes@,
    {
        X509(bytes)
    }

    /// The region that the descriptor stands for.
    #[verifier::when_used_as_spec(spec_data)]
    pub fn data(&self) -> (r: &[u8])
        ensures
            r == self.spec_data(),
            r@ == self@,
    {
        self.0
    }

    /// The number of bytes in the region, which is the length that goes to
    /// the consumer beside the region's address.
    pub fn as_esp_idf_raw_len(&self) -> (r: usize)
        ensures
            r == self@.len(),
    {
        self.data().len()
    }
}

/// A descriptor made by [`X509::pem`] hands out the very bytes it was made
/// from, terminator and all.
pub proof fn lemma_pem_data_round_trip(bytes: &[u8])
    requires
        is_nul_terminated(bytes@),
    ensures
        X509::pem(bytes).data()@ == bytes@,
        X509::pem(bytes)@ == bytes@,
{
}

/// A descriptor made by [`X509::der`] hands out the very bytes it was made
/// from, whatever they are.
pub proof fn lemma_der_data_round_trip(bytes: &[u8])
    ensures
        X509::der(bytes).data()@ == bytes@,
        X509::der(bytes)@ == bytes@,
{
}

/// Scanning a text that already ends with its only NUL byte finds the
/// whole text: on such bytes [`X509::pem_until_nul`] succeeds, and its
/// descriptor denotes the region that the one of [`X509::pem`] denotes.
pub proof fn lemma_pem_until_nul_of_terminated(
    bytes: &[u8],
    r: Result<X509<'_>, ConfigurationError>,
)
    requires
        is_nul_terminated(bytes@),
        call_ensures(X509::pem_until_nul, (bytes,), r),
    ensures
        r matches Ok(x) && x@ == X509::pem(bytes)@ && x@ == bytes@,
{
    lemma_terminated_is_whole(bytes@);
}

/// Reading a descriptor is repeatable: whatever two calls of
/// [`X509::data`] on one descriptor return, the two results hold the same
/// bytes, and these are the bytes that the descriptor denotes.
pub proof fn lemma_data_idempotent(x: X509<'_>, first: &[u8], second: &[u8])
    requires
        call_ensures(X509::data, (&x,), first),
        call_ensures(X509::data, (&x,), second),
    ensures
        first@ == second@,
        first@ == x@,
{
}

impl<'a> PartialEq for X509<'a> {
    /// Two descriptors are equal where their regions hold the same bytes,
    /// wherever those regions lie.
    fn eq(&self, other: &Self) -> (r: bool) {
        bytes_eq(self.0, other.0)
    }
}

impl<'a> PartialEqSpecImpl for X509<'a> {
    open spec fn obeys_eq_spec() -> bool {
        true
    }

    open spec fn eq_spec(&self, other: &Self) -> bool {
        self@ == other@
    }
}

impl<'a> Eq for X509<'a> {

}

} // verus!
