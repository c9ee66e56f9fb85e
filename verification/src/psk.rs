//! Pre-shared keys: the borrowed descriptor that a caller fills in, and the
//! long-lived form that owns what the consumer will read through it.

use crate::cstr::{
    c_string_of, has_nul_char, lemma_c_string_of, lemma_nul_byte_iff_nul_char, CstrPool,
};
use crate::error::ConversionError;
use crate::nul::{bytes_eq, has_nul, is_nul_terminated, with_nul};
use vstd::pervasive::unreached;
use vstd::prelude::*;
use vstd::std_specs::cmp::PartialEqSpecImpl;
use vstd::std_specs::convert::TryFromSpecImpl;
use vstd::utf8::{encode_utf8, encode_utf8_decode_utf8};

verus! {

/// What a [`Psk`] denotes: the bytes of the key and the characters of the
/// hint.
pub struct PskView {
    pub key: Seq<u8>,
    pub hint: Seq<char>,
}

/// A pre-shared key together with the hint by which the peer picks it.
///
/// Both fields borrow from the caller. Copying the descriptor copies the
/// two borrows, never the bytes behind them.
#[derive(Clone, Copy)]
pub struct Psk<'a> {
    pub key: &'a [u8],
    pub hint: &'a str,
}

impl<'a> View for Psk<'a> {
    type V = PskView;

    open spec fn view(&self) -> PskView {
        PskView { key: self.key@, hint: self.hint@ }
    }
}

impl<'a> PartialEq for Psk<'a> {
    /// Two descriptors are equal where their keys hold the same bytes and
    /// their hints the same characters, wherever the two lie in memory.
    fn eq(&self, other: &Self) -> (r: bool) {
        proof {
            encode_utf8_decode_utf8(self.hint@);
            encode_utf8_decode_utf8(other.hint@);
        }
        bytes_eq(self.key, other.key) && bytes_eq(self.hint.as_bytes(), other.hint.as_bytes())
    }
}

impl<'a> PartialEqSpecImpl for Psk<'a> {
    open spec fn obeys_eq_spec() -> bool {
        true
    }

    open spec fn eq_spec(&self, other: &Self) -> bool {
        self@ == other@
    }
}

impl<'a> Eq for Psk<'a> {

}

/// The record that the consumer reads, field for field in the order in
/// which it expects them: where the key lies, how many bytes it has, and
/// where the hint lies as a C string.
///
/// The key is the caller's own region, borrowed and not copied. The hint
/// is named by its handle in the pool that travels with the record.
#[derive(Clone, Copy)]
pub struct PskHintKey<'a> {
    pub key: &'a [u8],
    pub key_size: usize,
    pub hint: usize,
}

/// What a [`TlsPsk`] denotes.
pub struct TlsPskView {
    /// The bytes of the key.
    pub key: Seq<u8>,
    /// The number of key bytes that the record announces.
    pub key_size: nat,
    /// The handle under which the pool holds the hint.
    pub hint: nat,
    /// The C strings in the pool.
    pub cstrs: Seq<Seq<u8>>,
}

impl TlsPskView {
    /// The record announces the true length of the key, its hint names a
    /// copy that the pool holds, and that copy is a C string.
    pub open spec fn wf(self) -> bool {
        &&& self.key_size == self.key.len()
        &&& self.hint < self.cstrs.len()
        &&& is_nul_terminated(self.cstrs[self.hint as int])
    }

    /// The bytes that the record's hint leads to, terminator and all.
    pub open spec fn hint_bytes(self) -> Seq<u8> {
        self.cstrs[self.hint as int]
    }
}

/// What materializing the descriptor `psk` gives: a record over the same
/// key bytes whose hint leads to the C string of the hint text, in a pool
/// that holds nothing else; or, for a hint with a NUL character in it,
/// [`ConversionError::InteriorNul`].
pub open spec fn materialized(psk: PskView) -> Result<TlsPskView, ConversionError> {
    if has_nul_char(psk.hint) {
        Err(ConversionError::InteriorNul)
    } else {
        Ok(
            TlsPskView {
                key: psk.key,
                key_size: psk.key.len(),
                hint: 0,
                cstrs: seq![c_string_of(psk.hint)],
            },
        )
    }
}

/// Materializing succeeds for every hint whose UTF-8 bytes hold no NUL
/// byte. The record then borrows exactly the key bytes of the descriptor
/// and announces exactly their number, and its hint leads to the hint's
/// bytes followed by the one NUL byte.
pub proof fn lemma_materialize_succeeds(psk: PskView)
    requires
        !has_nul(encode_utf8(psk.hint)),
    ensures
        materialized(psk) matches Ok(t) && {
            &&& t.wf()
            &&& t.key == psk.key
            &&& t.key_size == psk.key.len()
            &&& t.hint_bytes() == with_nul(encode_utf8(psk.hint))
            &&& is_nul_terminated(t.hint_bytes())
            &&& t.cstrs.len() == 1
        },
{
    lemma_nul_byte_iff_nul_char(psk.hint);
    lemma_c_string_of(psk.hint);
}

/// Materializing fails, with [`ConversionError::InteriorNul`], for every
/// hint whose UTF-8 bytes hold a NUL byte, whatever the key.
pub proof fn lemma_materialize_fails(psk: PskView)
    requires
        has_nul(encode_utf8(psk.hint)),
    ensures
        materialized(psk) == Err::<TlsPskView, ConversionError>(ConversionError::InteriorNul),
{
    lemma_nul_byte_iff_nul_char(psk.hint);
}

/// A pre-shared key in the form that outlives the setup of a connection:
/// the record for the consumer and the pool that owns the hint's C string,
/// kept together so that neither can be dropped without the other.
///
/// The key bytes are not owned. They stay where the [`Psk`] had them, and
/// the lifetime `'a` keeps this value from outliving them.
pub struct TlsPsk<'a> {
    psk: PskHintKey<'a>,
    cstrs: CstrPool,
}

impl<'a> View for TlsPsk<'a> {
    type V = TlsPskView;

    closed spec fn view(&self) -> TlsPskView {
        TlsPskView {
            key: self.psk.key@,
            key_size: self.psk.key_size as nat,
            hint: self.psk.hint as nat,
            cstrs: self.cstrs@,
        }
    }
}

impl<'a> TlsPsk<'a> {
    #[verifier::type_invariant]
    spec fn well_formed(&self) -> bool {
        &&& self.psk.key_size == self.psk.key@.len()
        &&& self.psk.hint < self.cstrs@.len()
    }

    /// The record for the consumer.
    pub fn psk(&self) -> (r: &PskHintKey<'a>)
        ensures
            r.key@ == self@.key,
            r.key_size == self@.key_size,
            r.hint == self@.hint,
            r.key_size == r.key@.len(),
            r.hint < self@.cstrs.len(),
    {
        proof {
            use_type_invariant(self);
        }
        &self.psk
    }

    /// The pool that owns the hint's C string.
    pub fn cstrs(&self) -> (r: &CstrPool)
        ensures
            r@ == self@.cstrs,
    {
        &self.cstrs
    }

    /// The key bytes, in the caller's own region.
    pub fn key(&self) -> (r: &'a [u8])
        ensures
            r@ == self@.key,
    {
        self.psk.key
    }

    /// The number of key bytes, as the record announces it; it is the
    /// length of the key.
    pub fn key_size(&self) -> (r: usize)
        ensures
            r == self@.key_size,
            r == self@.key.len(),
    {
        proof {
            use_type_invariant(self);
        }
        self.psk.key_size
    }

    /// The hint as the consumer will read it: the bytes that the record's
    /// hint leads to, which end with their only NUL byte.
    pub fn hint(&self) -> (r: &[u8])
        ensures
            r@ == self@.hint_bytes(),
            is_nul_terminated(r@),
    {
        proof {
            use_type_invariant(self);
        }
        match self.cstrs.get(self.psk.hint) {
            Some(bytes) => bytes,
            None => unreached(),
        }
    }
}

impl<'a, 'b> TryFrom<&'b Psk<'a>> for TlsPsk<'a> {
    type Error = ConversionError;

    /// Materializes `conf`: copies the hint into a fresh pool as a C string
    /// and builds the record over the borrowed key and that copy.
    ///
    /// This succeeds for every hint without a NUL character and fails with
    /// [`ConversionError::InteriorNul`] for every other; nothing else can
    /// make it fail, and nothing is left behind where it fails.
    fn try_from(conf: &'b Psk<'a>) -> (r: Result<Self, ConversionError>)
        ensures
            r is Err <==> has_nul_char(conf.hint@),
            r is Err <==> has_nul(encode_utf8(conf.hint@)),
            r matches Err(e) ==> materialized(conf@) == Err::<TlsPskView, ConversionError>(e),
            r matches Ok(t) ==> {
                &&& materialized(conf@) == Ok::<TlsPskView, ConversionError>(t@)
                &&& t@.wf()
                &&& t@.key == conf.key@
                &&& t@.key_size == conf.key@.len()
                &&& t@.hint_bytes() == c_string_of(conf.hint@)
            },
    {
        let mut cstrs = CstrPool::new();
        proof {
            lemma_c_string_of(conf.hint@);
            lemma_nul_byte_iff_nul_char(conf.hint@);
        }
        match cstrs.intern(conf.hint) {
            Ok(hint) => {
                let psk = PskHintKey { key: conf.key, key_size: conf.key.len(), hint };
                let t = TlsPsk { psk, cstrs };
                assert(t@.cstrs =~= seq![c_string_of(conf.hint@)]);
                Ok(t)
            },
            Err(e) => Err(e),
        }
    }
}

impl<'a, 'b> TryFromSpecImpl<&'b Psk<'a>> for TlsPsk<'a> {
    /// No claim is made through `try_from_spec`. The result owns heap
    /// memory, so two results of one call agree in what they denote and
    /// need not be the same value, and no spec value can be named as the
    /// result. What `try_from` returns is stated in its own `ensures`,
    /// over the result's view and [`materialized`].
    open spec fn obeys_try_from_spec() -> bool {
        false
    }

    open spec fn try_from_spec(v: &'b Psk<'a>) -> Result<Self, ConversionError> {
        arbitrary()
    }
}

} // verus!
